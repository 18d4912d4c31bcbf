//! Privacy engine for multi-platform session isolation: the per-platform
//! session directory layout, the content-security-policy table, the
//! tracking-domain deny list, and the bookkeeping of clear operations.
//!
//! The engine never touches the file system itself. `clear_session_plan` and
//! `clear_all_plan` say exactly which directories the host must remove or
//! recreate, and `SessionsState` mirrors the observable state of the sessions
//! tree so that the clearing laws can be stated and proved.

use vstd::prelude::*;

verus! {

use crate::strutil;

/// The sessions root under an application data directory.
pub open spec fn sessions_root_spec(app_data_dir: Seq<char>) -> Seq<char> {
    app_data_dir + "/sessions"@
}

/// The session directory of one platform under an application data directory.
pub open spec fn session_dir_spec(app_data_dir: Seq<char>, platform: Seq<char>) -> Seq<char> {
    app_data_dir + "/sessions/"@ + platform
}

/// The content-security policy served for a platform name: a restrictive
/// policy for each of the four known platforms, the permissive wildcard for
/// every other name.
pub open spec fn csp_spec(platform: Seq<char>) -> Seq<char> {
    if platform == "Instagram"@ {
        "default-src https://www.instagram.com https://*.instagram.com https://*.cdninstagram.com https://*.fbcdn.net; img-src * data:; media-src *;"@
    } else if platform == "Messenger"@ {
        "default-src https://www.messenger.com https://*.messenger.com https://*.facebook.com https://*.fbcdn.net; img-src * data:;"@
    } else if platform == "Facebook"@ {
        "default-src https://www.facebook.com https://*.facebook.com https://*.fbcdn.net https://*.facebook.net; img-src * data:;"@
    } else if platform == "X"@ {
        "default-src https://x.com https://*.x.com https://*.twimg.com; img-src * data:;"@
    } else {
        "default-src *;"@
    }
}

/// A URL is considered blocked when it contains one of the fixed
/// tracking/analytics domains.
pub open spec fn is_blocked_spec(url: Seq<char>) -> bool {
    ||| strutil::contains_seq(url, "doubleclick.net"@)
    ||| strutil::contains_seq(url, "googlesyndication.com"@)
    ||| strutil::contains_seq(url, "google-analytics.com"@)
    ||| strutil::contains_seq(url, "analytics.facebook.com"@)
    ||| strutil::contains_seq(url, "pixel.facebook.com"@)
}

/// One file-system action the host must perform on the engine's behalf.
pub enum FsAction {
    /// Remove the directory at this path, recursively.
    RemoveDirAll(String),
    /// Create the directory at this path, parents included.
    CreateDirAll(String),
}

/// Privacy engine for one application data directory.
pub struct PrivacyEngine {
    pub app_data_dir: String,
}

impl PrivacyEngine {
    /// A new engine rooted at the given application data directory.
    pub fn new(app_data_dir: String) -> (r: Self)
        ensures
            r.app_data_dir == app_data_dir,
    {
        PrivacyEngine { app_data_dir }
    }

    /// The sessions root directory. Pure path arithmetic; nothing is created.
    pub fn sessions_root(&self) -> (r: String)
        ensures
            r@ == sessions_root_spec(self.app_data_dir@),
    {
        strutil::concat2(self.app_data_dir.as_str(), "/sessions")
    }

    /// The session directory of `platform`. Pure path arithmetic; callers
    /// decide when to materialize it.
    pub fn session_dir(&self, platform: &str) -> (r: String)
        ensures
            r@ == session_dir_spec(self.app_data_dir@, platform@),
    {
        strutil::concat3(self.app_data_dir.as_str(), "/sessions/", platform)
    }

    /// The file-system actions that clear one platform's session, given
    /// whether its directory currently exists: remove it if present, then
    /// recreate it empty.
    pub fn clear_session_plan(&self, platform: &str, dir_exists: bool) -> (r: Vec<FsAction>)
        ensures
            dir_exists ==> r@.len() == 2 && (r@[0] matches FsAction::RemoveDirAll(d) && d@
                == session_dir_spec(self.app_data_dir@, platform@)) && (r@[1] matches
            FsAction::CreateDirAll(c) && c@ == session_dir_spec(self.app_data_dir@, platform@)),
            !dir_exists ==> r@.len() == 1 && (r@[0] matches FsAction::CreateDirAll(c) && c@
                == session_dir_spec(self.app_data_dir@, platform@)),
    {
        let mut actions: Vec<FsAction> = Vec::new();
        if dir_exists {
            actions.push(FsAction::RemoveDirAll(self.session_dir(platform)));
        }
        actions.push(FsAction::CreateDirAll(self.session_dir(platform)));
        actions
    }

    /// The file-system actions that clear all sessions, given whether the
    /// sessions root currently exists: remove the whole root if present, and
    /// do not recreate it.
    pub fn clear_all_plan(&self, root_exists: bool) -> (r: Vec<FsAction>)
        ensures
            root_exists ==> r@.len() == 1 && (r@[0] matches FsAction::RemoveDirAll(d) && d@
                == sessions_root_spec(self.app_data_dir@)),
            !root_exists ==> r@.len() == 0,
    {
        let mut actions: Vec<FsAction> = Vec::new();
        if root_exists {
            actions.push(FsAction::RemoveDirAll(self.sessions_root()));
        }
        actions
    }

    /// The content-security policy for a platform name. Total: unknown names
    /// get the permissive wildcard policy.
    pub fn csp_for_platform(platform: &str) -> (r: &'static str)
        ensures
            r@ == csp_spec(platform@),
    {
        if strutil::str_eq(platform, "Instagram") {
            "default-src https://www.instagram.com https://*.instagram.com https://*.cdninstagram.com https://*.fbcdn.net; img-src * data:; media-src *;"
        } else if strutil::str_eq(platform, "Messenger") {
            "default-src https://www.messenger.com https://*.messenger.com https://*.facebook.com https://*.fbcdn.net; img-src * data:;"
        } else if strutil::str_eq(platform, "Facebook") {
            "default-src https://www.facebook.com https://*.facebook.com https://*.fbcdn.net https://*.facebook.net; img-src * data:;"
        } else if strutil::str_eq(platform, "X") {
            "default-src https://x.com https://*.x.com https://*.twimg.com; img-src * data:;"
        } else {
            "default-src *;"
        }
    }

    /// Whether a URL contains one of the blocked tracking/analytics domains.
    pub fn is_blocked_domain(url: &str) -> (r: bool)
        ensures
            r == is_blocked_spec(url@),
    {
        strutil::str_contains(url, "doubleclick.net") || strutil::str_contains(
            url,
            "googlesyndication.com",
        ) || strutil::str_contains(url, "google-analytics.com") || strutil::str_contains(
            url,
            "analytics.facebook.com",
        ) || strutil::str_contains(url, "pixel.facebook.com")
    }
}

} // verus!
