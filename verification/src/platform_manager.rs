//! Platform registry for multi-platform messenger support: the fixed catalog
//! of supported platforms, resolution of platform names, and the persisted
//! "current selection" pointer.
//!
//! The selection is persisted as a single JSON-encoded string (the canonical
//! platform name) in `platform.json` under the application data directory.
//! Reading and writing that file is the host's job: `set_current` hands back
//! the exact record to write, and `load_persisted` takes the record that was
//! read, so the registry itself stays free of file-system calls.

use vstd::prelude::*;

verus! {

use crate::json_store::{is_plain_str, is_plain_char, json_quote, json_parse};
use crate::json_store::{encode_json_string, decode_json_string};
use crate::strutil;
use vstd::string::StringExecFns;

/// The supported social-messaging platforms: a fixed, closed catalog.
#[derive(Clone, Copy, Debug, PartialEq, Eq, Structural)]
pub enum Platform {
    Instagram,
    Messenger,
    Facebook,
    X,
}

/// The canonical display name of a platform.
pub open spec fn name_seq(p: Platform) -> Seq<char> {
    match p {
        Platform::Instagram => "Instagram"@,
        Platform::Messenger => "Messenger"@,
        Platform::Facebook => "Facebook"@,
        Platform::X => "X"@,
    }
}

/// The inbox URL of a platform.
pub open spec fn url_seq(p: Platform) -> Seq<char> {
    match p {
        Platform::Instagram => "https://www.instagram.com/direct/inbox/"@,
        Platform::Messenger => "https://www.messenger.com"@,
        Platform::Facebook => "https://www.facebook.com/messages/"@,
        Platform::X => "https://x.com/messages"@,
    }
}

/// Case-sensitive exact resolution of a platform name against the catalog.
pub open spec fn resolve_spec(s: Seq<char>) -> Option<Platform> {
    if s == name_seq(Platform::Instagram) {
        Some(Platform::Instagram)
    } else if s == name_seq(Platform::Messenger) {
        Some(Platform::Messenger)
    } else if s == name_seq(Platform::Facebook) {
        Some(Platform::Facebook)
    } else if s == name_seq(Platform::X) {
        Some(Platform::X)
    } else {
        None
    }
}

/// The catalog in its fixed order.
pub open spec fn catalog() -> Seq<Platform> {
    seq![Platform::Instagram, Platform::Messenger, Platform::Facebook, Platform::X]
}

/// The exact text of the persisted selection record for platform `p`.
pub open spec fn persisted_content(p: Platform) -> Seq<char> {
    json_quote(name_seq(p))
}

/// The platform a persisted record yields: the record parsed as a JSON
/// string, and the parsed name resolved against the catalog; `None` where
/// either step fails.
pub open spec fn loaded_platform(record: Seq<char>) -> Option<Platform> {
    match json_parse(record) {
        Some(name) => resolve_spec(name),
        None => None,
    }
}

impl Platform {
    /// The URL of the platform's inbox/direct page.
    pub fn url(&self) -> (r: &'static str)
        ensures
            r@ == url_seq(*self),
    {
        match self {
            Platform::Instagram => "https://www.instagram.com/direct/inbox/",
            Platform::Messenger => "https://www.messenger.com",
            Platform::Facebook => "https://www.facebook.com/messages/",
            Platform::X => "https://x.com/messages",
        }
    }

    /// The display name of the platform.
    pub fn name(&self) -> (r: &'static str)
        ensures
            r@ == name_seq(*self),
    {
        match self {
            Platform::Instagram => "Instagram",
            Platform::Messenger => "Messenger",
            Platform::Facebook => "Facebook",
            Platform::X => "X",
        }
    }

    /// Parses a platform name into a catalog entry; `None` on any string that
    /// is not one of the four canonical names.
    pub fn from_str(s: &str) -> (r: Option<Platform>)
        ensures
            r == resolve_spec(s@),
    {
        if strutil::str_eq(s, "Instagram") {
            Some(Platform::Instagram)
        } else if strutil::str_eq(s, "Messenger") {
            Some(Platform::Messenger)
        } else if strutil::str_eq(s, "Facebook") {
            Some(Platform::Facebook)
        } else if strutil::str_eq(s, "X") {
            Some(Platform::X)
        } else {
            None
        }
    }
}

/// Every canonical platform name consists of plain characters, so its
/// persisted record is exactly the name between two quotes.
pub proof fn lemma_names_plain(p: Platform)
    ensures
        is_plain_str(name_seq(p)),
{
    reveal_strlit("Instagram");
    reveal_strlit("Messenger");
    reveal_strlit("Facebook");
    reveal_strlit("X");
    match p {
        Platform::Instagram => {
            assert forall|i: int| 0 <= i < name_seq(p).len() implies is_plain_char(
                #[trigger] name_seq(p)[i],
            ) by {}
        },
        Platform::Messenger => {
            assert forall|i: int| 0 <= i < name_seq(p).len() implies is_plain_char(
                #[trigger] name_seq(p)[i],
            ) by {}
        },
        Platform::Facebook => {
            assert forall|i: int| 0 <= i < name_seq(p).len() implies is_plain_char(
                #[trigger] name_seq(p)[i],
            ) by {}
        },
        Platform::X => {
            assert forall|i: int| 0 <= i < name_seq(p).len() implies is_plain_char(
                #[trigger] name_seq(p)[i],
            ) by {}
        },
    }
}

/// The four canonical names are pairwise distinct.
proof fn lemma_names_distinct()
    ensures
        name_seq(Platform::Instagram) != name_seq(Platform::Messenger),
        name_seq(Platform::Instagram) != name_seq(Platform::Facebook),
        name_seq(Platform::Instagram) != name_seq(Platform::X),
        name_seq(Platform::Messenger) != name_seq(Platform::Facebook),
        name_seq(Platform::Messenger) != name_seq(Platform::X),
        name_seq(Platform::Facebook) != name_seq(Platform::X),
{
    reveal_strlit("Instagram");
    reveal_strlit("Messenger");
    reveal_strlit("Facebook");
    reveal_strlit("X");
    assert(name_seq(Platform::Instagram)[0] == 'I');
    assert(name_seq(Platform::Messenger)[0] == 'M');
    assert(name_seq(Platform::Facebook)[0] == 'F');
    assert(name_seq(Platform::Instagram).len() == 9);
    assert(name_seq(Platform::Messenger).len() == 9);
    assert(name_seq(Platform::Facebook).len() == 8);
    assert(name_seq(Platform::X).len() == 1);
}

/// Law: each catalogued platform resolves under its canonical name, and its
/// inbox URL is a non-empty absolute https URL.
pub proof fn lemma_catalog_resolves(p: Platform)
    ensures
        resolve_spec(name_seq(p)) == Some(p),
        url_seq(p).len() > 0,
        url_seq(p).subrange(0, 8) == "https://"@,
{
    lemma_names_distinct();
    reveal_strlit("https://");
    reveal_strlit("https://www.instagram.com/direct/inbox/");
    reveal_strlit("https://www.messenger.com");
    reveal_strlit("https://www.facebook.com/messages/");
    reveal_strlit("https://x.com/messages");
    assert(url_seq(p).subrange(0, 8) =~= "https://"@);
}

/// Law: resolution succeeds exactly on the four canonical names, and only on
/// the name of the platform it returns.
pub proof fn lemma_resolve_exact(s: Seq<char>)
    ensures
        (resolve_spec(s) is Some) <==> (s == name_seq(Platform::Instagram) || s == name_seq(
            Platform::Messenger,
        ) || s == name_seq(Platform::Facebook) || s == name_seq(Platform::X)),
        resolve_spec(s) matches Some(p) ==> s == name_seq(p),
{
}

/// Law: the record that selecting `p` writes is read back as `p`: the
/// persisted content is the quoted plain name, and resolving that name yields
/// `p` again.
pub proof fn lemma_selection_round_trip(p: Platform)
    ensures
        persisted_content(p) == json_quote(name_seq(p)),
        is_plain_str(name_seq(p)),
        resolve_spec(name_seq(p)) == Some(p),
{
    lemma_names_plain(p);
    lemma_catalog_resolves(p);
}

/// An error of the registry, surfaced to the caller for correction.
#[derive(Clone, Copy, Debug, PartialEq, Eq, Structural)]
pub enum RegistryError {
    /// The given name is not in the catalog.
    UnknownPlatform,
}

/// What a successful selection hands back to the host: the resolved platform,
/// where to navigate, a user-visible message, and the record to persist.
pub struct SelectedPlatform {
    pub platform: Platform,
    pub url: String,
    pub message: String,
    pub persist: String,
}

/// Manages the current platform selection and its persisted record.
pub struct PlatformManager {
    /// The in-memory selection; `None` until a platform is chosen or loaded.
    pub current: Option<Platform>,
    /// Where the host keeps the persisted record.
    pub store_path: String,
}

impl PlatformManager {
    /// A fresh registry for the given application data directory, with no
    /// selection yet; the host seeds it with `load_persisted` at startup.
    pub fn new(app_data_dir: &str) -> (r: Self)
        ensures
            r.current is None,
            r.store_path@ == app_data_dir@ + "/platform.json"@,
    {
        PlatformManager {
            current: None,
            store_path: strutil::concat2(app_data_dir, "/platform.json"),
        }
    }

    /// The currently selected platform, from memory only.
    pub fn get_current(&self) -> (r: Option<Platform>)
        ensures
            r == self.current,
    {
        self.current
    }

    /// Selects `platform` and returns the record to persist; the in-memory
    /// selection changes whether or not the host manages to write the record.
    pub fn set_current(&mut self, platform: Platform) -> (content: String)
        ensures
            final(self).current == Some(platform),
            final(self).store_path == old(self).store_path,
            content@ == persisted_content(platform),
    {
        self.current = Some(platform);
        proof {
            lemma_names_plain(platform);
        }
        encode_json_string(platform.name())
    }

    /// Seeds the selection from the persisted record, handed in by the host
    /// (`None` when the file is missing). A missing record, or one that does
    /// not parse to a catalogued name, yields `None` and leaves the
    /// selection untouched.
    pub fn load_persisted(&mut self, content: Option<&str>) -> (r: Option<Platform>)
        ensures
            final(self).store_path == old(self).store_path,
            r is Some ==> final(self).current == r,
            r is None ==> *final(self) == *old(self),
            content is None ==> r is None,
            content matches Some(c) ==> r == loaded_platform(c@),
            forall|p: Platform|
                (content is Some && content->0@ == persisted_content(p)) ==> r == Some(p),
    {
        match content {
            None => None,
            Some(c) => {
                let decoded = decode_json_string(c);
                match decoded {
                    None => {
                        proof {
                            assert forall|p: Platform|
                                (content is Some && content->0@ == persisted_content(
                                    p,
                                )) implies false by {
                                lemma_names_plain(p);
                            }
                        }
                        None
                    },
                    Some(s) => {
                        let resolved = Platform::from_str(s.as_str());
                        proof {
                            assert forall|p: Platform|
                                (content is Some && content->0@ == persisted_content(
                                    p,
                                )) implies resolved == Some(p) by {
                                lemma_names_plain(p);
                                lemma_catalog_resolves(p);
                            }
                        }
                        match resolved {
                            None => None,
                            Some(p) => {
                                self.current = Some(p);
                                Some(p)
                            },
                        }
                    },
                }
            },
        }
    }
}

/// Resolves `platform_name`, makes it current, and hands the host everything
/// it needs: the navigation URL, a confirmation message, and the record to
/// persist. Fails exactly on names outside the catalog, leaving the
/// registry unchanged.
pub fn select_platform(manager: &mut PlatformManager, platform_name: &str) -> (r: Result<
    SelectedPlatform,
    RegistryError,
>)
    ensures
        resolve_spec(platform_name@) is None ==> r == Err::<SelectedPlatform, RegistryError>(
            RegistryError::UnknownPlatform,
        ) && *final(manager) == *old(manager),
        resolve_spec(platform_name@) matches Some(p) ==> r matches Ok(sel) && sel.platform == p
            && sel.url@ == url_seq(p) && sel.message@ == "Selected platform: "@ + name_seq(p)
            && sel.persist@ == persisted_content(p) && final(manager).current == Some(p)
            && final(manager).store_path == old(manager).store_path,
{
    match Platform::from_str(platform_name) {
        None => Err(RegistryError::UnknownPlatform),
        Some(p) => {
            let persist = manager.set_current(p);
            let url = String::from_str(p.url());
            let message = strutil::concat2("Selected platform: ", p.name());
            Ok(SelectedPlatform { platform: p, url, message, persist })
        },
    }
}

/// The name of the currently selected platform, if any.
pub fn get_current_platform(manager: &PlatformManager) -> (r: Option<String>)
    ensures
        manager.current is None ==> r is None,
        manager.current matches Some(p) ==> r matches Some(n) && n@ == name_seq(p),
{
    match manager.get_current() {
        None => None,
        Some(p) => Some(String::from_str(p.name())),
    }
}

/// The full static catalog as (name, url) pairs, in its fixed order,
/// independent of any selection state.
pub fn list_platforms() -> (r: Vec<(String, String)>)
    ensures
        r@.len() == catalog().len(),
        forall|i: int|
            0 <= i < r@.len() ==> (#[trigger] r@[i]).0@ == name_seq(catalog()[i]) && r@[i].1@
                == url_seq(catalog()[i]),
{
    let mut v: Vec<(String, String)> = Vec::new();
    v.push((String::from_str(Platform::Instagram.name()), String::from_str(
        Platform::Instagram.url(),
    )));
    v.push((String::from_str(Platform::Messenger.name()), String::from_str(
        Platform::Messenger.url(),
    )));
    v.push((String::from_str(Platform::Facebook.name()), String::from_str(
        Platform::Facebook.url(),
    )));
    v.push((String::from_str(Platform::X.name()), String::from_str(Platform::X.url())));
    v
}

} // verus!
