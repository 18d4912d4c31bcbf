use messenger_desktop::platform_manager::{select_platform, Platform, PlatformManager};
use messenger_desktop::privacy_engine::{FsAction, PrivacyEngine};
use messenger_desktop::sessions::SessionsState;

#[test]
fn test_session_dir_path() {
    let engine = PrivacyEngine::new("/data".to_string());
    assert_eq!(engine.sessions_root(), "/data/sessions");
    assert_eq!(engine.session_dir("Instagram"), "/data/sessions/Instagram");
    assert_eq!(engine.session_dir("X"), "/data/sessions/X");
}

#[test]
fn test_csp_for_known_platforms() {
    let instagram = PrivacyEngine::csp_for_platform("Instagram");
    assert!(instagram.contains("instagram.com"));
    assert!(instagram.starts_with("default-src https://www.instagram.com"));
    let messenger = PrivacyEngine::csp_for_platform("Messenger");
    assert!(messenger.contains("messenger.com"));
    let facebook = PrivacyEngine::csp_for_platform("Facebook");
    assert!(facebook.contains("facebook.com"));
    let x = PrivacyEngine::csp_for_platform("X");
    assert!(x.contains("x.com"));
    assert!(x.contains("twimg.com"));
}

#[test]
fn test_csp_for_unknown_platform() {
    assert_eq!(PrivacyEngine::csp_for_platform("unknown-x"), "default-src *;");
    assert_eq!(PrivacyEngine::csp_for_platform(""), "default-src *;");
    assert_eq!(PrivacyEngine::csp_for_platform("instagram"), "default-src *;");
}

#[test]
fn test_is_blocked_domain() {
    assert!(PrivacyEngine::is_blocked_domain(
        "https://doubleclick.net/ads"
    ));
    assert!(PrivacyEngine::is_blocked_domain(
        "https://sub.googlesyndication.com/x"
    ));
    assert!(PrivacyEngine::is_blocked_domain(
        "http://google-analytics.com"
    ));
    assert!(PrivacyEngine::is_blocked_domain(
        "https://analytics.facebook.com/t"
    ));
    assert!(PrivacyEngine::is_blocked_domain(
        "https://pixel.facebook.com/p"
    ));
    assert!(!PrivacyEngine::is_blocked_domain("https://www.facebook.com"));
    assert!(!PrivacyEngine::is_blocked_domain(""));
    assert!(!PrivacyEngine::is_blocked_domain("doubleclick.ne"));
}

#[test]
fn test_clear_session_plan() {
    let engine = PrivacyEngine::new("/data".to_string());
    let with_dir = engine.clear_session_plan("Messenger", true);
    assert_eq!(with_dir.len(), 2);
    assert!(matches!(&with_dir[0], FsAction::RemoveDirAll(d) if d == "/data/sessions/Messenger"));
    assert!(matches!(&with_dir[1], FsAction::CreateDirAll(d) if d == "/data/sessions/Messenger"));
    let without_dir = engine.clear_session_plan("Messenger", false);
    assert_eq!(without_dir.len(), 1);
    assert!(
        matches!(&without_dir[0], FsAction::CreateDirAll(d) if d == "/data/sessions/Messenger")
    );
}

#[test]
fn test_clear_all_plan() {
    let engine = PrivacyEngine::new("/data".to_string());
    let with_root = engine.clear_all_plan(true);
    assert_eq!(with_root.len(), 1);
    assert!(matches!(&with_root[0], FsAction::RemoveDirAll(d) if d == "/data/sessions"));
    assert_eq!(engine.clear_all_plan(false).len(), 0);
}

#[test]
fn test_clear_session_idempotent() {
    let mut state = SessionsState::new_absent();
    state.record_clear_session("Messenger");
    assert_eq!(state.dir_status("Messenger"), Some(true));
    // the second clear succeeds as well and leaves the directory present and
    // empty
    state.record_clear_session("Messenger");
    assert_eq!(state.dir_status("Messenger"), Some(true));
    assert_eq!(state.dir_status("Instagram"), None);
}

#[test]
fn test_clear_all_then_clear_session() {
    let mut state = SessionsState::new_absent();
    state.record_clear_session("Instagram");
    state.record_clear_session("Messenger");
    state.record_clear_all();
    assert!(!state.root_dir_present());
    assert_eq!(state.dir_status("Instagram"), None);
    assert_eq!(state.dir_status("Messenger"), None);
    // a subsequent clear recreates exactly the one directory
    state.record_clear_session("Messenger");
    assert!(state.root_dir_present());
    assert_eq!(state.dir_status("Messenger"), Some(true));
    assert_eq!(state.dir_status("Instagram"), None);
}

#[test]
fn test_select_clear_scenario() {
    // select "X", read it back, clear its session, then clear everything
    let mut manager = PlatformManager::new("/data");
    let engine = PrivacyEngine::new("/data".to_string());
    let mut tree = SessionsState::new_absent();

    let selected = select_platform(&mut manager, "X").unwrap();
    assert_eq!(selected.platform, Platform::X);
    assert_eq!(manager.get_current(), Some(Platform::X));

    let plan = engine.clear_session_plan("X", false);
    assert!(matches!(&plan[0], FsAction::CreateDirAll(d) if d == "/data/sessions/X"));
    tree.record_clear_session("X");
    assert_eq!(tree.dir_status("X"), Some(true));

    let all_plan = engine.clear_all_plan(true);
    assert!(matches!(&all_plan[0], FsAction::RemoveDirAll(d) if d == "/data/sessions"));
    tree.record_clear_all();
    assert!(!tree.root_dir_present());
    assert_eq!(tree.dir_status("X"), None);
}
