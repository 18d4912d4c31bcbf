use messenger_desktop::accounts::AccountManager;
use messenger_desktop::media::MediaManager;
use messenger_desktop::notifications::NotificationState;
use messenger_desktop::platform_manager::list_platforms;
use messenger_desktop::privacy::PrivacyManager;
use messenger_desktop::privacy_engine::PrivacyEngine;
use messenger_desktop::theme_manager::ThemeManager;
use messenger_desktop::updater::UpdaterManager;
use messenger_desktop::window_manager::WindowManager;

#[test]
fn test_imports_compile() {
    // all modules are reachable from the crate root
    assert!(true);
}

#[test]
fn test_notification_commands_exist() {
    let state = NotificationState::new();
    assert!(state.get_settings().enabled);
}

#[test]
fn test_window_manager_commands_exist() {
    let manager = WindowManager::new();
    assert!(!manager.is_maximized());
}

#[test]
fn test_tray_commands_exist() {
    // tray icon and menu handling live with the host
    assert!(true);
}

#[test]
fn test_shortcut_commands_exist() {
    // global-shortcut registration lives with the host
    assert!(true);
}

#[test]
fn test_theme_commands_exist() {
    assert_eq!(ThemeManager::get_themes().len(), 5);
}

#[test]
fn test_privacy_commands_exist() {
    let manager = PrivacyManager::new();
    assert!(!manager.config().block_typing);
}

#[test]
fn test_updater_commands_exist() {
    let manager = UpdaterManager::new("stable".to_string());
    assert_eq!(manager.get_channel(), "stable");
}

#[test]
fn test_account_commands_exist() {
    let manager = AccountManager::new();
    assert!(manager.list_accounts().is_empty());
}

#[test]
fn test_media_commands_exist() {
    let manager = MediaManager::new();
    assert!(!manager.get_permissions().camera);
}

#[test]
fn test_drag_drop_commands_exist() {
    let payload = messenger_desktop::drag_drop::assemble_drop_payload(Vec::new(), None);
    assert_eq!(payload.status, "success");
}

#[test]
fn test_module_structure() {
    assert!(AccountManager::new().list_accounts().is_empty());
    assert!(!PrivacyManager::new().config().hide_last_active);
    assert_eq!(ThemeManager::new().current_theme_name(), "light");
    assert_eq!(list_platforms().len(), 4);
    let engine = PrivacyEngine::new("/tmp/app".to_string());
    assert_eq!(engine.sessions_root(), "/tmp/app/sessions");
}
