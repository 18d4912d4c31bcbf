use messenger_desktop::updater::{UpdateInfo, UpdaterManager};

#[test]
fn test_update_info() {
    let info = UpdateInfo {
        version: "1.0.0".to_string(),
        body: "Test update".to_string(),
        date: Some("2023-01-01".to_string()),
        url: None,
    };
    assert_eq!(info.version, "1.0.0");
    assert_eq!(info.body, "Test update");
    assert_eq!(info.date, Some("2023-01-01".to_string()));
}

#[test]
fn test_release_channel() {
    let mut manager = UpdaterManager::new("stable".to_string());
    assert_eq!(manager.get_channel(), "stable");
    manager.set_channel("beta".to_string());
    assert_eq!(manager.get_channel(), "beta");
}

#[test]
fn test_last_check_time() {
    let mut manager = UpdaterManager::new("stable".to_string());
    assert_eq!(manager.get_last_check_time(), None);
    manager.record_check(1700000000);
    assert_eq!(manager.get_last_check_time(), Some(1700000000));
    assert!(!manager.is_update_available());
}
