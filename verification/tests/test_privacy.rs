use messenger_desktop::privacy::{PrivacyConfig, PrivacyManager};

#[test]
fn test_privacy_config_default() {
    let config = PrivacyConfig::default();
    assert!(!config.block_typing);
    assert!(!config.block_read_receipts);
    assert!(!config.hide_last_active);
    assert!(!config.block_link_previews);
}

#[test]
fn test_privacy_config_clone() {
    let config = PrivacyConfig {
        block_typing: true,
        block_read_receipts: true,
        hide_last_active: true,
        block_link_previews: true,
    };
    let cloned = config.clone();
    assert_eq!(config.block_typing, cloned.block_typing);
    assert_eq!(config.block_read_receipts, cloned.block_read_receipts);
}

#[test]
fn test_privacy_manager_new() {
    let manager = PrivacyManager::new();
    assert!(!manager.config().block_typing);
}

#[test]
fn test_privacy_config() {
    let config = PrivacyConfig {
        block_typing: true,
        block_read_receipts: true,
        hide_last_active: true,
        block_link_previews: false,
    };
    assert_eq!(config.block_typing, true);
    assert_eq!(config.block_read_receipts, true);
    assert_eq!(config.hide_last_active, true);
}

#[test]
fn test_privacy_setters() {
    let mut manager = PrivacyManager::new();
    manager.set_block_typing(true);
    manager.set_block_read_receipts(true);
    manager.set_hide_last_active(true);
    manager.set_block_link_previews(true);
    let config = manager.config();
    assert!(config.block_typing);
    assert!(config.block_read_receipts);
    assert!(config.hide_last_active);
    assert!(config.block_link_previews);
    manager.set_block_typing(false);
    assert!(!manager.config().block_typing);
    assert!(manager.config().block_read_receipts);
}

#[test]
fn test_privacy_update_whole_config() {
    let mut manager = PrivacyManager::new();
    let applied = manager.update(PrivacyConfig {
        block_typing: true,
        block_read_receipts: false,
        hide_last_active: true,
        block_link_previews: false,
    });
    assert!(applied.block_typing);
    assert!(manager.config().hide_last_active);
    assert!(!manager.config().block_read_receipts);
}
