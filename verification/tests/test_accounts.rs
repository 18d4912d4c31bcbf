use messenger_desktop::accounts::{Account, AccountManager};

#[test]
fn test_account_creation() {
    let account = Account {
        id: "123".to_string(),
        name: "Test Account".to_string(),
        data_dir: "/tmp/test".to_string(),
        is_active: false,
        profile_picture: None,
        last_sync: None,
        session_token: None,
    };
    assert_eq!(account.id, "123");
    assert_eq!(account.name, "Test Account");
    assert_eq!(account.data_dir, "/tmp/test");
}

#[test]
fn test_account_defaults() {
    let account = Account {
        id: "a".to_string(),
        name: "b".to_string(),
        data_dir: "/c".to_string(),
        is_active: false,
        profile_picture: None,
        last_sync: None,
        session_token: None,
    };
    assert!(account.profile_picture.is_none());
    assert!(account.session_token.is_none());
}

#[test]
fn test_add_account_first_is_active() {
    let mut manager = AccountManager::new();
    let first = manager.add_account(
        "id-1".to_string(),
        "First".to_string(),
        "/data/accounts/id-1".to_string(),
    );
    assert!(first.is_active);
    let second = manager.add_account(
        "id-2".to_string(),
        "Second".to_string(),
        "/data/accounts/id-2".to_string(),
    );
    assert!(!second.is_active);
    assert_eq!(manager.list_accounts().len(), 2);
}

#[test]
fn test_remove_account_returns_dir() {
    let mut manager = AccountManager::new();
    manager.add_account("id-1".to_string(), "A".to_string(), "/d/1".to_string());
    manager.add_account("id-2".to_string(), "B".to_string(), "/d/2".to_string());
    assert_eq!(manager.remove_account("id-1"), Some("/d/1".to_string()));
    assert_eq!(manager.remove_account("id-1"), None);
    assert_eq!(manager.list_accounts().len(), 1);
    assert_eq!(manager.list_accounts()[0].id, "id-2");
}

#[test]
fn test_switch_account_exclusive() {
    let mut manager = AccountManager::new();
    manager.add_account("id-1".to_string(), "A".to_string(), "/d/1".to_string());
    manager.add_account("id-2".to_string(), "B".to_string(), "/d/2".to_string());
    manager.switch_account("id-2");
    let accounts = manager.list_accounts();
    assert!(!accounts[0].is_active);
    assert!(accounts[1].is_active);
    manager.switch_account("id-1");
    let accounts = manager.list_accounts();
    assert!(accounts[0].is_active);
    assert!(!accounts[1].is_active);
}

#[test]
fn test_session_token_round_trip() {
    let mut manager = AccountManager::new();
    manager.add_account("id-1".to_string(), "A".to_string(), "/d/1".to_string());
    assert_eq!(manager.get_session_token("id-1"), None);
    assert!(manager.set_session_token("id-1", "token-123".to_string()));
    assert_eq!(
        manager.get_session_token("id-1"),
        Some("token-123".to_string())
    );
    assert!(!manager.set_session_token("missing", "t".to_string()));
    assert_eq!(manager.get_session_token("missing"), None);
}

#[test]
fn test_profile_picture_and_sync() {
    let mut manager = AccountManager::new();
    manager.add_account("id-1".to_string(), "A".to_string(), "/d/1".to_string());
    assert!(manager.set_profile_picture("id-1", "/d/1/profile_picture.png".to_string()));
    assert!(manager.update_last_sync("id-1", "2023-01-01T00:00:00Z".to_string()));
    let accounts = manager.list_accounts();
    assert_eq!(
        accounts[0].profile_picture,
        Some("/d/1/profile_picture.png".to_string())
    );
    assert_eq!(accounts[0].last_sync, Some("2023-01-01T00:00:00Z".to_string()));
    assert!(!manager.set_profile_picture("missing", "/p.png".to_string()));
}
