use messenger_desktop::notifications::{
    create_toast_xml, NotificationData, NotificationDisposition, NotificationError,
    NotificationPayload, NotificationSettings, NotificationState,
};

fn sample_data() -> NotificationData {
    NotificationData {
        id: "n-1".to_string(),
        title: "Title".to_string(),
        body: "Body".to_string(),
        icon_url: Some("https://example.test/icon.png".to_string()),
        conversation_id: Some("c-1".to_string()),
        sender_name: Some("Sam".to_string()),
        sender_avatar: None,
        timestamp: Some(1700000000),
        require_interaction: false,
        silent: false,
    }
}

#[test]
fn test_notification_data_default() {
    let data = NotificationData {
        id: "test-id".to_string(),
        title: "Test".to_string(),
        body: "Body".to_string(),
        icon_url: None,
        conversation_id: None,
        sender_name: None,
        sender_avatar: None,
        timestamp: None,
        require_interaction: false,
        silent: false,
    };
    assert_eq!(data.id, "test-id");
    assert_eq!(data.title, "Test");
}

#[test]
fn test_notification_settings_default() {
    let settings = NotificationSettings {
        enabled: true,
        sound_enabled: false,
        sound_path: None,
        do_not_disturb: false,
        dnd_schedule: None,
        show_preview: true,
        quick_reply_enabled: false,
    };
    assert!(settings.enabled);
    assert!(!settings.do_not_disturb);
}

#[test]
fn test_notification_creation() {
    let notification = NotificationData {
        id: "123".to_string(),
        title: "Test Title".to_string(),
        body: "Test Body".to_string(),
        icon_url: Some("test.png".to_string()),
        conversation_id: Some("123".to_string()),
        sender_name: None,
        sender_avatar: None,
        timestamp: None,
        require_interaction: false,
        silent: false,
    };
    assert_eq!(notification.title, "Test Title");
    assert_eq!(notification.body, "Test Body");
    assert_eq!(notification.icon_url, Some("test.png".to_string()));
    assert_eq!(notification.conversation_id, Some("123".to_string()));
}

#[test]
fn test_show_notification_passes_data_through() {
    let state = NotificationState::new();
    match state.show_notification(&sample_data()) {
        NotificationDisposition::Show(payload, sound, sound_path) => {
            assert_eq!(payload.id, "n-1");
            assert_eq!(payload.title, "Title");
            assert_eq!(payload.body, "Body");
            assert_eq!(
                payload.icon_path,
                Some("https://example.test/icon.png".to_string())
            );
            assert_eq!(payload.sender_name, Some("Sam".to_string()));
            assert!(!payload.silent);
            assert!(!sound);
            assert_eq!(sound_path, None);
        }
        _ => panic!("expected the notification to be shown"),
    }
}

#[test]
fn test_show_notification_disabled() {
    let mut state = NotificationState::new();
    state.set_enabled(false);
    assert!(matches!(
        state.show_notification(&sample_data()),
        NotificationDisposition::SuppressedDisabled
    ));
}

#[test]
fn test_show_notification_dnd() {
    let mut state = NotificationState::new();
    state.set_dnd(true);
    assert!(matches!(
        state.show_notification(&sample_data()),
        NotificationDisposition::SuppressedDnd
    ));
}

#[test]
fn test_toggle_dnd() {
    let mut state = NotificationState::new();
    assert!(state.toggle_dnd());
    assert!(state.get_settings().do_not_disturb);
    assert!(!state.toggle_dnd());
    assert!(!state.get_settings().do_not_disturb);
}

#[test]
fn test_set_notification_sound() {
    let mut state = NotificationState::new();
    assert_eq!(
        state.set_notification_sound("/missing.wav".to_string(), false),
        Err(NotificationError::SoundFileMissing)
    );
    assert_eq!(state.get_settings().sound_path, None);
    assert_eq!(state.set_notification_sound("/ding.wav".to_string(), true), Ok(()));
    assert_eq!(state.get_settings().sound_path, Some("/ding.wav".to_string()));
}

#[test]
fn test_icon_cleanup() {
    let mut state = NotificationState::new();
    state.remember_icon("/tmp/icon-1.png".to_string());
    state.remember_icon("/tmp/icon-2.png".to_string());
    let to_delete = state.cleanup();
    assert_eq!(
        to_delete,
        vec!["/tmp/icon-1.png".to_string(), "/tmp/icon-2.png".to_string()]
    );
    assert!(state.cleanup().is_empty());
}

#[test]
fn test_create_toast_xml_with_sender() {
    let payload = NotificationPayload {
        id: "n-1".to_string(),
        title: "Title".to_string(),
        body: "Body".to_string(),
        icon_path: Some("/tmp/i.png".to_string()),
        conversation_id: None,
        sender_name: Some("Sam".to_string()),
        silent: false,
    };
    let xml = create_toast_xml(&payload);
    assert!(xml.starts_with("<?xml version=\"1.0\" encoding=\"utf-8\"?>"));
    assert!(xml.contains("<text>Title</text>"));
    assert!(xml.contains("<text id=\"1\">Sam</text>"));
    assert!(xml.contains("<text id=\"2\">Body</text>"));
    assert!(xml.contains("<image id=\"1\" src=\"/tmp/i.png\"/>"));
    assert!(xml.ends_with("</toast>"));
}

#[test]
fn test_create_toast_xml_plain() {
    let payload = NotificationPayload {
        id: "n-2".to_string(),
        title: "T".to_string(),
        body: "B".to_string(),
        icon_path: None,
        conversation_id: None,
        sender_name: None,
        silent: true,
    };
    let xml = create_toast_xml(&payload);
    assert!(xml.contains("<text id=\"1\">B</text>"));
    assert!(!xml.contains("<text id=\"2\">"));
    assert!(!xml.contains("<image"));
}
