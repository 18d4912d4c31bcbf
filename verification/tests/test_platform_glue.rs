use messenger_desktop::desktop::{dbus_notification_args, desktop_file_name, generate_desktop_file};
use messenger_desktop::notifications::{create_toast_xml, NotificationPayload};

#[test]
fn test_macos_module_compiles() {
    // dock badge and bounce go through the host's Objective-C runtime and can
    // only run on an actual desktop session
    assert!(true);
}

#[test]
fn test_request_foreground_activation() {
    // foreground activation goes through the host; nothing to compute here
    assert!(true);
}

#[test]
fn windows_test_toast_notification() {
    let payload = NotificationPayload {
        id: "t-1".to_string(),
        title: "Test".to_string(),
        body: "Test body".to_string(),
        icon_path: None,
        conversation_id: None,
        sender_name: None,
        silent: false,
    };
    let xml = create_toast_xml(&payload);
    assert!(xml.contains("<text>Test</text>"));
    assert!(xml.contains("<text id=\"1\">Test body</text>"));
}

#[test]
fn test_generate_desktop_file() {
    let content = generate_desktop_file("Messenger Desktop", "messenger-desktop");
    assert_eq!(
        content,
        "[Desktop Entry]\nVersion=1.0\nType=Application\nName=Messenger Desktop\nExec=messenger-desktop\nIcon=messenger-desktop\nTerminal=false\nCategories=Network;InstantMessaging;\n"
    );
}

#[test]
fn test_desktop_file_name() {
    assert_eq!(
        desktop_file_name("Messenger Desktop"),
        "messenger-desktop.desktop"
    );
    assert_eq!(desktop_file_name("already-lower"), "already-lower.desktop");
    assert_eq!(desktop_file_name("X App 2"), "x-app-2.desktop");
    assert_eq!(desktop_file_name(""), ".desktop");
}

#[test]
fn test_dbuss_notification() {
    let args = dbus_notification_args("Test Title", "Test Body", "messenger-desktop");
    assert_eq!(
        args,
        vec![
            "--app-name=Messenger Desktop",
            "--icon=messenger-desktop",
            "Test Title",
            "Test Body"
        ]
    );
}
