use messenger_desktop::media::{make_media_file, preview_supported, MediaManager, MediaPermissions};

#[test]
fn test_media_permissions_default() {
    let permissions = MediaPermissions {
        camera: false,
        microphone: false,
    };
    assert!(!permissions.camera);
    assert!(!permissions.microphone);
}

#[test]
fn test_media_permissions_clone() {
    let permissions = MediaPermissions {
        camera: true,
        microphone: true,
    };
    let cloned = permissions.clone();
    assert!(cloned.camera);
    assert!(cloned.microphone);
}

#[test]
fn test_grant_media_permission() {
    let mut manager = MediaManager::new();
    assert!(manager.grant_media_permission("camera"));
    assert!(manager.get_permissions().camera);
    assert!(!manager.get_permissions().microphone);
    assert!(manager.grant_media_permission("microphone"));
    assert!(manager.get_permissions().microphone);
    let mut other = MediaManager::new();
    assert!(!other.grant_media_permission("location"));
    assert!(!other.get_permissions().camera);
    assert!(!other.get_permissions().microphone);
}

#[test]
fn test_media_file_classification() {
    let image = make_media_file(
        "id-1".to_string(),
        "photo.jpg".to_string(),
        "/media/id-1.jpg".to_string(),
        1024,
        "image/jpeg".to_string(),
    );
    assert!(image.is_image);
    assert!(!image.is_video);
    assert!(!image.is_audio);
    assert_eq!(image.size, 1024);
    assert!(preview_supported(&image));

    let video = make_media_file(
        "id-2".to_string(),
        "clip.mp4".to_string(),
        "/media/id-2.mp4".to_string(),
        2048,
        "video/mp4".to_string(),
    );
    assert!(video.is_video && !video.is_image && !video.is_audio);
    assert!(preview_supported(&video));

    let audio = make_media_file(
        "id-3".to_string(),
        "note.ogg".to_string(),
        "/media/id-3.ogg".to_string(),
        7,
        "audio/ogg".to_string(),
    );
    assert!(audio.is_audio && !audio.is_image && !audio.is_video);
    assert!(!preview_supported(&audio));

    let blob = make_media_file(
        "id-4".to_string(),
        "data.bin".to_string(),
        "/media/id-4.bin".to_string(),
        0,
        "application/octet-stream".to_string(),
    );
    assert!(!blob.is_image && !blob.is_video && !blob.is_audio);
    assert!(!preview_supported(&blob));
}
