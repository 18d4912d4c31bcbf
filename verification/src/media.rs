//! Media handling: permissions state and the metadata records built for
//! saved files. Writing files, generating previews and guessing MIME types is
//! host work; the host hands in the file's id, path, size and MIME type, and
//! the classification into image/video/audio is verified here.

use vstd::prelude::*;

verus! {

use crate::strutil;

/// Camera and microphone permission state.
#[derive(Clone, Copy, Debug, PartialEq, Eq, Structural)]
pub struct MediaPermissions {
    pub camera: bool,
    pub microphone: bool,
}

/// Metadata of one stored media file.
#[derive(Debug, Clone)]
pub struct MediaFile {
    pub id: String,
    pub name: String,
    pub path: String,
    pub size: u64,
    pub mime_type: String,
    pub is_image: bool,
    pub is_video: bool,
    pub is_audio: bool,
}

/// The media-file record for the given metadata, classified by the top-level
/// MIME type.
pub fn make_media_file(id: String, name: String, path: String, size: u64, mime_type: String) -> (r:
    MediaFile)
    ensures
        r.id == id,
        r.name == name,
        r.path == path,
        r.size == size,
        r.mime_type == mime_type,
        r.is_image == strutil::starts_with_seq(mime_type@, "image/"@),
        r.is_video == strutil::starts_with_seq(mime_type@, "video/"@),
        r.is_audio == strutil::starts_with_seq(mime_type@, "audio/"@),
{
    let is_image = strutil::str_starts_with(mime_type.as_str(), "image/");
    let is_video = strutil::str_starts_with(mime_type.as_str(), "video/");
    let is_audio = strutil::str_starts_with(mime_type.as_str(), "audio/");
    MediaFile { id, name, path, size, mime_type, is_image, is_video, is_audio }
}

/// Whether a preview can be generated for the file: only images and videos.
pub fn preview_supported(file: &MediaFile) -> (r: bool)
    ensures
        r == (file.is_image || file.is_video),
{
    file.is_image || file.is_video
}

/// Owns the media permission state.
pub struct MediaManager {
    pub permissions: MediaPermissions,
}

impl MediaManager {
    /// A manager with no permissions granted yet.
    pub fn new() -> (r: Self)
        ensures
            !r.permissions.camera,
            !r.permissions.microphone,
    {
        MediaManager { permissions: MediaPermissions { camera: false, microphone: false } }
    }

    /// Grants camera permission and reports the new state.
    pub fn request_camera(&mut self) -> (r: bool)
        ensures
            r,
            final(self).permissions == (MediaPermissions {
                camera: true,
                ..old(self).permissions
            }),
    {
        self.permissions.camera = true;
        self.permissions.camera
    }

    /// Grants microphone permission and reports the new state.
    pub fn request_microphone(&mut self) -> (r: bool)
        ensures
            r,
            final(self).permissions == (MediaPermissions {
                microphone: true,
                ..old(self).permissions
            }),
    {
        self.permissions.microphone = true;
        self.permissions.microphone
    }

    /// The current permission state.
    pub fn get_permissions(&self) -> (r: MediaPermissions)
        ensures
            r == self.permissions,
    {
        self.permissions
    }

    /// Grants the named permission: true for "camera" or "microphone", false
    /// (and no change) for anything else.
    pub fn grant_media_permission(&mut self, permission_type: &str) -> (r: bool)
        ensures
            permission_type@ == "camera"@ ==> r && final(self).permissions == (MediaPermissions {
                camera: true,
                ..old(self).permissions
            }),
            permission_type@ == "microphone"@ ==> r && final(self).permissions == (
            MediaPermissions { microphone: true, ..old(self).permissions }),
            permission_type@ != "camera"@ && permission_type@ != "microphone"@ ==> !r
                && *final(self) == *old(self),
    {
        proof {
            reveal_strlit("camera");
            reveal_strlit("microphone");
            assert("camera"@.len() != "microphone"@.len());
        }
        if strutil::str_eq(permission_type, "camera") {
            self.request_camera()
        } else if strutil::str_eq(permission_type, "microphone") {
            self.request_microphone()
        } else {
            false
        }
    }
}

} // verus!
