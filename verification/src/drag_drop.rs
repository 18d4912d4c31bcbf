//! File drag-and-drop: the per-file records built from metadata the host
//! reads off the file system, and the payload assembled for the webview.
//! Reading file metadata, guessing MIME types and injecting files into the
//! page stay with the host.

use vstd::prelude::*;

verus! {

use crate::strutil;
use vstd::string::StringExecFns;

/// What one dropped file looks like to the webview.
#[derive(Debug, Clone)]
pub struct FileDropInfo {
    pub name: String,
    pub path: String,
    pub size: u64,
    pub mime_type: String,
    pub is_image: bool,
    pub is_video: bool,
    pub is_audio: bool,
    pub is_document: bool,
}

/// The payload emitted for one drop event.
#[derive(Debug)]
pub struct FileDropPayload {
    pub files: Vec<FileDropInfo>,
    pub status: String,
    pub error: Option<String>,
}

/// The drop record for the given metadata, classified by the top-level MIME
/// type ("application/..." counts as a document).
pub fn make_file_drop_info(name: String, path: String, size: u64, mime_type: String) -> (r:
    FileDropInfo)
    ensures
        r.name == name,
        r.path == path,
        r.size == size,
        r.mime_type == mime_type,
        r.is_image == strutil::starts_with_seq(mime_type@, "image/"@),
        r.is_video == strutil::starts_with_seq(mime_type@, "video/"@),
        r.is_audio == strutil::starts_with_seq(mime_type@, "audio/"@),
        r.is_document == strutil::starts_with_seq(mime_type@, "application/"@),
{
    let is_image = strutil::str_starts_with(mime_type.as_str(), "image/");
    let is_video = strutil::str_starts_with(mime_type.as_str(), "video/");
    let is_audio = strutil::str_starts_with(mime_type.as_str(), "audio/");
    let is_document = strutil::str_starts_with(mime_type.as_str(), "application/");
    FileDropInfo { name, path, size, mime_type, is_image, is_video, is_audio, is_document }
}

/// The files among the per-file results that were processed successfully, in
/// order.
pub open spec fn ok_files(results: Seq<Result<FileDropInfo, String>>) -> Seq<FileDropInfo>
    decreases results.len(),
{
    if results.len() == 0 {
        Seq::<FileDropInfo>::empty()
    } else {
        ok_files(results.drop_last()) + (match results.last() {
            Ok(file) => seq![file],
            Err(_) => Seq::<FileDropInfo>::empty(),
        })
    }
}

/// The message of the last failed result, if any failed.
pub open spec fn last_error(results: Seq<Result<FileDropInfo, String>>) -> Option<String>
    decreases results.len(),
{
    if results.len() == 0 {
        None
    } else {
        match results.last() {
            Err(e) => Some(e),
            Ok(_) => last_error(results.drop_last()),
        }
    }
}

impl FileDropInfo {
    /// A field-for-field copy of the record.
    pub fn duplicate(&self) -> (r: FileDropInfo)
        ensures
            r == *self,
    {
        FileDropInfo {
            name: self.name.clone(),
            path: self.path.clone(),
            size: self.size,
            mime_type: self.mime_type.clone(),
            is_image: self.is_image,
            is_video: self.is_video,
            is_audio: self.is_audio,
            is_document: self.is_document,
        }
    }
}

/// Folds the per-file results of one drop into its payload: the successfully
/// processed files in order, the last failure message as the error, and the
/// status accordingly.
pub fn handle_drop_results(results: &Vec<Result<FileDropInfo, String>>) -> (r: FileDropPayload)
    ensures
        r.files@ == ok_files(results@),
        r.error == last_error(results@),
        last_error(results@) is None ==> r.status@ == "success"@,
        last_error(results@) is Some ==> r.status@ == "error"@,
{
    let mut files: Vec<FileDropInfo> = Vec::new();
    let mut error: Option<String> = None;
    let mut i: usize = 0;
    while i < results.len()
        invariant
            i <= results@.len(),
            files@ == ok_files(results@.take(i as int)),
            error == last_error(results@.take(i as int)),
        decreases results@.len() - i,
    {
        proof {
            assert(results@.take(i + 1).drop_last() =~= results@.take(i as int));
            assert(results@.take(i + 1).last() == results@[i as int]);
        }
        match &results[i] {
            Ok(file) => {
                files.push(file.duplicate());
                proof {
                    assert(files@ =~= ok_files(results@.take(i + 1)));
                }
            },
            Err(e) => {
                error = Some(e.clone());
            },
        }
        i = i + 1;
    }
    proof {
        assert(results@.take(results@.len() as int) =~= results@);
    }
    assemble_drop_payload(files, error)
}

/// The successfully processed files among the per-file results, in order;
/// failures are dropped.
pub fn validate_files(results: &Vec<Result<FileDropInfo, String>>) -> (r: Vec<FileDropInfo>)
    ensures
        r@ == ok_files(results@),
{
    let payload = handle_drop_results(results);
    payload.files
}

/// The payload for a finished drop: status "success" exactly when no error
/// was recorded, "error" otherwise.
pub fn assemble_drop_payload(files: Vec<FileDropInfo>, error: Option<String>) -> (r:
    FileDropPayload)
    ensures
        r.files == files,
        error is None ==> r.status@ == "success"@ && r.error is None,
        error matches Some(e) ==> r.status@ == "error"@ && (r.error matches Some(f) && f == e),
{
    let status = if error.is_some() {
        String::from_str("error")
    } else {
        String::from_str("success")
    };
    FileDropPayload { files, status, error }
}

} // verus!
