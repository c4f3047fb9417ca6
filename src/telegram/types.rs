use vstd::prelude::*;

verus! {

/// What the remote store lists for one stored file.
pub struct FileMetadata {
    pub name: String,
    pub size: u64,
    /// Unix timestamp of the upload.
    pub date: u64,
}

/// The outcome of an upload, as the remote store reports it.
pub enum UploadResult {
    /// The upload was stored under this file identifier.
    Success(String),
    /// The store refused the upload, with this message.
    Error(String),
}

/// A failure to reach or use the remote store.
pub struct TelegramError {
    pub message: String,
}

} // verus!
