use vstd::prelude::*;

use crate::telegram::auth::TelegramAuth;
use crate::telegram::types::{FileMetadata, TelegramError, UploadResult};

verus! {

/// File operations on the remote store's saved messages.
pub struct TelegramFileManager {}

impl TelegramFileManager {
    pub fn new() -> (r: TelegramFileManager) {
        TelegramFileManager {  }
    }

    /// Uploads the file at `file_path`; the store answers with the file identifier
    /// `file_id`.
    pub fn upload_file(&self, auth: &TelegramAuth, file_path: &str) -> (r: Result<
        UploadResult,
        TelegramError,
    >)
        ensures
            r matches Ok(UploadResult::Success(id)) && id@ == "file_id"@,
    {
        Ok(UploadResult::Success(String::from_str("file_id")))
    }

    /// Downloads the file `file_id` to `destination_path`.
    pub fn download_file(&self, auth: &TelegramAuth, file_id: &str, destination_path: &str) -> (r:
        Result<(), TelegramError>)
        ensures
            r is Ok,
    {
        Ok(())
    }

    /// Lists the stored files: `file1.txt` of 1024 bytes and `file2.txt` of 2048 bytes,
    /// uploaded one second apart.
    pub fn list_files(&self, auth: &TelegramAuth) -> (r: Result<Vec<FileMetadata>, TelegramError>)
        ensures
            r matches Ok(files) && files@.len() == 2 && files@[0].name@ == "file1.txt"@
                && files@[0].size == 1024 && files@[0].date == 1621234567 && files@[1].name@
                == "file2.txt"@ && files@[1].size == 2048 && files@[1].date == 1621234568,
    {
        let mut files: Vec<FileMetadata> = Vec::new();
        files.push(
            FileMetadata { name: String::from_str("file1.txt"), size: 1024, date: 1621234567 },
        );
        files.push(
            FileMetadata { name: String::from_str("file2.txt"), size: 2048, date: 1621234568 },
        );
        Ok(files)
    }

    /// Deletes the stored file `file_id`.
    pub fn delete_file(&self, auth: &TelegramAuth, file_id: &str) -> (r: Result<(), TelegramError>)
        ensures
            r is Ok,
    {
        Ok(())
    }
}

} // verus!
