pub mod auth;
pub mod file_manager;
pub mod types;

use vstd::prelude::*;

use crate::telegram::auth::TelegramAuth;
use crate::telegram::file_manager::TelegramFileManager;
use crate::telegram::types::{FileMetadata, TelegramError, UploadResult};

verus! {

/// A client of the remote store: a session's credentials and its file operations.
pub struct TelegramClient {
    auth: TelegramAuth,
    file_manager: TelegramFileManager,
}

impl TelegramClient {
    /// The session's credentials.
    pub closed spec fn spec_auth(&self) -> TelegramAuth {
        self.auth
    }

    pub fn new(api_id: i32, api_hash: &str) -> (r: TelegramClient)
        ensures
            r.spec_auth().spec_api_id() == api_id,
            r.spec_auth().spec_api_hash() == api_hash@,
    {
        let auth = TelegramAuth::new(api_id, api_hash);
        let file_manager = TelegramFileManager::new();
        TelegramClient { auth, file_manager }
    }

    pub fn authenticate(&mut self) -> (r: Result<(), TelegramError>)
        ensures
            r is Ok,
            *final(self) == *old(self),
    {
        self.auth.authenticate()
    }

    pub fn upload_file(&self, file_path: &str) -> (r: Result<UploadResult, TelegramError>)
        ensures
            r matches Ok(UploadResult::Success(id)) && id@ == "file_id"@,
    {
        self.file_manager.upload_file(&self.auth, file_path)
    }

    pub fn download_file(&self, file_id: &str, destination_path: &str) -> (r: Result<
        (),
        TelegramError,
    >)
        ensures
            r is Ok,
    {
        self.file_manager.download_file(&self.auth, file_id, destination_path)
    }

    pub fn list_files(&self) -> (r: Result<Vec<FileMetadata>, TelegramError>)
        ensures
            r matches Ok(files) && files@.len() == 2 && files@[0].name@ == "file1.txt"@
                && files@[0].size == 1024 && files@[0].date == 1621234567 && files@[1].name@
                == "file2.txt"@ && files@[1].size == 2048 && files@[1].date == 1621234568,
    {
        self.file_manager.list_files(&self.auth)
    }

    pub fn delete_file(&self, file_id: &str) -> (r: Result<(), TelegramError>)
        ensures
            r is Ok,
    {
        self.file_manager.delete_file(&self.auth, file_id)
    }
}

} // verus!
