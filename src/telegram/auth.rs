use vstd::prelude::*;

use crate::telegram::types::TelegramError;

verus! {

/// The credentials of a session with the remote store.
pub struct TelegramAuth {
    api_id: i32,
    api_hash: String,
}

impl TelegramAuth {
    /// The application identifier.
    pub closed spec fn spec_api_id(&self) -> i32 {
        self.api_id
    }

    /// The application hash.
    pub closed spec fn spec_api_hash(&self) -> Seq<char> {
        self.api_hash@
    }

    pub fn new(api_id: i32, api_hash: &str) -> (r: TelegramAuth)
        ensures
            r.spec_api_id() == api_id,
            r.spec_api_hash() == api_hash@,
    {
        TelegramAuth { api_id, api_hash: String::from_str(api_hash) }
    }

    /// Obtains an authorization code and exchanges it for an access token. The session
    /// keeps no token yet, so the credentials are left as they were.
    pub fn authenticate(&mut self) -> (r: Result<(), TelegramError>)
        ensures
            r is Ok,
            *final(self) == *old(self),
    {
        let code = self.get_authorization_code()?;
        let _token = self.exchange_code_for_token(code.as_str())?;
        Ok(())
    }

    fn get_authorization_code(&self) -> (r: Result<String, TelegramError>)
        ensures
            r matches Ok(code) && code@ == "authorization_code"@,
    {
        Ok(String::from_str("authorization_code"))
    }

    fn exchange_code_for_token(&self, code: &str) -> (r: Result<String, TelegramError>)
        ensures
            r matches Ok(token) && token@ == "access_token"@,
    {
        Ok(String::from_str("access_token"))
    }

    #[allow(dead_code)]
    fn refresh_access_token(&self, refresh_token: &str) -> (r: Result<String, TelegramError>)
        ensures
            r matches Ok(token) && token@ == "new_access_token"@,
    {
        Ok(String::from_str("new_access_token"))
    }
}

} // verus!
