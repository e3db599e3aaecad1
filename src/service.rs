//! The service value and its administrative configuration.
use vstd::prelude::*;

use crate::error::{Error, Result};

verus! {

/// The chess service: its administrative configuration (the administrator's
/// identity, the store's URL and API key) and, through its associated
/// functions and methods, the rules and the session lifecycle.
pub struct OhMyChess {
    pub admin: [u8; 32],
    pub url: String,
    pub api_key: String,
}

impl OhMyChess {
    /// The service, administered by `admin`, the identity that set it up.
    pub fn new(admin: [u8; 32], url: String, api_key: String) -> (r: Result<Self>)
        ensures
            r matches Ok(s) && s.admin == admin && s.url == url && s.api_key == api_key,
    {
        Ok(OhMyChess { admin, url, api_key })
    }

    pub fn is_admin(&self, caller: &[u8; 32]) -> (r: bool)
        ensures
            r == (*caller == self.admin),
    {
        crate::session::same_identity(caller, &self.admin)
    }

    /// The store's URL, for the administrator only.
    pub fn get_url(&self, caller: &[u8; 32]) -> (r: Result<String>)
        ensures
            r == if *caller == self.admin { Ok(self.url) } else { Err::<String, Error>(Error::NotAuthorized) },
    {
        if self.is_admin(caller) {
            Ok(self.url.clone())
        } else {
            Err(Error::NotAuthorized)
        }
    }

    /// Replaces the store's URL when the administrator asks; tells whether it
    /// did.
    pub fn set_url(&mut self, caller: &[u8; 32], url: String) -> (r: bool)
        ensures
            r == (*caller == old(self).admin),
            final(self).admin == old(self).admin,
            final(self).api_key == old(self).api_key,
            final(self).url == if r { url } else { old(self).url },
    {
        if !self.is_admin(caller) {
            false
        } else {
            self.url = url;
            true
        }
    }

    /// The store's API key, for the administrator only.
    pub fn get_api_key(&self, caller: &[u8; 32]) -> (r: Result<String>)
        ensures
            r == if *caller == self.admin { Ok(self.api_key) } else { Err::<String, Error>(Error::NotAuthorized) },
    {
        if self.is_admin(caller) {
            Ok(self.api_key.clone())
        } else {
            Err(Error::NotAuthorized)
        }
    }

    /// Replaces the store's API key when the administrator asks; tells
    /// whether it did.
    pub fn set_api_key(&mut self, caller: &[u8; 32], api_key: String) -> (r: bool)
        ensures
            r == (*caller == old(self).admin),
            final(self).admin == old(self).admin,
            final(self).url == old(self).url,
            final(self).api_key == if r { api_key } else { old(self).api_key },
    {
        if !self.is_admin(caller) {
            false
        } else {
            self.api_key = api_key;
            true
        }
    }
}

} // verus!
