//! Configuration data for the application: the GitHub user name and the
//! personal access token granting access to the repositories.
//!
//! Loading the record from the OS-appropriate configuration location is the
//! caller's job; the caller hands the two fields in as plain strings. A
//! missing configuration file yields the default (empty) record, which the
//! dashboard constructor then refuses.

use vstd::prelude::*;

verus! {

/// The two-field configuration record.
pub struct GhConfig {
    user: String,
    token: String,
}

/// The mathematical value of a [`GhConfig`].
pub struct GhConfigView {
    pub user: Seq<char>,
    pub token: Seq<char>,
}

impl View for GhConfig {
    type V = GhConfigView;

    closed spec fn view(&self) -> GhConfigView {
        GhConfigView { user: self.user@, token: self.token@ }
    }
}

impl GhConfig {
    /// A record holding exactly the two given fields.
    pub fn new(user: String, token: String) -> (r: GhConfig)
        ensures
            r@.user == user@,
            r@.token == token@,
    {
        GhConfig { user, token }
    }

    /// The configured GitHub user name.
    pub fn user(&self) -> (r: String)
        ensures
            r@ == self@.user,
    {
        self.user.clone()
    }

    /// The configured access token.
    pub fn token(&self) -> (r: String)
        ensures
            r@ == self@.token,
    {
        self.token.clone()
    }
}

impl Default for GhConfig {
    /// The record a missing configuration file yields: both fields empty.
    fn default() -> (r: GhConfig)
        ensures
            r@.user.len() == 0,
            r@.token.len() == 0,
    {
        GhConfig { user: String::new(), token: String::new() }
    }
}

} // verus!
