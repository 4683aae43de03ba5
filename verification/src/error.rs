//! The error taxonomy of the dashboard.

use vstd::prelude::*;

verus! {

/// Every way a dashboard run can fail. No variant is retried or recovered
/// internally: each one short-circuits the run and is surfaced to the caller.
#[derive(Clone, Copy, Debug, PartialEq, Eq, Structural)]
pub enum Error {
    /// The user name was empty when the dashboard was built.
    MustHaveUser,
    /// The access token was empty when the dashboard was built.
    MustHaveToken,
    /// The remote repository listing failed (authentication, transport, or a
    /// malformed response).
    ApiError,
    /// The configuration could not be loaded or parsed.
    ConfigError,
}

impl Error {
    /// A short description of the failure, for the caller to display.
    pub fn message(&self) -> (r: &'static str)
        ensures
            *self == Error::MustHaveUser ==> r@ == "a user name must be provided"@,
            *self == Error::MustHaveToken ==> r@ == "an access token must be provided"@,
            *self == Error::ApiError ==> r@ == "the repository listing failed"@,
            *self == Error::ConfigError ==> r@ == "the configuration could not be loaded"@,
    {
        match self {
            Error::MustHaveUser => "a user name must be provided",
            Error::MustHaveToken => "an access token must be provided",
            Error::ApiError => "the repository listing failed",
            Error::ConfigError => "the configuration could not be loaded",
        }
    }
}

} // verus!
