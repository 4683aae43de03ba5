//! The command-line surface: one optional flag naming an alternate
//! configuration file.
//!
//! Parsing the actual command line is the caller's job; the caller hands the
//! parsed flag in as a plain optional string.

use vstd::prelude::*;

verus! {

/// The parsed command-line arguments.
pub struct GhDashCli {
    config: Option<String>,
}

impl View for GhDashCli {
    type V = Option<Seq<char>>;

    closed spec fn view(&self) -> Option<Seq<char>> {
        match self.config {
            Some(ref path) => Some(path@),
            None => None,
        }
    }
}

impl GhDashCli {
    /// Arguments carrying the given alternate configuration file name, if
    /// one was supplied.
    pub fn new(config: Option<String>) -> (r: GhDashCli)
        ensures
            r@ == config.deep_view(),
    {
        GhDashCli { config }
    }

    /// The alternate configuration file name, if one was supplied.
    pub fn config(&self) -> (r: Option<String>)
        ensures
            r.deep_view() == self@,
    {
        match &self.config {
            Some(path) => Some(path.clone()),
            None => None,
        }
    }
}

} // verus!
