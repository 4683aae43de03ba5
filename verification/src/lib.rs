//! A dashboard of a GitHub user's own (non-fork) repositories, rendered as a
//! single-column text grid.
//!
//! The crate owns the dashboard state and the rendering pipeline; fetching the
//! repository listing, loading configuration and command-line parsing are left
//! to the calling program, which hands the results in as plain values.

pub mod cli;
pub mod config;
pub mod dashboard;
pub mod error;
pub mod logging;

pub use dashboard::Dashboard;
pub use error::Error;
