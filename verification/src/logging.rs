//! The decisions behind the logging setup.
//!
//! The setup itself — probing for a reachable trace collector, installing a
//! tracing pipeline or a console subscriber — is outside work done by the
//! caller. This module owns what the caller decides with: which backend the
//! probe's outcome selects, which verbosity the console gets under each
//! backend, and the filter directive handed to the console subscriber.

use vstd::prelude::*;

verus! {

/// A verbosity level for console logging, from silence to full tracing.
#[derive(Clone, Copy, Debug, PartialEq, Eq, Structural)]
pub enum Verbosity {
    Off,
    Error,
    Warn,
    Info,
    Debug,
    Trace,
}

/// The two logging backends a run can end up with.
#[derive(Clone, Copy, Debug, PartialEq, Eq, Structural)]
pub enum LogBackend {
    /// A distributed-tracing pipeline beside the console logger; chosen when
    /// a trace collector is reachable.
    Tracing,
    /// A console logger alone.
    Plain,
}

/// Which backend the collector probe's outcome selects.
pub open spec fn spec_backend(collector_reachable: bool) -> LogBackend {
    if collector_reachable {
        LogBackend::Tracing
    } else {
        LogBackend::Plain
    }
}

/// The verbosity the console logger runs at: under the plain backend, a
/// request for full tracing is lowered to debug (trace output belongs to the
/// collector, which is not there); every other request is kept as it is.
pub open spec fn spec_console_verbosity(backend: LogBackend, verbosity: Verbosity) -> Verbosity {
    if backend == LogBackend::Plain && verbosity == Verbosity::Trace {
        Verbosity::Debug
    } else {
        verbosity
    }
}

/// The filter directive handed to the console subscriber: the application's
/// own log target, capped at `verbosity`.
pub open spec fn spec_filter_directive(verbosity: Verbosity) -> Seq<char> {
    match verbosity {
        Verbosity::Off => "ghdash=OFF"@,
        Verbosity::Error => "ghdash=ERROR"@,
        Verbosity::Warn => "ghdash=WARN"@,
        Verbosity::Info => "ghdash=INFO"@,
        Verbosity::Debug => "ghdash=DEBUG"@,
        Verbosity::Trace => "ghdash=TRACE"@,
    }
}

/// Select the backend from the collector probe's outcome.
pub fn choose_backend(collector_reachable: bool) -> (r: LogBackend)
    ensures
        r == spec_backend(collector_reachable),
{
    if collector_reachable {
        LogBackend::Tracing
    } else {
        LogBackend::Plain
    }
}

/// The verbosity the console logger runs at under `backend`.
pub fn console_verbosity(backend: LogBackend, verbosity: Verbosity) -> (r: Verbosity)
    ensures
        r == spec_console_verbosity(backend, verbosity),
{
    if backend == LogBackend::Plain && verbosity == Verbosity::Trace {
        Verbosity::Debug
    } else {
        verbosity
    }
}

/// The filter directive for the console subscriber at `verbosity`.
pub fn filter_directive(verbosity: Verbosity) -> (r: String)
    ensures
        r@ == spec_filter_directive(verbosity),
{
    match verbosity {
        Verbosity::Off => "ghdash=OFF".to_owned(),
        Verbosity::Error => "ghdash=ERROR".to_owned(),
        Verbosity::Warn => "ghdash=WARN".to_owned(),
        Verbosity::Info => "ghdash=INFO".to_owned(),
        Verbosity::Debug => "ghdash=DEBUG".to_owned(),
        Verbosity::Trace => "ghdash=TRACE".to_owned(),
    }
}

} // verus!
