use vstd::prelude::*;

pub mod components;
pub mod data;
pub mod host;
pub mod path;
pub mod rng;

verus! {

/// Verbosity levels of the application's logging shell; the library itself
/// never logs, it only carries the chosen level as data.
#[derive(Debug, Copy, Clone, PartialEq, Eq, Structural)]
pub enum LogLevel {
    Trace,
    Debug,
    Info,
    Warn,
    Error,
}

} // verus!
