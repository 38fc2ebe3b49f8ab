//! Client library for a challenge/response campus-network authentication
//! protocol that runs over UDP: a byte-exact packet codec for the four wire
//! packet kinds, the checksum and digest primitives the protocol relies on,
//! the session state machine driving challenge, login and keep-alive, and the
//! retry/repeat wrappers that make the flow durable.
//!
//! All I/O (sockets, files, prompts) lives outside this crate; the library
//! computes packets and decisions from plain values handed in by the caller.
use vstd::prelude::*;

pub mod args;
pub mod auth;
pub mod cli;
pub mod common;
pub mod component;
pub mod config;
pub mod context;
pub mod error;
pub mod user;

verus! {

/// Top-level error of the application shell around this library.
#[derive(Debug, Clone, PartialEq, Eq)]
pub enum AppError {
    Context(crate::error::JludError),
}

} // verus!
