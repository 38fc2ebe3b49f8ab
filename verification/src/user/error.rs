use vstd::prelude::*;

verus! {

/// Errors of credential handling: reading or writing the at-rest credential
/// file and parsing a MAC address.
#[derive(Debug, Clone, PartialEq, Eq, Structural)]
pub enum UserError {
    /// An OS-level read or write failure, surfaced by the unverified file
    /// shell.
    Io,
    /// Authenticated encryption or decryption failed.
    Aead,
    /// Decrypted bytes were not valid UTF-8.
    Utf8,
    /// A MAC address string could not be parsed.
    Mac,
}

} // verus!
