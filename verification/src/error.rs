use vstd::prelude::*;

verus! {

/// Error kinds of the protocol engine and its surroundings.
///
/// `Io` stands for an OS-level send/receive failure and `Timeout` for an
/// elapsed receive deadline; the two are distinct because the challenge step
/// treats both as soft (retry within the step) while every other step treats
/// them as fatal. The remaining kinds are fatal protocol or collaborator
/// errors.
#[derive(Debug, Clone, PartialEq, Eq)]
pub enum JludError {
    /// OS-level I/O failure, surfaced by the unverified transport shell.
    Io,
    /// Configuration text could not be parsed.
    Toml,
    /// Authenticated decryption of a credential file failed.
    AesGcm,
    /// Stored bytes were not valid UTF-8.
    FromUtf8,
    /// The at-rest credential file was not found.
    PasswordFileNotFound,
    /// The platform offers no usable network interface.
    UnsupportedPlatform,
    /// A receive deadline elapsed.
    Timeout,
    /// Five challenge attempts were exhausted without an accepting response.
    ChallengeFailed,
    /// A required field was absent; the payload names it.
    MissingField(String),
    /// No network interface of the given name exists.
    InterfaceNotFound(String),
    /// The server rejected the hardware MAC address during login.
    InvalidMac,
    /// The server rejected the username or password during login.
    InvalidUsernameOrPassword,
    /// The server answered with an unrecognized response tag.
    UnknownError,
}

} // verus!
