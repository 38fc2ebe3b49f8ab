//! Best-effort lookup of the local host name for the login packet.
use vstd::prelude::*;

verus! {

/// Relies on hostname::get for the OS host name, with "unknown" as the
/// fallback when the lookup fails. The result depends on the machine, so
/// nothing is promised of its value; the login packet builder pads or
/// truncates it to its fixed 32-byte field whatever it is.
#[verifier::external_body]
pub fn get_host_name() -> Vec<u8>
{
    match hostname::get() {
        Ok(host) => host.to_string_lossy().to_string().into_bytes(),
        Err(_) => "unknown".to_string().into_bytes(),
    }
}

} // verus!
