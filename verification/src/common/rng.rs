//! Source of the random filler bytes that several wire packets carry.
use vstd::prelude::*;

verus! {

/// Relies on rand::random: a fresh random byte; nothing is promised of its
/// value.
#[verifier::external_body]
pub(crate) fn random_byte() -> u8 {
    rand::random()
}

} // verus!
