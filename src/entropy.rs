//! Access to the operating system's entropy source.
use vstd::prelude::*;

use crate::SeedError;

verus! {

/// How many times an entropy-seeded constructor draws again after drawing the
/// forbidden all-zero seed.
pub const ENTROPY_ATTEMPTS: u32 = 16;

#[verifier::external_type_specification]
#[verifier::external_body]
pub struct ExRandCoreError(rand_core::Error);

/// Relies on rand_core's `OsRng::try_fill_bytes`, which hands `dest` to
/// `getrandom` to be overwritten in place: its length stays, and nothing is
/// known of the bytes.
#[verifier::external_body]
fn os_try_fill(dest: &mut [u8]) -> (r: Result<(), rand_core::Error>)
    ensures
        final(dest)@.len() == old(dest)@.len(),
{
    rand_core::RngCore::try_fill_bytes(&mut rand_core::OsRng, dest)
}

/// Overwrites `dest` with bytes from the operating system's entropy source.
pub fn fill_from_os(dest: &mut [u8]) -> (r: Result<(), SeedError>)
    ensures
        final(dest)@.len() == old(dest)@.len(),
        r matches Err(e) ==> e == SeedError::EntropySourceUnavailable,
{
    match os_try_fill(dest) {
        Ok(()) => Ok(()),
        Err(_) => Err(SeedError::EntropySourceUnavailable),
    }
}

} // verus!
