//! Random names and access keys.

use crate::text::all_alphanumeric;
use rand::distributions::{Alphanumeric, DistString};
use vstd::prelude::*;

verus! {

/// Number of characters in the random part of a file name.
pub const FILE_NAME_LEN: u8 = 16;

/// Number of characters in an access key.
pub const ACCESS_KEY_LEN: u8 = 64;

/// Calls `Alphanumeric.sample_string` of `rand` with the thread's generator.
/// Trusted: the string has `len` characters, each of them one of `A-Z`,
/// `a-z`, `0-9`. Which ones is left open: two calls may differ.
#[verifier::external_body]
pub(crate) fn random_alphanumeric(len: u8) -> (s: String)
    ensures
        s@.len() == len,
        all_alphanumeric(s@),
{
    Alphanumeric.sample_string(&mut rand::thread_rng(), usize::from(len))
}

} // verus!
