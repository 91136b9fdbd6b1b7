//! Overwriting secrets with zeros before their memory is released.

use vstd::prelude::*;

verus! {

/// Relies on `zeroize::Zeroize` for `String`: the bytes are overwritten with
/// zeros and the string is left empty.
#[verifier::external_body]
pub(crate) fn wipe_string(s: &mut String)
    ensures
        final(s)@.len() == 0,
{
    zeroize::Zeroize::zeroize(s)
}

/// Relies on `zeroize::Zeroize` for byte arrays: every byte is set to zero.
#[verifier::external_body]
pub(crate) fn wipe_key(key: &mut [u8; 32])
    ensures
        forall|i: int| 0 <= i < 32 ==> #[trigger] final(key)@[i] == 0u8,
{
    zeroize::Zeroize::zeroize(key)
}

} // verus!

verus! {

/// Relies on `zeroize::Zeroize` for `Vec<u8>`: the bytes, and the spare
/// capacity, are overwritten with zeros and the vector is left empty.
#[verifier::external_body]
pub(crate) fn wipe_bytes(v: &mut Vec<u8>)
    ensures
        final(v)@.len() == 0,
{
    zeroize::Zeroize::zeroize(v)
}

} // verus!
