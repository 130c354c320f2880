//! Characters in their UTF-8 form, as the `u8char` crate holds them.

use vstd::prelude::*;
use u8char::u8char;

verus! {

/// The outside type `u8char::u8char`: one Unicode scalar value, kept as the
/// bytes of its UTF-8 encoding. Nothing of its inside is visible here.
#[verifier::external_type_specification]
#[verifier::external_body]
pub struct ExU8char(u8char);

/// The scalar value that a `u8char` encodes: what `u8char::to_char`
/// returns for it.
pub uninterp spec fn scalar_value(c: u8char) -> char;

/// Calls `u8char::to_char`, which decodes the UTF-8 bytes held in the value
/// into the `char` they encode. The contract only gives that result its
/// name; a `u8char` always holds a complete valid encoding, so the call
/// returns for every value.
#[verifier::external_body]
pub(crate) fn to_scalar(c: u8char) -> (scalar: char)
    ensures
        scalar == scalar_value(c),
{
    c.to_char()
}

} // verus!
