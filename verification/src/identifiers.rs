//! Random identifiers shared by entities and assets.

use vstd::prelude::*;

verus! {

/// Whether a 128-bit value (big-endian, as `Uuid::as_u128` gives it) is a
/// random UUID: version nibble 4 and the RFC 4122 variant bits `10`.
pub open spec fn is_random_uuid(value: u128) -> bool {
    &&& (value >> 76u128) & 0xFu128 == 4
    &&& (value >> 62u128) & 0x3u128 == 2
}

/// Draws a fresh random (version 4) UUID with `uuid::Uuid::new_v4` and hands
/// back its 128-bit value (`Uuid::as_u128`). The crate masks random bits so
/// that the version nibble reads 4 and the variant bits read `10`; that much
/// is stated, the other 122 bits are random and nothing is said of them.
#[verifier::external_body]
pub(crate) fn new_random_uuid_value() -> (value: u128)
    ensures
        is_random_uuid(value),
{
    uuid::Uuid::new_v4().as_u128()
}

} // verus!
