use vstd::prelude::*;

verus! {

/// The bits that every random (version 4, RFC 4122 variant) UUID carries:
/// version nibble 4 and variant bits `10`.
pub open spec fn is_random_uuid(id: u128) -> bool {
    &&& (id >> 76u128) & 0xfu128 == 4u128
    &&& (id >> 62u128) & 0x3u128 == 2u128
}

/// A fresh random identifier, as the 128-bit value of a version-4 UUID.
///
/// Calls `uuid::Uuid::new_v4` and reads the result with `Uuid::as_u128`. The
/// value is random; all that is claimed of it is that its version nibble is 4
/// and its variant bits are `10`, which `new_v4` sets on every value it makes.
#[verifier::external_body]
pub(crate) fn new_id() -> (id: u128)
    ensures
        is_random_uuid(id),
{
    uuid::Uuid::new_v4().as_u128()
}

/// A random identifier is never the nil identifier 0.
pub proof fn lemma_random_uuid_not_nil(id: u128)
    requires
        is_random_uuid(id),
    ensures
        id != 0,
{
    assert((id >> 76u128) & 0xfu128 == 4u128 ==> id != 0) by (bit_vector);
}

} // verus!
