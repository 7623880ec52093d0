//! Row identifiers: random (version 4) UUIDs, held as 128-bit integers.

use vstd::prelude::*;

verus! {

/// Whether `id`, read as a UUID, carries version 4 and the RFC 4122 variant.
pub open spec fn is_random_uuid(id: u128) -> bool {
    &&& (id >> 76u128) & 0xfu128 == 4u128
    &&& (id >> 62u128) & 0x3u128 == 2u128
}

/// `uuid::Uuid::new_v4`, read with `Uuid::as_u128`. The contract states the
/// version and variant bits that `new_v4` sets; the other bits are random.
/// The call panics only if the operating system's random source fails.
#[verifier::external_body]
pub(crate) fn fresh_id() -> (id: u128)
    ensures
        is_random_uuid(id),
{
    uuid::Uuid::new_v4().as_u128()
}

} // verus!
