//! Identifiers of profiles and rules.

use vstd::prelude::*;

verus! {

/// A UUID, as a 128-bit number.
#[derive(Debug, Clone, Copy, PartialEq, Eq, Structural, Hash)]
pub struct Uuid {
    pub bits: u128,
}

/// Whether a UUID is a random one: version 4 of the RFC 9562 variant.
pub open spec fn is_random(id: Uuid) -> bool {
    &&& (id.bits >> 76) & 0xF == 4
    &&& (id.bits >> 62) & 0x3 == 2
}

impl Uuid {
    /// The UUID that no profile has: all zeros.
    pub open spec fn zero() -> Uuid {
        Uuid { bits: 0 }
    }

    /// `uuid::Uuid::nil` gives the UUID with every bit zero.
    #[verifier::external_body]
    fn outside_nil() -> (r: u128)
        ensures
            r == 0,
    {
        uuid::Uuid::nil().as_u128()
    }

    /// `uuid::Uuid::new_v4` draws a UUID from the operating system's random
    /// numbers. Nothing is said of which one comes, but that it carries the
    /// version and the variant of random UUIDs. Without a source of random
    /// numbers it panics.
    #[verifier::external_body]
    fn outside_new_v4() -> (r: u128)
        ensures
            is_random(Uuid { bits: r }),
    {
        uuid::Uuid::new_v4().as_u128()
    }

    pub fn nil() -> (r: Uuid)
        ensures
            r == Uuid::zero(),
    {
        Uuid { bits: Self::outside_nil() }
    }

    /// A new random UUID.
    pub fn new_v4() -> (r: Uuid)
        ensures
            is_random(r),
    {
        Uuid { bits: Self::outside_new_v4() }
    }
}

/// A random UUID is never the nil one.
pub proof fn random_is_not_nil(id: Uuid)
    requires
        is_random(id),
    ensures
        id != Uuid::zero(),
{
    assert((0u128 >> 76) & 0xF == 0) by (bit_vector);
}

} // verus!
