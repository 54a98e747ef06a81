//! The eight bytes that open every record and tell its kind.

use vstd::prelude::*;
use vstd::bytes::*;

verus! {

/// The discriminator of the record kind with the given ordinal: the
/// ordinal as eight little-endian bytes.
pub fn account_discriminator(ordinal: u64) -> (d: [u8; 8])
    ensures
        d@ == spec_u64_to_le_bytes(ordinal),
{
    crate::bytes::u64_le_array(ordinal)
}

/// Discriminator of the configuration record.
pub fn config_discriminator() -> (d: [u8; 8])
    ensures
        d@ == spec_u64_to_le_bytes(0),
{
    account_discriminator(0)
}

/// Discriminator of a provider record.
pub fn provider_discriminator() -> (d: [u8; 8])
    ensures
        d@ == spec_u64_to_le_bytes(1),
{
    account_discriminator(1)
}

/// Discriminator of a request record.
pub fn request_discriminator() -> (d: [u8; 8])
    ensures
        d@ == spec_u64_to_le_bytes(2),
{
    account_discriminator(2)
}

/// Distinct ordinals give distinct discriminators.
pub proof fn lemma_discriminators_distinct(a: u64, b: u64)
    requires
        a != b,
    ensures
        spec_u64_to_le_bytes(a) != spec_u64_to_le_bytes(b),
{
    lemma_auto_spec_u64_to_from_le_bytes();
}

} // verus!
