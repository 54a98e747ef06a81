//! Sizes, status codes and address seeds of the protocol.

use vstd::prelude::*;

verus! {

/// Fixed-size buffer length for provider commitment metadata.
pub const COMMITMENT_METADATA_LEN: usize = 64;

/// Fixed-size buffer length for provider URIs.
pub const URI_LEN: usize = 256;

/// Maximum number of callback accounts stored in a request.
pub const MAX_CALLBACK_ACCOUNTS: usize = 16;

/// Fixed-size buffer length for callback instruction data.
pub const CALLBACK_IX_DATA_LEN: usize = 256;

/// The request needs no callback.
pub const CALLBACK_NOT_NECESSARY: u8 = 0;

/// The request waits for its callback.
pub const CALLBACK_NOT_STARTED: u8 = 1;

/// The callback of the request is running.
pub const CALLBACK_IN_PROGRESS: u8 = 2;

/// The address of the system program: thirty-two zero bytes.
pub open spec fn system_program_id_spec() -> Seq<u8> {
    Seq::new(32, |i: int| 0u8)
}

/// The address of the system program.
pub fn system_program_id() -> (id: [u8; 32])
    ensures
        id@ == system_program_id_spec(),
{
    let id = crate::bytes::zero_array::<32>();
    assert(id@ =~= system_program_id_spec());
    id
}

/// `"config"`.
pub open spec fn config_seed_spec() -> Seq<u8> {
    seq![99u8, 111u8, 110u8, 102u8, 105u8, 103u8]
}

/// `"provider"`.
pub open spec fn provider_seed_spec() -> Seq<u8> {
    seq![112u8, 114u8, 111u8, 118u8, 105u8, 100u8, 101u8, 114u8]
}

/// `"provider_vault"`.
pub open spec fn provider_vault_seed_spec() -> Seq<u8> {
    seq![
        112u8, 114u8, 111u8, 118u8, 105u8, 100u8, 101u8, 114u8, 95u8, 118u8, 97u8, 117u8, 108u8,
        116u8,
    ]
}

/// `"request"`.
pub open spec fn request_seed_spec() -> Seq<u8> {
    seq![114u8, 101u8, 113u8, 117u8, 101u8, 115u8, 116u8]
}

/// `"pyth_fee_vault"`.
pub open spec fn pyth_fee_vault_seed_spec() -> Seq<u8> {
    seq![
        112u8, 121u8, 116u8, 104u8, 95u8, 102u8, 101u8, 101u8, 95u8, 118u8, 97u8, 117u8, 108u8,
        116u8,
    ]
}

/// `"entropy_signer"`.
pub open spec fn entropy_signer_seed_spec() -> Seq<u8> {
    seq![
        101u8, 110u8, 116u8, 114u8, 111u8, 112u8, 121u8, 95u8, 115u8, 105u8, 103u8, 110u8, 101u8,
        114u8,
    ]
}

/// `"requester_signer"`.
pub open spec fn requester_signer_seed_spec() -> Seq<u8> {
    seq![
        114u8, 101u8, 113u8, 117u8, 101u8, 115u8, 116u8, 101u8, 114u8, 95u8, 115u8, 105u8, 103u8,
        110u8, 101u8, 114u8,
    ]
}

/// Seed for the config address.
pub fn config_seed() -> (s: Vec<u8>)
    ensures
        s@ == config_seed_spec(),
{
    let s = vec![99u8, 111u8, 110u8, 102u8, 105u8, 103u8];
    assert(s@ =~= config_seed_spec());
    s
}

/// Seed for a provider's address.
pub fn provider_seed() -> (s: Vec<u8>)
    ensures
        s@ == provider_seed_spec(),
{
    let s = vec![112u8, 114u8, 111u8, 118u8, 105u8, 100u8, 101u8, 114u8];
    assert(s@ =~= provider_seed_spec());
    s
}

/// Seed for the address of a provider's fee vault.
pub fn provider_vault_seed() -> (s: Vec<u8>)
    ensures
        s@ == provider_vault_seed_spec(),
{
    let s = vec![
        112u8, 114u8, 111u8, 118u8, 105u8, 100u8, 101u8, 114u8, 95u8, 118u8, 97u8, 117u8, 108u8,
        116u8,
    ];
    assert(s@ =~= provider_vault_seed_spec());
    s
}

/// Seed for a request's address.
pub fn request_seed() -> (s: Vec<u8>)
    ensures
        s@ == request_seed_spec(),
{
    let s = vec![114u8, 101u8, 113u8, 117u8, 101u8, 115u8, 116u8];
    assert(s@ =~= request_seed_spec());
    s
}

/// Seed for the address of the protocol's fee vault.
pub fn pyth_fee_vault_seed() -> (s: Vec<u8>)
    ensures
        s@ == pyth_fee_vault_seed_spec(),
{
    let s = vec![
        112u8, 121u8, 116u8, 104u8, 95u8, 102u8, 101u8, 101u8, 95u8, 118u8, 97u8, 117u8, 108u8,
        116u8,
    ];
    assert(s@ =~= pyth_fee_vault_seed_spec());
    s
}

/// Seed for the address that signs callbacks.
pub fn entropy_signer_seed() -> (s: Vec<u8>)
    ensures
        s@ == entropy_signer_seed_spec(),
{
    let s = vec![
        101u8, 110u8, 116u8, 114u8, 111u8, 112u8, 121u8, 95u8, 115u8, 105u8, 103u8, 110u8, 101u8,
        114u8,
    ];
    assert(s@ =~= entropy_signer_seed_spec());
    s
}

/// Seed for the address with which a requester program signs.
pub fn requester_signer_seed() -> (s: Vec<u8>)
    ensures
        s@ == requester_signer_seed_spec(),
{
    let s = vec![
        114u8, 101u8, 113u8, 117u8, 101u8, 115u8, 116u8, 101u8, 114u8, 95u8, 115u8, 105u8, 103u8,
        110u8, 101u8, 114u8,
    ];
    assert(s@ =~= requester_signer_seed_spec());
    s
}

} // verus!
