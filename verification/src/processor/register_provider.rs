//! `RegisterProvider`: registers a provider, or rotates its commitment.

use vstd::prelude::*;
use vstd::bytes::*;
use crate::accounts::{lemma_provider_record, record_in, Provider, PubkeyBytes, PROVIDER_LEN};
use crate::bytes::{array_eq, zero_array, zeros};
use crate::constants::{provider_seed_spec, provider_vault_seed_spec, system_program_id,
    system_program_id_spec, COMMITMENT_METADATA_LEN, URI_LEN};
use crate::discriminator::provider_discriminator;
use crate::error::{EntropyError, ProgramError};
use crate::instruction::{parse_register_provider_args, RegisterProviderArgs,
    register_provider_args_in};
use crate::pda::{bump_of, is_address, matches_pda, pda2, provider_pda, provider_vault_pda};
use crate::processor::{invalid_account, invalid_pda, next_account_info};
use crate::runtime::{init_account_plan, init_pda_mut, init_vault_pda, load_account, load_refused,
    vault_plan, AccountInfo, Invocation, SignerSeeds};

verus! {

/// What a successful `RegisterProvider` asks for: the steps for the
/// system program, in order, and the provider record to store.
#[derive(Debug)]
pub struct RegisterProviderOutcome {
    pub plan: Vec<Invocation>,
    pub provider: Provider,
}

/// Whether every field of the provider is zero.
pub open spec fn is_blank_provider(provider: Provider) -> bool {
    &&& provider.discriminator@ == zeros(8)
    &&& provider.provider_authority@ == zeros(32)
    &&& provider.fee_lamports == 0
    &&& provider.original_commitment@ == zeros(32)
    &&& provider.original_commitment_sequence_number == 0
    &&& provider.commitment_metadata_len == 0
    &&& provider.commitment_metadata@ == zeros(64)
    &&& provider.uri_len == 0
    &&& provider.uri@ == zeros(256)
    &&& provider.end_sequence_number == 0
    &&& provider.sequence_number == 0
    &&& provider.current_commitment@ == zeros(32)
    &&& provider.current_commitment_sequence_number == 0
    &&& provider.fee_manager@ == zeros(32)
    &&& provider.max_num_hashes == 0
    &&& provider.default_compute_unit_limit == 0
    &&& provider.bump == 0
}

/// The provider record that a freshly created account holds: all zero.
pub fn blank_provider() -> (provider: Provider)
    ensures
        is_blank_provider(provider),
{
    Provider {
        discriminator: zero_array::<8>(),
        provider_authority: zero_array::<32>(),
        fee_lamports: 0,
        original_commitment: zero_array::<32>(),
        original_commitment_sequence_number: 0,
        commitment_metadata_len: 0,
        commitment_metadata: zero_array::<COMMITMENT_METADATA_LEN>(),
        uri_len: 0,
        uri: zero_array::<URI_LEN>(),
        end_sequence_number: 0,
        sequence_number: 0,
        current_commitment: zero_array::<32>(),
        current_commitment_sequence_number: 0,
        fee_manager: zero_array::<32>(),
        max_num_hashes: 0,
        default_compute_unit_limit: 0,
        bump: 0,
    }
}

/// Whether `after` is `before` registered anew by `authority` with
/// `args`: the commitment becomes both the original and the current one
/// at the old sequence number, the chain ends `chain_length` later, and
/// the registration itself takes one sequence number. Fee manager and
/// guard rails stay.
pub open spec fn registered(
    before: Provider,
    after: Provider,
    authority: PubkeyBytes,
    args: RegisterProviderArgs,
    bump: u8,
) -> bool {
    &&& after.discriminator@ == spec_u64_to_le_bytes(1)
    &&& after.provider_authority == authority
    &&& after.fee_lamports == args.fee_lamports
    &&& after.original_commitment == args.commitment
    &&& after.original_commitment_sequence_number == before.sequence_number
    &&& after.current_commitment == args.commitment
    &&& after.current_commitment_sequence_number == before.sequence_number
    &&& after.commitment_metadata_len == args.commitment_metadata_len
    &&& after.commitment_metadata == args.commitment_metadata
    &&& after.uri_len == args.uri_len
    &&& after.uri == args.uri
    &&& after.end_sequence_number == before.sequence_number + args.chain_length
    &&& after.sequence_number == before.sequence_number + 1
    &&& after.fee_manager == before.fee_manager
    &&& after.max_num_hashes == before.max_num_hashes
    &&& after.default_compute_unit_limit == before.default_compute_unit_limit
    &&& after.bump == bump
}

/// Registers `authority` on `provider` with `args`. An empty chain, or
/// one that would end beyond the last sequence number, is an invalid
/// argument.
pub fn register(provider: &Provider, authority: &PubkeyBytes, args: &RegisterProviderArgs, bump: u8) -> (r:
    Result<Provider, ProgramError>)
    ensures
        r.is_ok() <==> (args.chain_length > 0 && provider.sequence_number + args.chain_length
            <= u64::MAX),
        r matches Err(e) ==> e == ProgramError::InvalidArgument,
        r matches Ok(after) ==> registered(*provider, after, *authority, *args, bump)
            && after.well_formed(),
{
    if args.chain_length == 0 {
        return Err(ProgramError::InvalidArgument);
    }
    let end_sequence_number = match provider.sequence_number.checked_add(args.chain_length) {
        Some(end) => end,
        None => { return Err(ProgramError::InvalidArgument); },
    };
    Ok(
        Provider {
            discriminator: provider_discriminator(),
            provider_authority: *authority,
            fee_lamports: args.fee_lamports,
            original_commitment: args.commitment,
            original_commitment_sequence_number: provider.sequence_number,
            commitment_metadata_len: args.commitment_metadata_len,
            commitment_metadata: args.commitment_metadata,
            uri_len: args.uri_len,
            uri: args.uri,
            end_sequence_number,
            sequence_number: provider.sequence_number + 1,
            current_commitment: args.commitment,
            current_commitment_sequence_number: provider.sequence_number,
            fee_manager: provider.fee_manager,
            max_num_hashes: provider.max_num_hashes,
            default_compute_unit_limit: provider.default_compute_unit_limit,
            bump,
        },
    )
}

/// The error with which `RegisterProvider` refuses its payload and
/// accounts before it looks at a stored provider, if it does. The
/// accounts are the authority, the provider, its vault and the system
/// program.
pub open spec fn register_provider_refusal(
    program_id: PubkeyBytes,
    accounts: Seq<AccountInfo>,
    data: Seq<u8>,
) -> Option<ProgramError> {
    if data.len() != 384 {
        Some(ProgramError::InvalidInstructionData)
    } else if spec_u64_from_le_bytes(data.subrange(112, 120)) == 0 {
        Some(ProgramError::InvalidArgument)
    } else if spec_u16_from_le_bytes(data.subrange(40, 42)) > 64 || spec_u16_from_le_bytes(
        data.subrange(120, 122),
    ) > 256 {
        Some(ProgramError::InvalidInstructionData)
    } else if accounts.len() < 4 {
        Some(ProgramError::NotEnoughAccountKeys)
    } else if !accounts[0].is_signer {
        Some(ProgramError::MissingRequiredSignature)
    } else if !accounts[0].is_writable || !accounts[1].is_writable || !accounts[2].is_writable {
        Some(invalid_account())
    } else if accounts[3].key@ != system_program_id_spec() {
        Some(invalid_account())
    } else if !is_address(
        accounts[1].key@,
        pda2(provider_seed_spec(), accounts[0].key@, program_id@),
    ) {
        Some(invalid_pda())
    } else if !is_address(
        accounts[2].key@,
        pda2(provider_vault_seed_spec(), accounts[0].key@, program_id@),
    ) {
        Some(invalid_pda())
    } else if accounts[1].owner@ == system_program_id_spec() {
        if accounts[1].data@.len() != 0 {
            Some(invalid_account())
        } else {
            None
        }
    } else if load_refused::<Provider>(accounts[1], program_id) {
        Some(invalid_account())
    } else if record_in::<Provider>(accounts[1].data@).provider_authority@ != accounts[0].key@ {
        Some(invalid_account())
    } else {
        None
    }
}

/// The sequence number that the provider account holds before the
/// registration: zero for an account that is yet to be created.
pub open spec fn stored_sequence_number(provider_account: AccountInfo) -> u64 {
    if provider_account.owner@ == system_program_id_spec() {
        0
    } else {
        record_in::<Provider>(provider_account.data@).sequence_number
    }
}

/// The error that `RegisterProvider` fails with, if it does.
pub open spec fn register_provider_failure(
    program_id: PubkeyBytes,
    accounts: Seq<AccountInfo>,
    data: Seq<u8>,
) -> Option<ProgramError> {
    match register_provider_refusal(program_id, accounts, data) {
        Some(e) => Some(e),
        None => if !accounts[2].is_blank_spec() {
            Some(invalid_account())
        } else if stored_sequence_number(accounts[1]) + spec_u64_from_le_bytes(
            data.subrange(112, 120),
        ) > u64::MAX {
            Some(ProgramError::InvalidArgument)
        } else {
            None
        },
    }
}

/// The steps that a successful `RegisterProvider` asks for: the creation
/// of the provider account on a first registration, and the upkeep of
/// the vault.
pub open spec fn register_provider_plan(
    program_id: PubkeyBytes,
    accounts: Seq<AccountInfo>,
    provider_rent: u64,
    vault_rent: u64,
) -> Seq<Invocation> {
    let creation = if accounts[1].owner@ == system_program_id_spec() {
        init_account_plan(
            program_id,
            accounts[0].key,
            accounts[1],
            SignerSeeds::Provider {
                authority: accounts[0].key,
                bump: bump_of(pda2(provider_seed_spec(), accounts[0].key@, program_id@)),
            },
            520,
            provider_rent,
        )
    } else {
        Seq::empty()
    };
    creation + vault_plan(accounts[0].key, accounts[2], vault_rent)
}

/// Whether `r` is what `RegisterProvider` results in: its failure, or its
/// steps with the provider registered anew on what the account held.
pub open spec fn register_provider_result(
    program_id: PubkeyBytes,
    accounts: Seq<AccountInfo>,
    data: Seq<u8>,
    provider_rent: u64,
    vault_rent: u64,
    r: Result<RegisterProviderOutcome, ProgramError>,
) -> bool {
    match register_provider_failure(program_id, accounts, data) {
        Some(error) => r matches Err(e) && e == error,
        None => {
            &&& r matches Ok(outcome)
            &&& outcome.plan@ == register_provider_plan(
                program_id,
                accounts,
                provider_rent,
                vault_rent,
            )
            &&& outcome.provider.well_formed()
            &&& exists|before: Provider|
                {
                    &&& if accounts[1].owner@ == system_program_id_spec() {
                        is_blank_provider(before)
                    } else {
                        before == record_in::<Provider>(accounts[1].data@)
                    }
                    &&& #[trigger] registered(
                        before,
                        outcome.provider,
                        accounts[0].key,
                        register_args_of(data),
                        bump_of(pda2(provider_seed_spec(), accounts[0].key@, program_id@)),
                    )
                }
        },
    }
}

/// The arguments that a `RegisterProvider` payload of the right size
/// holds.
pub open spec fn register_args_of(data: Seq<u8>) -> RegisterProviderArgs {
    choose|args: RegisterProviderArgs| register_provider_args_in(args, data)
}

/// A payload holds at most one set of arguments.
pub proof fn lemma_register_args_unique(args: RegisterProviderArgs, data: Seq<u8>)
    requires
        register_provider_args_in(args, data),
    ensures
        register_args_of(data) == args,
{
    let other = register_args_of(data);
    assert(register_provider_args_in(other, data));
    assert(other.commitment =~= args.commitment);
    assert(other.commitment_metadata =~= args.commitment_metadata);
    assert(other.uri =~= args.uri);
}

/// Processes `RegisterProvider`. `provider_rent` and `vault_rent` are the
/// rent-exempt minimums for an account of a provider's size and for one
/// without data.
pub fn process_register_provider(
    program_id: &PubkeyBytes,
    accounts: &[AccountInfo],
    data: &[u8],
    provider_rent: u64,
    vault_rent: u64,
) -> (r: Result<RegisterProviderOutcome, ProgramError>)
    ensures
        register_provider_result(*program_id, accounts@, data@, provider_rent, vault_rent, r),
{
    let args = match parse_register_provider_args(data) {
        Ok(args) => args,
        Err(e) => { return Err(e); },
    };
    proof {
        lemma_register_args_unique(args, data@);
    }
    if args.chain_length == 0 {
        return Err(ProgramError::InvalidArgument);
    }
    if args.commitment_metadata_len as usize > COMMITMENT_METADATA_LEN || args.uri_len as usize
        > URI_LEN {
        return Err(ProgramError::InvalidInstructionData);
    }
    let provider_authority = match next_account_info(accounts, 0) {
        Ok(a) => a,
        Err(e) => { return Err(e); },
    };
    let provider_account = match next_account_info(accounts, 1) {
        Ok(a) => a,
        Err(e) => { return Err(e); },
    };
    let provider_vault = match next_account_info(accounts, 2) {
        Ok(a) => a,
        Err(e) => { return Err(e); },
    };
    let system_program_account = match next_account_info(accounts, 3) {
        Ok(a) => a,
        Err(e) => { return Err(e); },
    };
    if !provider_authority.is_signer {
        return Err(ProgramError::MissingRequiredSignature);
    }
    if !provider_authority.is_writable || !provider_account.is_writable
        || !provider_vault.is_writable {
        return Err(EntropyError::InvalidAccount.program_error());
    }
    let system = system_program_id();
    if !system_program_account.has_key(&system) {
        return Err(EntropyError::InvalidAccount.program_error());
    }
    let provider_bump = match matches_pda(
        &provider_account.key,
        &provider_pda(program_id, &provider_authority.key),
    ) {
        Some(bump) => bump,
        None => { return Err(EntropyError::InvalidPda.program_error()); },
    };
    if matches_pda(
        &provider_vault.key,
        &provider_vault_pda(program_id, &provider_authority.key),
    ).is_none() {
        return Err(EntropyError::InvalidPda.program_error());
    }
    let mut plan: Vec<Invocation> = Vec::new();
    let stored = if provider_account.owned_by(&system) {
        match init_pda_mut(
            &mut plan,
            program_id,
            &provider_authority.key,
            provider_account,
            SignerSeeds::Provider { authority: provider_authority.key, bump: provider_bump },
            PROVIDER_LEN as u64,
            provider_rent,
        ) {
            Ok(()) => {},
            Err(e) => { return Err(e); },
        }
        blank_provider()
    } else {
        let stored = match load_account::<Provider>(provider_account, program_id) {
            Ok(p) => p,
            Err(e) => { return Err(e); },
        };
        proof {
            lemma_provider_record(stored, provider_account.data@);
        }
        if !array_eq(&stored.provider_authority, &provider_authority.key) {
            return Err(EntropyError::InvalidAccount.program_error());
        }
        stored
    };
    match init_vault_pda(&mut plan, &provider_authority.key, provider_vault, vault_rent) {
        Ok(()) => {},
        Err(e) => { return Err(e); },
    }
    match register(&stored, &provider_authority.key, &args, provider_bump) {
        Ok(provider) => {
            let outcome = RegisterProviderOutcome { plan, provider };
            proof {
                assert(register_provider_failure(*program_id, accounts@, data@).is_none());
                assert(registered(
                    stored,
                    outcome.provider,
                    accounts@[0].key,
                    register_args_of(data@),
                    bump_of(pda2(provider_seed_spec(), accounts@[0].key@, program_id@)),
                ));
            }
            Ok(outcome)
        },
        Err(e) => {
            proof {
                assert(register_provider_failure(*program_id, accounts@, data@) == Some(
                    ProgramError::InvalidArgument,
                ));
            }
            Err(e)
        },
    }
}

/// A registration with an empty chain is refused as an invalid
/// argument, whatever the accounts.
pub proof fn lemma_empty_chain_rejected(
    program_id: PubkeyBytes,
    accounts: Seq<AccountInfo>,
    data: Seq<u8>,
    args: RegisterProviderArgs,
)
    requires
        register_provider_args_in(args, data),
        args.chain_length == 0,
    ensures
        register_provider_failure(program_id, accounts, data) == Some(
            ProgramError::InvalidArgument,
        ),
{
}

/// A registration whose metadata is declared longer than 64 bytes, or
/// whose URI is declared longer than 256 bytes, is refused as invalid
/// instruction data, whatever the accounts.
pub proof fn lemma_oversized_descriptors_rejected(
    program_id: PubkeyBytes,
    accounts: Seq<AccountInfo>,
    data: Seq<u8>,
    args: RegisterProviderArgs,
)
    requires
        register_provider_args_in(args, data),
        args.chain_length != 0,
        args.commitment_metadata_len > 64 || args.uri_len > 256,
    ensures
        register_provider_failure(program_id, accounts, data) == Some(
            ProgramError::InvalidInstructionData,
        ),
{
}

} // verus!
