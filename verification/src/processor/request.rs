//! `Request`: assigns a sequence number, charges the fees and records the
//! obligation that a later reveal must meet.

use vstd::prelude::*;
use vstd::bytes::*;
use crate::accounts::{lemma_config_unique, lemma_provider_record, provider_fee_spec, record_in,
    CallbackMeta, Config, Provider, PubkeyBytes, Request, REQUEST_LEN};
use crate::bytes::{u64_le_array, zeros};
use crate::constants::{config_seed_spec, provider_seed_spec, provider_vault_seed_spec,
    pyth_fee_vault_seed_spec, requester_signer_seed_spec, system_program_id,
    system_program_id_spec, CALLBACK_IX_DATA_LEN, CALLBACK_NOT_NECESSARY, MAX_CALLBACK_ACCOUNTS};
use crate::discriminator::request_discriminator;
use crate::error::{EntropyError, ProgramError};
use crate::hashing::{hash_pair, sha256_digest};
use crate::instruction::{parse_request_args, RequestArgs};
use crate::pda::{config_pda, is_address, matches_pda, pda1, pda2, provider_pda,
    provider_vault_pda, pyth_fee_vault_pda, requester_signer_pda};
use crate::processor::{invalid_account, invalid_pda};
use crate::runtime::{credited, debited, funding, init_account_plan, lemma_init_account_funding,
    lemma_moved_concat, load_account, load_refused, plan_init_account, AccountInfo, Invocation,
    SignerSeeds, SystemCall};

verus! {

/// What the protocol grants a request: the provider with its next
/// sequence number taken, the request record, and the two fees.
#[derive(Clone, Copy, Debug)]
pub struct RequestGrant {
    pub provider: Provider,
    pub request: Request,
    pub sequence_number: u64,
    pub provider_fee: u64,
    pub pyth_fee: u64,
}

/// The error with which a request to `provider` is turned down, if it
/// is: the chain is used up; the distance to the last revealed value
/// does not fit in 32 bits or is beyond the provider's limit; or the fee
/// overflows.
pub open spec fn request_failure(provider: Provider, compute_unit_limit: u32) -> Option<
    ProgramError,
> {
    if provider.sequence_number >= provider.end_sequence_number {
        Some(EntropyError::OutOfRandomness.program_error_spec())
    } else if provider.sequence_number < provider.current_commitment_sequence_number
        || provider.sequence_number - provider.current_commitment_sequence_number > u32::MAX {
        Some(ProgramError::InvalidArgument)
    } else if provider.max_num_hashes != 0 && provider.sequence_number
        - provider.current_commitment_sequence_number > provider.max_num_hashes {
        Some(EntropyError::LastRevealedTooOld.program_error_spec())
    } else if provider_fee_spec(
        provider.fee_lamports,
        provider.default_compute_unit_limit,
        compute_unit_limit,
    ).is_none() {
        Some(ProgramError::InvalidArgument)
    } else {
        None
    }
}

/// Whether `request` is the record of a request without callback that
/// `provider` was asked for with `args`.
pub open spec fn request_recorded(
    request: Request,
    provider: Provider,
    args: RequestArgs,
    payer: PubkeyBytes,
    requester_program: PubkeyBytes,
    requester_signer: PubkeyBytes,
    request_slot: u64,
) -> bool {
    &&& request.discriminator@ == spec_u64_to_le_bytes(2)
    &&& request.provider == provider.provider_authority
    &&& request.sequence_number == provider.sequence_number
    &&& request.num_hashes == provider.sequence_number
        - provider.current_commitment_sequence_number
    &&& request.commitment@ == sha256_digest(
        args.user_commitment@ + provider.current_commitment@,
    )
    &&& request.request_slot == request_slot
    &&& request.requester_program_id == requester_program
    &&& request.requester_signer == requester_signer
    &&& request.payer == payer
    &&& request.use_blockhash == args.use_blockhash
    &&& request.callback_status == CALLBACK_NOT_NECESSARY
    &&& request.compute_unit_limit == if args.compute_unit_limit
        > provider.default_compute_unit_limit {
        args.compute_unit_limit
    } else {
        provider.default_compute_unit_limit
    }
    &&& request.callback_program_id@ == zeros(32)
    &&& request.callback_accounts_len == 0
    &&& forall|j: int|
        0 <= j < 16 ==> {
            &&& (#[trigger] request.callback_accounts@[j]).pubkey@ == zeros(32)
            &&& request.callback_accounts@[j].is_signer == 0
            &&& request.callback_accounts@[j].is_writable == 0
        }
    &&& request.callback_ix_data_len == 0
    &&& request.callback_ix_data@ == zeros(256)
    &&& request.bump == 0
}

/// `provider` with its next sequence number taken.
pub open spec fn sequence_taken(provider: Provider) -> Provider {
    Provider { sequence_number: (provider.sequence_number + 1) as u64, ..provider }
}

/// Grants a request: takes the provider's next sequence number, prices
/// the request and binds the user's commitment to the provider's current
/// one.
pub fn request_helper(
    args: &RequestArgs,
    config: &Config,
    provider: &Provider,
    payer: &PubkeyBytes,
    requester_program: &PubkeyBytes,
    requester_signer: &PubkeyBytes,
    request_slot: u64,
) -> (r: Result<RequestGrant, ProgramError>)
    ensures
        match request_failure(*provider, args.compute_unit_limit) {
            Some(error) => r == Err::<RequestGrant, ProgramError>(error),
            None => {
                &&& r matches Ok(grant)
                &&& grant.provider == sequence_taken(*provider)
                &&& grant.provider.sequence_number == provider.sequence_number + 1
                &&& grant.sequence_number == provider.sequence_number
                &&& grant.sequence_number < provider.end_sequence_number
                &&& Some(grant.provider_fee) == provider_fee_spec(
                    provider.fee_lamports,
                    provider.default_compute_unit_limit,
                    args.compute_unit_limit,
                )
                &&& grant.pyth_fee == config.pyth_fee_lamports
                &&& request_recorded(
                    grant.request,
                    *provider,
                    *args,
                    *payer,
                    *requester_program,
                    *requester_signer,
                    request_slot,
                )
                &&& (provider.well_formed() ==> grant.provider.well_formed())
            },
        },
{
    let sequence_number: u64 = provider.sequence_number;
    if sequence_number >= provider.end_sequence_number {
        return Err(EntropyError::OutOfRandomness.program_error());
    }
    if sequence_number < provider.current_commitment_sequence_number {
        return Err(ProgramError::InvalidArgument);
    }
    let distance: u64 = sequence_number - provider.current_commitment_sequence_number;
    if distance > 0xffff_ffffu64 {
        return Err(ProgramError::InvalidArgument);
    }
    let num_hashes: u32 = distance as u32;
    if provider.max_num_hashes != 0 && num_hashes > provider.max_num_hashes {
        return Err(EntropyError::LastRevealedTooOld.program_error());
    }
    let provider_fee = match provider.calculate_provider_fee(args.compute_unit_limit) {
        Ok(fee) => fee,
        Err(e) => { return Err(e); },
    };
    let mut next = *provider;
    next.sequence_number = sequence_number + 1;
    let compute_unit_limit: u32 = if args.compute_unit_limit
        > provider.default_compute_unit_limit {
        args.compute_unit_limit
    } else {
        provider.default_compute_unit_limit
    };
    let request = Request {
        discriminator: request_discriminator(),
        provider: provider.provider_authority,
        sequence_number,
        num_hashes,
        commitment: hash_pair(&args.user_commitment, &provider.current_commitment),
        request_slot,
        requester_program_id: *requester_program,
        requester_signer: *requester_signer,
        payer: *payer,
        use_blockhash: args.use_blockhash,
        callback_status: CALLBACK_NOT_NECESSARY,
        compute_unit_limit,
        callback_program_id: crate::bytes::zero_array::<32>(),
        callback_accounts_len: 0,
        callback_accounts: [CallbackMeta::empty(); MAX_CALLBACK_ACCOUNTS],
        callback_ix_data_len: 0,
        callback_ix_data: crate::bytes::zero_array::<CALLBACK_IX_DATA_LEN>(),
        bump: 0,
    };
    Ok(
        RequestGrant {
            provider: next,
            request,
            sequence_number,
            provider_fee,
            pyth_fee: config.pyth_fee_lamports,
        },
    )
}

/// The error with which the accounts of a request are refused, if they
/// are. In order they are the requester's signer, the payer, the
/// requester program, the request, the provider, the provider's vault,
/// the configuration, the protocol's fee vault and the system program.
pub open spec fn request_accounts_failure(program_id: PubkeyBytes, accounts: Seq<AccountInfo>) -> Option<
    ProgramError,
> {
    if accounts.len() < 9 {
        Some(ProgramError::NotEnoughAccountKeys)
    } else if !accounts[0].is_signer || !accounts[1].is_signer || !accounts[3].is_signer {
        Some(ProgramError::MissingRequiredSignature)
    } else if !accounts[1].is_writable || !accounts[3].is_writable || !accounts[4].is_writable
        || !accounts[5].is_writable || !accounts[7].is_writable {
        Some(invalid_account())
    } else if accounts[8].key@ != system_program_id_spec() {
        Some(invalid_account())
    } else if !is_address(
        accounts[0].key@,
        pda2(requester_signer_seed_spec(), program_id@, accounts[2].key@),
    ) {
        Some(invalid_pda())
    } else if !is_address(accounts[6].key@, pda1(config_seed_spec(), program_id@)) {
        Some(invalid_pda())
    } else if !is_address(accounts[7].key@, pda1(pyth_fee_vault_seed_spec(), program_id@)) {
        Some(invalid_pda())
    } else if !accounts[7].is_blank_spec() || !accounts[3].is_blank_spec() {
        Some(invalid_account())
    } else if load_refused::<Config>(accounts[6], program_id) || load_refused::<Provider>(
        accounts[4],
        program_id,
    ) {
        Some(invalid_account())
    } else if !is_address(
        accounts[4].key@,
        pda2(
            provider_seed_spec(),
            record_in::<Provider>(accounts[4].data@).provider_authority@,
            program_id@,
        ),
    ) {
        Some(invalid_pda())
    } else if !is_address(
        accounts[5].key@,
        pda2(
            provider_vault_seed_spec(),
            record_in::<Provider>(accounts[4].data@).provider_authority@,
            program_id@,
        ),
    ) {
        Some(invalid_pda())
    } else if !accounts[5].is_blank_spec() {
        Some(invalid_account())
    } else {
        None
    }
}

/// Checks the accounts of a request and loads the configuration and the
/// provider.
pub fn validate_request_accounts(program_id: &PubkeyBytes, accounts: &[AccountInfo]) -> (r: Result<
    (Config, Provider),
    ProgramError,
>)
    ensures
        match request_accounts_failure(*program_id, accounts@) {
            Some(error) => r == Err::<(Config, Provider), ProgramError>(error),
            None => r == Ok::<(Config, Provider), ProgramError>(
                (record_in::<Config>(accounts@[6].data@), record_in::<Provider>(accounts@[4].data@)),
            ),
        },
{
    if accounts.len() < 9 {
        return Err(ProgramError::NotEnoughAccountKeys);
    }
    let requester_signer = &accounts[0];
    let payer = &accounts[1];
    let requester_program = &accounts[2];
    let request_account = &accounts[3];
    let provider_account = &accounts[4];
    let provider_vault = &accounts[5];
    let config_account = &accounts[6];
    let pyth_fee_vault = &accounts[7];
    let system_program_account = &accounts[8];
    if !requester_signer.is_signer || !payer.is_signer || !request_account.is_signer {
        return Err(ProgramError::MissingRequiredSignature);
    }
    if !payer.is_writable || !request_account.is_writable || !provider_account.is_writable
        || !provider_vault.is_writable || !pyth_fee_vault.is_writable {
        return Err(EntropyError::InvalidAccount.program_error());
    }
    if !system_program_account.has_key(&system_program_id()) {
        return Err(EntropyError::InvalidAccount.program_error());
    }
    if matches_pda(
        &requester_signer.key,
        &requester_signer_pda(program_id, &requester_program.key),
    ).is_none() {
        return Err(EntropyError::InvalidPda.program_error());
    }
    if matches_pda(&config_account.key, &config_pda(program_id)).is_none() {
        return Err(EntropyError::InvalidPda.program_error());
    }
    if matches_pda(&pyth_fee_vault.key, &pyth_fee_vault_pda(program_id)).is_none() {
        return Err(EntropyError::InvalidPda.program_error());
    }
    if !pyth_fee_vault.is_blank() {
        return Err(EntropyError::InvalidAccount.program_error());
    }
    if !request_account.is_blank() {
        return Err(EntropyError::InvalidAccount.program_error());
    }
    let config = match load_account::<Config>(config_account, program_id) {
        Ok(c) => c,
        Err(e) => { return Err(e); },
    };
    let provider = match load_account::<Provider>(provider_account, program_id) {
        Ok(p) => p,
        Err(e) => { return Err(e); },
    };
    proof {
        lemma_config_unique(config, config, config_account.data@);
        lemma_provider_record(provider, provider_account.data@);
    }
    if matches_pda(
        &provider_account.key,
        &provider_pda(program_id, &provider.provider_authority),
    ).is_none() {
        return Err(EntropyError::InvalidPda.program_error());
    }
    if matches_pda(
        &provider_vault.key,
        &provider_vault_pda(program_id, &provider.provider_authority),
    ).is_none() {
        return Err(EntropyError::InvalidPda.program_error());
    }
    if !provider_vault.is_blank() {
        return Err(EntropyError::InvalidAccount.program_error());
    }
    Ok((config, provider))
}

/// The transfers that charge the fees of a request: the provider's fee
/// to the provider's vault and the protocol's fee to the protocol's
/// vault, each only where it is not zero.
pub open spec fn fee_plan(
    payer: PubkeyBytes,
    provider_vault: PubkeyBytes,
    pyth_fee_vault: PubkeyBytes,
    provider_fee: u64,
    pyth_fee: u64,
) -> Seq<Invocation> {
    let first = if provider_fee > 0 {
        seq![
            Invocation {
                call: SystemCall::Transfer { from: payer, to: provider_vault, lamports: provider_fee },
                seeds: SignerSeeds::Unsigned,
            },
        ]
    } else {
        Seq::empty()
    };
    let second = if pyth_fee > 0 {
        seq![
            Invocation {
                call: SystemCall::Transfer { from: payer, to: pyth_fee_vault, lamports: pyth_fee },
                seeds: SignerSeeds::Unsigned,
            },
        ]
    } else {
        Seq::empty()
    };
    first + second
}

/// The fee transfers take from the payer the two fees together, and
/// bring each vault its own fee.
pub proof fn lemma_fee_conservation(
    payer: PubkeyBytes,
    provider_vault: PubkeyBytes,
    pyth_fee_vault: PubkeyBytes,
    provider_fee: u64,
    pyth_fee: u64,
)
    requires
        provider_vault != pyth_fee_vault,
    ensures
        debited(
            fee_plan(payer, provider_vault, pyth_fee_vault, provider_fee, pyth_fee),
            payer,
        ) == provider_fee + pyth_fee,
        credited(
            fee_plan(payer, provider_vault, pyth_fee_vault, provider_fee, pyth_fee),
            provider_vault,
        ) == provider_fee,
        credited(
            fee_plan(payer, provider_vault, pyth_fee_vault, provider_fee, pyth_fee),
            pyth_fee_vault,
        ) == pyth_fee,
        forall|other: PubkeyBytes|
            other != provider_vault && other != pyth_fee_vault ==> #[trigger] credited(
                fee_plan(payer, provider_vault, pyth_fee_vault, provider_fee, pyth_fee),
                other,
            ) == 0,
{
    let plan = fee_plan(payer, provider_vault, pyth_fee_vault, provider_fee, pyth_fee);
    reveal_with_fuel(debited, 3);
    reveal_with_fuel(credited, 3);
    if provider_fee > 0 && pyth_fee > 0 {
        assert(plan.len() == 2);
        assert(plan.drop_last().len() == 1);
        assert(plan.drop_last().drop_last().len() == 0);
        assert(plan.drop_last().last() == plan[0]);
    } else if provider_fee > 0 || pyth_fee > 0 {
        assert(plan.len() == 1);
        assert(plan.drop_last().len() == 0);
    } else {
        assert(plan.len() == 0);
    }
}

/// The steps of a granted request take from the payer the two fees and
/// what the request account needs to be exempt from rent, and no more;
/// each vault receives its own fee and the request account its funding.
pub proof fn lemma_request_conservation(
    program_id: PubkeyBytes,
    accounts: Seq<AccountInfo>,
    provider_fee: u64,
    pyth_fee: u64,
    request_rent: u64,
)
    requires
        accounts.len() >= 9,
        accounts[5].key != accounts[7].key,
        accounts[3].key != accounts[5].key,
        accounts[3].key != accounts[7].key,
    ensures
        debited(
            request_plan(program_id, accounts, provider_fee, pyth_fee, request_rent),
            accounts[1].key,
        ) == provider_fee + pyth_fee + funding(accounts[3], request_rent),
        credited(
            request_plan(program_id, accounts, provider_fee, pyth_fee, request_rent),
            accounts[5].key,
        ) == provider_fee,
        credited(
            request_plan(program_id, accounts, provider_fee, pyth_fee, request_rent),
            accounts[7].key,
        ) == pyth_fee,
        credited(
            request_plan(program_id, accounts, provider_fee, pyth_fee, request_rent),
            accounts[3].key,
        ) == funding(accounts[3], request_rent),
{
    let fees = fee_plan(accounts[1].key, accounts[5].key, accounts[7].key, provider_fee, pyth_fee);
    let creation = init_account_plan(
        program_id,
        accounts[1].key,
        accounts[3],
        SignerSeeds::Unsigned,
        1040,
        request_rent,
    );
    lemma_fee_conservation(accounts[1].key, accounts[5].key, accounts[7].key, provider_fee, pyth_fee);
    lemma_init_account_funding(
        program_id,
        accounts[1].key,
        accounts[3],
        SignerSeeds::Unsigned,
        1040,
        request_rent,
    );
    lemma_moved_concat(fees, creation, accounts[1].key);
    lemma_moved_concat(fees, creation, accounts[5].key);
    lemma_moved_concat(fees, creation, accounts[7].key);
    lemma_moved_concat(fees, creation, accounts[3].key);
}

/// Appends the fee transfers of a request to `plan`.
pub fn plan_fees(
    plan: &mut Vec<Invocation>,
    payer: &PubkeyBytes,
    provider_vault: &PubkeyBytes,
    pyth_fee_vault: &PubkeyBytes,
    provider_fee: u64,
    pyth_fee: u64,
)
    ensures
        final(plan)@ == old(plan)@ + fee_plan(
            *payer,
            *provider_vault,
            *pyth_fee_vault,
            provider_fee,
            pyth_fee,
        ),
{
    let ghost before = plan@;
    if provider_fee > 0 {
        plan.push(
            Invocation {
                call: SystemCall::Transfer {
                    from: *payer,
                    to: *provider_vault,
                    lamports: provider_fee,
                },
                seeds: SignerSeeds::Unsigned,
            },
        );
    }
    if pyth_fee > 0 {
        plan.push(
            Invocation {
                call: SystemCall::Transfer { from: *payer, to: *pyth_fee_vault, lamports: pyth_fee },
                seeds: SignerSeeds::Unsigned,
            },
        );
    }
    assert(plan@ =~= before + fee_plan(
        *payer,
        *provider_vault,
        *pyth_fee_vault,
        provider_fee,
        pyth_fee,
    ));
}

/// What a successful request asks for: the steps for the system program,
/// in order; the provider and the request to store once they ran; and
/// the data to return to the caller, the sequence number as eight
/// little-endian bytes.
#[derive(Debug)]
pub struct RequestOutcome {
    pub plan: Vec<Invocation>,
    pub provider: Provider,
    pub request: Request,
    pub return_data: [u8; 8],
}

/// The steps of a granted request: the fee transfers, then the creation
/// of the request account, paid by the payer and signed by nobody but
/// the transaction's own signers.
pub open spec fn request_plan(
    program_id: PubkeyBytes,
    accounts: Seq<AccountInfo>,
    provider_fee: u64,
    pyth_fee: u64,
    request_rent: u64,
) -> Seq<Invocation> {
    fee_plan(accounts[1].key, accounts[5].key, accounts[7].key, provider_fee, pyth_fee)
        + init_account_plan(
        program_id,
        accounts[1].key,
        accounts[3],
        SignerSeeds::Unsigned,
        1040,
        request_rent,
    )
}

/// The arguments that a `Request` payload of the right size holds.
pub open spec fn request_args_of(data: Seq<u8>) -> RequestArgs {
    choose|args: RequestArgs| crate::instruction::request_args_in(args, data)
}

/// A payload holds at most one set of arguments.
pub proof fn lemma_request_args_unique(args: RequestArgs, data: Seq<u8>)
    requires
        crate::instruction::request_args_in(args, data),
    ensures
        request_args_of(data) == args,
{
    let other = request_args_of(data);
    assert(crate::instruction::request_args_in(other, data));
    assert(other.user_commitment =~= args.user_commitment);
}

/// The error that `Request` fails with, if it does.
pub open spec fn process_request_failure(
    program_id: PubkeyBytes,
    accounts: Seq<AccountInfo>,
    data: Seq<u8>,
) -> Option<ProgramError> {
    if data.len() != 40 {
        Some(ProgramError::InvalidInstructionData)
    } else if data[32] > 1 {
        Some(ProgramError::InvalidInstructionData)
    } else {
        match request_accounts_failure(program_id, accounts) {
            Some(e) => Some(e),
            None => request_failure(
                record_in::<Provider>(accounts[4].data@),
                request_args_of(data).compute_unit_limit,
            ),
        }
    }
}

/// Finishes a granted request: plans the fees and the request account.
pub(crate) fn finish_request(
    program_id: &PubkeyBytes,
    accounts: &[AccountInfo],
    grant: &RequestGrant,
    request_rent: u64,
) -> (outcome: RequestOutcome)
    requires
        accounts@.len() >= 9,
    ensures
        outcome.plan@ == request_plan(
            *program_id,
            accounts@,
            grant.provider_fee,
            grant.pyth_fee,
            request_rent,
        ),
        outcome.provider == grant.provider,
        outcome.request == grant.request,
        outcome.return_data@ == spec_u64_to_le_bytes(grant.sequence_number),
{
    let mut plan: Vec<Invocation> = Vec::new();
    plan_fees(
        &mut plan,
        &accounts[1].key,
        &accounts[5].key,
        &accounts[7].key,
        grant.provider_fee,
        grant.pyth_fee,
    );
    plan_init_account(
        &mut plan,
        program_id,
        &accounts[1].key,
        &accounts[3],
        SignerSeeds::Unsigned,
        REQUEST_LEN as u64,
        request_rent,
    );
    RequestOutcome {
        plan,
        provider: grant.provider,
        request: grant.request,
        return_data: u64_le_array(grant.sequence_number),
    }
}

/// Whether `r` is what `Request` results in: its failure, or the provider
/// with its next sequence number taken, the request recorded under that
/// number, the number as return data, and the steps that charge the fees
/// and create the request account.
pub open spec fn request_result(
    program_id: PubkeyBytes,
    accounts: Seq<AccountInfo>,
    data: Seq<u8>,
    request_slot: u64,
    request_rent: u64,
    r: Result<RequestOutcome, ProgramError>,
) -> bool {
    match process_request_failure(program_id, accounts, data) {
        Some(error) => r matches Err(e) && e == error,
        None => {
            let provider = record_in::<Provider>(accounts[4].data@);
            let config = record_in::<Config>(accounts[6].data@);
            let args = request_args_of(data);
            &&& r matches Ok(outcome)
            &&& outcome.provider == sequence_taken(provider)
            &&& outcome.request.sequence_number == provider.sequence_number
            &&& request_recorded(
                outcome.request,
                provider,
                args,
                accounts[1].key,
                accounts[2].key,
                accounts[0].key,
                request_slot,
            )
            &&& outcome.return_data@ == spec_u64_to_le_bytes(provider.sequence_number)
            &&& provider_fee_spec(
                provider.fee_lamports,
                provider.default_compute_unit_limit,
                args.compute_unit_limit,
            ) matches Some(provider_fee) && outcome.plan@ == request_plan(
                program_id,
                accounts,
                provider_fee,
                config.pyth_fee_lamports,
                request_rent,
            )
        },
    }
}

/// Processes `Request`. `request_slot` is the current slot and
/// `request_rent` the rent-exempt minimum for an account of a request's
/// size.
pub fn process_request(
    program_id: &PubkeyBytes,
    accounts: &[AccountInfo],
    data: &[u8],
    request_slot: u64,
    request_rent: u64,
) -> (r: Result<RequestOutcome, ProgramError>)
    ensures
        request_result(*program_id, accounts@, data@, request_slot, request_rent, r),
{
    let args = match parse_request_args(data) {
        Ok(args) => args,
        Err(e) => { return Err(e); },
    };
    proof {
        lemma_request_args_unique(args, data@);
    }
    if args.use_blockhash > 1 {
        return Err(ProgramError::InvalidInstructionData);
    }
    let (config, provider) = match validate_request_accounts(program_id, accounts) {
        Ok(loaded) => loaded,
        Err(e) => { return Err(e); },
    };
    let grant = match request_helper(
        &args,
        &config,
        &provider,
        &accounts[1].key,
        &accounts[2].key,
        &accounts[0].key,
        request_slot,
    ) {
        Ok(grant) => grant,
        Err(e) => { return Err(e); },
    };
    Ok(finish_request(program_id, accounts, &grant, request_rent))
}

/// A request that carries a block hash flag other than 0 or 1 is
/// refused as invalid instruction data, whatever the accounts.
pub proof fn lemma_blockhash_flag_rejected(
    program_id: PubkeyBytes,
    accounts: Seq<AccountInfo>,
    data: Seq<u8>,
    args: RequestArgs,
)
    requires
        crate::instruction::request_args_in(args, data),
        args.use_blockhash > 1,
    ensures
        process_request_failure(program_id, accounts, data) == Some(
            ProgramError::InvalidInstructionData,
        ),
{
}

/// A provider whose next sequence number has reached the end of its
/// chain is out of randomness, whatever is asked of it.
pub proof fn lemma_exhausted_provider_rejected(provider: Provider, compute_unit_limit: u32)
    requires
        provider.sequence_number >= provider.end_sequence_number,
    ensures
        request_failure(provider, compute_unit_limit) == Some(
            EntropyError::OutOfRandomness.program_error_spec(),
        ),
{
}

/// A provider with a limit on the distance to its last revealed value
/// turns down a request that lies further ahead.
pub proof fn lemma_stale_provider_rejected(provider: Provider, compute_unit_limit: u32)
    requires
        provider.well_formed(),
        provider.sequence_number < provider.end_sequence_number,
        provider.max_num_hashes != 0,
        provider.sequence_number - provider.current_commitment_sequence_number
            > provider.max_num_hashes,
    ensures
        request_failure(provider, compute_unit_limit) == Some(
            if provider.sequence_number - provider.current_commitment_sequence_number > u32::MAX {
                ProgramError::InvalidArgument
            } else {
                EntropyError::LastRevealedTooOld.program_error_spec()
            },
        ),
{
}

/// A granted request leaves the provider's bookkeeping in order, with
/// the request below the end of the chain and the provider one sequence
/// number further.
pub proof fn lemma_request_keeps_order(provider: Provider, compute_unit_limit: u32)
    requires
        provider.well_formed(),
        request_failure(provider, compute_unit_limit).is_none(),
    ensures
        sequence_taken(provider).well_formed(),
        sequence_taken(provider).sequence_number == provider.sequence_number + 1,
        provider.sequence_number < provider.end_sequence_number,
{
}

} // verus!
