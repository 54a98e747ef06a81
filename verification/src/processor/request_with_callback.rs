//! `RequestWithCallback`: a request whose reveal calls the requester back.

use vstd::prelude::*;
use vstd::bytes::*;
use crate::accounts::{lemma_callback_meta_unique, provider_fee_spec, record_in,
    CallbackMeta, Config, Provider, PubkeyBytes, Request};
use crate::bytes::{array_eq, zeros};
use crate::constants::{CALLBACK_IX_DATA_LEN, CALLBACK_NOT_STARTED, MAX_CALLBACK_ACCOUNTS};
use crate::error::{EntropyError, ProgramError};
use crate::hashing::{hash_one, sha256_digest};
use crate::instruction::{callback_args_in, callback_payload_valid, declared_accounts,
    parse_request_with_callback_args, RequestArgs, RequestWithCallbackArgs};
use crate::processor::invalid_account;
use crate::processor::request::{finish_request, request_accounts_failure, request_failure,
    request_helper, request_plan, request_recorded, sequence_taken, validate_request_accounts,
    RequestOutcome};
use crate::runtime::AccountInfo;

verus! {

/// Whether one of the callback accounts is the program itself.
pub open spec fn references_program(metas: Seq<CallbackMeta>, program_id: PubkeyBytes) -> bool {
    exists|j: int| 0 <= j < metas.len() && (#[trigger] metas[j]).pubkey@ == program_id@
}

/// Whether one of the callback accounts is the program itself.
pub fn callback_references_program(metas: &[CallbackMeta], program_id: &PubkeyBytes) -> (r: bool)
    ensures
        r == references_program(metas@, *program_id),
{
    let mut i: usize = 0;
    while i < metas.len()
        invariant
            0 <= i <= metas@.len(),
            forall|j: int| 0 <= j < i ==> (#[trigger] metas@[j]).pubkey@ != program_id@,
        decreases metas@.len() - i,
    {
        if array_eq(&metas[i].pubkey, program_id) {
            return true;
        }
        i = i + 1;
    }
    false
}

/// Whether `after` is `before` with a callback attached: it waits for
/// its callback to `callback_program`, and holds the accounts and the
/// data of the callback, each padded with zeros to its fixed size.
pub open spec fn callback_attached(
    before: Request,
    after: Request,
    callback_program: PubkeyBytes,
    metas: Seq<CallbackMeta>,
    ix_data: Seq<u8>,
) -> bool {
    &&& after.discriminator == before.discriminator
    &&& after.provider == before.provider
    &&& after.sequence_number == before.sequence_number
    &&& after.num_hashes == before.num_hashes
    &&& after.commitment == before.commitment
    &&& after.request_slot == before.request_slot
    &&& after.requester_program_id == before.requester_program_id
    &&& after.requester_signer == before.requester_signer
    &&& after.payer == before.payer
    &&& after.use_blockhash == before.use_blockhash
    &&& after.compute_unit_limit == before.compute_unit_limit
    &&& after.bump == before.bump
    &&& after.callback_status == CALLBACK_NOT_STARTED
    &&& after.callback_program_id == callback_program
    &&& after.callback_accounts_len == metas.len()
    &&& forall|j: int|
        0 <= j < 16 ==> if j < metas.len() {
            #[trigger] after.callback_accounts@[j] == metas[j]
        } else {
            &&& after.callback_accounts@[j].pubkey@ == zeros(32)
            &&& after.callback_accounts@[j].is_signer == 0
            &&& after.callback_accounts@[j].is_writable == 0
        }
    &&& after.callback_ix_data_len == ix_data.len()
    &&& after.callback_ix_data@ == ix_data + zeros((256 - ix_data.len()) as nat)
}

/// Attaches a callback to a request. More than sixteen accounts or more
/// than 256 bytes of callback data are an invalid account.
pub fn attach_callback(
    request: &Request,
    callback_program: &PubkeyBytes,
    metas: &[CallbackMeta],
    ix_data: &[u8],
) -> (r: Result<Request, ProgramError>)
    ensures
        r.is_ok() <==> (metas@.len() <= 16 && ix_data@.len() <= 256),
        r matches Err(e) ==> e == invalid_account(),
        r matches Ok(after) ==> callback_attached(
            *request,
            after,
            *callback_program,
            metas@,
            ix_data@,
        ),
{
    if metas.len() > MAX_CALLBACK_ACCOUNTS || ix_data.len() > CALLBACK_IX_DATA_LEN {
        return Err(EntropyError::InvalidAccount.program_error());
    }
    let mut callback_accounts = [CallbackMeta::empty(); MAX_CALLBACK_ACCOUNTS];
    let mut i: usize = 0;
    while i < metas.len()
        invariant
            0 <= i <= metas@.len() <= 16,
            callback_accounts@.len() == 16,
            forall|j: int| 0 <= j < i ==> #[trigger] callback_accounts@[j] == metas@[j],
            forall|j: int|
                i <= j < 16 ==> {
                    &&& (#[trigger] callback_accounts@[j]).pubkey@ == zeros(32)
                    &&& callback_accounts@[j].is_signer == 0
                    &&& callback_accounts@[j].is_writable == 0
                },
        decreases metas@.len() - i,
    {
        callback_accounts[i] = metas[i];
        i = i + 1;
    }
    let mut callback_ix_data = crate::bytes::zero_array::<CALLBACK_IX_DATA_LEN>();
    let mut k: usize = 0;
    while k < ix_data.len()
        invariant
            0 <= k <= ix_data@.len() <= 256,
            callback_ix_data@.len() == 256,
            forall|j: int| 0 <= j < k ==> callback_ix_data@[j] == ix_data@[j],
            forall|j: int| k <= j < 256 ==> callback_ix_data@[j] == 0u8,
        decreases ix_data@.len() - k,
    {
        callback_ix_data[k] = ix_data[k];
        k = k + 1;
    }
    let mut after = *request;
    after.callback_status = CALLBACK_NOT_STARTED;
    after.callback_program_id = *callback_program;
    after.callback_accounts_len = metas.len() as u8;
    after.callback_accounts = callback_accounts;
    after.callback_ix_data_len = ix_data.len() as u16;
    after.callback_ix_data = callback_ix_data;
    proof {
        assert(after.callback_ix_data@ =~= ix_data@ + zeros((256 - ix_data@.len()) as nat));
    }
    Ok(after)
}

/// The arguments that a well-formed `RequestWithCallback` payload holds.
pub open spec fn callback_args_of(data: Seq<u8>) -> RequestWithCallbackArgs {
    choose|args: RequestWithCallbackArgs| callback_args_in(args, data)
}

/// The callback accounts that a well-formed payload declares.
pub open spec fn callback_accounts_of(data: Seq<u8>) -> Seq<CallbackMeta> {
    callback_args_of(data).callback_accounts@
}

/// A payload determines the arguments it holds: their randomness, their
/// compute budget, their callback accounts and their callback data.
pub proof fn lemma_callback_args_unique(args: RequestWithCallbackArgs, data: Seq<u8>)
    requires
        callback_args_in(args, data),
    ensures
        callback_args_of(data).user_randomness == args.user_randomness,
        callback_args_of(data).compute_unit_limit == args.compute_unit_limit,
        callback_args_of(data).callback_accounts@ == args.callback_accounts@,
        callback_args_of(data).callback_ix_data@ == args.callback_ix_data@,
{
    let other = callback_args_of(data);
    assert(callback_args_in(other, data));
    assert(other.user_randomness =~= args.user_randomness);
    assert forall|j: int| 0 <= j < declared_accounts(data) implies other.callback_accounts@[j]
        == args.callback_accounts@[j] by {
        lemma_callback_meta_unique(
            other.callback_accounts@[j],
            args.callback_accounts@[j],
            data,
            40 + 34 * j,
        );
    }
    assert(other.callback_accounts@ =~= args.callback_accounts@);
}

/// The error that `RequestWithCallback` fails with, if it does: a
/// payload that is not well-formed; a callback account that is the
/// program itself; or what fails a plain request.
pub open spec fn process_request_with_callback_failure(
    program_id: PubkeyBytes,
    accounts: Seq<AccountInfo>,
    data: Seq<u8>,
) -> Option<ProgramError> {
    if !callback_payload_valid(data) {
        Some(ProgramError::InvalidInstructionData)
    } else if references_program(callback_accounts_of(data), program_id) {
        Some(invalid_account())
    } else {
        match request_accounts_failure(program_id, accounts) {
            Some(e) => Some(e),
            None => request_failure(
                record_in::<Provider>(accounts[4].data@),
                callback_args_of(data).compute_unit_limit,
            ),
        }
    }
}

/// Whether `args` are the arguments of the plain request that a request
/// with callback stands for: the commitment is the hash of the user's
/// randomness, and no block hash is mixed in.
pub open spec fn plain_args_of(args: RequestArgs, user_randomness: PubkeyBytes, compute_unit_limit: u32) -> bool {
    &&& args.user_commitment@ == sha256_digest(user_randomness@)
    &&& args.use_blockhash == 0
    &&& args.compute_unit_limit == compute_unit_limit
}

/// Whether `r` is what `RequestWithCallback` results in: its failure, or
/// what the plain request for the hashed randomness results in, with the
/// callback attached to the request.
pub open spec fn request_with_callback_result(
    program_id: PubkeyBytes,
    accounts: Seq<AccountInfo>,
    data: Seq<u8>,
    request_slot: u64,
    request_rent: u64,
    r: Result<RequestOutcome, ProgramError>,
) -> bool {
    match process_request_with_callback_failure(program_id, accounts, data) {
        Some(error) => r matches Err(e) && e == error,
        None => {
            let provider = record_in::<Provider>(accounts[4].data@);
            let config = record_in::<Config>(accounts[6].data@);
            let args = callback_args_of(data);
            &&& r matches Ok(outcome)
            &&& outcome.provider == sequence_taken(provider)
            &&& outcome.request.sequence_number == provider.sequence_number
            &&& outcome.request.commitment@ == sha256_digest(
                sha256_digest(args.user_randomness@) + provider.current_commitment@,
            )
            &&& exists|plain: Request, plain_args: RequestArgs|
                {
                    &&& plain_args_of(
                        plain_args,
                        args.user_randomness,
                        args.compute_unit_limit,
                    )
                    &&& #[trigger] request_recorded(
                        plain,
                        provider,
                        plain_args,
                        accounts[1].key,
                        accounts[2].key,
                        accounts[0].key,
                        request_slot,
                    )
                    &&& callback_attached(
                        plain,
                        outcome.request,
                        accounts[2].key,
                        args.callback_accounts@,
                        args.callback_ix_data@,
                    )
                }
            &&& outcome.return_data@ == spec_u64_to_le_bytes(provider.sequence_number)
            &&& provider_fee_spec(
                provider.fee_lamports,
                provider.default_compute_unit_limit,
                args.compute_unit_limit,
            ) matches Some(provider_fee) && outcome.plan@ == request_plan(
                program_id,
                accounts,
                provider_fee,
                config.pyth_fee_lamports,
                request_rent,
            )
        },
    }
}

/// Processes `RequestWithCallback`. `request_slot` is the current slot
/// and `request_rent` the rent-exempt minimum for an account of a
/// request's size.
pub fn process_request_with_callback(
    program_id: &PubkeyBytes,
    accounts: &[AccountInfo],
    data: &[u8],
    request_slot: u64,
    request_rent: u64,
) -> (r: Result<RequestOutcome, ProgramError>)
    ensures
        request_with_callback_result(*program_id, accounts@, data@, request_slot, request_rent, r),
{
    let args = match parse_request_with_callback_args(data) {
        Ok(args) => args,
        Err(e) => { return Err(e); },
    };
    proof {
        lemma_callback_args_unique(args, data@);
    }
    if callback_references_program(args.callback_accounts.as_slice(), program_id) {
        return Err(EntropyError::InvalidAccount.program_error());
    }
    let (config, provider) = match validate_request_accounts(program_id, accounts) {
        Ok(loaded) => loaded,
        Err(e) => { return Err(e); },
    };
    let request_args = RequestArgs {
        user_commitment: hash_one(&args.user_randomness),
        use_blockhash: 0,
        compute_unit_limit: args.compute_unit_limit,
    };
    let grant = match request_helper(
        &request_args,
        &config,
        &provider,
        &accounts[1].key,
        &accounts[2].key,
        &accounts[0].key,
        request_slot,
    ) {
        Ok(grant) => grant,
        Err(e) => { return Err(e); },
    };
    let request = match attach_callback(
        &grant.request,
        &accounts[2].key,
        args.callback_accounts.as_slice(),
        args.callback_ix_data.as_slice(),
    ) {
        Ok(request) => request,
        Err(e) => { return Err(e); },
    };
    let mut outcome = finish_request(program_id, accounts, &grant, request_rent);
    outcome.request = request;
    proof {
        assert(plain_args_of(request_args, args.user_randomness, args.compute_unit_limit));
        assert(request_recorded(
            grant.request,
            provider,
            request_args,
            accounts@[1].key,
            accounts@[2].key,
            accounts@[0].key,
            request_slot,
        ));
    }
    Ok(outcome)
}

/// A request with callback that declares more than sixteen callback
/// accounts, or more than 256 bytes of callback data, is refused as
/// invalid instruction data, whatever the accounts.
pub proof fn lemma_callback_limits_rejected(
    program_id: PubkeyBytes,
    accounts: Seq<AccountInfo>,
    data: Seq<u8>,
)
    requires
        data.len() >= 40,
        declared_accounts(data) > 16 || (data.len() >= 44 + 34 * declared_accounts(data)
            && crate::instruction::declared_ix_data_len(data) > 256),
    ensures
        process_request_with_callback_failure(program_id, accounts, data) == Some(
            ProgramError::InvalidInstructionData,
        ),
{
}

/// A well-formed request with callback whose callback accounts hold the
/// program itself is refused as an invalid account, whatever the
/// accounts.
pub proof fn lemma_self_callback_rejected(
    program_id: PubkeyBytes,
    accounts: Seq<AccountInfo>,
    data: Seq<u8>,
    args: RequestWithCallbackArgs,
)
    requires
        callback_args_in(args, data),
        references_program(args.callback_accounts@, program_id),
    ensures
        process_request_with_callback_failure(program_id, accounts, data) == Some(
            invalid_account(),
        ),
{
    lemma_callback_args_unique(args, data);
}

} // verus!
