//! `RevealWithCallback`: checks a revelation against the request's
//! commitment, derives the random number, moves the provider forward,
//! prepares the callback and closes the request.

use vstd::prelude::*;
use vstd::bytes::*;
use crate::accounts::{lemma_provider_record, lemma_request_record, record_in, Provider,
    PubkeyBytes, Request};
use crate::bytes::{array_eq, push_bytes, push_u64_le, zeros};
use crate::constants::{entropy_signer_seed_spec, provider_seed_spec, system_program_id,
    system_program_id_spec, CALLBACK_NOT_STARTED, MAX_CALLBACK_ACCOUNTS};
use crate::error::{EntropyError, ProgramError};
use crate::hashing::{hash_one, hash_pair, hash_provider_commitment, hash_triple, iterated_hash,
    sha256_digest};
use crate::instruction::{parse_reveal_args, reveal_args_in, RevealArgs};
use crate::pda::{bump_of, entropy_signer_pda, is_address, matches_pda, pda1, pda2, provider_pda};
use crate::processor::{invalid_account, invalid_pda};
use crate::runtime::{load_account, load_refused, AccountInfo, SignerSeeds};
use crate::system_instruction::{InstructionAccount, OwnedInstruction};

verus! {

/// One entry of the recent slot hashes.
#[derive(Clone, Copy, Debug)]
pub struct SlotHashEntry {
    pub slot: u64,
    pub hash: [u8; 32],
}

/// The address of the slot hashes sysvar.
pub open spec fn slot_hashes_id_spec() -> Seq<u8> {
    seq![
        6u8, 167u8, 213u8, 23u8, 25u8, 47u8, 10u8, 175u8, 198u8, 242u8, 101u8, 227u8, 251u8,
        119u8, 204u8, 122u8, 218u8, 130u8, 197u8, 41u8, 208u8, 190u8, 59u8, 19u8, 110u8, 45u8,
        0u8, 85u8, 32u8, 0u8, 0u8, 0u8,
    ]
}

/// The address of the slot hashes sysvar.
pub fn slot_hashes_id() -> (id: [u8; 32])
    ensures
        id@ == slot_hashes_id_spec(),
{
    let id: [u8; 32] = [
        6u8, 167u8, 213u8, 23u8, 25u8, 47u8, 10u8, 175u8, 198u8, 242u8, 101u8, 227u8, 251u8,
        119u8, 204u8, 122u8, 218u8, 130u8, 197u8, 41u8, 208u8, 190u8, 59u8, 19u8, 110u8, 45u8,
        0u8, 85u8, 32u8, 0u8, 0u8, 0u8,
    ];
    assert(id@ =~= slot_hashes_id_spec());
    id
}

/// Whether the entries hold a hash for `slot`.
pub open spec fn has_slot(entries: Seq<SlotHashEntry>, slot: u64) -> bool {
    exists|j: int| 0 <= j < entries.len() && (#[trigger] entries[j]).slot == slot
}

/// The hash of the first entry for `slot`.
pub open spec fn first_hash_of(entries: Seq<SlotHashEntry>, slot: u64) -> Seq<u8>
    decreases entries.len(),
{
    if entries.len() == 0 {
        zeros(32)
    } else if entries[0].slot == slot {
        entries[0].hash@
    } else {
        first_hash_of(entries.drop_first(), slot)
    }
}

/// Looks up the hash recorded for `slot`: that of the first entry with
/// this slot.
pub fn find_slot_hash(entries: &[SlotHashEntry], slot: u64) -> (r: Option<[u8; 32]>)
    ensures
        r.is_some() <==> has_slot(entries@, slot),
        r matches Some(hash) ==> hash@ == first_hash_of(entries@, slot),
{
    let mut i: usize = 0;
    proof {
        assert(entries@.subrange(0, entries@.len() as int) =~= entries@);
    }
    while i < entries.len()
        invariant
            0 <= i <= entries@.len(),
            forall|j: int| 0 <= j < i ==> (#[trigger] entries@[j]).slot != slot,
            first_hash_of(entries@, slot) == first_hash_of(
                entries@.subrange(i as int, entries@.len() as int),
                slot,
            ),
        decreases entries@.len() - i,
    {
        let ghost rest = entries@.subrange(i as int, entries@.len() as int);
        if entries[i].slot == slot {
            assert(rest[0] == entries@[i as int]);
            return Some(entries[i].hash);
        }
        proof {
            assert(rest[0] == entries@[i as int]);
            assert(rest.drop_first() =~= entries@.subrange(i + 1, entries@.len() as int));
        }
        i = i + 1;
    }
    None
}

/// The block hash that a reveal mixes in: the hash recorded for the slot
/// of the request where the request asked for one, else thirty-two zero
/// bytes.
pub open spec fn blockhash_or_zero(request: Request, entries: Seq<SlotHashEntry>) -> Seq<u8> {
    if request.use_blockhash == 1 {
        first_hash_of(entries, request.request_slot)
    } else {
        zeros(32)
    }
}

/// The commitment that a revelation stands for: the hash of the hashed
/// user contribution and of the provider contribution, the latter
/// hashed as many times as the request lies ahead of the provider's
/// current commitment.
pub open spec fn recomputed_commitment(request: Request, args: RevealArgs) -> Seq<u8> {
    sha256_digest(
        sha256_digest(args.user_contribution@) + iterated_hash(
            args.provider_contribution@,
            request.num_hashes as nat,
        ),
    )
}

/// The error with which a revelation is turned down, if it is.
pub open spec fn reveal_failure(request: Request, args: RevealArgs, entries: Seq<SlotHashEntry>) -> Option<
    ProgramError,
> {
    if request.callback_status != CALLBACK_NOT_STARTED {
        Some(EntropyError::InvalidRevealCall.program_error_spec())
    } else if recomputed_commitment(request, args) != request.commitment@ {
        Some(EntropyError::IncorrectRevelation.program_error_spec())
    } else if request.use_blockhash == 1 && !has_slot(entries, request.request_slot) {
        Some(EntropyError::BlockhashUnavailable.program_error_spec())
    } else {
        None
    }
}

/// The provider after a reveal for `request`: moved to the request's
/// sequence number and the revealed value where the request lies ahead
/// of the provider's current commitment, else unchanged.
pub open spec fn advanced(provider: Provider, request: Request, args: RevealArgs) -> Provider {
    if provider.current_commitment_sequence_number < request.sequence_number {
        Provider {
            current_commitment_sequence_number: request.sequence_number,
            current_commitment: args.provider_contribution,
            ..provider
        }
    } else {
        provider
    }
}

/// What a revelation yields.
#[derive(Clone, Copy, Debug)]
pub struct Revelation {
    pub provider: Provider,
    pub random_number: [u8; 32],
}

/// The error with which a revelation is turned down once the commitment
/// it stands for is known, if it is.
pub open spec fn judgement_failure(
    request: Request,
    recomputed: Seq<u8>,
    entries: Seq<SlotHashEntry>,
) -> Option<ProgramError> {
    if request.callback_status != CALLBACK_NOT_STARTED {
        Some(EntropyError::InvalidRevealCall.program_error_spec())
    } else if recomputed != request.commitment@ {
        Some(EntropyError::IncorrectRevelation.program_error_spec())
    } else if request.use_blockhash == 1 && !has_slot(entries, request.request_slot) {
        Some(EntropyError::BlockhashUnavailable.program_error_spec())
    } else {
        None
    }
}

/// Judges a revelation by the commitment that was recomputed from it:
/// turns it down, or gives the provider moved forward and the block hash
/// to mix into the random number.
pub fn judge_revelation(
    request: &Request,
    provider: &Provider,
    args: &RevealArgs,
    recomputed: &[u8; 32],
    slot_hashes: &[SlotHashEntry],
) -> (r: Result<(Provider, [u8; 32]), ProgramError>)
    ensures
        match judgement_failure(*request, recomputed@, slot_hashes@) {
            Some(error) => r == Err::<(Provider, [u8; 32]), ProgramError>(error),
            None => {
                &&& r matches Ok(judged)
                &&& judged.0 == advanced(*provider, *request, *args)
                &&& judged.1@ == blockhash_or_zero(*request, slot_hashes@)
            },
        },
{
    if request.callback_status != CALLBACK_NOT_STARTED {
        return Err(EntropyError::InvalidRevealCall.program_error());
    }
    if !array_eq(recomputed, &request.commitment) {
        return Err(EntropyError::IncorrectRevelation.program_error());
    }
    let blockhash: [u8; 32] = if request.use_blockhash == 1 {
        match find_slot_hash(slot_hashes, request.request_slot) {
            Some(hash) => hash,
            None => { return Err(EntropyError::BlockhashUnavailable.program_error()); },
        }
    } else {
        crate::bytes::zero_array::<32>()
    };
    let mut next = *provider;
    if provider.current_commitment_sequence_number < request.sequence_number {
        next.current_commitment_sequence_number = request.sequence_number;
        next.current_commitment = args.provider_contribution;
    }
    Ok((next, blockhash))
}

/// Checks a revelation against the request, derives the random number
/// and moves the provider forward.
pub fn check_revelation(
    request: &Request,
    provider: &Provider,
    args: &RevealArgs,
    slot_hashes: &[SlotHashEntry],
) -> (r: Result<Revelation, ProgramError>)
    ensures
        match reveal_failure(*request, *args, slot_hashes@) {
            Some(error) => r == Err::<Revelation, ProgramError>(error),
            None => {
                &&& r matches Ok(revelation)
                &&& revelation.provider == advanced(*provider, *request, *args)
                &&& revelation.random_number@ == sha256_digest(
                    args.user_contribution@ + args.provider_contribution@ + blockhash_or_zero(
                        *request,
                        slot_hashes@,
                    ),
                )
            },
        },
{
    let provider_commitment = hash_provider_commitment(
        args.provider_contribution,
        request.num_hashes,
    );
    let user_commitment = hash_one(&args.user_contribution);
    let commitment = hash_pair(&user_commitment, &provider_commitment);
    let (next, blockhash) = match judge_revelation(
        request,
        provider,
        args,
        &commitment,
        slot_hashes,
    ) {
        Ok(judged) => judged,
        Err(e) => { return Err(e); },
    };
    let random_number = hash_triple(
        &args.user_contribution,
        &args.provider_contribution,
        &blockhash,
    );
    Ok(Revelation { provider: next, random_number })
}

/// A reveal never moves the provider's current commitment backwards,
/// and a reveal for a request that does not lie ahead leaves the
/// provider as it is. Where the request was issued by this provider, the
/// provider's bookkeeping stays in order.
pub proof fn lemma_advance_monotonic(provider: Provider, request: Request, args: RevealArgs)
    ensures
        advanced(provider, request, args).current_commitment_sequence_number
            >= provider.current_commitment_sequence_number,
        request.sequence_number <= provider.current_commitment_sequence_number ==> advanced(
            provider,
            request,
            args,
        ) == provider,
        request.sequence_number > provider.current_commitment_sequence_number ==> {
            &&& advanced(provider, request, args).current_commitment_sequence_number
                == request.sequence_number
            &&& advanced(provider, request, args).current_commitment
                == args.provider_contribution
        },
        advanced(advanced(provider, request, args), request, args) == advanced(
            provider,
            request,
            args,
        ),
        provider.well_formed() && request.sequence_number < provider.sequence_number ==> advanced(
            provider,
            request,
            args,
        ).well_formed(),
{
}

/// A revelation of the value that lies `num_hashes` steps before the
/// commitment a request was bound to, together with the preimage of the
/// user's commitment, recomputes the request's commitment.
pub proof fn lemma_honest_revelation_accepted(
    request: Request,
    args: RevealArgs,
    user_commitment: Seq<u8>,
    provider_commitment: Seq<u8>,
)
    requires
        request.commitment@ == sha256_digest(user_commitment + provider_commitment),
        user_commitment == sha256_digest(args.user_contribution@),
        provider_commitment == iterated_hash(
            args.provider_contribution@,
            request.num_hashes as nat,
        ),
    ensures
        recomputed_commitment(request, args) == request.commitment@,
{
}

/// Whether the accounts passed for the callback are those that the
/// request declared: the same addresses with the same rights.
pub open spec fn callback_accounts_match(request: Request, infos: Seq<AccountInfo>) -> bool {
    forall|j: int|
        0 <= j < infos.len() && j < 16 ==> {
            &&& (#[trigger] infos[j]).key@ == request.callback_accounts@[j].pubkey@
            &&& infos[j].is_signer == (request.callback_accounts@[j].is_signer == 1)
            &&& infos[j].is_writable == (request.callback_accounts@[j].is_writable == 1)
        }
}

/// Checks the accounts passed for the callback against those that the
/// request declared. Any difference, and more accounts than a request
/// can declare, is an invalid account.
pub fn validate_callback_accounts(request: &Request, callback_accounts: &[AccountInfo]) -> (r:
    Result<(), ProgramError>)
    ensures
        r.is_ok() <==> (callback_accounts@.len() <= 16 && callback_accounts_match(
            *request,
            callback_accounts@,
        )),
        r matches Err(e) ==> e == invalid_account(),
{
    if callback_accounts.len() > MAX_CALLBACK_ACCOUNTS {
        return Err(EntropyError::InvalidAccount.program_error());
    }
    let mut i: usize = 0;
    while i < callback_accounts.len()
        invariant
            0 <= i <= callback_accounts@.len() <= 16,
            forall|j: int|
                0 <= j < i ==> {
                    &&& (#[trigger] callback_accounts@[j]).key@
                        == request.callback_accounts@[j].pubkey@
                    &&& callback_accounts@[j].is_signer == (request.callback_accounts@[j].is_signer
                        == 1)
                    &&& callback_accounts@[j].is_writable == (
                    request.callback_accounts@[j].is_writable == 1)
                },
        decreases callback_accounts@.len() - i,
    {
        let expected = request.callback_accounts[i];
        let info = &callback_accounts[i];
        if !array_eq(&info.key, &expected.pubkey) || info.is_signer != (expected.is_signer == 1)
            || info.is_writable != (expected.is_writable == 1) {
            return Err(EntropyError::InvalidAccount.program_error());
        }
        i = i + 1;
    }
    Ok(())
}

/// The data that the callback is invoked with: the prefix that the
/// requester supplied, then the sequence number as eight little-endian
/// bytes, the provider and the random number.
pub open spec fn callback_data(
    prefix: Seq<u8>,
    sequence_number: u64,
    provider: Seq<u8>,
    random_number: Seq<u8>,
) -> Seq<u8> {
    prefix + spec_u64_to_le_bytes(sequence_number) + provider + random_number
}

/// The account that the callback lists at position `j`: first the
/// program's signer, signing and read-only, then the callback accounts
/// with the rights they were passed with.
pub open spec fn callback_account_at(
    entropy_signer: PubkeyBytes,
    infos: Seq<AccountInfo>,
    j: int,
) -> InstructionAccount {
    if j == 0 {
        InstructionAccount { pubkey: entropy_signer, is_writable: false, is_signer: true }
    } else {
        InstructionAccount {
            pubkey: infos[j - 1].key,
            is_writable: infos[j - 1].is_writable,
            is_signer: infos[j - 1].is_signer,
        }
    }
}

/// Builds the callback instruction. A declared prefix length beyond the
/// stored callback data is invalid instruction data.
pub fn build_callback_ix(
    program_id: &PubkeyBytes,
    entropy_signer: &PubkeyBytes,
    callback_accounts: &[AccountInfo],
    callback_ix_data_len: u16,
    callback_ix_data: &[u8],
    sequence_number: u64,
    provider: &PubkeyBytes,
    random_number: &[u8; 32],
) -> (r: Result<OwnedInstruction, ProgramError>)
    ensures
        r.is_ok() <==> callback_ix_data_len <= callback_ix_data@.len(),
        r matches Err(e) ==> e == ProgramError::InvalidInstructionData,
        r matches Ok(ix) ==> {
            &&& ix.program_id == *program_id
            &&& ix.data@ == callback_data(
                callback_ix_data@.subrange(0, callback_ix_data_len as int),
                sequence_number,
                provider@,
                random_number@,
            )
            &&& ix.accounts@.len() == callback_accounts@.len() + 1
            &&& forall|j: int|
                0 <= j < ix.accounts@.len() ==> #[trigger] ix.accounts@[j] == callback_account_at(
                    *entropy_signer,
                    callback_accounts@,
                    j,
                )
        },
{
    let prefix_len: usize = callback_ix_data_len as usize;
    if prefix_len > callback_ix_data.len() {
        return Err(ProgramError::InvalidInstructionData);
    }
    let mut data: Vec<u8> = Vec::new();
    push_bytes(&mut data, vstd::slice::slice_subrange(callback_ix_data, 0, prefix_len));
    push_u64_le(&mut data, sequence_number);
    push_bytes(&mut data, provider.as_slice());
    push_bytes(&mut data, random_number.as_slice());
    let mut metas: Vec<InstructionAccount> = Vec::new();
    metas.push(InstructionAccount { pubkey: *entropy_signer, is_writable: false, is_signer: true });
    let mut i: usize = 0;
    while i < callback_accounts.len()
        invariant
            0 <= i <= callback_accounts@.len(),
            metas@.len() == i + 1,
            forall|j: int|
                0 <= j < metas@.len() ==> #[trigger] metas@[j] == callback_account_at(
                    *entropy_signer,
                    callback_accounts@,
                    j,
                ),
        decreases callback_accounts@.len() - i,
    {
        let info = &callback_accounts[i];
        metas.push(
            InstructionAccount {
                pubkey: info.key,
                is_writable: info.is_writable,
                is_signer: info.is_signer,
            },
        );
        i = i + 1;
    }
    Ok(OwnedInstruction { program_id: *program_id, accounts: metas, data })
}

/// Closes the request account: all its lamports go to the refund
/// account, and its data is zeroed. A balance that would overflow is an
/// invalid argument, and nothing changes.
pub fn close_request_account(request_account: &mut AccountInfo, refund_account: &mut AccountInfo) -> (r:
    Result<(), ProgramError>)
    ensures
        r.is_ok() <==> old(refund_account).lamports + old(request_account).lamports <= u64::MAX,
        r matches Err(e) ==> e == ProgramError::InvalidArgument && *final(request_account) == *old(
            request_account,
        ) && *final(refund_account) == *old(refund_account),
        r.is_ok() ==> {
            &&& final(request_account).lamports == 0
            &&& final(refund_account).lamports == old(refund_account).lamports + old(
                request_account,
            ).lamports
            &&& final(request_account).data@ == zeros(old(request_account).data@.len())
            &&& final(request_account).key == old(request_account).key
            &&& final(request_account).owner == old(request_account).owner
            &&& final(request_account).is_signer == old(request_account).is_signer
            &&& final(request_account).is_writable == old(request_account).is_writable
            &&& final(refund_account).key == old(refund_account).key
            &&& final(refund_account).owner == old(refund_account).owner
            &&& final(refund_account).data == old(refund_account).data
            &&& final(refund_account).is_signer == old(refund_account).is_signer
            &&& final(refund_account).is_writable == old(refund_account).is_writable
        },
{
    let lamports: u64 = request_account.lamports;
    let refund_lamports = match refund_account.lamports.checked_add(lamports) {
        Some(total) => total,
        None => { return Err(ProgramError::InvalidArgument); },
    };
    let len: usize = request_account.data.len();
    let mut cleared: Vec<u8> = Vec::new();
    crate::bytes::push_zeros(&mut cleared, len);
    assert(cleared@ =~= zeros(len as nat));
    request_account.lamports = 0;
    request_account.data = cleared;
    refund_account.lamports = refund_lamports;
    Ok(())
}

/// The arguments that a reveal payload of the right size holds.
pub open spec fn reveal_args_of(data: Seq<u8>) -> RevealArgs {
    choose|args: RevealArgs| reveal_args_in(args, data)
}

/// A payload holds at most one set of arguments.
pub proof fn lemma_reveal_args_unique(args: RevealArgs, data: Seq<u8>)
    requires
        reveal_args_in(args, data),
    ensures
        reveal_args_of(data) == args,
{
    let other = reveal_args_of(data);
    assert(reveal_args_in(other, data));
    assert(other.user_contribution =~= args.user_contribution);
    assert(other.provider_contribution =~= args.provider_contribution);
}

/// What a successful reveal asks for: the provider to store; the random
/// number; the callback to invoke, signed with the seeds given; and the
/// balances after the request account was closed into the payer.
#[derive(Debug)]
pub struct RevealOutcome {
    pub provider: Provider,
    pub random_number: [u8; 32],
    pub callback: OwnedInstruction,
    pub callback_seeds: SignerSeeds,
    pub request_lamports: u64,
    pub payer_lamports: u64,
}

/// The error with which the callback and the refund of a verified
/// revelation are refused, if they are. The callback accounts are those
/// behind the seven fixed accounts, exactly as many as the request
/// declared.
pub open spec fn delivery_failure(request: Request, accounts: Seq<AccountInfo>) -> Option<
    ProgramError,
> {
    if accounts[4].key@ != request.requester_program_id@ {
        Some(invalid_account())
    } else if request.callback_accounts_len > 16 || accounts.len() - 7
        != request.callback_accounts_len {
        Some(invalid_account())
    } else if !callback_accounts_match(request, accounts.subrange(7, accounts.len() as int)) {
        Some(invalid_account())
    } else if request.callback_ix_data_len > 256 {
        Some(ProgramError::InvalidInstructionData)
    } else if accounts[6].key@ != request.payer@ || !accounts[6].is_writable {
        Some(invalid_account())
    } else if accounts[6].lamports + accounts[0].lamports > u64::MAX {
        Some(ProgramError::InvalidArgument)
    } else {
        None
    }
}

/// The error that `RevealWithCallback` fails with, if it does. The
/// accounts are the request, the provider, the slot hashes, the
/// program's signer, the callback program, the system program and the
/// payer, then the callback accounts.
pub open spec fn process_reveal_failure(
    program_id: PubkeyBytes,
    accounts: Seq<AccountInfo>,
    data: Seq<u8>,
    entries: Seq<SlotHashEntry>,
) -> Option<ProgramError> {
    if data.len() != 64 {
        Some(ProgramError::InvalidInstructionData)
    } else if accounts.len() < 7 {
        Some(ProgramError::NotEnoughAccountKeys)
    } else if !accounts[0].is_writable || !accounts[1].is_writable {
        Some(invalid_account())
    } else if accounts[5].key@ != system_program_id_spec() || accounts[2].key@
        != slot_hashes_id_spec() {
        Some(invalid_account())
    } else if !is_address(accounts[3].key@, pda1(entropy_signer_seed_spec(), program_id@)) {
        Some(invalid_pda())
    } else if load_refused::<Request>(accounts[0], program_id) {
        Some(invalid_account())
    } else {
        let request = record_in::<Request>(accounts[0].data@);
        if request.callback_status != CALLBACK_NOT_STARTED {
            Some(EntropyError::InvalidRevealCall.program_error_spec())
        } else if !is_address(
            accounts[1].key@,
            pda2(provider_seed_spec(), request.provider@, program_id@),
        ) {
            Some(invalid_pda())
        } else if load_refused::<Provider>(accounts[1], program_id) {
            Some(invalid_account())
        } else {
            match reveal_failure(request, reveal_args_of(data), entries) {
                Some(e) => Some(e),
                None => delivery_failure(request, accounts),
            }
        }
    }
}

/// Whether `r` is what `RevealWithCallback` results in: its failure, or
/// the provider moved forward, the random number, the callback that
/// delivers it and the balances after the request account was closed.
pub open spec fn reveal_result(
    program_id: PubkeyBytes,
    accounts: Seq<AccountInfo>,
    data: Seq<u8>,
    slot_hashes: Seq<SlotHashEntry>,
    r: Result<RevealOutcome, ProgramError>,
) -> bool {
    match process_reveal_failure(program_id, accounts, data, slot_hashes) {
        Some(error) => r matches Err(e) && e == error,
        None => {
            let request = record_in::<Request>(accounts[0].data@);
            let provider = record_in::<Provider>(accounts[1].data@);
            let args = reveal_args_of(data);
            &&& r matches Ok(outcome)
            &&& outcome.provider == advanced(provider, request, args)
            &&& outcome.random_number@ == sha256_digest(
                args.user_contribution@ + args.provider_contribution@ + blockhash_or_zero(
                    request,
                    slot_hashes,
                ),
            )
            &&& outcome.callback_seeds == (SignerSeeds::EntropySigner {
                bump: bump_of(pda1(entropy_signer_seed_spec(), program_id@)),
            })
            &&& ({
                let ix = outcome.callback;
                &&& ix.program_id == accounts[4].key
                &&& ix.data@ == callback_data(
                    request.callback_ix_data@.subrange(0, request.callback_ix_data_len as int),
                    request.sequence_number,
                    request.provider@,
                    outcome.random_number@,
                )
                &&& ix.accounts.len() == request.callback_accounts_len + 1
                &&& forall|j: int|
                    0 <= j < ix.accounts.len() ==> #[trigger] ix.accounts[j]
                        == callback_account_at(
                        accounts[3].key,
                        accounts.subrange(7, accounts.len() as int),
                        j,
                    )
            })
            &&& outcome.request_lamports == 0
            &&& outcome.payer_lamports == accounts[6].lamports + accounts[0].lamports
        },
    }
}

/// Processes `RevealWithCallback`. `slot_hashes` are the entries of the
/// slot hashes sysvar.
pub fn process_reveal_with_callback(
    program_id: &PubkeyBytes,
    accounts: &[AccountInfo],
    data: &[u8],
    slot_hashes: &[SlotHashEntry],
) -> (r: Result<RevealOutcome, ProgramError>)
    ensures
        reveal_result(*program_id, accounts@, data@, slot_hashes@, r),
{
    let args = match parse_reveal_args(data) {
        Ok(args) => args,
        Err(e) => { return Err(e); },
    };
    proof {
        lemma_reveal_args_unique(args, data@);
    }
    if accounts.len() < 7 {
        return Err(ProgramError::NotEnoughAccountKeys);
    }
    let request_account = &accounts[0];
    let provider_account = &accounts[1];
    let slot_hashes_account = &accounts[2];
    let entropy_signer_account = &accounts[3];
    let callback_program = &accounts[4];
    let system_program_account = &accounts[5];
    let payer_account = &accounts[6];
    if !request_account.is_writable || !provider_account.is_writable {
        return Err(EntropyError::InvalidAccount.program_error());
    }
    if !system_program_account.has_key(&system_program_id()) {
        return Err(EntropyError::InvalidAccount.program_error());
    }
    if !slot_hashes_account.has_key(&slot_hashes_id()) {
        return Err(EntropyError::InvalidAccount.program_error());
    }
    let signer_bump = match matches_pda(
        &entropy_signer_account.key,
        &entropy_signer_pda(program_id),
    ) {
        Some(bump) => bump,
        None => { return Err(EntropyError::InvalidPda.program_error()); },
    };
    let request = match load_account::<Request>(request_account, program_id) {
        Ok(request) => request,
        Err(e) => { return Err(e); },
    };
    proof {
        lemma_request_record(request, request_account.data@);
    }
    if request.callback_status != CALLBACK_NOT_STARTED {
        return Err(EntropyError::InvalidRevealCall.program_error());
    }
    if matches_pda(&provider_account.key, &provider_pda(program_id, &request.provider)).is_none() {
        return Err(EntropyError::InvalidPda.program_error());
    }
    let provider = match load_account::<Provider>(provider_account, program_id) {
        Ok(provider) => provider,
        Err(e) => { return Err(e); },
    };
    proof {
        lemma_provider_record(provider, provider_account.data@);
    }
    let revelation = match check_revelation(&request, &provider, &args, slot_hashes) {
        Ok(revelation) => revelation,
        Err(e) => { return Err(e); },
    };
    if !callback_program.has_key(&request.requester_program_id) {
        return Err(EntropyError::InvalidAccount.program_error());
    }
    let callback_accounts_len: usize = request.callback_accounts_len as usize;
    if callback_accounts_len > MAX_CALLBACK_ACCOUNTS || accounts.len() - 7
        != callback_accounts_len {
        return Err(EntropyError::InvalidAccount.program_error());
    }
    let callback_accounts = vstd::slice::slice_subrange(accounts, 7, accounts.len());
    match validate_callback_accounts(&request, callback_accounts) {
        Ok(()) => {},
        Err(e) => { return Err(e); },
    }
    let callback = match build_callback_ix(
        &callback_program.key,
        &entropy_signer_account.key,
        callback_accounts,
        request.callback_ix_data_len,
        request.callback_ix_data.as_slice(),
        request.sequence_number,
        &request.provider,
        &revelation.random_number,
    ) {
        Ok(ix) => ix,
        Err(e) => { return Err(e); },
    };
    if !payer_account.has_key(&request.payer) || !payer_account.is_writable {
        return Err(EntropyError::InvalidAccount.program_error());
    }
    let payer_lamports = match payer_account.lamports.checked_add(request_account.lamports) {
        Some(total) => total,
        None => { return Err(ProgramError::InvalidArgument); },
    };
    Ok(
        RevealOutcome {
            provider: revelation.provider,
            random_number: revelation.random_number,
            callback,
            callback_seeds: SignerSeeds::EntropySigner { bump: signer_bump },
            request_lamports: 0,
            payer_lamports,
        },
    )
}

} // verus!
