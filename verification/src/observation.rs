//! Finding the requests addressed to the program in a confirmed
//! transaction.

use vstd::prelude::*;
use vstd::bytes::*;
use crate::accounts::{CallbackMeta, PubkeyBytes};
use crate::bytes::{array_eq, read_array};
use crate::instruction::{instruction_of_opcode, payload_holds, EntropyInstruction};

verus! {

/// The bytes that a base58 text stands for, or `None` where the text is
/// not base58.
pub uninterp spec fn base58_decoded(text: Seq<char>) -> Option<Seq<u8>>;

/// Calls `bs58::decode(..).into_vec()`, which decodes a text in the
/// Bitcoin alphabet and fails on a character outside it. The bytes are
/// taken on trust as a function of the text alone; a failure becomes
/// `None`.
#[verifier::external_body]
pub(crate) fn base58_decode(text: &str) -> (r: Option<Vec<u8>>)
    ensures
        match r {
            Some(bytes) => base58_decoded(text@) == Some(bytes@),
            None => base58_decoded(text@).is_none(),
        },
{
    bs58::decode(text).into_vec().ok()
}

/// An instruction as a transaction lists it: the program and the
/// accounts by their index into the transaction's account keys, and the
/// data as base58 text.
#[derive(Debug)]
pub struct CompiledInstruction {
    pub program_id_index: u8,
    pub accounts: Vec<u8>,
    pub data: String,
}

/// An inner instruction as a transaction's metadata lists it.
#[derive(Debug)]
pub enum UiInstruction {
    Compiled(CompiledInstruction),
    Parsed,
}

/// A request with callback that was seen in a transaction.
#[derive(Clone, Copy, Debug)]
pub struct RequestObservation {
    pub request_account: PubkeyBytes,
    pub provider_account: PubkeyBytes,
    pub user_randomness: [u8; 32],
}

impl RequestObservation {
    /// Whether the request was made to the provider with the given
    /// account.
    pub fn is_for(&self, provider_account: &PubkeyBytes) -> (r: bool)
        ensures
            r == (self.provider_account@ == provider_account@),
    {
        array_eq(&self.provider_account, provider_account)
    }
}

/// Whether `data` is the data of a request with callback: it opens with
/// that operation's opcode and holds the randomness behind it.
pub open spec fn carries_randomness(data: Seq<u8>) -> bool {
    data.len() >= 40 && data.subrange(0, 8) == spec_u64_to_le_bytes(3)
}

/// The user's randomness in the data of a request with callback; `None`
/// for the data of anything else.
pub fn parse_user_randomness(data: &[u8]) -> (r: Option<[u8; 32]>)
    ensures
        r.is_some() <==> carries_randomness(data@),
        r matches Some(randomness) ==> randomness@ == data@.subrange(8, 40),
{
    if data.len() < 40 {
        return None;
    }
    let opcode = EntropyInstruction::RequestWithCallback.discriminator();
    let head: [u8; 8] = read_array::<8>(data, 0);
    if !array_eq(&head, &opcode) {
        return None;
    }
    Some(read_array::<32>(data, 8))
}

/// The data that a client builds for a request with callback is data
/// in which the provider finds the user's randomness.
pub proof fn lemma_built_request_carries_randomness(
    data: Seq<u8>,
    user_randomness: Seq<u8>,
    compute_unit_limit: u32,
    callback_accounts: Seq<CallbackMeta>,
    callback_ix_data: Seq<u8>,
)
    requires
        data.len() >= 8,
        instruction_of_opcode(spec_u64_from_le_bytes(data.subrange(0, 8))) == Some(
            EntropyInstruction::RequestWithCallback,
        ),
        payload_holds(
            data.subrange(8, data.len() as int),
            user_randomness,
            compute_unit_limit,
            callback_accounts,
            callback_ix_data,
        ),
    ensures
        carries_randomness(data),
        data.subrange(8, 40) == user_randomness,
{
    lemma_auto_spec_u64_to_from_le_bytes();
    let payload = data.subrange(8, data.len() as int);
    assert(data.subrange(8, 40) =~= payload.subrange(0, 32));
    assert(data.subrange(0, 8).len() == 8);
}

/// Whether an instruction with the given parts is a request with
/// callback to `entropy_program_id` whose accounts can be told: the
/// program index points at the program, the data decodes to a request
/// with callback, and the fourth and fifth account, the request and the
/// provider, point into the account keys.
pub open spec fn observable(
    program_id_index: u8,
    accounts: Seq<u8>,
    decoded: Option<Seq<u8>>,
    account_keys: Seq<PubkeyBytes>,
    entropy_program_id: PubkeyBytes,
) -> bool {
    &&& program_id_index < account_keys.len()
    &&& account_keys[program_id_index as int]@ == entropy_program_id@
    &&& decoded matches Some(data) && carries_randomness(data)
    &&& accounts.len() >= 5
    &&& accounts[3] < account_keys.len()
    &&& accounts[4] < account_keys.len()
}

/// The observation that an observable instruction gives.
pub open spec fn observed(
    observation: RequestObservation,
    accounts: Seq<u8>,
    decoded: Seq<u8>,
    account_keys: Seq<PubkeyBytes>,
) -> bool {
    &&& observation.request_account == account_keys[accounts[3] as int]
    &&& observation.provider_account == account_keys[accounts[4] as int]
    &&& observation.user_randomness@ == decoded.subrange(8, 40)
}

/// Whether the account keys hold the program at the given index.
pub fn addresses_program(
    program_id_index: u8,
    account_keys: &[PubkeyBytes],
    entropy_program_id: &PubkeyBytes,
) -> (r: bool)
    ensures
        r == (program_id_index < account_keys@.len() && account_keys@[program_id_index as int]@
            == entropy_program_id@),
{
    let index: usize = program_id_index as usize;
    if index >= account_keys.len() {
        return false;
    }
    array_eq(&account_keys[index], entropy_program_id)
}

/// The observation that an instruction gives once its data is decoded,
/// if it gives one.
pub fn observe(
    program_id_index: u8,
    accounts: &[u8],
    decoded: &Option<Vec<u8>>,
    account_keys: &[PubkeyBytes],
    entropy_program_id: &PubkeyBytes,
) -> (r: Option<RequestObservation>)
    ensures
        r.is_some() <==> observable(
            program_id_index,
            accounts@,
            match *decoded {
                Some(data) => Some(data@),
                None => None,
            },
            account_keys@,
            *entropy_program_id,
        ),
        r matches Some(observation) ==> decoded matches Some(data) && observed(
            observation,
            accounts@,
            data@,
            account_keys@,
        ),
{
    if !addresses_program(program_id_index, account_keys, entropy_program_id) {
        return None;
    }
    let data = match decoded {
        Some(data) => data,
        None => { return None; },
    };
    let user_randomness = match parse_user_randomness(data.as_slice()) {
        Some(randomness) => randomness,
        None => { return None; },
    };
    if accounts.len() < 5 {
        return None;
    }
    let request_index: usize = accounts[3] as usize;
    let provider_index: usize = accounts[4] as usize;
    if request_index >= account_keys.len() || provider_index >= account_keys.len() {
        return None;
    }
    Some(
        RequestObservation {
            request_account: account_keys[request_index],
            provider_account: account_keys[provider_index],
            user_randomness,
        },
    )
}

/// Whether `after` is `before`, followed by the observation that the
/// instruction gives if it gives one.
pub open spec fn collected(
    before: Seq<RequestObservation>,
    after: Seq<RequestObservation>,
    instruction: CompiledInstruction,
    account_keys: Seq<PubkeyBytes>,
    entropy_program_id: PubkeyBytes,
) -> bool {
    if observable(
        instruction.program_id_index,
        instruction.accounts@,
        base58_decoded(instruction.data@),
        account_keys,
        entropy_program_id,
    ) {
        &&& after.len() == before.len() + 1
        &&& after.subrange(0, before.len() as int) == before
        &&& observed(
            after.last(),
            instruction.accounts@,
            base58_decoded(instruction.data@).unwrap(),
            account_keys,
        )
    } else {
        after == before
    }
}

/// Adds to `observations` what a top-level instruction shows.
pub fn collect_compiled_observation(
    instruction: &CompiledInstruction,
    account_keys: &[PubkeyBytes],
    entropy_program_id: &PubkeyBytes,
    observations: &mut Vec<RequestObservation>,
)
    ensures
        collected(
            old(observations)@,
            final(observations)@,
            *instruction,
            account_keys@,
            *entropy_program_id,
        ),
{
    let ghost before = observations@;
    if !addresses_program(instruction.program_id_index, account_keys, entropy_program_id) {
        return ;
    }
    let decoded = base58_decode(instruction.data.as_str());
    match observe(
        instruction.program_id_index,
        instruction.accounts.as_slice(),
        &decoded,
        account_keys,
        entropy_program_id,
    ) {
        Some(observation) => {
            observations.push(observation);
            assert(observations@.subrange(0, before.len() as int) =~= before);
        },
        None => {},
    }
}

/// Adds to `observations` what an inner instruction shows; one that is
/// not in compiled form shows nothing.
pub fn collect_request_observation(
    instruction: &UiInstruction,
    account_keys: &[PubkeyBytes],
    entropy_program_id: &PubkeyBytes,
    observations: &mut Vec<RequestObservation>,
)
    ensures
        match *instruction {
            UiInstruction::Compiled(compiled) => collected(
                old(observations)@,
                final(observations)@,
                compiled,
                account_keys@,
                *entropy_program_id,
            ),
            UiInstruction::Parsed => final(observations)@ == old(observations)@,
        },
{
    match instruction {
        UiInstruction::Compiled(compiled) => collect_compiled_observation(
            compiled,
            account_keys,
            entropy_program_id,
            observations,
        ),
        UiInstruction::Parsed => {},
    }
}

/// Whether an instruction shows a request with callback to the program.
pub open spec fn shows_request(
    instruction: CompiledInstruction,
    account_keys: Seq<PubkeyBytes>,
    entropy_program_id: PubkeyBytes,
) -> bool {
    observable(
        instruction.program_id_index,
        instruction.accounts@,
        base58_decoded(instruction.data@),
        account_keys,
        entropy_program_id,
    )
}

/// The number of requests that the first `upto` instructions show.
pub open spec fn shown_count(
    instructions: Seq<CompiledInstruction>,
    account_keys: Seq<PubkeyBytes>,
    entropy_program_id: PubkeyBytes,
    upto: int,
) -> int
    decreases upto,
{
    if upto <= 0 {
        0
    } else {
        shown_count(instructions, account_keys, entropy_program_id, upto - 1) + if shows_request(
            instructions[upto - 1],
            account_keys,
            entropy_program_id,
        ) {
            1int
        } else {
            0int
        }
    }
}

/// Whether an inner instruction shows a request with callback to the
/// program: it is in compiled form and shows one.
pub open spec fn inner_shows_request(
    instruction: UiInstruction,
    account_keys: Seq<PubkeyBytes>,
    entropy_program_id: PubkeyBytes,
) -> bool {
    instruction matches UiInstruction::Compiled(compiled) && shows_request(
        compiled,
        account_keys,
        entropy_program_id,
    )
}

/// Whether `observation` is what an inner instruction that shows a
/// request gives.
pub open spec fn inner_observed(
    observation: RequestObservation,
    instruction: UiInstruction,
    account_keys: Seq<PubkeyBytes>,
) -> bool {
    instruction matches UiInstruction::Compiled(compiled) && observed(
        observation,
        compiled.accounts@,
        base58_decoded(compiled.data@).unwrap(),
        account_keys,
    )
}

/// The number of requests that the first `upto` inner instructions show.
pub open spec fn shown_inner_count(
    instructions: Seq<UiInstruction>,
    account_keys: Seq<PubkeyBytes>,
    entropy_program_id: PubkeyBytes,
    upto: int,
) -> int
    decreases upto,
{
    if upto <= 0 {
        0
    } else {
        shown_inner_count(instructions, account_keys, entropy_program_id, upto - 1)
            + if inner_shows_request(instructions[upto - 1], account_keys, entropy_program_id) {
            1int
        } else {
            0int
        }
    }
}

/// The requests with callback that a transaction shows: those of its
/// top-level instructions in order, then those of its inner
/// instructions in order. Each instruction that shows a request gives
/// one observation, and no other gives any.
pub fn parse_request_observations(
    instructions: &[CompiledInstruction],
    inner_instructions: &[UiInstruction],
    account_keys: &[PubkeyBytes],
    entropy_program_id: &PubkeyBytes,
) -> (observations: Vec<RequestObservation>)
    ensures
        observations@.len() == shown_count(
            instructions@,
            account_keys@,
            *entropy_program_id,
            instructions@.len() as int,
        ) + shown_inner_count(
            inner_instructions@,
            account_keys@,
            *entropy_program_id,
            inner_instructions@.len() as int,
        ),
        forall|i: int|
            0 <= i < instructions@.len() && #[trigger] shows_request(
                instructions@[i],
                account_keys@,
                *entropy_program_id,
            ) ==> observed(
                observations@[shown_count(instructions@, account_keys@, *entropy_program_id, i)],
                instructions@[i].accounts@,
                base58_decoded(instructions@[i].data@).unwrap(),
                account_keys@,
            ),
        forall|j: int|
            0 <= j < inner_instructions@.len() && #[trigger] inner_shows_request(
                inner_instructions@[j],
                account_keys@,
                *entropy_program_id,
            ) ==> inner_observed(
                observations@[shown_count(
                    instructions@,
                    account_keys@,
                    *entropy_program_id,
                    instructions@.len() as int,
                ) + shown_inner_count(inner_instructions@, account_keys@, *entropy_program_id, j)],
                inner_instructions@[j],
                account_keys@,
            ),
{
    let mut observations: Vec<RequestObservation> = Vec::new();
    let mut i: usize = 0;
    while i < instructions.len()
        invariant
            0 <= i <= instructions@.len(),
            observations@.len() == shown_count(
                instructions@,
                account_keys@,
                *entropy_program_id,
                i as int,
            ),
            forall|k: int|
                0 <= k < i && #[trigger] shows_request(
                    instructions@[k],
                    account_keys@,
                    *entropy_program_id,
                ) ==> 0 <= shown_count(instructions@, account_keys@, *entropy_program_id, k)
                    < observations@.len() && observed(
                    observations@[shown_count(
                        instructions@,
                        account_keys@,
                        *entropy_program_id,
                        k,
                    )],
                    instructions@[k].accounts@,
                    base58_decoded(instructions@[k].data@).unwrap(),
                    account_keys@,
                ),
        decreases instructions@.len() - i,
    {
        let ghost before = observations@;
        collect_compiled_observation(
            &instructions[i],
            account_keys,
            entropy_program_id,
            &mut observations,
        );
        proof {
            assert forall|k: int|
                0 <= k < i && #[trigger] shows_request(
                    instructions@[k],
                    account_keys@,
                    *entropy_program_id,
                ) implies observations@[shown_count(
                instructions@,
                account_keys@,
                *entropy_program_id,
                k,
            )] == before[shown_count(instructions@, account_keys@, *entropy_program_id, k)] by {
                if observations@ != before {
                    assert(before[shown_count(instructions@, account_keys@, *entropy_program_id, k)]
                        == observations@.subrange(0, before.len() as int)[shown_count(
                        instructions@,
                        account_keys@,
                        *entropy_program_id,
                        k,
                    )]);
                }
            }
        }
        i = i + 1;
    }
    let ghost top = observations@;
    let mut j: usize = 0;
    while j < inner_instructions.len()
        invariant
            0 <= j <= inner_instructions@.len(),
            observations@.len() == top.len() + shown_inner_count(
                inner_instructions@,
                account_keys@,
                *entropy_program_id,
                j as int,
            ),
            shown_inner_count(inner_instructions@, account_keys@, *entropy_program_id, j as int)
                >= 0,
            observations@.subrange(0, top.len() as int) == top,
            forall|k: int|
                0 <= k < j && #[trigger] inner_shows_request(
                    inner_instructions@[k],
                    account_keys@,
                    *entropy_program_id,
                ) ==> 0 <= shown_inner_count(
                    inner_instructions@,
                    account_keys@,
                    *entropy_program_id,
                    k,
                ) && top.len() + shown_inner_count(
                    inner_instructions@,
                    account_keys@,
                    *entropy_program_id,
                    k,
                ) < observations@.len() && inner_observed(
                    observations@[top.len() + shown_inner_count(
                        inner_instructions@,
                        account_keys@,
                        *entropy_program_id,
                        k,
                    )],
                    inner_instructions@[k],
                    account_keys@,
                ),
        decreases inner_instructions@.len() - j,
    {
        let ghost before = observations@;
        collect_request_observation(
            &inner_instructions[j],
            account_keys,
            entropy_program_id,
            &mut observations,
        );
        proof {
            assert forall|k: int| 0 <= k < before.len() implies observations@[k] == before[k] by {
                if observations@ != before {
                    assert(observations@.subrange(0, before.len() as int)[k] == before[k]);
                }
            }
            assert(observations@.subrange(0, top.len() as int) =~= before.subrange(
                0,
                top.len() as int,
            ));
        }
        j = j + 1;
    }
    proof {
        assert forall|k: int|
            0 <= k < instructions@.len() && #[trigger] shows_request(
                instructions@[k],
                account_keys@,
                *entropy_program_id,
            ) implies observed(
            observations@[shown_count(instructions@, account_keys@, *entropy_program_id, k)],
            instructions@[k].accounts@,
            base58_decoded(instructions@[k].data@).unwrap(),
            account_keys@,
        ) by {
            let at = shown_count(instructions@, account_keys@, *entropy_program_id, k);
            assert(observations@.subrange(0, top.len() as int)[at] == top[at]);
        }
    }
    observations
}

} // verus!
