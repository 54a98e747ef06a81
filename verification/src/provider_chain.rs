//! The provider's side: its hash chain, and which value to reveal for a
//! request.

use vstd::prelude::*;
use crate::accounts::{Provider, PubkeyBytes, Request};
use crate::bytes::array_eq;
use crate::constants::CALLBACK_NOT_STARTED;
use crate::hashing::{hash_one, iterated_hash, lemma_iterated_hash_add, sha256_digest};
use crate::instruction::RevealArgs;
use crate::processor::reveal_with_callback::{advanced, recomputed_commitment};

verus! {

/// Calls `try_fill_bytes` of `rand`'s `OsRng`, which fills the buffer
/// from the operating system's source of randomness or reports that it
/// could not. Nothing is claimed of the bytes.
#[verifier::external_body]
pub(crate) fn random_seed() -> (seed: Option<[u8; 32]>) {
    let mut seed = [0u8; 32];
    match rand::RngCore::try_fill_bytes(&mut rand::rngs::OsRng, &mut seed) {
        Ok(()) => Some(seed),
        Err(_) => None,
    }
}

/// Whether `chain` is the hash chain of `length` steps from `seed`: the
/// seed, then each value the hash of the one before.
pub open spec fn chain_from(seed: Seq<u8>, chain: Seq<[u8; 32]>, length: nat) -> bool {
    &&& chain.len() == length + 1
    &&& forall|k: int| 0 <= k <= length ==> (#[trigger] chain[k])@ == iterated_hash(seed, k as nat)
}

/// Builds the hash chain of `chain_length` steps from `seed`, and gives
/// its last value, the commitment to register.
pub fn build_chain_from_seed(seed: [u8; 32], chain_length: usize) -> (r: ([u8; 32], Vec<[u8; 32]>))
    requires
        chain_length < usize::MAX,
    ensures
        chain_from(seed@, r.1@, chain_length as nat),
        r.0 == r.1@[chain_length as int],
        r.0@ == iterated_hash(seed@, chain_length as nat),
{
    let mut chain: Vec<[u8; 32]> = Vec::new();
    chain.push(seed);
    let mut last = seed;
    let mut index: usize = 0;
    while index < chain_length
        invariant
            0 <= index <= chain_length,
            chain@.len() == index + 1,
            last == chain@[index as int],
            forall|k: int| 0 <= k <= index ==> (#[trigger] chain@[k])@ == iterated_hash(seed@, k as nat),
        decreases chain_length - index,
    {
        let next = hash_one(&last);
        chain.push(next);
        last = next;
        index = index + 1;
    }
    (last, chain)
}

/// Builds a hash chain of `chain_length` steps from a fresh random seed;
/// `None` where the system gave no randomness.
pub fn build_chain(chain_length: usize) -> (r: Option<([u8; 32], Vec<[u8; 32]>)>)
    requires
        chain_length < usize::MAX,
    ensures
        r matches Some(built) ==> {
            &&& built.1@.len() == chain_length + 1
            &&& chain_from(built.1@[0]@, built.1@, chain_length as nat)
            &&& built.0 == built.1@[chain_length as int]
        },
{
    build_chain_with(random_seed(), chain_length)
}

/// Builds the hash chain of `chain_length` steps from what the system's
/// source of randomness gave: from the seed where it gave one, with the
/// chain's last value as the commitment to register; nothing where it
/// gave none.
pub fn build_chain_with(seed: Option<[u8; 32]>, chain_length: usize) -> (r: Option<
    ([u8; 32], Vec<[u8; 32]>),
>)
    requires
        chain_length < usize::MAX,
    ensures
        r.is_some() <==> seed.is_some(),
        r matches Some(built) ==> seed matches Some(start) && {
            &&& chain_from(start@, built.1@, chain_length as nat)
            &&& built.1@[0] == start
            &&& built.0 == built.1@[chain_length as int]
            &&& built.0@ == iterated_hash(start@, chain_length as nat)
        },
{
    match seed {
        Some(start) => {
            let built = build_chain_from_seed(start, chain_length);
            assert(built.1@[0]@ == iterated_hash(start@, 0));
            assert(built.1@[0] =~= start);
            Some(built)
        },
        None => None,
    }
}

/// From every value of a chain the remaining steps lead to the
/// commitment, which is the seed hashed the chain's length of times.
pub proof fn lemma_chain_round_trip(seed: Seq<u8>, chain: Seq<[u8; 32]>, length: nat, k: nat)
    requires
        chain_from(seed, chain, length),
        k <= length,
    ensures
        chain[length as int]@ == iterated_hash(seed, length),
        iterated_hash(chain[k as int]@, (length - k) as nat) == chain[length as int]@,
{
    lemma_iterated_hash_add(seed, k, (length - k) as nat);
    assert(chain[k as int]@ == iterated_hash(seed, k));
    assert(chain[length as int]@ == iterated_hash(seed, length));
}

/// Between any two values of a chain lie as many hashes as their
/// positions are apart.
pub proof fn lemma_chain_step(seed: Seq<u8>, chain: Seq<[u8; 32]>, length: nat, from: nat, to: nat)
    requires
        chain_from(seed, chain, length),
        from <= to <= length,
    ensures
        iterated_hash(chain[from as int]@, (to - from) as nat) == chain[to as int]@,
{
    lemma_iterated_hash_add(seed, from, (to - from) as nat);
    assert(chain[from as int]@ == iterated_hash(seed, from));
    assert(chain[to as int]@ == iterated_hash(seed, to));
}

/// The provider's chain with its cursor: the position of the value that
/// was revealed last, and the sequence number it was revealed for.
#[derive(Debug)]
pub struct ProviderChain {
    pub chain: Vec<[u8; 32]>,
    pub current_index: usize,
    pub current_sequence: u64,
}

/// Why a request is passed over.
#[derive(Clone, Copy, Debug, PartialEq, Eq, Structural)]
pub enum SkipReason {
    /// The request does not wait for a callback.
    NotPending,
    /// The request is bound to another provider.
    OtherProvider,
    /// The request is not ahead of the last reveal.
    AlreadyRevealed,
    /// The distance to the request does not fit the machine's index.
    SequenceTooLarge,
    /// The chain does not reach back far enough.
    OutOfRandomness,
}

/// What to do about a request.
#[derive(Clone, Copy, Debug)]
pub enum RevealDecision {
    Skip(SkipReason),
    Reveal { provider_contribution: [u8; 32], num_hashes: usize },
}

impl ProviderChain {
    /// The cursor points into the chain.
    pub open spec fn well_formed(&self) -> bool {
        self.current_index < self.chain@.len()
    }

    /// A chain that was just registered: the cursor is at the commitment.
    pub fn new(chain: Vec<[u8; 32]>, current_sequence: u64) -> (r: Option<ProviderChain>)
        ensures
            r.is_some() <==> chain@.len() > 0,
            r matches Some(state) ==> {
                &&& state.well_formed()
                &&& state.chain@ == chain@
                &&& state.current_index == chain@.len() - 1
                &&& state.current_sequence == current_sequence
            },
    {
        if chain.len() == 0 {
            return None;
        }
        let current_index: usize = chain.len() - 1;
        Some(ProviderChain { chain, current_index, current_sequence })
    }

    /// What to do about `request`, in this order: pass over one that does
    /// not wait for its callback, that is bound to another provider, or
    /// that is not ahead of the last reveal; else reveal the value that
    /// lies as many steps back in the chain as the request is ahead, if
    /// the chain reaches that far.
    pub open spec fn decision(&self, request: Request, authority: PubkeyBytes) -> RevealDecision {
        if request.callback_status != CALLBACK_NOT_STARTED {
            RevealDecision::Skip(SkipReason::NotPending)
        } else if request.provider@ != authority@ {
            RevealDecision::Skip(SkipReason::OtherProvider)
        } else if request.sequence_number <= self.current_sequence {
            RevealDecision::Skip(SkipReason::AlreadyRevealed)
        } else if request.sequence_number - self.current_sequence > usize::MAX {
            RevealDecision::Skip(SkipReason::SequenceTooLarge)
        } else if request.sequence_number - self.current_sequence > self.current_index {
            RevealDecision::Skip(SkipReason::OutOfRandomness)
        } else {
            RevealDecision::Reveal {
                provider_contribution: self.chain@[self.current_index - (request.sequence_number
                    - self.current_sequence)],
                num_hashes: (request.sequence_number - self.current_sequence) as usize,
            }
        }
    }

    /// Decides what to do about `request`.
    pub fn plan_reveal(&self, request: &Request, authority: &PubkeyBytes) -> (r: RevealDecision)
        requires
            self.well_formed(),
        ensures
            r == self.decision(*request, *authority),
    {
        if request.callback_status != CALLBACK_NOT_STARTED {
            return RevealDecision::Skip(SkipReason::NotPending);
        }
        if !array_eq(&request.provider, authority) {
            return RevealDecision::Skip(SkipReason::OtherProvider);
        }
        if request.sequence_number <= self.current_sequence {
            return RevealDecision::Skip(SkipReason::AlreadyRevealed);
        }
        let distance: u64 = request.sequence_number - self.current_sequence;
        if distance > usize::MAX as u64 {
            return RevealDecision::Skip(SkipReason::SequenceTooLarge);
        }
        let num_hashes: usize = distance as usize;
        if num_hashes > self.current_index {
            return RevealDecision::Skip(SkipReason::OutOfRandomness);
        }
        RevealDecision::Reveal {
            provider_contribution: self.chain[self.current_index - num_hashes],
            num_hashes,
        }
    }

    /// Moves the cursor after a reveal for `sequence_number` that lay
    /// `num_hashes` steps back was confirmed.
    pub fn record_reveal(&mut self, num_hashes: usize, sequence_number: u64)
        requires
            old(self).well_formed(),
            num_hashes <= old(self).current_index,
        ensures
            final(self).well_formed(),
            final(self).chain == old(self).chain,
            final(self).current_index == old(self).current_index - num_hashes,
            final(self).current_sequence == sequence_number,
    {
        self.current_index = self.current_index - num_hashes;
        self.current_sequence = sequence_number;
    }
}

/// The value that the provider decides to reveal leads, in as many
/// hashes as the request is ahead, to the value at the cursor: the
/// commitment that the request was bound to.
pub proof fn lemma_planned_reveal_verifies(
    state: ProviderChain,
    seed: Seq<u8>,
    length: nat,
    request: Request,
    authority: PubkeyBytes,
)
    requires
        state.well_formed(),
        chain_from(seed, state.chain@, length),
        state.decision(request, authority) is Reveal,
    ensures
        state.decision(request, authority) matches RevealDecision::Reveal {
            provider_contribution,
            num_hashes,
        } && iterated_hash(provider_contribution@, num_hashes as nat)
            == state.chain@[state.current_index as int]@,
{
    let distance = (request.sequence_number - state.current_sequence) as nat;
    lemma_chain_step(
        seed,
        state.chain@,
        length,
        (state.current_index - distance) as nat,
        state.current_index as nat,
    );
}

/// Whether the provider's cursor stands where the program has the
/// provider: at the sequence number and on the value of the provider's
/// current commitment.
pub open spec fn in_step(state: ProviderChain, provider: Provider) -> bool {
    &&& state.well_formed()
    &&& state.current_sequence == provider.current_commitment_sequence_number
    &&& state.chain@[state.current_index as int]@ == provider.current_commitment@
}

/// A provider whose cursor stands where the program has it reveals what
/// the program accepts: for a request that was bound to the provider's
/// current commitment at the distance it lies ahead, the value that the
/// provider decides to reveal, with the user's randomness, recomputes
/// the request's commitment.
pub proof fn lemma_planned_reveal_accepted(
    state: ProviderChain,
    seed: Seq<u8>,
    length: nat,
    provider: Provider,
    request: Request,
    authority: PubkeyBytes,
    user_randomness: [u8; 32],
)
    requires
        in_step(state, provider),
        chain_from(seed, state.chain@, length),
        request.commitment@ == sha256_digest(
            sha256_digest(user_randomness@) + provider.current_commitment@,
        ),
        request.num_hashes == request.sequence_number
            - provider.current_commitment_sequence_number,
        state.decision(request, authority) is Reveal,
    ensures
        state.decision(request, authority) matches RevealDecision::Reveal {
            provider_contribution,
            num_hashes,
        } && num_hashes == request.num_hashes && recomputed_commitment(
            request,
            RevealArgs { user_contribution: user_randomness, provider_contribution },
        ) == request.commitment@,
{
    lemma_planned_reveal_verifies(state, seed, length, request, authority);
}

/// A cursor that stands where the program has the provider stands there
/// again after a reveal: once the program has moved the provider forward
/// and the provider has recorded the reveal, the two agree.
pub proof fn lemma_cursor_tracks_provider(
    before: ProviderChain,
    after: ProviderChain,
    provider: Provider,
    request: Request,
    authority: PubkeyBytes,
    user_contribution: [u8; 32],
)
    requires
        in_step(before, provider),
        before.decision(request, authority) matches RevealDecision::Reveal {
            provider_contribution,
            num_hashes,
        } && after.chain == before.chain && after.current_index == before.current_index
            - num_hashes && after.current_sequence == request.sequence_number,
    ensures
        before.decision(request, authority) matches RevealDecision::Reveal {
            provider_contribution,
            num_hashes,
        } && in_step(
            after,
            advanced(provider, request, RevealArgs { user_contribution, provider_contribution }),
        ),
{
}

/// The wait before the next attempt at a reveal after `failed` attempts
/// have failed, in milliseconds: none before the first attempt, then
/// half a second, doubled with each failure up to eight seconds; after
/// six failed attempts there is no further attempt.
pub open spec fn backoff_delay_spec(failed: u32) -> Option<u64> {
    if failed >= 6 {
        None
    } else if failed == 5 {
        Some(8000u64)
    } else if failed == 4 {
        Some(4000u64)
    } else if failed == 3 {
        Some(2000u64)
    } else if failed == 2 {
        Some(1000u64)
    } else if failed == 1 {
        Some(500u64)
    } else {
        Some(0u64)
    }
}

/// The wait before the next attempt at a reveal after `failed` attempts
/// have failed, in milliseconds; `None` where no attempt is left.
pub fn backoff_delay_ms(failed: u32) -> (delay: Option<u64>)
    ensures
        delay == backoff_delay_spec(failed),
{
    if failed >= 6 {
        return None;
    }
    if failed == 0 {
        return Some(0);
    }
    let mut delay: u64 = 500;
    let mut i: u32 = 1;
    while i < failed
        invariant
            1 <= i <= failed < 6,
            Some(delay) == backoff_delay_spec(i),
        decreases failed - i,
    {
        delay = delay * 2;
        i = i + 1;
    }
    Some(delay)
}

/// The waits never exceed eight seconds, and never shrink from one
/// failure to the next.
pub proof fn lemma_backoff_bounded(failed: u32)
    ensures
        backoff_delay_spec(failed) matches Some(delay) ==> delay <= 8000,
        failed < 5 ==> backoff_delay_spec(failed).unwrap() <= backoff_delay_spec(
            (failed + 1) as u32,
        ).unwrap(),
        backoff_delay_spec(failed).is_some() <==> failed < 6,
{
}

} // verus!
