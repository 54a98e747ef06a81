//! Which of the program's recent transaction signatures the provider has
//! yet to look at.

use vstd::prelude::*;
use crate::bytes::array_eq;

verus! {

/// A transaction signature.
pub type SignatureBytes = [u8; 64];

/// What the provider remembers between polls: the signatures it has
/// taken up, none of them twice, and the newest signature of the last
/// poll.
#[derive(Debug)]
pub struct SignatureCursor {
    pub processed: Vec<SignatureBytes>,
    pub last_seen: Option<SignatureBytes>,
}

/// Whether `stop` is where a poll stops reading: at the first signature
/// that was the newest of the poll before, else at the end.
pub open spec fn is_stop(
    signatures: Seq<SignatureBytes>,
    last_seen: Option<SignatureBytes>,
    stop: int,
) -> bool {
    &&& 0 <= stop <= signatures.len()
    &&& forall|i: int| 0 <= i < stop ==> last_seen != Some(#[trigger] signatures[i])
    &&& (stop == signatures.len() || last_seen == Some(signatures[stop]))
}

/// The signatures among the first `upto` that are taken up: those that
/// were not taken up before, each once, in the order of the poll.
pub open spec fn fresh(
    signatures: Seq<SignatureBytes>,
    processed: Seq<SignatureBytes>,
    upto: int,
) -> Seq<SignatureBytes>
    decreases upto,
{
    if upto <= 0 {
        Seq::empty()
    } else {
        let before = fresh(signatures, processed, upto - 1);
        let signature = signatures[upto - 1];
        if processed.contains(signature) || before.contains(signature) {
            before
        } else {
            before.push(signature)
        }
    }
}

/// Whether `list` holds `signature`.
pub fn contains_signature(list: &[SignatureBytes], signature: &SignatureBytes) -> (r: bool)
    ensures
        r == list@.contains(*signature),
{
    let mut i: usize = 0;
    while i < list.len()
        invariant
            0 <= i <= list@.len(),
            forall|j: int| 0 <= j < i ==> list@[j] != *signature,
        decreases list@.len() - i,
    {
        if array_eq(&list[i], signature) {
            return true;
        }
        i = i + 1;
    }
    false
}

impl SignatureCursor {
    /// A cursor that has seen nothing.
    pub fn new() -> (cursor: SignatureCursor)
        ensures
            cursor.processed@.len() == 0,
            cursor.last_seen.is_none(),
    {
        SignatureCursor { processed: Vec::new(), last_seen: None }
    }

    /// Takes up the signatures of a poll, which lists the newest first:
    /// reads up to the newest signature of the poll before, remembers
    /// what it had not taken up yet, and gives that oldest first. The
    /// newest signature of this poll is where the next one stops.
    pub fn select_new_signatures(&mut self, signatures: &[SignatureBytes]) -> (selected: Vec<
        SignatureBytes,
    >)
        ensures
            exists|stop: int|
                {
                    &&& #[trigger] is_stop(signatures@, old(self).last_seen, stop)
                    &&& selected@ == fresh(signatures@, old(self).processed@, stop).reverse()
                    &&& final(self).processed@ == old(self).processed@ + fresh(
                        signatures@,
                        old(self).processed@,
                        stop,
                    )
                },
            final(self).last_seen == if signatures@.len() > 0 {
                Some(signatures@[0])
            } else {
                old(self).last_seen
            },
    {
        let ghost before = self.processed@;
        let ghost last_seen = self.last_seen;
        let mut taken: Vec<SignatureBytes> = Vec::new();
        let mut i: usize = 0;
        let mut stopped: bool = false;
        while i < signatures.len() && !stopped
            invariant
                0 <= i <= signatures@.len(),
                self.last_seen == last_seen,
                forall|k: int| 0 <= k < i ==> last_seen != Some(#[trigger] signatures@[k]),
                stopped ==> i < signatures@.len() && last_seen == Some(signatures@[i as int]),
                taken@ == fresh(signatures@, before, i as int),
                self.processed@ == before + taken@,
            decreases signatures@.len() - i + if stopped { 0int } else { 1int },
        {
            let signature = signatures[i];
            let is_last = match &self.last_seen {
                Some(seen) => array_eq(seen, &signature),
                None => false,
            };
            if is_last {
                stopped = true;
            } else {
                let known = contains_signature(self.processed.as_slice(), &signature);
                proof {
                    let both = before + taken@;
                    if known {
                        let at = choose|j: int| 0 <= j < both.len() && both[j] == signature;
                        if at < before.len() {
                            assert(before[at] == signature);
                        } else {
                            assert(taken@[at - before.len()] == signature);
                        }
                    } else {
                        if before.contains(signature) {
                            let at = choose|j: int| 0 <= j < before.len() && before[j] == signature;
                            assert(both[at] == signature);
                        }
                        if taken@.contains(signature) {
                            let at = choose|j: int| 0 <= j < taken@.len() && taken@[j] == signature;
                            assert(both[at + before.len()] == signature);
                        }
                    }
                }
                if !known {
                    self.processed.push(signature);
                    taken.push(signature);
                    assert(self.processed@ =~= before + taken@);
                }
                i = i + 1;
            }
        }
        if signatures.len() > 0 {
            self.last_seen = Some(signatures[0]);
        }
        let mut selected: Vec<SignatureBytes> = Vec::new();
        let mut k: usize = taken.len();
        while k > 0
            invariant
                0 <= k <= taken@.len(),
                selected@.len() == taken@.len() - k,
                forall|j: int|
                    0 <= j < selected@.len() ==> selected@[j] == taken@[taken@.len() - 1 - j],
            decreases k,
        {
            k = k - 1;
            selected.push(taken[k]);
        }
        proof {
            assert(selected@ =~= taken@.reverse());
            assert(is_stop(signatures@, last_seen, i as int));
        }
        selected
    }
}

} // verus!
