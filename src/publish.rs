use vstd::prelude::*;
use crate::error::NosError;

verus! {

/// The answer of one relay to a published event.
#[derive(Debug, Clone, Copy, PartialEq, Eq, Structural)]
pub enum Ack {
    /// No answer yet.
    Pending,
    Accepted,
    Rejected,
    TimedOut,
    Unreachable,
}

/// What a publish comes to, given the answers of all relays: success when
/// any relay accepted; else `RejectedByRelays` when one refused, else
/// `RelayTimeout` when one did not answer in time, else `UnreachableRelay`
/// (also when there is no relay at all).
pub open spec fn outcome_of(acks: Seq<Ack>) -> Result<(), NosError> {
    if acks.contains(Ack::Accepted) {
        Ok(())
    } else if acks.contains(Ack::Rejected) {
        Err(NosError::RejectedByRelays)
    } else if acks.contains(Ack::TimedOut) || acks.contains(Ack::Pending) {
        Err(NosError::RelayTimeout)
    } else {
        Err(NosError::UnreachableRelay)
    }
}

/// The answers to one publish, one for each relay of the pool, in the pool's
/// order.
pub struct PublishRound {
    acks: Vec<Ack>,
}

impl View for PublishRound {
    type V = Seq<Ack>;

    closed spec fn view(&self) -> Seq<Ack> {
        self.acks@
    }
}

fn contains_ack(acks: &Vec<Ack>, a: Ack) -> (r: bool)
    ensures
        r == acks@.contains(a),
{
    let mut i: usize = 0;
    while i < acks.len()
        invariant
            i <= acks@.len(),
            forall|k: int| 0 <= k < i ==> acks@[k] != a,
        decreases acks@.len() - i,
    {
        if acks[i] == a {
            assert(acks@[i as int] == a);
            return true;
        }
        i = i + 1;
    }
    false
}

impl PublishRound {
    /// A round for `n` relays, none of which has answered.
    pub fn new(n: usize) -> (r: PublishRound)
        ensures
            r@ == Seq::new(n as nat, |i: int| Ack::Pending),
    {
        let mut acks: Vec<Ack> = Vec::new();
        let mut i: usize = 0;
        while i < n
            invariant
                i <= n,
                acks@ == Seq::new(i as nat, |k: int| Ack::Pending),
            decreases n - i,
        {
            acks.push(Ack::Pending);
            i = i + 1;
            assert(acks@ =~= Seq::new(i as nat, |k: int| Ack::Pending));
        }
        PublishRound { acks }
    }

    pub fn len(&self) -> (r: usize)
        ensures
            r == self@.len(),
    {
        self.acks.len()
    }

    /// The answer of the relay at `index`.
    pub fn ack(&self, index: usize) -> (r: Ack)
        requires
            index < self@.len(),
        ensures
            r == self@[index as int],
    {
        self.acks[index]
    }

    /// Records the answer of the relay at `index`. An answer that comes after
    /// the relay already has one (a reply after its time ran out) is dropped;
    /// no other relay's entry changes.
    pub fn record(&mut self, index: usize, ack: Ack)
        requires
            index < old(self)@.len(),
        ensures
            final(self)@ == if old(self)@[index as int] == Ack::Pending {
                old(self)@.update(index as int, ack)
            } else {
                old(self)@
            },
    {
        if self.acks[index] == Ack::Pending {
            self.acks.set(index, ack);
        }
    }

    /// The time is up: every relay that has not answered has timed out.
    pub fn expire(&mut self)
        ensures
            final(self)@.len() == old(self)@.len(),
            forall|i: int|
                0 <= i < old(self)@.len() ==> #[trigger] final(self)@[i] == if old(self)@[i]
                    == Ack::Pending {
                    Ack::TimedOut
                } else {
                    old(self)@[i]
                },
    {
        let ghost start = self.acks@;
        let mut i: usize = 0;
        while i < self.acks.len()
            invariant
                i <= self.acks@.len(),
                self.acks@.len() == start.len(),
                forall|k: int|
                    0 <= k < i ==> #[trigger] self.acks@[k] == if start[k] == Ack::Pending {
                        Ack::TimedOut
                    } else {
                        start[k]
                    },
                forall|k: int| i <= k < start.len() ==> #[trigger] self.acks@[k] == start[k],
            decreases start.len() - i,
        {
            if self.acks[i] == Ack::Pending {
                self.acks.set(i, Ack::TimedOut);
            }
            i = i + 1;
        }
    }

    /// Whether every relay has answered or timed out.
    pub fn is_settled(&self) -> (r: bool)
        ensures
            r == !self@.contains(Ack::Pending),
    {
        !contains_ack(&self.acks, Ack::Pending)
    }

    /// What the publish comes to.
    pub fn outcome(&self) -> (r: Result<(), NosError>)
        ensures
            r == outcome_of(self@),
    {
        if contains_ack(&self.acks, Ack::Accepted) {
            Ok(())
        } else if contains_ack(&self.acks, Ack::Rejected) {
            Err(NosError::RejectedByRelays)
        } else if contains_ack(&self.acks, Ack::TimedOut) || contains_ack(&self.acks, Ack::Pending) {
            Err(NosError::RelayTimeout)
        } else {
            Err(NosError::UnreachableRelay)
        }
    }

    /// The positions of the relays that accepted, in increasing order.
    pub fn accepted(&self) -> (r: Vec<usize>)
        ensures
            forall|k: int| 0 <= k < r@.len() ==> r@[k] < self@.len() && self@[r@[k] as int] == Ack::Accepted,
            forall|i: int|
                0 <= i < self@.len() && self@[i] == Ack::Accepted ==> r@.contains(i as usize),
            forall|a: int, b: int| 0 <= a < b < r@.len() ==> r@[a] < r@[b],
    {
        let mut out: Vec<usize> = Vec::new();
        let mut i: usize = 0;
        while i < self.acks.len()
            invariant
                i <= self.acks@.len(),
                forall|k: int| 0 <= k < out@.len() ==> out@[k] < i && self.acks@[out@[k] as int] == Ack::Accepted,
                forall|j: int| 0 <= j < i && self.acks@[j] == Ack::Accepted ==> out@.contains(j as usize),
                forall|a: int, b: int| 0 <= a < b < out@.len() ==> out@[a] < out@[b],
            decreases self.acks@.len() - i,
        {
            let ghost old_out = out@;
            if self.acks[i] == Ack::Accepted {
                out.push(i);
                assert(out@[out@.len() - 1] == i);
            }
            assert forall|j: int| 0 <= j < i + 1 && self.acks@[j] == Ack::Accepted implies out@.contains(j as usize) by {
                if j == i {
                    assert(out@[out@.len() - 1] == i);
                } else {
                    let idx = choose|idx: int| 0 <= idx < old_out.len() && old_out[idx] == j as usize;
                    assert(out@[idx] == j as usize);
                }
            }
            i = i + 1;
        }
        out
    }
}

/// One slow relay takes nothing from the others: whatever the relay at
/// `slow` answers, or if it times out, a publish that another relay accepted
/// succeeds and that relay's answer is kept.
pub proof fn lemma_timeout_isolated(acks: Seq<Ack>, slow: int, ok: int, answer: Ack)
    requires
        0 <= slow < acks.len(),
        0 <= ok < acks.len(),
        slow != ok,
        acks[ok] == Ack::Accepted,
    ensures
        acks.update(slow, answer)[ok] == Ack::Accepted,
        outcome_of(acks.update(slow, answer)) == Ok::<(), NosError>(()),
{
    assert(acks.update(slow, answer)[ok] == Ack::Accepted);
}

} // verus!
