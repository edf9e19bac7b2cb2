use vstd::prelude::*;

verus! {

/// What one observation of a hardware status flag means for a bounded wait.
#[derive(Clone, Copy, Debug, PartialEq, Eq, Structural)]
pub enum PollVerdict {
    /// The awaited condition holds.
    Ready,
    /// Not yet; the caller reads the status again.
    Pending,
    /// The budget is spent and the condition still does not hold.
    Expired,
}

/// A wait on a status flag that gives up after a fixed number of retries.
#[derive(Clone, Copy, Debug)]
pub struct Poller {
    pub remaining: u32,
}

/// The verdict of one observation, and the number of retries left after it.
pub open spec fn observe_spec(remaining: u32, ready: bool) -> (PollVerdict, u32) {
    if ready {
        (PollVerdict::Ready, remaining)
    } else if remaining == 0 {
        (PollVerdict::Expired, 0)
    } else {
        (PollVerdict::Pending, (remaining - 1) as u32)
    }
}

/// The verdicts given to a sequence of observations, one per observation.
pub open spec fn verdicts(remaining: u32, obs: Seq<bool>) -> Seq<PollVerdict>
    decreases obs.len(),
{
    if obs.len() == 0 {
        seq![]
    } else {
        let (v, rest) = observe_spec(remaining, obs[0]);
        seq![v].add(verdicts(rest, obs.drop_first()))
    }
}

/// `n` readings of a condition that does not hold.
pub open spec fn never_ready(n: nat) -> Seq<bool> {
    Seq::new(n, |i: int| false)
}

impl Poller {
    /// A wait that tolerates `budget` observations of a condition that does not hold.
    pub fn new(budget: u32) -> (r: Poller)
        ensures
            r.remaining == budget,
    {
        Poller { remaining: budget }
    }

    /// Records one reading of the awaited condition.
    pub fn observe(&mut self, ready: bool) -> (v: PollVerdict)
        ensures
            (v, final(self).remaining) == observe_spec(old(self).remaining, ready),
    {
        if ready {
            PollVerdict::Ready
        } else if self.remaining == 0 {
            PollVerdict::Expired
        } else {
            self.remaining = self.remaining - 1;
            PollVerdict::Pending
        }
    }
}

/// A status that never changes from "not ready" is answered `Pending` for
/// exactly `budget` observations and `Expired` on the next: a bounded wait never
/// hangs.
pub proof fn lemma_stuck_status_expires(budget: u32)
    ensures
        verdicts(budget, never_ready(budget as nat + 1)).len() == budget as nat + 1,
        forall|i: int|
            0 <= i < budget ==> #[trigger] verdicts(budget, never_ready(budget as nat + 1))[i]
                == PollVerdict::Pending,
        verdicts(budget, never_ready(budget as nat + 1))[budget as int]
            == PollVerdict::Expired,
    decreases budget,
{
    let obs = never_ready(budget as nat + 1);
    if budget == 0 {
        assert(obs.drop_first() =~= Seq::<bool>::empty());
        assert(verdicts(budget, obs.drop_first()) =~= Seq::<PollVerdict>::empty());
        assert(verdicts(budget, obs) =~= seq![PollVerdict::Expired]);
    } else {
        let b1 = (budget - 1) as u32;
        lemma_stuck_status_expires(b1);
        let rest = never_ready(b1 as nat + 1);
        assert(obs.drop_first() =~= rest);
        let vr = verdicts(b1, rest);
        assert(verdicts(budget, obs) == seq![PollVerdict::Pending].add(vr));
        assert forall|i: int| 0 <= i < budget implies #[trigger] verdicts(budget, obs)[i]
            == PollVerdict::Pending by {
            if i > 0 {
                assert(vr[i - 1] == PollVerdict::Pending);
            }
        }
    }
}

} // verus!
