//! Retry delays: a schedule that saturates at its last entry, and the retry
//! policy built on it.
use vstd::prelude::*;

verus! {

/// Whether the delays never decrease along the sequence.
pub open spec fn non_decreasing(s: Seq<u64>) -> bool {
    forall|i: int, j: int| 0 <= i <= j < s.len() ==> s[i] <= s[j]
}

/// A non-empty, non-decreasing sequence of delays (in milliseconds) with a
/// cursor. Advancing returns the delay under the cursor and moves the cursor
/// one step, never past the last entry.
#[derive(Debug)]
pub struct BackoffSchedule {
    schedule: Vec<u64>,
    current_idx: usize,
}

impl BackoffSchedule {
    /// The configured delays.
    pub closed spec fn entries(&self) -> Seq<u64> {
        self.schedule@
    }

    /// Position of the next delay.
    pub closed spec fn cursor(&self) -> nat {
        self.current_idx as nat
    }

    pub open spec fn wf(&self) -> bool {
        &&& self.entries().len() > 0
        &&& self.cursor() < self.entries().len()
        &&& non_decreasing(self.entries())
    }

    /// The largest configured delay.
    pub open spec fn max_entry(&self) -> u64 {
        self.entries().last()
    }

    /// The delay that the `k`-th next call of `advance` returns.
    pub open spec fn duration_at(&self, k: nat) -> u64 {
        let i = self.cursor() + k;
        let last = (self.entries().len() - 1) as nat;
        if i <= last {
            self.entries()[i as int]
        } else {
            self.entries()[last as int]
        }
    }

    /// A schedule over the given delays, starting at the first. `None` when the
    /// delays are empty or decrease somewhere.
    pub fn new(schedule: Vec<u64>) -> (r: Option<BackoffSchedule>)
        ensures
            r.is_some() <==> schedule@.len() > 0 && non_decreasing(schedule@),
            r matches Some(s) ==> s.wf() && s.entries() == schedule@ && s.cursor() == 0,
    {
        if schedule.len() == 0 {
            return None;
        }
        let mut k: usize = 1;
        while k < schedule.len()
            invariant
                1 <= k <= schedule@.len(),
                non_decreasing(schedule@.subrange(0, k as int)),
            decreases schedule@.len() - k,
        {
            if schedule[k - 1] > schedule[k] {
                assert(!non_decreasing(schedule@));
                return None;
            }
            assert(non_decreasing(schedule@.subrange(0, k + 1))) by {
                let t = schedule@.subrange(0, k + 1);
                assert forall|i: int, j: int| 0 <= i <= j < t.len() implies t[i] <= t[j] by {
                    if j < k {
                        assert(t[i] == schedule@.subrange(0, k as int)[i]);
                        assert(t[j] == schedule@.subrange(0, k as int)[j]);
                    } else if i < j {
                        assert(t[i] == schedule@.subrange(0, k as int)[i]);
                        assert(t[k - 1] == schedule@.subrange(0, k as int)[k - 1]);
                    }
                }
            }
            k = k + 1;
        }
        assert(schedule@.subrange(0, schedule@.len() as int) =~= schedule@);
        Some(BackoffSchedule { schedule, current_idx: 0 })
    }

    /// Returns the delay under the cursor and moves the cursor by one,
    /// clamped to the last entry.
    pub fn advance(&mut self) -> (r: u64)
        requires
            old(self).wf(),
        ensures
            final(self).wf(),
            final(self).entries() == old(self).entries(),
            r == old(self).duration_at(0),
            r == old(self).entries()[old(self).cursor() as int],
            final(self).cursor() == if old(self).cursor() + 1 < old(self).entries().len() {
                old(self).cursor() + 1
            } else {
                old(self).cursor()
            },
            forall|k: nat| final(self).duration_at(k) == old(self).duration_at(k + 1),
    {
        let duration = self.schedule[self.current_idx];
        let last = self.schedule.len() - 1;
        self.current_idx = if self.current_idx < last {
            self.current_idx + 1
        } else {
            last
        };
        duration
    }
}

impl Clone for BackoffSchedule {
    fn clone(&self) -> (r: BackoffSchedule)
        ensures
            r.entries() == self.entries(),
            r.cursor() == self.cursor(),
    {
        let mut schedule: Vec<u64> = Vec::new();
        let mut i: usize = 0;
        while i < self.schedule.len()
            invariant
                i <= self.schedule@.len(),
                schedule@ == self.schedule@.subrange(0, i as int),
            decreases self.schedule@.len() - i,
        {
            schedule.push(self.schedule[i]);
            i = i + 1;
        }
        assert(schedule@ =~= self.schedule@);
        BackoffSchedule { schedule, current_idx: self.current_idx }
    }
}

impl Default for BackoffSchedule {
    /// 100 ms, 250 ms, 500 ms, 1 s, 2 s; the last repeats.
    fn default() -> (r: BackoffSchedule)
        ensures
            r.wf(),
            r.entries() == seq![100u64, 250, 500, 1000, 2000],
            r.cursor() == 0,
    {
        let r = BackoffSchedule { schedule: vec![100u64, 250, 500, 1000, 2000], current_idx: 0 };
        assert(r.entries() =~= seq![100u64, 250, 500, 1000, 2000]);
        r
    }
}

/// The delays returned by successive calls of `advance` never exceed the
/// largest configured delay, and never decrease.
pub proof fn lemma_advance_bounded_and_non_decreasing(s: BackoffSchedule, i: nat, j: nat)
    requires
        s.wf(),
        i <= j,
    ensures
        s.duration_at(i) <= s.duration_at(j),
        s.duration_at(j) <= s.max_entry(),
        forall|k: int| 0 <= k < s.entries().len() ==> s.entries()[k] <= s.max_entry(),
{
}

/// Retry policy that retries failed calls forever, waiting between attempts
/// as a fresh schedule prescribes.
#[derive(Debug)]
pub struct InfiniteRetries(pub BackoffSchedule);

impl Clone for InfiniteRetries {
    fn clone(&self) -> (r: InfiniteRetries)
        ensures
            r.0.entries() == self.0.entries(),
            r.0.cursor() == self.0.cursor(),
    {
        InfiniteRetries(self.0.clone())
    }
}

impl Default for InfiniteRetries {
    fn default() -> (r: InfiniteRetries)
        ensures
            r.0.wf(),
            r.0.entries() == seq![100u64, 250, 500, 1000, 2000],
            r.0.cursor() == 0,
    {
        InfiniteRetries(BackoffSchedule::default())
    }
}

/// How a call to the remote service ended, as far as retrying goes.
#[derive(Debug, Clone, Copy, PartialEq, Eq, Structural)]
pub enum CallOutcome {
    /// The call succeeded.
    Success,
    /// The call failed in a way that a later attempt may not (a network
    /// error, a non-success status).
    Transient,
    /// The call failed in a way that no later attempt mends (a response that
    /// cannot be read).
    Fatal,
}

impl InfiniteRetries {
    /// Decides what follows a call: nothing after a success or a fatal
    /// failure; after a transient failure, a wait of the next scheduled delay
    /// and the policy for the attempt after that. There is no limit on the
    /// number of retries. The policy itself is left as it was.
    pub fn retry(&self, outcome: CallOutcome) -> (r: Option<(u64, InfiniteRetries)>)
        requires
            self.0.wf(),
        ensures
            r.is_some() <==> outcome == CallOutcome::Transient,
            r matches Some((wait, next)) ==> {
                &&& wait == self.0.duration_at(0)
                &&& wait == self.0.entries()[self.0.cursor() as int]
                &&& next.0.wf()
                &&& next.0.entries() == self.0.entries()
                &&& next.0.cursor() == if self.0.cursor() + 1 < self.0.entries().len() {
                    self.0.cursor() + 1
                } else {
                    self.0.cursor()
                }
                &&& forall|k: nat| next.0.duration_at(k) == self.0.duration_at(k + 1)
            },
    {
        match outcome {
            CallOutcome::Transient => {
                let mut schedule = self.0.clone();
                let sleep_for = schedule.advance();
                Some((sleep_for, InfiniteRetries(schedule)))
            },
            CallOutcome::Success | CallOutcome::Fatal => None,
        }
    }
}

} // verus!
