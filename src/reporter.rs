//! The reporter task: the background work started on a state change, as a
//! state machine that hands out one action at a time.
use vstd::prelude::*;
use crate::httpapi::{AlertStatusChangeRequest, NotifyRequest, ResolveRequest};

verus! {

/// Where a reporter task stands.
#[derive(Debug, Clone, Copy, PartialEq, Eq, Structural)]
pub enum ReporterPhase {
    /// The next action is a call to the remote service.
    Call,
    /// The next action is the wait before the next notification.
    Wait,
    /// The task has ended.
    Done,
}

/// The next thing a reporter task asks its runner to do.
#[derive(Debug)]
pub enum ReporterStep {
    Notify(NotifyRequest),
    Resolve(ResolveRequest),
    /// Wait this many milliseconds.
    Sleep(u64),
    /// The task has ended; nothing more will be asked.
    Finished,
}

/// A cancellable background unit of work: either one resolution, or a
/// notification repeated at a fixed interval until cancelled.
#[derive(Debug)]
pub struct ReporterTask {
    pub request: AlertStatusChangeRequest,
    pub phase: ReporterPhase,
}

/// The task after one step and the step it hands out. A cancelled task ends
/// at once, before any further call or wait.
pub open spec fn next(t: ReporterTask, cancelled: bool) -> (ReporterTask, ReporterStep) {
    if cancelled || t.phase == ReporterPhase::Done {
        (ReporterTask { phase: ReporterPhase::Done, ..t }, ReporterStep::Finished)
    } else {
        match t.request {
            AlertStatusChangeRequest::Resolve(req) => {
                if t.phase == ReporterPhase::Call {
                    (ReporterTask { phase: ReporterPhase::Done, ..t }, ReporterStep::Resolve(req))
                } else {
                    (ReporterTask { phase: ReporterPhase::Done, ..t }, ReporterStep::Finished)
                }
            },
            AlertStatusChangeRequest::Notify { request, repeat_after } => {
                if t.phase == ReporterPhase::Call {
                    (ReporterTask { phase: ReporterPhase::Wait, ..t }, ReporterStep::Notify(request))
                } else {
                    (ReporterTask { phase: ReporterPhase::Call, ..t }, ReporterStep::Sleep(repeat_after))
                }
            },
        }
    }
}

/// The first `n` steps of a task that is never cancelled.
pub open spec fn run(t: ReporterTask, n: nat) -> Seq<ReporterStep>
    decreases n,
{
    if n == 0 {
        Seq::empty()
    } else {
        let (t2, s) = next(t, false);
        seq![s] + run(t2, (n - 1) as nat)
    }
}

/// Total time waited over a sequence of steps.
pub open spec fn time_waited(steps: Seq<ReporterStep>) -> int
    decreases steps.len(),
{
    if steps.len() == 0 {
        0
    } else {
        time_waited(steps.drop_last()) + match steps.last() {
            ReporterStep::Sleep(ms) => ms as int,
            _ => 0,
        }
    }
}

impl ReporterTask {
    /// A task that has not run yet.
    pub fn new(request: AlertStatusChangeRequest) -> (r: ReporterTask)
        ensures
            r.request == request,
            r.phase == ReporterPhase::Call,
    {
        ReporterTask { request, phase: ReporterPhase::Call }
    }

    /// Hands out the next step; `cancelled` tells whether the task was asked
    /// to stop since the last step.
    pub fn step(&mut self, cancelled: bool) -> (r: ReporterStep)
        ensures
            (*final(self), r) == next(*old(self), cancelled),
    {
        if cancelled {
            self.phase = ReporterPhase::Done;
            return ReporterStep::Finished;
        }
        match self.phase {
            ReporterPhase::Done => {
                self.phase = ReporterPhase::Done;
                ReporterStep::Finished
            },
            ReporterPhase::Call => match &self.request {
                AlertStatusChangeRequest::Resolve(req) => {
                    let req = req.clone();
                    self.phase = ReporterPhase::Done;
                    ReporterStep::Resolve(req)
                },
                AlertStatusChangeRequest::Notify { request, .. } => {
                    let request = request.clone();
                    self.phase = ReporterPhase::Wait;
                    ReporterStep::Notify(request)
                },
            },
            ReporterPhase::Wait => match &self.request {
                AlertStatusChangeRequest::Resolve(_) => {
                    self.phase = ReporterPhase::Done;
                    ReporterStep::Finished
                },
                AlertStatusChangeRequest::Notify { repeat_after, .. } => {
                    let wait = *repeat_after;
                    self.phase = ReporterPhase::Call;
                    ReporterStep::Sleep(wait)
                },
            },
        }
    }
}

/// Whether `steps` alternates a notification with `request` and a wait of
/// `repeat_after`, starting with the notification.
pub open spec fn heartbeat(steps: Seq<ReporterStep>, request: NotifyRequest, repeat_after: u64) -> bool {
    forall|i: int|
        0 <= i < steps.len() ==> steps[i] == (if i % 2 == 0 {
            ReporterStep::Notify(request)
        } else {
            ReporterStep::Sleep(repeat_after)
        })
}

proof fn lemma_notify_cycle(t: ReporterTask, request: NotifyRequest, repeat_after: u64, n: nat)
    requires
        t.request == (AlertStatusChangeRequest::Notify { request, repeat_after }),
        t.phase == ReporterPhase::Call,
    ensures
        run(t, n + 2) == seq![ReporterStep::Notify(request), ReporterStep::Sleep(repeat_after)] + run(t, n),
{
    let (t2, s1) = next(t, false);
    let (t3, s2) = next(t2, false);
    assert(t3 == t);
    assert(run(t, n + 2) == seq![s1] + run(t2, n + 1));
    assert(run(t2, n + 1) == seq![s2] + run(t3, n));
    assert(run(t, n + 2) =~= seq![s1, s2] + run(t, n));
}

proof fn lemma_notify_run(t: ReporterTask, request: NotifyRequest, repeat_after: u64, m: nat)
    requires
        t.request == (AlertStatusChangeRequest::Notify { request, repeat_after }),
        t.phase == ReporterPhase::Call,
    ensures
        run(t, m).len() == m,
        heartbeat(run(t, m), request, repeat_after),
    decreases m,
{
    if m == 0 {
    } else if m == 1 {
        assert(run(next(t, false).0, 0) == Seq::<ReporterStep>::empty());
        assert(run(t, 1) =~= seq![ReporterStep::Notify(request)]);
    } else {
        let k = (m - 2) as nat;
        lemma_notify_run(t, request, repeat_after, k);
        lemma_notify_cycle(t, request, repeat_after, k);
        assert forall|i: int| 0 <= i < run(t, m).len() implies run(t, m)[i] == (if i % 2 == 0 {
            ReporterStep::Notify(request)
        } else {
            ReporterStep::Sleep(repeat_after)
        }) by {
            if i >= 2 {
                assert(run(t, m)[i] == run(t, k)[i - 2]);
                assert((i - 2) % 2 == i % 2);
            }
        }
    }
}

proof fn lemma_heartbeat_time(steps: Seq<ReporterStep>, request: NotifyRequest, repeat_after: u64, k: nat)
    requires
        heartbeat(steps, request, repeat_after),
        2 * k <= steps.len(),
    ensures
        time_waited(steps.take(2 * k as int)) == k * repeat_after,
    decreases k,
{
    if k == 0 {
        assert(steps.take(0).len() == 0);
    } else {
        let j = (k - 1) as nat;
        lemma_heartbeat_time(steps, request, repeat_after, j);
        let a = steps.take(2 * k as int);
        let b = steps.take(2 * k - 1);
        assert(a.drop_last() =~= b);
        assert(b.drop_last() =~= steps.take(2 * j as int));
        assert(a.last() == steps[2 * k - 1]);
        assert((2 * k - 1) % 2 == 1);
        assert(b.last() == steps[2 * j as int]);
        assert((2 * j) % 2 == 0);
        assert(steps[2 * k - 1] == ReporterStep::Sleep(repeat_after));
        assert(steps[2 * j as int] == ReporterStep::Notify(request));
        assert(time_waited(b) == time_waited(steps.take(2 * j as int)));
        assert(time_waited(a) == time_waited(b) + repeat_after);
        assert(k * repeat_after == j * repeat_after + repeat_after) by (nonlinear_arith)
            requires
                k == j + 1,
        ;
    }
}

/// A notifying task that is started and never cancelled notifies, waits the
/// repeat interval, notifies again, and so on without end: over its first
/// `2 * n` steps, each even step `i` is the notification, the step after it
/// is the wait, and it comes after `i / 2` waits of the repeat interval, so at
/// time `(i / 2) * repeat_after`.
pub proof fn lemma_notify_repeats(request: NotifyRequest, repeat_after: u64, n: nat)
    ensures
        ({
            let t = ReporterTask {
                request: AlertStatusChangeRequest::Notify { request, repeat_after },
                phase: ReporterPhase::Call,
            };
            let steps = run(t, 2 * n);
            &&& steps.len() == 2 * n
            &&& forall|i: int|
                0 <= i < steps.len() && i % 2 == 0 ==> {
                    &&& #[trigger] steps[i] == ReporterStep::Notify(request)
                    &&& steps[i + 1] == ReporterStep::Sleep(repeat_after)
                    &&& time_waited(steps.take(i)) == (i / 2) * repeat_after
                }
        }),
{
    let t = ReporterTask {
        request: AlertStatusChangeRequest::Notify { request, repeat_after },
        phase: ReporterPhase::Call,
    };
    let steps = run(t, 2 * n);
    lemma_notify_run(t, request, repeat_after, 2 * n);
    assert forall|i: int| 0 <= i < steps.len() && i % 2 == 0 implies {
        &&& #[trigger] steps[i] == ReporterStep::Notify(request)
        &&& steps[i + 1] == ReporterStep::Sleep(repeat_after)
        &&& time_waited(steps.take(i)) == (i / 2) * repeat_after
    } by {
        let k = (i / 2) as nat;
        assert(2 * k == i);
        assert((i + 1) % 2 == 1);
        lemma_heartbeat_time(steps, request, repeat_after, k);
    }
}

proof fn lemma_done_run(t: ReporterTask, m: nat)
    requires
        t.phase == ReporterPhase::Done,
    ensures
        run(t, m).len() == m,
        forall|i: int| 0 <= i < m ==> run(t, m)[i] == ReporterStep::Finished,
    decreases m,
{
    if m > 0 {
        let k = (m - 1) as nat;
        lemma_done_run(next(t, false).0, k);
        assert forall|i: int| 0 <= i < m implies run(t, m)[i] == ReporterStep::Finished by {
            if i > 0 {
                assert(run(t, m)[i] == run(next(t, false).0, k)[i - 1]);
            }
        }
    }
}

/// A resolving task resolves once and then ends: of its first `n` steps the
/// first is the resolution and every later one is `Finished`.
pub proof fn lemma_resolve_once(request: ResolveRequest, n: nat)
    requires
        n > 0,
    ensures
        ({
            let t = ReporterTask {
                request: AlertStatusChangeRequest::Resolve(request),
                phase: ReporterPhase::Call,
            };
            let steps = run(t, n);
            &&& steps.len() == n
            &&& steps[0] == ReporterStep::Resolve(request)
            &&& forall|i: int| 1 <= i < n ==> steps[i] == ReporterStep::Finished
        }),
{
    let t = ReporterTask {
        request: AlertStatusChangeRequest::Resolve(request),
        phase: ReporterPhase::Call,
    };
    let (t2, s) = next(t, false);
    lemma_done_run(t2, (n - 1) as nat);
    let steps = run(t, n);
    assert(steps == seq![s] + run(t2, (n - 1) as nat));
    assert forall|i: int| 1 <= i < n implies steps[i] == ReporterStep::Finished by {
        assert(steps[i] == run(t2, (n - 1) as nat)[i - 1]);
    }
}

} // verus!
