//! The alert watcher: the per-alert state machine that turns each polled
//! sample into at most one change of the alert's reporter task.
use vstd::prelude::*;
use vstd::string::*;
use crate::alerts::{Alert, AlertName, AlertState, AlertThresholdValue};
use crate::httpapi::{AlertStatusChangeRequest, NotifyRequest, QueryAlertsResponse, ResolveRequest};

verus! {

/// Log target under which every alert's messages are grouped.
pub const LOG_TARGET: &'static str = "alerts_engine";

/// The log target of one alert: the engine's target, `::`, the alert's name.
pub fn log_target_alert(alert: &AlertName) -> (r: String)
    ensures
        r@ == LOG_TARGET@ + "::"@ + alert.0@,
{
    let mut target = String::from_str(LOG_TARGET);
    target.append("::");
    target.append(alert.0.as_str());
    target
}

/// Identifies a reporter task among those that one watcher has started.
#[derive(Debug, Clone, Copy, PartialEq, Eq, Structural)]
pub struct ReporterId(pub u64);

/// What a watcher asks of its runner after a sample.
#[derive(Debug)]
pub enum WatcherStep {
    /// The state did not change: nothing to do.
    Unchanged,
    /// The state changed: cancel `cancel`, if any, then start a reporter task
    /// `spawn` for `request`.
    Transition { cancel: Option<ReporterId>, spawn: ReporterId, request: AlertStatusChangeRequest },
}

/// The request that entering `state` asks for: a resolution on Pass, else a
/// repeated notification with the state's message.
pub open spec fn request_for(alert: Alert, state: AlertState) -> AlertStatusChangeRequest {
    match state {
        AlertState::Pass => AlertStatusChangeRequest::Resolve(ResolveRequest { alert_name: alert.name }),
        AlertState::Warn { message } | AlertState::Critical { message } => AlertStatusChangeRequest::Notify {
            request: NotifyRequest { alert_name: alert.name, message },
            repeat_after: alert.repeat_interval,
        },
    }
}

/// The identifier that follows `id`; after the largest comes zero.
pub open spec fn next_reporter_id(id: u64) -> u64 {
    if id == u64::MAX {
        0
    } else {
        (id + 1) as u64
    }
}

/// Watches one alert: its definition, its current state and the one reporter
/// task, if any, that is live for it.
#[derive(Debug)]
pub struct AlertWatcher {
    alert: Alert,
    state: AlertState,
    reporter: Option<ReporterId>,
    next_id: u64,
}

impl AlertWatcher {
    pub closed spec fn definition(&self) -> Alert {
        self.alert
    }

    pub closed spec fn current(&self) -> AlertState {
        self.state
    }

    /// The reporter task that is live for this alert, if any.
    pub closed spec fn live(&self) -> Option<ReporterId> {
        self.reporter
    }

    /// The live reporter task, if any, is the last one started.
    pub closed spec fn wf(&self) -> bool {
        self.reporter matches Some(h) ==> self.next_id == next_reporter_id(h.0)
    }

    /// The watcher after taking `value`, and the step it hands out.
    pub closed spec fn after_sample(self, value: AlertThresholdValue) -> (AlertWatcher, WatcherStep) {
        let new_state = self.alert.thresholds.classify(value);
        if new_state.level() == self.state.level() {
            (self, WatcherStep::Unchanged)
        } else {
            let spawn = ReporterId(self.next_id);
            (
                AlertWatcher {
                    state: new_state,
                    reporter: Some(spawn),
                    next_id: next_reporter_id(self.next_id),
                    ..self
                },
                WatcherStep::Transition {
                    cancel: self.reporter,
                    spawn,
                    request: request_for(self.alert, new_state),
                },
            )
        }
    }

    /// A watcher that has seen no sample: the alert is taken to pass, and no
    /// reporter task is live.
    pub fn new(alert: Alert) -> (r: AlertWatcher)
        ensures
            r.wf(),
            r.definition() == alert,
            r.current() == AlertState::Pass,
            r.live() == None::<ReporterId>,
    {
        AlertWatcher { alert, state: AlertState::Pass, reporter: None, next_id: 0 }
    }

    /// Takes one polled sample. When its classification differs from the
    /// current state in variant, the previous reporter task is to be cancelled
    /// and a new one, for the new state, started in its place.
    pub fn on_sample(&mut self, value: AlertThresholdValue) -> (r: WatcherStep)
        requires
            old(self).wf(),
        ensures
            final(self).wf(),
            (*final(self), r) == old(self).after_sample(value),
            final(self).definition() == old(self).definition(),
            ({
                let new_state = old(self).definition().thresholds.classify(value);
                if new_state.level() == old(self).current().level() {
                    &&& r is Unchanged
                    &&& final(self).current() == old(self).current()
                    &&& final(self).live() == old(self).live()
                } else {
                    &&& r matches WatcherStep::Transition { cancel, spawn, request } && {
                        &&& cancel == old(self).live()
                        &&& request == request_for(old(self).definition(), new_state)
                        &&& final(self).live() == Some(spawn)
                        &&& old(self).live() != Some(spawn)
                    }
                    &&& final(self).current() == new_state
                }
            }),
    {
        let new_state = self.alert.thresholds.state_for(&value);
        if new_state.same_state(&self.state) {
            return WatcherStep::Unchanged;
        }
        let request = match &new_state {
            AlertState::Pass => AlertStatusChangeRequest::Resolve(
                ResolveRequest { alert_name: self.alert.name.clone() },
            ),
            AlertState::Warn { message } | AlertState::Critical { message } => AlertStatusChangeRequest::Notify {
                request: NotifyRequest { alert_name: self.alert.name.clone(), message: message.clone() },
                repeat_after: self.alert.repeat_interval,
            },
        };
        let spawn = ReporterId(self.next_id);
        let cancel = self.reporter;
        self.next_id = self.next_id.wrapping_add(1);
        self.reporter = Some(spawn);
        self.state = new_state;
        WatcherStep::Transition { cancel, spawn, request }
    }

    pub fn alert(&self) -> (r: &Alert)
        ensures
            *r == self.definition(),
    {
        &self.alert
    }

    pub fn state(&self) -> (r: &AlertState)
        ensures
            *r == self.current(),
    {
        &self.state
    }

    pub fn live_reporter(&self) -> (r: Option<ReporterId>)
        ensures
            r == self.live(),
    {
        self.reporter
    }

    /// Stops watching: the live reporter task, if any, is handed back to be
    /// cancelled, and none is live afterwards.
    pub fn stop(&mut self) -> (r: Option<ReporterId>)
        ensures
            final(self).wf(),
            r == old(self).live(),
            final(self).live() == None::<ReporterId>,
            final(self).definition() == old(self).definition(),
            final(self).current() == old(self).current(),
    {
        let r = self.reporter;
        self.reporter = None;
        r
    }
}

/// The watcher after taking `samples` in order, and the steps it handed out.
pub open spec fn replay(w: AlertWatcher, samples: Seq<AlertThresholdValue>) -> (AlertWatcher, Seq<WatcherStep>)
    decreases samples.len(),
{
    if samples.len() == 0 {
        (w, Seq::empty())
    } else {
        let (w1, steps) = replay(w, samples.drop_last());
        let (w2, step) = w1.after_sample(samples.last());
        (w2, steps.push(step))
    }
}

/// How many reporter tasks `steps` start.
pub open spec fn started(steps: Seq<WatcherStep>) -> nat
    decreases steps.len(),
{
    if steps.len() == 0 {
        0
    } else {
        started(steps.drop_last()) + if steps.last() is Transition {
            1nat
        } else {
            0nat
        }
    }
}

/// How many reporter tasks `steps` cancel.
pub open spec fn cancelled(steps: Seq<WatcherStep>) -> nat
    decreases steps.len(),
{
    if steps.len() == 0 {
        0
    } else {
        cancelled(steps.drop_last()) + if steps.last() matches WatcherStep::Transition {
            cancel: Some(_),
            ..
        } {
            1nat
        } else {
            0nat
        }
    }
}

/// One if a reporter task is live for the watcher, else zero.
pub open spec fn live_count(w: AlertWatcher) -> nat {
    if w.live() is Some {
        1
    } else {
        0
    }
}

/// At most one reporter task is live per alert at any time: over any sequence
/// of samples, each started task but the live one is cancelled, each
/// transition cancels the task that was live before it, and the task it starts
/// is the one live after it.
pub proof fn lemma_one_live_reporter(w: AlertWatcher, samples: Seq<AlertThresholdValue>)
    ensures
        ({
            let (w2, steps) = replay(w, samples);
            &&& steps.len() == samples.len()
            &&& started(steps) + live_count(w) == cancelled(steps) + live_count(w2)
            &&& w2.definition() == w.definition()
            &&& w.live() is None ==> started(steps) == cancelled(steps) + live_count(w2)
            &&& forall|i: int|
                #![trigger steps[i]]
                0 <= i < steps.len() ==> {
                let before = replay(w, samples.take(i)).0;
                let after = replay(w, samples.take(i + 1)).0;
                steps[i] matches WatcherStep::Transition { cancel, spawn, .. } ==> {
                    &&& cancel == before.live()
                    &&& after.live() == Some(spawn)
                }
            }
        }),
    decreases samples.len(),
{
    if samples.len() > 0 {
        let rest = samples.drop_last();
        lemma_one_live_reporter(w, rest);
        let (w1, steps1) = replay(w, rest);
        let (w2, step) = w1.after_sample(samples.last());
        let steps = steps1.push(step);
        assert(steps.drop_last() =~= steps1);
        assert forall|i: int|
            #![trigger steps[i]]
            0 <= i < steps.len() implies {
            let before = replay(w, samples.take(i)).0;
            let after = replay(w, samples.take(i + 1)).0;
            steps[i] matches WatcherStep::Transition { cancel, spawn, .. } ==> {
                &&& cancel == before.live()
                &&& after.live() == Some(spawn)
            }
        } by {
            if i < steps1.len() {
                assert(samples.take(i) =~= rest.take(i));
                assert(samples.take(i + 1) =~= rest.take(i + 1));
                assert(steps[i] == steps1[i]);
            } else {
                assert(samples.take(i) =~= rest);
                assert(samples.take(i + 1) =~= samples);
            }
        }
    }
}

/// One fresh watcher per fetched alert, in the order the alerts came.
pub fn watchers_for(response: QueryAlertsResponse) -> (r: Vec<AlertWatcher>)
    ensures
        r@.len() == response.alerts@.len(),
        forall|i: int|
            #![trigger r@[i]]
            0 <= i < r@.len() ==> {
                &&& r@[i].wf()
                &&& r@[i].definition() == response.alerts@[i]
                &&& r@[i].current() == AlertState::Pass
                &&& r@[i].live() == None::<ReporterId>
            },
{
    let mut alerts = response.alerts;
    let ghost all = alerts@;
    let mut watchers: Vec<AlertWatcher> = Vec::new();
    while alerts.len() > 0
        invariant
            watchers@.len() + alerts@.len() == all.len(),
            alerts@ == all.subrange(watchers@.len() as int, all.len() as int),
            forall|i: int|
                #![trigger watchers@[i]]
                0 <= i < watchers@.len() ==> {
                    &&& watchers@[i].wf()
                    &&& watchers@[i].definition() == all[i]
                    &&& watchers@[i].current() == AlertState::Pass
                    &&& watchers@[i].live() == None::<ReporterId>
                },
        decreases alerts@.len(),
    {
        let alert = alerts.remove(0);
        watchers.push(AlertWatcher::new(alert));
        assert(alerts@ =~= all.subrange(watchers@.len() as int, all.len() as int));
    }
    watchers
}

} // verus!
