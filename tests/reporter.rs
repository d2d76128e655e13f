use alert_engine::alerts::{AlertMessage, AlertName};
use alert_engine::httpapi::{AlertStatusChangeRequest, NotifyRequest, ResolveRequest};
use alert_engine::reporter::{ReporterStep, ReporterTask};

fn notify_request() -> NotifyRequest {
    NotifyRequest { alert_name: AlertName("disk".to_string()), message: AlertMessage("full".to_string()) }
}

/// Runs a task on a simulated clock; returns the times of its calls.
fn call_times(task: &mut ReporterTask, max_steps: usize) -> (Vec<u64>, Vec<u64>, bool) {
    let mut now: u64 = 0;
    let mut notifies = Vec::new();
    let mut resolves = Vec::new();
    for _ in 0..max_steps {
        match task.step(false) {
            ReporterStep::Notify(r) => {
                assert_eq!(r.alert_name.0, "disk");
                notifies.push(now);
            }
            ReporterStep::Resolve(r) => {
                assert_eq!(r.alert_name.0, "disk");
                resolves.push(now);
            }
            ReporterStep::Sleep(ms) => now += ms,
            ReporterStep::Finished => return (notifies, resolves, true),
        }
    }
    (notifies, resolves, false)
}

#[test]
fn notify_repeats_every_interval() {
    let mut task = ReporterTask::new(AlertStatusChangeRequest::Notify { request: notify_request(), repeat_after: 30_000 });
    let (notifies, resolves, finished) = call_times(&mut task, 5);
    assert_eq!(notifies, vec![0, 30_000, 60_000]);
    assert!(resolves.is_empty());
    assert!(!finished);
}

#[test]
fn notify_carries_the_message() {
    let mut task = ReporterTask::new(AlertStatusChangeRequest::Notify { request: notify_request(), repeat_after: 5 });
    match task.step(false) {
        ReporterStep::Notify(r) => assert_eq!(r.message, AlertMessage("full".to_string())),
        other => panic!("unexpected step {:?}", other),
    }
    assert!(matches!(task.step(false), ReporterStep::Sleep(5)));
}

#[test]
fn resolve_happens_once() {
    let mut task = ReporterTask::new(AlertStatusChangeRequest::Resolve(ResolveRequest { alert_name: AlertName("disk".to_string()) }));
    let (notifies, resolves, finished) = call_times(&mut task, 10);
    assert_eq!(resolves, vec![0]);
    assert!(notifies.is_empty());
    assert!(finished);
    assert!(matches!(task.step(false), ReporterStep::Finished));
}

#[test]
fn cancelled_notify_stops_before_next_call() {
    let mut task = ReporterTask::new(AlertStatusChangeRequest::Notify { request: notify_request(), repeat_after: 10 });
    assert!(matches!(task.step(false), ReporterStep::Notify(_)));
    assert!(matches!(task.step(true), ReporterStep::Finished));
    assert!(matches!(task.step(false), ReporterStep::Finished));
}

#[test]
fn cancelled_before_start_never_calls() {
    let mut task = ReporterTask::new(AlertStatusChangeRequest::Resolve(ResolveRequest { alert_name: AlertName("disk".to_string()) }));
    assert!(matches!(task.step(true), ReporterStep::Finished));
    assert!(matches!(task.step(false), ReporterStep::Finished));
}
