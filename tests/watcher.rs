use alert_engine::alerts::{Alert, AlertMessage, AlertName, AlertState, AlertThreshold, AlertThresholdValue, AlertThresholds, QueryName};
use alert_engine::engine::{log_target_alert, watchers_for, AlertWatcher, ReporterId, WatcherStep};
use alert_engine::httpapi::{AlertStatusChangeRequest, QueryAlertsResponse};

fn alert(name: &str, interval: u64) -> Alert {
    Alert {
        name: AlertName(name.to_string()),
        query: QueryName(format!("{}_query", name)),
        interval,
        repeat_interval: 60_000,
        thresholds: AlertThresholds {
            warn: AlertThreshold { message: AlertMessage("W".to_string()), value: AlertThresholdValue(50) },
            critical: AlertThreshold { message: AlertMessage("C".to_string()), value: AlertThresholdValue(90) },
        },
    }
}

#[test]
fn poll_sequence_transitions() {
    let mut w = AlertWatcher::new(alert("cpu", 1_000));
    let mut spawns = 0;
    let mut cancels = 0;
    let mut states = Vec::new();
    let mut live: Option<ReporterId> = None;
    for v in [10, 60, 95, 95, 40] {
        match w.on_sample(AlertThresholdValue(v)) {
            WatcherStep::Unchanged => {}
            WatcherStep::Transition { cancel, spawn, request } => {
                assert_eq!(cancel, live);
                if cancel.is_some() {
                    cancels += 1;
                }
                assert_ne!(Some(spawn), cancel);
                spawns += 1;
                live = Some(spawn);
                match (w.state(), request) {
                    (AlertState::Pass, AlertStatusChangeRequest::Resolve(r)) => assert_eq!(r.alert_name.0, "cpu"),
                    (AlertState::Warn { .. }, AlertStatusChangeRequest::Notify { request, repeat_after }) => {
                        assert_eq!(request.message, AlertMessage("W".to_string()));
                        assert_eq!(repeat_after, 60_000);
                    }
                    (AlertState::Critical { .. }, AlertStatusChangeRequest::Notify { request, repeat_after }) => {
                        assert_eq!(request.message, AlertMessage("C".to_string()));
                        assert_eq!(repeat_after, 60_000);
                    }
                    (s, _) => panic!("request does not match state {:?}", s),
                }
            }
        }
        assert_eq!(w.live_reporter(), live);
        states.push(match w.state() {
            AlertState::Pass => "pass",
            AlertState::Warn { .. } => "warn",
            AlertState::Critical { .. } => "critical",
        });
    }
    assert_eq!(states, vec!["pass", "warn", "critical", "critical", "pass"]);
    assert_eq!(spawns, 3);
    assert_eq!(cancels, 2);
}

#[test]
fn first_sample_in_pass_starts_nothing() {
    let mut w = AlertWatcher::new(alert("cpu", 1_000));
    assert!(matches!(w.on_sample(AlertThresholdValue(0)), WatcherStep::Unchanged));
    assert_eq!(w.live_reporter(), None);
}

#[test]
fn first_sample_above_threshold_starts_a_reporter() {
    let mut w = AlertWatcher::new(alert("cpu", 1_000));
    match w.on_sample(AlertThresholdValue(99)) {
        WatcherStep::Transition { cancel, spawn, .. } => {
            assert_eq!(cancel, None);
            assert_eq!(w.live_reporter(), Some(spawn));
        }
        WatcherStep::Unchanged => panic!("expected a transition"),
    }
}

#[test]
fn fatal_error_in_one_alert_leaves_the_other_polling() {
    let mut a = AlertWatcher::new(alert("a", 1_000));
    let mut b = AlertWatcher::new(alert("b", 3_000));
    assert!(matches!(a.on_sample(AlertThresholdValue(95)), WatcherStep::Transition { .. }));
    assert!(matches!(b.on_sample(AlertThresholdValue(60)), WatcherStep::Transition { .. }));
    // a's query fails fatally: a stops and hands back its live reporter
    let a_live = a.live_reporter();
    assert!(a_live.is_some());
    assert_eq!(a.stop(), a_live);
    assert_eq!(a.live_reporter(), None);
    // b goes on polling and reacting
    assert!(matches!(b.on_sample(AlertThresholdValue(61)), WatcherStep::Unchanged));
    assert!(matches!(b.on_sample(AlertThresholdValue(95)), WatcherStep::Transition { .. }));
    assert!(matches!(b.state(), AlertState::Critical { .. }));
    assert!(b.live_reporter().is_some());
}

#[test]
fn stop_without_reporter_cancels_nothing() {
    let mut w = AlertWatcher::new(alert("cpu", 1_000));
    assert_eq!(w.stop(), None);
}

#[test]
fn log_target_names_the_alert() {
    assert_eq!(log_target_alert(&AlertName("cpu".to_string())), "alerts_engine::cpu");
}

#[test]
fn one_watcher_per_alert_in_order() {
    let ws = watchers_for(QueryAlertsResponse { alerts: vec![alert("a", 1), alert("b", 2), alert("c", 3)] });
    let names: Vec<&str> = ws.iter().map(|w| w.alert().name.0.as_str()).collect();
    assert_eq!(names, vec!["a", "b", "c"]);
    assert!(ws.iter().all(|w| *w.state() == AlertState::Pass && w.live_reporter().is_none()));
}

#[test]
fn empty_alert_set_gives_no_watchers() {
    assert!(watchers_for(QueryAlertsResponse { alerts: vec![] }).is_empty());
}
