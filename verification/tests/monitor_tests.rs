use minosse::enforce::RecordingEnforcer;
use minosse::monitor::Monitor;
use minosse::monitor::MonitorError;
use minosse::monitor::MonitorPhase;
use minosse::monitor::WatchEvent;
use minosse::ProcessInfo;
use minosse::ProcessPriority;
use minosse::ProcessRule;
use minosse::ProcessRuleSet;

fn notepad_rule_set() -> ProcessRuleSet {
    ProcessRuleSet {
        rules: vec![ProcessRule {
            pattern: "notepad".to_string(),
            priority: Some(ProcessPriority::Low),
            core_affinity: Some(vec![0]),
        }],
    }
}

#[test]
fn monitor_runs_sweep_then_watches_then_shuts_down_cleanly() {
    let mut monitor = Monitor::new(notepad_rule_set());
    assert_eq!(monitor.phase, MonitorPhase::Initializing);

    assert_eq!(monitor.on_subscription(true), Ok(()));
    assert_eq!(monitor.phase, MonitorPhase::Sweeping);

    let mut enforcer = RecordingEnforcer::new(8, vec![]);
    let snapshot = vec![
        ProcessInfo::new(1, "notepad.exe".to_string()),
        ProcessInfo::new(2, "calc.exe".to_string()),
    ];
    let diagnostics = monitor.sweep(&snapshot, &mut enforcer);
    assert_eq!(diagnostics.len(), 2);
    assert_eq!(monitor.phase, MonitorPhase::Watching);
    assert_eq!(enforcer.calls.len(), 2);

    let live = ProcessInfo::new(3, "notepad2.exe".to_string());
    let live_diagnostics = monitor.on_event(WatchEvent::Live(live), &mut enforcer);
    assert_eq!(live_diagnostics.len(), 1);
    assert_eq!(monitor.phase, MonitorPhase::Watching);
    assert_eq!(enforcer.calls.len(), 4);

    let calls_before_shutdown = enforcer.calls.clone();
    let shutdown_diagnostics = monitor.on_event(WatchEvent::Shutdown, &mut enforcer);
    assert!(shutdown_diagnostics.is_empty());
    assert_eq!(monitor.phase, MonitorPhase::ShuttingDown);
    assert_eq!(enforcer.calls, calls_before_shutdown);

    assert_eq!(monitor.finish(), Ok(()));
    assert_eq!(monitor.phase, MonitorPhase::Terminated);
    assert_eq!(enforcer.calls, calls_before_shutdown);
}

#[test]
fn monitor_subscription_failure_is_fatal_before_sweeping() {
    let mut monitor = Monitor::new(notepad_rule_set());
    assert_eq!(monitor.on_subscription(false), Err(MonitorError::SubscriptionFailed));
    assert_eq!(monitor.phase, MonitorPhase::Terminated);
}

#[test]
fn monitor_feed_error_reports_upward() {
    let mut monitor = Monitor::new(notepad_rule_set());
    monitor.on_subscription(true).unwrap();
    let mut enforcer = RecordingEnforcer::new(8, vec![]);
    let _ = monitor.sweep(&vec![], &mut enforcer);

    let diagnostics = monitor.on_event(WatchEvent::FeedError, &mut enforcer);
    assert!(diagnostics.is_empty());
    assert_eq!(monitor.phase, MonitorPhase::ShuttingDown);
    assert_eq!(monitor.finish(), Err(MonitorError::FeedFailed));
    assert_eq!(monitor.phase, MonitorPhase::Terminated);
}

#[test]
fn snapshot_and_live_sources_give_identical_results() {
    let process_id = 21;
    let name = "notepad.exe";

    let mut swept = Monitor::new(notepad_rule_set());
    swept.on_subscription(true).unwrap();
    let mut sweep_enforcer = RecordingEnforcer::new(8, vec![]);
    let sweep_diagnostics = swept.sweep(
        &vec![ProcessInfo::new(process_id, name.to_string())],
        &mut sweep_enforcer,
    );

    let mut watched = Monitor::new(notepad_rule_set());
    watched.on_subscription(true).unwrap();
    let mut live_enforcer = RecordingEnforcer::new(8, vec![]);
    let _ = watched.sweep(&vec![], &mut live_enforcer);
    let live_diagnostics = watched.on_event(
        WatchEvent::Live(ProcessInfo::new(process_id, name.to_string())),
        &mut live_enforcer,
    );

    assert_eq!(sweep_enforcer.calls, live_enforcer.calls);
    assert_eq!(sweep_diagnostics.len(), 1);
    assert_eq!(sweep_diagnostics[0], live_diagnostics);
}

#[test]
fn empty_rule_set_monitors_as_a_no_op() {
    let mut monitor = Monitor::new(ProcessRuleSet::default());
    monitor.on_subscription(true).unwrap();
    let mut enforcer = RecordingEnforcer::new(8, vec![]);
    let snapshot = vec![ProcessInfo::new(1, "anything.exe".to_string())];
    let diagnostics = monitor.sweep(&snapshot, &mut enforcer);
    assert_eq!(diagnostics, vec![vec![]]);
    assert!(enforcer.calls.is_empty());
    let _ = monitor.on_event(WatchEvent::Shutdown, &mut enforcer);
    assert_eq!(monitor.finish(), Ok(()));
}
