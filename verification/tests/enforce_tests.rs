use minosse::enforce::affinity_mask;
use minosse::enforce::EnforceError;
use minosse::enforce::OsCall;
use minosse::enforce::RecordingEnforcer;
use minosse::enforce::RuleOutcome;
use minosse::ProcessInfo;
use minosse::ProcessPriority;
use minosse::ProcessRule;
use minosse::ProcessRuleSet;

fn rule(pattern: &str) -> ProcessRule {
    ProcessRule { pattern: pattern.to_string(), priority: None, core_affinity: None }
}

#[test]
fn affinity_mask_for_cores_zero_and_two_is_five() {
    assert_eq!(affinity_mask(&vec![0, 2]), 5);
}

#[test]
fn affinity_mask_edge_values() {
    assert_eq!(affinity_mask(&vec![]), 0);
    assert_eq!(affinity_mask(&vec![0]), 1);
    assert_eq!(affinity_mask(&vec![63]), 1u64 << 63);
    assert_eq!(affinity_mask(&vec![0, 0, 0]), 1);
}

#[test]
fn notepad_rule_scenario() {
    let rule_set = ProcessRuleSet {
        rules: vec![ProcessRule {
            pattern: "notepad".to_string(),
            priority: Some(ProcessPriority::Low),
            core_affinity: Some(vec![0]),
        }],
    };
    let mut enforcer = RecordingEnforcer::new(8, vec![]);

    let notepad = ProcessInfo::new(41, "notepad.exe".to_string());
    let outcomes = rule_set.apply(&notepad, &mut enforcer);
    assert_eq!(outcomes, vec![RuleOutcome::Applied]);
    assert_eq!(
        enforcer.calls,
        vec![
            OsCall::SetAffinity { process_id: 41, mask: 1 },
            OsCall::SetPriority { process_id: 41, class: 0x40 },
        ]
    );

    let chrome = ProcessInfo::new(42, "chrome.exe".to_string());
    let before = enforcer.calls.len();
    let outcomes = rule_set.apply(&chrome, &mut enforcer);
    assert_eq!(outcomes, vec![RuleOutcome::NotMatched]);
    assert_eq!(enforcer.calls.len(), before);
}

#[test]
fn last_matching_rule_wins_priority() {
    let first = ProcessRule {
        pattern: "note".to_string(),
        priority: Some(ProcessPriority::High),
        core_affinity: None,
    };
    let second = ProcessRule {
        pattern: "notepad".to_string(),
        priority: Some(ProcessPriority::Low),
        core_affinity: None,
    };
    let rule_set = ProcessRuleSet { rules: vec![first, second] };
    let mut enforcer = RecordingEnforcer::new(8, vec![]);
    let process = ProcessInfo::new(7, "notepad.exe".to_string());

    let outcomes = rule_set.apply(&process, &mut enforcer);
    assert_eq!(outcomes, vec![RuleOutcome::Applied, RuleOutcome::Applied]);
    assert_eq!(
        enforcer.calls,
        vec![
            OsCall::SetPriority { process_id: 7, class: 0x80 },
            OsCall::SetPriority { process_id: 7, class: 0x40 },
        ]
    );

    let last_priority = enforcer
        .calls
        .iter()
        .rev()
        .find_map(|call| match call {
            OsCall::SetPriority { class, .. } => Some(*class),
            _ => None,
        })
        .unwrap();
    assert_eq!(last_priority, 0x40);
}

#[test]
fn out_of_range_core_fails_that_rule_only() {
    let bad = ProcessRule {
        pattern: "app".to_string(),
        priority: None,
        core_affinity: Some(vec![9]),
    };
    let good = ProcessRule {
        pattern: "app".to_string(),
        priority: Some(ProcessPriority::Normal),
        core_affinity: None,
    };
    let rule_set = ProcessRuleSet { rules: vec![bad, good] };
    let mut enforcer = RecordingEnforcer::new(4, vec![]);

    let process = ProcessInfo::new(11, "app.exe".to_string());
    let outcomes = rule_set.apply(&process, &mut enforcer);
    assert_eq!(
        outcomes,
        vec![
            RuleOutcome::Failed(EnforceError::CoreIndexOutOfRange),
            RuleOutcome::Applied,
        ]
    );
    assert_eq!(enforcer.calls, vec![OsCall::SetPriority { process_id: 11, class: 0x20 }]);

    let other = ProcessInfo::new(12, "app2.exe".to_string());
    let outcomes = rule_set.apply(&other, &mut enforcer);
    assert_eq!(
        outcomes,
        vec![
            RuleOutcome::Failed(EnforceError::CoreIndexOutOfRange),
            RuleOutcome::Applied,
        ]
    );
    assert_eq!(enforcer.calls.len(), 2);
}

#[test]
fn affinity_failure_skips_priority_for_that_rule() {
    let rule_set = ProcessRuleSet {
        rules: vec![ProcessRule {
            pattern: "svc".to_string(),
            priority: Some(ProcessPriority::High),
            core_affinity: Some(vec![64]),
        }],
    };
    let mut enforcer = RecordingEnforcer::new(4, vec![]);
    let process = ProcessInfo::new(5, "svc.exe".to_string());

    let outcomes = rule_set.apply(&process, &mut enforcer);
    assert_eq!(outcomes, vec![RuleOutcome::Failed(EnforceError::CoreIndexOutOfRange)]);
    assert!(enforcer.calls.is_empty());
}

#[test]
fn empty_affinity_issues_no_affinity_call() {
    let with_empty = ProcessRule {
        pattern: "tool".to_string(),
        priority: Some(ProcessPriority::High),
        core_affinity: Some(vec![]),
    };
    let with_none = ProcessRule {
        pattern: "tool".to_string(),
        priority: Some(ProcessPriority::Low),
        core_affinity: None,
    };
    let rule_set = ProcessRuleSet { rules: vec![with_empty, with_none] };
    let mut enforcer = RecordingEnforcer::new(8, vec![]);
    let process = ProcessInfo::new(3, "tool.exe".to_string());

    let outcomes = rule_set.apply(&process, &mut enforcer);
    assert_eq!(outcomes, vec![RuleOutcome::Applied, RuleOutcome::Applied]);
    assert!(enforcer
        .calls
        .iter()
        .all(|call| matches!(call, OsCall::SetPriority { .. })));
    assert_eq!(enforcer.calls.len(), 2);
}

#[test]
fn unavailable_process_failure_is_observed_and_isolated() {
    let rule_set = ProcessRuleSet {
        rules: vec![ProcessRule {
            pattern: "x".to_string(),
            priority: Some(ProcessPriority::Normal),
            core_affinity: None,
        }],
    };
    let mut enforcer = RecordingEnforcer::new(8, vec![7]);

    let denied = ProcessInfo::new(7, "x.exe".to_string());
    let outcomes = rule_set.apply(&denied, &mut enforcer);
    assert_eq!(outcomes, vec![RuleOutcome::Failed(EnforceError::ProcessUnavailable)]);
    assert!(enforcer.calls.is_empty());

    let reachable = ProcessInfo::new(8, "x.exe".to_string());
    let outcomes = rule_set.apply(&reachable, &mut enforcer);
    assert_eq!(outcomes, vec![RuleOutcome::Applied]);
    assert_eq!(enforcer.calls, vec![OsCall::SetPriority { process_id: 8, class: 0x20 }]);
}

#[test]
fn invalid_pattern_matches_nothing_and_fails_validation() {
    let bad = rule("(");
    assert!(!bad.pattern_ok());
    assert!(!bad.is_match("anything"));

    let rule_set = ProcessRuleSet { rules: vec![rule("fine"), rule("("), rule("also_fine")] };
    assert_eq!(rule_set.validate(), Err(1));

    let rule_set = ProcessRuleSet { rules: vec![rule("fine"), rule("also_fine")] };
    assert_eq!(rule_set.validate(), Ok(()));
}

#[test]
fn default_rule_matches_every_name_and_sets_nothing() {
    let r = ProcessRule::default();
    assert_eq!(r.pattern, "\\w*");
    assert!(r.priority.is_none());
    assert!(r.core_affinity.is_none());
    assert!(r.pattern_ok());
    assert!(r.is_match("notepad.exe"));
    assert!(r.is_match(""));
}

#[test]
fn pattern_matching_is_partial_not_anchored() {
    let r = rule("pad");
    assert!(r.is_match("notepad.exe"));
    assert!(r.is_match("pad"));
    assert!(!r.is_match("notePAD.exe"));
}

#[test]
fn rule_set_editing_keeps_order() {
    let mut rule_set = ProcessRuleSet::default();
    assert_eq!(rule_set.rules.len(), 0);
    rule_set.push_rule(rule("a"));
    rule_set.push_rule(rule("b"));
    rule_set.push_rule(rule("c"));
    rule_set.replace_rule(1, rule("B"));
    assert_eq!(rule_set.rules[0].pattern, "a");
    assert_eq!(rule_set.rules[1].pattern, "B");
    assert_eq!(rule_set.rules[2].pattern, "c");
    rule_set.remove_rule(0);
    assert_eq!(rule_set.rules.len(), 2);
    assert_eq!(rule_set.rules[0].pattern, "B");
    assert_eq!(rule_set.rules[1].pattern, "c");
}
