use minosse::ProcessPriority;

#[test]
fn priority_classes_are_the_six_os_codes() {
    assert_eq!(ProcessPriority::Realtime.priority_class(), 0x100);
    assert_eq!(ProcessPriority::High.priority_class(), 0x80);
    assert_eq!(ProcessPriority::AboveNormal.priority_class(), 0x8000);
    assert_eq!(ProcessPriority::Normal.priority_class(), 0x20);
    assert_eq!(ProcessPriority::BelowNormal.priority_class(), 0x4000);
    assert_eq!(ProcessPriority::Low.priority_class(), 0x40);
}

#[test]
fn parse_accepts_exactly_the_canonical_names() {
    assert_eq!(ProcessPriority::parse("realtime"), Some(ProcessPriority::Realtime));
    assert_eq!(ProcessPriority::parse("high"), Some(ProcessPriority::High));
    assert_eq!(ProcessPriority::parse("abovenormal"), Some(ProcessPriority::AboveNormal));
    assert_eq!(ProcessPriority::parse("normal"), Some(ProcessPriority::Normal));
    assert_eq!(ProcessPriority::parse("belownormal"), Some(ProcessPriority::BelowNormal));
    assert_eq!(ProcessPriority::parse("low"), Some(ProcessPriority::Low));
}

#[test]
fn parse_rejects_unrecognized_names_without_defaulting() {
    assert_eq!(ProcessPriority::parse("idle"), None);
    assert_eq!(ProcessPriority::parse("Low"), None);
    assert_eq!(ProcessPriority::parse("REALTIME"), None);
    assert_eq!(ProcessPriority::parse("above normal"), None);
    assert_eq!(ProcessPriority::parse(""), None);
}

#[test]
fn name_round_trips_through_parse() {
    for level in ProcessPriority::all() {
        assert_eq!(ProcessPriority::parse(&level.name()), Some(level));
    }
}

#[test]
fn all_lists_the_six_levels_by_descending_weight() {
    assert_eq!(
        ProcessPriority::all(),
        vec![
            ProcessPriority::Realtime,
            ProcessPriority::High,
            ProcessPriority::AboveNormal,
            ProcessPriority::Normal,
            ProcessPriority::BelowNormal,
            ProcessPriority::Low,
        ]
    );
}

#[test]
fn label_round_trips_and_rejects_the_none_choice() {
    for level in ProcessPriority::all() {
        assert_eq!(ProcessPriority::from_label(&level.label()), Some(level));
    }
    assert_eq!(ProcessPriority::from_label("None"), None);
    assert_eq!(ProcessPriority::from_label("realtime"), None);
    assert_eq!(ProcessPriority::Low.label(), "Low");
    assert_eq!(ProcessPriority::AboveNormal.label(), "AboveNormal");
}
