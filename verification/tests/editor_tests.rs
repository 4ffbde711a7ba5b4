use minosse::editor::detected_core_count;
use minosse::editor::process_affinity;
use minosse::editor::ProcessAffinity;

#[test]
fn toggling_a_core_on_adds_it_in_ascending_order() {
    let props = ProcessAffinity { affinity: Some(vec![2, 0]), allow_change: true };
    assert_eq!(props.compute_new_affinity_vector(1, true, 4), Some(vec![0, 1, 2]));
}

#[test]
fn selecting_every_core_means_no_restriction() {
    let props = ProcessAffinity { affinity: Some(vec![0, 2]), allow_change: true };
    assert_eq!(props.compute_new_affinity_vector(1, true, 3), None);
}

#[test]
fn deselecting_the_last_core_falls_back_to_core_zero() {
    let props = ProcessAffinity { affinity: Some(vec![2]), allow_change: true };
    assert_eq!(props.compute_new_affinity_vector(2, false, 4), Some(vec![0]));
}

#[test]
fn toggling_a_core_off_an_absent_set_restricts_to_the_rest() {
    let props = ProcessAffinity { affinity: None, allow_change: true };
    assert_eq!(props.compute_new_affinity_vector(3, false, 4), Some(vec![0, 1, 2]));
}

#[test]
fn initial_flags_for_absent_empty_and_partial_sets() {
    let absent = ProcessAffinity { affinity: None, allow_change: false };
    assert_eq!(process_affinity(&absent, 4), vec![true, true, true, true]);

    let empty = ProcessAffinity { affinity: Some(vec![]), allow_change: false };
    assert_eq!(process_affinity(&empty, 4), vec![true, false, false, false]);

    let partial = ProcessAffinity { affinity: Some(vec![1, 3]), allow_change: false };
    assert_eq!(process_affinity(&partial, 4), vec![false, true, false, true]);
}

#[test]
fn detected_core_count_reports_at_least_one() {
    if let Some(count) = detected_core_count() {
        assert!(count >= 1);
    }
}
