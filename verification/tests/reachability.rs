use wifi_bringup::probe::ProbeSummary;

#[test]
fn all_probes_answered_is_reachable() {
    assert!(ProbeSummary { transmitted: 4, received: 4 }.proves_reachable());
    assert!(ProbeSummary { transmitted: 1, received: 1 }.proves_reachable());
    assert!(ProbeSummary { transmitted: 5, received: 5 }.proves_reachable());
}

#[test]
fn one_lost_probe_is_unreachable() {
    for transmitted in [1u32, 2, 3, 4, 5, 100, u32::MAX] {
        let summary = ProbeSummary { transmitted, received: transmitted - 1 };
        assert!(!summary.proves_reachable());
    }
}

#[test]
fn all_probes_lost_is_unreachable() {
    assert!(!ProbeSummary { transmitted: 4, received: 0 }.proves_reachable());
}

#[test]
fn no_probe_sent_is_unreachable() {
    assert!(!ProbeSummary { transmitted: 0, received: 0 }.proves_reachable());
}

#[test]
fn more_answers_than_probes_is_unreachable() {
    assert!(!ProbeSummary { transmitted: 4, received: 5 }.proves_reachable());
    assert!(!ProbeSummary { transmitted: 0, received: 1 }.proves_reachable());
}

#[test]
fn largest_counts_are_handled() {
    assert!(ProbeSummary { transmitted: u32::MAX, received: u32::MAX }.proves_reachable());
}
