use kagura::plan::plan;
use kagura::run::{Action, RunController};

#[test]
fn controller_sequences_a_clean_run() {
    // Two samples over forty seconds: extract both in order, consume both
    // in order, then finish; afterwards the run is over and succeeded.
    let samples = plan(40_000, 1, 2).unwrap();
    let mut ctl = RunController::new(samples);
    assert_eq!(ctl.next(), Some(Action::Extract { index: 0, timestamp_ms: 0 }));
    ctl.report(true);
    assert_eq!(ctl.next(), Some(Action::Extract { index: 1, timestamp_ms: 20_000 }));
    ctl.report(true);
    assert_eq!(ctl.next(), Some(Action::Consume { index: 0 }));
    ctl.report(true);
    assert_eq!(ctl.next(), Some(Action::Consume { index: 1 }));
    ctl.report(true);
    assert_eq!(ctl.next(), Some(Action::Finish));
    ctl.report(true);
    assert_eq!(ctl.next(), None);
    assert!(ctl.succeeded());
}

#[test]
fn controller_aborts_over_exactly_the_staged_slots() {
    // Three extractions succeed, the fourth fails: cleanup must cover the
    // three staged slots and nothing else, and the run must not succeed.
    let samples = plan(40_000, 2, 2).unwrap();
    let mut ctl = RunController::new(samples);
    for i in 0..3u64 {
        assert_eq!(
            ctl.next(),
            Some(Action::Extract { index: i, timestamp_ms: i * 10_000 })
        );
        ctl.report(true);
    }
    assert_eq!(ctl.next(), Some(Action::Extract { index: 3, timestamp_ms: 30_000 }));
    ctl.report(false);
    assert_eq!(ctl.next(), Some(Action::Abort { from: 0, until: 3 }));
    ctl.report(true);
    assert_eq!(ctl.next(), None);
    assert!(!ctl.succeeded());
}

#[test]
fn controller_aborts_when_a_consume_fails() {
    let samples = plan(10_000, 1, 1).unwrap();
    let mut ctl = RunController::new(samples);
    assert_eq!(ctl.next(), Some(Action::Extract { index: 0, timestamp_ms: 0 }));
    ctl.report(true);
    assert_eq!(ctl.next(), Some(Action::Consume { index: 0 }));
    ctl.report(false);
    assert_eq!(ctl.next(), Some(Action::Abort { from: 0, until: 1 }));
    ctl.report(true);
    assert_eq!(ctl.next(), None);
    assert!(!ctl.succeeded());
}
