use rapier_wasm::{StepHistory, STEP_HISTORY_LIMIT};

#[test]
fn history_starts_empty() {
    let history: StepHistory<f64> = StepHistory::new();
    assert!(history.is_empty());
    assert_eq!(history.len(), 0);
    assert!(history.values().is_empty());
}

#[test]
fn history_keeps_the_last_thousand() {
    let mut history = StepHistory::new();
    for i in 0..1005u32 {
        history.record(i);
    }
    assert_eq!(STEP_HISTORY_LIMIT, 1000);
    assert_eq!(history.len(), 1000);
    assert_eq!(history.values()[0], 5);
    assert_eq!(history.values()[999], 1004);
    let expected: Vec<u32> = (5..1005).collect();
    assert_eq!(history.values(), expected.as_slice());
}

#[test]
fn history_below_the_limit_keeps_everything() {
    let mut history = StepHistory::new();
    history.record(2.5f64);
    history.record(1.25f64);
    assert_eq!(history.values(), &[2.5, 1.25]);
    for _ in 0..998 {
        history.record(0.0);
    }
    assert_eq!(history.len(), 1000);
    assert_eq!(history.values()[0], 2.5);
    history.record(9.0);
    assert_eq!(history.len(), 1000);
    assert_eq!(history.values()[0], 1.25);
    assert_eq!(history.values()[999], 9.0);
}
