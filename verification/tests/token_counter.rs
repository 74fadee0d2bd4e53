use minerve::chat::Usage;
use minerve::token_counter::{clamp, TokenCounter};

#[test]
fn new_counter_is_at_zero() {
    let counter = TokenCounter::new();
    assert_eq!(counter.current_prompt(), 0);
    assert_eq!(counter.current_completion(), 0);
}

#[test]
fn increments_add_up_separately() {
    let mut counter = TokenCounter::new();
    counter.increment_prompt(12);
    counter.increment_prompt(30);
    counter.increment_completion(7);
    assert_eq!(counter.current_prompt(), 42);
    assert_eq!(counter.current_completion(), 7);
}

#[test]
fn counters_stop_at_the_top() {
    let mut counter = TokenCounter::new();
    counter.increment_prompt(usize::MAX - 1);
    counter.increment_prompt(5);
    assert_eq!(counter.current_prompt(), usize::MAX);
    counter.increment_prompt(1);
    assert_eq!(counter.current_prompt(), usize::MAX);
    assert_eq!(counter.current_completion(), 0);
}

#[test]
fn counters_never_go_down() {
    let mut counter = TokenCounter::new();
    let mut last = 0;
    for step in [0usize, 3, usize::MAX / 2, usize::MAX / 2, 9, 0] {
        counter.increment_completion(step);
        assert!(counter.current_completion() >= last);
        last = counter.current_completion();
    }
    assert_eq!(last, usize::MAX);
}

#[test]
fn usage_is_recorded_and_absence_counts_nothing() {
    let mut counter = TokenCounter::new();
    counter.record_usage(&None);
    assert_eq!(counter.current_prompt(), 0);
    counter.record_usage(&Some(Usage { prompt_tokens: 100, completion_tokens: 20, _total_tokens: 120 }));
    counter.record_usage(&Some(Usage { prompt_tokens: 1, completion_tokens: 2, _total_tokens: 3 }));
    assert_eq!(counter.current_prompt(), 101);
    assert_eq!(counter.current_completion(), 22);
}

#[test]
fn clamp_keeps_what_fits() {
    assert_eq!(clamp(0), 0);
    assert_eq!(clamp(77), 77);
    assert_eq!(clamp(u64::MAX), usize::MAX.min(u64::MAX as usize));
}
