use llm_manager::cooldown::CooldownTracker;

#[test]
fn fresh_tracker_reports_nothing_limited() {
    let tracker = CooldownTracker::new();
    assert!(!tracker.is_rate_limited("my-model", 3600, 1000));
    assert!(!tracker.is_rate_limited("", 3600, 1000));
    assert!(!tracker.is_rate_limited("gpt-4", 0, 0));
}

#[test]
fn unrecorded_model_stays_unlimited_beside_recorded_ones() {
    let mut tracker = CooldownTracker::new();
    tracker.record("gpt-4", 1000);
    assert!(!tracker.is_rate_limited("my-model", 3600, 1000));
}

#[test]
fn limited_strictly_inside_the_window() {
    let mut tracker = CooldownTracker::new();
    tracker.record("gpt-4", 1000);
    assert!(tracker.is_rate_limited("gpt-4", 10, 1000));
    assert!(tracker.is_rate_limited("gpt-4", 10, 1009));
    assert!(!tracker.is_rate_limited("gpt-4", 10, 1010));
    assert!(!tracker.is_rate_limited("gpt-4", 10, 2000));
}

#[test]
fn zero_cooldown_means_immediately_expired() {
    let mut tracker = CooldownTracker::new();
    tracker.record("gpt-4", 1000);
    assert!(!tracker.is_rate_limited("gpt-4", 0, 1000));
    assert!(!tracker.is_rate_limited("gpt-4", 0, 1001));
}

#[test]
fn repeated_record_refreshes_the_mark() {
    let mut tracker = CooldownTracker::new();
    tracker.record("gpt-4", 1000);
    tracker.record("gpt-4", 2000);
    // The old mark alone would have expired by 2009 with a 10 s cooldown.
    assert!(tracker.is_rate_limited("gpt-4", 10, 2009));
    assert!(!tracker.is_rate_limited("gpt-4", 10, 2010));
}

#[test]
fn distinct_models_keep_their_own_marks() {
    let mut tracker = CooldownTracker::new();
    tracker.record("openai/gpt-4", 100);
    tracker.record("anthropic/my-model", 200);
    tracker.record("groq/llama-3", 300);
    assert!(tracker.is_rate_limited("openai/gpt-4", 1000, 300));
    assert!(tracker.is_rate_limited("anthropic/my-model", 1000, 300));
    assert!(tracker.is_rate_limited("groq/llama-3", 1000, 300));
    // Each mark kept its own second: the first expires first.
    assert!(!tracker.is_rate_limited("openai/gpt-4", 150, 300));
    assert!(tracker.is_rate_limited("anthropic/my-model", 150, 300));
}

#[test]
fn cleanup_removes_exactly_the_expired_marks() {
    let mut tracker = CooldownTracker::new();
    tracker.record("old-model", 100);
    tracker.record("fresh-model", 140);
    // At second 150 with a 20 s cooldown, "old-model" has 50 s elapsed and
    // is expired; "fresh-model" has 10 s elapsed and survives.
    tracker.cleanup(20, 150);
    assert!(!tracker.is_rate_limited("old-model", 1000, 150));
    assert!(tracker.is_rate_limited("fresh-model", 20, 150));
    // The surviving mark is untouched: it still expires at second 160.
    assert!(!tracker.is_rate_limited("fresh-model", 20, 160));
}

#[test]
fn cleanup_with_zero_cooldown_clears_everything() {
    let mut tracker = CooldownTracker::new();
    tracker.record("a", 100);
    tracker.record("b", 200);
    tracker.cleanup(0, 200);
    assert!(!tracker.is_rate_limited("a", 1000, 200));
    assert!(!tracker.is_rate_limited("b", 1000, 200));
}

#[test]
fn cleanup_is_transparent_to_checks() {
    let mut tracker = CooldownTracker::new();
    tracker.record("a", 100);
    tracker.record("b", 145);
    let before_a = tracker.is_rate_limited("a", 30, 150);
    let before_b = tracker.is_rate_limited("b", 30, 150);
    tracker.cleanup(30, 150);
    assert_eq!(tracker.is_rate_limited("a", 30, 150), before_a);
    assert_eq!(tracker.is_rate_limited("b", 30, 150), before_b);
}

#[test]
fn clock_reading_before_the_mark_counts_as_no_elapsed_time() {
    let mut tracker = CooldownTracker::new();
    tracker.record("gpt-4", 1000);
    assert!(tracker.is_rate_limited("gpt-4", 10, 999));
    assert!(!tracker.is_rate_limited("gpt-4", 0, 999));
}
