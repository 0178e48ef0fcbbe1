//! Tests of the bus cache: hit and expiry behaviour, write-through,
//! and the retry and reconnect policy.

use tank_monitor::bus_cache::{
    retry_decision, BusCache, BusFault, BusUsage, FetchOutcome, GetResult, RetryDecision,
    SetResult, WriteOutcome, CACHE_TTL_NANOS, MAX_ATTEMPTS,
};

fn name(s: &str) -> Vec<u8> {
    s.as_bytes().to_vec()
}

fn value_script(v: i64) -> Vec<FetchOutcome> {
    vec![FetchOutcome::Value(v), FetchOutcome::Value(v), FetchOutcome::Value(v)]
}

#[test]
fn fresh_hit_makes_no_bus_call() {
    let mut cache = BusCache::new();
    cache.store(name("outside_temperature"), 12, 1_000);
    let (result, usage) =
        cache.get_with_outcomes(name("outside_temperature"), 2_000, &value_script(99));
    assert_eq!(result, GetResult::Value(12));
    assert_eq!(usage, BusUsage { calls: 0, reconnects: 0 });
}

#[test]
fn hit_lasts_until_the_time_to_live_passes() {
    let mut cache = BusCache::new();
    cache.store(name("boiler_temperature"), 55, 10);
    assert_eq!(cache.lookup(&name("boiler_temperature"), 10 + CACHE_TTL_NANOS - 1), Some(55));
    assert_eq!(cache.lookup(&name("boiler_temperature"), 10 + CACHE_TTL_NANOS), None);
}

#[test]
fn read_after_expiry_makes_exactly_one_bus_call() {
    let mut cache = BusCache::new();
    cache.store(name("boiler_temperature"), 55, 0);
    let expired_at = CACHE_TTL_NANOS;
    let (result, usage) =
        cache.get_with_outcomes(name("boiler_temperature"), expired_at, &value_script(56));
    assert_eq!(result, GetResult::Value(56));
    assert_eq!(usage, BusUsage { calls: 1, reconnects: 0 });
    // The fetched value was written back with a fresh time-to-live.
    assert_eq!(cache.lookup(&name("boiler_temperature"), expired_at + 1), Some(56));
}

#[test]
fn write_then_read_returns_written_value_without_bus_calls() {
    let mut cache = BusCache::new();
    let outcome = cache.set_with_outcome(name("target_temperature"), 21, 5_000, &WriteOutcome::Accepted);
    assert_eq!(outcome, SetResult::Done);
    let (result, usage) =
        cache.get_with_outcomes(name("target_temperature"), 6_000, &value_script(99));
    assert_eq!(result, GetResult::Value(21));
    assert_eq!(usage, BusUsage { calls: 0, reconnects: 0 });
}

#[test]
fn timeout_reconnects_exactly_once_before_the_retry() {
    let mut cache = BusCache::new();
    let script = vec![
        FetchOutcome::Fault(BusFault::Timeout),
        FetchOutcome::Value(7),
        FetchOutcome::Value(7),
    ];
    let (result, usage) = cache.get_with_outcomes(name("burner_hours"), 0, &script);
    assert_eq!(result, GetResult::Value(7));
    assert_eq!(usage, BusUsage { calls: 2, reconnects: 1 });
}

#[test]
fn non_timeout_fault_retries_on_the_same_connection() {
    let mut cache = BusCache::new();
    let script = vec![
        FetchOutcome::Fault(BusFault::OtherIo),
        FetchOutcome::Value(7),
        FetchOutcome::Value(7),
    ];
    let (result, usage) = cache.get_with_outcomes(name("burner_hours"), 0, &script);
    assert_eq!(result, GetResult::Value(7));
    assert_eq!(usage, BusUsage { calls: 2, reconnects: 0 });
}

#[test]
fn exhausted_retries_surface_the_last_failure() {
    let mut cache = BusCache::new();
    let script = vec![
        FetchOutcome::Fault(BusFault::OtherIo),
        FetchOutcome::Fault(BusFault::Timeout),
        FetchOutcome::Fault(BusFault::Other),
    ];
    let (result, usage) = cache.get_with_outcomes(name("burner_starts"), 0, &script);
    assert_eq!(result, GetResult::Failed(BusFault::Other));
    assert_eq!(usage.calls, MAX_ATTEMPTS);
    // Only the timeout before the last retry forced a reconnect.
    assert_eq!(usage.reconnects, 1);
    // A failure is never cached.
    assert_eq!(cache.lookup(&name("burner_starts"), 1), None);
}

#[test]
fn unsupported_command_is_not_found_and_not_cached() {
    let mut cache = BusCache::new();
    let script = vec![
        FetchOutcome::Unsupported,
        FetchOutcome::Unsupported,
        FetchOutcome::Unsupported,
    ];
    let (result, usage) = cache.get_with_outcomes(name("no_such_command"), 0, &script);
    assert_eq!(result, GetResult::NotFound);
    assert_eq!(usage, BusUsage { calls: 1, reconnects: 0 });
    // The next read goes to the bus again: nothing was cached.
    let (result2, usage2) = cache.get_with_outcomes(name("no_such_command"), 1, &script);
    assert_eq!(result2, GetResult::NotFound);
    assert_eq!(usage2.calls, 1);
}

#[test]
fn retry_decision_policy() {
    assert_eq!(retry_decision(&BusFault::Timeout, 1), RetryDecision::RetryAfterReconnect);
    assert_eq!(retry_decision(&BusFault::OtherIo, 1), RetryDecision::RetrySameConnection);
    assert_eq!(retry_decision(&BusFault::Other, 2), RetryDecision::RetrySameConnection);
    assert_eq!(retry_decision(&BusFault::Timeout, MAX_ATTEMPTS), RetryDecision::GiveUp);
    assert_eq!(retry_decision(&BusFault::Other, MAX_ATTEMPTS), RetryDecision::GiveUp);
}

#[test]
fn failed_write_drops_the_cached_entry() {
    let mut cache = BusCache::new();
    cache.store(name("target_temperature"), 21, 0);
    let outcome = cache.set_with_outcome(
        name("target_temperature"),
        23,
        1,
        &WriteOutcome::Fault(BusFault::Timeout),
    );
    assert_eq!(outcome, SetResult::Failed(BusFault::Timeout));
    assert_eq!(cache.lookup(&name("target_temperature"), 2), None);
}

#[test]
fn unsupported_write_is_not_found_and_drops_the_entry() {
    let mut cache = BusCache::new();
    cache.store(name("mystery"), 1, 0);
    let outcome = cache.set_with_outcome(name("mystery"), 2, 1, &WriteOutcome::Unsupported);
    assert_eq!(outcome, SetResult::NotFound);
    assert_eq!(cache.lookup(&name("mystery"), 2), None);
}

#[test]
fn entries_are_kept_per_command() {
    let mut cache = BusCache::new();
    cache.store(name("a"), 1, 0);
    cache.store(name("b"), 2, 0);
    cache.store(name("a"), 3, 5);
    assert_eq!(cache.lookup(&name("a"), 10), Some(3));
    assert_eq!(cache.lookup(&name("b"), 10), Some(2));
    cache.remove(&name("b"));
    assert_eq!(cache.lookup(&name("b"), 10), None);
    assert_eq!(cache.lookup(&name("a"), 10), Some(3));
}
