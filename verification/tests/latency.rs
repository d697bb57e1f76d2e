use std::collections::VecDeque;
use websocket_source_v1::latency::{e2e_latency_ms, elapsed_ms, prune_window};

#[test]
fn window_drops_old_timestamps_from_the_front() {
    let mut ts: VecDeque<u64> = [1000, 1500, 2100, 2500, 3000].into_iter().collect();
    assert_eq!(prune_window(&mut ts, 3000), Some(3));
    assert_eq!(ts, VecDeque::from(vec![2100, 2500, 3000]));
}

#[test]
fn window_keeps_exactly_one_second_old() {
    let mut ts: VecDeque<u64> = [2000, 2001].into_iter().collect();
    assert_eq!(prune_window(&mut ts, 3000), Some(2));
    let mut ts: VecDeque<u64> = [1999, 2001].into_iter().collect();
    assert_eq!(prune_window(&mut ts, 3000), Some(1));
}

#[test]
fn window_stops_at_first_recent_timestamp() {
    let mut ts: VecDeque<u64> = [2900, 100, 200].into_iter().collect();
    assert_eq!(prune_window(&mut ts, 3000), Some(3));
    let mut empty: VecDeque<u64> = VecDeque::new();
    assert_eq!(prune_window(&mut empty, 5), Some(0));
}

#[test]
fn window_reports_future_timestamps() {
    let mut ts: VecDeque<u64> = [4000].into_iter().collect();
    assert_eq!(prune_window(&mut ts, 3000), None);
    let mut ts: VecDeque<u64> = [100, 4000].into_iter().collect();
    assert_eq!(prune_window(&mut ts, 3000), None);
}

#[test]
fn elapsed_and_latency() {
    assert_eq!(elapsed_ms(100, 250), Some(150));
    assert_eq!(elapsed_ms(250, 100), None);
    assert_eq!(e2e_latency_ms(1_700_000_001_500, 1_700_000_000, 200), Some(1300));
    assert_eq!(e2e_latency_ms(1_700_000_000_000, 1_700_000_001, 0), None);
    assert_eq!(e2e_latency_ms(1_700_000_001_000, 1_700_000_000, 1001), None);
    assert_eq!(e2e_latency_ms(u64::MAX, -1, 0), None);
}
