use websocket_source_v1::kafka::relay::{Inbound, Relay, RelayAction, RelayEvent, RelayPhase};

fn cap(queue_size: usize) -> usize {
    if queue_size == 0 { 1 } else { queue_size }
}

fn run(queue_size: usize, events: &[RelayEvent]) -> (Relay, Vec<RelayAction>) {
    let mut relay = Relay::new(queue_size);
    let mut actions = Vec::new();
    for e in events {
        actions.push(relay.step(*e));
        assert!(relay.in_flight <= cap(queue_size));
    }
    (relay, actions)
}

const FORWARD: RelayEvent = RelayEvent::Received(Inbound::Forward);

#[test]
fn queue_fills_then_waits_for_a_slot() {
    let (r, actions) = run(2, &[FORWARD, RelayEvent::SendQueued, FORWARD, RelayEvent::SendQueued]);
    assert_eq!(actions, vec![RelayAction::Send, RelayAction::Wait, RelayAction::Send, RelayAction::Wait]);
    assert_eq!(r.phase, RelayPhase::AwaitingSlot);
    assert_eq!(r.in_flight, 2);
    let mut r = r;
    assert_eq!(r.step(RelayEvent::TaskDone { ok: true }), RelayAction::Wait);
    assert_eq!(r.phase, RelayPhase::Receiving);
    assert_eq!(r.in_flight, 1);
}

#[test]
fn queue_size_zero_awaits_every_send() {
    let (r, _) = run(0, &[FORWARD, RelayEvent::SendQueued]);
    assert_eq!(r.phase, RelayPhase::AwaitingSlot);
    assert_eq!(r.in_flight, 1);
}

#[test]
fn shutdown_drains_running_sends_then_succeeds() {
    let (mut r, _) = run(4, &[FORWARD, RelayEvent::SendQueued, FORWARD, RelayEvent::SendQueued]);
    assert_eq!(r.step(RelayEvent::Shutdown), RelayAction::Wait);
    assert_eq!(r.phase, RelayPhase::Draining);
    assert_eq!(r.in_flight, 2);
    assert_eq!(r.step(RelayEvent::TaskDone { ok: true }), RelayAction::Wait);
    assert_eq!(r.step(RelayEvent::TaskDone { ok: true }), RelayAction::Wait);
    assert_eq!(r.in_flight, 0);
    assert_eq!(r.step(RelayEvent::NoTasks), RelayAction::Finish);
    assert_eq!(r.phase, RelayPhase::Finished { failed: false });
    assert!(!r.kafka_error);
}

#[test]
fn end_of_source_drains_like_shutdown() {
    let (r, actions) = run(4, &[FORWARD, RelayEvent::SendQueued, RelayEvent::Received(Inbound::Close)]);
    assert_eq!(actions[2], RelayAction::Wait);
    assert_eq!(r.phase, RelayPhase::Draining);
    assert_eq!(r.in_flight, 1);
}

#[test]
fn kafka_error_ends_at_once_with_success() {
    let (r, actions) = run(4, &[FORWARD, RelayEvent::SendQueued, RelayEvent::KafkaError]);
    assert_eq!(actions[2], RelayAction::Finish);
    assert_eq!(r.phase, RelayPhase::Finished { failed: false });
    assert!(r.kafka_error);
    assert_eq!(r.in_flight, 1);
    let (r, _) = run(4, &[FORWARD, RelayEvent::SendQueued, RelayEvent::Shutdown, RelayEvent::KafkaError]);
    assert_eq!(r.phase, RelayPhase::Finished { failed: false });
    assert!(r.kafka_error);
}

#[test]
fn failures_end_the_loop_with_an_error() {
    let (r, a) = run(4, &[FORWARD, RelayEvent::SendQueued, RelayEvent::TaskDone { ok: false }]);
    assert_eq!((r.phase, a[2]), (RelayPhase::Finished { failed: true }, RelayAction::Finish));
    let (r, _) = run(4, &[RelayEvent::Received(Inbound::Failed)]);
    assert_eq!(r.phase, RelayPhase::Finished { failed: true });
    let (r, _) = run(4, &[FORWARD, RelayEvent::SendRejected]);
    assert_eq!(r.phase, RelayPhase::Finished { failed: true });
    let (r, _) = run(1, &[FORWARD, RelayEvent::SendQueued, RelayEvent::Shutdown, RelayEvent::TaskDone { ok: false }]);
    assert_eq!(r.phase, RelayPhase::Finished { failed: true });
}

#[test]
fn ticks_ping_and_skipped_messages_wait() {
    let (r, actions) = run(4, &[RelayEvent::Tick, RelayEvent::Received(Inbound::Skip)]);
    assert_eq!(actions, vec![RelayAction::Ping, RelayAction::Wait]);
    assert_eq!(r.phase, RelayPhase::Receiving);
}

#[test]
fn awaiting_slot_can_shut_down() {
    let (r, _) = run(1, &[FORWARD, RelayEvent::SendQueued, RelayEvent::Shutdown]);
    assert_eq!(r.phase, RelayPhase::Draining);
    assert_eq!(r.in_flight, 1);
}

#[test]
fn clean_stop_collects_every_queued_send() {
    let events = [
        FORWARD, RelayEvent::SendQueued, FORWARD, RelayEvent::SendQueued,
        RelayEvent::TaskDone { ok: true }, FORWARD, RelayEvent::SendQueued,
        RelayEvent::TaskDone { ok: true }, RelayEvent::Received(Inbound::Close),
        RelayEvent::TaskDone { ok: true }, RelayEvent::NoTasks,
    ];
    let (r, _) = run(2, &events);
    assert_eq!(r.phase, RelayPhase::Finished { failed: false });
    assert!(!r.kafka_error);
    let queued = events.iter().filter(|e| **e == RelayEvent::SendQueued).count();
    let collected = events.iter().filter(|e| matches!(e, RelayEvent::TaskDone { .. })).count();
    assert_eq!(queued, collected);
}
