//! The send loop shared by the relays that produce into Kafka (WebSocket to
//! Kafka, gRPC to Kafka, Kafka dedup).
//!
//! The caller waits on the shutdown signal, the Kafka error signal, the keep-
//! alive interval, the set of running send tasks and the message source, and
//! hands each outcome to [`Relay::step`] as an event; the answer says what to do
//! next. The relay caps the number of sends in flight at the queue size,
//! drains the running sends after a shutdown or the end of the source, and
//! ends with an error as soon as a send, the source or the producer fails.
use vstd::prelude::*;

verus! {

/// Where the loop stands.
#[derive(PartialEq, Eq, Structural, Clone, Copy, Debug)]
pub enum RelayPhase {
    /// Waiting for the next message (or signal, or finished send).
    Receiving,
    /// A message is being handed to the producer.
    Sending,
    /// The queue is full: waiting for a send to finish.
    AwaitingSlot,
    /// No more messages are taken; waiting for the running sends to finish.
    Draining,
    /// The loop is over; `failed` tells whether it ends with an error.
    Finished { failed: bool },
}

/// What the message source gave.
#[derive(PartialEq, Eq, Structural, Clone, Copy, Debug)]
pub enum Inbound {
    /// A message to produce into Kafka.
    Forward,
    /// A message that the relay ignores.
    Skip,
    /// The source ended (or asked to close).
    Close,
    /// The source failed.
    Failed,
}

/// Something the loop waited for happened.
#[derive(PartialEq, Eq, Structural, Clone, Copy, Debug)]
pub enum RelayEvent {
    /// The shutdown signal fired.
    Shutdown,
    /// The Kafka error signal fired.
    KafkaError,
    /// The keep-alive interval ticked.
    Tick,
    /// A send task finished; `ok` when the record was delivered.
    TaskDone { ok: bool },
    /// The set of send tasks is empty.
    NoTasks,
    /// The message source gave something.
    Received(Inbound),
    /// The producer took the record; its send task runs.
    SendQueued,
    /// The producer refused the record.
    SendRejected,
}

/// What the caller does next.
#[derive(PartialEq, Eq, Structural, Clone, Copy, Debug)]
pub enum RelayAction {
    /// Keep waiting, as the new phase says.
    Wait,
    /// Start the keep-alive ping, then keep waiting.
    Ping,
    /// Hand the message to the producer and report `SendQueued` or `SendRejected`.
    Send,
    /// Leave the loop: with the error of the event when the phase says `failed`,
    /// with success otherwise.
    Finish,
}

/// The state of the send loop.
#[derive(Clone, Copy, Debug)]
pub struct Relay {
    pub phase: RelayPhase,
    /// Send tasks started and not yet collected.
    pub in_flight: usize,
    /// The queue size: at this many sends in flight the loop waits for one.
    pub queue_size: usize,
    /// The loop stopped on the Kafka error signal.
    pub kafka_error: bool,
}

/// The most sends in flight: the queue size, and one when the queue size is 0
/// (every send is then awaited before the next message).
pub open spec fn send_cap(queue_size: usize) -> nat {
    if queue_size == 0 {
        1
    } else {
        queue_size as nat
    }
}

impl Relay {
    /// The states that the loop can reach.
    pub open spec fn wf(self) -> bool {
        &&& self.in_flight <= send_cap(self.queue_size)
        &&& (self.phase == RelayPhase::Receiving || self.phase == RelayPhase::Sending) ==> (
        self.in_flight < self.queue_size || self.in_flight == 0)
        &&& self.phase == RelayPhase::AwaitingSlot ==> self.in_flight == send_cap(self.queue_size)
        &&& self.kafka_error ==> self.phase is Finished
    }

    /// The events that can happen in the current phase.
    pub open spec fn accepts(self, e: RelayEvent) -> bool {
        match self.phase {
            RelayPhase::Receiving => match e {
                RelayEvent::Shutdown | RelayEvent::KafkaError | RelayEvent::Tick => true,
                RelayEvent::TaskDone { .. } => self.in_flight > 0,
                RelayEvent::Received(_) => true,
                _ => false,
            },
            RelayPhase::Sending => e == RelayEvent::SendQueued || e == RelayEvent::SendRejected,
            RelayPhase::AwaitingSlot => match e {
                RelayEvent::Shutdown | RelayEvent::KafkaError => true,
                RelayEvent::TaskDone { .. } => self.in_flight > 0,
                RelayEvent::NoTasks => self.in_flight == 0,
                _ => false,
            },
            RelayPhase::Draining => match e {
                RelayEvent::KafkaError => true,
                RelayEvent::TaskDone { .. } => self.in_flight > 0,
                RelayEvent::NoTasks => self.in_flight == 0,
                _ => false,
            },
            RelayPhase::Finished { .. } => false,
        }
    }

    /// The state after an event.
    pub open spec fn spec_next(self, e: RelayEvent) -> Relay {
        match self.phase {
            RelayPhase::Receiving => match e {
                RelayEvent::Shutdown => Relay { phase: RelayPhase::Draining, ..self },
                RelayEvent::KafkaError => Relay {
                    phase: RelayPhase::Finished { failed: false },
                    kafka_error: true,
                    ..self
                },
                RelayEvent::TaskDone { ok } => Relay {
                    phase: if ok { RelayPhase::Receiving } else { RelayPhase::Finished { failed: true } },
                    in_flight: (self.in_flight - 1) as usize,
                    ..self
                },
                RelayEvent::Received(Inbound::Forward) => Relay { phase: RelayPhase::Sending, ..self },
                RelayEvent::Received(Inbound::Close) => Relay { phase: RelayPhase::Draining, ..self },
                RelayEvent::Received(Inbound::Failed) => Relay {
                    phase: RelayPhase::Finished { failed: true },
                    ..self
                },
                _ => self,
            },
            RelayPhase::Sending => match e {
                RelayEvent::SendQueued => Relay {
                    phase: if self.in_flight + 1 >= self.queue_size {
                        RelayPhase::AwaitingSlot
                    } else {
                        RelayPhase::Receiving
                    },
                    in_flight: (self.in_flight + 1) as usize,
                    ..self
                },
                _ => Relay { phase: RelayPhase::Finished { failed: true }, ..self },
            },
            RelayPhase::AwaitingSlot => match e {
                RelayEvent::Shutdown => Relay { phase: RelayPhase::Draining, ..self },
                RelayEvent::KafkaError => Relay {
                    phase: RelayPhase::Finished { failed: false },
                    kafka_error: true,
                    ..self
                },
                RelayEvent::TaskDone { ok } => Relay {
                    phase: if ok { RelayPhase::Receiving } else { RelayPhase::Finished { failed: true } },
                    in_flight: (self.in_flight - 1) as usize,
                    ..self
                },
                _ => Relay { phase: RelayPhase::Receiving, ..self },
            },
            RelayPhase::Draining => match e {
                RelayEvent::TaskDone { ok } => Relay {
                    phase: if ok { RelayPhase::Draining } else { RelayPhase::Finished { failed: true } },
                    in_flight: (self.in_flight - 1) as usize,
                    ..self
                },
                RelayEvent::KafkaError => Relay {
                    phase: RelayPhase::Finished { failed: false },
                    kafka_error: true,
                    ..self
                },
                _ => Relay { phase: RelayPhase::Finished { failed: false }, ..self },
            },
            RelayPhase::Finished { .. } => self,
        }
    }

    /// The answer to an event.
    pub open spec fn spec_action(self, e: RelayEvent) -> RelayAction {
        let next = self.spec_next(e);
        if next.phase is Finished {
            RelayAction::Finish
        } else if next.phase == RelayPhase::Sending {
            RelayAction::Send
        } else if self.phase == RelayPhase::Receiving && e == RelayEvent::Tick {
            RelayAction::Ping
        } else {
            RelayAction::Wait
        }
    }

    /// A loop that has taken no message yet.
    pub fn new(queue_size: usize) -> (res: Relay)
        ensures
            res.wf(),
            res.phase == RelayPhase::Receiving,
            res.in_flight == 0,
            res.queue_size == queue_size,
            !res.kafka_error,
    {
        Relay { phase: RelayPhase::Receiving, in_flight: 0, queue_size, kafka_error: false }
    }

    /// Takes one event and says what to do next.
    pub fn step(&mut self, e: RelayEvent) -> (action: RelayAction)
        requires
            old(self).wf(),
            old(self).accepts(e),
        ensures
            *final(self) == old(self).spec_next(e),
            action == old(self).spec_action(e),
            final(self).wf(),
    {
        let phase = self.phase;
        match phase {
            RelayPhase::Receiving => match e {
                RelayEvent::Shutdown => {
                    self.phase = RelayPhase::Draining;
                },
                RelayEvent::KafkaError => {
                    self.phase = RelayPhase::Finished { failed: false };
                    self.kafka_error = true;
                },
                RelayEvent::TaskDone { ok } => {
                    self.in_flight = self.in_flight - 1;
                    if !ok {
                        self.phase = RelayPhase::Finished { failed: true };
                    }
                },
                RelayEvent::Received(Inbound::Forward) => {
                    self.phase = RelayPhase::Sending;
                },
                RelayEvent::Received(Inbound::Close) => {
                    self.phase = RelayPhase::Draining;
                },
                RelayEvent::Received(Inbound::Failed) => {
                    self.phase = RelayPhase::Finished { failed: true };
                },
                _ => {},
            },
            RelayPhase::Sending => match e {
                RelayEvent::SendQueued => {
                    self.in_flight = self.in_flight + 1;
                    if self.in_flight >= self.queue_size {
                        self.phase = RelayPhase::AwaitingSlot;
                    } else {
                        self.phase = RelayPhase::Receiving;
                    }
                },
                _ => {
                    self.phase = RelayPhase::Finished { failed: true };
                },
            },
            RelayPhase::AwaitingSlot => match e {
                RelayEvent::Shutdown => {
                    self.phase = RelayPhase::Draining;
                },
                RelayEvent::KafkaError => {
                    self.phase = RelayPhase::Finished { failed: false };
                    self.kafka_error = true;
                },
                RelayEvent::TaskDone { ok } => {
                    self.in_flight = self.in_flight - 1;
                    if ok {
                        self.phase = RelayPhase::Receiving;
                    } else {
                        self.phase = RelayPhase::Finished { failed: true };
                    }
                },
                _ => {
                    self.phase = RelayPhase::Receiving;
                },
            },
            RelayPhase::Draining => match e {
                RelayEvent::TaskDone { ok } => {
                    self.in_flight = self.in_flight - 1;
                    if !ok {
                        self.phase = RelayPhase::Finished { failed: true };
                    }
                },
                RelayEvent::KafkaError => {
                    self.phase = RelayPhase::Finished { failed: false };
                    self.kafka_error = true;
                },
                _ => {
                    self.phase = RelayPhase::Finished { failed: false };
                },
            },
            RelayPhase::Finished { .. } => {},
        }
        let finished = match self.phase {
            RelayPhase::Finished { .. } => true,
            _ => false,
        };
        if finished {
            RelayAction::Finish
        } else if self.phase == RelayPhase::Sending {
            RelayAction::Send
        } else if phase == RelayPhase::Receiving && e == RelayEvent::Tick {
            RelayAction::Ping
        } else {
            RelayAction::Wait
        }
    }
}

/// Every step keeps the loop in a reachable state: in particular no more than
/// the queue size of sends (one when the queue size is 0) are ever in flight.
pub proof fn lemma_relay_bounded(r: Relay, e: RelayEvent)
    requires
        r.wf(),
        r.accepts(e),
    ensures
        r.spec_next(e).wf(),
        r.spec_next(e).in_flight <= send_cap(r.queue_size),
        r.spec_next(e).queue_size == r.queue_size,
{
}

/// A record is handed to the producer only while the queue has room.
pub proof fn lemma_relay_sends_with_room(r: Relay, e: RelayEvent)
    requires
        r.wf(),
        r.accepts(e),
        r.spec_action(e) == RelayAction::Send,
    ensures
        r.in_flight < r.queue_size || r.in_flight == 0,
        r.spec_next(e).in_flight == r.in_flight,
{
}

/// The loop ends with success only on the Kafka error signal or once no send
/// is in flight any more.
pub proof fn lemma_relay_success_after_drain(r: Relay, e: RelayEvent)
    requires
        r.wf(),
        r.accepts(e),
        r.spec_next(e).phase == (RelayPhase::Finished { failed: false }),
    ensures
        r.spec_next(e).kafka_error || r.spec_next(e).in_flight == 0,
        r.spec_next(e).kafka_error <==> e == RelayEvent::KafkaError,
{
}

/// A send delivered while the loop receives, or while it waits for a slot,
/// leaves it receiving with one send fewer in flight: a delivery never stops
/// the loop from taking messages.
pub proof fn lemma_relay_delivery_keeps_receiving(r: Relay)
    requires
        r.wf(),
        r.in_flight > 0,
        r.phase == RelayPhase::Receiving || r.phase == RelayPhase::AwaitingSlot,
    ensures
        r.spec_next(RelayEvent::TaskDone { ok: true }) == (Relay {
            phase: RelayPhase::Receiving,
            in_flight: (r.in_flight - 1) as usize,
            ..r
        }),
        r.spec_action(RelayEvent::TaskDone { ok: true }) == RelayAction::Wait,
{
}

/// A tick or an ignored message changes nothing; a tick asks for the keep-alive ping.
pub proof fn lemma_relay_ignored_input_keeps_state(r: Relay)
    requires
        r.wf(),
        r.phase == RelayPhase::Receiving,
    ensures
        r.spec_next(RelayEvent::Tick) == r,
        r.spec_action(RelayEvent::Tick) == RelayAction::Ping,
        r.spec_next(RelayEvent::Received(Inbound::Skip)) == r,
        r.spec_action(RelayEvent::Received(Inbound::Skip)) == RelayAction::Wait,
{
}

/// A message to relay is handed to the producer, with nothing else changed.
pub proof fn lemma_relay_forward_sends(r: Relay)
    requires
        r.wf(),
        r.phase == RelayPhase::Receiving,
    ensures
        r.spec_next(RelayEvent::Received(Inbound::Forward)) == (Relay { phase: RelayPhase::Sending, ..r }),
        r.spec_action(RelayEvent::Received(Inbound::Forward)) == RelayAction::Send,
{
}

/// A record taken by the producer adds one send in flight; the loop goes on
/// receiving while fewer than the queue size are in flight, and otherwise
/// waits for a slot.
pub proof fn lemma_relay_queued_send(r: Relay)
    requires
        r.wf(),
        r.phase == RelayPhase::Sending,
    ensures
        r.spec_next(RelayEvent::SendQueued).in_flight == r.in_flight + 1,
        r.spec_next(RelayEvent::SendQueued).queue_size == r.queue_size,
        !r.spec_next(RelayEvent::SendQueued).kafka_error,
        r.spec_next(RelayEvent::SendQueued).phase == (if r.in_flight + 1 < r.queue_size {
            RelayPhase::Receiving
        } else {
            RelayPhase::AwaitingSlot
        }),
        r.spec_action(RelayEvent::SendQueued) == RelayAction::Wait,
{
}

/// The loop starts draining only on a shutdown or at the end of the source.
pub proof fn lemma_relay_drains_only_on_stop(r: Relay, e: RelayEvent)
    requires
        r.wf(),
        r.accepts(e),
        r.phase != RelayPhase::Draining,
        r.spec_next(e).phase == RelayPhase::Draining,
    ensures
        e == RelayEvent::Shutdown || e == RelayEvent::Received(Inbound::Close),
{
}

/// While draining, each delivered send leaves one fewer in flight, and the
/// empty set of sends ends the loop with success.
pub proof fn lemma_relay_drain_progress(r: Relay)
    requires
        r.wf(),
        r.phase == RelayPhase::Draining,
    ensures
        r.in_flight > 0 ==> r.spec_next(RelayEvent::TaskDone { ok: true }) == (Relay {
            in_flight: (r.in_flight - 1) as usize,
            ..r
        }),
        r.in_flight > 0 ==> r.spec_action(RelayEvent::TaskDone { ok: true }) == RelayAction::Wait,
        r.spec_next(RelayEvent::NoTasks) == (Relay { phase: RelayPhase::Finished { failed: false }, ..r }),
        r.spec_action(RelayEvent::NoTasks) == RelayAction::Finish,
{
}

/// The state after a sequence of events.
pub open spec fn run_events(r: Relay, events: Seq<RelayEvent>) -> Relay
    decreases events.len(),
{
    if events.len() == 0 {
        r
    } else {
        run_events(r.spec_next(events[0]), events.drop_first())
    }
}

/// Each event of the sequence can happen where it comes.
pub open spec fn all_accepted(r: Relay, events: Seq<RelayEvent>) -> bool
    decreases events.len(),
{
    events.len() == 0 || (r.accepts(events[0]) && all_accepted(r.spec_next(events[0]), events.drop_first()))
}

/// The number of records that the producer took.
pub open spec fn count_queued(events: Seq<RelayEvent>) -> nat
    decreases events.len(),
{
    if events.len() == 0 {
        0
    } else {
        count_queued(events.drop_first()) + if events[0] == RelayEvent::SendQueued { 1nat } else { 0nat }
    }
}

/// The number of send tasks collected.
pub open spec fn count_collected(events: Seq<RelayEvent>) -> nat
    decreases events.len(),
{
    if events.len() == 0 {
        0
    } else {
        count_collected(events.drop_first()) + if events[0] is TaskDone { 1nat } else { 0nat }
    }
}

/// Over any run, the sends in flight are the records taken less the sends
/// collected, and the loop stays in reachable states.
pub proof fn lemma_relay_run_accounts(r: Relay, events: Seq<RelayEvent>)
    requires
        r.wf(),
        all_accepted(r, events),
    ensures
        run_events(r, events).wf(),
        run_events(r, events).queue_size == r.queue_size,
        run_events(r, events).in_flight + count_collected(events) == r.in_flight + count_queued(events),
    decreases events.len(),
{
    if events.len() > 0 {
        lemma_relay_run_accounts(r.spec_next(events[0]), events.drop_first());
    }
}

/// A run from a fresh loop that ends with success, and not on the Kafka error
/// signal, has collected the send of every record that the producer took: no
/// accepted record is left behind by a shutdown or the end of the source.
pub proof fn lemma_relay_clean_stop_collects_all(queue_size: usize, events: Seq<RelayEvent>)
    requires
        all_accepted(Relay { phase: RelayPhase::Receiving, in_flight: 0, queue_size, kafka_error: false }, events),
        run_events(Relay { phase: RelayPhase::Receiving, in_flight: 0, queue_size, kafka_error: false }, events).phase
            == (RelayPhase::Finished { failed: false }),
        !run_events(Relay { phase: RelayPhase::Receiving, in_flight: 0, queue_size, kafka_error: false }, events).kafka_error,
    ensures
        count_collected(events) == count_queued(events),
{
    let start = Relay { phase: RelayPhase::Receiving, in_flight: 0, queue_size, kafka_error: false };
    lemma_relay_run_accounts(start, events);
    lemma_run_success_drained(start, events);
}

/// A run that ends with success, not on the Kafka error signal, ends with no
/// send in flight.
proof fn lemma_run_success_drained(r: Relay, events: Seq<RelayEvent>)
    requires
        r.wf(),
        all_accepted(r, events),
        run_events(r, events).phase == (RelayPhase::Finished { failed: false }),
        !run_events(r, events).kafka_error,
        !(r.phase is Finished) || r.in_flight == 0,
    ensures
        run_events(r, events).in_flight == 0,
    decreases events.len(),
{
    if events.len() > 0 {
        let next = r.spec_next(events[0]);
        lemma_relay_bounded(r, events[0]);
        assert(all_accepted(next, events.drop_first()));
        if next.phase is Finished {
            if events.drop_first().len() > 0 {
                assert(next.accepts(events.drop_first()[0]));
            }
            assert(events.drop_first().len() == 0);
            assert(run_events(r, events) == run_events(next, events.drop_first()));
            assert(run_events(next, events.drop_first()) == next);
            lemma_relay_success_after_drain(r, events[0]);
        }
        lemma_run_success_drained(next, events.drop_first());
    }
}

/// A failed send, a failed source or a refused record ends the loop with an error.
pub proof fn lemma_relay_failure_ends(r: Relay, e: RelayEvent)
    requires
        r.wf(),
        r.accepts(e),
        e == (RelayEvent::TaskDone { ok: false }) || e == RelayEvent::Received(Inbound::Failed)
            || e == RelayEvent::SendRejected,
    ensures
        r.spec_next(e).phase == (RelayPhase::Finished { failed: true }),
        r.spec_action(e) == RelayAction::Finish,
{
}

/// A shutdown or the end of the source stops taking messages but keeps every
/// running send: the loop goes on to drain them.
pub proof fn lemma_relay_stop_drains(r: Relay, e: RelayEvent)
    requires
        r.wf(),
        r.accepts(e),
        e == RelayEvent::Shutdown || e == RelayEvent::Received(Inbound::Close),
    ensures
        r.spec_next(e).phase == RelayPhase::Draining,
        r.spec_next(e).in_flight == r.in_flight,
        r.spec_action(e) == RelayAction::Wait,
{
}

/// The Kafka error signal ends the loop at once, with success, without waiting
/// for the running sends.
pub proof fn lemma_relay_kafka_error_ends(r: Relay)
    requires
        r.wf(),
        r.accepts(RelayEvent::KafkaError),
    ensures
        r.spec_next(RelayEvent::KafkaError).phase == (RelayPhase::Finished { failed: false }),
        r.spec_action(RelayEvent::KafkaError) == RelayAction::Finish,
{
}

} // verus!
