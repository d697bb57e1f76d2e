//! The loop that reads Kafka records and republishes them to gRPC subscribers.
use vstd::prelude::*;

verus! {

/// The payload of a consumed record.
#[derive(PartialEq, Eq, Structural, Clone, Copy, Debug)]
pub enum Payload {
    /// The record has no payload.
    Missing,
    /// The payload decodes as a subscription update.
    Decoded,
    /// The payload does not decode.
    Undecodable,
}

/// Something the consumer loop waited for happened.
#[derive(PartialEq, Eq, Structural, Clone, Copy, Debug)]
pub enum ConsumerEvent {
    Shutdown,
    KafkaError,
    /// Reading the next record failed.
    RecvFailed,
    /// A record arrived.
    Received(Payload),
}

/// What the caller does next.
#[derive(PartialEq, Eq, Structural, Clone, Copy, Debug)]
pub enum ConsumerAction {
    /// Leave the loop and wait for the gRPC server to stop; `warn_shutdown`
    /// when the stop came from the shutdown signal.
    Stop { warn_shutdown: bool },
    /// Return the error of the failed read.
    Fail,
    /// Count the record and send the update to the subscribers.
    Publish,
    /// Count the record and log that its payload does not decode.
    WarnUndecodable,
    /// Count the record and go on.
    Ignore,
}

/// The answer to each event.
pub open spec fn spec_consumer_step(e: ConsumerEvent) -> ConsumerAction {
    match e {
        ConsumerEvent::Shutdown => ConsumerAction::Stop { warn_shutdown: true },
        ConsumerEvent::KafkaError => ConsumerAction::Stop { warn_shutdown: false },
        ConsumerEvent::RecvFailed => ConsumerAction::Fail,
        ConsumerEvent::Received(Payload::Decoded) => ConsumerAction::Publish,
        ConsumerEvent::Received(Payload::Undecodable) => ConsumerAction::WarnUndecodable,
        ConsumerEvent::Received(Payload::Missing) => ConsumerAction::Ignore,
    }
}

/// The consumer stops on the shutdown or Kafka error signal (warning only for
/// a shutdown), fails exactly when a read fails, publishes exactly the records
/// whose payload decodes, and warns exactly for those whose payload does not.
pub proof fn lemma_consumer_reactions(e: ConsumerEvent)
    ensures
        spec_consumer_step(e) is Stop <==> (e == ConsumerEvent::Shutdown || e == ConsumerEvent::KafkaError),
        spec_consumer_step(e) matches ConsumerAction::Stop { warn_shutdown } ==> (warn_shutdown <==> e
            == ConsumerEvent::Shutdown),
        spec_consumer_step(e) == ConsumerAction::Fail <==> e == ConsumerEvent::RecvFailed,
        spec_consumer_step(e) == ConsumerAction::Publish <==> e == ConsumerEvent::Received(Payload::Decoded),
        spec_consumer_step(e) == ConsumerAction::WarnUndecodable <==> e == ConsumerEvent::Received(
            Payload::Undecodable,
        ),
        spec_consumer_step(e) == ConsumerAction::Ignore <==> e == ConsumerEvent::Received(Payload::Missing),
{
}

/// Decides what the consumer loop does with an event.
pub fn consumer_step(e: ConsumerEvent) -> (res: ConsumerAction)
    ensures
        res == spec_consumer_step(e),
{
    match e {
        ConsumerEvent::Shutdown => ConsumerAction::Stop { warn_shutdown: true },
        ConsumerEvent::KafkaError => ConsumerAction::Stop { warn_shutdown: false },
        ConsumerEvent::RecvFailed => ConsumerAction::Fail,
        ConsumerEvent::Received(Payload::Decoded) => ConsumerAction::Publish,
        ConsumerEvent::Received(Payload::Undecodable) => ConsumerAction::WarnUndecodable,
        ConsumerEvent::Received(Payload::Missing) => ConsumerAction::Ignore,
    }
}

} // verus!
