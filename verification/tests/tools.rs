use websocket_source_v1::action::{ActionSection, ArgsAction, MissingSection};
use websocket_source_v1::kafka::consume::{consumer_step, ConsumerAction, ConsumerEvent, Payload};

#[test]
fn each_tool_takes_its_section() {
    assert!(matches!(ArgsAction::Dedup.select_section(Some(1), Some("g"), Some(3.0)), Ok(ActionSection::Dedup(1))));
    assert!(matches!(ArgsAction::Grpc2Kafka.select_section(Some(1), Some("g"), None::<u8>), Ok(ActionSection::Grpc2Kafka("g"))));
    assert!(matches!(ArgsAction::Kafka2Grpc.select_section(None::<u8>, None::<u8>, Some(3)), Ok(ActionSection::Kafka2Grpc(3))));
}

#[test]
fn missing_sections_are_named() {
    let none = || (None::<u8>, None::<u8>, None::<u8>);
    let (d, g, k) = none();
    assert!(matches!(ArgsAction::Dedup.select_section(d, g, k), Err(MissingSection::Dedup)));
    let (d, g, k) = none();
    assert!(matches!(ArgsAction::Grpc2Kafka.select_section(d, g, k), Err(MissingSection::Grpc2Kafka)));
    let (d, g, k) = none();
    assert!(matches!(ArgsAction::Kafka2Grpc.select_section(d, g, k), Err(MissingSection::Kafka2Grpc)));
    assert_eq!(MissingSection::Dedup.message(), "`dedup` section in config should be defined");
    assert_eq!(MissingSection::Grpc2Kafka.message(), "`grpc2kafka` section in config should be defined");
    assert_eq!(MissingSection::Kafka2Grpc.message(), "`kafka2grpc` section in config should be defined");
}

#[test]
fn log_errors_are_debug_text() {
    assert_eq!(ArgsAction::serialize_log_error("boom"), "\"boom\"");
    assert_eq!(ArgsAction::serialize_log_error(Some(3)), "Some(3)");
}

#[test]
fn consumer_reactions() {
    assert_eq!(consumer_step(ConsumerEvent::Shutdown), ConsumerAction::Stop { warn_shutdown: true });
    assert_eq!(consumer_step(ConsumerEvent::KafkaError), ConsumerAction::Stop { warn_shutdown: false });
    assert_eq!(consumer_step(ConsumerEvent::RecvFailed), ConsumerAction::Fail);
    assert_eq!(consumer_step(ConsumerEvent::Received(Payload::Decoded)), ConsumerAction::Publish);
    assert_eq!(consumer_step(ConsumerEvent::Received(Payload::Undecodable)), ConsumerAction::WarnUndecodable);
    assert_eq!(consumer_step(ConsumerEvent::Received(Payload::Missing)), ConsumerAction::Ignore);
}
