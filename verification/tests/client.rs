use rdkafka::config::ClientConfig;
use websocket_source_v1::kafka::client::merge_kafka_settings;

#[test]
fn merge_adds_and_replaces_settings() {
    let mut config = ClientConfig::new();
    config.set("bootstrap.servers", "a:9092");
    config.set("group.id", "g");
    let section = vec![
        ("bootstrap.servers".to_string(), "b:9092".to_string()),
        ("linger.ms".to_string(), "5".to_string()),
        ("linger.ms".to_string(), "10".to_string()),
    ];
    merge_kafka_settings(&mut config, &section);
    assert_eq!(config.get("bootstrap.servers"), Some("b:9092"));
    assert_eq!(config.get("group.id"), Some("g"));
    assert_eq!(config.get("linger.ms"), Some("10"));
    assert_eq!(config.config_map().len(), 3);
}
