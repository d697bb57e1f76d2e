use websocket_source_v1::env::{
    build_kafka_config, build_kafka_env_config, build_request_env_config, optional_env_value,
    prometheus_address_text, required_env_value, ConfigError, EnvConfig,
};

fn vars(pairs: &[(&str, &str)]) -> Vec<(String, String)> {
    pairs.iter().map(|(k, v)| (k.to_string(), v.to_string())).collect()
}

fn full() -> Vec<(String, String)> {
    vars(&[
        ("KAFKA_TOPIC", "events"),
        ("KAFKA_QUEUE_SIZE", "100"),
        ("REQUEST_BODY", "{\"op\":\"subscribe\"}"),
        ("REQUEST_URLS", "{main: 'wss://a.example/ws', backup: \"wss://b.example/ws\",}"),
        ("REQUEST_KEY", "backup"),
        ("KAFKA_BOOTSTRAP_SERVERS", "kafka:9092"),
        ("KAFKA_STATISTICS_INTERVAL_MS", "1000"),
        ("KAFKA_SASL_USERNAME", "user"),
    ])
}

fn missing(err: ConfigError) -> String {
    match err {
        ConfigError::MissingVar(name) => name,
        _ => panic!("expected a missing variable"),
    }
}

#[test]
fn lookup_takes_the_first_pair() {
    let env = vars(&[("A", "1"), ("B", "2"), ("A", "3")]);
    assert_eq!(optional_env_value(&env, "A"), Some("1".to_string()));
    assert_eq!(optional_env_value(&env, "C"), None);
    assert_eq!(required_env_value(&env, "B").ok(), Some("2".to_string()));
    assert_eq!(missing(required_env_value(&env, "C").err().unwrap()), "C");
}

#[test]
fn kafka_env_config_reads_topic_and_queue_size() {
    let c = build_kafka_env_config(&full()).ok().unwrap();
    assert_eq!(c.topic, "events");
    assert_eq!(c.queue_size, 100);
}

#[test]
fn kafka_env_config_errors_in_order() {
    assert_eq!(missing(build_kafka_env_config(&vars(&[])).err().unwrap()), "KAFKA_TOPIC");
    assert_eq!(
        missing(build_kafka_env_config(&vars(&[("KAFKA_TOPIC", "t")])).err().unwrap()),
        "KAFKA_QUEUE_SIZE"
    );
    for bad in ["", "-1", "ten", "1.5", "18446744073709551616"] {
        match build_kafka_env_config(&vars(&[("KAFKA_TOPIC", "t"), ("KAFKA_QUEUE_SIZE", bad)])) {
            Err(ConfigError::InvalidNumber(name)) => assert_eq!(name, "KAFKA_QUEUE_SIZE"),
            _ => panic!("{bad:?} is no queue size"),
        }
    }
    let c = build_kafka_env_config(&vars(&[("KAFKA_TOPIC", "t"), ("KAFKA_QUEUE_SIZE", "+0")])).ok().unwrap();
    assert_eq!(c.queue_size, 0);
}

#[test]
fn request_env_config_picks_url_by_key() {
    let c = build_request_env_config(&full()).ok().unwrap();
    assert_eq!(c.url, "wss://b.example/ws");
    assert_eq!(c.body, "{\"op\":\"subscribe\"}");
}

#[test]
fn request_env_config_errors() {
    let mut env = full();
    env.retain(|(k, _)| k != "REQUEST_BODY");
    assert_eq!(missing(build_request_env_config(&env).err().unwrap()), "REQUEST_BODY");

    let mut env = vars(&[("REQUEST_BODY", "b"), ("REQUEST_URLS", "not json"), ("REQUEST_KEY", "k")]);
    match build_request_env_config(&env) {
        Err(ConfigError::InvalidUrlMap(text)) => assert_eq!(text, "not json"),
        _ => panic!("urls must be a JSON5 object"),
    }
    env[1].1 = "{a: 1}".to_string();
    assert!(matches!(build_request_env_config(&env), Err(ConfigError::InvalidUrlMap(_))));
    env[1].1 = "{a: 'x'}".to_string();
    match build_request_env_config(&env) {
        Err(ConfigError::UnknownRequestKey(key)) => assert_eq!(key, "k"),
        _ => panic!("the key names no url"),
    }
}

#[test]
fn kafka_config_sets_required_and_present_optional_settings() {
    let c = build_kafka_config(&full()).ok().unwrap();
    assert_eq!(c.get("bootstrap.servers"), Some("kafka:9092"));
    assert_eq!(c.get("statistics.interval.ms"), Some("1000"));
    assert_eq!(c.get("sasl.username"), Some("user"));
    assert_eq!(c.get("sasl.password"), None);
    assert_eq!(c.config_map().len(), 3);
}

#[test]
fn kafka_config_requires_servers_then_interval() {
    assert_eq!(missing(build_kafka_config(&vars(&[])).err().unwrap()), "KAFKA_BOOTSTRAP_SERVERS");
    assert_eq!(
        missing(build_kafka_config(&vars(&[("KAFKA_BOOTSTRAP_SERVERS", "k")])).err().unwrap()),
        "KAFKA_STATISTICS_INTERVAL_MS"
    );
}

#[test]
fn load_reads_everything() {
    let mut env = full();
    env.push(("PROMETHEUS_ADDRESS".to_string(), "127.0.0.1:8873".to_string()));
    let c = EnvConfig::load(&env).ok().unwrap();
    assert_eq!(c.kafka.topic, "events");
    assert_eq!(c.request.url, "wss://b.example/ws");
    assert_eq!(c.kafka_config.get("bootstrap.servers"), Some("kafka:9092"));
    assert_eq!(c.prometheus_address.as_deref(), Some("127.0.0.1:8873"));
    assert_eq!(prometheus_address_text(&full()), None);
}

#[test]
fn load_reports_the_first_error() {
    let mut env = full();
    env.retain(|(k, _)| k != "KAFKA_TOPIC" && k != "REQUEST_KEY" && k != "KAFKA_BOOTSTRAP_SERVERS");
    assert_eq!(missing(EnvConfig::load(&env).err().unwrap()), "KAFKA_TOPIC");
    env.push(("KAFKA_TOPIC".to_string(), "t".to_string()));
    assert_eq!(missing(EnvConfig::load(&env).err().unwrap()), "REQUEST_KEY");
    env.push(("REQUEST_KEY".to_string(), "main".to_string()));
    assert_eq!(missing(EnvConfig::load(&env).err().unwrap()), "KAFKA_BOOTSTRAP_SERVERS");
}

#[test]
fn error_messages_carry_the_panic_text() {
    assert_eq!(ConfigError::MissingVar("X".to_string()).message(), "X");
    assert_eq!(ConfigError::UnknownRequestKey("k".to_string()).message(), "k");
}
