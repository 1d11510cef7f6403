use rust_ms::json::{JsonNumber, JsonValue};
use rust_ms::msbase::config::{config_content, config_file, load_config};
use rust_ms::msbase::{parse_json, parsed_root, JsonSyntaxError};
use rust_ms::settings::{
    http_settings, http_url, kafka_consumer_settings, kafka_producer_settings, redis_settings, SettingError,
};

fn text(s: &str) -> JsonValue {
    JsonValue::String(s.to_string())
}

fn num(n: u64) -> JsonValue {
    JsonValue::Number(JsonNumber::PosInt(n))
}

fn object(members: Vec<(&str, JsonValue)>) -> JsonValue {
    JsonValue::Object(members.into_iter().map(|(k, v)| (k.to_string(), v)).collect())
}

fn full_config() -> JsonValue {
    object(vec![
        ("redis", object(vec![("host", text("localhost")), ("port", num(6379))])),
        (
            "kafka",
            object(vec![("brokers", text("localhost:9092")), ("group_id", text("rust-ms")), ("topic", text("rust-topic"))]),
        ),
        ("http", object(vec![("host", text("127.0.0.1")), ("port", num(8080))])),
    ])
}

#[test]
fn settings_from_full_config() {
    let conf = full_config();
    let r = redis_settings(&conf).unwrap();
    assert_eq!((r.host.as_str(), r.port), ("localhost", 6379));
    let k = kafka_consumer_settings(&conf).unwrap();
    assert_eq!((k.brokers.as_str(), k.group_id.as_str(), k.topic.as_str()), ("localhost:9092", "rust-ms", "rust-topic"));
    let p = kafka_producer_settings(&conf).unwrap();
    assert_eq!((p.brokers.as_str(), p.topic.as_str()), ("localhost:9092", "rust-topic"));
    let h = http_settings(&conf).unwrap();
    assert_eq!((h.host.as_str(), h.port), ("127.0.0.1", 8080));
}

#[test]
fn empty_config_misses_first_setting() {
    let conf = object(vec![]);
    assert_eq!(redis_settings(&conf).err(), Some(SettingError::RedisHost));
    assert_eq!(kafka_consumer_settings(&conf).err(), Some(SettingError::KafkaBrokers));
    assert_eq!(kafka_producer_settings(&conf).err(), Some(SettingError::KafkaBrokers));
    assert_eq!(http_settings(&conf).err(), Some(SettingError::HttpHost));
}

#[test]
fn port_of_wrong_type_is_missing() {
    let conf = object(vec![("redis", object(vec![("host", text("h")), ("port", text("6379"))]))]);
    assert_eq!(redis_settings(&conf).err(), Some(SettingError::RedisPort));
}

#[test]
fn consumer_needs_group() {
    let conf = object(vec![("kafka", object(vec![("brokers", text("b")), ("topic", text("t"))]))]);
    assert_eq!(kafka_consumer_settings(&conf).err(), Some(SettingError::KafkaGroupId));
    assert!(kafka_producer_settings(&conf).is_ok());
}

#[test]
fn producer_needs_topic() {
    let conf = object(vec![("kafka", object(vec![("brokers", text("b"))]))]);
    assert_eq!(kafka_producer_settings(&conf).err(), Some(SettingError::KafkaTopic));
}

#[test]
fn http_port_missing() {
    let conf = object(vec![("http", object(vec![("host", text("h"))]))]);
    assert_eq!(http_settings(&conf).err(), Some(SettingError::HttpPort));
}

#[test]
fn error_messages() {
    assert_eq!(SettingError::RedisHost.message(), "redis host missing in config.");
    assert_eq!(SettingError::RedisPort.message(), "redis port missing in config.");
    assert_eq!(SettingError::KafkaBrokers.message(), "kafka brokers missing in config.");
    assert_eq!(SettingError::KafkaGroupId.message(), "kafka group_id missing in config.");
    assert_eq!(SettingError::KafkaTopic.message(), "kafka topic missing in config.");
    assert_eq!(SettingError::HttpHost.message(), "http host missing in config.");
    assert_eq!(SettingError::HttpPort.message(), "http port missing in config.");
}

#[test]
fn url_of_http_server() {
    assert_eq!(http_url("127.0.0.1", 8080), "http://127.0.0.1:8080/");
}

#[test]
fn default_config_file() {
    assert_eq!(config_file(None), "./config/default.json");
    assert_eq!(config_file(Some("other.json")), "other.json");
}

#[test]
fn unreadable_config_is_empty_document() {
    assert_eq!(config_content(None), "{}");
    assert_eq!(config_content(Some("{\"a\":1}".to_string())), "{\"a\":1}");
}

#[test]
fn null_document_is_no_config() {
    assert!(parsed_root(JsonValue::Null).is_none());
    assert!(matches!(parsed_root(JsonValue::Bool(false)), Some(JsonValue::Bool(false))));
}

#[test]
fn url_wraps_listen_address() {
    let addr = rust_ms::httpserver_mod::mshttp_s::listen_address("127.0.0.1", 8080);
    assert_eq!(http_url("127.0.0.1", 8080), format!("http://{}/", addr));
}

#[test]
fn producer_uses_consumer_brokers_and_topic() {
    let conf = full_config();
    let c = kafka_consumer_settings(&conf).unwrap();
    let p = kafka_producer_settings(&conf).unwrap();
    assert_eq!(c.brokers, p.brokers);
    assert_eq!(c.topic, p.topic);
}

#[test]
fn parse_json_reads_document() {
    let doc = parse_json("{\"redis\": {\"host\": \"localhost\", \"port\": 6379}}").unwrap().unwrap();
    assert_eq!(doc.str_at("redis", "host"), Some("localhost"));
    assert_eq!(doc.i64_at("redis", "port"), Some(6379));
}

#[test]
fn parse_json_numbers() {
    let doc = parse_json("{\"a\": -3, \"b\": 18446744073709551615, \"c\": 1.5}").unwrap().unwrap();
    assert!(matches!(doc.get("a"), Some(JsonValue::Number(JsonNumber::NegInt(-3)))));
    assert!(matches!(doc.get("b"), Some(JsonValue::Number(JsonNumber::PosInt(u64::MAX)))));
    assert!(matches!(doc.get("c"), Some(JsonValue::Number(JsonNumber::Float))));
}

#[test]
fn parse_json_sorts_members_by_name() {
    match parse_json("{\"b\": 1, \"a\": [true, null]}").unwrap().unwrap() {
        JsonValue::Object(members) => {
            assert_eq!(members.len(), 2);
            assert_eq!(members[0].0, "a");
            assert!(matches!(&members[0].1, JsonValue::Array(items) if items.len() == 2));
            assert_eq!(members[1].0, "b");
        },
        _ => panic!("expected an object"),
    }
}

#[test]
fn parse_json_null_and_errors() {
    assert!(parse_json("null").unwrap().is_none());
    assert!(parse_json(" null ").unwrap().is_none());
    assert_eq!(parse_json("{").err(), Some(JsonSyntaxError));
    assert_eq!(parse_json("").err(), Some(JsonSyntaxError));
}

#[test]
fn load_config_falls_back_to_empty_document() {
    let conf = load_config(None).unwrap().unwrap();
    assert!(matches!(&conf, JsonValue::Object(m) if m.is_empty()));
    assert_eq!(redis_settings(&conf).err(), Some(SettingError::RedisHost));
    let conf = load_config(Some("{\"http\": {\"host\": \"h\", \"port\": 1}}".to_string())).unwrap().unwrap();
    assert!(http_settings(&conf).is_ok());
}
