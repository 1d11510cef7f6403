use rust_ms::kafka::consumer_mod::consumer::{commits, consumer_config, payload_text, StreamItem};
use rust_ms::kafka::kafka::{log_version_info, version_line};
use rust_ms::kafka::producer_mod::producer::{produce_record, producer_config};

#[test]
fn consumer_configuration() {
    let c = consumer_config("localhost:9092", "rust-ms");
    assert_eq!(c.get("group.id"), Some("rust-ms"));
    assert_eq!(c.get("bootstrap.servers"), Some("localhost:9092"));
    assert_eq!(c.get("enable.partition.eof"), Some("false"));
    assert_eq!(c.get("session.timeout.ms"), Some("6000"));
    assert_eq!(c.get("enable.auto.commit"), Some("true"));
    assert_eq!(c.get("statistics.interval.ms"), Some("30000"));
    assert_eq!(c.get("auto.offset.reset"), Some("earliest"));
    assert_eq!(format!("{:?}", c.log_level), "Debug");
}

#[test]
fn producer_configuration() {
    let c = producer_config("localhost:9092");
    assert_eq!(c.get("bootstrap.servers"), Some("localhost:9092"));
    assert_eq!(c.get("produce.offset.report"), Some("true"));
    assert_eq!(c.get("message.timeout.ms"), Some("5000"));
    assert_eq!(c.get("group.id"), None);
}

#[test]
fn payload_decoding() {
    assert_eq!(payload_text(None), (String::new(), false));
    assert_eq!(payload_text(Some("héllo".as_bytes())), ("héllo".to_string(), false));
    assert_eq!(payload_text(Some(&[0xff, 0xfe])), (String::new(), true));
}

#[test]
fn only_messages_are_committed() {
    assert!(commits(StreamItem::Message));
    assert!(!commits(StreamItem::KafkaError));
    assert!(!commits(StreamItem::StreamError));
}

#[test]
fn record_to_send() {
    let r = produce_record("rust-topic", "rustkey1", "rustvalue1", 0);
    assert_eq!(r.topic, "rust-topic");
    assert_eq!(r.partition, Some(0));
    assert_eq!(r.key.as_deref(), Some("rustkey1"));
    assert_eq!(r.payload.as_deref(), Some("rustvalue1"));
}

#[test]
fn version_line_format() {
    assert_eq!(version_line(0x10ff, "1.6.0"), "rd_kafka_version: 0x000010ff, 1.6.0");
    assert_eq!(version_line(0, ""), "rd_kafka_version: 0x00000000, ");
}

#[test]
fn linked_version_line() {
    let (number, name) = rdkafka::util::get_rdkafka_version();
    let line = log_version_info();
    assert_eq!(line, format!("rd_kafka_version: 0x{:08x}, {}", number, name));
}
