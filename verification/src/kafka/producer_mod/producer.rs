//! The service's Kafka producer: how it is configured and what records it
//! sends.
use vstd::prelude::*;
use rdkafka::config::ClientConfig;
use crate::kafka::client_config::{config_entries, config_set, new_client_config};

verus! {

/// The parameters of the producer: its brokers, offsets reported back, and a
/// 5 s message timeout.
pub open spec fn producer_entries(brokers: Seq<char>) -> Map<Seq<char>, Seq<char>> {
    Map::empty().insert("bootstrap.servers"@, brokers).insert("produce.offset.report"@, "true"@).insert(
        "message.timeout.ms"@,
        "5000"@,
    )
}

/// The producer talks to the brokers it is given, with exactly three
/// parameters: the brokers and the two fixed ones.
pub proof fn lemma_producer_entries(brokers: Seq<char>)
    ensures
        producer_entries(brokers).dom().len() == 3,
        producer_entries(brokers).contains_key("bootstrap.servers"@),
        producer_entries(brokers)["bootstrap.servers"@] == brokers,
        producer_entries(brokers).contains_key("produce.offset.report"@),
        producer_entries(brokers)["produce.offset.report"@] == "true"@,
        producer_entries(brokers).contains_key("message.timeout.ms"@),
        producer_entries(brokers)["message.timeout.ms"@] == "5000"@,
{
    reveal_strlit("bootstrap.servers");
    reveal_strlit("produce.offset.report");
    reveal_strlit("message.timeout.ms");
    assert("bootstrap.servers"@ != "produce.offset.report"@) by { assert("bootstrap.servers"@.len() != "produce.offset.report"@.len()); }
    assert("bootstrap.servers"@ != "message.timeout.ms"@) by { assert("bootstrap.servers"@.len() != "message.timeout.ms"@.len()); }
    assert("produce.offset.report"@ != "message.timeout.ms"@) by { assert("produce.offset.report"@.len() != "message.timeout.ms"@.len()); }
    let keys = set!["bootstrap.servers"@, "produce.offset.report"@, "message.timeout.ms"@];
    assert(producer_entries(brokers).dom() =~= keys);
}

/// The configuration that the producer is created from.
pub fn producer_config(brokers: &str) -> (c: ClientConfig)
    ensures
        config_entries(c) == producer_entries(brokers@),
        config_entries(c).dom().len() == 3,
        config_entries(c).contains_key("bootstrap.servers"@) && config_entries(c)["bootstrap.servers"@] == brokers@,
        config_entries(c).contains_key("produce.offset.report"@) && config_entries(c)["produce.offset.report"@] == "true"@,
        config_entries(c).contains_key("message.timeout.ms"@) && config_entries(c)["message.timeout.ms"@] == "5000"@,
{
    proof {
        lemma_producer_entries(brokers@);
    }
    let mut c = new_client_config();
    config_set(&mut c, "bootstrap.servers", brokers);
    config_set(&mut c, "produce.offset.report", "true");
    config_set(&mut c, "message.timeout.ms", "5000");
    c
}

/// A record to send: its topic, partition, key and payload, with no
/// timestamp and no headers.
pub struct ProduceRecord {
    pub topic: String,
    pub partition: Option<i32>,
    pub key: Option<String>,
    pub payload: Option<String>,
}

/// The record that `produce` sends: the key and value given, to the given
/// topic and partition.
pub fn produce_record(topic_name: &str, key: &str, value: &str, partition: i32) -> (r: ProduceRecord)
    ensures
        r.topic@ == topic_name@,
        r.partition == Some(partition),
        r.key matches Some(k) && k@ == key@,
        r.payload matches Some(p) && p@ == value@,
{
    ProduceRecord {
        topic: topic_name.to_string(),
        partition: Some(partition),
        key: Some(key.to_string()),
        payload: Some(value.to_string()),
    }
}

} // verus!
