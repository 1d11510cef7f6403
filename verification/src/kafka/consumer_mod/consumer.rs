//! The service's Kafka consumer: how it is configured and what it does with
//! each item of its message stream.
use vstd::prelude::*;
use vstd::utf8::{decode_utf8, valid_utf8};
use rdkafka::config::ClientConfig;
use crate::kafka::client_config::{config_entries, config_log_level, config_set, config_set_log_level, new_client_config, LogLevel};

verus! {

/// The parameters of the consumer: its group and brokers, no end-of-partition
/// events, a 6 s session timeout, automatic commits, statistics every 30 s,
/// and reading from the earliest offset.
pub open spec fn consumer_entries(brokers: Seq<char>, group_id: Seq<char>) -> Map<Seq<char>, Seq<char>> {
    Map::empty().insert("group.id"@, group_id).insert("bootstrap.servers"@, brokers).insert(
        "enable.partition.eof"@,
        "false"@,
    ).insert("session.timeout.ms"@, "6000"@).insert("enable.auto.commit"@, "true"@).insert(
        "statistics.interval.ms"@,
        "30000"@,
    ).insert("auto.offset.reset"@, "earliest"@)
}

/// The consumer joins the group and the brokers it is given, with exactly
/// seven parameters: those two and the five fixed ones.
pub proof fn lemma_consumer_entries(brokers: Seq<char>, group_id: Seq<char>)
    ensures
        consumer_entries(brokers, group_id).dom().len() == 7,
        consumer_entries(brokers, group_id).contains_key("group.id"@),
        consumer_entries(brokers, group_id)["group.id"@] == group_id,
        consumer_entries(brokers, group_id).contains_key("bootstrap.servers"@),
        consumer_entries(brokers, group_id)["bootstrap.servers"@] == brokers,
        consumer_entries(brokers, group_id).contains_key("enable.partition.eof"@),
        consumer_entries(brokers, group_id)["enable.partition.eof"@] == "false"@,
        consumer_entries(brokers, group_id).contains_key("session.timeout.ms"@),
        consumer_entries(brokers, group_id)["session.timeout.ms"@] == "6000"@,
        consumer_entries(brokers, group_id).contains_key("enable.auto.commit"@),
        consumer_entries(brokers, group_id)["enable.auto.commit"@] == "true"@,
        consumer_entries(brokers, group_id).contains_key("statistics.interval.ms"@),
        consumer_entries(brokers, group_id)["statistics.interval.ms"@] == "30000"@,
        consumer_entries(brokers, group_id).contains_key("auto.offset.reset"@),
        consumer_entries(brokers, group_id)["auto.offset.reset"@] == "earliest"@,
{
    reveal_strlit("group.id");
    reveal_strlit("bootstrap.servers");
    reveal_strlit("enable.partition.eof");
    reveal_strlit("session.timeout.ms");
    reveal_strlit("enable.auto.commit");
    reveal_strlit("statistics.interval.ms");
    reveal_strlit("auto.offset.reset");
    assert("group.id"@ != "bootstrap.servers"@) by { assert("group.id"@.len() != "bootstrap.servers"@.len()); }
    assert("group.id"@ != "enable.partition.eof"@) by { assert("group.id"@.len() != "enable.partition.eof"@.len()); }
    assert("group.id"@ != "session.timeout.ms"@) by { assert("group.id"@.len() != "session.timeout.ms"@.len()); }
    assert("group.id"@ != "enable.auto.commit"@) by { assert("group.id"@.len() != "enable.auto.commit"@.len()); }
    assert("group.id"@ != "statistics.interval.ms"@) by { assert("group.id"@.len() != "statistics.interval.ms"@.len()); }
    assert("group.id"@ != "auto.offset.reset"@) by { assert("group.id"@.len() != "auto.offset.reset"@.len()); }
    assert("bootstrap.servers"@ != "enable.partition.eof"@) by { assert("bootstrap.servers"@.len() != "enable.partition.eof"@.len()); }
    assert("bootstrap.servers"@ != "session.timeout.ms"@) by { assert("bootstrap.servers"@.len() != "session.timeout.ms"@.len()); }
    assert("bootstrap.servers"@ != "enable.auto.commit"@) by { assert("bootstrap.servers"@.len() != "enable.auto.commit"@.len()); }
    assert("bootstrap.servers"@ != "statistics.interval.ms"@) by { assert("bootstrap.servers"@.len() != "statistics.interval.ms"@.len()); }
    assert("bootstrap.servers"@ != "auto.offset.reset"@) by { assert("bootstrap.servers"@[0] != "auto.offset.reset"@[0]); }
    assert("enable.partition.eof"@ != "session.timeout.ms"@) by { assert("enable.partition.eof"@.len() != "session.timeout.ms"@.len()); }
    assert("enable.partition.eof"@ != "enable.auto.commit"@) by { assert("enable.partition.eof"@.len() != "enable.auto.commit"@.len()); }
    assert("enable.partition.eof"@ != "statistics.interval.ms"@) by { assert("enable.partition.eof"@.len() != "statistics.interval.ms"@.len()); }
    assert("enable.partition.eof"@ != "auto.offset.reset"@) by { assert("enable.partition.eof"@.len() != "auto.offset.reset"@.len()); }
    assert("session.timeout.ms"@ != "enable.auto.commit"@) by { assert("session.timeout.ms"@[0] != "enable.auto.commit"@[0]); }
    assert("session.timeout.ms"@ != "statistics.interval.ms"@) by { assert("session.timeout.ms"@.len() != "statistics.interval.ms"@.len()); }
    assert("session.timeout.ms"@ != "auto.offset.reset"@) by { assert("session.timeout.ms"@.len() != "auto.offset.reset"@.len()); }
    assert("enable.auto.commit"@ != "statistics.interval.ms"@) by { assert("enable.auto.commit"@.len() != "statistics.interval.ms"@.len()); }
    assert("enable.auto.commit"@ != "auto.offset.reset"@) by { assert("enable.auto.commit"@.len() != "auto.offset.reset"@.len()); }
    assert("statistics.interval.ms"@ != "auto.offset.reset"@) by { assert("statistics.interval.ms"@.len() != "auto.offset.reset"@.len()); }
    let keys = set![
        "group.id"@,
        "bootstrap.servers"@,
        "enable.partition.eof"@,
        "session.timeout.ms"@,
        "enable.auto.commit"@,
        "statistics.interval.ms"@,
        "auto.offset.reset"@
    ];
    assert(consumer_entries(brokers, group_id).dom() =~= keys);
}

/// The configuration that the consumer is created from, logging at debug
/// level.
pub fn consumer_config(brokers: &str, group_id: &str) -> (c: ClientConfig)
    ensures
        config_entries(c) == consumer_entries(brokers@, group_id@),
        config_log_level(c) == LogLevel::Debug,
        config_entries(c).dom().len() == 7,
        config_entries(c).contains_key("group.id"@) && config_entries(c)["group.id"@] == group_id@,
        config_entries(c).contains_key("bootstrap.servers"@) && config_entries(c)["bootstrap.servers"@] == brokers@,
        config_entries(c).contains_key("enable.partition.eof"@) && config_entries(c)["enable.partition.eof"@] == "false"@,
        config_entries(c).contains_key("session.timeout.ms"@) && config_entries(c)["session.timeout.ms"@] == "6000"@,
        config_entries(c).contains_key("enable.auto.commit"@) && config_entries(c)["enable.auto.commit"@] == "true"@,
        config_entries(c).contains_key("statistics.interval.ms"@) && config_entries(c)["statistics.interval.ms"@]
            == "30000"@,
        config_entries(c).contains_key("auto.offset.reset"@) && config_entries(c)["auto.offset.reset"@] == "earliest"@,
{
    proof {
        lemma_consumer_entries(brokers@, group_id@);
    }
    let mut c = new_client_config();
    config_set(&mut c, "group.id", group_id);
    config_set(&mut c, "bootstrap.servers", brokers);
    config_set(&mut c, "enable.partition.eof", "false");
    config_set(&mut c, "session.timeout.ms", "6000");
    config_set(&mut c, "enable.auto.commit", "true");
    config_set(&mut c, "statistics.interval.ms", "30000");
    config_set(&mut c, "auto.offset.reset", "earliest");
    config_set_log_level(&mut c, LogLevel::Debug);
    c
}

/// `std::str::from_utf8`: the text that the bytes encode, when they are
/// valid UTF-8.
#[verifier::external_body]
fn str_from_utf8(bytes: &[u8]) -> (r: Option<&str>)
    ensures
        r is Some <==> valid_utf8(bytes@),
        r matches Some(s) ==> s@ == decode_utf8(bytes@),
{
    std::str::from_utf8(bytes).ok()
}

/// A message's payload as text, and whether it failed to decode: no payload
/// reads as empty text; a payload that is not UTF-8 reads as empty text and
/// is reported.
pub fn payload_text(payload: Option<&[u8]>) -> (r: (String, bool))
    ensures
        match payload {
            None => r.0@ == Seq::<char>::empty() && !r.1,
            Some(bytes) => if valid_utf8(bytes@) {
                r.0@ == decode_utf8(bytes@) && !r.1
            } else {
                r.0@ == Seq::<char>::empty() && r.1
            },
        },
{
    match payload {
        None => (String::new(), false),
        Some(bytes) => match str_from_utf8(bytes) {
            Some(s) => (s.to_string(), false),
            None => (String::new(), true),
        },
    }
}

/// An item of the consumer's message stream.
#[derive(PartialEq, Eq, Structural, Clone, Copy, Debug)]
pub enum StreamItem {
    /// The stream itself failed.
    StreamError,
    /// Kafka reported an error instead of a message.
    KafkaError,
    /// A message arrived.
    Message,
}

/// Whether the consumer commits the item's offset: only a message is
/// committed; errors are reported and skipped.
pub fn commits(item: StreamItem) -> (r: bool)
    ensures
        r <==> item == StreamItem::Message,
{
    match item {
        StreamItem::Message => true,
        _ => false,
    }
}

} // verus!
