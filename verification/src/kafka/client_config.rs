//! Kafka client configurations, held in rdkafka's `ClientConfig`.
use vstd::prelude::*;
use rdkafka::config::{ClientConfig, RDKafkaLogLevel};

verus! {

/// rdkafka's client configuration: named parameters and a log level.
#[verifier::external_type_specification]
#[verifier::external_body]
pub struct ExClientConfig(ClientConfig);

/// The levels of librdkafka's log.
#[derive(PartialEq, Eq, Structural, Clone, Copy, Debug)]
pub enum LogLevel {
    Emerg,
    Alert,
    Critical,
    Error,
    Warning,
    Notice,
    Info,
    Debug,
}

/// The parameters that a client configuration holds, by name.
pub uninterp spec fn config_entries(c: ClientConfig) -> Map<Seq<char>, Seq<char>>;

/// The log level that a client configuration holds.
pub uninterp spec fn config_log_level(c: ClientConfig) -> LogLevel;

/// An empty configuration: `ClientConfig::new`. Its log level follows the
/// global level of the `log` crate at that moment, which this contract does
/// not state.
#[verifier::external_body]
pub(crate) fn new_client_config() -> (c: ClientConfig)
    ensures
        config_entries(c) =~= Map::empty(),
{
    ClientConfig::new()
}

/// `ClientConfig::set`: the parameter `key` takes the value `value`.
#[verifier::external_body]
pub(crate) fn config_set(c: &mut ClientConfig, key: &str, value: &str)
    ensures
        config_entries(*final(c)) == config_entries(*old(c)).insert(key@, value@),
        config_log_level(*final(c)) == config_log_level(*old(c)),
{
    c.set(key, value);
}

/// `ClientConfig::set_log_level`: the configuration's log level becomes
/// `level`.
#[verifier::external_body]
pub(crate) fn config_set_log_level(c: &mut ClientConfig, level: LogLevel)
    ensures
        config_entries(*final(c)) == config_entries(*old(c)),
        config_log_level(*final(c)) == level,
{
    c.set_log_level(
        match level {
            LogLevel::Emerg => RDKafkaLogLevel::Emerg,
            LogLevel::Alert => RDKafkaLogLevel::Alert,
            LogLevel::Critical => RDKafkaLogLevel::Critical,
            LogLevel::Error => RDKafkaLogLevel::Error,
            LogLevel::Warning => RDKafkaLogLevel::Warning,
            LogLevel::Notice => RDKafkaLogLevel::Notice,
            LogLevel::Info => RDKafkaLogLevel::Info,
            LogLevel::Debug => RDKafkaLogLevel::Debug,
        },
    );
}

} // verus!
