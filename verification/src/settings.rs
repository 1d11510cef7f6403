//! The settings that the service reads out of its configuration document,
//! and the addresses it derives from them.
use vstd::prelude::*;
use vstd::string::StringExecFns;
use crate::format::{lemma_signed_decimal_round_trip, push_signed_decimal, signed_decimal, signed_value};
use crate::httpserver_mod::mshttp_s::listen_address_spec;
use crate::json::{JsonValue, JsonView};

verus! {

/// A setting that the configuration lacks (or holds with the wrong type).
#[derive(PartialEq, Eq, Structural, Clone, Copy, Debug)]
pub enum SettingError {
    RedisHost,
    RedisPort,
    KafkaBrokers,
    KafkaGroupId,
    KafkaTopic,
    HttpHost,
    HttpPort,
}

/// The text that the service stops with when a setting is missing.
pub open spec fn setting_error_message(e: SettingError) -> Seq<char> {
    match e {
        SettingError::RedisHost => "redis host missing in config."@,
        SettingError::RedisPort => "redis port missing in config."@,
        SettingError::KafkaBrokers => "kafka brokers missing in config."@,
        SettingError::KafkaGroupId => "kafka group_id missing in config."@,
        SettingError::KafkaTopic => "kafka topic missing in config."@,
        SettingError::HttpHost => "http host missing in config."@,
        SettingError::HttpPort => "http port missing in config."@,
    }
}

impl SettingError {
    /// The text that the service stops with when this setting is missing.
    pub fn message(&self) -> (m: &'static str)
        ensures
            m@ == setting_error_message(*self),
    {
        match self {
            SettingError::RedisHost => "redis host missing in config.",
            SettingError::RedisPort => "redis port missing in config.",
            SettingError::KafkaBrokers => "kafka brokers missing in config.",
            SettingError::KafkaGroupId => "kafka group_id missing in config.",
            SettingError::KafkaTopic => "kafka topic missing in config.",
            SettingError::HttpHost => "http host missing in config.",
            SettingError::HttpPort => "http port missing in config.",
        }
    }
}

/// `conf[section][field].as_str()`.
pub open spec fn text_setting(conf: JsonView, section: Seq<char>, field: Seq<char>) -> Option<Seq<char>> {
    conf.member(section).member(field).as_str()
}

/// `conf[section][field].as_i64()`.
pub open spec fn int_setting(conf: JsonView, section: Seq<char>, field: Seq<char>) -> Option<i64> {
    conf.member(section).member(field).as_i64()
}

/// A text setting, or the given error when it is missing.
fn text_or(conf: &JsonValue, section: &str, field: &str, missing: SettingError) -> (r: Result<String, SettingError>)
    ensures
        r matches Ok(t) ==> text_setting(conf@, section@, field@) == Some(t@),
        r matches Err(e) ==> e == missing && text_setting(conf@, section@, field@) is None,
{
    match conf.str_at(section, field) {
        Some(t) => Ok(t.to_string()),
        None => Err(missing),
    }
}

/// An integer setting, or the given error when it is missing.
fn int_or(conf: &JsonValue, section: &str, field: &str, missing: SettingError) -> (r: Result<i64, SettingError>)
    ensures
        r matches Ok(n) ==> int_setting(conf@, section@, field@) == Some(n),
        r matches Err(e) ==> e == missing && int_setting(conf@, section@, field@) is None,
{
    match conf.i64_at(section, field) {
        Some(n) => Ok(n),
        None => Err(missing),
    }
}

/// Where the Redis server is.
pub struct RedisSettings {
    pub host: String,
    pub port: i64,
}

/// Where the Kafka brokers are, and which group and topic the service uses.
pub struct KafkaConsumerSettings {
    pub brokers: String,
    pub group_id: String,
    pub topic: String,
}

/// Where the Kafka brokers are, and which topic the service writes to.
pub struct KafkaProducerSettings {
    pub brokers: String,
    pub topic: String,
}

/// Where the service's own HTTP server is.
pub struct HttpSettings {
    pub host: String,
    pub port: i64,
}

impl View for RedisSettings {
    type V = (Seq<char>, i64);

    open spec fn view(&self) -> (Seq<char>, i64) {
        (self.host@, self.port)
    }
}

impl View for KafkaConsumerSettings {
    type V = (Seq<char>, Seq<char>, Seq<char>);

    open spec fn view(&self) -> (Seq<char>, Seq<char>, Seq<char>) {
        (self.brokers@, self.group_id@, self.topic@)
    }
}

impl View for KafkaProducerSettings {
    type V = (Seq<char>, Seq<char>);

    open spec fn view(&self) -> (Seq<char>, Seq<char>) {
        (self.brokers@, self.topic@)
    }
}

impl View for HttpSettings {
    type V = (Seq<char>, i64);

    open spec fn view(&self) -> (Seq<char>, i64) {
        (self.host@, self.port)
    }
}

/// A text setting and an integer setting of one section, checked in that
/// order.
pub open spec fn host_port(
    conf: JsonView,
    section: Seq<char>,
    no_host: SettingError,
    no_port: SettingError,
) -> Result<(Seq<char>, i64), SettingError> {
    match text_setting(conf, section, "host"@) {
        None => Err(no_host),
        Some(h) => match int_setting(conf, section, "port"@) {
            None => Err(no_port),
            Some(p) => Ok((h, p)),
        },
    }
}

/// `redis.host` (text) and `redis.port` (integer), checked in that order.
pub open spec fn redis_settings_spec(conf: JsonView) -> Result<(Seq<char>, i64), SettingError> {
    host_port(conf, "redis"@, SettingError::RedisHost, SettingError::RedisPort)
}

/// `http.host` (text) and `http.port` (integer), checked in that order.
pub open spec fn http_settings_spec(conf: JsonView) -> Result<(Seq<char>, i64), SettingError> {
    host_port(conf, "http"@, SettingError::HttpHost, SettingError::HttpPort)
}

/// `kafka.brokers`, `kafka.group_id` and `kafka.topic` (texts), checked in
/// that order.
pub open spec fn kafka_consumer_settings_spec(conf: JsonView) -> Result<(Seq<char>, Seq<char>, Seq<char>), SettingError> {
    match text_setting(conf, "kafka"@, "brokers"@) {
        None => Err(SettingError::KafkaBrokers),
        Some(b) => match text_setting(conf, "kafka"@, "group_id"@) {
            None => Err(SettingError::KafkaGroupId),
            Some(g) => match text_setting(conf, "kafka"@, "topic"@) {
                None => Err(SettingError::KafkaTopic),
                Some(t) => Ok((b, g, t)),
            },
        },
    }
}

/// `kafka.brokers` and `kafka.topic` (texts), checked in that order.
pub open spec fn kafka_producer_settings_spec(conf: JsonView) -> Result<(Seq<char>, Seq<char>), SettingError> {
    match text_setting(conf, "kafka"@, "brokers"@) {
        None => Err(SettingError::KafkaBrokers),
        Some(b) => match text_setting(conf, "kafka"@, "topic"@) {
            None => Err(SettingError::KafkaTopic),
            Some(t) => Ok((b, t)),
        },
    }
}

/// Settings as their views.
pub open spec fn redis_result_view(r: Result<RedisSettings, SettingError>) -> Result<(Seq<char>, i64), SettingError> {
    match r {
        Ok(s) => Ok(s@),
        Err(e) => Err(e),
    }
}

/// Settings as their views.
pub open spec fn http_result_view(r: Result<HttpSettings, SettingError>) -> Result<(Seq<char>, i64), SettingError> {
    match r {
        Ok(s) => Ok(s@),
        Err(e) => Err(e),
    }
}

/// Settings as their views.
pub open spec fn consumer_result_view(r: Result<KafkaConsumerSettings, SettingError>) -> Result<
    (Seq<char>, Seq<char>, Seq<char>),
    SettingError,
> {
    match r {
        Ok(s) => Ok(s@),
        Err(e) => Err(e),
    }
}

/// Settings as their views.
pub open spec fn producer_result_view(r: Result<KafkaProducerSettings, SettingError>) -> Result<
    (Seq<char>, Seq<char>),
    SettingError,
> {
    match r {
        Ok(s) => Ok(s@),
        Err(e) => Err(e),
    }
}

/// Where the Redis server is: `redis.host` and `redis.port`.
pub fn redis_settings(conf: &JsonValue) -> (r: Result<RedisSettings, SettingError>)
    ensures
        redis_result_view(r) == redis_settings_spec(conf@),
        r is Ok <==> text_setting(conf@, "redis"@, "host"@) is Some && int_setting(conf@, "redis"@, "port"@) is Some,
        r matches Ok(s) ==> text_setting(conf@, "redis"@, "host"@) == Some(s.host@) && int_setting(
            conf@,
            "redis"@,
            "port"@,
        ) == Some(s.port),
{
    let host = match text_or(conf, "redis", "host", SettingError::RedisHost) {
        Ok(h) => h,
        Err(e) => return Err(e),
    };
    let port = match int_or(conf, "redis", "port", SettingError::RedisPort) {
        Ok(p) => p,
        Err(e) => return Err(e),
    };
    Ok(RedisSettings { host, port })
}

/// What the consumer needs: `kafka.brokers`, `kafka.group_id` and
/// `kafka.topic`.
pub fn kafka_consumer_settings(conf: &JsonValue) -> (r: Result<KafkaConsumerSettings, SettingError>)
    ensures
        consumer_result_view(r) == kafka_consumer_settings_spec(conf@),
        r is Ok <==> text_setting(conf@, "kafka"@, "brokers"@) is Some && text_setting(conf@, "kafka"@, "group_id"@) is Some
            && text_setting(conf@, "kafka"@, "topic"@) is Some,
        r matches Ok(s) ==> text_setting(conf@, "kafka"@, "brokers"@) == Some(s.brokers@) && text_setting(
            conf@,
            "kafka"@,
            "group_id"@,
        ) == Some(s.group_id@) && text_setting(conf@, "kafka"@, "topic"@) == Some(s.topic@),
{
    let brokers = match text_or(conf, "kafka", "brokers", SettingError::KafkaBrokers) {
        Ok(v) => v,
        Err(e) => return Err(e),
    };
    let group_id = match text_or(conf, "kafka", "group_id", SettingError::KafkaGroupId) {
        Ok(v) => v,
        Err(e) => return Err(e),
    };
    let topic = match text_or(conf, "kafka", "topic", SettingError::KafkaTopic) {
        Ok(v) => v,
        Err(e) => return Err(e),
    };
    Ok(KafkaConsumerSettings { brokers, group_id, topic })
}

/// What the producer needs: `kafka.brokers` and `kafka.topic`.
pub fn kafka_producer_settings(conf: &JsonValue) -> (r: Result<KafkaProducerSettings, SettingError>)
    ensures
        producer_result_view(r) == kafka_producer_settings_spec(conf@),
        r is Ok <==> text_setting(conf@, "kafka"@, "brokers"@) is Some && text_setting(conf@, "kafka"@, "topic"@) is Some,
        r matches Ok(s) ==> text_setting(conf@, "kafka"@, "brokers"@) == Some(s.brokers@) && text_setting(
            conf@,
            "kafka"@,
            "topic"@,
        ) == Some(s.topic@),
{
    let brokers = match text_or(conf, "kafka", "brokers", SettingError::KafkaBrokers) {
        Ok(v) => v,
        Err(e) => return Err(e),
    };
    let topic = match text_or(conf, "kafka", "topic", SettingError::KafkaTopic) {
        Ok(v) => v,
        Err(e) => return Err(e),
    };
    Ok(KafkaProducerSettings { brokers, topic })
}

/// Where the service's own HTTP server is: `http.host` and `http.port`.
pub fn http_settings(conf: &JsonValue) -> (r: Result<HttpSettings, SettingError>)
    ensures
        http_result_view(r) == http_settings_spec(conf@),
        r is Ok <==> text_setting(conf@, "http"@, "host"@) is Some && int_setting(conf@, "http"@, "port"@) is Some,
        r matches Ok(s) ==> text_setting(conf@, "http"@, "host"@) == Some(s.host@) && int_setting(
            conf@,
            "http"@,
            "port"@,
        ) == Some(s.port),
{
    let host = match text_or(conf, "http", "host", SettingError::HttpHost) {
        Ok(h) => h,
        Err(e) => return Err(e),
    };
    let port = match int_or(conf, "http", "port", SettingError::HttpPort) {
        Ok(p) => p,
        Err(e) => return Err(e),
    };
    Ok(HttpSettings { host, port })
}

/// Whenever the consumer finds its settings, the producer finds its own, and
/// the two use the same brokers and the same topic: what the service produces
/// is what it consumes.
pub proof fn lemma_producer_feeds_consumer(conf: JsonView)
    requires
        kafka_consumer_settings_spec(conf) is Ok,
    ensures
        kafka_producer_settings_spec(conf) is Ok,
        kafka_producer_settings_spec(conf)->Ok_0.0 == kafka_consumer_settings_spec(conf)->Ok_0.0,
        kafka_producer_settings_spec(conf)->Ok_0.1 == kafka_consumer_settings_spec(conf)->Ok_0.2,
{
}

/// The settings carry exactly the configured values: when a section holds
/// its host (text) and port (integer), they are what is read; the host is
/// checked first.
pub proof fn lemma_host_port_values(conf: JsonView, section: Seq<char>, no_host: SettingError, no_port: SettingError)
    ensures
        text_setting(conf, section, "host"@) is None ==> host_port(conf, section, no_host, no_port) == Err::<
            (Seq<char>, i64),
            SettingError,
        >(no_host),
        text_setting(conf, section, "host"@) is Some && int_setting(conf, section, "port"@) is None ==> host_port(
            conf,
            section,
            no_host,
            no_port,
        ) == Err::<(Seq<char>, i64), SettingError>(no_port),
        text_setting(conf, section, "host"@) is Some && int_setting(conf, section, "port"@) is Some ==> host_port(
            conf,
            section,
            no_host,
            no_port,
        ) == Ok::<(Seq<char>, i64), SettingError>(
            (text_setting(conf, section, "host"@)->Some_0, int_setting(conf, section, "port"@)->Some_0),
        ),
{
}

/// The HTTP settings are the configured `http.host` and `http.port`, and
/// they are missing exactly when one of those is.
pub proof fn lemma_http_settings_values(conf: JsonView)
    ensures
        http_settings_spec(conf) is Ok <==> text_setting(conf, "http"@, "host"@) is Some && int_setting(conf, "http"@, "port"@) is Some,
        http_settings_spec(conf) is Ok ==> http_settings_spec(conf)->Ok_0 == (
            text_setting(conf, "http"@, "host"@)->Some_0,
            int_setting(conf, "http"@, "port"@)->Some_0,
        ),
        text_setting(conf, "http"@, "host"@) is None ==> http_settings_spec(conf) == Err::<(Seq<char>, i64), SettingError>(
            SettingError::HttpHost,
        ),
{
}

/// The Redis settings are the configured `redis.host` and `redis.port`, and
/// they are missing exactly when one of those is.
pub proof fn lemma_redis_settings_values(conf: JsonView)
    ensures
        redis_settings_spec(conf) is Ok <==> text_setting(conf, "redis"@, "host"@) is Some && int_setting(conf, "redis"@, "port"@) is Some,
        redis_settings_spec(conf) is Ok ==> redis_settings_spec(conf)->Ok_0 == (
            text_setting(conf, "redis"@, "host"@)->Some_0,
            int_setting(conf, "redis"@, "port"@)->Some_0,
        ),
        text_setting(conf, "redis"@, "host"@) is None ==> redis_settings_spec(conf) == Err::<(Seq<char>, i64), SettingError>(
            SettingError::RedisHost,
        ),
{
}

/// The consumer's settings are the configured brokers, group and topic, and
/// they are missing exactly when one of those is.
pub proof fn lemma_consumer_settings_values(conf: JsonView)
    ensures
        kafka_consumer_settings_spec(conf) is Ok <==> text_setting(conf, "kafka"@, "brokers"@) is Some && text_setting(
            conf,
            "kafka"@,
            "group_id"@,
        ) is Some && text_setting(conf, "kafka"@, "topic"@) is Some,
        kafka_consumer_settings_spec(conf) is Ok ==> kafka_consumer_settings_spec(conf)->Ok_0 == (
            text_setting(conf, "kafka"@, "brokers"@)->Some_0,
            text_setting(conf, "kafka"@, "group_id"@)->Some_0,
            text_setting(conf, "kafka"@, "topic"@)->Some_0,
        ),
{
}

/// The producer's settings are the configured brokers and topic, and they
/// are missing exactly when one of those is.
pub proof fn lemma_producer_settings_values(conf: JsonView)
    ensures
        kafka_producer_settings_spec(conf) is Ok <==> text_setting(conf, "kafka"@, "brokers"@) is Some && text_setting(
            conf,
            "kafka"@,
            "topic"@,
        ) is Some,
        kafka_producer_settings_spec(conf) is Ok ==> kafka_producer_settings_spec(conf)->Ok_0 == (
            text_setting(conf, "kafka"@, "brokers"@)->Some_0,
            text_setting(conf, "kafka"@, "topic"@)->Some_0,
        ),
{
}

/// The URL of the service's own HTTP server: `http://host:port/`.
pub open spec fn http_url_spec(host: Seq<char>, port: int) -> Seq<char> {
    "http://"@ + host + ":"@ + signed_decimal(port) + "/"@
}

/// The URL of the service's own HTTP server, which its client calls.
pub fn http_url(host: &str, port: i64) -> (url: String)
    ensures
        url@ == http_url_spec(host@, port as int),
        url@ == "http://"@ + host@ + ":"@ + signed_decimal(port as int) + "/"@,
{
    let mut url = "http://".to_string();
    url.append(host);
    url.append(":");
    push_signed_decimal(&mut url, port);
    url.append("/");
    url
}

/// The client calls the server where the server listens: the URL is the
/// listening address between `http://` and `/`.
pub proof fn lemma_url_names_listen_address(host: Seq<char>, port: int)
    ensures
        http_url_spec(host, port) == "http://"@ + listen_address_spec(host, port) + "/"@,
{
    assert(http_url_spec(host, port) =~= "http://"@ + listen_address_spec(host, port) + "/"@);
}

/// The URL is `http://`, then the host, a colon and text that reads back as
/// the port, then `/`, whatever the host and port.
pub proof fn lemma_http_url_parts(host: Seq<char>, port: int)
    ensures
        http_url_spec(host, port).len() > host.len() + 9,
        http_url_spec(host, port).subrange(0, 7) == "http://"@,
        http_url_spec(host, port).subrange(7, host.len() as int + 7) == host,
        http_url_spec(host, port)[host.len() as int + 7] == ':',
        http_url_spec(host, port).last() == '/',
        signed_value(http_url_spec(host, port).subrange(host.len() as int + 8, http_url_spec(host, port).len() - 1)) == port,
{
    reveal_strlit("http://");
    reveal_strlit(":");
    reveal_strlit("/");
    lemma_signed_decimal_round_trip(port);
    let u = http_url_spec(host, port);
    assert(u.subrange(0, 7) =~= "http://"@);
    assert(u.subrange(7, host.len() as int + 7) =~= host);
    assert(u.subrange(host.len() as int + 8, u.len() - 1) =~= signed_decimal(port));
}

} // verus!
