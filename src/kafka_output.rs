use vstd::prelude::*;
use crate::config::{Config, ConfigValue};

verus! {

/// The number of Kafka workers unless configured otherwise.
pub const KAFKA_DEFAULT_THREADS: u32 = 1;

/// The largest worker count accepted: the largest 32-bit signed integer.
pub const KAFKA_MAX_THREADS: i64 = 0x7fff_ffff;

/// The settings of the Kafka output.
pub struct KafkaSettings {
    /// The topic every payload is published to.
    pub topic: String,
    /// Options handed to the Kafka client library, in the order given.
    pub librdkafka: Vec<(String, String)>,
    /// The number of workers draining the queue.
    pub threads: u32,
}

/// Whether every value of a table is a string.
pub open spec fn all_str(t: Seq<(String, ConfigValue)>) -> bool {
    forall|i: int| 0 <= i < t.len() ==> #[trigger] t[i].1 is Str
}

/// The client options table of `config`; empty when there is none.
pub open spec fn kafka_options(config: &Config) -> Seq<(String, ConfigValue)> {
    match config.spec_lookup("output.librdkafka"@) {
        Some(ConfigValue::Table(t)) => t@,
        _ => Seq::empty(),
    }
}

/// The error, if any, that the Kafka settings of `config` give, checked in
/// this order: the topic, the client options, the worker count.
pub open spec fn kafka_error(config: &Config) -> Option<&'static str> {
    if !(config.spec_lookup("output.topic"@) matches Some(ConfigValue::Str(_))) {
        Some("output.topic must be a string")
    } else if !(config.spec_lookup("output.librdkafka"@) matches Some(ConfigValue::Table(_))) {
        Some("output.librdkafka must be set")
    } else if !all_str(kafka_options(config)) {
        Some("All output.librdkafka settings MUST be strings even numbers")
    } else if !match config.spec_lookup("output.threads"@) {
        None => true,
        Some(ConfigValue::Integer(n)) => 0 <= n <= KAFKA_MAX_THREADS,
        _ => false,
    } {
        Some("output.threads must be a 32-bit integer")
    } else {
        None
    }
}

impl KafkaSettings {
    /// Reads `output.topic` (required string), `output.librdkafka` (required
    /// table of strings) and `output.threads` (a 32-bit integer, default 1).
    pub fn from_config(config: &Config) -> (r: Result<KafkaSettings, &'static str>)
        ensures
            kafka_error(config) matches Some(e) ==> r == Err::<KafkaSettings, &'static str>(e),
            kafka_error(config) is None ==> (r matches Ok(s) && {
                &&& config.spec_lookup("output.topic"@) == Some(ConfigValue::Str(s.topic))
                &&& s.librdkafka@.len() == kafka_options(config).len()
                &&& forall|i: int|
                    0 <= i < s.librdkafka@.len() ==> {
                        let e = #[trigger] kafka_options(config)[i];
                        s.librdkafka@[i].0@ == e.0@ && (e.1 matches ConfigValue::Str(v)
                            && s.librdkafka@[i].1@ == v@)
                    }
                &&& s.threads == match config.spec_lookup("output.threads"@) {
                    Some(ConfigValue::Integer(n)) => n as u32,
                    _ => KAFKA_DEFAULT_THREADS,
                }
            }),
    {
        let topic = match config.lookup("output.topic") {
            Some(ConfigValue::Str(t)) => t.clone(),
            _ => return Err("output.topic must be a string"),
        };
        let table = match config.lookup("output.librdkafka") {
            Some(ConfigValue::Table(t)) => t,
            _ => return Err("output.librdkafka must be set"),
        };
        let mut librdkafka: Vec<(String, String)> = Vec::new();
        let mut i: usize = 0;
        while i < table.len()
            invariant
                i <= table@.len(),
                table@ == kafka_options(config),
                config.spec_lookup("output.topic"@) == Some(ConfigValue::Str(topic)),
                config.spec_lookup("output.librdkafka"@) matches Some(ConfigValue::Table(_)),
                librdkafka@.len() == i,
                forall|j: int| 0 <= j < i ==> #[trigger] table@[j].1 is Str,
                forall|j: int|
                    0 <= j < i ==> (#[trigger] librdkafka@[j]).0@ == table@[j].0@ && (
                    table@[j].1 matches ConfigValue::Str(v) && librdkafka@[j].1@ == v@),
            decreases table@.len() - i,
        {
            match &table[i].1 {
                ConfigValue::Str(v) => librdkafka.push((table[i].0.clone(), v.clone())),
                _ => {
                    assert(!all_str(kafka_options(config)));
                    return Err("All output.librdkafka settings MUST be strings even numbers");
                },
            }
            i = i + 1;
        }
        assert(all_str(kafka_options(config)));
        let threads = match config.lookup("output.threads") {
            None => KAFKA_DEFAULT_THREADS,
            Some(ConfigValue::Integer(n)) => {
                if *n < 0 || *n > KAFKA_MAX_THREADS {
                    return Err("output.threads must be a 32-bit integer");
                }
                *n as u32
            },
            Some(_) => return Err("output.threads must be a 32-bit integer"),
        };
        Ok(KafkaSettings { topic, librdkafka, threads })
    }
}

} // verus!
