use flowgger::config::{Config, ConfigValue};
use flowgger::kafka_output::KafkaSettings;

fn s(x: &str) -> String {
    x.to_string()
}

fn base() -> Vec<(String, ConfigValue)> {
    vec![
        (s("output.topic"), ConfigValue::Str(s("logs"))),
        (
            s("output.librdkafka"),
            ConfigValue::Table(vec![
                (s("bootstrap.servers"), ConfigValue::Str(s("k:9092"))),
                (s("queue.buffering.max.ms"), ConfigValue::Str(s("10"))),
            ]),
        ),
    ]
}

#[test]
fn kafka_settings_defaults() {
    let settings = KafkaSettings::from_config(&Config { entries: base() }).unwrap();
    assert_eq!(settings.topic, "logs");
    assert_eq!(settings.threads, 1);
    assert_eq!(
        settings.librdkafka,
        vec![(s("bootstrap.servers"), s("k:9092")), (s("queue.buffering.max.ms"), s("10"))]
    );
}

#[test]
fn kafka_settings_threads() {
    let mut entries = base();
    entries.push((s("output.threads"), ConfigValue::Integer(4)));
    assert_eq!(KafkaSettings::from_config(&Config { entries }).unwrap().threads, 4);
    let mut entries = base();
    entries.push((s("output.threads"), ConfigValue::Integer(-1)));
    assert_eq!(
        KafkaSettings::from_config(&Config { entries }).err(),
        Some("output.threads must be a 32-bit integer")
    );
    let mut entries = base();
    entries.push((s("output.threads"), ConfigValue::Str(s("4"))));
    assert_eq!(
        KafkaSettings::from_config(&Config { entries }).err(),
        Some("output.threads must be a 32-bit integer")
    );
}

#[test]
fn kafka_settings_errors() {
    let entries = vec![base().remove(1)];
    assert_eq!(
        KafkaSettings::from_config(&Config { entries }).err(),
        Some("output.topic must be a string")
    );
    let entries = vec![base().remove(0)];
    assert_eq!(
        KafkaSettings::from_config(&Config { entries }).err(),
        Some("output.librdkafka must be set")
    );
    let entries = vec![
        (s("output.topic"), ConfigValue::Str(s("logs"))),
        (
            s("output.librdkafka"),
            ConfigValue::Table(vec![(s("retries"), ConfigValue::Integer(3))]),
        ),
    ];
    assert_eq!(
        KafkaSettings::from_config(&Config { entries }).err(),
        Some("All output.librdkafka settings MUST be strings even numbers")
    );
}
