use flowgger::config::{Config, ConfigValue};
use flowgger::gelf_encoder::GelfEncoder;
use flowgger::record::{Record, SDValue, StructuredData};

fn s(x: &str) -> String {
    x.to_string()
}

fn record(ts: f64, hostname: &str, msg: Option<&str>) -> Record {
    Record {
        ts: ts.to_bits(),
        hostname: s(hostname),
        facility: None,
        severity: None,
        appname: None,
        procid: None,
        msgid: None,
        msg: msg.map(s),
        full_msg: None,
        sd: None,
    }
}

fn empty_config() -> Config {
    Config { entries: Vec::new() }
}

fn text(v: &str) -> SDValue {
    SDValue::String(s(v))
}

#[test]
fn gelf_minimal() {
    let encoder = GelfEncoder::new(&empty_config());
    let fields = encoder.fields(record(1.5, "h", Some("hi")));
    assert_eq!(
        fields,
        vec![
            (s("version"), text("1.1")),
            (s("host"), text("h")),
            (s("short_message"), text("hi")),
            (s("timestamp"), SDValue::F64(1.5f64.to_bits())),
        ]
    );
}

#[test]
fn gelf_empty_hostname_and_unset_msg() {
    let encoder = GelfEncoder::new(&empty_config());
    let fields = encoder.fields(record(2.0, "", None));
    assert_eq!(fields[1], (s("host"), text("unknown")));
    assert_eq!(fields[2], (s("short_message"), text("-")));
    assert_eq!(fields[3], (s("timestamp"), SDValue::F64(2.0f64.to_bits())));
    assert_eq!(fields.len(), 4);
}

#[test]
fn gelf_extras() {
    let config = Config {
        entries: vec![(
            s("output.gelf_extra"),
            ConfigValue::Table(vec![(s("_env"), ConfigValue::Str(s("prod")))]),
        )],
    };
    let encoder = GelfEncoder::new(&config);
    let fields = encoder.fields(record(1.5, "h", Some("hi")));
    assert_eq!(fields.len(), 5);
    assert_eq!(fields[4], (s("_env"), text("prod")));
}

#[test]
fn gelf_configured_default_message() {
    let config = Config {
        entries: vec![(s("output.gelf_default_message"), ConfigValue::Str(s("none given")))],
    };
    let encoder = GelfEncoder::new(&config);
    let fields = encoder.fields(record(3.0, "h", None));
    assert_eq!(fields[2], (s("short_message"), text("none given")));
}

#[test]
fn gelf_optional_fields_in_order() {
    let encoder = GelfEncoder::new(&empty_config());
    let mut r = record(1.0, "h", Some("m"));
    r.severity = Some(3);
    r.full_msg = Some(s("full"));
    r.appname = Some(s("app"));
    r.procid = Some(s("42"));
    r.msgid = Some(s("ignored"));
    r.facility = Some(1);
    let fields = encoder.fields(r);
    let names: Vec<&str> = fields.iter().map(|f| f.0.as_str()).collect();
    assert_eq!(
        names,
        vec![
            "version",
            "host",
            "short_message",
            "timestamp",
            "level",
            "full_message",
            "application_name",
            "process_id"
        ]
    );
    assert_eq!(fields[4].1, SDValue::U64(3));
    assert_eq!(fields[7].1, text("42"));
}

#[test]
fn gelf_structured_data_typed_and_last_write_wins() {
    let encoder = GelfEncoder::new(&empty_config());
    let mut r = record(1.0, "h", Some("m"));
    r.sd = Some(StructuredData {
        sd_id: Some(s("id@1")),
        pairs: vec![
            (s("_flag"), SDValue::Bool(true)),
            (s("_n"), SDValue::I64(-4)),
            (s("host"), text("other")),
            (s("_nothing"), SDValue::Null),
            (s("_n"), SDValue::U64(9)),
        ],
    });
    let fields = encoder.fields(r);
    assert_eq!(
        fields,
        vec![
            (s("version"), text("1.1")),
            (s("host"), text("other")),
            (s("short_message"), text("m")),
            (s("timestamp"), SDValue::F64(1.0f64.to_bits())),
            (s("sd_id"), text("id@1")),
            (s("_flag"), SDValue::Bool(true)),
            (s("_n"), SDValue::U64(9)),
            (s("_nothing"), SDValue::Null),
        ]
    );
}
