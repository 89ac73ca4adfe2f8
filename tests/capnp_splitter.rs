use flowgger::capnp_splitter::{
    get_pairs, get_sd, handle_message, CapnpSplitter, MessagePair, PairValue, ReadError,
    RecordMessage, SplitterStep, OVERLOAD_RETRY_MILLIS,
};
use flowgger::record::SDValue;

fn s(x: &str) -> String {
    x.to_string()
}

fn message(ts: f64, hostname: Option<&str>) -> RecordMessage {
    RecordMessage {
        ts: ts.to_bits(),
        hostname: hostname.map(s),
        facility: 3,
        severity: 6,
        appname: Some(s("app")),
        procid: None,
        msgid: Some(s("mid")),
        msg: Some(s("hello")),
        full_msg: None,
        sd_id: None,
        pairs: None,
        extra: None,
    }
}

fn pair(key: Option<&str>, value: PairValue) -> MessagePair {
    MessagePair { key: key.map(s), value }
}

#[test]
fn capnp_zero_timestamp_is_missing() {
    assert_eq!(handle_message(&message(0.0, Some("h"))).unwrap_err(), "Missing timestamp");
}

#[test]
fn capnp_bad_timestamps_are_missing() {
    for ts in [-1.0, f64::NAN, f64::INFINITY, -0.0] {
        assert_eq!(handle_message(&message(ts, Some("h"))).unwrap_err(), "Missing timestamp");
    }
}

#[test]
fn capnp_missing_or_empty_host_name() {
    assert_eq!(handle_message(&message(1.0, None)).unwrap_err(), "Missing host name");
    assert_eq!(handle_message(&message(1.0, Some(""))).unwrap_err(), "Missing host name");
}

#[test]
fn capnp_decodes_fields() {
    let r = handle_message(&message(1.25, Some("h"))).unwrap();
    assert_eq!(r.ts, 1.25f64.to_bits());
    assert_eq!(r.hostname, "h");
    assert_eq!(r.facility, Some(3));
    assert_eq!(r.severity, Some(6));
    assert_eq!(r.appname, Some(s("app")));
    assert_eq!(r.procid, None);
    assert_eq!(r.msgid, Some(s("mid")));
    assert_eq!(r.msg, Some(s("hello")));
    assert!(r.sd.is_none());
}

#[test]
fn capnp_out_of_range_numbers_unset() {
    let mut m = message(1.0, Some("h"));
    m.facility = 24;
    m.severity = 8;
    let r = handle_message(&m).unwrap();
    assert_eq!(r.facility, None);
    assert_eq!(r.severity, None);
    m.facility = 23;
    m.severity = 7;
    let r = handle_message(&m).unwrap();
    assert_eq!(r.facility, Some(23));
    assert_eq!(r.severity, Some(7));
}

#[test]
fn capnp_pairs_get_underscore_extras_verbatim() {
    let pairs = Some(vec![
        pair(Some("_a"), PairValue::Bool(false)),
        pair(Some("b"), PairValue::U64(7)),
        pair(None, PairValue::Null),
        pair(Some("c"), PairValue::Unsupported),
        pair(Some(""), PairValue::Null),
    ]);
    let extra = Some(vec![
        pair(Some("x"), PairValue::String(s("y"))),
        pair(Some("z"), PairValue::I64(1)),
    ]);
    assert_eq!(
        get_pairs(&pairs, &extra),
        vec![
            (s("_a"), SDValue::Bool(false)),
            (s("_b"), SDValue::U64(7)),
            (s("_"), SDValue::Null),
            (s("x"), SDValue::String(s("y"))),
        ]
    );
}

#[test]
fn capnp_sd_presence() {
    let m = message(1.0, Some("h"));
    assert!(get_sd(&m).is_none());
    let mut m = message(1.0, Some("h"));
    m.sd_id = Some(s("id"));
    let sd = get_sd(&m).unwrap();
    assert_eq!(sd.sd_id, Some(s("id")));
    assert!(sd.pairs.is_empty());
    let mut m = message(1.0, Some("h"));
    m.extra = Some(Vec::new());
    let sd = get_sd(&m).unwrap();
    assert_eq!(sd.sd_id, None);
    assert!(sd.pairs.is_empty());
}

#[test]
fn capnp_overload_retry() {
    let splitter = CapnpSplitter;
    assert_eq!(
        splitter.next_step(Err(ReadError::Overloaded)),
        SplitterStep::Retry(OVERLOAD_RETRY_MILLIS)
    );
    assert_eq!(OVERLOAD_RETRY_MILLIS, 250);
    match splitter.next_step(Ok(message(5.0, Some("h")))) {
        SplitterStep::Emit(r) => assert_eq!(r.hostname, "h"),
        other => panic!("unexpected step {:?}", other),
    }
    assert_eq!(splitter.next_step(Err(ReadError::Disconnected)), SplitterStep::Close);
}

#[test]
fn capnp_fatal_errors_close_and_bad_records_skip() {
    let splitter = CapnpSplitter;
    assert_eq!(splitter.next_step(Err(ReadError::Failed)), SplitterStep::Close);
    assert_eq!(splitter.next_step(Err(ReadError::Unimplemented)), SplitterStep::Close);
    assert_eq!(
        splitter.next_step(Ok(message(0.0, Some("h")))),
        SplitterStep::Skip("Missing timestamp")
    );
}
