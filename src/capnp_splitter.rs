use vstd::prelude::*;
use crate::record::{
    opt_sd, opt_str, pairs_view, ts_valid, Pairs, Record, SDValue, SDValueView, SDView,
    StructuredData, FACILITY_MAX, SEVERITY_MAX,
};

verus! {

/// The value of a pair as read from a message; `Unsupported` stands for a
/// variant this reader does not know or a text that could not be read.
#[derive(Clone, Debug, PartialEq)]
pub enum PairValue {
    String(String),
    Bool(bool),
    F64(u64),
    I64(i64),
    U64(u64),
    Null,
    Unsupported,
}

/// A pair as read from a message; `key` is `None` when it could not be read.
#[derive(Clone, Debug, PartialEq)]
pub struct MessagePair {
    pub key: Option<String>,
    pub value: PairValue,
}

/// The fields of a Cap'n Proto `record` message as read from the wire. A text
/// field is `None` when it is absent or could not be read; `ts` is the bit
/// pattern of the `Float64` field.
#[derive(Clone, Debug, PartialEq)]
pub struct RecordMessage {
    pub ts: u64,
    pub hostname: Option<String>,
    pub facility: u8,
    pub severity: u8,
    pub appname: Option<String>,
    pub procid: Option<String>,
    pub msgid: Option<String>,
    pub msg: Option<String>,
    pub full_msg: Option<String>,
    pub sd_id: Option<String>,
    pub pairs: Option<Vec<MessagePair>>,
    pub extra: Option<Vec<MessagePair>>,
}

/// `k` with a leading underscore, added only when it has none.
pub open spec fn underscored(k: Seq<char>) -> Seq<char> {
    if k.len() > 0 && k[0] == '_' {
        k
    } else {
        seq!['_'] + k
    }
}

/// The structured-data entry a typed pair gives: its name with a leading
/// underscore and its value, or none for an unreadable key or value.
pub open spec fn typed_entry(p: MessagePair) -> Option<(Seq<char>, SDValueView)> {
    match p.key {
        None => None,
        Some(k) => match p.value {
            PairValue::String(s) => Some((underscored(k@), SDValueView::String(s@))),
            PairValue::Bool(b) => Some((underscored(k@), SDValueView::Bool(b))),
            PairValue::F64(b) => Some((underscored(k@), SDValueView::F64(b))),
            PairValue::I64(i) => Some((underscored(k@), SDValueView::I64(i))),
            PairValue::U64(u) => Some((underscored(k@), SDValueView::U64(u))),
            PairValue::Null => Some((underscored(k@), SDValueView::Null)),
            PairValue::Unsupported => None,
        },
    }
}

/// The structured-data entry an extra pair gives: its name as it stands and
/// its text, or none unless both the key and a text value could be read.
pub open spec fn extra_entry(p: MessagePair) -> Option<(Seq<char>, SDValueView)> {
    match (p.key, p.value) {
        (Some(k), PairValue::String(s)) => Some((k@, SDValueView::String(s@))),
        _ => None,
    }
}

/// The entries given by `ps`, in order: by the typed rules when `typed`,
/// else by the extra rules.
pub open spec fn entries(ps: Seq<MessagePair>, typed: bool) -> Pairs
    decreases ps.len(),
{
    if ps.len() == 0 {
        Seq::empty()
    } else {
        let e = if typed {
            typed_entry(ps.last())
        } else {
            extra_entry(ps.last())
        };
        entries(ps.drop_last(), typed) + match e {
            Some(x) => seq![x],
            None => Seq::empty(),
        }
    }
}

/// The pairs of an optional list: none when absent.
pub open spec fn list_entries(ps: Option<Vec<MessagePair>>, typed: bool) -> Pairs {
    match ps {
        Some(v) => entries(v@, typed),
        None => Seq::empty(),
    }
}

/// The structured data of a message: none when it has no pairs, no extra
/// pairs and no identifier; otherwise its identifier, its typed pairs, then
/// its extra pairs.
pub open spec fn message_sd(m: RecordMessage) -> Option<SDView> {
    if m.pairs is None && m.extra is None && m.sd_id is None {
        None
    } else {
        Some(
            SDView {
                sd_id: opt_str(m.sd_id),
                pairs: list_entries(m.pairs, true) + list_entries(m.extra, false),
            },
        )
    }
}

/// `k` with a leading underscore, added only when it has none.
fn underscore_name(k: &String) -> (r: String)
    ensures
        r@ == underscored(k@),
{
    if k.unicode_len() > 0 && k.get_char(0) == '_' {
        k.clone()
    } else {
        proof { reveal_strlit("_"); }
        let mut r = "_".to_owned();
        r.append(k.as_str());
        assert(r@ =~= seq!['_'] + k@);
        r
    }
}

/// Appends the entries of `ps` to `out`, as [`entries`] says.
fn push_entries(out: &mut Vec<(String, SDValue)>, ps: &Vec<MessagePair>, typed: bool)
    ensures
        pairs_view(final(out)@) == pairs_view(old(out)@) + entries(ps@, typed),
{
    let ghost start = pairs_view(out@);
    let mut i: usize = 0;
    assert(ps@.subrange(0, 0) =~= Seq::<MessagePair>::empty());
    while i < ps.len()
        invariant
            i <= ps@.len(),
            pairs_view(out@) =~= start + entries(ps@.subrange(0, i as int), typed),
        decreases ps@.len() - i,
    {
        let p = &ps[i];
        assert(ps@.subrange(0, i + 1).drop_last() =~= ps@.subrange(0, i as int));
        let ghost before = out@;
        if let Some(k) = &p.key {
            if typed {
                let v = match &p.value {
                    PairValue::String(s) => Some(SDValue::String(s.clone())),
                    PairValue::Bool(b) => Some(SDValue::Bool(*b)),
                    PairValue::F64(b) => Some(SDValue::F64(*b)),
                    PairValue::I64(x) => Some(SDValue::I64(*x)),
                    PairValue::U64(x) => Some(SDValue::U64(*x)),
                    PairValue::Null => Some(SDValue::Null),
                    PairValue::Unsupported => None,
                };
                if let Some(v) = v {
                    let name = underscore_name(k);
                    out.push((name, v));
                    assert(pairs_view(out@) =~= pairs_view(before).push((name@, v@)));
                }
            } else {
                if let PairValue::String(s) = &p.value {
                    let v = SDValue::String(s.clone());
                    out.push((k.clone(), v));
                    assert(pairs_view(out@) =~= pairs_view(before).push((k@, v@)));
                }
            }
        }
        i = i + 1;
    }
    assert(ps@.subrange(0, i as int) =~= ps@);
}

/// The pairs of a message: its typed pairs, each name given a leading
/// underscore, then its extra pairs with their names as they stand.
pub fn get_pairs(pairs: &Option<Vec<MessagePair>>, extra: &Option<Vec<MessagePair>>) -> (r: Vec<
    (String, SDValue),
>)
    ensures
        pairs_view(r@) == list_entries(*pairs, true) + list_entries(*extra, false),
{
    let mut out: Vec<(String, SDValue)> = Vec::new();
    if let Some(ps) = pairs {
        push_entries(&mut out, ps, true);
    }
    assert(pairs_view(out@) =~= list_entries(*pairs, true));
    if let Some(ps) = extra {
        push_entries(&mut out, ps, false);
    }
    assert(pairs_view(out@) =~= list_entries(*pairs, true) + list_entries(*extra, false));
    out
}

/// The structured data of a message, as [`message_sd`] says.
pub fn get_sd(message: &RecordMessage) -> (r: Option<StructuredData>)
    ensures
        opt_sd(r) == message_sd(*message),
{
    if message.pairs.is_none() && message.extra.is_none() && message.sd_id.is_none() {
        return None;
    }
    let sd_id = match &message.sd_id {
        Some(id) => Some(id.clone()),
        None => None,
    };
    let pairs = get_pairs(&message.pairs, &message.extra);
    let r = StructuredData { sd_id, pairs };
    assert(r@ == message_sd(*message)->0);
    Some(r)
}

/// A copy of an optional string.
fn copy_opt(s: &Option<String>) -> (r: Option<String>)
    ensures
        opt_str(r) == opt_str(*s),
{
    match s {
        Some(x) => Some(x.clone()),
        None => None,
    }
}

/// Whether `r` is the record that message `m` decodes to: its timestamp and
/// host name, facility and severity kept when within range, its optional
/// texts, and its structured data.
pub open spec fn decodes_to(m: RecordMessage, r: Record) -> bool {
    &&& r.ts == m.ts
    &&& m.hostname matches Some(h) && r.hostname@ == h@
    &&& r.facility == if m.facility <= FACILITY_MAX {
        Some(m.facility)
    } else {
        None
    }
    &&& r.severity == if m.severity <= SEVERITY_MAX {
        Some(m.severity)
    } else {
        None
    }
    &&& opt_str(r.appname) == opt_str(m.appname)
    &&& opt_str(r.procid) == opt_str(m.procid)
    &&& opt_str(r.msgid) == opt_str(m.msgid)
    &&& opt_str(r.msg) == opt_str(m.msg)
    &&& opt_str(r.full_msg) == opt_str(m.full_msg)
    &&& opt_sd(r.sd) == message_sd(m)
}

/// Whether message `m` names a host.
pub open spec fn has_host(m: RecordMessage) -> bool {
    m.hostname matches Some(h) && h@.len() > 0
}

/// Decodes a message into a record. A timestamp that is not a finite positive
/// double gives "Missing timestamp"; otherwise a missing or empty host name
/// gives "Missing host name"; otherwise the record is the message's.
pub fn handle_message(message: &RecordMessage) -> (r: Result<Record, &'static str>)
    ensures
        !ts_valid(message.ts) ==> r == Err::<Record, &'static str>("Missing timestamp"),
        ts_valid(message.ts) && !has_host(*message) ==> r == Err::<Record, &'static str>(
            "Missing host name",
        ),
        ts_valid(message.ts) && has_host(*message) ==> (r matches Ok(rec) && decodes_to(
            *message,
            rec,
        ) && rec.wf()),
{
    let ts = message.ts;
    if !(0 < ts && ts < crate::record::POSITIVE_INFINITY_BITS) {
        return Err("Missing timestamp");
    }
    let hostname = match &message.hostname {
        Some(h) => {
            if h.unicode_len() == 0 {
                return Err("Missing host name");
            }
            h.clone()
        },
        None => return Err("Missing host name"),
    };
    let facility = if message.facility <= FACILITY_MAX {
        Some(message.facility)
    } else {
        None
    };
    let severity = if message.severity <= SEVERITY_MAX {
        Some(message.severity)
    } else {
        None
    };
    let sd = get_sd(message);
    Ok(
        Record {
            ts,
            hostname,
            facility,
            severity,
            appname: copy_opt(&message.appname),
            procid: copy_opt(&message.procid),
            msgid: copy_opt(&message.msgid),
            msg: copy_opt(&message.msg),
            full_msg: copy_opt(&message.full_msg),
            sd,
        },
    )
}

/// The kinds of error reading one framed message can end in.
#[derive(Clone, Copy, Debug, PartialEq, Eq)]
pub enum ReadError {
    Failed,
    Overloaded,
    Disconnected,
    Unimplemented,
}

/// How long to wait before reading again after an overloaded read.
pub const OVERLOAD_RETRY_MILLIS: u64 = 250;

/// What the splitter does after one read.
#[derive(Debug, PartialEq)]
pub enum SplitterStep {
    /// Hand the decoded record on.
    Emit(Record),
    /// Drop a message that did not decode, and read the next one.
    Skip(&'static str),
    /// Wait this many milliseconds, then read again.
    Retry(u64),
    /// End the connection.
    Close,
}

/// Splits a stream of Cap'n Proto framed records into records.
pub struct CapnpSplitter;

impl CapnpSplitter {
    /// The step after one read: a read message is decoded and emitted, or
    /// skipped with the decoder's error; an overloaded read is retried after
    /// a pause; any other read error ends the connection.
    pub fn next_step(&self, read: Result<RecordMessage, ReadError>) -> (r: SplitterStep)
        ensures
            read is Ok && ts_valid(read->Ok_0.ts) && has_host(read->Ok_0) ==> (r matches SplitterStep::Emit(
                rec,
            ) && decodes_to(read->Ok_0, rec) && rec.wf()),
            read is Ok && !ts_valid(read->Ok_0.ts) ==> r == SplitterStep::Skip("Missing timestamp"),
            read is Ok && ts_valid(read->Ok_0.ts) && !has_host(read->Ok_0) ==> r == SplitterStep::Skip(
                "Missing host name",
            ),
            read == Err::<RecordMessage, ReadError>(ReadError::Overloaded) ==> r
                == SplitterStep::Retry(OVERLOAD_RETRY_MILLIS),
            read is Err && read->Err_0 != ReadError::Overloaded ==> r is Close,
    {
        match read {
            Ok(m) => match handle_message(&m) {
                Ok(rec) => SplitterStep::Emit(rec),
                Err(e) => SplitterStep::Skip(e),
            },
            Err(ReadError::Overloaded) => SplitterStep::Retry(OVERLOAD_RETRY_MILLIS),
            Err(_) => SplitterStep::Close,
        }
    }
}

/// Giving a name a leading underscore is done at most once: a second pass
/// leaves the name as the first made it.
pub proof fn lemma_underscored_idempotent(k: Seq<char>)
    ensures
        underscored(underscored(k)) == underscored(k),
        underscored(k)[0] == '_',
{
}

} // verus!
