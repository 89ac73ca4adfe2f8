use vstd::prelude::*;
use crate::config::{Config, ConfigValue};
use crate::record::{opt_sd, pairs_view, Pairs, Record, SDValue, SDValueView, SDView};

verus! {

/// The position of the last field named `k`, or -1 when there is none.
pub open spec fn key_index(f: Pairs, k: Seq<char>) -> int
    decreases f.len(),
{
    if f.len() == 0 {
        -1
    } else if f.last().0 == k {
        f.len() - 1
    } else {
        key_index(f.drop_last(), k)
    }
}

/// Sets field `k` to `v`: a field already present keeps its place and takes the
/// new value (last write wins); a new field goes last.
pub open spec fn put(f: Pairs, k: Seq<char>, v: SDValueView) -> Pairs {
    let i = key_index(f, k);
    if i >= 0 {
        f.update(i, (k, v))
    } else {
        f.push((k, v))
    }
}

/// Sets each of `ps` in turn.
pub open spec fn put_all(f: Pairs, ps: Pairs) -> Pairs
    decreases ps.len(),
{
    if ps.len() == 0 {
        f
    } else {
        put(put_all(f, ps.drop_last()), ps.last().0, ps.last().1)
    }
}

/// The value of field `k`, if the object has one.
pub open spec fn field_value(f: Pairs, k: Seq<char>) -> Option<SDValueView> {
    let i = key_index(f, k);
    if 0 <= i < f.len() {
        Some(f[i].1)
    } else {
        None
    }
}

proof fn lemma_key_index_bounds(f: Pairs, k: Seq<char>)
    ensures
        -1 <= key_index(f, k) < f.len(),
        key_index(f, k) >= 0 ==> f[key_index(f, k)].0 == k,
    decreases f.len(),
{
    if f.len() > 0 && f.last().0 != k {
        lemma_key_index_bounds(f.drop_last(), k);
    }
}

/// Sets field `k` of `fields` to `v`, as [`put`] says.
fn put_field(fields: &mut Vec<(String, SDValue)>, k: String, v: SDValue)
    ensures
        pairs_view(final(fields)@) == put(pairs_view(old(fields)@), k@, v@),
{
    let ghost fv = pairs_view(fields@);
    let mut i: usize = fields.len();
    assert(fv.subrange(0, i as int) =~= fv);
    while i > 0
        invariant
            i <= fields@.len(),
            fields@ == old(fields)@,
            fv == pairs_view(fields@),
            key_index(fv, k@) == key_index(fv.subrange(0, i as int), k@),
        decreases i,
    {
        assert(fv.subrange(0, i as int).drop_last() =~= fv.subrange(0, i - 1));
        if fields[i - 1].0 == k {
            proof { lemma_key_index_bounds(fv, k@); }
            fields.set(i - 1, (k, v));
            assert(pairs_view(fields@) =~= put(fv, k@, v@));
            return;
        }
        i = i - 1;
    }
    proof { lemma_key_index_bounds(fv, k@); }
    fields.push((k, v));
    assert(pairs_view(fields@) =~= put(fv, k@, v@));
}

/// Sets each of `pairs` in turn, as [`put_all`] says.
fn put_fields(fields: &mut Vec<(String, SDValue)>, pairs: Vec<(String, SDValue)>)
    ensures
        pairs_view(final(fields)@) == put_all(pairs_view(old(fields)@), pairs_view(pairs@)),
{
    let ghost base = pairs_view(fields@);
    let ghost all = pairs_view(pairs@);
    let ghost n = pairs@.len();
    let mut rest = pairs;
    assert(all.subrange(0, 0) =~= Seq::<(Seq<char>, SDValueView)>::empty());
    while rest.len() > 0
        invariant
            rest@.len() <= n,
            n == all.len(),
            pairs_view(rest@) =~= all.subrange(n - rest@.len(), n as int),
            pairs_view(fields@) == put_all(base, all.subrange(0, n - rest@.len())),
        decreases rest@.len(),
    {
        let ghost done = n - rest@.len();
        let ghost before = rest@;
        assert(pairs_view(before)[0] == all.subrange(done, n as int)[0]);
        let (k, v) = rest.remove(0);
        assert(before[0] == (k, v));
        assert(all[done] == (k@, v@));
        assert(all.subrange(0, done + 1).drop_last() =~= all.subrange(0, done));
        put_field(fields, k, v);
        assert(rest@ == before.remove(0));
        assert(pairs_view(rest@) =~= pairs_view(before).subrange(1, before.len() as int));
        assert(pairs_view(rest@) =~= all.subrange(n - rest@.len(), n as int));
    }
    assert(all.subrange(0, n as int) =~= all);
}

/// The string value of each extra field.
pub open spec fn extra_view(extra: Seq<(String, String)>) -> Pairs {
    extra.map_values(|e: (String, String)| (e.0@, SDValueView::String(e.1@)))
}

/// The fields a structured-data block adds: its identifier under `sd_id`, then
/// each pair under its own name.
pub open spec fn sd_fields(f: Pairs, sd: SDView) -> Pairs {
    let with_id = match sd.sd_id {
        Some(id) => put(f, "sd_id"@, SDValueView::String(id)),
        None => f,
    };
    put_all(with_id, sd.pairs)
}

/// Sets `k` to the string `v` when `v` is present.
pub open spec fn put_opt(f: Pairs, k: Seq<char>, v: Option<String>) -> Pairs {
    match v {
        Some(s) => put(f, k, SDValueView::String(s@)),
        None => f,
    }
}

/// The four fields every GELF object opens with: version, host ("unknown" for
/// an empty host name), short message (or `default_message`), timestamp.
pub open spec fn gelf_base(default_message: Seq<char>, r: Record) -> Pairs {
    let host = if r.hostname@.len() == 0 {
        "unknown"@
    } else {
        r.hostname@
    };
    let short = match r.msg {
        Some(m) => m@,
        None => default_message,
    };
    seq![
        ("version"@, SDValueView::String("1.1"@)),
        ("host"@, SDValueView::String(host)),
        ("short_message"@, SDValueView::String(short)),
        ("timestamp"@, SDValueView::F64(r.ts)),
    ]
}

/// The base fields followed by level, full message, application name and
/// process id, each when set.
pub open spec fn gelf_head(default_message: Seq<char>, r: Record) -> Pairs {
    let f0 = gelf_base(default_message, r);
    let f1 = match r.severity {
        Some(s) => put(f0, "level"@, SDValueView::U64(s as u64)),
        None => f0,
    };
    put_opt(put_opt(put_opt(f1, "full_message"@, r.full_msg), "application_name"@, r.appname), "process_id"@, r.procid)
}

/// The GELF object for `r`, as its fields in order: the head fields, then the
/// configured extra fields, then the structured data.
pub open spec fn gelf_fields(default_message: Seq<char>, extra: Pairs, r: Record) -> Pairs {
    let f = put_all(gelf_head(default_message, r), extra);
    match opt_sd(r.sd) {
        Some(sd) => sd_fields(f, sd),
        None => f,
    }
}

/// Whether the GELF settings of `config` have the right types: the extra
/// fields absent or a table of strings, the default message absent or a string.
pub open spec fn gelf_config_ok(config: &Config) -> bool {
    &&& match config.spec_lookup("output.gelf_extra"@) {
        None => true,
        Some(ConfigValue::Table(t)) => forall|i: int|
            0 <= i < t@.len() ==> #[trigger] t@[i].1 is Str,
        _ => false,
    }
    &&& match config.spec_lookup("output.gelf_default_message"@) {
        None => true,
        Some(ConfigValue::Str(_)) => true,
        _ => false,
    }
}

/// The extra fields that `config` sets, in the order given.
pub open spec fn config_extra(config: &Config) -> Seq<(Seq<char>, Seq<char>)> {
    match config.spec_lookup("output.gelf_extra"@) {
        Some(ConfigValue::Table(t)) => t@.map_values(
            |e: (String, ConfigValue)|
                (e.0@, match e.1 {
                    ConfigValue::Str(s) => s@,
                    _ => Seq::empty(),
                }),
        ),
        _ => Seq::empty(),
    }
}

/// Encodes records as GELF objects.
#[derive(Clone)]
pub struct GelfEncoder {
    default_message: String,
    extra: Vec<(String, String)>,
}

impl GelfEncoder {
    /// The short message used for a record without one.
    pub closed spec fn spec_default_message(&self) -> Seq<char> {
        self.default_message@
    }

    /// The configured extra fields, in order.
    pub closed spec fn spec_extra(&self) -> Pairs {
        extra_view(self.extra@)
    }

    /// The extra fields as name and text.
    pub closed spec fn spec_extra_text(&self) -> Seq<(Seq<char>, Seq<char>)> {
        self.extra@.map_values(|e: (String, String)| (e.0@, e.1@))
    }

    /// Reads `output.gelf_extra` (default: none) and
    /// `output.gelf_default_message` (default: "-").
    pub fn new(config: &Config) -> (r: GelfEncoder)
        requires
            gelf_config_ok(config),
        ensures
            r.spec_extra_text() == config_extra(config),
            r.spec_extra() == config_extra(config).map_values(
                |e: (Seq<char>, Seq<char>)| (e.0, SDValueView::String(e.1)),
            ),
            r.spec_default_message() == match config.spec_lookup(
                "output.gelf_default_message"@,
            ) {
                Some(ConfigValue::Str(s)) => s@,
                _ => "-"@,
            },
    {
        let mut extra: Vec<(String, String)> = Vec::new();
        match config.lookup("output.gelf_extra") {
            Some(ConfigValue::Table(t)) => {
                let mut i: usize = 0;
                while i < t.len()
                    invariant
                        i <= t@.len(),
                        config.spec_lookup("output.gelf_extra"@) == Some(ConfigValue::Table(*t)),
                        forall|j: int| 0 <= j < t@.len() ==> #[trigger] t@[j].1 is Str,
                        extra@.len() == i,
                        forall|j: int|
                            0 <= j < i ==> (#[trigger] extra@[j]).0@ == t@[j].0@ && (
                            t@[j].1 matches ConfigValue::Str(s) && extra@[j].1@ == s@),
                    decreases t@.len() - i,
                {
                    assert(t@[i as int].1 is Str);
                    match &t[i].1 {
                        ConfigValue::Str(v) => extra.push((t[i].0.clone(), v.clone())),
                        _ => {},
                    }
                    i = i + 1;
                }
            },
            _ => {},
        }
        let default_message = config.str_or("output.gelf_default_message", "-");
        let r = GelfEncoder { default_message, extra };
        assert(r.spec_extra_text() =~= config_extra(config));
        assert(r.spec_extra() =~= config_extra(config).map_values(
            |e: (Seq<char>, Seq<char>)| (e.0, SDValueView::String(e.1)),
        ));
        r
    }

    /// The GELF object for `record`, as its fields in order; a field set
    /// twice keeps its first place and its last value.
    pub fn fields(&self, record: Record) -> (r: Vec<(String, SDValue)>)
        ensures
            pairs_view(r@) == gelf_fields(self.spec_default_message(), self.spec_extra(), record),
    {
        let ghost rec = record;
        let owned = record;
        let host = if owned.hostname.unicode_len() == 0 {
            "unknown".to_owned()
        } else {
            owned.hostname
        };
        let short = match owned.msg {
            Some(m) => m,
            None => self.default_message.clone(),
        };
        let mut fields: Vec<(String, SDValue)> = Vec::new();
        fields.push(("version".to_owned(), SDValue::String("1.1".to_owned())));
        fields.push(("host".to_owned(), SDValue::String(host)));
        fields.push(("short_message".to_owned(), SDValue::String(short)));
        fields.push(("timestamp".to_owned(), SDValue::F64(owned.ts)));
        assert(pairs_view(fields@) =~= gelf_base(self.default_message@, rec));
        let ghost f0 = pairs_view(fields@);
        if let Some(severity) = owned.severity {
            put_field(&mut fields, "level".to_owned(), SDValue::U64(severity as u64));
        }
        if let Some(full_msg) = owned.full_msg {
            put_field(&mut fields, "full_message".to_owned(), SDValue::String(full_msg));
        }
        if let Some(appname) = owned.appname {
            put_field(&mut fields, "application_name".to_owned(), SDValue::String(appname));
        }
        if let Some(procid) = owned.procid {
            put_field(&mut fields, "process_id".to_owned(), SDValue::String(procid));
        }
        assert(pairs_view(fields@) == gelf_head(self.default_message@, rec));
        let ghost f4 = pairs_view(fields@);
        let mut extra: Vec<(String, SDValue)> = Vec::new();
        let mut i: usize = 0;
        while i < self.extra.len()
            invariant
                i <= self.extra@.len(),
                pairs_view(extra@) =~= extra_view(self.extra@).subrange(0, i as int),
                pairs_view(fields@) == f4,
            decreases self.extra@.len() - i,
        {
            let k = self.extra[i].0.clone();
            let v = self.extra[i].1.clone();
            let ghost before = extra@;
            extra.push((k, SDValue::String(v)));
            assert(extra@ == before.push((k, SDValue::String(v))));
            assert(pairs_view(extra@) =~= pairs_view(before).push((k@, SDValueView::String(v@))));
            i = i + 1;
        }
        assert(extra_view(self.extra@).subrange(0, i as int) =~= extra_view(self.extra@));
        put_fields(&mut fields, extra);
        let ghost f5 = pairs_view(fields@);
        assert(f5 == put_all(f4, self.spec_extra()));
        if let Some(sd) = owned.sd {
            if let Some(sd_id) = sd.sd_id {
                put_field(&mut fields, "sd_id".to_owned(), SDValue::String(sd_id));
            }
            put_fields(&mut fields, sd.pairs);
            assert(pairs_view(fields@) == sd_fields(f5, opt_sd(rec.sd)->0));
        }
        assert(rec.sd is None ==> pairs_view(fields@) == f5);
        fields
    }
}

proof fn lemma_key_index_update(f: Pairs, i: int, v: SDValueView, k: Seq<char>)
    requires
        0 <= i < f.len(),
    ensures
        key_index(f.update(i, (f[i].0, v)), k) == key_index(f, k),
    decreases f.len(),
{
    let g = f.update(i, (f[i].0, v));
    if i == f.len() - 1 {
        assert(g.drop_last() =~= f.drop_last());
    } else {
        assert(g.drop_last() =~= f.drop_last().update(i, (f[i].0, v)));
        lemma_key_index_update(f.drop_last(), i, v, k);
    }
}

/// Setting one field leaves the value of every other field as it was.
pub proof fn lemma_put_other(f: Pairs, k: Seq<char>, v: SDValueView, other: Seq<char>)
    requires
        k != other,
    ensures
        field_value(put(f, k, v), other) == field_value(f, other),
{
    lemma_key_index_bounds(f, k);
    lemma_key_index_bounds(f, other);
    let i = key_index(f, k);
    if i >= 0 {
        lemma_key_index_update(f, i, v, other);
        lemma_key_index_bounds(put(f, k, v), other);
    } else {
        assert(f.push((k, v)).drop_last() =~= f);
    }
}

/// Setting fields none of which is named `other` leaves its value as it was.
pub proof fn lemma_put_all_other(f: Pairs, ps: Pairs, other: Seq<char>)
    requires
        forall|j: int| 0 <= j < ps.len() ==> (#[trigger] ps[j]).0 != other,
    ensures
        field_value(put_all(f, ps), other) == field_value(f, other),
    decreases ps.len(),
{
    if ps.len() > 0 {
        lemma_put_all_other(f, ps.drop_last(), other);
        assert(ps.last() == ps[ps.len() - 1]);
        lemma_put_other(put_all(f, ps.drop_last()), ps.last().0, ps.last().1, other);
    }
}

proof fn lemma_put_opt_other(f: Pairs, k: Seq<char>, v: Option<String>, other: Seq<char>)
    requires
        k != other,
    ensures
        field_value(put_opt(f, k, v), other) == field_value(f, other),
{
    if v is Some {
        lemma_put_other(f, k, SDValueView::String(v->0@), other);
    }
}

/// No field that a record's structured data sets is named `k`.
pub open spec fn sd_avoids(r: Record, k: Seq<char>) -> bool {
    match opt_sd(r.sd) {
        Some(sd) => forall|j: int| 0 <= j < sd.pairs.len() ==> (#[trigger] sd.pairs[j]).0 != k,
        None => true,
    }
}

/// No configured extra field is named `k`.
pub open spec fn extra_avoids(extra: Pairs, k: Seq<char>) -> bool {
    forall|j: int| 0 <= j < extra.len() ==> (#[trigger] extra[j]).0 != k
}

/// A base field named `k`, which none of the later fields overwrites, keeps
/// its value in the whole object.
proof fn lemma_base_field_kept(default_message: Seq<char>, extra: Pairs, r: Record, k: Seq<char>)
    requires
        k != "level"@,
        k != "full_message"@,
        k != "application_name"@,
        k != "process_id"@,
        k != "sd_id"@,
        extra_avoids(extra, k),
        sd_avoids(r, k),
    ensures
        field_value(gelf_fields(default_message, extra, r), k) == field_value(
            gelf_base(default_message, r),
            k,
        ),
{
    let f0 = gelf_base(default_message, r);
    let f1 = match r.severity {
        Some(s) => put(f0, "level"@, SDValueView::U64(s as u64)),
        None => f0,
    };
    if r.severity is Some {
        lemma_put_other(f0, "level"@, SDValueView::U64(r.severity->0 as u64), k);
    }
    let f2 = put_opt(f1, "full_message"@, r.full_msg);
    let f3 = put_opt(f2, "application_name"@, r.appname);
    lemma_put_opt_other(f1, "full_message"@, r.full_msg, k);
    lemma_put_opt_other(f2, "application_name"@, r.appname, k);
    lemma_put_opt_other(f3, "process_id"@, r.procid, k);
    let f5 = put_all(gelf_head(default_message, r), extra);
    lemma_put_all_other(gelf_head(default_message, r), extra, k);
    if let Some(sd) = opt_sd(r.sd) {
        let with_id = match sd.sd_id {
            Some(id) => put(f5, "sd_id"@, SDValueView::String(id)),
            None => f5,
        };
        if sd.sd_id is Some {
            lemma_put_other(f5, "sd_id"@, SDValueView::String(sd.sd_id->0), k);
        }
        lemma_put_all_other(with_id, sd.pairs, k);
    }
}

/// A record with an empty host name is sent with host "unknown", unless a
/// configured extra field or a structured-data pair is itself named "host".
pub proof fn lemma_empty_host_is_unknown(encoder: GelfEncoder, record: Record)
    requires
        record.hostname@.len() == 0,
        extra_avoids(encoder.spec_extra(), "host"@),
        sd_avoids(record, "host"@),
    ensures
        field_value(
            gelf_fields(encoder.spec_default_message(), encoder.spec_extra(), record),
            "host"@,
        ) == Some(SDValueView::String("unknown"@)),
{
    reveal_strlit("host");
    reveal_strlit("level");
    reveal_strlit("full_message");
    reveal_strlit("application_name");
    reveal_strlit("process_id");
    reveal_strlit("sd_id");
    reveal_strlit("timestamp");
    reveal_strlit("short_message");
    assert("host"@.len() == 4 && "level"@.len() == 5 && "full_message"@.len() == 12);
    assert("application_name"@.len() == 16 && "process_id"@.len() == 10 && "sd_id"@.len() == 5);
    assert("timestamp"@.len() == 9 && "short_message"@.len() == 13);
    let d = encoder.spec_default_message();
    lemma_base_field_kept(d, encoder.spec_extra(), record, "host"@);
    let f0 = gelf_base(d, record);
    assert(f0.last().0 != "host"@);
    assert(f0.drop_last().last().0 != "host"@);
    assert(f0.drop_last().drop_last().last().0 == "host"@);
    assert(key_index(f0.drop_last().drop_last(), "host"@) == 1);
    assert(key_index(f0.drop_last(), "host"@) == 1);
    assert(key_index(f0, "host"@) == 1);
}

/// A record without a short message is sent with the configured default,
/// unless a configured extra field or a structured-data pair is itself named
/// "short_message".
pub proof fn lemma_missing_message_is_default(encoder: GelfEncoder, record: Record)
    requires
        record.msg is None,
        extra_avoids(encoder.spec_extra(), "short_message"@),
        sd_avoids(record, "short_message"@),
    ensures
        field_value(
            gelf_fields(encoder.spec_default_message(), encoder.spec_extra(), record),
            "short_message"@,
        ) == Some(SDValueView::String(encoder.spec_default_message())),
{
    reveal_strlit("short_message");
    reveal_strlit("level");
    reveal_strlit("full_message");
    reveal_strlit("application_name");
    reveal_strlit("process_id");
    reveal_strlit("sd_id");
    reveal_strlit("timestamp");
    assert("level"@.len() == 5 && "full_message"@.len() == 12);
    assert("application_name"@.len() == 16 && "process_id"@.len() == 10 && "sd_id"@.len() == 5);
    assert("timestamp"@.len() == 9 && "short_message"@.len() == 13);
    let d = encoder.spec_default_message();
    lemma_base_field_kept(d, encoder.spec_extra(), record, "short_message"@);
    let f0 = gelf_base(d, record);
    assert(f0.last().0 != "short_message"@);
    assert(f0.drop_last().last().0 == "short_message"@);
    assert(key_index(f0.drop_last(), "short_message"@) == 2);
    assert(key_index(f0, "short_message"@) == 2);
}

/// Setting a field gives it the value set.
pub proof fn lemma_put_same(f: Pairs, k: Seq<char>, v: SDValueView)
    ensures
        field_value(put(f, k, v), k) == Some(v),
{
    lemma_key_index_bounds(f, k);
    let i = key_index(f, k);
    if i >= 0 {
        lemma_key_index_update(f, i, v, k);
    } else {
        assert(put(f, k, v).last().0 == k);
    }
}

/// A field of the head named `k`, which neither the extra fields nor the
/// structured data set, keeps its value in the whole object.
proof fn lemma_head_field_kept(default_message: Seq<char>, extra: Pairs, r: Record, k: Seq<char>)
    requires
        k != "sd_id"@,
        extra_avoids(extra, k),
        sd_avoids(r, k),
    ensures
        field_value(gelf_fields(default_message, extra, r), k) == field_value(
            gelf_head(default_message, r),
            k,
        ),
{
    let f5 = put_all(gelf_head(default_message, r), extra);
    lemma_put_all_other(gelf_head(default_message, r), extra, k);
    if let Some(sd) = opt_sd(r.sd) {
        let with_id = match sd.sd_id {
            Some(id) => put(f5, "sd_id"@, SDValueView::String(id)),
            None => f5,
        };
        if sd.sd_id is Some {
            lemma_put_other(f5, "sd_id"@, SDValueView::String(sd.sd_id->0), k);
        }
        lemma_put_all_other(with_id, sd.pairs, k);
    }
}

/// No extra field and no structured-data pair is named `k`.
pub open spec fn unshadowed(extra: Pairs, r: Record, k: Seq<char>) -> bool {
    extra_avoids(extra, k) && sd_avoids(r, k)
}

/// The GELF object carries the record: its host name, timestamp and short
/// message, and its severity, full message, application name and process id
/// when set, each under its own field, provided that no extra field or
/// structured-data pair takes one of those names.
pub proof fn lemma_gelf_carries_record(encoder: GelfEncoder, record: Record)
    requires
        record.hostname@.len() > 0,
        unshadowed(encoder.spec_extra(), record, "host"@),
        unshadowed(encoder.spec_extra(), record, "short_message"@),
        unshadowed(encoder.spec_extra(), record, "timestamp"@),
        unshadowed(encoder.spec_extra(), record, "level"@),
        unshadowed(encoder.spec_extra(), record, "full_message"@),
        unshadowed(encoder.spec_extra(), record, "application_name"@),
        unshadowed(encoder.spec_extra(), record, "process_id"@),
    ensures
        ({
            let f = gelf_fields(encoder.spec_default_message(), encoder.spec_extra(), record);
            &&& field_value(f, "host"@) == Some(SDValueView::String(record.hostname@))
            &&& field_value(f, "timestamp"@) == Some(SDValueView::F64(record.ts))
            &&& record.msg is Some ==> field_value(f, "short_message"@) == Some(
                SDValueView::String(record.msg->0@),
            )
            &&& record.severity is Some ==> field_value(f, "level"@) == Some(
                SDValueView::U64(record.severity->0 as u64),
            )
            &&& record.full_msg is Some ==> field_value(f, "full_message"@) == Some(
                SDValueView::String(record.full_msg->0@),
            )
            &&& record.appname is Some ==> field_value(f, "application_name"@) == Some(
                SDValueView::String(record.appname->0@),
            )
            &&& record.procid is Some ==> field_value(f, "process_id"@) == Some(
                SDValueView::String(record.procid->0@),
            )
        }),
{
    reveal_strlit("host");
    reveal_strlit("level");
    reveal_strlit("full_message");
    reveal_strlit("application_name");
    reveal_strlit("process_id");
    reveal_strlit("sd_id");
    reveal_strlit("timestamp");
    reveal_strlit("short_message");
    assert("host"@.len() == 4 && "level"@.len() == 5 && "full_message"@.len() == 12);
    assert("application_name"@.len() == 16 && "process_id"@.len() == 10 && "sd_id"@.len() == 5);
    assert("timestamp"@.len() == 9 && "short_message"@.len() == 13);
    let d = encoder.spec_default_message();
    let extra = encoder.spec_extra();
    let f0 = gelf_base(d, record);
    lemma_base_field_kept(d, extra, record, "host"@);
    lemma_base_field_kept(d, extra, record, "timestamp"@);
    lemma_base_field_kept(d, extra, record, "short_message"@);
    assert(key_index(f0.drop_last().drop_last(), "host"@) == 1);
    assert(key_index(f0.drop_last(), "host"@) == 1);
    assert(key_index(f0, "host"@) == 1);
    assert(key_index(f0.drop_last(), "short_message"@) == 2);
    assert(key_index(f0, "short_message"@) == 2);
    assert(key_index(f0, "timestamp"@) == 3);
    let f1 = match record.severity {
        Some(s) => put(f0, "level"@, SDValueView::U64(s as u64)),
        None => f0,
    };
    let f2 = put_opt(f1, "full_message"@, record.full_msg);
    let f3 = put_opt(f2, "application_name"@, record.appname);
    assert("level"@[0] != "sd_id"@[0]);
    lemma_head_field_kept(d, extra, record, "level"@);
    lemma_head_field_kept(d, extra, record, "full_message"@);
    lemma_head_field_kept(d, extra, record, "application_name"@);
    lemma_head_field_kept(d, extra, record, "process_id"@);
    if record.severity is Some {
        lemma_put_same(f0, "level"@, SDValueView::U64(record.severity->0 as u64));
    }
    lemma_put_opt_other(f1, "full_message"@, record.full_msg, "level"@);
    lemma_put_opt_other(f2, "application_name"@, record.appname, "level"@);
    lemma_put_opt_other(f3, "process_id"@, record.procid, "level"@);
    if record.full_msg is Some {
        lemma_put_same(f1, "full_message"@, SDValueView::String(record.full_msg->0@));
    }
    lemma_put_opt_other(f2, "application_name"@, record.appname, "full_message"@);
    lemma_put_opt_other(f3, "process_id"@, record.procid, "full_message"@);
    if record.appname is Some {
        lemma_put_same(f2, "application_name"@, SDValueView::String(record.appname->0@));
    }
    lemma_put_opt_other(f3, "process_id"@, record.procid, "application_name"@);
    if record.procid is Some {
        lemma_put_same(f3, "process_id"@, SDValueView::String(record.procid->0@));
    }
}

/// The value of the last pair named `k` in `ps`, if there is one.
pub open spec fn last_value(ps: Pairs, k: Seq<char>) -> Option<SDValueView>
    decreases ps.len(),
{
    if ps.len() == 0 {
        None
    } else if ps.last().0 == k {
        Some(ps.last().1)
    } else {
        last_value(ps.drop_last(), k)
    }
}

/// After setting `ps` in turn, a name that occurs among them holds the value
/// of its last occurrence.
pub proof fn lemma_put_all_last(f: Pairs, ps: Pairs, k: Seq<char>)
    requires
        last_value(ps, k) is Some,
    ensures
        field_value(put_all(f, ps), k) == last_value(ps, k),
    decreases ps.len(),
{
    if ps.last().0 == k {
        lemma_put_same(put_all(f, ps.drop_last()), k, ps.last().1);
    } else {
        lemma_put_all_last(f, ps.drop_last(), k);
        lemma_put_other(put_all(f, ps.drop_last()), ps.last().0, ps.last().1, k);
    }
}

/// Every structured-data pair of a record reaches the GELF object under its
/// own name, typed as its variant; of pairs that share a name, the last one
/// gives the value.
pub proof fn lemma_gelf_carries_sd(encoder: GelfEncoder, record: Record, k: Seq<char>)
    requires
        opt_sd(record.sd) matches Some(sd) && last_value(sd.pairs, k) is Some,
    ensures
        field_value(
            gelf_fields(encoder.spec_default_message(), encoder.spec_extra(), record),
            k,
        ) == last_value(opt_sd(record.sd)->0.pairs, k),
{
    let sd = opt_sd(record.sd)->0;
    let f5 = put_all(gelf_head(encoder.spec_default_message(), record), encoder.spec_extra());
    let with_id = match sd.sd_id {
        Some(id) => put(f5, "sd_id"@, SDValueView::String(id)),
        None => f5,
    };
    lemma_put_all_last(with_id, sd.pairs, k);
}

} // verus!
