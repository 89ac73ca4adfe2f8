use vstd::prelude::*;

verus! {

/// Largest facility number a record may carry.
pub const FACILITY_MAX: u8 = 23;

/// Largest severity number a record may carry.
pub const SEVERITY_MAX: u8 = 7;

/// The IEEE 754 bit pattern of positive infinity; every finite positive
/// double lies strictly between zero and this pattern.
pub const POSITIVE_INFINITY_BITS: u64 = 0x7ff0_0000_0000_0000;

/// A timestamp, held as the bit pattern of a double, is usable when the double
/// is finite and strictly positive.
pub open spec fn ts_valid(bits: u64) -> bool {
    0 < bits && bits < POSITIVE_INFINITY_BITS
}

/// A structured-data value. A double is held as its IEEE 754 bit pattern.
#[derive(Clone, Debug, PartialEq)]
pub enum SDValue {
    String(String),
    Bool(bool),
    F64(u64),
    I64(i64),
    U64(u64),
    Null,
}

/// The mathematical value of an [`SDValue`].
pub enum SDValueView {
    String(Seq<char>),
    Bool(bool),
    F64(u64),
    I64(i64),
    U64(u64),
    Null,
}

impl View for SDValue {
    type V = SDValueView;

    open spec fn view(&self) -> SDValueView {
        match self {
            SDValue::String(s) => SDValueView::String(s@),
            SDValue::Bool(b) => SDValueView::Bool(*b),
            SDValue::F64(b) => SDValueView::F64(*b),
            SDValue::I64(i) => SDValueView::I64(*i),
            SDValue::U64(u) => SDValueView::U64(*u),
            SDValue::Null => SDValueView::Null,
        }
    }
}

/// An ordered list of named values, in the order they were given.
pub type Pairs = Seq<(Seq<char>, SDValueView)>;

/// The view of a list of named values.
pub open spec fn pairs_view(p: Seq<(String, SDValue)>) -> Pairs {
    p.map_values(|e: (String, SDValue)| (e.0@, e.1@))
}

/// The view of an optional string.
pub open spec fn opt_str(o: Option<String>) -> Option<Seq<char>> {
    match o {
        Some(s) => Some(s@),
        None => None,
    }
}

/// Structured data: an optional identifier and ordered pairs; names may repeat.
#[derive(Clone, Debug, PartialEq)]
pub struct StructuredData {
    pub sd_id: Option<String>,
    pub pairs: Vec<(String, SDValue)>,
}

/// The mathematical value of [`StructuredData`].
pub struct SDView {
    pub sd_id: Option<Seq<char>>,
    pub pairs: Pairs,
}

impl View for StructuredData {
    type V = SDView;

    open spec fn view(&self) -> SDView {
        SDView { sd_id: opt_str(self.sd_id), pairs: pairs_view(self.pairs@) }
    }
}

/// The view of optional structured data.
pub open spec fn opt_sd(o: Option<StructuredData>) -> Option<SDView> {
    match o {
        Some(sd) => Some(sd@),
        None => None,
    }
}

/// The canonical log record. The timestamp `ts` is the bit pattern of the
/// double giving seconds since the Unix epoch.
#[derive(Clone, Debug, PartialEq)]
pub struct Record {
    pub ts: u64,
    pub hostname: String,
    pub facility: Option<u8>,
    pub severity: Option<u8>,
    pub appname: Option<String>,
    pub procid: Option<String>,
    pub msgid: Option<String>,
    pub msg: Option<String>,
    pub full_msg: Option<String>,
    pub sd: Option<StructuredData>,
}

impl Record {
    /// What every decoded record satisfies: a finite positive timestamp, a
    /// host name, and syslog numbers within their ranges.
    pub open spec fn wf(&self) -> bool {
        &&& ts_valid(self.ts)
        &&& self.hostname@.len() > 0
        &&& (self.facility matches Some(f) ==> f <= FACILITY_MAX)
        &&& (self.severity matches Some(s) ==> s <= SEVERITY_MAX)
    }
}

} // verus!
