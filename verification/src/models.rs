//! The data model of the pipeline: raw records as the platform delivers
//! them, parsed logs, severity levels, and the wire text a log ships as.
use vstd::prelude::*;

use crate::json::JsonDoc;
use crate::json::JsonDocV;
use crate::text;

verus! {

/// Enumerated severity of a parsed line.
#[derive(Clone, Copy, PartialEq, Eq, Structural, Debug)]
pub enum LogLevel {
    Info,
    Warn,
    Error,
    Trace,
    Critical,
    Debug,
}

/// The uppercase token a level is written as on the wire.
pub open spec fn spec_level_token(l: LogLevel) -> Seq<char> {
    match l {
        LogLevel::Info => "INFO"@,
        LogLevel::Warn => "WARN"@,
        LogLevel::Error => "ERROR"@,
        LogLevel::Trace => "TRACE"@,
        LogLevel::Critical => "CRITICAL"@,
        LogLevel::Debug => "DEBUG"@,
    }
}

/// Which level an uppercase token denotes, if any.
pub open spec fn spec_level_from_token(s: Seq<char>) -> Option<LogLevel> {
    if s == "INFO"@ {
        Some(LogLevel::Info)
    } else if s == "WARN"@ {
        Some(LogLevel::Warn)
    } else if s == "ERROR"@ {
        Some(LogLevel::Error)
    } else if s == "TRACE"@ {
        Some(LogLevel::Trace)
    } else if s == "CRITICAL"@ {
        Some(LogLevel::Critical)
    } else if s == "DEBUG"@ {
        Some(LogLevel::Debug)
    } else {
        None
    }
}

impl LogLevel {
    /// The token this level serializes as.
    pub fn token(&self) -> (r: &'static str)
        ensures
            r@ == spec_level_token(*self),
    {
        match self {
            LogLevel::Info => "INFO",
            LogLevel::Warn => "WARN",
            LogLevel::Error => "ERROR",
            LogLevel::Trace => "TRACE",
            LogLevel::Critical => "CRITICAL",
            LogLevel::Debug => "DEBUG",
        }
    }

    /// The level an uppercase token names, or `None` for any other string.
    pub fn try_from(level: &str) -> (r: Option<LogLevel>)
        ensures
            r == spec_level_from_token(level@),
    {
        if text::str_eq(level, "INFO") {
            Some(LogLevel::Info)
        } else if text::str_eq(level, "WARN") {
            Some(LogLevel::Warn)
        } else if text::str_eq(level, "ERROR") {
            Some(LogLevel::Error)
        } else if text::str_eq(level, "TRACE") {
            Some(LogLevel::Trace)
        } else if text::str_eq(level, "CRITICAL") {
            Some(LogLevel::Critical)
        } else if text::str_eq(level, "DEBUG") {
            Some(LogLevel::Debug)
        } else {
            None
        }
    }
}

/// The `record` field of a raw delivery: a JSON string, or anything else.
/// Only string records can hold a runtime log line; the pipeline drops the
/// rest, so their contents need not be kept.
pub enum RawValue {
    Text(String),
    Other,
}

/// Ghost form of [`RawValue`].
pub enum RawValueV {
    Text(Seq<char>),
    Other,
}

impl View for RawValue {
    type V = RawValueV;

    open spec fn view(&self) -> RawValueV {
        match self {
            RawValue::Text(s) => RawValueV::Text(s@),
            RawValue::Other => RawValueV::Other,
        }
    }
}

/// One log delivery from the platform, unparsed.
pub struct RawCloudWatchLog {
    /// ISO-8601 delivery time.
    pub time: String,
    /// The delivery type; only `"function"` records carry runtime output.
    pub kind: String,
    /// The payload: a log line as a JSON string, or some other JSON value.
    pub record: RawValue,
}

/// Ghost form of [`RawCloudWatchLog`].
pub struct RawCloudWatchLogV {
    pub time: Seq<char>,
    pub kind: Seq<char>,
    pub record: RawValueV,
}

impl View for RawCloudWatchLog {
    type V = RawCloudWatchLogV;

    open spec fn view(&self) -> RawCloudWatchLogV {
        RawCloudWatchLogV { time: self.time@, kind: self.kind@, record: self.record@ }
    }
}

impl Default for RawCloudWatchLog {
    /// An empty record: empty time and type, a non-string payload.
    fn default() -> (r: RawCloudWatchLog)
        ensures
            r@.time == Seq::<char>::empty(),
            r@.kind == Seq::<char>::empty(),
            r@.record is Other,
    {
        RawCloudWatchLog { time: String::new(), kind: String::new(), record: RawValue::Other }
    }
}

/// The payload of a structured log: the document the payload parsed as,
/// or the raw payload text when it is not JSON.
pub enum LogData {
    Parsed(JsonDoc),
    Raw(String),
}

/// Ghost form of [`LogData`].
pub enum LogDataV {
    Parsed(JsonDocV),
    Raw(Seq<char>),
}

impl View for LogData {
    type V = LogDataV;

    open spec fn view(&self) -> LogDataV {
        match self {
            LogData::Parsed(d) => LogDataV::Parsed(d@),
            LogData::Raw(s) => LogDataV::Raw(s@),
        }
    }
}

/// A parsed CloudWatch-style line split into fields.
pub struct StructuredLog {
    pub timestamp: Option<String>,
    pub guid: Option<String>,
    pub level: Option<LogLevel>,
    pub data: LogData,
}

/// Ghost form of [`StructuredLog`].
pub struct StructuredLogV {
    pub timestamp: Option<Seq<char>>,
    pub guid: Option<Seq<char>>,
    pub level: Option<LogLevel>,
    pub data: LogDataV,
}

impl View for StructuredLog {
    type V = StructuredLogV;

    open spec fn view(&self) -> StructuredLogV {
        StructuredLogV {
            timestamp: match &self.timestamp {
                Some(t) => Some(t@),
                None => None,
            },
            guid: match &self.guid {
                Some(g) => Some(g@),
                None => None,
            },
            level: self.level,
            data: self.data@,
        }
    }
}

/// A log on its way to a destination: either a line parsed into fields,
/// or a JSON object the function emitted itself, kept verbatim.
pub enum Log {
    Unformatted(StructuredLog),
    Formatted(JsonDoc),
}

/// Ghost form of [`Log`].
pub enum LogV {
    Unformatted(StructuredLogV),
    Formatted(JsonDocV),
}

impl View for Log {
    type V = LogV;

    open spec fn view(&self) -> LogV {
        match self {
            Log::Unformatted(s) => LogV::Unformatted(s@),
            Log::Formatted(d) => LogV::Formatted(d@),
        }
    }
}

/// How a structured payload is written on the wire.
pub open spec fn spec_data_text(d: LogDataV) -> Seq<char> {
    match d {
        LogDataV::Parsed(doc) => doc.text,
        LogDataV::Raw(s) => text::spec_quoted(s),
    }
}

/// The timestamp member of the wire object, empty when absent.
pub open spec fn spec_ts_part(l: StructuredLogV) -> Seq<char> {
    match l.timestamp {
        Some(t) => "\"timestamp\":"@ + text::spec_quoted(t) + seq![','],
        None => Seq::<char>::empty(),
    }
}

/// The guid member of the wire object, empty when absent.
pub open spec fn spec_guid_part(l: StructuredLogV) -> Seq<char> {
    match l.guid {
        Some(g) => "\"guid\":"@ + text::spec_quoted(g) + seq![','],
        None => Seq::<char>::empty(),
    }
}

/// The level member of the wire object, empty when absent.
pub open spec fn spec_level_part(l: StructuredLogV) -> Seq<char> {
    match l.level {
        Some(lv) => "\"level\":\""@ + spec_level_token(lv) + "\","@,
        None => Seq::<char>::empty(),
    }
}

/// The data member of the wire object, always present and last.
pub open spec fn spec_data_part(l: StructuredLogV) -> Seq<char> {
    "\"data\":"@ + spec_data_text(l.data) + seq!['}']
}

/// The wire text of a structured log: a JSON object with the fields in
/// declaration order, absent fields omitted, the level as its uppercase
/// token.
pub open spec fn spec_structured_text(l: StructuredLogV) -> Seq<char> {
    seq!['{'] + spec_ts_part(l) + spec_guid_part(l) + spec_level_part(l) + spec_data_part(l)
}

/// The wire text of a log: a formatted log ships as its captured JSON
/// verbatim, an unformatted one as the object built from its fields.
pub open spec fn spec_log_text(l: LogV) -> Seq<char> {
    match l {
        LogV::Unformatted(s) => spec_structured_text(s),
        LogV::Formatted(d) => d.text,
    }
}

/// The byte length of a log's wire text.
pub open spec fn spec_log_size(l: LogV) -> nat {
    vstd::utf8::encode_utf8(spec_log_text(l)).len()
}

#[verifier::rlimit(60)]
fn push_structured_text(l: &StructuredLog, out: &mut Vec<char>)
    ensures
        final(out)@ == old(out)@ + spec_structured_text(l@),
{
    out.push('{');
    match &l.timestamp {
        Some(t) => {
            let mut key = text::to_chars("\"timestamp\":");
            out.append(&mut key);
            let tv = text::to_chars(t.as_str());
            text::push_quoted(&tv, out);
            out.push(',');
        },
        None => {},
    }
    match &l.guid {
        Some(g) => {
            let mut key = text::to_chars("\"guid\":");
            out.append(&mut key);
            let gv = text::to_chars(g.as_str());
            text::push_quoted(&gv, out);
            out.push(',');
        },
        None => {},
    }
    match &l.level {
        Some(lv) => {
            let mut key = text::to_chars("\"level\":\"");
            out.append(&mut key);
            let mut tok = text::to_chars(lv.token());
            out.append(&mut tok);
            let mut close = text::to_chars("\",");
            out.append(&mut close);
        },
        None => {},
    }
    let mut dkey = text::to_chars("\"data\":");
    out.append(&mut dkey);
    match &l.data {
        LogData::Parsed(doc) => {
            let mut dt = text::to_chars(doc.text().as_str());
            out.append(&mut dt);
        },
        LogData::Raw(s) => {
            let sv = text::to_chars(s.as_str());
            text::push_quoted(&sv, out);
        },
    }
    out.push('}');
    assert(final(out)@ =~= old(out)@ + spec_structured_text(l@));
}

/// The first character after the member's opening quote names the member:
/// `t`, `g`, `l` or `d` according to which field comes first.
proof fn lemma_member_heads()
    ensures
        "\"timestamp\":"@.len() == 12 && "\"timestamp\":"@[1] == 't',
        "\"guid\":"@.len() == 7 && "\"guid\":"@[1] == 'g',
        "\"level\":\""@.len() == 9 && "\"level\":\""@[1] == 'l',
        "\"data\":"@.len() == 7 && "\"data\":"@[1] == 'd',
{
    reveal_strlit("\"timestamp\":");
    reveal_strlit("\"guid\":");
    reveal_strlit("\"level\":\"");
    reveal_strlit("\"data\":");
}

/// A level token starts with a letter naming the level; no two levels
/// share it.
proof fn lemma_token_head(lv: LogLevel)
    ensures
        spec_level_token(lv).len() >= 4,
        spec_level_token(lv)[0] == (match lv {
            LogLevel::Info => 'I',
            LogLevel::Warn => 'W',
            LogLevel::Error => 'E',
            LogLevel::Trace => 'T',
            LogLevel::Critical => 'C',
            LogLevel::Debug => 'D',
        }),
{
    reveal_strlit("INFO");
    reveal_strlit("WARN");
    reveal_strlit("ERROR");
    reveal_strlit("TRACE");
    reveal_strlit("CRITICAL");
    reveal_strlit("DEBUG");
}

/// The character at index 1 of the rest of the wire object names the
/// first member that is present.
proof fn lemma_rest_head(l: StructuredLogV)
    ensures
        (spec_ts_part(l) + spec_guid_part(l) + spec_level_part(l) + spec_data_part(l)).len() >= 2,
        (spec_ts_part(l) + spec_guid_part(l) + spec_level_part(l) + spec_data_part(l))[1] == (
        if l.timestamp is Some {
            't'
        } else if l.guid is Some {
            'g'
        } else if l.level is Some {
            'l'
        } else {
            'd'
        }),
{
    lemma_member_heads();
    let r = spec_ts_part(l) + spec_guid_part(l) + spec_level_part(l) + spec_data_part(l);
    if l.timestamp is Some {
        assert(r[1] == spec_ts_part(l)[1]);
        assert(spec_ts_part(l)[1] == "\"timestamp\":"@[1]);
    } else {
        assert(spec_ts_part(l).len() == 0);
        if l.guid is Some {
            assert(r[1] == spec_guid_part(l)[1]);
            assert(spec_guid_part(l)[1] == "\"guid\":"@[1]);
        } else {
            assert(spec_guid_part(l).len() == 0);
            if l.level is Some {
                assert(r[1] == spec_level_part(l)[1]);
                assert(spec_level_part(l)[1] == "\"level\":\""@[1]);
            } else {
                assert(spec_level_part(l).len() == 0);
                assert(r[1] == spec_data_part(l)[1]);
                assert(spec_data_part(l)[1] == "\"data\":"@[1]);
            }
        }
    }
}

/// The character at index 1 of the level-and-data tail names whether a
/// level is present.
proof fn lemma_tail_head(l: StructuredLogV)
    ensures
        (spec_level_part(l) + spec_data_part(l)).len() >= 2,
        (spec_level_part(l) + spec_data_part(l))[1] == (if l.level is Some {
            'l'
        } else {
            'd'
        }),
{
    lemma_member_heads();
    let r = spec_level_part(l) + spec_data_part(l);
    if l.level is Some {
        assert(r[1] == spec_level_part(l)[1]);
        assert(spec_level_part(l)[1] == "\"level\":\""@[1]);
    } else {
        assert(spec_level_part(l).len() == 0);
        assert(r[1] == spec_data_part(l)[1]);
        assert(spec_data_part(l)[1] == "\"data\":"@[1]);
    }
}

/// What follows the opening brace of the wire object.
pub open spec fn spec_rest1(l: StructuredLogV) -> Seq<char> {
    spec_ts_part(l) + spec_guid_part(l) + spec_level_part(l) + spec_data_part(l)
}

/// What follows the timestamp member, or the brace when there is none.
pub open spec fn spec_rest2(l: StructuredLogV) -> Seq<char> {
    spec_guid_part(l) + (spec_level_part(l) + spec_data_part(l))
}

/// What follows the guid member, or everything before it when absent.
pub open spec fn spec_rest3(l: StructuredLogV) -> Seq<char> {
    spec_level_part(l) + spec_data_part(l)
}

proof fn lemma_stage_brace(a: StructuredLogV, b: StructuredLogV)
    requires
        spec_structured_text(a) == spec_structured_text(b),
    ensures
        spec_rest1(a) == spec_rest1(b),
{
    assert(spec_structured_text(a) =~= seq!['{'] + spec_rest1(a));
    assert(spec_structured_text(b) =~= seq!['{'] + spec_rest1(b));
    text::lemma_strip_prefix(seq!['{'], spec_rest1(a), spec_rest1(b));
}

proof fn lemma_stage_ts(a: StructuredLogV, b: StructuredLogV)
    requires
        spec_rest1(a) == spec_rest1(b),
    ensures
        a.timestamp == b.timestamp,
        spec_rest2(a) == spec_rest2(b),
{
    lemma_member_heads();
    lemma_rest_head(a);
    lemma_rest_head(b);
    assert(spec_rest1(a)[1] == spec_rest1(b)[1]);
    assert(a.timestamp is Some <==> b.timestamp is Some);
    if a.timestamp is Some {
        let t1 = a.timestamp->0;
        let t2 = b.timestamp->0;
        assert(spec_rest1(a) =~= "\"timestamp\":"@ + text::spec_quoted(t1) + (seq![',']
            + spec_rest2(a)));
        assert(spec_rest1(b) =~= "\"timestamp\":"@ + text::spec_quoted(t2) + (seq![',']
            + spec_rest2(b)));
        text::lemma_keyed_segment(
            "\"timestamp\":"@,
            t1,
            t2,
            seq![','] + spec_rest2(a),
            seq![','] + spec_rest2(b),
        );
        text::lemma_strip_prefix(seq![','], spec_rest2(a), spec_rest2(b));
    } else {
        assert(spec_rest1(a) =~= spec_rest2(a));
        assert(spec_rest1(b) =~= spec_rest2(b));
    }
}

proof fn lemma_stage_guid(a: StructuredLogV, b: StructuredLogV)
    requires
        spec_rest2(a) == spec_rest2(b),
    ensures
        a.guid == b.guid,
        spec_rest3(a) == spec_rest3(b),
{
    lemma_member_heads();
    lemma_head_of_guid_tail(a);
    lemma_head_of_guid_tail(b);
    assert(spec_rest2(a)[1] == spec_rest2(b)[1]);
    assert(a.guid is Some <==> b.guid is Some);
    if a.guid is Some {
        let g1 = a.guid->0;
        let g2 = b.guid->0;
        assert(spec_rest2(a) =~= "\"guid\":"@ + text::spec_quoted(g1) + (seq![',']
            + spec_rest3(a)));
        assert(spec_rest2(b) =~= "\"guid\":"@ + text::spec_quoted(g2) + (seq![',']
            + spec_rest3(b)));
        text::lemma_keyed_segment(
            "\"guid\":"@,
            g1,
            g2,
            seq![','] + spec_rest3(a),
            seq![','] + spec_rest3(b),
        );
        text::lemma_strip_prefix(seq![','], spec_rest3(a), spec_rest3(b));
    } else {
        assert(spec_rest2(a) =~= spec_rest3(a));
        assert(spec_rest2(b) =~= spec_rest3(b));
    }
}

proof fn lemma_stage_level(a: StructuredLogV, b: StructuredLogV)
    requires
        spec_rest3(a) == spec_rest3(b),
    ensures
        a.level == b.level,
        spec_data_part(a) == spec_data_part(b),
{
    lemma_member_heads();
    lemma_tail_head(a);
    lemma_tail_head(b);
    assert(spec_rest3(a)[1] == spec_rest3(b)[1]);
    assert(a.level is Some <==> b.level is Some);
    if a.level is Some {
        let lv1 = a.level->0;
        let lv2 = b.level->0;
        lemma_token_head(lv1);
        lemma_token_head(lv2);
        let sa = spec_level_token(lv1) + ("\","@ + spec_data_part(a));
        let sb = spec_level_token(lv2) + ("\","@ + spec_data_part(b));
        assert(spec_rest3(a) =~= "\"level\":\""@ + sa);
        assert(spec_rest3(b) =~= "\"level\":\""@ + sb);
        text::lemma_strip_prefix("\"level\":\""@, sa, sb);
        assert(sa[0] == spec_level_token(lv1)[0]);
        assert(sb[0] == spec_level_token(lv2)[0]);
        assert(lv1 == lv2);
        text::lemma_strip_prefix(
            spec_level_token(lv1),
            "\","@ + spec_data_part(a),
            "\","@ + spec_data_part(b),
        );
        text::lemma_strip_prefix("\","@, spec_data_part(a), spec_data_part(b));
    } else {
        assert(spec_rest3(a) =~= spec_data_part(a));
        assert(spec_rest3(b) =~= spec_data_part(b));
    }
}

proof fn lemma_stage_data(a: StructuredLogV, b: StructuredLogV)
    requires
        spec_data_part(a) == spec_data_part(b),
    ensures
        spec_data_text(a.data) == spec_data_text(b.data),
{
    let xa = spec_data_text(a.data);
    let xb = spec_data_text(b.data);
    assert(spec_data_part(a) =~= "\"data\":"@ + (xa + seq!['}']));
    assert(spec_data_part(b) =~= "\"data\":"@ + (xb + seq!['}']));
    text::lemma_strip_prefix("\"data\":"@, xa + seq!['}'], xb + seq!['}']);
    assert((xa + seq!['}']).len() == xa.len() + 1);
    assert((xb + seq!['}']).len() == xb.len() + 1);
    assert forall|i: int| 0 <= i < xa.len() implies xa[i] == xb[i] by {
        assert(xa[i] == (xa + seq!['}'])[i]);
        assert(xb[i] == (xb + seq!['}'])[i]);
    }
    assert(xa =~= xb);
}

/// The wire text of a structured log determines its fields: two logs
/// that serialize to the same JSON have the same timestamp, the same
/// guid, the same level, and payloads with the same wire text, which is
/// all the wire carries of a payload. Parsing a serialized log back can
/// therefore only recover these fields.
pub proof fn lemma_wire_text_determines_fields(a: StructuredLogV, b: StructuredLogV)
    requires
        spec_structured_text(a) == spec_structured_text(b),
    ensures
        a.timestamp == b.timestamp,
        a.guid == b.guid,
        a.level == b.level,
        spec_data_text(a.data) == spec_data_text(b.data),
{
    lemma_stage_brace(a, b);
    lemma_stage_ts(a, b);
    lemma_stage_guid(a, b);
    lemma_stage_level(a, b);
    lemma_stage_data(a, b);
}

/// The character at index 1 of the guid-level-data tail names the first
/// member present there.
proof fn lemma_head_of_guid_tail(l: StructuredLogV)
    ensures
        (spec_guid_part(l) + (spec_level_part(l) + spec_data_part(l))).len() >= 2,
        (spec_guid_part(l) + (spec_level_part(l) + spec_data_part(l)))[1] == (if l.guid is Some {
            'g'
        } else if l.level is Some {
            'l'
        } else {
            'd'
        }),
{
    lemma_member_heads();
    lemma_tail_head(l);
    let r = spec_guid_part(l) + (spec_level_part(l) + spec_data_part(l));
    if l.guid is Some {
        assert(r[1] == spec_guid_part(l)[1]);
        assert(spec_guid_part(l)[1] == "\"guid\":"@[1]);
    } else {
        assert(spec_guid_part(l).len() == 0);
        assert(r[1] == (spec_level_part(l) + spec_data_part(l))[1]);
    }
}

impl Log {
    /// The serialized form this log ships as.
    pub fn to_string(&self) -> (r: String)
        ensures
            r@ == spec_log_text(self@),
    {
        match self {
            Log::Unformatted(s) => {
                let mut out: Vec<char> = Vec::new();
                push_structured_text(s, &mut out);
                text::from_chars(&out)
            },
            Log::Formatted(d) => d.text().clone(),
        }
    }

    /// The byte length of the serialized form.
    pub fn bytes_size(&self) -> (r: usize)
        ensures
            r == spec_log_size(self@),
    {
        let s = self.to_string();
        text::byte_len(s.as_str())
    }
}

} // verus!
