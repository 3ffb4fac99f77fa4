//! Recognizer for Node runtime lines:
//! `<timestamp> <uuid> <INFO|WARN|ERROR> <payload>`, the payload running
//! to the end of the record. A payload that parses as a JSON object
//! promotes the whole log to its formatted form: pre-formatted user JSON
//! takes precedence over the envelope.
use vstd::prelude::*;

use crate::json;
use crate::json::spec_json_doc;
use crate::models::LogData;
use crate::models::LogDataV;
use crate::models::LogLevel;
use crate::models::Log;
use crate::models::LogV;
use crate::models::RawCloudWatchLog;
use crate::models::RawCloudWatchLogV;
use crate::models::RawValue;
use crate::models::RawValueV;
use crate::models::StructuredLog;
use crate::models::StructuredLogV;
use crate::parser::line;
use crate::parser::line::LineMatch;
use crate::text;

verus! {

/// The level token of a Node line at `i`: `INFO`, `WARN` or `ERROR`,
/// with the position just past it.
pub open spec fn spec_level_at(s: Seq<char>, i: int) -> Option<(LogLevel, int)> {
    if i >= 0 && i + 4 <= s.len() && s[i] == 'I' && s[i + 1] == 'N' && s[i + 2] == 'F' && s[i + 3]
        == 'O' {
        Some((LogLevel::Info, i + 4))
    } else if i >= 0 && i + 4 <= s.len() && s[i] == 'W' && s[i + 1] == 'A' && s[i + 2] == 'R' && s[i
        + 3] == 'N' {
        Some((LogLevel::Warn, i + 4))
    } else if i >= 0 && i + 5 <= s.len() && s[i] == 'E' && s[i + 1] == 'R' && s[i + 2] == 'R' && s[i
        + 3] == 'O' && s[i + 4] == 'R' {
        Some((LogLevel::Error, i + 5))
    } else {
        None
    }
}

/// A whole Node line matched at position `i`: timestamp, whitespace,
/// UUID, whitespace, level, whitespace, payload to the end.
pub open spec fn spec_match_at(s: Seq<char>, i: int) -> Option<LineMatch> {
    match line::spec_ts_end(s, i) {
        None => None,
        Some(te) => {
            let w1 = line::ws_run_end(s, te);
            if w1 == te || !line::spec_uuid_at(s, w1) {
                None
            } else {
                let ge = w1 + 36;
                let w2 = line::ws_run_end(s, ge);
                if w2 == ge {
                    None
                } else {
                    match spec_level_at(s, w2) {
                        None => None,
                        Some((lv, le)) => {
                            let w3 = line::ws_run_end(s, le);
                            if w3 == le {
                                None
                            } else {
                                Some(
                                    LineMatch {
                                        ts: s.subrange(i, te),
                                        guid: s.subrange(w1, ge),
                                        level: lv,
                                        data: s.subrange(w3, s.len() as int),
                                    },
                                )
                            }
                        },
                    }
                }
            }
        },
    }
}

/// The leftmost Node match at or after `i`.
pub open spec fn spec_search(s: Seq<char>, i: int) -> Option<LineMatch>
    decreases s.len() - i,
{
    if i < 0 || i >= s.len() {
        None
    } else {
        match spec_match_at(s, i) {
            Some(m) => Some(m),
            None => spec_search(s, i + 1),
        }
    }
}

/// What the Node recognizer makes of a record string: the leftmost match,
/// its payload promoted to a formatted log when it is a JSON object, held
/// as a parsed document when it is any other JSON value, and kept as raw
/// text otherwise.
pub open spec fn spec_node_log(s: Seq<char>) -> Option<LogV> {
    match spec_search(s, 0) {
        None => None,
        Some(m) => Some(spec_promote(m)),
    }
}

/// The log built from a Node match, with the payload promotion rule.
pub open spec fn spec_promote(m: LineMatch) -> LogV {
    match spec_json_doc(m.data, json::sentinel_key()) {
        Some(d) => if d.object {
            LogV::Formatted(d)
        } else {
            LogV::Unformatted(
                StructuredLogV {
                    timestamp: Some(m.ts),
                    guid: Some(m.guid),
                    level: Some(m.level),
                    data: LogDataV::Parsed(d),
                },
            )
        },
        None => LogV::Unformatted(
            StructuredLogV {
                timestamp: Some(m.ts),
                guid: Some(m.guid),
                level: Some(m.level),
                data: LogDataV::Raw(m.data),
            },
        ),
    }
}

/// What the Node recognizer yields for a raw record: nothing unless the
/// record is a string whose text matches the line shape.
pub open spec fn spec_parse(r: RawCloudWatchLogV) -> Option<LogV> {
    match r.record {
        RawValueV::Text(s) => spec_node_log(s),
        RawValueV::Other => None,
    }
}

fn level_at(v: &Vec<char>, i: usize) -> (r: Option<(LogLevel, usize)>)
    requires
        i <= v@.len(),
    ensures
        match r {
            Some((lv, e)) => spec_level_at(v@, i as int) == Some((lv, e as int)) && i < e
                <= v@.len(),
            None => spec_level_at(v@, i as int) is None,
        },
{
    if v.len() - i >= 4 && v[i] == 'I' && v[i + 1] == 'N' && v[i + 2] == 'F' && v[i + 3] == 'O' {
        Some((LogLevel::Info, i + 4))
    } else if v.len() - i >= 4 && v[i] == 'W' && v[i + 1] == 'A' && v[i + 2] == 'R' && v[i + 3]
        == 'N' {
        Some((LogLevel::Warn, i + 4))
    } else if v.len() - i >= 5 && v[i] == 'E' && v[i + 1] == 'R' && v[i + 2] == 'R' && v[i + 3]
        == 'O' && v[i + 4] == 'R' {
        Some((LogLevel::Error, i + 5))
    } else {
        None
    }
}

/// The boundaries of a Node match at `i`: timestamp end, UUID start,
/// level, payload start.
fn match_at(v: &Vec<char>, i: usize) -> (r: Option<(usize, usize, LogLevel, usize)>)
    requires
        i <= v@.len(),
    ensures
        match r {
            Some((te, g, lv, d)) => {
                &&& i < te <= g
                &&& g + 36 <= v@.len()
                &&& d <= v@.len()
                &&& spec_match_at(v@, i as int) == Some(
                    LineMatch {
                        ts: v@.subrange(i as int, te as int),
                        guid: v@.subrange(g as int, g + 36),
                        level: lv,
                        data: v@.subrange(d as int, v@.len() as int),
                    },
                )
            },
            None => spec_match_at(v@, i as int) is None,
        },
{
    let n = v.len();
    let te = match line::match_timestamp(v, i) {
        Some(te) => te,
        None => {
            return None;
        },
    };
    let w1 = line::run_ws(v, te);
    if w1 == te || !line::match_uuid(v, w1) {
        return None;
    }
    let ge = w1 + 36;
    let w2 = line::run_ws(v, ge);
    if w2 == ge {
        return None;
    }
    let (lv, le) = match level_at(v, w2) {
        Some(x) => x,
        None => {
            return None;
        },
    };
    let w3 = line::run_ws(v, le);
    if w3 == le {
        return None;
    }
    Some((te, w1, lv, w3))
}

/// Build the log a match stands for, applying the promotion rule.
fn promote(v: &Vec<char>, i: usize, te: usize, g: usize, lv: LogLevel, d: usize) -> (r: Log)
    requires
        i <= te <= v@.len(),
        g + 36 <= v@.len(),
        d <= v@.len(),
    ensures
        r@ == spec_promote(
            LineMatch {
                ts: v@.subrange(i as int, te as int),
                guid: v@.subrange(g as int, g + 36),
                level: lv,
                data: v@.subrange(d as int, v@.len() as int),
            },
        ),
{
    let n = v.len();
    let ts = text::from_chars(&text::sub_chars(v, i, te));
    let guid = text::from_chars(&text::sub_chars(v, g, g + 36));
    let data = text::from_chars(&text::sub_chars(v, d, n));
    match json::parse_json_doc(data.as_str()) {
        Some(doc) => {
            if doc.is_object() {
                Log::Formatted(doc)
            } else {
                Log::Unformatted(
                    StructuredLog {
                        timestamp: Some(ts),
                        guid: Some(guid),
                        level: Some(lv),
                        data: LogData::Parsed(doc),
                    },
                )
            }
        },
        None => Log::Unformatted(
            StructuredLog {
                timestamp: Some(ts),
                guid: Some(guid),
                level: Some(lv),
                data: LogData::Raw(data),
            },
        ),
    }
}

/// Try the Node line shape against a raw record.
#[verifier::loop_isolation(false)]
pub fn parse(log: &RawCloudWatchLog) -> (r: Option<Log>)
    ensures
        match r {
            Some(l) => spec_parse(log@) == Some(l@),
            None => spec_parse(log@) is None,
        },
{
    let s = match &log.record {
        RawValue::Text(s) => s,
        RawValue::Other => {
            return None;
        },
    };
    let v = text::to_chars(s.as_str());
    let mut i: usize = 0;
    while i < v.len()
        invariant
            0 <= i <= v@.len(),
            spec_search(v@, 0) == spec_search(v@, i as int),
        decreases v@.len() - i,
    {
        match match_at(&v, i) {
            Some((te, g, lv, d)) => {
                return Some(promote(&v, i, te, g, lv, d));
            },
            None => {},
        }
        i = i + 1;
    }
    None
}

} // verus!
