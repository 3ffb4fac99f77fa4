//! Recognizer for Python runtime lines:
//! `<[INFO]|[WARNING]|[ERROR]> <timestamp> <uuid> <payload>`, the payload
//! running to the end of the record. `[WARNING]` maps to the `WARN`
//! level. A Python line is never promoted to a formatted log.
use vstd::prelude::*;

use crate::json;
use crate::json::spec_json_doc;
use crate::models::LogData;
use crate::models::LogDataV;
use crate::models::LogLevel;
use crate::models::Log;
use crate::models::LogV;
use crate::models::RawCloudWatchLog;
use crate::models::RawCloudWatchLogV;
use crate::models::RawValue;
use crate::models::RawValueV;
use crate::models::StructuredLog;
use crate::models::StructuredLogV;
use crate::parser::line;
use crate::parser::line::LineMatch;
use crate::text;

verus! {

/// The bracketed level token of a Python line at `i`, with the position
/// just past it.
pub open spec fn spec_level_at(s: Seq<char>, i: int) -> Option<(LogLevel, int)> {
    if i >= 0 && i + 6 <= s.len() && s[i] == '[' && s[i + 1] == 'I' && s[i + 2] == 'N' && s[i + 3]
        == 'F' && s[i + 4] == 'O' && s[i + 5] == ']' {
        Some((LogLevel::Info, i + 6))
    } else if i >= 0 && i + 9 <= s.len() && s[i] == '[' && s[i + 1] == 'W' && s[i + 2] == 'A' && s[i
        + 3] == 'R' && s[i + 4] == 'N' && s[i + 5] == 'I' && s[i + 6] == 'N' && s[i + 7] == 'G'
        && s[i + 8] == ']' {
        Some((LogLevel::Warn, i + 9))
    } else if i >= 0 && i + 7 <= s.len() && s[i] == '[' && s[i + 1] == 'E' && s[i + 2] == 'R' && s[i
        + 3] == 'R' && s[i + 4] == 'O' && s[i + 5] == 'R' && s[i + 6] == ']' {
        Some((LogLevel::Error, i + 7))
    } else {
        None
    }
}

/// A whole Python line matched at position `i`: level, whitespace,
/// timestamp, whitespace, UUID, whitespace, payload to the end.
pub open spec fn spec_match_at(s: Seq<char>, i: int) -> Option<LineMatch> {
    match spec_level_at(s, i) {
        None => None,
        Some((lv, le)) => {
            let w1 = line::ws_run_end(s, le);
            if w1 == le {
                None
            } else {
                match line::spec_ts_end(s, w1) {
                    None => None,
                    Some(te) => {
                        let w2 = line::ws_run_end(s, te);
                        if w2 == te || !line::spec_uuid_at(s, w2) {
                            None
                        } else {
                            let ge = w2 + 36;
                            let w3 = line::ws_run_end(s, ge);
                            if w3 == ge {
                                None
                            } else {
                                Some(
                                    LineMatch {
                                        ts: s.subrange(w1, te),
                                        guid: s.subrange(w2, ge),
                                        level: lv,
                                        data: s.subrange(w3, s.len() as int),
                                    },
                                )
                            }
                        }
                    },
                }
            }
        },
    }
}

/// The leftmost Python match at or after `i`.
pub open spec fn spec_search(s: Seq<char>, i: int) -> Option<LineMatch>
    decreases s.len() - i,
{
    if i < 0 || i >= s.len() {
        None
    } else {
        match spec_match_at(s, i) {
            Some(m) => Some(m),
            None => spec_search(s, i + 1),
        }
    }
}

/// What the Python recognizer makes of a record string.
pub open spec fn spec_python_log(s: Seq<char>) -> Option<LogV> {
    match spec_search(s, 0) {
        None => None,
        Some(m) => Some(line::spec_wrap(m)),
    }
}

/// What the Python recognizer yields for a raw record.
pub open spec fn spec_parse(r: RawCloudWatchLogV) -> Option<LogV> {
    match r.record {
        RawValueV::Text(s) => spec_python_log(s),
        RawValueV::Other => None,
    }
}

fn level_at(v: &Vec<char>, i: usize) -> (r: Option<(LogLevel, usize)>)
    requires
        i <= v@.len(),
    ensures
        match r {
            Some((lv, e)) => spec_level_at(v@, i as int) == Some((lv, e as int)) && i < e
                <= v@.len(),
            None => spec_level_at(v@, i as int) is None,
        },
{
    if v.len() - i >= 6 && v[i] == '[' && v[i + 1] == 'I' && v[i + 2] == 'N' && v[i + 3] == 'F'
        && v[i + 4] == 'O' && v[i + 5] == ']' {
        Some((LogLevel::Info, i + 6))
    } else if v.len() - i >= 9 && v[i] == '[' && v[i + 1] == 'W' && v[i + 2] == 'A' && v[i + 3]
        == 'R' && v[i + 4] == 'N' && v[i + 5] == 'I' && v[i + 6] == 'N' && v[i + 7] == 'G' && v[i
        + 8] == ']' {
        Some((LogLevel::Warn, i + 9))
    } else if v.len() - i >= 7 && v[i] == '[' && v[i + 1] == 'E' && v[i + 2] == 'R' && v[i + 3]
        == 'R' && v[i + 4] == 'O' && v[i + 5] == 'R' && v[i + 6] == ']' {
        Some((LogLevel::Error, i + 7))
    } else {
        None
    }
}

/// The boundaries of a Python match at `i`: timestamp start and end,
/// UUID start, level, payload start.
fn match_at(v: &Vec<char>, i: usize) -> (r: Option<(usize, usize, usize, LogLevel, usize)>)
    requires
        i <= v@.len(),
    ensures
        match r {
            Some((tl, te, g, lv, d)) => {
                &&& tl <= te <= v@.len()
                &&& g + 36 <= v@.len()
                &&& d <= v@.len()
                &&& spec_match_at(v@, i as int) == Some(
                    LineMatch {
                        ts: v@.subrange(tl as int, te as int),
                        guid: v@.subrange(g as int, g + 36),
                        level: lv,
                        data: v@.subrange(d as int, v@.len() as int),
                    },
                )
            },
            None => spec_match_at(v@, i as int) is None,
        },
{
    let n = v.len();
    let (lv, le) = match level_at(v, i) {
        Some(x) => x,
        None => {
            return None;
        },
    };
    let w1 = line::run_ws(v, le);
    if w1 == le {
        return None;
    }
    let te = match line::match_timestamp(v, w1) {
        Some(te) => te,
        None => {
            return None;
        },
    };
    let w2 = line::run_ws(v, te);
    if w2 == te || !line::match_uuid(v, w2) {
        return None;
    }
    let ge = w2 + 36;
    let w3 = line::run_ws(v, ge);
    if w3 == ge {
        return None;
    }
    Some((w1, te, w2, lv, w3))
}

/// Try the Python line shape against a raw record.
#[verifier::loop_isolation(false)]
pub fn parse(log: &RawCloudWatchLog) -> (r: Option<Log>)
    ensures
        match r {
            Some(l) => spec_parse(log@) == Some(l@),
            None => spec_parse(log@) is None,
        },
{
    let s = match &log.record {
        RawValue::Text(s) => s,
        RawValue::Other => {
            return None;
        },
    };
    let v = text::to_chars(s.as_str());
    let mut i: usize = 0;
    while i < v.len()
        invariant
            0 <= i <= v@.len(),
            spec_search(v@, 0) == spec_search(v@, i as int),
        decreases v@.len() - i,
    {
        match match_at(&v, i) {
            Some((tl, te, g, lv, d)) => {
                return Some(line::wrap(&v, tl, te, g, lv, d));
            },
            None => {},
        }
        i = i + 1;
    }
    None
}

} // verus!
