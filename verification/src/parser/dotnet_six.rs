//! Recognizer for .NET 6 runtime lines:
//! `<timestamp> <uuid> <info|warn|fail|trce|dbug|crit> <payload>`, the
//! payload running to the end of the record. `fail` maps to the `ERROR`
//! level; the line is never promoted to a formatted log.
use vstd::prelude::*;

use crate::models::LogLevel;
use crate::models::Log;
use crate::models::LogV;
use crate::models::RawCloudWatchLog;
use crate::models::RawCloudWatchLogV;
use crate::models::RawValue;
use crate::models::RawValueV;
use crate::parser::line;
use crate::parser::line::LineMatch;
use crate::text;

verus! {

/// The lowercase level token of a .NET 6 line at `i`, with the position
/// just past it.
pub open spec fn spec_level_at(s: Seq<char>, i: int) -> Option<(LogLevel, int)> {
    if i < 0 || i + 4 > s.len() {
        None
    } else if s[i] == 'i' && s[i + 1] == 'n' && s[i + 2] == 'f' && s[i + 3] == 'o' {
        Some((LogLevel::Info, i + 4))
    } else if s[i] == 'w' && s[i + 1] == 'a' && s[i + 2] == 'r' && s[i + 3] == 'n' {
        Some((LogLevel::Warn, i + 4))
    } else if s[i] == 'f' && s[i + 1] == 'a' && s[i + 2] == 'i' && s[i + 3] == 'l' {
        Some((LogLevel::Error, i + 4))
    } else if s[i] == 't' && s[i + 1] == 'r' && s[i + 2] == 'c' && s[i + 3] == 'e' {
        Some((LogLevel::Trace, i + 4))
    } else if s[i] == 'd' && s[i + 1] == 'b' && s[i + 2] == 'u' && s[i + 3] == 'g' {
        Some((LogLevel::Debug, i + 4))
    } else if s[i] == 'c' && s[i + 1] == 'r' && s[i + 2] == 'i' && s[i + 3] == 't' {
        Some((LogLevel::Critical, i + 4))
    } else {
        None
    }
}

/// A whole .NET 6 line matched at position `i`: timestamp, whitespace,
/// UUID, whitespace, level, whitespace, payload to the end.
pub open spec fn spec_match_at(s: Seq<char>, i: int) -> Option<LineMatch> {
    match line::spec_ts_end(s, i) {
        None => None,
        Some(te) => {
            let w1 = line::ws_run_end(s, te);
            if w1 == te || !line::spec_uuid_at(s, w1) {
                None
            } else {
                let ge = w1 + 36;
                let w2 = line::ws_run_end(s, ge);
                if w2 == ge {
                    None
                } else {
                    match spec_level_at(s, w2) {
                        None => None,
                        Some((lv, le)) => {
                            let w3 = line::ws_run_end(s, le);
                            if w3 == le {
                                None
                            } else {
                                Some(
                                    LineMatch {
                                        ts: s.subrange(i, te),
                                        guid: s.subrange(w1, ge),
                                        level: lv,
                                        data: s.subrange(w3, s.len() as int),
                                    },
                                )
                            }
                        },
                    }
                }
            }
        },
    }
}

/// The leftmost .NET 6 match at or after `i`.
pub open spec fn spec_search(s: Seq<char>, i: int) -> Option<LineMatch>
    decreases s.len() - i,
{
    if i < 0 || i >= s.len() {
        None
    } else {
        match spec_match_at(s, i) {
            Some(m) => Some(m),
            None => spec_search(s, i + 1),
        }
    }
}

/// What the .NET 6 recognizer makes of a record string.
pub open spec fn spec_six_log(s: Seq<char>) -> Option<LogV> {
    match spec_search(s, 0) {
        None => None,
        Some(m) => Some(line::spec_wrap(m)),
    }
}

/// What the .NET 6 recognizer yields for a raw record.
pub open spec fn spec_parse(r: RawCloudWatchLogV) -> Option<LogV> {
    match r.record {
        RawValueV::Text(s) => spec_six_log(s),
        RawValueV::Other => None,
    }
}

fn level_at(v: &Vec<char>, i: usize) -> (r: Option<(LogLevel, usize)>)
    requires
        i <= v@.len(),
    ensures
        match r {
            Some((lv, e)) => spec_level_at(v@, i as int) == Some((lv, e as int)) && i < e
                <= v@.len(),
            None => spec_level_at(v@, i as int) is None,
        },
{
    if v.len() - i < 4 {
        return None;
    }
    if v[i] == 'i' && v[i + 1] == 'n' && v[i + 2] == 'f' && v[i + 3] == 'o' {
        Some((LogLevel::Info, i + 4))
    } else if v[i] == 'w' && v[i + 1] == 'a' && v[i + 2] == 'r' && v[i + 3] == 'n' {
        Some((LogLevel::Warn, i + 4))
    } else if v[i] == 'f' && v[i + 1] == 'a' && v[i + 2] == 'i' && v[i + 3] == 'l' {
        Some((LogLevel::Error, i + 4))
    } else if v[i] == 't' && v[i + 1] == 'r' && v[i + 2] == 'c' && v[i + 3] == 'e' {
        Some((LogLevel::Trace, i + 4))
    } else if v[i] == 'd' && v[i + 1] == 'b' && v[i + 2] == 'u' && v[i + 3] == 'g' {
        Some((LogLevel::Debug, i + 4))
    } else if v[i] == 'c' && v[i + 1] == 'r' && v[i + 2] == 'i' && v[i + 3] == 't' {
        Some((LogLevel::Critical, i + 4))
    } else {
        None
    }
}

/// The boundaries of a .NET 6 match at `i`: timestamp end, UUID start,
/// level, payload start.
fn match_at(v: &Vec<char>, i: usize) -> (r: Option<(usize, usize, LogLevel, usize)>)
    requires
        i <= v@.len(),
    ensures
        match r {
            Some((te, g, lv, d)) => {
                &&& i < te <= v@.len()
                &&& g + 36 <= v@.len()
                &&& d <= v@.len()
                &&& spec_match_at(v@, i as int) == Some(
                    LineMatch {
                        ts: v@.subrange(i as int, te as int),
                        guid: v@.subrange(g as int, g + 36),
                        level: lv,
                        data: v@.subrange(d as int, v@.len() as int),
                    },
                )
            },
            None => spec_match_at(v@, i as int) is None,
        },
{
    let n = v.len();
    let te = match line::match_timestamp(v, i) {
        Some(te) => te,
        None => {
            return None;
        },
    };
    let w1 = line::run_ws(v, te);
    if w1 == te || !line::match_uuid(v, w1) {
        return None;
    }
    let ge = w1 + 36;
    let w2 = line::run_ws(v, ge);
    if w2 == ge {
        return None;
    }
    let (lv, le) = match level_at(v, w2) {
        Some(x) => x,
        None => {
            return None;
        },
    };
    let w3 = line::run_ws(v, le);
    if w3 == le {
        return None;
    }
    Some((te, w1, lv, w3))
}

/// Try the .NET 6 line shape against a raw record.
#[verifier::loop_isolation(false)]
pub fn parse(log: &RawCloudWatchLog) -> (r: Option<Log>)
    ensures
        match r {
            Some(l) => spec_parse(log@) == Some(l@),
            None => spec_parse(log@) is None,
        },
{
    let s = match &log.record {
        RawValue::Text(s) => s,
        RawValue::Other => {
            return None;
        },
    };
    let v = text::to_chars(s.as_str());
    let mut i: usize = 0;
    while i < v.len()
        invariant
            0 <= i <= v@.len(),
            spec_search(v@, 0) == spec_search(v@, i as int),
        decreases v@.len() - i,
    {
        match match_at(&v, i) {
            Some((te, g, lv, d)) => {
                return Some(line::wrap(&v, i, te, g, lv, d));
            },
            None => {},
        }
        i = i + 1;
    }
    None
}

} // verus!
