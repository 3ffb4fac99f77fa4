//! Shared machinery of the line recognizers: ISO-8601 timestamps, UUIDs,
//! whitespace runs, and the leftmost-match scan.
//!
//! Each runtime's line shape is a fixed grammar over these pieces. The
//! grammars are deterministic: at every choice point the alternatives start
//! with disjoint characters and every repeat is followed by a character it
//! cannot contain, so the greedy scan written here finds a match at a
//! position exactly when one exists there.
use vstd::prelude::*;

use crate::json;
use crate::json::spec_json_doc;
use crate::models::LogData;
use crate::models::LogDataV;
use crate::models::LogLevel;
use crate::models::Log;
use crate::models::LogV;
use crate::models::StructuredLog;
use crate::models::StructuredLogV;
use crate::text;
use crate::text::is_digit;
use crate::text::is_hex;
use crate::text::is_space;

verus! {

/// The captured groups of one matched line: the timestamp and UUID texts,
/// the recognized level, and the payload, which runs to the end of the
/// record.
pub struct LineMatch {
    pub ts: Seq<char>,
    pub guid: Seq<char>,
    pub level: LogLevel,
    pub data: Seq<char>,
}

/// The end of the maximal digit run starting at `i`.
pub open spec fn digit_run_end(s: Seq<char>, i: int) -> int
    decreases s.len() - i,
{
    if 0 <= i < s.len() && is_digit(s[i]) {
        digit_run_end(s, i + 1)
    } else {
        i
    }
}

/// The end of the maximal whitespace run starting at `i`.
pub open spec fn ws_run_end(s: Seq<char>, i: int) -> int
    decreases s.len() - i,
{
    if 0 <= i < s.len() && is_space(s[i]) {
        ws_run_end(s, i + 1)
    } else {
        i
    }
}

/// The fixed-layout head of an ISO-8601 timestamp,
/// `dddd-dd-ddTdd:dd:dd.` with the bounded digits of a calendar date and
/// a time of day, occupying positions `i..i+20`.
pub open spec fn ts_head_ok(s: Seq<char>, i: int) -> bool {
    &&& i >= 0
    &&& i + 20 <= s.len()
    &&& is_digit(s[i])
    &&& is_digit(s[i + 1])
    &&& is_digit(s[i + 2])
    &&& is_digit(s[i + 3])
    &&& s[i + 4] == '-'
    &&& '0' <= s[i + 5] <= '1'
    &&& is_digit(s[i + 6])
    &&& s[i + 7] == '-'
    &&& '0' <= s[i + 8] <= '3'
    &&& is_digit(s[i + 9])
    &&& s[i + 10] == 'T'
    &&& '0' <= s[i + 11] <= '2'
    &&& is_digit(s[i + 12])
    &&& s[i + 13] == ':'
    &&& '0' <= s[i + 14] <= '5'
    &&& is_digit(s[i + 15])
    &&& s[i + 16] == ':'
    &&& '0' <= s[i + 17] <= '5'
    &&& is_digit(s[i + 18])
    &&& s[i + 19] == '.'
}

/// The end of a timezone suffix at `j`: `Z`, or a `+`/`-` offset
/// `[0-2]d:[0-5]d`.
pub open spec fn spec_tz_end(s: Seq<char>, j: int) -> Option<int> {
    if 0 <= j < s.len() && s[j] == 'Z' {
        Some(j + 1)
    } else if j >= 0 && j + 6 <= s.len() && (s[j] == '+' || s[j] == '-') && '0' <= s[j + 1] <= '2'
        && is_digit(s[j + 2]) && s[j + 3] == ':' && '0' <= s[j + 4] <= '5' && is_digit(s[j + 5]) {
        Some(j + 6)
    } else {
        None
    }
}

/// The end of a full timestamp starting at `i`: the fixed head, at least
/// one fractional digit, then a timezone.
pub open spec fn spec_ts_end(s: Seq<char>, i: int) -> Option<int> {
    if ts_head_ok(s, i) {
        let fe = digit_run_end(s, i + 20);
        if fe == i + 20 {
            None
        } else {
            spec_tz_end(s, fe)
        }
    } else {
        None
    }
}

/// What the character at offset `k` of a UUID must be: a dash at the four
/// group breaks, a hexadecimal digit elsewhere.
pub open spec fn uuid_char_ok(c: char, k: int) -> bool {
    if k == 8 || k == 13 || k == 18 || k == 23 {
        c == '-'
    } else {
        is_hex(c)
    }
}

/// A 36-character `8-4-4-4-12` UUID occupies `i..i+36`.
pub open spec fn spec_uuid_at(s: Seq<char>, i: int) -> bool {
    &&& i >= 0
    &&& i + 36 <= s.len()
    &&& forall|k: int| 0 <= k < 36 ==> uuid_char_ok(#[trigger] s[i + k], k)
}

/// The end of the maximal digit run starting at `i`.
#[verifier::loop_isolation(false)]
pub fn run_digits(v: &Vec<char>, i: usize) -> (r: usize)
    requires
        i <= v@.len(),
    ensures
        r == digit_run_end(v@, i as int),
        i <= r <= v@.len(),
{
    let mut j: usize = i;
    while j < v.len() && text::digit(v[j])
        invariant
            i <= j <= v@.len(),
            digit_run_end(v@, i as int) == digit_run_end(v@, j as int),
        decreases v@.len() - j,
    {
        j = j + 1;
    }
    j
}

/// The end of the maximal whitespace run starting at `i`.
#[verifier::loop_isolation(false)]
pub fn run_ws(v: &Vec<char>, i: usize) -> (r: usize)
    requires
        i <= v@.len(),
    ensures
        r == ws_run_end(v@, i as int),
        i <= r <= v@.len(),
{
    let mut j: usize = i;
    while j < v.len() && text::space(v[j])
        invariant
            i <= j <= v@.len(),
            ws_run_end(v@, i as int) == ws_run_end(v@, j as int),
        decreases v@.len() - j,
    {
        j = j + 1;
    }
    j
}

/// The end of a timestamp starting at `i`, if one stands there.
pub fn match_timestamp(v: &Vec<char>, i: usize) -> (r: Option<usize>)
    requires
        i <= v@.len(),
    ensures
        match r {
            Some(e) => spec_ts_end(v@, i as int) == Some(e as int) && i < e <= v@.len(),
            None => spec_ts_end(v@, i as int) is None,
        },
{
    if v.len() - i < 20 {
        return None;
    }
    let head = text::digit(v[i]) && text::digit(v[i + 1]) && text::digit(v[i + 2]) && text::digit(
        v[i + 3],
    ) && v[i + 4] == '-' && ('0' <= v[i + 5] && v[i + 5] <= '1') && text::digit(v[i + 6]) && v[i
        + 7] == '-' && ('0' <= v[i + 8] && v[i + 8] <= '3') && text::digit(v[i + 9]) && v[i + 10]
        == 'T' && ('0' <= v[i + 11] && v[i + 11] <= '2') && text::digit(v[i + 12]) && v[i + 13]
        == ':' && ('0' <= v[i + 14] && v[i + 14] <= '5') && text::digit(v[i + 15]) && v[i + 16]
        == ':' && ('0' <= v[i + 17] && v[i + 17] <= '5') && text::digit(v[i + 18]) && v[i + 19]
        == '.';
    if !head {
        return None;
    }
    let fe = run_digits(v, i + 20);
    if fe == i + 20 {
        return None;
    }
    if fe < v.len() && v[fe] == 'Z' {
        return Some(fe + 1);
    }
    if v.len() - fe >= 6 && (v[fe] == '+' || v[fe] == '-') && ('0' <= v[fe + 1] && v[fe + 1] <= '2')
        && text::digit(v[fe + 2]) && v[fe + 3] == ':' && ('0' <= v[fe + 4] && v[fe + 4] <= '5')
        && text::digit(v[fe + 5]) {
        return Some(fe + 6);
    }
    None
}

/// Whether a UUID stands at `i`.
#[verifier::loop_isolation(false)]
pub fn match_uuid(v: &Vec<char>, i: usize) -> (r: bool)
    requires
        i <= v@.len(),
    ensures
        r == spec_uuid_at(v@, i as int),
{
    if v.len() - i < 36 {
        return false;
    }
    let mut k: usize = 0;
    while k < 36
        invariant
            0 <= k <= 36,
            i + 36 <= v@.len(),
            forall|m: int| 0 <= m < k ==> uuid_char_ok(#[trigger] v@[i + m], m),
        decreases 36 - k,
    {
        let c = v[i + k];
        let ok = if k == 8 || k == 13 || k == 18 || k == 23 {
            c == '-'
        } else {
            text::hex(c)
        };
        if !ok {
            assert(!uuid_char_ok(v@[i + k as int], k as int));
            return false;
        }
        k = k + 1;
    }
    true
}

/// The unformatted log a match stands for when the recognizer never
/// promotes: the payload is held as a parsed document when it is JSON,
/// as raw text otherwise.
pub open spec fn spec_wrap(m: LineMatch) -> LogV {
    LogV::Unformatted(
        StructuredLogV {
            timestamp: Some(m.ts),
            guid: Some(m.guid),
            level: Some(m.level),
            data: match spec_json_doc(m.data, json::sentinel_key()) {
                Some(d) => LogDataV::Parsed(d),
                None => LogDataV::Raw(m.data),
            },
        },
    )
}

/// Build the unformatted log a match stands for.
pub fn wrap(v: &Vec<char>, tl: usize, te: usize, g: usize, lv: LogLevel, d: usize) -> (r:
    Log)
    requires
        tl <= te <= v@.len(),
        g + 36 <= v@.len(),
        d <= v@.len(),
    ensures
        r@ == spec_wrap(
            LineMatch {
                ts: v@.subrange(tl as int, te as int),
                guid: v@.subrange(g as int, g + 36),
                level: lv,
                data: v@.subrange(d as int, v@.len() as int),
            },
        ),
{
    let n = v.len();
    let ts = text::from_chars(&text::sub_chars(v, tl, te));
    let guid = text::from_chars(&text::sub_chars(v, g, g + 36));
    let data = text::from_chars(&text::sub_chars(v, d, n));
    let payload = match json::parse_json_doc(data.as_str()) {
        Some(doc) => LogData::Parsed(doc),
        None => LogData::Raw(data),
    };
    Log::Unformatted(
        StructuredLog { timestamp: Some(ts), guid: Some(guid), level: Some(lv), data: payload },
    )
}

} // verus!
