//! Recognizer for legacy .NET runtime records: any record whose payload
//! is itself a JSON document is kept verbatim as a formatted log.
use vstd::prelude::*;

use crate::json;
use crate::json::spec_json_doc;
use crate::models::Log;
use crate::models::LogV;
use crate::models::RawCloudWatchLog;
use crate::models::RawCloudWatchLogV;
use crate::models::RawValue;
use crate::models::RawValueV;

verus! {

/// What the legacy .NET recognizer yields for a raw record: the payload,
/// as a formatted log, exactly when the payload is a JSON document.
pub open spec fn spec_parse(r: RawCloudWatchLogV) -> Option<LogV> {
    match r.record {
        RawValueV::Text(s) => match spec_json_doc(s, json::sentinel_key()) {
            Some(d) => Some(LogV::Formatted(d)),
            None => None,
        },
        RawValueV::Other => None,
    }
}

/// Try the legacy .NET shape against a raw record.
pub fn parse(log: &RawCloudWatchLog) -> (r: Option<Log>)
    ensures
        match r {
            Some(l) => spec_parse(log@) == Some(l@),
            None => spec_parse(log@) is None,
        },
{
    match &log.record {
        RawValue::Text(s) => match json::parse_json_doc(s.as_str()) {
            Some(d) => Some(Log::Formatted(d)),
            None => None,
        },
        RawValue::Other => None,
    }
}

} // verus!
