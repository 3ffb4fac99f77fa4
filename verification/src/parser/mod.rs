//! The ordered recognizer chain and the parse pipeline over it.
//!
//! Records of type `"function"` whose payload is a JSON string are tried
//! against the recognizers in a fixed order — Node, Python, legacy .NET,
//! .NET 6 — and the first success wins. Records of any other type, records
//! that no recognizer accepts, and formatted logs carrying the opt-out
//! sentinel produce nothing.
pub mod dotnet;
pub mod dotnet_six;
pub mod line;
pub mod node;
pub mod python;

use vstd::prelude::*;

use crate::models::Log;
use crate::models::LogV;
use crate::models::RawCloudWatchLog;
use crate::models::RawCloudWatchLogV;
use crate::models::RawValueV;
use crate::text;

verus! {

/// No recognizer accepted the record.
#[derive(Debug)]
pub struct ParseError {
    /// Whether the record failed because its payload was not a string.
    pub not_a_string: bool,
}

/// What the ordered chain yields: the first recognizer to accept the
/// record wins.
pub open spec fn spec_try_parse(r: RawCloudWatchLogV) -> Option<LogV> {
    if node::spec_parse(r) is Some {
        node::spec_parse(r)
    } else if python::spec_parse(r) is Some {
        python::spec_parse(r)
    } else if dotnet::spec_parse(r) is Some {
        dotnet::spec_parse(r)
    } else {
        dotnet_six::spec_parse(r)
    }
}

/// A log the sentinel opts out of shipment.
pub open spec fn spec_is_ignored(l: LogV) -> bool {
    match l {
        LogV::Formatted(d) => d.ignore,
        LogV::Unformatted(_) => false,
    }
}

/// What the pipeline makes of one record: nothing unless the record is of
/// type `"function"`, its payload is a string, the chain accepts it, and
/// the resulting log does not carry the sentinel.
pub open spec fn spec_pipeline_one(r: RawCloudWatchLogV) -> Option<LogV> {
    if r.kind != "function"@ {
        None
    } else {
        match r.record {
            RawValueV::Text(_) => match spec_try_parse(r) {
                Some(l) => if spec_is_ignored(l) {
                    None
                } else {
                    Some(l)
                },
                None => None,
            },
            RawValueV::Other => None,
        }
    }
}

/// What the pipeline makes of a batch, in order.
pub open spec fn spec_pipeline(rs: Seq<RawCloudWatchLogV>) -> Seq<LogV>
    decreases rs.len(),
{
    if rs.len() == 0 {
        Seq::empty()
    } else {
        (match spec_pipeline_one(rs.first()) {
            Some(l) => seq![l],
            None => Seq::<LogV>::empty(),
        }) + spec_pipeline(rs.drop_first())
    }
}

/// What the pipeline makes of a batch of raw record values.
pub open spec fn spec_pipeline_values(rs: Seq<RawCloudWatchLog>) -> Seq<LogV> {
    spec_pipeline(rs.map_values(|x: RawCloudWatchLog| x@))
}

/// Run the ordered chain against one raw record.
pub fn try_parse_cloudwatch_log(log: &RawCloudWatchLog) -> (r: Result<Log, ParseError>)
    ensures
        match r {
            Ok(l) => spec_try_parse(log@) == Some(l@),
            Err(e) => spec_try_parse(log@) is None && e.not_a_string == !(log@.record is Text),
        },
{
    match node::parse(log) {
        Some(l) => {
            return Ok(l);
        },
        None => {},
    }
    match python::parse(log) {
        Some(l) => {
            return Ok(l);
        },
        None => {},
    }
    match dotnet::parse(log) {
        Some(l) => {
            return Ok(l);
        },
        None => {},
    }
    match dotnet_six::parse(log) {
        Some(l) => {
            return Ok(l);
        },
        None => {},
    }
    match &log.record {
        crate::models::RawValue::Text(_) => Err(ParseError { not_a_string: false }),
        crate::models::RawValue::Other => Err(ParseError { not_a_string: true }),
    }
}

/// What the pipeline makes of one record.
fn pipeline_one(log: &RawCloudWatchLog) -> (r: Option<Log>)
    ensures
        match r {
            Some(l) => spec_pipeline_one(log@) == Some(l@),
            None => spec_pipeline_one(log@) is None,
        },
{
    if !text::str_eq(log.kind.as_str(), "function") {
        return None;
    }
    match &log.record {
        crate::models::RawValue::Other => {
            return None;
        },
        crate::models::RawValue::Text(_) => {},
    }
    match try_parse_cloudwatch_log(log) {
        Ok(l) => {
            let ignored = match &l {
                Log::Formatted(d) => d.is_ignore(),
                Log::Unformatted(_) => false,
            };
            if ignored {
                None
            } else {
                Some(l)
            }
        },
        Err(_) => None,
    }
}

/// Filter and parse a batch of raw records, in order: the pure,
/// deterministic heart of the intake path.
#[verifier::loop_isolation(false)]
pub fn parse(logs: Vec<RawCloudWatchLog>) -> (r: Vec<Log>)
    ensures
        r@.map_values(|l: Log| l@) == spec_pipeline(
            logs@.map_values(|x: RawCloudWatchLog| x@),
        ),
        forall|i: int| 0 <= i < r@.len() ==> !spec_is_ignored((#[trigger] r@[i])@),
{
    let ghost f = |x: RawCloudWatchLog| x@;
    let ghost g = |l: Log| l@;
    let ghost orig: Seq<RawCloudWatchLogV> = logs@.map_values(f);
    let mut rest = logs;
    let mut out: Vec<Log> = Vec::new();
    proof {
        assert(out@.map_values(g) + spec_pipeline(orig) =~= spec_pipeline(orig));
    }
    while rest.len() > 0
        invariant
            spec_pipeline(orig) == out@.map_values(g) + spec_pipeline(rest@.map_values(f)),
            forall|i: int| 0 <= i < out@.len() ==> !spec_is_ignored((#[trigger] out@[i])@),
        decreases rest@.len(),
    {
        let ghost prev = out@;
        let ghost rs = rest@.map_values(f);
        let rec = rest.remove(0);
        proof {
            assert(rs.first() == rec@);
            assert(rest@.map_values(f) =~= rs.drop_first());
        }
        match pipeline_one(&rec) {
            Some(l) => {
                proof {
                    assert(!spec_is_ignored(l@));
                }
                out.push(l);
                proof {
                    assert(out@.map_values(g) =~= prev.map_values(g).push(l@));
                    assert(prev.map_values(g).push(l@) + spec_pipeline(rs.drop_first())
                        =~= prev.map_values(g) + (seq![l@] + spec_pipeline(rs.drop_first())));
                }
            },
            None => {},
        }
    }
    proof {
        assert(rest@.map_values(f) =~= Seq::<RawCloudWatchLogV>::empty());
        assert(spec_pipeline(rest@.map_values(f)) == Seq::<LogV>::empty());
        assert(out@.map_values(g) + Seq::<LogV>::empty() =~= out@.map_values(g));
    }
    out
}

/// The recognizer chain as a value, for destinations that parse on
/// shipment.
#[derive(Clone, Copy, PartialEq, Eq, Structural, Debug)]
pub struct Parser;

impl Parser {
    /// Filter and parse a batch of raw records, in order.
    pub fn parse(&self, logs: Vec<RawCloudWatchLog>) -> (r: Vec<Log>)
        ensures
            r@.map_values(|l: Log| l@) == spec_pipeline(
                logs@.map_values(|x: RawCloudWatchLog| x@),
            ),
    {
        parse(logs)
    }
}

/// For a function-type record whose string payload the chain accepts, and
/// whose log the sentinel does not opt out, the pipeline produces exactly
/// that one log: the output of the first matching recognizer.
pub proof fn lemma_one_log_per_match(r: RawCloudWatchLogV)
    requires
        r.kind == "function"@,
        r.record is Text,
        spec_try_parse(r) is Some,
        !spec_is_ignored(spec_try_parse(r)->0),
    ensures
        spec_pipeline_one(r) == spec_try_parse(r),
        node::spec_parse(r) is Some ==> spec_pipeline_one(r) == node::spec_parse(r),
        node::spec_parse(r) is None && python::spec_parse(r) is Some ==> spec_pipeline_one(r)
            == python::spec_parse(r),
        node::spec_parse(r) is None && python::spec_parse(r) is None && dotnet::spec_parse(r)
            is Some ==> spec_pipeline_one(r) == dotnet::spec_parse(r),
        node::spec_parse(r) is None && python::spec_parse(r) is None && dotnet::spec_parse(r)
            is None ==> spec_pipeline_one(r) == dotnet_six::spec_parse(r),
{
}

/// A record of any type other than `"function"` produces no log.
pub proof fn lemma_non_function_dropped(r: RawCloudWatchLogV)
    requires
        r.kind != "function"@,
    ensures
        spec_pipeline_one(r) is None,
{
}

/// No log the pipeline emits carries the opt-out sentinel.
pub proof fn lemma_pipeline_never_ignored(rs: Seq<RawCloudWatchLogV>)
    ensures
        forall|i: int|
            0 <= i < spec_pipeline(rs).len() ==> !spec_is_ignored(#[trigger] spec_pipeline(rs)[i]),
    decreases rs.len(),
{
    if rs.len() > 0 {
        lemma_pipeline_never_ignored(rs.drop_first());
        let head = spec_pipeline_one(rs.first());
        let tail = spec_pipeline(rs.drop_first());
        assert forall|i: int|
            0 <= i < spec_pipeline(rs).len() implies !spec_is_ignored(
            #[trigger] spec_pipeline(rs)[i],
        ) by {
            match head {
                Some(l) => {
                    if i == 0 {
                        assert(spec_pipeline(rs)[0] == l);
                    } else {
                        assert(spec_pipeline(rs)[i] == tail[i - 1]);
                    }
                },
                None => {
                    assert(spec_pipeline(rs)[i] == tail[i]);
                },
            }
        }
    }
}

} // verus!
