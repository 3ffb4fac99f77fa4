//! The shipment side of the pipeline: what every destination shares.
//!
//! A destination takes a batch of logs, chunks it under its byte cap,
//! and sends one bulk request per chunk. Chunks that fail accumulate
//! into a failed set which is handed back for reinjection; a send is a
//! success as a whole exactly when that set is empty.
pub mod custom;
pub mod firehose;
pub mod loggly;
pub mod logzio;

use vstd::prelude::*;

use crate::chunk::lemma_chunk_elements;
use crate::chunk::spec_chunks;
use crate::models::spec_log_text;
use crate::models::Log;
use crate::models::RawCloudWatchLogV;
use crate::parser::lemma_pipeline_never_ignored;
use crate::parser::spec_is_ignored;
use crate::parser::spec_pipeline;
use crate::text;

verus! {

/// The byte cap of one bulk request to Loggly or Logzio: 100 KB of
/// headroom under the 5 MB API ceiling.
pub const BULK_CHUNK_BYTES: usize = 4900000;

/// The byte cap of one Firehose record: 100 KB of headroom under the
/// 1 MB record ceiling.
pub const FIREHOSE_CHUNK_BYTES: usize = 900000;

/// The timeout used when a destination's timeout setting is absent or
/// unreadable, in milliseconds.
pub const DEFAULT_TIMEOUT: u64 = 1000;

/// The subset of a batch that was not durably accepted.
pub struct FailedToSendLogsError {
    pub logs: Vec<Log>,
}

impl From<Vec<Log>> for FailedToSendLogsError {
    fn from(logs: Vec<Log>) -> (r: FailedToSendLogsError) {
        FailedToSendLogsError { logs }
    }
}

impl vstd::std_specs::convert::FromSpecImpl<Vec<Log>> for FailedToSendLogsError {
    open spec fn obeys_from_spec() -> bool {
        true
    }

    open spec fn from_spec(logs: Vec<Log>) -> FailedToSendLogsError {
        FailedToSendLogsError { logs }
    }
}

/// A destination configuration that cannot be built: the named required
/// setting is missing.
#[derive(Clone, Copy, PartialEq, Eq, Structural, Debug)]
pub enum BuildError {
    MissingToken,
    MissingTag,
    MissingParser,
    MissingHost,
}

impl BuildError {
    /// The message the failure surfaces with.
    pub fn message(&self) -> (r: &'static str)
        ensures
            (*self is MissingToken ==> r@ == "Token Required"@) && (*self is MissingTag ==> r@
                == "Tag Required"@) && (*self is MissingParser ==> r@ == "Parser Required"@) && (*self
                is MissingHost ==> r@ == "Host Required"@),
    {
        match self {
            BuildError::MissingToken => "Token Required",
            BuildError::MissingTag => "Tag Required",
            BuildError::MissingParser => "Parser Required",
            BuildError::MissingHost => "Host Required",
        }
    }
}

/// How a destination timeout setting reads: absent means the default,
/// an unreadable value means the default, zero means no timeout at all,
/// anything else is a duration in milliseconds.
pub open spec fn spec_timeout_setting(raw: Option<Seq<char>>) -> Option<u64> {
    match raw {
        None => Some(DEFAULT_TIMEOUT),
        Some(s) => match text::spec_parse_u64(s) {
            Some(0u64) => None,
            Some(t) => Some(t),
            None => Some(DEFAULT_TIMEOUT),
        },
    }
}

/// Resolve a timeout setting as read from the environment.
pub fn timeout_setting(raw: Option<&str>) -> (r: Option<u64>)
    ensures
        r == spec_timeout_setting(
            match raw {
                Some(s) => Some(s@),
                None => None,
            },
        ),
{
    match raw {
        None => Some(DEFAULT_TIMEOUT),
        Some(s) => match text::parse_u64(s) {
            Some(t) => if t == 0 {
                None
            } else {
                Some(t)
            },
            None => Some(DEFAULT_TIMEOUT),
        },
    }
}

/// The bulk body of one chunk: the serialized logs joined by newlines.
pub open spec fn spec_join(s: Seq<Log>) -> Seq<char>
    decreases s.len(),
{
    if s.len() == 0 {
        Seq::empty()
    } else if s.len() == 1 {
        spec_log_text(s.last()@)
    } else {
        spec_join(s.drop_last()) + seq!['\n'] + spec_log_text(s.last()@)
    }
}

/// Join a chunk's serialized logs with newlines, the bulk body Loggly
/// and Logzio receive.
#[verifier::loop_isolation(false)]
pub fn join_logs(chunk: &Vec<Log>) -> (r: String)
    ensures
        r@ == spec_join(chunk@),
{
    let mut out: Vec<char> = Vec::new();
    let mut i: usize = 0;
    while i < chunk.len()
        invariant
            0 <= i <= chunk@.len(),
            out@ == spec_join(chunk@.take(i as int)),
        decreases chunk@.len() - i,
    {
        if i > 0 {
            out.push('\n');
        }
        let text = chunk[i].to_string();
        let mut tv = text::to_chars(text.as_str());
        out.append(&mut tv);
        proof {
            assert(chunk@.take(i + 1).drop_last() =~= chunk@.take(i as int));
            assert(chunk@.take(i + 1).last() == chunk@[i as int]);
        }
        i = i + 1;
    }
    proof {
        assert(chunk@.take(chunk@.len() as int) =~= chunk@);
    }
    text::from_chars(&out)
}

/// The logs of the chunks whose send failed, in order.
pub open spec fn spec_failed(cs: Seq<Seq<Log>>, ok: Seq<bool>) -> Seq<Log>
    decreases cs.len(),
{
    if cs.len() == 0 || ok.len() < cs.len() {
        Seq::empty()
    } else {
        spec_failed(cs.drop_last(), ok.drop_last()) + (if ok[cs.len() - 1] {
            Seq::<Log>::empty()
        } else {
            cs.last()
        })
    }
}

/// Fold per-chunk outcomes into the shared send result: success exactly
/// when every chunk was accepted, otherwise the failed chunks' logs, in
/// order, for reinjection.
#[verifier::loop_isolation(false)]
pub fn collect_failed(chunks: Vec<Vec<Log>>, ok: &Vec<bool>) -> (r: Result<
    (),
    FailedToSendLogsError,
>)
    requires
        ok@.len() == chunks@.len(),
    ensures
        match r {
            Ok(_) => spec_failed(chunks@.map_values(|c: Vec<Log>| c@), ok@) == Seq::<Log>::empty(),
            Err(e) => e.logs@ == spec_failed(chunks@.map_values(|c: Vec<Log>| c@), ok@)
                && e.logs@.len() > 0,
        },
{
    let ghost f = |c: Vec<Log>| c@;
    let ghost cviews: Seq<Seq<Log>> = chunks@.map_values(f);
    let total = ok.len();
    let mut rest = chunks;
    let mut failed: Vec<Log> = Vec::new();
    let mut i: usize = 0;
    while rest.len() > 0
        invariant
            i + rest@.len() == total,
            total == cviews.len(),
            rest@.map_values(f) == cviews.skip(i as int),
            failed@ == spec_failed(cviews.take(i as int), ok@.take(i as int)),
        decreases rest@.len(),
    {
        let ghost prevf = failed@;
        let ghost prev_rest = rest@;
        let c = rest.remove(0);
        proof {
            assert(prev_rest.map_values(f)[0] == f(prev_rest[0]));
            assert(c@ == cviews[i as int]);
            assert(rest@ =~= prev_rest.drop_first());
            assert(rest@.map_values(f) =~= prev_rest.map_values(f).drop_first());
            assert(prev_rest.map_values(f).drop_first() =~= cviews.skip(i + 1));
        }
        if !ok[i] {
            let mut cc = c;
            failed.append(&mut cc);
        }
        proof {
            assert(cviews.take(i + 1).drop_last() =~= cviews.take(i as int));
            assert(ok@.take(i + 1).drop_last() =~= ok@.take(i as int));
            assert(cviews.take(i + 1).last() == cviews[i as int]);
            assert(ok@.take(i + 1)[cviews.take(i + 1).len() - 1] == ok@[i as int]);
            if ok@[i as int] {
                assert(failed@ =~= prevf + Seq::<Log>::empty());
            }
        }
        i = i + 1;
    }
    proof {
        assert(cviews.take(cviews.len() as int) =~= cviews);
        assert(ok@.take(cviews.len() as int) =~= ok@);
    }
    if failed.len() == 0 {
        proof {
            assert(failed@ =~= Seq::<Log>::empty());
        }
        Ok(())
    } else {
        Err(FailedToSendLogsError { logs: failed })
    }
}

/// When exactly one chunk fails, the failed set is exactly that chunk:
/// after reinjection the queue holds that chunk's logs and nothing else
/// of the batch.
pub proof fn lemma_single_failure(cs: Seq<Seq<Log>>, ok: Seq<bool>, k: int)
    requires
        ok.len() == cs.len(),
        0 <= k < cs.len(),
        forall|i: int| 0 <= i < ok.len() ==> (#[trigger] ok[i] <==> i != k),
    ensures
        spec_failed(cs, ok) == cs[k],
    decreases cs.len(),
{
    if cs.len() > 0 {
        if k == cs.len() - 1 {
            lemma_failed_all_ok(cs.drop_last(), ok.drop_last());
            assert(Seq::<Log>::empty() + cs.last() =~= cs[k]);
        } else {
            lemma_single_failure(cs.drop_last(), ok.drop_last(), k);
            assert(spec_failed(cs, ok) == spec_failed(cs.drop_last(), ok.drop_last())
                + Seq::<Log>::empty());
            assert(cs.drop_last()[k] == cs[k]);
            assert(cs[k] + Seq::<Log>::empty() =~= cs[k]);
        }
    }
}

/// No log carrying the opt-out sentinel is ever delivered to a
/// destination's send: every chunk handed out is made of pipeline
/// output, and the pipeline emits no such log.
pub proof fn lemma_sentinel_never_shipped(
    rs: Seq<RawCloudWatchLogV>,
    logs: Seq<Log>,
    cap: nat,
    i: int,
    j: int,
)
    requires
        logs.map_values(|l: Log| l@) == spec_pipeline(rs),
        0 <= i < spec_chunks(logs, cap).len(),
        0 <= j < spec_chunks(logs, cap)[i].len(),
    ensures
        !spec_is_ignored(spec_chunks(logs, cap)[i][j]@),
{
    lemma_pipeline_never_ignored(rs);
    lemma_chunk_elements(logs, cap, i, j);
    let k = choose|k: int| 0 <= k < logs.len() && spec_chunks(logs, cap)[i][j] == logs[k];
    assert(logs.map_values(|l: Log| l@)[k] == logs[k]@);
    assert(spec_pipeline(rs)[k] == logs[k]@);
}

/// When every chunk succeeds, nothing is left to reinject.
pub proof fn lemma_failed_all_ok(cs: Seq<Seq<Log>>, ok: Seq<bool>)
    requires
        ok.len() == cs.len(),
        forall|i: int| 0 <= i < ok.len() ==> #[trigger] ok[i],
    ensures
        spec_failed(cs, ok) == Seq::<Log>::empty(),
    decreases cs.len(),
{
    if cs.len() > 0 {
        lemma_failed_all_ok(cs.drop_last(), ok.drop_last());
        assert(spec_failed(cs, ok) =~= Seq::<Log>::empty());
    }
}

} // verus!
