//! The Firehose destination: chunks a batch under the record cap and
//! shapes each chunk as the base64 of a JSON document holding the
//! configured metadata and the serialized logs.
use vstd::prelude::*;

use crate::chunk;
use crate::chunk::lemma_chunk_bounded;
use crate::chunk::lemma_chunks_concat;
use crate::chunk::spec_chunks;
use crate::chunk::spec_sum_sizes;
use crate::json::JsonDoc;
use crate::models::spec_log_text;
use crate::models::Log;
use crate::handler::FIREHOSE_CHUNK_BYTES;
use crate::text;

verus! {

/// What base64-encoding yields for a byte string. A function of the
/// bytes alone; what it is on given values is only learnt by calling
/// [`base64_of`].
pub uninterp spec fn spec_base64(bytes: Seq<u8>) -> Seq<char>;

/// Relies on `base64::Engine::encode` with the standard alphabet: the
/// padded base64 writing of the bytes, a function of the bytes alone.
#[verifier::external_body]
fn base64_of(s: &str) -> (r: String)
    ensures
        r@ == spec_base64(vstd::utf8::encode_utf8(s@)),
{
    base64::Engine::encode(&base64::engine::general_purpose::STANDARD, s)
}

/// A built Firehose destination: the delivery stream and the metadata
/// document every record carries.
pub struct Firehose {
    pub delivery_stream_name: String,
    pub metadata: JsonDoc,
}

/// The JSON document one Firehose record holds before encoding: the
/// metadata verbatim, then the serialized logs as a string array.
pub open spec fn spec_record_json(metadata: Seq<char>, logs: Seq<Log>) -> Seq<char> {
    "{\"metadata\":"@ + metadata + ",\"logs\":["@ + spec_log_array(logs) + "]}"@
}

/// The members of the record's log array: each log's wire text as a JSON
/// string, comma-separated.
pub open spec fn spec_log_array(s: Seq<Log>) -> Seq<char>
    decreases s.len(),
{
    if s.len() == 0 {
        Seq::empty()
    } else if s.len() == 1 {
        text::spec_quoted(spec_log_text(s.last()@))
    } else {
        spec_log_array(s.drop_last()) + seq![','] + text::spec_quoted(spec_log_text(s.last()@))
    }
}

impl Firehose {
    pub fn new(delivery_stream_name: String, metadata: JsonDoc) -> (r: Firehose)
        ensures
            r.delivery_stream_name@ == delivery_stream_name@,
            r.metadata@ == metadata@,
    {
        Firehose { delivery_stream_name, metadata }
    }

    /// Chunk a batch under the record cap; one `PutRecord` is owed per
    /// returned chunk. The chunks concatenate back to the batch, and each
    /// stays under the cap unless it holds a single oversized log.
    pub fn prepare(&self, logs: Vec<Log>) -> (r: Vec<Vec<Log>>)
        ensures
            r@.map_values(|c: Vec<Log>| c@) == spec_chunks(logs@, FIREHOSE_CHUNK_BYTES as nat),
            r@.map_values(|c: Vec<Log>| c@).flatten() == logs@,
            forall|i: int|
                0 <= i < r@.len() ==> spec_sum_sizes((#[trigger] r@[i])@) <= FIREHOSE_CHUNK_BYTES
                    || r@[i]@.len() == 1,
    {
        let ghost s = logs@;
        let r = chunk::chunk_logs(logs, FIREHOSE_CHUNK_BYTES);
        proof {
            lemma_chunks_concat(s, FIREHOSE_CHUNK_BYTES as nat);
            assert forall|i: int|
                0 <= i < r@.len() implies spec_sum_sizes((#[trigger] r@[i])@)
                <= FIREHOSE_CHUNK_BYTES || r@[i]@.len() == 1 by {
                lemma_chunk_bounded(s, FIREHOSE_CHUNK_BYTES as nat, i);
                assert(r@.map_values(|c: Vec<Log>| c@)[i] == r@[i]@);
            }
        }
        r
    }

    /// The base64-encoded record body for one chunk.
    pub fn record_data(&self, chunk: &Vec<Log>) -> (r: String)
        ensures
            r@ == spec_base64(
                vstd::utf8::encode_utf8(spec_record_json(self.metadata@.text, chunk@)),
            ),
    {
        let body = self.record_json(chunk);
        base64_of(body.as_str())
    }

    /// The JSON document for one chunk, before encoding.
    #[verifier::loop_isolation(false)]
    pub fn record_json(&self, chunk: &Vec<Log>) -> (r: String)
        ensures
            r@ == spec_record_json(self.metadata@.text, chunk@),
    {
        let mut out = text::to_chars("{\"metadata\":");
        let mut meta = text::to_chars(self.metadata.text().as_str());
        out.append(&mut meta);
        let mut key = text::to_chars(",\"logs\":[");
        out.append(&mut key);
        let mut i: usize = 0;
        let ghost head: Seq<char> = "{\"metadata\":"@ + self.metadata@.text + ",\"logs\":["@;
        proof {
            assert(out@ =~= head);
        }
        while i < chunk.len()
            invariant
                0 <= i <= chunk@.len(),
                out@ == head + spec_log_array(chunk@.take(i as int)),
            decreases chunk@.len() - i,
        {
            if i > 0 {
                out.push(',');
            }
            let line = chunk[i].to_string();
            let lv = text::to_chars(line.as_str());
            text::push_quoted(&lv, &mut out);
            proof {
                assert(chunk@.take(i + 1).drop_last() =~= chunk@.take(i as int));
                assert(chunk@.take(i + 1).last() == chunk@[i as int]);
            }
            i = i + 1;
        }
        let mut close = text::to_chars("]}");
        out.append(&mut close);
        proof {
            assert(chunk@.take(chunk@.len() as int) =~= chunk@);
            assert(out@ =~= spec_record_json(self.metadata@.text, chunk@));
        }
        text::from_chars(&out)
    }
}

} // verus!
