//! The Logzio destination: chunks an already-parsed batch under the bulk
//! cap and shapes the host-and-token bulk endpoint.
use vstd::prelude::*;

use crate::chunk;
use crate::chunk::lemma_chunk_bounded;
use crate::chunk::lemma_chunks_concat;
use crate::chunk::spec_chunks;
use crate::chunk::spec_sum_sizes;
use crate::handler::BuildError;
use crate::handler::BULK_CHUNK_BYTES;
use crate::models::Log;
use crate::text;

verus! {

/// The bulk endpoint for a host and token.
pub open spec fn spec_logzio_url(host: Seq<char>, token: Seq<char>) -> Seq<char> {
    "http://"@ + host + ":8070/?token="@ + token + "&type=http-bulk"@
}

/// A built Logzio destination: the bulk URL and the request timeout in
/// milliseconds, `None` meaning none at all.
#[derive(Debug)]
pub struct Logzio {
    pub url: String,
    pub timeout: Option<u64>,
}

impl Logzio {
    /// An empty builder.
    pub fn builder() -> (r: LogzioBuilder)
        ensures
            r.token is None && r.host is None && r.timeout is None,
    {
        LogzioBuilder::new()
    }

    /// Chunk a batch under the bulk cap; one bulk request is owed per
    /// returned chunk. The chunks concatenate back to the batch, and each
    /// stays under the cap unless it holds a single oversized log.
    pub fn prepare(&self, logs: Vec<Log>) -> (r: Vec<Vec<Log>>)
        ensures
            r@.map_values(|c: Vec<Log>| c@) == spec_chunks(logs@, BULK_CHUNK_BYTES as nat),
            r@.map_values(|c: Vec<Log>| c@).flatten() == logs@,
            forall|i: int|
                0 <= i < r@.len() ==> spec_sum_sizes((#[trigger] r@[i])@) <= BULK_CHUNK_BYTES
                    || r@[i]@.len() == 1,
    {
        let ghost s = logs@;
        let r = chunk::chunk_logs(logs, BULK_CHUNK_BYTES);
        proof {
            lemma_chunks_concat(s, BULK_CHUNK_BYTES as nat);
            assert forall|i: int|
                0 <= i < r@.len() implies spec_sum_sizes((#[trigger] r@[i])@) <= BULK_CHUNK_BYTES
                || r@[i]@.len() == 1 by {
                lemma_chunk_bounded(s, BULK_CHUNK_BYTES as nat, i);
                assert(r@.map_values(|c: Vec<Log>| c@)[i] == r@[i]@);
            }
        }
        r
    }
}

/// Accumulates the settings a Logzio destination is built from.
pub struct LogzioBuilder {
    pub token: Option<String>,
    pub host: Option<String>,
    pub timeout: Option<u64>,
}

impl LogzioBuilder {
    pub fn new() -> (r: LogzioBuilder)
        ensures
            r.token is None && r.host is None && r.timeout is None,
    {
        LogzioBuilder { token: None, host: None, timeout: None }
    }

    pub fn with_host(self, host: String) -> (r: LogzioBuilder)
        ensures
            r == (LogzioBuilder { host: Some(host), ..self }),
    {
        LogzioBuilder { host: Some(host), ..self }
    }

    pub fn with_token(self, token: String) -> (r: LogzioBuilder)
        ensures
            r == (LogzioBuilder { token: Some(token), ..self }),
    {
        LogzioBuilder { token: Some(token), ..self }
    }

    pub fn with_timeout(self, timeout: Option<u64>) -> (r: LogzioBuilder)
        ensures
            r == (LogzioBuilder { timeout, ..self }),
    {
        LogzioBuilder { timeout, ..self }
    }

    /// Build the destination: it succeeds exactly when token and host are
    /// both set, complained about in that order when not; the URL is
    /// shaped from host and token.
    pub fn build(self) -> (r: Result<Logzio, BuildError>)
        ensures
            r is Ok <==> self.token is Some && self.host is Some,
            match r {
                Ok(l) => {
                    &&& self.token matches Some(token) && self.host matches Some(host) && l.url@
                        == spec_logzio_url(host@, token@)
                    &&& l.timeout == self.timeout
                },
                Err(e) => {
                    &&& e is MissingToken <==> self.token is None
                    &&& e is MissingHost <==> self.token is Some && self.host is None
                },
            },
    {
        let token = match self.token {
            Some(t) => t,
            None => {
                return Err(BuildError::MissingToken);
            },
        };
        let host = match self.host {
            Some(h) => h,
            None => {
                return Err(BuildError::MissingHost);
            },
        };
        let mut url = text::to_chars("http://");
        let mut hv = text::to_chars(host.as_str());
        url.append(&mut hv);
        let mut mid = text::to_chars(":8070/?token=");
        url.append(&mut mid);
        let mut tok = text::to_chars(token.as_str());
        url.append(&mut tok);
        let mut tail = text::to_chars("&type=http-bulk");
        url.append(&mut tail);
        proof {
            assert(url@ =~= spec_logzio_url(host@, token@));
        }
        Ok(Logzio { url: text::from_chars(&url), timeout: self.timeout })
    }
}

} // verus!
