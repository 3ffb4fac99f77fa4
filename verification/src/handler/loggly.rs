//! The Loggly destination: parses raw records on shipment, chunks under
//! the bulk cap, and shapes the newline-joined bulk bodies posted to the
//! token-and-tag bulk endpoint.
use vstd::prelude::*;

use crate::chunk;
use crate::chunk::lemma_chunk_bounded;
use crate::chunk::lemma_chunks_concat;
use crate::chunk::spec_chunks;
use crate::chunk::spec_sum_sizes;
use crate::handler::BuildError;
use crate::handler::BULK_CHUNK_BYTES;
use crate::models::Log;
use crate::models::RawCloudWatchLog;
use crate::parser;
use crate::parser::Parser;
use crate::text;

verus! {

/// The bulk endpoint for a token and tag.
pub open spec fn spec_loggly_url(token: Seq<char>, tag: Seq<char>) -> Seq<char> {
    "http://logs-01.loggly.com/bulk/"@ + token + "/tag/"@ + tag + "/"@
}

/// A built Loggly destination: the bulk URL, the parser run on shipment,
/// and the request timeout in milliseconds, `None` meaning none at all.
#[derive(Debug)]
pub struct Loggly {
    pub url: String,
    pub parser: Parser,
    pub timeout: Option<u64>,
}

impl Loggly {
    /// An empty builder.
    pub fn builder() -> (r: LogglyBuilder)
        ensures
            r.token is None && r.tag is None && r.parser is None && r.timeout is None,
    {
        LogglyBuilder::new()
    }

    /// Parse a raw batch and chunk it under the bulk cap; one bulk
    /// request is owed per returned chunk. The chunks concatenate back to
    /// exactly the pipeline's output for the batch, and each stays under
    /// the cap unless it holds a single oversized log.
    pub fn prepare(&self, cloudwatch_logs: Vec<RawCloudWatchLog>) -> (r: Vec<Vec<Log>>)
        ensures
            exists|logs: Seq<Log>|
                {
                    &&& logs.map_values(|l: Log| l@) == parser::spec_pipeline_values(
                        cloudwatch_logs@,
                    )
                    &&& r@.map_values(|c: Vec<Log>| c@) == #[trigger] spec_chunks(
                        logs,
                        BULK_CHUNK_BYTES as nat,
                    )
                },
            r@.map_values(|c: Vec<Log>| c@).flatten().map_values(|l: Log| l@)
                == parser::spec_pipeline_values(cloudwatch_logs@),
            forall|i: int|
                0 <= i < r@.len() ==> spec_sum_sizes((#[trigger] r@[i])@) <= BULK_CHUNK_BYTES
                    || r@[i]@.len() == 1,
    {
        let logs = self.parser.parse(cloudwatch_logs);
        let ghost w = logs@;
        let r = chunk::chunk_logs(logs, BULK_CHUNK_BYTES);
        proof {
            assert(w.map_values(|l: Log| l@) == parser::spec_pipeline_values(cloudwatch_logs@)
                && r@.map_values(|c: Vec<Log>| c@) == spec_chunks(w, BULK_CHUNK_BYTES as nat));
            lemma_chunks_concat(w, BULK_CHUNK_BYTES as nat);
            assert forall|i: int|
                0 <= i < r@.len() implies spec_sum_sizes((#[trigger] r@[i])@) <= BULK_CHUNK_BYTES
                || r@[i]@.len() == 1 by {
                lemma_chunk_bounded(w, BULK_CHUNK_BYTES as nat, i);
                assert(r@.map_values(|c: Vec<Log>| c@)[i] == r@[i]@);
            }
        }
        r
    }
}

/// Accumulates the settings a Loggly destination is built from.
pub struct LogglyBuilder {
    pub token: Option<String>,
    pub tag: Option<String>,
    pub parser: Option<Parser>,
    pub timeout: Option<u64>,
}

impl LogglyBuilder {
    pub fn new() -> (r: LogglyBuilder)
        ensures
            r.token is None && r.tag is None && r.parser is None && r.timeout is None,
    {
        LogglyBuilder { token: None, tag: None, parser: None, timeout: None }
    }

    pub fn with_tag(self, tag: String) -> (r: LogglyBuilder)
        ensures
            r == (LogglyBuilder { tag: Some(tag), ..self }),
    {
        LogglyBuilder { tag: Some(tag), ..self }
    }

    pub fn with_token(self, token: String) -> (r: LogglyBuilder)
        ensures
            r == (LogglyBuilder { token: Some(token), ..self }),
    {
        LogglyBuilder { token: Some(token), ..self }
    }

    pub fn with_parser(self, parser: Parser) -> (r: LogglyBuilder)
        ensures
            r == (LogglyBuilder { parser: Some(parser), ..self }),
    {
        LogglyBuilder { parser: Some(parser), ..self }
    }

    pub fn with_timeout(self, timeout: Option<u64>) -> (r: LogglyBuilder)
        ensures
            r == (LogglyBuilder { timeout, ..self }),
    {
        LogglyBuilder { timeout, ..self }
    }

    /// Build the destination: it succeeds exactly when token, tag and
    /// parser are all set, complained about in that order when not; the
    /// URL is shaped from token and tag.
    pub fn build(self) -> (r: Result<Loggly, BuildError>)
        ensures
            r is Ok <==> self.token is Some && self.tag is Some && self.parser is Some,
            match r {
                Ok(l) => {
                    &&& self.token matches Some(token) && self.tag matches Some(tag) && l.url@
                        == spec_loggly_url(token@, tag@)
                    &&& self.parser is Some && l.parser == self.parser->0
                    &&& l.timeout == self.timeout
                },
                Err(e) => {
                    &&& e is MissingToken <==> self.token is None
                    &&& e is MissingTag <==> self.token is Some && self.tag is None
                    &&& e is MissingParser <==> self.token is Some && self.tag is Some
                        && self.parser is None
                },
            },
    {
        let token = match self.token {
            Some(t) => t,
            None => {
                return Err(BuildError::MissingToken);
            },
        };
        let tag = match self.tag {
            Some(t) => t,
            None => {
                return Err(BuildError::MissingTag);
            },
        };
        let parser = match self.parser {
            Some(p) => p,
            None => {
                return Err(BuildError::MissingParser);
            },
        };
        let mut url = text::to_chars("http://logs-01.loggly.com/bulk/");
        let mut tok = text::to_chars(token.as_str());
        url.append(&mut tok);
        let mut mid = text::to_chars("/tag/");
        url.append(&mut mid);
        let mut tg = text::to_chars(tag.as_str());
        url.append(&mut tg);
        let mut tail = text::to_chars("/");
        url.append(&mut tail);
        proof {
            assert(url@ =~= spec_loggly_url(token@, tag@));
        }
        Ok(Loggly { url: text::from_chars(&url), parser, timeout: self.timeout })
    }
}

} // verus!
