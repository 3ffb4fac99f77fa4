//! The Logs API side of the extension: the subscription request, its
//! buffering settings, and the drain cycle that flushes the queue
//! through a destination.
use vstd::prelude::*;

use crate::chunk;
use crate::chunk::spec_chunks;
use crate::handler::custom::Custom;
use crate::handler::spec_failed;
use crate::handler::FailedToSendLogsError;
use crate::models::Log;
use crate::queue::LogQueue;
use crate::text;

verus! {

/// Default for the Logs API `buffering.maxItems` knob.
pub const MAX_ITEMS_DEFAULT: u32 = 1000;

/// Default for the Logs API `buffering.maxBytes` knob.
pub const MAX_BYTES_DEFAULT: u32 = 262144;

/// Default for the Logs API `buffering.timeoutMs` knob.
pub const TIMEOUT_DEFAULT: u32 = 2500;

/// Default local intake port.
pub const PORT_DEFAULT: u16 = 1060;

/// The buffering and addressing settings of the logs subscription.
pub struct LogSubscriptionConfig {
    pub port: u16,
    pub max_items: u32,
    pub max_bytes: u32,
    pub timeout: u32,
    pub host: String,
}

impl Default for LogSubscriptionConfig {
    /// The built-in settings, used where the environment names none.
    fn default() -> (r: LogSubscriptionConfig)
        ensures
            r.port == PORT_DEFAULT,
            r.max_items == MAX_ITEMS_DEFAULT,
            r.max_bytes == MAX_BYTES_DEFAULT,
            r.timeout == TIMEOUT_DEFAULT,
            r.host@ == "sandbox"@,
    {
        let hv = text::to_chars("sandbox");
        LogSubscriptionConfig {
            port: PORT_DEFAULT,
            max_items: MAX_ITEMS_DEFAULT,
            max_bytes: MAX_BYTES_DEFAULT,
            timeout: TIMEOUT_DEFAULT,
            host: text::from_chars(&hv),
        }
    }
}

/// How one numeric setting resolves: absent means the default, a readable
/// value in range stands, anything else refuses the whole configuration,
/// as the process treats an unreadable setting as fatal.
pub open spec fn spec_setting_u32(v: Option<Seq<char>>, default: u32) -> Option<u32> {
    match v {
        None => Some(default),
        Some(s) => text::spec_parse_u32(s),
    }
}

fn setting_u32(v: Option<&str>, default: u32) -> (r: Option<u32>)
    ensures
        r == spec_setting_u32(
            match v {
                Some(s) => Some(s@),
                None => None,
            },
            default,
        ),
{
    match v {
        None => Some(default),
        Some(s) => text::parse_u32(s),
    }
}

/// Resolve the subscription settings from what the environment holds:
/// `None` when any named value does not read as its type.
pub fn config_from_env(
    port: Option<&str>,
    max_items: Option<&str>,
    max_bytes: Option<&str>,
    timeout: Option<&str>,
    host: Option<&str>,
) -> (r: Option<LogSubscriptionConfig>)
    ensures
        match r {
            Some(c) => {
                &&& Some(c.max_items) == spec_setting_u32(
                    match max_items {
                        Some(s) => Some(s@),
                        None => None,
                    },
                    MAX_ITEMS_DEFAULT,
                )
                &&& Some(c.max_bytes) == spec_setting_u32(
                    match max_bytes {
                        Some(s) => Some(s@),
                        None => None,
                    },
                    MAX_BYTES_DEFAULT,
                )
                &&& Some(c.timeout) == spec_setting_u32(
                    match timeout {
                        Some(s) => Some(s@),
                        None => None,
                    },
                    TIMEOUT_DEFAULT,
                )
                &&& match port {
                    None => c.port == PORT_DEFAULT,
                    Some(s) => Some(c.port as u32) == text::spec_parse_u32(s@) && c.port
                        <= u16::MAX,
                }
                &&& c.host@ == (match host {
                    Some(h) => h@,
                    None => "sandbox"@,
                })
            },
            None => {
                ||| spec_setting_u32(
                    match max_items {
                        Some(s) => Some(s@),
                        None => None,
                    },
                    MAX_ITEMS_DEFAULT,
                ) is None
                ||| spec_setting_u32(
                    match max_bytes {
                        Some(s) => Some(s@),
                        None => None,
                    },
                    MAX_BYTES_DEFAULT,
                ) is None
                ||| spec_setting_u32(
                    match timeout {
                        Some(s) => Some(s@),
                        None => None,
                    },
                    TIMEOUT_DEFAULT,
                ) is None
                ||| (port matches Some(s) && (text::spec_parse_u32(s@) is None
                    || text::spec_parse_u32(s@)->0 > u16::MAX))
            },
        },
{
    let max_items = match setting_u32(max_items, MAX_ITEMS_DEFAULT) {
        Some(v) => v,
        None => {
            return None;
        },
    };
    let max_bytes = match setting_u32(max_bytes, MAX_BYTES_DEFAULT) {
        Some(v) => v,
        None => {
            return None;
        },
    };
    let timeout = match setting_u32(timeout, TIMEOUT_DEFAULT) {
        Some(v) => v,
        None => {
            return None;
        },
    };
    let port: u16 = match port {
        None => PORT_DEFAULT,
        Some(s) => match text::parse_u32(s) {
            Some(p) => if p <= 65535 {
                p as u16
            } else {
                return None;
            },
            None => {
                return None;
            },
        },
    };
    let host: String = match host {
        Some(h) => {
            let hv = text::to_chars(h);
            text::from_chars(&hv)
        },
        None => {
            let hv = text::to_chars("sandbox");
            text::from_chars(&hv)
        },
    };
    Some(LogSubscriptionConfig { port, max_items, max_bytes, timeout, host })
}

/// The logs subscription body for a configuration: HTTP delivery to the
/// local intake, function-type records only, and the buffering knobs.
pub open spec fn spec_subscription_body(c: LogSubscriptionConfig) -> Seq<char> {
    "{\"destination\":{\"protocol\":\"HTTP\",\"URI\":\"http://"@ + c.host@ + ":"@ + text::spec_dec(
        c.port as nat,
    ) + "\"},\"types\":[\"function\"],\"buffering\":{\"maxItems\":"@ + text::spec_dec(
        c.max_items as nat,
    ) + ",\"maxBytes\":"@ + text::spec_dec(c.max_bytes as nat) + ",\"timeoutMs\":"@
        + text::spec_dec(c.timeout as nat) + "}}"@
}

/// Shape the subscription request body sent to the Logs API.
pub fn log_subscription_request(config: &LogSubscriptionConfig) -> (r: String)
    ensures
        r@ == spec_subscription_body(*config),
{
    let mut out = text::to_chars("{\"destination\":{\"protocol\":\"HTTP\",\"URI\":\"http://");
    let mut hv = text::to_chars(config.host.as_str());
    out.append(&mut hv);
    let mut sep = text::to_chars(":");
    out.append(&mut sep);
    text::push_dec(config.port as u64, &mut out);
    let mut mid = text::to_chars("\"},\"types\":[\"function\"],\"buffering\":{\"maxItems\":");
    out.append(&mut mid);
    text::push_dec(config.max_items as u64, &mut out);
    let mut mid2 = text::to_chars(",\"maxBytes\":");
    out.append(&mut mid2);
    text::push_dec(config.max_bytes as u64, &mut out);
    let mut mid3 = text::to_chars(",\"timeoutMs\":");
    out.append(&mut mid3);
    text::push_dec(config.timeout as u64, &mut out);
    let mut tail = text::to_chars("}}");
    out.append(&mut tail);
    proof {
        assert(out@ =~= spec_subscription_body(*config));
    }
    text::from_chars(&out)
}

/// Snapshot and chunk the queue's contents for shipment, leaving the
/// queue empty: the first half of a drain cycle.
pub fn begin_drain(queue: &mut LogQueue, cap: usize) -> (r: Vec<Vec<Log>>)
    ensures
        r@.map_values(|c: Vec<Log>| c@) == spec_chunks(old(queue)@, cap as nat),
        final(queue)@ == Seq::<Log>::empty(),
{
    let batch = queue.drain_all();
    chunk::chunk_logs(batch, cap)
}

/// Fold per-chunk send outcomes back into the queue: the failed chunks'
/// logs re-enter it, after whatever arrived during the send. Returns
/// whether every chunk was accepted: the second half of a drain cycle.
pub fn finish_drain(queue: &mut LogQueue, chunks: Vec<Vec<Log>>, ok: &Vec<bool>) -> (r: bool)
    requires
        ok@.len() == chunks@.len(),
    ensures
        final(queue)@ == old(queue)@ + spec_failed(chunks@.map_values(|c: Vec<Log>| c@), ok@),
        r == (spec_failed(chunks@.map_values(|c: Vec<Log>| c@), ok@).len() == 0),
{
    match crate::handler::collect_failed(chunks, ok) {
        Ok(_) => {
            proof {
                assert(old(queue)@ + Seq::<Log>::empty() =~= old(queue)@);
            }
            true
        },
        Err(e) => {
            queue.extend(e.logs);
            false
        },
    }
}

/// One drain cycle against the local development destination, which
/// accepts everything: nothing if the queue is empty, otherwise the
/// whole contents are handed over and the queue ends empty. Returns
/// whether a non-empty batch was shipped.
pub fn consume(queue: &mut LogQueue, dest: &Custom) -> (r: bool)
    ensures
        final(queue)@ == Seq::<Log>::empty(),
        r == (old(queue)@.len() > 0),
{
    let length = queue.len();
    if length == 0 {
        return false;
    }
    let split = queue.drain_all();
    match dest.handle_logs(split) {
        Ok(_) => true,
        Err(e) => {
            queue.extend(e.logs);
            true
        },
    }
}

} // verus!
