//! The lifecycle event loop's decision table.
//!
//! The loop itself long-polls the platform's next-event endpoint; what it
//! does with each outcome is decided here: every outcome is followed by a
//! drain, and only a shutdown ends the loop.
use vstd::prelude::*;

verus! {

/// Tracing information attached to an invocation event.
pub struct Tracing {
    pub kind: String,
    pub value: String,
}

/// One answer of the platform's next-event long poll.
pub enum NextEventResponse {
    Invoke {
        deadline_ms: u64,
        request_id: String,
        invoked_function_arn: String,
        tracing: Tracing,
    },
    Shutdown { shutdown_reason: String, deadline_ms: u64 },
}

/// A failed long poll: its message, kept for the log.
pub struct PollError {
    pub message: String,
}

/// What the loop does after one poll.
#[derive(Clone, Copy, PartialEq, Eq, Structural, Debug)]
pub struct EventDirective {
    /// Drain the queue through the destination before polling again.
    pub drain: bool,
    /// Leave the loop cleanly.
    pub exit: bool,
}

/// Decide the loop's next step: every outcome drains, so buffered logs
/// are delivered even after a failed poll, and only a shutdown exits.
pub fn handle_event(event: &Result<NextEventResponse, PollError>) -> (r: EventDirective)
    ensures
        r.drain == true,
        r.exit == (event matches Ok(NextEventResponse::Shutdown { .. })),
{
    match event {
        Ok(NextEventResponse::Invoke { .. }) => EventDirective { drain: true, exit: false },
        Ok(NextEventResponse::Shutdown { .. }) => EventDirective { drain: true, exit: true },
        Err(_) => EventDirective { drain: true, exit: false },
    }
}

} // verus!
