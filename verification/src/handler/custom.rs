//! The local development destination: accepts every batch outright, so a
//! drain against it always empties the queue.
use vstd::prelude::*;

use crate::handler::FailedToSendLogsError;
use crate::models::Log;

verus! {

/// A destination that accepts everything and sends nothing anywhere.
#[derive(Clone, Copy, PartialEq, Eq, Structural, Debug)]
pub struct Custom;

impl Custom {
    pub fn new() -> (r: Custom)
        ensures
            r == (Custom {  }),
    {
        Custom {  }
    }

    /// Accept a batch; nothing ever fails.
    pub fn handle_logs(&self, logs: Vec<Log>) -> (r: Result<(), FailedToSendLogsError>)
        ensures
            r is Ok,
    {
        let _ = logs;
        Ok(())
    }
}

} // verus!
