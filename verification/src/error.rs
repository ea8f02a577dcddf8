//! Address-level errors.
//!
//! Channel and queue conditions are converted to these typed errors at the
//! address boundary; none of them is retriable at this layer.

use vstd::prelude::*;

verus! {

/// What a submission through an address can fail with.
#[derive(Clone, Copy, Debug, PartialEq, Eq, Structural)]
pub enum Error {
    /// The service's channel is closed: the send or call was refused
    /// outright and the message was not accepted.
    ServiceStoped,
    /// A call's completion channel resolved to canceled: the message may
    /// have been accepted and even executed, but no result was delivered
    /// (the mailbox was paused during handling, or torn down mid-call).
    ServicePaused,
}

} // verus!
