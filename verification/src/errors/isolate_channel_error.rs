use vstd::prelude::*;

verus! {

/// Failures reported by channel endpoint operations.
#[derive(Clone, Copy, PartialEq, Eq, Structural, Debug)]
pub enum IsolateChannelError {
    /// The peer endpoint is gone: every handle on the other side of the
    /// channel has been dropped, so no message can cross it any more.
    ConnectionFailed,
    /// A guarded shared state could not be used.
    SyncError,
    /// A bounded wait for a message ran out before one arrived.
    Timeout,
}

} // verus!
