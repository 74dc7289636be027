use vstd::prelude::*;

verus! {

/// Failures reported by the connection-oriented runtime surface.
#[derive(Clone, Copy, PartialEq, Eq, Structural, Debug)]
pub enum IsolateRuntimeError {
    /// No connection could be opened to the named isolate.
    ConnectionFailed,
    /// The isolate has halted and accepts no further events.
    IsolateHalted,
    /// A guarded shared state could not be used.
    SyncError,
}

} // verus!
