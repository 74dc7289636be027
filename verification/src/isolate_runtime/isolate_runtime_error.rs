use vstd::prelude::*;

verus! {

/// Failures reported by the runtime and its identity codec.
#[derive(Debug)]
pub enum IsolateRuntimeError {
    /// A guarded shared state is unusable; fatal for this runtime instance.
    InternalSyncError,
    /// A text form of an identity could not be parsed; the reason is carried
    /// along for the caller.
    InvalidIdentity(String),
}

} // verus!
