use vstd::prelude::*;

verus! {

/// Coordinated shutdown, shared by every runtime regardless of its message
/// type: close all worker channels and block until every worker thread has
/// exited. Joining goes through the pool's blocking wait, which refuses to
/// run inside an async task: call it from a plain (synchronous) thread.
pub trait IsolateRuntimeWait {
    /// Halt this runtime and wait for all its workers to shut down.
    fn wait(&self);
}

} // verus!
