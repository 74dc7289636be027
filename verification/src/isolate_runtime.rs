pub mod isolate_identity;
pub mod isolate_runtime_error;
pub mod isolate_runtime_ref;
pub mod isolate_runtime_shared;
pub mod isolate_runtime_wait;

use vstd::prelude::*;
use std::sync::Arc;
use crate::Isolate;
use crate::IsolateChannel;
use crate::isolate_channel::clone_arc;
use crate::isolate_runtime::isolate_runtime_error::IsolateRuntimeError;
use crate::isolate_runtime::isolate_runtime_ref::IsolateRuntimeRef;
use crate::isolate_runtime::isolate_runtime_shared::IsolateRuntimeShared;
use crate::isolate_runtime::isolate_runtime_shared::RuntimeLock;
use crate::isolate_runtime::isolate_runtime_shared::WorkerHandle;
use crate::isolate_runtime::isolate_runtime_wait::IsolateRuntimeWait;

verus! {

/// One live worker's record in the runtime's table: the runtime-side channel
/// endpoint (exclusively owned by the table) and the worker's thread handle.
#[verifier::reject_recursive_types(T)]
pub struct IsolateRef<T> {
    /// Runtime-side endpoint of the worker's channel.
    pub channel: IsolateChannel<T>,
    /// Token for joining the worker's dedicated thread.
    pub handle: WorkerHandle,
}

/// The per-message-type manager of workers: owns one behavior instance and
/// the table of live workers, spawns workers on dedicated threads, tracks
/// them by identity, and performs coordinated shutdown.
#[verifier::reject_recursive_types(T)]
pub struct IsolateRuntime<T> {
    shared: Arc<RuntimeLock<T>>,
}

impl<T: Send + 'static> IsolateRuntime<T> {
    /// The lock guarding this runtime's live-worker table.
    pub closed spec fn spec_table(self) -> RuntimeLock<T> {
        *self.shared
    }

    /// Whether this runtime holds a worker pool. Set once at construction;
    /// a runtime that has one keeps it, and every spawn on it succeeds.
    pub open spec fn spec_has_pool(self) -> bool {
        self.spec_table().pred().has_pool
    }

    /// Create a new runtime around one behavior instance and an empty
    /// worker table. This allocates the runtime's worker-thread pool, which
    /// stays with the process for its remaining life even after the runtime
    /// is gone.
    pub fn new<B: Isolate<T> + Send + Sync + 'static>(isolate: B) -> IsolateRuntime<T> {
        IsolateRuntime { shared: IsolateRuntimeShared::new(isolate) }
    }

    /// Spawn a new worker thread running this runtime's behavior, and hand
    /// back the caller's clone of the runtime-side channel endpoint.
    ///
    /// The shared state's lock cannot be poisoned (no verified holder
    /// panics), so on a runtime that holds a worker pool — every runtime
    /// whose construction obtained one — spawning succeeds; it fails, with
    /// the runtime's fatal internal error, only where no pool could be had.
    pub fn spawn(&mut self) -> (r: Result<IsolateChannel<T>, IsolateRuntimeError>)
        ensures
            *final(self) == *old(self),
            old(self).spec_has_pool() ==> r is Ok,
            r matches Err(e) ==> e is InternalSyncError,
    {
        self.as_ref().spawn()
    }

    /// A clonable, non-owning handle sharing this runtime's state: spawns
    /// and lookups through the handle work on the very same worker table.
    pub fn as_ref(&self) -> (r: IsolateRuntimeRef<T>)
        ensures
            r.spec_table() == self.spec_table(),
    {
        IsolateRuntimeRef::new(clone_arc(&self.shared))
    }

    /// Halt this runtime and wait for all its workers to shut down: the
    /// worker table is swapped out for an empty one in one step, then every
    /// previously-held endpoint is closed and every worker thread joined.
    /// A worker that never observes closure blocks this call indefinitely.
    /// Joining goes through the pool's blocking wait, which refuses to run
    /// inside an async task: call this from a plain (synchronous) thread.
    pub fn wait(&self) {
        self.as_ref().shutdown()
    }

    /// Alias of [`IsolateRuntime::wait`].
    pub fn halt(&self) {
        self.wait()
    }
}

impl<T: Send + 'static> IsolateRuntimeWait for IsolateRuntime<T> {
    /// Halt this runtime and wait for all its workers to shut down.
    fn wait(&self) {
        IsolateRuntime::<T>::wait(self)
    }
}

} // verus!
