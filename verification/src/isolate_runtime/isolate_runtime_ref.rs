use vstd::prelude::*;
use std::sync::Arc;
use crate::IsolateChannel;
use crate::IsolateIdentity;
use crate::isolate_channel::clone_arc;
use crate::isolate_runtime::IsolateRef;
use crate::isolate_runtime::isolate_runtime_error::IsolateRuntimeError;
use crate::isolate_runtime::isolate_runtime_shared::RuntimeLock;
use crate::isolate_runtime::isolate_runtime_shared::clone_worker_main;
use crate::isolate_runtime::isolate_runtime_shared::join_worker;
use crate::isolate_runtime::isolate_runtime_shared::start_worker;

verus! {

/// A shared, non-owning handle into a runtime's live-worker table, for use
/// by a running worker that needs to spawn siblings or locate a peer without
/// owning the runtime value itself.
#[verifier::reject_recursive_types(T)]
pub struct IsolateRuntimeRef<T> {
    shared: Arc<RuntimeLock<T>>,
}

impl<T: Send + 'static> IsolateRuntimeRef<T> {
    /// The lock guarding the live-worker table this handle shares.
    pub closed spec fn spec_table(self) -> RuntimeLock<T> {
        *self.shared
    }

    /// Whether the runtime behind this handle holds a worker pool. Set once
    /// at the runtime's construction; a runtime that has one keeps it.
    pub open spec fn spec_has_pool(self) -> bool {
        self.spec_table().pred().has_pool
    }

    /// Wrap a handle on a runtime's shared state.
    pub fn new(shared: Arc<RuntimeLock<T>>) -> (r: IsolateRuntimeRef<T>)
        ensures
            r.spec_table() == *shared,
    {
        IsolateRuntimeRef { shared }
    }

    /// One more handle on the same shared state.
    pub(crate) fn duplicate(&self) -> (r: IsolateRuntimeRef<T>)
        ensures
            r.spec_table() == self.spec_table(),
    {
        IsolateRuntimeRef { shared: clone_arc(&self.shared) }
    }

    /// Look up the live worker keyed by `identity` and hand back a clone of
    /// its runtime-side channel endpoint — but only if one is registered and
    /// its channel is still active. This is what lets one worker message
    /// another: it learns the peer's identity (say, from an introduction
    /// message) and obtains a live endpoint here.
    pub fn find(&self, identity: &IsolateIdentity) -> Option<IsolateChannel<T>> {
        let read = self.shared.acquire_read();
        let result = read.borrow().find_channel(identity);
        read.release_read();
        result
    }

    /// Spawn a new worker: allocate a fresh identity and a connected channel
    /// pair, run the behavior on a new dedicated thread with the worker-side
    /// endpoint and a runtime handle, record the runtime-side endpoint and
    /// the thread handle in the table, and hand the caller its own clone of
    /// the runtime-side endpoint.
    ///
    /// The shared state's lock cannot be poisoned (no verified holder
    /// panics), so on a runtime that holds a worker pool — every runtime
    /// whose construction obtained one — spawning succeeds; it fails, with
    /// the runtime's fatal internal error, only where no pool could be had.
    pub fn spawn(&mut self) -> (r: Result<IsolateChannel<T>, IsolateRuntimeError>)
        ensures
            *final(self) == *old(self),
            old(self).spec_has_pool() ==> r is Ok,
            r matches Err(e) ==> e is InternalSyncError,
    {
        let identity = IsolateIdentity::new();
        let (ref_channel, worker_channel) = IsolateChannel::new();
        let consumer_channel = ref_channel.duplicate();
        let worker_ref = self.duplicate();

        let (mut state, write) = self.shared.acquire_write();
        let main = clone_worker_main(&state.behavior);
        let started = start_worker(&state.pool, main, identity, worker_channel, worker_ref);
        match started {
            Ok(handle) => {
                state.store_ref(identity, IsolateRef { channel: ref_channel, handle });
                write.release_write(state);
                Ok(consumer_channel)
            },
            Err(e) => {
                write.release_write(state);
                Err(e)
            },
        }
    }

    /// Close every live worker's channel and block until each worker thread
    /// has exited. The whole table is taken out in one step, so no racing
    /// spawn can slip a worker into the batch being halted.
    pub(crate) fn shutdown(&self) {
        let (mut state, write) = self.shared.acquire_write();
        let mut drained = state.take_refs();
        write.release_write(state);

        while drained.len() > 0
            decreases drained@.len(),
        {
            match drained.pop() {
                Some((_identity, record)) => {
                    let IsolateRef { channel, handle } = record;
                    {
                        // Close the channel, then let this endpoint go, so a
                        // worker blocked on a receive observes severance
                        // once every other endpoint of its channel is gone.
                        let endpoint = channel;
                        endpoint.close();
                    }
                    join_worker(handle);
                },
                None => {},
            }
        }
    }
}

} // verus!
