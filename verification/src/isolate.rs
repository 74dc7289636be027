use vstd::prelude::*;
use crate::IsolateChannel;
use crate::IsolateIdentity;
use crate::isolate_runtime::isolate_runtime_ref::IsolateRuntimeRef;

verus! {

/// The single extension point of the runtime: user code defining what one
/// worker does.
///
/// The runtime invokes `spawn` exactly once per spawned worker, on that
/// worker's own dedicated thread; the worker is finished when the call
/// returns. The implementation receives the worker's fresh identity, the
/// worker-side endpoint of the worker's channel, and a handle back into the
/// runtime with which it can spawn siblings or locate a peer by identity.
///
/// An implementation typically loops on `channel.receive()`, dispatches on
/// the message, and returns on a sentinel message or once the channel is
/// severed. No scheduling order across workers is promised.
pub trait Isolate<T> {
    /// Run one worker to completion.
    fn spawn(&self, identity: IsolateIdentity, channel: IsolateChannel<T>, runtime: IsolateRuntimeRef<T>);
}

} // verus!
