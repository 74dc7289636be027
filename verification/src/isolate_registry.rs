pub mod isolate_registry_error;
pub mod isolate_registry_ref;
pub mod isolate_registry_shared;

use vstd::prelude::*;
use std::sync::Arc;
use crate::Isolate;
use crate::isolate_channel::clone_arc;
use crate::isolate_registry::isolate_registry_error::IsolateRegistryError;
use crate::isolate_registry::isolate_registry_ref::IsolateRegistryRef;
use crate::isolate_registry::isolate_registry_shared::IsolateRegistryShared;
use crate::isolate_registry::isolate_registry_shared::RegistryLock;
use crate::isolate_runtime::isolate_runtime_ref::IsolateRuntimeRef;

verus! {

/// A name-keyed directory of type-erased runtimes: it binds constant name
/// strings to runtime instances of unrelated message types, so that isolates
/// can discover the appropriate runtime dynamically, with the element type
/// checked at lookup time.
pub struct IsolateRegistry {
    shared: Arc<RegistryLock>,
}

impl IsolateRegistry {
    /// The lock guarding this registry's name directory.
    pub closed spec fn spec_directory(self) -> RegistryLock {
        *self.shared
    }

    /// A fresh registry with no bindings.
    pub fn new() -> IsolateRegistry {
        IsolateRegistry { shared: IsolateRegistryShared::new() }
    }

    /// A clonable handle sharing this registry's directory (no copy): binds
    /// and finds through the handle work on the very same directory as the
    /// registry's own.
    pub fn as_ref(&self) -> (r: IsolateRegistryRef)
        ensures
            r.spec_directory() == self.spec_directory(),
    {
        IsolateRegistryRef::new(clone_arc(&self.shared))
    }

    /// Bind a new runtime instance, built around `isolate`, to the name
    /// `identity`, and hand back a reference into it. The one failure is a
    /// name that is already bound, and then nothing changes: a name, once
    /// bound, is immutable for the registry's lifetime.
    pub fn bind<T: Send + 'static, B: Isolate<T> + Send + Sync + 'static>(
        &mut self,
        identity: &str,
        isolate: B,
    ) -> (r: Result<IsolateRuntimeRef<T>, IsolateRegistryError>)
        ensures
            r matches Err(e) ==> e == IsolateRegistryError::IdentityAlreadyInUse,
    {
        let (mut state, write) = self.shared.acquire_write();
        let result = state.bind(identity, isolate);
        write.release_write(state);
        result
    }

    /// Find the runtime bound to `identity` by name and by type: even when
    /// the name matches, a stored runtime of the wrong message type is an
    /// error of its own, not a miss.
    pub fn find<T: Send + 'static>(&self, identity: &str) -> (r: Result<
        IsolateRuntimeRef<T>,
        IsolateRegistryError,
    >)
        ensures
            r matches Err(e) ==> e == IsolateRegistryError::NoMatchingIdentity || e
                == IsolateRegistryError::InvalidRuntimeType,
    {
        let read = self.shared.acquire_read();
        let result = read.borrow().find::<T>(identity);
        read.release_read();
        result
    }

    /// Halt every bound runtime and wait for all their workers to shut
    /// down; one runtime's failure does not keep the others from being
    /// halted. Joining goes through each pool's blocking wait, which
    /// refuses to run inside an async task: call this from a plain
    /// (synchronous) thread.
    pub fn wait(self) {
        let read = self.shared.acquire_read();
        read.borrow().wait();
        read.release_read();
    }
}

} // verus!
