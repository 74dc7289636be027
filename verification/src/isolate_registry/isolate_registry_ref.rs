use vstd::prelude::*;
use std::sync::Arc;
use crate::Isolate;
use crate::isolate_channel::clone_arc;
use crate::isolate_registry::isolate_registry_error::IsolateRegistryError;
use crate::isolate_registry::isolate_registry_shared::RegistryLock;
use crate::isolate_runtime::isolate_runtime_ref::IsolateRuntimeRef;

verus! {

/// A clonable, non-owning handle on a registry, with which any isolate can
/// bind further runtimes and look them up, concurrently with the others.
#[derive(Clone)]
pub struct IsolateRegistryRef {
    shared: Arc<RegistryLock>,
}

impl IsolateRegistryRef {
    /// The lock guarding the name directory this handle shares.
    pub closed spec fn spec_directory(self) -> RegistryLock {
        *self.shared
    }

    /// Wrap a handle on a registry's shared state.
    pub fn new(shared: Arc<RegistryLock>) -> (r: IsolateRegistryRef)
        ensures
            r.spec_directory() == *shared,
    {
        IsolateRegistryRef { shared }
    }

    /// One more handle on the same shared state.
    pub(crate) fn duplicate(&self) -> (r: IsolateRegistryRef)
        ensures
            r.spec_directory() == self.spec_directory(),
    {
        IsolateRegistryRef { shared: clone_arc(&self.shared) }
    }

    /// Bind a new runtime instance, built around `isolate`, to the name
    /// `identity` in the shared directory — the same binding the registry
    /// itself performs, available to a running isolate. The one failure is
    /// a name that is already bound, and then nothing changes.
    pub fn bind<T: Send + 'static, B: Isolate<T> + Send + Sync + 'static>(
        &mut self,
        identity: &str,
        isolate: B,
    ) -> (r: Result<IsolateRuntimeRef<T>, IsolateRegistryError>)
        ensures
            *final(self) == *old(self),
            r matches Err(e) ==> e == IsolateRegistryError::IdentityAlreadyInUse,
    {
        let (mut state, write) = self.shared.acquire_write();
        let result = state.bind(identity, isolate);
        write.release_write(state);
        result
    }

    /// Find the runtime bound to `identity`, recovering its message type.
    /// A name miss and a name match of the wrong type are distinct errors;
    /// no other failure is reported.
    pub fn find<T: Send + 'static>(&self, identity: &str) -> (r: Result<
        IsolateRuntimeRef<T>,
        IsolateRegistryError,
    >)
        ensures
            r matches Err(e) ==> e == IsolateRegistryError::NoMatchingIdentity || e
                == IsolateRegistryError::InvalidRuntimeType,
    {
        let read = self.shared.acquire_read();
        let result = read.borrow().find::<T>(identity);
        read.release_read();
        result
    }
}

} // verus!
