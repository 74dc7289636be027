use vstd::prelude::*;
use vstd::assert_seqs_equal;
use vstd::rwlock::RwLock;
use vstd::rwlock::RwLockPredicate;
use std::sync::Arc;
use crate::Isolate;
use crate::IsolateRuntime;
use crate::isolate_registry::isolate_registry_error::IsolateRegistryError;
use crate::isolate_runtime::isolate_runtime_ref::IsolateRuntimeRef;

verus! {

// ---------------------------------------------------------------------------
// Trusted surface: type-erased storage of runtimes.
//
// One registry hosts runtimes of unrelated message types, so each stored
// runtime is erased to `Box<dyn Any>` and recovered by a guarded downcast at
// lookup time. The verifier does not model `dyn Any` or closure dispatch, so
// these items are assumed, not proved; which downcast succeeds is decided by
// the stored runtime's actual type, which no contract here can name.
// ---------------------------------------------------------------------------
/// One runtime with its message type erased, plus a closure that halts it.
/// Relies on `std::any::Any` and Rust's closure dispatch.
#[verifier::external_body]
pub struct ErasedRuntime {
    value: Box<dyn std::any::Any + Send + Sync + 'static>,
    halt: Box<dyn Fn() + Send + Sync + 'static>,
}

/// Relies on `Box::new` and the `Any` coercion: stores the runtime under its
/// concrete type, and keeps beside it a closure that runs the library's own
/// (verified) shutdown of that runtime.
#[verifier::external_body]
pub(crate) fn erase_runtime<T: Send + 'static>(runtime: IsolateRuntime<T>) -> ErasedRuntime {
    let halt_ref = runtime.as_ref();
    ErasedRuntime { value: Box::new(runtime), halt: Box::new(move || halt_ref.shutdown()) }
}

/// Relies on `std::any::Any::downcast_ref`: recovers the stored runtime
/// exactly when the requested message type is the one it was stored with.
#[verifier::external_body]
pub(crate) fn downcast_runtime<T: Send + 'static>(erased: &ErasedRuntime) -> Option<
    &IsolateRuntime<T>,
> {
    erased.value.downcast_ref::<IsolateRuntime<T>>()
}

/// Relies on closure dispatch: halts the stored runtime, as `erase_runtime`
/// arranged, blocking until its workers have exited.
#[verifier::external_body]
pub(crate) fn halt_erased(erased: &ErasedRuntime) {
    (erased.halt)()
}

// ---------------------------------------------------------------------------
// Verified surface: the name directory.
// ---------------------------------------------------------------------------
/// The mutex-guarded heart of one registry: the directory binding names to
/// type-erased runtimes. A name, once bound, stays bound for the registry's
/// lifetime; the lock that guards this value keeps `wf` as its invariant, so
/// every holder finds the names unique.
pub struct IsolateRegistryShared {
    /// The bound runtimes, one per name.
    pub registry: Vec<(String, ErasedRuntime)>,
}

/// Lock predicate: whatever state the lock stores is well-formed.
pub struct RegistryPred {}

impl RwLockPredicate<IsolateRegistryShared> for RegistryPred {
    open spec fn inv(self, v: IsolateRegistryShared) -> bool {
        v.wf()
    }
}

/// The guarded shared state of one registry.
pub type RegistryLock = RwLock<IsolateRegistryShared, RegistryPred>;

impl IsolateRegistryShared {
    /// Well-formedness: no name is bound twice.
    pub open spec fn wf(self) -> bool {
        forall|i: int, j: int|
            0 <= i < j < self.registry@.len() ==> self.registry@[i].0@ != self.registry@[j].0@
    }

    /// The bound names, in binding order.
    pub open spec fn spec_names(self) -> Seq<Seq<char>> {
        Seq::new(self.registry@.len(), |i: int| self.registry@[i].0@)
    }

    /// Whether `name` is bound.
    pub open spec fn spec_contains_name(self, name: Seq<char>) -> bool {
        exists|i: int| 0 <= i < self.registry@.len() && self.registry@[i].0@ == name
    }

    /// Fresh shared state: an empty directory behind a lock whose invariant
    /// is `wf`.
    pub fn new() -> Arc<RegistryLock> {
        let state = IsolateRegistryShared { registry: Vec::new() };
        Arc::new(RwLock::new(state, Ghost(RegistryPred {})))
    }

    /// Position of the binding of `name`, if there is one.
    fn find_name_index(&self, name: &String) -> (r: Option<usize>)
        ensures
            match r {
                Some(i) => i < self.registry@.len() && self.registry@[i as int].0@ == name@,
                None => !self.spec_contains_name(name@),
            },
    {
        let mut i: usize = 0;
        while i < self.registry.len()
            invariant
                i <= self.registry@.len(),
                forall|j: int| 0 <= j < i ==> self.registry@[j].0@ != name@,
            decreases self.registry@.len() - i,
        {
            if self.registry[i].0 == *name {
                return Some(i);
            }
            i = i + 1;
        }
        None
    }

    /// Bind a new runtime, built around `isolate`, to the name `identity`.
    /// Exactly when the name is already bound, nothing changes and the
    /// binding is refused; otherwise the new runtime is appended to the
    /// directory and a reference into it is handed back.
    pub fn bind<T: Send + 'static, B: Isolate<T> + Send + Sync + 'static>(
        &mut self,
        identity: &str,
        isolate: B,
    ) -> (r: Result<IsolateRuntimeRef<T>, IsolateRegistryError>)
        requires
            old(self).wf(),
        ensures
            final(self).wf(),
            old(self).spec_contains_name(identity@) ==> (r matches Err(e) && e
                == IsolateRegistryError::IdentityAlreadyInUse && *final(self) == *old(self)),
            !old(self).spec_contains_name(identity@) ==> (r is Ok && final(self).spec_names()
                == old(self).spec_names().push(identity@)),
    {
        let key: String = identity.to_owned();
        match self.find_name_index(&key) {
            Some(_) => Err(IsolateRegistryError::IdentityAlreadyInUse),
            None => {
                let runtime = IsolateRuntime::new(isolate);
                let runtime_ref = runtime.as_ref();
                self.registry.push((key, erase_runtime(runtime)));
                proof {
                    assert_seqs_equal!(
                        self.spec_names(),
                        old(self).spec_names().push(identity@)
                    );
                }
                Ok(runtime_ref)
            },
        }
    }

    /// Find the runtime bound to `identity` and recover its concrete type.
    /// Exactly when the name is unbound, the miss is reported; when it is
    /// bound, either the stored runtime carries the requested message type
    /// and a reference into it is handed back, or the name matched with the
    /// wrong type, which is its own error, distinct from a miss.
    pub fn find<T: Send + 'static>(&self, identity: &str) -> (r: Result<
        IsolateRuntimeRef<T>,
        IsolateRegistryError,
    >)
        ensures
            !self.spec_contains_name(identity@) ==> (r matches Err(e) && e
                == IsolateRegistryError::NoMatchingIdentity),
            self.spec_contains_name(identity@) ==> r is Ok || (r matches Err(e) && e
                == IsolateRegistryError::InvalidRuntimeType),
    {
        let key: String = identity.to_owned();
        match self.find_name_index(&key) {
            Some(i) => match downcast_runtime::<T>(&self.registry[i].1) {
                Some(runtime) => Ok(runtime.as_ref()),
                None => Err(IsolateRegistryError::InvalidRuntimeType),
            },
            None => Err(IsolateRegistryError::NoMatchingIdentity),
        }
    }

    /// Halt every bound runtime, blocking until each one's workers have
    /// exited. Best-effort by construction: each runtime is halted through
    /// its own closure, and no failure of one keeps the rest from being
    /// reached.
    pub fn wait(&self) {
        let mut i: usize = 0;
        while i < self.registry.len()
            decreases self.registry@.len() - i,
        {
            halt_erased(&self.registry[i].1);
            i = i + 1;
        }
    }
}

} // verus!
