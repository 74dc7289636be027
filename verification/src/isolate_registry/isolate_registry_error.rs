use vstd::prelude::*;

verus! {

/// Failures reported by the registry.
#[derive(Clone, Copy, PartialEq, Eq, Structural, Debug)]
pub enum IsolateRegistryError {
    /// A guarded shared state is unusable; fatal for this registry instance.
    InternalSyncError,
    /// `bind` was asked for a name that is already bound.
    IdentityAlreadyInUse,
    /// `find` was asked for a name that is not bound.
    NoMatchingIdentity,
    /// `find` located the name, but the runtime bound there carries a
    /// different message type than the caller asked for.
    InvalidRuntimeType,
}

} // verus!
