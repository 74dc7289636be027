use vstd::prelude::*;
use vstd::rwlock::RwLock;
use vstd::rwlock::RwLockPredicate;
use core::marker::PhantomData;
use std::sync::Arc;
use crate::Isolate;
use crate::IsolateChannel;
use crate::IsolateIdentity;
use crate::isolate_runtime::IsolateRef;
use crate::isolate_runtime::isolate_runtime_error::IsolateRuntimeError;
use crate::isolate_runtime::isolate_runtime_ref::IsolateRuntimeRef;

verus! {

// ---------------------------------------------------------------------------
// Trusted surface: one isolate behavior with its concrete type erased.
//
// The worker table must be shareable across runtime handles whose type names
// only the message type `T`, so the behavior's own type is erased behind a
// shared closure. The verifier does not model closure values or `dyn`
// dispatch, so this holder and its operations are assumed, not proved:
// together they say only that each spawned worker calls the behavior's
// `spawn` once, with the values handed to `spawn_worker`.
// ---------------------------------------------------------------------------
/// Holder of one isolate behavior, shared by every worker of one runtime.
/// Relies on `std::sync::Arc` and Rust's closure dispatch (`dyn Fn`).
#[verifier::external_body]
#[verifier::reject_recursive_types(T)]
pub struct WorkerMain<T> {
    body: Arc<dyn Fn(IsolateIdentity, IsolateChannel<T>, IsolateRuntimeRef<T>) + Send + Sync + 'static>,
}

/// Relies on `std::sync::Arc::new` and closure dispatch: wraps a behavior so
/// that each worker spawned over the wrapper calls `behavior.spawn` on the
/// values it is given.
#[verifier::external_body]
pub(crate) fn make_worker_main<T, B: Isolate<T> + Send + Sync + 'static>(behavior: B) -> WorkerMain<
    T,
> {
    WorkerMain {
        body: Arc::new(
            move |identity: IsolateIdentity, channel: IsolateChannel<T>, runtime: IsolateRuntimeRef<T>|
                behavior.spawn(identity, channel, runtime),
        ),
    }
}

/// Relies on `std::sync::Arc::clone`: the clone invokes the same behavior.
#[verifier::external_body]
pub(crate) fn clone_worker_main<T>(w: &WorkerMain<T>) -> WorkerMain<T> {
    WorkerMain { body: Arc::clone(&w.body) }
}

// ---------------------------------------------------------------------------
// Trusted surface: dedicated worker threads.
//
// Workers run on the blocking-task pool of a `tokio` runtime: each blocked
// worker occupies an operating-system thread of its own, which preserves the
// one-thread-per-worker isolation the design asks for. The pool's runtime is
// deliberately kept alive for the life of the process (`mem::forget`), so
// that its teardown can never run on — and deadlock with — one of its own
// worker threads.
// ---------------------------------------------------------------------------
/// One pool of dedicated worker threads. Relies on `tokio::runtime`.
#[verifier::external_body]
pub struct WorkerPool {
    pool: tokio::runtime::Handle,
}

/// A join token for one spawned worker. Relies on `tokio::task::JoinHandle`.
#[verifier::external_body]
pub struct WorkerHandle {
    worker: tokio::task::JoinHandle<()>,
    pool: tokio::runtime::Handle,
}

/// Relies on `tokio::runtime::Runtime::new`: builds a fresh pool; `None`
/// only if the operating system refuses the resources. Each runtime pays
/// for one such pool, and the pool's threads stay with the process for its
/// remaining life (the forget below) — the price of a teardown that can
/// never run on one of the pool's own worker threads.
#[verifier::external_body]
pub(crate) fn new_worker_pool() -> Option<WorkerPool> {
    match tokio::runtime::Runtime::new() {
        Ok(rt) => {
            let pool = rt.handle().clone();
            core::mem::forget(rt);
            Some(WorkerPool { pool })
        },
        Err(_) => None,
    }
}

/// Relies on `tokio::runtime::Handle::spawn_blocking`: starts a dedicated
/// thread that calls the held behavior's `spawn` exactly once, with exactly
/// the given identity, channel and runtime handle, and returns a token that
/// can be joined on that call's completion.
#[verifier::external_body]
pub(crate) fn spawn_worker<T: Send + 'static>(
    pool: &WorkerPool,
    main: WorkerMain<T>,
    identity: IsolateIdentity,
    channel: IsolateChannel<T>,
    runtime: IsolateRuntimeRef<T>,
) -> WorkerHandle {
    let worker = pool.pool.spawn_blocking(move || (main.body)(identity, channel, runtime));
    WorkerHandle { worker, pool: pool.pool.clone() }
}

/// Relies on `tokio::runtime::Handle::block_on`: returns only once the
/// worker behind the token has finished (or panicked — a worker's panic is
/// contained here, not propagated). `block_on` refuses to run inside an
/// async task, so joining must happen from a plain (synchronous) thread.
#[verifier::external_body]
pub(crate) fn join_worker(worker: WorkerHandle) {
    let WorkerHandle { worker, pool } = worker;
    let _ = pool.block_on(worker);
}

/// The decision every spawn turns on: a worker starts exactly when the
/// runtime holds a pool, and the one failure is the runtime's fatal
/// internal error.
pub(crate) fn start_worker<T: Send + 'static>(
    pool: &Option<WorkerPool>,
    main: WorkerMain<T>,
    identity: IsolateIdentity,
    channel: IsolateChannel<T>,
    runtime: IsolateRuntimeRef<T>,
) -> (r: Result<WorkerHandle, IsolateRuntimeError>)
    ensures
        r is Ok <==> pool is Some,
        r matches Err(e) ==> e is InternalSyncError,
{
    match pool {
        Some(p) => Ok(spawn_worker(p, main, identity, channel, runtime)),
        None => Err(IsolateRuntimeError::InternalSyncError),
    }
}

// ---------------------------------------------------------------------------
// Verified surface: the live-worker table.
// ---------------------------------------------------------------------------
/// The mutex-guarded heart of one runtime: the behavior instance and the
/// table of live workers, keyed by identity. This value is the single source
/// of truth for one message type's workers; the lock that guards it keeps
/// `wf` as its invariant, so every holder finds the keys unique.
#[verifier::reject_recursive_types(T)]
pub struct IsolateRuntimeShared<T> {
    /// Live workers: one record per spawned, not yet halted worker.
    pub refs: Vec<(IsolateIdentity, IsolateRef<T>)>,
    /// The behavior every worker of this runtime runs.
    pub behavior: WorkerMain<T>,
    /// The thread pool the workers run on; `None` only if the operating
    /// system refused one, in which case every spawn fails.
    pub pool: Option<WorkerPool>,
}

/// Lock predicate: whatever state the lock stores is well-formed, and on a
/// runtime whose construction obtained a worker pool, the pool is there for
/// good — which is what lets such a runtime promise that every spawn
/// succeeds.
pub struct RuntimeTablePred<T> {
    /// Whether this runtime was built with a worker pool.
    pub has_pool: bool,
    /// The message type the guarded table serves.
    pub marker: PhantomData<T>,
}

impl<T> RwLockPredicate<IsolateRuntimeShared<T>> for RuntimeTablePred<T> {
    open spec fn inv(self, v: IsolateRuntimeShared<T>) -> bool {
        v.wf() && (self.has_pool ==> v.pool is Some)
    }
}

/// The guarded shared state of one runtime.
pub type RuntimeLock<T> = RwLock<IsolateRuntimeShared<T>, RuntimeTablePred<T>>;

impl<T> IsolateRuntimeShared<T> {
    /// Well-formedness: no two live workers share an identity.
    pub open spec fn wf(self) -> bool {
        forall|i: int, j: int|
            0 <= i < j < self.refs@.len() ==> self.refs@[i].0 != self.refs@[j].0
    }

    /// Whether some live worker is keyed by `identity`.
    pub open spec fn spec_contains_key(self, identity: IsolateIdentity) -> bool {
        exists|i: int| 0 <= i < self.refs@.len() && self.refs@[i].0 == identity
    }

    /// Position of the worker keyed by `identity`, if one is live.
    fn find_index(&self, identity: &IsolateIdentity) -> (r: Option<usize>)
        ensures
            match r {
                Some(i) => i < self.refs@.len() && self.refs@[i as int].0 == *identity,
                None => !self.spec_contains_key(*identity),
            },
    {
        let mut i: usize = 0;
        while i < self.refs.len()
            invariant
                i <= self.refs@.len(),
                forall|j: int| 0 <= j < i ==> self.refs@[j].0 != *identity,
            decreases self.refs@.len() - i,
        {
            if self.refs[i].0 == *identity {
                return Some(i);
            }
            i = i + 1;
        }
        None
    }

    /// The record of the worker keyed by `identity`, if one is live.
    pub fn lookup(&self, identity: &IsolateIdentity) -> (r: Option<&IsolateRef<T>>)
        ensures
            r is Some <==> self.spec_contains_key(*identity),
            r matches Some(record) ==> exists|i: int|
                0 <= i < self.refs@.len() && self.refs@[i].0 == *identity && self.refs@[i].1
                    == *record,
    {
        match self.find_index(identity) {
            Some(i) => {
                let record = &self.refs[i].1;
                assert(self.refs@[i as int].1 == *record);
                Some(record)
            },
            None => None,
        }
    }

    /// A clone of the channel endpoint stored for `identity`, handed out
    /// only while a worker is recorded under that identity and its channel
    /// is still active. The clone belongs to the very channel stored there.
    pub fn find_channel(&self, identity: &IsolateIdentity) -> (r: Option<IsolateChannel<T>>)
        ensures
            !self.spec_contains_key(*identity) ==> r is None,
            r matches Some(c) ==> exists|i: int|
                0 <= i < self.refs@.len() && self.refs@[i].0 == *identity && c.spec_channel_id()
                    == self.refs@[i].1.channel.spec_channel_id(),
    {
        match self.lookup(identity) {
            Some(record) => record.channel.clone(),
            None => None,
        }
    }

    /// Record a spawned worker under its identity. A record already keyed by
    /// the same identity (possible only if the random generator repeated
    /// itself) is dropped in favour of the new one.
    pub fn store_ref(&mut self, identity: IsolateIdentity, record: IsolateRef<T>)
        requires
            old(self).wf(),
        ensures
            final(self).wf(),
            final(self).spec_contains_key(identity),
            final(self).behavior == old(self).behavior,
            final(self).pool == old(self).pool,
            !old(self).spec_contains_key(identity) ==> final(self).refs@ == old(self).refs@.push(
                (identity, record),
            ),
    {
        match self.find_index(&identity) {
            Some(i) => {
                let _ = self.refs.remove(i);
                assert forall|k: int| 0 <= k < self.refs@.len() implies self.refs@[k].0
                    != identity by {
                    if k < i {
                        assert(self.refs@[k] == old(self).refs@[k]);
                    } else {
                        assert(self.refs@[k] == old(self).refs@[k + 1]);
                    }
                }
            },
            None => {},
        }
        self.refs.push((identity, record));
        assert(self.refs@.last() == (identity, record));
    }

    /// Take every live-worker record out of the table, leaving it empty.
    pub fn take_refs(&mut self) -> (r: Vec<(IsolateIdentity, IsolateRef<T>)>)
        ensures
            r == old(self).refs,
            final(self).refs@.len() == 0,
            final(self).wf(),
            final(self).behavior == old(self).behavior,
            final(self).pool == old(self).pool,
    {
        let mut drained: Vec<(IsolateIdentity, IsolateRef<T>)> = Vec::new();
        core::mem::swap(&mut drained, &mut self.refs);
        drained
    }

    /// Fresh shared state for a runtime: the given behavior, an empty
    /// worker table and a fresh worker pool, behind a lock whose invariant
    /// is `wf` — and, where the pool was obtained, its lasting presence.
    pub fn new<B: Isolate<T> + Send + Sync + 'static>(isolate: B) -> Arc<RuntimeLock<T>> {
        let state = IsolateRuntimeShared {
            refs: Vec::new(),
            behavior: make_worker_main(isolate),
            pool: new_worker_pool(),
        };
        let ghost pred = RuntimeTablePred { has_pool: state.pool is Some, marker: PhantomData };
        Arc::new(RwLock::new(state, Ghost(pred)))
    }
}

} // verus!
