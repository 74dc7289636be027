use vstd::prelude::*;
use crate::errors::isolate_channel_error::IsolateChannelError;
use std::sync::Arc;
use std::sync::atomic::AtomicBool;

verus! {

// ---------------------------------------------------------------------------
// Trusted surface: the message queues come from the `crossbeam` crate, and
// the shared "active" flag from `std::sync::atomic`, neither of which the
// verifier reads. Everything below up to `IsolateChannel` is assumed, not
// proved; the declarations state no more than the crate's documentation.
// ---------------------------------------------------------------------------
/// One producing half of a `crossbeam` queue (opaque to the verifier).
#[verifier::external_type_specification]
#[verifier::external_body]
#[verifier::reject_recursive_types(T)]
pub struct ExSender<T>(crossbeam::channel::Sender<T>);

/// One consuming half of a `crossbeam` queue (opaque to the verifier).
#[verifier::external_type_specification]
#[verifier::external_body]
#[verifier::reject_recursive_types(T)]
pub struct ExReceiver<T>(crossbeam::channel::Receiver<T>);

/// `crossbeam`'s send failure; its one public field is the unsent message.
#[verifier::external_type_specification]
#[verifier::reject_recursive_types(T)]
pub struct ExSendError<T>(crossbeam::channel::SendError<T>);

/// `crossbeam`'s blocking-receive failure (the channel is severed).
#[verifier::external_type_specification]
pub struct ExRecvError(crossbeam::channel::RecvError);

/// `crossbeam`'s bounded-receive failure: either the wait timed out or the
/// channel is severed. The variants are public, so the verifier sees them.
#[verifier::external_type_specification]
pub struct ExRecvTimeoutError(crossbeam::channel::RecvTimeoutError);

/// Relies on `crossbeam::channel::unbounded`: allocates one unbounded FIFO
/// queue and returns its two halves. The wiring itself is not modelled.
pub assume_specification<T>[ crossbeam::channel::unbounded::<T> ]() -> (r: (
    crossbeam::channel::Sender<T>,
    crossbeam::channel::Receiver<T>,
));

/// Relies on `crossbeam::channel::Sender::send`: enqueues without blocking;
/// fails only when every receiving half was dropped, and the failure then
/// carries the unsent message back.
pub assume_specification<T>[ crossbeam::channel::Sender::<T>::send ](
    s: &crossbeam::channel::Sender<T>,
    msg: T,
) -> (r: Result<(), crossbeam::channel::SendError<T>>)
    ensures
        r matches Err(e) ==> e.0 == msg,
;

/// Relies on `crossbeam::channel::Receiver::recv`: blocks until a message
/// arrives (delivered to exactly one receiving call) or every sending half
/// was dropped. Which message arrives depends on other threads, so nothing
/// is stated about the value.
pub assume_specification<T>[ crossbeam::channel::Receiver::<T>::recv ](
    r: &crossbeam::channel::Receiver<T>,
) -> Result<T, crossbeam::channel::RecvError>;

/// Relies on `crossbeam::channel::Sender::clone`: a clone feeds the same
/// queue as the original.
pub assume_specification<T>[ <crossbeam::channel::Sender<T> as Clone>::clone ](
    s: &crossbeam::channel::Sender<T>,
) -> crossbeam::channel::Sender<T>;

/// Relies on `crossbeam::channel::Receiver::clone`: a clone drains the same
/// queue as the original.
pub assume_specification<T>[ <crossbeam::channel::Receiver<T> as Clone>::clone ](
    r: &crossbeam::channel::Receiver<T>,
) -> crossbeam::channel::Receiver<T>;

/// Relies on `crossbeam::channel::Receiver::recv_timeout`: waits at most the
/// given number of milliseconds for a message; a failure says whether the
/// wait ran out or the channel is severed.
#[verifier::external_body]
fn recv_timeout_ms<T>(r: &crossbeam::channel::Receiver<T>, timeout_ms: u64) -> Result<
    T,
    crossbeam::channel::RecvTimeoutError,
> {
    r.recv_timeout(std::time::Duration::from_millis(timeout_ms))
}

/// Relies on `std::sync::atomic::AtomicBool::new`.
#[verifier::external_body]
fn new_atomic_bool(value: bool) -> AtomicBool {
    AtomicBool::new(value)
}

/// Relies on `std::sync::atomic::AtomicBool::load`. Other threads write the
/// flag concurrently, so nothing relates the result to earlier reads.
#[verifier::external_body]
fn atomic_bool_load(b: &AtomicBool) -> bool {
    b.load(std::sync::atomic::Ordering::SeqCst)
}

/// Relies on `std::sync::atomic::AtomicBool::store`: sets the flag to false,
/// for this and every other holder of the same flag.
#[verifier::external_body]
fn atomic_bool_store_false(b: &AtomicBool) {
    b.store(false, std::sync::atomic::Ordering::SeqCst)
}

// ---------------------------------------------------------------------------
// Verified surface.
// ---------------------------------------------------------------------------
/// One endpoint of a bidirectional, cloneable, closeable channel.
///
/// A channel is created as a connected pair: each endpoint's `sender` feeds
/// the peer endpoint's `receiver`, over two unbounded FIFO queues. All
/// endpoints of one logical channel share one "active" flag; `close` clears
/// it, and `clone` succeeds only while it is still set, which is what keeps
/// new holders from attaching to a channel whose owner signalled shutdown.
///
/// The ghost `channel_id` names the logical channel an endpoint belongs to:
/// the two endpoints of a fresh pair carry the same id, and every clone
/// keeps the id of the endpoint it was cloned from.
#[verifier::reject_recursive_types(T)]
pub struct IsolateChannel<T> {
    pub sender: crossbeam::channel::Sender<T>,
    pub receiver: crossbeam::channel::Receiver<T>,
    active: Arc<AtomicBool>,
    channel_id: Ghost<int>,
}

impl<T> IsolateChannel<T> {
    /// The logical channel this endpoint belongs to (ghost).
    pub closed spec fn spec_channel_id(self) -> int {
        self.channel_id@
    }

    /// Create a connected pair of endpoints over two fresh queues and one
    /// fresh active flag.
    pub fn new() -> (r: (IsolateChannel<T>, IsolateChannel<T>))
        ensures
            r.0.spec_channel_id() == r.1.spec_channel_id(),
    {
        let (runner_s, runner_r) = crossbeam::channel::unbounded();
        let (worker_s, worker_r) = crossbeam::channel::unbounded();
        let flag = Arc::new(new_atomic_bool(true));
        let flag_peer = clone_arc(&flag);
        let ghost channel_id: int = arbitrary();
        (
            IsolateChannel {
                sender: worker_s,
                receiver: runner_r,
                active: flag,
                channel_id: Ghost(channel_id),
            },
            IsolateChannel {
                sender: runner_s,
                receiver: worker_r,
                active: flag_peer,
                channel_id: Ghost(channel_id),
            },
        )
    }

    /// Clone this endpoint, but only while the shared active flag still
    /// stands; after `close` on any endpoint of the channel, no further
    /// clone is handed out.
    pub fn clone(&self) -> (r: Option<IsolateChannel<T>>)
        ensures
            r matches Some(c) ==> c.spec_channel_id() == self.spec_channel_id(),
    {
        if atomic_bool_load(&self.active) {
            Some(self.duplicate())
        } else {
            None
        }
    }

    /// Unconditional duplicate, for bookkeeping at spawn time, before the
    /// fresh channel is visible to anyone who could close it.
    pub(crate) fn duplicate(&self) -> (r: IsolateChannel<T>)
        ensures
            r.spec_channel_id() == self.spec_channel_id(),
    {
        IsolateChannel {
            sender: self.sender.clone(),
            receiver: self.receiver.clone(),
            active: clone_arc(&self.active),
            channel_id: self.channel_id,
        }
    }

    /// Clear the shared active flag (idempotent). In-flight messages are not
    /// disturbed and already-held endpoints keep working; only future
    /// `clone` calls are refused.
    pub fn close(&self) {
        atomic_bool_store_false(&self.active);
    }

    /// Enqueue a value for the peer endpoint; never blocks. Fails only when
    /// the peer side is entirely gone.
    pub fn send(&self, value: T) -> (r: Result<(), IsolateChannelError>)
        ensures
            r matches Err(e) ==> e == IsolateChannelError::ConnectionFailed,
    {
        match self.sender.send(value) {
            Ok(()) => Ok(()),
            Err(_) => Err(IsolateChannelError::ConnectionFailed),
        }
    }

    /// Block until a value arrives from the peer endpoint, or until the
    /// channel is permanently severed.
    pub fn receive(&self) -> (r: Result<T, IsolateChannelError>)
        ensures
            r matches Err(e) ==> e == IsolateChannelError::ConnectionFailed,
    {
        match self.receiver.recv() {
            Ok(v) => Ok(v),
            Err(_) => Err(IsolateChannelError::ConnectionFailed),
        }
    }

    /// Wait at most `timeout_ms` milliseconds for a value from the peer
    /// endpoint.
    pub fn receive_timeout(&self, timeout_ms: u64) -> (r: Result<T, IsolateChannelError>)
        ensures
            r matches Err(e) ==> e == IsolateChannelError::Timeout || e
                == IsolateChannelError::ConnectionFailed,
    {
        match recv_timeout_ms(&self.receiver, timeout_ms) {
            Ok(v) => Ok(v),
            Err(e) => Err(timeout_error_of(e)),
        }
    }
}

/// The library's reading of a bounded-receive failure: a wait that ran out
/// is a timeout, a severed channel is a lost connection.
pub fn timeout_error_of(e: crossbeam::channel::RecvTimeoutError) -> (r: IsolateChannelError)
    ensures
        e is Timeout ==> r == IsolateChannelError::Timeout,
        e is Disconnected ==> r == IsolateChannelError::ConnectionFailed,
{
    match e {
        crossbeam::channel::RecvTimeoutError::Timeout => IsolateChannelError::Timeout,
        crossbeam::channel::RecvTimeoutError::Disconnected => IsolateChannelError::ConnectionFailed,
    }
}

/// Relies on `std::sync::Arc::clone`: the clone is one more owner of the
/// very same shared value.
#[verifier::external_body]
pub(crate) fn clone_arc<T>(a: &Arc<T>) -> (r: Arc<T>)
    ensures
        r == *a,
{
    a.clone()
}

} // verus!
