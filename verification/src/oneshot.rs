//! Single-use message channel, typed variant: one sender handle and one
//! receiver handle share one channel-state block through the atomically
//! reference-counted pointer. `send` consumes the sender, so a second send is
//! rejected before the program runs rather than at run time.

use std::sync::atomic::AtomicBool;
use std::sync::atomic::Ordering;
use vstd::prelude::*;
use crate::arc::Arc;

verus! {

/// Usage error: `receive` was called with no message ready.
#[derive(Clone, Copy, Debug, PartialEq, Eq, Structural)]
pub struct RecvError;

/// What the one send leaves in the message slot.
pub open spec fn send_spec<T>(message: T) -> Option<T> {
    Some(message)
}

/// What a receive leaves in the slot, and what it returns: the message is
/// read out at most once, and an empty slot is the usage error.
pub open spec fn receive_spec<T>(slot: Option<T>) -> (Option<T>, Result<T, RecvError>) {
    match slot {
        Some(m) => (None, Ok(m)),
        None => (None, Err(RecvError)),
    }
}

/// Oneshot delivery law: receiving after the one send yields exactly the sent
/// value; a second receive, or a receive before any send, fails with the
/// usage error.
pub proof fn lemma_oneshot_delivery<T>(message: T)
    ensures
        receive_spec(send_spec(message)) == (None::<T>, Ok::<T, RecvError>(message)),
        receive_spec(receive_spec(send_spec(message)).0).1 == Err::<T, RecvError>(RecvError),
        receive_spec(None::<T>).1 == Err::<T, RecvError>(RecvError),
{
}

/// Take the message out of the slot; at most one receive ever succeeds.
pub fn receive_step<T>(slot: Option<T>) -> (r: (Option<T>, Result<T, RecvError>))
    ensures
        r == receive_spec(slot),
{
    match slot {
        Some(m) => (None, Ok(m)),
        None => (None, Err(RecvError)),
    }
}

#[verifier::external_type_specification]
#[verifier::external_body]
#[verifier::reject_recursive_types(T)]
pub struct ExStdMutex<T: ?Sized>(std::sync::Mutex<T>);

/// Relies on std::sync::Mutex::new: a fresh slot, here always created empty.
#[verifier::external_body]
fn slot_new<T>(value: Option<T>) -> std::sync::Mutex<Option<T>> {
    std::sync::Mutex::new(value)
}

/// Relies on std::sync::Mutex::lock and core::mem::replace: stores `value` in
/// the slot and hands back what the slot held, under the slot's own lock; a
/// poisoned lock still yields the contents, so the call never panics. The
/// slot is shared, so nothing more is promised of what comes back.
#[verifier::external_body]
fn slot_swap<T>(slot: &std::sync::Mutex<Option<T>>, value: Option<T>) -> Option<T> {
    let mut guard = match slot.lock() {
        Ok(g) => g,
        Err(poisoned) => poisoned.into_inner(),
    };
    core::mem::replace(&mut *guard, value)
}

/// The shared channel state: a message slot written at most once and read at
/// most once, and a ready flag that transitions false -> true on send and
/// true -> false on the one successful receive. An unreceived message is
/// still in the slot when the block is dropped, and is destroyed with it,
/// exactly once.
#[verifier::reject_recursive_types(T)]
struct Channel<T> {
    slot: std::sync::Mutex<Option<T>>,
    ready: AtomicBool,
}

/// The sending half: it can only send, and only once, because `send` consumes
/// it.
#[verifier::reject_recursive_types(T)]
pub struct Sender<T> {
    channel: Arc<Channel<T>>,
}

/// The receiving half: it can only poll and receive.
#[verifier::reject_recursive_types(T)]
pub struct Receiver<T> {
    channel: Arc<Channel<T>>,
}

/// Allocate one shared channel-state block and hand back the two halves:
/// the sender and the receiver view one and the same state.
pub fn channel<T>() -> (pair: (Sender<T>, Receiver<T>))
    ensures
        pair.0.shares_state_with(&pair.1),
{
    let chan = Arc::new(Channel { slot: slot_new(None), ready: AtomicBool::new(false) });
    let sender = Sender { channel: chan.clone() };
    (sender, Receiver { channel: chan })
}

impl<T> Sender<T> {
    /// True when this sender and `receiver` view one shared channel state.
    pub closed spec fn shares_state_with(&self, receiver: &Receiver<T>) -> bool {
        self.channel@ == receiver.channel@
    }

    /// Write the message into the slot, then publish it by storing the ready
    /// flag with release ordering. Consuming `self` makes a second send
    /// impossible to express.
    pub fn send(self, message: T) {
        let chan = self.channel.get();
        let _unsent = slot_swap(&chan.slot, Some(message));
        chan.ready.store(true, Ordering::Release);
    }
}

impl<T> Receiver<T> {
    /// Best-effort poll of the ready flag: true when a message has been
    /// published. The relaxed load does not itself synchronize with the
    /// message; `receive` does.
    pub fn is_ready(&self) -> bool {
        self.channel.get().ready.load(Ordering::Relaxed)
    }

    /// Take the message out, at most once: swap the ready flag to false with
    /// acquire ordering, and fail with the usage error if it was not set.
    /// Never blocks.
    pub fn receive(&self) -> Result<T, RecvError> {
        let chan = self.channel.get();
        if !chan.ready.swap(false, Ordering::Acquire) {
            return Err(RecvError);
        }
        let taken = slot_swap(&chan.slot, None);
        let (_, result) = receive_step(taken);
        result
    }
}

} // verus!
