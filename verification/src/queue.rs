//! Unbounded multi-message channel: a FIFO queue behind a mutual-exclusion
//! storage cell, plus a wait/notify word that empty-handed receivers park on.
//! Messages are delivered in send order; senders never block.

use std::collections::VecDeque;
use std::sync::atomic::AtomicU32;
use std::sync::atomic::Ordering;
use vstd::prelude::*;
use vstd::rwlock::RwLock as StorageLock;
use crate::futex::futex_wait;
use crate::futex::futex_wake_one;
use crate::storage::AnyValue;

verus! {

/// Retry budget of the receive loop; finite so that it provably terminates.
/// A pass through the loop is consumed only when the receiver is woken and
/// still finds the queue empty, so the budget outlasts any real workload.
const PARK_BUDGET: u64 = 0xffff_ffff_ffff_ffff;

/// What a send does to the queued messages: append at the back.
pub open spec fn send_spec<T>(q: Seq<T>, message: T) -> Seq<T> {
    q.push(message)
}

/// What a receive does: take the front message, oldest first, or nothing
/// when the queue is empty.
pub open spec fn receive_spec<T>(q: Seq<T>) -> (Seq<T>, Option<T>) {
    if q.len() == 0 {
        (q, None)
    } else {
        (q.drop_first(), Some(q.first()))
    }
}

/// Queue ordering law: two values sent in order are received in that order.
/// After draining whatever was queued before them, the next receive yields
/// `a`, the one after yields `b`, and the queue is then empty again.
pub proof fn lemma_fifo_order<T>(q: Seq<T>, a: T, b: T)
    ensures
        ({
            let drained = send_spec(send_spec(q, a), b).skip(q.len() as int);
            &&& receive_spec(drained).1 == Some(a)
            &&& receive_spec(receive_spec(drained).0).1 == Some(b)
            &&& receive_spec(receive_spec(drained).0).0.len() == 0
        }),
{
    let drained = send_spec(send_spec(q, a), b).skip(q.len() as int);
    assert(drained =~= seq![a, b]);
    assert(receive_spec(drained).0 =~= seq![b]);
    assert(receive_spec(receive_spec(drained).0).0 =~= Seq::<T>::empty());
}

/// Append a message at the back of the queue.
pub fn push_step<T>(q: &mut VecDeque<T>, message: T)
    ensures
        final(q)@ == send_spec(old(q)@, message),
{
    q.push_back(message);
}

/// Take the front message out of the queue, if any.
pub fn pop_step<T>(q: &mut VecDeque<T>) -> (r: Option<T>)
    ensures
        (final(q)@, r) == receive_spec(old(q)@),
{
    q.pop_front()
}

/// An unbounded FIFO channel. `send` never blocks; `receive` blocks while the
/// queue is empty.
pub struct SimpleChannel<T> {
    queue: StorageLock<VecDeque<T>, AnyValue>,
    /// Bumped on every send; receivers that found the queue empty park here.
    pending: AtomicU32,
}

impl<T> SimpleChannel<T> {
    #[verifier::type_invariant]
    spec fn wf(&self) -> bool {
        forall|q: VecDeque<T>| self.queue.inv(q)
    }

    /// An empty channel.
    pub fn new() -> SimpleChannel<T> {
        SimpleChannel {
            queue: StorageLock::new(VecDeque::new(), Ghost(AnyValue)),
            pending: AtomicU32::new(0),
        }
    }

    /// Append the message at the back of the queue and wake one parked
    /// receiver, if any. The channel is unbounded: senders never block.
    pub fn send(&self, message: T) {
        proof {
            use_type_invariant(self);
        }
        let (mut q, handle) = self.queue.acquire_write();
        push_step(&mut q, message);
        handle.release_write(q);
        self.pending.fetch_add(1, Ordering::Release);
        futex_wake_one(&self.pending);
    }

    /// Take the oldest message, or nothing when the queue is empty; never
    /// blocks.
    pub fn try_receive(&self) -> Option<T> {
        proof {
            use_type_invariant(self);
        }
        let (mut q, handle) = self.queue.acquire_write();
        let front = pop_step(&mut q);
        handle.release_write(q);
        front
    }

    /// Take the oldest message, parking on the wait/notify word while the
    /// queue is empty and re-checking after every wake, to tolerate spurious
    /// wakeups and receivers racing for the same message. Returns `None` only
    /// if the park loop's retry budget runs out, which no real workload
    /// reaches.
    pub fn receive(&self) -> Option<T> {
        let mut budget: u64 = PARK_BUDGET;
        while budget > 0
            decreases budget,
        {
            budget = budget - 1;
            let seen = self.pending.load(Ordering::Acquire);
            let front = self.try_receive();
            if front.is_some() {
                return front;
            }
            futex_wait(&self.pending, seen);
        }
        None
    }
}

} // verus!
