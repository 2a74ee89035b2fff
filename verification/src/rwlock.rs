//! Reader-writer lock: many simultaneous readers, or one exclusive writer.
//!
//! The lock state is one 32-bit word holding the count of active readers, or
//! the sentinel `WRITER` when one writer holds exclusive access. The sentinel
//! and a nonzero reader count are mutually exclusive. Blocked acquirers park
//! on the state word, mirroring the mutex's spin-then-park discipline. A
//! continuous stream of readers can starve a waiting writer: starvation is an
//! accepted tradeoff, not prevented.

use std::sync::atomic::AtomicU32;
use std::sync::atomic::Ordering;
use vstd::prelude::*;
use vstd::rwlock::ReadHandle;
use vstd::rwlock::RwLock as StorageLock;
use vstd::rwlock::WriteHandle;
use crate::futex::cpu_relax;
use crate::futex::futex_wait;
use crate::futex::futex_wake_all;
use crate::futex::futex_wake_one;
use crate::storage::AnyValue;

verus! {

/// Sentinel state: one writer holds exclusive access. Any smaller value is
/// the count of active readers.
pub const WRITER: u32 = u32::MAX;

/// Retry budget of the park loops; finite so that they provably terminate.
/// Each pass parks the thread until the state word changes, so the budget is
/// consumed only by actual wakeups. If it ever ran out, acquisition would
/// fall back to the storage cell's own acquisition.
const PARK_BUDGET: u64 = 0xffff_ffff_ffff_ffff;

/// A reader-writer lock protecting a value of type `T`.
pub struct RwLock<T> {
    state: AtomicU32,
    storage: StorageLock<T, AnyValue>,
}

/// Shared read access to the value protected by a [`RwLock`]. Many read
/// guards may coexist; none may coexist with a write guard. Call
/// [`ReadGuard::unlock`] to release it.
pub struct ReadGuard<'a, T> {
    handle: ReadHandle<'a, T, AnyValue>,
    state: &'a AtomicU32,
    registered: bool,
}

/// Exclusive read and write access to the value protected by a [`RwLock`].
/// Call [`WriteGuard::unlock`] to store the value back and release it.
pub struct WriteGuard<'a, T> {
    value: T,
    handle: WriteHandle<'a, T, AnyValue>,
    state: &'a AtomicU32,
    registered: bool,
}

impl<'a, T> ReadGuard<'a, T> {
    /// The value this reader observes.
    pub closed spec fn view(&self) -> T {
        self.handle.view()
    }

    /// True when the guard reads from `lock`.
    pub closed spec fn attached_to(&self, lock: &RwLock<T>) -> bool {
        self.handle.rwlock() == lock.storage
    }

    /// Read the protected value. Concurrent readers see the same value.
    pub fn get(&self) -> (r: &T)
        ensures
            *r == self@,
    {
        self.handle.borrow()
    }

    /// Release the read lock: decrement the reader count, waking one parked
    /// thread (a pending writer) when the count reaches zero.
    pub fn unlock(self) {
        let ReadGuard { handle, state, registered } = self;
        handle.release_read();
        if registered {
            if state.fetch_sub(1, Ordering::Release) == 1 {
                futex_wake_one(state);
            }
        }
    }
}

impl<'a, T> WriteGuard<'a, T> {
    /// The value the guard currently holds.
    pub closed spec fn view(&self) -> T {
        self.value
    }

    /// True when the guard holds `lock`.
    pub closed spec fn attached_to(&self, lock: &RwLock<T>) -> bool {
        self.handle.rwlock() == lock.storage
    }

    #[verifier::type_invariant]
    spec fn wf(&self) -> bool {
        forall|v: T| self.handle.rwlock().inv(v)
    }

    /// Read the protected value.
    pub fn get(&self) -> (r: &T)
        ensures
            *r == self@,
    {
        &self.value
    }

    /// Overwrite the protected value; the writer is the exclusive holder.
    pub fn set(&mut self, v: T)
        ensures
            final(self)@ == v,
    {
        self.value = v;
    }

    /// Store the value back and release the write lock: reset the sentinel to
    /// zero with release ordering and wake every parked thread, readers and
    /// writers alike.
    pub fn unlock(self) {
        proof {
            use_type_invariant(&self);
        }
        let WriteGuard { value, handle, state, registered } = self;
        handle.release_write(value);
        if registered {
            state.store(0, Ordering::Release);
            futex_wake_all(state);
        }
    }
}

impl<T> RwLock<T> {
    #[verifier::type_invariant]
    spec fn wf(&self) -> bool {
        forall|v: T| self.storage.inv(v)
    }

    /// Create a reader-writer lock holding `value`, with no readers and no
    /// writer.
    pub fn new(value: T) -> RwLock<T> {
        let storage = StorageLock::new(value, Ghost(AnyValue));
        RwLock { state: AtomicU32::new(0), storage }
    }

    /// Acquire shared read access, parking while a writer holds the lock.
    pub fn read<'a>(&'a self) -> (g: ReadGuard<'a, T>)
        ensures
            g.attached_to(self),
    {
        proof {
            use_type_invariant(self);
        }
        let mut registered = false;
        let mut budget: u64 = PARK_BUDGET;
        while !registered && budget > 0
            decreases budget,
        {
            budget = budget - 1;
            let s = self.state.load(Ordering::Relaxed);
            if s == WRITER {
                // A writer is active: park until the word changes.
                futex_wait(&self.state, WRITER);
            } else if s < WRITER - 1 {
                if self
                    .state
                    .compare_exchange(s, s + 1, Ordering::Acquire, Ordering::Relaxed)
                    .is_ok()
                {
                    registered = true;
                }
            } else {
                // The reader count is saturated: retry until a reader leaves.
                cpu_relax();
            }
        }
        let handle = self.storage.acquire_read();
        ReadGuard { handle, state: &self.state, registered }
    }

    /// Acquire exclusive write access: transition the state word from zero
    /// (no readers, no writer) to the sentinel, parking while any reader or
    /// writer is active.
    pub fn write<'a>(&'a self) -> (g: WriteGuard<'a, T>)
        ensures
            g.attached_to(self),
    {
        proof {
            use_type_invariant(self);
        }
        let mut registered = false;
        let mut budget: u64 = PARK_BUDGET;
        while !registered && budget > 0
            decreases budget,
        {
            budget = budget - 1;
            match self.state.compare_exchange(0, WRITER, Ordering::Acquire, Ordering::Relaxed) {
                Ok(_) => {
                    registered = true;
                },
                Err(s) => {
                    futex_wait(&self.state, s);
                },
            }
        }
        let (value, handle) = self.storage.acquire_write();
        WriteGuard { value, handle, state: &self.state, registered }
    }
}

/// Reader concurrency, witnessed: one lock hands out two read guards that
/// exist at the same time, and both observe the same value.
pub fn read_pair<'a, T>(lock: &'a RwLock<T>) -> (r: (ReadGuard<'a, T>, ReadGuard<'a, T>))
    ensures
        r.0.view() == r.1.view(),
{
    let g0 = lock.read();
    let g1 = lock.read();
    proof {
        ReadHandle::lemma_readers_match(&g0.handle, &g1.handle);
    }
    (g0, g1)
}

} // verus!
