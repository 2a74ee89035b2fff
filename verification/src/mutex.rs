//! Blocking mutual exclusion with adaptive spin-then-park acquisition.
//!
//! The lock state is one 32-bit word: `UNLOCKED`, `LOCKED` (no known
//! waiters), or `CONTENDED` (locked, and at least one thread may be parked on
//! the word). The three-valued encoding lets the unlock path skip the wake
//! call entirely when no thread is sleeping, and the lock path spin briefly
//! before paying for a parking call.

use std::sync::atomic::AtomicU32;
use std::sync::atomic::Ordering;
use vstd::prelude::*;
use vstd::rwlock::RwLock as StorageLock;
use vstd::rwlock::WriteHandle;
use crate::futex::cpu_relax;
use crate::futex::futex_wait;
use crate::futex::futex_wake_one;
use crate::storage::AnyValue;

verus! {

/// Nobody holds the lock.
pub const UNLOCKED: u32 = 0;

/// The lock is held and no waiter is known to be parked.
pub const LOCKED: u32 = 1;

/// The lock is held and at least one waiter may be parked on the state word.
pub const CONTENDED: u32 = 2;

/// How many times the contended path re-checks the word before parking.
const SPIN_LIMIT: u32 = 100;

/// Retry budget of the park loop. Each pass parks the thread until a wake
/// arrives, so the budget is consumed only by actual wakeups; it is finite so
/// that the loop provably terminates, and if it ever ran out, acquisition
/// would fall back to the storage cell's own busy-wait acquisition.
const PARK_BUDGET: u64 = 0xffff_ffff_ffff_ffff;

/// A blocking mutual-exclusion lock protecting a value of type `T`.
///
/// `lock` never fails and never returns until the lock is held; a thread that
/// re-locks a mutex it already holds deadlocks, by design.
pub struct Mutex<T> {
    state: AtomicU32,
    storage: StorageLock<T, AnyValue>,
}

/// Exclusive access to the value protected by a [`Mutex`], for as long as the
/// guard lives. Call [`MutexGuard::unlock`] to store the value back and
/// release the lock; the lock stays held while the guard exists.
pub struct MutexGuard<'a, T> {
    value: T,
    handle: WriteHandle<'a, T, AnyValue>,
    state: &'a AtomicU32,
}

impl<'a, T> MutexGuard<'a, T> {
    /// The value the guard currently holds.
    pub closed spec fn view(&self) -> T {
        self.value
    }

    /// True when the guard holds `lock`.
    pub closed spec fn attached_to(&self, lock: &Mutex<T>) -> bool {
        self.handle.rwlock() == lock.storage
    }

    #[verifier::type_invariant]
    spec fn wf(&self) -> bool {
        forall|v: T| self.handle.rwlock().inv(v)
    }

    /// Read the protected value.
    pub fn get(&self) -> (r: &T)
        ensures
            *r == self@,
    {
        &self.value
    }

    /// Overwrite the protected value.
    pub fn set(&mut self, v: T)
        ensures
            final(self)@ == v,
    {
        self.value = v;
    }

    /// Store the value back and release the lock: swap the state word to
    /// `UNLOCKED` with release ordering, and wake one parked thread only if
    /// the swapped-out state was `CONTENDED`.
    pub fn unlock(self) {
        proof {
            use_type_invariant(&self);
        }
        let MutexGuard { value, handle, state } = self;
        handle.release_write(value);
        if state.swap(UNLOCKED, Ordering::Release) == CONTENDED {
            futex_wake_one(state);
        }
    }
}

impl<T> Mutex<T> {
    #[verifier::type_invariant]
    spec fn wf(&self) -> bool {
        forall|v: T| self.storage.inv(v)
    }

    /// Create a mutex holding `value`, initially unlocked.
    pub fn new(value: T) -> Mutex<T> {
        let storage = StorageLock::new(value, Ghost(AnyValue));
        Mutex { state: AtomicU32::new(UNLOCKED), storage }
    }

    /// Acquire the lock, blocking until it is held, and return a guard with
    /// exclusive access to the protected value.
    ///
    /// Fast path: one compare-and-exchange `UNLOCKED -> LOCKED` with acquire
    /// ordering, no parking call at all.
    pub fn lock<'a>(&'a self) -> (g: MutexGuard<'a, T>)
        ensures
            g.attached_to(self),
    {
        proof {
            use_type_invariant(self);
        }
        if self
            .state
            .compare_exchange(UNLOCKED, LOCKED, Ordering::Acquire, Ordering::Relaxed)
            .is_err()
        {
            self.lock_contended();
        }
        let (value, handle) = self.storage.acquire_write();
        MutexGuard { value, handle, state: &self.state }
    }

    /// Contended path: spin briefly while the lock is held without waiters,
    /// retry once, then park on the state word until an unlock wakes us.
    fn lock_contended(&self) {
        let mut spin: u32 = 0;
        while self.state.load(Ordering::Relaxed) == LOCKED && spin < SPIN_LIMIT
            invariant
                spin <= SPIN_LIMIT,
            decreases SPIN_LIMIT - spin,
        {
            spin = spin + 1;
            cpu_relax();
        }
        if self
            .state
            .compare_exchange(UNLOCKED, LOCKED, Ordering::Acquire, Ordering::Relaxed)
            .is_ok()
        {
            return;
        }
        let mut budget: u64 = PARK_BUDGET;
        while budget > 0 && self.state.swap(CONTENDED, Ordering::Acquire) != UNLOCKED
            decreases budget,
        {
            budget = budget - 1;
            futex_wait(&self.state, CONTENDED);
        }
    }
}

} // verus!
