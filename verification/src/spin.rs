//! Busy-wait mutual exclusion. Acquisition retries an atomic flag transition
//! in a tight loop instead of putting the thread to sleep, so it is suited
//! only to very short critical sections.

use vstd::prelude::*;
use vstd::rwlock::RwLock as StorageLock;
use vstd::rwlock::WriteHandle;
use crate::storage::AnyValue;

verus! {

/// A spin lock protecting a value of type `T`.
///
/// The storage cell's exclusive acquisition is itself a compare-and-set retry
/// loop on an atomic flag: unlocked-to-locked with acquire ordering on
/// success, and a plain release store on unlock.
pub struct SpinLock<T> {
    storage: StorageLock<T, AnyValue>,
}

/// Exclusive access to the value protected by a [`SpinLock`], for as long as
/// the guard lives. Call [`Guard::unlock`] to store the value back and release
/// the lock; the lock stays held while the guard exists.
pub struct Guard<'a, T> {
    value: T,
    handle: WriteHandle<'a, T, AnyValue>,
}

impl<'a, T> Guard<'a, T> {
    /// The value the guard currently holds.
    pub closed spec fn view(&self) -> T {
        self.value
    }

    /// True when the guard holds `lock`.
    pub closed spec fn attached_to(&self, lock: &SpinLock<T>) -> bool {
        self.handle.rwlock() == lock.storage
    }

    #[verifier::type_invariant]
    spec fn wf(&self) -> bool {
        forall|v: T| self.handle.rwlock().inv(v)
    }

    /// Read the protected value.
    pub fn get(&self) -> (r: &T)
        ensures
            *r == self@,
    {
        &self.value
    }

    /// Overwrite the protected value.
    pub fn set(&mut self, v: T)
        ensures
            final(self)@ == v,
    {
        self.value = v;
    }

    /// Store the value back and release the lock.
    pub fn unlock(self) {
        proof {
            use_type_invariant(&self);
        }
        let Guard { value, handle } = self;
        handle.release_write(value);
    }
}

impl<T> SpinLock<T> {
    #[verifier::type_invariant]
    spec fn wf(&self) -> bool {
        forall|v: T| self.storage.inv(v)
    }

    /// Create a spin lock holding `value`.
    pub fn new(value: T) -> SpinLock<T> {
        let storage = StorageLock::new(value, Ghost(AnyValue));
        SpinLock { storage }
    }

    /// Acquire the lock, spinning until the flag is observed unlocked, and
    /// return a guard with exclusive access to the protected value.
    pub fn lock<'a>(&'a self) -> (g: Guard<'a, T>)
        ensures
            g.attached_to(self),
    {
        proof {
            use_type_invariant(self);
        }
        let (value, handle) = self.storage.acquire_write();
        Guard { value, handle }
    }
}

} // verus!
