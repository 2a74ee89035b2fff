//! The invariant attached to every internal storage cell: the protected
//! value is unrestricted, so any value of the payload type may be stored.

use vstd::prelude::*;
use vstd::rwlock::RwLockPredicate;

verus! {

pub struct AnyValue;

impl<T> RwLockPredicate<T> for AnyValue {
    open spec fn inv(self, v: T) -> bool {
        true
    }
}

} // verus!
