//! Atomically reference-counted shared ownership. A handle gives read-only
//! access to the payload; the block and its payload are destroyed exactly
//! once, when the last handle is dropped.

use vstd::prelude::*;

verus! {

/// Relies on std::sync::Arc::clone: the new handle aliases the same shared
/// block (the payload is not copied) and the reference count is incremented
/// atomically; on reference-count overflow the process is aborted.
#[verifier::external_body]
fn clone_handle<T>(inner: &std::sync::Arc<T>) -> (r: std::sync::Arc<T>)
    ensures
        *r == **inner,
{
    std::sync::Arc::clone(inner)
}

/// Relies on std::sync::Arc::try_unwrap: yields the payload only when the
/// given handle is the sole owner, that is, the reference count is observed
/// to be exactly one; otherwise the handle is given back unchanged.
#[verifier::external_body]
fn unwrap_handle<T>(inner: std::sync::Arc<T>) -> (r: Result<T, std::sync::Arc<T>>)
    ensures
        match r {
            Ok(t) => t == inner,
            Err(e) => e == inner,
        },
{
    std::sync::Arc::try_unwrap(inner)
}

/// A shared-ownership handle to a heap block holding a value of type `T` and
/// an atomic reference count. No single handle owns the block exclusively.
pub struct Arc<T> {
    inner: std::sync::Arc<T>,
}

impl<T> Arc<T> {
    /// The shared payload.
    pub closed spec fn view(&self) -> T {
        *self.inner
    }

    /// Allocate a block holding `data`, owned by this one handle.
    pub fn new(data: T) -> (a: Arc<T>)
        ensures
            a@ == data,
    {
        Arc { inner: std::sync::Arc::new(data) }
    }

    /// Read-only access to the payload. Shared ownership never hands out
    /// mutable access: another handle might read concurrently.
    pub fn get(&self) -> (r: &T)
        ensures
            *r == self@,
    {
        &*self.inner
    }

    /// Exclusive access, checked: take the payload out only when this handle
    /// is the only one, so that no other handle could observe the payload;
    /// otherwise hand the handle back unchanged.
    pub fn try_unwrap(self) -> (r: Result<T, Arc<T>>)
        ensures
            match r {
                Ok(t) => t == self@,
                Err(a) => a@ == self@,
            },
    {
        match unwrap_handle(self.inner) {
            Ok(t) => Ok(t),
            Err(inner) => Err(Arc { inner }),
        }
    }
}

impl<T> Clone for Arc<T> {
    /// A new handle aliasing the same block.
    fn clone(&self) -> (r: Self)
        ensures
            r@ == self@,
    {
        Arc { inner: clone_handle(&self.inner) }
    }
}

} // verus!
