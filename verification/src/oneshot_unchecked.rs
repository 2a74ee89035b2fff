//! Single-use message channel, runtime-checked variant: one object exposes
//! `send` and `receive` directly, guarded only by an already-sent flag that is
//! checked when the program runs. The misuses this variant can only reject at
//! run time — a second send, a receive with nothing ready — are inexpressible
//! with the typed split of [`crate::oneshot`].

use vstd::prelude::*;
use crate::oneshot::RecvError;
use crate::oneshot::receive_spec;
use crate::oneshot::send_spec;

verus! {

/// A single-message channel with both operations on one object: a message
/// slot written at most once and read at most once, and a flag recording that
/// the one send has happened.
pub struct UnsafeOneshotChannel<T> {
    slot: Option<T>,
    sent: bool,
}

impl<T> UnsafeOneshotChannel<T> {
    /// The message currently held in the slot.
    pub closed spec fn message(&self) -> Option<T> {
        self.slot
    }

    /// Whether the one send has already happened.
    pub closed spec fn already_sent(&self) -> bool {
        self.sent
    }

    /// An empty channel: nothing sent, nothing to receive.
    pub fn new() -> (c: UnsafeOneshotChannel<T>)
        ensures
            !c.already_sent(),
            c.message() is None,
    {
        UnsafeOneshotChannel { slot: None, sent: false }
    }

    /// Deliver the one message. A second send is a usage error: it fails,
    /// hands the message back untouched, and leaves the channel unchanged.
    pub fn send(&mut self, message: T) -> (r: Result<(), T>)
        ensures
            old(self).already_sent() ==> r == Err::<(), T>(message) && *final(self) == *old(self),
            !old(self).already_sent() ==> r == Ok::<(), T>(()) && final(self).already_sent()
                && final(self).message() == send_spec(message),
    {
        if self.sent {
            return Err(message);
        }
        self.sent = true;
        self.slot = Some(message);
        Ok(())
    }

    /// Take the message out, at most once. Receiving with nothing ready —
    /// before any send, or a second time — is the usage error, and leaves the
    /// already-sent flag as it was, so the failed send stays failed.
    pub fn receive(&mut self) -> (r: Result<T, RecvError>)
        ensures
            (final(self).message(), r) == receive_spec(old(self).message()),
            final(self).already_sent() == old(self).already_sent(),
    {
        match self.slot.take() {
            Some(m) => Ok(m),
            None => Err(RecvError),
        }
    }

    /// Best-effort poll: true exactly when a message is ready to receive.
    pub fn is_ready(&self) -> (b: bool)
        ensures
            b == (self.message() is Some),
    {
        self.slot.is_some()
    }
}

} // verus!
