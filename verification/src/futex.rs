//! Futex-style wait/wake: thin wrappers over an OS facility that lets a
//! thread block on the current value of a 32-bit atomic word and be woken by
//! another thread. Every blocking primitive in this crate uses these instead
//! of spinning indefinitely.

use std::sync::atomic::AtomicU32;
use vstd::prelude::*;

verus! {

/// Relies on atomic_wait::wait: parks the calling thread while the word still
/// holds `expected`; returns after a wake, after a spurious wakeup, or at once
/// when the word already differs. May block indefinitely if no wake comes.
#[verifier::external_body]
pub(crate) fn futex_wait(word: &AtomicU32, expected: u32) {
    atomic_wait::wait(word, expected);
}

/// Relies on atomic_wait::wake_one: wakes at most one thread parked on the word.
#[verifier::external_body]
pub(crate) fn futex_wake_one(word: &AtomicU32) {
    atomic_wait::wake_one(word);
}

/// Relies on atomic_wait::wake_all: wakes every thread parked on the word.
#[verifier::external_body]
pub(crate) fn futex_wake_all(word: &AtomicU32) {
    atomic_wait::wake_all(word);
}

/// Relies on std::hint::spin_loop: a scheduling hint issued on each busy-wait
/// retry; it computes nothing.
#[verifier::external_body]
pub(crate) fn cpu_relax() {
    std::hint::spin_loop();
}

} // verus!
