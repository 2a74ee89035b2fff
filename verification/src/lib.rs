//! In-process synchronization and shared-ownership primitives: an atomically
//! reference-counted shared pointer, a spin lock, a blocking mutex with
//! adaptive spin-then-park acquisition, a reader-writer lock, two single-use
//! message channels, and an unbounded blocking queue channel.

mod futex;
mod storage;

pub mod arc;
pub mod mutex;
pub mod oneshot;
pub mod oneshot_unchecked;
pub mod queue;
pub mod rwlock;
pub mod spin;
