//! Concurrency primitives on top of crossbeam with contracts for their use
//! by one owner, and the worker routines that run on them.
//!
//! Each primitive that can be owned by value has two faces. The exclusive
//! type (`AtomicScalar`, `BoundedQueue`) is held by one owner, every
//! operation on it is one indivisible step, and its contract says exactly
//! what that step does. The shared handle (`SharedScalar`, `SharedQueue`) is
//! cloned into any number of workers; what one worker observes then depends
//! on the others, so a contract there promises only what holds of every
//! interleaving. The channel and the join barrier exist as handles only.

pub mod barrier;
pub mod channel;
pub mod queue;
pub mod scalar;
pub mod tally;
pub mod work;
