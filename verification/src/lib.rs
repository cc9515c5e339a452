//! A minimal actor: one unit of private state that is driven by typed
//! messages taken from a bounded queue, one at a time.
//!
//! Scalars are carried as IEEE 754 binary64 bit patterns in `u64`; the
//! arithmetic on them is supplied by the caller as a function value, and
//! every contract here is stated over what that function guarantees.

pub mod error;
pub mod message;
pub mod booster;
pub mod laws;
pub mod mailbox;
pub mod handle;
