//! Poisoning primitives for building poisonable structures.
//!
//! A poison flag records that a critical section over some state was left by
//! a panic, so that whoever comes next is warned instead of silently seeing
//! state that may be half-changed. [`RawPoison`] is the bare flag;
//! [`Poison`] couples the flag with the data it speaks for. Neither blocks
//! or excludes anybody: a guard borrows its flag exclusively, and that
//! borrow is the only lock there is.
//!
//! The library never asks the runtime whether the thread is unwinding. The
//! caller passes that answer in, once when a guard is taken and once when it
//! is released, and everything else is decided here.

pub mod result;
pub mod raw;
pub mod typed;
pub mod laws;
pub mod history;

pub use crate::raw::{RawPoison, RawPoisonGuard};
pub use crate::result::{map_result, LockResult, PoisonError};
pub use crate::typed::{Poison, PoisonGuard};
