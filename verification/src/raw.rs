//! The bare poison flag and the guard that sets it.

use vstd::prelude::*;
use crate::result::{payload, LockResult, PoisonError};

verus! {

/// A poison flag. It is set when a guard over it is released by a thread
/// that began to unwind while the guard was alive, and cleared by `heal`.
#[derive(Debug)]
pub struct RawPoison {
    poisoned: bool,
}

/// A guard on a [`RawPoison`]: the exclusive borrow of the flag, and whether
/// the thread was already unwinding when the guard was taken.
#[derive(Debug)]
pub struct RawPoisonGuard<'poison> {
    poison: &'poison mut RawPoison,
    panicking: bool,
}

/// Whether the thread began to unwind between the taking of a guard, when
/// its state was `was_panicking`, and the release, when it is `panicking`.
pub open spec fn began_panicking(was_panicking: bool, panicking: bool) -> bool {
    !was_panicking && panicking
}

/// The flag after the release of a guard that found it at `poisoned`.
/// Only unwinding that began during the guard's life sets the flag, and a
/// release never clears it.
pub open spec fn released(poisoned: bool, was_panicking: bool, panicking: bool) -> bool {
    poisoned || began_panicking(was_panicking, panicking)
}

impl RawPoison {
    /// Whether the flag is set.
    pub closed spec fn is_poisoned(&self) -> bool {
        self.poisoned
    }

    /// A flag that is not set.
    pub fn new() -> (poison: RawPoison)
        ensures
            !poison.is_poisoned(),
        no_unwind
    {
        RawPoison { poisoned: false }
    }

    /// A flag that is set from the start.
    pub fn poisoned() -> (poison: RawPoison)
        ensures
            poison.is_poisoned(),
        no_unwind
    {
        RawPoison { poisoned: true }
    }

    /// Reads the flag, for the typed layer.
    pub(crate) fn is_set(&self) -> (poisoned: bool)
        ensures
            poisoned == self.is_poisoned(),
        no_unwind
    {
        self.poisoned
    }

    /// Clears the flag, whatever it was.
    pub fn heal(&mut self)
        ensures
            !final(self).is_poisoned(),
        no_unwind
    {
        self.poisoned = false;
    }

    /// Takes a guard on the flag. `panicking` says whether the calling
    /// thread is unwinding right now.
    ///
    /// The guard comes back in both cases: as `Err` if the flag is set, as
    /// `Ok` if it is not. It borrows the flag as it stands, and the flag is
    /// afterwards what the guard leaves behind.
    pub fn lock(&mut self, panicking: bool) -> (result: LockResult<RawPoisonGuard<'_>>)
        ensures
            result is Err <==> old(self).is_poisoned(),
            payload(result).was_panicking() == panicking,
            *payload(result).target() == *old(self),
            *final(payload(result).target()) == *final(self),
        no_unwind
    {
        let poisoned = self.poisoned;
        let guard = RawPoisonGuard { poison: self, panicking };
        if poisoned {
            Err(PoisonError::new(guard))
        } else {
            Ok(guard)
        }
    }
}

impl<'poison> RawPoisonGuard<'poison> {
    /// The borrow of the guarded flag: `*target()` is the flag now,
    /// `*final(target())` the flag once the borrow has ended.
    pub closed spec fn target(&self) -> &'poison mut RawPoison {
        self.poison
    }

    /// Whether the thread was unwinding when the guard was taken.
    pub closed spec fn was_panicking(&self) -> bool {
        self.panicking
    }

    /// A guard that is dropped without `release` leaves the flag as it is.
    pub broadcast proof fn lemma_dropped_keeps_flag(self)
        ensures
            #[trigger] has_resolved(self) ==> *final(self.target()) == *self.target(),
    {
    }

    /// Ends the guard. `panicking` says whether the thread is unwinding
    /// right now. The flag is set if it is and was not when the guard was
    /// taken; otherwise the flag stays as it is.
    pub fn release(self, panicking: bool)
        ensures
            final(self.target()).is_poisoned() == released(
                self.target().is_poisoned(),
                self.was_panicking(),
                panicking,
            ),
        no_unwind
    {
        if !self.panicking && panicking {
            self.poison.poisoned = true;
        }
    }
}

} // verus!
