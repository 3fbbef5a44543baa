//! The typed layer: a value together with the flag that speaks for it.

use vstd::prelude::*;
use crate::raw::{released, RawPoison, RawPoisonGuard};
use crate::result::{payload, LockResult, PoisonError};

verus! {

/// A value with a poison flag of its own. Access to the value goes through
/// the flag, as access to a mutex's data goes through its lock.
///
/// Values are compared behind `&` in the contracts below, so that `T` may be
/// unsized.
#[derive(Debug)]
pub struct Poison<T: ?Sized> {
    raw: RawPoison,
    data: T,
}

/// A guard on a [`Poison`]: the exclusive borrow of the value, and the raw
/// guard on its flag.
#[derive(Debug)]
pub struct PoisonGuard<'poison, T: ?Sized + 'poison> {
    data: &'poison mut T,
    guard: RawPoisonGuard<'poison>,
}

impl<T> Poison<T> {
    /// Wraps `val` with a flag that is not set.
    pub fn new(val: T) -> (poison: Poison<T>)
        ensures
            !poison.is_poisoned(),
            poison.value() == val,
        no_unwind
    {
        Poison { raw: RawPoison::new(), data: val }
    }

    /// Wraps `val` with a flag that is set from the start.
    pub fn poisoned(val: T) -> (poison: Poison<T>)
        ensures
            poison.is_poisoned(),
            poison.value() == val,
        no_unwind
    {
        Poison { raw: RawPoison::poisoned(), data: val }
    }

    /// Takes the value out. It comes back in both cases: as `Err` if the
    /// flag is set, as `Ok` if it is not.
    pub fn into_inner(self) -> (result: LockResult<T>)
        ensures
            result is Err <==> self.is_poisoned(),
            payload(result) == self.value(),
        no_unwind
    {
        if self.raw.is_set() {
            Err(PoisonError::new(self.data))
        } else {
            Ok(self.data)
        }
    }
}

impl<T: ?Sized> Poison<T> {
    /// Whether the flag is set.
    pub closed spec fn is_poisoned(&self) -> bool {
        self.raw.is_poisoned()
    }

    /// The value.
    pub closed spec fn value(&self) -> &T {
        &self.data
    }

    /// Takes a guard on the value. `panicking` says whether the calling
    /// thread is unwinding right now.
    ///
    /// The guard comes back in both cases: as `Err` if the flag is set, as
    /// `Ok` if it is not. It borrows value and flag as they stand, and both
    /// are afterwards what the guard leaves behind.
    pub fn lock(&mut self, panicking: bool) -> (result: LockResult<PoisonGuard<'_, T>>)
        ensures
            result is Err <==> old(self).is_poisoned(),
            payload(result).raw().was_panicking() == panicking,
            payload(result).raw().target().is_poisoned() == old(self).is_poisoned(),
            &*payload(result).data() == old(self).value(),
            final(self).is_poisoned() == final(payload(result).raw().target()).is_poisoned(),
            final(self).value() == &*final(payload(result).data()),
        no_unwind
    {
        let data = &mut self.data;
        match self.raw.lock(panicking) {
            Ok(guard) => Ok(PoisonGuard { data, guard }),
            Err(error) => Err(PoisonError::new(PoisonGuard { data, guard: error.into_inner() })),
        }
    }

    /// Clears the flag, whatever it was. The value is not touched.
    pub fn heal(&mut self)
        ensures
            !final(self).is_poisoned(),
            final(self).value() == old(self).value(),
        no_unwind
    {
        self.raw.heal();
    }

    /// Looks at the value, with the flag's warning: `Err` if it is set,
    /// `Ok` if it is not. A shared borrow needs no guard.
    pub fn get(&self) -> (result: LockResult<&T>)
        ensures
            result is Err <==> self.is_poisoned(),
            payload(result) == self.value(),
        no_unwind
    {
        if self.raw.is_set() {
            Err(PoisonError::new(&self.data))
        } else {
            Ok(&self.data)
        }
    }

    /// Borrows the value mutably without a guard and without looking at the
    /// flag.
    ///
    /// Nothing sets the flag if the thread unwinds during this borrow. This
    /// is meant for a caller that holds the raw guard of `into_raw` and
    /// poisons by itself.
    pub fn get_mut(&mut self) -> (data: &mut T)
        ensures
            &*data == old(self).value(),
            final(self).value() == &*final(data),
            final(self).is_poisoned() == old(self).is_poisoned(),
        no_unwind
    {
        &mut self.data
    }
}

impl<'poison, T: ?Sized> PoisonGuard<'poison, T> {
    /// The borrow of the guarded value: `*data()` is the value now,
    /// `*final(data())` the value once the borrow has ended.
    pub closed spec fn data(&self) -> &'poison mut T {
        self.data
    }

    /// The raw guard on the flag.
    pub closed spec fn raw(&self) -> RawPoisonGuard<'poison> {
        self.guard
    }

    /// A guard that is dropped without `release` leaves value and flag as
    /// they are.
    pub broadcast proof fn lemma_dropped_keeps_all(self)
        ensures
            #[trigger] has_resolved(self) ==> &*final(self.data()) == &*self.data(),
            has_resolved(self) ==> *final(self.raw().target()) == *self.raw().target(),
    {
        broadcast use RawPoisonGuard::lemma_dropped_keeps_flag;

    }

    /// Looks at the value.
    pub fn get(&self) -> (data: &T)
        ensures
            data == &*self.data(),
        no_unwind
    {
        &*self.data
    }

    /// Borrows the value mutably. What the borrow ends with is the guard's
    /// value from then on. The guard's own borrow still ends where it
    /// would have, and the raw guard is not touched.
    pub fn get_mut(&mut self) -> (data: &mut T)
        ensures
            &*data == &*old(self).data(),
            &*final(self).data() == &*final(data),
            &*final(final(self).data()) == &*final(old(self).data()),
            final(self).raw() == old(self).raw(),
        no_unwind
    {
        &mut *self.data
    }

    /// Gives up the guard for the bare borrow of the value.
    ///
    /// The raw guard ends here without a release: the flag stays as it is,
    /// even if the thread is unwinding. The caller poisons by other means.
    pub fn into_mut(self) -> (data: &'poison mut T)
        ensures
            &*data == &*self.data(),
            &*final(data) == &*final(self.data()),
            *final(self.raw().target()) == *self.raw().target(),
        no_unwind
    {
        broadcast use RawPoisonGuard::lemma_dropped_keeps_flag;

        self.data
    }

    /// Gives up the borrow of the value and keeps the raw guard, which
    /// still has to be released.
    pub fn into_raw(self) -> (guard: RawPoisonGuard<'poison>)
        ensures
            guard == self.raw(),
            &*final(self.data()) == &*self.data(),
        no_unwind
    {
        self.guard
    }

    /// Ends the guard. `panicking` says whether the thread is unwinding
    /// right now. The value stays as the guard has it, and the flag is set
    /// if the thread is unwinding and was not when the guard was taken.
    pub fn release(self, panicking: bool)
        ensures
            &*final(self.data()) == &*self.data(),
            final(self.raw().target()).is_poisoned() == released(
                self.raw().target().is_poisoned(),
                self.raw().was_panicking(),
                panicking,
            ),
        no_unwind
    {
        self.guard.release(panicking);
    }
}

} // verus!
