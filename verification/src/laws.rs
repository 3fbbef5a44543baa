//! What holds of every use of the primitives, proved from their contracts.
//!
//! Each law speaks of the outcomes of the functions themselves:
//! `call_ensures(f, args, out)` says that `out` is an outcome of `f` on
//! `args`. A mutable borrow `b` stands for the instance that a call works
//! on: `*old(b)` is the instance before the call, `*final(b)` the instance
//! once the borrow, and with it any guard taken through it, has ended.

use vstd::prelude::*;
use crate::raw::{RawPoison, RawPoisonGuard};
use crate::result::{payload, LockResult, PoisonError};
use crate::typed::{Poison, PoisonGuard};

verus! {

/// What holds of guards and results once they are done with. Without it the
/// verifier does not see that a guard which is dropped unreleased changes
/// nothing.
pub broadcast group group_dropped_unreleased {
    PoisonError::lemma_resolved_inner,
    RawPoisonGuard::lemma_dropped_keeps_flag,
    PoisonGuard::lemma_dropped_keeps_all,
}

/// A fresh flag is not set, and a guard taken on it comes back healthy.
pub proof fn lemma_fresh_raw_locks_healthy(
    fresh: RawPoison,
    poison: &mut RawPoison,
    panicking: bool,
    result: LockResult<RawPoisonGuard<'_>>,
)
    requires
        call_ensures(RawPoison::new, (), fresh),
        *old(poison) == fresh,
        call_ensures(RawPoison::lock, (poison, panicking), result),
    ensures
        !fresh.is_poisoned(),
        result is Ok,
{
}

/// A fresh `Poison` is not set, and a guard taken on it comes back healthy
/// and holds the value it was made with.
pub proof fn lemma_fresh_locks_healthy<T>(
    val: T,
    fresh: Poison<T>,
    poison: &mut Poison<T>,
    panicking: bool,
    result: LockResult<PoisonGuard<'_, T>>,
)
    requires
        call_ensures(Poison::<T>::new, (val,), fresh),
        *old(poison) == fresh,
        call_ensures(Poison::<T>::lock, (poison, panicking), result),
    ensures
        !fresh.is_poisoned(),
        result is Ok,
        *payload(result).data() == val,
{
}

/// A guard taken on a flag that was made poisoned comes back as poisoned,
/// and is a guard like any other: it borrows that flag, remembers the
/// thread's state, and decides what the flag is afterwards.
pub proof fn lemma_poisoned_raw_locks_poisoned(
    tainted: RawPoison,
    poison: &mut RawPoison,
    panicking: bool,
    result: LockResult<RawPoisonGuard<'_>>,
)
    requires
        call_ensures(RawPoison::poisoned, (), tainted),
        *old(poison) == tainted,
        call_ensures(RawPoison::lock, (poison, panicking), result),
    ensures
        tainted.is_poisoned(),
        result is Err,
        *payload(result).target() == tainted,
        payload(result).was_panicking() == panicking,
        *final(poison) == *final(payload(result).target()),
{
}

/// A guard taken on a `Poison` that was made poisoned comes back as
/// poisoned, and is a guard like any other: it holds the value, remembers
/// the thread's state, and decides what value and flag are afterwards.
pub proof fn lemma_poisoned_locks_poisoned<T>(
    val: T,
    tainted: Poison<T>,
    poison: &mut Poison<T>,
    panicking: bool,
    result: LockResult<PoisonGuard<'_, T>>,
)
    requires
        call_ensures(Poison::<T>::poisoned, (val,), tainted),
        *old(poison) == tainted,
        call_ensures(Poison::<T>::lock, (poison, panicking), result),
    ensures
        tainted.is_poisoned(),
        result is Err,
        *payload(result).data() == val,
        payload(result).raw().was_panicking() == panicking,
        final(poison).value() == *final(payload(result).data()),
        final(poison).is_poisoned() == final(payload(result).raw().target()).is_poisoned(),
{
}

/// A guard that is released while the thread is not unwinding leaves the
/// flag as it found it: a healthy flag stays healthy.
pub proof fn lemma_raw_release_without_panic(
    poison: &mut RawPoison,
    was_panicking: bool,
    result: LockResult<RawPoisonGuard<'_>>,
)
    requires
        call_ensures(RawPoison::lock, (poison, was_panicking), result),
        call_ensures(RawPoisonGuard::release, (payload(result), false), ()),
    ensures
        final(poison).is_poisoned() == old(poison).is_poisoned(),
{
}

/// A guard that is released while the thread is unwinding, taken when it
/// was not, sets the flag.
pub proof fn lemma_raw_release_in_new_panic(
    poison: &mut RawPoison,
    result: LockResult<RawPoisonGuard<'_>>,
)
    requires
        call_ensures(RawPoison::lock, (poison, false), result),
        call_ensures(RawPoisonGuard::release, (payload(result), true), ()),
    ensures
        final(poison).is_poisoned(),
{
}

/// A guard that was taken while the thread was already unwinding leaves the
/// flag as it found it, whatever the thread's state at the release.
pub proof fn lemma_raw_release_in_old_panic(
    poison: &mut RawPoison,
    result: LockResult<RawPoisonGuard<'_>>,
    panicking: bool,
)
    requires
        call_ensures(RawPoison::lock, (poison, true), result),
        call_ensures(RawPoisonGuard::release, (payload(result), panicking), ()),
    ensures
        final(poison).is_poisoned() == old(poison).is_poisoned(),
{
}

/// A typed guard that is released while the thread is not unwinding leaves
/// the flag as it found it, and the value as the guard has it.
pub proof fn lemma_release_without_panic<T>(
    poison: &mut Poison<T>,
    was_panicking: bool,
    result: LockResult<PoisonGuard<'_, T>>,
)
    requires
        call_ensures(Poison::<T>::lock, (poison, was_panicking), result),
        call_ensures(PoisonGuard::<T>::release, (payload(result), false), ()),
    ensures
        final(poison).is_poisoned() == old(poison).is_poisoned(),
        final(poison).value() == old(poison).value(),
{
}

/// A typed guard that is released while the thread is unwinding, taken when
/// it was not, sets the flag. The value is still there.
pub proof fn lemma_release_in_new_panic<T>(
    poison: &mut Poison<T>,
    result: LockResult<PoisonGuard<'_, T>>,
)
    requires
        call_ensures(Poison::<T>::lock, (poison, false), result),
        call_ensures(PoisonGuard::<T>::release, (payload(result), true), ()),
    ensures
        final(poison).is_poisoned(),
        final(poison).value() == old(poison).value(),
{
}

/// A typed guard that was taken while the thread was already unwinding
/// leaves the flag as it found it, whatever the thread's state at the
/// release.
pub proof fn lemma_release_in_old_panic<T>(
    poison: &mut Poison<T>,
    result: LockResult<PoisonGuard<'_, T>>,
    panicking: bool,
)
    requires
        call_ensures(Poison::<T>::lock, (poison, true), result),
        call_ensures(PoisonGuard::<T>::release, (payload(result), panicking), ()),
    ensures
        final(poison).is_poisoned() == old(poison).is_poisoned(),
        final(poison).value() == old(poison).value(),
{
}

/// A guard that is dropped without a release changes nothing, whichever way
/// it came back.
pub proof fn lemma_raw_drop_without_release(
    poison: &mut RawPoison,
    was_panicking: bool,
    result: LockResult<RawPoisonGuard<'_>>,
)
    requires
        call_ensures(RawPoison::lock, (poison, was_panicking), result),
        has_resolved(result),
    ensures
        *final(poison) == *old(poison),
{
    broadcast use group_dropped_unreleased;

}

/// A typed guard that is dropped without a release leaves the flag as it
/// found it, and the value as the guard has it, whichever way it came back.
pub proof fn lemma_drop_without_release<T>(
    poison: &mut Poison<T>,
    was_panicking: bool,
    result: LockResult<PoisonGuard<'_, T>>,
)
    requires
        call_ensures(Poison::<T>::lock, (poison, was_panicking), result),
        has_resolved(result),
    ensures
        final(poison).is_poisoned() == old(poison).is_poisoned(),
        final(poison).value() == old(poison).value(),
{
    broadcast use group_dropped_unreleased;

}

/// After `heal` the flag is not set, whatever it was, and the next guard
/// comes back healthy.
pub proof fn lemma_raw_heal_then_lock(
    healed: &mut RawPoison,
    poison: &mut RawPoison,
    panicking: bool,
    result: LockResult<RawPoisonGuard<'_>>,
)
    requires
        call_ensures(RawPoison::heal, (healed,), ()),
        *old(poison) == *final(healed),
        call_ensures(RawPoison::lock, (poison, panicking), result),
    ensures
        !final(healed).is_poisoned(),
        result is Ok,
{
}

/// After `heal` the flag is not set, whatever it was, the value is what it
/// was, and the next guard comes back healthy.
pub proof fn lemma_heal_then_lock<T>(
    healed: &mut Poison<T>,
    poison: &mut Poison<T>,
    panicking: bool,
    result: LockResult<PoisonGuard<'_, T>>,
)
    requires
        call_ensures(Poison::<T>::heal, (healed,), ()),
        *old(poison) == *final(healed),
        call_ensures(Poison::<T>::lock, (poison, panicking), result),
    ensures
        !final(healed).is_poisoned(),
        final(healed).value() == old(healed).value(),
        result is Ok,
        *payload(result).data() == old(healed).value(),
{
}

} // verus!
