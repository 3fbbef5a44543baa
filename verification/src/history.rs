//! The flag as a fold over what has happened to it.
//!
//! Between its creation and any later moment a flag sees heals and released
//! guards, in some order. This module says what the flag is after such a
//! history, and proves that the flag is set exactly when a guard was
//! released in a new panic and nothing has healed the flag since.

use vstd::prelude::*;
use crate::raw::{began_panicking, released, RawPoison, RawPoisonGuard};

verus! {

/// One thing that happens to a flag.
pub enum Event {
    /// `heal` was called.
    Heal,
    /// A guard was released. `was_panicking` is the thread's state when the
    /// guard was taken, `panicking` its state at the release.
    Release { was_panicking: bool, panicking: bool },
}

impl Event {
    /// Whether this is the release of a guard in a panic that began during
    /// the guard's life.
    pub open spec fn poisons(self) -> bool {
        match self {
            Event::Heal => false,
            Event::Release { was_panicking, panicking } => began_panicking(was_panicking, panicking),
        }
    }
}

/// The flag after one event.
pub open spec fn after(poisoned: bool, event: Event) -> bool {
    match event {
        Event::Heal => false,
        Event::Release { was_panicking, panicking } => released(poisoned, was_panicking, panicking),
    }
}

/// The flag after a history, oldest event first.
pub open spec fn after_all(poisoned: bool, events: Seq<Event>) -> bool
    decreases events.len(),
{
    if events.len() == 0 {
        poisoned
    } else {
        after(after_all(poisoned, events.drop_last()), events.last())
    }
}

/// `heal` is the event `Heal`.
pub proof fn lemma_heal_is_an_event(poison: &mut RawPoison)
    requires
        call_ensures(RawPoison::heal, (poison,), ()),
    ensures
        final(poison).is_poisoned() == after(old(poison).is_poisoned(), Event::Heal),
{
}

/// The release of a guard is the event `Release` with the thread's state
/// when the guard was taken and its state at the release.
pub proof fn lemma_release_is_an_event(guard: RawPoisonGuard<'_>, panicking: bool)
    requires
        call_ensures(RawPoisonGuard::release, (guard, panicking), ()),
    ensures
        final(guard.target()).is_poisoned() == after(
            guard.target().is_poisoned(),
            (Event::Release { was_panicking: guard.was_panicking(), panicking }),
        ),
{
}

/// No event from index `from` on is a heal.
pub open spec fn no_heal_from(events: Seq<Event>, from: int) -> bool {
    forall|j: int| from <= j < events.len() ==> #[trigger] events[j] != Event::Heal
}

/// Some release in the history poisons, and no heal comes after it.
pub open spec fn poisoned_since_last_heal(events: Seq<Event>) -> bool {
    exists|i: int|
        0 <= i < events.len() && (#[trigger] events[i]).poisons() && no_heal_from(events, i + 1)
}

/// The flag tells the history: it is set exactly when a guard was released
/// in a new panic and no heal has come since, or when it was set from the
/// start and no heal has come at all.
pub proof fn lemma_flag_tells_history(poisoned: bool, events: Seq<Event>)
    ensures
        after_all(poisoned, events) <==> (poisoned_since_last_heal(events) || (poisoned
            && no_heal_from(events, 0))),
    decreases events.len(),
{
    if events.len() > 0 {
        let earlier = events.drop_last();
        let last = events.last();
        let at: int = events.len() - 1;
        lemma_flag_tells_history(poisoned, earlier);
        if last == Event::Heal {
            assert(events[at] == Event::Heal);
        } else {
            // Without a heal at the end, the two histories have the same
            // heal-free tails.
            assert forall|from: int| 0 <= from <= at implies (no_heal_from(events, from)
                <==> no_heal_from(earlier, from)) by {
                assert(forall|j: int| 0 <= j < at ==> earlier[j] == events[j]);
            }
            if poisoned_since_last_heal(earlier) {
                let i: int = choose|i: int|
                    0 <= i < earlier.len() && (#[trigger] earlier[i]).poisons() && no_heal_from(
                        earlier,
                        i + 1,
                    );
                assert(events[i].poisons());
            }
            if poisoned_since_last_heal(events) && !last.poisons() {
                let i: int = choose|i: int|
                    0 <= i < events.len() && (#[trigger] events[i]).poisons() && no_heal_from(
                        events,
                        i + 1,
                    );
                assert(earlier[i].poisons());
            }
        }
    }
}

} // verus!
