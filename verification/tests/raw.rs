use poison::{LockResult, RawPoison, RawPoisonGuard};

/// The flag, as the next `lock` reports it.
fn is_poisoned(poison: &mut RawPoison) -> bool {
    poison.lock(false).is_err()
}

fn guard_of(result: LockResult<RawPoisonGuard<'_>>) -> RawPoisonGuard<'_> {
    match result {
        Ok(guard) => guard,
        Err(error) => error.into_inner(),
    }
}

#[test]
fn fresh_raw_poison_locks_healthy() {
    let mut poison = RawPoison::new();
    assert!(poison.lock(false).is_ok());
    assert!(poison.lock(true).is_ok());
    assert!(!is_poisoned(&mut poison));
}

#[test]
fn poisoned_raw_poison_locks_poisoned_with_a_guard() {
    let mut poison = RawPoison::poisoned();
    let result = poison.lock(false);
    assert!(result.is_err());
    let guard = result.unwrap_err().into_inner();
    guard.release(false);
    assert!(is_poisoned(&mut poison));
}

#[test]
fn raw_release_without_panic_keeps_healthy() {
    let mut poison = RawPoison::new();
    poison.lock(false).unwrap().release(false);
    assert!(!is_poisoned(&mut poison));
}

#[test]
fn raw_release_in_new_panic_poisons() {
    let mut poison = RawPoison::new();
    poison.lock(false).unwrap().release(true);
    assert!(is_poisoned(&mut poison));
}

#[test]
fn raw_release_in_old_panic_does_not_poison() {
    let mut poison = RawPoison::new();
    poison.lock(true).unwrap().release(true);
    assert!(!is_poisoned(&mut poison));
    poison.lock(true).unwrap().release(false);
    assert!(!is_poisoned(&mut poison));
}

#[test]
fn raw_release_never_clears() {
    for was_panicking in [false, true] {
        for panicking in [false, true] {
            let mut poison = RawPoison::poisoned();
            guard_of(poison.lock(was_panicking)).release(panicking);
            assert!(is_poisoned(&mut poison));
        }
    }
}

#[test]
fn raw_guard_dropped_without_release_keeps_flag() {
    let mut healthy = RawPoison::new();
    drop(healthy.lock(false));
    assert!(!is_poisoned(&mut healthy));
    let mut tainted = RawPoison::poisoned();
    drop(tainted.lock(false));
    assert!(is_poisoned(&mut tainted));
}

#[test]
fn raw_heal_clears_whatever_was() {
    let mut poison = RawPoison::poisoned();
    poison.heal();
    assert!(poison.lock(false).is_ok());
    poison.heal();
    assert!(poison.lock(false).is_ok());
    poison.lock(false).unwrap().release(true);
    assert!(poison.lock(false).is_err());
    poison.heal();
    assert!(poison.lock(false).is_ok());
}

/// `None` is a heal, `Some((was_panicking, panicking))` a lock and release.
type Step = Option<(bool, bool)>;

const STEPS: [Step; 5] =
    [None, Some((false, false)), Some((false, true)), Some((true, false)), Some((true, true))];

fn run(start_poisoned: bool, history: &[Step]) -> bool {
    let mut poison = if start_poisoned { RawPoison::poisoned() } else { RawPoison::new() };
    for step in history {
        match *step {
            None => poison.heal(),
            Some((was_panicking, panicking)) => {
                guard_of(poison.lock(was_panicking)).release(panicking)
            }
        }
    }
    is_poisoned(&mut poison)
}

/// Whether some release poisoned and no heal came after it, or the flag was
/// set from the start and no heal came at all.
fn expected(start_poisoned: bool, history: &[Step]) -> bool {
    let last_heal = history.iter().rposition(|step| step.is_none());
    let since = match last_heal {
        Some(at) => &history[at + 1..],
        None => history,
    };
    since.contains(&Some((false, true))) || (start_poisoned && last_heal.is_none())
}

#[test]
fn flag_tells_every_short_history() {
    let mut histories: Vec<Vec<Step>> = vec![Vec::new()];
    let mut count = 0;
    for _length in 0..5 {
        for history in &histories {
            for start_poisoned in [false, true] {
                assert_eq!(run(start_poisoned, history), expected(start_poisoned, history));
                count += 1;
            }
        }
        let mut longer = Vec::new();
        for history in &histories {
            for step in STEPS {
                let mut next = history.clone();
                next.push(step);
                longer.push(next);
            }
        }
        histories = longer;
    }
    assert_eq!(count, 2 * (1 + 5 + 25 + 125 + 625));
}

#[test]
fn flag_after_chosen_histories() {
    assert!(!run(false, &[]));
    assert!(run(true, &[]));
    assert!(run(false, &[Some((false, true))]));
    assert!(!run(false, &[Some((false, true)), None]));
    assert!(run(false, &[None, Some((false, true)), Some((true, true))]));
    assert!(!run(true, &[Some((false, true)), None, Some((true, true))]));
    assert!(run(true, &[Some((true, false)), Some((false, false))]));
}
