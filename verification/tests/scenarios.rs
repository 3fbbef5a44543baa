use poison::{Poison, RawPoison};

// A panic inside the critical section, as the guard sees it: the thread was
// not unwinding when the guard was taken, and is when the guard is released.

#[test]
fn test_poison() {
    let mut x = Poison::new(12);

    {
        let _pl = x.lock(false).unwrap();
        _pl.release(true);
    }

    x.lock(false).unwrap_err();
    x.heal();
    x.lock(false).unwrap();
}

#[test]
fn test_raw_poison() {
    let mut x = RawPoison::new();

    {
        let _pl = x.lock(false).unwrap();
        _pl.release(true);
    }

    x.lock(false).unwrap_err();
    x.heal();
    x.lock(false).unwrap();
}

#[test]
fn mutate_release_and_lock_again() {
    let mut poison = Poison::new(12);
    let mut guard = poison.lock(false).unwrap();
    *guard.get_mut() = 34;
    guard.release(false);
    let guard = poison.lock(false).unwrap();
    assert_eq!(*guard.get(), 34);
}

#[test]
fn poisoned_value_survives_heal() {
    let mut poison = Poison::new(12);
    let mut guard = poison.lock(false).unwrap();
    *guard.get_mut() = 34;
    guard.release(true);
    assert_eq!(*poison.lock(false).unwrap_err().into_inner().get(), 34);
    poison.heal();
    assert_eq!(*poison.lock(false).unwrap().get(), 34);
    assert_eq!(poison.into_inner().unwrap(), 34);
}

#[test]
fn poisoning_stays_with_its_instance() {
    let mut first = Poison::new(1);
    let mut second = Poison::new(2);
    first.lock(false).unwrap().release(true);
    assert!(first.get().is_err());
    assert!(second.get().is_ok());
    second.lock(false).unwrap().release(false);
    assert!(second.lock(false).is_ok());
}
