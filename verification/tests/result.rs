use poison::{map_result, LockResult, PoisonError};

#[test]
fn map_result_keeps_healthy() {
    let result: LockResult<u8> = Ok(3);
    let mapped: LockResult<u16> = map_result(result, |x| u16::from(x) + 1);
    assert_eq!(mapped.unwrap(), 4);
}

#[test]
fn map_result_keeps_poisoned() {
    let result: LockResult<u8> = Err(PoisonError::new(3));
    let mapped: LockResult<u16> = map_result(result, |x| u16::from(x) + 1);
    assert_eq!(mapped.unwrap_err().into_inner(), 4);
}

#[test]
fn map_result_calls_once_and_may_move() {
    let mut calls = 0;
    let owned = String::from("moved in");
    let result: LockResult<&str> = Err(PoisonError::new("payload"));
    let mapped = map_result(
        result,
        |s| {
            calls += 1;
            format!("{} {}", s, owned)
        },
    );
    assert_eq!(mapped.unwrap_err().into_inner(), "payload moved in");
    assert_eq!(calls, 1);
}

#[test]
fn poison_error_hands_its_payload_out() {
    let mut error = PoisonError::new(3);
    assert_eq!(*error.get_ref(), 3);
    *error.get_mut() = 5;
    assert_eq!(*error.get_ref(), 5);
    assert_eq!(error.into_inner(), 5);
}
