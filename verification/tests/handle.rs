use tokenizer_bridge::error::BridgeError;
use tokenizer_bridge::handle::Handle;

#[test]
fn empty_handle_has_nothing_attached() {
    let handle: Handle<u32> = Handle::empty();
    assert!(!handle.is_attached());
}

#[test]
fn attach_binds_the_value() {
    let mut handle: Handle<String> = Handle::empty();
    assert_eq!(handle.attach("model".to_string()), Ok(()));
    assert!(handle.is_attached());
    let seen = handle.with_exclusive_access(|value| Ok(value.clone()));
    assert_eq!(seen, Ok("model".to_string()));
}

#[test]
fn second_attach_fails_and_keeps_the_first_value() {
    let mut handle: Handle<u32> = Handle::empty();
    assert_eq!(handle.attach(5), Ok(()));
    assert_eq!(handle.attach(6), Err(BridgeError::AttachFailure));
    assert!(handle.is_attached());
    assert_eq!(handle.with_exclusive_access(|value| Ok(*value)), Ok(5));
}

#[test]
fn access_hands_back_the_result_of_the_operation() {
    let mut handle: Handle<Vec<u32>> = Handle::empty();
    handle.attach(vec![1, 2, 3]).unwrap();
    assert_eq!(handle.with_exclusive_access(|value| Ok(value.len())), Ok(3));
    assert!(handle.is_attached());
}

#[test]
fn access_wraps_the_failure_of_the_operation() {
    let mut handle: Handle<u32> = Handle::empty();
    handle.attach(1).unwrap();
    let outcome: Result<u32, BridgeError> =
        handle.with_exclusive_access(|_| Err("the engine refused".to_string()));
    assert_eq!(
        outcome,
        Err(BridgeError::EngineError("the engine refused".to_string()))
    );
    assert!(handle.is_attached());
    assert_eq!(handle.with_exclusive_access(|value| Ok(*value)), Ok(1));
}

#[test]
fn access_to_an_empty_handle_does_not_run_the_operation() {
    let mut handle: Handle<u32> = Handle::empty();
    let ran = std::cell::Cell::new(false);
    let outcome: Result<u32, BridgeError> = handle.with_exclusive_access(|value| {
        ran.set(true);
        Ok(*value)
    });
    assert_eq!(outcome, Err(BridgeError::NotAttached));
    assert!(!ran.get());
}

#[test]
fn release_detaches_once() {
    let mut handle: Handle<u32> = Handle::empty();
    handle.attach(9).unwrap();
    assert_eq!(handle.release(), Ok(()));
    assert!(!handle.is_attached());
    assert_eq!(handle.release(), Err(BridgeError::NotAttached));
    assert_eq!(handle.release(), Err(BridgeError::NotAttached));
}

#[test]
fn release_of_a_handle_never_attached_fails() {
    let mut handle: Handle<u32> = Handle::empty();
    assert_eq!(handle.release(), Err(BridgeError::NotAttached));
}

#[test]
fn released_handle_refuses_access() {
    let mut handle: Handle<u32> = Handle::empty();
    handle.attach(9).unwrap();
    handle.release().unwrap();
    let outcome: Result<u32, BridgeError> = handle.with_exclusive_access(|value| Ok(*value));
    assert_eq!(outcome, Err(BridgeError::NotAttached));
}

#[test]
fn release_drops_the_value_exactly_once() {
    let counter = std::rc::Rc::new(());
    let mut handle: Handle<std::rc::Rc<()>> = Handle::empty();
    handle.attach(counter.clone()).unwrap();
    assert_eq!(std::rc::Rc::strong_count(&counter), 2);
    handle.release().unwrap();
    assert_eq!(std::rc::Rc::strong_count(&counter), 1);
    assert!(handle.release().is_err());
    assert_eq!(std::rc::Rc::strong_count(&counter), 1);
}

#[test]
fn failed_attach_drops_the_rejected_value_only() {
    let first = std::rc::Rc::new(1);
    let second = std::rc::Rc::new(2);
    let mut handle: Handle<std::rc::Rc<i32>> = Handle::empty();
    handle.attach(first.clone()).unwrap();
    assert!(handle.attach(second.clone()).is_err());
    assert_eq!(std::rc::Rc::strong_count(&first), 2);
    assert_eq!(std::rc::Rc::strong_count(&second), 1);
}

#[test]
fn two_handles_are_independent() {
    let mut a: Handle<u32> = Handle::empty();
    let mut b: Handle<u32> = Handle::empty();
    a.attach(1).unwrap();
    b.attach(2).unwrap();
    a.release().unwrap();
    assert!(!a.is_attached());
    assert_eq!(b.with_exclusive_access(|value| Ok(*value)), Ok(2));
}
