use promise_bridge::LazyPinInit;

#[test]
fn slot_starts_uninitialized() {
    let slot: LazyPinInit<u64> = LazyPinInit::uninit();
    assert!(!slot.initialized());
    assert_eq!(slot.into_value(), None);
}

#[test]
fn constructor_runs_exactly_once() {
    let calls = std::cell::Cell::new(0u32);
    let mut slot: LazyPinInit<u64> = LazyPinInit::uninit();
    let first = *slot.get_or_init(|| {
        calls.set(calls.get() + 1);
        42
    });
    assert_eq!(first, 42);
    assert!(slot.initialized());
    let second = *slot.get_or_init(|| {
        calls.set(calls.get() + 1);
        99
    });
    assert_eq!(second, 42);
    assert_eq!(calls.get(), 1);
    assert_eq!(slot.into_value(), Some(42));
}

#[test]
fn borrow_hands_out_the_stored_value() {
    let mut slot: LazyPinInit<u64> = LazyPinInit::uninit();
    slot.get_or_init(|| 5);
    assert_eq!(*slot.borrow(), 5);
    *slot.borrow_mut() = 6;
    assert_eq!(*slot.borrow(), 6);
}
