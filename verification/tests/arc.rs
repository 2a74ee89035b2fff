use syncprims::arc::Arc;

#[test]
fn new_then_get_yields_payload() {
    let a = Arc::new(42u64);
    assert_eq!(*a.get(), 42);
}

#[test]
fn clone_aliases_same_payload() {
    let a = Arc::new(String::from("shared"));
    let b = a.clone();
    assert_eq!(a.get(), b.get());
    assert_eq!(*b.get(), "shared");
}

#[test]
fn payload_destroyed_exactly_once_after_last_drop() {
    // The probe's strong count observes how often the payload is destroyed:
    // it returns to 1 exactly when the one payload clone has been dropped.
    let probe = std::sync::Arc::new(());
    let a = Arc::new(std::sync::Arc::clone(&probe));
    let mut handles = Vec::new();
    for _ in 0..8 {
        handles.push(a.clone());
    }
    assert_eq!(std::sync::Arc::strong_count(&probe), 2);
    drop(handles);
    // The original handle still owns the block: not destroyed yet.
    assert_eq!(std::sync::Arc::strong_count(&probe), 2);
    drop(a);
    // Last handle gone: destroyed exactly once.
    assert_eq!(std::sync::Arc::strong_count(&probe), 1);
}

#[test]
fn exclusive_unwrap_only_for_sole_owner() {
    let a = Arc::new(5u32);
    let b = a.clone();
    // Two handles exist: neither may take the payload out.
    let a = match a.try_unwrap() {
        Ok(_) => panic!("unwrap succeeded with two handles alive"),
        Err(handle) => handle,
    };
    assert_eq!(*a.get(), 5);
    drop(b);
    // Sole owner again: the payload comes out.
    match a.try_unwrap() {
        Ok(v) => assert_eq!(v, 5),
        Err(_) => panic!("unwrap failed for the sole owner"),
    }
}
