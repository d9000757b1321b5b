use gfx_backend::starc::Starc;

#[test]
fn deref_on_creating_thread_yields_the_value() {
    let handle = Starc::new(7u32, 1);
    assert_eq!(*handle.deref(1), 7);
    assert_eq!(handle.try_deref(1).copied(), Some(7));
}

#[test]
fn deref_from_other_thread_fails_confinement_check() {
    let handle = Starc::new(7u32, 1);
    assert!(handle.try_deref(2).is_none());
    assert!(handle.try_deref(0).is_none());
}

#[test]
fn clone_shares_the_value_and_keeps_the_creating_thread() {
    let handle = Starc::new(String::from("shared"), 5);
    let copy = handle.clone();
    assert_eq!(copy.try_deref(5).map(|s| s.as_str()), Some("shared"));
    assert!(copy.try_deref(6).is_none());
}

#[test]
fn try_unwrap_sole_reference_recovers_the_value() {
    let handle = Starc::new(11u32, 1);
    assert_eq!(handle.try_unwrap().ok(), Some(11));
}

#[test]
fn try_unwrap_with_live_clone_hands_the_handle_back() {
    let handle = Starc::new(11u32, 1);
    let copy = handle.clone();
    let back = handle.try_unwrap().expect_err("a clone is alive");
    assert_eq!(back.try_deref(1).copied(), Some(11));
    drop(copy);
}

#[test]
fn get_mut_sole_reference_mutates_the_value() {
    let mut handle = Starc::new(1u32, 1);
    *Starc::get_mut(&mut handle).expect("sole reference") = 9;
    assert_eq!(*handle.deref(1), 9);
}

#[test]
fn get_mut_with_live_clone_is_refused() {
    let mut handle = Starc::new(1u32, 1);
    let copy = handle.clone();
    assert!(Starc::get_mut(&mut handle).is_none());
    drop(copy);
}
