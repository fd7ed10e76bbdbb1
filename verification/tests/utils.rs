use celestial_havoc::utils::{tick, GdObj, REPORT_PERIOD};

#[test]
fn the_report_period() {
    assert_eq!(REPORT_PERIOD, 60);
}

#[test]
fn tick_counts_up_and_reports_on_multiples_of_sixty() {
    let mut counter = 0u64;
    assert!(!tick(&mut counter));
    assert_eq!(counter, 1);
    counter = 58;
    assert!(!tick(&mut counter));
    assert!(tick(&mut counter));
    assert_eq!(counter, 60);
    assert!(!tick(&mut counter));
    counter = 119;
    assert!(tick(&mut counter));
    assert_eq!(counter, 120);
}

#[test]
fn tick_starts_again_after_the_largest_count() {
    let mut counter = u64::MAX;
    assert!(tick(&mut counter));
    assert_eq!(counter, 0);
    assert!(!tick(&mut counter));
    assert_eq!(counter, 1);
}

#[test]
fn a_new_slot_is_empty() {
    let slot: GdObj<u32> = GdObj::new();
    assert!(!slot.is_set());
    assert_eq!(slot.0, None);
    let slot: GdObj<u32> = GdObj::default();
    assert!(!slot.is_set());
}

#[test]
fn a_slot_made_from_a_handle_holds_it() {
    let slot = GdObj::from(String::from("timer"));
    assert!(slot.is_set());
    assert_eq!(slot.as_ref(), "timer");
    let slot: GdObj<u8> = 9u8.into();
    assert_eq!(*slot.as_ref(), 9);
}

#[test]
fn a_handle_can_be_changed_in_place() {
    let mut slot = GdObj::from(vec![1u8, 2]);
    slot.as_mut().push(3);
    assert_eq!(slot.as_ref(), &vec![1u8, 2, 3]);
    assert_eq!(slot.0, Some(vec![1u8, 2, 3]));
}
