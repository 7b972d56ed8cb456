use databend_core::spill::BuildSpillCoordinator;

#[test]
fn need_spill_flag_is_set_and_cleared() {
    let mut c = BuildSpillCoordinator::create(3);
    assert!(!c.get_need_spill());
    c.need_spill().unwrap();
    assert!(c.get_need_spill());
    c.no_need_spill();
    assert!(!c.get_need_spill());
}

#[test]
fn the_last_builder_of_a_round_does_not_wait() {
    let mut c = BuildSpillCoordinator::create(3);
    assert_eq!(c.wait_spill().unwrap(), true);
    assert_eq!(c.wait_spill().unwrap(), true);
    assert_eq!(c.wait_spill().unwrap(), false);
    assert_eq!(c.waiting_spill_count, 0);
    // The next round starts afresh.
    assert_eq!(c.wait_spill().unwrap(), true);
    assert_eq!(c.waiting_spill_count, 1);
}

#[test]
fn builders_that_do_not_spill_leave_the_round() {
    let mut c = BuildSpillCoordinator::create(4);
    c.add_non_spill_processor();
    c.add_non_spill_processor();
    assert_eq!(c.non_spill_processors, 2);
    assert_eq!(c.wait_spill().unwrap(), true);
    assert_eq!(c.wait_spill().unwrap(), false);
    assert_eq!(c.waiting_spill_count, 0);
}

#[test]
fn a_single_builder_never_waits() {
    let mut c = BuildSpillCoordinator::create(1);
    for _ in 0..5 {
        assert_eq!(c.wait_spill().unwrap(), false);
    }
}

#[test]
fn adding_a_non_spill_processor_changes_nothing_else() {
    let mut c = BuildSpillCoordinator::create(3);
    c.need_spill().unwrap();
    assert_eq!(c.wait_spill().unwrap(), true);
    c.add_non_spill_processor();
    assert_eq!(c.non_spill_processors, 1);
    assert!(c.get_need_spill());
    assert_eq!(c.waiting_spill_count, 1);
    assert_eq!(c.total_builder_count, 3);
    // One waiting builder is now the whole round of the two that take part.
    assert_eq!(c.wait_spill().unwrap(), false);
}
