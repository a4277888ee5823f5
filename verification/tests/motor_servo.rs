use elegoo_smart_car_rudn::l287n_motor_driver::{ChassisDirection, PairDirection};
use elegoo_smart_car_rudn::servo::ServoPhase;

#[test]
fn straight_travel_drives_both_pairs_alike() {
    assert_eq!(
        ChassisDirection::Forward.pair_directions(),
        (PairDirection::Forward, PairDirection::Forward)
    );
    assert_eq!(
        ChassisDirection::Backward.pair_directions(),
        (PairDirection::Backward, PairDirection::Backward)
    );
}

#[test]
fn rotations_drive_the_pairs_against_each_other() {
    assert_eq!(
        ChassisDirection::Left.pair_directions(),
        (PairDirection::Backward, PairDirection::Forward)
    );
    assert_eq!(
        ChassisDirection::Right.pair_directions(),
        (PairDirection::Forward, PairDirection::Backward)
    );
}

#[test]
fn pair_a_pin_levels() {
    assert_eq!(PairDirection::Forward.pair_a_pin_levels(), (true, false));
    assert_eq!(PairDirection::Backward.pair_a_pin_levels(), (false, true));
}

#[test]
fn pair_b_is_wired_mirrored() {
    assert_eq!(PairDirection::Forward.pair_b_pin_levels(), (false, true));
    assert_eq!(PairDirection::Backward.pair_b_pin_levels(), (true, false));
}

#[test]
fn servo_phase_scales_linearly() {
    assert_eq!(ServoPhase::from_angle(0).value, 0);
    assert_eq!(ServoPhase::from_angle(45).value, 250);
    assert_eq!(ServoPhase::from_angle(90).value, 500);
    assert_eq!(ServoPhase::from_angle(180).value, 1000);
}

#[test]
fn servo_phase_truncates() {
    // 1000 / 180 truncates: one degree is 5 microseconds, not 5.55.
    assert_eq!(ServoPhase::from_angle(1).value, 5);
    assert_eq!(ServoPhase::from_angle(179).value, 994);
}
