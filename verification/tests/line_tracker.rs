use elegoo_smart_car_rudn::line_tracker::{
    LineBiasDirection, LinePosition, LineState, LineTrackerDirection,
};

const L: LineState = LineState::Light;
const D: LineState = LineState::Dark;

fn dark_bias(left: LineState, mid: LineState, right: LineState) -> LineBiasDirection {
    LinePosition::new(left, mid, right).get_bias_direction_dark()
}

fn light_bias(left: LineState, mid: LineState, right: LineState) -> LineBiasDirection {
    LinePosition::new(left, mid, right).get_bias_direction_light()
}

#[test]
fn line_state_from_pin_reading() {
    assert_eq!(LineState::from(true), LineState::Dark);
    assert_eq!(LineState::from(false), LineState::Light);
}

#[test]
fn dark_line_bias_table() {
    assert_eq!(dark_bias(L, L, D), LineBiasDirection::VeryRight);
    assert_eq!(dark_bias(L, D, D), LineBiasDirection::SlightlyRight);
    assert_eq!(dark_bias(L, D, L), LineBiasDirection::Center);
    assert_eq!(dark_bias(D, D, L), LineBiasDirection::SlightlyLeft);
    assert_eq!(dark_bias(D, L, L), LineBiasDirection::VeryLeft);
    assert_eq!(dark_bias(L, L, L), LineBiasDirection::NotOnLine);
    assert_eq!(dark_bias(D, D, D), LineBiasDirection::OnPerpendicularLine);
    assert_eq!(dark_bias(D, L, D), LineBiasDirection::NotOnLine);
}

#[test]
fn light_line_bias_table() {
    assert_eq!(light_bias(D, D, L), LineBiasDirection::VeryRight);
    assert_eq!(light_bias(D, L, L), LineBiasDirection::SlightlyRight);
    assert_eq!(light_bias(D, L, D), LineBiasDirection::Center);
    assert_eq!(light_bias(L, L, D), LineBiasDirection::SlightlyLeft);
    assert_eq!(light_bias(L, D, D), LineBiasDirection::VeryLeft);
    assert_eq!(light_bias(D, D, D), LineBiasDirection::NotOnLine);
    assert_eq!(light_bias(L, L, L), LineBiasDirection::OnPerpendicularLine);
    assert_eq!(light_bias(L, D, L), LineBiasDirection::NotOnLine);
}

#[test]
fn bias_coarsens_to_tracker_direction() {
    assert_eq!(
        LineBiasDirection::VeryLeft.to_line_tracker_direction(),
        LineTrackerDirection::Left
    );
    assert_eq!(
        LineBiasDirection::SlightlyLeft.to_line_tracker_direction(),
        LineTrackerDirection::Left
    );
    assert_eq!(
        LineBiasDirection::VeryRight.to_line_tracker_direction(),
        LineTrackerDirection::Right
    );
    assert_eq!(
        LineBiasDirection::SlightlyRight.to_line_tracker_direction(),
        LineTrackerDirection::Right
    );
    assert_eq!(
        LineBiasDirection::Center.to_line_tracker_direction(),
        LineTrackerDirection::Center
    );
    assert_eq!(
        LineBiasDirection::NotOnLine.to_line_tracker_direction(),
        LineTrackerDirection::Center
    );
    assert_eq!(
        LineBiasDirection::OnPerpendicularLine.to_line_tracker_direction(),
        LineTrackerDirection::Center
    );
}
