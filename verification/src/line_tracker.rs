//! Bias classification for the three-sensor line tracker.
//!
//! The tracker board has a left, a center and a right sensor; each drives its
//! pin low when it sees the line.  From the three boolean readings this
//! module classifies where the robot sits relative to the line, both for a
//! dark line on a light background and for the inverse.  Reading the pins is
//! the caller's concern; it hands the levels in as plain booleans.

use vstd::prelude::*;

verus! {

/// The reading of a single line-tracker sensor.
///
/// Dark means that it is on the line, light means that it is not.
#[derive(Clone, Copy, Debug, PartialEq, Eq, Structural)]
pub enum LineState {
    Light,
    Dark,
}

/// The reading a sensor reports for a pin level: the sensor drives its pin
/// low on the line, so a low (false) level reads as light only when `value`
/// is false.
pub open spec fn spec_line_state_from(value: bool) -> LineState {
    if value {
        LineState::Dark
    } else {
        LineState::Light
    }
}

impl From<bool> for LineState {
    /// `true` is on the line (dark), `false` is off it (light).
    fn from(value: bool) -> (state: LineState) {
        match value {
            true => LineState::Dark,
            false => LineState::Light,
        }
    }
}

impl vstd::std_specs::convert::FromSpecImpl<bool> for LineState {
    open spec fn obeys_from_spec() -> bool {
        true
    }

    open spec fn from_spec(v: bool) -> LineState {
        spec_line_state_from(v)
    }
}

/// A choice of one of the three line-tracker sensors.
#[derive(Clone, Copy, Debug, PartialEq, Eq, Structural)]
pub enum LineTrackerDirection {
    Left,
    Center,
    Right,
}

/// The readings of the three sensors taken together.
#[derive(Clone, Copy, Debug, PartialEq, Eq, Structural)]
pub struct LinePosition {
    pub left: LineState,
    pub mid: LineState,
    pub right: LineState,
}

/// The direction that the robot is offset from the line.
#[derive(Clone, Copy, Debug, PartialEq, Eq, Structural)]
pub enum LineBiasDirection {
    /// The robot only sees the line on the left.
    VeryLeft,
    /// The robot sees the line in the center and on the left.
    SlightlyLeft,
    /// The robot sees the line only in the center.
    Center,
    /// The robot sees the line in the center and on the right.
    SlightlyRight,
    /// The robot only sees the line on the right.
    VeryRight,
    /// The robot does not see a line.
    NotOnLine,
    /// The robot sees a line on all three sensors at the same time.
    OnPerpendicularLine,
}

/// The coarse direction a bias maps to: both left biases to left, both right
/// biases to right, everything else to center.
pub open spec fn spec_to_line_tracker_direction(bias: LineBiasDirection) -> LineTrackerDirection {
    match bias {
        LineBiasDirection::VeryLeft | LineBiasDirection::SlightlyLeft => LineTrackerDirection::Left,
        LineBiasDirection::VeryRight | LineBiasDirection::SlightlyRight => LineTrackerDirection::Right,
        _ => LineTrackerDirection::Center,
    }
}

impl LineBiasDirection {
    /// Converts the line bias direction to a line tracker direction, losing
    /// some information.
    ///
    /// Converts `VeryLeft` and `SlightlyLeft` to `Left`, `VeryRight` and
    /// `SlightlyRight` to `Right`, and everything else to `Center`.
    pub fn to_line_tracker_direction(self) -> (direction: LineTrackerDirection)
        ensures
            direction == spec_to_line_tracker_direction(self),
    {
        match self {
            LineBiasDirection::VeryLeft | LineBiasDirection::SlightlyLeft => LineTrackerDirection::Left,
            LineBiasDirection::VeryRight | LineBiasDirection::SlightlyRight => LineTrackerDirection::Right,
            _ => LineTrackerDirection::Center,
        }
    }
}

/// The bias classification for a dark line on a light background: the line
/// shows as dark, so a dark reading on one side pulls the bias to that side.
pub open spec fn spec_bias_direction_dark(position: LinePosition) -> LineBiasDirection {
    match (position.left, position.mid, position.right) {
        (LineState::Light, LineState::Light, LineState::Dark) => LineBiasDirection::VeryRight,
        (LineState::Light, LineState::Dark, LineState::Dark) => LineBiasDirection::SlightlyRight,
        (LineState::Light, LineState::Dark, LineState::Light) => LineBiasDirection::Center,
        (LineState::Dark, LineState::Dark, LineState::Light) => LineBiasDirection::SlightlyLeft,
        (LineState::Dark, LineState::Light, LineState::Light) => LineBiasDirection::VeryLeft,
        (LineState::Light, LineState::Light, LineState::Light) => LineBiasDirection::NotOnLine,
        (LineState::Dark, LineState::Dark, LineState::Dark) => LineBiasDirection::OnPerpendicularLine,
        (LineState::Dark, LineState::Light, LineState::Dark) => LineBiasDirection::NotOnLine,
    }
}

/// The bias classification for a light line on a dark background: the same
/// table as for a dark line with every reading inverted.
pub open spec fn spec_bias_direction_light(position: LinePosition) -> LineBiasDirection {
    match (position.left, position.mid, position.right) {
        (LineState::Dark, LineState::Dark, LineState::Light) => LineBiasDirection::VeryRight,
        (LineState::Dark, LineState::Light, LineState::Light) => LineBiasDirection::SlightlyRight,
        (LineState::Dark, LineState::Light, LineState::Dark) => LineBiasDirection::Center,
        (LineState::Light, LineState::Light, LineState::Dark) => LineBiasDirection::SlightlyLeft,
        (LineState::Light, LineState::Dark, LineState::Dark) => LineBiasDirection::VeryLeft,
        (LineState::Dark, LineState::Dark, LineState::Dark) => LineBiasDirection::NotOnLine,
        (LineState::Light, LineState::Light, LineState::Light) => LineBiasDirection::OnPerpendicularLine,
        (LineState::Light, LineState::Dark, LineState::Light) => LineBiasDirection::NotOnLine,
    }
}

impl LinePosition {
    /// Packs the three sensor readings, left to right.
    pub fn new(left: LineState, mid: LineState, right: LineState) -> (position: LinePosition)
        ensures
            position == (LinePosition { left, mid, right }),
    {
        LinePosition { left, mid, right }
    }

    /// Returns the direction that the sensor state is pointing to, when the
    /// robot is following a dark line on a light background.
    ///
    /// When you want to follow a line, you want the line to be visible on the
    /// center sensor only.  If you can see the line on the left or right
    /// sensor, you want to compensate by turning in the opposite direction.
    /// Line on the outer sensors only, or on none, reads as not being on a
    /// line; on all three at once, as crossing a perpendicular line.
    pub fn get_bias_direction_dark(&self) -> (bias: LineBiasDirection)
        ensures
            bias == spec_bias_direction_dark(*self),
    {
        match (self.left, self.mid, self.right) {
            (LineState::Light, LineState::Light, LineState::Dark) => LineBiasDirection::VeryRight,
            (LineState::Light, LineState::Dark, LineState::Dark) => LineBiasDirection::SlightlyRight,
            (LineState::Light, LineState::Dark, LineState::Light) => LineBiasDirection::Center,
            (LineState::Dark, LineState::Dark, LineState::Light) => LineBiasDirection::SlightlyLeft,
            (LineState::Dark, LineState::Light, LineState::Light) => LineBiasDirection::VeryLeft,
            (LineState::Light, LineState::Light, LineState::Light) => LineBiasDirection::NotOnLine,
            (LineState::Dark, LineState::Dark, LineState::Dark) => LineBiasDirection::OnPerpendicularLine,
            (LineState::Dark, LineState::Light, LineState::Dark) => LineBiasDirection::NotOnLine,
        }
    }

    /// Returns the direction that the sensor state is pointing to, when the
    /// robot is following a light line on a dark background.
    ///
    /// The same classification as [`Self::get_bias_direction_dark`] with the
    /// roles of light and dark exchanged.
    pub fn get_bias_direction_light(&self) -> (bias: LineBiasDirection)
        ensures
            bias == spec_bias_direction_light(*self),
    {
        match (self.left, self.mid, self.right) {
            (LineState::Dark, LineState::Dark, LineState::Light) => LineBiasDirection::VeryRight,
            (LineState::Dark, LineState::Light, LineState::Light) => LineBiasDirection::SlightlyRight,
            (LineState::Dark, LineState::Light, LineState::Dark) => LineBiasDirection::Center,
            (LineState::Light, LineState::Light, LineState::Dark) => LineBiasDirection::SlightlyLeft,
            (LineState::Light, LineState::Dark, LineState::Dark) => LineBiasDirection::VeryLeft,
            (LineState::Dark, LineState::Dark, LineState::Dark) => LineBiasDirection::NotOnLine,
            (LineState::Light, LineState::Light, LineState::Light) => LineBiasDirection::OnPerpendicularLine,
            (LineState::Light, LineState::Dark, LineState::Light) => LineBiasDirection::NotOnLine,
        }
    }
}

} // verus!
