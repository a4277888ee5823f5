//! Direction lookup tables for the L287N motor driver.
//!
//! The driver board takes two direction pins per motor pair and one enable
//! pin per pair.  Which pin goes high for which direction is a fixed table;
//! this module states it so that the caller only has to copy levels onto the
//! pins.  Rotations are tank-style, with the two pairs turning in opposite
//! directions.

use vstd::prelude::*;

verus! {

/// The direction for the whole chassis to go.
#[derive(Clone, Copy, Debug, PartialEq, Eq, Structural)]
pub enum ChassisDirection {
    Forward,
    Backward,
    Left,
    Right,
}

/// The direction for a single motor pair to go.
#[derive(Clone, Copy, Debug, PartialEq, Eq, Structural)]
pub enum PairDirection {
    Forward,
    Backward,
}

/// The per-pair directions that a chassis direction decomposes into, as
/// `(pair a, pair b)`: straight travel drives both pairs the same way, and a
/// rotation drives them against each other.
pub open spec fn spec_pair_directions(direction: ChassisDirection) -> (PairDirection, PairDirection) {
    match direction {
        ChassisDirection::Forward => (PairDirection::Forward, PairDirection::Forward),
        ChassisDirection::Backward => (PairDirection::Backward, PairDirection::Backward),
        ChassisDirection::Left => (PairDirection::Backward, PairDirection::Forward),
        ChassisDirection::Right => (PairDirection::Forward, PairDirection::Backward),
    }
}

/// The levels for pair a's direction pins, as `(a1 high, a2 high)`.
pub open spec fn spec_pair_a_pin_levels(direction: PairDirection) -> (bool, bool) {
    match direction {
        PairDirection::Forward => (true, false),
        PairDirection::Backward => (false, true),
    }
}

/// The levels for pair b's direction pins, as `(b1 high, b2 high)`.  Pair b
/// is wired mirrored to pair a, so the levels are swapped.
pub open spec fn spec_pair_b_pin_levels(direction: PairDirection) -> (bool, bool) {
    match direction {
        PairDirection::Forward => (false, true),
        PairDirection::Backward => (true, false),
    }
}

impl ChassisDirection {
    /// Decomposes a chassis direction into the two per-pair directions,
    /// `(pair a, pair b)`.
    pub fn pair_directions(self) -> (pair: (PairDirection, PairDirection))
        ensures
            pair == spec_pair_directions(self),
    {
        match self {
            ChassisDirection::Forward => (PairDirection::Forward, PairDirection::Forward),
            ChassisDirection::Backward => (PairDirection::Backward, PairDirection::Backward),
            ChassisDirection::Left => (PairDirection::Backward, PairDirection::Forward),
            ChassisDirection::Right => (PairDirection::Forward, PairDirection::Backward),
        }
    }
}

impl PairDirection {
    /// The levels to put on pair a's direction pins, as `(a1 high, a2 high)`.
    /// Setting only these pins leaves the enable state of the motor alone.
    pub fn pair_a_pin_levels(self) -> (levels: (bool, bool))
        ensures
            levels == spec_pair_a_pin_levels(self),
    {
        match self {
            PairDirection::Forward => (true, false),
            PairDirection::Backward => (false, true),
        }
    }

    /// The levels to put on pair b's direction pins, as `(b1 high, b2 high)`.
    pub fn pair_b_pin_levels(self) -> (levels: (bool, bool))
        ensures
            levels == spec_pair_b_pin_levels(self),
    {
        match self {
            PairDirection::Forward => (false, true),
            PairDirection::Backward => (true, false),
        }
    }
}

} // verus!
