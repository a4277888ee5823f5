//! Core logic of a small two-motor robot car: a millisecond clock advanced by
//! timer-overflow interrupts, the measurement state machine of an HC-SR04
//! ultrasonic rangefinder with its two timeout policies and tick-to-distance
//! conversion, the line-tracker bias classification, and the lookup tables
//! that drive the motor chassis and the pan servo.
//!
//! Everything here is device-independent: hardware registers, pins and delays
//! live with the caller, which feeds plain values (pin levels, counter ticks)
//! in and carries the decisions back out.

pub mod clock;
pub mod hc_sr04_distance_sensor;
pub mod l287n_motor_driver;
pub mod line_tracker;
pub mod servo;
