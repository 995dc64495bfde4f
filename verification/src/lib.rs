//! Validation of vehicle identification numbers: the length of a candidate,
//! the letters it may hold, and the check digit in its ninth position.

pub mod alphabet;
pub mod weights;
pub mod checksum;
pub mod vin;
pub mod laws;
