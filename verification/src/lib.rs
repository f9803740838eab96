//! Turns raw 3-axis magnetometer samples into a coarse 8-point compass
//! bearing and renders the bearing as an arrow for a 5 by 5 binary display:
//! hard/soft-iron calibration of the raw vector, angular bucketing into 8
//! sectors with an exact boundary policy, and the fixed sector-to-glyph
//! table.  Around the compass core sit the small verified pieces of its
//! sibling utilities: the display's border walk, the serial console's line
//! buffering and commands, and the punch detector's peak tracking.
//!
//! Angles are fixed-point binary radians (`heading::ANGLE_PI` units to pi);
//! the arctangent that produces them is the caller's, since it is
//! floating-point work.

pub mod border;
pub mod calibration;
pub mod console;
pub mod glyphs;
pub mod heading;
pub mod punch;

use vstd::prelude::*;

verus! {

/// A 3-axis magnetometer sample, raw or calibrated, in sensor units.
#[derive(Clone, Copy, PartialEq, Eq, Structural, Debug)]
pub struct Measurement {
    pub x: i32,
    pub y: i32,
    pub z: i32,
}

} // verus!
