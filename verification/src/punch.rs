use vstd::prelude::*;
use crate::Measurement;

verus! {

/// Acceleration, in sensor units, beyond which a sample counts as the start
/// of a punch.
pub const PUNCH_THRESHOLD: i32 = 2000;

pub open spec fn max_i32(a: i32, b: i32) -> i32 {
    if a >= b {
        a
    } else {
        b
    }
}

/// Whether a sample's forward acceleration crosses the punch threshold and
/// so starts a measurement window.
pub fn punch_started(sample: &Measurement) -> (r: bool)
    ensures
        r == (sample.x > PUNCH_THRESHOLD),
{
    sample.x > PUNCH_THRESHOLD
}

/// Folds one more sample into the per-axis peak tracked over a punch
/// measurement window.
pub fn peak_update(peak: Measurement, sample: Measurement) -> (r: Measurement)
    ensures
        r.x == max_i32(peak.x, sample.x),
        r.y == max_i32(peak.y, sample.y),
        r.z == max_i32(peak.z, sample.z),
{
    Measurement {
        x: if peak.x >= sample.x {
            peak.x
        } else {
            sample.x
        },
        y: if peak.y >= sample.y {
            peak.y
        } else {
            sample.y
        },
        z: if peak.z >= sample.z {
            peak.z
        } else {
            sample.z
        },
    }
}

} // verus!
