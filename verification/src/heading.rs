use vstd::prelude::*;

verus! {

/// One of the eight 45-degree compass buckets.
#[derive(Clone, Copy, PartialEq, Eq, Structural, Debug)]
pub enum Sector {
    North,
    NorthEast,
    East,
    SouthEast,
    South,
    SouthWest,
    West,
    NorthWest,
}

/// Angles are fixed-point binary radians: `ANGLE_PI` units stand for the
/// angle pi, so a full heading lies in `(-ANGLE_PI, ANGLE_PI]`.  The unit is
/// fine enough to carry a single-precision heading without visible loss.
pub const ANGLE_PI: i32 = 65536;

/// One eighth of pi in angle units: the sector boundaries sit at odd
/// multiples of this step.
pub const ANGLE_PI_8: i32 = 8192;

/// The sector an angle falls in: an ordered cascade of strict comparisons,
/// first match wins.  An angle exactly on a boundary falls through to the
/// later guard, so for instance `7/8 pi` itself is NorthWest, not West.
pub open spec fn sector_of(theta: int) -> Sector {
    if theta > 7 * ANGLE_PI_8 {
        Sector::West
    } else if theta > 5 * ANGLE_PI_8 {
        Sector::NorthWest
    } else if theta > 3 * ANGLE_PI_8 {
        Sector::North
    } else if theta > 1 * ANGLE_PI_8 {
        Sector::NorthEast
    } else if theta < -7 * ANGLE_PI_8 {
        Sector::West
    } else if theta < -5 * ANGLE_PI_8 {
        Sector::SouthWest
    } else if theta < -3 * ANGLE_PI_8 {
        Sector::South
    } else if theta < -1 * ANGLE_PI_8 {
        Sector::SouthEast
    } else {
        Sector::East
    }
}

/// Buckets a heading angle into its compass sector.  Total: every angle,
/// boundary values included, is classified, and the result is fixed by
/// `sector_of`, a function of the angle alone.
pub fn classify(theta: i32) -> (s: Sector)
    ensures
        s == sector_of(theta as int),
{
    if theta > 7 * ANGLE_PI_8 {
        Sector::West
    } else if theta > 5 * ANGLE_PI_8 {
        Sector::NorthWest
    } else if theta > 3 * ANGLE_PI_8 {
        Sector::North
    } else if theta > ANGLE_PI_8 {
        Sector::NorthEast
    } else if theta < -7 * ANGLE_PI_8 {
        Sector::West
    } else if theta < -5 * ANGLE_PI_8 {
        Sector::SouthWest
    } else if theta < -3 * ANGLE_PI_8 {
        Sector::South
    } else if theta < -ANGLE_PI_8 {
        Sector::SouthEast
    } else {
        Sector::East
    }
}

/// Over the range that an arctangent yields, `(-pi, pi]`, the eight sectors
/// are exactly these eight angle intervals: each angle lies in one and only
/// one of them, so classification is total and unambiguous, and each boundary
/// angle belongs to the sector the strict guards let it fall through to.
pub proof fn lemma_sector_partition(theta: int)
    requires
        -ANGLE_PI < theta <= ANGLE_PI,
    ensures
        sector_of(theta) == Sector::East <==> -ANGLE_PI_8 <= theta <= ANGLE_PI_8,
        sector_of(theta) == Sector::NorthEast <==> ANGLE_PI_8 < theta <= 3 * ANGLE_PI_8,
        sector_of(theta) == Sector::North <==> 3 * ANGLE_PI_8 < theta <= 5 * ANGLE_PI_8,
        sector_of(theta) == Sector::NorthWest <==> 5 * ANGLE_PI_8 < theta <= 7 * ANGLE_PI_8,
        sector_of(theta) == Sector::West <==> 7 * ANGLE_PI_8 < theta || theta < -7 * ANGLE_PI_8,
        sector_of(theta) == Sector::SouthWest <==> -7 * ANGLE_PI_8 <= theta < -5 * ANGLE_PI_8,
        sector_of(theta) == Sector::South <==> -5 * ANGLE_PI_8 <= theta < -3 * ANGLE_PI_8,
        sector_of(theta) == Sector::SouthEast <==> -3 * ANGLE_PI_8 <= theta < -ANGLE_PI_8,
{
}

} // verus!
