use vstd::prelude::*;
use crate::heading::Sector;

verus! {

/// A 5 by 5 binary bitmap for the display, row-major, 1 meaning lit.
pub type Glyph = [[u8; 5]; 5];

pub open spec fn up_glyph() -> Seq<Seq<u8>> {
    seq![
        seq![0u8, 0, 1, 0, 0],
        seq![0u8, 1, 1, 1, 0],
        seq![1u8, 0, 1, 0, 1],
        seq![0u8, 0, 1, 0, 0],
        seq![0u8, 0, 1, 0, 0],
    ]
}

pub open spec fn down_glyph() -> Seq<Seq<u8>> {
    seq![
        seq![0u8, 0, 1, 0, 0],
        seq![0u8, 0, 1, 0, 0],
        seq![1u8, 0, 1, 0, 1],
        seq![0u8, 1, 1, 1, 0],
        seq![0u8, 0, 1, 0, 0],
    ]
}

pub open spec fn left_glyph() -> Seq<Seq<u8>> {
    seq![
        seq![0u8, 0, 1, 0, 0],
        seq![0u8, 1, 0, 0, 0],
        seq![1u8, 1, 1, 1, 1],
        seq![0u8, 1, 0, 0, 0],
        seq![0u8, 0, 1, 0, 0],
    ]
}

pub open spec fn right_glyph() -> Seq<Seq<u8>> {
    seq![
        seq![0u8, 0, 1, 0, 0],
        seq![0u8, 0, 0, 1, 0],
        seq![1u8, 1, 1, 1, 1],
        seq![0u8, 0, 0, 1, 0],
        seq![0u8, 0, 1, 0, 0],
    ]
}

pub open spec fn up_left_glyph() -> Seq<Seq<u8>> {
    seq![
        seq![1u8, 1, 1, 1, 0],
        seq![1u8, 1, 0, 0, 0],
        seq![1u8, 0, 1, 0, 0],
        seq![1u8, 0, 0, 1, 0],
        seq![0u8, 0, 0, 0, 1],
    ]
}

pub open spec fn up_right_glyph() -> Seq<Seq<u8>> {
    seq![
        seq![0u8, 1, 1, 1, 1],
        seq![0u8, 0, 0, 1, 1],
        seq![0u8, 0, 1, 0, 1],
        seq![0u8, 1, 0, 0, 1],
        seq![1u8, 0, 0, 0, 0],
    ]
}

pub open spec fn down_left_glyph() -> Seq<Seq<u8>> {
    seq![
        seq![0u8, 0, 0, 0, 1],
        seq![1u8, 0, 0, 1, 0],
        seq![1u8, 0, 1, 0, 0],
        seq![1u8, 1, 0, 0, 0],
        seq![1u8, 1, 1, 1, 0],
    ]
}

pub open spec fn down_right_glyph() -> Seq<Seq<u8>> {
    seq![
        seq![1u8, 0, 0, 0, 0],
        seq![0u8, 1, 0, 0, 1],
        seq![0u8, 0, 1, 0, 1],
        seq![0u8, 0, 0, 1, 1],
        seq![0u8, 1, 1, 1, 1],
    ]
}

/// The arrow shown for each sector.  The arrow points toward magnetic north
/// as seen from the device's current facing, which is why East carries the
/// left-pointing bitmap and West the right-pointing one.
pub open spec fn glyph_spec(s: Sector) -> Seq<Seq<u8>> {
    match s {
        Sector::North => up_glyph(),
        Sector::South => down_glyph(),
        Sector::East => left_glyph(),
        Sector::West => right_glyph(),
        Sector::NorthEast => up_left_glyph(),
        Sector::NorthWest => up_right_glyph(),
        Sector::SouthEast => down_left_glyph(),
        Sector::SouthWest => down_right_glyph(),
    }
}

pub fn up() -> (g: Glyph)
    ensures
        g.deep_view() == up_glyph(),
{
    let g: Glyph = [
        [0u8, 0, 1, 0, 0],
        [0u8, 1, 1, 1, 0],
        [1u8, 0, 1, 0, 1],
        [0u8, 0, 1, 0, 0],
        [0u8, 0, 1, 0, 0],
    ];
    proof {
        assert(g.deep_view() =~~= up_glyph());
    }
    g
}

pub fn down() -> (g: Glyph)
    ensures
        g.deep_view() == down_glyph(),
{
    let g: Glyph = [
        [0u8, 0, 1, 0, 0],
        [0u8, 0, 1, 0, 0],
        [1u8, 0, 1, 0, 1],
        [0u8, 1, 1, 1, 0],
        [0u8, 0, 1, 0, 0],
    ];
    proof {
        assert(g.deep_view() =~~= down_glyph());
    }
    g
}

pub fn left() -> (g: Glyph)
    ensures
        g.deep_view() == left_glyph(),
{
    let g: Glyph = [
        [0u8, 0, 1, 0, 0],
        [0u8, 1, 0, 0, 0],
        [1u8, 1, 1, 1, 1],
        [0u8, 1, 0, 0, 0],
        [0u8, 0, 1, 0, 0],
    ];
    proof {
        assert(g.deep_view() =~~= left_glyph());
    }
    g
}

pub fn right() -> (g: Glyph)
    ensures
        g.deep_view() == right_glyph(),
{
    let g: Glyph = [
        [0u8, 0, 1, 0, 0],
        [0u8, 0, 0, 1, 0],
        [1u8, 1, 1, 1, 1],
        [0u8, 0, 0, 1, 0],
        [0u8, 0, 1, 0, 0],
    ];
    proof {
        assert(g.deep_view() =~~= right_glyph());
    }
    g
}

pub fn up_left() -> (g: Glyph)
    ensures
        g.deep_view() == up_left_glyph(),
{
    let g: Glyph = [
        [1u8, 1, 1, 1, 0],
        [1u8, 1, 0, 0, 0],
        [1u8, 0, 1, 0, 0],
        [1u8, 0, 0, 1, 0],
        [0u8, 0, 0, 0, 1],
    ];
    proof {
        assert(g.deep_view() =~~= up_left_glyph());
    }
    g
}

pub fn up_right() -> (g: Glyph)
    ensures
        g.deep_view() == up_right_glyph(),
{
    let g: Glyph = [
        [0u8, 1, 1, 1, 1],
        [0u8, 0, 0, 1, 1],
        [0u8, 0, 1, 0, 1],
        [0u8, 1, 0, 0, 1],
        [1u8, 0, 0, 0, 0],
    ];
    proof {
        assert(g.deep_view() =~~= up_right_glyph());
    }
    g
}

pub fn down_left() -> (g: Glyph)
    ensures
        g.deep_view() == down_left_glyph(),
{
    let g: Glyph = [
        [0u8, 0, 0, 0, 1],
        [1u8, 0, 0, 1, 0],
        [1u8, 0, 1, 0, 0],
        [1u8, 1, 0, 0, 0],
        [1u8, 1, 1, 1, 0],
    ];
    proof {
        assert(g.deep_view() =~~= down_left_glyph());
    }
    g
}

pub fn down_right() -> (g: Glyph)
    ensures
        g.deep_view() == down_right_glyph(),
{
    let g: Glyph = [
        [1u8, 0, 0, 0, 0],
        [0u8, 1, 0, 0, 1],
        [0u8, 0, 1, 0, 1],
        [0u8, 0, 0, 1, 1],
        [0u8, 1, 1, 1, 1],
    ];
    proof {
        assert(g.deep_view() =~~= down_right_glyph());
    }
    g
}

/// Looks up the arrow for a sector.  Total and fixed by `glyph_spec`, a
/// function of the sector alone.
pub fn glyph_for(sector: Sector) -> (g: Glyph)
    ensures
        g.deep_view() == glyph_spec(sector),
{
    match sector {
        Sector::North => up(),
        Sector::South => down(),
        Sector::East => left(),
        Sector::West => right(),
        Sector::NorthEast => up_left(),
        Sector::NorthWest => up_right(),
        Sector::SouthEast => down_left(),
        Sector::SouthWest => down_right(),
    }
}

/// The eight arrows are pairwise distinct bitmaps: different sectors always
/// show differently on the display.
pub proof fn lemma_glyphs_distinct(a: Sector, b: Sector)
    requires
        a != b,
    ensures
        glyph_spec(a) != glyph_spec(b),
{
    let ga = glyph_spec(a);
    let gb = glyph_spec(b);
    if ga == gb {
        assert(ga[0][0] == gb[0][0]);
        assert(ga[0][1] == gb[0][1]);
        assert(ga[0][4] == gb[0][4]);
        assert(ga[1][0] == gb[1][0]);
        assert(ga[1][1] == gb[1][1]);
        assert(ga[1][3] == gb[1][3]);
        assert(false);
    }
}

} // verus!
