use vstd::prelude::*;
use crate::glyphs::Glyph;

verus! {

/// The cell the border walk of an `n` by `n` grid visits at step `k`:
/// across the top row, down the right edge, back across the bottom row,
/// up the left edge, clockwise from the top-left corner.
pub open spec fn border_coord(n: int, k: int) -> (int, int)
    recommends
        1 <= n,
        0 <= k < 4 * (n - 1),
{
    if k < n - 1 {
        (0, k)
    } else if k < 2 * (n - 1) {
        (k - (n - 1), n - 1)
    } else if k < 3 * (n - 1) {
        (n - 1, n - 1 - (k - 2 * (n - 1)))
    } else {
        (n - 1 - (k - 3 * (n - 1)), 0)
    }
}

/// The full clockwise walk around the border of an `n` by `n` grid: every
/// border cell exactly once, in visiting order.
pub fn border_n_by_n(n: usize) -> (r: Vec<(usize, usize)>)
    requires
        1 <= n,
    ensures
        r@.len() == 4 * (n - 1),
        forall|k: int|
            0 <= k < r@.len() ==> ((#[trigger] r@[k]).0 as int, r@[k].1 as int) == border_coord(
                n as int,
                k,
            ),
{
    let mut r: Vec<(usize, usize)> = Vec::new();
    let mut j: usize = 0;
    while j < n - 1
        invariant
            1 <= n,
            j <= n - 1,
            r@.len() == j,
            forall|k: int|
                0 <= k < r@.len() ==> ((#[trigger] r@[k]).0 as int, r@[k].1 as int)
                    == border_coord(n as int, k),
        decreases n - 1 - j,
    {
        r.push((0usize, j));
        j += 1;
    }
    let mut i: usize = 0;
    while i < n - 1
        invariant
            1 <= n,
            i <= n - 1,
            r@.len() == n - 1 + i,
            forall|k: int|
                0 <= k < r@.len() ==> ((#[trigger] r@[k]).0 as int, r@[k].1 as int)
                    == border_coord(n as int, k),
        decreases n - 1 - i,
    {
        r.push((i, n - 1));
        i += 1;
    }
    let mut t: usize = 0;
    while t < n - 1
        invariant
            1 <= n,
            t <= n - 1,
            r@.len() == 2 * (n - 1) + t,
            forall|k: int|
                0 <= k < r@.len() ==> ((#[trigger] r@[k]).0 as int, r@[k].1 as int)
                    == border_coord(n as int, k),
        decreases n - 1 - t,
    {
        r.push((n - 1, n - 1 - t));
        t += 1;
    }
    let mut u: usize = 0;
    while u < n - 1
        invariant
            1 <= n,
            u <= n - 1,
            r@.len() == 3 * (n - 1) + u,
            forall|k: int|
                0 <= k < r@.len() ==> ((#[trigger] r@[k]).0 as int, r@[k].1 as int)
                    == border_coord(n as int, k),
        decreases n - 1 - u,
    {
        r.push((n - 1 - u, 0usize));
        u += 1;
    }
    r
}

/// The frame the chase animation shows at one step: a dark panel with the
/// single cell `(i, j)` lit.
pub fn frame_with_dot(i: usize, j: usize) -> (g: Glyph)
    requires
        i < 5,
        j < 5,
    ensures
        forall|r: int, c: int|
            0 <= r < 5 && 0 <= c < 5 ==> g.deep_view()[r][c] == (if r == i && c == j {
                1u8
            } else {
                0u8
            }),
{
    let mut g: Glyph = [[0u8; 5]; 5];
    g[i][j] = 1;
    g
}

/// The border walk of the 5 by 5 display panel.
pub fn border_5x5() -> (r: Vec<(usize, usize)>)
    ensures
        r@.len() == 16,
        forall|k: int|
            0 <= k < r@.len() ==> ((#[trigger] r@[k]).0 as int, r@[k].1 as int) == border_coord(
                5,
                k,
            ),
{
    border_n_by_n(5)
}

} // verus!
