//! Integer geometry shared by the bounding-box finder and the recrop stage.
//!
//! Render-space coordinates are counted in sub-pixels, [`SUBPIXELS`] to a
//! pixel; opacity in millionths, [`ALPHA_OPAQUE`] being fully opaque.

use vstd::prelude::*;

verus! {

/// Sub-pixel units in one pixel.
pub const SUBPIXELS: i64 = 1000;

/// Fully opaque, in millionths.
pub const ALPHA_OPAQUE: u32 = 1_000_000;

/// Geometry below this opacity (0.001) is not drawn and not measured.
pub const VISIBLE_ALPHA: u32 = 1_000;

/// `ceil(a / b)` for `a >= 0`, `b > 0`.
pub open spec fn ceil_div(a: int, b: int) -> int {
    (a + b - 1) / b
}

/// The inclusive rectangle `[min_x, max_x] x [min_y, max_y]` holds every point
/// of `pts`, and each of its four edges passes through one of them: the
/// smallest such rectangle.
pub open spec fn tight_bounds(
    min_x: int,
    min_y: int,
    max_x: int,
    max_y: int,
    pts: Set<(int, int)>,
) -> bool {
    &&& forall|p: (int, int)|
        #[trigger] pts.contains(p) ==> min_x <= p.0 <= max_x && min_y <= p.1 <= max_y
    &&& exists|p: (int, int)| #[trigger] pts.contains(p) && p.0 == min_x
    &&& exists|p: (int, int)| #[trigger] pts.contains(p) && p.1 == min_y
    &&& exists|p: (int, int)| #[trigger] pts.contains(p) && p.0 == max_x
    &&& exists|p: (int, int)| #[trigger] pts.contains(p) && p.1 == max_y
}

pub open spec fn min_int(a: int, b: int) -> int {
    if a <= b { a } else { b }
}

pub open spec fn max_int(a: int, b: int) -> int {
    if a >= b { a } else { b }
}

/// Adding a point to a set keeps the grown rectangle tight.
pub proof fn lemma_tight_insert(
    min_x: int,
    min_y: int,
    max_x: int,
    max_y: int,
    pts: Set<(int, int)>,
    x: int,
    y: int,
)
    requires
        tight_bounds(min_x, min_y, max_x, max_y, pts),
    ensures
        tight_bounds(
            min_int(min_x, x),
            min_int(min_y, y),
            max_int(max_x, x),
            max_int(max_y, y),
            pts.insert((x, y)),
        ),
{
    let q = pts.insert((x, y));
    assert(q.contains((x, y)));
    let a = choose|p: (int, int)| #[trigger] pts.contains(p) && p.0 == min_x;
    let b = choose|p: (int, int)| #[trigger] pts.contains(p) && p.1 == min_y;
    let c = choose|p: (int, int)| #[trigger] pts.contains(p) && p.0 == max_x;
    let d = choose|p: (int, int)| #[trigger] pts.contains(p) && p.1 == max_y;
    assert(q.contains(a) && q.contains(b) && q.contains(c) && q.contains(d));
}

/// A single point is its own tight rectangle.
pub proof fn lemma_tight_single(x: int, y: int)
    ensures
        tight_bounds(x, y, x, y, Set::empty().insert((x, y))),
{
    let q = Set::<(int, int)>::empty().insert((x, y));
    assert(q.contains((x, y)));
}

} // verus!
