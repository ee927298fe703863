//! Axis-aligned bounding-box overlap, the single collision primitive used
//! for all pairwise checks.

use vstd::prelude::*;

verus! {

/// Two axis-aligned rectangles, given as top-left corner plus extent,
/// overlap; touching edges count as overlap.
pub open spec fn rects_overlap(
    x1: int, y1: int, w1: int, h1: int,
    x2: int, y2: int, w2: int, h2: int,
) -> bool {
    x1 <= x2 + w2 && x2 <= x1 + w1 && y1 <= y2 + h2 && y2 <= y1 + h1
}

/// Inclusive bounding-box overlap test on milli-pixel rectangles.
pub fn is_collide(
    x1: i64, y1: i64, w1: i64, h1: i64,
    x2: i64, y2: i64, w2: i64, h2: i64,
) -> (r: bool)
    requires
        -1_000_000_000 <= x1 <= 1_000_000_000,
        -1_000_000_000 <= y1 <= 1_000_000_000,
        -1_000_000_000 <= w1 <= 1_000_000_000,
        -1_000_000_000 <= h1 <= 1_000_000_000,
        -1_000_000_000 <= x2 <= 1_000_000_000,
        -1_000_000_000 <= y2 <= 1_000_000_000,
        -1_000_000_000 <= w2 <= 1_000_000_000,
        -1_000_000_000 <= h2 <= 1_000_000_000,
    ensures
        r == rects_overlap(
            x1 as int, y1 as int, w1 as int, h1 as int,
            x2 as int, y2 as int, w2 as int, h2 as int,
        ),
{
    (x1 <= x2 + w2 && x2 <= x1 + w1) && (y1 <= y2 + h2 && y2 <= y1 + h1)
}

/// The overlap test is symmetric under swapping its two rectangle
/// arguments.
pub proof fn lemma_overlap_symmetric(
    x1: int, y1: int, w1: int, h1: int,
    x2: int, y2: int, w2: int, h2: int,
)
    ensures
        rects_overlap(x1, y1, w1, h1, x2, y2, w2, h2)
            == rects_overlap(x2, y2, w2, h2, x1, y1, w1, h1),
{
}

} // verus!
