use vstd::prelude::*;

verus! {

/// Whether the offset `(dx, dy)` from a corner's arc centre lies on or inside
/// the circle of radius `r`.
pub open spec fn within_arc(dx: int, dy: int, r: int) -> bool {
    dx * dx + dy * dy <= r * r
}

/// Membership of pixel `(x, y)` in a `w` by `h` rectangle whose four corners
/// are rounded with radius `r`. Each corner square is tested against its own
/// arc; everything else counts as inside.
pub open spec fn inside_rounded_rect(x: int, y: int, w: int, h: int, r: int) -> bool {
    if x < r && y < r {
        within_arc(r - x, r - y, r)
    } else if x >= w - r && y < r {
        within_arc(x - (w - r - 1), r - y, r)
    } else if x < r && y >= h - r {
        within_arc(r - x, y - (h - r - 1), r)
    } else if x >= w - r && y >= h - r {
        within_arc(x - (w - r - 1), y - (h - r - 1), r)
    } else {
        true
    }
}

fn arc_test(dx: i128, dy: i128, r: i128) -> (b: bool)
    requires
        -0x4_0000_0000 <= dx <= 0x4_0000_0000,
        -0x4_0000_0000 <= dy <= 0x4_0000_0000,
        0 <= r <= 0x1_0000_0000,
    ensures
        b == within_arc(dx as int, dy as int, r as int),
{
    assert(dx * dx <= 0x10_0000_0000_0000_0000) by (nonlinear_arith)
        requires -0x4_0000_0000 <= dx <= 0x4_0000_0000;
    assert(dy * dy <= 0x10_0000_0000_0000_0000) by (nonlinear_arith)
        requires -0x4_0000_0000 <= dy <= 0x4_0000_0000;
    assert(0 <= dx * dx && 0 <= dy * dy) by (nonlinear_arith);
    assert(r * r <= 0x1_0000_0000_0000_0000) by (nonlinear_arith)
        requires 0 <= r <= 0x1_0000_0000;
    dx * dx + dy * dy <= r * r
}

/// Tests pixel `(x, y)` against the rounded rectangle of size `width` by
/// `height` with corner radius `radius`.
pub fn is_inside_rounded_rect(x: u32, y: u32, width: u32, height: u32, radius: u32) -> (b: bool)
    ensures
        b == inside_rounded_rect(x as int, y as int, width as int, height as int, radius as int),
{
    let r = radius as i128;
    let w = width as i128;
    let h = height as i128;
    let px = x as i128;
    let py = y as i128;
    if px < r && py < r {
        arc_test(r - px, r - py, r)
    } else if px >= w - r && py < r {
        arc_test(px - (w - r - 1), r - py, r)
    } else if px < r && py >= h - r {
        arc_test(r - px, py - (h - r - 1), r)
    } else if px >= w - r && py >= h - r {
        arc_test(px - (w - r - 1), py - (h - r - 1), r)
    } else {
        true
    }
}

/// On a square canvas whose corner radius is at most half its side, the
/// rounded rectangle is the same when mirrored left to right and when
/// mirrored top to bottom.
pub proof fn lemma_rounded_rect_mirror_symmetric(x: int, y: int, side: int, r: int)
    requires
        0 <= x < side,
        0 <= y < side,
        0 <= r,
        2 * r <= side,
    ensures
        inside_rounded_rect(x, y, side, side, r) == inside_rounded_rect(side - 1 - x, y, side, side, r),
        inside_rounded_rect(x, y, side, side, r) == inside_rounded_rect(x, side - 1 - y, side, side, r),
{
}

/// With radius zero every pixel of the canvas is inside: the test is the
/// plain rectangle.
pub proof fn lemma_rounded_rect_zero_radius(x: int, y: int, w: int, h: int)
    requires
        0 <= x < w,
        0 <= y < h,
    ensures
        inside_rounded_rect(x, y, w, h, 0),
{
}

} // verus!
