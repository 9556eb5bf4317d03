//! Integer plane geometry: points, box extents, and the axis-aligned
//! overlap tests that hit testing and drop resolution are built on.

use vstd::prelude::*;

verus! {

/// A point in the plane, in layout units.
#[derive(Clone, Copy, Debug, PartialEq, Eq, Structural)]
pub struct Pos2 {
    pub x: i64,
    pub y: i64,
}

/// A position in space: a point plus a depth coordinate used for draw order.
#[derive(Clone, Copy, Debug, PartialEq, Eq, Structural)]
pub struct Pos3 {
    pub x: i64,
    pub y: i64,
    pub z: i64,
}

/// Width and height of an axis-aligned box.
#[derive(Clone, Copy, Debug, PartialEq, Eq, Structural)]
pub struct Extent2 {
    pub x: i64,
    pub y: i64,
}

/// Absolute value of a mathematical integer.
pub open spec fn abs_i(v: int) -> int {
    if v < 0 {
        -v
    } else {
        v
    }
}

/// Two axis-aligned boxes, given by their centers and extents, overlap on a
/// region of positive area.  Touching edges do not count as overlap.
pub open spec fn rects_overlap(a: Pos2, a_ext: Extent2, b: Pos2, b_ext: Extent2) -> bool {
    &&& 2 * abs_i(a.x - b.x) < a_ext.x + b_ext.x
    &&& 2 * abs_i(a.y - b.y) < a_ext.y + b_ext.y
}

/// The point `p` lies strictly inside the box centered at `c` with extent
/// `ext`.
pub open spec fn point_in_rect(p: Pos2, c: Pos2, ext: Extent2) -> bool {
    &&& 2 * abs_i(p.x - c.x) < ext.x
    &&& 2 * abs_i(p.y - c.y) < ext.y
}

/// Carry a pointer position from window coordinates (origin in a window
/// corner) to world coordinates (origin at the window center), at depth
/// `z`.
pub fn mouse_translation(position: Pos2, window_half: Extent2, z: i64) -> (r: Pos3)
    requires
        position.x - window_half.x >= i64::MIN,
        position.y - window_half.y >= i64::MIN,
        position.x - window_half.x <= i64::MAX,
        position.y - window_half.y <= i64::MAX,
    ensures
        r.x == position.x - window_half.x,
        r.y == position.y - window_half.y,
        r.z == z,
{
    Pos3 { x: position.x - window_half.x, y: position.y - window_half.y, z }
}

/// Overlap test between two axis-aligned rectangles given by their centers
/// and extents, as a sprite collision test performs it.
pub fn aabb_overlap(a: Pos2, a_ext: Extent2, b: Pos2, b_ext: Extent2) -> (r: bool)
    ensures
        r == rects_overlap(a, a_ext, b, b_ext),
{
    let dx: i128 = 2 * ((a.x as i128) - (b.x as i128));
    let adx: i128 = if dx < 0 {
        -dx
    } else {
        dx
    };
    let dy: i128 = 2 * ((a.y as i128) - (b.y as i128));
    let ady: i128 = if dy < 0 {
        -dy
    } else {
        dy
    };
    adx < (a_ext.x as i128) + (b_ext.x as i128) && ady < (a_ext.y as i128) + (b_ext.y as i128)
}

/// Containment test of a point in an axis-aligned rectangle.
pub fn point_in_box(p: Pos2, c: Pos2, ext: Extent2) -> (r: bool)
    ensures
        r == point_in_rect(p, c, ext),
{
    let dx: i128 = 2 * ((p.x as i128) - (c.x as i128));
    let adx: i128 = if dx < 0 {
        -dx
    } else {
        dx
    };
    let dy: i128 = 2 * ((p.y as i128) - (c.y as i128));
    let ady: i128 = if dy < 0 {
        -dy
    } else {
        dy
    };
    adx < (ext.x as i128) && ady < (ext.y as i128)
}

} // verus!
