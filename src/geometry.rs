//! Axis-aligned rectangles, the overlap test shared by every component, and
//! the mapping between virtual-desktop and window-local coordinates.
use vstd::prelude::*;

verus! {

/// Absolute value of an integer.
pub open spec fn abs_int(v: int) -> int {
    if v < 0 {
        -v
    } else {
        v
    }
}

/// Larger of two integers.
pub open spec fn max_int(a: int, b: int) -> int {
    if a >= b {
        a
    } else {
        b
    }
}

/// Smaller of two integers.
pub open spec fn min_int(a: int, b: int) -> int {
    if a <= b {
        a
    } else {
        b
    }
}

/// A rectangle given by its corners `(x0, y0, x1, y1)`, as mathematical integers.
pub type IntRect = (int, int, int, int);

/// The corners of a machine rectangle as mathematical integers.
pub open spec fn rect_int(r: (i64, i64, i64, i64)) -> IntRect {
    (r.0 as int, r.1 as int, r.2 as int, r.3 as int)
}

/// Two rectangles intersect iff neither lies entirely on one side of the other.
pub open spec fn rects_overlap(a: IntRect, b: IntRect) -> bool {
    !(a.2 <= b.0 || a.0 >= b.2 || a.3 <= b.1 || a.1 >= b.3)
}

/// The rectangle covered by an area placed at `(x, y)` with the given size.
pub open spec fn area_rect(x: int, y: int, w: int, h: int) -> IntRect {
    (x, y, x + w, y + h)
}

/// The overlap test does not depend on the order of its two arguments.
pub proof fn lemma_overlap_symmetric(a: IntRect, b: IntRect)
    ensures
        rects_overlap(a, b) == rects_overlap(b, a),
{
}

/// The window/selection overlap test gives the same answer when the two
/// rectangles trade roles: `A` as selection against `B` as window, or `B` as
/// selection against `A` as window.
pub proof fn lemma_intersect_check_symmetric(a: IntRect, bx: int, by: int, bw: int, bh: int)
    ensures
        rects_overlap(a, area_rect(bx, by, bw, bh)) == rects_overlap(
            (bx, by, bx + bw, by + bh),
            area_rect(a.0, a.1, a.2 - a.0, a.3 - a.1),
        ),
{
}

/// The placement of a window and the current selection, as the overlap test reads them.
pub struct IntersectCheck {
    pub window_x: i64,
    pub window_y: i64,
    pub window_w: u32,
    pub window_h: u32,
    pub selection_x0: i64,
    pub selection_y0: i64,
    pub selection_x1: i64,
    pub selection_y1: i64,
}

/// Whether the selection `(x0, y0, x1, y1)` shares any area with the window rectangle.
pub fn check_selection_intersects_window(params: &IntersectCheck) -> (r: bool)
    ensures
        r == rects_overlap(
            (
                params.selection_x0 as int,
                params.selection_y0 as int,
                params.selection_x1 as int,
                params.selection_y1 as int,
            ),
            area_rect(
                params.window_x as int,
                params.window_y as int,
                params.window_w as int,
                params.window_h as int,
            ),
        ),
{
    let window_x_end: i128 = params.window_x as i128 + params.window_w as i128;
    let window_y_end: i128 = params.window_y as i128 + params.window_h as i128;
    !((params.selection_x1 as i128) <= (params.window_x as i128) || (params.selection_x0 as i128)
        >= window_x_end || (params.selection_y1 as i128) <= (params.window_y as i128) || (
    params.selection_y0 as i128) >= window_y_end)
}

/// A rectangle moved from virtual-desktop coordinates into those of a window at `(wx, wy)`.
pub open spec fn to_window_rect(wx: int, wy: int, r: IntRect) -> IntRect {
    (r.0 - wx, r.1 - wy, r.2 - wx, r.3 - wy)
}

/// A rectangle moved from the coordinates of a window at `(wx, wy)` into virtual-desktop ones.
pub open spec fn to_virtual_rect(wx: int, wy: int, r: IntRect) -> IntRect {
    (r.0 + wx, r.1 + wy, r.2 + wx, r.3 + wy)
}

/// A local coordinate clamped at the window's left or top edge.
pub open spec fn clamp_low(v: int) -> int {
    if v < 0 {
        0
    } else {
        v
    }
}

/// The window-local rectangle that the renderers use: shifted by the window's
/// offset when a virtual desktop is in use, then clamped at the window's origin.
pub open spec fn local_rect(
    virtual_x: int,
    virtual_y: int,
    has_virtual: bool,
    r: IntRect,
) -> IntRect {
    let t = if has_virtual {
        to_window_rect(virtual_x, virtual_y, r)
    } else {
        r
    };
    (clamp_low(t.0), clamp_low(t.1), clamp_low(t.2), clamp_low(t.3))
}

/// Moves a selection from virtual-desktop coordinates into the local
/// coordinates of the window placed at `(virtual_x, virtual_y)` (no shift
/// without a virtual desktop), clamping negative coordinates to the window's edge.
pub fn virtual_to_window_coords(
    virtual_x: i32,
    virtual_y: i32,
    virtual_bounds: Option<(i32, i32, u32, u32)>,
    x0: i64,
    y0: i64,
    x1: i64,
    y1: i64,
) -> (r: (u64, u64, u64, u64))
    ensures
        (r.0 as int, r.1 as int, r.2 as int, r.3 as int) == local_rect(
            virtual_x as int,
            virtual_y as int,
            virtual_bounds.is_some(),
            (x0 as int, y0 as int, x1 as int, y1 as int),
        ),
{
    let (dx, dy): (i128, i128) = if virtual_bounds.is_some() {
        (virtual_x as i128, virtual_y as i128)
    } else {
        (0, 0)
    };
    (
        clamp_to_u64(x0 as i128 - dx),
        clamp_to_u64(y0 as i128 - dy),
        clamp_to_u64(x1 as i128 - dx),
        clamp_to_u64(y1 as i128 - dy),
    )
}

fn clamp_to_u64(v: i128) -> (r: u64)
    requires
        v < u64::MAX,
    ensures
        r as int == clamp_low(v as int),
{
    if v < 0 {
        0
    } else {
        v as u64
    }
}

/// Moving a selection into a window's coordinates and back yields the same
/// selection.
pub proof fn lemma_window_round_trip(wx: int, wy: int, r: IntRect)
    ensures
        to_virtual_rect(wx, wy, to_window_rect(wx, wy, r)) == r,
        to_window_rect(wx, wy, to_virtual_rect(wx, wy, r)) == r,
{
}

/// The clamped window-local rectangle of a selection that starts at or after the
/// window's origin, moved back into virtual-desktop coordinates, is the selection
/// itself; clamping only alters a selection that reaches left of or above the window.
pub proof fn lemma_local_rect_round_trip(wx: int, wy: int, r: IntRect)
    requires
        r.0 >= wx,
        r.1 >= wy,
        r.0 <= r.2,
        r.1 <= r.3,
    ensures
        to_virtual_rect(wx, wy, local_rect(wx, wy, true, r)) == r,
{
}

} // verus!
