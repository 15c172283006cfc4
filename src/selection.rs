//! The selection state machine: drag points, modifier-key shaping, validity,
//! the cached rectangle and the redraw bookkeeping.
use vstd::prelude::*;
use crate::geometry::{abs_int, max_int, min_int, rect_int, IntRect};

verus! {

/// Scale recorded with a region, in thousandths (1000 is a scale of 1).
pub const UNIT_SCALE_MILLI: u32 = 1000;

/// A rectangular region with the scale factor that maps it to physical pixels
/// (in thousandths).
#[derive(Debug, Clone, Copy, PartialEq, Eq, Structural)]
pub struct Region {
    pub x: i64,
    pub y: i64,
    pub w: i64,
    pub h: i64,
    pub scale_milli: u32,
}

impl Region {
    pub fn new(x: i64, y: i64, w: i64, h: i64, scale_milli: u32) -> (r: Region)
        ensures
            r == (Region { x, y, w, h, scale_milli }),
    {
        Region { x, y, w, h, scale_milli }
    }

    /// The same area with a non-negative width and height: a negative extent moves
    /// the origin by that extent and is negated.
    pub fn norm(&self) -> (r: Region)
        requires
            self.w > i64::MIN,
            self.h > i64::MIN,
            self.w < 0 ==> self.x + self.w >= i64::MIN,
            self.h < 0 ==> self.y + self.h >= i64::MIN,
        ensures
            r.w == abs_int(self.w as int),
            r.h == abs_int(self.h as int),
            r.x == if self.w < 0 { self.x + self.w } else { self.x as int },
            r.y == if self.h < 0 { self.y + self.h } else { self.y as int },
            r.scale_milli == self.scale_milli,
    {
        let (mut x, mut y, mut w, mut h) = (self.x, self.y, self.w, self.h);
        if w < 0 {
            x = x + w;
            w = -w;
        }
        if h < 0 {
            y = y + h;
            h = -h;
        }
        Region { x, y, w, h, scale_milli: self.scale_milli }
    }
}

/// The rectangle `(x0, y0, x1, y1)` shaped from the drag start and the current
/// point under the Shift (square) and Alt (centred on the start) modifiers.
pub open spec fn shaped_rect(start: (i32, i32), curr: (i32, i32), shift: bool, alt: bool) -> IntRect {
    let sx = start.0 as int;
    let sy = start.1 as int;
    let cx = curr.0 as int;
    let cy = curr.1 as int;
    let dx = cx - sx;
    let dy = cy - sy;
    let side = max_int(abs_int(dx), abs_int(dy));
    if alt && shift {
        (sx - side, sy - side, sx + side, sy + side)
    } else if alt {
        (sx - abs_int(dx), sy - abs_int(dy), sx + abs_int(dx), sy + abs_int(dy))
    } else if shift {
        (
            if dx >= 0 { sx } else { sx - side },
            if dy >= 0 { sy } else { sy - side },
            if dx >= 0 { sx + side } else { sx },
            if dy >= 0 { sy + side } else { sy },
        )
    } else {
        (min_int(sx, cx), min_int(sy, cy), max_int(sx, cx), max_int(sy, cy))
    }
}

/// A rectangle is a valid selection iff its corners differ on both axes.
pub open spec fn rect_valid(r: IntRect) -> bool {
    r.0 != r.2 && r.1 != r.3
}

/// The region built from a rectangle whose corners are ordered.
pub open spec fn rect_region(r: IntRect, scale_milli: u32) -> Region {
    Region {
        x: r.0 as i64,
        y: r.1 as i64,
        w: (r.2 - r.0) as i64,
        h: (r.3 - r.1) as i64,
        scale_milli,
    }
}

/// With Shift and Alt held, the selection is a square centred on the drag start
/// whose half-extent is the larger of the two drag distances.
pub proof fn lemma_shift_alt_centered_square(start: (i32, i32), curr: (i32, i32))
    ensures
        ({
            let r = shaped_rect(start, curr, true, true);
            let m = max_int(abs_int(curr.0 - start.0), abs_int(curr.1 - start.1));
            &&& r.2 - r.0 == r.3 - r.1
            &&& r.0 + r.2 == 2 * start.0
            &&& r.1 + r.3 == 2 * start.1
            &&& r.2 - start.0 == m
            &&& r.3 - start.1 == m
        }),
{
}

/// With Shift alone, the selection is a square: its width equals its height.
pub proof fn lemma_shift_square(start: (i32, i32), curr: (i32, i32))
    ensures
        ({
            let r = shaped_rect(start, curr, true, false);
            r.2 - r.0 == r.3 - r.1
        }),
{
}

/// Every shaping rule yields ordered corners, so the extents are never negative.
pub proof fn lemma_shaped_ordered(start: (i32, i32), curr: (i32, i32), shift: bool, alt: bool)
    ensures
        shaped_rect(start, curr, shift, alt).0 <= shaped_rect(start, curr, shift, alt).2,
        shaped_rect(start, curr, shift, alt).1 <= shaped_rect(start, curr, shift, alt).3,
{
}

/// The shaped rectangle stays within a few times the coordinate range, so its
/// corners and extents fit in `i64`.
pub proof fn lemma_shaped_bounded(start: (i32, i32), curr: (i32, i32), shift: bool, alt: bool)
    ensures
        ({
            let r = shaped_rect(start, curr, shift, alt);
            &&& -0x4_0000_0000 <= r.0 <= 0x4_0000_0000
            &&& -0x4_0000_0000 <= r.1 <= 0x4_0000_0000
            &&& -0x4_0000_0000 <= r.2 <= 0x4_0000_0000
            &&& -0x4_0000_0000 <= r.3 <= 0x4_0000_0000
        }),
{
}

/// Computes the shaped rectangle of `start` and `curr` in machine integers.
pub fn shape_rect(start: (i32, i32), curr: (i32, i32), shift: bool, alt: bool) -> (r: (
    i64,
    i64,
    i64,
    i64,
))
    ensures
        rect_int(r) == shaped_rect(start, curr, shift, alt),
{
    let sx = start.0 as i64;
    let sy = start.1 as i64;
    let cx = curr.0 as i64;
    let cy = curr.1 as i64;
    let dx = cx - sx;
    let dy = cy - sy;
    let adx = if dx < 0 {
        -dx
    } else {
        dx
    };
    let ady = if dy < 0 {
        -dy
    } else {
        dy
    };
    let side = if adx >= ady {
        adx
    } else {
        ady
    };
    if alt && shift {
        (sx - side, sy - side, sx + side, sy + side)
    } else if alt {
        (sx - adx, sy - ady, sx + adx, sy + ady)
    } else if shift {
        (
            if dx >= 0 {
                sx
            } else {
                sx - side
            },
            if dy >= 0 {
                sy
            } else {
                sy - side
            },
            if dx >= 0 {
                sx + side
            } else {
                sx
            },
            if dy >= 0 {
                sy + side
            } else {
                sy
            },
        )
    } else {
        (
            if sx <= cx {
                sx
            } else {
                cx
            },
            if sy <= cy {
                sy
            } else {
                cy
            },
            if sx >= cx {
                sx
            } else {
                cx
            },
            if sy >= cy {
                sy
            } else {
                cy
            },
        )
    }
}


/// Minimum spacing between two ordinary redraw requests, in microseconds.
pub const REDRAW_INTERVAL_US: u64 = 16_000;

/// Redraw requests that may fire inside one spacing interval during a burst of input.
pub const REDRAW_BURST: u32 = 3;

/// Quiet time after which the burst budget is refilled, in microseconds.
pub const IDLE_REFILL_US: u64 = 250_000;

/// Time after which the burst budget is refilled while dragging, in microseconds.
pub const DRAG_REFILL_US: u64 = 48_000;

/// Every field of the selection state that callers see.
#[derive(Debug, Clone, Copy)]
pub struct SelectionCore {
    pub dragging: bool,
    pub start: (i32, i32),
    pub curr: (i32, i32),
    pub last_cursor_pos: (i32, i32),
    pub result: Option<Region>,
    pub shift_down: bool,
    pub alt_down: bool,
    pub redraw_pending: bool,
    pub force_redraw: bool,
    pub virtual_bounds: Option<(i32, i32, u32, u32)>,
    pub last_redraw_us: u64,
    pub redraw_budget: u32,
}

/// The rectangle that the state's points and modifiers shape.
pub open spec fn current_rect(s: SelectionCore) -> IntRect {
    shaped_rect(s.start, s.curr, s.shift_down, s.alt_down)
}

/// Time since the last redraw request; a clock reading before it counts as none.
pub open spec fn since_last_redraw(s: SelectionCore, now_us: u64) -> int {
    if now_us >= s.last_redraw_us {
        now_us - s.last_redraw_us
    } else {
        0
    }
}

/// Whether a redraw request at `now_us` is held back: a forced redraw never is;
/// otherwise a pending request coalesces it, and inside the spacing interval it
/// needs burst budget.
pub open spec fn redraw_throttled(s: SelectionCore, now_us: u64) -> bool {
    !s.force_redraw && (s.redraw_pending || (since_last_redraw(s, now_us)
        < REDRAW_INTERVAL_US && s.redraw_budget == 0))
}

/// The burst budget after a redraw request at `now_us`.
pub open spec fn budget_after_request(s: SelectionCore, now_us: u64) -> u32 {
    let e = since_last_redraw(s, now_us);
    if s.force_redraw {
        s.redraw_budget
    } else if e < REDRAW_INTERVAL_US {
        if s.redraw_budget > 0 {
            (s.redraw_budget - 1) as u32
        } else {
            0
        }
    } else if e >= IDLE_REFILL_US || (s.dragging && e >= DRAG_REFILL_US) {
        REDRAW_BURST
    } else {
        s.redraw_budget
    }
}

/// The state of a new session: idle at the origin, no modifiers, no result,
/// nothing pending and a full burst budget.
pub open spec fn initial_core(virtual_bounds: Option<(i32, i32, u32, u32)>) -> SelectionCore {
    SelectionCore {
        dragging: false,
        start: (0, 0),
        curr: (0, 0),
        last_cursor_pos: (0, 0),
        result: None,
        shift_down: false,
        alt_down: false,
        redraw_pending: false,
        force_redraw: false,
        virtual_bounds,
        last_redraw_us: 0,
        redraw_budget: REDRAW_BURST,
    }
}

/// The selection state of one session. Every mutation goes through a method, and
/// each one that touches the points or modifiers drops the cached rectangle.
pub struct SelectionState {
    core: SelectionCore,
    cached_rect: (i64, i64, i64, i64),
    cache_valid: bool,
}

impl View for SelectionState {
    type V = SelectionCore;

    closed spec fn view(&self) -> SelectionCore {
        self.core
    }
}

impl SelectionState {
    #[verifier::type_invariant]
    spec fn cache_coherent(&self) -> bool {
        self.cache_valid ==> rect_int(self.cached_rect) == current_rect(self.core)
    }

    /// A fresh state: idle at the origin, no modifiers, no result, full burst budget.
    pub fn new(virtual_bounds: Option<(i32, i32, u32, u32)>) -> (s: SelectionState)
        ensures
            s@ == initial_core(virtual_bounds),
    {
        SelectionState {
            core: SelectionCore {
                dragging: false,
                start: (0, 0),
                curr: (0, 0),
                last_cursor_pos: (0, 0),
                result: None,
                shift_down: false,
                alt_down: false,
                redraw_pending: false,
                force_redraw: false,
                virtual_bounds,
                last_redraw_us: 0,
                redraw_budget: REDRAW_BURST,
            },
            cached_rect: (0, 0, 0, 0),
            cache_valid: false,
        }
    }

    /// A copy of every visible field.
    pub fn snapshot(&self) -> (r: SelectionCore)
        ensures
            r == self@,
    {
        self.core
    }

    pub fn dragging(&self) -> (r: bool)
        ensures
            r == self@.dragging,
    {
        self.core.dragging
    }

    pub fn start(&self) -> (r: (i32, i32))
        ensures
            r == self@.start,
    {
        self.core.start
    }

    pub fn curr(&self) -> (r: (i32, i32))
        ensures
            r == self@.curr,
    {
        self.core.curr
    }

    pub fn result(&self) -> (r: Option<Region>)
        ensures
            r == self@.result,
    {
        self.core.result
    }

    pub fn virtual_bounds(&self) -> (r: Option<(i32, i32, u32, u32)>)
        ensures
            r == self@.virtual_bounds,
    {
        self.core.virtual_bounds
    }

    pub fn redraw_pending(&self) -> (r: bool)
        ensures
            r == self@.redraw_pending,
    {
        self.core.redraw_pending
    }

    /// Drops the cached rectangle; the visible state is unchanged.
    pub fn invalidate_cache(&mut self)
        ensures
            final(self)@ == old(self)@,
    {
        proof {
            use_type_invariant(&*self);
        }
        self.cache_valid = false;
    }

    pub fn set_start(&mut self, p: (i32, i32))
        ensures
            final(self)@ == (SelectionCore { start: p, ..old(self)@ }),
    {
        proof {
            use_type_invariant(&*self);
        }
        self.cache_valid = false;
        self.core.start = p;
    }

    pub fn set_curr(&mut self, p: (i32, i32))
        ensures
            final(self)@ == (SelectionCore { curr: p, ..old(self)@ }),
    {
        proof {
            use_type_invariant(&*self);
        }
        self.cache_valid = false;
        self.core.curr = p;
    }

    pub fn set_last_cursor_pos(&mut self, p: (i32, i32))
        ensures
            final(self)@ == (SelectionCore { last_cursor_pos: p, ..old(self)@ }),
    {
        proof {
            use_type_invariant(&*self);
        }
        self.core.last_cursor_pos = p;
    }

    pub fn set_dragging(&mut self, dragging: bool)
        ensures
            final(self)@ == (SelectionCore { dragging, ..old(self)@ }),
    {
        proof {
            use_type_invariant(&*self);
        }
        self.core.dragging = dragging;
    }

    pub fn set_shift_down(&mut self, down: bool)
        ensures
            final(self)@ == (SelectionCore { shift_down: down, ..old(self)@ }),
    {
        proof {
            use_type_invariant(&*self);
        }
        self.cache_valid = false;
        self.core.shift_down = down;
    }

    pub fn set_alt_down(&mut self, down: bool)
        ensures
            final(self)@ == (SelectionCore { alt_down: down, ..old(self)@ }),
    {
        proof {
            use_type_invariant(&*self);
        }
        self.cache_valid = false;
        self.core.alt_down = down;
    }

    pub fn set_result(&mut self, result: Option<Region>)
        ensures
            final(self)@ == (SelectionCore { result, ..old(self)@ }),
    {
        proof {
            use_type_invariant(&*self);
        }
        self.core.result = result;
    }

    pub fn set_redraw_pending(&mut self, pending: bool)
        ensures
            final(self)@ == (SelectionCore { redraw_pending: pending, ..old(self)@ }),
    {
        proof {
            use_type_invariant(&*self);
        }
        self.core.redraw_pending = pending;
    }

    /// Asks that the next redraw request pass both limiters.
    pub fn request_force_redraw(&mut self)
        ensures
            final(self)@ == (SelectionCore { force_redraw: true, ..old(self)@ }),
    {
        proof {
            use_type_invariant(&*self);
        }
        self.core.force_redraw = true;
    }

    /// The current selection rectangle `(x0, y0, x1, y1)`, served from the cache
    /// while no point or modifier has changed.
    pub fn calculate_selection_rect(&mut self) -> (r: (i64, i64, i64, i64))
        ensures
            final(self)@ == old(self)@,
            rect_int(r) == current_rect(old(self)@),
    {
        proof {
            use_type_invariant(&*self);
        }
        if self.cache_valid {
            return self.cached_rect;
        }
        let r = shape_rect(self.core.start, self.core.curr, self.core.shift_down, self.core.alt_down);
        self.cached_rect = r;
        self.cache_valid = true;
        r
    }

    /// Whether the current rectangle has a non-zero extent on both axes.
    pub fn has_valid_selection(&mut self) -> (r: bool)
        ensures
            final(self)@ == old(self)@,
            r == rect_valid(current_rect(old(self)@)),
    {
        proof {
            use_type_invariant(&*self);
        }
        let (sx, sy, ex, ey) = self.calculate_selection_rect();
        sx != ex && sy != ey
    }

    /// The current selection as a region with the given scale, or `None` when it
    /// is not valid.
    pub fn to_region(&mut self, scale_milli: u32) -> (r: Option<Region>)
        ensures
            final(self)@ == old(self)@,
            r == if rect_valid(current_rect(old(self)@)) {
                Some(rect_region(current_rect(old(self)@), scale_milli))
            } else {
                None::<Region>
            },
    {
        proof {
            use_type_invariant(&*self);
        }
        if !self.has_valid_selection() {
            return None;
        }
        let (sx, sy, ex, ey) = self.calculate_selection_rect();
        proof {
            lemma_shaped_ordered(self@.start, self@.curr, self@.shift_down, self@.alt_down);
        }
        Some(Region { x: sx, y: sy, w: ex - sx, h: ey - sy, scale_milli })
    }

    /// Whether a redraw request at `now_us` (microseconds on the session clock)
    /// must be held back.
    pub fn should_throttle_redraw(&self, now_us: u64) -> (r: bool)
        ensures
            r == redraw_throttled(self@, now_us),
    {
        if self.core.force_redraw {
            return false;
        }
        if self.core.redraw_pending {
            return true;
        }
        let elapsed = if now_us >= self.core.last_redraw_us {
            now_us - self.core.last_redraw_us
        } else {
            0
        };
        elapsed < REDRAW_INTERVAL_US && self.core.redraw_budget == 0
    }

    /// Records a redraw request sent at `now_us`: it is pending until drawn, a
    /// forced request is spent, and the burst budget is charged or refilled.
    pub fn mark_redraw_requested(&mut self, now_us: u64)
        ensures
            final(self)@ == (SelectionCore {
                redraw_pending: true,
                force_redraw: false,
                last_redraw_us: now_us,
                redraw_budget: budget_after_request(old(self)@, now_us),
                ..old(self)@
            }),
    {
        proof {
            use_type_invariant(&*self);
        }
        let elapsed = if now_us >= self.core.last_redraw_us {
            now_us - self.core.last_redraw_us
        } else {
            0
        };
        if self.core.force_redraw {
        } else if elapsed < REDRAW_INTERVAL_US {
            if self.core.redraw_budget > 0 {
                self.core.redraw_budget = self.core.redraw_budget - 1;
            }
        } else if elapsed >= IDLE_REFILL_US || (self.core.dragging && elapsed >= DRAG_REFILL_US) {
            self.core.redraw_budget = REDRAW_BURST;
        }
        self.core.redraw_pending = true;
        self.core.force_redraw = false;
        self.core.last_redraw_us = now_us;
    }

    /// Clears the pending mark once the redraw has happened.
    pub fn clear_redraw_pending(&mut self)
        ensures
            final(self)@ == (SelectionCore { redraw_pending: false, ..old(self)@ }),
    {
        proof {
            use_type_invariant(&*self);
        }
        self.core.redraw_pending = false;
    }
}

} // verus!
