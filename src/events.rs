//! Maps input events onto selection-state transitions and redraw decisions.
use vstd::prelude::*;
use crate::geometry::{abs_int, area_rect, rects_overlap, IntersectCheck, check_selection_intersects_window};
use crate::selection::{current_rect, rect_valid, SelectionCore, SelectionState};

verus! {

/// The keys that the selection reacts to.
#[derive(Debug, Clone, Copy, PartialEq, Eq, Structural)]
pub enum Key {
    Escape,
    Shift,
    Alt,
    ArrowLeft,
    ArrowRight,
    ArrowUp,
    ArrowDown,
    Enter,
    Other,
}

/// Whether a key or button went down or up.
#[derive(Debug, Clone, Copy, PartialEq, Eq, Structural)]
pub enum ElementState {
    Pressed,
    Released,
}

/// Mouse buttons; only the left one drives the selection.
#[derive(Debug, Clone, Copy, PartialEq, Eq, Structural)]
pub enum MouseButton {
    Left,
    Right,
    Middle,
    Other,
}

/// What the event loop does after an event.
#[derive(Debug, Clone, Copy, PartialEq, Eq, Structural)]
pub enum EventResult {
    /// Keep running; the flag says whether a redraw is wanted.
    Continue(bool),
    /// The user cancelled.
    Exit,
    /// The user confirmed a valid selection.
    Finish,
}

/// Movement below this distance is ignored while dragging.
pub const DRAG_MOVE_THRESHOLD: i64 = 5;

/// Movement below this distance is ignored while not dragging.
pub const IDLE_MOVE_THRESHOLD: i64 = 10;

/// `v` clamped into the range of `i32`.
pub open spec fn clamp_i32(v: int) -> i32 {
    if v < i32::MIN {
        i32::MIN
    } else if v > i32::MAX {
        i32::MAX
    } else {
        v as i32
    }
}

/// The state and result after a key event.
pub open spec fn key_step(s: SelectionCore, key: Key, ks: ElementState) -> (SelectionCore, EventResult) {
    let pressed = ks == ElementState::Pressed;
    if pressed && key == Key::Escape {
        (SelectionCore { result: None, ..s }, EventResult::Exit)
    } else if key == Key::Shift {
        (
            SelectionCore {
                shift_down: pressed,
                force_redraw: s.force_redraw || s.shift_down != pressed,
                ..s
            },
            EventResult::Continue(true),
        )
    } else if key == Key::Alt {
        (
            SelectionCore {
                alt_down: pressed,
                force_redraw: s.force_redraw || s.alt_down != pressed,
                ..s
            },
            EventResult::Continue(true),
        )
    } else if pressed && key == Key::ArrowLeft {
        (SelectionCore { curr: (clamp_i32(s.curr.0 - 1), s.curr.1), ..s }, EventResult::Continue(true))
    } else if pressed && key == Key::ArrowRight {
        (SelectionCore { curr: (clamp_i32(s.curr.0 + 1), s.curr.1), ..s }, EventResult::Continue(true))
    } else if pressed && key == Key::ArrowUp {
        (SelectionCore { curr: (s.curr.0, clamp_i32(s.curr.1 - 1)), ..s }, EventResult::Continue(true))
    } else if pressed && key == Key::ArrowDown {
        (SelectionCore { curr: (s.curr.0, clamp_i32(s.curr.1 + 1)), ..s }, EventResult::Continue(true))
    } else if pressed && key == Key::Enter {
        (s, if rect_valid(current_rect(s)) { EventResult::Finish } else { EventResult::Continue(false) })
    } else {
        (s, EventResult::Continue(false))
    }
}

/// The state and result after a mouse button event.
pub open spec fn mouse_step(s: SelectionCore, button: MouseButton, bs: ElementState) -> (SelectionCore, EventResult) {
    if button == MouseButton::Left && bs == ElementState::Pressed {
        (SelectionCore { dragging: true, start: s.curr, ..s }, EventResult::Continue(true))
    } else if button == MouseButton::Left {
        let n = SelectionCore { dragging: false, ..s };
        (n, EventResult::Continue(rect_valid(current_rect(n))))
    } else {
        (s, EventResult::Continue(false))
    }
}

/// Whether the cursor moved from `last` to `p` by more than the threshold.
pub open spec fn moved_beyond(last: (i32, i32), p: (i32, i32), dragging: bool) -> bool {
    let dx = p.0 - last.0;
    let dy = p.1 - last.1;
    let t = if dragging { DRAG_MOVE_THRESHOLD } else { IDLE_MOVE_THRESHOLD };
    dx * dx + dy * dy > t * t
}

/// A physical coordinate divided by a scale given in thousandths, rounded toward zero.
pub open spec fn logical_coord(p: int, scale_milli: int) -> int {
    if p >= 0 {
        (p * 1000) / scale_milli
    } else {
        -(((-p) * 1000) / scale_milli)
    }
}

/// A virtual-desktop point moved into the window at `(vx, vy)` and converted
/// back as a cursor position of that window is the same point, at any scale.
pub proof fn lemma_cursor_round_trip(vx: i32, vy: i32, x: i32, y: i32)
    requires
        i32::MIN <= x - vx <= i32::MAX,
        i32::MIN <= y - vy <= i32::MAX,
    ensures
        clamp_i32(vx + ((x - vx) as i32)) == x,
        clamp_i32(vy + ((y - vy) as i32)) == y,
{
}

/// The stateless event-dispatch functions.
pub struct EventHandler;

impl EventHandler {
    /// Applies a key event: Escape cancels, Shift and Alt set the shaping mode
    /// (a change forces the next redraw), arrows nudge the current point by one,
    /// Enter confirms a valid selection.
    pub fn handle_keyboard_event(state: &mut SelectionState, key: Key, key_state: ElementState) -> (r: EventResult)
        ensures
            (final(state)@, r) == key_step(old(state)@, key, key_state),
    {
        let pressed = match key_state {
            ElementState::Pressed => true,
            ElementState::Released => false,
        };
        if pressed && key == Key::Escape {
            state.set_result(None);
            EventResult::Exit
        } else if key == Key::Shift {
            let was = state.snapshot().shift_down;
            state.set_shift_down(pressed);
            if was != pressed {
                state.request_force_redraw();
            }
            EventResult::Continue(true)
        } else if key == Key::Alt {
            let was = state.snapshot().alt_down;
            state.set_alt_down(pressed);
            if was != pressed {
                state.request_force_redraw();
            }
            EventResult::Continue(true)
        } else if pressed && key == Key::ArrowLeft {
            let c = state.curr();
            state.set_curr((clamp_to_i32(c.0 as i64 - 1), c.1));
            EventResult::Continue(true)
        } else if pressed && key == Key::ArrowRight {
            let c = state.curr();
            state.set_curr((clamp_to_i32(c.0 as i64 + 1), c.1));
            EventResult::Continue(true)
        } else if pressed && key == Key::ArrowUp {
            let c = state.curr();
            state.set_curr((c.0, clamp_to_i32(c.1 as i64 - 1)));
            EventResult::Continue(true)
        } else if pressed && key == Key::ArrowDown {
            let c = state.curr();
            state.set_curr((c.0, clamp_to_i32(c.1 as i64 + 1)));
            EventResult::Continue(true)
        } else if pressed && key == Key::Enter {
            if state.has_valid_selection() {
                EventResult::Finish
            } else {
                EventResult::Continue(false)
            }
        } else {
            EventResult::Continue(false)
        }
    }

    /// Applies a cursor move, ignoring moves within the threshold (smaller while
    /// dragging); returns whether a redraw is wanted, which is only while dragging.
    pub fn handle_cursor_moved(state: &mut SelectionState, new_pos: (i32, i32)) -> (r: bool)
        ensures
            moved_beyond(old(state)@.last_cursor_pos, new_pos, old(state)@.dragging) ==> {
                &&& final(state)@ == (SelectionCore {
                    curr: new_pos,
                    last_cursor_pos: new_pos,
                    ..old(state)@
                })
                &&& r == old(state)@.dragging
            },
            !moved_beyond(old(state)@.last_cursor_pos, new_pos, old(state)@.dragging) ==> {
                &&& final(state)@ == old(state)@
                &&& !r
            },
    {
        let last = state.snapshot().last_cursor_pos;
        let dx: i128 = new_pos.0 as i128 - last.0 as i128;
        let dy: i128 = new_pos.1 as i128 - last.1 as i128;
        let dragging = state.dragging();
        let t: i128 = if dragging {
            DRAG_MOVE_THRESHOLD as i128
        } else {
            IDLE_MOVE_THRESHOLD as i128
        };
        assert(0 <= dx * dx <= 0x1_0000_0000_0000_0000) by (nonlinear_arith)
            requires
                -0x1_0000_0000 <= dx <= 0x1_0000_0000,
        ;
        assert(0 <= dy * dy <= 0x1_0000_0000_0000_0000) by (nonlinear_arith)
            requires
                -0x1_0000_0000 <= dy <= 0x1_0000_0000,
        ;
        if dx * dx + dy * dy > t * t {
            state.set_curr(new_pos);
            state.set_last_cursor_pos(new_pos);
            return dragging;
        }
        false
    }

    /// Applies a mouse button event: left press starts a drag at the current point,
    /// left release ends it and keeps a valid selection on screen awaiting Enter.
    pub fn handle_mouse_input(state: &mut SelectionState, button: MouseButton, button_state: ElementState) -> (r: EventResult)
        ensures
            (final(state)@, r) == mouse_step(old(state)@, button, button_state),
    {
        match (button, button_state) {
            (MouseButton::Left, ElementState::Pressed) => {
                state.set_dragging(true);
                let c = state.curr();
                state.set_start(c);
                EventResult::Continue(true)
            },
            (MouseButton::Left, ElementState::Released) => {
                state.set_dragging(false);
                EventResult::Continue(state.has_valid_selection())
            },
            _ => EventResult::Continue(false),
        }
    }

    /// Converts a window-local physical cursor position: with a virtual desktop it
    /// is offset by the window's placement, otherwise divided by the window's scale.
    pub fn convert_cursor_position(
        position: (i32, i32),
        virtual_x: i32,
        virtual_y: i32,
        virtual_bounds: Option<(i32, i32, u32, u32)>,
        scale_milli: u32,
    ) -> (r: (i32, i32))
        requires
            virtual_bounds.is_none() ==> scale_milli > 0,
        ensures
            virtual_bounds.is_some() ==> r == (
                clamp_i32(virtual_x + position.0),
                clamp_i32(virtual_y + position.1),
            ),
            virtual_bounds.is_none() ==> r == (
                clamp_i32(logical_coord(position.0 as int, scale_milli as int)),
                clamp_i32(logical_coord(position.1 as int, scale_milli as int)),
            ),
    {
        if virtual_bounds.is_some() {
            (
                clamp_to_i32(virtual_x as i64 + position.0 as i64),
                clamp_to_i32(virtual_y as i64 + position.1 as i64),
            )
        } else {
            (
                clamp_to_i32(to_logical(position.0, scale_milli)),
                clamp_to_i32(to_logical(position.1, scale_milli)),
            )
        }
    }

    /// Whether the window at `(window_virtual_x, window_virtual_y)` with the given
    /// size must draw the selection: never for a selection at most one unit wide
    /// and high, always without a virtual desktop, else iff the two overlap.
    pub fn selection_intersects_window(
        state: &mut SelectionState,
        window_virtual_x: i32,
        window_virtual_y: i32,
        window_width: u32,
        window_height: u32,
    ) -> (r: bool)
        ensures
            final(state)@ == old(state)@,
            r == window_shows_selection(old(state)@, window_virtual_x, window_virtual_y, window_width, window_height),
    {
        let (x0, y0, x1, y1) = state.calculate_selection_rect();
        proof {
            crate::selection::lemma_shaped_ordered(state@.start, state@.curr, state@.shift_down, state@.alt_down);
        }
        if x1 - x0 <= 1 && y1 - y0 <= 1 {
            return false;
        }
        if state.virtual_bounds().is_some() {
            check_selection_intersects_window(
                &IntersectCheck {
                    window_x: window_virtual_x as i64,
                    window_y: window_virtual_y as i64,
                    window_w: window_width,
                    window_h: window_height,
                    selection_x0: x0,
                    selection_y0: y0,
                    selection_x1: x1,
                    selection_y1: y1,
                },
            )
        } else {
            true
        }
    }
}

/// Whether a window placed at `(wx, wy)` with size `w` x `h` draws the selection.
pub open spec fn window_shows_selection(s: SelectionCore, wx: i32, wy: i32, w: u32, h: u32) -> bool {
    let r = current_rect(s);
    if abs_int(r.2 - r.0) <= 1 && abs_int(r.3 - r.1) <= 1 {
        false
    } else if s.virtual_bounds.is_some() {
        rects_overlap(r, area_rect(wx as int, wy as int, w as int, h as int))
    } else {
        true
    }
}

fn clamp_to_i32(v: i64) -> (r: i32)
    ensures
        r == clamp_i32(v as int),
{
    if v < i32::MIN as i64 {
        i32::MIN
    } else if v > i32::MAX as i64 {
        i32::MAX
    } else {
        v as i32
    }
}

fn to_logical(p: i32, scale_milli: u32) -> (r: i64)
    requires
        scale_milli > 0,
    ensures
        r == logical_coord(p as int, scale_milli as int),
{
    let m: u64 = if p >= 0 {
        p as u64
    } else {
        (-(p as i64)) as u64
    };
    assert(m * 1000 <= 0x80000000 * 1000) by (nonlinear_arith)
        requires
            m <= 0x80000000,
    ;
    let q: u64 = (m * 1000) / (scale_milli as u64);
    assert(q <= m * 1000) by (nonlinear_arith)
        requires
            q == (m * 1000) / (scale_milli as int),
            scale_milli >= 1,
    ;
    if p >= 0 {
        q as i64
    } else {
        -(q as i64)
    }
}

} // verus!
