//! The selection session: the per-monitor window registry and the orchestrator
//! that turns window events into state changes and loop actions.
use vstd::prelude::*;
use crate::background::{cached_after, tinted_byte, BackgroundProcessor, ImageCache};
use crate::events::{
    clamp_i32, key_step, logical_coord, mouse_step, moved_beyond, window_shows_selection, ElementState,
    EventHandler, EventResult, Key, MouseButton,
};
use crate::geometry::abs_int;
use crate::pacing::{frame_due, FrameTimer};
use crate::selection::{
    budget_after_request, current_rect, initial_core, rect_region, rect_valid, redraw_throttled, Region, SelectionCore,
    SelectionState, UNIT_SCALE_MILLI,
};

verus! {

/// Failures of a selection session.
#[derive(Debug, Clone)]
pub enum OverlayError {
    /// The user cancelled.
    Cancelled,
    /// The event loop or the surfaces could not be set up.
    Internal(String),
}

/// Where a window covering one display sits and how large it is; the scale is
/// in thousandths and is positive.
#[derive(Debug, Clone, Copy, PartialEq, Eq, Structural)]
pub struct WindowPlacement {
    pub id: u64,
    pub virtual_x: i32,
    pub virtual_y: i32,
    pub width: u32,
    pub height: u32,
    pub scale_milli: u32,
}

/// Every window's scale is positive.
pub open spec fn placements_valid(ws: Seq<WindowPlacement>) -> bool {
    forall|i: int| 0 <= i < ws.len() ==> (#[trigger] ws[i]).scale_milli > 0
}

/// `i` is the first window with the given identity.
pub open spec fn is_first_window(ws: Seq<WindowPlacement>, id: u64, i: int) -> bool {
    0 <= i < ws.len() && ws[i].id == id && forall|j: int| 0 <= j < i ==> (#[trigger] ws[j]).id != id
}

/// The windows created for the session, one per display that got one.
pub struct WindowManager {
    pub windows: Vec<WindowPlacement>,
}

impl WindowManager {
    pub fn new() -> (r: WindowManager)
        ensures
            r.windows@ == Seq::<WindowPlacement>::empty(),
    {
        WindowManager { windows: Vec::new() }
    }

    /// Records the window created for a display.
    pub fn register(&mut self, placement: WindowPlacement)
        ensures
            final(self).windows@ == old(self).windows@.push(placement),
    {
        self.windows.push(placement);
    }

    /// The index of the first window with the given identity.
    pub fn find_window_index(&self, window_id: u64) -> (r: Option<usize>)
        ensures
            r is Some ==> is_first_window(self.windows@, window_id, r->Some_0 as int),
            r is None ==> forall|j: int| 0 <= j < self.windows@.len() ==> (#[trigger] self.windows@[j]).id != window_id,
    {
        let mut i: usize = 0;
        while i < self.windows.len()
            invariant
                0 <= i <= self.windows@.len(),
                forall|j: int| 0 <= j < i ==> (#[trigger] self.windows@[j]).id != window_id,
            decreases self.windows@.len() - i,
        {
            if self.windows[i].id == window_id {
                return Some(i);
            }
            i = i + 1;
        }
        None
    }

    pub fn has_windows(&self) -> (r: bool)
        ensures
            r == (self.windows@.len() > 0),
    {
        self.windows.len() > 0
    }

    /// A session can go on only if at least one window was created.
    pub fn ensure_usable(&self) -> (r: Result<(), OverlayError>)
        ensures
            r is Ok <==> self.windows@.len() > 0,
            r is Err ==> r->Err_0 is Internal,
    {
        if self.windows.len() == 0 {
            Err(OverlayError::Internal(String::from_str("no window could be created for any display")))
        } else {
            Ok(())
        }
    }
}

/// A window event, in the units of the session: positions in whole physical
/// pixels, scales in thousandths.
#[derive(Debug, Clone, Copy, PartialEq, Eq, Structural)]
pub enum WindowEvent {
    CloseRequested,
    KeyboardInput { key: Key, state: ElementState },
    CursorMoved { x: i32, y: i32 },
    ScaleFactorChanged { scale_milli: u32 },
    Resized { width: u32, height: u32 },
    RedrawRequested,
    MouseInput { button: MouseButton, state: ElementState },
    Other,
}

/// A scale change is to a positive scale.
pub open spec fn event_valid(ev: WindowEvent) -> bool {
    match ev {
        WindowEvent::ScaleFactorChanged { scale_milli } => scale_milli > 0,
        _ => true,
    }
}

/// What the event loop must do after an event.
#[derive(Debug, Clone, Copy, PartialEq, Eq, Structural)]
pub enum AppAction {
    Nothing,
    /// Ask every window to redraw.
    RedrawAll,
    /// Draw the window at this index now.
    Render(usize),
    /// Leave the loop; the state's result is the session's outcome.
    Exit,
}

/// What one window needs to draw the current frame.
#[derive(Debug, Clone, Copy)]
pub struct RenderData {
    pub selection_rect: (i64, i64, i64, i64),
    pub selection_exists: bool,
    pub window_needs_selection: bool,
}

/// Overlay colour of the dimmed backdrop: black at half opacity.
pub const OVERLAY_BG_COLOR: [u8; 4] = [0, 0, 0, 128];

/// Target frame rate of the session.
pub const TARGET_FPS: u32 = 60;

/// The state after a redraw request is sent at `now_us`.
pub open spec fn marked(s: SelectionCore, now_us: u64) -> SelectionCore {
    SelectionCore {
        redraw_pending: true,
        force_redraw: false,
        last_redraw_us: now_us,
        redraw_budget: budget_after_request(s, now_us),
        ..s
    }
}

/// Whether a redraw request at `now_us` goes out: a forced one always does;
/// otherwise the frame pacer must let a frame through and the throttle must not
/// hold it back.
pub open spec fn redraw_granted(s: SelectionCore, last_frame: Option<u64>, interval: u64, now_us: u64) -> bool {
    s.force_redraw || (frame_due(last_frame, interval, now_us) && !redraw_throttled(s, now_us))
}

/// The result of asking for a redraw: the state, the pacer's last frame, and the action.
pub open spec fn redraw_step(s: SelectionCore, last_frame: Option<u64>, interval: u64, now_us: u64) -> (
    SelectionCore,
    Option<u64>,
    AppAction,
) {
    let f = if s.force_redraw {
        last_frame
    } else if frame_due(last_frame, interval, now_us) {
        Some(now_us)
    } else {
        last_frame
    };
    if redraw_granted(s, last_frame, interval, now_us) {
        (marked(s, now_us), f, AppAction::RedrawAll)
    } else {
        (s, f, AppAction::Nothing)
    }
}

/// Redraw requests coalesce: once a request has gone out, no further request
/// goes out until the redraw has happened (or a redraw is forced), whatever the
/// pacer and the clock say.
pub proof fn lemma_redraws_coalesce(s: SelectionCore, sent_us: u64, last_frame: Option<u64>, interval: u64, now_us: u64)
    ensures
        !redraw_granted(marked(s, sent_us), last_frame, interval, now_us),
        redraw_step(marked(s, sent_us), last_frame, interval, now_us).0 == marked(s, sent_us),
        redraw_step(marked(s, sent_us), last_frame, interval, now_us).2 == AppAction::Nothing,
{
}

/// The scale recorded with a confirmed region: one in a virtual desktop, else the window's.
pub open spec fn region_scale(s: SelectionCore, w: WindowPlacement) -> u32 {
    if s.virtual_bounds.is_some() {
        UNIT_SCALE_MILLI
    } else {
        w.scale_milli
    }
}

/// The result of acting on what the event handler returned.
pub open spec fn dispatch_step(
    s: SelectionCore,
    er: EventResult,
    last_frame: Option<u64>,
    interval: u64,
    now_us: u64,
    w: WindowPlacement,
) -> (SelectionCore, Option<u64>, AppAction) {
    match er {
        EventResult::Continue(true) => redraw_step(s, last_frame, interval, now_us),
        EventResult::Continue(false) => (s, last_frame, AppAction::Nothing),
        EventResult::Exit => (s, last_frame, AppAction::Exit),
        EventResult::Finish => if rect_valid(current_rect(s)) {
            (
                SelectionCore { result: Some(rect_region(current_rect(s), region_scale(s, w))), ..s },
                last_frame,
                AppAction::Exit,
            )
        } else {
            (s, last_frame, AppAction::Nothing)
        },
    }
}

/// The point that a cursor position in window `w` stands for.
pub open spec fn cursor_point(s: SelectionCore, w: WindowPlacement, x: i32, y: i32) -> (i32, i32) {
    if s.virtual_bounds.is_some() {
        (clamp_i32(w.virtual_x + x), clamp_i32(w.virtual_y + y))
    } else {
        (
            clamp_i32(logical_coord(x as int, w.scale_milli as int)),
            clamp_i32(logical_coord(y as int, w.scale_milli as int)),
        )
    }
}

/// One window event at window `idx` (placed as `w`): the new state, the pacer's
/// last frame, the window's new placement and the action.
pub open spec fn event_step(
    s: SelectionCore,
    last_frame: Option<u64>,
    interval: u64,
    idx: usize,
    w: WindowPlacement,
    ev: WindowEvent,
    now_us: u64,
) -> (SelectionCore, Option<u64>, WindowPlacement, AppAction) {
    match ev {
        WindowEvent::CloseRequested => (SelectionCore { result: None, ..s }, last_frame, w, AppAction::Exit),
        WindowEvent::KeyboardInput { key, state } => {
            let (s1, er) = key_step(s, key, state);
            let (s2, f2, a) = dispatch_step(s1, er, last_frame, interval, now_us, w);
            (s2, f2, w, a)
        },
        WindowEvent::MouseInput { button, state } => {
            let (s1, er) = mouse_step(s, button, state);
            let (s2, f2, a) = dispatch_step(s1, er, last_frame, interval, now_us, w);
            (s2, f2, w, a)
        },
        WindowEvent::CursorMoved { x, y } => {
            let p = cursor_point(s, w, x, y);
            if moved_beyond(s.last_cursor_pos, p, s.dragging) {
                let s1 = SelectionCore { curr: p, last_cursor_pos: p, ..s };
                if s.dragging {
                    let (s2, f2, a) = redraw_step(s1, last_frame, interval, now_us);
                    (s2, f2, w, a)
                } else {
                    (s1, last_frame, w, AppAction::Nothing)
                }
            } else {
                (s, last_frame, w, AppAction::Nothing)
            }
        },
        WindowEvent::ScaleFactorChanged { scale_milli } => {
            let (s2, f2, a) = redraw_step(s, last_frame, interval, now_us);
            (s2, f2, WindowPlacement { scale_milli, ..w }, a)
        },
        WindowEvent::Resized { width, height } => {
            let (s2, f2, a) = redraw_step(s, last_frame, interval, now_us);
            (s2, f2, WindowPlacement { width, height, ..w }, a)
        },
        WindowEvent::RedrawRequested => (
            SelectionCore { redraw_pending: false, ..s },
            last_frame,
            w,
            AppAction::Render(idx),
        ),
        WindowEvent::Other => (s, last_frame, w, AppAction::Nothing),
    }
}

/// A valid selection always makes a region with a positive width and height.
pub proof fn lemma_valid_region_nonempty(s: SelectionCore, scale_milli: u32)
    requires
        rect_valid(current_rect(s)),
    ensures
        rect_region(current_rect(s), scale_milli).w > 0,
        rect_region(current_rect(s), scale_milli).h > 0,
{
    crate::selection::lemma_shaped_ordered(s.start, s.curr, s.shift_down, s.alt_down);
    crate::selection::lemma_shaped_bounded(s.start, s.curr, s.shift_down, s.alt_down);
}

/// No event ever confirms a zero-area region: whenever an event sets a result,
/// that region has a positive width and height.
pub proof fn lemma_confirmed_region_nonempty(
    s: SelectionCore,
    last_frame: Option<u64>,
    interval: u64,
    idx: usize,
    w: WindowPlacement,
    ev: WindowEvent,
    now_us: u64,
)
    ensures
        ({
            let r = event_step(s, last_frame, interval, idx, w, ev, now_us).0.result;
            r is Some && r != s.result ==> r->Some_0.w > 0 && r->Some_0.h > 0
        }),
{
    match ev {
        WindowEvent::KeyboardInput { key, state } => {
            let (s1, er) = key_step(s, key, state);
            if er == EventResult::Finish && rect_valid(current_rect(s1)) {
                lemma_valid_region_nonempty(s1, region_scale(s1, w));
            }
        },
        WindowEvent::MouseInput { button, state } => {
            let (s1, er) = mouse_step(s, button, state);
            if er == EventResult::Finish && rect_valid(current_rect(s1)) {
                lemma_valid_region_nonempty(s1, region_scale(s1, w));
            }
        },
        _ => {},
    }
}

/// The orchestrator of one selection session.
pub struct SelectionApp {
    pub window_manager: WindowManager,
    pub bg: Option<Vec<u8>>,
    pub bg_w: u32,
    pub bg_h: u32,
    pub bg_tinted: Option<Vec<u8>>,
    pub overlay_color: [u8; 4],
    pub state: SelectionState,
    pub image_cache: ImageCache,
    pub frame_timer: FrameTimer,
}

impl SelectionApp {
    /// A session over an optional RGBA background of `bg_w` x `bg_h` pixels;
    /// with `virtual_bounds` the selection is in virtual-desktop coordinates.
    pub fn new(bg_rgba: Option<Vec<u8>>, bg_w: u32, bg_h: u32, virtual_bounds: Option<(i32, i32, u32, u32)>) -> (r: SelectionApp)
        ensures
            r.window_manager.windows@.len() == 0,
            r.bg == bg_rgba,
            r.bg_w == bg_w,
            r.bg_h == bg_h,
            r.bg_tinted is None,
            r.overlay_color == OVERLAY_BG_COLOR,
            r.state@ == initial_core(virtual_bounds),
            !r.image_cache@.initialized,
            r.frame_timer.last_frame() is None,
    {
        let state = SelectionState::new(virtual_bounds);
        SelectionApp {
            window_manager: WindowManager::new(),
            bg: bg_rgba,
            bg_w,
            bg_h,
            bg_tinted: None,
            overlay_color: OVERLAY_BG_COLOR,
            state,
            image_cache: ImageCache::new(),
            frame_timer: FrameTimer::new(TARGET_FPS),
        }
    }

    /// Tints the background once per session and fills the image cache from it;
    /// once both exist, later calls change nothing.
    pub fn ensure_backgrounds_and_cache(&mut self)
        ensures
            final(self).window_manager == old(self).window_manager,
            final(self).bg == old(self).bg,
            final(self).state@ == old(self).state@,
            final(self).frame_timer == old(self).frame_timer,
            old(self).bg_tinted is Some ==> final(self).bg_tinted == old(self).bg_tinted,
            old(self).bg_tinted is None ==> (final(self).bg_tinted is Some <==> (old(self).bg is Some
                && old(self).bg->Some_0@.len() > 0 && old(self).bg_w > 0 && old(self).bg_h > 0)),
            old(self).bg_tinted is None && final(self).bg_tinted is Some ==> (forall|i: int|
                0 <= i < old(self).bg->Some_0@.len() ==> #[trigger] final(self).bg_tinted->Some_0@[i]
                    == tinted_byte(old(self).bg->Some_0@, old(self).overlay_color@, i))
                && final(self).bg_tinted->Some_0@.len() == old(self).bg->Some_0@.len(),
            final(self).image_cache@ == if final(self).bg_tinted is Some && final(self).bg is Some {
                cached_after(old(self).image_cache@, final(self).bg->Some_0@, final(self).bg_tinted->Some_0@)
            } else {
                old(self).image_cache@
            },
    {
        if self.bg_tinted.is_none() {
            match &self.bg {
                Some(bg) => {
                    if bg.len() > 0 && self.bg_w > 0 && self.bg_h > 0 {
                        self.bg_tinted = Some(BackgroundProcessor::tint_background(bg.as_slice(), self.overlay_color));
                    }
                },
                None => {},
            }
        }
        match (&self.bg, &self.bg_tinted) {
            (Some(bg), Some(tinted)) => {
                self.image_cache.ensure_images_cached(bg.as_slice(), tinted.as_slice(), self.bg_w, self.bg_h);
            },
            _ => {},
        }
    }

    /// Asks for a redraw of every window at `now_us`; returns whether the request
    /// goes out.
    pub fn request_redraw_all(&mut self, now_us: u64) -> (r: bool)
        ensures
            ({
                let (s2, f2, a) = redraw_step(
                    old(self).state@,
                    old(self).frame_timer.last_frame(),
                    old(self).frame_timer.interval(),
                    now_us,
                );
                &&& final(self).state@ == s2
                &&& final(self).frame_timer.last_frame() == f2
                &&& r == (a == AppAction::RedrawAll)
            }),
            final(self).frame_timer.interval() == old(self).frame_timer.interval(),
            final(self).window_manager == old(self).window_manager,
            final(self).bg == old(self).bg,
            final(self).bg_tinted == old(self).bg_tinted,
            final(self).image_cache@ == old(self).image_cache@,
    {
        if self.state.snapshot().force_redraw {
            self.state.mark_redraw_requested(now_us);
            return true;
        }
        if !self.frame_timer.should_render_at(now_us) {
            return false;
        }
        if self.state.should_throttle_redraw(now_us) {
            return false;
        }
        self.state.mark_redraw_requested(now_us);
        true
    }

    /// The region that confirming now yields at the given window: the selection
    /// with scale one in a virtual desktop, else with the window's scale.
    pub fn create_region(&mut self, window_index: usize) -> (r: Option<Region>)
        requires
            window_index < old(self).window_manager.windows@.len(),
        ensures
            final(self).state@ == old(self).state@,
            final(self).frame_timer == old(self).frame_timer,
            final(self).window_manager == old(self).window_manager,
            final(self).bg == old(self).bg,
            final(self).bg_tinted == old(self).bg_tinted,
            final(self).image_cache@ == old(self).image_cache@,
            r == if rect_valid(current_rect(old(self).state@)) {
                Some(
                    rect_region(
                        current_rect(old(self).state@),
                        region_scale(old(self).state@, old(self).window_manager.windows@[window_index as int]),
                    ),
                )
            } else {
                None::<Region>
            },
    {
        let scale_out = if self.state.virtual_bounds().is_some() {
            UNIT_SCALE_MILLI
        } else {
            self.window_manager.windows[window_index].scale_milli
        };
        self.state.to_region(scale_out)
    }

    fn dispatch(&mut self, window_index: usize, er: EventResult, now_us: u64) -> (r: AppAction)
        requires
            window_index < old(self).window_manager.windows@.len(),
        ensures
            ({
                let (s2, f2, a) = dispatch_step(
                    old(self).state@,
                    er,
                    old(self).frame_timer.last_frame(),
                    old(self).frame_timer.interval(),
                    now_us,
                    old(self).window_manager.windows@[window_index as int],
                );
                &&& final(self).state@ == s2
                &&& final(self).frame_timer.last_frame() == f2
                &&& r == a
            }),
            final(self).frame_timer.interval() == old(self).frame_timer.interval(),
            final(self).window_manager == old(self).window_manager,
            final(self).bg == old(self).bg,
            final(self).bg_tinted == old(self).bg_tinted,
            final(self).image_cache@ == old(self).image_cache@,
    {
        if er == EventResult::Exit {
            AppAction::Exit
        } else if er == EventResult::Finish {
            let region = self.create_region(window_index);
            if region.is_some() {
                self.state.set_result(region);
                AppAction::Exit
            } else {
                AppAction::Nothing
            }
        } else if er == EventResult::Continue(true) {
            let granted = self.request_redraw_all(now_us);
            if granted {
                AppAction::RedrawAll
            } else {
                AppAction::Nothing
            }
        } else {
            AppAction::Nothing
        }
    }

    /// Handles an event of the window at `window_index` at time `now_us`.
    pub fn handle_window_event(&mut self, window_index: usize, event: WindowEvent, now_us: u64) -> (r: AppAction)
        requires
            window_index < old(self).window_manager.windows@.len(),
            placements_valid(old(self).window_manager.windows@),
            event_valid(event),
        ensures
            ({
                let (s2, f2, w2, a) = event_step(
                    old(self).state@,
                    old(self).frame_timer.last_frame(),
                    old(self).frame_timer.interval(),
                    window_index,
                    old(self).window_manager.windows@[window_index as int],
                    event,
                    now_us,
                );
                &&& final(self).state@ == s2
                &&& final(self).frame_timer.last_frame() == f2
                &&& final(self).window_manager.windows@ == old(self).window_manager.windows@.update(
                    window_index as int,
                    w2,
                )
                &&& r == a
            }),
            placements_valid(final(self).window_manager.windows@),
            final(self).frame_timer.interval() == old(self).frame_timer.interval(),
            final(self).bg == old(self).bg,
            final(self).bg_tinted == old(self).bg_tinted,
            final(self).image_cache@ == old(self).image_cache@,
    {
        let w = self.window_manager.windows[window_index];
        assert(self.window_manager.windows@ == self.window_manager.windows@.update(window_index as int, w));
        match event {
            WindowEvent::CloseRequested => {
                self.state.set_result(None);
                AppAction::Exit
            },
            WindowEvent::KeyboardInput { key, state } => {
                let er = EventHandler::handle_keyboard_event(&mut self.state, key, state);
                self.dispatch(window_index, er, now_us)
            },
            WindowEvent::MouseInput { button, state } => {
                let er = EventHandler::handle_mouse_input(&mut self.state, button, state);
                self.dispatch(window_index, er, now_us)
            },
            WindowEvent::CursorMoved { x, y } => {
                let p = EventHandler::convert_cursor_position(
                    (x, y),
                    w.virtual_x,
                    w.virtual_y,
                    self.state.virtual_bounds(),
                    w.scale_milli,
                );
                if EventHandler::handle_cursor_moved(&mut self.state, p) {
                    if self.request_redraw_all(now_us) {
                        AppAction::RedrawAll
                    } else {
                        AppAction::Nothing
                    }
                } else {
                    AppAction::Nothing
                }
            },
            WindowEvent::ScaleFactorChanged { scale_milli } => {
                self.window_manager.windows.set(window_index, WindowPlacement { scale_milli, ..w });
                if self.request_redraw_all(now_us) {
                    AppAction::RedrawAll
                } else {
                    AppAction::Nothing
                }
            },
            WindowEvent::Resized { width, height } => {
                self.window_manager.windows.set(window_index, WindowPlacement { width, height, ..w });
                if self.request_redraw_all(now_us) {
                    AppAction::RedrawAll
                } else {
                    AppAction::Nothing
                }
            },
            WindowEvent::RedrawRequested => {
                self.state.clear_redraw_pending();
                AppAction::Render(window_index)
            },
            WindowEvent::Other => AppAction::Nothing,
        }
    }

    /// Handles an event addressed to a window identity: an unknown window is
    /// ignored, otherwise the event goes to the first window with that identity.
    pub fn on_window_event(&mut self, window_id: u64, event: WindowEvent, now_us: u64) -> (r: AppAction)
        requires
            placements_valid(old(self).window_manager.windows@),
            event_valid(event),
        ensures
            (forall|j: int| 0 <= j < old(self).window_manager.windows@.len()
                ==> (#[trigger] old(self).window_manager.windows@[j]).id != window_id) ==> {
                &&& r == AppAction::Nothing
                &&& final(self).state@ == old(self).state@
                &&& final(self).window_manager.windows@ == old(self).window_manager.windows@
                &&& final(self).frame_timer.last_frame() == old(self).frame_timer.last_frame()
            },
            forall|i: int| #[trigger]
                is_first_window(old(self).window_manager.windows@, window_id, i) ==> ({
                    let (s2, f2, w2, a) = event_step(
                        old(self).state@,
                        old(self).frame_timer.last_frame(),
                        old(self).frame_timer.interval(),
                        i as usize,
                        old(self).window_manager.windows@[i],
                        event,
                        now_us,
                    );
                    &&& final(self).state@ == s2
                    &&& final(self).frame_timer.last_frame() == f2
                    &&& final(self).window_manager.windows@ == old(self).window_manager.windows@.update(i, w2)
                    &&& r == a
                }),
            placements_valid(final(self).window_manager.windows@),
            final(self).frame_timer.interval() == old(self).frame_timer.interval(),
            final(self).bg == old(self).bg,
            final(self).bg_tinted == old(self).bg_tinted,
            final(self).image_cache@ == old(self).image_cache@,
    {
        match self.window_manager.find_window_index(window_id) {
            Some(idx) => {
                let r = self.handle_window_event(idx, event, now_us);
                proof {
                    assert forall|i: int| #[trigger]
                        is_first_window(old(self).window_manager.windows@, window_id, i) implies i == idx as int by {
                        if i < idx as int {
                            assert(old(self).window_manager.windows@[i].id != window_id);
                        } else if i > idx as int {
                            assert(old(self).window_manager.windows@[idx as int].id != window_id);
                        }
                    }
                }
                r
            },
            None => AppAction::Nothing,
        }
    }

    /// What the window at `window_index` needs to draw the current frame: the
    /// selection rectangle, whether it is larger than one unit on both axes, and
    /// whether this window must draw it.
    pub fn prepare_render_data(&mut self, window_index: usize) -> (r: RenderData)
        requires
            window_index < old(self).window_manager.windows@.len(),
        ensures
            final(self).state@ == old(self).state@,
            ({
                let rect = current_rect(old(self).state@);
                let w = old(self).window_manager.windows@[window_index as int];
                let exists = abs_int(rect.2 - rect.0) > 1 && abs_int(rect.3 - rect.1) > 1;
                &&& (r.selection_rect.0 as int, r.selection_rect.1 as int, r.selection_rect.2 as int, r.selection_rect.3 as int) == rect
                &&& r.selection_exists == exists
                &&& r.window_needs_selection == (exists && window_shows_selection(
                    old(self).state@,
                    w.virtual_x,
                    w.virtual_y,
                    w.width,
                    w.height,
                ))
            }),
    {
        let (x0, y0, x1, y1) = self.state.calculate_selection_rect();
        proof {
            crate::selection::lemma_shaped_ordered(self.state@.start, self.state@.curr, self.state@.shift_down, self.state@.alt_down);
        }
        let selection_exists = x1 - x0 > 1 && y1 - y0 > 1;
        let w = self.window_manager.windows[window_index];
        let window_needs_selection = WindowRenderer::should_render_selection(
            selection_exists,
            &mut self.state,
            w.virtual_x,
            w.virtual_y,
            w.width,
            w.height,
        );
        RenderData { selection_rect: (x0, y0, x1, y1), selection_exists, window_needs_selection }
    }
}

/// Decides, per window, whether the selection is drawn there.
pub struct WindowRenderer;

impl WindowRenderer {
    /// A window draws the selection iff one exists and, in a virtual desktop,
    /// it overlaps the window.
    pub fn should_render_selection(
        selection_exists: bool,
        state: &mut SelectionState,
        window_virtual_x: i32,
        window_virtual_y: i32,
        window_width: u32,
        window_height: u32,
    ) -> (r: bool)
        ensures
            final(state)@ == old(state)@,
            r == (selection_exists && (old(state)@.virtual_bounds.is_none() || window_shows_selection(
                old(state)@,
                window_virtual_x,
                window_virtual_y,
                window_width,
                window_height,
            ))),
    {
        if !selection_exists {
            return false;
        }
        if state.virtual_bounds().is_some() {
            EventHandler::selection_intersects_window(state, window_virtual_x, window_virtual_y, window_width, window_height)
        } else {
            true
        }
    }
}

} // verus!
