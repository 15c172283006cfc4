use ui_overlay::events::{ElementState, EventHandler, EventResult, Key, MouseButton};
use ui_overlay::selection::SelectionState;

#[test]
fn test_handle_mouse_input_press() {
    let mut state = SelectionState::new(None);
    state.set_curr((100, 100));
    let result = EventHandler::handle_mouse_input(&mut state, MouseButton::Left, ElementState::Pressed);
    assert!(state.dragging());
    assert_eq!(state.start(), (100, 100));
    assert!(matches!(result, EventResult::Continue(true)));
}

#[test]
fn test_handle_mouse_input_release_with_selection() {
    let mut state = SelectionState::new(None);
    state.set_dragging(true);
    state.set_start((100, 100));
    state.set_curr((200, 200));
    let result = EventHandler::handle_mouse_input(&mut state, MouseButton::Left, ElementState::Released);
    assert!(!state.dragging());
    assert!(matches!(result, EventResult::Continue(true)));
}

#[test]
fn test_convert_cursor_position_virtual() {
    let virtual_bounds = Some((0, 0, 1920, 1080));
    let (x, y) = EventHandler::convert_cursor_position((50, 60), 100, 200, virtual_bounds, 2000);
    assert_eq!((x, y), (150, 260));
}

#[test]
fn test_handle_cursor_moved_with_threshold() {
    let mut state = SelectionState::new(None);
    state.set_curr((100, 100));
    state.set_last_cursor_pos((100, 100));
    state.set_dragging(true);
    let result = EventHandler::handle_cursor_moved(&mut state, (101, 101));
    assert!(!result);
    let result = EventHandler::handle_cursor_moved(&mut state, (110, 110));
    assert!(result);
}

#[test]
fn idle_moves_use_the_larger_threshold_and_ask_no_redraw() {
    let mut state = SelectionState::new(None);
    assert!(!EventHandler::handle_cursor_moved(&mut state, (6, 8)));
    assert_eq!(state.curr(), (0, 0));
    assert!(!EventHandler::handle_cursor_moved(&mut state, (8, 8)));
    assert_eq!(state.curr(), (8, 8));
}

#[test]
fn convert_cursor_position_logical_divides_by_scale() {
    let (x, y) = EventHandler::convert_cursor_position((300, 101), 100, 200, None, 2000);
    assert_eq!((x, y), (150, 50));
    let (x, y) = EventHandler::convert_cursor_position((-30, 45), 0, 0, None, 1500);
    assert_eq!((x, y), (-20, 30));
}

#[test]
fn escape_cancels_and_clears_result() {
    let mut state = SelectionState::new(None);
    state.set_result(Some(ui_overlay::selection::Region::new(1, 2, 3, 4, 1000)));
    let r = EventHandler::handle_keyboard_event(&mut state, Key::Escape, ElementState::Pressed);
    assert_eq!(r, EventResult::Exit);
    assert_eq!(state.result(), None);
}

#[test]
fn arrows_nudge_current_point() {
    let mut state = SelectionState::new(None);
    state.set_curr((10, 10));
    let r = EventHandler::handle_keyboard_event(&mut state, Key::ArrowLeft, ElementState::Pressed);
    assert_eq!(r, EventResult::Continue(true));
    EventHandler::handle_keyboard_event(&mut state, Key::ArrowDown, ElementState::Pressed);
    EventHandler::handle_keyboard_event(&mut state, Key::ArrowDown, ElementState::Pressed);
    EventHandler::handle_keyboard_event(&mut state, Key::ArrowRight, ElementState::Released);
    assert_eq!(state.curr(), (9, 12));
    state.set_curr((i32::MAX, i32::MIN));
    EventHandler::handle_keyboard_event(&mut state, Key::ArrowRight, ElementState::Pressed);
    EventHandler::handle_keyboard_event(&mut state, Key::ArrowUp, ElementState::Pressed);
    assert_eq!(state.curr(), (i32::MAX, i32::MIN));
}

#[test]
fn enter_confirms_only_valid_selection() {
    let mut state = SelectionState::new(None);
    state.set_start((5, 5));
    state.set_curr((5, 40));
    let r = EventHandler::handle_keyboard_event(&mut state, Key::Enter, ElementState::Pressed);
    assert_eq!(r, EventResult::Continue(false));
    state.set_curr((6, 40));
    let r = EventHandler::handle_keyboard_event(&mut state, Key::Enter, ElementState::Pressed);
    assert_eq!(r, EventResult::Finish);
}

#[test]
fn modifier_change_forces_redraw() {
    let mut state = SelectionState::new(None);
    let r = EventHandler::handle_keyboard_event(&mut state, Key::Shift, ElementState::Released);
    assert_eq!(r, EventResult::Continue(true));
    assert!(!state.snapshot().force_redraw);
    EventHandler::handle_keyboard_event(&mut state, Key::Alt, ElementState::Pressed);
    assert!(state.snapshot().alt_down);
    assert!(state.snapshot().force_redraw);
}

#[test]
fn selection_intersects_window_only_where_it_overlaps() {
    let mut state = SelectionState::new(Some((0, 0, 3840, 1080)));
    state.set_start((1800, 100));
    state.set_curr((1900, 200));
    assert!(EventHandler::selection_intersects_window(&mut state, 0, 0, 1920, 1080));
    assert!(!EventHandler::selection_intersects_window(&mut state, 1920, 0, 1920, 1080));
    state.set_curr((1801, 101));
    assert!(!EventHandler::selection_intersects_window(&mut state, 0, 0, 1920, 1080));
    let mut single = SelectionState::new(None);
    single.set_curr((50, 50));
    assert!(EventHandler::selection_intersects_window(&mut single, 5000, 5000, 10, 10));
}

#[test]
fn release_without_area_asks_no_redraw() {
    let mut state = SelectionState::new(None);
    state.set_curr((30, 30));
    EventHandler::handle_mouse_input(&mut state, MouseButton::Left, ElementState::Pressed);
    let r = EventHandler::handle_mouse_input(&mut state, MouseButton::Left, ElementState::Released);
    assert_eq!(r, EventResult::Continue(false));
    let r = EventHandler::handle_mouse_input(&mut state, MouseButton::Right, ElementState::Pressed);
    assert_eq!(r, EventResult::Continue(false));
    assert!(!state.dragging());
}

#[test]
fn cursor_round_trip_in_virtual_mode_ignores_scale() {
    let (vx, vy) = (1920, -600);
    let (x, y) = (2100, -250);
    let local = (x - vx, y - vy);
    assert_eq!(EventHandler::convert_cursor_position(local, vx, vy, Some((0, -600, 3840, 1680)), 0), (x, y));
    assert_eq!(EventHandler::convert_cursor_position(local, vx, vy, Some((0, -600, 3840, 1680)), 1500), (x, y));
}
