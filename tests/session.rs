use ui_overlay::events::{ElementState, Key, MouseButton};
use ui_overlay::selection::Region;
use ui_overlay::session::{AppAction, SelectionApp, WindowEvent, WindowManager, WindowPlacement};

fn placement(id: u64, x: i32, y: i32, scale_milli: u32) -> WindowPlacement {
    WindowPlacement { id, virtual_x: x, virtual_y: y, width: 1920, height: 1080, scale_milli }
}

fn press(button: MouseButton) -> WindowEvent {
    WindowEvent::MouseInput { button, state: ElementState::Pressed }
}

fn release(button: MouseButton) -> WindowEvent {
    WindowEvent::MouseInput { button, state: ElementState::Released }
}

fn key(k: Key) -> WindowEvent {
    WindowEvent::KeyboardInput { key: k, state: ElementState::Pressed }
}

#[test]
fn drag_release_enter_yields_region() {
    let mut app = SelectionApp::new(None, 0, 0, None);
    app.window_manager.register(placement(7, 0, 0, 1000));
    let mut t: u64 = 0;
    let mut step = |app: &mut SelectionApp, ev: WindowEvent| {
        t += 100_000;
        app.on_window_event(7, ev, t)
    };
    step(&mut app, WindowEvent::CursorMoved { x: 50, y: 50 });
    assert_eq!(step(&mut app, press(MouseButton::Left)), AppAction::RedrawAll);
    assert_eq!(step(&mut app, WindowEvent::RedrawRequested), AppAction::Render(0));
    step(&mut app, WindowEvent::CursorMoved { x: 150, y: 120 });
    step(&mut app, WindowEvent::RedrawRequested);
    step(&mut app, release(MouseButton::Left));
    assert_eq!(app.state.result(), None);
    assert_eq!(step(&mut app, key(Key::Enter)), AppAction::Exit);
    assert_eq!(app.state.result(), Some(Region::new(50, 50, 100, 70, 1000)));
}

#[test]
fn single_window_region_carries_window_scale() {
    let mut app = SelectionApp::new(None, 0, 0, None);
    app.window_manager.register(placement(1, 0, 0, 2000));
    app.on_window_event(1, WindowEvent::CursorMoved { x: 100, y: 100 }, 1);
    app.on_window_event(1, press(MouseButton::Left), 2);
    app.on_window_event(1, WindowEvent::CursorMoved { x: 300, y: 240 }, 3);
    app.on_window_event(1, release(MouseButton::Left), 4);
    assert_eq!(app.on_window_event(1, key(Key::Enter), 5), AppAction::Exit);
    assert_eq!(app.state.result(), Some(Region::new(50, 50, 100, 70, 2000)));
}

#[test]
fn virtual_desktop_region_is_global_with_unit_scale() {
    let mut app = SelectionApp::new(None, 0, 0, Some((0, 0, 3840, 1080)));
    app.window_manager.register(placement(1, 0, 0, 1000));
    app.window_manager.register(placement(2, 1920, 0, 2000));
    app.on_window_event(2, WindowEvent::CursorMoved { x: 50, y: 50 }, 1);
    app.on_window_event(2, press(MouseButton::Left), 2);
    app.on_window_event(2, WindowEvent::CursorMoved { x: 150, y: 120 }, 3);
    app.on_window_event(2, release(MouseButton::Left), 4);
    assert_eq!(app.on_window_event(2, key(Key::Enter), 5), AppAction::Exit);
    assert_eq!(app.state.result(), Some(Region::new(1970, 50, 100, 70, 1000)));
    let data = app.prepare_render_data(0);
    assert!(data.selection_exists);
    assert!(!data.window_needs_selection);
    let data = app.prepare_render_data(1);
    assert!(data.window_needs_selection);
    assert_eq!(data.selection_rect, (1970, 50, 2070, 120));
}

#[test]
fn enter_without_selection_keeps_running() {
    let mut app = SelectionApp::new(None, 0, 0, None);
    app.window_manager.register(placement(1, 0, 0, 1000));
    assert_eq!(app.on_window_event(1, key(Key::Enter), 1), AppAction::Nothing);
    assert_eq!(app.state.result(), None);
}

#[test]
fn escape_and_close_exit_without_result() {
    let mut app = SelectionApp::new(None, 0, 0, None);
    app.window_manager.register(placement(1, 0, 0, 1000));
    assert_eq!(app.on_window_event(1, key(Key::Escape), 1), AppAction::Exit);
    assert_eq!(app.state.result(), None);
    assert_eq!(app.on_window_event(1, WindowEvent::CloseRequested, 2), AppAction::Exit);
    assert_eq!(app.state.result(), None);
}

#[test]
fn unknown_window_is_ignored() {
    let mut app = SelectionApp::new(None, 0, 0, None);
    app.window_manager.register(placement(1, 0, 0, 1000));
    assert_eq!(app.on_window_event(9, key(Key::Escape), 1), AppAction::Nothing);
    assert_eq!(app.window_manager.find_window_index(1), Some(0));
    assert_eq!(app.window_manager.find_window_index(9), None);
}

#[test]
fn resize_and_scale_change_update_placement() {
    let mut app = SelectionApp::new(None, 0, 0, None);
    app.window_manager.register(placement(1, 0, 0, 1000));
    app.on_window_event(1, WindowEvent::Resized { width: 800, height: 600 }, 1);
    app.on_window_event(1, WindowEvent::ScaleFactorChanged { scale_milli: 1250 }, 2);
    let w = app.window_manager.windows[0];
    assert_eq!((w.width, w.height, w.scale_milli), (800, 600, 1250));
}

#[test]
fn redraws_are_paced() {
    let mut app = SelectionApp::new(None, 0, 0, None);
    assert!(app.request_redraw_all(0));
    assert!(!app.request_redraw_all(1_000));
    app.state.clear_redraw_pending();
    assert!(!app.request_redraw_all(2_000));
    assert!(app.request_redraw_all(20_000));
}

#[test]
fn zero_windows_is_an_internal_error() {
    let mut m = WindowManager::new();
    assert!(m.ensure_usable().is_err());
    assert!(!m.has_windows());
    m.register(placement(3, 0, 0, 1000));
    assert!(m.ensure_usable().is_ok());
}

#[test]
fn background_is_tinted_once() {
    let mut app = SelectionApp::new(Some(vec![200, 100, 50, 255]), 1, 1, None);
    app.ensure_backgrounds_and_cache();
    let tinted = app.bg_tinted.clone().unwrap();
    assert_eq!(tinted, vec![99, 49, 24, 255]);
    app.bg = Some(vec![0, 0, 0, 0]);
    app.ensure_backgrounds_and_cache();
    assert_eq!(app.bg_tinted.clone().unwrap(), tinted);
    assert_eq!(**app.image_cache.get_tinted_image().unwrap(), tinted);
    assert_eq!(**app.image_cache.get_original_image().unwrap(), vec![200, 100, 50, 255]);
}

#[test]
fn redraw_request_coalesces_until_drawn() {
    let mut app = SelectionApp::new(None, 0, 0, None);
    app.window_manager.register(placement(1, 0, 0, 1000));
    assert!(app.request_redraw_all(100_000));
    assert!(!app.request_redraw_all(200_000));
    assert_eq!(app.on_window_event(1, WindowEvent::RedrawRequested, 210_000), AppAction::Render(0));
    assert!(app.request_redraw_all(300_000));
}

#[test]
fn modifier_toggle_bypasses_pacing() {
    let mut app = SelectionApp::new(None, 0, 0, None);
    app.window_manager.register(placement(1, 0, 0, 1000));
    assert!(app.request_redraw_all(100_000));
    let shift = WindowEvent::KeyboardInput { key: Key::Shift, state: ElementState::Pressed };
    assert_eq!(app.on_window_event(1, shift, 100_001), AppAction::RedrawAll);
    assert!(!app.state.snapshot().force_redraw);
}
