use ui_overlay::pacing::FrameTimer;

#[test]
fn test_frame_timer_throttling() {
    let mut timer = FrameTimer::new(60);
    let first_render = timer.should_render();
    assert!(first_render);
    let second_render = timer.should_render();
    assert!(!second_render);
}

#[test]
fn frame_timer_paces_to_interval() {
    let mut timer = FrameTimer::new(60);
    assert!(timer.should_render_at(5_000));
    assert!(!timer.should_render_at(5_000));
    assert!(!timer.should_render_at(21_665));
    assert!(timer.should_render_at(21_666));
    assert!(!timer.should_render_at(1_000));
}

#[test]
fn test_frame_timer_basic() {
    let mut timer = FrameTimer::new(60);
    assert!(timer.should_render());
    assert!(!timer.should_render());
    let waited = std::time::Instant::now();
    while waited.elapsed() < std::time::Duration::from_millis(17) {}
    assert!(timer.should_render());
}
