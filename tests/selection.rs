use ui_overlay::selection::{Region, SelectionState, REDRAW_BURST};

#[test]
fn test_calculate_selection_rect_normal() {
    let mut state = SelectionState::new(None);
    state.set_start((100, 100));
    state.set_curr((200, 200));
    let (x0, y0, x1, y1) = state.calculate_selection_rect();
    assert_eq!((x0, y0, x1, y1), (100, 100, 200, 200));
}

#[test]
fn test_calculate_selection_rect_with_shift() {
    let mut state = SelectionState::new(None);
    state.set_start((100, 100));
    state.set_curr((200, 150));
    state.set_shift_down(true);
    let (x0, y0, x1, y1) = state.calculate_selection_rect();
    assert_eq!(x1 - x0, y1 - y0);
}

#[test]
fn test_has_valid_selection() {
    let mut state = SelectionState::new(None);
    state.set_start((100, 100));
    state.set_curr((100, 100));
    state.invalidate_cache();
    assert!(!state.has_valid_selection());
    state.set_curr((200, 200));
    state.invalidate_cache();
    assert!(state.has_valid_selection());
}

#[test]
fn test_throttle_redraw() {
    let mut state = SelectionState::new(None);
    state.set_redraw_pending(true);
    assert!(state.should_throttle_redraw(0));
    state.set_redraw_pending(false);
    assert!(!state.should_throttle_redraw(20_000));
}

#[test]
fn plain_drag_up_left_orders_corners() {
    let mut state = SelectionState::new(None);
    state.set_start((200, 300));
    state.set_curr((50, 120));
    assert_eq!(state.calculate_selection_rect(), (50, 120, 200, 300));
}

#[test]
fn shift_alt_square_is_centred_on_start() {
    let mut state = SelectionState::new(None);
    state.set_start((100, 100));
    state.set_curr((130, 90));
    state.set_shift_down(true);
    state.set_alt_down(true);
    assert_eq!(state.calculate_selection_rect(), (70, 70, 130, 130));
}

#[test]
fn alt_rect_is_centred_on_start() {
    let mut state = SelectionState::new(None);
    state.set_start((100, 100));
    state.set_curr((130, 90));
    state.set_alt_down(true);
    assert_eq!(state.calculate_selection_rect(), (70, 90, 130, 110));
}

#[test]
fn shift_square_grows_toward_drag_direction() {
    let mut state = SelectionState::new(None);
    state.set_start((100, 100));
    state.set_curr((50, 80));
    state.set_shift_down(true);
    assert_eq!(state.calculate_selection_rect(), (50, 50, 100, 100));
    state.set_curr((120, 40));
    assert_eq!(state.calculate_selection_rect(), (100, 40, 160, 100));
}

#[test]
fn cache_follows_modifier_changes() {
    let mut state = SelectionState::new(None);
    state.set_start((10, 10));
    state.set_curr((40, 20));
    assert_eq!(state.calculate_selection_rect(), (10, 10, 40, 20));
    state.set_shift_down(true);
    assert_eq!(state.calculate_selection_rect(), (10, 10, 40, 40));
    state.set_shift_down(false);
    assert_eq!(state.calculate_selection_rect(), (10, 10, 40, 20));
}

#[test]
fn to_region_builds_normalized_region() {
    let mut state = SelectionState::new(None);
    state.set_start((150, 120));
    state.set_curr((50, 50));
    assert_eq!(state.to_region(2000), Some(Region::new(50, 50, 100, 70, 2000)));
    state.set_curr((150, 10));
    assert_eq!(state.to_region(1000), None);
}

#[test]
fn region_norm_flips_negative_extents() {
    let r = Region::new(100, 50, -30, -20, 1000).norm();
    assert_eq!(r, Region::new(70, 30, 30, 20, 1000));
    let s = Region::new(1, 2, 3, 4, 1500).norm();
    assert_eq!(s, Region::new(1, 2, 3, 4, 1500));
}

#[test]
fn burst_budget_and_force_flag() {
    let mut state = SelectionState::new(None);
    // inside the spacing interval the burst budget lets requests through
    for i in 0..REDRAW_BURST {
        assert!(!state.should_throttle_redraw(1_000 + i as u64));
        state.mark_redraw_requested(1_000 + i as u64);
        state.clear_redraw_pending();
    }
    assert_eq!(state.snapshot().redraw_budget, 0);
    assert!(state.should_throttle_redraw(2_000));
    // a forced redraw passes and costs nothing
    state.request_force_redraw();
    assert!(!state.should_throttle_redraw(2_000));
    state.mark_redraw_requested(2_000);
    assert_eq!(state.snapshot().redraw_budget, 0);
    assert!(!state.snapshot().force_redraw);
    // a pending request holds the next one back
    assert!(state.should_throttle_redraw(100_000));
    state.clear_redraw_pending();
    // after a quiet period the budget is refilled
    assert!(!state.should_throttle_redraw(400_000));
    state.mark_redraw_requested(400_000);
    assert_eq!(state.snapshot().redraw_budget, REDRAW_BURST);
}
