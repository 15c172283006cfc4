use ui_overlay::geometry::{check_selection_intersects_window, virtual_to_window_coords, IntersectCheck};

fn check(wx: i64, wy: i64, ww: u32, wh: u32, s: (i64, i64, i64, i64)) -> bool {
    check_selection_intersects_window(&IntersectCheck {
        window_x: wx,
        window_y: wy,
        window_w: ww,
        window_h: wh,
        selection_x0: s.0,
        selection_y0: s.1,
        selection_x1: s.2,
        selection_y1: s.3,
    })
}

#[test]
fn intersection_is_symmetric() {
    let a = (0, 0, 100, 50);
    let b = (90, 40, 200, 300);
    let c = (100, 0, 150, 50);
    assert_eq!(check(a.0, a.1, 100, 50, b), check(b.0, b.1, 110, 260, a));
    assert!(check(a.0, a.1, 100, 50, b));
    assert_eq!(check(a.0, a.1, 100, 50, c), check(c.0, c.1, 50, 50, a));
    assert!(!check(a.0, a.1, 100, 50, c));
}

#[test]
fn window_local_round_trip() {
    let (x0, y0, x1, y1) = virtual_to_window_coords(1920, -600, Some((0, -600, 3840, 1680)), 2000, -500, 2300, -100);
    assert_eq!((x0, y0, x1, y1), (80, 100, 380, 500));
    assert_eq!((x0 as i64 + 1920, y0 as i64 - 600, x1 as i64 + 1920, y1 as i64 - 600), (2000, -500, 2300, -100));
    let clamped = virtual_to_window_coords(1920, 0, Some((0, 0, 3840, 1080)), 1800, 10, 2000, 20);
    assert_eq!(clamped, (0, 10, 80, 20));
    let single = virtual_to_window_coords(1920, 0, None, 5, 6, 7, 8);
    assert_eq!(single, (5, 6, 7, 8));
}
