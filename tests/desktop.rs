use ui_overlay::desktop::{physical_layout, DesktopError, DisplayInfo, MonitorLayout, VirtualDesktop};

fn display(id: u32, x: i32, y: i32, width: u32, height: u32, primary: bool, scale_milli: u32) -> DisplayInfo {
    DisplayInfo { id, name: format!("Display {}", id), is_primary: primary, x, y, width, height, scale_milli }
}

fn three_displays() -> VirtualDesktop {
    VirtualDesktop::from_displays(vec![
        display(1, 0, 0, 1920, 1080, true, 1000),
        display(2, 1920, 0, 1920, 1080, false, 1000),
        display(3, 0, -600, 1280, 600, false, 2000),
    ])
    .unwrap()
}

#[test]
fn virtual_bounds_are_tight_union() {
    let d = three_displays();
    let b = d.total_bounds;
    assert_eq!((b.min_x, b.min_y), (0, -600));
    assert_eq!((b.max_x, b.max_y), (3840, 1080));
    assert_eq!((b.width, b.height), (3840, 1680));
}

#[test]
fn no_displays_is_an_error() {
    assert!(matches!(VirtualDesktop::from_displays(vec![]), Err(DesktopError::NoDisplays)));
}

#[test]
fn find_display_at_point() {
    let d = three_displays();
    assert_eq!(d.find_display_at(100, 100).unwrap().id, 1);
    assert_eq!(d.find_display_at(1920, 0).unwrap().id, 2);
    assert_eq!(d.find_display_at(10, -1).unwrap().id, 3);
    assert!(d.find_display_at(2000, -1).is_none());
    assert_eq!(d.primary_display().unwrap().id, 1);
}

#[test]
fn displays_in_region_uses_overlap() {
    let d = three_displays();
    let ids: Vec<u32> = d.displays_in_region(1200, -10, 800, 20).iter().map(|x| x.id).collect();
    assert_eq!(ids, vec![1, 2, 3]);
    let ids: Vec<u32> = d.displays_in_region(1920, 0, 10, 10).iter().map(|x| x.id).collect();
    assert_eq!(ids, vec![2]);
    assert!(d.displays_in_region(1280, -600, 100, 600).is_empty());
}

#[test]
fn coordinates_relative_to_display() {
    let d = three_displays();
    let disp = &d.displays[2];
    assert_eq!(d.virtual_to_display_coords(disp, 10, -500), (10, 100));
    assert_eq!(d.display_to_virtual_coords(disp, 10, 100), (10, -500));
}

#[test]
fn monitor_layouts_are_scaled_by_each_display() {
    let d = three_displays();
    let l = d.monitor_layouts();
    assert_eq!(l[0], MonitorLayout { x: 0, y: 0, width: 1920, height: 1080, scale_milli: 1000 });
    assert_eq!(l[2], MonitorLayout { x: 0, y: -1200, width: 2560, height: 1200, scale_milli: 2000 });
    let odd = physical_layout(&display(9, -3, 5, 101, 3, false, 1500));
    assert_eq!(odd, MonitorLayout { x: -5, y: 8, width: 152, height: 5, scale_milli: 1500 });
}
