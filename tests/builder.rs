use glutin::{HidpiFactor, MonitorId, NativeMonitorId, PlatformAttributes, Window, WindowBuilder};

fn monitor(w: u32, h: u32) -> MonitorId {
    MonitorId::new(Some("main".to_string()), NativeMonitorId::Numeric(1), (w, h))
}

#[test]
fn default_dimensions_without_monitor() {
    let b = WindowBuilder::new().with_title("x").with_visibility(false);
    let w = b.build().unwrap();
    assert_eq!(w.get_inner_size(), Some((1024, 768)));
}

#[test]
fn fullscreen_takes_monitor_dimensions() {
    let w = WindowBuilder::new().with_fullscreen(monitor(2560, 1440)).build().unwrap();
    assert_eq!(w.get_inner_size(), Some((2560, 1440)));
}

#[test]
fn explicit_dimensions_win_over_fullscreen() {
    let w = WindowBuilder::new()
        .with_fullscreen(monitor(2560, 1440))
        .with_dimensions(640, 480)
        .build()
        .unwrap();
    assert_eq!(w.get_inner_size(), Some((640, 480)));
    let w = WindowBuilder::new()
        .with_dimensions(640, 480)
        .with_fullscreen(monitor(2560, 1440))
        .build()
        .unwrap();
    assert_eq!(w.get_inner_size(), Some((640, 480)));
}

#[test]
fn build_with_dimensions_and_title() {
    let w = WindowBuilder::new().with_dimensions(800, 600).with_title("t").build().unwrap();
    assert_eq!(w.get_inner_size_points(), Some((800, 600)));
    assert_eq!(w.get_position(), Some((0, 0)));
}

#[test]
fn build_strict_matches_build() {
    let w = WindowBuilder::new().with_dimensions(300, 200).build_strict().unwrap();
    assert_eq!(w.get_inner_size(), Some((300, 200)));
}

#[test]
fn builder_records_each_request() {
    let b = WindowBuilder::new()
        .with_min_dimensions(10, 20)
        .with_max_dimensions(1000, 2000)
        .with_title("hello")
        .with_visibility(false)
        .with_transparency(true)
        .with_decorations(false)
        .with_multitouch();
    assert_eq!(b.window.min_dimensions, Some((10, 20)));
    assert_eq!(b.window.max_dimensions, Some((1000, 2000)));
    assert_eq!(b.window.title, "hello");
    assert!(!b.window.visible);
    assert!(b.window.transparent);
    assert!(!b.window.decorations);
    assert!(b.window.multitouch);
    assert_eq!(b.window.dimensions, None);
}

#[test]
fn builder_defaults() {
    let b = WindowBuilder::new();
    assert_eq!(b.window.dimensions, None);
    assert!(b.window.visible);
    assert!(b.window.decorations);
    assert!(!b.window.transparent);
    assert!(!b.window.multitouch);
    assert!(b.window.monitor.is_none());
    assert_eq!(b.window.title, "glutin window");
}

#[test]
fn window_new_and_default() {
    let w = Window::new().unwrap();
    assert_eq!(w.get_inner_size(), Some((1024, 768)));
    let d = Window::default();
    assert_eq!(d.get_inner_size(), Some((1024, 768)));
}

#[test]
fn outer_size_adds_frame_when_decorated() {
    let platform = PlatformAttributes {
        hidpi: HidpiFactor::normal(),
        frame: (8, 30),
        origin: (-100, 50),
    };
    let w = WindowBuilder::new()
        .with_dimensions(800, 600)
        .with_platform_attributes(platform)
        .build()
        .unwrap();
    assert_eq!(w.get_outer_size(), Some((808, 630)));
    assert_eq!(w.get_position(), Some((-100, 50)));
    let w = WindowBuilder::new()
        .with_dimensions(800, 600)
        .with_decorations(false)
        .with_platform_attributes(platform)
        .build()
        .unwrap();
    assert_eq!(w.get_outer_size(), Some((800, 600)));
}

#[test]
fn outer_size_saturates() {
    let platform = PlatformAttributes {
        hidpi: HidpiFactor::normal(),
        frame: (10, 10),
        origin: (0, 0),
    };
    let w = WindowBuilder::new()
        .with_dimensions(u32::MAX - 5, 7)
        .with_platform_attributes(platform)
        .build()
        .unwrap();
    assert_eq!(w.get_outer_size(), Some((u32::MAX, 17)));
}
