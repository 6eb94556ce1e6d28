use glutin::{CursorState, Event, HidpiFactor, MouseCursor, PlatformAttributes, Window, WindowBuilder};

fn window_with_hidpi(num: u32, den: u32, w: u32, h: u32) -> Window {
    let platform = PlatformAttributes {
        hidpi: HidpiFactor::new(num, den).unwrap(),
        frame: (0, 0),
        origin: (0, 0),
    };
    WindowBuilder::new().with_dimensions(w, h).with_platform_attributes(platform).build().unwrap()
}

#[test]
fn inner_size_pixels_doubles_on_dense_display() {
    let w = window_with_hidpi(2, 1, 800, 600);
    assert_eq!(w.get_inner_size_pixels(), Some((1600, 1200)));
    assert_eq!(w.hidpi_factor().num(), 2);
    assert_eq!(w.hidpi_factor().den(), 1);
}

#[test]
fn inner_size_pixels_truncates() {
    let w = window_with_hidpi(3, 2, 801, 601);
    assert_eq!(w.get_inner_size_pixels(), Some((1201, 901)));
    let f = 1.5f32;
    assert_eq!(((801.0f32 * f) as u32, (601.0f32 * f) as u32), (1201, 901));
}

#[test]
fn inner_size_pixels_saturates() {
    let w = window_with_hidpi(4, 1, u32::MAX / 2, 10);
    assert_eq!(w.get_inner_size_pixels(), Some((u32::MAX, 40)));
}

#[test]
fn hidpi_factor_rejects_zero_denominator() {
    assert!(HidpiFactor::new(1, 0).is_none());
    assert!(HidpiFactor::new(0, 1).is_none());
    assert!(HidpiFactor::new(0, 0).is_none());
    assert_eq!(HidpiFactor::new(3, 2).unwrap().to_pixels(5), 7);
}

#[test]
fn sizes_absent_after_close() {
    let mut w = window_with_hidpi(2, 1, 100, 100);
    w.push_event(Event::Closed);
    assert_eq!(w.get_inner_size(), None);
    assert_eq!(w.get_inner_size_points(), None);
    assert_eq!(w.get_inner_size_pixels(), None);
    assert_eq!(w.get_outer_size(), None);
    assert_eq!(w.get_position(), None);
}

#[test]
fn setters_apply_while_open() {
    let mut w = Window::new().unwrap();
    w.set_title("new title");
    w.set_position(-20, 40);
    w.set_inner_size(320, 240);
    w.hide_window();
    w.show();
    w.set_cursor(MouseCursor::Hand);
    assert_eq!(w.get_position(), Some((-20, 40)));
    assert_eq!(w.get_inner_size(), Some((320, 240)));
    assert_eq!(w.set_cursor_position(5, 6), Ok(()));
    assert_eq!(w.set_cursor_state(CursorState::Grab), Ok(()));
}

#[test]
fn setters_do_nothing_after_close() {
    let mut w = Window::new().unwrap();
    w.push_event(Event::Closed);
    w.set_title("ignored");
    w.set_position(1, 2);
    w.set_inner_size(3, 4);
    w.show();
    w.hide_window();
    assert_eq!(w.get_position(), None);
    assert_eq!(w.get_inner_size(), None);
}

#[test]
fn cursor_requests_fail_after_close() {
    let mut w = Window::new().unwrap();
    w.push_event(Event::Closed);
    assert_eq!(w.set_cursor_position(1, 1), Err(()));
    assert_eq!(
        w.set_cursor_state(CursorState::Hide),
        Err("the window no longer exists".to_string())
    );
}

#[test]
fn platform_events_update_state() {
    let mut w = Window::new().unwrap();
    w.push_event(Event::Resized(640, 400));
    w.push_event(Event::Moved(7, -9));
    w.push_event(Event::MouseMoved(3, 4));
    assert_eq!(w.get_inner_size(), Some((640, 400)));
    assert_eq!(w.get_position(), Some((7, -9)));
    let mut it = w.poll_events();
    assert_eq!(it.size_hint(), (3, Some(3)));
    assert_eq!(it.next(), Some(Event::Resized(640, 400)));
    assert_eq!(it.next(), Some(Event::Moved(7, -9)));
    assert_eq!(it.next(), Some(Event::MouseMoved(3, 4)));
    assert_eq!(it.next(), None);
}

#[test]
fn events_after_close_are_dropped() {
    let mut w = Window::new().unwrap();
    w.push_event(Event::Closed);
    w.push_event(Event::Refresh);
    let mut it = w.poll_events();
    assert_eq!(it.next(), Some(Event::Closed));
    assert_eq!(it.next(), None);
}

#[test]
fn new_window_has_default_state() {
    let w = Window::new().unwrap();
    assert_eq!(w.hidpi_factor(), HidpiFactor::normal());
    assert_eq!(w.get_position(), Some((0, 0)));
    assert_eq!(w.get_outer_size(), Some((1024, 768)));
    assert_eq!(w.get_inner_size_pixels(), Some((1024, 768)));
}
