use glutin::{get_available_monitors, get_primary_monitor, MonitorId, NativeMonitorId};

fn snapshot() -> Vec<MonitorId> {
    vec![
        MonitorId::new(Some("left".to_string()), NativeMonitorId::Numeric(4), (1920, 1080)),
        MonitorId::new(None, NativeMonitorId::Name("HDMI-1".to_string()), (1280, 1024)),
        MonitorId::new(Some("right".to_string()), NativeMonitorId::Unavailable, (3840, 2160)),
    ]
}

#[test]
fn enumeration_serves_each_monitor_once_then_ends() {
    let mut it = get_available_monitors(snapshot());
    assert_eq!(it.size_hint(), (3, Some(3)));
    let first = it.next().unwrap();
    assert_eq!(first.get_name(), Some("left".to_string()));
    assert_eq!(first.get_native_identifier(), NativeMonitorId::Numeric(4));
    assert_eq!(first.get_dimensions(), (1920, 1080));
    let second = it.next().unwrap();
    assert_eq!(second.get_name(), None);
    assert_eq!(second.get_native_identifier(), NativeMonitorId::Name("HDMI-1".to_string()));
    let third = it.next().unwrap();
    assert_eq!(third.get_dimensions(), (3840, 2160));
    assert!(it.next().is_none());
    assert!(it.next().is_none());
    assert_eq!(it.size_hint(), (0, Some(0)));
}

#[test]
fn enumeration_of_nothing_is_empty() {
    let mut it = get_available_monitors(Vec::new());
    assert!(it.next().is_none());
}

#[test]
fn snapshots_are_independent() {
    let mut a = get_available_monitors(snapshot());
    let b = get_available_monitors(snapshot());
    a.next();
    assert_eq!(b.into_vec().len(), 3);
    assert_eq!(a.into_vec().len(), 2);
}

#[test]
fn primary_monitor_is_listed_first() {
    let all = snapshot();
    let p = get_primary_monitor(&all);
    assert_eq!(p.get_name(), Some("left".to_string()));
    assert_eq!(p.get_dimensions(), (1920, 1080));
}
