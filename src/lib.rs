//! A windowing abstraction: a builder that resolves a window descriptor, a window
//! whose state is a plain-value model of the native window, event queues read by a
//! polling and a waiting view, a thread-safe wakeup handle, and monitor enumeration.
pub mod hidpi;
pub mod monitor;
pub mod events;
pub mod window;

pub use events::{CreationError, CursorState, Event, MouseCursor};
pub use hidpi::HidpiFactor;
pub use monitor::{
    get_available_monitors, get_primary_monitor, AvailableMonitorsIter, MonitorId, NativeMonitorId,
};
pub use window::{
    PlatformAttributes, PollEventsIterator, WaitEventsIterator, Window, WindowAttributes,
    WindowBuilder, WindowProxy,
};
