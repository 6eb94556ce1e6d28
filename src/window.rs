use std::sync::Arc;
use std::sync::atomic::{AtomicBool, Ordering};
use std::collections::VecDeque;
use vstd::prelude::*;
use crate::events::{CreationError, CursorState, Event, MouseCursor};
use crate::hidpi::{HidpiFactor, scaled};
use crate::monitor::MonitorId;

verus! {

/// The size a window gets when neither dimensions nor a fullscreen monitor were requested.
pub const DEFAULT_WIDTH: u32 = 1024;

/// See `DEFAULT_WIDTH`.
pub const DEFAULT_HEIGHT: u32 = 768;

/// Every property requested for a window before it is created.
#[derive(Debug)]
pub struct WindowAttributes {
    /// Size of the client area, in pixels.
    pub dimensions: Option<(u32, u32)>,
    pub min_dimensions: Option<(u32, u32)>,
    pub max_dimensions: Option<(u32, u32)>,
    pub title: String,
    /// The monitor to be fullscreen on.
    pub monitor: Option<MonitorId>,
    pub visible: bool,
    pub transparent: bool,
    /// Border, title bar and the like.
    pub decorations: bool,
    pub multitouch: bool,
}

impl WindowAttributes {
    /// The attributes of a window that nothing was requested for.
    pub open spec fn is_default(&self) -> bool {
        &&& self.dimensions is None
        &&& self.min_dimensions is None
        &&& self.max_dimensions is None
        &&& self.title@ == "glutin window"@
        &&& self.monitor is None
        &&& self.visible
        &&& !self.transparent
        &&& self.decorations
        &&& !self.multitouch
    }
}

impl Default for WindowAttributes {
    fn default() -> (r: WindowAttributes)
        ensures
            r.is_default(),
    {
        WindowAttributes {
            dimensions: None,
            min_dimensions: None,
            max_dimensions: None,
            title: "glutin window".to_owned(),
            monitor: None,
            visible: true,
            transparent: false,
            decorations: true,
            multitouch: false,
        }
    }
}

/// What the platform tells a new window about itself: its density of pixels, the
/// size its decorations add to the client area, and where it is placed.
#[derive(Clone, Copy, Debug)]
pub struct PlatformAttributes {
    pub hidpi: HidpiFactor,
    pub frame: (u32, u32),
    pub origin: (i32, i32),
}

impl PlatformAttributes {
    pub open spec fn is_default(&self) -> bool {
        &&& self.hidpi == HidpiFactor::one_spec()
        &&& self.frame == (0u32, 0u32)
        &&& self.origin == (0i32, 0i32)
    }
}

impl Default for PlatformAttributes {
    fn default() -> (r: PlatformAttributes)
        ensures
            r.is_default(),
    {
        PlatformAttributes { hidpi: HidpiFactor::normal(), frame: (0, 0), origin: (0, 0) }
    }
}

/// The size a window is created with: the requested dimensions, else those of the
/// fullscreen monitor, else the default size.
pub open spec fn resolved_dimensions(a: WindowAttributes) -> (u32, u32) {
    match a.dimensions {
        Some(d) => d,
        None => match a.monitor {
            Some(m) => m.dimensions,
            None => (DEFAULT_WIDTH, DEFAULT_HEIGHT),
        },
    }
}

/// `a + b`, saturated at the largest `u32`.
pub open spec fn sat_add(a: u32, b: u32) -> u32 {
    if a as int + b as int > u32::MAX as int {
        u32::MAX
    } else {
        (a + b) as u32
    }
}

fn saturating_sum(a: u32, b: u32) -> (r: u32)
    ensures
        r == sat_add(a, b),
{
    if a > u32::MAX - b {
        u32::MAX
    } else {
        a + b
    }
}


/// Configures a window, then creates it.
#[derive(Debug)]
pub struct WindowBuilder {
    pub window: WindowAttributes,
    pub platform_specific: PlatformAttributes,
}

impl WindowBuilder {
    /// A builder with nothing requested yet.
    pub fn new() -> (r: WindowBuilder)
        ensures
            r.window.is_default(),
            r.platform_specific.is_default(),
    {
        WindowBuilder { window: WindowAttributes::default(), platform_specific: PlatformAttributes::default() }
    }

    /// This builder with dimensions `width` by `height` requested.
    pub open spec fn with_dimensions_spec(self, width: u32, height: u32) -> WindowBuilder {
        WindowBuilder {
            window: WindowAttributes { dimensions: Some((width, height)), ..self.window },
            ..self
        }
    }

    /// Requests the client area to be `width` by `height` pixels.
    pub fn with_dimensions(self, width: u32, height: u32) -> (r: WindowBuilder)
        ensures
            r == self.with_dimensions_spec(width, height),
    {
        let mut b = self;
        b.window.dimensions = Some((width, height));
        b
    }

    /// Sets a minimum size for the client area, in pixels.
    pub fn with_min_dimensions(self, width: u32, height: u32) -> (r: WindowBuilder)
        ensures
            r.window == (WindowAttributes { min_dimensions: Some((width, height)), ..self.window }),
            r.platform_specific == self.platform_specific,
    {
        let mut b = self;
        b.window.min_dimensions = Some((width, height));
        b
    }

    /// Sets a maximum size for the client area, in pixels.
    pub fn with_max_dimensions(self, width: u32, height: u32) -> (r: WindowBuilder)
        ensures
            r.window == (WindowAttributes { max_dimensions: Some((width, height)), ..self.window }),
            r.platform_specific == self.platform_specific,
    {
        let mut b = self;
        b.window.max_dimensions = Some((width, height));
        b
    }

    /// Requests a title for the window.
    pub fn with_title(self, title: &str) -> (r: WindowBuilder)
        ensures
            r.window.title@ == title@,
            r.window == (WindowAttributes { title: r.window.title, ..self.window }),
            r.platform_specific == self.platform_specific,
    {
        let mut b = self;
        b.window.title = title.to_owned();
        b
    }

    /// Requests fullscreen mode on `monitor`. Without requested dimensions the
    /// window then takes the monitor's.
    pub fn with_fullscreen(self, monitor: MonitorId) -> (r: WindowBuilder)
        ensures
            r.window == (WindowAttributes { monitor: Some(monitor), ..self.window }),
            r.platform_specific == self.platform_specific,
    {
        let mut b = self;
        b.window.monitor = Some(monitor);
        b
    }

    /// Sets whether the window is initially visible.
    pub fn with_visibility(self, visible: bool) -> (r: WindowBuilder)
        ensures
            r.window == (WindowAttributes { visible: visible, ..self.window }),
            r.platform_specific == self.platform_specific,
    {
        let mut b = self;
        b.window.visible = visible;
        b
    }

    /// Sets whether the background of the window is transparent.
    pub fn with_transparency(self, transparent: bool) -> (r: WindowBuilder)
        ensures
            r.window == (WindowAttributes { transparent: transparent, ..self.window }),
            r.platform_specific == self.platform_specific,
    {
        let mut b = self;
        b.window.transparent = transparent;
        b
    }

    /// Sets whether the window has a border, a title bar and the like.
    pub fn with_decorations(self, decorations: bool) -> (r: WindowBuilder)
        ensures
            r.window == (WindowAttributes { decorations: decorations, ..self.window }),
            r.platform_specific == self.platform_specific,
    {
        let mut b = self;
        b.window.decorations = decorations;
        b
    }

    /// Enables multitouch.
    pub fn with_multitouch(self) -> (r: WindowBuilder)
        ensures
            r.window == (WindowAttributes { multitouch: true, ..self.window }),
            r.platform_specific == self.platform_specific,
    {
        let mut b = self;
        b.window.multitouch = true;
        b
    }

    /// Sets what the platform reports of the new window.
    pub fn with_platform_attributes(self, platform: PlatformAttributes) -> (r: WindowBuilder)
        ensures
            r.window == self.window,
            r.platform_specific == platform,
    {
        let mut b = self;
        b.platform_specific = platform;
        b
    }
}


/// The state of a live window, as the platform would report it.
pub struct WindowModel {
    /// Whether the native window still exists.
    pub exists: bool,
    pub title: Seq<char>,
    pub visible: bool,
    /// Top-left corner, relative to the top-left corner of the desktop.
    pub position: (i32, i32),
    /// Client area, in points.
    pub inner_size: (u32, u32),
    /// What the decorations add to the client area.
    pub frame: (u32, u32),
    pub hidpi: HidpiFactor,
    pub cursor: MouseCursor,
    pub cursor_state: CursorState,
    /// Cursor position in window coordinates.
    pub cursor_position: (i32, i32),
    /// Events not yet handed out, oldest first.
    pub events: Seq<Event>,
}

/// The state after the platform reported `e`: a resize, a move, a cursor move or
/// the window's destruction takes effect, and the event is queued. A window that
/// no longer exists takes no events.
pub open spec fn after_event(m: WindowModel, e: Event) -> WindowModel {
    if !m.exists {
        m
    } else {
        let n = WindowModel { events: m.events.push(e), ..m };
        match e {
            Event::Resized(w, h) => WindowModel { inner_size: (w, h), ..n },
            Event::Moved(x, y) => WindowModel { position: (x, y), ..n },
            Event::MouseMoved(x, y) => WindowModel { cursor_position: (x, y), ..n },
            Event::Closed => WindowModel { exists: false, ..n },
            _ => n,
        }
    }
}

/// What `get_inner_size` reports of a window in state `m`.
pub open spec fn inner_size_of(m: WindowModel) -> Option<(u32, u32)> {
    if m.exists {
        Some(m.inner_size)
    } else {
        None
    }
}

/// What `get_inner_size_pixels` reports of a window in state `m`.
pub open spec fn inner_pixels_of(m: WindowModel) -> Option<(u32, u32)> {
    if m.exists {
        Some((scaled(m.inner_size.0, m.hidpi), scaled(m.inner_size.1, m.hidpi)))
    } else {
        None
    }
}

/// A live window. It is created by `WindowBuilder::build` and owns its state alone.
pub struct Window {
    attributes: WindowAttributes,
    exists: bool,
    title: String,
    visible: bool,
    position: (i32, i32),
    inner_size: (u32, u32),
    frame: (u32, u32),
    hidpi: HidpiFactor,
    cursor: MouseCursor,
    cursor_state: CursorState,
    cursor_position: (i32, i32),
    events: VecDeque<Event>,
    wakeup: Arc<AtomicBool>,
}

impl View for Window {
    type V = WindowModel;

    closed spec fn view(&self) -> WindowModel {
        WindowModel {
            exists: self.exists,
            title: self.title@,
            visible: self.visible,
            position: self.position,
            inner_size: self.inner_size,
            frame: self.frame,
            hidpi: self.hidpi,
            cursor: self.cursor,
            cursor_state: self.cursor_state,
            cursor_position: self.cursor_position,
            events: self.events@,
        }
    }
}

impl Window {
    /// The attributes the window was created with, dimensions resolved.
    pub closed spec fn descriptor(&self) -> WindowAttributes {
        self.attributes
    }
}

/// The window that `WindowBuilder::new().build()` gives: the default attributes with
/// the default size, and the initial state of a default builder.
pub open spec fn default_window_model() -> WindowModel {
    WindowModel {
        exists: true,
        title: "glutin window"@,
        visible: true,
        position: (0i32, 0i32),
        inner_size: (DEFAULT_WIDTH, DEFAULT_HEIGHT),
        frame: (0u32, 0u32),
        hidpi: HidpiFactor::one_spec(),
        cursor: MouseCursor::Default,
        cursor_state: CursorState::Normal,
        cursor_position: (0i32, 0i32),
        events: Seq::empty(),
    }
}

impl Window {
    /// This window is what `WindowBuilder::new().build()` gives.
    pub open spec fn is_default_window(&self) -> bool {
        &&& self.descriptor().dimensions == Some((DEFAULT_WIDTH, DEFAULT_HEIGHT))
        &&& self.descriptor().min_dimensions is None
        &&& self.descriptor().max_dimensions is None
        &&& self.descriptor().title@ == "glutin window"@
        &&& self.descriptor().monitor is None
        &&& self.descriptor().visible
        &&& !self.descriptor().transparent
        &&& self.descriptor().decorations
        &&& !self.descriptor().multitouch
        &&& self@ == default_window_model()
    }
}

impl WindowBuilder {
    /// The attributes handed to the platform: the requested ones, with the
    /// dimensions resolved.
    pub open spec fn resolved(&self) -> WindowAttributes {
        WindowAttributes { dimensions: Some(resolved_dimensions(self.window)), ..self.window }
    }

    /// The state of a window just created from this builder.
    pub open spec fn initial_model(&self) -> WindowModel {
        WindowModel {
            exists: true,
            title: self.window.title@,
            visible: self.window.visible,
            position: self.platform_specific.origin,
            inner_size: resolved_dimensions(self.window),
            frame: if self.window.decorations { self.platform_specific.frame } else { (0u32, 0u32) },
            hidpi: self.platform_specific.hidpi,
            cursor: MouseCursor::Default,
            cursor_state: CursorState::Normal,
            cursor_position: (0i32, 0i32),
            events: Seq::empty(),
        }
    }

    /// Creates the window. The platform's state is modelled in memory, so creation
    /// always succeeds.
    pub fn build(self) -> (r: Result<Window, CreationError>)
        ensures
            r matches Ok(w) && w.descriptor() == self.resolved() && w@ == self.initial_model(),
    {
        let mut attributes = self.window;
        let platform = self.platform_specific;
        if attributes.dimensions.is_none() {
            match &attributes.monitor {
                Some(m) => {
                    attributes.dimensions = Some(m.get_dimensions());
                },
                None => {},
            }
        }
        if attributes.dimensions.is_none() {
            attributes.dimensions = Some((DEFAULT_WIDTH, DEFAULT_HEIGHT));
        }
        let inner_size = match attributes.dimensions {
            Some(d) => d,
            None => (DEFAULT_WIDTH, DEFAULT_HEIGHT),
        };
        let frame = if attributes.decorations { platform.frame } else { (0, 0) };
        let title = attributes.title.clone();
        let visible = attributes.visible;
        Ok(Window {
            attributes,
            exists: true,
            title,
            visible,
            position: platform.origin,
            inner_size,
            frame,
            hidpi: platform.hidpi,
            cursor: MouseCursor::Default,
            cursor_state: CursorState::Normal,
            cursor_position: (0, 0),
            events: VecDeque::new(),
            wakeup: Arc::new(AtomicBool::new(false)),
        })
    }

    /// Creates the window exactly as `build` does: the in-memory platform honours
    /// every request, so there is nothing stricter to refuse.
    pub fn build_strict(self) -> (r: Result<Window, CreationError>)
        ensures
            r matches Ok(w) && w.descriptor() == self.resolved() && w@ == self.initial_model(),
    {
        self.build()
    }
}


impl Window {
    /// Creates a window with nothing requested: `WindowBuilder::new().build()`.
    pub fn new() -> (r: Result<Window, CreationError>)
        ensures
            r matches Ok(w) && w.is_default_window(),
    {
        let builder = WindowBuilder::new();
        builder.build()
    }

    /// Modifies the title of the window; does nothing if the window no longer exists.
    pub fn set_title(&mut self, title: &str)
        ensures
            final(self)@ == (if old(self)@.exists { WindowModel { title: title@, ..old(self)@ } } else { old(self)@ }),
            final(self).descriptor() == old(self).descriptor(),
    {
        if self.exists {
            self.title = title.to_owned();
        }
    }

    /// Shows the window if it was hidden.
    pub fn show(&mut self)
        ensures
            final(self)@ == (if old(self)@.exists { WindowModel { visible: true, ..old(self)@ } } else { old(self)@ }),
            final(self).descriptor() == old(self).descriptor(),
    {
        if self.exists {
            self.visible = true;
        }
    }

    /// Hides the window if it was visible.
    pub fn hide_window(&mut self)
        ensures
            final(self)@ == (if old(self)@.exists { WindowModel { visible: false, ..old(self)@ } } else { old(self)@ }),
            final(self).descriptor() == old(self).descriptor(),
    {
        if self.exists {
            self.visible = false;
        }
    }

    /// The position of the top-left corner of the window relative to the top-left
    /// corner of the desktop; it can be negative. `None` if the window no longer exists.
    pub fn get_position(&self) -> (r: Option<(i32, i32)>)
        ensures
            r == (if self@.exists { Some(self@.position) } else { None }),
    {
        if self.exists {
            Some(self.position)
        } else {
            None
        }
    }

    /// Moves the window; does nothing if the window no longer exists.
    pub fn set_position(&mut self, x: i32, y: i32)
        ensures
            final(self)@ == (if old(self)@.exists { WindowModel { position: (x, y), ..old(self)@ } } else { old(self)@ }),
            final(self).descriptor() == old(self).descriptor(),
    {
        if self.exists {
            self.position = (x, y);
        }
    }

    /// The size in points of the client area: the window without title bar and
    /// borders. `None` if the window no longer exists.
    pub fn get_inner_size(&self) -> (r: Option<(u32, u32)>)
        ensures
            r == inner_size_of(self@),
    {
        if self.exists {
            Some(self.inner_size)
        } else {
            None
        }
    }

    /// Same as `get_inner_size`.
    pub fn get_inner_size_points(&self) -> (r: Option<(u32, u32)>)
        ensures
            r == inner_size_of(self@),
    {
        self.get_inner_size()
    }

    /// The size in pixels of the client area: each dimension in points times the
    /// pixel density, truncated. `None` if the window no longer exists.
    pub fn get_inner_size_pixels(&self) -> (r: Option<(u32, u32)>)
        ensures
            r == inner_pixels_of(self@),
    {
        match self.get_inner_size() {
            Some((x, y)) => Some((self.hidpi.to_pixels(x), self.hidpi.to_pixels(y))),
            None => None,
        }
    }

    /// The size of the window with its title bar and borders, saturated at the
    /// largest `u32`. `None` if the window no longer exists.
    pub fn get_outer_size(&self) -> (r: Option<(u32, u32)>)
        ensures
            r == (if self@.exists {
                Some((sat_add(self@.inner_size.0, self@.frame.0), sat_add(self@.inner_size.1, self@.frame.1)))
            } else {
                None
            }),
    {
        if self.exists {
            Some((saturating_sum(self.inner_size.0, self.frame.0), saturating_sum(self.inner_size.1, self.frame.1)))
        } else {
            None
        }
    }

    /// Sets the size of the client area, in points; does nothing if the window no
    /// longer exists.
    pub fn set_inner_size(&mut self, x: u32, y: u32)
        ensures
            final(self)@ == (if old(self)@.exists { WindowModel { inner_size: (x, y), ..old(self)@ } } else { old(self)@ }),
            final(self).descriptor() == old(self).descriptor(),
    {
        if self.exists {
            self.inner_size = (x, y);
        }
    }

    /// Sets the shape of the cursor over the window; does nothing if the window no
    /// longer exists.
    pub fn set_cursor(&mut self, cursor: MouseCursor)
        ensures
            final(self)@ == (if old(self)@.exists { WindowModel { cursor: cursor, ..old(self)@ } } else { old(self)@ }),
            final(self).descriptor() == old(self).descriptor(),
    {
        if self.exists {
            self.cursor = cursor;
        }
    }

    /// The ratio of pixels to points.
    pub fn hidpi_factor(&self) -> (r: HidpiFactor)
        ensures
            r == self@.hidpi,
    {
        self.hidpi
    }

    /// Moves the cursor to `(x, y)` in window coordinates. Fails if the window no
    /// longer exists.
    pub fn set_cursor_position(&mut self, x: i32, y: i32) -> (r: Result<(), ()>)
        ensures
            r is Ok <==> old(self)@.exists,
            final(self)@ == (if old(self)@.exists { WindowModel { cursor_position: (x, y), ..old(self)@ } } else { old(self)@ }),
            final(self).descriptor() == old(self).descriptor(),
    {
        if self.exists {
            self.cursor_position = (x, y);
            Ok(())
        } else {
            Err(())
        }
    }

    /// Sets how the cursor behaves over the window. Fails, with the reason, if the
    /// window no longer exists.
    pub fn set_cursor_state(&mut self, state: CursorState) -> (r: Result<(), String>)
        ensures
            r is Ok <==> old(self)@.exists,
            r matches Err(m) ==> m@ == "the window no longer exists"@,
            final(self)@ == (if old(self)@.exists { WindowModel { cursor_state: state, ..old(self)@ } } else { old(self)@ }),
            final(self).descriptor() == old(self).descriptor(),
    {
        if self.exists {
            self.cursor_state = state;
            Ok(())
        } else {
            Err("the window no longer exists".to_owned())
        }
    }

    /// Takes an event reported by the platform: its effect on the window's state
    /// is applied and it is queued for the event iterators.
    pub fn push_event(&mut self, event: Event)
        ensures
            final(self)@ == after_event(old(self)@, event),
            final(self).descriptor() == old(self).descriptor(),
    {
        if self.exists {
            self.events.push_back(event);
            match event {
                Event::Resized(w, h) => {
                    self.inner_size = (w, h);
                },
                Event::Moved(x, y) => {
                    self.position = (x, y);
                },
                Event::MouseMoved(x, y) => {
                    self.cursor_position = (x, y);
                },
                Event::Closed => {
                    self.exists = false;
                },
                _ => {},
            }
        }
    }
}


impl Default for Window {
    /// Same as `Window::new`, which never fails.
    fn default() -> (r: Window)
        ensures
            r.is_default_window(),
    {
        Window::new().unwrap()
    }
}

/// A handle that can wake a window's waiting iterator from any thread. Clones
/// share one wakeup target.
pub struct WindowProxy {
    proxy: Arc<AtomicBool>,
}

impl Window {
    /// A proxy for this window, which can be passed to other threads.
    pub fn create_window_proxy(&self) -> (r: WindowProxy)
        ensures
            r.target() == self.wakeup_target(),
    {
        WindowProxy { proxy: self.wakeup.clone() }
    }

    /// The flag through which proxies wake this window.
    pub closed spec fn wakeup_target(&self) -> AtomicBool {
        *self.wakeup
    }
}

impl Clone for WindowProxy {
    /// A proxy that wakes the same window.
    fn clone(&self) -> (r: WindowProxy)
        ensures
            r.target() == self.target(),
    {
        WindowProxy { proxy: self.proxy.clone() }
    }
}

impl WindowProxy {
    /// The flag that this proxy raises.
    pub closed spec fn target(&self) -> AtomicBool {
        *self.proxy
    }

    /// Wakes the window's waiting iterator. A wakeup that nobody waits for is
    /// kept until the next wait, and a window already dropped ignores it.
    pub fn wakeup_event_loop(&self) {
        self.proxy.store(true, Ordering::SeqCst);
    }

    /// The shared wakeup flag.
    pub fn get_proxy_data(&self) -> (r: &Arc<AtomicBool>)
        ensures
            **r == self.target(),
    {
        &self.proxy
    }

    /// A proxy that raises the given wakeup flag.
    pub fn create_proxy(data: Arc<AtomicBool>) -> (r: WindowProxy)
        ensures
            r.target() == *data,
    {
        WindowProxy { proxy: data }
    }
}


/// Hands out the queued events of a window, oldest first, without ever blocking.
pub struct PollEventsIterator<'a> {
    window: &'a mut Window,
}

impl<'a> View for PollEventsIterator<'a> {
    type V = Seq<Event>;

    /// The events still queued.
    closed spec fn view(&self) -> Seq<Event> {
        self.window@.events
    }
}

impl<'a> PollEventsIterator<'a> {
    /// The oldest queued event, or `None` at once if the queue is empty.
    pub fn next(&mut self) -> (r: Option<Event>)
        ensures
            old(self)@.len() == 0 ==> r is None && final(self)@ == old(self)@,
            old(self)@.len() > 0 ==> r == Some(old(self)@[0]) && final(self)@ == old(self)@.drop_first(),
    {
        self.window.poll_event()
    }

    /// The number of queued events, as both bounds.
    pub fn size_hint(&self) -> (r: (usize, Option<usize>))
        ensures
            r.0 == self@.len(),
            r.1 == Some(r.0),
    {
        let n = self.window.events.len();
        (n, Some(n))
    }
}

/// Hands out the events of a window, oldest first; when none is queued, the caller
/// waits for a wakeup or a new event.
pub struct WaitEventsIterator<'a> {
    window: &'a mut Window,
}

impl<'a> View for WaitEventsIterator<'a> {
    type V = Seq<Event>;

    /// The events still queued.
    closed spec fn view(&self) -> Seq<Event> {
        self.window@.events
    }
}

impl<'a> WaitEventsIterator<'a> {
    /// The oldest queued event; with none queued, `Awakened` if a proxy woke the
    /// window since the last wait (the wakeup is then used up), else `None`: the
    /// caller must block until the platform queues an event or a proxy wakes it,
    /// then ask again.
    pub fn try_next(&mut self) -> (r: Option<Event>)
        ensures
            old(self)@.len() == 0 ==> (r is None || r == Some(Event::Awakened)) && final(self)@ == old(self)@,
            old(self)@.len() > 0 ==> r == Some(old(self)@[0]) && final(self)@ == old(self)@.drop_first(),
    {
        self.window.try_wait_event()
    }

    /// The number of queued events as the lower bound; no upper bound, since
    /// waiting never ends the sequence.
    pub fn size_hint(&self) -> (r: (usize, Option<usize>))
        ensures
            r.0 == self@.len(),
            r.1 is None,
    {
        (self.window.events.len(), None)
    }
}

impl Window {
    /// Takes the oldest queued event, or `None` at once if the queue is empty.
    /// Nothing else about the window changes.
    pub fn poll_event(&mut self) -> (r: Option<Event>)
        ensures
            old(self)@.events.len() == 0 ==> r is None && final(self)@ == old(self)@,
            old(self)@.events.len() > 0 ==> r == Some(old(self)@.events[0])
                && final(self)@ == (WindowModel { events: old(self)@.events.drop_first(), ..old(self)@ }),
            final(self).descriptor() == old(self).descriptor(),
            final(self).wakeup_target() == old(self).wakeup_target(),
    {
        self.events.pop_front()
    }

    /// Takes the oldest queued event; with none queued, `Awakened` if a proxy woke
    /// the window since the last wait (the wakeup is then used up), else `None`.
    /// Nothing else about the window changes.
    pub fn try_wait_event(&mut self) -> (r: Option<Event>)
        ensures
            old(self)@.events.len() == 0 ==> (r is None || r == Some(Event::Awakened)) && final(self)@ == old(self)@,
            old(self)@.events.len() > 0 ==> r == Some(old(self)@.events[0])
                && final(self)@ == (WindowModel { events: old(self)@.events.drop_first(), ..old(self)@ }),
            final(self).descriptor() == old(self).descriptor(),
            final(self).wakeup_target() == old(self).wakeup_target(),
    {
        match self.events.pop_front() {
            Some(e) => Some(e),
            None => {
                if self.wakeup.swap(false, Ordering::SeqCst) {
                    Some(Event::Awakened)
                } else {
                    None
                }
            },
        }
    }

    /// An iterator over the queued events that never blocks.
    pub fn poll_events<'a>(&'a mut self) -> (r: PollEventsIterator<'a>)
        ensures
            r@ == old(self)@.events,
    {
        PollEventsIterator { window: self }
    }

    /// An iterator over the events that waits for new ones.
    pub fn wait_events<'a>(&'a mut self) -> (r: WaitEventsIterator<'a>)
        ensures
            r@ == old(self)@.events,
    {
        WaitEventsIterator { window: self }
    }
}


/// Without requested dimensions and without a fullscreen monitor, a window is
/// created at the default size of 1024 by 768.
pub proof fn lemma_default_dimensions(b: WindowBuilder)
    requires
        b.window.dimensions is None,
        b.window.monitor is None,
    ensures
        b.resolved().dimensions == Some((1024u32, 768u32)),
{
}

/// Without requested dimensions, a window made fullscreen on a monitor is created
/// at exactly the monitor's size.
pub proof fn lemma_fullscreen_dimensions(b: WindowBuilder, m: MonitorId)
    requires
        b.window.dimensions is None,
        b.window.monitor == Some(m),
    ensures
        b.resolved().dimensions == Some(m.dimensions),
{
}

/// Requested dimensions are used as they are, whatever monitor was chosen.
pub proof fn lemma_explicit_dimensions_win(b: WindowBuilder, width: u32, height: u32)
    ensures
        b.with_dimensions_spec(width, height).resolved().dimensions == Some((width, height)),
{
}

/// The size in pixels is the size in points times the pixel density, truncated,
/// and is absent exactly when the size in points is.
pub proof fn lemma_pixels_follow_points(m: WindowModel)
    ensures
        inner_pixels_of(m) is None <==> inner_size_of(m) is None,
        inner_size_of(m) matches Some(p) ==> inner_pixels_of(m) == Some(
            (scaled(p.0, m.hidpi), scaled(p.1, m.hidpi)),
        ),
{
}


/// A proxy made from a window and every clone of that proxy share the window's
/// wakeup flag.
pub proof fn lemma_clones_wake_same_window(w: Window, made: WindowProxy, cloned: WindowProxy)
    requires
        made.target() == w.wakeup_target(),
        cloned.target() == made.target(),
    ensures
        cloned.target() == w.wakeup_target(),
{
}

} // verus!
