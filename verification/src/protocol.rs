//! Plain-value model of the X11 protocol items the manager reads and sends.
//!
//! Replies and events arrive here as the few fields the manager reads, and
//! everything the manager asks of the X server leaves as a [`Request`].

use vstd::prelude::*;

verus! {

/// An X resource id of a window.
pub type Window = u32;

/// An X atom.
pub type Atom = u32;

/// An X resource id of a cursor.
pub type Cursor = u32;

/// `WindowClass::CopyFromParent`: the depth of a new window is that of its parent.
pub const WINDOW_CLASS_COPY_FROM_PARENT: u8 = 0;
/// `WindowClass::InputOutput`.
pub const WINDOW_CLASS_INPUT_OUTPUT: u16 = 1;

/// `CW::BorderPixel`: value-mask bit of a window's border pixel.
pub const CW_BORDER_PIXEL: u32 = 8;
/// `CW::BackingPixel`: value-mask bit of a window's backing pixel.
pub const CW_BACKING_PIXEL: u32 = 256;
/// `CW::EventMask`: value-mask bit of a window's event mask.
pub const CW_EVENT_MASK: u32 = 2048;
/// `CW::Cursor`: value-mask bit of a window's cursor.
pub const CW_CURSOR: u32 = 16384;

/// `EventMask::SubstructureNotify`.
pub const EVENT_MASK_SUBSTRUCTURE_NOTIFY: u32 = 524288;
/// `EventMask::SubstructureRedirect`.
pub const EVENT_MASK_SUBSTRUCTURE_REDIRECT: u32 = 1048576;

/// `MapState::Viewable`.
pub const MAP_STATE_VIEWABLE: u8 = 2;

/// `ConfigWindow` value-mask bits of a `ConfigureWindow` request.
pub const CONFIG_WINDOW_X: u16 = 1;
pub const CONFIG_WINDOW_Y: u16 = 2;
pub const CONFIG_WINDOW_WIDTH: u16 = 4;
pub const CONFIG_WINDOW_HEIGHT: u16 = 8;
pub const CONFIG_WINDOW_BORDER_WIDTH: u16 = 16;
pub const CONFIG_WINDOW_SIBLING: u16 = 32;
pub const CONFIG_WINDOW_STACK_MODE: u16 = 64;

/// Event codes the manager dispatches on.
pub const KEY_PRESS: u8 = 2;
pub const ENTER_NOTIFY: u8 = 7;
pub const DESTROY_NOTIFY: u8 = 17;
pub const UNMAP_NOTIFY: u8 = 18;
pub const MAP_REQUEST: u8 = 20;
pub const CONFIGURE_REQUEST: u8 = 23;
pub const PROPERTY_NOTIFY: u8 = 28;
pub const CLIENT_MESSAGE: u8 = 33;

/// The parts of a screen the manager reads: its root window and root visual.
#[derive(Clone, Copy, Debug, PartialEq, Eq, Structural)]
pub struct Screen {
    pub root: Window,
    pub root_visual: u32,
}

/// The parts of a `GetWindowAttributes` reply the manager reads.
#[derive(Clone, Copy, Debug, PartialEq, Eq, Structural)]
pub struct WindowAttributes {
    pub override_redirect: bool,
    pub map_state: u8,
}

/// The parts of a `GetGeometry` reply the manager reads.
#[derive(Clone, Copy, Debug, PartialEq, Eq, Structural)]
pub struct Geometry {
    pub x: i16,
    pub y: i16,
    pub width: u16,
    pub height: u16,
}

/// The fields of a `ConfigureRequest` event the manager reads.
#[derive(Clone, Copy, Debug, PartialEq, Eq, Structural)]
pub struct ConfigureRequest {
    pub window: Window,
    pub x: i16,
    pub y: i16,
    pub width: u16,
    pub height: u16,
    pub border_width: u16,
    pub sibling: Window,
    pub stack_mode: u8,
    /// The `ConfigWindow` bits of the fields the client asks to change.
    pub value_mask: u16,
}

/// The fields of an `UnmapNotify` event the manager reads.
#[derive(Clone, Copy, Debug, PartialEq, Eq, Structural)]
pub struct UnmapNotify {
    /// The window the event was reported on.
    pub event: Window,
    /// The window that was unmapped.
    pub window: Window,
}

/// What the manager asks of the X server, in the order it asks it.
#[derive(Debug, PartialEq, Eq)]
#[allow(inconsistent_fields)]
pub enum Request {
    /// `CreateWindow` with the given attribute value list.
    CreateWindow {
        depth: u8,
        wid: Window,
        parent: Window,
        x: i16,
        y: i16,
        width: u16,
        height: u16,
        border_width: u16,
        class: u16,
        visual: u32,
        values: Vec<(u32, u32)>,
    },
    /// `ReparentWindow`: move `window` into `parent` at (`x`, `y`).
    ReparentWindow { window: Window, parent: Window, x: i16, y: i16 },
    MapWindow { window: Window },
    UnmapWindow { window: Window },
    DestroyWindow { window: Window },
    /// `ConfigureWindow` with the given (mask bit, value) list.
    ConfigureWindow { window: Window, values: Vec<(u16, u32)> },
    /// `ChangeWindowAttributes`, whose outcome the caller checks.
    ChangeWindowAttributesChecked { window: Window, values: Vec<(u32, u32)> },
    /// EWMH `_NET_SUPPORTED` on the given screen.
    SetSupported { screen: i32, atoms: Vec<Atom> },
    /// EWMH `_NET_SUPPORTING_WM_CHECK` of `window`, naming `child`.
    SetSupportingWmCheck { window: Window, child: Window },
    /// EWMH `_NET_WM_NAME` of `window`.
    SetWmName { window: Window, name: String },
    /// EWMH `_NET_CLIENT_LIST` on the given screen.
    SetClientList { screen: i32, windows: Vec<Window> },
    /// Flush the requests buffered on the connection.
    Flush,
}

/// A [`Request`] as a mathematical value: lists become sequences and the
/// window name a sequence of characters.
#[allow(inconsistent_fields)]
pub enum RequestView {
    CreateWindow {
        depth: u8,
        wid: Window,
        parent: Window,
        x: i16,
        y: i16,
        width: u16,
        height: u16,
        border_width: u16,
        class: u16,
        visual: u32,
        values: Seq<(u32, u32)>,
    },
    ReparentWindow { window: Window, parent: Window, x: i16, y: i16 },
    MapWindow { window: Window },
    UnmapWindow { window: Window },
    DestroyWindow { window: Window },
    ConfigureWindow { window: Window, values: Seq<(u16, u32)> },
    ChangeWindowAttributesChecked { window: Window, values: Seq<(u32, u32)> },
    SetSupported { screen: i32, atoms: Seq<Atom> },
    SetSupportingWmCheck { window: Window, child: Window },
    SetWmName { window: Window, name: Seq<char> },
    SetClientList { screen: i32, windows: Seq<Window> },
    Flush,
}

impl View for Request {
    type V = RequestView;

    open spec fn view(&self) -> RequestView {
        match self {
            Request::CreateWindow {
                depth,
                wid,
                parent,
                x,
                y,
                width,
                height,
                border_width,
                class,
                visual,
                values,
            } => RequestView::CreateWindow {
                depth: *depth,
                wid: *wid,
                parent: *parent,
                x: *x,
                y: *y,
                width: *width,
                height: *height,
                border_width: *border_width,
                class: *class,
                visual: *visual,
                values: values@,
            },
            Request::ReparentWindow { window, parent, x, y } => RequestView::ReparentWindow {
                window: *window,
                parent: *parent,
                x: *x,
                y: *y,
            },
            Request::MapWindow { window } => RequestView::MapWindow { window: *window },
            Request::UnmapWindow { window } => RequestView::UnmapWindow { window: *window },
            Request::DestroyWindow { window } => RequestView::DestroyWindow { window: *window },
            Request::ConfigureWindow { window, values } => RequestView::ConfigureWindow {
                window: *window,
                values: values@,
            },
            Request::ChangeWindowAttributesChecked { window, values } =>
                RequestView::ChangeWindowAttributesChecked { window: *window, values: values@ },
            Request::SetSupported { screen, atoms } => RequestView::SetSupported {
                screen: *screen,
                atoms: atoms@,
            },
            Request::SetSupportingWmCheck { window, child } => RequestView::SetSupportingWmCheck {
                window: *window,
                child: *child,
            },
            Request::SetWmName { window, name } => RequestView::SetWmName {
                window: *window,
                name: name@,
            },
            Request::SetClientList { screen, windows } => RequestView::SetClientList {
                screen: *screen,
                windows: windows@,
            },
            Request::Flush => RequestView::Flush,
        }
    }
}

/// The views of a list of requests, in order.
pub open spec fn views(requests: Seq<Request>) -> Seq<RequestView> {
    requests.map_values(|r: Request| r@)
}

/// Views distribute over concatenation.
pub proof fn lemma_views_add(a: Seq<Request>, b: Seq<Request>)
    ensures
        views(a + b) == views(a) + views(b),
{
    assert(views(a + b) =~= views(a) + views(b));
}

} // verus!
