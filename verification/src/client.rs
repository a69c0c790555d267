//! The registry of managed clients and the framing of client windows.

use std::collections::HashMap;
use vstd::prelude::*;
use crate::protocol::{
    Window, Request, RequestView, views, Screen, Geometry, WindowAttributes, MAP_STATE_VIEWABLE,
    WINDOW_CLASS_COPY_FROM_PARENT, WINDOW_CLASS_INPUT_OUTPUT, CW_BORDER_PIXEL, CW_BACKING_PIXEL,
};
use vstd::std_specs::iter::IteratorSpec;

verus! {

broadcast use vstd::std_specs::hash::group_hash_axioms;

/// A managed client: a top-level window and the frame the manager put around it.
#[derive(Clone, Copy, Debug, PartialEq, Eq, Structural)]
pub struct Client {
    pub frame: Window,
    pub window: Window,
    pub workspace: Option<u8>,
}

/// All managed clients, keyed by their window.
pub struct Clients {
    pub clients: HashMap<Window, Client>,
    pub active_workspace: u8,
}

impl View for Clients {
    type V = Map<Window, Client>;

    open spec fn view(&self) -> Map<Window, Client> {
        self.clients@
    }
}

impl Clients {
    /// Every client is filed under its own window.
    pub open spec fn wf(&self) -> bool {
        forall|w: Window| #[trigger] self@.contains_key(w) ==> self@[w].window == w
    }

    /// An empty registry, on workspace 1.
    pub fn new() -> (clients: Self)
        ensures
            clients@ == Map::<Window, Client>::empty(),
            clients.active_workspace == 1,
            clients.wf(),
    {
        Clients { clients: HashMap::new(), active_workspace: 1 }
    }

    /// The EWMH client list of screen 0: every managed window, each once.
    pub fn _refresh(&self) -> (request: Request)
        ensures
            request matches Request::SetClientList { screen, windows } && screen == 0
                && windows@.no_duplicates() && windows@.to_set() == self@.dom(),
    {
        let ghost all = self.clients.keys().remaining();
        let mut windows: Vec<Window> = Vec::new();
        for w in it: self.clients.keys()
            invariant
                it.seq() == all,
                windows@ == all.take(it.index()).unref(),
        {
            windows.push(*w);
        }
        proof {
            assert(windows@ =~= all.unref());
        }
        Request::SetClientList { screen: 0, windows }
    }
}

/// Whether a window gets a frame. Windows found at start-up (`pre_start`)
/// are framed only when they are viewable and do not override redirection;
/// windows that ask to be mapped later always are.
pub open spec fn frames(pre_start: bool, attributes: WindowAttributes) -> bool {
    !(pre_start && (attributes.override_redirect || attributes.map_state != MAP_STATE_VIEWABLE))
}

/// The client the manager records for `window` framed by `frame`.
pub open spec fn framed_client(window: Window, frame: Window) -> Client {
    Client { frame, window, workspace: None }
}

/// The registry after `window` got the frame `frame`.
pub open spec fn framed_registry(
    registry: Map<Window, Client>,
    window: Window,
    frame: Window,
) -> Map<Window, Client> {
    registry.insert(window, framed_client(window, frame))
}

/// The registry after `window` lost its frame.
pub open spec fn unframed_registry(registry: Map<Window, Client>, window: Window) -> Map<
    Window,
    Client,
> {
    registry.remove(window)
}

/// The border pixel (red) and backing pixel (blue) of every frame.
pub open spec fn frame_values() -> Seq<(u32, u32)> {
    seq![(CW_BORDER_PIXEL, 0xff0000u32), (CW_BACKING_PIXEL, 0x0000ffu32)]
}

/// The requests that put `window` into its new frame `frame`: create the
/// frame as a child of the root with the window's position and size, a border
/// of 3, the root visual and the frame colours; reparent the window into it
/// at (0, 0); map the frame.
pub open spec fn frame_requests(
    window: Window,
    geometry: Geometry,
    frame: Window,
    screen: Screen,
) -> Seq<RequestView> {
    seq![
        RequestView::CreateWindow {
            depth: WINDOW_CLASS_COPY_FROM_PARENT,
            wid: frame,
            parent: screen.root,
            x: geometry.x,
            y: geometry.y,
            width: geometry.width,
            height: geometry.height,
            border_width: 3,
            class: WINDOW_CLASS_INPUT_OUTPUT,
            visual: screen.root_visual,
            values: frame_values(),
        },
        RequestView::ReparentWindow { window, parent: frame, x: 0, y: 0 },
        RequestView::MapWindow { window: frame },
    ]
}

/// The requests that take `window` out of its frame `frame`: unmap the frame,
/// give the window back to the root at (0, 0), destroy the frame.
pub open spec fn unframe_requests(window: Window, frame: Window, root: Window) -> Seq<RequestView> {
    seq![
        RequestView::UnmapWindow { window: frame },
        RequestView::ReparentWindow { window, parent: root, x: 0, y: 0 },
        RequestView::DestroyWindow { window: frame },
    ]
}

/// Whether a window with these attributes gets a frame; see [`frames`].
pub fn should_frame(pre_start: bool, attributes: WindowAttributes) -> (result: bool)
    ensures
        result == frames(pre_start, attributes),
{
    !(pre_start && (attributes.override_redirect || attributes.map_state != MAP_STATE_VIEWABLE))
}

/// Frames `window`: where [`frames`] holds, records it under the frame id
/// `frame_id` (reserved by the caller) and returns the requests that create the
/// frame on `screen` and move the window into it; otherwise changes nothing
/// and returns no request.
pub fn frame(
    clients: &mut Clients,
    window: Window,
    pre_start: bool,
    attributes: WindowAttributes,
    geometry: Geometry,
    frame_id: Window,
    screen: Screen,
) -> (requests: Vec<Request>)
    ensures
        frames(pre_start, attributes) ==> {
            &&& final(clients)@ == framed_registry(old(clients)@, window, frame_id)
            &&& views(requests@) == frame_requests(window, geometry, frame_id, screen)
        },
        !frames(pre_start, attributes) ==> {
            &&& final(clients)@ == old(clients)@
            &&& requests@.len() == 0
        },
        final(clients).active_workspace == old(clients).active_workspace,
        old(clients).wf() ==> final(clients).wf(),
{
    let mut requests: Vec<Request> = Vec::new();
    if !should_frame(pre_start, attributes) {
        return requests;
    }
    let values: Vec<(u32, u32)> = vec![(CW_BORDER_PIXEL, 0xff0000u32), (CW_BACKING_PIXEL, 0x0000ffu32)];
    requests.push(
        Request::CreateWindow {
            depth: WINDOW_CLASS_COPY_FROM_PARENT,
            wid: frame_id,
            parent: screen.root,
            x: geometry.x,
            y: geometry.y,
            width: geometry.width,
            height: geometry.height,
            border_width: 3,
            class: WINDOW_CLASS_INPUT_OUTPUT,
            visual: screen.root_visual,
            values,
        },
    );
    requests.push(Request::ReparentWindow { window, parent: frame_id, x: 0, y: 0 });
    requests.push(Request::MapWindow { window: frame_id });
    assert(views(requests@) =~= frame_requests(window, geometry, frame_id, screen));
    clients.clients.insert(window, Client { frame: frame_id, window, workspace: None });
    requests
}

/// Unframes `window`: where it is managed, forgets it and returns the
/// requests that give it back to `root` and destroy its frame; otherwise
/// changes nothing and returns no request.
pub fn unframe(clients: &mut Clients, window: Window, root: Window) -> (requests: Vec<Request>)
    ensures
        old(clients)@.contains_key(window) ==> {
            &&& final(clients)@ == unframed_registry(old(clients)@, window)
            &&& views(requests@) == unframe_requests(window, old(clients)@[window].frame, root)
        },
        !old(clients)@.contains_key(window) ==> {
            &&& final(clients)@ == old(clients)@
            &&& requests@.len() == 0
        },
        final(clients).active_workspace == old(clients).active_workspace,
        old(clients).wf() ==> final(clients).wf(),
{
    let mut requests: Vec<Request> = Vec::new();
    let frame = match clients.clients.get(&window) {
        Some(client) => client.frame,
        None => return requests,
    };
    requests.push(Request::UnmapWindow { window: frame });
    requests.push(Request::ReparentWindow { window, parent: root, x: 0, y: 0 });
    requests.push(Request::DestroyWindow { window: frame });
    clients.clients.remove(&window);
    assert(views(requests@) =~= unframe_requests(window, frame, root));
    requests
}

/// Unframing a window that was just framed gives back the registry as it
/// was before, and the requests it sends name the very frame that framing
/// created: the frame is unmapped and destroyed and the window goes back to
/// the root.
pub proof fn lemma_unframe_undoes_frame(
    registry: Map<Window, Client>,
    window: Window,
    frame: Window,
    root: Window,
)
    requires
        !registry.contains_key(window),
    ensures
        framed_registry(registry, window, frame).contains_key(window),
        unframed_registry(framed_registry(registry, window, frame), window) == registry,
        unframe_requests(window, framed_registry(registry, window, frame)[window].frame, root)
            == unframe_requests(window, frame, root),
{
    assert(unframed_registry(framed_registry(registry, window, frame), window) =~= registry);
}

/// Framing or unframing a window leaves every other client as it was.
pub proof fn lemma_other_clients_untouched(
    registry: Map<Window, Client>,
    window: Window,
    frame: Window,
    other: Window,
)
    requires
        other != window,
    ensures
        framed_registry(registry, window, frame).contains_key(other) == registry.contains_key(other),
        unframed_registry(registry, window).contains_key(other) == registry.contains_key(other),
        registry.contains_key(other) ==> framed_registry(registry, window, frame)[other]
            == registry[other],
        registry.contains_key(other) ==> unframed_registry(registry, window)[other]
            == registry[other],
{
}

/// A window that asks to be mapped is always framed, whatever its attributes;
/// only windows found at start-up can be passed over.
pub proof fn lemma_mapped_windows_always_framed(attributes: WindowAttributes)
    ensures
        frames(false, attributes),
{
}

/// At start-up a window is framed exactly when it is viewable and does not
/// override redirection; in particular an override-redirect window, or one
/// that is not viewable, is never framed then.
pub proof fn lemma_start_up_framing_rule(attributes: WindowAttributes)
    ensures
        frames(true, attributes) == (!attributes.override_redirect && attributes.map_state
            == MAP_STATE_VIEWABLE),
        attributes.override_redirect ==> !frames(true, attributes),
        attributes.map_state != MAP_STATE_VIEWABLE ==> !frames(true, attributes),
{
}

/// Framing creates the frame at the window's own position and size, as a
/// child of the root with a border of 3 and the root visual, puts the window
/// into the frame at its origin and maps the frame.
pub proof fn lemma_frame_at_window_geometry(
    window: Window,
    geometry: Geometry,
    frame: Window,
    screen: Screen,
)
    ensures
        frame_requests(window, geometry, frame, screen) == seq![
            RequestView::CreateWindow {
                depth: 0,
                wid: frame,
                parent: screen.root,
                x: geometry.x,
                y: geometry.y,
                width: geometry.width,
                height: geometry.height,
                border_width: 3,
                class: 1,
                visual: screen.root_visual,
                values: seq![(CW_BORDER_PIXEL, 0xff0000u32), (CW_BACKING_PIXEL, 0x0000ffu32)],
            },
            RequestView::ReparentWindow { window, parent: frame, x: 0, y: 0 },
            RequestView::MapWindow { window: frame },
        ],
        unframe_requests(window, frame, screen.root) == seq![
            RequestView::UnmapWindow { window: frame },
            RequestView::ReparentWindow { window, parent: screen.root, x: 0, y: 0 },
            RequestView::DestroyWindow { window: frame },
        ],
{
}

} // verus!
