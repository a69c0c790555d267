//! The manager's built-in behaviour: adopt existing windows at start-up,
//! frame windows that ask to be mapped, and pass configure requests on.

use vstd::prelude::*;
use crate::protocol::{
    Window, Request, RequestView, views, lemma_views_add, Screen, Geometry, WindowAttributes,
    ConfigureRequest, UnmapNotify, CONFIG_WINDOW_X, CONFIG_WINDOW_Y, CONFIG_WINDOW_WIDTH,
    CONFIG_WINDOW_HEIGHT, CONFIG_WINDOW_BORDER_WIDTH, CONFIG_WINDOW_SIBLING,
    CONFIG_WINDOW_STACK_MODE, CW_BORDER_PIXEL, CW_BACKING_PIXEL,
};
use crate::client::{Client, Clients, frames, framed_registry, frame_requests, frame, unframe};

verus! {

broadcast use vstd::std_specs::hash::group_hash_axioms;

/// The built-in plugin; it holds no state of its own.
pub struct CorePlugin {}

/// A top-level window found at start-up, with what the manager read of it
/// and the id reserved for its frame (read only where the window is framed).
#[derive(Clone, Copy, Debug, PartialEq, Eq, Structural)]
pub struct TopLevel {
    pub window: Window,
    pub attributes: WindowAttributes,
    pub geometry: Geometry,
    pub frame: Window,
}

/// The registry after the start-up windows were framed in order.
pub open spec fn adopted_registry(registry: Map<Window, Client>, children: Seq<TopLevel>) -> Map<
    Window,
    Client,
>
    decreases children.len(),
{
    if children.len() == 0 {
        registry
    } else {
        let before = adopted_registry(registry, children.drop_last());
        let child = children.last();
        if frames(true, child.attributes) {
            framed_registry(before, child.window, child.frame)
        } else {
            before
        }
    }
}

/// The framing requests of the start-up windows, in order.
pub open spec fn adoption_requests(children: Seq<TopLevel>, screen: Screen) -> Seq<RequestView>
    decreases children.len(),
{
    if children.len() == 0 {
        seq![]
    } else {
        let child = children.last();
        adoption_requests(children.drop_last(), screen) + if frames(true, child.attributes) {
            frame_requests(child.window, child.geometry, child.frame, screen)
        } else {
            seq![]
        }
    }
}

/// The (mask bit, value) pair for `bit`, where `mask` selects it.
pub open spec fn masked(mask: u16, bit: u16, value: u32) -> Seq<(u16, u32)> {
    if mask & bit != 0 {
        seq![(bit, value)]
    } else {
        seq![]
    }
}

/// The (mask bit, value) list a configure request is granted with: of the
/// request's position, size, border width, sibling and stacking mode, exactly
/// the fields its value mask selects, in the order of their bits. The signed
/// position is carried in the unsigned value slot as its two's-complement bits.
pub open spec fn configure_values(event: ConfigureRequest) -> Seq<(u16, u32)> {
    let mask = event.value_mask;
    masked(mask, CONFIG_WINDOW_X, #[verifier::truncate] (event.x as u32))
        + masked(mask, CONFIG_WINDOW_Y, #[verifier::truncate] (event.y as u32))
        + masked(mask, CONFIG_WINDOW_WIDTH, event.width as u32)
        + masked(mask, CONFIG_WINDOW_HEIGHT, event.height as u32)
        + masked(mask, CONFIG_WINDOW_BORDER_WIDTH, event.border_width as u32)
        + masked(mask, CONFIG_WINDOW_SIBLING, event.sibling)
        + masked(mask, CONFIG_WINDOW_STACK_MODE, event.stack_mode as u32)
}

/// The requests a configure request produces: the same configuration for the
/// window's frame (where the window is managed) and for the window, then a flush.
pub open spec fn configure_requests(registry: Map<Window, Client>, event: ConfigureRequest) -> Seq<
    RequestView,
> {
    let values = configure_values(event);
    let own = seq![
        RequestView::ConfigureWindow { window: event.window, values },
        RequestView::Flush,
    ];
    if registry.contains_key(event.window) {
        seq![RequestView::ConfigureWindow { window: registry[event.window].frame, values }] + own
    } else {
        own
    }
}

/// Appends the pair for `bit` to `values` where `mask` selects it.
fn push_masked(values: &mut Vec<(u16, u32)>, mask: u16, bit: u16, value: u32)
    ensures
        final(values)@ == old(values)@ + masked(mask, bit, value),
{
    if mask & bit != 0 {
        values.push((bit, value));
    }
    assert(values@ =~= old(values)@ + masked(mask, bit, value));
}

/// The (mask bit, value) list of [`configure_values`].
fn configure_value_list(event: ConfigureRequest) -> (values: Vec<(u16, u32)>)
    ensures
        values@ == configure_values(event),
{
    let mask = event.value_mask;
    let mut values: Vec<(u16, u32)> = Vec::new();
    push_masked(&mut values, mask, CONFIG_WINDOW_X, #[verifier::truncate] (event.x as u32));
    push_masked(&mut values, mask, CONFIG_WINDOW_Y, #[verifier::truncate] (event.y as u32));
    push_masked(&mut values, mask, CONFIG_WINDOW_WIDTH, event.width as u32);
    push_masked(&mut values, mask, CONFIG_WINDOW_HEIGHT, event.height as u32);
    push_masked(&mut values, mask, CONFIG_WINDOW_BORDER_WIDTH, event.border_width as u32);
    push_masked(&mut values, mask, CONFIG_WINDOW_SIBLING, event.sibling);
    push_masked(&mut values, mask, CONFIG_WINDOW_STACK_MODE, event.stack_mode as u32);
    assert(values@ =~= configure_values(event));
    values
}

impl CorePlugin {
    /// Adopts the windows that exist when the manager starts: frames each of
    /// `children` (the root's children, in stacking order) that is viewable
    /// and does not override redirection. The caller holds the server
    /// grabbed from before it reads the children until the requests are sent.
    pub fn init(&self, clients: &mut Clients, children: &Vec<TopLevel>, screen: Screen) -> (requests:
        Vec<Request>)
        ensures
            views(requests@) == adoption_requests(children@, screen),
            final(clients)@ == adopted_registry(old(clients)@, children@),
            final(clients).active_workspace == old(clients).active_workspace,
            old(clients).wf() ==> final(clients).wf(),
    {
        let mut requests: Vec<Request> = Vec::new();
        let n = children.len();
        for i in 0..n
            invariant
                n == children@.len(),
                views(requests@) == adoption_requests(children@.take(i as int), screen),
                clients@ == adopted_registry(old(clients)@, children@.take(i as int)),
                clients.active_workspace == old(clients).active_workspace,
                old(clients).wf() ==> clients.wf(),
        {
            let child = children[i];
            let mut framing = frame(
                clients,
                child.window,
                true,
                child.attributes,
                child.geometry,
                child.frame,
                screen,
            );
            proof {
                assert(children@.take(i + 1).drop_last() =~= children@.take(i as int));
                lemma_views_add(requests@, framing@);
                if !frames(true, child.attributes) {
                    assert(views(framing@) =~= seq![]);
                }
            }
            requests.append(&mut framing);
        }
        proof {
            assert(children@.take(n as int) =~= children@);
        }
        requests
    }

    /// Grants a configure request: the window, and its frame where it has
    /// one, get the fields the request's value mask selects, with the
    /// request's values; then the connection is flushed.
    pub fn on_configure_request(&self, clients: &Clients, event: ConfigureRequest) -> (requests:
        Vec<Request>)
        ensures
            views(requests@) == configure_requests(clients@, event),
    {
        let mut requests: Vec<Request> = Vec::new();
        if let Some(client) = clients.clients.get(&event.window) {
            requests.push(Request::ConfigureWindow { window: client.frame, values: configure_value_list(event) });
        }
        requests.push(Request::ConfigureWindow { window: event.window, values: configure_value_list(event) });
        requests.push(Request::Flush);
        assert(views(requests@) =~= configure_requests(clients@, event));
        requests
    }

    /// A window asks to be mapped: it is framed (whatever its attributes)
    /// under `frame_id`, then mapped itself.
    pub fn on_map_request(
        &self,
        clients: &mut Clients,
        window: Window,
        attributes: WindowAttributes,
        geometry: Geometry,
        frame_id: Window,
        screen: Screen,
    ) -> (requests: Vec<Request>)
        ensures
            final(clients)@ == framed_registry(old(clients)@, window, frame_id),
            views(requests@) == frame_requests(window, geometry, frame_id, screen) + seq![
                RequestView::MapWindow { window },
            ],
            final(clients).active_workspace == old(clients).active_workspace,
            old(clients).wf() ==> final(clients).wf(),
    {
        let mut requests = frame(clients, window, false, attributes, geometry, frame_id, screen);
        let ghost before = requests@;
        requests.push(Request::MapWindow { window });
        proof {
            lemma_views_add(before, seq![Request::MapWindow { window }]);
            assert(requests@ =~= before + seq![Request::MapWindow { window }]);
            assert(views(seq![Request::MapWindow { window }]) =~= seq![RequestView::MapWindow { window }]);
        }
        requests
    }

    /// A window was unmapped. A managed window is left alone, and so is any
    /// window when the event was reported on the root; any other window is
    /// unframed, which for an unmanaged window does nothing. So the registry
    /// never changes here and no request is sent.
    pub fn on_unmap_notify(&self, clients: &mut Clients, event: UnmapNotify, root: Window) -> (requests:
        Vec<Request>)
        ensures
            final(clients)@ == old(clients)@,
            final(clients).active_workspace == old(clients).active_workspace,
            requests@.len() == 0,
    {
        if clients.clients.contains_key(&event.window) {
            return Vec::new();
        }
        if event.event == root {
            return Vec::new();
        }
        unframe(clients, event.window, root)
    }
}

/// Adoption only adds clients: afterwards every start-up window that
/// qualifies for a frame is managed, and the registry entry of any window
/// that is not among the start-up windows is as it was.
pub proof fn lemma_adoption_adds_qualifying_windows(
    registry: Map<Window, Client>,
    children: Seq<TopLevel>,
)
    ensures
        forall|i: int|
            0 <= i < children.len() && frames(true, children[i].attributes)
                ==> adopted_registry(registry, children).contains_key(#[trigger] children[i].window),
        forall|w: Window|
            (forall|i: int| 0 <= i < children.len() ==> children[i].window != w) ==> {
                &&& #[trigger] adopted_registry(registry, children).contains_key(w)
                    == registry.contains_key(w)
                &&& registry.contains_key(w) ==> adopted_registry(registry, children)[w]
                    == registry[w]
            },
    decreases children.len(),
{
    if children.len() > 0 {
        let rest = children.drop_last();
        lemma_adoption_adds_qualifying_windows(registry, rest);
        assert forall|i: int|
            0 <= i < children.len() && frames(true, children[i].attributes) implies adopted_registry(
            registry,
            children,
        ).contains_key(#[trigger] children[i].window) by {
            if i < children.len() - 1 {
                assert(rest[i] == children[i]);
            }
        }
        assert forall|w: Window|
            (forall|i: int| 0 <= i < children.len() ==> children[i].window != w) implies {
            &&& #[trigger] adopted_registry(registry, children).contains_key(w)
                == registry.contains_key(w)
            &&& registry.contains_key(w) ==> adopted_registry(registry, children)[w]
                == registry[w]
        } by {
            assert(children[children.len() - 1].window != w);
            assert forall|i: int| 0 <= i < rest.len() implies rest[i].window != w by {
                assert(rest[i] == children[i]);
            }
            assert(adopted_registry(registry, rest).contains_key(w) == registry.contains_key(w));
        }
    }
}

/// How many of `children` qualify for a frame at start-up.
pub open spec fn qualifying_count(children: Seq<TopLevel>) -> nat
    decreases children.len(),
{
    if children.len() == 0 {
        0
    } else {
        qualifying_count(children.drop_last()) + if frames(true, children.last().attributes) {
            1nat
        } else {
            0nat
        }
    }
}

/// Adoption sends three requests per qualifying window and nothing else.
pub proof fn lemma_adoption_length(children: Seq<TopLevel>, screen: Screen)
    ensures
        adoption_requests(children, screen).len() == 3 * qualifying_count(children),
    decreases children.len(),
{
    if children.len() > 0 {
        lemma_adoption_length(children.drop_last(), screen);
    }
}

/// The requests of the first windows of `children` open the requests of all of them.
proof fn lemma_adoption_prefix(children: Seq<TopLevel>, screen: Screen, n: int)
    requires
        0 <= n <= children.len(),
    ensures
        adoption_requests(children.take(n), screen).len() <= adoption_requests(children, screen).len(),
        adoption_requests(children, screen).subrange(
            0,
            adoption_requests(children.take(n), screen).len() as int,
        ) == adoption_requests(children.take(n), screen),
    decreases children.len(),
{
    if n == children.len() {
        assert(children.take(n) =~= children);
        assert(adoption_requests(children, screen).subrange(
            0,
            adoption_requests(children, screen).len() as int,
        ) =~= adoption_requests(children, screen));
    } else {
        let rest = children.drop_last();
        lemma_adoption_prefix(rest, screen, n);
        assert(rest.take(n) =~= children.take(n));
        let whole = adoption_requests(children, screen);
        let front = adoption_requests(rest, screen);
        let part = adoption_requests(children.take(n), screen);
        assert(whole.subrange(0, part.len() as int) =~= front.subrange(0, part.len() as int));
    }
}

/// Adoption frames each qualifying start-up window with its own data: the
/// requests of the `i`-th window start right after three requests for each
/// qualifying window before it, and create its frame at that window's own
/// position and size, put that window into it and map it.
pub proof fn lemma_adoption_frames_each_child_at_its_geometry(
    children: Seq<TopLevel>,
    screen: Screen,
    i: int,
)
    requires
        0 <= i < children.len(),
        frames(true, children[i].attributes),
    ensures
        ({
            let child = children[i];
            let k = (3 * qualifying_count(children.take(i))) as int;
            let requests = adoption_requests(children, screen);
            &&& k + 3 <= requests.len()
            &&& requests[k] == RequestView::CreateWindow {
                depth: 0,
                wid: child.frame,
                parent: screen.root,
                x: child.geometry.x,
                y: child.geometry.y,
                width: child.geometry.width,
                height: child.geometry.height,
                border_width: 3,
                class: 1,
                visual: screen.root_visual,
                values: seq![(CW_BORDER_PIXEL, 0xff0000u32), (CW_BACKING_PIXEL, 0x0000ffu32)],
            }
            &&& requests[k + 1] == RequestView::ReparentWindow {
                window: child.window,
                parent: child.frame,
                x: 0,
                y: 0,
            }
            &&& requests[k + 2] == RequestView::MapWindow { window: child.frame }
        }),
{
    let child = children[i];
    let upto = children.take(i + 1);
    assert(upto.drop_last() =~= children.take(i));
    assert(upto.last() == child);
    lemma_adoption_length(children.take(i), screen);
    lemma_adoption_prefix(children, screen, i + 1);
    let k = (3 * qualifying_count(children.take(i))) as int;
    let part = adoption_requests(upto, screen);
    assert(part == adoption_requests(children.take(i), screen) + frame_requests(
        child.window,
        child.geometry,
        child.frame,
        screen,
    ));
    let requests = adoption_requests(children, screen);
    assert(requests[k] == requests.subrange(0, part.len() as int)[k]);
    assert(requests[k + 1] == requests.subrange(0, part.len() as int)[k + 1]);
    assert(requests[k + 2] == requests.subrange(0, part.len() as int)[k + 2]);
}

/// The mask bits of a value list strictly increase along it.
pub open spec fn bits_increase(values: Seq<(u16, u32)>) -> bool {
    forall|i: int, j: int| 0 <= i < j < values.len() ==> values[i].0 < values[j].0
}

/// Appending the selected pair of a bit above all bits so far keeps the bits
/// increasing, and no bit beyond it appears.
proof fn lemma_append_masked_increasing(prefix: Seq<(u16, u32)>, mask: u16, bit: u16, value: u32)
    requires
        bits_increase(prefix),
        forall|i: int| 0 <= i < prefix.len() ==> prefix[i].0 < bit,
    ensures
        bits_increase(prefix + masked(mask, bit, value)),
        forall|i: int|
            0 <= i < (prefix + masked(mask, bit, value)).len() ==> (prefix + masked(
                mask,
                bit,
                value,
            ))[i].0 <= bit,
{
}

/// The pair list of one bit holds exactly that bit's pair, where selected.
proof fn lemma_masked_contains(mask: u16, bit: u16, value: u32, p: (u16, u32))
    ensures
        masked(mask, bit, value).contains(p) == (mask & bit != 0 && p == (bit, value)),
{
    if mask & bit != 0 {
        assert(masked(mask, bit, value)[0] == (bit, value));
    }
}

/// What the granted list of a configure request contains: for each of the
/// seven fields, its own bit and value, where the mask selects that bit.
proof fn lemma_configure_contains(event: ConfigureRequest, p: (u16, u32))
    ensures
        configure_values(event).contains(p) == {
            let mask = event.value_mask;
            ||| mask & 1 != 0 && p == (1u16, #[verifier::truncate] (event.x as u32))
            ||| mask & 2 != 0 && p == (2u16, #[verifier::truncate] (event.y as u32))
            ||| mask & 4 != 0 && p == (4u16, event.width as u32)
            ||| mask & 8 != 0 && p == (8u16, event.height as u32)
            ||| mask & 16 != 0 && p == (16u16, event.border_width as u32)
            ||| mask & 32 != 0 && p == (32u16, event.sibling)
            ||| mask & 64 != 0 && p == (64u16, event.stack_mode as u32)
        },
{
    let mask = event.value_mask;
    let m1 = masked(mask, 1, #[verifier::truncate] (event.x as u32));
    let m2 = masked(mask, 2, #[verifier::truncate] (event.y as u32));
    let m3 = masked(mask, 4, event.width as u32);
    let m4 = masked(mask, 8, event.height as u32);
    let m5 = masked(mask, 16, event.border_width as u32);
    let m6 = masked(mask, 32, event.sibling);
    let m7 = masked(mask, 64, event.stack_mode as u32);
    lemma_masked_contains(mask, 1, #[verifier::truncate] (event.x as u32), p);
    lemma_masked_contains(mask, 2, #[verifier::truncate] (event.y as u32), p);
    lemma_masked_contains(mask, 4, event.width as u32, p);
    lemma_masked_contains(mask, 8, event.height as u32, p);
    lemma_masked_contains(mask, 16, event.border_width as u32, p);
    lemma_masked_contains(mask, 32, event.sibling, p);
    lemma_masked_contains(mask, 64, event.stack_mode as u32, p);
    vstd::seq_lib::lemma_seq_concat_contains_all_elements(m1, m2, p);
    vstd::seq_lib::lemma_seq_concat_contains_all_elements(m1 + m2, m3, p);
    vstd::seq_lib::lemma_seq_concat_contains_all_elements(m1 + m2 + m3, m4, p);
    vstd::seq_lib::lemma_seq_concat_contains_all_elements(m1 + m2 + m3 + m4, m5, p);
    vstd::seq_lib::lemma_seq_concat_contains_all_elements(m1 + m2 + m3 + m4 + m5, m6, p);
    vstd::seq_lib::lemma_seq_concat_contains_all_elements(m1 + m2 + m3 + m4 + m5 + m6, m7, p);
}

/// A configure request is granted with exactly the fields its value mask
/// selects, whatever the other bits: each of the seven fields appears, paired
/// with its own bit and the request's value for it, exactly when its bit is
/// in the mask; nothing else appears; and the fields come in the order of
/// their bits.
pub proof fn lemma_configure_values_follow_mask(event: ConfigureRequest)
    ensures
        ({
            let values = configure_values(event);
            let mask = event.value_mask;
            &&& values.contains((1u16, #[verifier::truncate] (event.x as u32))) == (mask & 1 != 0)
            &&& values.contains((2u16, #[verifier::truncate] (event.y as u32))) == (mask & 2 != 0)
            &&& values.contains((4u16, event.width as u32)) == (mask & 4 != 0)
            &&& values.contains((8u16, event.height as u32)) == (mask & 8 != 0)
            &&& values.contains((16u16, event.border_width as u32)) == (mask & 16 != 0)
            &&& values.contains((32u16, event.sibling)) == (mask & 32 != 0)
            &&& values.contains((64u16, event.stack_mode as u32)) == (mask & 64 != 0)
            &&& forall|p: (u16, u32)|
                #[trigger] values.contains(p) ==> {
                    &&& mask & p.0 != 0
                    &&& {
                        ||| p == (1u16, #[verifier::truncate] (event.x as u32))
                        ||| p == (2u16, #[verifier::truncate] (event.y as u32))
                        ||| p == (4u16, event.width as u32)
                        ||| p == (8u16, event.height as u32)
                        ||| p == (16u16, event.border_width as u32)
                        ||| p == (32u16, event.sibling)
                        ||| p == (64u16, event.stack_mode as u32)
                    }
                }
            &&& bits_increase(values)
        }),
{
    let mask = event.value_mask;
    lemma_configure_contains(event, (1u16, #[verifier::truncate] (event.x as u32)));
    lemma_configure_contains(event, (2u16, #[verifier::truncate] (event.y as u32)));
    lemma_configure_contains(event, (4u16, event.width as u32));
    lemma_configure_contains(event, (8u16, event.height as u32));
    lemma_configure_contains(event, (16u16, event.border_width as u32));
    lemma_configure_contains(event, (32u16, event.sibling));
    lemma_configure_contains(event, (64u16, event.stack_mode as u32));
    assert forall|p: (u16, u32)| #[trigger] configure_values(event).contains(p) implies {
        &&& mask & p.0 != 0
        &&& {
            ||| p == (1u16, #[verifier::truncate] (event.x as u32))
            ||| p == (2u16, #[verifier::truncate] (event.y as u32))
            ||| p == (4u16, event.width as u32)
            ||| p == (8u16, event.height as u32)
            ||| p == (16u16, event.border_width as u32)
            ||| p == (32u16, event.sibling)
            ||| p == (64u16, event.stack_mode as u32)
        }
    } by {
        lemma_configure_contains(event, p);
    }
    let a1 = masked(mask, 1, #[verifier::truncate] (event.x as u32));
    let a2 = a1 + masked(mask, 2, #[verifier::truncate] (event.y as u32));
    let a3 = a2 + masked(mask, 4, event.width as u32);
    let a4 = a3 + masked(mask, 8, event.height as u32);
    let a5 = a4 + masked(mask, 16, event.border_width as u32);
    let a6 = a5 + masked(mask, 32, event.sibling);
    lemma_append_masked_increasing(Seq::empty(), mask, 1, #[verifier::truncate] (event.x as u32));
    assert(Seq::<(u16, u32)>::empty() + a1 =~= a1);
    lemma_append_masked_increasing(a1, mask, 2, #[verifier::truncate] (event.y as u32));
    lemma_append_masked_increasing(a2, mask, 4, event.width as u32);
    lemma_append_masked_increasing(a3, mask, 8, event.height as u32);
    lemma_append_masked_increasing(a4, mask, 16, event.border_width as u32);
    lemma_append_masked_increasing(a5, mask, 32, event.sibling);
    lemma_append_masked_increasing(a6, mask, 64, event.stack_mode as u32);
}

/// A configure request configures the window itself and then flushes; a
/// managed window's frame is configured first, with the same values, and an
/// unmanaged window has no frame request.
pub proof fn lemma_configure_requests_shape(registry: Map<Window, Client>, event: ConfigureRequest)
    ensures
        registry.contains_key(event.window) ==> configure_requests(registry, event) == seq![
            RequestView::ConfigureWindow {
                window: registry[event.window].frame,
                values: configure_values(event),
            },
            RequestView::ConfigureWindow { window: event.window, values: configure_values(event) },
            RequestView::Flush,
        ],
        !registry.contains_key(event.window) ==> configure_requests(registry, event) == seq![
            RequestView::ConfigureWindow { window: event.window, values: configure_values(event) },
            RequestView::Flush,
        ],
{
    assert(registry.contains_key(event.window) ==> configure_requests(registry, event) =~= seq![
        RequestView::ConfigureWindow {
            window: registry[event.window].frame,
            values: configure_values(event),
        },
        RequestView::ConfigureWindow { window: event.window, values: configure_values(event) },
        RequestView::Flush,
    ]);
}

/// When the start-up windows are distinct, each qualifying one is recorded
/// with its own frame and no workspace.
pub proof fn lemma_adoption_records_own_frame(
    registry: Map<Window, Client>,
    children: Seq<TopLevel>,
    i: int,
)
    requires
        0 <= i < children.len(),
        frames(true, children[i].attributes),
        forall|a: int, b: int|
            0 <= a < b < children.len() ==> children[a].window != children[b].window,
    ensures
        adopted_registry(registry, children)[children[i].window] == (Client {
            frame: children[i].frame,
            window: children[i].window,
            workspace: None,
        }),
    decreases children.len(),
{
    if i < children.len() - 1 {
        let rest = children.drop_last();
        assert(rest[i] == children[i]);
        lemma_adoption_records_own_frame(registry, rest, i);
        assert(children.last().window != children[i].window);
    }
}

} // verus!
