//! Start-up and event dispatch of the manager.

use vstd::prelude::*;
use crate::protocol::{
    Window, Atom, Cursor, Screen, Request, RequestView, views, CLIENT_MESSAGE, KEY_PRESS,
    CONFIGURE_REQUEST, MAP_REQUEST, PROPERTY_NOTIFY, ENTER_NOTIFY, UNMAP_NOTIFY, DESTROY_NOTIFY,
    WINDOW_CLASS_COPY_FROM_PARENT, WINDOW_CLASS_INPUT_OUTPUT, CW_EVENT_MASK, CW_CURSOR,
    EVENT_MASK_SUBSTRUCTURE_REDIRECT, EVENT_MASK_SUBSTRUCTURE_NOTIFY,
};

verus! {

/// The screen the manager runs on: the first of the display's screens.
///
/// The display must have at least one screen (the caller fails with
/// "Unable to find a screen." otherwise).
pub fn get_screen(roots: &Vec<Screen>) -> (screen: Screen)
    requires
        roots.len() > 0,
    ensures
        screen == roots@[0],
{
    roots[0]
}

/// The plugin hook an event is handed to.
#[derive(Clone, Copy, Debug, PartialEq, Eq, Structural)]
pub enum Hook {
    ClientMessage,
    KeyPress,
    ConfigureRequest,
    MapRequest,
    PropertyNotify,
    EnterNotify,
    UnmapNotify,
    DestroyNotify,
    /// Any other event, with its event code.
    Unspecified(u8),
}

/// The hook of an event code (without the send-event bit).
pub open spec fn hook_of(code: u8) -> Hook {
    if code == CLIENT_MESSAGE {
        Hook::ClientMessage
    } else if code == KEY_PRESS {
        Hook::KeyPress
    } else if code == CONFIGURE_REQUEST {
        Hook::ConfigureRequest
    } else if code == MAP_REQUEST {
        Hook::MapRequest
    } else if code == PROPERTY_NOTIFY {
        Hook::PropertyNotify
    } else if code == ENTER_NOTIFY {
        Hook::EnterNotify
    } else if code == UNMAP_NOTIFY {
        Hook::UnmapNotify
    } else if code == DESTROY_NOTIFY {
        Hook::DestroyNotify
    } else {
        Hook::Unspecified(code)
    }
}

/// The event code of a response type: the response type without its
/// top bit, which only tells whether the event was sent by a client.
pub open spec fn event_code(response_type: u8) -> u8 {
    response_type & 0x7f
}

/// Which hook an event with this response type goes to.
pub fn event_hook(response_type: u8) -> (hook: Hook)
    ensures
        hook == hook_of(event_code(response_type)),
{
    let code = response_type & !0x80u8;
    assert(response_type & !0x80u8 == response_type & 0x7f) by (bit_vector);
    if code == CLIENT_MESSAGE {
        Hook::ClientMessage
    } else if code == KEY_PRESS {
        Hook::KeyPress
    } else if code == CONFIGURE_REQUEST {
        Hook::ConfigureRequest
    } else if code == MAP_REQUEST {
        Hook::MapRequest
    } else if code == PROPERTY_NOTIFY {
        Hook::PropertyNotify
    } else if code == ENTER_NOTIFY {
        Hook::EnterNotify
    } else if code == UNMAP_NOTIFY {
        Hook::UnmapNotify
    } else if code == DESTROY_NOTIFY {
        Hook::DestroyNotify
    } else {
        Hook::Unspecified(code)
    }
}

/// An event goes to the same hook whether a client sent it or the server did.
pub proof fn lemma_send_event_bit_ignored(response_type: u8)
    ensures
        hook_of(event_code(response_type | 0x80)) == hook_of(event_code(response_type)),
{
    assert((response_type | 0x80) & 0x7f == response_type & 0x7f) by (bit_vector);
}

/// The stages of start-up, in the order they run.
#[derive(Clone, Copy, Debug, PartialEq, Eq, Structural)]
pub enum StartupPhase {
    /// Announce EWMH support: the supported atoms, a 1x1 check window named
    /// "joid" and the root's pointer to it.
    Announce,
    /// Ask for substructure redirection on the root; the request is checked.
    Redirect,
    /// Let every plugin initialise itself.
    InitPlugins,
    /// Set the root's cursor; the request is checked.
    SetCursor,
    /// Flush the connection.
    Flush,
    /// Start-up is over; events are handled from here on.
    Running,
}

/// Why start-up stopped.
#[derive(Clone, Copy, Debug, PartialEq, Eq, Structural)]
pub enum StartupError {
    /// The root refused substructure redirection: another manager holds it.
    OtherManagerRunning,
    /// The root refused the cursor.
    CursorRejected,
}

impl StartupError {
    /// The message start-up fails with.
    pub fn message(&self) -> (text: &'static str)
        ensures
            *self == StartupError::OtherManagerRunning ==> text@
                == "Unable to change window attributes. Is another window manager running?"@,
            *self == StartupError::CursorRejected ==> text@ == "Unable to set cursor icon."@,
    {
        match self {
            StartupError::OtherManagerRunning =>
                "Unable to change window attributes. Is another window manager running?",
            StartupError::CursorRejected => "Unable to set cursor icon.",
        }
    }
}

/// What start-up works with: the screen, the id reserved for the check
/// window, the two atoms announced as supported, and the root's cursor.
#[derive(Clone, Copy, Debug, PartialEq, Eq, Structural)]
pub struct StartupContext {
    pub screen: Screen,
    pub check_window: Window,
    pub supported: Atom,
    pub supporting_wm_check: Atom,
    pub cursor: Cursor,
}

/// Whether the outcome of a phase's request is checked.
pub open spec fn is_checked(phase: StartupPhase) -> bool {
    phase == StartupPhase::Redirect || phase == StartupPhase::SetCursor
}

/// The requests of a phase.
pub open spec fn startup_requests(phase: StartupPhase, context: StartupContext) -> Seq<RequestView> {
    let root = context.screen.root;
    match phase {
        StartupPhase::Announce => seq![
            RequestView::SetSupported {
                screen: 0,
                atoms: seq![context.supported, context.supporting_wm_check],
            },
            RequestView::CreateWindow {
                depth: WINDOW_CLASS_COPY_FROM_PARENT,
                wid: context.check_window,
                parent: root,
                x: 0,
                y: 0,
                width: 1,
                height: 1,
                border_width: 0,
                class: WINDOW_CLASS_INPUT_OUTPUT,
                visual: context.screen.root_visual,
                values: seq![],
            },
            RequestView::SetSupportingWmCheck { window: root, child: context.check_window },
            RequestView::SetWmName { window: context.check_window, name: "joid"@ },
        ],
        StartupPhase::Redirect => seq![
            RequestView::ChangeWindowAttributesChecked {
                window: root,
                values: seq![
                    (
                        CW_EVENT_MASK,
                        EVENT_MASK_SUBSTRUCTURE_REDIRECT | EVENT_MASK_SUBSTRUCTURE_NOTIFY,
                    ),
                ],
            },
        ],
        StartupPhase::SetCursor => seq![
            RequestView::ChangeWindowAttributesChecked {
                window: root,
                values: seq![(CW_CURSOR, context.cursor)],
            },
        ],
        StartupPhase::Flush => seq![RequestView::Flush],
        _ => seq![],
    }
}

/// The phase after `phase`, given whether its checked request failed (the
/// flag is read only for checked phases).
pub open spec fn next_phase(phase: StartupPhase, check_failed: bool) -> Result<
    StartupPhase,
    StartupError,
> {
    match phase {
        StartupPhase::Announce => Ok(StartupPhase::Redirect),
        StartupPhase::Redirect => if check_failed {
            Err(StartupError::OtherManagerRunning)
        } else {
            Ok(StartupPhase::InitPlugins)
        },
        StartupPhase::InitPlugins => Ok(StartupPhase::SetCursor),
        StartupPhase::SetCursor => if check_failed {
            Err(StartupError::CursorRejected)
        } else {
            Ok(StartupPhase::Flush)
        },
        StartupPhase::Flush => Ok(StartupPhase::Running),
        StartupPhase::Running => Ok(StartupPhase::Running),
    }
}

/// The requests to send in `phase`; see [`startup_requests`].
pub fn phase_requests(phase: StartupPhase, context: &StartupContext) -> (requests: Vec<Request>)
    ensures
        views(requests@) == startup_requests(phase, *context),
{
    let root = context.screen.root;
    let mut requests: Vec<Request> = Vec::new();
    match phase {
        StartupPhase::Announce => {
            let atoms: Vec<Atom> = vec![context.supported, context.supporting_wm_check];
            requests.push(Request::SetSupported { screen: 0, atoms });
            requests.push(
                Request::CreateWindow {
                    depth: WINDOW_CLASS_COPY_FROM_PARENT,
                    wid: context.check_window,
                    parent: root,
                    x: 0,
                    y: 0,
                    width: 1,
                    height: 1,
                    border_width: 0,
                    class: WINDOW_CLASS_INPUT_OUTPUT,
                    visual: context.screen.root_visual,
                    values: Vec::new(),
                },
            );
            requests.push(Request::SetSupportingWmCheck { window: root, child: context.check_window });
            requests.push(Request::SetWmName { window: context.check_window, name: "joid".to_owned() });
        },
        StartupPhase::Redirect => {
            let values: Vec<(u32, u32)> = vec![
                (CW_EVENT_MASK, EVENT_MASK_SUBSTRUCTURE_REDIRECT | EVENT_MASK_SUBSTRUCTURE_NOTIFY),
            ];
            assert(values@ =~= seq![
                (CW_EVENT_MASK, EVENT_MASK_SUBSTRUCTURE_REDIRECT | EVENT_MASK_SUBSTRUCTURE_NOTIFY),
            ]);
            requests.push(Request::ChangeWindowAttributesChecked { window: root, values });
        },
        StartupPhase::SetCursor => {
            let values: Vec<(u32, u32)> = vec![(CW_CURSOR, context.cursor)];
            assert(values@ =~= seq![(CW_CURSOR, context.cursor)]);
            requests.push(Request::ChangeWindowAttributesChecked { window: root, values });
        },
        StartupPhase::Flush => {
            requests.push(Request::Flush);
        },
        _ => {},
    }
    assert(views(requests@) =~= startup_requests(phase, *context));
    requests
}

/// Moves start-up on from `phase`; see [`next_phase`].
pub fn advance(phase: StartupPhase, check_failed: bool) -> (next: Result<StartupPhase, StartupError>)
    ensures
        next == next_phase(phase, check_failed),
{
    match phase {
        StartupPhase::Announce => Ok(StartupPhase::Redirect),
        StartupPhase::Redirect => if check_failed {
            Err(StartupError::OtherManagerRunning)
        } else {
            Ok(StartupPhase::InitPlugins)
        },
        StartupPhase::InitPlugins => Ok(StartupPhase::SetCursor),
        StartupPhase::SetCursor => if check_failed {
            Err(StartupError::CursorRejected)
        } else {
            Ok(StartupPhase::Flush)
        },
        StartupPhase::Flush => Ok(StartupPhase::Running),
        StartupPhase::Running => Ok(StartupPhase::Running),
    }
}

/// Start-up runs its phases in one fixed order: when no check fails it goes
/// from announcing to running in five steps, through redirection, plugin
/// initialisation, the cursor and a flush; once running it stays running.
pub proof fn lemma_startup_order()
    ensures
        next_phase(StartupPhase::Announce, false) == Ok::<StartupPhase, StartupError>(
            StartupPhase::Redirect,
        ),
        next_phase(StartupPhase::Redirect, false) == Ok::<StartupPhase, StartupError>(
            StartupPhase::InitPlugins,
        ),
        next_phase(StartupPhase::InitPlugins, false) == Ok::<StartupPhase, StartupError>(
            StartupPhase::SetCursor,
        ),
        next_phase(StartupPhase::SetCursor, false) == Ok::<StartupPhase, StartupError>(
            StartupPhase::Flush,
        ),
        next_phase(StartupPhase::Flush, false) == Ok::<StartupPhase, StartupError>(
            StartupPhase::Running,
        ),
        forall|failed: bool|
            #[trigger] next_phase(StartupPhase::Running, failed) == Ok::<StartupPhase, StartupError>(
                StartupPhase::Running,
            ),
{
}

/// Start-up stops only on a checked request that failed: a phase without a
/// check always moves on, and a checked phase stops exactly when its check
/// failed, with the error of that phase.
pub proof fn lemma_startup_fails_only_on_checks(phase: StartupPhase, check_failed: bool)
    ensures
        next_phase(phase, check_failed) is Err <==> (is_checked(phase) && check_failed),
        phase == StartupPhase::Redirect && check_failed ==> next_phase(phase, check_failed)
            == Err::<StartupPhase, StartupError>(StartupError::OtherManagerRunning),
        phase == StartupPhase::SetCursor && check_failed ==> next_phase(phase, check_failed)
            == Err::<StartupPhase, StartupError>(StartupError::CursorRejected),
{
}

/// Exactly the eight dispatched event codes reach their own hooks; every
/// other code goes to the unspecified hook with that very code.
pub proof fn lemma_hooks_by_code(code: u8)
    ensures
        (hook_of(code) == Hook::ClientMessage) <==> code == 33,
        (hook_of(code) == Hook::KeyPress) <==> code == 2,
        (hook_of(code) == Hook::ConfigureRequest) <==> code == 23,
        (hook_of(code) == Hook::MapRequest) <==> code == 20,
        (hook_of(code) == Hook::PropertyNotify) <==> code == 28,
        (hook_of(code) == Hook::EnterNotify) <==> code == 7,
        (hook_of(code) == Hook::UnmapNotify) <==> code == 18,
        (hook_of(code) == Hook::DestroyNotify) <==> code == 17,
        code != 33 && code != 2 && code != 23 && code != 20 && code != 28 && code != 7 && code
            != 18 && code != 17 ==> hook_of(code) == Hook::Unspecified(code),
        forall|other: u8| hook_of(code) == Hook::Unspecified(other) ==> other == code,
{
}

/// Announcing names the reserved check window everywhere: it is created as a
/// 1x1 input-output child of the root, the root points to it, and it is named
/// "joid"; the supported atoms are the two given ones, on screen 0.
pub proof fn lemma_announce_names_check_window(context: StartupContext)
    ensures
        startup_requests(StartupPhase::Announce, context) == seq![
            RequestView::SetSupported {
                screen: 0,
                atoms: seq![context.supported, context.supporting_wm_check],
            },
            RequestView::CreateWindow {
                depth: 0,
                wid: context.check_window,
                parent: context.screen.root,
                x: 0,
                y: 0,
                width: 1,
                height: 1,
                border_width: 0,
                class: 1,
                visual: context.screen.root_visual,
                values: seq![],
            },
            RequestView::SetSupportingWmCheck {
                window: context.screen.root,
                child: context.check_window,
            },
            RequestView::SetWmName { window: context.check_window, name: "joid"@ },
        ],
        startup_requests(StartupPhase::Redirect, context) == seq![
            RequestView::ChangeWindowAttributesChecked {
                window: context.screen.root,
                values: seq![(2048u32, 0x180000u32)],
            },
        ],
        startup_requests(StartupPhase::SetCursor, context) == seq![
            RequestView::ChangeWindowAttributesChecked {
                window: context.screen.root,
                values: seq![(16384u32, context.cursor)],
            },
        ],
        startup_requests(StartupPhase::InitPlugins, context) == Seq::<RequestView>::empty(),
        startup_requests(StartupPhase::Flush, context) == seq![RequestView::Flush],
        startup_requests(StartupPhase::Running, context) == Seq::<RequestView>::empty(),
{
    assert(EVENT_MASK_SUBSTRUCTURE_REDIRECT | EVENT_MASK_SUBSTRUCTURE_NOTIFY == 0x180000u32)
        by (bit_vector);
}

} // verus!
