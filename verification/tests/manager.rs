use joid::manager::{
    advance, event_hook, get_screen, phase_requests, Hook, StartupContext, StartupError,
    StartupPhase,
};
use joid::protocol::{Request, Screen};

fn context() -> StartupContext {
    StartupContext {
        screen: Screen { root: 1, root_visual: 33 },
        check_window: 50,
        supported: 300,
        supporting_wm_check: 301,
        cursor: 60,
    }
}

#[test]
fn get_screen_takes_the_first() {
    let roots = vec![Screen { root: 1, root_visual: 2 }, Screen { root: 3, root_visual: 4 }];
    assert_eq!(get_screen(&roots), Screen { root: 1, root_visual: 2 });
}

#[test]
fn event_hooks_by_code() {
    assert_eq!(event_hook(33), Hook::ClientMessage);
    assert_eq!(event_hook(2), Hook::KeyPress);
    assert_eq!(event_hook(23), Hook::ConfigureRequest);
    assert_eq!(event_hook(20), Hook::MapRequest);
    assert_eq!(event_hook(28), Hook::PropertyNotify);
    assert_eq!(event_hook(7), Hook::EnterNotify);
    assert_eq!(event_hook(18), Hook::UnmapNotify);
    assert_eq!(event_hook(17), Hook::DestroyNotify);
    assert_eq!(event_hook(12), Hook::Unspecified(12));
    assert_eq!(event_hook(0), Hook::Unspecified(0));
}

#[test]
fn event_hook_ignores_send_event_bit() {
    for code in 0u8..128 {
        assert_eq!(event_hook(code | 0x80), event_hook(code));
    }
    assert_eq!(event_hook(0x80 | 20), Hook::MapRequest);
    assert_eq!(event_hook(0x80 | 12), Hook::Unspecified(12));
}

#[test]
fn startup_runs_in_order_without_failures() {
    let mut phase = StartupPhase::Announce;
    let mut seen = vec![phase];
    while phase != StartupPhase::Running {
        phase = advance(phase, false).unwrap();
        seen.push(phase);
    }
    assert_eq!(
        seen,
        vec![
            StartupPhase::Announce,
            StartupPhase::Redirect,
            StartupPhase::InitPlugins,
            StartupPhase::SetCursor,
            StartupPhase::Flush,
            StartupPhase::Running,
        ]
    );
    assert_eq!(advance(StartupPhase::Running, true), Ok(StartupPhase::Running));
}

#[test]
fn startup_fails_on_refused_redirection() {
    assert_eq!(advance(StartupPhase::Redirect, true), Err(StartupError::OtherManagerRunning));
    assert_eq!(
        StartupError::OtherManagerRunning.message(),
        "Unable to change window attributes. Is another window manager running?"
    );
}

#[test]
fn startup_fails_on_refused_cursor() {
    assert_eq!(advance(StartupPhase::SetCursor, true), Err(StartupError::CursorRejected));
    assert_eq!(StartupError::CursorRejected.message(), "Unable to set cursor icon.");
}

#[test]
fn unchecked_phases_ignore_failure_flag() {
    assert_eq!(advance(StartupPhase::Announce, true), Ok(StartupPhase::Redirect));
    assert_eq!(advance(StartupPhase::InitPlugins, true), Ok(StartupPhase::SetCursor));
    assert_eq!(advance(StartupPhase::Flush, true), Ok(StartupPhase::Running));
}

#[test]
fn announce_requests() {
    assert_eq!(
        phase_requests(StartupPhase::Announce, &context()),
        vec![
            Request::SetSupported { screen: 0, atoms: vec![300, 301] },
            Request::CreateWindow {
                depth: 0,
                wid: 50,
                parent: 1,
                x: 0,
                y: 0,
                width: 1,
                height: 1,
                border_width: 0,
                class: 1,
                visual: 33,
                values: vec![],
            },
            Request::SetSupportingWmCheck { window: 1, child: 50 },
            Request::SetWmName { window: 50, name: "joid".to_string() },
        ]
    );
}

#[test]
fn checked_and_final_phase_requests() {
    assert_eq!(
        phase_requests(StartupPhase::Redirect, &context()),
        vec![Request::ChangeWindowAttributesChecked { window: 1, values: vec![(2048, 0x180000)] }]
    );
    assert_eq!(
        phase_requests(StartupPhase::SetCursor, &context()),
        vec![Request::ChangeWindowAttributesChecked { window: 1, values: vec![(16384, 60)] }]
    );
    assert_eq!(phase_requests(StartupPhase::Flush, &context()), vec![Request::Flush]);
    assert!(phase_requests(StartupPhase::InitPlugins, &context()).is_empty());
    assert!(phase_requests(StartupPhase::Running, &context()).is_empty());
}
