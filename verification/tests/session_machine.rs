use wt_app::session::{
    classify_global, GlobalKind, SessionAction, SessionEvent, SessionPhase, SessionState,
    TopLevelFrame, KEY_ESC,
};

fn fresh_connected_session() -> SessionState {
    let mut state = SessionState::new(String::from("walkie talkie"));
    state.connection_established();
    state
}

#[test]
fn new_session_is_unconfigured_and_connecting() {
    let state = SessionState::new(String::from("walkie talkie"));
    assert!(!state.is_configured());
    assert!(state.is_running());
    assert_eq!(state.phase(), SessionPhase::Connecting);
    assert_eq!(state.title().as_str(), "walkie talkie");
}

#[test]
fn connection_moves_to_awaiting_globals() {
    let state = fresh_connected_session();
    assert_eq!(state.phase(), SessionPhase::AwaitingGlobals);
}

#[test]
fn classify_global_matches_interface_names() {
    assert_eq!(classify_global("wl_compositor"), GlobalKind::Compositor);
    assert_eq!(classify_global("wl_seat"), GlobalKind::Seat);
    assert_eq!(classify_global("xdg_wm_base"), GlobalKind::WmBase);
    assert_eq!(classify_global("wl_shm"), GlobalKind::Other);
    assert_eq!(classify_global(""), GlobalKind::Other);
}

#[test]
fn frame_created_once_compositor_first() {
    let mut state = fresh_connected_session();
    let first = state.registry_global("wl_compositor");
    assert_eq!(first, vec![SessionAction::BindCompositor { surface: 1 }]);
    assert_eq!(state.phase(), SessionPhase::SurfaceCreated);

    let second = state.registry_global("xdg_wm_base");
    assert_eq!(
        second,
        vec![
            SessionAction::BindWmBase { wm_base: 2 },
            SessionAction::CreateTopLevelFrame {
                frame: TopLevelFrame {
                    xdg_surface: 3,
                    toplevel: 4,
                },
            },
        ]
    );
    assert_eq!(state.phase(), SessionPhase::AwaitingConfigure);
}

#[test]
fn frame_created_once_wm_base_first() {
    let mut state = fresh_connected_session();
    let first = state.registry_global("xdg_wm_base");
    assert_eq!(first, vec![SessionAction::BindWmBase { wm_base: 1 }]);
    assert_eq!(state.phase(), SessionPhase::AwaitingGlobals);

    let second = state.registry_global("wl_compositor");
    assert_eq!(
        second,
        vec![
            SessionAction::BindCompositor { surface: 2 },
            SessionAction::CreateTopLevelFrame {
                frame: TopLevelFrame {
                    xdg_surface: 3,
                    toplevel: 4,
                },
            },
        ]
    );
    assert_eq!(state.phase(), SessionPhase::AwaitingConfigure);
}

#[test]
fn duplicate_globals_do_not_recreate_frame() {
    let mut state = fresh_connected_session();
    state.registry_global("xdg_wm_base");
    state.registry_global("wl_compositor");

    let duplicate_wm = state.registry_global("xdg_wm_base");
    assert!(duplicate_wm.is_empty());
    let duplicate_compositor = state.registry_global("wl_compositor");
    assert!(duplicate_compositor.is_empty());
    assert_eq!(state.phase(), SessionPhase::AwaitingConfigure);
}

#[test]
fn unknown_global_is_ignored() {
    let mut state = fresh_connected_session();
    let actions = state.registry_global("wl_output");
    assert!(actions.is_empty());
    assert_eq!(state.phase(), SessionPhase::AwaitingGlobals);
}

#[test]
fn seat_capabilities_bind_keyboard_only_when_offered() {
    let mut state = fresh_connected_session();
    let bound = state.event(SessionEvent::SeatCapabilities { keyboard: true });
    assert_eq!(bound, vec![SessionAction::BindKeyboard]);
    let none = state.event(SessionEvent::SeatCapabilities { keyboard: false });
    assert!(none.is_empty());
}

#[test]
fn ping_produces_exactly_one_pong_with_same_serial() {
    let mut state = fresh_connected_session();
    let actions = state.event(SessionEvent::Ping { serial: 42 });
    assert_eq!(actions, vec![SessionAction::Pong { serial: 42 }]);
    let actions = state.event(SessionEvent::Ping { serial: 7 });
    assert_eq!(actions, vec![SessionAction::Pong { serial: 7 }]);
    assert_eq!(state.phase(), SessionPhase::AwaitingGlobals);
}

#[test]
fn configure_is_acknowledged_with_exact_serial() {
    let mut state = fresh_connected_session();
    state.registry_global("wl_compositor");
    state.registry_global("xdg_wm_base");
    assert!(!state.is_configured());

    let actions = state.event(SessionEvent::Configure { serial: 9001 });
    assert_eq!(actions, vec![SessionAction::AckConfigure { serial: 9001 }]);
    assert!(state.is_configured());
    assert_eq!(state.phase(), SessionPhase::Configured);
}

#[test]
fn configure_without_frame_is_ignored() {
    let mut state = fresh_connected_session();
    let actions = state.event(SessionEvent::Configure { serial: 5 });
    assert!(actions.is_empty());
    assert!(!state.is_configured());
}

#[test]
fn pending_buffer_attached_at_configure() {
    let mut state = fresh_connected_session();
    state.registry_global("wl_compositor");
    state.registry_global("xdg_wm_base");

    let deferred = state.event(SessionEvent::BufferReady { buffer: 11 });
    assert!(deferred.is_empty());

    let actions = state.event(SessionEvent::Configure { serial: 3 });
    assert_eq!(
        actions,
        vec![
            SessionAction::AckConfigure { serial: 3 },
            SessionAction::AttachBufferAndCommit { buffer: 11 },
        ]
    );
}

#[test]
fn buffer_after_configure_attaches_immediately() {
    let mut state = fresh_connected_session();
    state.registry_global("wl_compositor");
    state.registry_global("xdg_wm_base");
    state.event(SessionEvent::Configure { serial: 1 });

    let actions = state.event(SessionEvent::BufferReady { buffer: 8 });
    assert_eq!(actions, vec![SessionAction::AttachBufferAndCommit { buffer: 8 }]);
}

#[test]
fn close_event_ends_the_session() {
    let mut state = fresh_connected_session();
    let actions = state.event(SessionEvent::ToplevelClose);
    assert!(actions.is_empty());
    assert!(!state.is_running());
    assert_eq!(state.phase(), SessionPhase::Closed);
}

#[test]
fn escape_key_ends_the_session() {
    let mut state = fresh_connected_session();
    let ignored = state.event(SessionEvent::Key { code: 30 });
    assert!(ignored.is_empty());
    assert!(state.is_running());

    let actions = state.event(SessionEvent::Key { code: KEY_ESC });
    assert!(actions.is_empty());
    assert!(!state.is_running());
    assert_eq!(state.phase(), SessionPhase::Closed);
}

#[test]
fn closed_session_processes_no_further_event() {
    let mut state = fresh_connected_session();
    state.event(SessionEvent::ToplevelClose);

    let ping = state.event(SessionEvent::Ping { serial: 12 });
    assert!(ping.is_empty());
    let global = state.registry_global("wl_compositor");
    assert!(global.is_empty());
    let configure = state.event(SessionEvent::Configure { serial: 2 });
    assert!(configure.is_empty());
    assert!(!state.is_running());
    assert_eq!(state.phase(), SessionPhase::Closed);
}
