use wt_app::backend::{wayland_backend, wayland_decoration, Decoration, SurfaceBackend};
use wt_app::common::{
    from_handle, to_handle, Color, HandleKind, SurfaceWrapper, WRequestResult, WResponse,
};
use wt_app::desktop::DE;
use wt_app::policy::DecorationMode;
use wt_app::session::{SessionEvent, SessionState};
use wt_app::theme::{CursorType, ThemeOp};

#[test]
fn handle_cast_succeeds_on_matching_kind() {
    let wrapper = to_handle(HandleKind::WaylandSession, 0x1234);
    assert!(!wrapper.is_null());
    assert_eq!(
        wrapper.cast(HandleKind::WaylandSession),
        WRequestResult::Success(0x1234)
    );
    assert_eq!(
        from_handle(&wrapper, HandleKind::WaylandSession),
        WRequestResult::Success(0x1234)
    );
}

#[test]
fn handle_cast_fails_on_wrong_kind() {
    let wrapper = SurfaceWrapper::new(HandleKind::NativeView, 77);
    assert_eq!(
        wrapper.cast(HandleKind::WaylandFrame),
        WRequestResult::Fail(WResponse::UnexpectedNullHandle)
    );
    assert_eq!(
        from_handle(&wrapper, HandleKind::PixelBuffer),
        WRequestResult::Fail(WResponse::UnexpectedNullHandle)
    );
}

#[test]
fn null_handle_is_rejected() {
    let wrapper = SurfaceWrapper::new(HandleKind::WaylandFrame, 0);
    assert!(wrapper.is_null());
    assert_eq!(
        wrapper.cast(HandleKind::WaylandFrame),
        WRequestResult::Fail(WResponse::UnexpectedNullHandle)
    );
}

#[test]
fn color_from_channels() {
    let c = Color::from(12, 34, 56, 255);
    assert_eq!(c.R, 12);
    assert_eq!(c.G, 34);
    assert_eq!(c.B, 56);
    assert_eq!(c.A, 255);
}

#[test]
fn theme_blur_request_follows_flag() {
    assert!(ThemeOp::Dark { blur: true }.blur_requested());
    assert!(!ThemeOp::Dark { blur: false }.blur_requested());
    assert!(ThemeOp::Light { blur: true }.blur_requested());
    assert!(!ThemeOp::Light { blur: false }.blur_requested());
    assert_eq!(CursorType::Default, CursorType::Default);
}

fn configured_session() -> SessionState {
    let mut state = SessionState::new(String::from("walkie talkie"));
    state.connection_established();
    state.registry_global("wl_compositor");
    state.registry_global("xdg_wm_base");
    state.event(SessionEvent::Configure { serial: 1 });
    state
}

#[test]
fn backend_produced_only_after_configuration() {
    let session_handle = to_handle(HandleKind::WaylandSession, 0xbeef);

    let unconfigured = SessionState::new(String::from("walkie talkie"));
    assert_eq!(
        wayland_backend(&unconfigured, session_handle),
        WRequestResult::Fail(WResponse::ConfigurationNeverCompleted)
    );

    let configured = configured_session();
    assert_eq!(
        wayland_backend(&configured, session_handle),
        WRequestResult::Success(SurfaceBackend::Linux {
            session: session_handle,
        })
    );
}

#[test]
fn backend_accessors_check_the_variant() {
    let session_handle = to_handle(HandleKind::WaylandSession, 0xbeef);
    let linux = SurfaceBackend::Linux {
        session: session_handle,
    };
    assert_eq!(
        linux.linux_session(),
        WRequestResult::Success(session_handle)
    );
    assert_eq!(
        linux.macos_view(),
        WRequestResult::Fail(WResponse::UnexpectedNullHandle)
    );
    assert_eq!(
        SurfaceBackend::Headless.linux_session(),
        WRequestResult::Fail(WResponse::UnexpectedNullHandle)
    );
}

#[test]
fn decoration_for_configured_session_uses_policy_mode() {
    let session_handle = to_handle(HandleKind::WaylandSession, 0xbeef);
    let frame_handle = to_handle(HandleKind::WaylandFrame, 0xcafe);

    let configured = configured_session();
    let decoration = wayland_decoration(&DE::Gnome, &configured, frame_handle, session_handle);
    assert_eq!(
        decoration,
        WRequestResult::Success(Decoration {
            mode: DecorationMode::ClientSide,
            frame: frame_handle,
            backend: SurfaceBackend::Linux {
                session: session_handle,
            },
        })
    );

    let decoration = wayland_decoration(&DE::Kde, &configured, frame_handle, session_handle);
    match decoration {
        WRequestResult::Success(d) => assert_eq!(d.mode, DecorationMode::ServerSide),
        WRequestResult::Fail(_) => panic!("configured session must yield a decoration"),
    }
}

#[test]
fn decoration_reports_unfinished_handshake() {
    let session_handle = to_handle(HandleKind::WaylandSession, 0xbeef);
    let frame_handle = to_handle(HandleKind::WaylandFrame, 0xcafe);

    let mut state = SessionState::new(String::from("walkie talkie"));
    state.connection_established();
    state.registry_global("wl_compositor");
    state.registry_global("xdg_wm_base");
    state.event(SessionEvent::ToplevelClose);

    assert_eq!(
        wayland_decoration(&DE::Gnome, &state, frame_handle, session_handle),
        WRequestResult::Fail(WResponse::ConfigurationNeverCompleted)
    );
}
