//! The surface backend handed to the renderer, and the decoration value
//! that owns it: a closed, platform-tagged union around an opaque native
//! drawable handle, produced once a session is usable — immediately on
//! platforms that do not negotiate, and only after the configure
//! handshake on Wayland.

use crate::common::{SurfaceWrapper, WRequestResult, WResponse};
use crate::desktop::DE;
use crate::policy::{spec_decoration_mode, decoration_mode, DecorationMode};
use crate::session::SessionState;
use vstd::prelude::*;

verus! {

/// The platform-tagged drawable a renderer consumes. Exactly one variant
/// is populated per build target; the handle is a non-owning reference
/// into the platform layer, valid for the lifetime of the decoration
/// that produced it.
#[derive(Clone, Copy, Debug, PartialEq, Eq, Structural)]
pub enum SurfaceBackend {
    /// macOS: the view object to create the native surface from.
    MacOS {
        /// Handle of the view.
        ns_view: SurfaceWrapper,
    },
    /// Windows.
    Windows {},
    /// Linux: a Wayland session whose surface finished its handshake.
    Linux {
        /// Handle of the session state owned by the dispatch loop.
        session: SurfaceWrapper,
    },
    /// No real drawable, reserved for non-interactive testing.
    Headless,
}

impl SurfaceBackend {
    /// The Wayland session handle. Reading it on any other variant is a
    /// programming error and is reported as such, never undefined.
    pub fn linux_session(&self) -> (r: WRequestResult<SurfaceWrapper>)
        ensures
            (*self) matches SurfaceBackend::Linux { session } ==> r == WRequestResult::<
                SurfaceWrapper,
            >::Success(session),
            self !is Linux ==> r == WRequestResult::<SurfaceWrapper>::Fail(
                WResponse::UnexpectedNullHandle,
            ),
    {
        match self {
            SurfaceBackend::Linux { session } => WRequestResult::Success(*session),
            _ => WRequestResult::Fail(WResponse::UnexpectedNullHandle),
        }
    }

    /// The macOS view handle. Reading it on any other variant is a
    /// programming error and is reported as such, never undefined.
    pub fn macos_view(&self) -> (r: WRequestResult<SurfaceWrapper>)
        ensures
            (*self) matches SurfaceBackend::MacOS { ns_view } ==> r == WRequestResult::<
                SurfaceWrapper,
            >::Success(ns_view),
            self !is MacOS ==> r == WRequestResult::<SurfaceWrapper>::Fail(
                WResponse::UnexpectedNullHandle,
            ),
    {
        match self {
            SurfaceBackend::MacOS { ns_view } => WRequestResult::Success(*ns_view),
            _ => WRequestResult::Fail(WResponse::UnexpectedNullHandle),
        }
    }
}

/// The native window frame as the windowing facade exposes it upward:
/// the decoration mode the policy chose, the handle of the native frame
/// object, and the backend the renderer will consume.
#[derive(Clone, Copy, Debug, PartialEq, Eq, Structural)]
pub struct Decoration {
    /// Who draws the window chrome.
    pub mode: DecorationMode,
    /// Opaque handle of the native frame object this value owns.
    pub frame: SurfaceWrapper,
    /// The drawable handed to the renderer.
    pub backend: SurfaceBackend,
}

impl Decoration {
    /// Aggregate a decoration from its parts.
    pub fn new(mode: DecorationMode, frame: SurfaceWrapper, backend: SurfaceBackend) -> (d:
        Decoration)
        ensures
            d == (Decoration { mode, frame, backend }),
    {
        Decoration { mode, frame, backend }
    }
}

/// Produce the backend for a Wayland session: the Linux variant wrapping
/// the session handle, exactly when the handshake reached the configured
/// state; a session that ended without configuring is reported as a
/// configuration that never completed.
pub fn wayland_backend(state: &SessionState, session: SurfaceWrapper) -> (r: WRequestResult<
    SurfaceBackend,
>)
    ensures
        state.configured ==> r == WRequestResult::<SurfaceBackend>::Success(
            (SurfaceBackend::Linux { session }),
        ),
        !state.configured ==> r == WRequestResult::<SurfaceBackend>::Fail(
            WResponse::ConfigurationNeverCompleted,
        ),
{
    if state.is_configured() {
        WRequestResult::Success(SurfaceBackend::Linux { session })
    } else {
        WRequestResult::Fail(WResponse::ConfigurationNeverCompleted)
    }
}

/// Assemble the decoration for a finished Wayland session: the mode the
/// policy chose for the detected desktop, the given native frame handle,
/// and the Linux backend — exactly when the session configured, and the
/// same error as [`wayland_backend`] otherwise.
pub fn wayland_decoration(
    de: &DE,
    state: &SessionState,
    frame: SurfaceWrapper,
    session: SurfaceWrapper,
) -> (r: WRequestResult<Decoration>)
    ensures
        state.configured ==> r == WRequestResult::<Decoration>::Success(
            (Decoration {
                mode: spec_decoration_mode(*de),
                frame,
                backend: SurfaceBackend::Linux { session },
            }),
        ),
        !state.configured ==> r == WRequestResult::<Decoration>::Fail(
            WResponse::ConfigurationNeverCompleted,
        ),
{
    match wayland_backend(state, session) {
        WRequestResult::Success(backend) => WRequestResult::Success(
            Decoration::new(decoration_mode(de), frame, backend),
        ),
        WRequestResult::Fail(response) => WRequestResult::Fail(response),
    }
}

} // verus!
