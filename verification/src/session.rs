//! The Wayland session state machine.
//!
//! The dispatch loop that owns the display connection lives outside this
//! crate; it translates every wire event into a [`SessionEvent`], hands it
//! to [`SessionState::event`], and performs the returned
//! [`SessionAction`]s against the real protocol objects, in order, before
//! reading the next event. The machine itself is pure: one step is a
//! function of the current state and the event alone, so every protocol
//! obligation below is stated and proved over [`session_step`].
//!
//! The principal hazard is the registry: globals arrive in no particular
//! order, so the top-level frame must be created the first time both the
//! compositor and the window-manager base are bound — whichever came
//! first — and never a second time.

use vstd::prelude::*;

verus! {

/// Key code of the Escape key on the keyboard.
///
/// Receiving it closes the session, just as a compositor close request
/// does. Treating this input event as a termination request is an
/// explicit policy of this machine, not a protocol requirement.
pub const KEY_ESC: u32 = 1;

/// The registry globals the session distinguishes, matched by interface
/// name.
#[derive(Clone, Copy, Debug, PartialEq, Eq, Structural)]
pub enum GlobalKind {
    /// `wl_compositor`: binding it creates the base drawable surface.
    Compositor,
    /// `wl_seat`: input devices; bound so the keyboard can be obtained.
    Seat,
    /// `xdg_wm_base`: the window-manager base, needed for the top level.
    WmBase,
    /// Any other advertised interface; ignored.
    Other,
}

/// The surface-role object paired with its top-level-role object, the two
/// protocol objects that give the base surface window semantics. The
/// fields are the machine-assigned identifiers under which the dispatch
/// layer registers the real objects.
#[derive(Clone, Copy, Debug, PartialEq, Eq, Structural)]
pub struct TopLevelFrame {
    /// Identifier of the surface-role object.
    pub xdg_surface: u32,
    /// Identifier of the top-level-role object.
    pub toplevel: u32,
}

/// One event of the wire protocol, as the dispatch layer reports it.
#[derive(Clone, Copy, Debug, PartialEq, Eq, Structural)]
pub enum SessionEvent {
    /// The registry advertised a global of the given kind.
    Global {
        /// Which of the interfaces the session cares about was named.
        kind: GlobalKind,
    },
    /// The window-manager base asked whether the client is alive.
    Ping {
        /// The serial that the reply must echo.
        serial: u32,
    },
    /// The surface-role object delivered its configure handshake.
    Configure {
        /// The serial that the acknowledgement must echo.
        serial: u32,
    },
    /// The top-level object reported that the user asked to close.
    ToplevelClose,
    /// A seat announced its capabilities.
    SeatCapabilities {
        /// Whether the seat offers a keyboard.
        keyboard: bool,
    },
    /// A key was pressed on the bound keyboard.
    Key {
        /// The platform key code.
        code: u32,
    },
    /// The drawing side made a pixel buffer available for attachment.
    BufferReady {
        /// Identifier of the buffer, chosen by the drawing side.
        buffer: u32,
    },
}

/// One request the dispatch layer must perform against the wire, in the
/// order returned, within the same dispatch turn.
#[derive(Clone, Copy, Debug, PartialEq, Eq, Structural)]
pub enum SessionAction {
    /// Bind the compositor global at version 1 and create the base
    /// surface, registering it under the given identifier.
    BindCompositor {
        /// Machine-assigned identifier of the new base surface.
        surface: u32,
    },
    /// Bind the seat global at version 1.
    BindSeat,
    /// Bind the window-manager-base global at version 1, registering it
    /// under the given identifier.
    BindWmBase {
        /// Machine-assigned identifier of the new binding.
        wm_base: u32,
    },
    /// Create the surface-role and top-level-role objects for the base
    /// surface, set the window title, and commit the surface.
    CreateTopLevelFrame {
        /// Identifiers for the two new objects.
        frame: TopLevelFrame,
    },
    /// Reply to a liveness ping, echoing its serial.
    Pong {
        /// The serial of the ping being answered.
        serial: u32,
    },
    /// Acknowledge a configure event, echoing its serial.
    AckConfigure {
        /// The serial of the configure being acknowledged.
        serial: u32,
    },
    /// Attach the pending pixel buffer to the base surface and commit.
    AttachBufferAndCommit {
        /// Identifier of the buffer to attach.
        buffer: u32,
    },
    /// Obtain the keyboard of the seat that announced one.
    BindKeyboard,
}

/// The abstract protocol states of a session, derived from the data
/// below. The closed state is terminal and reachable from any other.
#[derive(Clone, Copy, Debug, PartialEq, Eq, Structural)]
pub enum SessionPhase {
    /// The display connection is not established yet.
    Connecting,
    /// Connected; waiting for the registry to advertise the globals.
    AwaitingGlobals,
    /// The base surface exists; the top-level frame does not yet.
    SurfaceCreated,
    /// The frame exists; waiting for the first configure event.
    AwaitingConfigure,
    /// The first configure was acknowledged; the surface is drawable.
    Configured,
    /// The session ended; no further event is processed.
    Closed,
}

/// The data of one window-creation attempt: exactly one value exists per
/// attempt, owned by the dispatch loop for its entire lifetime.
#[derive(Clone, Debug)]
pub struct SessionState {
    /// False once the session has ended; never true again afterwards.
    pub running: bool,
    /// Whether the display connection has been established.
    pub connected: bool,
    /// The base drawable surface, once the compositor is bound.
    pub base_surface: Option<u32>,
    /// The pixel buffer waiting to be attached, if one was handed over.
    pub pending_buffer: Option<u32>,
    /// The window-manager-base binding, once its global is bound.
    pub wm_base: Option<u32>,
    /// The top-level frame; created at most once per session.
    pub frame: Option<TopLevelFrame>,
    /// True exactly from the first acknowledged configure event on.
    pub configured: bool,
    /// The window title the frame is created with.
    pub title: String,
    /// The next identifier to assign to a protocol object.
    pub next_id: u32,
}

impl SessionState {
    /// Well-formedness of the session data: the frame presupposes both
    /// globals, configuration presupposes the frame, and every assigned
    /// identifier is distinct, below `next_id`, and accounted for by it.
    pub open spec fn wf(self) -> bool {
        &&& (self.configured ==> self.frame is Some)
        &&& (self.frame is Some ==> self.base_surface is Some && self.wm_base is Some)
        &&& self.next_id as int == 1 + (if self.base_surface is Some {
            1int
        } else {
            0int
        }) + (if self.wm_base is Some {
            1int
        } else {
            0int
        }) + (if self.frame is Some {
            2int
        } else {
            0int
        })
        &&& (self.base_surface is Some ==> 1 <= self.base_surface->0 < self.next_id)
        &&& (self.wm_base is Some ==> 1 <= self.wm_base->0 < self.next_id)
        &&& (self.frame is Some ==> 1 <= self.frame->0.xdg_surface < self.next_id && 1
            <= self.frame->0.toplevel < self.next_id && self.frame->0.xdg_surface
            != self.frame->0.toplevel)
        &&& (self.base_surface is Some && self.wm_base is Some ==> self.base_surface->0
            != self.wm_base->0)
        &&& (self.base_surface is Some && self.frame is Some ==> self.base_surface->0
            != self.frame->0.xdg_surface && self.base_surface->0 != self.frame->0.toplevel)
        &&& (self.wm_base is Some && self.frame is Some ==> self.wm_base->0
            != self.frame->0.xdg_surface && self.wm_base->0 != self.frame->0.toplevel)
    }

    /// The abstract protocol state this data is in.
    pub open spec fn spec_phase(self) -> SessionPhase {
        if !self.running {
            SessionPhase::Closed
        } else if self.configured {
            SessionPhase::Configured
        } else if self.frame is Some {
            SessionPhase::AwaitingConfigure
        } else if self.base_surface is Some {
            SessionPhase::SurfaceCreated
        } else if self.connected {
            SessionPhase::AwaitingGlobals
        } else {
            SessionPhase::Connecting
        }
    }
}

/// The session after termination: running cleared, everything else kept.
pub open spec fn spec_close(s: SessionState) -> SessionState {
    SessionState { running: false, ..s }
}

/// Frame creation, attempted whenever a global was just bound: the frame
/// is created the first time both the base surface and the window-manager
/// base are present, and never again afterwards.
pub open spec fn spec_init_frame(s: SessionState) -> (SessionState, Seq<SessionAction>) {
    if s.base_surface is Some && s.wm_base is Some && s.frame is None {
        let f = TopLevelFrame { xdg_surface: s.next_id, toplevel: (s.next_id + 1) as u32 };
        (
            SessionState { frame: Some(f), next_id: (s.next_id + 2) as u32, ..s },
            seq![SessionAction::CreateTopLevelFrame { frame: f }],
        )
    } else {
        (s, Seq::<SessionAction>::empty())
    }
}

/// Effect of a registry global: the compositor and the window-manager
/// base are bound once each (a repeated advertisement is a guarded
/// no-op), each binding is followed by a frame-creation attempt, a seat
/// is always bound, and unknown interfaces are ignored.
pub open spec fn spec_global(s: SessionState, kind: GlobalKind) -> (
    SessionState,
    Seq<SessionAction>,
) {
    match kind {
        GlobalKind::Compositor => {
            if s.base_surface is Some {
                (s, Seq::<SessionAction>::empty())
            } else {
                let bound = SessionState {
                    base_surface: Some(s.next_id),
                    next_id: (s.next_id + 1) as u32,
                    ..s
                };
                let (after, acts) = spec_init_frame(bound);
                (after, seq![SessionAction::BindCompositor { surface: s.next_id }] + acts)
            }
        },
        GlobalKind::Seat => (s, seq![SessionAction::BindSeat]),
        GlobalKind::WmBase => {
            if s.wm_base is Some {
                (s, Seq::<SessionAction>::empty())
            } else {
                let bound = SessionState {
                    wm_base: Some(s.next_id),
                    next_id: (s.next_id + 1) as u32,
                    ..s
                };
                let (after, acts) = spec_init_frame(bound);
                (after, seq![SessionAction::BindWmBase { wm_base: s.next_id }] + acts)
            }
        },
        GlobalKind::Other => (s, Seq::<SessionAction>::empty()),
    }
}

/// Effect of the configure handshake: it is acknowledged with the exact
/// serial it carried, the session becomes configured, and a pixel buffer
/// already pending is attached and committed in the same turn. A
/// configure without a frame to address cannot occur on the wire and is
/// ignored.
pub open spec fn spec_configure(s: SessionState, serial: u32) -> (
    SessionState,
    Seq<SessionAction>,
) {
    if s.frame is None {
        (s, Seq::<SessionAction>::empty())
    } else {
        let after = SessionState { configured: true, ..s };
        match s.pending_buffer {
            Some(buffer) => (
                after,
                seq![
                    SessionAction::AckConfigure { serial },
                    SessionAction::AttachBufferAndCommit { buffer },
                ],
            ),
            None => (after, seq![SessionAction::AckConfigure { serial }]),
        }
    }
}

/// Effect of a buffer becoming available: it is recorded, and attached at
/// once if the surface is already configured — otherwise attachment waits
/// for the configure handshake.
pub open spec fn spec_buffer_ready(s: SessionState, buffer: u32) -> (
    SessionState,
    Seq<SessionAction>,
) {
    let after = SessionState { pending_buffer: Some(buffer), ..s };
    if s.configured {
        (after, seq![SessionAction::AttachBufferAndCommit { buffer }])
    } else {
        (after, Seq::<SessionAction>::empty())
    }
}

/// One step of the machine: the state after the event and the actions the
/// dispatch layer must perform, in order, in the same turn. A session
/// that is no longer running processes nothing.
pub open spec fn session_step(s: SessionState, ev: SessionEvent) -> (
    SessionState,
    Seq<SessionAction>,
) {
    if !s.running {
        (s, Seq::<SessionAction>::empty())
    } else {
        match ev {
            SessionEvent::Global { kind } => spec_global(s, kind),
            SessionEvent::Ping { serial } => (s, seq![SessionAction::Pong { serial }]),
            SessionEvent::Configure { serial } => spec_configure(s, serial),
            SessionEvent::ToplevelClose => (spec_close(s), Seq::<SessionAction>::empty()),
            SessionEvent::SeatCapabilities { keyboard } => (
                s,
                if keyboard {
                    seq![SessionAction::BindKeyboard]
                } else {
                    Seq::<SessionAction>::empty()
                },
            ),
            SessionEvent::Key { code } => {
                if code == KEY_ESC {
                    (spec_close(s), Seq::<SessionAction>::empty())
                } else {
                    (s, Seq::<SessionAction>::empty())
                }
            },
            SessionEvent::BufferReady { buffer } => spec_buffer_ready(s, buffer),
        }
    }
}

impl SessionState {
    /// A fresh session for one window-creation attempt: not yet
    /// connected, nothing bound, not configured, running.
    pub fn new(title: String) -> (s: Self)
        ensures
            s.wf(),
            s.running,
            !s.connected,
            !s.configured,
            s.base_surface is None,
            s.pending_buffer is None,
            s.wm_base is None,
            s.frame is None,
            s.title == title,
            s.spec_phase() == SessionPhase::Connecting,
    {
        SessionState {
            running: true,
            connected: false,
            base_surface: None,
            pending_buffer: None,
            wm_base: None,
            frame: None,
            configured: false,
            title,
            next_id: 1,
        }
    }

    /// Record that the display connection was opened; the session then
    /// awaits the registry globals.
    pub fn connection_established(&mut self)
        requires
            old(self).wf(),
            !old(self).connected,
        ensures
            *final(self) == (SessionState { connected: true, ..*old(self) }),
            final(self).wf(),
    {
        self.connected = true;
    }

    /// Frame creation, attempted after a global was bound: creates the
    /// surface-role / top-level-role pair the first time both the base
    /// surface and the window-manager base are present; a guarded no-op
    /// on every later attempt.
    fn init_xdg_surface(&mut self) -> (actions: Vec<SessionAction>)
        requires
            old(self).next_id as int + 2 <= u32::MAX as int,
        ensures
            *final(self) == spec_init_frame(*old(self)).0,
            actions@ == spec_init_frame(*old(self)).1,
    {
        if self.base_surface.is_some() && self.wm_base.is_some() && self.frame.is_none() {
            let f = TopLevelFrame { xdg_surface: self.next_id, toplevel: self.next_id + 1 };
            self.frame = Some(f);
            self.next_id = self.next_id + 2;
            let mut actions: Vec<SessionAction> = Vec::new();
            actions.push(SessionAction::CreateTopLevelFrame { frame: f });
            assert(actions@ =~= spec_init_frame(*old(self)).1);
            actions
        } else {
            Vec::new()
        }
    }

    /// Handle one registry global.
    fn handle_global(&mut self, kind: GlobalKind) -> (actions: Vec<SessionAction>)
        requires
            old(self).wf(),
        ensures
            *final(self) == spec_global(*old(self), kind).0,
            actions@ == spec_global(*old(self), kind).1,
    {
        match kind {
            GlobalKind::Compositor => {
                if self.base_surface.is_some() {
                    Vec::new()
                } else {
                    let surface = self.next_id;
                    self.base_surface = Some(surface);
                    self.next_id = self.next_id + 1;
                    let mut actions: Vec<SessionAction> = Vec::new();
                    actions.push(SessionAction::BindCompositor { surface });
                    let mut more = self.init_xdg_surface();
                    actions.append(&mut more);
                    assert(actions@ =~= spec_global(*old(self), kind).1);
                    actions
                }
            },
            GlobalKind::Seat => {
                let mut actions: Vec<SessionAction> = Vec::new();
                actions.push(SessionAction::BindSeat);
                assert(actions@ =~= seq![SessionAction::BindSeat]);
                actions
            },
            GlobalKind::WmBase => {
                if self.wm_base.is_some() {
                    Vec::new()
                } else {
                    let wm_base = self.next_id;
                    self.wm_base = Some(wm_base);
                    self.next_id = self.next_id + 1;
                    let mut actions: Vec<SessionAction> = Vec::new();
                    actions.push(SessionAction::BindWmBase { wm_base });
                    let mut more = self.init_xdg_surface();
                    actions.append(&mut more);
                    assert(actions@ =~= spec_global(*old(self), kind).1);
                    actions
                }
            },
            GlobalKind::Other => Vec::new(),
        }
    }

    /// Process one protocol event and return the requests the dispatch
    /// layer must perform, in order, within the same turn. One step of
    /// [`session_step`]; well-formedness is preserved.
    pub fn event(&mut self, ev: SessionEvent) -> (actions: Vec<SessionAction>)
        requires
            old(self).wf(),
        ensures
            *final(self) == session_step(*old(self), ev).0,
            actions@ == session_step(*old(self), ev).1,
            final(self).wf(),
    {
        proof {
            lemma_step_preserves_wf(*old(self), ev);
        }
        if !self.running {
            return Vec::new();
        }
        match ev {
            SessionEvent::Global { kind } => self.handle_global(kind),
            SessionEvent::Ping { serial } => {
                let mut actions: Vec<SessionAction> = Vec::new();
                actions.push(SessionAction::Pong { serial });
                assert(actions@ =~= seq![SessionAction::Pong { serial }]);
                actions
            },
            SessionEvent::Configure { serial } => {
                if self.frame.is_none() {
                    Vec::new()
                } else {
                    self.configured = true;
                    let mut actions: Vec<SessionAction> = Vec::new();
                    actions.push(SessionAction::AckConfigure { serial });
                    match self.pending_buffer {
                        Some(buffer) => {
                            actions.push(SessionAction::AttachBufferAndCommit { buffer });
                            assert(actions@ =~= session_step(*old(self), ev).1);
                        },
                        None => {
                            assert(actions@ =~= session_step(*old(self), ev).1);
                        },
                    }
                    actions
                }
            },
            SessionEvent::ToplevelClose => {
                self.running = false;
                Vec::new()
            },
            SessionEvent::SeatCapabilities { keyboard } => {
                if keyboard {
                    let mut actions: Vec<SessionAction> = Vec::new();
                    actions.push(SessionAction::BindKeyboard);
                    assert(actions@ =~= seq![SessionAction::BindKeyboard]);
                    actions
                } else {
                    Vec::new()
                }
            },
            SessionEvent::Key { code } => {
                if code == KEY_ESC {
                    self.running = false;
                }
                Vec::new()
            },
            SessionEvent::BufferReady { buffer } => {
                self.pending_buffer = Some(buffer);
                if self.configured {
                    let mut actions: Vec<SessionAction> = Vec::new();
                    actions.push(SessionAction::AttachBufferAndCommit { buffer });
                    assert(actions@ =~= seq![SessionAction::AttachBufferAndCommit { buffer }]);
                    actions
                } else {
                    Vec::new()
                }
            },
        }
    }
}

/// Character-for-character equality of two string slices.
fn str_equal(a: &str, b: &str) -> (r: bool)
    ensures
        r == (a@ == b@),
{
    let a_len = a.unicode_len();
    let b_len = b.unicode_len();
    if a_len != b_len {
        return false;
    }
    let mut i: usize = 0;
    while i < a_len
        invariant
            a_len == a@.len(),
            b_len == b@.len(),
            a_len == b_len,
            i <= a_len,
            forall|t: int| 0 <= t < i ==> a@[t] == b@[t],
        decreases a_len - i,
    {
        if a.get_char(i) != b.get_char(i) {
            return false;
        }
        i = i + 1;
    }
    assert(a@ =~= b@);
    true
}

/// The global a registry interface name denotes.
pub open spec fn spec_classify_global(interface: Seq<char>) -> GlobalKind {
    if interface == "wl_compositor"@ {
        GlobalKind::Compositor
    } else if interface == "wl_seat"@ {
        GlobalKind::Seat
    } else if interface == "xdg_wm_base"@ {
        GlobalKind::WmBase
    } else {
        GlobalKind::Other
    }
}

/// Match an advertised registry interface name against the globals the
/// session binds.
pub fn classify_global(interface: &str) -> (kind: GlobalKind)
    ensures
        kind == spec_classify_global(interface@),
{
    if str_equal(interface, "wl_compositor") {
        GlobalKind::Compositor
    } else if str_equal(interface, "wl_seat") {
        GlobalKind::Seat
    } else if str_equal(interface, "xdg_wm_base") {
        GlobalKind::WmBase
    } else {
        GlobalKind::Other
    }
}

impl SessionState {
    /// Handle a registry advertisement as it comes off the wire: match
    /// the interface name and process the resulting global event.
    pub fn registry_global(&mut self, interface: &str) -> (actions: Vec<SessionAction>)
        requires
            old(self).wf(),
        ensures
            *final(self) == session_step(
                *old(self),
                SessionEvent::Global { kind: spec_classify_global(interface@) },
            ).0,
            actions@ == session_step(
                *old(self),
                SessionEvent::Global { kind: spec_classify_global(interface@) },
            ).1,
            final(self).wf(),
    {
        let kind = classify_global(interface);
        self.event(SessionEvent::Global { kind })
    }
}

/// Every step of the machine preserves well-formedness of the session
/// data: whatever event arrives in whatever state, the frame still
/// presupposes its globals, configuration its frame, and the assigned
/// identifiers stay distinct.
pub proof fn lemma_step_preserves_wf(s: SessionState, ev: SessionEvent)
    requires
        s.wf(),
    ensures
        session_step(s, ev).0.wf(),
{
    if s.running {
        match ev {
            SessionEvent::Global { kind } => {
                match kind {
                    GlobalKind::Compositor => {
                        if s.base_surface is None {
                            let bound = SessionState {
                                base_surface: Some(s.next_id),
                                next_id: (s.next_id + 1) as u32,
                                ..s
                            };
                            assert(spec_init_frame(bound).0.wf());
                        }
                    },
                    GlobalKind::WmBase => {
                        if s.wm_base is None {
                            let bound = SessionState {
                                wm_base: Some(s.next_id),
                                next_id: (s.next_id + 1) as u32,
                                ..s
                            };
                            assert(spec_init_frame(bound).0.wf());
                        }
                    },
                    _ => {},
                }
            },
            _ => {},
        }
    }
}

impl SessionState {
    /// Whether the session is still processing events.
    pub fn is_running(&self) -> (b: bool)
        ensures
            b == self.running,
    {
        self.running
    }

    /// Whether the first configure event has been acknowledged.
    pub fn is_configured(&self) -> (b: bool)
        ensures
            b == self.configured,
    {
        self.configured
    }

    /// The abstract protocol state the session is in.
    pub fn phase(&self) -> (p: SessionPhase)
        ensures
            p == self.spec_phase(),
    {
        if !self.running {
            SessionPhase::Closed
        } else if self.configured {
            SessionPhase::Configured
        } else if self.frame.is_some() {
            SessionPhase::AwaitingConfigure
        } else if self.base_surface.is_some() {
            SessionPhase::SurfaceCreated
        } else if self.connected {
            SessionPhase::AwaitingGlobals
        } else {
            SessionPhase::Connecting
        }
    }

    /// The window title the frame is created with.
    pub fn title(&self) -> (t: &String)
        ensures
            t@ == self.title@,
    {
        &self.title
    }
}

/// A session that has ended processes nothing: every further event leaves
/// the state untouched and emits no action. And no event ever resumes a
/// session: the running flag moves from true to false exactly once and
/// never back.
pub proof fn lemma_closed_is_terminal(s: SessionState, ev: SessionEvent)
    ensures
        !s.running ==> session_step(s, ev).0 == s,
        !s.running ==> session_step(s, ev).1 == Seq::<SessionAction>::empty(),
        session_step(s, ev).0.running ==> s.running,
{
}

/// A close request from the top-level object, and equally the Escape
/// key, moves the session to the terminal closed state in one step, with
/// nothing emitted.
pub proof fn lemma_close_transitions(s: SessionState)
    requires
        s.running,
    ensures
        session_step(s, SessionEvent::ToplevelClose).0 == spec_close(s),
        session_step(s, SessionEvent::ToplevelClose).0.spec_phase() == SessionPhase::Closed,
        session_step(s, SessionEvent::ToplevelClose).1 == Seq::<SessionAction>::empty(),
        session_step(s, (SessionEvent::Key { code: KEY_ESC })).0 == spec_close(s),
        session_step(s, (SessionEvent::Key { code: KEY_ESC })).0.spec_phase()
            == SessionPhase::Closed,
        session_step(s, (SessionEvent::Key { code: KEY_ESC })).1 == Seq::<
            SessionAction,
        >::empty(),
{
}

/// A ping carrying serial `S` is answered within the same turn by exactly
/// one pong carrying the identical serial `S`, with no other action
/// emitted and no state changed.
pub proof fn lemma_ping_pong(s: SessionState, serial: u32)
    requires
        s.running,
    ensures
        session_step(s, (SessionEvent::Ping { serial })).0 == s,
        session_step(s, (SessionEvent::Ping { serial })).1 == seq![
            (SessionAction::Pong { serial }),
        ],
{
}

/// The configured flag is raised only by a configure event, and the turn
/// that raises it first acknowledges that event's exact serial.
pub proof fn lemma_configured_only_by_acknowledged_configure(s: SessionState, ev: SessionEvent)
    requires
        !s.configured,
        session_step(s, ev).0.configured,
    ensures
        ev is Configure,
        session_step(s, ev).1.len() >= 1,
        session_step(s, ev).1[0] == (SessionAction::AckConfigure { serial: ev->Configure_serial }),
{
}

/// No buffer is attached to the surface before the session is
/// configured: a turn whose actions include an attach request ends in a
/// configured state, and only the configure handshake itself or a buffer
/// arriving after it can request one.
pub proof fn lemma_no_attach_before_configured(s: SessionState, ev: SessionEvent, i: int)
    requires
        0 <= i < session_step(s, ev).1.len(),
        session_step(s, ev).1[i] is AttachBufferAndCommit,
    ensures
        session_step(s, ev).0.configured,
{
}

/// Once the top-level frame exists, it is never replaced or re-created:
/// a repeated advertisement of the compositor or window-manager-base
/// global is a guarded no-op, and no turn requests a second frame.
pub proof fn lemma_frame_created_once(s: SessionState, ev: SessionEvent)
    requires
        s.wf(),
        s.frame is Some,
    ensures
        session_step(s, ev).0.frame == s.frame,
        forall|i: int|
            0 <= i < session_step(s, ev).1.len() ==> !(session_step(s, ev).1[i]
                is CreateTopLevelFrame),
{
}

/// The top-level frame is constructed exactly once, regardless of
/// whether the registry advertises the compositor or the window-manager
/// base first: in both orders the first binding creates no frame, the
/// second binding's turn requests exactly one, and the resulting frame is
/// the same pair of objects.
pub proof fn lemma_frame_order_independent(s: SessionState)
    requires
        s.wf(),
        s.running,
        s.base_surface is None,
        s.wm_base is None,
        s.frame is None,
    ensures
        session_step(s, (SessionEvent::Global { kind: GlobalKind::Compositor })).0.frame is None,
        session_step(s, (SessionEvent::Global { kind: GlobalKind::Compositor })).1 == seq![
            (SessionAction::BindCompositor { surface: 1 }),
        ],
        session_step(
            session_step(s, (SessionEvent::Global { kind: GlobalKind::Compositor })).0,
            (SessionEvent::Global { kind: GlobalKind::WmBase }),
        ).0.frame == Some(TopLevelFrame { xdg_surface: 3, toplevel: 4 }),
        session_step(
            session_step(s, (SessionEvent::Global { kind: GlobalKind::Compositor })).0,
            (SessionEvent::Global { kind: GlobalKind::WmBase }),
        ).1 == seq![
            (SessionAction::BindWmBase { wm_base: 2 }),
            (SessionAction::CreateTopLevelFrame {
                frame: TopLevelFrame { xdg_surface: 3, toplevel: 4 },
            }),
        ],
        session_step(s, (SessionEvent::Global { kind: GlobalKind::WmBase })).0.frame is None,
        session_step(s, (SessionEvent::Global { kind: GlobalKind::WmBase })).1 == seq![
            (SessionAction::BindWmBase { wm_base: 1 }),
        ],
        session_step(
            session_step(s, (SessionEvent::Global { kind: GlobalKind::WmBase })).0,
            (SessionEvent::Global { kind: GlobalKind::Compositor }),
        ).0.frame == Some(TopLevelFrame { xdg_surface: 3, toplevel: 4 }),
        session_step(
            session_step(s, (SessionEvent::Global { kind: GlobalKind::WmBase })).0,
            (SessionEvent::Global { kind: GlobalKind::Compositor }),
        ).1 == seq![
            (SessionAction::BindCompositor { surface: 2 }),
            (SessionAction::CreateTopLevelFrame {
                frame: TopLevelFrame { xdg_surface: 3, toplevel: 4 },
            }),
        ],
{
    let comp = SessionEvent::Global { kind: GlobalKind::Compositor };
    let wm = SessionEvent::Global { kind: GlobalKind::WmBase };
    assert(s.next_id == 1);
    assert(session_step(s, comp).1 =~= seq![(SessionAction::BindCompositor { surface: 1 })]);
    assert(session_step(session_step(s, comp).0, wm).1 =~= seq![
        (SessionAction::BindWmBase { wm_base: 2 }),
        (SessionAction::CreateTopLevelFrame {
            frame: TopLevelFrame { xdg_surface: 3, toplevel: 4 },
        }),
    ]);
    assert(session_step(s, wm).1 =~= seq![(SessionAction::BindWmBase { wm_base: 1 })]);
    assert(session_step(session_step(s, wm).0, comp).1 =~= seq![
        (SessionAction::BindCompositor { surface: 2 }),
        (SessionAction::CreateTopLevelFrame {
            frame: TopLevelFrame { xdg_surface: 3, toplevel: 4 },
        }),
    ]);
}

/// The state after processing a whole sequence of events, one step at a
/// time, in arrival order.
pub open spec fn session_run(s: SessionState, evs: Seq<SessionEvent>) -> SessionState
    decreases evs.len(),
{
    if evs.len() == 0 {
        s
    } else {
        session_run(session_step(s, evs[0]).0, evs.subrange(1, evs.len() as int))
    }
}

/// Well-formedness holds along every run of the machine, whatever events
/// arrive in whatever order.
pub proof fn lemma_run_preserves_wf(s: SessionState, evs: Seq<SessionEvent>)
    requires
        s.wf(),
    ensures
        session_run(s, evs).wf(),
    decreases evs.len(),
{
    if evs.len() > 0 {
        lemma_step_preserves_wf(s, evs[0]);
        lemma_run_preserves_wf(session_step(s, evs[0]).0, evs.subrange(1, evs.len() as int));
    }
}

/// The terminal state is absorbing over whole runs: a session that has
/// ended is left exactly as it is by any sequence of further events, and
/// no run ever resumes a session — the running flag falls at most once
/// and never rises again.
pub proof fn lemma_run_closed_forever(s: SessionState, evs: Seq<SessionEvent>)
    ensures
        !s.running ==> session_run(s, evs) == s,
        session_run(s, evs).running ==> s.running,
    decreases evs.len(),
{
    if evs.len() > 0 {
        lemma_closed_is_terminal(s, evs[0]);
        lemma_run_closed_forever(session_step(s, evs[0]).0, evs.subrange(1, evs.len() as int));
    }
}

/// Over any run whatsoever, the session becomes configured only if a
/// configure event was among the events processed.
pub proof fn lemma_run_configured_needs_configure_event(s: SessionState, evs: Seq<SessionEvent>)
    requires
        !s.configured,
        session_run(s, evs).configured,
    ensures
        exists|i: int| 0 <= i < evs.len() && evs[i] is Configure,
    decreases evs.len(),
{
    if evs.len() > 0 {
        let stepped = session_step(s, evs[0]).0;
        let rest = evs.subrange(1, evs.len() as int);
        if stepped.configured {
            lemma_configured_only_by_acknowledged_configure(s, evs[0]);
            assert(0 <= 0 < evs.len() && evs[0] is Configure);
        } else {
            lemma_run_configured_needs_configure_event(stepped, rest);
            let j = choose|j: int| 0 <= j < rest.len() && rest[j] is Configure;
            assert(evs[j + 1] == rest[j]);
            assert(0 <= j + 1 < evs.len() && evs[j + 1] is Configure);
        }
    }
}

/// Once the top-level frame exists, no run of further events — repeated
/// registry advertisements included — ever replaces it: the frame a
/// session ends with is the one it first created.
pub proof fn lemma_run_frame_stable(s: SessionState, evs: Seq<SessionEvent>)
    requires
        s.wf(),
        s.frame is Some,
    ensures
        session_run(s, evs).frame == s.frame,
    decreases evs.len(),
{
    if evs.len() > 0 {
        lemma_frame_created_once(s, evs[0]);
        lemma_step_preserves_wf(s, evs[0]);
        lemma_run_frame_stable(session_step(s, evs[0]).0, evs.subrange(1, evs.len() as int));
    }
}

} // verus!
