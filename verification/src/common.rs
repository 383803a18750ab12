//! Shared result and handle types: the error taxonomy every component
//! reports through, and the owned, type-tagged stand-in for a native
//! resource address that replaces bare pointer round-tripping.

use vstd::prelude::*;

verus! {

/// The closed set of failures a window-creation attempt can report.
#[derive(Clone, Copy, Debug, PartialEq, Eq, Structural)]
pub enum WResponse {
    /// The display connection could not be opened; fatal to the attempt.
    ConnectionFailed,
    /// An optional capability (such as blur) is unavailable on the active
    /// desktop environment; the window proceeds without the effect.
    ProtocolNotSupported,
    /// The handshake never reached the configured state.
    ConfigurationNeverCompleted,
    /// A handle accessor was invoked against a value of the wrong kind or
    /// against a null address; a programming error, not an environment one.
    UnexpectedNullHandle,
    /// The running binary was built without support for the request.
    BinarySpecificLimitation,
    /// The operating system denied the request.
    AccessDenied,
    /// The requested channel is already in use.
    ChannelInUse,
    /// A dynamically linked dependency was missing at execution time.
    MissingDependencies,
}

/// Outcome of a window request: either a success value or a structured,
/// reportable failure.
#[derive(Clone, Copy, Debug, PartialEq, Eq)]
pub enum WRequestResult<T> {
    /// The request failed with the given response.
    Fail(WResponse),
    /// The request succeeded.
    Success(T),
}

/// Discriminates which kind of native resource a handle stands for.
#[derive(Clone, Copy, Debug, PartialEq, Eq, Structural)]
pub enum HandleKind {
    /// The Wayland session state owned by the dispatch loop.
    WaylandSession,
    /// The surface-role / top-level-role pair of a Wayland window.
    WaylandFrame,
    /// A platform view object on a non-negotiated platform.
    NativeView,
    /// A pixel buffer pending attachment to a surface.
    PixelBuffer,
}

/// An owned, type-tagged stand-in for a native resource address.
///
/// The address is opaque to this crate: it is produced and dereferenced
/// only by the platform layer that owns the real object. The tag is
/// checked on every extraction, so reading a handle as the wrong kind is
/// an explicit error instead of a misinterpreted pointer.
#[derive(Clone, Copy, Debug, PartialEq, Eq, Structural)]
pub struct SurfaceWrapper {
    kind: HandleKind,
    addr: u64,
}

impl SurfaceWrapper {
    /// The kind this handle was wrapped with.
    pub closed spec fn kind(self) -> HandleKind {
        self.kind
    }

    /// The opaque address this handle carries.
    pub closed spec fn addr(self) -> u64 {
        self.addr
    }

    /// Wrap an opaque address under the given kind.
    pub fn new(kind: HandleKind, addr: u64) -> (w: Self)
        ensures
            w.kind() == kind,
            w.addr() == addr,
    {
        SurfaceWrapper { kind, addr }
    }

    /// Whether the wrapped address is the null address.
    pub fn is_null(&self) -> (b: bool)
        ensures
            b == (self.addr() == 0),
    {
        self.addr == 0
    }

    /// Extract the address, checking the tag: succeeds exactly when the
    /// handle is of the expected kind and non-null.
    pub fn cast(&self, expected: HandleKind) -> (r: WRequestResult<u64>)
        ensures
            self.kind() == expected && self.addr() != 0 ==> r == WRequestResult::<u64>::Success(
                self.addr(),
            ),
            self.kind() != expected || self.addr() == 0 ==> r == WRequestResult::<u64>::Fail(
                WResponse::UnexpectedNullHandle,
            ),
    {
        if self.kind == expected && self.addr != 0 {
            WRequestResult::Success(self.addr)
        } else {
            WRequestResult::Fail(WResponse::UnexpectedNullHandle)
        }
    }
}

/// Wrap an opaque native address as a tagged handle.
pub fn to_handle(kind: HandleKind, addr: u64) -> (w: SurfaceWrapper)
    ensures
        w.kind() == kind,
        w.addr() == addr,
{
    SurfaceWrapper::new(kind, addr)
}

/// Recover the address stored in a tagged handle, checking that it was
/// wrapped under the expected kind and is non-null.
pub fn from_handle(w: &SurfaceWrapper, expected: HandleKind) -> (r: WRequestResult<u64>)
    ensures
        w.kind() == expected && w.addr() != 0 ==> r == WRequestResult::<u64>::Success(w.addr()),
        w.kind() != expected || w.addr() == 0 ==> r == WRequestResult::<u64>::Fail(
            WResponse::UnexpectedNullHandle,
        ),
{
    w.cast(expected)
}

/// An RGBA color with one byte per channel.
#[derive(Clone, Copy, Debug, PartialEq, Eq, Structural)]
#[allow(non_snake_case)]
pub struct Color {
    /// Red channel.
    pub R: u8,
    /// Green channel.
    pub G: u8,
    /// Blue channel.
    pub B: u8,
    /// Alpha channel.
    pub A: u8,
}

impl Color {
    /// Build a color from its four channels.
    #[allow(non_snake_case)]
    pub fn from(R: u8, G: u8, B: u8, A: u8) -> (c: Self)
        ensures
            c.R == R,
            c.G == G,
            c.B == B,
            c.A == A,
    {
        Color { R, G, B, A }
    }
}

} // verus!
