//! Decoration policy: given the detected desktop environment, decide who
//! draws the window chrome, and whether the optional blur effect is
//! supported. This is a capability lookup, deliberately conservative: the
//! effect is only granted on desktops known to implement a blur-capable
//! surface protocol, so degradation is never silent.

use crate::common::{WRequestResult, WResponse};
use crate::desktop::DE;
use vstd::prelude::*;

verus! {

/// Who draws the window's title bar and borders: the application itself
/// (client side) or the compositor (server side).
#[derive(Clone, Copy, Debug, PartialEq, Eq, Structural)]
pub enum DecorationMode {
    /// The application draws its own chrome.
    ClientSide,
    /// The compositor draws the chrome.
    ServerSide,
}

/// The decoration mode chosen for a desktop: GNOME expects client-side
/// decorations, every other environment is given server-side ones.
pub open spec fn spec_decoration_mode(de: DE) -> DecorationMode {
    if de == DE::Gnome {
        DecorationMode::ClientSide
    } else {
        DecorationMode::ServerSide
    }
}

/// Decide the decoration mode for the detected desktop environment.
pub fn decoration_mode(de: &DE) -> (m: DecorationMode)
    ensures
        m == spec_decoration_mode(*de),
{
    match de {
        DE::Gnome => DecorationMode::ClientSide,
        _ => DecorationMode::ServerSide,
    }
}

/// The desktops known to implement a blur-capable native surface
/// protocol. Currently only Hyprland, whose surface-manager protocol
/// already covers the effect.
pub open spec fn spec_supports_blur(de: DE) -> bool {
    de == DE::Hyprland
}

/// Whether the desktop environment is known to support the blur effect.
pub fn supports_blur(de: &DE) -> (b: bool)
    ensures
        b == spec_supports_blur(*de),
{
    match de {
        DE::Hyprland => true,
        _ => false,
    }
}

/// Request the blur effect for the given desktop environment: a no-op
/// success exactly on desktops that support it, and a structured,
/// reportable failure on every other one, the unknown desktop included.
pub fn apply_blur(de: &DE) -> (r: WRequestResult<()>)
    ensures
        spec_supports_blur(*de) ==> r == WRequestResult::<()>::Success(()),
        !spec_supports_blur(*de) ==> r == WRequestResult::<()>::Fail(
            WResponse::ProtocolNotSupported,
        ),
{
    if supports_blur(de) {
        WRequestResult::Success(())
    } else {
        WRequestResult::Fail(WResponse::ProtocolNotSupported)
    }
}

/// Only GNOME selects client-side decorations; every other desktop is
/// decorated server side.
pub proof fn lemma_decoration_mode(de: DE)
    ensures
        spec_decoration_mode(DE::Gnome) == DecorationMode::ClientSide,
        de != DE::Gnome ==> spec_decoration_mode(de) == DecorationMode::ServerSide,
{
}

/// Blur is granted exactly on Hyprland and denied on every other
/// desktop, the unknown one included.
pub proof fn lemma_blur_capability(de: DE)
    ensures
        spec_supports_blur(DE::Hyprland),
        de != DE::Hyprland ==> !spec_supports_blur(de),
{
}

} // verus!
