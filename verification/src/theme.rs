//! Theme and cursor vocabulary of the windowing facade.

use vstd::prelude::*;

verus! {

/// Whether the optional blur effect is requested with a theme.
pub type Blur = bool;

/// The global theme a window is created with.
#[derive(Clone, Copy, Debug, PartialEq, Eq, Structural)]
pub enum ThemeOp {
    /// Dark theme.
    Dark {
        /// Whether the window asks for the blur effect.
        blur: Blur,
    },
    /// Light theme.
    Light {
        /// Whether the window asks for the blur effect.
        blur: Blur,
    },
}

impl ThemeOp {
    /// Whether this theme asks for the optional blur effect.
    pub open spec fn spec_blur(self) -> bool {
        match self {
            ThemeOp::Dark { blur } => blur,
            ThemeOp::Light { blur } => blur,
        }
    }

    /// Whether window creation should attempt to apply the blur effect.
    pub fn blur_requested(&self) -> (b: bool)
        ensures
            b == self.spec_blur(),
    {
        match self {
            ThemeOp::Dark { blur } => *blur,
            ThemeOp::Light { blur } => *blur,
        }
    }
}

/// Theme handling capability of a windowing application.
pub trait Theme {
    /// Modify the current theme; does nothing when it is already set.
    fn set_theme(&mut self, _theme: ThemeOp) {
    }

    /// The current global theme of the desktop, if one is known.
    fn get_current_theme(&mut self) -> Option<ThemeOp> {
        None
    }
}

/// The closed set of appearances a cursor can take.
#[derive(Clone, Debug, PartialEq, Eq)]
pub enum CursorType {
    /// The plain arrow cursor.
    Default,
    /// The pointing-hand cursor for click actions.
    Pointer,
    /// The text-insertion cursor.
    TextBox,
    /// The busy cursor.
    Loading,
    /// The action-not-allowed cursor.
    Forbidden,
    /// A custom texture, named by the path it is loaded from.
    Custom(String),
}

} // verus!
