//! The dialog's colours, the focus-dependent ones as a pure function of focus.

use vstd::prelude::*;

verus! {

/// An 8-bit RGBA colour with premultiplied alpha.
#[derive(Clone, Copy, Debug, PartialEq, Eq, Structural)]
pub struct Rgba {
    pub r: u8,
    pub g: u8,
    pub b: u8,
    pub a: u8,
}

pub open spec fn opaque(r: u8, g: u8, b: u8) -> Rgba {
    Rgba { r, g, b, a: 255 }
}

pub open spec fn clear() -> Rgba {
    Rgba { r: 0, g: 0, b: 0, a: 0 }
}

impl Rgba {
    /// An opaque colour from its three channels.
    pub fn rgb(r: u8, g: u8, b: u8) -> (c: Rgba)
        ensures
            c == opaque(r, g, b),
    {
        Rgba { r, g, b, a: 255 }
    }

    /// The fully transparent colour.
    pub fn transparent() -> (c: Rgba)
        ensures
            c == clear(),
    {
        Rgba { r: 0, g: 0, b: 0, a: 0 }
    }
}

/// The colours that follow the window's focus.
#[derive(Clone, Copy, Debug, PartialEq, Eq, Structural)]
pub struct FocusStyle {
    /// Fill of the ring drawn around the text field.
    pub field_border: Rgba,
    /// Background of selected text in the field.
    pub selection: Rgba,
    /// Fill of the confirm button.
    pub confirm_fill: Rgba,
}

/// The emphasised palette of a focused window.
pub open spec fn active_style() -> FocusStyle {
    FocusStyle {
        field_border: opaque(56, 100, 138),
        selection: opaque(71, 98, 135),
        confirm_fill: opaque(48, 98, 212),
    }
}

/// The neutral palette of a window without focus.
pub open spec fn dimmed_style() -> FocusStyle {
    FocusStyle {
        field_border: clear(),
        selection: opaque(70, 70, 70),
        confirm_fill: opaque(89, 88, 86),
    }
}

pub open spec fn spec_style_for(focused: bool) -> FocusStyle {
    if focused {
        active_style()
    } else {
        dimmed_style()
    }
}

/// The focus-dependent colours, a pure function of whether the window has focus.
pub fn style_for(focused: bool) -> (s: FocusStyle)
    ensures
        s == spec_style_for(focused),
{
    if focused {
        FocusStyle {
            field_border: Rgba::rgb(56, 100, 138),
            selection: Rgba::rgb(71, 98, 135),
            confirm_fill: Rgba::rgb(48, 98, 212),
        }
    } else {
        FocusStyle {
            field_border: Rgba::transparent(),
            selection: Rgba::rgb(70, 70, 70),
            confirm_fill: Rgba::rgb(89, 88, 86),
        }
    }
}

/// The colours that never change.
#[derive(Clone, Copy, Debug, PartialEq, Eq, Structural)]
pub struct FixedColors {
    /// Colour of every label and of the typed text.
    pub text: Rgba,
    /// Background of the text field.
    pub field_fill: Rgba,
    /// Thin outline of the text field.
    pub field_outline: Rgba,
    /// Fill of the cancel button.
    pub cancel_fill: Rgba,
    /// Colour the window is cleared to before each frame.
    pub background: Rgba,
}

pub open spec fn spec_fixed_colors() -> FixedColors {
    FixedColors {
        text: opaque(221, 221, 221),
        field_fill: opaque(44, 43, 40),
        field_outline: opaque(83, 82, 82),
        cancel_fill: opaque(89, 88, 86),
        background: opaque(33, 32, 29),
    }
}

/// The dialog's colours that do not depend on focus.
pub fn fixed_colors() -> (c: FixedColors)
    ensures
        c == spec_fixed_colors(),
{
    FixedColors {
        text: Rgba::rgb(221, 221, 221),
        field_fill: Rgba::rgb(44, 43, 40),
        field_outline: Rgba::rgb(83, 82, 82),
        cancel_fill: Rgba::rgb(89, 88, 86),
        background: Rgba::rgb(33, 32, 29),
    }
}

} // verus!
