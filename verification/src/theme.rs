//! The colour palette of the explorer, in a dark and a light variant.
use vstd::prelude::*;

verus! {

/// An opaque colour by its red, green and blue channels.
#[derive(Clone, Copy, Debug, PartialEq, Eq, Structural)]
pub struct Rgb {
    pub r: u8,
    pub g: u8,
    pub b: u8,
}

/// The colour with these channels.
pub open spec fn rgb(r: u8, g: u8, b: u8) -> Rgb {
    Rgb { r, g, b }
}

/// Background of the file list and the status bar.
pub fn col_surface(dark: bool) -> (c: Rgb)
    ensures
        c == (if dark { rgb(18, 18, 18) } else { rgb(255, 255, 255) }),
{
    if dark {
        Rgb { r: 18, g: 18, b: 18 }
    } else {
        Rgb { r: 255, g: 255, b: 255 }
    }
}

/// Background of the top panel, menus and dialogs.
pub fn col_surface2(dark: bool) -> (c: Rgb)
    ensures
        c == (if dark { rgb(26, 26, 26) } else { rgb(245, 245, 245) }),
{
    if dark {
        Rgb { r: 26, g: 26, b: 26 }
    } else {
        Rgb { r: 245, g: 245, b: 245 }
    }
}

/// Background of the toolbar and of peer cards.
pub fn col_surface3(dark: bool) -> (c: Rgb)
    ensures
        c == (if dark { rgb(32, 32, 32) } else { rgb(235, 235, 235) }),
{
    if dark {
        Rgb { r: 32, g: 32, b: 32 }
    } else {
        Rgb { r: 235, g: 235, b: 235 }
    }
}

/// Main text colour.
pub fn col_text(dark: bool) -> (c: Rgb)
    ensures
        c == (if dark { rgb(220, 220, 220) } else { rgb(20, 20, 20) }),
{
    if dark {
        Rgb { r: 220, g: 220, b: 220 }
    } else {
        Rgb { r: 20, g: 20, b: 20 }
    }
}

/// Secondary text colour.
pub fn col_text2(dark: bool) -> (c: Rgb)
    ensures
        c == (if dark { rgb(140, 140, 140) } else { rgb(100, 100, 100) }),
{
    if dark {
        Rgb { r: 140, g: 140, b: 140 }
    } else {
        Rgb { r: 100, g: 100, b: 100 }
    }
}

/// Border colour of menus and dialogs.
pub fn col_border(dark: bool) -> (c: Rgb)
    ensures
        c == (if dark { rgb(50, 50, 50) } else { rgb(200, 200, 200) }),
{
    if dark {
        Rgb { r: 50, g: 50, b: 50 }
    } else {
        Rgb { r: 200, g: 200, b: 200 }
    }
}

/// Accent colour of links and the selection.
pub fn col_accent(dark: bool) -> (c: Rgb)
    ensures
        c == (if dark { rgb(130, 160, 220) } else { rgb(40, 90, 180) }),
{
    if dark {
        Rgb { r: 130, g: 160, b: 220 }
    } else {
        Rgb { r: 40, g: 90, b: 180 }
    }
}

/// Colour of success messages.
pub fn col_success() -> (c: Rgb)
    ensures
        c == rgb(80, 180, 120),
{
    Rgb { r: 80, g: 180, b: 120 }
}

/// Colour of warnings.
pub fn col_warn() -> (c: Rgb)
    ensures
        c == rgb(210, 160, 50),
{
    Rgb { r: 210, g: 160, b: 50 }
}

/// Colour of errors and destructive actions.
pub fn col_danger() -> (c: Rgb)
    ensures
        c == rgb(210, 70, 70),
{
    Rgb { r: 210, g: 70, b: 70 }
}

} // verus!
