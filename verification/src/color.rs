//! The closed set of stroke colors and their fixed RGBA values.

use vstd::prelude::*;

verus! {

/// One fully-opaque RGBA pixel value.
#[derive(Clone, Copy, PartialEq, Eq, Structural, Debug)]
pub struct Rgba {
    pub r: u8,
    pub g: u8,
    pub b: u8,
    pub a: u8,
}

/// The eight colors a client may request, by their CSS names.
#[derive(Clone, Copy, PartialEq, Eq, Structural, Debug)]
pub enum CssColor {
    Black,
    White,
    Red,
    Lime,
    Blue,
    Yellow,
    Magenta,
    Cyan,
}

/// The fixed RGBA value of each named color.
pub open spec fn rgba_of(c: CssColor) -> Rgba {
    match c {
        CssColor::Black => Rgba { r: 0, g: 0, b: 0, a: 255 },
        CssColor::White => Rgba { r: 255, g: 255, b: 255, a: 255 },
        CssColor::Red => Rgba { r: 255, g: 0, b: 0, a: 255 },
        CssColor::Lime => Rgba { r: 0, g: 255, b: 0, a: 255 },
        CssColor::Blue => Rgba { r: 0, g: 0, b: 255, a: 255 },
        CssColor::Yellow => Rgba { r: 255, g: 255, b: 0, a: 255 },
        CssColor::Magenta => Rgba { r: 255, g: 0, b: 255, a: 255 },
        CssColor::Cyan => Rgba { r: 0, g: 255, b: 255, a: 255 },
    }
}

/// The color a name denotes, or `None` when the name is outside the closed
/// enumeration; such input is rejected at the deserialization boundary.
pub open spec fn color_of_name(s: Seq<char>) -> Option<CssColor> {
    if s == "black"@ {
        Some(CssColor::Black)
    } else if s == "white"@ {
        Some(CssColor::White)
    } else if s == "red"@ {
        Some(CssColor::Red)
    } else if s == "lime"@ {
        Some(CssColor::Lime)
    } else if s == "blue"@ {
        Some(CssColor::Blue)
    } else if s == "yellow"@ {
        Some(CssColor::Yellow)
    } else if s == "magenta"@ {
        Some(CssColor::Magenta)
    } else if s == "cyan"@ {
        Some(CssColor::Cyan)
    } else {
        None
    }
}

/// Relies on str's `PartialEq`: two string slices are equal exactly when
/// their character sequences are.
#[verifier::external_body]
fn str_eq(a: &str, b: &str) -> (r: bool)
    ensures
        r == (a@ == b@),
{
    a == b
}

impl CssColor {
    /// The RGBA value this color paints with.
    pub fn as_rgba(&self) -> (r: Rgba)
        ensures
            r == rgba_of(*self),
    {
        match self {
            CssColor::Black => Rgba { r: 0, g: 0, b: 0, a: 255 },
            CssColor::White => Rgba { r: 255, g: 255, b: 255, a: 255 },
            CssColor::Red => Rgba { r: 255, g: 0, b: 0, a: 255 },
            CssColor::Lime => Rgba { r: 0, g: 255, b: 0, a: 255 },
            CssColor::Blue => Rgba { r: 0, g: 0, b: 255, a: 255 },
            CssColor::Yellow => Rgba { r: 255, g: 255, b: 0, a: 255 },
            CssColor::Magenta => Rgba { r: 255, g: 0, b: 255, a: 255 },
            CssColor::Cyan => Rgba { r: 0, g: 255, b: 255, a: 255 },
        }
    }

    /// Resolve a color name; names outside the enumeration yield `None`.
    pub fn from_name(s: &str) -> (r: Option<CssColor>)
        ensures
            r == color_of_name(s@),
    {
        if str_eq(s, "black") {
            Some(CssColor::Black)
        } else if str_eq(s, "white") {
            Some(CssColor::White)
        } else if str_eq(s, "red") {
            Some(CssColor::Red)
        } else if str_eq(s, "lime") {
            Some(CssColor::Lime)
        } else if str_eq(s, "blue") {
            Some(CssColor::Blue)
        } else if str_eq(s, "yellow") {
            Some(CssColor::Yellow)
        } else if str_eq(s, "magenta") {
            Some(CssColor::Magenta)
        } else if str_eq(s, "cyan") {
            Some(CssColor::Cyan)
        } else {
            None
        }
    }
}

} // verus!
