//! Draw commands a mode issues, and the window geometry it draws into.
use vstd::prelude::*;

verus! {

/// The drawing window's size in pixels; the origin is at its centre.
#[derive(Clone, Copy, Debug, PartialEq, Eq)]
pub struct WindowRect {
    pub width: u32,
    pub height: u32,
}

/// A colour as hue, saturation and lightness, each in thousandths.
#[derive(Clone, Copy, Debug, PartialEq, Eq)]
pub struct Hsl {
    pub hue: u32,
    pub saturation: u32,
    pub lightness: u32,
}

/// One command against the canvas, in pixels from the window's centre.
#[derive(Clone, Copy, Debug, PartialEq, Eq)]
pub enum DrawCommand {
    /// Fill the whole canvas.
    Background { color: Hsl },
    /// An axis-aligned rectangle given by two corners.
    Rect { left: i64, bottom: i64, right: i64, top: i64, color: Hsl },
    /// A circle at the centre.
    Ellipse { radius: u64, color: Hsl },
}

} // verus!
