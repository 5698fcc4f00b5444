//! The closed palette of background colors a screen or window can carry.
//! Turning a tag into a concrete terminal escape sequence is left to the
//! caller that talks to the terminal; the core only stores and compares tags.

use vstd::prelude::*;

verus! {

/// A background color tag for a screen or one of its windows. `Null` is the
/// "no color" sentinel: cells tagged with it are drawn without a background.
#[derive(PartialEq, Eq, Structural, Copy, Clone, Debug)]
pub enum Color {
    Null,
    Black,
    Blue,
    Cyan,
    Green,
    LightBlack,
    LightBlue,
    LightCyan,
    LightGreen,
    LightMagenta,
    LightRed,
    LightWhite,
    LightYellow,
    Magenta,
    Red,
    White,
    Yellow,
}

} // verus!
