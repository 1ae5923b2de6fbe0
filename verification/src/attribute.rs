//! Text attributes such as bold or underlined, with their SGR codes.

use vstd::prelude::*;

verus! {

/// A text attribute a terminal can apply on top of colors.
///
/// Support varies between terminals; the SGR code of each attribute is
/// what `sgr_code` returns.
#[derive(Copy, Clone, Debug, PartialEq, Eq, Structural, Hash)]
pub enum Attribute {
    /// Clears all currently set attributes and colors.
    Reset,
    Bold,
    Dim,
    Italic,
    Underlined,
    SlowBlink,
    RapidBlink,
    Reverse,
    Hidden,
    CrossedOut,
    Fraktur,
    NoBold,
    Normal,
    NoItalic,
    NoUnderline,
    NoSlowBlink,
    NoRapidBlink,
    NoInverse,
    NoHidden,
    NotCrossedOut,
    Framed,
    Encircled,
    OverLined,
    NotFramedOrEncircled,
    NotOverLined,
}

/// The SGR parameter each attribute selects.
pub open spec fn spec_sgr_code(attr: Attribute) -> u8 {
    match attr {
        Attribute::Reset => 0,
        Attribute::Bold => 1,
        Attribute::Dim => 2,
        Attribute::Italic => 3,
        Attribute::Underlined => 4,
        Attribute::SlowBlink => 5,
        Attribute::RapidBlink => 6,
        Attribute::Reverse => 7,
        Attribute::Hidden => 8,
        Attribute::CrossedOut => 9,
        Attribute::Fraktur => 20,
        Attribute::NoBold => 21,
        Attribute::Normal => 22,
        Attribute::NoItalic => 23,
        Attribute::NoUnderline => 24,
        Attribute::NoSlowBlink => 25,
        Attribute::NoRapidBlink => 26,
        Attribute::NoInverse => 27,
        Attribute::NoHidden => 28,
        Attribute::NotCrossedOut => 29,
        Attribute::Framed => 51,
        Attribute::Encircled => 52,
        Attribute::OverLined => 53,
        Attribute::NotFramedOrEncircled => 54,
        Attribute::NotOverLined => 55,
    }
}

impl Attribute {
    /// The SGR parameter this attribute selects.
    pub fn sgr_code(&self) -> (code: u8)
        ensures
            code == spec_sgr_code(*self),
    {
        match self {
            Attribute::Reset => 0,
            Attribute::Bold => 1,
            Attribute::Dim => 2,
            Attribute::Italic => 3,
            Attribute::Underlined => 4,
            Attribute::SlowBlink => 5,
            Attribute::RapidBlink => 6,
            Attribute::Reverse => 7,
            Attribute::Hidden => 8,
            Attribute::CrossedOut => 9,
            Attribute::Fraktur => 20,
            Attribute::NoBold => 21,
            Attribute::Normal => 22,
            Attribute::NoItalic => 23,
            Attribute::NoUnderline => 24,
            Attribute::NoSlowBlink => 25,
            Attribute::NoRapidBlink => 26,
            Attribute::NoInverse => 27,
            Attribute::NoHidden => 28,
            Attribute::NotCrossedOut => 29,
            Attribute::Framed => 51,
            Attribute::Encircled => 52,
            Attribute::OverLined => 53,
            Attribute::NotFramedOrEncircled => 54,
            Attribute::NotOverLined => 55,
        }
    }
}

} // verus!
