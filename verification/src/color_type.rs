//! The logical colors a terminal can be asked to show.

use vstd::prelude::*;

use crate::text::{ascii_lower, eq_ignore_case};

verus! {

/// A color request: one of the 16 base palette colors, the special
/// `Reset` marker that restores the default, or an extended color
/// (truecolor RGB or a 256-palette index) that only ANSI-capable
/// terminals can show.
#[derive(Copy, Clone, Debug, PartialEq, Eq, Structural, Hash)]
pub enum ColorType {
    /// Restores the terminal's default color.
    Reset,
    Black,
    DarkGrey,
    Red,
    DarkRed,
    Green,
    DarkGreen,
    Yellow,
    DarkYellow,
    Blue,
    DarkBlue,
    Magenta,
    DarkMagenta,
    Cyan,
    DarkCyan,
    White,
    Grey,
    /// A truecolor value: red, green and blue channels.
    Rgb { r: u8, g: u8, b: u8 },
    /// An index into the 256-color palette.
    AnsiValue(u8),
}

/// True when `name` is the given color name, compared ignoring ASCII
/// case.
pub open spec fn is_color_name(name: Seq<char>, key: Seq<char>) -> bool {
    ascii_lower(name) == ascii_lower(key)
}

/// The color a name denotes, compared ignoring ASCII case; any unknown
/// name denotes `White`.
pub open spec fn color_from_name(name: Seq<char>) -> ColorType {
    if is_color_name(name, "black"@) {
        ColorType::Black
    } else if is_color_name(name, "dark_grey"@) {
        ColorType::DarkGrey
    } else if is_color_name(name, "red"@) {
        ColorType::Red
    } else if is_color_name(name, "dark_red"@) {
        ColorType::DarkRed
    } else if is_color_name(name, "green"@) {
        ColorType::Green
    } else if is_color_name(name, "dark_green"@) {
        ColorType::DarkGreen
    } else if is_color_name(name, "yellow"@) {
        ColorType::Yellow
    } else if is_color_name(name, "dark_yellow"@) {
        ColorType::DarkYellow
    } else if is_color_name(name, "blue"@) {
        ColorType::Blue
    } else if is_color_name(name, "dark_blue"@) {
        ColorType::DarkBlue
    } else if is_color_name(name, "magenta"@) {
        ColorType::Magenta
    } else if is_color_name(name, "dark_magenta"@) {
        ColorType::DarkMagenta
    } else if is_color_name(name, "cyan"@) {
        ColorType::Cyan
    } else if is_color_name(name, "dark_cyan"@) {
        ColorType::DarkCyan
    } else if is_color_name(name, "white"@) {
        ColorType::White
    } else if is_color_name(name, "grey"@) {
        ColorType::Grey
    } else {
        ColorType::White
    }
}

impl ColorType {
    /// Looks a color up by name, ignoring ASCII case.
    ///
    /// Unknown names yield `White`, so every string parses to some
    /// color.
    pub fn from_name(name: &str) -> (color: ColorType)
        ensures
            color == color_from_name(name@),
    {
        if eq_ignore_case(name, "black") {
            ColorType::Black
        } else if eq_ignore_case(name, "dark_grey") {
            ColorType::DarkGrey
        } else if eq_ignore_case(name, "red") {
            ColorType::Red
        } else if eq_ignore_case(name, "dark_red") {
            ColorType::DarkRed
        } else if eq_ignore_case(name, "green") {
            ColorType::Green
        } else if eq_ignore_case(name, "dark_green") {
            ColorType::DarkGreen
        } else if eq_ignore_case(name, "yellow") {
            ColorType::Yellow
        } else if eq_ignore_case(name, "dark_yellow") {
            ColorType::DarkYellow
        } else if eq_ignore_case(name, "blue") {
            ColorType::Blue
        } else if eq_ignore_case(name, "dark_blue") {
            ColorType::DarkBlue
        } else if eq_ignore_case(name, "magenta") {
            ColorType::Magenta
        } else if eq_ignore_case(name, "dark_magenta") {
            ColorType::DarkMagenta
        } else if eq_ignore_case(name, "cyan") {
            ColorType::Cyan
        } else if eq_ignore_case(name, "dark_cyan") {
            ColorType::DarkCyan
        } else if eq_ignore_case(name, "white") {
            ColorType::White
        } else if eq_ignore_case(name, "grey") {
            ColorType::Grey
        } else {
            ColorType::White
        }
    }
}

impl core::str::FromStr for ColorType {
    type Err = ();

    /// Looks a color up by name, ignoring ASCII case.
    ///
    /// Unknown names yield `Ok(ColorType::White)`, so this never returns
    /// `Err` and the result can safely be unwrapped.
    fn from_str(src: &str) -> Result<Self, Self::Err> {
        Ok(ColorType::from_name(src))
    }
}

} // verus!
