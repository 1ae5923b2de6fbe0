//! ANSI escape-sequence backend: every styling action is a `CSI ... m`
//! escape string, computed here and written to the terminal by the
//! caller.

use vstd::prelude::*;
use vstd::string::StringExecFns;

use crate::attribute::{spec_sgr_code, Attribute};
use crate::color_type::ColorType;
use crate::colored::Colored;
use crate::text::{dec_str, push_dec_u8};

verus! {

/// The SGR parameter of a color other than `Reset`: a 256-palette index
/// for the 16 named colors and arbitrary palette values, or the channel
/// triple of a truecolor value.
pub open spec fn base_color_param(color: ColorType) -> Seq<char> {
    match color {
        ColorType::Black => "5;0"@,
        ColorType::DarkGrey => "5;8"@,
        ColorType::Red => "5;9"@,
        ColorType::DarkRed => "5;1"@,
        ColorType::Green => "5;10"@,
        ColorType::DarkGreen => "5;2"@,
        ColorType::Yellow => "5;11"@,
        ColorType::DarkYellow => "5;3"@,
        ColorType::Blue => "5;12"@,
        ColorType::DarkBlue => "5;4"@,
        ColorType::Magenta => "5;13"@,
        ColorType::DarkMagenta => "5;5"@,
        ColorType::Cyan => "5;14"@,
        ColorType::DarkCyan => "5;6"@,
        ColorType::White => "5;15"@,
        ColorType::Grey => "5;7"@,
        ColorType::Rgb { r, g, b } => "2;"@ + dec_str(r as int) + ";"@ + dec_str(g as int) + ";"@
            + dec_str(b as int),
        ColorType::AnsiValue(v) => "5;"@ + dec_str(v as int),
        ColorType::Reset => Seq::empty(),
    }
}

/// The full SGR parameter of a tagged color request: the foreground or
/// background selector followed by the color's own parameter, or the
/// bare default-foreground / default-background parameter for `Reset`.
pub open spec fn color_param(colored: Colored) -> Seq<char> {
    match colored {
        Colored::Fg(ColorType::Reset) => "39"@,
        Colored::Bg(ColorType::Reset) => "49"@,
        Colored::Fg(c) => "38;"@ + base_color_param(c),
        Colored::Bg(c) => "48;"@ + base_color_param(c),
    }
}

/// The escape sequence that sets the foreground to `color`.
pub open spec fn set_fg_escape(color: ColorType) -> Seq<char> {
    "\u{1b}["@ + color_param(Colored::Fg(color)) + "m"@
}

/// The escape sequence that sets the background to `color`.
pub open spec fn set_bg_escape(color: ColorType) -> Seq<char> {
    "\u{1b}["@ + color_param(Colored::Bg(color)) + "m"@
}

/// The escape sequence that applies a text attribute.
pub open spec fn set_attr_escape(attr: Attribute) -> Seq<char> {
    "\u{1b}["@ + dec_str(spec_sgr_code(attr) as int) + "m"@
}

/// The escape sequence that clears all colors and attributes.
pub open spec fn reset_escape() -> Seq<char> {
    "\u{1b}[0m"@
}

/// Appends the SGR parameter of a color other than `Reset` to `out`.
fn push_base_color_param(out: &mut String, color: ColorType)
    requires
        !(color is Reset),
    ensures
        final(out)@ == old(out)@ + base_color_param(color),
{
    match color {
        ColorType::Black => out.append("5;0"),
        ColorType::DarkGrey => out.append("5;8"),
        ColorType::Red => out.append("5;9"),
        ColorType::DarkRed => out.append("5;1"),
        ColorType::Green => out.append("5;10"),
        ColorType::DarkGreen => out.append("5;2"),
        ColorType::Yellow => out.append("5;11"),
        ColorType::DarkYellow => out.append("5;3"),
        ColorType::Blue => out.append("5;12"),
        ColorType::DarkBlue => out.append("5;4"),
        ColorType::Magenta => out.append("5;13"),
        ColorType::DarkMagenta => out.append("5;5"),
        ColorType::Cyan => out.append("5;14"),
        ColorType::DarkCyan => out.append("5;6"),
        ColorType::White => out.append("5;15"),
        ColorType::Grey => out.append("5;7"),
        ColorType::Rgb { r, g, b } => {
            out.append("2;");
            push_dec_u8(out, r);
            out.append(";");
            push_dec_u8(out, g);
            out.append(";");
            push_dec_u8(out, b);
            proof {
                assert(out@ =~= old(out)@ + base_color_param(color));
            }
        },
        ColorType::AnsiValue(v) => {
            out.append("5;");
            push_dec_u8(out, v);
            proof {
                assert(out@ =~= old(out)@ + base_color_param(color));
            }
        },
        ColorType::Reset => {
            proof {
                assert(false);
            }
        },
    }
}

/// Computes the SGR parameter string of a tagged color request.
pub fn color_value(colored: Colored) -> (ansi: String)
    ensures
        ansi@ == color_param(colored),
{
    let mut ansi_value = String::new();
    let color: ColorType;
    match colored {
        Colored::Fg(new_color) => {
            if new_color == ColorType::Reset {
                ansi_value.append("39");
                proof {
                    assert(ansi_value@ =~= color_param(colored));
                }
                return ansi_value;
            } else {
                ansi_value.append("38;");
                color = new_color;
            }
        },
        Colored::Bg(new_color) => {
            if new_color == ColorType::Reset {
                ansi_value.append("49");
                proof {
                    assert(ansi_value@ =~= color_param(colored));
                }
                return ansi_value;
            } else {
                ansi_value.append("48;");
                color = new_color;
            }
        },
    }
    push_base_color_param(&mut ansi_value, color);
    proof {
        assert(ansi_value@ =~= color_param(colored));
    }
    ansi_value
}

/// Computes the escape sequence that sets the foreground to `fg_color`.
pub fn get_set_fg_ansi(fg_color: ColorType) -> (ansi: String)
    ensures
        ansi@ == set_fg_escape(fg_color),
{
    let mut ansi = String::from_str("\u{1b}[");
    let param = color_value(Colored::Fg(fg_color));
    ansi.append(param.as_str());
    ansi.append("m");
    proof {
        assert(ansi@ =~= set_fg_escape(fg_color));
    }
    ansi
}

/// Computes the escape sequence that sets the background to `bg_color`.
pub fn get_set_bg_ansi(bg_color: ColorType) -> (ansi: String)
    ensures
        ansi@ == set_bg_escape(bg_color),
{
    let mut ansi = String::from_str("\u{1b}[");
    let param = color_value(Colored::Bg(bg_color));
    ansi.append(param.as_str());
    ansi.append("m");
    proof {
        assert(ansi@ =~= set_bg_escape(bg_color));
    }
    ansi
}

/// Computes the escape sequence that applies a text attribute.
pub fn get_set_attr_ansi(attribute: Attribute) -> (ansi: String)
    ensures
        ansi@ == set_attr_escape(attribute),
{
    let mut ansi = String::from_str("\u{1b}[");
    push_dec_u8(&mut ansi, attribute.sgr_code());
    ansi.append("m");
    proof {
        assert(ansi@ =~= set_attr_escape(attribute));
    }
    ansi
}

/// Computes the escape sequence that clears all colors and attributes.
pub fn get_reset_ansi() -> (ansi: String)
    ensures
        ansi@ == reset_escape(),
{
    String::from_str("\u{1b}[0m")
}

/// The ANSI escape-sequence backend. It holds no state: every action is
/// a pure function from the request to the escape string to emit.
pub struct AnsiColor;

impl AnsiColor {
    /// Creates the ANSI backend.
    pub fn new() -> AnsiColor {
        AnsiColor
    }

    /// The escape sequence to emit for a foreground change.
    pub fn set_fg(&self, fg_color: ColorType) -> (ansi: String)
        ensures
            ansi@ == set_fg_escape(fg_color),
    {
        get_set_fg_ansi(fg_color)
    }

    /// The escape sequence to emit for a background change.
    pub fn set_bg(&self, bg_color: ColorType) -> (ansi: String)
        ensures
            ansi@ == set_bg_escape(bg_color),
    {
        get_set_bg_ansi(bg_color)
    }

    /// The escape sequence to emit to clear all colors and attributes.
    pub fn reset(&self) -> (ansi: String)
        ensures
            ansi@ == reset_escape(),
    {
        get_reset_ansi()
    }
}

} // verus!
