//! Terminal text styling with two verified backends: an ANSI
//! escape-sequence formatter and a legacy console-attribute manager.
//!
//! The library is pure: every operation computes the bytes to emit or the
//! attribute word to store, and the caller performs the actual console
//! reads and writes.

pub mod ansi_color;
pub mod attribute;
pub mod color_type;
pub mod colored;
pub mod objectstyle;
pub mod styledobject;
pub mod text;
pub mod winapi_color;

pub use ansi_color::AnsiColor;
pub use attribute::Attribute;
pub use color_type::ColorType;
pub use colored::Colored;
pub use objectstyle::ObjectStyle;
pub use styledobject::StyledObject;
pub use winapi_color::WinApiColor;

use vstd::prelude::*;

use crate::ansi_color::{get_reset_ansi, get_set_attr_ansi, get_set_bg_ansi, get_set_fg_ansi};
use crate::ansi_color::{reset_escape, set_attr_escape, set_bg_escape, set_fg_escape};
use crate::text::{contains_seq, str_contains};
use crate::winapi_color::{capture, merge_background, merge_foreground};
use crate::winapi_color::{background_bits, foreground_bits};

verus! {

/// The backend a `TerminalColor` styles through, chosen once at startup:
/// ANSI escape sequences where the terminal understands them, the legacy
/// console-attribute word elsewhere.
pub enum Style {
    Ansi(AnsiColor),
    WinApi(WinApiColor),
}

/// One styling action for the caller to perform: write an escape string
/// to the terminal, or store an attribute word through the legacy
/// console interface.
#[derive(Debug)]
pub enum StyleAction {
    Escape(String),
    Attributes(u16),
}

/// Styles the terminal through whichever backend it supports.
///
/// Every operation returns the `StyleAction` to perform; for the legacy
/// backend the caller passes in `live`, the console's current attribute
/// word.
pub struct TerminalColor {
    color: Style,
}

impl TerminalColor {
    /// The backend in use.
    pub closed spec fn backend(&self) -> Style {
        self.color
    }

    /// Creates a new `TerminalColor` over the ANSI backend.
    pub fn new() -> (colored_terminal: TerminalColor)
        ensures
            colored_terminal.backend() is Ansi,
    {
        TerminalColor { color: Style::Ansi(AnsiColor::new()) }
    }

    /// Creates a new `TerminalColor` over the backend a capability probe
    /// picked: the ANSI backend where the terminal understands escape
    /// sequences, the legacy console backend elsewhere.
    pub fn new_with_ansi_support(supports_ansi: bool) -> (colored_terminal: TerminalColor)
        ensures
            supports_ansi ==> colored_terminal.backend() is Ansi,
            !supports_ansi ==> (colored_terminal.backend() matches Style::WinApi(w)
                && w.baseline() is None),
    {
        if supports_ansi {
            TerminalColor { color: Style::Ansi(AnsiColor::new()) }
        } else {
            TerminalColor { color: Style::WinApi(WinApiColor::new()) }
        }
    }

    /// Computes the action that sets the foreground color to the given
    /// color. `live` is the console's current attribute word; only the
    /// legacy backend reads it.
    pub fn set_fg(&mut self, color: ColorType, live: u16) -> (action: StyleAction)
        ensures
            match old(self).backend() {
                Style::Ansi(_) => ({
                    &&& final(self).backend() == old(self).backend()
                    &&& action matches StyleAction::Escape(ansi) && ansi@ == set_fg_escape(color)
                }),
                Style::WinApi(w) => ({
                    &&& final(self).backend() matches Style::WinApi(w2) && w2.baseline() == Some(
                        capture(w.baseline(), live),
                    )
                    &&& action matches StyleAction::Attributes(word) && word == merge_foreground(
                        live,
                        foreground_bits(color, capture(w.baseline(), live)),
                    )
                }),
            },
    {
        match &mut self.color {
            Style::Ansi(ansi) => StyleAction::Escape(ansi.set_fg(color)),
            Style::WinApi(winapi) => StyleAction::Attributes(winapi.set_fg(color, live)),
        }
    }

    /// Computes the action that sets the background color to the given
    /// color. `live` is the console's current attribute word; only the
    /// legacy backend reads it.
    pub fn set_bg(&mut self, color: ColorType, live: u16) -> (action: StyleAction)
        ensures
            match old(self).backend() {
                Style::Ansi(_) => ({
                    &&& final(self).backend() == old(self).backend()
                    &&& action matches StyleAction::Escape(ansi) && ansi@ == set_bg_escape(color)
                }),
                Style::WinApi(w) => ({
                    &&& final(self).backend() matches Style::WinApi(w2) && w2.baseline() == Some(
                        capture(w.baseline(), live),
                    )
                    &&& action matches StyleAction::Attributes(word) && word == merge_background(
                        live,
                        background_bits(color, capture(w.baseline(), live)),
                    )
                }),
            },
    {
        match &mut self.color {
            Style::Ansi(ansi) => StyleAction::Escape(ansi.set_bg(color)),
            Style::WinApi(winapi) => StyleAction::Attributes(winapi.set_bg(color, live)),
        }
    }

    /// Computes the action that resets the terminal colors and
    /// attributes to default. On the legacy backend this is the word
    /// captured at baseline time, whatever ran in between.
    pub fn reset(&mut self, live: u16) -> (action: StyleAction)
        ensures
            match old(self).backend() {
                Style::Ansi(_) => ({
                    &&& final(self).backend() == old(self).backend()
                    &&& action matches StyleAction::Escape(ansi) && ansi@ == reset_escape()
                }),
                Style::WinApi(w) => ({
                    &&& final(self).backend() matches Style::WinApi(w2) && w2.baseline() == Some(
                        capture(w.baseline(), live),
                    )
                    &&& action matches StyleAction::Attributes(word) && word == capture(
                        w.baseline(),
                        live,
                    )
                }),
            },
    {
        match &mut self.color {
            Style::Ansi(ansi) => StyleAction::Escape(ansi.reset()),
            Style::WinApi(winapi) => StyleAction::Attributes(winapi.reset(live)),
        }
    }

    /// Gets the available color count from the terminal's advertised
    /// type, passed in as the value of its `TERM` variable.
    ///
    /// # Remarks
    ///
    /// This does not always provide a good result.
    pub fn available_color_count(&self, term: Option<&str>) -> (count: u16)
        ensures
            count == (match term {
                Some(t) => if contains_seq(t@, "256color"@) {
                    256u16
                } else {
                    8u16
                },
                None => 8u16,
            }),
    {
        match term {
            Some(t) => if str_contains(t, "256color") {
                256
            } else {
                8
            },
            None => 8,
        }
    }
}

/// Gets a `TerminalColor` implementation whereon color related actions
/// can be performed.
pub fn color() -> (colored_terminal: TerminalColor)
    ensures
        colored_terminal.backend() is Ansi,
{
    TerminalColor::new()
}

/// Wraps a displayable value in an empty style, to be colored and
/// attributed builder style.
pub fn style<D>(val: D) -> (styled: StyledObject<D>)
    ensures
        styled.object_style.fg_color is None,
        styled.object_style.bg_color is None,
        styled.object_style.attrs@ == Seq::<Attribute>::empty(),
        styled.content == val,
{
    ObjectStyle::new().apply_to(val)
}

/// When executed, this command sets the foreground color of the terminal
/// to the given color.
pub struct SetFg(pub ColorType);

impl SetFg {
    /// The escape sequence this command writes on an ANSI terminal.
    pub fn ansi_code(&self) -> (ansi: String)
        ensures
            ansi@ == set_fg_escape(self.0),
    {
        get_set_fg_ansi(self.0)
    }
}

/// When executed, this command sets the background color of the terminal
/// to the given color.
pub struct SetBg(pub ColorType);

impl SetBg {
    /// The escape sequence this command writes on an ANSI terminal.
    pub fn ansi_code(&self) -> (ansi: String)
        ensures
            ansi@ == set_bg_escape(self.0),
    {
        get_set_bg_ansi(self.0)
    }
}

/// When executed, this command applies the given attribute to the
/// terminal.
pub struct SetAttr(pub Attribute);

impl SetAttr {
    /// The escape sequence this command writes on an ANSI terminal.
    pub fn ansi_code(&self) -> (ansi: String)
        ensures
            ansi@ == set_attr_escape(self.0),
    {
        get_set_attr_ansi(self.0)
    }
}

/// When executed, this command prints the styled content to the
/// terminal.
pub struct PrintStyledFont<D>(pub StyledObject<D>);

impl<D> PrintStyledFont<D> {
    /// The styled content this command prints.
    pub fn ansi_code(self) -> (styled: StyledObject<D>)
        ensures
            styled == self.0,
    {
        self.0
    }
}

/// When executed, this command resets the console colors back to
/// default.
pub struct ResetColor;

impl ResetColor {
    /// The escape sequence this command writes on an ANSI terminal.
    pub fn ansi_code(&self) -> (ansi: String)
        ensures
            ansi@ == reset_escape(),
    {
        get_reset_ansi()
    }
}

} // verus!
