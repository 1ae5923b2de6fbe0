//! A color request tagged with the half of the display it applies to.

use vstd::prelude::*;

use crate::color_type::ColorType;

verus! {

/// Picks whether a color applies to the text itself or to the area
/// behind it.
#[derive(Copy, Clone, Debug, PartialEq, Eq, Structural, Hash)]
pub enum Colored {
    /// Change the foreground (text) color.
    Fg(ColorType),
    /// Change the background color.
    Bg(ColorType),
}

} // verus!
