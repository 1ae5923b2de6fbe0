//! A displayable value paired with the style to show it in.

use vstd::prelude::*;

use crate::attribute::Attribute;
use crate::color_type::ColorType;
use crate::objectstyle::ObjectStyle;

verus! {

/// Contains both the style and the content which can be styled.
///
/// The caller displays it by emitting the style's escape prefix, then
/// the content, then the reset sequence when any style is set.
#[derive(Clone)]
pub struct StyledObject<D> {
    pub object_style: ObjectStyle,
    pub content: D,
}

impl<D> StyledObject<D> {
    /// Sets the foreground color; consumes `self`, builder style.
    pub fn with(self, foreground_color: ColorType) -> (styled: StyledObject<D>)
        ensures
            styled.object_style.fg_color == Some(foreground_color),
            styled.object_style.bg_color == self.object_style.bg_color,
            styled.object_style.attrs@ == self.object_style.attrs@,
            styled.content == self.content,
    {
        let mut styled = self;
        styled.object_style = styled.object_style.set_fg(foreground_color);
        styled
    }

    /// Sets the background color; consumes `self`, builder style.
    pub fn on(self, background_color: ColorType) -> (styled: StyledObject<D>)
        ensures
            styled.object_style.fg_color == self.object_style.fg_color,
            styled.object_style.bg_color == Some(background_color),
            styled.object_style.attrs@ == self.object_style.attrs@,
            styled.content == self.content,
    {
        let mut styled = self;
        styled.object_style = styled.object_style.set_bg(background_color);
        styled
    }

    /// Adds an attribute after those already set; consumes `self`,
    /// builder style.
    pub fn attr(self, attr: Attribute) -> (styled: StyledObject<D>)
        ensures
            styled.object_style.fg_color == self.object_style.fg_color,
            styled.object_style.bg_color == self.object_style.bg_color,
            styled.object_style.attrs@ == self.object_style.attrs@.push(attr),
            styled.content == self.content,
    {
        let mut styled = self;
        styled.object_style.add_attr(attr);
        styled
    }
}

} // verus!
