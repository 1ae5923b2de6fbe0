//! The style properties that can be applied to a displayable object.

use vstd::prelude::*;
use vstd::string::StringExecFns;

use crate::ansi_color::{get_set_attr_ansi, get_set_bg_ansi, get_set_fg_ansi};
use crate::ansi_color::{set_attr_escape, set_bg_escape, set_fg_escape};
use crate::attribute::Attribute;
use crate::color_type::ColorType;
use crate::styledobject::StyledObject;

verus! {

/// The style properties that can be applied to a displayable object: an
/// optional foreground color, an optional background color, and a list
/// of text attributes in the order they were added.
#[derive(Debug, Clone)]
pub struct ObjectStyle {
    pub fg_color: Option<ColorType>,
    pub bg_color: Option<ColorType>,
    pub attrs: Vec<Attribute>,
}

/// The concatenated escape sequences of a list of attributes, in order.
pub open spec fn attrs_escape(attrs: Seq<Attribute>) -> Seq<char>
    decreases attrs.len(),
{
    if attrs.len() == 0 {
        Seq::empty()
    } else {
        attrs_escape(attrs.drop_last()) + set_attr_escape(attrs.last())
    }
}

/// The escape sequences a style emits before its content: the background
/// change, then the foreground change, then the attributes in order;
/// absent parts contribute nothing.
pub open spec fn style_prefix(style: ObjectStyle) -> Seq<char> {
    (match style.bg_color {
        Some(bg) => set_bg_escape(bg),
        None => Seq::empty(),
    }) + (match style.fg_color {
        Some(fg) => set_fg_escape(fg),
        None => Seq::empty(),
    }) + attrs_escape(style.attrs@)
}

impl Default for ObjectStyle {
    /// The empty style: no colors, no attributes.
    fn default() -> (style: ObjectStyle)
        ensures
            style.fg_color is None,
            style.bg_color is None,
            style.attrs@ == Seq::<Attribute>::empty(),
    {
        ObjectStyle { fg_color: None, bg_color: None, attrs: Vec::new() }
    }
}

impl ObjectStyle {
    /// Gets a new, empty `ObjectStyle`.
    pub fn new() -> (style: ObjectStyle)
        ensures
            style.fg_color is None,
            style.bg_color is None,
            style.attrs@ == Seq::<Attribute>::empty(),
    {
        ObjectStyle::default()
    }

    /// Wraps the passed displayable value together with this style.
    pub fn apply_to<D>(&self, val: D) -> (styled: StyledObject<D>)
        ensures
            styled.object_style.fg_color == self.fg_color,
            styled.object_style.bg_color == self.bg_color,
            styled.object_style.attrs@ == self.attrs@,
            styled.content == val,
    {
        let mut attrs: Vec<Attribute> = Vec::new();
        let mut i: usize = 0;
        while i < self.attrs.len()
            invariant
                i <= self.attrs@.len(),
                attrs@ == self.attrs@.take(i as int),
            decreases self.attrs@.len() - i,
        {
            attrs.push(self.attrs[i]);
            proof {
                assert(attrs@ =~= self.attrs@.take(i + 1));
            }
            i = i + 1;
        }
        proof {
            assert(self.attrs@.take(self.attrs@.len() as int) =~= self.attrs@);
        }
        StyledObject {
            object_style: ObjectStyle {
                fg_color: self.fg_color,
                bg_color: self.bg_color,
                attrs,
            },
            content: val,
        }
    }

    /// Sets the background color of this style to the passed color.
    pub fn set_bg(self, color: ColorType) -> (style: ObjectStyle)
        ensures
            style.fg_color == self.fg_color,
            style.bg_color == Some(color),
            style.attrs@ == self.attrs@,
    {
        let mut style = self;
        style.bg_color = Some(color);
        style
    }

    /// Sets the foreground color of this style to the passed color.
    pub fn set_fg(self, color: ColorType) -> (style: ObjectStyle)
        ensures
            style.fg_color == Some(color),
            style.bg_color == self.bg_color,
            style.attrs@ == self.attrs@,
    {
        let mut style = self;
        style.fg_color = Some(color);
        style
    }

    /// Adds an attribute, like italic or bold, after those already set.
    pub fn add_attr(&mut self, attr: Attribute)
        ensures
            final(self).fg_color == old(self).fg_color,
            final(self).bg_color == old(self).bg_color,
            final(self).attrs@ == old(self).attrs@.push(attr),
    {
        self.attrs.push(attr);
    }

    /// True when the style sets anything at all, so that emitting it
    /// must be followed by a reset.
    pub fn has_style(&self) -> (any: bool)
        ensures
            any == (self.fg_color is Some || self.bg_color is Some || self.attrs@.len() > 0),
    {
        self.fg_color.is_some() || self.bg_color.is_some() || self.attrs.len() > 0
    }

    /// Computes the escape sequences this style emits before its
    /// content: background, foreground, then attributes in order.
    pub fn ansi_prefix(&self) -> (ansi: String)
        ensures
            ansi@ == style_prefix(*self),
    {
        let mut ansi = String::new();
        match self.bg_color {
            Some(bg) => {
                let seq_bg = get_set_bg_ansi(bg);
                ansi.append(seq_bg.as_str());
            },
            None => {},
        }
        match self.fg_color {
            Some(fg) => {
                let seq_fg = get_set_fg_ansi(fg);
                ansi.append(seq_fg.as_str());
            },
            None => {},
        }
        let ghost colors_part = ansi@;
        let mut i: usize = 0;
        while i < self.attrs.len()
            invariant
                i <= self.attrs@.len(),
                ansi@ == colors_part + attrs_escape(self.attrs@.take(i as int)),
            decreases self.attrs@.len() - i,
        {
            let seq_attr = get_set_attr_ansi(self.attrs[i]);
            ansi.append(seq_attr.as_str());
            proof {
                assert(self.attrs@.take(i + 1).drop_last() =~= self.attrs@.take(i as int));
                assert(self.attrs@.take(i + 1).last() == self.attrs@[i as int]);
                assert(ansi@ =~= colors_part + attrs_escape(self.attrs@.take(i + 1)));
            }
            i = i + 1;
        }
        proof {
            assert(self.attrs@.take(self.attrs@.len() as int) =~= self.attrs@);
            assert(ansi@ =~= style_prefix(*self));
        }
        ansi
    }
}

} // verus!
