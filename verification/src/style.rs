//! Style specifications: what a stretch of text should look like, and the
//! hyperlink it may carry.

use crate::color::Color;
use vstd::prelude::*;

verus! {

/// A style: optional foreground and background colors and a set of
/// independent text attributes.
///
/// `reset` says whether applying the style first returns the terminal to its
/// default rendition. It is on by default and is not itself a style: a
/// specification with nothing but `reset` set is still empty.
#[derive(Debug, PartialEq, Eq)]
pub struct ColorSpec {
    pub fg_color: Option<Color>,
    pub bg_color: Option<Color>,
    pub bold: bool,
    pub intense: bool,
    pub underline: bool,
    pub dimmed: bool,
    pub italic: bool,
    pub reset: bool,
    pub strikethrough: bool,
}

/// One setting of one attribute of a style.
pub enum Setting {
    Fg(Option<Color>),
    Bg(Option<Color>),
    Bold(bool),
    Dimmed(bool),
    Italic(bool),
    Underline(bool),
    Strikethrough(bool),
    Reset(bool),
    Intense(bool),
}

impl Setting {
    /// Whether the two settings are of the same attribute.
    pub open spec fn same_attribute(self, other: Setting) -> bool {
        match (self, other) {
            (Setting::Fg(_), Setting::Fg(_)) => true,
            (Setting::Bg(_), Setting::Bg(_)) => true,
            (Setting::Bold(_), Setting::Bold(_)) => true,
            (Setting::Dimmed(_), Setting::Dimmed(_)) => true,
            (Setting::Italic(_), Setting::Italic(_)) => true,
            (Setting::Underline(_), Setting::Underline(_)) => true,
            (Setting::Strikethrough(_), Setting::Strikethrough(_)) => true,
            (Setting::Reset(_), Setting::Reset(_)) => true,
            (Setting::Intense(_), Setting::Intense(_)) => true,
            _ => false,
        }
    }
}

/// Two settings of different attributes give the same style in either
/// order.
pub proof fn lemma_setting_order_is_irrelevant(s: ColorSpec, a: Setting, b: Setting)
    requires
        !a.same_attribute(b),
    ensures
        s.with(a).with(b) == s.with(b).with(a),
{
}

/// Of two settings of the same attribute the later one stands.
pub proof fn lemma_last_setting_wins(s: ColorSpec, a: Setting, b: Setting)
    requires
        a.same_attribute(b),
    ensures
        s.with(a).with(b) == s.with(b),
{
}

impl ColorSpec {
    /// This style with one attribute set and every other as it is.
    pub open spec fn with(self, setting: Setting) -> ColorSpec {
        match setting {
            Setting::Fg(color) => ColorSpec { fg_color: color, ..self },
            Setting::Bg(color) => ColorSpec { bg_color: color, ..self },
            Setting::Bold(yes) => ColorSpec { bold: yes, ..self },
            Setting::Dimmed(yes) => ColorSpec { dimmed: yes, ..self },
            Setting::Italic(yes) => ColorSpec { italic: yes, ..self },
            Setting::Underline(yes) => ColorSpec { underline: yes, ..self },
            Setting::Strikethrough(yes) => ColorSpec { strikethrough: yes, ..self },
            Setting::Reset(yes) => ColorSpec { reset: yes, ..self },
            Setting::Intense(yes) => ColorSpec { intense: yes, ..self },
        }
    }

    /// The specification with no color and no attribute, and `reset` on.
    pub open spec fn empty() -> ColorSpec {
        ColorSpec {
            fg_color: None,
            bg_color: None,
            bold: false,
            intense: false,
            underline: false,
            dimmed: false,
            italic: false,
            reset: true,
            strikethrough: false,
        }
    }

    /// Whether the specification carries no color and no attribute. The
    /// `reset` flag plays no part.
    pub open spec fn is_plain(&self) -> bool {
        &&& self.fg_color is None
        &&& self.bg_color is None
        &&& !self.bold
        &&& !self.underline
        &&& !self.dimmed
        &&& !self.italic
        &&& !self.intense
        &&& !self.strikethrough
    }

    /// This specification with every color and attribute removed and `reset`
    /// left as it is.
    pub open spec fn cleared(&self) -> ColorSpec {
        ColorSpec { reset: self.reset, ..ColorSpec::empty() }
    }

    /// Creates a specification that has no colors or styles.
    pub fn new() -> (r: ColorSpec)
        ensures
            r == ColorSpec::empty(),
    {
        ColorSpec {
            fg_color: None,
            bg_color: None,
            bold: false,
            intense: false,
            underline: false,
            dimmed: false,
            italic: false,
            reset: true,
            strikethrough: false,
        }
    }

    /// The foreground color, if one is set.
    pub fn fg(&self) -> (r: Option<&Color>)
        ensures
            r is Some <==> self.fg_color is Some,
            r matches Some(c) ==> Some(*c) == self.fg_color,
    {
        self.fg_color.as_ref()
    }

    /// Sets or removes the foreground color.
    pub fn set_fg(&mut self, color: Option<Color>) -> (r: &mut ColorSpec)
        ensures
            *r == old(self).with(Setting::Fg(color)),
            *final(self) == *final(r),
    {
        self.fg_color = color;
        self
    }

    /// The background color, if one is set.
    pub fn bg(&self) -> (r: Option<&Color>)
        ensures
            r is Some <==> self.bg_color is Some,
            r matches Some(c) ==> Some(*c) == self.bg_color,
    {
        self.bg_color.as_ref()
    }

    /// Sets or removes the background color.
    pub fn set_bg(&mut self, color: Option<Color>) -> (r: &mut ColorSpec)
        ensures
            *r == old(self).with(Setting::Bg(color)),
            *final(self) == *final(r),
    {
        self.bg_color = color;
        self
    }

    /// Whether the text is bold.
    pub fn bold(&self) -> (r: bool)
        ensures
            r == self.bold,
    {
        self.bold
    }

    /// Sets whether the text is bold.
    pub fn set_bold(&mut self, yes: bool) -> (r: &mut ColorSpec)
        ensures
            *r == old(self).with(Setting::Bold(yes)),
            *final(self) == *final(r),
    {
        self.bold = yes;
        self
    }

    /// Whether the text is dimmed.
    pub fn dimmed(&self) -> (r: bool)
        ensures
            r == self.dimmed,
    {
        self.dimmed
    }

    /// Sets whether the text is dimmed.
    pub fn set_dimmed(&mut self, yes: bool) -> (r: &mut ColorSpec)
        ensures
            *r == old(self).with(Setting::Dimmed(yes)),
            *final(self) == *final(r),
    {
        self.dimmed = yes;
        self
    }

    /// Whether the text is italic.
    pub fn italic(&self) -> (r: bool)
        ensures
            r == self.italic,
    {
        self.italic
    }

    /// Sets whether the text is italic.
    pub fn set_italic(&mut self, yes: bool) -> (r: &mut ColorSpec)
        ensures
            *r == old(self).with(Setting::Italic(yes)),
            *final(self) == *final(r),
    {
        self.italic = yes;
        self
    }

    /// Whether the text is underlined.
    pub fn underline(&self) -> (r: bool)
        ensures
            r == self.underline,
    {
        self.underline
    }

    /// Sets whether the text is underlined.
    pub fn set_underline(&mut self, yes: bool) -> (r: &mut ColorSpec)
        ensures
            *r == old(self).with(Setting::Underline(yes)),
            *final(self) == *final(r),
    {
        self.underline = yes;
        self
    }

    /// Whether the text is struck through.
    pub fn strikethrough(&self) -> (r: bool)
        ensures
            r == self.strikethrough,
    {
        self.strikethrough
    }

    /// Sets whether the text is struck through.
    pub fn set_strikethrough(&mut self, yes: bool) -> (r: &mut ColorSpec)
        ensures
            *r == old(self).with(Setting::Strikethrough(yes)),
            *final(self) == *final(r),
    {
        self.strikethrough = yes;
        self
    }

    /// Whether applying this style first resets the terminal's rendition.
    pub fn reset(&self) -> (r: bool)
        ensures
            r == self.reset,
    {
        self.reset
    }

    /// Sets whether applying this style first resets the terminal's
    /// rendition. Turning it off leaves earlier attributes in force, for
    /// callers that manage the exact sequence of escape codes themselves.
    pub fn set_reset(&mut self, yes: bool) -> (r: &mut ColorSpec)
        ensures
            *r == old(self).with(Setting::Reset(yes)),
            *final(self) == *final(r),
    {
        self.reset = yes;
        self
    }

    /// Whether the colors are rendered in their brighter variant.
    pub fn intense(&self) -> (r: bool)
        ensures
            r == self.intense,
    {
        self.intense
    }

    /// Sets whether the colors are rendered in their brighter variant.
    pub fn set_intense(&mut self, yes: bool) -> (r: &mut ColorSpec)
        ensures
            *r == old(self).with(Setting::Intense(yes)),
            *final(self) == *final(r),
    {
        self.intense = yes;
        self
    }

    /// Returns true if this specification has no colors or styles.
    pub fn is_none(&self) -> (r: bool)
        ensures
            r == self.is_plain(),
    {
        self.fg_color.is_none() && self.bg_color.is_none() && !self.bold && !self.underline
            && !self.dimmed && !self.italic && !self.intense && !self.strikethrough
    }

    /// Removes every color and attribute. The `reset` flag keeps its value.
    pub fn clear(&mut self)
        ensures
            *final(self) == old(self).cleared(),
            final(self).is_plain(),
    {
        self.fg_color = None;
        self.bg_color = None;
        self.bold = false;
        self.underline = false;
        self.intense = false;
        self.dimmed = false;
        self.italic = false;
        self.strikethrough = false;
    }
}

impl Clone for ColorSpec {
    fn clone(&self) -> (r: ColorSpec)
        ensures
            r == *self,
    {
        ColorSpec {
            fg_color: self.fg_color,
            bg_color: self.bg_color,
            bold: self.bold,
            intense: self.intense,
            underline: self.underline,
            dimmed: self.dimmed,
            italic: self.italic,
            reset: self.reset,
            strikethrough: self.strikethrough,
        }
    }
}

impl Default for ColorSpec {
    fn default() -> (r: ColorSpec)
        ensures
            r == ColorSpec::empty(),
    {
        ColorSpec::new()
    }
}

/// A hyperlink instruction: open a link to a URI, or close the current one.
///
/// The URI is borrowed for the duration of the call that emits it.
#[derive(Clone, Debug)]
pub struct HyperlinkSpec<'a> {
    pub uri: Option<&'a [u8]>,
}

impl<'a> HyperlinkSpec<'a> {
    /// The URI bytes of an opening instruction; empty for a closing one.
    pub open spec fn target(&self) -> Seq<u8> {
        match self.uri {
            Some(u) => u@,
            None => Seq::empty(),
        }
    }

    /// An instruction that opens a hyperlink to `uri`.
    pub fn open(uri: &'a [u8]) -> (r: HyperlinkSpec<'a>)
        ensures
            r.uri == Some(uri),
    {
        HyperlinkSpec { uri: Some(uri) }
    }

    /// An instruction that closes the current hyperlink.
    pub fn close() -> (r: HyperlinkSpec<'a>)
        ensures
            r.uri is None,
    {
        HyperlinkSpec { uri: None }
    }

    /// The URI of an opening instruction, `None` for a closing one.
    pub fn uri(&self) -> (r: Option<&'a [u8]>)
        ensures
            r == self.uri,
    {
        self.uri
    }
}

} // verus!
