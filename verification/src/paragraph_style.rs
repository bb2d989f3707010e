//! Text appearance: the style values a paragraph builder stacks while text
//! is added.
//!
//! Every field starts unset; an unset field leaves the engine's own default
//! in force.  String-valued fields cross the engine boundary as C strings,
//! so they must not contain an embedded NUL character.

use vstd::prelude::*;

use crate::enums::FontStyle;
use crate::enums::FontWeight;
use crate::enums::TextAlignment;
use crate::enums::TextDirection;
use crate::geometry::Scalar;
use crate::paint::Paint;
use crate::paint::PaintV;

verus! {

/// The mathematical value of a [`ParagraphStyle`].
pub ghost struct ParagraphStyleV {
    pub foreground: Option<PaintV>,
    pub background: Option<PaintV>,
    pub font_weight: Option<FontWeight>,
    pub font_style: Option<FontStyle>,
    pub font_family: Option<Seq<char>>,
    pub font_size: Option<Scalar>,
    pub height: Option<Scalar>,
    pub text_alignment: Option<TextAlignment>,
    pub text_direction: Option<TextDirection>,
    pub max_lines: Option<u32>,
    pub locale: Option<Seq<char>>,
    pub ellipsis: Option<Seq<char>>,
}

/// A paragraph style: which font to select, how to shape and align text,
/// and the paints used for glyphs and their background.
#[derive(Debug)]
pub struct ParagraphStyle {
    pub foreground: Option<Paint>,
    pub background: Option<Paint>,
    pub font_weight: Option<FontWeight>,
    pub font_style: Option<FontStyle>,
    pub font_family: Option<String>,
    pub font_size: Option<Scalar>,
    pub height: Option<Scalar>,
    pub text_alignment: Option<TextAlignment>,
    pub text_direction: Option<TextDirection>,
    pub max_lines: Option<u32>,
    pub locale: Option<String>,
    pub ellipsis: Option<String>,
}

impl View for ParagraphStyle {
    type V = ParagraphStyleV;

    open spec fn view(&self) -> ParagraphStyleV {
        ParagraphStyleV {
            foreground: match self.foreground {
                Some(p) => Some(p@),
                None => None,
            },
            background: match self.background {
                Some(p) => Some(p@),
                None => None,
            },
            font_weight: self.font_weight,
            font_style: self.font_style,
            font_family: match self.font_family {
                Some(s) => Some(s@),
                None => None,
            },
            font_size: self.font_size,
            height: self.height,
            text_alignment: self.text_alignment,
            text_direction: self.text_direction,
            max_lines: self.max_lines,
            locale: match self.locale {
                Some(s) => Some(s@),
                None => None,
            },
            ellipsis: match self.ellipsis {
                Some(s) => Some(s@),
                None => None,
            },
        }
    }
}

/// The style with every field unset.
pub open spec fn default_paragraph_style() -> ParagraphStyleV {
    ParagraphStyleV {
        foreground: None,
        background: None,
        font_weight: None,
        font_style: None,
        font_family: None,
        font_size: None,
        height: None,
        text_alignment: None,
        text_direction: None,
        max_lines: None,
        locale: None,
        ellipsis: None,
    }
}

impl Default for ParagraphStyle {
    /// A fresh style with every field unset: the engine's defaults apply.
    fn default() -> (r: Self)
        ensures
            r@ == default_paragraph_style(),
    {
        ParagraphStyle {
            foreground: None,
            background: None,
            font_weight: None,
            font_style: None,
            font_family: None,
            font_size: None,
            height: None,
            text_alignment: None,
            text_direction: None,
            max_lines: None,
            locale: None,
            ellipsis: None,
        }
    }
}

impl Clone for ParagraphStyle {
    fn clone(&self) -> (r: Self)
        ensures
            r@ == self@,
    {
        ParagraphStyle {
            foreground: match &self.foreground {
                Some(p) => Some(p.clone()),
                None => None,
            },
            background: match &self.background {
                Some(p) => Some(p.clone()),
                None => None,
            },
            font_weight: self.font_weight,
            font_style: self.font_style,
            font_family: match &self.font_family {
                Some(s) => Some(s.clone()),
                None => None,
            },
            font_size: self.font_size,
            height: self.height,
            text_alignment: self.text_alignment,
            text_direction: self.text_direction,
            max_lines: self.max_lines,
            locale: match &self.locale {
                Some(s) => Some(s.clone()),
                None => None,
            },
            ellipsis: match &self.ellipsis {
                Some(s) => Some(s.clone()),
                None => None,
            },
        }
    }
}

impl ParagraphStyle {
    /// Set the paint used to render the glyphs themselves.
    pub fn set_foreground(&mut self, paint: &Paint)
        ensures
            final(self)@ == (ParagraphStyleV { foreground: Some(paint@), ..old(self)@ }),
    {
        self.foreground = Some(paint.clone());
    }

    /// Set the paint used to render the background behind the glyphs.
    pub fn set_background(&mut self, paint: &Paint)
        ensures
            final(self)@ == (ParagraphStyleV { background: Some(paint@), ..old(self)@ }),
    {
        self.background = Some(paint.clone());
    }

    /// Set the weight of the font to select.
    pub fn set_font_weight(&mut self, weight: FontWeight)
        ensures
            final(self)@ == (ParagraphStyleV { font_weight: Some(weight), ..old(self)@ }),
    {
        self.font_weight = Some(weight);
    }

    /// Set whether glyphs are upright or italicized.
    pub fn set_font_style(&mut self, style: FontStyle)
        ensures
            final(self)@ == (ParagraphStyleV { font_style: Some(style), ..old(self)@ }),
    {
        self.font_style = Some(style);
    }

    /// Set the font family.  The name crosses the engine boundary as a C
    /// string and therefore must not contain a NUL character.
    pub fn set_font_family(&mut self, family_name: &str)
        requires
            !family_name@.contains('\u{0}'),
        ensures
            final(self)@ == (ParagraphStyleV { font_family: Some(family_name@), ..old(self)@ }),
    {
        self.font_family = Some(family_name.to_owned());
    }

    /// Set the font size.
    pub fn set_font_size(&mut self, size: Scalar)
        ensures
            final(self)@ == (ParagraphStyleV { font_size: Some(size), ..old(self)@ }),
    {
        self.font_size = Some(size);
    }

    /// Set the line height as a multiple of the font size.
    pub fn set_height(&mut self, height: Scalar)
        ensures
            final(self)@ == (ParagraphStyleV { height: Some(height), ..old(self)@ }),
    {
        self.height = Some(height);
    }

    /// Set the alignment of lines within the paragraph.
    pub fn set_text_alignment(&mut self, align: TextAlignment)
        ensures
            final(self)@ == (ParagraphStyleV { text_alignment: Some(align), ..old(self)@ }),
    {
        self.text_alignment = Some(align);
    }

    /// Set the base direction of the text.
    pub fn set_text_direction(&mut self, direction: TextDirection)
        ensures
            final(self)@ == (ParagraphStyleV { text_direction: Some(direction), ..old(self)@ }),
    {
        self.text_direction = Some(direction);
    }

    /// Set the maximum number of lines the paragraph may lay out.
    pub fn set_max_lines(&mut self, max_lines: u32)
        ensures
            final(self)@ == (ParagraphStyleV { max_lines: Some(max_lines), ..old(self)@ }),
    {
        self.max_lines = Some(max_lines);
    }

    /// Set the locale used for locale-sensitive shaping.  The locale crosses
    /// the engine boundary as a C string and therefore must not contain a
    /// NUL character.
    pub fn set_locale(&mut self, locale: &str)
        requires
            !locale@.contains('\u{0}'),
        ensures
            final(self)@ == (ParagraphStyleV { locale: Some(locale@), ..old(self)@ }),
    {
        self.locale = Some(locale.to_owned());
    }

    /// Set the string shown where text is truncated.  It crosses the engine
    /// boundary as a C string and therefore must not contain a NUL
    /// character.
    pub fn set_ellipsis(&mut self, ellipsis: &str)
        requires
            !ellipsis@.contains('\u{0}'),
        ensures
            final(self)@ == (ParagraphStyleV { ellipsis: Some(ellipsis@), ..old(self)@ }),
    {
        self.ellipsis = Some(ellipsis.to_owned());
    }
}

} // verus!
