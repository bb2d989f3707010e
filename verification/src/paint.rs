//! The paint: the style descriptor every draw command snapshots.
//!
//! A paint is a mutable value object.  A draw call captures the paint's
//! configuration at the moment it records; mutating the paint afterwards
//! never alters an already-recorded command.

use vstd::prelude::*;

use crate::color::Color;
use crate::color::ColorSpace;
use crate::enums::BlendMode;
use crate::enums::DrawStyle;
use crate::enums::StrokeCap;
use crate::enums::StrokeJoin;
use crate::filters::ColorFilter;
use crate::filters::ColorSource;
use crate::filters::ColorSourceV;
use crate::filters::ImageFilter;
use crate::filters::ImageFilterV;
use crate::filters::MaskFilter;
use crate::geometry::Scalar;

verus! {

/// The scalar pattern of `4.0`, the default stroke miter limit.
pub const SCALAR_FOUR_BITS: u32 = 0x40800000;

/// The mathematical value of a [`Paint`]: every field a draw command
/// captures.
pub ghost struct PaintV {
    pub color: Color,
    pub blend_mode: BlendMode,
    pub draw_style: DrawStyle,
    pub stroke_cap: StrokeCap,
    pub stroke_join: StrokeJoin,
    pub stroke_width: Scalar,
    pub stroke_miter: Scalar,
    pub color_filter: Option<ColorFilter>,
    pub image_filter: Option<ImageFilterV>,
    pub color_source: Option<ColorSourceV>,
    pub mask_filter: Option<MaskFilter>,
}

/// A draw-call style descriptor: color, blend mode, draw style, stroke
/// parameters and optional filters and color source.
#[derive(Debug)]
pub struct Paint {
    pub color: Color,
    pub blend_mode: BlendMode,
    pub draw_style: DrawStyle,
    pub stroke_cap: StrokeCap,
    pub stroke_join: StrokeJoin,
    pub stroke_width: Scalar,
    pub stroke_miter: Scalar,
    pub color_filter: Option<ColorFilter>,
    pub image_filter: Option<ImageFilter>,
    pub color_source: Option<ColorSource>,
    pub mask_filter: Option<MaskFilter>,
}

impl View for Paint {
    type V = PaintV;

    open spec fn view(&self) -> PaintV {
        PaintV {
            color: self.color,
            blend_mode: self.blend_mode,
            draw_style: self.draw_style,
            stroke_cap: self.stroke_cap,
            stroke_join: self.stroke_join,
            stroke_width: self.stroke_width,
            stroke_miter: self.stroke_miter,
            color_filter: self.color_filter,
            image_filter: match self.image_filter {
                Some(f) => Some(f@),
                None => None,
            },
            color_source: match self.color_source {
                Some(s) => Some(s@),
                None => None,
            },
            mask_filter: self.mask_filter,
        }
    }
}

/// The configuration a fresh paint starts with: opaque black, source-over
/// blending, filled shapes, zero-width butt-capped miter-joined strokes
/// with the engine's default miter limit, and no filters.
pub open spec fn default_paint() -> PaintV {
    PaintV {
        color: Color {
            red: Scalar { bits: 0 },
            green: Scalar { bits: 0 },
            blue: Scalar { bits: 0 },
            alpha: Scalar { bits: crate::color::SCALAR_ONE_BITS },
            color_space: ColorSpace::SRGB,
        },
        blend_mode: BlendMode::SourceOver,
        draw_style: DrawStyle::Fill,
        stroke_cap: StrokeCap::Butt,
        stroke_join: StrokeJoin::Miter,
        stroke_width: Scalar { bits: 0 },
        stroke_miter: Scalar { bits: SCALAR_FOUR_BITS },
        color_filter: None,
        image_filter: None,
        color_source: None,
        mask_filter: None,
    }
}

impl Default for Paint {
    /// A fresh paint with the default configuration.
    fn default() -> (r: Self)
        ensures
            r@ == default_paint(),
    {
        Paint {
            color: Color {
                red: Scalar { bits: 0 },
                green: Scalar { bits: 0 },
                blue: Scalar { bits: 0 },
                alpha: Scalar { bits: crate::color::SCALAR_ONE_BITS },
                color_space: ColorSpace::SRGB,
            },
            blend_mode: BlendMode::SourceOver,
            draw_style: DrawStyle::Fill,
            stroke_cap: StrokeCap::Butt,
            stroke_join: StrokeJoin::Miter,
            stroke_width: Scalar { bits: 0 },
            stroke_miter: Scalar { bits: SCALAR_FOUR_BITS },
            color_filter: None,
            image_filter: None,
            color_source: None,
            mask_filter: None,
        }
    }
}

impl Clone for Paint {
    fn clone(&self) -> (r: Self)
        ensures
            r@ == self@,
    {
        Paint {
            color: self.color,
            blend_mode: self.blend_mode,
            draw_style: self.draw_style,
            stroke_cap: self.stroke_cap,
            stroke_join: self.stroke_join,
            stroke_width: self.stroke_width,
            stroke_miter: self.stroke_miter,
            color_filter: self.color_filter,
            image_filter: match &self.image_filter {
                Some(f) => Some(f.clone()),
                None => None,
            },
            color_source: match &self.color_source {
                Some(s) => Some(s.clone()),
                None => None,
            },
            mask_filter: self.mask_filter,
        }
    }
}

impl Paint {
    /// Set the color used for stroking or filling.
    pub fn set_color(&mut self, color: Color)
        ensures
            final(self)@ == (PaintV { color, ..old(self)@ }),
    {
        self.color = color;
    }

    /// Set how this paint's output mixes with what was already drawn.
    pub fn set_blend_mode(&mut self, mode: BlendMode)
        ensures
            final(self)@ == (PaintV { blend_mode: mode, ..old(self)@ }),
    {
        self.blend_mode = mode;
    }

    /// Set whether closed shapes are filled and/or stroked.
    pub fn set_draw_style(&mut self, style: DrawStyle)
        ensures
            final(self)@ == (PaintV { draw_style: style, ..old(self)@ }),
    {
        self.draw_style = style;
    }

    /// Set how strokes are capped.
    pub fn set_stroke_cap(&mut self, cap: StrokeCap)
        ensures
            final(self)@ == (PaintV { stroke_cap: cap, ..old(self)@ }),
    {
        self.stroke_cap = cap;
    }

    /// Set how strokes are joined.
    pub fn set_stroke_join(&mut self, join: StrokeJoin)
        ensures
            final(self)@ == (PaintV { stroke_join: join, ..old(self)@ }),
    {
        self.stroke_join = join;
    }

    /// Set the width of strokes.
    pub fn set_stroke_width(&mut self, width: Scalar)
        ensures
            final(self)@ == (PaintV { stroke_width: width, ..old(self)@ }),
    {
        self.stroke_width = width;
    }

    /// Set the miter limit of strokes.
    pub fn set_stroke_miter(&mut self, miter: Scalar)
        ensures
            final(self)@ == (PaintV { stroke_miter: miter, ..old(self)@ }),
    {
        self.stroke_miter = miter;
    }

    /// Set the color filter.
    pub fn set_color_filter(&mut self, color_filter: &ColorFilter)
        ensures
            final(self)@ == (PaintV { color_filter: Some(*color_filter), ..old(self)@ }),
    {
        self.color_filter = Some(*color_filter);
    }

    /// Set the image filter.
    pub fn set_image_filter(&mut self, image_filter: &ImageFilter)
        ensures
            final(self)@ == (PaintV { image_filter: Some(image_filter@), ..old(self)@ }),
    {
        self.image_filter = Some(image_filter.clone());
    }

    /// Set the color source.
    pub fn set_color_source(&mut self, color_source: &ColorSource)
        ensures
            final(self)@ == (PaintV { color_source: Some(color_source@), ..old(self)@ }),
    {
        self.color_source = Some(color_source.clone());
    }

    /// Set the mask filter.
    pub fn set_mask_filter(&mut self, mask_filter: &MaskFilter)
        ensures
            final(self)@ == (PaintV { mask_filter: Some(*mask_filter), ..old(self)@ }),
    {
        self.mask_filter = Some(*mask_filter);
    }
}

} // verus!
