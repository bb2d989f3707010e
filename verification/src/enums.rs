//! The closed sets of modes and styles that paints, clips and text styles
//! select from.  Draw commands capture these values verbatim.

use vstd::prelude::*;

verus! {

/// How a draw call's output is mixed with what was drawn before it.
#[derive(Clone, Copy, Debug, PartialEq, Eq, Structural)]
pub enum BlendMode {
    Clear,
    Source,
    Destination,
    SourceOver,
    DestinationOver,
    SourceIn,
    DestinationIn,
    SourceOut,
    DestinationOut,
    SourceATop,
    DestinationATop,
    Xor,
    Plus,
    Modulate,
    Screen,
    Overlay,
    Darken,
    Lighten,
    ColorDodge,
    ColorBurn,
    HardLight,
    SoftLight,
    Difference,
    Exclusion,
    Multiply,
    Hue,
    Saturation,
    Color,
    Luminosity,
}

/// Whether closed shapes are filled, stroked, or both.
#[derive(Clone, Copy, Debug, PartialEq, Eq, Structural)]
pub enum DrawStyle {
    Fill,
    Stroke,
    StrokeAndFill,
}

/// How stroke ends are capped.
#[derive(Clone, Copy, Debug, PartialEq, Eq, Structural)]
pub enum StrokeCap {
    Butt,
    Round,
    Square,
}

/// How stroke segments are joined.
#[derive(Clone, Copy, Debug, PartialEq, Eq, Structural)]
pub enum StrokeJoin {
    Miter,
    Round,
    Bevel,
}

/// The shape of a mask blur.
#[derive(Clone, Copy, Debug, PartialEq, Eq, Structural)]
pub enum BlurStyle {
    Normal,
    Solid,
    Outer,
    Inner,
}

/// How a gradient or image repeats outside its defined region.
#[derive(Clone, Copy, Debug, PartialEq, Eq, Structural)]
pub enum TileMode {
    Clamp,
    Repeat,
    Mirror,
    Decal,
}

/// How a texture is sampled when scaled.
#[derive(Clone, Copy, Debug, PartialEq, Eq, Structural)]
pub enum TextureSampling {
    NearestNeighbor,
    Linear,
}

/// Whether a clip keeps the inside or the outside of its shape.
#[derive(Clone, Copy, Debug, PartialEq, Eq, Structural)]
pub enum ClipOperation {
    Difference,
    Intersect,
}

/// The rule deciding which regions a path encloses.
#[derive(Clone, Copy, Debug, PartialEq, Eq, Structural)]
pub enum FillType {
    NonZero,
    Odd,
}

/// Layout of the color components of texture pixels.
#[derive(Clone, Copy, Debug, PartialEq, Eq, Structural)]
pub enum PixelFormat {
    RGBA8888,
}

/// The weight of a font face.
#[derive(Clone, Copy, Debug, PartialEq, Eq, Structural)]
pub enum FontWeight {
    W100,
    W200,
    W300,
    W400,
    W500,
    W600,
    W700,
    W800,
    W900,
}

/// Whether glyphs are upright or italicized.
#[derive(Clone, Copy, Debug, PartialEq, Eq, Structural)]
pub enum FontStyle {
    Normal,
    Italic,
}

/// How text lines are aligned within a paragraph.
#[derive(Clone, Copy, Debug, PartialEq, Eq, Structural)]
pub enum TextAlignment {
    Left,
    Right,
    Center,
    Justify,
    Start,
    End,
}

/// The base direction text runs in.
#[derive(Clone, Copy, Debug, PartialEq, Eq, Structural)]
pub enum TextDirection {
    RTL,
    LTR,
}

} // verus!
