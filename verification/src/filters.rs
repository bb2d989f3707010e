//! Paint attachments: color filters, mask filters, image filters, color
//! sources and fragment programs.
//!
//! Each is a plain description of what the engine should compute per pixel.
//! Draw commands capture them by value, so the non-`Copy` ones carry a
//! provable `Clone` and a mathematical view.

use vstd::prelude::*;

use crate::color::Color;
use crate::enums::BlendMode;
use crate::enums::BlurStyle;
use crate::enums::TextureSampling;
use crate::enums::TileMode;
use crate::geometry::ColorMatrix;
use crate::geometry::Matrix;
use crate::geometry::Point;
use crate::geometry::Scalar;
use crate::texture::Texture;

verus! {

/// Copy a vector of plain values, element for element.
pub(crate) fn clone_copied<T: Copy>(v: &Vec<T>) -> (r: Vec<T>)
    ensures
        r@ == v@,
{
    let mut r: Vec<T> = Vec::new();
    let mut i: usize = 0;
    while i < v.len()
        invariant
            i <= v.len(),
            r@ == v@.take(i as int),
        decreases v.len() - i,
    {
        r.push(v[i]);
        i = i + 1;
    }
    proof {
        assert(v@.take(v.len() as int) =~= v@);
    }
    r
}

/// Pre-compiled fragment shader bytecode.  The layer only carries the bytes;
/// compiling shader source at run time is unsupported, the bytes must come
/// from an offline shader compiler.
#[derive(Debug)]
pub struct FragmentProgram {
    pub data: Vec<u8>,
}

impl View for FragmentProgram {
    type V = Seq<u8>;

    open spec fn view(&self) -> Seq<u8> {
        self.data@
    }
}

impl Clone for FragmentProgram {
    fn clone(&self) -> (r: Self)
        ensures
            r@ == self@,
    {
        FragmentProgram { data: clone_copied(&self.data) }
    }
}

impl FragmentProgram {
    /// A fragment program from its compiled bytecode.
    pub fn new(data: Vec<u8>) -> (r: Self)
        ensures
            r@ == data@,
    {
        FragmentProgram { data }
    }
}

/// A function mixing each drawn pixel's color with a fixed color, or
/// transforming it through a color matrix.
#[derive(Clone, Copy, Debug)]
pub enum ColorFilter {
    Blend { color: Color, blend_mode: BlendMode },
    Matrix { matrix: ColorMatrix },
}

impl ColorFilter {
    /// A color filter that blends every pixel with one color.
    pub fn new_blend(color: Color, blend_mode: BlendMode) -> (r: Self)
        ensures
            r == (ColorFilter::Blend { color, blend_mode }),
    {
        ColorFilter::Blend { color, blend_mode }
    }

    /// A color filter that transforms every pixel through a color matrix.
    pub fn new_matrix(color_matrix: ColorMatrix) -> (r: Self)
        ensures
            r == (ColorFilter::Matrix { matrix: color_matrix }),
    {
        ColorFilter::Matrix { matrix: color_matrix }
    }
}

/// A function applied over a shape after drawing, before blending.
#[derive(Clone, Copy, Debug)]
pub enum MaskFilter {
    Blur { style: BlurStyle, sigma: Scalar },
}

impl MaskFilter {
    /// A mask filter that blurs the masked shape.
    pub fn new_blur(style: BlurStyle, sigma: Scalar) -> (r: Self)
        ensures
            r == (MaskFilter::Blur { style, sigma }),
    {
        MaskFilter::Blur { style, sigma }
    }
}

/// The mathematical value of an [`ImageFilter`].
pub ghost enum ImageFilterV {
    Blur { x_sigma: Scalar, y_sigma: Scalar, tile_mode: TileMode },
    Dilate { x_radius: Scalar, y_radius: Scalar },
    Erode { x_radius: Scalar, y_radius: Scalar },
    Matrix { matrix: Matrix, sampling: TextureSampling },
    Compose { outer: Box<ImageFilterV>, inner: Box<ImageFilterV> },
    FragmentProgram { program: Seq<u8>, samplers: Seq<Texture>, uniform_data: Seq<u8> },
}

/// A function from a texture region to a color: blurs, morphology, matrix
/// transforms, compositions of those, or a fragment program.
#[derive(Debug)]
pub enum ImageFilter {
    Blur { x_sigma: Scalar, y_sigma: Scalar, tile_mode: TileMode },
    Dilate { x_radius: Scalar, y_radius: Scalar },
    Erode { x_radius: Scalar, y_radius: Scalar },
    Matrix { matrix: Matrix, sampling: TextureSampling },
    Compose { outer: Box<ImageFilter>, inner: Box<ImageFilter> },
    FragmentProgram { program: FragmentProgram, samplers: Vec<Texture>, uniform_data: Vec<u8> },
}

/// The value an [`ImageFilter`] describes.
pub open spec fn image_filter_view(f: ImageFilter) -> ImageFilterV
    decreases f,
{
    match f {
        ImageFilter::Blur { x_sigma, y_sigma, tile_mode } => ImageFilterV::Blur {
            x_sigma,
            y_sigma,
            tile_mode,
        },
        ImageFilter::Dilate { x_radius, y_radius } => ImageFilterV::Dilate { x_radius, y_radius },
        ImageFilter::Erode { x_radius, y_radius } => ImageFilterV::Erode { x_radius, y_radius },
        ImageFilter::Matrix { matrix, sampling } => ImageFilterV::Matrix { matrix, sampling },
        ImageFilter::Compose { outer, inner } => ImageFilterV::Compose {
            outer: Box::new(image_filter_view(*outer)),
            inner: Box::new(image_filter_view(*inner)),
        },
        ImageFilter::FragmentProgram { program, samplers, uniform_data } => {
            ImageFilterV::FragmentProgram {
                program: program@,
                samplers: samplers@,
                uniform_data: uniform_data@,
            }
        },
    }
}

impl View for ImageFilter {
    type V = ImageFilterV;

    open spec fn view(&self) -> ImageFilterV {
        image_filter_view(*self)
    }
}

impl Clone for ImageFilter {
    fn clone(&self) -> (r: Self)
        ensures
            r@ == self@,
        decreases *self,
    {
        match self {
            ImageFilter::Blur { x_sigma, y_sigma, tile_mode } => ImageFilter::Blur {
                x_sigma: *x_sigma,
                y_sigma: *y_sigma,
                tile_mode: *tile_mode,
            },
            ImageFilter::Dilate { x_radius, y_radius } => ImageFilter::Dilate {
                x_radius: *x_radius,
                y_radius: *y_radius,
            },
            ImageFilter::Erode { x_radius, y_radius } => ImageFilter::Erode {
                x_radius: *x_radius,
                y_radius: *y_radius,
            },
            ImageFilter::Matrix { matrix, sampling } => ImageFilter::Matrix {
                matrix: *matrix,
                sampling: *sampling,
            },
            ImageFilter::Compose { outer, inner } => ImageFilter::Compose {
                outer: Box::new((&**outer).clone()),
                inner: Box::new((&**inner).clone()),
            },
            ImageFilter::FragmentProgram { program, samplers, uniform_data } => {
                ImageFilter::FragmentProgram {
                    program: program.clone(),
                    samplers: clone_copied(samplers),
                    uniform_data: clone_copied(uniform_data),
                }
            },
        }
    }
}

impl ImageFilter {
    /// An image filter applying a Gaussian blur.
    pub fn new_blur(x_sigma: Scalar, y_sigma: Scalar, tile_mode: TileMode) -> (r: Self)
        ensures
            r@ == (ImageFilterV::Blur { x_sigma, y_sigma, tile_mode }),
    {
        ImageFilter::Blur { x_sigma, y_sigma, tile_mode }
    }

    /// An image filter raising each channel to the maximum in a circle
    /// around the pixel.
    pub fn new_dilate(x_radius: Scalar, y_radius: Scalar) -> (r: Self)
        ensures
            r@ == (ImageFilterV::Dilate { x_radius, y_radius }),
    {
        ImageFilter::Dilate { x_radius, y_radius }
    }

    /// An image filter lowering each channel to the minimum in a circle
    /// around the pixel.
    pub fn new_erode(x_radius: Scalar, y_radius: Scalar) -> (r: Self)
        ensures
            r@ == (ImageFilterV::Erode { x_radius, y_radius }),
    {
        ImageFilter::Erode { x_radius, y_radius }
    }

    /// An image filter applying a transformation matrix to the image.
    pub fn new_matrix(matrix: &Matrix, sampling: TextureSampling) -> (r: Self)
        ensures
            r@ == (ImageFilterV::Matrix { matrix: *matrix, sampling }),
    {
        ImageFilter::Matrix { matrix: *matrix, sampling }
    }

    /// The composition of two image filters: the outer filter applied to
    /// the inner filter's output.
    pub fn new_compose(outer: &Self, inner: &Self) -> (r: Self)
        ensures
            r@ == (ImageFilterV::Compose {
                outer: Box::new(outer@),
                inner: Box::new(inner@),
            }),
    {
        ImageFilter::Compose { outer: Box::new(outer.clone()), inner: Box::new(inner.clone()) }
    }
}

/// The mathematical value of a [`ColorSource`].
pub ghost enum ColorSourceV {
    LinearGradient {
        start: Point,
        end: Point,
        colors: Seq<Color>,
        stops: Seq<Scalar>,
        tile_mode: TileMode,
        transformation: Option<Matrix>,
    },
    RadialGradient {
        center: Point,
        radius: Scalar,
        colors: Seq<Color>,
        stops: Seq<Scalar>,
        tile_mode: TileMode,
        transformation: Option<Matrix>,
    },
    ConicalGradient {
        start_center: Point,
        start_radius: Scalar,
        end_center: Point,
        end_radius: Scalar,
        colors: Seq<Color>,
        stops: Seq<Scalar>,
        tile_mode: TileMode,
        transformation: Option<Matrix>,
    },
    SweepGradient {
        center: Point,
        start: Scalar,
        end: Scalar,
        colors: Seq<Color>,
        stops: Seq<Scalar>,
        tile_mode: TileMode,
        transformation: Option<Matrix>,
    },
    Image {
        texture: Texture,
        horizontal_tile_mode: TileMode,
        vertical_tile_mode: TileMode,
        sampling: TextureSampling,
        transformation: Option<Matrix>,
    },
    FragmentProgram { program: Seq<u8>, samplers: Seq<Texture>, uniform_data: Seq<u8> },
}

/// A function generating a color for each texture element a draw call
/// covers: a gradient, a sampled image, or a fragment program.
#[derive(Debug)]
pub enum ColorSource {
    LinearGradient {
        start: Point,
        end: Point,
        colors: Vec<Color>,
        stops: Vec<Scalar>,
        tile_mode: TileMode,
        transformation: Option<Matrix>,
    },
    RadialGradient {
        center: Point,
        radius: Scalar,
        colors: Vec<Color>,
        stops: Vec<Scalar>,
        tile_mode: TileMode,
        transformation: Option<Matrix>,
    },
    ConicalGradient {
        start_center: Point,
        start_radius: Scalar,
        end_center: Point,
        end_radius: Scalar,
        colors: Vec<Color>,
        stops: Vec<Scalar>,
        tile_mode: TileMode,
        transformation: Option<Matrix>,
    },
    SweepGradient {
        center: Point,
        start: Scalar,
        end: Scalar,
        colors: Vec<Color>,
        stops: Vec<Scalar>,
        tile_mode: TileMode,
        transformation: Option<Matrix>,
    },
    Image {
        texture: Texture,
        horizontal_tile_mode: TileMode,
        vertical_tile_mode: TileMode,
        sampling: TextureSampling,
        transformation: Option<Matrix>,
    },
    FragmentProgram { program: FragmentProgram, samplers: Vec<Texture>, uniform_data: Vec<u8> },
}

/// The value a [`ColorSource`] describes.
pub open spec fn color_source_view(c: ColorSource) -> ColorSourceV {
    match c {
        ColorSource::LinearGradient { start, end, colors, stops, tile_mode, transformation } => {
            ColorSourceV::LinearGradient {
                start,
                end,
                colors: colors@,
                stops: stops@,
                tile_mode,
                transformation,
            }
        },
        ColorSource::RadialGradient { center, radius, colors, stops, tile_mode, transformation } => {
            ColorSourceV::RadialGradient {
                center,
                radius,
                colors: colors@,
                stops: stops@,
                tile_mode,
                transformation,
            }
        },
        ColorSource::ConicalGradient {
            start_center,
            start_radius,
            end_center,
            end_radius,
            colors,
            stops,
            tile_mode,
            transformation,
        } => ColorSourceV::ConicalGradient {
            start_center,
            start_radius,
            end_center,
            end_radius,
            colors: colors@,
            stops: stops@,
            tile_mode,
            transformation,
        },
        ColorSource::SweepGradient { center, start, end, colors, stops, tile_mode, transformation } => {
            ColorSourceV::SweepGradient {
                center,
                start,
                end,
                colors: colors@,
                stops: stops@,
                tile_mode,
                transformation,
            }
        },
        ColorSource::Image {
            texture,
            horizontal_tile_mode,
            vertical_tile_mode,
            sampling,
            transformation,
        } => ColorSourceV::Image {
            texture,
            horizontal_tile_mode,
            vertical_tile_mode,
            sampling,
            transformation,
        },
        ColorSource::FragmentProgram { program, samplers, uniform_data } => {
            ColorSourceV::FragmentProgram {
                program: program@,
                samplers: samplers@,
                uniform_data: uniform_data@,
            }
        },
    }
}

impl View for ColorSource {
    type V = ColorSourceV;

    open spec fn view(&self) -> ColorSourceV {
        color_source_view(*self)
    }
}

impl Clone for ColorSource {
    fn clone(&self) -> (r: Self)
        ensures
            r@ == self@,
    {
        match self {
            ColorSource::LinearGradient { start, end, colors, stops, tile_mode, transformation } => {
                ColorSource::LinearGradient {
                    start: *start,
                    end: *end,
                    colors: clone_copied(colors),
                    stops: clone_copied(stops),
                    tile_mode: *tile_mode,
                    transformation: *transformation,
                }
            },
            ColorSource::RadialGradient {
                center,
                radius,
                colors,
                stops,
                tile_mode,
                transformation,
            } => ColorSource::RadialGradient {
                center: *center,
                radius: *radius,
                colors: clone_copied(colors),
                stops: clone_copied(stops),
                tile_mode: *tile_mode,
                transformation: *transformation,
            },
            ColorSource::ConicalGradient {
                start_center,
                start_radius,
                end_center,
                end_radius,
                colors,
                stops,
                tile_mode,
                transformation,
            } => ColorSource::ConicalGradient {
                start_center: *start_center,
                start_radius: *start_radius,
                end_center: *end_center,
                end_radius: *end_radius,
                colors: clone_copied(colors),
                stops: clone_copied(stops),
                tile_mode: *tile_mode,
                transformation: *transformation,
            },
            ColorSource::SweepGradient { center, start, end, colors, stops, tile_mode, transformation } => {
                ColorSource::SweepGradient {
                    center: *center,
                    start: *start,
                    end: *end,
                    colors: clone_copied(colors),
                    stops: clone_copied(stops),
                    tile_mode: *tile_mode,
                    transformation: *transformation,
                }
            },
            ColorSource::Image {
                texture,
                horizontal_tile_mode,
                vertical_tile_mode,
                sampling,
                transformation,
            } => ColorSource::Image {
                texture: *texture,
                horizontal_tile_mode: *horizontal_tile_mode,
                vertical_tile_mode: *vertical_tile_mode,
                sampling: *sampling,
                transformation: *transformation,
            },
            ColorSource::FragmentProgram { program, samplers, uniform_data } => {
                ColorSource::FragmentProgram {
                    program: program.clone(),
                    samplers: clone_copied(samplers),
                    uniform_data: clone_copied(uniform_data),
                }
            },
        }
    }
}

impl ColorSource {
    /// A linear gradient between two points.  The engine requires one stop
    /// per color and at least one of each.
    pub fn new_linear_gradient(
        start: Point,
        end: Point,
        colors: &Vec<Color>,
        stops: &Vec<Scalar>,
        tile_mode: TileMode,
        transformation: Option<&Matrix>,
    ) -> (r: Self)
        requires
            colors@.len() == stops@.len(),
            colors@.len() > 0,
        ensures
            r@ == (ColorSourceV::LinearGradient {
                start,
                end,
                colors: colors@,
                stops: stops@,
                tile_mode,
                transformation: copied_matrix(transformation),
            }),
    {
        ColorSource::LinearGradient {
            start,
            end,
            colors: clone_copied(colors),
            stops: clone_copied(stops),
            tile_mode,
            transformation: copy_matrix(transformation),
        }
    }

    /// A radial gradient around a center.  The engine requires one stop per
    /// color and at least one of each.
    pub fn new_radial_gradient(
        center: Point,
        radius: Scalar,
        colors: &Vec<Color>,
        stops: &Vec<Scalar>,
        tile_mode: TileMode,
        transformation: Option<&Matrix>,
    ) -> (r: Self)
        requires
            colors@.len() == stops@.len(),
            colors@.len() > 0,
        ensures
            r@ == (ColorSourceV::RadialGradient {
                center,
                radius,
                colors: colors@,
                stops: stops@,
                tile_mode,
                transformation: copied_matrix(transformation),
            }),
    {
        ColorSource::RadialGradient {
            center,
            radius,
            colors: clone_copied(colors),
            stops: clone_copied(stops),
            tile_mode,
            transformation: copy_matrix(transformation),
        }
    }

    /// A two-point conical gradient.  The engine requires one stop per
    /// color and at least one of each.
    pub fn new_conical_gradient(
        start_center: Point,
        start_radius: Scalar,
        end_center: Point,
        end_radius: Scalar,
        colors: &Vec<Color>,
        stops: &Vec<Scalar>,
        tile_mode: TileMode,
        transformation: Option<&Matrix>,
    ) -> (r: Self)
        requires
            colors@.len() == stops@.len(),
            colors@.len() > 0,
        ensures
            r@ == (ColorSourceV::ConicalGradient {
                start_center,
                start_radius,
                end_center,
                end_radius,
                colors: colors@,
                stops: stops@,
                tile_mode,
                transformation: copied_matrix(transformation),
            }),
    {
        ColorSource::ConicalGradient {
            start_center,
            start_radius,
            end_center,
            end_radius,
            colors: clone_copied(colors),
            stops: clone_copied(stops),
            tile_mode,
            transformation: copy_matrix(transformation),
        }
    }

    /// A sweep gradient around a center between two angles.  The engine
    /// requires one stop per color and at least one of each.
    pub fn new_sweep_gradient(
        center: Point,
        start: Scalar,
        end: Scalar,
        colors: &Vec<Color>,
        stops: &Vec<Scalar>,
        tile_mode: TileMode,
        transformation: Option<&Matrix>,
    ) -> (r: Self)
        requires
            colors@.len() == stops@.len(),
            colors@.len() > 0,
        ensures
            r@ == (ColorSourceV::SweepGradient {
                center,
                start,
                end,
                colors: colors@,
                stops: stops@,
                tile_mode,
                transformation: copied_matrix(transformation),
            }),
    {
        ColorSource::SweepGradient {
            center,
            start,
            end,
            colors: clone_copied(colors),
            stops: clone_copied(stops),
            tile_mode,
            transformation: copy_matrix(transformation),
        }
    }

    /// A color source sampling from a texture.
    pub fn new_image(
        image: &Texture,
        horizontal_tile_mode: TileMode,
        vertical_tile_mode: TileMode,
        sampling: TextureSampling,
        transformation: Option<&Matrix>,
    ) -> (r: Self)
        ensures
            r@ == (ColorSourceV::Image {
                texture: *image,
                horizontal_tile_mode,
                vertical_tile_mode,
                sampling,
                transformation: copied_matrix(transformation),
            }),
    {
        ColorSource::Image {
            texture: *image,
            horizontal_tile_mode,
            vertical_tile_mode,
            sampling,
            transformation: copy_matrix(transformation),
        }
    }
}

/// The matrix behind an optional reference, as an optional value.
pub open spec fn copied_matrix(m: Option<&Matrix>) -> Option<Matrix> {
    match m {
        Some(matrix) => Some(*matrix),
        None => None,
    }
}

/// Copy an optional matrix reference into an owned optional matrix.
fn copy_matrix(m: Option<&Matrix>) -> (r: Option<Matrix>)
    ensures
        r == copied_matrix(m),
{
    match m {
        Some(matrix) => Some(*matrix),
        None => None,
    }
}

} // verus!
