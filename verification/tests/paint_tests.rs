use impellers::BlendMode;
use impellers::BlurStyle;
use impellers::Color;
use impellers::ColorFilter;
use impellers::ColorSource;
use impellers::DrawStyle;
use impellers::ImageFilter;
use impellers::MaskFilter;
use impellers::Paint;
use impellers::Point;
use impellers::SCALAR_FOUR_BITS;
use impellers::SCALAR_ONE_BITS;
use impellers::Scalar;
use impellers::StrokeCap;
use impellers::StrokeJoin;
use impellers::TileMode;

fn sc(bits: u32) -> Scalar {
    Scalar::from_bits(bits)
}

#[test]
fn test_default_paint_configuration() {
    let p = Paint::default();
    assert_eq!(p.color.red.bits, 0);
    assert_eq!(p.color.green.bits, 0);
    assert_eq!(p.color.blue.bits, 0);
    assert_eq!(p.color.alpha.bits, SCALAR_ONE_BITS);
    assert_eq!(p.blend_mode, BlendMode::SourceOver);
    assert_eq!(p.draw_style, DrawStyle::Fill);
    assert_eq!(p.stroke_cap, StrokeCap::Butt);
    assert_eq!(p.stroke_join, StrokeJoin::Miter);
    assert_eq!(p.stroke_width.bits, 0);
    assert_eq!(p.stroke_miter.bits, SCALAR_FOUR_BITS);
    assert!(p.color_filter.is_none());
    assert!(p.image_filter.is_none());
    assert!(p.color_source.is_none());
    assert!(p.mask_filter.is_none());
}

#[test]
fn test_paint_setters() {
    let mut p = Paint::default();
    p.set_blend_mode(BlendMode::Multiply);
    p.set_draw_style(DrawStyle::StrokeAndFill);
    p.set_stroke_cap(StrokeCap::Round);
    p.set_stroke_join(StrokeJoin::Bevel);
    p.set_stroke_width(sc(0x40400000));
    p.set_stroke_miter(sc(0x40a00000));
    assert_eq!(p.blend_mode, BlendMode::Multiply);
    assert_eq!(p.draw_style, DrawStyle::StrokeAndFill);
    assert_eq!(p.stroke_cap, StrokeCap::Round);
    assert_eq!(p.stroke_join, StrokeJoin::Bevel);
    assert_eq!(p.stroke_width.bits, 0x40400000);
    assert_eq!(p.stroke_miter.bits, 0x40a00000);
}

#[test]
fn test_color_with_alpha() {
    let c = Color::new_srgb(sc(1), sc(2), sc(3));
    assert_eq!(c.alpha.bits, SCALAR_ONE_BITS);
    let faded = c.with_alpha(sc(0x3f000000));
    assert_eq!(faded.red.bits, 1);
    assert_eq!(faded.alpha.bits, 0x3f000000);
}

#[test]
fn test_paint_filters_attach() {
    let mut p = Paint::default();
    let cf = ColorFilter::new_blend(Color::new_srgb(sc(0), sc(0), sc(0)), BlendMode::Screen);
    p.set_color_filter(&cf);
    match p.color_filter.unwrap() {
        ColorFilter::Blend { blend_mode, .. } => assert_eq!(blend_mode, BlendMode::Screen),
        _ => panic!("expected a blend color filter"),
    }

    let blur = ImageFilter::new_blur(sc(5), sc(6), TileMode::Clamp);
    p.set_image_filter(&blur);
    match p.image_filter.as_ref().unwrap() {
        ImageFilter::Blur { x_sigma, y_sigma, tile_mode } => {
            assert_eq!(x_sigma.bits, 5);
            assert_eq!(y_sigma.bits, 6);
            assert_eq!(*tile_mode, TileMode::Clamp);
        },
        _ => panic!("expected a blur image filter"),
    }

    let mf = MaskFilter::new_blur(BlurStyle::Outer, sc(9));
    p.set_mask_filter(&mf);
    match p.mask_filter.unwrap() {
        MaskFilter::Blur { style, sigma } => {
            assert_eq!(style, BlurStyle::Outer);
            assert_eq!(sigma.bits, 9);
        },
    }
}

#[test]
fn test_linear_gradient_captures_stops() {
    let colors = vec![
        Color::new_srgb(sc(0), sc(0), sc(0)),
        Color::new_srgb(sc(SCALAR_ONE_BITS), sc(0), sc(0)),
    ];
    let stops = vec![sc(0), sc(SCALAR_ONE_BITS)];
    let start = Point::new(sc(0), sc(0));
    let end = Point::new(sc(SCALAR_ONE_BITS), sc(0));
    let g = ColorSource::new_linear_gradient(start, end, &colors, &stops, TileMode::Mirror, None);
    match g {
        ColorSource::LinearGradient { colors: c, stops: s, tile_mode, transformation, .. } => {
            assert_eq!(c.len(), 2);
            assert_eq!(s.len(), 2);
            assert_eq!(c[1].red.bits, SCALAR_ONE_BITS);
            assert_eq!(tile_mode, TileMode::Mirror);
            assert!(transformation.is_none());
        },
        _ => panic!("expected a linear gradient"),
    }
}

#[test]
fn test_compose_image_filter() {
    let outer = ImageFilter::new_dilate(sc(1), sc(2));
    let inner = ImageFilter::new_erode(sc(3), sc(4));
    let composed = ImageFilter::new_compose(&outer, &inner);
    match composed {
        ImageFilter::Compose { outer, inner } => {
            assert!(matches!(*outer, ImageFilter::Dilate { .. }));
            assert!(matches!(*inner, ImageFilter::Erode { .. }));
        },
        _ => panic!("expected a composed filter"),
    }
}
