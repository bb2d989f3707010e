use impellers::Color;
use impellers::Command;
use impellers::DisplayListBuilder;
use impellers::DrawStyle;
use impellers::Paint;
use impellers::Rect;
use impellers::Scalar;

fn opaque(bits_r: u32, bits_g: u32, bits_b: u32) -> Color {
    Color::new_srgb(Scalar::from_bits(bits_r), Scalar::from_bits(bits_g), Scalar::from_bits(bits_b))
}

fn unit_rect() -> Rect {
    Rect::new(
        Scalar::from_bits(0),
        Scalar::from_bits(0),
        Scalar::from_bits(0x3f800000),
        Scalar::from_bits(0x3f800000),
    )
}

#[test]
fn test_save_count_after_saves_and_restores() {
    let mut b = DisplayListBuilder::new(None);
    let initial = b.get_save_count();
    assert_eq!(initial, 1);
    let n = 5;
    for _ in 0..n {
        b.save();
    }
    assert_eq!(b.get_save_count(), initial + n);
    let m = 3;
    for _ in 0..m {
        b.restore();
    }
    assert_eq!(b.get_save_count(), initial + n - m);
}

#[test]
fn test_restore_at_root_is_noop() {
    let mut b = DisplayListBuilder::new(None);
    b.restore();
    b.restore();
    assert_eq!(b.get_save_count(), 1);
    let d = b.build();
    assert_eq!(d.command_count(), 0);
}

#[test]
fn test_restore_to_count_below_current() {
    let mut b = DisplayListBuilder::new(None);
    for _ in 0..6 {
        b.save();
    }
    assert_eq!(b.get_save_count(), 7);
    b.restore_to_count(3);
    assert_eq!(b.get_save_count(), 3);
}

#[test]
fn test_restore_to_count_above_current_is_noop() {
    let mut b = DisplayListBuilder::new(None);
    b.save();
    b.save();
    assert_eq!(b.get_save_count(), 3);
    b.restore_to_count(10);
    assert_eq!(b.get_save_count(), 3);
    let d = b.build();
    assert_eq!(d.command_count(), 2);
}

#[test]
fn test_restore_to_count_zero_stops_at_root() {
    let mut b = DisplayListBuilder::new(None);
    b.save();
    b.save();
    b.restore_to_count(0);
    assert_eq!(b.get_save_count(), 1);
}

#[test]
fn test_paint_value_capture() {
    let mut b = DisplayListBuilder::new(None);
    let mut paint = Paint::default();
    let black = opaque(0, 0, 0);
    let red = opaque(0x3f800000, 0, 0);
    paint.set_color(black);
    let r = unit_rect();
    b.draw_rect(&r, &paint);
    paint.set_color(red);
    b.draw_rect(&r, &paint);
    let d = b.build();
    assert_eq!(d.command_count(), 2);
    match &d.commands[0] {
        Command::DrawRect { paint, .. } => assert_eq!(paint.color, black),
        _ => panic!("first command is not a rectangle draw"),
    }
    match &d.commands[1] {
        Command::DrawRect { paint, .. } => assert_eq!(paint.color, red),
        _ => panic!("second command is not a rectangle draw"),
    }
}

#[test]
fn test_build_drains_builder() {
    let mut b = DisplayListBuilder::new(None);
    let paint = Paint::default();
    b.draw_paint(&paint);
    b.save();
    let first = b.build();
    assert_eq!(first.command_count(), 2);
    assert_eq!(b.get_save_count(), 1);
    let second = b.build();
    assert_eq!(second.command_count(), 0);
}

#[test]
fn test_transform_and_clip_commands_record_in_order() {
    let mut b = DisplayListBuilder::new(None);
    b.scale(Scalar::from_bits(0x40000000), Scalar::from_bits(0x40000000));
    b.translate(Scalar::from_bits(0x41200000), Scalar::from_bits(0));
    b.rotate(Scalar::from_bits(0x42b40000));
    b.clip_rect(&unit_rect(), impellers::ClipOperation::Intersect);
    b.reset_transform();
    let d = b.build();
    assert_eq!(d.command_count(), 5);
    assert!(matches!(d.commands[0], Command::Scale { .. }));
    assert!(matches!(d.commands[1], Command::Translate { .. }));
    assert!(matches!(d.commands[2], Command::Rotate { .. }));
    assert!(matches!(d.commands[3], Command::ClipRect { .. }));
    assert!(matches!(d.commands[4], Command::ResetTransform));
}

#[test]
fn test_draw_display_list_captures_commands() {
    let mut inner = DisplayListBuilder::new(None);
    inner.draw_paint(&Paint::default());
    let inner_list = inner.build();
    let mut outer = DisplayListBuilder::new(None);
    outer.draw_display_list(&inner_list, Scalar::from_bits(0x3f000000));
    let d = outer.build();
    assert_eq!(d.command_count(), 1);
    match &d.commands[0] {
        Command::DrawDisplayList { list, opacity } => {
            assert_eq!(list.command_count(), 1);
            assert_eq!(opacity.bits, 0x3f000000);
        },
        _ => panic!("expected a nested display list"),
    }
}

#[test]
fn test_end_to_end_replay_on_two_surfaces() {
    let cull = unit_rect();
    let mut b = DisplayListBuilder::new(Some(&cull));
    let mut fill = Paint::default();
    fill.set_color(opaque(0, 0, 0));
    fill.set_draw_style(DrawStyle::Fill);
    b.draw_rect(&cull, &fill);
    let mut stroke = Paint::default();
    stroke.set_draw_style(DrawStyle::Stroke);
    stroke.set_stroke_width(Scalar::from_bits(0x40000000));
    b.draw_rect(&cull, &stroke);
    let d = b.build();

    let mut s1 = impellers::Surface { contents: None };
    let mut s2 = impellers::Surface { contents: None };
    s1.draw_display_list(&d).unwrap();
    s2.draw_display_list(&d).unwrap();

    let c1 = s1.contents.as_ref().unwrap();
    let c2 = s2.contents.as_ref().unwrap();
    assert_eq!(c1.command_count(), 2);
    assert_eq!(c2.command_count(), 2);
    for k in 0..2 {
        match (&c1.commands[k], &c2.commands[k]) {
            (
                Command::DrawRect { rect: r1, paint: p1 },
                Command::DrawRect { rect: r2, paint: p2 },
            ) => {
                assert_eq!(r1, r2);
                assert_eq!(p1.color, p2.color);
                assert_eq!(p1.draw_style, p2.draw_style);
                assert_eq!(p1.stroke_width, p2.stroke_width);
            },
            _ => panic!("replayed command differs"),
        }
    }
    assert!(s1.present().is_ok());
    assert!(s2.present().is_ok());
}
