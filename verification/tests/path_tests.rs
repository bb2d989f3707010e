use impellers::FillType;
use impellers::PathBuilder;
use impellers::PathVerb;
use impellers::Point;
use impellers::Scalar;

fn pt(x: u32, y: u32) -> Point {
    Point::new(Scalar::from_bits(x), Scalar::from_bits(y))
}

#[test]
fn test_copy_path_leaves_builder_intact() {
    let mut b = PathBuilder::default();
    b.move_to(pt(0, 0));
    b.line_to(pt(0x3f800000, 0));
    let first = b.copy_path_new(FillType::NonZero);
    assert_eq!(first.verb_count(), 2);
    assert_eq!(first.fill_type, FillType::NonZero);

    b.line_to(pt(0x3f800000, 0x3f800000));
    b.close();
    let second = b.copy_path_new(FillType::Odd);
    assert_eq!(second.verb_count(), 4);
    assert_eq!(second.fill_type, FillType::Odd);
    // the first path's verbs are a prefix of the second's
    assert_eq!(&second.verbs[..2], &first.verbs[..]);
}

#[test]
fn test_take_path_empties_builder() {
    let mut b = PathBuilder::default();
    b.move_to(pt(1, 2));
    b.quadratic_curve_to(pt(3, 4), pt(5, 6));
    b.cubic_curve_to(pt(7, 8), pt(9, 10), pt(11, 12));
    let taken = b.take_path_new(FillType::NonZero);
    assert_eq!(taken.verb_count(), 3);
    let after = b.copy_path_new(FillType::NonZero);
    assert_eq!(after.verb_count(), 0);
    let taken_again = b.take_path_new(FillType::NonZero);
    assert_eq!(taken_again.verb_count(), 0);
}

#[test]
fn test_verbs_record_exactly() {
    let mut b = PathBuilder::default();
    b.move_to(pt(10, 20));
    b.line_to(pt(30, 40));
    b.close();
    let p = b.take_path_new(FillType::Odd);
    assert_eq!(
        p.verbs,
        vec![
            PathVerb::MoveTo { location: pt(10, 20) },
            PathVerb::LineTo { location: pt(30, 40) },
            PathVerb::Close,
        ]
    );
}
