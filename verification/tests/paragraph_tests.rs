use impellers::FontWeight;
use impellers::LineMetrics;
use impellers::Paragraph;
use impellers::ParagraphBuilder;
use impellers::ParagraphStyle;
use impellers::Scalar;
use impellers::TypographyContext;

fn build_paragraph(text: &str) -> Paragraph {
    let fonts = TypographyContext::default();
    let mut builder = ParagraphBuilder::new(&fonts);
    builder.add_text(text);
    builder.build(Scalar::from_bits(0x42c80000))
}

fn line_tuple(m: &LineMetrics, line: usize) -> (usize, usize, usize, usize, bool) {
    (
        m.get_code_unit_start_index_utf16(line),
        m.get_code_unit_end_index_utf16(line),
        m.get_code_unit_end_index_excluding_whitespace_utf16(line),
        m.get_code_unit_end_index_including_newline_utf16(line),
        m.is_hardbreak(line),
    )
}

#[test]
fn test_style_stack_tags_runs() {
    let fonts = TypographyContext::default();
    let mut builder = ParagraphBuilder::new(&fonts);
    let mut style = ParagraphStyle::default();
    style.set_font_weight(FontWeight::W700);
    builder.push_style(&style);
    builder.add_text("bold");
    builder.pop_style();
    builder.add_text("plain");
    assert_eq!(builder.runs.len(), 2);
    assert_eq!(builder.runs[0].style.font_weight, Some(FontWeight::W700));
    assert_eq!(builder.runs[1].style.font_weight, None);
    assert_eq!(builder.runs[0].text, "bold");
    assert_eq!(builder.runs[1].text, "plain");
}

#[test]
fn test_pop_on_empty_style_stack_is_noop() {
    let fonts = TypographyContext::default();
    let mut builder = ParagraphBuilder::new(&fonts);
    builder.pop_style();
    assert_eq!(builder.style_stack.len(), 0);
}

#[test]
fn test_build_concatenates_runs() {
    let fonts = TypographyContext::default();
    let mut builder = ParagraphBuilder::new(&fonts);
    builder.add_text("Hello, ");
    builder.add_text("world!");
    let p = builder.build(Scalar::from_bits(0x42c80000));
    assert_eq!(p.text, "Hello, world!");
    assert_eq!(p.get_max_width().bits, 0x42c80000);
}

#[test]
fn test_line_count() {
    assert_eq!(build_paragraph("").get_line_count(), 1);
    assert_eq!(build_paragraph("abc").get_line_count(), 1);
    assert_eq!(build_paragraph("a\nb").get_line_count(), 2);
    assert_eq!(build_paragraph("a\nb\n").get_line_count(), 3);
    assert_eq!(build_paragraph("\n\n").get_line_count(), 3);
}

#[test]
fn test_line_metrics_values() {
    let mut p = build_paragraph("Hello\nWorld");
    let m = p.get_line_metrics();
    assert_eq!(m.line_count(), 2);
    assert_eq!(line_tuple(&m, 0), (0, 5, 5, 6, true));
    assert_eq!(line_tuple(&m, 1), (6, 11, 11, 11, true));
}

#[test]
fn test_line_metrics_trailing_whitespace() {
    let mut p = build_paragraph("ab \t\ncd");
    let m = p.get_line_metrics();
    assert_eq!(m.line_count(), 2);
    assert_eq!(line_tuple(&m, 0), (0, 4, 2, 5, true));
    assert_eq!(line_tuple(&m, 1), (5, 7, 7, 7, true));
}

#[test]
fn test_line_metrics_cached_calls_agree() {
    let mut p = build_paragraph("one\ntwo\nthree");
    let first = p.get_line_metrics();
    let second = p.get_line_metrics();
    assert_eq!(first.line_count(), second.line_count());
    for line in 0..first.line_count() {
        assert_eq!(line_tuple(&first, line), (line_tuple(&second, line)));
    }
}

#[test]
fn test_line_metrics_utf16_surrogate_pairs() {
    // The first character needs two UTF-16 code units.
    let mut p = build_paragraph("\u{1d11e}a\nb");
    let m = p.get_line_metrics();
    assert_eq!(m.line_count(), 2);
    assert_eq!(line_tuple(&m, 0), (0, 3, 3, 4, true));
    assert_eq!(line_tuple(&m, 1), (4, 5, 5, 5, true));
}

#[test]
fn test_glyph_info_ranges() {
    let p = build_paragraph("a\u{1d11e}b");
    let g0 = p.create_glyph_info_at_code_unit_index_utf16(0).unwrap();
    assert_eq!(g0.get_grapheme_cluster_code_unit_range_begin_utf16(), 0);
    assert_eq!(g0.get_grapheme_cluster_code_unit_range_end_utf16(), 1);
    for idx in 1..3 {
        let g = p.create_glyph_info_at_code_unit_index_utf16(idx).unwrap();
        assert_eq!(g.get_grapheme_cluster_code_unit_range_begin_utf16(), 1);
        assert_eq!(g.get_grapheme_cluster_code_unit_range_end_utf16(), 3);
    }
    let g3 = p.create_glyph_info_at_code_unit_index_utf16(3).unwrap();
    assert_eq!(g3.get_grapheme_cluster_code_unit_range_begin_utf16(), 3);
    assert_eq!(g3.get_grapheme_cluster_code_unit_range_end_utf16(), 4);
    assert!(p.create_glyph_info_at_code_unit_index_utf16(4).is_none());
}

#[test]
fn test_default_style_applies_without_push() {
    let fonts = TypographyContext::default();
    let mut builder = ParagraphBuilder::new(&fonts);
    builder.add_text("plain");
    assert_eq!(builder.runs.len(), 1);
    let style = &builder.runs[0].style;
    assert!(style.font_weight.is_none());
    assert!(style.font_size.is_none());
    assert!(style.font_family.is_none());
    assert!(style.foreground.is_none());
}
