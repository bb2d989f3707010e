use impellers::Error;
use impellers::TypographyContext;

#[test]
fn test_register_font_without_alias() {
    let mut fonts = TypographyContext::default();
    assert_eq!(fonts.font_count(), 0);
    fonts.register_font(vec![0, 1, 0, 0], None).unwrap();
    assert_eq!(fonts.font_count(), 1);
    assert!(fonts.fonts[0].family_name_alias.is_none());
}

#[test]
fn test_register_font_with_alias() {
    let mut fonts = TypographyContext::default();
    fonts.register_font(vec![7, 7], Some("My Font")).unwrap();
    assert_eq!(fonts.font_count(), 1);
    assert_eq!(fonts.fonts[0].family_name_alias.as_deref(), Some("My Font"));
    assert_eq!(fonts.fonts[0].data, vec![7, 7]);
}

#[test]
fn test_register_font_rejects_embedded_nul() {
    let mut fonts = TypographyContext::default();
    let r = fonts.register_font(vec![1], Some("bad\u{0}alias"));
    assert_eq!(r.unwrap_err(), Error::EmbeddedNul);
    assert_eq!(fonts.font_count(), 0);
}

#[test]
fn test_typography_context_clone_keeps_registry() {
    let mut fonts = TypographyContext::default();
    fonts.register_font(vec![1, 2, 3], Some("A")).unwrap();
    fonts.register_font(vec![4], None).unwrap();
    let copy = fonts.clone();
    assert_eq!(copy.font_count(), 2);
    assert_eq!(copy.fonts[0].data, vec![1, 2, 3]);
    assert_eq!(copy.fonts[0].family_name_alias.as_deref(), Some("A"));
    assert!(copy.fonts[1].family_name_alias.is_none());
}
