use impellers::Backend;
use impellers::Context;
use impellers::DisplayListBuilder;
use impellers::Error;
use impellers::ISize;
use impellers::ImpellerVersion;
use impellers::Paint;
use impellers::PixelFormat;

#[test]
fn test_context_construction_checks_version() {
    let good = ImpellerVersion::get_header_version();
    assert_eq!(Context::new_metal(good).unwrap().backend, Backend::Metal);
    assert_eq!(Context::new_opengl_es(good).unwrap().backend, Backend::OpenGLES);
    assert_eq!(Context::new_vulkan(true, good).unwrap().backend, Backend::Vulkan);

    let bad = ImpellerVersion::new(2, 9, 9, 9);
    assert_eq!(Context::new_metal(bad).unwrap_err(), Error::VersionMismatch);
    assert_eq!(Context::new_opengl_es(bad).unwrap_err(), Error::VersionMismatch);
    assert_eq!(Context::new_vulkan(false, bad).unwrap_err(), Error::VersionMismatch);
}

#[test]
fn test_context_clone_keeps_backend() {
    let ctx = Context::new_vulkan(false, ImpellerVersion::get_header_version()).unwrap();
    let copy = ctx.clone();
    assert_eq!(copy.backend, Backend::Vulkan);
}

#[test]
fn test_wrap_fbo_yields_fresh_surface() {
    let mut ctx = Context::new_opengl_es(ImpellerVersion::get_header_version()).unwrap();
    let surface = ctx.wrap_fbo(0, PixelFormat::RGBA8888, ISize::new(640, 480)).unwrap();
    assert!(surface.contents.is_none());
}

#[test]
fn test_vulkan_swapchain_hands_out_fresh_surfaces() {
    let ctx = Context::new_vulkan(false, ImpellerVersion::get_header_version()).unwrap();
    let mut chain = ctx.create_new_vulkan_swapchain(42).unwrap();
    assert_eq!(chain.surface_handle, 42);
    let s1 = chain.acquire_next_surface_new().unwrap();
    let s2 = chain.acquire_next_surface_new().unwrap();
    assert!(s1.contents.is_none());
    assert!(s2.contents.is_none());
}

#[test]
fn test_wrap_metal_drawable() {
    let ctx = Context::new_metal(ImpellerVersion::get_header_version()).unwrap();
    let surface = ctx.wrap_metal_drawable(7).unwrap();
    assert!(surface.contents.is_none());
}

#[test]
fn test_surface_draw_replaces_contents() {
    let mut ctx = Context::new_opengl_es(ImpellerVersion::get_header_version()).unwrap();
    let mut surface = ctx.wrap_fbo(0, PixelFormat::RGBA8888, ISize::new(8, 8)).unwrap();

    let mut b = DisplayListBuilder::new(None);
    b.draw_paint(&Paint::default());
    let one = b.build();
    b.draw_paint(&Paint::default());
    b.draw_paint(&Paint::default());
    let two = b.build();

    surface.draw_display_list(&one).unwrap();
    assert_eq!(surface.contents.as_ref().unwrap().command_count(), 1);
    surface.draw_display_list(&two).unwrap();
    assert_eq!(surface.contents.as_ref().unwrap().command_count(), 2);
    assert!(surface.present().is_ok());
}

#[test]
fn test_fragment_program_objects_capture_inputs() {
    let ctx = Context::new_metal(ImpellerVersion::get_header_version()).unwrap();
    let program = impellers::FragmentProgram::new(vec![1, 2, 3]);
    let samplers: Vec<impellers::Texture> = Vec::new();
    let uniforms = vec![9u8, 8, 7];
    let source = ctx.new_color_source_from_fragment_program(&program, &samplers, &uniforms);
    match source {
        impellers::ColorSource::FragmentProgram { program, samplers, uniform_data } => {
            assert_eq!(program.data, vec![1, 2, 3]);
            assert!(samplers.is_empty());
            assert_eq!(uniform_data, vec![9, 8, 7]);
        },
        _ => panic!("expected a fragment-program color source"),
    }
    let filter = ctx.new_image_filter_from_fragment_program(&program, &samplers, &uniforms);
    match filter {
        impellers::ImageFilter::FragmentProgram { uniform_data, .. } => {
            assert_eq!(uniform_data, vec![9, 8, 7]);
        },
        _ => panic!("expected a fragment-program image filter"),
    }
}
