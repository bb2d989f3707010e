use impellers::Backend;
use impellers::Context;
use impellers::Error;
use impellers::ImpellerVersion;
use impellers::PixelFormat;
use impellers::flutter_mip_count;

fn metal_context() -> Context {
    Context::new_metal(ImpellerVersion::get_header_version()).unwrap()
}

fn gl_context() -> Context {
    Context::new_opengl_es(ImpellerVersion::get_header_version()).unwrap()
}

#[test]
fn test_texture_creation_ok() {
    let ctx = metal_context();
    let pixels = vec![0u8; 2 * 2 * 4];
    let t = ctx.create_texture_with_rgba8(pixels, 2, 2).unwrap();
    assert_eq!(t.width, 2);
    assert_eq!(t.height, 2);
    assert_eq!(t.mip_count, 1);
    assert_eq!(t.pixel_format, PixelFormat::RGBA8888);
    assert_eq!(t.get_opengl_handle(), 0);
}

#[test]
fn test_texture_buffer_length_mismatch_fails() {
    let ctx = metal_context();
    for (w, h, len) in [(1u32, 1u32, 3usize), (2, 2, 15), (2, 2, 17), (16, 16, 0), (3, 5, 59)] {
        let r = ctx.create_texture_with_rgba8(vec![0u8; len], w, h);
        assert_eq!(r.unwrap_err(), Error::TextureBufferSizeMismatch);
    }
}

#[test]
fn test_texture_zero_dimension_fails() {
    let ctx = metal_context();
    for (w, h, len) in [(0u32, 4u32, 0usize), (4, 0, 64), (0, 0, 16), (0, 7, 28)] {
        let r = ctx.create_texture_with_rgba8(vec![0u8; len], w, h);
        assert_eq!(r.unwrap_err(), Error::ZeroTextureDimension);
    }
}

#[test]
fn test_mip_count_values() {
    assert_eq!(flutter_mip_count(1, 1), 1);
    assert_eq!(flutter_mip_count(2, 2), 1);
    assert_eq!(flutter_mip_count(3, 3), 1);
    assert_eq!(flutter_mip_count(4, 4), 1);
    assert_eq!(flutter_mip_count(5, 5), 2);
    assert_eq!(flutter_mip_count(256, 256), 7);
    assert_eq!(flutter_mip_count(256, 1), 7);
    assert_eq!(flutter_mip_count(1, 1024), 9);
    assert_eq!(flutter_mip_count(0, 0), 1);
}

#[test]
fn test_mip_count_monotone_and_positive() {
    let mut prev = 0u32;
    for dim in 1u32..2000 {
        let m = flutter_mip_count(dim, 1);
        assert!(m >= 1);
        assert!(m >= prev);
        prev = m;
    }
}

#[test]
fn test_adopt_opengl_texture() {
    let ctx = gl_context();
    assert_eq!(ctx.backend, Backend::OpenGLES);
    let t = ctx.adopt_opengl_texture(64, 32, 3, 77).unwrap();
    assert_eq!(t.width, 64);
    assert_eq!(t.height, 32);
    assert_eq!(t.mip_count, 3);
    assert_eq!(t.get_opengl_handle(), 77);
}
