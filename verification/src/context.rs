//! The graphics context: one per backend, the factory for textures,
//! surfaces, swapchains and fragment-program objects.
//!
//! Construction checks the version the engine reports against the version
//! this layer was built against; a mismatch is a hard construction
//! failure.  Operations tied to one backend demand a context of that
//! backend.

use vstd::prelude::*;

use crate::enums::PixelFormat;
use crate::error::Error;
use crate::filters::ColorSource;
use crate::filters::ColorSourceV;
use crate::filters::FragmentProgram;
use crate::filters::ImageFilter;
use crate::filters::ImageFilterV;
use crate::filters::clone_copied;
use crate::geometry::ISize;
use crate::surface::Surface;
use crate::surface::VkSwapChain;
use crate::texture::Texture;
use crate::texture::flutter_mip_count;
use crate::texture::spec_mip_count;
use crate::version::ImpellerVersion;
use crate::version::spec_pack;
use crate::version::VERSION_MAJOR;
use crate::version::VERSION_MINOR;
use crate::version::VERSION_PATCH;
use crate::version::VERSION_VARIANT;

verus! {

/// The rendering backend a context drives.
#[derive(Clone, Copy, Debug, PartialEq, Eq, Structural)]
pub enum Backend {
    OpenGLES,
    Vulkan,
    Metal,
}

/// Whether a reported engine version matches the version this layer was
/// built against.
pub open spec fn version_matches(linked: ImpellerVersion) -> bool {
    linked.0 == spec_pack(VERSION_VARIANT, VERSION_MAJOR, VERSION_MINOR, VERSION_PATCH)
}

/// A graphics context: the backend it was constructed for.  Contexts are
/// expensive at the engine, so an application creates one and shares it.
#[derive(Debug)]
pub struct Context {
    pub backend: Backend,
}

impl Clone for Context {
    fn clone(&self) -> (r: Self)
        ensures
            r == *self,
    {
        Context { backend: self.backend }
    }
}

impl Context {
    /// An OpenGL ES context.  Construction succeeds exactly when the
    /// engine's reported version matches this layer's; the context is then
    /// confined to the thread whose OpenGL context is current.
    pub fn new_opengl_es(linked_version: ImpellerVersion) -> (r: Result<Context, Error>)
        ensures
            r is Ok <==> version_matches(linked_version),
            r matches Ok(c) ==> c.backend == Backend::OpenGLES,
            r is Err ==> r == Result::<Context, Error>::Err(Error::VersionMismatch),
    {
        match ImpellerVersion::require_matching(linked_version) {
            Ok(()) => Ok(Context { backend: Backend::OpenGLES }),
            Err(e) => Err(e),
        }
    }

    /// A Metal context on the system default device.  Construction
    /// succeeds exactly when the engine's reported version matches this
    /// layer's.
    pub fn new_metal(linked_version: ImpellerVersion) -> (r: Result<Context, Error>)
        ensures
            r is Ok <==> version_matches(linked_version),
            r matches Ok(c) ==> c.backend == Backend::Metal,
            r is Err ==> r == Result::<Context, Error>::Err(Error::VersionMismatch),
    {
        match ImpellerVersion::require_matching(linked_version) {
            Ok(()) => Ok(Context { backend: Backend::Metal }),
            Err(e) => Err(e),
        }
    }

    /// A Vulkan context, optionally with the engine's validation layers
    /// enabled.  Construction succeeds exactly when the engine's reported
    /// version matches this layer's.
    pub fn new_vulkan(enable_validation: bool, linked_version: ImpellerVersion) -> (r: Result<
        Context,
        Error,
    >)
        ensures
            r is Ok <==> version_matches(linked_version),
            r matches Ok(c) ==> c.backend == Backend::Vulkan,
            r is Err ==> r == Result::<Context, Error>::Err(Error::VersionMismatch),
    {
        let _ = enable_validation;
        match ImpellerVersion::require_matching(linked_version) {
            Ok(()) => Ok(Context { backend: Backend::Vulkan }),
            Err(e) => Err(e),
        }
    }

    /// Wrap an existing framebuffer object as a one-shot surface.  Only an
    /// OpenGL ES context can wrap a framebuffer.
    pub fn wrap_fbo(&mut self, fbo: u64, format: PixelFormat, size: ISize) -> (r: Option<Surface>)
        requires
            old(self).backend == Backend::OpenGLES,
        ensures
            *final(self) == *old(self),
            r matches Some(s) && s@ is None,
    {
        let _ = fbo;
        let _ = format;
        let _ = size;
        Some(Surface { contents: None })
    }

    /// A texture from tightly packed, decompressed RGBA bytes.  Creation
    /// succeeds exactly when both extents are nonzero and the buffer holds
    /// four bytes per pixel; compressed image data is rejected by length.
    pub fn create_texture_with_rgba8(&self, contents: Vec<u8>, width: u32, height: u32) -> (r:
        Result<Texture, Error>)
        ensures
            r is Ok <==> width > 0 && height > 0 && contents@.len() == width * height * 4,
            r matches Ok(t) ==> t == (Texture {
                width,
                height,
                mip_count: spec_mip_count(width as nat, height as nat) as u32,
                pixel_format: PixelFormat::RGBA8888,
                gl_handle: 0,
            }),
            width == 0 || height == 0 ==> r == Result::<Texture, Error>::Err(
                Error::ZeroTextureDimension,
            ),
            width > 0 && height > 0 && contents@.len() != width * height * 4 ==> r == Result::<
                Texture,
                Error,
            >::Err(Error::TextureBufferSizeMismatch),
    {
        if width == 0 || height == 0 {
            return Err(Error::ZeroTextureDimension);
        }
        proof {
            assert((width as int) * (height as int) * 4 < 0x100000000000000000) by (nonlinear_arith)
                requires
                    width < 0x100000000,
                    height < 0x100000000,
            ;
        }
        let expected: u128 = (width as u128) * (height as u128) * 4;
        if (contents.len() as u128) != expected {
            return Err(Error::TextureBufferSizeMismatch);
        }
        let mip_count = flutter_mip_count(width, height);
        Ok(
            Texture {
                width,
                height,
                mip_count,
                pixel_format: PixelFormat::RGBA8888,
                gl_handle: 0,
            },
        )
    }

    /// Adopt an externally created OpenGL texture handle.  Only an OpenGL
    /// ES context can adopt one; ownership of the handle passes to the
    /// engine, so the caller must not delete it.
    pub fn adopt_opengl_texture(&self, width: u32, height: u32, mip_count: u32, handle: u64) -> (r:
        Option<Texture>)
        requires
            self.backend == Backend::OpenGLES,
        ensures
            r == Some(
                Texture {
                    width,
                    height,
                    mip_count,
                    pixel_format: PixelFormat::RGBA8888,
                    gl_handle: handle,
                },
            ),
    {
        Some(Texture { width, height, mip_count, pixel_format: PixelFormat::RGBA8888,
            gl_handle: handle })
    }

    /// A swapchain over a window-system surface handle.  Only a Vulkan
    /// context can create one; ownership of the surface passes to the
    /// engine.
    pub fn create_new_vulkan_swapchain(&self, vulkan_surface_khr: u64) -> (r: Option<VkSwapChain>)
        requires
            self.backend == Backend::Vulkan,
        ensures
            r == Some(VkSwapChain { surface_handle: vulkan_surface_khr }),
    {
        Some(VkSwapChain { surface_handle: vulkan_surface_khr })
    }

    /// Wrap a Metal drawable as a one-shot surface.  Only a Metal context
    /// can wrap one.
    pub fn wrap_metal_drawable(&self, metal_drawable: u64) -> (r: Option<Surface>)
        requires
            self.backend == Backend::Metal,
        ensures
            r matches Some(s) && s@ is None,
    {
        let _ = metal_drawable;
        Some(Surface { contents: None })
    }

    /// A color source shading each covered pixel with a fragment program
    /// over the given samplers and uniform data, all captured by value.
    pub fn new_color_source_from_fragment_program(
        &self,
        frag_program: &FragmentProgram,
        samplers: &Vec<Texture>,
        uniform_data: &Vec<u8>,
    ) -> (r: ColorSource)
        ensures
            r@ == (ColorSourceV::FragmentProgram {
                program: frag_program@,
                samplers: samplers@,
                uniform_data: uniform_data@,
            }),
    {
        ColorSource::FragmentProgram {
            program: frag_program.clone(),
            samplers: clone_copied(samplers),
            uniform_data: clone_copied(uniform_data),
        }
    }

    /// An image filter shading each pixel with a fragment program over the
    /// given samplers and uniform data, all captured by value.
    pub fn new_image_filter_from_fragment_program(
        &self,
        frag_program: &FragmentProgram,
        samplers: &Vec<Texture>,
        uniform_data: &Vec<u8>,
    ) -> (r: ImageFilter)
        ensures
            r@ == (ImageFilterV::FragmentProgram {
                program: frag_program@,
                samplers: samplers@,
                uniform_data: uniform_data@,
            }),
    {
        ImageFilter::FragmentProgram {
            program: frag_program.clone(),
            samplers: clone_copied(samplers),
            uniform_data: clone_copied(uniform_data),
        }
    }
}

} // verus!
