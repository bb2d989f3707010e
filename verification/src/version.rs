//! The API version word and its field packing.
//!
//! A version is one 32-bit word: three bits of variant, seven bits of major,
//! ten bits of minor and twelve bits of patch, packed from the top down.
//! The layer is built against a fixed header version; an engine reports the
//! version it was linked with, and construction of a context must refuse a
//! mismatch.

use vstd::prelude::*;

use crate::error::Error;

verus! {

/// Variant field of the version this layer was built against.
pub const VERSION_VARIANT: u32 = 1;

/// Major field of the version this layer was built against.
pub const VERSION_MAJOR: u32 = 1;

/// Minor field of the version this layer was built against.
pub const VERSION_MINOR: u32 = 3;

/// Patch field of the version this layer was built against.
pub const VERSION_PATCH: u32 = 0;

/// The packed 32-bit version word: variant in bits 29..32, major in bits
/// 22..29, minor in bits 12..22, patch in bits 0..12.
pub open spec fn spec_pack(variant: u32, major: u32, minor: u32, patch: u32) -> u32 {
    (variant << 29u32) | (major << 22u32) | (minor << 12u32) | patch
}

/// The variant field of a packed version word.
pub open spec fn spec_variant(word: u32) -> u32 {
    word >> 29u32
}

/// The major field of a packed version word.
pub open spec fn spec_major(word: u32) -> u32 {
    (word >> 22u32) & 0x7fu32
}

/// The minor field of a packed version word.
pub open spec fn spec_minor(word: u32) -> u32 {
    (word >> 12u32) & 0x3ffu32
}

/// The patch field of a packed version word.
pub open spec fn spec_patch(word: u32) -> u32 {
    word & 0xfffu32
}

/// An API version, as one packed 32-bit word.
#[derive(Debug, Copy, Clone, PartialEq, Eq, Hash, PartialOrd, Ord, Structural)]
pub struct ImpellerVersion(pub u32);

impl ImpellerVersion {
    /// Pack the four version fields into a version word.
    pub fn new(variant: u32, major: u32, minor: u32, patch: u32) -> (v: Self)
        requires
            variant < 8,
            major < 128,
            minor < 1024,
            patch < 4096,
        ensures
            v.0 == spec_pack(variant, major, minor, patch),
    {
        ImpellerVersion((variant << 29u32) | (major << 22u32) | (minor << 12u32) | patch)
    }

    /// The version this layer was built against.
    pub fn get_header_version() -> (v: Self)
        ensures
            v.0 == spec_pack(VERSION_VARIANT, VERSION_MAJOR, VERSION_MINOR, VERSION_PATCH),
    {
        ImpellerVersion(
            (VERSION_VARIANT << 29u32) | (VERSION_MAJOR << 22u32) | (VERSION_MINOR << 12u32)
                | VERSION_PATCH,
        )
    }

    /// Extracts the version variant.
    pub fn get_variant(self) -> (r: u32)
        ensures
            r == spec_variant(self.0),
    {
        self.0 >> 29u32
    }

    /// Extracts the major version.
    pub fn get_major(self) -> (r: u32)
        ensures
            r == spec_major(self.0),
    {
        (self.0 >> 22u32) & 0x7fu32
    }

    /// Extracts the minor version.
    pub fn get_minor(self) -> (r: u32)
        ensures
            r == spec_minor(self.0),
    {
        (self.0 >> 12u32) & 0x3ffu32
    }

    /// Extracts the patch version.
    pub fn get_patch(self) -> (r: u32)
        ensures
            r == spec_patch(self.0),
    {
        self.0 & 0xfffu32
    }

    /// Checks that the version an engine reports is the version this layer
    /// was built against.  A mismatch makes every context construction fail.
    pub fn sanity_check(linked: Self) -> (r: bool)
        ensures
            r == (linked.0 == spec_pack(
                VERSION_VARIANT,
                VERSION_MAJOR,
                VERSION_MINOR,
                VERSION_PATCH,
            )),
    {
        linked == Self::get_header_version()
    }

    /// The check of [`Self::sanity_check`] as a `Result`, for callers that
    /// propagate the mismatch as an error.
    pub fn require_matching(linked: Self) -> (r: Result<(), Error>)
        ensures
            r is Ok <==> linked.0 == spec_pack(
                VERSION_VARIANT,
                VERSION_MAJOR,
                VERSION_MINOR,
                VERSION_PATCH,
            ),
            r is Err ==> r == Result::<(), Error>::Err(Error::VersionMismatch),
    {
        if Self::sanity_check(linked) {
            Ok(())
        } else {
            Err(Error::VersionMismatch)
        }
    }
}

/// Packing then unpacking a version word recovers each field exactly, for
/// every in-range field tuple.
pub proof fn lemma_version_roundtrip(variant: u32, major: u32, minor: u32, patch: u32)
    requires
        variant < 8,
        major < 128,
        minor < 1024,
        patch < 4096,
    ensures
        spec_variant(spec_pack(variant, major, minor, patch)) == variant,
        spec_major(spec_pack(variant, major, minor, patch)) == major,
        spec_minor(spec_pack(variant, major, minor, patch)) == minor,
        spec_patch(spec_pack(variant, major, minor, patch)) == patch,
{
    assert(variant < 8 && major < 128 && minor < 1024 && patch < 4096 ==> {
        let w = (variant << 29u32) | (major << 22u32) | (minor << 12u32) | patch;
        &&& w >> 29u32 == variant
        &&& (w >> 22u32) & 0x7fu32 == major
        &&& (w >> 12u32) & 0x3ffu32 == minor
        &&& w & 0xfffu32 == patch
    }) by (bit_vector);
}

} // verus!
