//! Texture descriptors.  The pixel data itself lives with the engine; the
//! layer records the descriptor a draw command refers to.

use vstd::prelude::*;

use crate::enums::PixelFormat;

verus! {

/// A reference to an engine-resident image: its extents, mip count, format
/// and, for adopted OpenGL textures, the foreign handle.
#[derive(Clone, Copy, Debug, PartialEq, Eq, Structural)]
pub struct Texture {
    pub width: u32,
    pub height: u32,
    pub mip_count: u32,
    pub pixel_format: PixelFormat,
    /// The OpenGL handle this texture was adopted from, or zero where the
    /// texture was created from pixel contents.
    pub gl_handle: u64,
}

impl Texture {
    /// The OpenGL handle associated with this texture: the adopted handle,
    /// or zero where none was adopted.
    pub fn get_opengl_handle(&self) -> (r: u64)
        ensures
            r == self.gl_handle,
    {
        self.gl_handle
    }
}

/// Two to the given power.
pub open spec fn pow2(k: nat) -> nat
    decreases k,
{
    if k == 0 {
        1
    } else {
        2 * pow2((k - 1) as nat)
    }
}

/// The ceiling of the base-two logarithm: the least `k` with `pow2(k) >= n`.
pub open spec fn ceil_log2(n: nat) -> nat
    decreases n,
{
    if n <= 1 {
        0
    } else {
        1 + ceil_log2((n + 1) / 2)
    }
}

/// The larger of two naturals.
pub open spec fn max_nat(a: nat, b: nat) -> nat {
    if a >= b {
        a
    } else {
        b
    }
}

/// The mip level count chosen for a texture: the ceiling log of the larger
/// extent, less one to skip the one-by-one level, but never less than one.
pub open spec fn spec_mip_count(width: nat, height: nat) -> nat {
    if ceil_log2(max_nat(width, height)) > 1 {
        (ceil_log2(max_nat(width, height)) - 1) as nat
    } else {
        1
    }
}

/// Powers of two grow with the exponent.
pub proof fn lemma_pow2_mono(a: nat, b: nat)
    requires
        a <= b,
    ensures
        pow2(a) <= pow2(b),
    decreases b,
{
    if a < b {
        lemma_pow2_mono(a, (b - 1) as nat);
    }
}

/// A power of two exceeds its exponent.
pub proof fn lemma_pow2_gt(k: nat)
    ensures
        pow2(k) > k,
    decreases k,
{
    if k > 0 {
        lemma_pow2_gt((k - 1) as nat);
    }
}

/// The ceiling log is sharp: its power reaches `n`, and the power below
/// falls short.
pub proof fn lemma_ceil_log2_bounds(n: nat)
    requires
        n >= 1,
    ensures
        pow2(ceil_log2(n)) >= n,
        n >= 2 ==> pow2((ceil_log2(n) - 1) as nat) < n,
    decreases n,
{
    if n >= 2 {
        let m = ((n + 1) / 2) as nat;
        lemma_ceil_log2_bounds(m);
        if m >= 2 {
            assert(pow2(((ceil_log2(m) - 1) as nat) + 1) == 2 * pow2((ceil_log2(m) - 1) as nat));
        }
    }
}

/// The exponent with a sharp power is the ceiling log.
pub proof fn lemma_ceil_log2_unique(n: nat, k: nat)
    requires
        n >= 1,
        pow2(k) >= n,
        k == 0 || pow2((k - 1) as nat) < n,
    ensures
        k == ceil_log2(n),
{
    lemma_ceil_log2_bounds(n);
    let c = ceil_log2(n);
    if k < c {
        if n >= 2 {
            lemma_pow2_mono(k, (c - 1) as nat);
        }
    }
    if k > c {
        lemma_pow2_mono(c, (k - 1) as nat);
    }
}

/// The ceiling log never falls as its argument grows.
pub proof fn lemma_ceil_log2_mono(a: nat, b: nat)
    requires
        a <= b,
    ensures
        ceil_log2(a) <= ceil_log2(b),
    decreases b,
{
    if a >= 2 {
        lemma_ceil_log2_mono(((a + 1) / 2) as nat, ((b + 1) / 2) as nat);
    }
}

/// The mip count never falls as the larger texture extent grows.
pub proof fn lemma_mip_count_monotonic(w1: nat, h1: nat, w2: nat, h2: nat)
    requires
        max_nat(w1, h1) <= max_nat(w2, h2),
    ensures
        spec_mip_count(w1, h1) <= spec_mip_count(w2, h2),
{
    lemma_ceil_log2_mono(max_nat(w1, h1), max_nat(w2, h2));
}

/// The mip level count for a texture of the given extents: one level per
/// halving of the larger extent, the one-by-one level skipped, and at
/// least one level always.
pub fn flutter_mip_count(width: u32, height: u32) -> (r: u32)
    ensures
        r == spec_mip_count(width as nat, height as nat),
        r >= 1,
{
    let m: u32 = if width >= height {
        width
    } else {
        height
    };
    if m <= 1 {
        return 1;
    }
    let mut k: u32 = 0;
    let mut p: u64 = 1;
    while p < m as u64
        invariant
            m >= 2,
            p >= 1,
            p == pow2(k as nat),
            p <= 2 * (m as u64),
            k == 0 || pow2((k - 1) as nat) < m,
        decreases 2 * (m as int) - p,
    {
        proof {
            lemma_pow2_gt(k as nat);
        }
        p = p * 2;
        k = k + 1;
    }
    proof {
        lemma_ceil_log2_unique(m as nat, k as nat);
    }
    if k > 1 {
        k - 1
    } else {
        1
    }
}

} // verus!
