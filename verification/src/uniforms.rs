use vstd::prelude::*;

use crate::transform::{Frac, Size2, Transform2};
use vstd::bytes::{spec_u32_to_le_bytes, u32_to_le_bytes};

verus! {

/// The per-window values the render pipeline reads: the transform applied to
/// the image and the image's size in pixels.
///
/// With the identity transform the image is stretched over the inner window
/// size without preserving its aspect ratio.
#[derive(Clone, Copy, Debug, PartialEq, Eq, Structural)]
pub struct WindowUniforms {
    /// The transformation applied to the image, in virtual window space,
    /// which runs from (0, 0) at the top left to (1, 1) at the bottom right.
    pub transform: Transform2,
    /// The size of the image in pixels.
    pub image_size: Size2,
}

impl WindowUniforms {
    pub open spec fn wf(self) -> bool {
        self.transform.wf()
    }

    /// The uniforms of a window that has no image yet: identity transform,
    /// zero image size.
    pub fn no_image() -> (r: WindowUniforms)
        ensures
            r == WindowUniforms::spec_no_image(),
    {
        Self::stretch(Size2 { x: 0, y: 0 })
    }

    pub open spec fn spec_no_image() -> WindowUniforms {
        WindowUniforms {
            transform: Transform2::spec_identity(),
            image_size: Size2 { x: 0, y: 0 },
        }
    }

    /// Stretch the image over the whole window: identity transform.
    pub fn stretch(image_size: Size2) -> (r: WindowUniforms)
        ensures
            r == (WindowUniforms { transform: Transform2::spec_identity(), image_size }),
    {
        WindowUniforms { transform: Transform2::identity(), image_size }
    }

    /// What `fit` computes, exactly. With the aspect ratios written as
    /// `image.x / window.x` and `image.y / window.y`, the axis with the larger
    /// ratio is scaled to fill the window and the other axis is scaled by the
    /// ratio of the two ratios; the scaled-down axis is centred by translating
    /// it over half the slack.
    pub open spec fn spec_fit(window_size: Size2, image_size: Size2) -> WindowUniforms {
        let a = (image_size.x * window_size.y) as u128;
        let b = (image_size.y * window_size.x) as u128;
        if a >= b {
            WindowUniforms {
                transform: Transform2 {
                    sx: Frac { num: a, den: a },
                    sy: Frac { num: b, den: a },
                    tx: Frac { num: 0, den: 1 },
                    ty: Frac { num: (a - b) as u128, den: (2 * a) as u128 },
                },
                image_size,
            }
        } else {
            WindowUniforms {
                transform: Transform2 {
                    sx: Frac { num: a, den: b },
                    sy: Frac { num: b, den: b },
                    tx: Frac { num: (b - a) as u128, den: (2 * b) as u128 },
                    ty: Frac { num: 0, den: 1 },
                },
                image_size,
            }
        }
    }

    /// Scale the image uniformly so it fits inside the window, preserving its
    /// aspect ratio, and centre it along the axis that is not filled.
    pub fn fit(window_size: Size2, image_size: Size2) -> (r: WindowUniforms)
        requires
            window_size.x > 0,
            window_size.y > 0,
            image_size.x > 0,
            image_size.y > 0,
        ensures
            r == WindowUniforms::spec_fit(window_size, image_size),
            r.wf(),
    {
        proof {
            assert((image_size.x as u128) * (window_size.y as u128) <= 0xffff_ffff * 0xffff_ffffu128)
                by (nonlinear_arith)
                requires
                    image_size.x <= 0xffff_ffffu32,
                    window_size.y <= 0xffff_ffffu32,
            ;
            assert((image_size.y as u128) * (window_size.x as u128) <= 0xffff_ffff * 0xffff_ffffu128)
                by (nonlinear_arith)
                requires
                    image_size.y <= 0xffff_ffffu32,
                    window_size.x <= 0xffff_ffffu32,
            ;
            assert((image_size.x as u128) * (window_size.y as u128) > 0) by (nonlinear_arith)
                requires
                    image_size.x > 0,
                    window_size.y > 0,
            ;
            assert((image_size.y as u128) * (window_size.x as u128) > 0) by (nonlinear_arith)
                requires
                    image_size.y > 0,
                    window_size.x > 0,
            ;
        }
        let a: u128 = (image_size.x as u128) * (window_size.y as u128);
        let b: u128 = (image_size.y as u128) * (window_size.x as u128);
        if a >= b {
            WindowUniforms {
                transform: Transform2 {
                    sx: Frac { num: a, den: a },
                    sy: Frac { num: b, den: a },
                    tx: Frac { num: 0, den: 1 },
                    ty: Frac { num: a - b, den: 2 * a },
                },
                image_size,
            }
        } else {
            WindowUniforms {
                transform: Transform2 {
                    sx: Frac { num: a, den: b },
                    sy: Frac { num: b, den: b },
                    tx: Frac { num: b - a, den: 2 * b },
                    ty: Frac { num: 0, den: 1 },
                },
                image_size,
            }
        }
    }

    /// Pre-apply a transformation: the given transform runs after this one.
    pub fn pre_apply_transform(self, transform: Transform2) -> (r: WindowUniforms)
        requires
            Transform2::compose_fits(transform, self.transform),
        ensures
            r.transform == Transform2::spec_compose(transform, self.transform),
            r.image_size == self.image_size,
    {
        WindowUniforms {
            transform: transform.compose(&self.transform),
            image_size: self.image_size,
        }
    }
}

/// The window uniforms in the fixed layout the shader expects, as 32-bit
/// words (each word is the bit pattern of one shader scalar).
///
/// The layout is a hard compatibility constraint with the shader: first the
/// 3x3 homogeneous transform matrix, column-major with each column aligned to
/// 16 bytes (three words and one padding word per column), then the image
/// size as a two-word vector aligned to 8 bytes. 56 bytes in all.
#[derive(Clone, Copy, Debug, PartialEq, Eq, Structural)]
pub struct WindowUniformsStd140 {
    pub c00: u32,
    pub c01: u32,
    pub c02: u32,
    pub c10: u32,
    pub c11: u32,
    pub c12: u32,
    pub c20: u32,
    pub c21: u32,
    pub c22: u32,
    pub size_x: u32,
    pub size_y: u32,
}

pub const STD140_SIZE: u64 = 56;

/// The exact byte image of the std140 layout: three 16-byte columns (three
/// little-endian words and a zero padding word each) and the two size words.
pub open spec fn spec_std140_bytes(w: WindowUniformsStd140) -> Seq<u8> {
    spec_u32_to_le_bytes(w.c00) + spec_u32_to_le_bytes(w.c01) + spec_u32_to_le_bytes(
        w.c02,
    ) + spec_u32_to_le_bytes(0) + spec_u32_to_le_bytes(w.c10) + spec_u32_to_le_bytes(w.c11)
        + spec_u32_to_le_bytes(w.c12) + spec_u32_to_le_bytes(0) + spec_u32_to_le_bytes(w.c20)
        + spec_u32_to_le_bytes(w.c21) + spec_u32_to_le_bytes(w.c22) + spec_u32_to_le_bytes(0)
        + spec_u32_to_le_bytes(w.size_x) + spec_u32_to_le_bytes(w.size_y)
}

impl WindowUniformsStd140 {
    /// Serialize into the 56 bytes the GPU buffer holds.
    pub fn bytes(&self) -> (r: Vec<u8>)
        ensures
            r@ == spec_std140_bytes(*self),
            r@.len() == 56,
    {
        proof {
            vstd::bytes::lemma_auto_spec_u32_to_from_le_bytes();
        }
        let mut out: Vec<u8> = Vec::new();
        let words: [u32; 14] = [
            self.c00,
            self.c01,
            self.c02,
            0,
            self.c10,
            self.c11,
            self.c12,
            0,
            self.c20,
            self.c21,
            self.c22,
            0,
            self.size_x,
            self.size_y,
        ];
        let mut i: usize = 0;
        while i < 14
            invariant
                i <= 14,
                words@ == (seq![
                    self.c00,
                    self.c01,
                    self.c02,
                    0u32,
                    self.c10,
                    self.c11,
                    self.c12,
                    0u32,
                    self.c20,
                    self.c21,
                    self.c22,
                    0u32,
                    self.size_x,
                    self.size_y,
                ]),
                out@.len() == 4 * i,
                forall|k: int|
                    0 <= k < i ==> out@.subrange(4 * k, 4 * k + 4) == spec_u32_to_le_bytes(
                        words@[k],
                    ),
            decreases 14 - i,
        {
            let mut chunk = u32_to_le_bytes(words[i]);
            out.append(&mut chunk);
            i = i + 1;
        }
        proof {
            assert(out@ =~= spec_std140_bytes(*self)) by {
                vstd::bytes::lemma_auto_spec_u32_to_from_le_bytes();
                assert forall|k: int| 0 <= k < 14 implies out@.subrange(4 * k, 4 * k + 4)
                    == spec_u32_to_le_bytes(words@[k]) by {}
            }
        }
        out
    }
}

/// The CPU-side twin of the GPU uniform buffer: the value most recently
/// staged for the GPU, and a dirty flag saying whether the window's state has
/// changed since.
///
/// The flag is set whenever any input of the uniforms changes (a resize, a
/// transform change, an image change) and cleared only by `update_from`,
/// which has just staged a fresh value. The GPU-side buffer identity never
/// changes: updates replace the bytes, never the buffer, so bind groups that
/// reference it stay valid.
#[derive(Clone, Copy, Debug, PartialEq, Eq, Structural)]
pub struct UniformsBuffer {
    dirty: bool,
    value: WindowUniforms,
}

impl UniformsBuffer {
    pub closed spec fn spec_is_dirty(self) -> bool {
        self.dirty
    }

    pub closed spec fn spec_value(self) -> WindowUniforms {
        self.value
    }

    /// A buffer freshly created from a value: the value is staged and the
    /// buffer is clean.
    pub fn from_value(value: WindowUniforms) -> (r: UniformsBuffer)
        ensures
            !r.spec_is_dirty(),
            r.spec_value() == value,
    {
        UniformsBuffer { dirty: false, value }
    }

    /// Whether the staged value is stale relative to the window's state.
    pub fn is_dirty(&self) -> (r: bool)
        ensures
            r == self.spec_is_dirty(),
    {
        self.dirty
    }

    /// Flip the dirty flag. Nothing else changes.
    pub fn mark_dirty(&mut self, dirty: bool)
        ensures
            final(self).spec_is_dirty() == dirty,
            final(self).spec_value() == old(self).spec_value(),
    {
        self.dirty = dirty;
    }

    /// Stage a fresh value and clear the dirty flag: after this the staged
    /// value is exactly the given one. It is only called on a buffer whose
    /// staged value is stale.
    pub fn update_from(&mut self, value: &WindowUniforms)
        requires
            old(self).spec_is_dirty(),
        ensures
            !final(self).spec_is_dirty(),
            final(self).spec_value() == *value,
    {
        self.value = *value;
        self.mark_dirty(false);
    }

    /// The value most recently staged for the GPU.
    pub fn value(&self) -> (r: &WindowUniforms)
        ensures
            *r == self.spec_value(),
    {
        &self.value
    }
}

/// Every component a fit transform can have fits well under 2^66: the
/// numerators are pixel products of at most 64 bits and the denominators at
/// most twice such a product.
pub proof fn lemma_fit_bounded(window_size: Size2, image_size: Size2)
    ensures
        crate::transform::spec_bounded(
            WindowUniforms::spec_fit(window_size, image_size).transform,
            0x4_0000_0000_0000_0000,
        ),
{
    assert((image_size.x as int) * (window_size.y as int) <= 0xffff_ffff * 0xffff_ffff)
        by (nonlinear_arith)
        requires
            image_size.x <= 0xffff_ffffu32,
            window_size.y <= 0xffff_ffffu32,
    ;
    assert((image_size.y as int) * (window_size.x as int) <= 0xffff_ffff * 0xffff_ffff)
        by (nonlinear_arith)
        requires
            image_size.y <= 0xffff_ffffu32,
            window_size.x <= 0xffff_ffffu32,
    ;
}

/// Fitting a window whose size equals the image's size changes nothing: the
/// transform is the identity — both scales are one and both translations are
/// zero — and the image size is kept.
pub proof fn lemma_fit_identity(size: Size2)
    requires
        size.x > 0,
        size.y > 0,
    ensures
        WindowUniforms::spec_fit(size, size).transform.is_identity(),
        WindowUniforms::spec_fit(size, size).image_size == size,
{
    assert(size.x * size.y == size.y * size.x);
}

} // verus!
