use vstd::prelude::*;

verus! {

/// A size in whole pixels, as the windowing system reports it.
#[derive(Clone, Copy, Debug, PartialEq, Eq, Structural)]
pub struct Size2 {
    pub x: u32,
    pub y: u32,
}

impl Size2 {
    pub fn new(x: u32, y: u32) -> (r: Size2)
        ensures
            r == (Size2 { x, y }),
    {
        Size2 { x, y }
    }
}

/// An exact non-negative rational number, kept as numerator over denominator.
///
/// The image transforms this library computes are ratios of pixel counts, so
/// they are exact rationals; keeping them as such lets every statement about
/// them be exact as well. Only the final hand-off to the rendering backend
/// rounds them to the backend's number format.
#[derive(Clone, Copy, Debug, PartialEq, Eq, Structural)]
pub struct Frac {
    pub num: u128,
    pub den: u128,
}

impl Frac {
    /// A fraction denotes a number only when its denominator is positive.
    pub open spec fn wf(self) -> bool {
        self.den > 0
    }

    /// The fraction denotes zero.
    pub open spec fn is_zero(self) -> bool {
        self.num == 0
    }

    /// The fraction denotes one.
    pub open spec fn is_one(self) -> bool {
        self.num == self.den
    }

    /// Two fractions denote the same number (by cross-multiplication).
    pub open spec fn eqv(self, other: Frac) -> bool {
        self.num * other.den == other.num * self.den
    }

    pub fn one() -> (r: Frac)
        ensures
            r == (Frac { num: 1, den: 1 }),
    {
        Frac { num: 1, den: 1 }
    }

    pub fn zero() -> (r: Frac)
        ensures
            r == (Frac { num: 0, den: 1 }),
    {
        Frac { num: 0, den: 1 }
    }
}

/// An axis-aligned 2D affine transform: a scale per axis and a translation.
///
/// This is the shape of every transform the viewer produces: fitting an image
/// into a window scales each axis and re-centres it, and never rotates or
/// shears. A point (px, py) maps to (sx * px + tx, sy * py + ty).
#[derive(Clone, Copy, Debug, PartialEq, Eq, Structural)]
pub struct Transform2 {
    pub sx: Frac,
    pub sy: Frac,
    pub tx: Frac,
    pub ty: Frac,
}

impl Transform2 {
    pub open spec fn wf(self) -> bool {
        self.sx.wf() && self.sy.wf() && self.tx.wf() && self.ty.wf()
    }

    /// The transform denotes the identity: unit scale and zero translation.
    pub open spec fn is_identity(self) -> bool {
        self.sx.is_one() && self.sy.is_one() && self.tx.is_zero() && self.ty.is_zero()
    }

    pub fn identity() -> (r: Transform2)
        ensures
            r == Transform2::spec_identity(),
    {
        Transform2 {
            sx: Frac { num: 1, den: 1 },
            sy: Frac { num: 1, den: 1 },
            tx: Frac { num: 0, den: 1 },
            ty: Frac { num: 0, den: 1 },
        }
    }

    pub open spec fn spec_identity() -> Transform2 {
        Transform2 {
            sx: Frac { num: 1, den: 1 },
            sy: Frac { num: 1, den: 1 },
            tx: Frac { num: 0, den: 1 },
            ty: Frac { num: 0, den: 1 },
        }
    }

    /// Whether composing `outer` after `inner` stays within the machine range:
    /// every product formed on the way, and the final sums, fit in the word.
    pub open spec fn compose_fits(outer: Transform2, inner: Transform2) -> bool {
        &&& outer.sx.num * inner.sx.num <= u128::MAX
        &&& outer.sx.den * inner.sx.den <= u128::MAX
        &&& outer.sy.num * inner.sy.num <= u128::MAX
        &&& outer.sy.den * inner.sy.den <= u128::MAX
        &&& outer.sx.num * inner.tx.num <= u128::MAX
        &&& outer.sx.num * inner.tx.num * outer.tx.den <= u128::MAX
        &&& outer.tx.num * outer.sx.den <= u128::MAX
        &&& outer.tx.num * outer.sx.den * inner.tx.den <= u128::MAX
        &&& outer.sx.num * inner.tx.num * outer.tx.den + outer.tx.num * outer.sx.den
            * inner.tx.den <= u128::MAX
        &&& outer.sx.den * inner.tx.den <= u128::MAX
        &&& outer.sx.den * inner.tx.den * outer.tx.den <= u128::MAX
        &&& outer.sy.num * inner.ty.num <= u128::MAX
        &&& outer.sy.num * inner.ty.num * outer.ty.den <= u128::MAX
        &&& outer.ty.num * outer.sy.den <= u128::MAX
        &&& outer.ty.num * outer.sy.den * inner.ty.den <= u128::MAX
        &&& outer.sy.num * inner.ty.num * outer.ty.den + outer.ty.num * outer.sy.den
            * inner.ty.den <= u128::MAX
        &&& outer.sy.den * inner.ty.den <= u128::MAX
        &&& outer.sy.den * inner.ty.den * outer.ty.den <= u128::MAX
    }

    /// The composition `outer` after `inner`, exactly: scales multiply and the
    /// translation is `outer` applied to `inner`'s translation.
    pub open spec fn spec_compose(outer: Transform2, inner: Transform2) -> Transform2 {
        Transform2 {
            sx: Frac {
                num: (outer.sx.num * inner.sx.num) as u128,
                den: (outer.sx.den * inner.sx.den) as u128,
            },
            sy: Frac {
                num: (outer.sy.num * inner.sy.num) as u128,
                den: (outer.sy.den * inner.sy.den) as u128,
            },
            tx: Frac {
                num: (outer.sx.num * inner.tx.num * outer.tx.den + outer.tx.num * outer.sx.den
                    * inner.tx.den) as u128,
                den: (outer.sx.den * inner.tx.den * outer.tx.den) as u128,
            },
            ty: Frac {
                num: (outer.sy.num * inner.ty.num * outer.ty.den + outer.ty.num * outer.sy.den
                    * inner.ty.den) as u128,
                den: (outer.sy.den * inner.ty.den * outer.ty.den) as u128,
            },
        }
    }

    /// Compose `self` after `inner`.
    pub fn compose(&self, inner: &Transform2) -> (r: Transform2)
        requires
            Transform2::compose_fits(*self, *inner),
        ensures
            r == Transform2::spec_compose(*self, *inner),
    {
        Transform2 {
            sx: Frac { num: self.sx.num * inner.sx.num, den: self.sx.den * inner.sx.den },
            sy: Frac { num: self.sy.num * inner.sy.num, den: self.sy.den * inner.sy.den },
            tx: Frac {
                num: self.sx.num * inner.tx.num * self.tx.den + self.tx.num * self.sx.den
                    * inner.tx.den,
                den: self.sx.den * inner.tx.den * self.tx.den,
            },
            ty: Frac {
                num: self.sy.num * inner.ty.num * self.ty.den + self.ty.num * self.sy.den
                    * inner.ty.den,
                den: self.sy.den * inner.ty.den * self.ty.den,
            },
        }
    }
}

/// Every numerator and denominator of the transform is at most `bound`.
pub open spec fn spec_bounded(t: Transform2, bound: u128) -> bool {
    &&& t.sx.num <= bound
    &&& t.sx.den <= bound
    &&& t.sy.num <= bound
    &&& t.sy.den <= bound
    &&& t.tx.num <= bound
    &&& t.tx.den <= bound
    &&& t.ty.num <= bound
    &&& t.ty.den <= bound
}

/// Applying the identity on top of a transform changes nothing: every
/// component of the composition denotes the same number as before.
pub proof fn lemma_identity_compose(inner: Transform2)
    ensures
        Transform2::spec_compose(Transform2::spec_identity(), inner).sx.eqv(inner.sx),
        Transform2::spec_compose(Transform2::spec_identity(), inner).sy.eqv(inner.sy),
        Transform2::spec_compose(Transform2::spec_identity(), inner).tx.eqv(inner.tx),
        Transform2::spec_compose(Transform2::spec_identity(), inner).ty.eqv(inner.ty),
{
    let c = Transform2::spec_compose(Transform2::spec_identity(), inner);
    assert(1 * inner.sx.num == inner.sx.num && 1 * inner.sx.den == inner.sx.den)
        by (nonlinear_arith);
    assert(1 * inner.sy.num == inner.sy.num && 1 * inner.sy.den == inner.sy.den)
        by (nonlinear_arith);
    assert(1 * inner.tx.num * 1 + 0 * 1 * inner.tx.den == inner.tx.num && 1 * inner.tx.den * 1
        == inner.tx.den) by (nonlinear_arith);
    assert(1 * inner.ty.num * 1 + 0 * 1 * inner.ty.den == inner.ty.num && 1 * inner.ty.den * 1
        == inner.ty.den) by (nonlinear_arith);
    assert(c.sx.num == inner.sx.num && c.sx.den == inner.sx.den);
    assert(c.sy.num == inner.sy.num && c.sy.den == inner.sy.den);
    assert(c.tx.num == inner.tx.num && c.tx.den == inner.tx.den);
    assert(c.ty.num == inner.ty.num && c.ty.den == inner.ty.den);
}

proof fn lemma_mul3_bound(a: u128, b: u128, c: u128, ab: u128, bb: u128, cb: u128)
    by (nonlinear_arith)
    requires
        a <= ab,
        b <= bb,
        c <= cb,
    ensures
        a * b <= ab * bb,
        a * b * c <= ab * bb * cb,
{
}

/// A transform bounded by 2^16 composes with one bounded by 2^66 without
/// leaving the 128-bit range: every product has at most 98 bits and every
/// sum at most 99.
pub proof fn lemma_compose_fits(outer: Transform2, inner: Transform2)
    requires
        spec_bounded(outer, 0x1_0000),
        spec_bounded(inner, 0x4_0000_0000_0000_0000),
    ensures
        Transform2::compose_fits(outer, inner),
{
    let k16: u128 = 0x1_0000;
    let k66: u128 = 0x4_0000_0000_0000_0000;
    lemma_mul3_bound(outer.sx.num, inner.sx.num, 1, k16, k66, 1);
    lemma_mul3_bound(outer.sx.den, inner.sx.den, 1, k16, k66, 1);
    lemma_mul3_bound(outer.sy.num, inner.sy.num, 1, k16, k66, 1);
    lemma_mul3_bound(outer.sy.den, inner.sy.den, 1, k16, k66, 1);
    lemma_mul3_bound(outer.sx.num, inner.tx.num, outer.tx.den, k16, k66, k16);
    lemma_mul3_bound(outer.tx.num, outer.sx.den, inner.tx.den, k16, k16, k66);
    lemma_mul3_bound(outer.sx.den, inner.tx.den, outer.tx.den, k16, k66, k16);
    lemma_mul3_bound(outer.sy.num, inner.ty.num, outer.ty.den, k16, k66, k16);
    lemma_mul3_bound(outer.ty.num, outer.sy.den, inner.ty.den, k16, k16, k66);
    lemma_mul3_bound(outer.sy.den, inner.ty.den, outer.ty.den, k16, k66, k16);
}

} // verus!
