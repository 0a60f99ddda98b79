//! Scale factors as exact positive rationals.

use vstd::prelude::*;

verus! {

/// The scale factor a platform reports for a display: the positive rational
/// `numer / denom`.
#[derive(Clone, Copy, Debug)]
pub struct Scale {
    num: u32,
    den: u32,
}

/// A measured multiplier on top of a nominal scale: the positive rational
/// `numer / denom`, with room for a quotient of two 32-bit products.
#[derive(Clone, Copy, Debug)]
pub struct Correction {
    num: u64,
    den: u64,
}

/// `value * num / den`, truncated toward zero.
pub open spec fn scaled(value: int, num: int, den: int) -> int {
    if value >= 0 {
        (value * num) / den
    } else {
        -(((-value) * num) / den)
    }
}

impl Scale {
    pub closed spec fn numer(self) -> int {
        self.num as int
    }

    pub closed spec fn denom(self) -> int {
        self.den as int
    }

    /// Both parts are positive and fit in 32 bits.
    #[verifier::type_invariant]
    pub open spec fn wf(self) -> bool {
        &&& 0 < self.numer() <= u32::MAX
        &&& 0 < self.denom() <= u32::MAX
    }

    /// `floor(100 * numer / denom)`.
    pub open spec fn percent_spec(self) -> int {
        (100 * self.numer()) / self.denom()
    }

    /// Whether two scales denote the same rational.
    pub open spec fn same_value_spec(self, other: Scale) -> bool {
        self.numer() * other.denom() == other.numer() * self.denom()
    }

    /// The scale `num / den`, unless a part is zero.
    pub fn new(num: u32, den: u32) -> (r: Option<Scale>)
        ensures
            r is Some <==> num > 0 && den > 0,
            r matches Some(s) ==> s.wf() && s.numer() == num && s.denom() == den,
    {
        if num == 0 || den == 0 {
            None
        } else {
            Some(Scale { num, den })
        }
    }

    pub fn num(&self) -> (n: u32)
        ensures
            n == self.numer(),
            self.wf(),
    {
        proof {
            use_type_invariant(self);
        }
        self.num
    }

    pub fn den(&self) -> (d: u32)
        ensures
            d == self.denom(),
            self.wf(),
    {
        proof {
            use_type_invariant(self);
        }
        self.den
    }

    /// The scale as a whole percentage, truncated.
    pub fn percent(&self) -> (p: u64)
        ensures
            p == self.percent_spec(),
    {
        proof {
            use_type_invariant(self);
        }
        let n: u64 = self.num as u64;
        (100 * n) / (self.den as u64)
    }

    pub fn same_value(&self, other: &Scale) -> (b: bool)
        ensures
            b == self.same_value_spec(*other),
    {
        let lhs: u64 = product(self.num, other.den);
        let rhs: u64 = product(other.num, self.den);
        lhs == rhs
    }
}

impl Correction {
    pub closed spec fn numer(self) -> int {
        self.num as int
    }

    pub closed spec fn denom(self) -> int {
        self.den as int
    }

    /// Both parts are positive and fit in 64 bits.
    #[verifier::type_invariant]
    pub open spec fn wf(self) -> bool {
        &&& 0 < self.numer() <= u64::MAX
        &&& 0 < self.denom() <= u64::MAX
    }

    /// Whether two corrections denote the same rational.
    pub open spec fn same_value_spec(self, other: Correction) -> bool {
        self.numer() * other.denom() == other.numer() * self.denom()
    }

    /// The correction `num / den`, unless a part is zero.
    pub fn new(num: u64, den: u64) -> (r: Option<Correction>)
        ensures
            r is Some <==> num > 0 && den > 0,
            r matches Some(c) ==> c.wf() && c.numer() == num && c.denom() == den,
    {
        if num == 0 || den == 0 {
            None
        } else {
            Some(Correction { num, den })
        }
    }

    pub fn num(&self) -> (n: u64)
        ensures
            n == self.numer(),
            self.wf(),
    {
        proof {
            use_type_invariant(self);
        }
        self.num
    }

    pub fn den(&self) -> (d: u64)
        ensures
            d == self.denom(),
            self.wf(),
    {
        proof {
            use_type_invariant(self);
        }
        self.den
    }

    pub fn same_value(&self, other: &Correction) -> (b: bool)
        ensures
            b == self.same_value_spec(*other),
    {
        let lhs: u128 = wide_product(self.num, other.den);
        let rhs: u128 = wide_product(other.num, self.den);
        lhs == rhs
    }
}

/// A nominal scale together with its correction. The total scale is their
/// product, the rational `total_numer / total_denom`.
#[derive(Clone, Copy, Debug)]
pub struct ScaleTransform {
    pub nominal_scale: Scale,
    pub correction_factor: Correction,
}

impl ScaleTransform {
    pub open spec fn wf(self) -> bool {
        self.nominal_scale.wf() && self.correction_factor.wf()
    }

    pub open spec fn total_numer(self) -> int {
        self.nominal_scale.numer() * self.correction_factor.numer()
    }

    pub open spec fn total_denom(self) -> int {
        self.nominal_scale.denom() * self.correction_factor.denom()
    }

    /// `floor(100 * total_numer / total_denom)`.
    pub open spec fn total_percent_spec(self) -> int {
        (100 * self.total_numer()) / self.total_denom()
    }

    /// A logical extent or coordinate in physical pixels: `logical` times the
    /// total scale, truncated toward zero.
    pub open spec fn physical(self, logical: int) -> int {
        scaled(logical, self.total_numer(), self.total_denom())
    }

    pub fn new(nominal_scale: Scale, correction_factor: Correction) -> (t: ScaleTransform)
        ensures
            t.nominal_scale == nominal_scale,
            t.correction_factor == correction_factor,
            t.wf(),
            t.total_numer() > 0,
            t.total_denom() > 0,
    {
        let t = ScaleTransform { nominal_scale, correction_factor };
        proof {
            use_type_invariant(&nominal_scale);
            use_type_invariant(&correction_factor);
            t.lemma_total_scale();
        }
        t
    }

    /// The total scale is the product of the nominal scale and the
    /// correction, and it is positive.
    pub proof fn lemma_total_scale(self)
        requires
            self.wf(),
        ensures
            self.total_numer() == self.nominal_scale.numer() * self.correction_factor.numer(),
            self.total_denom() == self.nominal_scale.denom() * self.correction_factor.denom(),
            0 < self.total_numer() <= 0xffff_ffff * 0xffff_ffff_ffff_ffff,
            0 < self.total_denom() <= 0xffff_ffff * 0xffff_ffff_ffff_ffff,
    {
        lemma_product_bounds(self.nominal_scale.numer(), self.correction_factor.numer());
        lemma_product_bounds(self.nominal_scale.denom(), self.correction_factor.denom());
    }

    /// With a total scale of at least one, a positive logical extent never
    /// shrinks: its physical extent is at least as large.
    pub proof fn lemma_never_shrinks(self, logical: int)
        requires
            self.wf(),
            logical > 0,
            self.total_numer() >= self.total_denom(),
        ensures
            self.physical(logical) >= logical,
    {
        self.lemma_total_scale();
        let n = self.total_numer();
        let d = self.total_denom();
        assert((logical * n) / d >= logical) by (nonlinear_arith)
            requires
                logical > 0,
                n >= d,
                d > 0,
        ;
    }

    pub fn total_num(&self) -> (n: u128)
        ensures
            n == self.total_numer(),
            self.wf(),
            0 < n <= 0xffff_ffff * 0xffff_ffff_ffff_ffff,
    {
        let a: u32 = self.nominal_scale.num();
        let b: u64 = self.correction_factor.num();
        proof {
            self.lemma_total_scale();
        }
        (a as u128) * (b as u128)
    }

    pub fn total_den(&self) -> (d: u128)
        ensures
            d == self.total_denom(),
            self.wf(),
            0 < d <= 0xffff_ffff * 0xffff_ffff_ffff_ffff,
    {
        let a: u32 = self.nominal_scale.den();
        let b: u64 = self.correction_factor.den();
        proof {
            self.lemma_total_scale();
        }
        (a as u128) * (b as u128)
    }

    /// The total scale as a whole percentage, truncated.
    pub fn total_percent(&self) -> (p: u128)
        ensures
            p == self.total_percent_spec(),
    {
        let n: u128 = self.total_num();
        let d: u128 = self.total_den();
        (100 * n) / d
    }

    /// A logical extent in physical pixels, unless it exceeds 32 bits.
    pub fn scale_dimension(&self, logical: u32) -> (r: Option<u32>)
        ensures
            r == (if self.physical(logical as int) <= u32::MAX {
                Some(self.physical(logical as int) as u32)
            } else {
                None
            }),
            self.physical(logical as int) >= 0,
            self.total_numer() >= self.total_denom() ==> self.physical(logical as int) >= logical,
    {
        let q: u128 = self.magnitude(logical as u64);
        proof {
            if logical > 0 && self.total_numer() >= self.total_denom() {
                self.lemma_never_shrinks(logical as int);
            }
        }
        if q <= u32::MAX as u128 {
            Some(q as u32)
        } else {
            None
        }
    }

    /// A logical coordinate in physical pixels, unless it leaves the range of
    /// a signed 32-bit coordinate.
    pub fn scale_coordinate(&self, logical: i32) -> (r: Option<i32>)
        ensures
            r == (if i32::MIN <= self.physical(logical as int) <= i32::MAX {
                Some(self.physical(logical as int) as i32)
            } else {
                None
            }),
    {
        if logical >= 0 {
            let q: u128 = self.magnitude(logical as u64);
            if q <= i32::MAX as u128 {
                Some(q as i32)
            } else {
                None
            }
        } else {
            let m: i64 = -(logical as i64);
            let q: u128 = self.magnitude(m as u64);
            if q <= 0x8000_0000u128 {
                let neg: i64 = -(q as i64);
                Some(neg as i32)
            } else {
                None
            }
        }
    }

    /// `floor(value * total)` for a magnitude of at most 32 bits.
    fn magnitude(&self, value: u64) -> (q: u128)
        requires
            value <= 0xffff_ffff,
        ensures
            q == (value * self.total_numer()) / self.total_denom(),
            self.wf(),
    {
        let n: u128 = self.total_num();
        let d: u128 = self.total_den();
        assert(value * n <= 0xffff_ffff * (0xffff_ffff * 0xffff_ffff_ffff_ffff)) by (nonlinear_arith)
            requires
                0 <= value <= 0xffff_ffff,
                0 <= n <= 0xffff_ffff * 0xffff_ffff_ffff_ffff,
        ;
        ((value as u128) * n) / d
    }
}

/// Bounds of a product of a 32-bit and a 64-bit positive value.
proof fn lemma_product_bounds(a: int, b: int)
    by (nonlinear_arith)
    requires
        0 < a <= 0xffff_ffff,
        0 < b <= 0xffff_ffff_ffff_ffff,
    ensures
        0 < a * b <= 0xffff_ffff * 0xffff_ffff_ffff_ffff,
{
}

/// The product of two 32-bit values, which always fits in 64 bits.
pub(crate) fn product(a: u32, b: u32) -> (p: u64)
    ensures
        p == a * b,
{
    assert(a * b <= 0xffff_ffff * 0xffff_ffff) by (nonlinear_arith)
        requires
            0 <= a <= 0xffff_ffff,
            0 <= b <= 0xffff_ffff,
    ;
    (a as u64) * (b as u64)
}

/// The product of two 64-bit values, which always fits in 128 bits.
pub(crate) fn wide_product(a: u64, b: u64) -> (p: u128)
    ensures
        p == a * b,
{
    assert(a * b <= 0xffff_ffff_ffff_ffff * 0xffff_ffff_ffff_ffff) by (nonlinear_arith)
        requires
            0 <= a <= 0xffff_ffff_ffff_ffff,
            0 <= b <= 0xffff_ffff_ffff_ffff,
    ;
    (a as u128) * (b as u128)
}

} // verus!
