use vstd::prelude::*;

verus! {

/// Parts per million that make a whole.
pub const ACCURACY: u32 = 1_000_000;

/// A fraction in [0, 1], counted in millionths.
#[derive(Clone, Copy, Debug, PartialEq, Eq, Structural)]
pub struct Permill {
    pub parts: u32,
}

/// `p / q` in millionths, rounded down, and the whole where `q` is zero or `p >= q`.
pub open spec fn rational_parts(p: int, q: int) -> int {
    if q <= 0 || p >= q {
        ACCURACY as int
    } else {
        p * (ACCURACY as int) / q
    }
}

impl Permill {
    pub open spec fn wf(self) -> bool {
        self.parts <= ACCURACY
    }

    /// The fraction with `parts` millionths, capped at the whole.
    pub fn from_parts(parts: u32) -> (r: Permill)
        ensures
            r.wf(),
            r.parts == if parts <= ACCURACY { parts } else { ACCURACY },
    {
        if parts <= ACCURACY {
            Permill { parts }
        } else {
            Permill { parts: ACCURACY }
        }
    }

    pub fn zero() -> (r: Permill)
        ensures
            r.wf(),
            r.parts == 0,
    {
        Permill { parts: 0 }
    }

    pub fn one() -> (r: Permill)
        ensures
            r.wf(),
            r.parts == ACCURACY,
    {
        Permill { parts: ACCURACY }
    }

    pub fn deconstruct(&self) -> (r: u32)
        ensures
            r == self.parts,
    {
        self.parts
    }

    /// The fraction `p / q`, rounded down; the whole where `q` is zero or `p >= q`.
    pub fn from_rational(p: u64, q: u64) -> (r: Permill)
        ensures
            r.wf(),
            r.parts == rational_parts(p as int, q as int),
    {
        if q == 0 || p >= q {
            Permill { parts: ACCURACY }
        } else {
            assert(p as int * ACCURACY as int <= 0xffff_ffff_ffff_ffff * 1_000_000) by (nonlinear_arith)
                requires
                    p <= 0xffff_ffff_ffff_ffff,
            ;
            let n: u128 = p as u128 * ACCURACY as u128;
            let d: u128 = n / q as u128;
            assert(d < ACCURACY) by (nonlinear_arith)
                requires
                    d == n as int / q as int,
                    n == p * ACCURACY as int,
                    p < q,
            ;
            Permill { parts: d as u32 }
        }
    }

    /// The product of two fractions, rounded down.
    pub fn mul(self, rhs: Permill) -> (r: Permill)
        requires
            self.wf(),
            rhs.wf(),
        ensures
            r.wf(),
            r.parts == (self.parts as int * rhs.parts as int) / (ACCURACY as int),
    {
        assert(self.parts as int * rhs.parts as int <= 1_000_000 * 1_000_000) by (nonlinear_arith)
            requires
                self.parts <= 1_000_000,
                rhs.parts <= 1_000_000,
        ;
        let n: u64 = self.parts as u64 * rhs.parts as u64;
        let d: u64 = n / ACCURACY as u64;
        assert(d <= rhs.parts) by (nonlinear_arith)
            requires
                d == n as int / ACCURACY as int,
                n == self.parts * rhs.parts,
                self.parts <= ACCURACY,
        ;
        Permill { parts: d as u32 }
    }

    /// `self` held within `[lower, upper]`.
    pub fn clamp(self, lower: Permill, upper: Permill) -> (r: Permill)
        requires
            lower.parts <= upper.parts,
        ensures
            r.parts == if self.parts < lower.parts {
                lower.parts
            } else if self.parts > upper.parts {
                upper.parts
            } else {
                self.parts
            },
    {
        if self.parts < lower.parts {
            lower
        } else if self.parts > upper.parts {
            upper
        } else {
            self
        }
    }
}

} // verus!
