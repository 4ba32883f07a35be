use vstd::prelude::*;

verus! {

/// 2^64, the weight of one 64-bit word.
pub open spec fn word_base() -> int {
    0x1_0000_0000_0000_0000
}

/// The largest value that 256 bits hold, 2^256 - 1.
pub open spec fn u256_max() -> int {
    word_base() * word_base() * word_base() * word_base() - 1
}

/// An unsigned 256-bit integer, held as four 64-bit words, least significant first.
#[derive(Clone, Copy, Debug, PartialEq, Eq)]
pub struct U256 {
    pub words: [u64; 4],
}

/// The number that four words stand for, least significant first.
pub open spec fn words_value(a: int, b: int, c: int, d: int) -> int {
    a + word_base() * (b + word_base() * (c + word_base() * d))
}

/// Four words stand for a number in `[0, 2^256 - 1]`.
pub proof fn lemma_words_bounds(a: int, b: int, c: int, d: int)
    requires
        0 <= a < word_base(),
        0 <= b < word_base(),
        0 <= c < word_base(),
        0 <= d < word_base(),
    ensures
        0 <= words_value(a, b, c, d) <= u256_max(),
{
    let w = word_base();
    assert(0 <= c + w * d <= w * w - 1) by (nonlinear_arith)
        requires
            0 <= c < w,
            0 <= d < w,
    ;
    let e = c + w * d;
    assert(0 <= b + w * e <= w * w * w - 1) by (nonlinear_arith)
        requires
            0 <= b < w,
            0 <= e <= w * w - 1,
    ;
    let f = b + w * e;
    assert(0 <= a + w * f <= w * w * w * w - 1) by (nonlinear_arith)
        requires
            0 <= a < w,
            0 <= f <= w * w * w - 1,
    ;
}

impl U256 {
    /// The number that the words stand for.
    pub open spec fn value(self) -> int {
        words_value(
            self.words@[0] as int,
            self.words@[1] as int,
            self.words@[2] as int,
            self.words@[3] as int,
        )
    }

    pub proof fn lemma_value_bounds(self)
        ensures
            0 <= self.value() <= u256_max(),
    {
        lemma_words_bounds(
            self.words@[0] as int,
            self.words@[1] as int,
            self.words@[2] as int,
            self.words@[3] as int,
        );
    }

    pub fn from_words(words: [u64; 4]) -> (r: U256)
        ensures
            r.words == words,
    {
        U256 { words }
    }

    pub fn to_words(&self) -> (r: [u64; 4])
        ensures
            r == self.words,
    {
        self.words
    }

    pub fn zero() -> (r: U256)
        ensures
            r.value() == 0,
    {
        let r = U256 { words: [0u64, 0u64, 0u64, 0u64] };
        assert(r.words@[0] == 0 && r.words@[1] == 0 && r.words@[2] == 0 && r.words@[3] == 0);
        r
    }

    pub fn max_value() -> (r: U256)
        ensures
            r.value() == u256_max(),
    {
        let m: u64 = 0xffff_ffff_ffff_ffff;
        let r = U256 { words: [m, m, m, m] };
        assert(r.words@[0] == m && r.words@[1] == m && r.words@[2] == m && r.words@[3] == m);
        assert(r.value() == u256_max());
        r
    }

    pub fn from_u64(x: u64) -> (r: U256)
        ensures
            r.value() == x,
    {
        let r = U256 { words: [x, 0u64, 0u64, 0u64] };
        assert(r.words@[0] == x && r.words@[1] == 0 && r.words@[2] == 0 && r.words@[3] == 0);
        r
    }

    /// Relies on `primitive_types::U256::full_mul`: the whole product, in 512 bits.
    #[verifier::external_body]
    pub(crate) fn full_mul(self, other: U256) -> (r: U512)
        ensures
            r.value() == self.value() * other.value(),
    {
        U512 { words: primitive_types::U256(self.words).full_mul(primitive_types::U256(other.words)).0 }
    }

    /// Relies on `primitive_types::U256::saturating_add`: the sum, or the maximum
    /// where the sum does not fit.
    #[verifier::external_body]
    pub(crate) fn saturating_add(self, other: U256) -> (r: U256)
        ensures
            r.value() == if self.value() + other.value() <= u256_max() {
                self.value() + other.value()
            } else {
                u256_max()
            },
    {
        U256 { words: primitive_types::U256(self.words).saturating_add(primitive_types::U256(other.words)).0 }
    }

    /// Relies on `primitive_types::U256::saturating_sub`: the difference, or zero
    /// where it would be negative.
    #[verifier::external_body]
    pub(crate) fn saturating_sub(self, other: U256) -> (r: U256)
        ensures
            r.value() == if self.value() >= other.value() {
                self.value() - other.value()
            } else {
                0
            },
    {
        U256 { words: primitive_types::U256(self.words).saturating_sub(primitive_types::U256(other.words)).0 }
    }
}

/// An unsigned 512-bit integer, held as eight 64-bit words, least significant first.
#[derive(Clone, Copy, Debug, PartialEq, Eq)]
pub struct U512 {
    pub words: [u64; 8],
}

impl U512 {
    /// The number that the words stand for: the low four words, plus 2^256 times
    /// the high four.
    pub open spec fn value(self) -> int {
        words_value(
            self.words@[0] as int,
            self.words@[1] as int,
            self.words@[2] as int,
            self.words@[3] as int,
        ) + (u256_max() + 1) * words_value(
            self.words@[4] as int,
            self.words@[5] as int,
            self.words@[6] as int,
            self.words@[7] as int,
        )
    }

    pub fn from_u64(x: u64) -> (r: U512)
        ensures
            r.value() == x,
    {
        let z: u64 = 0;
        let r = U512 { words: [x, z, z, z, z, z, z, z] };
        assert(r.words@[0] == x);
        assert(r.words@[1] == 0 && r.words@[2] == 0 && r.words@[3] == 0);
        assert(r.words@[4] == 0 && r.words@[5] == 0 && r.words@[6] == 0 && r.words@[7] == 0);
        assert(words_value(0, 0, 0, 0) == 0);
        assert(words_value(x as int, 0, 0, 0) == x);
        assert((u256_max() + 1) * 0 == 0);
        r
    }

    /// The low 256 bits, which hold the whole value where it fits.
    pub fn low_u256(self) -> (r: U256)
        requires
            self.value() <= u256_max(),
        ensures
            r.value() == self.value(),
    {
        let r = U256 { words: [self.words[0], self.words[1], self.words[2], self.words[3]] };
        proof {
            let lo = r.value();
            let hi = words_value(
                self.words@[4] as int,
                self.words@[5] as int,
                self.words@[6] as int,
                self.words@[7] as int,
            );
            r.lemma_value_bounds();
            lemma_words_bounds(
                self.words@[4] as int,
                self.words@[5] as int,
                self.words@[6] as int,
                self.words@[7] as int,
            );
            assert(lo == words_value(
                self.words@[0] as int,
                self.words@[1] as int,
                self.words@[2] as int,
                self.words@[3] as int,
            ));
            assert(hi == 0) by (nonlinear_arith)
                requires
                    lo + (u256_max() + 1) * hi <= u256_max(),
                    0 <= lo,
                    0 <= hi,
                    u256_max() > 0,
            ;
            assert(self.value() == lo + (u256_max() + 1) * hi);
            assert((u256_max() + 1) * hi == 0) by (nonlinear_arith)
                requires
                    hi == 0,
            ;
        }
        r
    }

    /// Relies on `primitive_types::U512::checked_div`: the quotient rounded down, or
    /// `None` for a zero divisor.
    #[verifier::external_body]
    pub(crate) fn checked_div(self, other: U512) -> (r: Option<U512>)
        ensures
            r is Some <==> other.value() != 0,
            r is Some ==> r->0.value() == self.value() / other.value(),
    {
        primitive_types::U512(self.words).checked_div(primitive_types::U512(other.words)).map(
            |p| U512 { words: p.0 },
        )
    }
}

} // verus!
