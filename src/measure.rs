//! Exact binary-scientific numbers: a reading such as a temperature is held as
//! `mantissa * 2^exponent`, which represents every finite IEEE double exactly,
//! so comparisons against thresholds never round.
use vstd::arithmetic::power2::*;
use vstd::prelude::*;

verus! {

/// The number `mantissa * 2^exponent`.
#[derive(Clone, Copy, Debug, PartialEq, Eq)]
pub struct Measure {
    pub mantissa: i64,
    pub exponent: i32,
}

impl Measure {
    /// `self` as an integer, for comparison with an integer `k`: when the
    /// exponent is negative both sides are scaled by `2^-exponent`, which
    /// leaves the mantissa here and `k * 2^-exponent` on the other side.
    pub open spec fn scaled_self(self) -> int {
        if self.exponent >= 0 {
            self.mantissa * pow2(self.exponent as nat)
        } else {
            self.mantissa as int
        }
    }

    /// `k`, scaled as `scaled_self` scales `self`.
    pub open spec fn scaled_bound(self, k: int) -> int {
        if self.exponent >= 0 {
            k
        } else {
            k * pow2((-self.exponent) as nat)
        }
    }

    /// `self < k`.
    pub open spec fn below(self, k: int) -> bool {
        self.scaled_self() < self.scaled_bound(k)
    }

    /// `self == k`.
    pub open spec fn equals(self, k: int) -> bool {
        self.scaled_self() == self.scaled_bound(k)
    }

    /// `self <= k`.
    pub open spec fn at_most(self, k: int) -> bool {
        self.below(k) || self.equals(k)
    }

    /// Compares `self` with the integer `k`: `-1` when below, `0` when equal,
    /// `1` when above.
    pub fn compare_with(&self, k: i64) -> (r: i8)
        requires
            0 <= k <= 100,
        ensures
            r == -1 <==> self.below(k as int),
            r == 0 <==> self.equals(k as int),
            r == 1 <==> !self.at_most(k as int),
    {
        let m = self.mantissa;
        if self.exponent >= 0 {
            let e = self.exponent as u32;
            if m == 0 {
                assert(self.scaled_self() == 0) by (nonlinear_arith)
                    requires
                        self.scaled_self() == m * pow2(e as nat),
                        m == 0,
                ;
                return if k == 0 {
                    0
                } else {
                    -1
                };
            }
            if e >= 7 {
                proof {
                    lemma2_to64();
                    if e > 7 {
                        lemma_pow2_strictly_increases(7, e as nat);
                    }
                    lemma_scaled_far(m as int, pow2(e as nat) as int);
                }
                return if m > 0 {
                    1
                } else {
                    -1
                };
            }
            let p = pow2_below_64(e);
            proof {
                lemma_product_fits(m as int, p as int);
            }
            let lhs: i128 = (m as i128) * (p as i128);
            assert(lhs == self.scaled_self());
            if lhs < k as i128 {
                -1
            } else if lhs == k as i128 {
                0
            } else {
                1
            }
        } else {
            let d: i64 = -(self.exponent as i64);
            if k == 0 {
                assert(self.scaled_bound(0) == 0);
                return if m < 0 {
                    -1
                } else if m == 0 {
                    0
                } else {
                    1
                };
            }
            if d >= 63 {
                proof {
                    lemma2_to64_rest();
                    if d > 63 {
                        lemma_pow2_strictly_increases(63, d as nat);
                    }
                    lemma_bound_far(k as int, pow2(d as nat) as int);
                }
                return -1;
            }
            let p = pow2_below_64(d as u32);
            proof {
                lemma_product_fits(k as int, p as int);
            }
            let rhs: i128 = (k as i128) * (p as i128);
            assert(rhs == self.scaled_bound(k as int));
            if (m as i128) < rhs {
                -1
            } else if (m as i128) == rhs {
                0
            } else {
                1
            }
        }
    }
}

proof fn lemma_scaled_far(m: int, p: int)
    requires
        m != 0,
        p >= 128,
    ensures
        m > 0 ==> m * p >= 128,
        m < 0 ==> m * p <= -128,
{
    if m > 0 {
        assert(m * p >= 128) by (nonlinear_arith)
            requires
                m >= 1,
                p >= 128,
        ;
    } else {
        assert(m * p <= -128) by (nonlinear_arith)
            requires
                m <= -1,
                p >= 128,
        ;
    }
}

proof fn lemma_bound_far(k: int, p: int)
    requires
        k >= 1,
        p >= 0x8000_0000_0000_0000,
    ensures
        k * p >= 0x8000_0000_0000_0000,
{
    assert(k * p >= p) by (nonlinear_arith)
        requires
            k >= 1,
            p >= 0,
    ;
}

proof fn lemma_product_fits(a: int, p: int)
    requires
        -0x8000_0000_0000_0000 <= a < 0x8000_0000_0000_0000,
        0 <= p < 0x1_0000_0000_0000_0000,
    ensures
        -0x8000_0000_0000_0000_0000_0000_0000_0000 <= a * p < 0x8000_0000_0000_0000_0000_0000_0000_0000,
{
    assert(-0x8000_0000_0000_0000_0000_0000_0000_0000 <= a * p < 0x8000_0000_0000_0000_0000_0000_0000_0000)
        by (nonlinear_arith)
        requires
            -0x8000_0000_0000_0000 <= a < 0x8000_0000_0000_0000,
            0 <= p < 0x1_0000_0000_0000_0000,
    ;
}

/// `2^e` for an exponent below 64.
fn pow2_below_64(e: u32) -> (r: u64)
    requires
        e < 64,
    ensures
        r == pow2(e as nat),
{
    let mut r: u64 = 1;
    let mut i: u32 = 0;
    proof {
        lemma2_to64();
    }
    while i < e
        invariant
            i <= e < 64,
            r == pow2(i as nat),
        decreases e - i,
    {
        proof {
            lemma_pow2_unfold((i + 1) as nat);
            lemma2_to64_rest();
            if i + 1 < 64 {
                lemma_pow2_strictly_increases((i + 1) as nat, 64);
            }
        }
        r = r * 2;
        i = i + 1;
    }
    r
}

} // verus!
