//! 256-bit unsigned integers, used for the intermediate products of the
//! balance formulas. A value is a pair of 128-bit halves.
use vstd::prelude::*;
use vstd::arithmetic::div_mod::*;
use vstd::arithmetic::mul::*;
use vstd::arithmetic::power2::*;

verus! {

/// 2^64 as a mathematical integer.
pub open spec fn b64() -> nat {
    0x1_0000_0000_0000_0000nat
}

/// 2^128 as a mathematical integer.
pub open spec fn b128() -> nat {
    0x1_0000_0000_0000_0000_0000_0000_0000_0000nat
}

/// 2^256 as a mathematical integer.
pub open spec fn b256() -> nat {
    b128() * b128()
}

/// An unsigned 256-bit integer `hi * 2^128 + lo`.
#[derive(Clone, Copy, Debug, PartialEq, Eq, Structural)]
pub struct U256 {
    pub hi: u128,
    pub lo: u128,
}

impl View for U256 {
    type V = nat;

    open spec fn view(&self) -> nat {
        (self.hi * b128() + self.lo) as nat
    }
}

/// The 256-bit value of a number below 2^256.
pub open spec fn u256_of(n: nat) -> U256 {
    U256 { hi: (n / b128()) as u128, lo: (n % b128()) as u128 }
}

/// A value is determined by the number it stands for.
pub proof fn lemma_canonical(x: U256)
    ensures
        u256_of(x@) == x,
{
    lemma_fundamental_div_mod_converse(x@ as int, b128() as int, x.hi as int, x.lo as int);
}

pub proof fn lemma_view_bound(x: U256)
    ensures
        x@ < b256(),
{
    assert(x.hi * b128() <= (b128() - 1) * b128()) by (nonlinear_arith)
        requires
            x.hi < b128(),
    ;
}

/// Splits `a * b` into two 128-bit halves.
proof fn lemma_wide_mul(a: int, b: int, a0: int, a1: int, b0: int, b1: int)
    requires
        0 <= a0 < b64(),
        0 <= a1 < b64(),
        0 <= b0 < b64(),
        0 <= b1 < b64(),
        a == a1 * b64() + a0,
        b == b1 * b64() + b0,
    ensures
        a * b == a1 * b1 * b128() + (a0 * b1 + a1 * b0) * b64() + a0 * b0,
{
    assert(b128() == b64() * b64());
    assert(a * b == a1 * b1 * (b64() * b64()) + (a0 * b1 + a1 * b0) * b64() + a0 * b0)
        by (nonlinear_arith)
        requires
            a == a1 * b64() + a0,
            b == b1 * b64() + b0,
    ;
}

/// The full 256-bit product of two 128-bit numbers.
pub fn wide_mul(a: u128, b: u128) -> (r: U256)
    ensures
        r@ == a * b,
{
    let base: u128 = 0x1_0000_0000_0000_0000;
    let a0 = a % base;
    let a1 = a / base;
    let b0 = b % base;
    let b1 = b / base;
    proof {
        lemma_fundamental_div_mod(a as int, base as int);
        lemma_fundamental_div_mod(b as int, base as int);
        assert(a1 < b64()) by {
            lemma_div_is_ordered(a as int, (b128() - 1) as int, b64() as int);
        }
        assert(b1 < b64()) by {
            lemma_div_is_ordered(b as int, (b128() - 1) as int, b64() as int);
        }
        assert(a0 * b0 < b128()) by (nonlinear_arith)
            requires a0 < b64(), b0 < b64(), b128() == b64() * b64();
        assert(a0 * b1 < b128()) by (nonlinear_arith)
            requires a0 < b64(), b1 < b64(), b128() == b64() * b64();
        assert(a1 * b0 < b128()) by (nonlinear_arith)
            requires a1 < b64(), b0 < b64(), b128() == b64() * b64();
        assert(a1 * b1 < b128()) by (nonlinear_arith)
            requires a1 < b64(), b1 < b64(), b128() == b64() * b64();
    }
    let p00 = a0 * b0;
    let p01 = a0 * b1;
    let p10 = a1 * b0;
    let p11 = a1 * b1;
    proof {
        lemma_fundamental_div_mod(p00 as int, base as int);
        lemma_fundamental_div_mod(p01 as int, base as int);
        lemma_fundamental_div_mod(p10 as int, base as int);
        lemma_div_is_ordered(p00 as int, (b128() - 1) as int, b64() as int);
        lemma_div_is_ordered(p01 as int, (b128() - 1) as int, b64() as int);
        lemma_div_is_ordered(p10 as int, (b128() - 1) as int, b64() as int);
        lemma_mod_bound(p00 as int, base as int);
        lemma_mod_bound(p01 as int, base as int);
        lemma_mod_bound(p10 as int, base as int);
    }
    let mid = p00 / base + p01 % base + p10 % base;
    proof {
        lemma_fundamental_div_mod(mid as int, base as int);
        lemma_mod_bound(mid as int, base as int);
        lemma_div_is_ordered(mid as int, (3 * b64()) as int, b64() as int);
        lemma_wide_mul(a as int, b as int, a0 as int, a1 as int, b0 as int, b1 as int);
        assert(b128() == b64() * b64());
        let lo_i = (p00 % base) + (mid % base) * base;
        assert((mid % base) * base <= (b64() - 1) * b64()) by (nonlinear_arith)
            requires mid % base < b64(), base == b64();
        let hi_i = p11 + p01 / base + p10 / base + mid / base;
        // a * b = hi * 2^128 + lo
        assert(a * b == hi_i * b128() + lo_i) by (nonlinear_arith)
            requires
                a * b == p11 * b128() + (p01 + p10) * b64() + p00,
                p00 == b64() * (p00 / base) + p00 % base,
                p01 == b64() * (p01 / base) + p01 % base,
                p10 == b64() * (p10 / base) + p10 % base,
                mid == b64() * (mid / base) + mid % base,
                mid == p00 / base + p01 % base + p10 % base,
                b128() == b64() * b64(),
                base == b64(),
                lo_i == (p00 % base) + (mid % base) * base,
                hi_i == p11 + p01 / base + p10 / base + mid / base,
        ;
        assert(a * b <= (b128() - 1) * (b128() - 1)) by (nonlinear_arith)
            requires a < b128(), b < b128();
        assert(hi_i < b128()) by (nonlinear_arith)
            requires
                a * b == hi_i * b128() + lo_i,
                lo_i >= 0,
                a * b <= (b128() - 1) * (b128() - 1),
                hi_i >= 0,
        ;
    }
    let lo = (p00 % base) + (mid % base) * base;
    let hi = p11 + p01 / base + p10 / base + mid / base;
    U256 { hi, lo }
}


/// Step of the long division: shifting one more bit of the dividend in.
proof fn lemma_div_step(q: int, r: int, d: int, pm: int, rest: int, bit: int, n: int)
    requires
        d > 0,
        pm >= 2,
        pm % 2 == 0,
        0 <= r < d,
        q >= 0,
        0 <= rest < pm,
        bit == 0 || bit == 1,
        bit == 1 <==> rest >= pm / 2,
        (q * d + r) * pm + rest == n,
    ensures
        (2 * q * d + (2 * r + bit)) * (pm / 2) + (rest - bit * (pm / 2)) == n,
        0 <= rest - bit * (pm / 2) < pm / 2,
{
    let h = pm / 2;
    assert(pm == 2 * h);
    assert((2 * q * d + (2 * r + bit)) * h + (rest - bit * h) == (q * d + r) * (2 * h) + rest)
        by (nonlinear_arith);
}

/// The quotient stays below 2^128 while the dividend is below d * 2^128.
proof fn lemma_quot_bound(q: int, d: int, r: int, h: int, rest: int, n: int)
    requires
        d > 0,
        h >= 1,
        q >= 0,
        r >= 0,
        rest >= 0,
        q * d <= q * d + r,
        (q * d + r) * h + rest == n,
        n < d * b128(),
    ensures
        q < b128(),
{
    assert(q * d * h <= n) by (nonlinear_arith)
        requires (q * d + r) * h + rest == n, r >= 0, rest >= 0, h >= 1, q >= 0, d > 0;
    assert(q * h < b128()) by (nonlinear_arith)
        requires q * d * h <= n, n < d * b128(), d > 0;
    assert(q <= q * h) by (nonlinear_arith)
        requires h >= 1, q >= 0;
}

/// Divides `rh * 2^128 + lo` by `d`, where `rh < d`: quotient and remainder.
fn div_wide(rh: u128, lo: u128, d: u128) -> (res: (u128, u128))
    requires
        d > 0,
        rh < d,
    ensures
        res.0 * d + res.1 == rh * b128() + lo,
        res.1 < d,
{
    let ghost n: int = rh * b128() + lo;
    proof {
        assert(n < d * b128()) by (nonlinear_arith)
            requires n == rh * b128() + lo, lo < b128(), rh < d;
    }
    let mut q: u128 = 0;
    let mut r: u128 = rh;
    let mut rest: u128 = lo;
    let mut p: u128 = 0x8000_0000_0000_0000_0000_0000_0000_0000;
    let mut m: u32 = 128;
    let ghost mut pm: int = b128() as int;
    proof {
        lemma2_to64();
        lemma2_to64_rest();
        lemma_pow2_adds(64, 64);
        lemma_pow2_adds(63, 64);
        assert(pow2(63) == 0x8000_0000_0000_0000);
        assert(pow2(64) == 0x1_0000_0000_0000_0000);
        assert(pow2(127) == 0x8000_0000_0000_0000_0000_0000_0000_0000);
        assert(pow2(128) == b128());
    }
    while m > 0
        invariant
            d > 0,
            n < d * b128(),
            m <= 128,
            r < d,
            0 <= rest < pm,
            pm >= 1,
            pm == pow2(m as nat),
            m > 0 ==> p == pow2((m - 1) as nat),
            (q * d + r) * pm + rest == n,
        decreases m,
    {
        proof {
            lemma_pow2_unfold(m as nat);
            lemma_pow2_pos((m - 1) as nat);
            if m > 1 {
                lemma_pow2_unfold((m - 1) as nat);
            }
        }
        let bit: u128 = if rest >= p { 1 } else { 0 };
        let ghost old_q = q;
        let ghost old_r = r;
        proof {
            lemma_div_step(q as int, r as int, d as int, pm, rest as int, bit as int, n);
        }
        if rest >= p {
            rest = rest - p;
        }
        let ghost h: int = pm / 2;
        let ghost r2: int = 2 * r + bit;
        if r >= 0x8000_0000_0000_0000_0000_0000_0000_0000 || 2 * r + bit >= d {
            // the shifted remainder reaches the divisor
            proof {
                assert(r2 >= d);
                assert((2 * q * d + r2) == (2 * q + 1) * d + (r2 - d)) by (nonlinear_arith);
                assert(((2 * q + 1) * d + (r2 - d)) * h + rest == n);
                lemma_quot_bound((2 * q + 1) as int, d as int, r2 - d, h, rest as int, n);
            }
            r = (r + bit) - (d - r);
            q = 2 * q + 1;
        } else {
            proof {
                assert(2 * q * d == (2 * q) * d) by (nonlinear_arith);
                assert(((2 * q) * d + r2) * h + rest == n);
                lemma_quot_bound((2 * q) as int, d as int, r2, h, rest as int, n);
            }
            r = 2 * r + bit;
            q = 2 * q;
        }
        proof {
            pm = h;
        }
        if m > 1 {
            p = p / 2;
        } else {
            p = 0;
        }
        m = m - 1;
    }
    proof {
        assert(pm == 1) by { reveal(pow2); }
        assert((q * d + r) * 1 + rest == n);
        assert(rest == 0);
    }
    (q, r)
}


impl U256 {
    /// Zero.
    pub fn zero() -> (r: U256)
        ensures
            r@ == 0,
    {
        U256 { hi: 0, lo: 0 }
    }

    /// The value `x`.
    pub fn from_u128(x: u128) -> (r: U256)
        ensures
            r@ == x,
    {
        U256 { hi: 0, lo: x }
    }

    /// Sum, or `None` when it reaches 2^256.
    pub fn checked_add(self, other: U256) -> (r: Option<U256>)
        ensures
            match r {
                Some(v) => v@ == self@ + other@,
                None => self@ + other@ >= b256(),
            },
    {
        let (lo, carry) = if self.lo <= u128::MAX - other.lo {
            (self.lo + other.lo, 0u128)
        } else {
            (self.lo - (u128::MAX - other.lo) - 1, 1u128)
        };
        proof {
            lemma_view_bound(self);
            lemma_view_bound(other);
        }
        match self.hi.checked_add(other.hi) {
            None => {
                proof {
                    assert(self.hi * b128() + other.hi * b128() >= b128() * b128())
                        by (nonlinear_arith)
                        requires self.hi + other.hi >= b128();
                }
                None
            },
            Some(h) => match h.checked_add(carry) {
                None => {
                    proof {
                        assert(self.hi * b128() + other.hi * b128() + b128() >= b128() * b128())
                            by (nonlinear_arith)
                            requires self.hi + other.hi + 1 >= b128();
                    }
                    None
                },
                Some(hi) => {
                    proof {
                        assert(hi * b128() == self.hi * b128() + other.hi * b128() + carry * b128())
                            by (nonlinear_arith)
                            requires hi == self.hi + other.hi + carry;
                    }
                    Some(U256 { hi, lo })
                },
            },
        }
    }

    /// Difference, or `None` when `other` exceeds `self`.
    pub fn checked_sub(self, other: U256) -> (r: Option<U256>)
        ensures
            match r {
                Some(v) => v@ == self@ - other@,
                None => self@ < other@,
            },
    {
        if self.hi < other.hi || (self.hi == other.hi && self.lo < other.lo) {
            proof {
                if self.hi < other.hi {
                    assert(self.hi * b128() + b128() <= other.hi * b128()) by (nonlinear_arith)
                        requires self.hi + 1 <= other.hi;
                }
            }
            None
        } else if self.lo >= other.lo {
            let hi = self.hi - other.hi;
            proof {
                assert(hi * b128() == self.hi * b128() - other.hi * b128()) by (nonlinear_arith)
                    requires hi == self.hi - other.hi;
            }
            Some(U256 { hi, lo: self.lo - other.lo })
        } else {
            let hi = self.hi - other.hi - 1;
            let lo = (u128::MAX - other.lo) + self.lo + 1;
            proof {
                assert(hi * b128() == self.hi * b128() - other.hi * b128() - b128())
                    by (nonlinear_arith)
                    requires hi == self.hi - other.hi - 1;
            }
            Some(U256 { hi, lo })
        }
    }

    /// Product with a 128-bit factor, or `None` when it reaches 2^256.
    fn checked_mul_u128(self, b: u128) -> (r: Option<U256>)
        ensures
            match r {
                Some(v) => v@ == self@ * b,
                None => self@ * b >= b256(),
            },
    {
        let low = wide_mul(self.lo, b);
        proof {
            assert(self@ * b == (self.hi * b) * b128() + self.lo * b) by (nonlinear_arith)
                requires self@ == self.hi * b128() + self.lo;
        }
        match self.hi.checked_mul(b) {
            None => {
                proof {
                    assert((self.hi * b) * b128() >= b128() * b128()) by (nonlinear_arith)
                        requires self.hi * b >= b128();
                    assert(self.lo * b >= 0) by (nonlinear_arith);
                }
                None
            },
            Some(hb) => match hb.checked_add(low.hi) {
                None => {
                    proof {
                        assert((hb + low.hi) * b128() >= b128() * b128()) by (nonlinear_arith)
                            requires hb + low.hi >= b128();
                    }
                    None
                },
                Some(hi) => {
                    proof {
                        assert(hi * b128() == hb * b128() + low.hi * b128()) by (nonlinear_arith)
                            requires hi == hb + low.hi;
                    }
                    Some(U256 { hi, lo: low.lo })
                },
            },
        }
    }

    /// Product, or `None` when it reaches 2^256.
    pub fn checked_mul(self, other: U256) -> (r: Option<U256>)
        ensures
            match r {
                Some(v) => v@ == self@ * other@,
                None => self@ * other@ >= b256(),
            },
    {
        if self.hi != 0 && other.hi != 0 {
            proof {
                assert(self@ >= b128() && other@ >= b128());
                assert(self@ * other@ >= b128() * b128()) by (nonlinear_arith)
                    requires self@ >= b128(), other@ >= b128();
            }
            None
        } else if other.hi == 0 {
            self.checked_mul_u128(other.lo)
        } else {
            proof {
                assert(self@ * other@ == other@ * self.lo) by (nonlinear_arith)
                    requires self@ == self.lo;
            }
            other.checked_mul_u128(self.lo)
        }
    }

    /// Quotient by a divisor below 2^128, or `None` when the divisor is zero.
    pub fn checked_div_u128(self, d: u128) -> (r: Option<U256>)
        ensures
            match r {
                Some(v) => d > 0 && v@ == self@ / (d as nat),
                None => d == 0,
            },
    {
        if d == 0 {
            return None;
        }
        let qh = self.hi / d;
        let rh = self.hi % d;
        proof {
            lemma_fundamental_div_mod(self.hi as int, d as int);
            lemma_mod_bound(self.hi as int, d as int);
        }
        let (ql, rem) = div_wide(rh, self.lo, d);
        let q = U256 { hi: qh, lo: ql };
        proof {
            assert(self@ == q@ * d + rem) by (nonlinear_arith)
                requires
                    self@ == self.hi * b128() + self.lo,
                    self.hi == d * qh + rh,
                    ql * d + rem == rh * b128() + self.lo,
                    q@ == qh * b128() + ql,
            ;
            lemma_fundamental_div_mod_converse(self@ as int, d as int, q@ as int, rem as int);
        }
        Some(q)
    }

    /// Quotient by a 256-bit divisor whose value is below 2^128.
    pub fn checked_div(self, d: U256) -> (r: Option<U256>)
        requires
            d.hi == 0,
        ensures
            match r {
                Some(v) => d@ > 0 && v@ == self@ / d@,
                None => d@ == 0,
            },
    {
        self.checked_div_u128(d.lo)
    }

    /// The value as a `u128`, or `None` when it does not fit.
    pub fn to_u128(self) -> (r: Option<u128>)
        ensures
            match r {
                Some(v) => v == self@,
                None => self@ >= b128(),
            },
    {
        if self.hi == 0 {
            Some(self.lo)
        } else {
            proof {
                assert(self.hi * b128() >= b128()) by (nonlinear_arith)
                    requires self.hi >= 1;
            }
            None
        }
    }

    /// `self <= other`.
    pub fn le(&self, other: &U256) -> (r: bool)
        ensures
            r == (self@ <= other@),
    {
        proof {
            if self.hi < other.hi {
                assert(self.hi * b128() + b128() <= other.hi * b128()) by (nonlinear_arith)
                    requires self.hi + 1 <= other.hi;
            } else if self.hi > other.hi {
                assert(other.hi * b128() + b128() <= self.hi * b128()) by (nonlinear_arith)
                    requires other.hi + 1 <= self.hi;
            }
        }
        self.hi < other.hi || (self.hi == other.hi && self.lo <= other.lo)
    }

    /// `self == other` as numbers.
    pub fn eq_value(&self, other: &U256) -> (r: bool)
        ensures
            r == (self@ == other@),
    {
        proof {
            if self.hi < other.hi {
                assert(self.hi * b128() + b128() <= other.hi * b128()) by (nonlinear_arith)
                    requires self.hi + 1 <= other.hi;
            } else if self.hi > other.hi {
                assert(other.hi * b128() + b128() <= self.hi * b128()) by (nonlinear_arith)
                    requires other.hi + 1 <= self.hi;
            }
        }
        self.hi == other.hi && self.lo == other.lo
    }
}

} // verus!
