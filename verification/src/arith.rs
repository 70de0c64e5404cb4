//! The arithmetic of the verbose numeral facility, on signed verbose
//! numerals: addition, subtraction, multiplication, truncating and exact
//! division, maximum, minimum, greatest common divisor, three-way
//! comparison, negation, absolute value, binary logarithm and integer
//! square root.
//!
//! Division truncates toward zero (the magnitudes are floor-divided and
//! the sign is applied afterwards) and is undefined for a zero divisor;
//! exact division additionally demands a zero remainder; the greatest
//! common divisor is taken over magnitudes and is never negative; the
//! logarithm is defined for positive numbers only and the square root for
//! nonnegative ones, both rounding down.

use vstd::prelude::*;

use crate::verbose::Typenum;
use crate::verbose::Uint;
use crate::verbose::abs_int;

verus! {

/// The outcome of a three-way comparison.
#[derive(Clone, Copy, PartialEq, Eq, Debug)]
pub enum Ordering {
    Less,
    Equal,
    Greater,
}

/// The quotient of truncating division: magnitudes are floor-divided and
/// the sign of the result is the product of the operand signs.
pub open spec fn tn_div(l: int, r: int) -> int
    recommends
        r != 0,
{
    let q = (abs_int(l) / abs_int(r)) as int;
    if (l < 0) == (r < 0) {
        q
    } else {
        -q
    }
}

/// The greatest common divisor of two natural numbers, by Euclid's
/// algorithm; `gcd_nat(0, 0) == 0`.
pub open spec fn gcd_nat(a: nat, b: nat) -> nat
    decreases b,
{
    if b == 0 {
        a
    } else {
        gcd_nat(b, a % b)
    }
}

/// The binary logarithm of a natural number, rounded down; zero for
/// inputs below two.
pub open spec fn log2_nat(n: nat) -> nat
    decreases n,
{
    if n <= 1 {
        0
    } else {
        1 + log2_nat(n / 2)
    }
}

/// The square root of a natural number, rounded down.
pub open spec fn sqrt_nat(n: nat) -> nat
    decreases n,
{
    if n == 0 {
        0
    } else {
        let s = sqrt_nat((n - 1) as nat);
        if (s + 1) * (s + 1) <= n {
            s + 1
        } else {
            s
        }
    }
}

/// The greatest common divisor is bounded by its second argument when
/// that argument is positive, and equals the first one otherwise.
pub proof fn lemma_gcd_bound(a: nat, b: nat)
    ensures
        b > 0 ==> gcd_nat(a, b) <= b,
        b == 0 ==> gcd_nat(a, b) == a,
    decreases b,
{
    if b > 0 {
        lemma_gcd_bound(b, a % b);
    }
}

/// The binary logarithm never exceeds its argument.
pub proof fn lemma_log2_le(n: nat)
    ensures
        log2_nat(n) <= n,
    decreases n,
{
    if n > 1 {
        lemma_log2_le(n / 2);
    }
}

/// `sqrt_nat` is the integer square root: its square is at most the
/// argument, and the next square is beyond it.
pub proof fn lemma_sqrt_bracket(n: nat)
    ensures
        sqrt_nat(n) * sqrt_nat(n) <= n,
        n < (sqrt_nat(n) + 1) * (sqrt_nat(n) + 1),
    decreases n,
{
    if n == 0 {
        assert((sqrt_nat(n) + 1) * (sqrt_nat(n) + 1) == 1) by (nonlinear_arith)
            requires
                sqrt_nat(n) == 0,
        ;
    } else {
        lemma_sqrt_bracket((n - 1) as nat);
        let s = sqrt_nat((n - 1) as nat);
        assert(s * s <= n - 1);
        assert(n - 1 < (s + 1) * (s + 1));
        if (s + 1) * (s + 1) <= n {
            assert(sqrt_nat(n) == s + 1);
            assert((s + 1) * (s + 1) < (s + 2) * (s + 2)) by (nonlinear_arith);
            assert(n < (s + 2) * (s + 2));
        } else {
            assert(sqrt_nat(n) == s);
            assert(s * s <= n);
            assert(n < (s + 1) * (s + 1));
        }
    }
}

/// The integer square root never exceeds its argument.
pub proof fn lemma_sqrt_le(n: nat)
    ensures
        sqrt_nat(n) <= n,
{
    lemma_sqrt_bracket(n);
    let s = sqrt_nat(n);
    assert(s >= 1 ==> s <= s * s) by (nonlinear_arith);
}

/// Any number whose square brackets `n` from below, with the next square
/// beyond `n`, is the integer square root of `n`.
pub proof fn lemma_sqrt_unique(n: nat, r: nat)
    requires
        r * r <= n,
        n < (r + 1) * (r + 1),
    ensures
        r == sqrt_nat(n),
{
    lemma_sqrt_bracket(n);
    let s = sqrt_nat(n);
    assert(r < s ==> (r + 1) * (r + 1) <= s * s) by (nonlinear_arith);
    assert(s < r ==> (s + 1) * (s + 1) <= r * r) by (nonlinear_arith);
}

/// The magnitude of a machine integer.
fn mag_i64(x: i64) -> (m: u64)
    requires
        x != i64::MIN,
    ensures
        m == abs_int(x as int),
{
    if x >= 0 {
        x as u64
    } else {
        (-x) as u64
    }
}

/// A signed verbose numeral from a sign and a magnitude.
fn from_parts(neg: bool, m: u64) -> (r: Typenum)
    ensures
        r.wf(),
        r@ == if neg {
            -(m as int)
        } else {
            m as int
        },
{
    if m == 0 {
        Typenum::Z0
    } else {
        let u = Uint::from_u64(m);
        if neg {
            Typenum::NInt(u)
        } else {
            Typenum::PInt(u)
        }
    }
}

/// Euclid's algorithm on machine integers.
fn gcd_u64(a: u64, b: u64) -> (g: u64)
    ensures
        g == gcd_nat(a as nat, b as nat),
    decreases b,
{
    if b == 0 {
        a
    } else {
        gcd_u64(b, a % b)
    }
}

/// The binary logarithm of a positive machine integer, rounded down.
fn log2_u64(n: u64) -> (r: u64)
    requires
        n >= 1,
    ensures
        r == log2_nat(n as nat),
    decreases n,
{
    if n <= 1 {
        0
    } else {
        proof {
            lemma_log2_le((n / 2) as nat);
        }
        1 + log2_u64(n / 2)
    }
}

/// The integer square root of a bounded machine integer.
fn sqrt_u64(m: u64) -> (r: u64)
    requires
        m <= 0x8000_0000,
    ensures
        r == sqrt_nat(m as nat),
{
    let mut r: u64 = 0;
    loop
        invariant
            m <= 0x8000_0000,
            r <= 0x10000,
            r <= m,
            r * r <= m,
        ensures
            r * r <= m < (r + 1) * (r + 1),
        decreases m - r,
    {
        proof {
            assert((r + 1) * (r + 1) <= 0x10001 * 0x10001) by (nonlinear_arith)
                requires
                    0 <= r <= 0x10000,
            ;
        }
        let next = (r + 1) * (r + 1);
        if next > m {
            break;
        }
        proof {
            assert(r + 1 <= (r + 1) * (r + 1)) by (nonlinear_arith)
                requires
                    r >= 0,
            ;
            assert(r + 1 > 0x10000 ==> (r + 1) * (r + 1) > 0x8000_0000) by (nonlinear_arith)
                requires
                    r >= 0,
            ;
        }
        r = r + 1;
    }
    proof {
        lemma_sqrt_unique(m as nat, r as nat);
    }
    r
}

impl Typenum {
    /// The sum of two signed verbose numerals.
    pub fn add(&self, rhs: &Typenum) -> (r: Typenum)
        requires
            self.fits(),
            rhs.fits(),
        ensures
            r.wf(),
            r@ == self@ + rhs@,
    {
        let x = self.to_i64();
        let y = rhs.to_i64();
        Typenum::from_i64(x + y)
    }

    /// The difference of two signed verbose numerals.
    pub fn sub(&self, rhs: &Typenum) -> (r: Typenum)
        requires
            self.fits(),
            rhs.fits(),
        ensures
            r.wf(),
            r@ == self@ - rhs@,
    {
        let x = self.to_i64();
        let y = rhs.to_i64();
        Typenum::from_i64(x - y)
    }

    /// The product of two signed verbose numerals.
    pub fn mul(&self, rhs: &Typenum) -> (r: Typenum)
        requires
            self.fits(),
            rhs.fits(),
        ensures
            r.wf(),
            r@ == self@ * rhs@,
    {
        let x = self.to_i64();
        let y = rhs.to_i64();
        proof {
            assert(-0x4000_0000_0000_0000 <= (x as int) * (y as int)
                <= 0x4000_0000_0000_0000) by (nonlinear_arith)
                requires
                    -0x8000_0000 <= x as int <= 0x7fff_ffff,
                    -0x8000_0000 <= y as int <= 0x7fff_ffff,
            ;
        }
        Typenum::from_i64(x * y)
    }

    /// The truncating quotient of two signed verbose numerals; undefined
    /// for a zero divisor.
    pub fn div(&self, rhs: &Typenum) -> (r: Option<Typenum>)
        requires
            self.fits(),
            rhs.fits(),
        ensures
            (r is Some) == (rhs@ != 0),
            r matches Some(q) ==> q.wf() && q@ == tn_div(self@, rhs@),
    {
        let x = self.to_i64();
        let y = rhs.to_i64();
        if y == 0 {
            None
        } else {
            let mx = mag_i64(x);
            let my = mag_i64(y);
            Some(from_parts((x < 0) != (y < 0), mx / my))
        }
    }

    /// The exact quotient of two signed verbose numerals; undefined for a
    /// zero divisor and whenever the division leaves a remainder.
    pub fn partial_div(&self, rhs: &Typenum) -> (r: Option<Typenum>)
        requires
            self.fits(),
            rhs.fits(),
        ensures
            (r is Some) == (rhs@ != 0 && abs_int(self@) % abs_int(rhs@) == 0),
            r matches Some(q) ==> q.wf() && q@ == tn_div(self@, rhs@),
    {
        let x = self.to_i64();
        let y = rhs.to_i64();
        if y == 0 {
            None
        } else {
            let mx = mag_i64(x);
            let my = mag_i64(y);
            if mx % my != 0 {
                None
            } else {
                Some(from_parts((x < 0) != (y < 0), mx / my))
            }
        }
    }

    /// The greatest common divisor of two signed verbose numerals, taken
    /// over magnitudes; never negative.
    pub fn gcd(&self, rhs: &Typenum) -> (r: Typenum)
        requires
            self.fits(),
            rhs.fits(),
        ensures
            r.wf(),
            r@ == gcd_nat(abs_int(self@), abs_int(rhs@)),
    {
        let x = self.to_i64();
        let y = rhs.to_i64();
        from_parts(false, gcd_u64(mag_i64(x), mag_i64(y)))
    }

    /// The greater of two signed verbose numerals.
    pub fn max(&self, rhs: &Typenum) -> (r: Typenum)
        requires
            self.fits(),
            rhs.fits(),
        ensures
            r.wf(),
            r@ == if self@ >= rhs@ {
                self@
            } else {
                rhs@
            },
    {
        let x = self.to_i64();
        let y = rhs.to_i64();
        Typenum::from_i64(if x >= y {
            x
        } else {
            y
        })
    }

    /// The lesser of two signed verbose numerals.
    pub fn min(&self, rhs: &Typenum) -> (r: Typenum)
        requires
            self.fits(),
            rhs.fits(),
        ensures
            r.wf(),
            r@ == if self@ <= rhs@ {
                self@
            } else {
                rhs@
            },
    {
        let x = self.to_i64();
        let y = rhs.to_i64();
        Typenum::from_i64(if x <= y {
            x
        } else {
            y
        })
    }

    /// The three-way comparison of two signed verbose numerals.
    pub fn cmp(&self, rhs: &Typenum) -> (r: Ordering)
        requires
            self.fits(),
            rhs.fits(),
        ensures
            (r is Less) == (self@ < rhs@),
            (r is Equal) == (self@ == rhs@),
            (r is Greater) == (self@ > rhs@),
    {
        let x = self.to_i64();
        let y = rhs.to_i64();
        if x < y {
            Ordering::Less
        } else if x == y {
            Ordering::Equal
        } else {
            Ordering::Greater
        }
    }

    /// The negation of a signed verbose numeral: the sign constructor is
    /// flipped and the magnitude kept.
    pub fn neg(self) -> (r: Typenum)
        requires
            self.wf(),
        ensures
            r.wf(),
            r@ == -self@,
    {
        match self {
            Typenum::Z0 => Typenum::Z0,
            Typenum::PInt(u) => Typenum::NInt(u),
            Typenum::NInt(u) => Typenum::PInt(u),
        }
    }

    /// The absolute value of a signed verbose numeral: a negative sign
    /// constructor is replaced by the positive one.
    pub fn abs(self) -> (r: Typenum)
        requires
            self.wf(),
        ensures
            r.wf(),
            r@ == abs_int(self@),
    {
        match self {
            Typenum::Z0 => Typenum::Z0,
            Typenum::PInt(u) => Typenum::PInt(u),
            Typenum::NInt(u) => Typenum::PInt(u),
        }
    }

    /// The binary logarithm, rounded down; undefined for numerals below
    /// one.
    pub fn log2(&self) -> (r: Option<Typenum>)
        requires
            self.fits(),
        ensures
            (r is Some) == (self@ >= 1),
            r matches Some(v) ==> v.wf() && v@ == log2_nat(self@ as nat),
    {
        let x = self.to_i64();
        if x < 1 {
            None
        } else {
            Some(from_parts(false, log2_u64(x as u64)))
        }
    }

    /// The integer square root, rounded down; undefined for negative
    /// numerals.
    pub fn sqrt(&self) -> (r: Option<Typenum>)
        requires
            self.fits(),
        ensures
            (r is Some) == (self@ >= 0),
            r matches Some(v) ==> v.wf() && v@ == sqrt_nat(self@ as nat),
    {
        let x = self.to_i64();
        if x < 0 {
            None
        } else {
            Some(from_parts(false, sqrt_u64(x as u64)))
        }
    }
}

} // verus!
