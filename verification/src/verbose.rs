//! The verbose numeral encoding: a structural, typenum-style representation
//! of signed integers as a sign constructor around a little-endian list of
//! binary digits.
//!
//! `Uint` mirrors the unsigned layer (`UTerm` / `UInt<U, B>`): the digit in
//! the outermost position is the least significant one. `Typenum` mirrors
//! the signed layer (`Z0` / `PInt<U>` / `NInt<U>`). A value is well formed
//! when its digit list has no leading zero and a signed value never wraps a
//! zero magnitude, which makes the encoding of every integer unique.

use vstd::prelude::*;

verus! {

/// One binary digit of the verbose encoding.
#[derive(Clone, Copy, PartialEq, Eq, Debug)]
pub enum Bit {
    B0,
    B1,
}

/// An unsigned verbose numeral: a little-endian list of binary digits.
/// `UInt(rest, b)` denotes `2 * rest + b`.
#[derive(PartialEq, Eq, Debug)]
pub enum Uint {
    UTerm,
    UInt(Box<Uint>, Bit),
}

/// A signed verbose numeral: zero, or a sign around a nonzero magnitude.
#[derive(PartialEq, Eq, Debug)]
pub enum Typenum {
    Z0,
    PInt(Uint),
    NInt(Uint),
}

impl Bit {
    /// The numeric value of one digit.
    pub open spec fn val(&self) -> nat {
        match self {
            Bit::B0 => 0,
            Bit::B1 => 1,
        }
    }
}

impl Uint {
    /// The natural number this digit list denotes.
    pub open spec fn val(&self) -> nat
        decreases self,
    {
        match self {
            Uint::UTerm => 0,
            Uint::UInt(rest, b) => 2 * rest.val() + b.val(),
        }
    }

    /// Well-formedness: the most significant digit, if any, is one, so no
    /// number has two encodings.
    pub open spec fn wf(&self) -> bool
        decreases self,
    {
        match self {
            Uint::UTerm => true,
            Uint::UInt(rest, b) => rest.wf() && !(**rest is UTerm && *b is B0),
        }
    }
}

impl View for Typenum {
    type V = int;

    /// The integer a signed verbose numeral denotes.
    open spec fn view(&self) -> int {
        match self {
            Typenum::Z0 => 0,
            Typenum::PInt(u) => u.val() as int,
            Typenum::NInt(u) => -(u.val() as int),
        }
    }
}

/// The absolute value of an integer, as a natural number.
pub open spec fn abs_int(n: int) -> nat {
    if n >= 0 {
        n as nat
    } else {
        (-n) as nat
    }
}

impl Typenum {
    /// Well-formedness: the magnitude is well formed and a signed
    /// constructor never wraps a zero magnitude, so every integer has
    /// exactly one encoding.
    pub open spec fn wf(&self) -> bool {
        match self {
            Typenum::Z0 => true,
            Typenum::PInt(u) => u.wf() && u.val() >= 1,
            Typenum::NInt(u) => u.wf() && u.val() >= 1,
        }
    }

    /// Whether the denoted integer lies within the native signed 32-bit
    /// width that tags carry; the executable bridge works inside it.
    pub open spec fn fits(&self) -> bool {
        -0x8000_0000 <= self@ && self@ <= 0x7fff_ffff
    }
}

/// A well-formed nonempty digit list denotes a positive number.
pub proof fn lemma_uint_wf_pos(u: &Uint)
    requires
        u.wf(),
        !(*u is UTerm),
    ensures
        u.val() >= 1,
    decreases u,
{
    match u {
        Uint::UTerm => {}
        Uint::UInt(rest, b) => {
            if !(**rest is UTerm) {
                lemma_uint_wf_pos(rest);
            }
        }
    }
}

/// Well-formed digit lists denoting the same number are identical: the
/// encoding of a natural number is unique.
pub proof fn lemma_uint_val_injective(a: &Uint, b: &Uint)
    requires
        a.wf(),
        b.wf(),
        a.val() == b.val(),
    ensures
        a == b,
    decreases a,
{
    match (a, b) {
        (Uint::UTerm, Uint::UTerm) => {}
        (Uint::UTerm, Uint::UInt(_, _)) => {
            lemma_uint_wf_pos(b);
        }
        (Uint::UInt(_, _), Uint::UTerm) => {
            lemma_uint_wf_pos(a);
        }
        (Uint::UInt(ra, ba), Uint::UInt(rb, bb)) => {
            assert(2 * ra.val() + ba.val() == 2 * rb.val() + bb.val());
            assert(ba.val() == bb.val());
            assert(ba == bb);
            lemma_uint_val_injective(ra, rb);
            assert(**ra == **rb);
        }
    }
}

/// Well-formed signed verbose numerals denoting the same integer are
/// identical: the encoding of an integer is unique.
pub proof fn lemma_typenum_val_injective(a: &Typenum, b: &Typenum)
    requires
        a.wf(),
        b.wf(),
        a@ == b@,
    ensures
        a == b,
{
    match (a, b) {
        (Typenum::PInt(ua), Typenum::PInt(ub)) => {
            lemma_uint_val_injective(ua, ub);
        }
        (Typenum::NInt(ua), Typenum::NInt(ub)) => {
            lemma_uint_val_injective(ua, ub);
        }
        _ => {}
    }
}

impl Uint {
    /// The canonical digit list for a machine integer.
    pub fn from_u64(n: u64) -> (r: Uint)
        ensures
            r.wf(),
            r.val() == n,
        decreases n,
    {
        if n == 0 {
            Uint::UTerm
        } else {
            let rest = Uint::from_u64(n / 2);
            proof {
                if !(rest is UTerm) {
                    lemma_uint_wf_pos(&rest);
                }
            }
            if n % 2 == 1 {
                Uint::UInt(Box::new(rest), Bit::B1)
            } else {
                Uint::UInt(Box::new(rest), Bit::B0)
            }
        }
    }

    /// The machine integer a digit list denotes.
    pub fn to_u64(&self) -> (r: u64)
        requires
            self.val() <= u64::MAX,
        ensures
            r == self.val(),
        decreases self,
    {
        match self {
            Uint::UTerm => 0,
            Uint::UInt(rest, Bit::B0) => {
                let x = rest.to_u64();
                2 * x
            }
            Uint::UInt(rest, Bit::B1) => {
                let x = rest.to_u64();
                2 * x + 1
            }
        }
    }
}

impl Typenum {
    /// The canonical signed verbose numeral for a machine integer.
    pub fn from_i64(n: i64) -> (r: Typenum)
        ensures
            r.wf(),
            r@ == n,
    {
        if n == 0 {
            Typenum::Z0
        } else if n > 0 {
            Typenum::PInt(Uint::from_u64(n as u64))
        } else {
            let m: u64 = ((-(n + 1)) as u64) + 1;
            assert(m == abs_int(n as int));
            Typenum::NInt(Uint::from_u64(m))
        }
    }

    /// The machine integer a signed verbose numeral denotes.
    pub fn to_i64(&self) -> (r: i64)
        requires
            self.fits(),
        ensures
            r == self@,
    {
        match self {
            Typenum::Z0 => 0,
            Typenum::PInt(u) => {
                let x = u.to_u64();
                x as i64
            }
            Typenum::NInt(u) => {
                let x = u.to_u64();
                -(x as i64)
            }
        }
    }
}

} // verus!
