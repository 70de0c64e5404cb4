//! Operator forwarding for tags.
//!
//! Every operation on `Const` follows one scheme: convert both operands
//! to their verbose forms, let the verbose facility operate there, and
//! convert the result back to a tag. An operation yields a tag exactly
//! when the operands convert, the facility defines the operation on them,
//! and the result converts back — otherwise it reports `None`, the
//! runtime image of a missing capability. The `tag_*` spec functions
//! state that outcome exactly, over plain integers.

use vstd::prelude::*;

use crate::arith::Ordering;
use crate::arith::gcd_nat;
use crate::arith::lemma_gcd_bound;
use crate::arith::lemma_log2_le;
use crate::arith::lemma_sqrt_le;
use crate::arith::log2_nat;
use crate::arith::sqrt_nat;
use crate::arith::tn_div;
use crate::tag::Const;
use crate::tag::ToConst;
use crate::tag::ToTypenum;
use crate::tag::in_range;
use crate::verbose::abs_int;

verus! {

/// The integer a tag result stands for, if any.
pub open spec fn opt_value(r: Option<Const>) -> Option<int> {
    match r {
        Some(c) => Some(c@),
        None => None,
    }
}

/// What tag addition returns: the exact sum, whenever the operands and
/// the sum are supported.
pub open spec fn tag_add(l: int, r: int) -> Option<int> {
    if in_range(l) && in_range(r) && in_range(l + r) {
        Some(l + r)
    } else {
        None
    }
}

/// What tag subtraction returns: the exact difference, whenever the
/// operands and the difference are supported.
pub open spec fn tag_sub(l: int, r: int) -> Option<int> {
    if in_range(l) && in_range(r) && in_range(l - r) {
        Some(l - r)
    } else {
        None
    }
}

/// What tag multiplication returns: the exact product, whenever the
/// operands and the product are supported.
pub open spec fn tag_mul(l: int, r: int) -> Option<int> {
    if in_range(l) && in_range(r) && in_range(l * r) {
        Some(l * r)
    } else {
        None
    }
}

/// What tag division returns: the truncating quotient, whenever the
/// operands are supported and the divisor is not zero. The quotient of
/// supported operands is itself always supported.
pub open spec fn tag_div(l: int, r: int) -> Option<int> {
    if in_range(l) && in_range(r) && r != 0 {
        Some(tn_div(l, r))
    } else {
        None
    }
}

/// What exact tag division returns: the quotient, whenever the operands
/// are supported, the divisor is not zero, and it divides evenly.
pub open spec fn tag_partial_div(l: int, r: int) -> Option<int> {
    if in_range(l) && in_range(r) && r != 0 && abs_int(l) % abs_int(r) == 0 {
        Some(tn_div(l, r))
    } else {
        None
    }
}

/// What the tag greatest common divisor returns: the nonnegative gcd of
/// the magnitudes, whenever the operands are supported; it is itself
/// always supported.
pub open spec fn tag_gcd(l: int, r: int) -> Option<int> {
    if in_range(l) && in_range(r) {
        Some(gcd_nat(abs_int(l), abs_int(r)) as int)
    } else {
        None
    }
}

/// What the tag maximum returns: the greater operand, whenever both are
/// supported.
pub open spec fn tag_max(l: int, r: int) -> Option<int> {
    if in_range(l) && in_range(r) {
        Some(
            if l >= r {
                l
            } else {
                r
            },
        )
    } else {
        None
    }
}

/// What the tag minimum returns: the lesser operand, whenever both are
/// supported.
pub open spec fn tag_min(l: int, r: int) -> Option<int> {
    if in_range(l) && in_range(r) {
        Some(
            if l <= r {
                l
            } else {
                r
            },
        )
    } else {
        None
    }
}

/// What the tag comparison reports: the order of the denoted integers,
/// whenever both operands are supported.
pub open spec fn tag_compare(l: int, r: int) -> Option<Ordering> {
    if in_range(l) && in_range(r) {
        Some(
            if l < r {
                Ordering::Less
            } else if l == r {
                Ordering::Equal
            } else {
                Ordering::Greater
            },
        )
    } else {
        None
    }
}

/// What tag negation returns: the exact negation, whenever the operand
/// is supported; the range is symmetric, so the result always is.
pub open spec fn tag_neg(n: int) -> Option<int> {
    if in_range(n) {
        Some(-n)
    } else {
        None
    }
}

/// What the tag absolute value returns: the magnitude, whenever the
/// operand is supported.
pub open spec fn tag_abs(n: int) -> Option<int> {
    if in_range(n) {
        Some(abs_int(n) as int)
    } else {
        None
    }
}

/// What the tag binary logarithm returns: the floored logarithm,
/// whenever the operand is supported and positive.
pub open spec fn tag_log2(n: int) -> Option<int> {
    if in_range(n) && n >= 1 {
        Some(log2_nat(n as nat) as int)
    } else {
        None
    }
}

/// What the tag square root returns: the floored root, whenever the
/// operand is supported and not negative.
pub open spec fn tag_sqrt(n: int) -> Option<int> {
    if in_range(n) && n >= 0 {
        Some(sqrt_nat(n as nat) as int)
    } else {
        None
    }
}

impl Const {
    /// Forwarded addition: through verbose form and back.
    pub fn add(self, rhs: Const) -> (r: Option<Const>)
        ensures
            opt_value(r) == tag_add(self@, rhs@),
    {
        match (self.to_typenum(), rhs.to_typenum()) {
            (Some(l), Some(rr)) => l.add(&rr).to_const(),
            _ => None,
        }
    }

    /// Forwarded subtraction: through verbose form and back.
    pub fn sub(self, rhs: Const) -> (r: Option<Const>)
        ensures
            opt_value(r) == tag_sub(self@, rhs@),
    {
        match (self.to_typenum(), rhs.to_typenum()) {
            (Some(l), Some(rr)) => l.sub(&rr).to_const(),
            _ => None,
        }
    }

    /// Forwarded multiplication: through verbose form and back.
    pub fn mul(self, rhs: Const) -> (r: Option<Const>)
        ensures
            opt_value(r) == tag_mul(self@, rhs@),
    {
        match (self.to_typenum(), rhs.to_typenum()) {
            (Some(l), Some(rr)) => {
                let p = l.mul(&rr);
                proof {
                    assert(-256 <= l@ * rr@ <= 256) by (nonlinear_arith)
                        requires
                            -16 <= l@ <= 16,
                            -16 <= rr@ <= 16,
                    ;
                }
                p.to_const()
            }
            _ => None,
        }
    }

    /// Forwarded truncating division: through verbose form and back.
    pub fn div(self, rhs: Const) -> (r: Option<Const>)
        ensures
            opt_value(r) == tag_div(self@, rhs@),
    {
        match (self.to_typenum(), rhs.to_typenum()) {
            (Some(l), Some(rr)) => {
                match l.div(&rr) {
                    Some(q) => {
                        proof {
                            assert(abs_int(l@) / abs_int(rr@) <= abs_int(l@)) by (nonlinear_arith)
                                requires
                                    abs_int(rr@) >= 1,
                            ;
                        }
                        q.to_const()
                    }
                    None => None,
                }
            }
            _ => None,
        }
    }

    /// Forwarded exact division: through verbose form and back.
    pub fn partial_div(self, rhs: Const) -> (r: Option<Const>)
        ensures
            opt_value(r) == tag_partial_div(self@, rhs@),
    {
        match (self.to_typenum(), rhs.to_typenum()) {
            (Some(l), Some(rr)) => {
                match l.partial_div(&rr) {
                    Some(q) => {
                        proof {
                            assert(abs_int(l@) / abs_int(rr@) <= abs_int(l@)) by (nonlinear_arith)
                                requires
                                    abs_int(rr@) >= 1,
                            ;
                        }
                        q.to_const()
                    }
                    None => None,
                }
            }
            _ => None,
        }
    }

    /// Forwarded greatest common divisor: through verbose form and back.
    pub fn gcd(self, rhs: Const) -> (r: Option<Const>)
        ensures
            opt_value(r) == tag_gcd(self@, rhs@),
    {
        match (self.to_typenum(), rhs.to_typenum()) {
            (Some(l), Some(rr)) => {
                let g = l.gcd(&rr);
                proof {
                    lemma_gcd_bound(abs_int(l@), abs_int(rr@));
                }
                g.to_const()
            }
            _ => None,
        }
    }

    /// Forwarded maximum: through verbose form and back.
    pub fn max(self, rhs: Const) -> (r: Option<Const>)
        ensures
            opt_value(r) == tag_max(self@, rhs@),
    {
        match (self.to_typenum(), rhs.to_typenum()) {
            (Some(l), Some(rr)) => l.max(&rr).to_const(),
            _ => None,
        }
    }

    /// Forwarded minimum: through verbose form and back.
    pub fn min(self, rhs: Const) -> (r: Option<Const>)
        ensures
            opt_value(r) == tag_min(self@, rhs@),
    {
        match (self.to_typenum(), rhs.to_typenum()) {
            (Some(l), Some(rr)) => l.min(&rr).to_const(),
            _ => None,
        }
    }

    /// Forwarded three-way comparison: both operands go to verbose form,
    /// whose ordering is reported as it stands.
    pub fn compare(&self, rhs: &Const) -> (r: Option<Ordering>)
        ensures
            r == tag_compare(self@, rhs@),
    {
        match (self.to_typenum(), rhs.to_typenum()) {
            (Some(l), Some(rr)) => Some(l.cmp(&rr)),
            _ => None,
        }
    }

    /// Forwarded negation: through verbose form and back.
    pub fn neg(self) -> (r: Option<Const>)
        ensures
            opt_value(r) == tag_neg(self@),
    {
        match self.to_typenum() {
            Some(v) => v.neg().to_const(),
            None => None,
        }
    }

    /// Forwarded absolute value: through verbose form and back.
    pub fn abs(self) -> (r: Option<Const>)
        ensures
            opt_value(r) == tag_abs(self@),
    {
        match self.to_typenum() {
            Some(v) => v.abs().to_const(),
            None => None,
        }
    }

    /// Forwarded binary logarithm: through verbose form and back.
    pub fn log2(self) -> (r: Option<Const>)
        ensures
            opt_value(r) == tag_log2(self@),
    {
        match self.to_typenum() {
            Some(v) => {
                match v.log2() {
                    Some(w) => {
                        proof {
                            lemma_log2_le(self@ as nat);
                        }
                        w.to_const()
                    }
                    None => None,
                }
            }
            None => None,
        }
    }

    /// Forwarded integer square root: through verbose form and back.
    pub fn sqrt(self) -> (r: Option<Const>)
        ensures
            opt_value(r) == tag_sqrt(self@),
    {
        match self.to_typenum() {
            Some(v) => {
                match v.sqrt() {
                    Some(w) => {
                        proof {
                            lemma_sqrt_le(self@ as nat);
                        }
                        w.to_const()
                    }
                    None => None,
                }
            }
            None => None,
        }
    }
}

/// The zero tag is the identity of forwarded addition, on either side,
/// for every supported tag value.
pub proof fn lemma_add_zero_identity(n: int)
    requires
        in_range(n),
    ensures
        tag_add(0, n) == Some(n),
        tag_add(n, 0) == Some(n),
{
}

/// Negating the zero tag yields the zero tag.
pub proof fn lemma_neg_zero()
    ensures
        tag_neg(0) == Some(0int),
{
}

} // verus!
