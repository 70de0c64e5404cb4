//! The compact numeral tag and its two conversion capabilities.
//!
//! `Const` carries a native-width signed value and stands for that
//! integer. `ToTypenum` converts a tag to its verbose form, `ToConst`
//! converts a verbose numeral back; both are available exactly for the
//! supported range, a closed, deliberately narrow whitelist of small
//! magnitudes, and are proved to be mutual inverses on it.

use vstd::prelude::*;

use crate::verbose::Typenum;
use crate::verbose::lemma_typenum_val_injective;

verus! {

/// The supported conversion range: the closed symmetric whitelist of
/// values for which the tag and verbose encodings are interchangeable.
pub open spec fn in_range(n: int) -> bool {
    -16 <= n <= 16
}

/// The compact numeral tag: a native-width signed value standing for the
/// type-level integer it holds.
#[derive(Clone, Copy, PartialEq, Eq, Structural, Debug)]
pub struct Const {
    n: i32,
}

impl View for Const {
    type V = int;

    /// The integer a tag stands for.
    closed spec fn view(&self) -> int {
        self.n as int
    }
}

impl Const {
    /// The tag for a given value.
    pub fn new(n: i32) -> (r: Const)
        ensures
            r@ == n,
    {
        Const { n }
    }

    /// The value a tag stands for.
    pub fn value(&self) -> (r: i32)
        ensures
            r == self@,
    {
        self.n
    }
}

/// Tags standing for the same integer are the same tag.
pub proof fn lemma_const_val_injective(a: Const, b: Const)
    requires
        a@ == b@,
    ensures
        a == b,
{
}

/// The capability of a tag: conversion to the verbose form. Implementors
/// say which values they support; the conversion succeeds exactly there
/// and yields the unique well-formed verbose numeral of the same value.
pub trait ToTypenum {
    /// The integer this value stands for.
    spec fn tag_value(&self) -> int;

    /// Whether a verbose form exists for this value.
    spec fn supported(&self) -> bool;

    /// The verbose form of this value.
    fn to_typenum(&self) -> (r: Option<Typenum>)
        ensures
            (r is Some) == self.supported(),
            r matches Some(v) ==> v.wf() && v.fits() && v@ == self.tag_value(),
    ;
}

/// The inverse capability: conversion of a verbose numeral to the tag of
/// the same value. It succeeds exactly on the supported range.
pub trait ToConst {
    /// The integer this value denotes.
    spec fn num_value(&self) -> int;

    /// Whether the value lies within the native width, so that the
    /// conversion can read it.
    spec fn decodable(&self) -> bool;

    /// The tag of this value.
    fn to_const(&self) -> (r: Option<Const>)
        requires
            self.decodable(),
        ensures
            (r is Some) == in_range(self.num_value()),
            r matches Some(c) ==> c@ == self.num_value(),
    ;
}

impl ToTypenum for Const {
    open spec fn tag_value(&self) -> int {
        self@
    }

    open spec fn supported(&self) -> bool {
        in_range(self@)
    }

    fn to_typenum(&self) -> (r: Option<Typenum>) {
        let v = self.value();
        if -16 <= v && v <= 16 {
            Some(Typenum::from_i64(v as i64))
        } else {
            None
        }
    }
}

impl ToConst for Typenum {
    open spec fn num_value(&self) -> int {
        self@
    }

    open spec fn decodable(&self) -> bool {
        self.fits()
    }

    fn to_const(&self) -> (r: Option<Const>) {
        let x = self.to_i64();
        if -16 <= x && x <= 16 {
            Some(Const::new(x as i32))
        } else {
            None
        }
    }
}

/// Round-trip law, tag side: taking a supported tag to its verbose form
/// and back yields the very same tag. `v` is any verbose form that
/// `ToTypenum` may return for `c`, and `c2` any tag that `ToConst` may
/// return for `v`.
pub proof fn lemma_tag_round_trip(c: Const, v: Typenum, c2: Const)
    requires
        in_range(c@),
        v.wf(),
        v@ == c@,
        c2@ == v@,
    ensures
        c2 == c,
{
    lemma_const_val_injective(c, c2);
}

/// Round-trip law, verbose side: taking a well-formed verbose numeral to
/// its tag and back yields the very same verbose numeral. `c` is any tag
/// that `ToConst` may return for `v`, and `v2` any verbose form that
/// `ToTypenum` may return for `c`.
pub proof fn lemma_verbose_round_trip(v: Typenum, c: Const, v2: Typenum)
    requires
        v.wf(),
        v2.wf(),
        c@ == v@,
        v2@ == c@,
    ensures
        v2 == v,
{
    lemma_typenum_val_injective(&v, &v2);
}

} // verus!
