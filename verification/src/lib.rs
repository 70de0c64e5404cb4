//! Compact numeral tags with a verified bridge to a verbose, typenum-style
//! binary encoding of signed integers.
//!
//! The crate centres on [`verbose::Typenum`], a structural sign-and-bits
//! encoding of an integer, and [`tag::Const`], a compact tag that carries a
//! native-width value. Conversions between the two are proved to be mutual
//! inverses on the supported range, and every arithmetic or comparison
//! operation on tags is proved to return exactly the mathematical result,
//! or to report that the operands or the result fall outside the range the
//! conversions cover.

pub mod arith;
pub mod ops;
pub mod tag;
pub mod verbose;

pub use arith::Ordering;
pub use tag::Const;
pub use tag::ToConst;
pub use tag::ToTypenum;
pub use verbose::Bit;
pub use verbose::Typenum;
pub use verbose::Uint;
