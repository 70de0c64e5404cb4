use typenum_alias::Bit;
use typenum_alias::Const;
use typenum_alias::ToConst;
use typenum_alias::ToTypenum;
use typenum_alias::Typenum;
use typenum_alias::Uint;

#[test]
fn round_trip_tag_side() {
    for n in -16..=16 {
        let c = Const::new(n);
        let v = c.to_typenum().unwrap();
        let c2 = v.to_const().unwrap();
        assert_eq!(c2, c);
    }
}

#[test]
fn round_trip_verbose_side() {
    for n in -16..=16 {
        let v = Const::new(n).to_typenum().unwrap();
        let v2 = v.to_const().unwrap().to_typenum().unwrap();
        assert_eq!(v2, v);
    }
}

#[test]
fn out_of_range_has_no_verbose_form() {
    assert!(Const::new(17).to_typenum().is_none());
    assert!(Const::new(-17).to_typenum().is_none());
    assert!(Const::new(1000).to_typenum().is_none());
    assert!(Const::new(i32::MIN).to_typenum().is_none());
}

#[test]
fn zero_is_the_distinguished_base_case() {
    assert_eq!(Const::new(0).to_typenum().unwrap(), Typenum::Z0);
    assert_eq!(Typenum::Z0.to_const().unwrap(), Const::new(0));
}

#[test]
fn encoding_lists_digits_least_significant_first() {
    // 10 is 1010 in binary; the outermost digit is the least significant.
    let ten = Uint::UInt(
        Box::new(Uint::UInt(
            Box::new(Uint::UInt(
                Box::new(Uint::UInt(Box::new(Uint::UTerm), Bit::B1)),
                Bit::B0,
            )),
            Bit::B1,
        )),
        Bit::B0,
    );
    assert_eq!(Const::new(10).to_typenum().unwrap(), Typenum::PInt(ten));

    // 5 is 101 in binary; negative values wrap the same magnitude.
    let five = Uint::UInt(
        Box::new(Uint::UInt(
            Box::new(Uint::UInt(Box::new(Uint::UTerm), Bit::B1)),
            Bit::B0,
        )),
        Bit::B1,
    );
    assert_eq!(Const::new(-5).to_typenum().unwrap(), Typenum::NInt(five));
}

#[test]
fn tag_exposes_its_value() {
    assert_eq!(Const::new(7).value(), 7);
    assert_eq!(Const::new(-13).value(), -13);
    assert_eq!(Const::new(0).value(), 0);
}
