use strawberry_fields::variant_samples::{
    convert, convert_number_or_not, Byte, HasFields, HasStruct, ReferenceTester, Tuple, YooEight,
    YooSixteen,
};

#[test]
fn convert_each_variant() {
    assert_eq!(convert(YooEight::Zero), YooSixteen::Zero);
    assert_eq!(convert(YooEight::One), YooSixteen::One);
    assert_eq!(convert(YooEight::Ten), YooSixteen::Ten);
    assert_eq!(convert(YooEight::OneHundred), YooSixteen::OneHundred);
    assert_ne!(convert(YooEight::Zero), YooSixteen::OneHundred);
}

#[test]
fn from_agrees_with_convert() {
    assert_eq!(YooSixteen::from(YooEight::Ten), convert(YooEight::Ten));
    assert_eq!(YooSixteen::from(YooEight::OneHundred), YooSixteen::OneHundred);
}

#[test]
fn numbers_of_variants() {
    assert_eq!(convert_number_or_not(YooSixteen::Zero), Some(0));
    assert_eq!(convert_number_or_not(YooSixteen::One), Some(1));
    assert_eq!(convert_number_or_not(YooSixteen::Ten), Some(10));
    assert_eq!(convert_number_or_not(YooSixteen::OneHundred), Some(100));
}

#[test]
fn references_hand_back_the_variant() {
    assert_eq!(ReferenceTester::First.test_ref(), ReferenceTester::First);
    assert_eq!(ReferenceTester::Second.test_ref(), ReferenceTester::Second);
    let mut first = ReferenceTester::First;
    assert_eq!(first.test_mut_ref(), ReferenceTester::First);
    assert_eq!(first, ReferenceTester::First);
    let mut second = ReferenceTester::Second;
    assert_ne!(second.test_mut_ref(), ReferenceTester::First);
}

#[test]
fn numbers_held_by_fields() {
    assert_eq!(HasFields::Zero.number(), 0);
    assert_eq!(HasFields::Named { a: 10 }.number(), 10);
    assert_eq!(HasFields::Unnamed(100).number(), 100);
}

#[test]
fn numbers_held_by_structs() {
    assert_eq!(HasStruct::Byte(Byte { inner: 0 }).number(), 0);
    assert_eq!(HasStruct::Tuple(Tuple((5, 5))).number(), 10);
    assert_ne!(HasStruct::Tuple(Tuple((5, 5))).number(), 0);
}
