//! Enums whose variants are converted one for one, and functions that read them: the
//! subjects of generated variant tests.
use vstd::prelude::*;

verus! {

/// Four variants, standing for 0, 1, 10 and 100.
#[derive(Debug, PartialEq, Eq)]
pub enum YooEight {
    Zero,
    One,
    Ten,
    OneHundred,
}

/// Four variants, standing for 0, 1, 10 and 100.
#[derive(Clone, Debug, PartialEq, Eq)]
pub enum YooSixteen {
    Zero,
    One,
    Ten,
    OneHundred,
}

/// The variant of [`YooSixteen`] with the same name.
pub open spec fn converted(value: YooEight) -> YooSixteen {
    match value {
        YooEight::Zero => YooSixteen::Zero,
        YooEight::One => YooSixteen::One,
        YooEight::Ten => YooSixteen::Ten,
        YooEight::OneHundred => YooSixteen::OneHundred,
    }
}

/// The number that a variant of [`YooSixteen`] stands for.
pub open spec fn number_of(value: YooSixteen) -> u64 {
    match value {
        YooSixteen::Zero => 0,
        YooSixteen::One => 1,
        YooSixteen::Ten => 10,
        YooSixteen::OneHundred => 100,
    }
}

/// Conversion keeps variants apart: two different variants never convert to the same one.
pub proof fn law_convert_keeps_variants_apart(v: YooEight, w: YooEight)
    ensures
        v != w ==> converted(v) != converted(w),
{
}

/// Converts a variant to the variant of [`YooSixteen`] with the same name.
pub fn convert(value: YooEight) -> (r: YooSixteen)
    ensures
        r == converted(value),
{
    match value {
        YooEight::Zero => YooSixteen::Zero,
        YooEight::One => YooSixteen::One,
        YooEight::Ten => YooSixteen::Ten,
        YooEight::OneHundred => YooSixteen::OneHundred,
    }
}

impl From<YooEight> for YooSixteen {
    fn from(value: YooEight) -> (r: Self) {
        convert(value)
    }
}

impl vstd::std_specs::convert::FromSpecImpl<YooEight> for YooSixteen {
    open spec fn obeys_from_spec() -> bool {
        true
    }

    open spec fn from_spec(v: YooEight) -> YooSixteen {
        converted(v)
    }
}

/// The number that the variant stands for; it is always present.
pub fn convert_number_or_not(something: YooSixteen) -> (r: Option<u64>)
    ensures
        r == Some(number_of(something)),
{
    match something {
        YooSixteen::Zero => Some(0),
        YooSixteen::One => Some(1),
        YooSixteen::Ten => Some(10),
        YooSixteen::OneHundred => Some(100),
    }
}

/// Two variants, handed back unchanged by reference.
#[derive(Clone, Debug, PartialEq, Eq)]
pub enum ReferenceTester {
    First,
    Second,
}

impl ReferenceTester {
    /// A copy of this variant.
    pub fn test_ref(&self) -> (r: ReferenceTester)
        ensures
            r == *self,
    {
        match self {
            ReferenceTester::First => ReferenceTester::First,
            ReferenceTester::Second => ReferenceTester::Second,
        }
    }

    /// A copy of this variant, which is left unchanged.
    pub fn test_mut_ref(&mut self) -> (r: ReferenceTester)
        ensures
            r == *old(self),
            *final(self) == *old(self),
    {
        match self {
            ReferenceTester::First => ReferenceTester::First,
            ReferenceTester::Second => ReferenceTester::Second,
        }
    }
}

/// Variants without fields, with a named field and with an unnamed field.
#[derive(Debug, PartialEq, Eq)]
pub enum HasFields {
    Zero,
    Named { a: u8 },
    Unnamed(u8),
}

impl HasFields {
    /// The number that the variant holds; 0 for the variant without fields.
    pub fn number(self) -> (r: u8)
        ensures
            r == match self {
                HasFields::Zero => 0u8,
                HasFields::Named { a } => a,
                HasFields::Unnamed(a) => a,
            },
    {
        match self {
            HasFields::Zero => 0,
            HasFields::Named { a } => a,
            HasFields::Unnamed(a) => a,
        }
    }
}

/// A struct with one byte.
#[derive(Debug, PartialEq, Eq)]
pub struct Byte {
    pub inner: u8,
}

/// A struct with a pair of bytes.
#[derive(Debug, PartialEq, Eq)]
pub struct Tuple(pub (u8, u8));

/// Variants that hold structs.
#[derive(Debug, PartialEq, Eq)]
pub enum HasStruct {
    Byte(Byte),
    Tuple(Tuple),
}

impl HasStruct {
    /// The byte of a `Byte`, or the sum of the pair of a `Tuple`.
    pub fn number(self) -> (r: u8)
        requires
            self matches HasStruct::Tuple(Tuple((first, second))) ==> first + second <= u8::MAX,
        ensures
            r == match self {
                HasStruct::Byte(b) => b.inner as int,
                HasStruct::Tuple(Tuple((first, second))) => first + second,
            },
    {
        match self {
            HasStruct::Byte(clike) => clike.inner,
            HasStruct::Tuple(Tuple((first, second))) => first + second,
        }
    }
}

} // verus!
