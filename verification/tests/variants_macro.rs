use strawberry_fields::error::MacroError;
use strawberry_fields::syntax::{parse_enum, EnumItem};
use strawberry_fields::variants_macro::{
    for_each_variant, list_variants, test_variants_eq, test_variants_ne, variants_listing,
    Assertion, VariantsInput,
};

const YOO_EIGHT: &str = "enum YooEight { Zero = 0, One = 1, Ten = 10, OneHundred = 100, }";

#[test]
fn eq_simple_module() {
    let input = "module: eq_simple, function: convert, matches: [Zero => YooSixteen::Zero, One => YooSixteen::One, Ten => YooSixteen::Ten, OneHundred => YooSixteen::OneHundred,]";
    let expected = format!(
        "{} #[allow(non_snake_case)] #[cfg(test)] mod eq_simple {{ use super::*; \
#[test] fn convert_Zero() {{ assert_eq!(convert(YooEight::Zero), YooSixteen :: Zero); }} \
#[test] fn convert_One() {{ assert_eq!(convert(YooEight::One), YooSixteen :: One); }} \
#[test] fn convert_Ten() {{ assert_eq!(convert(YooEight::Ten), YooSixteen :: Ten); }} \
#[test] fn convert_OneHundred() {{ assert_eq!(convert(YooEight::OneHundred), YooSixteen :: OneHundred); }} }}",
        YOO_EIGHT
    );
    assert_eq!(test_variants_eq(input, YOO_EIGHT).unwrap(), expected);
}

#[test]
fn ne_simple_module() {
    let input = "module: ne_simple, function: convert, matches: [Zero => YooSixteen::OneHundred, One => YooSixteen::Ten, Ten => YooSixteen::One, OneHundred => YooSixteen::Zero,]";
    let out = test_variants_ne(input, YOO_EIGHT).unwrap();
    assert!(out.contains("#[test] fn convert_Zero() { assert_ne!(convert(YooEight::Zero), YooSixteen :: OneHundred); } "));
    assert!(out.contains("mod ne_simple { use super::*; "));
    assert!(syn::parse_file(&out).is_ok());
}

#[test]
fn path_function_module() {
    let input = "module: onvert_eq_from, function: YooSixteen::from, matches: [Zero => convert(YooEight::Zero), One => convert(YooEight::One), Ten => convert(YooEight::Ten), OneHundred => convert(YooEight::OneHundred),]";
    let out = test_variants_eq(input, YOO_EIGHT).unwrap();
    assert!(out.contains("#[test] fn from_One() { assert_eq!(YooSixteen :: from(YooEight::One), convert (YooEight :: One)); } "));
}

#[test]
fn reference_inputs_module() {
    let item = "enum ReferenceTester { First, Second, }";
    let input = "module: mut_ref_eq, function: ReferenceTester::test_mut_ref, matches: [&mut First => ReferenceTester::First, &mut Second => ReferenceTester::Second,]";
    let out = test_variants_eq(input, item).unwrap();
    assert!(out.contains("#[test] fn test_mut_ref_First() { assert_eq!(ReferenceTester :: test_mut_ref(& mut ReferenceTester::First), ReferenceTester :: First); } "));
    let input = "module: ref_ne, function: ReferenceTester::test_ref, matches: [&First => ReferenceTester::Second, &Second => ReferenceTester::First,]";
    let out = test_variants_ne(input, item).unwrap();
    assert!(out.contains("#[test] fn test_ref_Second() { assert_ne!(ReferenceTester :: test_ref(& ReferenceTester::Second), ReferenceTester :: First); } "));
}

#[test]
fn variants_with_fields_module() {
    let item = "enum HasFields { Zero, Named { a: u8 }, Unnamed(u8), }";
    let input = "module: has_fields_eq, function: HasFields::number, matches: [Zero => 0, Named{a: 10} => 10, Unnamed(100) => 100,]";
    let out = test_variants_eq(input, item).unwrap();
    assert!(out.contains("fn number_Zero() "));
    assert!(out.contains("fn number_Named() { assert_eq!(HasFields :: number(HasFields::Named {a : 10}), 10); } "));
    assert!(out.contains("fn number_Unnamed() { assert_eq!(HasFields :: number(HasFields::Unnamed (100)), 100); } "));
}

#[test]
fn struct_payload_module() {
    let item = "enum HasStruct { Byte(Byte), Tuple(Tuple), }";
    let input = "module: has_struct_ne, function: HasStruct::number, matches: [Byte(Byte{inner: 0}) => 10, Tuple(Tuple((5,5))) => 0,]";
    let out = test_variants_ne(input, item).unwrap();
    assert!(out.contains("fn number_Byte() "));
    assert!(out.contains("fn number_Tuple() "));
}

#[test]
fn count_mismatch_refused() {
    let input = "module: m, function: convert, matches: [Zero => YooSixteen::Zero]";
    match test_variants_eq(input, YOO_EIGHT) {
        Err(e @ MacroError::CountMismatch { length: 1, variant_count: 4 }) => {
            assert_eq!(e.message(), "1 item was supplied but the enum has 4 variant");
        }
        other => panic!("{:?}", other),
    }
    let input = "module: m, function: convert, matches: []";
    match test_variants_eq(input, YOO_EIGHT) {
        Err(e) => assert_eq!(e.message(), "0 items were supplied but the enum has 4 variants"),
        other => panic!("{:?}", other),
    }
}

#[test]
fn wrong_parameter_name_refused() {
    let input = "modul: m, function: convert, matches: [Zero => 1]";
    match test_variants_eq(input, "enum E { Zero }") {
        Err(e @ MacroError::WrongParamName { .. }) => assert_eq!(
            e.message(),
            "Expected a parameter named: module, but found modul instead."
        ),
        other => panic!("{:?}", other),
    }
}

#[test]
fn malformed_parameters_refused() {
    assert!(matches!(
        test_variants_eq("module: m function: f, matches: [Zero => 1]", "enum E { Zero }"),
        Err(MacroError::FailedToParse)
    ));
    assert!(matches!(
        test_variants_eq("module: m, function: f, matches: [Zero => 1] extra", "enum E { Zero }"),
        Err(MacroError::FailedToParse)
    ));
    assert!(matches!(
        test_variants_eq("module: m, function: f, matches: (Zero => 1)", "enum E { Zero }"),
        Err(MacroError::FailedToParse)
    ));
    assert!(matches!(
        test_variants_eq("module: m, function: f, matches: [Zero]", "enum E { Zero }"),
        Err(MacroError::ListParseFailed)
    ));
    assert!(matches!(
        test_variants_eq("module: m, function: f, matches: [=> 1]", "enum E { Zero }"),
        Err(MacroError::InputPatternFailed)
    ));
}

#[test]
fn not_an_enum_refused() {
    assert!(matches!(
        test_variants_eq("module: m, function: f, matches: [Zero => 1]", "struct S;"),
        Err(MacroError::TestVariantsNotAnEnum(_))
    ));
}

#[test]
fn invalid_test_name_refused() {
    match test_variants_eq("module: m, function: f, matches: [-1 => 1]", "enum E { Zero }") {
        Err(MacroError::InvalidTestName(name)) => assert_eq!(name, "f_-"),
        other => panic!("{:?}", other),
    }
}

#[test]
fn eq_and_ne_refuse_alike() {
    let input = "module: m, function: f, matches: [Zero => 1, One => 2]";
    let item = "enum E { Zero }";
    assert!(matches!(test_variants_eq(input, item), Err(MacroError::CountMismatch { .. })));
    assert!(matches!(test_variants_ne(input, item), Err(MacroError::CountMismatch { .. })));
}

#[test]
fn validate_and_tests_text() {
    let definition = parse_enum("enum E { A, B }").unwrap();
    let v = VariantsInput::validate("module: t, function: m::f, matches: [A => 1, &B => 2]", &definition).unwrap();
    assert_eq!(v.module, "t");
    assert_eq!(v.function_name, "f");
    assert_eq!(v.test_expressions.len(), 2);
    let out = v.tests_text("enum E { A, B }", &definition, Assertion::Ne).unwrap();
    assert_eq!(
        out,
        "enum E { A, B } #[allow(non_snake_case)] #[cfg(test)] mod t { use super::*; \
#[test] fn f_A() { assert_ne!(m :: f(E::A), 1); } #[test] fn f_B() { assert_ne!(m :: f(& E::B), 2); } }"
    );
}

#[test]
fn list_variants_listing() {
    let out = list_variants("u8", "enum Variants { One = 1, Five = 5, Ten = 10 }").unwrap();
    assert_eq!(
        out,
        "impl  Variants for   { const VARIANTS: [u8; 3usize] = [1, 5, 10]; } #[cfg(test)] #[test] fn Variants_variants() { assert_eq!(Self::One as u8, VARIANTS[0usize]); assert_eq!(Self::Five as u8, VARIANTS[1usize]); assert_eq!(Self::Ten as u8, VARIANTS[2usize]); }"
    );
}

#[test]
fn list_variants_missing_discriminant() {
    assert!(matches!(
        list_variants("u8", "enum Variants { One = 1, Five, Ten = 10 }"),
        Err(MacroError::MissingDiscriminant)
    ));
}

#[test]
fn list_variants_refusals() {
    assert!(matches!(list_variants("", "enum V { One = 1 }"), Err(MacroError::NotAType(_))));
    match list_variants("u8", "struct S;") {
        Err(e @ MacroError::ListVariantsNotAnEnum(_)) => assert_eq!(
            e.message(),
            "list_variants must be used on an enum definition.: Error(\"expected `enum`\")"
        ),
        other => panic!("{:?}", other),
    }
}

#[test]
fn listing_from_parts() {
    let item = EnumItem {
        name: "r#E".to_string(),
        impl_generics: String::new(),
        type_generics: String::new(),
        where_clause: String::new(),
        variant_names: vec!["A".to_string()],
        discriminants: vec![Some("7".to_string())],
    };
    assert_eq!(
        variants_listing("i32", &item).unwrap(),
        "impl  r#E for   { const VARIANTS: [i32; 1usize] = [7]; } #[cfg(test)] #[test] fn E_variants() { assert_eq!(Self::A as i32, VARIANTS[0usize]); }"
    );
}

#[test]
fn for_each_variant_always_refused() {
    match for_each_variant("function: fn f(x: u8) -> u8, list: [A => 1]", "enum E { A }") {
        Err(e @ MacroError::InvalidParamName(_)) => {
            assert_eq!(e.message(), "\"function name:\" is not a valid Ident")
        }
        other => panic!("{:?}", other),
    }
    assert!(matches!(for_each_variant("", "enum E { A }"), Err(MacroError::FailedToParse)));
    assert!(matches!(for_each_variant("x", "struct S;"), Err(MacroError::ForEachNotAnEnum(_))));
}

#[test]
fn input_refusal_kinds() {
    let item = "enum E { Zero }";
    assert!(matches!(
        test_variants_eq("module: m, function: f, matches: [Zero One => 1]", item),
        Err(MacroError::ListParseFailed)
    ));
    assert!(matches!(
        test_variants_eq("module: m, function: f, matches: [& => 1]", item),
        Err(MacroError::InputPatternFailed)
    ));
    assert!(matches!(
        test_variants_eq("module: m, function: f, matches: [&a + b => 1]", item),
        Err(MacroError::ListParseFailed)
    ));
}
