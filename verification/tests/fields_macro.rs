use strawberry_fields::error::MacroError;
use strawberry_fields::fields_macro::{fields_impl, strawberry_fields};
use strawberry_fields::syntax::{parse_struct, StructItem};

fn methods_for(names: &[&str]) -> String {
    let each = |before: &str, after: &str| -> String {
        names.iter().map(|n| format!("{}{}{}", before, n, after)).collect::<String>()
    };
    let twice = |before: &str, middle: &str, after: &str| -> String {
        names.iter().map(|n| format!("{}{}{}{}{}", before, n, middle, n, after)).collect::<String>()
    };
    let mut s = String::new();
    s += "fn all_fields<P: FnMut(Self::Argument) -> bool>(self, mut predicate: P) -> bool { ";
    s += &each("if !predicate(self.", ") { return false; } ");
    s += "true } ";
    s += "fn all_fields_ref<P: FnMut(&Self::Argument) -> bool>(&self, mut predicate: P) -> bool { ";
    s += &each("if !predicate(&self.", ") { return false; } ");
    s += "true } ";
    s += "fn any_fields<P: FnMut(Self::Argument) -> bool>(self, mut predicate: P) -> bool { ";
    s += &each("if predicate(self.", ") { return true; } ");
    s += "false } ";
    s += "fn any_fields_ref<P: FnMut(&Self::Argument) -> bool>(&self, mut predicate: P) -> bool { ";
    s += &each("if predicate(&self.", ") { return true; } ");
    s += "false } ";
    s += "fn find_field<P: FnMut(&Self::Argument) -> bool>(self, mut predicate: P) -> Option<Self::Argument> { ";
    s += &twice("if predicate(&self.", ") { return Some(self.", "); } ");
    s += "None } ";
    s += "fn find_field_ref<P: FnMut(&Self::Argument) -> bool>(&self, mut predicate: P) -> Option<&Self::Argument> { ";
    s += &twice("if predicate(&self.", ") { return Some(&self.", "); } ");
    s += "None } ";
    s += "fn fold_fields<Acc, F: FnMut(Self::Argument, Acc) -> Acc>(self, initial: Acc, mut function: F) -> Acc { let mut accumulator = initial; ";
    s += &each("accumulator = function(self.", ", accumulator); ");
    s += "accumulator } ";
    s += "fn fold_fields_ref<Acc, F: FnMut(&Self::Argument, Acc) -> Acc>(&self, initial: Acc, mut function: F) -> Acc { let mut accumulator = initial; ";
    s += &each("accumulator = function(&self.", ", accumulator); ");
    s += "accumulator } ";
    s += "fn for_fields<F: FnMut(Self::Argument)>(self, mut function: F) { ";
    s += &each("function(self.", "); ");
    s += "} ";
    s += "fn for_fields_ref<F: FnMut(&Self::Argument)>(&self, mut function: F) { ";
    s += &each("function(&self.", "); ");
    s += "} ";
    s += "fn for_fields_mut<F: FnMut(&mut Self::Argument)>(&mut self, mut function: F) { ";
    s += &each("function(&mut self.", "); ");
    s += "} ";
    s
}

#[test]
fn two_fields_expansion() {
    let input = "struct NotEmpty { first: u32, second: u32 }";
    let expected = format!(
        "{} impl  strawberry_fields::StrawberryFields for NotEmpty   {{ type Argument = u32; const FIELD_COUNT: usize = 2usize; {}}}",
        input,
        methods_for(&["first", "second"])
    );
    assert_eq!(strawberry_fields("u32", input).unwrap(), expected);
}

#[test]
fn empty_struct_expansion() {
    let input = "struct Empty {}";
    let expected = format!(
        "{} impl  strawberry_fields::StrawberryFields for Empty   {{ type Argument = u32; const FIELD_COUNT: usize = 0usize; {}}}",
        input,
        methods_for(&[])
    );
    assert_eq!(strawberry_fields("u32", input).unwrap(), expected);
}

#[test]
fn generic_struct_expansion() {
    let input = "struct W<T: Clone> where T: Copy { pub x: T }";
    let out = strawberry_fields("T", input).unwrap();
    assert!(out.starts_with(
        "struct W<T: Clone> where T: Copy { pub x: T } impl < T : Clone > strawberry_fields::StrawberryFields for W < T > where T : Copy { type Argument = T; const FIELD_COUNT: usize = 1usize; "
    ));
}

#[test]
fn twelve_fields_count() {
    let fields: Vec<String> = (0..12).map(|i| format!("f{}: u8", i)).collect();
    let input = format!("struct Many {{ {} }}", fields.join(", "));
    let out = strawberry_fields("u8", &input).unwrap();
    assert!(out.contains("const FIELD_COUNT: usize = 12usize; "));
    assert!(out.contains("if !predicate(self.f11) { return false; } true } "));
}

#[test]
fn expansion_is_rust() {
    let out = strawberry_fields("u32", "struct NotEmpty { first: u32, second: u32 }").unwrap();
    assert!(syn::parse_file(&out).is_ok());
}

#[test]
fn empty_type_parameter_refused() {
    assert!(matches!(
        strawberry_fields("", "struct A { x: u8 }"),
        Err(MacroError::EmptyTypeParameter)
    ));
}

#[test]
fn blank_type_parameter_refused() {
    assert!(matches!(
        strawberry_fields(" ", "struct A { x: u8 }"),
        Err(MacroError::EmptyTypeParameter)
    ));
    assert!(matches!(
        strawberry_fields("/* none */", "struct A { x: u8 }"),
        Err(MacroError::EmptyTypeParameter)
    ));
}

#[test]
fn non_type_refused() {
    match strawberry_fields("1 +", "struct A { x: u8 }") {
        Err(e @ MacroError::NotAType(_)) => assert!(e
            .message()
            .starts_with("Found a non type or generic parameter in type position.: Error(\"")),
        other => panic!("{:?}", other),
    }
}

#[test]
fn enum_refused() {
    match strawberry_fields("u32", "enum A { X }") {
        Err(e @ MacroError::NotAStruct(_)) => assert_eq!(
            e.message(),
            "StrawberryFields may only be derived for structs.: Error(\"expected `struct`\")"
        ),
        other => panic!("{:?}", other),
    }
}

#[test]
fn tuple_struct_refused() {
    assert!(matches!(strawberry_fields("u32", "struct T(u32);"), Err(MacroError::UnnamedField)));
}

#[test]
fn unit_struct_has_no_fields() {
    let out = strawberry_fields("u32", "struct U;").unwrap();
    assert!(out.contains("const FIELD_COUNT: usize = 0usize; "));
}

#[test]
fn fields_impl_from_parts() {
    let item = StructItem {
        name: "Pair".to_string(),
        impl_generics: String::new(),
        type_generics: String::new(),
        where_clause: String::new(),
        field_names: vec![Some("a".to_string()), Some("b".to_string())],
    };
    let expected = format!(
        "struct Pair {{ a: i8, b: i8 }} impl  strawberry_fields::StrawberryFields for Pair   {{ type Argument = i8; const FIELD_COUNT: usize = 2usize; {}}}",
        methods_for(&["a", "b"])
    );
    assert_eq!(fields_impl("i8", "struct Pair { a: i8, b: i8 }", &item).unwrap(), expected);
    let unnamed = StructItem { field_names: vec![Some("a".to_string()), None], ..item };
    assert!(matches!(fields_impl("i8", "", &unnamed), Err(MacroError::UnnamedField)));
}

#[test]
fn struct_parts_read() {
    let item = parse_struct("pub struct S<'a, T: Clone = u8> where T: Copy { a: &'a T, pub b: T }").unwrap();
    assert_eq!(item.name, "S");
    assert_eq!(item.impl_generics, "< 'a , T : Clone >");
    assert_eq!(item.type_generics, "< 'a , T >");
    assert_eq!(item.where_clause, "where T : Copy");
    assert_eq!(item.field_names, vec![Some("a".to_string()), Some("b".to_string())]);
    assert!(parse_struct("fn f() {}").is_err());
}
