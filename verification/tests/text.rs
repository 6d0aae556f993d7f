use strawberry_fields::error::MacroError;
use strawberry_fields::syntax::{ident_token, is_expr, is_ident, is_reference, is_signature, last_path_segment, lex, parse_type};
use strawberry_fields::text::{leading_name_of, push_decimal, same_text, unraw_of, white_space};
use strawberry_fields::tokens::{Delimiter, Spacing, Token};

#[test]
fn decimal_numerals() {
    let mut s = String::from("n=");
    push_decimal(&mut s, 0);
    assert_eq!(s, "n=0");
    let mut s = String::new();
    push_decimal(&mut s, 1207);
    assert_eq!(s, "1207");
}

#[test]
fn leading_names() {
    assert_eq!(leading_name_of("Named {a : 10}"), "Named");
    assert_eq!(leading_name_of("Unnamed(100)"), "Unnamed");
    assert_eq!(leading_name_of("Zero"), "Zero");
    assert_eq!(leading_name_of("A\u{3000}B"), "A");
    assert_eq!(leading_name_of(""), "");
    assert!(white_space('\t'));
    assert!(!white_space('x'));
}

#[test]
fn raw_identifiers() {
    assert_eq!(unraw_of("r#match"), "match");
    assert_eq!(unraw_of("rest"), "rest");
    assert!(same_text("abc", "abc"));
    assert!(!same_text("abc", "abd"));
}

#[test]
fn lexing_top_level_tokens() {
    let tokens = lex("a::b, [x => 1] 'c'").unwrap();
    assert_eq!(tokens.len(), 7);
    assert!(matches!(&tokens[0], Token::Ident(s) if s == "a"));
    assert!(matches!(&tokens[1], Token::Punct(':', Spacing::Joint)));
    assert!(matches!(&tokens[2], Token::Punct(':', Spacing::Alone)));
    assert!(matches!(&tokens[4], Token::Punct(',', Spacing::Alone)));
    assert!(matches!(&tokens[5], Token::Group(Delimiter::Bracket, s) if s == "x => 1"));
    assert!(matches!(&tokens[6], Token::Literal(s) if s == "'c'"));
    assert!(lex("(").is_none());
}

#[test]
fn syntax_recognition() {
    assert!(parse_type("Vec<u8>").is_ok());
    assert!(parse_type("1 +").is_err());
    assert!(is_ident("module"));
    assert!(!is_ident("fn"));
    assert!(is_expr("a + b"));
    assert!(!is_expr("a b"));
    assert!(is_reference("&mut x"));
    assert!(!is_reference("x"));
    assert!(is_signature("fn f(x: u8) -> u8"));
    assert!(!is_signature("f(x)"));
    assert_eq!(last_path_segment("a::b::<T>").as_deref(), Some("b"));
    assert_eq!(last_path_segment("1"), None);
    assert_eq!(ident_token(" r#fn ").as_deref(), Some("r#fn"));
    assert_eq!(ident_token("a b"), None);
}

#[test]
fn messages() {
    assert_eq!(MacroError::EmptyTypeParameter.message(), "Type parameter must not be empty.");
    assert_eq!(
        MacroError::CountMismatch { length: 2, variant_count: 1 }.message(),
        "2 items were supplied but the enum has 1 variants"
    );
    assert_eq!(
        MacroError::InvalidTestName("f_-".to_string()).message(),
        "\"f_-\" is not a valid Ident"
    );
    assert_eq!(MacroError::ListParseFailed.message(), "Parsing list failed");
}

#[test]
fn messages_as_panics_write_them() {
    assert_eq!(
        MacroError::UnnamedField.message(),
        "internal error: entered unreachable code: Macro should have checked that it isn't expanding for a tuple stuct, but did not."
    );
    assert_eq!(
        MacroError::ForEachNotAnEnum("Error(\"expected `enum`\")".to_string()).message(),
        "called `Result::unwrap()` on an `Err` value: Error(\"expected `enum`\")"
    );
    assert_eq!(
        MacroError::InvalidTestName("f_\"x\"\\".to_string()).message(),
        format!("{:?} is not a valid Ident", "f_\"x\"\\")
    );
    assert_eq!(
        MacroError::InvalidParamName("a\tb\n".to_string()).message(),
        format!("{:?} is not a valid Ident", "a\tb\n")
    );
}
