//! Why a macro refuses its input, and the message that says so.
use crate::text::{decimal, push_decimal};
use crate::tokens::push_char;
use vstd::string::StrSliceExecFns;
use vstd::prelude::*;
use vstd::string::StringExecFns;

verus! {

/// Why a macro refuses its input.
#[derive(Debug)]
pub enum MacroError {
    /// The type parameter of `strawberry_fields` is empty.
    EmptyTypeParameter,
    /// The type parameter is not a type; with the debug form of the parser's error.
    NotAType(String),
    /// `strawberry_fields` is applied to something other than a struct.
    NotAStruct(String),
    /// The struct has a field without a name.
    UnnamedField,
    /// `list_variants` is applied to something other than an enum.
    ListVariantsNotAnEnum(String),
    /// `test_variants_eq` or `test_variants_ne` is applied to something other than an enum.
    TestVariantsNotAnEnum(String),
    /// `for_each_variant` is applied to something other than an enum.
    ForEachNotAnEnum(String),
    /// A variant of the enum has no explicit discriminant.
    MissingDiscriminant,
    /// The macro's parameters do not have the expected form.
    FailedToParse,
    /// The list of test expressions does not have the expected form.
    ListParseFailed,
    /// The input of a test expression is not an expression.
    InputPatternFailed,
    /// The expected name of a parameter is not an identifier.
    InvalidParamName(String),
    /// A parameter has another name than the expected one.
    WrongParamName { expected: String, found: String },
    /// The number of test expressions is not the number of variants.
    CountMismatch { length: usize, variant_count: usize },
    /// A generated test name is not an identifier.
    InvalidTestName(String),
}

/// The value of a [`MacroError`].
pub enum MacroErrorView {
    EmptyTypeParameter,
    NotAType(Seq<char>),
    NotAStruct(Seq<char>),
    UnnamedField,
    ListVariantsNotAnEnum(Seq<char>),
    TestVariantsNotAnEnum(Seq<char>),
    ForEachNotAnEnum(Seq<char>),
    MissingDiscriminant,
    FailedToParse,
    ListParseFailed,
    InputPatternFailed,
    InvalidParamName(Seq<char>),
    WrongParamName { expected: Seq<char>, found: Seq<char> },
    CountMismatch { length: nat, variant_count: nat },
    InvalidTestName(Seq<char>),
}

impl View for MacroError {
    type V = MacroErrorView;

    open spec fn view(&self) -> MacroErrorView {
        match self {
            MacroError::EmptyTypeParameter => MacroErrorView::EmptyTypeParameter,
            MacroError::NotAType(e) => MacroErrorView::NotAType(e@),
            MacroError::NotAStruct(e) => MacroErrorView::NotAStruct(e@),
            MacroError::UnnamedField => MacroErrorView::UnnamedField,
            MacroError::ListVariantsNotAnEnum(e) => MacroErrorView::ListVariantsNotAnEnum(e@),
            MacroError::TestVariantsNotAnEnum(e) => MacroErrorView::TestVariantsNotAnEnum(e@),
            MacroError::ForEachNotAnEnum(e) => MacroErrorView::ForEachNotAnEnum(e@),
            MacroError::MissingDiscriminant => MacroErrorView::MissingDiscriminant,
            MacroError::FailedToParse => MacroErrorView::FailedToParse,
            MacroError::ListParseFailed => MacroErrorView::ListParseFailed,
            MacroError::InputPatternFailed => MacroErrorView::InputPatternFailed,
            MacroError::InvalidParamName(s) => MacroErrorView::InvalidParamName(s@),
            MacroError::WrongParamName { expected, found } => MacroErrorView::WrongParamName {
                expected: expected@,
                found: found@,
            },
            MacroError::CountMismatch { length, variant_count } => MacroErrorView::CountMismatch {
                length: *length as nat,
                variant_count: *variant_count as nat,
            },
            MacroError::InvalidTestName(s) => MacroErrorView::InvalidTestName(s@),
        }
    }
}

/// The value of an outcome: the generated text, or the error.
pub open spec fn outcome_view(r: Result<String, MacroError>) -> Result<Seq<char>, MacroErrorView> {
    match r {
        Ok(s) => Ok(s@),
        Err(e) => Err(e@),
    }
}

/// The text of a count mismatch: the three words agree with the number of items supplied.
pub open spec fn count_mismatch_text(length: nat, variant_count: nat) -> Seq<char> {
    let (item_or_items, were_or_was, variant_or_variants) = if length == 1 {
        ("item"@, "was"@, "variant"@)
    } else {
        ("items"@, "were"@, "variants"@)
    };
    decimal(length) + " "@ + item_or_items + " "@ + were_or_was + " supplied but the enum has "@
        + decimal(variant_count) + " "@ + variant_or_variants
}

/// The message of an error.
pub open spec fn message_text(e: MacroErrorView) -> Seq<char> {
    match e {
        MacroErrorView::EmptyTypeParameter => "Type parameter must not be empty."@,
        MacroErrorView::NotAType(e) => "Found a non type or generic parameter in type position.: "@
            + e,
        MacroErrorView::NotAStruct(e) => "StrawberryFields may only be derived for structs.: "@ + e,
        MacroErrorView::UnnamedField =>
            "internal error: entered unreachable code: Macro should have checked that it isn't expanding for a tuple stuct, but did not."@,
        MacroErrorView::ListVariantsNotAnEnum(e) =>
            "list_variants must be used on an enum definition.: "@ + e,
        MacroErrorView::TestVariantsNotAnEnum(e) => "test_for_variants may only be used with enums.: "@
            + e,
        MacroErrorView::ForEachNotAnEnum(e) => "called `Result::unwrap()` on an `Err` value: "@ + e,
        MacroErrorView::MissingDiscriminant =>
            "List Variants can only be used when all discriminants are explicitly defined"@,
        MacroErrorView::FailedToParse => "Failed to parse"@,
        MacroErrorView::ListParseFailed => "Parsing list failed"@,
        MacroErrorView::InputPatternFailed => "could not parse input pattern"@,
        MacroErrorView::InvalidParamName(s) => quoted(s) + " is not a valid Ident"@,
        MacroErrorView::WrongParamName { expected, found } => "Expected a parameter named: "@
            + expected + ", but found "@ + found + " instead."@,
        MacroErrorView::CountMismatch { length, variant_count } => count_mismatch_text(
            length,
            variant_count,
        ),
        MacroErrorView::InvalidTestName(s) => quoted(s) + " is not a valid Ident"@,
    }
}

/// How a character is written between the quotes of a string's debug form: quotes and
/// backslashes behind a backslash, and the usual escapes for tab, return, newline and nul.
pub open spec fn escaped(c: char) -> Seq<char> {
    if c == '"' {
        seq!['\\', '"']
    } else if c == '\\' {
        seq!['\\', '\\']
    } else if c == '\n' {
        seq!['\\', 'n']
    } else if c == '\r' {
        seq!['\\', 'r']
    } else if c == '\t' {
        seq!['\\', 't']
    } else if c == '\0' {
        seq!['\\', '0']
    } else {
        seq![c]
    }
}

/// The characters of `s`, each written as [`escaped`] gives it.
pub open spec fn escaped_text(s: Seq<char>) -> Seq<char>
    decreases s.len(),
{
    if s.len() == 0 {
        Seq::empty()
    } else {
        escaped_text(s.drop_last()) + escaped(s.last())
    }
}

/// A name in quotes, as the debug form of a string writes it.
pub open spec fn quoted(s: Seq<char>) -> Seq<char> {
    seq!['"'] + escaped_text(s) + seq!['"']
}

/// Appends `s` in quotes to `out`, as the debug form of a string writes it.
pub fn push_quoted(out: &mut String, s: &str)
    ensures
        final(out)@ == old(out)@ + quoted(s@),
{
    let ghost start = out@;
    push_char(out, '"');
    let len = s.unicode_len();
    let mut i: usize = 0;
    while i < len
        invariant
            len == s@.len(),
            i <= len,
            out@ == start + seq!['"'] + escaped_text(s@.take(i as int)),
        decreases len - i,
    {
        let c = s.get_char(i);
        let ghost before = out@;
        if c == '"' || c == '\\' {
            push_char(out, '\\');
            push_char(out, c);
        } else if c == '\n' {
            push_char(out, '\\');
            push_char(out, 'n');
        } else if c == '\r' {
            push_char(out, '\\');
            push_char(out, 'r');
        } else if c == '\t' {
            push_char(out, '\\');
            push_char(out, 't');
        } else if c == '\0' {
            push_char(out, '\\');
            push_char(out, '0');
        } else {
            push_char(out, c);
        }
        assert(out@ =~= before + escaped(c));
        assert(s@.take(i + 1).drop_last() =~= s@.take(i as int));
        assert(s@.take(i + 1).last() == c);
        assert(out@ =~= start + seq!['"'] + escaped_text(s@.take(i + 1)));
        i = i + 1;
    }
    assert(s@.take(len as int) =~= s@);
    push_char(out, '"');
    assert(out@ =~= start + quoted(s@));
}

impl MacroError {
    /// The message that the macro reports for this error.
    pub fn message(&self) -> (r: String)
        ensures
            r@ == message_text(self@),
    {
        match self {
            MacroError::EmptyTypeParameter => String::from_str("Type parameter must not be empty."),
            MacroError::NotAType(e) => {
                let mut r = String::from_str("Found a non type or generic parameter in type position.: ");
                r.append(e.as_str());
                r
            },
            MacroError::NotAStruct(e) => {
                let mut r = String::from_str("StrawberryFields may only be derived for structs.: ");
                r.append(e.as_str());
                r
            },
            MacroError::UnnamedField => String::from_str(
                "internal error: entered unreachable code: Macro should have checked that it isn't expanding for a tuple stuct, but did not.",
            ),
            MacroError::ListVariantsNotAnEnum(e) => {
                let mut r = String::from_str("list_variants must be used on an enum definition.: ");
                r.append(e.as_str());
                r
            },
            MacroError::TestVariantsNotAnEnum(e) => {
                let mut r = String::from_str("test_for_variants may only be used with enums.: ");
                r.append(e.as_str());
                r
            },
            MacroError::ForEachNotAnEnum(e) => {
                let mut r = String::from_str("called `Result::unwrap()` on an `Err` value: ");
                r.append(e.as_str());
                r
            },
            MacroError::MissingDiscriminant => String::from_str(
                "List Variants can only be used when all discriminants are explicitly defined",
            ),
            MacroError::FailedToParse => String::from_str("Failed to parse"),
            MacroError::ListParseFailed => String::from_str("Parsing list failed"),
            MacroError::InputPatternFailed => String::from_str("could not parse input pattern"),
            MacroError::InvalidParamName(s) => {
                let mut r = String::new();
                push_quoted(&mut r, s.as_str());
                r.append(" is not a valid Ident");
                r
            },
            MacroError::WrongParamName { expected, found } => {
                let mut r = String::from_str("Expected a parameter named: ");
                r.append(expected.as_str());
                r.append(", but found ");
                r.append(found.as_str());
                r.append(" instead.");
                r
            },
            MacroError::CountMismatch { length, variant_count } => {
                let mut r = String::new();
                push_decimal(&mut r, *length);
                if *length == 1 {
                    r.append(" item was supplied but the enum has ");
                } else {
                    r.append(" items were supplied but the enum has ");
                }
                push_decimal(&mut r, *variant_count);
                if *length == 1 {
                    r.append(" variant");
                } else {
                    r.append(" variants");
                }
                proof {
                    reveal_strlit(" item was supplied but the enum has ");
                    reveal_strlit(" items were supplied but the enum has ");
                    reveal_strlit(" supplied but the enum has ");
                    reveal_strlit(" variant");
                    reveal_strlit(" variants");
                    reveal_strlit("item");
                    reveal_strlit("items");
                    reveal_strlit("was");
                    reveal_strlit("were");
                    reveal_strlit("variant");
                    reveal_strlit("variants");
                    reveal_strlit(" ");
                }
                assert(r@ =~= count_mismatch_text(*length as nat, *variant_count as nat));
                r
            },
            MacroError::InvalidTestName(s) => {
                let mut r = String::new();
                push_quoted(&mut r, s.as_str());
                r.append(" is not a valid Ident");
                r
            },
        }
    }
}

} // verus!
