//! What is read from Rust source text with `syn` and `proc-macro2`: which texts are
//! types, identifiers, paths, expressions and signatures, and the shape of struct and enum
//! definitions. Every reading uses `proc-macro2`'s own lexer and printer (its fallback
//! implementation), which the library never switches back to the compiler's, so that each
//! result is a function of the text. The switch is made for the whole process: once a
//! reading has been made, every `proc-macro2` value in the process is built by that
//! implementation and carries no span of the compiler's.
use crate::tokens::{tokens_view, Delimiter, Spacing, Token, TokenView};
use proc_macro2::{Delimiter as D, Spacing as S, TokenTree as T};
use quote::ToTokens;
use syn::ext::IdentExt;
use syn::parse::Parser;
use vstd::prelude::*;

verus! {

/// The parts of a struct definition that the generated code needs.
#[derive(Debug)]
pub struct StructItem {
    pub name: String,
    pub impl_generics: String,
    pub type_generics: String,
    pub where_clause: String,
    /// The name of each field, in order; `None` for a field without a name.
    pub field_names: Vec<Option<String>>,
}

/// The value of a [`StructItem`].
pub struct StructShape {
    pub name: Seq<char>,
    pub impl_generics: Seq<char>,
    pub type_generics: Seq<char>,
    pub where_clause: Seq<char>,
    pub field_names: Seq<Option<Seq<char>>>,
}

/// The value of an optional string.
pub open spec fn option_view(o: Option<String>) -> Option<Seq<char>> {
    match o {
        Some(s) => Some(s@),
        None => None,
    }
}

/// The values of a sequence of strings.
pub open spec fn strings_view(v: Seq<String>) -> Seq<Seq<char>> {
    v.map_values(|s: String| s@)
}

impl View for StructItem {
    type V = StructShape;

    open spec fn view(&self) -> StructShape {
        StructShape {
            name: self.name@,
            impl_generics: self.impl_generics@,
            type_generics: self.type_generics@,
            where_clause: self.where_clause@,
            field_names: self.field_names@.map_values(|o: Option<String>| option_view(o)),
        }
    }
}

/// The parts of an enum definition that the generated code needs.
#[derive(Debug)]
pub struct EnumItem {
    pub name: String,
    pub impl_generics: String,
    pub type_generics: String,
    pub where_clause: String,
    /// The name of each variant, in order.
    pub variant_names: Vec<String>,
    /// The text of the explicit discriminant of each variant, in order.
    pub discriminants: Vec<Option<String>>,
}

/// The value of an [`EnumItem`].
pub struct EnumShape {
    pub name: Seq<char>,
    pub impl_generics: Seq<char>,
    pub type_generics: Seq<char>,
    pub where_clause: Seq<char>,
    pub variant_names: Seq<Seq<char>>,
    pub discriminants: Seq<Option<Seq<char>>>,
}

impl View for EnumItem {
    type V = EnumShape;

    open spec fn view(&self) -> EnumShape {
        EnumShape {
            name: self.name@,
            impl_generics: self.impl_generics@,
            type_generics: self.type_generics@,
            where_clause: self.where_clause@,
            variant_names: strings_view(self.variant_names@),
            discriminants: self.discriminants@.map_values(|o: Option<String>| option_view(o)),
        }
    }
}

/// The token trees of a text, as the lexer reads them; `None` where it cannot.
pub uninterp spec fn lexed(src: Seq<char>) -> Option<Seq<TokenView>>;

/// Whether a text is one Rust type.
pub uninterp spec fn parses_as_type(src: Seq<char>) -> bool;

/// Whether a text is one identifier that is not a keyword.
pub uninterp spec fn parses_as_ident(src: Seq<char>) -> bool;

/// Whether a text is one Rust expression.
pub uninterp spec fn parses_as_expr(src: Seq<char>) -> bool;

/// Whether a text is one reference expression (`&x` or `&mut x`).
pub uninterp spec fn parses_as_reference(src: Seq<char>) -> bool;

/// Whether a text is one function signature.
pub uninterp spec fn parses_as_signature(src: Seq<char>) -> bool;

/// The identifier of the last segment of a text that is one path; `None` for a text that
/// is not a path.
pub uninterp spec fn path_last_segment(src: Seq<char>) -> Option<Seq<char>>;

/// The identifier (keywords included) that a text holds, as the identifier prints; `None`
/// for a text that is not one identifier.
pub uninterp spec fn ident_token_of(src: Seq<char>) -> Option<Seq<char>>;

/// The shape of a text that is one struct definition; `None` for any other text.
pub uninterp spec fn parsed_struct(src: Seq<char>) -> Option<StructShape>;

/// The shape of a text that is one enum definition; `None` for any other text.
pub uninterp spec fn parsed_enum(src: Seq<char>) -> Option<EnumShape>;

/// The debug form of the error that `syn` gives for a text that is not one type.
pub uninterp spec fn type_error(src: Seq<char>) -> Seq<char>;

/// The debug form of the error that `syn` gives for a text that is not one struct definition.
pub uninterp spec fn struct_error(src: Seq<char>) -> Seq<char>;

/// The debug form of the error that `syn` gives for a text that is not one enum definition.
pub uninterp spec fn enum_error(src: Seq<char>) -> Seq<char>;

/// Lexes `src` with `proc_macro2`'s `FromStr for TokenStream` and hands out each top-level
/// token tree as a [`Token`]; a group keeps the text that its inner stream prints as. The
/// contract claims only that the result is a fixed function of `src`, which it is with the
/// lexer and printer fixed as below.
/// Lexing and printing go through `proc_macro2::fallback::force()` first, so that they are
/// `proc-macro2`'s own implementation in every process, never the compiler's. That switch
/// holds for the whole process from then on: every later `proc-macro2` value, the caller's
/// included, is built by that implementation and carries no span of the compiler's.
#[verifier::external_body]
pub fn lex(src: &str) -> (res: Option<Vec<Token>>)
    ensures
        match res {
            Some(v) => lexed(src@) == Some(tokens_view(v@)),
            None => lexed(src@) is None,
        },
{
    proc_macro2::fallback::force();
    let stream: proc_macro2::TokenStream = src.parse().ok()?;
    Some(stream.into_iter().map(|tree| match tree {
        T::Ident(i) => Token::Ident(i.to_string()),
        T::Punct(p) => Token::Punct(p.as_char(), match p.spacing() {
            S::Joint => Spacing::Joint, S::Alone => Spacing::Alone,
        }),
        T::Literal(l) => Token::Literal(l.to_string()),
        T::Group(g) => Token::Group(match g.delimiter() {
            D::Parenthesis => Delimiter::Parenthesis, D::Brace => Delimiter::Brace,
            D::Bracket => Delimiter::Bracket, D::None => Delimiter::Invisible,
        }, g.stream().to_string()),
    }).collect())
}

/// Whether `syn::parse_str::<syn::Type>` accepts `src`, that is, whether the whole text is
/// one type; where it does not, the debug form of `syn`'s error. The contract claims only
/// that the answer is a fixed function of `src`.
/// Lexing and printing go through `proc_macro2::fallback::force()` first, so that they are
/// `proc-macro2`'s own implementation in every process, never the compiler's. That switch
/// holds for the whole process from then on: every later `proc-macro2` value, the caller's
/// included, is built by that implementation and carries no span of the compiler's.
#[verifier::external_body]
pub fn parse_type(src: &str) -> (res: Result<(), String>)
    ensures
        res is Ok <==> parses_as_type(src@),
        res matches Err(e) ==> e@ == type_error(src@),
{
    proc_macro2::fallback::force();
    syn::parse_str::<syn::Type>(src).map(|_| ()).map_err(|e| format!("{:?}", e))
}

/// Whether `syn::parse_str::<syn::Ident>` accepts `src`: one identifier that is not a
/// keyword. The contract claims only that the answer is a fixed function of `src`.
/// Lexing and printing go through `proc_macro2::fallback::force()` first, so that they are
/// `proc-macro2`'s own implementation in every process, never the compiler's. That switch
/// holds for the whole process from then on: every later `proc-macro2` value, the caller's
/// included, is built by that implementation and carries no span of the compiler's.
#[verifier::external_body]
pub fn is_ident(src: &str) -> (res: bool)
    ensures
        res == parses_as_ident(src@),
{
    proc_macro2::fallback::force();
    syn::parse_str::<syn::Ident>(src).is_ok()
}

/// Whether `syn::parse_str::<syn::Expr>` accepts `src`: one expression. The contract claims
/// only that the answer is a fixed function of `src`.
/// Lexing and printing go through `proc_macro2::fallback::force()` first, so that they are
/// `proc-macro2`'s own implementation in every process, never the compiler's. That switch
/// holds for the whole process from then on: every later `proc-macro2` value, the caller's
/// included, is built by that implementation and carries no span of the compiler's.
#[verifier::external_body]
pub fn is_expr(src: &str) -> (res: bool)
    ensures
        res == parses_as_expr(src@),
{
    proc_macro2::fallback::force();
    syn::parse_str::<syn::Expr>(src).is_ok()
}

/// Whether `syn::parse_str::<syn::ExprReference>` accepts `src`: one reference expression.
/// The contract claims only that the answer is a fixed function of `src`.
/// Lexing and printing go through `proc_macro2::fallback::force()` first, so that they are
/// `proc-macro2`'s own implementation in every process, never the compiler's. That switch
/// holds for the whole process from then on: every later `proc-macro2` value, the caller's
/// included, is built by that implementation and carries no span of the compiler's.
#[verifier::external_body]
pub fn is_reference(src: &str) -> (res: bool)
    ensures
        res == parses_as_reference(src@),
{
    proc_macro2::fallback::force();
    syn::parse_str::<syn::ExprReference>(src).is_ok()
}

/// Whether `syn::parse_str::<syn::Signature>` accepts `src`: one function signature. The
/// contract claims only that the answer is a fixed function of `src`.
/// Lexing and printing go through `proc_macro2::fallback::force()` first, so that they are
/// `proc-macro2`'s own implementation in every process, never the compiler's. That switch
/// holds for the whole process from then on: every later `proc-macro2` value, the caller's
/// included, is built by that implementation and carries no span of the compiler's.
#[verifier::external_body]
pub fn is_signature(src: &str) -> (res: bool)
    ensures
        res == parses_as_signature(src@),
{
    proc_macro2::fallback::force();
    syn::parse_str::<syn::Signature>(src).is_ok()
}

/// Parses `src` with `syn::parse_str::<syn::Path>` and gives the identifier of the path's
/// last segment. The contract claims only that the result is a fixed function of `src`.
/// Lexing and printing go through `proc_macro2::fallback::force()` first, so that they are
/// `proc-macro2`'s own implementation in every process, never the compiler's. That switch
/// holds for the whole process from then on: every later `proc-macro2` value, the caller's
/// included, is built by that implementation and carries no span of the compiler's.
#[verifier::external_body]
pub fn last_path_segment(src: &str) -> (res: Option<String>)
    ensures
        option_view(res) == path_last_segment(src@),
{
    proc_macro2::fallback::force();
    let path = syn::parse_str::<syn::Path>(src).ok()?;
    path.segments.last().map(|segment| segment.ident.to_string())
}

/// Parses `src` as one identifier with `syn::Ident::parse_any` (keywords are accepted) and
/// gives the text that the identifier prints as. An identifier's text holds neither a space
/// nor a colon; that is the one thing claimed of it besides being a fixed function of `src`.
/// Lexing and printing go through `proc_macro2::fallback::force()` first, so that they are
/// `proc-macro2`'s own implementation in every process, never the compiler's. That switch
/// holds for the whole process from then on: every later `proc-macro2` value, the caller's
/// included, is built by that implementation and carries no span of the compiler's.
#[verifier::external_body]
pub fn ident_token(src: &str) -> (res: Option<String>)
    ensures
        option_view(res) == ident_token_of(src@),
        res matches Some(t) ==> !t@.contains(' ') && !t@.contains(':'),
{
    proc_macro2::fallback::force();
    syn::Ident::parse_any.parse_str(src).ok().map(|ident| ident.to_string())
}

/// Parses `src` with `syn::parse_str::<syn::ItemStruct>` and reads the struct's name, the
/// three parts of `Generics::split_for_impl` as they print, and the name of each field;
/// where `syn` refuses `src`, the debug form of its error. The contract claims only that the
/// result is a fixed function of `src`.
/// Lexing and printing go through `proc_macro2::fallback::force()` first, so that they are
/// `proc-macro2`'s own implementation in every process, never the compiler's. That switch
/// holds for the whole process from then on: every later `proc-macro2` value, the caller's
/// included, is built by that implementation and carries no span of the compiler's.
#[verifier::external_body]
pub fn parse_struct(src: &str) -> (res: Result<StructItem, String>)
    ensures
        match res {
            Ok(item) => parsed_struct(src@) == Some(item@),
            Err(e) => parsed_struct(src@) is None && e@ == struct_error(src@),
        },
{
    proc_macro2::fallback::force();
    let item = syn::parse_str::<syn::ItemStruct>(src).map_err(|e| format!("{:?}", e))?;
    let (impl_generics, type_generics, where_clause) = item.generics.split_for_impl();
    Ok(StructItem {
        name: item.ident.to_string(),
        impl_generics: impl_generics.to_token_stream().to_string(),
        type_generics: type_generics.to_token_stream().to_string(),
        where_clause: where_clause.to_token_stream().to_string(),
        field_names: item.fields.iter().map(|f| f.ident.as_ref().map(|i| i.to_string())).collect(),
    })
}

/// Parses `src` with `syn::parse_str::<syn::ItemEnum>` and reads the enum's name, the three
/// parts of `Generics::split_for_impl` as they print, and each variant's name and explicit
/// discriminant; where `syn` refuses `src`, the debug form of its error. The contract claims
/// only that the result is a fixed function of `src`.
/// Lexing and printing go through `proc_macro2::fallback::force()` first, so that they are
/// `proc-macro2`'s own implementation in every process, never the compiler's. That switch
/// holds for the whole process from then on: every later `proc-macro2` value, the caller's
/// included, is built by that implementation and carries no span of the compiler's.
#[verifier::external_body]
pub fn parse_enum(src: &str) -> (res: Result<EnumItem, String>)
    ensures
        match res {
            Ok(item) => parsed_enum(src@) == Some(item@),
            Err(e) => parsed_enum(src@) is None && e@ == enum_error(src@),
        },
{
    proc_macro2::fallback::force();
    let item = syn::parse_str::<syn::ItemEnum>(src).map_err(|e| format!("{:?}", e))?;
    let (impl_generics, type_generics, where_clause) = item.generics.split_for_impl();
    Ok(EnumItem {
        name: item.ident.to_string(),
        impl_generics: impl_generics.to_token_stream().to_string(),
        type_generics: type_generics.to_token_stream().to_string(),
        where_clause: where_clause.to_token_stream().to_string(),
        variant_names: item.variants.iter().map(|v| v.ident.to_string()).collect(),
        discriminants: item.variants.iter().map(|v| v.discriminant.as_ref().map(|d| d.1.to_token_stream().to_string())).collect(),
    })
}

} // verus!
