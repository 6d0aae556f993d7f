//! The code that the variant macros generate: `list_variants`, the test modules of
//! `test_variants_eq` and `test_variants_ne`, and `for_each_variant`.
use crate::arguments::{
    bracket_list, fit_end, ident_at, ident_at_position, is_punct_at, param_name_end,
    parse_bracket_list, punct_at, render, tests_view, value_end, without_reference,
    copy_tokens, ExprOrReference, ExprOrReferenceView, NamedMacroParam, TestExpression,
    TestExpressionView, ValueKind,
};
use crate::error::{outcome_view, MacroError, MacroErrorView};
use crate::syntax::{
    enum_error, ident_token, ident_token_of, is_ident, last_path_segment, lex, lexed, parse_enum,
    parse_type, type_error,
    parsed_enum, parses_as_ident, parses_as_type, path_last_segment, EnumItem, EnumShape,
};
use crate::text::{
    decimal, lemma_occurs_in_concat, leading_name, leading_name_of, occurs_in, push_decimal,
    same_text, unraw, unraw_of,
};
use crate::tokens::{rendered, tokens_view, Token, TokenView};
use vstd::prelude::*;
use vstd::string::StringExecFns;

verus! {

/// Which assertion the generated tests make.
#[derive(Clone, Copy, PartialEq, Eq, Debug)]
pub enum Assertion {
    Eq,
    Ne,
}

/// The text of an assertion.
pub open spec fn assertion_text(a: Assertion) -> Seq<char> {
    match a {
        Assertion::Eq => "assert_eq!"@,
        Assertion::Ne => "assert_ne!"@,
    }
}

impl Assertion {
    /// Appends the assertion macro's name to `tokens`.
    pub fn to_tokens(&self, tokens: &mut String)
        ensures
            final(tokens)@ == old(tokens)@ + assertion_text(*self),
    {
        match self {
            Assertion::Eq => tokens.append("assert_eq!"),
            Assertion::Ne => tokens.append("assert_ne!"),
        }
    }
}

/// The text of a whole sequence of tokens.
pub fn render_all(tokens: &Vec<Token>) -> (r: String)
    ensures
        r@ == rendered(tokens_view(tokens@)),
{
    let r = render(tokens, 0, tokens.len());
    assert(tokens_view(tokens@).subrange(0, tokens.len() as int) =~= tokens_view(tokens@));
    r
}

/// The parameters of `test_variants_eq` and `test_variants_ne`:
/// `module: <name>, function: <path>, matches: [<input> => <expected>, ...]`.
#[derive(Debug)]
pub struct VariantsInput {
    pub module: String,
    pub function: Vec<Token>,
    /// The identifier of the last segment of `function`.
    pub function_name: String,
    pub test_expressions: Vec<TestExpression>,
}

/// The value of a [`VariantsInput`].
pub struct VariantsInputView {
    pub module: Seq<char>,
    pub function: Seq<TokenView>,
    pub function_name: Seq<char>,
    pub tests: Seq<TestExpressionView>,
}

impl View for VariantsInput {
    type V = VariantsInputView;

    open spec fn view(&self) -> VariantsInputView {
        VariantsInputView {
            module: self.module@,
            function: tokens_view(self.function@),
            function_name: self.function_name@,
            tests: tests_view(self.test_expressions@),
        }
    }
}

/// Reading the parameters of `test_variants_eq` and `test_variants_ne` from the tokens `t`.
pub open spec fn variants_input(t: Seq<TokenView>) -> Result<VariantsInputView, MacroErrorView> {
    match param_name_end("module"@, t, 0) {
        Err(e) => Err(e),
        Ok(p0) => match ident_at(t, p0) {
            None => Err(MacroErrorView::FailedToParse),
            Some(module) => if !parses_as_ident(module) || !punct_at(t, p0 + 1, ',') {
                Err(MacroErrorView::FailedToParse)
            } else {
                match param_name_end("function"@, t, p0 + 2) {
                    Err(e) => Err(e),
                    Ok(p1) => match fit_end(ValueKind::Path, t, p1, p1 + 1) {
                        None => Err(MacroErrorView::FailedToParse),
                        Some(q) => if !punct_at(t, q, ',') {
                            Err(MacroErrorView::FailedToParse)
                        } else {
                            match param_name_end("matches"@, t, q + 1) {
                                Err(e) => Err(e),
                                Ok(p2) => match bracket_list(t, p2) {
                                    Err(e) => Err(e),
                                    Ok(tests) => if p2 + 1 != t.len() {
                                        Err(MacroErrorView::FailedToParse)
                                    } else {
                                        Ok(
                                            VariantsInputView {
                                                module,
                                                function: t.subrange(p1, q),
                                                function_name: path_last_segment(
                                                    rendered(t.subrange(p1, q)),
                                                ).unwrap(),
                                                tests,
                                            },
                                        )
                                    },
                                },
                            }
                        },
                    },
                }
            },
        },
    }
}

/// Reading and checking the parameters `input` of a test macro on an enum of shape `shape`:
/// there must be as many test expressions as variants.
pub open spec fn validate_outcome(input: Seq<char>, shape: EnumShape) -> Result<
    VariantsInputView,
    MacroErrorView,
> {
    match lexed(input) {
        None => Err(MacroErrorView::FailedToParse),
        Some(t) => match variants_input(t) {
            Err(e) => Err(e),
            Ok(v) => if v.tests.len() != shape.variant_names.len() {
                Err(
                    MacroErrorView::CountMismatch {
                        length: v.tests.len(),
                        variant_count: shape.variant_names.len(),
                    },
                )
            } else {
                Ok(v)
            },
        },
    }
}

/// The name of the test of `e`: the tested function's name, `_`, and the leading name of
/// the input.
pub open spec fn test_name(function_name: Seq<char>, e: TestExpressionView) -> Seq<char> {
    unraw(function_name) + "_"@ + leading_name(rendered(without_reference(e.input)))
}

/// Whether `name` is exactly one identifier.
pub open spec fn is_identifier(name: Seq<char>) -> bool {
    ident_token_of(name) == Some(name)
}

/// The first test name, in order, that is not an identifier.
pub open spec fn first_invalid_name(function_name: Seq<char>, tests: Seq<TestExpressionView>) -> Option<
    Seq<char>,
>
    decreases tests.len(),
{
    if tests.len() == 0 {
        None
    } else if !is_identifier(test_name(function_name, tests[0])) {
        Some(test_name(function_name, tests[0]))
    } else {
        first_invalid_name(function_name, tests.drop_first())
    }
}

/// What a reference input puts before the enum's name.
pub open spec fn reference_text(mutable: bool) -> Seq<char> {
    if mutable {
        "& mut "@
    } else {
        "& "@
    }
}

/// The variant that a test passes to the tested function: the input, qualified with the
/// enum's name and keeping its reference.
pub open spec fn variant_text(enum_name: Seq<char>, input: ExprOrReferenceView) -> Seq<char> {
    match input {
        ExprOrReferenceView::Expression(e) => enum_name + "::"@ + rendered(e),
        ExprOrReferenceView::Reference(m, e) => reference_text(m) + enum_name + "::"@ + rendered(e),
    }
}

/// The test named `name` of one test expression, which calls the function `function`.
pub open spec fn named_test_case_text(
    assertion: Assertion,
    name: Seq<char>,
    function: Seq<char>,
    enum_name: Seq<char>,
    e: TestExpressionView,
) -> Seq<char> {
    "#[test] fn "@ + name + "() { "@ + assertion_text(assertion) + "("@ + function + "("@
        + variant_text(enum_name, e.input) + "), "@ + rendered(e.pattern) + "); } "@
}

/// The test of one test expression.
pub open spec fn test_case_text(
    assertion: Assertion,
    v: VariantsInputView,
    enum_name: Seq<char>,
    e: TestExpressionView,
) -> Seq<char> {
    named_test_case_text(
        assertion,
        test_name(v.function_name, e),
        rendered(v.function),
        enum_name,
        e,
    )
}

/// Appends the test named `name` of `e` to `out`.
fn push_test_case(
    out: &mut String,
    assertion: Assertion,
    name: &str,
    function: &str,
    enum_name: &str,
    e: &TestExpression,
)
    ensures
        final(out)@ == old(out)@ + named_test_case_text(
            assertion,
            name@,
            function@,
            enum_name@,
            e@,
        ),
{
    let ghost before = out@;
    out.append("#[test] fn ");
    out.append(name);
    out.append("() { ");
    assertion.to_tokens(out);
    out.append("(");
    out.append(function);
    out.append("(");
    push_variant(out, enum_name, &e.input);
    out.append("), ");
    let pattern_text = render_all(&e.pattern);
    out.append(pattern_text.as_str());
    out.append("); } ");
    assert(out@ =~= before + named_test_case_text(assertion, name@, function@, enum_name@, e@));
}

/// Appends the variant that a test passes to the tested function to `out`.
fn push_variant(out: &mut String, enum_name: &str, input: &ExprOrReference)
    ensures
        final(out)@ == old(out)@ + variant_text(enum_name@, input@),
{
    let ghost before = out@;
    match input {
        ExprOrReference::Expression(_) => {},
        ExprOrReference::Reference { mutable, .. } => {
            if *mutable {
                out.append("& mut ");
            } else {
                out.append("& ");
            }
        },
    }
    out.append(enum_name);
    out.append("::");
    let expr_text = render_all(input.expression_without_reference());
    out.append(expr_text.as_str());
    assert(out@ =~= before + variant_text(enum_name@, input@));
}

/// The name of the test of `e`, given the tested function's name without `r#`.
fn test_name_of(function_name: &str, e: &TestExpression) -> (r: String)
    ensures
        r@ == function_name@ + "_"@ + leading_name(rendered(without_reference(e.input@))),
{
    let expr_text = render_all(e.input.expression_without_reference());
    let leading = leading_name_of(expr_text.as_str());
    let mut name = String::from_str(function_name);
    name.append("_");
    name.append(leading.as_str());
    name
}

/// The tests of a sequence of test expressions, in order.
pub open spec fn test_cases_text(
    assertion: Assertion,
    v: VariantsInputView,
    enum_name: Seq<char>,
    tests: Seq<TestExpressionView>,
) -> Seq<char>
    decreases tests.len(),
{
    if tests.len() == 0 {
        Seq::empty()
    } else {
        test_cases_text(assertion, v, enum_name, tests.drop_last()) + test_case_text(
            assertion,
            v,
            enum_name,
            tests.last(),
        )
    }
}

/// The text generated for the enum `definition` of shape `shape`: the definition, then a
/// test module with one test per test expression.
pub open spec fn test_module_text(
    assertion: Assertion,
    v: VariantsInputView,
    definition: Seq<char>,
    shape: EnumShape,
) -> Seq<char> {
    definition + " #[allow(non_snake_case)] #[cfg(test)] mod "@ + v.module + " { use super::*; "@
        + test_cases_text(assertion, v, shape.name, v.tests) + "}"@
}

/// What `tests_text` answers.
pub open spec fn tests_outcome(
    assertion: Assertion,
    v: VariantsInputView,
    definition: Seq<char>,
    shape: EnumShape,
) -> Result<Seq<char>, MacroErrorView> {
    match first_invalid_name(v.function_name, v.tests) {
        Some(name) => Err(MacroErrorView::InvalidTestName(name)),
        None => Ok(test_module_text(assertion, v, definition, shape)),
    }
}

/// What `parse_for_equality` answers for the parameters `input` and the item `item`.
pub open spec fn equality_outcome(input: Seq<char>, item: Seq<char>, assertion: Assertion) -> Result<
    Seq<char>,
    MacroErrorView,
> {
    match parsed_enum(item) {
        None => Err(MacroErrorView::TestVariantsNotAnEnum(enum_error(item))),
        Some(shape) => match validate_outcome(input, shape) {
            Err(e) => Err(e),
            Ok(v) => tests_outcome(assertion, v, item, shape),
        },
    }
}

impl VariantsInput {
    /// Reads the parameters from the tokens `tokens`.
    pub fn parse(tokens: &Vec<Token>) -> (r: Result<VariantsInput, MacroError>)
        ensures
            match r {
                Ok(v) => variants_input(tokens_view(tokens@)) == Ok::<
                    VariantsInputView,
                    MacroErrorView,
                >(v@),
                Err(e) => variants_input(tokens_view(tokens@)) == Err::<
                    VariantsInputView,
                    MacroErrorView,
                >(e@),
            },
    {
        let ghost t = tokens_view(tokens@);
        let p0 = NamedMacroParam::new("module", tokens, 0)?.value_start;
        let module = match ident_at_position(tokens, p0) {
            Some(m) => m,
            None => return Err(MacroError::FailedToParse),
        };
        if !is_ident(module.as_str()) || !is_punct_at(tokens, p0 + 1, ',') {
            return Err(MacroError::FailedToParse);
        }
        let p1 = NamedMacroParam::new("function", tokens, p0 + 2)?.value_start;
        if p1 >= tokens.len() {
            assert(fit_end(ValueKind::Path, t, p1 as int, p1 + 1) is None);
            return Err(MacroError::FailedToParse);
        }
        let q = match value_end(ValueKind::Path, tokens, p1) {
            Some(q) => q,
            None => return Err(MacroError::FailedToParse),
        };
        if !is_punct_at(tokens, q, ',') {
            return Err(MacroError::FailedToParse);
        }
        let p2 = NamedMacroParam::new("matches", tokens, q + 1)?.value_start;
        let tests = parse_bracket_list(tokens, p2)?;
        if p2 >= tokens.len() || p2 + 1 != tokens.len() {
            return Err(MacroError::FailedToParse);
        }
        proof {
            crate::arguments::lemma_fit_end_bounds(ValueKind::Path, t, p1 as int, p1 + 1);
        }
        let function = copy_tokens(tokens, p1, q);
        let path_text = render(tokens, p1, q);
        let function_name = match last_path_segment(path_text.as_str()) {
            Some(name) => name,
            None => return Err(MacroError::FailedToParse),
        };
        Ok(VariantsInput { module: module.clone(), function, function_name, test_expressions: tests })
    }

    /// Reads the parameters `input` of a test macro on the enum `definition` and checks that
    /// there are as many test expressions as variants.
    pub fn validate(input: &str, definition: &EnumItem) -> (r: Result<VariantsInput, MacroError>)
        ensures
            match r {
                Ok(v) => validate_outcome(input@, definition@) == Ok::<
                    VariantsInputView,
                    MacroErrorView,
                >(v@),
                Err(e) => validate_outcome(input@, definition@) == Err::<
                    VariantsInputView,
                    MacroErrorView,
                >(e@),
            },
    {
        let tokens = match lex(input) {
            Some(tokens) => tokens,
            None => return Err(MacroError::FailedToParse),
        };
        let v = VariantsInput::parse(&tokens)?;
        let length = v.test_expressions.len();
        let variant_count = definition.variant_names.len();
        if length != variant_count {
            return Err(MacroError::CountMismatch { length, variant_count });
        }
        Ok(v)
    }

    /// The tests of these parameters, for the enum `definition` whose parts are `item`.
    /// Refused at the first test name that is not an identifier.
    pub fn tests_text(&self, definition: &str, item: &EnumItem, assertion: Assertion) -> (r:
        Result<String, MacroError>)
        ensures
            outcome_view(r) == tests_outcome(assertion, self@, definition@, item@),
    {
        let ghost v = self@;
        let ghost tests = v.tests;
        let function_text = render_all(&self.function);
        let function_name = unraw_of(self.function_name.as_str());
        let mut out = String::from_str(definition);
        out.append(" #[allow(non_snake_case)] #[cfg(test)] mod ");
        out.append(self.module.as_str());
        out.append(" { use super::*; ");
        let ghost header = out@;
        let mut i: usize = 0;
        assert(tests.skip(0) =~= tests);
        while i < self.test_expressions.len()
            invariant
                v == self@,
                tests == v.tests,
                tests.len() == self.test_expressions.len(),
                i <= tests.len(),
                function_text@ == rendered(v.function),
                function_name@ == unraw(v.function_name),
                out@ == header + test_cases_text(assertion, v, item@.name, tests.take(i as int)),
                first_invalid_name(v.function_name, tests) == first_invalid_name(
                    v.function_name,
                    tests.skip(i as int),
                ),
            decreases tests.len() - i,
        {
            let e = &self.test_expressions[i];
            let ghost ev = tests[i as int];
            assert(e@ == ev);
            let name = test_name_of(function_name.as_str(), e);
            assert(name@ =~= test_name(v.function_name, ev));
            let valid = match ident_token(name.as_str()) {
                Some(text) => same_text(text.as_str(), name.as_str()),
                None => false,
            };
            assert(tests.skip(i as int)[0] == ev);
            if !valid {
                return Err(MacroError::InvalidTestName(name));
            }
            assert(tests.skip(i as int).drop_first() =~= tests.skip(i + 1));
            let ghost before = out@;
            push_test_case(&mut out, assertion, name.as_str(), function_text.as_str(), item.name.as_str(), e);
            assert(out@ =~= before + test_case_text(assertion, v, item@.name, ev));
            assert(tests.take(i + 1).drop_last() =~= tests.take(i as int));
            assert(out@ =~= header + test_cases_text(
                assertion,
                v,
                item@.name,
                tests.take(i + 1),
            ));
            i = i + 1;
        }
        assert(tests.take(i as int) =~= tests);
        assert(tests.skip(i as int).len() == 0);
        out.append("}");
        Ok(out)
    }

    /// What `test_variants_eq` and `test_variants_ne` share: reads the enum `item` and the
    /// parameters `input`, and generates one test per test expression, which makes the
    /// assertion `assertion` on the tested function's result for that variant.
    pub fn parse_for_equality(input: &str, item: &str, assertion: Assertion) -> (r: Result<
        String,
        MacroError,
    >)
        ensures
            outcome_view(r) == equality_outcome(input@, item@, assertion),
    {
        let definition = match parse_enum(item) {
            Ok(definition) => definition,
            Err(e) => return Err(MacroError::TestVariantsNotAnEnum(e)),
        };
        let v = VariantsInput::validate(input, &definition)?;
        v.tests_text(item, &definition, assertion)
    }
}

/// Generates tests that *all* variants equal the corresponding pattern.
pub fn test_variants_eq(input: &str, item: &str) -> (r: Result<String, MacroError>)
    ensures
        outcome_view(r) == equality_outcome(input@, item@, Assertion::Eq),
{
    VariantsInput::parse_for_equality(input, item, Assertion::Eq)
}

/// Generates tests that *all* variants do not equal the corresponding pattern.
pub fn test_variants_ne(input: &str, item: &str) -> (r: Result<String, MacroError>)
    ensures
        outcome_view(r) == equality_outcome(input@, item@, Assertion::Ne),
{
    VariantsInput::parse_for_equality(input, item, Assertion::Ne)
}

/// The texts `items`, separated by `sep`.
pub open spec fn joined(items: Seq<Seq<char>>, sep: Seq<char>) -> Seq<char>
    decreases items.len(),
{
    if items.len() == 0 {
        Seq::empty()
    } else if items.len() == 1 {
        items[0]
    } else {
        joined(items.drop_last(), sep) + sep + items.last()
    }
}

/// Whether every variant has an explicit discriminant.
pub open spec fn all_discriminants(discriminants: Seq<Option<Seq<char>>>) -> bool {
    forall|i: int| 0 <= i < discriminants.len() ==> #[trigger] discriminants[i] is Some
}

/// The assertions of the generated test of `list_variants`: variant `i` cast to `ty` is
/// `VARIANTS[i]`.
pub open spec fn variant_assertions(names: Seq<Seq<char>>, ty: Seq<char>) -> Seq<char>
    decreases names.len(),
{
    if names.len() == 0 {
        Seq::empty()
    } else {
        variant_assertions(names.drop_last(), ty) + "assert_eq!(Self::"@ + names.last() + " as "@
            + ty + ", VARIANTS["@ + decimal((names.len() - 1) as nat) + "usize]); "@
    }
}

/// The text that `list_variants` generates for an enum of shape `shape`, listing the
/// discriminants `discriminants` as values of type `ty`.
pub open spec fn list_variants_text(
    ty: Seq<char>,
    shape: EnumShape,
    discriminants: Seq<Seq<char>>,
) -> Seq<char> {
    "impl "@ + shape.impl_generics + " "@ + shape.name + " for "@ + shape.type_generics + " "@
        + shape.where_clause + " { const VARIANTS: ["@ + ty + "; "@ + decimal(
        discriminants.len(),
    ) + "usize] = ["@ + joined(discriminants, ", "@) + "]; } #[cfg(test)] #[test] fn "@ + unraw(
        shape.name,
    ) + "_variants() { "@ + variant_assertions(shape.variant_names, ty) + "}"@
}

/// What `list_variants` answers for the type `ty` and the item `input`.
pub open spec fn list_variants_outcome(ty: Seq<char>, input: Seq<char>) -> Result<
    Seq<char>,
    MacroErrorView,
> {
    if !parses_as_type(ty) {
        Err(MacroErrorView::NotAType(type_error(ty)))
    } else {
        match parsed_enum(input) {
            None => Err(MacroErrorView::ListVariantsNotAnEnum(enum_error(input))),
            Some(shape) => if !all_discriminants(shape.discriminants) {
                Err(MacroErrorView::MissingDiscriminant)
            } else {
                Ok(
                    list_variants_text(
                        ty,
                        shape,
                        shape.discriminants.map_values(|d: Option<Seq<char>>| d.unwrap()),
                    ),
                )
            },
        }
    }
}

/// Appends `items`, separated by `sep`, to `out`.
fn push_joined(out: &mut String, items: &Vec<String>, sep: &str)
    ensures
        final(out)@ == old(out)@ + joined(items@.map_values(|s: String| s@), sep@),
{
    let ghost start = out@;
    let ghost all = items@.map_values(|s: String| s@);
    let mut i: usize = 0;
    while i < items.len()
        invariant
            i <= items.len(),
            all == items@.map_values(|s: String| s@),
            out@ == start + joined(all.take(i as int), sep@),
        decreases items.len() - i,
    {
        if i > 0 {
            out.append(sep);
        }
        out.append(items[i].as_str());
        assert(all.take(i + 1).drop_last() =~= all.take(i as int));
        if i == 0 {
            assert(all.take(1)[0] == all[0]);
        }
        assert(out@ =~= start + joined(all.take(i + 1), sep@));
        i = i + 1;
    }
    assert(all.take(items.len() as int) =~= all);
}

/// Appends the assertions of the test of `list_variants` to `out`.
fn push_variant_assertions(out: &mut String, names: &Vec<String>, ty: &str)
    ensures
        final(out)@ == old(out)@ + variant_assertions(names@.map_values(|s: String| s@), ty@),
{
    let ghost start = out@;
    let ghost all = names@.map_values(|s: String| s@);
    let mut i: usize = 0;
    while i < names.len()
        invariant
            i <= names.len(),
            all == names@.map_values(|s: String| s@),
            out@ == start + variant_assertions(all.take(i as int), ty@),
        decreases names.len() - i,
    {
        out.append("assert_eq!(Self::");
        out.append(names[i].as_str());
        out.append(" as ");
        out.append(ty);
        out.append(", VARIANTS[");
        push_decimal(out, i);
        out.append("usize]); ");
        assert(all.take(i + 1).drop_last() =~= all.take(i as int));
        assert(out@ =~= start + variant_assertions(all.take(i + 1), ty@));
        i = i + 1;
    }
    assert(all.take(names.len() as int) =~= all);
}

/// The listing of the discriminants of the enum whose parts are `item`, as values of type
/// `variant_type`. Refused when a variant has no explicit discriminant.
pub fn variants_listing(variant_type: &str, item: &EnumItem) -> (r: Result<String, MacroError>)
    ensures
        outcome_view(r) == (if !all_discriminants(item@.discriminants) {
            Err::<Seq<char>, MacroErrorView>(MacroErrorView::MissingDiscriminant)
        } else {
            Ok::<Seq<char>, MacroErrorView>(
                list_variants_text(
                    variant_type@,
                    item@,
                    item@.discriminants.map_values(|d: Option<Seq<char>>| d.unwrap()),
                ),
            )
        }),
{
    let ghost ds = item@.discriminants;
    let mut discriminants: Vec<String> = Vec::new();
    let mut i: usize = 0;
    while i < item.discriminants.len()
        invariant
            i <= item.discriminants.len(),
            ds == item@.discriminants,
            ds.len() == item.discriminants.len(),
            discriminants.len() == i,
            forall|j: int| 0 <= j < i ==> #[trigger] ds[j] is Some,
            forall|j: int| 0 <= j < i ==> ds[j] == Some(#[trigger] discriminants@[j]@),
        decreases item.discriminants.len() - i,
    {
        match &item.discriminants[i] {
            Some(d) => {
                discriminants.push(d.clone());
            },
            None => {
                assert(!(ds[i as int] is Some));
                return Err(MacroError::MissingDiscriminant);
            },
        }
        i = i + 1;
    }
    let ghost listed = ds.map_values(|d: Option<Seq<char>>| d.unwrap());
    assert(discriminants@.map_values(|s: String| s@) =~= listed);
    let mut out = String::from_str("impl ");
    out.append(item.impl_generics.as_str());
    out.append(" ");
    out.append(item.name.as_str());
    out.append(" for ");
    out.append(item.type_generics.as_str());
    out.append(" ");
    out.append(item.where_clause.as_str());
    out.append(" { const VARIANTS: [");
    out.append(variant_type);
    out.append("; ");
    push_decimal(&mut out, discriminants.len());
    out.append("usize] = [");
    push_joined(&mut out, &discriminants, ", ");
    out.append("]; } #[cfg(test)] #[test] fn ");
    let name = unraw_of(item.name.as_str());
    out.append(name.as_str());
    out.append("_variants() { ");
    push_variant_assertions(&mut out, &item.variant_names, variant_type);
    out.append("}");
    assert(out@ =~= list_variants_text(variant_type@, item@, listed));
    Ok(out)
}

/// Lists the explicit discriminants of the enum `input` in an associated constant
/// `VARIANTS` of element type `variant_type`, with a test that each variant cast to that
/// type is its entry. `variant_type` and `input` are the text of the macro's token streams.
pub fn list_variants(variant_type: &str, input: &str) -> (r: Result<String, MacroError>)
    ensures
        outcome_view(r) == list_variants_outcome(variant_type@, input@),
{
    if let Err(e) = parse_type(variant_type) {
        return Err(MacroError::NotAType(e));
    }
    match parse_enum(input) {
        Err(e) => Err(MacroError::ListVariantsNotAnEnum(e)),
        Ok(item) => variants_listing(variant_type, &item),
    }
}

/// The parameters of `for_each_variant`:
/// `function name: <signature>, : [<input> => <expected>, ...]`.
#[derive(Debug)]
pub struct ForEachVariantInput {
    pub signature: Vec<Token>,
    pub list: Vec<TestExpression>,
}

/// The value of a [`ForEachVariantInput`].
pub struct ForEachVariantInputView {
    pub signature: Seq<TokenView>,
    pub tests: Seq<TestExpressionView>,
}

impl View for ForEachVariantInput {
    type V = ForEachVariantInputView;

    open spec fn view(&self) -> ForEachVariantInputView {
        ForEachVariantInputView {
            signature: tokens_view(self.signature@),
            tests: tests_view(self.list@),
        }
    }
}

/// Reading the parameters of `for_each_variant` from the tokens `t`. The expected parameter
/// names are `function name:` and the empty name.
pub open spec fn for_each_input(t: Seq<TokenView>) -> Result<
    ForEachVariantInputView,
    MacroErrorView,
> {
    match param_name_end("function name:"@, t, 0) {
        Err(e) => Err(e),
        Ok(p0) => match fit_end(ValueKind::Signature, t, p0, p0 + 1) {
            None => Err(MacroErrorView::FailedToParse),
            Some(q) => if !punct_at(t, q, ',') {
                Err(MacroErrorView::FailedToParse)
            } else {
                match param_name_end(""@, t, q + 1) {
                    Err(e) => Err(e),
                    Ok(p1) => match bracket_list(t, p1) {
                        Err(e) => Err(e),
                        Ok(tests) => if p1 + 1 != t.len() {
                            Err(MacroErrorView::FailedToParse)
                        } else {
                            Ok(ForEachVariantInputView { signature: t.subrange(p0, q), tests })
                        },
                    },
                }
            },
        },
    }
}

/// Reading and checking the parameters `input` of `for_each_variant` on an enum of shape
/// `shape`: there must be as many test expressions as variants.
pub open spec fn for_each_validate(input: Seq<char>, shape: EnumShape) -> Result<
    ForEachVariantInputView,
    MacroErrorView,
> {
    match lexed(input) {
        None => Err(MacroErrorView::FailedToParse),
        Some(t) => match for_each_input(t) {
            Err(e) => Err(e),
            Ok(v) => if v.tests.len() != shape.variant_names.len() {
                Err(
                    MacroErrorView::CountMismatch {
                        length: v.tests.len(),
                        variant_count: shape.variant_names.len(),
                    },
                )
            } else {
                Ok(v)
            },
        },
    }
}

/// The text of an input, keeping its reference.
pub open spec fn input_text(input: ExprOrReferenceView) -> Seq<char> {
    match input {
        ExprOrReferenceView::Expression(e) => rendered(e),
        ExprOrReferenceView::Reference(m, e) => reference_text(m) + rendered(e),
    }
}

/// One arm of the generated body: the input, then the pattern in braces.
pub open spec fn arm_text(e: TestExpressionView) -> Seq<char> {
    input_text(e.input) + " {"@ + rendered(e.pattern) + "}"@
}

/// The function that `for_each_variant` generates: the signature, then the arms separated
/// by commas.
pub open spec fn for_each_text(v: ForEachVariantInputView) -> Seq<char> {
    rendered(v.signature) + " { "@ + joined(v.tests.map_values(|e: TestExpressionView| arm_text(e)), ", "@)
        + " }"@
}

/// What `for_each_variant` answers for the parameters `input` and the item `item`.
pub open spec fn for_each_outcome(input: Seq<char>, item: Seq<char>) -> Result<
    Seq<char>,
    MacroErrorView,
> {
    match parsed_enum(item) {
        None => Err(MacroErrorView::ForEachNotAnEnum(enum_error(item))),
        Some(shape) => match for_each_validate(input, shape) {
            Err(e) => Err(e),
            Ok(v) => Ok(for_each_text(v)),
        },
    }
}

impl ForEachVariantInput {
    /// Reads the parameters from the tokens `tokens`.
    pub fn parse(tokens: &Vec<Token>) -> (r: Result<ForEachVariantInput, MacroError>)
        ensures
            match r {
                Ok(v) => for_each_input(tokens_view(tokens@)) == Ok::<
                    ForEachVariantInputView,
                    MacroErrorView,
                >(v@),
                Err(e) => for_each_input(tokens_view(tokens@)) == Err::<
                    ForEachVariantInputView,
                    MacroErrorView,
                >(e@),
            },
            r is Err,
    {
        let ghost t = tokens_view(tokens@);
        let p0 = NamedMacroParam::new("function name:", tokens, 0)?.value_start;
        proof {
            reveal_strlit("function name:");
            assert("function name:"@[8] == ' ');
        }
        if p0 >= tokens.len() {
            assert(fit_end(ValueKind::Signature, t, p0 as int, p0 + 1) is None);
            return Err(MacroError::FailedToParse);
        }
        let q = match value_end(ValueKind::Signature, tokens, p0) {
            Some(q) => q,
            None => return Err(MacroError::FailedToParse),
        };
        proof {
            crate::arguments::lemma_fit_end_bounds(ValueKind::Signature, t, p0 as int, p0 + 1);
        }
        if !is_punct_at(tokens, q, ',') {
            return Err(MacroError::FailedToParse);
        }
        let p1 = NamedMacroParam::new("", tokens, q + 1)?.value_start;
        let list = parse_bracket_list(tokens, p1)?;
        if p1 >= tokens.len() || p1 + 1 != tokens.len() {
            return Err(MacroError::FailedToParse);
        }
        let signature = copy_tokens(tokens, p0, q);
        Ok(ForEachVariantInput { signature, list })
    }

    /// Reads the parameters `input` of `for_each_variant` on the enum `definition` and
    /// checks that there are as many test expressions as variants.
    pub fn validate(input: &str, definition: &EnumItem) -> (r: Result<
        ForEachVariantInput,
        MacroError,
    >)
        ensures
            match r {
                Ok(v) => for_each_validate(input@, definition@) == Ok::<
                    ForEachVariantInputView,
                    MacroErrorView,
                >(v@),
                Err(e) => for_each_validate(input@, definition@) == Err::<
                    ForEachVariantInputView,
                    MacroErrorView,
                >(e@),
            },
            r is Err,
    {
        let tokens = match lex(input) {
            Some(tokens) => tokens,
            None => return Err(MacroError::FailedToParse),
        };
        let v = ForEachVariantInput::parse(&tokens)?;
        let length = v.list.len();
        let variant_count = definition.variant_names.len();
        if length != variant_count {
            return Err(MacroError::CountMismatch { length, variant_count });
        }
        Ok(v)
    }

    /// The generated function: the signature, then one arm per test expression.
    pub fn function_text(&self) -> (r: String)
        ensures
            r@ == for_each_text(self@),
    {
        let ghost tests = self@.tests;
        let mut arms: Vec<String> = Vec::new();
        let mut i: usize = 0;
        while i < self.list.len()
            invariant
                i <= self.list.len(),
                tests == self@.tests,
                tests.len() == self.list.len(),
                arms.len() == i,
                forall|j: int| 0 <= j < i ==> (#[trigger] arms@[j])@ == arm_text(tests[j]),
            decreases self.list.len() - i,
        {
            let e = &self.list[i];
            assert(e@ == tests[i as int]);
            let mut arm = String::new();
            match &e.input {
                ExprOrReference::Expression(_) => {},
                ExprOrReference::Reference { mutable, .. } => {
                    if *mutable {
                        arm.append("& mut ");
                    } else {
                        arm.append("& ");
                    }
                },
            }
            let expr_text = render_all(e.input.expression_without_reference());
            arm.append(expr_text.as_str());
            arm.append(" {");
            let pattern_text = render_all(&e.pattern);
            arm.append(pattern_text.as_str());
            arm.append("}");
            assert(arm@ =~= arm_text(tests[i as int]));
            arms.push(arm);
            i = i + 1;
        }
        assert(arms@.map_values(|s: String| s@) =~= tests.map_values(
            |e: TestExpressionView| arm_text(e),
        ));
        let mut out = render_all(&self.signature);
        out.append(" { ");
        push_joined(&mut out, &arms, ", ");
        out.append(" }");
        out
    }
}

/// Generates the function of signature `function name:` whose body is the arms
/// `input {expected}` of the list. The expected parameter names `function name:` and the
/// empty name are not identifiers, so this refuses every input.
pub fn for_each_variant(input: &str, item: &str) -> (r: Result<String, MacroError>)
    ensures
        outcome_view(r) == for_each_outcome(input@, item@),
        r is Err,
{
    let definition = match parse_enum(item) {
        Ok(definition) => definition,
        Err(e) => return Err(MacroError::ForEachNotAnEnum(e)),
    };
    let v = ForEachVariantInput::validate(input, &definition)?;
    Ok(v.function_text())
}

/// The tests of two sequences of test expressions follow each other.
pub proof fn lemma_test_cases_append(
    assertion: Assertion,
    v: VariantsInputView,
    enum_name: Seq<char>,
    a: Seq<TestExpressionView>,
    b: Seq<TestExpressionView>,
)
    ensures
        test_cases_text(assertion, v, enum_name, a + b) == test_cases_text(assertion, v, enum_name, a)
            + test_cases_text(assertion, v, enum_name, b),
    decreases b.len(),
{
    if b.len() == 0 {
        assert(a + b =~= a);
        assert(test_cases_text(assertion, v, enum_name, a) + Seq::<char>::empty()
            =~= test_cases_text(assertion, v, enum_name, a));
    } else {
        lemma_test_cases_append(assertion, v, enum_name, a, b.drop_last());
        assert((a + b).drop_last() =~= a + b.drop_last());
        assert((a + b).last() == b.last());
        assert(test_cases_text(assertion, v, enum_name, a + b) =~= test_cases_text(
            assertion,
            v,
            enum_name,
            a,
        ) + test_cases_text(assertion, v, enum_name, b));
    }
}

/// A generated test module holds one test per test expression, in order, and as many
/// test expressions as the enum has variants: test `i` calls the tested function on the
/// input of expression `i` and compares the result with its pattern.
pub proof fn law_one_test_per_variant(
    input: Seq<char>,
    item: Seq<char>,
    assertion: Assertion,
    i: int,
)
    requires
        equality_outcome(input, item, assertion) is Ok,
    ensures
        parsed_enum(item) matches Some(shape) && validate_outcome(input, shape) matches Ok(v) && {
            &&& v.tests.len() == shape.variant_names.len()
            &&& first_invalid_name(v.function_name, v.tests) is None
            &&& 0 <= i < v.tests.len() ==> test_module_text(assertion, v, item, shape) == item
                + " #[allow(non_snake_case)] #[cfg(test)] mod "@ + v.module + " { use super::*; "@
                + test_cases_text(assertion, v, shape.name, v.tests.take(i)) + test_case_text(
                assertion,
                v,
                shape.name,
                v.tests[i],
            ) + test_cases_text(assertion, v, shape.name, v.tests.skip(i + 1)) + "}"@
        },
{
    let shape = parsed_enum(item).unwrap();
    let v = validate_outcome(input, shape)->Ok_0;
    if 0 <= i < v.tests.len() {
        let head = v.tests.take(i);
        let one = seq![v.tests[i]];
        let tail = v.tests.skip(i + 1);
        assert(v.tests =~= head + one + tail);
        lemma_test_cases_append(assertion, v, shape.name, head + one, tail);
        lemma_test_cases_append(assertion, v, shape.name, head, one);
        assert(one.drop_last().len() == 0);
        assert(one.last() == v.tests[i]);
        assert(test_cases_text(assertion, v, shape.name, one.drop_last()) =~= Seq::<char>::empty());
        assert(test_cases_text(assertion, v, shape.name, one) =~= test_case_text(
            assertion,
            v,
            shape.name,
            v.tests[i],
        ));
        assert(test_module_text(assertion, v, item, shape) =~= item
            + " #[allow(non_snake_case)] #[cfg(test)] mod "@ + v.module + " { use super::*; "@
            + test_cases_text(assertion, v, shape.name, head) + test_case_text(
            assertion,
            v,
            shape.name,
            v.tests[i],
        ) + test_cases_text(assertion, v, shape.name, tail) + "}"@);
    }
}

/// `test_variants_eq` and `test_variants_ne` refuse the same inputs for the same reason,
/// and accept the same inputs.
pub proof fn law_eq_and_ne_refuse_alike(input: Seq<char>, item: Seq<char>)
    ensures
        equality_outcome(input, item, Assertion::Eq) is Ok <==> equality_outcome(
            input,
            item,
            Assertion::Ne,
        ) is Ok,
        equality_outcome(input, item, Assertion::Eq) is Err ==> equality_outcome(
            input,
            item,
            Assertion::Eq,
        ) == equality_outcome(input, item, Assertion::Ne),
{
}

/// A count mismatch is refused, whatever the other parameters: a test list with another
/// number of expressions than the enum has variants is never accepted.
pub proof fn law_count_mismatch_refused(input: Seq<char>, shape: EnumShape)
    ensures
        match lexed(input) {
            Some(t) => match variants_input(t) {
                Ok(v) => v.tests.len() != shape.variant_names.len() ==> validate_outcome(
                    input,
                    shape,
                ) == Err::<VariantsInputView, MacroErrorView>(
                    MacroErrorView::CountMismatch {
                        length: v.tests.len(),
                        variant_count: shape.variant_names.len(),
                    },
                ),
                Err(_) => true,
            },
            None => true,
        },
{
}

/// Joining lists each text once, in order, with the separator between two texts and
/// nowhere else: no text gives the empty text, one text gives itself, and the join of a
/// list is the join of its first `i` texts, the separator, then the join of the rest.
pub proof fn law_joined_lists_each_in_order(items: Seq<Seq<char>>, sep: Seq<char>, i: int)
    requires
        0 < i < items.len(),
    ensures
        joined(Seq::empty(), sep) == Seq::<char>::empty(),
        joined(seq![items[0]], sep) == items[0],
        joined(items, sep) == joined(items.take(i), sep) + sep + joined(items.skip(i), sep),
    decreases items.len(),
{
    assert(seq![items[0]][0] == items[0]);
    if i == items.len() - 1 {
        assert(items.drop_last() =~= items.take(i));
        assert(items.skip(i) =~= seq![items.last()]);
        assert(joined(items.skip(i), sep) == items.skip(i)[0]);
    } else {
        law_joined_lists_each_in_order(items.drop_last(), sep, i);
        assert(items.drop_last().take(i) =~= items.take(i));
        let rest = items.skip(i);
        assert(rest.len() >= 2);
        assert(rest.drop_last() =~= items.drop_last().skip(i));
        assert(rest.last() == items.last());
        assert(joined(rest, sep) == joined(rest.drop_last(), sep) + sep + rest.last());
        assert(joined(items, sep) =~= joined(items.take(i), sep) + sep + joined(rest, sep));
    }
}

/// When `list_variants` accepts an enum, every variant has a discriminant, and `VARIANTS`
/// has as many entries as the enum has variants, of the given type, and lists each
/// discriminant whole, as the enum writes it, in order.
pub proof fn law_variants_lists_discriminants(ty: Seq<char>, input: Seq<char>)
    ensures
        match list_variants_outcome(ty, input) {
            Ok(text) => match parsed_enum(input) {
                Some(shape) => {
                    &&& all_discriminants(shape.discriminants)
                    &&& occurs_in(
                        text,
                        " { const VARIANTS: ["@ + ty + "; "@ + decimal(shape.discriminants.len())
                            + "usize] = ["@ + joined(
                            shape.discriminants.map_values(|d: Option<Seq<char>>| d.unwrap()),
                            ", "@,
                        ) + "]; } #[cfg(test)] #[test] fn "@,
                    )
                },
                None => false,
            },
            Err(_) => true,
        },
{
    if let Ok(text) = list_variants_outcome(ty, input) {
        let shape = parsed_enum(input).unwrap();
        let ds = shape.discriminants.map_values(|d: Option<Seq<char>>| d.unwrap());
        let pre = "impl "@ + shape.impl_generics + " "@ + shape.name + " for "@
            + shape.type_generics + " "@ + shape.where_clause;
        let needle = " { const VARIANTS: ["@ + ty + "; "@ + decimal(ds.len()) + "usize] = ["@
            + joined(ds, ", "@) + "]; } #[cfg(test)] #[test] fn "@;
        let rest = unraw(shape.name) + "_variants() { "@ + variant_assertions(
            shape.variant_names,
            ty,
        ) + "}"@;
        assert(text =~= pre + needle + rest);
        lemma_occurs_in_concat(pre, needle, rest);
    }
}

} // verus!
