//! The grammar of the parameters of the variant macros, read over token trees:
//! `name: value` parameters separated by commas, and a bracketed list of test expressions
//! `input => expected`. Rust identifiers, paths, expressions and signatures inside it are
//! recognised with `syn` (see `syntax`).
use crate::error::{MacroError, MacroErrorView};
use crate::syntax::{
    ident_token, ident_token_of, is_expr, is_ident, is_reference, is_signature, last_path_segment,
    lex, lexed, parses_as_expr, parses_as_ident, parses_as_reference, parses_as_signature,
    path_last_segment,
};
use crate::text::same_text;
use crate::tokens::{
    is_punct, push_rendered, rendered, tokens_view, Delimiter, Spacing, Token, TokenView,
};
use vstd::prelude::*;
use vstd::string::StringExecFns;

verus! {

/// The text of the identifier at position `p`, if there is one.
pub open spec fn ident_at(t: Seq<TokenView>, p: int) -> Option<Seq<char>> {
    if 0 <= p < t.len() {
        match t[p] {
            TokenView::Ident(s) => Some(s),
            _ => None,
        }
    } else {
        None
    }
}

/// Whether the token at position `p` is the punctuation character `c`.
pub open spec fn punct_at(t: Seq<TokenView>, p: int, c: char) -> bool {
    0 <= p < t.len() && is_punct(t[p], c)
}

/// Reading `name :` at position `p`: the position after the colon, or why it fails. The
/// name read must be an identifier, `name` must be one too, and they must be equal.
pub open spec fn param_name_end(name: Seq<char>, t: Seq<TokenView>, p: int) -> Result<
    int,
    MacroErrorView,
> {
    match ident_at(t, p) {
        None => Err(MacroErrorView::FailedToParse),
        Some(found) => if !parses_as_ident(found) {
            Err(MacroErrorView::FailedToParse)
        } else if ident_token_of(name) != Some(name) {
            Err(MacroErrorView::InvalidParamName(name))
        } else if found != name {
            Err(MacroErrorView::WrongParamName { expected: name, found })
        } else if !punct_at(t, p + 1, ':') {
            Err(MacroErrorView::FailedToParse)
        } else {
            Ok(p + 2)
        },
    }
}

/// What a parameter's value may be, as far as it needs `syn` to be recognised.
#[derive(Clone, Copy, PartialEq, Eq, Debug)]
pub enum ValueKind {
    Path,
    Expr,
    Signature,
}

/// Whether `text` is a value of kind `kind`.
pub open spec fn fits(kind: ValueKind, text: Seq<char>) -> bool {
    match kind {
        ValueKind::Path => path_last_segment(text) is Some,
        ValueKind::Expr => parses_as_expr(text),
        ValueKind::Signature => parses_as_signature(text),
    }
}

/// Where a value of kind `kind` that starts at `p` ends: the first position `q`, from the
/// given one on, that is the end of the tokens or a comma, and before which the tokens from
/// `p` are one such value.
pub open spec fn fit_end(kind: ValueKind, t: Seq<TokenView>, p: int, q: int) -> Option<int>
    decreases t.len() + 1 - q,
{
    if q > t.len() || q <= p || p < 0 {
        None
    } else if (q == t.len() || punct_at(t, q, ',')) && fits(kind, rendered(t.subrange(p, q))) {
        Some(q)
    } else {
        fit_end(kind, t, p, q + 1)
    }
}

pub proof fn lemma_fit_end_bounds(kind: ValueKind, t: Seq<TokenView>, p: int, q: int)
    ensures
        fit_end(kind, t, p, q) matches Some(r) ==> p < q <= r <= t.len() && (r == t.len()
            || punct_at(t, r, ',')) && fits(kind, rendered(t.subrange(p, r))),
    decreases t.len() + 1 - q,
{
    if !(q > t.len() || q <= p || p < 0) {
        if !((q == t.len() || punct_at(t, q, ',')) && fits(kind, rendered(t.subrange(p, q)))) {
            lemma_fit_end_bounds(kind, t, p, q + 1);
        }
    }
}

/// The input of a test expression: an expression, or a reference to one.
#[derive(Debug)]
pub enum ExprOrReference {
    Expression(Vec<Token>),
    Reference { mutable: bool, expr: Vec<Token> },
}

/// The value of an [`ExprOrReference`].
pub enum ExprOrReferenceView {
    Expression(Seq<TokenView>),
    Reference(bool, Seq<TokenView>),
}

impl View for ExprOrReference {
    type V = ExprOrReferenceView;

    open spec fn view(&self) -> ExprOrReferenceView {
        match self {
            ExprOrReference::Expression(e) => ExprOrReferenceView::Expression(tokens_view(e@)),
            ExprOrReference::Reference { mutable, expr } => ExprOrReferenceView::Reference(
                *mutable,
                tokens_view(expr@),
            ),
        }
    }
}

/// The expression of an input, without the reference.
pub open spec fn without_reference(input: ExprOrReferenceView) -> Seq<TokenView> {
    match input {
        ExprOrReferenceView::Expression(e) => e,
        ExprOrReferenceView::Reference(_, e) => e,
    }
}

impl ExprOrReference {
    /// The expression, without the reference.
    pub fn expression_without_reference(&self) -> (r: &Vec<Token>)
        ensures
            tokens_view(r@) == without_reference(self@),
    {
        match self {
            ExprOrReference::Expression(e) => e,
            ExprOrReference::Reference { expr, .. } => expr,
        }
    }
}

/// One test expression: `input => pattern`.
#[derive(Debug)]
pub struct TestExpression {
    pub input: ExprOrReference,
    pub pattern: Vec<Token>,
}

/// The value of a [`TestExpression`].
pub struct TestExpressionView {
    pub input: ExprOrReferenceView,
    pub pattern: Seq<TokenView>,
}

impl View for TestExpression {
    type V = TestExpressionView;

    open spec fn view(&self) -> TestExpressionView {
        TestExpressionView { input: self.input@, pattern: tokens_view(self.pattern@) }
    }
}

/// The values of a sequence of test expressions.
pub open spec fn tests_view(v: Seq<TestExpression>) -> Seq<TestExpressionView> {
    v.map_values(|e: TestExpression| e@)
}

/// Whether the tokens at `i` and `i + 1` are `=>`.
pub open spec fn arrow_at(t: Seq<TokenView>, i: int) -> bool {
    0 <= i && i + 1 < t.len() && t[i] == TokenView::Punct('=', Spacing::Joint) && is_punct(t[i + 1], '>')
}

/// The first `=>` from position `i` on.
pub open spec fn first_arrow(t: Seq<TokenView>, i: int) -> Option<int>
    decreases t.len() - i,
{
    if i < 0 || i + 1 >= t.len() {
        None
    } else if arrow_at(t, i) {
        Some(i)
    } else {
        first_arrow(t, i + 1)
    }
}

pub proof fn lemma_first_arrow_bounds(t: Seq<TokenView>, i: int)
    ensures
        first_arrow(t, i) matches Some(a) ==> i <= a && arrow_at(t, a),
    decreases t.len() - i,
{
    if !(i < 0 || i + 1 >= t.len()) && !arrow_at(t, i) {
        lemma_first_arrow_bounds(t, i + 1);
    }
}

/// Reading the input of a test expression from the tokens `left` before its `=>`.
pub open spec fn input_of(left: Seq<TokenView>) -> Result<ExprOrReferenceView, MacroErrorView> {
    if left.len() > 0 && is_punct(left[0], '&') {
        if parses_as_reference(rendered(left)) {
            if left.len() > 1 && left[1] == TokenView::Ident("mut"@) {
                Ok(ExprOrReferenceView::Reference(true, left.skip(2)))
            } else {
                Ok(ExprOrReferenceView::Reference(false, left.skip(1)))
            }
        } else {
            refused_input(left)
        }
    } else if parses_as_expr(rendered(left)) {
        Ok(ExprOrReferenceView::Expression(left))
    } else {
        refused_input(left)
    }
}

/// Whether a leading part of `left`, the whole included, is one expression.
pub open spec fn some_prefix_is_expr(left: Seq<TokenView>) -> bool {
    exists|k: int| 1 <= k <= left.len() && #[trigger] parses_as_expr(rendered(left.take(k)))
}

/// Why an input is refused: where an expression starts the input but is not all of it (or
/// a reference is not all of it), the list does not go on with `=>`; where none does, the
/// input is not an expression.
pub open spec fn refused_input(left: Seq<TokenView>) -> Result<ExprOrReferenceView, MacroErrorView> {
    if some_prefix_is_expr(left) {
        Err(MacroErrorView::ListParseFailed)
    } else {
        Err(MacroErrorView::InputPatternFailed)
    }
}

/// Reading one test expression at position `p`: the expression and the position after its
/// pattern, or why it fails.
pub open spec fn test_expression(t: Seq<TokenView>, p: int) -> Result<
    (TestExpressionView, int),
    MacroErrorView,
> {
    let arrow = first_arrow(t, p);
    let left_end = match arrow {
        Some(a) => a,
        None => t.len() as int,
    };
    match input_of(t.subrange(p, left_end)) {
        Err(e) => Err(e),
        Ok(input) => match arrow {
            None => Err(MacroErrorView::ListParseFailed),
            Some(a) => match fit_end(ValueKind::Expr, t, a + 2, a + 3) {
                None => Err(MacroErrorView::ListParseFailed),
                Some(q) => Ok((TestExpressionView { input, pattern: t.subrange(a + 2, q) }, q)),
            },
        },
    }
}

/// Reading a list of test expressions separated by commas, with an optional trailing
/// comma, from position `p` to the end.
pub open spec fn test_list(t: Seq<TokenView>, p: int) -> Result<
    Seq<TestExpressionView>,
    MacroErrorView,
>
    decreases t.len() - p,
{
    if p < 0 || p >= t.len() {
        Ok(Seq::empty())
    } else {
        match test_expression(t, p) {
            Err(e) => Err(e),
            Ok((e, q)) => {
                proof {
                    lemma_first_arrow_bounds(t, p);
                    if let Some(a) = first_arrow(t, p) {
                        lemma_fit_end_bounds(ValueKind::Expr, t, a + 2, a + 3);
                    }
                }
                if q >= t.len() {
                    Ok(seq![e])
                } else {
                    match test_list(t, q + 1) {
                        Ok(rest) => Ok(seq![e] + rest),
                        Err(err) => Err(err),
                    }
                }
            },
        }
    }
}

/// Reading a bracketed list of test expressions at position `p`.
pub open spec fn bracket_list(t: Seq<TokenView>, p: int) -> Result<
    Seq<TestExpressionView>,
    MacroErrorView,
> {
    if 0 <= p < t.len() {
        match t[p] {
            TokenView::Group(Delimiter::Bracket, inner) => match lexed(inner) {
                None => Err(MacroErrorView::ListParseFailed),
                Some(items) => test_list(items, 0),
            },
            _ => Err(MacroErrorView::FailedToParse),
        }
    } else {
        Err(MacroErrorView::FailedToParse)
    }
}

/// A copy of a token.
pub fn copy_token(t: &Token) -> (r: Token)
    ensures
        r@ == t@,
{
    match t {
        Token::Ident(s) => Token::Ident(s.clone()),
        Token::Punct(c, spacing) => Token::Punct(*c, *spacing),
        Token::Literal(s) => Token::Literal(s.clone()),
        Token::Group(d, s) => Token::Group(*d, s.clone()),
    }
}

/// A copy of the tokens from `start` to `end`.
pub fn copy_tokens(tokens: &Vec<Token>, start: usize, end: usize) -> (r: Vec<Token>)
    requires
        start <= end <= tokens.len(),
    ensures
        tokens_view(r@) == tokens_view(tokens@).subrange(start as int, end as int),
{
    let mut r: Vec<Token> = Vec::new();
    let mut i = start;
    while i < end
        invariant
            start <= i <= end <= tokens.len(),
            tokens_view(r@) == tokens_view(tokens@).subrange(start as int, i as int),
        decreases end - i,
    {
        let tok = copy_token(&tokens[i]);
        let ghost prev = tokens_view(r@);
        r.push(tok);
        assert(tokens_view(r@) =~= prev.push(tokens@[i as int]@));
        assert(tokens_view(r@) =~= tokens_view(tokens@).subrange(start as int, i + 1));
        i = i + 1;
    }
    r
}

/// The text of the tokens from `start` to `end`.
pub fn render(tokens: &Vec<Token>, start: usize, end: usize) -> (r: String)
    requires
        start <= end <= tokens.len(),
    ensures
        r@ == rendered(tokens_view(tokens@).subrange(start as int, end as int)),
{
    let mut r = String::new();
    push_rendered(&mut r, tokens, start, end);
    assert(tokens_view(tokens@.subrange(start as int, end as int)) =~= tokens_view(
        tokens@,
    ).subrange(start as int, end as int));
    assert(r@ =~= rendered(tokens_view(tokens@).subrange(start as int, end as int)));
    r
}

/// Whether the token at position `p` is the punctuation character `c`.
pub fn is_punct_at(tokens: &Vec<Token>, p: usize, c: char) -> (r: bool)
    ensures
        r == punct_at(tokens_view(tokens@), p as int, c),
{
    if p < tokens.len() {
        match &tokens[p] {
            Token::Punct(x, _) => *x == c,
            _ => false,
        }
    } else {
        false
    }
}

/// The identifier at position `p`, if there is one.
pub fn ident_at_position(tokens: &Vec<Token>, p: usize) -> (r: Option<&String>)
    ensures
        match r {
            Some(s) => ident_at(tokens_view(tokens@), p as int) == Some(s@),
            None => ident_at(tokens_view(tokens@), p as int) is None,
        },
{
    if p < tokens.len() {
        match &tokens[p] {
            Token::Ident(s) => Some(s),
            _ => None,
        }
    } else {
        None
    }
}

/// Whether a leading part of the tokens from `start` to `end` is one expression.
pub fn prefix_is_expr(tokens: &Vec<Token>, start: usize, end: usize) -> (r: bool)
    requires
        start <= end <= tokens.len(),
    ensures
        r == some_prefix_is_expr(tokens_view(tokens@).subrange(start as int, end as int)),
{
    let ghost left = tokens_view(tokens@).subrange(start as int, end as int);
    let mut n: usize = 0;
    while n < end - start
        invariant
            start <= end <= tokens.len(),
            n <= end - start,
            left == tokens_view(tokens@).subrange(start as int, end as int),
            forall|j: int| 1 <= j <= n ==> !parses_as_expr(#[trigger] rendered(left.take(j))),
        decreases end - start - n,
    {
        let k = start + n + 1;
        let text = render(tokens, start, k);
        assert(tokens_view(tokens@).subrange(start as int, k as int) =~= left.take(n + 1));
        if is_expr(text.as_str()) {
            return true;
        }
        n = n + 1;
    }
    false
}

/// A parameter `name: value`, read up to its value, which starts at `value_start`.
#[derive(Debug)]
pub struct NamedMacroParam {
    pub name: String,
    pub value_start: usize,
}

impl NamedMacroParam {
    /// Reads `param_name :` at position `start`. Refused when no identifier stands there,
    /// when `param_name` is not an identifier, when the names differ, or when no colon
    /// follows.
    pub fn new(param_name: &str, tokens: &Vec<Token>, start: usize) -> (r: Result<
        NamedMacroParam,
        MacroError,
    >)
        ensures
            match r {
                Ok(param) => param_name_end(param_name@, tokens_view(tokens@), start as int)
                    == Ok::<int, MacroErrorView>(param.value_start as int) && param.name@
                    == param_name@ && !param_name@.contains(' ') && !param_name@.contains(':'),
                Err(e) => param_name_end(param_name@, tokens_view(tokens@), start as int) == Err::<
                    int,
                    MacroErrorView,
                >(e@),
            },
    {
        let found = match ident_at_position(tokens, start) {
            Some(found) => found,
            None => return Err(MacroError::FailedToParse),
        };
        assert(start < tokens.len());
        if !is_ident(found.as_str()) {
            return Err(MacroError::FailedToParse);
        }
        let valid = match ident_token(param_name) {
            Some(text) => same_text(text.as_str(), param_name),
            None => false,
        };
        if !valid {
            return Err(MacroError::InvalidParamName(String::from_str(param_name)));
        }
        if !same_text(found.as_str(), param_name) {
            return Err(
                MacroError::WrongParamName {
                    expected: String::from_str(param_name),
                    found: found.clone(),
                },
            );
        }
        if !is_punct_at(tokens, start + 1, ':') {
            return Err(MacroError::FailedToParse);
        }
        Ok(NamedMacroParam { name: String::from_str(param_name), value_start: start + 2 })
    }
}

/// Whether `text` is a value of kind `kind`.
pub fn fits_kind(kind: ValueKind, text: &str) -> (r: bool)
    ensures
        r == fits(kind, text@),
{
    match kind {
        ValueKind::Path => last_path_segment(text).is_some(),
        ValueKind::Expr => is_expr(text),
        ValueKind::Signature => is_signature(text),
    }
}

/// Where a value of kind `kind` that starts at `p` ends; see [`fit_end`].
pub fn value_end(kind: ValueKind, tokens: &Vec<Token>, p: usize) -> (r: Option<usize>)
    requires
        p < tokens.len(),
    ensures
        match r {
            Some(q) => fit_end(kind, tokens_view(tokens@), p as int, p + 1) == Some(q as int),
            None => fit_end(kind, tokens_view(tokens@), p as int, p + 1) is None,
        },
{
    let ghost t = tokens_view(tokens@);
    let mut q = p + 1;
    while q < tokens.len()
        invariant
            p < q <= tokens.len(),
            t == tokens_view(tokens@),
            fit_end(kind, t, p as int, p + 1) == fit_end(kind, t, p as int, q as int),
        decreases tokens.len() - q,
    {
        if is_punct_at(tokens, q, ',') {
            let text = render(tokens, p, q);
            if fits_kind(kind, text.as_str()) {
                return Some(q);
            }
        }
        q = q + 1;
    }
    let text = render(tokens, p, q);
    if fits_kind(kind, text.as_str()) {
        Some(q)
    } else {
        assert(fit_end(kind, t, p as int, q + 1) is None);
        None
    }
}

/// The first `=>` from position `i` on.
pub fn arrow_from(tokens: &Vec<Token>, i: usize) -> (r: Option<usize>)
    ensures
        match r {
            Some(a) => first_arrow(tokens_view(tokens@), i as int) == Some(a as int),
            None => first_arrow(tokens_view(tokens@), i as int) is None,
        },
{
    let ghost t = tokens_view(tokens@);
    let mut j = i;
    while j < tokens.len() && j + 1 < tokens.len()
        invariant
            i <= j,
            t == tokens_view(tokens@),
            first_arrow(t, i as int) == first_arrow(t, j as int),
        decreases tokens.len() - j,
    {
        let here = match &tokens[j] {
            Token::Punct('=', Spacing::Joint) => true,
            _ => false,
        };
        if here && is_punct_at(tokens, j + 1, '>') {
            return Some(j);
        }
        j = j + 1;
    }
    None
}

/// Reads the input of a test expression from the tokens from `start` to `end`.
pub fn read_input(tokens: &Vec<Token>, start: usize, end: usize) -> (r: Result<
    ExprOrReference,
    MacroError,
>)
    requires
        start <= end <= tokens.len(),
    ensures
        match r {
            Ok(input) => input_of(tokens_view(tokens@).subrange(start as int, end as int)) == Ok::<
                ExprOrReferenceView,
                MacroErrorView,
            >(input@),
            Err(e) => input_of(tokens_view(tokens@).subrange(start as int, end as int)) == Err::<
                ExprOrReferenceView,
                MacroErrorView,
            >(e@),
        },
{
    let ghost left = tokens_view(tokens@).subrange(start as int, end as int);
    let text = render(tokens, start, end);
    if start < end && is_punct_at(tokens, start, '&') {
        if is_reference(text.as_str()) {
            let mutable = start + 1 < end && match &tokens[start + 1] {
                Token::Ident(s) => same_text(s.as_str(), "mut"),
                _ => false,
            };
            if mutable {
                assert(left[1] == TokenView::Ident("mut"@));
                let expr = copy_tokens(tokens, start + 2, end);
                assert(tokens_view(expr@) =~= left.skip(2));
                Ok(ExprOrReference::Reference { mutable: true, expr })
            } else {
                assert(!(left.len() > 1 && left[1] == TokenView::Ident("mut"@))) by {
                    if left.len() > 1 && left[1] == TokenView::Ident("mut"@) {
                        assert(tokens@[start + 1]@ == left[1]);
                    }
                }
                let expr = copy_tokens(tokens, start + 1, end);
                assert(tokens_view(expr@) =~= left.skip(1));
                Ok(ExprOrReference::Reference { mutable: false, expr })
            }
        } else {
            refuse_input(tokens, start, end)
        }
    } else if is_expr(text.as_str()) {
        Ok(ExprOrReference::Expression(copy_tokens(tokens, start, end)))
    } else {
        refuse_input(tokens, start, end)
    }
}

/// Why the input from `start` to `end` is refused; see [`refused_input`].
fn refuse_input(tokens: &Vec<Token>, start: usize, end: usize) -> (r: Result<
    ExprOrReference,
    MacroError,
>)
    requires
        start <= end <= tokens.len(),
    ensures
        r matches Err(e) && refused_input(tokens_view(tokens@).subrange(start as int, end as int))
            == Err::<ExprOrReferenceView, MacroErrorView>(e@),
{
    if prefix_is_expr(tokens, start, end) {
        Err(MacroError::ListParseFailed)
    } else {
        Err(MacroError::InputPatternFailed)
    }
}

impl TestExpression {
    /// Reads one test expression `input => pattern` at position `p`; gives it and the
    /// position after its pattern.
    pub fn parse(tokens: &Vec<Token>, p: usize) -> (r: Result<(TestExpression, usize), MacroError>)
        requires
            p < tokens.len(),
        ensures
            match r {
                Ok((e, q)) => test_expression(tokens_view(tokens@), p as int) == Ok::<
                    (TestExpressionView, int),
                    MacroErrorView,
                >((e@, q as int)),
                Err(err) => test_expression(tokens_view(tokens@), p as int) == Err::<
                    (TestExpressionView, int),
                    MacroErrorView,
                >(err@),
            },
    {
        let ghost t = tokens_view(tokens@);
        proof {
            lemma_first_arrow_bounds(t, p as int);
        }
        let arrow = arrow_from(tokens, p);
        let left_end = match arrow {
            Some(a) => a,
            None => tokens.len(),
        };
        let input = read_input(tokens, p, left_end)?;
        let a = match arrow {
            Some(a) => a,
            None => return Err(MacroError::ListParseFailed),
        };
        if a + 2 >= tokens.len() {
            assert(fit_end(ValueKind::Expr, t, a + 2, a + 3) is None);
            return Err(MacroError::ListParseFailed);
        }
        let q = match value_end(ValueKind::Expr, tokens, a + 2) {
            Some(q) => q,
            None => return Err(MacroError::ListParseFailed),
        };
        proof {
            lemma_fit_end_bounds(ValueKind::Expr, t, a + 2, a + 3);
        }
        let pattern = copy_tokens(tokens, a + 2, q);
        Ok((TestExpression { input, pattern }, q))
    }
}

/// Reads the list of test expressions that `tokens` holds.
pub fn parse_test_list(tokens: &Vec<Token>) -> (r: Result<Vec<TestExpression>, MacroError>)
    ensures
        match r {
            Ok(v) => test_list(tokens_view(tokens@), 0) == Ok::<
                Seq<TestExpressionView>,
                MacroErrorView,
            >(tests_view(v@)),
            Err(e) => test_list(tokens_view(tokens@), 0) == Err::<
                Seq<TestExpressionView>,
                MacroErrorView,
            >(e@),
        },
{
    let ghost t = tokens_view(tokens@);
    let mut list: Vec<TestExpression> = Vec::new();
    let mut p: usize = 0;
    while p < tokens.len()
        invariant
            t == tokens_view(tokens@),
            test_list(t, 0) == match test_list(t, p as int) {
                Ok(rest) => Ok(tests_view(list@) + rest),
                Err(e) => Err::<Seq<TestExpressionView>, MacroErrorView>(e),
            },
        decreases tokens.len() - p,
    {
        proof {
            lemma_first_arrow_bounds(t, p as int);
            if let Some(a) = first_arrow(t, p as int) {
                lemma_fit_end_bounds(ValueKind::Expr, t, a + 2, a + 3);
            }
        }
        let (e, q) = TestExpression::parse(tokens, p)?;
        let ghost before = tests_view(list@);
        list.push(e);
        assert(tests_view(list@) =~= before + seq![e@]);
        if q >= tokens.len() {
            assert(test_list(t, p as int) == Ok::<Seq<TestExpressionView>, MacroErrorView>(
                seq![e@],
            ));
            assert(test_list(t, q as int + 1) == Ok::<Seq<TestExpressionView>, MacroErrorView>(
                Seq::empty(),
            ));
            assert(tests_view(list@) + Seq::<TestExpressionView>::empty() =~= before + seq![e@]);
            p = tokens.len();
        } else {
            proof {
                match test_list(t, q + 1) {
                    Ok(rest) => {
                        assert(tests_view(list@) + rest =~= before + (seq![e@] + rest));
                    },
                    Err(_) => {},
                }
            }
            p = q + 1;
        }
    }
    assert(test_list(t, p as int) == Ok::<Seq<TestExpressionView>, MacroErrorView>(Seq::empty()));
    assert(tests_view(list@) + Seq::<TestExpressionView>::empty() =~= tests_view(list@));
    Ok(list)
}

/// Reads a bracketed list of test expressions at position `p`.
pub fn parse_bracket_list(tokens: &Vec<Token>, p: usize) -> (r: Result<
    Vec<TestExpression>,
    MacroError,
>)
    ensures
        match r {
            Ok(v) => bracket_list(tokens_view(tokens@), p as int) == Ok::<
                Seq<TestExpressionView>,
                MacroErrorView,
            >(tests_view(v@)),
            Err(e) => bracket_list(tokens_view(tokens@), p as int) == Err::<
                Seq<TestExpressionView>,
                MacroErrorView,
            >(e@),
        },
{
    if p >= tokens.len() {
        return Err(MacroError::FailedToParse);
    }
    match &tokens[p] {
        Token::Group(Delimiter::Bracket, inner) => match lex(inner.as_str()) {
            None => Err(MacroError::ListParseFailed),
            Some(items) => parse_test_list(&items),
        },
        _ => Err(MacroError::FailedToParse),
    }
}

} // verus!
