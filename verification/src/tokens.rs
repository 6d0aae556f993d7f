//! Token trees of macro input, as plain values, and their text.
use vstd::prelude::*;

verus! {

/// The delimiter of a group of tokens.
#[derive(Clone, Copy, PartialEq, Eq, Debug)]
pub enum Delimiter {
    Parenthesis,
    Brace,
    Bracket,
    Invisible,
}

/// Whether a punctuation character is joined to the next one (as `:` in `::`).
#[derive(Clone, Copy, PartialEq, Eq, Debug)]
pub enum Spacing {
    Joint,
    Alone,
}

/// One token tree at the top level of a token stream. A group keeps the text of the
/// stream inside its delimiters.
#[derive(Debug)]
pub enum Token {
    Ident(String),
    Punct(char, Spacing),
    Literal(String),
    Group(Delimiter, String),
}

/// The value of a [`Token`].
pub enum TokenView {
    Ident(Seq<char>),
    Punct(char, Spacing),
    Literal(Seq<char>),
    Group(Delimiter, Seq<char>),
}

impl View for Token {
    type V = TokenView;

    open spec fn view(&self) -> TokenView {
        match self {
            Token::Ident(s) => TokenView::Ident(s@),
            Token::Punct(c, spacing) => TokenView::Punct(*c, *spacing),
            Token::Literal(s) => TokenView::Literal(s@),
            Token::Group(d, s) => TokenView::Group(*d, s@),
        }
    }
}

/// The values of a sequence of tokens.
pub open spec fn tokens_view(tokens: Seq<Token>) -> Seq<TokenView> {
    tokens.map_values(|t: Token| t@)
}

/// The opening and closing text of a delimiter.
pub open spec fn open_text(d: Delimiter) -> Seq<char> {
    match d {
        Delimiter::Parenthesis => "("@,
        Delimiter::Brace => "{"@,
        Delimiter::Bracket => "["@,
        Delimiter::Invisible => Seq::empty(),
    }
}

pub open spec fn close_text(d: Delimiter) -> Seq<char> {
    match d {
        Delimiter::Parenthesis => ")"@,
        Delimiter::Brace => "}"@,
        Delimiter::Bracket => "]"@,
        Delimiter::Invisible => Seq::empty(),
    }
}

/// The text of one token.
pub open spec fn token_text(t: TokenView) -> Seq<char> {
    match t {
        TokenView::Ident(s) => s,
        TokenView::Punct(c, _) => seq![c],
        TokenView::Literal(s) => s,
        TokenView::Group(d, s) => open_text(d) + s + close_text(d),
    }
}

/// The text that follows a token before the next one: nothing after a joined
/// punctuation character, a space otherwise.
pub open spec fn separator(t: TokenView) -> Seq<char> {
    match t {
        TokenView::Punct(_, Spacing::Joint) => Seq::empty(),
        _ => " "@,
    }
}

/// The text of a sequence of tokens: each token, and a separator between two tokens.
pub open spec fn rendered(tokens: Seq<TokenView>) -> Seq<char>
    decreases tokens.len(),
{
    if tokens.len() == 0 {
        Seq::empty()
    } else if tokens.len() == 1 {
        token_text(tokens[0])
    } else {
        rendered(tokens.drop_last()) + separator(tokens[tokens.len() - 2]) + token_text(
            tokens.last(),
        )
    }
}

/// Whether `t` is the punctuation character `c`.
pub open spec fn is_punct(t: TokenView, c: char) -> bool {
    t matches TokenView::Punct(p, _) && p == c
}

/// Appends the text of `t` to `out`.
pub fn push_token_text(out: &mut String, t: &Token)
    ensures
        final(out)@ == old(out)@ + token_text(t@),
{
    match t {
        Token::Ident(s) => out.append(s.as_str()),
        Token::Literal(s) => out.append(s.as_str()),
        Token::Punct(c, _) => {
            push_char(out, *c);
        },
        Token::Group(d, s) => {
            match d {
                Delimiter::Parenthesis => out.append("("),
                Delimiter::Brace => out.append("{"),
                Delimiter::Bracket => out.append("["),
                Delimiter::Invisible => {},
            }
            out.append(s.as_str());
            match d {
                Delimiter::Parenthesis => out.append(")"),
                Delimiter::Brace => out.append("}"),
                Delimiter::Bracket => out.append("]"),
                Delimiter::Invisible => {},
            }
        },
    }
}

/// Appends the text of `tokens[start..end]` to `out`.
pub fn push_rendered(out: &mut String, tokens: &Vec<Token>, start: usize, end: usize)
    requires
        start <= end <= tokens.len(),
    ensures
        final(out)@ == old(out)@ + rendered(tokens_view(tokens@.subrange(start as int, end as int))),
{
    let ghost initial = out@;
    let mut i = start;
    while i < end
        invariant
            start <= i <= end <= tokens.len(),
            out@ == initial + rendered(tokens_view(tokens@.subrange(start as int, i as int))),
        decreases end - i,
    {
        let ghost before = tokens_view(tokens@.subrange(start as int, i as int));
        let ghost after = tokens_view(tokens@.subrange(start as int, i + 1));
        assert(after.drop_last() =~= before);
        assert(after.last() == tokens@[i as int]@);
        if i > start {
            assert(after[after.len() - 2] == tokens@[i - 1]@);
        }
        if i > start {
            match &tokens[i - 1] {
                Token::Punct(_, Spacing::Joint) => {},
                _ => out.append(" "),
            }
        }
        push_token_text(out, &tokens[i]);
        if i == start {
            assert(before.len() == 0);
            assert(out@ =~= initial + rendered(after));
        } else {
            assert(rendered(after) == rendered(before) + separator(after[after.len() - 2])
                + token_text(after.last()));
            assert(out@ =~= initial + rendered(after));
        }
        i = i + 1;
    }
}

/// Appends one character to `out` with `String::push`, which the standard library documents
/// as appending the character to the end of the string.
#[verifier::external_body]
pub fn push_char(out: &mut String, c: char)
    ensures
        final(out)@ == old(out)@.push(c),
{
    out.push(c);
}

/// A group is written with its own delimiters around the text inside it: `(..)`, `{..}`,
/// `[..]`, and nothing around an invisible group.
pub proof fn law_group_keeps_delimiters(d: Delimiter, inner: Seq<char>)
    ensures
        d == Delimiter::Parenthesis ==> rendered(seq![TokenView::Group(d, inner)]) == seq!['(']
            + inner + seq![')'],
        d == Delimiter::Brace ==> rendered(seq![TokenView::Group(d, inner)]) == seq!['{'] + inner
            + seq!['}'],
        d == Delimiter::Bracket ==> rendered(seq![TokenView::Group(d, inner)]) == seq!['['] + inner
            + seq![']'],
        d == Delimiter::Invisible ==> rendered(seq![TokenView::Group(d, inner)]) == inner,
{
    reveal_strlit("(");
    reveal_strlit(")");
    reveal_strlit("{");
    reveal_strlit("}");
    reveal_strlit("[");
    reveal_strlit("]");
    assert(seq![TokenView::Group(d, inner)][0] == TokenView::Group(d, inner));
    assert(Seq::<char>::empty() + inner + Seq::<char>::empty() =~= inner);
}

/// The text of a sequence of tokens is the text of its first `i` tokens, the separator
/// after token `i - 1`, then the text of the rest: every token is written once, in order.
pub proof fn law_rendered_splits(tokens: Seq<TokenView>, i: int)
    requires
        0 < i < tokens.len(),
    ensures
        rendered(tokens) == rendered(tokens.take(i)) + separator(tokens[i - 1]) + rendered(
            tokens.skip(i),
        ),
    decreases tokens.len(),
{
    if i == tokens.len() - 1 {
        assert(tokens.drop_last() =~= tokens.take(i));
        assert(tokens.skip(i) =~= seq![tokens.last()]);
        assert(rendered(tokens.skip(i)) == token_text(tokens.skip(i)[0]));
    } else {
        law_rendered_splits(tokens.drop_last(), i);
        assert(tokens.drop_last().take(i) =~= tokens.take(i));
        let rest = tokens.skip(i);
        assert(rest.len() >= 2);
        assert(rest.drop_last() =~= tokens.drop_last().skip(i));
        assert(rest.last() == tokens.last());
        assert(rest[rest.len() - 2] == tokens[tokens.len() - 2]);
        assert(rendered(rest) == rendered(rest.drop_last()) + separator(rest[rest.len() - 2])
            + token_text(rest.last()));
        assert(rendered(tokens) =~= rendered(tokens.take(i)) + separator(tokens[i - 1]) + rendered(
            rest,
        ));
    }
}

} // verus!
