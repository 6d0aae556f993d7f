//! Small facts about text: decimal numerals, white space, the leading name of a text and
//! raw identifiers.
use crate::tokens::push_char;
use vstd::prelude::*;
use vstd::string::StrSliceExecFns;
use vstd::string::StringExecFns;

verus! {

/// The character of the decimal digit `d`.
pub open spec fn digit_char(d: nat) -> char {
    (48 + d) as char
}

/// The decimal numeral of `n`, without leading zeros.
pub open spec fn decimal(n: nat) -> Seq<char>
    decreases n,
{
    if n < 10 {
        seq![digit_char(n)]
    } else {
        decimal(n / 10).push(digit_char(n % 10))
    }
}

/// The number that a sequence of decimal digits stands for.
pub open spec fn numeral_value(s: Seq<char>) -> nat
    decreases s.len(),
{
    if s.len() == 0 {
        0
    } else {
        numeral_value(s.drop_last()) * 10 + ((s.last() as nat) - 48) as nat
    }
}

/// The numeral of a number reads back as that number.
pub proof fn law_decimal_reads_back(n: nat)
    ensures
        numeral_value(decimal(n)) == n,
        decimal(n).len() > 0,
    decreases n,
{
    assert((digit_char(n % 10) as nat) == 48 + n % 10);
    if n < 10 {
        assert(decimal(n).drop_last() =~= Seq::<char>::empty());
        assert(decimal(n).last() == digit_char(n));
        assert(n % 10 == n);
        assert(numeral_value(decimal(n).drop_last()) == 0);
        assert(numeral_value(decimal(n)) == ((decimal(n).last() as nat) - 48) as nat);
    } else {
        law_decimal_reads_back(n / 10);
        let s = decimal(n);
        assert(s.drop_last() =~= decimal(n / 10));
        assert(s.last() == digit_char(n % 10));
        vstd::arithmetic::div_mod::lemma_fundamental_div_mod(n as int, 10);
        assert(numeral_value(s) == (n / 10) * 10 + n % 10);
        vstd::arithmetic::mul::lemma_mul_is_commutative(n as int / 10, 10);
        assert(numeral_value(s) == n);
    }
}

/// Appends the decimal numeral of `n` to `out`.
pub fn push_decimal(out: &mut String, n: usize)
    ensures
        final(out)@ == old(out)@ + decimal(n as nat),
    decreases n,
{
    let ghost start = out@;
    if n >= 10 {
        push_decimal(out, n / 10);
    }
    let d: u8 = (n % 10) as u8;
    let c: char = (48u8 + d) as char;
    push_char(out, c);
    assert(out@ =~= start + decimal(n as nat));
}

/// White space as `char::is_whitespace` has it: the characters with the Unicode property
/// `White_Space`.
pub open spec fn is_white_space(c: char) -> bool {
    let v = c as u32;
    ||| 9 <= v <= 13
    ||| v == 32
    ||| v == 0x85
    ||| v == 0xA0
    ||| v == 0x1680
    ||| 0x2000 <= v <= 0x200A
    ||| v == 0x2028
    ||| v == 0x2029
    ||| v == 0x202F
    ||| v == 0x205F
    ||| v == 0x3000
}

/// Whether `c` is white space.
pub fn white_space(c: char) -> (r: bool)
    ensures
        r == is_white_space(c),
{
    let v = c as u32;
    (9 <= v && v <= 13) || v == 32 || v == 0x85 || v == 0xA0 || v == 0x1680 || (0x2000 <= v && v
        <= 0x200A) || v == 0x2028 || v == 0x2029 || v == 0x202F || v == 0x205F || v == 0x3000
}

/// Whether a name ends before `c`: at white space, `(` or `{`.
pub open spec fn ends_name(c: char) -> bool {
    is_white_space(c) || c == '(' || c == '{'
}

/// The length of the leading name of `s`: the characters before the first one that ends
/// a name.
pub open spec fn name_length(s: Seq<char>) -> nat
    decreases s.len(),
{
    if s.len() == 0 || ends_name(s[0]) {
        0
    } else {
        1 + name_length(s.drop_first())
    }
}

/// The leading name of `s`.
pub open spec fn leading_name(s: Seq<char>) -> Seq<char> {
    s.take(name_length(s) as int)
}

proof fn lemma_name_length_bound(s: Seq<char>)
    ensures
        name_length(s) <= s.len(),
    decreases s.len(),
{
    if s.len() > 0 && !ends_name(s[0]) {
        lemma_name_length_bound(s.drop_first());
    }
}

/// The leading name of `s`: its characters before the first white space, `(` or `{`.
pub fn leading_name_of(s: &str) -> (r: String)
    ensures
        r@ == leading_name(s@),
{
    let len = s.unicode_len();
    let mut i: usize = 0;
    proof {
        assert(s@.subrange(0, s@.len() as int) =~= s@);
    }
    while i < len
        invariant
            len == s@.len(),
            i <= len,
            name_length(s@) == i + name_length(s@.subrange(i as int, len as int)),
        ensures
            i <= len,
            name_length(s@) == i + name_length(s@.subrange(i as int, len as int)),
            i < len ==> ends_name(s@[i as int]),
        decreases len - i,
    {
        let c = s.get_char(i);
        if white_space(c) || c == '(' || c == '{' {
            break;
        }
        assert(s@.subrange(i as int, len as int).drop_first() =~= s@.subrange(i + 1, len as int));
        i = i + 1;
    }
    proof {
        if i == len {
            assert(s@.subrange(i as int, len as int).len() == 0);
        } else {
            assert(s@.subrange(i as int, len as int)[0] == s@[i as int]);
        }
        assert(s@.subrange(0, i as int) =~= s@.take(i as int));
        lemma_name_length_bound(s@);
    }
    String::from_str(s.substring_char(0, i))
}

/// `s` without the `r#` that marks a raw identifier.
pub open spec fn unraw(s: Seq<char>) -> Seq<char> {
    if s.len() >= 2 && s[0] == 'r' && s[1] == '#' {
        s.skip(2)
    } else {
        s
    }
}

/// `s` without the `r#` that marks a raw identifier.
pub fn unraw_of(s: &str) -> (r: String)
    ensures
        r@ == unraw(s@),
{
    let len = s.unicode_len();
    if len >= 2 && s.get_char(0) == 'r' && s.get_char(1) == '#' {
        String::from_str(s.substring_char(2, len))
    } else {
        proof {
            assert(s@.subrange(0, len as int) =~= s@);
        }
        String::from_str(s.substring_char(0, len))
    }
}

/// Whether two texts are equal.
pub fn same_text(a: &str, b: &str) -> (r: bool)
    ensures
        r == (a@ == b@),
{
    let x = String::from_str(a);
    let y = String::from_str(b);
    x == y
}

/// Whether `needle` stands in `hay` from position `k` on.
pub open spec fn occurs_at(hay: Seq<char>, needle: Seq<char>, k: int) -> bool {
    0 <= k && k + needle.len() <= hay.len() && hay.subrange(k, k + needle.len()) == needle
}

/// Whether `needle` stands somewhere in `hay`.
pub open spec fn occurs_in(hay: Seq<char>, needle: Seq<char>) -> bool {
    exists|k: int| occurs_at(hay, needle, k)
}

/// A text stands in any text that it is a part of.
pub proof fn lemma_occurs_in_concat(a: Seq<char>, b: Seq<char>, c: Seq<char>)
    ensures
        occurs_at(a + b + c, b, a.len() as int),
        occurs_in(a + b + c, b),
        occurs_in(b + c, b),
        occurs_in(a + b, b),
{
    assert((a + b + c).subrange(a.len() as int, a.len() + b.len() as int) =~= b);
    assert((b + c).subrange(0, b.len() as int) =~= b);
    assert(occurs_at(b + c, b, 0));
    assert((a + b).subrange(a.len() as int, a.len() + b.len() as int) =~= b);
    assert(occurs_at(a + b, b, a.len() as int));
}

/// What stands in a part of a text stands in the text.
pub proof fn lemma_occurs_in_part(a: Seq<char>, x: Seq<char>, c: Seq<char>, needle: Seq<char>)
    requires
        occurs_in(x, needle),
    ensures
        occurs_in(a + x + c, needle),
        occurs_in(a + x, needle),
        occurs_in(x + c, needle),
{
    let k = choose|k: int| occurs_at(x, needle, k);
    let n = needle.len() as int;
    assert((a + x + c).subrange(a.len() + k, a.len() + k + n) =~= x.subrange(k, k + n));
    assert(occurs_at(a + x + c, needle, a.len() + k));
    assert((a + x).subrange(a.len() + k, a.len() + k + n) =~= x.subrange(k, k + n));
    assert(occurs_at(a + x, needle, a.len() + k));
    assert((x + c).subrange(k, k + n) =~= x.subrange(k, k + n));
    assert(occurs_at(x + c, needle, k));
}

/// A text stands in itself.
pub proof fn lemma_occurs_in_self(x: Seq<char>)
    ensures
        occurs_in(x, x),
{
    assert(x.subrange(0, x.len() as int) =~= x);
    assert(occurs_at(x, x, 0));
}

/// What stands in a part of a text stands in the text.
pub proof fn lemma_occurs_in_transitive(hay: Seq<char>, part: Seq<char>, needle: Seq<char>)
    requires
        occurs_in(hay, part),
        occurs_in(part, needle),
    ensures
        occurs_in(hay, needle),
{
    let k = choose|k: int| occurs_at(hay, part, k);
    let j = choose|j: int| occurs_at(part, needle, j);
    let n = needle.len() as int;
    assert(hay.subrange(k + j, k + j + n) =~= part.subrange(j, j + n));
    assert(occurs_at(hay, needle, k + j));
}

} // verus!
