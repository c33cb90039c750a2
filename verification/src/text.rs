//! Text building blocks: decimal numbers, byte lists and quoted strings as
//! `{:?}` prints them, and trailing-whitespace trimming.

use vstd::prelude::*;

verus! {

/// The character of a decimal digit `d` (`0 <= d < 10`).
pub open spec fn digit_char(d: int) -> char {
    (48 + d) as char
}

/// Decimal representation of `n`, without leading zeros.
pub open spec fn decimal_text(n: nat) -> Seq<char>
    decreases n,
{
    if n < 10 {
        seq![digit_char(n as int)]
    } else {
        decimal_text(n / 10).push(digit_char((n % 10) as int))
    }
}

/// The entries of `bytes` in decimal, separated by `", "`.
pub open spec fn decimal_list(bytes: Seq<u8>) -> Seq<char>
    decreases bytes.len(),
{
    if bytes.len() == 0 {
        Seq::empty()
    } else if bytes.len() == 1 {
        decimal_text(bytes[0] as nat)
    } else {
        decimal_list(bytes.drop_last()) + seq![',', ' '] + decimal_text(bytes.last() as nat)
    }
}

/// A byte list as `{:?}` prints a `Vec<u8>`: `[1, 22, 255]`.
pub open spec fn byte_list_text(bytes: Seq<u8>) -> Seq<char> {
    seq!['['] + decimal_list(bytes) + seq![']']
}

/// Appends one character to a string (`String::push`).
#[verifier::external_body]
pub(crate) fn push_char(s: &mut String, c: char)
    ensures
        final(s)@ == old(s)@.push(c),
{
    s.push(c);
}

/// Appends the decimal digits of `n`.
fn push_decimal(s: &mut String, n: u8)
    ensures
        final(s)@ == old(s)@ + decimal_text(n as nat),
{
    let ghost start = s@;
    if n >= 100 {
        let (a, b, c) = (n / 100, n / 10 % 10, n % 10);
        push_char(s, (a + 48) as char);
        push_char(s, (b + 48) as char);
        push_char(s, (c + 48) as char);
        assert(decimal_text(a as nat) == seq![digit_char(a as int)]);
        assert(decimal_text(n as nat / 10) == decimal_text(a as nat).push(digit_char(b as int)));
        assert(decimal_text(n as nat) == decimal_text(n as nat / 10).push(digit_char(c as int)));
        assert(s@ =~= start + decimal_text(n as nat));
    } else if n >= 10 {
        let (b, c) = (n / 10, n % 10);
        push_char(s, (b + 48) as char);
        push_char(s, (c + 48) as char);
        assert(decimal_text(b as nat) == seq![digit_char(b as int)]);
        assert(decimal_text(n as nat) == decimal_text(b as nat).push(digit_char(c as int)));
        assert(s@ =~= start + decimal_text(n as nat));
    } else {
        push_char(s, (n + 48) as char);
        assert(s@ =~= start + decimal_text(n as nat));
    }
}

/// Writes a byte list the way `{:?}` writes a `Vec<u8>`.
pub fn byte_list_string(bytes: &[u8]) -> (r: String)
    ensures
        r@ == byte_list_text(bytes@),
{
    let mut s = String::new();
    push_char(&mut s, '[');
    let n = bytes.len();
    let mut i: usize = 0;
    while i < n
        invariant
            n == bytes@.len(),
            i <= n,
            s@ == seq!['['] + decimal_list(bytes@.take(i as int)),
        decreases n - i,
    {
        let ghost before = s@;
        if i > 0 {
            push_char(&mut s, ',');
            push_char(&mut s, ' ');
        }
        push_decimal(&mut s, bytes[i]);
        proof {
            let t = bytes@.take(i + 1);
            assert(t.drop_last() =~= bytes@.take(i as int));
            assert(t.last() == bytes@[i as int]);
            if i == 0 {
                assert(decimal_list(bytes@.take(0)) =~= Seq::<char>::empty());
            }
        }
        i = i + 1;
    }
    push_char(&mut s, ']');
    assert(bytes@.take(n as int) =~= bytes@);
    s
}

/// Membership in the Unicode `White_Space` property, the whitespace that
/// `str::trim_end` removes.
pub open spec fn is_unicode_whitespace(c: char) -> bool {
    let v = c as int;
    ||| 0x9 <= v <= 0xd
    ||| v == 0x20
    ||| v == 0x85
    ||| v == 0xa0
    ||| v == 0x1680
    ||| 0x2000 <= v <= 0x200a
    ||| v == 0x2028
    ||| v == 0x2029
    ||| v == 0x202f
    ||| v == 0x205f
    ||| v == 0x3000
}

/// `str::trim_end`: the longest prefix of `s` after which only whitespace
/// follows. Its documentation: "Returns a string slice with trailing
/// whitespace removed", whitespace being the Unicode `White_Space` property.
#[verifier::external_body]
pub(crate) fn trim_end_str(s: &str) -> (r: &str)
    ensures
        r@.len() <= s@.len(),
        r@ == s@.take(r@.len() as int),
        forall|i: int| r@.len() <= i < s@.len() ==> is_unicode_whitespace(#[trigger] s@[i]),
        r@.len() == 0 || !is_unicode_whitespace(r@.last()),
{
    s.trim_end()
}

/// What `{:?}` prints for a string slice: the text in double quotes, with
/// quotes, backslashes and unprintable characters escaped.
pub uninterp spec fn debug_quoted(s: Seq<char>) -> Seq<char>;

/// Printable ASCII other than the quote characters and the backslash: the
/// characters that `{:?}` prints unescaped inside the quotes.
pub open spec fn is_plain_text(s: Seq<char>) -> bool {
    forall|i: int|
        0 <= i < s.len() ==> {
            let v = #[trigger] s[i] as int;
            &&& 0x20 <= v <= 0x7e
            &&& s[i] != '"'
            &&& s[i] != '\\'
            &&& s[i] != '\''
        }
}

/// A string as `{:?}` prints it, spelled out where std's documentation
/// spells it out: plain text between two double quotes.
pub open spec fn quoted_text(s: Seq<char>) -> Seq<char> {
    if is_plain_text(s) {
        seq!['"'] + s + seq!['"']
    } else {
        debug_quoted(s)
    }
}

/// `format!("{:?}", s)` for a string slice (std's `Debug for str`). The
/// result is named [`debug_quoted`]; of plain text, std documents it as the
/// text between two double quotes. The escapes of other characters are left
/// unsaid.
#[verifier::external_body]
pub(crate) fn quote_debug(s: &str) -> (r: String)
    ensures
        r@ == debug_quoted(s@),
        is_plain_text(s@) ==> r@ == seq!['"'] + s@ + seq!['"'],
{
    format!("{:?}", s)
}

} // verus!
