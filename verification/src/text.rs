//! Numbers as decimal text, for header values and messages.

use vstd::prelude::*;
use vstd::string::*;

verus! {

/// True if `needle` occurs in `haystack`.
pub open spec fn contains_text(haystack: Seq<char>, needle: Seq<char>) -> bool {
    exists|i: int|
        0 <= i <= haystack.len() - needle.len() && #[trigger] haystack.subrange(
            i,
            i + needle.len(),
        ) == needle
}

/// `text` with every occurrence of `from` replaced by `to`, as
/// `str::replace` gives it.
pub uninterp spec fn str_replaced(text: Seq<char>, from: Seq<char>, to: Seq<char>) -> Seq<char>;

/// `str::contains` with a string as the pattern. The claim: the result
/// says whether the pattern occurs in the text.
#[verifier::external_body]
pub(crate) fn str_contains(haystack: &str, needle: &str) -> (found: bool)
    ensures
        found == contains_text(haystack@, needle@),
{
    haystack.contains(needle)
}

/// `str::replace` with a string as the pattern. The claim: the result is
/// what `str_replaced` names.
#[verifier::external_body]
pub(crate) fn str_replace(text: &str, from: &str, to: &str) -> (out: String)
    ensures
        out@ == str_replaced(text@, from@, to@),
{
    text.replace(from, to)
}

/// The character of the decimal digit `d`.
pub open spec fn digit_char(d: nat) -> char {
    if d == 0 {
        '0'
    } else if d == 1 {
        '1'
    } else if d == 2 {
        '2'
    } else if d == 3 {
        '3'
    } else if d == 4 {
        '4'
    } else if d == 5 {
        '5'
    } else if d == 6 {
        '6'
    } else if d == 7 {
        '7'
    } else if d == 8 {
        '8'
    } else {
        '9'
    }
}

/// The decimal digits of `n`, most significant first, without leading
/// zeros; zero is one digit.
pub open spec fn decimal(n: nat) -> Seq<char>
    decreases n,
{
    if n < 10 {
        seq![digit_char(n)]
    } else {
        decimal(n / 10).push(digit_char(n % 10))
    }
}

/// The characters of the digits in `digits`, last digit first.
pub open spec fn digits_reversed(digits: Seq<u8>) -> Seq<char> {
    Seq::new(digits.len(), |i: int| digit_char(digits[digits.len() - 1 - i] as nat))
}

fn digit_str(d: u8) -> (s: &'static str)
    requires
        d < 10,
    ensures
        s@ == seq![digit_char(d as nat)],
{
    proof {
        reveal_strlit("0");
        reveal_strlit("1");
        reveal_strlit("2");
        reveal_strlit("3");
        reveal_strlit("4");
        reveal_strlit("5");
        reveal_strlit("6");
        reveal_strlit("7");
        reveal_strlit("8");
        reveal_strlit("9");
    }
    let s = if d == 0 {
        "0"
    } else if d == 1 {
        "1"
    } else if d == 2 {
        "2"
    } else if d == 3 {
        "3"
    } else if d == 4 {
        "4"
    } else if d == 5 {
        "5"
    } else if d == 6 {
        "6"
    } else if d == 7 {
        "7"
    } else if d == 8 {
        "8"
    } else {
        "9"
    };
    assert(s@ =~= seq![digit_char(d as nat)]);
    s
}

/// Appends the decimal digits of `n` to `text`.
pub fn append_decimal(text: &mut String, n: u64)
    ensures
        final(text)@ == old(text)@ + decimal(n as nat),
{
    let mut digits: Vec<u8> = Vec::new();
    let mut rest: u64 = n;
    loop
        invariant_except_break
            decimal(n as nat) == decimal(rest as nat) + digits_reversed(digits@),
            forall|i: int| 0 <= i < digits@.len() ==> digits@[i] < 10,
        ensures
            decimal(n as nat) == digits_reversed(digits@),
            forall|i: int| 0 <= i < digits@.len() ==> digits@[i] < 10,
        decreases rest,
    {
        let d: u8 = (rest % 10) as u8;
        let ghost before = digits@;
        let ghost rest_before = rest;
        digits.push(d);
        rest = rest / 10;
        assert(digits_reversed(digits@) =~= seq![digit_char(d as nat)] + digits_reversed(before));
        if rest == 0 {
            assert(decimal(rest_before as nat) =~= seq![digit_char(d as nat)]);
            break ;
        }
        assert(decimal(rest_before as nat) =~= decimal(rest as nat).push(digit_char(d as nat)));
        assert(decimal(rest as nat).push(digit_char(d as nat)) + digits_reversed(before)
            =~= decimal(rest as nat) + digits_reversed(digits@));
    }
    let ghost start = text@;
    let mut i: usize = digits.len();
    while i > 0
        invariant
            i <= digits@.len(),
            forall|k: int| 0 <= k < digits@.len() ==> digits@[k] < 10,
            text@ == start + digits_reversed(digits@).subrange(0, digits@.len() - i),
        decreases i,
    {
        i = i - 1;
        let ghost before = text@;
        text.append(digit_str(digits[i]));
        assert(text@ =~= start + digits_reversed(digits@).subrange(0, digits@.len() - i));
    }
    assert(digits_reversed(digits@).subrange(0, digits@.len() as int) =~= digits_reversed(
        digits@,
    ));
}

/// `n` in decimal.
pub fn decimal_string(n: u64) -> (text: String)
    ensures
        text@ == decimal(n as nat),
{
    let mut text = String::new();
    append_decimal(&mut text, n);
    assert(Seq::<char>::empty() + decimal(n as nat) =~= decimal(n as nat));
    text
}

} // verus!
