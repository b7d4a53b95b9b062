//! Small building blocks for the strings the relay reports and the
//! addresses it posts to.

use vstd::prelude::*;
use vstd::string::StringExecFns;

verus! {

/// An owned copy of `s`.
pub fn owned(s: &str) -> (r: String)
    ensures
        r@ == s@,
{
    String::from_str(s)
}

/// `a` followed by `b`.
pub fn join2(a: &str, b: &str) -> (r: String)
    ensures
        r@ == a@ + b@,
{
    String::from_str(a).concat(b)
}

/// `a`, then `b`, then `c`.
pub fn join3(a: &str, b: &str, c: &str) -> (r: String)
    ensures
        r@ == a@ + b@ + c@,
{
    String::from_str(a).concat(b).concat(c)
}

/// `a`, then `b`, then `c`, then `d`.
pub fn join4(a: &str, b: &str, c: &str, d: &str) -> (r: String)
    ensures
        r@ == a@ + b@ + c@ + d@,
{
    String::from_str(a).concat(b).concat(c).concat(d)
}

/// `p` is the tail end of `s`.
pub open spec fn is_suffix(s: Seq<char>, p: Seq<char>) -> bool {
    p.len() <= s.len() && s.subrange(s.len() - p.len(), s.len() as int) == p
}

/// `p` is the beginning of `s`.
pub open spec fn is_prefix(s: Seq<char>, p: Seq<char>) -> bool {
    p.len() <= s.len() && s.subrange(0, p.len() as int) == p
}

/// `s` with every trailing repetition of `p` taken off.
pub open spec fn without_trailing(s: Seq<char>, p: Seq<char>) -> Seq<char>
    decreases s.len(),
{
    if p.len() > 0 && is_suffix(s, p) {
        without_trailing(s.subrange(0, s.len() - p.len()), p)
    } else {
        s
    }
}

/// `str::ends_with` with a string pattern: whether the pattern matches a
/// suffix of the string. Trusted, not proved.
#[verifier::external_body]
pub(crate) fn ends_with(s: &str, pattern: &str) -> (r: bool)
    ensures
        r == is_suffix(s@, pattern@),
{
    s.ends_with(pattern)
}

/// `str::trim_end_matches` with a non-empty string pattern: the string with
/// all suffixes that match the pattern repeatedly removed. Trusted, not
/// proved.
#[verifier::external_body]
pub(crate) fn trim_end_matches<'a>(s: &'a str, pattern: &str) -> (r: &'a str)
    requires
        pattern@.len() > 0,
    ensures
        r@ == without_trailing(s@, pattern@),
{
    s.trim_end_matches(pattern)
}

/// The decimal digit for `d`, which is below ten.
pub open spec fn digit(d: nat) -> char {
    if d == 0 {
        '0'
    } else if d == 1 {
        '1'
    } else if d == 2 {
        '2'
    } else if d == 3 {
        '3'
    } else if d == 4 {
        '4'
    } else if d == 5 {
        '5'
    } else if d == 6 {
        '6'
    } else if d == 7 {
        '7'
    } else if d == 8 {
        '8'
    } else {
        '9'
    }
}

/// The number `n` in decimal digits, without leading zeros.
pub open spec fn decimal(n: nat) -> Seq<char>
    decreases n,
{
    if n < 10 {
        seq![digit(n)]
    } else {
        decimal(n / 10).push(digit(n % 10))
    }
}

/// The last `width` decimal digits of `n`, with leading zeros.
pub open spec fn padded_decimal(n: nat, width: nat) -> Seq<char>
    decreases width,
{
    if width == 0 {
        Seq::empty()
    } else {
        padded_decimal(n / 10, (width - 1) as nat).push(digit(n % 10))
    }
}

/// An amplitude in millionths of full scale, in ten-thousandths of full
/// scale, rounded to the nearest, a half upwards.
pub open spec fn ten_thousandths(millionths: u32) -> nat {
    (millionths as nat + 50) / 100
}

/// An amplitude in millionths of full scale, written as a fraction of full
/// scale with four decimal places, rounded to the nearest.
pub open spec fn amplitude_text(millionths: u32) -> Seq<char> {
    decimal(ten_thousandths(millionths) / 10_000) + seq!['.'] + padded_decimal(
        ten_thousandths(millionths) % 10_000,
        4,
    )
}

fn digit_str(d: u32) -> (r: &'static str)
    requires
        d < 10,
    ensures
        r@ == seq![digit(d as nat)],
{
    proof {
        reveal_strlit("0");
        reveal_strlit("1");
        reveal_strlit("2");
        reveal_strlit("3");
        reveal_strlit("4");
        reveal_strlit("5");
        reveal_strlit("6");
        reveal_strlit("7");
        reveal_strlit("8");
        reveal_strlit("9");
    }
    let r = if d == 0 {
        "0"
    } else if d == 1 {
        "1"
    } else if d == 2 {
        "2"
    } else if d == 3 {
        "3"
    } else if d == 4 {
        "4"
    } else if d == 5 {
        "5"
    } else if d == 6 {
        "6"
    } else if d == 7 {
        "7"
    } else if d == 8 {
        "8"
    } else {
        "9"
    };
    assert(r@ =~= seq![digit(d as nat)]);
    r
}

/// The number `n` in decimal digits.
pub fn decimal_string(n: u32) -> (r: String)
    ensures
        r@ == decimal(n as nat),
    decreases n,
{
    if n < 10 {
        owned(digit_str(n))
    } else {
        let front = decimal_string(n / 10);
        let r = join2(front.as_str(), digit_str(n % 10));
        assert(r@ =~= decimal(n as nat));
        r
    }
}

/// The last `width` decimal digits of `n`, with leading zeros.
pub fn padded_decimal_string(n: u32, width: u32) -> (r: String)
    ensures
        r@ == padded_decimal(n as nat, width as nat),
    decreases width,
{
    if width == 0 {
        String::new()
    } else {
        let front = padded_decimal_string(n / 10, width - 1);
        let r = join2(front.as_str(), digit_str(n % 10));
        assert(r@ =~= padded_decimal(n as nat, width as nat));
        r
    }
}

/// An amplitude in millionths of full scale, written as a fraction of full
/// scale with four decimal places, rounded to the nearest.
pub fn amplitude_string(millionths: u32) -> (r: String)
    ensures
        r@ == amplitude_text(millionths),
{
    let rounded: u64 = (millionths as u64 + 50) / 100;
    let rounded: u32 = rounded as u32;
    let whole = decimal_string(rounded / 10_000);
    let fraction = padded_decimal_string(rounded % 10_000, 4);
    proof {
        reveal_strlit(".");
        assert("."@ =~= seq!['.']);
    }
    join3(whole.as_str(), ".", fraction.as_str())
}

/// The name for what `str::trim` returns: the text without the white space
/// at its two ends.
pub uninterp spec fn trimmed(s: Seq<char>) -> Seq<char>;

/// `str::trim`: the string with leading and trailing white space removed.
/// Trusted, not proved; what counts as white space is left to the standard
/// library.
#[verifier::external_body]
pub(crate) fn trim<'a>(s: &'a str) -> (r: &'a str)
    ensures
        r@ == trimmed(s@),
{
    s.trim()
}

} // verus!
