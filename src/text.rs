//! Character-level pieces of a name: decimal rendering of a number and the
//! mapping of ASCII digits to Persian numerals.

use vstd::prelude::*;
use vstd::string::*;

verus! {

/// The Persian numeral for an ASCII digit; every other character is left as it is.
pub open spec fn persian_digit(c: char) -> char {
    if c == '0' {
        '۰'
    } else if c == '1' {
        '۱'
    } else if c == '2' {
        '۲'
    } else if c == '3' {
        '۳'
    } else if c == '4' {
        '۴'
    } else if c == '5' {
        '۵'
    } else if c == '6' {
        '۶'
    } else if c == '7' {
        '۷'
    } else if c == '8' {
        '۸'
    } else if c == '9' {
        '۹'
    } else {
        c
    }
}

/// `s` with each ASCII digit replaced by its Persian numeral.
pub open spec fn persian_digits(s: Seq<char>) -> Seq<char> {
    s.map_values(|c: char| persian_digit(c))
}

/// The ASCII digit for a value below ten.
pub open spec fn digit_char(d: nat) -> char {
    if d == 0 {
        '0'
    } else if d == 1 {
        '1'
    } else if d == 2 {
        '2'
    } else if d == 3 {
        '3'
    } else if d == 4 {
        '4'
    } else if d == 5 {
        '5'
    } else if d == 6 {
        '6'
    } else if d == 7 {
        '7'
    } else if d == 8 {
        '8'
    } else {
        '9'
    }
}

/// The value of an ASCII digit (zero for any other character).
pub open spec fn digit_value(c: char) -> nat {
    if c == '1' {
        1
    } else if c == '2' {
        2
    } else if c == '3' {
        3
    } else if c == '4' {
        4
    } else if c == '5' {
        5
    } else if c == '6' {
        6
    } else if c == '7' {
        7
    } else if c == '8' {
        8
    } else if c == '9' {
        9
    } else {
        0
    }
}

/// The base-10 form of `n`: no sign, no leading zeros.
pub open spec fn decimal_of(n: nat) -> Seq<char>
    decreases n,
{
    if n < 10 {
        seq![digit_char(n)]
    } else {
        decimal_of(n / 10).push(digit_char(n % 10))
    }
}

/// The number that a string of ASCII digits stands for, read in base 10.
pub open spec fn decimal_value(s: Seq<char>) -> nat
    decreases s.len(),
{
    if s.len() == 0 {
        0
    } else {
        decimal_value(s.drop_last()) * 10 + digit_value(s.last())
    }
}

/// Reading back the decimal form of a number gives the number.
pub proof fn lemma_decimal_round_trip(n: nat)
    ensures
        decimal_value(decimal_of(n)) == n,
    decreases n,
{
    let s = decimal_of(n);
    assert(digit_value(digit_char(n % 10)) == n % 10);
    assert(s.last() == digit_char(n % 10));
    assert(decimal_value(s) == decimal_value(s.drop_last()) * 10 + digit_value(s.last()));
    if n >= 10 {
        lemma_decimal_round_trip(n / 10);
        assert(decimal_of(n).drop_last() =~= decimal_of(n / 10));
        assert(n == (n / 10) * 10 + n % 10);
    } else {
        assert(s.drop_last() =~= Seq::<char>::empty());
        assert(decimal_value(s.drop_last()) == 0);
    }
}

/// Relies on `String::push`: the character is added at the end.
#[verifier::external_body]
pub(crate) fn push_char(s: &mut String, c: char)
    ensures
        final(s)@ == old(s)@.push(c),
{
    s.push(c);
}

/// Relies on `ToString` for `u32` (its `Display`): the base-10 form of the number.
#[verifier::external_body]
pub(crate) fn decimal_string(n: u32) -> (r: String)
    ensures
        r@ == decimal_of(n as nat),
{
    n.to_string()
}

/// The Persian numeral for an ASCII digit, any other character unchanged.
pub fn to_persian_digit(c: char) -> (r: char)
    ensures
        r == persian_digit(c),
{
    match c {
        '0' => '۰',
        '1' => '۱',
        '2' => '۲',
        '3' => '۳',
        '4' => '۴',
        '5' => '۵',
        '6' => '۶',
        '7' => '۷',
        '8' => '۸',
        '9' => '۹',
        _ => c,
    }
}

/// Copies `s`, writing every ASCII digit as a Persian numeral.
pub fn to_persian_digits(s: &str) -> (r: String)
    ensures
        r@ == persian_digits(s@),
{
    let n = s.unicode_len();
    let mut out = String::new();
    let mut i: usize = 0;
    while i < n
        invariant
            n == s@.len(),
            i <= n,
            out@ == persian_digits(s@.subrange(0, i as int)),
        decreases n - i,
    {
        let c = s.get_char(i);
        push_char(&mut out, to_persian_digit(c));
        assert(persian_digits(s@.subrange(0, i + 1)) =~= persian_digits(s@.subrange(0, i as int)).push(
            persian_digit(c),
        ));
        i = i + 1;
    }
    assert(s@.subrange(0, n as int) =~= s@);
    out
}

} // verus!
