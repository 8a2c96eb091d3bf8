//! Decimal rendering and parsing of unsigned integers, used by the
//! command parser (numeric arguments) and by the output renderer.

use vstd::prelude::*;

verus! {

/// The character for a single decimal digit.
pub open spec fn digit_char(d: nat) -> char {
    if d == 0 {
        '0'
    } else if d == 1 {
        '1'
    } else if d == 2 {
        '2'
    } else if d == 3 {
        '3'
    } else if d == 4 {
        '4'
    } else if d == 5 {
        '5'
    } else if d == 6 {
        '6'
    } else if d == 7 {
        '7'
    } else if d == 8 {
        '8'
    } else {
        '9'
    }
}

/// The usual decimal rendering of `n`, without sign or padding.
pub open spec fn dec_str(n: nat) -> Seq<char>
    decreases n,
{
    if n < 10 {
        seq![digit_char(n)]
    } else {
        dec_str(n / 10) + seq![digit_char(n % 10)]
    }
}

/// The numeric value of a decimal digit character, or 10 for any
/// character that is not a digit.
pub open spec fn digit_value(c: char) -> nat {
    if c == '0' {
        0
    } else if c == '1' {
        1
    } else if c == '2' {
        2
    } else if c == '3' {
        3
    } else if c == '4' {
        4
    } else if c == '5' {
        5
    } else if c == '6' {
        6
    } else if c == '7' {
        7
    } else if c == '8' {
        8
    } else if c == '9' {
        9
    } else {
        10
    }
}

/// True when every character of `s` is a decimal digit and `s` is
/// not empty.
pub open spec fn all_digits(s: Seq<char>) -> bool {
    s.len() > 0 && forall|i: int| 0 <= i < s.len() ==> digit_value(s[i]) < 10
}

/// The value denoted by a string of decimal digits.
pub open spec fn dec_value(s: Seq<char>) -> nat
    decreases s.len(),
{
    if s.len() == 0 {
        0
    } else {
        dec_value(s.drop_last()) * 10 + digit_value(s.last())
    }
}

/// A decimal digit rendered as a one-character string slice.
fn digit_str(d: u8) -> (r: &'static str)
    requires
        d < 10,
    ensures
        r@ =~= seq![digit_char(d as nat)],
{
    proof {
        reveal_strlit("0");
        reveal_strlit("1");
        reveal_strlit("2");
        reveal_strlit("3");
        reveal_strlit("4");
        reveal_strlit("5");
        reveal_strlit("6");
        reveal_strlit("7");
        reveal_strlit("8");
        reveal_strlit("9");
    }
    match d {
        0 => "0",
        1 => "1",
        2 => "2",
        3 => "3",
        4 => "4",
        5 => "5",
        6 => "6",
        7 => "7",
        8 => "8",
        _ => "9",
    }
}

/// Renders `n` in decimal.
pub fn u64_to_string(n: u64) -> (r: String)
    ensures
        r@ == dec_str(n as nat),
    decreases n,
{
    if n < 10 {
        String::from_str(digit_str(n as u8))
    } else {
        let mut prefix = u64_to_string(n / 10);
        prefix.append(digit_str((n % 10) as u8));
        prefix
    }
}

/// Parses a string of decimal digits as a `u64`. Returns `None` when
/// the string is empty, holds any non-digit character, or denotes a
/// value above `u64::MAX`.
pub fn parse_u64(s: &str) -> (r: Option<u64>)
    ensures
        r matches Some(n) ==> all_digits(s@) && n == dec_value(s@) && dec_value(s@) <= u64::MAX,
        r is None ==> !all_digits(s@) || dec_value(s@) > u64::MAX,
{
    let len = s.unicode_len();
    if len == 0 {
        return None;
    }
    let mut acc: u64 = 0;
    let mut i: usize = 0;
    while i < len
        invariant
            0 < len == s@.len(),
            0 <= i <= len,
            forall|j: int| 0 <= j < i ==> digit_value(s@[j]) < 10,
            acc == dec_value(s@.take(i as int)),
            dec_value(s@.take(i as int)) <= u64::MAX,
        decreases len - i,
    {
        let c = s.get_char(i);
        let d = digit_of(c);
        if d >= 10 {
            assert(digit_value(s@[i as int]) >= 10);
            return None;
        }
        if acc > (u64::MAX - d as u64) / 10 {
            proof {
                if all_digits(s@) {
                    lemma_dec_value_grows(s@, i as int);
                }
            }
            return None;
        }
        assert(s@.take(i + 1).drop_last() =~= s@.take(i as int));
        acc = acc * 10 + d as u64;
        i = i + 1;
    }
    assert(s@.take(len as int) =~= s@);
    Some(acc)
}

/// The numeric value of a digit character, 10 when not a digit.
fn digit_of(c: char) -> (d: u8)
    ensures
        d <= 10,
        d as nat == digit_value(c),
{
    match c {
        '0' => 0,
        '1' => 1,
        '2' => 2,
        '3' => 3,
        '4' => 4,
        '5' => 5,
        '6' => 6,
        '7' => 7,
        '8' => 8,
        '9' => 9,
        _ => 10,
    }
}

/// Once a prefix of `s` denotes more than would fit after one more
/// digit, the whole digit string denotes more than `u64::MAX`.
proof fn lemma_dec_value_grows(s: Seq<char>, i: int)
    requires
        0 <= i < s.len(),
        all_digits(s),
        dec_value(s.take(i)) * 10 + digit_value(s[i]) > u64::MAX,
    ensures
        dec_value(s) > u64::MAX,
    decreases s.len() - i,
{
    assert(s.take(i + 1).drop_last() =~= s.take(i));
    assert(s.take(i + 1).last() == s[i]);
    assert(dec_value(s.take(i + 1)) > u64::MAX);
    if i + 1 == s.len() {
        assert(s.take(i + 1) =~= s);
    } else {
        lemma_dec_value_monotone(s, i + 1);
    }
}

/// The value of a digit string is at least the value of any prefix.
proof fn lemma_dec_value_monotone(s: Seq<char>, i: int)
    requires
        0 <= i <= s.len(),
    ensures
        dec_value(s) >= dec_value(s.take(i)),
    decreases s.len() - i,
{
    if i == s.len() {
        assert(s.take(i) =~= s);
    } else {
        assert(s.take(i + 1).drop_last() =~= s.take(i));
        assert(dec_value(s.take(i + 1)) >= dec_value(s.take(i)));
        lemma_dec_value_monotone(s, i + 1);
    }
}

} // verus!
