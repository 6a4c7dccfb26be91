//! Decimal numbers as text.

use crate::text::chars_of;
use vstd::prelude::*;
use vstd::string::*;

verus! {

/// The decimal digit of `n`, which is below ten.
pub open spec fn digit(n: nat) -> char {
    ('0' as nat + n) as char
}

/// One of the characters 0 to 9.
pub open spec fn is_digit(c: char) -> bool {
    '0' <= c <= '9'
}

/// What the digit `c` stands for.
pub open spec fn digit_value(c: char) -> nat {
    (c as nat - '0' as nat) as nat
}

/// `n` in decimal digits, without leading zeros.
pub open spec fn decimal(n: nat) -> Seq<char>
    decreases n,
{
    if n < 10 {
        seq![digit(n)]
    } else {
        decimal(n / 10).push(digit(n % 10))
    }
}

/// `n`, which is below a hundred, in exactly two digits.
pub open spec fn two_digits(n: nat) -> Seq<char> {
    seq![digit(n / 10), digit(n % 10)]
}

/// The number that a sequence of digits stands for.
pub open spec fn value_of(s: Seq<char>) -> nat
    decreases s.len(),
{
    if s.len() == 0 {
        0
    } else {
        value_of(s.drop_last()) * 10 + digit_value(s.last())
    }
}

/// The digits of a number: all of `s`, but for one plus sign in front.
pub open spec fn unsigned_part(s: Seq<char>) -> Seq<char> {
    if s.len() > 0 && s[0] == '+' {
        s.skip(1)
    } else {
        s
    }
}

/// The number written in `s`: an optional plus sign and then one or more digits, worth no
/// more than `u64::MAX`.
pub open spec fn number_in(s: Seq<char>) -> Option<nat> {
    let digits = unsigned_part(s);
    if digits.len() > 0 && (forall|i: int| 0 <= i < digits.len() ==> is_digit(#[trigger] digits[i]))
        && value_of(digits) <= u64::MAX {
        Some(value_of(digits))
    } else {
        None
    }
}

proof fn lemma_value_of_prefix(s: Seq<char>, k: int)
    requires
        0 <= k <= s.len(),
    ensures
        value_of(s.take(k)) <= value_of(s),
    decreases s.len() - k,
{
    if k < s.len() {
        lemma_value_of_prefix(s, k + 1);
        assert(s.take(k + 1).drop_last() == s.take(k));
    } else {
        assert(s.take(k) == s);
    }
}

/// A number comes back from its decimal digits.
pub proof fn lemma_decimal_reads_back(n: nat)
    ensures
        decimal(n).len() > 0,
        forall|i: int| 0 <= i < decimal(n).len() ==> is_digit(#[trigger] decimal(n)[i]),
        value_of(decimal(n)) == n,
        n <= u64::MAX ==> number_in(decimal(n)) == Some(n),
    decreases n,
{
    if n < 10 {
        reveal_with_fuel(value_of, 2);
        assert(decimal(n).drop_last() == Seq::<char>::empty());
    } else {
        lemma_decimal_reads_back(n / 10);
        assert(decimal(n).drop_last() == decimal(n / 10));
    }
    assert(is_digit(decimal(n)[0]));
    assert(unsigned_part(decimal(n)) == decimal(n));
}

/// A number below a hundred comes back from its two digits.
pub proof fn lemma_two_digits_read_back(n: nat)
    requires
        n < 100,
    ensures
        number_in(two_digits(n)) == Some(n),
{
    let s = two_digits(n);
    reveal_with_fuel(value_of, 3);
    assert(s.drop_last().drop_last() == Seq::<char>::empty());
    assert(s.drop_last().last() == digit(n / 10));
    assert(value_of(s) == n);
    assert(unsigned_part(s) == s);
    assert(forall|i: int| 0 <= i < s.len() ==> is_digit(#[trigger] s[i]));
}

/// The digit of `n`.
fn digit_char(n: u64) -> (r: char)
    requires
        n < 10,
    ensures
        r == digit(n as nat),
{
    (48 + n as u8) as char
}

/// Appends `n` in decimal digits.
pub fn push_decimal(out: &mut String, n: u64)
    ensures
        final(out)@ == old(out)@ + decimal(n as nat),
    decreases n,
{
    if n >= 10 {
        push_decimal(out, n / 10);
    }
    out.push(digit_char(n % 10));
    assert(out@ == old(out)@ + decimal(n as nat));
}

/// Appends `n` in exactly two digits.
pub fn push_two_digits(out: &mut String, n: u64)
    requires
        n < 100,
    ensures
        final(out)@ == old(out)@ + two_digits(n as nat),
{
    out.push(digit_char(n / 10));
    out.push(digit_char(n % 10));
    assert(out@ == old(out)@ + two_digits(n as nat));
}

/// Reads a number: an optional plus sign and then one or more digits. Nothing if the text is
/// anything else, or if the number does not fit.
pub fn parse_number(text: &str) -> (r: Option<u64>)
    ensures
        r is Some <==> number_in(text@) is Some,
        r matches Some(n) ==> number_in(text@) == Some(n as nat),
{
    let chars: Vec<char> = chars_of(text);
    let start: usize = if chars.len() > 0 && chars[0] == '+' {
        1
    } else {
        0
    };
    let ghost digits = unsigned_part(text@);
    assert(digits == text@.skip(start as int));
    if start == chars.len() {
        return None;
    }
    let mut value: u64 = 0;
    let mut i: usize = start;
    while i < chars.len()
        invariant
            start <= i <= chars.len(),
            start < chars.len(),
            chars@ == text@,
            digits == text@.skip(start as int),
            digits == unsigned_part(text@),
            forall|j: int| 0 <= j < i - start ==> is_digit(#[trigger] digits[j]),
            value == value_of(digits.take(i - start)),
        decreases chars.len() - i,
    {
        let c: char = chars[i];
        assert(c == digits[i - start]);
        if c < '0' || c > '9' {
            assert(!is_digit(digits[i - start]));
            return None;
        }
        let d: u64 = (c as u32 - 48) as u64;
        proof {
            assert(digits.take(i - start + 1).drop_last() == digits.take(i - start));
            assert(value_of(digits.take(i - start + 1)) == value * 10 + d);
            lemma_value_of_prefix(digits, i - start + 1);
        }
        if value > (u64::MAX - d) / 10 {
            return None;
        }
        value = value * 10 + d;
        i += 1;
    }
    assert(digits.take(i - start) == digits);
    Some(value)
}

/// A number is written in digits, from the highest down to the last, and the first of several is
/// not zero.
pub proof fn law_decimal_digits(n: nat)
    ensures
        decimal(n).last() as u32 == 48 + n % 10,
        n < 10 ==> decimal(n).len() == 1,
        n >= 10 ==> decimal(n).drop_last() == decimal(n / 10) && decimal(n)[0] != '0',
        n < 100 ==> two_digits(n).len() == 2 && two_digits(n)[0] as u32 == 48 + n / 10
            && two_digits(n)[1] as u32 == 48 + n % 10,
    decreases n,
{
    if n >= 10 {
        law_decimal_digits(n / 10);
        assert(decimal(n).drop_last() =~= decimal(n / 10));
        assert(decimal(n)[0] == decimal(n / 10)[0]);
    }
}

/// How a number is read: nothing and a plus sign alone are none; one digit is worth its place
/// among the ten, with or without a plus sign in front; and each digit behind a number makes
/// it ten times as much and the digit more, as long as that fits. Anything else is no number.
pub proof fn law_number_is_read_digit_by_digit(s: Seq<char>, c: char)
    ensures
        number_in(seq![]) is None,
        number_in(seq!['+']) is None,
        number_in(seq![c]) == number_of_digit(c),
        number_in(seq!['+', c]) == number_of_digit(c),
        s.len() > 0 && s != seq!['+'] ==> number_in(s.push(c)) == (match (
            number_in(s),
            number_of_digit(c),
        ) {
            (Some(n), Some(d)) => if n * 10 + d <= 0xffff_ffff_ffff_ffff {
                Some(n * 10 + d)
            } else {
                None
            },
            _ => None,
        }),
{
    reveal_with_fuel(value_of, 3);
    let one = seq![c];
    let signed = seq!['+', c];
    assert(one.drop_last() =~= Seq::<char>::empty());
    assert(signed.skip(1) =~= one);
    assert(seq!['+'].skip(1) =~= Seq::<char>::empty());
    assert(one.skip(1) =~= Seq::<char>::empty());
    assert(unsigned_part(signed) == one);
    assert(is_digit(one[0]) <==> is_digit(c));
    if s.len() > 0 && s != seq!['+'] {
        let digits = unsigned_part(s);
        let more = s.push(c);
        assert(unsigned_part(more) =~= digits.push(c));
        if digits.len() == 0 {
            assert(s =~= seq!['+']);
        }
        assert(digits.push(c).drop_last() =~= digits);
        assert(value_of(digits.push(c)) == value_of(digits) * 10 + digit_value(c));
        assert(digits.push(c)[digits.len() as int] == c);
        let all = digits.push(c);
        if forall|i: int| 0 <= i < all.len() ==> is_digit(#[trigger] all[i]) {
            assert forall|i: int| 0 <= i < digits.len() implies is_digit(#[trigger] digits[i]) by {
                assert(is_digit(all[i]));
            }
            assert(is_digit(all[digits.len() as int]));
        }
    }
}

/// The number that the one character `c` stands for.
pub open spec fn number_of_digit(c: char) -> Option<nat> {
    if 48 <= c as u32 <= 57 {
        Some((c as u32 - 48) as nat)
    } else {
        None
    }
}

} // verus!
