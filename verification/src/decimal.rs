//! Decimal text of integers: plain digits, a leading `-` for negative
//! numbers, no separators and no padding.

use vstd::prelude::*;
use vstd::string::StringExecFns;

verus! {

/// The character of one decimal digit; `'0'` outside `0..=9`.
pub open spec fn digit_char(d: int) -> char {
    if d == 1 {
        '1'
    } else if d == 2 {
        '2'
    } else if d == 3 {
        '3'
    } else if d == 4 {
        '4'
    } else if d == 5 {
        '5'
    } else if d == 6 {
        '6'
    } else if d == 7 {
        '7'
    } else if d == 8 {
        '8'
    } else if d == 9 {
        '9'
    } else {
        '0'
    }
}

/// The digits of a natural number, most significant first.
pub open spec fn digits(n: nat) -> Seq<char>
    decreases n,
{
    if n < 10 {
        seq![digit_char(n as int)]
    } else {
        digits(n / 10).push(digit_char((n % 10) as int))
    }
}

/// The decimal text of an integer.
pub open spec fn decimal(n: int) -> Seq<char> {
    if n < 0 {
        seq!['-'] + digits((-n) as nat)
    } else {
        digits(n as nat)
    }
}

/// Whether a character is one of the ten digits.
pub open spec fn is_digit(c: char) -> bool {
    exists|d: int| 0 <= d < 10 && c == digit_char(d)
}

/// The digits of a number are at least one, more than one from 10 on, and
/// each of them is a digit.
pub proof fn lemma_digits_shape(n: nat)
    ensures
        digits(n).len() >= 1,
        n >= 10 ==> digits(n).len() >= 2,
        forall|i: int| 0 <= i < digits(n).len() ==> is_digit(#[trigger] digits(n)[i]),
    decreases n,
{
    if n < 10 {
        assert(is_digit(digit_char(n as int)));
    } else {
        lemma_digits_shape(n / 10);
        assert(is_digit(digit_char((n % 10) as int)));
    }
}

/// Two natural numbers with the same digits are the same number.
pub proof fn lemma_digits_injective(a: nat, b: nat)
    requires
        digits(a) == digits(b),
    ensures
        a == b,
    decreases a,
{
    lemma_digits_shape(a);
    lemma_digits_shape(b);
    if a < 10 {
        assert(digits(a)[0] == digit_char(a as int));
        assert(digits(b)[0] == digit_char(b as int));
    } else {
        let shorter_a = digits(a / 10);
        let shorter_b = digits(b / 10);
        let last_a = digit_char((a % 10) as int);
        let last_b = digit_char((b % 10) as int);
        assert(shorter_a.push(last_a).drop_last() =~= shorter_a);
        assert(shorter_b.push(last_b).drop_last() =~= shorter_b);
        assert(shorter_a.push(last_a).last() == last_a);
        assert(shorter_b.push(last_b).last() == last_b);
        lemma_digits_injective(a / 10, b / 10);
    }
}

/// Two integers with the same decimal text are the same integer.
pub proof fn lemma_decimal_injective(a: int, b: int)
    requires
        decimal(a) == decimal(b),
    ensures
        a == b,
{
    let magnitude_a = (if a < 0 { -a } else { a }) as nat;
    let magnitude_b = (if b < 0 { -b } else { b }) as nat;
    lemma_digits_shape(magnitude_a);
    lemma_digits_shape(magnitude_b);
    assert(is_digit(digits(magnitude_a)[0]));
    assert(is_digit(digits(magnitude_b)[0]));
    assert(decimal(a)[0] == if a < 0 { '-' } else { digits(magnitude_a)[0] });
    assert(decimal(b)[0] == if b < 0 { '-' } else { digits(magnitude_b)[0] });
    if a < 0 {
        assert((seq!['-'] + digits(magnitude_a)).skip(1) =~= digits(magnitude_a));
        assert((seq!['-'] + digits(magnitude_b)).skip(1) =~= digits(magnitude_b));
    }
    lemma_digits_injective(magnitude_a, magnitude_b);
}

/// A decimal text between a fixed beginning and a fixed end determines its
/// number: two texts that differ only in the number are different texts.
pub proof fn lemma_decimal_between(prefix: Seq<char>, a: int, b: int, suffix: Seq<char>)
    requires
        prefix + decimal(a) + suffix == prefix + decimal(b) + suffix,
    ensures
        a == b,
{
    let first = decimal(a);
    let second = decimal(b);
    let with_first = prefix + first + suffix;
    let with_second = prefix + second + suffix;
    assert(with_first.len() == prefix.len() + first.len() + suffix.len());
    assert(with_second.len() == prefix.len() + second.len() + suffix.len());
    assert forall|i: int| 0 <= i < first.len() implies first[i] == second[i] by {
        assert(with_first[prefix.len() + i] == first[i]);
        assert(with_second[prefix.len() + i] == second[i]);
    }
    assert(first =~= second);
    lemma_decimal_injective(a, b);
}

/// The one-character string of a digit.
fn digit_str(d: u8) -> (s: &'static str)
    requires
        d < 10,
    ensures
        s@ == seq![digit_char(d as int)],
{
    proof {
        reveal_strlit("0");
        reveal_strlit("1");
        reveal_strlit("2");
        reveal_strlit("3");
        reveal_strlit("4");
        reveal_strlit("5");
        reveal_strlit("6");
        reveal_strlit("7");
        reveal_strlit("8");
        reveal_strlit("9");
    }
    let s = match d {
        0 => "0",
        1 => "1",
        2 => "2",
        3 => "3",
        4 => "4",
        5 => "5",
        6 => "6",
        7 => "7",
        8 => "8",
        _ => "9",
    };
    assert(s@ =~= seq![digit_char(d as int)]);
    s
}

/// Appends the digits of `n` to `out`.
fn push_digits(out: &mut String, n: u128)
    ensures
        final(out)@ == old(out)@ + digits(n as nat),
    decreases n,
{
    if n >= 10 {
        push_digits(out, n / 10);
    }
    let last: u8 = (n % 10) as u8;
    out.append(digit_str(last));
    proof {
        if n >= 10 {
            assert(out@ =~= old(out)@ + digits((n / 10) as nat).push(digit_char((n % 10) as int)));
        } else {
            assert(out@ =~= old(out)@ + seq![digit_char(n as int)]);
        }
    }
}

/// Appends the decimal text of `n` to `out`.
pub fn push_decimal(out: &mut String, n: i128)
    ensures
        final(out)@ == old(out)@ + decimal(n as int),
{
    if n < 0 {
        let magnitude: u128 = ((-(n + 1)) as u128) + 1;
        proof {
            reveal_strlit("-");
        }
        out.append("-");
        push_digits(out, magnitude);
        assert(out@ =~= old(out)@ + (seq!['-'] + digits((-n) as nat)));
    } else {
        push_digits(out, n as u128);
    }
}

/// The decimal text of `n` as a string.
pub fn decimal_string(n: i128) -> (text: String)
    ensures
        text@ == decimal(n as int),
{
    let mut text = String::new();
    push_decimal(&mut text, n);
    assert(text@ =~= decimal(n as int));
    text
}

} // verus!
