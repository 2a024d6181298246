//! Whole numbers as decimal text.

use vstd::prelude::*;
use vstd::string::*;

verus! {

/// Whether a character is a decimal digit.
pub open spec fn is_digit(c: char) -> bool {
    '0' <= c && c <= '9'
}

/// The character that writes a digit.
pub open spec fn digit_char(digit: int) -> char {
    ('0' as int + digit) as char
}

/// The number that a sequence of decimal digits writes, the first digit
/// counting most. The empty sequence writes zero.
pub open spec fn decimal_value(digits: Seq<char>) -> nat
    decreases digits.len(),
{
    if digits.len() == 0 {
        0
    } else {
        (10 * decimal_value(digits.drop_last()) + (digits.last() as int - '0' as int)) as nat
    }
}

/// The digits of a natural number, without leading zeros.
pub open spec fn natural_text(n: nat) -> Seq<char>
    decreases n,
{
    if n < 10 {
        seq![digit_char(n as int)]
    } else {
        natural_text(n / 10).push(digit_char(n as int % 10))
    }
}

/// A whole number as decimal text: its digits without leading zeros, after
/// a minus sign where it is negative.
pub open spec fn decimal_text(i: int) -> Seq<char> {
    if i < 0 {
        seq!['-'] + natural_text((-i) as nat)
    } else {
        natural_text(i as nat)
    }
}

/// The text of a natural number is made of digits, one at least, and writes
/// that number.
pub proof fn lemma_natural_text_writes(n: nat)
    ensures
        natural_text(n).len() > 0,
        forall|i: int| 0 <= i < natural_text(n).len() ==> is_digit(#[trigger] natural_text(n)[i]),
        decimal_value(natural_text(n)) == n,
    decreases n,
{
    if n < 10 {
        let text = natural_text(n);
        assert(text.drop_last() =~= Seq::<char>::empty());
        assert(decimal_value(text.drop_last()) == 0);
    } else {
        lemma_natural_text_writes(n / 10);
        let text = natural_text(n);
        assert(text.drop_last() =~= natural_text(n / 10));
        assert(text.last() == digit_char(n as int % 10));
    }
}

/// Different numbers have different texts.
pub proof fn lemma_decimal_text_is_unique(a: int, b: int)
    requires
        decimal_text(a) == decimal_text(b),
    ensures
        a == b,
{
    let abs_a = if a < 0 { (-a) as nat } else { a as nat };
    let abs_b = if b < 0 { (-b) as nat } else { b as nat };
    lemma_natural_text_writes(abs_a);
    lemma_natural_text_writes(abs_b);
    assert(is_digit(natural_text(abs_a)[0]));
    assert(is_digit(natural_text(abs_b)[0]));
    if a < 0 {
        assert(decimal_text(a)[0] == '-');
        assert(b < 0);
        assert(natural_text(abs_a) =~= decimal_text(a).drop_first());
        assert(natural_text(abs_b) =~= decimal_text(b).drop_first());
    } else {
        assert(decimal_text(b)[0] != '-');
    }
}

fn digit_str(digit: u64) -> (s: &'static str)
    requires
        digit < 10,
    ensures
        s@ == seq![digit_char(digit as int)],
{
    proof {
        reveal_strlit("0");
        reveal_strlit("1");
        reveal_strlit("2");
        reveal_strlit("3");
        reveal_strlit("4");
        reveal_strlit("5");
        reveal_strlit("6");
        reveal_strlit("7");
        reveal_strlit("8");
        reveal_strlit("9");
    }
    let s = if digit == 0 {
        "0"
    } else if digit == 1 {
        "1"
    } else if digit == 2 {
        "2"
    } else if digit == 3 {
        "3"
    } else if digit == 4 {
        "4"
    } else if digit == 5 {
        "5"
    } else if digit == 6 {
        "6"
    } else if digit == 7 {
        "7"
    } else if digit == 8 {
        "8"
    } else {
        "9"
    };
    assert(s@ =~= seq![digit_char(digit as int)]);
    s
}

fn append_natural(out: &mut String, n: u64)
    ensures
        final(out)@ == old(out)@ + natural_text(n as nat),
    decreases n,
{
    if n >= 10 {
        append_natural(out, n / 10);
    }
    out.append(digit_str(n % 10));
    assert(out@ =~= old(out)@ + natural_text(n as nat));
}

/// Writes a number as decimal text.
pub fn decimal_string(i: i64) -> (s: String)
    ensures
        s@ == decimal_text(i as int),
{
    let mut s = String::new();
    if i < 0 {
        proof {
            reveal_strlit("-");
        }
        s.append("-");
        let magnitude: u64 = if i == i64::MIN {
            9223372036854775808
        } else {
            (-i) as u64
        };
        append_natural(&mut s, magnitude);
        assert(s@ =~= decimal_text(i as int));
    } else {
        append_natural(&mut s, i as u64);
        assert(s@ =~= decimal_text(i as int));
    }
    s
}

} // verus!
