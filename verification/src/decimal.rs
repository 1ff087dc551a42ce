//! Decimal notation of integers.

use vstd::prelude::*;
use vstd::string::StringExecFns;

verus! {

/// The character of a decimal digit.
pub open spec fn digit(d: nat) -> char {
    (48 + d) as char
}

/// The decimal digits of a natural number, the most significant first and no leading zero.
pub open spec fn digits(n: nat) -> Seq<char>
    decreases n,
{
    if n < 10 {
        seq![digit(n)]
    } else {
        digits(n / 10).push(digit(n % 10))
    }
}

/// An integer in decimal notation, with a minus sign before the digits of a negative one.
pub open spec fn decimal(n: int) -> Seq<char> {
    if n < 0 {
        seq!['-'] + digits((-n) as nat)
    } else {
        digits(n as nat)
    }
}

/// The number that a row of decimal digits stands for.
pub open spec fn value(chars: Seq<char>) -> int
    decreases chars.len(),
{
    if chars.len() == 0 {
        0
    } else {
        10 * value(chars.drop_last()) + (chars.last() as int - '0' as int)
    }
}

/// The digits of a number are digits, stand for that number, and start with a zero only where the
/// zero stands alone.
pub proof fn law_digits_stand_for_the_number(n: nat)
    ensures
        digits(n).len() >= 1,
        forall|i: int| 0 <= i < digits(n).len() ==> '0' <= #[trigger] digits(n)[i] <= '9',
        digits(n).len() > 1 ==> digits(n)[0] != '0',
        value(digits(n)) == n,
    decreases n,
{
    if n < 10 {
        assert(digits(n).drop_last() =~= Seq::<char>::empty());
        assert(value(digits(n).drop_last()) == 0);
    } else {
        let upper = digits(n / 10);
        law_digits_stand_for_the_number(n / 10);
        assert(digits(n).drop_last() =~= upper);
        if upper.len() == 1 {
            assert(upper.drop_last() =~= Seq::<char>::empty());
            assert(value(upper.drop_last()) == 0);
        }
    }
}

/// An integer can be told from its notation: a minus sign stands before a negative one and before
/// no other, the digits behind it stand for the magnitude, and two integers never share a
/// notation.
pub proof fn law_decimal_reads_back(n: int, other: int)
    ensures
        n >= 0 ==> value(decimal(n)) == n && decimal(n)[0] != '-',
        n < 0 ==> decimal(n)[0] == '-' && value(decimal(n).skip(1)) == -n && decimal(n).skip(1)
            == decimal(-n),
        decimal(n) == decimal(other) <==> n == other,
{
    law_digits_stand_for_the_number(if n < 0 { (-n) as nat } else { n as nat });
    law_digits_stand_for_the_number(if other < 0 { (-other) as nat } else { other as nat });
    if n < 0 {
        assert(decimal(n).skip(1) =~= digits((-n) as nat));
    }
    if other < 0 {
        assert(decimal(other).skip(1) =~= digits((-other) as nat));
    }
    if n >= 0 {
        assert('0' <= digits(n as nat)[0]);
    }
    if other >= 0 {
        assert('0' <= digits(other as nat)[0]);
    }
}

/// The one-character string of a decimal digit.
fn digit_str(d: u32) -> (s: &'static str)
    requires
        d < 10,
    ensures
        s@ == seq![digit(d as nat)],
{
    proof {
        reveal_strlit("0");
        reveal_strlit("1");
        reveal_strlit("2");
        reveal_strlit("3");
        reveal_strlit("4");
        reveal_strlit("5");
        reveal_strlit("6");
        reveal_strlit("7");
        reveal_strlit("8");
        reveal_strlit("9");
    }
    let s = match d {
        0 => "0",
        1 => "1",
        2 => "2",
        3 => "3",
        4 => "4",
        5 => "5",
        6 => "6",
        7 => "7",
        8 => "8",
        _ => "9",
    };
    assert(s@ =~= seq![digit(d as nat)]);
    s
}

/// Appends the decimal digits of a natural number.
fn append_digits(out: &mut String, n: u32)
    ensures
        final(out)@ == old(out)@ + digits(n as nat),
    decreases n,
{
    if n >= 10 {
        append_digits(out, n / 10);
    }
    out.append(digit_str(n % 10));
    assert(out@ =~= old(out)@ + digits(n as nat));
}

/// Writes an integer in decimal notation.
pub fn to_decimal(n: i32) -> (s: String)
    ensures
        s@ == decimal(n as int),
{
    let mut out = String::new();
    if n < 0 {
        proof {
            reveal_strlit("-");
        }
        out.append("-");
        assert(out@ =~= seq!['-']);
        let magnitude: i64 = -(n as i64);
        append_digits(&mut out, magnitude as u32);
    } else {
        append_digits(&mut out, n as u32);
    }
    assert(out@ =~= decimal(n as int));
    out
}

} // verus!
