//! Decimal rendering of the integer-valued settings fields.
//!
//! Every number that reaches the argument vector goes through these
//! functions, so their contracts tie the emitted characters exactly to
//! the mathematical value being rendered.

use vstd::prelude::*;

verus! {

/// The decimal digit character for a value below ten.
pub open spec fn spec_digit(d: nat) -> char {
    if d == 0 {
        '0'
    } else if d == 1 {
        '1'
    } else if d == 2 {
        '2'
    } else if d == 3 {
        '3'
    } else if d == 4 {
        '4'
    } else if d == 5 {
        '5'
    } else if d == 6 {
        '6'
    } else if d == 7 {
        '7'
    } else if d == 8 {
        '8'
    } else {
        '9'
    }
}

/// Decimal digits of an unsigned value, most significant first, no sign
/// and no leading zeros (a single `'0'` for zero).
pub open spec fn spec_udec(n: nat) -> Seq<char>
    decreases n,
{
    if n < 10 {
        seq![spec_digit(n)]
    } else {
        spec_udec(n / 10) + seq![spec_digit(n % 10)]
    }
}

/// Decimal encoding of a signed value: a minus sign before the digits of
/// the magnitude when negative.
pub open spec fn spec_idec(n: int) -> Seq<char> {
    if n < 0 {
        seq!['-'] + spec_udec((-n) as nat)
    } else {
        spec_udec(n as nat)
    }
}

/// Whether a character is a decimal digit.
pub open spec fn is_digit(c: char) -> bool {
    48 <= c as int <= 57
}

/// Every character of an unsigned decimal rendering is a digit.
pub proof fn lemma_udec_digits(n: nat)
    ensures
        spec_udec(n).len() >= 1,
        forall|i: int| 0 <= i < spec_udec(n).len() ==> is_digit(#[trigger] spec_udec(n)[i]),
    decreases n,
{
    if n >= 10 {
        lemma_udec_digits(n / 10);
    }
}

/// A signed decimal rendering starts with a minus sign or a digit, and
/// every later character is a digit.
pub proof fn lemma_idec_shape(n: int)
    ensures
        spec_idec(n).len() >= 1,
        is_digit(spec_idec(n)[0]) || spec_idec(n)[0] == '-',
        forall|i: int| 1 <= i < spec_idec(n).len() ==> is_digit(#[trigger] spec_idec(n)[i]),
{
    if n < 0 {
        lemma_udec_digits((-n) as nat);
    } else {
        lemma_udec_digits(n as nat);
    }
}

pub(crate) fn digit_str(d: u64) -> (r: &'static str)
    requires
        d < 10,
    ensures
        r@ == seq![spec_digit(d as nat)],
{
    let r: &'static str = match d {
        0 => "0",
        1 => "1",
        2 => "2",
        3 => "3",
        4 => "4",
        5 => "5",
        6 => "6",
        7 => "7",
        8 => "8",
        _ => "9",
    };
    proof {
        reveal_strlit("0");
        reveal_strlit("1");
        reveal_strlit("2");
        reveal_strlit("3");
        reveal_strlit("4");
        reveal_strlit("5");
        reveal_strlit("6");
        reveal_strlit("7");
        reveal_strlit("8");
        reveal_strlit("9");
        assert(r@ =~= seq![spec_digit(d as nat)]);
    }
    r
}

/// Appends the decimal digits of `n` to `r`.
pub fn push_udec(r: &mut String, n: u64)
    ensures
        final(r)@ == old(r)@ + spec_udec(n as nat),
    decreases n,
{
    if n < 10 {
        r.append(digit_str(n));
    } else {
        push_udec(r, n / 10);
        r.append(digit_str(n % 10));
        proof {
            assert(r@ =~= old(r)@ + spec_udec(n as nat));
        }
    }
}

/// Renders an unsigned value in decimal.
pub fn fmt_u64(n: u64) -> (r: String)
    ensures
        r@ == spec_udec(n as nat),
{
    let mut r = String::new();
    push_udec(&mut r, n);
    proof {
        assert(r@ =~= spec_udec(n as nat));
    }
    r
}

/// Renders a signed value in decimal.
pub fn fmt_i64(n: i64) -> (r: String)
    ensures
        r@ == spec_idec(n as int),
{
    if n >= 0 {
        let r = fmt_u64(n as u64);
        r
    } else {
        let mut r = String::new();
        r.append("-");
        let m: u64 = if n == i64::MIN {
            9223372036854775808
        } else {
            (-n) as u64
        };
        push_udec(&mut r, m);
        proof {
            reveal_strlit("-");
            assert(r@ =~= spec_idec(n as int));
        }
        r
    }
}

} // verus!
