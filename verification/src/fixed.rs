//! Fixed-point values with two decimal places.
//!
//! The sampling, penalty, RoPE and LoRA-scale settings are decimal
//! quantities that the argument compiler renders with at most two
//! fractional digits and compares against sentinels with a tolerance
//! finer than one hundredth.  The model therefore stores them exactly,
//! in hundredths, which both renderings and all sentinel comparisons
//! read without loss.

use vstd::prelude::*;
use crate::numfmt::{spec_digit, spec_udec, spec_idec, push_udec, digit_str, is_digit};
use crate::numfmt::{lemma_udec_digits, lemma_idec_shape};

verus! {

/// A decimal number with two fractional digits, stored in hundredths.
/// `centi == 150` stands for `1.50`; `centi == -100` stands for `-1.00`.
#[derive(Clone, Copy, Debug, PartialEq, Eq, Structural)]
pub struct Fixed2 {
    pub centi: i64,
}

/// Two-decimal rendering of a magnitude in hundredths: digits of the
/// whole part, a point, then exactly two fractional digits.
pub open spec fn spec_fixed2_abs(m: nat) -> Seq<char> {
    spec_udec(m / 100) + seq!['.', spec_digit((m / 10) % 10), spec_digit(m % 10)]
}

/// Two-decimal rendering of a hundredths value, as `format!("{:.2}", x)`
/// renders the quantity it stands for: optional sign, whole part, point,
/// two fractional digits.
pub open spec fn spec_fixed2(c: int) -> Seq<char> {
    if c < 0 {
        seq!['-'] + spec_fixed2_abs((-c) as nat)
    } else {
        spec_fixed2_abs(c as nat)
    }
}

/// Shortest rendering of a hundredths value, as `f32::to_string` renders
/// the quantity it stands for: trailing fractional zeros are dropped, and
/// a whole number keeps no point at all.
pub open spec fn spec_trim2(c: int) -> Seq<char> {
    if c % 100 == 0 {
        spec_idec(c / 100)
    } else {
        let sign: Seq<char> = if c < 0 { seq!['-'] } else { seq![] };
        let m = if c < 0 { (-c) as nat } else { c as nat };
        if m % 10 == 0 {
            sign + spec_udec(m / 100) + seq!['.', spec_digit((m / 10) % 10)]
        } else {
            sign + spec_fixed2_abs(m)
        }
    }
}

/// The first character of a fixed-point rendering is a sign or a digit,
/// and the second character is never a letter-like flag character: it is
/// a digit or a point.
pub proof fn lemma_fixed2_shape(c: int)
    ensures
        spec_fixed2(c).len() >= 4,
        is_digit(spec_fixed2(c)[0]) || spec_fixed2(c)[0] == '-',
        is_digit(spec_fixed2(c)[1]) || spec_fixed2(c)[1] == '.',
{
    if c < 0 {
        lemma_udec_digits(((-c) as nat) / 100);
    } else {
        lemma_udec_digits((c as nat) / 100);
    }
}

/// The same shape fact for the trimmed rendering.
pub proof fn lemma_trim2_shape(c: int)
    ensures
        spec_trim2(c).len() >= 1,
        is_digit(spec_trim2(c)[0]) || spec_trim2(c)[0] == '-',
        spec_trim2(c).len() >= 2 ==> is_digit(spec_trim2(c)[1]) || spec_trim2(c)[1] == '.',
{
    lemma_idec_shape(c / 100);
    if c % 100 == 0 {
    } else {
        let m = if c < 0 { (-c) as nat } else { c as nat };
        lemma_udec_digits(m / 100);
    }
}

impl Fixed2 {
    /// The value `w.00` for a small whole number.
    pub fn whole(w: i32) -> (r: Fixed2)
        ensures
            r.centi == w * 100,
    {
        Fixed2 { centi: (w as i64) * 100 }
    }

    /// Builds a value directly from hundredths.
    pub fn from_centi(centi: i64) -> (r: Fixed2)
        ensures
            r.centi == centi,
    {
        Fixed2 { centi }
    }

    /// Renders the value with exactly two fractional digits, the way the
    /// compiler formats the always-emitted sampling parameters.
    pub fn fmt_fixed(&self) -> (r: String)
        ensures
            r@ == spec_fixed2(self.centi as int),
    {
        let mut r = String::new();
        let m: u64 = if self.centi < 0 {
            r.append("-");
            if self.centi == i64::MIN {
                9223372036854775808
            } else {
                (-self.centi) as u64
            }
        } else {
            self.centi as u64
        };
        push_udec(&mut r, m / 100);
        r.append(".");
        r.append(digit_str((m / 10) % 10));
        r.append(digit_str(m % 10));
        proof {
            reveal_strlit("-");
            reveal_strlit(".");
            assert(r@ =~= spec_fixed2(self.centi as int));
        }
        r
    }

    /// Renders the value in its shortest decimal form, the way the
    /// compiler formats the RoPE frequency and YaRN factors.
    pub fn fmt_trimmed(&self) -> (r: String)
        ensures
            r@ == spec_trim2(self.centi as int),
    {
        let neg = self.centi < 0;
        let m: u64 = if neg {
            if self.centi == i64::MIN {
                9223372036854775808
            } else {
                (-self.centi) as u64
            }
        } else {
            self.centi as u64
        };
        proof {
            reveal_strlit("-");
            reveal_strlit(".");
        }
        if m % 100 == 0 {
            let mut r = String::new();
            if neg && m > 0 {
                r.append("-");
            }
            push_udec(&mut r, m / 100);
            proof {
                assert(r@ =~= spec_trim2(self.centi as int));
            }
            r
        } else {
            let mut r = String::new();
            if neg {
                r.append("-");
            }
            push_udec(&mut r, m / 100);
            r.append(".");
            r.append(digit_str((m / 10) % 10));
            if m % 10 != 0 {
                r.append(digit_str(m % 10));
            }
            proof {
                assert(r@ =~= spec_trim2(self.centi as int));
            }
            r
        }
    }
}

} // verus!
