//! Classification of the order-total amount string against the fixed
//! cash-on-delivery bounds.
//!
//! The total arrives as a decimal string such as `"250.00"`. The policy only
//! needs to know where its numeric value lies relative to the minimum and
//! maximum order totals, so the string is parsed and classified in one step.
//! A string that is not a plain decimal number is treated as zero, which
//! falls below the minimum: the policy deliberately fails toward hiding
//! cash on delivery rather than toward an error.

use vstd::prelude::*;
use crate::text::chars_of;

verus! {

/// Minimum order total (inclusive) for cash on delivery, in whole currency units.
pub const MIN_TOTAL: u64 = 100;

/// Maximum order total (inclusive) for cash on delivery, in whole currency units.
pub const MAX_TOTAL: u64 = 5000;

/// Where an order total lies relative to `[MIN_TOTAL, MAX_TOTAL]`.
#[derive(Clone, Copy, Debug, PartialEq, Eq, Structural)]
pub enum TotalBand {
    BelowMin,
    Within,
    AboveMax,
}

/// Is `c` a decimal digit?
pub open spec fn is_dec_digit(c: char) -> bool {
    '0' as u32 <= c as u32 && c as u32 <= '9' as u32
}

/// Numeric value of the digit `c`.
pub open spec fn digit_val(c: char) -> int {
    c as u32 - '0' as u32
}

/// The amount string with a single leading sign removed.
pub open spec fn body_of(s: Seq<char>) -> Seq<char> {
    if s.len() > 0 && (s[0] == '-' || s[0] == '+') {
        s.drop_first()
    } else {
        s
    }
}

/// Does the amount string denote a negative number?
pub open spec fn is_negative(s: Seq<char>) -> bool {
    s.len() > 0 && s[0] == '-'
}

/// A plain decimal body: at least one digit, every character a digit or a
/// decimal point, and at most one decimal point.
pub open spec fn is_decimal_body(t: Seq<char>) -> bool {
    &&& t.len() > 0
    &&& forall|i: int| 0 <= i < t.len() ==> is_dec_digit(#[trigger] t[i]) || t[i] == '.'
    &&& forall|i: int, j: int|
        0 <= i < t.len() && 0 <= j < t.len() && (#[trigger] t[i]) == '.' && (#[trigger] t[j])
            == '.' ==> i == j
    &&& exists|i: int| 0 <= i < t.len() && is_dec_digit(#[trigger] t[i])
}

/// Is the whole amount string a decimal number, after an optional sign?
pub open spec fn parses_as_decimal(s: Seq<char>) -> bool {
    is_decimal_body(body_of(s))
}

/// Position of the decimal point in a valid body, or its length if there is none.
pub open spec fn dot_pos(t: Seq<char>) -> int {
    if exists|i: int| 0 <= i < t.len() && t[i] == '.' {
        choose|i: int| 0 <= i < t.len() && t[i] == '.'
    } else {
        t.len() as int
    }
}

/// Value of a sequence of decimal digits, most significant first.
pub open spec fn digits_value(s: Seq<char>) -> int
    decreases s.len(),
{
    if s.len() == 0 {
        0
    } else {
        digits_value(s.drop_last()) * 10 + digit_val(s.last())
    }
}

/// The integer part of a valid decimal body.
pub open spec fn whole_value(t: Seq<char>) -> int {
    digits_value(t.take(dot_pos(t)))
}

/// Does a valid decimal body have a nonzero digit after the decimal point?
pub open spec fn frac_nonzero(t: Seq<char>) -> bool {
    exists|j: int| dot_pos(t) < j < t.len() && digit_val(#[trigger] t[j]) > 0
}

/// Where the value denoted by the amount string lies relative to the bounds.
/// A string that is not a plain decimal, or a negative one, counts as below
/// the minimum.
pub open spec fn spec_total_band(s: Seq<char>) -> TotalBand {
    if !parses_as_decimal(s) || is_negative(s) {
        TotalBand::BelowMin
    } else {
        let t = body_of(s);
        if whole_value(t) < MIN_TOTAL {
            TotalBand::BelowMin
        } else if whole_value(t) > MAX_TOTAL {
            TotalBand::AboveMax
        } else if whole_value(t) == MAX_TOTAL && frac_nonzero(t) {
            TotalBand::AboveMax
        } else {
            TotalBand::Within
        }
    }
}

proof fn lemma_digits_value_snoc(p: Seq<char>, c: char)
    ensures
        digits_value(p.push(c)) == digits_value(p) * 10 + digit_val(c),
{
    assert(p.push(c).drop_last() =~= p);
    assert(p.push(c).last() == c);
}

/// Classify the amount string `amount` against the cash-on-delivery bounds.
pub fn total_band(amount: &str) -> (b: TotalBand)
    ensures
        b == spec_total_band(amount@),
{
    let mut cs = chars_of(amount);
    let ghost s = amount@;
    let neg = cs.len() > 0 && cs[0] == '-';
    let signed = cs.len() > 0 && (cs[0] == '-' || cs[0] == '+');
    if signed {
        cs.remove(0);
        proof {
            assert(cs@ =~= body_of(s));
        }
    }
    proof {
        assert(cs@ =~= body_of(s));
        assert(neg == is_negative(s));
    }
    match scan_body(&cs) {
        None => {
            TotalBand::BelowMin
        },
        Some((whole_capped, frac_pos)) => {
            if neg {
                TotalBand::BelowMin
            } else if whole_capped < MIN_TOTAL {
                TotalBand::BelowMin
            } else if whole_capped > MAX_TOTAL {
                TotalBand::AboveMax
            } else if whole_capped == MAX_TOTAL && frac_pos {
                TotalBand::AboveMax
            } else {
                TotalBand::Within
            }
        },
    }
}

/// Cap used when accumulating the integer part: anything at or above it is
/// already beyond `MAX_TOTAL`, so larger values need not be represented.
pub const WHOLE_CAP: u64 = 10000;

/// Scan a sign-free amount body. Returns `None` when it is not a plain
/// decimal; otherwise the integer part capped at `WHOLE_CAP`, and whether a
/// nonzero digit follows the decimal point.
fn scan_body(cs: &Vec<char>) -> (r: Option<(u64, bool)>)
    ensures
        r is Some <==> is_decimal_body(cs@),
        r matches Some((w, f)) ==> {
            &&& if whole_value(cs@) <= WHOLE_CAP {
                w == whole_value(cs@)
            } else {
                w == WHOLE_CAP
            }
            &&& f == frac_nonzero(cs@)
        },
{
    let n = cs.len();
    if n == 0 {
        return None;
    }
    // First pass: check the shape and find the decimal point.
    let mut i: usize = 0;
    let mut dot: Option<usize> = None;
    let mut has_digit: bool = false;
    while i < n
        invariant
            n == cs@.len(),
            i <= n,
            forall|k: int| 0 <= k < i ==> is_dec_digit(#[trigger] cs@[k]) || cs@[k] == '.',
            match dot {
                Some(d) => d < i && cs@[d as int] == '.' && forall|k: int|
                    0 <= k < i && (#[trigger] cs@[k]) == '.' ==> k == d,
                None => forall|k: int| 0 <= k < i ==> (#[trigger] cs@[k]) != '.',
            },
            has_digit <==> exists|k: int| 0 <= k < i && is_dec_digit(#[trigger] cs@[k]),
        decreases n - i,
    {
        let c = cs[i];
        if c == '.' {
            match dot {
                Some(d) => {
                    proof {
                        assert(!is_decimal_body(cs@)) by {
                            if is_decimal_body(cs@) {
                                assert(cs@[d as int] == '.');
                                assert(cs@[i as int] == '.');
                                assert(false);
                            }
                        }
                    }
                    return None;
                },
                None => {
                    dot = Some(i);
                },
            }
        } else if '0' as u32 <= c as u32 && c as u32 <= '9' as u32 {
            has_digit = true;
        } else {
            proof {
                assert(!is_decimal_body(cs@)) by {
                    if is_decimal_body(cs@) {
                        assert(is_dec_digit(cs@[i as int]) || cs@[i as int] == '.');
                        assert(false);
                    }
                }
            }
            return None;
        }
        i = i + 1;
    }
    if !has_digit {
        proof {
            assert(!is_decimal_body(cs@)) by {
                if is_decimal_body(cs@) {
                    let w = choose|k: int| 0 <= k < cs@.len() && is_dec_digit(#[trigger] cs@[k]);
                    assert(is_dec_digit(cs@[w]));
                    assert(false);
                }
            }
        }
        return None;
    }
    let dotp: usize = match dot {
        Some(d) => d,
        None => n,
    };
    proof {
        assert(is_decimal_body(cs@));
        assert(dot_pos(cs@) == dotp as int);
    }
    // Second pass: accumulate the integer part, capped.
    let mut w: u64 = 0;
    let mut i: usize = 0;
    while i < dotp
        invariant
            n == cs@.len(),
            dotp <= n,
            dotp as int == dot_pos(cs@),
            i <= dotp,
            forall|k: int| 0 <= k < dotp ==> is_dec_digit(#[trigger] cs@[k]),
            digits_value(cs@.take(i as int)) >= 0,
            if digits_value(cs@.take(i as int)) <= WHOLE_CAP {
                w == digits_value(cs@.take(i as int))
            } else {
                w == WHOLE_CAP
            },
            w <= WHOLE_CAP,
        decreases dotp - i,
    {
        let c = cs[i];
        let d: u64 = (c as u32 - '0' as u32) as u64;
        proof {
            assert(cs@.take(i + 1) =~= cs@.take(i as int).push(cs@[i as int]));
            lemma_digits_value_snoc(cs@.take(i as int), cs@[i as int]);
        }
        if w * 10 + d >= WHOLE_CAP {
            w = WHOLE_CAP;
        } else {
            w = w * 10 + d;
        }
        i = i + 1;
    }
    proof {
        assert(cs@.take(dotp as int) =~= cs@.take(dot_pos(cs@)));
    }
    // Third pass: look for a nonzero digit after the decimal point.
    let mut frac: bool = false;
    let mut j: usize = if dotp < n {
        dotp + 1
    } else {
        n
    };
    let ghost j0 = j as int;
    while j < n
        invariant
            n == cs@.len(),
            dotp as int == dot_pos(cs@),
            j0 == if dotp < n { dotp + 1 } else { n as int },
            j0 <= j <= n,
            frac <==> exists|k: int| j0 <= k < j && digit_val(#[trigger] cs@[k]) > 0,
        decreases n - j,
    {
        let c = cs[j];
        if c as u32 > '0' as u32 {
            proof {
                assert(digit_val(cs@[j as int]) > 0);
            }
            frac = true;
        }
        j = j + 1;
    }
    proof {
        assert(frac == frac_nonzero(cs@));
    }
    Some((w, frac))
}

} // verus!
