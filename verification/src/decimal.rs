//! An exact decimal number, the form in which fractional field text (speeds,
//! depths, coordinates) is handed to callers.
//!
//! A `Decimal` keeps the digits of the field exactly: the denoted number is
//! `mantissa / 10^scale`, negated when `negative` is set. Nothing is rounded,
//! so contracts over fields can speak about the transmitted value itself.

use vstd::prelude::*;
use crate::text::{contains_char, first_index_of};
use crate::numbers::{
    all_dec_digits, dec_value, ext_value, pow10, lemma_dec_value_concat, lemma_dec_value_nonneg,
    lemma_pow10_pos,
};

verus! {

/// A signed decimal number with an exact mantissa: `mantissa / 10^scale`,
/// negative when `negative` is set.
#[derive(Clone, Copy, PartialEq, Eq, Structural, Debug)]
pub struct Decimal {
    pub negative: bool,
    pub mantissa: u64,
    pub scale: u32,
}

impl Decimal {
    /// Every `Decimal` the library hands out satisfies this: the scale is
    /// small enough for exact millisecond arithmetic, and zero is never
    /// negative.
    pub open spec fn wf(self) -> bool {
        self.scale <= 19 && (self.mantissa == 0 ==> !self.negative)
    }

    /// The numerator of the denoted number `numerator / 10^scale`.
    pub open spec fn numerator(self) -> int {
        if self.negative {
            -(self.mantissa as int)
        } else {
            self.mantissa as int
        }
    }
}

/// The negation of `d`; zero stays non-negative.
pub open spec fn spec_negate(d: Decimal) -> Decimal {
    if d.mantissa == 0 {
        d
    } else {
        Decimal { negative: !d.negative, mantissa: d.mantissa, scale: d.scale }
    }
}

pub fn negate(d: Decimal) -> (r: Decimal)
    ensures
        r == spec_negate(d),
{
    if d.mantissa == 0 {
        d
    } else {
        Decimal { negative: !d.negative, mantissa: d.mantissa, scale: d.scale }
    }
}

/// Negation flips the sign of the denoted number and keeps its scale, so a
/// hemisphere flip changes exactly the sign of a coordinate.
pub proof fn lemma_negate_value(d: Decimal)
    ensures
        spec_negate(d).numerator() == -d.numerator(),
        spec_negate(d).scale == d.scale,
        d.wf() ==> spec_negate(d).wf(),
{
}

/// The decimal-text grammar: an optional sign, then digits with at most one
/// point and at least one digit in all. The digits must fit a `u64` mantissa
/// and at most 19 fractional places; zero normalizes to non-negative.
pub open spec fn spec_parse_decimal(s: Seq<char>) -> Option<Decimal> {
    let neg = s.len() > 0 && s[0] == '-';
    let t = if s.len() > 0 && (s[0] == '-' || s[0] == '+') {
        s.skip(1)
    } else {
        s
    };
    let ip = if contains_char(t, '.') {
        t.take(first_index_of(t, '.'))
    } else {
        t
    };
    let fp = if contains_char(t, '.') {
        t.skip(first_index_of(t, '.') + 1)
    } else {
        Seq::<char>::empty()
    };
    if all_dec_digits(ip) && all_dec_digits(fp) && ip.len() + fp.len() > 0 && dec_value(ip + fp)
        <= u64::MAX && fp.len() <= 19 {
        Some(
            Decimal {
                negative: neg && dec_value(ip + fp) != 0,
                mantissa: dec_value(ip + fp) as u64,
                scale: fp.len() as u32,
            },
        )
    } else {
        None
    }
}

/// Parses field text as an exact decimal number.
pub fn parse_decimal(s: &str) -> (r: Option<Decimal>)
    ensures
        r == spec_parse_decimal(s@),
        r matches Some(d) ==> d.wf(),
{
    let n = s.unicode_len();
    let mut neg = false;
    let mut start: usize = 0;
    if n > 0 {
        let c0 = s.get_char(0);
        if c0 == '-' {
            neg = true;
            start = 1;
        } else if c0 == '+' {
            start = 1;
        }
    }
    let t = s.substring_char(start, n);
    proof {
        if start == 0 {
            assert(t@ =~= s@);
        } else {
            assert(t@ =~= s@.skip(1));
        }
    }
    let tn = n - start;
    let (ip, fp) = match crate::text::find_char(t, '.') {
        Some(di) => {
            proof {
                crate::text::lemma_first_index_of(t@, '.');
            }
            (t.substring_char(0, di), t.substring_char(di + 1, tn))
        },
        None => (t, s.substring_char(n, n)),
    };
    proof {
        if contains_char(t@, '.') {
            crate::text::lemma_first_index_of(t@, '.');
            assert(ip@ =~= t@.take(first_index_of(t@, '.')));
            assert(fp@ =~= t@.skip(first_index_of(t@, '.') + 1));
        } else {
            assert(ip@ =~= t@);
            assert(fp@ =~= Seq::<char>::empty());
        }
    }
    let ipn = ip.unicode_len();
    let fpn = fp.unicode_len();
    if ipn + fpn == 0 || fpn > 19 {
        return None;
    }
    let acc1 = match crate::numbers::accumulate_digits(ip, 0) {
        Some(v) => v,
        None => {
            proof {
                if all_dec_digits(ip@) && all_dec_digits(fp@) {
                    lemma_whole_exceeds_integer_part(ip@, fp@);
                }
            }
            return None;
        },
    };
    proof {
        assert(ext_value(0, ip@) == dec_value(ip@));
        if all_dec_digits(ip@) {
            lemma_dec_value_nonneg(ip@);
        }
    }
    let m = match crate::numbers::accumulate_digits(fp, acc1) {
        Some(v) => v,
        None => {
            proof {
                if all_dec_digits(ip@) && all_dec_digits(fp@) {
                    lemma_dec_value_concat(ip@, fp@);
                }
            }
            return None;
        },
    };
    proof {
        lemma_dec_value_concat(ip@, fp@);
        lemma_dec_value_nonneg(fp@);
        lemma_pow10_pos(fp@.len() as nat);
        let x = acc1 as int;
        let p = pow10(fp@.len() as nat);
        assert(x * p >= 0) by (nonlinear_arith)
            requires
                x >= 0,
                p >= 1,
        ;
        assert(m as int == dec_value(ip@ + fp@));
    }
    Some(
        Decimal {
            negative: neg && m != 0,
            mantissa: m,
            scale: fpn as u32,
        },
    )
}

/// If the integer part alone overflows, the whole numeral does.
proof fn lemma_whole_exceeds_integer_part(ip: Seq<char>, fp: Seq<char>)
    requires
        all_dec_digits(ip),
        all_dec_digits(fp),
        dec_value(ip) > u64::MAX,
    ensures
        dec_value(ip + fp) > u64::MAX,
{
    lemma_dec_value_concat(ip, fp);
    lemma_dec_value_nonneg(fp);
    lemma_pow10_pos(fp.len() as nat);
    let x = dec_value(ip);
    let p = pow10(fp.len() as nat);
    assert(x * p >= x) by (nonlinear_arith)
        requires
            x >= 0,
            p >= 1,
    ;
}

} // verus!
