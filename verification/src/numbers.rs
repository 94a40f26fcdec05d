//! Verified parsing of decimal and hexadecimal numerals from field text.
//!
//! Every accessor of the sentence type funnels through these parsers, so their
//! contracts pin down exactly which texts are accepted and which value each
//! accepted text denotes.

use vstd::prelude::*;
use crate::text::{is_hex_digit, hex_digit_value};

verus! {

/// One decimal digit.
pub open spec fn is_dec_digit(c: char) -> bool {
    '0' <= c && c <= '9'
}

pub open spec fn all_dec_digits(s: Seq<char>) -> bool {
    forall|i: int| 0 <= i < s.len() ==> is_dec_digit(s[i])
}

pub open spec fn all_hex_digits(s: Seq<char>) -> bool {
    forall|i: int| 0 <= i < s.len() ==> is_hex_digit(s[i])
}

/// The integer denoted by a sequence of decimal digits, most significant first.
pub open spec fn dec_value(s: Seq<char>) -> int
    decreases s.len(),
{
    if s.len() == 0 {
        0
    } else {
        dec_value(s.drop_last()) * 10 + ((s.last() as int) - 48)
    }
}

/// The integer denoted by a sequence of hexadecimal digits, most significant first.
pub open spec fn hex_value_of(s: Seq<char>) -> int
    decreases s.len(),
{
    if s.len() == 0 {
        0
    } else {
        hex_value_of(s.drop_last()) * 16 + hex_digit_value(s.last())
    }
}

/// Ten raised to `e`.
pub open spec fn pow10(e: nat) -> int
    decreases e,
{
    if e == 0 {
        1
    } else {
        10 * pow10((e - 1) as nat)
    }
}

pub proof fn lemma_pow10_pos(e: nat)
    ensures
        pow10(e) >= 1,
    decreases e,
{
    if e > 0 {
        lemma_pow10_pos((e - 1) as nat);
    }
}

/// An unsigned decimal numeral: an optional leading `+`, then one or more
/// digits. The unbounded value is returned; the typed parsers compare it
/// against their range.
pub open spec fn spec_parse_unsigned(s: Seq<char>) -> Option<int> {
    let t = if s.len() > 0 && s[0] == '+' {
        s.skip(1)
    } else {
        s
    };
    if t.len() > 0 && all_dec_digits(t) {
        Some(dec_value(t))
    } else {
        None
    }
}

/// A signed decimal numeral: `-` negates, `+` or no sign keeps the value.
pub open spec fn spec_parse_signed(s: Seq<char>) -> Option<int> {
    if s.len() > 0 && s[0] == '-' {
        let t = s.skip(1);
        if t.len() > 0 && all_dec_digits(t) {
            Some(-dec_value(t))
        } else {
            None
        }
    } else {
        spec_parse_unsigned(s)
    }
}

/// An unsigned hexadecimal numeral: an optional leading `+`, then one or more
/// hexadecimal digits of either case.
pub open spec fn spec_parse_hex(s: Seq<char>) -> Option<int> {
    let t = if s.len() > 0 && s[0] == '+' {
        s.skip(1)
    } else {
        s
    };
    if t.len() > 0 && all_hex_digits(t) {
        Some(hex_value_of(t))
    } else {
        None
    }
}

pub open spec fn spec_parse_u8(s: Seq<char>) -> Option<u8> {
    match spec_parse_unsigned(s) {
        Some(v) => if v <= u8::MAX { Some(v as u8) } else { None },
        None => None,
    }
}

pub open spec fn spec_parse_u16(s: Seq<char>) -> Option<u16> {
    match spec_parse_unsigned(s) {
        Some(v) => if v <= u16::MAX { Some(v as u16) } else { None },
        None => None,
    }
}

pub open spec fn spec_parse_u32(s: Seq<char>) -> Option<u32> {
    match spec_parse_unsigned(s) {
        Some(v) => if v <= u32::MAX { Some(v as u32) } else { None },
        None => None,
    }
}

pub open spec fn spec_parse_i32(s: Seq<char>) -> Option<i32> {
    match spec_parse_signed(s) {
        Some(v) => if i32::MIN <= v <= i32::MAX { Some(v as i32) } else { None },
        None => None,
    }
}

pub open spec fn spec_parse_hex_u8(s: Seq<char>) -> Option<u8> {
    match spec_parse_hex(s) {
        Some(v) => if v <= u8::MAX { Some(v as u8) } else { None },
        None => None,
    }
}

pub open spec fn spec_parse_hex_u16(s: Seq<char>) -> Option<u16> {
    match spec_parse_hex(s) {
        Some(v) => if v <= u16::MAX { Some(v as u16) } else { None },
        None => None,
    }
}

pub open spec fn spec_parse_hex_u32(s: Seq<char>) -> Option<u32> {
    match spec_parse_hex(s) {
        Some(v) => if v <= u32::MAX { Some(v as u32) } else { None },
        None => None,
    }
}

/// `init` carried through a run of digits: the value of the numeral obtained
/// by writing the digits of `s` after an initial value `init`.
pub open spec fn ext_value(init: int, s: Seq<char>) -> int {
    init * pow10(s.len() as nat) + dec_value(s)
}

proof fn lemma_ext_value_step(init: int, s: Seq<char>, j: int)
    requires
        0 <= j < s.len(),
    ensures
        ext_value(init, s.take(j + 1)) == 10 * ext_value(init, s.take(j)) + ((s[j] as int) - 48),
{
    assert(s.take(j + 1).drop_last() =~= s.take(j));
    assert(s.take(j + 1).last() == s[j]);
    let p = pow10(j as nat);
    let dv = dec_value(s.take(j));
    let d = (s[j] as int) - 48;
    assert(dec_value(s.take(j + 1)) == dv * 10 + d);
    assert(pow10((j + 1) as nat) == 10 * p);
    assert(init * (10 * p) + (dv * 10 + d) == 10 * (init * p + dv) + d) by (nonlinear_arith);
}

proof fn lemma_ext_value_nonneg(init: int, s: Seq<char>, j: int)
    requires
        0 <= init,
        0 <= j <= s.len(),
        all_dec_digits(s),
    ensures
        0 <= ext_value(init, s.take(j)),
    decreases j,
{
    if j == 0 {
        assert(s.take(0) =~= Seq::<char>::empty());
    } else {
        lemma_ext_value_nonneg(init, s, j - 1);
        lemma_ext_value_step(init, s, j - 1);
    }
}

/// Extending a run of digits never lowers the carried value.
proof fn lemma_ext_value_prefix(init: int, s: Seq<char>, j: int)
    requires
        0 <= init,
        0 <= j <= s.len(),
        all_dec_digits(s),
    ensures
        ext_value(init, s.take(j)) <= ext_value(init, s),
    decreases s.len() - j,
{
    if j == s.len() {
        assert(s.take(j) =~= s);
    } else {
        lemma_ext_value_nonneg(init, s, j);
        lemma_ext_value_step(init, s, j);
        lemma_ext_value_prefix(init, s, j + 1);
    }
}

/// Writing the digits of `b` after the numeral `a` denotes
/// `dec_value(a) * 10^|b| + dec_value(b)`.
pub proof fn lemma_dec_value_concat(a: Seq<char>, b: Seq<char>)
    ensures
        dec_value(a + b) == dec_value(a) * pow10(b.len() as nat) + dec_value(b),
    decreases b.len(),
{
    if b.len() == 0 {
        assert(a + b =~= a);
    } else {
        lemma_dec_value_concat(a, b.drop_last());
        assert((a + b).drop_last() =~= a + b.drop_last());
        assert((a + b).last() == b.last());
        let x = dec_value(a);
        let y = dec_value(b.drop_last());
        let p = pow10((b.len() - 1) as nat);
        let d = (b.last() as int) - 48;
        assert(dec_value(a + b) == (x * p + y) * 10 + d);
        assert(dec_value(b) == y * 10 + d);
        assert(pow10(b.len() as nat) == 10 * p);
        assert((x * p + y) * 10 + d == x * (10 * p) + (y * 10 + d)) by (nonlinear_arith);
    }
}

pub proof fn lemma_dec_value_nonneg(s: Seq<char>)
    requires
        all_dec_digits(s),
    ensures
        0 <= dec_value(s),
{
    lemma_ext_value_nonneg(0, s, s.len() as int);
    assert(s.take(s.len() as int) =~= s);
}

pub proof fn lemma_parse_unsigned_nonneg(s: Seq<char>)
    ensures
        spec_parse_unsigned(s) matches Some(v) ==> v >= 0,
{
    let t = if s.len() > 0 && s[0] == '+' {
        s.skip(1)
    } else {
        s
    };
    if t.len() > 0 && all_dec_digits(t) {
        lemma_dec_value_nonneg(t);
    }
}

pub proof fn lemma_parse_hex_nonneg(s: Seq<char>)
    ensures
        spec_parse_hex(s) matches Some(v) ==> v >= 0,
{
    let t = if s.len() > 0 && s[0] == '+' {
        s.skip(1)
    } else {
        s
    };
    if t.len() > 0 && all_hex_digits(t) {
        lemma_hex_value_nonneg(t, t.len() as int);
        assert(t.take(t.len() as int) =~= t);
    }
}

/// Reads a run of decimal digits, extending the value `init`; `None` when a
/// non-digit appears or the value would not fit in a `u64`.
pub(crate) fn accumulate_digits(s: &str, init: u64) -> (r: Option<u64>)
    ensures
        ({
            let v = ext_value(init as int, s@);
            if all_dec_digits(s@) && v <= u64::MAX {
                r == Some(v as u64)
            } else {
                r is None
            }
        }),
{
    let n = s.unicode_len();
    let mut acc: u64 = init;
    let mut i: usize = 0;
    proof {
        assert(s@.take(0) =~= Seq::<char>::empty());
    }
    while i < n
        invariant
            n == s@.len(),
            i <= n,
            all_dec_digits(s@.take(i as int)),
            acc as int == ext_value(init as int, s@.take(i as int)),
        decreases n - i,
    {
        let c = s.get_char(i);
        if c < '0' || c > '9' {
            return None;
        }
        let d: u64 = (c as u64) - 48;
        if acc > (u64::MAX - d) / 10 {
            proof {
                if all_dec_digits(s@) {
                    assert(s@.take(i as int) =~= s@.take(i as int));
                    lemma_ext_value_step(init as int, s@, i as int);
                    lemma_ext_value_prefix(init as int, s@, i + 1);
                }
            }
            return None;
        }
        proof {
            lemma_ext_value_step(init as int, s@, i as int);
        }
        acc = acc * 10 + d;
        i = i + 1;
    }
    proof {
        assert(s@.take(n as int) =~= s@);
    }
    Some(acc)
}

/// Reads a run of hexadecimal digits; `None` when a non-digit appears or the
/// value would not fit in a `u64`.
fn accumulate_hex_digits(s: &str) -> (r: Option<u64>)
    ensures
        ({
            let v = hex_value_of(s@);
            if all_hex_digits(s@) && v <= u64::MAX {
                r == Some(v as u64)
            } else {
                r is None
            }
        }),
{
    let n = s.unicode_len();
    let mut acc: u64 = 0;
    let mut i: usize = 0;
    proof {
        assert(s@.take(0) =~= Seq::<char>::empty());
    }
    while i < n
        invariant
            n == s@.len(),
            i <= n,
            all_hex_digits(s@.take(i as int)),
            acc as int == hex_value_of(s@.take(i as int)),
        decreases n - i,
    {
        let c = s.get_char(i);
        let d: u64 = match crate::text::hex_value(c) {
            Some(d) => d as u64,
            None => {
                return None;
            },
        };
        if acc > (u64::MAX - d) / 16 {
            proof {
                if all_hex_digits(s@) {
                    lemma_hex_value_step(s@, i as int);
                    lemma_hex_value_prefix(s@, i + 1);
                }
            }
            return None;
        }
        proof {
            lemma_hex_value_step(s@, i as int);
        }
        acc = acc * 16 + d;
        i = i + 1;
    }
    proof {
        assert(s@.take(n as int) =~= s@);
    }
    Some(acc)
}

proof fn lemma_hex_value_step(s: Seq<char>, j: int)
    requires
        0 <= j < s.len(),
    ensures
        hex_value_of(s.take(j + 1)) == 16 * hex_value_of(s.take(j)) + hex_digit_value(s[j]),
{
    assert(s.take(j + 1).drop_last() =~= s.take(j));
    assert(s.take(j + 1).last() == s[j]);
    assert(hex_value_of(s.take(j + 1)) == hex_value_of(s.take(j)) * 16 + hex_digit_value(s[j]));
}

proof fn lemma_hex_value_nonneg(s: Seq<char>, j: int)
    requires
        0 <= j <= s.len(),
        all_hex_digits(s),
    ensures
        0 <= hex_value_of(s.take(j)),
    decreases j,
{
    if j == 0 {
        assert(s.take(0) =~= Seq::<char>::empty());
    } else {
        lemma_hex_value_nonneg(s, j - 1);
        lemma_hex_value_step(s, j - 1);
    }
}

proof fn lemma_hex_value_prefix(s: Seq<char>, j: int)
    requires
        0 <= j <= s.len(),
        all_hex_digits(s),
    ensures
        hex_value_of(s.take(j)) <= hex_value_of(s),
    decreases s.len() - j,
{
    if j == s.len() {
        assert(s.take(j) =~= s);
    } else {
        lemma_hex_value_nonneg(s, j);
        lemma_hex_value_step(s, j);
        lemma_hex_value_prefix(s, j + 1);
    }
}

/// The unsigned-numeral core: value of `s` when it is at most `max`.
fn parse_unsigned_max(s: &str, max: u64) -> (r: Option<u64>)
    ensures
        ({
            match spec_parse_unsigned(s@) {
                Some(v) => if v <= max { r == Some(v as u64) } else { r is None },
                None => r is None,
            }
        }),
{
    let n = s.unicode_len();
    let start: usize = if n > 0 && s.get_char(0) == '+' {
        1
    } else {
        0
    };
    if start >= n {
        return None;
    }
    let t = s.substring_char(start, n);
    proof {
        if start == 0 {
            assert(t@ =~= s@);
        } else {
            assert(t@ =~= s@.skip(1));
        }
    }
    match accumulate_digits(t, 0) {
        Some(v) => {
            proof {
                if all_dec_digits(t@) {
                    lemma_dec_value_nonneg(t@);
                }
            }
            if v <= max {
                Some(v)
            } else {
                None
            }
        },
        None => None,
    }
}

/// The hexadecimal core.
fn parse_hex_max(s: &str, max: u64) -> (r: Option<u64>)
    ensures
        ({
            match spec_parse_hex(s@) {
                Some(v) => if v <= max { r == Some(v as u64) } else { r is None },
                None => r is None,
            }
        }),
{
    let n = s.unicode_len();
    let start: usize = if n > 0 && s.get_char(0) == '+' {
        1
    } else {
        0
    };
    if start >= n {
        return None;
    }
    let t = s.substring_char(start, n);
    proof {
        if start == 0 {
            assert(t@ =~= s@);
        } else {
            assert(t@ =~= s@.skip(1));
        }
    }
    match accumulate_hex_digits(t) {
        Some(v) => {
            proof {
                if all_hex_digits(t@) {
                    lemma_hex_value_nonneg(t@, t@.len() as int);
                    assert(t@.take(t@.len() as int) =~= t@);
                }
            }
            if v <= max {
                Some(v)
            } else {
                None
            }
        },
        None => None,
    }
}

pub fn parse_u8(s: &str) -> (r: Option<u8>)
    ensures
        r == spec_parse_u8(s@),
{
    proof {
        lemma_parse_unsigned_nonneg(s@);
    }
    match parse_unsigned_max(s, 255) {
        Some(v) => Some(v as u8),
        None => None,
    }
}

pub fn parse_u16(s: &str) -> (r: Option<u16>)
    ensures
        r == spec_parse_u16(s@),
{
    proof {
        lemma_parse_unsigned_nonneg(s@);
    }
    match parse_unsigned_max(s, 65535) {
        Some(v) => Some(v as u16),
        None => None,
    }
}

pub fn parse_u32(s: &str) -> (r: Option<u32>)
    ensures
        r == spec_parse_u32(s@),
{
    proof {
        lemma_parse_unsigned_nonneg(s@);
    }
    match parse_unsigned_max(s, 4294967295) {
        Some(v) => Some(v as u32),
        None => None,
    }
}

pub fn parse_i32(s: &str) -> (r: Option<i32>)
    ensures
        r == spec_parse_i32(s@),
{
    let n = s.unicode_len();
    if n > 0 && s.get_char(0) == '-' {
        let t = s.substring_char(1, n);
        proof {
            assert(t@ =~= s@.skip(1));
        }
        if t.unicode_len() == 0 {
            return None;
        }
        match accumulate_digits(t, 0) {
            Some(v) => {
                proof {
                    if all_dec_digits(t@) {
                        lemma_dec_value_nonneg(t@);
                    }
                }
                if v <= 2147483648 {
                    if v == 2147483648 {
                        Some(i32::MIN)
                    } else {
                        Some(-(v as i32))
                    }
                } else {
                    None
                }
            },
            None => None,
        }
    } else {
        proof {
            lemma_parse_unsigned_nonneg(s@);
        }
        match parse_unsigned_max(s, 2147483647) {
            Some(v) => Some(v as i32),
            None => None,
        }
    }
}

pub fn parse_hex_u8(s: &str) -> (r: Option<u8>)
    ensures
        r == spec_parse_hex_u8(s@),
{
    proof {
        lemma_parse_hex_nonneg(s@);
    }
    match parse_hex_max(s, 255) {
        Some(v) => Some(v as u8),
        None => None,
    }
}

pub fn parse_hex_u16(s: &str) -> (r: Option<u16>)
    ensures
        r == spec_parse_hex_u16(s@),
{
    proof {
        lemma_parse_hex_nonneg(s@);
    }
    match parse_hex_max(s, 65535) {
        Some(v) => Some(v as u16),
        None => None,
    }
}

pub fn parse_hex_u32(s: &str) -> (r: Option<u32>)
    ensures
        r == spec_parse_hex_u32(s@),
{
    proof {
        lemma_parse_hex_nonneg(s@);
    }
    match parse_hex_max(s, 4294967295) {
        Some(v) => Some(v as u32),
        None => None,
    }
}

pub proof fn lemma_pow10_add(a: nat, b: nat)
    ensures
        pow10(a + b) == pow10(a) * pow10(b),
    decreases b,
{
    if b == 0 {
        assert(pow10(a + 0) == pow10(a) * 1);
    } else {
        lemma_pow10_add(a, (b - 1) as nat);
        let pa = pow10(a);
        let pb1 = pow10((b - 1) as nat);
        assert(pow10(a + b) == 10 * (pa * pb1));
        assert(10 * (pa * pb1) == pa * (10 * pb1)) by (nonlinear_arith);
    }
}

/// A numeral of `n` digits denotes a value below ten to the `n`.
pub proof fn lemma_dec_value_bound(s: Seq<char>)
    requires
        all_dec_digits(s),
    ensures
        0 <= dec_value(s) < pow10(s.len() as nat),
    decreases s.len(),
{
    if s.len() == 0 {
    } else {
        assert(all_dec_digits(s.drop_last())) by {
            assert(forall|i: int|
                0 <= i < s.drop_last().len() ==> s.drop_last()[i] == s[i]);
        }
        lemma_dec_value_bound(s.drop_last());
        let v = dec_value(s.drop_last());
        let p = pow10((s.len() - 1) as nat);
        let d = (s.last() as int) - 48;
        assert(0 <= d <= 9);
        assert(v * 10 + d < p * 10) by (nonlinear_arith)
            requires
                0 <= v < p,
                d <= 9,
        ;
        assert(pow10(s.len() as nat) == 10 * p);
    }
}

/// Ten to the `e`, executable; exact for every exponent up to 19.
pub fn pow10_u64(e: u32) -> (r: u64)
    requires
        e <= 19,
    ensures
        r as int == pow10(e as nat),
        r >= 1,
{
    proof {
        lemma_pow10_pos(e as nat);
    }
    let mut r: u64 = 1;
    let mut k: u32 = 0;
    while k < e
        invariant
            k <= e,
            e <= 19,
            r as int == pow10(k as nat),
        decreases e - k,
    {
        proof {
            lemma_pow10_pos(k as nat);
            lemma_pow10_bound_19(e as nat);
            lemma_pow10_mono(k as nat, (e - 1) as nat);
            assert(pow10((k + 1) as nat) == 10 * pow10(k as nat));
        }
        r = r * 10;
        k = k + 1;
    }
    r
}

/// Ten to the nineteenth fits a `u64`.
pub proof fn lemma_pow10_bound_19(e: nat)
    requires
        e <= 19,
    ensures
        pow10(e) <= 10000000000000000000,
{
    assert(pow10(0) == 1);
    assert(pow10(1) == 10);
    assert(pow10(2) == 100);
    assert(pow10(3) == 1000);
    assert(pow10(4) == 10000);
    assert(pow10(5) == 100000);
    assert(pow10(6) == 1000000);
    assert(pow10(7) == 10000000);
    assert(pow10(8) == 100000000);
    assert(pow10(9) == 1000000000);
    assert(pow10(10) == 10000000000);
    assert(pow10(11) == 100000000000);
    assert(pow10(12) == 1000000000000);
    assert(pow10(13) == 10000000000000);
    assert(pow10(14) == 100000000000000);
    assert(pow10(15) == 1000000000000000);
    assert(pow10(16) == 10000000000000000);
    assert(pow10(17) == 100000000000000000);
    assert(pow10(18) == 1000000000000000000);
    assert(pow10(19) == 10000000000000000000);
    lemma_pow10_mono(e, 19);
}

pub proof fn lemma_pow10_mono(a: nat, b: nat)
    requires
        a <= b,
    ensures
        pow10(a) <= pow10(b),
    decreases b,
{
    if a < b {
        lemma_pow10_mono(a, (b - 1) as nat);
        lemma_pow10_pos((b - 1) as nat);
    }
}

} // verus!
