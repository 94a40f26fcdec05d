//! The structural record of one sentence: validation, checksum verification
//! and tokenization (`decode`), and the typed field accessors.

use vstd::prelude::*;
use vstd::string::StringExecFns;
use vstd::string::StrSliceExecFns;
use vstd::utf8::is_ascii_chars;
use crate::text::{
    is_hex_digit, hex_digit_value, spec_xor, spec_split, spec_trim_at_star, lemma_first_index_of,
    find_char, hex_value,
};

verus! {

/// The ghost shape of a decoded sentence.
#[verifier::ext_equal]
pub ghost struct SentenceView {
    pub sender: Seq<char>,
    pub message_type: Seq<char>,
    pub fields: Seq<Seq<char>>,
    pub checksum: u8,
    pub original: Seq<char>,
}

/// The views of a sequence of owned strings.
pub open spec fn views_of_strings(s: Seq<String>) -> Seq<Seq<char>> {
    Seq::new(s.len(), |i: int| s[i]@)
}

/// The validated decomposition of one sentence line. A record is either the
/// faithful decomposition of a well-formed line or the malformed sentinel
/// (everything empty, checksum 0), never anything in between; the original
/// line is kept either way.
pub struct NmeaBaseSentence {
    sender: String,
    message_type: String,
    fields: Vec<String>,
    checksum: u8,
    original: String,
}

impl View for NmeaBaseSentence {
    type V = SentenceView;

    closed spec fn view(&self) -> SentenceView {
        SentenceView {
            sender: self.sender@,
            message_type: self.message_type@,
            fields: views_of_strings(self.fields@),
            checksum: self.checksum,
            original: self.original@,
        }
    }
}

/// The malformed sentinel for a given line.
pub open spec fn malformed_view(line: Seq<char>) -> SentenceView {
    SentenceView {
        sender: Seq::empty(),
        message_type: Seq::empty(),
        fields: Seq::empty(),
        checksum: 0,
        original: line,
    }
}

/// The checksum byte transmitted in the last two characters.
pub open spec fn transmitted_checksum(line: Seq<char>) -> int
    recommends
        line.len() >= 2,
{
    16 * (hex_digit_value(line[line.len() - 2]) as int) + (hex_digit_value(
        line[line.len() - 1],
    ) as int)
}

/// The structural shape gate: minimum length and the checksum marker three
/// characters from the end.
pub open spec fn line_shape_ok(line: Seq<char>) -> bool {
    line.len() >= 9 && line[line.len() - 3] == '*'
}

/// The checksum gate: two hexadecimal digits at the end whose value is the
/// XOR of everything strictly between the leading character and the marker.
pub open spec fn checksum_ok(line: Seq<char>) -> bool
    recommends
        line.len() >= 9,
{
    &&& is_hex_digit(line[line.len() - 2])
    &&& is_hex_digit(line[line.len() - 1])
    &&& spec_xor(line.subrange(1, line.len() - 3)) as int == transmitted_checksum(line)
}

/// A line `decode` accepts: ASCII, well shaped, checksum verified, at least
/// one comma, and a prolog long enough to carry the three-character message
/// tag.
pub open spec fn spec_line_valid(line: Seq<char>) -> bool {
    &&& is_ascii_chars(line)
    &&& line_shape_ok(line)
    &&& checksum_ok(line)
    &&& spec_split(line, ',').len() >= 2
    &&& spec_split(line, ',')[0].len() >= 3
}

/// The field list of a valid line: the comma-separated pieces after the
/// prolog, with the last piece cut at its `*` marker.
pub open spec fn spec_fields(line: Seq<char>) -> Seq<Seq<char>> {
    let fields = spec_split(line, ',').skip(1);
    fields.update(fields.len() - 1, spec_trim_at_star(fields.last()))
}

/// What `decode` returns for any line.
pub open spec fn spec_decode(line: Seq<char>) -> SentenceView {
    if spec_line_valid(line) {
        let prolog = spec_split(line, ',')[0];
        SentenceView {
            sender: prolog.take(prolog.len() - 3),
            message_type: prolog.skip(prolog.len() - 3),
            fields: spec_fields(line),
            checksum: spec_xor(line.subrange(1, line.len() - 3)),
            original: line,
        }
    } else {
        malformed_view(line)
    }
}

impl NmeaBaseSentence {
    /// The malformed sentinel carrying `value` as the original line.
    pub fn new(value: String) -> (r: Self)
        ensures
            r@ == malformed_view(value@),
    {
        let r = NmeaBaseSentence {
            sender: String::new(),
            message_type: String::new(),
            fields: Vec::new(),
            checksum: 0,
            original: value,
        };
        proof {
            assert(r@ =~= malformed_view(r.original@));
        }
        r
    }

    /// The malformed sentinel with an empty original line.
    pub fn default() -> (r: Self)
        ensures
            r@ == malformed_view(Seq::<char>::empty()),
    {
        let r = NmeaBaseSentence {
            sender: String::new(),
            message_type: String::new(),
            fields: Vec::new(),
            checksum: 0,
            original: String::new(),
        };
        proof {
            assert(r@ =~= malformed_view(Seq::<char>::empty()));
        }
        r
    }

    /// Decodes one line: checks the shape and the checksum, then splits the
    /// line into sender, message tag and fields. Any violation yields the
    /// malformed sentinel; no input is rejected with an error and none can
    /// make this function panic.
    pub fn decode(line: &str) -> (r: Self)
        ensures
            r@ == spec_decode(line@),
    {
        let n = line.unicode_len();
        if !line.is_ascii() || n < 9 {
            return Self::new(String::from_str(line));
        }
        if line.get_char(n - 3) != '*' {
            return Self::new(String::from_str(line));
        }
        let hi = match hex_value(line.get_char(n - 2)) {
            Some(v) => v,
            None => {
                return Self::new(String::from_str(line));
            },
        };
        let lo = match hex_value(line.get_char(n - 1)) {
            Some(v) => v,
            None => {
                return Self::new(String::from_str(line));
            },
        };
        let transmitted: u8 = 16 * hi + lo;
        let mut acc: u8 = 0;
        let mut i: usize = 1;
        proof {
            assert(line@.subrange(1, 1) =~= Seq::<char>::empty());
        }
        while i < n - 3
            invariant
                n == line@.len(),
                n >= 9,
                is_ascii_chars(line@),
                1 <= i <= n - 3,
                acc == spec_xor(line@.subrange(1, i as int)),
            decreases n - 3 - i,
        {
            let b = line.get_ascii(i);
            proof {
                assert(line@.subrange(1, i + 1).drop_last() =~= line@.subrange(1, i as int));
                assert(line@.subrange(1, i + 1).last() == line@[i as int]);
            }
            acc = acc ^ b;
            i = i + 1;
        }
        if acc != transmitted {
            return Self::new(String::from_str(line));
        }
        // The line passed the integrity gates; tokenize it in one pass.
        let mut parts: Vec<String> = Vec::new();
        parts.push(String::new());
        proof {
            assert(line@.take(0) =~= Seq::<char>::empty());
            assert(views_of_strings(parts@) =~= spec_split(line@.take(0), ','));
        }
        let mut j: usize = 0;
        while j < n
            invariant
                n == line@.len(),
                j <= n,
                parts@.len() >= 1,
                views_of_strings(parts@) == spec_split(line@.take(j as int), ','),
            decreases n - j,
        {
            proof {
                assert(line@.take(j + 1).drop_last() =~= line@.take(j as int));
                assert(line@.take(j + 1).last() == line@[j as int]);
            }
            let c = line.get_char(j);
            if c == ',' {
                let ghost before = parts@;
                parts.push(String::new());
                proof {
                    assert(views_of_strings(parts@) =~= views_of_strings(before) + seq![
                        Seq::<char>::empty(),
                    ]);
                }
            } else {
                let piece = line.substring_char(j, j + 1);
                let ghost before = parts@;
                let mut lastp = parts.pop().unwrap();
                lastp.append(piece);
                parts.push(lastp);
                proof {
                    assert(piece@ =~= seq![line@[j as int]]);
                    assert(lastp@ =~= before.last()@.push(line@[j as int]));
                    assert(views_of_strings(parts@) =~= views_of_strings(before).update(
                        before.len() - 1,
                        before.last()@.push(line@[j as int]),
                    ));
                }
            }
            j = j + 1;
        }
        proof {
            assert(line@.take(n as int) =~= line@);
        }
        if parts.len() < 2 {
            return Self::new(String::from_str(line));
        }
        let prolog_owned = parts.remove(0);
        proof {
            assert(prolog_owned@ == spec_split(line@, ',')[0]);
            assert(views_of_strings(parts@) =~= spec_split(line@, ',').skip(1));
        }
        let plen = prolog_owned.as_str().unicode_len();
        if plen < 3 {
            return Self::new(String::from_str(line));
        }
        let sender = String::from_str(prolog_owned.as_str().substring_char(0, plen - 3));
        let message_type = String::from_str(prolog_owned.as_str().substring_char(plen - 3, plen));
        let ghost fields_before = views_of_strings(parts@);
        let lastf = match parts.pop() {
            Some(f) => f,
            None => {
                return Self::new(String::from_str(line));
            },
        };
        let trimmed = match find_char(lastf.as_str(), '*') {
            Some(si) => {
                proof {
                    lemma_first_index_of(lastf@, '*');
                }
                String::from_str(lastf.as_str().substring_char(0, si))
            },
            None => String::new(),
        };
        parts.push(trimmed);
        proof {
            assert(trimmed@ == spec_trim_at_star(lastf@));
            assert(views_of_strings(parts@) =~= fields_before.update(
                fields_before.len() - 1,
                spec_trim_at_star(lastf@),
            ));
            assert(views_of_strings(parts@) =~= spec_fields(line@));
        }
        let r = NmeaBaseSentence {
            sender,
            message_type,
            fields: parts,
            checksum: acc,
            original: String::from_str(line),
        };
        proof {
            assert(spec_line_valid(line@));
            assert(r@ =~= spec_decode(line@));
        }
        r
    }
}

/// A field value paired with the single-character unit read from an adjacent
/// field.
#[derive(Clone, Copy, PartialEq, Eq, Structural, Debug)]
pub struct ValueWithUnit<T> {
    pub value: T,
    pub unit: char,
}

/// A field exists at `index` and is non-empty. An empty field and an index
/// past the end both count as absent; no accessor distinguishes the two.
pub open spec fn field_present(rv: SentenceView, index: int) -> bool {
    0 <= index < rv.fields.len() && rv.fields[index].len() > 0
}

pub open spec fn spec_get_text(rv: SentenceView, index: int) -> Option<Seq<char>> {
    if field_present(rv, index) {
        Some(rv.fields[index])
    } else {
        None
    }
}

pub open spec fn spec_get_u8(rv: SentenceView, index: int) -> Option<u8> {
    if field_present(rv, index) {
        crate::numbers::spec_parse_u8(rv.fields[index])
    } else {
        None
    }
}

pub open spec fn spec_get_u16(rv: SentenceView, index: int) -> Option<u16> {
    if field_present(rv, index) {
        crate::numbers::spec_parse_u16(rv.fields[index])
    } else {
        None
    }
}

pub open spec fn spec_get_u32(rv: SentenceView, index: int) -> Option<u32> {
    if field_present(rv, index) {
        crate::numbers::spec_parse_u32(rv.fields[index])
    } else {
        None
    }
}

pub open spec fn spec_get_i32(rv: SentenceView, index: int) -> Option<i32> {
    if field_present(rv, index) {
        crate::numbers::spec_parse_i32(rv.fields[index])
    } else {
        None
    }
}

pub open spec fn spec_get_char(rv: SentenceView, index: int) -> Option<char> {
    if field_present(rv, index) && rv.fields[index].len() == 1 {
        Some(rv.fields[index][0])
    } else {
        None
    }
}

pub open spec fn spec_get_decimal(rv: SentenceView, index: int) -> Option<
    crate::decimal::Decimal,
> {
    if field_present(rv, index) {
        crate::decimal::spec_parse_decimal(rv.fields[index])
    } else {
        None
    }
}

pub open spec fn spec_get_hex_u8(rv: SentenceView, index: int) -> Option<u8> {
    if field_present(rv, index) {
        crate::numbers::spec_parse_hex_u8(rv.fields[index])
    } else {
        None
    }
}

pub open spec fn spec_get_hex_u16(rv: SentenceView, index: int) -> Option<u16> {
    if field_present(rv, index) {
        crate::numbers::spec_parse_hex_u16(rv.fields[index])
    } else {
        None
    }
}

pub open spec fn spec_get_hex_u32(rv: SentenceView, index: int) -> Option<u32> {
    if field_present(rv, index) {
        crate::numbers::spec_parse_hex_u32(rv.fields[index])
    } else {
        None
    }
}

pub open spec fn spec_get_pair(rv: SentenceView, index1: int, index2: int) -> Option<
    ValueWithUnit<crate::decimal::Decimal>,
> {
    match (spec_get_decimal(rv, index1), spec_get_char(rv, index2)) {
        (Some(v), Some(c)) => Some(ValueWithUnit { value: v, unit: c }),
        _ => None,
    }
}

/// The coordinate rule: the value is negated exactly when the hemisphere
/// character is `S` or `W`; any other character, lower case included, leaves
/// the sign alone.
pub open spec fn spec_get_coordinate(rv: SentenceView, index_n: int, index_h: int) -> Option<
    crate::decimal::Decimal,
> {
    match (spec_get_decimal(rv, index_n), spec_get_char(rv, index_h)) {
        (Some(v), Some(h)) => if h == 'S' || h == 'W' {
            Some(crate::decimal::spec_negate(v))
        } else {
            Some(v)
        },
        _ => None,
    }
}

/// Whole seconds of a non-negative decimal seconds value.
pub open spec fn spec_seconds_of(d: crate::decimal::Decimal) -> int {
    (d.mantissa as int) / crate::numbers::pow10(d.scale as nat)
}

/// The fractional part of a decimal seconds value as whole milliseconds,
/// truncated.
pub open spec fn spec_millis_of(d: crate::decimal::Decimal) -> int {
    let frac = (d.mantissa as int) % crate::numbers::pow10(d.scale as nat);
    if d.scale <= 3 {
        frac * crate::numbers::pow10((3 - d.scale) as nat)
    } else {
        frac / crate::numbers::pow10((d.scale - 3) as nat)
    }
}

/// Time-of-day fields read `HHMM?SS[.sss]`: hours at 0..2, minutes at 2..4,
/// and the seconds value from character 5 on, its fraction truncated to
/// milliseconds; the components must form a time chrono admits.
pub open spec fn spec_get_time(rv: SentenceView, index: int) -> Option<crate::clock::TimeOfDay> {
    if field_present(rv, index) {
        let f = rv.fields[index];
        if f.len() < 6 {
            None
        } else {
            match (
                crate::numbers::spec_parse_u32(f.subrange(0, 2)),
                crate::numbers::spec_parse_u32(f.subrange(2, 4)),
                crate::decimal::spec_parse_decimal(f.skip(5)),
            ) {
                (Some(h), Some(m), Some(d)) => {
                    if d.negative {
                        None
                    } else {
                        let s = spec_seconds_of(d);
                        let ms = spec_millis_of(d);
                        if crate::clock::valid_hms_milli(h as int, m as int, s, ms) {
                            Some(
                                crate::clock::TimeOfDay {
                                    hour: h,
                                    minute: m,
                                    second: s as u32,
                                    millisecond: ms as u32,
                                },
                            )
                        } else {
                            None
                        }
                    }
                },
                _ => None,
            }
        }
    } else {
        None
    }
}

/// Date fields read `DDMMYY`, exactly six characters; a component that does
/// not parse counts as zero, and the result is absent unless the components
/// form a calendar day of year `2000 + YY`.
pub open spec fn spec_get_date(rv: SentenceView, index: int) -> Option<crate::clock::Date> {
    if field_present(rv, index) {
        let f = rv.fields[index];
        if f.len() != 6 {
            None
        } else {
            let d = match crate::numbers::spec_parse_u32(f.subrange(0, 2)) {
                Some(v) => v as int,
                None => 0,
            };
            let m = match crate::numbers::spec_parse_u32(f.subrange(2, 4)) {
                Some(v) => v as int,
                None => 0,
            };
            let y2 = match crate::numbers::spec_parse_i32(f.subrange(4, 6)) {
                Some(v) => v as int,
                None => 0,
            };
            let y = y2 + 2000;
            if crate::clock::valid_ymd(y, m, d) {
                Some(crate::clock::Date { year: y as i32, month: m as u32, day: d as u32 })
            } else {
                None
            }
        }
    } else {
        None
    }
}

impl NmeaBaseSentence {
    /// The talker prefix of the line (everything of the prolog before the
    /// three-character message tag); empty for a malformed record.
    pub fn sender(&self) -> (r: String)
        ensures
            r@ == self@.sender,
    {
        self.sender.clone()
    }

    /// The three-character message tag; empty for a malformed record.
    pub fn message_type(&self) -> (r: String)
        ensures
            r@ == self@.message_type,
    {
        self.message_type.clone()
    }

    /// The verified checksum byte; 0 for a malformed record.
    pub fn checksum(&self) -> (r: u8)
        ensures
            r == self@.checksum,
    {
        self.checksum
    }

    /// The number of fields.
    pub fn nfields(&self) -> (r: usize)
        ensures
            r == self@.fields.len(),
    {
        self.fields.len()
    }

    /// The unmodified input line, kept for diagnostics; absent when it was
    /// empty.
    pub fn original(&self) -> (r: Option<&String>)
        ensures
            match r {
                Some(s) => s@ == self@.original && self@.original.len() > 0,
                None => self@.original.len() == 0,
            },
    {
        if self.original.as_str().is_empty() {
            None
        } else {
            Some(&self.original)
        }
    }

    /// The raw text of the field at `index`; absent past the end and for an
    /// empty field.
    pub fn get(&self, index: usize) -> (r: Option<String>)
        ensures
            r is Some <==> spec_get_text(self@, index as int) is Some,
            r matches Some(s) ==> spec_get_text(self@, index as int) == Some(s@),
    {
        if index < self.fields.len() {
            let f = &self.fields[index];
            if f.as_str().is_empty() {
                None
            } else {
                Some(f.clone())
            }
        } else {
            None
        }
    }

    pub fn get_u8(&self, index: usize) -> (r: Option<u8>)
        ensures
            r == spec_get_u8(self@, index as int),
    {
        if index < self.fields.len() {
            let f = &self.fields[index];
            if f.as_str().is_empty() {
                None
            } else {
                crate::numbers::parse_u8(f.as_str())
            }
        } else {
            None
        }
    }

    pub fn get_u16(&self, index: usize) -> (r: Option<u16>)
        ensures
            r == spec_get_u16(self@, index as int),
    {
        if index < self.fields.len() {
            let f = &self.fields[index];
            if f.as_str().is_empty() {
                None
            } else {
                crate::numbers::parse_u16(f.as_str())
            }
        } else {
            None
        }
    }

    pub fn get_u32(&self, index: usize) -> (r: Option<u32>)
        ensures
            r == spec_get_u32(self@, index as int),
    {
        if index < self.fields.len() {
            let f = &self.fields[index];
            if f.as_str().is_empty() {
                None
            } else {
                crate::numbers::parse_u32(f.as_str())
            }
        } else {
            None
        }
    }

    pub fn get_i32(&self, index: usize) -> (r: Option<i32>)
        ensures
            r == spec_get_i32(self@, index as int),
    {
        if index < self.fields.len() {
            let f = &self.fields[index];
            if f.as_str().is_empty() {
                None
            } else {
                crate::numbers::parse_i32(f.as_str())
            }
        } else {
            None
        }
    }

    pub fn get_char(&self, index: usize) -> (r: Option<char>)
        ensures
            r == spec_get_char(self@, index as int),
    {
        if index < self.fields.len() {
            let f = self.fields[index].as_str();
            if f.unicode_len() == 1 {
                Some(f.get_char(0))
            } else {
                None
            }
        } else {
            None
        }
    }

    pub fn get_decimal(&self, index: usize) -> (r: Option<crate::decimal::Decimal>)
        ensures
            r == spec_get_decimal(self@, index as int),
            r matches Some(d) ==> d.wf(),
    {
        if index < self.fields.len() {
            let f = &self.fields[index];
            if f.as_str().is_empty() {
                None
            } else {
                crate::decimal::parse_decimal(f.as_str())
            }
        } else {
            None
        }
    }

    pub fn get_hex_u8(&self, index: usize) -> (r: Option<u8>)
        ensures
            r == spec_get_hex_u8(self@, index as int),
    {
        if index < self.fields.len() {
            let f = &self.fields[index];
            if f.as_str().is_empty() {
                None
            } else {
                crate::numbers::parse_hex_u8(f.as_str())
            }
        } else {
            None
        }
    }

    pub fn get_hex_u16(&self, index: usize) -> (r: Option<u16>)
        ensures
            r == spec_get_hex_u16(self@, index as int),
    {
        if index < self.fields.len() {
            let f = &self.fields[index];
            if f.as_str().is_empty() {
                None
            } else {
                crate::numbers::parse_hex_u16(f.as_str())
            }
        } else {
            None
        }
    }

    pub fn get_hex_u32(&self, index: usize) -> (r: Option<u32>)
        ensures
            r == spec_get_hex_u32(self@, index as int),
    {
        if index < self.fields.len() {
            let f = &self.fields[index];
            if f.as_str().is_empty() {
                None
            } else {
                crate::numbers::parse_hex_u32(f.as_str())
            }
        } else {
            None
        }
    }

    /// A decimal value and a one-character unit from two field indices; both
    /// must parse or the pair is absent.
    pub fn get_pair(&self, index1: usize, index2: usize) -> (r: Option<
        ValueWithUnit<crate::decimal::Decimal>,
    >)
        ensures
            r == spec_get_pair(self@, index1 as int, index2 as int),
            r matches Some(p) ==> p.value.wf(),
    {
        match self.get_decimal(index1) {
            Some(v) => match self.get_char(index2) {
                Some(c) => Some(ValueWithUnit { value: v, unit: c }),
                None => None,
            },
            None => None,
        }
    }

    /// A signed coordinate: the decimal value at `index_n`, negated exactly
    /// when the one-character hemisphere field at `index_n_s_e_w` is `S` or
    /// `W`.
    pub fn get_coordinate(&self, index_n: usize, index_n_s_e_w: usize) -> (r: Option<
        crate::decimal::Decimal,
    >)
        ensures
            r == spec_get_coordinate(self@, index_n as int, index_n_s_e_w as int),
            r matches Some(d) ==> d.wf(),
    {
        match self.get_decimal(index_n) {
            Some(v) => match self.get_char(index_n_s_e_w) {
                Some(h) => if h == 'S' || h == 'W' {
                    Some(crate::decimal::negate(v))
                } else {
                    Some(v)
                },
                None => None,
            },
            None => None,
        }
    }

    /// The time of day encoded in the field at `index`.
    pub fn get_time(&self, index: usize) -> (r: Option<crate::clock::TimeOfDay>)
        ensures
            r == spec_get_time(self@, index as int),
            r matches Some(t) ==> t.wf(),
    {
        if index >= self.fields.len() {
            return None;
        }
        let f = self.fields[index].as_str();
        let fl = f.unicode_len();
        if fl < 6 {
            return None;
        }
        let h = match crate::numbers::parse_u32(f.substring_char(0, 2)) {
            Some(v) => v,
            None => {
                proof {
                    assert(f@.subrange(0, 2) =~= self@.fields[index as int].subrange(0, 2));
                }
                return None;
            },
        };
        let m = match crate::numbers::parse_u32(f.substring_char(2, 4)) {
            Some(v) => v,
            None => {
                proof {
                    assert(f@.subrange(2, 4) =~= self@.fields[index as int].subrange(2, 4));
                }
                return None;
            },
        };
        let d = match crate::decimal::parse_decimal(f.substring_char(5, fl)) {
            Some(v) => v,
            None => {
                proof {
                    assert(f@.subrange(5, fl as int) =~= self@.fields[index as int].skip(5));
                }
                return None;
            },
        };
        proof {
            assert(f@.subrange(0, 2) =~= self@.fields[index as int].subrange(0, 2));
            assert(f@.subrange(2, 4) =~= self@.fields[index as int].subrange(2, 4));
            assert(f@.subrange(5, fl as int) =~= self@.fields[index as int].skip(5));
        }
        if d.negative {
            return None;
        }
        let p = crate::numbers::pow10_u64(d.scale);
        let secs = d.mantissa / p;
        let frac = d.mantissa % p;
        let ms: u64 = if d.scale <= 3 {
            let q = crate::numbers::pow10_u64(3 - d.scale);
            proof {
                crate::numbers::lemma_pow10_add(d.scale as nat, (3 - d.scale) as nat);
                assert(crate::numbers::pow10(0) == 1);
                assert(crate::numbers::pow10(1) == 10);
                assert(crate::numbers::pow10(2) == 100);
                assert(crate::numbers::pow10(3) == 1000);
                assert((frac as int) * (q as int) < 1000) by (nonlinear_arith)
                    requires
                        (frac as int) < (p as int),
                        (p as int) * (q as int) == 1000,
                        q >= 1,
                ;
            }
            frac * q
        } else {
            let q = crate::numbers::pow10_u64(d.scale - 3);
            proof {
                crate::numbers::lemma_pow10_add((d.scale - 3) as nat, 3);
                assert(crate::numbers::pow10(0) == 1);
                assert(crate::numbers::pow10(1) == 10);
                assert(crate::numbers::pow10(2) == 100);
                assert(crate::numbers::pow10(3) == 1000);
                assert((frac as int) / (q as int) < 1000) by (nonlinear_arith)
                    requires
                        (frac as int) < (q as int) * 1000,
                        q >= 1,
                ;
            }
            frac / q
        };
        if secs >= 60 {
            return None;
        }
        crate::clock::make_time(h, m, secs as u32, ms as u32)
    }

    /// The calendar date encoded in the field at `index`.
    pub fn get_date(&self, index: usize) -> (r: Option<crate::clock::Date>)
        ensures
            r == spec_get_date(self@, index as int),
            r matches Some(d) ==> d.wf(),
    {
        if index >= self.fields.len() {
            return None;
        }
        let f = self.fields[index].as_str();
        let fl = f.unicode_len();
        if fl != 6 {
            return None;
        }
        proof {
            assert(f@.subrange(0, 2) =~= self@.fields[index as int].subrange(0, 2));
            assert(f@.subrange(2, 4) =~= self@.fields[index as int].subrange(2, 4));
            assert(f@.subrange(4, 6) =~= self@.fields[index as int].subrange(4, 6));
        }
        let d: u32 = match crate::numbers::parse_u32(f.substring_char(0, 2)) {
            Some(v) => v,
            None => 0,
        };
        let m: u32 = match crate::numbers::parse_u32(f.substring_char(2, 4)) {
            Some(v) => v,
            None => 0,
        };
        let y2: i32 = match crate::numbers::parse_i32(f.substring_char(4, 6)) {
            Some(v) => v,
            None => 0,
        };
        proof {
            lemma_two_char_i32_small(f@.subrange(4, 6));
            lemma_two_char_u32_small(f@.subrange(0, 2));
            lemma_two_char_u32_small(f@.subrange(2, 4));
        }
        crate::clock::make_date(y2 + 2000, m, d)
    }
}

/// A signed numeral of two characters stays within two digits.
proof fn lemma_two_char_i32_small(s: Seq<char>)
    requires
        s.len() == 2,
    ensures
        crate::numbers::spec_parse_i32(s) matches Some(v) ==> -9 <= v <= 99,
{
    if s[0] == '-' || s[0] == '+' {
        let t = s.skip(1);
        if t.len() > 0 && crate::numbers::all_dec_digits(t) {
            crate::numbers::lemma_dec_value_bound(t);
            assert(crate::numbers::pow10(0) == 1);
            assert(crate::numbers::pow10(1) == 10);
        }
    } else {
        if crate::numbers::all_dec_digits(s) {
            crate::numbers::lemma_dec_value_bound(s);
            assert(crate::numbers::pow10(0) == 1);
            assert(crate::numbers::pow10(1) == 10);
            assert(crate::numbers::pow10(2) == 100);
        }
    }
}

/// An unsigned numeral of two characters stays within two digits.
proof fn lemma_two_char_u32_small(s: Seq<char>)
    requires
        s.len() == 2,
    ensures
        crate::numbers::spec_parse_u32(s) matches Some(v) ==> v <= 99,
{
    if s[0] == '+' {
        let t = s.skip(1);
        if t.len() > 0 && crate::numbers::all_dec_digits(t) {
            crate::numbers::lemma_dec_value_bound(t);
            assert(crate::numbers::pow10(0) == 1);
            assert(crate::numbers::pow10(1) == 10);
        }
    } else {
        if crate::numbers::all_dec_digits(s) {
            crate::numbers::lemma_dec_value_bound(s);
            assert(crate::numbers::pow10(0) == 1);
            assert(crate::numbers::pow10(1) == 10);
            assert(crate::numbers::pow10(2) == 100);
        }
    }
}

impl Clone for NmeaBaseSentence {
    /// A clone is structurally identical: same view, field for field.
    fn clone(&self) -> (r: Self)
        ensures
            r@ == self@,
    {
        let r = NmeaBaseSentence {
            sender: self.sender.clone(),
            message_type: self.message_type.clone(),
            fields: self.fields.clone(),
            checksum: self.checksum,
            original: self.original.clone(),
        };
        proof {
            assert forall|i: int| 0 <= i < self.fields@.len() implies r.fields@[i]
                == self.fields@[i] by {
                assert(vstd::pervasive::cloned::<String>(self.fields@[i], r.fields@[i]));
            }
            assert(r@ =~= self@);
        }
        r
    }
}

/// Once a line is ASCII, long enough, carries the `*` marker, two hexadecimal
/// checksum digits and a comma-separated prolog of at least three characters,
/// the checksum decides everything: if the transmitted byte equals the XOR of
/// the characters strictly between the leading character and the marker, the
/// decoded record carries exactly that XOR as its checksum; if it differs,
/// the whole record is the malformed sentinel.
pub proof fn lemma_checksum_gate(line: Seq<char>)
    requires
        is_ascii_chars(line),
        line_shape_ok(line),
        is_hex_digit(line[line.len() - 2]),
        is_hex_digit(line[line.len() - 1]),
        spec_split(line, ',').len() >= 2,
        spec_split(line, ',')[0].len() >= 3,
    ensures
        spec_xor(line.subrange(1, line.len() - 3)) as int == transmitted_checksum(line)
            ==> spec_decode(line).checksum == spec_xor(line.subrange(1, line.len() - 3)),
        spec_xor(line.subrange(1, line.len() - 3)) as int != transmitted_checksum(line)
            ==> spec_decode(line) == malformed_view(line),
{
}

/// Every line that fails any structural condition decodes to the sentinel:
/// no fields, empty sender and message tag, checksum 0, the line kept.
pub proof fn lemma_malformed_sentinel(line: Seq<char>)
    requires
        !spec_line_valid(line),
    ensures
        spec_decode(line) == malformed_view(line),
        spec_decode(line).fields.len() == 0,
        spec_decode(line).sender.len() == 0,
        spec_decode(line).message_type.len() == 0,
        spec_decode(line).checksum == 0,
        spec_decode(line).original == line,
{
}

/// An index at or past the end of the field list is absent for every typed
/// accessor; for the two-index accessors it suffices that the value index is
/// out of range.
pub proof fn lemma_absent_past_end(rv: SentenceView, index: int, index2: int)
    requires
        index >= rv.fields.len(),
    ensures
        spec_get_text(rv, index) is None,
        spec_get_u8(rv, index) is None,
        spec_get_u16(rv, index) is None,
        spec_get_u32(rv, index) is None,
        spec_get_i32(rv, index) is None,
        spec_get_char(rv, index) is None,
        spec_get_decimal(rv, index) is None,
        spec_get_hex_u8(rv, index) is None,
        spec_get_hex_u16(rv, index) is None,
        spec_get_hex_u32(rv, index) is None,
        spec_get_time(rv, index) is None,
        spec_get_date(rv, index) is None,
        spec_get_pair(rv, index, index2) is None,
        spec_get_coordinate(rv, index, index2) is None,
{
}


/// The hemisphere rule in full: with a decimal value and a one-character
/// hemisphere present, the coordinate is the value with its sign flipped
/// exactly when the hemisphere is `S` or `W`; any other character leaves the
/// value untouched.
pub proof fn lemma_coordinate_negation(rv: SentenceView, index_n: int, index_h: int)
    requires
        spec_get_decimal(rv, index_n) is Some,
        spec_get_char(rv, index_h) is Some,
    ensures
        ({
            match (spec_get_coordinate(rv, index_n, index_h), spec_get_decimal(rv, index_n)) {
                (Some(c), Some(d)) => {
                    if spec_get_char(rv, index_h) == Some('S') || spec_get_char(rv, index_h)
                        == Some('W') {
                        c.numerator() == -d.numerator() && c.scale == d.scale
                    } else {
                        c == d
                    }
                },
                _ => false,
            }
        }),
{
    let d = choose|d: crate::decimal::Decimal| spec_get_decimal(rv, index_n) == Some(d);
    crate::decimal::lemma_negate_value(d);
}

/// Decoding is a function of the line alone: two records decoded from the
/// same line are structurally identical.
pub proof fn lemma_decode_deterministic(line: Seq<char>, r1: SentenceView, r2: SentenceView)
    requires
        r1 == spec_decode(line),
        r2 == spec_decode(line),
    ensures
        r1 == r2,
{
}

} // verus!
