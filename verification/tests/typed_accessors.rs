//! Typed field extraction: decimals, coordinates, value/unit pairs, times of
//! day and calendar dates.

use nmea::clock::{Date, TimeOfDay};
use nmea::decimal::Decimal;
use nmea::sentence::NmeaBaseSentence;

fn with_checksum(body: &str) -> String {
    let mut acc: u8 = 0;
    for b in body.as_bytes() {
        acc ^= b;
    }
    format!("${}*{:02X}", body, acc)
}

fn gga() -> NmeaBaseSentence {
    NmeaBaseSentence::decode("$GPGGA,173617,4844.8683,N,12313.7709,W,2,11,1.00,2,M,-17.0,M,,*52")
}

#[test]
fn coordinate_keeps_sign_for_north() {
    let d = gga();
    assert_eq!(
        d.get_coordinate(1, 2),
        Some(Decimal { negative: false, mantissa: 48448683, scale: 4 })
    );
}

#[test]
fn coordinate_negates_for_west() {
    let d = gga();
    assert_eq!(
        d.get_coordinate(3, 4),
        Some(Decimal { negative: true, mantissa: 123137709, scale: 4 })
    );
}

#[test]
fn coordinate_negates_for_south_only_exactly() {
    let line = with_checksum("GPGLL,48.5,S,123.2,s");
    let d = NmeaBaseSentence::decode(&line);
    assert_eq!(d.get_coordinate(0, 1), Some(Decimal { negative: true, mantissa: 485, scale: 1 }));
    // A lower-case hemisphere character does not negate.
    assert_eq!(d.get_coordinate(2, 3), Some(Decimal { negative: false, mantissa: 1232, scale: 1 }));
}

#[test]
fn coordinate_of_zero_stays_non_negative() {
    let line = with_checksum("GPGLL,0.0,S");
    let d = NmeaBaseSentence::decode(&line);
    assert_eq!(d.get_coordinate(0, 1), Some(Decimal { negative: false, mantissa: 0, scale: 1 }));
}

#[test]
fn coordinate_absent_without_hemisphere() {
    let d = gga();
    assert_eq!(d.get_coordinate(1, 13), None);
    assert_eq!(d.get_coordinate(13, 2), None);
    assert_eq!(d.get_coordinate(1, 0), None);
}

#[test]
fn pair_reads_value_and_unit() {
    let d = gga();
    let p = d.get_pair(8, 9).unwrap();
    assert_eq!(p.value, Decimal { negative: false, mantissa: 2, scale: 0 });
    assert_eq!(p.unit, 'M');
    let q = d.get_pair(10, 11).unwrap();
    assert_eq!(q.value, Decimal { negative: true, mantissa: 170, scale: 1 });
    assert_eq!(q.unit, 'M');
    assert_eq!(d.get_pair(8, 0), None);
    assert_eq!(d.get_pair(2, 9), None);
}

#[test]
fn negative_decimal_field() {
    let d = gga();
    assert_eq!(d.get_decimal(10), Some(Decimal { negative: true, mantissa: 170, scale: 1 }));
}

#[test]
fn decimal_grammar_edges() {
    let line = with_checksum("GPZZZ,+3.5,.5,3.,1.2.3,abc,-0.0,12a");
    let d = NmeaBaseSentence::decode(&line);
    assert_eq!(d.get_decimal(0), Some(Decimal { negative: false, mantissa: 35, scale: 1 }));
    assert_eq!(d.get_decimal(1), Some(Decimal { negative: false, mantissa: 5, scale: 1 }));
    assert_eq!(d.get_decimal(2), Some(Decimal { negative: false, mantissa: 3, scale: 0 }));
    assert_eq!(d.get_decimal(3), None);
    assert_eq!(d.get_decimal(4), None);
    assert_eq!(d.get_decimal(5), Some(Decimal { negative: false, mantissa: 0, scale: 1 }));
    assert_eq!(d.get_decimal(6), None);
}

#[test]
fn integer_parsers_reject_overflow_and_junk() {
    let line = with_checksum("GPZZZ,256,65536,4294967296,12.5,+7");
    let d = NmeaBaseSentence::decode(&line);
    assert_eq!(d.get_u8(0), None);
    assert_eq!(d.get_u16(0), Some(256));
    assert_eq!(d.get_u16(1), None);
    assert_eq!(d.get_u32(1), Some(65536));
    assert_eq!(d.get_u32(2), None);
    assert_eq!(d.get_u8(3), None);
    assert_eq!(d.get_u8(4), Some(7));
}

#[test]
fn signed_parser_reads_both_signs() {
    let line = with_checksum("GPZDA,-13,+45,2147483647,-2147483648,2147483648");
    let d = NmeaBaseSentence::decode(&line);
    assert_eq!(d.get_i32(0), Some(-13));
    assert_eq!(d.get_i32(1), Some(45));
    assert_eq!(d.get_i32(2), Some(2147483647));
    assert_eq!(d.get_i32(3), Some(-2147483648));
    assert_eq!(d.get_i32(4), None);
}

#[test]
fn hex_parser_reads_both_cases() {
    let line = with_checksum("GPRLM,7D,7d,fF,100,GG");
    let d = NmeaBaseSentence::decode(&line);
    assert_eq!(d.get_hex_u8(0), Some(125));
    assert_eq!(d.get_hex_u8(1), Some(125));
    assert_eq!(d.get_hex_u8(2), Some(255));
    assert_eq!(d.get_hex_u8(3), None);
    assert_eq!(d.get_hex_u16(3), Some(256));
    assert_eq!(d.get_hex_u32(3), Some(256));
    assert_eq!(d.get_hex_u8(4), None);
}

#[test]
fn time_reads_fixed_offsets_and_fraction() {
    // Hours at 0..2, minutes at 2..4, and the seconds value from character 5
    // on; character 4 does not reach the result.
    let line = with_checksum("GPBWC,173617,081836.45");
    let d = NmeaBaseSentence::decode(&line);
    assert_eq!(
        d.get_time(0),
        Some(TimeOfDay { hour: 17, minute: 36, second: 7, millisecond: 0 })
    );
    assert_eq!(
        d.get_time(1),
        Some(TimeOfDay { hour: 8, minute: 18, second: 6, millisecond: 450 })
    );
}

#[test]
fn time_rejects_out_of_range_and_short_fields() {
    let line = with_checksum("GPBWC,253617,176117,1736061,12345,1736xx,173617");
    let d = NmeaBaseSentence::decode(&line);
    assert_eq!(d.get_time(0), None);
    assert_eq!(d.get_time(1), None);
    assert_eq!(d.get_time(2), None);
    assert_eq!(d.get_time(3), None);
    assert_eq!(d.get_time(4), None);
    assert_eq!(d.get_time(6), None);
    assert!(d.get_time(5).is_some());
}

#[test]
fn date_reads_day_month_year() {
    let line = with_checksum("GPRMC,190294,290204,300204,310294,1902944,19029");
    let d = NmeaBaseSentence::decode(&line);
    assert_eq!(d.get_date(0), Some(Date { year: 2094, month: 2, day: 19 }));
    // February 29 exists in the leap year 2004 but February 30 never does.
    assert_eq!(d.get_date(1), Some(Date { year: 2004, month: 2, day: 29 }));
    assert_eq!(d.get_date(2), None);
    assert_eq!(d.get_date(3), None);
    // Exactly six characters are required.
    assert_eq!(d.get_date(4), None);
    assert_eq!(d.get_date(5), None);
}

#[test]
fn date_with_unparseable_component_is_absent() {
    let line = with_checksum("GPRMC,xx0294,19xx94,1902xx");
    let d = NmeaBaseSentence::decode(&line);
    assert_eq!(d.get_date(0), None);
    assert_eq!(d.get_date(1), None);
    // An unreadable year counts as zero, giving year 2000, and 19 February
    // 2000 is a real day.
    assert_eq!(d.get_date(2), Some(Date { year: 2000, month: 2, day: 19 }));
}

#[test]
fn leap_february_follows_the_calendar() {
    let line = with_checksum("GPRMC,290200,290201,290204,290296");
    let d = NmeaBaseSentence::decode(&line);
    assert_eq!(d.get_date(0), Some(Date { year: 2000, month: 2, day: 29 }));
    assert_eq!(d.get_date(1), None);
    assert_eq!(d.get_date(2), Some(Date { year: 2004, month: 2, day: 29 }));
    assert_eq!(d.get_date(3), Some(Date { year: 2096, month: 2, day: 29 }));
}

#[test]
fn accessors_absent_past_the_field_count() {
    let d = gga();
    assert_eq!(d.get(99), None);
    assert_eq!(d.get_u8(99), None);
    assert_eq!(d.get_u16(99), None);
    assert_eq!(d.get_u32(99), None);
    assert_eq!(d.get_i32(99), None);
    assert_eq!(d.get_char(99), None);
    assert_eq!(d.get_decimal(99), None);
    assert_eq!(d.get_hex_u8(99), None);
    assert_eq!(d.get_time(99), None);
    assert_eq!(d.get_date(99), None);
    assert_eq!(d.get_pair(99, 2), None);
    assert_eq!(d.get_coordinate(99, 2), None);
}
