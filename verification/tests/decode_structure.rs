//! Structural validation: shape gates, checksum gates, tokenization, and the
//! malformed sentinel.

use nmea::sentence::NmeaBaseSentence;

/// Wraps a sentence body in the leading sentinel and its computed checksum.
fn with_checksum(body: &str) -> String {
    let mut acc: u8 = 0;
    for b in body.as_bytes() {
        acc ^= b;
    }
    format!("${}*{:02X}", body, acc)
}

fn assert_malformed(line: &str) {
    let d = NmeaBaseSentence::decode(line);
    assert_eq!(d.sender(), "".to_string());
    assert_eq!(d.message_type(), "".to_string());
    assert_eq!(d.nfields(), 0);
    assert_eq!(d.checksum(), 0);
}

#[test]
fn valid_line_splits_into_sender_tag_and_fields() {
    let line = "$GPGGA,173617,4844.8683,N,12313.7709,W,2,11,1.00,2,M,-17.0,M,,*52";
    let d = NmeaBaseSentence::decode(line);
    assert_eq!(d.sender(), "$GP".to_string());
    assert_eq!(d.message_type(), "GGA".to_string());
    assert_eq!(d.nfields(), 14);
    assert_eq!(d.checksum(), 0x52);
    assert_eq!(d.get(0), Some("173617".to_string()));
    assert_eq!(d.get(13), None);
    assert_eq!(d.original(), Some(&line.to_string()));
}

#[test]
fn computed_checksum_is_the_xor_of_the_guarded_span() {
    let line = with_checksum("YDAAM,A,A,3.2,N,waypoint");
    assert_eq!(line, "$YDAAM,A,A,3.2,N,waypoint*1E");
    let d = NmeaBaseSentence::decode(&line);
    assert_eq!(d.checksum(), 0x1E);
    assert_eq!(d.nfields(), 5);
    assert_eq!(d.get(4), Some("waypoint".to_string()));
}

#[test]
fn altered_checksum_digit_gives_the_sentinel() {
    let good = "$YDAAM,A,A,3.2,N,waypoint*1E";
    let bad = "$YDAAM,A,A,3.2,N,waypoint*1F";
    let d = NmeaBaseSentence::decode(good);
    assert_eq!(d.nfields(), 5);
    assert_malformed(bad);
    let db = NmeaBaseSentence::decode(bad);
    assert_eq!(db.original(), Some(&bad.to_string()));
}

#[test]
fn short_line_gives_the_sentinel() {
    assert_malformed("$A,B*41");
    assert_malformed("");
    assert_malformed("$");
}

#[test]
fn missing_marker_gives_the_sentinel() {
    assert_malformed("$YDAAM,A,A,3.2,N,waypoint.1E");
    assert_malformed("$AAAAA,,x41");
}

#[test]
fn non_hex_checksum_gives_the_sentinel() {
    assert_malformed("$AAAAA,,*4G");
    assert_malformed("$AAAAA,,*G1");
}

#[test]
fn missing_comma_gives_the_sentinel() {
    let line = with_checksum("AAAAABBB");
    assert_malformed(&line);
}

#[test]
fn short_prolog_gives_the_sentinel() {
    let line = with_checksum("A,BCDE");
    assert_malformed(&line);
    let line2 = with_checksum(",ABCDE");
    assert_malformed(&line2);
}

#[test]
fn three_character_prolog_has_an_empty_sender() {
    // The prolog includes the leading sentinel; with exactly three characters
    // the whole prolog is the message tag and the sender is empty.
    let line = with_checksum("AB,CDE");
    let d = NmeaBaseSentence::decode(&line);
    assert_eq!(d.sender(), "".to_string());
    assert_eq!(d.message_type(), "$AB".to_string());
    assert_eq!(d.nfields(), 1);
}

#[test]
fn non_ascii_line_gives_the_sentinel() {
    assert_malformed("$GPGGA,17Ã640,4844.8683*00");
}

#[test]
fn lower_case_checksum_digits_are_accepted() {
    let body = "GPAAM,A,A,0.1,N,X";
    let mut acc: u8 = 0;
    for b in body.as_bytes() {
        acc ^= b;
    }
    let line = format!("${}*{:02x}", body, acc);
    let d = NmeaBaseSentence::decode(&line);
    assert_eq!(d.message_type(), "AAM".to_string());
    assert_eq!(d.checksum(), acc);
}

#[test]
fn empty_fields_are_kept_in_order() {
    let line = with_checksum("GPXTE,,,0.3,L,N");
    let d = NmeaBaseSentence::decode(&line);
    assert_eq!(d.nfields(), 5);
    assert_eq!(d.get(0), None);
    assert_eq!(d.get(1), None);
    assert_eq!(d.get(2), Some("0.3".to_string()));
    assert_eq!(d.get(3), Some("L".to_string()));
    assert_eq!(d.get(4), Some("N".to_string()));
}

#[test]
fn decoding_twice_is_deterministic() {
    let line = "$GPGGA,173617,4844.8683,N,12313.7709,W,2,11,1.00,2,M,-17.0,M,,*52";
    let a = NmeaBaseSentence::decode(line);
    let b = NmeaBaseSentence::decode(line);
    assert_eq!(a.sender(), b.sender());
    assert_eq!(a.message_type(), b.message_type());
    assert_eq!(a.checksum(), b.checksum());
    assert_eq!(a.nfields(), b.nfields());
    for i in 0..a.nfields() {
        assert_eq!(a.get(i), b.get(i));
    }
}

#[test]
fn clone_preserves_the_record() {
    let line = "$GPGGA,173617,4844.8683,N,12313.7709,W,2,11,1.00,2,M,-17.0,M,,*52";
    let a = NmeaBaseSentence::decode(line);
    let b = a.clone();
    assert_eq!(a.sender(), b.sender());
    assert_eq!(a.message_type(), b.message_type());
    assert_eq!(a.checksum(), b.checksum());
    assert_eq!(a.nfields(), b.nfields());
    for i in 0..a.nfields() {
        assert_eq!(a.get(i), b.get(i));
    }
}

#[test]
fn sentinel_constructors_are_empty() {
    let d = NmeaBaseSentence::default();
    assert_eq!(d.nfields(), 0);
    assert_eq!(d.checksum(), 0);
    assert_eq!(d.original(), None);
    let n = NmeaBaseSentence::new("raw text".to_string());
    assert_eq!(n.nfields(), 0);
    assert_eq!(n.original(), Some(&"raw text".to_string()));
}

#[test]
fn star_inside_last_field_truncates_it() {
    // The last comma-separated piece always carries the checksum suffix; the
    // text before its first star is the field value.
    let line = "$AAAAA,,*41";
    let d = NmeaBaseSentence::decode(line);
    assert_eq!(d.nfields(), 2);
    assert_eq!(d.get(0), None);
    assert_eq!(d.get(1), None);
}
