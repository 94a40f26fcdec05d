//! The per-message accessors that walk the field list, and classification of
//! decoded records into message kinds.

use nmea::catalog::{
    AcsData, GsvData, GtdData, LcdData, NmeaBaseTrait, OlnData, R00Data, RteData, Sf1Data,
    TlbData, XdrData,
};
use nmea::clock::{Date, TimeOfDay, Timestamp};
use nmea::decimal::Decimal;
use nmea::classify::{classify_line, NmeaSentence};
use nmea::sentence::NmeaBaseSentence;

fn with_checksum(body: &str) -> String {
    let mut acc: u8 = 0;
    for b in body.as_bytes() {
        acc ^= b;
    }
    format!("${}*{:02X}", body, acc)
}

fn dec(mantissa: u64, scale: u32) -> Decimal {
    Decimal { negative: false, mantissa, scale }
}

#[test]
fn r00_waypoints_lists_non_empty_fields() {
    let d = R00Data::from_line(&with_checksum("GPR00,MINST,CHATN,CHAP4"));
    assert_eq!(
        d.waypoints(),
        Some(vec!["MINST".to_string(), "CHATN".to_string(), "CHAP4".to_string()])
    );
    let empty = R00Data::from_line(&with_checksum("GPR00,,"));
    assert_eq!(empty.waypoints(), None);
}

#[test]
fn rte_waypoints_start_at_field_four() {
    let d = RteData::from_line(&with_checksum("GPRTE,2,1,c,0,W3HXE,PCREEK,PTPLES"));
    assert_eq!(
        d.waypoints(),
        Some(vec!["W3HXE".to_string(), "PCREEK".to_string(), "PTPLES".to_string()])
    );
}

#[test]
fn tlb_targets_pair_number_and_label() {
    let d = TlbData::from_line(&with_checksum("RATLB,1,SHIPA,2,SHIPB"));
    assert_eq!(d.targets(), Some(vec![(1u8, "SHIPA".to_string()), (2u8, "SHIPB".to_string())]));
    let odd = TlbData::from_line(&with_checksum("RATLB,1,SHIPA,3"));
    assert_eq!(odd.targets(), Some(vec![(1u8, "SHIPA".to_string())]));
    let none = TlbData::from_line(&with_checksum("RATLB,x,SHIPA"));
    assert_eq!(none.targets(), None);
}

#[test]
fn sf1_frequencies_start_at_field_two() {
    let d = Sf1Data::from_line(&with_checksum("GPSF1,1,1,309500,M,312300,A"));
    assert_eq!(d.frequencies(), Some(vec![(dec(309500, 0), 'M'), (dec(312300, 0), 'A')]));
}

#[test]
fn lcd_time_differences_start_at_field_three() {
    let d = LcdData::from_line(&with_checksum("LCLCD,5980,100,200,123.4,50.0,234.5,60.0"));
    assert_eq!(
        d.time_differences(),
        Some(vec![(dec(1234, 1), dec(500, 1)), (dec(2345, 1), dec(600, 1))])
    );
}

#[test]
fn gtd_time_differences_collect_decimals() {
    let d = GtdData::from_line(&with_checksum("GPGTD,11000.1,22000.2,33000.3"));
    assert_eq!(d.time_differences(), Some(vec![dec(110001, 1), dec(220002, 1), dec(330003, 1)]));
    let none = GtdData::from_line(&with_checksum("GPGTD,,"));
    assert_eq!(none.time_differences(), None);
}

#[test]
fn gsv_satellites_come_in_blocks_of_four() {
    let d = GsvData::from_line(&with_checksum("GPGSV,3,1,11,03,03,111,00,04,15,270,23"));
    let sats = d.satellite_info().unwrap();
    assert_eq!(sats.len(), 2);
    assert_eq!(sats[0].satellite_id, 3);
    assert_eq!(sats[0].elevation, dec(3, 0));
    assert_eq!(sats[0].azimuth, dec(111, 0));
    assert_eq!(sats[0].snr, dec(0, 0));
    assert_eq!(sats[1].satellite_id, 4);
    assert_eq!(sats[1].snr, dec(23, 0));
    // An incomplete trailing block contributes nothing.
    let d2 = GsvData::from_line(&with_checksum("GPGSV,3,1,11,03,03,111"));
    assert!(d2.satellite_info().is_none());
}

#[test]
fn oln_omegas_come_in_triples() {
    let d = OlnData::from_line(&with_checksum("ZAOLN,AB,123.4,567.8,CD,234.5,678.9"));
    let os = d.omegas().unwrap();
    assert_eq!(os.len(), 2);
    assert_eq!(os[0].name, "AB".to_string());
    assert_eq!(os[0].first, dec(1234, 1));
    assert_eq!(os[0].second, dec(5678, 1));
    assert_eq!(os[1].name, "CD".to_string());
}

#[test]
fn xdr_measurements_come_in_blocks_of_four() {
    let d = XdrData::from_line(&with_checksum("SDXDR,C,19.52,C,AirTemp,P,1.02,B,Barometer"));
    let ms = d.measurements().unwrap();
    assert_eq!(ms.len(), 2);
    assert_eq!(ms[0].transducer_type, 'C');
    assert_eq!(ms[0].data.value, dec(1952, 2));
    assert_eq!(ms[0].data.unit, 'C');
    assert_eq!(ms[0].name, "AirTemp".to_string());
    assert_eq!(ms[1].transducer_type, 'P');
    assert_eq!(ms[1].data.value, dec(102, 2));
    assert_eq!(ms[1].data.unit, 'B');
    assert_eq!(ms[1].name, "Barometer".to_string());
}

#[test]
fn acs_timestamp_combines_time_and_date() {
    let d = AcsData::from_line(&with_checksum("AIACS,0,123456789,123519,15,8,2023"));
    assert_eq!(
        d.timestamp(),
        Some(Timestamp {
            date: Date { year: 2023, month: 8, day: 15 },
            time: TimeOfDay { hour: 12, minute: 35, second: 9, millisecond: 0 },
        })
    );
    let bad = AcsData::from_line(&with_checksum("AIACS,0,123456789,123519,15,13,2023"));
    assert_eq!(bad.timestamp(), None);
}

#[test]
fn base_trait_reads_the_wrapped_record() {
    let d = R00Data::from_line(&with_checksum("GPR00,MINST"));
    assert_eq!(d.sender(), "$GP".to_string());
    assert_eq!(d.message(), "R00".to_string());
    assert_eq!(d.nfields(), 1);
    let rec = NmeaBaseSentence::decode(&with_checksum("GPR00,MINST"));
    assert_eq!(d.checksum(), rec.checksum());
}

#[test]
fn classify_picks_the_variant_by_tag() {
    let s = classify_line("$GPGGA,173617,4844.8683,N,12313.7709,W,2,11,1.00,2,M,-17.0,M,,*52");
    match s {
        NmeaSentence::GGA(d) => {
            assert_eq!(d.base.nfields(), 14);
            assert_eq!(d.base.checksum(), 0x52);
        },
        _ => panic!("expected the position-fix variant"),
    }
    let aam = classify_line("$YDAAM,A,A,3.2,N,waypoint*1E");
    assert!(matches!(aam, NmeaSentence::AAM(_)));
    let rte = classify_line(&with_checksum("GPRTE,2,1,c,0,W3HXE"));
    assert!(matches!(rte, NmeaSentence::RTE(_)));
}

#[test]
fn classify_unknown_tag_gives_the_error_variant() {
    let line = with_checksum("GPQQQ,1,2");
    let s = classify_line(&line);
    match s {
        NmeaSentence::ERROR(e) => {
            assert_eq!(e.error, "Invalid or unknown message type".to_string());
            assert_eq!(e.message, line);
        },
        _ => panic!("expected the error variant"),
    }
}

#[test]
fn classify_malformed_line_gives_the_error_variant() {
    let s = classify_line("no sentinel here");
    match s {
        NmeaSentence::ERROR(e) => {
            assert_eq!(e.error, "Invalid or unknown message type".to_string());
            assert_eq!(e.message, "no sentinel here".to_string());
        },
        _ => panic!("expected the error variant"),
    }
}
