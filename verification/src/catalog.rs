//! The per-message wrapper types: one thin struct per known message kind,
//! each holding the decoded structural record, plus the handful of kinds
//! whose accessors walk the field list (waypoint lists, satellite blocks,
//! transducer measurements and the like).
//!
//! The full per-field accessor catalogue of each message kind is deliberately
//! not spelled out here: those accessors are bindings of a name to a field
//! index and one of the typed accessors of `NmeaBaseSentence`, configuration
//! rather than logic.

use vstd::prelude::*;
use crate::sentence::{
    NmeaBaseSentence, SentenceView, ValueWithUnit, spec_decode, spec_get_text, spec_get_u8,
    spec_get_u16, spec_get_u32, spec_get_i32, spec_get_char, spec_get_decimal, spec_get_pair,
    spec_get_time,
};
use crate::decimal::Decimal;
use crate::clock::{Date, Timestamp, valid_ymd};

verus! {

/// Everything that wraps a structural record can hand the record out and
/// answer the common header questions about it.
pub trait NmeaBaseTrait {
    /// The view of the wrapped record.
    spec fn base_view(&self) -> SentenceView;

    /// The wrapped structural record.
    fn get_base(&self) -> (r: &NmeaBaseSentence)
        ensures
            r@ == self.base_view(),
    ;

    /// The talker prefix of the wrapped record.
    fn sender(&self) -> (r: String)
        ensures
            r@ == self.base_view().sender,
    {
        self.get_base().sender()
    }

    /// The message tag of the wrapped record.
    fn message(&self) -> (r: String)
        ensures
            r@ == self.base_view().message_type,
    {
        self.get_base().message_type()
    }

    /// The number of fields of the wrapped record.
    fn nfields(&self) -> (r: usize)
        ensures
            r == self.base_view().fields.len(),
    {
        self.get_base().nfields()
    }

    /// The verified checksum of the wrapped record.
    fn checksum(&self) -> (r: u8)
        ensures
            r == self.base_view().checksum,
    {
        self.get_base().checksum()
    }
}

impl NmeaBaseTrait for NmeaBaseSentence {
    open spec fn base_view(&self) -> SentenceView {
        self@
    }

    fn get_base(&self) -> (r: &NmeaBaseSentence) {
        self
    }
}

pub struct AamData {
    pub base: NmeaBaseSentence,
}

pub struct AbkData {
    pub base: NmeaBaseSentence,
}

pub struct AcaData {
    pub base: NmeaBaseSentence,
}

pub struct AckData {
    pub base: NmeaBaseSentence,
}

pub struct AcsData {
    pub base: NmeaBaseSentence,
}

pub struct AdsData {
    pub base: NmeaBaseSentence,
}

pub struct AirData {
    pub base: NmeaBaseSentence,
}

pub struct AkdData {
    pub base: NmeaBaseSentence,
}

pub struct AlaData {
    pub base: NmeaBaseSentence,
}

pub struct AlmData {
    pub base: NmeaBaseSentence,
}

pub struct AlrData {
    pub base: NmeaBaseSentence,
}

pub struct ApaData {
    pub base: NmeaBaseSentence,
}

pub struct ApbData {
    pub base: NmeaBaseSentence,
}

pub struct AsdData {
    pub base: NmeaBaseSentence,
}

pub struct BecData {
    pub base: NmeaBaseSentence,
}

pub struct BodData {
    pub base: NmeaBaseSentence,
}

pub struct BwcData {
    pub base: NmeaBaseSentence,
}

pub struct BwrData {
    pub base: NmeaBaseSentence,
}

pub struct BwwData {
    pub base: NmeaBaseSentence,
}

pub struct CekData {
    pub base: NmeaBaseSentence,
}

pub struct CopData {
    pub base: NmeaBaseSentence,
}

pub struct CurData {
    pub base: NmeaBaseSentence,
}

pub struct DbkData {
    pub base: NmeaBaseSentence,
}

pub struct DbsData {
    pub base: NmeaBaseSentence,
}

pub struct DbtData {
    pub base: NmeaBaseSentence,
}

pub struct DcnData {
    pub base: NmeaBaseSentence,
}

pub struct DcrData {
    pub base: NmeaBaseSentence,
}

pub struct DdcData {
    pub base: NmeaBaseSentence,
}

pub struct DorData {
    pub base: NmeaBaseSentence,
}

pub struct DptData {
    pub base: NmeaBaseSentence,
}

pub struct DscData {
    pub base: NmeaBaseSentence,
}

pub struct DseData {
    pub base: NmeaBaseSentence,
}

pub struct DsiData {
    pub base: NmeaBaseSentence,
}

pub struct DsrData {
    pub base: NmeaBaseSentence,
}

pub struct DtmData {
    pub base: NmeaBaseSentence,
}

pub struct EtlData {
    pub base: NmeaBaseSentence,
}

pub struct EveData {
    pub base: NmeaBaseSentence,
}

pub struct FirData {
    pub base: NmeaBaseSentence,
}

pub struct FsiData {
    pub base: NmeaBaseSentence,
}

pub struct GbsData {
    pub base: NmeaBaseSentence,
}

pub struct GgaData {
    pub base: NmeaBaseSentence,
}

pub struct GlcData {
    pub base: NmeaBaseSentence,
}

pub struct GllData {
    pub base: NmeaBaseSentence,
}

pub struct GmpData {
    pub base: NmeaBaseSentence,
}

pub struct GnsData {
    pub base: NmeaBaseSentence,
}

pub struct GrsData {
    pub base: NmeaBaseSentence,
}

pub struct GsaData {
    pub base: NmeaBaseSentence,
}

pub struct GstData {
    pub base: NmeaBaseSentence,
}

pub struct GsvData {
    pub base: NmeaBaseSentence,
}

pub struct GtdData {
    pub base: NmeaBaseSentence,
}

pub struct GxaData {
    pub base: NmeaBaseSentence,
}

pub struct HdgData {
    pub base: NmeaBaseSentence,
}

pub struct HdmData {
    pub base: NmeaBaseSentence,
}

pub struct HdtData {
    pub base: NmeaBaseSentence,
}

pub struct HfbData {
    pub base: NmeaBaseSentence,
}

pub struct HmrData {
    pub base: NmeaBaseSentence,
}

pub struct HmsData {
    pub base: NmeaBaseSentence,
}

pub struct HscData {
    pub base: NmeaBaseSentence,
}

pub struct HtcData {
    pub base: NmeaBaseSentence,
}

pub struct HtdData {
    pub base: NmeaBaseSentence,
}

pub struct ItsData {
    pub base: NmeaBaseSentence,
}

pub struct LcdData {
    pub base: NmeaBaseSentence,
}

pub struct LrfData {
    pub base: NmeaBaseSentence,
}

pub struct Lr1Data {
    pub base: NmeaBaseSentence,
}

pub struct Lr2Data {
    pub base: NmeaBaseSentence,
}

pub struct Lr3Data {
    pub base: NmeaBaseSentence,
}

pub struct MdaData {
    pub base: NmeaBaseSentence,
}

pub struct MlaData {
    pub base: NmeaBaseSentence,
}

pub struct MskData {
    pub base: NmeaBaseSentence,
}

pub struct MssData {
    pub base: NmeaBaseSentence,
}

pub struct MtwData {
    pub base: NmeaBaseSentence,
}

pub struct MwdData {
    pub base: NmeaBaseSentence,
}

pub struct MwvData {
    pub base: NmeaBaseSentence,
}

pub struct OlnData {
    pub base: NmeaBaseSentence,
}

pub struct OsdData {
    pub base: NmeaBaseSentence,
}

pub struct R00Data {
    pub base: NmeaBaseSentence,
}

pub struct RlmData {
    pub base: NmeaBaseSentence,
}

pub struct RmaData {
    pub base: NmeaBaseSentence,
}

pub struct RmbData {
    pub base: NmeaBaseSentence,
}

pub struct RmcData {
    pub base: NmeaBaseSentence,
}

pub struct RotData {
    pub base: NmeaBaseSentence,
}

pub struct RpmData {
    pub base: NmeaBaseSentence,
}

pub struct RsaData {
    pub base: NmeaBaseSentence,
}

pub struct RsdData {
    pub base: NmeaBaseSentence,
}

pub struct RteData {
    pub base: NmeaBaseSentence,
}

pub struct Sf1Data {
    pub base: NmeaBaseSentence,
}

pub struct SsdData {
    pub base: NmeaBaseSentence,
}

pub struct StnData {
    pub base: NmeaBaseSentence,
}

pub struct TdsData {
    pub base: NmeaBaseSentence,
}

pub struct TfiData {
    pub base: NmeaBaseSentence,
}

pub struct TlbData {
    pub base: NmeaBaseSentence,
}

pub struct TllData {
    pub base: NmeaBaseSentence,
}

pub struct TpcData {
    pub base: NmeaBaseSentence,
}

pub struct TprData {
    pub base: NmeaBaseSentence,
}

pub struct TptData {
    pub base: NmeaBaseSentence,
}

pub struct TrfData {
    pub base: NmeaBaseSentence,
}

pub struct TtmData {
    pub base: NmeaBaseSentence,
}

pub struct TutData {
    pub base: NmeaBaseSentence,
}

pub struct TxtData {
    pub base: NmeaBaseSentence,
}

pub struct VbwData {
    pub base: NmeaBaseSentence,
}

pub struct VdrData {
    pub base: NmeaBaseSentence,
}

pub struct VhwData {
    pub base: NmeaBaseSentence,
}

pub struct VlwData {
    pub base: NmeaBaseSentence,
}

pub struct VpwData {
    pub base: NmeaBaseSentence,
}

pub struct VsdData {
    pub base: NmeaBaseSentence,
}

pub struct VtgData {
    pub base: NmeaBaseSentence,
}

pub struct VwrData {
    pub base: NmeaBaseSentence,
}

pub struct WcvData {
    pub base: NmeaBaseSentence,
}

pub struct WdcData {
    pub base: NmeaBaseSentence,
}

pub struct WdrData {
    pub base: NmeaBaseSentence,
}

pub struct WncData {
    pub base: NmeaBaseSentence,
}

pub struct WplData {
    pub base: NmeaBaseSentence,
}

pub struct XdrData {
    pub base: NmeaBaseSentence,
}

pub struct XteData {
    pub base: NmeaBaseSentence,
}

pub struct XtrData {
    pub base: NmeaBaseSentence,
}

pub struct ZdaData {
    pub base: NmeaBaseSentence,
}

pub struct ZdlData {
    pub base: NmeaBaseSentence,
}

pub struct ZfoData {
    pub base: NmeaBaseSentence,
}

pub struct ZtgData {
    pub base: NmeaBaseSentence,
}

pub struct AbmData {
    pub base: NmeaBaseSentence,
}

pub struct BbmData {
    pub base: NmeaBaseSentence,
}

pub struct VdmData {
    pub base: NmeaBaseSentence,
}

pub struct VdoData {
    pub base: NmeaBaseSentence,
}

impl NmeaBaseTrait for AamData {
    open spec fn base_view(&self) -> SentenceView {
        self.base@
    }

    fn get_base(&self) -> (r: &NmeaBaseSentence) {
        &self.base
    }
}

impl AamData {
    /// Decodes `line` and wraps the record.
    pub fn from_line(line: &str) -> (r: Self)
        ensures
            r.base@ == spec_decode(line@),
    {
        AamData { base: NmeaBaseSentence::decode(line) }
    }
}

impl NmeaBaseTrait for AcsData {
    open spec fn base_view(&self) -> SentenceView {
        self.base@
    }

    fn get_base(&self) -> (r: &NmeaBaseSentence) {
        &self.base
    }
}

impl AcsData {
    /// Decodes `line` and wraps the record.
    pub fn from_line(line: &str) -> (r: Self)
        ensures
            r.base@ == spec_decode(line@),
    {
        AcsData { base: NmeaBaseSentence::decode(line) }
    }
}

impl NmeaBaseTrait for GsvData {
    open spec fn base_view(&self) -> SentenceView {
        self.base@
    }

    fn get_base(&self) -> (r: &NmeaBaseSentence) {
        &self.base
    }
}

impl GsvData {
    /// Decodes `line` and wraps the record.
    pub fn from_line(line: &str) -> (r: Self)
        ensures
            r.base@ == spec_decode(line@),
    {
        GsvData { base: NmeaBaseSentence::decode(line) }
    }
}

impl NmeaBaseTrait for GtdData {
    open spec fn base_view(&self) -> SentenceView {
        self.base@
    }

    fn get_base(&self) -> (r: &NmeaBaseSentence) {
        &self.base
    }
}

impl GtdData {
    /// Decodes `line` and wraps the record.
    pub fn from_line(line: &str) -> (r: Self)
        ensures
            r.base@ == spec_decode(line@),
    {
        GtdData { base: NmeaBaseSentence::decode(line) }
    }
}

impl NmeaBaseTrait for LcdData {
    open spec fn base_view(&self) -> SentenceView {
        self.base@
    }

    fn get_base(&self) -> (r: &NmeaBaseSentence) {
        &self.base
    }
}

impl LcdData {
    /// Decodes `line` and wraps the record.
    pub fn from_line(line: &str) -> (r: Self)
        ensures
            r.base@ == spec_decode(line@),
    {
        LcdData { base: NmeaBaseSentence::decode(line) }
    }
}

impl NmeaBaseTrait for OlnData {
    open spec fn base_view(&self) -> SentenceView {
        self.base@
    }

    fn get_base(&self) -> (r: &NmeaBaseSentence) {
        &self.base
    }
}

impl OlnData {
    /// Decodes `line` and wraps the record.
    pub fn from_line(line: &str) -> (r: Self)
        ensures
            r.base@ == spec_decode(line@),
    {
        OlnData { base: NmeaBaseSentence::decode(line) }
    }
}

impl NmeaBaseTrait for R00Data {
    open spec fn base_view(&self) -> SentenceView {
        self.base@
    }

    fn get_base(&self) -> (r: &NmeaBaseSentence) {
        &self.base
    }
}

impl R00Data {
    /// Decodes `line` and wraps the record.
    pub fn from_line(line: &str) -> (r: Self)
        ensures
            r.base@ == spec_decode(line@),
    {
        R00Data { base: NmeaBaseSentence::decode(line) }
    }
}

impl NmeaBaseTrait for RteData {
    open spec fn base_view(&self) -> SentenceView {
        self.base@
    }

    fn get_base(&self) -> (r: &NmeaBaseSentence) {
        &self.base
    }
}

impl RteData {
    /// Decodes `line` and wraps the record.
    pub fn from_line(line: &str) -> (r: Self)
        ensures
            r.base@ == spec_decode(line@),
    {
        RteData { base: NmeaBaseSentence::decode(line) }
    }
}

impl NmeaBaseTrait for Sf1Data {
    open spec fn base_view(&self) -> SentenceView {
        self.base@
    }

    fn get_base(&self) -> (r: &NmeaBaseSentence) {
        &self.base
    }
}

impl Sf1Data {
    /// Decodes `line` and wraps the record.
    pub fn from_line(line: &str) -> (r: Self)
        ensures
            r.base@ == spec_decode(line@),
    {
        Sf1Data { base: NmeaBaseSentence::decode(line) }
    }
}

impl NmeaBaseTrait for TlbData {
    open spec fn base_view(&self) -> SentenceView {
        self.base@
    }

    fn get_base(&self) -> (r: &NmeaBaseSentence) {
        &self.base
    }
}

impl TlbData {
    /// Decodes `line` and wraps the record.
    pub fn from_line(line: &str) -> (r: Self)
        ensures
            r.base@ == spec_decode(line@),
    {
        TlbData { base: NmeaBaseSentence::decode(line) }
    }
}

impl NmeaBaseTrait for XdrData {
    open spec fn base_view(&self) -> SentenceView {
        self.base@
    }

    fn get_base(&self) -> (r: &NmeaBaseSentence) {
        &self.base
    }
}

impl XdrData {
    /// Decodes `line` and wraps the record.
    pub fn from_line(line: &str) -> (r: Self)
        ensures
            r.base@ == spec_decode(line@),
    {
        XdrData { base: NmeaBaseSentence::decode(line) }
    }
}

/// Per-satellite block of a satellites-in-view sentence.
pub struct SatelliteInfo {
    pub satellite_id: u16,
    pub elevation: Decimal,
    pub azimuth: Decimal,
    pub snr: Decimal,
}

/// One station name with its two associated values.
pub struct OmegaData {
    pub name: String,
    pub first: Decimal,
    pub second: Decimal,
}

/// One transducer measurement: kind, value with unit, and transducer name.
pub struct TransducerData {
    pub transducer_type: char,
    pub data: ValueWithUnit<Decimal>,
    pub name: String,
}

/// The non-empty fields from `i` on.
pub open spec fn spec_waypoints_from(rv: SentenceView, i: int) -> Seq<Seq<char>>
    decreases rv.fields.len() - i,
{
    if i >= rv.fields.len() {
        Seq::empty()
    } else {
        let rest = spec_waypoints_from(rv, i + 1);
        match spec_get_text(rv, i) {
            Some(w) => seq![w] + rest,
            None => rest,
        }
    }
}

/// The decimal values among the fields from `i` on.
pub open spec fn spec_decimals_from(rv: SentenceView, i: int) -> Seq<Decimal>
    decreases rv.fields.len() - i,
{
    if i >= rv.fields.len() {
        Seq::empty()
    } else {
        let rest = spec_decimals_from(rv, i + 1);
        match spec_get_decimal(rv, i) {
            Some(d) => seq![d] + rest,
            None => rest,
        }
    }
}

/// Number/label pairs read two fields at a time from `i` on.
pub open spec fn spec_targets_from(rv: SentenceView, i: int) -> Seq<(u8, Seq<char>)>
    decreases rv.fields.len() - i,
{
    if i >= rv.fields.len() {
        Seq::empty()
    } else {
        let rest = if i + 2 <= rv.fields.len() {
            spec_targets_from(rv, i + 2)
        } else {
            Seq::empty()
        };
        match (spec_get_u8(rv, i), spec_get_text(rv, i + 1)) {
            (Some(n), Some(l)) => seq![(n, l)] + rest,
            _ => rest,
        }
    }
}

/// Value/mode pairs read two fields at a time from `i` on.
pub open spec fn spec_frequencies_from(rv: SentenceView, i: int) -> Seq<(Decimal, char)>
    decreases rv.fields.len() - i,
{
    if i >= rv.fields.len() {
        Seq::empty()
    } else {
        let rest = if i + 2 <= rv.fields.len() {
            spec_frequencies_from(rv, i + 2)
        } else {
            Seq::empty()
        };
        match (spec_get_decimal(rv, i), spec_get_char(rv, i + 1)) {
            (Some(f), Some(m)) => seq![(f, m)] + rest,
            _ => rest,
        }
    }
}

/// Value/status pairs read two fields at a time from `i` on.
pub open spec fn spec_decimal_pairs_from(rv: SentenceView, i: int) -> Seq<(Decimal, Decimal)>
    decreases rv.fields.len() - i,
{
    if i >= rv.fields.len() {
        Seq::empty()
    } else {
        let rest = if i + 2 <= rv.fields.len() {
            spec_decimal_pairs_from(rv, i + 2)
        } else {
            Seq::empty()
        };
        match (spec_get_decimal(rv, i), spec_get_decimal(rv, i + 1)) {
            (Some(a), Some(b)) => seq![(a, b)] + rest,
            _ => rest,
        }
    }
}

/// Satellite blocks read four fields at a time from `i` on.
pub open spec fn spec_satellites_from(rv: SentenceView, i: int) -> Seq<(u16, Decimal, Decimal, Decimal)>
    decreases rv.fields.len() - i,
{
    if i >= rv.fields.len() {
        Seq::empty()
    } else {
        let rest = if i + 4 <= rv.fields.len() {
            spec_satellites_from(rv, i + 4)
        } else {
            Seq::empty()
        };
        match (
            spec_get_u16(rv, i),
            spec_get_decimal(rv, i + 1),
            spec_get_decimal(rv, i + 2),
            spec_get_decimal(rv, i + 3),
        ) {
            (Some(id), Some(el), Some(az), Some(snr)) => seq![(id, el, az, snr)] + rest,
            _ => rest,
        }
    }
}

/// Station triples read three fields at a time from `i` on.
pub open spec fn spec_omegas_from(rv: SentenceView, i: int) -> Seq<(Seq<char>, Decimal, Decimal)>
    decreases rv.fields.len() - i,
{
    if i >= rv.fields.len() {
        Seq::empty()
    } else {
        let rest = if i + 3 <= rv.fields.len() {
            spec_omegas_from(rv, i + 3)
        } else {
            Seq::empty()
        };
        match (spec_get_text(rv, i), spec_get_decimal(rv, i + 1), spec_get_decimal(rv, i + 2)) {
            (Some(nm), Some(a), Some(b)) => seq![(nm, a, b)] + rest,
            _ => rest,
        }
    }
}

/// Transducer blocks read four fields at a time from `i` on.
pub open spec fn spec_measurements_from(rv: SentenceView, i: int) -> Seq<
    (char, Decimal, char, Seq<char>),
>
    decreases rv.fields.len() - i,
{
    if i >= rv.fields.len() {
        Seq::empty()
    } else {
        let rest = if i + 4 <= rv.fields.len() {
            spec_measurements_from(rv, i + 4)
        } else {
            Seq::empty()
        };
        match (
            spec_get_char(rv, i),
            spec_get_decimal(rv, i + 1),
            spec_get_char(rv, i + 2),
            spec_get_text(rv, i + 3),
        ) {
            (Some(t), Some(v), Some(u), Some(nm)) => seq![(t, v, u, nm)] + rest,
            _ => rest,
        }
    }
}

/// The timestamp carried in fields 2..=5: a time of day, then day, month and
/// a full year; present exactly when every component parses and the date is a
/// calendar day.
pub open spec fn spec_timestamp(rv: SentenceView) -> Option<Timestamp> {
    match (
        spec_get_time(rv, 2),
        spec_get_u32(rv, 3),
        spec_get_u32(rv, 4),
        spec_get_i32(rv, 5),
    ) {
        (Some(t), Some(d), Some(m), Some(y)) => {
            if valid_ymd(y as int, m as int, d as int) {
                Some(
                    Timestamp {
                        date: Date { year: y, month: m as u32, day: d as u32 },
                        time: t,
                    },
                )
            } else {
                None
            }
        },
        _ => None,
    }
}

pub open spec fn views_of_texts(s: Seq<String>) -> Seq<Seq<char>> {
    Seq::new(s.len(), |k: int| s[k]@)
}

pub open spec fn views_of_target_pairs(s: Seq<(u8, String)>) -> Seq<(u8, Seq<char>)> {
    Seq::new(s.len(), |k: int| (s[k].0, s[k].1@))
}

pub open spec fn views_of_omegas(s: Seq<OmegaData>) -> Seq<(Seq<char>, Decimal, Decimal)> {
    Seq::new(s.len(), |k: int| (s[k].name@, s[k].first, s[k].second))
}

pub open spec fn views_of_satellites(s: Seq<SatelliteInfo>) -> Seq<(u16, Decimal, Decimal, Decimal)> {
    Seq::new(s.len(), |k: int| (s[k].satellite_id, s[k].elevation, s[k].azimuth, s[k].snr))
}

pub open spec fn views_of_measurements(s: Seq<TransducerData>) -> Seq<
    (char, Decimal, char, Seq<char>),
> {
    Seq::new(s.len(), |k: int| (s[k].transducer_type, s[k].data.value, s[k].data.unit, s[k].name@))
}

impl R00Data {
    /// The waypoint names the sentence lists; absent when there are none.
    pub fn waypoints(&self) -> (r: Option<Vec<String>>)
        ensures
            ({
                let ws = spec_waypoints_from(self.base@, 0);
                match r {
                    Some(v) => ws.len() > 0 && views_of_texts(v@) == ws,
                    None => ws.len() == 0,
                }
            }),
    {
        collect_waypoints(&self.base, 0)
    }
}

impl RteData {
    /// The waypoint names of the route, which begin at field 4; absent when
    /// there are none.
    pub fn waypoints(&self) -> (r: Option<Vec<String>>)
        ensures
            ({
                let ws = spec_waypoints_from(self.base@, 4);
                match r {
                    Some(v) => ws.len() > 0 && views_of_texts(v@) == ws,
                    None => ws.len() == 0,
                }
            }),
    {
        collect_waypoints(&self.base, 4)
    }
}

/// The shared walk behind the waypoint accessors.
fn collect_waypoints(base: &NmeaBaseSentence, start: usize) -> (r: Option<Vec<String>>)
    ensures
        ({
            let ws = spec_waypoints_from(base@, start as int);
            match r {
                Some(v) => ws.len() > 0 && views_of_texts(v@) == ws,
                None => ws.len() == 0,
            }
        }),
{
    let ghost rv = base@;
    let n = base.nfields();
    let mut out: Vec<String> = Vec::new();
    let mut i: usize = start;
    while i < n
        invariant
            n == rv.fields.len(),
            rv == base@,
            start <= i,
            i <= n || i == start,
            views_of_texts(out@) + spec_waypoints_from(rv, i as int) == spec_waypoints_from(
                rv,
                start as int,
            ),
        decreases n - i,
    {
        let ghost before = out@;
        match base.get(i) {
            Some(w) => {
                out.push(w);
            },
            None => {},
        }
        proof {
            if out@.len() > before.len() {
                assert(views_of_texts(out@) =~= views_of_texts(before).push(out@.last()@));
                assert(views_of_texts(before).push(out@.last()@) + spec_waypoints_from(
                    rv,
                    i + 1,
                ) =~= views_of_texts(before) + (seq![out@.last()@] + spec_waypoints_from(
                    rv,
                    i + 1,
                )));
            }
        }
        i = i + 1;
    }
    proof {
        assert(views_of_texts(out@) + Seq::<Seq<char>>::empty() =~= views_of_texts(out@));
    }
    if out.len() == 0 {
        None
    } else {
        Some(out)
    }
}

impl GtdData {
    /// The decimal time-difference values among the fields; absent when none
    /// parses.
    pub fn time_differences(&self) -> (r: Option<Vec<Decimal>>)
        ensures
            ({
                let ds = spec_decimals_from(self.base@, 0);
                match r {
                    Some(v) => ds.len() > 0 && v@ == ds,
                    None => ds.len() == 0,
                }
            }),
    {
        let ghost rv = self.base@;
        let n = self.base.nfields();
        let mut out: Vec<Decimal> = Vec::new();
        let mut i: usize = 0;
        while i < n
            invariant
                n == rv.fields.len(),
                rv == self.base@,
                i <= n,
                out@ + spec_decimals_from(rv, i as int) == spec_decimals_from(rv, 0),
            decreases n - i,
        {
            let ghost before = out@;
            match self.base.get_decimal(i) {
                Some(d) => {
                    out.push(d);
                    proof {
                        assert(before.push(d) + spec_decimals_from(rv, i + 1) =~= before + (seq![d]
                            + spec_decimals_from(rv, i + 1)));
                    }
                },
                None => {},
            }
            i = i + 1;
        }
        proof {
            assert(out@ + Seq::<Decimal>::empty() =~= out@);
        }
        if out.len() == 0 {
            None
        } else {
            Some(out)
        }
    }
}

impl TlbData {
    /// The labelled targets: a target number and its label, two fields per
    /// target; absent when no complete pair parses.
    pub fn targets(&self) -> (r: Option<Vec<(u8, String)>>)
        ensures
            ({
                let ts = spec_targets_from(self.base@, 0);
                match r {
                    Some(v) => ts.len() > 0 && views_of_target_pairs(v@) == ts,
                    None => ts.len() == 0,
                }
            }),
    {
        let ghost rv = self.base@;
        let n = self.base.nfields();
        let mut out: Vec<(u8, String)> = Vec::new();
        let mut i: usize = 0;
        while i < n
            invariant
                n == rv.fields.len(),
                rv == self.base@,
                i <= n,
                views_of_target_pairs(out@) + spec_targets_from(rv, i as int)
                    == spec_targets_from(rv, 0),
            decreases n - i,
        {
            let ghost before = out@;
            let a = self.base.get_u8(i);
            let b = self.base.get(i + 1);
            match (a, b) {
                (Some(x), Some(l)) => {
                    out.push((x, l));
                    proof {
                        assert(views_of_target_pairs(out@) =~= views_of_target_pairs(before).push(
                            (x, l@),
                        ));
                        assert(views_of_target_pairs(before).push((x, l@)) + spec_targets_from(
                            rv,
                            i + 2,
                        ) =~= views_of_target_pairs(before) + (seq![(x, l@)] + spec_targets_from(
                            rv,
                            i + 2,
                        )));
                    }
                },
                _ => {},
            }
            if n - i >= 2 {
                i = i + 2;
            } else {
                i = n;
            }
        }
        proof {
            assert(views_of_target_pairs(out@) + Seq::<(u8, Seq<char>)>::empty()
                =~= views_of_target_pairs(out@));
        }
        if out.len() == 0 {
            None
        } else {
            Some(out)
        }
    }
}

impl Sf1Data {
    /// The frequency/mode pairs, two fields per entry from field 2 on; absent
    /// when no complete pair parses.
    pub fn frequencies(&self) -> (r: Option<Vec<(Decimal, char)>>)
        ensures
            ({
                let fs = spec_frequencies_from(self.base@, 2);
                match r {
                    Some(v) => fs.len() > 0 && v@ == fs,
                    None => fs.len() == 0,
                }
            }),
    {
        let ghost rv = self.base@;
        let n = self.base.nfields();
        let mut out: Vec<(Decimal, char)> = Vec::new();
        let mut i: usize = 2;
        while i < n
            invariant
                n == rv.fields.len(),
                rv == self.base@,
                2 <= i,
                out@ + spec_frequencies_from(rv, i as int) == spec_frequencies_from(rv, 2),
            decreases n - i,
        {
            let ghost before = out@;
            let a = self.base.get_decimal(i);
            let b = self.base.get_char(i + 1);
            match (a, b) {
                (Some(f), Some(m)) => {
                    out.push((f, m));
                    proof {
                        assert(before.push((f, m)) + spec_frequencies_from(rv, i + 2) =~= before + (
                        seq![(f, m)] + spec_frequencies_from(rv, i + 2)));
                    }
                },
                _ => {},
            }
            if n - i >= 2 {
                i = i + 2;
            } else {
                i = n;
            }
        }
        proof {
            assert(out@ + Seq::<(Decimal, char)>::empty() =~= out@);
        }
        if out.len() == 0 {
            None
        } else {
            Some(out)
        }
    }
}

impl LcdData {
    /// The value/status pairs, two fields per entry from field 3 on; absent
    /// when no complete pair parses.
    pub fn time_differences(&self) -> (r: Option<Vec<(Decimal, Decimal)>>)
        ensures
            ({
                let ds = spec_decimal_pairs_from(self.base@, 3);
                match r {
                    Some(v) => ds.len() > 0 && v@ == ds,
                    None => ds.len() == 0,
                }
            }),
    {
        let ghost rv = self.base@;
        let n = self.base.nfields();
        let mut out: Vec<(Decimal, Decimal)> = Vec::new();
        let mut i: usize = 3;
        while i < n
            invariant
                n == rv.fields.len(),
                rv == self.base@,
                3 <= i,
                out@ + spec_decimal_pairs_from(rv, i as int) == spec_decimal_pairs_from(rv, 3),
            decreases n - i,
        {
            let ghost before = out@;
            let a = self.base.get_decimal(i);
            let b = self.base.get_decimal(i + 1);
            match (a, b) {
                (Some(x), Some(y)) => {
                    out.push((x, y));
                    proof {
                        assert(before.push((x, y)) + spec_decimal_pairs_from(rv, i + 2) =~= before
                            + (seq![(x, y)] + spec_decimal_pairs_from(rv, i + 2)));
                    }
                },
                _ => {},
            }
            if n - i >= 2 {
                i = i + 2;
            } else {
                i = n;
            }
        }
        proof {
            assert(out@ + Seq::<(Decimal, Decimal)>::empty() =~= out@);
        }
        if out.len() == 0 {
            None
        } else {
            Some(out)
        }
    }
}

impl GsvData {
    /// The satellite blocks: id, elevation, azimuth and signal strength, four
    /// fields per satellite from field 3 on; absent when no complete block
    /// parses.
    pub fn satellite_info(&self) -> (r: Option<Vec<SatelliteInfo>>)
        ensures
            ({
                let ss = spec_satellites_from(self.base@, 3);
                match r {
                    Some(v) => ss.len() > 0 && views_of_satellites(v@) == ss,
                    None => ss.len() == 0,
                }
            }),
    {
        let ghost rv = self.base@;
        let n = self.base.nfields();
        let mut out: Vec<SatelliteInfo> = Vec::new();
        let mut i: usize = 3;
        while i < n
            invariant
                n == rv.fields.len(),
                rv == self.base@,
                3 <= i,
                views_of_satellites(out@) + spec_satellites_from(rv, i as int)
                    == spec_satellites_from(rv, 3),
            decreases n - i,
        {
            let ghost before = out@;
            if n - i >= 4 {
                let a = self.base.get_u16(i);
                let b = self.base.get_decimal(i + 1);
                let c = self.base.get_decimal(i + 2);
                let d = self.base.get_decimal(i + 3);
                match (a, b, c, d) {
                    (Some(id), Some(el), Some(az), Some(snr)) => {
                        out.push(SatelliteInfo { satellite_id: id, elevation: el, azimuth: az, snr });
                        proof {
                            assert(views_of_satellites(out@) =~= views_of_satellites(before).push(
                                (id, el, az, snr),
                            ));
                            assert(views_of_satellites(before).push((id, el, az, snr))
                                + spec_satellites_from(rv, i + 4) =~= views_of_satellites(before)
                                + (seq![(id, el, az, snr)] + spec_satellites_from(rv, i + 4)));
                        }
                    },
                    _ => {},
                }
                i = i + 4;
            } else {
                proof {
                    lemma_satellites_tail_empty(rv, i as int);
                }
                i = n;
            }
        }
        proof {
            assert(views_of_satellites(out@) + Seq::<(u16, Decimal, Decimal, Decimal)>::empty()
                =~= views_of_satellites(out@));
        }
        if out.len() == 0 {
            None
        } else {
            Some(out)
        }
    }
}

/// A block that would run past the end of the field list yields nothing.
proof fn lemma_satellites_tail_empty(rv: SentenceView, i: int)
    requires
        i < rv.fields.len() < i + 4,
    ensures
        spec_satellites_from(rv, i) == Seq::<(u16, Decimal, Decimal, Decimal)>::empty(),
{
    if i + 1 < rv.fields.len() {
        if i + 2 < rv.fields.len() {
            assert(spec_get_decimal(rv, i + 3) is None);
        } else {
            assert(spec_get_decimal(rv, i + 2) is None);
        }
    } else {
        assert(spec_get_decimal(rv, i + 1) is None);
    }
}

impl OlnData {
    /// The station triples: a name and two values, three fields per entry;
    /// absent when no complete triple parses.
    pub fn omegas(&self) -> (r: Option<Vec<OmegaData>>)
        ensures
            ({
                let os = spec_omegas_from(self.base@, 0);
                match r {
                    Some(v) => os.len() > 0 && views_of_omegas(v@) == os,
                    None => os.len() == 0,
                }
            }),
    {
        let ghost rv = self.base@;
        let n = self.base.nfields();
        let mut out: Vec<OmegaData> = Vec::new();
        let mut i: usize = 0;
        while i < n
            invariant
                n == rv.fields.len(),
                rv == self.base@,
                i <= n,
                views_of_omegas(out@) + spec_omegas_from(rv, i as int) == spec_omegas_from(rv, 0),
            decreases n - i,
        {
            let ghost before = out@;
            if n - i >= 3 {
                let a = self.base.get(i);
                let b = self.base.get_decimal(i + 1);
                let c = self.base.get_decimal(i + 2);
                match (a, b, c) {
                    (Some(nm), Some(x), Some(y)) => {
                        let ghost nmv = nm@;
                        out.push(OmegaData { name: nm, first: x, second: y });
                        proof {
                            assert(views_of_omegas(out@) =~= views_of_omegas(before).push(
                                (nmv, x, y),
                            ));
                            assert(views_of_omegas(before).push((nmv, x, y)) + spec_omegas_from(
                                rv,
                                i + 3,
                            ) =~= views_of_omegas(before) + (seq![(nmv, x, y)] + spec_omegas_from(
                                rv,
                                i + 3,
                            )));
                        }
                    },
                    _ => {},
                }
                i = i + 3;
            } else {
                proof {
                    lemma_omegas_tail_empty(rv, i as int);
                }
                i = n;
            }
        }
        proof {
            assert(views_of_omegas(out@) + Seq::<(Seq<char>, Decimal, Decimal)>::empty()
                =~= views_of_omegas(out@));
        }
        if out.len() == 0 {
            None
        } else {
            Some(out)
        }
    }
}

/// A triple that would run past the end of the field list yields nothing.
proof fn lemma_omegas_tail_empty(rv: SentenceView, i: int)
    requires
        i < rv.fields.len() < i + 3,
    ensures
        spec_omegas_from(rv, i) == Seq::<(Seq<char>, Decimal, Decimal)>::empty(),
{
    if i + 1 < rv.fields.len() {
        assert(spec_get_decimal(rv, i + 2) is None);
    } else {
        assert(spec_get_decimal(rv, i + 1) is None);
    }
}

impl XdrData {
    /// The transducer measurements: kind, value, unit and name, four fields
    /// per entry; absent when no complete entry parses.
    #[verifier::rlimit(60)]
    pub fn measurements(&self) -> (r: Option<Vec<TransducerData>>)
        ensures
            ({
                let ms = spec_measurements_from(self.base@, 0);
                match r {
                    Some(v) => ms.len() > 0 && views_of_measurements(v@) == ms,
                    None => ms.len() == 0,
                }
            }),
    {
        let ghost rv = self.base@;
        let n = self.base.nfields();
        let mut out: Vec<TransducerData> = Vec::new();
        let mut i: usize = 0;
        while i < n
            invariant
                n == rv.fields.len(),
                rv == self.base@,
                i <= n,
                views_of_measurements(out@) + spec_measurements_from(rv, i as int)
                    == spec_measurements_from(rv, 0),
            decreases n - i,
        {
            let ghost before = out@;
            if n - i >= 4 {
                let a = self.base.get_char(i);
                let b = self.base.get_decimal(i + 1);
                let c = self.base.get_char(i + 2);
                let d = self.base.get(i + 3);
                match (a, b, c, d) {
                    (Some(t), Some(v), Some(u), Some(nm)) => {
                        let ghost nmv = nm@;
                        let entry = make_transducer_data(t, v, u, nm);
                        out.push(entry);
                        proof {
                            assert(out@.last().data.value == v && out@.last().data.unit == u);
                            assert(out@.len() == before.len() + 1);
                            assert(views_of_measurements(out@) =~= views_of_measurements(
                                before,
                            ).push((t, v, u, nmv)));
                            assert(views_of_measurements(before).push((t, v, u, nmv))
                                + spec_measurements_from(rv, i + 4) =~= views_of_measurements(
                                before,
                            ) + (seq![(t, v, u, nmv)] + spec_measurements_from(rv, i + 4)));
                        }
                    },
                    _ => {},
                }
                i = i + 4;
            } else {
                proof {
                    lemma_measurements_tail_empty(rv, i as int);
                }
                i = n;
            }
        }
        proof {
            assert(views_of_measurements(out@) + Seq::<(char, Decimal, char, Seq<char>)>::empty()
                =~= views_of_measurements(out@));
        }
        if out.len() == 0 {
            None
        } else {
            Some(out)
        }
    }
}


/// Builds one transducer entry.
fn make_transducer_data(t: char, v: Decimal, u: char, nm: String) -> (r: TransducerData)
    ensures
        r.transducer_type == t,
        r.data.value == v,
        r.data.unit == u,
        r.name == nm,
{
    TransducerData { transducer_type: t, data: ValueWithUnit { value: v, unit: u }, name: nm }
}

/// An entry that would run past the end of the field list yields nothing.
proof fn lemma_measurements_tail_empty(rv: SentenceView, i: int)
    requires
        i < rv.fields.len() < i + 4,
    ensures
        spec_measurements_from(rv, i) == Seq::<(char, Decimal, char, Seq<char>)>::empty(),
{
    if i + 1 < rv.fields.len() {
        if i + 2 < rv.fields.len() {
            assert(spec_get_text(rv, i + 3) is None);
        } else {
            assert(spec_get_char(rv, i + 2) is None);
        }
    } else {
        assert(spec_get_decimal(rv, i + 1) is None);
    }
}

impl AcsData {
    /// The full timestamp the sentence carries in fields 2 through 5.
    pub fn timestamp(&self) -> (r: Option<Timestamp>)
        ensures
            r == spec_timestamp(self.base@),
            r matches Some(t) ==> t.wf(),
    {
        let t = match self.base.get_time(2) {
            Some(t) => t,
            None => {
                return None;
            },
        };
        let d = match self.base.get_u32(3) {
            Some(v) => v,
            None => {
                return None;
            },
        };
        let m = match self.base.get_u32(4) {
            Some(v) => v,
            None => {
                return None;
            },
        };
        let y = match self.base.get_i32(5) {
            Some(v) => v,
            None => {
                return None;
            },
        };
        match crate::clock::make_date(y, m, d) {
            Some(date) => Some(Timestamp { date, time: t }),
            None => None,
        }
    }
}

impl AamData {
    /// The arrival-circle-entered flag.
    pub fn arrival_status(&self) -> (r: Option<char>)
        ensures
            r == spec_get_char(self.base@, 0),
    {
        self.base.get_char(0)
    }

    /// The perpendicular-passed flag.
    pub fn perpendicular_status(&self) -> (r: Option<char>)
        ensures
            r == spec_get_char(self.base@, 1),
    {
        self.base.get_char(1)
    }

    /// The arrival-circle radius with its unit.
    pub fn arrival_circle_radius(&self) -> (r: Option<ValueWithUnit<Decimal>>)
        ensures
            r == spec_get_pair(self.base@, 2, 3),
    {
        self.base.get_pair(2, 3)
    }

    /// The waypoint name.
    pub fn waypoint_id(&self) -> (r: Option<String>)
        ensures
            r is Some <==> spec_get_text(self.base@, 4) is Some,
            r matches Some(s) ==> spec_get_text(self.base@, 4) == Some(s@),
    {
        self.base.get(4)
    }
}

} // verus!
