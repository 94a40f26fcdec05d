//! Classification of decoded records into the closed set of known message
//! kinds: an exact match of the three-character message tag selects the
//! variant; anything else, the malformed record included (its tag is empty),
//! becomes the error variant carrying a fixed diagnostic and the original
//! line.

use vstd::prelude::*;
use vstd::string::StringExecFns;
use vstd::string::StrSliceExecFns;
use crate::sentence::{NmeaBaseSentence, SentenceView, spec_decode};
use crate::catalog::{
    AamData, AbkData, AbmData, AcaData, AckData, AcsData, AdsData, AirData, AkdData, AlaData, AlmData, AlrData, ApaData, ApbData, AsdData, BbmData, BecData, BodData, BwcData, BwrData, BwwData, CekData, CopData, CurData, DbkData, DbsData, DbtData, DcnData, DcrData, DdcData, DorData, DptData, DscData, DseData, DsiData, DsrData, DtmData, EtlData, EveData, FirData, FsiData, GbsData, GgaData, GlcData, GllData, GmpData, GnsData, GrsData, GsaData, GstData, GsvData, GtdData, GxaData, HdgData, HdmData, HdtData, HfbData, HmrData, HmsData, HscData, HtcData, HtdData, ItsData, LcdData, Lr1Data, Lr2Data, Lr3Data, LrfData, MdaData, MlaData, MskData, MssData, MtwData, MwdData, MwvData, OlnData, OsdData, R00Data, RlmData, RmaData, RmbData, RmcData, RotData, RpmData, RsaData, RsdData, RteData, Sf1Data, SsdData, StnData, TdsData, TfiData, TlbData, TllData, TpcData, TprData, TptData, TrfData, TtmData, TutData, TxtData, VbwData, VdmData, VdoData, VdrData, VhwData, VlwData, VpwData, VsdData, VtgData, VwrData, WcvData, WdcData, WdrData, WncData, WplData, XdrData, XteData, XtrData, ZdaData, ZdlData, ZfoData, ZtgData,
};

verus! {

/// Carried by the error variant when no known message kind matches.
pub struct ErrorData {
    pub error: String,
    pub message: String,
}

/// The fixed diagnostic of the error variant.
pub open spec fn unknown_tag_error() -> Seq<char> {
    "Invalid or unknown message type"@
}

/// The tag is exactly the three given characters.
pub open spec fn tag_is(t: Seq<char>, a: char, b: char, c: char) -> bool {
    t.len() == 3 && t[0] == a && t[1] == b && t[2] == c
}
/// The tag of one of the known message kinds.
pub open spec fn spec_known_tag(t: Seq<char>) -> bool {
    ||| tag_is(t, 'A', 'A', 'M')
    ||| tag_is(t, 'A', 'B', 'K')
    ||| tag_is(t, 'A', 'C', 'A')
    ||| tag_is(t, 'A', 'C', 'K')
    ||| tag_is(t, 'A', 'C', 'S')
    ||| tag_is(t, 'A', 'D', 'S')
    ||| tag_is(t, 'A', 'I', 'R')
    ||| tag_is(t, 'A', 'K', 'D')
    ||| tag_is(t, 'A', 'L', 'A')
    ||| tag_is(t, 'A', 'L', 'M')
    ||| tag_is(t, 'A', 'L', 'R')
    ||| tag_is(t, 'A', 'P', 'A')
    ||| tag_is(t, 'A', 'P', 'B')
    ||| tag_is(t, 'A', 'S', 'D')
    ||| tag_is(t, 'B', 'E', 'C')
    ||| tag_is(t, 'B', 'O', 'D')
    ||| tag_is(t, 'B', 'W', 'C')
    ||| tag_is(t, 'B', 'W', 'R')
    ||| tag_is(t, 'B', 'W', 'W')
    ||| tag_is(t, 'C', 'E', 'K')
    ||| tag_is(t, 'C', 'O', 'P')
    ||| tag_is(t, 'C', 'U', 'R')
    ||| tag_is(t, 'D', 'B', 'K')
    ||| tag_is(t, 'D', 'B', 'S')
    ||| tag_is(t, 'D', 'B', 'T')
    ||| tag_is(t, 'D', 'C', 'N')
    ||| tag_is(t, 'D', 'C', 'R')
    ||| tag_is(t, 'D', 'D', 'C')
    ||| tag_is(t, 'D', 'O', 'R')
    ||| tag_is(t, 'D', 'P', 'T')
    ||| tag_is(t, 'D', 'S', 'C')
    ||| tag_is(t, 'D', 'S', 'E')
    ||| tag_is(t, 'D', 'S', 'I')
    ||| tag_is(t, 'D', 'S', 'R')
    ||| tag_is(t, 'D', 'T', 'M')
    ||| tag_is(t, 'E', 'T', 'L')
    ||| tag_is(t, 'E', 'V', 'E')
    ||| tag_is(t, 'F', 'I', 'R')
    ||| tag_is(t, 'F', 'S', 'I')
    ||| tag_is(t, 'G', 'B', 'S')
    ||| tag_is(t, 'G', 'G', 'A')
    ||| tag_is(t, 'G', 'L', 'C')
    ||| tag_is(t, 'G', 'L', 'L')
    ||| tag_is(t, 'G', 'M', 'P')
    ||| tag_is(t, 'G', 'N', 'S')
    ||| tag_is(t, 'G', 'R', 'S')
    ||| tag_is(t, 'G', 'S', 'A')
    ||| tag_is(t, 'G', 'S', 'T')
    ||| tag_is(t, 'G', 'S', 'V')
    ||| tag_is(t, 'G', 'T', 'D')
    ||| tag_is(t, 'G', 'X', 'A')
    ||| tag_is(t, 'H', 'D', 'G')
    ||| tag_is(t, 'H', 'D', 'M')
    ||| tag_is(t, 'H', 'D', 'T')
    ||| tag_is(t, 'H', 'F', 'B')
    ||| tag_is(t, 'H', 'M', 'R')
    ||| tag_is(t, 'H', 'M', 'S')
    ||| tag_is(t, 'H', 'S', 'C')
    ||| tag_is(t, 'H', 'T', 'C')
    ||| tag_is(t, 'H', 'T', 'D')
    ||| tag_is(t, 'I', 'T', 'S')
    ||| tag_is(t, 'L', 'C', 'D')
    ||| tag_is(t, 'L', 'R', 'F')
    ||| tag_is(t, 'L', 'R', '1')
    ||| tag_is(t, 'L', 'R', '2')
    ||| tag_is(t, 'L', 'R', '3')
    ||| tag_is(t, 'M', 'D', 'A')
    ||| tag_is(t, 'M', 'L', 'A')
    ||| tag_is(t, 'M', 'S', 'K')
    ||| tag_is(t, 'M', 'S', 'S')
    ||| tag_is(t, 'M', 'T', 'W')
    ||| tag_is(t, 'M', 'W', 'D')
    ||| tag_is(t, 'M', 'W', 'V')
    ||| tag_is(t, 'O', 'L', 'N')
    ||| tag_is(t, 'O', 'S', 'D')
    ||| tag_is(t, 'R', '0', '0')
    ||| tag_is(t, 'R', 'L', 'M')
    ||| tag_is(t, 'R', 'M', 'A')
    ||| tag_is(t, 'R', 'M', 'B')
    ||| tag_is(t, 'R', 'M', 'C')
    ||| tag_is(t, 'R', 'O', 'T')
    ||| tag_is(t, 'R', 'P', 'M')
    ||| tag_is(t, 'R', 'S', 'A')
    ||| tag_is(t, 'R', 'S', 'D')
    ||| tag_is(t, 'R', 'T', 'E')
    ||| tag_is(t, 'S', 'F', '1')
    ||| tag_is(t, 'S', 'S', 'D')
    ||| tag_is(t, 'S', 'T', 'N')
    ||| tag_is(t, 'T', 'D', 'S')
    ||| tag_is(t, 'T', 'F', 'I')
    ||| tag_is(t, 'T', 'L', 'B')
    ||| tag_is(t, 'T', 'L', 'L')
    ||| tag_is(t, 'T', 'P', 'C')
    ||| tag_is(t, 'T', 'P', 'R')
    ||| tag_is(t, 'T', 'P', 'T')
    ||| tag_is(t, 'T', 'R', 'F')
    ||| tag_is(t, 'T', 'T', 'M')
    ||| tag_is(t, 'T', 'U', 'T')
    ||| tag_is(t, 'T', 'X', 'T')
    ||| tag_is(t, 'V', 'B', 'W')
    ||| tag_is(t, 'V', 'D', 'R')
    ||| tag_is(t, 'V', 'H', 'W')
    ||| tag_is(t, 'V', 'L', 'W')
    ||| tag_is(t, 'V', 'P', 'W')
    ||| tag_is(t, 'V', 'S', 'D')
    ||| tag_is(t, 'V', 'T', 'G')
    ||| tag_is(t, 'V', 'W', 'R')
    ||| tag_is(t, 'W', 'C', 'V')
    ||| tag_is(t, 'W', 'D', 'C')
    ||| tag_is(t, 'W', 'D', 'R')
    ||| tag_is(t, 'W', 'N', 'C')
    ||| tag_is(t, 'W', 'P', 'L')
    ||| tag_is(t, 'X', 'D', 'R')
    ||| tag_is(t, 'X', 'T', 'E')
    ||| tag_is(t, 'X', 'T', 'R')
    ||| tag_is(t, 'Z', 'D', 'A')
    ||| tag_is(t, 'Z', 'D', 'L')
    ||| tag_is(t, 'Z', 'F', 'O')
    ||| tag_is(t, 'Z', 'T', 'G')
    ||| tag_is(t, 'A', 'B', 'M')
    ||| tag_is(t, 'B', 'B', 'M')
    ||| tag_is(t, 'V', 'D', 'M')
    ||| tag_is(t, 'V', 'D', 'O')
}

/// One decoded sentence, classified by its message tag.
pub enum NmeaSentence {
    AAM(AamData),
    ABK(AbkData),
    ACA(AcaData),
    ACK(AckData),
    ACS(AcsData),
    ADS(AdsData),
    AIR(AirData),
    AKD(AkdData),
    ALA(AlaData),
    ALM(AlmData),
    ALR(AlrData),
    APA(ApaData),
    APB(ApbData),
    ASD(AsdData),
    BEC(BecData),
    BOD(BodData),
    BWC(BwcData),
    BWR(BwrData),
    BWW(BwwData),
    CEK(CekData),
    COP(CopData),
    CUR(CurData),
    DBK(DbkData),
    DBS(DbsData),
    DBT(DbtData),
    DCN(DcnData),
    DCR(DcrData),
    DDC(DdcData),
    DOR(DorData),
    DPT(DptData),
    DSC(DscData),
    DSE(DseData),
    DSI(DsiData),
    DSR(DsrData),
    DTM(DtmData),
    ETL(EtlData),
    EVE(EveData),
    FIR(FirData),
    FSI(FsiData),
    GBS(GbsData),
    GGA(GgaData),
    GLC(GlcData),
    GLL(GllData),
    GMP(GmpData),
    GNS(GnsData),
    GRS(GrsData),
    GSA(GsaData),
    GST(GstData),
    GSV(GsvData),
    GTD(GtdData),
    GXA(GxaData),
    HDG(HdgData),
    HDM(HdmData),
    HDT(HdtData),
    HFB(HfbData),
    HMR(HmrData),
    HMS(HmsData),
    HSC(HscData),
    HTC(HtcData),
    HTD(HtdData),
    ITS(ItsData),
    LCD(LcdData),
    LRF(LrfData),
    LR1(Lr1Data),
    LR2(Lr2Data),
    LR3(Lr3Data),
    MDA(MdaData),
    MLA(MlaData),
    MSK(MskData),
    MSS(MssData),
    MTW(MtwData),
    MWD(MwdData),
    MWV(MwvData),
    OLN(OlnData),
    OSD(OsdData),
    R00(R00Data),
    RLM(RlmData),
    RMA(RmaData),
    RMB(RmbData),
    RMC(RmcData),
    ROT(RotData),
    RPM(RpmData),
    RSA(RsaData),
    RSD(RsdData),
    RTE(RteData),
    SF1(Sf1Data),
    SSD(SsdData),
    STN(StnData),
    TDS(TdsData),
    TFI(TfiData),
    TLB(TlbData),
    TLL(TllData),
    TPC(TpcData),
    TPR(TprData),
    TPT(TptData),
    TRF(TrfData),
    TTM(TtmData),
    TUT(TutData),
    TXT(TxtData),
    VBW(VbwData),
    VDR(VdrData),
    VHW(VhwData),
    VLW(VlwData),
    VPW(VpwData),
    VSD(VsdData),
    VTG(VtgData),
    VWR(VwrData),
    WCV(WcvData),
    WDC(WdcData),
    WDR(WdrData),
    WNC(WncData),
    WPL(WplData),
    XDR(XdrData),
    XTE(XteData),
    XTR(XtrData),
    ZDA(ZdaData),
    ZDL(ZdlData),
    ZFO(ZfoData),
    ZTG(ZtgData),
    ABM(AbmData),
    BBM(BbmData),
    VDM(VdmData),
    VDO(VdoData),
    ERROR(ErrorData),
}

/// What classification promises: each variant carries a record identical to
/// the argument and is chosen exactly by its tag; the error variant appears
/// exactly for an unknown tag, with the fixed diagnostic and the original
/// line.
pub open spec fn spec_classified_ok(s: NmeaSentence, rv: SentenceView) -> bool {
    match s {
        NmeaSentence::AAM(d) => d.base@ == rv && tag_is(rv.message_type, 'A', 'A', 'M'),
        NmeaSentence::ABK(d) => d.base@ == rv && tag_is(rv.message_type, 'A', 'B', 'K'),
        NmeaSentence::ACA(d) => d.base@ == rv && tag_is(rv.message_type, 'A', 'C', 'A'),
        NmeaSentence::ACK(d) => d.base@ == rv && tag_is(rv.message_type, 'A', 'C', 'K'),
        NmeaSentence::ACS(d) => d.base@ == rv && tag_is(rv.message_type, 'A', 'C', 'S'),
        NmeaSentence::ADS(d) => d.base@ == rv && tag_is(rv.message_type, 'A', 'D', 'S'),
        NmeaSentence::AIR(d) => d.base@ == rv && tag_is(rv.message_type, 'A', 'I', 'R'),
        NmeaSentence::AKD(d) => d.base@ == rv && tag_is(rv.message_type, 'A', 'K', 'D'),
        NmeaSentence::ALA(d) => d.base@ == rv && tag_is(rv.message_type, 'A', 'L', 'A'),
        NmeaSentence::ALM(d) => d.base@ == rv && tag_is(rv.message_type, 'A', 'L', 'M'),
        NmeaSentence::ALR(d) => d.base@ == rv && tag_is(rv.message_type, 'A', 'L', 'R'),
        NmeaSentence::APA(d) => d.base@ == rv && tag_is(rv.message_type, 'A', 'P', 'A'),
        NmeaSentence::APB(d) => d.base@ == rv && tag_is(rv.message_type, 'A', 'P', 'B'),
        NmeaSentence::ASD(d) => d.base@ == rv && tag_is(rv.message_type, 'A', 'S', 'D'),
        NmeaSentence::BEC(d) => d.base@ == rv && tag_is(rv.message_type, 'B', 'E', 'C'),
        NmeaSentence::BOD(d) => d.base@ == rv && tag_is(rv.message_type, 'B', 'O', 'D'),
        NmeaSentence::BWC(d) => d.base@ == rv && tag_is(rv.message_type, 'B', 'W', 'C'),
        NmeaSentence::BWR(d) => d.base@ == rv && tag_is(rv.message_type, 'B', 'W', 'R'),
        NmeaSentence::BWW(d) => d.base@ == rv && tag_is(rv.message_type, 'B', 'W', 'W'),
        NmeaSentence::CEK(d) => d.base@ == rv && tag_is(rv.message_type, 'C', 'E', 'K'),
        NmeaSentence::COP(d) => d.base@ == rv && tag_is(rv.message_type, 'C', 'O', 'P'),
        NmeaSentence::CUR(d) => d.base@ == rv && tag_is(rv.message_type, 'C', 'U', 'R'),
        NmeaSentence::DBK(d) => d.base@ == rv && tag_is(rv.message_type, 'D', 'B', 'K'),
        NmeaSentence::DBS(d) => d.base@ == rv && tag_is(rv.message_type, 'D', 'B', 'S'),
        NmeaSentence::DBT(d) => d.base@ == rv && tag_is(rv.message_type, 'D', 'B', 'T'),
        NmeaSentence::DCN(d) => d.base@ == rv && tag_is(rv.message_type, 'D', 'C', 'N'),
        NmeaSentence::DCR(d) => d.base@ == rv && tag_is(rv.message_type, 'D', 'C', 'R'),
        NmeaSentence::DDC(d) => d.base@ == rv && tag_is(rv.message_type, 'D', 'D', 'C'),
        NmeaSentence::DOR(d) => d.base@ == rv && tag_is(rv.message_type, 'D', 'O', 'R'),
        NmeaSentence::DPT(d) => d.base@ == rv && tag_is(rv.message_type, 'D', 'P', 'T'),
        NmeaSentence::DSC(d) => d.base@ == rv && tag_is(rv.message_type, 'D', 'S', 'C'),
        NmeaSentence::DSE(d) => d.base@ == rv && tag_is(rv.message_type, 'D', 'S', 'E'),
        NmeaSentence::DSI(d) => d.base@ == rv && tag_is(rv.message_type, 'D', 'S', 'I'),
        NmeaSentence::DSR(d) => d.base@ == rv && tag_is(rv.message_type, 'D', 'S', 'R'),
        NmeaSentence::DTM(d) => d.base@ == rv && tag_is(rv.message_type, 'D', 'T', 'M'),
        NmeaSentence::ETL(d) => d.base@ == rv && tag_is(rv.message_type, 'E', 'T', 'L'),
        NmeaSentence::EVE(d) => d.base@ == rv && tag_is(rv.message_type, 'E', 'V', 'E'),
        NmeaSentence::FIR(d) => d.base@ == rv && tag_is(rv.message_type, 'F', 'I', 'R'),
        NmeaSentence::FSI(d) => d.base@ == rv && tag_is(rv.message_type, 'F', 'S', 'I'),
        NmeaSentence::GBS(d) => d.base@ == rv && tag_is(rv.message_type, 'G', 'B', 'S'),
        NmeaSentence::GGA(d) => d.base@ == rv && tag_is(rv.message_type, 'G', 'G', 'A'),
        NmeaSentence::GLC(d) => d.base@ == rv && tag_is(rv.message_type, 'G', 'L', 'C'),
        NmeaSentence::GLL(d) => d.base@ == rv && tag_is(rv.message_type, 'G', 'L', 'L'),
        NmeaSentence::GMP(d) => d.base@ == rv && tag_is(rv.message_type, 'G', 'M', 'P'),
        NmeaSentence::GNS(d) => d.base@ == rv && tag_is(rv.message_type, 'G', 'N', 'S'),
        NmeaSentence::GRS(d) => d.base@ == rv && tag_is(rv.message_type, 'G', 'R', 'S'),
        NmeaSentence::GSA(d) => d.base@ == rv && tag_is(rv.message_type, 'G', 'S', 'A'),
        NmeaSentence::GST(d) => d.base@ == rv && tag_is(rv.message_type, 'G', 'S', 'T'),
        NmeaSentence::GSV(d) => d.base@ == rv && tag_is(rv.message_type, 'G', 'S', 'V'),
        NmeaSentence::GTD(d) => d.base@ == rv && tag_is(rv.message_type, 'G', 'T', 'D'),
        NmeaSentence::GXA(d) => d.base@ == rv && tag_is(rv.message_type, 'G', 'X', 'A'),
        NmeaSentence::HDG(d) => d.base@ == rv && tag_is(rv.message_type, 'H', 'D', 'G'),
        NmeaSentence::HDM(d) => d.base@ == rv && tag_is(rv.message_type, 'H', 'D', 'M'),
        NmeaSentence::HDT(d) => d.base@ == rv && tag_is(rv.message_type, 'H', 'D', 'T'),
        NmeaSentence::HFB(d) => d.base@ == rv && tag_is(rv.message_type, 'H', 'F', 'B'),
        NmeaSentence::HMR(d) => d.base@ == rv && tag_is(rv.message_type, 'H', 'M', 'R'),
        NmeaSentence::HMS(d) => d.base@ == rv && tag_is(rv.message_type, 'H', 'M', 'S'),
        NmeaSentence::HSC(d) => d.base@ == rv && tag_is(rv.message_type, 'H', 'S', 'C'),
        NmeaSentence::HTC(d) => d.base@ == rv && tag_is(rv.message_type, 'H', 'T', 'C'),
        NmeaSentence::HTD(d) => d.base@ == rv && tag_is(rv.message_type, 'H', 'T', 'D'),
        NmeaSentence::ITS(d) => d.base@ == rv && tag_is(rv.message_type, 'I', 'T', 'S'),
        NmeaSentence::LCD(d) => d.base@ == rv && tag_is(rv.message_type, 'L', 'C', 'D'),
        NmeaSentence::LRF(d) => d.base@ == rv && tag_is(rv.message_type, 'L', 'R', 'F'),
        NmeaSentence::LR1(d) => d.base@ == rv && tag_is(rv.message_type, 'L', 'R', '1'),
        NmeaSentence::LR2(d) => d.base@ == rv && tag_is(rv.message_type, 'L', 'R', '2'),
        NmeaSentence::LR3(d) => d.base@ == rv && tag_is(rv.message_type, 'L', 'R', '3'),
        NmeaSentence::MDA(d) => d.base@ == rv && tag_is(rv.message_type, 'M', 'D', 'A'),
        NmeaSentence::MLA(d) => d.base@ == rv && tag_is(rv.message_type, 'M', 'L', 'A'),
        NmeaSentence::MSK(d) => d.base@ == rv && tag_is(rv.message_type, 'M', 'S', 'K'),
        NmeaSentence::MSS(d) => d.base@ == rv && tag_is(rv.message_type, 'M', 'S', 'S'),
        NmeaSentence::MTW(d) => d.base@ == rv && tag_is(rv.message_type, 'M', 'T', 'W'),
        NmeaSentence::MWD(d) => d.base@ == rv && tag_is(rv.message_type, 'M', 'W', 'D'),
        NmeaSentence::MWV(d) => d.base@ == rv && tag_is(rv.message_type, 'M', 'W', 'V'),
        NmeaSentence::OLN(d) => d.base@ == rv && tag_is(rv.message_type, 'O', 'L', 'N'),
        NmeaSentence::OSD(d) => d.base@ == rv && tag_is(rv.message_type, 'O', 'S', 'D'),
        NmeaSentence::R00(d) => d.base@ == rv && tag_is(rv.message_type, 'R', '0', '0'),
        NmeaSentence::RLM(d) => d.base@ == rv && tag_is(rv.message_type, 'R', 'L', 'M'),
        NmeaSentence::RMA(d) => d.base@ == rv && tag_is(rv.message_type, 'R', 'M', 'A'),
        NmeaSentence::RMB(d) => d.base@ == rv && tag_is(rv.message_type, 'R', 'M', 'B'),
        NmeaSentence::RMC(d) => d.base@ == rv && tag_is(rv.message_type, 'R', 'M', 'C'),
        NmeaSentence::ROT(d) => d.base@ == rv && tag_is(rv.message_type, 'R', 'O', 'T'),
        NmeaSentence::RPM(d) => d.base@ == rv && tag_is(rv.message_type, 'R', 'P', 'M'),
        NmeaSentence::RSA(d) => d.base@ == rv && tag_is(rv.message_type, 'R', 'S', 'A'),
        NmeaSentence::RSD(d) => d.base@ == rv && tag_is(rv.message_type, 'R', 'S', 'D'),
        NmeaSentence::RTE(d) => d.base@ == rv && tag_is(rv.message_type, 'R', 'T', 'E'),
        NmeaSentence::SF1(d) => d.base@ == rv && tag_is(rv.message_type, 'S', 'F', '1'),
        NmeaSentence::SSD(d) => d.base@ == rv && tag_is(rv.message_type, 'S', 'S', 'D'),
        NmeaSentence::STN(d) => d.base@ == rv && tag_is(rv.message_type, 'S', 'T', 'N'),
        NmeaSentence::TDS(d) => d.base@ == rv && tag_is(rv.message_type, 'T', 'D', 'S'),
        NmeaSentence::TFI(d) => d.base@ == rv && tag_is(rv.message_type, 'T', 'F', 'I'),
        NmeaSentence::TLB(d) => d.base@ == rv && tag_is(rv.message_type, 'T', 'L', 'B'),
        NmeaSentence::TLL(d) => d.base@ == rv && tag_is(rv.message_type, 'T', 'L', 'L'),
        NmeaSentence::TPC(d) => d.base@ == rv && tag_is(rv.message_type, 'T', 'P', 'C'),
        NmeaSentence::TPR(d) => d.base@ == rv && tag_is(rv.message_type, 'T', 'P', 'R'),
        NmeaSentence::TPT(d) => d.base@ == rv && tag_is(rv.message_type, 'T', 'P', 'T'),
        NmeaSentence::TRF(d) => d.base@ == rv && tag_is(rv.message_type, 'T', 'R', 'F'),
        NmeaSentence::TTM(d) => d.base@ == rv && tag_is(rv.message_type, 'T', 'T', 'M'),
        NmeaSentence::TUT(d) => d.base@ == rv && tag_is(rv.message_type, 'T', 'U', 'T'),
        NmeaSentence::TXT(d) => d.base@ == rv && tag_is(rv.message_type, 'T', 'X', 'T'),
        NmeaSentence::VBW(d) => d.base@ == rv && tag_is(rv.message_type, 'V', 'B', 'W'),
        NmeaSentence::VDR(d) => d.base@ == rv && tag_is(rv.message_type, 'V', 'D', 'R'),
        NmeaSentence::VHW(d) => d.base@ == rv && tag_is(rv.message_type, 'V', 'H', 'W'),
        NmeaSentence::VLW(d) => d.base@ == rv && tag_is(rv.message_type, 'V', 'L', 'W'),
        NmeaSentence::VPW(d) => d.base@ == rv && tag_is(rv.message_type, 'V', 'P', 'W'),
        NmeaSentence::VSD(d) => d.base@ == rv && tag_is(rv.message_type, 'V', 'S', 'D'),
        NmeaSentence::VTG(d) => d.base@ == rv && tag_is(rv.message_type, 'V', 'T', 'G'),
        NmeaSentence::VWR(d) => d.base@ == rv && tag_is(rv.message_type, 'V', 'W', 'R'),
        NmeaSentence::WCV(d) => d.base@ == rv && tag_is(rv.message_type, 'W', 'C', 'V'),
        NmeaSentence::WDC(d) => d.base@ == rv && tag_is(rv.message_type, 'W', 'D', 'C'),
        NmeaSentence::WDR(d) => d.base@ == rv && tag_is(rv.message_type, 'W', 'D', 'R'),
        NmeaSentence::WNC(d) => d.base@ == rv && tag_is(rv.message_type, 'W', 'N', 'C'),
        NmeaSentence::WPL(d) => d.base@ == rv && tag_is(rv.message_type, 'W', 'P', 'L'),
        NmeaSentence::XDR(d) => d.base@ == rv && tag_is(rv.message_type, 'X', 'D', 'R'),
        NmeaSentence::XTE(d) => d.base@ == rv && tag_is(rv.message_type, 'X', 'T', 'E'),
        NmeaSentence::XTR(d) => d.base@ == rv && tag_is(rv.message_type, 'X', 'T', 'R'),
        NmeaSentence::ZDA(d) => d.base@ == rv && tag_is(rv.message_type, 'Z', 'D', 'A'),
        NmeaSentence::ZDL(d) => d.base@ == rv && tag_is(rv.message_type, 'Z', 'D', 'L'),
        NmeaSentence::ZFO(d) => d.base@ == rv && tag_is(rv.message_type, 'Z', 'F', 'O'),
        NmeaSentence::ZTG(d) => d.base@ == rv && tag_is(rv.message_type, 'Z', 'T', 'G'),
        NmeaSentence::ABM(d) => d.base@ == rv && tag_is(rv.message_type, 'A', 'B', 'M'),
        NmeaSentence::BBM(d) => d.base@ == rv && tag_is(rv.message_type, 'B', 'B', 'M'),
        NmeaSentence::VDM(d) => d.base@ == rv && tag_is(rv.message_type, 'V', 'D', 'M'),
        NmeaSentence::VDO(d) => d.base@ == rv && tag_is(rv.message_type, 'V', 'D', 'O'),
        NmeaSentence::ERROR(e) => !spec_known_tag(rv.message_type) && e.error@
            == unknown_tag_error() && e.message@ == rv.original,
    }
}

/// The error variant for a record whose tag matches no known kind.
fn make_error(record: NmeaBaseSentence) -> (r: NmeaSentence)
    ensures
        ({
            match r {
                NmeaSentence::ERROR(e) => e.error@ == unknown_tag_error() && e.message@
                    == record@.original,
                _ => false,
            }
        }),
{
    let message = match record.original() {
        Some(s) => s.clone(),
        None => String::new(),
    };
    proof {
        if record@.original.len() == 0 {
            assert(message@ =~= record@.original);
        }
    }
    NmeaSentence::ERROR(
        ErrorData { error: String::from_str("Invalid or unknown message type"), message },
    )
}

/// Classifies a decoded record by exact match of its message tag. A malformed
/// record has the empty tag and therefore always classifies as the error
/// variant.
pub fn classify(record: &NmeaBaseSentence) -> (r: NmeaSentence)
    ensures
        spec_classified_ok(r, record@),
{
    let cloned = record.clone();
    let tag = record.message_type();
    let t = tag.as_str();
    if t.unicode_len() == 3 {
        let c0 = t.get_char(0);
        let c1 = t.get_char(1);
        let c2 = t.get_char(2);
        match (c0, c1, c2) {
            ('A', 'A', 'M') => NmeaSentence::AAM(AamData { base: cloned }),
            ('A', 'B', 'K') => NmeaSentence::ABK(AbkData { base: cloned }),
            ('A', 'C', 'A') => NmeaSentence::ACA(AcaData { base: cloned }),
            ('A', 'C', 'K') => NmeaSentence::ACK(AckData { base: cloned }),
            ('A', 'C', 'S') => NmeaSentence::ACS(AcsData { base: cloned }),
            ('A', 'D', 'S') => NmeaSentence::ADS(AdsData { base: cloned }),
            ('A', 'I', 'R') => NmeaSentence::AIR(AirData { base: cloned }),
            ('A', 'K', 'D') => NmeaSentence::AKD(AkdData { base: cloned }),
            ('A', 'L', 'A') => NmeaSentence::ALA(AlaData { base: cloned }),
            ('A', 'L', 'M') => NmeaSentence::ALM(AlmData { base: cloned }),
            ('A', 'L', 'R') => NmeaSentence::ALR(AlrData { base: cloned }),
            ('A', 'P', 'A') => NmeaSentence::APA(ApaData { base: cloned }),
            ('A', 'P', 'B') => NmeaSentence::APB(ApbData { base: cloned }),
            ('A', 'S', 'D') => NmeaSentence::ASD(AsdData { base: cloned }),
            ('B', 'E', 'C') => NmeaSentence::BEC(BecData { base: cloned }),
            ('B', 'O', 'D') => NmeaSentence::BOD(BodData { base: cloned }),
            ('B', 'W', 'C') => NmeaSentence::BWC(BwcData { base: cloned }),
            ('B', 'W', 'R') => NmeaSentence::BWR(BwrData { base: cloned }),
            ('B', 'W', 'W') => NmeaSentence::BWW(BwwData { base: cloned }),
            ('C', 'E', 'K') => NmeaSentence::CEK(CekData { base: cloned }),
            ('C', 'O', 'P') => NmeaSentence::COP(CopData { base: cloned }),
            ('C', 'U', 'R') => NmeaSentence::CUR(CurData { base: cloned }),
            ('D', 'B', 'K') => NmeaSentence::DBK(DbkData { base: cloned }),
            ('D', 'B', 'S') => NmeaSentence::DBS(DbsData { base: cloned }),
            ('D', 'B', 'T') => NmeaSentence::DBT(DbtData { base: cloned }),
            ('D', 'C', 'N') => NmeaSentence::DCN(DcnData { base: cloned }),
            ('D', 'C', 'R') => NmeaSentence::DCR(DcrData { base: cloned }),
            ('D', 'D', 'C') => NmeaSentence::DDC(DdcData { base: cloned }),
            ('D', 'O', 'R') => NmeaSentence::DOR(DorData { base: cloned }),
            ('D', 'P', 'T') => NmeaSentence::DPT(DptData { base: cloned }),
            ('D', 'S', 'C') => NmeaSentence::DSC(DscData { base: cloned }),
            ('D', 'S', 'E') => NmeaSentence::DSE(DseData { base: cloned }),
            ('D', 'S', 'I') => NmeaSentence::DSI(DsiData { base: cloned }),
            ('D', 'S', 'R') => NmeaSentence::DSR(DsrData { base: cloned }),
            ('D', 'T', 'M') => NmeaSentence::DTM(DtmData { base: cloned }),
            ('E', 'T', 'L') => NmeaSentence::ETL(EtlData { base: cloned }),
            ('E', 'V', 'E') => NmeaSentence::EVE(EveData { base: cloned }),
            ('F', 'I', 'R') => NmeaSentence::FIR(FirData { base: cloned }),
            ('F', 'S', 'I') => NmeaSentence::FSI(FsiData { base: cloned }),
            ('G', 'B', 'S') => NmeaSentence::GBS(GbsData { base: cloned }),
            ('G', 'G', 'A') => NmeaSentence::GGA(GgaData { base: cloned }),
            ('G', 'L', 'C') => NmeaSentence::GLC(GlcData { base: cloned }),
            ('G', 'L', 'L') => NmeaSentence::GLL(GllData { base: cloned }),
            ('G', 'M', 'P') => NmeaSentence::GMP(GmpData { base: cloned }),
            ('G', 'N', 'S') => NmeaSentence::GNS(GnsData { base: cloned }),
            ('G', 'R', 'S') => NmeaSentence::GRS(GrsData { base: cloned }),
            ('G', 'S', 'A') => NmeaSentence::GSA(GsaData { base: cloned }),
            ('G', 'S', 'T') => NmeaSentence::GST(GstData { base: cloned }),
            ('G', 'S', 'V') => NmeaSentence::GSV(GsvData { base: cloned }),
            ('G', 'T', 'D') => NmeaSentence::GTD(GtdData { base: cloned }),
            ('G', 'X', 'A') => NmeaSentence::GXA(GxaData { base: cloned }),
            ('H', 'D', 'G') => NmeaSentence::HDG(HdgData { base: cloned }),
            ('H', 'D', 'M') => NmeaSentence::HDM(HdmData { base: cloned }),
            ('H', 'D', 'T') => NmeaSentence::HDT(HdtData { base: cloned }),
            ('H', 'F', 'B') => NmeaSentence::HFB(HfbData { base: cloned }),
            ('H', 'M', 'R') => NmeaSentence::HMR(HmrData { base: cloned }),
            ('H', 'M', 'S') => NmeaSentence::HMS(HmsData { base: cloned }),
            ('H', 'S', 'C') => NmeaSentence::HSC(HscData { base: cloned }),
            ('H', 'T', 'C') => NmeaSentence::HTC(HtcData { base: cloned }),
            ('H', 'T', 'D') => NmeaSentence::HTD(HtdData { base: cloned }),
            ('I', 'T', 'S') => NmeaSentence::ITS(ItsData { base: cloned }),
            ('L', 'C', 'D') => NmeaSentence::LCD(LcdData { base: cloned }),
            ('L', 'R', 'F') => NmeaSentence::LRF(LrfData { base: cloned }),
            ('L', 'R', '1') => NmeaSentence::LR1(Lr1Data { base: cloned }),
            ('L', 'R', '2') => NmeaSentence::LR2(Lr2Data { base: cloned }),
            ('L', 'R', '3') => NmeaSentence::LR3(Lr3Data { base: cloned }),
            ('M', 'D', 'A') => NmeaSentence::MDA(MdaData { base: cloned }),
            ('M', 'L', 'A') => NmeaSentence::MLA(MlaData { base: cloned }),
            ('M', 'S', 'K') => NmeaSentence::MSK(MskData { base: cloned }),
            ('M', 'S', 'S') => NmeaSentence::MSS(MssData { base: cloned }),
            ('M', 'T', 'W') => NmeaSentence::MTW(MtwData { base: cloned }),
            ('M', 'W', 'D') => NmeaSentence::MWD(MwdData { base: cloned }),
            ('M', 'W', 'V') => NmeaSentence::MWV(MwvData { base: cloned }),
            ('O', 'L', 'N') => NmeaSentence::OLN(OlnData { base: cloned }),
            ('O', 'S', 'D') => NmeaSentence::OSD(OsdData { base: cloned }),
            ('R', '0', '0') => NmeaSentence::R00(R00Data { base: cloned }),
            ('R', 'L', 'M') => NmeaSentence::RLM(RlmData { base: cloned }),
            ('R', 'M', 'A') => NmeaSentence::RMA(RmaData { base: cloned }),
            ('R', 'M', 'B') => NmeaSentence::RMB(RmbData { base: cloned }),
            ('R', 'M', 'C') => NmeaSentence::RMC(RmcData { base: cloned }),
            ('R', 'O', 'T') => NmeaSentence::ROT(RotData { base: cloned }),
            ('R', 'P', 'M') => NmeaSentence::RPM(RpmData { base: cloned }),
            ('R', 'S', 'A') => NmeaSentence::RSA(RsaData { base: cloned }),
            ('R', 'S', 'D') => NmeaSentence::RSD(RsdData { base: cloned }),
            ('R', 'T', 'E') => NmeaSentence::RTE(RteData { base: cloned }),
            ('S', 'F', '1') => NmeaSentence::SF1(Sf1Data { base: cloned }),
            ('S', 'S', 'D') => NmeaSentence::SSD(SsdData { base: cloned }),
            ('S', 'T', 'N') => NmeaSentence::STN(StnData { base: cloned }),
            ('T', 'D', 'S') => NmeaSentence::TDS(TdsData { base: cloned }),
            ('T', 'F', 'I') => NmeaSentence::TFI(TfiData { base: cloned }),
            ('T', 'L', 'B') => NmeaSentence::TLB(TlbData { base: cloned }),
            ('T', 'L', 'L') => NmeaSentence::TLL(TllData { base: cloned }),
            ('T', 'P', 'C') => NmeaSentence::TPC(TpcData { base: cloned }),
            ('T', 'P', 'R') => NmeaSentence::TPR(TprData { base: cloned }),
            ('T', 'P', 'T') => NmeaSentence::TPT(TptData { base: cloned }),
            ('T', 'R', 'F') => NmeaSentence::TRF(TrfData { base: cloned }),
            ('T', 'T', 'M') => NmeaSentence::TTM(TtmData { base: cloned }),
            ('T', 'U', 'T') => NmeaSentence::TUT(TutData { base: cloned }),
            ('T', 'X', 'T') => NmeaSentence::TXT(TxtData { base: cloned }),
            ('V', 'B', 'W') => NmeaSentence::VBW(VbwData { base: cloned }),
            ('V', 'D', 'R') => NmeaSentence::VDR(VdrData { base: cloned }),
            ('V', 'H', 'W') => NmeaSentence::VHW(VhwData { base: cloned }),
            ('V', 'L', 'W') => NmeaSentence::VLW(VlwData { base: cloned }),
            ('V', 'P', 'W') => NmeaSentence::VPW(VpwData { base: cloned }),
            ('V', 'S', 'D') => NmeaSentence::VSD(VsdData { base: cloned }),
            ('V', 'T', 'G') => NmeaSentence::VTG(VtgData { base: cloned }),
            ('V', 'W', 'R') => NmeaSentence::VWR(VwrData { base: cloned }),
            ('W', 'C', 'V') => NmeaSentence::WCV(WcvData { base: cloned }),
            ('W', 'D', 'C') => NmeaSentence::WDC(WdcData { base: cloned }),
            ('W', 'D', 'R') => NmeaSentence::WDR(WdrData { base: cloned }),
            ('W', 'N', 'C') => NmeaSentence::WNC(WncData { base: cloned }),
            ('W', 'P', 'L') => NmeaSentence::WPL(WplData { base: cloned }),
            ('X', 'D', 'R') => NmeaSentence::XDR(XdrData { base: cloned }),
            ('X', 'T', 'E') => NmeaSentence::XTE(XteData { base: cloned }),
            ('X', 'T', 'R') => NmeaSentence::XTR(XtrData { base: cloned }),
            ('Z', 'D', 'A') => NmeaSentence::ZDA(ZdaData { base: cloned }),
            ('Z', 'D', 'L') => NmeaSentence::ZDL(ZdlData { base: cloned }),
            ('Z', 'F', 'O') => NmeaSentence::ZFO(ZfoData { base: cloned }),
            ('Z', 'T', 'G') => NmeaSentence::ZTG(ZtgData { base: cloned }),
            ('A', 'B', 'M') => NmeaSentence::ABM(AbmData { base: cloned }),
            ('B', 'B', 'M') => NmeaSentence::BBM(BbmData { base: cloned }),
            ('V', 'D', 'M') => NmeaSentence::VDM(VdmData { base: cloned }),
            ('V', 'D', 'O') => NmeaSentence::VDO(VdoData { base: cloned }),
            _ => make_error(cloned),
        }
    } else {
        make_error(cloned)
    }
}

/// Decodes one line and classifies the result.
pub fn classify_line(line: &str) -> (r: NmeaSentence)
    ensures
        spec_classified_ok(r, spec_decode(line@)),
{
    let base = NmeaBaseSentence::decode(line);
    classify(&base)
}

} // verus!
