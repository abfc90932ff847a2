//! The `SET_CONFIG` payload and its answer, and the answers to the other
//! commands.

use vstd::prelude::*;

use donglora_protocol::{Modulation as WireModulation, SetConfigResult as WireResult};

use crate::codec::{
    answers_empty, byte_of_flag, byte_of_signed, bytes16, bytes32, info_payload, le16, le32, parse_ok_empty,
    parse_ok_info, signed,
};
use crate::modulation::{
    sync_word_of, FlrcBitrate, FlrcBt, FlrcCodingRate, FlrcConfig, FlrcPreambleLen, FskConfig, LrFhssBandwidth,
    LrFhssCodingRate, LrFhssConfig, LrFhssGrid, MAX_SYNC_WORD_LEN,
};
use crate::protocol::{
    Info, InfoView, LoRaBandwidth, LoRaCodingRate, LoRaConfig, LoRaHeaderMode, Modulation, Owner, SetConfigResult,
    SetConfigResultCode, MODULATION_FLRC, MODULATION_FSK, MODULATION_LORA, MODULATION_LR_FHSS, TYPE_GET_INFO,
    TYPE_SET_CONFIG,
};

verus! {

// ---------------------------------------------------------------------
// Parameters with wire numbers
// ---------------------------------------------------------------------

/// LoRa parameters with wire numbers in place of enumerations.
#[derive(Clone, Copy)]
pub struct LoRaFields {
    pub freq_hz: u32,
    pub sf: u8,
    pub bw: u8,
    pub cr: u8,
    pub preamble_len: u16,
    pub sync_word: u16,
    pub tx_power_dbm: i8,
    pub header_mode: u8,
    pub payload_crc: bool,
    pub iq_invert: bool,
}

/// LR-FHSS parameters with wire numbers in place of enumerations.
#[derive(Clone, Copy)]
pub struct LrFhssFields {
    pub freq_hz: u32,
    pub bw: u8,
    pub cr: u8,
    pub grid: u8,
    pub hopping: bool,
    pub tx_power_dbm: i8,
}

/// FLRC parameters with wire numbers in place of enumerations.
#[derive(Clone, Copy)]
pub struct FlrcFields {
    pub freq_hz: u32,
    pub bitrate: u8,
    pub cr: u8,
    pub bt: u8,
    pub preamble_len: u8,
    pub sync_word: u32,
    pub tx_power_dbm: i8,
}

impl LoRaFields {
    /// Every wire number is assigned.
    pub open spec fn assigned(self) -> bool {
        self.bw < 14 && self.cr < 4 && self.header_mode < 2
    }
}

impl LrFhssFields {
    /// Every wire number is assigned.
    pub open spec fn assigned(self) -> bool {
        self.bw < 8 && self.cr < 4 && self.grid < 2
    }
}

impl FlrcFields {
    /// Every wire number is assigned.
    pub open spec fn assigned(self) -> bool {
        self.bitrate < 8 && self.cr < 3 && self.bt < 3 && self.preamble_len < 7
    }
}

// ---------------------------------------------------------------------
// Layout
// ---------------------------------------------------------------------

/// The `SET_CONFIG` payload of LoRa parameters: the modulation identifier,
/// then fifteen bytes.
pub open spec fn lora_bytes(c: LoRaFields) -> Seq<u8> {
    seq![MODULATION_LORA] + bytes32(c.freq_hz) + seq![c.sf, c.bw, c.cr] + bytes16(c.preamble_len) + bytes16(c.sync_word)
        + seq![byte_of_signed(c.tx_power_dbm), c.header_mode, byte_of_flag(c.payload_crc), byte_of_flag(c.iq_invert)]
}

/// The `SET_CONFIG` payload of FSK parameters: the modulation identifier,
/// sixteen bytes, and the sync word as far as it is used. A sync word that is
/// said to be longer than it can be is refused.
pub open spec fn fsk_bytes(c: FskConfig) -> Option<Seq<u8>> {
    if c.sync_word_len <= MAX_SYNC_WORD_LEN {
        Some(
            seq![MODULATION_FSK] + bytes32(c.freq_hz) + bytes32(c.bitrate_bps) + bytes32(c.freq_dev_hz) + seq![c.rx_bw]
                + bytes16(c.preamble_len) + seq![c.sync_word_len] + c.sync_word@.take(c.sync_word_len as int),
        )
    } else {
        None
    }
}

/// The `SET_CONFIG` payload of LR-FHSS parameters: the modulation identifier,
/// then ten bytes, of which the last is zero.
pub open spec fn lr_fhss_bytes(c: LrFhssFields) -> Seq<u8> {
    seq![MODULATION_LR_FHSS] + bytes32(c.freq_hz) + seq![
        c.bw,
        c.cr,
        c.grid,
        byte_of_flag(c.hopping),
        byte_of_signed(c.tx_power_dbm),
        0u8,
    ]
}

/// The `SET_CONFIG` payload of FLRC parameters: the modulation identifier,
/// then thirteen bytes.
pub open spec fn flrc_bytes(c: FlrcFields) -> Seq<u8> {
    seq![MODULATION_FLRC] + bytes32(c.freq_hz) + seq![c.bitrate, c.cr, c.bt, c.preamble_len] + bytes32(c.sync_word) + seq![
        byte_of_signed(c.tx_power_dbm),
    ]
}

/// The answer to `SET_CONFIG` with a result, an owner and the payload `b`.
pub open spec fn answer_bytes(result: u8, owner: u8, b: Seq<u8>) -> Seq<u8> {
    seq![result, owner] + b
}

/// `b` answers `SET_CONFIG` with an assigned result and owner, and goes on
/// with the modulation `id`.
pub open spec fn answers_with(cmd_type: u8, b: Seq<u8>, id: u8) -> bool {
    cmd_type == TYPE_SET_CONFIG && b.len() >= 3 && b[0] < 3 && b[1] < 3 && b[2] == id
}

/// What an answer with LoRa parameters says: result, owner and parameters.
pub open spec fn lora_answer(cmd_type: u8, b: Seq<u8>) -> Option<(u8, u8, LoRaFields)> {
    if answers_with(cmd_type, b, MODULATION_LORA) && b.len() == 18 && b[8] < 14 && b[9] < 4 && b[15] < 2 && b[16] < 2
        && b[17] < 2 {
        Some(
            (
                b[0],
                b[1],
                LoRaFields {
                    freq_hz: le32(b, 3) as u32,
                    sf: b[7],
                    bw: b[8],
                    cr: b[9],
                    preamble_len: le16(b, 10) as u16,
                    sync_word: le16(b, 12) as u16,
                    tx_power_dbm: signed(b[14] as int, 0x80) as i8,
                    header_mode: b[15],
                    payload_crc: b[16] == 1,
                    iq_invert: b[17] == 1,
                },
            ),
        )
    } else {
        None
    }
}

/// What an answer with FSK parameters says.
pub open spec fn fsk_answer(cmd_type: u8, b: Seq<u8>) -> Option<(u8, u8, FskConfig)> {
    if answers_with(cmd_type, b, MODULATION_FSK) && b.len() >= 19 && b[18] <= MAX_SYNC_WORD_LEN && b.len() == 19 + b[18] {
        Some(
            (
                b[0],
                b[1],
                FskConfig {
                    freq_hz: le32(b, 3) as u32,
                    bitrate_bps: le32(b, 7) as u32,
                    freq_dev_hz: le32(b, 11) as u32,
                    rx_bw: b[15],
                    preamble_len: le16(b, 16) as u16,
                    sync_word_len: b[18],
                    sync_word: sync_word_of(b.skip(19)),
                },
            ),
        )
    } else {
        None
    }
}

/// What an answer with LR-FHSS parameters says.
pub open spec fn lr_fhss_answer(cmd_type: u8, b: Seq<u8>) -> Option<(u8, u8, LrFhssFields)> {
    if answers_with(cmd_type, b, MODULATION_LR_FHSS) && b.len() == 13 && b[7] < 8 && b[8] < 4 && b[9] < 2 && b[10] < 2
        && b[12] == 0 {
        Some(
            (
                b[0],
                b[1],
                LrFhssFields {
                    freq_hz: le32(b, 3) as u32,
                    bw: b[7],
                    cr: b[8],
                    grid: b[9],
                    hopping: b[10] == 1,
                    tx_power_dbm: signed(b[11] as int, 0x80) as i8,
                },
            ),
        )
    } else {
        None
    }
}

/// What an answer with FLRC parameters says.
pub open spec fn flrc_answer(cmd_type: u8, b: Seq<u8>) -> Option<(u8, u8, FlrcFields)> {
    if answers_with(cmd_type, b, MODULATION_FLRC) && b.len() == 16 && b[7] < 8 && b[8] < 3 && b[9] < 3 && b[10] < 7 {
        Some(
            (
                b[0],
                b[1],
                FlrcFields {
                    freq_hz: le32(b, 3) as u32,
                    bitrate: b[7],
                    cr: b[8],
                    bt: b[9],
                    preamble_len: b[10],
                    sync_word: le32(b, 11) as u32,
                    tx_power_dbm: signed(b[15] as int, 0x80) as i8,
                },
            ),
        )
    } else {
        None
    }
}

// ---------------------------------------------------------------------
// Encoding
// ---------------------------------------------------------------------

/// The views of an optional payload.
pub open spec fn bytes_view(b: Option<Vec<u8>>) -> Option<Seq<u8>> {
    match b {
        Some(v) => Some(v@),
        None => None,
    }
}

/// `donglora_protocol::Command::encode_payload` on `SetConfig` with LoRa
/// parameters, whose wire numbers are assigned: the bytes of `lora_bytes`.
#[verifier::external_body]
fn encode_lora(c: LoRaFields) -> (r: Option<Vec<u8>>)
    requires
        c.assigned(),
    ensures
        bytes_view(r) == Some(lora_bytes(c)),
{
    let m = WireModulation::LoRa(donglora_protocol::LoRaConfig {
        freq_hz: c.freq_hz, sf: c.sf, preamble_len: c.preamble_len, sync_word: c.sync_word,
        tx_power_dbm: c.tx_power_dbm, payload_crc: c.payload_crc, iq_invert: c.iq_invert,
        bw: donglora_protocol::LoRaBandwidth::from_u8(c.bw)?,
        cr: donglora_protocol::LoRaCodingRate::from_u8(c.cr)?,
        header_mode: donglora_protocol::LoRaHeaderMode::from_u8(c.header_mode)?,
    });
    let mut buf = [0u8; donglora_protocol::MAX_PAYLOAD_FIELD];
    donglora_protocol::Command::SetConfig(m).encode_payload(&mut buf).ok().map(|n| buf[..n].to_vec())
}

/// `donglora_protocol::Command::encode_payload` on `SetConfig` with FSK
/// parameters: the bytes of `fsk_bytes`, or `None` where it refuses the length
/// of the sync word.
#[verifier::external_body]
fn encode_fsk(c: FskConfig) -> (r: Option<Vec<u8>>)
    ensures
        bytes_view(r) == fsk_bytes(c),
{
    let m = WireModulation::FskGfsk(donglora_protocol::FskConfig {
        freq_hz: c.freq_hz, bitrate_bps: c.bitrate_bps, freq_dev_hz: c.freq_dev_hz, rx_bw: c.rx_bw,
        preamble_len: c.preamble_len, sync_word_len: c.sync_word_len, sync_word: c.sync_word,
    });
    let mut buf = [0u8; donglora_protocol::MAX_PAYLOAD_FIELD];
    donglora_protocol::Command::SetConfig(m).encode_payload(&mut buf).ok().map(|n| buf[..n].to_vec())
}

/// `donglora_protocol::Command::encode_payload` on `SetConfig` with LR-FHSS
/// parameters, whose wire numbers are assigned: the bytes of `lr_fhss_bytes`.
#[verifier::external_body]
fn encode_lr_fhss(c: LrFhssFields) -> (r: Option<Vec<u8>>)
    requires
        c.assigned(),
    ensures
        bytes_view(r) == Some(lr_fhss_bytes(c)),
{
    let m = WireModulation::LrFhss(donglora_protocol::LrFhssConfig {
        freq_hz: c.freq_hz, hopping: c.hopping, tx_power_dbm: c.tx_power_dbm,
        bw: donglora_protocol::LrFhssBandwidth::from_u8(c.bw)?,
        cr: donglora_protocol::LrFhssCodingRate::from_u8(c.cr)?,
        grid: donglora_protocol::LrFhssGrid::from_u8(c.grid)?,
    });
    let mut buf = [0u8; donglora_protocol::MAX_PAYLOAD_FIELD];
    donglora_protocol::Command::SetConfig(m).encode_payload(&mut buf).ok().map(|n| buf[..n].to_vec())
}

/// `donglora_protocol::Command::encode_payload` on `SetConfig` with FLRC
/// parameters, whose wire numbers are assigned: the bytes of `flrc_bytes`.
#[verifier::external_body]
fn encode_flrc(c: FlrcFields) -> (r: Option<Vec<u8>>)
    requires
        c.assigned(),
    ensures
        bytes_view(r) == Some(flrc_bytes(c)),
{
    let m = WireModulation::Flrc(donglora_protocol::FlrcConfig {
        freq_hz: c.freq_hz, sync_word: c.sync_word, tx_power_dbm: c.tx_power_dbm,
        bitrate: donglora_protocol::FlrcBitrate::from_u8(c.bitrate)?,
        cr: donglora_protocol::FlrcCodingRate::from_u8(c.cr)?,
        bt: donglora_protocol::FlrcBt::from_u8(c.bt)?,
        preamble_len: donglora_protocol::FlrcPreambleLen::from_u8(c.preamble_len)?,
    });
    let mut buf = [0u8; donglora_protocol::MAX_PAYLOAD_FIELD];
    donglora_protocol::Command::SetConfig(m).encode_payload(&mut buf).ok().map(|n| buf[..n].to_vec())
}

impl LoRaConfig {
    /// The parameters with wire numbers.
    pub open spec fn fields(self) -> LoRaFields {
        LoRaFields {
            freq_hz: self.freq_hz,
            sf: self.sf,
            bw: self.bw.number(),
            cr: self.cr.number(),
            preamble_len: self.preamble_len,
            sync_word: self.sync_word,
            tx_power_dbm: self.tx_power_dbm,
            header_mode: self.header_mode.number(),
            payload_crc: self.payload_crc,
            iq_invert: self.iq_invert,
        }
    }

    /// The parameters that assigned wire numbers stand for.
    pub open spec fn of_fields(f: LoRaFields) -> LoRaConfig {
        LoRaConfig {
            freq_hz: f.freq_hz,
            sf: f.sf,
            bw: LoRaBandwidth::of(f.bw),
            cr: LoRaCodingRate::of(f.cr),
            preamble_len: f.preamble_len,
            sync_word: f.sync_word,
            tx_power_dbm: f.tx_power_dbm,
            header_mode: LoRaHeaderMode::of(f.header_mode),
            payload_crc: f.payload_crc,
            iq_invert: f.iq_invert,
        }
    }

    fn to_fields(&self) -> (r: LoRaFields)
        ensures
            r == self.fields(),
            r.assigned(),
    {
        LoRaFields {
            freq_hz: self.freq_hz,
            sf: self.sf,
            bw: self.bw.as_u8(),
            cr: self.cr.as_u8(),
            preamble_len: self.preamble_len,
            sync_word: self.sync_word,
            tx_power_dbm: self.tx_power_dbm,
            header_mode: self.header_mode.as_u8(),
            payload_crc: self.payload_crc,
            iq_invert: self.iq_invert,
        }
    }

    fn from_fields(f: LoRaFields) -> (r: Option<LoRaConfig>)
        ensures
            f.assigned() ==> r == Some(LoRaConfig::of_fields(f)),
    {
        Some(
            LoRaConfig {
                freq_hz: f.freq_hz,
                sf: f.sf,
                bw: LoRaBandwidth::from_u8(f.bw)?,
                cr: LoRaCodingRate::from_u8(f.cr)?,
                preamble_len: f.preamble_len,
                sync_word: f.sync_word,
                tx_power_dbm: f.tx_power_dbm,
                header_mode: LoRaHeaderMode::from_u8(f.header_mode)?,
                payload_crc: f.payload_crc,
                iq_invert: f.iq_invert,
            },
        )
    }
}

impl LrFhssConfig {
    /// The parameters with wire numbers.
    pub open spec fn fields(self) -> LrFhssFields {
        LrFhssFields {
            freq_hz: self.freq_hz,
            bw: self.bw.number(),
            cr: self.cr.number(),
            grid: self.grid.number(),
            hopping: self.hopping,
            tx_power_dbm: self.tx_power_dbm,
        }
    }

    /// The parameters that assigned wire numbers stand for.
    pub open spec fn of_fields(f: LrFhssFields) -> LrFhssConfig {
        LrFhssConfig {
            freq_hz: f.freq_hz,
            bw: LrFhssBandwidth::of(f.bw),
            cr: LrFhssCodingRate::of(f.cr),
            grid: LrFhssGrid::of(f.grid),
            hopping: f.hopping,
            tx_power_dbm: f.tx_power_dbm,
        }
    }

    fn to_fields(&self) -> (r: LrFhssFields)
        ensures
            r == self.fields(),
            r.assigned(),
    {
        LrFhssFields {
            freq_hz: self.freq_hz,
            bw: self.bw.as_u8(),
            cr: self.cr.as_u8(),
            grid: self.grid.as_u8(),
            hopping: self.hopping,
            tx_power_dbm: self.tx_power_dbm,
        }
    }

    fn from_fields(f: LrFhssFields) -> (r: Option<LrFhssConfig>)
        ensures
            f.assigned() ==> r == Some(LrFhssConfig::of_fields(f)),
    {
        Some(
            LrFhssConfig {
                freq_hz: f.freq_hz,
                bw: LrFhssBandwidth::from_u8(f.bw)?,
                cr: LrFhssCodingRate::from_u8(f.cr)?,
                grid: LrFhssGrid::from_u8(f.grid)?,
                hopping: f.hopping,
                tx_power_dbm: f.tx_power_dbm,
            },
        )
    }
}

impl FlrcConfig {
    /// The parameters with wire numbers.
    pub open spec fn fields(self) -> FlrcFields {
        FlrcFields {
            freq_hz: self.freq_hz,
            bitrate: self.bitrate.number(),
            cr: self.cr.number(),
            bt: self.bt.number(),
            preamble_len: self.preamble_len.number(),
            sync_word: self.sync_word,
            tx_power_dbm: self.tx_power_dbm,
        }
    }

    /// The parameters that assigned wire numbers stand for.
    pub open spec fn of_fields(f: FlrcFields) -> FlrcConfig {
        FlrcConfig {
            freq_hz: f.freq_hz,
            bitrate: FlrcBitrate::of(f.bitrate),
            cr: FlrcCodingRate::of(f.cr),
            bt: FlrcBt::of(f.bt),
            preamble_len: FlrcPreambleLen::of(f.preamble_len),
            sync_word: f.sync_word,
            tx_power_dbm: f.tx_power_dbm,
        }
    }

    fn to_fields(&self) -> (r: FlrcFields)
        ensures
            r == self.fields(),
            r.assigned(),
    {
        FlrcFields {
            freq_hz: self.freq_hz,
            bitrate: self.bitrate.as_u8(),
            cr: self.cr.as_u8(),
            bt: self.bt.as_u8(),
            preamble_len: self.preamble_len.as_u8(),
            sync_word: self.sync_word,
            tx_power_dbm: self.tx_power_dbm,
        }
    }

    fn from_fields(f: FlrcFields) -> (r: Option<FlrcConfig>)
        ensures
            f.assigned() ==> r == Some(FlrcConfig::of_fields(f)),
    {
        Some(
            FlrcConfig {
                freq_hz: f.freq_hz,
                bitrate: FlrcBitrate::from_u8(f.bitrate)?,
                cr: FlrcCodingRate::from_u8(f.cr)?,
                bt: FlrcBt::from_u8(f.bt)?,
                preamble_len: FlrcPreambleLen::from_u8(f.preamble_len)?,
                sync_word: f.sync_word,
                tx_power_dbm: f.tx_power_dbm,
            },
        )
    }
}

impl Modulation {
    /// The payload of `SET_CONFIG`; `None` for an FSK configuration whose sync
    /// word is said to be longer than it can be.
    pub open spec fn payload(self) -> Option<Seq<u8>> {
        match self {
            Modulation::LoRa(c) => Some(lora_bytes(c.fields())),
            Modulation::FskGfsk(c) => fsk_bytes(c),
            Modulation::LrFhss(c) => Some(lr_fhss_bytes(c.fields())),
            Modulation::Flrc(c) => Some(flrc_bytes(c.fields())),
        }
    }

    /// Encodes the payload of `SET_CONFIG`.
    pub fn encode(&self) -> (r: Option<Vec<u8>>)
        ensures
            bytes_view(r) == self.payload(),
            r is Some ==> r->0@.len() <= 25,
    {
        match self {
            Modulation::LoRa(c) => encode_lora(c.to_fields()),
            Modulation::FskGfsk(c) => encode_fsk(*c),
            Modulation::LrFhss(c) => encode_lr_fhss(c.to_fields()),
            Modulation::Flrc(c) => encode_flrc(c.to_fields()),
        }
    }
}

// ---------------------------------------------------------------------
// Decoding
// ---------------------------------------------------------------------

/// `donglora_protocol::OkPayload::parse_for`, the `SetConfig` shape with
/// LoRa parameters: read as `lora_answer` says.
#[verifier::external_body]
fn parse_ok_lora(cmd_type: u8, payload: &[u8]) -> (r: Option<(u8, u8, LoRaFields)>)
    ensures
        r == lora_answer(cmd_type, payload@),
{
    match donglora_protocol::OkPayload::parse_for(cmd_type, payload) {
        Ok(donglora_protocol::OkPayload::SetConfig(WireResult { result, owner, current: WireModulation::LoRa(c) })) => Some((
            result.as_u8(), owner.as_u8(), LoRaFields {
                freq_hz: c.freq_hz, sf: c.sf, bw: c.bw.as_u8(), cr: c.cr.as_u8(),
                preamble_len: c.preamble_len, sync_word: c.sync_word, tx_power_dbm: c.tx_power_dbm,
                header_mode: c.header_mode.as_u8(), payload_crc: c.payload_crc, iq_invert: c.iq_invert,
            },
        )),
        _ => None,
    }
}

/// `donglora_protocol::OkPayload::parse_for`, the `SetConfig` shape with
/// FSK parameters: read as `fsk_answer` says.
#[verifier::external_body]
fn parse_ok_fsk(cmd_type: u8, payload: &[u8]) -> (r: Option<(u8, u8, FskConfig)>)
    ensures
        r == fsk_answer(cmd_type, payload@),
{
    match donglora_protocol::OkPayload::parse_for(cmd_type, payload) {
        Ok(donglora_protocol::OkPayload::SetConfig(WireResult { result, owner, current: WireModulation::FskGfsk(c) })) => Some((
            result.as_u8(), owner.as_u8(), FskConfig {
                freq_hz: c.freq_hz, bitrate_bps: c.bitrate_bps, freq_dev_hz: c.freq_dev_hz, rx_bw: c.rx_bw,
                preamble_len: c.preamble_len, sync_word_len: c.sync_word_len, sync_word: c.sync_word,
            },
        )),
        _ => None,
    }
}

/// `donglora_protocol::OkPayload::parse_for`, the `SetConfig` shape with
/// LR-FHSS parameters: read as `lr_fhss_answer` says.
#[verifier::external_body]
fn parse_ok_lr_fhss(cmd_type: u8, payload: &[u8]) -> (r: Option<(u8, u8, LrFhssFields)>)
    ensures
        r == lr_fhss_answer(cmd_type, payload@),
{
    match donglora_protocol::OkPayload::parse_for(cmd_type, payload) {
        Ok(donglora_protocol::OkPayload::SetConfig(WireResult { result, owner, current: WireModulation::LrFhss(c) })) => Some((
            result.as_u8(), owner.as_u8(), LrFhssFields {
                freq_hz: c.freq_hz, bw: c.bw.as_u8(), cr: c.cr.as_u8(), grid: c.grid.as_u8(),
                hopping: c.hopping, tx_power_dbm: c.tx_power_dbm,
            },
        )),
        _ => None,
    }
}

/// `donglora_protocol::OkPayload::parse_for`, the `SetConfig` shape with
/// FLRC parameters: read as `flrc_answer` says.
#[verifier::external_body]
fn parse_ok_flrc(cmd_type: u8, payload: &[u8]) -> (r: Option<(u8, u8, FlrcFields)>)
    ensures
        r == flrc_answer(cmd_type, payload@),
{
    match donglora_protocol::OkPayload::parse_for(cmd_type, payload) {
        Ok(donglora_protocol::OkPayload::SetConfig(WireResult { result, owner, current: WireModulation::Flrc(c) })) => Some((
            result.as_u8(), owner.as_u8(), FlrcFields {
                freq_hz: c.freq_hz, bitrate: c.bitrate.as_u8(), cr: c.cr.as_u8(), bt: c.bt.as_u8(),
                preamble_len: c.preamble_len.as_u8(), sync_word: c.sync_word, tx_power_dbm: c.tx_power_dbm,
            },
        )),
        _ => None,
    }
}

/// An answer with assigned wire numbers.
pub open spec fn result_of(result: u8, owner: u8, current: Modulation) -> SetConfigResult {
    SetConfigResult { result: SetConfigResultCode::of(result), owner: Owner::of(owner), current }
}

/// What the answer to `SET_CONFIG` says.
pub open spec fn set_config_payload(b: Seq<u8>) -> Option<SetConfigResult> {
    if let Some((result, owner, f)) = lora_answer(TYPE_SET_CONFIG, b) {
        Some(result_of(result, owner, Modulation::LoRa(LoRaConfig::of_fields(f))))
    } else if let Some((result, owner, c)) = fsk_answer(TYPE_SET_CONFIG, b) {
        Some(result_of(result, owner, Modulation::FskGfsk(c)))
    } else if let Some((result, owner, f)) = lr_fhss_answer(TYPE_SET_CONFIG, b) {
        Some(result_of(result, owner, Modulation::LrFhss(LrFhssConfig::of_fields(f))))
    } else if let Some((result, owner, f)) = flrc_answer(TYPE_SET_CONFIG, b) {
        Some(result_of(result, owner, Modulation::Flrc(FlrcConfig::of_fields(f))))
    } else {
        None
    }
}

fn to_result(result: u8, owner: u8, current: Modulation) -> (r: Option<SetConfigResult>)
    ensures
        result < 3 && owner < 3 ==> r == Some(result_of(result, owner, current)),
{
    match (SetConfigResultCode::from_u8(result), Owner::from_u8(owner)) {
        (Some(result), Some(owner)) => Some(SetConfigResult { result, owner, current }),
        _ => None,
    }
}

fn parse_ok_config(payload: &[u8]) -> (r: Option<SetConfigResult>)
    ensures
        r == set_config_payload(payload@),
{
    if let Some((result, owner, f)) = parse_ok_lora(TYPE_SET_CONFIG, payload) {
        return match LoRaConfig::from_fields(f) {
            Some(c) => to_result(result, owner, Modulation::LoRa(c)),
            None => None,
        };
    }
    if let Some((result, owner, c)) = parse_ok_fsk(TYPE_SET_CONFIG, payload) {
        return to_result(result, owner, Modulation::FskGfsk(c));
    }
    if let Some((result, owner, f)) = parse_ok_lr_fhss(TYPE_SET_CONFIG, payload) {
        return match LrFhssConfig::from_fields(f) {
            Some(c) => to_result(result, owner, Modulation::LrFhss(c)),
            None => None,
        };
    }
    match parse_ok_flrc(TYPE_SET_CONFIG, payload) {
        Some((result, owner, f)) => match FlrcConfig::from_fields(f) {
            Some(c) => to_result(result, owner, Modulation::Flrc(c)),
            None => None,
        },
        None => None,
    }
}

/// Payload of an `OK` message.
#[derive(Debug, Clone, Copy, PartialEq, Eq)]
pub enum OkPayload {
    Empty,
    Info(Info),
    SetConfig(SetConfigResult),
}

/// Payload of an `OK` message, the identifiers of `Info` as sequences.
pub enum OkView {
    Empty,
    Info(InfoView),
    SetConfig(SetConfigResult),
}

impl View for OkPayload {
    type V = OkView;

    open spec fn view(&self) -> OkView {
        match self {
            OkPayload::Empty => OkView::Empty,
            OkPayload::Info(i) => OkView::Info(i@),
            OkPayload::SetConfig(r) => OkView::SetConfig(*r),
        }
    }
}

/// What an `OK` payload says, given the command that it answers.
pub open spec fn ok_payload(cmd_type: u8, b: Seq<u8>) -> Option<OkView> {
    if answers_empty(cmd_type) {
        if b.len() == 0 {
            Some(OkView::Empty)
        } else {
            None
        }
    } else if cmd_type == TYPE_GET_INFO {
        match info_payload(b) {
            Some(i) => Some(OkView::Info(i)),
            None => None,
        }
    } else if cmd_type == TYPE_SET_CONFIG {
        match set_config_payload(b) {
            Some(r) => Some(OkView::SetConfig(r)),
            None => None,
        }
    } else {
        None
    }
}

impl OkPayload {
    /// Reads the payload of an `OK` message that answers a command of type
    /// `cmd_type`.
    pub fn parse_for(cmd_type: u8, payload: &[u8]) -> (r: Option<OkPayload>)
        ensures
            r is Some <==> ok_payload(cmd_type, payload@) is Some,
            r is Some ==> r->0@ == ok_payload(cmd_type, payload@)->0,
    {
        if cmd_type == TYPE_SET_CONFIG {
            return match parse_ok_config(payload) {
                Some(r) => Some(OkPayload::SetConfig(r)),
                None => None,
            };
        }
        if parse_ok_empty(cmd_type, payload) {
            return Some(OkPayload::Empty);
        }
        match parse_ok_info(cmd_type, payload) {
            Some(i) => Some(OkPayload::Info(i)),
            None => None,
        }
    }
}

// ---------------------------------------------------------------------
// Laws
// ---------------------------------------------------------------------

impl Modulation {
    /// The configuration as the wire carries it: what an FSK configuration
    /// holds after its sync word is lost.
    pub open spec fn carried(self) -> Modulation {
        match self {
            Modulation::FskGfsk(c) => Modulation::FskGfsk(
                FskConfig { sync_word: sync_word_of(c.sync_word@.take(c.sync_word_len as int)), ..c },
            ),
            m => m,
        }
    }
}

/// The answer that echoes a configuration reads back as that configuration:
/// every field of a `SET_CONFIG` request survives the way to the device and
/// back, whatever the modulation.
pub proof fn config_round_trip(m: Modulation, result: SetConfigResultCode, owner: Owner)
    requires
        m.payload() is Some,
    ensures
        set_config_payload(answer_bytes(result.number(), owner.number(), m.payload()->0)) == Some(
            SetConfigResult { result, owner, current: m.carried() },
        ),
{
    match m {
        Modulation::LoRa(c) => lemma_lora_answer(result.number(), owner.number(), c.fields()),
        Modulation::FskGfsk(c) => lemma_fsk_answer(result.number(), owner.number(), c),
        Modulation::LrFhss(c) => lemma_lr_fhss_answer(result.number(), owner.number(), c.fields()),
        Modulation::Flrc(c) => lemma_flrc_answer(result.number(), owner.number(), c.fields()),
    }
}

proof fn lemma_le32(b: Seq<u8>, at: int, v: u32)
    requires
        b[at] == bytes32(v)[0],
        b[at + 1] == bytes32(v)[1],
        b[at + 2] == bytes32(v)[2],
        b[at + 3] == bytes32(v)[3],
    ensures
        le32(b, at) == v,
{
}

proof fn lemma_lora_answer(result: u8, owner: u8, c: LoRaFields)
    requires
        result < 3,
        owner < 3,
        c.assigned(),
    ensures
        lora_answer(TYPE_SET_CONFIG, answer_bytes(result, owner, lora_bytes(c))) == Some((result, owner, c)),
{
    let b = answer_bytes(result, owner, lora_bytes(c));
    assert(b.len() == 18);
    lemma_le32(b, 3, c.freq_hz);
    assert(le16(b, 10) == c.preamble_len);
    assert(le16(b, 12) == c.sync_word);
}

proof fn lemma_fsk_answer(result: u8, owner: u8, c: FskConfig)
    requires
        result < 3,
        owner < 3,
        fsk_bytes(c) is Some,
    ensures
        fsk_answer(TYPE_SET_CONFIG, answer_bytes(result, owner, fsk_bytes(c)->0)) == Some(
            (
                result,
                owner,
                (FskConfig { sync_word: sync_word_of(c.sync_word@.take(c.sync_word_len as int)), ..c }),
            ),
        ),
        lora_answer(TYPE_SET_CONFIG, answer_bytes(result, owner, fsk_bytes(c)->0)) is None,
{
    let b = answer_bytes(result, owner, fsk_bytes(c)->0);
    assert(b.len() == 19 + c.sync_word_len);
    lemma_le32(b, 3, c.freq_hz);
    lemma_le32(b, 7, c.bitrate_bps);
    lemma_le32(b, 11, c.freq_dev_hz);
    assert(le16(b, 16) == c.preamble_len);
    assert(b[18] == c.sync_word_len);
    assert(b.skip(19) =~= c.sync_word@.take(c.sync_word_len as int));
}

proof fn lemma_lr_fhss_answer(result: u8, owner: u8, c: LrFhssFields)
    requires
        result < 3,
        owner < 3,
        c.assigned(),
    ensures
        lr_fhss_answer(TYPE_SET_CONFIG, answer_bytes(result, owner, lr_fhss_bytes(c))) == Some((result, owner, c)),
        lora_answer(TYPE_SET_CONFIG, answer_bytes(result, owner, lr_fhss_bytes(c))) is None,
        fsk_answer(TYPE_SET_CONFIG, answer_bytes(result, owner, lr_fhss_bytes(c))) is None,
{
    let b = answer_bytes(result, owner, lr_fhss_bytes(c));
    assert(b.len() == 13);
    lemma_le32(b, 3, c.freq_hz);
}

proof fn lemma_flrc_answer(result: u8, owner: u8, c: FlrcFields)
    requires
        result < 3,
        owner < 3,
        c.assigned(),
    ensures
        flrc_answer(TYPE_SET_CONFIG, answer_bytes(result, owner, flrc_bytes(c))) == Some((result, owner, c)),
        lora_answer(TYPE_SET_CONFIG, answer_bytes(result, owner, flrc_bytes(c))) is None,
        fsk_answer(TYPE_SET_CONFIG, answer_bytes(result, owner, flrc_bytes(c))) is None,
        lr_fhss_answer(TYPE_SET_CONFIG, answer_bytes(result, owner, flrc_bytes(c))) is None,
{
    let b = answer_bytes(result, owner, flrc_bytes(c));
    assert(b.len() == 16);
    lemma_le32(b, 3, c.freq_hz);
    lemma_le32(b, 11, c.sync_word);
}

/// The wire carries a configuration whole, unless it is an FSK one with
/// something left after its sync word.
pub proof fn carried_whole(m: Modulation)
    requires
        m matches Modulation::FskGfsk(c) ==> c.sync_word_len <= MAX_SYNC_WORD_LEN && forall|i: int|
            c.sync_word_len <= i < MAX_SYNC_WORD_LEN ==> #[trigger] c.sync_word@[i] == 0,
    ensures
        m.carried() == m,
{
    if let Modulation::FskGfsk(c) = m {
        let w = sync_word_of(c.sync_word@.take(c.sync_word_len as int));
        assert(w =~= c.sync_word);
    }
}

/// Where the device finds each LoRa parameter in a `SET_CONFIG` payload: the
/// numbers in little-endian bytes, the transmit power in two's complement, the
/// flags as 0 or 1, and each choice under the number that the protocol gives
/// it.
pub proof fn lora_on_the_wire(c: LoRaConfig)
    ensures
        Modulation::LoRa(c).payload() matches Some(p) && {
            &&& p.len() == 16
            &&& p[0] == 1
            &&& p[1] + 0x100 * p[2] + 0x1_0000 * p[3] + 0x100_0000 * p[4] == c.freq_hz
            &&& p[5] == c.sf
            &&& c.bw is Khz7 <==> p[6] == 0
            &&& c.bw is Khz10 <==> p[6] == 1
            &&& c.bw is Khz15 <==> p[6] == 2
            &&& c.bw is Khz20 <==> p[6] == 3
            &&& c.bw is Khz31 <==> p[6] == 4
            &&& c.bw is Khz41 <==> p[6] == 5
            &&& c.bw is Khz62 <==> p[6] == 6
            &&& c.bw is Khz125 <==> p[6] == 7
            &&& c.bw is Khz250 <==> p[6] == 8
            &&& c.bw is Khz500 <==> p[6] == 9
            &&& c.bw is Khz200 <==> p[6] == 10
            &&& c.bw is Khz400 <==> p[6] == 11
            &&& c.bw is Khz800 <==> p[6] == 12
            &&& c.bw is Khz1600 <==> p[6] == 13
            &&& c.cr is Cr4_5 <==> p[7] == 0
            &&& c.cr is Cr4_6 <==> p[7] == 1
            &&& c.cr is Cr4_7 <==> p[7] == 2
            &&& c.cr is Cr4_8 <==> p[7] == 3
            &&& p[8] + 0x100 * p[9] == c.preamble_len
            &&& p[10] + 0x100 * p[11] == c.sync_word
            &&& p[12] == if c.tx_power_dbm >= 0 {
                c.tx_power_dbm as int
            } else {
                c.tx_power_dbm + 256
            }
            &&& c.header_mode is Explicit <==> p[13] == 0
            &&& c.header_mode is Implicit <==> p[13] == 1
            &&& p[14] <= 1
            &&& c.payload_crc <==> p[14] == 1
            &&& p[15] <= 1
            &&& c.iq_invert <==> p[15] == 1
        },
{
    let p = Modulation::LoRa(c).payload()->0;
    assert(p.len() == 16);
    lemma_le32(p, 1, c.freq_hz);
}

/// Where the device finds each FSK parameter, and when there is a payload: the
/// sync word follows at the end, as long as it is said to be, which is eight
/// bytes at the most.
pub proof fn fsk_on_the_wire(c: FskConfig)
    ensures
        Modulation::FskGfsk(c).payload() is Some <==> c.sync_word_len <= 8,
        Modulation::FskGfsk(c).payload() matches Some(p) ==> {
            &&& p.len() == 17 + c.sync_word_len
            &&& p[0] == 2
            &&& p[1] + 0x100 * p[2] + 0x1_0000 * p[3] + 0x100_0000 * p[4] == c.freq_hz
            &&& p[5] + 0x100 * p[6] + 0x1_0000 * p[7] + 0x100_0000 * p[8] == c.bitrate_bps
            &&& p[9] + 0x100 * p[10] + 0x1_0000 * p[11] + 0x100_0000 * p[12] == c.freq_dev_hz
            &&& p[13] == c.rx_bw
            &&& p[14] + 0x100 * p[15] == c.preamble_len
            &&& p[16] == c.sync_word_len
            &&& forall|i: int| 0 <= i < c.sync_word_len ==> #[trigger] p[17 + i] == c.sync_word@[i]
        },
{
    if c.sync_word_len <= 8 {
        let p = Modulation::FskGfsk(c).payload()->0;
        lemma_le32(p, 1, c.freq_hz);
        lemma_le32(p, 5, c.bitrate_bps);
        lemma_le32(p, 9, c.freq_dev_hz);
    }
}

/// Where the device finds each LR-FHSS parameter.
pub proof fn lr_fhss_on_the_wire(c: LrFhssConfig)
    ensures
        Modulation::LrFhss(c).payload() matches Some(p) && {
            &&& p.len() == 11
            &&& p[0] == 3
            &&& p[1] + 0x100 * p[2] + 0x1_0000 * p[3] + 0x100_0000 * p[4] == c.freq_hz
            &&& c.bw is Khz39 <==> p[5] == 0
            &&& c.bw is Khz85 <==> p[5] == 1
            &&& c.bw is Khz136 <==> p[5] == 2
            &&& c.bw is Khz183 <==> p[5] == 3
            &&& c.bw is Khz335 <==> p[5] == 4
            &&& c.bw is Khz386 <==> p[5] == 5
            &&& c.bw is Khz722 <==> p[5] == 6
            &&& c.bw is Khz1523 <==> p[5] == 7
            &&& c.cr is Cr5_6 <==> p[6] == 0
            &&& c.cr is Cr2_3 <==> p[6] == 1
            &&& c.cr is Cr1_2 <==> p[6] == 2
            &&& c.cr is Cr1_3 <==> p[6] == 3
            &&& c.grid is Khz25 <==> p[7] == 0
            &&& c.grid is Khz3_9 <==> p[7] == 1
            &&& p[8] <= 1
            &&& c.hopping <==> p[8] == 1
            &&& p[9] == if c.tx_power_dbm >= 0 {
                c.tx_power_dbm as int
            } else {
                c.tx_power_dbm + 256
            }
            &&& p[10] == 0
        },
{
    let p = Modulation::LrFhss(c).payload()->0;
    assert(p.len() == 11);
    lemma_le32(p, 1, c.freq_hz);
}

/// Where the device finds each FLRC parameter.
pub proof fn flrc_on_the_wire(c: FlrcConfig)
    ensures
        Modulation::Flrc(c).payload() matches Some(p) && {
            &&& p.len() == 14
            &&& p[0] == 4
            &&& p[1] + 0x100 * p[2] + 0x1_0000 * p[3] + 0x100_0000 * p[4] == c.freq_hz
            &&& c.bitrate is Kbps2600 <==> p[5] == 0
            &&& c.bitrate is Kbps2080 <==> p[5] == 1
            &&& c.bitrate is Kbps1300 <==> p[5] == 2
            &&& c.bitrate is Kbps1040 <==> p[5] == 3
            &&& c.bitrate is Kbps650 <==> p[5] == 4
            &&& c.bitrate is Kbps520 <==> p[5] == 5
            &&& c.bitrate is Kbps325 <==> p[5] == 6
            &&& c.bitrate is Kbps260 <==> p[5] == 7
            &&& c.cr is Cr1_2 <==> p[6] == 0
            &&& c.cr is Cr3_4 <==> p[6] == 1
            &&& c.cr is Cr1_1 <==> p[6] == 2
            &&& c.bt is Off <==> p[7] == 0
            &&& c.bt is Bt0_5 <==> p[7] == 1
            &&& c.bt is Bt1_0 <==> p[7] == 2
            &&& c.preamble_len is Bits8 <==> p[8] == 0
            &&& c.preamble_len is Bits12 <==> p[8] == 1
            &&& c.preamble_len is Bits16 <==> p[8] == 2
            &&& c.preamble_len is Bits20 <==> p[8] == 3
            &&& c.preamble_len is Bits24 <==> p[8] == 4
            &&& c.preamble_len is Bits28 <==> p[8] == 5
            &&& c.preamble_len is Bits32 <==> p[8] == 6
            &&& p[9] + 0x100 * p[10] + 0x1_0000 * p[11] + 0x100_0000 * p[12] == c.sync_word
            &&& p[13] == if c.tx_power_dbm >= 0 {
                c.tx_power_dbm as int
            } else {
                c.tx_power_dbm + 256
            }
        },
{
    let p = Modulation::Flrc(c).payload()->0;
    assert(p.len() == 14);
    lemma_le32(p, 1, c.freq_hz);
    lemma_le32(p, 9, c.sync_word);
}

/// An answer to `SET_CONFIG` is believed byte for byte: what is read from it
/// has the result of its first byte and the owner of its second, and the rest
/// is the payload of the configuration that is read. So nothing is made up, and
/// nothing is read from bytes that are no configuration.
pub proof fn config_answer_is_read_as_written(b: Seq<u8>)
    ensures
        set_config_payload(b) matches Some(r) ==> {
            &&& b.len() >= 3
            &&& r.result is Applied <==> b[0] == 0
            &&& r.result is AlreadyMatched <==> b[0] == 1
            &&& r.result is LockedMismatch <==> b[0] == 2
            &&& r.owner is Unowned <==> b[1] == 0
            &&& r.owner is Mine <==> b[1] == 1
            &&& r.owner is Other <==> b[1] == 2
            &&& r.current.payload() == Some(b.skip(2))
            &&& r.current matches Modulation::FskGfsk(c) ==> forall|i: int|
                c.sync_word_len <= i < 8 ==> #[trigger] c.sync_word@[i] == 0
        },
{
    if lora_answer(TYPE_SET_CONFIG, b) is Some {
        lemma_lora_read(b);
    } else if fsk_answer(TYPE_SET_CONFIG, b) is Some {
        lemma_fsk_read(b);
    } else if lr_fhss_answer(TYPE_SET_CONFIG, b) is Some {
        lemma_lr_fhss_read(b);
    } else if flrc_answer(TYPE_SET_CONFIG, b) is Some {
        lemma_flrc_read(b);
    }
}

proof fn lemma_lora_read(b: Seq<u8>)
    requires
        lora_answer(TYPE_SET_CONFIG, b) is Some,
    ensures
        ({
            let f = (lora_answer(TYPE_SET_CONFIG, b)->0).2;
            LoRaConfig::of_fields(f).fields() == f && lora_bytes(f) == b.skip(2)
        }),
{
    let f = (lora_answer(TYPE_SET_CONFIG, b)->0).2;
    lemma_bytes32(b, 3);
    lemma_bytes16(b, 10);
    lemma_bytes16(b, 12);
    let p = lora_bytes(f);
    assert(p.len() == 16);
    assert(p.subrange(1, 5) =~= bytes32(f.freq_hz));
    assert(p.subrange(8, 10) =~= bytes16(f.preamble_len));
    assert(p.subrange(10, 12) =~= bytes16(f.sync_word));
    assert forall|i: int| 0 <= i < 16 implies p[i] == b.skip(2)[i] by {
        if 1 <= i < 5 {
            assert(p[i] == p.subrange(1, 5)[i - 1]);
        } else if 8 <= i < 10 {
            assert(p[i] == p.subrange(8, 10)[i - 8]);
        } else if 10 <= i < 12 {
            assert(p[i] == p.subrange(10, 12)[i - 10]);
        }
    }
    assert(p =~= b.skip(2));
}

proof fn lemma_fsk_read(b: Seq<u8>)
    requires
        fsk_answer(TYPE_SET_CONFIG, b) is Some,
    ensures
        fsk_bytes((fsk_answer(TYPE_SET_CONFIG, b)->0).2) == Some(b.skip(2)),
{
    let c = (fsk_answer(TYPE_SET_CONFIG, b)->0).2;
    lemma_bytes32(b, 3);
    lemma_bytes32(b, 7);
    lemma_bytes32(b, 11);
    lemma_bytes16(b, 16);
    let p = fsk_bytes(c)->0;
    assert(p.len() == 17 + c.sync_word_len);
    assert(p.subrange(1, 5) =~= bytes32(c.freq_hz));
    assert(p.subrange(5, 9) =~= bytes32(c.bitrate_bps));
    assert(p.subrange(9, 13) =~= bytes32(c.freq_dev_hz));
    assert(p.subrange(14, 16) =~= bytes16(c.preamble_len));
    assert(c.sync_word@.take(c.sync_word_len as int) =~= b.skip(19));
    assert forall|i: int| 0 <= i < p.len() implies p[i] == b.skip(2)[i] by {
        if 1 <= i < 5 {
            assert(p[i] == p.subrange(1, 5)[i - 1]);
        } else if 5 <= i < 9 {
            assert(p[i] == p.subrange(5, 9)[i - 5]);
        } else if 9 <= i < 13 {
            assert(p[i] == p.subrange(9, 13)[i - 9]);
        } else if 14 <= i < 16 {
            assert(p[i] == p.subrange(14, 16)[i - 14]);
        } else if 17 <= i {
            assert(p[i] == b.skip(19)[i - 17]);
        }
    }
    assert(p =~= b.skip(2));
}

proof fn lemma_lr_fhss_read(b: Seq<u8>)
    requires
        lr_fhss_answer(TYPE_SET_CONFIG, b) is Some,
    ensures
        ({
            let f = (lr_fhss_answer(TYPE_SET_CONFIG, b)->0).2;
            LrFhssConfig::of_fields(f).fields() == f && lr_fhss_bytes(f) == b.skip(2)
        }),
{
    let f = (lr_fhss_answer(TYPE_SET_CONFIG, b)->0).2;
    lemma_bytes32(b, 3);
    let p = lr_fhss_bytes(f);
    assert(p.len() == 11);
    assert(p.subrange(1, 5) =~= bytes32(f.freq_hz));
    assert forall|i: int| 0 <= i < 11 implies p[i] == b.skip(2)[i] by {
        if 1 <= i < 5 {
            assert(p[i] == p.subrange(1, 5)[i - 1]);
        }
    }
    assert(p =~= b.skip(2));
}

proof fn lemma_flrc_read(b: Seq<u8>)
    requires
        flrc_answer(TYPE_SET_CONFIG, b) is Some,
    ensures
        ({
            let f = (flrc_answer(TYPE_SET_CONFIG, b)->0).2;
            FlrcConfig::of_fields(f).fields() == f && flrc_bytes(f) == b.skip(2)
        }),
{
    let f = (flrc_answer(TYPE_SET_CONFIG, b)->0).2;
    lemma_bytes32(b, 3);
    lemma_bytes32(b, 11);
    let p = flrc_bytes(f);
    assert(p.len() == 14);
    assert(p.subrange(1, 5) =~= bytes32(f.freq_hz));
    assert(p.subrange(9, 13) =~= bytes32(f.sync_word));
    assert forall|i: int| 0 <= i < 14 implies p[i] == b.skip(2)[i] by {
        if 1 <= i < 5 {
            assert(p[i] == p.subrange(1, 5)[i - 1]);
        } else if 9 <= i < 13 {
            assert(p[i] == p.subrange(9, 13)[i - 9]);
        }
    }
    assert(p =~= b.skip(2));
}

proof fn lemma_bytes16(b: Seq<u8>, at: int)
    ensures
        bytes16(le16(b, at) as u16) =~= seq![b[at], b[at + 1]],
{
}

proof fn lemma_bytes32(b: Seq<u8>, at: int)
    ensures
        bytes32(le32(b, at) as u32) =~= seq![b[at], b[at + 1], b[at + 2], b[at + 3]],
{
}

/// What an `OK` says depends on the command: those without a result are
/// answered by nothing, `GET_INFO` by a description, `SET_CONFIG` by a
/// configuration, and no other command has an answer.
pub proof fn ok_answers_its_command(cmd_type: u8, b: Seq<u8>)
    ensures
        ok_payload(cmd_type, b) matches Some(OkView::Empty) <==> (cmd_type == 1 || 4 <= cmd_type <= 6) && b.len() == 0,
        ok_payload(cmd_type, b) matches Some(OkView::Info(i)) ==> cmd_type == 2 && info_payload(b) == Some(i),
        cmd_type == 2 ==> (ok_payload(cmd_type, b) is Some <==> info_payload(b) is Some),
        ok_payload(cmd_type, b) matches Some(OkView::SetConfig(r)) ==> cmd_type == 3 && set_config_payload(b) == Some(r),
        cmd_type == 3 ==> (ok_payload(cmd_type, b) is Some <==> set_config_payload(b) is Some),
{
}

} // verus!
