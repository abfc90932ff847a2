//! Protocol values: what commands and answers carry.

use vstd::prelude::*;

use crate::modulation::{FlrcConfig, FskConfig, LrFhssConfig};

verus! {

// Command and message type bytes.
/// `PING`, host to device.
pub const TYPE_PING: u8 = 0x01;

/// `GET_INFO`, host to device.
pub const TYPE_GET_INFO: u8 = 0x02;

/// `SET_CONFIG`, host to device.
pub const TYPE_SET_CONFIG: u8 = 0x03;

/// `TX`, host to device.
pub const TYPE_TX: u8 = 0x04;

/// `RX_START`, host to device.
pub const TYPE_RX_START: u8 = 0x05;

/// `RX_STOP`, host to device.
pub const TYPE_RX_STOP: u8 = 0x06;

/// `OK`, device to host.
pub const TYPE_OK: u8 = 0x80;

/// `ERR`, device to host.
pub const TYPE_ERR: u8 = 0x81;

/// `RX`, device to host.
pub const TYPE_RX: u8 = 0xC0;

/// `TX_DONE`, device to host.
pub const TYPE_TX_DONE: u8 = 0xC1;

/// The longest packet that can go on the air.
pub const MAX_OTA_PAYLOAD: usize = 255;

/// The longest packet that `TX` is given.
pub const MAX_TX_PACKET: usize = 256;

/// The longest payload of any frame.
pub const MAX_PAYLOAD_FIELD: usize = 275;

/// The longest frame on the wire, its terminating zero byte included.
pub const MAX_WIRE_FRAME: usize = 284;

/// The longest microcontroller identifier in `GET_INFO`.
pub const MAX_MCU_UID_LEN: usize = 32;

/// The longest radio identifier in `GET_INFO`.
pub const MAX_RADIO_UID_LEN: usize = 16;

/// Modulation identifier of LoRa, the first byte of a `SET_CONFIG` payload.
pub const MODULATION_LORA: u8 = 0x01;

/// Modulation identifier of FSK and GFSK.
pub const MODULATION_FSK: u8 = 0x02;

/// Modulation identifier of LR-FHSS.
pub const MODULATION_LR_FHSS: u8 = 0x03;

/// Modulation identifier of FLRC.
pub const MODULATION_FLRC: u8 = 0x04;

/// Error code of an `ERR` frame.
#[derive(Debug, Clone, Copy, PartialEq, Eq, Structural)]
pub enum ErrorCode {
    EParam,
    ELength,
    ENotConfigured,
    EModulation,
    EUnknownCmd,
    EBusy,
    ERadio,
    EFrame,
    EInternal,
    Unknown(u16),
}

/// LoRa signal bandwidth. The variants stand in the order of their wire
/// numbers.
#[derive(Debug, Clone, Copy, PartialEq, Eq, Structural)]
pub enum LoRaBandwidth {
    Khz7,
    Khz10,
    Khz15,
    Khz20,
    Khz31,
    Khz41,
    Khz62,
    Khz125,
    Khz250,
    Khz500,
    Khz200,
    Khz400,
    Khz800,
    Khz1600,
}

/// LoRa coding rate.
#[derive(Debug, Clone, Copy, PartialEq, Eq, Structural)]
pub enum LoRaCodingRate {
    Cr4_5,
    Cr4_6,
    Cr4_7,
    Cr4_8,
}

/// LoRa header mode.
#[derive(Debug, Clone, Copy, PartialEq, Eq, Structural)]
pub enum LoRaHeaderMode {
    Explicit,
    Implicit,
}

/// LoRa radio parameters.
#[derive(Debug, Clone, Copy, PartialEq, Eq, Structural)]
pub struct LoRaConfig {
    pub freq_hz: u32,
    /// Spreading factor.
    pub sf: u8,
    pub bw: LoRaBandwidth,
    pub cr: LoRaCodingRate,
    pub preamble_len: u16,
    pub sync_word: u16,
    pub tx_power_dbm: i8,
    pub header_mode: LoRaHeaderMode,
    pub payload_crc: bool,
    pub iq_invert: bool,
}

/// A radio configuration. The client reads and adjusts LoRa parameters; the
/// other modulations pass through it as they are.
#[derive(Debug, Clone, Copy, PartialEq, Eq)]
pub enum Modulation {
    LoRa(LoRaConfig),
    FskGfsk(FskConfig),
    LrFhss(LrFhssConfig),
    Flrc(FlrcConfig),
}

/// What a device says of itself in its `GET_INFO` answer.
#[derive(Debug, Clone, Copy, PartialEq, Eq)]
pub struct Info {
    pub proto_major: u8,
    pub proto_minor: u8,
    pub fw_major: u8,
    pub fw_minor: u8,
    pub fw_patch: u8,
    pub radio_chip_id: u16,
    pub capability_bitmap: u64,
    pub supported_sf_bitmap: u16,
    pub supported_bw_bitmap: u16,
    pub max_payload_bytes: u16,
    pub rx_queue_capacity: u16,
    pub tx_queue_capacity: u16,
    pub freq_min_hz: u32,
    pub freq_max_hz: u32,
    pub tx_power_min_dbm: i8,
    pub tx_power_max_dbm: i8,
    pub mcu_uid_len: u8,
    pub mcu_uid: [u8; MAX_MCU_UID_LEN],
    pub radio_uid_len: u8,
    pub radio_uid: [u8; MAX_RADIO_UID_LEN],
}

/// A device's `GET_INFO` answer, its identifiers as sequences.
pub struct InfoView {
    pub proto_major: u8,
    pub proto_minor: u8,
    pub fw_major: u8,
    pub fw_minor: u8,
    pub fw_patch: u8,
    pub radio_chip_id: u16,
    pub capability_bitmap: u64,
    pub supported_sf_bitmap: u16,
    pub supported_bw_bitmap: u16,
    pub max_payload_bytes: u16,
    pub rx_queue_capacity: u16,
    pub tx_queue_capacity: u16,
    pub freq_min_hz: u32,
    pub freq_max_hz: u32,
    pub tx_power_min_dbm: i8,
    pub tx_power_max_dbm: i8,
    pub mcu_uid_len: u8,
    pub mcu_uid: Seq<u8>,
    pub radio_uid_len: u8,
    pub radio_uid: Seq<u8>,
}

impl View for Info {
    type V = InfoView;

    open spec fn view(&self) -> InfoView {
        InfoView {
            proto_major: self.proto_major,
            proto_minor: self.proto_minor,
            fw_major: self.fw_major,
            fw_minor: self.fw_minor,
            fw_patch: self.fw_patch,
            radio_chip_id: self.radio_chip_id,
            capability_bitmap: self.capability_bitmap,
            supported_sf_bitmap: self.supported_sf_bitmap,
            supported_bw_bitmap: self.supported_bw_bitmap,
            max_payload_bytes: self.max_payload_bytes,
            rx_queue_capacity: self.rx_queue_capacity,
            tx_queue_capacity: self.tx_queue_capacity,
            freq_min_hz: self.freq_min_hz,
            freq_max_hz: self.freq_max_hz,
            tx_power_min_dbm: self.tx_power_min_dbm,
            tx_power_max_dbm: self.tx_power_max_dbm,
            mcu_uid_len: self.mcu_uid_len,
            mcu_uid: self.mcu_uid@,
            radio_uid_len: self.radio_uid_len,
            radio_uid: self.radio_uid@,
        }
    }
}

/// What became of a `SET_CONFIG` request.
#[derive(Debug, Clone, Copy, PartialEq, Eq, Structural)]
pub enum SetConfigResultCode {
    Applied,
    AlreadyMatched,
    LockedMismatch,
}

/// Who holds the configuration lock.
#[derive(Debug, Clone, Copy, PartialEq, Eq, Structural)]
pub enum Owner {
    Unowned,
    Mine,
    Other,
}

/// The device's answer to `SET_CONFIG`. `current` is what the radio runs.
#[derive(Debug, Clone, Copy, PartialEq, Eq)]
pub struct SetConfigResult {
    pub result: SetConfigResultCode,
    pub owner: Owner,
    pub current: Modulation,
}

/// What became of a transmission.
#[derive(Debug, Clone, Copy, PartialEq, Eq, Structural)]
pub enum TxResult {
    Transmitted,
    ChannelBusy,
    Cancelled,
}

/// Payload of a `TX_DONE` message.
#[derive(Debug, Clone, Copy, PartialEq, Eq, Structural)]
pub struct TxDonePayload {
    pub result: TxResult,
    pub airtime_us: u32,
}

/// Where a received packet came from.
#[derive(Debug, Clone, Copy, PartialEq, Eq, Structural)]
pub enum RxOrigin {
    Ota,
    LocalLoopback,
}

/// A received packet with its metadata.
#[derive(Debug, Clone, PartialEq, Eq)]
pub struct RxPayload {
    pub rssi_tenths_dbm: i16,
    pub snr_tenths_db: i16,
    pub freq_err_hz: i32,
    pub timestamp_us: u64,
    pub crc_valid: bool,
    pub packets_dropped: u16,
    pub origin: RxOrigin,
    pub data: Vec<u8>,
}

/// A received packet, its bytes as a sequence.
pub struct RxView {
    pub rssi_tenths_dbm: i16,
    pub snr_tenths_db: i16,
    pub freq_err_hz: i32,
    pub timestamp_us: u64,
    pub crc_valid: bool,
    pub packets_dropped: u16,
    pub origin: RxOrigin,
    pub data: Seq<u8>,
}

impl View for RxPayload {
    type V = RxView;

    open spec fn view(&self) -> RxView {
        RxView {
            rssi_tenths_dbm: self.rssi_tenths_dbm,
            snr_tenths_db: self.snr_tenths_db,
            freq_err_hz: self.freq_err_hz,
            timestamp_us: self.timestamp_us,
            crc_valid: self.crc_valid,
            packets_dropped: self.packets_dropped,
            origin: self.origin,
            data: self.data@,
        }
    }
}

impl LoRaBandwidth {
    /// The wire number.
    pub open spec fn number(self) -> u8 {
        match self {
            LoRaBandwidth::Khz7 => 0,
            LoRaBandwidth::Khz10 => 1,
            LoRaBandwidth::Khz15 => 2,
            LoRaBandwidth::Khz20 => 3,
            LoRaBandwidth::Khz31 => 4,
            LoRaBandwidth::Khz41 => 5,
            LoRaBandwidth::Khz62 => 6,
            LoRaBandwidth::Khz125 => 7,
            LoRaBandwidth::Khz250 => 8,
            LoRaBandwidth::Khz500 => 9,
            LoRaBandwidth::Khz200 => 10,
            LoRaBandwidth::Khz400 => 11,
            LoRaBandwidth::Khz800 => 12,
            LoRaBandwidth::Khz1600 => 13,
        }
    }

    /// The variant with an assigned wire number.
    pub open spec fn of(v: u8) -> Self {
        match v {
            0 => LoRaBandwidth::Khz7,
            1 => LoRaBandwidth::Khz10,
            2 => LoRaBandwidth::Khz15,
            3 => LoRaBandwidth::Khz20,
            4 => LoRaBandwidth::Khz31,
            5 => LoRaBandwidth::Khz41,
            6 => LoRaBandwidth::Khz62,
            7 => LoRaBandwidth::Khz125,
            8 => LoRaBandwidth::Khz250,
            9 => LoRaBandwidth::Khz500,
            10 => LoRaBandwidth::Khz200,
            11 => LoRaBandwidth::Khz400,
            12 => LoRaBandwidth::Khz800,
            _ => LoRaBandwidth::Khz1600,
        }
    }

    /// The wire number.
    pub fn as_u8(self) -> (r: u8)
        ensures
            r == self.number(),
            r < 14,
    {
        match self {
            LoRaBandwidth::Khz7 => 0,
            LoRaBandwidth::Khz10 => 1,
            LoRaBandwidth::Khz15 => 2,
            LoRaBandwidth::Khz20 => 3,
            LoRaBandwidth::Khz31 => 4,
            LoRaBandwidth::Khz41 => 5,
            LoRaBandwidth::Khz62 => 6,
            LoRaBandwidth::Khz125 => 7,
            LoRaBandwidth::Khz250 => 8,
            LoRaBandwidth::Khz500 => 9,
            LoRaBandwidth::Khz200 => 10,
            LoRaBandwidth::Khz400 => 11,
            LoRaBandwidth::Khz800 => 12,
            LoRaBandwidth::Khz1600 => 13,
        }
    }

    /// The bandwidth with the wire number `v`, where it is assigned.
    pub fn from_u8(v: u8) -> (r: Option<Self>)
        ensures
            r is Some <==> v < 14,
            r is Some ==> r->0 == Self::of(v) && r->0.number() == v,
    {
        match v {
            0 => Some(LoRaBandwidth::Khz7),
            1 => Some(LoRaBandwidth::Khz10),
            2 => Some(LoRaBandwidth::Khz15),
            3 => Some(LoRaBandwidth::Khz20),
            4 => Some(LoRaBandwidth::Khz31),
            5 => Some(LoRaBandwidth::Khz41),
            6 => Some(LoRaBandwidth::Khz62),
            7 => Some(LoRaBandwidth::Khz125),
            8 => Some(LoRaBandwidth::Khz250),
            9 => Some(LoRaBandwidth::Khz500),
            10 => Some(LoRaBandwidth::Khz200),
            11 => Some(LoRaBandwidth::Khz400),
            12 => Some(LoRaBandwidth::Khz800),
            13 => Some(LoRaBandwidth::Khz1600),
            _ => None,
        }
    }

    /// The variant's name.
    pub open spec fn label(self) -> Seq<char> {
        match self {
            LoRaBandwidth::Khz7 => "Khz7"@,
            LoRaBandwidth::Khz10 => "Khz10"@,
            LoRaBandwidth::Khz15 => "Khz15"@,
            LoRaBandwidth::Khz20 => "Khz20"@,
            LoRaBandwidth::Khz31 => "Khz31"@,
            LoRaBandwidth::Khz41 => "Khz41"@,
            LoRaBandwidth::Khz62 => "Khz62"@,
            LoRaBandwidth::Khz125 => "Khz125"@,
            LoRaBandwidth::Khz250 => "Khz250"@,
            LoRaBandwidth::Khz500 => "Khz500"@,
            LoRaBandwidth::Khz200 => "Khz200"@,
            LoRaBandwidth::Khz400 => "Khz400"@,
            LoRaBandwidth::Khz800 => "Khz800"@,
            LoRaBandwidth::Khz1600 => "Khz1600"@,
        }
    }

    /// The variant's name.
    pub fn name(self) -> (r: &'static str)
        ensures
            r@ == self.label(),
    {
        match self {
            LoRaBandwidth::Khz7 => "Khz7",
            LoRaBandwidth::Khz10 => "Khz10",
            LoRaBandwidth::Khz15 => "Khz15",
            LoRaBandwidth::Khz20 => "Khz20",
            LoRaBandwidth::Khz31 => "Khz31",
            LoRaBandwidth::Khz41 => "Khz41",
            LoRaBandwidth::Khz62 => "Khz62",
            LoRaBandwidth::Khz125 => "Khz125",
            LoRaBandwidth::Khz250 => "Khz250",
            LoRaBandwidth::Khz500 => "Khz500",
            LoRaBandwidth::Khz200 => "Khz200",
            LoRaBandwidth::Khz400 => "Khz400",
            LoRaBandwidth::Khz800 => "Khz800",
            LoRaBandwidth::Khz1600 => "Khz1600",
        }
    }
}

impl LoRaCodingRate {
    /// The wire number.
    pub open spec fn number(self) -> u8 {
        match self {
            LoRaCodingRate::Cr4_5 => 0,
            LoRaCodingRate::Cr4_6 => 1,
            LoRaCodingRate::Cr4_7 => 2,
            LoRaCodingRate::Cr4_8 => 3,
        }
    }

    /// The variant with an assigned wire number.
    pub open spec fn of(v: u8) -> Self {
        match v {
            0 => LoRaCodingRate::Cr4_5,
            1 => LoRaCodingRate::Cr4_6,
            2 => LoRaCodingRate::Cr4_7,
            _ => LoRaCodingRate::Cr4_8,
        }
    }

    /// The wire number.
    pub fn as_u8(self) -> (r: u8)
        ensures
            r == self.number(),
            r < 4,
    {
        match self {
            LoRaCodingRate::Cr4_5 => 0,
            LoRaCodingRate::Cr4_6 => 1,
            LoRaCodingRate::Cr4_7 => 2,
            LoRaCodingRate::Cr4_8 => 3,
        }
    }

    /// The coding rate with the wire number `v`, where it is assigned.
    pub fn from_u8(v: u8) -> (r: Option<Self>)
        ensures
            r is Some <==> v < 4,
            r is Some ==> r->0 == Self::of(v) && r->0.number() == v,
    {
        match v {
            0 => Some(LoRaCodingRate::Cr4_5),
            1 => Some(LoRaCodingRate::Cr4_6),
            2 => Some(LoRaCodingRate::Cr4_7),
            3 => Some(LoRaCodingRate::Cr4_8),
            _ => None,
        }
    }
}

impl LoRaHeaderMode {
    /// The wire number.
    pub open spec fn number(self) -> u8 {
        match self {
            LoRaHeaderMode::Explicit => 0,
            LoRaHeaderMode::Implicit => 1,
        }
    }

    /// The variant with an assigned wire number.
    pub open spec fn of(v: u8) -> Self {
        match v {
            0 => LoRaHeaderMode::Explicit,
            _ => LoRaHeaderMode::Implicit,
        }
    }

    /// The wire number.
    pub fn as_u8(self) -> (r: u8)
        ensures
            r == self.number(),
            r < 2,
    {
        match self {
            LoRaHeaderMode::Explicit => 0,
            LoRaHeaderMode::Implicit => 1,
        }
    }

    /// The header mode with the wire number `v`, where it is assigned.
    pub fn from_u8(v: u8) -> (r: Option<Self>)
        ensures
            r is Some <==> v < 2,
            r is Some ==> r->0 == Self::of(v) && r->0.number() == v,
    {
        match v {
            0 => Some(LoRaHeaderMode::Explicit),
            1 => Some(LoRaHeaderMode::Implicit),
            _ => None,
        }
    }
}

impl SetConfigResultCode {
    /// The wire number.
    pub open spec fn number(self) -> u8 {
        match self {
            SetConfigResultCode::Applied => 0,
            SetConfigResultCode::AlreadyMatched => 1,
            SetConfigResultCode::LockedMismatch => 2,
        }
    }

    /// The variant with an assigned wire number.
    pub open spec fn of(v: u8) -> Self {
        match v {
            0 => SetConfigResultCode::Applied,
            1 => SetConfigResultCode::AlreadyMatched,
            _ => SetConfigResultCode::LockedMismatch,
        }
    }

    /// The wire number.
    pub fn as_u8(self) -> (r: u8)
        ensures
            r == self.number(),
            r < 3,
    {
        match self {
            SetConfigResultCode::Applied => 0,
            SetConfigResultCode::AlreadyMatched => 1,
            SetConfigResultCode::LockedMismatch => 2,
        }
    }

    /// The result with the wire number `v`, where it is assigned.
    pub fn from_u8(v: u8) -> (r: Option<Self>)
        ensures
            r is Some <==> v < 3,
            r is Some ==> r->0 == Self::of(v) && r->0.number() == v,
    {
        match v {
            0 => Some(SetConfigResultCode::Applied),
            1 => Some(SetConfigResultCode::AlreadyMatched),
            2 => Some(SetConfigResultCode::LockedMismatch),
            _ => None,
        }
    }
}

impl Owner {
    /// The wire number.
    pub open spec fn number(self) -> u8 {
        match self {
            Owner::Unowned => 0,
            Owner::Mine => 1,
            Owner::Other => 2,
        }
    }

    /// The variant with an assigned wire number.
    pub open spec fn of(v: u8) -> Self {
        match v {
            0 => Owner::Unowned,
            1 => Owner::Mine,
            _ => Owner::Other,
        }
    }

    /// The wire number.
    pub fn as_u8(self) -> (r: u8)
        ensures
            r == self.number(),
            r < 3,
    {
        match self {
            Owner::Unowned => 0,
            Owner::Mine => 1,
            Owner::Other => 2,
        }
    }

    /// The owner with the wire number `v`, where it is assigned.
    pub fn from_u8(v: u8) -> (r: Option<Self>)
        ensures
            r is Some <==> v < 3,
            r is Some ==> r->0 == Self::of(v) && r->0.number() == v,
    {
        match v {
            0 => Some(Owner::Unowned),
            1 => Some(Owner::Mine),
            2 => Some(Owner::Other),
            _ => None,
        }
    }
}

/// Each LoRa bandwidth has the number that the protocol gives it, which is also
/// its place in the device's bitmap, and goes by its name.
pub proof fn bandwidth_numbers(bw: LoRaBandwidth)
    ensures
        bw is Khz7 <==> bw.number() == 0,
        bw is Khz10 <==> bw.number() == 1,
        bw is Khz15 <==> bw.number() == 2,
        bw is Khz20 <==> bw.number() == 3,
        bw is Khz31 <==> bw.number() == 4,
        bw is Khz41 <==> bw.number() == 5,
        bw is Khz62 <==> bw.number() == 6,
        bw is Khz125 <==> bw.number() == 7,
        bw is Khz250 <==> bw.number() == 8,
        bw is Khz500 <==> bw.number() == 9,
        bw is Khz200 <==> bw.number() == 10,
        bw is Khz400 <==> bw.number() == 11,
        bw is Khz800 <==> bw.number() == 12,
        bw is Khz1600 <==> bw.number() == 13,
        bw is Khz7 ==> bw.label() == "Khz7"@,
        bw is Khz10 ==> bw.label() == "Khz10"@,
        bw is Khz15 ==> bw.label() == "Khz15"@,
        bw is Khz20 ==> bw.label() == "Khz20"@,
        bw is Khz31 ==> bw.label() == "Khz31"@,
        bw is Khz41 ==> bw.label() == "Khz41"@,
        bw is Khz62 ==> bw.label() == "Khz62"@,
        bw is Khz125 ==> bw.label() == "Khz125"@,
        bw is Khz250 ==> bw.label() == "Khz250"@,
        bw is Khz500 ==> bw.label() == "Khz500"@,
        bw is Khz200 ==> bw.label() == "Khz200"@,
        bw is Khz400 ==> bw.label() == "Khz400"@,
        bw is Khz800 ==> bw.label() == "Khz800"@,
        bw is Khz1600 ==> bw.label() == "Khz1600"@,
        LoRaBandwidth::of(bw.number()) == bw,
{
}

} // verus!
