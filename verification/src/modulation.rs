//! Radio parameters of the modulations besides LoRa. The client passes them
//! on as they are.

use vstd::prelude::*;

verus! {

/// The longest FSK sync word.
pub const MAX_SYNC_WORD_LEN: usize = 8;

/// FSK and GFSK radio parameters.
#[derive(Debug, Clone, Copy, PartialEq, Eq)]
pub struct FskConfig {
    pub freq_hz: u32,
    pub bitrate_bps: u32,
    pub freq_dev_hz: u32,
    pub rx_bw: u8,
    pub preamble_len: u16,
    /// How many bytes of the sync word are used.
    pub sync_word_len: u8,
    pub sync_word: [u8; MAX_SYNC_WORD_LEN],
}

/// LR-FHSS radio parameters.
#[derive(Debug, Clone, Copy, PartialEq, Eq, Structural)]
pub struct LrFhssConfig {
    pub freq_hz: u32,
    pub bw: LrFhssBandwidth,
    pub cr: LrFhssCodingRate,
    pub grid: LrFhssGrid,
    pub hopping: bool,
    pub tx_power_dbm: i8,
}

/// FLRC radio parameters.
#[derive(Debug, Clone, Copy, PartialEq, Eq, Structural)]
pub struct FlrcConfig {
    pub freq_hz: u32,
    pub bitrate: FlrcBitrate,
    pub cr: FlrcCodingRate,
    pub bt: FlrcBt,
    pub preamble_len: FlrcPreambleLen,
    pub sync_word: u32,
    pub tx_power_dbm: i8,
}

/// Eight bytes: `w`, and zeros after it.
pub open spec fn sync_word_of(w: Seq<u8>) -> [u8; MAX_SYNC_WORD_LEN] {
    let at = |i: int|
        if i < w.len() {
            w[i]
        } else {
            0u8
        };
    [at(0), at(1), at(2), at(3), at(4), at(5), at(6), at(7)]
}

/// LR-FHSS bandwidth.
#[derive(Debug, Clone, Copy, PartialEq, Eq, Structural)]
pub enum LrFhssBandwidth {
    Khz39,
    Khz85,
    Khz136,
    Khz183,
    Khz335,
    Khz386,
    Khz722,
    Khz1523,
}

/// LR-FHSS coding rate.
#[derive(Debug, Clone, Copy, PartialEq, Eq, Structural)]
pub enum LrFhssCodingRate {
    Cr5_6,
    Cr2_3,
    Cr1_2,
    Cr1_3,
}

/// LR-FHSS hopping grid.
#[derive(Debug, Clone, Copy, PartialEq, Eq, Structural)]
pub enum LrFhssGrid {
    Khz25,
    Khz3_9,
}

/// FLRC bit rate.
#[derive(Debug, Clone, Copy, PartialEq, Eq, Structural)]
pub enum FlrcBitrate {
    Kbps2600,
    Kbps2080,
    Kbps1300,
    Kbps1040,
    Kbps650,
    Kbps520,
    Kbps325,
    Kbps260,
}

/// FLRC coding rate.
#[derive(Debug, Clone, Copy, PartialEq, Eq, Structural)]
pub enum FlrcCodingRate {
    Cr1_2,
    Cr3_4,
    Cr1_1,
}

/// FLRC pulse shaping.
#[derive(Debug, Clone, Copy, PartialEq, Eq, Structural)]
pub enum FlrcBt {
    Off,
    Bt0_5,
    Bt1_0,
}

/// FLRC preamble length.
#[derive(Debug, Clone, Copy, PartialEq, Eq, Structural)]
pub enum FlrcPreambleLen {
    Bits8,
    Bits12,
    Bits16,
    Bits20,
    Bits24,
    Bits28,
    Bits32,
}

impl LrFhssBandwidth {
    /// The wire number.
    pub open spec fn number(self) -> u8 {
        match self {
            LrFhssBandwidth::Khz39 => 0,
            LrFhssBandwidth::Khz85 => 1,
            LrFhssBandwidth::Khz136 => 2,
            LrFhssBandwidth::Khz183 => 3,
            LrFhssBandwidth::Khz335 => 4,
            LrFhssBandwidth::Khz386 => 5,
            LrFhssBandwidth::Khz722 => 6,
            LrFhssBandwidth::Khz1523 => 7,
        }
    }

    /// The variant with an assigned wire number.
    pub open spec fn of(v: u8) -> Self {
        match v {
            0 => LrFhssBandwidth::Khz39,
            1 => LrFhssBandwidth::Khz85,
            2 => LrFhssBandwidth::Khz136,
            3 => LrFhssBandwidth::Khz183,
            4 => LrFhssBandwidth::Khz335,
            5 => LrFhssBandwidth::Khz386,
            6 => LrFhssBandwidth::Khz722,
            _ => LrFhssBandwidth::Khz1523,
        }
    }

    /// The wire number.
    pub fn as_u8(self) -> (r: u8)
        ensures
            r == self.number(),
            r < 8,
    {
        match self {
            LrFhssBandwidth::Khz39 => 0,
            LrFhssBandwidth::Khz85 => 1,
            LrFhssBandwidth::Khz136 => 2,
            LrFhssBandwidth::Khz183 => 3,
            LrFhssBandwidth::Khz335 => 4,
            LrFhssBandwidth::Khz386 => 5,
            LrFhssBandwidth::Khz722 => 6,
            LrFhssBandwidth::Khz1523 => 7,
        }
    }

    /// The bandwidth with the wire number `v`, where it is assigned.
    pub fn from_u8(v: u8) -> (r: Option<Self>)
        ensures
            r is Some <==> v < 8,
            r is Some ==> r->0 == Self::of(v) && r->0.number() == v,
    {
        match v {
            0 => Some(LrFhssBandwidth::Khz39),
            1 => Some(LrFhssBandwidth::Khz85),
            2 => Some(LrFhssBandwidth::Khz136),
            3 => Some(LrFhssBandwidth::Khz183),
            4 => Some(LrFhssBandwidth::Khz335),
            5 => Some(LrFhssBandwidth::Khz386),
            6 => Some(LrFhssBandwidth::Khz722),
            7 => Some(LrFhssBandwidth::Khz1523),
            _ => None,
        }
    }
}

impl LrFhssCodingRate {
    /// The wire number.
    pub open spec fn number(self) -> u8 {
        match self {
            LrFhssCodingRate::Cr5_6 => 0,
            LrFhssCodingRate::Cr2_3 => 1,
            LrFhssCodingRate::Cr1_2 => 2,
            LrFhssCodingRate::Cr1_3 => 3,
        }
    }

    /// The variant with an assigned wire number.
    pub open spec fn of(v: u8) -> Self {
        match v {
            0 => LrFhssCodingRate::Cr5_6,
            1 => LrFhssCodingRate::Cr2_3,
            2 => LrFhssCodingRate::Cr1_2,
            _ => LrFhssCodingRate::Cr1_3,
        }
    }

    /// The wire number.
    pub fn as_u8(self) -> (r: u8)
        ensures
            r == self.number(),
            r < 4,
    {
        match self {
            LrFhssCodingRate::Cr5_6 => 0,
            LrFhssCodingRate::Cr2_3 => 1,
            LrFhssCodingRate::Cr1_2 => 2,
            LrFhssCodingRate::Cr1_3 => 3,
        }
    }

    /// The coding rate with the wire number `v`, where it is assigned.
    pub fn from_u8(v: u8) -> (r: Option<Self>)
        ensures
            r is Some <==> v < 4,
            r is Some ==> r->0 == Self::of(v) && r->0.number() == v,
    {
        match v {
            0 => Some(LrFhssCodingRate::Cr5_6),
            1 => Some(LrFhssCodingRate::Cr2_3),
            2 => Some(LrFhssCodingRate::Cr1_2),
            3 => Some(LrFhssCodingRate::Cr1_3),
            _ => None,
        }
    }
}

impl LrFhssGrid {
    /// The wire number.
    pub open spec fn number(self) -> u8 {
        match self {
            LrFhssGrid::Khz25 => 0,
            LrFhssGrid::Khz3_9 => 1,
        }
    }

    /// The variant with an assigned wire number.
    pub open spec fn of(v: u8) -> Self {
        match v {
            0 => LrFhssGrid::Khz25,
            _ => LrFhssGrid::Khz3_9,
        }
    }

    /// The wire number.
    pub fn as_u8(self) -> (r: u8)
        ensures
            r == self.number(),
            r < 2,
    {
        match self {
            LrFhssGrid::Khz25 => 0,
            LrFhssGrid::Khz3_9 => 1,
        }
    }

    /// The grid with the wire number `v`, where it is assigned.
    pub fn from_u8(v: u8) -> (r: Option<Self>)
        ensures
            r is Some <==> v < 2,
            r is Some ==> r->0 == Self::of(v) && r->0.number() == v,
    {
        match v {
            0 => Some(LrFhssGrid::Khz25),
            1 => Some(LrFhssGrid::Khz3_9),
            _ => None,
        }
    }
}

impl FlrcBitrate {
    /// The wire number.
    pub open spec fn number(self) -> u8 {
        match self {
            FlrcBitrate::Kbps2600 => 0,
            FlrcBitrate::Kbps2080 => 1,
            FlrcBitrate::Kbps1300 => 2,
            FlrcBitrate::Kbps1040 => 3,
            FlrcBitrate::Kbps650 => 4,
            FlrcBitrate::Kbps520 => 5,
            FlrcBitrate::Kbps325 => 6,
            FlrcBitrate::Kbps260 => 7,
        }
    }

    /// The variant with an assigned wire number.
    pub open spec fn of(v: u8) -> Self {
        match v {
            0 => FlrcBitrate::Kbps2600,
            1 => FlrcBitrate::Kbps2080,
            2 => FlrcBitrate::Kbps1300,
            3 => FlrcBitrate::Kbps1040,
            4 => FlrcBitrate::Kbps650,
            5 => FlrcBitrate::Kbps520,
            6 => FlrcBitrate::Kbps325,
            _ => FlrcBitrate::Kbps260,
        }
    }

    /// The wire number.
    pub fn as_u8(self) -> (r: u8)
        ensures
            r == self.number(),
            r < 8,
    {
        match self {
            FlrcBitrate::Kbps2600 => 0,
            FlrcBitrate::Kbps2080 => 1,
            FlrcBitrate::Kbps1300 => 2,
            FlrcBitrate::Kbps1040 => 3,
            FlrcBitrate::Kbps650 => 4,
            FlrcBitrate::Kbps520 => 5,
            FlrcBitrate::Kbps325 => 6,
            FlrcBitrate::Kbps260 => 7,
        }
    }

    /// The bit rate with the wire number `v`, where it is assigned.
    pub fn from_u8(v: u8) -> (r: Option<Self>)
        ensures
            r is Some <==> v < 8,
            r is Some ==> r->0 == Self::of(v) && r->0.number() == v,
    {
        match v {
            0 => Some(FlrcBitrate::Kbps2600),
            1 => Some(FlrcBitrate::Kbps2080),
            2 => Some(FlrcBitrate::Kbps1300),
            3 => Some(FlrcBitrate::Kbps1040),
            4 => Some(FlrcBitrate::Kbps650),
            5 => Some(FlrcBitrate::Kbps520),
            6 => Some(FlrcBitrate::Kbps325),
            7 => Some(FlrcBitrate::Kbps260),
            _ => None,
        }
    }
}

impl FlrcCodingRate {
    /// The wire number.
    pub open spec fn number(self) -> u8 {
        match self {
            FlrcCodingRate::Cr1_2 => 0,
            FlrcCodingRate::Cr3_4 => 1,
            FlrcCodingRate::Cr1_1 => 2,
        }
    }

    /// The variant with an assigned wire number.
    pub open spec fn of(v: u8) -> Self {
        match v {
            0 => FlrcCodingRate::Cr1_2,
            1 => FlrcCodingRate::Cr3_4,
            _ => FlrcCodingRate::Cr1_1,
        }
    }

    /// The wire number.
    pub fn as_u8(self) -> (r: u8)
        ensures
            r == self.number(),
            r < 3,
    {
        match self {
            FlrcCodingRate::Cr1_2 => 0,
            FlrcCodingRate::Cr3_4 => 1,
            FlrcCodingRate::Cr1_1 => 2,
        }
    }

    /// The coding rate with the wire number `v`, where it is assigned.
    pub fn from_u8(v: u8) -> (r: Option<Self>)
        ensures
            r is Some <==> v < 3,
            r is Some ==> r->0 == Self::of(v) && r->0.number() == v,
    {
        match v {
            0 => Some(FlrcCodingRate::Cr1_2),
            1 => Some(FlrcCodingRate::Cr3_4),
            2 => Some(FlrcCodingRate::Cr1_1),
            _ => None,
        }
    }
}

impl FlrcBt {
    /// The wire number.
    pub open spec fn number(self) -> u8 {
        match self {
            FlrcBt::Off => 0,
            FlrcBt::Bt0_5 => 1,
            FlrcBt::Bt1_0 => 2,
        }
    }

    /// The variant with an assigned wire number.
    pub open spec fn of(v: u8) -> Self {
        match v {
            0 => FlrcBt::Off,
            1 => FlrcBt::Bt0_5,
            _ => FlrcBt::Bt1_0,
        }
    }

    /// The wire number.
    pub fn as_u8(self) -> (r: u8)
        ensures
            r == self.number(),
            r < 3,
    {
        match self {
            FlrcBt::Off => 0,
            FlrcBt::Bt0_5 => 1,
            FlrcBt::Bt1_0 => 2,
        }
    }

    /// The pulse shaping with the wire number `v`, where it is assigned.
    pub fn from_u8(v: u8) -> (r: Option<Self>)
        ensures
            r is Some <==> v < 3,
            r is Some ==> r->0 == Self::of(v) && r->0.number() == v,
    {
        match v {
            0 => Some(FlrcBt::Off),
            1 => Some(FlrcBt::Bt0_5),
            2 => Some(FlrcBt::Bt1_0),
            _ => None,
        }
    }
}

impl FlrcPreambleLen {
    /// The wire number.
    pub open spec fn number(self) -> u8 {
        match self {
            FlrcPreambleLen::Bits8 => 0,
            FlrcPreambleLen::Bits12 => 1,
            FlrcPreambleLen::Bits16 => 2,
            FlrcPreambleLen::Bits20 => 3,
            FlrcPreambleLen::Bits24 => 4,
            FlrcPreambleLen::Bits28 => 5,
            FlrcPreambleLen::Bits32 => 6,
        }
    }

    /// The variant with an assigned wire number.
    pub open spec fn of(v: u8) -> Self {
        match v {
            0 => FlrcPreambleLen::Bits8,
            1 => FlrcPreambleLen::Bits12,
            2 => FlrcPreambleLen::Bits16,
            3 => FlrcPreambleLen::Bits20,
            4 => FlrcPreambleLen::Bits24,
            5 => FlrcPreambleLen::Bits28,
            _ => FlrcPreambleLen::Bits32,
        }
    }

    /// The wire number.
    pub fn as_u8(self) -> (r: u8)
        ensures
            r == self.number(),
            r < 7,
    {
        match self {
            FlrcPreambleLen::Bits8 => 0,
            FlrcPreambleLen::Bits12 => 1,
            FlrcPreambleLen::Bits16 => 2,
            FlrcPreambleLen::Bits20 => 3,
            FlrcPreambleLen::Bits24 => 4,
            FlrcPreambleLen::Bits28 => 5,
            FlrcPreambleLen::Bits32 => 6,
        }
    }

    /// The preamble length with the wire number `v`, where it is assigned.
    pub fn from_u8(v: u8) -> (r: Option<Self>)
        ensures
            r is Some <==> v < 7,
            r is Some ==> r->0 == Self::of(v) && r->0.number() == v,
    {
        match v {
            0 => Some(FlrcPreambleLen::Bits8),
            1 => Some(FlrcPreambleLen::Bits12),
            2 => Some(FlrcPreambleLen::Bits16),
            3 => Some(FlrcPreambleLen::Bits20),
            4 => Some(FlrcPreambleLen::Bits24),
            5 => Some(FlrcPreambleLen::Bits28),
            6 => Some(FlrcPreambleLen::Bits32),
            _ => None,
        }
    }
}

} // verus!
