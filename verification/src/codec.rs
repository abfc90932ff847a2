//! Payload codecs. Each function that hands bytes to the `donglora-protocol`
//! crate takes and returns plain values; what it returns is stated here byte
//! by byte, or under a name where the layout is not the client's concern.

use vstd::prelude::*;

use donglora_protocol::ErrorCode as WireCode;

use crate::protocol::{
    ErrorCode, Info, InfoView, RxOrigin, RxPayload, RxView, TxDonePayload, TxResult, MAX_MCU_UID_LEN, MAX_OTA_PAYLOAD,
    MAX_RADIO_UID_LEN, TYPE_GET_INFO, TYPE_PING, TYPE_RX_START, TYPE_RX_STOP, TYPE_TX,
};

verus! {

// ---------------------------------------------------------------------
// Little-endian numbers
// ---------------------------------------------------------------------

/// The unsigned 16-bit number at `at`.
pub open spec fn le16(b: Seq<u8>, at: int) -> int {
    b[at] + 0x100 * b[at + 1]
}

/// The unsigned 32-bit number at `at`.
pub open spec fn le32(b: Seq<u8>, at: int) -> int {
    le16(b, at) + 0x1_0000 * le16(b, at + 2)
}

/// The unsigned 64-bit number at `at`.
pub open spec fn le64(b: Seq<u8>, at: int) -> int {
    le32(b, at) + 0x1_0000_0000 * le32(b, at + 4)
}

/// A number below `2 * half` read as two's complement.
pub open spec fn signed(v: int, half: int) -> int {
    if v < half {
        v
    } else {
        v - 2 * half
    }
}

/// The two bytes of a 16-bit number.
pub open spec fn bytes16(v: u16) -> Seq<u8> {
    seq![(v % 0x100) as u8, (v / 0x100) as u8]
}

/// The four bytes of a 32-bit number.
pub open spec fn bytes32(v: u32) -> Seq<u8> {
    seq![
        (v % 0x100) as u8,
        (v / 0x100 % 0x100) as u8,
        (v / 0x1_0000 % 0x100) as u8,
        (v / 0x100_0000) as u8,
    ]
}

/// The byte of a signed 8-bit number.
pub open spec fn byte_of_signed(v: i8) -> u8 {
    (if v < 0 {
        v + 0x100
    } else {
        v as int
    }) as u8
}

/// The byte of a flag.
pub open spec fn byte_of_flag(v: bool) -> u8 {
    if v {
        1
    } else {
        0
    }
}

// ---------------------------------------------------------------------
// ERR
// ---------------------------------------------------------------------

/// The error code with the wire number `v`.
pub open spec fn error_code_of(v: int) -> ErrorCode {
    if v == 0x0001 {
        ErrorCode::EParam
    } else if v == 0x0002 {
        ErrorCode::ELength
    } else if v == 0x0003 {
        ErrorCode::ENotConfigured
    } else if v == 0x0004 {
        ErrorCode::EModulation
    } else if v == 0x0005 {
        ErrorCode::EUnknownCmd
    } else if v == 0x0006 {
        ErrorCode::EBusy
    } else if v == 0x0101 {
        ErrorCode::ERadio
    } else if v == 0x0102 {
        ErrorCode::EFrame
    } else if v == 0x0103 {
        ErrorCode::EInternal
    } else {
        ErrorCode::Unknown(v as u16)
    }
}

/// What an `ERR` payload says: two bytes, the code's wire number.
pub open spec fn err_payload(b: Seq<u8>) -> Option<ErrorCode> {
    if b.len() == 2 {
        Some(error_code_of(le16(b, 0)))
    } else {
        None
    }
}

/// `donglora_protocol::events::decode_err_payload`: reads the error code of
/// an `ERR` payload, and refuses a payload that is not two bytes long.
#[verifier::external_body]
pub(crate) fn decode_err(payload: &[u8]) -> (r: Option<ErrorCode>)
    ensures
        r == err_payload(payload@),
{
    match donglora_protocol::events::decode_err_payload(payload) {
        Ok(WireCode::EParam) => Some(ErrorCode::EParam),
        Ok(WireCode::ELength) => Some(ErrorCode::ELength),
        Ok(WireCode::ENotConfigured) => Some(ErrorCode::ENotConfigured),
        Ok(WireCode::EModulation) => Some(ErrorCode::EModulation),
        Ok(WireCode::EUnknownCmd) => Some(ErrorCode::EUnknownCmd),
        Ok(WireCode::EBusy) => Some(ErrorCode::EBusy),
        Ok(WireCode::ERadio) => Some(ErrorCode::ERadio),
        Ok(WireCode::EFrame) => Some(ErrorCode::EFrame),
        Ok(WireCode::EInternal) => Some(ErrorCode::EInternal),
        Ok(WireCode::Unknown(raw)) => Some(ErrorCode::Unknown(raw)),
        Err(_) => None,
    }
}

// ---------------------------------------------------------------------
// TX and TX_DONE
// ---------------------------------------------------------------------

/// `donglora_protocol::TxFlags::as_byte`: bit 0 is `skip_cad`, the other bits
/// are zero.
#[verifier::external_body]
pub(crate) fn tx_flags_byte(skip_cad: bool) -> (r: u8)
    ensures
        r == byte_of_flag(skip_cad),
{
    donglora_protocol::TxFlags { skip_cad }.as_byte()
}

/// The transmission result with the wire number `v`.
pub open spec fn tx_result_of(v: u8) -> TxResult {
    if v == 0 {
        TxResult::Transmitted
    } else if v == 1 {
        TxResult::ChannelBusy
    } else {
        TxResult::Cancelled
    }
}

/// What a `TX_DONE` payload says: a result byte, then the airtime.
pub open spec fn tx_done_payload(b: Seq<u8>) -> Option<TxDonePayload> {
    if b.len() == 5 && b[0] <= 2 {
        Some(TxDonePayload { result: tx_result_of(b[0]), airtime_us: le32(b, 1) as u32 })
    } else {
        None
    }
}

/// `donglora_protocol::TxDonePayload::decode`: reads the five bytes of a
/// `TX_DONE` payload, and refuses another length or an unassigned result.
#[verifier::external_body]
pub(crate) fn decode_tx_done(payload: &[u8]) -> (r: Option<TxDonePayload>)
    ensures
        r == tx_done_payload(payload@),
{
    match donglora_protocol::TxDonePayload::decode(payload) {
        Ok(td) => Some(TxDonePayload {
            result: match td.result {
                donglora_protocol::TxResult::Transmitted => TxResult::Transmitted,
                donglora_protocol::TxResult::ChannelBusy => TxResult::ChannelBusy,
                donglora_protocol::TxResult::Cancelled => TxResult::Cancelled,
            },
            airtime_us: td.airtime_us,
        }),
        Err(_) => None,
    }
}

// ---------------------------------------------------------------------
// RX
// ---------------------------------------------------------------------

/// Bytes of metadata in front of a received packet.
pub const RX_METADATA_SIZE: usize = 20;

/// What an `RX` payload says: twenty bytes of metadata, then the packet.
pub open spec fn rx_payload(b: Seq<u8>) -> Option<RxView> {
    if RX_METADATA_SIZE <= b.len() <= RX_METADATA_SIZE + MAX_OTA_PAYLOAD && b[16] <= 1 && b[19] <= 1 {
        Some(
            RxView {
                rssi_tenths_dbm: signed(le16(b, 0), 0x8000) as i16,
                snr_tenths_db: signed(le16(b, 2), 0x8000) as i16,
                freq_err_hz: signed(le32(b, 4), 0x8000_0000) as i32,
                timestamp_us: le64(b, 8) as u64,
                crc_valid: b[16] == 1,
                packets_dropped: le16(b, 17) as u16,
                origin: if b[19] == 0 {
                    RxOrigin::Ota
                } else {
                    RxOrigin::LocalLoopback
                },
                data: b.skip(RX_METADATA_SIZE as int),
            },
        )
    } else {
        None
    }
}

/// `donglora_protocol::RxPayload::decode`: reads the metadata and the packet
/// of an `RX` payload. It refuses a payload that is too short or holds more
/// than the longest packet, and a flag or an origin that is not assigned.
#[verifier::external_body]
pub(crate) fn decode_rx(payload: &[u8]) -> (r: Option<RxPayload>)
    ensures
        r is Some <==> rx_payload(payload@) is Some,
        r is Some ==> r->0@ == rx_payload(payload@)->0,
{
    match donglora_protocol::RxPayload::decode(payload) {
        Ok(rx) => Some(RxPayload {
            rssi_tenths_dbm: rx.rssi_tenths_dbm, snr_tenths_db: rx.snr_tenths_db,
            freq_err_hz: rx.freq_err_hz, timestamp_us: rx.timestamp_us,
            crc_valid: rx.crc_valid, packets_dropped: rx.packets_dropped,
            origin: match rx.origin {
                donglora_protocol::RxOrigin::Ota => RxOrigin::Ota,
                donglora_protocol::RxOrigin::LocalLoopback => RxOrigin::LocalLoopback,
            },
            data: rx.data.to_vec(),
        }),
        Err(_) => None,
    }
}

// ---------------------------------------------------------------------
// GET_INFO
// ---------------------------------------------------------------------

/// Bytes of a `GET_INFO` answer besides the two identifiers.
pub const INFO_FIXED_SIZE: usize = 37;

/// `b` is long enough for the identifiers whose lengths it declares, and
/// these do not exceed their limits. Bytes after them are allowed.
pub open spec fn info_fits(b: Seq<u8>) -> bool {
    &&& b.len() >= INFO_FIXED_SIZE
    &&& b[35] <= MAX_MCU_UID_LEN
    &&& b.len() >= INFO_FIXED_SIZE + b[35]
    &&& b[36 + b[35]] <= MAX_RADIO_UID_LEN
    &&& b.len() >= INFO_FIXED_SIZE + b[35] + b[36 + b[35]]
}

/// `b` followed by zeros, `len` bytes in all.
pub open spec fn padded(b: Seq<u8>, len: nat) -> Seq<u8> {
    Seq::new(
        len,
        |k: int|
            if k < b.len() {
                b[k]
            } else {
                0u8
            },
    )
}

/// What a `GET_INFO` answer says.
pub open spec fn info_payload(b: Seq<u8>) -> Option<InfoView> {
    if info_fits(b) {
        let mcu_len = b[35] as int;
        let radio_len = b[36 + mcu_len] as int;
        Some(
            InfoView {
                proto_major: b[0],
                proto_minor: b[1],
                fw_major: b[2],
                fw_minor: b[3],
                fw_patch: b[4],
                radio_chip_id: le16(b, 5) as u16,
                capability_bitmap: le64(b, 7) as u64,
                supported_sf_bitmap: le16(b, 15) as u16,
                supported_bw_bitmap: le16(b, 17) as u16,
                max_payload_bytes: le16(b, 19) as u16,
                rx_queue_capacity: le16(b, 21) as u16,
                tx_queue_capacity: le16(b, 23) as u16,
                freq_min_hz: le32(b, 25) as u32,
                freq_max_hz: le32(b, 29) as u32,
                tx_power_min_dbm: signed(b[33] as int, 0x80) as i8,
                tx_power_max_dbm: signed(b[34] as int, 0x80) as i8,
                mcu_uid_len: b[35],
                mcu_uid: padded(b.subrange(36, 36 + mcu_len), MAX_MCU_UID_LEN as nat),
                radio_uid_len: b[36 + mcu_len],
                radio_uid: padded(b.subrange(37 + mcu_len, 37 + mcu_len + radio_len), MAX_RADIO_UID_LEN as nat),
            },
        )
    } else {
        None
    }
}

/// `donglora_protocol::OkPayload::parse_for`, the `Info` shape: the answer to
/// `GET_INFO`. It is read where the declared identifiers fit, and every field
/// comes from its place in the payload.
#[verifier::external_body]
pub(crate) fn parse_ok_info(cmd_type: u8, payload: &[u8]) -> (r: Option<Info>)
    ensures
        r is Some <==> (cmd_type == TYPE_GET_INFO && info_payload(payload@) is Some),
        r is Some ==> r->0@ == info_payload(payload@)->0,
{
    match donglora_protocol::OkPayload::parse_for(cmd_type, payload) {
        Ok(donglora_protocol::OkPayload::Info(i)) => Some(Info {
            proto_major: i.proto_major, proto_minor: i.proto_minor, fw_major: i.fw_major,
            fw_minor: i.fw_minor, fw_patch: i.fw_patch, radio_chip_id: i.radio_chip_id,
            capability_bitmap: i.capability_bitmap, supported_sf_bitmap: i.supported_sf_bitmap,
            supported_bw_bitmap: i.supported_bw_bitmap, max_payload_bytes: i.max_payload_bytes,
            rx_queue_capacity: i.rx_queue_capacity, tx_queue_capacity: i.tx_queue_capacity,
            freq_min_hz: i.freq_min_hz, freq_max_hz: i.freq_max_hz,
            tx_power_min_dbm: i.tx_power_min_dbm, tx_power_max_dbm: i.tx_power_max_dbm,
            mcu_uid_len: i.mcu_uid_len, mcu_uid: i.mcu_uid,
            radio_uid_len: i.radio_uid_len, radio_uid: i.radio_uid,
        }),
        _ => None,
    }
}

/// The commands whose `OK` carries no payload.
pub open spec fn answers_empty(cmd_type: u8) -> bool {
    cmd_type == TYPE_PING || cmd_type == TYPE_TX || cmd_type == TYPE_RX_START || cmd_type == TYPE_RX_STOP
}

/// `donglora_protocol::OkPayload::parse_for`, the `Empty` shape: the answer
/// to `PING`, `TX`, `RX_START` and `RX_STOP`, which has no payload.
#[verifier::external_body]
pub(crate) fn parse_ok_empty(cmd_type: u8, payload: &[u8]) -> (r: bool)
    ensures
        r == (answers_empty(cmd_type) && payload@.len() == 0),
{
    matches!(
        donglora_protocol::OkPayload::parse_for(cmd_type, payload),
        Ok(donglora_protocol::OkPayload::Empty)
    )
}

// ---------------------------------------------------------------------
// Laws
// ---------------------------------------------------------------------

/// `ERR` carries two bytes, the number of the error, low byte first.
pub proof fn err_on_the_wire(b: Seq<u8>)
    ensures
        err_payload(b) is Some <==> b.len() == 2,
        err_payload(b) matches Some(code) ==> code == error_code_of(b[0] + 0x100 * b[1]),
{
}

/// `TX_DONE` carries five bytes: what became of the packet, and for how many
/// microseconds it was on the air.
pub proof fn tx_done_on_the_wire(b: Seq<u8>)
    ensures
        tx_done_payload(b) is Some <==> b.len() == 5 && b[0] <= 2,
        tx_done_payload(b) matches Some(td) ==> {
            &&& td.result is Transmitted <==> b[0] == 0
            &&& td.result is ChannelBusy <==> b[0] == 1
            &&& td.result is Cancelled <==> b[0] == 2
            &&& td.airtime_us == b[1] + 0x100 * b[2] + 0x1_0000 * b[3] + 0x100_0000 * b[4]
        },
{
}

/// `RX` carries twenty bytes about the packet, and then the packet as it was
/// received, of 255 bytes at the most.
pub proof fn rx_on_the_wire(b: Seq<u8>)
    ensures
        rx_payload(b) is Some <==> 20 <= b.len() <= 275 && b[16] <= 1 && b[19] <= 1,
        rx_payload(b) matches Some(rx) ==> {
            &&& (rx.rssi_tenths_dbm - (b[0] + 0x100 * b[1])) % 0x1_0000 == 0
            &&& (rx.snr_tenths_db - (b[2] + 0x100 * b[3])) % 0x1_0000 == 0
            &&& (rx.freq_err_hz - (b[4] + 0x100 * b[5] + 0x1_0000 * b[6] + 0x100_0000 * b[7])) % 0x1_0000_0000 == 0
            &&& rx.timestamp_us % 0x1_0000_0000 == b[8] + 0x100 * b[9] + 0x1_0000 * b[10] + 0x100_0000 * b[11]
            &&& rx.timestamp_us / 0x1_0000_0000 == b[12] + 0x100 * b[13] + 0x1_0000 * b[14] + 0x100_0000 * b[15]
            &&& rx.crc_valid <==> b[16] == 1
            &&& rx.packets_dropped == b[17] + 0x100 * b[18]
            &&& rx.origin is Ota <==> b[19] == 0
            &&& rx.origin is LocalLoopback <==> b[19] == 1
            &&& rx.data.len() == b.len() - 20
            &&& forall|i: int| 0 <= i < rx.data.len() ==> #[trigger] rx.data[i] == b[20 + i]
        },
{
}

/// `GET_INFO` is answered by 35 bytes, then two identifiers, each behind a byte
/// that says how long it is: 32 bytes at the most, and 16. What follows them is
/// not looked at.
pub proof fn info_on_the_wire(b: Seq<u8>)
    ensures
        info_payload(b) is Some <==> b.len() >= 37 && b[35] <= 32 && b.len() >= 37 + b[35] && b[36 + b[35]] <= 16 && b.len()
            >= 37 + b[35] + b[36 + b[35]],
        info_payload(b) matches Some(i) ==> {
            &&& i.proto_major == b[0]
            &&& i.proto_minor == b[1]
            &&& i.fw_major == b[2]
            &&& i.fw_minor == b[3]
            &&& i.fw_patch == b[4]
            &&& i.radio_chip_id == b[5] + 0x100 * b[6]
            &&& i.capability_bitmap % 0x1_0000_0000 == b[7] + 0x100 * b[8] + 0x1_0000 * b[9] + 0x100_0000 * b[10]
            &&& i.capability_bitmap / 0x1_0000_0000 == b[11] + 0x100 * b[12] + 0x1_0000 * b[13] + 0x100_0000 * b[14]
            &&& i.supported_sf_bitmap == b[15] + 0x100 * b[16]
            &&& i.supported_bw_bitmap == b[17] + 0x100 * b[18]
            &&& i.max_payload_bytes == b[19] + 0x100 * b[20]
            &&& i.rx_queue_capacity == b[21] + 0x100 * b[22]
            &&& i.tx_queue_capacity == b[23] + 0x100 * b[24]
            &&& i.freq_min_hz == b[25] + 0x100 * b[26] + 0x1_0000 * b[27] + 0x100_0000 * b[28]
            &&& i.freq_max_hz == b[29] + 0x100 * b[30] + 0x1_0000 * b[31] + 0x100_0000 * b[32]
            &&& (i.tx_power_min_dbm - b[33]) % 0x100 == 0
            &&& (i.tx_power_max_dbm - b[34]) % 0x100 == 0
            &&& i.mcu_uid_len == b[35]
            &&& i.mcu_uid.len() == 32
            &&& forall|k: int| 0 <= k < b[35] ==> #[trigger] i.mcu_uid[k] == b[36 + k]
            &&& forall|k: int| b[35] <= k < 32 ==> #[trigger] i.mcu_uid[k] == 0
            &&& i.radio_uid_len == b[36 + b[35]]
            &&& i.radio_uid.len() == 16
            &&& forall|k: int| 0 <= k < i.radio_uid_len ==> #[trigger] i.radio_uid[k] == b[37 + b[35] + k]
            &&& forall|k: int| i.radio_uid_len <= k < 16 ==> #[trigger] i.radio_uid[k] == 0
        },
{
}

/// Each number of an error on the wire names one error code, and a number that
/// is not assigned is kept.
pub proof fn error_code_numbers(v: u16)
    ensures
        error_code_of(v as int) is EParam <==> v == 0x0001,
        error_code_of(v as int) is ELength <==> v == 0x0002,
        error_code_of(v as int) is ENotConfigured <==> v == 0x0003,
        error_code_of(v as int) is EModulation <==> v == 0x0004,
        error_code_of(v as int) is EUnknownCmd <==> v == 0x0005,
        error_code_of(v as int) is EBusy <==> v == 0x0006,
        error_code_of(v as int) is ERadio <==> v == 0x0101,
        error_code_of(v as int) is EFrame <==> v == 0x0102,
        error_code_of(v as int) is EInternal <==> v == 0x0103,
        error_code_of(v as int) is Unknown ==> error_code_of(v as int) == ErrorCode::Unknown(v),
{
}

} // verus!
