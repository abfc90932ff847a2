use donglora_client::commands::{ping_request, set_config_reply, set_config_request};
use donglora_client::errors::ClientResult;
use donglora_client::modulation::{
    FlrcBitrate, FlrcBt, FlrcCodingRate, FlrcPreambleLen, LrFhssBandwidth, LrFhssCodingRate, LrFhssGrid,
};
use donglora_client::protocol as p;
use donglora_client::session::RxStep;
use donglora_client::transport::{
    serial_open_error, tcp_connect_error, tcp_nodelay_error, tcp_timeout_error, unix_connect_error, BAUD_RATE,
};
use donglora_client::{
    ClientError, ErrorCode, FlrcConfig, FskConfig, LoRaBandwidth, LoRaCodingRate, LoRaConfig, LoRaHeaderMode,
    LrFhssConfig, Modulation, Owner, Session, SessionResponse, SetConfigResult, SetConfigResultCode, TxDonePayload,
    TxResult,
};
use donglora_protocol::{encode_frame, events, Command, FrameDecoder, FrameResult, MAX_WIRE_FRAME};
use std::time::Duration;

fn meshcore_us() -> Modulation {
    Modulation::LoRa(LoRaConfig {
        freq_hz: 910_525_000,
        sf: 7,
        bw: LoRaBandwidth::Khz62,
        cr: LoRaCodingRate::Cr4_5,
        preamble_len: 16,
        sync_word: 0x1424,
        tx_power_dbm: 20,
        header_mode: LoRaHeaderMode::Explicit,
        payload_crc: true,
        iq_invert: false,
    })
}

fn frame(type_id: u8, tag: u16, payload: &[u8]) -> Vec<u8> {
    let mut wire = [0u8; MAX_WIRE_FRAME];
    let n = encode_frame(type_id, tag, payload, &mut wire).unwrap();
    wire[..n].to_vec()
}

fn read_frame(wire: &[u8]) -> (u8, u16, Vec<u8>) {
    let mut decoder = FrameDecoder::new();
    let mut saw: Option<(u8, u16, Vec<u8>)> = None;
    decoder.feed(wire, |res| match res {
        FrameResult::Ok { type_id, tag, payload } => saw = Some((type_id, tag, payload.to_vec())),
        FrameResult::Err(e) => panic!("decode error: {e:?}"),
    });
    saw.expect("frame")
}

/// The answer that a session makes of a frame to a command of type `cmd_type`.
fn answer(cmd_type: u8, type_id: u8, payload: &[u8]) -> SessionResponse {
    let mut session: Session<u32> = Session::new();
    let mut request = ping_request(Duration::from_secs(1));
    request.type_id = cmd_type;
    let sent = session.send_command(&request, 0).unwrap();
    let (mut wakes, _) = session.on_read(Some(&frame(type_id, sent.tag, payload)));
    wakes.pop().unwrap().response
}

#[test]
fn set_config_roundtrip() {
    let mut session: Session<u32> = Session::new();
    // Commands before it, up to the tag.
    for _ in 1..42 {
        session.send_command(&ping_request(Duration::from_secs(1)), 0).unwrap();
    }
    let request = set_config_request(&meshcore_us(), Duration::from_secs(1)).unwrap();
    let sent = session.send_command(&request, 0).unwrap();
    let (type_id, tag, payload) = read_frame(&sent.wire);
    assert_eq!(type_id, request.type_id);
    assert_eq!(tag, 42);

    let parsed = Command::parse(type_id, &payload).unwrap();
    match parsed {
        Command::SetConfig(donglora_protocol::Modulation::LoRa(c)) => {
            assert_eq!(c.freq_hz, 910_525_000);
            assert_eq!(c.sync_word, 0x1424);
            assert_eq!(c.tx_power_dbm, 20);
        }
        _ => panic!("expected LoRa SET_CONFIG"),
    }
}

#[test]
fn tx_done_roundtrip() {
    let td = TxDonePayload { result: TxResult::Transmitted, airtime_us: 98_765 };
    let wire = donglora_protocol::TxDonePayload {
        result: donglora_protocol::TxResult::Transmitted,
        airtime_us: 98_765,
    };
    let mut buf = [0u8; donglora_protocol::TxDonePayload::WIRE_SIZE];
    wire.encode(&mut buf).unwrap();
    match answer(donglora_protocol::commands::TYPE_TX, events::TYPE_TX_DONE, &buf) {
        SessionResponse::TxDone(got) => assert_eq!(got, td),
        other => panic!("{other:?}"),
    }
}

#[test]
fn rx_roundtrip() {
    let mut rx = donglora_protocol::RxPayload {
        rssi_tenths_dbm: -812,
        snr_tenths_db: 73,
        freq_err_hz: -211,
        timestamp_us: 1_000_000_000_000,
        crc_valid: true,
        packets_dropped: 3,
        origin: donglora_protocol::RxOrigin::Ota,
        data: Default::default(),
    };
    rx.data.extend_from_slice(b"hello, lora!").unwrap();
    let mut buf = [0u8; donglora_protocol::RxPayload::METADATA_SIZE + 64];
    let n = rx.encode(&mut buf).unwrap();
    let mut session: Session<u32> = Session::new();
    session.on_read(Some(&frame(events::TYPE_RX, 0, &buf[..n])));
    let RxStep::Packet(got) = session.recv_rx() else {
        panic!("no packet");
    };
    assert_eq!(got.rssi_tenths_dbm, -812);
    assert_eq!(got.snr_tenths_db, 73);
    assert_eq!(got.freq_err_hz, -211);
    assert_eq!(got.timestamp_us, 1_000_000_000_000);
    assert!(got.crc_valid);
    assert_eq!(got.packets_dropped, 3);
    assert_eq!(got.origin, donglora_client::RxOrigin::Ota);
    assert_eq!(&got.data[..], b"hello, lora!");
}

#[test]
fn rx_limits() {
    let take = |payload: &[u8]| {
        let mut session: Session<u32> = Session::new();
        session.on_read(Some(&frame(events::TYPE_RX, 0, payload)));
        match session.recv_rx() {
            RxStep::Packet(p) => Some(p),
            _ => None,
        }
    };
    let mut longest = vec![0u8; 275];
    longest[8..16].copy_from_slice(&u64::MAX.to_le_bytes());
    longest[19] = 1;
    let p = take(&longest).unwrap();
    assert_eq!(p.data.len(), 255);
    assert_eq!(p.timestamp_us, u64::MAX);
    assert_eq!(p.origin, donglora_client::RxOrigin::LocalLoopback);
    assert!(!p.crc_valid);
    assert_eq!(take(&[0u8; 20]).unwrap().data.len(), 0);
    assert!(take(&[0u8; 19]).is_none());
    let mut flag = vec![0u8; 20];
    flag[16] = 2;
    assert!(take(&flag).is_none());
    let mut origin = vec![0u8; 20];
    origin[19] = 2;
    assert!(take(&origin).is_none());
}

#[test]
fn lora_payload_bytes() {
    let cfg = LoRaConfig {
        freq_hz: 868_100_000,
        sf: 7,
        bw: LoRaBandwidth::Khz125,
        cr: LoRaCodingRate::Cr4_5,
        preamble_len: 8,
        sync_word: 0x1424,
        tx_power_dbm: -9,
        header_mode: LoRaHeaderMode::Implicit,
        payload_crc: true,
        iq_invert: false,
    };
    let want = vec![
        0x01, 0xA0, 0x27, 0xBE, 0x33, 0x07, 0x07, 0x00, 0x08, 0x00, 0x24, 0x14, 0xF7, 0x01, 0x01, 0x00,
    ];
    assert_eq!(Modulation::LoRa(cfg).encode(), Some(want));
}

fn sample_configs() -> Vec<Modulation> {
    vec![
        meshcore_us(),
        Modulation::FskGfsk(FskConfig {
            freq_hz: 868_000_000,
            bitrate_bps: 9_600,
            freq_dev_hz: 5_000,
            rx_bw: 11,
            preamble_len: 0x1234,
            sync_word_len: 3,
            sync_word: [1, 2, 3, 0, 0, 0, 0, 0],
        }),
        Modulation::LrFhss(LrFhssConfig {
            freq_hz: 915_000_000,
            bw: LrFhssBandwidth::Khz722,
            cr: LrFhssCodingRate::Cr1_3,
            grid: LrFhssGrid::Khz3_9,
            hopping: true,
            tx_power_dbm: -4,
        }),
        Modulation::Flrc(FlrcConfig {
            freq_hz: 2_400_000_000,
            bitrate: FlrcBitrate::Kbps260,
            cr: FlrcCodingRate::Cr1_1,
            bt: FlrcBt::Bt1_0,
            preamble_len: FlrcPreambleLen::Bits32,
            sync_word: 0xDEAD_BEEF,
            tx_power_dbm: 12,
        }),
    ]
}

#[test]
fn every_config_is_echoed_back() {
    for cfg in sample_configs() {
        let payload = cfg.encode().unwrap();
        for (result, code) in [
            (0u8, SetConfigResultCode::Applied),
            (1, SetConfigResultCode::AlreadyMatched),
            (2, SetConfigResultCode::LockedMismatch),
        ] {
            for (owner, who) in [(0u8, Owner::Unowned), (1, Owner::Mine), (2, Owner::Other)] {
                let mut echo = vec![result, owner];
                echo.extend_from_slice(&payload);
                let got = set_config_reply(Ok(answer(3, events::TYPE_OK, &echo))).unwrap();
                assert_eq!(got, SetConfigResult { result: code, owner: who, current: cfg });
            }
        }
    }
}

#[test]
fn unused_sync_word_bytes_are_not_carried() {
    let fsk = FskConfig {
        freq_hz: 1,
        bitrate_bps: 2,
        freq_dev_hz: 3,
        rx_bw: 4,
        preamble_len: 5,
        sync_word_len: 2,
        sync_word: [9; 8],
    };
    let mut echo = vec![0u8, 0];
    echo.extend_from_slice(&Modulation::FskGfsk(fsk).encode().unwrap());
    let got = set_config_reply(Ok(answer(3, events::TYPE_OK, &echo))).unwrap();
    let carried = FskConfig { sync_word: [9, 9, 0, 0, 0, 0, 0, 0], ..fsk };
    assert_eq!(got.current, Modulation::FskGfsk(carried));
}

#[test]
fn broken_config_answers_are_refused() {
    let refused = |payload: &[u8]| {
        matches!(
            answer(3, events::TYPE_OK, payload),
            SessionResponse::Failed(ClientError::BadFrame(_))
        )
    };
    assert!(refused(&[]));
    assert!(refused(&[0, 0]));
    assert!(refused(&[0, 0, 9]));
    for cfg in sample_configs() {
        let mut echo = vec![0u8, 0];
        echo.extend_from_slice(&cfg.encode().unwrap());
        assert!(!refused(&echo));
        assert!(refused(&echo[..echo.len() - 1]));
        let mut longer = echo.clone();
        longer.push(0);
        assert!(refused(&longer));
        for at in [0, 1] {
            let mut bad = echo.clone();
            bad[at] = 3;
            assert!(refused(&bad));
        }
    }
}

#[test]
fn protocol_numbers() {
    assert_eq!(p::TYPE_PING, donglora_protocol::commands::TYPE_PING);
    assert_eq!(p::TYPE_GET_INFO, donglora_protocol::commands::TYPE_GET_INFO);
    assert_eq!(p::TYPE_SET_CONFIG, donglora_protocol::commands::TYPE_SET_CONFIG);
    assert_eq!(p::TYPE_TX, donglora_protocol::commands::TYPE_TX);
    assert_eq!(p::TYPE_RX_START, donglora_protocol::commands::TYPE_RX_START);
    assert_eq!(p::TYPE_RX_STOP, donglora_protocol::commands::TYPE_RX_STOP);
    assert_eq!(p::TYPE_OK, events::TYPE_OK);
    assert_eq!(p::TYPE_ERR, events::TYPE_ERR);
    assert_eq!(p::TYPE_RX, events::TYPE_RX);
    assert_eq!(p::TYPE_TX_DONE, events::TYPE_TX_DONE);
    assert_eq!(p::MAX_OTA_PAYLOAD, donglora_protocol::MAX_OTA_PAYLOAD);
    assert_eq!(p::MAX_PAYLOAD_FIELD, donglora_protocol::MAX_PAYLOAD_FIELD);
    assert_eq!(p::MAX_WIRE_FRAME, donglora_protocol::MAX_WIRE_FRAME);
    assert_eq!(p::MAX_MCU_UID_LEN, donglora_protocol::MAX_MCU_UID_LEN);
    assert_eq!(p::MAX_RADIO_UID_LEN, donglora_protocol::MAX_RADIO_UID_LEN);
    assert_eq!(donglora_client::frame::MAX_ENCODED_RUN + 1, MAX_WIRE_FRAME);
    assert_eq!(donglora_client::modulation::MAX_SYNC_WORD_LEN, donglora_protocol::MAX_SYNC_WORD_LEN);
    for v in 0..=255u8 {
        assert_eq!(
            LoRaBandwidth::from_u8(v).map(|b| format!("{b:?}")),
            donglora_protocol::LoRaBandwidth::from_u8(v).map(|b| format!("{b:?}"))
        );
        assert_eq!(LoRaBandwidth::from_u8(v).map(|b| b.name().to_string()), LoRaBandwidth::from_u8(v).map(|b| format!("{b:?}")));
        assert_eq!(
            LrFhssBandwidth::from_u8(v).map(|b| format!("{b:?}")),
            donglora_protocol::LrFhssBandwidth::from_u8(v).map(|b| format!("{b:?}"))
        );
        assert_eq!(
            FlrcBitrate::from_u8(v).map(|b| format!("{b:?}")),
            donglora_protocol::FlrcBitrate::from_u8(v).map(|b| format!("{b:?}"))
        );
        assert_eq!(
            FlrcPreambleLen::from_u8(v).map(|b| format!("{b:?}")),
            donglora_protocol::FlrcPreambleLen::from_u8(v).map(|b| format!("{b:?}"))
        );
    }
}

#[test]
fn every_error_code_has_its_error() {
    let error = |code: u16| match answer(1, events::TYPE_ERR, &code.to_le_bytes()) {
        SessionResponse::Failed(e) => e,
        other => panic!("{other:?}"),
    };
    assert!(matches!(error(0x0001), ClientError::Param));
    assert!(matches!(error(0x0002), ClientError::Length));
    assert!(matches!(error(0x0003), ClientError::NotConfigured));
    assert!(matches!(error(0x0004), ClientError::Modulation));
    assert!(matches!(error(0x0005), ClientError::UnknownCmd));
    assert!(matches!(error(0x0006), ClientError::Busy));
    assert!(matches!(error(0x0101), ClientError::Radio));
    assert!(matches!(error(0x0102), ClientError::Frame));
    assert!(matches!(error(0x0103), ClientError::Internal));
    assert!(matches!(error(0x0000), ClientError::UnknownCode(0)));
    assert!(matches!(error(0xBEEF), ClientError::UnknownCode(0xBEEF)));
    assert!(matches!(ClientError::from_wire(ErrorCode::Unknown(7)), ClientError::UnknownCode(7)));
}

fn every_error() -> Vec<ClientError> {
    vec![
        ClientError::NotConfigured,
        ClientError::Busy,
        ClientError::Param,
        ClientError::Length,
        ClientError::Modulation,
        ClientError::UnknownCmd,
        ClientError::Radio,
        ClientError::Frame,
        ClientError::Internal,
        ClientError::UnknownCode(0x0ABC),
        ClientError::ChannelBusy,
        ClientError::Cancelled,
        ClientError::Timeout { what: "TX" },
        ClientError::TransportClosed("a".to_string()),
        ClientError::ReaderExited,
        ClientError::BadFrame("b".to_string()),
        ClientError::EncodeFailed("c".to_string()),
        ClientError::ConfigNotSupported { reason: "d".to_string() },
        ClientError::Other("e".to_string()),
    ]
}

#[test]
fn messages() {
    let texts: Vec<String> = every_error().iter().map(|e| e.message()).collect();
    assert_eq!(
        texts,
        vec![
            "device is not configured (ENOTCONFIGURED)",
            "firmware TX queue is full (EBUSY)",
            "parameter out of range (EPARAM)",
            "payload length wrong (ELENGTH)",
            "modulation not supported (EMODULATION)",
            "unknown command (EUNKNOWN_CMD)",
            "radio hardware error (ERADIO)",
            "framing error (EFRAME)",
            "firmware internal error (EINTERNAL)",
            "unknown error code 0x0ABC",
            "channel busy — CAD detected activity",
            "TX cancelled before airtime",
            "timed out waiting for TX",
            "transport closed: a",
            "session reader exited",
            "inbound frame corrupted: b",
            "frame encode failed: c",
            "config not supported: d",
            "e",
        ]
    );
    let io = ClientError::from(std::io::Error::new(std::io::ErrorKind::Other, "broken"));
    assert_eq!(io.message(), "I/O error: broken");
}

#[test]
fn copies_of_errors() {
    for e in every_error() {
        assert_eq!(format!("{:?}", e.clone_kind()), format!("{e:?}"));
        let busy = matches!(e, ClientError::Busy | ClientError::ChannelBusy);
        assert_eq!(e.is_retryable(), busy);
    }
    let io = ClientError::Io(std::io::Error::new(std::io::ErrorKind::Other, "broken"));
    assert!(!io.is_retryable());
    assert!(matches!(io.clone_kind(), ClientError::Other(s) if s == "io: broken"));
}

#[test]
fn transport_error_texts() {
    assert_eq!(serial_open_error("/dev/x", "no").message(), "failed to open serial port /dev/x: no");
    assert_eq!(unix_connect_error("/x", "no").message(), "failed to connect to mux socket /x: no");
    assert_eq!(tcp_connect_error("h", 80, "no").message(), "failed to connect to h:80: no");
    assert_eq!(tcp_nodelay_error("no").message(), "failed to set TCP_NODELAY: no");
    assert_eq!(tcp_timeout_error().message(), "timed out waiting for tcp connect");
    assert_eq!(BAUD_RATE, 115_200);
    let result: ClientResult<()> = Err(tcp_timeout_error());
    assert!(result.is_err());
}
