use donglora_client::commands::{
    get_info_reply, get_info_request, ping_reply, ping_request, rx_start_reply, rx_start_request, rx_stop_request,
    set_config_reply, set_config_request, transmit_reply, transmit_request, unexpected_response,
};
use donglora_client::session::{Completion, RxStep, Sent, Wake};
use donglora_client::{
    ClientError, ClientResult, FskConfig, LoRaBandwidth, LoRaCodingRate, LoRaConfig, LoRaHeaderMode, Modulation, Owner,
    Request, Session, SessionResponse, SetConfigResultCode, TxResult,
};
use donglora_protocol::{commands, encode_frame, events, FrameDecoder, FrameResult, RxOrigin, RxPayload};
use std::time::Duration;

fn lora_cfg() -> Modulation {
    Modulation::LoRa(LoRaConfig {
        freq_hz: 910_525_000,
        sf: 7,
        bw: LoRaBandwidth::Khz62,
        cr: LoRaCodingRate::Cr4_5,
        preamble_len: 16,
        sync_word: 0x1424,
        tx_power_dbm: 20,
        header_mode: LoRaHeaderMode::Explicit,
        payload_crc: true,
        iq_invert: false,
    })
}

fn secs(n: u64) -> Duration {
    Duration::from_secs(n)
}

/// What the device sees of the bytes that the session writes.
fn read_one_frame(wire: &[u8]) -> (u8, u16, Vec<u8>) {
    let mut decoder = FrameDecoder::new();
    let mut out: Option<(u8, u16, Vec<u8>)> = None;
    decoder.feed(wire, |res| match res {
        FrameResult::Ok { type_id, tag, payload } => out = Some((type_id, tag, payload.to_vec())),
        FrameResult::Err(_) => panic!("inbound frame decode failed"),
    });
    out.unwrap()
}

/// The bytes of a frame that the device writes.
fn device_frame(type_id: u8, tag: u16, payload: &[u8]) -> Vec<u8> {
    let mut wire = [0u8; donglora_protocol::MAX_WIRE_FRAME];
    let n = encode_frame(type_id, tag, payload, &mut wire).unwrap();
    wire[..n].to_vec()
}

fn send(session: &mut Session<u32>, request: &Request, waker: u32) -> Sent {
    session.send_command(request, waker).unwrap()
}

fn feed(session: &mut Session<u32>, bytes: &[u8]) -> Vec<Wake<u32>> {
    let (wakes, last) = session.on_read(Some(bytes));
    assert!(!last);
    wakes
}

/// One command and one answer.
fn exchange(session: &mut Session<u32>, request: &Request, type_id: u8, payload: &[u8]) -> ClientResult<SessionResponse> {
    let sent = send(session, request, 7);
    let mut wakes = feed(session, &device_frame(type_id, sent.tag, payload));
    assert_eq!(wakes.len(), 1);
    let wake = wakes.pop().unwrap();
    assert_eq!(wake.waker, 7);
    session.finish_command(request.type_id, sent.tag, Completion::Answered(wake.response))
}

fn tx_done(result: donglora_protocol::TxResult, airtime_us: u32) -> Vec<u8> {
    let td = donglora_protocol::TxDonePayload { result, airtime_us };
    let mut buf = [0u8; donglora_protocol::TxDonePayload::WIRE_SIZE];
    td.encode(&mut buf).unwrap();
    buf.to_vec()
}

fn err_payload(code: donglora_protocol::ErrorCode) -> Vec<u8> {
    let mut payload = [0u8; 2];
    events::encode_err_payload(code, &mut payload).unwrap();
    payload.to_vec()
}

fn rx_event(data_bytes: &[u8]) -> Vec<u8> {
    let mut rx = RxPayload {
        rssi_tenths_dbm: -720,
        snr_tenths_db: 95,
        freq_err_hz: -100,
        timestamp_us: 1_111_111,
        crc_valid: true,
        packets_dropped: 0,
        origin: RxOrigin::Ota,
        data: Default::default(),
    };
    rx.data.extend_from_slice(data_bytes).unwrap();
    let mut buf = [0u8; RxPayload::METADATA_SIZE + donglora_protocol::MAX_OTA_PAYLOAD];
    let n = rx.encode(&mut buf).unwrap();
    device_frame(events::TYPE_RX, 0, &buf[..n])
}

#[test]
fn ping_round_trip() {
    let mut session: Session<u32> = Session::new();
    let request = ping_request(secs(1));
    let sent = send(&mut session, &request, 1);
    let (type_id, tag, _payload) = read_one_frame(&sent.wire);
    assert_eq!(type_id, commands::TYPE_PING);
    let mut wakes = feed(&mut session, &device_frame(events::TYPE_OK, tag, &[]));
    assert_eq!(wakes.len(), 1);
    let wake = wakes.pop().unwrap();
    assert_eq!(wake.waker, 1);
    let answer = session.finish_command(request.type_id, tag, Completion::Answered(wake.response));
    ping_reply(answer).unwrap();
    session.close();
}

#[test]
fn err_maps_to_client_error() {
    let mut session: Session<u32> = Session::new();
    let answer = exchange(
        &mut session,
        &ping_request(secs(1)),
        events::TYPE_ERR,
        &err_payload(donglora_protocol::ErrorCode::ENotConfigured),
    );
    let result = ping_reply(answer);
    assert!(matches!(result, Err(ClientError::NotConfigured)));
}

#[test]
fn tx_two_phase_completion() {
    let mut session: Session<u32> = Session::new();
    let request = transmit_request(b"hello", false, secs(1)).unwrap();
    let sent = send(&mut session, &request, 1);
    let (type_id, tag, payload) = read_one_frame(&sent.wire);
    assert_eq!(type_id, commands::TYPE_TX);
    assert_eq!(payload[0] & 1, 0, "skip_cad should be 0");
    assert_eq!(&payload[1..], b"hello");

    // The intermediate OK must not resolve the command.
    assert!(feed(&mut session, &device_frame(events::TYPE_OK, tag, &[])).is_empty());

    let done = tx_done(donglora_protocol::TxResult::Transmitted, 12_345);
    let mut wakes = feed(&mut session, &device_frame(events::TYPE_TX_DONE, tag, &done));
    let wake = wakes.pop().unwrap();
    let result = transmit_reply(Ok(wake.response)).unwrap();
    assert_eq!(result.airtime_us, 12_345);
    assert_eq!(result.result, TxResult::Transmitted);
}

#[test]
fn tx_channel_busy_maps_to_error() {
    let mut session: Session<u32> = Session::new();
    let request = transmit_request(b"x", false, secs(1)).unwrap();
    let tag = send(&mut session, &request, 1).tag;
    assert!(feed(&mut session, &device_frame(events::TYPE_OK, tag, &[])).is_empty());
    let done = tx_done(donglora_protocol::TxResult::ChannelBusy, 0);
    let mut wakes = feed(&mut session, &device_frame(events::TYPE_TX_DONE, tag, &done));
    let wake = wakes.pop().unwrap();
    assert!(matches!(transmit_reply(Ok(wake.response)), Err(ClientError::ChannelBusy)));
}

#[test]
fn async_rx_delivered_to_queue() {
    let mut session: Session<u32> = Session::new();
    assert!(feed(&mut session, &rx_event(b"rx-payload")).is_empty());
    match session.recv_rx() {
        RxStep::Packet(got) => {
            assert_eq!(&got.data[..], b"rx-payload");
            assert_eq!(got.rssi_tenths_dbm, -720);
            assert_eq!(got.snr_tenths_db, 95);
            assert_eq!(got.freq_err_hz, -100);
            assert_eq!(got.timestamp_us, 1_111_111);
        }
        other => panic!("no packet: {other:?}"),
    }
    session.close();
}

#[test]
fn concurrent_sends_correlate_by_tag() {
    let mut session: Session<u32> = Session::new();
    let request = ping_request(secs(2));
    let a = send(&mut session, &request, 1);
    let b = send(&mut session, &request, 2);
    let (t1, tag1, _) = read_one_frame(&a.wire);
    let (t2, tag2, _) = read_one_frame(&b.wire);
    assert_eq!(t1, commands::TYPE_PING);
    assert_eq!(t2, commands::TYPE_PING);
    assert_ne!(tag1, tag2, "each command gets a fresh tag");
    // Answered in reverse order.
    let second = feed(&mut session, &device_frame(events::TYPE_OK, tag2, &[]));
    let first = feed(&mut session, &device_frame(events::TYPE_OK, tag1, &[]));
    assert_eq!(second.iter().map(|w| w.waker).collect::<Vec<u32>>(), vec![2]);
    assert_eq!(first.iter().map(|w| w.waker).collect::<Vec<u32>>(), vec![1]);
    for wake in second.into_iter().chain(first) {
        ping_reply(Ok(wake.response)).unwrap();
    }
    session.close();
}

#[test]
fn close_wakes_pending_commands() {
    let mut session: Session<u32> = Session::new();
    send(&mut session, &ping_request(secs(5)), 1);
    send(&mut session, &ping_request(secs(5)), 2);
    let wakes = session.close();
    let mut wakers: Vec<u32> = wakes.iter().map(|w| w.waker).collect();
    wakers.sort_unstable();
    assert_eq!(wakers, vec![1, 2]);
    for wake in wakes {
        let err = ping_reply(Ok(wake.response)).unwrap_err();
        assert!(matches!(err, ClientError::TransportClosed(ref s) if s == "session closed"));
    }
}

#[test]
fn timeout_removes_pending_slot() {
    let mut session: Session<u32> = Session::new();
    let request = ping_request(Duration::from_millis(50));
    let tag = send(&mut session, &request, 1).tag;
    let err = session.finish_command(request.type_id, tag, Completion::TimedOut).unwrap_err();
    assert!(matches!(err, ClientError::Timeout { what: "PING" }));
    // A late answer finds nobody.
    assert!(feed(&mut session, &device_frame(events::TYPE_OK, tag, &[])).is_empty());
    assert!(session.close().is_empty());
}

#[test]
fn set_config_round_trip() {
    let mut session: Session<u32> = Session::new();
    let request = set_config_request(&lora_cfg(), secs(1)).unwrap();
    let sent = send(&mut session, &request, 1);
    let (type_id, tag, payload) = read_one_frame(&sent.wire);
    assert_eq!(type_id, commands::TYPE_SET_CONFIG);

    let current = match donglora_protocol::Command::parse(type_id, &payload).unwrap() {
        donglora_protocol::Command::SetConfig(m) => m,
        other => panic!("not SET_CONFIG: {other:?}"),
    };
    let result = donglora_protocol::SetConfigResult {
        result: donglora_protocol::SetConfigResultCode::Applied,
        owner: donglora_protocol::Owner::Mine,
        current,
    };
    let mut buf = [0u8; donglora_protocol::MAX_SETCONFIG_OK_PAYLOAD];
    let n = result.encode(&mut buf).unwrap();
    let mut wakes = feed(&mut session, &device_frame(events::TYPE_OK, tag, &buf[..n]));
    let got = set_config_reply(Ok(wakes.pop().unwrap().response)).unwrap();
    assert_eq!(got.result, SetConfigResultCode::Applied);
    assert_eq!(got.owner, Owner::Mine);
    assert_eq!(got.current, lora_cfg());
}

#[test]
fn bad_frame_lands_in_async_err_queue() {
    let mut session: Session<u32> = Session::new();
    feed(&mut session, &[0x01, 0x01, 0x00]);
    let errors = session.drain_async_errors();
    assert!(!errors.is_empty(), "expected at least one bad-frame error");
    assert!(matches!(&errors[0], ClientError::BadFrame(s) if s == "inbound frame failed CRC or COBS"));
    assert!(session.drain_async_errors().is_empty());
    session.close();
}

#[test]
fn tags_count_up_and_skip_zero() {
    let mut session: Session<u32> = Session::new();
    let request = ping_request(secs(1));
    for want in 1..=u16::MAX {
        let tag = send(&mut session, &request, 0).tag;
        assert_eq!(tag, want);
        let _ = session.finish_command(request.type_id, tag, Completion::Dropped);
    }
    assert_eq!(send(&mut session, &request, 0).tag, 1);
}

#[test]
fn tags_are_taken_in_turn() {
    let mut session: Session<u32> = Session::new();
    for k in 1..=131_072u32 {
        assert_eq!(u32::from(session.alloc_tag()), (k - 1) % 65535 + 1);
    }
    let request = ping_request(secs(1));
    assert_eq!(send(&mut session, &request, 0).tag, 3);
    assert_eq!(session.alloc_tag(), 4);
}

#[test]
fn closed_session_refuses_commands() {
    let mut session: Session<u32> = Session::new();
    assert!(!session.is_closed());
    session.close();
    assert!(session.is_closed());
    let err = session.send_command(&ping_request(secs(1)), 1).unwrap_err();
    assert!(matches!(err, ClientError::TransportClosed(ref s) if s == "session closed"));
    assert!(matches!(session.recv_rx(), RxStep::Ended));
}

#[test]
fn oversized_payload_is_refused_and_forgotten() {
    let mut session: Session<u32> = Session::new();
    let request = Request { type_id: commands::TYPE_TX, payload: vec![1u8; 276], timeout: secs(1) };
    let err = session.send_command(&request, 1).unwrap_err();
    assert!(matches!(err, ClientError::EncodeFailed(ref s) if s == "PayloadTooLarge"));
    assert!(session.close().is_empty());
    // The tag is used up all the same.
    let mut session: Session<u32> = Session::new();
    let _ = session.send_command(&request, 1);
    assert_eq!(send(&mut session, &ping_request(secs(1)), 1).tag, 2);
}

#[test]
fn longest_payload_is_sent() {
    let mut session: Session<u32> = Session::new();
    let request = Request { type_id: commands::TYPE_TX, payload: vec![0u8; 275], timeout: secs(1) };
    let sent = send(&mut session, &request, 1);
    assert!(sent.wire.len() <= 284);
    assert_eq!(read_one_frame(&sent.wire), (commands::TYPE_TX, 1, vec![0u8; 275]));
}

#[test]
fn completions_without_answer() {
    let mut session: Session<u32> = Session::new();
    let request = rx_stop_request(secs(1));
    let tag = send(&mut session, &request, 1).tag;
    let err = session.finish_command(request.type_id, tag, Completion::Dropped).unwrap_err();
    assert!(matches!(err, ClientError::ReaderExited));
    let io = std::io::Error::new(std::io::ErrorKind::BrokenPipe, "gone");
    let err = session.finish_command(request.type_id, tag, Completion::WriteFailed(io)).unwrap_err();
    assert!(matches!(err, ClientError::Io(_)));
    for (type_id, name) in [(1u8, "PING"), (2, "GET_INFO"), (3, "SET_CONFIG"), (4, "TX"), (5, "RX_START"), (6, "RX_STOP"), (9, "command")] {
        let err = session.finish_command(type_id, tag, Completion::TimedOut).unwrap_err();
        assert!(matches!(err, ClientError::Timeout { what } if what == name));
    }
}

#[test]
fn end_of_stream_wakes_everyone() {
    for end in [None, Some(&[][..])] {
        let mut session: Session<u32> = Session::new();
        send(&mut session, &ping_request(secs(1)), 5);
        feed(&mut session, &rx_event(b"last"));
        let (mut wakes, last) = session.on_read(end);
        assert!(last);
        assert_eq!(wakes.len(), 1);
        let wake = wakes.pop().unwrap();
        assert_eq!(wake.waker, 5);
        let err = ping_reply(Ok(wake.response)).unwrap_err();
        assert!(matches!(err, ClientError::TransportClosed(ref s) if s == "reader exited"));
        // What was received can still be taken.
        assert!(matches!(session.recv_rx(), RxStep::Packet(_)));
        assert!(matches!(session.recv_rx(), RxStep::Ended));
        assert!(!session.is_closed());
    }
}

#[test]
fn packets_come_out_in_order() {
    let mut session: Session<u32> = Session::new();
    assert!(matches!(session.recv_rx(), RxStep::Wait));
    let mut bytes = rx_event(b"one");
    bytes.extend_from_slice(&rx_event(b"two"));
    feed(&mut session, &bytes);
    feed(&mut session, &rx_event(b"three"));
    for want in [&b"one"[..], b"two", b"three"] {
        match session.recv_rx() {
            RxStep::Packet(p) => assert_eq!(&p.data[..], want),
            other => panic!("no packet: {other:?}"),
        }
    }
    assert!(matches!(session.recv_rx(), RxStep::Wait));
}

#[test]
fn reads_cut_anywhere_give_the_same() {
    let mut stream = rx_event(b"cut me");
    stream.extend_from_slice(&device_frame(events::TYPE_OK, 1, &[]));
    for cut in 1..stream.len() {
        let mut session: Session<u32> = Session::new();
        send(&mut session, &ping_request(secs(1)), 3);
        let mut wakes = feed(&mut session, &stream[..cut]);
        wakes.extend(feed(&mut session, &stream[cut..]));
        assert_eq!(wakes.len(), 1);
        assert_eq!(wakes[0].waker, 3);
        assert!(matches!(session.recv_rx(), RxStep::Packet(_)));
    }
}

#[test]
fn garbage_before_a_frame_is_survived() {
    let mut session: Session<u32> = Session::new();
    feed(&mut session, &[0xAA; 400]);
    feed(&mut session, &[0x00]);
    feed(&mut session, &[0x11, 0x22, 0x00]);
    feed(&mut session, &rx_event(b"fine"));
    assert!(matches!(session.recv_rx(), RxStep::Packet(_)));
    // The run that was too long is dropped without a word.
    assert_eq!(session.drain_async_errors().len(), 1);
}

#[test]
fn events_without_tag() {
    let mut session: Session<u32> = Session::new();
    send(&mut session, &ping_request(secs(1)), 1);
    let radio = err_payload(donglora_protocol::ErrorCode::ERadio);
    assert!(feed(&mut session, &device_frame(events::TYPE_ERR, 0, &radio)).is_empty());
    assert!(feed(&mut session, &device_frame(events::TYPE_ERR, 0, &[1])).is_empty());
    assert!(feed(&mut session, &device_frame(events::TYPE_RX, 0, &[1, 2, 3])).is_empty());
    assert!(feed(&mut session, &device_frame(0x77, 0, &[])).is_empty());
    let errors = session.drain_async_errors();
    assert_eq!(errors.len(), 3);
    assert!(matches!(&errors[0], ClientError::Radio));
    assert!(matches!(&errors[1], ClientError::BadFrame(s) if s == "bad async ERR payload"));
    assert!(matches!(&errors[2], ClientError::BadFrame(s) if s == "bad RX payload"));
    // The command still waits.
    assert_eq!(session.close().len(), 1);
}

#[test]
fn bad_answers_are_told_to_the_caller() {
    let cases: [(u8, Vec<u8>, &str); 4] = [
        (events::TYPE_OK, vec![1], "OK payload did not parse for command context"),
        (events::TYPE_ERR, vec![1, 2, 3], "bad ERR payload"),
        (events::TYPE_TX_DONE, vec![0], "bad TX_DONE payload"),
        (0x0F, vec![], "unexpected tagged frame type 0x0F"),
    ];
    for (type_id, payload, text) in cases {
        let mut session: Session<u32> = Session::new();
        let answer = exchange(&mut session, &ping_request(secs(1)), type_id, &payload);
        assert!(matches!(ping_reply(answer), Err(ClientError::BadFrame(s)) if s == text));
    }
}

#[test]
fn unassigned_tx_result_is_refused() {
    let mut session: Session<u32> = Session::new();
    let request = transmit_request(b"x", true, secs(1)).unwrap();
    assert_eq!(request.payload, vec![1, b'x']);
    let answer = exchange(&mut session, &request, events::TYPE_TX_DONE, &[3, 0, 0, 0, 0]);
    assert!(matches!(transmit_reply(answer), Err(ClientError::BadFrame(_))));
    let done = tx_done(donglora_protocol::TxResult::Cancelled, 0);
    let answer = exchange(&mut session, &request, events::TYPE_TX_DONE, &done);
    assert!(matches!(transmit_reply(answer), Err(ClientError::Cancelled)));
}

#[test]
fn empty_packet_is_refused() {
    assert!(matches!(transmit_request(b"", false, secs(1)), Err(ClientError::Length)));
}

#[test]
fn wrong_shape_of_answer() {
    let mut session: Session<u32> = Session::new();
    let done = tx_done(donglora_protocol::TxResult::Transmitted, 5);
    let answer = exchange(&mut session, &rx_start_request(secs(1)), events::TYPE_TX_DONE, &done);
    match rx_start_reply(answer) {
        Err(ClientError::Other(s)) => assert!(s.starts_with("unexpected RX_START response: TxDone"), "{s}"),
        other => panic!("{other:?}"),
    }
    assert!(matches!(get_info_reply(Ok(SessionResponse::Empty)), Err(ClientError::Other(_))));
    assert!(matches!(set_config_reply(Ok(SessionResponse::Empty)), Err(ClientError::Other(_))));
    match transmit_reply(Ok(SessionResponse::Empty)) {
        Err(ClientError::Other(s)) => assert_eq!(s, "unexpected TX response: Empty"),
        other => panic!("{other:?}"),
    }
    match unexpected_response("PING", "x") {
        ClientError::Other(s) => assert_eq!(s, "unexpected PING response: x"),
        other => panic!("{other:?}"),
    }
}

#[test]
fn sync_word_that_is_too_long_is_refused() {
    let mut fsk = FskConfig {
        freq_hz: 868_000_000,
        bitrate_bps: 9_600,
        freq_dev_hz: 5_000,
        rx_bw: 11,
        preamble_len: 16,
        sync_word_len: 9,
        sync_word: [7; 8],
    };
    let err = set_config_request(&Modulation::FskGfsk(fsk), secs(1)).unwrap_err();
    assert!(matches!(err, ClientError::EncodeFailed(s) if s == "SyncWordTooLong"));
    fsk.sync_word_len = 8;
    assert_eq!(set_config_request(&Modulation::FskGfsk(fsk), secs(1)).unwrap().payload.len(), 25);
}

#[test]
fn info_is_read() {
    let info = donglora_protocol::Info {
        proto_major: 1,
        proto_minor: 2,
        fw_major: 3,
        fw_minor: 4,
        fw_patch: 5,
        radio_chip_id: 0x0102,
        capability_bitmap: 0x1122_3344_5566_7788,
        supported_sf_bitmap: 0x1FE0,
        supported_bw_bitmap: 0x03FF,
        max_payload_bytes: 255,
        rx_queue_capacity: 64,
        tx_queue_capacity: 16,
        freq_min_hz: 150_000_000,
        freq_max_hz: 960_000_000,
        tx_power_min_dbm: -9,
        tx_power_max_dbm: 22,
        mcu_uid_len: 3,
        mcu_uid: {
            let mut uid = [0u8; donglora_protocol::MAX_MCU_UID_LEN];
            uid[..3].copy_from_slice(&[9, 8, 7]);
            uid
        },
        radio_uid_len: 2,
        radio_uid: {
            let mut uid = [0u8; donglora_protocol::MAX_RADIO_UID_LEN];
            uid[..2].copy_from_slice(&[6, 5]);
            uid
        },
    };
    let mut buf = [0u8; 128];
    let n = info.encode(&mut buf).unwrap();
    let mut session: Session<u32> = Session::new();
    let got = get_info_reply(exchange(&mut session, &get_info_request(secs(1)), events::TYPE_OK, &buf[..n])).unwrap();
    assert_eq!(got.capability_bitmap, 0x1122_3344_5566_7788);
    assert_eq!(got.radio_chip_id, 0x0102);
    assert_eq!((got.freq_min_hz, got.freq_max_hz), (150_000_000, 960_000_000));
    assert_eq!((got.tx_power_min_dbm, got.tx_power_max_dbm), (-9, 22));
    assert_eq!((got.supported_sf_bitmap, got.supported_bw_bitmap), (0x1FE0, 0x03FF));
    assert_eq!((got.fw_major, got.fw_minor, got.fw_patch), (3, 4, 5));
    assert_eq!((got.proto_major, got.proto_minor), (1, 2));
    assert_eq!((got.max_payload_bytes, got.rx_queue_capacity, got.tx_queue_capacity), (255, 64, 16));
    assert_eq!(got.mcu_uid_len, 3);
    assert_eq!(&got.mcu_uid[..4], &[9, 8, 7, 0]);
    assert_eq!(got.radio_uid_len, 2);
    assert_eq!(&got.radio_uid[..3], &[6, 5, 0]);
    let mut longer = buf[..n].to_vec();
    longer.push(0xEE);
    let same = get_info_reply(exchange(&mut session, &get_info_request(secs(1)), events::TYPE_OK, &longer)).unwrap();
    assert_eq!(same, got);
    let mut broken = buf[..n].to_vec();
    broken[35] = 33;
    let refused = get_info_reply(exchange(&mut session, &get_info_request(secs(1)), events::TYPE_OK, &broken));
    assert!(matches!(refused, Err(ClientError::BadFrame(_))));
    let short = get_info_reply(exchange(&mut session, &get_info_request(secs(1)), events::TYPE_OK, &buf[..n - 1]));
    assert!(matches!(short, Err(ClientError::BadFrame(_))));
}

#[test]
fn nobody_is_lost_or_woken_twice() {
    let mut session: Session<u32> = Session::new();
    let tags: Vec<u16> = (0..5).map(|w| send(&mut session, &ping_request(secs(1)), w).tag).collect();
    let mut stream = device_frame(events::TYPE_OK, tags[3], &[]);
    stream.extend_from_slice(&device_frame(events::TYPE_OK, tags[3], &[]));
    stream.extend_from_slice(&device_frame(events::TYPE_OK, tags[1], &[]));
    stream.extend_from_slice(&device_frame(events::TYPE_OK, 999, &[]));
    let answered: Vec<u32> = feed(&mut session, &stream).iter().map(|w| w.waker).collect();
    assert_eq!(answered, vec![3, 1]);
    let mut rest: Vec<u32> = session.close().iter().map(|w| w.waker).collect();
    rest.sort_unstable();
    assert_eq!(rest, vec![0, 2, 4]);
    assert!(session.close().is_empty());
}
