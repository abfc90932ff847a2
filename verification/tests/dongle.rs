use donglora_client::dongle::{after_rx_start, KeepaliveNext, KeepaliveTick, RecvStep, RxStartCall, Step, TxCall};
use donglora_client::retry::RetryStep;
use donglora_client::session::Completion;
use donglora_client::{
    ClientError, ClientResult, Dongle, FskConfig, Info, LoRaBandwidth, LoRaCodingRate, LoRaConfig, LoRaHeaderMode,
    Modulation, Owner, Request, RetryPolicy, Session, SessionResponse, SetConfigResult, SetConfigResultCode,
    TransportKind, TxDonePayload, TxOutcome, TxResult,
};
use donglora_protocol::{commands, encode_frame, events, FrameDecoder, FrameResult};
use std::time::Duration;

fn lora_cfg() -> Modulation {
    Modulation::LoRa(LoRaConfig {
        freq_hz: 910_525_000,
        sf: 7,
        bw: LoRaBandwidth::Khz62,
        cr: LoRaCodingRate::Cr4_5,
        preamble_len: 16,
        sync_word: 0x1424,
        tx_power_dbm: 20,
        header_mode: LoRaHeaderMode::Explicit,
        payload_crc: true,
        iq_invert: false,
    })
}

fn sample_info() -> Info {
    Info {
        proto_major: 1,
        proto_minor: 0,
        fw_major: 0,
        fw_minor: 1,
        fw_patch: 0,
        radio_chip_id: donglora_protocol::RadioChipId::Sx1262.as_u16(),
        capability_bitmap: donglora_protocol::cap::LORA | donglora_protocol::cap::CAD_BEFORE_TX,
        supported_sf_bitmap: 0x1FE0,
        supported_bw_bitmap: 0x03FF,
        max_payload_bytes: 255,
        rx_queue_capacity: 64,
        tx_queue_capacity: 16,
        freq_min_hz: 150_000_000,
        freq_max_hz: 960_000_000,
        tx_power_min_dbm: -9,
        tx_power_max_dbm: 22,
        mcu_uid_len: 0,
        mcu_uid: [0u8; donglora_protocol::MAX_MCU_UID_LEN],
        radio_uid_len: 0,
        radio_uid: [0u8; donglora_protocol::MAX_RADIO_UID_LEN],
    }
}

fn dongle(applied: Option<Modulation>) -> Dongle {
    Dongle::new(sample_info(), TransportKind::Serial("/dev/test".to_string()), applied, true, 0)
}

const MS: u64 = 1_000_000;

/// A session with the device at its other end.
struct Link {
    session: Session<u32>,
}

impl Link {
    fn new() -> Link {
        Link { session: Session::new() }
    }

    /// Sends a request and returns what the device reads.
    fn send(&mut self, request: &Request) -> (u8, u16, Vec<u8>) {
        let sent = self.session.send_command(request, 1).unwrap();
        let mut decoder = FrameDecoder::new();
        let mut out: Option<(u8, u16, Vec<u8>)> = None;
        decoder.feed(&sent.wire, |res| match res {
            FrameResult::Ok { type_id, tag, payload } => out = Some((type_id, tag, payload.to_vec())),
            FrameResult::Err(e) => panic!("frame decode: {e:?}"),
        });
        out.unwrap()
    }

    /// The device writes a frame; returns the answer where one came of it.
    fn device(&mut self, type_id: u8, tag: u16, payload: &[u8]) -> Option<ClientResult<SessionResponse>> {
        let mut wire = [0u8; donglora_protocol::MAX_WIRE_FRAME];
        let n = encode_frame(type_id, tag, payload, &mut wire).unwrap();
        let (mut wakes, _) = self.session.on_read(Some(&wire[..n]));
        let wake = wakes.pop()?;
        Some(self.session.finish_command(type_id, tag, Completion::Answered(wake.response)))
    }

    fn tx_done(&mut self, tag: u16, result: donglora_protocol::TxResult, airtime_us: u32) -> ClientResult<SessionResponse> {
        assert!(self.device(events::TYPE_OK, tag, &[]).is_none());
        let mut buf = [0u8; donglora_protocol::TxDonePayload::WIRE_SIZE];
        donglora_protocol::TxDonePayload { result, airtime_us }.encode(&mut buf).unwrap();
        self.device(events::TYPE_TX_DONE, tag, &buf).unwrap()
    }

    fn error(&mut self, tag: u16, code: donglora_protocol::ErrorCode) -> ClientResult<SessionResponse> {
        let mut buf = [0u8; 2];
        events::encode_err_payload(code, &mut buf).unwrap();
        self.device(events::TYPE_ERR, tag, &buf).unwrap()
    }
}

fn tx_send(step: Step<TxCall, TxDonePayload>) -> (Request, TxCall) {
    match step {
        Step::Send { request, then } => (request, then),
        Step::Done(r) => panic!("over: {r:?}"),
    }
}

fn tx_result(step: Step<TxCall, TxDonePayload>) -> ClientResult<TxDonePayload> {
    match step {
        Step::Send { request, .. } => panic!("not over: {request:?}"),
        Step::Done(r) => r,
    }
}

fn rx_send(step: Step<RxStartCall, ()>) -> (Request, RxStartCall) {
    match step {
        Step::Send { request, then } => (request, then),
        Step::Done(r) => panic!("over: {r:?}"),
    }
}

fn rx_result(step: Step<RxStartCall, ()>) -> ClientResult<()> {
    match step {
        Step::Send { request, .. } => panic!("not over: {request:?}"),
        Step::Done(r) => r,
    }
}

fn applied(current: Modulation) -> ClientResult<SessionResponse> {
    Ok(SessionResponse::SetConfig(SetConfigResult {
        result: SetConfigResultCode::Applied,
        owner: Owner::Mine,
        current,
    }))
}

fn failed(e: ClientError) -> ClientResult<SessionResponse> {
    Ok(SessionResponse::Failed(e))
}

#[test]
fn tx_success_path() {
    let mut link = Link::new();
    let mut dongle = dongle(Some(lora_cfg()));
    let (request, call) = tx_send(dongle.tx(b"hello", 0));
    assert_eq!(request.timeout, Duration::from_secs(10));
    let (type_id, tag, _p) = link.send(&request);
    assert_eq!(type_id, commands::TYPE_TX);
    let answer = link.tx_done(tag, donglora_protocol::TxResult::Transmitted, 7_777);
    let result = tx_result(call.on_answer(&mut dongle, answer)).unwrap();
    assert_eq!(result.airtime_us, 7_777);
}

#[test]
fn tx_with_retry_succeeds_after_channel_busy() {
    let mut link = Link::new();
    let mut dongle = dongle(Some(lora_cfg()));
    let policy = RetryPolicy {
        max_attempts: 3,
        backoff_ms_min: 1,
        backoff_ms_max: 1,
        backoff_cap_ms: 10,
        per_attempt_timeout: Duration::from_secs(1),
        skip_cad: false,
    };
    let RetryStep::Send { request, then } = dongle.tx_with_retry(b"hi", &policy, 0) else {
        panic!("nothing sent");
    };
    assert_eq!(request.timeout, Duration::from_secs(1));

    // Attempt 1: CHANNEL_BUSY.
    let (_t1, tag1, p1) = link.send(&request);
    let answer = link.tx_done(tag1, donglora_protocol::TxResult::ChannelBusy, 0);
    let RetryStep::Wait { wait_ms, pause } = then.on_answer(answer, Duration::from_millis(5)) else {
        panic!("no delay");
    };
    assert_eq!(wait_ms, 1);
    assert_eq!(pause.delay_ms(), 1);
    let RetryStep::Send { request, then } = pause.resume(&mut dongle, 1, 0) else {
        panic!("nothing sent");
    };

    // Attempt 2: TRANSMITTED.
    let (_t2, tag2, p2) = link.send(&request);
    assert_ne!(tag1, tag2, "retry should use a fresh tag");
    assert_eq!(p1, p2);
    let answer = link.tx_done(tag2, donglora_protocol::TxResult::Transmitted, 9_000);
    let RetryStep::Done(Ok(outcome)) = then.on_answer(answer, Duration::from_millis(6)) else {
        panic!("no outcome");
    };
    assert_eq!(outcome.attempts_used(), 2);
    assert!(outcome.had_retries());
    assert_eq!(outcome.final_airtime_us, 9_000);
    assert_eq!(outcome.attempts[0].attempt, 1);
    assert!(matches!(outcome.attempts[0].result, Err(ClientError::ChannelBusy)));
    assert_eq!(outcome.attempts[0].elapsed, Duration::from_millis(5));
    assert_eq!(outcome.attempts[1].attempt, 2);
    assert!(outcome.attempts[1].result.is_ok());
}

#[test]
fn tx_auto_recovers_from_not_configured() {
    let mut link = Link::new();
    let mut dongle = dongle(Some(lora_cfg()));
    let (request, call) = tx_send(dongle.tx(b"abc", 0));
    let (_t, tag1, first) = link.send(&request);
    let answer = link.error(tag1, donglora_protocol::ErrorCode::ENotConfigured);

    // The cached configuration goes out.
    let (request, call) = tx_send(call.on_answer(&mut dongle, answer));
    let (set_type, tag_set, payload) = link.send(&request);
    assert_eq!(set_type, commands::TYPE_SET_CONFIG);
    assert_eq!(request.timeout, Duration::from_secs(2));
    let mut echo = vec![0u8, 1];
    echo.extend_from_slice(&payload);
    let answer = link.device(events::TYPE_OK, tag_set, &echo).unwrap();

    // The packet goes out again.
    let (request, call) = tx_send(call.on_answer(&mut dongle, answer));
    let (type_id, tag2, second) = link.send(&request);
    assert_eq!(type_id, commands::TYPE_TX);
    assert_eq!(first, second);
    let answer = link.tx_done(tag2, donglora_protocol::TxResult::Transmitted, 1234);
    let td = tx_result(call.on_answer(&mut dongle, answer)).unwrap();
    assert_eq!(td.airtime_us, 1234);
    assert_eq!(dongle.config(), Some(lora_cfg()));
}

#[test]
fn tx_recovers_only_once() {
    let mut dongle = dongle(Some(lora_cfg()));
    let (_, call) = tx_send(dongle.tx(b"abc", 0));
    let (_, call) = tx_send(call.on_answer(&mut dongle, failed(ClientError::NotConfigured)));
    let (_, call) = tx_send(call.on_answer(&mut dongle, applied(lora_cfg())));
    let end = call.on_answer(&mut dongle, failed(ClientError::NotConfigured));
    assert!(matches!(tx_result(end), Err(ClientError::NotConfigured)));
}

#[test]
fn tx_does_not_recover_without_config() {
    let mut dongle = dongle(None);
    let (_, call) = tx_send(dongle.tx(b"abc", 0));
    let end = call.on_answer(&mut dongle, failed(ClientError::NotConfigured));
    assert!(matches!(tx_result(end), Err(ClientError::NotConfigured)));
}

#[test]
fn tx_reports_a_failed_recovery() {
    let mut dongle = dongle(Some(lora_cfg()));
    let (_, call) = tx_send(dongle.tx(b"abc", 0));
    let (_, call) = tx_send(call.on_answer(&mut dongle, failed(ClientError::NotConfigured)));
    let end = call.on_answer(&mut dongle, failed(ClientError::Modulation));
    assert!(matches!(tx_result(end), Err(ClientError::Modulation)));
    assert_eq!(dongle.config(), Some(lora_cfg()));

    // A cached configuration that cannot be encoded.
    let fsk = FskConfig {
        freq_hz: 1,
        bitrate_bps: 2,
        freq_dev_hz: 3,
        rx_bw: 4,
        preamble_len: 5,
        sync_word_len: 200,
        sync_word: [0; 8],
    };
    let mut dongle = self::dongle(Some(Modulation::FskGfsk(fsk)));
    let (_, call) = tx_send(dongle.tx(b"abc", 0));
    let end = call.on_answer(&mut dongle, failed(ClientError::NotConfigured));
    assert!(matches!(tx_result(end), Err(ClientError::EncodeFailed(_))));
}

#[test]
fn recovery_caches_what_the_device_echoes() {
    let Modulation::LoRa(mut other) = lora_cfg() else {
        panic!("expected LoRa");
    };
    other.sf = 9;
    let mut dongle = dongle(Some(lora_cfg()));
    let (_, call) = tx_send(dongle.tx(b"abc", 0));
    let (_, call) = tx_send(call.on_answer(&mut dongle, failed(ClientError::NotConfigured)));
    let _ = tx_send(call.on_answer(&mut dongle, applied(Modulation::LoRa(other))));
    assert_eq!(dongle.config(), Some(Modulation::LoRa(other)));
}

#[test]
fn other_errors_end_a_transmission() {
    let mut dongle = dongle(Some(lora_cfg()));
    let (_, call) = tx_send(dongle.tx_with_timeout(b"abc", true, Duration::from_secs(3), 0));
    let end = call.on_answer(&mut dongle, Err(ClientError::Timeout { what: "TX" }));
    assert!(matches!(tx_result(end), Err(ClientError::Timeout { what: "TX" })));
    assert!(matches!(tx_result(dongle.tx(b"", 0)), Err(ClientError::Length)));
}

#[test]
fn rx_start_twice_sends_once() {
    let mut dongle = dongle(Some(lora_cfg()));
    let (request, call) = rx_send(dongle.rx_start(0));
    assert_eq!(request.type_id, commands::TYPE_RX_START);
    rx_result(call.on_answer(&mut dongle, Ok(SessionResponse::Empty))).unwrap();
    rx_result(dongle.rx_start(0)).unwrap();
    assert_eq!(dongle.recv(), RecvStep::Receive);

    // RX_STOP leaves the mode.
    let request = dongle.rx_stop(0).unwrap();
    assert_eq!(request.type_id, commands::TYPE_RX_STOP);
    assert!(dongle.rx_stopped(failed(ClientError::Radio)).is_err());
    assert_eq!(dongle.next_rx(), RecvStep::Receive);
    dongle.rx_stopped(Ok(SessionResponse::Empty)).unwrap();
    assert_eq!(dongle.next_rx(), RecvStep::StartFirst);
}

#[test]
fn rx_start_recovers() {
    let mut dongle = dongle(Some(lora_cfg()));
    let (_, call) = rx_send(dongle.rx_start(0));
    let (request, call) = rx_send(call.on_answer(&mut dongle, failed(ClientError::NotConfigured)));
    assert_eq!(request.type_id, commands::TYPE_SET_CONFIG);
    let (request, call) = rx_send(call.on_answer(&mut dongle, applied(lora_cfg())));
    assert_eq!(request.type_id, commands::TYPE_RX_START);
    assert_eq!(dongle.recv(), RecvStep::StartFirst);
    rx_result(call.on_answer(&mut dongle, Ok(SessionResponse::Empty))).unwrap();
    assert_eq!(dongle.recv(), RecvStep::Receive);
}

#[test]
fn failed_rx_start_leaves_the_mode() {
    let mut dongle = dongle(Some(lora_cfg()));
    let (_, call) = rx_send(dongle.rx_start(0));
    assert!(matches!(
        rx_result(call.on_answer(&mut dongle, failed(ClientError::Radio))),
        Err(ClientError::Radio)
    ));
    assert_eq!(dongle.recv(), RecvStep::StartFirst);
    let (_, call) = rx_send(dongle.rx_start(0));
    let (_, call) = rx_send(call.on_answer(&mut dongle, failed(ClientError::NotConfigured)));
    assert!(matches!(
        rx_result(call.on_answer(&mut dongle, failed(ClientError::Param))),
        Err(ClientError::Param)
    ));
}

#[test]
fn set_config_caches_the_echo_and_ends_receive_mode() {
    let mut dongle = dongle(None);
    assert_eq!(dongle.config(), None);
    let (_, call) = rx_send(dongle.rx_start(0));
    rx_result(call.on_answer(&mut dongle, Ok(SessionResponse::Empty))).unwrap();

    let request = dongle.set_config(lora_cfg(), 0).unwrap();
    assert_eq!(request.type_id, commands::TYPE_SET_CONFIG);
    assert!(matches!(dongle.config_set(failed(ClientError::Param)), Err(ClientError::Param)));
    assert_eq!(dongle.config(), None);
    assert_eq!(dongle.recv(), RecvStep::Receive);

    let Modulation::LoRa(mut echoed) = lora_cfg() else {
        panic!("expected LoRa");
    };
    echoed.tx_power_dbm = 14;
    dongle.config_set(applied(Modulation::LoRa(echoed))).unwrap();
    assert_eq!(dongle.config(), Some(Modulation::LoRa(echoed)));
    assert_eq!(dongle.recv(), RecvStep::StartFirst);
}

#[test]
fn closed_dongle_refuses_everything() {
    let mut dongle = dongle(Some(lora_cfg()));
    assert_eq!(dongle.ping(0).unwrap().type_id, commands::TYPE_PING);
    dongle.check_open().unwrap();
    assert!(dongle.close());
    assert!(!dongle.close(), "closing again does nothing");
    let closed = |e: ClientError| matches!(e, ClientError::TransportClosed(s) if s == "dongle closed");
    assert!(closed(dongle.check_open().unwrap_err()));
    assert!(closed(dongle.ping(0).unwrap_err()));
    assert!(closed(dongle.rx_stop(0).unwrap_err()));
    assert!(closed(dongle.set_config(lora_cfg(), 0).unwrap_err()));
    assert!(closed(tx_result(dongle.tx(b"x", 0)).unwrap_err()));
    assert!(closed(rx_result(dongle.rx_start(0)).unwrap_err()));
    let RetryStep::Done(Err(e)) = dongle.tx_with_retry(b"x", &RetryPolicy::default(), 0) else {
        panic!("sent");
    };
    assert!(closed(e));
    assert_eq!(dongle.recv(), RecvStep::Closed);
    assert_eq!(dongle.next_rx(), RecvStep::Closed);
    assert!(matches!(dongle.keepalive_tick(10_000 * MS), KeepaliveTick::Stop));
    // Neither does the keepalive send anything more.
    for answer in [Ok(SessionResponse::Empty), failed(ClientError::NotConfigured), Err(ClientError::ReaderExited)] {
        match dongle.keepalive_pinged(answer, 10_000 * MS) {
            KeepaliveNext::Failed(e) => assert!(closed(e)),
            other => panic!("{other:?}"),
        }
    }
}

#[test]
fn closed_dongle_refuses_long_packets_as_closed() {
    let mut dongle = dongle(Some(lora_cfg()));
    assert!(dongle.close());
    let long = vec![0u8; 5000];
    assert!(matches!(tx_result(dongle.tx(&long, 0)), Err(ClientError::TransportClosed(_))));
    let step = dongle.tx_with_timeout(&long, true, Duration::from_secs(1), 0);
    assert!(matches!(tx_result(step), Err(ClientError::TransportClosed(_))));
    let step = dongle.tx_with_retry(&long, &RetryPolicy::default(), 0);
    assert!(matches!(step, RetryStep::Done(Err(ClientError::TransportClosed(_)))));
    let none = RetryPolicy { max_attempts: 0, ..RetryPolicy::default() };
    let step = dongle.tx_with_retry(&long, &none, 0);
    assert!(matches!(step, RetryStep::Done(Err(ClientError::TransportClosed(_)))));
    // What the radio is stays known.
    assert_eq!(dongle.config(), Some(lora_cfg()));
    assert_eq!(dongle.info(), &sample_info());
}

#[test]
fn long_packets_are_refused() {
    let mut dongle = dongle(Some(lora_cfg()));
    let (request, _) = tx_send(dongle.tx(&[7u8; 256], 0));
    assert_eq!(request.payload.len(), 257);
    for len in [257, 274, 275, 1000] {
        let data = vec![7u8; len];
        assert!(matches!(tx_result(dongle.tx(&data, 0)), Err(ClientError::Length)), "{len}");
        let step = dongle.tx_with_timeout(&data, true, Duration::from_secs(1), 0);
        assert!(matches!(tx_result(step), Err(ClientError::Length)), "{len}");
        let step = dongle.tx_with_retry(&data, &RetryPolicy::default(), 0);
        assert!(matches!(step, RetryStep::Done(Err(ClientError::Length))), "{len}");
    }
}

#[test]
fn packets_follow_a_start_that_worked() {
    assert_eq!(after_rx_start(&Ok(())), RecvStep::Receive);
    assert_eq!(after_rx_start(&Err(ClientError::Radio)), RecvStep::NotStarted);
}

#[test]
fn keepalive_pings_after_half_a_second() {
    let dongle = dongle(None);
    assert!(matches!(dongle.keepalive_tick(0), KeepaliveTick::Sleep));
    assert!(matches!(dongle.keepalive_tick(499 * MS), KeepaliveTick::Sleep));
    assert!(matches!(dongle.keepalive_tick(500 * MS - 1), KeepaliveTick::Sleep));
    match dongle.keepalive_tick(500 * MS) {
        KeepaliveTick::Ping(request) => {
            assert_eq!(request.type_id, commands::TYPE_PING);
            assert_eq!(request.timeout, Duration::from_secs(2));
        }
        other => panic!("{other:?}"),
    }
}

#[test]
fn every_operation_puts_the_keepalive_off() {
    let mut dongle = dongle(Some(lora_cfg()));
    let mut now: u64 = 0;
    for operation in 0..7 {
        now += 400 * MS;
        match operation {
            0 => drop(dongle.tx(b"x", now)),
            1 => drop(dongle.tx_with_timeout(b"x", false, Duration::from_secs(1), now)),
            2 => drop(dongle.tx_with_retry(b"x", &RetryPolicy::default(), now)),
            3 => drop(dongle.rx_start(now)),
            4 => drop(dongle.rx_stop(now)),
            5 => drop(dongle.set_config(lora_cfg(), now)),
            _ => drop(dongle.ping(now)),
        }
        assert!(matches!(dongle.keepalive_tick(now + 499 * MS), KeepaliveTick::Sleep), "{operation}");
        assert!(matches!(dongle.keepalive_tick(now + 500 * MS), KeepaliveTick::Ping(_)), "{operation}");
    }
    // So does each further attempt.
    let RetryStep::Send { then, .. } = dongle.tx_with_retry(b"x", &RetryPolicy::default(), now) else {
        panic!("nothing sent");
    };
    let RetryStep::Wait { pause, .. } = busy(then) else {
        panic!("no delay");
    };
    now += 450 * MS;
    drop(pause.resume(&mut dongle, 40, now));
    assert!(matches!(dongle.keepalive_tick(now + 499 * MS), KeepaliveTick::Sleep));
    // An answered PING puts it off, a failed one does not.
    now += 600 * MS;
    drop(dongle.keepalive_pinged(Err(ClientError::Timeout { what: "PING" }), now));
    assert!(matches!(dongle.keepalive_tick(now), KeepaliveTick::Ping(_)));
    drop(dongle.keepalive_pinged(Ok(SessionResponse::Empty), now));
    assert!(matches!(dongle.keepalive_tick(now + 499 * MS), KeepaliveTick::Sleep));
}

#[test]
fn without_keepalive_nothing_is_sent() {
    let kind = TransportKind::Serial("/dev/test".to_string());
    let dongle = Dongle::new(sample_info(), kind, Some(lora_cfg()), false, 0);
    for now in [0, 500 * MS, u64::MAX] {
        assert!(matches!(dongle.keepalive_tick(now), KeepaliveTick::Stop));
    }
}

#[test]
fn keepalive_restores_a_lost_config() {
    let mut dongle = dongle(Some(lora_cfg()));
    assert!(matches!(dongle.keepalive_pinged(Ok(SessionResponse::Empty), 1), KeepaliveNext::Heard));
    match dongle.keepalive_pinged(failed(ClientError::NotConfigured), 2) {
        KeepaliveNext::Reapply(request) => assert_eq!(request.type_id, commands::TYPE_SET_CONFIG),
        other => panic!("{other:?}"),
    }
    assert!(matches!(dongle.keepalive_reapplied(applied(lora_cfg()), 3), KeepaliveNext::Heard));
    assert!(matches!(
        dongle.keepalive_reapplied(failed(ClientError::Radio), 4),
        KeepaliveNext::Failed(ClientError::Radio)
    ));
    assert!(matches!(
        dongle.keepalive_pinged(Err(ClientError::ReaderExited), 5),
        KeepaliveNext::Failed(ClientError::ReaderExited)
    ));
    let mut bare = self::dongle(None);
    assert!(matches!(bare.keepalive_pinged(failed(ClientError::NotConfigured), 6), KeepaliveNext::Unconfigured));
}

#[test]
fn transport_labels() {
    let serial = |p: &str| TransportKind::Serial(p.to_string()).short_label();
    assert_eq!(serial("/dev/ttyACM0"), "ttyACM0");
    assert_eq!(serial("ttyUSB1"), "ttyUSB1");
    assert_eq!(serial("/dev/serial/"), "serial");
    assert_eq!(serial("/dev/tty/.//"), "tty");
    assert_eq!(serial("./port"), "port");
    assert_eq!(serial("/dev/.."), "/dev/..");
    assert_eq!(serial("/"), "/");
    assert_eq!(serial("."), ".");
    assert_eq!(serial(""), "");
    assert_eq!(serial("/..."), "...");
    assert_eq!(serial("C:/x/ttyS0"), "ttyS0");
    assert_eq!(serial("a\\b/c"), "c");
    assert_eq!(serial("/dev/serial/by-path/pci-0000:00:14.0-usb-0:2:1.0"), "pci-0000:00:14.0-usb-0:2:1.0");
    let unix = TransportKind::MuxUnix("/tmp/donglora-mux.sock".to_string());
    let tcp = TransportKind::MuxTcp("localhost:5741".to_string());
    assert_eq!(unix.short_label(), "mux:unix");
    assert_eq!(tcp.short_label(), "mux:tcp");
    assert!(unix.is_mux());
    assert!(tcp.is_mux());
    assert!(!TransportKind::Serial("/dev/test".to_string()).is_mux());
}

#[test]
fn dongle_remembers_what_it_is() {
    let dongle = dongle(None);
    assert_eq!(dongle.info().tx_power_max_dbm, 22);
    assert_eq!(dongle.transport_kind(), &TransportKind::Serial("/dev/test".to_string()));
}

fn busy(call: donglora_client::retry::TxRetry) -> RetryStep {
    call.on_answer(failed(ClientError::Busy), Duration::from_millis(1))
}

#[test]
fn retries_end_with_the_last_error() {
    let mut dongle = dongle(None);
    let policy = RetryPolicy { max_attempts: 2, ..RetryPolicy::default() };
    let RetryStep::Send { then, .. } = dongle.tx_with_retry(b"x", &policy, 0) else {
        panic!("nothing sent");
    };
    let RetryStep::Wait { wait_ms, pause } = busy(then) else {
        panic!("no delay");
    };
    assert!((20..=100).contains(&wait_ms));
    let RetryStep::Send { then, .. } = pause.resume(&mut dongle, 40, 0) else {
        panic!("nothing sent");
    };
    assert!(matches!(busy(then), RetryStep::Done(Err(ClientError::Busy))));
}

#[test]
fn other_errors_are_not_retried() {
    let mut dongle = dongle(None);
    for e in [ClientError::Cancelled, ClientError::NotConfigured, ClientError::Timeout { what: "TX" }] {
        let RetryStep::Send { then, .. } = dongle.tx_with_retry(b"x", &RetryPolicy::default(), 0) else {
            panic!("nothing sent");
        };
        assert!(matches!(then.on_answer(failed(e), Duration::ZERO), RetryStep::Done(Err(_))));
    }
}

#[test]
fn delays_grow_up_to_the_cap() {
    let mut dongle = dongle(None);
    let policy = RetryPolicy { max_attempts: 10, backoff_ms_min: 100, backoff_ms_max: 100, ..RetryPolicy::default() };
    let RetryStep::Send { mut then, .. } = dongle.tx_with_retry(b"x", &policy, 0) else {
        panic!("nothing sent");
    };
    let mut waits: Vec<u64> = Vec::new();
    let end = loop {
        match busy(then) {
            RetryStep::Wait { wait_ms, pause } => {
                waits.push(wait_ms);
                let scaled = pause.delay_ms() * 2;
                let RetryStep::Send { then: next, .. } = pause.resume(&mut dongle, scaled, 0) else {
                    panic!("nothing sent");
                };
                then = next;
            }
            end => break end,
        }
    };
    assert!(matches!(end, RetryStep::Done(Err(ClientError::Busy))));
    assert_eq!(waits, vec![100, 200, 400, 500, 500, 500, 500, 500, 500]);
}

#[test]
fn cap_limits_the_first_delay() {
    let mut dongle = dongle(None);
    let policy = RetryPolicy {
        max_attempts: 2,
        backoff_ms_min: 900,
        backoff_ms_max: 900,
        backoff_cap_ms: 250,
        ..RetryPolicy::default()
    };
    let RetryStep::Send { then, .. } = dongle.tx_with_retry(b"x", &policy, 0) else {
        panic!("nothing sent");
    };
    let RetryStep::Wait { wait_ms, .. } = busy(then) else {
        panic!("no delay");
    };
    assert_eq!(wait_ms, 250);
}

#[test]
fn no_attempts_no_transmission() {
    let mut dongle = dongle(None);
    let policy = RetryPolicy { max_attempts: 0, ..RetryPolicy::default() };
    let RetryStep::Done(Err(ClientError::Other(s))) = dongle.tx_with_retry(b"x", &policy, 0) else {
        panic!("sent");
    };
    assert_eq!(s, "tx_with_retry exited without result");
    let empty = dongle.tx_with_retry(b"", &RetryPolicy::default(), 0);
    assert!(matches!(empty, RetryStep::Done(Err(ClientError::Length))));
}

#[test]
fn default_policy() {
    let p = RetryPolicy::default();
    assert_eq!((p.max_attempts, p.backoff_ms_min, p.backoff_ms_max, p.backoff_cap_ms), (3, 20, 100, 500));
    assert_eq!(p.per_attempt_timeout, Duration::from_secs(5));
    assert!(!p.skip_cad);
}

#[test]
fn jitter_stays_in_its_range() {
    let p = RetryPolicy::default();
    let samples: Vec<u32> = (0..2000).map(|_| p.jitter_ms()).collect();
    assert!(samples.iter().all(|j| *j <= 80));
    assert!(samples.iter().any(|j| *j != samples[0]), "the delay is random");
    assert_eq!(p.spread_ms(), 80);
    assert!((0..2000).any(|_| p.jitter_ms() > 40), "the whole range is drawn from");
    let flat = RetryPolicy { backoff_ms_min: 50, backoff_ms_max: 20, ..p };
    assert_eq!(flat.spread_ms(), 0);
    assert!((0..100).all(|_| flat.jitter_ms() == 0));
}

#[test]
fn first_attempt_outcome() {
    let td = TxDonePayload { result: TxResult::Transmitted, airtime_us: 42 };
    let mut dongle = dongle(None);
    let RetryStep::Send { then, .. } = dongle.tx_with_retry(b"x", &RetryPolicy::default(), 0) else {
        panic!("nothing sent");
    };
    let RetryStep::Done(Ok(outcome)) = then.on_result(Ok(td), Duration::from_secs(1), 3) else {
        panic!("not over");
    };
    assert_eq!(outcome.attempts_used(), 1);
    assert!(!outcome.had_retries());
    assert_eq!(outcome.final_airtime_us, 42);
    let none = TxOutcome { final_airtime_us: 0, attempts: Vec::new() };
    assert_eq!(none.attempts_used(), 0);
}
