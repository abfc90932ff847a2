use donglora_client::connect::{Action, ConnectStep, Connector, Event, MuxMemory, MuxPath};
use donglora_client::discovery::{SerialPort, WaitStep};
use donglora_client::endpoint::{
    format_endpoint, mux_socket_candidates, parse_tcp_endpoint, MuxEnv, SearchStep, SocketSearch,
};
use donglora_client::handshake::{prepare_config, Handshake, HandshakeStep, PowerClamp};
use donglora_client::{
    connect, connect_mux_auto, connect_mux_auto_with, connect_with, default_socket_path, find_mux_socket, find_port,
    mux_tcp_connect, mux_unix_connect, try_connect, try_connect_with, wait_for_device, ClientError, ClientResult,
    ConnectOptions, Dongle, FskConfig, Info, LoRaBandwidth, LoRaCodingRate, LoRaConfig, LoRaHeaderMode, Modulation,
    Owner, Request, SessionResponse, SetConfigResult, SetConfigResultCode, TransportKind,
};
use std::time::Duration;

fn info(tx_min: i8, tx_max: i8, freq_min: u32, freq_max: u32, sf_bm: u16, bw_bm: u16) -> Info {
    Info {
        proto_major: 1,
        proto_minor: 0,
        fw_major: 0,
        fw_minor: 0,
        fw_patch: 0,
        radio_chip_id: donglora_protocol::RadioChipId::Sx1262.as_u16(),
        capability_bitmap: donglora_protocol::cap::LORA,
        supported_sf_bitmap: sf_bm,
        supported_bw_bitmap: bw_bm,
        max_payload_bytes: 255,
        rx_queue_capacity: 32,
        tx_queue_capacity: 1,
        freq_min_hz: freq_min,
        freq_max_hz: freq_max,
        tx_power_min_dbm: tx_min,
        tx_power_max_dbm: tx_max,
        mcu_uid_len: 0,
        mcu_uid: [0u8; donglora_protocol::MAX_MCU_UID_LEN],
        radio_uid_len: 0,
        radio_uid: [0u8; donglora_protocol::MAX_RADIO_UID_LEN],
    }
}

fn lora(freq_hz: u32, sf: u8, bw: LoRaBandwidth, tx_power_dbm: i8) -> LoRaConfig {
    LoRaConfig {
        freq_hz,
        sf,
        bw,
        cr: LoRaCodingRate::Cr4_5,
        preamble_len: 8,
        sync_word: 0x3444,
        tx_power_dbm,
        header_mode: LoRaHeaderMode::Explicit,
        payload_crc: true,
        iq_invert: false,
    }
}

const SUB_GHZ_ALL_SF: u16 = 0x1FE0; // SF5..SF12
const SX127X_SF: u16 = 0x1FC0; // SF6..SF12
const SUB_GHZ_BW: u16 = 0x03FF; // BW 0..9

fn reason(r: ClientResult<Modulation>) -> String {
    match r {
        Err(ClientError::ConfigNotSupported { reason }) => reason,
        other => panic!("{other:?}"),
    }
}

#[test]
fn tx_power_above_max_clamps_down() {
    let i = info(-9, 20, 863_000_000, 928_000_000, SUB_GHZ_ALL_SF, SUB_GHZ_BW);
    let cfg = lora(915_000_000, 7, LoRaBandwidth::Khz125, 30);
    let Modulation::LoRa(out) = prepare_config(&i, Modulation::LoRa(cfg)).unwrap() else {
        panic!("expected LoRa");
    };
    assert_eq!(out.tx_power_dbm, 20);
    assert_eq!(out.freq_hz, 915_000_000);
}

#[test]
fn tx_power_below_min_clamps_up() {
    let i = info(2, 20, 863_000_000, 928_000_000, SUB_GHZ_ALL_SF, SUB_GHZ_BW);
    let cfg = lora(915_000_000, 7, LoRaBandwidth::Khz125, -30);
    let Modulation::LoRa(out) = prepare_config(&i, Modulation::LoRa(cfg)).unwrap() else {
        panic!("expected LoRa");
    };
    assert_eq!(out.tx_power_dbm, 2);
}

#[test]
fn tx_power_in_range_unchanged() {
    let i = info(-9, 22, 863_000_000, 928_000_000, SUB_GHZ_ALL_SF, SUB_GHZ_BW);
    let cfg = lora(915_000_000, 7, LoRaBandwidth::Khz125, 17);
    let Modulation::LoRa(out) = prepare_config(&i, Modulation::LoRa(cfg)).unwrap() else {
        panic!("expected LoRa");
    };
    assert_eq!(out.tx_power_dbm, 17);
}

#[test]
fn freq_out_of_range_rejected() {
    let i = info(-9, 22, 863_000_000, 928_000_000, SUB_GHZ_ALL_SF, SUB_GHZ_BW);
    let cfg = lora(300_000_000, 7, LoRaBandwidth::Khz125, 14);
    let err = prepare_config(&i, Modulation::LoRa(cfg)).unwrap_err();
    assert!(matches!(err, ClientError::ConfigNotSupported { ref reason } if reason.contains("frequency")));
    assert_eq!(
        reason(Err(err)),
        "frequency 300000000 Hz outside device range [863000000, 928000000] Hz"
    );
}

#[test]
fn sf5_rejected_on_sx127x_bitmap() {
    let i = info(2, 20, 863_000_000, 1_020_000_000, SX127X_SF, SUB_GHZ_BW);
    let cfg = lora(915_000_000, 5, LoRaBandwidth::Khz125, 14);
    let err = prepare_config(&i, Modulation::LoRa(cfg)).unwrap_err();
    assert!(matches!(err, ClientError::ConfigNotSupported { ref reason } if reason.contains("SF5")));
    assert_eq!(
        reason(Err(err)),
        "SF5 not supported by this device (supports SF[6, 7, 8, 9, 10, 11, 12])"
    );
}

#[test]
fn bw_not_in_bitmap_rejected() {
    let i = info(-9, 22, 863_000_000, 928_000_000, SUB_GHZ_ALL_SF, SUB_GHZ_BW);
    let cfg = lora(915_000_000, 7, LoRaBandwidth::Khz200, 14);
    let err = prepare_config(&i, Modulation::LoRa(cfg)).unwrap_err();
    assert!(matches!(err, ClientError::ConfigNotSupported { ref reason } if reason.contains("bandwidth")));
    assert_eq!(reason(Err(err)), "bandwidth Khz200 (bit 10) not in supported_bw_bitmap 0x03FF");
}

#[test]
fn non_lora_modulation_passes_through() {
    let i = info(-9, 22, 863_000_000, 928_000_000, SUB_GHZ_ALL_SF, SUB_GHZ_BW);
    let fsk = FskConfig {
        freq_hz: 50_000_000, // well outside info range: must not be inspected
        bitrate_bps: 50_000,
        freq_dev_hz: 25_000,
        rx_bw: 0,
        preamble_len: 16,
        sync_word_len: 0,
        sync_word: [0u8; 8],
    };
    let out = prepare_config(&i, Modulation::FskGfsk(fsk)).unwrap();
    assert!(matches!(out, Modulation::FskGfsk(_)));
    assert_eq!(out, Modulation::FskGfsk(fsk));
}

#[test]
fn range_ends_are_inside() {
    let i = info(-9, 22, 863_000_000, 928_000_000, SUB_GHZ_ALL_SF, SUB_GHZ_BW);
    for (freq, power) in [(863_000_000, -9), (928_000_000, 22)] {
        let cfg = lora(freq, 12, LoRaBandwidth::Khz7, power);
        assert_eq!(prepare_config(&i, Modulation::LoRa(cfg)).unwrap(), Modulation::LoRa(cfg));
    }
    for freq in [862_999_999, 928_000_001] {
        let cfg = lora(freq, 12, LoRaBandwidth::Khz7, 0);
        assert!(prepare_config(&i, Modulation::LoRa(cfg)).is_err());
    }
}

#[test]
fn spreading_factors_beyond_the_bitmap_are_rejected() {
    let i = info(-9, 22, 0, u32::MAX, 0x8001, SUB_GHZ_BW);
    let try_sf = |sf: u8| prepare_config(&i, Modulation::LoRa(lora(1, sf, LoRaBandwidth::Khz125, 0)));
    assert!(try_sf(0).is_ok());
    assert!(try_sf(15).is_ok());
    assert_eq!(reason(try_sf(16)), "SF16 not supported by this device (supports SF[0, 15])");
    assert_eq!(reason(try_sf(255)), "SF255 not supported by this device (supports SF[0, 15])");
    let none = info(-9, 22, 0, u32::MAX, 0, SUB_GHZ_BW);
    let r = prepare_config(&none, Modulation::LoRa(lora(1, 7, LoRaBandwidth::Khz125, 0)));
    assert_eq!(reason(r), "SF7 not supported by this device (supports SF[])");
}

// ── Handshake ──────────────────────────────────────────────────────

fn sent(step: HandshakeStep) -> (Request, Handshake) {
    match step {
        HandshakeStep::Send { request, then } => (request, then),
        HandshakeStep::Done(r) => panic!("over: {r:?}"),
    }
}

fn over(step: HandshakeStep) -> ClientResult<Dongle> {
    match step {
        HandshakeStep::Send { request, .. } => panic!("not over: {request:?}"),
        HandshakeStep::Done(r) => r,
    }
}

fn kind() -> TransportKind {
    TransportKind::Serial("/dev/ttyACM0".to_string())
}

fn sample() -> Info {
    info(-9, 20, 863_000_000, 928_000_000, SUB_GHZ_ALL_SF, SUB_GHZ_BW)
}

#[test]
fn handshake_without_config() {
    let (request, then) = sent(ConnectOptions::new().finalize(kind()));
    assert_eq!(request.type_id, 1);
    assert_eq!(request.timeout, Duration::from_secs(2));
    let (request, then) = sent(then.on_answer(Ok(SessionResponse::Empty), 5));
    assert_eq!(request.type_id, 2);
    let dongle = over(then.on_answer(Ok(SessionResponse::Info(sample())), 5)).unwrap();
    assert_eq!(dongle.info(), &sample());
    assert_eq!(dongle.transport_kind(), &kind());
    assert_eq!(dongle.config(), None);
}

#[test]
fn handshake_applies_the_prepared_config() {
    let wanted = lora(915_000_000, 7, LoRaBandwidth::Khz125, 30);
    let opts = ConnectOptions::new().config(Modulation::LoRa(wanted)).timeout(Duration::from_secs(9));
    let (request, then) = sent(opts.finalize(kind()));
    assert_eq!(request.timeout, Duration::from_secs(9));
    let (_, then) = sent(then.on_answer(Ok(SessionResponse::Empty), 5));
    let (request, then) = sent(then.on_answer(Ok(SessionResponse::Info(sample())), 5));
    assert_eq!(request.type_id, 3);
    assert_eq!(request.payload[12], 20, "transmit power is clamped");
    assert_eq!(then.power_clamp(), Some(PowerClamp::Max { requested: 30, device_max: 20 }));
    let current = Modulation::LoRa(lora(915_000_000, 8, LoRaBandwidth::Khz125, 20));
    let result = SetConfigResult { result: SetConfigResultCode::LockedMismatch, owner: Owner::Other, current };
    let dongle = over(then.on_answer(Ok(SessionResponse::SetConfig(result)), 5)).unwrap();
    assert_eq!(dongle.config(), Some(current));
}

#[test]
fn clamping_is_told() {
    for (dbm, told) in [
        (-10, Some(PowerClamp::Min { requested: -10, device_min: -9 })),
        (-9, None),
        (20, None),
        (21, Some(PowerClamp::Max { requested: 21, device_max: 20 })),
    ] {
        let wanted = Modulation::LoRa(lora(915_000_000, 7, LoRaBandwidth::Khz125, dbm));
        let (_, then) = sent(ConnectOptions::new().config(wanted).finalize(kind()));
        assert_eq!(then.power_clamp(), None);
        let (_, then) = sent(then.on_answer(Ok(SessionResponse::Empty), 5));
        assert_eq!(then.power_clamp(), None);
        let (_, then) = sent(then.on_answer(Ok(SessionResponse::Info(sample())), 5));
        assert_eq!(then.power_clamp(), told);
    }
}

#[test]
fn handshake_errors_end_it() {
    let opts = ConnectOptions::new().config(Modulation::LoRa(lora(1, 7, LoRaBandwidth::Khz125, 0)));
    let (_, then) = sent(opts.finalize(kind()));
    assert!(matches!(
        over(then.on_answer(Err(ClientError::Timeout { what: "PING" }), 5)),
        Err(ClientError::Timeout { what: "PING" })
    ));
    let (_, then) = sent(opts.finalize(kind()));
    let (_, then) = sent(then.on_answer(Ok(SessionResponse::Empty), 5));
    assert!(matches!(
        over(then.on_answer(Ok(SessionResponse::Failed(ClientError::UnknownCmd)), 5)),
        Err(ClientError::UnknownCmd)
    ));
    // A configuration that the device cannot run is not sent.
    let (_, then) = sent(opts.finalize(kind()));
    let (_, then) = sent(then.on_answer(Ok(SessionResponse::Empty), 5));
    assert!(matches!(
        over(then.on_answer(Ok(SessionResponse::Info(sample())), 5)),
        Err(ClientError::ConfigNotSupported { .. })
    ));
    // The device refuses the configuration.
    let fine = Modulation::LoRa(lora(915_000_000, 7, LoRaBandwidth::Khz125, 0));
    let (_, then) = sent(ConnectOptions::new().config(fine).finalize(kind()));
    let (_, then) = sent(then.on_answer(Ok(SessionResponse::Empty), 5));
    let (_, then) = sent(then.on_answer(Ok(SessionResponse::Info(sample())), 5));
    assert!(matches!(
        over(then.on_answer(Ok(SessionResponse::Failed(ClientError::Param)), 5)),
        Err(ClientError::Param)
    ));
}

#[test]
fn options_decide_whether_to_configure() {
    let fine = Modulation::LoRa(lora(915_000_000, 7, LoRaBandwidth::Khz125, 0));
    let opts = ConnectOptions::default().config(fine).auto_configure(false);
    let (_, then) = sent(opts.finalize(kind()));
    let (_, then) = sent(then.on_answer(Ok(SessionResponse::Empty), 5));
    let dongle = over(then.on_answer(Ok(SessionResponse::Info(sample())), 5)).unwrap();
    assert_eq!(dongle.config(), None);
    // Enabled, but nothing to apply.
    let (_, then) = sent(ConnectOptions::new().auto_configure(true).finalize(kind()));
    let (_, then) = sent(then.on_answer(Ok(SessionResponse::Empty), 5));
    assert!(over(then.on_answer(Ok(SessionResponse::Info(sample())), 5)).is_ok());
    assert!(!ConnectOptions::default().keeps_alive());
    assert!(ConnectOptions::new().keeps_alive());
    assert!(!ConnectOptions::new().keepalive(false).keeps_alive());
}

// ── Endpoints ──────────────────────────────────────────────────────

fn env(tcp: Option<&str>, mux: Option<&str>, xdg: Option<&str>) -> MuxEnv {
    MuxEnv {
        unix: true,
        mux_tcp: tcp.map(str::to_string),
        mux: mux.map(str::to_string),
        xdg_runtime_dir: xdg.map(str::to_string),
    }
}

#[test]
fn tcp_endpoints() {
    let parse = |s: &str| parse_tcp_endpoint(s);
    assert_eq!(parse("host:5741"), Some(("host".to_string(), 5741)));
    assert_eq!(parse(":5741"), Some(("localhost".to_string(), 5741)));
    assert_eq!(parse("5741"), Some(("localhost".to_string(), 5741)));
    assert_eq!(parse("::1:80"), Some(("::1".to_string(), 80)));
    assert_eq!(parse("h:+80"), Some(("h".to_string(), 80)));
    assert_eq!(parse("h:0065535"), Some(("h".to_string(), 65535)));
    assert_eq!(parse("h:0"), Some(("h".to_string(), 0)));
    for bad in ["", ":", "host", "host:", "h:65536", "h:-1", "h: 80", "h:80 ", "h:+", "h:8_0", "h:0x50", "80:h"] {
        assert_eq!(parse(bad), None, "{bad}");
    }
    assert_eq!(format_endpoint("host", 5741), "host:5741");
    assert_eq!(parse(&format_endpoint("a:b", 65535)), Some(("a:b".to_string(), 65535)));
}

#[test]
fn socket_paths() {
    assert_eq!(default_socket_path(&env(None, Some("/x"), Some("/run"))), "/x");
    assert_eq!(default_socket_path(&env(None, None, Some("/run"))), "/run/donglora/mux.sock");
    assert_eq!(default_socket_path(&env(None, None, None)), "/tmp/donglora-mux.sock");
    assert_eq!(mux_socket_candidates(&env(None, Some("/x"), Some("/run"))), vec!["/x"]);
    assert_eq!(
        mux_socket_candidates(&env(None, None, Some("/run"))),
        vec!["/run/donglora/mux.sock", "/tmp/donglora-mux.sock"]
    );
    assert_eq!(mux_socket_candidates(&env(None, None, None)), vec!["/tmp/donglora-mux.sock"]);
}

fn search(mut s: SocketSearch, existing: &[&str]) -> Option<String> {
    loop {
        let there = existing.contains(&s.path().as_str());
        match s.on_checked(there) {
            SearchStep::Found(p) => return Some(p),
            SearchStep::Next(next) => s = next,
            SearchStep::Absent => return None,
        }
    }
}

#[test]
fn first_existing_socket_is_found() {
    let both = ["/run/donglora/mux.sock", "/tmp/donglora-mux.sock"];
    let e = env(None, None, Some("/run"));
    assert_eq!(search(find_mux_socket(&e), &both).as_deref(), Some(both[0]));
    assert_eq!(search(find_mux_socket(&e), &both[1..]).as_deref(), Some(both[1]));
    assert_eq!(search(find_mux_socket(&e), &[]), None);
    // A path that is set is the only one that counts.
    let e = env(None, Some("/x"), Some("/run"));
    assert_eq!(search(find_mux_socket(&e), &both), None);
    assert_eq!(search(find_mux_socket(&e), &["/x"]).as_deref(), Some("/x"));
}

// ── Discovery ──────────────────────────────────────────────────────

fn port(name: &str, usb: Option<(u16, u16)>) -> SerialPort {
    SerialPort { port_name: name.to_string(), usb }
}

#[test]
fn native_port_wins_over_bridges() {
    let bridge = port("bridge", Some((0x10C4, 0xEA60)));
    let native = port("native", Some((0x1209, 0x5741)));
    let second = port("second", Some((0x1209, 0x5741)));
    let other = port("other", Some((0x1209, 0x0001)));
    let plain = port("plain", None);
    assert_eq!(
        find_port(&vec![plain.clone(), bridge.clone(), native, second]).as_deref(),
        Some("native")
    );
    assert_eq!(find_port(&vec![other.clone(), bridge]).as_deref(), Some("bridge"));
    assert_eq!(find_port(&vec![plain, other]), None);
    assert_eq!(find_port(&Vec::new()), None);
}

#[test]
fn known_bridges() {
    for id in [(0x10C4, 0xEA60), (0x1A86, 0x55D4), (0x1A86, 0x7522), (0x1A86, 0x7523), (0x0403, 0x6001)] {
        assert_eq!(find_port(&vec![port("b", Some(id))]).as_deref(), Some("b"));
    }
    for id in [(0x10C4, 0x6001), (0x0403, 0xEA60), (0x1A86, 0x7524)] {
        assert_eq!(find_port(&vec![port("b", Some(id))]), None);
    }
}

#[test]
fn waiting_for_a_device() {
    assert_eq!(
        wait_for_device(Some("p".to_string())),
        WaitStep::Settle { port: "p".to_string(), ms: 300 }
    );
    assert_eq!(wait_for_device(None), WaitStep::Poll { ms: 500 });
}

// ── Connecting ─────────────────────────────────────────────────────

fn go_on(step: ConnectStep) -> Connector {
    match step {
        ConnectStep::Continue(c) => c,
        other => panic!("over: {other:?}"),
    }
}

fn io_error() -> ClientError {
    ClientError::Other("nobody there".to_string())
}

/// Where the connection is established: its transport and what is remembered.
fn established(step: ConnectStep) -> (TransportKind, MuxMemory) {
    match step {
        ConnectStep::Established { kind, memory } => (kind, memory),
        other => panic!("not established: {other:?}"),
    }
}

fn failure(step: ConnectStep) -> String {
    match step {
        ConnectStep::Fail(ClientError::Other(s)) => s,
        other => panic!("not failed: {other:?}"),
    }
}

fn checks(c: &Connector) -> String {
    match c.action() {
        Action::CheckPath(p) => p,
        other => panic!("{other:?}"),
    }
}

fn dials(c: &Connector) -> (String, u16) {
    match c.action() {
        Action::ConnectTcp { host, port, .. } => (host, port),
        other => panic!("{other:?}"),
    }
}

fn won_unix(path: &str) -> MuxMemory {
    MuxMemory::Won(MuxPath::Unix(path.to_string()))
}

fn won_tcp(host: &str, port: u16) -> MuxMemory {
    MuxMemory::Won(MuxPath::Tcp { host: host.to_string(), port })
}

fn mux_unix(path: &str) -> TransportKind {
    TransportKind::MuxUnix(path.to_string())
}

fn mux_tcp(endpoint: &str) -> TransportKind {
    TransportKind::MuxTcp(endpoint.to_string())
}

#[test]
fn explicit_port_is_opened() {
    let opts = ConnectOptions::default().port("/dev/ttyACM0").keepalive(false);
    for memory in [MuxMemory::Unused, MuxMemory::Used, won_tcp("h", 1)] {
        for step in [
            connect_with(&opts, env(Some("h:1"), None, None), memory.clone()),
            try_connect_with(&opts, env(Some("h:1"), None, None), memory.clone()),
        ] {
            let c = go_on(step);
            assert!(matches!(c.action(), Action::OpenSerial(p) if p == "/dev/ttyACM0"));
            let (kind, after) = established(c.on_event(Event::Opened));
            assert_eq!(kind, TransportKind::Serial("/dev/ttyACM0".to_string()));
            assert_eq!(after, memory);
        }
    }
    let c = go_on(connect_with(&opts, env(None, None, None), MuxMemory::Unused));
    assert!(matches!(c.on_event(Event::Failed(io_error())), ConnectStep::Fail(ClientError::Other(_))));
    // The mux-only connector does not look at the port.
    let c = go_on(connect_mux_auto_with(&opts, env(Some("h:1"), None, None), MuxMemory::Unused));
    assert!(matches!(c.action(), Action::ConnectTcp { .. }));
}

#[test]
fn tcp_then_socket_then_usb() {
    let c = go_on(connect(env(Some("h:1"), None, Some("/run")), MuxMemory::Unused));
    match c.action() {
        Action::ConnectTcp { host, port, timeout } => {
            assert_eq!((host.as_str(), port), ("h", 1));
            assert_eq!(timeout, Duration::from_secs(2));
        }
        other => panic!("{other:?}"),
    }
    let c = go_on(c.on_event(Event::Failed(io_error())));
    assert_eq!(checks(&c), "/run/donglora/mux.sock");
    let c = go_on(c.on_event(Event::Checked(false)));
    assert_eq!(checks(&c), "/tmp/donglora-mux.sock");
    let c = go_on(c.on_event(Event::Checked(false)));
    assert!(matches!(c.action(), Action::FindPort));
    assert_eq!(c.notice(), None);
    // Nothing there: look again, twice, then settle.
    let c = go_on(c.on_event(Event::Scanned(None)));
    assert!(matches!(c.action(), Action::FindPort));
    assert_eq!(c.notice().as_deref(), Some("waiting for DongLoRa device..."));
    let c = go_on(c.on_event(Event::Scanned(None)));
    assert!(matches!(c.action(), Action::Sleep(500)));
    let c = go_on(c.on_event(Event::Slept));
    let c = go_on(c.on_event(Event::Scanned(Some("/dev/ttyUSB0".to_string()))));
    assert!(matches!(c.action(), Action::Sleep(300)));
    assert_eq!(c.notice().as_deref(), Some("found device at /dev/ttyUSB0"));
    let c = go_on(c.on_event(Event::Slept));
    assert!(matches!(c.action(), Action::OpenSerial(p) if p == "/dev/ttyUSB0"));
    let (kind, memory) = established(c.on_event(Event::Opened));
    assert_eq!(kind, TransportKind::Serial("/dev/ttyUSB0".to_string()));
    assert_eq!(memory, MuxMemory::Unused);
}

#[test]
fn device_that_is_there_needs_no_settling() {
    let c = go_on(connect(env(None, None, None), MuxMemory::Unused));
    let c = go_on(c.on_event(Event::Checked(false)));
    let c = go_on(c.on_event(Event::Scanned(Some("p".to_string()))));
    assert!(matches!(c.action(), Action::OpenSerial(p) if p == "p"));
}

#[test]
fn tcp_mux_is_established() {
    let c = go_on(try_connect(env(Some(":9"), None, None), MuxMemory::Unused));
    let end = established(c.on_event(Event::Opened));
    assert_eq!(end, (mux_tcp("localhost:9"), won_tcp("localhost", 9)));
    // An endpoint that cannot be read counts as none.
    let c = go_on(try_connect(env(Some("nonsense"), Some("/x"), None), MuxMemory::Unused));
    assert_eq!(checks(&c), "/x");
}

#[test]
fn existing_socket_is_not_bypassed() {
    for step in [
        connect(env(None, None, None), MuxMemory::Unused),
        try_connect(env(None, None, None), MuxMemory::Unused),
        try_connect(env(None, None, None), won_unix("/tmp/donglora-mux.sock")),
    ] {
        let c = go_on(go_on(step).on_event(Event::Checked(true)));
        assert!(matches!(c.action(), Action::ConnectUnix(p) if p == "/tmp/donglora-mux.sock"));
        assert_eq!(failure(c.on_event(Event::Failed(io_error()))), "nobody there");
    }
}

#[test]
fn trying_fails_without_a_device() {
    let c = go_on(try_connect(env(None, None, None), MuxMemory::Unused));
    let c = go_on(c.on_event(Event::Checked(false)));
    let s = failure(c.on_event(Event::Scanned(None)));
    assert_eq!(s, "no DongLoRa device found (no mux, no USB device)");
}

#[test]
fn sticky_mux_is_waited_for() {
    let c = go_on(connect(env(None, None, Some("/run")), MuxMemory::Used));
    assert_eq!(checks(&c), "/run/donglora/mux.sock");
    let c = go_on(c.on_event(Event::Checked(false)));
    assert!(matches!(c.action(), Action::Sleep(500)));
    assert_eq!(c.notice().as_deref(), Some("waiting for mux at /run/donglora/mux.sock ..."));
    let c = go_on(c.on_event(Event::Slept));
    assert_eq!(checks(&c), "/run/donglora/mux.sock");
    let c = go_on(c.on_event(Event::Checked(true)));
    let end = established(c.on_event(Event::Opened));
    assert_eq!(end, (mux_unix("/run/donglora/mux.sock"), won_unix("/run/donglora/mux.sock")));
    // TCP first, where it is set.
    let c = go_on(connect(env(Some("h:1"), None, None), MuxMemory::Used));
    assert_eq!(dials(&c), ("h".to_string(), 1));
    let c = go_on(c.on_event(Event::Failed(io_error())));
    assert_eq!(checks(&c), "/tmp/donglora-mux.sock");
}

#[test]
fn sticky_mux_that_is_gone_fails_a_try() {
    // Used, but no way has won: any socket will do.
    let c = go_on(try_connect(env(Some("h:1"), None, Some("/run")), MuxMemory::Used));
    assert_eq!(checks(&c), "/run/donglora/mux.sock");
    let c = go_on(c.on_event(Event::Checked(false)));
    assert_eq!(checks(&c), "/tmp/donglora-mux.sock");
    let s = failure(c.on_event(Event::Checked(false)));
    assert_eq!(s, "mux not available (waiting for restart)");
    // A socket has won: no other will do.
    let c = go_on(try_connect(env(Some("h:1"), None, Some("/run")), won_unix("/run/donglora/mux.sock")));
    assert_eq!(checks(&c), "/run/donglora/mux.sock");
    let s = failure(c.on_event(Event::Checked(false)));
    assert_eq!(s, "mux not available (waiting for restart)");
}

#[test]
fn try_reconnects_over_tcp() {
    let tcp = || env(Some("h:1"), None, None);
    let c = go_on(try_connect(tcp(), MuxMemory::Unused));
    let (kind, memory) = established(c.on_event(Event::Opened));
    assert_eq!(kind, mux_tcp("h:1"));
    let c = go_on(try_connect(tcp(), MuxMemory::Unused.merge(memory)));
    assert_eq!(dials(&c), ("h".to_string(), 1));
    let end = established(c.on_event(Event::Opened));
    assert_eq!(end, (mux_tcp("h:1"), won_tcp("h", 1)));
    // Nobody is there.
    let c = go_on(try_connect(tcp(), won_tcp("h", 1)));
    assert_eq!(failure(c.on_event(Event::Failed(io_error()))), "mux not available (waiting for restart)");
}

#[test]
fn waiting_reconnect_returns_to_the_socket_that_won() {
    let run = || env(None, None, Some("/run"));
    let c = go_on(connect(run(), MuxMemory::Unused));
    let c = go_on(c.on_event(Event::Checked(false)));
    let c = go_on(c.on_event(Event::Checked(true)));
    let (kind, memory) = established(c.on_event(Event::Opened));
    assert_eq!(kind, mux_unix("/tmp/donglora-mux.sock"));
    // Gone: it is waited for, and nothing else is looked at.
    let mut c = go_on(connect(run(), memory));
    for _ in 0..3 {
        assert_eq!(checks(&c), "/tmp/donglora-mux.sock");
        c = go_on(c.on_event(Event::Checked(false)));
        assert!(matches!(c.action(), Action::Sleep(500)));
        assert_eq!(c.notice().as_deref(), Some("waiting for mux at /tmp/donglora-mux.sock ..."));
        c = go_on(c.on_event(Event::Slept));
    }
    let c = go_on(c.on_event(Event::Checked(true)));
    let end = established(c.on_event(Event::Opened));
    assert_eq!(end, (mux_unix("/tmp/donglora-mux.sock"), won_unix("/tmp/donglora-mux.sock")));
}

#[test]
fn waiting_reconnect_takes_no_other_daemon() {
    // The socket under the runtime directory won; one under /tmp and a TCP
    // endpoint are there, too.
    let mut c = go_on(connect(env(Some("h:1"), None, Some("/run")), won_unix("/run/donglora/mux.sock")));
    for _ in 0..3 {
        assert_eq!(checks(&c), "/run/donglora/mux.sock");
        c = go_on(go_on(c.on_event(Event::Checked(false))).on_event(Event::Slept));
    }
}

#[test]
fn waiting_reconnect_returns_to_the_endpoint_that_won() {
    let mut c = go_on(connect(env(Some("g:2"), Some("/x"), None), won_tcp("h", 1)));
    for _ in 0..3 {
        assert_eq!(dials(&c), ("h".to_string(), 1));
        c = go_on(c.on_event(Event::Failed(io_error())));
        assert!(matches!(c.action(), Action::Sleep(500)));
        assert_eq!(c.notice().as_deref(), Some("waiting for mux at h:1 ..."));
        c = go_on(c.on_event(Event::Slept));
    }
    assert_eq!(established(c.on_event(Event::Opened)), (mux_tcp("h:1"), won_tcp("h", 1)));
}

fn without_unix(tcp: Option<&str>) -> MuxEnv {
    MuxEnv { unix: false, ..env(tcp, None, None) }
}

#[test]
fn without_unix_sockets_there_is_tcp_or_usb() {
    for step in [
        connect(without_unix(None), MuxMemory::Unused),
        try_connect(without_unix(None), MuxMemory::Unused),
    ] {
        assert!(matches!(go_on(step).action(), Action::FindPort));
    }
    let c = go_on(connect(without_unix(Some("h:1")), MuxMemory::Unused));
    assert_eq!(dials(&c), ("h".to_string(), 1));
    assert!(matches!(go_on(c.on_event(Event::Failed(io_error()))).action(), Action::FindPort));
    // Nothing but the mux daemon.
    let s = failure(connect_mux_auto(without_unix(None), MuxMemory::Unused));
    assert_eq!(s, "mux-only mode requires Unix socket support or DONGLORA_MUX_TCP");
    // Sticky.
    assert_eq!(failure(connect(without_unix(None), MuxMemory::Used)), "no mux endpoint available");
    let c = go_on(connect(without_unix(Some("h:1")), won_tcp("h", 1)));
    assert_eq!(failure(c.on_event(Event::Failed(io_error()))), "no mux endpoint available");
    let c = go_on(try_connect(without_unix(Some("h:1")), won_tcp("h", 1)));
    assert_eq!(failure(c.on_event(Event::Failed(io_error()))), "mux not available (waiting for restart)");
    let c = go_on(try_connect(without_unix(None), MuxMemory::Used));
    assert_eq!(failure(c.on_event(Event::Checked(true))), "Unix mux requires a unix target");
    let c = go_on(try_connect(without_unix(None), MuxMemory::Used));
    assert_eq!(failure(c.on_event(Event::Checked(false))), "mux not available (waiting for restart)");
}

#[test]
fn mux_only_fails_without_a_mux() {
    let c = go_on(connect_mux_auto(env(None, None, None), MuxMemory::Unused));
    assert_eq!(failure(c.on_event(Event::Checked(false))), "no mux socket found");
}

#[test]
fn explicit_mux_endpoints() {
    let unused = || MuxMemory::Unused;
    let c = mux_unix_connect("/x", unused());
    assert!(matches!(c.action(), Action::ConnectUnix(p) if p == "/x"));
    assert_eq!(established(c.on_event(Event::Opened)), (mux_unix("/x"), MuxMemory::Used));
    assert!(matches!(mux_unix_connect("/x", unused()).on_event(Event::Failed(io_error())), ConnectStep::Fail(_)));
    let c = mux_tcp_connect("h", 7, won_unix("/y"));
    assert!(matches!(c.action(), Action::ConnectTcp { host, port: 7, .. } if host == "h"));
    assert_eq!(established(c.on_event(Event::Opened)), (mux_tcp("h:7"), won_unix("/y")));
    assert!(matches!(mux_tcp_connect("h", 7, unused()).on_event(Event::Failed(io_error())), ConnectStep::Fail(_)));
}

#[test]
fn stray_events_change_nothing() {
    let c = go_on(connect(env(None, None, None), MuxMemory::Unused));
    let c = go_on(c.on_event(Event::Slept));
    assert!(matches!(c.action(), Action::CheckPath(_)));
    let c = go_on(c.on_event(Event::Opened));
    assert!(matches!(c.action(), Action::CheckPath(_)));
}

#[test]
fn mux_use_is_remembered() {
    let (unused, used) = (MuxMemory::Unused, MuxMemory::Used);
    assert_eq!(unused.clone().merge(unused.clone()), unused);
    assert_eq!(unused.clone().merge(used.clone()), used);
    assert_eq!(used.clone().merge(unused.clone()), used);
    assert_eq!(won_unix("/x").merge(unused), won_unix("/x"));
    assert_eq!(won_unix("/x").merge(used.clone()), won_unix("/x"));
    assert_eq!(used.merge(won_unix("/x")), won_unix("/x"));
    assert_eq!(won_unix("/x").merge(won_tcp("h", 1)), won_tcp("h", 1));
}
