//! What is said on a new connection: the device is probed, asked what it is,
//! and given its first configuration, as far as it can run it.

use std::time::Duration;

use vstd::prelude::*;

use crate::commands::{
    answer_view, get_info_reply, get_info_request, info_outcome, info_result_view, ping_reply, ping_request,
    plain_request, set_config_command, set_config_outcome, set_config_reply, set_config_request,
    unit_outcome, Request, RequestView, SessionResponse,
};
use crate::dongle::{Dongle, DongleView, KindView, TransportKind};
use crate::errors::{result_view, ClientError, ClientResult, ErrorView};
use crate::protocol::{
    Info, InfoView, LoRaConfig, Modulation, SetConfigResult, TYPE_GET_INFO, TYPE_PING,
};
use crate::text::{decimal, hex, joined, push_decimal, push_hex, push_joined};

verus! {

/// Bit `i` of a bitmap.
pub open spec fn bit(map: u16, i: u8) -> bool {
    i < 16 && map & (1u16 << i) != 0u16
}

fn has_bit(map: u16, i: u8) -> (r: bool)
    ensures
        r == bit(map, i),
{
    i < 16 && map & (1u16 << i) != 0u16
}

/// The numbers below `n` whose bits are set, in order.
pub open spec fn bits_below(map: u16, n: u8) -> Seq<u8>
    decreases n,
{
    if n == 0 {
        Seq::empty()
    } else {
        let i = (n - 1) as u8;
        if bit(map, i) {
            bits_below(map, i).push(i)
        } else {
            bits_below(map, i)
        }
    }
}

fn set_bits(map: u16) -> (r: Vec<u8>)
    ensures
        r@ == bits_below(map, 16),
{
    let mut out: Vec<u8> = Vec::new();
    let mut i: u8 = 0;
    assert(out@ =~= Seq::empty());
    while i < 16
        invariant
            i <= 16,
            out@ == bits_below(map, i),
        decreases 16 - i,
    {
        if has_bit(map, i) {
            out.push(i);
        }
        i = i + 1;
    }
    out
}

/// Why a device cannot use a frequency.
pub open spec fn frequency_reason(info: InfoView, freq_hz: u32) -> Seq<char> {
    "frequency "@ + decimal(freq_hz as nat) + " Hz outside device range ["@ + decimal(info.freq_min_hz as nat) + ", "@
        + decimal(info.freq_max_hz as nat) + "] Hz"@
}

/// Why a device cannot use a spreading factor.
pub open spec fn spreading_reason(info: InfoView, sf: u8) -> Seq<char> {
    "SF"@ + decimal(sf as nat) + " not supported by this device (supports SF["@ + joined(
        bits_below(info.supported_sf_bitmap, 16),
    ) + "])"@
}

/// Why a device cannot use a bandwidth.
pub open spec fn bandwidth_reason(info: InfoView, cfg: LoRaConfig) -> Seq<char> {
    "bandwidth "@ + cfg.bw.label() + " (bit "@ + decimal(cfg.bw.number() as nat) + ") not in supported_bw_bitmap 0x"@
        + hex(info.supported_bw_bitmap as nat, 4)
}

/// A transmit power brought into the device's range.
pub open spec fn clamped(info: InfoView, dbm: i8) -> i8 {
    if dbm > info.tx_power_max_dbm {
        info.tx_power_max_dbm
    } else if dbm < info.tx_power_min_dbm {
        info.tx_power_min_dbm
    } else {
        dbm
    }
}

/// How a transmit power was brought into the device's range.
#[derive(Debug, Clone, Copy, PartialEq, Eq, Structural)]
pub enum PowerClamp {
    /// Down to the most that the device has.
    Max { requested: i8, device_max: i8 },
    /// Up to the least that the device has.
    Min { requested: i8, device_min: i8 },
}

/// How a transmit power is brought into the device's range, where it is
/// outside.
pub open spec fn clamping(info: InfoView, dbm: i8) -> Option<PowerClamp> {
    if dbm > info.tx_power_max_dbm {
        Some(PowerClamp::Max { requested: dbm, device_max: info.tx_power_max_dbm })
    } else if dbm < info.tx_power_min_dbm {
        Some(PowerClamp::Min { requested: dbm, device_min: info.tx_power_min_dbm })
    } else {
        None
    }
}

/// The LoRa configuration that the device is given in place of `cfg`. A
/// frequency, spreading factor or bandwidth that it does not have is refused;
/// the transmit power is brought into its range.
pub open spec fn prepared_lora(info: InfoView, cfg: LoRaConfig) -> Result<LoRaConfig, ErrorView> {
    if !(info.freq_min_hz <= cfg.freq_hz <= info.freq_max_hz) {
        Err(ErrorView::ConfigNotSupported { reason: frequency_reason(info, cfg.freq_hz) })
    } else if !bit(info.supported_sf_bitmap, cfg.sf) {
        Err(ErrorView::ConfigNotSupported { reason: spreading_reason(info, cfg.sf) })
    } else if !bit(info.supported_bw_bitmap, cfg.bw.number()) {
        Err(ErrorView::ConfigNotSupported { reason: bandwidth_reason(info, cfg) })
    } else {
        Ok(LoRaConfig { tx_power_dbm: clamped(info, cfg.tx_power_dbm), ..cfg })
    }
}

/// The configuration that the device is given in place of `m`. Only LoRa is
/// looked at; the device refuses by itself what else it cannot run.
pub open spec fn prepared(info: InfoView, m: Modulation) -> Result<Modulation, ErrorView> {
    match m {
        Modulation::LoRa(cfg) => match prepared_lora(info, cfg) {
            Ok(c) => Ok(Modulation::LoRa(c)),
            Err(e) => Err(e),
        },
        _ => Ok(m),
    }
}

fn prepare_lora_config(info: &Info, cfg: LoRaConfig) -> (r: ClientResult<LoRaConfig>)
    ensures
        result_view(r) == prepared_lora(info@, cfg),
{
    if cfg.freq_hz < info.freq_min_hz || cfg.freq_hz > info.freq_max_hz {
        let mut reason = "frequency ".to_owned();
        push_decimal(&mut reason, cfg.freq_hz as u64);
        reason.append(" Hz outside device range [");
        push_decimal(&mut reason, info.freq_min_hz as u64);
        reason.append(", ");
        push_decimal(&mut reason, info.freq_max_hz as u64);
        reason.append("] Hz");
        assert(reason@ == frequency_reason(info@, cfg.freq_hz));
        return Err(ClientError::ConfigNotSupported { reason });
    }
    if !has_bit(info.supported_sf_bitmap, cfg.sf) {
        let supported = set_bits(info.supported_sf_bitmap);
        let mut reason = "SF".to_owned();
        push_decimal(&mut reason, cfg.sf as u64);
        reason.append(" not supported by this device (supports SF[");
        push_joined(&mut reason, &supported);
        reason.append("])");
        assert(reason@ == spreading_reason(info@, cfg.sf));
        return Err(ClientError::ConfigNotSupported { reason });
    }
    let bw_bit: u8 = cfg.bw.as_u8();
    if !has_bit(info.supported_bw_bitmap, bw_bit) {
        let mut reason = "bandwidth ".to_owned();
        reason.append(cfg.bw.name());
        reason.append(" (bit ");
        push_decimal(&mut reason, bw_bit as u64);
        reason.append(") not in supported_bw_bitmap 0x");
        push_hex(&mut reason, info.supported_bw_bitmap as u64, 4);
        assert(reason@ == bandwidth_reason(info@, cfg));
        return Err(ClientError::ConfigNotSupported { reason });
    }
    let tx_power_dbm: i8 = if cfg.tx_power_dbm > info.tx_power_max_dbm {
        info.tx_power_max_dbm
    } else if cfg.tx_power_dbm < info.tx_power_min_dbm {
        info.tx_power_min_dbm
    } else {
        cfg.tx_power_dbm
    };
    Ok(LoRaConfig { tx_power_dbm, ..cfg })
}

/// Checks a configuration against what the device says of itself, and brings
/// the transmit power into its range.
pub fn prepare_config(info: &Info, modulation: Modulation) -> (r: ClientResult<Modulation>)
    ensures
        result_view(r) == prepared(info@, modulation),
{
    match modulation {
        Modulation::LoRa(cfg) => match prepare_lora_config(info, cfg) {
            Ok(c) => Ok(Modulation::LoRa(c)),
            Err(e) => Err(e),
        },
        other => Ok(other),
    }
}

/// How far the handshake has come.
#[derive(Debug)]
enum Phase {
    /// `PING` was sent.
    Probe,
    /// `GET_INFO` was sent.
    Identify,
    /// `SET_CONFIG` was sent to the device that `GET_INFO` described.
    Configure(Info),
}

/// How far the handshake has come, with views inside.
pub enum PhaseView {
    Probe,
    Identify,
    Configure(InfoView),
}

impl Phase {
    spec fn view(&self) -> PhaseView {
        match self {
            Phase::Probe => PhaseView::Probe,
            Phase::Identify => PhaseView::Identify,
            Phase::Configure(info) => PhaseView::Configure(info@),
        }
    }
}

/// A handshake under way.
#[derive(Debug)]
pub struct Handshake {
    kind: TransportKind,
    timeout: Duration,
    config: Option<Modulation>,
    keepalive: bool,
    phase: Phase,
}

/// The state of a handshake.
pub struct HandshakeView {
    /// The transport of the connection.
    pub kind: KindView,
    /// How long each command may take.
    pub timeout: Duration,
    /// The configuration to apply.
    pub config: Option<Modulation>,
    /// Keep the session alive in the background.
    pub keepalive: bool,
    pub phase: PhaseView,
}

impl View for Handshake {
    type V = HandshakeView;

    closed spec fn view(&self) -> HandshakeView {
        HandshakeView {
            kind: self.kind@,
            timeout: self.timeout,
            config: self.config,
            keepalive: self.keepalive,
            phase: self.phase@,
        }
    }
}

/// What a handshake does next.
#[derive(Debug)]
pub enum HandshakeStep {
    /// Send the request, and hand its answer to `then`.
    Send { request: Request, then: Handshake },
    /// The handshake is over.
    Done(ClientResult<Dongle>),
}

/// What a handshake does next, with views inside.
pub enum HandshakeStepView {
    Send { request: RequestView, then: HandshakeView },
    Done(Result<DongleView, ErrorView>),
}

impl View for HandshakeStep {
    type V = HandshakeStepView;

    open spec fn view(&self) -> HandshakeStepView {
        match self {
            HandshakeStep::Send { request, then } => HandshakeStepView::Send { request: request@, then: then@ },
            HandshakeStep::Done(Ok(d)) => HandshakeStepView::Done(Ok(d@)),
            HandshakeStep::Done(Err(e)) => HandshakeStepView::Done(Err(e@)),
        }
    }
}

impl HandshakeView {
    /// The radio that the handshake leads to at `now_ns`.
    pub open spec fn connected(self, info: InfoView, applied: Option<Modulation>, now_ns: u64) -> DongleView {
        DongleView {
            info,
            kind: self.kind,
            applied,
            rx_started: false,
            closed: false,
            keepalive: self.keepalive,
            last_write_ns: now_ns,
        }
    }

    /// How the transmit power of the configuration that was sent was brought
    /// into the device's range, where it was outside.
    pub open spec fn power_clamp(self) -> Option<PowerClamp> {
        match (self.phase, self.config) {
            (PhaseView::Configure(info), Some(Modulation::LoRa(cfg))) => clamping(info, cfg.tx_power_dbm),
            _ => None,
        }
    }

    /// What a handshake starts with: the device is probed.
    pub open spec fn start(
        kind: KindView,
        timeout: Duration,
        config: Option<Modulation>,
        keepalive: bool,
    ) -> HandshakeStepView {
        HandshakeStepView::Send {
            request: plain_request(TYPE_PING, timeout),
            then: HandshakeView { kind, timeout, config, keepalive, phase: PhaseView::Probe },
        }
    }

    /// `PING` came out as `out`: the device is asked what it is.
    pub open spec fn after_probe(self, out: Result<(), ErrorView>) -> HandshakeStepView {
        match out {
            Ok(_) => HandshakeStepView::Send {
                request: plain_request(TYPE_GET_INFO, self.timeout),
                then: HandshakeView { phase: PhaseView::Identify, ..self },
            },
            Err(e) => HandshakeStepView::Done(Err(e)),
        }
    }

    /// `GET_INFO` came out as `out`: the configuration is applied, where there
    /// is one and the device can run it.
    pub open spec fn after_identify(self, out: Result<InfoView, ErrorView>, now_ns: u64) -> HandshakeStepView {
        match out {
            Ok(info) => match self.config {
                Some(m) => match prepared(info, m) {
                    Ok(p) => match set_config_command(p, self.timeout) {
                        Ok(request) => HandshakeStepView::Send {
                            request,
                            then: HandshakeView { phase: PhaseView::Configure(info), ..self },
                        },
                        Err(e) => HandshakeStepView::Done(Err(e)),
                    },
                    Err(e) => HandshakeStepView::Done(Err(e)),
                },
                None => HandshakeStepView::Done(Ok(self.connected(info, None, now_ns))),
            },
            Err(e) => HandshakeStepView::Done(Err(e)),
        }
    }

    /// `SET_CONFIG` came out as `out`.
    pub open spec fn after_configure(
        self,
        info: InfoView,
        out: Result<SetConfigResult, ErrorView>,
        now_ns: u64,
    ) -> HandshakeStepView {
        match out {
            Ok(r) => HandshakeStepView::Done(Ok(self.connected(info, Some(r.current), now_ns))),
            Err(e) => HandshakeStepView::Done(Err(e)),
        }
    }
}

impl Handshake {
    /// Starts the handshake on a new connection. Each command may take
    /// `timeout`; `config` is applied where it is given.
    pub fn start(kind: TransportKind, timeout: Duration, config: Option<Modulation>, keepalive: bool) -> (r: HandshakeStep)
        ensures
            r@ == HandshakeView::start(kind@, timeout, config, keepalive),
    {
        HandshakeStep::Send {
            request: ping_request(timeout),
            then: Handshake { kind, timeout, config, keepalive, phase: Phase::Probe },
        }
    }

    /// How the transmit power of the configuration that was sent was brought
    /// into the device's range, where it was outside.
    pub fn power_clamp(&self) -> (r: Option<PowerClamp>)
        ensures
            r == self@.power_clamp(),
    {
        match (&self.phase, &self.config) {
            (Phase::Configure(info), Some(Modulation::LoRa(cfg))) => {
                if cfg.tx_power_dbm > info.tx_power_max_dbm {
                    Some(PowerClamp::Max { requested: cfg.tx_power_dbm, device_max: info.tx_power_max_dbm })
                } else if cfg.tx_power_dbm < info.tx_power_min_dbm {
                    Some(PowerClamp::Min { requested: cfg.tx_power_dbm, device_min: info.tx_power_min_dbm })
                } else {
                    None
                }
            },
            _ => None,
        }
    }

    /// Takes the answer to the last request at `now_ns`.
    pub fn on_answer(self, answer: ClientResult<SessionResponse>, now_ns: u64) -> (r: HandshakeStep)
        ensures
            match self@.phase {
                PhaseView::Probe => exists|out: Result<(), ErrorView>| #[trigger]
                    unit_outcome("PING"@, answer_view(answer), out) && r@ == self@.after_probe(out),
                PhaseView::Identify => exists|out: Result<InfoView, ErrorView>| #[trigger]
                    info_outcome(answer_view(answer), out) && r@ == self@.after_identify(out, now_ns),
                PhaseView::Configure(info) => exists|out: Result<SetConfigResult, ErrorView>| #[trigger]
                    set_config_outcome(answer_view(answer), out) && r@ == self@.after_configure(info, out, now_ns),
            },
    {
        let Handshake { kind, timeout, config, keepalive, phase } = self;
        match phase {
            Phase::Probe => {
                let reply = ping_reply(answer);
                assert(unit_outcome("PING"@, answer_view(answer), result_view(reply)));
                match reply {
                    Ok(()) => HandshakeStep::Send {
                        request: get_info_request(timeout),
                        then: Handshake { kind, timeout, config, keepalive, phase: Phase::Identify },
                    },
                    Err(e) => HandshakeStep::Done(Err(e)),
                }
            },
            Phase::Identify => {
                let reply = get_info_reply(answer);
                assert(info_outcome(answer_view(answer), info_result_view(reply)));
                match reply {
                    Ok(info) => Handshake::identified(kind, timeout, config, keepalive, info, now_ns),
                    Err(e) => HandshakeStep::Done(Err(e)),
                }
            },
            Phase::Configure(info) => {
                let reply = set_config_reply(answer);
                assert(set_config_outcome(answer_view(answer), result_view(reply)));
                match reply {
                    Ok(result) => HandshakeStep::Done(Ok(Dongle::new(info, kind, Some(result.current), keepalive, now_ns))),
                    Err(e) => HandshakeStep::Done(Err(e)),
                }
            },
        }
    }

    fn identified(
        kind: TransportKind,
        timeout: Duration,
        config: Option<Modulation>,
        keepalive: bool,
        info: Info,
        now_ns: u64,
    ) -> (r: HandshakeStep)
        ensures
            r@ == (HandshakeView { kind: kind@, timeout, config, keepalive, phase: PhaseView::Identify }).after_identify(
                Ok(info@),
                now_ns,
            ),
    {
        match config {
            Some(m) => match prepare_config(&info, m) {
                Ok(prepared) => match set_config_request(&prepared, timeout) {
                    Ok(request) => HandshakeStep::Send {
                        request,
                        then: Handshake { kind, timeout, config, keepalive, phase: Phase::Configure(info) },
                    },
                    Err(e) => HandshakeStep::Done(Err(e)),
                },
                Err(e) => HandshakeStep::Done(Err(e)),
            },
            None => HandshakeStep::Done(Ok(Dongle::new(info, kind, None, keepalive, now_ns))),
        }
    }
}

// ---------------------------------------------------------------------
// Laws
// ---------------------------------------------------------------------

/// A prepared LoRa configuration is one that the device can run, and differs
/// from the one that was asked for in the transmit power at most.
pub proof fn prepared_config_fits(info: InfoView, cfg: LoRaConfig)
    ensures
        prepared_lora(info, cfg) matches Ok(c) ==> {
            &&& info.freq_min_hz <= c.freq_hz <= info.freq_max_hz
            &&& bit(info.supported_sf_bitmap, c.sf)
            &&& bit(info.supported_bw_bitmap, c.bw.number())
            &&& info.tx_power_min_dbm <= info.tx_power_max_dbm ==> info.tx_power_min_dbm <= c.tx_power_dbm
                <= info.tx_power_max_dbm
            &&& c == (LoRaConfig { tx_power_dbm: c.tx_power_dbm, ..cfg })
        },
{
}

/// A transmit power is never changed in silence: where the configuration that
/// is sent has another one than was asked for, the handshake tells which, and
/// nothing is told where it is the same.
pub proof fn clamping_is_told(h: HandshakeView, info: InfoView, cfg: LoRaConfig, now_ns: u64)
    requires
        h.config == Some(Modulation::LoRa(cfg)),
    ensures
        h.after_identify(Ok(info), now_ns) matches HandshakeStepView::Send { request, then } ==> {
            &&& prepared_lora(info, cfg) matches Ok(sent) && set_config_command(
                Modulation::LoRa(sent),
                h.timeout,
            ) == Ok::<RequestView, ErrorView>(request) && (then.power_clamp() is Some <==> sent.tx_power_dbm
                != cfg.tx_power_dbm)
            &&& then.power_clamp() matches Some(PowerClamp::Max { requested, device_max }) ==> requested
                == cfg.tx_power_dbm && device_max == clamped(info, cfg.tx_power_dbm)
            &&& then.power_clamp() matches Some(PowerClamp::Min { requested, device_min }) ==> requested
                == cfg.tx_power_dbm && device_min == clamped(info, cfg.tx_power_dbm)
        },
{
}

/// A configuration that the device can run is left as it is, and so is one
/// that was prepared already.
pub proof fn fitting_config_is_kept(info: InfoView, cfg: LoRaConfig)
    requires
        info.tx_power_min_dbm <= info.tx_power_max_dbm,
    ensures
        prepared_lora(info, cfg) is Ok && info.tx_power_min_dbm <= cfg.tx_power_dbm <= info.tx_power_max_dbm
            ==> prepared_lora(info, cfg) == Ok::<LoRaConfig, ErrorView>(cfg),
        prepared_lora(info, cfg) matches Ok(c) ==> prepared_lora(info, c) == Ok::<LoRaConfig, ErrorView>(c),
{
}

/// No connection without an answer: the handshake leads to a radio only after
/// the device has answered `PING` and described itself, and an error of either
/// command is what the caller is told.
pub proof fn device_is_probed_first(
    h: HandshakeView,
    ping: Result<(), ErrorView>,
    info: Result<InfoView, ErrorView>,
    config: Result<SetConfigResult, ErrorView>,
    e: ErrorView,
    now_ns: u64,
)
    ensures
        HandshakeView::start(h.kind, h.timeout, h.config, h.keepalive) is Send,
        !(h.after_probe(ping) matches HandshakeStepView::Done(Ok(_))),
        h.after_probe(Err(e)) == HandshakeStepView::Done(Err(e)),
        h.after_identify(Err(e), now_ns) == HandshakeStepView::Done(Err(e)),
        h.after_identify(info, now_ns) matches HandshakeStepView::Done(Ok(d)) ==> info == Ok::<InfoView, ErrorView>(d.info)
            && d.applied is None,
        h.after_identify(info, now_ns) matches HandshakeStepView::Send { then, .. } ==> info is Ok && then.phase
            == PhaseView::Configure(info->Ok_0),
        h.after_configure(info->Ok_0, config, now_ns) matches HandshakeStepView::Done(Ok(d)) ==> d.info == info->Ok_0 && config
            is Ok && d.applied == Some(config->Ok_0.current),
{
}

/// A configuration that the device cannot run is never sent.
pub proof fn unsupported_config_is_not_sent(h: HandshakeView, info: InfoView, cfg: LoRaConfig, now_ns: u64)
    requires
        h.config == Some(Modulation::LoRa(cfg)),
        prepared_lora(info, cfg) is Err,
    ensures
        h.after_identify(Ok(info), now_ns) == HandshakeStepView::Done(Err(prepared_lora(info, cfg)->Err_0)),
{
}

/// Whatever is answered, a handshake keeps what was asked for: the radio that
/// it leads to has the transport of the connection, is kept alive exactly where
/// that was asked for, is open, does not receive yet, and was heard when the
/// handshake ended.
pub proof fn handshake_keeps_what_was_asked(
    kind: KindView,
    timeout: Duration,
    config: Option<Modulation>,
    keepalive: bool,
    h: HandshakeView,
    ping: Result<(), ErrorView>,
    info: Result<InfoView, ErrorView>,
    described: InfoView,
    out: Result<SetConfigResult, ErrorView>,
    now_ns: u64,
)
    ensures
        HandshakeView::start(kind, timeout, config, keepalive) matches HandshakeStepView::Send { then, .. } && {
            &&& then.kind == kind
            &&& then.timeout == timeout
            &&& then.config == config
            &&& then.keepalive == keepalive
            &&& then.phase is Probe
        },
        forall|s: HandshakeStepView| #![auto]
            s == h.after_probe(ping) || s == h.after_identify(info, now_ns) || s == h.after_configure(
                described,
                out,
                now_ns,
            ) ==> {
                &&& s matches HandshakeStepView::Send { then, .. } ==> {
                    &&& then.kind == h.kind
                    &&& then.timeout == h.timeout
                    &&& then.config == h.config
                    &&& then.keepalive == h.keepalive
                }
                &&& s matches HandshakeStepView::Done(Ok(d)) ==> {
                    &&& d.kind == h.kind
                    &&& d.keepalive == h.keepalive
                    &&& !d.closed
                    &&& !d.rx_started
                    &&& d.last_write_ns == now_ns
                }
            },
{
}

/// What is said on a new connection, in this order: `PING`, `GET_INFO`, and,
/// where a configuration is to be applied, `SET_CONFIG` with that configuration
/// as far as the device can run it. Each may take the time that was given. The
/// radio knows what the device said of itself, and the configuration that the
/// device reported, if one was applied.
pub proof fn handshake_says(
    kind: KindView,
    timeout: Duration,
    config: Option<Modulation>,
    keepalive: bool,
    info: InfoView,
    out: SetConfigResult,
    now_ns: u64,
)
    ensures
        HandshakeView::start(kind, timeout, config, keepalive) matches HandshakeStepView::Send { request, then } && {
            &&& request.type_id == 0x01
            &&& request.payload.len() == 0
            &&& request.timeout == timeout
            &&& then.after_probe(Ok(())) matches HandshakeStepView::Send { request: second, then: identify } && {
                &&& second.type_id == 0x02
                &&& second.payload.len() == 0
                &&& second.timeout == timeout
                &&& identify.phase is Identify
                &&& config is None ==> (identify.after_identify(Ok(info), now_ns) matches HandshakeStepView::Done(Ok(d))
                    && d.info == info && d.applied is None)
                &&& config matches Some(m) ==> (prepared(info, m) matches Ok(p) ==> (p.payload() matches Some(bytes) ==> (
                identify.after_identify(Ok(info), now_ns) matches HandshakeStepView::Send {
                    request: third,
                    then: configure,
                } && {
                    &&& third.type_id == 0x03
                    &&& third.payload == bytes
                    &&& third.timeout == timeout
                    &&& configure.phase == PhaseView::Configure(info)
                    &&& configure.after_configure(info, Ok(out), now_ns) matches HandshakeStepView::Done(Ok(d)) && d.info
                        == info && d.applied == Some(out.current)
                })))
            }
        },
{
}

/// An error ends the handshake, and is what the caller is told: of each of the
/// three commands, and of a configuration that the device cannot run or that
/// cannot be encoded.
pub proof fn handshake_errors_are_told(h: HandshakeView, info: InfoView, m: Modulation, e: ErrorView, now_ns: u64)
    ensures
        h.after_probe(Err(e)) == HandshakeStepView::Done(Err(e)),
        h.after_identify(Err(e), now_ns) == HandshakeStepView::Done(Err(e)),
        h.after_configure(info, Err(e), now_ns) == HandshakeStepView::Done(Err(e)),
        h.config == Some(m) && prepared(info, m) == Err::<Modulation, ErrorView>(e) ==> h.after_identify(
            Ok(info),
            now_ns,
        ) == HandshakeStepView::Done(Err(e)),
        h.config == Some(m) && (prepared(info, m) matches Ok(p) && p.payload() is None) ==> h.after_identify(
            Ok(info),
            now_ns,
        ) == HandshakeStepView::Done(Err(ErrorView::EncodeFailed("SyncWordTooLong"@))),
{
}

/// A bitmap says yes to the numbers whose binary digit is 1, and there are
/// sixteen of them.
pub proof fn bitmaps_are_read_by_digit(map: u16, i: u8)
    ensures
        bit(map, i) <==> i < 16 && (map >> i) % 2 == 1,
{
    if i < 16 {
        assert((map & (1u16 << i) != 0u16) == ((map >> i) % 2 == 1)) by (bit_vector)
            requires
                i < 16,
        ;
    }
}

/// The numbers that a refusal lists are those that the bitmap says yes to, each
/// once, from the lowest to the highest.
pub proof fn listed_bits_are_those_set(map: u16, n: u8)
    requires
        n <= 16,
    ensures
        forall|i: u8| #[trigger] bits_below(map, n).contains(i) <==> i < n && bit(map, i),
        forall|j: int, k: int|
            0 <= j < k < bits_below(map, n).len() ==> #[trigger] bits_below(map, n)[j] < #[trigger] bits_below(map, n)[k],
    decreases n,
{
    if n > 0 {
        let i = (n - 1) as u8;
        let before = bits_below(map, i);
        listed_bits_are_those_set(map, i);
        assert forall|x: u8| #[trigger] bits_below(map, n).contains(x) <==> x < n && bit(map, x) by {
            if bit(map, i) {
                assert(bits_below(map, n) == before.push(i));
                if before.contains(x) {
                    let k = choose|k: int| 0 <= k < before.len() && before[k] == x;
                    assert(bits_below(map, n)[k] == x);
                }
                if x == i {
                    assert(bits_below(map, n)[before.len() as int] == x);
                }
                if bits_below(map, n).contains(x) && x != i {
                    let k = choose|k: int| 0 <= k < bits_below(map, n).len() && bits_below(map, n)[k] == x;
                    assert(before[k] == x);
                }
            } else {
                assert(bits_below(map, n) == before);
            }
        }
        assert forall|k: int| 0 <= k < before.len() implies #[trigger] before[k] < i by {
            assert(before.contains(before[k]));
        }
    }
}

/// A LoRa configuration is refused exactly where the device does not have its
/// frequency, its spreading factor or its bandwidth, and the first of these
/// that is missing is what the caller is told.
pub proof fn what_the_device_lacks_is_refused(info: InfoView, cfg: LoRaConfig)
    ensures
        ({
            let frequency = info.freq_min_hz <= cfg.freq_hz && cfg.freq_hz <= info.freq_max_hz;
            let spreading = bit(info.supported_sf_bitmap, cfg.sf);
            let bandwidth = bit(info.supported_bw_bitmap, cfg.bw.number());
            let refused = |reason: Seq<char>|
                prepared_lora(info, cfg) == Err::<LoRaConfig, ErrorView>(ErrorView::ConfigNotSupported { reason });
            &&& prepared_lora(info, cfg) is Ok <==> frequency && spreading && bandwidth
            &&& !frequency ==> refused(
                "frequency "@ + decimal(cfg.freq_hz as nat) + " Hz outside device range ["@ + decimal(
                    info.freq_min_hz as nat,
                ) + ", "@ + decimal(info.freq_max_hz as nat) + "] Hz"@,
            )
            &&& frequency && !spreading ==> refused(
                "SF"@ + decimal(cfg.sf as nat) + " not supported by this device (supports SF["@ + joined(
                    bits_below(info.supported_sf_bitmap, 16),
                ) + "])"@,
            )
            &&& frequency && spreading && !bandwidth ==> refused(
                "bandwidth "@ + cfg.bw.label() + " (bit "@ + decimal(cfg.bw.number() as nat)
                    + ") not in supported_bw_bitmap 0x"@ + hex(info.supported_bw_bitmap as nat, 4),
            )
        }),
{
}

/// The transmit power that the device is given is the one of its range that is
/// nearest to what was asked for.
pub proof fn power_is_the_nearest(info: InfoView, dbm: i8, other: i8)
    ensures
        info.tx_power_min_dbm <= info.tx_power_max_dbm ==> info.tx_power_min_dbm <= clamped(info, dbm)
            <= info.tx_power_max_dbm,
        info.tx_power_min_dbm <= dbm <= info.tx_power_max_dbm ==> clamped(info, dbm) == dbm,
        info.tx_power_min_dbm <= other <= info.tx_power_max_dbm && other <= dbm ==> other <= clamped(info, dbm) <= dbm,
        info.tx_power_min_dbm <= other <= info.tx_power_max_dbm && dbm <= other ==> dbm <= clamped(info, dbm) <= other,
        dbm > info.tx_power_max_dbm ==> clamped(info, dbm) == info.tx_power_max_dbm,
        dbm <= info.tx_power_max_dbm && dbm < info.tx_power_min_dbm ==> clamped(info, dbm) == info.tx_power_min_dbm,
{
}

/// Of what was asked for, the device is given everything but a transmit power
/// that it does not have; a configuration that is not LoRa it is given as it
/// is.
pub proof fn only_the_power_is_adjusted(info: InfoView, m: Modulation)
    ensures
        !(m is LoRa) ==> prepared(info, m) == Ok::<Modulation, ErrorView>(m),
        m matches Modulation::LoRa(cfg) ==> match prepared_lora(info, cfg) {
            Ok(c) => prepared(info, m) == Ok::<Modulation, ErrorView>(Modulation::LoRa(c)) && {
                &&& c.freq_hz == cfg.freq_hz
                &&& c.sf == cfg.sf
                &&& c.bw == cfg.bw
                &&& c.cr == cfg.cr
                &&& c.preamble_len == cfg.preamble_len
                &&& c.sync_word == cfg.sync_word
                &&& c.header_mode == cfg.header_mode
                &&& c.payload_crc == cfg.payload_crc
                &&& c.iq_invert == cfg.iq_invert
                &&& c.tx_power_dbm == clamped(info, cfg.tx_power_dbm)
            },
            Err(e) => prepared(info, m) == Err::<Modulation, ErrorView>(e),
        },
{
}

} // verus!
