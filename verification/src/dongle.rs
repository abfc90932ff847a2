//! The radio as its user sees it: what is cached of it, and which commands
//! each operation takes.
//!
//! An operation is a short dialogue. It starts with a request to send; the
//! answer is handed back, and either another request follows or the operation
//! is done.

use std::time::Duration;

use vstd::prelude::*;

use crate::commands::{
    answer_view, from_secs, ping_reply, ping_request, plain_request, rx_start_reply, rx_start_request,
    request_view, rx_stop_reply, rx_stop_request, seconds, set_config_command, set_config_outcome, set_config_reply,
    set_config_request, transmit_command, transmit_outcome, transmit_reply, transmit_request, unit_outcome, Request,
    RequestView, ResponseView, SessionResponse,
};
use crate::errors::{result_view, ClientError, ClientResult, ErrorView};
use crate::protocol::{
    Info, InfoView, Modulation, SetConfigResult, TxDonePayload, TYPE_PING, TYPE_RX_START, TYPE_RX_STOP,
    TYPE_SET_CONFIG,
};
use crate::retry::{RetryPolicy, RetryStepView};

verus! {

/// The transport that a connection ended up with.
#[derive(Debug, Clone, PartialEq, Eq)]
pub enum TransportKind {
    /// USB serial, with the path of the device.
    Serial(String),
    /// The mux daemon over a Unix socket, with its path.
    MuxUnix(String),
    /// The mux daemon over TCP, with `host:port`.
    MuxTcp(String),
}

/// The transport that a connection ended up with, its text as a sequence.
pub enum KindView {
    Serial(Seq<char>),
    MuxUnix(Seq<char>),
    MuxTcp(Seq<char>),
}

impl View for TransportKind {
    type V = KindView;

    open spec fn view(&self) -> KindView {
        match self {
            TransportKind::Serial(s) => KindView::Serial(s@),
            TransportKind::MuxUnix(s) => KindView::MuxUnix(s@),
            TransportKind::MuxTcp(s) => KindView::MuxTcp(s@),
        }
    }
}

/// A path whose parts are told apart by `/` on every platform.
pub open spec fn plain_path(p: Seq<char>) -> bool {
    &&& !p.contains('\\')
    &&& !(p.len() >= 2 && p[1] == ':')
    &&& !(p.len() >= 2 && p[0] == '/' && p[1] == '/')
}

/// A character that separates the parts of a path on some platform.
pub open spec fn is_separator(c: char) -> bool {
    c == '/' || c == '\\'
}

/// A path with a last part behind a `/` that every platform takes for the same
/// part, whatever stands before it.
pub open spec fn plain_end(p: Seq<char>) -> bool {
    let part = p.skip(last_part(p));
    &&& 0 < last_part(p) < p.len()
    &&& !part.contains('\\')
    &&& !part.contains(':')
    &&& part != seq!['.']
    &&& !(p.len() >= 2 && is_separator(p[0]) && is_separator(p[1]))
}

/// A path whose final component is the same on every platform.
pub open spec fn portable_path(p: Seq<char>) -> bool {
    plain_path(p) || plain_end(p)
}

/// Where the part after the last `/` starts.
pub open spec fn last_part(p: Seq<char>) -> int
    decreases p.len(),
{
    if p.len() == 0 || p.last() == '/' {
        p.len() as int
    } else {
        last_part(p.drop_last())
    }
}

/// The last part of a path, `.` and empty parts left out; `None` where there
/// is no such part or it is `..`.
pub open spec fn final_name(p: Seq<char>) -> Option<Seq<char>>
    decreases p.len(),
{
    let start = last_part(p);
    let part = p.skip(start);
    if part.len() == 0 || part == seq!['.'] {
        if 0 < start <= p.len() {
            final_name(p.take(start - 1))
        } else {
            None
        }
    } else if part == seq!['.', '.'] {
        None
    } else {
        Some(part)
    }
}

/// The views of an optional text.
pub open spec fn text_view(t: Option<String>) -> Option<Seq<char>> {
    match t {
        Some(s) => Some(s@),
        None => None,
    }
}

/// `std::path::Path::file_name`: the final component of a path. It is stated
/// for paths that every platform takes apart at `/`, and for those whose last
/// part every platform tells from the rest; of other paths nothing is claimed,
/// since platforms differ on them.
#[verifier::external_body]
fn file_name(path: &str) -> (r: Option<String>)
    ensures
        portable_path(path@) ==> text_view(r) == final_name(path@),
{
    std::path::Path::new(path).file_name().map(|f| f.to_string_lossy().into_owned())
}

/// The label of a serial device with the path `path` and the final component
/// `name`.
pub fn serial_label(path: &String, name: Option<String>) -> (r: String)
    ensures
        r@ == match text_view(name) {
            Some(n) => n,
            None => path@,
        },
{
    match name {
        Some(n) => n,
        None => path.clone(),
    }
}

impl TransportKind {
    /// A short label for a status line: the name of the serial device,
    /// `mux:unix` or `mux:tcp`.
    #[must_use]
    pub fn short_label(&self) -> (r: String)
        ensures
            match self@ {
                KindView::Serial(p) => portable_path(p) ==> r@ == match final_name(p) {
                    Some(n) => n,
                    None => p,
                },
                KindView::MuxUnix(_) => r@ == "mux:unix"@,
                KindView::MuxTcp(_) => r@ == "mux:tcp"@,
            },
    {
        match self {
            TransportKind::Serial(p) => {
                let name = file_name(p.as_str());
                serial_label(p, name)
            },
            TransportKind::MuxUnix(_) => "mux:unix".to_owned(),
            TransportKind::MuxTcp(_) => "mux:tcp".to_owned(),
        }
    }

    /// True for a transport that goes through the mux daemon.
    #[must_use]
    pub fn is_mux(&self) -> (r: bool)
        ensures
            r == !(self@ is Serial),
    {
        matches!(self, TransportKind::MuxUnix(_) | TransportKind::MuxTcp(_))
    }
}

/// How long the host may be quiet before the keepalive sends a `PING`, and how
/// often the keepalive wakes up, in milliseconds.
pub const KEEPALIVE_INTERVAL_MS: u64 = 500;

/// Nanoseconds in a millisecond. Points in time are nanoseconds on a clock of
/// the caller's that never runs backwards.
pub const NS_PER_MS: u64 = 1_000_000;

/// How long the device keeps a session with a quiet host, in milliseconds.
pub const INACTIVITY_MS: u64 = 1000;

/// How long the commands that an operation adds by itself may take.
pub const COMMAND_TIMEOUT_SECS: u64 = 2;

/// How long a transmission may take.
pub const TX_TIMEOUT_SECS: u64 = 10;

/// A radio: what is known of it, and in which mode it is.
#[derive(Debug)]
pub struct Dongle {
    info: Info,
    transport_kind: TransportKind,
    applied_config: Option<Modulation>,
    rx_started: bool,
    closed: bool,
    keepalive: bool,
    last_write_ns: u64,
}

/// The state of a radio.
pub struct DongleView {
    /// What the device said of itself when the connection was made.
    pub info: InfoView,
    pub kind: KindView,
    /// The configuration that the device reported last.
    pub applied: Option<Modulation>,
    /// The device receives continuously.
    pub rx_started: bool,
    pub closed: bool,
    /// The session is kept alive in the background.
    pub keepalive: bool,
    /// When the host last sent a command, or the keepalive last got an answer.
    pub last_write_ns: u64,
}

impl View for Dongle {
    type V = DongleView;

    closed spec fn view(&self) -> DongleView {
        DongleView {
            info: self.info@,
            kind: self.transport_kind@,
            applied: self.applied_config,
            rx_started: self.rx_started,
            closed: self.closed,
            keepalive: self.keepalive,
            last_write_ns: self.last_write_ns,
        }
    }
}

/// The error of every operation on a closed radio.
pub open spec fn closed_error() -> ErrorView {
    ErrorView::TransportClosed("dongle closed"@)
}

/// What an operation does next.
#[derive(Debug)]
pub enum Step<C, T> {
    /// Send the request, and hand its answer to `then`.
    Send { request: Request, then: C },
    /// The operation is over.
    Done(ClientResult<T>),
}

/// What an operation does next, with views inside.
pub enum StepView<C, T> {
    Send { request: RequestView, then: C },
    Done(Result<T, ErrorView>),
}

impl<C: View, T> View for Step<C, T> {
    type V = StepView<C::V, T>;

    open spec fn view(&self) -> StepView<C::V, T> {
        match self {
            Step::Send { request, then } => StepView::Send { request: request@, then: then@ },
            Step::Done(r) => StepView::Done(result_view(*r)),
        }
    }
}

/// How far an operation with recovery has come.
#[derive(Debug, Clone, Copy, PartialEq, Eq, Structural)]
pub enum Stage {
    /// The command was sent.
    First,
    /// The device had lost its configuration, and is given it again.
    Reapply,
    /// The command was sent a second time.
    Second,
}

impl Stage {
    /// How many more requests may follow.
    pub open spec fn left(self) -> nat {
        match self {
            Stage::First => 2,
            Stage::Reapply => 1,
            Stage::Second => 0,
        }
    }
}

/// A transmission under way.
#[derive(Debug)]
pub struct TxCall {
    request: Request,
    stage: Stage,
}

/// Entering continuous receive mode, under way.
#[derive(Debug)]
pub struct RxStartCall {
    stage: Stage,
}

/// A transmission under way: its `TX` request, and how far it has come.
pub struct TxCallView {
    pub request: RequestView,
    pub stage: Stage,
}

impl View for TxCall {
    type V = TxCallView;

    closed spec fn view(&self) -> TxCallView {
        TxCallView { request: self.request@, stage: self.stage }
    }
}

impl View for RxStartCall {
    type V = Stage;

    closed spec fn view(&self) -> Stage {
        self.stage
    }
}

impl DongleView {
    /// The radio after the user has started an operation at `now_ns`: unless
    /// it is closed, the host is heard.
    pub open spec fn touched(self, now_ns: u64) -> DongleView {
        if self.closed {
            self
        } else {
            self.heard(now_ns)
        }
    }

    /// The host is heard at `now_ns`.
    pub open spec fn heard(self, now_ns: u64) -> DongleView {
        DongleView { last_write_ns: now_ns, ..self }
    }

    /// The radio after `close`.
    pub open spec fn after_close(self) -> DongleView {
        DongleView { closed: true, ..self }
    }

    /// Where the next packet is to be had.
    pub open spec fn recv_step(self) -> RecvStep {
        if self.closed {
            RecvStep::Closed
        } else if !self.rx_started {
            RecvStep::StartFirst
        } else {
            RecvStep::Receive
        }
    }

    /// The configuration is sent again, or the error why it is not.
    pub open spec fn recovery(self) -> Result<RequestView, ErrorView> {
        match self.applied {
            Some(m) => set_config_command(m, seconds(COMMAND_TIMEOUT_SECS)),
            None => Err(ErrorView::NotConfigured),
        }
    }

    /// The device reports the configuration `m`.
    pub open spec fn with_config(self, m: Modulation) -> DongleView {
        DongleView { applied: Some(m), ..self }
    }

    /// What a transmission starts with.
    pub open spec fn tx_start(self, data: Seq<u8>, skip_cad: bool, timeout: Duration) -> StepView<
        TxCallView,
        TxDonePayload,
    > {
        if self.closed {
            StepView::Done(Err(closed_error()))
        } else {
            match transmit_command(data, skip_cad, timeout) {
                Ok(request) => StepView::Send { request, then: TxCallView { request, stage: Stage::First } },
                Err(e) => StepView::Done(Err(e)),
            }
        }
    }

    /// What entering continuous receive mode starts with.
    pub open spec fn rx_start_begin(self) -> StepView<Stage, ()> {
        if self.closed {
            StepView::Done(Err(closed_error()))
        } else if self.rx_started {
            StepView::Done(Ok(()))
        } else {
            StepView::Send {
                request: plain_request(TYPE_RX_START, seconds(COMMAND_TIMEOUT_SECS)),
                then: Stage::First,
            }
        }
    }
}

impl TxCallView {
    /// A transmission whose `TX` came out as `out` in the state `d`: where the
    /// device has lost its configuration the first time, recovery is tried;
    /// otherwise the transmission is over.
    pub open spec fn after_tx(self, d: DongleView, out: Result<TxDonePayload, ErrorView>) -> StepView<
        TxCallView,
        TxDonePayload,
    > {
        if self.stage is First && out == Err::<TxDonePayload, ErrorView>(ErrorView::NotConfigured) {
            match d.recovery() {
                Ok(request) => StepView::Send { request, then: TxCallView { stage: Stage::Reapply, ..self } },
                Err(e) => StepView::Done(Err(e)),
            }
        } else {
            StepView::Done(out)
        }
    }

    /// A transmission whose `SET_CONFIG` came out as `out`: the same `TX` is
    /// sent again.
    pub open spec fn after_reapply(self, out: Result<SetConfigResult, ErrorView>) -> StepView<
        TxCallView,
        TxDonePayload,
    > {
        match out {
            Ok(_) => StepView::Send { request: self.request, then: TxCallView { stage: Stage::Second, ..self } },
            Err(e) => StepView::Done(Err(e)),
        }
    }
}

/// Entering receive mode, where `RX_START` came out as `out`.
pub open spec fn rx_start_after(stage: Stage, d: DongleView, out: Result<(), ErrorView>) -> StepView<Stage, ()> {
    if stage is First && out == Err::<(), ErrorView>(ErrorView::NotConfigured) {
        match d.recovery() {
            Ok(request) => StepView::Send { request, then: Stage::Reapply },
            Err(e) => StepView::Done(Err(e)),
        }
    } else {
        StepView::Done(out)
    }
}

/// Entering receive mode, where `SET_CONFIG` came out as `out`.
pub open spec fn rx_start_after_reapply(out: Result<SetConfigResult, ErrorView>) -> StepView<Stage, ()> {
    match out {
        Ok(_) => StepView::Send {
            request: plain_request(TYPE_RX_START, seconds(COMMAND_TIMEOUT_SECS)),
            then: Stage::Second,
        },
        Err(e) => StepView::Done(Err(e)),
    }
}

/// The radio after `SET_CONFIG` came out as `out` during a recovery.
pub open spec fn reapplied(d: DongleView, out: Result<SetConfigResult, ErrorView>) -> DongleView {
    match out {
        Ok(r) => d.with_config(r.current),
        Err(_) => d,
    }
}

/// The radio after `RX_START` came out as `out`.
pub open spec fn rx_started_after(d: DongleView, out: Result<(), ErrorView>) -> DongleView {
    DongleView { rx_started: d.rx_started || out is Ok, ..d }
}

/// The radio after `RX_STOP` came out as `out`.
pub open spec fn rx_stopped_after(d: DongleView, out: Result<(), ErrorView>) -> DongleView {
    DongleView { rx_started: d.rx_started && out is Err, ..d }
}

/// What the caller of `SET_CONFIG` is told where it came out as `out`.
pub open spec fn config_result(out: Result<SetConfigResult, ErrorView>) -> Result<(), ErrorView> {
    match out {
        Ok(_) => Ok(()),
        Err(e) => Err(e),
    }
}

impl Dongle {
    /// A radio that was connected at `now_ns`.
    pub fn new(
        info: Info,
        transport_kind: TransportKind,
        applied_config: Option<Modulation>,
        keepalive: bool,
        now_ns: u64,
    ) -> (r: Dongle)
        ensures
            r@ == (DongleView {
                info: info@,
                kind: transport_kind@,
                applied: applied_config,
                rx_started: false,
                closed: false,
                keepalive,
                last_write_ns: now_ns,
            }),
    {
        Dongle {
            info,
            transport_kind,
            applied_config,
            rx_started: false,
            closed: false,
            keepalive,
            last_write_ns: now_ns,
        }
    }

    /// What the device said of itself when the connection was made.
    pub fn info(&self) -> (r: &Info)
        ensures
            r@ == self@.info,
    {
        &self.info
    }

    /// The transport of the connection.
    pub fn transport_kind(&self) -> (r: &TransportKind)
        ensures
            r@ == self@.kind,
    {
        &self.transport_kind
    }

    /// The configuration that was applied last, if any.
    pub fn config(&self) -> (r: Option<Modulation>)
        ensures
            r == self@.applied,
    {
        self.applied_config
    }

    /// An error where the radio is closed.
    pub fn check_open(&self) -> (r: ClientResult<()>)
        ensures
            result_view(r) == if self@.closed {
                Err::<(), ErrorView>(closed_error())
            } else {
                Ok(())
            },
    {
        if self.closed {
            return Err(ClientError::TransportClosed("dongle closed".to_owned()));
        }
        Ok(())
    }

    /// Starts an operation at `now_ns`, unless the radio is closed.
    pub(crate) fn begin(&mut self, now_ns: u64) -> (r: ClientResult<()>)
        ensures
            final(self)@ == old(self)@.touched(now_ns),
            result_view(r) == if old(self)@.closed {
                Err::<(), ErrorView>(closed_error())
            } else {
                Ok(())
            },
    {
        let open = self.check_open();
        if open.is_ok() {
            self.last_write_ns = now_ns;
        }
        open
    }

    /// The host sends another attempt at `now_ns`.
    pub(crate) fn touch(&mut self, now_ns: u64)
        ensures
            final(self)@ == old(self)@.heard(now_ns),
    {
        self.last_write_ns = now_ns;
    }

    /// Transmits a packet, with recovery and the default timeout.
    pub fn tx(&mut self, data: &[u8], now_ns: u64) -> (r: Step<TxCall, TxDonePayload>)
        ensures
            r@ == old(self)@.tx_start(data@, false, seconds(TX_TIMEOUT_SECS)),
            r@ matches StepView::Send { request, .. } ==> request.payload[0] == 0 && request.timeout == seconds(10),
            final(self)@ == old(self)@.touched(now_ns),
    {
        self.tx_with_timeout(data, false, from_secs(TX_TIMEOUT_SECS), now_ns)
    }

    /// Transmits a packet. Where the device has lost its configuration, the
    /// cached one is applied again and the packet sent once more.
    pub fn tx_with_timeout(&mut self, data: &[u8], skip_cad: bool, timeout: Duration, now_ns: u64) -> (r: Step<
        TxCall,
        TxDonePayload,
    >)
        ensures
            r@ == old(self)@.tx_start(data@, skip_cad, timeout),
            final(self)@ == old(self)@.touched(now_ns),
    {
        if let Err(e) = self.begin(now_ns) {
            return Step::Done(Err(e));
        }
        match transmit_request(data, skip_cad, timeout) {
            Ok(request) => {
                let copy = request.copy();
                Step::Send { request, then: TxCall { request: copy, stage: Stage::First } }
            },
            Err(e) => Step::Done(Err(e)),
        }
    }

    fn recovery_request(&self) -> (r: ClientResult<Request>)
        ensures
            request_view(r) == self@.recovery(),
    {
        match self.applied_config {
            Some(m) => set_config_request(&m, from_secs(COMMAND_TIMEOUT_SECS)),
            None => Err(ClientError::NotConfigured),
        }
    }

    /// Enters continuous receive mode, unless the device is in it already.
    /// Recovers as a transmission does.
    pub fn rx_start(&mut self, now_ns: u64) -> (r: Step<RxStartCall, ()>)
        ensures
            r@ == old(self)@.rx_start_begin(),
            final(self)@ == old(self)@.touched(now_ns),
    {
        if let Err(e) = self.begin(now_ns) {
            return Step::Done(Err(e));
        }
        if self.rx_started {
            return Step::Done(Ok(()));
        }
        Step::Send {
            request: rx_start_request(from_secs(COMMAND_TIMEOUT_SECS)),
            then: RxStartCall { stage: Stage::First },
        }
    }
}

/// A command of an operation that takes one: refused on a closed radio.
pub open spec fn if_open(d: DongleView, request: Result<RequestView, ErrorView>) -> Result<RequestView, ErrorView> {
    if d.closed {
        Err(closed_error())
    } else {
        request
    }
}

/// The radio after `SET_CONFIG` came out as `out`. The device echoes the
/// configuration that is in force, and a new configuration ends continuous
/// receive mode.
pub open spec fn configured(d: DongleView, out: Result<SetConfigResult, ErrorView>) -> DongleView {
    match out {
        Ok(r) => DongleView { applied: Some(r.current), rx_started: false, ..d },
        Err(_) => d,
    }
}

/// Where a packet is to be had.
#[derive(Debug, Clone, Copy, PartialEq, Eq, Structural)]
pub enum RecvStep {
    /// Nowhere: the radio is closed.
    Closed,
    /// Nowhere: continuous receive mode could not be entered.
    NotStarted,
    /// In the session's queue, once continuous receive mode is entered.
    StartFirst,
    /// In the session's queue.
    Receive,
}

/// What the keepalive does when it wakes up.
#[derive(Debug)]
pub enum KeepaliveTick {
    /// The radio is closed, or is not to be kept alive: end.
    Stop,
    /// The host was not quiet for long enough: sleep again.
    Sleep,
    /// Send a `PING`.
    Ping(Request),
}

/// What the keepalive does after an answer.
#[derive(Debug)]
pub enum KeepaliveNext {
    /// The device answered: the host was last heard now.
    Heard,
    /// The device lost its configuration: send the cached one.
    Reapply(Request),
    /// The device lost its configuration, and there is none to send.
    Unconfigured,
    /// The command failed; the keepalive goes on.
    Failed(ClientError),
}

/// What the keepalive does after an answer, with views inside.
pub enum KeepaliveView {
    Heard,
    Reapply(RequestView),
    Unconfigured,
    Failed(ErrorView),
}

impl View for KeepaliveNext {
    type V = KeepaliveView;

    open spec fn view(&self) -> KeepaliveView {
        match self {
            KeepaliveNext::Heard => KeepaliveView::Heard,
            KeepaliveNext::Reapply(request) => KeepaliveView::Reapply(request@),
            KeepaliveNext::Unconfigured => KeepaliveView::Unconfigured,
            KeepaliveNext::Failed(e) => KeepaliveView::Failed(e@),
        }
    }
}

/// What the keepalive does when it wakes up.
pub enum TickView {
    Stop,
    Sleep,
    Ping(RequestView),
}

impl View for KeepaliveTick {
    type V = TickView;

    open spec fn view(&self) -> TickView {
        match self {
            KeepaliveTick::Stop => TickView::Stop,
            KeepaliveTick::Sleep => TickView::Sleep,
            KeepaliveTick::Ping(request) => TickView::Ping(request@),
        }
    }
}

/// What the keepalive does when it wakes up at `now_ns`.
pub open spec fn keepalive_at(d: DongleView, now_ns: int) -> TickView {
    if d.closed || !d.keepalive {
        TickView::Stop
    } else if now_ns - d.last_write_ns < KEEPALIVE_INTERVAL_MS * NS_PER_MS {
        TickView::Sleep
    } else {
        TickView::Ping(plain_request(TYPE_PING, seconds(COMMAND_TIMEOUT_SECS)))
    }
}

/// What the keepalive does after its `PING` came out as `out`. Where the radio
/// was closed in the meantime, it sends nothing more.
pub open spec fn keepalive_after_ping(d: DongleView, out: Result<(), ErrorView>) -> KeepaliveView {
    if d.closed {
        KeepaliveView::Failed(closed_error())
    } else {
        match out {
            Ok(_) => KeepaliveView::Heard,
            Err(ErrorView::NotConfigured) => match d.applied {
                Some(m) => match set_config_command(m, seconds(COMMAND_TIMEOUT_SECS)) {
                    Ok(request) => KeepaliveView::Reapply(request),
                    Err(e) => KeepaliveView::Failed(e),
                },
                None => KeepaliveView::Unconfigured,
            },
            Err(e) => KeepaliveView::Failed(e),
        }
    }
}

/// What the keepalive does after its `SET_CONFIG` came out as `out`.
pub open spec fn keepalive_after_reapply(out: Result<SetConfigResult, ErrorView>) -> KeepaliveView {
    match out {
        Ok(_) => KeepaliveView::Heard,
        Err(e) => KeepaliveView::Failed(e),
    }
}

/// The radio after the keepalive's command came out well or not.
pub open spec fn kept_alive<T>(d: DongleView, out: Result<T, ErrorView>, now_ns: u64) -> DongleView {
    match out {
        Ok(_) => d.touched(now_ns),
        Err(_) => d,
    }
}

/// Where a packet is to be had after an attempt to enter continuous receive
/// mode that came out as `out`.
pub open spec fn recv_after_start(out: Result<(), ErrorView>) -> RecvStep {
    if out is Ok {
        RecvStep::Receive
    } else {
        RecvStep::NotStarted
    }
}

/// Where a packet is to be had after an attempt to enter continuous receive
/// mode.
pub fn after_rx_start(started: &ClientResult<()>) -> (r: RecvStep)
    ensures
        r == recv_after_start(result_view(*started)),
{
    if started.is_ok() {
        RecvStep::Receive
    } else {
        RecvStep::NotStarted
    }
}

impl Dongle {
    /// Leaves continuous receive mode.
    pub fn rx_stop(&mut self, now_ns: u64) -> (r: ClientResult<Request>)
        ensures
            request_view(r) == if_open(old(self)@, Ok(plain_request(TYPE_RX_STOP, seconds(COMMAND_TIMEOUT_SECS)))),
            r matches Ok(request) ==> request.type_id == 0x06 && request.payload@.len() == 0 && request.timeout
                == seconds(2),
            final(self)@ == old(self)@.touched(now_ns),
    {
        match self.begin(now_ns) {
            Ok(()) => Ok(rx_stop_request(from_secs(COMMAND_TIMEOUT_SECS))),
            Err(e) => Err(e),
        }
    }

    /// Takes the answer to `RX_STOP`.
    pub fn rx_stopped(&mut self, answer: ClientResult<SessionResponse>) -> (r: ClientResult<()>)
        ensures
            unit_outcome("RX_STOP"@, answer_view(answer), result_view(r)),
            final(self)@ == rx_stopped_after(old(self)@, result_view(r)),
    {
        let reply = rx_stop_reply(answer);
        if reply.is_ok() {
            self.rx_started = false;
        }
        reply
    }

    /// Where the next packet is to be had. Continuous receive mode is entered
    /// with the first one.
    pub fn recv(&self) -> (r: RecvStep)
        ensures
            r == self@.recv_step(),
    {
        if self.closed {
            RecvStep::Closed
        } else if !self.rx_started {
            RecvStep::StartFirst
        } else {
            RecvStep::Receive
        }
    }

    /// Where the next packet of an endless listener is to be had.
    pub fn next_rx(&self) -> (r: RecvStep)
        ensures
            r == self@.recv_step(),
    {
        self.recv()
    }

    /// Applies a new configuration.
    pub fn set_config(&mut self, modulation: Modulation, now_ns: u64) -> (r: ClientResult<Request>)
        ensures
            request_view(r) == if_open(old(self)@, set_config_command(modulation, seconds(COMMAND_TIMEOUT_SECS))),
            r matches Ok(request) ==> request.type_id == 0x03 && Some(request.payload@) == modulation.payload()
                && request.timeout == seconds(2),
            final(self)@ == old(self)@.touched(now_ns),
    {
        match self.begin(now_ns) {
            Ok(()) => set_config_request(&modulation, from_secs(COMMAND_TIMEOUT_SECS)),
            Err(e) => Err(e),
        }
    }

    /// Takes the answer to `SET_CONFIG`. The configuration that is cached is
    /// the one that the device echoes, not the one that was sent.
    pub fn config_set(&mut self, answer: ClientResult<SessionResponse>) -> (r: ClientResult<()>)
        ensures
            exists|out: Result<SetConfigResult, ErrorView>| #[trigger]
                set_config_outcome(answer_view(answer), out) && final(self)@ == configured(old(self)@, out) && result_view(
                    r,
                ) == config_result(out),
    {
        let reply = set_config_reply(answer);
        assert(set_config_outcome(answer_view(answer), result_view(reply)));
        match reply {
            Ok(result) => {
                self.applied_config = Some(result.current);
                self.rx_started = false;
                Ok(())
            },
            Err(e) => Err(e),
        }
    }

    /// Sends a `PING`.
    pub fn ping(&mut self, now_ns: u64) -> (r: ClientResult<Request>)
        ensures
            request_view(r) == if_open(old(self)@, Ok(plain_request(TYPE_PING, seconds(COMMAND_TIMEOUT_SECS)))),
            r matches Ok(request) ==> request.type_id == 0x01 && request.payload@.len() == 0 && request.timeout
                == seconds(2),
            final(self)@ == old(self)@.touched(now_ns),
    {
        match self.begin(now_ns) {
            Ok(()) => Ok(ping_request(from_secs(COMMAND_TIMEOUT_SECS))),
            Err(e) => Err(e),
        }
    }

    /// Closes the radio. True the first time: then the keepalive and the
    /// session are to be ended too.
    pub fn close(&mut self) -> (r: bool)
        ensures
            r == !old(self)@.closed,
            final(self)@ == old(self)@.after_close(),
    {
        if self.closed {
            return false;
        }
        self.closed = true;
        true
    }

    /// What the keepalive does when it wakes up at `now_ns`.
    pub fn keepalive_tick(&self, now_ns: u64) -> (r: KeepaliveTick)
        ensures
            r@ == keepalive_at(self@, now_ns as int),
    {
        if self.closed || !self.keepalive {
            return KeepaliveTick::Stop;
        }
        if now_ns.saturating_sub(self.last_write_ns) < KEEPALIVE_INTERVAL_MS * NS_PER_MS {
            return KeepaliveTick::Sleep;
        }
        KeepaliveTick::Ping(ping_request(from_secs(COMMAND_TIMEOUT_SECS)))
    }

    /// What the keepalive does after the answer to its `PING` at `now_ns`.
    pub fn keepalive_pinged(&mut self, answer: ClientResult<SessionResponse>, now_ns: u64) -> (r: KeepaliveNext)
        ensures
            exists|out: Result<(), ErrorView>| #[trigger]
                unit_outcome("PING"@, answer_view(answer), out) && r@ == keepalive_after_ping(old(self)@, out)
                    && final(self)@ == kept_alive(old(self)@, out, now_ns),
    {
        let reply = ping_reply(answer);
        assert(unit_outcome("PING"@, answer_view(answer), result_view(reply)));
        if let Err(e) = self.check_open() {
            return KeepaliveNext::Failed(e);
        }
        match reply {
            Ok(()) => {
                self.last_write_ns = now_ns;
                KeepaliveNext::Heard
            },
            Err(ClientError::NotConfigured) => match self.applied_config {
                Some(m) => match set_config_request(&m, from_secs(COMMAND_TIMEOUT_SECS)) {
                    Ok(request) => KeepaliveNext::Reapply(request),
                    Err(e) => KeepaliveNext::Failed(e),
                },
                None => KeepaliveNext::Unconfigured,
            },
            Err(e) => KeepaliveNext::Failed(e),
        }
    }

    /// What the keepalive does after the answer to its `SET_CONFIG` at
    /// `now_ns`. The cached configuration stays as it is.
    pub fn keepalive_reapplied(&mut self, answer: ClientResult<SessionResponse>, now_ns: u64) -> (r: KeepaliveNext)
        ensures
            exists|out: Result<SetConfigResult, ErrorView>| #[trigger]
                set_config_outcome(answer_view(answer), out) && r@ == keepalive_after_reapply(out) && final(self)@
                    == kept_alive(old(self)@, out, now_ns),
    {
        let reply = set_config_reply(answer);
        assert(set_config_outcome(answer_view(answer), result_view(reply)));
        match reply {
            Ok(_) => {
                if !self.closed {
                    self.last_write_ns = now_ns;
                }
                KeepaliveNext::Heard
            },
            Err(e) => KeepaliveNext::Failed(e),
        }
    }
}

impl TxCall {
    /// Takes the answer to the last request.
    pub fn on_answer(self, dongle: &mut Dongle, answer: ClientResult<SessionResponse>) -> (r: Step<TxCall, TxDonePayload>)
        ensures
            self@.stage is Reapply ==> exists|out: Result<SetConfigResult, ErrorView>| #[trigger]
                set_config_outcome(answer_view(answer), out) && r@ == self@.after_reapply(out) && final(dongle)@
                    == reapplied(old(dongle)@, out),
            !(self@.stage is Reapply) ==> final(dongle)@ == old(dongle)@ && exists|out: Result<TxDonePayload, ErrorView>|
                #[trigger] transmit_outcome(answer_view(answer), out) && r@ == self@.after_tx(old(dongle)@, out),
    {
        match self.stage {
            Stage::Reapply => {
                let reply = set_config_reply(answer);
                let ghost out = result_view(reply);
                assert(set_config_outcome(answer_view(answer), out));
                match reply {
                    Ok(result) => {
                        dongle.applied_config = Some(result.current);
                        let copy = self.request.copy();
                        Step::Send { request: self.request, then: TxCall { request: copy, stage: Stage::Second } }
                    },
                    Err(e) => Step::Done(Err(e)),
                }
            },
            stage => {
                let reply = transmit_reply(answer);
                let ghost out = result_view(reply);
                assert(transmit_outcome(answer_view(answer), out));
                if matches!(stage, Stage::First) && matches!(reply, Err(ClientError::NotConfigured)) {
                    match dongle.recovery_request() {
                        Ok(request) => Step::Send {
                            request,
                            then: TxCall { request: self.request, stage: Stage::Reapply },
                        },
                        Err(e) => Step::Done(Err(e)),
                    }
                } else {
                    Step::Done(reply)
                }
            },
        }
    }
}

impl RxStartCall {
    /// Takes the answer to the last request.
    pub fn on_answer(self, dongle: &mut Dongle, answer: ClientResult<SessionResponse>) -> (r: Step<RxStartCall, ()>)
        ensures
            self@ is Reapply ==> exists|out: Result<SetConfigResult, ErrorView>| #[trigger]
                set_config_outcome(answer_view(answer), out) && r@ == rx_start_after_reapply(out) && final(dongle)@
                    == reapplied(old(dongle)@, out),
            !(self@ is Reapply) ==> exists|out: Result<(), ErrorView>| #[trigger]
                unit_outcome("RX_START"@, answer_view(answer), out) && r@ == rx_start_after(self@, old(dongle)@, out)
                    && final(dongle)@ == rx_started_after(old(dongle)@, out),
    {
        match self.stage {
            Stage::Reapply => {
                let reply = set_config_reply(answer);
                let ghost out = result_view(reply);
                assert(set_config_outcome(answer_view(answer), out));
                match reply {
                    Ok(result) => {
                        dongle.applied_config = Some(result.current);
                        Step::Send {
                            request: rx_start_request(from_secs(COMMAND_TIMEOUT_SECS)),
                            then: RxStartCall { stage: Stage::Second },
                        }
                    },
                    Err(e) => Step::Done(Err(e)),
                }
            },
            stage => {
                let reply = rx_start_reply(answer);
                let ghost out = result_view(reply);
                assert(unit_outcome("RX_START"@, answer_view(answer), out));
                if matches!(stage, Stage::First) && matches!(reply, Err(ClientError::NotConfigured)) {
                    match dongle.recovery_request() {
                        Ok(request) => Step::Send { request, then: RxStartCall { stage: Stage::Reapply } },
                        Err(e) => Step::Done(Err(e)),
                    }
                } else {
                    if reply.is_ok() {
                        dongle.rx_started = true;
                    }
                    Step::Done(reply)
                }
            },
        }
    }
}

// ---------------------------------------------------------------------
// Laws
// ---------------------------------------------------------------------

/// Recovery happens once: every further request of a transmission brings it
/// nearer to its end, so it sends three at the most.
pub proof fn tx_recovers_once(
    call: TxCallView,
    d: DongleView,
    out: Result<TxDonePayload, ErrorView>,
    config: Result<SetConfigResult, ErrorView>,
)
    ensures
        !(call.stage is Reapply) ==> (call.after_tx(d, out) matches StepView::Send { then, .. } ==> then.stage.left()
            < call.stage.left()),
        call.stage is Reapply ==> (call.after_reapply(config) matches StepView::Send { then, .. } ==> then.stage.left()
            < call.stage.left()),
{
}

/// A lost configuration does not fail a transmission: where the device says
/// that it is not configured, the cached configuration goes out; where the
/// device takes it, the same packet goes out again, and what becomes of that
/// is what the caller is told.
pub proof fn tx_survives_lost_config(
    d: DongleView,
    m: Modulation,
    call: TxCallView,
    config: SetConfigResult,
    second: Result<TxDonePayload, ErrorView>,
)
    requires
        d.applied == Some(m),
        m.payload() is Some,
        call.stage is First,
    ensures
        call.after_tx(d, Err(ErrorView::NotConfigured)) == (StepView::<TxCallView, TxDonePayload>::Send {
            request: RequestView {
                type_id: TYPE_SET_CONFIG,
                payload: m.payload()->0,
                timeout: seconds(COMMAND_TIMEOUT_SECS),
            },
            then: TxCallView { stage: Stage::Reapply, ..call },
        }),
        (TxCallView { stage: Stage::Reapply, ..call }).after_reapply(Ok(config)) == (StepView::<
            TxCallView,
            TxDonePayload,
        >::Send { request: call.request, then: TxCallView { stage: Stage::Second, ..call } }),
        (TxCallView { stage: Stage::Second, ..call }).after_tx(reapplied(d, Ok(config)), second) == StepView::<
            TxCallView,
            TxDonePayload,
        >::Done(second),
{
}

/// Without a cached configuration there is nothing to recover with: the
/// caller learns that the device is not configured, and nothing is sent.
pub proof fn no_config_no_recovery(d: DongleView, call: TxCallView)
    requires
        d.applied is None,
    ensures
        call.after_tx(d, Err(ErrorView::NotConfigured)) == StepView::<TxCallView, TxDonePayload>::Done(
            Err(ErrorView::NotConfigured),
        ),
        rx_start_after(call.stage, d, Err(ErrorView::NotConfigured)) == StepView::<Stage, ()>::Done(
            Err(ErrorView::NotConfigured),
        ),
{
}

proof fn lemma_last_part(d: Seq<char>, f: Seq<char>)
    requires
        !f.contains('/'),
    ensures
        last_part(f) == 0,
        last_part(d.push('/') + f) == d.len() + 1,
    decreases f.len(),
{
    let p = d.push('/') + f;
    if f.len() == 0 {
        assert(p =~= d.push('/'));
    } else {
        assert(f.last() == f[f.len() - 1]);
        assert(p.last() == f.last());
        assert(p.drop_last() =~= d.push('/') + f.drop_last());
        assert forall|i: int| 0 <= i < f.drop_last().len() implies f.drop_last()[i] != '/' by {
            assert(f.drop_last()[i] == f[i]);
        }
        lemma_last_part(d, f.drop_last());
    }
}

/// The label of a serial device is the name behind the last `/` of its path,
/// whatever stands before it, and a name alone is its own label.
pub proof fn label_is_the_last_part(d: Seq<char>, f: Seq<char>)
    requires
        f.len() > 0,
        !f.contains('/'),
        !f.contains('\\'),
        !f.contains(':'),
        f != seq!['.'],
        f != seq!['.', '.'],
    ensures
        portable_path(f),
        final_name(f) == Some(f),
        ({
            let p = d.push('/') + f;
            &&& !(is_separator(p[0]) && is_separator(p[1])) ==> portable_path(p)
            &&& final_name(p) == Some(f)
        }),
{
    let p = d.push('/') + f;
    lemma_last_part(d, f);
    assert(f.skip(0) =~= f);
    assert(p.skip(d.len() as int + 1) =~= f);
    assert(f.len() >= 2 ==> f[0] != '/' && f[1] != ':');
}

/// A closed radio sends nothing, whatever it is asked for. Its keepalive sends
/// nothing more, not even where the device has just said that it lost its
/// configuration. Closing it again changes nothing, and what is known of it
/// stays known.
pub proof fn closed_radio_is_silent(
    d: DongleView,
    data: Seq<u8>,
    skip_cad: bool,
    timeout: Duration,
    policy: RetryPolicy,
    request: Result<RequestView, ErrorView>,
    pinged: Result<(), ErrorView>,
    now_ns: u64,
)
    ensures
        ({
            let c = d.after_close();
            &&& c.tx_start(data, skip_cad, timeout) == StepView::<TxCallView, TxDonePayload>::Done(Err(closed_error()))
            &&& c.retry_start(data, policy) == RetryStepView::Done(Err(closed_error()))
            &&& c.rx_start_begin() == StepView::<Stage, ()>::Done(Err(closed_error()))
            &&& if_open(c, request) == Err::<RequestView, ErrorView>(closed_error())
            &&& c.recv_step() is Closed
            &&& keepalive_at(c, now_ns as int) is Stop
            &&& keepalive_after_ping(c, pinged) == KeepaliveView::Failed(closed_error())
            &&& kept_alive(c, pinged, now_ns) == c
            &&& c.touched(now_ns) == c
            &&& c.after_close() == c
            &&& c.info == d.info
            &&& c.kind == d.kind
            &&& c.applied == d.applied
        }),
{
}

/// Receive mode is entered once: the first packet that is asked for makes the
/// radio send `RX_START`; once that has succeeded, further ones do not; where
/// it fails, there is no packet, and the next one tries again.
pub proof fn recv_starts_receiving_once(d: DongleView, failure: ErrorView)
    requires
        !d.closed,
        !d.rx_started,
    ensures
        d.recv_step() is StartFirst,
        d.rx_start_begin() == (StepView::<Stage, ()>::Send {
            request: plain_request(TYPE_RX_START, seconds(COMMAND_TIMEOUT_SECS)),
            then: Stage::First,
        }),
        recv_after_start(Ok(())) is Receive,
        rx_started_after(d, Ok(())).recv_step() is Receive,
        rx_started_after(d, Ok(())).rx_start_begin() == StepView::<Stage, ()>::Done(Ok(())),
        recv_after_start(Err(failure)) is NotStarted,
        rx_started_after(d, Err(failure)).recv_step() is StartFirst,
{
}

/// Starting to receive twice sends nothing the second time, and after a new
/// configuration, which ends receive mode, it is entered again.
pub proof fn rx_start_follows_the_mode(d: DongleView, config: SetConfigResult)
    requires
        !d.closed,
    ensures
        rx_started_after(d, Ok(())).rx_start_begin() == StepView::<Stage, ()>::Done(Ok(())),
        configured(d, Ok(config)).rx_start_begin() is Send,
{
}

/// Recovery happens once on entering receive mode, too.
pub proof fn rx_start_recovers_once(
    stage: Stage,
    d: DongleView,
    out: Result<(), ErrorView>,
    config: Result<SetConfigResult, ErrorView>,
)
    ensures
        !(stage is Reapply) ==> (rx_start_after(stage, d, out) matches StepView::Send { then, .. } ==> then.left()
            < stage.left()),
        stage is Reapply ==> (rx_start_after_reapply(config) matches StepView::Send { then, .. } ==> then.left()
            < stage.left()),
{
}

/// The keepalive comes in time: where it sleeps on, it sends a `PING` the next
/// time it wakes up, and that is before the device gives the session up.
pub proof fn keepalive_comes_in_time(d: DongleView, now_ns: nat)
    requires
        keepalive_at(d, now_ns as int) is Sleep,
        d.last_write_ns <= now_ns,
    ensures
        ({
            let next = now_ns + KEEPALIVE_INTERVAL_MS * NS_PER_MS;
            &&& keepalive_at(d, next) is Ping
            &&& next - d.last_write_ns < INACTIVITY_MS * NS_PER_MS
        }),
{
}

/// What happens to a radio.
pub enum RadioEvent {
    /// The user starts an operation, or an attempt of one.
    Issued { at: u64 },
    /// The device answered the keepalive.
    Heard { at: u64 },
    /// The device reported its configuration in a recovery.
    Reapplied(SetConfigResult),
    /// The device took a new configuration.
    Configured(SetConfigResult),
    /// The device entered or left continuous receive mode.
    Receiving(bool),
    /// The radio was closed.
    Closed,
}

impl RadioEvent {
    /// When the host is heard by the event, if it is.
    pub open spec fn time(self) -> Option<u64> {
        match self {
            RadioEvent::Issued { at } => Some(at),
            RadioEvent::Heard { at } => Some(at),
            _ => None,
        }
    }
}

impl DongleView {
    /// The radio after one event.
    pub open spec fn after_event(self, event: RadioEvent) -> DongleView {
        match event {
            RadioEvent::Issued { at } => self.touched(at),
            RadioEvent::Heard { at } => self.heard(at),
            RadioEvent::Reapplied(r) => reapplied(self, Ok(r)),
            RadioEvent::Configured(r) => configured(self, Ok(r)),
            RadioEvent::Receiving(on) => DongleView { rx_started: on, ..self },
            RadioEvent::Closed => self.after_close(),
        }
    }

    /// The radio after a list of events.
    pub open spec fn after_events(self, events: Seq<RadioEvent>) -> DongleView
        decreases events.len(),
    {
        if events.len() == 0 {
            self
        } else {
            self.after_events(events.drop_last()).after_event(events.last())
        }
    }
}

/// Time does not run backwards: the events come one after the other, none of
/// them after `now_ns`.
pub open spec fn in_order(events: Seq<RadioEvent>, now_ns: int) -> bool {
    forall|i: int, j: int|
        0 <= i <= j < events.len() ==> ((#[trigger] events[i]).time() matches Some(s) ==> s <= now_ns && ((
        #[trigger] events[j]).time() matches Some(t) ==> s <= t))
}

/// The keepalive speaks only into silence: whatever has happened, it sends a
/// `PING` only where half a second has passed since every operation of the
/// user, every attempt of one and every answer to the keepalive. Without
/// keepalive it never sends anything.
pub proof fn keepalive_waits_for_silence(d: DongleView, events: Seq<RadioEvent>, now_ns: int)
    requires
        in_order(events, now_ns),
    ensures
        keepalive_at(d.after_events(events), now_ns) is Ping ==> forall|i: int|
            0 <= i < events.len() ==> ((#[trigger] events[i]).time() matches Some(t) ==> now_ns - t >= KEEPALIVE_INTERVAL_MS
                * NS_PER_MS),
        !d.keepalive ==> keepalive_at(d.after_events(events), now_ns) is Stop,
{
    lemma_last_write(d, events, now_ns);
}

proof fn lemma_last_write(d: DongleView, events: Seq<RadioEvent>, now_ns: int)
    requires
        in_order(events, now_ns),
    ensures
        d.after_events(events).keepalive == d.keepalive,
        !d.after_events(events).closed ==> forall|i: int|
            0 <= i < events.len() ==> ((#[trigger] events[i]).time() matches Some(t) ==> t <= d.after_events(
                events,
            ).last_write_ns),
    decreases events.len(),
{
    if events.len() > 0 {
        let before = events.drop_last();
        assert forall|i: int, j: int| 0 <= i <= j < before.len() implies ((#[trigger] before[i]).time() matches Some(
            s,
        ) ==> s <= now_ns && ((#[trigger] before[j]).time() matches Some(t) ==> s <= t)) by {
            assert(events[i] == before[i] && events[j] == before[j]);
        }
        lemma_last_write(d, before, now_ns);
        assert forall|i: int| 0 <= i < events.len() && !d.after_events(events).closed implies ((
        #[trigger] events[i]).time() matches Some(t) ==> t <= d.after_events(events).last_write_ns) by {
            if i < before.len() {
                assert(events[i] == before[i]);
                assert(events.last() == events[events.len() - 1]);
            }
        }
    }
}

/// The keepalive outlives its failures: a command of it that fails changes
/// nothing, so that it is sent again as long as nobody closes the radio.
pub proof fn keepalive_outlives_failures<T>(d: DongleView, e: ErrorView, at: u64, now_ns: int, later_ns: int)
    requires
        keepalive_at(d, now_ns) is Ping,
        now_ns <= later_ns,
    ensures
        kept_alive(d, Err::<T, ErrorView>(e), at) == d,
        keepalive_at(kept_alive(d, Err::<T, ErrorView>(e), at), later_ns) is Ping,
{
}

/// The keepalive restores a lost configuration: where the device says that it
/// is not configured, the cached configuration is sent, if there is one.
pub proof fn keepalive_restores_config(d: DongleView, m: Modulation)
    requires
        !d.closed,
        m.payload() is Some,
    ensures
        d.applied == Some(m) ==> keepalive_after_ping(d, Err(ErrorView::NotConfigured)) == KeepaliveView::Reapply(
            RequestView { type_id: TYPE_SET_CONFIG, payload: m.payload()->0, timeout: seconds(COMMAND_TIMEOUT_SECS) },
        ),
        d.applied is None ==> keepalive_after_ping(d, Err(ErrorView::NotConfigured)) is Unconfigured,
{
}

/// What a transmission sends: on an open radio, a packet of 1 to 256 bytes goes
/// out as a `TX` of one flag byte, 1 exactly where the channel is not to be
/// listened to first, and then the packet, unchanged; any other packet is
/// refused for its length, and a closed radio refuses every packet.
pub proof fn tx_sends_the_packet(d: DongleView, data: Seq<u8>, skip_cad: bool, timeout: Duration)
    ensures
        d.tx_start(data, skip_cad, timeout) is Send <==> !d.closed && 1 <= data.len() <= 256,
        d.tx_start(data, skip_cad, timeout) matches StepView::Send { request, then } ==> {
            &&& request.type_id == 0x04
            &&& request.payload.len() == 1 + data.len()
            &&& request.payload[0] == if skip_cad {
                1u8
            } else {
                0u8
            }
            &&& forall|i: int| 0 <= i < data.len() ==> #[trigger] request.payload[1 + i] == data[i]
            &&& request.timeout == timeout
            &&& then.request == request
            &&& then.stage is First
        },
        d.closed ==> d.tx_start(data, skip_cad, timeout) == StepView::<TxCallView, TxDonePayload>::Done(
            Err(ErrorView::TransportClosed("dongle closed"@)),
        ),
        !d.closed && !(1 <= data.len() <= 256) ==> d.tx_start(data, skip_cad, timeout) == StepView::<
            TxCallView,
            TxDonePayload,
        >::Done(Err(ErrorView::Length)),
{
}

/// The caller is told what became of the packet: unless the first `TX` found
/// the device without its configuration, a transmission is over with exactly
/// what its `TX` came out as. So it succeeds only where the device says that
/// the packet was on the air, and with what the device said.
pub proof fn tx_ends_with_its_outcome(
    call: TxCallView,
    d: DongleView,
    answer: Result<ResponseView, ErrorView>,
    out: Result<TxDonePayload, ErrorView>,
    td: TxDonePayload,
)
    requires
        !(call.stage is Reapply),
        transmit_outcome(answer, out),
    ensures
        !(out matches Err(e) && e is NotConfigured) ==> call.after_tx(d, out) == StepView::<
            TxCallView,
            TxDonePayload,
        >::Done(out),
        call.stage is Second ==> call.after_tx(d, out) == StepView::<TxCallView, TxDonePayload>::Done(out),
        call.after_tx(d, out) == StepView::<TxCallView, TxDonePayload>::Done(Ok(td)) <==> td.result is Transmitted
            && answer == Ok::<ResponseView, ErrorView>(ResponseView::TxDone(td)),
        call.after_tx(d, out) is Send ==> call.stage is First && out == Err::<TxDonePayload, ErrorView>(
            ErrorView::NotConfigured,
        ),
{
}

/// A recovery that fails is what the caller is told, of a transmission and of
/// entering receive mode alike: the error of the configuration that is sent
/// again, or why it could not be sent.
pub proof fn failed_recovery_is_told(
    call: TxCallView,
    d: DongleView,
    m: Modulation,
    e: ErrorView,
)
    ensures
        call.after_reapply(Err(e)) == StepView::<TxCallView, TxDonePayload>::Done(Err(e)),
        rx_start_after_reapply(Err(e)) == StepView::<Stage, ()>::Done(Err(e)),
        d.applied == Some(m) && m.payload() is None && call.stage is First ==> {
            &&& call.after_tx(d, Err(ErrorView::NotConfigured)) == StepView::<TxCallView, TxDonePayload>::Done(
                Err(ErrorView::EncodeFailed("SyncWordTooLong"@)),
            )
            &&& rx_start_after(call.stage, d, Err(ErrorView::NotConfigured)) == StepView::<Stage, ()>::Done(
                Err(ErrorView::EncodeFailed("SyncWordTooLong"@)),
            )
        },
{
}

/// Entering receive mode sends an `RX_START`, which has no payload, unless the
/// device is in it already; a closed radio refuses.
pub proof fn rx_start_sends_rx_start(d: DongleView)
    ensures
        d.closed ==> d.rx_start_begin() == StepView::<Stage, ()>::Done(
            Err(ErrorView::TransportClosed("dongle closed"@)),
        ),
        !d.closed && d.rx_started ==> d.rx_start_begin() == StepView::<Stage, ()>::Done(Ok(())),
        !d.closed && !d.rx_started ==> (d.rx_start_begin() matches StepView::Send { request, then } && {
            &&& request.type_id == 0x05
            &&& request.payload.len() == 0
            &&& request.timeout == seconds(2)
            &&& then is First
        }),
{
}

/// Entering receive mode ends with what `RX_START` came out as, unless the
/// first one found the device without its configuration: then the cached
/// configuration goes out, and `RX_START` once more.
pub proof fn rx_start_ends_with_its_outcome(
    stage: Stage,
    d: DongleView,
    m: Modulation,
    out: Result<(), ErrorView>,
    config: SetConfigResult,
)
    requires
        !(stage is Reapply),
    ensures
        !(out matches Err(e) && e is NotConfigured) ==> rx_start_after(stage, d, out) == StepView::<Stage, ()>::Done(out),
        stage is Second ==> rx_start_after(stage, d, out) == StepView::<Stage, ()>::Done(out),
        stage is First && out == Err::<(), ErrorView>(ErrorView::NotConfigured) && d.applied == Some(m) && m.payload()
            is Some ==> (rx_start_after(stage, d, out) matches StepView::Send { request, then } && {
            &&& request.type_id == 0x03
            &&& Some(request.payload) == m.payload()
            &&& request.timeout == seconds(2)
            &&& then is Reapply
        }),
        rx_start_after_reapply(Ok(config)) matches StepView::Send { request, then } && request.type_id == 0x05
            && request.payload.len() == 0 && request.timeout == seconds(2) && then is Second,
{
}

/// A recovery sends the configuration that is cached, as it is.
pub proof fn recovery_sends_the_cached_config(d: DongleView)
    ensures
        d.recovery() is Ok <==> (d.applied matches Some(m) && m.payload() is Some),
        d.recovery() matches Ok(request) ==> {
            &&& request.type_id == 0x03
            &&& Some(request.payload) == (d.applied->0).payload()
            &&& request.timeout == seconds(2)
        },
        d.applied is None ==> d.recovery() == Err::<RequestView, ErrorView>(ErrorView::NotConfigured),
{
}

/// A command of an open radio goes out as it is; a closed one refuses it.
pub proof fn only_an_open_radio_sends(d: DongleView, request: Result<RequestView, ErrorView>)
    ensures
        !d.closed ==> if_open(d, request) == request,
        d.closed ==> if_open(d, request) == Err::<RequestView, ErrorView>(ErrorView::TransportClosed("dongle closed"@)),
{
}

/// The cache holds what the device reported last: after a `SET_CONFIG` that
/// succeeded, in a recovery or not, `config` gives what the device echoed; one
/// that failed leaves it as it was. A new configuration ends receive mode, a
/// recovery does not, and nothing else of the radio changes.
pub proof fn cache_holds_the_echo(d: DongleView, r: SetConfigResult, e: ErrorView)
    ensures
        configured(d, Ok(r)).applied == Some(r.current),
        !configured(d, Ok(r)).rx_started,
        reapplied(d, Ok(r)).applied == Some(r.current),
        reapplied(d, Ok(r)).rx_started == d.rx_started,
        configured(d, Err(e)) == d,
        reapplied(d, Err(e)) == d,
        ({
            let (a, b) = (configured(d, Ok(r)), reapplied(d, Ok(r)));
            &&& a.info == d.info && b.info == d.info
            &&& a.kind == d.kind && b.kind == d.kind
            &&& a.closed == d.closed && b.closed == d.closed
            &&& a.keepalive == d.keepalive && b.keepalive == d.keepalive
            &&& a.last_write_ns == d.last_write_ns && b.last_write_ns == d.last_write_ns
        }),
{
}

/// The radio is in receive mode exactly from the `RX_START` that succeeded: one
/// that failed changes nothing, and nothing else of the radio changes.
pub proof fn receive_mode_follows_rx_start(d: DongleView, e: ErrorView)
    ensures
        rx_started_after(d, Ok(())).rx_started,
        rx_started_after(d, Err(e)) == d,
        ({
            let a = rx_started_after(d, Ok(()));
            &&& a.info == d.info
            &&& a.kind == d.kind
            &&& a.applied == d.applied
            &&& a.closed == d.closed
            &&& a.keepalive == d.keepalive
            &&& a.last_write_ns == d.last_write_ns
        }),
{
}

/// Starting an operation on an open radio makes the host heard at that time,
/// and changes nothing else; `close` closes the radio, and changes nothing
/// else.
pub proof fn operations_make_the_host_heard(d: DongleView, now_ns: u64)
    ensures
        !d.closed ==> d.touched(now_ns).last_write_ns == now_ns,
        d.heard(now_ns).last_write_ns == now_ns,
        d.after_close().closed,
        d.after_close().last_write_ns == d.last_write_ns,
        ({
            let (a, b, c) = (d.touched(now_ns), d.heard(now_ns), d.after_close());
            &&& a.info == d.info && b.info == d.info && c.info == d.info
            &&& a.kind == d.kind && b.kind == d.kind && c.kind == d.kind
            &&& a.applied == d.applied && b.applied == d.applied && c.applied == d.applied
            &&& a.rx_started == d.rx_started && b.rx_started == d.rx_started && c.rx_started == d.rx_started
            &&& a.closed == d.closed && b.closed == d.closed
            &&& a.keepalive == d.keepalive && b.keepalive == d.keepalive && c.keepalive == d.keepalive
        }),
{
}

/// A packet is to be had from an open radio that receives; one that does not
/// receive yet is made to first; a closed one has none.
pub proof fn packets_come_from_an_open_radio(d: DongleView)
    ensures
        d.recv_step() is Closed <==> d.closed,
        d.recv_step() is StartFirst <==> !d.closed && !d.rx_started,
        d.recv_step() is Receive <==> !d.closed && d.rx_started,
{
}

/// The keepalive sends a `PING` exactly where half a second has passed since
/// the host was last heard; it sleeps on before that, and ends exactly where
/// the radio is closed or is not to be kept alive.
pub proof fn keepalive_pings_after_half_a_second(d: DongleView, now_ns: int)
    ensures
        keepalive_at(d, now_ns) is Stop <==> d.closed || !d.keepalive,
        !d.closed && d.keepalive ==> (keepalive_at(d, now_ns) is Ping <==> now_ns - d.last_write_ns >= 500_000_000),
        keepalive_at(d, now_ns) matches TickView::Ping(request) ==> {
            &&& request.type_id == 0x01
            &&& request.payload.len() == 0
            &&& request.timeout == seconds(2)
        },
{
}

/// After its `PING`, the keepalive of an open radio goes by the answer: an
/// answer makes the host heard; a lost configuration is sent again, as it is
/// cached; any other error is reported, and changes nothing.
pub proof fn keepalive_goes_by_the_answer(d: DongleView, m: Modulation, e: ErrorView, now_ns: u64)
    requires
        !d.closed,
    ensures
        keepalive_after_ping(d, Ok(())) is Heard,
        kept_alive(d, Ok::<(), ErrorView>(()), now_ns).last_write_ns == now_ns,
        kept_alive(d, Err::<(), ErrorView>(e), now_ns) == d,
        !(e is NotConfigured) ==> keepalive_after_ping(d, Err(e)) == KeepaliveView::Failed(e),
        d.applied is None ==> keepalive_after_ping(d, Err(ErrorView::NotConfigured)) is Unconfigured,
        d.applied == Some(m) && m.payload() is Some ==> (keepalive_after_ping(d, Err(ErrorView::NotConfigured)) matches
            KeepaliveView::Reapply(request) && {
            &&& request.type_id == 0x03
            &&& Some(request.payload) == m.payload()
            &&& request.timeout == seconds(2)
        }),
{
}

/// What a serial device is called where its path has no name at the end: a
/// trailing `/` and `/.` do not count, and a path that ends in `..` has none.
pub proof fn label_of_a_path_without_name(p: Seq<char>)
    ensures
        final_name(p.push('/')) == final_name(p),
        final_name(p.push('/').push('.')) == final_name(p),
        final_name(p.push('/').push('.').push('.')) is None,
        final_name(Seq::empty()) is None,
        final_name(seq!['.', '.']) is None,
{
    let empty = Seq::<char>::empty();
    let dot = seq!['.'];
    let dots = seq!['.', '.'];
    assert(!empty.contains('/'));
    assert(!dot.contains('/'));
    assert(!dots.contains('/'));
    lemma_last_part(p, empty);
    lemma_last_part(p, dot);
    lemma_last_part(p, dots);
    assert(p.push('/') + empty =~= p.push('/'));
    assert(p.push('/') + dot =~= p.push('/').push('.'));
    assert(p.push('/') + dots =~= p.push('/').push('.').push('.'));
    let n = p.len() as int + 1;
    assert(p.push('/').skip(n) =~= empty);
    assert(p.push('/').push('.').skip(n) =~= dot);
    assert(p.push('/').push('.').push('.').skip(n) =~= dots);
    assert(p.push('/').take(n - 1) =~= p);
    assert(p.push('/').push('.').take(n - 1) =~= p);
    assert(empty.skip(0) =~= empty);
    assert(dots.skip(0) =~= dots);
}

/// What contracts say of a transport is what the transport is.
pub proof fn views_keep_transports(k: TransportKind)
    ensures
        k matches TransportKind::Serial(p) ==> k@ == KindView::Serial(p@),
        k matches TransportKind::MuxUnix(p) ==> k@ == KindView::MuxUnix(p@),
        k matches TransportKind::MuxTcp(p) ==> k@ == KindView::MuxTcp(p@),
{
}

/// The radio is out of receive mode exactly from the `RX_STOP` that succeeded:
/// one that failed changes nothing, and nothing else of the radio changes.
pub proof fn receive_mode_ends_with_rx_stop(d: DongleView, e: ErrorView)
    ensures
        !rx_stopped_after(d, Ok(())).rx_started,
        rx_stopped_after(d, Err(e)) == d,
        ({
            let a = rx_stopped_after(d, Ok(()));
            &&& a.info == d.info
            &&& a.kind == d.kind
            &&& a.applied == d.applied
            &&& a.closed == d.closed
            &&& a.keepalive == d.keepalive
            &&& a.last_write_ns == d.last_write_ns
        }),
{
}

/// A new configuration is a success exactly where the device reports one, and
/// so is the one that the keepalive sends again; an error is handed on. The
/// keepalive leaves the cached configuration as it is.
pub proof fn config_result_is_told(d: DongleView, r: SetConfigResult, e: ErrorView, now_ns: u64)
    ensures
        config_result(Ok(r)) is Ok,
        config_result(Err(e)) == Err::<(), ErrorView>(e),
        keepalive_after_reapply(Ok(r)) is Heard,
        keepalive_after_reapply(Err(e)) == KeepaliveView::Failed(e),
        kept_alive(d, Ok::<SetConfigResult, ErrorView>(r), now_ns).applied == d.applied,
        !d.closed ==> kept_alive(d, Ok::<SetConfigResult, ErrorView>(r), now_ns).last_write_ns == now_ns,
        kept_alive(d, Err::<SetConfigResult, ErrorView>(e), now_ns) == d,
{
}

/// Of a path that starts with two separators, and of one with a backslash or a
/// drive whose last part is not plain, nothing is claimed: platforms read these
/// apart.
pub proof fn paths_that_platforms_read_apart(p: Seq<char>)
    ensures
        p.len() >= 2 && (p[0] == '/' || p[0] == '\\') && (p[1] == '/' || p[1] == '\\') ==> !plain_end(p),
        p.len() >= 2 && p[0] == '/' && p[1] == '/' ==> !portable_path(p),
        p.contains('\\') && !plain_end(p) ==> !portable_path(p),
        p.len() >= 2 && p[1] == ':' && !plain_end(p) ==> !portable_path(p),
{
}

/// What contracts say of an optional text is what the text is.
pub proof fn views_keep_texts(t: String)
    ensures
        text_view(Some(t)) == Some(t@),
        text_view(None) is None,
{
}

} // verus!
