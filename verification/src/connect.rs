//! Which transport a connection uses. An explicit port is taken as it is;
//! otherwise the mux daemon is tried over TCP, then over its Unix socket, and
//! the USB serial port last. Once a process has used the mux daemon it stays
//! with it, and commits to the path that won.
//!
//! A [`Connector`] names one action at a time and takes what came of it.

use std::time::Duration;

use vstd::prelude::*;

use crate::commands::{from_secs, seconds};
use crate::discovery::{wait_for_device, WaitStep, POLL_INTERVAL_MS, USB_SETTLE_MS};
use crate::dongle::{text_view, KindView, TransportKind};
use crate::endpoint::{
    endpoint_text, format_endpoint, tcp_endpoint, EnvView, MuxEnv, SearchStep, SearchStepView, SearchView,
    SocketSearch,
};
use crate::errors::{ClientError, ErrorView};
use crate::handshake::{Handshake, HandshakeStep, HandshakeStepView, HandshakeView};
use crate::protocol::{InfoView, Modulation, SetConfigResult};
use crate::text::decimal;

pub use crate::endpoint::{default_socket_path, find_mux_socket};

verus! {

/// How long a command may take where nothing else is said, in seconds.
pub const DEFAULT_TIMEOUT_SECS: u64 = 2;

/// How often a vanished mux daemon is looked for, in milliseconds.
pub const MUX_POLL_MS: u64 = 500;

/// How to connect.
#[derive(Debug, Clone)]
pub struct ConnectOptions {
    port: Option<String>,
    timeout: Option<Duration>,
    config: Option<Modulation>,
    auto_configure: bool,
    keepalive: bool,
}

/// How to connect, with the port as a sequence.
pub struct OptionsView {
    /// The serial port to use, whatever else there is.
    pub port: Option<Seq<char>>,
    /// How long each command of the handshake may take.
    pub timeout: Option<Duration>,
    /// The first configuration.
    pub config: Option<Modulation>,
    /// Apply the configuration.
    pub auto_configure: bool,
    /// Keep the session alive in the background.
    pub keepalive: bool,
}

impl View for ConnectOptions {
    type V = OptionsView;

    closed spec fn view(&self) -> OptionsView {
        OptionsView {
            port: text_view(self.port),
            timeout: self.timeout,
            config: self.config,
            auto_configure: self.auto_configure,
            keepalive: self.keepalive,
        }
    }
}

impl OptionsView {
    /// Nothing is said.
    pub open spec fn empty() -> OptionsView {
        OptionsView { port: None, timeout: None, config: None, auto_configure: false, keepalive: false }
    }

    /// How long a command may take.
    pub open spec fn command_timeout(self) -> Duration {
        match self.timeout {
            Some(t) => t,
            None => seconds(DEFAULT_TIMEOUT_SECS),
        }
    }

    /// The configuration that the handshake applies.
    pub open spec fn first_config(self) -> Option<Modulation> {
        if self.auto_configure {
            self.config
        } else {
            None
        }
    }
}

impl Default for ConnectOptions {
    fn default() -> (r: ConnectOptions)
        ensures
            r@ == OptionsView::empty(),
    {
        ConnectOptions { port: None, timeout: None, config: None, auto_configure: false, keepalive: false }
    }
}

impl ConnectOptions {
    /// Options with the keepalive enabled.
    #[must_use]
    pub fn new() -> (r: ConnectOptions)
        ensures
            r@ == (OptionsView { keepalive: true, ..OptionsView::empty() }),
    {
        ConnectOptions { port: None, timeout: None, config: None, auto_configure: false, keepalive: true }
    }

    /// Uses this serial port, and nothing else.
    #[must_use]
    pub fn port(self, path: &str) -> (r: ConnectOptions)
        ensures
            r@ == (OptionsView { port: Some(path@), ..self@ }),
    {
        let mut r = self;
        r.port = Some(path.to_owned());
        r
    }

    /// Limits the time of each command of the handshake.
    #[must_use]
    pub fn timeout(self, timeout: Duration) -> (r: ConnectOptions)
        ensures
            r@ == (OptionsView { timeout: Some(timeout), ..self@ }),
    {
        let mut r = self;
        r.timeout = Some(timeout);
        r
    }

    /// Applies this configuration on connecting.
    #[must_use]
    pub fn config(self, modulation: Modulation) -> (r: ConnectOptions)
        ensures
            r@ == (OptionsView { config: Some(modulation), auto_configure: true, ..self@ }),
    {
        let mut r = self;
        r.config = Some(modulation);
        r.auto_configure = true;
        r
    }

    /// Whether the configuration is applied on connecting.
    #[must_use]
    pub fn auto_configure(self, enabled: bool) -> (r: ConnectOptions)
        ensures
            r@ == (OptionsView { auto_configure: enabled, ..self@ }),
    {
        let mut r = self;
        r.auto_configure = enabled;
        r
    }

    /// Whether the session is kept alive in the background.
    #[must_use]
    pub fn keepalive(self, enabled: bool) -> (r: ConnectOptions)
        ensures
            r@ == (OptionsView { keepalive: enabled, ..self@ }),
    {
        let mut r = self;
        r.keepalive = enabled;
        r
    }

    /// The session is kept alive in the background.
    pub fn keeps_alive(&self) -> (r: bool)
        ensures
            r == self@.keepalive,
    {
        self.keepalive
    }

    /// How long a command may take.
    pub fn command_timeout(&self) -> (r: Duration)
        ensures
            r == self@.command_timeout(),
    {
        match self.timeout {
            Some(t) => t,
            None => from_secs(DEFAULT_TIMEOUT_SECS),
        }
    }

    /// Starts the handshake on a new connection.
    pub fn finalize(&self, kind: TransportKind) -> (r: HandshakeStep)
        ensures
            r@ == HandshakeView::start(kind@, self@.command_timeout(), self@.first_config(), self@.keepalive),
    {
        let config = if self.auto_configure { self.config } else { None };
        Handshake::start(kind, self.command_timeout(), config, self.keepalive)
    }
}

/// What a connector may do.
#[derive(Debug, Clone, Copy, PartialEq, Eq, Structural)]
pub enum ConnectMode {
    /// Wait for a device, or for the mux daemon to come back.
    Wait,
    /// Fail where there is nothing to connect to.
    Try,
    /// Use nothing but the mux daemon.
    MuxOnly,
    /// Use the mux endpoint that was asked for.
    Given,
}

/// A way to the mux daemon.
#[derive(Debug, Clone, PartialEq, Eq)]
pub enum MuxPath {
    Tcp { host: String, port: u16 },
    Unix(String),
}

/// A way to the mux daemon, its texts as sequences.
pub enum MuxPathView {
    Tcp { host: Seq<char>, port: u16 },
    Unix(Seq<char>),
}

impl View for MuxPath {
    type V = MuxPathView;

    open spec fn view(&self) -> MuxPathView {
        match self {
            MuxPath::Tcp { host, port } => MuxPathView::Tcp { host: host@, port: *port },
            MuxPath::Unix(path) => MuxPathView::Unix(path@),
        }
    }
}

impl MuxPathView {
    /// The transport of a connection over this way.
    pub open spec fn kind(self) -> KindView {
        match self {
            MuxPathView::Tcp { host, port } => KindView::MuxTcp(endpoint_text(host, port)),
            MuxPathView::Unix(path) => KindView::MuxUnix(path),
        }
    }

    /// The way in a message.
    pub open spec fn text(self) -> Seq<char> {
        match self {
            MuxPathView::Tcp { host, port } => endpoint_text(host, port),
            MuxPathView::Unix(path) => path,
        }
    }
}

impl MuxPath {
    fn text(&self) -> (r: String)
        ensures
            r@ == self@.text(),
    {
        match self {
            MuxPath::Tcp { host, port } => format_endpoint(host.as_str(), *port),
            MuxPath::Unix(path) => path.clone(),
        }
    }

    fn copy(&self) -> (r: MuxPath)
        ensures
            r@ == self@,
    {
        match self {
            MuxPath::Tcp { host, port } => MuxPath::Tcp { host: host.clone(), port: *port },
            MuxPath::Unix(path) => MuxPath::Unix(path.clone()),
        }
    }
}

/// What a process remembers of the mux daemon.
#[derive(Debug, Clone, PartialEq, Eq)]
pub enum MuxMemory {
    /// It was never used.
    Unused,
    /// It was used over an endpoint that was asked for.
    Used,
    /// It was found, and this way won.
    Won(MuxPath),
}

/// What a process remembers of the mux daemon, with views inside.
pub enum MemoryView {
    Unused,
    Used,
    Won(MuxPathView),
}

impl View for MuxMemory {
    type V = MemoryView;

    open spec fn view(&self) -> MemoryView {
        match self {
            MuxMemory::Unused => MemoryView::Unused,
            MuxMemory::Used => MemoryView::Used,
            MuxMemory::Won(path) => MemoryView::Won(path@),
        }
    }
}

impl MemoryView {
    /// The memory of a process in which a connection has ended with `newer`:
    /// nothing is forgotten, and the last way that won counts.
    pub open spec fn merged(self, newer: MemoryView) -> MemoryView {
        match (self, newer) {
            (_, MemoryView::Won(path)) => MemoryView::Won(path),
            (MemoryView::Won(path), _) => MemoryView::Won(path),
            (MemoryView::Used, _) => MemoryView::Used,
            (_, MemoryView::Used) => MemoryView::Used,
            _ => MemoryView::Unused,
        }
    }
}

impl MuxMemory {
    /// The memory of a process in which a connection has ended with `newer`.
    pub fn merge(self, newer: MuxMemory) -> (r: MuxMemory)
        ensures
            r@ == self@.merged(newer@),
    {
        match (self, newer) {
            (_, MuxMemory::Won(path)) => MuxMemory::Won(path),
            (MuxMemory::Won(path), _) => MuxMemory::Won(path),
            (MuxMemory::Used, _) => MuxMemory::Used,
            (_, MuxMemory::Used) => MuxMemory::Used,
            _ => MuxMemory::Unused,
        }
    }
}

/// What a connector wants done.
#[derive(Debug)]
pub enum Action {
    OpenSerial(String),
    ConnectTcp { host: String, port: u16, timeout: Duration },
    ConnectUnix(String),
    /// Look whether there is something at a path.
    CheckPath(String),
    /// Look for a radio among the serial ports.
    FindPort,
    /// Sleep for some milliseconds.
    Sleep(u64),
}

/// What a connector wants done, with texts as sequences.
pub enum ActionView {
    OpenSerial(Seq<char>),
    ConnectTcp { host: Seq<char>, port: u16, timeout: Duration },
    ConnectUnix(Seq<char>),
    CheckPath(Seq<char>),
    FindPort,
    Sleep(u64),
}

impl View for Action {
    type V = ActionView;

    open spec fn view(&self) -> ActionView {
        match self {
            Action::OpenSerial(path) => ActionView::OpenSerial(path@),
            Action::ConnectTcp { host, port, timeout } => ActionView::ConnectTcp {
                host: host@,
                port: *port,
                timeout: *timeout,
            },
            Action::ConnectUnix(path) => ActionView::ConnectUnix(path@),
            Action::CheckPath(path) => ActionView::CheckPath(path@),
            Action::FindPort => ActionView::FindPort,
            Action::Sleep(ms) => ActionView::Sleep(*ms),
        }
    }
}

/// What came of an action.
#[derive(Debug)]
pub enum Event {
    /// The transport is open.
    Opened,
    /// The transport could not be opened.
    Failed(ClientError),
    /// Whether there is something at the path.
    Checked(bool),
    /// The port of a radio, where there is one.
    Scanned(Option<String>),
    /// The time is over.
    Slept,
}

/// What came of an action, with views inside.
pub enum EventView {
    Opened,
    Failed(ErrorView),
    Checked(bool),
    Scanned(Option<Seq<char>>),
    Slept,
}

impl View for Event {
    type V = EventView;

    open spec fn view(&self) -> EventView {
        match self {
            Event::Opened => EventView::Opened,
            Event::Failed(e) => EventView::Failed(e@),
            Event::Checked(there) => EventView::Checked(*there),
            Event::Scanned(port) => EventView::Scanned(text_view(*port)),
            Event::Slept => EventView::Slept,
        }
    }
}

#[derive(Debug)]
enum Place {
    Serial(String),
    Awaited(MuxPath),
    TcpEnv { host: String, port: u16 },
    Tcp { host: String, port: u16 },
    Search(SocketSearch),
    Unix(String),
    FirstScan,
    DeviceScan,
    DevicePoll,
    DeviceSettle(String),
    MuxPoll(MuxPath),
}

/// Where a connector stands.
pub enum PlaceView {
    /// A serial port is opened.
    Serial(Seq<char>),
    /// The one way that a reconnect may take is tried.
    Awaited(MuxPathView),
    /// The TCP endpoint of the environment is tried.
    TcpEnv { host: Seq<char>, port: u16 },
    /// A TCP endpoint that was asked for is connected to.
    Tcp { host: Seq<char>, port: u16 },
    /// The mux socket is looked for.
    Search(SearchView),
    /// A mux socket is connected to.
    Unix(Seq<char>),
    /// A radio is looked for.
    FirstScan,
    /// A radio is waited for: it is looked for again.
    DeviceScan,
    /// A radio is waited for: none was there.
    DevicePoll,
    /// A radio is waited for: it is there, and USB settles.
    DeviceSettle(Seq<char>),
    /// The mux daemon is waited for: it was not there.
    MuxPoll(MuxPathView),
}

impl Place {
    spec fn view(&self) -> PlaceView {
        match self {
            Place::Serial(path) => PlaceView::Serial(path@),
            Place::Awaited(path) => PlaceView::Awaited(path@),
            Place::TcpEnv { host, port } => PlaceView::TcpEnv { host: host@, port: *port },
            Place::Tcp { host, port } => PlaceView::Tcp { host: host@, port: *port },
            Place::Search(search) => PlaceView::Search(search@),
            Place::Unix(path) => PlaceView::Unix(path@),
            Place::FirstScan => PlaceView::FirstScan,
            Place::DeviceScan => PlaceView::DeviceScan,
            Place::DevicePoll => PlaceView::DevicePoll,
            Place::DeviceSettle(path) => PlaceView::DeviceSettle(path@),
            Place::MuxPoll(path) => PlaceView::MuxPoll(path@),
        }
    }
}

/// What a connector goes by.
#[derive(Debug)]
struct Plan {
    mode: ConnectMode,
    env: MuxEnv,
    memory: MuxMemory,
    timeout: Duration,
}

/// A connection that is being made.
#[derive(Debug)]
pub struct Connector {
    plan: Plan,
    place: Place,
}

/// The state of a connection that is being made.
pub struct ConnectorView {
    pub mode: ConnectMode,
    pub env: EnvView,
    /// What the process remembers of the mux daemon.
    pub memory: MemoryView,
    /// How long connecting over TCP may take.
    pub timeout: Duration,
    pub place: PlaceView,
}

impl View for Connector {
    type V = ConnectorView;

    closed spec fn view(&self) -> ConnectorView {
        self.plan.at(self.place@)
    }
}

/// What follows an event.
#[derive(Debug)]
pub enum ConnectStep {
    /// Another action follows.
    Continue(Connector),
    /// The transport is open. `memory` is what is to be remembered.
    Established { kind: TransportKind, memory: MuxMemory },
    /// There is no connection.
    Fail(ClientError),
}

/// What follows an event, with views inside.
pub enum ConnectStepView {
    Continue(ConnectorView),
    Established { kind: KindView, memory: MemoryView },
    Fail(ErrorView),
}

impl View for ConnectStep {
    type V = ConnectStepView;

    open spec fn view(&self) -> ConnectStepView {
        match self {
            ConnectStep::Continue(c) => ConnectStepView::Continue(c@),
            ConnectStep::Established { kind, memory } => ConnectStepView::Established { kind: kind@, memory: memory@ },
            ConnectStep::Fail(e) => ConnectStepView::Fail(e@),
        }
    }
}

impl ConnectorView {
    /// The same connector at another place.
    pub open spec fn at(self, place: PlaceView) -> ConnectorView {
        ConnectorView { place, ..self }
    }

    /// The connector goes on at another place.
    pub open spec fn to(self, place: PlaceView) -> ConnectStepView {
        ConnectStepView::Continue(self.at(place))
    }

    /// The process has used the mux daemon, and the connector is bound by it.
    pub open spec fn sticky(self) -> bool {
        (self.mode is Wait || self.mode is Try) && !(self.memory is Unused)
    }

    /// Where the search for the mux socket starts.
    pub open spec fn search(env: EnvView) -> PlaceView {
        PlaceView::Search(SearchView { candidates: env.candidates(), at: 0 })
    }

    /// A connector with options. Without an explicit port, one that is bound
    /// to the mux daemon takes the way that won.
    pub open spec fn start(mode: ConnectMode, opts: OptionsView, env: EnvView, memory: MemoryView) -> ConnectStepView {
        let c = ConnectorView { mode, env, memory, timeout: opts.command_timeout(), place: PlaceView::FirstScan };
        match (opts.port, memory) {
            (Some(path), _) if !(mode is MuxOnly) => c.to(PlaceView::Serial(path)),
            (_, MemoryView::Won(path)) if c.sticky() => c.to(PlaceView::Awaited(path)),
            _ => c.without_winner(),
        }
    }

    /// No way has won: the TCP endpoint of the environment is next. Where the
    /// mux daemon was used before, a try looks for its socket only.
    pub open spec fn without_winner(self) -> ConnectStepView {
        if self.sticky() && self.mode is Try {
            self.to(Self::search(self.env))
        } else {
            match self.env.tcp() {
                Some((host, port)) => self.to(PlaceView::TcpEnv { host, port }),
                None => self.without_tcp(),
            }
        }
    }

    /// There is no TCP endpoint, or nobody is there: the mux socket is next.
    /// Where the mux daemon was used before, its socket is waited for at the
    /// default path. Without Unix sockets there is none.
    pub open spec fn without_tcp(self) -> ConnectStepView {
        if self.env.unix {
            if self.sticky() {
                self.to(PlaceView::Awaited(MuxPathView::Unix(self.env.default_path())))
            } else {
                self.to(Self::search(self.env))
            }
        } else if self.mode is MuxOnly || self.mode is Given {
            ConnectStepView::Fail(
                ErrorView::Other("mux-only mode requires Unix socket support or DONGLORA_MUX_TCP"@),
            )
        } else if self.sticky() {
            ConnectStepView::Fail(ErrorView::Other("no mux endpoint available"@))
        } else {
            self.to(PlaceView::FirstScan)
        }
    }

    /// There is a mux socket.
    pub open spec fn with_socket(self, path: Seq<char>) -> ConnectStepView {
        if self.env.unix {
            self.to(PlaceView::Unix(path))
        } else {
            ConnectStepView::Fail(ErrorView::Other("Unix mux requires a unix target"@))
        }
    }

    /// There is no mux socket: USB is next, unless the connector is bound to
    /// the mux daemon.
    pub open spec fn without_socket(self) -> ConnectStepView {
        if self.mode is MuxOnly || self.mode is Given {
            ConnectStepView::Fail(ErrorView::Other("no mux socket found"@))
        } else if self.sticky() {
            ConnectStepView::Fail(ErrorView::Other("mux not available (waiting for restart)"@))
        } else {
            self.to(PlaceView::FirstScan)
        }
    }

    /// The one way that a reconnect may take is not there: it is waited for, if
    /// the connector may wait.
    pub open spec fn not_there(self, path: MuxPathView) -> ConnectStepView {
        if !(self.mode is Wait) {
            ConnectStepView::Fail(ErrorView::Other("mux not available (waiting for restart)"@))
        } else if self.env.unix {
            self.to(PlaceView::MuxPoll(path))
        } else {
            ConnectStepView::Fail(ErrorView::Other("no mux endpoint available"@))
        }
    }

    /// The mux daemon was reached over `path`.
    pub open spec fn reached(self, path: MuxPathView) -> ConnectStepView {
        ConnectStepView::Established {
            kind: path.kind(),
            memory: if self.mode is Given {
                self.memory.merged(MemoryView::Used)
            } else {
                MemoryView::Won(path)
            },
        }
    }

    /// What is to be done.
    pub open spec fn action(self) -> ActionView {
        match self.place {
            PlaceView::Serial(path) => ActionView::OpenSerial(path),
            PlaceView::Awaited(MuxPathView::Tcp { host, port }) => ActionView::ConnectTcp {
                host,
                port,
                timeout: self.timeout,
            },
            PlaceView::Awaited(MuxPathView::Unix(path)) => ActionView::CheckPath(path),
            PlaceView::TcpEnv { host, port } => ActionView::ConnectTcp { host, port, timeout: self.timeout },
            PlaceView::Tcp { host, port } => ActionView::ConnectTcp { host, port, timeout: self.timeout },
            PlaceView::Search(search) => ActionView::CheckPath(search.path()),
            PlaceView::Unix(path) => ActionView::ConnectUnix(path),
            PlaceView::FirstScan => ActionView::FindPort,
            PlaceView::DeviceScan => ActionView::FindPort,
            PlaceView::DevicePoll => ActionView::Sleep(POLL_INTERVAL_MS),
            PlaceView::DeviceSettle(_) => ActionView::Sleep(USB_SETTLE_MS),
            PlaceView::MuxPoll(_) => ActionView::Sleep(MUX_POLL_MS),
        }
    }

    /// What the user is told of where the connector stands.
    pub open spec fn notice(self) -> Option<Seq<char>> {
        match self.place {
            PlaceView::MuxPoll(path) => Some("waiting for mux at "@ + path.text() + " ..."@),
            PlaceView::DeviceScan => Some("waiting for DongLoRa device..."@),
            PlaceView::DeviceSettle(port) => Some("found device at "@ + port),
            _ => None,
        }
    }

    /// What follows an event. One that does not belong to the action changes
    /// nothing.
    pub open spec fn after(self, event: EventView) -> ConnectStepView {
        match (self.place, event) {
            (PlaceView::Serial(path), EventView::Opened) => ConnectStepView::Established {
                kind: KindView::Serial(path),
                memory: self.memory,
            },
            (PlaceView::Serial(_), EventView::Failed(e)) => ConnectStepView::Fail(e),
            (PlaceView::Awaited(MuxPathView::Tcp { host, port }), EventView::Opened) => self.reached(
                MuxPathView::Tcp { host, port },
            ),
            (PlaceView::Awaited(MuxPathView::Tcp { host, port }), EventView::Failed(_)) => self.not_there(
                MuxPathView::Tcp { host, port },
            ),
            (PlaceView::Awaited(MuxPathView::Unix(path)), EventView::Checked(there)) => if there {
                self.with_socket(path)
            } else {
                self.not_there(MuxPathView::Unix(path))
            },
            (PlaceView::TcpEnv { host, port }, EventView::Opened) => self.reached(MuxPathView::Tcp { host, port }),
            (PlaceView::TcpEnv { .. }, EventView::Failed(_)) => self.without_tcp(),
            (PlaceView::Tcp { host, port }, EventView::Opened) => self.reached(MuxPathView::Tcp { host, port }),
            (PlaceView::Tcp { .. }, EventView::Failed(e)) => ConnectStepView::Fail(e),
            (PlaceView::Search(search), EventView::Checked(there)) => match search.after(there) {
                SearchStepView::Found(path) => self.with_socket(path),
                SearchStepView::Next(next) => self.to(PlaceView::Search(next)),
                SearchStepView::Absent => self.without_socket(),
            },
            (PlaceView::Unix(path), EventView::Opened) => self.reached(MuxPathView::Unix(path)),
            (PlaceView::Unix(_), EventView::Failed(e)) => ConnectStepView::Fail(e),
            (PlaceView::FirstScan, EventView::Scanned(Some(port))) => self.to(PlaceView::Serial(port)),
            (PlaceView::FirstScan, EventView::Scanned(None)) => if self.mode is Wait {
                self.to(PlaceView::DeviceScan)
            } else {
                ConnectStepView::Fail(ErrorView::Other("no DongLoRa device found (no mux, no USB device)"@))
            },
            (PlaceView::DeviceScan, EventView::Scanned(Some(port))) => self.to(PlaceView::DeviceSettle(port)),
            (PlaceView::DeviceScan, EventView::Scanned(None)) => self.to(PlaceView::DevicePoll),
            (PlaceView::DevicePoll, EventView::Slept) => self.to(PlaceView::DeviceScan),
            (PlaceView::DeviceSettle(port), EventView::Slept) => self.to(PlaceView::Serial(port)),
            (PlaceView::MuxPoll(path), EventView::Slept) => self.to(PlaceView::Awaited(path)),
            _ => ConnectStepView::Continue(self),
        }
    }
}

impl Plan {
    spec fn at(&self, place: PlaceView) -> ConnectorView {
        ConnectorView { mode: self.mode, env: self.env@, memory: self.memory@, timeout: self.timeout, place }
    }

    fn to(self, place: Place) -> (r: ConnectStep)
        ensures
            r@ == ConnectStepView::Continue(self.at(place@)),
    {
        ConnectStep::Continue(Connector { plan: self, place })
    }

    fn is_sticky(&self) -> (r: bool)
        ensures
            forall|p: PlaceView| r == #[trigger] self.at(p).sticky(),
    {
        matches!(self.mode, ConnectMode::Wait | ConnectMode::Try) && !matches!(self.memory, MuxMemory::Unused)
    }

    fn is_mux_only(&self) -> (r: bool)
        ensures
            r == (self.mode is MuxOnly || self.mode is Given),
    {
        matches!(self.mode, ConnectMode::MuxOnly | ConnectMode::Given)
    }

    fn without_winner(self) -> (r: ConnectStep)
        ensures
            forall|p: PlaceView| r@ == #[trigger] self.at(p).without_winner(),
    {
        if self.is_sticky() && matches!(self.mode, ConnectMode::Try) {
            let search = find_mux_socket(&self.env);
            return self.to(Place::Search(search));
        }
        match tcp_endpoint(&self.env) {
            Some((host, port)) => self.to(Place::TcpEnv { host, port }),
            None => self.without_tcp(),
        }
    }

    fn without_tcp(self) -> (r: ConnectStep)
        ensures
            forall|p: PlaceView| r@ == #[trigger] self.at(p).without_tcp(),
    {
        let sticky = self.is_sticky();
        if self.env.unix {
            if sticky {
                let path = default_socket_path(&self.env);
                self.to(Place::Awaited(MuxPath::Unix(path)))
            } else {
                let search = find_mux_socket(&self.env);
                self.to(Place::Search(search))
            }
        } else if self.is_mux_only() {
            ConnectStep::Fail(
                ClientError::Other("mux-only mode requires Unix socket support or DONGLORA_MUX_TCP".to_owned()),
            )
        } else if sticky {
            ConnectStep::Fail(ClientError::Other("no mux endpoint available".to_owned()))
        } else {
            self.to(Place::FirstScan)
        }
    }

    fn with_socket(self, path: String) -> (r: ConnectStep)
        ensures
            forall|p: PlaceView| r@ == #[trigger] self.at(p).with_socket(path@),
    {
        if self.env.unix {
            self.to(Place::Unix(path))
        } else {
            ConnectStep::Fail(ClientError::Other("Unix mux requires a unix target".to_owned()))
        }
    }

    fn without_socket(self) -> (r: ConnectStep)
        ensures
            forall|p: PlaceView| r@ == #[trigger] self.at(p).without_socket(),
    {
        if self.is_mux_only() {
            ConnectStep::Fail(ClientError::Other("no mux socket found".to_owned()))
        } else if self.is_sticky() {
            ConnectStep::Fail(ClientError::Other("mux not available (waiting for restart)".to_owned()))
        } else {
            self.to(Place::FirstScan)
        }
    }

    fn not_there(self, path: MuxPath) -> (r: ConnectStep)
        ensures
            forall|p: PlaceView| r@ == #[trigger] self.at(p).not_there(path@),
    {
        if !matches!(self.mode, ConnectMode::Wait) {
            ConnectStep::Fail(ClientError::Other("mux not available (waiting for restart)".to_owned()))
        } else if self.env.unix {
            self.to(Place::MuxPoll(path))
        } else {
            ConnectStep::Fail(ClientError::Other("no mux endpoint available".to_owned()))
        }
    }

    fn reached(self, path: MuxPath) -> (r: ConnectStep)
        ensures
            forall|p: PlaceView| r@ == #[trigger] self.at(p).reached(path@),
    {
        let kind = match &path {
            MuxPath::Tcp { host, port } => TransportKind::MuxTcp(format_endpoint(host.as_str(), *port)),
            MuxPath::Unix(path) => TransportKind::MuxUnix(path.clone()),
        };
        let memory = if matches!(self.mode, ConnectMode::Given) {
            self.memory.merge(MuxMemory::Used)
        } else {
            MuxMemory::Won(path)
        };
        ConnectStep::Established { kind, memory }
    }
}

fn start(mode: ConnectMode, opts: &ConnectOptions, env: MuxEnv, memory: MuxMemory) -> (r: ConnectStep)
    ensures
        r@ == ConnectorView::start(mode, opts@, env@, memory@),
{
    let plan = Plan { mode, env, memory, timeout: opts.command_timeout() };
    assert(plan.at(PlaceView::FirstScan).timeout == opts@.command_timeout());
    if !matches!(mode, ConnectMode::MuxOnly) {
        if let Some(path) = &opts.port {
            return plan.to(Place::Serial(path.clone()));
        }
    }
    if plan.is_sticky() {
        if let MuxMemory::Won(path) = &plan.memory {
            let path = path.copy();
            return plan.to(Place::Awaited(path));
        }
    }
    plan.without_winner()
}

/// Connects with default options; waits where there is nothing to connect to.
pub fn connect(env: MuxEnv, memory: MuxMemory) -> (r: ConnectStep)
    ensures
        r@ == ConnectorView::start(
            ConnectMode::Wait,
            (OptionsView { keepalive: true, ..OptionsView::empty() }),
            env@,
            memory@,
        ),
{
    connect_with(&ConnectOptions::new(), env, memory)
}

/// Connects; waits where there is nothing to connect to.
pub fn connect_with(opts: &ConnectOptions, env: MuxEnv, memory: MuxMemory) -> (r: ConnectStep)
    ensures
        r@ == ConnectorView::start(ConnectMode::Wait, opts@, env@, memory@),
{
    start(ConnectMode::Wait, opts, env, memory)
}

/// Connects with default options; fails where there is nothing to connect to.
pub fn try_connect(env: MuxEnv, memory: MuxMemory) -> (r: ConnectStep)
    ensures
        r@ == ConnectorView::start(
            ConnectMode::Try,
            (OptionsView { keepalive: true, ..OptionsView::empty() }),
            env@,
            memory@,
        ),
{
    try_connect_with(&ConnectOptions::new(), env, memory)
}

/// Connects; fails where there is nothing to connect to.
pub fn try_connect_with(opts: &ConnectOptions, env: MuxEnv, memory: MuxMemory) -> (r: ConnectStep)
    ensures
        r@ == ConnectorView::start(ConnectMode::Try, opts@, env@, memory@),
{
    start(ConnectMode::Try, opts, env, memory)
}

/// Connects to the mux daemon with default options.
pub fn connect_mux_auto(env: MuxEnv, memory: MuxMemory) -> (r: ConnectStep)
    ensures
        r@ == ConnectorView::start(
            ConnectMode::MuxOnly,
            (OptionsView { keepalive: true, ..OptionsView::empty() }),
            env@,
            memory@,
        ),
{
    connect_mux_auto_with(&ConnectOptions::new(), env, memory)
}

/// Connects to the mux daemon. A serial port in the options plays no part.
pub fn connect_mux_auto_with(opts: &ConnectOptions, env: MuxEnv, memory: MuxMemory) -> (r: ConnectStep)
    ensures
        r@ == ConnectorView::start(ConnectMode::MuxOnly, opts@, env@, memory@),
{
    start(ConnectMode::MuxOnly, opts, env, memory)
}

/// A connector to a mux endpoint that was asked for. The environment plays no
/// part.
pub open spec fn given(memory: MemoryView, place: PlaceView) -> ConnectorView {
    ConnectorView {
        mode: ConnectMode::Given,
        env: EnvView { unix: true, mux_tcp: None, mux: None, xdg_runtime_dir: None },
        memory,
        timeout: seconds(DEFAULT_TIMEOUT_SECS),
        place,
    }
}

fn given_plan(memory: MuxMemory) -> (r: Plan)
    ensures
        forall|p: PlaceView| #[trigger] r.at(p) == given(memory@, p),
{
    Plan {
        mode: ConnectMode::Given,
        env: MuxEnv { unix: true, mux_tcp: None, mux: None, xdg_runtime_dir: None },
        memory,
        timeout: from_secs(DEFAULT_TIMEOUT_SECS),
    }
}

/// Connects to the mux daemon at a socket.
pub fn mux_unix_connect(path: &str, memory: MuxMemory) -> (r: Connector)
    ensures
        r@ == given(memory@, PlaceView::Unix(path@)),
{
    Connector { plan: given_plan(memory), place: Place::Unix(path.to_owned()) }
}

/// Connects to the mux daemon at a TCP endpoint.
pub fn mux_tcp_connect(host: &str, port: u16, memory: MuxMemory) -> (r: Connector)
    ensures
        r@ == given(memory@, (PlaceView::Tcp { host: host@, port })),
{
    Connector { plan: given_plan(memory), place: Place::Tcp { host: host.to_owned(), port } }
}

impl Connector {
    /// What is to be done.
    pub fn action(&self) -> (r: Action)
        ensures
            r@ == self@.action(),
    {
        let timeout = self.plan.timeout;
        match &self.place {
            Place::Serial(path) => Action::OpenSerial(path.clone()),
            Place::Awaited(MuxPath::Tcp { host, port }) => Action::ConnectTcp {
                host: host.clone(),
                port: *port,
                timeout,
            },
            Place::Awaited(MuxPath::Unix(path)) => Action::CheckPath(path.clone()),
            Place::TcpEnv { host, port } => Action::ConnectTcp { host: host.clone(), port: *port, timeout },
            Place::Tcp { host, port } => Action::ConnectTcp { host: host.clone(), port: *port, timeout },
            Place::Search(search) => Action::CheckPath(search.path()),
            Place::Unix(path) => Action::ConnectUnix(path.clone()),
            Place::FirstScan => Action::FindPort,
            Place::DeviceScan => Action::FindPort,
            Place::DevicePoll => Action::Sleep(POLL_INTERVAL_MS),
            Place::DeviceSettle(_) => Action::Sleep(USB_SETTLE_MS),
            Place::MuxPoll(_) => Action::Sleep(MUX_POLL_MS),
        }
    }

    /// What the user is to be told of where the connector stands.
    pub fn notice(&self) -> (r: Option<String>)
        ensures
            text_view(r) == self@.notice(),
    {
        match &self.place {
            Place::MuxPoll(path) => {
                let mut text = "waiting for mux at ".to_owned();
                let way = path.text();
                text.append(way.as_str());
                text.append(" ...");
                Some(text)
            },
            Place::DeviceScan => Some("waiting for DongLoRa device...".to_owned()),
            Place::DeviceSettle(port) => {
                let mut text = "found device at ".to_owned();
                text.append(port.as_str());
                Some(text)
            },
            _ => None,
        }
    }

    /// Takes what came of the action.
    pub fn on_event(self, event: Event) -> (r: ConnectStep)
        ensures
            r@ == self@.after(event@),
    {
        let Connector { plan, place } = self;
        match (place, event) {
            (Place::Serial(path), Event::Opened) => ConnectStep::Established {
                kind: TransportKind::Serial(path),
                memory: plan.memory,
            },
            (Place::Serial(_), Event::Failed(e)) => ConnectStep::Fail(e),
            (Place::Awaited(MuxPath::Tcp { host, port }), Event::Opened) => plan.reached(MuxPath::Tcp { host, port }),
            (Place::Awaited(MuxPath::Tcp { host, port }), Event::Failed(_)) => plan.not_there(
                MuxPath::Tcp { host, port },
            ),
            (Place::Awaited(MuxPath::Unix(path)), Event::Checked(there)) => {
                if there {
                    plan.with_socket(path)
                } else {
                    plan.not_there(MuxPath::Unix(path))
                }
            },
            (Place::TcpEnv { host, port }, Event::Opened) => plan.reached(MuxPath::Tcp { host, port }),
            (Place::TcpEnv { .. }, Event::Failed(_)) => plan.without_tcp(),
            (Place::Tcp { host, port }, Event::Opened) => plan.reached(MuxPath::Tcp { host, port }),
            (Place::Tcp { .. }, Event::Failed(e)) => ConnectStep::Fail(e),
            (Place::Search(search), Event::Checked(there)) => match search.on_checked(there) {
                SearchStep::Found(path) => plan.with_socket(path),
                SearchStep::Next(next) => plan.to(Place::Search(next)),
                SearchStep::Absent => plan.without_socket(),
            },
            (Place::Unix(path), Event::Opened) => plan.reached(MuxPath::Unix(path)),
            (Place::Unix(_), Event::Failed(e)) => ConnectStep::Fail(e),
            (Place::FirstScan, Event::Scanned(Some(port))) => plan.to(Place::Serial(port)),
            (Place::FirstScan, Event::Scanned(None)) => {
                if matches!(plan.mode, ConnectMode::Wait) {
                    plan.to(Place::DeviceScan)
                } else {
                    ConnectStep::Fail(
                        ClientError::Other("no DongLoRa device found (no mux, no USB device)".to_owned()),
                    )
                }
            },
            (Place::DeviceScan, Event::Scanned(found)) => match wait_for_device(found) {
                WaitStep::Settle { port, .. } => plan.to(Place::DeviceSettle(port)),
                WaitStep::Poll { .. } => plan.to(Place::DevicePoll),
            },
            (Place::DevicePoll, Event::Slept) => plan.to(Place::DeviceScan),
            (Place::DeviceSettle(port), Event::Slept) => plan.to(Place::Serial(port)),
            (Place::MuxPoll(path), Event::Slept) => plan.to(Place::Awaited(path)),
            (place, _) => plan.to(place),
        }
    }
}

// ---------------------------------------------------------------------
// Laws
// ---------------------------------------------------------------------

impl ConnectStepView {
    /// What a list of events leads to.
    pub open spec fn run(self, events: Seq<EventView>) -> ConnectStepView
        decreases events.len(),
    {
        if events.len() == 0 {
            self
        } else {
            match self.run(events.drop_last()) {
                ConnectStepView::Continue(c) => c.after(events.last()),
                over => over,
            }
        }
    }

    /// Nothing on the way uses, or looks for, a serial port.
    pub open spec fn off_usb(self) -> bool {
        match self {
            ConnectStepView::Continue(c) => !c.on_usb() && !(c.action() is OpenSerial) && !(c.action() is FindPort),
            ConnectStepView::Established { kind, .. } => !(kind is Serial),
            ConnectStepView::Fail(_) => true,
        }
    }
}

impl ConnectorView {
    /// The connector is about to use, or to look for, a serial port.
    pub open spec fn on_usb(self) -> bool {
        match self.place {
            PlaceView::Serial(_) => true,
            PlaceView::FirstScan => true,
            PlaceView::DeviceScan => true,
            PlaceView::DevicePoll => true,
            PlaceView::DeviceSettle(_) => true,
            _ => false,
        }
    }

    /// The connector may use nothing but the mux daemon.
    pub open spec fn bound_to_mux(self) -> bool {
        self.mode is MuxOnly || self.mode is Given || self.sticky()
    }

    /// The connector is bound to the mux daemon, may wait for it, and has a
    /// socket to wait for.
    pub open spec fn waits_for_mux(self) -> bool {
        &&& self.mode is Wait
        &&& self.sticky()
        &&& self.env.unix
        &&& self.place is Awaited || self.place is MuxPoll || self.place is Unix || self.place is TcpEnv
    }

    /// The event belongs to the action.
    pub open spec fn expects(self, event: EventView) -> bool {
        match self.action() {
            ActionView::OpenSerial(_) => event is Opened || event is Failed,
            ActionView::ConnectTcp { .. } => event is Opened || event is Failed,
            ActionView::ConnectUnix(_) => event is Opened || event is Failed,
            ActionView::CheckPath(_) => event is Checked,
            ActionView::FindPort => event is Scanned,
            ActionView::Sleep(_) => event is Slept,
        }
    }

    /// The connector looks at a path of its search.
    pub open spec fn wf(self) -> bool {
        self.place matches PlaceView::Search(search) ==> search.wf()
    }

    /// The connector waits for nothing.
    pub open spec fn prompt(self) -> bool {
        !(self.action() is Sleep) && !(self.place is DeviceScan)
    }

    /// How many more actions may follow, where there is no waiting.
    pub open spec fn left(self) -> int {
        let usb: int = if self.bound_to_mux() {
            0
        } else {
            1
        };
        match self.place {
            PlaceView::Awaited(_) => 2,
            PlaceView::TcpEnv { .. } => self.env.candidates().len() as int + 2 + usb,
            PlaceView::Search(search) => search.candidates.len() - search.at + 1 + usb,
            PlaceView::FirstScan => 2,
            _ => 1,
        }
    }
}

proof fn lemma_mux_stays(s: ConnectStepView, events: Seq<EventView>)
    requires
        s matches ConnectStepView::Continue(c) ==> c.bound_to_mux(),
        s.off_usb(),
    ensures
        s.run(events).off_usb(),
        s.run(events) matches ConnectStepView::Continue(d) ==> d.bound_to_mux(),
    decreases events.len(),
{
    if events.len() > 0 {
        lemma_mux_stays(s, events.drop_last());
    }
}

/// Once a process has used the mux daemon, it never falls back to USB:
/// whatever happens, a connection without an explicit port neither looks at a
/// serial port nor ends up on one.
pub proof fn mux_is_sticky(
    mode: ConnectMode,
    opts: OptionsView,
    env: EnvView,
    memory: MemoryView,
    events: Seq<EventView>,
)
    requires
        opts.port is None,
        !(memory is Unused),
    ensures
        ConnectorView::start(mode, opts, env, memory).run(events).off_usb(),
{
    lemma_mux_stays(ConnectorView::start(mode, opts, env, memory), events);
}

/// A connection that is to use nothing but the mux daemon never falls back to
/// USB, whether or not the process has used the mux daemon before and whatever
/// the options say.
pub proof fn mux_only_means_mux(opts: OptionsView, env: EnvView, memory: MemoryView, events: Seq<EventView>)
    ensures
        ConnectorView::start(ConnectMode::MuxOnly, opts, env, memory).run(events).off_usb(),
{
    lemma_mux_stays(ConnectorView::start(ConnectMode::MuxOnly, opts, env, memory), events);
}

proof fn lemma_first_event(s: ConnectStepView, event: EventView)
    ensures
        s.run(seq![event]) == match s {
            ConnectStepView::Continue(c) => c.after(event),
            over => over,
        },
{
    assert(seq![event].drop_last() =~= Seq::empty());
    assert(s.run(Seq::empty()) == s);
}

proof fn lemma_two_events(s: ConnectStepView, first: EventView, second: EventView)
    ensures
        s.run(seq![first, second]) == s.run(seq![first]).run(seq![second]),
{
    assert(seq![first, second].drop_last() =~= seq![first]);
    lemma_first_event(s.run(seq![first]), second);
}

/// A connection for which `s` stands wants `action` done first.
pub open spec fn wants(s: ConnectStepView, action: ActionView) -> bool {
    s matches ConnectStepView::Continue(c) && c.action() == action
}

/// The connection goes over `path` where the daemon is there, and is kept in
/// mind: a TCP endpoint is connected to; a socket is looked at, and connected
/// to where it exists.
pub open spec fn reaches(s: ConnectStepView, path: MuxPathView, timeout: Duration) -> bool {
    let won = ConnectStepView::Established { kind: path.kind(), memory: MemoryView::Won(path) };
    match path {
        MuxPathView::Tcp { host, port } => {
            &&& wants(s, ActionView::ConnectTcp { host, port, timeout })
            &&& s.run(seq![EventView::Opened]) == won
        },
        MuxPathView::Unix(p) => {
            &&& wants(s, ActionView::CheckPath(p))
            &&& wants(s.run(seq![EventView::Checked(true)]), ActionView::ConnectUnix(p))
            &&& s.run(seq![EventView::Checked(true), EventView::Opened]) == won
        },
    }
}

proof fn lemma_awaited_is_reached(c: ConnectorView, path: MuxPathView)
    requires
        c.sticky(),
        path is Unix ==> c.env.unix,
    ensures
        reaches(c.to(PlaceView::Awaited(path)), path, c.timeout),
{
    let s = c.to(PlaceView::Awaited(path));
    lemma_first_event(s, EventView::Opened);
    lemma_first_event(s, EventView::Checked(true));
    lemma_two_events(s, EventView::Checked(true), EventView::Opened);
    lemma_first_event(s.run(seq![EventView::Checked(true)]), EventView::Opened);
}

/// A reconnect reaches the way that won as long as it is there: it is what is
/// tried first, whether the reconnect may wait or not.
pub proof fn reconnect_reaches_the_winner(mode: ConnectMode, opts: OptionsView, env: EnvView, path: MuxPathView)
    requires
        opts.port is None,
        mode is Wait || mode is Try,
        path is Unix ==> env.unix,
    ensures
        reaches(ConnectorView::start(mode, opts, env, MemoryView::Won(path)), path, opts.command_timeout()),
{
    let c = ConnectorView {
        mode,
        env,
        memory: MemoryView::Won(path),
        timeout: opts.command_timeout(),
        place: PlaceView::FirstScan,
    };
    lemma_awaited_is_reached(c, path);
}

/// A reconnect that waits for the mux daemon reaches it as soon as it is there
/// again: the way that is waited for is tried after every sleep.
pub proof fn waiting_reconnect_looks_again(c: ConnectorView, path: MuxPathView)
    requires
        c.sticky(),
        c.place == PlaceView::MuxPoll(path),
        path is Unix ==> c.env.unix,
    ensures
        c.action() == ActionView::Sleep(MUX_POLL_MS),
        reaches(c.after(EventView::Slept), path, c.timeout),
{
    lemma_awaited_is_reached(c, path);
}

impl ConnectStepView {
    /// Nothing on the way, nor at its end, is another way than `path`.
    pub open spec fn only_over(self, path: MuxPathView) -> bool {
        match self {
            ConnectStepView::Continue(c) => match c.place {
                PlaceView::Awaited(p) => p == path,
                PlaceView::MuxPoll(p) => p == path,
                PlaceView::Unix(p) => MuxPathView::Unix(p) == path,
                _ => false,
            },
            ConnectStepView::Established { kind, memory } => kind == path.kind() && memory == MemoryView::Won(path),
            ConnectStepView::Fail(_) => true,
        }
    }
}

proof fn lemma_only_over(s: ConnectStepView, path: MuxPathView, events: Seq<EventView>)
    requires
        s.only_over(path),
        s matches ConnectStepView::Continue(c) ==> !(c.mode is Given),
    ensures
        s.run(events).only_over(path),
        s.run(events) matches ConnectStepView::Continue(c) ==> !(c.mode is Given),
    decreases events.len(),
{
    if events.len() > 0 {
        lemma_only_over(s, path, events.drop_last());
    }
}

/// A reconnect takes no other way than the one that won: whatever happens,
/// nothing else is looked at, dialled or established.
pub proof fn reconnect_takes_no_other_way(
    mode: ConnectMode,
    opts: OptionsView,
    env: EnvView,
    path: MuxPathView,
    events: Seq<EventView>,
)
    requires
        opts.port is None,
        mode is Wait || mode is Try,
    ensures
        ConnectorView::start(mode, opts, env, MemoryView::Won(path)).run(events).only_over(path),
{
    lemma_only_over(ConnectorView::start(mode, opts, env, MemoryView::Won(path)), path, events);
}

/// Where the way that won is not there, a reconnect that may wait sleeps, and
/// one that may not fails.
pub proof fn winner_that_is_gone(mode: ConnectMode, opts: OptionsView, env: EnvView, path: MuxPathView, e: ErrorView)
    requires
        opts.port is None,
        env.unix,
        mode is Wait || mode is Try,
    ensures
        ({
            let s = ConnectorView::start(mode, opts, env, MemoryView::Won(path));
            let gone = if path is Unix {
                EventView::Checked(false)
            } else {
                EventView::Failed(e)
            };
            &&& mode is Wait ==> wants(s.run(seq![gone]), ActionView::Sleep(MUX_POLL_MS))
            &&& mode is Try ==> s.run(seq![gone]) == ConnectStepView::Fail(
                ErrorView::Other("mux not available (waiting for restart)"@),
            )
        }),
{
    let s = ConnectorView::start(mode, opts, env, MemoryView::Won(path));
    lemma_first_event(s, EventView::Checked(false));
    lemma_first_event(s, EventView::Failed(e));
}

/// Where the mux daemon was used but no way has won, a reconnect that may wait
/// tries the TCP endpoint of the environment, and then takes no other way than
/// the socket at the default path.
pub proof fn reconnect_without_winner(opts: OptionsView, env: EnvView, e: ErrorView, events: Seq<EventView>)
    requires
        opts.port is None,
        env.unix,
    ensures
        ({
            let s = beyond_tcp(ConnectMode::Wait, opts, env, MemoryView::Used, e);
            let path = MuxPathView::Unix(env.default_path());
            &&& reaches(s, path, opts.command_timeout())
            &&& s.run(events).only_over(path)
        }),
{
    let s = beyond_tcp(ConnectMode::Wait, opts, env, MemoryView::Used, e);
    let path = MuxPathView::Unix(env.default_path());
    lemma_failed_first(opts, env, MemoryView::Used, e);
    lemma_awaited_is_reached(s->Continue_0, path);
    lemma_only_over(s, path, events);
}

/// The next `n` paths do not exist.
pub open spec fn absent(n: nat) -> Seq<EventView> {
    Seq::new(n, |i: int| EventView::Checked(false))
}

proof fn lemma_search_goes_on(c: ConnectorView, k: nat)
    requires
        k < c.env.candidates().len(),
    ensures
        c.to(ConnectorView::search(c.env)).run(absent(k)) == c.to(
            PlaceView::Search(SearchView { candidates: c.env.candidates(), at: k as int }),
        ),
    decreases k,
{
    let s = c.to(ConnectorView::search(c.env));
    if k == 0 {
        assert(absent(0) =~= Seq::empty());
    } else {
        lemma_search_goes_on(c, (k - 1) as nat);
        assert(absent(k).drop_last() =~= absent((k - 1) as nat));
        assert(absent(k).last() == EventView::Checked(false));
    }
}

/// A search for the mux socket looks at every path, in order, and uses the
/// first one that exists. Where none does, there is no socket.
pub proof fn search_uses_the_first_socket(c: ConnectorView, k: nat)
    requires
        c.env.unix,
        k < c.env.candidates().len(),
    ensures
        ({
            let searching = c.to(ConnectorView::search(c.env));
            &&& searching.run(absent(k).push(EventView::Checked(true))) == c.to(
                PlaceView::Unix(c.env.candidates()[k as int]),
            )
            &&& searching.run(absent(c.env.candidates().len())) == c.without_socket()
        }),
{
    let n = c.env.candidates().len();
    lemma_search_goes_on(c, k);
    assert(absent(k).push(EventView::Checked(true)).drop_last() =~= absent(k));
    lemma_search_goes_on(c, (n - 1) as nat);
    assert(absent(n).drop_last() =~= absent((n - 1) as nat));
    assert(absent(n).last() == EventView::Checked(false));
}

proof fn lemma_waiting_goes_on(s: ConnectStepView, events: Seq<EventView>)
    requires
        s matches ConnectStepView::Continue(c) && c.waits_for_mux(),
    ensures
        s.run(events) matches ConnectStepView::Continue(c) ==> c.waits_for_mux(),
        s.run(events) matches ConnectStepView::Fail(e) ==> exists|i: int|
            0 <= i < events.len() && #[trigger] events[i] == EventView::Failed(e) && (s.run(events.take(i)) matches
            ConnectStepView::Continue(c) && c.place is Unix),
    decreases events.len(),
{
    if events.len() > 0 {
        lemma_waiting_goes_on(s, events.drop_last());
        let before = s.run(events.drop_last());
        if let ConnectStepView::Fail(e) = s.run(events) {
            if before is Continue {
                let i = events.len() - 1;
                assert(events.take(i) =~= events.drop_last());
                assert(events[i] == EventView::Failed(e));
            } else {
                let i = choose|i: int|
                    0 <= i < events.drop_last().len() && #[trigger] events.drop_last()[i] == EventView::Failed(e) && (
                    s.run(events.drop_last().take(i)) matches ConnectStepView::Continue(c) && c.place is Unix);
                assert(events.drop_last().take(i) =~= events.take(i));
                assert(events[i] == EventView::Failed(e));
            }
        }
    }
}

/// A reconnect that may wait does not give the mux daemon up: where there are
/// Unix sockets it fails only with the error of a socket that exists and
/// cannot be connected to.
pub proof fn waiting_reconnect_goes_on(
    opts: OptionsView,
    env: EnvView,
    memory: MemoryView,
    events: Seq<EventView>,
    e: ErrorView,
)
    requires
        opts.port is None,
        env.unix,
        !(memory is Unused),
        ConnectorView::start(ConnectMode::Wait, opts, env, memory).run(events) == ConnectStepView::Fail(e),
    ensures
        exists|i: int|
            0 <= i < events.len() && #[trigger] events[i] == EventView::Failed(e) && (ConnectorView::start(
                ConnectMode::Wait,
                opts,
                env,
                memory,
            ).run(events.take(i)) matches ConnectStepView::Continue(c) && c.place is Unix),
{
    lemma_waiting_goes_on(ConnectorView::start(ConnectMode::Wait, opts, env, memory), events);
}

/// What is to be remembered of a connection: the way over which the mux daemon
/// was found; of an endpoint that was asked for, that the mux daemon was used;
/// of a serial port, nothing new.
pub proof fn the_winner_is_remembered(c: ConnectorView, event: EventView)
    requires
        c.after(event) is Established,
    ensures
        c.after(event) matches ConnectStepView::Established { kind, memory } && {
            &&& kind is Serial ==> memory == c.memory
            &&& !(kind is Serial) && c.mode is Given ==> memory == c.memory.merged(MemoryView::Used)
            &&& !(kind is Serial) && !(c.mode is Given) ==> (memory matches MemoryView::Won(path) && kind
                == path.kind())
        },
{
}

proof fn lemma_established_last(s: ConnectStepView, events: Seq<EventView>)
    requires
        s matches ConnectStepView::Continue(c) && !(c.mode is Given),
    ensures
        match s.run(events) {
            ConnectStepView::Continue(d) => !(d.mode is Given),
            ConnectStepView::Established { kind, memory } => kind is Serial || (memory matches MemoryView::Won(path)
                && kind == path.kind()),
            ConnectStepView::Fail(_) => true,
        },
    decreases events.len(),
{
    if events.len() > 0 {
        lemma_established_last(s, events.drop_last());
    }
}

/// Once a way to the mux daemon wins, reconnects commit to it: whatever a
/// connection went through before it ended up on the mux daemon, and whatever
/// the process remembered of earlier ones, the next one reaches that way where
/// the daemon is there, and takes no other.
pub proof fn reconnect_commits_to_the_winner(
    first: ConnectMode,
    first_opts: OptionsView,
    first_env: EnvView,
    before: MemoryView,
    events: Seq<EventView>,
    kind: KindView,
    memory: MemoryView,
    known: MemoryView,
    mode: ConnectMode,
    opts: OptionsView,
    env: EnvView,
    later: Seq<EventView>,
)
    requires
        !(first is Given),
        ConnectorView::start(first, first_opts, first_env, before).run(events) == (ConnectStepView::Established {
            kind,
            memory,
        }),
        !(kind is Serial),
        mode is Wait || mode is Try,
        opts.port is None,
        kind is MuxUnix ==> env.unix,
    ensures
        known.merged(memory) matches MemoryView::Won(path) && path.kind() == kind && reaches(
            ConnectorView::start(mode, opts, env, known.merged(memory)),
            path,
            opts.command_timeout(),
        ) && ConnectorView::start(mode, opts, env, known.merged(memory)).run(later).only_over(path),
{
    let s = ConnectorView::start(first, first_opts, first_env, before);
    if !(s is Continue) {
        lemma_over_is_over(s, events);
    }
    lemma_established_last(s, events);
    reconnect_reaches_the_winner(mode, opts, env, memory->Won_0);
    reconnect_takes_no_other_way(mode, opts, env, memory->Won_0, later);
}

/// Connections that end at the same time lose nothing: however their memories
/// are put together, in their order, the outcome is the same; the last way
/// that won is kept, and a process that has used the mux daemon stays one that
/// has.
pub proof fn nothing_is_forgotten(a: MemoryView, b: MemoryView, c: MemoryView)
    ensures
        a.merged(b).merged(c) == a.merged(b.merged(c)),
        a.merged(MemoryView::Unused) == a,
        MemoryView::Unused.merged(a) == a,
        a.merged(b) is Unused <==> a is Unused && b is Unused,
        b is Won ==> a.merged(b) == b,
        a is Won && !(b is Won) ==> a.merged(b) == a,
{
}

/// An explicit port bypasses the mux daemon, even a sticky one: the port is
/// opened, and what comes of that is the result.
pub proof fn explicit_port_bypasses_mux(
    mode: ConnectMode,
    opts: OptionsView,
    env: EnvView,
    memory: MemoryView,
    e: ErrorView,
)
    requires
        opts.port is Some,
        !(mode is MuxOnly),
    ensures
        ({
            let s = ConnectorView::start(mode, opts, env, memory);
            &&& wants(s, ActionView::OpenSerial(opts.port->0))
            &&& s.run(seq![EventView::Opened]) == (ConnectStepView::Established {
                kind: KindView::Serial(opts.port->0),
                memory,
            })
            &&& s.run(seq![EventView::Failed(e)]) == ConnectStepView::Fail(e)
        }),
{
    let s = ConnectorView::start(mode, opts, env, memory);
    lemma_first_event(s, EventView::Opened);
    lemma_first_event(s, EventView::Failed(e));
}

/// What is left where the TCP endpoint of the environment is not set, or
/// nobody is there.
pub open spec fn beyond_tcp(
    mode: ConnectMode,
    opts: OptionsView,
    env: EnvView,
    memory: MemoryView,
    e: ErrorView,
) -> ConnectStepView {
    let s = ConnectorView::start(mode, opts, env, memory);
    if env.tcp() is Some {
        s.run(seq![EventView::Failed(e)])
    } else {
        s
    }
}

/// The order of the attempts where the mux daemon was not used yet: the TCP
/// endpoint of the environment first; where nobody is there, the mux socket;
/// where there is no socket, USB, unless only the mux daemon may be used.
pub proof fn connection_priority(mode: ConnectMode, opts: OptionsView, env: EnvView, memory: MemoryView, e: ErrorView)
    requires
        opts.port is None,
        !(mode is Given),
        memory is Unused || mode is MuxOnly,
    ensures
        env.tcp() matches Some((host, port)) ==> reaches(
            ConnectorView::start(mode, opts, env, memory),
            (MuxPathView::Tcp { host, port }),
            opts.command_timeout(),
        ),
        env.unix ==> (beyond_tcp(mode, opts, env, memory, e) matches ConnectStepView::Continue(c) && {
            &&& c.place == ConnectorView::search(env)
            &&& !(mode is MuxOnly) ==> c.without_socket() == c.to(PlaceView::FirstScan)
        }),
{
    let s = ConnectorView::start(mode, opts, env, memory);
    lemma_first_event(s, EventView::Opened);
    lemma_first_event(s, EventView::Failed(e));
}

/// Without Unix sockets the mux daemon is reached over TCP or not at all.
/// Where nobody is there, a connection goes on to USB if it may, and fails if
/// it may not.
pub proof fn without_unix_sockets(opts: OptionsView, env: EnvView, e: ErrorView)
    requires
        opts.port is None,
        !env.unix,
    ensures
        ({
            let usb = |s: ConnectStepView| s matches ConnectStepView::Continue(c) && c.place is FirstScan;
            let (unused, used) = (MemoryView::Unused, MemoryView::Used);
            &&& usb(beyond_tcp(ConnectMode::Wait, opts, env, unused, e))
            &&& usb(beyond_tcp(ConnectMode::Try, opts, env, unused, e))
            &&& beyond_tcp(ConnectMode::MuxOnly, opts, env, unused, e) == ConnectStepView::Fail(
                ErrorView::Other("mux-only mode requires Unix socket support or DONGLORA_MUX_TCP"@),
            )
            &&& beyond_tcp(ConnectMode::Wait, opts, env, used, e) == ConnectStepView::Fail(
                ErrorView::Other("no mux endpoint available"@),
            )
            &&& ConnectorView::start(ConnectMode::Try, opts, env, used).run(seq![EventView::Checked(true)])
                == ConnectStepView::Fail(ErrorView::Other("Unix mux requires a unix target"@))
            &&& ConnectorView::start(ConnectMode::Try, opts, env, used).run(absent(env.candidates().len()))
                == ConnectStepView::Fail(ErrorView::Other("mux not available (waiting for restart)"@))
        }),
{
    let n = env.candidates().len();
    lemma_failed_first(opts, env, MemoryView::Unused, e);
    lemma_failed_first(opts, env, MemoryView::Used, e);
    let s = ConnectorView::start(ConnectMode::Try, opts, env, MemoryView::Used);
    lemma_first_event(s, EventView::Checked(true));
    lemma_search_goes_on(s->Continue_0, (n - 1) as nat);
    assert(s == s->Continue_0.to(ConnectorView::search(env)));
    assert(absent(n).drop_last() =~= absent((n - 1) as nat));
    assert(absent(n).last() == EventView::Checked(false));
}

proof fn lemma_failed_first(opts: OptionsView, env: EnvView, memory: MemoryView, e: ErrorView)
    ensures
        forall|mode: ConnectMode|
            (#[trigger] ConnectorView::start(mode, opts, env, memory)).run(seq![EventView::Failed(e)]) == match
            ConnectorView::start(mode, opts, env, memory) {
                ConnectStepView::Continue(c) => c.after(EventView::Failed(e)),
                over => over,
            },
{
    assert forall|mode: ConnectMode|
        (#[trigger] ConnectorView::start(mode, opts, env, memory)).run(seq![EventView::Failed(e)]) == match
        ConnectorView::start(mode, opts, env, memory) {
            ConnectStepView::Continue(c) => c.after(EventView::Failed(e)),
            over => over,
        } by {
        lemma_first_event(ConnectorView::start(mode, opts, env, memory), EventView::Failed(e));
    }
}

/// A mux socket that exists is committed to: where it cannot be reached, the
/// connection fails with that error, and USB is not tried.
pub proof fn existing_socket_is_committed_to(c: ConnectorView, path: Seq<char>, e: ErrorView)
    requires
        c.env.unix,
        match c.place {
            PlaceView::Search(search) => search.path() == path,
            PlaceView::Awaited(MuxPathView::Unix(p)) => p == path,
            _ => false,
        },
    ensures
        c.action() == ActionView::CheckPath(path),
        c.after(EventView::Checked(true)) == c.to(PlaceView::Unix(path)),
        c.at(PlaceView::Unix(path)).action() == ActionView::ConnectUnix(path),
        c.at(PlaceView::Unix(path)).after(EventView::Failed(e)) == ConnectStepView::Fail(e),
{
}

/// The events belong to the actions that they follow.
pub open spec fn orderly(s: ConnectStepView, events: Seq<EventView>) -> bool
    decreases events.len(),
{
    events.len() == 0 || (orderly(s, events.drop_last()) && (s.run(events.drop_last()) matches ConnectStepView::Continue(
        d,
    ) ==> d.expects(events.last())))
}

proof fn lemma_try_goes_on(c: ConnectorView, event: EventView)
    requires
        !(c.mode is Wait),
        c.wf(),
        c.prompt(),
        c.expects(event),
    ensures
        c.after(event) matches ConnectStepView::Continue(d) ==> d.left() < c.left() && d.mode == c.mode && d.wf()
            && d.prompt(),
{
}

proof fn lemma_try_is_bounded(c: ConnectorView, events: Seq<EventView>)
    requires
        !(c.mode is Wait),
        c.wf(),
        c.prompt(),
        orderly(ConnectStepView::Continue(c), events),
    ensures
        ConnectStepView::Continue(c).run(events) matches ConnectStepView::Continue(d) ==> {
            &&& d.left() + events.len() <= c.left()
            &&& d.left() >= 1
            &&& d.mode == c.mode
            &&& d.wf()
            &&& d.prompt()
        },
    decreases events.len(),
{
    if events.len() > 0 {
        lemma_try_is_bounded(c, events.drop_last());
        if let ConnectStepView::Continue(d) = ConnectStepView::Continue(c).run(events.drop_last()) {
            lemma_try_goes_on(d, events.last());
        }
    }
}

proof fn lemma_over_is_over(s: ConnectStepView, events: Seq<EventView>)
    requires
        !(s is Continue),
    ensures
        s.run(events) == s,
    decreases events.len(),
{
    if events.len() > 0 {
        lemma_over_is_over(s, events.drop_last());
    }
}

/// A connection that is only tried never sleeps, and is over after five
/// actions at the most.
pub proof fn trying_never_waits(
    mode: ConnectMode,
    opts: OptionsView,
    env: EnvView,
    memory: MemoryView,
    events: Seq<EventView>,
)
    requires
        !(mode is Wait),
        orderly(ConnectorView::start(mode, opts, env, memory), events),
    ensures
        ConnectorView::start(mode, opts, env, memory).run(events) matches ConnectStepView::Continue(d) ==> !(
        d.action() is Sleep) && events.len() < 5,
{
    let s = ConnectorView::start(mode, opts, env, memory);
    match s {
        ConnectStepView::Continue(c) => {
            lemma_try_is_bounded(c, events);
        },
        _ => {
            lemma_over_is_over(s, events);
        },
    }
}

/// A connection that waits for a device does not fail for want of one: it
/// looks again, and uses the device that appears once USB has settled.
pub proof fn waiting_finds_the_device(c: ConnectorView, port: Seq<char>)
    requires
        c.mode is Wait,
        c.place is FirstScan,
    ensures
        ({
            let looking = c.to(PlaceView::DeviceScan);
            &&& c.after(EventView::Scanned(Some(port))) == c.to(PlaceView::Serial(port))
            &&& c.after(EventView::Scanned(None)) == looking
            &&& looking.run(seq![EventView::Scanned(None), EventView::Slept]) == looking
            &&& looking.run(seq![EventView::Scanned(Some(port)), EventView::Slept]) == c.to(PlaceView::Serial(port))
        }),
{
    let looking = c.to(PlaceView::DeviceScan);
    lemma_two_events(looking, EventView::Scanned(None), EventView::Slept);
    lemma_two_events(looking, EventView::Scanned(Some(port)), EventView::Slept);
    lemma_first_event(looking, EventView::Scanned(None));
    lemma_first_event(looking, EventView::Scanned(Some(port)));
    lemma_first_event(c.to(PlaceView::DevicePoll), EventView::Slept);
    lemma_first_event(c.to(PlaceView::DeviceSettle(port)), EventView::Slept);
}

/// A radio on USB is used: in every mode that may look for one, a scan that
/// finds a port is followed by opening that port, and what comes of that is the
/// result. A connection fails for want of a device only where it may not wait
/// and the scan found none.
pub proof fn found_port_is_opened(c: ConnectorView, port: Seq<char>, e: ErrorView)
    requires
        c.place is FirstScan,
    ensures
        ({
            let s = c.to(PlaceView::FirstScan);
            let found = EventView::Scanned(Some(port));
            &&& wants(s, ActionView::FindPort)
            &&& wants(s.run(seq![found]), ActionView::OpenSerial(port))
            &&& s.run(seq![found, EventView::Opened]) == (ConnectStepView::Established {
                kind: KindView::Serial(port),
                memory: c.memory,
            })
            &&& s.run(seq![found, EventView::Failed(e)]) == ConnectStepView::Fail(e)
            &&& !(c.mode is Wait) ==> s.run(seq![EventView::Scanned(None)]) == ConnectStepView::Fail(
                ErrorView::Other("no DongLoRa device found (no mux, no USB device)"@),
            )
            &&& c.mode is Wait ==> wants(s.run(seq![EventView::Scanned(None)]), ActionView::FindPort)
        }),
{
    let s = c.to(PlaceView::FirstScan);
    let found = EventView::Scanned(Some(port));
    lemma_first_event(s, found);
    lemma_first_event(s, EventView::Scanned(None));
    lemma_two_events(s, found, EventView::Opened);
    lemma_two_events(s, found, EventView::Failed(e));
    lemma_first_event(s.run(seq![found]), EventView::Opened);
    lemma_first_event(s.run(seq![found]), EventView::Failed(e));
}

/// Without a port that was asked for, a mux daemon or its socket, a process
/// that never used the mux daemon ends up on USB, whether it may wait or not:
/// the radio that is found is opened, and the connection is the one to it.
pub proof fn usb_is_the_last_resort(mode: ConnectMode, opts: OptionsView, env: EnvView, port: Seq<char>)
    requires
        mode is Wait || mode is Try,
        opts.port is None,
        env.tcp() is None,
    ensures
        ({
            let s = ConnectorView::start(mode, opts, env, MemoryView::Unused);
            let scan = if env.unix {
                s.run(absent(env.candidates().len()))
            } else {
                s
            };
            let found = EventView::Scanned(Some(port));
            &&& wants(scan, ActionView::FindPort)
            &&& wants(scan.run(seq![found]), ActionView::OpenSerial(port))
            &&& scan.run(seq![found, EventView::Opened]) == (ConnectStepView::Established {
                kind: KindView::Serial(port),
                memory: MemoryView::Unused,
            })
        }),
{
    let c = ConnectorView {
        mode,
        env,
        memory: MemoryView::Unused,
        timeout: opts.command_timeout(),
        place: PlaceView::FirstScan,
    };
    if env.unix {
        search_uses_the_first_socket(c, 0);
    }
    found_port_is_opened(c, port, ErrorView::Length);
}

/// A device that is waited for is looked for every half second; once it is
/// there, USB gets 300 ms to settle, and then the port is opened.
pub proof fn waiting_for_usb_takes_its_time(c: ConnectorView, port: Seq<char>)
    requires
        c.place is DeviceScan,
    ensures
        ({
            let s = c.to(PlaceView::DeviceScan);
            let found = EventView::Scanned(Some(port));
            &&& wants(s, ActionView::FindPort)
            &&& wants(s.run(seq![EventView::Scanned(None)]), ActionView::Sleep(500))
            &&& wants(s.run(seq![EventView::Scanned(None), EventView::Slept]), ActionView::FindPort)
            &&& wants(s.run(seq![found]), ActionView::Sleep(300))
            &&& wants(s.run(seq![found, EventView::Slept]), ActionView::OpenSerial(port))
        }),
{
    let s = c.to(PlaceView::DeviceScan);
    let found = EventView::Scanned(Some(port));
    lemma_first_event(s, EventView::Scanned(None));
    lemma_first_event(s, found);
    lemma_two_events(s, EventView::Scanned(None), EventView::Slept);
    lemma_two_events(s, found, EventView::Slept);
    lemma_first_event(s.run(seq![EventView::Scanned(None)]), EventView::Slept);
    lemma_first_event(s.run(seq![found]), EventView::Slept);
}

/// A mux endpoint that was asked for is what is connected to, and nothing else:
/// where that fails, the error is the result. TCP gets two seconds.
pub proof fn given_endpoint_is_used(memory: MemoryView, path: Seq<char>, host: Seq<char>, port: u16, e: ErrorView)
    ensures
        ({
            let s = ConnectStepView::Continue(given(memory, PlaceView::Unix(path)));
            &&& wants(s, ActionView::ConnectUnix(path))
            &&& s.run(seq![EventView::Opened]) matches ConnectStepView::Established { kind, .. } && kind
                == KindView::MuxUnix(path)
            &&& s.run(seq![EventView::Failed(e)]) == ConnectStepView::Fail(e)
        }),
        ({
            let s = ConnectStepView::Continue(given(memory, PlaceView::Tcp { host, port }));
            &&& wants(s, ActionView::ConnectTcp { host, port, timeout: seconds(2) })
            &&& s.run(seq![EventView::Opened]) matches ConnectStepView::Established { kind, .. } && kind
                == KindView::MuxTcp(host + ":"@ + decimal(port as nat))
            &&& s.run(seq![EventView::Failed(e)]) == ConnectStepView::Fail(e)
        }),
        ({
            let s = ConnectStepView::Continue(given(memory, PlaceView::Unix(path)));
            let t = ConnectStepView::Continue(given(memory, PlaceView::Tcp { host, port }));
            let keeps = |r: ConnectStepView|
                r matches ConnectStepView::Established { memory: after, .. } && !(after is Unused) && (memory is Won
                    ==> after == memory);
            keeps(s.run(seq![EventView::Opened])) && keeps(t.run(seq![EventView::Opened]))
        }),
{
    let s = ConnectStepView::Continue(given(memory, PlaceView::Unix(path)));
    let t = ConnectStepView::Continue(given(memory, PlaceView::Tcp { host, port }));
    lemma_first_event(s, EventView::Opened);
    lemma_first_event(s, EventView::Failed(e));
    lemma_first_event(t, EventView::Opened);
    lemma_first_event(t, EventView::Failed(e));
}

/// Where `DONGLORA_MUX_TCP` names an endpoint, a connection of a process that
/// has no way to return to dials that endpoint first, for as long as a command
/// may take, and ends up on it where somebody answers.
pub proof fn tcp_endpoint_is_dialled(mode: ConnectMode, opts: OptionsView, env: EnvView, host: Seq<char>, port: u16)
    requires
        opts.port is None,
        !(mode is Given),
        host.len() > 0,
        env.mux_tcp == Some(host + ":"@ + decimal(port as nat)),
    ensures
        ({
            let s = ConnectorView::start(mode, opts, env, MemoryView::Unused);
            &&& wants(s, ActionView::ConnectTcp { host, port, timeout: opts.command_timeout() })
            &&& s.run(seq![EventView::Opened]) == (ConnectStepView::Established {
                kind: KindView::MuxTcp(host + ":"@ + decimal(port as nat)),
                memory: MemoryView::Won(MuxPathView::Tcp { host, port }),
            })
        }),
{
    crate::endpoint::endpoint_round_trip(host, port);
    lemma_first_event(ConnectorView::start(mode, opts, env, MemoryView::Unused), EventView::Opened);
}

/// Where there is no TCP endpoint and a mux socket exists, a connection of a
/// process that has no way to return to looks at the paths in order and ends up
/// on the first socket that exists.
pub proof fn first_socket_is_connected_to(mode: ConnectMode, opts: OptionsView, env: EnvView, k: nat)
    requires
        opts.port is None,
        !(mode is Given),
        env.unix,
        env.tcp() is None,
        k < env.candidates().len(),
    ensures
        ({
            let path = env.candidates()[k as int];
            let s = ConnectorView::start(mode, opts, env, MemoryView::Unused);
            let there = s.run(absent(k).push(EventView::Checked(true)));
            &&& wants(s.run(absent(k)), ActionView::CheckPath(path))
            &&& wants(there, ActionView::ConnectUnix(path))
            &&& there.run(seq![EventView::Opened]) == (ConnectStepView::Established {
                kind: KindView::MuxUnix(path),
                memory: MemoryView::Won(MuxPathView::Unix(path)),
            })
        }),
{
    let c = ConnectorView {
        mode,
        env,
        memory: MemoryView::Unused,
        timeout: opts.command_timeout(),
        place: PlaceView::FirstScan,
    };
    let s = ConnectorView::start(mode, opts, env, MemoryView::Unused);
    lemma_search_goes_on(c, k);
    search_uses_the_first_socket(c, k);
    lemma_first_event(s.run(absent(k).push(EventView::Checked(true))), EventView::Opened);
}

/// A connection that may use nothing but the mux daemon says so where there is
/// none; and so does a try of a process that has used the mux daemon before.
pub proof fn missing_mux_is_told(opts: OptionsView, env: EnvView, memory: MemoryView)
    requires
        opts.port is None,
        env.unix,
    ensures
        env.tcp() is None ==> ConnectorView::start(ConnectMode::MuxOnly, opts, env, memory).run(
            absent(env.candidates().len()),
        ) == ConnectStepView::Fail(ErrorView::Other("no mux socket found"@)),
        memory is Used ==> ConnectorView::start(ConnectMode::Try, opts, env, memory).run(
            absent(env.candidates().len()),
        ) == ConnectStepView::Fail(ErrorView::Other("mux not available (waiting for restart)"@)),
{
    let c = ConnectorView {
        mode: ConnectMode::MuxOnly,
        env,
        memory,
        timeout: opts.command_timeout(),
        place: PlaceView::FirstScan,
    };
    search_uses_the_first_socket(c, 0);
    search_uses_the_first_socket(ConnectorView { mode: ConnectMode::Try, ..c }, 0);
}

/// A path that a waiting reconnect looks at is looked at again every half
/// second.
pub proof fn mux_is_looked_for_every_half_second(c: ConnectorView, path: MuxPathView)
    requires
        c.place == PlaceView::MuxPoll(path),
    ensures
        c.action() == ActionView::Sleep(500),
{
}

/// An event that does not belong to the action changes nothing, and what a
/// connector goes by never changes.
pub proof fn stray_events_change_nothing(c: ConnectorView, event: EventView)
    ensures
        !c.expects(event) ==> c.after(event) == ConnectStepView::Continue(c),
        c.after(event) matches ConnectStepView::Continue(d) ==> {
            &&& d.mode == c.mode
            &&& d.env == c.env
            &&& d.memory == c.memory
            &&& d.timeout == c.timeout
        },
{
}

/// What the user is told while a connection waits: for what, and where; and
/// which device was found.
pub proof fn waiting_is_told(c: ConnectorView, path: Seq<char>, host: Seq<char>, port: u16)
    ensures
        c.place == PlaceView::MuxPoll(MuxPathView::Unix(path)) ==> c.notice() == Some(
            "waiting for mux at "@ + path + " ..."@,
        ),
        c.place == PlaceView::MuxPoll(MuxPathView::Tcp { host, port }) ==> c.notice() == Some(
            "waiting for mux at "@ + (host + ":"@ + decimal(port as nat)) + " ..."@,
        ),
        c.place is DeviceScan ==> c.notice() == Some("waiting for DongLoRa device..."@),
        c.place == PlaceView::DeviceSettle(path) ==> c.notice() == Some("found device at "@ + path),
        c.notice() is Some ==> c.action() is Sleep || c.place is DeviceScan,
{
}

/// The options reach the radio: each command of the handshake may take the time
/// that was set, or two seconds; a configuration is applied exactly where there
/// is one and it is to be applied; and the radio that the handshake leads to is
/// kept alive exactly where the options ask for it.
pub proof fn options_reach_the_radio(
    opts: OptionsView,
    kind: KindView,
    m: Modulation,
    t: Duration,
    info: InfoView,
    out: SetConfigResult,
    now_ns: u64,
)
    ensures
        opts.timeout is None ==> opts.command_timeout() == seconds(2),
        opts.timeout == Some(t) ==> opts.command_timeout() == t,
        opts.first_config() == Some(m) <==> opts.auto_configure && opts.config == Some(m),
        HandshakeView::start(kind, opts.command_timeout(), opts.first_config(), opts.keepalive) matches
            HandshakeStepView::Send { then, .. } && (then.after_probe(Ok(())) matches HandshakeStepView::Send {
            then: identify,
            ..
        } && {
            let first = identify.after_identify(Ok(info), now_ns);
            &&& first matches HandshakeStepView::Done(Ok(d)) ==> d.keepalive == opts.keepalive && d.kind == kind && d.info
                == info && d.applied is None && !d.closed && !d.rx_started
            &&& first matches HandshakeStepView::Send { then: configure, .. } ==> (configure.after_configure(
                info,
                Ok(out),
                now_ns,
            ) matches HandshakeStepView::Done(Ok(d)) && d.keepalive == opts.keepalive && d.kind == kind && d.info == info
                && d.applied == Some(out.current) && !d.closed && !d.rx_started)
        }),
{
}

/// What contracts say of an action and of an event is what they are.
pub proof fn views_keep_actions(a: Action, v: Event)
    ensures
        a matches Action::OpenSerial(p) ==> a@ == ActionView::OpenSerial(p@),
        a matches Action::ConnectTcp { host, port, timeout } ==> a@ == (ActionView::ConnectTcp {
            host: host@,
            port,
            timeout,
        }),
        a matches Action::ConnectUnix(p) ==> a@ == ActionView::ConnectUnix(p@),
        a matches Action::CheckPath(p) ==> a@ == ActionView::CheckPath(p@),
        a is FindPort <==> a@ is FindPort,
        a matches Action::Sleep(ms) ==> a@ == ActionView::Sleep(ms),
        v is Opened <==> v@ is Opened,
        v matches Event::Failed(e) ==> v@ == EventView::Failed(e@),
        v matches Event::Checked(there) ==> v@ == EventView::Checked(there),
        v matches Event::Scanned(Some(p)) ==> v@ == EventView::Scanned(Some(p@)),
        v matches Event::Scanned(None) ==> v@ == EventView::Scanned(None),
        v is Slept <==> v@ is Slept,
{
}

/// Options of which nothing was said ask for nothing: no port, no time limit,
/// no configuration, and no keepalive.
pub proof fn empty_options_ask_for_nothing()
    ensures
        OptionsView::empty().port is None,
        OptionsView::empty().timeout is None,
        OptionsView::empty().config is None,
        !OptionsView::empty().auto_configure,
        !OptionsView::empty().keepalive,
{
}

} // verus!
