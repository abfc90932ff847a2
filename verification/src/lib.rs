//! Client for a DongLoRa radio: connect, configure, send and receive packets.
//!
//! This crate holds everything that the client decides and computes, and does
//! no I/O. What it leaves to its caller are single actions: write these bytes,
//! open this port, wait so long. What it takes back is what came of them.
//!
//! - [`connect`](mod@connect): which transport a connection uses, and
//!   [`ConnectOptions`].
//! - [`endpoint`]: where the mux daemon is.
//! - [`discovery`]: which serial port is the radio.
//! - [`transport`]: errors of opening a transport.
//! - [`handshake`]: what is said on a new connection.
//! - [`dongle`]: [`Dongle`], the radio as its user sees it.
//! - [`retry`]: transmitting with retries.
//! - [`session`]: [`Session`], which sends commands and takes in what is read.
//! - [`commands`]: the request and the answer of each command.
//! - [`frame`], [`codec`], [`set_config`]: bytes on the wire, as the
//!   `donglora-protocol` crate writes and reads them.
//! - [`protocol`], [`modulation`]: protocol values.
//! - [`errors`]: [`ClientError`].
//! - [`text`]: numbers in messages.
#![allow(unused_imports)]

pub mod codec;
pub mod commands;
pub mod connect;
pub mod discovery;
pub mod dongle;
pub mod endpoint;
pub mod errors;
pub mod frame;
pub mod handshake;
pub mod modulation;
pub mod protocol;
pub mod retry;
pub mod session;
pub mod set_config;
pub mod text;
pub mod transport;

pub use commands::{Request, SessionResponse};
pub use connect::{
    connect, connect_mux_auto, connect_mux_auto_with, connect_with, default_socket_path, find_mux_socket,
    mux_tcp_connect, mux_unix_connect, try_connect, try_connect_with, ConnectOptions,
};
pub use discovery::{find_port, wait_for_device, USB_PID, USB_VID};
pub use dongle::{Dongle, TransportKind, KEEPALIVE_INTERVAL_MS};
pub use errors::{ClientError, ClientResult};
pub use modulation::{
    FlrcBitrate, FlrcBt, FlrcCodingRate, FlrcConfig, FlrcPreambleLen, FskConfig, LrFhssBandwidth, LrFhssCodingRate,
    LrFhssConfig, LrFhssGrid,
};
pub use protocol::{
    ErrorCode, Info, LoRaBandwidth, LoRaCodingRate, LoRaConfig, LoRaHeaderMode, Modulation, Owner, RxOrigin, RxPayload,
    SetConfigResult, SetConfigResultCode, TxDonePayload, TxResult,
};
pub use retry::{RetryPolicy, TxAttempt, TxOutcome};
pub use session::Session;
pub use set_config::OkPayload;

pub use donglora_protocol::{cap, ModulationId, RadioChipId, TxFlags};
