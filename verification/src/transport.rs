//! Errors of opening a transport, as the caller is told of them.

use vstd::prelude::*;

use crate::endpoint::{endpoint_text, format_endpoint};
use crate::errors::{ClientError, ErrorView};

verus! {

/// The baud rate of the serial port. USB does not use it.
pub const BAUD_RATE: u32 = 115_200;

/// A serial port that could not be opened.
pub fn serial_open_error(path: &str, detail: &str) -> (r: ClientError)
    ensures
        r@ == ErrorView::Other("failed to open serial port "@ + path@ + ": "@ + detail@),
{
    ClientError::Other("failed to open serial port ".to_owned().concat(path).concat(": ").concat(detail))
}

/// A mux socket that could not be connected to.
pub fn unix_connect_error(path: &str, detail: &str) -> (r: ClientError)
    ensures
        r@ == ErrorView::Other("failed to connect to mux socket "@ + path@ + ": "@ + detail@),
{
    ClientError::Other("failed to connect to mux socket ".to_owned().concat(path).concat(": ").concat(detail))
}

/// A TCP endpoint that could not be connected to.
pub fn tcp_connect_error(host: &str, port: u16, detail: &str) -> (r: ClientError)
    ensures
        r@ == ErrorView::Other("failed to connect to "@ + endpoint_text(host@, port) + ": "@ + detail@),
{
    let endpoint = format_endpoint(host, port);
    ClientError::Other("failed to connect to ".to_owned().concat(endpoint.as_str()).concat(": ").concat(detail))
}

/// A TCP endpoint that did not answer in time.
pub fn tcp_timeout_error() -> (r: ClientError)
    ensures
        r@ == (ErrorView::Timeout { what: "tcp connect"@ }),
{
    ClientError::Timeout { what: "tcp connect" }
}

/// A TCP connection whose delay could not be switched off.
pub fn tcp_nodelay_error(detail: &str) -> (r: ClientError)
    ensures
        r@ == ErrorView::Other("failed to set TCP_NODELAY: "@ + detail@),
{
    ClientError::Other("failed to set TCP_NODELAY: ".to_owned().concat(detail))
}

} // verus!
