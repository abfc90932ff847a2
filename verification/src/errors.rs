//! Errors of the client.

use vstd::prelude::*;

use crate::codec::error_code_of;
use crate::protocol::ErrorCode;
use crate::text::{hex, push_hex};

verus! {

#[verifier::external_type_specification]
#[verifier::external_body]
pub struct ExIoError(std::io::Error);

/// Every operation that can fail returns this error: one variant for each
/// error code of the protocol, and those of the transport.
#[derive(Debug)]
pub enum ClientError {
    /// `ERR(ENOTCONFIGURED)`.
    NotConfigured,
    /// `ERR(EBUSY)`: the device's queue is full.
    Busy,
    /// `ERR(EPARAM)`.
    Param,
    /// `ERR(ELENGTH)`.
    Length,
    /// `ERR(EMODULATION)`.
    Modulation,
    /// `ERR(EUNKNOWN_CMD)`.
    UnknownCmd,
    /// `ERR(ERADIO)`.
    Radio,
    /// `ERR(EFRAME)`.
    Frame,
    /// `ERR(EINTERNAL)`.
    Internal,
    /// `ERR` with a code that is not assigned.
    UnknownCode(u16),
    /// Channel activity was detected and nothing went on the air.
    ChannelBusy,
    /// A queued transmission was cancelled before it went on the air.
    Cancelled,
    /// A command did not complete before its deadline.
    Timeout { what: &'static str },
    /// The transport closed.
    TransportClosed(String),
    /// The reader ended while a command waited for its answer.
    ReaderExited,
    /// An inbound frame was corrupted.
    BadFrame(String),
    /// An outbound frame could not be encoded.
    EncodeFailed(String),
    /// The device cannot run the requested configuration.
    ConfigNotSupported { reason: String },
    /// An I/O error of the transport.
    Io(std::io::Error),
    /// Any other failure.
    Other(String),
}

/// The result of an operation of the client.
pub type ClientResult<T> = Result<T, ClientError>;

/// An error, its texts as sequences of characters.
pub enum ErrorView {
    NotConfigured,
    Busy,
    Param,
    Length,
    Modulation,
    UnknownCmd,
    Radio,
    Frame,
    Internal,
    UnknownCode(u16),
    ChannelBusy,
    Cancelled,
    Timeout { what: Seq<char> },
    TransportClosed(Seq<char>),
    ReaderExited,
    BadFrame(Seq<char>),
    EncodeFailed(Seq<char>),
    ConfigNotSupported { reason: Seq<char> },
    Io(std::io::Error),
    Other(Seq<char>),
}

impl View for ClientError {
    type V = ErrorView;

    open spec fn view(&self) -> ErrorView {
        match self {
            ClientError::NotConfigured => ErrorView::NotConfigured,
            ClientError::Busy => ErrorView::Busy,
            ClientError::Param => ErrorView::Param,
            ClientError::Length => ErrorView::Length,
            ClientError::Modulation => ErrorView::Modulation,
            ClientError::UnknownCmd => ErrorView::UnknownCmd,
            ClientError::Radio => ErrorView::Radio,
            ClientError::Frame => ErrorView::Frame,
            ClientError::Internal => ErrorView::Internal,
            ClientError::UnknownCode(c) => ErrorView::UnknownCode(*c),
            ClientError::ChannelBusy => ErrorView::ChannelBusy,
            ClientError::Cancelled => ErrorView::Cancelled,
            ClientError::Timeout { what } => ErrorView::Timeout { what: what@ },
            ClientError::TransportClosed(s) => ErrorView::TransportClosed(s@),
            ClientError::ReaderExited => ErrorView::ReaderExited,
            ClientError::BadFrame(s) => ErrorView::BadFrame(s@),
            ClientError::EncodeFailed(s) => ErrorView::EncodeFailed(s@),
            ClientError::ConfigNotSupported { reason } => ErrorView::ConfigNotSupported { reason: reason@ },
            ClientError::Io(e) => ErrorView::Io(*e),
            ClientError::Other(s) => ErrorView::Other(s@),
        }
    }
}

/// The result of an operation, its error as a view.
pub open spec fn result_view<T>(r: ClientResult<T>) -> Result<T, ErrorView> {
    match r {
        Ok(v) => Ok(v),
        Err(e) => Err(e@),
    }
}

impl ErrorView {
    /// A repetition with a fresh tag may succeed: the channel or the device's
    /// queue was busy.
    pub open spec fn retryable(self) -> bool {
        self is ChannelBusy || self is Busy
    }

    /// The error for an error code of the device.
    pub open spec fn of_code(code: ErrorCode) -> ErrorView {
        match code {
            ErrorCode::ENotConfigured => ErrorView::NotConfigured,
            ErrorCode::EBusy => ErrorView::Busy,
            ErrorCode::EParam => ErrorView::Param,
            ErrorCode::ELength => ErrorView::Length,
            ErrorCode::EModulation => ErrorView::Modulation,
            ErrorCode::EUnknownCmd => ErrorView::UnknownCmd,
            ErrorCode::ERadio => ErrorView::Radio,
            ErrorCode::EFrame => ErrorView::Frame,
            ErrorCode::EInternal => ErrorView::Internal,
            ErrorCode::Unknown(raw) => ErrorView::UnknownCode(raw),
        }
    }
}

/// The text of an error that is not an I/O error.
pub open spec fn message_of(e: ErrorView) -> Seq<char> {
    match e {
        ErrorView::NotConfigured => "device is not configured (ENOTCONFIGURED)"@,
        ErrorView::Busy => "firmware TX queue is full (EBUSY)"@,
        ErrorView::Param => "parameter out of range (EPARAM)"@,
        ErrorView::Length => "payload length wrong (ELENGTH)"@,
        ErrorView::Modulation => "modulation not supported (EMODULATION)"@,
        ErrorView::UnknownCmd => "unknown command (EUNKNOWN_CMD)"@,
        ErrorView::Radio => "radio hardware error (ERADIO)"@,
        ErrorView::Frame => "framing error (EFRAME)"@,
        ErrorView::Internal => "firmware internal error (EINTERNAL)"@,
        ErrorView::UnknownCode(c) => "unknown error code 0x"@ + hex(c as nat, 4),
        ErrorView::ChannelBusy => "channel busy — CAD detected activity"@,
        ErrorView::Cancelled => "TX cancelled before airtime"@,
        ErrorView::Timeout { what } => "timed out waiting for "@ + what,
        ErrorView::TransportClosed(s) => "transport closed: "@ + s,
        ErrorView::ReaderExited => "session reader exited"@,
        ErrorView::BadFrame(s) => "inbound frame corrupted: "@ + s,
        ErrorView::EncodeFailed(s) => "frame encode failed: "@ + s,
        ErrorView::ConfigNotSupported { reason } => "config not supported: "@ + reason,
        ErrorView::Io(_) => "I/O error: "@,
        ErrorView::Other(s) => s,
    }
}

/// The text that `std::io::Error` displays. It comes from the operating
/// system or from whoever made the error, and nothing is claimed of it.
#[verifier::external_body]
fn io_error_text(e: &std::io::Error) -> (r: String) {
    format!("{e}")
}

impl ClientError {
    /// True where a repetition with a fresh tag is in order.
    #[must_use]
    pub fn is_retryable(&self) -> (r: bool)
        ensures
            r == self@.retryable(),
    {
        matches!(self, ClientError::ChannelBusy | ClientError::Busy)
    }

    /// The error for an error code of the device.
    #[must_use]
    pub fn from_wire(code: ErrorCode) -> (r: ClientError)
        ensures
            r@ == ErrorView::of_code(code),
    {
        match code {
            ErrorCode::ENotConfigured => ClientError::NotConfigured,
            ErrorCode::EBusy => ClientError::Busy,
            ErrorCode::EParam => ClientError::Param,
            ErrorCode::ELength => ClientError::Length,
            ErrorCode::EModulation => ClientError::Modulation,
            ErrorCode::EUnknownCmd => ClientError::UnknownCmd,
            ErrorCode::ERadio => ClientError::Radio,
            ErrorCode::EFrame => ClientError::Frame,
            ErrorCode::EInternal => ClientError::Internal,
            ErrorCode::Unknown(raw) => ClientError::UnknownCode(raw),
        }
    }

    /// The text of the error, for a person to read. That of an I/O error ends
    /// with whatever the operating system says.
    pub fn message(&self) -> (r: String)
        ensures
            !(self@ is Io) ==> r@ == message_of(self@),
            self@ is Io ==> exists|text: Seq<char>| r@ == #[trigger] ("I/O error: "@ + text),
    {
        match self {
            ClientError::NotConfigured => "device is not configured (ENOTCONFIGURED)".to_owned(),
            ClientError::Busy => "firmware TX queue is full (EBUSY)".to_owned(),
            ClientError::Param => "parameter out of range (EPARAM)".to_owned(),
            ClientError::Length => "payload length wrong (ELENGTH)".to_owned(),
            ClientError::Modulation => "modulation not supported (EMODULATION)".to_owned(),
            ClientError::UnknownCmd => "unknown command (EUNKNOWN_CMD)".to_owned(),
            ClientError::Radio => "radio hardware error (ERADIO)".to_owned(),
            ClientError::Frame => "framing error (EFRAME)".to_owned(),
            ClientError::Internal => "firmware internal error (EINTERNAL)".to_owned(),
            ClientError::UnknownCode(c) => {
                let mut s = "unknown error code 0x".to_owned();
                push_hex(&mut s, *c as u64, 4);
                s
            },
            ClientError::ChannelBusy => "channel busy — CAD detected activity".to_owned(),
            ClientError::Cancelled => "TX cancelled before airtime".to_owned(),
            ClientError::Timeout { what } => "timed out waiting for ".to_owned().concat(what),
            ClientError::TransportClosed(s) => "transport closed: ".to_owned().concat(s.as_str()),
            ClientError::ReaderExited => "session reader exited".to_owned(),
            ClientError::BadFrame(s) => "inbound frame corrupted: ".to_owned().concat(s.as_str()),
            ClientError::EncodeFailed(s) => "frame encode failed: ".to_owned().concat(s.as_str()),
            ClientError::ConfigNotSupported { reason } => "config not supported: ".to_owned().concat(reason.as_str()),
            ClientError::Io(e) => {
                let text = io_error_text(e);
                "I/O error: ".to_owned().concat(text.as_str())
            },
            ClientError::Other(s) => s.clone(),
        }
    }

    /// The record of an I/O error whose text is `text`.
    pub fn io_record(text: &str) -> (r: ClientError)
        ensures
            r@ == ErrorView::Other("io: "@ + text@),
    {
        let mut s = "io: ".to_owned();
        s.append(text);
        ClientError::Other(s)
    }

    /// A second error of the same kind, for a log. An I/O error, which cannot
    /// be copied, is recorded by its text.
    pub fn clone_kind(&self) -> (r: ClientError)
        ensures
            !(self@ is Io) ==> r@ == self@,
            self@ is Io ==> exists|text: Seq<char>| r@ == ErrorView::Other(#[trigger] ("io: "@ + text)),
    {
        match self {
            ClientError::NotConfigured => ClientError::NotConfigured,
            ClientError::Busy => ClientError::Busy,
            ClientError::Param => ClientError::Param,
            ClientError::Length => ClientError::Length,
            ClientError::Modulation => ClientError::Modulation,
            ClientError::UnknownCmd => ClientError::UnknownCmd,
            ClientError::Radio => ClientError::Radio,
            ClientError::Frame => ClientError::Frame,
            ClientError::Internal => ClientError::Internal,
            ClientError::UnknownCode(c) => ClientError::UnknownCode(*c),
            ClientError::ChannelBusy => ClientError::ChannelBusy,
            ClientError::Cancelled => ClientError::Cancelled,
            ClientError::Timeout { what } => ClientError::Timeout { what: *what },
            ClientError::TransportClosed(s) => ClientError::TransportClosed(s.clone()),
            ClientError::ReaderExited => ClientError::ReaderExited,
            ClientError::BadFrame(s) => ClientError::BadFrame(s.clone()),
            ClientError::EncodeFailed(s) => ClientError::EncodeFailed(s.clone()),
            ClientError::ConfigNotSupported { reason } => ClientError::ConfigNotSupported { reason: reason.clone() },
            ClientError::Io(e) => {
                let text = io_error_text(e);
                ClientError::io_record(text.as_str())
            },
            ClientError::Other(s) => ClientError::Other(s.clone()),
        }
    }
}

impl From<std::io::Error> for ClientError {
    fn from(e: std::io::Error) -> (r: ClientError) {
        ClientError::Io(e)
    }
}

impl vstd::std_specs::convert::FromSpecImpl<std::io::Error> for ClientError {
    open spec fn obeys_from_spec() -> bool {
        true
    }

    open spec fn from_spec(e: std::io::Error) -> ClientError {
        ClientError::Io(e)
    }
}

/// What a retry is for: of the errors that a device's error code stands for,
/// only a full queue may be repeated.
pub proof fn only_busy_code_is_retryable(code: ErrorCode)
    ensures
        ErrorView::of_code(code).retryable() <==> code is EBusy,
{
}

/// No information is lost: two error codes on the wire that differ give two
/// errors that differ, the ones that are not assigned included.
pub proof fn error_codes_stay_apart(v: u16, w: u16)
    requires
        v != w,
    ensures
        ErrorView::of_code(error_code_of(v as int)) != ErrorView::of_code(error_code_of(w as int)),
{
}

/// Each error of the device is known by its number on the wire, and a number
/// that is not assigned is handed on as it is.
pub proof fn error_numbers(v: u16)
    ensures
        ({
            let e = ErrorView::of_code(error_code_of(v as int));
            &&& e is Param <==> v == 0x0001
            &&& e is Length <==> v == 0x0002
            &&& e is NotConfigured <==> v == 0x0003
            &&& e is Modulation <==> v == 0x0004
            &&& e is UnknownCmd <==> v == 0x0005
            &&& e is Busy <==> v == 0x0006
            &&& e is Radio <==> v == 0x0101
            &&& e is Frame <==> v == 0x0102
            &&& e is Internal <==> v == 0x0103
            &&& e is UnknownCode <==> v == 0 || 6 < v < 0x0101 || 0x0103 < v
            &&& e is UnknownCode ==> e == ErrorView::UnknownCode(v)
        }),
{
}

/// Each error code stands for the error of the same name.
pub proof fn error_code_names(code: ErrorCode)
    ensures
        ErrorView::of_code(code) is Param <==> code is EParam,
        ErrorView::of_code(code) is Length <==> code is ELength,
        ErrorView::of_code(code) is NotConfigured <==> code is ENotConfigured,
        ErrorView::of_code(code) is Modulation <==> code is EModulation,
        ErrorView::of_code(code) is UnknownCmd <==> code is EUnknownCmd,
        ErrorView::of_code(code) is Busy <==> code is EBusy,
        ErrorView::of_code(code) is Radio <==> code is ERadio,
        ErrorView::of_code(code) is Frame <==> code is EFrame,
        ErrorView::of_code(code) is Internal <==> code is EInternal,
        code matches ErrorCode::Unknown(raw) ==> ErrorView::of_code(code) == ErrorView::UnknownCode(raw),
{
}

/// A repetition is in order for a busy channel and for a full queue, and for
/// nothing else.
pub proof fn busy_means_try_again(e: ErrorView)
    ensures
        e.retryable() <==> e is ChannelBusy || e is Busy,
{
}

/// The text of an error says which one it is, and ends with what it carries.
pub proof fn error_texts(e: ErrorView)
    ensures
        e is NotConfigured ==> message_of(e) == "device is not configured (ENOTCONFIGURED)"@,
        e is Busy ==> message_of(e) == "firmware TX queue is full (EBUSY)"@,
        e is Param ==> message_of(e) == "parameter out of range (EPARAM)"@,
        e is Length ==> message_of(e) == "payload length wrong (ELENGTH)"@,
        e is Modulation ==> message_of(e) == "modulation not supported (EMODULATION)"@,
        e is UnknownCmd ==> message_of(e) == "unknown command (EUNKNOWN_CMD)"@,
        e is Radio ==> message_of(e) == "radio hardware error (ERADIO)"@,
        e is Frame ==> message_of(e) == "framing error (EFRAME)"@,
        e is Internal ==> message_of(e) == "firmware internal error (EINTERNAL)"@,
        e matches ErrorView::UnknownCode(c) ==> message_of(e) == "unknown error code 0x"@ + hex(c as nat, 4),
        e is ChannelBusy ==> message_of(e) == "channel busy — CAD detected activity"@,
        e is Cancelled ==> message_of(e) == "TX cancelled before airtime"@,
        e matches ErrorView::Timeout { what } ==> message_of(e) == "timed out waiting for "@ + what,
        e matches ErrorView::TransportClosed(t) ==> message_of(e) == "transport closed: "@ + t,
        e is ReaderExited ==> message_of(e) == "session reader exited"@,
        e matches ErrorView::BadFrame(t) ==> message_of(e) == "inbound frame corrupted: "@ + t,
        e matches ErrorView::EncodeFailed(t) ==> message_of(e) == "frame encode failed: "@ + t,
        e matches ErrorView::ConfigNotSupported { reason } ==> message_of(e) == "config not supported: "@ + reason,
        e matches ErrorView::Other(t) ==> message_of(e) == t,
{
}

/// An error keeps its kind and what it carries in the view that contracts
/// speak of.
pub proof fn views_keep_errors(e: ClientError)
    ensures
        e@ is NotConfigured <==> e is NotConfigured,
        e@ is Busy <==> e is Busy,
        e@ is Param <==> e is Param,
        e@ is Length <==> e is Length,
        e@ is Modulation <==> e is Modulation,
        e@ is UnknownCmd <==> e is UnknownCmd,
        e@ is Radio <==> e is Radio,
        e@ is Frame <==> e is Frame,
        e@ is Internal <==> e is Internal,
        e@ is ChannelBusy <==> e is ChannelBusy,
        e@ is Cancelled <==> e is Cancelled,
        e@ is ReaderExited <==> e is ReaderExited,
        e matches ClientError::UnknownCode(c) ==> e@ == ErrorView::UnknownCode(c),
        e matches ClientError::Timeout { what } ==> e@ == (ErrorView::Timeout { what: what@ }),
        e matches ClientError::TransportClosed(t) ==> e@ == ErrorView::TransportClosed(t@),
        e matches ClientError::BadFrame(t) ==> e@ == ErrorView::BadFrame(t@),
        e matches ClientError::EncodeFailed(t) ==> e@ == ErrorView::EncodeFailed(t@),
        e matches ClientError::ConfigNotSupported { reason } ==> e@ == (ErrorView::ConfigNotSupported { reason: reason@ }),
        e matches ClientError::Io(io) ==> e@ == ErrorView::Io(io),
        e matches ClientError::Other(t) ==> e@ == ErrorView::Other(t@),
        result_view(Err::<(), ClientError>(e)) == Err::<(), ErrorView>(e@),
        result_view(Ok::<(), ClientError>(())) == Ok::<(), ErrorView>(()),
{
}

} // verus!
