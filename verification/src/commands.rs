//! Commands to the device: the request of each, and what its answer means.

use std::time::Duration;

use vstd::prelude::*;

use crate::codec::{byte_of_flag, tx_flags_byte};
use crate::errors::{ClientError, ClientResult, ErrorView};
use crate::protocol::{
    Info, InfoView, Modulation, SetConfigResult, TxDonePayload, TxResult, MAX_PAYLOAD_FIELD, MAX_TX_PACKET,
    TYPE_GET_INFO, TYPE_PING, TYPE_RX_START, TYPE_RX_STOP, TYPE_SET_CONFIG, TYPE_TX,
};

verus! {

/// A command for the device, and how long to wait for its answer.
#[derive(Debug)]
pub struct Request {
    pub type_id: u8,
    pub payload: Vec<u8>,
    pub timeout: Duration,
}

/// A command, its payload as a sequence.
pub struct RequestView {
    pub type_id: u8,
    pub payload: Seq<u8>,
    pub timeout: Duration,
}

impl View for Request {
    type V = RequestView;

    open spec fn view(&self) -> RequestView {
        RequestView { type_id: self.type_id, payload: self.payload@, timeout: self.timeout }
    }
}

impl Request {
    /// The same request once more.
    pub fn copy(&self) -> (r: Request)
        ensures
            r@ == self@,
    {
        Request {
            type_id: self.type_id,
            payload: vstd::slice::slice_to_vec(self.payload.as_slice()),
            timeout: self.timeout,
        }
    }
}

/// The answer to one command.
#[derive(Debug)]
pub enum SessionResponse {
    /// `OK` without payload.
    Empty,
    /// `OK` to `GET_INFO`.
    Info(Info),
    /// `OK` to `SET_CONFIG`.
    SetConfig(SetConfigResult),
    /// `TX_DONE`.
    TxDone(TxDonePayload),
    /// `ERR`, or an answer that could not be read.
    Failed(ClientError),
}

/// The answer to one command, with views inside.
pub enum ResponseView {
    Empty,
    Info(InfoView),
    SetConfig(SetConfigResult),
    TxDone(TxDonePayload),
    Failed(ErrorView),
}

impl View for SessionResponse {
    type V = ResponseView;

    open spec fn view(&self) -> ResponseView {
        match self {
            SessionResponse::Empty => ResponseView::Empty,
            SessionResponse::Info(i) => ResponseView::Info(i@),
            SessionResponse::SetConfig(r) => ResponseView::SetConfig(*r),
            SessionResponse::TxDone(td) => ResponseView::TxDone(*td),
            SessionResponse::Failed(e) => ResponseView::Failed(e@),
        }
    }
}

/// What came of a command: its answer, or the error that kept it away.
pub open spec fn answer_view(r: ClientResult<SessionResponse>) -> Result<ResponseView, ErrorView> {
    match r {
        Ok(v) => Ok(v@),
        Err(e) => Err(e@),
    }
}

/// The duration that `std::time::Duration::from_secs` makes.
pub uninterp spec fn seconds(n: u64) -> Duration;

/// `std::time::Duration::from_secs`: the duration of `n` whole seconds.
#[verifier::external_body]
pub(crate) fn from_secs(n: u64) -> (r: Duration)
    ensures
        r == seconds(n),
{
    Duration::from_secs(n)
}

// ---------------------------------------------------------------------
// Requests
// ---------------------------------------------------------------------

/// A command without payload.
pub open spec fn plain_request(type_id: u8, timeout: Duration) -> RequestView {
    RequestView { type_id, payload: Seq::empty(), timeout }
}

fn plain(type_id: u8, timeout: Duration) -> (r: Request)
    ensures
        r@ == plain_request(type_id, timeout),
{
    let payload: Vec<u8> = Vec::new();
    assert(payload@ =~= Seq::<u8>::empty());
    Request { type_id, payload, timeout }
}

/// `PING`.
pub fn ping_request(timeout: Duration) -> (r: Request)
    ensures
        r@ == plain_request(TYPE_PING, timeout),
        r.type_id == 0x01,
        r.payload@.len() == 0,
        r.timeout == timeout,
{
    plain(TYPE_PING, timeout)
}

/// `GET_INFO`.
pub fn get_info_request(timeout: Duration) -> (r: Request)
    ensures
        r@ == plain_request(TYPE_GET_INFO, timeout),
        r.type_id == 0x02,
        r.payload@.len() == 0,
        r.timeout == timeout,
{
    plain(TYPE_GET_INFO, timeout)
}

/// `RX_START`.
pub fn rx_start_request(timeout: Duration) -> (r: Request)
    ensures
        r@ == plain_request(TYPE_RX_START, timeout),
        r.type_id == 0x05,
        r.payload@.len() == 0,
        r.timeout == timeout,
{
    plain(TYPE_RX_START, timeout)
}

/// `RX_STOP`.
pub fn rx_stop_request(timeout: Duration) -> (r: Request)
    ensures
        r@ == plain_request(TYPE_RX_STOP, timeout),
        r.type_id == 0x06,
        r.payload@.len() == 0,
        r.timeout == timeout,
{
    plain(TYPE_RX_STOP, timeout)
}

/// `SET_CONFIG` of a configuration; an error where it cannot be encoded.
pub open spec fn set_config_command(m: Modulation, timeout: Duration) -> Result<RequestView, ErrorView> {
    match m.payload() {
        Some(payload) => Ok(RequestView { type_id: TYPE_SET_CONFIG, payload, timeout }),
        None => Err(ErrorView::EncodeFailed("SyncWordTooLong"@)),
    }
}

/// `SET_CONFIG`.
pub fn set_config_request(m: &Modulation, timeout: Duration) -> (r: ClientResult<Request>)
    ensures
        request_view(r) == set_config_command(*m, timeout),
        r is Ok ==> r->Ok_0@.payload.len() <= MAX_PAYLOAD_FIELD,
{
    match m.encode() {
        Some(payload) => Ok(Request { type_id: TYPE_SET_CONFIG, payload, timeout }),
        None => Err(ClientError::EncodeFailed("SyncWordTooLong".to_owned())),
    }
}

/// A request that may fail to build.
pub open spec fn request_view(r: ClientResult<Request>) -> Result<RequestView, ErrorView> {
    match r {
        Ok(v) => Ok(v@),
        Err(e) => Err(e@),
    }
}

/// `TX` of a packet: a flag byte, then the packet. An empty packet is refused,
/// and so is one that is too long.
pub open spec fn transmit_command(data: Seq<u8>, skip_cad: bool, timeout: Duration) -> Result<RequestView, ErrorView> {
    if data.len() == 0 || data.len() > MAX_TX_PACKET {
        Err(ErrorView::Length)
    } else {
        Ok(RequestView { type_id: TYPE_TX, payload: seq![byte_of_flag(skip_cad)] + data, timeout })
    }
}

/// `TX`.
pub fn transmit_request(data: &[u8], skip_cad: bool, timeout: Duration) -> (r: ClientResult<Request>)
    ensures
        request_view(r) == transmit_command(data@, skip_cad, timeout),
        r is Ok ==> r->Ok_0@.payload.len() <= MAX_PAYLOAD_FIELD,
{
    if data.len() == 0 || data.len() > MAX_TX_PACKET {
        return Err(ClientError::Length);
    }
    let mut payload: Vec<u8> = Vec::new();
    payload.push(tx_flags_byte(skip_cad));
    let mut i: usize = 0;
    while i < data.len()
        invariant
            i <= data.len(),
            payload@ == seq![byte_of_flag(skip_cad)] + data@.take(i as int),
        decreases data.len() - i,
    {
        payload.push(data[i]);
        i = i + 1;
        assert(payload@ =~= seq![byte_of_flag(skip_cad)] + data@.take(i as int));
    }
    assert(data@.take(i as int) =~= data@);
    Ok(Request { type_id: TYPE_TX, payload, timeout })
}

/// The name of a command type.
pub open spec fn command_name(type_id: u8) -> Seq<char> {
    if type_id == TYPE_PING {
        "PING"@
    } else if type_id == TYPE_GET_INFO {
        "GET_INFO"@
    } else if type_id == TYPE_SET_CONFIG {
        "SET_CONFIG"@
    } else if type_id == TYPE_TX {
        "TX"@
    } else if type_id == TYPE_RX_START {
        "RX_START"@
    } else if type_id == TYPE_RX_STOP {
        "RX_STOP"@
    } else {
        "command"@
    }
}

/// The name of a command type, for the text of a timeout.
pub fn describe_cmd(type_id: u8) -> (r: &'static str)
    ensures
        r@ == command_name(type_id),
{
    match type_id {
        TYPE_PING => "PING",
        TYPE_GET_INFO => "GET_INFO",
        TYPE_SET_CONFIG => "SET_CONFIG",
        TYPE_TX => "TX",
        TYPE_RX_START => "RX_START",
        TYPE_RX_STOP => "RX_STOP",
        _ => "command",
    }
}

// ---------------------------------------------------------------------
// Answers
// ---------------------------------------------------------------------

/// The text of an answer of the wrong shape.
pub open spec fn unexpected_text(command: Seq<char>, shown: Seq<char>) -> Seq<char> {
    "unexpected "@ + command + " response: "@ + shown
}

/// `e` reports an answer of the wrong shape to `command`.
pub open spec fn is_unexpected(e: ErrorView, command: Seq<char>) -> bool {
    exists|shown: Seq<char>| e == ErrorView::Other(#[trigger] unexpected_text(command, shown))
}

/// The error for an answer of the wrong shape that reads `shown`.
pub fn unexpected_response(command: &str, shown: &str) -> (r: ClientError)
    ensures
        r@ == ErrorView::Other(unexpected_text(command@, shown@)),
        is_unexpected(r@, command@),
{
    let mut s = "unexpected ".to_owned();
    s.append(command);
    s.append(" response: ");
    s.append(shown);
    assert(s@ == unexpected_text(command@, shown@));
    ClientError::Other(s)
}

/// The derived `Debug` text of a response. The standard library does not fix
/// the format of derived texts, and nothing is claimed of it.
#[verifier::external_body]
fn debug_text(r: &SessionResponse) -> (text: String) {
    format!("{r:?}")
}

fn unexpected(command: &str, r: &SessionResponse) -> (e: ClientError)
    ensures
        is_unexpected(e@, command@),
{
    let shown = debug_text(r);
    unexpected_response(command, shown.as_str())
}

/// What a command without result makes of its answer: an empty `OK` is
/// success, an error is handed on, and any other shape is an error.
pub open spec fn unit_outcome(
    command: Seq<char>,
    answer: Result<ResponseView, ErrorView>,
    out: Result<(), ErrorView>,
) -> bool {
    match answer {
        Ok(ResponseView::Empty) => out == Ok::<(), ErrorView>(()),
        Ok(ResponseView::Failed(e)) => out == Err::<(), ErrorView>(e),
        Ok(_) => out is Err && is_unexpected(out->Err_0, command),
        Err(e) => out == Err::<(), ErrorView>(e),
    }
}

fn unit_reply(command: &str, answer: ClientResult<SessionResponse>) -> (r: ClientResult<()>)
    ensures
        unit_outcome(command@, answer_view(answer), crate::errors::result_view(r)),
{
    match answer {
        Ok(SessionResponse::Empty) => Ok(()),
        Ok(SessionResponse::Failed(e)) => Err(e),
        Ok(other) => Err(unexpected(command, &other)),
        Err(e) => Err(e),
    }
}

/// What the answer to `PING` means.
pub fn ping_reply(answer: ClientResult<SessionResponse>) -> (r: ClientResult<()>)
    ensures
        unit_outcome("PING"@, answer_view(answer), crate::errors::result_view(r)),
{
    unit_reply("PING", answer)
}

/// What the answer to `RX_START` means.
pub fn rx_start_reply(answer: ClientResult<SessionResponse>) -> (r: ClientResult<()>)
    ensures
        unit_outcome("RX_START"@, answer_view(answer), crate::errors::result_view(r)),
{
    unit_reply("RX_START", answer)
}

/// What the answer to `RX_STOP` means.
pub fn rx_stop_reply(answer: ClientResult<SessionResponse>) -> (r: ClientResult<()>)
    ensures
        unit_outcome("RX_STOP"@, answer_view(answer), crate::errors::result_view(r)),
{
    unit_reply("RX_STOP", answer)
}

/// What `GET_INFO` makes of its answer.
pub open spec fn info_outcome(answer: Result<ResponseView, ErrorView>, out: Result<InfoView, ErrorView>) -> bool {
    match answer {
        Ok(ResponseView::Info(i)) => out == Ok::<InfoView, ErrorView>(i),
        Ok(ResponseView::Failed(e)) => out == Err::<InfoView, ErrorView>(e),
        Ok(_) => out is Err && is_unexpected(out->Err_0, "GET_INFO"@),
        Err(e) => out == Err::<InfoView, ErrorView>(e),
    }
}

/// A device description or an error, with views inside.
pub open spec fn info_result_view(r: ClientResult<Info>) -> Result<InfoView, ErrorView> {
    match r {
        Ok(i) => Ok(i@),
        Err(e) => Err(e@),
    }
}

/// What the answer to `GET_INFO` means.
pub fn get_info_reply(answer: ClientResult<SessionResponse>) -> (r: ClientResult<Info>)
    ensures
        info_outcome(answer_view(answer), info_result_view(r)),
        r is Ok ==> answer == Ok::<SessionResponse, ClientError>(SessionResponse::Info(r->Ok_0)),
{
    match answer {
        Ok(SessionResponse::Info(i)) => Ok(i),
        Ok(SessionResponse::Failed(e)) => Err(e),
        Ok(other) => Err(unexpected("GET_INFO", &other)),
        Err(e) => Err(e),
    }
}

/// What `SET_CONFIG` makes of its answer.
pub open spec fn set_config_outcome(
    answer: Result<ResponseView, ErrorView>,
    out: Result<SetConfigResult, ErrorView>,
) -> bool {
    match answer {
        Ok(ResponseView::SetConfig(r)) => out == Ok::<SetConfigResult, ErrorView>(r),
        Ok(ResponseView::Failed(e)) => out == Err::<SetConfigResult, ErrorView>(e),
        Ok(_) => out is Err && is_unexpected(out->Err_0, "SET_CONFIG"@),
        Err(e) => out == Err::<SetConfigResult, ErrorView>(e),
    }
}

/// What the answer to `SET_CONFIG` means.
pub fn set_config_reply(answer: ClientResult<SessionResponse>) -> (r: ClientResult<SetConfigResult>)
    ensures
        set_config_outcome(answer_view(answer), crate::errors::result_view(r)),
{
    match answer {
        Ok(SessionResponse::SetConfig(r)) => Ok(r),
        Ok(SessionResponse::Failed(e)) => Err(e),
        Ok(other) => Err(unexpected("SET_CONFIG", &other)),
        Err(e) => Err(e),
    }
}

/// What `TX` makes of its answer: only a packet that went on the air is a
/// success.
pub open spec fn transmit_outcome(
    answer: Result<ResponseView, ErrorView>,
    out: Result<TxDonePayload, ErrorView>,
) -> bool {
    match answer {
        Ok(ResponseView::TxDone(td)) => out == match td.result {
            TxResult::Transmitted => Ok::<TxDonePayload, ErrorView>(td),
            TxResult::ChannelBusy => Err::<TxDonePayload, ErrorView>(ErrorView::ChannelBusy),
            TxResult::Cancelled => Err::<TxDonePayload, ErrorView>(ErrorView::Cancelled),
        },
        Ok(ResponseView::Failed(e)) => out == Err::<TxDonePayload, ErrorView>(e),
        Ok(_) => out is Err && is_unexpected(out->Err_0, "TX"@),
        Err(e) => out == Err::<TxDonePayload, ErrorView>(e),
    }
}

/// What the answer to `TX` means.
pub fn transmit_reply(answer: ClientResult<SessionResponse>) -> (r: ClientResult<TxDonePayload>)
    ensures
        transmit_outcome(answer_view(answer), crate::errors::result_view(r)),
{
    match answer {
        Ok(SessionResponse::TxDone(td)) => match td.result {
            TxResult::Transmitted => Ok(td),
            TxResult::ChannelBusy => Err(ClientError::ChannelBusy),
            TxResult::Cancelled => Err(ClientError::Cancelled),
        },
        Ok(SessionResponse::Failed(e)) => Err(e),
        Ok(other) => Err(unexpected("TX", &other)),
        Err(e) => Err(e),
    }
}

// ---------------------------------------------------------------------
// Laws
// ---------------------------------------------------------------------

/// A command without payload is its type and nothing else, and may take as
/// long as it was given.
pub proof fn plain_commands_carry_nothing(type_id: u8, timeout: Duration)
    ensures
        plain_request(type_id, timeout).type_id == type_id,
        plain_request(type_id, timeout).payload.len() == 0,
        plain_request(type_id, timeout).timeout == timeout,
{
}

/// A packet goes out whole: a `TX` is one flag byte, 1 exactly where the
/// channel is not to be listened to first and 0 otherwise, and then the
/// caller's bytes, unchanged. A packet of no bytes, or of more than 256, does
/// not go out, and is the only one that does not.
pub proof fn packet_goes_out_whole(data: Seq<u8>, skip_cad: bool, timeout: Duration)
    ensures
        transmit_command(data, skip_cad, timeout) is Ok <==> 1 <= data.len() <= 256,
        transmit_command(data, skip_cad, timeout) is Err ==> transmit_command(data, skip_cad, timeout)->Err_0 is Length,
        transmit_command(data, skip_cad, timeout) matches Ok(request) ==> {
            &&& request.type_id == 0x04
            &&& request.payload.len() == 1 + data.len()
            &&& skip_cad ==> request.payload[0] == 1
            &&& !skip_cad ==> request.payload[0] == 0
            &&& forall|i: int| 0 <= i < data.len() ==> #[trigger] request.payload[1 + i] == data[i]
            &&& request.timeout == timeout
        },
{
}

/// `SET_CONFIG` carries the payload of the configuration that it was given, and
/// is refused only where there is none.
pub proof fn config_goes_out_whole(m: Modulation, timeout: Duration)
    ensures
        set_config_command(m, timeout) is Ok <==> m.payload() is Some,
        set_config_command(m, timeout) matches Ok(request) ==> {
            &&& request.type_id == 0x03
            &&& Some(request.payload) == m.payload()
            &&& request.timeout == timeout
        },
        set_config_command(m, timeout) matches Err(e) ==> {
            &&& e == ErrorView::EncodeFailed("SyncWordTooLong"@)
            &&& m matches Modulation::FskGfsk(c) && c.sync_word_len > 8
        },
{
}

/// The commands go by the names that the protocol gives them.
pub proof fn command_names(type_id: u8)
    ensures
        type_id == 0x01 ==> command_name(type_id) == "PING"@,
        type_id == 0x02 ==> command_name(type_id) == "GET_INFO"@,
        type_id == 0x03 ==> command_name(type_id) == "SET_CONFIG"@,
        type_id == 0x04 ==> command_name(type_id) == "TX"@,
        type_id == 0x05 ==> command_name(type_id) == "RX_START"@,
        type_id == 0x06 ==> command_name(type_id) == "RX_STOP"@,
        type_id == 0 || type_id > 0x06 ==> command_name(type_id) == "command"@,
{
}

/// A transmission is a success exactly where the device says that the packet
/// was on the air, and then the caller gets what the device said of it. A busy
/// channel and a cancelled packet are errors; an error of the device or of the
/// way to it is handed on; and any other answer is an error.
pub proof fn only_airtime_is_success(
    answer: Result<ResponseView, ErrorView>,
    out: Result<TxDonePayload, ErrorView>,
    e: ErrorView,
    td: TxDonePayload,
)
    requires
        transmit_outcome(answer, out),
    ensures
        out is Ok <==> (answer matches Ok(ResponseView::TxDone(t)) && t.result is Transmitted),
        out == Ok::<TxDonePayload, ErrorView>(td) ==> answer == Ok::<ResponseView, ErrorView>(ResponseView::TxDone(td)),
        answer matches Ok(ResponseView::TxDone(t)) && t.result is ChannelBusy ==> out is Err && out->Err_0 is ChannelBusy,
        answer matches Ok(ResponseView::TxDone(t)) && t.result is Cancelled ==> out is Err && out->Err_0 is Cancelled,
        answer == Ok::<ResponseView, ErrorView>(ResponseView::Failed(e)) ==> out == Err::<TxDonePayload, ErrorView>(e),
        answer == Err::<ResponseView, ErrorView>(e) ==> out == Err::<TxDonePayload, ErrorView>(e),
        answer matches Ok(r) && !(r is TxDone) && !(r is Failed) ==> out is Err && is_unexpected(out->Err_0, "TX"@),
{
}

/// A command without result succeeds exactly where it is answered by an empty
/// `OK`; errors are handed on, and any other answer is an error.
pub proof fn only_ok_is_success(
    command: Seq<char>,
    answer: Result<ResponseView, ErrorView>,
    out: Result<(), ErrorView>,
    e: ErrorView,
)
    requires
        unit_outcome(command, answer, out),
    ensures
        out is Ok <==> (answer matches Ok(r) && r is Empty),
        answer == Ok::<ResponseView, ErrorView>(ResponseView::Failed(e)) ==> out == Err::<(), ErrorView>(e),
        answer == Err::<ResponseView, ErrorView>(e) ==> out == Err::<(), ErrorView>(e),
        answer matches Ok(r) && !(r is Empty) && !(r is Failed) ==> out is Err && is_unexpected(out->Err_0, command),
{
}

/// The caller of `GET_INFO` gets what the device said of itself, and nothing
/// else is a success.
pub proof fn only_info_is_success(
    answer: Result<ResponseView, ErrorView>,
    out: Result<InfoView, ErrorView>,
    e: ErrorView,
    info: InfoView,
)
    requires
        info_outcome(answer, out),
    ensures
        out == Ok::<InfoView, ErrorView>(info) <==> answer == Ok::<ResponseView, ErrorView>(ResponseView::Info(info)),
        answer == Ok::<ResponseView, ErrorView>(ResponseView::Failed(e)) ==> out == Err::<InfoView, ErrorView>(e),
        answer == Err::<ResponseView, ErrorView>(e) ==> out == Err::<InfoView, ErrorView>(e),
        answer matches Ok(r) && !(r is Info) && !(r is Failed) ==> out is Err && is_unexpected(out->Err_0, "GET_INFO"@),
{
}

/// The caller of `SET_CONFIG` gets what the device reported, and nothing else
/// is a success.
pub proof fn only_reported_config_is_success(
    answer: Result<ResponseView, ErrorView>,
    out: Result<SetConfigResult, ErrorView>,
    e: ErrorView,
    config: SetConfigResult,
)
    requires
        set_config_outcome(answer, out),
    ensures
        out == Ok::<SetConfigResult, ErrorView>(config) <==> answer == Ok::<ResponseView, ErrorView>(
            ResponseView::SetConfig(config),
        ),
        answer == Ok::<ResponseView, ErrorView>(ResponseView::Failed(e)) ==> out == Err::<SetConfigResult, ErrorView>(e),
        answer == Err::<ResponseView, ErrorView>(e) ==> out == Err::<SetConfigResult, ErrorView>(e),
        answer matches Ok(r) && !(r is SetConfig) && !(r is Failed) ==> out is Err && is_unexpected(
            out->Err_0,
            "SET_CONFIG"@,
        ),
{
}

/// The error for an answer of the wrong shape names the command and ends with
/// the answer.
pub proof fn unexpected_answers_are_named(command: Seq<char>, shown: Seq<char>, e: ErrorView)
    ensures
        unexpected_text(command, shown) == "unexpected "@ + command + " response: "@ + shown,
        is_unexpected(e, command) ==> exists|t: Seq<char>|
            e == ErrorView::Other(#[trigger] ("unexpected "@ + command + " response: "@ + t)),
{
    if is_unexpected(e, command) {
        let t = choose|t: Seq<char>| e == ErrorView::Other(#[trigger] unexpected_text(command, t));
        assert(e == ErrorView::Other("unexpected "@ + command + " response: "@ + t));
    }
}

/// What contracts say of an answer is what the answer is.
pub proof fn views_keep_answers(r: SessionResponse, e: ClientError)
    ensures
        r is Empty <==> r@ is Empty,
        r matches SessionResponse::Info(i) ==> r@ == ResponseView::Info(i@),
        r matches SessionResponse::SetConfig(c) ==> r@ == ResponseView::SetConfig(c),
        r matches SessionResponse::TxDone(td) ==> r@ == ResponseView::TxDone(td),
        r matches SessionResponse::Failed(f) ==> r@ == ResponseView::Failed(f@),
        answer_view(Ok(r)) == Ok::<ResponseView, ErrorView>(r@),
        answer_view(Err(e)) == Err::<ResponseView, ErrorView>(e@),
{
}

/// What contracts say of a request is what the request is.
pub proof fn views_keep_requests(r: Request, i: Info, e: ClientError)
    ensures
        r@.type_id == r.type_id,
        r@.payload == r.payload@,
        r@.timeout == r.timeout,
        request_view(Ok(r)) == Ok::<RequestView, ErrorView>(r@),
        request_view(Err(e)) == Err::<RequestView, ErrorView>(e@),
        info_result_view(Ok(i)) == Ok::<InfoView, ErrorView>(i@),
        info_result_view(Err(e)) == Err::<InfoView, ErrorView>(e@),
{
}

} // verus!
