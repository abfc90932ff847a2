//! A session with one device: the tag of each command, the answers that come
//! back by tag, and the events that come without one.
//!
//! `Session` holds the whole state and does no I/O. Whoever owns the transport
//! writes what [`Session::send_command`] encodes, hands every read to
//! [`Session::on_read`], and wakes the callers that it names.

use std::collections::{HashMap, VecDeque};

use vstd::prelude::*;
use vstd::std_specs::iter::IteratorSpec;

use donglora_protocol::FrameDecoder;

use crate::codec::{decode_err, decode_rx, decode_tx_done, err_payload, error_code_of, rx_payload, tx_done_payload};
use crate::commands::{answer_view, command_name, describe_cmd, Request, ResponseView, SessionResponse};
use crate::errors::{ClientError, ClientResult, ErrorView};
use crate::frame::{
    decoded_frame, decoder_holds, encode_frame, encoded_frame, feed, feeding_in_pieces, frame_round_trip, frame_views,
    is_wire_frame, new_decoder, zero_resynchronises, Accumulator, FrameView, FrameWork,
};
use crate::protocol::{
    Modulation, Owner, RxPayload, RxView, SetConfigResult, SetConfigResultCode, MAX_PAYLOAD_FIELD, TYPE_ERR, TYPE_OK,
    TYPE_RX, TYPE_SET_CONFIG, TYPE_TX, TYPE_TX_DONE,
};
use crate::set_config::{answer_bytes, config_round_trip, ok_payload, OkPayload, OkView};
use crate::text::{hex, push_hex};

verus! {

broadcast use vstd::std_specs::hash::group_hash_axioms;

/// A command that waits for its answer. For `TX` the intermediate `OK` is
/// absorbed and the waiter is woken by `TX_DONE` or an early `ERR`; for every
/// other command, by the first answer.
pub struct Pending<W> {
    pub cmd_type: u8,
    pub waker: W,
}

/// A caller to wake, and the answer to its command.
pub struct Wake<W> {
    pub waker: W,
    pub response: SessionResponse,
}

/// A caller to wake, the answer as a view.
pub struct WakeView<W> {
    pub waker: W,
    pub response: ResponseView,
}

impl<W> View for Wake<W> {
    type V = WakeView<W>;

    open spec fn view(&self) -> WakeView<W> {
        WakeView { waker: self.waker, response: self.response@ }
    }
}

/// The views of a list of callers to wake.
pub open spec fn wake_views<W>(s: Seq<Wake<W>>) -> Seq<WakeView<W>> {
    s.map_values(|w: Wake<W>| w@)
}

/// A session with one device. `W` is what it takes to wake a caller.
pub struct Session<W> {
    next_tag: u16,
    pending: HashMap<u16, Pending<W>>,
    rx_queue: VecDeque<RxPayload>,
    async_errors: Vec<ClientError>,
    decoder: FrameDecoder,
    closed: bool,
    reader_done: bool,
}

/// The state of a session.
#[verifier::ext_equal]
pub struct SessionView<W> {
    /// The tag of the next command.
    pub next_tag: u16,
    /// The commands that wait, by tag.
    pub pending: Map<u16, Pending<W>>,
    /// The received packets that nobody has taken yet, oldest first.
    pub rx_queue: Seq<RxView>,
    /// The errors that came without a tag and were not drained yet.
    pub async_errors: Seq<ErrorView>,
    /// The inbound bytes since the last frame.
    pub stream: Accumulator,
    /// `close` was called.
    pub closed: bool,
    /// Nothing more will be read.
    pub reader_done: bool,
}

/// A command on its way: its tag, and the bytes to write.
#[derive(Debug)]
pub struct Sent {
    pub tag: u16,
    pub wire: Vec<u8>,
}

impl Sent {
    /// The bytes are one frame with this type, tag and payload, which a
    /// decoder reads back.
    pub open spec fn carries(self, type_id: u8, tag: u16, payload: Seq<u8>) -> bool {
        &&& self.tag == tag
        &&& self.wire@ == encoded_frame(type_id, tag, payload)
        &&& is_wire_frame(self.wire@)
        &&& decoded_frame(self.wire@.drop_last()) == Some((type_id, tag, payload))
    }
}

/// What came of a command that was sent.
#[derive(Debug)]
pub enum Completion {
    /// The caller was woken with an answer.
    Answered(SessionResponse),
    /// The waker went away without an answer.
    Dropped,
    /// No answer came in time.
    TimedOut,
    /// The command could not be written.
    WriteFailed(std::io::Error),
}

impl Completion {
    /// What the caller learns.
    pub open spec fn outcome(self, type_id: u8) -> Result<ResponseView, ErrorView> {
        match self {
            Completion::Answered(response) => Ok(response@),
            Completion::Dropped => Err(ErrorView::ReaderExited),
            Completion::TimedOut => Err(ErrorView::Timeout { what: command_name(type_id) }),
            Completion::WriteFailed(e) => Err(ErrorView::Io(e)),
        }
    }
}

/// What there is to receive.
#[derive(Debug)]
pub enum RxStep {
    /// A packet.
    Packet(RxPayload),
    /// No packet yet.
    Wait,
    /// No packet, and none will come.
    Ended,
}

/// The bytes of a read.
pub open spec fn read_view(data: Option<&[u8]>) -> Option<Seq<u8>> {
    match data {
        Some(b) => Some(b@),
        None => None,
    }
}

/// What a command of type `cmd_type` is answered by a frame with its tag.
pub open spec fn tagged_answer(cmd_type: u8, type_id: u8, payload: Seq<u8>) -> ResponseView {
    if type_id == TYPE_OK {
        match ok_payload(cmd_type, payload) {
            Some(OkView::Empty) => ResponseView::Empty,
            Some(OkView::Info(i)) => ResponseView::Info(i),
            Some(OkView::SetConfig(r)) => ResponseView::SetConfig(r),
            None => ResponseView::Failed(ErrorView::BadFrame("OK payload did not parse for command context"@)),
        }
    } else if type_id == TYPE_ERR {
        match err_payload(payload) {
            Some(code) => ResponseView::Failed(ErrorView::of_code(code)),
            None => ResponseView::Failed(ErrorView::BadFrame("bad ERR payload"@)),
        }
    } else if type_id == TYPE_TX_DONE {
        match tx_done_payload(payload) {
            Some(td) => ResponseView::TxDone(td),
            None => ResponseView::Failed(ErrorView::BadFrame("bad TX_DONE payload"@)),
        }
    } else {
        ResponseView::Failed(ErrorView::BadFrame("unexpected tagged frame type 0x"@ + hex(type_id as nat, 2)))
    }
}

/// The first `OK` to a `TX` only says that the packet is queued.
pub open spec fn absorbed(cmd_type: u8, type_id: u8) -> bool {
    cmd_type == TYPE_TX && type_id == TYPE_OK
}

impl<W> SessionView<W> {
    /// The tag after `tag`: tags count up, and 0 is skipped.
    pub open spec fn tag_after(tag: u16) -> u16 {
        if tag == 0xffff {
            1
        } else {
            (tag + 1) as u16
        }
    }

    /// The session after its next tag was taken.
    pub open spec fn after_alloc(self) -> SessionView<W> {
        SessionView { next_tag: Self::tag_after(self.next_tag), ..self }
    }

    /// The session after `n` tags were taken.
    pub open spec fn after_allocs(self, n: nat) -> SessionView<W>
        decreases n,
    {
        if n == 0 {
            self
        } else {
            self.after_allocs((n - 1) as nat).after_alloc()
        }
    }

    /// A new session.
    pub open spec fn start() -> SessionView<W> {
        SessionView {
            next_tag: 1,
            pending: Map::empty(),
            rx_queue: Seq::empty(),
            async_errors: Seq::empty(),
            stream: Accumulator::empty(),
            closed: false,
            reader_done: false,
        }
    }

    /// 0 is the tag of events, never that of a command.
    pub open spec fn wf(self) -> bool {
        &&& self.next_tag != 0
        &&& !self.pending.dom().contains(0)
        &&& self.pending.dom().finite()
    }

    /// The frame ends the wait of a command.
    pub open spec fn answers(self, type_id: u8, tag: u16) -> bool {
        tag != 0 && self.pending.dom().contains(tag) && !absorbed(self.pending[tag].cmd_type, type_id)
    }

    /// The session after an error without a tag.
    pub open spec fn with_async_error(self, e: ErrorView) -> SessionView<W> {
        SessionView { async_errors: self.async_errors.push(e), ..self }
    }

    /// The session after an event, a frame with tag 0: `RX` is queued, `ERR`
    /// is noted, and any other type is dropped.
    pub open spec fn after_event(self, type_id: u8, payload: Seq<u8>) -> SessionView<W> {
        if type_id == TYPE_RX {
            match rx_payload(payload) {
                Some(rx) => SessionView { rx_queue: self.rx_queue.push(rx), ..self },
                None => self.with_async_error(ErrorView::BadFrame("bad RX payload"@)),
            }
        } else if type_id == TYPE_ERR {
            match err_payload(payload) {
                Some(code) => self.with_async_error(ErrorView::of_code(code)),
                None => self.with_async_error(ErrorView::BadFrame("bad async ERR payload"@)),
            }
        } else {
            self
        }
    }

    /// The session after an inbound frame.
    pub open spec fn after_frame(self, frame: FrameView) -> SessionView<W> {
        match frame {
            FrameView::Bad => self.with_async_error(ErrorView::BadFrame("inbound frame failed CRC or COBS"@)),
            FrameView::Decoded { type_id, tag, payload } => if tag == 0 {
                self.after_event(type_id, payload)
            } else if self.answers(type_id, tag) {
                SessionView { pending: self.pending.remove(tag), ..self }
            } else {
                self
            },
        }
    }

    /// The callers that an inbound frame wakes: the one with its tag, if it
    /// waits for such a frame.
    pub open spec fn woken_by(self, frame: FrameView) -> Seq<WakeView<W>> {
        match frame {
            FrameView::Bad => Seq::empty(),
            FrameView::Decoded { type_id, tag, payload } => if self.answers(type_id, tag) {
                seq![
                    WakeView {
                        waker: self.pending[tag].waker,
                        response: tagged_answer(self.pending[tag].cmd_type, type_id, payload),
                    },
                ]
            } else {
                Seq::empty()
            },
        }
    }

    /// The session after a list of frames.
    pub open spec fn after_frames(self, frames: Seq<FrameView>) -> SessionView<W>
        decreases frames.len(),
    {
        if frames.len() == 0 {
            self
        } else {
            self.after_frames(frames.drop_last()).after_frame(frames.last())
        }
    }

    /// The callers that a list of frames wakes, in order.
    pub open spec fn woken_by_frames(self, frames: Seq<FrameView>) -> Seq<WakeView<W>>
        decreases frames.len(),
    {
        if frames.len() == 0 {
            Seq::empty()
        } else {
            self.woken_by_frames(frames.drop_last()) + self.after_frames(frames.drop_last()).woken_by(frames.last())
        }
    }

    /// The session after inbound bytes.
    pub open spec fn after_bytes(self, data: Seq<u8>) -> SessionView<W> {
        SessionView { stream: self.stream.fed(data), ..self.after_frames(self.stream.frames(data)) }
    }

    /// The callers that inbound bytes wake.
    pub open spec fn woken_by_bytes(self, data: Seq<u8>) -> Seq<WakeView<W>> {
        self.woken_by_frames(self.stream.frames(data))
    }

    /// The session after a command was sent, or could not be encoded: either
    /// way its tag is used up.
    pub open spec fn after_send(self, cmd_type: u8, payload: Seq<u8>, waker: W) -> SessionView<W> {
        if self.closed {
            self
        } else if payload.len() <= MAX_PAYLOAD_FIELD {
            SessionView {
                next_tag: Self::tag_after(self.next_tag),
                pending: self.pending.insert(self.next_tag, Pending { cmd_type, waker }),
                ..self
            }
        } else {
            SessionView {
                next_tag: Self::tag_after(self.next_tag),
                pending: self.pending.remove(self.next_tag),
                ..self
            }
        }
    }

    /// The session after a command is given up.
    pub open spec fn without(self, tag: u16) -> SessionView<W> {
        SessionView { pending: self.pending.remove(tag), ..self }
    }

    /// The session after a read. A read that brings nothing is the last.
    pub open spec fn after_read(self, data: Option<Seq<u8>>) -> SessionView<W> {
        match data {
            Some(b) if b.len() > 0 => self.after_bytes(b),
            _ => self.after_last_read(),
        }
    }

    /// The session after the last read: nobody waits any more.
    pub open spec fn after_last_read(self) -> SessionView<W> {
        SessionView { pending: Map::empty(), reader_done: true, ..self }
    }

    /// The session after the oldest packet was taken, where there is one.
    pub open spec fn after_recv(self) -> SessionView<W> {
        SessionView {
            rx_queue: if self.rx_queue.len() > 0 {
                self.rx_queue.drop_first()
            } else {
                self.rx_queue
            },
            ..self
        }
    }

    /// The packets that taking the oldest one hands out: one or none.
    pub open spec fn received(self) -> Seq<RxView> {
        self.rx_queue.take(
            if self.rx_queue.len() > 0 {
                1
            } else {
                0
            },
        )
    }

    /// The session after `close`.
    pub open spec fn after_close(self) -> SessionView<W> {
        SessionView { pending: Map::empty(), closed: true, reader_done: true, ..self }
    }

    /// `wakes` wakes every waiting caller once, each with the same error.
    pub open spec fn all_woken(self, wakes: Seq<WakeView<W>>, reason: Seq<char>) -> bool {
        exists|tags: Seq<u16>| #[trigger] self.woken_in_order(tags, wakes, reason)
    }

    /// `wakes` wakes the callers with `tags`, which are all that wait.
    pub open spec fn woken_in_order(self, tags: Seq<u16>, wakes: Seq<WakeView<W>>, reason: Seq<char>) -> bool {
        &&& tags.no_duplicates()
        &&& tags.to_set() == self.pending.dom()
        &&& wakes.len() == tags.len()
        &&& forall|i: int|
            0 <= i < tags.len() ==> #[trigger] wakes[i] == (WakeView {
                waker: self.pending[tags[i]].waker,
                response: ResponseView::Failed(ErrorView::TransportClosed(reason)),
            })
    }
}

impl<W> View for Session<W> {
    type V = SessionView<W>;

    closed spec fn view(&self) -> SessionView<W> {
        SessionView {
            next_tag: self.next_tag,
            pending: self.pending@,
            rx_queue: self.rx_queue@.map_values(|p: RxPayload| p@),
            async_errors: self.async_errors@.map_values(|e: ClientError| e@),
            stream: decoder_holds(self.decoder),
            closed: self.closed,
            reader_done: self.reader_done,
        }
    }
}

impl<W> Session<W> {
    /// A new session.
    pub fn new() -> (r: Session<W>)
        ensures
            r@ == SessionView::<W>::start(),
            r@.wf(),
    {
        let r = Session {
            next_tag: 1,
            pending: HashMap::new(),
            rx_queue: VecDeque::new(),
            async_errors: Vec::new(),
            decoder: new_decoder(),
            closed: false,
            reader_done: false,
        };
        assert(r@ =~= SessionView::<W>::start());
        r
    }

    fn note_error(&mut self, e: ClientError)
        ensures
            final(self)@ == old(self)@.with_async_error(e@),
    {
        self.async_errors.push(e);
        assert(self@ =~= old(self)@.with_async_error(e@));
    }

    fn dispatch_event(&mut self, type_id: u8, payload: &Vec<u8>)
        ensures
            final(self)@ == old(self)@.after_event(type_id, payload@),
    {
        if type_id == TYPE_RX {
            match decode_rx(payload.as_slice()) {
                Some(rx) => {
                    self.rx_queue.push_back(rx);
                    assert(self@ =~= old(self)@.after_event(type_id, payload@));
                },
                None => self.note_error(ClientError::BadFrame("bad RX payload".to_owned())),
            }
        } else if type_id == TYPE_ERR {
            match decode_err(payload.as_slice()) {
                Some(code) => self.note_error(ClientError::from_wire(code)),
                None => self.note_error(ClientError::BadFrame("bad async ERR payload".to_owned())),
            }
        }
    }

    fn read_answer(cmd_type: u8, type_id: u8, payload: &Vec<u8>) -> (r: SessionResponse)
        ensures
            r@ == tagged_answer(cmd_type, type_id, payload@),
    {
        if type_id == TYPE_OK {
            match OkPayload::parse_for(cmd_type, payload.as_slice()) {
                Some(OkPayload::Empty) => SessionResponse::Empty,
                Some(OkPayload::Info(i)) => SessionResponse::Info(i),
                Some(OkPayload::SetConfig(r)) => SessionResponse::SetConfig(r),
                None => SessionResponse::Failed(
                    ClientError::BadFrame("OK payload did not parse for command context".to_owned()),
                ),
            }
        } else if type_id == TYPE_ERR {
            match decode_err(payload.as_slice()) {
                Some(code) => SessionResponse::Failed(ClientError::from_wire(code)),
                None => SessionResponse::Failed(ClientError::BadFrame("bad ERR payload".to_owned())),
            }
        } else if type_id == TYPE_TX_DONE {
            match decode_tx_done(payload.as_slice()) {
                Some(td) => SessionResponse::TxDone(td),
                None => SessionResponse::Failed(ClientError::BadFrame("bad TX_DONE payload".to_owned())),
            }
        } else {
            let mut text = "unexpected tagged frame type 0x".to_owned();
            push_hex(&mut text, type_id as u64, 2);
            SessionResponse::Failed(ClientError::BadFrame(text))
        }
    }

    /// Takes one inbound frame in: an event is queued, an answer wakes the
    /// caller with its tag. An answer that nobody waits for is dropped.
    pub fn dispatch(&mut self, type_id: u8, tag: u16, payload: &Vec<u8>) -> (r: Option<Wake<W>>)
        ensures
            final(self)@ == old(self)@.after_frame(FrameView::Decoded { type_id, tag, payload: payload@ }),
            old(self)@.woken_by(FrameView::Decoded { type_id, tag, payload: payload@ }) == match r {
                Some(w) => seq![w@],
                None => Seq::empty(),
            },
            old(self)@.wf() ==> final(self)@.wf(),
    {
        if tag == 0 {
            self.dispatch_event(type_id, payload);
            return None;
        }
        match self.pending.remove(&tag) {
            None => {
                assert(self@ =~= old(self)@);
                None
            },
            Some(Pending { cmd_type, waker }) => {
                if cmd_type == TYPE_TX && type_id == TYPE_OK {
                    self.pending.insert(tag, Pending { cmd_type, waker });
                    assert(self@.pending =~= old(self)@.pending);
                    None
                } else {
                    let response = Self::read_answer(cmd_type, type_id, payload);
                    Some(Wake { waker, response })
                }
            },
        }
    }

    fn on_bytes(&mut self, data: &[u8]) -> (r: Vec<Wake<W>>)
        ensures
            final(self)@ == old(self)@.after_bytes(data@),
            wake_views(r@) == old(self)@.woken_by_bytes(data@),
    {
        let works = feed(&mut self.decoder, data);
        let mut wakes: Vec<Wake<W>> = Vec::new();
        let ghost fed = self@;
        let ghost frames = frame_views(works@);
        let mut i: usize = 0;
        proof {
            assert(frames.take(0) =~= Seq::empty());
        }
        while i < works.len()
            invariant
                i <= works.len(),
                frames == frame_views(works@),
                self@ == fed.after_frames(frames.take(i as int)),
                wake_views(wakes@) == fed.woken_by_frames(frames.take(i as int)),
            decreases works.len() - i,
        {
            proof {
                assert(frames.take(i + 1).drop_last() =~= frames.take(i as int));
                assert(frames.take(i + 1).last() == works@[i as int]@);
            }
            match &works[i] {
                FrameWork::Decoded { type_id, tag, payload } => {
                    if let Some(w) = self.dispatch(*type_id, *tag, payload) {
                        wakes.push(w);
                    }
                },
                FrameWork::Bad => {
                    self.note_error(ClientError::BadFrame("inbound frame failed CRC or COBS".to_owned()));
                },
            }
            i = i + 1;
            assert(wake_views(wakes@) =~= fed.woken_by_frames(frames.take(i as int)));
        }
        proof {
            assert(frames.take(i as int) =~= frames);
            lemma_stream_apart(old(self)@, fed.stream, frames);
        }
        wakes
    }

    /// Takes the next tag: 1, 2, up to 65535, and then 1 again.
    pub fn alloc_tag(&mut self) -> (r: u16)
        ensures
            r == old(self)@.next_tag,
            final(self)@ == old(self)@.after_alloc(),
            old(self)@.wf() ==> final(self)@.wf() && r != 0,
    {
        let tag: u16 = self.next_tag;
        self.next_tag = if tag == 0xffff { 1 } else { tag + 1 };
        tag
    }

    /// Starts a command: takes the next tag, remembers the caller, and returns
    /// the tag and the bytes to write. A closed session refuses; a payload
    /// that no frame can hold is refused and its caller forgotten.
    pub fn send_command(&mut self, request: &Request, waker: W) -> (r: ClientResult<Sent>)
        ensures
            final(self)@ == old(self)@.after_send(request@.type_id, request@.payload, waker),
            old(self)@.wf() ==> final(self)@.wf(),
            old(self)@.closed ==> r is Err && r->Err_0@ == ErrorView::TransportClosed("session closed"@),
            !old(self)@.closed && request@.payload.len() > MAX_PAYLOAD_FIELD ==> r is Err && r->Err_0@
                == ErrorView::EncodeFailed("PayloadTooLarge"@),
            !old(self)@.closed && request@.payload.len() <= MAX_PAYLOAD_FIELD ==> r is Ok && r->Ok_0.carries(
                request@.type_id,
                old(self)@.next_tag,
                request@.payload,
            ),
    {
        if self.closed {
            return Err(ClientError::TransportClosed("session closed".to_owned()));
        }
        let tag = self.alloc_tag();
        self.pending.insert(tag, Pending { cmd_type: request.type_id, waker });
        match encode_frame(request.type_id, tag, request.payload.as_slice()) {
            Ok(wire) => {
                assert(self@ =~= old(self)@.after_send(request@.type_id, request@.payload, waker));
                Ok(Sent { tag, wire })
            },
            Err(e) => {
                self.pending.remove(&tag);
                assert(self@ =~= old(self)@.after_send(request@.type_id, request@.payload, waker));
                Err(ClientError::EncodeFailed(e))
            },
        }
    }

    /// Ends a command with what came of it. One that was not answered is
    /// forgotten, so that a late answer finds nobody.
    pub fn finish_command(&mut self, type_id: u8, tag: u16, completion: Completion) -> (r: ClientResult<SessionResponse>)
        ensures
            final(self)@ == if completion is Answered {
                old(self)@
            } else {
                old(self)@.without(tag)
            },
            old(self)@.wf() ==> final(self)@.wf(),
            answer_view(r) == completion.outcome(type_id),
    {
        match completion {
            Completion::Answered(response) => Ok(response),
            Completion::Dropped => {
                self.pending.remove(&tag);
                assert(self@ =~= old(self)@.without(tag));
                Err(ClientError::ReaderExited)
            },
            Completion::TimedOut => {
                self.pending.remove(&tag);
                assert(self@ =~= old(self)@.without(tag));
                Err(ClientError::Timeout { what: describe_cmd(type_id) })
            },
            Completion::WriteFailed(e) => {
                self.pending.remove(&tag);
                assert(self@ =~= old(self)@.without(tag));
                Err(ClientError::Io(e))
            },
        }
    }

    fn wake_all(&mut self, reason: &str) -> (r: Vec<Wake<W>>)
        ensures
            final(self)@ == (SessionView { pending: Map::empty(), ..old(self)@ }),
            old(self)@.all_woken(wake_views(r@), reason@),
    {
        let ghost waiting = self@.pending;
        let mut tags: Vec<u16> = Vec::new();
        let keys = self.pending.keys();
        let ghost order = keys.remaining().unref();
        for tag in it: keys
            invariant
                it.seq().unref() == order,
                tags@ == order.take(it.index() as int),
        {
            tags.push(*tag);
            assert(tags@ =~= order.take(it.index() + 1));
        }
        assert(tags@ =~= order);
        let mut wakes: Vec<Wake<W>> = Vec::new();
        let mut i: usize = 0;
        while i < tags.len()
            invariant
                i <= tags.len(),
                tags@ == order,
                order.no_duplicates(),
                order.to_set() == waiting.dom(),
                waiting == old(self)@.pending,
                self@ == (SessionView { pending: self@.pending, ..old(self)@ }),
                forall|t: u16| #[trigger]
                    self@.pending.dom().contains(t) ==> waiting.dom().contains(t) && self@.pending[t] == waiting[t],
                forall|k: int| i <= k < order.len() ==> self@.pending.dom().contains(#[trigger] order[k]),
                forall|k: int| 0 <= k < i ==> !self@.pending.dom().contains(#[trigger] order[k]),
                wakes.len() == i,
                forall|k: int|
                    0 <= k < i ==> #[trigger] wakes@[k]@ == (WakeView {
                        waker: waiting[order[k]].waker,
                        response: ResponseView::Failed(ErrorView::TransportClosed(reason@)),
                    }),
            decreases tags.len() - i,
        {
            assert(self@.pending.dom().contains(order[i as int]));
            if let Some(p) = self.pending.remove(&tags[i]) {
                let error = ClientError::TransportClosed(reason.to_owned());
                wakes.push(Wake { waker: p.waker, response: SessionResponse::Failed(error) });
            }
            i = i + 1;
        }
        proof {
            assert forall|t: u16| !self@.pending.dom().contains(t) by {
                if self@.pending.dom().contains(t) {
                    assert(order.to_set().contains(t));
                    let k = choose|k: int| 0 <= k < order.len() && order[k] == t;
                    assert(!self@.pending.dom().contains(order[k]));
                }
            }
            assert(self@ =~= (SessionView { pending: Map::empty(), ..old(self)@ }));
            assert(old(self)@.woken_in_order(order, wake_views(wakes@), reason@));
        }
        wakes
    }

    /// Takes the outcome of a read in: the bytes, or `None` where the read
    /// failed. Returns the callers to wake and whether this was the last read.
    pub fn on_read(&mut self, data: Option<&[u8]>) -> (r: (Vec<Wake<W>>, bool))
        ensures
            final(self)@ == old(self)@.after_read(read_view(data)),
            old(self)@.wf() ==> final(self)@.wf(),
            r.1 == !(read_view(data) matches Some(b) && b.len() > 0),
            !r.1 ==> wake_views(r.0@) == old(self)@.woken_by_bytes(read_view(data)->0),
            r.1 ==> old(self)@.all_woken(wake_views(r.0@), "reader exited"@),
    {
        match data {
            Some(bytes) if bytes.len() > 0 => {
                let wakes = self.on_bytes(bytes);
                proof {
                    if old(self)@.wf() {
                        lemma_frames_keep_wf(old(self)@, old(self)@.stream.frames(bytes@));
                    }
                }
                (wakes, false)
            },
            _ => (self.reader_exit(), true),
        }
    }

    /// Nothing more will be read: wakes everyone who waits.
    pub fn reader_exit(&mut self) -> (r: Vec<Wake<W>>)
        ensures
            final(self)@ == old(self)@.after_last_read(),
            old(self)@.wf() ==> final(self)@.wf(),
            old(self)@.all_woken(wake_views(r@), "reader exited"@),
    {
        let wakes = self.wake_all("reader exited");
        self.reader_done = true;
        wakes
    }

    /// Closes the session: wakes everyone who waits, and ends the reader.
    pub fn close(&mut self) -> (r: Vec<Wake<W>>)
        ensures
            final(self)@ == old(self)@.after_close(),
            old(self)@.wf() ==> final(self)@.wf(),
            old(self)@.all_woken(wake_views(r@), "session closed"@),
    {
        let wakes = self.wake_all("session closed");
        self.closed = true;
        self.reader_done = true;
        wakes
    }

    /// `close` was called.
    pub fn is_closed(&self) -> (r: bool)
        ensures
            r == self@.closed,
    {
        self.closed
    }

    /// Takes the oldest packet that was received. Without one, tells whether
    /// another can still come.
    pub fn recv_rx(&mut self) -> (r: RxStep)
        ensures
            final(self)@ == old(self)@.after_recv(),
            old(self)@.rx_queue.len() > 0 ==> (r matches RxStep::Packet(p) && p@ == old(self)@.rx_queue[0]),
            old(self)@.rx_queue.len() == 0 ==> r == if old(self)@.reader_done {
                RxStep::Ended
            } else {
                RxStep::Wait
            },
            old(self)@.wf() ==> final(self)@.wf(),
    {
        match self.rx_queue.pop_front() {
            Some(p) => {
                assert(self@.rx_queue =~= old(self)@.rx_queue.drop_first());
                RxStep::Packet(p)
            },
            None => {
                if self.reader_done {
                    RxStep::Ended
                } else {
                    RxStep::Wait
                }
            },
        }
    }

    /// Takes the errors that came without a tag since the last call, oldest
    /// first.
    pub fn drain_async_errors(&mut self) -> (r: Vec<ClientError>)
        ensures
            r@.map_values(|e: ClientError| e@) == old(self)@.async_errors,
            final(self)@ == (SessionView { async_errors: Seq::empty(), ..old(self)@ }),
            old(self)@.wf() ==> final(self)@.wf(),
    {
        let mut out: Vec<ClientError> = Vec::new();
        std::mem::swap(&mut out, &mut self.async_errors);
        assert(self@.async_errors =~= Seq::empty());
        out
    }
}

/// Frames neither depend on the bytes that the stream still holds, nor change
/// them.
proof fn lemma_stream_apart<W>(s: SessionView<W>, stream: Accumulator, frames: Seq<FrameView>)
    ensures
        (SessionView { stream, ..s }).after_frames(frames) == (SessionView { stream, ..s.after_frames(frames) }),
        (SessionView { stream, ..s }).woken_by_frames(frames) == s.woken_by_frames(frames),
        s.after_frames(frames).stream == s.stream,
    decreases frames.len(),
{
    if frames.len() > 0 {
        lemma_stream_apart(s, stream, frames.drop_last());
    }
}

proof fn lemma_frames_keep_wf<W>(s: SessionView<W>, frames: Seq<FrameView>)
    requires
        s.wf(),
    ensures
        s.after_frames(frames).wf(),
    decreases frames.len(),
{
    if frames.len() > 0 {
        lemma_frames_keep_wf(s, frames.drop_last());
    }
}

// ---------------------------------------------------------------------
// Laws
// ---------------------------------------------------------------------

/// The tag that is handed out after `n` others, counting from `tag`.
pub open spec fn nth_tag(tag: u16, n: nat) -> u16
    decreases n,
{
    if n == 0 {
        tag
    } else {
        SessionView::<()>::tag_after(nth_tag(tag, (n - 1) as nat))
    }
}

proof fn lemma_nth_tag(tag: u16, n: nat)
    requires
        tag != 0,
    ensures
        nth_tag(tag, n) == 1 + (tag - 1 + n) % 65535,
    decreases n,
{
    if n > 0 {
        lemma_nth_tag(tag, (n - 1) as nat);
        let before = tag - 1 + n - 1;
        assert((before + 1) % 65535 == if before % 65535 == 65534 {
            0
        } else {
            before % 65535 + 1
        }) by (nonlinear_arith)
            requires
                before >= 0,
        ;
    }
}

/// Taking tags one after the other moves on by as many tags, and changes
/// nothing else.
pub proof fn every_alloc_takes_the_next_tag<W>(s: SessionView<W>, n: nat)
    ensures
        s.after_allocs(n) == (SessionView { next_tag: nth_tag(s.next_tag, n), ..s }),
    decreases n,
{
    if n > 0 {
        every_alloc_takes_the_next_tag(s, (n - 1) as nat);
    }
}

/// The tags of a new session run 1, 2, and so on up to 65535, and from 1 again:
/// the `k`-th that is taken is one more than `k - 1` modulo 65535.
pub proof fn kth_tag<W>(k: nat)
    requires
        k >= 1,
    ensures
        SessionView::<W>::start().after_allocs((k - 1) as nat).next_tag == (k - 1) % 65535 + 1,
        nth_tag(SessionView::<W>::start().next_tag, (k - 1) as nat) == (k - 1) % 65535 + 1,
{
    every_alloc_takes_the_next_tag(SessionView::<W>::start(), (k - 1) as nat);
    lemma_nth_tag(1, (k - 1) as nat);
}

/// The session after a list of commands was sent.
pub open spec fn after_sends<W>(s: SessionView<W>, commands: Seq<(u8, Seq<u8>, W)>) -> SessionView<W>
    decreases commands.len(),
{
    if commands.len() == 0 {
        s
    } else {
        let (cmd_type, payload, waker) = commands.last();
        after_sends(s, commands.drop_last()).after_send(cmd_type, payload, waker)
    }
}

/// Every command of an open session takes the next tag, whether or not it
/// could be encoded.
pub proof fn every_command_takes_a_tag<W>(s: SessionView<W>, commands: Seq<(u8, Seq<u8>, W)>)
    requires
        !s.closed,
    ensures
        after_sends(s, commands).next_tag == nth_tag(s.next_tag, commands.len()),
        !after_sends(s, commands).closed,
    decreases commands.len(),
{
    if commands.len() > 0 {
        every_command_takes_a_tag(s, commands.drop_last());
    }
}

/// The tags of a new session run 1, 2, up to 65535, and then 1 again: this is
/// the tag of the command that follows `commands`.
pub proof fn tags_count_up<W>(commands: Seq<(u8, Seq<u8>, W)>)
    ensures
        after_sends(SessionView::start(), commands).next_tag == commands.len() % 65535 + 1,
{
    every_command_takes_a_tag(SessionView::start(), commands);
    kth_tag::<W>(commands.len() + 1);
}

/// Tag 0 is never handed out, and 65535 tags in a row are all different.
pub proof fn tags_are_fresh(tag: u16, m: nat, n: nat)
    requires
        tag != 0,
        m < n < m + 65535,
    ensures
        nth_tag(tag, m) != 0,
        nth_tag(tag, n) != 0,
        nth_tag(tag, m) != nth_tag(tag, n),
{
    lemma_nth_tag(tag, m);
    lemma_nth_tag(tag, n);
    let a = tag - 1 + m;
    let d = n - m;
    assert(0 < d < 65535 ==> (a + d) % 65535 != a % 65535) by (nonlinear_arith)
        requires
            a >= 0,
    ;
}

/// A frame with a tag changes nothing but what waits under that tag, and
/// wakes at most that caller, with the answer to that caller's command.
pub proof fn frame_reaches_its_tag_only<W>(s: SessionView<W>, type_id: u8, tag: u16, payload: Seq<u8>)
    requires
        tag != 0,
    ensures
        ({
            let frame = FrameView::Decoded { type_id, tag, payload };
            let after = s.after_frame(frame);
            &&& after == (SessionView { pending: after.pending, ..s })
            &&& after.pending.remove(tag) == s.pending.remove(tag)
            &&& s.woken_by(frame).len() <= 1
            &&& s.woken_by(frame).len() == 1 ==> s.pending.dom().contains(tag) && s.woken_by(frame)[0] == (WakeView {
                waker: s.pending[tag].waker,
                response: tagged_answer(s.pending[tag].cmd_type, type_id, payload),
            })
        }),
{
    let after = s.after_frame(FrameView::Decoded { type_id, tag, payload });
    assert(after.pending.remove(tag) =~= s.pending.remove(tag));
}

/// An event wakes nobody and ends no command, and neither does a bad frame.
pub proof fn events_leave_commands_alone<W>(s: SessionView<W>, frame: FrameView)
    requires
        frame matches FrameView::Decoded { tag, .. } ==> tag == 0,
    ensures
        s.woken_by(frame) == Seq::<WakeView<W>>::empty(),
        s.after_frame(frame).pending == s.pending,
{
}

/// Answers find their callers in whatever order they come: the answers to two
/// commands wake the same callers with the same answers either way round, and
/// leave the same session behind.
pub proof fn answers_come_in_any_order<W>(s: SessionView<W>, f: FrameView, g: FrameView)
    requires
        f matches FrameView::Decoded { tag: a, .. } && g matches FrameView::Decoded { tag: b, .. } && a != 0 && b != 0 && a
            != b,
    ensures
        s.after_frame(f).woken_by(g) == s.woken_by(g),
        s.after_frame(g).woken_by(f) == s.woken_by(f),
        s.after_frame(f).after_frame(g) == s.after_frame(g).after_frame(f),
{
    assert(s.after_frame(f).after_frame(g).pending =~= s.after_frame(g).after_frame(f).pending);
    assert(s.after_frame(f).woken_by(g) =~= s.woken_by(g));
    assert(s.after_frame(g).woken_by(f) =~= s.woken_by(f));
}

/// `TX` completes in two phases: the `OK` that says the packet is queued
/// leaves the session as it was, and the `TX_DONE` that follows wakes the
/// caller.
pub proof fn tx_completes_in_two_phases<W>(s: SessionView<W>, tag: u16, ok: Seq<u8>, done: Seq<u8>)
    requires
        tag != 0,
        s.pending.dom().contains(tag),
        s.pending[tag].cmd_type == TYPE_TX,
    ensures
        ({
            let queued = FrameView::Decoded { type_id: TYPE_OK, tag, payload: ok };
            let sent = FrameView::Decoded { type_id: TYPE_TX_DONE, tag, payload: done };
            &&& s.woken_by(queued).len() == 0
            &&& s.after_frame(queued) == s
            &&& s.after_frame(queued).woken_by(sent) == seq![
                WakeView { waker: s.pending[tag].waker, response: tagged_answer(TYPE_TX, TYPE_TX_DONE, done) },
            ]
            &&& s.after_frame(queued).after_frame(sent) == s.without(tag)
        }),
{
}

/// Nobody is lost and nobody is woken twice: frames only move callers from
/// those that wait to those that are woken.
pub proof fn no_caller_is_lost<W>(s: SessionView<W>, frames: Seq<FrameView>)
    requires
        s.wf(),
    ensures
        s.after_frames(frames).pending.dom().len() + s.woken_by_frames(frames).len() == s.pending.dom().len(),
        s.after_frames(frames).pending.dom().subset_of(s.pending.dom()),
    decreases frames.len(),
{
    if frames.len() > 0 {
        no_caller_is_lost(s, frames.drop_last());
        lemma_frames_keep_wf(s, frames.drop_last());
    }
}

/// Packets and errors queue up in the order in which they arrive, behind those
/// that are there already; none is dropped.
pub proof fn queues_only_grow<W>(s: SessionView<W>, frames: Seq<FrameView>)
    ensures
        s.rx_queue.is_prefix_of(s.after_frames(frames).rx_queue),
        s.async_errors.is_prefix_of(s.after_frames(frames).async_errors),
    decreases frames.len(),
{
    if frames.len() > 0 {
        queues_only_grow(s, frames.drop_last());
    }
}

/// What happens to the queue of packets.
pub enum QueueEvent {
    /// Frames come in.
    Frames(Seq<FrameView>),
    /// A packet is asked for.
    Recv,
}

/// The packets that frames bring, in order.
pub open spec fn packets_of(frames: Seq<FrameView>) -> Seq<RxView>
    decreases frames.len(),
{
    if frames.len() == 0 {
        Seq::empty()
    } else {
        let before = packets_of(frames.drop_last());
        match frames.last() {
            FrameView::Decoded { type_id, tag, payload } => if tag == 0 && type_id == TYPE_RX && rx_payload(payload)
                is Some {
                before.push(rx_payload(payload)->0)
            } else {
                before
            },
            FrameView::Bad => before,
        }
    }
}

impl<W> SessionView<W> {
    /// The session after one event.
    pub open spec fn after_queue_event(self, event: QueueEvent) -> SessionView<W> {
        match event {
            QueueEvent::Frames(frames) => self.after_frames(frames),
            QueueEvent::Recv => self.after_recv(),
        }
    }

    /// The session after a list of events.
    pub open spec fn after_queue_events(self, events: Seq<QueueEvent>) -> SessionView<W>
        decreases events.len(),
    {
        if events.len() == 0 {
            self
        } else {
            self.after_queue_events(events.drop_last()).after_queue_event(events.last())
        }
    }

    /// The packets that a list of events hands out, in order.
    pub open spec fn handed_out(self, events: Seq<QueueEvent>) -> Seq<RxView>
        decreases events.len(),
    {
        if events.len() == 0 {
            Seq::empty()
        } else {
            self.handed_out(events.drop_last()) + match events.last() {
                QueueEvent::Frames(_) => Seq::empty(),
                QueueEvent::Recv => self.after_queue_events(events.drop_last()).received(),
            }
        }
    }
}

/// The packets that a list of events brings, in order.
pub open spec fn arrived(events: Seq<QueueEvent>) -> Seq<RxView>
    decreases events.len(),
{
    if events.len() == 0 {
        Seq::empty()
    } else {
        arrived(events.drop_last()) + match events.last() {
            QueueEvent::Frames(frames) => packets_of(frames),
            QueueEvent::Recv => Seq::empty(),
        }
    }
}

proof fn lemma_packets<W>(s: SessionView<W>, frames: Seq<FrameView>)
    ensures
        s.after_frames(frames).rx_queue == s.rx_queue + packets_of(frames),
    decreases frames.len(),
{
    if frames.len() == 0 {
        assert(s.rx_queue + packets_of(frames) =~= s.rx_queue);
    } else {
        lemma_packets(s, frames.drop_last());
        assert(s.after_frames(frames).rx_queue =~= s.rx_queue + packets_of(frames));
    }
}

/// Every packet is handed out once, in the order of arrival: however frames
/// and calls alternate, what was handed out and then what is left is what was
/// there and then what arrived. A call that finds nothing loses nothing.
pub proof fn packets_come_out_once_in_order<W>(s: SessionView<W>, events: Seq<QueueEvent>)
    ensures
        s.handed_out(events) + s.after_queue_events(events).rx_queue == s.rx_queue + arrived(events),
    decreases events.len(),
{
    if events.len() == 0 {
        assert(s.handed_out(events) + s.rx_queue =~= s.rx_queue + arrived(events));
    } else {
        let before = events.drop_last();
        packets_come_out_once_in_order(s, before);
        let mid = s.after_queue_events(before);
        match events.last() {
            QueueEvent::Frames(frames) => {
                lemma_packets(mid, frames);
                assert(s.handed_out(events) =~= s.handed_out(before));
                assert(s.rx_queue + arrived(events) =~= (s.rx_queue + arrived(before)) + packets_of(frames));
                assert(s.handed_out(events) + s.after_queue_events(events).rx_queue =~= (s.handed_out(before)
                    + mid.rx_queue) + packets_of(frames));
            },
            QueueEvent::Recv => {
                assert(arrived(events) =~= arrived(before));
                assert(mid.received() + mid.after_recv().rx_queue =~= mid.rx_queue);
                assert(s.handed_out(events) + s.after_queue_events(events).rx_queue =~= s.handed_out(before) + (
                mid.received() + mid.after_recv().rx_queue));
            },
        }
    }
}

/// How the stream is cut into reads does not matter: two reads leave the
/// session as one read of both pieces does, and wake the same callers.
pub proof fn reads_may_be_cut_anywhere<W>(s: SessionView<W>, first: Seq<u8>, second: Seq<u8>)
    ensures
        s.after_bytes(first + second) == s.after_bytes(first).after_bytes(second),
        s.woken_by_bytes(first + second) == s.woken_by_bytes(first) + s.after_bytes(first).woken_by_bytes(second),
{
    feeding_in_pieces(s.stream, first, second);
    let f = s.stream.frames(first);
    let stream = s.stream.fed(first);
    let g = stream.frames(second);
    lemma_frames_in_pieces(s, f, g);
    lemma_stream_apart(s.after_frames(f), stream, g);
}

proof fn lemma_frames_in_pieces<W>(s: SessionView<W>, f: Seq<FrameView>, g: Seq<FrameView>)
    ensures
        s.after_frames(f + g) == s.after_frames(f).after_frames(g),
        s.woken_by_frames(f + g) == s.woken_by_frames(f) + s.after_frames(f).woken_by_frames(g),
    decreases g.len(),
{
    if g.len() == 0 {
        assert(f + g =~= f);
        assert(s.woken_by_frames(f) + Seq::<WakeView<W>>::empty() =~= s.woken_by_frames(f));
    } else {
        lemma_frames_in_pieces(s, f, g.drop_last());
        assert((f + g).drop_last() =~= f + g.drop_last());
        assert(s.woken_by_frames(f + g) =~= s.woken_by_frames(f) + s.after_frames(f).woken_by_frames(g));
    }
}

/// An answer that the device encodes reaches the caller who sent the command:
/// between two frames, its bytes wake that caller, with the answer they carry,
/// and nobody else.
pub proof fn answer_reaches_its_caller<W>(s: SessionView<W>, tag: u16, wire: Seq<u8>, type_id: u8, payload: Seq<u8>)
    requires
        s.stream == Accumulator::empty(),
        s.answers(type_id, tag),
        is_wire_frame(wire),
        decoded_frame(wire.drop_last()) == Some((type_id, tag, payload)),
    ensures
        s.woken_by_bytes(wire) == seq![
            WakeView {
                waker: s.pending[tag].waker,
                response: tagged_answer(s.pending[tag].cmd_type, type_id, payload),
            },
        ],
        s.after_bytes(wire) == s.without(tag),
{
    frame_round_trip(wire, type_id, tag, payload);
    let frame = FrameView::Decoded { type_id, tag, payload };
    lemma_one_frame(s, frame);
}

/// A command that is sent is answered: where the device's frame with its tag
/// comes back between two frames, the caller is woken with what the frame
/// means for that command, and everyone else waits on as before.
pub proof fn command_is_answered<W>(
    s: SessionView<W>,
    cmd_type: u8,
    request: Seq<u8>,
    waker: W,
    wire: Seq<u8>,
    type_id: u8,
    payload: Seq<u8>,
)
    requires
        s.wf(),
        !s.closed,
        s.stream == Accumulator::empty(),
        request.len() <= MAX_PAYLOAD_FIELD,
        !absorbed(cmd_type, type_id),
        is_wire_frame(wire),
        decoded_frame(wire.drop_last()) == Some((type_id, s.next_tag, payload)),
    ensures
        ({
            let sent = s.after_send(cmd_type, request, waker);
            &&& sent.woken_by_bytes(wire) == seq![
                WakeView { waker, response: tagged_answer(cmd_type, type_id, payload) },
            ]
            &&& sent.after_bytes(wire) == (SessionView {
                next_tag: SessionView::<W>::tag_after(s.next_tag),
                ..s.without(s.next_tag)
            })
        }),
{
    let sent = s.after_send(cmd_type, request, waker);
    answer_reaches_its_caller(sent, s.next_tag, wire, type_id, payload);
    assert(sent.without(s.next_tag).pending =~= s.without(s.next_tag).pending);
}

proof fn lemma_one_frame<W>(s: SessionView<W>, frame: FrameView)
    ensures
        s.after_frames(seq![frame]) == s.after_frame(frame),
        s.woken_by_frames(seq![frame]) == s.woken_by(frame),
{
    assert(seq![frame].drop_last() =~= Seq::empty());
    assert(s.after_frames(seq![frame].drop_last()) == s);
    assert(s.woken_by_frames(seq![frame].drop_last()) =~= Seq::empty());
    assert(Seq::<WakeView<W>>::empty() + s.woken_by(frame) =~= s.woken_by(frame));
}

/// A device that echoes the configuration it was sent is understood: the
/// answer tells the caller that this configuration is in force.
pub proof fn echoed_config_is_understood(m: Modulation, result: SetConfigResultCode, owner: Owner)
    requires
        m.payload() is Some,
    ensures
        tagged_answer(TYPE_SET_CONFIG, TYPE_OK, answer_bytes(result.number(), owner.number(), m.payload()->0))
            == ResponseView::SetConfig(SetConfigResult { result, owner, current: m.carried() }),
{
    config_round_trip(m, result, owner);
}

/// A packet that the device encodes is the next in the queue: between two
/// frames, the bytes of an `RX` event append what they carry.
pub proof fn packet_reaches_the_queue<W>(s: SessionView<W>, wire: Seq<u8>, payload: Seq<u8>)
    requires
        s.stream == Accumulator::empty(),
        rx_payload(payload) is Some,
        is_wire_frame(wire),
        decoded_frame(wire.drop_last()) == Some((TYPE_RX, 0u16, payload)),
    ensures
        s.woken_by_bytes(wire).len() == 0,
        s.after_bytes(wire) == (SessionView { rx_queue: s.rx_queue.push(rx_payload(payload)->0), ..s }),
{
    frame_round_trip(wire, TYPE_RX, 0, payload);
    lemma_one_frame(s, FrameView::Decoded { type_id: TYPE_RX, tag: 0, payload });
}

/// Garbage is survived: whatever came before, a zero byte brings the stream
/// back between two frames, where the next frame is read as it was written.
pub proof fn garbage_is_survived<W>(
    s: SessionView<W>,
    garbage: Seq<u8>,
    wire: Seq<u8>,
    type_id: u8,
    tag: u16,
    payload: Seq<u8>,
)
    requires
        is_wire_frame(wire),
        decoded_frame(wire.drop_last()) == Some((type_id, tag, payload)),
    ensures
        s.after_bytes(garbage.push(0)).stream == Accumulator::empty(),
        s.after_bytes(garbage.push(0)).stream.frames(wire) == seq![FrameView::Decoded { type_id, tag, payload }],
{
    zero_resynchronises(s.stream, garbage);
    frame_round_trip(wire, type_id, tag, payload);
}

/// A late answer finds nobody: after a command is given up, frames with its
/// tag wake nobody.
pub proof fn late_answer_finds_nobody<W>(s: SessionView<W>, type_id: u8, tag: u16, payload: Seq<u8>)
    requires
        tag != 0,
    ensures
        s.without(tag).woken_by(FrameView::Decoded { type_id, tag, payload }).len() == 0,
        s.without(tag).after_frame(FrameView::Decoded { type_id, tag, payload }) == s.without(tag),
{
}

/// A closed session stays closed and empty: nobody waits in it, whatever is
/// sent or read afterwards.
pub proof fn closed_session_stays_empty<W>(
    s: SessionView<W>,
    cmd_type: u8,
    payload: Seq<u8>,
    waker: W,
    data: Option<Seq<u8>>,
)
    requires
        s.wf(),
    ensures
        s.after_close().after_send(cmd_type, payload, waker) == s.after_close(),
        s.after_close().after_read(data).closed,
        s.after_close().after_read(data).pending.dom().len() == 0,
{
    let c = s.after_close();
    if let Some(b) = data {
        no_caller_is_lost(c, c.stream.frames(b));
        lemma_frames_keep_closed(c, c.stream.frames(b));
    }
}

proof fn lemma_frames_keep_closed<W>(s: SessionView<W>, frames: Seq<FrameView>)
    ensures
        s.after_frames(frames).closed == s.closed,
    decreases frames.len(),
{
    if frames.len() > 0 {
        lemma_frames_keep_closed(s, frames.drop_last());
    }
}

/// A new session is open and empty: nobody waits in it, nothing was received,
/// and its first tag is 1.
pub proof fn new_session_is_empty<W>()
    ensures
        ({
            let s = SessionView::<W>::start();
            &&& s.next_tag == 1
            &&& s.pending == Map::<u16, Pending<W>>::empty()
            &&& s.rx_queue.len() == 0
            &&& s.async_errors.len() == 0
            &&& s.stream.partial.len() == 0
            &&& !s.stream.skipping
            &&& !s.closed
            &&& !s.reader_done
        }),
{
}

/// What a frame with a tag means to the caller: an `OK` what it says of the
/// command, an `ERR` the error with its number, a `TX_DONE` what became of the
/// packet. A frame that cannot be read, and one of another type, is told as a
/// bad frame.
pub proof fn answers_mean_what_they_say(cmd_type: u8, payload: Seq<u8>, type_id: u8)
    ensures
        ({
            let bad = |text: Seq<char>| ResponseView::Failed(ErrorView::BadFrame(text));
            let ok = tagged_answer(cmd_type, 0x80, payload);
            let err = tagged_answer(cmd_type, 0x81, payload);
            let done = tagged_answer(cmd_type, 0xC1, payload);
            &&& match ok_payload(cmd_type, payload) {
                Some(OkView::Empty) => ok is Empty,
                Some(OkView::Info(i)) => ok == ResponseView::Info(i),
                Some(OkView::SetConfig(r)) => ok == ResponseView::SetConfig(r),
                None => ok == bad("OK payload did not parse for command context"@),
            }
            &&& payload.len() == 2 ==> err == ResponseView::Failed(
                ErrorView::of_code(error_code_of(payload[0] + 0x100 * payload[1])),
            )
            &&& payload.len() != 2 ==> err == bad("bad ERR payload"@)
            &&& match tx_done_payload(payload) {
                Some(td) => done == ResponseView::TxDone(td),
                None => done == bad("bad TX_DONE payload"@),
            }
            &&& type_id != 0x80 && type_id != 0x81 && type_id != 0xC1 ==> tagged_answer(cmd_type, type_id, payload) == bad(
                "unexpected tagged frame type 0x"@ + hex(type_id as nat, 2),
            )
        }),
{
}

/// The first frame with its tag ends the wait of a command and wakes its
/// caller, with one exception: the `OK` that answers a `TX` first. A tag under
/// which nobody waits wakes nobody, and changes nothing.
pub proof fn first_answer_wakes<W>(s: SessionView<W>, type_id: u8, tag: u16, payload: Seq<u8>)
    requires
        tag != 0,
    ensures
        ({
            let frame = FrameView::Decoded { type_id, tag, payload };
            let waits = s.pending.dom().contains(tag);
            let queued = s.pending[tag].cmd_type == 0x04 && type_id == 0x80;
            &&& waits && !queued ==> {
                &&& s.woken_by(frame) == seq![
                    WakeView {
                        waker: s.pending[tag].waker,
                        response: tagged_answer(s.pending[tag].cmd_type, type_id, payload),
                    },
                ]
                &&& s.after_frame(frame).pending == s.pending.remove(tag)
            }
            &&& !waits || queued ==> s.woken_by(frame).len() == 0 && s.after_frame(frame) == s
        }),
{
}

/// An event is taken in by its type: a packet goes to the end of the queue, an
/// error to the end of the list of errors, and so does the news of one that
/// cannot be read, or of a frame that was corrupted. Any other event is
/// dropped.
pub proof fn events_are_taken_in<W>(s: SessionView<W>, type_id: u8, payload: Seq<u8>)
    ensures
        ({
            let after = |t: u8| s.after_frame(FrameView::Decoded { type_id: t, tag: 0, payload });
            let noted = |e: ErrorView| SessionView { async_errors: s.async_errors.push(e), ..s };
            &&& match rx_payload(payload) {
                Some(rx) => after(0xC0) == (SessionView { rx_queue: s.rx_queue.push(rx), ..s }),
                None => after(0xC0) == noted(ErrorView::BadFrame("bad RX payload"@)),
            }
            &&& payload.len() == 2 ==> after(0x81) == noted(
                ErrorView::of_code(error_code_of(payload[0] + 0x100 * payload[1])),
            )
            &&& payload.len() != 2 ==> after(0x81) == noted(ErrorView::BadFrame("bad async ERR payload"@))
            &&& type_id != 0xC0 && type_id != 0x81 ==> after(type_id) == s
            &&& s.after_frame(FrameView::Bad) == noted(ErrorView::BadFrame("inbound frame failed CRC or COBS"@))
        }),
{
}

/// A command that is sent waits under the next tag for its answer, with its
/// caller; one that no frame can hold does not wait; and a closed session takes
/// none. Whoever waits under another tag waits on.
pub proof fn command_waits_under_its_tag<W>(s: SessionView<W>, cmd_type: u8, payload: Seq<u8>, waker: W, other: u16)
    requires
        other != s.next_tag,
    ensures
        ({
            let a = s.after_send(cmd_type, payload, waker);
            &&& s.closed ==> a == s
            &&& !s.closed ==> {
                &&& a.next_tag == if s.next_tag == 65535 {
                    1
                } else {
                    s.next_tag + 1
                }
                &&& a.pending.dom().contains(s.next_tag) <==> payload.len() <= 275
                &&& payload.len() <= 275 ==> a.pending[s.next_tag] == (Pending { cmd_type, waker })
                &&& a.pending.dom().contains(other) <==> s.pending.dom().contains(other)
                &&& a.pending.dom().contains(other) ==> a.pending[other] == s.pending[other]
                &&& a.rx_queue == s.rx_queue
                &&& a.async_errors == s.async_errors
                &&& a.stream == s.stream
                &&& !a.closed
                &&& a.reader_done == s.reader_done
            }
        }),
{
}

/// What came of a command is what its caller learns: the answer; that the
/// reader ended; that no answer came in time, and to which command; or the
/// error of the write. A command that is given up is forgotten, and no other.
pub proof fn completions_are_told<W>(s: SessionView<W>, c: Completion, type_id: u8, tag: u16, other: u16)
    requires
        other != tag,
    ensures
        c matches Completion::Answered(r) ==> c.outcome(type_id) == Ok::<ResponseView, ErrorView>(r@),
        c is Dropped ==> c.outcome(type_id) == Err::<ResponseView, ErrorView>(ErrorView::ReaderExited),
        c is TimedOut ==> c.outcome(type_id) == Err::<ResponseView, ErrorView>(
            ErrorView::Timeout { what: command_name(type_id) },
        ),
        c matches Completion::WriteFailed(e) ==> c.outcome(type_id) == Err::<ResponseView, ErrorView>(ErrorView::Io(e)),
        !s.without(tag).pending.dom().contains(tag),
        s.without(tag).pending.dom().contains(other) <==> s.pending.dom().contains(other),
        s.pending.dom().contains(other) ==> s.without(tag).pending[other] == s.pending[other],
        s.without(tag) == (SessionView { pending: s.without(tag).pending, ..s }),
{
}

/// A read that brings bytes takes them in. One that brings none, or fails, is
/// the last: nobody waits any more, and what was received stays to be had. So
/// it is with `close`, which also closes the session.
pub proof fn last_read_ends_the_wait<W>(s: SessionView<W>, data: Seq<u8>)
    ensures
        data.len() > 0 ==> s.after_read(Some(data)) == s.after_bytes(data),
        data.len() == 0 ==> s.after_read(Some(data)) == s.after_last_read(),
        s.after_read(None) == s.after_last_read(),
        ({
            let (a, c) = (s.after_last_read(), s.after_close());
            &&& a.pending == Map::<u16, Pending<W>>::empty() && c.pending == Map::<u16, Pending<W>>::empty()
            &&& a.reader_done && c.reader_done
            &&& a.closed == s.closed && c.closed
            &&& a.rx_queue == s.rx_queue && c.rx_queue == s.rx_queue
            &&& a.async_errors == s.async_errors && c.async_errors == s.async_errors
            &&& a.next_tag == s.next_tag && c.next_tag == s.next_tag
            &&& a.stream == s.stream && c.stream == s.stream
        }),
{
}

/// Everyone who waits is woken once, with the same error: there are as many
/// wakes as callers, each of them is for a caller that waits, and no caller is
/// left out.
pub proof fn everyone_is_woken_once<W>(s: SessionView<W>, wakes: Seq<WakeView<W>>, reason: Seq<char>, tag: u16)
    requires
        s.all_woken(wakes, reason),
    ensures
        wakes.len() == s.pending.dom().len(),
        forall|i: int|
            0 <= i < wakes.len() ==> (#[trigger] wakes[i]).response == ResponseView::Failed(
                ErrorView::TransportClosed(reason),
            ),
        s.pending.dom().contains(tag) ==> exists|i: int|
            0 <= i < wakes.len() && (#[trigger] wakes[i]).waker == s.pending[tag].waker,
{
    let tags = choose|tags: Seq<u16>| #[trigger] s.woken_in_order(tags, wakes, reason);
    tags.unique_seq_to_set();
    if s.pending.dom().contains(tag) {
        assert(tags.to_set().contains(tag));
        let i = choose|i: int| 0 <= i < tags.len() && tags[i] == tag;
        assert(wakes[i].waker == s.pending[tag].waker);
    }
}

/// The oldest packet is the one that is handed out, and the others stay, in
/// their order.
pub proof fn oldest_packet_comes_first<W>(s: SessionView<W>)
    ensures
        s.rx_queue.len() > 0 ==> {
            &&& s.received() == seq![s.rx_queue[0]]
            &&& s.after_recv().rx_queue.len() == s.rx_queue.len() - 1
            &&& forall|i: int| 0 <= i < s.rx_queue.len() - 1 ==> #[trigger] s.after_recv().rx_queue[i] == s.rx_queue[i + 1]
        },
        s.rx_queue.len() == 0 ==> s.received().len() == 0 && s.after_recv() == s,
        s.after_recv() == (SessionView { rx_queue: s.after_recv().rx_queue, ..s }),
{
    if s.rx_queue.len() > 0 {
        assert(s.received() =~= seq![s.rx_queue[0]]);
    }
}

} // verus!
