//! Frames on the byte stream. A frame is a run of bytes without zeros that a
//! zero byte ends; the `donglora-protocol` crate turns a type, a tag and a
//! payload into such a run and back.

use vstd::prelude::*;

use donglora_protocol::FrameDecoder;

use crate::protocol::{MAX_PAYLOAD_FIELD, MAX_WIRE_FRAME};

verus! {

#[verifier::external_type_specification]
#[verifier::external_body]
pub struct ExFrameDecoder(donglora_protocol::FrameDecoder);

/// The longest run of bytes that the decoder keeps.
pub const MAX_ENCODED_RUN: usize = 283;

/// What one run of inbound bytes was.
#[derive(Debug, PartialEq, Eq)]
pub enum FrameWork {
    /// A frame that decoded.
    Decoded { type_id: u8, tag: u16, payload: Vec<u8> },
    /// A run that failed its checks.
    Bad,
}

/// What one run of inbound bytes was, the payload as a sequence.
pub enum FrameView {
    Decoded { type_id: u8, tag: u16, payload: Seq<u8> },
    Bad,
}

impl View for FrameWork {
    type V = FrameView;

    open spec fn view(&self) -> FrameView {
        match self {
            FrameWork::Decoded { type_id, tag, payload } => FrameView::Decoded {
                type_id: *type_id,
                tag: *tag,
                payload: payload@,
            },
            FrameWork::Bad => FrameView::Bad,
        }
    }
}

/// The views of a list of frames.
pub open spec fn frame_views(works: Seq<FrameWork>) -> Seq<FrameView> {
    works.map_values(|w: FrameWork| w@)
}

/// What `donglora_protocol::encode_frame` writes.
pub uninterp spec fn encoded_frame(type_id: u8, tag: u16, payload: Seq<u8>) -> Seq<u8>;

/// What `donglora_protocol::FrameDecoder::feed` reads from a run of bytes
/// between two zero bytes: type, tag and payload, or `None` where the run
/// fails its length, stuffing or checksum.
pub uninterp spec fn decoded_frame(run: Seq<u8>) -> Option<(u8, u16, Seq<u8>)>;

/// The bytes that a decoder holds since the last zero byte.
pub uninterp spec fn decoder_partial(d: FrameDecoder) -> Seq<u8>;

/// A decoder drops everything up to the next zero byte.
pub uninterp spec fn decoder_skipping(d: FrameDecoder) -> bool;

/// `donglora_protocol::encode_frame`: encodes a frame, and refuses a payload
/// of more than 275 bytes. The result is a run without zeros and one zero at
/// the end, and its run decodes to what was encoded.
#[verifier::external_body]
pub(crate) fn encode_frame(type_id: u8, tag: u16, payload: &[u8]) -> (r: Result<Vec<u8>, String>)
    ensures
        r is Ok <==> payload@.len() <= MAX_PAYLOAD_FIELD,
        r is Ok ==> r->Ok_0@ == encoded_frame(type_id, tag, payload@),
        r is Ok ==> is_wire_frame(r->Ok_0@),
        r is Ok ==> decoded_frame(r->Ok_0@.drop_last()) == Some((type_id, tag, payload@)),
        r is Err ==> r->Err_0@ == "PayloadTooLarge"@,
{
    let mut wire = [0u8; donglora_protocol::MAX_WIRE_FRAME];
    match donglora_protocol::encode_frame(type_id, tag, payload, &mut wire) {
        Ok(n) => Ok(wire[..n].to_vec()),
        Err(e) => Err(format!("{e:?}")),
    }
}

/// A run of bytes other than zero that the decoder can hold, and a zero.
pub open spec fn is_wire_frame(w: Seq<u8>) -> bool {
    &&& 2 <= w.len() <= MAX_WIRE_FRAME
    &&& w.last() == 0
    &&& forall|i: int| 0 <= i < w.len() - 1 ==> w[i] != 0
}

/// What a decoder has accumulated.
pub struct Accumulator {
    pub partial: Seq<u8>,
    pub skipping: bool,
}

impl Accumulator {
    /// Between two frames.
    pub open spec fn empty() -> Accumulator {
        Accumulator { partial: Seq::empty(), skipping: false }
    }

    /// What is held after one more byte. A zero ends the run. A run that
    /// grows too long is dropped, and so is the rest of it.
    pub open spec fn after(self, byte: u8) -> Accumulator {
        if byte == 0 {
            Accumulator::empty()
        } else if self.skipping {
            self
        } else if self.partial.len() < MAX_ENCODED_RUN {
            Accumulator { partial: self.partial.push(byte), skipping: false }
        } else {
            Accumulator { partial: Seq::empty(), skipping: true }
        }
    }

    /// What one more byte makes known: a zero that ends a run of bytes tells
    /// what the run was.
    pub open spec fn emitted(self, byte: u8) -> Seq<FrameView> {
        if byte == 0 && !self.skipping && self.partial.len() > 0 {
            seq![
                match decoded_frame(self.partial) {
                    Some((type_id, tag, payload)) => FrameView::Decoded { type_id, tag, payload },
                    None => FrameView::Bad,
                },
            ]
        } else {
            Seq::empty()
        }
    }

    /// What is held after all bytes of `data`.
    pub open spec fn fed(self, data: Seq<u8>) -> Accumulator
        decreases data.len(),
    {
        if data.len() == 0 {
            self
        } else {
            self.fed(data.drop_last()).after(data.last())
        }
    }

    /// The frames that the bytes of `data` make known, in order.
    pub open spec fn frames(self, data: Seq<u8>) -> Seq<FrameView>
        decreases data.len(),
    {
        if data.len() == 0 {
            Seq::empty()
        } else {
            self.frames(data.drop_last()) + self.fed(data.drop_last()).emitted(data.last())
        }
    }
}

/// What a decoder holds.
pub open spec fn decoder_holds(d: FrameDecoder) -> Accumulator {
    Accumulator { partial: decoder_partial(d), skipping: decoder_skipping(d) }
}

/// `donglora_protocol::FrameDecoder::new`: a decoder that holds nothing.
#[verifier::external_body]
pub(crate) fn new_decoder() -> (r: FrameDecoder)
    ensures
        decoder_partial(r) == Seq::<u8>::empty(),
        !decoder_skipping(r),
{
    FrameDecoder::new()
}

fn note_frame(works: &mut Vec<FrameWork>, type_id: u8, tag: u16, payload: &[u8])
    ensures
        frame_views(final(works)@) == frame_views(old(works)@).push(FrameView::Decoded { type_id, tag, payload: payload@ }),
{
    let payload = vstd::slice::slice_to_vec(payload);
    works.push(FrameWork::Decoded { type_id, tag, payload });
    assert(frame_views(works@) =~= frame_views(old(works)@).push(
        FrameView::Decoded { type_id, tag, payload: payload@ },
    ));
}

fn note_bad_frame(works: &mut Vec<FrameWork>)
    ensures
        frame_views(final(works)@) == frame_views(old(works)@).push(FrameView::Bad),
{
    works.push(FrameWork::Bad);
    assert(frame_views(works@) =~= frame_views(old(works)@).push(FrameView::Bad));
}

/// `donglora_protocol::FrameDecoder::feed`: takes the bytes one after the
/// other and hands out a frame, or the news of a bad one, for every run that
/// a zero ends. What it holds and hands out is what `Accumulator` says.
#[verifier::external_body]
pub(crate) fn feed(decoder: &mut FrameDecoder, data: &[u8]) -> (r: Vec<FrameWork>)
    ensures
        decoder_holds(*final(decoder)) == decoder_holds(*old(decoder)).fed(data@),
        frame_views(r@) == decoder_holds(*old(decoder)).frames(data@),
{
    let mut works: Vec<FrameWork> = Vec::new();
    decoder.feed(data, |res| match res {
        donglora_protocol::FrameResult::Ok { type_id, tag, payload } => note_frame(&mut works, type_id, tag, payload),
        donglora_protocol::FrameResult::Err(_) => note_bad_frame(&mut works),
    });
    works
}

/// How the stream is cut into reads does not matter: two feeds leave the
/// decoder as one feed of both pieces does, and hand out the same frames.
pub proof fn feeding_in_pieces(a: Accumulator, first: Seq<u8>, second: Seq<u8>)
    ensures
        a.fed(first + second) == a.fed(first).fed(second),
        a.frames(first + second) == a.frames(first) + a.fed(first).frames(second),
    decreases second.len(),
{
    if second.len() == 0 {
        assert(first + second =~= first);
        assert(a.frames(first) + Seq::<FrameView>::empty() =~= a.frames(first));
    } else {
        feeding_in_pieces(a, first, second.drop_last());
        assert((first + second).drop_last() =~= first + second.drop_last());
        assert(a.frames(first + second) =~= a.frames(first) + a.fed(first).frames(second));
    }
}

/// A run of bytes other than zero is held and tells nothing.
proof fn lemma_run(run: Seq<u8>)
    requires
        run.len() <= MAX_ENCODED_RUN,
        forall|i: int| 0 <= i < run.len() ==> run[i] != 0,
    ensures
        Accumulator::empty().fed(run) == (Accumulator { partial: run, skipping: false }),
        Accumulator::empty().frames(run) == Seq::<FrameView>::empty(),
    decreases run.len(),
{
    if run.len() == 0 {
        assert(run =~= Seq::empty());
    } else {
        lemma_run(run.drop_last());
        assert(run.drop_last().push(run.last()) =~= run);
    }
}

/// What is written is read back: between two frames, the bytes of an encoded
/// frame make known that frame and no other, and the decoder is again between
/// two frames.
pub proof fn frame_round_trip(w: Seq<u8>, type_id: u8, tag: u16, payload: Seq<u8>)
    requires
        is_wire_frame(w),
        decoded_frame(w.drop_last()) == Some((type_id, tag, payload)),
    ensures
        Accumulator::empty().fed(w) == Accumulator::empty(),
        Accumulator::empty().frames(w) == seq![FrameView::Decoded { type_id, tag, payload }],
{
    lemma_run(w.drop_last());
    assert(Accumulator::empty().frames(w) =~= seq![FrameView::Decoded { type_id, tag, payload }]);
}

/// A zero byte brings every decoder back between two frames, whatever came
/// before it.
pub proof fn zero_resynchronises(a: Accumulator, garbage: Seq<u8>)
    ensures
        a.fed(garbage.push(0)) == Accumulator::empty(),
{
    assert(garbage.push(0).drop_last() =~= garbage);
}

/// Between two frames, a run of 1 to 283 bytes other than zero and the zero
/// that ends it make known one frame: the one that the run decodes to, or a bad
/// one where it decodes to none.
pub proof fn run_makes_one_frame(run: Seq<u8>)
    requires
        1 <= run.len() <= 283,
        forall|i: int| 0 <= i < run.len() ==> run[i] != 0,
    ensures
        Accumulator::empty().frames(run).len() == 0,
        Accumulator::empty().fed(run.push(0)) == Accumulator::empty(),
        Accumulator::empty().frames(run.push(0)) == match decoded_frame(run) {
            Some((type_id, tag, payload)) => seq![FrameView::Decoded { type_id, tag, payload }],
            None => seq![FrameView::Bad],
        },
{
    lemma_run(run);
    assert(run.push(0).drop_last() =~= run);
    let one = Accumulator { partial: run, skipping: false }.emitted(0);
    assert(Accumulator::empty().frames(run.push(0)) =~= one);
}

/// A run that is too long makes nothing known, and neither do zeros in a row;
/// after the next zero, the stream is between two frames again.
pub proof fn overlong_run_makes_no_frame(run: Seq<u8>)
    requires
        run.len() > 283 || run.len() == 0,
        forall|i: int| 0 <= i < run.len() ==> run[i] != 0,
    ensures
        Accumulator::empty().frames(run.push(0)).len() == 0,
        Accumulator::empty().fed(run.push(0)) == Accumulator::empty(),
{
    assert(run.push(0).drop_last() =~= run);
    if run.len() > 283 {
        lemma_overlong(run);
    } else {
        lemma_run(run);
    }
    assert(Accumulator::empty().fed(run).emitted(0).len() == 0);
}

proof fn lemma_overlong(run: Seq<u8>)
    requires
        run.len() > 283,
        forall|i: int| 0 <= i < run.len() ==> run[i] != 0,
    ensures
        Accumulator::empty().fed(run) == (Accumulator { partial: Seq::empty(), skipping: true }),
        Accumulator::empty().frames(run).len() == 0,
    decreases run.len(),
{
    if run.len() == 284 {
        lemma_run(run.drop_last());
    } else {
        lemma_overlong(run.drop_last());
    }
}

/// A frame on the wire is 2 to 284 bytes, of which the last is zero and no
/// other is.
pub proof fn wire_frames_end_in_their_only_zero(w: Seq<u8>)
    ensures
        is_wire_frame(w) <==> 2 <= w.len() <= 284 && w[w.len() - 1] == 0 && forall|i: int|
            0 <= i < w.len() - 1 ==> #[trigger] w[i] != 0,
{
}

} // verus!
