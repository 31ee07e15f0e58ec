use vstd::prelude::*;

verus! {

/// Upper bound on the bytes taken from the byte stream by one read.
pub const CHUNK_SIZE: usize = 4096;

/// A frame of the message stream, as the relay sees it.
pub enum Frame {
    Text(Vec<u8>),
    Binary(Vec<u8>),
    Close,
    /// Any other control frame (ping, pong, raw frame).
    Control,
}

/// The mathematical value of a frame.
pub enum FrameModel {
    Text(Seq<u8>),
    Binary(Seq<u8>),
    Close,
    Control,
}

impl View for Frame {
    type V = FrameModel;

    open spec fn view(&self) -> FrameModel {
        match self {
            Frame::Text(p) => FrameModel::Text(p@),
            Frame::Binary(p) => FrameModel::Binary(p@),
            Frame::Close => FrameModel::Close,
            Frame::Control => FrameModel::Control,
        }
    }
}

/// The model of a received frame, or `None` where the message stream ended.
pub open spec fn opt_frame(f: Option<Frame>) -> Option<FrameModel> {
    match f {
        Some(fr) => Some(fr@),
        None => None,
    }
}

/// The two copy directions of a session.
#[derive(Clone, Copy, Debug, PartialEq, Eq, Structural)]
pub enum Direction {
    /// Byte stream to message stream.
    Outbound,
    /// Message stream to byte stream.
    Inbound,
}

/// The operation that failed in a direction.
#[derive(Clone, Copy, Debug, PartialEq, Eq, Structural)]
pub enum Fault {
    ReadBytes,
    SendMessage,
    ReceiveMessage,
    WriteBytes,
}

/// Why one direction stopped.
#[derive(Clone, Copy, Debug, PartialEq, Eq, Structural)]
pub enum DirectionEnd {
    /// A read of zero bytes from the byte stream.
    EndOfStream,
    /// The peer sent a close frame.
    CloseFrame,
    /// The message stream ended without a close frame.
    PeerVanished,
    Failed(Fault),
}

/// What the outbound direction does with one read.
pub enum OutboundAction {
    /// Send one binary frame with this payload.
    Forward(Vec<u8>),
    Stop,
}

pub enum OutboundStep {
    Forward(Seq<u8>),
    Stop,
}

impl View for OutboundAction {
    type V = OutboundStep;

    open spec fn view(&self) -> OutboundStep {
        match self {
            OutboundAction::Forward(p) => OutboundStep::Forward(p@),
            OutboundAction::Stop => OutboundStep::Stop,
        }
    }
}

/// What the inbound direction does with one receive.
pub enum InboundAction {
    /// Write these bytes to the byte stream, then flush.
    Write(Vec<u8>),
    /// Nothing to write; receive the next frame.
    Skip,
    Stop(DirectionEnd),
}

pub enum InboundStep {
    Write(Seq<u8>),
    Skip,
    Stop(DirectionEnd),
}

impl View for InboundAction {
    type V = InboundStep;

    open spec fn view(&self) -> InboundStep {
        match self {
            InboundAction::Write(p) => InboundStep::Write(p@),
            InboundAction::Skip => InboundStep::Skip,
            InboundAction::Stop(e) => InboundStep::Stop(*e),
        }
    }
}

/// One read of `chunk`: an empty read is the end of the byte stream; any
/// other becomes exactly one binary frame carrying the chunk unchanged.
pub open spec fn outbound_spec(chunk: Seq<u8>) -> OutboundStep {
    if chunk.len() == 0 {
        OutboundStep::Stop
    } else {
        OutboundStep::Forward(chunk)
    }
}

/// One receive: data frames are written out as their payload bytes, a close
/// frame or the end of the stream stops the direction, other control frames
/// are passed over.
pub open spec fn inbound_spec(f: Option<FrameModel>) -> InboundStep {
    match f {
        None => InboundStep::Stop(DirectionEnd::PeerVanished),
        Some(FrameModel::Text(p)) => InboundStep::Write(p),
        Some(FrameModel::Binary(p)) => InboundStep::Write(p),
        Some(FrameModel::Close) => InboundStep::Stop(DirectionEnd::CloseFrame),
        Some(FrameModel::Control) => InboundStep::Skip,
    }
}

/// Decides what to do after a read of `n` bytes into `buf`.
pub fn outbound_step(buf: &[u8], n: usize) -> (r: OutboundAction)
    requires
        n <= buf.len(),
    ensures
        r@ == outbound_spec(buf@.subrange(0, n as int)),
{
    if n == 0 {
        return OutboundAction::Stop;
    }
    let mut payload: Vec<u8> = Vec::with_capacity(n);
    let mut i: usize = 0;
    while i < n
        invariant
            i <= n,
            n <= buf.len(),
            payload@ == buf@.subrange(0, i as int),
        decreases n - i,
    {
        payload.push(buf[i]);
        i = i + 1;
        assert(payload@ =~= buf@.subrange(0, i as int));
    }
    OutboundAction::Forward(payload)
}

/// Decides what to do with a received frame (`None`: the stream ended).
pub fn inbound_step(frame: Option<Frame>) -> (r: InboundAction)
    ensures
        r@ == inbound_spec(opt_frame(frame)),
{
    match frame {
        None => InboundAction::Stop(DirectionEnd::PeerVanished),
        Some(Frame::Text(p)) => InboundAction::Write(p),
        Some(Frame::Binary(p)) => InboundAction::Write(p),
        Some(Frame::Close) => InboundAction::Stop(DirectionEnd::CloseFrame),
        Some(Frame::Control) => InboundAction::Skip,
    }
}

/// The chunks joined end to end.
pub open spec fn concat(chunks: Seq<Seq<u8>>) -> Seq<u8>
    decreases chunks.len(),
{
    if chunks.len() == 0 {
        Seq::empty()
    } else {
        chunks[0] + concat(chunks.drop_first())
    }
}

/// The frames that the outbound direction sends for a run of reads, up to the
/// first empty read.
pub open spec fn sent_frames(reads: Seq<Seq<u8>>) -> Seq<FrameModel>
    decreases reads.len(),
{
    if reads.len() == 0 {
        Seq::empty()
    } else {
        match outbound_spec(reads[0]) {
            OutboundStep::Forward(p) => seq![FrameModel::Binary(p)] + sent_frames(reads.drop_first()),
            OutboundStep::Stop => Seq::empty(),
        }
    }
}

/// The payload bytes of the data frames, joined in order.
pub open spec fn payloads(frames: Seq<FrameModel>) -> Seq<u8>
    decreases frames.len(),
{
    if frames.len() == 0 {
        Seq::empty()
    } else {
        match frames[0] {
            FrameModel::Text(p) => p + payloads(frames.drop_first()),
            FrameModel::Binary(p) => p + payloads(frames.drop_first()),
            _ => payloads(frames.drop_first()),
        }
    }
}

/// The bytes that the inbound direction writes for a run of received frames,
/// up to the point where it stops.
pub open spec fn written_bytes(frames: Seq<FrameModel>) -> Seq<u8>
    decreases frames.len(),
{
    if frames.len() == 0 {
        Seq::empty()
    } else {
        match inbound_spec(Some(frames[0])) {
            InboundStep::Write(p) => p + written_bytes(frames.drop_first()),
            InboundStep::Skip => written_bytes(frames.drop_first()),
            InboundStep::Stop(_) => Seq::empty(),
        }
    }
}

pub open spec fn is_data(f: FrameModel) -> bool {
    f is Text || f is Binary
}

/// Bytes read from the byte stream reach the message peer as binary frames,
/// one per read, whose payloads joined in order are exactly the bytes read.
pub proof fn lemma_outbound_preserves_bytes(reads: Seq<Seq<u8>>)
    requires
        forall|i: int| 0 <= i < reads.len() ==> reads[i].len() > 0,
    ensures
        sent_frames(reads).len() == reads.len(),
        forall|i: int| 0 <= i < reads.len() ==> sent_frames(reads)[i] == FrameModel::Binary(reads[i]),
        payloads(sent_frames(reads)) == concat(reads),
    decreases reads.len(),
{
    if reads.len() > 0 {
        let rest = reads.drop_first();
        assert forall|i: int| 0 <= i < rest.len() implies rest[i].len() > 0 by {
            assert(rest[i] == reads[i + 1]);
        }
        lemma_outbound_preserves_bytes(rest);
        let frames = sent_frames(reads);
        assert(frames == seq![FrameModel::Binary(reads[0])] + sent_frames(rest));
        assert(frames.drop_first() =~= sent_frames(rest));
        assert forall|i: int| 0 <= i < reads.len() implies sent_frames(reads)[i]
            == FrameModel::Binary(reads[i]) by {
            if i > 0 {
                assert(sent_frames(reads)[i] == sent_frames(rest)[i - 1]);
                assert(rest[i - 1] == reads[i]);
            }
        }
    }
}

/// The bytes written to the byte stream for a run of binary and text frames
/// are the frames' payloads joined in the order received.
pub proof fn lemma_inbound_preserves_bytes(frames: Seq<FrameModel>)
    requires
        forall|i: int| 0 <= i < frames.len() ==> is_data(#[trigger] frames[i]),
    ensures
        written_bytes(frames) == payloads(frames),
    decreases frames.len(),
{
    if frames.len() > 0 {
        let rest = frames.drop_first();
        assert forall|i: int| 0 <= i < rest.len() implies is_data(#[trigger] rest[i]) by {
            assert(rest[i] == frames[i + 1]);
        }
        lemma_inbound_preserves_bytes(rest);
        assert(is_data(frames[0]));
    }
}

/// What one end sends outbound, the other end writes out unchanged: bytes
/// read on one side, framed and then unframed, come out as they went in.
pub proof fn lemma_relay_round_trip(reads: Seq<Seq<u8>>)
    requires
        forall|i: int| 0 <= i < reads.len() ==> reads[i].len() > 0,
    ensures
        written_bytes(sent_frames(reads)) == concat(reads),
{
    lemma_outbound_preserves_bytes(reads);
    let frames = sent_frames(reads);
    assert forall|i: int| 0 <= i < frames.len() implies is_data(#[trigger] frames[i]) by {
        assert(frames[i] == FrameModel::Binary(reads[i]));
    }
    lemma_inbound_preserves_bytes(frames);
}

} // verus!
