//! Length-prefixed message framing.
//!
//! A frame is a header of four bytes followed by the payload. The header holds
//! the payload's length as an unsigned 32-bit number, least significant byte
//! first, on every host.

use vstd::prelude::*;

verus! {

/// Largest payload length that a header can announce.
pub const MAX_PAYLOAD: usize = 0xffff_ffff;

/// Why a frame could not be built or read.
#[derive(Clone, Copy, Debug, PartialEq, Eq, Structural)]
pub enum FramingError {
    /// The payload is longer than a header can announce.
    PayloadTooLarge,
    /// The stream ended before the announced number of bytes had arrived.
    Truncated,
}

/// The header that announces a payload of `len` bytes.
pub open spec fn header_of(len: nat) -> Seq<u8> {
    seq![
        (len % 256) as u8,
        ((len / 256) % 256) as u8,
        ((len / 65536) % 256) as u8,
        ((len / 16777216) % 256) as u8,
    ]
}

/// The payload length that the four header bytes `header` announce.
pub open spec fn announced_len(header: Seq<u8>) -> nat
    recommends
        header.len() == 4,
{
    (header[0] as nat) + 256 * (header[1] as nat) + 65536 * (header[2] as nat) + 16777216 * (
    header[3] as nat)
}

/// The frame that carries `payload`.
pub open spec fn frame_of(payload: Seq<u8>) -> Seq<u8> {
    header_of(payload.len()) + payload
}

/// Reading back the header of a length that fits gives that length.
pub proof fn lemma_header_round_trip(len: nat)
    requires
        len <= MAX_PAYLOAD,
    ensures
        header_of(len).len() == 4,
        announced_len(header_of(len)) == len,
{
}

/// Writes the header for a payload of `len` bytes.
pub fn encode_header(len: u32) -> (header: Vec<u8>)
    ensures
        header@ == header_of(len as nat),
{
    let mut header: Vec<u8> = Vec::with_capacity(4);
    header.push((len % 256) as u8);
    header.push(((len / 256) % 256) as u8);
    header.push(((len / 65536) % 256) as u8);
    header.push(((len / 16777216) % 256) as u8);
    assert(header@ =~= header_of(len as nat));
    header
}

/// Reads the payload length out of four header bytes.
pub fn decode_header(header: &[u8]) -> (len: u32)
    requires
        header@.len() == 4,
    ensures
        len == announced_len(header@),
{
    let b0: u32 = header[0] as u32;
    let b1: u32 = header[1] as u32;
    let b2: u32 = header[2] as u32;
    let b3: u32 = header[3] as u32;
    b0 + 256 * b1 + 65536 * b2 + 16777216 * b3
}

/// Builds the frame for `payload`: its header, then the payload unchanged.
/// Fails exactly when the payload is too long for a header to announce.
pub fn encode_frame(payload: &[u8]) -> (r: Result<Vec<u8>, FramingError>)
    ensures
        payload@.len() <= MAX_PAYLOAD ==> r is Ok && r->Ok_0@ == frame_of(payload@),
        payload@.len() > MAX_PAYLOAD ==> r == Err::<Vec<u8>, FramingError>(
            FramingError::PayloadTooLarge,
        ),
{
    if payload.len() > MAX_PAYLOAD {
        return Err(FramingError::PayloadTooLarge);
    }
    let mut frame = encode_header(payload.len() as u32);
    frame.extend_from_slice(payload);
    Ok(frame)
}

/// What a reader keeps of `stream` when it reads one frame from its start:
/// the whole stream while the frame is not yet complete, and the frame alone
/// once it is.
pub open spec fn frame_prefix(stream: Seq<u8>) -> Seq<u8> {
    if stream.len() <= 4 {
        stream
    } else {
        let total = 4 + announced_len(stream.take(4));
        if stream.len() <= total {
            stream
        } else {
            stream.take(total as int)
        }
    }
}

/// Whether `received` is exactly one whole frame.
pub open spec fn is_complete(received: Seq<u8>) -> bool {
    received.len() >= 4 && received.len() == 4 + announced_len(received.take(4))
}

/// How many bytes a reader that holds `received` still has to read.
pub open spec fn missing_after(received: Seq<u8>) -> nat {
    if received.len() < 4 {
        (4 - received.len()) as nat
    } else {
        (4 + announced_len(received.take(4)) - received.len()) as nat
    }
}

/// What reading one frame from the whole of `stream` gives: the payload, or
/// `Truncated` when the stream ends inside the frame.
pub open spec fn decoded(stream: Seq<u8>) -> Result<Seq<u8>, FramingError> {
    if is_complete(frame_prefix(stream)) {
        Ok(frame_prefix(stream).skip(4))
    } else {
        Err(FramingError::Truncated)
    }
}

/// What a reader holds after the pieces `chunks` have arrived one after the
/// other, when it held `received` before.
pub open spec fn fed_all(received: Seq<u8>, chunks: Seq<Seq<u8>>) -> Seq<u8>
    decreases chunks.len(),
{
    if chunks.len() == 0 {
        received
    } else {
        fed_all(frame_prefix(received + chunks.first()), chunks.drop_first())
    }
}

/// Reading in two steps keeps what reading in one step keeps.
pub proof fn lemma_frame_prefix_step(a: Seq<u8>, b: Seq<u8>)
    ensures
        frame_prefix(frame_prefix(a) + b) == frame_prefix(a + b),
{
    let fa = frame_prefix(a);
    if a.len() <= 4 {
        assert(fa == a);
    } else {
        let total = 4 + announced_len(a.take(4));
        assert((a + b).take(4) =~= a.take(4));
        if a.len() <= total {
            assert(fa == a);
        } else {
            assert(fa == a.take(total as int));
            assert((fa + b).take(4) =~= a.take(4));
            assert((fa + b).take(total as int) =~= fa);
            assert((a + b).take(total as int) =~= fa);
        }
    }
}

/// A whole frame followed by anything reads back as that frame alone, which is
/// complete and holds the payload.
pub proof fn lemma_frame_then_rest(payload: Seq<u8>, rest: Seq<u8>)
    requires
        payload.len() <= MAX_PAYLOAD,
    ensures
        frame_prefix(frame_of(payload) + rest) == frame_of(payload),
        is_complete(frame_of(payload)),
        frame_of(payload).skip(4) == payload,
        decoded(frame_of(payload) + rest) == Ok::<Seq<u8>, FramingError>(payload),
{
    let frame = frame_of(payload);
    let stream = frame + rest;
    lemma_header_round_trip(payload.len());
    assert(frame.take(4) =~= header_of(payload.len()));
    assert(stream.take(4) =~= header_of(payload.len()));
    assert(frame.skip(4) =~= payload);
    assert(stream.take(frame.len() as int) =~= frame);
    if stream.len() <= 4 {
        assert(stream =~= frame);
    }
    assert(frame_prefix(stream) =~= frame);
}

/// Reading piece by piece keeps what reading the joined pieces at once keeps.
pub proof fn lemma_fed_all(received: Seq<u8>, chunks: Seq<Seq<u8>>)
    ensures
        fed_all(frame_prefix(received), chunks) == frame_prefix(received + chunks.flatten()),
    decreases chunks.len(),
{
    if chunks.len() == 0 {
        assert(chunks.flatten() =~= Seq::<u8>::empty());
        assert(received + chunks.flatten() =~= received);
        lemma_frame_prefix_step(received, Seq::<u8>::empty());
        assert(frame_prefix(received) + Seq::<u8>::empty() =~= frame_prefix(received));
    } else {
        let first = chunks.first();
        let others = chunks.drop_first();
        lemma_frame_prefix_step(received, first);
        lemma_fed_all(received + first, others);
        assert(chunks.flatten() == first + others.flatten());
        assert((received + first) + others.flatten() =~= received + chunks.flatten());
    }
}

/// However the stream cuts a frame into pieces, down to one byte at a time, a
/// reader that is fed the pieces in order ends with the whole frame and hands
/// back exactly the payload that was framed.
pub proof fn lemma_decode_in_pieces(payload: Seq<u8>, chunks: Seq<Seq<u8>>)
    requires
        payload.len() <= MAX_PAYLOAD,
        chunks.flatten() == frame_of(payload),
    ensures
        fed_all(Seq::<u8>::empty(), chunks) == frame_of(payload),
        is_complete(fed_all(Seq::<u8>::empty(), chunks)),
        fed_all(Seq::<u8>::empty(), chunks).skip(4) == payload,
{
    let nothing = Seq::<u8>::empty();
    lemma_fed_all(nothing, chunks);
    assert(frame_prefix(nothing) == nothing);
    assert(nothing + chunks.flatten() =~= frame_of(payload));
    lemma_frame_then_rest(payload, nothing);
    assert(frame_of(payload) + nothing =~= frame_of(payload));
}

/// The pieces of `stream` when it arrives one byte at a time.
pub open spec fn byte_by_byte(stream: Seq<u8>) -> Seq<Seq<u8>> {
    Seq::new(stream.len(), |i: int| seq![stream[i]])
}

/// Cutting a stream into single bytes and joining them gives the stream.
pub proof fn lemma_byte_by_byte_flatten(stream: Seq<u8>)
    ensures
        byte_by_byte(stream).flatten() == stream,
    decreases stream.len(),
{
    let pieces = byte_by_byte(stream);
    if stream.len() == 0 {
        assert(pieces.flatten() =~= stream);
    } else {
        let tail = stream.drop_first();
        assert(pieces.drop_first() =~= byte_by_byte(tail));
        lemma_byte_by_byte_flatten(tail);
        assert(pieces.flatten() == pieces.first() + pieces.drop_first().flatten());
        assert(pieces.first() + tail =~= stream);
    }
}

/// A frame that arrives one byte at a time is read back as the payload that
/// was framed.
pub proof fn lemma_decode_byte_by_byte(payload: Seq<u8>)
    requires
        payload.len() <= MAX_PAYLOAD,
    ensures
        is_complete(fed_all(Seq::<u8>::empty(), byte_by_byte(frame_of(payload)))),
        fed_all(Seq::<u8>::empty(), byte_by_byte(frame_of(payload))).skip(4) == payload,
{
    lemma_byte_by_byte_flatten(frame_of(payload));
    lemma_decode_in_pieces(payload, byte_by_byte(frame_of(payload)));
}

/// Reads one frame from a stream that delivers it in pieces of any size.
///
/// The reader is fed each piece as it arrives and keeps only the bytes of the
/// first frame. Its view is the bytes it has kept so far.
pub struct FrameDecoder {
    header: Vec<u8>,
    payload: Vec<u8>,
}

impl View for FrameDecoder {
    type V = Seq<u8>;

    closed spec fn view(&self) -> Seq<u8> {
        self.header@ + self.payload@
    }
}

impl FrameDecoder {
    /// Whether the reader holds the start of one frame and nothing more. Every
    /// reader made by `new` does, and `feed` keeps it so.
    pub closed spec fn wf(&self) -> bool {
        &&& self.header@.len() <= 4
        &&& self.header@.len() < 4 ==> self.payload@.len() == 0
        &&& self.header@.len() == 4 ==> self.payload@.len() <= announced_len(self.header@)
    }

    /// A reader that has read nothing yet.
    pub fn new() -> (r: Self)
        ensures
            r.wf(),
            r@ == Seq::<u8>::empty(),
    {
        let r = FrameDecoder { header: Vec::new(), payload: Vec::new() };
        assert(r@ =~= Seq::<u8>::empty());
        r
    }

    /// Number of bytes that the reader still needs: zero exactly when the
    /// frame is complete.
    pub fn missing(&self) -> (n: usize)
        requires
            self.wf(),
        ensures
            n == missing_after(self@),
            n == 0 <==> is_complete(self@),
    {
        proof {
            if self.header@.len() == 4 {
                assert(self@.take(4) =~= self.header@);
            }
        }
        if self.header.len() < 4 {
            4 - self.header.len()
        } else {
            let declared = decode_header(self.header.as_slice()) as usize;
            declared - self.payload.len()
        }
    }

    /// Takes the next piece of the stream. The reader keeps the bytes that
    /// still belong to its frame and returns how many of `chunk` those were;
    /// what follows them in `chunk` is left untouched.
    pub fn feed(&mut self, chunk: &[u8]) -> (used: usize)
        requires
            old(self).wf(),
        ensures
            final(self).wf(),
            final(self)@ == frame_prefix(old(self)@ + chunk@),
            final(self)@ == old(self)@ + chunk@.take(used as int),
            used <= chunk@.len(),
    {
        let mut i: usize = 0;
        while i < chunk.len() && self.header.len() < 4
            invariant
                i <= chunk@.len(),
                self.header@.len() <= 4,
                self.header@.len() < 4 ==> self.payload@.len() == 0,
                self.header@.len() == 4 ==> self.payload@.len() <= announced_len(self.header@),
                self@ == old(self)@ + chunk@.take(i as int),
            decreases chunk@.len() - i,
        {
            let b = chunk[i];
            let ghost before = self@;
            self.header.push(b);
            i += 1;
            assert(self@ =~= before.push(b));
            assert(chunk@.take(i as int) =~= chunk@.take(i - 1).push(b));
            assert(self@ =~= old(self)@ + chunk@.take(i as int));
        }
        if self.header.len() == 4 {
            let declared = decode_header(self.header.as_slice()) as usize;
            while i < chunk.len() && self.payload.len() < declared
                invariant
                    i <= chunk@.len(),
                    self.header@.len() == 4,
                    declared == announced_len(self.header@),
                    self.payload@.len() <= declared,
                    self@ == old(self)@ + chunk@.take(i as int),
                decreases chunk@.len() - i,
            {
                let b = chunk[i];
                let ghost before = self@;
                self.payload.push(b);
                i += 1;
                assert(self@ =~= before.push(b));
                assert(chunk@.take(i as int) =~= chunk@.take(i - 1).push(b));
                assert(self@ =~= old(self)@ + chunk@.take(i as int));
            }
        }
        proof {
            let all = old(self)@ + chunk@;
            if i == chunk@.len() {
                assert(chunk@.take(i as int) =~= chunk@);
                if self.header@.len() == 4 {
                    assert(self@.take(4) =~= self.header@);
                }
            } else {
                assert(self@.take(4) =~= self.header@);
                assert(all.take(4) =~= self.header@);
                assert(all.take(self@.len() as int) =~= self@);
            }
        }
        i
    }

    /// Ends the reading: the payload when the frame is complete, `Truncated`
    /// when the stream closed before that.
    pub fn finish(self) -> (r: Result<Vec<u8>, FramingError>)
        requires
            self.wf(),
        ensures
            is_complete(self@) ==> r is Ok && r->Ok_0@ == self@.skip(4),
            !is_complete(self@) ==> r == Err::<Vec<u8>, FramingError>(FramingError::Truncated),
    {
        proof {
            if self.header@.len() == 4 {
                assert(self@.take(4) =~= self.header@);
                assert(self@.skip(4) =~= self.payload@);
            }
        }
        if self.header.len() < 4 {
            return Err(FramingError::Truncated);
        }
        let declared = decode_header(self.header.as_slice()) as usize;
        if self.payload.len() < declared {
            return Err(FramingError::Truncated);
        }
        Ok(self.payload)
    }
}

/// Reads one frame from the start of `stream`, which holds everything that
/// arrived before the connection closed. Bytes after the frame are ignored.
pub fn decode_frame(stream: &[u8]) -> (r: Result<Vec<u8>, FramingError>)
    ensures
        decoded(stream@) is Ok ==> r is Ok && r->Ok_0@ == decoded(stream@)->Ok_0,
        decoded(stream@) is Err ==> r == Err::<Vec<u8>, FramingError>(FramingError::Truncated),
{
    let mut reader = FrameDecoder::new();
    let _ = reader.feed(stream);
    assert(Seq::<u8>::empty() + stream@ =~= stream@);
    reader.finish()
}

/// The sequences of bytes that the pieces `chunks` hold.
pub open spec fn pieces_of(chunks: Seq<Vec<u8>>) -> Seq<Seq<u8>> {
    Seq::new(chunks.len(), |i: int| chunks[i]@)
}

/// Reads one frame from a stream that arrived in the pieces `chunks`, in
/// this order. The result is that of reading the joined pieces at once,
/// however the stream was cut.
pub fn decode_pieces(chunks: &Vec<Vec<u8>>) -> (r: Result<Vec<u8>, FramingError>)
    ensures
        decoded(pieces_of(chunks@).flatten()) is Ok ==> r is Ok && r->Ok_0@ == decoded(
            pieces_of(chunks@).flatten(),
        )->Ok_0,
        decoded(pieces_of(chunks@).flatten()) is Err ==> r == Err::<Vec<u8>, FramingError>(
            FramingError::Truncated,
        ),
{
    let ghost pieces = pieces_of(chunks@);
    let mut reader = FrameDecoder::new();
    let mut i: usize = 0;
    assert(pieces.take(0) =~= Seq::<Seq<u8>>::empty());
    proof {
        lemma_fed_all(Seq::<u8>::empty(), pieces.take(0));
        assert(Seq::<u8>::empty() + pieces.take(0).flatten() =~= Seq::<u8>::empty());
    }
    while i < chunks.len()
        invariant
            i <= chunks@.len(),
            pieces == pieces_of(chunks@),
            reader.wf(),
            reader@ == frame_prefix(pieces.take(i as int).flatten()),
        decreases chunks@.len() - i,
    {
        let _ = reader.feed(chunks[i].as_slice());
        proof {
            let head = pieces.take(i as int);
            let next = pieces.take(i + 1);
            assert(next =~= head.push(chunks@[i as int]@));
            head.lemma_flatten_push(chunks@[i as int]@);
            lemma_frame_prefix_step(head.flatten(), chunks@[i as int]@);
        }
        i += 1;
    }
    assert(pieces.take(i as int) =~= pieces);
    proof {
        lemma_frame_prefix_step(pieces.flatten(), Seq::<u8>::empty());
        assert(reader@ + Seq::<u8>::empty() =~= reader@);
    }
    reader.finish()
}

/// Framing and then reading gives the payload back, whatever follows the
/// frame on the stream.
pub proof fn lemma_decode_encode(payload: Seq<u8>, rest: Seq<u8>)
    requires
        payload.len() <= MAX_PAYLOAD,
    ensures
        decoded(frame_of(payload) + rest) == Ok::<Seq<u8>, FramingError>(payload),
{
    lemma_frame_then_rest(payload, rest);
}

} // verus!
