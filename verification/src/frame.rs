//! Reading one frame off a transport that delivers it in chunks.
//!
//! A frame has no length prefix. The transport fills a buffer of
//! [`BUFFER_CAP`] bytes at a time and says how many bytes it put there; a read
//! that delivers fewer bytes than the buffer holds, or none, ends the frame.
//! A frame whose length is a multiple of the buffer's capacity therefore
//! ends only with the next read, which has to deliver nothing: until then the
//! reader cannot tell that the frame is whole.

use vstd::prelude::*;
use vstd::utf8::*;
use crate::codec::DecodeError;
use crate::text::decode_text;
use crate::text::join;

verus! {

/// The size of the buffer that each read fills. Both ends use it.
pub const BUFFER_CAP: usize = 512;

/// What a reader needs after a read.
#[derive(Debug, Clone, Copy, PartialEq, Eq, Structural)]
pub enum FrameStatus {
    /// The frame may go on: read again.
    Incomplete,
    /// The frame has ended.
    Complete,
}

/// The bytes of a frame received so far.
pub struct FrameReader {
    received: Vec<u8>,
    complete: bool,
}

/// The mathematical value of a [`FrameReader`].
pub struct FrameView {
    /// The bytes received so far, in order.
    pub received: Seq<u8>,
    /// Whether a read has ended the frame.
    pub complete: bool,
}

impl View for FrameReader {
    type V = FrameView;

    closed spec fn view(&self) -> FrameView {
        FrameView { received: self.received@, complete: self.complete }
    }
}

/// The bytes that a read delivered: the first `count` bytes of the buffer.
/// What the buffer holds behind them is padding.
pub open spec fn delivered(buffer: Seq<u8>, count: nat) -> Seq<u8> {
    if count <= buffer.len() {
        buffer.take(count as int)
    } else {
        buffer
    }
}

/// Whether a read of `count` bytes ends the frame.
pub open spec fn ends_frame(count: nat) -> bool {
    count == 0 || count < BUFFER_CAP
}

/// The reader after a read that put `count` bytes into `buffer`. A reader
/// whose frame has ended takes no more bytes.
pub open spec fn after_read(reader: FrameView, buffer: Seq<u8>, count: nat) -> FrameView {
    if reader.complete {
        reader
    } else {
        FrameView {
            received: reader.received + delivered(buffer, count),
            complete: ends_frame(count),
        }
    }
}

/// The reader after a run of reads, each of which filled its buffer with as
/// many bytes as the chunk has.
pub open spec fn after_reads(reader: FrameView, chunks: Seq<Seq<u8>>) -> FrameView
    decreases chunks.len(),
{
    if chunks.len() == 0 {
        reader
    } else {
        after_reads(after_read(reader, chunks[0], chunks[0].len()), chunks.drop_first())
    }
}

/// The chunks in which a transport that fills every buffer delivers
/// `message`: full buffers while it can, then one read with what is left,
/// which is nothing where the length is a multiple of the capacity.
pub open spec fn chunks_of(message: Seq<u8>) -> Seq<Seq<u8>>
    decreases message.len(),
{
    if message.len() < BUFFER_CAP {
        seq![message]
    } else {
        seq![message.take(BUFFER_CAP as int)] + chunks_of(message.skip(BUFFER_CAP as int))
    }
}

/// The bytes without padding: every zero byte is padding and is dropped,
/// every other byte is kept, in order.
pub open spec fn unpadded(bytes: Seq<u8>) -> Seq<u8> {
    bytes.filter(|byte: u8| byte != 0)
}

/// Drops the padding from what was received: the zero bytes that a peer
/// sends along where it writes out whole buffers.
pub fn without_padding(bytes: &[u8]) -> (kept: Vec<u8>)
    ensures
        kept@ == unpadded(bytes@),
{
    let mut kept: Vec<u8> = Vec::new();
    let mut i: usize = 0;
    proof {
        reveal(Seq::filter);
        assert(bytes@.take(0) =~= Seq::<u8>::empty());
    }
    while i < bytes.len()
        invariant
            i <= bytes@.len(),
            kept@ == unpadded(bytes@.take(i as int)),
        decreases bytes@.len() - i,
    {
        let byte = bytes[i];
        proof {
            reveal(Seq::filter);
            let next = bytes@.take(i + 1);
            assert(next.drop_last() =~= bytes@.take(i as int));
            assert(next.last() == byte);
        }
        if byte != 0 {
            kept.push(byte);
        }
        i += 1;
    }
    assert(bytes@.take(i as int) =~= bytes@);
    kept
}

/// Padding or none, what is kept has no zero byte, and bytes without a zero
/// byte are kept as they are.
pub proof fn lemma_unpadded(bytes: Seq<u8>)
    ensures
        forall|i: int| 0 <= i < unpadded(bytes).len() ==> unpadded(bytes)[i] != 0,
        (forall|i: int| 0 <= i < bytes.len() ==> bytes[i] != 0) ==> unpadded(bytes) == bytes,
    decreases bytes.len(),
{
    reveal(Seq::filter);
    if bytes.len() > 0 {
        lemma_unpadded(bytes.drop_last());
        if forall|i: int| 0 <= i < bytes.len() ==> bytes[i] != 0 {
            assert forall|i: int| 0 <= i < bytes.drop_last().len() implies bytes.drop_last()[i]
                != 0 by {
                assert(bytes.drop_last()[i] == bytes[i]);
            }
            assert(bytes.drop_last().push(bytes.last()) =~= bytes);
        }
    }
}

/// What is reported of a read that failed for the given cause.
pub open spec fn read_failure(cause: Seq<char>) -> Seq<char> {
    "Failed to read from socket; err = "@ + cause
}

/// Words the report of a read that failed for the given cause.
pub fn describe_read_failure(cause: &str) -> (report: String)
    ensures
        report@ == read_failure(cause@),
{
    join("Failed to read from socket; err = ", cause)
}

impl FrameReader {
    /// A reader that has received nothing.
    pub fn new() -> (reader: FrameReader)
        ensures
            reader@ == (FrameView { received: Seq::<u8>::empty(), complete: false }),
    {
        FrameReader { received: Vec::new(), complete: false }
    }

    /// Whether a read has ended the frame.
    pub fn is_complete(&self) -> (complete: bool)
        ensures
            complete == self@.complete,
    {
        self.complete
    }

    /// The bytes received so far.
    pub fn received(&self) -> (bytes: &[u8])
        ensures
            bytes@ == self@.received,
    {
        self.received.as_slice()
    }

    /// Takes in one read: the transport put `count` bytes at the start of
    /// `buffer`. Says whether the frame has ended with it.
    pub fn accept(&mut self, buffer: &[u8], count: usize) -> (status: FrameStatus)
        ensures
            final(self)@ == after_read(old(self)@, buffer@, count as nat),
            status == if final(self)@.complete {
                FrameStatus::Complete
            } else {
                FrameStatus::Incomplete
            },
    {
        if self.complete {
            return FrameStatus::Complete;
        }
        let limit: usize = if count <= buffer.len() {
            count
        } else {
            buffer.len()
        };
        let mut i: usize = 0;
        while i < limit
            invariant
                limit <= buffer@.len(),
                i <= limit,
                self.complete == old(self).complete,
                self.received@ == old(self).received@ + buffer@.take(i as int),
            decreases limit - i,
        {
            self.received.push(buffer[i]);
            i += 1;
            assert(buffer@.take(i as int) =~= buffer@.take(i - 1).push(buffer@[i - 1]));
            assert(self.received@ =~= old(self).received@ + buffer@.take(i as int));
        }
        assert(buffer@.take(limit as int) =~= delivered(buffer@, count as nat));
        if count == 0 || count < BUFFER_CAP {
            self.complete = true;
            FrameStatus::Complete
        } else {
            FrameStatus::Incomplete
        }
    }

    /// The text of the frame, or `MalformedEncoding` where the bytes
    /// received are not UTF-8.
    pub fn text(&self) -> (text: Result<String, DecodeError>)
        ensures
            match text {
                Ok(decoded) => valid_utf8(self@.received) && decoded@ == decode_utf8(
                    self@.received,
                ),
                Err(error) => !valid_utf8(self@.received) && error
                    == DecodeError::MalformedEncoding,
            },
    {
        match decode_text(self.received.as_slice()) {
            Some(text) => Ok(text),
            None => Err(DecodeError::MalformedEncoding),
        }
    }
}

/// A message delivered in full buffers and one last short read is received
/// whole, and that last read ends the frame.
pub proof fn lemma_chunked_message_is_received(reader: FrameView, message: Seq<u8>)
    requires
        !reader.complete,
    ensures
        after_reads(reader, chunks_of(message)) == (FrameView {
            received: reader.received + message,
            complete: true,
        }),
    decreases message.len(),
{
    if message.len() < BUFFER_CAP {
        let chunks = chunks_of(message);
        assert(chunks[0] == message);
        assert(chunks.drop_first() =~= Seq::<Seq<u8>>::empty());
        assert(delivered(message, message.len()) =~= message);
        assert(after_reads(after_read(reader, message, message.len()), chunks.drop_first())
            == after_read(reader, message, message.len()));
    } else {
        let head = message.take(BUFFER_CAP as int);
        let tail = message.skip(BUFFER_CAP as int);
        let chunks = chunks_of(message);
        assert(chunks[0] == head);
        assert(chunks.drop_first() =~= chunks_of(tail));
        assert(delivered(head, head.len()) =~= head);
        let next = after_read(reader, head, head.len());
        lemma_chunked_message_is_received(next, tail);
        assert(reader.received + head + tail =~= reader.received + message);
    }
}

/// A frame whose length is a multiple of the buffer's capacity is still open
/// when all its bytes have arrived in full buffers: the reader has them all
/// and waits for one more read.
pub proof fn lemma_full_buffers_leave_frame_open(reader: FrameView, message: Seq<u8>)
    requires
        !reader.complete,
        message.len() % (BUFFER_CAP as nat) == 0,
    ensures
        after_reads(reader, chunks_of(message).drop_last()) == (FrameView {
            received: reader.received + message,
            complete: false,
        }),
        chunks_of(message).last() == Seq::<u8>::empty(),
    decreases message.len(),
{
    let chunks = chunks_of(message);
    if message.len() < BUFFER_CAP {
        assert(message.len() == 0);
        assert(chunks.drop_last() =~= Seq::<Seq<u8>>::empty());
        assert(reader.received + message =~= reader.received);
        assert(message =~= Seq::<u8>::empty());
    } else {
        let head = message.take(BUFFER_CAP as int);
        let tail = message.skip(BUFFER_CAP as int);
        assert(tail.len() % (BUFFER_CAP as nat) == 0);
        let next = after_read(reader, head, head.len());
        assert(delivered(head, head.len()) =~= head);
        lemma_full_buffers_leave_frame_open(next, tail);
        assert(chunks_of(tail).len() > 0);
        assert(chunks.drop_last() =~= seq![head] + chunks_of(tail).drop_last());
        assert(chunks.last() == chunks_of(tail).last());
        assert((seq![head] + chunks_of(tail).drop_last())[0] == head);
        assert((seq![head] + chunks_of(tail).drop_last()).drop_first() =~= chunks_of(
            tail,
        ).drop_last());
        assert(reader.received + head + tail =~= reader.received + message);
    }
}

} // verus!
