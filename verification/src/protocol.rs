//! What the two ends make of each other: laws that follow one request from
//! the client's command to the client's result.
//!
//! They are stated over the functions that the contracts of the codec, the
//! frame reader, the handler and the exchange use, and hold for every command
//! and every value of the clipboard.

use vstd::prelude::*;
use vstd::utf8::*;
use crate::client::result_of_text;
use crate::client::ClientErrorView;
use crate::codec::bytes_of_request;
use crate::codec::lemma_request_round_trip;
use crate::codec::lemma_request_text_round_trip;
use crate::codec::lemma_response_text_round_trip;
use crate::codec::request_of_bytes;
use crate::codec::request_of_text;
use crate::codec::tag_error;
use crate::codec::text_of_request;
use crate::codec::text_of_response;
use crate::codec::CommandView;
use crate::codec::DecodeError;
use crate::codec::ResponseView;
use crate::frame::after_reads;
use crate::frame::chunks_of;
use crate::frame::lemma_chunked_message_is_received;
use crate::frame::FrameView;
use crate::handler::response_to;
use crate::handler::unknown_message;
use crate::handler::value_after_frame;
use crate::store::value_after;

verus! {

/// A reader that has received nothing.
pub open spec fn fresh_reader() -> FrameView {
    FrameView { received: Seq::<u8>::empty(), complete: false }
}

/// A request that the client encodes and the transport delivers in chunks
/// arrives whole: the server's reader ends the frame with the last chunk, and
/// the frame's bytes decode to the request that was sent.
pub proof fn lemma_request_arrives(command: CommandView)
    ensures
        after_reads(fresh_reader(), chunks_of(bytes_of_request(command))) == (FrameView {
            received: bytes_of_request(command),
            complete: true,
        }),
        valid_utf8(bytes_of_request(command)),
        decode_utf8(bytes_of_request(command)) == text_of_request(command),
        request_of_bytes(bytes_of_request(command)) == Ok::<CommandView, DecodeError>(command),
{
    let bytes = bytes_of_request(command);
    lemma_chunked_message_is_received(fresh_reader(), bytes);
    assert(fresh_reader().received + bytes =~= bytes);
    encode_utf8_valid_utf8(text_of_request(command));
    encode_utf8_decode_utf8(text_of_request(command));
    lemma_request_round_trip(command);
}

/// The server answers every request with a success whose payload is the
/// value that the clipboard holds once the request has been applied, and the
/// clipboard then holds that value.
pub proof fn lemma_request_is_served(command: CommandView, value: Seq<char>)
    ensures
        response_to(text_of_request(command), value) == ResponseView::Success(
            value_after(command, value),
        ),
        value_after_frame(text_of_request(command), value) == value_after(command, value),
{
    lemma_request_text_round_trip(command);
}

/// The client's result for every request is the success that the server
/// answered with: the value of the clipboard after the request.
pub proof fn lemma_exchange_returns_the_new_value(command: CommandView, value: Seq<char>)
    ensures
        result_of_text(text_of_response(response_to(text_of_request(command), value))) == Ok::<
            ResponseView,
            ClientErrorView,
        >(ResponseView::Success(value_after(command, value))),
{
    lemma_request_is_served(command, value);
    lemma_response_text_round_trip(response_to(text_of_request(command), value));
}

/// A frame that is no request is answered with a failure, which the client
/// hands on as `ServerRejected` with the whole text of the reply:
/// `ERROR:Unknown message ` and the frame. The clipboard is as it was.
pub proof fn lemma_unknown_frame_is_rejected(data: Seq<char>, value: Seq<char>)
    requires
        request_of_text(data) is Err,
    ensures
        result_of_text(text_of_response(response_to(data, value))) == Err::<
            ResponseView,
            ClientErrorView,
        >(ClientErrorView::ServerRejected(tag_error() + unknown_message(data))),
        value_after_frame(data, value) == value,
{
    lemma_response_text_round_trip(response_to(data, value));
}

/// What one client writes, the next client reads: after a `WRITE:` of a
/// text, a `READ:` is answered with that text, whatever the clipboard held
/// before.
pub proof fn lemma_written_text_is_read_back(text: Seq<char>, value: Seq<char>)
    ensures
        response_to(
            text_of_request(CommandView::Read),
            value_after_frame(text_of_request(CommandView::Write(text)), value),
        ) == ResponseView::Success(text),
{
    lemma_request_is_served(CommandView::Write(text), value);
    lemma_request_is_served(CommandView::Read, text);
}

/// After a `CLEAR:`, a `READ:` is answered with the empty text, whatever the
/// clipboard held before.
pub proof fn lemma_cleared_clipboard_reads_empty(value: Seq<char>)
    ensures
        response_to(text_of_request(CommandView::Clear), value) == ResponseView::Success(
            Seq::<char>::empty(),
        ),
        response_to(
            text_of_request(CommandView::Read),
            value_after_frame(text_of_request(CommandView::Clear), value),
        ) == ResponseView::Success(Seq::<char>::empty()),
{
    lemma_request_is_served(CommandView::Clear, value);
    lemma_request_is_served(CommandView::Read, Seq::<char>::empty());
}

} // verus!
