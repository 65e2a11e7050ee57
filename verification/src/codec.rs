//! The command grammar: how requests and responses are written on the wire
//! and read back.
//!
//! A frame is UTF-8 text. A request is one of `READ:`, `WRITE:<text>` and
//! `CLEAR:`; a response is `SUCCESS:<text>` or `ERROR:<message>`. Nothing is
//! escaped: the payload is whatever follows the tag.

use vstd::prelude::*;
use vstd::string::*;
use vstd::utf8::*;
use crate::text::ascii_bytes;
use crate::text::decode_text;
use crate::text::encode_text;
use crate::text::join;
use crate::text::lemma_first_character_decides;
use crate::text::lemma_ascii_text_bytes;
use crate::text::lemma_prefix_of_bytes_is_prefix_of_text;
use crate::text::lemma_prefix_of_text_is_prefix_of_bytes;
use crate::text::starts_with;
use crate::text::text_after;

verus! {

/// A request to the clipboard server.
#[derive(Debug, Clone, PartialEq, Eq)]
pub enum Command {
    /// Fetch the current value.
    Read,
    /// Replace the value with the given text, which may be empty.
    Write(String),
    /// Reset the value to the empty text.
    Clear,
}

/// The mathematical value of a [`Command`].
pub enum CommandView {
    Read,
    Write(Seq<char>),
    Clear,
}

impl View for Command {
    type V = CommandView;

    open spec fn view(&self) -> CommandView {
        match self {
            Command::Read => CommandView::Read,
            Command::Write(text) => CommandView::Write(text@),
            Command::Clear => CommandView::Clear,
        }
    }
}

/// The server's answer to one request.
#[derive(Debug, Clone, PartialEq, Eq)]
pub enum Response {
    /// The operation was applied; the payload is the resulting value.
    Success(String),
    /// The operation was rejected; the payload says why.
    Failure(String),
}

/// The mathematical value of a [`Response`].
pub enum ResponseView {
    Success(Seq<char>),
    Failure(Seq<char>),
}

impl View for Response {
    type V = ResponseView;

    open spec fn view(&self) -> ResponseView {
        match self {
            Response::Success(payload) => ResponseView::Success(payload@),
            Response::Failure(message) => ResponseView::Failure(message@),
        }
    }
}

/// Why a frame could not be read as a request or a response.
#[derive(Debug, Clone, Copy, PartialEq, Eq, Structural)]
pub enum DecodeError {
    /// The frame is not UTF-8.
    MalformedEncoding,
    /// The frame begins with none of the request tags.
    UnknownCommand,
}

/// The tag `READ:`.
pub open spec fn tag_read() -> Seq<char> {
    seq!['R', 'E', 'A', 'D', ':']
}

/// The tag `WRITE:`.
pub open spec fn tag_write() -> Seq<char> {
    seq!['W', 'R', 'I', 'T', 'E', ':']
}

/// The tag `CLEAR:`.
pub open spec fn tag_clear() -> Seq<char> {
    seq!['C', 'L', 'E', 'A', 'R', ':']
}

/// The tag `SUCCESS:`.
pub open spec fn tag_success() -> Seq<char> {
    seq!['S', 'U', 'C', 'C', 'E', 'S', 'S', ':']
}

/// The tag `ERROR:`.
pub open spec fn tag_error() -> Seq<char> {
    seq!['E', 'R', 'R', 'O', 'R', ':']
}

/// The text of a request frame.
pub open spec fn text_of_request(command: CommandView) -> Seq<char> {
    match command {
        CommandView::Read => tag_read(),
        CommandView::Write(text) => tag_write() + text,
        CommandView::Clear => tag_clear(),
    }
}

/// The request that a frame's text spells: the tag it begins with decides,
/// and for `WRITE:` everything after the tag is the payload.
pub open spec fn request_of_text(text: Seq<char>) -> Result<CommandView, DecodeError> {
    if tag_read().is_prefix_of(text) {
        Ok(CommandView::Read)
    } else if tag_write().is_prefix_of(text) {
        Ok(CommandView::Write(text.skip(6)))
    } else if tag_clear().is_prefix_of(text) {
        Ok(CommandView::Clear)
    } else {
        Err(DecodeError::UnknownCommand)
    }
}

/// The bytes of a request frame.
pub open spec fn bytes_of_request(command: CommandView) -> Seq<u8> {
    encode_utf8(text_of_request(command))
}

/// The request that a frame's bytes spell.
pub open spec fn request_of_bytes(bytes: Seq<u8>) -> Result<CommandView, DecodeError> {
    if valid_utf8(bytes) {
        request_of_text(decode_utf8(bytes))
    } else {
        Err(DecodeError::MalformedEncoding)
    }
}

/// The text of a response frame.
pub open spec fn text_of_response(response: ResponseView) -> Seq<char> {
    match response {
        ResponseView::Success(payload) => tag_success() + payload,
        ResponseView::Failure(message) => tag_error() + message,
    }
}

/// The response that a frame's text spells. Only `SUCCESS:` is looked for:
/// any other text is, as a whole, the message of a failure.
pub open spec fn response_of_text(text: Seq<char>) -> ResponseView {
    if tag_success().is_prefix_of(text) {
        ResponseView::Success(text.skip(8))
    } else {
        ResponseView::Failure(text)
    }
}

/// The bytes of a response frame.
pub open spec fn bytes_of_response(response: ResponseView) -> Seq<u8> {
    encode_utf8(text_of_response(response))
}

/// The response that a frame's bytes spell.
pub open spec fn response_of_bytes(bytes: Seq<u8>) -> Result<ResponseView, DecodeError> {
    if valid_utf8(bytes) {
        Ok(response_of_text(decode_utf8(bytes)))
    } else {
        Err(DecodeError::MalformedEncoding)
    }
}

/// The value of a decoded request.
pub open spec fn request_view(decoded: Result<Command, DecodeError>) -> Result<
    CommandView,
    DecodeError,
> {
    match decoded {
        Ok(command) => Ok(command@),
        Err(error) => Err(error),
    }
}

/// The value of a decoded response.
pub open spec fn response_view(decoded: Result<Response, DecodeError>) -> Result<
    ResponseView,
    DecodeError,
> {
    match decoded {
        Ok(response) => Ok(response@),
        Err(error) => Err(error),
    }
}

/// `READ:` as text.
pub fn read_tag() -> (tag: &'static str)
    ensures
        tag@ == tag_read(),
{
    proof {
        reveal_strlit("READ:");
    }
    assert("READ:"@ =~= tag_read());
    "READ:"
}

/// `WRITE:` as text.
pub fn write_tag() -> (tag: &'static str)
    ensures
        tag@ == tag_write(),
{
    proof {
        reveal_strlit("WRITE:");
    }
    assert("WRITE:"@ =~= tag_write());
    "WRITE:"
}

/// `CLEAR:` as text.
pub fn clear_tag() -> (tag: &'static str)
    ensures
        tag@ == tag_clear(),
{
    proof {
        reveal_strlit("CLEAR:");
    }
    assert("CLEAR:"@ =~= tag_clear());
    "CLEAR:"
}

/// `SUCCESS:` as text.
pub fn success_tag() -> (tag: &'static str)
    ensures
        tag@ == tag_success(),
{
    proof {
        reveal_strlit("SUCCESS:");
    }
    assert("SUCCESS:"@ =~= tag_success());
    "SUCCESS:"
}

/// `ERROR:` as text.
pub fn error_tag() -> (tag: &'static str)
    ensures
        tag@ == tag_error(),
{
    proof {
        reveal_strlit("ERROR:");
    }
    assert("ERROR:"@ =~= tag_error());
    "ERROR:"
}

/// Writes a request as the text of its frame.
pub fn render_request(command: &Command) -> (text: String)
    ensures
        text@ == text_of_request(command@),
{
    match command {
        Command::Read => String::from_str(read_tag()),
        Command::Write(payload) => join(write_tag(), payload.as_str()),
        Command::Clear => String::from_str(clear_tag()),
    }
}

/// Reads the text of a frame as a request.
pub fn parse_request(text: &str) -> (parsed: Result<Command, DecodeError>)
    ensures
        request_view(parsed) == request_of_text(text@),
{
    if starts_with(text, read_tag()) {
        Ok(Command::Read)
    } else if starts_with(text, write_tag()) {
        Ok(Command::Write(text_after(text, 6)))
    } else if starts_with(text, clear_tag()) {
        Ok(Command::Clear)
    } else {
        Err(DecodeError::UnknownCommand)
    }
}

/// Writes a request as the bytes of its frame.
pub fn encode(command: &Command) -> (bytes: Vec<u8>)
    ensures
        bytes@ == bytes_of_request(command@),
{
    let text = render_request(command);
    encode_text(text.as_str())
}

/// Reads the bytes of a frame as a request.
///
/// Bytes that are not UTF-8 are `MalformedEncoding`; text that begins with
/// none of the three tags is `UnknownCommand`.
pub fn decode_request(bytes: &[u8]) -> (decoded: Result<Command, DecodeError>)
    ensures
        request_view(decoded) == request_of_bytes(bytes@),
{
    match decode_text(bytes) {
        Some(text) => parse_request(text.as_str()),
        None => Err(DecodeError::MalformedEncoding),
    }
}

/// Writes a response as the text of its frame.
pub fn render_response(response: &Response) -> (text: String)
    ensures
        text@ == text_of_response(response@),
{
    match response {
        Response::Success(payload) => join(success_tag(), payload.as_str()),
        Response::Failure(message) => join(error_tag(), message.as_str()),
    }
}

/// Reads the text of a frame as a response.
pub fn parse_response(text: &str) -> (response: Response)
    ensures
        response@ == response_of_text(text@),
{
    if starts_with(text, success_tag()) {
        Response::Success(text_after(text, 8))
    } else {
        Response::Failure(String::from_str(text))
    }
}

/// Writes a response as the bytes of its frame.
pub fn encode_response(response: &Response) -> (bytes: Vec<u8>)
    ensures
        bytes@ == bytes_of_response(response@),
{
    let text = render_response(response);
    encode_text(text.as_str())
}

/// Reads the bytes of a frame as a response.
///
/// Bytes that are not UTF-8 are `MalformedEncoding`; every text is a
/// response.
pub fn decode_response(bytes: &[u8]) -> (decoded: Result<Response, DecodeError>)
    ensures
        response_view(decoded) == response_of_bytes(bytes@),
{
    match decode_text(bytes) {
        Some(text) => Ok(parse_response(text.as_str())),
        None => Err(DecodeError::MalformedEncoding),
    }
}

/// The five tags are ASCII.
pub proof fn lemma_tags_are_ascii()
    ensures
        is_ascii_chars(tag_read()),
        is_ascii_chars(tag_write()),
        is_ascii_chars(tag_clear()),
        is_ascii_chars(tag_success()),
        is_ascii_chars(tag_error()),
{
}

/// The bytes of each tag on the wire: one byte for each character.
pub proof fn lemma_tag_bytes()
    ensures
        encode_utf8(tag_read()) == seq![0x52u8, 0x45u8, 0x41u8, 0x44u8, 0x3au8],
        encode_utf8(tag_write()) == seq![0x57u8, 0x52u8, 0x49u8, 0x54u8, 0x45u8, 0x3au8],
        encode_utf8(tag_clear()) == seq![0x43u8, 0x4cu8, 0x45u8, 0x41u8, 0x52u8, 0x3au8],
        encode_utf8(tag_success()) == seq![
            0x53u8,
            0x55u8,
            0x43u8,
            0x43u8,
            0x45u8,
            0x53u8,
            0x53u8,
            0x3au8,
        ],
        encode_utf8(tag_error()) == seq![0x45u8, 0x52u8, 0x52u8, 0x4fu8, 0x52u8, 0x3au8],
{
    lemma_ascii_text_bytes(tag_read());
    lemma_ascii_text_bytes(tag_write());
    lemma_ascii_text_bytes(tag_clear());
    lemma_ascii_text_bytes(tag_success());
    lemma_ascii_text_bytes(tag_error());
    assert(ascii_bytes(tag_read()) =~= seq![0x52u8, 0x45u8, 0x41u8, 0x44u8, 0x3au8]);
    assert(ascii_bytes(tag_write()) =~= seq![0x57u8, 0x52u8, 0x49u8, 0x54u8, 0x45u8, 0x3au8]);
    assert(ascii_bytes(tag_clear()) =~= seq![0x43u8, 0x4cu8, 0x45u8, 0x41u8, 0x52u8, 0x3au8]);
    assert(ascii_bytes(tag_success()) =~= seq![
        0x53u8,
        0x55u8,
        0x43u8,
        0x43u8,
        0x45u8,
        0x53u8,
        0x53u8,
        0x3au8,
    ]);
    assert(ascii_bytes(tag_error()) =~= seq![0x45u8, 0x52u8, 0x52u8, 0x4fu8, 0x52u8, 0x3au8]);
}

/// Reading the text of a request's frame gives the request back.
pub proof fn lemma_request_text_round_trip(command: CommandView)
    ensures
        request_of_text(text_of_request(command)) == Ok::<CommandView, DecodeError>(command),
{
    let text = text_of_request(command);
    match command {
        CommandView::Read => {
            assert(tag_read() =~= text.subrange(0, 5));
        },
        CommandView::Write(payload) => {
            lemma_first_character_decides(tag_read(), text);
            assert(tag_write() =~= text.subrange(0, 6));
            assert(text.skip(6) =~= payload);
        },
        CommandView::Clear => {
            lemma_first_character_decides(tag_read(), text);
            lemma_first_character_decides(tag_write(), text);
            assert(tag_clear() =~= text.subrange(0, 6));
        },
    }
}

/// No two requests have the same frame: a read, a clear and each write are
/// told apart by their text, and so by their bytes.
pub proof fn lemma_request_frames_differ(first: CommandView, second: CommandView)
    requires
        first != second,
    ensures
        text_of_request(first) != text_of_request(second),
        bytes_of_request(first) != bytes_of_request(second),
{
    lemma_request_text_round_trip(first);
    lemma_request_text_round_trip(second);
    lemma_request_round_trip(first);
    lemma_request_round_trip(second);
}

/// Decoding the bytes that a request is encoded to gives the request back.
pub proof fn lemma_request_round_trip(command: CommandView)
    ensures
        request_of_bytes(bytes_of_request(command)) == Ok::<CommandView, DecodeError>(command),
{
    let text = text_of_request(command);
    encode_utf8_valid_utf8(text);
    encode_utf8_decode_utf8(text);
    lemma_request_text_round_trip(command);
}

/// Reading the text of a success gives the success back. A failure comes
/// back as a failure whose message is the whole text, tag included: the
/// reader looks for no `ERROR:` tag.
pub proof fn lemma_response_text_round_trip(response: ResponseView)
    ensures
        response_of_text(text_of_response(response)) == match response {
            ResponseView::Success(payload) => ResponseView::Success(payload),
            ResponseView::Failure(message) => ResponseView::Failure(tag_error() + message),
        },
{
    let text = text_of_response(response);
    match response {
        ResponseView::Success(payload) => {
            assert(tag_success() =~= text.subrange(0, 8));
            assert(text.skip(8) =~= payload);
        },
        ResponseView::Failure(message) => {
            lemma_first_character_decides(tag_success(), text);
        },
    }
}

/// Decoding the bytes that a success is encoded to gives the success back;
/// a failure comes back with its tag in the message.
pub proof fn lemma_response_round_trip(response: ResponseView)
    ensures
        response_of_bytes(bytes_of_response(response)) == Ok::<ResponseView, DecodeError>(
            match response {
                ResponseView::Success(payload) => ResponseView::Success(payload),
                ResponseView::Failure(message) => ResponseView::Failure(tag_error() + message),
            },
        ),
{
    let text = text_of_response(response);
    encode_utf8_valid_utf8(text);
    encode_utf8_decode_utf8(text);
    lemma_response_text_round_trip(response);
}

/// A frame of UTF-8 bytes that begins with the bytes of none of `READ:`,
/// `WRITE:` and `CLEAR:` is an unknown command.
pub proof fn lemma_untagged_frame_is_unknown(bytes: Seq<u8>)
    requires
        valid_utf8(bytes),
        !encode_utf8(tag_read()).is_prefix_of(bytes),
        !encode_utf8(tag_write()).is_prefix_of(bytes),
        !encode_utf8(tag_clear()).is_prefix_of(bytes),
    ensures
        request_of_bytes(bytes) == Err::<CommandView, DecodeError>(DecodeError::UnknownCommand),
{
    let text = decode_utf8(bytes);
    decode_utf8_encode_utf8(bytes);
    if tag_read().is_prefix_of(text) {
        lemma_prefix_of_text_is_prefix_of_bytes(tag_read(), text);
    }
    if tag_write().is_prefix_of(text) {
        lemma_prefix_of_text_is_prefix_of_bytes(tag_write(), text);
    }
    if tag_clear().is_prefix_of(text) {
        lemma_prefix_of_text_is_prefix_of_bytes(tag_clear(), text);
    }
}

/// A frame of UTF-8 bytes that begins with the bytes of `READ:` is a read,
/// whatever follows.
pub proof fn lemma_read_frame(bytes: Seq<u8>)
    requires
        valid_utf8(bytes),
        encode_utf8(tag_read()).is_prefix_of(bytes),
    ensures
        request_of_bytes(bytes) == Ok::<CommandView, DecodeError>(CommandView::Read),
{
    lemma_prefix_of_bytes_is_prefix_of_text(tag_read(), bytes);
}

/// A frame of UTF-8 bytes that begins with the bytes of `WRITE:` is a write
/// of the text that the rest of the frame spells: the payload is the
/// remainder as it stands.
pub proof fn lemma_write_frame(bytes: Seq<u8>)
    requires
        valid_utf8(bytes),
        encode_utf8(tag_write()).is_prefix_of(bytes),
    ensures
        valid_utf8(bytes.skip(6)),
        request_of_bytes(bytes) == Ok::<CommandView, DecodeError>(
            CommandView::Write(decode_utf8(bytes.skip(6))),
        ),
{
    lemma_prefix_of_bytes_is_prefix_of_text(tag_write(), bytes);
    let text = decode_utf8(bytes);
    assert(text[0] == text.subrange(0, 6)[0]);
    lemma_first_character_decides(tag_read(), text);
}

/// A frame of UTF-8 bytes that begins with the bytes of `CLEAR:` is a
/// clear, whatever follows.
pub proof fn lemma_clear_frame(bytes: Seq<u8>)
    requires
        valid_utf8(bytes),
        encode_utf8(tag_clear()).is_prefix_of(bytes),
    ensures
        request_of_bytes(bytes) == Ok::<CommandView, DecodeError>(CommandView::Clear),
{
    lemma_prefix_of_bytes_is_prefix_of_text(tag_clear(), bytes);
    let text = decode_utf8(bytes);
    assert(text[0] == text.subrange(0, 6)[0]);
    lemma_first_character_decides(tag_read(), text);
    lemma_first_character_decides(tag_write(), text);
}

} // verus!
