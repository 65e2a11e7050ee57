//! The server's side of one connection, as a state machine.
//!
//! A connection serves one request and ends. The machine decides; whoever
//! drives it does the work on the transport: it performs the action that the
//! machine asks for and comes back with the event that tells how it went.
//!
//! ```text
//! Accepted -> (TlsHandshake) -> ReadingFrame -> Dispatching -> WritingResponse -> Closed
//! ```
//!
//! A failed handshake closes the connection without a response: there is no
//! channel to send one on. A failed read does so too, and a frame that is not
//! UTF-8, unless the connection was made to answer errors: then it attempts
//! one failure response before it closes.

use vstd::prelude::*;
use vstd::string::*;
use vstd::utf8::*;
use crate::codec::bytes_of_response;
use crate::codec::encode_response;
use crate::codec::Response;
use crate::codec::ResponseView;
use crate::frame::after_read;
use crate::frame::describe_read_failure;
use crate::frame::read_failure;
use crate::frame::FrameReader;
use crate::frame::FrameStatus;
use crate::frame::FrameView;
use crate::handler::handle_message;
use crate::handler::is_reply_to;
use crate::store::ClipboardStore;
use crate::text::encode_text;
use crate::text::join;
use crate::text::read_text;
use crate::text::utf8_error;

verus! {

/// Where a connection stands.
#[derive(Debug, Clone, Copy, PartialEq, Eq, Structural)]
pub enum ConnectionState {
    /// The listener has handed the transport over.
    Accepted,
    /// The transport is being wrapped in TLS.
    TlsHandshake,
    /// The request's frame is being read.
    ReadingFrame,
    /// The request is with the store.
    Dispatching,
    /// The response is being written.
    WritingResponse,
    /// The connection is over.
    Closed,
}

/// Why a connection ended without having served its request.
#[derive(Debug, Clone, PartialEq, Eq)]
pub enum ConnectionError {
    /// The TLS handshake failed.
    TlsNegotiationError(String),
    /// A read or a write failed.
    TransportError(String),
    /// The frame is not UTF-8; the text says where.
    MalformedEncoding(String),
    /// The driver reported something that the state does not wait for.
    UnexpectedEvent,
}

/// The mathematical value of a [`ConnectionError`].
pub enum ConnectionErrorView {
    TlsNegotiationError(Seq<char>),
    TransportError(Seq<char>),
    MalformedEncoding(Seq<char>),
    UnexpectedEvent,
}

impl View for ConnectionError {
    type V = ConnectionErrorView;

    open spec fn view(&self) -> ConnectionErrorView {
        match self {
            ConnectionError::TlsNegotiationError(cause) => ConnectionErrorView::TlsNegotiationError(
                cause@,
            ),
            ConnectionError::TransportError(cause) => ConnectionErrorView::TransportError(cause@),
            ConnectionError::MalformedEncoding(cause) => ConnectionErrorView::MalformedEncoding(
                cause@,
            ),
            ConnectionError::UnexpectedEvent => ConnectionErrorView::UnexpectedEvent,
        }
    }
}

/// What the driver reports to the machine.
#[derive(Debug, Clone, PartialEq, Eq)]
pub enum ConnectionEvent {
    /// The handshake gave a secure channel.
    TlsEstablished,
    /// The handshake failed; the text says how.
    TlsFailed(String),
    /// A read put `count` bytes at the start of `buffer`.
    Read { buffer: Vec<u8>, count: usize },
    /// A read failed; the text says how.
    ReadFailed(String),
    /// The request was served; the text is the reply's frame.
    Dispatched(String),
    /// The response was written in full.
    Written,
    /// The write failed; the text says how.
    WriteFailed(String),
}

/// The mathematical value of a [`ConnectionEvent`].
pub enum ConnectionEventView {
    TlsEstablished,
    TlsFailed(Seq<char>),
    Read { buffer: Seq<u8>, count: nat },
    ReadFailed(Seq<char>),
    Dispatched(Seq<char>),
    Written,
    WriteFailed(Seq<char>),
}

impl View for ConnectionEvent {
    type V = ConnectionEventView;

    open spec fn view(&self) -> ConnectionEventView {
        match self {
            ConnectionEvent::TlsEstablished => ConnectionEventView::TlsEstablished,
            ConnectionEvent::TlsFailed(cause) => ConnectionEventView::TlsFailed(cause@),
            ConnectionEvent::Read { buffer, count } => ConnectionEventView::Read {
                buffer: buffer@,
                count: *count as nat,
            },
            ConnectionEvent::ReadFailed(cause) => ConnectionEventView::ReadFailed(cause@),
            ConnectionEvent::Dispatched(reply) => ConnectionEventView::Dispatched(reply@),
            ConnectionEvent::Written => ConnectionEventView::Written,
            ConnectionEvent::WriteFailed(cause) => ConnectionEventView::WriteFailed(cause@),
        }
    }
}

/// What the machine asks the driver to do next.
#[derive(Debug, PartialEq, Eq)]
pub enum ConnectionAction {
    /// Wrap the transport in TLS with the server's certificate and key.
    Handshake,
    /// Read once into a buffer of `BUFFER_CAP` bytes.
    ReadChunk,
    /// Serve the request whose frame has this text.
    Dispatch(String),
    /// Write these bytes, all of them.
    Write(Vec<u8>),
    /// Let the connection go. `Ok` where the request was served and the
    /// response written, else the reason, for the log.
    Close(Result<(), ConnectionError>),
}

/// The mathematical value of a [`ConnectionAction`].
pub enum ConnectionActionView {
    Handshake,
    ReadChunk,
    Dispatch(Seq<char>),
    Write(Seq<u8>),
    Close(Result<(), ConnectionErrorView>),
}

impl View for ConnectionAction {
    type V = ConnectionActionView;

    open spec fn view(&self) -> ConnectionActionView {
        match self {
            ConnectionAction::Handshake => ConnectionActionView::Handshake,
            ConnectionAction::ReadChunk => ConnectionActionView::ReadChunk,
            ConnectionAction::Dispatch(text) => ConnectionActionView::Dispatch(text@),
            ConnectionAction::Write(bytes) => ConnectionActionView::Write(bytes@),
            ConnectionAction::Close(Ok(())) => ConnectionActionView::Close(Ok(())),
            ConnectionAction::Close(Err(error)) => ConnectionActionView::Close(Err(error@)),
        }
    }
}

/// One connection's state.
pub struct Connection {
    state: ConnectionState,
    secure: bool,
    answers_errors: bool,
    frame: FrameReader,
    failure: Option<ConnectionError>,
}

/// The mathematical value of a [`Connection`].
pub struct ConnectionView {
    /// Where the connection stands.
    pub state: ConnectionState,
    /// Whether the transport is to be wrapped in TLS.
    pub secure: bool,
    /// Whether a failed read and a malformed frame are answered with a
    /// failure response before the connection closes.
    pub answers_errors: bool,
    /// The request's frame as far as it has been read.
    pub frame: FrameView,
    /// The failure that the response being written reports, if it reports
    /// one of the connection itself.
    pub failure: Option<ConnectionErrorView>,
}

/// The value of an optional error.
pub open spec fn optional_error(error: Option<ConnectionError>) -> Option<ConnectionErrorView> {
    match error {
        Some(error) => Some(error@),
        None => None,
    }
}

impl View for Connection {
    type V = ConnectionView;

    closed spec fn view(&self) -> ConnectionView {
        ConnectionView {
            state: self.state,
            secure: self.secure,
            answers_errors: self.answers_errors,
            frame: self.frame@,
            failure: optional_error(self.failure),
        }
    }
}

/// What is reported of a handshake that failed for the given cause.
pub open spec fn tls_failure(cause: Seq<char>) -> Seq<char> {
    "Error with TLS negotiation; err = "@ + cause
}

/// What is reported of a frame that is not UTF-8, for the given cause.
pub open spec fn decode_failure(cause: Seq<char>) -> Seq<char> {
    "Failed to decode request; err = "@ + cause
}

/// Words the report of a frame that is not UTF-8, for the given cause.
pub fn describe_decode_failure(cause: &str) -> (report: String)
    ensures
        report@ == decode_failure(cause@),
{
    join("Failed to decode request; err = ", cause)
}

/// A connection in `state` and nothing else changed.
pub open spec fn moved_to(connection: ConnectionView, state: ConnectionState) -> ConnectionView {
    ConnectionView { state, ..connection }
}

/// A closed connection and the action that reports why it closed.
pub open spec fn closed(connection: ConnectionView, outcome: Result<(), ConnectionErrorView>) -> (
    ConnectionView,
    ConnectionActionView,
) {
    (
        ConnectionView { state: ConnectionState::Closed, failure: None, ..connection },
        ConnectionActionView::Close(outcome),
    )
}

/// What becomes of a connection that cannot read its request, for the reason
/// `error`, which `message` words. A connection that answers errors writes
/// the failure response with that message and keeps the reason for when it
/// closes; any other closes at once.
pub open spec fn failed(connection: ConnectionView, error: ConnectionErrorView, message: Seq<char>) -> (
    ConnectionView,
    ConnectionActionView,
) {
    if connection.answers_errors {
        (
            ConnectionView {
                state: ConnectionState::WritingResponse,
                failure: Some(error),
                ..connection
            },
            ConnectionActionView::Write(bytes_of_response(ResponseView::Failure(message))),
        )
    } else {
        closed(connection, Err(error))
    }
}

/// The first step: the state that an accepted connection moves to, and the
/// action it asks for. Started anywhere else, the connection closes.
pub open spec fn started(connection: ConnectionView) -> (ConnectionView, ConnectionActionView) {
    if connection.state != ConnectionState::Accepted {
        closed(connection, Err(ConnectionErrorView::UnexpectedEvent))
    } else if connection.secure {
        (moved_to(connection, ConnectionState::TlsHandshake), ConnectionActionView::Handshake)
    } else {
        (moved_to(connection, ConnectionState::ReadingFrame), ConnectionActionView::ReadChunk)
    }
}

/// The connection after a read, and the action that follows: read on while
/// the frame is open; once it has ended, dispatch its text, or fail where
/// its bytes are not UTF-8.
pub open spec fn after_frame_read(connection: ConnectionView, buffer: Seq<u8>, count: nat) -> (
    ConnectionView,
    ConnectionActionView,
) {
    let frame = after_read(connection.frame, buffer, count);
    if !frame.complete {
        (ConnectionView { frame, ..connection }, ConnectionActionView::ReadChunk)
    } else if valid_utf8(frame.received) {
        (
            ConnectionView { state: ConnectionState::Dispatching, frame, ..connection },
            ConnectionActionView::Dispatch(decode_utf8(frame.received)),
        )
    } else {
        failed(
            ConnectionView { frame, ..connection },
            ConnectionErrorView::MalformedEncoding(decode_failure(utf8_error(frame.received))),
            decode_failure(utf8_error(frame.received)),
        )
    }
}

/// How a connection closes once the write of its response has ended, well
/// (`write_failure` is `None`) or not. Where the response reported a
/// failure of the connection, that failure is the outcome; else the outcome
/// is that of the write.
pub open spec fn after_write(connection: ConnectionView, write_failure: Option<Seq<char>>) -> (
    ConnectionView,
    ConnectionActionView,
) {
    closed(
        connection,
        match (connection.failure, write_failure) {
            (Some(error), _) => Err(error),
            (None, Some(cause)) => Err(ConnectionErrorView::TransportError(cause)),
            (None, None) => Ok(()),
        },
    )
}

/// The transition: the state after `event`, and the action that the machine
/// asks for. An event that the state does not wait for closes the
/// connection.
pub open spec fn step(connection: ConnectionView, event: ConnectionEventView) -> (
    ConnectionView,
    ConnectionActionView,
) {
    match (connection.state, event) {
        (ConnectionState::TlsHandshake, ConnectionEventView::TlsEstablished) => (
            moved_to(connection, ConnectionState::ReadingFrame),
            ConnectionActionView::ReadChunk,
        ),
        (ConnectionState::TlsHandshake, ConnectionEventView::TlsFailed(cause)) => closed(
            connection,
            Err(ConnectionErrorView::TlsNegotiationError(tls_failure(cause))),
        ),
        (ConnectionState::ReadingFrame, ConnectionEventView::Read { buffer, count }) => {
            after_frame_read(connection, buffer, count)
        },
        (ConnectionState::ReadingFrame, ConnectionEventView::ReadFailed(cause)) => failed(
            connection,
            ConnectionErrorView::TransportError(read_failure(cause)),
            read_failure(cause),
        ),
        (ConnectionState::Dispatching, ConnectionEventView::Dispatched(reply)) => (
            moved_to(connection, ConnectionState::WritingResponse),
            ConnectionActionView::Write(encode_utf8(reply)),
        ),
        (ConnectionState::WritingResponse, ConnectionEventView::Written) => after_write(
            connection,
            None,
        ),
        (ConnectionState::WritingResponse, ConnectionEventView::WriteFailed(cause)) => after_write(
            connection,
            Some(cause),
        ),
        _ => closed(connection, Err(ConnectionErrorView::UnexpectedEvent)),
    }
}

/// The connection after `event` where dispatching is done on the spot: the
/// step that ends the frame is followed at once by the step that takes in
/// `reply`, the reply to the request that was dispatched. Every other step
/// is as [`step`] has it.
pub open spec fn served(connection: ConnectionView, event: ConnectionEventView, reply: Seq<char>) -> (
    ConnectionView,
    ConnectionActionView,
) {
    match step(connection, event) {
        (dispatching, ConnectionActionView::Dispatch(_)) => step(
            dispatching,
            ConnectionEventView::Dispatched(reply),
        ),
        other => other,
    }
}

impl Connection {
    /// A connection that the listener has just accepted. `secure` says
    /// whether its transport is to be wrapped in TLS. A failed read or a
    /// malformed frame closes it without a response.
    pub fn new(secure: bool) -> (connection: Connection)
        ensures
            connection@ == (ConnectionView {
                state: ConnectionState::Accepted,
                secure,
                answers_errors: false,
                frame: FrameView { received: Seq::<u8>::empty(), complete: false },
                failure: None,
            }),
    {
        Connection {
            state: ConnectionState::Accepted,
            secure,
            answers_errors: false,
            frame: FrameReader::new(),
            failure: None,
        }
    }

    /// A connection like that of [`Connection::new`], but one that answers
    /// errors: after a failed read or a malformed frame it attempts a failure
    /// response before it closes.
    pub fn answering_errors(secure: bool) -> (connection: Connection)
        ensures
            connection@ == (ConnectionView {
                state: ConnectionState::Accepted,
                secure,
                answers_errors: true,
                frame: FrameView { received: Seq::<u8>::empty(), complete: false },
                failure: None,
            }),
    {
        Connection {
            state: ConnectionState::Accepted,
            secure,
            answers_errors: true,
            frame: FrameReader::new(),
            failure: None,
        }
    }

    /// Where the connection stands.
    pub fn state(&self) -> (state: ConnectionState)
        ensures
            state == self@.state,
    {
        self.state
    }

    /// Whether the connection is over.
    pub fn is_closed(&self) -> (closed: bool)
        ensures
            closed == (self@.state == ConnectionState::Closed),
    {
        self.state == ConnectionState::Closed
    }

    /// Takes the first step and says what to do.
    pub fn start(&mut self) -> (action: ConnectionAction)
        ensures
            (final(self)@, action@) == started(old(self)@),
    {
        if self.state != ConnectionState::Accepted {
            self.close(Err(ConnectionError::UnexpectedEvent))
        } else if self.secure {
            self.state = ConnectionState::TlsHandshake;
            ConnectionAction::Handshake
        } else {
            self.state = ConnectionState::ReadingFrame;
            ConnectionAction::ReadChunk
        }
    }

    /// Takes in what the driver reports and says what to do next.
    pub fn on_event(&mut self, event: ConnectionEvent) -> (action: ConnectionAction)
        ensures
            (final(self)@, action@) == step(old(self)@, event@),
    {
        match self.state {
            ConnectionState::TlsHandshake => match event {
                ConnectionEvent::TlsEstablished => {
                    self.state = ConnectionState::ReadingFrame;
                    ConnectionAction::ReadChunk
                },
                ConnectionEvent::TlsFailed(cause) => self.close(
                    Err(
                        ConnectionError::TlsNegotiationError(
                            join("Error with TLS negotiation; err = ", cause.as_str()),
                        ),
                    ),
                ),
                _ => self.close(Err(ConnectionError::UnexpectedEvent)),
            },
            ConnectionState::ReadingFrame => match event {
                ConnectionEvent::Read { buffer, count } => self.on_read(buffer.as_slice(), count),
                ConnectionEvent::ReadFailed(cause) => {
                    let message = describe_read_failure(cause.as_str());
                    let report = describe_read_failure(cause.as_str());
                    self.fail(ConnectionError::TransportError(report), message)
                },
                _ => self.close(Err(ConnectionError::UnexpectedEvent)),
            },
            ConnectionState::Dispatching => match event {
                ConnectionEvent::Dispatched(reply) => {
                    self.state = ConnectionState::WritingResponse;
                    ConnectionAction::Write(encode_text(reply.as_str()))
                },
                _ => self.close(Err(ConnectionError::UnexpectedEvent)),
            },
            ConnectionState::WritingResponse => match event {
                ConnectionEvent::Written => match self.failure.take() {
                    Some(error) => self.close(Err(error)),
                    None => self.close(Ok(())),
                },
                ConnectionEvent::WriteFailed(cause) => match self.failure.take() {
                    Some(error) => self.close(Err(error)),
                    None => self.close(Err(ConnectionError::TransportError(cause))),
                },
                _ => self.close(Err(ConnectionError::UnexpectedEvent)),
            },
            _ => self.close(Err(ConnectionError::UnexpectedEvent)),
        }
    }

    /// Takes in what the driver reports, serves the request on `store`
    /// once its frame has ended, and says what to do next on the transport.
    ///
    /// This is [`Connection::on_event`], but for the step that ends the
    /// frame: where that step asks for the request to be dispatched, the
    /// request is served here, on `store`, and the connection moves on as
    /// `on_event` does when the reply is reported to it. The driver is never
    /// asked to dispatch.
    pub fn serve(&mut self, event: ConnectionEvent, store: &ClipboardStore) -> (action:
        ConnectionAction)
        ensures
            exists|reply: Seq<char>|
                {
                    &&& (final(self)@, action@) == #[trigger] served(old(self)@, event@, reply)
                    &&& step(old(self)@, event@).1 matches ConnectionActionView::Dispatch(request)
                        ==> is_reply_to(request, reply)
                },
    {
        let ghost before = self@;
        let ghost reported = event@;
        match self.on_event(event) {
            ConnectionAction::Dispatch(request) => {
                let ghost asked = request@;
                let reply = handle_message(request, store.share());
                let ghost answered = reply@;
                let action = self.on_event(ConnectionEvent::Dispatched(reply));
                proof {
                    assert(step(before, reported).1 == ConnectionActionView::Dispatch(asked));
                    assert((self@, action@) == served(before, reported, answered));
                }
                action
            },
            action => {
                proof {
                    assert((self@, action@) == served(before, reported, Seq::<char>::empty()));
                }
                action
            },
        }
    }

    /// Takes in one read while the frame is being read.
    fn on_read(&mut self, buffer: &[u8], count: usize) -> (action: ConnectionAction)
        requires
            old(self)@.state == ConnectionState::ReadingFrame,
        ensures
            (final(self)@, action@) == after_frame_read(old(self)@, buffer@, count as nat),
    {
        match self.frame.accept(buffer, count) {
            FrameStatus::Incomplete => ConnectionAction::ReadChunk,
            FrameStatus::Complete => match read_text(self.frame.received()) {
                Ok(text) => {
                    self.state = ConnectionState::Dispatching;
                    ConnectionAction::Dispatch(text)
                },
                Err(cause) => {
                    let message = describe_decode_failure(cause.as_str());
                    let report = describe_decode_failure(cause.as_str());
                    self.fail(ConnectionError::MalformedEncoding(report), message)
                },
            },
        }
    }

    /// Gives up on reading the request.
    fn fail(&mut self, error: ConnectionError, message: String) -> (action: ConnectionAction)
        ensures
            (final(self)@, action@) == failed(old(self)@, error@, message@),
    {
        if self.answers_errors {
            self.state = ConnectionState::WritingResponse;
            self.failure = Some(error);
            ConnectionAction::Write(encode_response(&Response::Failure(message)))
        } else {
            self.close(Err(error))
        }
    }

    /// Closes with the given outcome.
    fn close(&mut self, outcome: Result<(), ConnectionError>) -> (action: ConnectionAction)
        ensures
            (final(self)@, action@) == closed(
                old(self)@,
                match outcome {
                    Ok(()) => Ok(()),
                    Err(error) => Err(error@),
                },
            ),
    {
        self.state = ConnectionState::Closed;
        self.failure = None;
        ConnectionAction::Close(outcome)
    }
}

/// How far a connection has come: the place of its state in the order in
/// which the states follow one another.
pub open spec fn progress(state: ConnectionState) -> nat {
    match state {
        ConnectionState::Accepted => 0,
        ConnectionState::TlsHandshake => 1,
        ConnectionState::ReadingFrame => 2,
        ConnectionState::Dispatching => 3,
        ConnectionState::WritingResponse => 4,
        ConnectionState::Closed => 5,
    }
}

/// What holds of every connection that the machine comes to: a failure is
/// kept only while the response that reports it is being written, and only
/// by a connection that answers errors.
pub open spec fn well_formed(connection: ConnectionView) -> bool {
    connection.failure is Some ==> connection.state == ConnectionState::WritingResponse
        && connection.answers_errors
}

/// Every connection that the machine comes to is well formed: a new one is,
/// and each step keeps it so.
pub proof fn lemma_steps_keep_well_formed(connection: ConnectionView, event: ConnectionEventView)
    requires
        well_formed(connection),
    ensures
        well_formed(started(connection).0),
        well_formed(step(connection, event).0),
{
}

/// A connection never goes back. A step leaves it further on, but for two
/// cases: while the frame is open it goes on reading, and once closed it
/// stays closed.
pub proof fn lemma_connection_moves_on(connection: ConnectionView, event: ConnectionEventView)
    ensures
        progress(started(connection).0.state) > progress(connection.state)
            || connection.state == ConnectionState::Closed,
        progress(step(connection, event).0.state) > progress(connection.state) || (
        connection.state == ConnectionState::ReadingFrame && step(connection, event).1
            == ConnectionActionView::ReadChunk) || connection.state == ConnectionState::Closed,
{
}

/// A closed connection stays closed, whatever is reported to it, and asks
/// for nothing but to be let go.
pub proof fn lemma_closed_is_final(connection: ConnectionView, event: ConnectionEventView)
    requires
        connection.state == ConnectionState::Closed,
    ensures
        step(connection, event).0.state == ConnectionState::Closed,
        step(connection, event).1 is Close,
        started(connection).0.state == ConnectionState::Closed,
        started(connection).1 is Close,
{
}

/// What is dispatched is the text of a whole frame: the connection was
/// reading, the read has ended the frame, and the frame's bytes are UTF-8
/// that spell the text.
pub proof fn lemma_only_a_whole_frame_is_dispatched(
    connection: ConnectionView,
    event: ConnectionEventView,
)
    requires
        step(connection, event).1 is Dispatch,
    ensures
        connection.state == ConnectionState::ReadingFrame,
        event is Read,
        step(connection, event).0.state == ConnectionState::Dispatching,
        step(connection, event).0.frame.complete,
        valid_utf8(step(connection, event).0.frame.received),
        step(connection, event).1 == ConnectionActionView::Dispatch(
            decode_utf8(step(connection, event).0.frame.received),
        ),
{
}

/// A connection that does not answer errors writes nothing before the
/// request has been dispatched: only the reply that comes back from
/// dispatching is ever handed to the transport, and it is handed over as it
/// is. A failed handshake, a failed read and a malformed frame close it
/// without a response.
pub proof fn lemma_only_the_reply_is_written(
    connection: ConnectionView,
    event: ConnectionEventView,
)
    requires
        !connection.answers_errors,
        step(connection, event).1 is Write,
    ensures
        connection.state == ConnectionState::Dispatching,
        event is Dispatched,
        step(connection, event).1 == ConnectionActionView::Write(encode_utf8(event->Dispatched_0)),
        step(connection, event).0.state == ConnectionState::WritingResponse,
{
}

/// A connection that answers errors writes the reply that comes back from
/// dispatching or, where it could not read its request, one failure
/// response that says why; it then keeps the reason, and closes with it
/// however the write ends. A failed handshake is never answered.
pub proof fn lemma_errors_are_answered_once(connection: ConnectionView, event: ConnectionEventView)
    requires
        connection.answers_errors,
        well_formed(connection),
        step(connection, event).1 is Write,
    ensures
        step(connection, event).0.state == ConnectionState::WritingResponse,
        connection.state == ConnectionState::Dispatching || connection.state
            == ConnectionState::ReadingFrame,
        connection.state == ConnectionState::Dispatching ==> event is Dispatched && step(
            connection,
            event,
        ).1 == ConnectionActionView::Write(encode_utf8(event->Dispatched_0)) && step(
            connection,
            event,
        ).0.failure is None,
        connection.state == ConnectionState::ReadingFrame ==> step(connection, event).0.failure
            is Some && exists|message: Seq<char>|
            step(connection, event).1 == ConnectionActionView::Write(
                #[trigger] bytes_of_response(ResponseView::Failure(message)),
            ),
        forall|after: ConnectionEventView|
            step(connection, event).0.failure is Some && (after is Written
                || after is WriteFailed) ==> #[trigger] step(step(connection, event).0, after).1
                == ConnectionActionView::Close(Err(step(connection, event).0.failure->0)),
{
    if connection.state == ConnectionState::ReadingFrame {
        match event {
            ConnectionEventView::Read { buffer, count } => {
                assert(step(connection, event).1 == ConnectionActionView::Write(
                    bytes_of_response(
                        ResponseView::Failure(
                            decode_failure(
                                utf8_error(after_read(connection.frame, buffer, count).received),
                            ),
                        ),
                    ),
                ));
            },
            ConnectionEventView::ReadFailed(cause) => {
                assert(step(connection, event).1 == ConnectionActionView::Write(
                    bytes_of_response(ResponseView::Failure(read_failure(cause))),
                ));
            },
            _ => {},
        }
    }
}

/// Where dispatching is done on the spot, the frame that ends with valid
/// text is answered in the same step: the reply goes to the transport as it
/// is, and the connection is writing. No step asks the driver to dispatch.
pub proof fn lemma_served_frame_is_answered(
    connection: ConnectionView,
    event: ConnectionEventView,
    reply: Seq<char>,
)
    ensures
        !(served(connection, event, reply).1 is Dispatch),
        step(connection, event).1 is Dispatch ==> served(connection, event, reply) == (
            moved_to(step(connection, event).0, ConnectionState::WritingResponse),
            ConnectionActionView::Write(encode_utf8(reply)),
        ),
        !(step(connection, event).1 is Dispatch) ==> served(connection, event, reply) == step(
            connection,
            event,
        ),
{
}

/// A connection is reported as served only once its response has been
/// written, and only where that response reported no failure of the
/// connection.
pub proof fn lemma_served_means_written(connection: ConnectionView, event: ConnectionEventView)
    requires
        step(connection, event).1 == ConnectionActionView::Close(Ok(())),
    ensures
        connection.state == ConnectionState::WritingResponse,
        event is Written,
        connection.failure is None,
{
}

} // verus!
