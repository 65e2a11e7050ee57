//! The client's side of one exchange, as a state machine.
//!
//! An exchange connects, wraps the transport in TLS where that is asked for,
//! sends one request, reads one frame and decodes it. The machine decides;
//! whoever drives it does the work on the transport and reports how it went.
//!
//! ```text
//! Ready -> Connecting -> (TlsHandshake) -> Sending -> ReadingFrame -> Finished
//! ```

use vstd::prelude::*;
use vstd::string::*;
use vstd::utf8::*;
use crate::codec::bytes_of_request;
use crate::codec::encode;
use crate::codec::parse_response;
use crate::codec::response_of_text;
use crate::codec::text_of_request;
use crate::codec::render_request;
use crate::codec::Command;
use crate::codec::CommandView;
use crate::codec::Response;
use crate::codec::ResponseView;
use crate::frame::after_read;
use crate::frame::describe_read_failure;
use crate::frame::lemma_unpadded;
use crate::frame::read_failure;
use crate::frame::unpadded;
use crate::frame::without_padding;
use crate::frame::FrameReader;
use crate::frame::FrameStatus;
use crate::frame::FrameView;
use crate::text::read_text;
use crate::text::utf8_error;
use crate::text::join;
use crate::text::lemma_first_character_decides;
use crate::text::optional_text;
use crate::text::same_text;
use crate::text::starts_with;

verus! {

/// The character of a decimal digit.
pub open spec fn digit(value: nat) -> char {
    if value == 0 {
        '0'
    } else if value == 1 {
        '1'
    } else if value == 2 {
        '2'
    } else if value == 3 {
        '3'
    } else if value == 4 {
        '4'
    } else if value == 5 {
        '5'
    } else if value == 6 {
        '6'
    } else if value == 7 {
        '7'
    } else if value == 8 {
        '8'
    } else {
        '9'
    }
}

/// A number in decimal, without sign or leading zeros.
pub open spec fn decimal(value: nat) -> Seq<char>
    decreases value,
{
    if value < 10 {
        seq![digit(value)]
    } else {
        decimal(value / 10).push(digit(value % 10))
    }
}

/// `host:port`, the address that a client connects to.
pub open spec fn address_of(host: Seq<char>, port: u16) -> Seq<char> {
    host + seq![':'] + decimal(port as nat)
}

/// The text of one decimal digit.
fn digit_text(value: u16) -> (text: &'static str)
    requires
        value < 10,
    ensures
        text@ == seq![digit(value as nat)],
{
    proof {
        reveal_strlit("0");
        reveal_strlit("1");
        reveal_strlit("2");
        reveal_strlit("3");
        reveal_strlit("4");
        reveal_strlit("5");
        reveal_strlit("6");
        reveal_strlit("7");
        reveal_strlit("8");
        reveal_strlit("9");
    }
    let text = if value == 0 {
        "0"
    } else if value == 1 {
        "1"
    } else if value == 2 {
        "2"
    } else if value == 3 {
        "3"
    } else if value == 4 {
        "4"
    } else if value == 5 {
        "5"
    } else if value == 6 {
        "6"
    } else if value == 7 {
        "7"
    } else if value == 8 {
        "8"
    } else {
        "9"
    };
    assert(text@ =~= seq![digit(value as nat)]);
    text
}

/// Writes a port number in decimal.
pub fn port_text(port: u16) -> (text: String)
    ensures
        text@ == decimal(port as nat),
    decreases port,
{
    if port < 10 {
        String::from_str(digit_text(port))
    } else {
        let mut text = port_text(port / 10);
        text.append(digit_text(port % 10));
        assert(text@ =~= decimal(port as nat / 10).push(digit(port as nat % 10)));
        text
    }
}

/// Writes the address `host:port`.
pub fn address(host: &str, port: u16) -> (text: String)
    ensures
        text@ == address_of(host@, port),
{
    proof {
        reveal_strlit(":");
    }
    let mut text = join(host, ":");
    assert(":"@ =~= seq![':']);
    let number = port_text(port);
    text.append(number.as_str());
    text
}

/// A request as the command line names it: the command's name, and the text
/// that goes with it.
#[derive(Debug, Clone, PartialEq, Eq)]
pub struct ClipboardCmd {
    /// `READ`, `WRITE` or `CLEAR`.
    pub name: String,
    /// The text to write, if any.
    pub text: Option<String>,
}

/// The mathematical value of a [`ClipboardCmd`].
pub struct ClipboardCmdView {
    pub name: Seq<char>,
    pub text: Option<Seq<char>>,
}

impl View for ClipboardCmd {
    type V = ClipboardCmdView;

    open spec fn view(&self) -> ClipboardCmdView {
        ClipboardCmdView { name: self.name@, text: optional_text(self.text) }
    }
}

/// `READ`, the name that makes a command a read.
pub open spec fn read_name() -> Seq<char> {
    seq!['R', 'E', 'A', 'D']
}

/// `CLEAR`, the name that makes a command a clear.
pub open spec fn clear_name() -> Seq<char> {
    seq!['C', 'L', 'E', 'A', 'R']
}

/// The request that a command stands for: a read where the name begins with
/// `READ`, a clear where it begins with `CLEAR`, whatever text goes with
/// either; under any other name a write of the text, which is empty where
/// none is given.
pub open spec fn request_of_command(command: ClipboardCmdView) -> CommandView {
    if read_name().is_prefix_of(command.name) {
        CommandView::Read
    } else if clear_name().is_prefix_of(command.name) {
        CommandView::Clear
    } else {
        CommandView::Write(
            match command.text {
                Some(text) => text,
                None => Seq::<char>::empty(),
            },
        )
    }
}

/// Whether a command line that names the command `name` and gives `text`
/// is in need of the local clipboard's text: it asks for a write and says
/// nothing of what to write.
pub open spec fn needs_local_text(name: Seq<char>, text: Option<Seq<char>>) -> bool {
    name != "READ"@ && name != "CLEAR"@ && text is None
}

/// The command that a command line asks for. It names the command and may
/// give a text; `local` is the text of the local clipboard, if it was
/// fetched. `READ` reads and `CLEAR` clears, whatever text is given; any
/// other name writes the text given or else the local one, and without
/// either there is no command.
pub open spec fn command_of_arguments(
    name: Seq<char>,
    text: Option<Seq<char>>,
    local: Option<Seq<char>>,
) -> Option<ClipboardCmdView> {
    if name == "READ"@ {
        Some(ClipboardCmdView { name: "READ"@, text: None })
    } else if name == "CLEAR"@ {
        Some(ClipboardCmdView { name: "CLEAR"@, text: Some(Seq::<char>::empty()) })
    } else if text is Some {
        Some(ClipboardCmdView { name: "WRITE"@, text })
    } else if local is Some {
        Some(ClipboardCmdView { name: "WRITE"@, text: local })
    } else {
        None
    }
}

/// The value of an optional command.
pub open spec fn optional_command(command: Option<ClipboardCmd>) -> Option<ClipboardCmdView> {
    match command {
        Some(command) => Some(command@),
        None => None,
    }
}

impl ClipboardCmd {
    /// Whether a command line that names the command `name` and gives
    /// `text` is in need of the local clipboard's text.
    pub fn wants_local_text(name: &str, text: &Option<String>) -> (wanted: bool)
        ensures
            wanted == needs_local_text(name@, optional_text(*text)),
    {
        !same_text(name, "READ") && !same_text(name, "CLEAR") && text.is_none()
    }

    /// The command that a command line asks for, or `None` where it asks
    /// for a write and there is nothing to write.
    pub fn from_arguments(name: &str, text: Option<String>, local: Option<String>) -> (command:
        Option<ClipboardCmd>)
        ensures
            optional_command(command) == command_of_arguments(
                name@,
                optional_text(text),
                optional_text(local),
            ),
    {
        if same_text(name, "READ") {
            Some(ClipboardCmd { name: String::from_str("READ"), text: None })
        } else if same_text(name, "CLEAR") {
            Some(ClipboardCmd { name: String::from_str("CLEAR"), text: Some(String::new()) })
        } else {
            match text {
                Some(text) => Some(ClipboardCmd { name: String::from_str("WRITE"), text: Some(text) }),
                None => match local {
                    Some(local) => Some(
                        ClipboardCmd { name: String::from_str("WRITE"), text: Some(local) },
                    ),
                    None => None,
                },
            }
        }
    }

    /// The request that the command stands for.
    pub fn to_command(&self) -> (command: Command)
        ensures
            command@ == request_of_command(self@),
    {
        proof {
            reveal_strlit("READ");
            reveal_strlit("CLEAR");
        }
        assert("READ"@ =~= read_name());
        assert("CLEAR"@ =~= clear_name());
        if starts_with(self.name.as_str(), "READ") {
            Command::Read
        } else if starts_with(self.name.as_str(), "CLEAR") {
            Command::Clear
        } else {
            match &self.text {
                Some(text) => Command::Write(text.clone()),
                None => Command::Write(String::new()),
            }
        }
    }

    /// The text of the frame that the command is sent as.
    pub fn to_text(&self) -> (text: String)
        ensures
            text@ == text_of_request(request_of_command(self@)),
    {
        let command = self.to_command();
        render_request(&command)
    }
}

/// Why an exchange gave no successful response.
#[derive(Debug, Clone, PartialEq, Eq)]
pub enum ClientError {
    /// No connection could be made.
    Unreachable { host: String, port: u16, cause: String },
    /// The TLS handshake failed, or the server's certificate is not trusted.
    TlsNegotiationError(String),
    /// A write or a read failed.
    TransportError(String),
    /// The response is not UTF-8; the text says where.
    MalformedEncoding(String),
    /// The server answered with a failure; this is its text.
    ServerRejected(String),
    /// The driver reported something that the state does not wait for.
    UnexpectedEvent,
}

/// The mathematical value of a [`ClientError`].
pub enum ClientErrorView {
    Unreachable { host: Seq<char>, port: u16, cause: Seq<char> },
    TlsNegotiationError(Seq<char>),
    TransportError(Seq<char>),
    MalformedEncoding(Seq<char>),
    ServerRejected(Seq<char>),
    UnexpectedEvent,
}

impl View for ClientError {
    type V = ClientErrorView;

    open spec fn view(&self) -> ClientErrorView {
        match self {
            ClientError::Unreachable { host, port, cause } => ClientErrorView::Unreachable {
                host: host@,
                port: *port,
                cause: cause@,
            },
            ClientError::TlsNegotiationError(cause) => ClientErrorView::TlsNegotiationError(
                cause@,
            ),
            ClientError::TransportError(cause) => ClientErrorView::TransportError(cause@),
            ClientError::MalformedEncoding(cause) => ClientErrorView::MalformedEncoding(cause@),
            ClientError::ServerRejected(message) => ClientErrorView::ServerRejected(message@),
            ClientError::UnexpectedEvent => ClientErrorView::UnexpectedEvent,
        }
    }
}

/// The one line that tells a user what went wrong.
pub open spec fn error_text(error: ClientErrorView) -> Seq<char> {
    match error {
        ClientErrorView::Unreachable { host, port, cause } => {
            "Could not connect to clipboard server at '"@ + address_of(host, port) + "'! "@
                + cause
        },
        ClientErrorView::TlsNegotiationError(cause) => cause,
        ClientErrorView::TransportError(cause) => cause,
        ClientErrorView::MalformedEncoding(cause) => cause,
        ClientErrorView::ServerRejected(message) => message,
        ClientErrorView::UnexpectedEvent => "Unexpected event"@,
    }
}

impl ClientError {
    /// The one line that tells a user what went wrong.
    pub fn message(&self) -> (text: String)
        ensures
            text@ == error_text(self@),
    {
        match self {
            ClientError::Unreachable { host, port, cause } => {
                let mut text = String::from_str("Could not connect to clipboard server at '");
                let place = address(host.as_str(), *port);
                text.append(place.as_str());
                text.append("'! ");
                text.append(cause.as_str());
                text
            },
            ClientError::TlsNegotiationError(cause) => cause.clone(),
            ClientError::TransportError(cause) => cause.clone(),
            ClientError::MalformedEncoding(cause) => cause.clone(),
            ClientError::ServerRejected(message) => message.clone(),
            ClientError::UnexpectedEvent => String::from_str("Unexpected event"),
        }
    }
}

/// Where an exchange stands.
#[derive(Debug, Clone, Copy, PartialEq, Eq, Structural)]
pub enum ExchangeState {
    /// Nothing has been done yet.
    Ready,
    /// The connection is being made.
    Connecting,
    /// The transport is being wrapped in TLS.
    TlsHandshake,
    /// The request is being written.
    Sending,
    /// The response's frame is being read.
    ReadingFrame,
    /// The exchange is over.
    Finished,
}

/// What the driver reports to the machine.
#[derive(Debug, Clone, PartialEq, Eq)]
pub enum ExchangeEvent {
    /// The connection stands.
    Connected,
    /// No connection could be made; the text says why.
    ConnectFailed(String),
    /// The handshake gave a secure channel to a trusted server.
    TlsEstablished,
    /// The handshake failed; the text says how.
    TlsFailed(String),
    /// The request was written in full.
    Sent,
    /// The write failed; the text says how.
    SendFailed(String),
    /// A read put `count` bytes at the start of `buffer`.
    Read { buffer: Vec<u8>, count: usize },
    /// A read failed; the text says how.
    ReadFailed(String),
}

/// The mathematical value of an [`ExchangeEvent`].
pub enum ExchangeEventView {
    Connected,
    ConnectFailed(Seq<char>),
    TlsEstablished,
    TlsFailed(Seq<char>),
    Sent,
    SendFailed(Seq<char>),
    Read { buffer: Seq<u8>, count: nat },
    ReadFailed(Seq<char>),
}

impl View for ExchangeEvent {
    type V = ExchangeEventView;

    open spec fn view(&self) -> ExchangeEventView {
        match self {
            ExchangeEvent::Connected => ExchangeEventView::Connected,
            ExchangeEvent::ConnectFailed(cause) => ExchangeEventView::ConnectFailed(cause@),
            ExchangeEvent::TlsEstablished => ExchangeEventView::TlsEstablished,
            ExchangeEvent::TlsFailed(cause) => ExchangeEventView::TlsFailed(cause@),
            ExchangeEvent::Sent => ExchangeEventView::Sent,
            ExchangeEvent::SendFailed(cause) => ExchangeEventView::SendFailed(cause@),
            ExchangeEvent::Read { buffer, count } => ExchangeEventView::Read {
                buffer: buffer@,
                count: *count as nat,
            },
            ExchangeEvent::ReadFailed(cause) => ExchangeEventView::ReadFailed(cause@),
        }
    }
}

/// What the machine asks the driver to do next.
#[derive(Debug, PartialEq, Eq)]
pub enum ExchangeAction {
    /// Connect to this address, `host:port`.
    Connect(String),
    /// Wrap the transport in TLS and check the server's certificate
    /// against the pinned ones.
    Handshake,
    /// Write these bytes, all of them.
    Send(Vec<u8>),
    /// Read once into a buffer of `BUFFER_CAP` bytes.
    ReadChunk,
    /// The exchange is over, with this result.
    Finish(Result<Response, ClientError>),
}

/// The mathematical value of an [`ExchangeAction`].
pub enum ExchangeActionView {
    Connect(Seq<char>),
    Handshake,
    Send(Seq<u8>),
    ReadChunk,
    Finish(Result<ResponseView, ClientErrorView>),
}

impl View for ExchangeAction {
    type V = ExchangeActionView;

    open spec fn view(&self) -> ExchangeActionView {
        match self {
            ExchangeAction::Connect(place) => ExchangeActionView::Connect(place@),
            ExchangeAction::Handshake => ExchangeActionView::Handshake,
            ExchangeAction::Send(bytes) => ExchangeActionView::Send(bytes@),
            ExchangeAction::ReadChunk => ExchangeActionView::ReadChunk,
            ExchangeAction::Finish(Ok(response)) => ExchangeActionView::Finish(Ok(response@)),
            ExchangeAction::Finish(Err(error)) => ExchangeActionView::Finish(Err(error@)),
        }
    }
}

/// One exchange's state.
pub struct Exchange {
    state: ExchangeState,
    host: String,
    port: u16,
    secure: bool,
    drops_padding: bool,
    command: Command,
    frame: FrameReader,
}

/// The mathematical value of an [`Exchange`].
pub struct ExchangeView {
    /// Where the exchange stands.
    pub state: ExchangeState,
    /// The server's host.
    pub host: Seq<char>,
    /// The server's port.
    pub port: u16,
    /// Whether the transport is to be wrapped in TLS.
    pub secure: bool,
    /// Whether zero bytes in the response are padding, to be dropped before
    /// the response is decoded.
    pub drops_padding: bool,
    /// The request to send.
    pub command: CommandView,
    /// The response's frame as far as it has been read.
    pub frame: FrameView,
}

impl View for Exchange {
    type V = ExchangeView;

    closed spec fn view(&self) -> ExchangeView {
        ExchangeView {
            state: self.state,
            host: self.host@,
            port: self.port,
            secure: self.secure,
            drops_padding: self.drops_padding,
            command: self.command@,
            frame: self.frame@,
        }
    }
}

/// An exchange in `state` and nothing else changed.
pub open spec fn advanced_to(exchange: ExchangeView, state: ExchangeState) -> ExchangeView {
    ExchangeView { state, ..exchange }
}

/// A finished exchange and the action that gives its result.
pub open spec fn finished(exchange: ExchangeView, result: Result<ResponseView, ClientErrorView>) -> (
    ExchangeView,
    ExchangeActionView,
) {
    (advanced_to(exchange, ExchangeState::Finished), ExchangeActionView::Finish(result))
}

/// The exchange that is about to write its request.
pub open spec fn sending(exchange: ExchangeView) -> (ExchangeView, ExchangeActionView) {
    (
        advanced_to(exchange, ExchangeState::Sending),
        ExchangeActionView::Send(bytes_of_request(exchange.command)),
    )
}

/// What an exchange comes to once the response's text is known: a success
/// is the result, a failure is `ServerRejected` with the whole text.
pub open spec fn result_of_text(text: Seq<char>) -> Result<ResponseView, ClientErrorView> {
    match response_of_text(text) {
        ResponseView::Success(payload) => Ok(ResponseView::Success(payload)),
        ResponseView::Failure(message) => Err(ClientErrorView::ServerRejected(message)),
    }
}

/// The first step: a fresh exchange asks for the connection. Begun anywhere
/// else, the exchange finishes with `UnexpectedEvent`.
pub open spec fn begun(exchange: ExchangeView) -> (ExchangeView, ExchangeActionView) {
    if exchange.state != ExchangeState::Ready {
        finished(exchange, Err(ClientErrorView::UnexpectedEvent))
    } else {
        (
            advanced_to(exchange, ExchangeState::Connecting),
            ExchangeActionView::Connect(address_of(exchange.host, exchange.port)),
        )
    }
}

/// What is reported of a response that is not UTF-8, for the given cause.
pub open spec fn unreadable(cause: Seq<char>) -> Seq<char> {
    "Cannot read server data; err = "@ + cause
}

/// Words the report of a response that is not UTF-8, for the given cause.
pub fn describe_unreadable(cause: &str) -> (report: String)
    ensures
        report@ == unreadable(cause@),
{
    join("Cannot read server data; err = ", cause)
}

/// The bytes of a response that an exchange decodes: what was received,
/// without its zero bytes where the exchange drops padding.
pub open spec fn response_bytes(exchange: ExchangeView, received: Seq<u8>) -> Seq<u8> {
    if exchange.drops_padding {
        unpadded(received)
    } else {
        received
    }
}

/// The exchange after a read, and the action that follows: read on while
/// the frame is open; once it has ended, finish with what the text of its
/// bytes says, or with `MalformedEncoding` and the cause where they are not
/// UTF-8.
pub open spec fn after_response_read(exchange: ExchangeView, buffer: Seq<u8>, count: nat) -> (
    ExchangeView,
    ExchangeActionView,
) {
    let frame = after_read(exchange.frame, buffer, count);
    let bytes = response_bytes(exchange, frame.received);
    if !frame.complete {
        (ExchangeView { frame, ..exchange }, ExchangeActionView::ReadChunk)
    } else if valid_utf8(bytes) {
        (
            ExchangeView { state: ExchangeState::Finished, frame, ..exchange },
            ExchangeActionView::Finish(result_of_text(decode_utf8(bytes))),
        )
    } else {
        (
            ExchangeView { state: ExchangeState::Finished, frame, ..exchange },
            ExchangeActionView::Finish(
                Err(ClientErrorView::MalformedEncoding(unreadable(utf8_error(bytes)))),
            ),
        )
    }
}

/// The transition: the state after `event`, and the action that the machine
/// asks for. An event that the state does not wait for finishes the exchange
/// with `UnexpectedEvent`.
pub open spec fn next(exchange: ExchangeView, event: ExchangeEventView) -> (
    ExchangeView,
    ExchangeActionView,
) {
    match (exchange.state, event) {
        (ExchangeState::Connecting, ExchangeEventView::Connected) => if exchange.secure {
            (advanced_to(exchange, ExchangeState::TlsHandshake), ExchangeActionView::Handshake)
        } else {
            sending(exchange)
        },
        (ExchangeState::Connecting, ExchangeEventView::ConnectFailed(cause)) => finished(
            exchange,
            Err(ClientErrorView::Unreachable { host: exchange.host, port: exchange.port, cause }),
        ),
        (ExchangeState::TlsHandshake, ExchangeEventView::TlsEstablished) => sending(exchange),
        (ExchangeState::TlsHandshake, ExchangeEventView::TlsFailed(cause)) => finished(
            exchange,
            Err(ClientErrorView::TlsNegotiationError(cause)),
        ),
        (ExchangeState::Sending, ExchangeEventView::Sent) => (
            advanced_to(exchange, ExchangeState::ReadingFrame),
            ExchangeActionView::ReadChunk,
        ),
        (ExchangeState::Sending, ExchangeEventView::SendFailed(cause)) => finished(
            exchange,
            Err(ClientErrorView::TransportError(cause)),
        ),
        (ExchangeState::ReadingFrame, ExchangeEventView::Read { buffer, count }) => {
            after_response_read(exchange, buffer, count)
        },
        (ExchangeState::ReadingFrame, ExchangeEventView::ReadFailed(cause)) => finished(
            exchange,
            Err(ClientErrorView::TransportError(read_failure(cause))),
        ),
        _ => finished(exchange, Err(ClientErrorView::UnexpectedEvent)),
    }
}

/// The text that the caller is to put on the local clipboard after an
/// exchange: the payload of a success that answers a read or a clear, which
/// is the clipboard's value on the server. Nothing after a write, nor after a
/// failure.
pub open spec fn local_update_of(command: CommandView, response: ResponseView) -> Option<
    Seq<char>,
> {
    match (command, response) {
        (CommandView::Read, ResponseView::Success(payload)) => Some(payload),
        (CommandView::Clear, ResponseView::Success(payload)) => Some(payload),
        _ => None,
    }
}

/// The text that the caller is to put on the local clipboard after an
/// exchange, if any.
pub fn local_update(command: &Command, response: &Response) -> (update: Option<String>)
    ensures
        optional_text(update) == local_update_of(command@, response@),
{
    match response {
        Response::Success(payload) => match command {
            Command::Read => Some(payload.clone()),
            Command::Clear => Some(payload.clone()),
            Command::Write(_) => None,
        },
        Response::Failure(_) => None,
    }
}

/// Turns the text of a response's frame into the result of the exchange.
pub fn conclude(text: &str) -> (result: Result<Response, ClientError>)
    ensures
        match result {
            Ok(response) => result_of_text(text@) == Ok::<ResponseView, ClientErrorView>(
                response@,
            ),
            Err(error) => result_of_text(text@) == Err::<ResponseView, ClientErrorView>(error@),
        },
{
    match parse_response(text) {
        Response::Success(payload) => Ok(Response::Success(payload)),
        Response::Failure(message) => Err(ClientError::ServerRejected(message)),
    }
}

impl Exchange {
    /// An exchange that will send `command` to `host:port`. `secure` says
    /// whether the transport is to be wrapped in TLS. Every byte of the
    /// response counts.
    pub fn new(host: String, port: u16, command: Command, secure: bool) -> (exchange: Exchange)
        ensures
            exchange@ == (ExchangeView {
                state: ExchangeState::Ready,
                host: host@,
                port,
                secure,
                drops_padding: false,
                command: command@,
                frame: FrameView { received: Seq::<u8>::empty(), complete: false },
            }),
    {
        Exchange {
            state: ExchangeState::Ready,
            host,
            port,
            secure,
            drops_padding: false,
            command,
            frame: FrameReader::new(),
        }
    }

    /// An exchange over plain TCP that will send `command` to `host:port`,
    /// with a server that may pad what it writes: the zero bytes of the
    /// response are dropped before it is decoded.
    pub fn plain(host: String, port: u16, command: Command) -> (exchange: Exchange)
        ensures
            exchange@ == (ExchangeView {
                state: ExchangeState::Ready,
                host: host@,
                port,
                secure: false,
                drops_padding: true,
                command: command@,
                frame: FrameView { received: Seq::<u8>::empty(), complete: false },
            }),
    {
        Exchange {
            state: ExchangeState::Ready,
            host,
            port,
            secure: false,
            drops_padding: true,
            command,
            frame: FrameReader::new(),
        }
    }

    /// Where the exchange stands.
    pub fn state(&self) -> (state: ExchangeState)
        ensures
            state == self@.state,
    {
        self.state
    }

    /// The request that the exchange sends.
    pub fn command(&self) -> (command: &Command)
        ensures
            command@ == self@.command,
    {
        &self.command
    }

    /// Takes the first step and says what to do.
    pub fn begin(&mut self) -> (action: ExchangeAction)
        ensures
            (final(self)@, action@) == begun(old(self)@),
    {
        if self.state != ExchangeState::Ready {
            self.state = ExchangeState::Finished;
            ExchangeAction::Finish(Err(ClientError::UnexpectedEvent))
        } else {
            self.state = ExchangeState::Connecting;
            ExchangeAction::Connect(address(self.host.as_str(), self.port))
        }
    }

    /// Takes in what the driver reports and says what to do next.
    pub fn on_event(&mut self, event: ExchangeEvent) -> (action: ExchangeAction)
        ensures
            (final(self)@, action@) == next(old(self)@, event@),
    {
        match self.state {
            ExchangeState::Connecting => match event {
                ExchangeEvent::Connected => if self.secure {
                    self.state = ExchangeState::TlsHandshake;
                    ExchangeAction::Handshake
                } else {
                    self.send()
                },
                ExchangeEvent::ConnectFailed(cause) => {
                    self.state = ExchangeState::Finished;
                    ExchangeAction::Finish(
                        Err(
                            ClientError::Unreachable {
                                host: self.host.clone(),
                                port: self.port,
                                cause,
                            },
                        ),
                    )
                },
                _ => self.finish_unexpected(),
            },
            ExchangeState::TlsHandshake => match event {
                ExchangeEvent::TlsEstablished => self.send(),
                ExchangeEvent::TlsFailed(cause) => {
                    self.state = ExchangeState::Finished;
                    ExchangeAction::Finish(Err(ClientError::TlsNegotiationError(cause)))
                },
                _ => self.finish_unexpected(),
            },
            ExchangeState::Sending => match event {
                ExchangeEvent::Sent => {
                    self.state = ExchangeState::ReadingFrame;
                    ExchangeAction::ReadChunk
                },
                ExchangeEvent::SendFailed(cause) => {
                    self.state = ExchangeState::Finished;
                    ExchangeAction::Finish(Err(ClientError::TransportError(cause)))
                },
                _ => self.finish_unexpected(),
            },
            ExchangeState::ReadingFrame => match event {
                ExchangeEvent::Read { buffer, count } => self.on_read(buffer.as_slice(), count),
                ExchangeEvent::ReadFailed(cause) => {
                    self.state = ExchangeState::Finished;
                    ExchangeAction::Finish(
                        Err(ClientError::TransportError(describe_read_failure(cause.as_str()))),
                    )
                },
                _ => self.finish_unexpected(),
            },
            _ => self.finish_unexpected(),
        }
    }

    /// Moves on to writing the request.
    fn send(&mut self) -> (action: ExchangeAction)
        ensures
            (final(self)@, action@) == sending(old(self)@),
    {
        self.state = ExchangeState::Sending;
        ExchangeAction::Send(encode(&self.command))
    }

    /// Takes in one read while the response is being read.
    fn on_read(&mut self, buffer: &[u8], count: usize) -> (action: ExchangeAction)
        requires
            old(self)@.state == ExchangeState::ReadingFrame,
        ensures
            (final(self)@, action@) == after_response_read(old(self)@, buffer@, count as nat),
    {
        match self.frame.accept(buffer, count) {
            FrameStatus::Incomplete => ExchangeAction::ReadChunk,
            FrameStatus::Complete => {
                self.state = ExchangeState::Finished;
                let read = if self.drops_padding {
                    read_text(without_padding(self.frame.received()).as_slice())
                } else {
                    read_text(self.frame.received())
                };
                match read {
                    Ok(text) => ExchangeAction::Finish(conclude(text.as_str())),
                    Err(cause) => ExchangeAction::Finish(
                        Err(ClientError::MalformedEncoding(describe_unreadable(cause.as_str()))),
                    ),
                }
            },
        }
    }

    /// Finishes on an event that the state does not wait for.
    fn finish_unexpected(&mut self) -> (action: ExchangeAction)
        ensures
            final(self)@ == advanced_to(old(self)@, ExchangeState::Finished),
            action@ == ExchangeActionView::Finish(Err(ClientErrorView::UnexpectedEvent)),
    {
        self.state = ExchangeState::Finished;
        ExchangeAction::Finish(Err(ClientError::UnexpectedEvent))
    }
}

/// The three names of the command line stand for the three requests: `READ`
/// for a read, `CLEAR` for a clear, `WRITE` for a write of the text given,
/// and so go out as `READ:`, `CLEAR:` and `WRITE:` with the text.
pub proof fn lemma_named_commands(text: Option<Seq<char>>)
    ensures
        request_of_command(ClipboardCmdView { name: "READ"@, text }) == CommandView::Read,
        request_of_command(ClipboardCmdView { name: "CLEAR"@, text }) == CommandView::Clear,
        request_of_command(ClipboardCmdView { name: "WRITE"@, text }) == CommandView::Write(
            match text {
                Some(text) => text,
                None => Seq::<char>::empty(),
            },
        ),
{
    reveal_strlit("READ");
    reveal_strlit("CLEAR");
    reveal_strlit("WRITE");
    assert("READ"@ =~= read_name());
    assert("CLEAR"@ =~= clear_name());
    assert(read_name() =~= "READ"@.subrange(0, 4));
    assert(clear_name() =~= "CLEAR"@.subrange(0, 5));
    lemma_first_character_decides(read_name(), "CLEAR"@);
    lemma_first_character_decides(read_name(), "WRITE"@);
    lemma_first_character_decides(clear_name(), "WRITE"@);
}

/// An exchange that drops padding reads a response as if its zero bytes had
/// never been sent; a response without zero bytes is read alike by both
/// kinds of exchange.
pub proof fn lemma_padding_is_not_read(exchange: ExchangeView, buffer: Seq<u8>, count: nat)
    requires
        exchange.drops_padding,
        after_read(exchange.frame, buffer, count).complete,
    ensures
        after_response_read(exchange, buffer, count).1 == (if valid_utf8(
            unpadded(after_read(exchange.frame, buffer, count).received),
        ) {
            ExchangeActionView::Finish(
                result_of_text(
                    decode_utf8(unpadded(after_read(exchange.frame, buffer, count).received)),
                ),
            )
        } else {
            ExchangeActionView::Finish(
                Err(
                    ClientErrorView::MalformedEncoding(
                        unreadable(
                            utf8_error(
                                unpadded(after_read(exchange.frame, buffer, count).received),
                            ),
                        ),
                    ),
                ),
            )
        }),
        (forall|i: int|
            0 <= i < after_read(exchange.frame, buffer, count).received.len() ==> after_read(
                exchange.frame,
                buffer,
                count,
            ).received[i] != 0) ==> after_response_read(exchange, buffer, count).1
            == after_response_read(
            ExchangeView { drops_padding: false, ..exchange },
            buffer,
            count,
        ).1,
{
    lemma_unpadded(after_read(exchange.frame, buffer, count).received);
}

/// How far an exchange has come: the place of its state in the order in
/// which the states follow one another.
pub open spec fn progress(state: ExchangeState) -> nat {
    match state {
        ExchangeState::Ready => 0,
        ExchangeState::Connecting => 1,
        ExchangeState::TlsHandshake => 2,
        ExchangeState::Sending => 3,
        ExchangeState::ReadingFrame => 4,
        ExchangeState::Finished => 5,
    }
}

/// An exchange never goes back. A step leaves it further on, but for two
/// cases: while the frame is open it goes on reading, and once finished it
/// stays finished.
pub proof fn lemma_exchange_moves_on(exchange: ExchangeView, event: ExchangeEventView)
    ensures
        progress(begun(exchange).0.state) > progress(exchange.state) || exchange.state
            == ExchangeState::Finished,
        progress(next(exchange, event).0.state) > progress(exchange.state) || (exchange.state
            == ExchangeState::ReadingFrame && next(exchange, event).1
            == ExchangeActionView::ReadChunk) || exchange.state == ExchangeState::Finished,
{
}

/// An exchange never ends well on a failure: what it hands back as its
/// response is a success, and a failure from the server is `ServerRejected`.
pub proof fn lemma_exchange_succeeds_only_on_success(
    exchange: ExchangeView,
    event: ExchangeEventView,
)
    requires
        next(exchange, event).1 matches ExchangeActionView::Finish(Ok(_)),
    ensures
        next(exchange, event).1 matches ExchangeActionView::Finish(Ok(response))
            && response is Success,
        exchange.state == ExchangeState::ReadingFrame,
{
}

/// A finished exchange stays finished, whatever is reported to it.
pub proof fn lemma_finished_is_final(exchange: ExchangeView, event: ExchangeEventView)
    requires
        exchange.state == ExchangeState::Finished,
    ensures
        next(exchange, event).0.state == ExchangeState::Finished,
        next(exchange, event).1 is Finish,
        begun(exchange).0.state == ExchangeState::Finished,
        begun(exchange).1 is Finish,
{
}

/// The request goes out as the codec writes it, and only after the
/// connection stands and, where TLS is asked for, the handshake is done.
pub proof fn lemma_request_is_sent_once_connected(
    exchange: ExchangeView,
    event: ExchangeEventView,
)
    requires
        next(exchange, event).1 is Send,
    ensures
        next(exchange, event).1 == ExchangeActionView::Send(bytes_of_request(exchange.command)),
        next(exchange, event).0.state == ExchangeState::Sending,
        (exchange.state == ExchangeState::Connecting && event is Connected && !exchange.secure)
            || (exchange.state == ExchangeState::TlsHandshake && event is TlsEstablished),
{
}

} // verus!
