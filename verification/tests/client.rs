use rclip::client::address;
use rclip::client::conclude;
use rclip::client::describe_unreadable;
use rclip::client::local_update;
use rclip::client::port_text;
use rclip::client::ClientError;
use rclip::client::ClipboardCmd;
use rclip::client::Exchange;
use rclip::client::ExchangeAction;
use rclip::client::ExchangeEvent;
use rclip::client::ExchangeState;
use rclip::codec::Command;
use rclip::codec::Response;
use rclip::frame::BUFFER_CAP;

fn read_event(bytes: &[u8]) -> ExchangeEvent {
    let mut buffer = vec![0u8; BUFFER_CAP];
    buffer[..bytes.len()].copy_from_slice(bytes);
    ExchangeEvent::Read { buffer, count: bytes.len() }
}

/// What the standard library says of bytes that are not UTF-8.
fn utf8_cause(bytes: &[u8]) -> String {
    String::from_utf8(bytes.to_vec()).unwrap_err().to_string()
}

fn exchange(command: Command, secure: bool) -> Exchange {
    Exchange::new("127.0.0.1".to_string(), 10080, command, secure)
}

fn reading(command: Command) -> Exchange {
    let mut exchange = exchange(command, false);
    exchange.begin();
    exchange.on_event(ExchangeEvent::Connected);
    exchange.on_event(ExchangeEvent::Sent);
    assert_eq!(exchange.state(), ExchangeState::ReadingFrame);
    exchange
}

fn all_events() -> Vec<ExchangeEvent> {
    vec![
        ExchangeEvent::Connected,
        ExchangeEvent::ConnectFailed("bad".to_string()),
        ExchangeEvent::TlsEstablished,
        ExchangeEvent::TlsFailed("bad".to_string()),
        ExchangeEvent::Sent,
        ExchangeEvent::SendFailed("bad".to_string()),
        read_event(b"SUCCESS:"),
        ExchangeEvent::ReadFailed("bad".to_string()),
    ]
}

#[test]
fn ports_are_written_in_decimal() {
    assert_eq!(port_text(0), "0");
    assert_eq!(port_text(7), "7");
    assert_eq!(port_text(9), "9");
    assert_eq!(port_text(10), "10");
    assert_eq!(port_text(80), "80");
    assert_eq!(port_text(109), "109");
    assert_eq!(port_text(10080), "10080");
    assert_eq!(port_text(65535), "65535");
    for port in [1u16, 12, 123, 1234, 12345, 40000, 60006] {
        assert_eq!(port_text(port), port.to_string());
    }
}

#[test]
fn an_address_is_host_colon_port() {
    assert_eq!(address("127.0.0.1", 10080), "127.0.0.1:10080");
    assert_eq!(address("localhost", 1), "localhost:1");
    assert_eq!(address("", 0), ":0");
}

#[test]
fn a_command_named_read_reads() {
    let command = ClipboardCmd { name: "READ".to_string(), text: None };
    assert_eq!(command.to_text(), "READ:");
    assert_eq!(command.to_command(), Command::Read);
    let command = ClipboardCmd { name: "READ".to_string(), text: Some("ignored".to_string()) };
    assert_eq!(command.to_text(), "READ:");
    let command = ClipboardCmd { name: "READING".to_string(), text: None };
    assert_eq!(command.to_text(), "READ:");
}

#[test]
fn a_command_named_write_writes_its_text() {
    let command = ClipboardCmd { name: "WRITE".to_string(), text: Some("hello".to_string()) };
    assert_eq!(command.to_text(), "WRITE:hello");
    assert_eq!(command.to_command(), Command::Write("hello".to_string()));
    let command = ClipboardCmd { name: "WRITE".to_string(), text: None };
    assert_eq!(command.to_text(), "WRITE:");
    assert_eq!(command.to_command(), Command::Write(String::new()));
}

#[test]
fn a_command_named_clear_clears() {
    let command = ClipboardCmd { name: "CLEAR".to_string(), text: Some(String::new()) };
    assert_eq!(command.to_text(), "CLEAR:");
    assert_eq!(command.to_command(), Command::Clear);
    let command = ClipboardCmd { name: "CLEAR".to_string(), text: None };
    assert_eq!(command.to_text(), "CLEAR:");
    let command = ClipboardCmd { name: "CLEAR".to_string(), text: Some("ignored".to_string()) };
    assert_eq!(command.to_text(), "CLEAR:");
    assert_eq!(command.to_command(), Command::Clear);
}

#[test]
fn a_clear_and_a_write_of_nothing_go_out_differently() {
    let clear = ClipboardCmd { name: "CLEAR".to_string(), text: Some(String::new()) };
    let write = ClipboardCmd { name: "WRITE".to_string(), text: Some(String::new()) };
    let read = ClipboardCmd { name: "READ".to_string(), text: None };
    assert_eq!(clear.to_text(), "CLEAR:");
    assert_eq!(write.to_text(), "WRITE:");
    assert_eq!(read.to_text(), "READ:");
    assert_ne!(clear.to_text(), write.to_text());
    assert_ne!(clear.to_text(), read.to_text());
    assert_ne!(write.to_text(), read.to_text());
}

#[test]
fn a_command_under_any_other_name_writes() {
    let command = ClipboardCmd { name: "read".to_string(), text: Some("x".to_string()) };
    assert_eq!(command.to_text(), "WRITE:x");
    let command = ClipboardCmd { name: "clear".to_string(), text: None };
    assert_eq!(command.to_text(), "WRITE:");
    let command = ClipboardCmd { name: String::new(), text: None };
    assert_eq!(command.to_text(), "WRITE:");
}

#[test]
fn a_plain_exchange_runs_from_connect_to_finish() {
    let mut exchange = exchange(Command::Write("hello world".to_string()), false);
    assert_eq!(exchange.state(), ExchangeState::Ready);
    assert_eq!(exchange.command(), &Command::Write("hello world".to_string()));
    assert_eq!(exchange.begin(), ExchangeAction::Connect("127.0.0.1:10080".to_string()));
    assert_eq!(exchange.state(), ExchangeState::Connecting);
    assert_eq!(
        exchange.on_event(ExchangeEvent::Connected),
        ExchangeAction::Send(b"WRITE:hello world".to_vec())
    );
    assert_eq!(exchange.state(), ExchangeState::Sending);
    assert_eq!(exchange.on_event(ExchangeEvent::Sent), ExchangeAction::ReadChunk);
    assert_eq!(exchange.state(), ExchangeState::ReadingFrame);
    assert_eq!(
        exchange.on_event(read_event(b"SUCCESS:hello world")),
        ExchangeAction::Finish(Ok(Response::Success("hello world".to_string())))
    );
    assert_eq!(exchange.state(), ExchangeState::Finished);
}

#[test]
fn a_secure_exchange_shakes_hands_before_it_sends() {
    let mut exchange = exchange(Command::Read, true);
    exchange.begin();
    assert_eq!(exchange.on_event(ExchangeEvent::Connected), ExchangeAction::Handshake);
    assert_eq!(exchange.state(), ExchangeState::TlsHandshake);
    assert_eq!(
        exchange.on_event(ExchangeEvent::TlsEstablished),
        ExchangeAction::Send(b"READ:".to_vec())
    );
    assert_eq!(exchange.state(), ExchangeState::Sending);
}

#[test]
fn a_server_that_cannot_be_reached_is_unreachable() {
    let mut exchange = exchange(Command::Read, true);
    exchange.begin();
    let error = ClientError::Unreachable {
        host: "127.0.0.1".to_string(),
        port: 10080,
        cause: "Connection refused".to_string(),
    };
    assert_eq!(
        exchange.on_event(ExchangeEvent::ConnectFailed("Connection refused".to_string())),
        ExchangeAction::Finish(Err(error.clone()))
    );
    assert_eq!(exchange.state(), ExchangeState::Finished);
    assert_eq!(
        error.message(),
        "Could not connect to clipboard server at '127.0.0.1:10080'! Connection refused"
    );
}

#[test]
fn an_untrusted_server_ends_the_exchange() {
    let mut exchange = exchange(Command::Read, true);
    exchange.begin();
    exchange.on_event(ExchangeEvent::Connected);
    assert_eq!(
        exchange.on_event(ExchangeEvent::TlsFailed("Unknown issuer".to_string())),
        ExchangeAction::Finish(Err(ClientError::TlsNegotiationError("Unknown issuer".to_string())))
    );
    assert_eq!(exchange.state(), ExchangeState::Finished);
}

#[test]
fn a_failed_write_ends_the_exchange() {
    let mut exchange = exchange(Command::Read, false);
    exchange.begin();
    exchange.on_event(ExchangeEvent::Connected);
    assert_eq!(
        exchange.on_event(ExchangeEvent::SendFailed("broken pipe".to_string())),
        ExchangeAction::Finish(Err(ClientError::TransportError("broken pipe".to_string())))
    );
}

#[test]
fn a_failed_read_ends_the_exchange() {
    let mut exchange = reading(Command::Read);
    assert_eq!(
        exchange.on_event(ExchangeEvent::ReadFailed("reset".to_string())),
        ExchangeAction::Finish(Err(ClientError::TransportError(
            "Failed to read from socket; err = reset".to_string()
        )))
    );
}

#[test]
fn a_failure_from_the_server_is_a_rejection_with_the_whole_text() {
    let mut exchange = reading(Command::Read);
    assert_eq!(
        exchange.on_event(read_event(b"ERROR:Unknown message FOO:bar")),
        ExchangeAction::Finish(Err(ClientError::ServerRejected(
            "ERROR:Unknown message FOO:bar".to_string()
        )))
    );
    assert_eq!(
        conclude("anything else"),
        Err(ClientError::ServerRejected("anything else".to_string()))
    );
    assert_eq!(conclude(""), Err(ClientError::ServerRejected(String::new())));
}

#[test]
fn a_response_that_is_not_utf8_is_malformed() {
    let mut exchange = reading(Command::Read);
    let expected = format!("Cannot read server data; err = {}", utf8_cause(b"SUCCESS:\xff"));
    assert_eq!(
        expected,
        "Cannot read server data; err = invalid utf-8 sequence of 1 bytes from index 8"
    );
    assert_eq!(
        exchange.on_event(read_event(b"SUCCESS:\xff")),
        ExchangeAction::Finish(Err(ClientError::MalformedEncoding(expected)))
    );
    assert_eq!(exchange.state(), ExchangeState::Finished);
}

#[test]
fn a_long_response_is_read_chunk_by_chunk() {
    let mut exchange = reading(Command::Read);
    let payload = "y".repeat(2 * BUFFER_CAP);
    let frame = format!("SUCCESS:{}", payload);
    let bytes = frame.as_bytes();
    assert_eq!(exchange.on_event(read_event(&bytes[..BUFFER_CAP])), ExchangeAction::ReadChunk);
    assert_eq!(
        exchange.on_event(read_event(&bytes[BUFFER_CAP..2 * BUFFER_CAP])),
        ExchangeAction::ReadChunk
    );
    assert_eq!(
        exchange.on_event(read_event(&bytes[2 * BUFFER_CAP..])),
        ExchangeAction::Finish(Ok(Response::Success(payload)))
    );
}

#[test]
fn a_finished_exchange_stays_finished() {
    for event in all_events() {
        let mut exchange = reading(Command::Read);
        exchange.on_event(read_event(b"SUCCESS:"));
        assert_eq!(exchange.state(), ExchangeState::Finished);
        assert_eq!(
            exchange.on_event(event),
            ExchangeAction::Finish(Err(ClientError::UnexpectedEvent))
        );
        assert_eq!(exchange.state(), ExchangeState::Finished);
    }
}

#[test]
fn an_event_out_of_turn_ends_the_exchange() {
    let mut fresh = exchange(Command::Read, false);
    assert_eq!(
        fresh.on_event(ExchangeEvent::Connected),
        ExchangeAction::Finish(Err(ClientError::UnexpectedEvent))
    );
    let mut begun = exchange(Command::Read, false);
    begun.begin();
    assert_eq!(begun.begin(), ExchangeAction::Finish(Err(ClientError::UnexpectedEvent)));
    let mut plain = exchange(Command::Read, false);
    plain.begin();
    assert_eq!(
        plain.on_event(ExchangeEvent::TlsEstablished),
        ExchangeAction::Finish(Err(ClientError::UnexpectedEvent))
    );
}

#[test]
fn what_was_read_or_cleared_goes_to_the_local_clipboard() {
    let success = Response::Success("remote".to_string());
    assert_eq!(local_update(&Command::Read, &success), Some("remote".to_string()));
    assert_eq!(local_update(&Command::Clear, &success), Some("remote".to_string()));
    assert_eq!(local_update(&Command::Write("remote".to_string()), &success), None);
    let failure = Response::Failure("no".to_string());
    assert_eq!(local_update(&Command::Read, &failure), None);
    assert_eq!(local_update(&Command::Clear, &failure), None);
    assert_eq!(local_update(&Command::Write("x".to_string()), &failure), None);
    assert_eq!(
        local_update(&Command::Clear, &Response::Success(String::new())),
        Some(String::new())
    );
}

#[test]
fn each_client_error_has_its_line() {
    assert_eq!(
        ClientError::Unreachable { host: "h".to_string(), port: 0, cause: "c".to_string() }
            .message(),
        "Could not connect to clipboard server at 'h:0'! c"
    );
    assert_eq!(ClientError::TlsNegotiationError("tls".to_string()).message(), "tls");
    assert_eq!(ClientError::TransportError("io".to_string()).message(), "io");
    assert_eq!(
        ClientError::MalformedEncoding("Cannot read server data; err = why".to_string()).message(),
        "Cannot read server data; err = why"
    );
    assert_eq!(ClientError::ServerRejected("ERROR:x".to_string()).message(), "ERROR:x");
    assert_eq!(ClientError::UnexpectedEvent.message(), "Unexpected event");
}

#[test]
fn a_command_line_that_reads_or_clears_needs_no_text() {
    assert_eq!(
        ClipboardCmd::from_arguments("READ", None, None),
        Some(ClipboardCmd { name: "READ".to_string(), text: None })
    );
    assert_eq!(
        ClipboardCmd::from_arguments("READ", Some("given".to_string()), Some("local".to_string())),
        Some(ClipboardCmd { name: "READ".to_string(), text: None })
    );
    assert_eq!(
        ClipboardCmd::from_arguments("CLEAR", None, None),
        Some(ClipboardCmd { name: "CLEAR".to_string(), text: Some(String::new()) })
    );
    assert_eq!(
        ClipboardCmd::from_arguments("CLEAR", Some("given".to_string()), None),
        Some(ClipboardCmd { name: "CLEAR".to_string(), text: Some(String::new()) })
    );
}

#[test]
fn a_command_line_that_writes_takes_the_text_given_or_the_local_one() {
    assert_eq!(
        ClipboardCmd::from_arguments("WRITE", Some("given".to_string()), None),
        Some(ClipboardCmd { name: "WRITE".to_string(), text: Some("given".to_string()) })
    );
    assert_eq!(
        ClipboardCmd::from_arguments("WRITE", Some("given".to_string()), Some("local".to_string())),
        Some(ClipboardCmd { name: "WRITE".to_string(), text: Some("given".to_string()) })
    );
    assert_eq!(
        ClipboardCmd::from_arguments("WRITE", None, Some("local".to_string())),
        Some(ClipboardCmd { name: "WRITE".to_string(), text: Some("local".to_string()) })
    );
    assert_eq!(
        ClipboardCmd::from_arguments("WRITE", Some(String::new()), Some("local".to_string())),
        Some(ClipboardCmd { name: "WRITE".to_string(), text: Some(String::new()) })
    );
    assert_eq!(ClipboardCmd::from_arguments("WRITE", None, None), None);
}

#[test]
fn a_command_line_under_any_other_name_writes() {
    assert_eq!(
        ClipboardCmd::from_arguments("anything", Some("x".to_string()), None),
        Some(ClipboardCmd { name: "WRITE".to_string(), text: Some("x".to_string()) })
    );
    assert_eq!(
        ClipboardCmd::from_arguments("READ:", Some("x".to_string()), None),
        Some(ClipboardCmd { name: "WRITE".to_string(), text: Some("x".to_string()) })
    );
    assert_eq!(ClipboardCmd::from_arguments("", None, None), None);
}

#[test]
fn only_a_write_without_text_wants_the_local_clipboard() {
    assert!(ClipboardCmd::wants_local_text("WRITE", &None));
    assert!(ClipboardCmd::wants_local_text("anything", &None));
    assert!(!ClipboardCmd::wants_local_text("WRITE", &Some(String::new())));
    assert!(!ClipboardCmd::wants_local_text("WRITE", &Some("x".to_string())));
    assert!(!ClipboardCmd::wants_local_text("READ", &None));
    assert!(!ClipboardCmd::wants_local_text("CLEAR", &None));
    assert!(!ClipboardCmd::wants_local_text("READ", &Some("x".to_string())));
}

#[test]
fn a_clear_from_the_command_line_goes_out_as_a_clear_and_comes_back_for_the_local_clipboard() {
    let command = ClipboardCmd::from_arguments("CLEAR", None, None).unwrap();
    assert_eq!(command.to_text(), "CLEAR:");
    assert_eq!(command.to_command(), Command::Clear);

    let mut exchange = exchange(command.to_command(), false);
    exchange.begin();
    assert_eq!(
        exchange.on_event(ExchangeEvent::Connected),
        ExchangeAction::Send(b"CLEAR:".to_vec())
    );
    exchange.on_event(ExchangeEvent::Sent);
    let finished = exchange.on_event(read_event(b"SUCCESS:"));
    assert_eq!(finished, ExchangeAction::Finish(Ok(Response::Success(String::new()))));
    assert_eq!(
        local_update(&command.to_command(), &Response::Success(String::new())),
        Some(String::new())
    );
}

fn plain_reading(command: Command) -> Exchange {
    let mut exchange = Exchange::plain("localhost".to_string(), 10080, command);
    assert_eq!(exchange.begin(), ExchangeAction::Connect("localhost:10080".to_string()));
    exchange.on_event(ExchangeEvent::Connected);
    exchange.on_event(ExchangeEvent::Sent);
    assert_eq!(exchange.state(), ExchangeState::ReadingFrame);
    exchange
}

#[test]
fn a_plain_exchange_sends_without_a_handshake() {
    let mut exchange = Exchange::plain("localhost".to_string(), 10080, Command::Read);
    exchange.begin();
    assert_eq!(exchange.on_event(ExchangeEvent::Connected), ExchangeAction::Send(b"READ:".to_vec()));
}

#[test]
fn a_plain_exchange_drops_the_zero_bytes_of_the_response() {
    let mut exchange = plain_reading(Command::Read);
    let finished = exchange.on_event(read_event(b"SUCCESS:a\0\0b\0"));
    assert_eq!(finished, ExchangeAction::Finish(Ok(Response::Success("ab".to_string()))));
    assert_eq!(
        local_update(&Command::Read, &Response::Success("ab".to_string())),
        Some("ab".to_string())
    );
}

#[test]
fn a_plain_exchange_reads_a_padded_buffer_as_its_text() {
    let mut exchange = plain_reading(Command::Read);
    let mut buffer = vec![0u8; BUFFER_CAP];
    buffer[..13].copy_from_slice(b"SUCCESS:hello");
    assert_eq!(
        exchange.on_event(ExchangeEvent::Read { buffer, count: BUFFER_CAP }),
        ExchangeAction::ReadChunk
    );
    assert_eq!(
        exchange.on_event(read_event(b"")),
        ExchangeAction::Finish(Ok(Response::Success("hello".to_string())))
    );
}

#[test]
fn a_plain_exchange_hands_on_a_rejection_without_its_zero_bytes() {
    let mut exchange = plain_reading(Command::Write("x".to_string()));
    assert_eq!(
        exchange.on_event(read_event(b"ERROR:\0no\0")),
        ExchangeAction::Finish(Err(ClientError::ServerRejected("ERROR:no".to_string())))
    );
    let mut exchange = plain_reading(Command::Read);
    assert_eq!(
        exchange.on_event(read_event(b"SUC\0CESS:x")),
        ExchangeAction::Finish(Ok(Response::Success("x".to_string())))
    );
}

#[test]
fn a_plain_exchange_without_padding_reads_like_any_other() {
    let mut exchange = plain_reading(Command::Read);
    assert_eq!(
        exchange.on_event(read_event(b"SUCCESS:hello world")),
        ExchangeAction::Finish(Ok(Response::Success("hello world".to_string())))
    );
    let mut exchange = plain_reading(Command::Read);
    assert_eq!(
        exchange.on_event(read_event(b"SUCCESS:\xff")),
        ExchangeAction::Finish(Err(ClientError::MalformedEncoding(format!(
            "Cannot read server data; err = {}",
            utf8_cause(b"SUCCESS:\xff")
        ))))
    );
    let mut exchange = plain_reading(Command::Read);
    assert_eq!(
        exchange.on_event(read_event(b"SUCC\0ESS:\0\xc3")),
        ExchangeAction::Finish(Err(ClientError::MalformedEncoding(format!(
            "Cannot read server data; err = {}",
            utf8_cause(b"SUCCESS:\xc3")
        ))))
    );
}

#[test]
fn an_exchange_that_keeps_every_byte_keeps_zero_bytes() {
    let mut exchange = reading(Command::Read);
    assert_eq!(
        exchange.on_event(read_event(b"SUCCESS:a\0b")),
        ExchangeAction::Finish(Ok(Response::Success("a\0b".to_string())))
    );
}

#[test]
fn an_unreadable_response_is_described_with_its_cause() {
    assert_eq!(
        describe_unreadable("incomplete utf-8 byte sequence from index 3"),
        "Cannot read server data; err = incomplete utf-8 byte sequence from index 3"
    );
}
