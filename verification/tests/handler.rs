use rclip::codec::Response;
use rclip::handler::handle_message;
use rclip::handler::report;
use rclip::handler::respond;
use rclip::handler::respond_guarded;
use rclip::handler::respond_locked;
use rclip::store::Clipboard;
use rclip::store::ClipboardStore;
use rclip::store::StoreError;

#[test]
fn a_write_is_answered_with_the_text_and_a_later_read_finds_it() {
    let store = ClipboardStore::new();
    assert_eq!(
        handle_message("WRITE:hello world".to_string(), store.share()),
        "SUCCESS:hello world"
    );
    assert_eq!(handle_message("READ:".to_string(), store.share()), "SUCCESS:hello world");
    assert_eq!(handle_message("READ:".to_string(), store.share()), "SUCCESS:hello world");
}

#[test]
fn a_clear_is_answered_with_nothing_and_a_later_read_finds_nothing() {
    let store = ClipboardStore::new();
    handle_message("WRITE:something".to_string(), store.share());
    assert_eq!(handle_message("CLEAR:".to_string(), store.share()), "SUCCESS:");
    assert_eq!(handle_message("READ:".to_string(), store.share()), "SUCCESS:");
}

#[test]
fn an_unknown_message_is_quoted_in_the_error() {
    let store = ClipboardStore::new();
    assert_eq!(
        handle_message("FOO:bar".to_string(), store.share()),
        "ERROR:Unknown message FOO:bar"
    );
    assert_eq!(handle_message(String::new(), store.share()), "ERROR:Unknown message ");
}

#[test]
fn an_unknown_message_leaves_the_clipboard_as_it_was() {
    let store = ClipboardStore::new();
    handle_message("WRITE:kept".to_string(), store.share());
    handle_message("FOO:bar".to_string(), store.share());
    handle_message("write:lower".to_string(), store.share());
    assert_eq!(store.read(), Ok("kept".to_string()));

    let mut clipboard = Clipboard::new();
    clipboard.write("kept".to_string());
    assert_eq!(
        respond("FOO:bar", &mut clipboard),
        Response::Failure("Unknown message FOO:bar".to_string())
    );
    assert_eq!(clipboard.read(), "kept");
}

#[test]
fn a_read_of_a_fresh_store_finds_nothing() {
    assert_eq!(handle_message("READ:".to_string(), ClipboardStore::new()), "SUCCESS:");
}

#[test]
fn a_write_of_nothing_empties_the_clipboard() {
    let store = ClipboardStore::new();
    handle_message("WRITE:x".to_string(), store.share());
    assert_eq!(handle_message("WRITE:".to_string(), store.share()), "SUCCESS:");
    assert_eq!(store.read(), Ok(String::new()));
}

#[test]
fn respond_serves_a_clipboard_of_ones_own() {
    let mut clipboard = Clipboard::new();
    assert_eq!(respond("READ:", &mut clipboard), Response::Success(String::new()));
    assert_eq!(
        respond("WRITE:hello world", &mut clipboard),
        Response::Success("hello world".to_string())
    );
    assert_eq!(respond("READ:", &mut clipboard), Response::Success("hello world".to_string()));
    assert_eq!(respond("CLEAR:", &mut clipboard), Response::Success(String::new()));
    assert_eq!(respond("READ:", &mut clipboard), Response::Success(String::new()));
}

#[test]
fn an_unavailable_store_is_reported_with_its_cause() {
    assert_eq!(
        report(Err(StoreError::StoreUnavailable("poisoned lock".to_string()))),
        Response::Failure("Could not acquire clipboard data. poisoned lock".to_string())
    );
    assert_eq!(report(Ok("value".to_string())), Response::Success("value".to_string()));
}

#[test]
fn a_frame_is_served_on_the_clipboard_that_the_guard_holds() {
    let cell = std::sync::Mutex::new(Clipboard::new());
    let mut guard = cell.lock().unwrap();
    assert_eq!(respond_guarded("READ:", &mut guard), Response::Success(String::new()));
    assert_eq!(
        respond_guarded("WRITE:hello world", &mut guard),
        Response::Success("hello world".to_string())
    );
    assert_eq!(guard.read(), "hello world");
    assert_eq!(
        respond_guarded("FOO:bar", &mut guard),
        Response::Failure("Unknown message FOO:bar".to_string())
    );
    assert_eq!(guard.read(), "hello world");
    assert_eq!(respond_guarded("READ:", &mut guard), Response::Success("hello world".to_string()));
    assert_eq!(respond_guarded("CLEAR:", &mut guard), Response::Success(String::new()));
    assert_eq!(guard.read(), "");
}

#[test]
fn with_the_lock_the_frame_is_served_and_the_lock_let_go() {
    let cell = std::sync::Mutex::new(Clipboard::new());
    let locked = cell.lock().map_err(|poisoned| poisoned.to_string());
    assert_eq!(
        respond_locked("WRITE:kept", locked),
        Response::Success("kept".to_string())
    );
    let guard = cell.try_lock().expect("the lock is free again");
    assert_eq!(guard.read(), "kept");
}

#[test]
fn without_the_lock_the_frame_is_answered_with_the_cause() {
    for frame in ["READ:", "WRITE:lost", "CLEAR:", "FOO:bar"] {
        assert_eq!(
            respond_locked(frame, Err("poisoned lock".to_string())),
            Response::Failure("Could not acquire clipboard data. poisoned lock".to_string())
        );
    }
}
