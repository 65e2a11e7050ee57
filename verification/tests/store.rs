use rclip::codec::Command;
use rclip::store::Clipboard;
use rclip::store::ClipboardStore;
use rclip::store::StoreError;

#[test]
fn a_new_clipboard_is_empty() {
    assert_eq!(Clipboard::new().read(), "");
    assert_eq!(ClipboardStore::new().read(), Ok(String::new()));
}

#[test]
fn write_then_read_returns_what_was_written() {
    let mut clipboard = Clipboard::new();
    for text in ["hello world", "", "READ:", "two\nlines", "\u{4e16}\u{754c}"] {
        assert_eq!(clipboard.write(text.to_string()), text);
        assert_eq!(clipboard.read(), text);
        assert_eq!(clipboard.read(), text);
    }
}

#[test]
fn clear_then_read_returns_nothing() {
    let mut clipboard = Clipboard::new();
    assert_eq!(clipboard.clear(), "");
    assert_eq!(clipboard.read(), "");
    clipboard.write("something".to_string());
    assert_eq!(clipboard.clear(), "");
    assert_eq!(clipboard.read(), "");
}

#[test]
fn apply_routes_each_request_to_its_operation() {
    let mut clipboard = Clipboard::new();
    assert_eq!(clipboard.apply(Command::Read), "");
    assert_eq!(clipboard.apply(Command::Write("a".to_string())), "a");
    assert_eq!(clipboard.apply(Command::Read), "a");
    assert_eq!(clipboard.apply(Command::Clear), "");
    assert_eq!(clipboard.apply(Command::Read), "");
}

#[test]
fn the_last_of_two_writes_stays() {
    let mut clipboard = Clipboard::new();
    clipboard.write("A".to_string());
    clipboard.write("B".to_string());
    assert_eq!(clipboard.read(), "B");
    clipboard.write("B".to_string());
    clipboard.write("A".to_string());
    assert_eq!(clipboard.read(), "A");
}

#[test]
fn the_store_writes_reads_and_clears() {
    let store = ClipboardStore::new();
    assert_eq!(store.write("hello world".to_string()), Ok("hello world".to_string()));
    assert_eq!(store.read(), Ok("hello world".to_string()));
    assert_eq!(store.clear(), Ok(String::new()));
    assert_eq!(store.read(), Ok(String::new()));
    assert_eq!(store.apply(Command::Write("x".to_string())), Ok("x".to_string()));
    assert_eq!(store.apply(Command::Read), Ok("x".to_string()));
    assert_eq!(store.apply(Command::Clear), Ok(String::new()));
}

#[test]
fn handles_share_one_clipboard() {
    let store = ClipboardStore::new();
    let other = store.share();
    assert_eq!(store.write("from one".to_string()), Ok("from one".to_string()));
    assert_eq!(other.read(), Ok("from one".to_string()));
    assert_eq!(other.clear(), Ok(String::new()));
    assert_eq!(store.read(), Ok(String::new()));
    drop(store);
    assert_eq!(other.write("still here".to_string()), Ok("still here".to_string()));
    assert_eq!(other.share().read(), Ok("still here".to_string()));
}

#[test]
fn two_stores_do_not_share() {
    let one = ClipboardStore::new();
    let two = ClipboardStore::new();
    assert_eq!(one.write("one".to_string()), Ok("one".to_string()));
    assert_eq!(two.read(), Ok(String::new()));
}

#[test]
fn a_request_is_applied_to_the_clipboard_that_the_guard_holds() {
    let cell = std::sync::Mutex::new(Clipboard::new());
    let mut guard = cell.lock().unwrap();
    assert_eq!(ClipboardStore::apply_guarded(&mut guard, Command::Read), "");
    assert_eq!(
        ClipboardStore::apply_guarded(&mut guard, Command::Write("held".to_string())),
        "held"
    );
    assert_eq!(guard.read(), "held");
    assert_eq!(ClipboardStore::apply_guarded(&mut guard, Command::Read), "held");
    assert_eq!(ClipboardStore::apply_guarded(&mut guard, Command::Clear), "");
    assert_eq!(guard.read(), "");
}

#[test]
fn with_the_lock_the_request_is_applied_and_the_lock_let_go() {
    let cell = std::sync::Mutex::new(Clipboard::new());
    let locked = cell.lock().map_err(|poisoned| poisoned.to_string());
    assert_eq!(
        ClipboardStore::apply_locked(locked, Command::Write("kept".to_string())),
        Ok("kept".to_string())
    );
    let guard = cell.try_lock().expect("the lock is free again");
    assert_eq!(guard.read(), "kept");
    drop(guard);
    let locked = cell.lock().map_err(|poisoned| poisoned.to_string());
    assert_eq!(ClipboardStore::apply_locked(locked, Command::Read), Ok("kept".to_string()));
}

#[test]
fn without_the_lock_the_store_is_unavailable_for_the_cause_given() {
    for command in [Command::Read, Command::Write("lost".to_string()), Command::Clear] {
        assert_eq!(
            ClipboardStore::apply_locked(Err("poisoned lock".to_string()), command),
            Err(StoreError::StoreUnavailable("poisoned lock".to_string()))
        );
    }
}
