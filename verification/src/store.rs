//! The clipboard value and the store that shares it between connections.
//!
//! [`Clipboard`] is the value with its three operations, for one owner.
//! [`ClipboardStore`] holds one `Clipboard` behind a mutex and hands out
//! handles to it; each of its operations takes the lock, applies the
//! operation of the same name, and lets the lock go.
//!
//! What a handle's operation finds in the clipboard is up to the handles
//! that were served before it, and no contract of a handle can say it. What
//! is done once the lock is held is stated where the guard is at hand, in
//! [`ClipboardStore::apply_guarded`] and [`ClipboardStore::apply_locked`].

use vstd::prelude::*;
use vstd::string::*;
use std::sync::Arc;
use std::sync::Mutex;
use std::sync::MutexGuard;
use crate::codec::Command;
use crate::codec::CommandView;

verus! {

/// The value that the clipboard holds once `command` has been applied to a
/// clipboard holding `value`. It is also the text that the operation
/// returns.
pub open spec fn value_after(command: CommandView, value: Seq<char>) -> Seq<char> {
    match command {
        CommandView::Read => value,
        CommandView::Write(text) => text,
        CommandView::Clear => Seq::<char>::empty(),
    }
}

/// The clipboard's text.
pub struct Clipboard {
    text: String,
}

impl View for Clipboard {
    type V = Seq<char>;

    closed spec fn view(&self) -> Seq<char> {
        self.text@
    }
}

impl Clipboard {
    /// An empty clipboard.
    pub fn new() -> (clipboard: Clipboard)
        ensures
            clipboard@ == Seq::<char>::empty(),
    {
        Clipboard { text: String::new() }
    }

    /// A copy of the current value.
    pub fn read(&self) -> (text: String)
        ensures
            text@ == self@,
            text@ == value_after(CommandView::Read, self@),
    {
        self.text.clone()
    }

    /// Replaces the value with `text` and returns it.
    pub fn write(&mut self, text: String) -> (written: String)
        ensures
            final(self)@ == text@,
            written@ == text@,
            final(self)@ == value_after(CommandView::Write(text@), old(self)@),
    {
        self.text = text.clone();
        text
    }

    /// Replaces the value with the empty text and returns it.
    pub fn clear(&mut self) -> (cleared: String)
        ensures
            final(self)@ == Seq::<char>::empty(),
            cleared@ == Seq::<char>::empty(),
            final(self)@ == value_after(CommandView::Clear, old(self)@),
    {
        self.text = String::new();
        String::new()
    }

    /// Applies a request: `Read` reads, `Write` writes, `Clear` clears.
    /// Returns the value that the clipboard holds afterwards.
    pub fn apply(&mut self, command: Command) -> (text: String)
        ensures
            final(self)@ == value_after(command@, old(self)@),
            text@ == final(self)@,
    {
        match command {
            Command::Read => self.read(),
            Command::Write(text) => self.write(text),
            Command::Clear => self.clear(),
        }
    }
}

/// Why the store could not serve an operation.
#[derive(Debug, Clone, PartialEq, Eq)]
pub enum StoreError {
    /// The lock could not be taken; the text says why.
    StoreUnavailable(String),
}

/// `std::sync::Mutex`, of which Verus sees only the name.
#[verifier::external_type_specification]
#[verifier::external_body]
#[verifier::reject_recursive_types(T)]
pub struct ExMutex<T: ?Sized>(Mutex<T>);

/// `std::sync::MutexGuard`, of which Verus sees only the name.
#[verifier::external_type_specification]
#[verifier::external_body]
#[verifier::reject_recursive_types(T)]
pub struct ExMutexGuard<'a, T: ?Sized + 'a>(MutexGuard<'a, T>);

/// What a mutex was made to hold: the value of the clipboard that it was
/// made with.
pub uninterp spec fn made_with(cell: Mutex<Clipboard>) -> Seq<char>;

/// What the guard of a locked mutex holds: the value of the clipboard that
/// it gives access to.
pub uninterp spec fn held(guard: MutexGuard<'_, Clipboard>) -> Seq<char>;

/// A mutex that holds `clipboard`.
///
/// Trusted: this is `Mutex::new`. The contract says that the mutex is made
/// with the clipboard that is handed in.
#[verifier::external_body]
fn new_cell(clipboard: Clipboard) -> (cell: Mutex<Clipboard>)
    ensures
        made_with(cell) == clipboard@,
{
    Mutex::new(clipboard)
}

/// Takes the lock, waiting for it if another thread holds it.
///
/// Trusted: this is `Mutex::lock`. Nothing is claimed of the result: whether
/// the lock is poisoned, and what the clipboard behind it holds, depends on
/// the other threads. A poisoned lock comes back as the text of std's
/// `PoisonError`. `lock` may panic or block for good when the calling thread
/// already holds the lock; no public function of this library hands out a
/// guard that it took, so no caller can be in that position.
#[verifier::external_body]
fn lock_cell<'a>(cell: &'a Mutex<Clipboard>) -> (locked: Result<
    MutexGuard<'a, Clipboard>,
    String,
>) {
    match cell.lock() {
        Ok(guard) => Ok(guard),
        Err(poisoned) => Err(format!("{}", poisoned)),
    }
}

/// The clipboard that a guard gives access to.
///
/// Trusted: this is `DerefMut::deref_mut` of `MutexGuard`. The contract says
/// that the reference is to the clipboard that the guard holds: it shows what
/// the guard held, and what it is left with is what the guard holds
/// afterwards.
#[verifier::external_body]
pub(crate) fn guarded<'a, 'g>(guard: &'a mut MutexGuard<'g, Clipboard>) -> (clipboard: &'a mut Clipboard)
    ensures
        clipboard@ == held(*old(guard)),
        held(*final(guard)) == final(clipboard)@,
{
    std::ops::DerefMut::deref_mut(guard)
}

/// A handle on the one clipboard that all connections share.
///
/// Every operation holds the lock from before it looks at the value until
/// after it has changed it, so two operations never overlap: each sees the
/// value that some earlier operation left complete.
pub struct ClipboardStore {
    cell: Arc<Mutex<Clipboard>>,
}

/// What the store makes of an operation once it has asked for the lock:
/// with the guard, the value that the clipboard holds after the operation;
/// without it, the cause for which the store is unavailable.
pub open spec fn outcome_of(locked: Result<MutexGuard<'_, Clipboard>, String>, command: CommandView) -> Result<
    Seq<char>,
    Seq<char>,
> {
    match locked {
        Ok(guard) => Ok(value_after(command, held(guard))),
        Err(cause) => Err(cause@),
    }
}

/// The value of what the store made of an operation: the text returned, or
/// the cause for which the store was unavailable.
pub open spec fn outcome_view(outcome: Result<String, StoreError>) -> Result<Seq<char>, Seq<char>> {
    match outcome {
        Ok(text) => Ok(text@),
        Err(StoreError::StoreUnavailable(cause)) => Err(cause@),
    }
}

impl ClipboardStore {
    /// The value that the store's clipboard was made with.
    pub closed spec fn initial_value(&self) -> Seq<char> {
        made_with(*self.cell)
    }

    /// A store whose clipboard is empty.
    pub fn new() -> (store: ClipboardStore)
        ensures
            store.initial_value() == Seq::<char>::empty(),
    {
        ClipboardStore { cell: Arc::new(new_cell(Clipboard::new())) }
    }

    /// Takes the store's lock, for the functions of this library that serve
    /// under it. The guard, or the cause for which the lock could not be had.
    pub(crate) fn lock(&self) -> (locked: Result<MutexGuard<'_, Clipboard>, String>) {
        lock_cell(&*self.cell)
    }

    /// Another handle on the same clipboard.
    pub fn share(&self) -> (store: ClipboardStore)
        ensures
            store == *self,
    {
        ClipboardStore { cell: self.cell.clone() }
    }

    /// A copy of the current value, or `StoreUnavailable`.
    pub fn read(&self) -> (outcome: Result<String, StoreError>) {
        self.apply(Command::Read)
    }

    /// Replaces the value with `text`. Returns `text`, or `StoreUnavailable`
    /// where the lock could not be taken; the value is then as it was.
    pub fn write(&self, text: String) -> (outcome: Result<String, StoreError>)
        ensures
            outcome matches Ok(written) ==> written@ == text@,
    {
        self.apply(Command::Write(text))
    }

    /// Replaces the value with the empty text. Returns the empty text, or
    /// `StoreUnavailable` where the lock could not be taken.
    pub fn clear(&self) -> (outcome: Result<String, StoreError>)
        ensures
            outcome matches Ok(cleared) ==> cleared@ == Seq::<char>::empty(),
    {
        self.apply(Command::Clear)
    }

    /// Applies a request to the shared clipboard under the lock. Returns the
    /// value that the clipboard held when the lock was let go, or
    /// `StoreUnavailable` where the lock could not be taken.
    pub fn apply(&self, command: Command) -> (outcome: Result<String, StoreError>)
        ensures
            outcome matches Ok(text) ==> exists|value: Seq<char>|
                text@ == #[trigger] value_after(command@, value),
    {
        let locked = self.lock();
        let ghost taken = locked;
        let outcome = ClipboardStore::apply_locked(locked, command);
        proof {
            if let Ok(guard) = taken {
                assert(outcome->Ok_0@ == value_after(command@, held(guard)));
            }
        }
        outcome
    }

    /// Does under the lock what [`ClipboardStore::apply`] does once it has
    /// asked for it. With the guard, the request is applied to the clipboard
    /// that the guard holds and the value that it then holds is returned;
    /// the lock is let go with the guard. Without it, the store is
    /// unavailable for the cause given.
    pub fn apply_locked(
        locked: Result<MutexGuard<'_, Clipboard>, String>,
        command: Command,
    ) -> (outcome: Result<String, StoreError>)
        ensures
            outcome_view(outcome) == outcome_of(locked, command@),
    {
        match locked {
            Ok(mut guard) => Ok(ClipboardStore::apply_guarded(&mut guard, command)),
            Err(cause) => Err(StoreError::StoreUnavailable(cause)),
        }
    }

    /// Applies a request to the clipboard that a guard holds, and returns
    /// the value that the guard holds afterwards.
    pub fn apply_guarded(guard: &mut MutexGuard<'_, Clipboard>, command: Command) -> (text: String)
        ensures
            held(*final(guard)) == value_after(command@, held(*old(guard))),
            text@ == held(*final(guard)),
    {
        let clipboard = guarded(guard);
        clipboard.apply(command)
    }
}

/// Writing and then reading gives back what was written.
pub proof fn lemma_write_then_read(value: Seq<char>, text: Seq<char>)
    ensures
        value_after(CommandView::Read, value_after(CommandView::Write(text), value)) == text,
{
}

/// Clearing and then reading gives the empty text, whatever the clipboard
/// held before.
pub proof fn lemma_clear_then_read(value: Seq<char>)
    ensures
        value_after(CommandView::Read, value_after(CommandView::Clear, value)) == Seq::<
            char,
        >::empty(),
{
}

/// Two writes, applied one after the other in either order, leave one of
/// the two texts: the one that was written last.
pub proof fn lemma_two_writes_leave_one_of_them(
    value: Seq<char>,
    first: Seq<char>,
    second: Seq<char>,
)
    ensures
        value_after(CommandView::Write(second), value_after(CommandView::Write(first), value))
            == second,
        value_after(CommandView::Write(first), value_after(CommandView::Write(second), value))
            == first,
{
}

} // verus!
