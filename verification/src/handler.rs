//! Serving a request: from the text of a frame to the text of the reply.
//!
//! The request is decoded first. An unknown request is answered without a
//! look at the clipboard; a known one is routed to the operation of the same
//! name, and the value that the clipboard then holds is the reply's payload.
//!
//! [`respond`] serves a frame on a clipboard that the caller owns.
//! [`handle_message`] serves it on the shared one: it takes the lock and
//! serves the frame under it, through [`respond_locked`] and
//! [`respond_guarded`], which call `respond` on the clipboard that the guard
//! holds.

use vstd::prelude::*;
use vstd::string::*;
use std::sync::MutexGuard;
use crate::codec::parse_request;
use crate::codec::render_response;
use crate::codec::request_of_text;
use crate::codec::text_of_response;
use crate::codec::Response;
use crate::codec::ResponseView;
use crate::store::guarded;
use crate::store::held;
use crate::store::value_after;
use crate::store::Clipboard;
use crate::store::ClipboardStore;
use crate::store::StoreError;
use crate::text::join;

verus! {

/// The message of the failure that answers a frame which is no request.
pub open spec fn unknown_message(data: Seq<char>) -> Seq<char> {
    "Unknown message "@ + data
}

/// The message of the failure that answers a request which the store could
/// not serve.
pub open spec fn unavailable_message(cause: Seq<char>) -> Seq<char> {
    "Could not acquire clipboard data. "@ + cause
}

/// The response to the frame `data` from a clipboard that holds `value`.
pub open spec fn response_to(data: Seq<char>, value: Seq<char>) -> ResponseView {
    match request_of_text(data) {
        Ok(command) => ResponseView::Success(value_after(command, value)),
        Err(_) => ResponseView::Failure(unknown_message(data)),
    }
}

/// The value that a clipboard holding `value` holds once the frame `data`
/// has been served. A frame that is no request leaves it as it was.
pub open spec fn value_after_frame(data: Seq<char>, value: Seq<char>) -> Seq<char> {
    match request_of_text(data) {
        Ok(command) => value_after(command, value),
        Err(_) => value,
    }
}

/// The response that reports what the store made of a request.
pub open spec fn response_of_outcome(outcome: Result<String, StoreError>) -> ResponseView {
    match outcome {
        Ok(text) => ResponseView::Success(text@),
        Err(StoreError::StoreUnavailable(cause)) => ResponseView::Failure(
            unavailable_message(cause@),
        ),
    }
}

/// Serves the frame `data` on a clipboard that the caller owns.
pub fn respond(data: &str, clipboard: &mut Clipboard) -> (response: Response)
    ensures
        response@ == response_to(data@, old(clipboard)@),
        final(clipboard)@ == value_after_frame(data@, old(clipboard)@),
{
    match parse_request(data) {
        Ok(command) => Response::Success(clipboard.apply(command)),
        Err(_) => Response::Failure(join("Unknown message ", data)),
    }
}

/// Turns what the store made of a request into the response: the text it
/// returned is a success, `StoreUnavailable` a failure that gives the cause.
pub fn report(outcome: Result<String, StoreError>) -> (response: Response)
    ensures
        response@ == response_of_outcome(outcome),
{
    match outcome {
        Ok(text) => Response::Success(text),
        Err(StoreError::StoreUnavailable(cause)) => Response::Failure(
            join("Could not acquire clipboard data. ", cause.as_str()),
        ),
    }
}

/// Whether `reply` is the text of a frame that may answer the frame `data`
/// from the shared clipboard.
///
/// For a frame that is no request there is one answer, the failure that
/// quotes it. For a request it is the success that the request earns from
/// some value of the clipboard, or the failure that reports the store as
/// unavailable for some cause: which value the clipboard holds when the
/// request is served is up to the connections that were served before.
pub open spec fn is_reply_to(data: Seq<char>, reply: Seq<char>) -> bool {
    if request_of_text(data) is Err {
        reply == text_of_response(ResponseView::Failure(unknown_message(data)))
    } else {
        ||| exists|value: Seq<char>|
            reply == text_of_response(#[trigger] response_to(data, value))
        ||| exists|cause: Seq<char>|
            reply == text_of_response(
                ResponseView::Failure(#[trigger] unavailable_message(cause)),
            )
    }
}

/// Serves the frame `data` on the clipboard that a guard holds: the response
/// is the one that the frame earns from what the guard held, and the guard
/// holds afterwards what the frame leaves.
pub fn respond_guarded(data: &str, guard: &mut MutexGuard<'_, Clipboard>) -> (response: Response)
    ensures
        response@ == response_to(data@, held(*old(guard))),
        held(*final(guard)) == value_after_frame(data@, held(*old(guard))),
{
    respond(data, guarded(guard))
}

/// The response to the frame `data` once the lock has been asked for: with
/// the guard, the response that the frame earns from what the guard holds;
/// without it, the failure that reports the store as unavailable.
pub open spec fn response_under(
    data: Seq<char>,
    locked: Result<MutexGuard<'_, Clipboard>, String>,
) -> ResponseView {
    match locked {
        Ok(guard) => response_to(data, held(guard)),
        Err(cause) => ResponseView::Failure(unavailable_message(cause@)),
    }
}

/// Serves the frame `data` with what asking for the lock gave. With the
/// guard, the frame is served on the clipboard that it holds, and the lock
/// is let go with the guard; without it, the store is reported as
/// unavailable for the cause given.
pub fn respond_locked(data: &str, locked: Result<MutexGuard<'_, Clipboard>, String>) -> (response:
    Response)
    ensures
        response@ == response_under(data@, locked),
{
    match locked {
        Ok(mut guard) => respond_guarded(data, &mut guard),
        Err(cause) => report(Err(StoreError::StoreUnavailable(cause))),
    }
}

/// Serves the frame `data` on the shared clipboard and returns the text of
/// the reply's frame.
///
/// A frame that is no request is answered with
/// `ERROR:Unknown message <data>`, and the store is not asked. For a request
/// the lock is taken and the frame served under it: the reply is `SUCCESS:`
/// and the value that the clipboard holds once the request is applied, or
/// `ERROR:Could not acquire clipboard data. ` and the cause where the lock
/// could not be had.
pub fn handle_message(data: String, clipboard: ClipboardStore) -> (reply: String)
    ensures
        is_reply_to(data@, reply@),
{
    let response = match parse_request(data.as_str()) {
        Ok(_) => {
            let locked = clipboard.lock();
            let ghost taken = locked;
            let response = respond_locked(data.as_str(), locked);
            proof {
                match taken {
                    Ok(guard) => {
                        assert(response@ == response_to(data@, held(guard)));
                    },
                    Err(cause) => {
                        assert(response@ == ResponseView::Failure(unavailable_message(cause@)));
                    },
                }
            }
            response
        },
        Err(_) => Response::Failure(join("Unknown message ", data.as_str())),
    };
    render_response(&response)
}

/// The reply to a write or a clear does not depend on what the clipboard
/// held: it is the success with the text written, or with the empty text,
/// unless the store was unavailable.
pub proof fn lemma_reply_to_write_and_clear(data: Seq<char>, reply: Seq<char>)
    requires
        is_reply_to(data, reply),
        request_of_text(data) matches Ok(command) && !(command is Read),
    ensures
        reply == text_of_response(response_to(data, Seq::<char>::empty()))
            || exists|cause: Seq<char>|
            reply == text_of_response(
                ResponseView::Failure(#[trigger] unavailable_message(cause)),
            ),
{
}

/// A frame that is no request leaves the clipboard as it was, and the reply
/// is a failure that quotes the frame.
pub proof fn lemma_unknown_frame_leaves_value(data: Seq<char>, value: Seq<char>)
    requires
        request_of_text(data) is Err,
    ensures
        value_after_frame(data, value) == value,
        response_to(data, value) == ResponseView::Failure(unknown_message(data)),
{
}

} // verus!
