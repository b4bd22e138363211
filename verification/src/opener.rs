//! The opener command: hands a URL to the operating system's default handler
//! and reports any failure as a non-empty, human-readable message.

use vstd::prelude::*;
use vstd::string::StringExecFns;

verus! {

/// The text reported when the underlying error carried no text of its own.
pub open spec fn blank_failure_text() -> Seq<char> {
    "the default handler failed without detail"@
}

/// The message reported for a raw failure text: the text itself, or the fixed
/// fallback when the text is empty.
pub open spec fn failure_message(raw: Seq<char>) -> Seq<char> {
    if raw.len() == 0 {
        blank_failure_text()
    } else {
        raw
    }
}

/// Turns the raw failure text handed back by the handler into the message the
/// caller sees: the text itself when there is any, the fixed fallback
/// otherwise, so the message is never empty.
fn describe_failure(raw: String) -> (r: String)
    ensures
        r@ == failure_message(raw@),
        r@.len() > 0,
{
    if raw.as_str().is_empty() {
        proof {
            reveal_strlit("the default handler failed without detail");
        }
        String::from_str("the default handler failed without detail")
    } else {
        raw
    }
}

/// Maps the outcome of the hand-off to the response the caller receives:
/// success is passed through with no payload, and a failure keeps its text,
/// made non-empty when the handler reported none.
pub fn outcome_response(outcome: Result<(), String>) -> (r: Result<(), String>)
    ensures
        r is Ok <==> outcome is Ok,
        outcome matches Err(raw) ==> (r matches Err(m) && m@ == failure_message(raw@)),
        r matches Err(m) ==> m@.len() > 0,
{
    match outcome {
        Ok(()) => Ok(()),
        Err(raw) => Err(describe_failure(raw)),
    }
}

/// Relies on open::that from the open crate: asks the operating system's
/// default handler to open the given path or URL. Whether it succeeds is the
/// system's decision; on failure the io error's text is handed back.
#[verifier::external_body]
fn hand_to_default_handler(url: &str) -> (r: Result<(), String>) {
    match open::that(url) {
        Ok(()) => Ok(()),
        Err(err) => Err(err.to_string()),
    }
}

/// Attempts to open `url` with the operating system's default handler.
/// Success carries no payload; a failure carries a non-empty description of
/// the underlying cause, surfaced once, with no retry.
pub fn open_web_url(url: String) -> (r: Result<(), String>)
    ensures
        r matches Err(m) ==> m@.len() > 0,
{
    outcome_response(hand_to_default_handler(url.as_str()))
}

} // verus!
