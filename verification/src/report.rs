//! Error texts as the C interface hands them out.

use vstd::prelude::*;
use vstd::string::*;

verus! {

/// The spec view of an optional owned string.
pub open spec fn opt_text(s: Option<String>) -> Option<Seq<char>> {
    match s {
        Some(t) => Some(t@),
        None => None,
    }
}

/// Whether a text holds a NUL character, which no C string can carry.
pub open spec fn has_nul(s: Seq<char>) -> bool {
    exists|i: int| 0 <= i < s.len() && s[i] == '\0'
}

/// What an error slot holds after storing `msg`: the text itself, or nothing
/// when the text cannot become a C string.
pub open spec fn stored_error(msg: Seq<char>) -> Option<Seq<char>> {
    if has_nul(msg) {
        None
    } else {
        Some(msg)
    }
}

/// Decides whether `s` holds a NUL character.
pub fn contains_nul(s: &str) -> (r: bool)
    ensures
        r == has_nul(s@),
{
    broadcast use vstd::string::group_string_axioms;

    for c in it: s.chars()
        invariant
            it.seq() == s@,
            forall|j: int| 0 <= j < it.index() ==> s@[j] != '\0',
    {
        if c == '\0' {
            return true;
        }
    }
    false
}

/// Joins a fixed lead text and the detail of an underlying failure.
pub fn with_detail(lead: &str, detail: &str) -> (r: String)
    ensures
        r@ == lead@ + detail@,
{
    let s = String::from_str(lead);
    s.concat(detail)
}

/// The payload of a panic, as far as it can be read: a text message (a `&str`
/// or a `String`), or something else.
pub enum PanicPayload {
    Message(String),
    Unknown,
}

/// The text reported for a panic: its message, or `fallback` when it has none.
pub open spec fn panic_text(payload: PanicPayload, fallback: Seq<char>) -> Seq<char> {
    match payload {
        PanicPayload::Message(m) => m@,
        PanicPayload::Unknown => fallback,
    }
}

/// Turns a panic payload into the text to report.
pub fn panic_message(payload: PanicPayload, fallback: &str) -> (r: String)
    ensures
        r@ == panic_text(payload, fallback@),
{
    match payload {
        PanicPayload::Message(m) => m,
        PanicPayload::Unknown => String::from_str(fallback),
    }
}

/// Stores `msg` in an error slot the way a C string is made from it: a text
/// with a NUL character leaves the slot empty.
pub fn store_error(slot: &mut Option<String>, msg: String)
    ensures
        opt_text(*final(slot)) == stored_error(msg@),
{
    if contains_nul(msg.as_str()) {
        *slot = None;
    } else {
        *slot = Some(msg);
    }
}

} // verus!
