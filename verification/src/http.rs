//! The answers of the HTTP front end.
//!
//! The front end turns a request into a message for the worker, waits for the
//! outcome, and answers with a status and a body. Sending and waiting are
//! left to the server; this module decides the answer from the outcome.

use vstd::prelude::*;

verus! {

/// The status of an answer to a request that was carried out.
pub const OK: u16 = 200;

/// The status of an answer to a request for a route that does not exist.
pub const NOT_FOUND: u16 = 404;

/// The status of an answer when the store could not be reached.
pub const INTERNAL_SERVER_ERROR: u16 = 500;

/// The status and the body of an HTTP response.
#[derive(Debug, PartialEq, Eq)]
pub struct Reply {
    pub status: u16,
    pub body: String,
}

/// The worker could not be reached, so the request was not carried out.
#[derive(Debug, PartialEq, Eq)]
pub struct Unavailable {
    /// Why, in the words of whatever delivers the messages.
    pub reason: String,
}

/// `reply` has the given status and body.
pub open spec fn answers(reply: Reply, status: u16, body: Seq<char>) -> bool {
    reply.status == status && reply.body@ == body
}

/// One entry as a line of a listing: the key and the value, each between
/// single quotes, with a colon and a space between them.
pub open spec fn render_entry(key: Seq<char>, value: Seq<char>) -> Seq<char> {
    "'"@ + key + "': '"@ + value + "'\r\n"@
}

/// The lines of the entries, one after the other.
pub open spec fn render(entries: Seq<(Seq<char>, Seq<char>)>) -> Seq<char>
    decreases entries.len(),
{
    if entries.len() == 0 {
        Seq::empty()
    } else {
        render(entries.drop_last()) + render_entry(entries.last().0, entries.last().1)
    }
}

/// The answer when the store could not be reached: the reason, as a server
/// error.
pub fn unavailable(cause: Unavailable) -> (reply: Reply)
    ensures
        answers(reply, INTERNAL_SERVER_ERROR, cause.reason@),
{
    Reply { status: INTERNAL_SERVER_ERROR, body: cause.reason }
}

/// The answer to a lookup: the value, or `nil` where the key has none.
pub fn get(outcome: Result<Option<String>, Unavailable>) -> (reply: Reply)
    ensures
        match outcome {
            Ok(Some(value)) => answers(reply, OK, value@),
            Ok(None) => answers(reply, OK, "nil"@),
            Err(cause) => answers(reply, INTERNAL_SERVER_ERROR, cause.reason@),
        },
{
    match outcome {
        Ok(Some(value)) => Reply { status: OK, body: value },
        Ok(None) => Reply { status: OK, body: String::from_str("nil") },
        Err(cause) => unavailable(cause),
    }
}

/// The answer to storing a value: an empty body.
pub fn set(outcome: Result<(), Unavailable>) -> (reply: Reply)
    ensures
        match outcome {
            Ok(_) => answers(reply, OK, Seq::empty()),
            Err(cause) => answers(reply, INTERNAL_SERVER_ERROR, cause.reason@),
        },
{
    match outcome {
        Ok(_) => Reply { status: OK, body: String::new() },
        Err(cause) => unavailable(cause),
    }
}

/// The answer to removing a key: an empty body.
pub fn delete(outcome: Result<(), Unavailable>) -> (reply: Reply)
    ensures
        match outcome {
            Ok(_) => answers(reply, OK, Seq::empty()),
            Err(cause) => answers(reply, INTERNAL_SERVER_ERROR, cause.reason@),
        },
{
    match outcome {
        Ok(_) => Reply { status: OK, body: String::new() },
        Err(cause) => unavailable(cause),
    }
}

/// The answer to asking whether a key is stored: `true` or `false`.
pub fn has(outcome: Result<bool, Unavailable>) -> (reply: Reply)
    ensures
        match outcome {
            Ok(present) => answers(reply, OK, if present { "true"@ } else { "false"@ }),
            Err(cause) => answers(reply, INTERNAL_SERVER_ERROR, cause.reason@),
        },
{
    match outcome {
        Ok(true) => Reply { status: OK, body: String::from_str("true") },
        Ok(false) => Reply { status: OK, body: String::from_str("false") },
        Err(cause) => unavailable(cause),
    }
}

/// The listing of the entries, in the order given.
pub fn render_listing(entries: &Vec<(String, String)>) -> (text: String)
    ensures
        text@ == render(entries.deep_view()),
{
    let mut text = String::new();
    let mut i: usize = 0;
    while i < entries.len()
        invariant
            i <= entries.len(),
            text@ == render(entries.deep_view().take(i as int)),
        decreases entries.len() - i,
    {
        let ghost before = entries.deep_view().take(i as int);
        let ghost after = entries.deep_view().take(i + 1);
        text.append("'");
        text.append(entries[i].0.as_str());
        text.append("': '");
        text.append(entries[i].1.as_str());
        text.append("'\r\n");
        proof {
            assert(after.drop_last() =~= before);
            assert(after.last() == entries.deep_view()[i as int]);
        }
        i += 1;
    }
    assert(entries.deep_view().take(i as int) =~= entries.deep_view());
    text
}

/// The answer to asking for every entry: the listing.
pub fn list(outcome: Result<Vec<(String, String)>, Unavailable>) -> (reply: Reply)
    ensures
        match outcome {
            Ok(entries) => answers(reply, OK, render(entries.deep_view())),
            Err(cause) => answers(reply, INTERNAL_SERVER_ERROR, cause.reason@),
        },
{
    match outcome {
        Ok(entries) => Reply { status: OK, body: render_listing(&entries) },
        Err(cause) => unavailable(cause),
    }
}

/// The answer to a ping.
pub fn ping() -> (reply: Reply)
    ensures
        answers(reply, OK, "pong"@),
{
    Reply { status: OK, body: String::from_str("pong") }
}

/// The answer to a request for a route that does not exist: an empty body.
pub fn not_found() -> (reply: Reply)
    ensures
        answers(reply, NOT_FOUND, Seq::empty()),
{
    Reply { status: NOT_FOUND, body: String::new() }
}

} // verus!
