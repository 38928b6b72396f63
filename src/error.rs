//! Errors of this core and their classification into a reply code and message.
use vstd::prelude::*;
use vstd::string::StringExecFns;

verus! {

/// Reply code of a request that succeeded, possibly as a no-op.
pub const OK_CODE: u16 = 0;

/// Reply code of every domain error.
pub const ERROR_CODE: u16 = 1;

/// The message that accompanies a successful reply.
pub open spec fn ok_text() -> Seq<char> {
    seq!['O', 'k']
}

/// A failure of a request, with the descriptive text of its cause.
pub enum StratisError {
    /// A failure described by its message alone.
    Msg(String),
    /// A failure with a context message, caused by an inner failure.
    Chained(String, Box<StratisError>),
    /// Structured data could not be read or written.
    Serde(String),
    /// A text was not a well-formed UUID.
    Uuid(String),
}

pub open spec fn serde_prefix() -> Seq<char> {
    seq!['J', 'S', 'O', 'N', ' ', 'e', 'r', 'r', 'o', 'r', ':', ' ']
}

pub open spec fn uuid_prefix() -> Seq<char> {
    seq!['U', 'U', 'I', 'D', ' ', 'e', 'r', 'r', 'o', 'r', ':', ' ']
}

pub open spec fn cause_separator() -> Seq<char> {
    seq![';', ' ', 'c', 'a', 'u', 's', 'e', 'd', ' ', 'b', 'y', ':', ' ']
}

/// The full text of an error: its own message followed by its cause chain.
pub open spec fn error_text(e: StratisError) -> Seq<char>
    decreases e,
{
    match e {
        StratisError::Msg(m) => m@,
        StratisError::Chained(m, cause) => m@ + cause_separator() + error_text(*cause),
        StratisError::Serde(m) => serde_prefix() + m@,
        StratisError::Uuid(m) => uuid_prefix() + m@,
    }
}

/// The reply to a request: a payload, a code that is zero on success, and a
/// message.
pub struct Reply<T> {
    pub payload: T,
    pub code: u16,
    pub message: String,
}

/// A successful reply carrying `payload`.
pub open spec fn is_ok_reply<T>(r: Reply<T>, payload: T) -> bool {
    r.code == OK_CODE && r.message@ == ok_text() && r.payload == payload
}

/// A failed reply for `e`, carrying the default `payload`.
pub open spec fn is_error_reply<T>(r: Reply<T>, e: StratisError, payload: T) -> bool {
    r.code == ERROR_CODE && r.message@ == error_text(e) && r.payload == payload
}

pub fn ok_message() -> (r: String)
    ensures
        r@ == ok_text(),
{
    proof {
        reveal_strlit("Ok");
    }
    String::from_str("Ok")
}

fn render(e: &StratisError) -> (r: String)
    ensures
        r@ == error_text(*e),
    decreases e,
{
    proof {
        reveal_strlit("JSON error: ");
        reveal_strlit("UUID error: ");
        reveal_strlit("; caused by: ");
    }
    match e {
        StratisError::Msg(m) => m.clone(),
        StratisError::Chained(m, cause) => {
            let mut s = m.clone();
            s.append("; caused by: ");
            let c = render(cause);
            s.append(c.as_str());
            s
        },
        StratisError::Serde(m) => {
            let s = String::from_str("JSON error: ");
            s.concat(m.as_str())
        },
        StratisError::Uuid(m) => {
            let s = String::from_str("UUID error: ");
            s.concat(m.as_str())
        },
    }
}

/// Classifies an error: a non-zero code and the error's full text, cause
/// chain included.
pub fn classify(e: &StratisError) -> (r: (u16, String))
    ensures
        r.0 == ERROR_CODE,
        r.0 != OK_CODE,
        r.1@ == error_text(*e),
{
    (ERROR_CODE, render(e))
}

/// A successful reply.
pub fn ok_reply<T>(payload: T) -> (r: Reply<T>)
    ensures
        is_ok_reply(r, payload),
{
    Reply { payload, code: OK_CODE, message: ok_message() }
}

/// A failed reply for `e` with the given default payload.
pub fn error_reply<T>(e: &StratisError, payload: T) -> (r: Reply<T>)
    ensures
        is_error_reply(r, *e, payload),
{
    let (code, message) = classify(e);
    Reply { payload, code, message }
}

} // verus!
