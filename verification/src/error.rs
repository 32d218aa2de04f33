//! The error taxonomy of the server.
//!
//! Every failure that concerns a single request is turned into an error
//! response and the session goes on; `Eof` is not a failure but the signal
//! that a stream (the input, or a cursor's rows) has ended.

use vstd::prelude::*;

verus! {

/// One error kind per failure class of the protocol.
#[derive(Debug, PartialEq)]
pub enum Error {
    /// The engine rejected a statement or a binding; carries its diagnostic text.
    Db(String),
    /// The incoming line was not valid JSON; carries the parser's diagnostic text.
    Json(String),
    /// End of a stream: no more input lines, or no more rows in a cursor.
    Eof,
    /// The request named a method this server does not know.
    UnknownMethod(String),
    /// A value or column kind outside the supported scalar set.
    UnsupportedType,
    /// The request named a cursor handle that is not open.
    NotFound,
    /// A malformed request: a missing or mistyped field, named by the message.
    General(&'static str),
}

/// What an unknown-method error reports: the fixed prefix, then the method tag.
pub open spec fn unknown_method_msg(meth: Seq<char>) -> Seq<char> {
    "unknown method: "@ + meth
}

/// The message of an unsupported-type error.
pub open spec fn unsupported_type_msg() -> Seq<char> {
    "unsupported type"@
}

/// The message of a not-found error.
pub open spec fn not_found_msg() -> Seq<char> {
    "handle not found"@
}

/// The message of an end-of-rows error.
pub open spec fn eof_msg() -> Seq<char> {
    "eof"@
}

/// The message that an error response carries for each error kind.
pub open spec fn message_of(e: Error) -> Seq<char> {
    match e {
        Error::Db(s) => s@,
        Error::Json(s) => s@,
        Error::Eof => eof_msg(),
        Error::UnknownMethod(m) => unknown_method_msg(m@),
        Error::UnsupportedType => unsupported_type_msg(),
        Error::NotFound => not_found_msg(),
        Error::General(s) => s@,
    }
}

impl Error {
    /// The stable, human-readable message reported to the client.
    pub fn message(&self) -> (r: String)
        ensures
            r@ == message_of(*self),
    {
        match self {
            Error::Db(s) => s.clone(),
            Error::Json(s) => s.clone(),
            Error::Eof => String::from_str("eof"),
            Error::UnknownMethod(m) => {
                let mut s = String::from_str("unknown method: ");
                s.append(m.as_str());
                s
            },
            Error::UnsupportedType => String::from_str("unsupported type"),
            Error::NotFound => String::from_str("handle not found"),
            Error::General(s) => String::from_str(s),
        }
    }
}

/// Shorthand for failing with a malformed-request message.
pub fn err<T>(msg: &'static str) -> (r: Result<T, Error>)
    ensures
        r matches Err(e) && e == Error::General(msg),
{
    Err(Error::General(msg))
}

} // verus!
