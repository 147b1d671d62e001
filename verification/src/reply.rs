//! What the two remote services answer, and what the client makes of it.
//!
//! A command hands the answer of its call to a function here, as the value
//! that was read or as the text of what went wrong, and returns what that
//! function gives.

use vstd::prelude::*;
use crate::text::prefixed;

verus! {

/// The answer of the workflow service: a status code, the data that was asked
/// for, and a message where something is to be said.
#[derive(Debug)]
pub struct PoprakoEnvelope<T> {
    pub code: u16,
    pub data: Option<T>,
    pub message: Option<String>,
}

/// `r` is `expected`, with the message of an error taken as text.
pub open spec fn same_result<T>(r: Result<T, String>, expected: Result<T, Seq<char>>) -> bool {
    match expected {
        Ok(value) => r == Ok::<T, String>(value),
        Err(text) => r matches Err(m) && m@ == text,
    }
}

/// The message of a refusal: the service's own, or `fallback` where it sent
/// none.
pub open spec fn refusal_text(message: Option<String>, fallback: Seq<char>) -> Seq<char> {
    match message {
        Some(m) => m@,
        None => fallback,
    }
}

/// What a call that failed before any answer came reports: `context`, then
/// the cause.
pub open spec fn failed_call(context: Seq<char>, cause: String) -> Seq<char> {
    context + cause@
}

/// The data of an answer whose code is `code`; every other code is a refusal.
pub open spec fn accepted<T>(reply: PoprakoEnvelope<T>, code: u16, fallback: Seq<char>) -> Result<
    Option<T>,
    Seq<char>,
> {
    if reply.code == code {
        Ok(reply.data)
    } else {
        Err(refusal_text(reply.message, fallback))
    }
}

/// The data of an answer, which has to be there.
pub open spec fn required<T>(data: Option<T>, missing: Seq<char>) -> Result<T, Seq<char>> {
    match data {
        Some(value) => Ok(value),
        None => Err(missing),
    }
}

/// The data of an answer whose code is `code` and that holds data.
pub open spec fn accepted_data<T>(
    reply: PoprakoEnvelope<T>,
    code: u16,
    fallback: Seq<char>,
    missing: Seq<char>,
) -> Result<T, Seq<char>> {
    match accepted(reply, code, fallback) {
        Ok(data) => required(data, missing),
        Err(text) => Err(text),
    }
}

/// What a command that passes the answer on returns.
pub open spec fn passed_on<T>(reply: Result<T, String>, context: Seq<char>) -> Result<
    T,
    Seq<char>,
> {
    match reply {
        Ok(value) => Ok(value),
        Err(cause) => Err(failed_call(context, cause)),
    }
}

/// The message of a refusal.
pub fn refusal(message: Option<String>, fallback: &str) -> (text: String)
    ensures
        text@ == refusal_text(message, fallback@),
{
    match message {
        Some(m) => m,
        None => String::from_str(fallback),
    }
}

impl<T> PoprakoEnvelope<T> {
    /// The data of the answer if its code is `code` and it holds data.
    pub fn accept_data(self, code: u16, fallback: &str, missing: &str) -> (r: Result<T, String>)
        ensures
            same_result(r, accepted_data(self, code, fallback@, missing@)),
    {
        if self.code == code {
            require_data(self.data, missing)
        } else {
            Err(refusal(self.message, fallback))
        }
    }
}

/// The data of an answer, or the error that it is missing.
pub fn require_data<T>(data: Option<T>, missing: &str) -> (r: Result<T, String>)
    ensures
        same_result(r, required(data, missing@)),
{
    match data {
        Some(value) => Ok(value),
        None => Err(String::from_str(missing)),
    }
}

/// Passes the answer of a call on, and puts `context` before the cause of a
/// call that failed.
pub fn pass_on<T>(reply: Result<T, String>, context: &str) -> (r: Result<T, String>)
    ensures
        same_result(r, passed_on(reply, context@)),
{
    match reply {
        Ok(value) => Ok(value),
        Err(cause) => Err(prefixed(context, cause.as_str())),
    }
}

} // verus!
