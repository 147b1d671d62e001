//! What the client decides about a call to one of its two remote services
//! before it sends it and after the answer has come: which paths it accepts,
//! how it presents its token, and what it makes of the response.
//!
//! Sending and receiving are the application's part.

use vstd::prelude::*;
use crate::text::prefixed;
use crate::text::str_chars;

verus! {

/// What can go wrong with a call to a remote service.
#[derive(Debug)]
pub enum HttpError {
    /// The path is empty or begins with a slash. `caller` names the kind of
    /// call that was asked for.
    InvalidPath { caller: String, path: String },
    /// The path does not combine with the service's base address.
    BuildUrl { path: String, cause: String },
    /// The token cannot stand in a header.
    InvalidToken { cause: String },
    /// The request could not be sent.
    Send { cause: String },
    /// The service answered with a status that is no success.
    Status { status: String, body: String },
    /// The body of the response could not be read.
    BodyRead { cause: String },
    /// The body of the response is not what was asked for.
    Parse { cause: String },
}

impl HttpError {
    /// The message of the error.
    pub open spec fn text(self) -> Seq<char> {
        match self {
            HttpError::InvalidPath { caller, path } => "Invalid path for "@ + caller@ + ": "@
                + path@,
            HttpError::BuildUrl { path, cause } => "Failed to build URL for "@ + path@ + ": "@
                + cause@,
            HttpError::InvalidToken { cause } => "Invalid token header value: "@ + cause@,
            HttpError::Send { cause } => "request send error: "@ + cause@,
            HttpError::Status { status, body } => "http error: status "@ + status@ + " body: "@
                + body@,
            HttpError::BodyRead { cause } => "response body read error: "@ + cause@,
            HttpError::Parse { cause } => "json parse error: "@ + cause@,
        }
    }

    /// The message of the error, as the caller of a command gets it.
    pub fn message(&self) -> (m: String)
        ensures
            m@ == self.text(),
    {
        match self {
            HttpError::InvalidPath { caller, path } => {
                let mut m = prefixed("Invalid path for ", caller.as_str());
                m.append(": ");
                m.append(path.as_str());
                m
            },
            HttpError::BuildUrl { path, cause } => {
                let mut m = prefixed("Failed to build URL for ", path.as_str());
                m.append(": ");
                m.append(cause.as_str());
                m
            },
            HttpError::InvalidToken { cause } => prefixed(
                "Invalid token header value: ",
                cause.as_str(),
            ),
            HttpError::Send { cause } => prefixed("request send error: ", cause.as_str()),
            HttpError::Status { status, body } => {
                let mut m = prefixed("http error: status ", status.as_str());
                m.append(" body: ");
                m.append(body.as_str());
                m
            },
            HttpError::BodyRead { cause } => prefixed("response body read error: ", cause.as_str()),
            HttpError::Parse { cause } => prefixed("json parse error: ", cause.as_str()),
        }
    }
}

/// A call that is ready to be sent.
#[derive(Debug)]
pub struct ApiCall {
    /// The path below the service's base address.
    pub path: String,
    /// The value of the `Authorization` header, if the client holds a token.
    pub authorization: Option<String>,
}

/// The pairs of a query, as sequences of characters.
pub open spec fn pairs_view(pairs: Seq<(String, String)>) -> Seq<(Seq<char>, Seq<char>)> {
    pairs.map_values(|pair: (String, String)| (pair.0@, pair.1@))
}

/// A pair of a query.
pub fn pair(key: &str, value: &str) -> (p: (String, String))
    ensures
        p.0@ == key@,
        p.1@ == value@,
{
    (String::from_str(key), String::from_str(value))
}

/// A path is accepted if it is not empty and does not begin with a slash: it
/// is meant relative to the service's base address.
pub open spec fn path_accepted(path: Seq<char>) -> bool {
    path.len() > 0 && path[0] != '/'
}

/// The value of the `Authorization` header for `token`.
pub open spec fn bearer_of(token: Seq<char>) -> Seq<char> {
    "Bearer "@ + token
}

/// What `prepare` returns for a call of kind `caller`.
pub open spec fn prepared(
    caller: Seq<char>,
    path: Seq<char>,
    token: Option<Seq<char>>,
    r: Result<ApiCall, HttpError>,
) -> bool {
    if path_accepted(path) {
        &&& r matches Ok(call)
        &&& call.path@ == path
        &&& match token {
            Some(t) => call.authorization matches Some(value) && value@ == bearer_of(t),
            None => call.authorization is None,
        }
    } else {
        r matches Err(HttpError::InvalidPath { caller: c, path: p }) && c@ == caller && p@ == path
    }
}

/// The view of an optional token.
pub open spec fn token_view(token: Option<&str>) -> Option<Seq<char>> {
    match token {
        Some(t) => Some(t@),
        None => None,
    }
}

/// Checks the path and presents the token.
fn prepare(caller: &str, path: &str, token: Option<&str>) -> (r: Result<ApiCall, HttpError>)
    ensures
        prepared(caller@, path@, token_view(token), r),
{
    let chars = str_chars(path);
    if chars.len() == 0 || chars[0] == '/' {
        return Err(
            HttpError::InvalidPath { caller: String::from_str(caller), path: String::from_str(path) },
        );
    }
    let authorization = match token {
        Some(t) => Some(prefixed("Bearer ", t)),
        None => None,
    };
    Ok(ApiCall { path: String::from_str(path), authorization })
}

/// Prepares a `POST` to the translation service.
pub fn moetran_post_opt(path: &str, token: Option<&str>) -> (r: Result<ApiCall, HttpError>)
    ensures
        prepared("moetran_post_opt"@, path@, token_view(token), r),
{
    prepare("moetran_post_opt", path, token)
}

/// Prepares a `GET` from the translation service.
pub fn moetran_get(path: &str, token: Option<&str>) -> (r: Result<ApiCall, HttpError>)
    ensures
        prepared("moetran_get"@, path@, token_view(token), r),
{
    prepare("moetran_get", path, token)
}

/// Prepares a `POST` to the workflow service.
pub fn poprako_post_opt(path: &str, token: Option<&str>) -> (r: Result<ApiCall, HttpError>)
    ensures
        prepared("poprako_post_opt"@, path@, token_view(token), r),
{
    prepare("poprako_post_opt", path, token)
}

/// Prepares a `GET` from the workflow service.
pub fn poprako_get(path: &str, token: Option<&str>) -> (r: Result<ApiCall, HttpError>)
    ensures
        prepared("poprako_get"@, path@, token_view(token), r),
{
    prepare("poprako_get", path, token)
}

/// Whether `c` is white space: whether it has the Unicode property
/// `White_Space`. The characters that have it are U+0009 to U+000D, U+0020,
/// U+0085, U+00A0, U+1680, U+2000 to U+200A, U+2028, U+2029, U+202F, U+205F
/// and U+3000.
pub open spec fn is_whitespace(c: char) -> bool {
    let n = c as u32;
    (0x09 <= n <= 0x0D) || n == 0x20 || n == 0x85 || n == 0xA0 || n == 0x1680 || (0x2000 <= n
        <= 0x200A) || n == 0x2028 || n == 0x2029 || n == 0x202F || n == 0x205F || n == 0x3000
}

/// Trusted: `char::is_whitespace` of the standard library, which tells
/// whether a character has the property `White_Space`. The contract says
/// which characters those are.
#[verifier::external_body]
fn char_is_whitespace(c: char) -> (r: bool)
    ensures
        r == is_whitespace(c),
{
    c.is_whitespace()
}

/// The text holds nothing but white space.
pub open spec fn is_blank(text: Seq<char>) -> bool {
    forall|i: int| 0 <= i < text.len() ==> is_whitespace(#[trigger] text[i])
}

/// Whether the text holds nothing but white space.
pub fn text_is_blank(text: &str) -> (r: bool)
    ensures
        r == is_blank(text@),
{
    let chars = str_chars(text);
    let mut i: usize = 0;
    while i < chars.len()
        invariant
            i <= chars.len(),
            chars@ == text@,
            forall|j: int| 0 <= j < i ==> is_whitespace(#[trigger] chars@[j]),
        decreases chars.len() - i,
    {
        if !char_is_whitespace(chars[i]) {
            return false;
        }
        i += 1;
    }
    true
}

/// The JSON text that stands for a body: the body itself, or `null` for a
/// body that holds nothing but white space.
pub open spec fn json_of_body(body: Seq<char>) -> Seq<char> {
    if is_blank(body) {
        "null"@
    } else {
        body
    }
}

/// Makes of a response the JSON text that is to be parsed. `success` says
/// whether the status is one of success, `status` is the status as text, and
/// `body` the body, or the reason why it could not be read.
///
/// A status that is no success is an error that shows the body, or
/// `<body read error>` in its place. A body without content, as in an answer
/// that has none, stands for `null`.
pub fn read_response(success: bool, status: &str, body: Result<String, String>) -> (r: Result<
    String,
    HttpError,
>)
    ensures
        !success ==> (r matches Err(HttpError::Status { status: s, body: b }) && s@ == status@
            && b@ == match body {
            Ok(text) => text@,
            Err(_) => "<body read error>"@,
        }),
        success ==> match body {
            Ok(text) => r matches Ok(json) && json@ == json_of_body(text@),
            Err(cause) => r == Err::<String, HttpError>(HttpError::BodyRead { cause }),
        },
{
    if !success {
        let shown = match body {
            Ok(text) => text,
            Err(_) => String::from_str("<body read error>"),
        };
        return Err(HttpError::Status { status: String::from_str(status), body: shown });
    }
    match body {
        Ok(text) => {
            if text_is_blank(text.as_str()) {
                Ok(String::from_str("null"))
            } else {
                Ok(text)
            }
        },
        Err(cause) => Err(HttpError::BodyRead { cause }),
    }
}

} // verus!
