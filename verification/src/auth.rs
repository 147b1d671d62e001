//! Logging in at the translation service: the captcha and the token.

use vstd::prelude::*;
use crate::reply::{pass_on, passed_on, same_result};

verus! {

/// A captcha: its image, and the mark under which the service knows it.
#[derive(Debug)]
pub struct ResCaptcha {
    pub image: String,
    pub info: String,
}

/// What a user sends to log in.
#[derive(Debug)]
pub struct ReqToken {
    pub email: String,
    pub password: String,
    pub captcha: String,
    pub captcha_info: String,
}

/// The token that the service hands out at login.
#[derive(Debug)]
pub struct ResToken {
    pub token: String,
}

/// The path under which a captcha is asked for.
pub fn captcha_path() -> (path: &'static str)
    ensures
        path@ == "captchas"@,
{
    "captchas"
}

/// The path under which a token is asked for.
pub fn token_path() -> (path: &'static str)
    ensures
        path@ == "user/token"@,
{
    "user/token"
}

/// What the request for a captcha returns, given the answer of the call.
pub fn get_captcha(reply: Result<ResCaptcha, String>) -> (r: Result<ResCaptcha, String>)
    ensures
        same_result(r, passed_on(reply, "Captcha request failed: "@)),
{
    pass_on(reply, "Captcha request failed: ")
}

/// What the request for a token returns, given the answer of the call.
pub fn aquire_token(reply: Result<ResToken, String>) -> (r: Result<ResToken, String>)
    ensures
        same_result(r, passed_on(reply, "Token request failed: "@)),
{
    pass_on(reply, "Token request failed: ")
}

} // verus!
