//! The user who is logged in.

use vstd::prelude::*;
use crate::reply::{pass_on, passed_on, refusal, refusal_text, require_data, required, same_result};
use crate::text::prefixed;

pub use crate::reply::PoprakoEnvelope;

verus! {

/// What the workflow service is told of a user so that it knows them.
#[derive(Debug)]
pub struct ReqSync {
    pub user_id: String,
    pub username: String,
    pub email: String,
}

/// The token that the workflow service hands out.
#[derive(Debug)]
pub struct ResSync {
    pub token: String,
}

/// A user as the translation service describes them.
#[derive(Debug)]
pub struct ResUser {
    pub id: String,
    pub name: String,
    pub has_avatar: bool,
    pub avatar: String,
}

/// What making a user known to the workflow service returns: the data of an
/// answer with code 200 or 201.
pub open spec fn sync_user_result(reply: Result<PoprakoEnvelope<ResSync>, String>) -> Result<
    ResSync,
    Seq<char>,
> {
    match reply {
        Err(cause) => Err("Failed to sync user to Poprako: "@ + cause@),
        Ok(answer) => if answer.code != 200 && answer.code != 201 {
            Err(refusal_text(answer.message, "Poprako sync failed"@))
        } else {
            required(answer.data, "Poprako sync response missing data"@)
        },
    }
}

/// What making a user known to the workflow service returns, given the
/// answer of the call.
pub fn sync_user(reply: Result<PoprakoEnvelope<ResSync>, String>) -> (r: Result<ResSync, String>)
    ensures
        same_result(r, sync_user_result(reply)),
{
    match reply {
        Err(cause) => Err(prefixed("Failed to sync user to Poprako: ", cause.as_str())),
        Ok(answer) => {
            if answer.code != 200 && answer.code != 201 {
                Err(refusal(answer.message, "Poprako sync failed"))
            } else {
                require_data(answer.data, "Poprako sync response missing data")
            }
        },
    }
}

/// What the request for the user's own description returns, given the
/// answer of the call.
pub fn get_user_info(reply: Result<ResUser, String>) -> (r: Result<ResUser, String>)
    ensures
        same_result(r, passed_on(reply, "Failed to get user info: "@)),
{
    pass_on(reply, "Failed to get user info: ")
}

} // verus!
