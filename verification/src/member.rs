//! The members of a team, as the workflow service knows them.

use vstd::prelude::*;
use crate::http::pairs_view;
use crate::text::prefixed;
use crate::reply::{accepted_data, refusal, refusal_text, same_result};
use crate::text::{decimal, u64_to_string};

pub use crate::reply::PoprakoEnvelope;

verus! {

/// A member in the answer to a search, with the time of their last activity
/// in seconds since the Unix epoch.
#[derive(Debug)]
pub struct PoprakoMemberSearchRaw {
    pub member_id: String,
    pub user_id: String,
    pub username: String,
    pub is_admin: Option<bool>,
    pub is_translator: Option<bool>,
    pub is_proofreader: Option<bool>,
    pub is_typesetter: Option<bool>,
    pub is_redrawer: Option<bool>,
    pub is_principal: Option<bool>,
    pub last_active: Option<i64>,
}

/// A member as a search hands them to the front end.
#[derive(Debug)]
pub struct PoprakoMemberSearchItem {
    pub member_id: String,
    pub user_id: String,
    pub username: String,
    pub is_admin: Option<bool>,
    pub is_translator: Option<bool>,
    pub is_proofreader: Option<bool>,
    pub is_typesetter: Option<bool>,
    pub is_redrawer: Option<bool>,
    pub is_principal: Option<bool>,
    pub last_active: Option<i64>,
}

/// What the user who is logged in is in a team.
#[derive(Debug)]
pub struct PoprakoMemberInfo {
    pub member_id: String,
    pub is_admin: bool,
    pub is_translator: bool,
    pub is_proofreader: bool,
    pub is_typesetter: bool,
    pub is_principal: bool,
}

/// A search for members of a team.
#[derive(Debug)]
pub struct ReqMembers {
    pub team_id: String,
    pub position: Option<String>,
    pub fuzzy_name: Option<String>,
    pub page: Option<u32>,
    pub limit: Option<u32>,
}

/// The members that a search found.
#[derive(Debug)]
pub struct MembersReply {
    pub items: Vec<PoprakoMemberSearchItem>,
}

/// Asks what the user is in a team.
#[derive(Debug)]
pub struct GetMemberInfoReq {
    pub team_id: String,
}

/// An active member in the service's answer, with the time of their last
/// activity in seconds since the Unix epoch.
#[derive(Debug)]
pub struct PoprakoActiveMemberRaw {
    pub member_id: String,
    pub user_id: String,
    pub username: String,
    pub is_admin: Option<bool>,
    pub is_translator: Option<bool>,
    pub is_proofreader: Option<bool>,
    pub is_typesetter: Option<bool>,
    pub is_redrawer: Option<bool>,
    pub is_principal: Option<bool>,
    pub last_active: Option<i64>,
}

/// An active member as the front end gets them.
#[derive(Debug)]
pub struct PoprakoActiveMember {
    pub member_id: String,
    pub user_id: String,
    pub username: String,
    pub is_admin: Option<bool>,
    pub is_translator: Option<bool>,
    pub is_proofreader: Option<bool>,
    pub is_typesetter: Option<bool>,
    pub is_redrawer: Option<bool>,
    pub is_principal: Option<bool>,
    pub last_active: Option<i64>,
}

/// Asks for a page of the active members of a team.
#[derive(Debug)]
pub struct GetActiveMembersReq {
    pub team_id: String,
    pub page: Option<u32>,
    pub limit: Option<u32>,
}

/// The member of a search as the front end gets them.
pub open spec fn search_item_of(raw: PoprakoMemberSearchRaw) -> PoprakoMemberSearchItem {
    PoprakoMemberSearchItem {
        member_id: raw.member_id,
        user_id: raw.user_id,
        username: raw.username,
        is_admin: raw.is_admin,
        is_translator: raw.is_translator,
        is_proofreader: raw.is_proofreader,
        is_typesetter: raw.is_typesetter,
        is_redrawer: raw.is_redrawer,
        is_principal: raw.is_principal,
        last_active: raw.last_active,
    }
}

/// The active member as the front end gets them.
pub open spec fn active_member_of(raw: PoprakoActiveMemberRaw) -> PoprakoActiveMember {
    PoprakoActiveMember {
        member_id: raw.member_id,
        user_id: raw.user_id,
        username: raw.username,
        is_admin: raw.is_admin,
        is_translator: raw.is_translator,
        is_proofreader: raw.is_proofreader,
        is_typesetter: raw.is_typesetter,
        is_redrawer: raw.is_redrawer,
        is_principal: raw.is_principal,
        last_active: raw.last_active,
    }
}

/// The members of an answer, or none where the answer holds no data.
pub open spec fn listed<T>(data: Option<Vec<T>>) -> Seq<T> {
    match data {
        Some(list) => list@,
        None => Seq::empty(),
    }
}

/// What a search for members returns: the members of an answer with code
/// 200, each as the front end gets them, in the order of the answer.
pub open spec fn members_found(
    reply: Result<PoprakoEnvelope<Vec<PoprakoMemberSearchRaw>>, String>,
    r: Result<MembersReply, String>,
) -> bool {
    match reply {
        Err(cause) => r matches Err(m) && m@ == "Failed to fetch members: "@ + cause@,
        Ok(answer) => if answer.code != 200 {
            r matches Err(m) && m@ == refusal_text(answer.message, "Unknown error"@)
        } else {
            r matches Ok(found) && found.items@ == listed(answer.data).map_values(
                |raw: PoprakoMemberSearchRaw| search_item_of(raw),
            )
        },
    }
}

/// What a search for members returns, given the answer of the call.
pub fn get_members(reply: Result<PoprakoEnvelope<Vec<PoprakoMemberSearchRaw>>, String>) -> (r:
    Result<MembersReply, String>)
    ensures
        members_found(reply, r),
{
    match reply {
        Err(cause) => Err(prefixed("Failed to fetch members: ", cause.as_str())),
        Ok(answer) => {
            if answer.code != 200 {
                return Err(refusal(answer.message, "Unknown error"));
            }
            let raw_list = match answer.data {
                Some(list) => list,
                None => Vec::new(),
            };
            let ghost all = raw_list@;
            let mut items: Vec<PoprakoMemberSearchItem> = Vec::new();
            for raw in it: raw_list
                invariant
                    it.seq() == all,
                    items@ == all.take(it.index()).map_values(
                        |raw: PoprakoMemberSearchRaw| search_item_of(raw),
                    ),
            {
                items.push(
                    PoprakoMemberSearchItem {
                        member_id: raw.member_id,
                        user_id: raw.user_id,
                        username: raw.username,
                        is_admin: raw.is_admin,
                        is_translator: raw.is_translator,
                        is_proofreader: raw.is_proofreader,
                        is_typesetter: raw.is_typesetter,
                        is_redrawer: raw.is_redrawer,
                        is_principal: raw.is_principal,
                        last_active: raw.last_active,
                    },
                );
                assert(items@ =~= all.take(it.index() + 1).map_values(
                    |raw: PoprakoMemberSearchRaw| search_item_of(raw),
                ));
            }
            assert(all.take(all.len() as int) =~= all);
            Ok(MembersReply { items })
        },
    }
}

/// What the question for the user's place in a team returns, given the
/// answer of the call: the data of an answer with code 200.
pub fn get_member_info(reply: Result<PoprakoEnvelope<PoprakoMemberInfo>, String>) -> (r: Result<
    PoprakoMemberInfo,
    String,
>)
    ensures
        same_result(
            r,
            match reply {
                Err(cause) => Err("Failed to fetch member info: "@ + cause@),
                Ok(answer) => accepted_data(
                    answer,
                    200,
                    "Unknown error"@,
                    "PopRaKo member info response missing data"@,
                ),
            },
        ),
{
    match reply {
        Err(cause) => Err(prefixed("Failed to fetch member info: ", cause.as_str())),
        Ok(answer) => answer.accept_data(
            200,
            "Unknown error",
            "PopRaKo member info response missing data",
        ),
    }
}

/// What the request for active members returns: the members of an answer
/// with code 200, in the order of the answer.
pub open spec fn active_members_found(
    reply: Result<PoprakoEnvelope<Vec<PoprakoActiveMemberRaw>>, String>,
    r: Result<Vec<PoprakoActiveMember>, String>,
) -> bool {
    match reply {
        Err(cause) => r matches Err(m) && m@ == "Failed to fetch active members: "@ + cause@,
        Ok(answer) => if answer.code != 200 {
            r matches Err(m) && m@ == refusal_text(answer.message, "Unknown error"@)
        } else {
            r matches Ok(found) && found@ == listed(answer.data).map_values(
                |raw: PoprakoActiveMemberRaw| active_member_of(raw),
            )
        },
    }
}

/// What the request for active members returns, given the answer of the
/// call.
pub fn get_active_members(
    reply: Result<PoprakoEnvelope<Vec<PoprakoActiveMemberRaw>>, String>,
) -> (r: Result<Vec<PoprakoActiveMember>, String>)
    ensures
        active_members_found(reply, r),
{
    match reply {
        Err(cause) => Err(prefixed("Failed to fetch active members: ", cause.as_str())),
        Ok(answer) => {
            if answer.code != 200 {
                return Err(refusal(answer.message, "Unknown error"));
            }
            let raw_list = match answer.data {
                Some(list) => list,
                None => Vec::new(),
            };
            let ghost all = raw_list@;
            let mut items: Vec<PoprakoActiveMember> = Vec::new();
            for raw in it: raw_list
                invariant
                    it.seq() == all,
                    items@ == all.take(it.index()).map_values(
                        |raw: PoprakoActiveMemberRaw| active_member_of(raw),
                    ),
            {
                items.push(
                    PoprakoActiveMember {
                        member_id: raw.member_id,
                        user_id: raw.user_id,
                        username: raw.username,
                        is_admin: raw.is_admin,
                        is_translator: raw.is_translator,
                        is_proofreader: raw.is_proofreader,
                        is_typesetter: raw.is_typesetter,
                        is_redrawer: raw.is_redrawer,
                        is_principal: raw.is_principal,
                        last_active: raw.last_active,
                    },
                );
                assert(items@ =~= all.take(it.index() + 1).map_values(
                    |raw: PoprakoActiveMemberRaw| active_member_of(raw),
                ));
            }
            assert(all.take(all.len() as int) =~= all);
            Ok(items)
        },
    }
}

/// The query of the request for a page of active members: the team, then
/// the page and the limit where they are given.
pub open spec fn active_members_query(payload: GetActiveMembersReq) -> Seq<(Seq<char>, Seq<char>)> {
    seq![("team_id"@, payload.team_id@)] + (match payload.page {
        Some(page) => seq![("page"@, decimal(page as nat))],
        None => Seq::empty(),
    }) + (match payload.limit {
        Some(limit) => seq![("limit"@, decimal(limit as nat))],
        None => Seq::empty(),
    })
}

/// The query of the request for a page of active members.
pub fn active_members_request(payload: &GetActiveMembersReq) -> (query: Vec<(String, String)>)
    ensures
        pairs_view(query@) == active_members_query(*payload),
{
    let mut query: Vec<(String, String)> = Vec::new();
    query.push((String::from_str("team_id"), payload.team_id.clone()));
    match payload.page {
        Some(page) => {
            query.push((String::from_str("page"), u64_to_string(page as u64)));
        },
        None => {},
    }
    match payload.limit {
        Some(limit) => {
            query.push((String::from_str("limit"), u64_to_string(limit as u64)));
        },
        None => {},
    }
    assert(pairs_view(query@) =~= active_members_query(*payload));
    query
}

} // verus!
