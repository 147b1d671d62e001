//! Translation teams.

use vstd::prelude::*;
use crate::text::{decimal, u64_to_string};

verus! {

/// A translation team as the translation service describes it.
#[derive(Debug)]
pub struct ResTeam {
    pub id: String,
    pub avatar: String,
    pub has_avatar: bool,
    pub name: String,
}

impl ResTeam {
    /// A copy of the team.
    pub fn duplicate(&self) -> (copy: ResTeam)
        ensures
            copy == *self,
    {
        ResTeam {
            id: self.id.clone(),
            avatar: self.avatar.clone(),
            has_avatar: self.has_avatar,
            name: self.name.clone(),
        }
    }
}

/// Asks for one page of the teams of the user who is logged in.
#[derive(Debug)]
pub struct GetUserTeamsReq {
    pub page: u32,
    pub limit: u32,
}

/// The path of the request for a page of the user's teams.
pub open spec fn user_teams_path(page: u32, limit: u32) -> Seq<char> {
    "user/teams?page="@ + decimal(page as nat) + "&limit="@ + decimal(limit as nat)
}

/// The path, below the translation service's base address, under which a
/// page of the user's teams is asked for.
pub fn get_user_teams(payload: &GetUserTeamsReq) -> (path: String)
    ensures
        path@ == user_teams_path(payload.page, payload.limit),
{
    let mut path = String::from_str("user/teams?page=");
    let page = u64_to_string(payload.page as u64);
    path.append(page.as_str());
    path.append("&limit=");
    let limit = u64_to_string(payload.limit as u64);
    path.append(limit.as_str());
    path
}

} // verus!
