//! Projects and project sets: what the client sends to its two services about
//! them, and what it makes of their answers.

use vstd::prelude::*;
use crate::team::ResTeam;

pub use crate::reply::PoprakoEnvelope;

pub mod enriched;
pub mod files;
pub mod image;
pub mod requests;

verus! {

/// The JSON value of the `serde_json` crate. The client passes one on as it
/// came and never looks into it.
#[verifier::external_type_specification]
#[verifier::external_body]
pub struct ExJsonValue(serde_json::Value);

/// A project set as the translation service describes it.
#[derive(Debug)]
pub struct ResProjectSet {
    pub id: String,
    pub name: String,
}

/// A project as the translation service describes it.
#[derive(Debug)]
pub struct ResProject {
    pub id: String,
    pub name: String,
    pub source_count: u64,
    pub translated_source_count: u64,
    pub checked_source_count: u64,
    pub team: ResTeam,
    pub project_set: ResProjectSet,
    /// What the user is in the project, as the service put it.
    pub role: Option<serde_json::Value>,
}

/// What the workflow service knows of a project.
#[derive(Debug)]
pub struct PoprakoProjInfo {
    pub proj_id: String,
    pub proj_name: String,
    pub projset_index: u32,
    pub translating_status: i32,
    pub proofreading_status: i32,
    pub typesetting_status: i32,
    pub reviewing_status: i32,
    pub is_published: bool,
    pub members: Option<Vec<PoprakoMember>>,
}

/// A member of a project, as the workflow service knows them.
#[derive(Debug)]
pub struct PoprakoMember {
    pub user_id: String,
    pub member_id: String,
    pub username: String,
    pub is_admin: bool,
    pub is_translator: bool,
    pub is_proofreader: bool,
    pub is_typesetter: bool,
    pub is_principal: bool,
}

/// What the workflow service is sent to create a project set.
#[derive(Debug)]
pub struct PoprakoProjSetCreateReq {
    pub projset_name: String,
    pub projset_description: String,
    pub team_id: String,
    pub mtr_token: String,
}

/// What the workflow service answers when it has created a project set.
#[derive(Debug)]
pub struct PoprakoProjSetCreateData {
    pub projset_serial: u32,
}

/// A project set as the workflow service lists it.
#[derive(Debug)]
pub struct PoprakoProjSetInfo {
    pub projset_id: String,
    pub projset_name: String,
    pub projset_description: Option<String>,
    pub projset_serial: u32,
    pub team_id: String,
}

/// The project sets of a team.
#[derive(Debug)]
pub struct PoprakoProjSetListData {
    pub projsets: Vec<PoprakoProjSetInfo>,
}

/// What the workflow service is sent to create a project.
#[derive(Debug)]
pub struct PoprakoProjCreateReq {
    pub proj_name: String,
    pub proj_description: String,
    pub team_id: String,
    pub projset_id: String,
    pub mtr_auth: String,
    pub workset_index: i32,
    pub source_language: String,
    pub target_languages: Vec<String>,
    pub allow_apply_type: i32,
    pub application_check_type: i32,
    pub default_role: String,
}

/// What the workflow service answers when it has created a project.
#[derive(Debug)]
pub struct PoprakoProjCreateData {
    pub proj_id: String,
    pub proj_serial: u32,
    pub projset_index: u32,
}

/// What the workflow service is sent to give a member work in a project.
#[derive(Debug)]
pub struct PoprakoAssignReq {
    pub proj_id: String,
    pub member_id: String,
    pub mtr_auth: String,
    pub is_translator: bool,
    pub is_proofreader: bool,
    pub is_typesetter: bool,
}

/// A project as the front end gets it: what the translation service says of
/// it, and what the workflow service adds where it knows the project.
#[derive(Debug)]
pub struct ResProjectEnriched {
    pub id: String,
    pub name: String,
    pub source_count: u64,
    pub translated_source_count: u64,
    pub checked_source_count: u64,
    pub team: ResTeam,
    pub project_set: ResProjectSet,
    /// Whether the workflow service knows the project.
    pub has_poprako: bool,
    pub projset_index: Option<u32>,
    pub translating_status: Option<i32>,
    pub proofreading_status: Option<i32>,
    pub typesetting_status: Option<i32>,
    pub reviewing_status: Option<i32>,
    pub is_published: Option<bool>,
    pub members: Option<Vec<PoprakoMember>>,
    /// The user ids of the members who are principals.
    pub principals: Option<Vec<String>>,
    pub role: Option<serde_json::Value>,
}

/// A target language of a project.
#[derive(Debug)]
pub struct MoetranProjectTarget {
    pub id: String,
    pub translated_source_count: u64,
    pub checked_source_count: u64,
}

/// A page of a project.
#[derive(Debug)]
pub struct MoetranProjectFile {
    pub id: String,
    pub name: String,
    pub source_count: u64,
    pub url: String,
}

/// Asks for the target languages of a project.
#[derive(Debug)]
pub struct GetProjectTargetsReq {
    pub project_id: String,
}

/// Asks for the pages of a project.
#[derive(Debug)]
pub struct GetProjectFilesReq {
    pub project_id: String,
    pub target_id: Option<String>,
}

/// Asks the workflow service for the projects with the given ids.
#[derive(Debug)]
pub struct PoprakoProjSearchReq {
    pub proj_ids: Vec<String>,
    pub page: u32,
    pub limit: u32,
}

/// A filter for a search among the projects of the workflow service.
#[derive(Debug)]
pub struct PoprakoProjFilterReq {
    pub fuzzy_proj_name: Option<String>,
    pub translating_status: Option<i32>,
    pub proofreading_status: Option<i32>,
    pub typesetting_status: Option<i32>,
    pub reviewing_status: Option<i32>,
    pub is_published: Option<bool>,
    pub member_ids: Option<Vec<String>>,
    pub projset_ids: Option<Vec<String>>,
    pub time_start: Option<i64>,
    pub page: Option<u32>,
    pub limit: Option<u32>,
}

impl Default for PoprakoProjFilterReq {
    /// The filter that lets every project pass.
    fn default() -> (filter: PoprakoProjFilterReq)
        ensures
            filter.fuzzy_proj_name is None,
            filter.translating_status is None,
            filter.proofreading_status is None,
            filter.typesetting_status is None,
            filter.reviewing_status is None,
            filter.is_published is None,
            filter.member_ids is None,
            filter.projset_ids is None,
            filter.time_start is None,
            filter.page is None,
            filter.limit is None,
    {
        PoprakoProjFilterReq {
            fuzzy_proj_name: None,
            translating_status: None,
            proofreading_status: None,
            typesetting_status: None,
            reviewing_status: None,
            is_published: None,
            member_ids: None,
            projset_ids: None,
            time_start: None,
            page: None,
            limit: None,
        }
    }
}

/// A search among the projects of one team.
#[derive(Debug)]
pub struct SearchTeamProjectsEnrichedReq {
    pub team_id: String,
    pub filter: PoprakoProjFilterReq,
}

/// Asks for a new project set in a team.
#[derive(Debug)]
pub struct CreateProjsetReq {
    pub projset_name: String,
    pub projset_description: String,
    pub team_id: String,
    pub mtr_token: String,
}

/// Asks for the project sets of a team.
#[derive(Debug)]
pub struct GetTeamPoprakoProjsetsReq {
    pub team_id: String,
}

/// Asks for a new project in a project set.
#[derive(Debug)]
pub struct CreateProjReq {
    pub proj_name: String,
    pub proj_description: String,
    pub team_id: String,
    pub projset_id: String,
    pub mtr_auth: String,
    pub workset_index: i32,
    pub source_language: String,
    pub target_languages: Vec<String>,
    pub allow_apply_type: i32,
    pub application_check_type: i32,
    pub default_role: String,
}

/// Asks to give a member work in a project.
#[derive(Debug)]
pub struct AssignMemberReq {
    pub proj_id: String,
    pub member_id: String,
    pub is_translator: bool,
    pub is_proofreader: bool,
    pub is_typesetter: bool,
}

/// Asks for a page of the user's projects.
#[derive(Debug)]
pub struct GetUserProjectsEnrichedReq {
    pub page: u32,
    pub limit: u32,
}

/// Asks for a page of a team's projects.
#[derive(Debug)]
pub struct GetTeamProjectsEnrichedReq {
    pub team_id: String,
    pub page: u32,
    pub limit: u32,
}

/// A translation of a piece of source text.
#[derive(Debug)]
pub struct MoetranTranslation {
    pub id: String,
    pub content: String,
    pub proofread_content: Option<String>,
    pub selected: bool,
}

/// Asks for the pieces of source text on a page.
#[derive(Debug)]
pub struct GetPageSourcesReq {
    pub file_id: String,
    pub target_id: String,
}

/// Asks to move a piece of source text into or out of its frame.
#[derive(Debug)]
pub struct UpdateSourceReq {
    pub source_id: String,
    pub position_type: i32,
}

/// Asks to delete a piece of source text.
#[derive(Debug)]
pub struct DeleteSourceReq {
    pub source_id: String,
}

/// Hands in a translation.
#[derive(Debug)]
pub struct SubmitTranslationReq {
    pub source_id: String,
    pub target_id: String,
    pub content: String,
}

/// Changes a translation: whether it is the chosen one, its text, and the
/// proofread text.
#[derive(Debug)]
pub struct UpdateTranslationReq {
    pub translation_id: String,
    pub selected: Option<bool>,
    pub proofread_content: Option<String>,
    pub content: Option<String>,
}

/// An image that the client has fetched on the front end's behalf.
#[derive(Debug)]
pub struct ProxyImageReply {
    pub b64: String,
    pub content_type: String,
}

/// Asks to set the state of one stage of a project's workflow.
#[derive(Debug)]
pub struct UpdateProjStatusReq {
    pub proj_id: String,
    /// `translating`, `proofreading`, `typesetting` or `reviewing`.
    pub status_type: String,
    /// 0 for pending, 1 for in progress, 2 for completed.
    pub new_status: i32,
}

/// Asks to mark a project as published.
#[derive(Debug)]
pub struct PublishProjReq {
    pub proj_id: String,
}

/// A page image to add to a project.
#[derive(Debug)]
pub struct UploadProjectFileReq {
    pub project_id: String,
    pub file_name: String,
    pub file_bytes: Vec<u8>,
}

/// Work that was given to a member in a project.
#[derive(Debug)]
pub struct PoprakoAssignment {
    pub proj_id: String,
    pub proj_name: String,
    pub projset_serial: u32,
    pub projset_index: u32,
    pub member_id: String,
    pub username: String,
    pub is_translator: bool,
    pub is_proofreader: bool,
    pub is_typesetter: bool,
    /// In seconds since the Unix epoch.
    pub updated_at: i64,
}

/// Asks for the work that was given out since a time.
#[derive(Debug)]
pub struct GetAssignmentsReq {
    pub time_start: i64,
}

impl PoprakoMember {
    /// A copy of the member.
    pub fn duplicate(&self) -> (copy: PoprakoMember)
        ensures
            copy == *self,
    {
        PoprakoMember {
            user_id: self.user_id.clone(),
            member_id: self.member_id.clone(),
            username: self.username.clone(),
            is_admin: self.is_admin,
            is_translator: self.is_translator,
            is_proofreader: self.is_proofreader,
            is_typesetter: self.is_typesetter,
            is_principal: self.is_principal,
        }
    }
}

} // verus!
