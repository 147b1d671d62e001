//! The requests that the client sends about projects, project sets, source
//! texts and translations, and what it returns for their answers.

use vstd::prelude::*;
use crate::http::{pair, pairs_view};
use crate::text::prefixed;
use crate::project::{
    AssignMemberReq, CreateProjReq, CreateProjsetReq, GetAssignmentsReq, GetPageSourcesReq,
    GetTeamPoprakoProjsetsReq, MoetranTranslation, PoprakoAssignReq, PoprakoAssignment,
    PoprakoEnvelope, PoprakoProjCreateData, PoprakoProjCreateReq, PoprakoProjInfo,
    PoprakoProjSetCreateData, PoprakoProjSetCreateReq, PoprakoProjSetInfo,
    PoprakoProjSetListData, ResProject, SubmitTranslationReq, UpdateProjStatusReq,
    UpdateSourceReq, UpdateTranslationReq,
};
use crate::reply::{accepted_data, pass_on, passed_on, refusal, refusal_text, same_result};
use crate::text::{decimal, i64_to_string, signed_decimal, u64_to_string};

verus! {

/// A request with a body: where it goes, and what it carries.
#[derive(Debug)]
pub struct Call<B> {
    pub path: String,
    pub body: B,
}

/// The path `head`, `id`, `tail`.
pub open spec fn path_of(head: Seq<char>, id: Seq<char>, tail: Seq<char>) -> Seq<char> {
    head + id + tail
}

/// The path `head`, `id`, `tail`.
pub fn path(head: &str, id: &str, tail: &str) -> (p: String)
    ensures
        p@ == path_of(head@, id@, tail@),
{
    let mut p = prefixed(head, id);
    p.append(tail);
    p
}

/// What the workflow service is sent to create a project set: what was asked
/// for, field by field, under `projsets`.
pub fn create_projset_request(payload: CreateProjsetReq) -> (call: Call<PoprakoProjSetCreateReq>)
    ensures
        call.path@ == "projsets"@,
        call.body.projset_name == payload.projset_name,
        call.body.projset_description == payload.projset_description,
        call.body.team_id == payload.team_id,
        call.body.mtr_token == payload.mtr_token,
{
    Call {
        path: String::from_str("projsets"),
        body: PoprakoProjSetCreateReq {
            projset_name: payload.projset_name,
            projset_description: payload.projset_description,
            team_id: payload.team_id,
            mtr_token: payload.mtr_token,
        },
    }
}

/// What creating a project set returns, given the answer of the call: the
/// data of an answer with code 201.
pub fn create_projset(reply: Result<PoprakoEnvelope<PoprakoProjSetCreateData>, String>) -> (r:
    Result<PoprakoProjSetCreateData, String>)
    ensures
        same_result(
            r,
            match reply {
                Err(cause) => Err("创建项目集失败: "@ + cause@),
                Ok(answer) => accepted_data(
                    answer,
                    201,
                    "PopRaKo 创建项目集失败"@,
                    "PopRaKo 创建项目集返回空数据"@,
                ),
            },
        ),
{
    match reply {
        Err(cause) => Err(prefixed("创建项目集失败: ", cause.as_str())),
        Ok(answer) => answer.accept_data(201, "PopRaKo 创建项目集失败", "PopRaKo 创建项目集返回空数据"),
    }
}

/// The same as `create_projset`, under the name by which the front end calls
/// it.
pub fn create_poprako_projset(
    reply: Result<PoprakoEnvelope<PoprakoProjSetCreateData>, String>,
) -> (r: Result<PoprakoProjSetCreateData, String>)
    ensures
        same_result(
            r,
            match reply {
                Err(cause) => Err("创建项目集失败: "@ + cause@),
                Ok(answer) => accepted_data(
                    answer,
                    201,
                    "PopRaKo 创建项目集失败"@,
                    "PopRaKo 创建项目集返回空数据"@,
                ),
            },
        ),
{
    create_projset(reply)
}

/// The query by which the project sets of a team are asked for.
pub fn team_projsets_request(payload: &GetTeamPoprakoProjsetsReq) -> (query: Vec<(String, String)>)
    ensures
        pairs_view(query@) == seq![("team_id"@, payload.team_id@)],
{
    let mut query: Vec<(String, String)> = Vec::new();
    query.push(pair("team_id", payload.team_id.as_str()));
    assert(pairs_view(query@) =~= seq![("team_id"@, payload.team_id@)]);
    query
}

/// What the request for a team's project sets returns: the project sets of
/// an answer with code 200.
pub open spec fn projsets_listed(
    reply: Result<PoprakoEnvelope<PoprakoProjSetListData>, String>,
    r: Result<Vec<PoprakoProjSetInfo>, String>,
) -> bool {
    match reply {
        Err(cause) => r matches Err(m) && m@ == "获取 PopRaKo 项目集列表失败: "@ + cause@,
        Ok(answer) => if answer.code != 200 {
            r matches Err(m) && m@ == refusal_text(answer.message, "PopRaKo 获取项目集列表失败"@)
        } else {
            match answer.data {
                Some(data) => r == Ok::<Vec<PoprakoProjSetInfo>, String>(data.projsets),
                None => r matches Err(m) && m@ == "PopRaKo 获取项目集列表返回空数据"@,
            }
        },
    }
}

/// What the request for a team's project sets returns, given the answer of
/// the call.
pub fn get_team_poprako_projsets(
    reply: Result<PoprakoEnvelope<PoprakoProjSetListData>, String>,
) -> (r: Result<Vec<PoprakoProjSetInfo>, String>)
    ensures
        projsets_listed(reply, r),
{
    match reply {
        Err(cause) => Err(prefixed("获取 PopRaKo 项目集列表失败: ", cause.as_str())),
        Ok(answer) => {
            if answer.code != 200 {
                return Err(refusal(answer.message, "PopRaKo 获取项目集列表失败"));
            }
            match answer.data {
                Some(data) => Ok(data.projsets),
                None => Err(String::from_str("PopRaKo 获取项目集列表返回空数据")),
            }
        },
    }
}

/// What the workflow service is sent to create a project: what was asked
/// for, field by field, under `projs`.
pub fn create_proj_request(payload: CreateProjReq) -> (call: Call<PoprakoProjCreateReq>)
    ensures
        call.path@ == "projs"@,
        call.body.proj_name == payload.proj_name,
        call.body.proj_description == payload.proj_description,
        call.body.team_id == payload.team_id,
        call.body.projset_id == payload.projset_id,
        call.body.mtr_auth == payload.mtr_auth,
        call.body.workset_index == payload.workset_index,
        call.body.source_language == payload.source_language,
        call.body.target_languages == payload.target_languages,
        call.body.allow_apply_type == payload.allow_apply_type,
        call.body.application_check_type == payload.application_check_type,
        call.body.default_role == payload.default_role,
{
    Call {
        path: String::from_str("projs"),
        body: PoprakoProjCreateReq {
            proj_name: payload.proj_name,
            proj_description: payload.proj_description,
            team_id: payload.team_id,
            projset_id: payload.projset_id,
            mtr_auth: payload.mtr_auth,
            workset_index: payload.workset_index,
            source_language: payload.source_language,
            target_languages: payload.target_languages,
            allow_apply_type: payload.allow_apply_type,
            application_check_type: payload.application_check_type,
            default_role: payload.default_role,
        },
    }
}

/// What creating a project returns, given the answer of the call: the data
/// of an answer with code 201.
pub fn create_proj(reply: Result<PoprakoEnvelope<PoprakoProjCreateData>, String>) -> (r: Result<
    PoprakoProjCreateData,
    String,
>)
    ensures
        same_result(
            r,
            match reply {
                Err(cause) => Err("创建项目失败: "@ + cause@),
                Ok(answer) => accepted_data(
                    answer,
                    201,
                    "PopRaKo 创建项目失败"@,
                    "PopRaKo 创建项目返回空数据"@,
                ),
            },
        ),
{
    match reply {
        Err(cause) => Err(prefixed("创建项目失败: ", cause.as_str())),
        Ok(answer) => answer.accept_data(201, "PopRaKo 创建项目失败", "PopRaKo 创建项目返回空数据"),
    }
}

/// What preparing an assignment gives: the request needs the token of the
/// translation service. An error in getting the token is handed on as it
/// is.
pub open spec fn assignment_prepared(
    payload: AssignMemberReq,
    token: Result<Option<String>, String>,
    r: Result<Call<PoprakoAssignReq>, String>,
) -> bool {
    match token {
        Err(cause) => r == Err::<Call<PoprakoAssignReq>, String>(cause),
        Ok(None) => r matches Err(m) && m@ == "无法获取 Moetran Token"@,
        Ok(Some(t)) => {
            &&& r matches Ok(call)
            &&& call.path@ == path_of("projs/"@, payload.proj_id@, "/assign"@)
            &&& call.body.proj_id == payload.proj_id
            &&& call.body.member_id == payload.member_id
            &&& call.body.mtr_auth == t
            &&& call.body.is_translator == payload.is_translator
            &&& call.body.is_proofreader == payload.is_proofreader
            &&& call.body.is_typesetter == payload.is_typesetter
        },
    }
}

/// The request that gives a member work in a project. `token` is the token
/// of the translation service, or the reason why it could not be had.
pub fn assign_member_request(payload: AssignMemberReq, token: Result<Option<String>, String>) -> (r:
    Result<Call<PoprakoAssignReq>, String>)
    ensures
        assignment_prepared(payload, token, r),
{
    match token {
        Err(cause) => Err(cause),
        Ok(None) => Err(String::from_str("无法获取 Moetran Token")),
        Ok(Some(t)) => {
            let path = path("projs/", payload.proj_id.as_str(), "/assign");
            Ok(
                Call {
                    path,
                    body: PoprakoAssignReq {
                        proj_id: payload.proj_id,
                        member_id: payload.member_id,
                        mtr_auth: t,
                        is_translator: payload.is_translator,
                        is_proofreader: payload.is_proofreader,
                        is_typesetter: payload.is_typesetter,
                    },
                },
            )
        },
    }
}

/// What giving a member work returns, given the answer of the call.
pub fn assign_member_to_proj(reply: Result<(), String>) -> (r: Result<(), String>)
    ensures
        same_result(r, passed_on(reply, "指派成员到项目失败: "@)),
{
    pass_on(reply, "指派成员到项目失败: ")
}

/// The query of a page of a listing of projects that are being translated.
pub open spec fn page_query(page: u32, limit: u32) -> Seq<(Seq<char>, Seq<char>)> {
    seq![("page"@, decimal(page as nat)), ("limit"@, decimal(limit as nat)), ("status"@, "0"@)]
}

/// The query of a page of a listing of projects; the listing of the user's
/// own projects goes to `user/projects`, that of a team's to
/// `teams/<team_id>/projects`.
pub fn projects_page_request(page: u32, limit: u32) -> (query: Vec<(String, String)>)
    ensures
        pairs_view(query@) == page_query(page, limit),
{
    let mut query: Vec<(String, String)> = Vec::new();
    query.push((String::from_str("page"), u64_to_string(page as u64)));
    query.push((String::from_str("limit"), u64_to_string(limit as u64)));
    query.push(pair("status", "0"));
    assert(pairs_view(query@) =~= page_query(page, limit));
    query
}

/// The path under which a team's projects are listed.
pub fn team_projects_path(team_id: &str) -> (p: String)
    ensures
        p@ == path_of("teams/"@, team_id@, "/projects"@),
{
    path("teams/", team_id, "/projects")
}

/// The query by which the translation service is asked for the projects
/// that go by the name of a hit.
pub fn lookup_request(hit: &PoprakoProjInfo) -> (query: Vec<(String, String)>)
    ensures
        pairs_view(query@) == seq![("word"@, hit.proj_name@), ("status"@, "0"@)],
{
    let mut query: Vec<(String, String)> = Vec::new();
    query.push(pair("word", hit.proj_name.as_str()));
    query.push(pair("status", "0"));
    assert(pairs_view(query@) =~= seq![("word"@, hit.proj_name@), ("status"@, "0"@)]);
    query
}

/// The user's projects as the translation service lists them, given the
/// answer of the call.
pub fn user_projects_listed(reply: Result<Vec<ResProject>, String>) -> (r: Result<
    Vec<ResProject>,
    String,
>)
    ensures
        same_result(r, passed_on(reply, "获取用户项目列表失败: "@)),
{
    pass_on(reply, "获取用户项目列表失败: ")
}

/// A team's projects as the translation service lists them, given the
/// answer of the call.
pub fn team_projects_listed(reply: Result<Vec<ResProject>, String>) -> (r: Result<
    Vec<ResProject>,
    String,
>)
    ensures
        same_result(r, passed_on(reply, "获取团队项目列表失败: "@)),
{
    pass_on(reply, "获取团队项目列表失败: ")
}

/// A request for the source texts of a page.
#[derive(Debug)]
pub struct SourcesListing {
    pub path: String,
    pub query: Vec<(String, String)>,
}

/// The request for the source texts of a page in one target language, all
/// at once.
pub fn page_sources_request(payload: &GetPageSourcesReq) -> (request: SourcesListing)
    ensures
        request.path@ == path_of("files/"@, payload.file_id@, "/sources"@),
        pairs_view(request.query@) == seq![
            ("target_id"@, payload.target_id@),
            ("paging"@, "false"@),
        ],
{
    let mut query: Vec<(String, String)> = Vec::new();
    query.push(pair("target_id", payload.target_id.as_str()));
    query.push(pair("paging", "false"));
    assert(pairs_view(query@) =~= seq![("target_id"@, payload.target_id@), ("paging"@, "false"@)]);
    SourcesListing { path: path("files/", payload.file_id.as_str(), "/sources"), query }
}

/// What the request for the source texts of a page returns, given the
/// answer of the call.
pub fn get_page_sources<S>(reply: Result<Vec<S>, String>) -> (r: Result<Vec<S>, String>)
    ensures
        same_result(r, passed_on(reply, "获取页面源失败: "@)),
{
    pass_on(reply, "获取页面源失败: ")
}

/// The path under which a source text is added to a page.
pub fn create_source_path(file_id: &str) -> (p: String)
    ensures
        p@ == path_of("files/"@, file_id@, "/sources"@),
{
    path("files/", file_id, "/sources")
}

/// What adding a source text returns, given the answer of the call.
pub fn create_source<S>(reply: Result<S, String>) -> (r: Result<S, String>)
    ensures
        same_result(r, passed_on(reply, "创建 source 失败: "@)),
{
    pass_on(reply, "创建 source 失败: ")
}

/// What the translation service is sent to change a source text.
#[derive(Debug)]
pub struct SourceUpdate {
    pub id: String,
    pub position_type: i32,
}

/// The request that moves a source text into or out of its frame.
pub fn update_source_request(payload: &UpdateSourceReq) -> (call: Call<SourceUpdate>)
    ensures
        call.path@ == path_of("sources/"@, payload.source_id@, ""@),
        call.body.id@ == payload.source_id@,
        call.body.position_type == payload.position_type,
{
    Call {
        path: path("sources/", payload.source_id.as_str(), ""),
        body: SourceUpdate {
            id: payload.source_id.clone(),
            position_type: payload.position_type,
        },
    }
}

/// What changing a source text returns, given the answer of the call.
pub fn update_source<S>(reply: Result<S, String>) -> (r: Result<S, String>)
    ensures
        same_result(r, passed_on(reply, "更新 source 失败: "@)),
{
    pass_on(reply, "更新 source 失败: ")
}

/// The path under which a source text is deleted.
pub fn delete_source_path(source_id: &str) -> (p: String)
    ensures
        p@ == path_of("sources/"@, source_id@, ""@),
{
    path("sources/", source_id, "")
}

/// What deleting a source text returns, given the answer of the call.
pub fn delete_source(reply: Result<(), String>) -> (r: Result<(), String>)
    ensures
        same_result(r, passed_on(reply, "删除 source 失败: "@)),
{
    pass_on(reply, "删除 source 失败: ")
}

/// What the translation service is sent with a new translation.
#[derive(Debug)]
pub struct TranslationSubmit {
    pub target_id: String,
    pub content: String,
}

/// The request that hands in a translation.
pub fn submit_translation_request(payload: SubmitTranslationReq) -> (call: Call<TranslationSubmit>)
    ensures
        call.path@ == path_of("sources/"@, payload.source_id@, "/translations"@),
        call.body.target_id == payload.target_id,
        call.body.content == payload.content,
{
    Call {
        path: path("sources/", payload.source_id.as_str(), "/translations"),
        body: TranslationSubmit { target_id: payload.target_id, content: payload.content },
    }
}

/// What handing in a translation returns, given the answer of the call.
pub fn submit_translation(reply: Result<MoetranTranslation, String>) -> (r: Result<
    MoetranTranslation,
    String,
>)
    ensures
        same_result(r, passed_on(reply, "提交翻译失败: "@)),
{
    pass_on(reply, "提交翻译失败: ")
}

/// What the translation service is sent to change a translation: the fields
/// that are to change, and no others.
#[derive(Debug)]
pub struct TranslationUpdate {
    pub selected: Option<bool>,
    pub proofread_content: Option<String>,
    pub content: Option<String>,
}

/// The request names something to change.
pub open spec fn changes_something(payload: UpdateTranslationReq) -> bool {
    payload.selected is Some || payload.proofread_content is Some || payload.content is Some
}

/// What preparing the change of a translation gives: a request that names
/// nothing to change is refused.
pub open spec fn translation_update_prepared(
    payload: UpdateTranslationReq,
    r: Result<Call<TranslationUpdate>, String>,
) -> bool {
    if changes_something(payload) {
        &&& r matches Ok(call)
        &&& call.path@ == path_of("translations/"@, payload.translation_id@, ""@)
        &&& call.body.selected == payload.selected
        &&& call.body.proofread_content == payload.proofread_content
        &&& call.body.content == payload.content
    } else {
        r matches Err(m) && m@ == "至少需要一个可更新字段"@
    }
}

/// The request that changes a translation.
pub fn update_translation_request(payload: UpdateTranslationReq) -> (r: Result<
    Call<TranslationUpdate>,
    String,
>)
    ensures
        translation_update_prepared(payload, r),
{
    if payload.selected.is_none() && payload.proofread_content.is_none()
        && payload.content.is_none() {
        return Err(String::from_str("至少需要一个可更新字段"));
    }
    Ok(
        Call {
            path: path("translations/", payload.translation_id.as_str(), ""),
            body: TranslationUpdate {
                selected: payload.selected,
                proofread_content: payload.proofread_content,
                content: payload.content,
            },
        },
    )
}

/// What changing a translation returns, given the answer of the call.
pub fn update_translation(reply: Result<MoetranTranslation, String>) -> (r: Result<
    MoetranTranslation,
    String,
>)
    ensures
        same_result(r, passed_on(reply, "更新翻译失败: "@)),
{
    pass_on(reply, "更新翻译失败: ")
}

/// What the workflow service is sent to set the state of a stage.
#[derive(Debug)]
pub struct ProjStatusUpdate {
    pub proj_id: String,
    pub status_type: String,
    pub new_status: i32,
}

/// The request that sets the state of one stage of a project's workflow.
pub fn update_proj_status_request(payload: UpdateProjStatusReq) -> (call: Call<ProjStatusUpdate>)
    ensures
        call.path@ == path_of("projs/"@, payload.proj_id@, "/status"@),
        call.body.proj_id == payload.proj_id,
        call.body.status_type == payload.status_type,
        call.body.new_status == payload.new_status,
{
    Call {
        path: path("projs/", payload.proj_id.as_str(), "/status"),
        body: ProjStatusUpdate {
            proj_id: payload.proj_id,
            status_type: payload.status_type,
            new_status: payload.new_status,
        },
    }
}

/// What setting the state of a stage returns, given the answer of the call.
pub fn update_proj_status(reply: Result<(), String>) -> (r: Result<(), String>)
    ensures
        same_result(r, passed_on(reply, "更新项目状态失败: "@)),
{
    pass_on(reply, "更新项目状态失败: ")
}

/// The path under which a project is marked as published.
pub fn publish_proj_path(proj_id: &str) -> (p: String)
    ensures
        p@ == path_of("projs/"@, proj_id@, "/publish"@),
{
    path("projs/", proj_id, "/publish")
}

/// What marking a project as published returns, given the answer of the
/// call.
pub fn publish_proj(reply: Result<(), String>) -> (r: Result<(), String>)
    ensures
        same_result(r, passed_on(reply, "标记项目为已发布失败: "@)),
{
    pass_on(reply, "标记项目为已发布失败: ")
}

/// The query by which the work that was given out since a time is asked
/// for.
pub fn assignments_request(payload: &GetAssignmentsReq) -> (query: Vec<(String, String)>)
    ensures
        pairs_view(query@) == seq![("time_start"@, signed_decimal(payload.time_start as int))],
{
    let mut query: Vec<(String, String)> = Vec::new();
    query.push((String::from_str("time_start"), i64_to_string(payload.time_start)));
    assert(pairs_view(query@) =~= seq![
        ("time_start"@, signed_decimal(payload.time_start as int)),
    ]);
    query
}

/// What the request for the work that was given out returns, given the
/// answer of the call: the data of an answer with code 200.
pub fn get_assignments(reply: Result<PoprakoEnvelope<Vec<PoprakoAssignment>>, String>) -> (r:
    Result<Vec<PoprakoAssignment>, String>)
    ensures
        same_result(
            r,
            match reply {
                Err(cause) => Err("获取派活列表失败: "@ + cause@),
                Ok(answer) => accepted_data(
                    answer,
                    200,
                    "PopRaKo 获取派活列表失败"@,
                    "PopRaKo 获取派活列表返回空数据"@,
                ),
            },
        ),
{
    match reply {
        Err(cause) => Err(prefixed("获取派活列表失败: ", cause.as_str())),
        Ok(answer) => answer.accept_data(200, "PopRaKo 获取派活列表失败", "PopRaKo 获取派活列表返回空数据"),
    }
}

} // verus!
