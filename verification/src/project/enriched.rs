//! Projects as the front end gets them: the description that the translation
//! service gives, with what the workflow service knows of the project.

use vstd::prelude::*;
use crate::text::prefixed;
use crate::project::{
    PoprakoEnvelope, PoprakoMember, PoprakoProjInfo, PoprakoProjSearchReq, ResProject,
    ResProjectEnriched,
};
use crate::reply::{refusal, refusal_text};
use crate::text::str_eq;

verus! {

/// The user id of a member who is a principal.
pub open spec fn principal_id(member: PoprakoMember) -> Option<String> {
    if member.is_principal {
        Some(member.user_id)
    } else {
        None
    }
}

/// The user ids of the principals among `members`, in their order.
pub open spec fn principals_of(members: Seq<PoprakoMember>) -> Seq<String> {
    members.filter_map(|member: PoprakoMember| principal_id(member))
}

/// What the workflow service says of the project with id `id`: the last of
/// `infos` that goes by that id.
pub open spec fn info_of(infos: Seq<PoprakoProjInfo>, id: Seq<char>) -> Option<PoprakoProjInfo>
    decreases infos.len(),
{
    if infos.len() == 0 {
        None
    } else if infos.last().proj_id@ == id {
        Some(infos.last())
    } else {
        info_of(infos.drop_last(), id)
    }
}

/// `project` is `base` with what `extra` adds to it. Without `extra` the
/// project is marked as unknown to the workflow service and every added
/// field is empty.
pub open spec fn is_enriched(
    project: ResProjectEnriched,
    base: ResProject,
    extra: Option<PoprakoProjInfo>,
) -> bool {
    &&& project.id == base.id
    &&& project.name == base.name
    &&& project.source_count == base.source_count
    &&& project.translated_source_count == base.translated_source_count
    &&& project.checked_source_count == base.checked_source_count
    &&& project.team == base.team
    &&& project.project_set == base.project_set
    &&& project.role == base.role
    &&& match extra {
        Some(info) => {
            &&& project.has_poprako
            &&& project.projset_index == Some(info.projset_index)
            &&& project.translating_status == Some(info.translating_status)
            &&& project.proofreading_status == Some(info.proofreading_status)
            &&& project.typesetting_status == Some(info.typesetting_status)
            &&& project.reviewing_status == Some(info.reviewing_status)
            &&& project.is_published == Some(info.is_published)
            &&& match info.members {
                Some(members) => {
                    &&& project.members matches Some(copied)
                    &&& copied@ == members@
                    &&& project.principals matches Some(ids)
                    &&& ids@ == principals_of(members@)
                },
                None => project.members is None && project.principals is None,
            }
        },
        None => {
            &&& !project.has_poprako
            &&& project.projset_index is None
            &&& project.translating_status is None
            &&& project.proofreading_status is None
            &&& project.typesetting_status is None
            &&& project.reviewing_status is None
            &&& project.is_published is None
            &&& project.members is None
            &&& project.principals is None
        },
    }
}

/// A copy of the members.
fn copy_members(members: &Vec<PoprakoMember>) -> (copy: Vec<PoprakoMember>)
    ensures
        copy@ == members@,
{
    let mut copy: Vec<PoprakoMember> = Vec::new();
    let mut i: usize = 0;
    while i < members.len()
        invariant
            i <= members.len(),
            copy@ == members@.take(i as int),
        decreases members.len() - i,
    {
        copy.push(members[i].duplicate());
        assert(copy@ =~= members@.take(i + 1));
        i += 1;
    }
    assert(members@.take(i as int) =~= members@);
    copy
}

/// The user ids of the principals among `members`.
pub fn principals(members: &Vec<PoprakoMember>) -> (ids: Vec<String>)
    ensures
        ids@ == principals_of(members@),
{
    let mut ids: Vec<String> = Vec::new();
    let mut i: usize = 0;
    while i < members.len()
        invariant
            i <= members.len(),
            ids@ == principals_of(members@.take(i as int)),
        decreases members.len() - i,
    {
        proof {
            assert(members@.take(i + 1).drop_last() =~= members@.take(i as int));
            assert(members@.take(i + 1).last() == members@[i as int]);
        }
        if members[i].is_principal {
            ids.push(members[i].user_id.clone());
        }
        proof {
            assert(ids@ =~= principals_of(members@.take(i + 1)));
        }
        i += 1;
    }
    assert(members@.take(i as int) =~= members@);
    ids
}

/// The option as a value, for what it refers to.
pub open spec fn info_value(extra: Option<&PoprakoProjInfo>) -> Option<PoprakoProjInfo> {
    match extra {
        Some(info) => Some(*info),
        None => None,
    }
}

/// The project as the front end gets it: `base`, with what `extra` adds.
pub fn enrich(base: ResProject, extra: Option<&PoprakoProjInfo>) -> (project: ResProjectEnriched)
    ensures
        is_enriched(project, base, info_value(extra)),
{
    match extra {
        Some(info) => {
            let (members, principals) = match &info.members {
                Some(list) => (Some(copy_members(list)), Some(principals(list))),
                None => (None, None),
            };
            ResProjectEnriched {
                id: base.id,
                name: base.name,
                source_count: base.source_count,
                translated_source_count: base.translated_source_count,
                checked_source_count: base.checked_source_count,
                team: base.team,
                project_set: base.project_set,
                has_poprako: true,
                projset_index: Some(info.projset_index),
                translating_status: Some(info.translating_status),
                proofreading_status: Some(info.proofreading_status),
                typesetting_status: Some(info.typesetting_status),
                reviewing_status: Some(info.reviewing_status),
                is_published: Some(info.is_published),
                members,
                principals,
                role: base.role,
            }
        },
        None => ResProjectEnriched {
            id: base.id,
            name: base.name,
            source_count: base.source_count,
            translated_source_count: base.translated_source_count,
            checked_source_count: base.checked_source_count,
            team: base.team,
            project_set: base.project_set,
            has_poprako: false,
            projset_index: None,
            translating_status: None,
            proofreading_status: None,
            typesetting_status: None,
            reviewing_status: None,
            is_published: None,
            members: None,
            principals: None,
            role: base.role,
        },
    }
}

/// What the workflow service says of the project with id `id`.
fn find_info<'a>(infos: &'a Vec<PoprakoProjInfo>, id: &str) -> (found: Option<&'a PoprakoProjInfo>)
    ensures
        info_value(found) == info_of(infos@, id@),
{
    let mut n: usize = infos.len();
    assert(infos@.take(n as int) =~= infos@);
    while n > 0
        invariant
            n <= infos.len(),
            info_of(infos@, id@) == info_of(infos@.take(n as int), id@),
        decreases n,
    {
        proof {
            assert(infos@.take(n as int).last() == infos@[n - 1]);
            assert(infos@.take(n as int).drop_last() =~= infos@.take(n - 1));
        }
        if str_eq(infos[n - 1].proj_id.as_str(), id) {
            return Some(&infos[n - 1]);
        }
        n -= 1;
    }
    proof {
        assert(infos@.take(0).len() == 0);
    }
    None
}

/// What the workflow service has to say at all: the projects of an answer
/// with code 200, and nothing after any other answer.
pub open spec fn known_infos(reply: PoprakoEnvelope<Vec<PoprakoProjInfo>>) -> Seq<PoprakoProjInfo> {
    if reply.code == 200 {
        match reply.data {
            Some(infos) => infos@,
            None => Seq::empty(),
        }
    } else {
        Seq::empty()
    }
}

/// `list` holds the projects of `base_list`, each with what `infos` adds.
pub open spec fn all_enriched(
    list: Seq<ResProjectEnriched>,
    base_list: Seq<ResProject>,
    infos: Seq<PoprakoProjInfo>,
) -> bool {
    &&& list.len() == base_list.len()
    &&& forall|i: int|
        0 <= i < list.len() ==> is_enriched(
            #[trigger] list[i],
            base_list[i],
            info_of(infos, base_list[i].id@),
        )
}

/// The projects of a listing, each with what the workflow service adds.
fn enrich_all(base_list: Vec<ResProject>, infos: &Vec<PoprakoProjInfo>) -> (list: Vec<
    ResProjectEnriched,
>)
    ensures
        all_enriched(list@, base_list@, infos@),
{
    let ghost all = base_list@;
    let mut list: Vec<ResProjectEnriched> = Vec::new();
    for base in it: base_list
        invariant
            it.seq() == all,
            list.len() == it.index(),
            forall|i: int|
                0 <= i < list.len() ==> is_enriched(
                    #[trigger] list[i],
                    all[i],
                    info_of(infos@, all[i].id@),
                ),
    {
        let extra = find_info(infos, base.id.as_str());
        list.push(enrich(base, extra));
    }
    list
}

/// The request by which the workflow service is asked about the projects of
/// a listing: their ids, in the listing's order, with the page and limit of
/// the listing. An empty listing needs no request.
pub fn enrichment_request(base_list: &Vec<ResProject>, page: u32, limit: u32) -> (request: Option<
    PoprakoProjSearchReq,
>)
    ensures
        base_list.len() == 0 ==> request is None,
        base_list.len() > 0 ==> (request matches Some(body) && body.page == page && body.limit
            == limit && body.proj_ids@ == base_list@.map_values(|base: ResProject| base.id)),
{
    if base_list.len() == 0 {
        return None;
    }
    let mut proj_ids: Vec<String> = Vec::new();
    let mut i: usize = 0;
    while i < base_list.len()
        invariant
            i <= base_list.len(),
            proj_ids@ == base_list@.take(i as int).map_values(|base: ResProject| base.id),
        decreases base_list.len() - i,
    {
        proj_ids.push(base_list[i].id.clone());
        assert(proj_ids@ =~= base_list@.take(i + 1).map_values(|base: ResProject| base.id));
        i += 1;
    }
    assert(base_list@.take(i as int) =~= base_list@);
    Some(PoprakoProjSearchReq { proj_ids, page, limit })
}

/// What a listing of projects returns. An empty listing stays empty,
/// whatever `reply` is. A call to the workflow service that failed is an
/// error. An answer of the workflow service with another code than 200 adds
/// nothing, and is no error.
pub open spec fn listing_enriched(
    base_list: Seq<ResProject>,
    reply: Result<PoprakoEnvelope<Vec<PoprakoProjInfo>>, String>,
    r: Result<Vec<ResProjectEnriched>, String>,
) -> bool {
    if base_list.len() == 0 {
        r matches Ok(list) && list@.len() == 0
    } else {
        match reply {
            Err(cause) => r matches Err(m) && m@ == "获取 PopRaKo 项目详情失败: "@ + cause@,
            Ok(answer) => r matches Ok(list) && all_enriched(list@, base_list, known_infos(answer)),
        }
    }
}

/// The projects of a listing with what the workflow service adds.
fn enrich_listing(
    base_list: Vec<ResProject>,
    reply: Result<PoprakoEnvelope<Vec<PoprakoProjInfo>>, String>,
) -> (r: Result<Vec<ResProjectEnriched>, String>)
    ensures
        listing_enriched(base_list@, reply, r),
{
    if base_list.len() == 0 {
        return Ok(Vec::new());
    }
    match reply {
        Err(cause) => Err(prefixed("获取 PopRaKo 项目详情失败: ", cause.as_str())),
        Ok(answer) => {
            let infos = if answer.code == 200 {
                match answer.data {
                    Some(infos) => infos,
                    None => Vec::new(),
                }
            } else {
                Vec::new()
            };
            Ok(enrich_all(base_list, &infos))
        },
    }
}

/// The user's projects as the front end gets them. `base_list` is the page
/// that the translation service listed, and `reply` what the workflow
/// service answered when asked about those projects.
pub fn get_user_projects_enriched(
    base_list: Vec<ResProject>,
    reply: Result<PoprakoEnvelope<Vec<PoprakoProjInfo>>, String>,
) -> (r: Result<Vec<ResProjectEnriched>, String>)
    ensures
        listing_enriched(base_list@, reply, r),
{
    enrich_listing(base_list, reply)
}

/// A team's projects as the front end gets them. `base_list` is the page
/// that the translation service listed, and `reply` what the workflow
/// service answered when asked about those projects.
pub fn get_team_projects_enriched(
    base_list: Vec<ResProject>,
    reply: Result<PoprakoEnvelope<Vec<PoprakoProjInfo>>, String>,
) -> (r: Result<Vec<ResProjectEnriched>, String>)
    ensures
        listing_enriched(base_list@, reply, r),
{
    enrich_listing(base_list, reply)
}

/// The projects that a search at the workflow service found: the data of an
/// answer with code 200, and none where that answer holds no data.
pub open spec fn hits_found(
    reply: Result<PoprakoEnvelope<Vec<PoprakoProjInfo>>, String>,
    r: Result<Vec<PoprakoProjInfo>, String>,
) -> bool {
    match reply {
        Err(cause) => r matches Err(m) && m@ == "PopRaKo 项目搜索失败: "@ + cause@,
        Ok(answer) => if answer.code != 200 {
            r matches Err(m) && m@ == refusal_text(answer.message, "PopRaKo 项目搜索失败"@)
        } else {
            match answer.data {
                Some(hits) => r == Ok::<Vec<PoprakoProjInfo>, String>(hits),
                None => r matches Ok(hits) && hits@.len() == 0,
            }
        },
    }
}

/// The projects that a search at the workflow service found, given the
/// answer of the call.
pub fn search_hits(reply: Result<PoprakoEnvelope<Vec<PoprakoProjInfo>>, String>) -> (r: Result<
    Vec<PoprakoProjInfo>,
    String,
>)
    ensures
        hits_found(reply, r),
{
    match reply {
        Err(cause) => Err(prefixed("PopRaKo 项目搜索失败: ", cause.as_str())),
        Ok(answer) => {
            if answer.code != 200 {
                return Err(refusal(answer.message, "PopRaKo 项目搜索失败"));
            }
            match answer.data {
                Some(hits) => Ok(hits),
                None => Ok(Vec::new()),
            }
        },
    }
}

/// What the translation service was found to list under the name of one
/// hit: the first project of its listing, if it lists any, or the reason why
/// the listing failed.
#[derive(Debug)]
pub struct Lookup {
    pub found: Result<Option<ResProject>, String>,
}

/// The place of the first lookup that failed.
pub open spec fn first_failure(lookups: Seq<Lookup>, at: int) -> bool {
    &&& 0 <= at < lookups.len()
    &&& lookups[at].found is Err
    &&& forall|k: int| 0 <= k < at ==> (#[trigger] lookups[k]).found is Ok
}

/// How many of the lookups found a project.
pub open spec fn found_count(lookups: Seq<Lookup>) -> nat
    decreases lookups.len(),
{
    if lookups.len() == 0 {
        0
    } else {
        found_count(lookups.drop_last()) + if lookups.last().found matches Ok(Some(_)) {
            1nat
        } else {
            0nat
        }
    }
}

/// `list` holds, in the order of the hits, each project that a lookup found,
/// with what its hit adds to it.
pub open spec fn hits_enriched(
    list: Seq<ResProjectEnriched>,
    hits: Seq<PoprakoProjInfo>,
    lookups: Seq<Lookup>,
) -> bool {
    &&& list.len() == found_count(lookups)
    &&& forall|k: int|
        0 <= k < lookups.len() ==> ((#[trigger] lookups[k]).found matches Ok(Some(base))
            ==> is_enriched(list[found_count(lookups.take(k)) as int], base, Some(hits[k])))
}

/// As many lookups as there are hits to go with them, from the first on.
pub open spec fn paired(hits: Seq<PoprakoProjInfo>, lookups: Seq<Lookup>) -> Seq<Lookup> {
    if lookups.len() <= hits.len() {
        lookups
    } else {
        lookups.take(hits.len() as int)
    }
}

/// What a search returns, given its hits and the lookup of each hit at the
/// translation service; a lookup without a hit, or a hit without a lookup,
/// does not count. `context` stands before the cause of a lookup that
/// failed. The first failed lookup is the error of the search; a hit under
/// whose name nothing is listed is left out.
pub open spec fn search_enriched(
    hits: Seq<PoprakoProjInfo>,
    lookups: Seq<Lookup>,
    context: Seq<char>,
    r: Result<Vec<ResProjectEnriched>, String>,
) -> bool {
    let lookups = paired(hits, lookups);
    if exists|at: int| first_failure(lookups, at) {
        let at = choose|at: int| first_failure(lookups, at);
        r matches Err(m) && lookups[at].found matches Err(cause) && m@ == context + cause@
    } else {
        r matches Ok(list) && hits_enriched(list@, hits, lookups)
    }
}

/// The count of what was found grows by one with a lookup that found a
/// project, and not at all with another.
proof fn lemma_found_count_step(lookups: Seq<Lookup>, k: int)
    requires
        0 <= k < lookups.len(),
    ensures
        found_count(lookups.take(k + 1)) == found_count(lookups.take(k)) + if lookups[k].found matches Ok(
            Some(_),
        ) {
            1nat
        } else {
            0nat
        },
{
    assert(lookups.take(k + 1).drop_last() =~= lookups.take(k));
    assert(lookups.take(k + 1).last() == lookups[k]);
}

/// The count of what was found among the first lookups is no more than
/// among more of them.
proof fn lemma_found_count_monotone(lookups: Seq<Lookup>, j: int, k: int)
    requires
        0 <= j <= k <= lookups.len(),
    ensures
        found_count(lookups.take(j)) <= found_count(lookups.take(k)),
    decreases k - j,
{
    if j < k {
        lemma_found_count_step(lookups, k - 1);
        lemma_found_count_monotone(lookups, j, k - 1);
    }
}

/// A list that holds what the first `k` lookups found holds what the first
/// `k + 1` found, once what lookup `k` found is added to it.
proof fn lemma_hits_step(
    list: Seq<ResProjectEnriched>,
    hits: Seq<PoprakoProjInfo>,
    lookups: Seq<Lookup>,
    k: int,
    added: Option<ResProjectEnriched>,
)
    requires
        0 <= k < lookups.len(),
        hits_enriched(list, hits, lookups.take(k)),
        lookups[k].found is Ok,
        match lookups[k].found {
            Ok(Some(base)) => added matches Some(project) && is_enriched(
                project,
                base,
                Some(hits[k]),
            ),
            _ => added is None,
        },
    ensures
        hits_enriched(
            match added {
                Some(project) => list.push(project),
                None => list,
            },
            hits,
            lookups.take(k + 1),
        ),
{
    let longer = match added {
        Some(project) => list.push(project),
        None => list,
    };
    let before = lookups.take(k);
    let after = lookups.take(k + 1);
    lemma_found_count_step(lookups, k);
    assert forall|j: int| 0 <= j < after.len() implies ((#[trigger] after[j]).found matches Ok(
        Some(base),
    ) ==> is_enriched(longer[found_count(after.take(j)) as int], base, Some(hits[j]))) by {
        assert(after.take(j) =~= lookups.take(j));
        if j < k {
            assert(after[j] == before[j]);
            assert(before.take(j) =~= lookups.take(j));
            if before[j].found matches Ok(Some(base)) {
                lemma_found_count_step(lookups, j);
                lemma_found_count_monotone(lookups, j + 1, k);
                assert(longer[found_count(lookups.take(j)) as int] == list[found_count(
                    lookups.take(j),
                ) as int]);
            }
        }
    }
}

/// Puts the hits of a search together with what the translation service
/// lists under their names.
fn enrich_hits(hits: Vec<PoprakoProjInfo>, lookups: Vec<Lookup>, context: &str) -> (r: Result<
    Vec<ResProjectEnriched>,
    String,
>)
    ensures
        search_enriched(hits@, lookups@, context@, r),
{
    let ghost all = lookups@;
    let ghost counted = paired(hits@, all);
    let mut list: Vec<ResProjectEnriched> = Vec::new();
    let mut k: usize = 0;
    for lookup in it: lookups
        invariant
            it.seq() == all,
            k == it.index(),
            k <= counted.len(),
            counted == paired(hits@, all),
            hits_enriched(list@, hits@, counted.take(k as int)),
            forall|j: int| 0 <= j < k ==> (#[trigger] counted[j]).found is Ok,
    {
        if k >= hits.len() {
            proof {
                assert(counted.take(k as int) =~= counted);
                lemma_no_failure(counted);
            }
            return Ok(list);
        }
        assert(counted[k as int] == lookup);
        match lookup.found {
            Err(cause) => {
                proof {
                    lemma_failure_is_first(counted, k as int);
                }
                return Err(prefixed(context, cause.as_str()));
            },
            Ok(Some(base)) => {
                let project = enrich(base, Some(&hits[k]));
                proof {
                    lemma_hits_step(list@, hits@, counted, k as int, Some(project));
                }
                list.push(project);
            },
            Ok(None) => {
                proof {
                    lemma_hits_step(list@, hits@, counted, k as int, None);
                }
            },
        }
        k += 1;
    }
    proof {
        assert(counted.take(k as int) =~= counted);
        lemma_no_failure(counted);
    }
    Ok(list)
}

/// A failed lookup before which none failed is the first failure, and the
/// only one that is.
proof fn lemma_failure_is_first(lookups: Seq<Lookup>, k: int)
    requires
        0 <= k < lookups.len(),
        lookups[k].found is Err,
        forall|j: int| 0 <= j < k ==> (#[trigger] lookups[j]).found is Ok,
    ensures
        exists|at: int| first_failure(lookups, at),
        (choose|at: int| first_failure(lookups, at)) == k,
{
    assert(first_failure(lookups, k));
    let at = choose|at: int| first_failure(lookups, at);
    if at < k {
        assert(lookups[at].found is Ok);
    } else if k < at {
        assert(lookups[k].found is Ok);
    }
}

/// Where every lookup went through, there is no first failure.
proof fn lemma_no_failure(lookups: Seq<Lookup>)
    requires
        forall|j: int| 0 <= j < lookups.len() ==> (#[trigger] lookups[j]).found is Ok,
    ensures
        !(exists|at: int| first_failure(lookups, at)),
{
    if exists|at: int| first_failure(lookups, at) {
        let at = choose|at: int| first_failure(lookups, at);
        assert(lookups[at].found is Ok);
    }
}

/// What a search among the user's projects returns. For each hit of the
/// search, `lookups` says what the translation service lists under the
/// hit's name. The lookups may end with the first that failed.
pub fn search_user_projects_enriched(hits: Vec<PoprakoProjInfo>, lookups: Vec<Lookup>) -> (r:
    Result<Vec<ResProjectEnriched>, String>)
    ensures
        search_enriched(hits@, lookups@, "获取用户项目列表失败: "@, r),
{
    enrich_hits(hits, lookups, "获取用户项目列表失败: ")
}

/// What a search among a team's projects returns; as
/// `search_user_projects_enriched`.
pub fn search_team_projects_enriched(hits: Vec<PoprakoProjInfo>, lookups: Vec<Lookup>) -> (r:
    Result<Vec<ResProjectEnriched>, String>)
    ensures
        search_enriched(hits@, lookups@, "获取团队项目列表失败: "@, r),
{
    enrich_hits(hits, lookups, "获取团队项目列表失败: ")
}

} // verus!
