//! The target languages and the pages of a project, as the translation
//! service lists them.

use vstd::prelude::*;
use crate::http::{pair, pairs_view};
use crate::text::prefixed;
use crate::project::{
    GetProjectFilesReq, GetProjectTargetsReq, MoetranProjectFile, MoetranProjectTarget,
};

verus! {

/// An entry of the service's list of target languages, as far as the client
/// reads it. A field is there if the entry has it with the right kind of
/// value: text for the id, a number that is not negative for a count.
#[derive(Debug)]
pub struct RawProjectTarget {
    pub id: Option<String>,
    pub translated_source_count: Option<u64>,
    pub checked_source_count: Option<u64>,
}

/// An entry of the service's list of pages, as far as the client reads it.
#[derive(Debug)]
pub struct RawProjectFile {
    pub id: Option<String>,
    pub name: Option<String>,
    pub source_count: Option<u64>,
    pub url: Option<String>,
}

/// A count, or zero where none is given.
pub open spec fn count_or_zero(count: Option<u64>) -> u64 {
    match count {
        Some(n) => n,
        None => 0,
    }
}

/// The target language that an entry describes. An entry without an id
/// describes none.
pub open spec fn target_of(raw: RawProjectTarget) -> Option<MoetranProjectTarget> {
    match raw.id {
        Some(id) => Some(
            MoetranProjectTarget {
                id,
                translated_source_count: count_or_zero(raw.translated_source_count),
                checked_source_count: count_or_zero(raw.checked_source_count),
            },
        ),
        None => None,
    }
}

/// The page that an entry describes. An entry without id, name or address
/// describes none.
pub open spec fn file_of(raw: RawProjectFile) -> Option<MoetranProjectFile> {
    match (raw.id, raw.name, raw.url) {
        (Some(id), Some(name), Some(url)) => Some(
            MoetranProjectFile { id, name, source_count: count_or_zero(raw.source_count), url },
        ),
        _ => None,
    }
}

/// The path under which the target languages of a project are listed.
pub open spec fn targets_path(project_id: Seq<char>) -> Seq<char> {
    "projects/"@ + project_id + "/targets"@
}

/// The path under which the pages of a project are listed.
pub open spec fn files_path(project_id: Seq<char>) -> Seq<char> {
    "projects/"@ + project_id + "/files"@
}

/// The query of the request for a project's target languages: the first
/// page of five, of projects that are being translated.
pub open spec fn targets_query() -> Seq<(Seq<char>, Seq<char>)> {
    seq![("page"@, "1"@), ("limit"@, "5"@), ("word"@, ""@), ("status"@, "0"@)]
}

/// The query of the request for a project's pages: all of them at once, for
/// one target language where one is given.
pub open spec fn files_query(target_id: Option<String>) -> Seq<(Seq<char>, Seq<char>)> {
    seq![("page"@, "1"@), ("limit"@, "100000"@), ("word"@, ""@)] + (match target_id {
        Some(target) => seq![("target"@, target@)],
        None => Seq::empty(),
    }) + seq![("status"@, "0"@)]
}

/// A request to the translation service: a path and a query.
#[derive(Debug)]
pub struct Listing {
    pub path: String,
    pub query: Vec<(String, String)>,
}

/// The request for the target languages of a project.
pub fn project_targets_request(payload: &GetProjectTargetsReq) -> (request: Listing)
    ensures
        request.path@ == targets_path(payload.project_id@),
        pairs_view(request.query@) == targets_query(),
{
    let mut path = prefixed("projects/", payload.project_id.as_str());
    path.append("/targets");
    let mut query: Vec<(String, String)> = Vec::new();
    query.push(pair("page", "1"));
    query.push(pair("limit", "5"));
    query.push(pair("word", ""));
    query.push(pair("status", "0"));
    assert(pairs_view(query@) =~= targets_query());
    Listing { path, query }
}

/// The request for the pages of a project.
pub fn project_files_request(payload: &GetProjectFilesReq) -> (request: Listing)
    ensures
        request.path@ == files_path(payload.project_id@),
        pairs_view(request.query@) == files_query(payload.target_id),
{
    let mut path = prefixed("projects/", payload.project_id.as_str());
    path.append("/files");
    let mut query: Vec<(String, String)> = Vec::new();
    query.push(pair("page", "1"));
    query.push(pair("limit", "100000"));
    query.push(pair("word", ""));
    match &payload.target_id {
        Some(target) => {
            query.push(pair("target", target.as_str()));
        },
        None => {},
    }
    query.push(pair("status", "0"));
    assert(pairs_view(query@) =~= files_query(payload.target_id));
    Listing { path, query }
}

/// What the request for a project's target languages returns: the targets
/// that the entries of the answer describe, in the answer's order.
pub open spec fn targets_listed(
    reply: Result<Vec<RawProjectTarget>, String>,
    r: Result<Vec<MoetranProjectTarget>, String>,
) -> bool {
    match reply {
        Err(cause) => r matches Err(m) && m@ == "获取项目 targets 失败: "@ + cause@,
        Ok(entries) => r matches Ok(targets) && targets@ == entries@.filter_map(
            |raw: RawProjectTarget| target_of(raw),
        ),
    }
}

/// What the request for a project's target languages returns, given the
/// answer of the call.
pub fn get_project_targets(reply: Result<Vec<RawProjectTarget>, String>) -> (r: Result<
    Vec<MoetranProjectTarget>,
    String,
>)
    ensures
        targets_listed(reply, r),
{
    match reply {
        Err(cause) => Err(prefixed("获取项目 targets 失败: ", cause.as_str())),
        Ok(entries) => {
            let ghost all = entries@;
            let mut targets: Vec<MoetranProjectTarget> = Vec::new();
            for raw in it: entries
                invariant
                    it.seq() == all,
                    targets@ == all.take(it.index()).filter_map(
                        |raw: RawProjectTarget| target_of(raw),
                    ),
            {
                proof {
                    assert(all.take(it.index() + 1).drop_last() =~= all.take(it.index()));
                    assert(all.take(it.index() + 1).last() == raw);
                }
                match raw.id {
                    Some(id) => {
                        let translated = match raw.translated_source_count {
                            Some(n) => n,
                            None => 0,
                        };
                        let checked = match raw.checked_source_count {
                            Some(n) => n,
                            None => 0,
                        };
                        targets.push(
                            MoetranProjectTarget {
                                id,
                                translated_source_count: translated,
                                checked_source_count: checked,
                            },
                        );
                    },
                    None => {},
                }
                assert(targets@ =~= all.take(it.index() + 1).filter_map(
                    |raw: RawProjectTarget| target_of(raw),
                ));
            }
            assert(all.take(all.len() as int) =~= all);
            Ok(targets)
        },
    }
}

/// What the request for a project's pages returns: the pages that the
/// entries of the answer describe, in the answer's order.
pub open spec fn files_listed(
    reply: Result<Vec<RawProjectFile>, String>,
    r: Result<Vec<MoetranProjectFile>, String>,
) -> bool {
    match reply {
        Err(cause) => r matches Err(m) && m@ == "获取项目 files 失败: "@ + cause@,
        Ok(entries) => r matches Ok(files) && files@ == entries@.filter_map(
            |raw: RawProjectFile| file_of(raw),
        ),
    }
}

/// What the request for a project's pages returns, given the answer of the
/// call.
pub fn get_project_files(reply: Result<Vec<RawProjectFile>, String>) -> (r: Result<
    Vec<MoetranProjectFile>,
    String,
>)
    ensures
        files_listed(reply, r),
{
    match reply {
        Err(cause) => Err(prefixed("获取项目 files 失败: ", cause.as_str())),
        Ok(entries) => {
            let ghost all = entries@;
            let mut files: Vec<MoetranProjectFile> = Vec::new();
            for raw in it: entries
                invariant
                    it.seq() == all,
                    files@ == all.take(it.index()).filter_map(|raw: RawProjectFile| file_of(raw)),
            {
                proof {
                    assert(all.take(it.index() + 1).drop_last() =~= all.take(it.index()));
                    assert(all.take(it.index() + 1).last() == raw);
                }
                let source_count = match raw.source_count {
                    Some(n) => n,
                    None => 0,
                };
                match (raw.id, raw.name, raw.url) {
                    (Some(id), Some(name), Some(url)) => {
                        files.push(MoetranProjectFile { id, name, source_count, url });
                    },
                    _ => {},
                }
                assert(files@ =~= all.take(it.index() + 1).filter_map(
                    |raw: RawProjectFile| file_of(raw),
                ));
            }
            assert(all.take(all.len() as int) =~= all);
            Ok(files)
        },
    }
}

} // verus!
