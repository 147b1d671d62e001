//! The cache manager's operations, as far as they decide anything: what a
//! finished download writes into the table of cache records and what it
//! reports, and what the other operations answer.
//!
//! The table of cache records is handed in by the caller. Where none is at
//! hand, a download goes on without it and reports by the files alone; a
//! deletion and the two queries fail.

use vstd::prelude::*;
use crate::image_cache::scheduler::DownloadScheduler;
use crate::image_cache::CacheError;
use crate::storage::cache_metadata::{
    delete_cached_project_metadata, get_all_cached_projects, get_cached_project_metadata,
    lists_table, newest_first, upsert_cached_project, views_of, CachedProjectMetadata,
    MetadataStore, RecordView,
};

verus! {

/// How many of the sizes are known: the number of files that are on disk.
pub open spec fn stored_count(sizes: Seq<Option<u64>>) -> nat
    decreases sizes.len(),
{
    if sizes.len() == 0 {
        0
    } else {
        stored_count(sizes.drop_last()) + if sizes.last() is Some {
            1nat
        } else {
            0nat
        }
    }
}

/// The sum of the sizes that are known: what the files take on disk.
pub open spec fn stored_bytes(sizes: Seq<Option<u64>>) -> nat
    decreases sizes.len(),
{
    if sizes.len() == 0 {
        0
    } else {
        stored_bytes(sizes.drop_last()) + match sizes.last() {
            Some(size) => size as nat,
            None => 0nat,
        }
    }
}

/// Count and size of more files are no less than those of the first of them.
pub proof fn lemma_totals_grow(sizes: Seq<Option<u64>>, n: int)
    requires
        0 <= n <= sizes.len(),
    ensures
        stored_count(sizes.take(n)) <= stored_count(sizes),
        stored_bytes(sizes.take(n)) <= stored_bytes(sizes),
        stored_count(sizes) <= sizes.len(),
    decreases sizes.len(),
{
    if sizes.len() == 0 {
        assert(sizes.take(n) =~= sizes);
    } else if n == sizes.len() {
        assert(sizes.take(n) =~= sizes);
        lemma_totals_grow(sizes.drop_last(), n - 1);
    } else {
        assert(sizes.drop_last().take(n) =~= sizes.take(n));
        lemma_totals_grow(sizes.drop_last(), n);
    }
}

/// What a project's files take on disk.
#[derive(Debug)]
pub struct CacheTotals {
    /// How many files are on disk.
    pub file_count: i64,
    /// The sum of their sizes, in bytes.
    pub total_size_bytes: i64,
}

/// Counts the files that are on disk and adds up their sizes. `sizes[i]` is
/// the size of the file with index `i`, or nothing if that file is missing or
/// cannot be examined. The totals are those of what is on disk, not of what
/// was asked for. There is no answer where a total does not fit the 64 bits
/// of a record's column.
pub fn cache_totals(sizes: &Vec<Option<u64>>) -> (totals: Option<CacheTotals>)
    ensures
        totals is Some <==> stored_count(sizes@) <= i64::MAX && stored_bytes(sizes@) <= i64::MAX,
        totals matches Some(t) ==> t.file_count == stored_count(sizes@) && t.total_size_bytes
            == stored_bytes(sizes@),
{
    let mut file_count: i64 = 0;
    let mut total_size_bytes: i64 = 0;
    let mut i: usize = 0;
    while i < sizes.len()
        invariant
            i <= sizes.len(),
            file_count == stored_count(sizes@.take(i as int)),
            total_size_bytes == stored_bytes(sizes@.take(i as int)),
        decreases sizes.len() - i,
    {
        proof {
            assert(sizes@.take(i + 1).drop_last() =~= sizes@.take(i as int));
            lemma_totals_grow(sizes@, i + 1);
        }
        match sizes[i] {
            Some(size) => {
                if file_count == i64::MAX || size > (i64::MAX - total_size_bytes) as u64 {
                    return None;
                }
                file_count = file_count + 1;
                total_size_bytes = total_size_bytes + size as i64;
            },
            None => {},
        }
        i += 1;
    }
    proof {
        assert(sizes@.take(i as int) =~= sizes@);
    }
    Some(CacheTotals { file_count, total_size_bytes })
}

/// The status that a download leaves in its record.
pub open spec fn status_of(any_failed: bool) -> Seq<char> {
    if any_failed {
        "failed"@
    } else {
        "completed"@
    }
}

/// The record that a download leaves behind.
pub open spec fn record_of(
    project_id: Seq<char>,
    project_name: Seq<char>,
    any_failed: bool,
    totals: CacheTotals,
    cached_at: i64,
) -> RecordView {
    RecordView {
        project_id,
        project_name,
        status: status_of(any_failed),
        file_count: totals.file_count as int,
        total_size_bytes: totals.total_size_bytes as int,
        cached_at: cached_at as int,
    }
}

/// The table after an operation that writes `change` where a table is at
/// hand, and goes on without one where none is.
pub open spec fn written(
    store: Option<MetadataStore>,
    change: spec_fn(Map<Seq<char>, RecordView>) -> Map<Seq<char>, RecordView>,
    after: Option<MetadataStore>,
) -> bool {
    match store {
        Some(before) => after matches Some(now) && now@ == change(before@),
        None => after is None,
    }
}

/// Whether the project has a cache: whether its directory exists. What the
/// directory holds is not looked at; an empty one counts.
pub fn check_file_cache(dir_exists: bool) -> (r: Result<bool, CacheError>)
    ensures
        r == Ok::<bool, CacheError>(dir_exists),
{
    Ok(dir_exists)
}

/// Concludes a download of a project's files. `run` is the scheduler of the
/// download, in which every unit has run to its end, `totals` what the
/// project's files take on disk now, and `cached_at` the time in seconds
/// since the Unix epoch.
///
/// The project's record is written into the table, over any earlier one,
/// with the status `failed` if a fetch failed and `completed` otherwise, and
/// with the totals of what is on disk. A download in which a fetch failed
/// reports an error, though the files that were fetched stay and are counted.
pub fn download_project_files(
    store: &mut Option<MetadataStore>,
    project_id: &str,
    project_name: &str,
    run: &DownloadScheduler,
    totals: CacheTotals,
    cached_at: i64,
) -> (r: Result<(), CacheError>)
    requires
        run@.is_done(),
    ensures
        written(
            *old(store),
            |table: Map<Seq<char>, RecordView>|
                table.insert(
                    project_id@,
                    record_of(project_id@, project_name@, run@.any_failed(), totals, cached_at),
                ),
            *final(store),
        ),
        run@.any_failed() ==> r == Err::<(), CacheError>(CacheError::PartialFailure),
        !run@.any_failed() ==> r is Ok,
{
    let any_failed = run.any_failed();
    let status = if any_failed {
        "failed"
    } else {
        "completed"
    };
    let metadata = CachedProjectMetadata {
        project_id: String::from_str(project_id),
        project_name: String::from_str(project_name),
        status: String::from_str(status),
        file_count: totals.file_count,
        total_size_bytes: totals.total_size_bytes,
        cached_at,
    };
    match store {
        Some(table) => {
            upsert_cached_project(table, &metadata);
        },
        None => {},
    }
    if any_failed {
        Err(CacheError::PartialFailure)
    } else {
        Ok(())
    }
}

/// Concludes the deletion of a project's cache. `removed` says how the
/// removal of the project's directory went; a directory that was not there
/// counts as removed. Where the removal failed, that is the error and the
/// table stays as it is. Otherwise the project's record is taken out of the
/// table; without a table that cannot be done, and is an error, though the
/// directory is gone.
pub fn delete_file_cache(
    store: &mut Option<MetadataStore>,
    project_id: &str,
    removed: Result<(), String>,
) -> (r: Result<(), CacheError>)
    ensures
        removed matches Err(cause) ==> *final(store) == *old(store) && r == Err::<(), CacheError>(
            CacheError::RemoveDir { cause },
        ),
        removed is Ok && *old(store) is Some ==> r is Ok && written(
            *old(store),
            |table: Map<Seq<char>, RecordView>| table.remove(project_id@),
            *final(store),
        ),
        removed is Ok && *old(store) is None ==> r == Err::<(), CacheError>(
            CacheError::StoreUnavailable,
        ) && *final(store) is None,
{
    match removed {
        Err(cause) => Err(CacheError::RemoveDir { cause }),
        Ok(_) => {
            match store {
                Some(table) => {
                    delete_cached_project_metadata(table, project_id);
                    Ok(())
                },
                None => Err(CacheError::StoreUnavailable),
            }
        },
    }
}

/// The records of all cached projects, the most recently cached first.
pub fn get_all_cached_projects_list(store: &Option<MetadataStore>) -> (r: Result<
    Vec<CachedProjectMetadata>,
    CacheError,
>)
    ensures
        store is None ==> r == Err::<Vec<CachedProjectMetadata>, CacheError>(
            CacheError::StoreUnavailable,
        ),
        store matches Some(table) ==> (r matches Ok(list) && lists_table(views_of(list@), table@)
            && newest_first(views_of(list@))),
{
    match store {
        Some(table) => Ok(get_all_cached_projects(table)),
        None => Err(CacheError::StoreUnavailable),
    }
}

/// The record of one project, if it has one.
pub fn get_cached_project_info(store: &Option<MetadataStore>, project_id: &str) -> (r: Result<
    Option<CachedProjectMetadata>,
    CacheError,
>)
    ensures
        store is None ==> r == Err::<Option<CachedProjectMetadata>, CacheError>(
            CacheError::StoreUnavailable,
        ),
        store matches Some(table) ==> (r matches Ok(found) && (found is Some
            <==> table@.contains_key(project_id@)) && (found matches Some(record) ==> record@
            == table@[project_id@])),
{
    match store {
        Some(table) => Ok(get_cached_project_metadata(table, project_id)),
        None => Err(CacheError::StoreUnavailable),
    }
}

} // verus!
