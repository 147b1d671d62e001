//! A project's cache directory as a mathematical value, and what a download
//! and a deletion do to it.
//!
//! The application writes the files; here its part is taken to be this: the
//! fetch of a file that succeeds leaves the fetched bytes under the name that
//! the cache gives the file, a fetch that fails leaves nothing, and nothing
//! else in the directory changes. What is stated below holds of every
//! application that keeps to that.

use vstd::prelude::*;
use crate::image_cache::reader::{
    entry_extension, entry_matches, is_first_match, lemma_only_own_file_matches,
    lemma_read_finds_downloaded_file, no_match,
};
use crate::image_cache::scheduler::{
    is_plan_of, lemma_done_means_all_reported, plans, SchedulerView, UnitOutcome, UnitState,
};
use crate::image_cache::manager::stored_count;
use crate::image_cache::{
    content_type_of, extension_of, file_name_of, lemma_file_names_distinct,
};
use crate::storage::cache_metadata::RecordView;

verus! {

/// Whether the file with index `i` of a project is in the directory.
pub open spec fn on_disk(dir: Map<Seq<char>, Seq<u8>>, urls: Seq<Seq<char>>, i: int) -> bool {
    dir.contains_key(file_name_of(i as nat, urls[i]))
}

/// For each file of a project, whether it is in the directory.
pub open spec fn presence(dir: Map<Seq<char>, Seq<u8>>, urls: Seq<Seq<char>>) -> Seq<bool> {
    Seq::new(urls.len(), |i: int| on_disk(dir, urls, i))
}

/// The directory holds nothing but files of the project.
pub open spec fn holds_only(dir: Map<Seq<char>, Seq<u8>>, urls: Seq<Seq<char>>) -> bool {
    forall|name: Seq<char>| #[trigger]
        dir.contains_key(name) ==> exists|j: int|
            0 <= j < urls.len() && name == file_name_of(j as nat, urls[j])
}

/// The run fetched the file with index `i`: its unit ended in success.
pub open spec fn fetched_in(run: SchedulerView, i: int) -> bool {
    exists|k: int|
        0 <= k < run.queue.len() && k < run.units.len() && run.queue[k] == i && #[trigger] run.units[k]
            == UnitState::Finished(UnitOutcome::Succeeded)
}

/// The run wrote the file `name`, as the file with index `i`.
pub open spec fn wrote(urls: Seq<Seq<char>>, run: SchedulerView, i: int, name: Seq<char>) -> bool {
    0 <= i < urls.len() && fetched_in(run, i) && name == file_name_of(i as nat, urls[i])
}

/// The run wrote the file `name`.
pub open spec fn written_by(urls: Seq<Seq<char>>, run: SchedulerView, name: Seq<char>) -> bool {
    exists|i: int| wrote(urls, run, i, name)
}

/// The directory after a download: every file that the run fetched holds
/// the bytes that its fetch returned, and the rest is as before.
/// `bodies[i]` stands for what the fetch of the file with index `i` returns.
pub open spec fn after_download(
    dir: Map<Seq<char>, Seq<u8>>,
    urls: Seq<Seq<char>>,
    run: SchedulerView,
    bodies: Seq<Seq<u8>>,
) -> Map<Seq<char>, Seq<u8>> {
    Map::new(
        |name: Seq<char>| dir.contains_key(name) || written_by(urls, run, name),
        |name: Seq<char>|
            if written_by(urls, run, name) {
                bodies[choose|i: int| wrote(urls, run, i, name)]
            } else {
                dir[name]
            },
    )
}

/// The run is a finished download of the project's files into the
/// directory: it was planned for the files that were missing, and every
/// unit has reported back.
pub open spec fn ran_on(run: SchedulerView, dir: Map<Seq<char>, Seq<u8>>, urls: Seq<Seq<char>>) -> bool {
    run.wf() && is_plan_of(run.queue, presence(dir, urls)) && run.is_done()
}

/// How many of the flags are set.
pub open spec fn count_set(flags: Seq<bool>) -> nat
    decreases flags.len(),
{
    if flags.len() == 0 {
        0
    } else {
        count_set(flags.drop_last()) + if flags.last() {
            1nat
        } else {
            0nat
        }
    }
}

/// What a download leaves on disk: a file is there afterwards exactly if it
/// was there before or the run fetched it. A file that was there is not
/// touched, and a file that was fetched holds what its fetch returned.
pub proof fn lemma_download_effect(
    dir: Map<Seq<char>, Seq<u8>>,
    urls: Seq<Seq<char>>,
    run: SchedulerView,
    bodies: Seq<Seq<u8>>,
)
    requires
        ran_on(run, dir, urls),
    ensures
        forall|i: int|
            0 <= i < urls.len() ==> (#[trigger] on_disk(after_download(dir, urls, run, bodies), urls, i)
                <==> on_disk(dir, urls, i) || fetched_in(run, i)),
        forall|i: int|
            0 <= i < urls.len() && #[trigger] fetched_in(run, i) ==> !on_disk(dir, urls, i)
                && after_download(dir, urls, run, bodies)[file_name_of(i as nat, urls[i])]
                == bodies[i],
        forall|name: Seq<char>| #[trigger]
            dir.contains_key(name) ==> after_download(dir, urls, run, bodies)[name] == dir[name],
{
    let after = after_download(dir, urls, run, bodies);
    assert forall|i: int| 0 <= i < urls.len() && #[trigger] fetched_in(run, i) implies !on_disk(
        dir,
        urls,
        i,
    ) && after[file_name_of(i as nat, urls[i])] == bodies[i] by {
        lemma_fetched_was_missing(dir, urls, run, i);
        let name = file_name_of(i as nat, urls[i]);
        assert(wrote(urls, run, i, name));
        let c = choose|c: int| wrote(urls, run, c, name);
        if c != i {
            lemma_file_names_distinct(c as nat, urls[c], i as nat, urls[i]);
        }
    }
    assert forall|i: int| 0 <= i < urls.len() implies (#[trigger] on_disk(after, urls, i)
        <==> on_disk(dir, urls, i) || fetched_in(run, i)) by {
        let name = file_name_of(i as nat, urls[i]);
        if fetched_in(run, i) {
            assert(wrote(urls, run, i, name));
        }
        if on_disk(after, urls, i) && !on_disk(dir, urls, i) {
            let c = choose|c: int| wrote(urls, run, c, name);
            if c != i {
                lemma_file_names_distinct(c as nat, urls[c], i as nat, urls[i]);
            }
        }
    }
    assert forall|name: Seq<char>| #[trigger] dir.contains_key(name) implies after[name]
        == dir[name] by {
        if written_by(urls, run, name) {
            let c = choose|c: int| wrote(urls, run, c, name);
            lemma_fetched_was_missing(dir, urls, run, c);
        }
    }
}

/// Only files that were missing are fetched.
proof fn lemma_fetched_was_missing(
    dir: Map<Seq<char>, Seq<u8>>,
    urls: Seq<Seq<char>>,
    run: SchedulerView,
    i: int,
)
    requires
        ran_on(run, dir, urls),
        0 <= i < urls.len(),
        fetched_in(run, i),
    ensures
        !on_disk(dir, urls, i),
{
    let k = choose|k: int|
        0 <= k < run.queue.len() && k < run.units.len() && run.queue[k] == i && #[trigger] run.units[k]
            == UnitState::Finished(UnitOutcome::Succeeded);
    assert(!presence(dir, urls)[run.queue[k] as int]);
}

/// Every file that was missing is fetched by a run in which no fetch
/// failed.
proof fn lemma_missing_was_fetched(
    dir: Map<Seq<char>, Seq<u8>>,
    urls: Seq<Seq<char>>,
    run: SchedulerView,
    i: int,
)
    requires
        ran_on(run, dir, urls),
        !run.any_failed(),
        0 <= i < urls.len(),
        !on_disk(dir, urls, i),
    ensures
        fetched_in(run, i),
{
    lemma_done_means_all_reported(run);
    assert(!presence(dir, urls)[i]);
    assert(plans(run.queue, i));
    let k = choose|k: int| 0 <= k < run.queue.len() && run.queue[k] == i;
    assert(run.units[k] == UnitState::Finished(UnitOutcome::Succeeded));
}

/// A download that is repeated has nothing to fetch: after a download in
/// which no fetch failed, every file of the list is on disk, so that the
/// plan of a second download of the same list is empty, and a run of that
/// plan leaves the directory as it is.
pub proof fn lemma_repeated_download_is_idle(
    dir: Map<Seq<char>, Seq<u8>>,
    urls: Seq<Seq<char>>,
    run: SchedulerView,
    bodies: Seq<Seq<u8>>,
    second: SchedulerView,
    second_bodies: Seq<Seq<u8>>,
)
    requires
        ran_on(run, dir, urls),
        !run.any_failed(),
        second.wf(),
        is_plan_of(second.queue, presence(after_download(dir, urls, run, bodies), urls)),
    ensures
        forall|i: int|
            0 <= i < urls.len() ==> #[trigger] on_disk(
                after_download(dir, urls, run, bodies),
                urls,
                i,
            ),
        second.queue.len() == 0,
        second.is_done(),
        !second.any_failed(),
        after_download(after_download(dir, urls, run, bodies), urls, second, second_bodies)
            == after_download(dir, urls, run, bodies),
{
    let after = after_download(dir, urls, run, bodies);
    lemma_download_effect(dir, urls, run, bodies);
    assert forall|i: int| 0 <= i < urls.len() implies #[trigger] on_disk(after, urls, i) by {
        if !on_disk(dir, urls, i) {
            lemma_missing_was_fetched(dir, urls, run, i);
        }
    }
    if second.queue.len() > 0 {
        let i = second.queue[0];
        assert(!presence(after, urls)[i as int]);
        assert(on_disk(after, urls, i as int));
    }
    crate::image_cache::scheduler::lemma_count_bounds(second.units);
    let again = after_download(after, urls, second, second_bodies);
    assert forall|name: Seq<char>| !#[trigger] written_by(urls, second, name) by {
        if written_by(urls, second, name) {
            let i = choose|i: int| wrote(urls, second, i, name);
            assert(fetched_in(second, i));
        }
    }
    assert(again =~= after);
}

/// A fetch that fails takes nothing from the others: after a download,
/// every file whose fetch succeeded is on disk beside those that were
/// there, and a fetch failed exactly if a file of the list is still
/// missing.
pub proof fn lemma_failure_leaves_the_rest(
    dir: Map<Seq<char>, Seq<u8>>,
    urls: Seq<Seq<char>>,
    run: SchedulerView,
    bodies: Seq<Seq<u8>>,
)
    requires
        ran_on(run, dir, urls),
    ensures
        run.any_failed() <==> exists|i: int|
            0 <= i < urls.len() && !#[trigger] on_disk(
                after_download(dir, urls, run, bodies),
                urls,
                i,
            ),
{
    let after = after_download(dir, urls, run, bodies);
    lemma_download_effect(dir, urls, run, bodies);
    lemma_done_means_all_reported(run);
    if run.any_failed() {
        let k = choose|k: int|
            0 <= k < run.units.len() && (#[trigger] run.units[k] matches UnitState::Finished(o)
                && o != UnitOutcome::Succeeded);
        let i = run.queue[k] as int;
        assert(!presence(dir, urls)[i]);
        if fetched_in(run, i) {
            let c = choose|c: int|
                0 <= c < run.queue.len() && c < run.units.len() && run.queue[c] == i && #[trigger] run.units[c]
                    == UnitState::Finished(UnitOutcome::Succeeded);
            if c < k {
                assert(run.queue[c] < run.queue[k]);
            } else if k < c {
                assert(run.queue[k] < run.queue[c]);
            }
        }
        assert(!on_disk(after, urls, i));
    }
    if exists|i: int| 0 <= i < urls.len() && !#[trigger] on_disk(after, urls, i) {
        let i = choose|i: int| 0 <= i < urls.len() && !#[trigger] on_disk(after, urls, i);
        if !run.any_failed() {
            assert(!on_disk(dir, urls, i));
            lemma_missing_was_fetched(dir, urls, run, i);
        }
    }
}

/// The count in a project's record is the number of its files on disk:
/// where a size is known exactly for the files that are there, as many
/// sizes are known as files are there.
pub proof fn lemma_count_is_what_is_there(sizes: Seq<Option<u64>>, there: Seq<bool>)
    requires
        sizes.len() == there.len(),
        forall|i: int| 0 <= i < sizes.len() ==> (#[trigger] sizes[i] is Some <==> there[i]),
    ensures
        stored_count(sizes) == count_set(there),
    decreases sizes.len(),
{
    if sizes.len() > 0 {
        let fewer = sizes.drop_last();
        let fewer_there = there.drop_last();
        assert forall|i: int| 0 <= i < fewer.len() implies (#[trigger] fewer[i] is Some
            <==> fewer_there[i]) by {
            assert(fewer[i] == sizes[i]);
        }
        lemma_count_is_what_is_there(fewer, fewer_there);
        assert(sizes.last() == sizes[sizes.len() - 1]);
    }
}

/// What was downloaded is what is read back. After a download into a
/// directory that held nothing but files of the project, a read of an index
/// whose file was fetched picks that file, whatever the order of the
/// listing: it holds the bytes that the fetch returned, and is served with
/// the content type of the extension that its URL named.
pub proof fn lemma_read_after_download(
    dir: Map<Seq<char>, Seq<u8>>,
    urls: Seq<Seq<char>>,
    run: SchedulerView,
    bodies: Seq<Seq<u8>>,
    names: Seq<Seq<char>>,
    i: int,
)
    requires
        ran_on(run, dir, urls),
        holds_only(dir, urls),
        0 <= i < urls.len(),
        fetched_in(run, i),
        forall|name: Seq<char>|
            names.contains(name) <==> #[trigger] after_download(
                dir,
                urls,
                run,
                bodies,
            ).contains_key(name),
    ensures
        !no_match(names, i as nat),
        forall|at: int| #[trigger]
            is_first_match(names, i as nat, at) ==> {
                &&& names[at] == file_name_of(i as nat, urls[i])
                &&& after_download(dir, urls, run, bodies)[names[at]] == bodies[i]
                &&& content_type_of(entry_extension(names[at])) == content_type_of(
                    extension_of(urls[i]),
                )
            },
{
    let after = after_download(dir, urls, run, bodies);
    let own = file_name_of(i as nat, urls[i]);
    lemma_download_effect(dir, urls, run, bodies);
    assert(wrote(urls, run, i, own));
    assert(after.contains_key(own));
    assert(names.contains(own));
    let p = choose|p: int| 0 <= p < names.len() && names[p] == own;
    crate::image_cache::lemma_file_name_last_dot(i as nat, urls[i]);
    assert(entry_matches(names[p], i as nat));
    assert forall|at: int| #[trigger] is_first_match(names, i as nat, at) implies {
        &&& names[at] == own
        &&& after[names[at]] == bodies[i]
        &&& content_type_of(entry_extension(names[at])) == content_type_of(extension_of(urls[i]))
    } by {
        let name = names[at];
        assert(names.contains(name));
        assert(after.contains_key(name));
        // Every file in the directory is a file of the project, and only the
        // file of index `i` has the stem of `i`.
        let j = if dir.contains_key(name) {
            choose|j: int| 0 <= j < urls.len() && name == file_name_of(j as nat, urls[j])
        } else {
            choose|j: int| wrote(urls, run, j, name)
        };
        assert(0 <= j < urls.len() && name == file_name_of(j as nat, urls[j]));
        if j != i {
            lemma_only_own_file_matches(i as nat, j as nat, urls[j]);
        }
        lemma_read_finds_downloaded_file(names, at, i as nat, urls[i]);
    }
}

/// What the cache holds of one project: its directory, if it has one, and
/// its record, if the table holds one.
pub struct ProjectCache {
    pub dir: Option<Map<Seq<char>, Seq<u8>>>,
    pub record: Option<RecordView>,
}

/// What the cache holds of the project with id `project_id`.
pub open spec fn project_cache(
    dir: Option<Map<Seq<char>, Seq<u8>>>,
    table: Map<Seq<char>, RecordView>,
    project_id: Seq<char>,
) -> ProjectCache {
    ProjectCache {
        dir,
        record: if table.contains_key(project_id) {
            Some(table[project_id])
        } else {
            None
        },
    }
}

/// A deleted cache is gone: once the project's directory is removed and
/// its record is taken out of the table, the project has no cache and no
/// record, whatever it had before.
pub proof fn lemma_deleted_cache_is_gone(table: Map<Seq<char>, RecordView>, project_id: Seq<char>)
    ensures
        project_cache(None, table.remove(project_id), project_id) == (ProjectCache {
            dir: None,
            record: None,
        }),
        forall|other: Seq<char>|
            other != project_id ==> #[trigger] project_cache(
                None,
                table.remove(project_id),
                other,
            ).record == project_cache(None, table, other).record,
{
}

} // verus!
