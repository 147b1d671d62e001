//! The table of cache records: one row for each project whose images were
//! downloaded, keyed by the project's id.
//!
//! The table lives in memory. An application that wants the rows to outlast
//! the process writes every change through to a database of its own.

use vstd::prelude::*;
use crate::text::str_eq;

verus! {

/// What the cache knows of one project after the last download of its images.
#[derive(Debug)]
pub struct CachedProjectMetadata {
    pub project_id: String,
    pub project_name: String,
    /// `completed` or `failed`.
    pub status: String,
    /// How many of the project's files are on disk.
    pub file_count: i64,
    /// What those files take on disk, in bytes.
    pub total_size_bytes: i64,
    /// When the download ended, in seconds since the Unix epoch.
    pub cached_at: i64,
}

/// A cache record as a mathematical value.
pub struct RecordView {
    pub project_id: Seq<char>,
    pub project_name: Seq<char>,
    pub status: Seq<char>,
    pub file_count: int,
    pub total_size_bytes: int,
    pub cached_at: int,
}

impl View for CachedProjectMetadata {
    type V = RecordView;

    open spec fn view(&self) -> RecordView {
        RecordView {
            project_id: self.project_id@,
            project_name: self.project_name@,
            status: self.status@,
            file_count: self.file_count as int,
            total_size_bytes: self.total_size_bytes as int,
            cached_at: self.cached_at as int,
        }
    }
}

impl CachedProjectMetadata {
    /// A copy of the record.
    pub fn duplicate(&self) -> (copy: CachedProjectMetadata)
        ensures
            copy@ == self@,
    {
        CachedProjectMetadata {
            project_id: self.project_id.clone(),
            project_name: self.project_name.clone(),
            status: self.status.clone(),
            file_count: self.file_count,
            total_size_bytes: self.total_size_bytes,
            cached_at: self.cached_at,
        }
    }

    /// The record that a row of the table stands for, column by column.
    pub fn from_row(row: (String, String, String, i64, i64, i64)) -> (record: CachedProjectMetadata)
        ensures
            record.project_id == row.0,
            record.project_name == row.1,
            record.status == row.2,
            record.file_count == row.3,
            record.total_size_bytes == row.4,
            record.cached_at == row.5,
    {
        CachedProjectMetadata {
            project_id: row.0,
            project_name: row.1,
            status: row.2,
            file_count: row.3,
            total_size_bytes: row.4,
            cached_at: row.5,
        }
    }
}

/// No two rows have the same project id.
pub open spec fn unique_ids(rows: Seq<RecordView>) -> bool {
    forall|i: int, j: int|
        0 <= i < j < rows.len() ==> (#[trigger] rows[i]).project_id != (#[trigger] rows[j]).project_id
}

/// Some row has the project id `id`.
pub open spec fn has_row(rows: Seq<RecordView>, id: Seq<char>) -> bool {
    exists|i: int| 0 <= i < rows.len() && (#[trigger] rows[i]).project_id == id
}

/// The place of a row with project id `id`.
pub open spec fn row_index(rows: Seq<RecordView>, id: Seq<char>) -> int {
    choose|i: int| 0 <= i < rows.len() && (#[trigger] rows[i]).project_id == id
}

/// The table that the rows make up: each row under its project id.
pub open spec fn table_of(rows: Seq<RecordView>) -> Map<Seq<char>, RecordView> {
    Map::new(|id: Seq<char>| has_row(rows, id), |id: Seq<char>| rows[row_index(rows, id)])
}

/// With unique ids, the row at `i` is the one the table holds under its id.
pub proof fn lemma_table_row(rows: Seq<RecordView>, i: int)
    requires
        unique_ids(rows),
        0 <= i < rows.len(),
    ensures
        table_of(rows).contains_key(rows[i].project_id),
        table_of(rows)[rows[i].project_id] == rows[i],
        row_index(rows, rows[i].project_id) == i,
{
    let id = rows[i].project_id;
    assert(has_row(rows, id));
    let c = row_index(rows, id);
    if c < i {
        assert(rows[c].project_id != rows[i].project_id);
    } else if i < c {
        assert(rows[i].project_id != rows[c].project_id);
    }
}

/// The records are listed newest first.
pub open spec fn newest_first(list: Seq<RecordView>) -> bool {
    forall|j: int, k: int|
        0 <= j < k < list.len() ==> (#[trigger] list[j]).cached_at >= (#[trigger] list[k]).cached_at
}

/// `list` holds the rows of `table`, each once.
pub open spec fn lists_table(list: Seq<RecordView>, table: Map<Seq<char>, RecordView>) -> bool {
    &&& unique_ids(list)
    &&& forall|j: int|
        0 <= j < list.len() ==> table.contains_key((#[trigger] list[j]).project_id)
            && table[list[j].project_id] == list[j]
    &&& forall|id: Seq<char>| #[trigger] table.contains_key(id) ==> has_row(list, id)
}

/// The views of the records in `v`.
pub open spec fn views_of(v: Seq<CachedProjectMetadata>) -> Seq<RecordView> {
    Seq::new(v.len(), |i: int| v[i]@)
}

/// The table of cache records.
pub struct MetadataStore {
    rows: Vec<CachedProjectMetadata>,
}

impl View for MetadataStore {
    type V = Map<Seq<char>, RecordView>;

    closed spec fn view(&self) -> Map<Seq<char>, RecordView> {
        table_of(views_of(self.rows@))
    }
}

impl MetadataStore {
    #[verifier::type_invariant]
    spec fn inv(self) -> bool {
        unique_ids(views_of(self.rows@))
    }

    /// A table without rows.
    pub fn new() -> (store: MetadataStore)
        ensures
            store@ == Map::<Seq<char>, RecordView>::empty(),
    {
        let store = MetadataStore { rows: Vec::new() };
        assert(store@ =~= Map::<Seq<char>, RecordView>::empty());
        store
    }

    /// The place of the row with project id `project_id`, if there is one.
    fn find(&self, project_id: &str) -> (at: Option<usize>)
        ensures
            match at {
                Some(i) => i < self.rows.len() && self.rows[i as int].project_id@ == project_id@,
                None => !has_row(views_of(self.rows@), project_id@),
            },
    {
        let mut i: usize = 0;
        while i < self.rows.len()
            invariant
                i <= self.rows.len(),
                forall|j: int| 0 <= j < i ==> self.rows[j].project_id@ != project_id@,
            decreases self.rows.len() - i,
        {
            if str_eq(self.rows[i].project_id.as_str(), project_id) {
                return Some(i);
            }
            i += 1;
        }
        proof {
            let rows = views_of(self.rows@);
            assert forall|j: int| 0 <= j < rows.len() implies (#[trigger] rows[j]).project_id
                != project_id@ by {
                assert(rows[j] == self.rows[j]@);
            }
        }
        None
    }
}

/// Writes `metadata` into the table: a new row if the project has none, and
/// otherwise its row is replaced whole.
pub fn upsert_cached_project(store: &mut MetadataStore, metadata: &CachedProjectMetadata)
    ensures
        final(store)@ == old(store)@.insert(metadata.project_id@, metadata@),
{
    proof {
        use_type_invariant(&*store);
    }
    let found = store.find(metadata.project_id.as_str());
    let mut taken = MetadataStore::new();
    core::mem::swap(store, &mut taken);
    let MetadataStore { mut rows } = taken;
    let ghost before = views_of(rows@);
    match found {
        Some(i) => {
            rows.set(i, metadata.duplicate());
            proof {
                let after = views_of(rows@);
                assert(after =~= before.update(i as int, metadata@));
                assert(before[i as int].project_id == metadata@.project_id);
                lemma_update_row(before, i as int, metadata@);
            }
        },
        None => {
            rows.push(metadata.duplicate());
            proof {
                let after = views_of(rows@);
                assert(after =~= before.push(metadata@));
                lemma_push_row(before, metadata@);
            }
        },
    }
    *store = MetadataStore { rows };
}

/// Replacing a row by one with the same id overwrites it in the table.
proof fn lemma_update_row(rows: Seq<RecordView>, i: int, record: RecordView)
    requires
        unique_ids(rows),
        0 <= i < rows.len(),
        rows[i].project_id == record.project_id,
    ensures
        unique_ids(rows.update(i, record)),
        table_of(rows.update(i, record)) == table_of(rows).insert(record.project_id, record),
{
    let after = rows.update(i, record);
    assert forall|a: int, b: int| 0 <= a < b < after.len() implies (#[trigger] after[a]).project_id
        != (#[trigger] after[b]).project_id by {
        assert(after[a].project_id == rows[a].project_id);
        assert(after[b].project_id == rows[b].project_id);
    }
    let lhs = table_of(after);
    let rhs = table_of(rows).insert(record.project_id, record);
    assert forall|id: Seq<char>| lhs.contains_key(id) <==> rhs.contains_key(id) by {
        if lhs.contains_key(id) {
            let k = row_index(after, id);
            assert(rows[k].project_id == id);
        }
        if rhs.contains_key(id) {
            if id == record.project_id {
                assert(after[i].project_id == id);
            } else {
                let k = row_index(rows, id);
                assert(after[k].project_id == id);
            }
        }
    }
    assert forall|id: Seq<char>| lhs.contains_key(id) implies lhs[id] == rhs[id] by {
        let k = row_index(after, id);
        lemma_table_row(after, k);
        if k != i {
            assert(after[k] == rows[k]);
            lemma_table_row(rows, k);
        }
    }
    assert(lhs =~= rhs);
}

/// Adding a row with an id that no row has adds it to the table.
proof fn lemma_push_row(rows: Seq<RecordView>, record: RecordView)
    requires
        unique_ids(rows),
        !has_row(rows, record.project_id),
    ensures
        unique_ids(rows.push(record)),
        table_of(rows.push(record)) == table_of(rows).insert(record.project_id, record),
{
    let after = rows.push(record);
    assert forall|a: int, b: int| 0 <= a < b < after.len() implies (#[trigger] after[a]).project_id
        != (#[trigger] after[b]).project_id by {
        assert(after[a] == rows[a]);
        if b < rows.len() {
            assert(after[b] == rows[b]);
        }
    }
    let lhs = table_of(after);
    let rhs = table_of(rows).insert(record.project_id, record);
    assert forall|id: Seq<char>| lhs.contains_key(id) <==> rhs.contains_key(id) by {
        if lhs.contains_key(id) {
            let k = row_index(after, id);
            if k < rows.len() {
                assert(rows[k].project_id == id);
            }
        }
        if rhs.contains_key(id) {
            if id == record.project_id {
                assert(after[rows.len() as int].project_id == id);
            } else {
                let k = row_index(rows, id);
                assert(after[k].project_id == id);
            }
        }
    }
    assert forall|id: Seq<char>| lhs.contains_key(id) implies lhs[id] == rhs[id] by {
        let k = row_index(after, id);
        lemma_table_row(after, k);
        if k < rows.len() {
            assert(after[k] == rows[k]);
            lemma_table_row(rows, k);
        }
    }
    assert(lhs =~= rhs);
}

/// Taking a row out takes its id out of the table.
proof fn lemma_remove_row(rows: Seq<RecordView>, i: int)
    requires
        unique_ids(rows),
        0 <= i < rows.len(),
    ensures
        unique_ids(rows.remove(i)),
        table_of(rows.remove(i)) == table_of(rows).remove(rows[i].project_id),
{
    let after = rows.remove(i);
    let gone = rows[i].project_id;
    assert forall|a: int| 0 <= a < after.len() implies #[trigger] after[a] == rows[if a < i {
        a
    } else {
        a + 1
    }] by {}
    assert forall|a: int, b: int| 0 <= a < b < after.len() implies (#[trigger] after[a]).project_id
        != (#[trigger] after[b]).project_id by {
        let x = if a < i { a } else { a + 1 };
        let y = if b < i { b } else { b + 1 };
        assert(after[a] == rows[x]);
        assert(after[b] == rows[y]);
        assert(rows[x].project_id != rows[y].project_id);
    }
    let lhs = table_of(after);
    let rhs = table_of(rows).remove(gone);
    assert forall|id: Seq<char>| lhs.contains_key(id) <==> rhs.contains_key(id) by {
        if lhs.contains_key(id) {
            let k = row_index(after, id);
            let x = if k < i { k } else { k + 1 };
            assert(after[k] == rows[x]);
            assert(rows[x].project_id == id);
            if x < i {
                assert(rows[x].project_id != rows[i].project_id);
            } else {
                assert(rows[i].project_id != rows[x].project_id);
            }
        }
        if rhs.contains_key(id) {
            let k = row_index(rows, id);
            assert(k != i);
            let a = if k < i { k } else { k - 1 };
            assert(after[a] == rows[k]);
            assert(after[a].project_id == id);
        }
    }
    assert forall|id: Seq<char>| lhs.contains_key(id) implies lhs[id] == rhs[id] by {
        let k = row_index(after, id);
        lemma_table_row(after, k);
        let x = if k < i { k } else { k + 1 };
        assert(after[k] == rows[x]);
        lemma_table_row(rows, x);
    }
    assert(lhs =~= rhs);
}

/// Takes the project's row out of the table, if it has one.
pub fn delete_cached_project_metadata(store: &mut MetadataStore, project_id: &str)
    ensures
        final(store)@ == old(store)@.remove(project_id@),
{
    proof {
        use_type_invariant(&*store);
    }
    let found = store.find(project_id);
    match found {
        Some(i) => {
            let mut taken = MetadataStore::new();
            core::mem::swap(store, &mut taken);
            let MetadataStore { mut rows } = taken;
            let ghost before = views_of(rows@);
            rows.remove(i);
            proof {
                assert(views_of(rows@) =~= before.remove(i as int));
                lemma_remove_row(before, i as int);
            }
            *store = MetadataStore { rows };
        },
        None => {
            assert(store@ =~= store@.remove(project_id@));
        },
    }
}

/// The project's row, if it has one.
pub fn get_cached_project_metadata(store: &MetadataStore, project_id: &str) -> (found: Option<
    CachedProjectMetadata,
>)
    ensures
        found is Some <==> store@.contains_key(project_id@),
        found matches Some(record) ==> record@ == store@[project_id@],
{
    proof {
        use_type_invariant(store);
    }
    match store.find(project_id) {
        Some(i) => {
            proof {
                let rows = views_of(store.rows@);
                assert(rows[i as int] == store.rows[i as int]@);
                lemma_table_row(rows, i as int);
            }
            Some(store.rows[i].duplicate())
        },
        None => None,
    }
}

/// Every one of `rows` stands somewhere in `list`.
pub open spec fn covers(list: Seq<RecordView>, rows: Seq<RecordView>) -> bool {
    forall|k: int| 0 <= k < rows.len() ==> list.contains(#[trigger] rows[k])
}

/// All rows of the table, the most recently cached project first.
pub fn get_all_cached_projects(store: &MetadataStore) -> (list: Vec<CachedProjectMetadata>)
    ensures
        lists_table(views_of(list@), store@),
        newest_first(views_of(list@)),
{
    proof {
        use_type_invariant(store);
    }
    let ghost rows = views_of(store.rows@);
    let mut list: Vec<CachedProjectMetadata> = Vec::new();
    let mut i: usize = 0;
    while i < store.rows.len()
        invariant
            i <= store.rows.len(),
            rows == views_of(store.rows@),
            list.len() == i,
            newest_first(views_of(list@)),
            covers(views_of(list@), rows.take(i as int)),
            covers(rows.take(i as int), views_of(list@)),
        decreases store.rows.len() - i,
    {
        let record = store.rows[i].duplicate();
        let ghost before = views_of(list@);
        let mut at: usize = 0;
        while at < list.len() && list[at].cached_at >= record.cached_at
            invariant
                at <= list.len(),
                before == views_of(list@),
                forall|j: int| 0 <= j < at ==> (#[trigger] before[j]).cached_at >= record.cached_at,
            decreases list.len() - at,
        {
            assert(before[at as int] == list[at as int]@);
            at += 1;
        }
        proof {
            if at < list.len() {
                assert(before[at as int] == list[at as int]@);
            }
            assert(rows[i as int] == store.rows[i as int]@);
        }
        list.insert(at, record);
        proof {
            assert(views_of(list@) =~= before.insert(at as int, rows[i as int]));
            lemma_insert_keeps_order(before, at as int, rows[i as int]);
            lemma_insert_covers(before, at as int, rows, i as int);
        }
        i += 1;
    }
    proof {
        assert(rows.take(i as int) =~= rows);
        lemma_arrangement_lists_table(rows, views_of(list@));
    }
    list
}

/// A record put in behind all that are at least as new, and before one that
/// is older, leaves the list newest first.
proof fn lemma_insert_keeps_order(list: Seq<RecordView>, at: int, record: RecordView)
    requires
        newest_first(list),
        0 <= at <= list.len(),
        forall|j: int| 0 <= j < at ==> (#[trigger] list[j]).cached_at >= record.cached_at,
        at < list.len() ==> list[at].cached_at < record.cached_at,
    ensures
        newest_first(list.insert(at, record)),
{
    let after = list.insert(at, record);
    assert forall|j: int, k: int| 0 <= j < k < after.len() implies (#[trigger] after[j]).cached_at
        >= (#[trigger] after[k]).cached_at by {
        if k < at {
            assert(after[j] == list[j] && after[k] == list[k]);
        } else if k == at {
            assert(after[j] == list[j]);
        } else if j < at {
            assert(after[j] == list[j] && after[k] == list[k - 1]);
        } else if j == at {
            assert(after[k] == list[k - 1]);
            if k - 1 > at {
                assert(list[at].cached_at >= list[k - 1].cached_at);
            }
        } else {
            assert(after[j] == list[j - 1] && after[k] == list[k - 1]);
        }
    }
}

/// A list that holds exactly the first `i` rows holds exactly the first
/// `i + 1` once row `i` is put into it.
proof fn lemma_insert_covers(list: Seq<RecordView>, at: int, rows: Seq<RecordView>, i: int)
    requires
        0 <= at <= list.len(),
        0 <= i < rows.len(),
        covers(list, rows.take(i)),
        covers(rows.take(i), list),
    ensures
        covers(list.insert(at, rows[i]), rows.take(i + 1)),
        covers(rows.take(i + 1), list.insert(at, rows[i])),
{
    let after = list.insert(at, rows[i]);
    let fewer = rows.take(i);
    let more = rows.take(i + 1);
    assert forall|k: int| 0 <= k < more.len() implies after.contains(#[trigger] more[k]) by {
        if k < i {
            assert(more[k] == fewer[k]);
            assert(list.contains(fewer[k]));
            let j = choose|j: int| 0 <= j < list.len() && list[j] == fewer[k];
            if j < at {
                assert(after[j] == more[k]);
            } else {
                assert(after[j + 1] == more[k]);
            }
        } else {
            assert(after[at] == more[k]);
        }
    }
    assert forall|j: int| 0 <= j < after.len() implies more.contains(#[trigger] after[j]) by {
        if j == at {
            assert(more[i] == after[j]);
        } else {
            let j0 = if j < at {
                j
            } else {
                j - 1
            };
            assert(after[j] == list[j0]);
            assert(fewer.contains(list[j0]));
            let k = choose|k: int| 0 <= k < fewer.len() && fewer[k] == list[j0];
            assert(more[k] == after[j]);
        }
    }
}

/// A list as long as the rows, that holds every row and nothing else, lists
/// the table.
proof fn lemma_arrangement_lists_table(rows: Seq<RecordView>, list: Seq<RecordView>)
    requires
        unique_ids(rows),
        list.len() == rows.len(),
        covers(rows, list),
        covers(list, rows),
    ensures
        lists_table(list, table_of(rows)),
{
    let table = table_of(rows);
    assert forall|j: int| 0 <= j < list.len() implies table.contains_key(
        (#[trigger] list[j]).project_id,
    ) && table[list[j].project_id] == list[j] by {
        assert(rows.contains(list[j]));
        let k = choose|k: int| 0 <= k < rows.len() && rows[k] == list[j];
        lemma_table_row(rows, k);
    }
    assert forall|id: Seq<char>| #[trigger] table.contains_key(id) implies has_row(list, id) by {
        let k = row_index(rows, id);
        assert(list.contains(rows[k]));
        let j = choose|j: int| 0 <= j < list.len() && list[j] == rows[k];
        assert(list[j].project_id == id);
    }
    assert forall|a: int, b: int| 0 <= a < b < list.len() implies (#[trigger] list[a]).project_id
        != (#[trigger] list[b]).project_id by {
        if list[a].project_id == list[b].project_id {
            // Both entries stand for the same row, so the list without the
            // second still holds every row, though it is too short for that.
            assert(rows.contains(list[a]) && rows.contains(list[b]));
            let ka = choose|k: int| 0 <= k < rows.len() && rows[k] == list[a];
            let kb = choose|k: int| 0 <= k < rows.len() && rows[k] == list[b];
            if ka < kb {
                assert(rows[ka].project_id != rows[kb].project_id);
            } else if kb < ka {
                assert(rows[kb].project_id != rows[ka].project_id);
            }
            assert(list[a] == list[b]);
            let fewer = list.remove(b);
            assert forall|k: int| 0 <= k < rows.len() implies fewer.contains(#[trigger] rows[k]) by {
                assert(list.contains(rows[k]));
                let j = choose|j: int| 0 <= j < list.len() && list[j] == rows[k];
                if j < b {
                    assert(fewer[j] == rows[k]);
                } else if j == b {
                    assert(fewer[a] == rows[k]);
                } else {
                    assert(fewer[j - 1] == rows[k]);
                }
            }
            lemma_cover_needs_length(rows, fewer);
        }
    }
}

/// A list that holds every one of some rows with unique ids is at least as
/// long as they are.
proof fn lemma_cover_needs_length(rows: Seq<RecordView>, list: Seq<RecordView>)
    requires
        unique_ids(rows),
        covers(list, rows),
    ensures
        list.len() >= rows.len(),
    decreases rows.len(),
{
    if rows.len() > 0 {
        let last = rows.len() - 1;
        assert(list.contains(rows[last]));
        let j = choose|j: int| 0 <= j < list.len() && list[j] == rows[last];
        let fewer_rows = rows.drop_last();
        let fewer = list.remove(j);
        assert forall|x: int, y: int| 0 <= x < y < fewer_rows.len() implies (
        #[trigger] fewer_rows[x]).project_id != (#[trigger] fewer_rows[y]).project_id by {
            assert(fewer_rows[x] == rows[x] && fewer_rows[y] == rows[y]);
        }
        assert forall|k: int| 0 <= k < fewer_rows.len() implies fewer.contains(
            #[trigger] fewer_rows[k],
        ) by {
            assert(fewer_rows[k] == rows[k]);
            assert(list.contains(rows[k]));
            let m = choose|m: int| 0 <= m < list.len() && list[m] == rows[k];
            assert(rows[k].project_id != rows[last].project_id);
            if m < j {
                assert(fewer[m] == list[m]);
            } else {
                assert(fewer[m - 1] == list[m]);
            }
        }
        lemma_cover_needs_length(fewer_rows, fewer);
    }
}

} // verus!
