//! What one seed run does to a curated project, decided from what is stored:
//! whether the project row is inserted, updated or kept, which stored files
//! are removed, which curated files are inserted, updated or kept, and the
//! counts the run reports. The caller reads the rows and carries out the
//! writes in one transaction.

use vstd::prelude::*;
use crate::gallery::PUBLISHED;
use crate::gallery_seed::{
    curated_file_map, file_is_current, file_needs_update, has_key, lemma_reseed_converges,
    lemma_stale_keys_exact, project_is_current, project_needs_update, reseed_files, seed_file_key,
    seed_file_value, seed_keys_distinct, stale_file_keys, stale_keys, stored_file_value,
    upsert_files, FileKey, FileValue, SeedFile, SeedProject, SeedSummary, StoredFile,
    StoredProject,
};
use crate::text::same_text;

verus! {

/// A stored file of a project, as read, with its phase and path.
#[derive(Debug)]
pub struct StoredFileRow {
    pub phase: String,
    pub path: String,
    pub file: StoredFile,
}

/// The key of a stored file: its phase and path.
pub open spec fn row_key(row: StoredFileRow) -> FileKey {
    (row.phase@, row.path@)
}

/// The stored files of a project by key (of two rows with one key, the
/// later stands for it; the database holds one row per key).
pub open spec fn rows_map(rows: Seq<StoredFileRow>) -> Map<FileKey, FileValue>
    decreases rows.len(),
{
    if rows.len() == 0 {
        Map::empty()
    } else {
        rows_map(rows.drop_last()).insert(row_key(rows.last()), stored_file_value(rows.last().file))
    }
}

/// The (phase, path) pairs of the stored files, in stored order.
pub open spec fn row_keys(rows: Seq<StoredFileRow>) -> Seq<(String, String)> {
    rows.map_values(|r: StoredFileRow| (r.phase, r.path))
}

/// What a seed run writes to a row.
#[derive(Debug, Clone, Copy, PartialEq, Eq, Structural)]
pub enum WriteAction {
    /// The row already holds the curated values.
    Keep,
    /// There is no row yet.
    Insert,
    /// The row holds other values.
    Update,
}

/// The fields of a project row that the curated data decides: title,
/// summary, prompt, display order and publication state.
pub type ProjectFields = (Seq<char>, Seq<char>, Seq<char>, i64, Seq<char>);

/// The fields a stored project row holds.
pub open spec fn project_fields(p: StoredProject) -> ProjectFields {
    (p.title@, p.summary@, p.prompt@, p.display_order, p.publication_state@)
}

/// The fields the curated project asks for, published.
pub open spec fn curated_fields(project: SeedProject) -> ProjectFields {
    (project.title@, project.summary@, project.prompt@, project.display_order, PUBLISHED@)
}

/// What a seed run writes to the project row: insert it when there is none,
/// update it when it does not hold the curated fields, else keep it.
pub open spec fn project_action(stored: Option<StoredProject>, project: SeedProject) -> WriteAction {
    match stored {
        None => WriteAction::Insert,
        Some(c) => if project_is_current(c, project) {
            WriteAction::Keep
        } else {
            WriteAction::Update
        },
    }
}

/// What a seed run writes for a curated file: insert it when no stored file
/// has its key, update it when the stored file holds other values, else
/// keep it.
pub open spec fn file_action(stored: Map<FileKey, FileValue>, file: SeedFile) -> WriteAction {
    if !stored.dom().contains(seed_file_key(file)) {
        WriteAction::Insert
    } else if stored[seed_file_key(file)] == seed_file_value(file) {
        WriteAction::Keep
    } else {
        WriteAction::Update
    }
}

/// The write for each curated file, in order.
pub open spec fn file_actions(files: Seq<SeedFile>, stored: Map<FileKey, FileValue>) -> Seq<
    WriteAction,
> {
    Seq::new(files.len(), |i: int| file_action(stored, files[i]))
}

/// How many of the writes are inserts or updates.
pub open spec fn count_writes(actions: Seq<WriteAction>) -> nat
    decreases actions.len(),
{
    if actions.len() == 0 {
        0
    } else {
        count_writes(actions.drop_last()) + if actions.last() is Keep {
            0nat
        } else {
            1nat
        }
    }
}

/// The keys named by a list of (phase, path) pairs.
pub open spec fn key_set(keys: Seq<(String, String)>) -> Set<FileKey> {
    Set::new(|k: FileKey| exists|j: int| 0 <= j < keys.len() && keys[j].0@ == k.0 && keys[j].1@ == k.1)
}

/// The stored files after each curated file marked for a write is written
/// with its curated values, in order.
pub open spec fn write_files(
    stored: Map<FileKey, FileValue>,
    files: Seq<SeedFile>,
    actions: Seq<WriteAction>,
) -> Map<FileKey, FileValue>
    decreases files.len(),
{
    if files.len() == 0 {
        stored
    } else {
        let earlier = write_files(stored, files.drop_last(), actions.drop_last());
        if actions.last() is Keep {
            earlier
        } else {
            earlier.insert(seed_file_key(files.last()), seed_file_value(files.last()))
        }
    }
}

/// The stored files after a seed run removes `remove` and then writes the
/// curated files as `actions` says.
pub open spec fn files_after_plan(
    stored: Map<FileKey, FileValue>,
    files: Seq<SeedFile>,
    remove: Seq<(String, String)>,
    actions: Seq<WriteAction>,
) -> Map<FileKey, FileValue> {
    write_files(stored.remove_keys(key_set(remove)), files, actions)
}

/// The project fields after a seed run carries out `action`.
pub open spec fn project_after_plan(
    stored: Option<StoredProject>,
    project: SeedProject,
    action: WriteAction,
) -> ProjectFields {
    if action is Keep {
        project_fields(stored.unwrap())
    } else {
        curated_fields(project)
    }
}

/// What a seed run does to one curated project.
#[derive(Debug)]
pub struct SeedPlan {
    /// The write to the project row.
    pub project: WriteAction,
    /// The stored files to remove, by (phase, path).
    pub remove: Vec<(String, String)>,
    /// The write for each curated file, in the curated order.
    pub files: Vec<WriteAction>,
}

/// Whether the stored file holds what the curated file asks for.
proof fn lemma_file_is_current_value(current: StoredFile, file: SeedFile)
    ensures
        file_is_current(current, file) <==> stored_file_value(current) == seed_file_value(file),
{
}

/// The write a seed run makes for a curated file, given the stored files.
fn plan_file(rows: &Vec<StoredFileRow>, file: &SeedFile) -> (a: WriteAction)
    ensures
        a == file_action(rows_map(rows@), *file),
{
    let ghost key = seed_file_key(*file);
    let mut found: Option<usize> = None;
    let mut j: usize = 0;
    while j < rows.len()
        invariant
            j <= rows.len(),
            key == seed_file_key(*file),
            found is None ==> !rows_map(rows@.take(j as int)).dom().contains(key),
            found matches Some(x) ==> {
                &&& x < j
                &&& rows_map(rows@.take(j as int)).dom().contains(key)
                &&& rows_map(rows@.take(j as int))[key] == stored_file_value(rows@[x as int].file)
            },
        decreases rows.len() - j,
    {
        assert(rows@.take(j + 1).drop_last() == rows@.take(j as int));
        assert(rows@.take(j + 1).last() == rows@[j as int]);
        if same_text(rows[j].phase.as_str(), file.phase) && same_text(rows[j].path.as_str(), file.path) {
            found = Some(j);
        }
        j = j + 1;
    }
    assert(rows@.take(rows.len() as int) == rows@);
    match found {
        None => WriteAction::Insert,
        Some(x) => {
            proof {
                lemma_file_is_current_value(rows@[x as int].file, *file);
            }
            if file_needs_update(&rows[x].file, file) {
                WriteAction::Update
            } else {
                WriteAction::Keep
            }
        },
    }
}

/// Plan one seed run for a curated project, from its stored row (`None`
/// when there is none) and its stored files: the project row is inserted,
/// updated or kept; the stored files whose phase and path the curated
/// project no longer holds are removed; each curated file is inserted,
/// updated or kept.
pub fn plan_project_seed(
    project: &SeedProject,
    stored: &Option<StoredProject>,
    rows: &Vec<StoredFileRow>,
) -> (plan: SeedPlan)
    ensures
        plan.project == project_action(*stored, *project),
        plan.remove@ == stale_keys(project.files@, row_keys(rows@)),
        plan.files@ == file_actions(project.files@, rows_map(rows@)),
{
    let action = match stored {
        None => WriteAction::Insert,
        Some(c) => if project_needs_update(c, project) {
            WriteAction::Update
        } else {
            WriteAction::Keep
        },
    };
    let mut keys: Vec<(String, String)> = Vec::new();
    let mut i: usize = 0;
    while i < rows.len()
        invariant
            i <= rows.len(),
            keys@ == row_keys(rows@).take(i as int),
        decreases rows.len() - i,
    {
        keys.push((rows[i].phase.clone(), rows[i].path.clone()));
        assert(row_keys(rows@).take(i + 1) == row_keys(rows@).take(i as int).push(
            row_keys(rows@)[i as int],
        ));
        i = i + 1;
    }
    assert(row_keys(rows@).take(rows.len() as int) == row_keys(rows@));
    let remove = stale_file_keys(project, &keys);
    let mut files: Vec<WriteAction> = Vec::new();
    let mut k: usize = 0;
    while k < project.files.len()
        invariant
            k <= project.files.len(),
            files@ == file_actions(project.files@, rows_map(rows@)).take(k as int),
        decreases project.files.len() - k,
    {
        let a = plan_file(rows, &project.files[k]);
        files.push(a);
        assert(files@ == file_actions(project.files@, rows_map(rows@)).take(k + 1));
        k = k + 1;
    }
    assert(files@ == file_actions(project.files@, rows_map(rows@)));
    SeedPlan { project: action, remove, files }
}

/// A stored key is in the map of the stored files exactly when some row has it.
proof fn lemma_rows_map_dom(rows: Seq<StoredFileRow>)
    ensures
        forall|k: FileKey|
            #[trigger] rows_map(rows).dom().contains(k) <==> exists|i: int|
                0 <= i < rows.len() && row_key(rows[i]) == k,
    decreases rows.len(),
{
    if rows.len() > 0 {
        let d = rows.drop_last();
        lemma_rows_map_dom(d);
        assert forall|k: FileKey| #[trigger] rows_map(rows).dom().contains(k) <==> exists|i: int|
            0 <= i < rows.len() && row_key(rows[i]) == k by {
            if rows_map(rows).dom().contains(k) && k != row_key(rows.last()) {
                assert(rows_map(d).dom().contains(k));
                let i = choose|i: int| 0 <= i < d.len() && row_key(d[i]) == k;
                assert(rows[i] == d[i]);
            }
            if k == row_key(rows.last()) {
                assert(row_key(rows[rows.len() - 1]) == k);
            }
            if exists|i: int| 0 <= i < rows.len() && row_key(rows[i]) == k {
                let i = choose|i: int| 0 <= i < rows.len() && row_key(rows[i]) == k;
                if i < d.len() {
                    assert(d[i] == rows[i]);
                    assert(rows_map(d).dom().contains(k));
                }
            }
        }
    }
}

/// Writing the curated files marked for a write, where every file kept
/// already holds its curated values, is upserting them all.
proof fn lemma_write_files_upserts(
    kept: Map<FileKey, FileValue>,
    files: Seq<SeedFile>,
    actions: Seq<WriteAction>,
)
    requires
        seed_keys_distinct(files),
        actions.len() == files.len(),
        forall|i: int|
            0 <= i < files.len() && (#[trigger] actions[i]) is Keep ==> kept.dom().contains(
                seed_file_key(files[i]),
            ) && kept[seed_file_key(files[i])] == seed_file_value(files[i]),
    ensures
        write_files(kept, files, actions) == upsert_files(kept, files),
    decreases files.len(),
{
    if files.len() > 0 {
        let d = files.drop_last();
        let ad = actions.drop_last();
        assert forall|a: int, b: int| 0 <= a < b < d.len() implies !(d[a].phase@ == d[b].phase@
            && d[a].path@ == d[b].path@) by {
            assert(d[a] == files[a] && d[b] == files[b]);
        }
        assert forall|i: int| 0 <= i < d.len() && (#[trigger] ad[i]) is Keep implies kept.dom().contains(
            seed_file_key(d[i]),
        ) && kept[seed_file_key(d[i])] == seed_file_value(d[i]) by {
            assert(ad[i] == actions[i] && d[i] == files[i]);
        }
        lemma_write_files_upserts(kept, d, ad);
        if actions.last() is Keep {
            let n = files.len() - 1;
            let key = seed_file_key(files[n]);
            assert(actions[n] is Keep);
            if has_key(d, key.0, key.1) {
                let j = choose|j: int| 0 <= j < d.len() && d[j].phase@ == key.0 && d[j].path@ == key.1;
                assert(d[j] == files[j]);
                assert(!(files[j].phase@ == files[n].phase@ && files[j].path@ == files[n].path@));
            }
            assert(!has_key(d, key.0, key.1));
            assert(kept.dom().contains(key) && kept[key] == seed_file_value(files[n]));
            crate::gallery_seed::lemma_upsert_files(kept, kept, d);
            let u = upsert_files(kept, d);
            assert(u.dom().contains(key) <==> kept.dom().contains(key));
            assert(u[key] == kept[key]);
            assert(u.insert(key, seed_file_value(files.last())) =~= u);
        }
    }
}

/// Writing nothing leaves the stored files as they are.
proof fn lemma_write_nothing(stored: Map<FileKey, FileValue>, files: Seq<SeedFile>, actions: Seq<WriteAction>)
    requires
        actions.len() == files.len(),
        forall|i: int| 0 <= i < actions.len() ==> (#[trigger] actions[i]) is Keep,
    ensures
        write_files(stored, files, actions) == stored,
        count_writes(actions) == 0,
    decreases files.len(),
{
    if files.len() > 0 {
        let ad = actions.drop_last();
        assert forall|i: int| 0 <= i < ad.len() implies (#[trigger] ad[i]) is Keep by {
            assert(ad[i] == actions[i]);
        }
        lemma_write_nothing(stored, files.drop_last(), ad);
        assert(actions[actions.len() - 1] is Keep);
    }
}

/// Seeding converges in one run and is then idempotent. Carrying out the plan
/// of a seed run leaves the project row holding the curated title, summary,
/// prompt and display order, published, and the project's stored files
/// exactly the curated files, keyed by phase and path, each with its curated
/// language, content and display order. A second run over what the first
/// left plans nothing: the project row is kept, no file is removed and every
/// curated file is kept, so it reports zero upserted projects, zero upserted
/// files and zero removed files, and leaves the stored files as they are.
pub proof fn lemma_seed_idempotent(
    project: SeedProject,
    stored: Option<StoredProject>,
    rows: Seq<StoredFileRow>,
    stored_again: StoredProject,
    rows_again: Seq<StoredFileRow>,
)
    requires
        seed_keys_distinct(project.files@),
        project_fields(stored_again) == project_after_plan(
            stored,
            project,
            project_action(stored, project),
        ),
        rows_map(rows_again) == files_after_plan(
            rows_map(rows),
            project.files@,
            stale_keys(project.files@, row_keys(rows)),
            file_actions(project.files@, rows_map(rows)),
        ),
    ensures
        project_fields(stored_again) == curated_fields(project),
        rows_map(rows_again) == curated_file_map(project.files@),
        project_action(Some(stored_again), project) is Keep,
        stale_keys(project.files@, row_keys(rows_again)).len() == 0,
        file_actions(project.files@, rows_map(rows_again)) == Seq::new(
            project.files@.len(),
            |i: int| WriteAction::Keep,
        ),
        count_writes(file_actions(project.files@, rows_map(rows_again))) == 0,
        files_after_plan(
            rows_map(rows_again),
            project.files@,
            stale_keys(project.files@, row_keys(rows_again)),
            file_actions(project.files@, rows_map(rows_again)),
        ) == rows_map(rows_again),
{
    let files = project.files@;
    let m = rows_map(rows);
    let stale = stale_keys(files, row_keys(rows));
    let keys = Set::new(|k: FileKey| has_key(files, k.0, k.1));
    // The removal keeps exactly the stored files with a curated key.
    lemma_stale_keys_exact(files, row_keys(rows));
    lemma_rows_map_dom(rows);
    let removed = m.remove_keys(key_set(stale));
    let kept = m.restrict(keys);
    assert forall|k: FileKey| #[trigger] removed.dom().contains(k) <==> kept.dom().contains(k) by {
        if m.dom().contains(k) {
            let i = choose|i: int| 0 <= i < rows.len() && row_key(rows[i]) == k;
            assert(row_keys(rows)[i] == (rows[i].phase, rows[i].path));
            if key_set(stale).contains(k) {
                let j = choose|j: int| 0 <= j < stale.len() && stale[j].0@ == k.0 && stale[j].1@ == k.1;
                assert(row_keys(rows).contains(stale[j]));
            } else if !has_key(files, k.0, k.1) {
                assert(stale.contains(row_keys(rows)[i]));
                let j = choose|j: int| 0 <= j < stale.len() && stale[j] == row_keys(rows)[i];
                assert(key_set(stale).contains(k));
            }
        }
    }
    assert(removed =~= kept);
    // Writing the marked files is then upserting them all: one reseed pass.
    let actions = file_actions(files, m);
    assert forall|i: int| 0 <= i < files.len() && (#[trigger] actions[i]) is Keep implies kept.dom().contains(
        seed_file_key(files[i]),
    ) && kept[seed_file_key(files[i])] == seed_file_value(files[i]) by {
        assert(files[i].phase@ == seed_file_key(files[i]).0 && files[i].path@ == seed_file_key(files[i]).1);
        assert(keys.contains(seed_file_key(files[i])));
    }
    lemma_write_files_upserts(kept, files, actions);
    assert(reseed_files(m, files) == upsert_files(kept, files));
    lemma_reseed_converges(files, m);
    let again = rows_map(rows_again);
    assert(again == curated_file_map(files));
    // The second run finds no stale file ...
    lemma_stale_keys_exact(files, row_keys(rows_again));
    lemma_rows_map_dom(rows_again);
    let stale2 = stale_keys(files, row_keys(rows_again));
    if stale2.len() > 0 {
        assert(row_keys(rows_again).contains(stale2[0]));
        let i = choose|i: int| 0 <= i < row_keys(rows_again).len() && row_keys(rows_again)[i] == stale2[0];
        assert(row_keys(rows_again)[i] == (rows_again[i].phase, rows_again[i].path));
        assert(again.dom().contains(row_key(rows_again[i])));
    }
    // ... and no file to write.
    let actions2 = file_actions(files, again);
    assert forall|i: int| 0 <= i < files.len() implies (#[trigger] actions2[i]) is Keep by {
        assert(again[seed_file_key(files[i])] == seed_file_value(files[i]));
    }
    assert(actions2 =~= Seq::new(files.len(), |i: int| WriteAction::Keep));
    lemma_write_nothing(again.remove_keys(key_set(stale2)), files, actions2);
    assert(again.remove_keys(key_set(stale2)) =~= again);
}

/// `count_writes` counts the inserts and updates wherever they stand: none in
/// an empty list, and one more for each written entry appended, none for a
/// kept one; so it is the number of entries that are not kept.
pub proof fn lemma_count_writes_counts_each_write(actions: Seq<WriteAction>, a: WriteAction)
    ensures
        count_writes(Seq::<WriteAction>::empty()) == 0,
        count_writes(actions.push(a)) == count_writes(actions) + if a is Keep {
            0int
        } else {
            1int
        },
        count_writes(actions) == actions.filter(|x: WriteAction| !(x is Keep)).len(),
        count_writes(actions) <= actions.len(),
    decreases actions.len(),
{
    assert(actions.push(a).drop_last() == actions);
    reveal(Seq::filter);
    if actions.len() > 0 {
        lemma_count_writes_counts_each_write(actions.drop_last(), a);
    }
}

/// `x` held at `u64::MAX`.
pub open spec fn saturate_u64(x: int) -> int {
    if x > u64::MAX {
        u64::MAX as int
    } else {
        x
    }
}

/// The summary of a seed run before any project: nothing written.
pub fn empty_summary() -> (s: SeedSummary)
    ensures
        s.projects_upserted == 0,
        s.files_upserted == 0,
        s.files_removed == 0,
{
    SeedSummary { projects_upserted: 0, files_upserted: 0, files_removed: 0 }
}

/// Add what a project's plan writes to the summary of the run: one upserted
/// project unless the row is kept, one upserted file for each inserted or
/// updated file, one removed file for each stale file (each count held at
/// `u64::MAX`).
pub fn tally_plan(summary: &SeedSummary, plan: &SeedPlan) -> (s: SeedSummary)
    ensures
        s.projects_upserted == saturate_u64(
            summary.projects_upserted + if plan.project is Keep {
                0int
            } else {
                1int
            },
        ),
        s.files_upserted == saturate_u64(summary.files_upserted + count_writes(plan.files@)),
        s.files_removed == saturate_u64(summary.files_removed + plan.remove@.len()),
{
    let projects_upserted = match plan.project {
        WriteAction::Keep => summary.projects_upserted,
        _ => summary.projects_upserted.saturating_add(1),
    };
    let mut files_upserted = summary.files_upserted;
    let mut k: usize = 0;
    while k < plan.files.len()
        invariant
            k <= plan.files.len(),
            files_upserted == saturate_u64(
                summary.files_upserted + count_writes(plan.files@.take(k as int)),
            ),
        decreases plan.files.len() - k,
    {
        assert(plan.files@.take(k + 1).drop_last() == plan.files@.take(k as int));
        match plan.files[k] {
            WriteAction::Keep => {},
            _ => {
                files_upserted = files_upserted.saturating_add(1);
            },
        }
        k = k + 1;
    }
    assert(plan.files@.take(plan.files.len() as int) == plan.files@);
    let removed: u64 = if plan.remove.len() as u128 > u64::MAX as u128 {
        u64::MAX
    } else {
        plan.remove.len() as u64
    };
    let files_removed = summary.files_removed.saturating_add(removed);
    SeedSummary { projects_upserted, files_upserted, files_removed }
}

} // verus!
