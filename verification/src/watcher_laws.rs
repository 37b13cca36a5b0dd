//! What holds of the watcher over many scans and over a whole tick.

use crate::types::{ChangeType, ChangeView, FileMetadata, FileTime};
use crate::watcher::{
    budget_spent, changes_upto, distinct_paths, index_of_path, lemma_index_of_path, observed,
    scan_step, tick_changes, with_file, without_file, FileObservation, ScanState, WatchedFile,
    WatcherView,
};
use vstd::prelude::*;

verus! {

/// Registering a path keeps the paths distinct, and so does unregistering
/// one.
pub proof fn lemma_registration_keeps_paths_distinct(files: Seq<WatchedFile>, path: Seq<char>)
    requires
        distinct_paths(files),
    ensures
        distinct_paths(with_file(files, path)),
        distinct_paths(without_file(files, path)),
{
    lemma_index_of_path(files, path);
}

/// Registering a path a second time changes nothing but to forget its
/// failures again: the path is there once, at its place, with its cache.
pub proof fn lemma_registration_is_idempotent(files: Seq<WatchedFile>, path: Seq<char>)
    ensures
        with_file(with_file(files, path), path) == with_file(files, path),
        index_of_path(with_file(files, path), path) >= 0,
{
    lemma_index_of_path(files, path);
    let once = with_file(files, path);
    lemma_index_of_path(once, path);
    let i = index_of_path(files, path);
    if i < 0 {
        assert(once[files.len() as int].path == path);
        assert(index_of_path(once, path) == files.len());
    } else {
        assert(once[i].path == path);
        assert forall|j: int| i < j < once.len() implies once[j].path != path by {
            assert(once[j] == files[j]);
        }
        assert(index_of_path(once, path) == i);
    }
    assert(with_file(once, path) =~= once);
}

/// The state of a file after the scans of `observations`, one after the
/// other.
pub open spec fn run_scans(state: ScanState, observations: Seq<FileObservation>, max: u32) -> ScanState
    decreases observations.len(),
{
    if observations.len() == 0 {
        state
    } else {
        scan_step(run_scans(state, observations.drop_last(), max), observations.last(), max).0
    }
}

/// What each of the scans of `observations` reports, in order.
pub open spec fn run_events(state: ScanState, observations: Seq<FileObservation>, max: u32) -> Seq<
    Option<ChangeType>,
>
    decreases observations.len(),
{
    if observations.len() == 0 {
        Seq::empty()
    } else {
        run_events(state, observations.drop_last(), max).push(
            scan_step(run_scans(state, observations.drop_last(), max), observations.last(), max).1,
        )
    }
}

/// Whether `observation` shows the file as the cache has it: missing where
/// nothing is cached; else present with the cached size and, where a checksum
/// came, the cached checksum, or else the cached modification time.
pub open spec fn shows_unchanged(cache: Option<FileMetadata>, observation: FileObservation) -> bool {
    match cache {
        None => observation is Missing,
        Some(m) => observation matches FileObservation::Present { modified_time, size, checksum }
            && size == m.size && match checksum {
            Some(sum) => sum == m.checksum,
            None => modified_time == m.modified_time,
        },
    }
}

/// Whether each of `observations` shows the file as the cache has it at that
/// scan.
pub open spec fn all_unchanged(state: ScanState, observations: Seq<FileObservation>, max: u32) -> bool
    decreases observations.len(),
{
    observations.len() == 0 || (all_unchanged(state, observations.drop_last(), max)
        && shows_unchanged(
        run_scans(state, observations.drop_last(), max).cache,
        observations.last(),
    ))
}

/// Whether two caches hold the same content: both nothing, or the same
/// checksum and size.
pub open spec fn same_content(a: Option<FileMetadata>, b: Option<FileMetadata>) -> bool {
    match a {
        None => b is None,
        Some(x) => b matches Some(y) && x.checksum == y.checksum && x.size == y.size,
    }
}

/// Scanning an unchanged file, any number of times in a row, reports nothing
/// and leaves the cached checksum and size as they are.
pub proof fn lemma_idempotent_scans(state: ScanState, observations: Seq<FileObservation>, max: u32)
    requires
        all_unchanged(state, observations, max),
    ensures
        run_events(state, observations, max).len() == observations.len(),
        forall|i: int|
            0 <= i < observations.len() ==> run_events(state, observations, max)[i] is None,
        same_content(run_scans(state, observations, max).cache, state.cache),
    decreases observations.len(),
{
    if observations.len() > 0 {
        lemma_idempotent_scans(state, observations.drop_last(), max);
    }
}

/// One scan of a file whose budget is not spent classifies the change
/// exactly: a file that was not cached and is there is `Created`; a cached
/// file that is gone is `Deleted`; a cached file whose time or size and whose
/// checksum differ is `Modified`; a cached file of which the size and the
/// checksum are the cached ones reports nothing, whatever its time.
pub proof fn lemma_change_classification(
    state: ScanState,
    modified_time: FileTime,
    size: u64,
    sum: u32,
    max: u32,
)
    requires
        !budget_spent(state, max),
    ensures
        state.cache is None ==> scan_step(
            state,
            FileObservation::Present { modified_time, size, checksum: Some(sum) },
            max,
        ).1 == Some(ChangeType::Created),
        state.cache is Some ==> scan_step(state, FileObservation::Missing, max).1 == Some(
            ChangeType::Deleted,
        ),
        state.cache is None ==> scan_step(state, FileObservation::Missing, max).1 is None,
        state.cache matches Some(m) && (m.modified_time != modified_time || m.size != size)
            && m.checksum != sum ==> scan_step(
            state,
            FileObservation::Present { modified_time, size, checksum: Some(sum) },
            max,
        ).1 == Some(ChangeType::Modified),
        state.cache matches Some(m) && m.size == size && m.checksum == sum ==> scan_step(
            state,
            FileObservation::Present { modified_time, size, checksum: Some(sum) },
            max,
        ).1 is None,
{
}

/// How many of `changes` are about `path`.
pub open spec fn count_for(changes: Seq<ChangeView>, path: Seq<char>) -> nat
    decreases changes.len(),
{
    if changes.len() == 0 {
        0
    } else {
        count_for(changes.drop_last(), path) + if changes.last().file_path == path {
            1nat
        } else {
            0nat
        }
    }
}

proof fn lemma_count_upto(w: WatcherView, observations: Seq<FileObservation>, n: int, i: int)
    requires
        distinct_paths(w.files),
        0 <= i < w.files.len(),
        0 <= n <= observed(w, observations),
    ensures
        count_for(changes_upto(w, observations, n), w.files[i].path) == (if i < n && scan_step(
            w.files[i].state,
            observations[i],
            w.max_scan_errors,
        ).1 is Some {
            1nat
        } else {
            0nat
        }),
        forall|k: int|
            0 <= k < changes_upto(w, observations, n).len() && #[trigger] changes_upto(
                w,
                observations,
                n,
            )[k].file_path == w.files[i].path ==> i < n && Some(
                changes_upto(w, observations, n)[k].change_type,
            ) == scan_step(w.files[i].state, observations[i], w.max_scan_errors).1,
    decreases n,
{
    if n > 0 {
        lemma_count_upto(w, observations, n - 1, i);
        let before = changes_upto(w, observations, n - 1);
        let step = scan_step(w.files[n - 1].state, observations[n - 1], w.max_scan_errors).1;
        if step is Some {
            assert(changes_upto(w, observations, n).drop_last() == before);
        }
    }
}

/// In the batch of one tick, each monitored file has at most one change: one
/// where its scan reports a change, of the kind that the scan reports, and
/// none where it reports nothing.
pub proof fn lemma_one_change_per_file(w: WatcherView, observations: Seq<FileObservation>, i: int)
    requires
        distinct_paths(w.files),
        w.running,
        0 <= i < w.files.len(),
        i < observations.len(),
    ensures
        count_for(tick_changes(w, observations), w.files[i].path) == (if scan_step(
            w.files[i].state,
            observations[i],
            w.max_scan_errors,
        ).1 is Some {
            1nat
        } else {
            0nat
        }),
        forall|k: int|
            0 <= k < tick_changes(w, observations).len() && #[trigger] tick_changes(
                w,
                observations,
            )[k].file_path == w.files[i].path ==> Some(tick_changes(w, observations)[k].change_type)
                == scan_step(w.files[i].state, observations[i], w.max_scan_errors).1,
{
    lemma_count_upto(w, observations, observed(w, observations), i);
}

/// A tick in which every file is seen unchanged reports nothing.
pub proof fn lemma_quiet_tick(w: WatcherView, observations: Seq<FileObservation>)
    requires
        forall|i: int|
            0 <= i < observed(w, observations) ==> shows_unchanged(
                w.files[i].state.cache,
                observations[i],
            ),
    ensures
        tick_changes(w, observations).len() == 0,
{
    if w.running {
        lemma_quiet_upto(w, observations, observed(w, observations));
    }
}

proof fn lemma_quiet_upto(w: WatcherView, observations: Seq<FileObservation>, n: int)
    requires
        0 <= n <= observed(w, observations),
        forall|i: int|
            0 <= i < observed(w, observations) ==> shows_unchanged(
                w.files[i].state.cache,
                observations[i],
            ),
    ensures
        changes_upto(w, observations, n).len() == 0,
    decreases n,
{
    if n > 0 {
        lemma_quiet_upto(w, observations, n - 1);
    }
}

/// `n` failed scans in a row.
pub open spec fn failures(n: nat) -> Seq<FileObservation> {
    Seq::new(n, |i: int| FileObservation::Failed)
}

proof fn lemma_failures_count(state: ScanState, n: nat, max: u32)
    ensures
        run_scans(state, failures(n), max).cache == state.cache,
        run_scans(state, failures(n), max).error_count == (if state.error_count > max {
            state.error_count as int
        } else if state.error_count + n > max {
            max + 1
        } else {
            state.error_count + n
        }),
    decreases n,
{
    if n > 0 {
        lemma_failures_count(state, (n - 1) as nat, max);
        assert(failures(n).drop_last() == failures((n - 1) as nat));
    }
}

/// After more failed scans in a row than the watcher allows, its budget for
/// the file is spent, whatever the file's state was before; the cache is as
/// it was.
pub proof fn lemma_failures_spend_budget(state: ScanState, n: nat, max: u32)
    requires
        n > max,
    ensures
        budget_spent(run_scans(state, failures(n), max), max),
        run_scans(state, failures(n), max).cache == state.cache,
{
    lemma_failures_count(state, n, max);
}

/// A success ends a run of failures: after a scan that finds the file and
/// has its checksum, or finds a cached file gone, no failure counts against
/// the file.
pub proof fn lemma_success_resets(state: ScanState, observation: FileObservation, max: u32)
    requires
        !budget_spent(state, max),
        (observation is Missing && state.cache is Some) || (observation matches FileObservation::Present {
            checksum,
            ..
        } && checksum is Some),
    ensures
        scan_step(state, observation, max).0.error_count == 0,
{
}

} // verus!
