//! What holds of the store across a switch, and of the statuses when the
//! watcher has given up on a file.

use crate::json_parse::parsed_json;
use crate::store::{
    at_most_one_active, content_of, current_id, distinct_names, lemma_profile_index,
    profile_index, status_of, statuses, switch_plan, switched, StoreModel, SwitchPlanView,
};
use crate::types::AppErrorView;
use crate::watcher::{
    distinct_paths, index_of_path, lemma_index_of_path, ScanState, WatchedFile, WatcherView,
};
use crate::watcher_laws::{failures, lemma_failures_spend_budget, run_scans};
use vstd::prelude::*;

verus! {

/// After a switch that went through, the live configuration reads as the
/// profile read just before the switch.
pub proof fn lemma_switch_round_trip(store: StoreModel, id: Seq<char>)
    requires
        switch_plan(store, id) is Ok,
    ensures
        content_of(store, id) is Ok,
        content_of(switched(store, switch_plan(store, id)->Ok_0), current_id()) == content_of(
            store,
            id,
        ),
{
}

/// After a switch that went through, the switched profile is marked active
/// and no other is.
pub proof fn lemma_switch_marks_one(store: StoreModel, id: Seq<char>)
    requires
        distinct_names(store.profiles),
        switch_plan(store, id) is Ok,
    ensures
        at_most_one_active(switched(store, switch_plan(store, id)->Ok_0).profiles),
        switched(store, switch_plan(store, id)->Ok_0).profiles[profile_index(
            store.profiles,
            id,
        )].is_active,
        forall|i: int|
            0 <= i < store.profiles.len() && i != profile_index(store.profiles, id) ==> !switched(
                store,
                switch_plan(store, id)->Ok_0,
            ).profiles[i].is_active,
{
    lemma_profile_index(store.profiles, id);
}

/// A switch to an id that names no profile is refused as not found, before
/// anything is planned: nothing is written.
pub proof fn lemma_switch_unknown_profile(store: StoreModel, id: Seq<char>)
    requires
        profile_index(store.profiles, id) < 0,
    ensures
        switch_plan(store, id) == Err::<SwitchPlanView, AppErrorView>(
            AppErrorView::ProfileNotFound(id),
        ),
{
}

/// A profile whose content is not JSON has an error for its status, whatever
/// the live configuration holds, and a switch to it is refused as invalid
/// content.
pub proof fn lemma_invalid_profile_content(
    store: StoreModel,
    watcher: WatcherView,
    ignored: Set<Seq<char>>,
    id: Seq<char>,
)
    requires
        id != current_id(),
        profile_index(store.profiles, id) >= 0,
        parsed_json(store.profiles[profile_index(store.profiles, id)].content) is Err,
    ensures
        status_of(store, watcher, ignored, store.profiles[profile_index(store.profiles, id)])
            is Error,
        switch_plan(store, id) matches Err(e) && e is InvalidProfileContent,
{
}

/// The watcher once the file at `i` has the state `state`.
pub open spec fn with_state(w: WatcherView, i: int, state: ScanState) -> WatcherView {
    WatcherView { files: w.files.update(i, WatchedFile { path: w.files[i].path, state }), ..w }
}

proof fn lemma_index_of_path_with_state(
    files: Seq<WatchedFile>,
    i: int,
    state: ScanState,
    path: Seq<char>,
)
    requires
        0 <= i < files.len(),
    ensures
        index_of_path(files.update(i, WatchedFile { path: files[i].path, state }), path)
            == index_of_path(files, path),
    decreases files.len(),
{
    let changed = files.update(i, WatchedFile { path: files[i].path, state });
    if files.last().path != path {
        if i < files.len() - 1 {
            lemma_index_of_path_with_state(files.drop_last(), i, state, path);
            assert(changed.drop_last() == files.drop_last().update(
                i,
                WatchedFile { path: files[i].path, state },
            ));
        } else {
            assert(changed.drop_last() == files.drop_last());
        }
    }
}

/// Once one monitored file has failed more often in a row than the watcher
/// allows, every profile of that file has an error for its status, and the
/// status of every profile of another file is what it was.
pub proof fn lemma_error_containment(
    store: StoreModel,
    watcher: WatcherView,
    ignored: Set<Seq<char>>,
    i: int,
    n: nat,
)
    requires
        distinct_paths(watcher.files),
        0 <= i < watcher.files.len(),
        n > watcher.max_scan_errors,
    ensures
        ({
            let failed = with_state(
                watcher,
                i,
                run_scans(watcher.files[i].state, failures(n), watcher.max_scan_errors),
            );
            forall|p: int|
                0 <= p < store.profiles.len() ==> if store.profiles[p].path
                    == watcher.files[i].path {
                    #[trigger] statuses(store, failed, ignored)[p] is Error
                } else {
                    statuses(store, failed, ignored)[p] == statuses(store, watcher, ignored)[p]
                }
        }),
{
    let state = run_scans(watcher.files[i].state, failures(n), watcher.max_scan_errors);
    let failed = with_state(watcher, i, state);
    lemma_failures_spend_budget(watcher.files[i].state, n, watcher.max_scan_errors);
    assert forall|p: int| 0 <= p < store.profiles.len() implies if store.profiles[p].path
        == watcher.files[i].path {
        #[trigger] statuses(store, failed, ignored)[p] is Error
    } else {
        statuses(store, failed, ignored)[p] == statuses(store, watcher, ignored)[p]
    } by {
        let path = store.profiles[p].path;
        lemma_index_of_path_with_state(watcher.files, i, state, path);
        lemma_index_of_path(watcher.files, path);
    }
}

} // verus!
