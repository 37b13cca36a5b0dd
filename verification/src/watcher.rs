//! The file watcher: which files are monitored, what is remembered of each,
//! and what one tick makes of what was observed.
//!
//! The watcher does not touch the file system. Whoever drives it examines
//! each monitored file, hands the observations to `tick`, and delivers the
//! batch of changes that comes back.

use crate::types::{
    change_views, AppError, AppErrorView, ChangeType, ChangeView, ConfigFileChange,
    FileMetadata, FileTime, MonitoringStats,
};
use vstd::prelude::*;

verus! {

/// What was seen of one monitored file.
#[derive(Debug, Clone, Copy)]
pub enum FileObservation {
    /// The file is not there.
    Missing,
    /// The file could not be examined or read.
    Failed,
    /// The file is there. `checksum` is that of its content, where the
    /// content was read.
    Present { modified_time: FileTime, size: u64, checksum: Option<u32> },
}

/// What the watcher remembers of one monitored file: the metadata of the
/// last successful read, and how many scans failed in a row.
#[derive(Debug, Clone, Copy)]
pub struct ScanState {
    pub cache: Option<FileMetadata>,
    pub error_count: u64,
}

/// A monitored file.
#[derive(Debug, Clone)]
pub struct MonitoredFile {
    pub path: String,
    pub cache: Option<FileMetadata>,
    pub error_count: u64,
}

/// The checksum of a content: over its bytes in order, 31 times the
/// checksum so far plus the byte, kept to 32 bits.
pub open spec fn checksum_of(bytes: Seq<u8>) -> u32
    decreases bytes.len(),
{
    if bytes.len() == 0 {
        0
    } else {
        ((checksum_of(bytes.drop_last()) as int * 31 + bytes.last() as int) % 0x1_0000_0000) as u32
    }
}

/// The checksum of `bytes`.
pub fn checksum(bytes: &[u8]) -> (r: u32)
    ensures
        r == checksum_of(bytes@),
{
    let mut sum: u32 = 0;
    let mut i: usize = 0;
    while i < bytes.len()
        invariant
            i <= bytes@.len(),
            sum == checksum_of(bytes@.take(i as int)),
        decreases bytes@.len() - i,
    {
        proof {
            assert(bytes@.take(i + 1).drop_last() == bytes@.take(i as int));
        }
        let wide: u64 = sum as u64 * 31 + bytes[i] as u64;
        sum = (wide % 0x1_0000_0000) as u32;
        i += 1;
    }
    proof {
        assert(bytes@.take(i as int) == bytes@);
    }
    sum
}

/// Whether the content must be read to judge the file: nothing is cached, or
/// the modification time or the size differs from what is cached.
pub open spec fn content_needed(
    cache: Option<FileMetadata>,
    modified_time: FileTime,
    size: u64,
) -> bool {
    match cache {
        None => true,
        Some(m) => m.modified_time != modified_time || m.size != size,
    }
}

/// Whether the watcher has given up on the file: its scans failed more often
/// in a row than `max_scan_errors`.
pub open spec fn budget_spent(state: ScanState, max_scan_errors: u32) -> bool {
    state.error_count > max_scan_errors
}

/// The state after one more failed scan: the cache is untouched.
pub open spec fn after_failure(state: ScanState) -> ScanState {
    ScanState {
        cache: state.cache,
        error_count: if state.error_count < u64::MAX {
            (state.error_count + 1) as u64
        } else {
            state.error_count
        },
    }
}

/// What one scan makes of one observation: the state after it and the change
/// to report, if any.
///
/// A file whose budget is spent is left alone. A failure counts against the
/// file and leaves its cache. A missing file that was never cached is left
/// alone; one that was cached is `Deleted`. A present file that was not
/// cached is `Created`. A present file with the cached time and size is
/// unchanged. Otherwise the checksum decides: another checksum is `Modified`,
/// the same one only refreshes the cache. Where the content was needed and
/// no checksum came, the scan has failed. Every scan that finds the file, or
/// finds a cached file gone, ends the run of failures.
pub open spec fn scan_step(state: ScanState, observation: FileObservation, max_scan_errors: u32) -> (
    ScanState,
    Option<ChangeType>,
) {
    if budget_spent(state, max_scan_errors) {
        (state, None)
    } else {
        match observation {
            FileObservation::Failed => (after_failure(state), None),
            FileObservation::Missing => if state.cache is Some {
                (ScanState { cache: None, error_count: 0 }, Some(ChangeType::Deleted))
            } else {
                (state, None)
            },
            FileObservation::Present { modified_time, size, checksum } => {
                if !content_needed(state.cache, modified_time, size) {
                    (ScanState { cache: state.cache, error_count: 0 }, None)
                } else {
                    match checksum {
                        None => (after_failure(state), None),
                        Some(sum) => (
                            ScanState {
                                cache: Some(FileMetadata { modified_time, checksum: sum, size }),
                                error_count: 0,
                            },
                            match state.cache {
                                None => Some(ChangeType::Created),
                                Some(m) => if m.checksum != sum {
                                    Some(ChangeType::Modified)
                                } else {
                                    None
                                },
                            },
                        ),
                    }
                }
            },
        }
    }
}

/// One scan of one file.
pub fn scan(state: ScanState, observation: FileObservation, max_scan_errors: u32) -> (r: (
    ScanState,
    Option<ChangeType>,
))
    ensures
        r == scan_step(state, observation, max_scan_errors),
{
    if state.error_count > max_scan_errors as u64 {
        return (state, None);
    }
    let failed = ScanState {
        cache: state.cache,
        error_count: if state.error_count < u64::MAX {
            state.error_count + 1
        } else {
            state.error_count
        },
    };
    match observation {
        FileObservation::Failed => (failed, None),
        FileObservation::Missing => {
            if state.cache.is_some() {
                (ScanState { cache: None, error_count: 0 }, Some(ChangeType::Deleted))
            } else {
                (state, None)
            }
        },
        FileObservation::Present { modified_time, size, checksum } => {
            let needed = match state.cache {
                None => true,
                Some(m) => m.modified_time != modified_time || m.size != size,
            };
            if !needed {
                (ScanState { cache: state.cache, error_count: 0 }, None)
            } else {
                match checksum {
                    None => (failed, None),
                    Some(sum) => {
                        let event = match state.cache {
                            None => Some(ChangeType::Created),
                            Some(m) => if m.checksum != sum {
                                Some(ChangeType::Modified)
                            } else {
                                None
                            },
                        };
                        (
                            ScanState {
                                cache: Some(FileMetadata { modified_time, checksum: sum, size }),
                                error_count: 0,
                            },
                            event,
                        )
                    },
                }
            }
        },
    }
}

/// A monitored file as the contracts see it.
pub struct WatchedFile {
    pub path: Seq<char>,
    pub state: ScanState,
}

/// A watcher as the contracts see it.
pub struct WatcherView {
    pub files: Seq<WatchedFile>,
    pub interval_minutes: u64,
    pub running: bool,
    pub max_scan_errors: u32,
    pub cache_size_limit: usize,
}

/// No path is monitored twice.
pub open spec fn distinct_paths(files: Seq<WatchedFile>) -> bool {
    forall|i: int, j: int| 0 <= i < j < files.len() ==> files[i].path != files[j].path
}

/// The index of the file with the path `path`, or -1.
pub open spec fn index_of_path(files: Seq<WatchedFile>, path: Seq<char>) -> int
    decreases files.len(),
{
    if files.len() == 0 {
        -1
    } else if files.last().path == path {
        files.len() - 1
    } else {
        index_of_path(files.drop_last(), path)
    }
}

/// The files once `path` is registered: a new path comes last, with no cache
/// and no failures; a path that is there keeps its place and its cache, and
/// its failures are forgotten.
pub open spec fn with_file(files: Seq<WatchedFile>, path: Seq<char>) -> Seq<WatchedFile> {
    let i = index_of_path(files, path);
    if i < 0 {
        files.push(WatchedFile { path, state: ScanState { cache: None, error_count: 0 } })
    } else {
        files.update(
            i,
            WatchedFile { path, state: ScanState { cache: files[i].state.cache, error_count: 0 } },
        )
    }
}

/// The files once `path` is unregistered.
pub open spec fn without_file(files: Seq<WatchedFile>, path: Seq<char>) -> Seq<WatchedFile> {
    let i = index_of_path(files, path);
    if i < 0 {
        files
    } else {
        files.remove(i)
    }
}

/// How many of the first `n` files have a cache.
pub open spec fn cached_upto(files: Seq<WatchedFile>, n: int) -> nat
    decreases n,
{
    if n <= 0 || n > files.len() {
        0
    } else {
        cached_upto(files, n - 1) + if files[n - 1].state.cache is Some {
            1nat
        } else {
            0nat
        }
    }
}

/// The consecutive failures of the first `n` files, added up.
pub open spec fn errors_upto(files: Seq<WatchedFile>, n: int) -> nat
    decreases n,
{
    if n <= 0 || n > files.len() {
        0
    } else {
        errors_upto(files, n - 1) + files[n - 1].state.error_count as nat
    }
}

/// The number of observations that a tick uses: one for each file, as far as
/// there are observations.
pub open spec fn observed(w: WatcherView, observations: Seq<FileObservation>) -> int {
    if w.files.len() <= observations.len() {
        w.files.len() as int
    } else {
        observations.len() as int
    }
}

/// The watcher after a tick: each file that has an observation has taken its
/// scan step. A watcher that is not running stays as it is.
pub open spec fn ticked(w: WatcherView, observations: Seq<FileObservation>) -> WatcherView {
    if !w.running {
        w
    } else {
        WatcherView {
            files: Seq::new(
                w.files.len(),
                |i: int|
                    if i < observations.len() {
                        WatchedFile {
                            path: w.files[i].path,
                            state: scan_step(w.files[i].state, observations[i], w.max_scan_errors).0,
                        }
                    } else {
                        w.files[i]
                    },
            ),
            ..w
        }
    }
}

/// The changes that the scans of the first `n` files report, in the order of
/// the files.
pub open spec fn changes_upto(w: WatcherView, observations: Seq<FileObservation>, n: int) -> Seq<
    ChangeView,
>
    decreases n,
{
    if n <= 0 || n > w.files.len() || n > observations.len() {
        Seq::empty()
    } else {
        let before = changes_upto(w, observations, n - 1);
        match scan_step(w.files[n - 1].state, observations[n - 1], w.max_scan_errors).1 {
            Some(change_type) => before.push(
                ChangeView { file_path: w.files[n - 1].path, change_type },
            ),
            None => before,
        }
    }
}

/// The batch of changes that a tick reports. A watcher that is not running
/// reports none.
pub open spec fn tick_changes(w: WatcherView, observations: Seq<FileObservation>) -> Seq<
    ChangeView,
> {
    if !w.running {
        Seq::empty()
    } else {
        changes_upto(w, observations, observed(w, observations))
    }
}

/// The set of monitored files with what is remembered of each, the polling
/// interval, and whether the watcher is running.
pub struct FileWatcher {
    files: Vec<MonitoredFile>,
    interval_minutes: u64,
    running: bool,
    max_scan_errors: u32,
    cache_size_limit: usize,
}

impl MonitoredFile {
    /// The file as the contracts see it.
    pub open spec fn watched(self) -> WatchedFile {
        WatchedFile {
            path: self.path@,
            state: ScanState { cache: self.cache, error_count: self.error_count },
        }
    }
}

impl View for FileWatcher {
    type V = WatcherView;

    closed spec fn view(&self) -> WatcherView {
        WatcherView {
            files: Seq::new(self.files@.len(), |i: int| self.files@[i].watched()),
            interval_minutes: self.interval_minutes,
            running: self.running,
            max_scan_errors: self.max_scan_errors,
            cache_size_limit: self.cache_size_limit,
        }
    }
}

impl FileWatcher {
    /// What holds of every watcher: no path is monitored twice.
    pub open spec fn wf(&self) -> bool {
        distinct_paths(self@.files)
    }

    /// A watcher that monitors nothing yet and is not running.
    pub fn new(interval_minutes: u64, max_scan_errors: u32, cache_size_limit: usize) -> (r:
        FileWatcher)
        ensures
            r.wf(),
            r@ == (WatcherView {
                files: Seq::empty(),
                interval_minutes,
                running: false,
                max_scan_errors,
                cache_size_limit,
            }),
    {
        let r = FileWatcher {
            files: Vec::new(),
            interval_minutes,
            running: false,
            max_scan_errors,
            cache_size_limit,
        };
        assert(r@.files =~= Seq::empty());
        r
    }

    /// The place of `path` among the monitored files.
    pub fn find(&self, path: &str) -> (r: Option<usize>)
        ensures
            match r {
                Some(i) => i < self@.files.len() && i == index_of_path(self@.files, path@),
                None => index_of_path(self@.files, path@) == -1,
            },
    {
        let wanted = String::from_str(path);
        let mut i: usize = self.files.len();
        while i > 0
            invariant
                i <= self.files@.len(),
                wanted@ == path@,
                forall|k: int| i <= k < self@.files.len() ==> self@.files[k].path != path@,
            decreases i,
        {
            i -= 1;
            if self.files[i].path == wanted {
                proof {
                    assert(self@.files[i as int].path == path@);
                    lemma_index_of_path(self@.files, path@);
                }
                return Some(i);
            }
        }
        proof {
            lemma_index_of_path(self@.files, path@);
        }
        None
    }

    /// Registers `path`. A path that is monitored already is not added again:
    /// its failures are forgotten, so that it is scanned again, and its cache
    /// stays. A new path comes last, with no cache and no failures.
    pub fn add_file(&mut self, path: &str)
        ensures
            old(self).wf() ==> final(self).wf(),
            final(self)@ == (WatcherView {
                files: with_file(old(self)@.files, path@),
                ..old(self)@
            }),
    {
        proof {
            lemma_index_of_path(self@.files, path@);
        }
        match self.find(path) {
            Some(i) => {
                self.files[i].error_count = 0;
                assert(self@.files =~= with_file(old(self)@.files, path@));
            },
            None => {
                self.files.push(
                    MonitoredFile { path: String::from_str(path), cache: None, error_count: 0 },
                );
                assert(self@.files =~= with_file(old(self)@.files, path@));
            },
        }
    }

    /// Unregisters `path`. Says whether it was monitored.
    pub fn remove_file(&mut self, path: &str) -> (removed: bool)
        ensures
            old(self).wf() ==> final(self).wf(),
            removed == (index_of_path(old(self)@.files, path@) >= 0),
            final(self)@ == (WatcherView {
                files: without_file(old(self)@.files, path@),
                ..old(self)@
            }),
    {
        proof {
            lemma_index_of_path(self@.files, path@);
        }
        match self.find(path) {
            Some(i) => {
                self.files.remove(i);
                assert(self@.files =~= without_file(old(self)@.files, path@));
                true
            },
            None => false,
        }
    }

    /// Unregisters every file.
    pub fn clear(&mut self)
        ensures
            final(self).wf(),
            final(self)@ == (WatcherView { files: Seq::empty(), ..old(self)@ }),
    {
        self.files.clear();
        assert(self@.files =~= Seq::empty());
    }

    /// Starts the watcher with the given interval. The monitored files and
    /// what is remembered of them stay.
    pub fn start(&mut self, interval_minutes: u64)
        ensures
            final(self)@ == (WatcherView { running: true, interval_minutes, ..old(self)@ }),
    {
        self.running = true;
        self.interval_minutes = interval_minutes;
    }

    /// Stops the watcher. Stopping a stopped watcher changes nothing.
    pub fn stop(&mut self)
        ensures
            final(self)@ == (WatcherView { running: false, ..old(self)@ }),
    {
        self.running = false;
    }

    /// Sets the interval from the next tick on. The monitored files and what
    /// is remembered of them stay, and so does whether the watcher runs.
    pub fn set_interval(&mut self, minutes: u64)
        ensures
            final(self)@ == (WatcherView { interval_minutes: minutes, ..old(self)@ }),
    {
        self.interval_minutes = minutes;
    }

    /// Whether the watcher is running.
    pub fn is_running(&self) -> (r: bool)
        ensures
            r == self@.running,
    {
        self.running
    }

    /// The polling interval in minutes.
    pub fn interval_minutes(&self) -> (r: u64)
        ensures
            r == self@.interval_minutes,
    {
        self.interval_minutes
    }

    /// The number of monitored files.
    pub fn file_count(&self) -> (r: usize)
        ensures
            r == self@.files.len(),
    {
        self.files.len()
    }

    /// The monitored file at `index`, or nothing where there is none.
    pub fn file_at(&self, index: usize) -> (r: Option<MonitoredFile>)
        ensures
            match r {
                Some(file) => index < self@.files.len() && file.watched() == self@.files[index as int],
                None => index >= self@.files.len(),
            },
    {
        if index < self.files.len() {
            let file = &self.files[index];
            Some(
                MonitoredFile {
                    path: file.path.clone(),
                    cache: file.cache,
                    error_count: file.error_count,
                },
            )
        } else {
            None
        }
    }

    /// Whether the content of the file at `index` must be read to judge it,
    /// given the modification time and the size that were just seen. Of a
    /// file that is not there it must not.
    pub fn needs_content(&self, index: usize, modified_time: FileTime, size: u64) -> (r: bool)
        ensures
            r == (index < self@.files.len() && content_needed(
                self@.files[index as int].state.cache,
                modified_time,
                size,
            )),
    {
        if index < self.files.len() {
            match self.files[index].cache {
                None => true,
                Some(m) => m.modified_time != modified_time || m.size != size,
            }
        } else {
            false
        }
    }

    /// What is cached of `path`: nothing where it is not monitored or was
    /// never read.
    pub fn metadata_of(&self, path: &str) -> (r: Option<FileMetadata>)
        ensures
            r == cached_for(self@, path@),
    {
        proof {
            lemma_index_of_path(self@.files, path@);
        }
        match self.find(path) {
            Some(i) => self.files[i].cache,
            None => None,
        }
    }

    /// Whether the watcher has given up on `path`: it is monitored, and its
    /// scans failed more often in a row than the watcher allows.
    pub fn budget_exceeded(&self, path: &str) -> (r: bool)
        ensures
            r == path_budget_spent(self@, path@),
    {
        proof {
            lemma_index_of_path(self@.files, path@);
        }
        match self.find(path) {
            Some(i) => self.files[i].error_count > self.max_scan_errors as u64,
            None => false,
        }
    }

    /// Checks the budget of `path`: an error that names the path where the
    /// watcher has given up on it.
    pub fn check_budget(&self, path: &str) -> (r: Result<(), AppError>)
        ensures
            match r {
                Ok(_) => !path_budget_spent(self@, path@),
                Err(e) => path_budget_spent(self@, path@) && e@
                    == AppErrorView::ScanErrorBudgetExceeded(path@),
            },
    {
        if self.budget_exceeded(path) {
            Err(AppError::ScanErrorBudgetExceeded(String::from_str(path)))
        } else {
            Ok(())
        }
    }

    /// One tick: each monitored file takes the scan step for its observation,
    /// `observations[i]` being that of the file at `i`, and the changes come
    /// back as one batch in the order of the files. A file without an
    /// observation is left as it is. A watcher that is not running does
    /// nothing.
    pub fn tick(&mut self, observations: &Vec<FileObservation>) -> (changes: Vec<ConfigFileChange>)
        ensures
            old(self).wf() ==> final(self).wf(),
            final(self)@ == ticked(old(self)@, observations@),
            change_views(changes@) == tick_changes(old(self)@, observations@),
    {
        let mut changes: Vec<ConfigFileChange> = Vec::new();
        if !self.running {
            assert(change_views(changes@) =~= Seq::empty());
            return changes;
        }
        let n = if self.files.len() <= observations.len() {
            self.files.len()
        } else {
            observations.len()
        };
        let ghost before = self@;
        let mut i: usize = 0;
        while i < n
            invariant
                i <= n,
                n == observed(before, observations@),
                before == old(self)@,
                before.running,
                self@.files.len() == before.files.len(),
                self@.interval_minutes == before.interval_minutes,
                self@.running == before.running,
                self@.max_scan_errors == before.max_scan_errors,
                self@.cache_size_limit == before.cache_size_limit,
                forall|k: int|
                    0 <= k < i ==> self@.files[k] == (WatchedFile {
                        path: before.files[k].path,
                        state: scan_step(
                            before.files[k].state,
                            observations@[k],
                            before.max_scan_errors,
                        ).0,
                    }),
                forall|k: int| i <= k < before.files.len() ==> self@.files[k] == before.files[k],
                change_views(changes@) == changes_upto(before, observations@, i as int),
            decreases n - i,
        {
            let state = ScanState {
                cache: self.files[i].cache,
                error_count: self.files[i].error_count,
            };
            let (next, event) = scan(state, observations[i], self.max_scan_errors);
            let ghost earlier = self.files@;
            let ghost seen = self@.files;
            self.files[i].cache = next.cache;
            self.files[i].error_count = next.error_count;
            let ghost reported = change_views(changes@);
            match event {
                Some(change_type) => {
                    let change = ConfigFileChange {
                        file_path: self.files[i].path.clone(),
                        change_type,
                    };
                    changes.push(change);
                    assert(change_views(changes@) =~= reported.push(
                        ChangeView { file_path: before.files[i as int].path, change_type },
                    ));
                },
                None => {},
            }
            assert forall|k: int| 0 <= k < i + 1 implies self@.files[k] == (WatchedFile {
                path: before.files[k].path,
                state: scan_step(
                    before.files[k].state,
                    observations@[k],
                    before.max_scan_errors,
                ).0,
            }) by {
                if k < i {
                    assert(self.files@[k] == earlier[k]);
                    assert(self@.files[k] == seen[k]);
                } else {
                    assert(seen[k] == before.files[k]);
                }
            }
            i += 1;
        }
        assert(self@.files =~= ticked(before, observations@).files);
        changes
    }

    /// The counters that describe the watcher: how many files it monitors,
    /// how many of them have a cache, their consecutive failures added up (as
    /// far as the counter can hold them), and its settings.
    pub fn get_stats(&self) -> (r: MonitoringStats)
        ensures
            r.monitored_files_count == self@.files.len(),
            r.cached_metadata_count == cached_upto(self@.files, self@.files.len() as int),
            r.current_error_count == clip(errors_upto(self@.files, self@.files.len() as int)),
            r.is_running == self@.running,
            r.interval_minutes == self@.interval_minutes,
            r.cache_size_limit == self@.cache_size_limit,
            r.max_scan_errors == self@.max_scan_errors,
    {
        let mut cached: usize = 0;
        let mut errors: u64 = 0;
        let mut i: usize = 0;
        while i < self.files.len()
            invariant
                i <= self.files@.len(),
                cached <= i,
                cached == cached_upto(self@.files, i as int),
                errors == clip(errors_upto(self@.files, i as int)),
            decreases self.files@.len() - i,
        {
            let file = &self.files[i];
            if file.cache.is_some() {
                cached += 1;
            }
            let part: u64 = if file.error_count > 0xFFFF_FFFF {
                0xFFFF_FFFF
            } else {
                file.error_count
            };
            let sum: u64 = errors + part;
            errors = if sum > 0xFFFF_FFFF {
                0xFFFF_FFFF
            } else {
                sum
            };
            i += 1;
        }
        MonitoringStats {
            monitored_files_count: self.files.len(),
            cached_metadata_count: cached,
            current_error_count: errors as u32,
            is_running: self.running,
            interval_minutes: self.interval_minutes,
            cache_size_limit: self.cache_size_limit,
            max_scan_errors: self.max_scan_errors,
        }
    }
}

/// `n`, or the greatest `u32` where `n` is greater.
pub open spec fn clip(n: nat) -> u32 {
    if n > u32::MAX {
        u32::MAX
    } else {
        n as u32
    }
}

/// What the watcher has cached of the file with the path `path`.
pub open spec fn cached_for(w: WatcherView, path: Seq<char>) -> Option<FileMetadata> {
    let i = index_of_path(w.files, path);
    if i >= 0 {
        w.files[i].state.cache
    } else {
        None
    }
}

/// Whether the watcher has given up on the file with the path `path`.
pub open spec fn path_budget_spent(w: WatcherView, path: Seq<char>) -> bool {
    let i = index_of_path(w.files, path);
    i >= 0 && budget_spent(w.files[i].state, w.max_scan_errors)
}

/// What `index_of_path` finds: the file at the index has the path and none
/// after it has; -1 means that no file has the path.
pub proof fn lemma_index_of_path(files: Seq<WatchedFile>, path: Seq<char>)
    ensures
        -1 <= index_of_path(files, path) < files.len(),
        index_of_path(files, path) >= 0 ==> files[index_of_path(files, path)].path == path,
        forall|j: int| index_of_path(files, path) < j < files.len() ==> files[j].path != path,
    decreases files.len(),
{
    if files.len() > 0 && files.last().path != path {
        lemma_index_of_path(files.drop_last(), path);
        assert forall|j: int| index_of_path(files, path) < j < files.len() implies files[j].path
            != path by {
            if j < files.len() - 1 {
                assert(files.drop_last()[j] == files[j]);
            }
        }
    }
}

} // verus!
