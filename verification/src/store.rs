//! The profile store: the profiles of one directory as they were last read,
//! the live configuration as it was last read, and the rules by which
//! profiles are listed, compared, changed and made live.
//!
//! The store does not touch the file system. It is told what a directory scan
//! found, it plans each write as a `FileAction` or a `SwitchPlan` for its
//! driver to carry out, and it is told how the write went.

use crate::comparator::{compare, compare_texts, parse_configuration};
use crate::json_parse::parsed_json;
use crate::text::{has_suffix, strip_suffix, text_set};
use crate::json::JsonValue;
use crate::types::{
    detail_of, message_of, profile_views, status_views, AppError, AppErrorView, FileTime,
    Profile, ProfileInfo, ProfileInfoView, ProfileStatus, ProfileView, StatusView,
};
use crate::watcher::{
    cached_for, path_budget_spent, with_file, FileWatcher, WatchedFile, WatcherView,
};
use vstd::prelude::*;

verus! {

/// The id that stands for the live configuration itself.
pub open spec fn current_id() -> Seq<char> {
    "current"@
}

/// What the name of a profile's file ends with.
pub open spec fn profile_suffix() -> Seq<char> {
    ".settings.json"@
}

/// The name of the live configuration's file.
pub open spec fn live_file_name() -> Seq<char> {
    "settings.json"@
}

/// The path of the file `file_name` in `directory`.
pub open spec fn path_in(directory: Seq<char>, file_name: Seq<char>) -> Seq<char> {
    directory + "/"@ + file_name
}

/// The name of the profile that the file `file_name` holds: the file name
/// without the profile suffix. A file name without that suffix holds none.
pub open spec fn profile_name(file_name: Seq<char>) -> Option<Seq<char>> {
    if has_suffix(file_name, profile_suffix()) {
        Some(file_name.subrange(0, file_name.len() - profile_suffix().len()))
    } else {
        None
    }
}

/// The name of the profile that the file `file_name` holds.
pub fn profile_name_of(file_name: &str) -> (r: Option<String>)
    ensures
        match r {
            Some(name) => profile_name(file_name@) == Some(name@),
            None => profile_name(file_name@) is None,
        },
{
    match strip_suffix(file_name, ".settings.json") {
        Some(name) => Some(String::from_str(name)),
        None => None,
    }
}

/// The name of the file that holds the profile `name`.
pub fn profile_file_name(name: &str) -> (r: String)
    ensures
        r@ == name@ + profile_suffix(),
{
    String::from_str(name).concat(".settings.json")
}

/// The path of the file `file_name` in `directory`.
pub fn join_path(directory: &str, file_name: &str) -> (r: String)
    ensures
        r@ == path_in(directory@, file_name@),
{
    String::from_str(directory).concat("/").concat(file_name)
}

/// One file that a scan of the directory found: its name, and its content
/// where it could be read.
#[derive(Debug, Clone)]
pub struct ScannedFile {
    pub file_name: String,
    pub content: Option<String>,
}

/// What a `ScannedFile` is, as plain values.
pub struct ScannedFileView {
    pub file_name: Seq<char>,
    pub content: Option<Seq<char>>,
}

impl View for ScannedFile {
    type V = ScannedFileView;

    open spec fn view(&self) -> ScannedFileView {
        ScannedFileView {
            file_name: self.file_name@,
            content: match self.content {
                Some(c) => Some(c@),
                None => None,
            },
        }
    }
}

/// The views of a list of scanned files, in order.
pub open spec fn scanned_views(files: Seq<ScannedFile>) -> Seq<ScannedFileView> {
    Seq::new(files.len(), |i: int| files[i]@)
}

/// A write that the store asks its driver to carry out.
#[derive(Debug, Clone, PartialEq)]
pub enum FileAction {
    /// Write `content` to the file at `path`.
    Write { path: String, content: String },
    /// Remove the file at `path`.
    Remove { path: String },
}

/// What a `FileAction` is, as plain values.
pub enum FileActionView {
    Write { path: Seq<char>, content: Seq<char> },
    Remove { path: Seq<char> },
}

impl View for FileAction {
    type V = FileActionView;

    open spec fn view(&self) -> FileActionView {
        match self {
            FileAction::Write { path, content } => FileActionView::Write {
                path: path@,
                content: content@,
            },
            FileAction::Remove { path } => FileActionView::Remove { path: path@ },
        }
    }
}

/// A switch that passed validation and waits for its write: `content` is to
/// be written to `temp_path`, and that file is then to replace the one at
/// `live_path`, so that a reader of the live file sees the old content or the
/// new one and never a part of either.
#[derive(Debug, Clone, PartialEq)]
pub struct SwitchPlan {
    pub profile_name: String,
    pub content: String,
    pub live_path: String,
    pub temp_path: String,
}

/// What a `SwitchPlan` is, as plain values.
pub struct SwitchPlanView {
    pub profile_name: Seq<char>,
    pub content: Seq<char>,
    pub live_path: Seq<char>,
    pub temp_path: Seq<char>,
}

impl View for SwitchPlan {
    type V = SwitchPlanView;

    open spec fn view(&self) -> SwitchPlanView {
        SwitchPlanView {
            profile_name: self.profile_name@,
            content: self.content@,
            live_path: self.live_path@,
            temp_path: self.temp_path@,
        }
    }
}

/// A store as the contracts see it.
pub struct StoreModel {
    pub directory: Seq<char>,
    pub live_content: Option<Seq<char>>,
    pub profiles: Seq<ProfileView>,
}

/// The path of the live configuration of a store.
pub open spec fn live_path(store: StoreModel) -> Seq<char> {
    path_in(store.directory, live_file_name())
}

/// The index of the last profile named `name`, or -1.
pub open spec fn profile_index(profiles: Seq<ProfileView>, name: Seq<char>) -> int
    decreases profiles.len(),
{
    if profiles.len() == 0 {
        -1
    } else if profiles.last().name == name {
        profiles.len() - 1
    } else {
        profile_index(profiles.drop_last(), name)
    }
}

/// What `profile_index` finds: the profile at the index has the name and none
/// after it has; -1 means that no profile has the name.
pub proof fn lemma_profile_index(profiles: Seq<ProfileView>, name: Seq<char>)
    ensures
        -1 <= profile_index(profiles, name) < profiles.len(),
        profile_index(profiles, name) >= 0 ==> profiles[profile_index(profiles, name)].name == name,
        forall|j: int| profile_index(profiles, name) < j < profiles.len() ==> profiles[j].name != name,
    decreases profiles.len(),
{
    if profiles.len() > 0 && profiles.last().name != name {
        lemma_profile_index(profiles.drop_last(), name);
        assert forall|j: int| profile_index(profiles, name) < j < profiles.len() implies profiles[j].name
            != name by {
            if j < profiles.len() - 1 {
                assert(profiles.drop_last()[j] == profiles[j]);
            }
        }
    }
}

/// No two profiles have one name.
pub open spec fn distinct_names(profiles: Seq<ProfileView>) -> bool {
    forall|i: int, j: int| 0 <= i < j < profiles.len() ==> profiles[i].name != profiles[j].name
}

/// At most one profile is marked active.
pub open spec fn at_most_one_active(profiles: Seq<ProfileView>) -> bool {
    forall|i: int, j: int|
        0 <= i < j < profiles.len() ==> !(profiles[i].is_active && profiles[j].is_active)
}

/// The index of the last profile that is marked active, or -1.
pub open spec fn active_index(profiles: Seq<ProfileView>) -> int
    decreases profiles.len(),
{
    if profiles.len() == 0 {
        -1
    } else if profiles.last().is_active {
        profiles.len() - 1
    } else {
        active_index(profiles.drop_last())
    }
}

/// The name of the profile that is marked active, if one is.
pub open spec fn active_name(profiles: Seq<ProfileView>) -> Option<Seq<char>> {
    if active_index(profiles) >= 0 {
        Some(profiles[active_index(profiles)].name)
    } else {
        None
    }
}

/// The profiles that a scan makes of the first `n` files it found, in the
/// order of the files. A file whose name has the profile suffix is a profile;
/// a second file for a name that is there already is passed over. A profile
/// whose file could not be read has an empty content. The profile that was
/// marked active stays so.
pub open spec fn scanned_upto(
    directory: Seq<char>,
    files: Seq<ScannedFileView>,
    active: Option<Seq<char>>,
    n: int,
) -> Seq<ProfileView>
    decreases n,
{
    if n <= 0 || n > files.len() {
        Seq::empty()
    } else {
        let before = scanned_upto(directory, files, active, n - 1);
        let file = files[n - 1];
        match profile_name(file.file_name) {
            Some(name) => if profile_index(before, name) >= 0 {
                before
            } else {
                before.push(
                    ProfileView {
                        name,
                        path: path_in(directory, file.file_name),
                        content: match file.content {
                            Some(c) => c,
                            None => Seq::empty(),
                        },
                        is_active: active == Some(name),
                    },
                )
            },
            None => before,
        }
    }
}

/// The store after a scan that found `files`: the profiles are those that
/// the files make; the rest stays.
pub open spec fn after_scan(store: StoreModel, files: Seq<ScannedFileView>) -> StoreModel {
    StoreModel {
        profiles: scanned_upto(
            store.directory,
            files,
            active_name(store.profiles),
            files.len() as int,
        ),
        ..store
    }
}

/// What `active_index` finds: the profile at the index is marked active and
/// none after it is; -1 means that no profile is marked active.
pub proof fn lemma_active_index(profiles: Seq<ProfileView>)
    ensures
        -1 <= active_index(profiles) < profiles.len(),
        active_index(profiles) >= 0 ==> profiles[active_index(profiles)].is_active,
        forall|j: int| active_index(profiles) < j < profiles.len() ==> !profiles[j].is_active,
    decreases profiles.len(),
{
    if profiles.len() > 0 && !profiles.last().is_active {
        lemma_active_index(profiles.drop_last());
        assert forall|j: int| active_index(profiles) < j < profiles.len() implies !profiles[j].is_active by {
            if j < profiles.len() - 1 {
                assert(profiles.drop_last()[j] == profiles[j]);
            }
        }
    }
}

/// The profiles that a scan makes have distinct names, and the one marked
/// active, if any, is the one that was.
pub proof fn lemma_scanned_well_formed(
    directory: Seq<char>,
    files: Seq<ScannedFileView>,
    active: Option<Seq<char>>,
    n: int,
)
    ensures
        distinct_names(scanned_upto(directory, files, active, n)),
        at_most_one_active(scanned_upto(directory, files, active, n)),
        forall|i: int|
            0 <= i < scanned_upto(directory, files, active, n).len() ==> #[trigger] scanned_upto(
                directory,
                files,
                active,
                n,
            )[i].is_active == (active == Some(scanned_upto(directory, files, active, n)[i].name)),
    decreases n,
{
    if 0 < n <= files.len() {
        lemma_scanned_well_formed(directory, files, active, n - 1);
        let before = scanned_upto(directory, files, active, n - 1);
        match profile_name(files[n - 1].file_name) {
            Some(name) => {
                lemma_profile_index(before, name);
            },
            None => {},
        }
    }
}

/// The monitored files once the paths of the first `n` profiles are
/// registered, one after the other.
pub open spec fn registered_upto(files: Seq<WatchedFile>, profiles: Seq<ProfileView>, n: int) -> Seq<
    WatchedFile,
>
    decreases n,
{
    if n <= 0 || n > profiles.len() {
        files
    } else {
        with_file(registered_upto(files, profiles, n - 1), profiles[n - 1].path)
    }
}

/// What the store answers when asked for the content under an id: the live
/// content for the id of the live configuration, the content of the profile
/// of that name otherwise.
pub open spec fn content_of(store: StoreModel, id: Seq<char>) -> Result<Seq<char>, AppErrorView> {
    if id == current_id() {
        match store.live_content {
            Some(c) => Ok(c),
            None => Err(AppErrorView::IoError("live configuration is not available"@)),
        }
    } else if profile_index(store.profiles, id) >= 0 {
        Ok(store.profiles[profile_index(store.profiles, id)].content)
    } else {
        Err(AppErrorView::ProfileNotFound(id))
    }
}

/// The status of one profile: an error where the watcher has given up on the
/// profile's file or the live configuration is not available, else what the
/// comparison of the live content with the profile's content gives.
pub open spec fn status_of(
    store: StoreModel,
    watcher: WatcherView,
    ignored: Set<Seq<char>>,
    profile: ProfileView,
) -> StatusView {
    if path_budget_spent(watcher, profile.path) {
        StatusView::Error(message_of(AppErrorView::ScanErrorBudgetExceeded(profile.path)))
    } else {
        match store.live_content {
            None => StatusView::Error("live configuration is not available"@),
            Some(live) => compare_texts(live, profile.content, ignored),
        }
    }
}

/// The statuses of all profiles, in the order of the profiles.
pub open spec fn statuses(store: StoreModel, watcher: WatcherView, ignored: Set<Seq<char>>) -> Seq<
    StatusView,
> {
    Seq::new(store.profiles.len(), |i: int| status_of(store, watcher, ignored, store.profiles[i]))
}

/// The status under an id: none for the live configuration, which is not
/// compared with itself; an error for an id that names no profile; else the
/// status of the profile.
pub open spec fn status_under(
    store: StoreModel,
    watcher: WatcherView,
    ignored: Set<Seq<char>>,
    id: Seq<char>,
) -> Option<StatusView> {
    if id == current_id() {
        None
    } else if profile_index(store.profiles, id) >= 0 {
        Some(status_of(store, watcher, ignored, store.profiles[profile_index(store.profiles, id)]))
    } else {
        Some(StatusView::Error("profile not found"@))
    }
}

/// The row of the profile list for the file at `path` under the id `id`. The
/// id is shown as the name. The time of modification and the size are those
/// that the watcher has cached of the file, or zero where it has none.
pub open spec fn info_of(
    watcher: WatcherView,
    id: Seq<char>,
    path: Seq<char>,
    is_default: bool,
) -> ProfileInfoView {
    ProfileInfoView {
        id,
        display_name: id,
        file_path: path,
        is_default,
        last_modified: match cached_for(watcher, path) {
            Some(m) => m.modified_time,
            None => FileTime { secs: 0, nanos: 0 },
        },
        file_size: match cached_for(watcher, path) {
            Some(m) => m.size,
            None => 0,
        },
    }
}

/// The profile list: the live configuration first, as the default, then the
/// profiles in their order.
pub open spec fn profile_list(store: StoreModel, watcher: WatcherView) -> Seq<ProfileInfoView> {
    Seq::new(
        store.profiles.len() + 1,
        |i: int|
            if i == 0 {
                info_of(watcher, current_id(), live_path(store), true)
            } else {
                info_of(watcher, store.profiles[i - 1].name, store.profiles[i - 1].path, false)
            },
    )
}

/// The views of a list of rows, in order.
pub open spec fn info_views(rows: Seq<ProfileInfo>) -> Seq<ProfileInfoView> {
    Seq::new(rows.len(), |i: int| rows[i]@)
}

/// What saving `content` under an id asks for: a write to the live file for
/// the id of the live configuration, a write to the profile's file for a
/// profile; an id that names neither is not found.
pub open spec fn save_plan(store: StoreModel, id: Seq<char>, content: Seq<char>) -> Result<
    FileActionView,
    AppErrorView,
> {
    if id == current_id() {
        Ok(FileActionView::Write { path: live_path(store), content })
    } else if profile_index(store.profiles, id) >= 0 {
        Ok(
            FileActionView::Write {
                path: store.profiles[profile_index(store.profiles, id)].path,
                content,
            },
        )
    } else {
        Err(AppErrorView::ProfileNotFound(id))
    }
}

/// What creating a profile asks for: a write to the file of that name in the
/// directory. A name that a profile has, or the id of the live
/// configuration, exists already.
pub open spec fn create_plan(store: StoreModel, name: Seq<char>, content: Seq<char>) -> Result<
    FileActionView,
    AppErrorView,
> {
    if name == current_id() || profile_index(store.profiles, name) >= 0 {
        Err(AppErrorView::ProfileAlreadyExists(name))
    } else {
        Ok(
            FileActionView::Write {
                path: path_in(store.directory, name + profile_suffix()),
                content,
            },
        )
    }
}

/// What deleting a profile asks for: the removal of its file. An id that
/// names no profile is not found; the live configuration is no profile.
pub open spec fn delete_plan(store: StoreModel, id: Seq<char>) -> Result<
    FileActionView,
    AppErrorView,
> {
    if id != current_id() && profile_index(store.profiles, id) >= 0 {
        Ok(FileActionView::Remove { path: store.profiles[profile_index(store.profiles, id)].path })
    } else {
        Err(AppErrorView::ProfileNotFound(id))
    }
}

/// What a requested switch comes to before anything is written: not found
/// for an id that names no profile; invalid content, with the parser's
/// message, for a profile whose content is not JSON; else the plan to write
/// the profile's content over the live file by way of a temporary file.
pub open spec fn switch_plan(store: StoreModel, id: Seq<char>) -> Result<
    SwitchPlanView,
    AppErrorView,
> {
    if id == current_id() || profile_index(store.profiles, id) < 0 {
        Err(AppErrorView::ProfileNotFound(id))
    } else {
        let profile = store.profiles[profile_index(store.profiles, id)];
        match parsed_json(profile.content) {
            Err(e) => Err(AppErrorView::InvalidProfileContent(e.message)),
            Ok(_) => Ok(
                SwitchPlanView {
                    profile_name: profile.name,
                    content: profile.content,
                    live_path: live_path(store),
                    temp_path: live_path(store) + ".tmp"@,
                },
            ),
        }
    }
}

/// The profiles once `name` is the one that is marked active.
pub open spec fn marked_active(profiles: Seq<ProfileView>, name: Seq<char>) -> Seq<ProfileView> {
    Seq::new(
        profiles.len(),
        |i: int| ProfileView { is_active: profiles[i].name == name, ..profiles[i] },
    )
}

/// The store after the write of a switch went well: the live content is the
/// plan's content, and the plan's profile is the one marked active.
pub open spec fn switched(store: StoreModel, plan: SwitchPlanView) -> StoreModel {
    StoreModel {
        directory: store.directory,
        live_content: Some(plan.content),
        profiles: marked_active(store.profiles, plan.profile_name),
    }
}

/// The profiles of one directory and its live configuration, as last read.
pub struct ProfileStore {
    directory: String,
    live_content: Option<String>,
    profiles: Vec<Profile>,
}

impl View for ProfileStore {
    type V = StoreModel;

    closed spec fn view(&self) -> StoreModel {
        StoreModel {
            directory: self.directory@,
            live_content: match self.live_content {
                Some(c) => Some(c@),
                None => None,
            },
            profiles: profile_views(self.profiles@),
        }
    }
}

impl ProfileStore {
    /// What holds of every store: no two profiles have one name, and at most
    /// one profile is marked active.
    pub open spec fn wf(&self) -> bool {
        distinct_names(self@.profiles) && at_most_one_active(self@.profiles)
    }

    /// A store for `directory` that has read nothing yet.
    pub fn new(directory: &str) -> (r: ProfileStore)
        ensures
            r.wf(),
            r@ == (StoreModel {
                directory: directory@,
                live_content: None,
                profiles: Seq::empty(),
            }),
    {
        let r = ProfileStore {
            directory: String::from_str(directory),
            live_content: None,
            profiles: Vec::new(),
        };
        assert(r@.profiles =~= Seq::empty());
        r
    }

    /// The directory of the store.
    pub fn directory(&self) -> (r: &String)
        ensures
            r@ == self@.directory,
    {
        &self.directory
    }

    /// The path of the live configuration.
    pub fn live_path(&self) -> (r: String)
        ensures
            r@ == live_path(self@),
    {
        join_path(self.directory.as_str(), "settings.json")
    }

    /// The profiles, in the order of the last scan.
    pub fn get_profiles(&self) -> (r: &Vec<Profile>)
        ensures
            profile_views(r@) == self@.profiles,
    {
        &self.profiles
    }

    /// The paths that are to be monitored: that of the live configuration,
    /// then that of each profile.
    pub fn get_monitored_files(&self) -> (r: Vec<String>)
        ensures
            r@.len() == self@.profiles.len() + 1,
            r@[0]@ == live_path(self@),
            forall|i: int| 0 <= i < self@.profiles.len() ==> r@[i + 1]@ == self@.profiles[i].path,
    {
        let mut out: Vec<String> = Vec::new();
        out.push(self.live_path());
        let mut i: usize = 0;
        while i < self.profiles.len()
            invariant
                i <= self.profiles@.len(),
                out@.len() == i + 1,
                out@[0]@ == live_path(self@),
                forall|k: int| 0 <= k < i ==> out@[k + 1]@ == self@.profiles[k].path,
            decreases self.profiles@.len() - i,
        {
            out.push(self.profiles[i].path.clone());
            i += 1;
        }
        out
    }

    /// The profile list, with the time of modification and the size of each
    /// file as the watcher has cached them.
    pub fn list_profiles(&self, watcher: &FileWatcher) -> (r: Vec<ProfileInfo>)
        ensures
            info_views(r@) == profile_list(self@, watcher@),
    {
        let mut rows: Vec<ProfileInfo> = Vec::new();
        let live = self.live_path();
        rows.push(make_info(watcher, String::from_str("current"), live, true));
        let mut i: usize = 0;
        while i < self.profiles.len()
            invariant
                i <= self.profiles@.len(),
                rows@.len() == i + 1,
                forall|k: int| 0 <= k <= i ==> rows@[k]@ == profile_list(self@, watcher@)[k],
            decreases self.profiles@.len() - i,
        {
            let profile = &self.profiles[i];
            rows.push(make_info(watcher, profile.name.clone(), profile.path.clone(), false));
            i += 1;
        }
        assert(info_views(rows@) =~= profile_list(self@, watcher@));
        rows
    }

    /// Takes note of what was read of the live configuration: its content,
    /// or nothing where it could not be read.
    pub fn set_live_content(&mut self, content: Option<String>)
        ensures
            final(self)@ == (StoreModel {
                live_content: match content {
                    Some(c) => Some(c@),
                    None => None,
                },
                ..old(self)@
            }),
    {
        self.live_content = content;
    }

    /// The place of the profile named `name`.
    pub fn find_profile(&self, name: &str) -> (r: Option<usize>)
        ensures
            match r {
                Some(i) => i < self@.profiles.len() && i == profile_index(self@.profiles, name@),
                None => profile_index(self@.profiles, name@) == -1,
            },
    {
        let wanted = String::from_str(name);
        find_by_name(&self.profiles, &wanted)
    }

    /// The name of the profile that is marked active, if one is.
    pub fn active_profile_name(&self) -> (r: Option<String>)
        ensures
            match r {
                Some(name) => active_name(self@.profiles) == Some(name@),
                None => active_name(self@.profiles) is None,
            },
    {
        let mut i: usize = self.profiles.len();
        while i > 0
            invariant
                i <= self.profiles@.len(),
                forall|j: int| i <= j < self@.profiles.len() ==> !self@.profiles[j].is_active,
            decreases i,
        {
            i -= 1;
            if self.profiles[i].is_active {
                proof {
                    assert(self@.profiles[i as int].is_active);
                    lemma_active_index(self@.profiles);
                }
                return Some(self.profiles[i].name.clone());
            }
        }
        proof {
            lemma_active_index(self@.profiles);
        }
        None
    }

    /// Takes in what a scan of the directory found. A scan that failed is an
    /// error and changes nothing: the profiles stay as they were. Otherwise
    /// the profiles are those that the files make, in the order of the files,
    /// and the path of each is registered with the watcher.
    pub fn scan(&mut self, listing: Result<Vec<ScannedFile>, String>, watcher: &mut FileWatcher) -> (r:
        Result<(), AppError>)
        ensures
            old(watcher).wf() ==> final(watcher).wf(),
            old(self).wf() ==> final(self).wf(),
            match listing {
                Err(reason) => r matches Err(e) && e@ == AppErrorView::IoError(reason@)
                    && final(self)@ == old(self)@ && final(watcher)@ == old(watcher)@,
                Ok(files) => r is Ok && final(self).wf() && final(self)@ == after_scan(
                    old(self)@,
                    scanned_views(files@),
                ) && final(watcher)@ == (WatcherView {
                    files: registered_upto(
                        old(watcher)@.files,
                        final(self)@.profiles,
                        final(self)@.profiles.len() as int,
                    ),
                    ..old(watcher)@
                }),
            },
    {
        match listing {
            Err(reason) => Err(AppError::IoError(reason)),
            Ok(files) => {
                let active = self.active_profile_name();
                let ghost marked = active_name(self@.profiles);
                let ghost found = scanned_views(files@);
                let mut fresh: Vec<Profile> = Vec::new();
                let mut i: usize = 0;
                while i < files.len()
                    invariant
                        i <= files@.len(),
                        found == scanned_views(files@),
                        marked == active_name(self@.profiles),
                        match active {
                            Some(name) => marked == Some(name@),
                            None => marked is None,
                        },
                        self@ == old(self)@,
                        profile_views(fresh@) == scanned_upto(
                            self@.directory,
                            found,
                            marked,
                            i as int,
                        ),
                    decreases files@.len() - i,
                {
                    let file = &files[i];
                    let ghost before = profile_views(fresh@);
                    assert(found[i as int] == file@);
                    match profile_name_of(file.file_name.as_str()) {
                        Some(name) => {
                            if find_by_name(&fresh, &name).is_none() {
                                let is_active = match &active {
                                    Some(a) => *a == name,
                                    None => false,
                                };
                                let content = match &file.content {
                                    Some(c) => c.clone(),
                                    None => String::new(),
                                };
                                let path = join_path(
                                    self.directory.as_str(),
                                    file.file_name.as_str(),
                                );
                                let profile = Profile { name, path, content, is_active };
                                fresh.push(profile);
                                assert(profile_views(fresh@) =~= before.push(profile@));
                            }
                        },
                        None => {},
                    }
                    i += 1;
                }
                proof {
                    lemma_scanned_well_formed(self@.directory, found, marked, files@.len() as int);
                }
                let ghost made = profile_views(fresh@);
                let ghost watched = watcher@;
                let mut k: usize = 0;
                while k < fresh.len()
                    invariant
                        k <= fresh@.len(),
                        made == profile_views(fresh@),
                        old(watcher).wf() ==> watcher.wf(),
                        watched == old(watcher)@,
                        watcher@ == (WatcherView {
                            files: registered_upto(watched.files, made, k as int),
                            ..watched
                        }),
                    decreases fresh@.len() - k,
                {
                    assert(made[k as int].path == fresh@[k as int].path@);
                    watcher.add_file(fresh[k].path.as_str());
                    k += 1;
                }
                self.profiles = fresh;
                Ok(())
            },
        }
    }

    /// The content under `profile_id`, as last read.
    pub fn read_content(&self, profile_id: &str) -> (r: Result<String, AppError>)
        ensures
            match r {
                Ok(c) => content_of(self@, profile_id@) == Ok::<Seq<char>, AppErrorView>(c@),
                Err(e) => content_of(self@, profile_id@) == Err::<Seq<char>, AppErrorView>(e@),
            },
    {
        if is_current(profile_id) {
            match &self.live_content {
                Some(c) => Ok(c.clone()),
                None => Err(
                    AppError::IoError(String::from_str("live configuration is not available")),
                ),
            }
        } else {
            match self.find_profile(profile_id) {
                Some(i) => Ok(self.profiles[i].content.clone()),
                None => Err(AppError::ProfileNotFound(String::from_str(profile_id))),
            }
        }
    }

    /// The status of the profile at `index`.
    fn status_at(&self, index: usize, watcher: &FileWatcher, ignored_fields: &Vec<String>) -> (r:
        ProfileStatus)
        requires
            index < self@.profiles.len(),
        ensures
            r@ == status_of(
                self@,
                watcher@,
                text_set(ignored_fields@),
                self@.profiles[index as int],
            ),
    {
        let profile = &self.profiles[index];
        match watcher.check_budget(profile.path.as_str()) {
            Err(e) => ProfileStatus::Error(e.message()),
            Ok(_) => match &self.live_content {
                None => ProfileStatus::Error(
                    String::from_str("live configuration is not available"),
                ),
                Some(live) => compare(live.as_str(), profile.content.as_str(), ignored_fields),
            },
        }
    }

    /// The status under `profile_id`: none for the live configuration, an
    /// error for an id that names no profile.
    pub fn status_for(&self, profile_id: &str, watcher: &FileWatcher, ignored_fields: &Vec<String>) -> (r:
        Option<ProfileStatus>)
        ensures
            match r {
                Some(status) => status_under(
                    self@,
                    watcher@,
                    text_set(ignored_fields@),
                    profile_id@,
                ) == Some(status@),
                None => status_under(self@, watcher@, text_set(ignored_fields@), profile_id@)
                    is None,
            },
    {
        if is_current(profile_id) {
            None
        } else {
            match self.find_profile(profile_id) {
                Some(i) => Some(self.status_at(i, watcher, ignored_fields)),
                None => Some(ProfileStatus::Error(String::from_str("profile not found"))),
            }
        }
    }

    /// The status of each profile, in the order of the profiles.
    pub fn compare_all(&self, watcher: &FileWatcher, ignored_fields: &Vec<String>) -> (r: Vec<
        ProfileStatus,
    >)
        ensures
            status_views(r@) == statuses(self@, watcher@, text_set(ignored_fields@)),
    {
        let mut out: Vec<ProfileStatus> = Vec::new();
        let mut i: usize = 0;
        while i < self.profiles.len()
            invariant
                i <= self.profiles@.len(),
                out@.len() == i,
                forall|k: int|
                    0 <= k < i ==> out@[k]@ == status_of(
                        self@,
                        watcher@,
                        text_set(ignored_fields@),
                        self@.profiles[k],
                    ),
            decreases self.profiles@.len() - i,
        {
            let status = self.status_at(i, watcher, ignored_fields);
            out.push(status);
            i += 1;
        }
        assert(status_views(out@) =~= statuses(self@, watcher@, text_set(ignored_fields@)));
        out
    }

    /// Plans the saving of `content` under `profile_id`.
    pub fn save_content(&self, profile_id: &str, content: &str) -> (r: Result<FileAction, AppError>)
        ensures
            match r {
                Ok(action) => save_plan(self@, profile_id@, content@) == Ok::<
                    FileActionView,
                    AppErrorView,
                >(action@),
                Err(e) => save_plan(self@, profile_id@, content@) == Err::<
                    FileActionView,
                    AppErrorView,
                >(e@),
            },
    {
        if is_current(profile_id) {
            Ok(FileAction::Write { path: self.live_path(), content: String::from_str(content) })
        } else {
            match self.find_profile(profile_id) {
                Some(i) => Ok(
                    FileAction::Write {
                        path: self.profiles[i].path.clone(),
                        content: String::from_str(content),
                    },
                ),
                None => Err(AppError::ProfileNotFound(String::from_str(profile_id))),
            }
        }
    }

    /// Plans the creation of the profile `name` with `content`. The path of
    /// the write is the path of the new file.
    pub fn create(&self, name: &str, content: &str) -> (r: Result<FileAction, AppError>)
        ensures
            match r {
                Ok(action) => create_plan(self@, name@, content@) == Ok::<
                    FileActionView,
                    AppErrorView,
                >(action@),
                Err(e) => create_plan(self@, name@, content@) == Err::<
                    FileActionView,
                    AppErrorView,
                >(e@),
            },
    {
        if is_current(name) || self.find_profile(name).is_some() {
            Err(AppError::ProfileAlreadyExists(String::from_str(name)))
        } else {
            let file_name = profile_file_name(name);
            Ok(
                FileAction::Write {
                    path: join_path(self.directory.as_str(), file_name.as_str()),
                    content: String::from_str(content),
                },
            )
        }
    }

    /// Plans the deletion of the profile `profile_id`.
    pub fn delete(&self, profile_id: &str) -> (r: Result<FileAction, AppError>)
        ensures
            match r {
                Ok(action) => delete_plan(self@, profile_id@) == Ok::<FileActionView, AppErrorView>(
                    action@,
                ),
                Err(e) => delete_plan(self@, profile_id@) == Err::<FileActionView, AppErrorView>(
                    e@,
                ),
            },
    {
        if is_current(profile_id) {
            return Err(AppError::ProfileNotFound(String::from_str(profile_id)));
        }
        match self.find_profile(profile_id) {
            Some(i) => Ok(FileAction::Remove { path: self.profiles[i].path.clone() }),
            None => Err(AppError::ProfileNotFound(String::from_str(profile_id))),
        }
    }

    /// The first half of a switch: resolves `profile_id` and checks that the
    /// profile's content is JSON. Nothing is written and nothing changes; the
    /// plan that comes back says what is to be written.
    pub fn begin_switch(&self, profile_id: &str) -> (r: Result<SwitchPlan, AppError>)
        ensures
            match r {
                Ok(plan) => switch_plan(self@, profile_id@) == Ok::<SwitchPlanView, AppErrorView>(
                    plan@,
                ),
                Err(e) => switch_plan(self@, profile_id@) == Err::<SwitchPlanView, AppErrorView>(
                    e@,
                ),
            },
    {
        if is_current(profile_id) {
            return Err(AppError::ProfileNotFound(String::from_str(profile_id)));
        }
        match self.find_profile(profile_id) {
            None => Err(AppError::ProfileNotFound(String::from_str(profile_id))),
            Some(i) => {
                let profile = &self.profiles[i];
                let validation = parse_configuration(profile.content.as_str());
                plan_after_validation(profile, self.live_path(), validation)
            },
        }
    }

    /// The second half of a switch, given how the write went. A write that
    /// failed leaves the store as it was and is reported as a failed switch.
    /// A write that went well makes the plan's content the live content and
    /// the plan's profile the only one marked active.
    pub fn finish_switch(&mut self, plan: &SwitchPlan, written: Result<(), String>) -> (r: Result<
        (),
        AppError,
    >)
        ensures
            old(self).wf() ==> final(self).wf(),
            match written {
                Ok(_) => r is Ok && final(self)@ == switched(old(self)@, plan@),
                Err(reason) => r matches Err(e) && e@ == AppErrorView::SwitchFailed(reason@)
                    && final(self)@ == old(self)@,
            },
    {
        match written {
            Err(reason) => Err(AppError::SwitchFailed(reason)),
            Ok(_) => {
                let mut i: usize = 0;
                while i < self.profiles.len()
                    invariant
                        i <= self.profiles@.len(),
                        self.profiles@.len() == old(self).profiles@.len(),
                        self.directory == old(self).directory,
                        self.live_content == old(self).live_content,
                        forall|k: int|
                            0 <= k < i ==> self.profiles@[k]@ == (ProfileView {
                                is_active: old(self).profiles@[k].name@ == plan.profile_name@,
                                ..old(self).profiles@[k]@
                            }),
                        forall|k: int|
                            i <= k < self.profiles@.len() ==> self.profiles@[k]
                                == old(self).profiles@[k],
                    decreases self.profiles@.len() - i,
                {
                    let ghost earlier = self.profiles@;
                    let active = self.profiles[i].name == plan.profile_name;
                    self.profiles[i].is_active = active;
                    assert forall|k: int| 0 <= k < i + 1 implies self.profiles@[k]@ == (ProfileView {
                        is_active: old(self).profiles@[k].name@ == plan.profile_name@,
                        ..old(self).profiles@[k]@
                    }) by {
                        if k < i {
                            assert(self.profiles@[k] == earlier[k]);
                        }
                    }
                    i += 1;
                }
                self.live_content = Some(plan.content.clone());
                assert(self@.profiles =~= marked_active(old(self)@.profiles, plan@.profile_name));
                Ok(())
            },
        }
    }
}

/// The row of the profile list for the file at `path` under the id `id`.
fn make_info(watcher: &FileWatcher, id: String, path: String, is_default: bool) -> (r: ProfileInfo)
    ensures
        r@ == info_of(watcher@, id@, path@, is_default),
{
    let cached = watcher.metadata_of(path.as_str());
    let (last_modified, file_size) = match cached {
        Some(m) => (m.modified_time, m.size),
        None => (FileTime { secs: 0, nanos: 0 }, 0),
    };
    ProfileInfo {
        display_name: id.clone(),
        id,
        file_path: path,
        is_default,
        last_modified,
        file_size,
    }
}

/// What a switch to `profile` comes to once its content has been parsed: a
/// content that did not parse is invalid, with the parser's message; one that
/// parsed is to be written to the file at `live_path` by way of the temporary
/// file beside it.
pub fn plan_after_validation(
    profile: &Profile,
    live_path: String,
    validation: Result<JsonValue, AppError>,
) -> (r: Result<SwitchPlan, AppError>)
    ensures
        match validation {
            Err(e) => r matches Err(refusal) && refusal@ == AppErrorView::InvalidProfileContent(
                detail_of(e@),
            ),
            Ok(_) => r matches Ok(plan) && plan@ == (SwitchPlanView {
                profile_name: profile@.name,
                content: profile@.content,
                live_path: live_path@,
                temp_path: live_path@ + ".tmp"@,
            }),
        },
{
    match validation {
        Err(e) => Err(AppError::InvalidProfileContent(e.detail())),
        Ok(_) => {
            let temp_path = live_path.clone().concat(".tmp");
            Ok(
                SwitchPlan {
                    profile_name: profile.name.clone(),
                    content: profile.content.clone(),
                    live_path,
                    temp_path,
                },
            )
        },
    }
}

/// The place of the last profile named `name` among `profiles`.
pub fn find_by_name(profiles: &Vec<Profile>, name: &String) -> (r: Option<usize>)
    ensures
        match r {
            Some(i) => i < profiles@.len() && i == profile_index(profile_views(profiles@), name@),
            None => profile_index(profile_views(profiles@), name@) == -1,
        },
{
    let ghost views = profile_views(profiles@);
    let mut i: usize = profiles.len();
    while i > 0
        invariant
            i <= profiles@.len(),
            views == profile_views(profiles@),
            forall|j: int| i <= j < views.len() ==> views[j].name != name@,
        decreases i,
    {
        i -= 1;
        if profiles[i].name == *name {
            proof {
                assert(views[i as int].name == name@);
                lemma_profile_index(views, name@);
            }
            return Some(i);
        }
    }
    proof {
        lemma_profile_index(views, name@);
    }
    None
}

/// Whether `id` is the id of the live configuration.
pub fn is_current(id: &str) -> (r: bool)
    ensures
        r == (id@ == current_id()),
{
    crate::text::same_text(id, "current")
}

} // verus!
