//! The data the engine works on: profiles, statuses, change records and
//! settings, each with the mathematical view its contracts are stated over.

use vstd::prelude::*;

verus! {

/// A point in time as the file system reports it: whole seconds since the
/// Unix epoch and the nanoseconds within that second.
#[derive(Debug, Clone, Copy, PartialEq, Eq, Structural)]
pub struct FileTime {
    pub secs: u64,
    pub nanos: u32,
}

/// A named, file-backed snapshot of a configuration.
#[derive(Debug, Clone)]
pub struct Profile {
    pub name: String,
    pub path: String,
    pub content: String,
    pub is_active: bool,
}

/// What a `Profile` is, as plain sequences.
pub struct ProfileView {
    pub name: Seq<char>,
    pub path: Seq<char>,
    pub content: Seq<char>,
    pub is_active: bool,
}

impl View for Profile {
    type V = ProfileView;

    open spec fn view(&self) -> ProfileView {
        ProfileView {
            name: self.name@,
            path: self.path@,
            content: self.content@,
            is_active: self.is_active,
        }
    }
}

impl Profile {
    /// A copy of this profile, field by field.
    pub fn duplicate(&self) -> (r: Profile)
        ensures
            r@ == self@,
    {
        Profile {
            name: self.name.clone(),
            path: self.path.clone(),
            content: self.content.clone(),
            is_active: self.is_active,
        }
    }
}

/// The views of a list of profiles, in order.
pub open spec fn profile_views(profiles: Seq<Profile>) -> Seq<ProfileView> {
    Seq::new(profiles.len(), |i: int| profiles[i]@)
}

/// One row of the profile list as shown to the user.
#[derive(Debug, Clone)]
pub struct ProfileInfo {
    pub id: String,
    pub display_name: String,
    pub file_path: String,
    pub is_default: bool,
    pub last_modified: FileTime,
    pub file_size: u64,
}

/// What a `ProfileInfo` is, as plain values.
pub struct ProfileInfoView {
    pub id: Seq<char>,
    pub display_name: Seq<char>,
    pub file_path: Seq<char>,
    pub is_default: bool,
    pub last_modified: FileTime,
    pub file_size: u64,
}

impl View for ProfileInfo {
    type V = ProfileInfoView;

    open spec fn view(&self) -> ProfileInfoView {
        ProfileInfoView {
            id: self.id@,
            display_name: self.display_name@,
            file_path: self.file_path@,
            is_default: self.is_default,
            last_modified: self.last_modified,
            file_size: self.file_size,
        }
    }
}

/// One finding of a validator: where it is and what is wrong.
#[derive(Debug, Clone)]
pub struct ValidationError {
    pub line: usize,
    pub column: usize,
    pub message: String,
    pub error_type: String,
}

/// What a `ValidationError` is, as plain values.
pub struct ValidationErrorView {
    pub line: nat,
    pub column: nat,
    pub message: Seq<char>,
    pub error_type: Seq<char>,
}

impl View for ValidationError {
    type V = ValidationErrorView;

    open spec fn view(&self) -> ValidationErrorView {
        ValidationErrorView {
            line: self.line as nat,
            column: self.column as nat,
            message: self.message@,
            error_type: self.error_type@,
        }
    }
}

/// The findings of one validation run. `is_valid` holds exactly when there
/// are no findings.
#[derive(Debug, Clone)]
pub struct ValidationResult {
    pub is_valid: bool,
    pub errors: Vec<ValidationError>,
}

/// The views of a list of findings, in order.
pub open spec fn error_views(errors: Seq<ValidationError>) -> Seq<ValidationErrorView> {
    Seq::new(errors.len(), |i: int| errors[i]@)
}

/// What the watcher remembers of a file after a successful read.
#[derive(Debug, Clone, Copy, PartialEq, Eq, Structural)]
pub struct FileMetadata {
    pub modified_time: FileTime,
    pub checksum: u32,
    pub size: u64,
}

/// The user's settings.
#[derive(Debug, Clone)]
pub struct UserSettings {
    pub monitor_interval_minutes: u64,
    pub auto_start_monitoring: bool,
    pub language: Option<String>,
    pub show_notifications: bool,
    pub ignored_fields: Vec<String>,
}

/// How the live configuration relates to one profile.
#[derive(Debug, PartialEq)]
pub enum ProfileStatus {
    FullMatch,
    PartialMatch,
    NoMatch,
    Error(String),
}

/// What a `ProfileStatus` is, as plain values.
pub enum StatusView {
    FullMatch,
    PartialMatch,
    NoMatch,
    Error(Seq<char>),
}

impl View for ProfileStatus {
    type V = StatusView;

    open spec fn view(&self) -> StatusView {
        match self {
            ProfileStatus::FullMatch => StatusView::FullMatch,
            ProfileStatus::PartialMatch => StatusView::PartialMatch,
            ProfileStatus::NoMatch => StatusView::NoMatch,
            ProfileStatus::Error(reason) => StatusView::Error(reason@),
        }
    }
}

/// The views of a list of statuses, in order.
pub open spec fn status_views(statuses: Seq<ProfileStatus>) -> Seq<StatusView> {
    Seq::new(statuses.len(), |i: int| statuses[i]@)
}

/// The kind of change the watcher saw on a monitored file.
#[derive(Debug, Clone, Copy, PartialEq, Eq, Structural)]
pub enum ChangeType {
    Modified,
    Created,
    Deleted,
}

/// One change of one monitored file, as reported by a tick.
#[derive(Debug)]
pub struct ConfigFileChange {
    pub file_path: String,
    pub change_type: ChangeType,
}

/// What a `ConfigFileChange` is, as plain values.
pub struct ChangeView {
    pub file_path: Seq<char>,
    pub change_type: ChangeType,
}

impl View for ConfigFileChange {
    type V = ChangeView;

    open spec fn view(&self) -> ChangeView {
        ChangeView { file_path: self.file_path@, change_type: self.change_type }
    }
}

/// The views of a list of changes, in order.
pub open spec fn change_views(changes: Seq<ConfigFileChange>) -> Seq<ChangeView> {
    Seq::new(changes.len(), |i: int| changes[i]@)
}

/// Counters that describe a watcher; they drive no behaviour.
#[derive(Debug, Clone, Copy, PartialEq, Eq, Structural)]
pub struct MonitoringStats {
    pub monitored_files_count: usize,
    pub cached_metadata_count: usize,
    pub current_error_count: u32,
    pub is_running: bool,
    pub interval_minutes: u64,
    pub cache_size_limit: usize,
    pub max_scan_errors: u32,
}

/// The shape of a load test of the watcher.
#[derive(Debug, Clone, Copy, PartialEq, Eq, Structural)]
pub struct PerformanceTestConfig {
    pub test_duration_seconds: u64,
    pub file_count: usize,
    pub file_size_bytes: usize,
    pub modification_frequency_seconds: u64,
}

impl Default for PerformanceTestConfig {
    fn default() -> (r: Self)
        ensures
            r == (PerformanceTestConfig {
                test_duration_seconds: 60,
                file_count: 10,
                file_size_bytes: 1024,
                modification_frequency_seconds: 5,
            }),
    {
        PerformanceTestConfig {
            test_duration_seconds: 60,
            file_count: 10,
            file_size_bytes: 1024,
            modification_frequency_seconds: 5,
        }
    }
}

/// Why an operation of the engine failed.
#[derive(Debug, PartialEq)]
pub enum AppError {
    /// A read, write or stat failed.
    IoError(String),
    /// Content that should be JSON is not.
    ParseError(String),
    /// No profile has the given id.
    ProfileNotFound(String),
    /// A profile of the given name is already there.
    ProfileAlreadyExists(String),
    /// The profile's stored content is not JSON, so it cannot become live.
    InvalidProfileContent(String),
    /// Writing the live configuration failed; it is as it was.
    SwitchFailed(String),
    /// The store is in use by another operation.
    Busy,
    /// A monitored file failed more often in a row than the watcher allows.
    ScanErrorBudgetExceeded(String),
}

/// What an `AppError` is, as plain values.
pub enum AppErrorView {
    IoError(Seq<char>),
    ParseError(Seq<char>),
    ProfileNotFound(Seq<char>),
    ProfileAlreadyExists(Seq<char>),
    InvalidProfileContent(Seq<char>),
    SwitchFailed(Seq<char>),
    Busy,
    ScanErrorBudgetExceeded(Seq<char>),
}

impl View for AppError {
    type V = AppErrorView;

    open spec fn view(&self) -> AppErrorView {
        match self {
            AppError::IoError(s) => AppErrorView::IoError(s@),
            AppError::ParseError(s) => AppErrorView::ParseError(s@),
            AppError::ProfileNotFound(s) => AppErrorView::ProfileNotFound(s@),
            AppError::ProfileAlreadyExists(s) => AppErrorView::ProfileAlreadyExists(s@),
            AppError::InvalidProfileContent(s) => AppErrorView::InvalidProfileContent(s@),
            AppError::SwitchFailed(s) => AppErrorView::SwitchFailed(s@),
            AppError::Busy => AppErrorView::Busy,
            AppError::ScanErrorBudgetExceeded(s) => AppErrorView::ScanErrorBudgetExceeded(s@),
        }
    }
}

/// The message of an error for the user: what went wrong, and with what.
pub open spec fn message_of(error: AppErrorView) -> Seq<char> {
    match error {
        AppErrorView::IoError(reason) => "I/O error: "@ + reason,
        AppErrorView::ParseError(reason) => "Parse error: "@ + reason,
        AppErrorView::ProfileNotFound(id) => "Profile not found: "@ + id,
        AppErrorView::ProfileAlreadyExists(name) => "Profile already exists: "@ + name,
        AppErrorView::InvalidProfileContent(reason) => "Invalid profile content: "@ + reason,
        AppErrorView::SwitchFailed(reason) => "Switch failed: "@ + reason,
        AppErrorView::Busy => "The configuration is in use"@,
        AppErrorView::ScanErrorBudgetExceeded(path) => "Too many failed scans of "@ + path,
    }
}

/// What an error went wrong with: the reason, the id, the name or the path
/// that it holds; nothing for an error that holds none.
pub open spec fn detail_of(error: AppErrorView) -> Seq<char> {
    match error {
        AppErrorView::IoError(reason) => reason,
        AppErrorView::ParseError(reason) => reason,
        AppErrorView::ProfileNotFound(id) => id,
        AppErrorView::ProfileAlreadyExists(name) => name,
        AppErrorView::InvalidProfileContent(reason) => reason,
        AppErrorView::SwitchFailed(reason) => reason,
        AppErrorView::Busy => Seq::empty(),
        AppErrorView::ScanErrorBudgetExceeded(path) => path,
    }
}

impl AppError {
    /// What this error went wrong with.
    pub fn detail(self) -> (r: String)
        ensures
            r@ == detail_of(self@),
    {
        match self {
            AppError::IoError(reason) => reason,
            AppError::ParseError(reason) => reason,
            AppError::ProfileNotFound(id) => id,
            AppError::ProfileAlreadyExists(name) => name,
            AppError::InvalidProfileContent(reason) => reason,
            AppError::SwitchFailed(reason) => reason,
            AppError::Busy => String::new(),
            AppError::ScanErrorBudgetExceeded(path) => path,
        }
    }

    /// The message of this error for the user.
    pub fn message(&self) -> (r: String)
        ensures
            r@ == message_of(self@),
    {
        match self {
            AppError::IoError(reason) => String::from_str("I/O error: ").concat(reason.as_str()),
            AppError::ParseError(reason) => String::from_str("Parse error: ").concat(
                reason.as_str(),
            ),
            AppError::ProfileNotFound(id) => String::from_str("Profile not found: ").concat(
                id.as_str(),
            ),
            AppError::ProfileAlreadyExists(name) => String::from_str(
                "Profile already exists: ",
            ).concat(name.as_str()),
            AppError::InvalidProfileContent(reason) => String::from_str(
                "Invalid profile content: ",
            ).concat(reason.as_str()),
            AppError::SwitchFailed(reason) => String::from_str("Switch failed: ").concat(
                reason.as_str(),
            ),
            AppError::Busy => String::from_str("The configuration is in use"),
            AppError::ScanErrorBudgetExceeded(path) => String::from_str(
                "Too many failed scans of ",
            ).concat(path.as_str()),
        }
    }
}

/// The result of an operation of the engine.
pub type AppResult<T> = Result<T, AppError>;

} // verus!
