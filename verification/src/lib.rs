//! A configuration switcher's engine: it watches a set of configuration
//! files, compares the live configuration with each stored profile, and
//! plans the switch from one profile to another.

pub mod access;
pub mod comparator;
pub mod json;
pub mod json_parse;
pub mod menu;
pub mod settings;
pub mod store;
pub mod store_laws;
pub mod text;
pub mod types;
pub mod validation;
pub mod watcher;
pub mod watcher_laws;
pub mod window;

pub use comparator::{compare, compare_values};
pub use store::ProfileStore;
pub use types::{
    AppError, AppResult, ChangeType, ConfigFileChange, FileMetadata, FileTime, MonitoringStats,
    PerformanceTestConfig, Profile, ProfileInfo, ProfileStatus, UserSettings, ValidationError,
    ValidationResult,
};
pub use validation::{
    FieldType, FieldTypeRule, JsonFormatValidator, JsonValidator, ObjectRule, RequiredFieldsRule,
    ValidationRule, Validator,
};
pub use watcher::FileWatcher;
