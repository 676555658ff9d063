//! Where a desktop application keeps its files, and the firmware identity
//! record it stores there.
//!
//! The crate never touches the file system, the clock or the environment
//! itself, but for one lookup of the platform's directories. Each operation
//! is a short conversation: the library says which request comes next, the
//! caller performs it and reports what happened, and the library decides how
//! to go on. Every decision is verified; the requests are left to the caller.
//!
//! - [`record`]: the record, its default and its JSON form.
//! - [`location`]: the application's directories and the files in them.
//! - [`timestamp`]: a reading of the clock, and the digits in the names of
//!   log files.
//! - [`steps`]: the operations, step by step.
//! - [`runs`]: what whole operations come to.
//! - [`json`] and [`error`]: what the others rest on.

pub mod error;
pub mod json;
pub mod location;
pub mod record;
pub mod runs;
pub mod steps;
pub mod timestamp;

pub use error::ConfigError;
pub use location::{get_project_dir, FilePath, LogKind, ProjectDirs};
pub use record::Config;
pub use steps::{
    ensure_dir_exists, get_cache_dir, get_config_dir, get_config_file_path, get_firmware_config,
    get_log_path, get_panics_log_path, save_firmware_config, Reply, Request, Step,
};
pub use timestamp::Timestamp;
