//! The directories of this application and the files kept in them.
//!
//! A directory is held as the path that the platform gave, whatever it is
//! made of: nothing here looks inside it. A file is held as its directory and
//! its name, and never as one joined path: how the two are put together is
//! the platform's business.

use crate::error::ConfigError;
use crate::timestamp::{law_digits_tell_moments_apart, year_digits, Timestamp, TimestampView};
use std::path::PathBuf;
use vstd::prelude::*;

verus! {

#[verifier::external_type_specification]
#[verifier::external_body]
pub struct ExPathBuf(PathBuf);

/// First part of the identity under which the platform files this
/// application: the reversed domain.
pub const QUALIFIER: &'static str = "cn";

/// Second part of the identity: the organization.
pub const ORGANIZATION: &'static str = "hamflx";

/// Third part of the identity: the application.
pub const APPLICATION: &'static str = "huawei_pc_manager_bootstrap";

/// The name of the file that holds the record.
pub const CONFIG_FILE_NAME: &'static str = "config.json";

/// The two directories that the platform assigns to this application.
#[derive(Debug)]
pub struct ProjectDirs {
    /// Where files go that can be made again: the logs.
    pub cache_dir: PathBuf,
    /// Where the settings go: the record.
    pub config_dir: PathBuf,
}

/// A file: the directory it lies in, and its name there.
#[derive(Debug)]
pub struct FilePath {
    pub dir: PathBuf,
    pub name: String,
}

/// A [`FilePath`] as mathematics.
pub struct FilePathView {
    pub dir: PathBuf,
    pub name: Seq<char>,
}

impl View for FilePath {
    type V = FilePathView;

    open spec fn view(&self) -> FilePathView {
        FilePathView { dir: self.dir, name: self.name@ }
    }
}

/// The two log files that a run may write.
#[derive(Clone, Copy, Debug, PartialEq, Eq, Structural)]
pub enum LogKind {
    /// What the application reports as it runs.
    App,
    /// What it reports as it dies.
    Panics,
}

impl LogKind {
    /// What the name of a log file of this kind starts with.
    pub open spec fn prefix_text(self) -> Seq<char> {
        match self {
            LogKind::App => "app-"@,
            LogKind::Panics => "app-panics-"@,
        }
    }

    /// What the name of a log file of this kind starts with.
    pub fn prefix(&self) -> (text: &'static str)
        ensures
            text@ == self.prefix_text(),
    {
        match self {
            LogKind::App => "app-",
            LogKind::Panics => "app-panics-",
        }
    }
}

/// The record's file in a given config directory.
pub open spec fn config_file_in(dir: PathBuf) -> FilePathView {
    FilePathView { dir, name: CONFIG_FILE_NAME@ }
}

/// The name of the log file of a kind that is begun at a given moment:
/// the kind's prefix, the moment in digits, and `.log`.
pub open spec fn log_file_name(kind: LogKind, now: TimestampView) -> Seq<char> {
    kind.prefix_text() + now.digits() + ".log"@
}

/// The log file of a kind, begun at a given moment, in a given cache directory.
pub open spec fn log_file_in(dir: PathBuf, kind: LogKind, now: TimestampView) -> FilePathView {
    FilePathView { dir, name: log_file_name(kind, now) }
}

/// What a lookup of the platform's directories comes to: the directories, or
/// the one error that stands for their absence.
pub open spec fn project_of(found: Option<ProjectDirs>) -> Result<ProjectDirs, ConfigError> {
    match found {
        Some(dirs) => Ok(dirs),
        None => Err(ConfigError::DirectoryResolution),
    }
}

/// Log files of different kinds, or begun in different seconds, have
/// different names. Two that are begun in the same second, of one kind, have
/// the same.
pub proof fn law_log_names_tell_files_apart(
    kind_a: LogKind,
    a: TimestampView,
    kind_b: LogKind,
    b: TimestampView,
)
    requires
        a.valid(),
        b.valid(),
    ensures
        log_file_name(kind_a, a) == log_file_name(kind_b, b) <==> kind_a == kind_b && a == b,
{
    reveal_strlit("app-");
    reveal_strlit("app-panics-");
    reveal_strlit(".log");
    let name_a = log_file_name(kind_a, a);
    let name_b = log_file_name(kind_b, b);
    if name_a == name_b {
        crate::timestamp::lemma_year_starts_with_digit_or_sign(a.year);
        crate::timestamp::lemma_year_starts_with_digit_or_sign(b.year);
        assert(a.digits()[0] == year_digits(a.year)[0]);
        assert(b.digits()[0] == year_digits(b.year)[0]);
        let at_a = kind_a.prefix_text().len() as int;
        let at_b = kind_b.prefix_text().len() as int;
        assert(name_a[4] == if kind_a == LogKind::App {
            a.digits()[0]
        } else {
            'p'
        });
        assert(name_b[4] == if kind_b == LogKind::App {
            b.digits()[0]
        } else {
            'p'
        });
        assert(kind_a == kind_b);
        assert(a.digits() =~= name_a.subrange(at_a, name_a.len() - 4));
        assert(b.digits() =~= name_b.subrange(at_b, name_b.len() - 4));
        law_digits_tell_moments_apart(a, b);
    }
}

/// Asks `directories::ProjectDirs::from` for the directories that the platform
/// assigns to an application, and takes the cache directory and the config
/// directory from the answer, each as the path it is.
///
/// Nothing is claimed of the answer: it depends on the platform, the user and
/// the environment. `None` stands for a platform that names no home directory
/// for the user.
#[verifier::external_body]
fn platform_dirs(qualifier: &str, organization: &str, application: &str) -> (found: Option<
    ProjectDirs,
>) {
    let dirs = directories::ProjectDirs::from(qualifier, organization, application)?;
    let cache_dir = dirs.cache_dir().to_path_buf();
    let config_dir = dirs.config_dir().to_path_buf();
    Some(ProjectDirs { cache_dir, config_dir })
}

/// Turns the answer of a lookup into its outcome.
pub fn project_dir_from(found: Option<ProjectDirs>) -> (project: Result<ProjectDirs, ConfigError>)
    ensures
        project == project_of(found),
{
    match found {
        Some(dirs) => Ok(dirs),
        None => Err(ConfigError::DirectoryResolution),
    }
}

/// Looks up the directories that the platform assigns to this application,
/// under the identity [`QUALIFIER`], [`ORGANIZATION`], [`APPLICATION`].
///
/// Which directories these are is the platform's answer and is not stated
/// here. The only failure is [`ConfigError::DirectoryResolution`].
pub fn get_project_dir() -> (project: Result<ProjectDirs, ConfigError>)
    ensures
        project matches Err(error) ==> error == ConfigError::DirectoryResolution,
{
    project_dir_from(platform_dirs(QUALIFIER, ORGANIZATION, APPLICATION))
}

/// The record's file in a given config directory.
pub fn config_file(dir: PathBuf) -> (file: FilePath)
    ensures
        file@ == config_file_in(dir),
{
    FilePath { dir, name: CONFIG_FILE_NAME.to_string() }
}

/// The log file of a kind, begun at a given moment, in a given cache directory.
pub fn log_file(dir: PathBuf, kind: LogKind, now: &Timestamp) -> (file: FilePath)
    ensures
        file@ == log_file_in(dir, kind, now@),
{
    let mut name = kind.prefix().to_string();
    let stamp = now.digits();
    name.append(stamp.as_str());
    name.append(".log");
    FilePath { dir, name }
}

} // verus!
