//! The operations, each as a conversation in steps.
//!
//! An operation starts with a [`Step`]. A step either holds the outcome or
//! names one thing to be done outside: look whether anything is at a path,
//! create a directory, read the clock, read a file, write a file. The caller
//! does it and hands the answer to the step's `answer`, which gives the next
//! step. No operation takes more than three answers.
//!
//! Where the platform keeps the application's files is learnt outside too:
//! the operations take what the lookup gave, and go on from that.
//!
//! What each answer leads to is stated by the `after_..` functions, and what a
//! whole operation comes to, for given answers, by [`outcome`].

use crate::error::ConfigError;
use crate::location::{
    config_file, config_file_in, log_file, log_file_in, FilePath, FilePathView, LogKind,
    ProjectDirs,
};
use crate::record::{record_of_text, text_of_record, Config, ConfigView};
use crate::timestamp::{Timestamp, TimestampView};
use std::path::PathBuf;
use vstd::prelude::*;

verus! {

/// An operation on the application's directories.
#[derive(Debug)]
pub enum Request {
    /// The cache directory, created where it is missing.
    CacheDir,
    /// The config directory, created where it is missing.
    ConfigDir,
    /// The record's file, its directory created where it is missing.
    ConfigFilePath,
    /// A new log file for this moment, its directory created where it is
    /// missing.
    LogPath,
    /// A new log file for panics, likewise.
    PanicsLogPath,
    /// The record, read from its file.
    LoadConfig,
    /// The record, written to its file in place of what was there.
    SaveConfig(Config),
}

/// A [`Request`] as mathematics.
pub enum RequestView {
    CacheDir,
    ConfigDir,
    ConfigFilePath,
    LogPath,
    PanicsLogPath,
    LoadConfig,
    SaveConfig(ConfigView),
}

impl View for Request {
    type V = RequestView;

    open spec fn view(&self) -> RequestView {
        match self {
            Request::CacheDir => RequestView::CacheDir,
            Request::ConfigDir => RequestView::ConfigDir,
            Request::ConfigFilePath => RequestView::ConfigFilePath,
            Request::LogPath => RequestView::LogPath,
            Request::PanicsLogPath => RequestView::PanicsLogPath,
            Request::LoadConfig => RequestView::LoadConfig,
            Request::SaveConfig(record) => RequestView::SaveConfig(record@),
        }
    }
}

/// What is to happen once a directory is known to be there.
#[derive(Debug)]
pub enum Goal {
    /// Nothing more: the directory is the result.
    Dir,
    /// The record's file in it is the result.
    ConfigFile,
    /// A log file in it, named after the time that the clock shows then.
    LogFile(LogKind),
    /// The record's file in it is read.
    Load,
    /// The record is written to its file in it.
    Save(Config),
}

/// A [`Goal`] as mathematics.
pub enum GoalView {
    Dir,
    ConfigFile,
    LogFile(LogKind),
    Load,
    Save(ConfigView),
}

impl View for Goal {
    type V = GoalView;

    open spec fn view(&self) -> GoalView {
        match self {
            Goal::Dir => GoalView::Dir,
            Goal::ConfigFile => GoalView::ConfigFile,
            Goal::LogFile(kind) => GoalView::LogFile(*kind),
            Goal::Load => GoalView::Load,
            Goal::Save(record) => GoalView::Save(record@),
        }
    }
}

impl RequestView {
    /// The directory that the operation works in.
    pub open spec fn dir(self, dirs: ProjectDirs) -> PathBuf {
        match self {
            RequestView::CacheDir | RequestView::LogPath | RequestView::PanicsLogPath => {
                dirs.cache_dir
            },
            RequestView::ConfigDir
            | RequestView::ConfigFilePath
            | RequestView::LoadConfig
            | RequestView::SaveConfig(_) => dirs.config_dir,
        }
    }

    /// What the operation does once that directory is there.
    pub open spec fn goal(self) -> GoalView {
        match self {
            RequestView::CacheDir | RequestView::ConfigDir => GoalView::Dir,
            RequestView::ConfigFilePath => GoalView::ConfigFile,
            RequestView::LogPath => GoalView::LogFile(LogKind::App),
            RequestView::PanicsLogPath => GoalView::LogFile(LogKind::Panics),
            RequestView::LoadConfig => GoalView::Load,
            RequestView::SaveConfig(record) => GoalView::Save(record),
        }
    }
}

/// What an operation hands back when it succeeds.
#[derive(Debug)]
pub enum Reply {
    /// A directory that is there now.
    Dir(PathBuf),
    /// A file in a directory that is there now. The file itself may not be.
    File(FilePath),
    /// The record that was read.
    Record(Config),
    /// The record is written.
    Saved,
}

/// A [`Reply`] as mathematics.
pub enum ReplyView {
    Dir(PathBuf),
    File(FilePathView),
    Record(ConfigView),
    Saved,
}

impl View for Reply {
    type V = ReplyView;

    open spec fn view(&self) -> ReplyView {
        match self {
            Reply::Dir(dir) => ReplyView::Dir(*dir),
            Reply::File(file) => ReplyView::File(file@),
            Reply::Record(record) => ReplyView::Record(record@),
            Reply::Saved => ReplyView::Saved,
        }
    }
}

/// The outcome of an operation, taken by its view.
pub open spec fn outcome_view(outcome: Result<Reply, ConfigError>) -> Result<
    ReplyView,
    ConfigError,
> {
    match outcome {
        Ok(reply) => Ok(reply@),
        Err(error) => Err(error),
    }
}

/// To be answered: is there anything at the path `dir`? A directory is all
/// that is looked for, and nothing tells it from a file of that name: where
/// the answer is yes, the path is taken to be the directory.
#[derive(Debug)]
pub struct ProbeDir {
    pub goal: Goal,
    pub dir: PathBuf,
}

/// To be done: create the directory `dir` and every directory above it that
/// is missing. The answer is whether that succeeded.
#[derive(Debug)]
pub struct CreateDir {
    pub goal: Goal,
    pub dir: PathBuf,
}

/// To be answered: what time is it?
#[derive(Debug)]
pub struct ReadClock {
    pub kind: LogKind,
    pub dir: PathBuf,
}

/// To be done: read the whole of `file` as text. The answer is the text, or
/// `None` where the file could not be read.
#[derive(Debug)]
pub struct ReadFile {
    pub file: FilePath,
}

/// To be done: write `text` to `file`, in place of whatever it held. The
/// answer is whether that succeeded.
#[derive(Debug)]
pub struct WriteFile {
    pub file: FilePath,
    pub text: String,
}

/// Where an operation stands: at its outcome, or at a request to the caller.
#[derive(Debug)]
pub enum Step {
    ProbeDir(ProbeDir),
    CreateDir(CreateDir),
    ReadClock(ReadClock),
    ReadFile(ReadFile),
    WriteFile(WriteFile),
    Done(Result<Reply, ConfigError>),
}

/// A [`Step`] as mathematics.
pub enum StepView {
    ProbeDir { goal: GoalView, dir: PathBuf },
    CreateDir { goal: GoalView, dir: PathBuf },
    ReadClock { kind: LogKind, dir: PathBuf },
    ReadFile { file: FilePathView },
    WriteFile { file: FilePathView, text: Seq<char> },
    Done(Result<ReplyView, ConfigError>),
}

impl View for ProbeDir {
    type V = StepView;

    open spec fn view(&self) -> StepView {
        StepView::ProbeDir { goal: self.goal@, dir: self.dir }
    }
}

impl View for CreateDir {
    type V = StepView;

    open spec fn view(&self) -> StepView {
        StepView::CreateDir { goal: self.goal@, dir: self.dir }
    }
}

impl View for ReadClock {
    type V = StepView;

    open spec fn view(&self) -> StepView {
        StepView::ReadClock { kind: self.kind, dir: self.dir }
    }
}

impl View for ReadFile {
    type V = StepView;

    open spec fn view(&self) -> StepView {
        StepView::ReadFile { file: self.file@ }
    }
}

impl View for WriteFile {
    type V = StepView;

    open spec fn view(&self) -> StepView {
        StepView::WriteFile { file: self.file@, text: self.text@ }
    }
}

impl View for Step {
    type V = StepView;

    open spec fn view(&self) -> StepView {
        match self {
            Step::ProbeDir(task) => task@,
            Step::CreateDir(task) => task@,
            Step::ReadClock(task) => task@,
            Step::ReadFile(task) => task@,
            Step::WriteFile(task) => task@,
            Step::Done(outcome) => StepView::Done(outcome_view(*outcome)),
        }
    }
}

impl StepView {
    /// How many answers the operation may still need.
    pub open spec fn answers_left(self) -> nat {
        match self {
            StepView::ProbeDir { .. } => 3,
            StepView::CreateDir { .. } => 2,
            StepView::ReadClock { .. } => 1,
            StepView::ReadFile { .. } => 1,
            StepView::WriteFile { .. } => 1,
            StepView::Done(_) => 0,
        }
    }
}

/// The step that follows when the directory is there.
pub open spec fn after_dir(goal: GoalView, dir: PathBuf) -> StepView {
    match goal {
        GoalView::Dir => StepView::Done(Ok(ReplyView::Dir(dir))),
        GoalView::ConfigFile => StepView::Done(Ok(ReplyView::File(config_file_in(dir)))),
        GoalView::LogFile(kind) => StepView::ReadClock { kind, dir },
        GoalView::Load => StepView::ReadFile { file: config_file_in(dir) },
        GoalView::Save(record) => StepView::WriteFile {
            file: config_file_in(dir),
            text: text_of_record(record),
        },
    }
}

/// The step that follows the answer to [`ProbeDir`]: what is there is left as
/// it is, and where nothing is there the directory is to be created.
pub open spec fn after_probe(goal: GoalView, dir: PathBuf, exists: bool) -> StepView {
    if exists {
        after_dir(goal, dir)
    } else {
        StepView::CreateDir { goal, dir }
    }
}

/// The step that follows the answer to [`CreateDir`].
pub open spec fn after_create(goal: GoalView, dir: PathBuf, created: bool) -> StepView {
    if created {
        after_dir(goal, dir)
    } else {
        StepView::Done(Err(ConfigError::Io))
    }
}

/// The step that follows the answer to [`ReadClock`].
pub open spec fn after_clock(kind: LogKind, dir: PathBuf, now: TimestampView) -> StepView {
    StepView::Done(Ok(ReplyView::File(log_file_in(dir, kind, now))))
}

/// The step that follows the answer to [`ReadFile`].
pub open spec fn after_read(content: Option<Seq<char>>) -> StepView {
    match content {
        Some(text) => match record_of_text(text) {
            Ok(record) => StepView::Done(Ok(ReplyView::Record(record))),
            Err(error) => StepView::Done(Err(error)),
        },
        None => StepView::Done(Err(ConfigError::Io)),
    }
}

/// The step that follows the answer to [`WriteFile`].
pub open spec fn after_write(written: bool) -> StepView {
    if written {
        StepView::Done(Ok(ReplyView::Saved))
    } else {
        StepView::Done(Err(ConfigError::Io))
    }
}

/// The first step of making sure that a directory is there.
pub open spec fn first_step_in(goal: GoalView, dir: PathBuf) -> StepView {
    StepView::ProbeDir { goal, dir }
}

/// The first step of an operation, given what the lookup of the platform's
/// directories came to.
pub open spec fn first_step(
    request: RequestView,
    project: Result<ProjectDirs, ConfigError>,
) -> StepView {
    match project {
        Ok(dirs) => first_step_in(request.goal(), request.dir(dirs)),
        Err(error) => StepView::Done(Err(error)),
    }
}

impl Request {
    /// Splits the operation into the directory it works in and what it does
    /// there.
    fn split(self, dirs: ProjectDirs) -> (parts: (Goal, PathBuf))
        ensures
            parts.0@ == self@.goal(),
            parts.1 == self@.dir(dirs),
    {
        match self {
            Request::CacheDir => (Goal::Dir, dirs.cache_dir),
            Request::ConfigDir => (Goal::Dir, dirs.config_dir),
            Request::ConfigFilePath => (Goal::ConfigFile, dirs.config_dir),
            Request::LogPath => (Goal::LogFile(LogKind::App), dirs.cache_dir),
            Request::PanicsLogPath => (Goal::LogFile(LogKind::Panics), dirs.cache_dir),
            Request::LoadConfig => (Goal::Load, dirs.config_dir),
            Request::SaveConfig(record) => (Goal::Save(record), dirs.config_dir),
        }
    }
}

/// Goes on from a directory that is there.
fn proceed(goal: Goal, dir: PathBuf) -> (next: Step)
    ensures
        next@ == after_dir(goal@, dir),
{
    match goal {
        Goal::Dir => Step::Done(Ok(Reply::Dir(dir))),
        Goal::ConfigFile => Step::Done(Ok(Reply::File(config_file(dir)))),
        Goal::LogFile(kind) => Step::ReadClock(ReadClock { kind, dir }),
        Goal::Load => Step::ReadFile(ReadFile { file: config_file(dir) }),
        Goal::Save(record) => {
            let text = record.to_json();
            Step::WriteFile(WriteFile { file: config_file(dir), text })
        },
    }
}

impl ProbeDir {
    /// Takes the answer: whether anything is there.
    pub fn answer(self, exists: bool) -> (next: Step)
        ensures
            next@ == after_probe(self.goal@, self.dir, exists),
    {
        if exists {
            proceed(self.goal, self.dir)
        } else {
            Step::CreateDir(CreateDir { goal: self.goal, dir: self.dir })
        }
    }
}

impl CreateDir {
    /// Takes the answer: whether the directory could be created.
    pub fn answer(self, created: bool) -> (next: Step)
        ensures
            next@ == after_create(self.goal@, self.dir, created),
    {
        if created {
            proceed(self.goal, self.dir)
        } else {
            Step::Done(Err(ConfigError::Io))
        }
    }
}

impl ReadClock {
    /// Takes the answer: the time that the clock shows.
    pub fn answer(self, now: Timestamp) -> (next: Step)
        ensures
            next@ == after_clock(self.kind, self.dir, now@),
    {
        Step::Done(Ok(Reply::File(log_file(self.dir, self.kind, &now))))
    }
}

impl ReadFile {
    /// Takes the answer: the text of the file, or `None` where it could not be
    /// read.
    pub fn answer(self, content: Option<String>) -> (next: Step)
        ensures
            next@ == after_read(
                match content {
                    Some(text) => Some(text@),
                    None => None,
                },
            ),
    {
        match content {
            Some(text) => match Config::from_json(text.as_str()) {
                Ok(record) => Step::Done(Ok(Reply::Record(record))),
                Err(error) => Step::Done(Err(error)),
            },
            None => Step::Done(Err(ConfigError::Io)),
        }
    }
}

impl WriteFile {
    /// Takes the answer: whether the file could be written.
    pub fn answer(self, written: bool) -> (next: Step)
        ensures
            next@ == after_write(written),
    {
        if written {
            Step::Done(Ok(Reply::Saved))
        } else {
            Step::Done(Err(ConfigError::Io))
        }
    }
}

/// Starts an operation, given what the lookup of the platform's directories
/// came to. A failed lookup ends the operation at once, with the lookup's
/// error.
pub fn start(request: Request, project: Result<ProjectDirs, ConfigError>) -> (step: Step)
    ensures
        step@ == first_step(request@, project),
{
    match project {
        Ok(dirs) => {
            let (goal, dir) = request.split(dirs);
            Step::ProbeDir(ProbeDir { goal, dir })
        },
        Err(error) => Step::Done(Err(error)),
    }
}

/// Makes sure that there is a directory at `path`: what is there is left
/// alone, and where nothing is there the directory is created with all that
/// is missing above it. The outcome is the same path.
pub fn ensure_dir_exists(path: PathBuf) -> (step: Step)
    ensures
        step@ == first_step_in(GoalView::Dir, path),
{
    Step::ProbeDir(ProbeDir { goal: Goal::Dir, dir: path })
}

/// The application's cache directory, created where it is missing.
///
/// `project` is what [`get_project_dir`](crate::location::get_project_dir)
/// gave, here and in the operations below.
pub fn get_cache_dir(project: Result<ProjectDirs, ConfigError>) -> (step: Step)
    ensures
        step@ == first_step(RequestView::CacheDir, project),
{
    start(Request::CacheDir, project)
}

/// A log file for the time at which the clock is read, in the cache
/// directory. Its name is `app-`, the time in digits, `.log`.
pub fn get_log_path(project: Result<ProjectDirs, ConfigError>) -> (step: Step)
    ensures
        step@ == first_step(RequestView::LogPath, project),
{
    start(Request::LogPath, project)
}

/// A log file for panics, in the cache directory. Its name is `app-panics-`,
/// the time in digits, `.log`.
pub fn get_panics_log_path(project: Result<ProjectDirs, ConfigError>) -> (step: Step)
    ensures
        step@ == first_step(RequestView::PanicsLogPath, project),
{
    start(Request::PanicsLogPath, project)
}

/// The application's config directory, created where it is missing.
pub fn get_config_dir(project: Result<ProjectDirs, ConfigError>) -> (step: Step)
    ensures
        step@ == first_step(RequestView::ConfigDir, project),
{
    start(Request::ConfigDir, project)
}

/// The record's file, `config.json` in the config directory.
pub fn get_config_file_path(project: Result<ProjectDirs, ConfigError>) -> (step: Step)
    ensures
        step@ == first_step(RequestView::ConfigFilePath, project),
{
    start(Request::ConfigFilePath, project)
}

/// Reads the record from its file. A file that is missing is an error and not
/// an occasion for the default record.
pub fn get_firmware_config(project: Result<ProjectDirs, ConfigError>) -> (step: Step)
    ensures
        step@ == first_step(RequestView::LoadConfig, project),
{
    start(Request::LoadConfig, project)
}

/// Writes the record to its file, in place of whatever the file held.
pub fn save_firmware_config(config: &Config, project: Result<ProjectDirs, ConfigError>) -> (step:
    Step)
    ensures
        step@ == first_step(RequestView::SaveConfig(config@), project),
{
    start(Request::SaveConfig(config.clone()), project)
}

} // verus!
