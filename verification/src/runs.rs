//! Whole operations: what each comes to for given answers, and what holds of
//! them all.
//!
//! Nothing here runs. [`outcome`] follows an operation from any step to its
//! end, and the proof functions below state what that end is.

use crate::error::ConfigError;
use crate::json::json_object;
use crate::location::{config_file_in, log_file_in, LogKind, ProjectDirs};
use crate::record::{record_of_members, record_of_text, text_of_record, ConfigView};
use crate::steps::{
    after_clock, after_create, after_dir, after_probe, after_read, after_write, first_step,
    first_step_in, GoalView, ReplyView, RequestView, StepView,
};
use crate::timestamp::TimestampView;
use std::path::PathBuf;
use vstd::prelude::*;

verus! {

/// What the caller finds outside in the course of one operation. No operation
/// asks the same thing twice, so one answer of each kind is enough.
pub struct Answers {
    /// Whether anything is at the directory's path when the operation looks.
    pub exists: bool,
    /// Whether the directory can be created, where that is tried.
    pub created: bool,
    /// What the clock shows.
    pub now: TimestampView,
    /// What the file holds, or `None` where it cannot be read.
    pub content: Option<Seq<char>>,
    /// Whether the file can be written.
    pub written: bool,
}

impl Answers {
    /// The directory is there once the operation has dealt with it: its path
    /// was taken before, or it could be created.
    pub open spec fn dir_available(self) -> bool {
        self.exists || self.created
    }
}

/// The step that follows `step` when the caller answers from `answers`.
pub open spec fn next_step(step: StepView, answers: Answers) -> StepView {
    match step {
        StepView::ProbeDir { goal, dir } => after_probe(goal, dir, answers.exists),
        StepView::CreateDir { goal, dir } => after_create(goal, dir, answers.created),
        StepView::ReadClock { kind, dir } => after_clock(kind, dir, answers.now),
        StepView::ReadFile { file } => after_read(answers.content),
        StepView::WriteFile { file, text } => after_write(answers.written),
        StepView::Done(outcome) => step,
    }
}

/// What an operation that stands at `step` comes to when the caller answers
/// from `answers`.
pub open spec fn outcome(step: StepView, answers: Answers) -> Result<ReplyView, ConfigError>
    decreases step.answers_left(),
{
    match step {
        StepView::Done(outcome) => outcome,
        _ => outcome(next_step(step, answers), answers),
    }
}

/// Every answer brings an operation nearer to its end, and no operation
/// takes more than three.
pub proof fn law_operations_end(step: StepView, answers: Answers)
    requires
        !(step is Done),
    ensures
        next_step(step, answers).answers_left() < step.answers_left(),
        step.answers_left() <= 3,
{
}

/// An operation that could not learn the platform's directories ends at once,
/// with the error of the lookup, and asks for nothing.
pub proof fn law_failed_lookup_ends_operation(
    request: RequestView,
    error: ConfigError,
    answers: Answers,
)
    ensures
        first_step(request, Err(error)) == StepView::Done(Err(error)),
        outcome(first_step(request, Err(error)), answers) == Err::<ReplyView, ConfigError>(error),
{
}

/// What is there is left alone: nothing is created, the first answer ends
/// the matter, and the path comes back as it was given. So making sure of a
/// directory a second time changes nothing and cannot fail.
pub proof fn law_existing_dir_is_left_alone(dir: PathBuf, answers: Answers)
    requires
        answers.exists,
    ensures
        after_probe(GoalView::Dir, dir, true) == StepView::Done(Ok(ReplyView::Dir(dir))),
        outcome(first_step_in(GoalView::Dir, dir), answers) == Ok::<ReplyView, ConfigError>(
            ReplyView::Dir(dir),
        ),
        forall|goal: GoalView| !(#[trigger] after_probe(goal, dir, true) is CreateDir),
{
    reveal_with_fuel(outcome, 3);
}

/// Making sure of a directory gives back the path it was given, or fails with
/// [`ConfigError::Io`] where the directory is missing and cannot be created.
pub proof fn law_ensure_dir(dir: PathBuf, answers: Answers)
    ensures
        outcome(first_step_in(GoalView::Dir, dir), answers) == if answers.dir_available() {
            Ok::<ReplyView, ConfigError>(ReplyView::Dir(dir))
        } else {
            Err(ConfigError::Io)
        },
{
    reveal_with_fuel(outcome, 4);
}

/// The cache directory and the config directory are the ones that the
/// platform named, each made sure of.
pub proof fn law_dirs_are_the_platforms(dirs: ProjectDirs, answers: Answers)
    ensures
        outcome(first_step(RequestView::CacheDir, Ok(dirs)), answers) == outcome(
            first_step_in(GoalView::Dir, dirs.cache_dir),
            answers,
        ),
        outcome(first_step(RequestView::ConfigDir, Ok(dirs)), answers) == outcome(
            first_step_in(GoalView::Dir, dirs.config_dir),
            answers,
        ),
{
}

/// The record's file is `config.json` in the config directory.
pub proof fn law_config_file_lies_in_config_dir(dirs: ProjectDirs, answers: Answers)
    ensures
        outcome(first_step(RequestView::ConfigFilePath, Ok(dirs)), answers) == if answers.dir_available() {
            Ok::<ReplyView, ConfigError>(ReplyView::File(config_file_in(dirs.config_dir)))
        } else {
            Err(ConfigError::Io)
        },
        config_file_in(dirs.config_dir).dir == dirs.config_dir,
        config_file_in(dirs.config_dir).name == "config.json"@,
{
    reveal_with_fuel(outcome, 4);
}

/// A log file lies in the cache directory and is named after its kind and
/// the time that the clock showed.
pub proof fn law_log_files_lie_in_cache_dir(dirs: ProjectDirs, answers: Answers)
    ensures
        outcome(first_step(RequestView::LogPath, Ok(dirs)), answers) == if answers.dir_available() {
            Ok::<ReplyView, ConfigError>(
                ReplyView::File(log_file_in(dirs.cache_dir, LogKind::App, answers.now)),
            )
        } else {
            Err(ConfigError::Io)
        },
        outcome(first_step(RequestView::PanicsLogPath, Ok(dirs)), answers)
            == if answers.dir_available() {
            Ok::<ReplyView, ConfigError>(
                ReplyView::File(log_file_in(dirs.cache_dir, LogKind::Panics, answers.now)),
            )
        } else {
            Err(ConfigError::Io)
        },
        log_file_in(dirs.cache_dir, LogKind::App, answers.now).dir == dirs.cache_dir,
        log_file_in(dirs.cache_dir, LogKind::Panics, answers.now).dir == dirs.cache_dir,
{
    reveal_with_fuel(outcome, 5);
}

/// Where the platform names two different directories, the record's file and
/// the log files lie apart.
pub proof fn law_config_and_logs_lie_apart(
    dirs: ProjectDirs,
    kind: LogKind,
    now: TimestampView,
)
    requires
        dirs.cache_dir != dirs.config_dir,
    ensures
        config_file_in(dirs.config_dir) != log_file_in(dirs.cache_dir, kind, now),
        config_file_in(dirs.config_dir).dir != log_file_in(dirs.cache_dir, kind, now).dir,
{
}

/// Loading reads the record's file and gives what its text denotes. A file
/// that cannot be read is [`ConfigError::Io`]: no default takes its place.
pub proof fn law_load(dirs: ProjectDirs, answers: Answers)
    ensures
        outcome(first_step(RequestView::LoadConfig, Ok(dirs)), answers) == if !answers.dir_available() {
            Err::<ReplyView, ConfigError>(ConfigError::Io)
        } else {
            match answers.content {
                None => Err(ConfigError::Io),
                Some(text) => match record_of_text(text) {
                    Ok(record) => Ok(ReplyView::Record(record)),
                    Err(error) => Err(error),
                },
            }
        },
        after_dir(GoalView::Load, dirs.config_dir) == (StepView::ReadFile {
            file: config_file_in(dirs.config_dir),
        }),
{
    reveal_with_fuel(outcome, 5);
}

/// A missing file fails the load with [`ConfigError::Io`].
pub proof fn law_missing_file_fails_load(dirs: ProjectDirs, answers: Answers)
    requires
        answers.content is None,
    ensures
        outcome(first_step(RequestView::LoadConfig, Ok(dirs)), answers) == Err::<
            ReplyView,
            ConfigError,
        >(ConfigError::Io),
{
    law_load(dirs, answers);
}

/// A file whose text is not one JSON object fails the load with
/// [`ConfigError::Parse`], and so does an object that lacks one of the five
/// fields or holds one that is not a string.
pub proof fn law_malformed_text_fails_load(
    dirs: ProjectDirs,
    answers: Answers,
    text: Seq<char>,
)
    requires
        answers.dir_available(),
        answers.content == Some(text),
        json_object(text) matches Some(members) ==> record_of_members(members) is Err,
    ensures
        outcome(first_step(RequestView::LoadConfig, Ok(dirs)), answers) == Err::<
            ReplyView,
            ConfigError,
        >(ConfigError::Parse),
{
    law_load(dirs, answers);
}

/// Saving writes the record's text to the record's file, and to nothing else.
/// It fails only with [`ConfigError::Io`]: where the directory cannot be
/// created, or the file cannot be written.
pub proof fn law_save(dirs: ProjectDirs, record: ConfigView, answers: Answers)
    ensures
        outcome(first_step(RequestView::SaveConfig(record), Ok(dirs)), answers)
            == if answers.dir_available() && answers.written {
            Ok::<ReplyView, ConfigError>(ReplyView::Saved)
        } else {
            Err(ConfigError::Io)
        },
        after_dir(GoalView::Save(record), dirs.config_dir) == (StepView::WriteFile {
            file: config_file_in(dirs.config_dir),
            text: text_of_record(record),
        }),
{
    reveal_with_fuel(outcome, 5);
}

/// Saving writes to the file that loading reads.
pub proof fn law_save_writes_where_load_reads(dirs: ProjectDirs, record: ConfigView)
    ensures
        after_dir(GoalView::Save(record), dirs.config_dir)->WriteFile_file == after_dir(
            GoalView::Load,
            dirs.config_dir,
        )->ReadFile_file,
{
}

/// Saving and then loading gives the record back, as far as this crate
/// decides it: if the JSON layer reads the record from the text that was
/// written for it, and the file holds at the load what the save wrote, the
/// load gives the record.
pub proof fn law_load_after_save(
    dirs: ProjectDirs,
    record: ConfigView,
    saving: Answers,
    loading: Answers,
)
    requires
        record_of_text(text_of_record(record)) == Ok::<ConfigView, ConfigError>(record),
        saving.dir_available(),
        saving.written,
        loading.dir_available(),
        loading.content == Some(text_of_record(record)),
    ensures
        outcome(first_step(RequestView::SaveConfig(record), Ok(dirs)), saving) == Ok::<
            ReplyView,
            ConfigError,
        >(ReplyView::Saved),
        outcome(first_step(RequestView::LoadConfig, Ok(dirs)), loading) == Ok::<
            ReplyView,
            ConfigError,
        >(ReplyView::Record(record)),
{
    law_save(dirs, record, saving);
    law_load(dirs, loading);
}

} // verus!
