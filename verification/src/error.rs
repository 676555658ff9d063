//! The three ways an operation can fail.

use vstd::prelude::*;

verus! {

/// Why an operation did not produce its result.
///
/// Nothing is retried and nothing is replaced by a default: the first failure
/// ends the operation and is handed to the caller as it is.
#[derive(Clone, Copy, Debug, PartialEq, Eq, Structural)]
pub enum ConfigError {
    /// The platform could not say where this user's application files live.
    DirectoryResolution,
    /// A directory could not be created, or a file could not be read or written.
    Io,
    /// The stored text is not a JSON object of the record's shape.
    Parse,
}

impl ConfigError {
    /// The text of each message.
    pub open spec fn message_text(self) -> Seq<char> {
        match self {
            ConfigError::DirectoryResolution => "No project dir"@,
            ConfigError::Io => "File system request failed"@,
            ConfigError::Parse => "Not a valid config record"@,
        }
    }

    /// A one-line message for people.
    pub fn message(&self) -> (text: &'static str)
        ensures
            text@ == self.message_text(),
    {
        match self {
            ConfigError::DirectoryResolution => "No project dir",
            ConfigError::Io => "File system request failed",
            ConfigError::Parse => "Not a valid config record",
        }
    }
}

} // verus!
