//! The identity settings of git: which questions are put to the git tool,
//! and what its answers mean.
//!
//! Nothing here runs a program or looks at a directory. The caller does
//! that: it asks for the check that has to come first, hands over what it
//! saw, runs git with the arguments given here, and hands over what git
//! wrote.

use vstd::prelude::*;
use crate::text::{decoded, string_from_utf8, text_views, trim, trimmed};

verus! {

/// Why an identity could not be read or written.
#[derive(Debug, Clone, Copy, PartialEq, Eq, Structural)]
pub enum GitError {
    /// The directory at hand is no git repository.
    NotInRepo,
    /// The setting is absent or empty.
    NotConfigured,
    /// The repository path does not exist.
    PathNotFound,
    /// The repository path exists and is no directory.
    NotADirectory,
    /// The directory at the repository path is no git repository.
    NotARepo,
    /// Git could not be run.
    ToolFailed,
    /// Git ran and did not write the setting.
    WriteFailed,
    /// Git wrote bytes that are not text.
    InvalidOutput,
}

/// One of the two settings that make an identity.
#[derive(Debug, Clone, Copy, PartialEq, Eq, Structural)]
pub enum Setting {
    UserName,
    UserEmail,
}

/// Where an identity is read from.
#[derive(Debug, Clone, PartialEq, Eq)]
pub enum Source {
    /// The repository in the directory at hand.
    Local,
    /// The user's global configuration.
    Global,
    /// The repository at this path.
    Repository(String),
}

/// What the caller has to look at before git is run.
#[derive(Debug, Clone, PartialEq, Eq)]
pub enum Probe {
    /// Nothing.
    Nothing,
    /// Whether the directory at hand holds `.git`.
    WorkingDirectory,
    /// Whether the path exists, is a directory, and holds `.git`.
    Path(String),
}

/// What the caller saw.
#[derive(Debug, Clone, Copy, PartialEq, Eq, Structural)]
pub enum Finding {
    /// There was nothing to look at.
    Nothing,
    /// Whether the directory at hand holds `.git`.
    WorkingDirectory { has_git_dir: bool },
    /// What is at the path. A path that does not exist is no directory and
    /// holds nothing.
    Path { exists: bool, is_dir: bool, has_git_dir: bool },
}

/// What a run of git left: whether it exited with success, and what it wrote
/// to its standard output.
#[derive(Debug, Clone, PartialEq, Eq)]
pub struct ToolOutput {
    pub success: bool,
    pub stdout: Vec<u8>,
}

/// The key of a setting.
pub open spec fn setting_key(setting: Setting) -> Seq<char> {
    match setting {
        Setting::UserName => "user.name"@,
        Setting::UserEmail => "user.email"@,
    }
}

/// The arguments that make git print a setting of the source.
pub open spec fn read_arguments_of(source: Source, setting: Setting) -> Seq<Seq<char>> {
    match source {
        Source::Local => seq!["config"@, "--local"@, setting_key(setting)],
        Source::Global => seq!["config"@, "--global"@, setting_key(setting)],
        Source::Repository(path) => seq![
            "-C"@,
            path@,
            "config"@,
            "--local"@,
            setting_key(setting),
        ],
    }
}

/// The arguments that make git write a setting of the repository at hand.
pub open spec fn write_arguments_of(setting: Setting, value: Seq<char>) -> Seq<Seq<char>> {
    seq!["config"@, "--local"@, setting_key(setting), value]
}

/// Whether a finding lets git be run, and if not, why.
pub open spec fn finding_outcome(finding: Finding) -> Result<(), GitError> {
    match finding {
        Finding::Nothing => Ok(()),
        Finding::WorkingDirectory { has_git_dir } => if has_git_dir {
            Ok(())
        } else {
            Err(GitError::NotInRepo)
        },
        Finding::Path { exists, is_dir, has_git_dir } => if !exists {
            Err(GitError::PathNotFound)
        } else if !is_dir {
            Err(GitError::NotADirectory)
        } else if !has_git_dir {
            Err(GitError::NotARepo)
        } else {
            Ok(())
        },
    }
}

/// What a run of git that should print a setting means: the value without
/// the white space around it. A run that failed and a value that is empty
/// both mean that the setting is not configured.
pub open spec fn reading_outcome(output: Option<(bool, Seq<u8>)>) -> Result<Seq<char>, GitError> {
    match output {
        None => Err(GitError::ToolFailed),
        Some((success, stdout)) => if !success {
            Err(GitError::NotConfigured)
        } else {
            match decoded(stdout) {
                None => Err(GitError::InvalidOutput),
                Some(text) => if trimmed(text).len() == 0 {
                    Err(GitError::NotConfigured)
                } else {
                    Ok(trimmed(text))
                },
            }
        },
    }
}

/// What a run of git that should write a setting means.
pub open spec fn writing_outcome(success: Option<bool>) -> Result<(), GitError> {
    match success {
        None => Err(GitError::ToolFailed),
        Some(done) => if done {
            Ok(())
        } else {
            Err(GitError::WriteFailed)
        },
    }
}

impl Setting {
    /// The key under which git keeps the setting.
    pub fn key(&self) -> (r: &'static str)
        ensures
            r@ == setting_key(*self),
    {
        match self {
            Setting::UserName => "user.name",
            Setting::UserEmail => "user.email",
        }
    }
}

impl View for ToolOutput {
    type V = (bool, Seq<u8>);

    open spec fn view(&self) -> (bool, Seq<u8>) {
        (self.success, self.stdout@)
    }
}

/// The view of an output that may be missing.
pub open spec fn output_view(output: Option<ToolOutput>) -> Option<(bool, Seq<u8>)> {
    match output {
        Some(o) => Some(o@),
        None => None,
    }
}

/// What has to be looked at before an identity is read from the source.
pub fn probe_for(source: &Source) -> (r: Probe)
    ensures
        match *source {
            Source::Local => r == Probe::WorkingDirectory,
            Source::Global => r == Probe::Nothing,
            Source::Repository(path) => r matches Probe::Path(p) && p@ == path@,
        },
{
    match source {
        Source::Local => Probe::WorkingDirectory,
        Source::Global => Probe::Nothing,
        Source::Repository(path) => Probe::Path(path.clone()),
    }
}

/// Decides from what was seen whether git may be run.
pub fn check_finding(finding: Finding) -> (r: Result<(), GitError>)
    ensures
        r == finding_outcome(finding),
{
    match finding {
        Finding::Nothing => Ok(()),
        Finding::WorkingDirectory { has_git_dir } => {
            if has_git_dir {
                Ok(())
            } else {
                Err(GitError::NotInRepo)
            }
        },
        Finding::Path { exists, is_dir, has_git_dir } => {
            if !exists {
                Err(GitError::PathNotFound)
            } else if !is_dir {
                Err(GitError::NotADirectory)
            } else if !has_git_dir {
                Err(GitError::NotARepo)
            } else {
                Ok(())
            }
        },
    }
}

/// The arguments with which git prints a setting of the source.
pub fn read_arguments(source: &Source, setting: Setting) -> (r: Vec<String>)
    ensures
        text_views(r@) == read_arguments_of(*source, setting),
{
    let mut r: Vec<String> = Vec::new();
    match source {
        Source::Local => {
            r.push("config".to_owned());
            r.push("--local".to_owned());
        },
        Source::Global => {
            r.push("config".to_owned());
            r.push("--global".to_owned());
        },
        Source::Repository(path) => {
            r.push("-C".to_owned());
            r.push(path.clone());
            r.push("config".to_owned());
            r.push("--local".to_owned());
        },
    }
    r.push(setting.key().to_owned());
    proof {
        assert(text_views(r@) =~= read_arguments_of(*source, setting));
    }
    r
}

/// The arguments with which git writes a setting of the repository at hand.
pub fn write_arguments(setting: Setting, value: &str) -> (r: Vec<String>)
    ensures
        text_views(r@) == write_arguments_of(setting, value@),
{
    let mut r: Vec<String> = Vec::new();
    r.push("config".to_owned());
    r.push("--local".to_owned());
    r.push(setting.key().to_owned());
    r.push(value.to_owned());
    proof {
        assert(text_views(r@) =~= write_arguments_of(setting, value@));
    }
    r
}

/// Reads the value of a setting from what git left. `None` stands for a run
/// that could not be started.
pub fn read_setting(output: Option<ToolOutput>) -> (r: Result<String, GitError>)
    ensures
        match r {
            Ok(value) => reading_outcome(output_view(output)) == Ok::<Seq<char>, GitError>(value@),
            Err(e) => reading_outcome(output_view(output)) == Err::<Seq<char>, GitError>(e),
        },
{
    match output {
        None => Err(GitError::ToolFailed),
        Some(ToolOutput { success, stdout }) => {
            if !success {
                return Err(GitError::NotConfigured);
            }
            match string_from_utf8(stdout) {
                None => Err(GitError::InvalidOutput),
                Some(text) => {
                    let value = trim(text.as_str());
                    if value.as_str().is_empty() {
                        Err(GitError::NotConfigured)
                    } else {
                        Ok(value)
                    }
                },
            }
        },
    }
}

/// Decides whether a setting was written. `None` stands for a run that could
/// not be started.
pub fn check_written(success: Option<bool>) -> (r: Result<(), GitError>)
    ensures
        r == writing_outcome(success),
{
    match success {
        None => Err(GitError::ToolFailed),
        Some(true) => Ok(()),
        Some(false) => Err(GitError::WriteFailed),
    }
}

} // verus!
