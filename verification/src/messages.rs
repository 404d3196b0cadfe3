//! What the commands say: confirmations, notices, and the wording of errors.

use vstd::prelude::*;
use vstd::string::*;
use crate::git::{setting_key, GitError, Setting, Source};
use crate::layout::{join, push_line};
use crate::model::{ConfigError, PersistError};
use crate::text::text_views;

verus! {

/// What was done to a workspace.
#[derive(Debug, Clone, Copy, PartialEq, Eq, Structural)]
pub enum Confirmation {
    Created,
    Updated,
    Applied,
    Imported,
}

/// The first line of a confirmation.
pub open spec fn confirmation_title(kind: Confirmation, workspace: Seq<char>) -> Seq<char> {
    match kind {
        Confirmation::Created => "✓ Created workspace '"@ + workspace + "'"@,
        Confirmation::Updated => "✓ Updated workspace '"@ + workspace + "'"@,
        Confirmation::Applied => "✓ Applied workspace '"@ + workspace
            + "' to local git config"@,
        Confirmation::Imported => "✓ Imported workspace '"@ + workspace + "'"@,
    }
}

/// A confirmation: what was done, and the identity that the workspace holds.
pub open spec fn confirmation_text(
    kind: Confirmation,
    workspace: Seq<char>,
    name: Seq<char>,
    email: Seq<char>,
) -> Seq<Seq<char>> {
    seq![confirmation_title(kind, workspace), "  Name:  "@ + name, "  Email: "@ + email]
}

/// The wording of a refusal by the store.
pub open spec fn config_error_text(error: ConfigError, workspace: Seq<char>) -> Seq<char> {
    match error {
        ConfigError::DuplicateWorkspace => "Workspace '"@ + workspace
            + "' already exists. Use 'update' to modify it."@,
        ConfigError::WorkspaceNotFound => "Workspace '"@ + workspace + "' not found"@,
    }
}

/// The wording of a failure to read or write the store.
pub open spec fn persist_error_text(error: PersistError) -> Seq<char> {
    match error {
        PersistError::Read => "Failed to read config file"@,
        PersistError::Parse => "Failed to parse config file"@,
        PersistError::Write => "Failed to write config file"@,
    }
}

/// The notice that says where an import reads from.
pub open spec fn import_notice_text(source: Source) -> Seq<char> {
    match source {
        Source::Repository(path) => "Importing from repository: "@ + path@,
        Source::Global => "Importing from global git config"@,
        Source::Local => "Importing from local git config"@,
    }
}

/// The path of the source, as it is added to a message.
pub open spec fn at_path(source: Source) -> Seq<char> {
    match source {
        Source::Repository(path) => ": "@ + path@,
        _ => Seq::empty(),
    }
}

/// The wording of a setting that is not configured.
pub open spec fn not_configured_text(source: Source, setting: Setting) -> Seq<char> {
    match source {
        Source::Local => "No local "@ + setting_key(setting) + " configured"@,
        Source::Global => "No global "@ + setting_key(setting) + " configured"@,
        Source::Repository(path) => "No local "@ + setting_key(setting)
            + " configured in repository: "@ + path@,
    }
}

/// The wording of a failure to read or write a setting.
pub open spec fn git_error_text(error: GitError, source: Source, setting: Setting) -> Seq<char> {
    match error {
        GitError::NotInRepo => "Not in a git repository"@,
        GitError::NotConfigured => not_configured_text(source, setting),
        GitError::PathNotFound => "Repository path does not exist"@ + at_path(source),
        GitError::NotADirectory => "Repository path is not a directory"@ + at_path(source),
        GitError::NotARepo => "Not a git repository"@ + at_path(source),
        GitError::ToolFailed => "Failed to execute git command"@,
        GitError::WriteFailed => "Failed to set git "@ + setting_key(setting),
        GitError::InvalidOutput => "Invalid UTF-8 in git output"@,
    }
}

/// The lines that confirm what was done to a workspace.
pub fn confirmation_lines(kind: Confirmation, workspace: &str, name: &str, email: &str) -> (r:
    Vec<String>)
    ensures
        text_views(r@) == confirmation_text(kind, workspace@, name@, email@),
{
    let mut title = match kind {
        Confirmation::Created => join("✓ Created workspace '", workspace),
        Confirmation::Updated => join("✓ Updated workspace '", workspace),
        Confirmation::Applied => join("✓ Applied workspace '", workspace),
        Confirmation::Imported => join("✓ Imported workspace '", workspace),
    };
    match kind {
        Confirmation::Applied => {
            title.append("' to local git config");
        },
        _ => {
            title.append("'");
        },
    }
    let mut lines: Vec<String> = Vec::new();
    push_line(&mut lines, title);
    push_line(&mut lines, join("  Name:  ", name));
    push_line(&mut lines, join("  Email: ", email));
    proof {
        assert(text_views(lines@) =~= confirmation_text(kind, workspace@, name@, email@));
    }
    lines
}

/// The line that confirms a deletion.
pub fn deleted_line(workspace: &str) -> (r: String)
    ensures
        r@ == "✓ Deleted workspace '"@ + workspace@ + "'"@,
{
    let mut r = join("✓ Deleted workspace '", workspace);
    r.append("'");
    r
}

/// The line that says that an update was given nothing to change.
pub fn no_changes_line() -> (r: String)
    ensures
        r@ == "No changes specified. Use --name and/or --email to update the workspace."@,
{
    "No changes specified. Use --name and/or --email to update the workspace.".to_owned()
}

/// The notice that says where an import reads from.
pub fn import_notice(source: &Source) -> (r: String)
    ensures
        r@ == import_notice_text(*source),
{
    match source {
        Source::Repository(path) => join("Importing from repository: ", path.as_str()),
        Source::Global => "Importing from global git config".to_owned(),
        Source::Local => "Importing from local git config".to_owned(),
    }
}

/// The wording of a refusal by the store.
pub fn config_error_message(error: ConfigError, workspace: &str) -> (r: String)
    ensures
        r@ == config_error_text(error, workspace@),
{
    let mut r = join("Workspace '", workspace);
    match error {
        ConfigError::DuplicateWorkspace => {
            r.append("' already exists. Use 'update' to modify it.");
        },
        ConfigError::WorkspaceNotFound => {
            r.append("' not found");
        },
    }
    r
}

/// The wording of a failure to read or write the store.
pub fn persist_error_message(error: PersistError) -> (r: &'static str)
    ensures
        r@ == persist_error_text(error),
{
    match error {
        PersistError::Read => "Failed to read config file",
        PersistError::Parse => "Failed to parse config file",
        PersistError::Write => "Failed to write config file",
    }
}

/// `text`, followed by the path of the source where it has one.
fn with_path(text: &str, source: &Source) -> (r: String)
    ensures
        r@ == text@ + at_path(*source),
{
    let mut r = text.to_owned();
    match source {
        Source::Repository(path) => {
            r.append(": ");
            r.append(path.as_str());
            proof {
                assert(r@ =~= text@ + (": "@ + path@));
            }
        },
        _ => {
            proof {
                assert(r@ =~= text@ + Seq::<char>::empty());
            }
        },
    }
    r
}

/// The wording of a failure to read or write a setting.
pub fn git_error_message(error: GitError, source: &Source, setting: Setting) -> (r: String)
    ensures
        r@ == git_error_text(error, *source, setting),
{
    match error {
        GitError::NotInRepo => "Not in a git repository".to_owned(),
        GitError::NotConfigured => {
            let mut r = match source {
                Source::Global => join("No global ", setting.key()),
                _ => join("No local ", setting.key()),
            };
            match source {
                Source::Repository(path) => {
                    r.append(" configured in repository: ");
                    r.append(path.as_str());
                },
                _ => {
                    r.append(" configured");
                },
            }
            r
        },
        GitError::PathNotFound => with_path("Repository path does not exist", source),
        GitError::NotADirectory => with_path("Repository path is not a directory", source),
        GitError::NotARepo => with_path("Not a git repository", source),
        GitError::ToolFailed => "Failed to execute git command".to_owned(),
        GitError::WriteFailed => join("Failed to set git ", setting.key()),
        GitError::InvalidOutput => "Invalid UTF-8 in git output".to_owned(),
    }
}

} // verus!
