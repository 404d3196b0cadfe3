//! What each command decides, apart from what it reads and prints.

use vstd::prelude::*;
use crate::config::{optional_text, Config};
use crate::git::Source;
use crate::layout::push_line;
use crate::messages::{
    confirmation_lines, confirmation_text, deleted_line, no_changes_line, Confirmation,
};
use crate::model::{
    add_effect, add_outcome, delete_effect, first_match, lookup_outcome, no_match,
    patterns_effect, revised_workspace, update_effect, ConfigError, StoreMap, WorkspaceView,
};
use crate::output::StatusOutput;
use crate::render::{empty_text, listing_lines, listing_text, workspace_lines, workspace_text};
use crate::text::text_views;

verus! {

/// How an update ended.
#[derive(Debug, Clone, Copy, PartialEq, Eq, Structural)]
pub enum UpdateOutcome {
    /// Neither a user name nor an e-mail address was given: nothing was looked
    /// up and nothing changed.
    NoChanges,
    /// The workspace now holds the fields given.
    Updated,
}

/// What an update answers: with nothing asked for it changes nothing and
/// looks nothing up; else the workspace has to exist.
pub open spec fn update_outcome(
    store: StoreMap,
    workspace: Seq<char>,
    name: Option<Seq<char>>,
    email: Option<Seq<char>>,
    patterns_asked: bool,
) -> Result<UpdateOutcome, ConfigError> {
    if name is None && email is None && !patterns_asked {
        Ok(UpdateOutcome::NoChanges)
    } else {
        match lookup_outcome(store, workspace) {
            Ok(_) => Ok(UpdateOutcome::Updated),
            Err(e) => Err(e),
        }
    }
}

/// Whether an update asks for a change of the patterns: it gives some, or it
/// resets them.
pub open spec fn patterns_asked(patterns: Seq<Seq<char>>, reset: bool) -> bool {
    reset || patterns.len() > 0
}

/// The store after an update that found its workspace: the fields given are
/// replaced, then the patterns are updated where that was asked for.
pub open spec fn full_update_effect(
    store: StoreMap,
    workspace: Seq<char>,
    name: Option<Seq<char>>,
    email: Option<Seq<char>>,
    patterns: Seq<Seq<char>>,
    reset: bool,
) -> StoreMap {
    let renamed = update_effect(store, workspace, name, email);
    if patterns_asked(patterns, reset) {
        patterns_effect(renamed, workspace, patterns, reset)
    } else {
        renamed
    }
}

/// What an update says: that nothing was asked for, or what the workspace
/// holds now.
pub open spec fn update_text(
    store: StoreMap,
    workspace: Seq<char>,
    name: Option<Seq<char>>,
    email: Option<Seq<char>>,
    patterns_asked: bool,
) -> Seq<Seq<char>> {
    if name is None && email is None && !patterns_asked {
        seq!["No changes specified. Use --name and/or --email to update the workspace."@]
    } else {
        let now = revised_workspace(store[workspace], name, email);
        confirmation_text(Confirmation::Updated, workspace, now.name, now.email)
    }
}

/// Adds a workspace and says so.
pub fn new_workspace(config: &mut Config, workspace: &str, name: &str, email: &str) -> (r: Result<
    Vec<String>,
    ConfigError,
>)
    requires
        old(config).wf(),
    ensures
        final(config).wf(),
        final(config)@ == add_effect(old(config)@, workspace@, name@, email@),
        match r {
            Ok(lines) => add_outcome(old(config)@, workspace@) is Ok && text_views(lines@)
                == confirmation_text(Confirmation::Created, workspace@, name@, email@),
            Err(e) => add_outcome(old(config)@, workspace@) == Err::<(), ConfigError>(e)
                && *final(config) == *old(config),
        },
{
    match config.add_workspace(workspace, name, email) {
        Ok(_) => Ok(confirmation_lines(Confirmation::Created, workspace, name, email)),
        Err(e) => Err(e),
    }
}

/// Updates a workspace, or reports that there was nothing to update. The
/// store changes only when the answer is `Updated`.
pub fn update_workspace(
    config: &mut Config,
    workspace: &str,
    name: Option<&str>,
    email: Option<&str>,
    patterns: Vec<String>,
    reset: bool,
) -> (r: Result<(UpdateOutcome, Vec<String>), ConfigError>)
    requires
        old(config).wf(),
    ensures
        final(config).wf(),
        match r {
            Ok((outcome, lines)) => {
                &&& update_outcome(
                    old(config)@,
                    workspace@,
                    optional_text(name),
                    optional_text(email),
                    patterns_asked(text_views(patterns@), reset),
                ) == Ok::<UpdateOutcome, ConfigError>(outcome)
                &&& text_views(lines@) == update_text(
                    old(config)@,
                    workspace@,
                    optional_text(name),
                    optional_text(email),
                    patterns_asked(text_views(patterns@), reset),
                )
                &&& outcome == UpdateOutcome::Updated ==> final(config)@ == full_update_effect(
                    old(config)@,
                    workspace@,
                    optional_text(name),
                    optional_text(email),
                    text_views(patterns@),
                    reset,
                )
                &&& outcome == UpdateOutcome::NoChanges ==> *final(config) == *old(config)
            },
            Err(e) => {
                &&& update_outcome(
                    old(config)@,
                    workspace@,
                    optional_text(name),
                    optional_text(email),
                    patterns_asked(text_views(patterns@), reset),
                ) == Err::<UpdateOutcome, ConfigError>(e)
                &&& *final(config) == *old(config)
            },
        },
{
    let asked = reset || patterns.len() > 0;
    if name.is_none() && email.is_none() && !asked {
        let mut lines: Vec<String> = Vec::new();
        push_line(&mut lines, no_changes_line());
        proof {
            assert(text_views(lines@) =~= update_text(
                old(config)@,
                workspace@,
                optional_text(name),
                optional_text(email),
                false,
            ));
        }
        return Ok((UpdateOutcome::NoChanges, lines));
    }
    match config.update_workspace(workspace, name, email) {
        Ok(_) => {},
        Err(e) => {
            return Err(e);
        },
    }
    if asked {
        match config.update_workspace_patterns(workspace, patterns, reset) {
            Ok(_) => {},
            Err(e) => {
                return Err(e);
            },
        }
    }
    match config.get_workspace(workspace) {
        Ok(now) => Ok(
            (
                UpdateOutcome::Updated,
                confirmation_lines(
                    Confirmation::Updated,
                    workspace,
                    now.name.as_str(),
                    now.email.as_str(),
                ),
            ),
        ),
        Err(e) => Err(e),
    }
}

/// Removes a workspace and says so.
pub fn delete_workspace(config: &mut Config, workspace: &str) -> (r: Result<String, ConfigError>)
    requires
        old(config).wf(),
    ensures
        final(config).wf(),
        final(config)@ == delete_effect(old(config)@, workspace@),
        match r {
            Ok(line) => lookup_outcome(old(config)@, workspace@) is Ok && line@
                == "✓ Deleted workspace '"@ + workspace@ + "'"@,
            Err(e) => lookup_outcome(old(config)@, workspace@) == Err::<(), ConfigError>(e)
                && *final(config) == *old(config),
        },
{
    match config.delete_workspace(workspace) {
        Ok(_) => Ok(deleted_line(workspace)),
        Err(e) => Err(e),
    }
}

/// Adds a workspace with an identity that was read from git, and says so.
pub fn import_workspace(config: &mut Config, workspace: &str, name: &str, email: &str) -> (r:
    Result<Vec<String>, ConfigError>)
    requires
        old(config).wf(),
    ensures
        final(config).wf(),
        final(config)@ == add_effect(old(config)@, workspace@, name@, email@),
        match r {
            Ok(lines) => add_outcome(old(config)@, workspace@) is Ok && text_views(lines@)
                == confirmation_text(Confirmation::Imported, workspace@, name@, email@),
            Err(e) => add_outcome(old(config)@, workspace@) == Err::<(), ConfigError>(e)
                && *final(config) == *old(config),
        },
{
    match config.add_workspace(workspace, name, email) {
        Ok(_) => Ok(confirmation_lines(Confirmation::Imported, workspace, name, email)),
        Err(e) => Err(e),
    }
}

/// The identity of a workspace that is to be applied to the repository at
/// hand, and the lines that confirm it once it is applied.
pub fn use_workspace(config: &Config, workspace: &str) -> (r: Result<
    (String, String, Vec<String>),
    ConfigError,
>)
    requires
        config.wf(),
    ensures
        match r {
            Ok((name, email, lines)) => {
                &&& config@.contains_key(workspace@)
                &&& name@ == config@[workspace@].name
                &&& email@ == config@[workspace@].email
                &&& text_views(lines@) == confirmation_text(
                    Confirmation::Applied,
                    workspace@,
                    name@,
                    email@,
                )
            },
            Err(e) => e == ConfigError::WorkspaceNotFound && !config@.contains_key(workspace@),
        },
{
    match config.get_workspace(workspace) {
        Ok(found) => {
            let lines = confirmation_lines(
                Confirmation::Applied,
                workspace,
                found.name.as_str(),
                found.email.as_str(),
            );
            Ok((found.name.clone(), found.email.clone(), lines))
        },
        Err(e) => Err(e),
    }
}

/// Chooses where an import reads the identity: a repository path wins over
/// the global flag, and without either the repository at hand is read.
pub fn import_source(global: bool, from: Option<&str>) -> (r: Source)
    ensures
        match from {
            Some(path) => r matches Source::Repository(p) && p@ == path@,
            None => if global {
                r == Source::Global
            } else {
                r == Source::Local
            },
        },
{
    if let Some(path) = from {
        Source::Repository(path.to_owned())
    } else if global {
        Source::Global
    } else {
        Source::Local
    }
}

/// Holds the identity of the repository at hand against the store: which
/// workspace it matches, if any, and which workspaces there are.
pub fn status(config: &Config, local: Option<(String, String)>) -> (r: StatusOutput)
    requires
        config.wf(),
    ensures
        r.available_workspaces@.len() == config.workspaces@.len(),
        forall|i: int|
            0 <= i < r.available_workspaces@.len() ==> (#[trigger] r.available_workspaces@[i])@
                == config.entries()[i].0,
        match local {
            Some((name, email)) => {
                &&& r.current_name matches Some(n) && n@ == name@
                &&& r.current_email matches Some(e) && e@ == email@
                &&& match r.matching_workspace {
                    Some(w) => first_match(config@, w@, name@, email@),
                    None => no_match(config@, name@, email@),
                }
            },
            None => {
                &&& r.current_name is None
                &&& r.current_email is None
                &&& r.matching_workspace is None
            },
        },
{
    let available_workspaces = config.workspace_names();
    match local {
        Some((name, email)) => {
            let matching_workspace = match config.find_matching_workspace(
                name.as_str(),
                email.as_str(),
            ) {
                Some((found, _)) => Some(found.clone()),
                None => None,
            };
            StatusOutput {
                current_name: Some(name),
                current_email: Some(email),
                matching_workspace,
                available_workspaces,
            }
        },
        None => StatusOutput {
            current_name: None,
            current_email: None,
            matching_workspace: None,
            available_workspaces,
        },
    }
}

/// What the view of a store shows: of an empty store that it is empty,
/// whatever was asked for; else the workspace named, or the listing of all.
pub open spec fn view_text(
    entries: Seq<(Seq<char>, WorkspaceView)>,
    store: StoreMap,
    workspace: Option<Seq<char>>,
) -> Result<Seq<Seq<char>>, ConfigError> {
    if entries.len() == 0 {
        Ok(empty_text())
    } else {
        match workspace {
            Some(name) => if store.contains_key(name) {
                Ok(workspace_text(name, store[name]))
            } else {
                Err(ConfigError::WorkspaceNotFound)
            },
            None => Ok(listing_text(entries, false)),
        }
    }
}

/// The lines that show one workspace, or all of them in the order of names.
pub fn view_workspace(config: &Config, workspace: Option<&str>) -> (r: Result<
    Vec<String>,
    ConfigError,
>)
    requires
        config.wf(),
    ensures
        match r {
            Ok(lines) => view_text(config.entries(), config@, optional_text(workspace)) == Ok::<
                Seq<Seq<char>>,
                ConfigError,
            >(text_views(lines@)),
            Err(e) => view_text(config.entries(), config@, optional_text(workspace)) == Err::<
                Seq<Seq<char>>,
                ConfigError,
            >(e),
        },
{
    if config.workspaces.len() == 0 {
        return Ok(listing_lines(config, false));
    }
    match workspace {
        Some(name) => match config.get_workspace(name) {
            Ok(found) => Ok(workspace_lines(name, found)),
            Err(e) => Err(e),
        },
        None => Ok(listing_lines(config, false)),
    }
}

} // verus!
