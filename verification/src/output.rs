//! What a command hands to the presentation: the format chosen, and the
//! records that are shown.

use vstd::prelude::*;
use crate::config::WorkspaceConfig;
use crate::model::WorkspaceView;
use crate::names::same_text;
use crate::patterns::copy_patterns;
use crate::text::text_views;

verus! {

/// The style in which results are shown.
#[derive(Debug, Clone, Copy, PartialEq, Eq, Structural)]
pub enum OutputFormat {
    Default,
    Json,
    Table,
}

/// The lower-case form of a text as `str::to_lowercase` gives it.
pub uninterp spec fn lowercase(s: Seq<char>) -> Seq<char>;

/// Calls `str::to_lowercase`. Nothing is proved of the result; it is known
/// only under the name `lowercase`.
#[verifier::external_body]
fn to_lowercase(s: &str) -> (r: String)
    ensures
        r@ == lowercase(s@),
{
    s.to_lowercase()
}

impl OutputFormat {
    /// The format that a lower-case word names.
    pub open spec fn named_by(word: Seq<char>) -> Option<OutputFormat> {
        if word == "default"@ || word == "text"@ {
            Some(OutputFormat::Default)
        } else if word == "json"@ {
            Some(OutputFormat::Json)
        } else if word == "table"@ {
            Some(OutputFormat::Table)
        } else {
            None
        }
    }

    /// Reads a word that is already in lower case.
    pub fn from_lowercase(word: &str) -> (r: Option<OutputFormat>)
        ensures
            r == Self::named_by(word@),
    {
        if same_text(word, "default") || same_text(word, "text") {
            Some(OutputFormat::Default)
        } else if same_text(word, "json") {
            Some(OutputFormat::Json)
        } else if same_text(word, "table") {
            Some(OutputFormat::Table)
        } else {
            None
        }
    }

    /// Reads the name of a format, whatever the case of its letters.
    pub fn from_str(s: &str) -> (r: Option<OutputFormat>)
        ensures
            r == Self::named_by(lowercase(s@)),
    {
        let lowered = to_lowercase(s);
        Self::from_lowercase(lowered.as_str())
    }
}

/// The format that the flags and the format word ask for: `json` wins over
/// `table`, both win over the word, and a word that names no format stands
/// for the default.
pub open spec fn format_chosen(word: Option<Seq<char>>, json: bool, table: bool) -> OutputFormat {
    if json {
        OutputFormat::Json
    } else if table {
        OutputFormat::Table
    } else {
        match word {
            Some(w) => match OutputFormat::named_by(lowercase(w)) {
                Some(f) => f,
                None => OutputFormat::Default,
            },
            None => OutputFormat::Default,
        }
    }
}

/// Chooses the output format from the command line's flags.
pub fn determine_format(format: Option<&str>, json: bool, table: bool) -> (r: OutputFormat)
    ensures
        r == format_chosen(
            match format {
                Some(w) => Some(w@),
                None => None,
            },
            json,
            table,
        ),
{
    if json {
        OutputFormat::Json
    } else if table {
        OutputFormat::Table
    } else if let Some(word) = format {
        match OutputFormat::from_str(word) {
            Some(f) => f,
            None => OutputFormat::Default,
        }
    } else {
        OutputFormat::Default
    }
}

/// A workspace together with its name, as it is shown.
#[derive(Debug)]
pub struct WorkspaceOutput {
    pub name: String,
    pub user_name: String,
    pub email: String,
    pub patterns: Vec<String>,
}

impl View for WorkspaceOutput {
    type V = (Seq<char>, WorkspaceView);

    open spec fn view(&self) -> (Seq<char>, WorkspaceView) {
        (
            self.name@,
            WorkspaceView {
                name: self.user_name@,
                email: self.email@,
                patterns: text_views(self.patterns@),
            },
        )
    }
}

impl WorkspaceOutput {
    /// The record that shows `config` under `name`.
    pub fn new(name: &String, config: &WorkspaceConfig) -> (r: WorkspaceOutput)
        ensures
            r@ == (name@, config@),
    {
        WorkspaceOutput {
            name: name.clone(),
            user_name: config.name.clone(),
            email: config.email.clone(),
            patterns: copy_patterns(&config.patterns),
        }
    }
}

impl vstd::std_specs::convert::FromSpecImpl<(&String, &WorkspaceConfig)> for WorkspaceOutput {
    open spec fn obeys_from_spec() -> bool {
        false
    }

    open spec fn from_spec(v: (&String, &WorkspaceConfig)) -> WorkspaceOutput {
        WorkspaceOutput {
            name: *v.0,
            user_name: v.1.name,
            email: v.1.email,
            patterns: v.1.patterns,
        }
    }
}

impl From<(&String, &WorkspaceConfig)> for WorkspaceOutput {
    fn from(v: (&String, &WorkspaceConfig)) -> (r: WorkspaceOutput)
        ensures
            r@ == (v.0@, v.1@),
    {
        WorkspaceOutput::new(v.0, v.1)
    }
}

/// The identity of the repository at hand, held against the store.
#[derive(Debug)]
pub struct StatusOutput {
    pub current_name: Option<String>,
    pub current_email: Option<String>,
    pub matching_workspace: Option<String>,
    pub available_workspaces: Vec<String>,
}

} // verus!
