//! The lines of the text output: the table, the listing, one workspace, and
//! the status report. Each function returns the lines; printing them is the
//! caller's part.

use vstd::prelude::*;
use vstd::string::*;
use crate::config::{Config, WorkspaceConfig};
use crate::layout::{column_width, join, pad, padded, push_line, repeat, repeated};
use crate::model::WorkspaceView;
use crate::output::{OutputFormat, StatusOutput, WorkspaceOutput};
use crate::text::text_views;

verus! {

/// The widths of the three columns of the table.
#[derive(Debug, Clone, Copy, PartialEq, Eq, Structural)]
pub struct Widths {
    pub workspace: usize,
    pub name: usize,
    pub email: usize,
}

impl View for Widths {
    type V = (nat, nat, nat);

    open spec fn view(&self) -> (nat, nat, nat) {
        (self.workspace as nat, self.name as nat, self.email as nat)
    }
}

/// The first column: the names of the workspaces.
pub open spec fn names_of(entries: Seq<(Seq<char>, WorkspaceView)>) -> Seq<Seq<char>> {
    entries.map_values(|e: (Seq<char>, WorkspaceView)| e.0)
}

/// The second column: the user names.
pub open spec fn user_names_of(entries: Seq<(Seq<char>, WorkspaceView)>) -> Seq<Seq<char>> {
    entries.map_values(|e: (Seq<char>, WorkspaceView)| e.1.name)
}

/// The third column: the e-mail addresses.
pub open spec fn emails_of(entries: Seq<(Seq<char>, WorkspaceView)>) -> Seq<Seq<char>> {
    entries.map_values(|e: (Seq<char>, WorkspaceView)| e.1.email)
}

/// Each column is as wide as its widest text, and no narrower than its
/// heading.
pub open spec fn table_widths(entries: Seq<(Seq<char>, WorkspaceView)>) -> (nat, nat, nat) {
    (
        column_width(names_of(entries), 9),
        column_width(user_names_of(entries), 4),
        column_width(emails_of(entries), 5),
    )
}

/// A horizontal rule of the table.
pub open spec fn rule_text(
    left: Seq<char>,
    middle: Seq<char>,
    right: Seq<char>,
    w: (nat, nat, nat),
) -> Seq<char> {
    left + repeated("─"@, w.0) + middle + repeated("─"@, w.1) + middle + repeated("─"@, w.2)
        + right
}

/// A row of the table.
pub open spec fn row_text(a: Seq<char>, b: Seq<char>, c: Seq<char>, w: (nat, nat, nat)) -> Seq<
    char,
> {
    "│ "@ + padded(a, w.0) + " │ "@ + padded(b, w.1) + " │ "@ + padded(c, w.2) + " │"@
}

/// The rule above the heading.
pub open spec fn top_text(w: (nat, nat, nat)) -> Seq<char> {
    rule_text("┌─"@, "─┬─"@, "─┐"@, w)
}

/// The rule between two rows.
pub open spec fn separator_text(w: (nat, nat, nat)) -> Seq<char> {
    rule_text("├─"@, "─┼─"@, "─┤"@, w)
}

/// The rule below the last row.
pub open spec fn bottom_text(w: (nat, nat, nat)) -> Seq<char> {
    rule_text("└─"@, "─┴─"@, "─┘"@, w)
}

/// The row that names the columns.
pub open spec fn heading_text(w: (nat, nat, nat)) -> Seq<char> {
    row_text("Workspace"@, "Name"@, "Email"@, w)
}

/// The rows of the table, with a separator between each two.
pub open spec fn table_rows(entries: Seq<(Seq<char>, WorkspaceView)>, w: (nat, nat, nat)) -> Seq<
    Seq<char>,
>
    decreases entries.len(),
{
    if entries.len() == 0 {
        Seq::empty()
    } else if entries.len() == 1 {
        seq![row_text(entries[0].0, entries[0].1.name, entries[0].1.email, w)]
    } else {
        table_rows(entries.drop_last(), w).push(separator_text(w)).push(
            row_text(entries.last().0, entries.last().1.name, entries.last().1.email, w),
        )
    }
}

/// The table of all workspaces.
pub open spec fn table_text(entries: Seq<(Seq<char>, WorkspaceView)>) -> Seq<Seq<char>> {
    if entries.len() == 0 {
        seq!["No workspaces configured."@]
    } else {
        let w = table_widths(entries);
        (seq![top_text(w), heading_text(w), separator_text(w)] + table_rows(entries, w)).push(
            bottom_text(w),
        )
    }
}

/// Each text of `items` behind `prefix`.
pub open spec fn prefixed(prefix: Seq<char>, items: Seq<Seq<char>>) -> Seq<Seq<char>> {
    Seq::new(items.len(), |i: int| prefix + items[i])
}

/// The lines that show the patterns of a workspace: none where it has none.
pub open spec fn pattern_text(patterns: Seq<Seq<char>>) -> Seq<Seq<char>> {
    if patterns.len() == 0 {
        Seq::empty()
    } else {
        seq!["    Patterns:"@] + prefixed("      - "@, patterns)
    }
}

/// The lines that show one workspace in the listing: its name, its identity,
/// in a detailed listing its patterns, and an empty line.
pub open spec fn entry_text(name: Seq<char>, w: WorkspaceView, detailed: bool) -> Seq<Seq<char>> {
    (seq!["  "@ + name + ":"@, "    Name:  "@ + w.name, "    Email: "@ + w.email] + (if detailed {
        pattern_text(w.patterns)
    } else {
        Seq::empty()
    })).push(""@)
}

/// The lines of all entries of the listing, one entry after the other.
pub open spec fn listing_body(entries: Seq<(Seq<char>, WorkspaceView)>, detailed: bool) -> Seq<
    Seq<char>,
>
    decreases entries.len(),
{
    if entries.len() == 0 {
        Seq::empty()
    } else {
        listing_body(entries.drop_last(), detailed) + entry_text(
            entries.last().0,
            entries.last().1,
            detailed,
        )
    }
}

/// What is said of a store without workspaces.
pub open spec fn empty_text() -> Seq<Seq<char>> {
    seq![
        "No workspaces configured."@,
        "Use 'figgit new <workspace> --name <name> --email <email>' to create one."@,
    ]
}

/// The listing of all workspaces, in the order of names.
pub open spec fn listing_text(entries: Seq<(Seq<char>, WorkspaceView)>, detailed: bool) -> Seq<
    Seq<char>,
> {
    if entries.len() == 0 {
        empty_text()
    } else {
        seq!["Configured workspaces:"@, ""@] + listing_body(entries, detailed)
    }
}

/// The lines that show a single workspace.
pub open spec fn workspace_text(name: Seq<char>, w: WorkspaceView) -> Seq<Seq<char>> {
    seq!["Workspace: "@ + name, "  Name:  "@ + w.name, "  Email: "@ + w.email]
}

/// What a status report holds, as plain sequences.
pub struct StatusView {
    pub current_name: Option<Seq<char>>,
    pub current_email: Option<Seq<char>>,
    pub matching_workspace: Option<Seq<char>>,
    pub available_workspaces: Seq<Seq<char>>,
}

/// The text of a string that may be missing.
pub open spec fn optional_view(s: Option<String>) -> Option<Seq<char>> {
    match s {
        Some(t) => Some(t@),
        None => None,
    }
}

impl View for StatusOutput {
    type V = StatusView;

    open spec fn view(&self) -> StatusView {
        StatusView {
            current_name: optional_view(self.current_name),
            current_email: optional_view(self.current_email),
            matching_workspace: optional_view(self.matching_workspace),
            available_workspaces: text_views(self.available_workspaces@),
        }
    }
}

/// The end of the report where the identity matched no workspace.
pub open spec fn unmatched_text(available: Seq<Seq<char>>) -> Seq<Seq<char>> {
    if available.len() == 0 {
        seq!["⚠ Does not match any configured workspace"@]
    } else {
        seq!["⚠ Does not match any configured workspace"@, ""@, "Available workspaces:"@]
            + prefixed("  - "@, available)
    }
}

/// The line that says that no identity could be read, with the reason where
/// one is given.
pub open spec fn unread_title(reason: Option<Seq<char>>) -> Seq<char> {
    match reason {
        Some(why) => "⚠ Unable to read local git config: "@ + why,
        None => "⚠ Unable to read local git config"@,
    }
}

/// The end of the report where no identity could be read.
pub open spec fn unread_text(available: Seq<Seq<char>>, reason: Option<Seq<char>>) -> Seq<
    Seq<char>,
> {
    if available.len() == 0 {
        seq![unread_title(reason), ""@]
    } else {
        (seq![unread_title(reason), ""@, "Available workspaces:"@] + prefixed(
            "  - "@,
            available,
        )).push(""@).push("Use 'figgit use <workspace>' to apply a workspace configuration."@)
    }
}

/// The status report. The reason is shown only where no identity was read.
pub open spec fn status_text(s: StatusView, reason: Option<Seq<char>>) -> Seq<Seq<char>> {
    let head = seq!["Git Configuration Status"@, "━━━━━━━━━━━━━━━━━━━━━━━━"@, ""@];
    if s.current_name is Some && s.current_email is Some {
        let identity = seq![
            "Current local git config:"@,
            "  Name:  "@ + s.current_name->0,
            "  Email: "@ + s.current_email->0,
            ""@,
        ];
        match s.matching_workspace {
            Some(w) => (head + identity).push("✓ Matches workspace: '"@ + w + "'"@),
            None => head + identity + unmatched_text(s.available_workspaces),
        }
    } else {
        head + unread_text(s.available_workspaces, reason)
    }
}

/// Appends each text of `items`, behind `prefix`, as a line.
pub fn push_prefixed(lines: &mut Vec<String>, prefix: &str, items: &Vec<String>)
    ensures
        text_views(final(lines)@) == text_views(old(lines)@) + prefixed(
            prefix@,
            text_views(items@),
        ),
{
    let ghost before = text_views(lines@);
    let ghost all = prefixed(prefix@, text_views(items@));
    let mut i: usize = 0;
    proof {
        assert(text_views(lines@) =~= before + all.take(0));
    }
    while i < items.len()
        invariant
            i <= items@.len(),
            all == prefixed(prefix@, text_views(items@)),
            text_views(lines@) == before + all.take(i as int),
        decreases items@.len() - i,
    {
        let line = join(prefix, items[i].as_str());
        push_line(lines, line);
        proof {
            assert(all[i as int] == prefix@ + items@[i as int]@);
            assert(before + all.take(i as int + 1) =~= (before + all.take(i as int)).push(
                all[i as int],
            ));
        }
        i += 1;
    }
    proof {
        assert(all.take(i as int) =~= all);
    }
}

/// The widths of the table's columns.
pub fn measure(config: &Config) -> (r: Widths)
    ensures
        r@ == table_widths(config.entries()),
{
    let ghost entries = config.entries();
    let mut r = Widths { workspace: 9, name: 4, email: 5 };
    let mut i: usize = 0;
    proof {
        assert(entries.take(0) =~= Seq::empty());
        assert(names_of(entries.take(0)) =~= Seq::empty());
        assert(user_names_of(entries.take(0)) =~= Seq::empty());
        assert(emails_of(entries.take(0)) =~= Seq::empty());
    }
    while i < config.workspaces.len()
        invariant
            i <= config.workspaces@.len(),
            entries == config.entries(),
            r@ == table_widths(entries.take(i as int)),
        decreases config.workspaces@.len() - i,
    {
        let entry = &config.workspaces[i];
        proof {
            let next = entries.take(i as int + 1);
            assert(next.last() == entries[i as int]);
            assert(names_of(next).drop_last() =~= names_of(entries.take(i as int)));
            assert(user_names_of(next).drop_last() =~= user_names_of(entries.take(i as int)));
            assert(emails_of(next).drop_last() =~= emails_of(entries.take(i as int)));
            assert(names_of(next).last() == entry.0@);
            assert(user_names_of(next).last() == entry.1.name@);
            assert(emails_of(next).last() == entry.1.email@);
        }
        let a = entry.0.as_str().as_bytes().len();
        let b = entry.1.name.as_str().as_bytes().len();
        let c = entry.1.email.as_str().as_bytes().len();
        if a > r.workspace {
            r.workspace = a;
        }
        if b > r.name {
            r.name = b;
        }
        if c > r.email {
            r.email = c;
        }
        i += 1;
    }
    proof {
        assert(entries.take(i as int) =~= entries);
    }
    r
}

/// A horizontal rule of the table.
pub fn rule(left: &str, middle: &str, right: &str, w: Widths) -> (r: String)
    ensures
        r@ == rule_text(left@, middle@, right@, w@),
{
    let mut r = left.to_owned();
    r.append(repeat("─", w.workspace).as_str());
    r.append(middle);
    r.append(repeat("─", w.name).as_str());
    r.append(middle);
    r.append(repeat("─", w.email).as_str());
    r.append(right);
    r
}

/// A row of the table.
pub fn row(a: &str, b: &str, c: &str, w: Widths) -> (r: String)
    ensures
        r@ == row_text(a@, b@, c@, w@),
{
    let mut r = "│ ".to_owned();
    r.append(pad(a, w.workspace).as_str());
    r.append(" │ ");
    r.append(pad(b, w.name).as_str());
    r.append(" │ ");
    r.append(pad(c, w.email).as_str());
    r.append(" │");
    r
}

/// The table of all workspaces, line by line.
pub fn table_lines(config: &Config) -> (r: Vec<String>)
    ensures
        text_views(r@) == table_text(config.entries()),
{
    let ghost entries = config.entries();
    let mut lines: Vec<String> = Vec::new();
    if config.workspaces.len() == 0 {
        push_line(&mut lines, "No workspaces configured.".to_owned());
        proof {
            assert(text_views(lines@) =~= table_text(entries));
        }
        return lines;
    }
    let w = measure(config);
    push_line(&mut lines, rule("┌─", "─┬─", "─┐", w));
    push_line(&mut lines, row("Workspace", "Name", "Email", w));
    push_line(&mut lines, rule("├─", "─┼─", "─┤", w));
    let ghost head = seq![top_text(w@), heading_text(w@), separator_text(w@)];
    let mut i: usize = 0;
    proof {
        assert(text_views(lines@) =~= head + table_rows(entries.take(0), w@));
    }
    while i < config.workspaces.len()
        invariant
            i <= config.workspaces@.len(),
            entries == config.entries(),
            head == seq![top_text(w@), heading_text(w@), separator_text(w@)],
            text_views(lines@) == head + table_rows(entries.take(i as int), w@),
        decreases config.workspaces@.len() - i,
    {
        let entry = &config.workspaces[i];
        let ghost before = table_rows(entries.take(i as int), w@);
        let ghost next = entries.take(i as int + 1);
        proof {
            assert(next.drop_last() =~= entries.take(i as int));
            assert(next.last() == entries[i as int]);
            assert(next[0] == entries[0]);
        }
        if i > 0 {
            push_line(&mut lines, rule("├─", "─┼─", "─┤", w));
        }
        push_line(
            &mut lines,
            row(entry.0.as_str(), entry.1.name.as_str(), entry.1.email.as_str(), w),
        );
        proof {
            let shown = row_text(entries[i as int].0, entries[i as int].1.name, entries[i as int].1.email, w@);
            if i == 0 {
                assert(before =~= Seq::empty());
                assert(text_views(lines@) =~= head + table_rows(next, w@));
            } else {
                assert(table_rows(next, w@) == before.push(separator_text(w@)).push(shown));
                assert(text_views(lines@) =~= head + table_rows(next, w@));
            }
        }
        i += 1;
    }
    proof {
        assert(entries.take(i as int) =~= entries);
    }
    push_line(&mut lines, rule("└─", "─┴─", "─┘", w));
    lines
}

/// Appends the lines that show one workspace in the listing.
pub fn entry_lines(
    lines: &mut Vec<String>,
    name: &str,
    workspace: &WorkspaceConfig,
    detailed: bool,
)
    ensures
        text_views(final(lines)@) == text_views(old(lines)@) + entry_text(
            name@,
            workspace@,
            detailed,
        ),
{
    let ghost before = text_views(lines@);
    let mut title = join("  ", name);
    title.append(":");
    push_line(lines, title);
    push_line(lines, join("    Name:  ", workspace.name.as_str()));
    push_line(lines, join("    Email: ", workspace.email.as_str()));
    if detailed && workspace.patterns.len() > 0 {
        push_line(lines, "    Patterns:".to_owned());
        push_prefixed(lines, "      - ", &workspace.patterns);
    }
    push_line(lines, "".to_owned());
    proof {
        assert(text_views(lines@) =~= before + entry_text(name@, workspace@, detailed));
    }
}

/// The listing of all workspaces, line by line; with their patterns where
/// it is detailed.
pub fn listing_lines(config: &Config, detailed: bool) -> (r: Vec<String>)
    ensures
        text_views(r@) == listing_text(config.entries(), detailed),
{
    let ghost entries = config.entries();
    let mut lines: Vec<String> = Vec::new();
    if config.workspaces.len() == 0 {
        push_line(&mut lines, "No workspaces configured.".to_owned());
        push_line(
            &mut lines,
            "Use 'figgit new <workspace> --name <name> --email <email>' to create one.".to_owned(),
        );
        proof {
            assert(text_views(lines@) =~= listing_text(entries, detailed));
        }
        return lines;
    }
    push_line(&mut lines, "Configured workspaces:".to_owned());
    push_line(&mut lines, "".to_owned());
    let ghost head = seq!["Configured workspaces:"@, ""@];
    let mut i: usize = 0;
    proof {
        assert(text_views(lines@) =~= head + listing_body(entries.take(0), detailed));
    }
    while i < config.workspaces.len()
        invariant
            i <= config.workspaces@.len(),
            entries == config.entries(),
            head == seq!["Configured workspaces:"@, ""@],
            text_views(lines@) == head + listing_body(entries.take(i as int), detailed),
        decreases config.workspaces@.len() - i,
    {
        let entry = &config.workspaces[i];
        let ghost next = entries.take(i as int + 1);
        proof {
            assert(next.drop_last() =~= entries.take(i as int));
            assert(next.last() == entries[i as int]);
        }
        entry_lines(&mut lines, entry.0.as_str(), &entry.1, detailed);
        proof {
            assert(text_views(lines@) =~= head + listing_body(next, detailed));
        }
        i += 1;
    }
    proof {
        assert(entries.take(i as int) =~= entries);
    }
    lines
}

/// The lines that show a single workspace.
pub fn workspace_lines(name: &str, workspace: &WorkspaceConfig) -> (r: Vec<String>)
    ensures
        text_views(r@) == workspace_text(name@, workspace@),
{
    let mut lines: Vec<String> = Vec::new();
    push_line(&mut lines, join("Workspace: ", name));
    push_line(&mut lines, join("  Name:  ", workspace.name.as_str()));
    push_line(&mut lines, join("  Email: ", workspace.email.as_str()));
    proof {
        assert(text_views(lines@) =~= workspace_text(name@, workspace@));
    }
    lines
}

/// The status report, line by line. `reason` says why no identity could be
/// read; it is shown only where none was.
pub fn status_lines(status: &StatusOutput, reason: Option<&str>) -> (r: Vec<String>)
    ensures
        text_views(r@) == status_text(
            status@,
            match reason {
                Some(why) => Some(why@),
                None => None,
            },
        ),
{
    let mut lines: Vec<String> = Vec::new();
    push_line(&mut lines, "Git Configuration Status".to_owned());
    push_line(&mut lines, "━━━━━━━━━━━━━━━━━━━━━━━━".to_owned());
    push_line(&mut lines, "".to_owned());
    let ghost head = text_views(lines@);
    let ghost available = text_views(status.available_workspaces@);
    proof {
        assert(head =~= seq!["Git Configuration Status"@, "━━━━━━━━━━━━━━━━━━━━━━━━"@, ""@]);
    }
    match (&status.current_name, &status.current_email) {
        (Some(name), Some(email)) => {
            push_line(&mut lines, "Current local git config:".to_owned());
            push_line(&mut lines, join("  Name:  ", name.as_str()));
            push_line(&mut lines, join("  Email: ", email.as_str()));
            push_line(&mut lines, "".to_owned());
            let ghost identity = seq![
                "Current local git config:"@,
                "  Name:  "@ + name@,
                "  Email: "@ + email@,
                ""@,
            ];
            proof {
                assert(text_views(lines@) =~= head + identity);
            }
            match &status.matching_workspace {
                Some(workspace) => {
                    let mut line = join("✓ Matches workspace: '", workspace.as_str());
                    line.append("'");
                    push_line(&mut lines, line);
                },
                None => {
                    push_line(&mut lines, "⚠ Does not match any configured workspace".to_owned());
                    if status.available_workspaces.len() > 0 {
                        push_line(&mut lines, "".to_owned());
                        push_line(&mut lines, "Available workspaces:".to_owned());
                        push_prefixed(&mut lines, "  - ", &status.available_workspaces);
                    }
                    proof {
                        assert(text_views(lines@) =~= head + identity + unmatched_text(available));
                    }
                },
            }
        },
        _ => {
            let title = match reason {
                Some(why) => join("⚠ Unable to read local git config: ", why),
                None => "⚠ Unable to read local git config".to_owned(),
            };
            push_line(&mut lines, title);
            push_line(&mut lines, "".to_owned());
            if status.available_workspaces.len() > 0 {
                push_line(&mut lines, "Available workspaces:".to_owned());
                push_prefixed(&mut lines, "  - ", &status.available_workspaces);
                push_line(&mut lines, "".to_owned());
                push_line(
                    &mut lines,
                    "Use 'figgit use <workspace>' to apply a workspace configuration.".to_owned(),
                );
            }
            proof {
                assert(text_views(lines@) =~= head + unread_text(
                    available,
                    match reason {
                        Some(why) => Some(why@),
                        None => None,
                    },
                ));
            }
        },
    }
    lines
}

/// What a command shows: lines of text, or records that the caller writes
/// out as JSON.
#[derive(Debug)]
pub enum Shown {
    Lines(Vec<String>),
    Records(Vec<WorkspaceOutput>),
}

/// The workspaces of a list of records, as plain values.
pub open spec fn record_views(records: Seq<WorkspaceOutput>) -> Seq<(Seq<char>, WorkspaceView)> {
    records.map_values(|r: WorkspaceOutput| r@)
}

/// One record for each workspace, in the order of names.
pub fn workspace_records(config: &Config) -> (r: Vec<WorkspaceOutput>)
    ensures
        record_views(r@) == config.entries(),
{
    let mut records: Vec<WorkspaceOutput> = Vec::new();
    let mut i: usize = 0;
    while i < config.workspaces.len()
        invariant
            i <= config.workspaces@.len(),
            record_views(records@) == config.entries().take(i as int),
        decreases config.workspaces@.len() - i,
    {
        let entry = &config.workspaces[i];
        let record = WorkspaceOutput::new(&entry.0, &entry.1);
        let ghost before = record_views(records@);
        let ghost shown = record@;
        records.push(record);
        proof {
            assert(record_views(records@) =~= before.push(shown));
            assert(config.entries()[i as int] == shown);
            assert(config.entries().take(i as int + 1) =~= config.entries().take(i as int).push(
                shown,
            ));
        }
        i += 1;
    }
    proof {
        assert(config.entries().take(i as int) =~= config.entries());
    }
    records
}

/// All workspaces in the format asked for: as records for JSON, as a table,
/// or as the detailed listing.
pub fn show_workspaces(config: &Config, format: OutputFormat) -> (r: Shown)
    ensures
        match format {
            OutputFormat::Json => r matches Shown::Records(records) && record_views(records@)
                == config.entries(),
            OutputFormat::Table => r matches Shown::Lines(lines) && text_views(lines@)
                == table_text(config.entries()),
            OutputFormat::Default => r matches Shown::Lines(lines) && text_views(lines@)
                == listing_text(config.entries(), true),
        },
{
    match format {
        OutputFormat::Json => Shown::Records(workspace_records(config)),
        OutputFormat::Table => Shown::Lines(table_lines(config)),
        OutputFormat::Default => Shown::Lines(listing_lines(config, true)),
    }
}

/// The status report in the format asked for: its lines, or nothing where
/// the report itself is to be written out as JSON.
pub fn show_status(status: &StatusOutput, reason: Option<&str>, format: OutputFormat) -> (r:
    Option<Vec<String>>)
    ensures
        match format {
            OutputFormat::Json => r is None,
            _ => r matches Some(lines) && text_views(lines@) == status_text(
                status@,
                match reason {
                    Some(why) => Some(why@),
                    None => None,
                },
            ),
        },
{
    match format {
        OutputFormat::Json => None,
        _ => Some(status_lines(status, reason)),
    }
}

} // verus!
