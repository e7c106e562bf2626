//! The lines that tell a user what was set up.

use crate::outcome::{Location, LocationView, Outcome, OutcomeView};
use owo_colors::OwoColorize;
use std::path::Path;
use uv_fs::Simplified;
use vstd::prelude::*;
use vstd::string::*;

verus! {

/// `text` between the marks that switch a terminal to cyan and back to its own
/// colour.
pub open spec fn in_cyan(text: Seq<char>) -> Seq<char> {
    "\x1b[36m"@ + text + "\x1b[39m"@
}

/// The four characters that mark a verbatim path on one platform: `\\?\`.
pub open spec fn verbatim_mark() -> Seq<char> {
    seq!['\\', '\\', '?', '\\']
}

/// Whether `shown` is a simplified form of `path`: the path itself, or the path
/// without the mark of a verbatim path at its start.
pub open spec fn simplifies(path: Seq<char>, shown: Seq<char>) -> bool {
    shown == path || (path.len() >= 4 && path.take(4) == verbatim_mark() && shown == path.skip(4))
}

/// The line about a project that was made a member of a workspace.
pub open spec fn workspace_notice(name: Seq<char>, workspace: Seq<char>) -> Seq<char> {
    "Adding "@ + in_cyan(name) + " as member of workspace "@ + in_cyan(workspace)
}

/// The line about a project that was set up, with its place if one is to be named.
pub open spec fn initialized_notice(name: Seq<char>, place: Option<Seq<char>>) -> Seq<char> {
    match place {
        Some(shown) => "Initialized project "@ + in_cyan(name) + " in "@ + in_cyan(shown),
        None => "Initialized project "@ + in_cyan(name),
    }
}

/// The place to name in the last line: none where the caller named none, the
/// canonical path as it is, and otherwise `shown_given`, which stands for the path
/// that the caller wrote.
pub open spec fn place_shown(location: Option<LocationView>, shown_given: Seq<char>) -> Option<
    Seq<char>,
> {
    match location {
        None => None,
        Some(LocationView::Canonical { path }) => Some(path),
        Some(LocationView::AsGiven { path }) => Some(shown_given),
    }
}

/// The report on `outcome`: a line about the workspace where the project joined
/// one, with `shown_workspace` for its root, and then the line about the project.
pub open spec fn report_of(
    outcome: OutcomeView,
    shown_workspace: Seq<char>,
    shown_given: Seq<char>,
) -> Seq<Seq<char>> {
    let last = initialized_notice(outcome.name, place_shown(outcome.location, shown_given));
    match outcome.workspace {
        Some(_) => seq![workspace_notice(outcome.name, shown_workspace), last],
        None => seq![last],
    }
}

/// Formats the value that `owo_colors::OwoColorize::cyan` gives for a text. Its
/// source writes the escape sequence for a cyan foreground, the text, and the escape
/// sequence for the default foreground.
#[verifier::external_body]
fn cyan(text: &str) -> (painted: String)
    ensures
        painted@ == in_cyan(text@),
{
    format!("{}", text.cyan())
}

/// Formats the value that `uv_fs::Simplified::simplified_display` gives for a path.
/// What comes back depends on the platform: its documentation has the prefix `\\?\`
/// dropped on Windows and nothing changed elsewhere. The claim is what holds on
/// either: the path comes back as it is or without that prefix.
#[verifier::external_body]
fn simplified_display(path: &str) -> (shown: String)
    ensures
        simplifies(path@, shown@),
{
    format!("{}", Path::new(path).simplified_display())
}

/// Calls `uv_fs::Simplified::simplified` on a path and formats the path that comes
/// back. It depends on the platform as `simplified_display` does, and the claim is
/// the same: the path comes back as it is or without the prefix `\\?\`.
#[verifier::external_body]
fn simplified(path: &str) -> (shown: String)
    ensures
        simplifies(path@, shown@),
{
    format!("{}", Path::new(path).simplified().display())
}

/// Writes the line about a project that was made a member of a workspace.
pub fn workspace_line(name: &str, workspace: &str) -> (line: String)
    ensures
        line@ == workspace_notice(name@, workspace@),
{
    let mut line = "Adding ".to_owned();
    line.append(cyan(name).as_str());
    line.append(" as member of workspace ");
    line.append(cyan(workspace).as_str());
    line
}

/// Writes the line about a project that was set up.
pub fn initialized_line(name: &str, place: Option<&str>) -> (line: String)
    ensures
        line@ == initialized_notice(
            name@,
            match place {
                Some(shown) => Some(shown@),
                None => None,
            },
        ),
{
    let mut line = "Initialized project ".to_owned();
    line.append(cyan(name).as_str());
    match place {
        Some(shown) => {
            line.append(" in ");
            line.append(cyan(shown).as_str());
        },
        None => {},
    }
    line
}

/// Writes the report on `outcome`, given the forms in which the root of the
/// workspace and the path that the caller wrote are to be shown.
pub fn compose(outcome: &Outcome, shown_workspace: &str, shown_given: &str) -> (lines: Vec<
    String,
>)
    ensures
        lines.deep_view() == report_of(outcome@, shown_workspace@, shown_given@),
{
    let mut lines: Vec<String> = Vec::new();
    if outcome.workspace.is_some() {
        lines.push(workspace_line(outcome.name.as_str(), shown_workspace));
    }
    let last = match &outcome.location {
        None => initialized_line(outcome.name.as_str(), None),
        Some(Location::Canonical { path }) => initialized_line(
            outcome.name.as_str(),
            Some(path.as_str()),
        ),
        Some(Location::AsGiven { path }) => initialized_line(
            outcome.name.as_str(),
            Some(shown_given),
        ),
    };
    lines.push(last);
    lines
}

/// Whether `shown_workspace` and `shown_given` may stand in a report on `outcome`
/// for the root of the workspace and for the path that the caller wrote: each is a
/// simplified form of what it stands for.
pub open spec fn shows(outcome: OutcomeView, shown_workspace: Seq<char>, shown_given: Seq<char>)
    -> bool {
    &&& outcome.workspace matches Some(root) ==> simplifies(root, shown_workspace)
    &&& outcome.location matches Some(LocationView::AsGiven { path }) ==> simplifies(
        path,
        shown_given,
    )
}

/// Writes the report on `outcome`. The root of the workspace and a path that the
/// caller wrote are shown in a simplified form, which depends on the platform; all
/// else is as `report_of` says.
pub fn report(outcome: &Outcome) -> (lines: Vec<String>)
    ensures
        exists|shown_workspace: Seq<char>, shown_given: Seq<char>|
            shows(outcome@, shown_workspace, shown_given) && lines.deep_view()
                == #[trigger] report_of(outcome@, shown_workspace, shown_given),
{
    let shown_workspace = match &outcome.workspace {
        Some(root) => simplified_display(root.as_str()),
        None => String::new(),
    };
    let shown_given = match &outcome.location {
        Some(Location::AsGiven { path }) => simplified(path.as_str()),
        _ => String::new(),
    };
    compose(outcome, shown_workspace.as_str(), shown_given.as_str())
}

} // verus!
