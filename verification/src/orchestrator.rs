//! The order of the set-up, as a function from where a run stands and what it is
//! told to where it stands next and what it asks for.
//!
//! The steps are taken in one fixed order. Each failure ends the run at once, with
//! what was created before it left in place.

use crate::error::{ErrorView, InitError};
use crate::layout::{
    manifest_file, manifest_file_of, module_file, module_file_of, pin_file, pin_file_of,
    readme_file, readme_file_of, source_dir, source_dir_of,
};
use crate::outcome::{Location, LocationView, Outcome, OutcomeView};
use crate::protocol::{Action, ActionView, Event, EventView, Phase, Run, RunView};
use crate::request::query_for;
use crate::settle::{project_dir, project_dir_for, resolve_name, resolved_name};
use crate::template::{
    manifest_document, manifest_text, module_document, module_text, readme_document, readme_text,
};
use vstd::prelude::*;
use vstd::string::*;

verus! {

/// The warning that is due while preview features are switched off.
pub open spec fn preview_warning() -> Seq<char> {
    "`uv init` is experimental and may change without warning."@
}

/// The run ends in `error`.
pub open spec fn failed(run: RunView, error: ErrorView) -> (RunView, ActionView) {
    (RunView { phase: Phase::Finished, ..run }, ActionView::Finish { result: Err(error) })
}

/// The run ends because it was told what it had not asked for.
pub open spec fn unexpected(run: RunView) -> (RunView, ActionView) {
    failed(run, ErrorView::UnexpectedReply)
}

/// The run ends with a project.
pub open spec fn finished(run: RunView, location: Option<LocationView>) -> (RunView, ActionView) {
    (
        RunView { phase: Phase::Finished, ..run },
        ActionView::Finish {
            result: Ok(
                OutcomeView {
                    name: run.name,
                    workspace: match run.workspace {
                        Some(workspace) => Some(workspace.root),
                        None => None,
                    },
                    location,
                },
            ),
        },
    )
}

/// The run asks for the current directory.
pub open spec fn locating(run: RunView) -> (RunView, ActionView) {
    (RunView { phase: Phase::Locating, ..run }, ActionView::CurrentDir)
}

/// With the current directory and the workspace known, the run settles the project
/// directory and the package name, and asks whether a manifest is there already.
pub open spec fn settled(run: RunView) -> (RunView, ActionView) {
    let dir = project_dir_for(run.request.target_path, run.current_dir);
    match resolved_name(run.request.package_name, dir) {
        Ok(name) => (
            RunView { phase: Phase::CheckingManifest, project_dir: dir, name, ..run },
            ActionView::Probe { path: manifest_file_of(dir) },
        ),
        Err(error) => failed(RunView { project_dir: dir, ..run }, error),
    }
}

/// The README is next, unless the request wants none.
pub open spec fn readme_stage(run: RunView) -> (RunView, ActionView) {
    if run.request.suppress_readme {
        pin_stage(run)
    } else {
        (
            RunView { phase: Phase::CheckingReadme, ..run },
            ActionView::Probe { path: readme_file_of(run.project_dir) },
        )
    }
}

/// The interpreter pin is next, unless the request wants none or the project stands
/// in a workspace.
pub open spec fn pin_stage(run: RunView) -> (RunView, ActionView) {
    if !run.request.suppress_version_pin && run.workspace is None {
        (
            RunView { phase: Phase::Resolving, ..run },
            ActionView::ResolveInterpreter { query: query_for(run.request) },
        )
    } else {
        workspace_stage(run)
    }
}

/// The workspace is next, if the project stands in one.
pub open spec fn workspace_stage(run: RunView) -> (RunView, ActionView) {
    match run.workspace {
        Some(workspace) => (
            RunView { phase: Phase::Registering, ..run },
            ActionView::RegisterMember { document: workspace.manifest, member: run.project_dir },
        ),
        None => report_stage(run),
    }
}

/// Last, the canonical place of the project, if the request named a place.
pub open spec fn report_stage(run: RunView) -> (RunView, ActionView) {
    match run.request.target_path {
        Some(_) => (
            RunView { phase: Phase::Canonicalizing, ..run },
            ActionView::Canonicalize { path: run.project_dir },
        ),
        None => finished(run, None),
    }
}

/// The run can no longer go on because a file or directory could not be dealt with.
pub open spec fn blocked(run: RunView, path: Seq<char>, detail: Seq<char>) -> (
    RunView,
    ActionView,
) {
    failed(run, ErrorView::FilesystemError { path, detail })
}

/// One step of a run: where it stands and what it asks for, after `event`.
pub open spec fn next(run: RunView, event: EventView) -> (RunView, ActionView) {
    let dir = run.project_dir;
    match run.phase {
        Phase::Created => match event {
            EventView::Begin => if run.request.preview {
                locating(run)
            } else {
                (
                    RunView { phase: Phase::Warned, ..run },
                    ActionView::Warn { message: preview_warning() },
                )
            },
            _ => unexpected(run),
        },
        Phase::Warned => match event {
            EventView::Done => locating(run),
            _ => unexpected(run),
        },
        Phase::Locating => match event {
            EventView::Directory { path } => (
                RunView { phase: Phase::Discovering, current_dir: path, ..run },
                ActionView::Discover { start: path },
            ),
            EventView::Failed { detail } => blocked(run, "."@, detail),
            _ => unexpected(run),
        },
        Phase::Discovering => match event {
            EventView::Workspace { found } => settled(RunView { workspace: Some(found), ..run }),
            EventView::ManifestMissing => settled(RunView { workspace: None, ..run }),
            EventView::Failed { detail } => failed(run, ErrorView::DiscoveryError { detail }),
            _ => unexpected(run),
        },
        Phase::CheckingManifest => match event {
            EventView::Exists { present } => if present {
                failed(run, ErrorView::AlreadyInitialized)
            } else {
                (
                    RunView { phase: Phase::CreatingSource, ..run },
                    ActionView::CreateDirAll { path: source_dir_of(dir, run.name) },
                )
            },
            _ => unexpected(run),
        },
        Phase::CreatingSource => match event {
            EventView::Done => (
                RunView { phase: Phase::WritingManifest, ..run },
                ActionView::WriteFile {
                    path: manifest_file_of(dir),
                    content: manifest_document(run.name),
                },
            ),
            EventView::Failed { detail } => blocked(run, source_dir_of(dir, run.name), detail),
            _ => unexpected(run),
        },
        Phase::WritingManifest => match event {
            EventView::Done => (
                RunView { phase: Phase::CheckingModule, ..run },
                ActionView::ProbeStrict { path: module_file_of(dir, run.name) },
            ),
            EventView::Failed { detail } => blocked(run, manifest_file_of(dir), detail),
            _ => unexpected(run),
        },
        Phase::CheckingModule => match event {
            EventView::Exists { present } => if present {
                readme_stage(run)
            } else {
                (
                    RunView { phase: Phase::WritingModule, ..run },
                    ActionView::WriteFile {
                        path: module_file_of(dir, run.name),
                        content: module_document(run.name),
                    },
                )
            },
            EventView::Failed { detail } => blocked(run, module_file_of(dir, run.name), detail),
            _ => unexpected(run),
        },
        Phase::WritingModule => match event {
            EventView::Done => readme_stage(run),
            EventView::Failed { detail } => blocked(run, module_file_of(dir, run.name), detail),
            _ => unexpected(run),
        },
        Phase::CheckingReadme => match event {
            EventView::Exists { present } => if present {
                pin_stage(run)
            } else {
                (
                    RunView { phase: Phase::WritingReadme, ..run },
                    ActionView::WriteFile {
                        path: readme_file_of(dir),
                        content: readme_document(),
                    },
                )
            },
            _ => unexpected(run),
        },
        Phase::WritingReadme => match event {
            EventView::Done => pin_stage(run),
            EventView::Failed { detail } => blocked(run, readme_file_of(dir), detail),
            _ => unexpected(run),
        },
        Phase::Resolving => match event {
            EventView::Version { text } => (
                RunView { phase: Phase::WritingPin, ..run },
                ActionView::WriteFile { path: pin_file_of(dir), content: text },
            ),
            EventView::Failed { detail } => failed(
                run,
                ErrorView::InterpreterResolutionError { detail },
            ),
            _ => unexpected(run),
        },
        Phase::WritingPin => match event {
            EventView::Done => workspace_stage(run),
            EventView::Failed { detail } => blocked(run, pin_file_of(dir), detail),
            _ => unexpected(run),
        },
        Phase::Registering => match (event, run.workspace) {
            (EventView::Document { text }, Some(workspace)) => (
                RunView { phase: Phase::WritingWorkspace, ..run },
                ActionView::WriteFile { path: manifest_file_of(workspace.root), content: text },
            ),
            (EventView::Failed { detail }, _) => failed(
                run,
                ErrorView::ManifestEditError { detail },
            ),
            _ => unexpected(run),
        },
        Phase::WritingWorkspace => match (event, run.workspace) {
            (EventView::Done, _) => report_stage(run),
            (EventView::Failed { detail }, Some(workspace)) => blocked(
                run,
                manifest_file_of(workspace.root),
                detail,
            ),
            _ => unexpected(run),
        },
        Phase::Canonicalizing => match event {
            EventView::Canonical { path } => finished(
                run,
                Some(LocationView::Canonical { path }),
            ),
            EventView::Failed { detail } => finished(
                run,
                Some(LocationView::AsGiven { path: dir }),
            ),
            _ => unexpected(run),
        },
        Phase::Finished => unexpected(run),
    }
}

/// Ends the run in `error`.
fn fail(run: Run, error: InitError) -> (res: (Run, Action))
    ensures
        (res.0@, res.1@) == failed(run@, error@),
{
    (Run { phase: Phase::Finished, ..run }, Action::Finish { result: Err(error) })
}

/// Ends the run because it was told what it had not asked for.
fn reject(run: Run) -> (res: (Run, Action))
    ensures
        (res.0@, res.1@) == unexpected(run@),
{
    fail(run, InitError::UnexpectedReply)
}

/// Ends the run because nothing can be done at `path`.
fn block(run: Run, path: String, detail: String) -> (res: (Run, Action))
    ensures
        (res.0@, res.1@) == blocked(run@, path@, detail@),
{
    fail(run, InitError::FilesystemError { path, detail })
}

/// Ends the run with a project.
fn finish(run: Run, location: Option<Location>) -> (res: (Run, Action))
    ensures
        (res.0@, res.1@) == finished(
            run@,
            match location {
                Some(place) => Some(place@),
                None => None,
            },
        ),
{
    let outcome = Outcome {
        name: run.name.clone(),
        workspace: match &run.workspace {
            Some(workspace) => Some(workspace.root.clone()),
            None => None,
        },
        location,
    };
    (Run { phase: Phase::Finished, ..run }, Action::Finish { result: Ok(outcome) })
}

/// Asks for the current directory.
fn locate(run: Run) -> (res: (Run, Action))
    ensures
        (res.0@, res.1@) == locating(run@),
{
    (Run { phase: Phase::Locating, ..run }, Action::CurrentDir)
}

/// Settles the project directory and the package name, and asks whether a manifest
/// is there already.
fn settle(run: Run) -> (res: (Run, Action))
    ensures
        (res.0@, res.1@) == settled(run@),
{
    let dir = project_dir(&run.request.target_path, run.current_dir.as_str());
    match resolve_name(&run.request.package_name, dir.as_str()) {
        Ok(name) => {
            let path = manifest_file(dir.as_str());
            (
                Run { phase: Phase::CheckingManifest, project_dir: dir, name, ..run },
                Action::Probe { path },
            )
        },
        Err(error) => fail(Run { project_dir: dir, ..run }, error),
    }
}

/// Goes on to the README.
fn enter_readme(run: Run) -> (res: (Run, Action))
    ensures
        (res.0@, res.1@) == readme_stage(run@),
{
    if run.request.suppress_readme {
        enter_pin(run)
    } else {
        let path = readme_file(run.project_dir.as_str());
        (Run { phase: Phase::CheckingReadme, ..run }, Action::Probe { path })
    }
}

/// Goes on to the interpreter pin.
fn enter_pin(run: Run) -> (res: (Run, Action))
    ensures
        (res.0@, res.1@) == pin_stage(run@),
{
    if !run.request.suppress_version_pin && run.workspace.is_none() {
        let query = run.request.interpreter_query();
        (Run { phase: Phase::Resolving, ..run }, Action::ResolveInterpreter { query })
    } else {
        enter_workspace(run)
    }
}

/// Goes on to the workspace.
fn enter_workspace(run: Run) -> (res: (Run, Action))
    ensures
        (res.0@, res.1@) == workspace_stage(run@),
{
    match &run.workspace {
        Some(workspace) => {
            let document = workspace.manifest.clone();
            let member = run.project_dir.clone();
            (
                Run { phase: Phase::Registering, ..run },
                Action::RegisterMember { document, member },
            )
        },
        None => enter_report(run),
    }
}

/// Goes on to what is left to find out for the report.
fn enter_report(run: Run) -> (res: (Run, Action))
    ensures
        (res.0@, res.1@) == report_stage(run@),
{
    if run.request.target_path.is_some() {
        let path = run.project_dir.clone();
        (Run { phase: Phase::Canonicalizing, ..run }, Action::Canonicalize { path })
    } else {
        finish(run, None)
    }
}

/// Takes one step: hands back the run as it stands after `event`, and what it asks
/// for next. A run that is told what it did not ask for ends in `UnexpectedReply`.
pub fn step(run: Run, event: Event) -> (res: (Run, Action))
    ensures
        (res.0@, res.1@) == next(run@, event@),
{
    match run.phase {
        Phase::Created => match event {
            Event::Begin => if run.request.preview {
                locate(run)
            } else {
                let message = "`uv init` is experimental and may change without warning.";
                (Run { phase: Phase::Warned, ..run }, Action::Warn { message: message.to_owned() })
            },
            _ => reject(run),
        },
        Phase::Warned => match event {
            Event::Done => locate(run),
            _ => reject(run),
        },
        Phase::Locating => match event {
            Event::Directory { path } => {
                let start = path.clone();
                (
                    Run { phase: Phase::Discovering, current_dir: path, ..run },
                    Action::Discover { start },
                )
            },
            Event::Failed { detail } => block(run, ".".to_owned(), detail),
            _ => reject(run),
        },
        Phase::Discovering => match event {
            Event::Workspace { found } => settle(Run { workspace: Some(found), ..run }),
            Event::ManifestMissing => settle(Run { workspace: None, ..run }),
            Event::Failed { detail } => fail(run, InitError::DiscoveryError { detail }),
            _ => reject(run),
        },
        Phase::CheckingManifest => match event {
            Event::Exists { present } => if present {
                fail(run, InitError::AlreadyInitialized)
            } else {
                let path = source_dir(run.project_dir.as_str(), &run.name);
                (Run { phase: Phase::CreatingSource, ..run }, Action::CreateDirAll { path })
            },
            _ => reject(run),
        },
        Phase::CreatingSource => match event {
            Event::Done => {
                let path = manifest_file(run.project_dir.as_str());
                let content = manifest_text(&run.name);
                (Run { phase: Phase::WritingManifest, ..run }, Action::WriteFile { path, content })
            },
            Event::Failed { detail } => {
                let path = source_dir(run.project_dir.as_str(), &run.name);
                block(run, path, detail)
            },
            _ => reject(run),
        },
        Phase::WritingManifest => match event {
            Event::Done => {
                let path = module_file(run.project_dir.as_str(), &run.name);
                (Run { phase: Phase::CheckingModule, ..run }, Action::ProbeStrict { path })
            },
            Event::Failed { detail } => {
                let path = manifest_file(run.project_dir.as_str());
                block(run, path, detail)
            },
            _ => reject(run),
        },
        Phase::CheckingModule => match event {
            Event::Exists { present } => if present {
                enter_readme(run)
            } else {
                let path = module_file(run.project_dir.as_str(), &run.name);
                let content = module_text(&run.name);
                (Run { phase: Phase::WritingModule, ..run }, Action::WriteFile { path, content })
            },
            Event::Failed { detail } => {
                let path = module_file(run.project_dir.as_str(), &run.name);
                block(run, path, detail)
            },
            _ => reject(run),
        },
        Phase::WritingModule => match event {
            Event::Done => enter_readme(run),
            Event::Failed { detail } => {
                let path = module_file(run.project_dir.as_str(), &run.name);
                block(run, path, detail)
            },
            _ => reject(run),
        },
        Phase::CheckingReadme => match event {
            Event::Exists { present } => if present {
                enter_pin(run)
            } else {
                let path = readme_file(run.project_dir.as_str());
                let content = readme_text();
                (Run { phase: Phase::WritingReadme, ..run }, Action::WriteFile { path, content })
            },
            _ => reject(run),
        },
        Phase::WritingReadme => match event {
            Event::Done => enter_pin(run),
            Event::Failed { detail } => {
                let path = readme_file(run.project_dir.as_str());
                block(run, path, detail)
            },
            _ => reject(run),
        },
        Phase::Resolving => match event {
            Event::Version { text } => {
                let path = pin_file(run.project_dir.as_str());
                (
                    Run { phase: Phase::WritingPin, ..run },
                    Action::WriteFile { path, content: text },
                )
            },
            Event::Failed { detail } => fail(
                run,
                InitError::InterpreterResolutionError { detail },
            ),
            _ => reject(run),
        },
        Phase::WritingPin => match event {
            Event::Done => enter_workspace(run),
            Event::Failed { detail } => {
                let path = pin_file(run.project_dir.as_str());
                block(run, path, detail)
            },
            _ => reject(run),
        },
        Phase::Registering => match event {
            Event::Document { text } => match &run.workspace {
                Some(workspace) => {
                    let path = manifest_file(workspace.root.as_str());
                    (
                        Run { phase: Phase::WritingWorkspace, ..run },
                        Action::WriteFile { path, content: text },
                    )
                },
                None => reject(run),
            },
            Event::Failed { detail } => fail(run, InitError::ManifestEditError { detail }),
            _ => reject(run),
        },
        Phase::WritingWorkspace => match event {
            Event::Done => enter_report(run),
            Event::Failed { detail } => match &run.workspace {
                Some(workspace) => {
                    let path = manifest_file(workspace.root.as_str());
                    block(run, path, detail)
                },
                None => reject(run),
            },
            _ => reject(run),
        },
        Phase::Canonicalizing => match event {
            Event::Canonical { path } => finish(run, Some(Location::Canonical { path })),
            Event::Failed { detail } => {
                let path = run.project_dir.clone();
                finish(run, Some(Location::AsGiven { path }))
            },
            _ => reject(run),
        },
        Phase::Finished => reject(run),
    }
}

} // verus!
