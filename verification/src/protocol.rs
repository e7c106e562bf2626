//! What passes between a run and whoever carries out its steps: the run asks for
//! one action at a time and is told, as an event, how it went.

use crate::error::{ErrorView, InitError};
use crate::name::PackageName;
use crate::outcome::{Outcome, OutcomeView};
use crate::request::{
    InitRequest, InterpreterQuery, QueryView, RequestView, WorkspaceContext, WorkspaceView,
};
use vstd::prelude::*;

verus! {

/// What a run waits for.
#[derive(Clone, Copy, Debug, PartialEq, Eq, Structural)]
pub enum Phase {
    /// The word to begin.
    Created,
    /// The warning about preview features to be shown.
    Warned,
    /// The current directory.
    Locating,
    /// The workspace around the current directory, if there is one.
    Discovering,
    /// Whether the project directory holds a manifest.
    CheckingManifest,
    /// The package directory to be created.
    CreatingSource,
    /// The manifest to be written.
    WritingManifest,
    /// Whether the first module is there.
    CheckingModule,
    /// The first module to be written.
    WritingModule,
    /// Whether the README is there.
    CheckingReadme,
    /// The README to be written.
    WritingReadme,
    /// The interpreter to pin.
    Resolving,
    /// The pin file to be written.
    WritingPin,
    /// The manifest of the workspace, with the project added as a member.
    Registering,
    /// The manifest of the workspace to be written.
    WritingWorkspace,
    /// The canonical path of the project directory.
    Canonicalizing,
    /// Nothing: the run is over.
    Finished,
}

/// What a run asks to be done.
#[derive(Debug, PartialEq, Eq)]
pub enum Action {
    /// Show a warning. Answered by `Done`.
    Warn { message: String },
    /// Find the canonical current directory. Answered by `Directory` or `Failed`.
    CurrentDir,
    /// Look for the workspace that encloses `start`. Answered by `Workspace`, by
    /// `ManifestMissing` where there is no manifest to find, or by `Failed`.
    Discover { start: String },
    /// Tell whether anything stands at `path`, a place that cannot be looked at
    /// counting as empty. Answered by `Exists`.
    Probe { path: String },
    /// Tell whether anything stands at `path`. Answered by `Exists`, or by `Failed`
    /// where the place cannot be looked at.
    ProbeStrict { path: String },
    /// Create the directory `path` and every missing directory above it. Answered by
    /// `Done` or `Failed`.
    CreateDirAll { path: String },
    /// Write `content` to the file `path`, in place of what it held. Answered by
    /// `Done` or `Failed`.
    WriteFile { path: String, content: String },
    /// Find or fetch an interpreter. Answered by `Version` or `Failed`.
    ResolveInterpreter { query: InterpreterQuery },
    /// Add `member` to the members of the workspace whose manifest reads `document`.
    /// Answered by `Document`, the manifest as it then reads, or by `Failed`.
    RegisterMember { document: String, member: String },
    /// Find the canonical form of `path`. Answered by `Canonical` or `Failed`.
    Canonicalize { path: String },
    /// Nothing more: the run is over, with this result.
    Finish { result: Result<Outcome, InitError> },
}

/// How an action went.
#[derive(Debug, PartialEq, Eq)]
pub enum Event {
    /// The run may begin.
    Begin,
    /// It is done.
    Done,
    /// The current directory is `path`.
    Directory { path: String },
    /// The enclosing workspace.
    Workspace { found: WorkspaceContext },
    /// No manifest was found from which a workspace could be told.
    ManifestMissing,
    /// Whether something stands at the path.
    Exists { present: bool },
    /// The version of the interpreter.
    Version { text: String },
    /// The manifest of the workspace with the new member.
    Document { text: String },
    /// The canonical path.
    Canonical { path: String },
    /// It could not be done.
    Failed { detail: String },
}

/// One run of the set-up: the request, how far it has come, and what it has learnt.
#[derive(Debug, PartialEq, Eq)]
pub struct Run {
    pub request: InitRequest,
    pub phase: Phase,
    /// The current directory; empty until it is known.
    pub current_dir: String,
    /// The enclosing workspace; none until one is found.
    pub workspace: Option<WorkspaceContext>,
    /// The project directory; empty until it is settled.
    pub project_dir: String,
    /// The package name; empty until it is settled.
    pub name: PackageName,
}

/// An `Action` as a mathematical value.
pub enum ActionView {
    Warn { message: Seq<char> },
    CurrentDir,
    Discover { start: Seq<char> },
    Probe { path: Seq<char> },
    ProbeStrict { path: Seq<char> },
    CreateDirAll { path: Seq<char> },
    WriteFile { path: Seq<char>, content: Seq<char> },
    ResolveInterpreter { query: QueryView },
    RegisterMember { document: Seq<char>, member: Seq<char> },
    Canonicalize { path: Seq<char> },
    Finish { result: Result<OutcomeView, ErrorView> },
}

/// An `Event` as a mathematical value.
pub enum EventView {
    Begin,
    Done,
    Directory { path: Seq<char> },
    Workspace { found: WorkspaceView },
    ManifestMissing,
    Exists { present: bool },
    Version { text: Seq<char> },
    Document { text: Seq<char> },
    Canonical { path: Seq<char> },
    Failed { detail: Seq<char> },
}

/// A `Run` as a mathematical value.
pub struct RunView {
    pub request: RequestView,
    pub phase: Phase,
    pub current_dir: Seq<char>,
    pub workspace: Option<WorkspaceView>,
    pub project_dir: Seq<char>,
    pub name: Seq<char>,
}

impl View for Action {
    type V = ActionView;

    open spec fn view(&self) -> ActionView {
        match self {
            Action::Warn { message } => ActionView::Warn { message: message@ },
            Action::CurrentDir => ActionView::CurrentDir,
            Action::Discover { start } => ActionView::Discover { start: start@ },
            Action::Probe { path } => ActionView::Probe { path: path@ },
            Action::ProbeStrict { path } => ActionView::ProbeStrict { path: path@ },
            Action::CreateDirAll { path } => ActionView::CreateDirAll { path: path@ },
            Action::WriteFile { path, content } => ActionView::WriteFile {
                path: path@,
                content: content@,
            },
            Action::ResolveInterpreter { query } => ActionView::ResolveInterpreter {
                query: query@,
            },
            Action::RegisterMember { document, member } => ActionView::RegisterMember {
                document: document@,
                member: member@,
            },
            Action::Canonicalize { path } => ActionView::Canonicalize { path: path@ },
            Action::Finish { result } => ActionView::Finish {
                result: match result {
                    Ok(outcome) => Ok(outcome@),
                    Err(error) => Err(error@),
                },
            },
        }
    }
}

impl View for Event {
    type V = EventView;

    open spec fn view(&self) -> EventView {
        match self {
            Event::Begin => EventView::Begin,
            Event::Done => EventView::Done,
            Event::Directory { path } => EventView::Directory { path: path@ },
            Event::Workspace { found } => EventView::Workspace { found: found@ },
            Event::ManifestMissing => EventView::ManifestMissing,
            Event::Exists { present } => EventView::Exists { present: *present },
            Event::Version { text } => EventView::Version { text: text@ },
            Event::Document { text } => EventView::Document { text: text@ },
            Event::Canonical { path } => EventView::Canonical { path: path@ },
            Event::Failed { detail } => EventView::Failed { detail: detail@ },
        }
    }
}

impl View for Run {
    type V = RunView;

    open spec fn view(&self) -> RunView {
        RunView {
            request: self.request@,
            phase: self.phase,
            current_dir: self.current_dir@,
            workspace: match self.workspace {
                Some(workspace) => Some(workspace@),
                None => None,
            },
            project_dir: self.project_dir@,
            name: self.name@,
        }
    }
}

/// The run that `request` starts with: nothing done, nothing learnt.
pub open spec fn fresh(request: RequestView) -> RunView {
    RunView {
        request,
        phase: Phase::Created,
        current_dir: Seq::empty(),
        workspace: None,
        project_dir: Seq::empty(),
        name: Seq::empty(),
    }
}

impl Run {
    /// Starts a run. It takes its first step on the event `Begin`. Every request
    /// that is there to start a run with is well formed.
    pub fn new(request: InitRequest) -> (run: Run)
        ensures
            run@ == fresh(request@),
            request@.well_formed(),
    {
        proof {
            if let Some(name) = &request.package_name {
                use_type_invariant(name);
            }
        }
        Run {
            request,
            phase: Phase::Created,
            current_dir: String::new(),
            workspace: None,
            project_dir: String::new(),
            name: PackageName::empty(),
        }
    }
}

} // verus!
