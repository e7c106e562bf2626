//! A model of what surrounds a run, to say what a whole run does.
//!
//! A run only asks and is told. What it achieves is said here, of a run whose
//! actions are carried out faithfully on a tree of files and directories, by
//! collaborators that answer one question in one way.

use crate::error::ErrorView;
use crate::orchestrator::next;
use crate::outcome::OutcomeView;
use crate::protocol::{fresh, ActionView, EventView, Phase, RunView};
use crate::request::{QueryView, RequestView, WorkspaceView};
use vstd::prelude::*;

verus! {

/// The files and directories there are, each under the text of its path. Two
/// spellings of one place count as two places.
pub struct Tree {
    /// What each file holds.
    pub files: Map<Seq<char>, Seq<char>>,
    pub dirs: Set<Seq<char>>,
}

impl Tree {
    /// Whether a file or a directory stands at `path`.
    pub open spec fn occupied(self, path: Seq<char>) -> bool {
        self.files.contains_key(path) || self.dirs.contains(path)
    }

    /// The tree with `content` in the file `path`.
    pub open spec fn with_file(self, path: Seq<char>, content: Seq<char>) -> Tree {
        Tree { files: self.files.insert(path, content), ..self }
    }

    /// The tree with the directory `path`.
    pub open spec fn with_dir(self, path: Seq<char>) -> Tree {
        Tree { dirs: self.dirs.insert(path), ..self }
    }
}

/// Everything but the tree that a run depends on. An `Err` holds the words of a
/// failure.
pub struct Surroundings {
    /// The canonical current directory.
    pub current_dir: Result<Seq<char>, Seq<char>>,
    /// The workspace that encloses a directory, or none where there is no manifest
    /// to find.
    pub discovery: spec_fn(Seq<char>) -> Result<Option<WorkspaceView>, Seq<char>>,
    /// The version of the interpreter that answers a query.
    pub resolver: spec_fn(QueryView) -> Result<Seq<char>, Seq<char>>,
    /// The manifest of a workspace once a member is added: from the manifest as it
    /// reads and the path of the member.
    pub editor: spec_fn(Seq<char>, Seq<char>) -> Result<Seq<char>, Seq<char>>,
    /// The canonical form of a path.
    pub canonical: spec_fn(Seq<char>) -> Result<Seq<char>, Seq<char>>,
    /// Why nothing can be created or written at a path, where that is so.
    pub refusal: spec_fn(Seq<char>) -> Option<Seq<char>>,
    /// Why a path cannot be looked at, where that is so.
    pub blindness: spec_fn(Seq<char>) -> Option<Seq<char>>,
}

/// The answer to a question that is answered by a text or fails.
pub open spec fn told(
    answer: Result<Seq<char>, Seq<char>>,
    as_event: spec_fn(Seq<char>) -> EventView,
) -> EventView {
    match answer {
        Ok(text) => as_event(text),
        Err(detail) => EventView::Failed { detail },
    }
}

/// How `action` goes: the event that answers it, and the tree as it is left.
pub open spec fn answer(around: Surroundings, tree: Tree, action: ActionView) -> (EventView, Tree) {
    match action {
        ActionView::Warn { message } => (EventView::Done, tree),
        ActionView::CurrentDir => (
            told(around.current_dir, |path: Seq<char>| EventView::Directory { path }),
            tree,
        ),
        ActionView::Discover { start } => (
            match (around.discovery)(start) {
                Ok(Some(found)) => EventView::Workspace { found },
                Ok(None) => EventView::ManifestMissing,
                Err(detail) => EventView::Failed { detail },
            },
            tree,
        ),
        ActionView::Probe { path } => (EventView::Exists { present: tree.occupied(path) }, tree),
        ActionView::ProbeStrict { path } => (
            match (around.blindness)(path) {
                Some(detail) => EventView::Failed { detail },
                None => EventView::Exists { present: tree.occupied(path) },
            },
            tree,
        ),
        ActionView::CreateDirAll { path } => match (around.refusal)(path) {
            Some(detail) => (EventView::Failed { detail }, tree),
            None => (EventView::Done, tree.with_dir(path)),
        },
        ActionView::WriteFile { path, content } => match (around.refusal)(path) {
            Some(detail) => (EventView::Failed { detail }, tree),
            None => (EventView::Done, tree.with_file(path, content)),
        },
        ActionView::ResolveInterpreter { query } => (
            told((around.resolver)(query), |text: Seq<char>| EventView::Version { text }),
            tree,
        ),
        ActionView::RegisterMember { document, member } => (
            told((around.editor)(document, member), |text: Seq<char>| EventView::Document { text }),
            tree,
        ),
        ActionView::Canonicalize { path } => (
            told((around.canonical)(path), |path: Seq<char>| EventView::Canonical { path }),
            tree,
        ),
        ActionView::Finish { result } => (EventView::Done, tree),
    }
}

/// How many steps a run may still take, at most.
pub open spec fn remaining(phase: Phase) -> nat {
    match phase {
        Phase::Created => 16,
        Phase::Warned => 15,
        Phase::Locating => 14,
        Phase::Discovering => 13,
        Phase::CheckingManifest => 12,
        Phase::CreatingSource => 11,
        Phase::WritingManifest => 10,
        Phase::CheckingModule => 9,
        Phase::WritingModule => 8,
        Phase::CheckingReadme => 7,
        Phase::WritingReadme => 6,
        Phase::Resolving => 5,
        Phase::WritingPin => 4,
        Phase::Registering => 3,
        Phase::WritingWorkspace => 2,
        Phase::Canonicalizing => 1,
        Phase::Finished => 0,
    }
}

/// Every step either ends the run or leaves it fewer steps to take.
pub proof fn lemma_next_advances(run: RunView, event: EventView)
    ensures
        next(run, event).1 is Finish || remaining(next(run, event).0.phase) < remaining(run.phase),
{
}

/// The run from `run` and `event` to its end: its result, and the tree as it is
/// left.
pub open spec fn carried_on(run: RunView, event: EventView, around: Surroundings, tree: Tree) -> (
    Result<OutcomeView, ErrorView>,
    Tree,
)
    decreases remaining(run.phase),
{
    let (then, action) = next(run, event);
    match action {
        ActionView::Finish { result } => (result, tree),
        _ => {
            let (reply, after) = answer(around, tree, action);
            proof {
                lemma_next_advances(run, event);
            }
            carried_on(then, reply, around, after)
        },
    }
}

/// A whole run for `request`: its result, and the tree as it is left.
pub open spec fn initialize(request: RequestView, around: Surroundings, tree: Tree) -> (
    Result<OutcomeView, ErrorView>,
    Tree,
) {
    carried_on(fresh(request), EventView::Begin, around, tree)
}

} // verus!
