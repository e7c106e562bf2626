//! A whole run, said in one piece.
//!
//! `outline` says what a run comes to, from the request, the surroundings and the
//! tree alone, without steps. `theorem_run_follows_outline` shows that a run taken
//! step by step comes to exactly that.

use crate::error::ErrorView;
use crate::layout::{
    manifest_file_of, module_file_of, pin_file_of, readme_file_of, source_dir_of,
};
use crate::model::{answer, carried_on, initialize, Surroundings, Tree};
use crate::orchestrator::{pin_stage, readme_stage};
use crate::outcome::{LocationView, OutcomeView};
use crate::protocol::{ActionView, Phase, RunView};
use crate::request::{query_for, RequestView, WorkspaceView};
use crate::settle::{project_dir_for, resolved_name};
use crate::template::{manifest_document, module_document, readme_document};
use vstd::prelude::*;

verus! {

/// What a run has settled once it knows where it is: the request, the enclosing
/// workspace, the project directory and the package name.
pub struct Plan {
    pub request: RequestView,
    pub workspace: Option<WorkspaceView>,
    pub dir: Seq<char>,
    pub name: Seq<char>,
}

/// What a run has settled.
pub open spec fn plan_of(run: RunView) -> Plan {
    Plan { request: run.request, workspace: run.workspace, dir: run.project_dir, name: run.name }
}

/// How a run ends, and the tree it leaves.
pub type Ending = (Result<OutcomeView, ErrorView>, Tree);

/// A run that stops because nothing can be done at `path`.
pub open spec fn stopped_at(path: Seq<char>, detail: Seq<char>, tree: Tree) -> Ending {
    (Err(ErrorView::FilesystemError { path, detail }), tree)
}

/// The place that the report names: none where the request named none, else the
/// canonical form of the project directory, or the directory as it was written
/// where it has no canonical form.
pub open spec fn place_of(plan: Plan, around: Surroundings) -> Option<LocationView> {
    match plan.request.target_path {
        None => None,
        Some(_) => Some(
            match (around.canonical)(plan.dir) {
                Ok(path) => LocationView::Canonical { path },
                Err(_) => LocationView::AsGiven { path: plan.dir },
            },
        ),
    }
}

/// What a run reports once all is written.
pub open spec fn concluded(plan: Plan, around: Surroundings) -> OutcomeView {
    OutcomeView {
        name: plan.name,
        workspace: match plan.workspace {
            Some(workspace) => Some(workspace.root),
            None => None,
        },
        location: place_of(plan, around),
    }
}

/// From the workspace on: a project that stands in a workspace is added to its
/// members, and the manifest of the workspace is written anew.
pub open spec fn registered(plan: Plan, around: Surroundings, tree: Tree) -> Ending {
    match plan.workspace {
        None => (Ok(concluded(plan, around)), tree),
        Some(workspace) => match (around.editor)(workspace.manifest, plan.dir) {
            Err(detail) => (Err(ErrorView::ManifestEditError { detail }), tree),
            Ok(text) => {
                let path = manifest_file_of(workspace.root);
                match (around.refusal)(path) {
                    Some(detail) => stopped_at(path, detail, tree),
                    None => (Ok(concluded(plan, around)), tree.with_file(path, text)),
                }
            },
        },
    }
}

/// From the pin on: the version of the interpreter is written to the pin file,
/// unless the request wants no pin or the project stands in a workspace.
pub open spec fn pinned(plan: Plan, around: Surroundings, tree: Tree) -> Ending {
    if !plan.request.suppress_version_pin && plan.workspace is None {
        match (around.resolver)(query_for(plan.request)) {
            Err(detail) => (Err(ErrorView::InterpreterResolutionError { detail }), tree),
            Ok(version) => {
                let path = pin_file_of(plan.dir);
                match (around.refusal)(path) {
                    Some(detail) => stopped_at(path, detail, tree),
                    None => registered(plan, around, tree.with_file(path, version)),
                }
            },
        }
    } else {
        registered(plan, around, tree)
    }
}

/// From the README on: an empty README is written, unless the request wants none
/// or something stands in its place.
pub open spec fn readme_made(plan: Plan, around: Surroundings, tree: Tree) -> Ending {
    let path = readme_file_of(plan.dir);
    if plan.request.suppress_readme || tree.occupied(path) {
        pinned(plan, around, tree)
    } else {
        match (around.refusal)(path) {
            Some(detail) => stopped_at(path, detail, tree),
            None => pinned(plan, around, tree.with_file(path, readme_document())),
        }
    }
}

/// From the first module on: it is written unless something stands in its place.
pub open spec fn module_made(plan: Plan, around: Surroundings, tree: Tree) -> Ending {
    let path = module_file_of(plan.dir, plan.name);
    match (around.blindness)(path) {
        Some(detail) => stopped_at(path, detail, tree),
        None => if tree.occupied(path) {
            readme_made(plan, around, tree)
        } else {
            match (around.refusal)(path) {
                Some(detail) => stopped_at(path, detail, tree),
                None => readme_made(
                    plan,
                    around,
                    tree.with_file(path, module_document(plan.name)),
                ),
            }
        },
    }
}

/// From the look for a manifest on: where none is there, the package directory is
/// created and the manifest written.
pub open spec fn set_up(plan: Plan, around: Surroundings, tree: Tree) -> Ending {
    let manifest = manifest_file_of(plan.dir);
    let package = source_dir_of(plan.dir, plan.name);
    if tree.occupied(manifest) {
        (Err(ErrorView::AlreadyInitialized), tree)
    } else {
        match (around.refusal)(package) {
            Some(detail) => stopped_at(package, detail, tree),
            None => match (around.refusal)(manifest) {
                Some(detail) => stopped_at(manifest, detail, tree.with_dir(package)),
                None => module_made(
                    plan,
                    around,
                    tree.with_dir(package).with_file(manifest, manifest_document(plan.name)),
                ),
            },
        }
    }
}

/// What a run settles, or the error it ends in before it has looked at the tree.
pub open spec fn planned(request: RequestView, around: Surroundings) -> Result<Plan, ErrorView> {
    match around.current_dir {
        Err(detail) => Err(ErrorView::FilesystemError { path: "."@, detail }),
        Ok(current_dir) => match (around.discovery)(current_dir) {
            Err(detail) => Err(ErrorView::DiscoveryError { detail }),
            Ok(workspace) => {
                let dir = project_dir_for(request.target_path, current_dir);
                match resolved_name(request.package_name, dir) {
                    Err(error) => Err(error),
                    Ok(name) => Ok(Plan { request, workspace, dir, name }),
                }
            },
        },
    }
}

/// A whole run: how it ends, and the tree it leaves.
pub open spec fn outline(request: RequestView, around: Surroundings, tree: Tree) -> Ending {
    match planned(request, around) {
        Err(error) => (Err(error), tree),
        Ok(plan) => set_up(plan, around, tree),
    }
}

/// What comes of a run that stands at `then` and has asked for `action`.
pub open spec fn pursued(then: RunView, action: ActionView, around: Surroundings, tree: Tree)
    -> Ending {
    match action {
        ActionView::Finish { result } => (result, tree),
        _ => {
            let (reply, after) = answer(around, tree, action);
            carried_on(then, reply, around, after)
        },
    }
}

/// From the pin on, a run does as the outline says.
proof fn lemma_pin_stage(run: RunView, around: Surroundings, tree: Tree)
    ensures
        pursued(pin_stage(run).0, pin_stage(run).1, around, tree) == pinned(
            plan_of(run),
            around,
            tree,
        ),
{
    reveal_with_fuel(carried_on, 3);
}

/// From the README on, a run does as the outline says.
proof fn lemma_readme_stage(run: RunView, around: Surroundings, tree: Tree)
    ensures
        pursued(readme_stage(run).0, readme_stage(run).1, around, tree) == readme_made(
            plan_of(run),
            around,
            tree,
        ),
{
    reveal_with_fuel(carried_on, 3);
    let path = readme_file_of(run.project_dir);
    if run.request.suppress_readme {
        lemma_pin_stage(run, around, tree);
    } else if tree.occupied(path) {
        lemma_pin_stage(RunView { phase: Phase::CheckingReadme, ..run }, around, tree);
    } else if (around.refusal)(path) is None {
        lemma_pin_stage(
            RunView { phase: Phase::WritingReadme, ..run },
            around,
            tree.with_file(path, readme_document()),
        );
    }
}

/// From the look for a manifest on, a run does as the outline says.
proof fn lemma_set_up(run: RunView, around: Surroundings, tree: Tree)
    requires
        run.phase == Phase::CheckingManifest,
    ensures
        pursued(run, ActionView::Probe { path: manifest_file_of(run.project_dir) }, around, tree)
            == set_up(plan_of(run), around, tree),
{
    reveal_with_fuel(carried_on, 6);
    let manifest = manifest_file_of(run.project_dir);
    let package = source_dir_of(run.project_dir, run.name);
    let module = module_file_of(run.project_dir, run.name);
    if !tree.occupied(manifest) && (around.refusal)(package) is None && (around.refusal)(
        manifest,
    ) is None {
        let grown = tree.with_dir(package).with_file(manifest, manifest_document(run.name));
        if (around.blindness)(module) is None {
            if grown.occupied(module) {
                lemma_readme_stage(RunView { phase: Phase::CheckingModule, ..run }, around, grown);
            } else if (around.refusal)(module) is None {
                lemma_readme_stage(
                    RunView { phase: Phase::WritingModule, ..run },
                    around,
                    grown.with_file(module, module_document(run.name)),
                );
            }
        }
    }
}

/// A run taken step by step, each action carried out as the model says, ends as
/// the outline says and leaves the tree that the outline says.
pub proof fn theorem_run_follows_outline(request: RequestView, around: Surroundings, tree: Tree)
    ensures
        initialize(request, around, tree) == outline(request, around, tree),
{
    reveal_with_fuel(carried_on, 5);
    if let Ok(plan) = planned(request, around) {
        let run = RunView {
            request,
            phase: Phase::CheckingManifest,
            current_dir: around.current_dir->Ok_0,
            workspace: plan.workspace,
            project_dir: plan.dir,
            name: plan.name,
        };
        lemma_set_up(run, around, tree);
    }
}

} // verus!
