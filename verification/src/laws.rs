//! What holds of every run.
//!
//! Each law speaks of a whole run as the model has it: `initialize`, the run taken
//! step by step on a tree.

use crate::error::ErrorView;
use crate::layout::{
    lemma_parts_apart, lemma_source_dir_apart, manifest_file_of, module_file_of, pin_file_of,
    readme_file_of, source_dir_of,
};
use crate::model::{initialize, Surroundings, Tree};
use crate::name::{is_normal, is_plain};
use crate::outline::{module_made, planned, set_up, theorem_run_follows_outline, Plan};
use crate::outcome::OutcomeView;
use crate::request::{query_for, RequestView};
use crate::settle::lemma_resolved_name_is_normal;
use crate::template::{
    holds, lemma_manifest_names_project, manifest_document, module_document, name_line,
    readme_document, starting_version, version_line,
};
use vstd::prelude::*;

verus! {

/// Whether a run ended in `error`.
pub open spec fn fails_with(result: Result<OutcomeView, ErrorView>, error: ErrorView) -> bool {
    result == Err::<OutcomeView, ErrorView>(error)
}

/// Whether `path` is, in `after`, the file it was in `before`: there in both with
/// one content, or in neither.
pub open spec fn same_at(before: Tree, after: Tree, path: Seq<char>) -> bool {
    &&& after.files.contains_key(path) == before.files.contains_key(path)
    &&& before.files.contains_key(path) ==> after.files[path] == before.files[path]
}

/// Whether the tree holds what is found around the current directory: there is a
/// manifest at the root of the enclosing workspace, if there is a workspace.
pub open spec fn faithful(around: Surroundings, tree: Tree) -> bool {
    around.current_dir matches Ok(current_dir) ==> ((around.discovery)(current_dir) matches Ok(
        Some(workspace),
    ) ==> tree.occupied(manifest_file_of(workspace.root)))
}

/// Whether `path` is one of the four files that a run may write in the project.
pub open spec fn is_part(plan: Plan, path: Seq<char>) -> bool {
    ||| path == manifest_file_of(plan.dir)
    ||| path == module_file_of(plan.dir, plan.name)
    ||| path == readme_file_of(plan.dir)
    ||| path == pin_file_of(plan.dir)
}

/// Whether `path` is the manifest of the workspace that the project stands in.
pub open spec fn is_workspace_manifest(plan: Plan, path: Seq<char>) -> bool {
    plan.workspace matches Some(workspace) && path == manifest_file_of(workspace.root)
}

/// Whether the skeleton of the project of `plan` stands in `left`, a tree that was
/// `before`: the package directory, the manifest as the template has it, the first
/// module, and the README unless the request wants none; the first module and the
/// README as their templates have them where nothing stood in their place.
pub open spec fn skeleton_stands(plan: Plan, before: Tree, left: Tree) -> bool {
    let manifest = manifest_file_of(plan.dir);
    let module = module_file_of(plan.dir, plan.name);
    let readme = readme_file_of(plan.dir);
    &&& left.dirs.contains(source_dir_of(plan.dir, plan.name))
    &&& left.files.contains_key(manifest)
    &&& left.files[manifest] == manifest_document(plan.name)
    &&& left.occupied(module)
    &&& !before.occupied(module) ==> left.files.contains_key(module) && left.files[module]
        == module_document(plan.name)
    &&& !plan.request.suppress_readme ==> left.occupied(readme)
    &&& !plan.request.suppress_readme && !before.occupied(readme) ==> left.files.contains_key(
        readme,
    ) && left.files[readme] == readme_document()
}

/// Whether nothing stands in the way of the run of `plan`: no manifest is there,
/// the package directory and every file that is due can be created, the first
/// module can be looked at, an interpreter is found where a pin is due, and the
/// manifest of the workspace can be edited where there is a workspace.
pub open spec fn unhindered(plan: Plan, around: Surroundings, tree: Tree) -> bool {
    let manifest = manifest_file_of(plan.dir);
    let module = module_file_of(plan.dir, plan.name);
    let readme = readme_file_of(plan.dir);
    &&& !tree.occupied(manifest)
    &&& (around.refusal)(source_dir_of(plan.dir, plan.name)) is None
    &&& (around.refusal)(manifest) is None
    &&& (around.blindness)(module) is None
    &&& tree.occupied(module) || (around.refusal)(module) is None
    &&& plan.request.suppress_readme || tree.occupied(readme) || (around.refusal)(readme) is None
    &&& !plan.request.suppress_version_pin && plan.workspace is None ==> (around.resolver)(
        query_for(plan.request),
    ) is Ok && (around.refusal)(pin_file_of(plan.dir)) is None
    &&& plan.workspace matches Some(workspace) ==> (around.editor)(
        workspace.manifest,
        plan.dir,
    ) is Ok && (around.refusal)(manifest_file_of(workspace.root)) is None
}

/// Whether a run leaves `path` alone for all that `plan` and `tree` say: it is no
/// manifest that the run writes, and where it is the first module or the README,
/// something stands there already, and where it is the pin file, no pin is due.
pub open spec fn spared(plan: Plan, tree: Tree, path: Seq<char>) -> bool {
    &&& path != manifest_file_of(plan.dir)
    &&& !is_workspace_manifest(plan, path)
    &&& path == module_file_of(plan.dir, plan.name) ==> tree.occupied(path)
    &&& path == readme_file_of(plan.dir) ==> plan.request.suppress_readme || tree.occupied(path)
    &&& path == pin_file_of(plan.dir) ==> plan.request.suppress_version_pin
        || plan.workspace is Some
}

/// From the first module on, a run leaves alone what it has no reason to write.
proof fn lemma_module_spares(plan: Plan, around: Surroundings, tree: Tree, path: Seq<char>)
    requires
        !is_workspace_manifest(plan, path),
        path == module_file_of(plan.dir, plan.name) ==> tree.occupied(path),
        path == readme_file_of(plan.dir) ==> plan.request.suppress_readme || tree.occupied(path),
        path == pin_file_of(plan.dir) ==> plan.request.suppress_version_pin
            || plan.workspace is Some,
    ensures
        same_at(tree, module_made(plan, around, tree).1, path),
{
}

/// From the look for a manifest on, a run leaves alone what it has no reason to
/// write.
proof fn lemma_set_up_spares(plan: Plan, around: Surroundings, tree: Tree, path: Seq<char>)
    requires
        spared(plan, tree, path),
    ensures
        same_at(tree, set_up(plan, around, tree).1, path),
{
    let manifest = manifest_file_of(plan.dir);
    let package = source_dir_of(plan.dir, plan.name);
    let grown = tree.with_dir(package).with_file(manifest, manifest_document(plan.name));
    lemma_module_spares(plan, around, grown, path);
}

/// The package of a request that can be made has a name in normal form, which
/// starts with no `/`.
proof fn lemma_plan_is_sound(request: RequestView, around: Surroundings)
    requires
        request.well_formed(),
        planned(request, around) is Ok,
    ensures
        is_normal(planned(request, around)->Ok_0.name),
        planned(request, around)->Ok_0.name.len() > 0 ==> planned(request, around)->Ok_0.name[0]
            != '/',
{
    let plan = planned(request, around)->Ok_0;
    lemma_resolved_name_is_normal(request.package_name, plan.dir);
    if plan.name.len() > 0 {
        assert(is_plain(plan.name[0]) || plan.name[0] == '-');
    }
}

/// A run succeeds if and only if it settles on a project directory and a package
/// name and nothing stands in its way after that.
pub proof fn law_success_owed(request: RequestView, around: Surroundings, tree: Tree)
    requires
        request.well_formed(),
    ensures
        initialize(request, around, tree).0 is Ok <==> planned(request, around) is Ok
            && unhindered(planned(request, around)->Ok_0, around, tree),
{
    theorem_run_follows_outline(request, around, tree);
    if planned(request, around) is Ok {
        let plan = planned(request, around)->Ok_0;
        lemma_plan_is_sound(request, around);
        lemma_source_dir_apart(plan.dir, plan.name);
        lemma_parts_apart(plan.dir, plan.name, plan.dir);
    }
}

/// A run that succeeds leaves a manifest in the project directory that names the
/// package as the run settled it and gives the starting version, and reports that
/// name.
pub proof fn law_manifest_written(request: RequestView, around: Surroundings, tree: Tree)
    requires
        faithful(around, tree),
        initialize(request, around, tree).0 is Ok,
    ensures
        planned(request, around) is Ok,
        ({
            let plan = planned(request, around)->Ok_0;
            let manifest = manifest_file_of(plan.dir);
            let (result, left) = initialize(request, around, tree);
            &&& !tree.occupied(manifest)
            &&& left.files.contains_key(manifest)
            &&& left.files[manifest] == manifest_document(plan.name)
            &&& result->Ok_0.name == plan.name
            &&& holds(left.files[manifest], name_line(plan.name))
            &&& holds(left.files[manifest], plan.name)
            &&& holds(left.files[manifest], version_line())
            &&& holds(left.files[manifest], starting_version())
        }),
{
    theorem_run_follows_outline(request, around, tree);
    let plan = planned(request, around)->Ok_0;
    lemma_manifest_names_project(plan.name);
    lemma_parts_apart(plan.dir, plan.name, plan.dir);
}

/// A run that succeeds leaves the whole skeleton of the project.
pub proof fn law_skeleton_complete(request: RequestView, around: Surroundings, tree: Tree)
    requires
        request.well_formed(),
        faithful(around, tree),
        initialize(request, around, tree).0 is Ok,
    ensures
        planned(request, around) is Ok,
        skeleton_stands(planned(request, around)->Ok_0, tree, initialize(request, around, tree).1),
{
    theorem_run_follows_outline(request, around, tree);
    let plan = planned(request, around)->Ok_0;
    lemma_plan_is_sound(request, around);
    lemma_source_dir_apart(plan.dir, plan.name);
    lemma_parts_apart(plan.dir, plan.name, plan.dir);
    if let Some(workspace) = plan.workspace {
        lemma_parts_apart(plan.dir, plan.name, workspace.root);
    }
}

/// Nothing is taken back: a run that fails because no interpreter is found or
/// because the manifest of the workspace cannot be edited leaves the skeleton that
/// it had set up by then.
pub proof fn law_no_rollback(request: RequestView, around: Surroundings, tree: Tree)
    requires
        request.well_formed(),
        planned(request, around) is Ok,
        initialize(request, around, tree).0 matches Err(error) && (error
            is InterpreterResolutionError || error is ManifestEditError),
    ensures
        skeleton_stands(planned(request, around)->Ok_0, tree, initialize(request, around, tree).1),
{
    theorem_run_follows_outline(request, around, tree);
    let plan = planned(request, around)->Ok_0;
    lemma_plan_is_sound(request, around);
    lemma_source_dir_apart(plan.dir, plan.name);
    lemma_parts_apart(plan.dir, plan.name, plan.dir);
}

/// A first module or a README that is there before a run is there after it, with
/// what it held: no run writes over either.
pub proof fn law_existing_files_kept(request: RequestView, around: Surroundings, tree: Tree)
    requires
        planned(request, around) is Ok,
    ensures
        ({
            let plan = planned(request, around)->Ok_0;
            let module = module_file_of(plan.dir, plan.name);
            let readme = readme_file_of(plan.dir);
            let left = initialize(request, around, tree).1;
            &&& tree.files.contains_key(module) ==> same_at(tree, left, module)
            &&& tree.files.contains_key(readme) ==> same_at(tree, left, readme)
        }),
{
    theorem_run_follows_outline(request, around, tree);
    let plan = planned(request, around)->Ok_0;
    let module = module_file_of(plan.dir, plan.name);
    let readme = readme_file_of(plan.dir);
    lemma_parts_apart(plan.dir, plan.name, plan.dir);
    if let Some(workspace) = plan.workspace {
        lemma_parts_apart(plan.dir, plan.name, workspace.root);
    }
    if tree.files.contains_key(module) {
        lemma_set_up_spares(plan, around, tree, module);
    }
    if tree.files.contains_key(readme) {
        lemma_set_up_spares(plan, around, tree, readme);
    }
}

/// What is written to the first module and to the README after one run is still
/// there after the next, whatever it is.
pub proof fn law_second_run_keeps_changes(
    request: RequestView,
    around: Surroundings,
    tree: Tree,
    module_content: Seq<char>,
    readme_content: Seq<char>,
)
    requires
        planned(request, around) is Ok,
    ensures
        ({
            let plan = planned(request, around)->Ok_0;
            let module = module_file_of(plan.dir, plan.name);
            let readme = readme_file_of(plan.dir);
            let first = initialize(request, around, tree).1;
            let changed = first.with_file(module, module_content).with_file(
                readme,
                readme_content,
            );
            let second = initialize(request, around, changed).1;
            &&& second.files.contains_key(module) && second.files[module] == module_content
            &&& second.files.contains_key(readme) && second.files[readme] == readme_content
        }),
{
    let plan = planned(request, around)->Ok_0;
    let module = module_file_of(plan.dir, plan.name);
    let readme = readme_file_of(plan.dir);
    let first = initialize(request, around, tree).1;
    let changed = first.with_file(module, module_content).with_file(readme, readme_content);
    lemma_parts_apart(plan.dir, plan.name, plan.dir);
    law_existing_files_kept(request, around, changed);
}

/// A run that gets as far as to look for a manifest ends in `AlreadyInitialized` if
/// and only if something stands where the manifest goes, and then it leaves the tree
/// as it found it.
pub proof fn law_already_initialized(request: RequestView, around: Surroundings, tree: Tree)
    requires
        planned(request, around) is Ok,
    ensures
        ({
            let plan = planned(request, around)->Ok_0;
            let (result, left) = initialize(request, around, tree);
            &&& fails_with(result, ErrorView::AlreadyInitialized) <==> tree.occupied(
                manifest_file_of(plan.dir),
            )
            &&& tree.occupied(manifest_file_of(plan.dir)) ==> left == tree
        }),
{
    theorem_run_follows_outline(request, around, tree);
}

/// The pin file is written if and only if the request allows a pin and the project
/// stands in no workspace. Where both hold, a run that succeeds leaves the version
/// of the interpreter in it; where either fails, no run touches it.
pub proof fn law_pin_written(request: RequestView, around: Surroundings, tree: Tree)
    requires
        planned(request, around) is Ok,
    ensures
        ({
            let plan = planned(request, around)->Ok_0;
            let pin = pin_file_of(plan.dir);
            let (result, left) = initialize(request, around, tree);
            let due = !request.suppress_version_pin && plan.workspace is None;
            &&& due && result is Ok ==> (around.resolver)(query_for(request)) is Ok
                && left.files.contains_key(pin) && left.files[pin] == (around.resolver)(
                query_for(request),
            )->Ok_0
            &&& !due ==> same_at(tree, left, pin)
        }),
{
    theorem_run_follows_outline(request, around, tree);
    let plan = planned(request, around)->Ok_0;
    match plan.workspace {
        Some(workspace) => {
            lemma_parts_apart(plan.dir, plan.name, workspace.root);
        },
        None => {
            lemma_parts_apart(plan.dir, plan.name, plan.dir);
        },
    }
}

/// The project is made a member of a workspace if and only if it stands in one.
/// Where it does, a run that succeeds leaves in the manifest of the workspace what
/// the editor made of it with the project directory as the new member, and reports
/// the root of the workspace. Where it does not, a run reports no workspace.
pub proof fn law_workspace_registered(request: RequestView, around: Surroundings, tree: Tree)
    requires
        planned(request, around) is Ok,
        initialize(request, around, tree).0 is Ok,
    ensures
        ({
            let plan = planned(request, around)->Ok_0;
            let (result, left) = initialize(request, around, tree);
            match plan.workspace {
                Some(workspace) => {
                    let manifest = manifest_file_of(workspace.root);
                    let edited = (around.editor)(workspace.manifest, plan.dir);
                    &&& edited is Ok
                    &&& left.files.contains_key(manifest)
                    &&& left.files[manifest] == edited->Ok_0
                    &&& result->Ok_0.workspace == Some(workspace.root)
                },
                None => result->Ok_0.workspace is None,
            }
        }),
{
    theorem_run_follows_outline(request, around, tree);
}

/// No run writes a file other than the four of the project and the manifest of the
/// workspace that the project stands in. In particular a project that stands in no
/// workspace leaves every manifest but its own alone.
pub proof fn law_nothing_else_written(
    request: RequestView,
    around: Surroundings,
    tree: Tree,
    path: Seq<char>,
)
    requires
        planned(request, around) is Ok,
        !is_part(planned(request, around)->Ok_0, path),
        !is_workspace_manifest(planned(request, around)->Ok_0, path),
    ensures
        same_at(tree, initialize(request, around, tree).1, path),
{
    theorem_run_follows_outline(request, around, tree);
    lemma_set_up_spares(planned(request, around)->Ok_0, around, tree, path);
}

} // verus!
