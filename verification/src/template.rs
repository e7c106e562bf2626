//! The documents that a new project starts with, as functions of its name.

use crate::name::PackageName;
use vstd::prelude::*;
use vstd::string::*;

verus! {

/// Whether `part` occurs in `text` as one unbroken piece.
pub open spec fn holds(text: Seq<char>, part: Seq<char>) -> bool {
    exists|at: int|
        0 <= at && at + part.len() <= text.len() && #[trigger] text.subrange(
            at,
            at + part.len(),
        ) == part
}

/// The manifest line that names the project.
pub open spec fn name_line(name: Seq<char>) -> Seq<char> {
    "name = \""@ + name + "\""@
}

/// The version that every project starts at.
pub open spec fn starting_version() -> Seq<char> {
    "0.1.0"@
}

/// The manifest line that gives the version.
pub open spec fn version_line() -> Seq<char> {
    "version = \""@ + starting_version() + "\""@
}

/// What follows the version in every manifest: a description to be replaced, no
/// dependencies, the README, and no development dependencies.
pub open spec fn manifest_rest() -> Seq<char> {
    "\ndescription = \"Add your description here\"\ndependencies = []\nreadme = \"README.md\"\n\n[tool.uv]\ndev-dependencies = []\n"@
}

/// The manifest of a new project called `name`.
pub open spec fn manifest_document(name: Seq<char>) -> Seq<char> {
    "[project]\n"@ + name_line(name) + "\n"@ + version_line() + manifest_rest()
}

/// The words with which the first module greets.
pub open spec fn greeting(name: Seq<char>) -> Seq<char> {
    "Hello from "@ + name + "!"@
}

/// The first module of a new project called `name`: one function that returns the
/// greeting.
pub open spec fn module_document(name: Seq<char>) -> Seq<char> {
    "def hello() -> str:\n    return \""@ + greeting(name) + "\"\n"@
}

/// What a new README holds: nothing.
pub open spec fn readme_document() -> Seq<char> {
    Seq::empty()
}

/// A text holds whatever stands between its first and its last part.
pub proof fn lemma_holds_middle(before: Seq<char>, part: Seq<char>, after: Seq<char>)
    ensures
        holds(before + part + after, part),
{
    let text = before + part + after;
    let at: int = before.len() as int;
    assert(text.subrange(at, at + part.len()) =~= part);
}

/// What `inner` holds, a text that holds `inner` holds too.
pub proof fn lemma_holds_within(text: Seq<char>, inner: Seq<char>, part: Seq<char>)
    requires
        holds(text, inner),
        holds(inner, part),
    ensures
        holds(text, part),
{
    let outer_at: int = choose|at: int|
        0 <= at && at + inner.len() <= text.len() && #[trigger] text.subrange(
            at,
            at + inner.len(),
        ) == inner;
    let inner_at: int = choose|at: int|
        0 <= at && at + part.len() <= inner.len() && #[trigger] inner.subrange(
            at,
            at + part.len(),
        ) == part;
    let at: int = outer_at + inner_at;
    assert(text.subrange(at, at + part.len()) =~= inner.subrange(
        inner_at,
        inner_at + part.len(),
    ));
}

/// Every manifest names its project, in a line of its own form, and gives the
/// starting version.
pub proof fn lemma_manifest_names_project(name: Seq<char>)
    ensures
        holds(manifest_document(name), name_line(name)),
        holds(manifest_document(name), name),
        holds(manifest_document(name), version_line()),
        holds(manifest_document(name), starting_version()),
{
    let document = manifest_document(name);
    let tail = manifest_rest();
    lemma_holds_middle("[project]\n"@, name_line(name), "\n"@ + version_line() + tail);
    assert(document =~= "[project]\n"@ + name_line(name) + ("\n"@ + version_line() + tail));
    lemma_holds_middle("name = \""@, name, "\""@);
    lemma_holds_within(document, name_line(name), name);
    lemma_holds_middle("[project]\n"@ + name_line(name) + "\n"@, version_line(), tail);
    lemma_holds_middle("version = \""@, starting_version(), "\""@);
    lemma_holds_within(document, version_line(), starting_version());
}

/// Every first module greets with the name of its project.
pub proof fn law_module_greets(name: Seq<char>)
    ensures
        holds(module_document(name), greeting(name)),
        holds(module_document(name), name),
{
    lemma_holds_middle("def hello() -> str:\n    return \""@, greeting(name), "\"\n"@);
    lemma_holds_middle("Hello from "@, name, "!"@);
    lemma_holds_within(module_document(name), greeting(name), name);
}

/// Writes the manifest of a new project.
pub fn manifest_text(name: &PackageName) -> (text: String)
    ensures
        text@ == manifest_document(name@),
{
    let mut text = "[project]\n".to_owned();
    text.append("name = \"");
    text.append(name.as_str());
    text.append("\"");
    text.append("\n");
    text.append("version = \"");
    text.append("0.1.0");
    text.append("\"");
    text.append(
        "\ndescription = \"Add your description here\"\ndependencies = []\nreadme = \"README.md\"\n\n[tool.uv]\ndev-dependencies = []\n",
    );
    text
}

/// Writes the first module of a new project.
pub fn module_text(name: &PackageName) -> (text: String)
    ensures
        text@ == module_document(name@),
{
    let mut text = "def hello() -> str:\n    return \"".to_owned();
    text.append("Hello from ");
    text.append(name.as_str());
    text.append("!");
    text.append("\"\n");
    text
}

/// Writes a new README.
pub fn readme_text() -> (text: String)
    ensures
        text@ == readme_document(),
{
    String::new()
}

} // verus!
