//! Where the parts of a project stand, relative to its directory.

use crate::name::PackageName;
use crate::path::{join, joined};
use vstd::prelude::*;
use vstd::string::*;

verus! {

/// The manifest of the project in `dir`.
pub open spec fn manifest_file_of(dir: Seq<char>) -> Seq<char> {
    joined(dir, "pyproject.toml"@)
}

/// The directory of the package `name` of the project in `dir`.
pub open spec fn source_dir_of(dir: Seq<char>, name: Seq<char>) -> Seq<char> {
    joined(joined(dir, "src"@), name)
}

/// The first module of the package `name` of the project in `dir`.
pub open spec fn module_file_of(dir: Seq<char>, name: Seq<char>) -> Seq<char> {
    joined(source_dir_of(dir, name), "__init__.py"@)
}

/// The README of the project in `dir`.
pub open spec fn readme_file_of(dir: Seq<char>) -> Seq<char> {
    joined(dir, "README.md"@)
}

/// The file that pins the interpreter version of the project in `dir`.
pub open spec fn pin_file_of(dir: Seq<char>) -> Seq<char> {
    joined(dir, ".python-version"@)
}

/// A path made by joining ends in the last character of what was joined on.
pub proof fn lemma_joined_ends_as_child(base: Seq<char>, child: Seq<char>)
    requires
        child.len() > 0,
    ensures
        joined(base, child).len() > 0,
        joined(base, child).last() == child.last(),
{
}

/// The manifest, the first module, the README and the pin file of one project are
/// four files, and neither the first module, the README nor the pin file of any
/// project is the manifest of any directory.
pub proof fn lemma_parts_apart(dir: Seq<char>, name: Seq<char>, other: Seq<char>)
    ensures
        manifest_file_of(dir) != module_file_of(dir, name),
        manifest_file_of(dir) != readme_file_of(dir),
        manifest_file_of(dir) != pin_file_of(dir),
        module_file_of(dir, name) != readme_file_of(dir),
        module_file_of(dir, name) != pin_file_of(dir),
        readme_file_of(dir) != pin_file_of(dir),
        manifest_file_of(other) != module_file_of(dir, name),
        manifest_file_of(other) != readme_file_of(dir),
        manifest_file_of(other) != pin_file_of(dir),
{
    reveal_strlit("pyproject.toml");
    reveal_strlit("__init__.py");
    reveal_strlit("README.md");
    reveal_strlit(".python-version");
    lemma_joined_ends_as_child(dir, "pyproject.toml"@);
    lemma_joined_ends_as_child(other, "pyproject.toml"@);
    lemma_joined_ends_as_child(source_dir_of(dir, name), "__init__.py"@);
    lemma_joined_ends_as_child(dir, "README.md"@);
    lemma_joined_ends_as_child(dir, ".python-version"@);
}

/// The package directory is neither the first module nor the README, whatever the
/// package is called, as long as its name does not start with `/`.
pub proof fn lemma_source_dir_apart(dir: Seq<char>, name: Seq<char>)
    requires
        name.len() > 0 ==> name[0] != '/',
    ensures
        source_dir_of(dir, name) != module_file_of(dir, name),
        source_dir_of(dir, name) != readme_file_of(dir),
{
    reveal_strlit("src");
    reveal_strlit("__init__.py");
    reveal_strlit("README.md");
    let gap = if dir.len() == 0 || dir.last() == '/' {
        Seq::<char>::empty()
    } else {
        seq!['/']
    };
    let sources = joined(dir, "src"@);
    assert(sources =~= dir + gap + "src"@);
    assert(sources.last() == 'c');
    let package = source_dir_of(dir, name);
    assert(package =~= sources + seq!['/'] + name);
    let readme = readme_file_of(dir);
    assert(readme =~= dir + gap + "README.md"@);
    let at: int = (dir + gap).len() as int;
    assert(package[at] == 's');
    assert(readme[at] == 'R');
    assert(module_file_of(dir, name).len() > package.len());
}

/// The path of the manifest of the project in `dir`.
pub fn manifest_file(dir: &str) -> (path: String)
    ensures
        path@ == manifest_file_of(dir@),
{
    join(dir, "pyproject.toml")
}

/// The path of the package directory.
pub fn source_dir(dir: &str, name: &PackageName) -> (path: String)
    ensures
        path@ == source_dir_of(dir@, name@),
{
    let sources = join(dir, "src");
    join(sources.as_str(), name.as_str())
}

/// The path of the first module.
pub fn module_file(dir: &str, name: &PackageName) -> (path: String)
    ensures
        path@ == module_file_of(dir@, name@),
{
    let package = source_dir(dir, name);
    join(package.as_str(), "__init__.py")
}

/// The path of the README.
pub fn readme_file(dir: &str) -> (path: String)
    ensures
        path@ == readme_file_of(dir@),
{
    join(dir, "README.md")
}

/// The path of the file that pins the interpreter version.
pub fn pin_file(dir: &str) -> (path: String)
    ensures
        path@ == pin_file_of(dir@),
{
    join(dir, ".python-version")
}

} // verus!
