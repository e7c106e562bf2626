//! Where the project goes and what it is called, once the current directory is known.

use crate::error::{ErrorView, InitError};
use crate::name::{
    acceptable, is_normal, lemma_normal_form_is_normal, lemma_normal_is_fixed, normal_form,
    PackageName,
};
use crate::path::{final_component, joined, last_name, lemma_final_component_of_joined};
use vstd::prelude::*;
use vstd::string::*;

verus! {

/// The project directory: the target where one was given, as it was given, and the
/// current directory otherwise.
pub open spec fn project_dir_for(target: Option<Seq<char>>, current_dir: Seq<char>) -> Seq<char> {
    match target {
        Some(path) => path,
        None => current_dir,
    }
}

/// The name of the package. A supplied name is taken as it is, whatever the
/// directory is called. Otherwise the name is the normal form of what the project
/// directory ends in, and there is none where the directory ends in no name or in
/// one that is not accepted.
pub open spec fn resolved_name(supplied: Option<Seq<char>>, project_dir: Seq<char>) -> Result<
    Seq<char>,
    ErrorView,
> {
    match supplied {
        Some(name) => Ok(name),
        None => match final_component(project_dir) {
            None => Err(ErrorView::InvalidName { name: Seq::empty() }),
            Some(segment) => if acceptable(segment) {
                Ok(normal_form(segment))
            } else {
                Err(ErrorView::InvalidName { name: segment })
            },
        },
    }
}

/// Picks the project directory.
pub fn project_dir(target: &Option<String>, current_dir: &str) -> (dir: String)
    ensures
        dir@ == project_dir_for(
            match *target {
                Some(path) => Some(path@),
                None => None,
            },
            current_dir@,
        ),
{
    match target {
        Some(path) => path.clone(),
        None => current_dir.to_owned(),
    }
}

/// Settles the name of the package.
pub fn resolve_name(supplied: &Option<PackageName>, project_dir: &str) -> (res: Result<
    PackageName,
    InitError,
>)
    ensures
        match res {
            Ok(name) => resolved_name(
                match *supplied {
                    Some(given) => Some(given@),
                    None => None,
                },
                project_dir@,
            ) == Ok::<Seq<char>, ErrorView>(name@),
            Err(error) => resolved_name(
                match *supplied {
                    Some(given) => Some(given@),
                    None => None,
                },
                project_dir@,
            ) == Err::<Seq<char>, ErrorView>(error@),
        },
{
    match supplied {
        Some(given) => Ok(given.clone()),
        None => match last_name(project_dir) {
            None => Err(InitError::InvalidName { name: String::new() }),
            Some(segment) => PackageName::new(segment.as_str()),
        },
    }
}

/// The name of a package is in normal form, if the name that was supplied is.
pub proof fn lemma_resolved_name_is_normal(supplied: Option<Seq<char>>, project_dir: Seq<char>)
    requires
        supplied matches Some(name) ==> is_normal(name),
    ensures
        resolved_name(supplied, project_dir) matches Ok(name) ==> is_normal(name),
{
    if supplied is None {
        if let Some(segment) = final_component(project_dir) {
            if acceptable(segment) {
                lemma_normal_form_is_normal(segment);
            }
        }
    }
}

/// A package that was given a name keeps it wherever it is put. A package that was
/// given none is called as its directory is, where that is a name in normal form:
/// whatever `parent` the directory `name` stands in.
pub proof fn law_name_derivation(supplied: Seq<char>, parent: Seq<char>, name: Seq<char>)
    requires
        is_normal(name),
        name.len() > 0,
    ensures
        resolved_name(Some(supplied), joined(parent, name)) == Ok::<Seq<char>, ErrorView>(
            supplied,
        ),
        resolved_name(None, joined(parent, name)) == Ok::<Seq<char>, ErrorView>(name),
{
    lemma_final_component_of_joined(parent, name);
    lemma_normal_is_fixed(name);
}

} // verus!
