//! What a run that succeeded has to tell.

use crate::name::PackageName;
use vstd::prelude::*;

verus! {

/// Where a project was set up, for a caller who named the place.
#[derive(Debug, PartialEq, Eq)]
pub enum Location {
    /// The canonical path of the project directory.
    Canonical { path: String },
    /// The project directory as the caller wrote it, for want of a canonical path.
    AsGiven { path: String },
}

/// A `Location` as a mathematical value.
pub enum LocationView {
    Canonical { path: Seq<char> },
    AsGiven { path: Seq<char> },
}

impl View for Location {
    type V = LocationView;

    open spec fn view(&self) -> LocationView {
        match self {
            Location::Canonical { path } => LocationView::Canonical { path: path@ },
            Location::AsGiven { path } => LocationView::AsGiven { path: path@ },
        }
    }
}

/// The project that was set up.
#[derive(Debug, PartialEq, Eq)]
pub struct Outcome {
    /// What the package is called.
    pub name: PackageName,
    /// The root of the workspace that the project was made a member of, if any.
    pub workspace: Option<String>,
    /// Where the project stands, if the caller named a place.
    pub location: Option<Location>,
}

/// An `Outcome` as a mathematical value.
pub struct OutcomeView {
    pub name: Seq<char>,
    pub workspace: Option<Seq<char>>,
    pub location: Option<LocationView>,
}

impl View for Outcome {
    type V = OutcomeView;

    open spec fn view(&self) -> OutcomeView {
        OutcomeView {
            name: self.name@,
            workspace: match self.workspace {
                Some(root) => Some(root@),
                None => None,
            },
            location: match self.location {
                Some(place) => Some(place@),
                None => None,
            },
        }
    }
}

} // verus!
