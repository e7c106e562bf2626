//! Setting up a new Python project in a directory: the decisions, without the
//! doing.
//!
//! A [`Run`] takes a request through the set-up one step at a time. Each call of
//! [`step`] is handed the event that answers what the run asked for last and hands
//! back the next [`Action`]: look for a workspace, create a directory, write a
//! file, find an interpreter. The caller carries the action out and reports how it
//! went, until the run asks to `Finish` with an [`Outcome`] or an [`InitError`].
//! [`report`] turns the outcome into the lines to show.
//!
//! The rest states what a run achieves. `model` describes a tree of files and the
//! collaborators around it, `outline` says in one piece what a whole run comes to,
//! and `laws` holds what follows for every run.

pub mod error;
pub mod laws;
pub mod layout;
pub mod model;
pub mod name;
pub mod orchestrator;
pub mod outcome;
pub mod outline;
pub mod path;
pub mod protocol;
pub mod report;
pub mod request;
pub mod settle;
pub mod template;

pub use error::InitError;
pub use name::PackageName;
pub use orchestrator::step;
pub use outcome::{Location, Outcome};
pub use protocol::{Action, Event, Phase, Run};
pub use report::report;
pub use request::{InitRequest, InterpreterQuery, WorkspaceContext};
