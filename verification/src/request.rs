//! What a caller asks for, and what the run passes on to those who find workspaces
//! and interpreters.

use crate::name::{is_normal, PackageName};
use vstd::prelude::*;

verus! {

/// Which interpreters may be chosen: those that the tool manages, those that the
/// system brought, or both in one order or the other.
#[derive(Clone, Copy, Debug, PartialEq, Eq, Structural)]
pub enum InterpreterPreference {
    OnlyManaged,
    Installed,
    Managed,
    System,
    OnlySystem,
}

/// Whether a missing interpreter may be fetched.
#[derive(Clone, Copy, Debug, PartialEq, Eq, Structural)]
pub enum FetchPolicy {
    Automatic,
    Manual,
}

/// Whether the network may be used.
#[derive(Clone, Copy, Debug, PartialEq, Eq, Structural)]
pub enum Connectivity {
    Online,
    Offline,
}

/// Where interpreters may be looked for: in virtual environments, on the system, or
/// both.
#[derive(Clone, Copy, Debug, PartialEq, Eq, Structural)]
pub enum EnvironmentPreference {
    OnlyVirtual,
    ExplicitSystem,
    OnlySystem,
    Any,
}

/// How to reach the network: whether at all, and whether to trust the certificates
/// of the platform.
#[derive(Clone, Copy, Debug, PartialEq, Eq, Structural)]
pub struct NetworkPolicy {
    pub connectivity: Connectivity,
    pub native_tls: bool,
}

/// One request to set up a project.
#[derive(Debug, PartialEq, Eq)]
pub struct InitRequest {
    /// The project directory; the current directory where none is given.
    pub target_path: Option<String>,
    /// The package name; the name that the project directory ends in where none is
    /// given.
    pub package_name: Option<PackageName>,
    /// No README is to be created.
    pub suppress_readme: bool,
    /// No interpreter version is to be pinned.
    pub suppress_version_pin: bool,
    /// Which interpreter to pin, in the words of the caller.
    pub interpreter_request: Option<String>,
    pub interpreter_preference: InterpreterPreference,
    pub interpreter_fetch_policy: FetchPolicy,
    pub network_policy: NetworkPolicy,
    /// Preview features are switched on, so that no warning about them is due.
    pub preview: bool,
}

/// An `InitRequest` as a mathematical value.
pub struct RequestView {
    pub target_path: Option<Seq<char>>,
    pub package_name: Option<Seq<char>>,
    pub suppress_readme: bool,
    pub suppress_version_pin: bool,
    pub interpreter_request: Option<Seq<char>>,
    pub interpreter_preference: InterpreterPreference,
    pub interpreter_fetch_policy: FetchPolicy,
    pub network_policy: NetworkPolicy,
    pub preview: bool,
}

impl RequestView {
    /// Whether the request is one that can be made: a package name that it
    /// supplies is in normal form.
    pub open spec fn well_formed(self) -> bool {
        self.package_name matches Some(name) ==> is_normal(name)
    }
}

impl View for InitRequest {
    type V = RequestView;

    open spec fn view(&self) -> RequestView {
        RequestView {
            target_path: match self.target_path {
                Some(path) => Some(path@),
                None => None,
            },
            package_name: match self.package_name {
                Some(name) => Some(name@),
                None => None,
            },
            suppress_readme: self.suppress_readme,
            suppress_version_pin: self.suppress_version_pin,
            interpreter_request: match self.interpreter_request {
                Some(wanted) => Some(wanted@),
                None => None,
            },
            interpreter_preference: self.interpreter_preference,
            interpreter_fetch_policy: self.interpreter_fetch_policy,
            network_policy: self.network_policy,
            preview: self.preview,
        }
    }
}

/// The workspace that encloses the current directory: where it is rooted, and the
/// text of its manifest.
#[derive(Debug, PartialEq, Eq)]
pub struct WorkspaceContext {
    pub root: String,
    pub manifest: String,
}

/// A `WorkspaceContext` as a mathematical value.
pub struct WorkspaceView {
    pub root: Seq<char>,
    pub manifest: Seq<char>,
}

impl View for WorkspaceContext {
    type V = WorkspaceView;

    open spec fn view(&self) -> WorkspaceView {
        WorkspaceView { root: self.root@, manifest: self.manifest@ }
    }
}

/// What is handed to whoever finds or fetches an interpreter.
#[derive(Debug, PartialEq, Eq)]
pub struct InterpreterQuery {
    pub request: Option<String>,
    pub environment: EnvironmentPreference,
    pub preference: InterpreterPreference,
    pub fetch: FetchPolicy,
    pub network: NetworkPolicy,
}

/// An `InterpreterQuery` as a mathematical value.
pub struct QueryView {
    pub request: Option<Seq<char>>,
    pub environment: EnvironmentPreference,
    pub preference: InterpreterPreference,
    pub fetch: FetchPolicy,
    pub network: NetworkPolicy,
}

impl View for InterpreterQuery {
    type V = QueryView;

    open spec fn view(&self) -> QueryView {
        QueryView {
            request: match self.request {
                Some(wanted) => Some(wanted@),
                None => None,
            },
            environment: self.environment,
            preference: self.preference,
            fetch: self.fetch,
            network: self.network,
        }
    }
}

/// The query that a request gives rise to: its own wishes, with the search kept to
/// interpreters of the system, never one of a virtual environment.
pub open spec fn query_for(request: RequestView) -> QueryView {
    QueryView {
        request: request.interpreter_request,
        environment: EnvironmentPreference::OnlySystem,
        preference: request.interpreter_preference,
        fetch: request.interpreter_fetch_policy,
        network: request.network_policy,
    }
}

impl InitRequest {
    /// The query for the interpreter to pin.
    pub fn interpreter_query(&self) -> (query: InterpreterQuery)
        ensures
            query@ == query_for(self@),
    {
        InterpreterQuery {
            request: match &self.interpreter_request {
                Some(wanted) => Some(wanted.clone()),
                None => None,
            },
            environment: EnvironmentPreference::OnlySystem,
            preference: self.interpreter_preference,
            fetch: self.interpreter_fetch_policy,
            network: self.network_policy,
        }
    }
}

} // verus!
