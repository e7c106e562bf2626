use project_init::error::InitError;
use project_init::name::PackageName;
use project_init::orchestrator::step;
use project_init::outcome::{Location, Outcome};
use project_init::protocol::{Action, Event, Run};
use project_init::request::{
    Connectivity, FetchPolicy, InitRequest, InterpreterPreference, NetworkPolicy, WorkspaceContext,
};
use std::collections::{BTreeMap, BTreeSet};

const MANIFEST_OF_FOO: &str = "[project]\nname = \"foo\"\nversion = \"0.1.0\"\ndescription = \"Add your description here\"\ndependencies = []\nreadme = \"README.md\"\n\n[tool.uv]\ndev-dependencies = []\n";

/// A stand-in for all that surrounds a run: files and directories under the text
/// of their paths, and collaborators that answer as they are set up to.
struct Bench {
    current_dir: Result<String, String>,
    workspace: Result<Option<WorkspaceContext>, String>,
    version: Result<String, String>,
    editor_fails: Option<String>,
    canonical: Result<String, String>,
    denied: BTreeSet<String>,
    unreadable: BTreeSet<String>,
    files: BTreeMap<String, String>,
    dirs: BTreeSet<String>,
    asked: Vec<String>,
}

impl Bench {
    fn new(current_dir: &str) -> Bench {
        Bench {
            current_dir: Ok(current_dir.to_string()),
            workspace: Ok(None),
            version: Ok("3.12.4".to_string()),
            editor_fails: None,
            canonical: Err("no such directory".to_string()),
            denied: BTreeSet::new(),
            unreadable: BTreeSet::new(),
            files: BTreeMap::new(),
            dirs: BTreeSet::new(),
            asked: Vec::new(),
        }
    }

    fn in_workspace(current_dir: &str, root: &str, manifest: &str) -> Bench {
        let mut bench = Bench::new(current_dir);
        bench.workspace =
            Ok(Some(WorkspaceContext { root: root.to_string(), manifest: manifest.to_string() }));
        bench.files.insert(format!("{root}/pyproject.toml"), manifest.to_string());
        bench
    }

    fn with_file(mut self, path: &str, content: &str) -> Bench {
        self.files.insert(path.to_string(), content.to_string());
        self
    }

    fn occupied(&self, path: &str) -> bool {
        self.files.contains_key(path) || self.dirs.contains(path)
    }

    fn text(answer: &Result<String, String>, event: fn(String) -> Event) -> Event {
        match answer {
            Ok(text) => event(text.clone()),
            Err(detail) => Event::Failed { detail: detail.clone() },
        }
    }

    fn perform(&mut self, action: Action) -> Event {
        match action {
            Action::Warn { .. } => {
                self.asked.push("warn".to_string());
                Event::Done
            }
            Action::CurrentDir => {
                self.asked.push("current-dir".to_string());
                Bench::text(&self.current_dir, |path| Event::Directory { path })
            }
            Action::Discover { start } => {
                self.asked.push(format!("discover {start}"));
                match &self.workspace {
                    Ok(Some(workspace)) => Event::Workspace {
                        found: WorkspaceContext {
                            root: workspace.root.clone(),
                            manifest: workspace.manifest.clone(),
                        },
                    },
                    Ok(None) => Event::ManifestMissing,
                    Err(detail) => Event::Failed { detail: detail.clone() },
                }
            }
            Action::Probe { path } => {
                self.asked.push(format!("probe {path}"));
                Event::Exists { present: self.occupied(&path) }
            }
            Action::ProbeStrict { path } => {
                self.asked.push(format!("probe-strict {path}"));
                if self.unreadable.contains(&path) {
                    Event::Failed { detail: "unreadable".to_string() }
                } else {
                    Event::Exists { present: self.occupied(&path) }
                }
            }
            Action::CreateDirAll { path } => {
                self.asked.push(format!("mkdir {path}"));
                if self.denied.contains(&path) {
                    Event::Failed { detail: "denied".to_string() }
                } else {
                    self.dirs.insert(path);
                    Event::Done
                }
            }
            Action::WriteFile { path, content } => {
                self.asked.push(format!("write {path}"));
                if self.denied.contains(&path) {
                    Event::Failed { detail: "denied".to_string() }
                } else {
                    self.files.insert(path, content);
                    Event::Done
                }
            }
            Action::ResolveInterpreter { .. } => {
                self.asked.push("resolve".to_string());
                Bench::text(&self.version, |text| Event::Version { text })
            }
            Action::RegisterMember { document, member } => {
                self.asked.push(format!("register {member}"));
                match &self.editor_fails {
                    Some(detail) => Event::Failed { detail: detail.clone() },
                    None => Event::Document { text: format!("{document}member = \"{member}\"\n") },
                }
            }
            Action::Canonicalize { path } => {
                self.asked.push(format!("canonicalize {path}"));
                Bench::text(&self.canonical, |path| Event::Canonical { path })
            }
            Action::Finish { .. } => unreachable!(),
        }
    }

    fn run(&mut self, request: InitRequest) -> Result<Outcome, InitError> {
        let mut run = Run::new(request);
        let mut event = Event::Begin;
        loop {
            let (then, action) = step(run, event);
            run = then;
            match action {
                Action::Finish { result } => return result,
                other => event = self.perform(other),
            }
        }
    }
}

fn request() -> InitRequest {
    InitRequest {
        target_path: None,
        package_name: None,
        suppress_readme: false,
        suppress_version_pin: false,
        interpreter_request: None,
        interpreter_preference: InterpreterPreference::Installed,
        interpreter_fetch_policy: FetchPolicy::Automatic,
        network_policy: NetworkPolicy { connectivity: Connectivity::Online, native_tls: false },
        preview: false,
    }
}

fn at(path: &str) -> InitRequest {
    InitRequest { target_path: Some(path.to_string()), ..request() }
}

fn paths(bench: &Bench) -> Vec<&str> {
    bench.files.keys().map(|path| path.as_str()).collect()
}

#[test]
fn empty_directory_gets_a_whole_project() {
    let mut bench = Bench::new("/work");
    let outcome = bench.run(at("foo")).unwrap();
    assert_eq!(outcome.name.as_str(), "foo");
    assert_eq!(outcome.workspace, None);
    assert_eq!(bench.files["foo/pyproject.toml"], MANIFEST_OF_FOO);
    assert!(bench.files["foo/pyproject.toml"].contains("name = \"foo\""));
    assert!(bench.files["foo/src/foo/__init__.py"].contains("Hello from foo!"));
    assert_eq!(bench.files["foo/README.md"], "");
    assert_eq!(bench.files["foo/.python-version"], "3.12.4");
    assert!(bench.dirs.contains("foo/src/foo"));
    assert_eq!(
        paths(&bench),
        vec!["foo/.python-version", "foo/README.md", "foo/pyproject.toml", "foo/src/foo/__init__.py"]
    );
}

#[test]
fn steps_are_taken_in_their_order() {
    let mut bench = Bench::new("/work");
    bench.canonical = Ok("/work/foo".to_string());
    bench.run(at("foo")).unwrap();
    assert_eq!(
        bench.asked,
        vec![
            "warn",
            "current-dir",
            "discover /work",
            "probe foo/pyproject.toml",
            "mkdir foo/src/foo",
            "write foo/pyproject.toml",
            "probe-strict foo/src/foo/__init__.py",
            "write foo/src/foo/__init__.py",
            "probe foo/README.md",
            "write foo/README.md",
            "resolve",
            "write foo/.python-version",
            "canonicalize foo",
        ]
    );
}

#[test]
fn project_in_place_is_named_after_the_current_directory() {
    let mut bench = Bench::new("/work/foo");
    let outcome = bench.run(request()).unwrap();
    assert_eq!(outcome.name.as_str(), "foo");
    assert_eq!(outcome.location, None);
    assert_eq!(bench.files["/work/foo/pyproject.toml"], MANIFEST_OF_FOO);
    assert_eq!(bench.files["/work/foo/.python-version"], "3.12.4");
    assert!(!bench.asked.iter().any(|what| what.starts_with("canonicalize")));
}

#[test]
fn supplied_name_is_used_whatever_the_directory_is_called() {
    let mut bench = Bench::new("/work");
    let wanted =
        InitRequest { package_name: Some(PackageName::new("Chosen_Name").unwrap()), ..at("foo") };
    let outcome = bench.run(wanted).unwrap();
    assert_eq!(outcome.name.as_str(), "chosen-name");
    assert!(bench.files["foo/pyproject.toml"].contains("name = \"chosen-name\""));
    assert!(bench.files["foo/src/chosen-name/__init__.py"].contains("Hello from chosen-name!"));
}

#[test]
fn manifest_in_the_way_ends_the_run_and_nothing_is_touched() {
    let mut bench = Bench::new("/work").with_file("foo/pyproject.toml", "[project]\n");
    let before = bench.files.clone();
    assert_eq!(bench.run(at("foo")), Err(InitError::AlreadyInitialized));
    assert_eq!(bench.files, before);
    assert!(bench.dirs.is_empty());
    assert!(!bench.asked.iter().any(|what| what.starts_with("write") || what.starts_with("mkdir")));
}

#[test]
fn directory_in_place_of_the_manifest_ends_the_run_too() {
    let mut bench = Bench::new("/work");
    bench.dirs.insert("foo/pyproject.toml".to_string());
    assert_eq!(bench.run(at("foo")), Err(InitError::AlreadyInitialized));
    assert!(bench.files.is_empty());
}

#[test]
fn manifest_elsewhere_is_not_in_the_way() {
    let mut bench = Bench::new("/work")
        .with_file("foo/src/pyproject.toml", "x")
        .with_file("pyproject.toml", "y")
        .with_file("foobar/pyproject.toml", "z");
    assert!(bench.run(at("foo")).is_ok());
    assert_eq!(bench.files["foo/src/pyproject.toml"], "x");
    assert_eq!(bench.files["pyproject.toml"], "y");
    assert_eq!(bench.files["foobar/pyproject.toml"], "z");
}

#[test]
fn second_run_fails_and_changes_nothing() {
    let mut bench = Bench::new("/work");
    bench.run(at("foo")).unwrap();
    let before = bench.files.clone();
    assert_eq!(bench.run(at("foo")), Err(InitError::AlreadyInitialized));
    assert_eq!(bench.files, before);
}

#[test]
fn member_of_a_workspace_is_registered_and_not_pinned() {
    let mut bench = Bench::in_workspace("/ws", "/ws", "[project]\nname = \"root\"\n");
    let outcome = bench.run(at("packages/bar")).unwrap();
    assert_eq!(outcome.name.as_str(), "bar");
    assert_eq!(outcome.workspace, Some("/ws".to_string()));
    assert!(!bench.files.contains_key("packages/bar/.python-version"));
    assert!(!bench.asked.contains(&"resolve".to_string()));
    assert_eq!(
        bench.files["/ws/pyproject.toml"],
        "[project]\nname = \"root\"\nmember = \"packages/bar\"\n"
    );
    assert!(bench.files["packages/bar/pyproject.toml"].contains("name = \"bar\""));
    assert!(bench.files.contains_key("packages/bar/src/bar/__init__.py"));
    assert_eq!(bench.files["packages/bar/README.md"], "");
}

#[test]
fn member_is_registered_once() {
    let mut bench = Bench::in_workspace("/ws", "/ws", "");
    bench.run(at("packages/bar")).unwrap();
    let registrations =
        bench.asked.iter().filter(|what| what.starts_with("register")).count();
    assert_eq!(registrations, 1);
    assert_eq!(bench.files["/ws/pyproject.toml"].matches("packages/bar").count(), 1);
}

#[test]
fn project_outside_a_workspace_registers_nowhere() {
    let mut bench = Bench::new("/work").with_file("/elsewhere/pyproject.toml", "theirs");
    bench.run(at("foo")).unwrap();
    assert!(!bench.asked.iter().any(|what| what.starts_with("register")));
    assert_eq!(bench.files["/elsewhere/pyproject.toml"], "theirs");
}

#[test]
fn pin_is_written_only_without_workspace_and_without_suppression() {
    for suppressed in [false, true] {
        for member in [false, true] {
            let mut bench = if member {
                Bench::in_workspace("/ws", "/ws", "")
            } else {
                Bench::new("/ws")
            };
            let wanted = InitRequest { suppress_version_pin: suppressed, ..at("foo") };
            bench.run(wanted).unwrap();
            assert_eq!(
                bench.files.contains_key("foo/.python-version"),
                !suppressed && !member
            );
        }
    }
}

#[test]
fn pin_that_is_not_due_leaves_an_older_pin_alone() {
    let mut bench = Bench::new("/work").with_file("foo/.python-version", "3.8");
    bench.run(InitRequest { suppress_version_pin: true, ..at("foo") }).unwrap();
    assert_eq!(bench.files["foo/.python-version"], "3.8");
}

#[test]
fn suppressed_readme_is_neither_looked_for_nor_written() {
    let mut bench = Bench::new("/work");
    bench.run(InitRequest { suppress_readme: true, ..at("foo") }).unwrap();
    assert!(!bench.files.contains_key("foo/README.md"));
    assert!(!bench.asked.iter().any(|what| what.ends_with("README.md")));
}

#[test]
fn module_and_readme_that_are_there_are_kept() {
    let mut bench = Bench::new("/work")
        .with_file("foo/src/foo/__init__.py", "print('mine')\n")
        .with_file("foo/README.md", "# Mine\n");
    bench.run(at("foo")).unwrap();
    assert_eq!(bench.files["foo/src/foo/__init__.py"], "print('mine')\n");
    assert_eq!(bench.files["foo/README.md"], "# Mine\n");
    assert_eq!(bench.files["foo/pyproject.toml"], MANIFEST_OF_FOO);
}

#[test]
fn changes_between_two_runs_survive_the_second() {
    let mut bench = Bench::new("/work");
    bench.run(at("foo")).unwrap();
    bench.files.insert("foo/src/foo/__init__.py".to_string(), "changed = True\n".to_string());
    bench.files.insert("foo/README.md".to_string(), "# Changed\n".to_string());
    bench.files.remove("foo/pyproject.toml");
    bench.run(at("foo")).unwrap();
    assert_eq!(bench.files["foo/src/foo/__init__.py"], "changed = True\n");
    assert_eq!(bench.files["foo/README.md"], "# Changed\n");
    assert_eq!(bench.files["foo/pyproject.toml"], MANIFEST_OF_FOO);
}

#[test]
fn files_of_others_are_left_alone() {
    let mut bench = Bench::in_workspace("/ws", "/ws", "")
        .with_file("foo/notes.txt", "notes")
        .with_file("foo/src/foo/other.py", "other");
    bench.run(at("foo")).unwrap();
    assert_eq!(bench.files["foo/notes.txt"], "notes");
    assert_eq!(bench.files["foo/src/foo/other.py"], "other");
}

#[test]
fn unknown_current_directory_ends_the_run() {
    let mut bench = Bench::new("/work");
    bench.current_dir = Err("gone".to_string());
    assert_eq!(
        bench.run(at("foo")),
        Err(InitError::FilesystemError { path: ".".to_string(), detail: "gone".to_string() })
    );
    assert!(bench.files.is_empty());
}

#[test]
fn failed_discovery_ends_the_run_even_with_a_manifest_in_the_way() {
    let mut bench = Bench::new("/work").with_file("foo/pyproject.toml", "");
    bench.workspace = Err("malformed".to_string());
    assert_eq!(
        bench.run(at("foo")),
        Err(InitError::DiscoveryError { detail: "malformed".to_string() })
    );
}

#[test]
fn root_as_project_directory_has_no_name() {
    let mut bench = Bench::new("/");
    assert_eq!(bench.run(request()), Err(InitError::InvalidName { name: String::new() }));
    assert!(bench.files.is_empty());
}

#[test]
fn unfit_directory_name_is_reported_as_it_is() {
    let mut bench = Bench::new("/work");
    assert_eq!(
        bench.run(at("my project")),
        Err(InitError::InvalidName { name: "my project".to_string() })
    );
    assert!(bench.files.is_empty());
}

#[test]
fn failed_resolution_leaves_the_skeleton() {
    let mut bench = Bench::new("/work");
    bench.version = Err("no interpreter".to_string());
    assert_eq!(
        bench.run(at("foo")),
        Err(InitError::InterpreterResolutionError { detail: "no interpreter".to_string() })
    );
    assert_eq!(
        paths(&bench),
        vec!["foo/README.md", "foo/pyproject.toml", "foo/src/foo/__init__.py"]
    );
}

#[test]
fn failed_edit_leaves_the_skeleton_and_the_workspace_manifest() {
    let mut bench = Bench::in_workspace("/ws", "/ws", "as it was");
    bench.editor_fails = Some("not TOML".to_string());
    assert_eq!(
        bench.run(at("foo")),
        Err(InitError::ManifestEditError { detail: "not TOML".to_string() })
    );
    assert_eq!(bench.files["/ws/pyproject.toml"], "as it was");
    assert!(bench.files.contains_key("foo/pyproject.toml"));
    assert!(bench.files.contains_key("foo/src/foo/__init__.py"));
    assert!(bench.files.contains_key("foo/README.md"));
}

#[test]
fn refused_write_ends_the_run_where_it_stands() {
    let mut bench = Bench::new("/work");
    bench.denied.insert("foo/README.md".to_string());
    assert_eq!(
        bench.run(at("foo")),
        Err(InitError::FilesystemError {
            path: "foo/README.md".to_string(),
            detail: "denied".to_string()
        })
    );
    assert_eq!(paths(&bench), vec!["foo/pyproject.toml", "foo/src/foo/__init__.py"]);
    assert!(!bench.asked.contains(&"resolve".to_string()));
}

#[test]
fn refused_directory_ends_the_run_before_any_file() {
    let mut bench = Bench::new("/work");
    bench.denied.insert("foo/src/foo".to_string());
    assert_eq!(
        bench.run(at("foo")),
        Err(InitError::FilesystemError {
            path: "foo/src/foo".to_string(),
            detail: "denied".to_string()
        })
    );
    assert!(bench.files.is_empty());
}

#[test]
fn unreadable_module_ends_the_run() {
    let mut bench = Bench::new("/work");
    bench.unreadable.insert("foo/src/foo/__init__.py".to_string());
    assert_eq!(
        bench.run(at("foo")),
        Err(InitError::FilesystemError {
            path: "foo/src/foo/__init__.py".to_string(),
            detail: "unreadable".to_string()
        })
    );
    assert_eq!(paths(&bench), vec!["foo/pyproject.toml"]);
}

#[test]
fn canonical_path_is_reported_where_there_is_one() {
    let mut bench = Bench::new("/work");
    bench.canonical = Ok("/work/foo".to_string());
    let outcome = bench.run(at("foo")).unwrap();
    assert_eq!(outcome.location, Some(Location::Canonical { path: "/work/foo".to_string() }));
}

#[test]
fn path_as_given_is_reported_for_want_of_a_canonical_one() {
    let mut bench = Bench::new("/work");
    let outcome = bench.run(at("foo")).unwrap();
    assert_eq!(outcome.location, Some(Location::AsGiven { path: "foo".to_string() }));
}

#[test]
fn run_with_preview_shows_no_warning() {
    let mut bench = Bench::new("/work");
    bench.run(InitRequest { preview: true, ..at("foo") }).unwrap();
    assert!(!bench.asked.contains(&"warn".to_string()));
}
