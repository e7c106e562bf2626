use project_init::layout::{manifest_file, module_file, pin_file, readme_file, source_dir};
use project_init::name::PackageName;
use project_init::path::{join, last_name};

#[test]
fn join_puts_one_separator_between() {
    assert_eq!(join("foo", "pyproject.toml"), "foo/pyproject.toml");
    assert_eq!(join("/work/foo", "src"), "/work/foo/src");
}

#[test]
fn join_adds_no_second_separator() {
    assert_eq!(join("foo/", "README.md"), "foo/README.md");
    assert_eq!(join("/", "x"), "/x");
}

#[test]
fn join_onto_nothing_is_the_child() {
    assert_eq!(join("", "README.md"), "README.md");
}

#[test]
fn join_of_an_absolute_child_is_the_child() {
    assert_eq!(join("foo", "/etc"), "/etc");
}

#[test]
fn join_of_nothing_closes_the_base() {
    assert_eq!(join("foo/src", ""), "foo/src/");
    assert_eq!(join("foo/", ""), "foo/");
}

#[test]
fn last_name_is_what_follows_the_last_separator() {
    assert_eq!(last_name("foo"), Some("foo".to_string()));
    assert_eq!(last_name("a/b"), Some("b".to_string()));
    assert_eq!(last_name("/work/my-project"), Some("my-project".to_string()));
    assert_eq!(last_name("./foo"), Some("foo".to_string()));
    assert_eq!(last_name("a/.hidden"), Some(".hidden".to_string()));
    assert_eq!(last_name("..."), Some("...".to_string()));
}

#[test]
fn last_name_passes_over_closing_separators_and_dots() {
    assert_eq!(last_name("foo/"), Some("foo".to_string()));
    assert_eq!(last_name("a//b//"), Some("b".to_string()));
    assert_eq!(last_name("foo/."), Some("foo".to_string()));
    assert_eq!(last_name("foo/./"), Some("foo".to_string()));
    assert_eq!(last_name("foo/./."), Some("foo".to_string()));
}

#[test]
fn last_name_of_a_root_or_of_nothing_is_none() {
    assert_eq!(last_name(""), None);
    assert_eq!(last_name("/"), None);
    assert_eq!(last_name("//"), None);
    assert_eq!(last_name("/."), None);
}

#[test]
fn last_name_is_never_a_dot_segment() {
    assert_eq!(last_name("."), None);
    assert_eq!(last_name("./"), None);
    assert_eq!(last_name(".."), None);
    assert_eq!(last_name("foo/.."), None);
    assert_eq!(last_name("/.."), None);
    assert_eq!(last_name("../"), None);
}

#[test]
fn last_name_counts_characters_not_bytes() {
    assert_eq!(last_name("d\u{e9}p\u{f4}t/caf\u{e9}/"), Some("caf\u{e9}".to_string()));
}

#[test]
fn parts_of_a_project_stand_where_expected() {
    let name = PackageName::new("foo").unwrap();
    assert_eq!(manifest_file("proj"), "proj/pyproject.toml");
    assert_eq!(source_dir("proj", &name), "proj/src/foo");
    assert_eq!(module_file("proj", &name), "proj/src/foo/__init__.py");
    assert_eq!(readme_file("proj"), "proj/README.md");
    assert_eq!(pin_file("proj"), "proj/.python-version");
}

#[test]
fn parts_of_a_project_are_four_files() {
    let name = PackageName::new("foo").unwrap();
    let parts = [
        manifest_file("proj"),
        module_file("proj", &name),
        readme_file("proj"),
        pin_file("proj"),
    ];
    for (i, one) in parts.iter().enumerate() {
        for other in parts.iter().skip(i + 1) {
            assert_ne!(one, other);
        }
    }
}
