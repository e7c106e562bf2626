use project_init::name::PackageName;
use project_init::template::{manifest_text, module_text, readme_text};

#[test]
fn manifest_reads_as_the_template_says() {
    let name = PackageName::new("foo").unwrap();
    assert_eq!(
        manifest_text(&name),
        "[project]\nname = \"foo\"\nversion = \"0.1.0\"\ndescription = \"Add your description here\"\ndependencies = []\nreadme = \"README.md\"\n\n[tool.uv]\ndev-dependencies = []\n"
    );
}

#[test]
fn manifest_names_the_package_in_normal_form() {
    let name = PackageName::new("My_Package").unwrap();
    let text = manifest_text(&name);
    assert!(text.contains("name = \"my-package\"\n"));
    assert!(text.contains("version = \"0.1.0\"\n"));
    assert!(!text.contains("My_Package"));
}

#[test]
fn manifest_depends_on_the_name_alone() {
    let one = manifest_text(&PackageName::new("a").unwrap());
    let other = manifest_text(&PackageName::new("b").unwrap());
    assert_eq!(one.replace("name = \"a\"", "name = \"b\""), other);
}

#[test]
fn module_greets_with_the_name() {
    let name = PackageName::new("foo").unwrap();
    assert_eq!(
        module_text(&name),
        "def hello() -> str:\n    return \"Hello from foo!\"\n"
    );
}

#[test]
fn readme_is_empty() {
    assert_eq!(readme_text(), "");
}
