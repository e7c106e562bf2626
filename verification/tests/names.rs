use project_init::error::InitError;
use project_init::name::PackageName;

fn normal(raw: &str) -> String {
    PackageName::new(raw).unwrap().as_str().to_string()
}

fn refused(raw: &str) -> bool {
    PackageName::new(raw) == Err(InitError::InvalidName { name: raw.to_string() })
}

#[test]
fn name_in_normal_form_is_kept() {
    assert_eq!(normal("friendly-bard"), "friendly-bard");
    assert_eq!(normal("1okay"), "1okay");
    assert_eq!(normal("okay2"), "okay2");
    assert_eq!(normal("foo"), "foo");
}

#[test]
fn letters_are_lowered() {
    assert_eq!(normal("Friendly-Bard"), "friendly-bard");
    assert_eq!(normal("FRIENDLY-BARD"), "friendly-bard");
    assert_eq!(normal("AZ09az"), "az09az");
}

#[test]
fn every_separator_becomes_a_dash() {
    assert_eq!(normal("friendly.bard"), "friendly-bard");
    assert_eq!(normal("friendly_bard"), "friendly-bard");
}

#[test]
fn runs_of_separators_collapse() {
    assert_eq!(normal("friendly--bard"), "friendly-bard");
    assert_eq!(normal("friendly-.bard"), "friendly-bard");
    assert_eq!(normal("FrIeNdLy-._.-bArD"), "friendly-bard");
    assert_eq!(normal("a.b_c-d"), "a-b-c-d");
}

#[test]
fn normalising_twice_changes_nothing_more() {
    let once = normal("Some__Odd..Name");
    assert_eq!(once, "some-odd-name");
    assert_eq!(normal(&once), once);
}

#[test]
fn empty_name_is_accepted() {
    assert_eq!(normal(""), "");
    assert_eq!(PackageName::empty().as_str(), "");
}

#[test]
fn separator_at_either_end_is_refused() {
    assert!(refused("-starts-with-dash"));
    assert!(refused("ends-with-dash-"));
    assert!(refused("_x"));
    assert!(refused("x."));
    assert!(refused("-"));
}

#[test]
fn foreign_characters_are_refused() {
    assert!(refused(" starts-with-space"));
    assert!(refused("ends-with-space "));
    assert!(refused("includes!invalid-char"));
    assert!(refused("space in middle"));
    assert!(refused("alpha-\u{3b1}"));
    assert!(refused("a/b"));
}

#[test]
fn refusal_names_what_was_refused() {
    assert_eq!(
        PackageName::new("no good"),
        Err(InitError::InvalidName { name: "no good".to_string() })
    );
}

#[test]
fn copy_of_a_name_is_that_name() {
    let name = PackageName::new("Foo.Bar").unwrap();
    let copy = name.clone();
    assert_eq!(copy, name);
    assert_eq!(copy.as_str(), "foo-bar");
}
