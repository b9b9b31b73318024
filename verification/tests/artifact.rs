use mod_server::mods::artifact::{from_captures, parse, ArtifactId};
use mod_server::pattern::{first_group_text, group_text};

fn id(name: &str, version: &str, classifier: Option<&str>) -> Option<ArtifactId> {
    Some(ArtifactId {
        name: name.to_string(),
        version: version.to_string(),
        classifier: classifier.map(|c| c.to_string()),
    })
}

#[test]
fn parses_name_version_and_classifier() {
    assert_eq!(parse("examplemod-1.2.3-api.jar"), id("examplemod", "1.2.3", Some("api")));
}

#[test]
fn parses_name_and_version_without_classifier() {
    assert_eq!(parse("examplemod-1.2.3.jar"), id("examplemod", "1.2.3", None));
}

#[test]
fn discards_build_metadata() {
    assert_eq!(parse("examplemod-1.2.3+build.5.jar"), id("examplemod", "1.2.3", None));
    assert_eq!(
        parse("examplemod-1.2.3+build.5-sources.jar"),
        id("examplemod", "1.2.3", Some("sources"))
    );
}

#[test]
fn name_runs_up_to_the_first_version() {
    assert_eq!(parse("my-mod-2.0-dev.jar"), id("my-mod", "2.0", Some("dev")));
    assert_eq!(parse("a-1-2-x.jar"), id("a", "1", Some("2-x")));
}

#[test]
fn reads_the_file_name_of_a_path() {
    assert_eq!(
        parse("mod_cache/repo/build/libs/examplemod-1.2.3.jar"),
        id("examplemod", "1.2.3", None)
    );
    assert_eq!(parse("some-1.0-dir/examplemod-2.jar"), id("examplemod", "2", None));
}

#[test]
fn rejects_what_does_not_end_in_jar() {
    assert_eq!(parse("examplemod-1.2.3.zip"), None);
    assert_eq!(parse("examplemod-1.2.3.jar.bak"), None);
    assert_eq!(parse("examplemod-1.2.3-api.jar.sha1"), None);
    assert_eq!(parse("examplemod-1.2.3"), None);
}

#[test]
fn rejects_what_has_no_version() {
    assert_eq!(parse("examplemod.jar"), None);
    assert_eq!(parse("example-mod.jar"), None);
    assert_eq!(parse(".jar"), None);
}

#[test]
fn rejects_a_path_without_file_name() {
    assert_eq!(parse(""), None);
    assert_eq!(parse("/"), None);
    assert_eq!(parse("build/libs/.."), None);
}

#[test]
fn parsing_is_deterministic() {
    assert_eq!(parse("examplemod-1.2.3-api.jar"), parse("examplemod-1.2.3-api.jar"));
}

#[test]
fn groups_become_name_version_classifier() {
    let groups = vec![
        Some("n-1-c.jar".to_string()),
        Some("n".to_string()),
        Some("1".to_string()),
        Some("c".to_string()),
    ];
    assert_eq!(from_captures(&groups), id("n", "1", Some("c")));
}

#[test]
fn empty_classifier_group_is_no_classifier() {
    let groups = vec![
        Some("n-1.jar".to_string()),
        Some("n".to_string()),
        Some("1".to_string()),
        Some(String::new()),
    ];
    assert_eq!(from_captures(&groups), id("n", "1", None));
    let short = vec![Some("n-1.jar".to_string()), Some("n".to_string()), Some("1".to_string())];
    assert_eq!(from_captures(&short), id("n", "1", None));
}

#[test]
fn missing_name_or_version_group_is_no_identity() {
    let no_version = vec![Some("x".to_string()), Some("n".to_string()), None, None];
    assert_eq!(from_captures(&no_version), None);
    let no_name = vec![Some("x".to_string()), None, Some("1".to_string())];
    assert_eq!(from_captures(&no_name), None);
    assert_eq!(from_captures(&vec![Some("x".to_string())]), None);
    assert_eq!(from_captures(&Vec::new()), None);
}

#[test]
fn group_is_none_where_it_is_missing_or_out_of_range() {
    let groups = vec![Some("ab".to_string()), None, Some("b".to_string())];
    assert_eq!(group_text(&groups, 0), Some("ab".to_string()));
    assert_eq!(group_text(&groups, 1), None);
    assert_eq!(group_text(&groups, 2), Some("b".to_string()));
    assert_eq!(group_text(&groups, 3), None);
}

#[test]
fn first_group_is_that_of_the_first_match() {
    assert_eq!(first_group_text(r"(\d+)-(x)?", "a 12- 34-x", 1), Some("12".to_string()));
    assert_eq!(first_group_text(r"(\d+)-(x)?", "a 12- 34-x", 2), None);
    assert_eq!(first_group_text(r"(\d+)-(x)?", "a 12- 34-x", 0), Some("12-".to_string()));
    assert_eq!(first_group_text(r"(\d+)-(x)?", "none", 1), None);
    assert_eq!(first_group_text(r"(\d+", "12", 1), None);
}
