use mod_server::command::Command;
use mod_server::mods::sources::ModSource;

fn paths(entries: &[&str]) -> Vec<String> {
    entries.iter().map(|e| e.to_string()).collect()
}

#[test]
fn constructors_set_the_flag() {
    let u = ModSource::unchanged("mod_cache/repo".to_string());
    assert_eq!(u.root(), "mod_cache/repo");
    assert!(!u.is_changed());
    let c = ModSource::changed("mod_cache/repo".to_string());
    assert_eq!(c.root(), "mod_cache/repo");
    assert!(c.is_changed());
}

#[test]
fn build_dir_is_build_libs_below_the_root() {
    assert_eq!(ModSource::changed("mod_cache/repo".to_string()).build_dir(), "mod_cache/repo/build/libs");
}

#[test]
fn reset_is_gradle_clean_in_the_root() {
    assert_eq!(
        ModSource::unchanged("mod_cache/repo".to_string()).reset(),
        Command {
            program: "gradle".to_string(),
            args: vec!["clean".to_string()],
            dir: "mod_cache/repo".to_string(),
            piped: false,
            checked: true,
        }
    );
}

#[test]
fn build_runs_when_changed_or_never_built() {
    let build = Some(Command {
        program: "gradle".to_string(),
        args: vec!["clean".to_string(), "build".to_string()],
        dir: "r".to_string(),
        piped: false,
        checked: true,
    });
    assert_eq!(ModSource::changed("r".to_string()).build(true), build);
    assert_eq!(ModSource::changed("r".to_string()).build(false), build);
    assert_eq!(ModSource::unchanged("r".to_string()).build(false), build);
    assert_eq!(ModSource::unchanged("r".to_string()).build(true), None);
}

#[test]
fn first_jar_without_classifier_is_taken() {
    let entries = paths(&[
        "r/build/libs/examplemod-1.0-sources.jar",
        "r/build/libs/notes.txt",
        "r/build/libs/examplemod-1.0.jar",
        "r/build/libs/other-2.0.jar",
    ]);
    assert_eq!(ModSource::find_jar(&entries), Some("r/build/libs/examplemod-1.0.jar".to_string()));
}

#[test]
fn classified_jars_alone_are_no_artifact() {
    let entries = paths(&[
        "r/build/libs/examplemod-1.0-sources.jar",
        "r/build/libs/examplemod-1.0-javadoc.jar",
        "r/build/libs/unversioned.jar",
    ]);
    assert_eq!(ModSource::find_jar(&entries), None);
    assert_eq!(ModSource::find_jar(&Vec::new()), None);
}
