use mod_server::command::Command;
use mod_server::mods::git::{
    clone_source, get, get_repository_cache, is_up_to_date, open_and_pull_source, open_source,
    opened, repository_name, reset, Opening,
};
use mod_server::mods::GitMod;
use mod_server::Error;

fn git(url: &str, branch: Option<&str>) -> GitMod {
    GitMod { url: url.to_string(), branch: branch.map(|b| b.to_string()) }
}

fn command(program: &str, args: &[&str], dir: &str, piped: bool) -> Command {
    Command {
        program: program.to_string(),
        args: args.iter().map(|a| a.to_string()).collect(),
        dir: dir.to_string(),
        piped,
        checked: true,
    }
}

fn lines(output: &[&str]) -> Vec<String> {
    output.iter().map(|l| l.to_string()).collect()
}

const URL: &str = "https://github.com/someone/examplemod.git";

#[test]
fn repository_name_is_the_last_segment_without_git() {
    assert_eq!(repository_name(&git(URL, None)), Ok("examplemod".to_string()));
    assert_eq!(repository_name(&git("git@host:team/a.b.git", None)), Ok("a.b".to_string()));
}

#[test]
fn repository_cache_is_under_the_cache_root() {
    assert_eq!(get_repository_cache(&git(URL, None)), Ok("mod_cache/examplemod".to_string()));
    assert_eq!(get_repository_cache(&git(URL, Some("dev"))), Ok("mod_cache/examplemod".to_string()));
}

#[test]
fn url_without_git_suffix_is_named_by_its_last_segment() {
    let plain = git("https://github.com/example/examplemod", None);
    assert_eq!(repository_name(&plain), Ok("examplemod".to_string()));
    assert_eq!(get_repository_cache(&plain), Ok("mod_cache/examplemod".to_string()));
    assert_eq!(
        open_source(&plain, true),
        Ok(Opening::Pull(command("git", &["pull"], "mod_cache/examplemod", true)))
    );
    assert_eq!(
        open_source(&plain, false),
        Ok(Opening::Clone(command(
            "git",
            &["clone", "https://github.com/example/examplemod", "examplemod"],
            "mod_cache",
            false
        )))
    );
    assert_eq!(
        reset(&plain, true),
        Ok(Some(command("gradle", &["clean"], "mod_cache/examplemod", false)))
    );
}

#[test]
fn git_suffix_is_stripped_at_the_end_only() {
    assert_eq!(repository_name(&git("https://h/a/x.git.git", None)), Ok("x.git".to_string()));
    assert_eq!(repository_name(&git("https://h/a/x.github", None)), Ok("x.github".to_string()));
    assert_eq!(repository_name(&git("https://h/x.git/y", None)), Ok("y".to_string()));
    assert_eq!(repository_name(&git("https://h/a/git", None)), Ok("git".to_string()));
    assert_eq!(repository_name(&git("/r\u{e9}po.git", None)), Ok("r\u{e9}po".to_string()));
}

#[test]
fn url_without_last_segment_is_refused() {
    for url in ["examplemod.git", "examplemod", "", "https://github.com/example/", "https://h/.git", "/"] {
        let bad = git(url, Some("dev"));
        assert_eq!(repository_name(&bad), Err(Error::Regex));
        assert_eq!(get_repository_cache(&bad), Err(Error::Regex));
        assert_eq!(open_source(&bad, true), Err(Error::Regex));
        assert_eq!(open_source(&bad, false), Err(Error::Regex));
        assert_eq!(reset(&bad, true), Err(Error::Regex));
        assert_eq!(reset(&bad, false), Err(Error::Regex));
    }
}

#[test]
fn pull_without_branch() {
    assert_eq!(
        open_and_pull_source("mod_cache/examplemod", &git(URL, None)),
        command("git", &["pull"], "mod_cache/examplemod", true)
    );
}

#[test]
fn pull_with_branch_names_origin() {
    assert_eq!(
        open_and_pull_source("mod_cache/examplemod", &git(URL, Some("dev"))),
        command("git", &["pull", "origin", "dev"], "mod_cache/examplemod", true)
    );
}

#[test]
fn clone_without_branch() {
    assert_eq!(
        clone_source("examplemod", &git(URL, None)),
        command("git", &["clone", URL, "examplemod"], "mod_cache", false)
    );
}

#[test]
fn clone_with_branch() {
    assert_eq!(
        clone_source("examplemod", &git(URL, Some("dev"))),
        command("git", &["clone", URL, "-b", "dev", "examplemod"], "mod_cache", false)
    );
}

#[test]
fn existing_repository_is_pulled() {
    assert_eq!(
        open_source(&git(URL, Some("dev")), true),
        Ok(Opening::Pull(command("git", &["pull", "origin", "dev"], "mod_cache/examplemod", true)))
    );
}

#[test]
fn missing_repository_is_cloned() {
    assert_eq!(
        open_source(&git(URL, None), false),
        Ok(Opening::Clone(command("git", &["clone", URL, "examplemod"], "mod_cache", false)))
    );
}

#[test]
fn up_to_date_is_told_by_any_line() {
    assert!(is_up_to_date(&lines(&["Already up to date."])));
    assert!(is_up_to_date(&lines(&["From github.com:someone/examplemod", "Already up to date.", ""])));
    assert!(!is_up_to_date(&lines(&[])));
    assert!(!is_up_to_date(&lines(&["Updating 1a2b3c..4d5e6f", "Fast-forward"])));
    assert!(!is_up_to_date(&lines(&["Already up-to-date."])));
    assert!(!is_up_to_date(&lines(&["Already up to", " date."])));
}

#[test]
fn quiet_pull_leaves_source_unchanged_and_skips_the_build() {
    let opening = open_source(&git(URL, None), true).unwrap();
    let source = opened(&opening, "mod_cache/examplemod".to_string(), &lines(&["Already up to date."]));
    assert_eq!(source.root(), "mod_cache/examplemod");
    assert!(!source.is_changed());
    assert_eq!(source.build(true), None);
    assert_eq!(
        source.build(false),
        Some(command("gradle", &["clean", "build"], "mod_cache/examplemod", false))
    );
}

#[test]
fn other_pull_marks_source_changed_and_forces_the_build() {
    let opening = open_source(&git(URL, None), true).unwrap();
    for output in [lines(&["Updating 1a2b3c..4d5e6f"]), lines(&[])] {
        let source = opened(&opening, "mod_cache/examplemod".to_string(), &output);
        assert!(source.is_changed());
        let build = Some(command("gradle", &["clean", "build"], "mod_cache/examplemod", false));
        assert_eq!(source.build(true), build);
        assert_eq!(source.build(false), build);
    }
}

#[test]
fn clone_marks_source_changed_whatever_it_printed() {
    let opening = open_source(&git(URL, None), false).unwrap();
    let source = opened(&opening, "mod_cache/examplemod".to_string(), &lines(&["Already up to date."]));
    assert!(source.is_changed());
    assert_eq!(source.root(), "mod_cache/examplemod");
}

#[test]
fn build_without_jar_is_a_missing_artifact() {
    assert_eq!(get(None), Err(Error::MissingArtifact));
    assert_eq!(get(Some("mod_cache/examplemod/build/libs/examplemod-1.0.jar".to_string())),
        Ok("mod_cache/examplemod/build/libs/examplemod-1.0.jar".to_string()));
}

#[test]
fn reset_cleans_an_existing_repository_only() {
    assert_eq!(
        reset(&git(URL, None), true),
        Ok(Some(command("gradle", &["clean"], "mod_cache/examplemod", false)))
    );
    assert_eq!(reset(&git(URL, None), false), Ok(None));
}
