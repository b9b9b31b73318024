use mod_server::command::Command;
use mod_server::server::{Directive, Phase, Server, Step};
use mod_server::Error;
use std::collections::BTreeSet;

fn jars(paths: &[&str]) -> Vec<String> {
    paths.iter().map(|p| p.to_string()).collect()
}

fn server() -> Server {
    Server::try_open("server/server.jar".to_string()).unwrap()
}

fn launch(args: &[&str]) -> Command {
    Command {
        program: "java".to_string(),
        args: args.iter().map(|a| a.to_string()).collect(),
        dir: "server".to_string(),
        piped: false,
        checked: false,
    }
}

/// Carries out `steps` on a directory that holds `files`.
fn carry_out(steps: &[Step], dir: &str, files: &mut BTreeSet<String>) {
    for step in steps {
        match step {
            Step::RemoveDirAll(d) => {
                assert_eq!(d, dir);
                files.clear();
            }
            Step::CreateDirAll(d) => assert_eq!(d, dir),
            Step::Copy { to, .. } => {
                files.insert(to.clone());
            }
            Step::Skip(_) => {}
        }
    }
}

#[test]
fn server_runs_beside_its_jar() {
    let s = server();
    assert_eq!(s.root(), "server");
    assert_eq!(s.jar(), "server/server.jar");
    assert_eq!(s.mods_path(), "server/mods");
    let here = Server::open("server.jar".to_string());
    assert_eq!(here.root(), "");
    assert_eq!(here.mods_path(), "mods");
}

#[test]
fn path_without_parent_opens_no_server() {
    assert!(Server::try_open(String::new()).is_none());
    assert!(Server::try_open("/".to_string()).is_none());
}

#[test]
fn staging_clears_the_directory_then_copies_by_file_name() {
    let steps = server().setup_mods(&jars(&["mod_cache/a-1.0.jar", "local/dir/b-2.0.jar"]));
    assert_eq!(
        steps,
        vec![
            Step::RemoveDirAll("server/mods".to_string()),
            Step::CreateDirAll("server/mods".to_string()),
            Step::Copy { from: "mod_cache/a-1.0.jar".to_string(), to: "server/mods/a-1.0.jar".to_string() },
            Step::Copy { from: "local/dir/b-2.0.jar".to_string(), to: "server/mods/b-2.0.jar".to_string() },
        ]
    );
}

#[test]
fn staging_without_jars_still_clears_the_directory() {
    assert_eq!(
        server().setup_mods(&Vec::new()),
        vec![Step::RemoveDirAll("server/mods".to_string()), Step::CreateDirAll("server/mods".to_string())]
    );
}

#[test]
fn jar_without_file_name_is_skipped() {
    let steps = server().setup_mods(&jars(&["mod_cache/..", "mod_cache/a-1.0.jar", ""]));
    assert_eq!(
        steps[2..],
        [
            Step::Skip("mod_cache/..".to_string()),
            Step::Copy { from: "mod_cache/a-1.0.jar".to_string(), to: "server/mods/a-1.0.jar".to_string() },
            Step::Skip(String::new()),
        ]
    );
}

#[test]
fn staging_leaves_exactly_the_current_jars() {
    let mut files: BTreeSet<String> =
        ["server/mods/old-0.1.jar", "server/mods/a-0.9.jar", "server/mods/notes.txt"]
            .iter()
            .map(|f| f.to_string())
            .collect();
    let steps = server().setup_mods(&jars(&["mod_cache/a-1.0.jar", "x/..", "local/b-2.0.jar"]));
    carry_out(&steps, "server/mods", &mut files);
    let want: BTreeSet<String> =
        ["server/mods/a-1.0.jar", "server/mods/b-2.0.jar"].iter().map(|f| f.to_string()).collect();
    assert_eq!(files, want);
}

#[test]
fn launch_is_java_jar_options_name() {
    assert_eq!(server().launch(None), launch(&["-jar", "server.jar"]));
    assert_eq!(server().launch(Some("-Xmx2G")), launch(&["-jar", "-Xmx2G", "server.jar"]));
    assert_eq!(
        server().launch(Some("  -Xmx2G \t-Xms1G\n")),
        launch(&["-jar", "-Xmx2G", "-Xms1G", "server.jar"])
    );
    assert_eq!(server().launch(Some("")), launch(&["-jar", "server.jar"]));
}

#[test]
fn jar_without_file_name_gives_no_run() {
    let s = Server::try_open("server/..".to_string()).unwrap();
    assert!(s.try_run(None, &Vec::new()).is_none());
    assert!(server().try_run(None, &Vec::new()).is_some());
}

#[test]
fn run_stages_then_launches_then_stops() {
    let mods = jars(&["mod_cache/a-1.0.jar"]);
    let mut run = server().run(Some("-Xmx2G"), &mods);
    assert_eq!(run.phase(), Phase::Idle);
    assert_eq!(run.next(Err(Error::Io)), Directive::Stage(Step::RemoveDirAll("server/mods".to_string())));
    assert_eq!(run.phase(), Phase::Staging);
    assert_eq!(run.next(Ok(())), Directive::Stage(Step::CreateDirAll("server/mods".to_string())));
    assert_eq!(
        run.next(Ok(())),
        Directive::Stage(Step::Copy {
            from: "mod_cache/a-1.0.jar".to_string(),
            to: "server/mods/a-1.0.jar".to_string()
        })
    );
    assert_eq!(run.phase(), Phase::Staging);
    assert_eq!(run.next(Ok(())), Directive::Launch(launch(&["-jar", "-Xmx2G", "server.jar"])));
    assert_eq!(run.phase(), Phase::Running);
    assert_eq!(run.next(Ok(())), Directive::Stop(Ok(())));
    assert_eq!(run.phase(), Phase::Exited);
    assert_eq!(run.next(Err(Error::Io)), Directive::Stop(Ok(())));
    assert_eq!(run.phase(), Phase::Exited);
}

#[test]
fn failed_step_ends_the_run_without_launch() {
    for failing in 0..3 {
        let mut run = server().run(None, &jars(&["mod_cache/a-1.0.jar"]));
        let mut directive = run.next(Ok(()));
        for _ in 0..failing {
            assert!(matches!(directive, Directive::Stage(_)));
            directive = run.next(Ok(()));
        }
        assert!(matches!(directive, Directive::Stage(_)));
        assert_eq!(run.next(Err(Error::Io)), Directive::Stop(Err(Error::Io)));
        assert_eq!(run.phase(), Phase::Exited);
        assert_eq!(run.next(Ok(())), Directive::Stop(Err(Error::Io)));
        assert_eq!(run.next(Ok(())), Directive::Stop(Err(Error::Io)));
    }
}

#[test]
fn failed_launch_is_the_result_of_the_run() {
    let mut run = server().run(None, &Vec::new());
    run.next(Ok(()));
    run.next(Ok(()));
    assert_eq!(run.next(Ok(())), Directive::Launch(launch(&["-jar", "server.jar"])));
    assert_eq!(run.next(Err(Error::Io)), Directive::Stop(Err(Error::Io)));
    assert_eq!(run.next(Ok(())), Directive::Stop(Err(Error::Io)));
}
