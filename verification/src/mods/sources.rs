//! A source tree in the cache, and the build that makes a jar of it.

use crate::command::{push_arg, Command, CommandView};
use crate::mods::artifact::{artifact_of, parse};
use crate::paths::{join, path_join};
use vstd::prelude::*;

verus! {

/// The build tool.
pub const GRADLE: &'static str = "gradle";

/// Where, below the root of a source tree, the build tool leaves its jars.
pub const BUILD_LIBS: &'static str = "build/libs";

/// A source tree in the cache, and whether it has changed since it was last
/// built.
#[derive(Debug)]
pub struct ModSource {
    root: String,
    changed: bool,
}

/// A `ModSource` as plain values.
pub struct ModSourceView {
    pub root: Seq<char>,
    pub changed: bool,
}

impl View for ModSource {
    type V = ModSourceView;

    closed spec fn view(&self) -> ModSourceView {
        ModSourceView { root: self.root@, changed: self.changed }
    }
}

/// The build tool, run in `root` with `goals`. It has failed where it ends
/// with another status than success; what it prints is not looked at.
pub open spec fn gradle(root: Seq<char>, goals: Seq<Seq<char>>) -> CommandView {
    CommandView { program: GRADLE@, args: goals, dir: root, piped: false, checked: true }
}

/// A source is built when it has changed, and when it was never built.
pub open spec fn needs_build(source: ModSourceView, built: bool) -> bool {
    source.changed || !built
}

/// A jar can be deployed when its file name parses and has no classifier.
pub open spec fn deployable(path: Seq<char>) -> bool {
    artifact_of(path) matches Some(id) && id.classifier is None
}

impl ModSource {
    /// The source tree at `root`, with nothing new since the last build.
    pub fn unchanged(root: String) -> (source: ModSource)
        ensures
            source@ == (ModSourceView { root: root@, changed: false }),
    {
        ModSource { root, changed: false }
    }

    /// The source tree at `root`, freshly cloned or holding new commits.
    pub fn changed(root: String) -> (source: ModSource)
        ensures
            source@ == (ModSourceView { root: root@, changed: true }),
    {
        ModSource { root, changed: true }
    }

    /// The root directory of the source tree.
    pub fn root(&self) -> (root: &str)
        ensures
            root@ == self@.root,
    {
        self.root.as_str()
    }

    /// Whether the source tree has changed since it was last built.
    pub fn is_changed(&self) -> (changed: bool)
        ensures
            changed == self@.changed,
    {
        self.changed
    }

    /// The command that discards what the build tool has made, leaving the
    /// source tree itself alone.
    pub fn reset(&self) -> (command: Command)
        ensures
            command@ == gradle(self@.root, seq!["clean"@]),
    {
        let mut command = self.command_gradle();
        push_arg(&mut command.args, "clean");
        command
    }

    /// The directory that holds the jars after a build.
    pub fn build_dir(&self) -> (dir: String)
        ensures
            dir@ == path_join(self@.root, BUILD_LIBS@),
    {
        join(self.root.as_str(), BUILD_LIBS)
    }

    /// The command to run before the jars are looked for: a clean build where
    /// the source has changed or `built` says that the build directory is not
    /// there, and none otherwise.
    pub fn build(&self, built: bool) -> (command: Option<Command>)
        ensures
            match command {
                Some(c) => needs_build(self@, built) && c@ == gradle(
                    self@.root,
                    seq!["clean"@, "build"@],
                ),
                None => !needs_build(self@, built),
            },
    {
        if self.changed || !built {
            let mut command = self.command_gradle();
            push_arg(&mut command.args, "clean");
            push_arg(&mut command.args, "build");
            assert(command@.args =~= seq!["clean"@, "build"@]);
            Some(command)
        } else {
            None
        }
    }

    /// The first of `entries`, the paths found in the build directory, that
    /// can be deployed: none before it can, and there is none exactly where
    /// no entry can.
    pub fn find_jar(entries: &Vec<String>) -> (jar: Option<String>)
        ensures
            match jar {
                Some(path) => exists|i: int|
                    0 <= i < entries.len() && path@ == (#[trigger] entries@[i])@ && deployable(
                        path@,
                    ) && forall|j: int| 0 <= j < i ==> !deployable(#[trigger] entries@[j]@),
                None => forall|j: int|
                    0 <= j < entries.len() ==> !deployable(#[trigger] entries@[j]@),
            },
    {
        let mut i: usize = 0;
        while i < entries.len()
            invariant
                i <= entries.len(),
                forall|j: int| 0 <= j < i ==> !deployable(#[trigger] entries@[j]@),
            decreases entries.len() - i,
        {
            match parse(entries[i].as_str()) {
                Some(id) => {
                    if id.classifier.is_none() {
                        return Some(entries[i].clone());
                    }
                },
                None => {},
            }
            i += 1;
        }
        None
    }

    fn command_gradle(&self) -> (command: Command)
        ensures
            command@ == gradle(self@.root, Seq::empty()),
    {
        let command = Command {
            program: GRADLE.to_owned(),
            args: Vec::new(),
            dir: self.root.clone(),
            piped: false,
            checked: true,
        };
        assert(command@.args =~= Seq::<Seq<char>>::empty());
        command
    }
}

} // verus!
