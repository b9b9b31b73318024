//! The server: putting the jars in place, starting it, and seeing it end.

use crate::command::{push_arg, Command, CommandView};
use crate::paths::{file_name, join, parent, path_file_name, path_join, path_parent};
use crate::text::{split_ascii_whitespace, texts, words};
use crate::Error;
use vstd::prelude::*;

verus! {

/// The program that runs the server.
pub const JAVA: &'static str = "java";

/// The name of the directory, beside the server's jar, that the server loads
/// its mods from.
pub const MODS_DIR: &'static str = "mods";

/// A server, known by its jar and the directory that holds it.
#[derive(Debug)]
pub struct Server {
    root: String,
    jar: String,
}

/// A `Server` as plain text.
pub struct ServerView {
    pub root: Seq<char>,
    pub jar: Seq<char>,
}

impl View for Server {
    type V = ServerView;

    closed spec fn view(&self) -> ServerView {
        ServerView { root: self.root@, jar: self.jar@ }
    }
}

/// One step of putting the jars in place.
#[derive(Debug, PartialEq, Eq)]
pub enum Step {
    /// Remove this directory and all that is in it.
    RemoveDirAll(String),
    /// Create this directory, and those above it that are missing.
    CreateDirAll(String),
    /// Copy the file at `from` to `to`.
    Copy { from: String, to: String },
    /// This jar's path has no file name: say so, and go on without it.
    Skip(String),
}

/// A `Step` as plain text.
pub enum StepView {
    RemoveDirAll(Seq<char>),
    CreateDirAll(Seq<char>),
    Copy { from: Seq<char>, to: Seq<char> },
    Skip(Seq<char>),
}

impl View for Step {
    type V = StepView;

    open spec fn view(&self) -> StepView {
        match self {
            Step::RemoveDirAll(dir) => StepView::RemoveDirAll(dir@),
            Step::CreateDirAll(dir) => StepView::CreateDirAll(dir@),
            Step::Copy { from, to } => StepView::Copy { from: from@, to: to@ },
            Step::Skip(jar) => StepView::Skip(jar@),
        }
    }
}

/// The steps of `steps` as plain text.
pub open spec fn step_views(steps: Seq<Step>) -> Seq<StepView> {
    steps.map_values(|s: Step| s@)
}

/// The step that brings `jar` into `dir`: a copy under the jar's own file
/// name, or none where its path has no file name.
pub open spec fn placing(dir: Seq<char>, jar: Seq<char>) -> StepView {
    match path_file_name(jar) {
        Some(name) => StepView::Copy { from: jar, to: path_join(dir, name) },
        None => StepView::Skip(jar),
    }
}

/// The steps that put `jars` in place in `dir`: the directory is removed
/// with all that is in it and made anew, then the jars are brought in, in
/// their order.
pub open spec fn staging(dir: Seq<char>, jars: Seq<Seq<char>>) -> Seq<StepView> {
    seq![StepView::RemoveDirAll(dir), StepView::CreateDirAll(dir)] + jars.map_values(
        |jar: Seq<char>| placing(dir, jar),
    )
}

/// The files below `dir` once `step` has been carried out, given those that
/// were there before.
pub open spec fn files_after(dir: Seq<char>, files: Set<Seq<char>>, step: StepView) -> Set<
    Seq<char>,
> {
    match step {
        StepView::RemoveDirAll(removed) => if removed == dir {
            Set::empty()
        } else {
            files
        },
        StepView::CreateDirAll(_) => files,
        StepView::Copy { to, .. } => files.insert(to),
        StepView::Skip(_) => files,
    }
}

/// The files below `dir` once `steps` have been carried out in their order.
pub open spec fn files_after_all(dir: Seq<char>, files: Set<Seq<char>>, steps: Seq<StepView>)
    -> Set<Seq<char>>
    decreases steps.len(),
{
    if steps.len() == 0 {
        files
    } else {
        files_after(dir, files_after_all(dir, files, steps.drop_last()), steps.last())
    }
}

/// The places in `dir` that the jars with a file name are copied to.
pub open spec fn staged_files(dir: Seq<char>, jars: Seq<Seq<char>>) -> Set<Seq<char>> {
    Set::new(
        |file: Seq<char>|
            exists|i: int|
                0 <= i < jars.len() && #[trigger] placing(dir, jars[i]) == (StepView::Copy {
                    from: jars[i],
                    to: file,
                }),
    )
}

/// `java -jar <options...> <jar's file name>`, run in the server's
/// directory; the options are the words of `jvm`. With what status the
/// server ends is not looked at.
pub open spec fn launch_command(server: ServerView, jvm: Option<Seq<char>>) -> CommandView {
    CommandView {
        program: JAVA@,
        args: seq!["-jar"@] + match jvm {
            Some(options) => words(options),
            None => Seq::empty(),
        } + seq![path_file_name(server.jar)->Some_0],
        dir: server.root,
        piped: false,
        checked: false,
    }
}

/// Where a run of the server stands.
#[derive(Debug, Clone, Copy, PartialEq, Eq, Structural)]
pub enum Phase {
    /// Nothing has been done yet.
    Idle,
    /// The jars are being put in place.
    Staging,
    /// The server process is running.
    Running,
    /// The run is over.
    Exited,
}

/// What the driver of a run has to do next.
#[derive(Debug, PartialEq, Eq)]
pub enum Directive {
    /// Carry out this step, and report how it went.
    Stage(Step),
    /// Start this process, wait until it ends, and report whether that
    /// worked. How the process itself ended is of no concern.
    Launch(Command),
    /// Nothing more: the run is over, with this result.
    Stop(Result<(), Error>),
}

/// A `Directive` as plain text.
pub enum DirectiveView {
    Stage(StepView),
    Launch(CommandView),
    Stop(Result<(), Error>),
}

impl View for Directive {
    type V = DirectiveView;

    open spec fn view(&self) -> DirectiveView {
        match self {
            Directive::Stage(step) => DirectiveView::Stage(step@),
            Directive::Launch(command) => DirectiveView::Launch(command@),
            Directive::Stop(result) => DirectiveView::Stop(*result),
        }
    }
}

/// One run of the server: the steps that put the jars in place, of which
/// `done` have been carried out, then the launch.
#[derive(Debug)]
pub struct Supervisor {
    phase: Phase,
    steps: Vec<Step>,
    done: usize,
    launch: Command,
    result: Result<(), Error>,
}

/// A `Supervisor` as plain values.
pub struct SupervisorView {
    pub phase: Phase,
    pub steps: Seq<StepView>,
    pub done: nat,
    pub launch: CommandView,
    pub result: Result<(), Error>,
}

impl View for Supervisor {
    type V = SupervisorView;

    closed spec fn view(&self) -> SupervisorView {
        SupervisorView {
            phase: self.phase,
            steps: step_views(self.steps@),
            done: self.done as nat,
            launch: self.launch@,
            result: self.result,
        }
    }
}

/// The run of `server` with `jars`, before anything has been done.
pub open spec fn supervising(server: ServerView, jvm: Option<Seq<char>>, jars: Seq<Seq<char>>)
    -> SupervisorView {
    SupervisorView {
        phase: Phase::Idle,
        steps: staging(path_join(server.root, MODS_DIR@), jars),
        done: 0,
        launch: launch_command(server, jvm),
        result: Ok(()),
    }
}

/// What holds of every run: there is a step to begin with, the count of
/// steps done points at a step while the jars are being put in place, and a
/// result other than success is held only once the run is over.
pub open spec fn sound(s: SupervisorView) -> bool {
    &&& s.steps.len() > 0
    &&& s.phase == Phase::Idle ==> s.done == 0
    &&& s.phase == Phase::Staging ==> s.done < s.steps.len()
    &&& s.phase != Phase::Exited ==> s.result is Ok
}

/// The state that a run is in after the report `last`, and what is to be
/// done then. The first call takes no report to heart and asks for the first
/// step. While the jars are put in place, a step that failed ends the run
/// with its error and nothing is launched; one that worked is followed by
/// the next step, the last of them by the launch. What the launch reports is
/// the result of the run, and stays it.
pub open spec fn supervised(s: SupervisorView, last: Result<(), Error>) -> (
    SupervisorView,
    DirectiveView,
) {
    match s.phase {
        Phase::Idle => (
            SupervisorView { phase: Phase::Staging, done: 0, ..s },
            DirectiveView::Stage(s.steps[0]),
        ),
        Phase::Staging => match last {
            Err(e) => (
                SupervisorView { phase: Phase::Exited, result: Err(e), ..s },
                DirectiveView::Stop(Err(e)),
            ),
            Ok(_) => if s.done + 1 < s.steps.len() {
                (
                    SupervisorView { done: s.done + 1, ..s },
                    DirectiveView::Stage(s.steps[s.done as int + 1]),
                )
            } else {
                (
                    SupervisorView { phase: Phase::Running, done: s.done + 1, ..s },
                    DirectiveView::Launch(s.launch),
                )
            },
        },
        Phase::Running => (
            SupervisorView { phase: Phase::Exited, result: last, ..s },
            DirectiveView::Stop(last),
        ),
        Phase::Exited => (s, DirectiveView::Stop(s.result)),
    }
}

/// Putting the jars in place leaves in the mods directory exactly the files
/// that the jars of this run are copied to, whatever was there before: what
/// an earlier run left behind is gone.
pub proof fn lemma_staging_leaves_current_set(
    dir: Seq<char>,
    jars: Seq<Seq<char>>,
    before: Set<Seq<char>>,
)
    ensures
        files_after_all(dir, before, staging(dir, jars)) == staged_files(dir, jars),
    decreases jars.len(),
{
    let steps = staging(dir, jars);
    if jars.len() == 0 {
        reveal_with_fuel(files_after_all, 3);
        assert(steps =~= seq![StepView::RemoveDirAll(dir), StepView::CreateDirAll(dir)]);
        assert(staged_files(dir, jars) =~= Set::<Seq<char>>::empty());
    } else {
        let fewer = jars.drop_last();
        lemma_staging_leaves_current_set(dir, fewer, before);
        assert(steps.drop_last() =~= staging(dir, fewer));
        let earlier = staged_files(dir, fewer);
        assert forall|file: Seq<char>| earlier.contains(file) implies staged_files(
            dir,
            jars,
        ).contains(file) by {
            let i = choose|i: int|
                0 <= i < fewer.len() && #[trigger] placing(dir, fewer[i]) == (StepView::Copy {
                    from: fewer[i],
                    to: file,
                });
            assert(jars[i] == fewer[i]);
        }
        assert forall|file: Seq<char>|
            staged_files(dir, jars).contains(file) implies files_after(
            dir,
            earlier,
            steps.last(),
        ).contains(file) by {
            let i = choose|i: int|
                0 <= i < jars.len() && #[trigger] placing(dir, jars[i]) == (StepView::Copy {
                    from: jars[i],
                    to: file,
                });
            if i < fewer.len() {
                assert(fewer[i] == jars[i]);
            }
        }
        assert(steps.last() == placing(dir, jars.last()));
        assert(files_after(dir, earlier, steps.last()) =~= staged_files(dir, jars));
    }
}

/// The state of a run after `count` reports of success in a row.
pub open spec fn after_successes(s: SupervisorView, count: nat) -> SupervisorView
    decreases count,
{
    if count == 0 {
        s
    } else {
        supervised(after_successes(s, (count - 1) as nat), Ok(())).0
    }
}

/// While nothing fails, a run asks for its steps one by one in their order,
/// then for the launch, and for nothing before the step or the launch asked
/// for last has been reported.
pub proof fn lemma_steps_come_in_order(s: SupervisorView, count: nat)
    requires
        sound(s),
        s.phase == Phase::Idle,
        count <= s.steps.len(),
    ensures
        count < s.steps.len() ==> supervised(after_successes(s, count), Ok(())).1
            == DirectiveView::Stage(s.steps[count as int]),
        count == s.steps.len() ==> supervised(after_successes(s, count), Ok(())).1
            == DirectiveView::Launch(s.launch),
        count > 0 ==> after_successes(s, count) == (SupervisorView {
            phase: Phase::Staging,
            done: (count - 1) as nat,
            ..s
        }),
    decreases count,
{
    if count > 0 {
        lemma_steps_come_in_order(s, (count - 1) as nat);
    }
}

/// Every report leaves a run sound.
pub proof fn lemma_run_stays_sound(s: SupervisorView, last: Result<(), Error>)
    requires
        sound(s),
    ensures
        sound(supervised(s, last).0),
        supervised(s, last).0.steps == s.steps,
        supervised(s, last).0.launch == s.launch,
{
}

/// A step that fails while the jars are put in place ends the run with the
/// step's error, and the server is not started then or later.
pub proof fn lemma_failed_step_launches_nothing(
    s: SupervisorView,
    error: Error,
    later: Result<(), Error>,
)
    requires
        sound(s),
        s.phase == Phase::Staging,
    ensures
        ({
            let (ended, directive) = supervised(s, Err(error));
            &&& directive == DirectiveView::Stop(Err(error))
            &&& ended.phase == Phase::Exited
            &&& supervised(ended, later) == (ended, DirectiveView::Stop(Err(error)))
        }),
{
}

/// The server is started only when the last of the steps has been reported
/// to have worked, and with the command that the run was made with. What is
/// reported of the launch, be it success or failure, is handed on as the
/// result of the run as it is.
pub proof fn lemma_launch_follows_staging(s: SupervisorView, last: Result<(), Error>)
    requires
        sound(s),
    ensures
        supervised(s, last).1 is Launch ==> s.phase == Phase::Staging && last is Ok && s.done + 1
            == s.steps.len() && supervised(s, last).1 == DirectiveView::Launch(s.launch),
        s.phase == Phase::Running ==> supervised(s, last).1 == DirectiveView::Stop(last)
            && supervised(s, last).0.result == last,
{
}

impl Step {
    /// A copy that holds the same text.
    pub fn duplicate(&self) -> (copy: Step)
        ensures
            copy@ == self@,
    {
        match self {
            Step::RemoveDirAll(dir) => Step::RemoveDirAll(dir.clone()),
            Step::CreateDirAll(dir) => Step::CreateDirAll(dir.clone()),
            Step::Copy { from, to } => Step::Copy { from: from.clone(), to: to.clone() },
            Step::Skip(jar) => Step::Skip(jar.clone()),
        }
    }
}

impl Command {
    /// A copy that holds the same text.
    pub fn duplicate(&self) -> (copy: Command)
        ensures
            copy@ == self@,
    {
        let mut args: Vec<String> = Vec::new();
        let mut i: usize = 0;
        while i < self.args.len()
            invariant
                i <= self.args.len(),
                args.len() == i,
                forall|j: int| 0 <= j < i ==> args@[j]@ == self.args@[j]@,
            decreases self.args.len() - i,
        {
            args.push(self.args[i].clone());
            i += 1;
        }
        assert(texts(args@) =~= texts(self.args@));
        Command {
            program: self.program.clone(),
            args,
            dir: self.dir.clone(),
            piped: self.piped,
            checked: self.checked,
        }
    }
}

impl Server {
    /// The server whose jar is at `jar`. It runs in the directory that holds
    /// the jar.
    pub fn open(jar: String) -> (server: Server)
        requires
            path_parent(jar@) is Some,
        ensures
            server@ == (ServerView { root: path_parent(jar@)->Some_0, jar: jar@ }),
    {
        let root = parent(jar.as_str()).unwrap();
        Server { root, jar }
    }

    /// The server whose jar is at `jar`, or none where the path has no
    /// parent, as that of the root directory and the empty path.
    pub fn try_open(jar: String) -> (server: Option<Server>)
        ensures
            match server {
                Some(s) => path_parent(jar@) == Some(s@.root) && s@.jar == jar@,
                None => path_parent(jar@) is None,
            },
    {
        if parent(jar.as_str()).is_some() {
            Some(Server::open(jar))
        } else {
            None
        }
    }

    /// The directory that the server runs in.
    pub fn root(&self) -> (root: &str)
        ensures
            root@ == self@.root,
    {
        self.root.as_str()
    }

    /// The path of the server's jar.
    pub fn jar(&self) -> (jar: &str)
        ensures
            jar@ == self@.jar,
    {
        self.jar.as_str()
    }

    /// The directory that the server loads its mods from.
    pub fn mods_path(&self) -> (dir: String)
        ensures
            dir@ == path_join(self@.root, MODS_DIR@),
    {
        join(self.root.as_str(), MODS_DIR)
    }

    /// The steps that leave in the mods directory the jars of `mods` and
    /// nothing else.
    pub fn setup_mods(&self, mods: &Vec<String>) -> (steps: Vec<Step>)
        ensures
            step_views(steps@) == staging(path_join(self@.root, MODS_DIR@), texts(mods@)),
    {
        let dir = self.mods_path();
        let mut steps: Vec<Step> = Vec::new();
        steps.push(Step::RemoveDirAll(dir.clone()));
        steps.push(Step::CreateDirAll(dir.clone()));
        let mut i: usize = 0;
        while i < mods.len()
            invariant
                i <= mods.len(),
                steps.len() == 2 + i,
                steps@[0]@ == StepView::RemoveDirAll(dir@),
                steps@[1]@ == StepView::CreateDirAll(dir@),
                forall|j: int|
                    0 <= j < i ==> (#[trigger] steps@[2 + j])@ == placing(dir@, mods@[j]@),
            decreases mods.len() - i,
        {
            let step = match file_name(mods[i].as_str()) {
                Some(name) => Step::Copy {
                    from: mods[i].clone(),
                    to: join(dir.as_str(), name.as_str()),
                },
                None => Step::Skip(mods[i].clone()),
            };
            steps.push(step);
            i += 1;
        }
        proof {
            let want = staging(dir@, texts(mods@));
            assert forall|k: int| 0 <= k < want.len() implies step_views(steps@)[k] == want[k] by {
                if k >= 2 {
                    assert(steps@[2 + (k - 2)]@ == placing(dir@, mods@[k - 2]@));
                }
            }
        }
        steps
    }

    /// The command that starts the server.
    pub fn launch(&self, jvm: Option<&str>) -> (command: Command)
        requires
            path_file_name(self@.jar) is Some,
        ensures
            command@ == launch_command(self@, jvm.deep_view()),
    {
        let mut args: Vec<String> = Vec::new();
        push_arg(&mut args, "-jar");
        assert(texts(args@) =~= seq!["-jar"@]);
        match jvm {
            Some(options) => {
                let mut split = split_ascii_whitespace(options);
                let ghost before = texts(args@);
                let ghost added = texts(split@);
                args.append(&mut split);
                assert(texts(args@) =~= before + added);
            },
            None => {},
        }
        let ghost options = texts(args@);
        let name = file_name(self.jar.as_str()).unwrap();
        push_arg(&mut args, name.as_str());
        assert(texts(args@) =~= options + seq![path_file_name(self@.jar)->Some_0]);
        Command {
            program: JAVA.to_owned(),
            args,
            dir: self.root.clone(),
            piped: false,
            checked: false,
        }
    }

    /// One run of the server with the jars of `mods`: first they are put in
    /// place, then the server is started with the options of `jvm`.
    pub fn run(&self, jvm: Option<&str>, mods: &Vec<String>) -> (run: Supervisor)
        requires
            path_file_name(self@.jar) is Some,
        ensures
            run.wf(),
            run@ == supervising(self@, jvm.deep_view(), texts(mods@)),
    {
        Supervisor {
            phase: Phase::Idle,
            steps: self.setup_mods(mods),
            done: 0,
            launch: self.launch(jvm),
            result: Ok(()),
        }
    }

    /// One run of the server as `run` makes it, or none where the path of
    /// the server's jar has no file name to start it by.
    pub fn try_run(&self, jvm: Option<&str>, mods: &Vec<String>) -> (run: Option<Supervisor>)
        ensures
            match run {
                Some(r) => path_file_name(self@.jar) is Some && r.wf() && r@ == supervising(
                    self@,
                    jvm.deep_view(),
                    texts(mods@),
                ),
                None => path_file_name(self@.jar) is None,
            },
    {
        if file_name(self.jar.as_str()).is_some() {
            Some(self.run(jvm, mods))
        } else {
            None
        }
    }
}

impl Supervisor {
    /// What holds of every run that this module hands out.
    pub open spec fn wf(&self) -> bool {
        sound(self@)
    }

    /// Where the run stands.
    pub fn phase(&self) -> (phase: Phase)
        ensures
            phase == self@.phase,
    {
        self.phase
    }

    /// Takes the report of how the last directive went, and says what to do
    /// next. The first call may be given any report.
    pub fn next(&mut self, last: Result<(), Error>) -> (directive: Directive)
        requires
            old(self).wf(),
        ensures
            final(self).wf(),
            (final(self)@, directive@) == supervised(old(self)@, last),
    {
        match self.phase {
            Phase::Idle => {
                self.phase = Phase::Staging;
                self.done = 0;
                Directive::Stage(self.steps[0].duplicate())
            },
            Phase::Staging => match last {
                Err(e) => {
                    self.phase = Phase::Exited;
                    self.result = Err(e);
                    Directive::Stop(Err(e))
                },
                Ok(_) => {
                    assert(self@.steps.len() == self.steps.len());
                    self.done = self.done + 1;
                    if self.done < self.steps.len() {
                        Directive::Stage(self.steps[self.done].duplicate())
                    } else {
                        self.phase = Phase::Running;
                        Directive::Launch(self.launch.duplicate())
                    }
                },
            },
            Phase::Running => {
                self.phase = Phase::Exited;
                self.result = last;
                Directive::Stop(last)
            },
            Phase::Exited => Directive::Stop(self.result),
        }
    }
}

} // verus!
