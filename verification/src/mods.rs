//! The mods that a configuration declares, and how each becomes a jar.

use crate::config::{Config, EntryView};
use crate::text::texts;
use crate::Error;
use vstd::prelude::*;

pub mod artifact;
pub mod git;
pub mod http;
pub mod sources;

verus! {

/// A mod that is downloaded.
#[derive(Debug, Clone, PartialEq, Eq)]
pub struct HttpMod {
    pub url: String,
}

/// A mod that is cloned and built.
#[derive(Debug, Clone, PartialEq, Eq)]
pub struct GitMod {
    pub url: String,
    pub branch: Option<String>,
}

/// A mod that lies on disk already.
#[derive(Debug, Clone, PartialEq, Eq)]
pub struct FileMod {
    pub path: String,
}

/// A declared mod whose kind is known.
#[derive(Debug, Clone, PartialEq, Eq)]
pub enum Mod {
    Http(HttpMod),
    Git(GitMod),
    File(FileMod),
}

/// An `HttpMod` as plain text.
pub struct HttpModView {
    pub url: Seq<char>,
}

/// A `GitMod` as plain text.
pub struct GitModView {
    pub url: Seq<char>,
    pub branch: Option<Seq<char>>,
}

/// A `FileMod` as plain text.
pub struct FileModView {
    pub path: Seq<char>,
}

/// A `Mod` as plain text.
pub enum ModView {
    Http(HttpModView),
    Git(GitModView),
    File(FileModView),
}

impl View for HttpMod {
    type V = HttpModView;

    open spec fn view(&self) -> HttpModView {
        HttpModView { url: self.url@ }
    }
}

impl View for GitMod {
    type V = GitModView;

    open spec fn view(&self) -> GitModView {
        GitModView { url: self.url@, branch: self.branch.deep_view() }
    }
}

impl View for FileMod {
    type V = FileModView;

    open spec fn view(&self) -> FileModView {
        FileModView { path: self.path@ }
    }
}

impl View for Mod {
    type V = ModView;

    open spec fn view(&self) -> ModView {
        match self {
            Mod::Http(http) => ModView::Http(http@),
            Mod::Git(git) => ModView::Git(git@),
            Mod::File(file) => ModView::File(file@),
        }
    }
}

/// The mods of one run, in the order in which they were declared.
#[derive(Debug, PartialEq, Eq)]
pub struct Mods {
    pub mods: Vec<Mod>,
}

impl View for Mods {
    type V = Seq<ModView>;

    open spec fn view(&self) -> Seq<ModView> {
        self.mods@.map_values(|m: Mod| m@)
    }
}

/// The kind of a declared mod: a download where only `url` is set, a
/// repository where only `git` is set, with or without `branch`, a local file
/// where only `path` is set, and none in every other case.
pub open spec fn resolve(entry: EntryView) -> Option<ModView> {
    match (entry.url, entry.path, entry.git, entry.branch) {
        (Some(url), None, None, None) => Some(ModView::Http(HttpModView { url })),
        (None, None, Some(url), branch) => Some(ModView::Git(GitModView { url, branch })),
        (None, Some(path), None, None) => Some(ModView::File(FileModView { path })),
        _ => None,
    }
}

/// The mods of known kind among `entries`, in the order of `entries`.
pub open spec fn resolve_all(entries: Seq<(Seq<char>, EntryView)>) -> Seq<ModView>
    decreases entries.len(),
{
    if entries.len() == 0 {
        Seq::empty()
    } else {
        let before = resolve_all(entries.drop_last());
        match resolve(entries.last().1) {
            Some(m) => before.push(m),
            None => before,
        }
    }
}

fn clone_text(text: &Option<String>) -> (copy: Option<String>)
    ensures
        copy.deep_view() == text.deep_view(),
{
    match text {
        Some(s) => Some(s.clone()),
        None => None,
    }
}

impl Mod {
    /// Tells the kind of a declared mod. A declaration that fits no kind, or
    /// more than one, gives no mod.
    pub fn parse(config: &crate::config::Mod) -> (parsed: Option<Mod>)
        ensures
            match parsed {
                Some(m) => resolve(config@) == Some(m@),
                None => resolve(config@) is None,
            },
    {
        match (&config.url, &config.path, &config.git, &config.branch) {
            (Some(url), None, None, None) => Some(Mod::Http(HttpMod { url: url.clone() })),
            (None, None, Some(url), branch) => Some(
                Mod::Git(GitMod { url: url.clone(), branch: clone_text(branch) }),
            ),
            (None, Some(path), None, None) => Some(Mod::File(FileMod { path: path.clone() })),
            _ => None,
        }
    }
}

impl Mods {
    /// The mods of `config` whose kind is known, in the order in which the
    /// configuration declares them. The others are left out.
    pub fn parse(config: &Config) -> (parsed: Mods)
        ensures
            parsed@ == resolve_all(config@.mods),
    {
        let mut mods: Vec<Mod> = Vec::new();
        let mut i: usize = 0;
        while i < config.mods.len()
            invariant
                i <= config.mods.len(),
                mods@.map_values(|m: Mod| m@) == resolve_all(config@.mods.take(i as int)),
            decreases config.mods.len() - i,
        {
            let parsed = Mod::parse(&config.mods[i].1);
            proof {
                let upto = config@.mods.take(i + 1);
                assert(upto.drop_last() =~= config@.mods.take(i as int));
            }
            match parsed {
                Some(m) => {
                    mods.push(m);
                },
                None => {},
            }
            i += 1;
        }
        assert(config@.mods.take(i as int) =~= config@.mods);
        Mods { mods }
    }
}

/// How often the resolution of one mod is attempted at most.
pub const MAX_RETRIES: u8 = 2;

/// What the driver of a collection has to do next.
#[derive(Debug, PartialEq, Eq)]
pub enum Work {
    /// Resolve this download, and report how it went.
    Fetch(HttpMod),
    /// Bring this repository up to date and build it, and report how it went.
    Build(GitMod),
    /// Reset the build of this repository, and report how it went.
    Clean(GitMod),
    /// Nothing: every mod has been resolved or excluded.
    Done,
}

/// A `Work` as plain text.
pub enum WorkView {
    Fetch(HttpModView),
    Build(GitModView),
    Clean(GitModView),
    Done,
}

impl View for Work {
    type V = WorkView;

    open spec fn view(&self) -> WorkView {
        match self {
            Work::Fetch(http) => WorkView::Fetch(http@),
            Work::Build(git) => WorkView::Build(git@),
            Work::Clean(git) => WorkView::Clean(git@),
            Work::Done => WorkView::Done,
        }
    }
}

/// The state of a collection: the mods before `next` are done with, each
/// either resolved to a jar in `jars` or listed in `excluded`; the mod at
/// `next` has failed `failures` times so far, and `resetting` says that its
/// build is being reset after a failure.
#[derive(Debug)]
pub struct Collector {
    mods: Vec<Mod>,
    next: usize,
    failures: u8,
    resetting: bool,
    jars: Vec<String>,
    excluded: Vec<usize>,
}

/// A `Collector` as plain values.
pub struct CollectorView {
    pub mods: Seq<ModView>,
    pub next: nat,
    pub failures: nat,
    pub resetting: bool,
    pub jars: Seq<Seq<char>>,
    pub excluded: Seq<nat>,
}

impl View for Collector {
    type V = CollectorView;

    closed spec fn view(&self) -> CollectorView {
        CollectorView {
            mods: self.mods@.map_values(|m: Mod| m@),
            next: self.next as nat,
            failures: self.failures as nat,
            resetting: self.resetting,
            jars: texts(self.jars@),
            excluded: self.excluded@.map_values(|i: usize| i as nat),
        }
    }
}

/// The state in which the mod at `next` is done with and the one behind it
/// is fresh.
pub open spec fn advanced(s: CollectorView) -> CollectorView {
    CollectorView { next: s.next + 1, failures: 0, resetting: false, ..s }
}

/// Local files need no work: their paths are taken at once, in their turn.
pub open spec fn settled(s: CollectorView) -> CollectorView
    decreases s.mods.len() - s.next,
{
    if s.next < s.mods.len() {
        match s.mods[s.next as int] {
            ModView::File(file) => settled(
                advanced(CollectorView { jars: s.jars.push(file.path), ..s }),
            ),
            _ => s,
        }
    } else {
        s
    }
}

/// The state in which the mod at `next` has been resolved to `jar`.
pub open spec fn included(s: CollectorView, jar: Seq<char>) -> CollectorView {
    settled(advanced(CollectorView { jars: s.jars.push(jar), ..s }))
}

/// The state in which the mod at `next` has been given up.
pub open spec fn dropped(s: CollectorView) -> CollectorView {
    settled(advanced(CollectorView { excluded: s.excluded.push(s.next), ..s }))
}

/// The state in which the collection of `mods` starts.
pub open spec fn started(mods: Seq<ModView>) -> CollectorView {
    settled(
        CollectorView {
            mods,
            next: 0,
            failures: 0,
            resetting: false,
            jars: Seq::empty(),
            excluded: Seq::empty(),
        },
    )
}

/// What is to be done in state `s`.
pub open spec fn work_of(s: CollectorView) -> WorkView {
    if s.next < s.mods.len() {
        match s.mods[s.next as int] {
            ModView::Http(http) => WorkView::Fetch(http),
            ModView::Git(git) => if s.resetting {
                WorkView::Clean(git)
            } else {
                WorkView::Build(git)
            },
            ModView::File(_) => WorkView::Done,
        }
    } else {
        WorkView::Done
    }
}

/// The state after an attempt to resolve the mod at `next` has ended with
/// `outcome`. A jar is taken. A failure is followed by another attempt, for
/// a repository after a reset, unless it was the last attempt allowed; then
/// the mod is given up and the collection goes on behind it. A report that
/// nothing was waiting for changes nothing.
pub open spec fn after_resolved(s: CollectorView, outcome: Result<Seq<char>, Error>)
    -> CollectorView {
    if work_of(s) is Fetch || work_of(s) is Build {
        match outcome {
            Ok(jar) => included(s, jar),
            Err(_) => if s.failures + 1 < MAX_RETRIES {
                CollectorView { failures: s.failures + 1, resetting: work_of(s) is Build, ..s }
            } else {
                dropped(s)
            },
        }
    } else {
        s
    }
}

/// The state after the reset of the mod at `next` has ended with `outcome`.
/// After a reset that worked the mod is attempted again; one that failed
/// ends the mod. A report that nothing was waiting for changes nothing.
pub open spec fn after_reset(s: CollectorView, outcome: Result<(), Error>) -> CollectorView {
    if work_of(s) is Clean {
        match outcome {
            Ok(_) => CollectorView { resetting: false, ..s },
            Err(_) => dropped(s),
        }
    } else {
        s
    }
}

/// What holds of every state that a collection reaches.
pub open spec fn coherent(s: CollectorView) -> bool {
    &&& s.next <= s.mods.len()
    &&& s.failures < MAX_RETRIES
    &&& s.next < s.mods.len() ==> !(s.mods[s.next as int] is File)
    &&& s.next == s.mods.len() ==> s.failures == 0
    &&& s.resetting ==> s.next < s.mods.len() && s.mods[s.next as int] is Git && s.failures == 1
    &&& s.jars.len() + s.excluded.len() == s.next
    &&& rising_below(s.excluded, s.next)
}

/// `excluded` lists positions before `next`, each once, the earlier first.
pub open spec fn rising_below(excluded: Seq<nat>, next: nat) -> bool {
    &&& forall|k: int| 0 <= k < excluded.len() ==> #[trigger] excluded[k] < next
    &&& forall|k: int, l: int| 0 <= k < l < excluded.len() ==> excluded[k] < excluded[l]
}

/// Taking the local files that come next keeps a collection coherent, adds
/// to the jars without touching those already there, and excludes nothing.
pub proof fn lemma_settled(s: CollectorView)
    requires
        s.next <= s.mods.len(),
        s.failures == 0,
        !s.resetting,
        s.jars.len() + s.excluded.len() == s.next,
        rising_below(s.excluded, s.next),
    ensures
        coherent(settled(s)),
        settled(s).mods == s.mods,
        settled(s).excluded == s.excluded,
        settled(s).next >= s.next,
        s.jars.is_prefix_of(settled(s).jars),
    decreases s.mods.len() - s.next,
{
    if s.next < s.mods.len() {
        match s.mods[s.next as int] {
            ModView::File(file) => {
                let t = advanced(CollectorView { jars: s.jars.push(file.path), ..s });
                lemma_settled(t);
            },
            _ => {},
        }
    }
}

/// An upper bound on the reports that a collection still takes before its
/// work is done: three for each mod not yet begun, fewer for one under way.
pub open spec fn reports_left(s: CollectorView) -> int {
    3 * (s.mods.len() - s.next) - if s.failures == 0 {
        0int
    } else if s.resetting {
        1int
    } else {
        2int
    }
}

/// Every report leaves a collection coherent, keeps the jars and the
/// exclusions it had, in their order, and never goes back to an earlier mod.
/// So the failure of one mod takes nothing from the others.
pub proof fn lemma_reports_keep_jars(
    s: CollectorView,
    resolved: Result<Seq<char>, Error>,
    reset: Result<(), Error>,
)
    requires
        coherent(s),
    ensures
        coherent(after_resolved(s, resolved)),
        coherent(after_reset(s, reset)),
        after_resolved(s, resolved).mods == s.mods,
        after_reset(s, reset).mods == s.mods,
        s.jars.is_prefix_of(after_resolved(s, resolved).jars),
        s.jars.is_prefix_of(after_reset(s, reset).jars),
        s.excluded.is_prefix_of(after_resolved(s, resolved).excluded),
        s.excluded.is_prefix_of(after_reset(s, reset).excluded),
        after_resolved(s, resolved).next >= s.next,
        after_reset(s, reset).next >= s.next,
{
    if s.next < s.mods.len() {
        let gone = advanced(CollectorView { excluded: s.excluded.push(s.next), ..s });
        lemma_settled(gone);
        if let Ok(jar) = resolved {
            let kept = advanced(CollectorView { jars: s.jars.push(jar), ..s });
            lemma_settled(kept);
        }
    }
}

/// Where the work is done, every mod has been resolved or excluded.
pub proof fn lemma_done_accounts_for_all(s: CollectorView)
    requires
        coherent(s),
        work_of(s) is Done,
    ensures
        s.next == s.mods.len(),
        s.jars.len() + s.excluded.len() == s.mods.len(),
{
}

/// A collection ends: each report that was asked for brings it closer to
/// the state in which its work is done, which takes at most three reports
/// for each mod.
pub proof fn lemma_reports_run_out(
    s: CollectorView,
    resolved: Result<Seq<char>, Error>,
    reset: Result<(), Error>,
)
    requires
        coherent(s),
    ensures
        0 <= reports_left(s) <= 3 * s.mods.len(),
        work_of(s) is Done <==> reports_left(s) == 0,
        work_of(s) is Fetch || work_of(s) is Build ==> reports_left(after_resolved(s, resolved))
            < reports_left(s),
        work_of(s) is Clean ==> reports_left(after_reset(s, reset)) < reports_left(s),
{
    if s.next < s.mods.len() {
        lemma_settled(advanced(CollectorView { excluded: s.excluded.push(s.next), ..s }));
        if let Ok(jar) = resolved {
            lemma_settled(advanced(CollectorView { jars: s.jars.push(jar), ..s }));
        }
    }
}

/// A mod whose first attempt fails and whose second attempt yields a jar is
/// resolved to that jar. Between the two attempts a repository is reset
/// exactly once; a download is attempted again at once.
pub proof fn lemma_one_failure_is_retried(s: CollectorView, first: Error, jar: Seq<char>)
    requires
        coherent(s),
        work_of(s) is Fetch || work_of(s) is Build,
        s.failures == 0,
    ensures
        ({
            let failed = after_resolved(s, Err(first));
            let again = if work_of(s) is Build {
                after_reset(failed, Ok(()))
            } else {
                failed
            };
            &&& work_of(s) matches WorkView::Build(git) ==> work_of(failed) == WorkView::Clean(git)
            &&& failed.next == s.next && failed.jars == s.jars && failed.excluded == s.excluded
            &&& work_of(again) == work_of(s)
            &&& after_resolved(again, Ok(jar)) == included(s, jar)
            &&& included(s, jar).excluded == s.excluded
            &&& s.jars.push(jar).is_prefix_of(included(s, jar).jars)
        }),
{
    let kept = advanced(CollectorView { jars: s.jars.push(jar), ..s });
    lemma_settled(kept);
}

/// A mod that fails twice is given up after exactly two attempts: the second
/// failure excludes it, adds no jar for it, and moves on to the mods behind
/// it. The same holds where the reset between the attempts fails.
pub proof fn lemma_two_failures_exclude(s: CollectorView, first: Error, second: Error)
    requires
        coherent(s),
        work_of(s) is Fetch || work_of(s) is Build,
        s.failures == 0,
    ensures
        ({
            let failed = after_resolved(s, Err(first));
            let again = if work_of(s) is Build {
                after_reset(failed, Ok(()))
            } else {
                failed
            };
            &&& work_of(again) == work_of(s)
            &&& after_resolved(again, Err(second)) == dropped(s)
            &&& work_of(s) is Build ==> after_reset(failed, Err(second)) == dropped(s)
            &&& dropped(s).excluded == s.excluded.push(s.next)
            &&& dropped(s).next > s.next
            &&& s.jars.is_prefix_of(dropped(s).jars)
        }),
{
    let gone = advanced(CollectorView { excluded: s.excluded.push(s.next), ..s });
    lemma_settled(gone);
}

impl HttpMod {
    /// A copy that holds the same text.
    pub fn duplicate(&self) -> (copy: HttpMod)
        ensures
            copy@ == self@,
    {
        HttpMod { url: self.url.clone() }
    }
}

impl GitMod {
    /// A copy that holds the same text.
    pub fn duplicate(&self) -> (copy: GitMod)
        ensures
            copy@ == self@,
    {
        GitMod { url: self.url.clone(), branch: clone_text(&self.branch) }
    }
}

impl Collector {
    /// What holds of every collector that this module hands out.
    pub open spec fn wf(&self) -> bool {
        coherent(self@)
    }

    fn settle(&mut self)
        requires
            old(self).next <= old(self).mods.len(),
        ensures
            final(self)@ == settled(old(self)@),
    {
        while self.next < self.mods.len()
            invariant
                self.next <= self.mods.len(),
                settled(self@) == settled(old(self)@),
            decreases self.mods.len() - self.next,
        {
            match &self.mods[self.next] {
                Mod::File(file) => {
                    let path = file.path.clone();
                    proof {
                        assert(texts(self.jars@.push(path)) =~= texts(self.jars@).push(path@));
                    }
                    self.jars.push(path);
                    self.next = self.next + 1;
                    self.failures = 0;
                    self.resetting = false;
                },
                _ => {
                    return ;
                },
            }
        }
    }

    /// What the driver has to do now.
    pub fn work(&self) -> (work: Work)
        requires
            self.wf(),
        ensures
            work@ == work_of(self@),
    {
        if self.next < self.mods.len() {
            match &self.mods[self.next] {
                Mod::Http(http) => Work::Fetch(http.duplicate()),
                Mod::Git(git) => if self.resetting {
                    Work::Clean(git.duplicate())
                } else {
                    Work::Build(git.duplicate())
                },
                Mod::File(_) => Work::Done,
            }
        } else {
            Work::Done
        }
    }

    fn take_jar(&mut self, jar: String)
        requires
            old(self).wf(),
            old(self).next < old(self).mods.len(),
        ensures
            final(self).wf(),
            final(self)@ == included(old(self)@, jar@),
    {
        proof {
            assert(texts(self.jars@.push(jar)) =~= texts(self.jars@).push(jar@));
        }
        self.jars.push(jar);
        self.next = self.next + 1;
        self.failures = 0;
        self.resetting = false;
        proof {
            lemma_settled(self@);
        }
        self.settle();
    }

    fn drop_mod(&mut self)
        requires
            old(self).wf(),
            old(self).next < old(self).mods.len(),
        ensures
            final(self).wf(),
            final(self)@ == dropped(old(self)@),
    {
        proof {
            assert(self.excluded@.push(self.next).map_values(|i: usize| i as nat)
                =~= self.excluded@.map_values(|i: usize| i as nat).push(self.next as nat));
        }
        self.excluded.push(self.next);
        self.next = self.next + 1;
        self.failures = 0;
        self.resetting = false;
        proof {
            lemma_settled(self@);
        }
        self.settle();
    }

    /// Takes the report that the attempt asked for by `work` has ended with
    /// `outcome`.
    pub fn resolved(&mut self, outcome: Result<String, Error>)
        requires
            old(self).wf(),
        ensures
            final(self).wf(),
            final(self)@ == after_resolved(
                old(self)@,
                match outcome {
                    Ok(jar) => Ok(jar@),
                    Err(e) => Err(e),
                },
            ),
    {
        if self.next >= self.mods.len() || self.resetting {
            return ;
        }
        match outcome {
            Ok(jar) => {
                self.take_jar(jar);
            },
            Err(_) => {
                if self.failures + 1 < MAX_RETRIES {
                    let git = match &self.mods[self.next] {
                        Mod::Git(_) => true,
                        _ => false,
                    };
                    self.failures = self.failures + 1;
                    if git {
                        self.resetting = true;
                    }
                } else {
                    self.drop_mod();
                }
            },
        }
    }

    /// Takes the report that the reset asked for by `work` has ended with
    /// `outcome`.
    pub fn was_reset(&mut self, outcome: Result<(), Error>)
        requires
            old(self).wf(),
        ensures
            final(self).wf(),
            final(self)@ == after_reset(old(self)@, outcome),
    {
        if self.next >= self.mods.len() || !self.resetting {
            return ;
        }
        match outcome {
            Ok(_) => {
                self.resetting = false;
            },
            Err(_) => {
                self.drop_mod();
            },
        }
    }

    /// The jars collected so far, in the order of their mods.
    pub fn jars(&self) -> (jars: &Vec<String>)
        ensures
            texts(jars@) == self@.jars,
    {
        &self.jars
    }

    /// The positions of the mods given up so far, in rising order of time.
    pub fn excluded(&self) -> (excluded: &Vec<usize>)
        ensures
            excluded@.map_values(|i: usize| i as nat) == self@.excluded,
    {
        &self.excluded
    }
}

impl Mods {
    /// Starts turning the mods into jars, one after the other in their
    /// order. The collector says what to do; the reports of how it went
    /// drive it on until its work is `Done`.
    pub fn collect_jars(self) -> (collector: Collector)
        ensures
            collector.wf(),
            collector@ == started(self@),
    {
        let mut collector = Collector {
            mods: self.mods,
            next: 0,
            failures: 0,
            resetting: false,
            jars: Vec::new(),
            excluded: Vec::new(),
        };
        assert(texts(collector.jars@) =~= Seq::<Seq<char>>::empty());
        assert(collector.excluded@.map_values(|i: usize| i as nat) =~= Seq::<nat>::empty());
        proof {
            lemma_settled(collector@);
        }
        collector.settle();
        collector
    }
}

} // verus!
