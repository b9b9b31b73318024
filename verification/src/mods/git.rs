//! Mods that are cloned into the cache, kept up to date and built there.

use crate::command::{push_arg, Command, CommandView};
use crate::mods::sources::{gradle, needs_build, ModSource, ModSourceView};
use crate::mods::{GitMod, GitModView};
use crate::paths::{join, path_join};
use crate::text::{chars_of, contains, ends_with, has_substring, has_suffix, texts};
use crate::{Error, CACHE_ROOT};
use vstd::prelude::*;

verus! {

/// The version-control program.
pub const GIT: &'static str = "git";

/// The ending that the URL of a repository may have and its name has not.
pub const GIT_SUFFIX: &'static str = ".git";

/// What a pull prints when it has fetched nothing new.
pub const UP_TO_DATE: &'static str = "Already up to date.";

/// How the sources of a repository are brought up to date.
#[derive(Debug, PartialEq, Eq)]
pub enum Opening {
    /// The repository is in the cache: pull.
    Pull(Command),
    /// It is not: clone.
    Clone(Command),
}

/// An `Opening` as plain text.
pub enum OpeningView {
    Pull(CommandView),
    Clone(CommandView),
}

impl View for Opening {
    type V = OpeningView;

    open spec fn view(&self) -> OpeningView {
        match self {
            Opening::Pull(c) => OpeningView::Pull(c@),
            Opening::Clone(c) => OpeningView::Clone(c@),
        }
    }
}

/// How much of `url` stands before its last path segment: all up to and with
/// the last `/`, and nothing where it holds no `/`.
pub open spec fn segment_start(url: Seq<char>) -> int
    decreases url.len(),
{
    if url.len() == 0 {
        0
    } else if url.last() == '/' {
        url.len() as int
    } else {
        segment_start(url.drop_last())
    }
}

/// `text` without `suffix` at its end, where it ends with it.
pub open spec fn without_suffix(text: Seq<char>, suffix: Seq<char>) -> Seq<char> {
    if has_suffix(text, suffix) {
        text.take(text.len() - suffix.len())
    } else {
        text
    }
}

/// The name of the repository at `url`: what stands behind the last `/`,
/// without `.git` at its end where it ends so. There is none where the URL
/// holds no `/`, and where nothing is left for a name.
pub open spec fn repository_name_of(url: Seq<char>) -> Option<Seq<char>> {
    let name = without_suffix(url.skip(segment_start(url)), GIT_SUFFIX@);
    if segment_start(url) == 0 || name.len() == 0 {
        None
    } else {
        Some(name)
    }
}

/// The last path segment begins behind a `/` and holds none; it is all of
/// the text only where the text holds none.
pub proof fn lemma_segment_start(url: Seq<char>)
    ensures
        0 <= segment_start(url) <= url.len(),
        segment_start(url) > 0 ==> url[segment_start(url) - 1] == '/',
        forall|j: int| segment_start(url) <= j < url.len() ==> #[trigger] url[j] != '/',
    decreases url.len(),
{
    if url.len() > 0 && url.last() != '/' {
        let shorter = url.drop_last();
        lemma_segment_start(shorter);
        assert forall|j: int| segment_start(url) <= j < url.len() implies #[trigger] url[j]
            != '/' by {
            if j < shorter.len() {
                assert(url[j] == shorter[j]);
            }
        }
    }
}

/// The last path segment begins at `at` where `at` is behind a `/`, or at
/// the very beginning, and no `/` follows.
pub proof fn lemma_segment_starts_at(url: Seq<char>, at: int)
    requires
        0 <= at <= url.len(),
        at > 0 ==> url[at - 1] == '/',
        forall|j: int| at <= j < url.len() ==> url[j] != '/',
    ensures
        segment_start(url) == at,
    decreases url.len(),
{
    if url.len() > at {
        lemma_segment_starts_at(url.drop_last(), at);
    }
}

/// Where in the cache the repository at `url` is kept: directly under the
/// cache root, under its name.
pub open spec fn repository_cache_of(url: Seq<char>) -> Option<Seq<char>> {
    match repository_name_of(url) {
        Some(name) => Some(path_join(CACHE_ROOT@, name)),
        None => None,
    }
}

/// `origin` and the branch, where a branch is given.
pub open spec fn branch_args(branch: Option<Seq<char>>, before: Seq<char>) -> Seq<Seq<char>> {
    match branch {
        Some(b) => seq![before, b],
        None => Seq::empty(),
    }
}

/// `git pull [origin <branch>]`, run in the repository, its output captured.
/// A pull that ends with another status than success has failed.
pub open spec fn pull_command(root: Seq<char>, git: GitModView) -> CommandView {
    CommandView {
        program: GIT@,
        args: seq!["pull"@] + branch_args(git.branch, "origin"@),
        dir: root,
        piped: true,
        checked: true,
    }
}

/// `git clone <url> [-b <branch>] <name>`, run in the cache root. A clone
/// that ends with another status than success has failed.
pub open spec fn clone_command(name: Seq<char>, git: GitModView) -> CommandView {
    CommandView {
        program: GIT@,
        args: seq!["clone"@, git.url] + branch_args(git.branch, "-b"@) + seq![name],
        dir: CACHE_ROOT@,
        piped: false,
        checked: true,
    }
}

/// What opening the repository asks for, given whether it is in the cache.
pub open spec fn opening_of(git: GitModView, exists: bool) -> Option<OpeningView> {
    match repository_name_of(git.url) {
        Some(name) => Some(
            if exists {
                OpeningView::Pull(pull_command(path_join(CACHE_ROOT@, name), git))
            } else {
                OpeningView::Clone(clone_command(name, git))
            },
        ),
        None => None,
    }
}

/// Some line of `output` says that nothing new was fetched.
pub open spec fn up_to_date(output: Seq<Seq<char>>) -> bool {
    exists|i: int| 0 <= i < output.len() && has_substring(#[trigger] output[i], UP_TO_DATE@)
}

/// The source tree that an opening leaves at `root`. A clone has changed. A
/// pull has changed unless its output says that nothing new was fetched.
pub open spec fn opened_source(opening: OpeningView, root: Seq<char>, output: Seq<Seq<char>>)
    -> ModSourceView {
    match opening {
        OpeningView::Pull(_) => ModSourceView { root, changed: !up_to_date(output) },
        OpeningView::Clone(_) => ModSourceView { root, changed: true },
    }
}

fn push_branch(args: &mut Vec<String>, branch: &Option<String>, before: &str)
    ensures
        texts(final(args)@) == texts(old(args)@) + branch_args(branch.deep_view(), before@),
{
    match branch {
        Some(b) => {
            push_arg(args, before);
            push_arg(args, b.as_str());
        },
        None => {},
    }
}

/// The name of the repository of `git`: the last path segment of its URL,
/// without `.git` at its end where it ends so.
/// Fails with `Error::Regex` exactly where the URL holds no `/` or leaves
/// nothing for a name.
pub fn repository_name(git: &GitMod) -> (name: Result<String, Error>)
    ensures
        match name {
            Ok(n) => repository_name_of(git@.url) == Some(n@),
            Err(e) => e == Error::Regex && repository_name_of(git@.url) is None,
        },
{
    let url = git.url.as_str();
    let cs = chars_of(url);
    let mut at: usize = cs.len();
    while at > 0 && cs[at - 1] != '/'
        invariant
            at <= cs.len(),
            forall|j: int| at <= j < cs.len() ==> cs@[j] != '/',
        decreases at,
    {
        at -= 1;
    }
    proof {
        lemma_segment_starts_at(url@, at as int);
    }
    if at == 0 {
        return Err(Error::Regex);
    }
    let segment = url.substring_char(at, cs.len());
    assert(segment@ =~= url@.skip(at as int));
    let mut len: usize = cs.len() - at;
    if ends_with(segment, GIT_SUFFIX) {
        len = len - GIT_SUFFIX.unicode_len();
    }
    if len == 0 {
        return Err(Error::Regex);
    }
    let name = segment.substring_char(0, len);
    assert(name@ =~= without_suffix(segment@, GIT_SUFFIX@));
    Ok(name.to_owned())
}

/// The directory in the cache that holds the repository of `git`. It
/// depends on the URL alone, so every run finds the same directory.
/// Fails with `Error::Regex` exactly where the URL holds no `/` or leaves
/// nothing for a name.
pub fn get_repository_cache(git: &GitMod) -> (path: Result<String, Error>)
    ensures
        match path {
            Ok(p) => repository_cache_of(git@.url) == Some(p@),
            Err(e) => e == Error::Regex && repository_cache_of(git@.url) is None,
        },
{
    match repository_name(git) {
        Ok(n) => Ok(join(CACHE_ROOT, n.as_str())),
        Err(e) => Err(e),
    }
}

/// The pull that brings the repository at `root` up to date.
pub fn open_and_pull_source(root: &str, git: &GitMod) -> (command: Command)
    ensures
        command@ == pull_command(root@, git@),
{
    let mut args: Vec<String> = Vec::new();
    push_arg(&mut args, "pull");
    assert(texts(args@) =~= seq!["pull"@]);
    push_branch(&mut args, &git.branch, "origin");
    Command { program: GIT.to_owned(), args, dir: root.to_owned(), piped: true, checked: true }
}

/// The clone that puts the repository into the cache under `name`.
pub fn clone_source(name: &str, git: &GitMod) -> (command: Command)
    ensures
        command@ == clone_command(name@, git@),
{
    let mut args: Vec<String> = Vec::new();
    push_arg(&mut args, "clone");
    push_arg(&mut args, git.url.as_str());
    push_branch(&mut args, &git.branch, "-b");
    push_arg(&mut args, name);
    assert(texts(args@) =~= seq!["clone"@, git@.url] + branch_args(git@.branch, "-b"@) + seq![
        name@,
    ]);
    Command {
        program: GIT.to_owned(),
        args,
        dir: CACHE_ROOT.to_owned(),
        piped: false,
        checked: true,
    }
}

/// How to bring the sources of `git` up to date: a pull where `exists` says
/// that its directory is in the cache, a clone where it is not.
/// Fails with `Error::Regex` exactly where the URL holds no `/` or leaves
/// nothing for a name.
pub fn open_source(git: &GitMod, exists: bool) -> (opening: Result<Opening, Error>)
    ensures
        match opening {
            Ok(o) => opening_of(git@, exists) == Some(o@),
            Err(e) => e == Error::Regex && opening_of(git@, exists) is None,
        },
{
    match repository_name(git) {
        Ok(name) => {
            if exists {
                let root = join(CACHE_ROOT, name.as_str());
                Ok(Opening::Pull(open_and_pull_source(root.as_str(), git)))
            } else {
                Ok(Opening::Clone(clone_source(name.as_str(), git)))
            }
        },
        Err(e) => Err(e),
    }
}

/// Whether some line of `output` says that nothing new was fetched.
pub fn is_up_to_date(output: &Vec<String>) -> (quiet: bool)
    ensures
        quiet == up_to_date(texts(output@)),
{
    let mut i: usize = 0;
    while i < output.len()
        invariant
            i <= output.len(),
            forall|j: int| 0 <= j < i ==> !has_substring(#[trigger] texts(output@)[j], UP_TO_DATE@),
        decreases output.len() - i,
    {
        if contains(output[i].as_str(), UP_TO_DATE) {
            assert(has_substring(texts(output@)[i as int], UP_TO_DATE@));
            return true;
        }
        i += 1;
    }
    false
}

/// The source tree at `root` after `opening` has run with success and
/// printed `output`, line by line.
pub fn opened(opening: &Opening, root: String, output: &Vec<String>) -> (source: ModSource)
    ensures
        source@ == opened_source(opening@, root@, texts(output@)),
{
    match opening {
        Opening::Pull(_) => {
            if is_up_to_date(output) {
                ModSource::unchanged(root)
            } else {
                ModSource::changed(root)
            }
        },
        Opening::Clone(_) => ModSource::changed(root),
    }
}

/// The jar of a repository, given what the build left: the jar found, or
/// `Error::MissingArtifact` where none was, however the build itself ended.
pub fn get(built: Option<String>) -> (jar: Result<String, Error>)
    ensures
        match built {
            Some(path) => jar == Ok::<String, Error>(path),
            None => jar == Err::<String, Error>(Error::MissingArtifact),
        },
{
    match built {
        Some(path) => Ok(path),
        None => Err(Error::MissingArtifact),
    }
}

/// What undoes a failed build of `git`: the build tool's clean in its
/// directory where `exists` says that the directory is in the cache, and
/// nothing where it is not. The repository itself is never removed.
/// Fails with `Error::Regex` exactly where the URL holds no `/` or leaves
/// nothing for a name.
pub fn reset(git: &GitMod, exists: bool) -> (command: Result<Option<Command>, Error>)
    ensures
        match command {
            Ok(Some(c)) => {
                &&& exists
                &&& repository_cache_of(git@.url) matches Some(root)
                &&& c@ == gradle(root, seq!["clean"@])
            },
            Ok(None) => !exists && repository_cache_of(git@.url) is Some,
            Err(e) => e == Error::Regex && repository_cache_of(git@.url) is None,
        },
{
    match get_repository_cache(git) {
        Ok(root) => {
            if exists {
                Ok(Some(ModSource::unchanged(root).reset()))
            } else {
                Ok(None)
            }
        },
        Err(e) => Err(e),
    }
}

/// A pull that fetched nothing new leaves the source unchanged, and a source
/// that is unchanged and was built before is not built again. After any
/// other pull, and after every clone, the source has changed and is built
/// whether or not it was built before.
pub proof fn lemma_pull_decides_build(
    opening: OpeningView,
    root: Seq<char>,
    output: Seq<Seq<char>>,
    built: bool,
)
    ensures
        ({
            let source = opened_source(opening, root, output);
            &&& source.root == root
            &&& source.changed == !(opening is Pull && up_to_date(output))
            &&& opening is Pull && up_to_date(output) && built ==> !needs_build(source, built)
            &&& !(opening is Pull && up_to_date(output)) ==> needs_build(source, built)
        }),
{
}

} // verus!
