//! What the configuration file declares.

use vstd::prelude::*;

verus! {

/// One declared mod. Exactly one of `url`, `git` and `path` should be set;
/// `branch` goes with `git` alone.
#[derive(Debug, Clone, PartialEq, Eq)]
pub struct Mod {
    pub url: Option<String>,
    pub git: Option<String>,
    pub branch: Option<String>,
    pub path: Option<String>,
}

/// A declared mod as plain text.
pub struct EntryView {
    pub url: Option<Seq<char>>,
    pub git: Option<Seq<char>>,
    pub branch: Option<Seq<char>>,
    pub path: Option<Seq<char>>,
}

impl View for Mod {
    type V = EntryView;

    open spec fn view(&self) -> EntryView {
        EntryView {
            url: self.url.deep_view(),
            git: self.git.deep_view(),
            branch: self.branch.deep_view(),
            path: self.path.deep_view(),
        }
    }
}

/// The server to run and the mods to give it. `mods` holds each mod under its
/// name, in the order in which the file declares them; no name stands twice.
#[derive(Debug, Clone, PartialEq, Eq)]
pub struct Config {
    pub server_jar: String,
    pub jvm: Option<String>,
    pub mods: Vec<(String, Mod)>,
}

/// A `Config` as plain text.
pub struct ConfigView {
    pub server_jar: Seq<char>,
    pub jvm: Option<Seq<char>>,
    pub mods: Seq<(Seq<char>, EntryView)>,
}

impl View for Config {
    type V = ConfigView;

    open spec fn view(&self) -> ConfigView {
        ConfigView {
            server_jar: self.server_jar@,
            jvm: self.jvm.deep_view(),
            mods: self.mods@.map_values(|entry: (String, Mod)| (entry.0@, entry.1@)),
        }
    }
}

/// No two of `mods` have the same name.
pub open spec fn distinct_names(mods: Seq<(Seq<char>, EntryView)>) -> bool {
    forall|k: int, l: int| 0 <= k < l < mods.len() ==> mods[k].0 != mods[l].0
}

/// `name` is the name of none of `mods`.
pub open spec fn is_new(mods: Seq<(Seq<char>, EntryView)>, name: Seq<char>) -> bool {
    forall|k: int| 0 <= k < mods.len() ==> (#[trigger] mods[k]).0 != name
}

impl Config {
    /// No name stands twice among the mods.
    pub open spec fn wf(&self) -> bool {
        distinct_names(self@.mods)
    }

    /// Declares `entry` under `name`. A mod declared under that name before
    /// is replaced where it stands; a new name comes last.
    pub fn insert(&mut self, name: String, entry: Mod)
        requires
            old(self).wf(),
        ensures
            final(self).wf(),
            final(self)@.server_jar == old(self)@.server_jar,
            final(self)@.jvm == old(self)@.jvm,
            is_new(old(self)@.mods, name@) ==> final(self)@.mods == old(self)@.mods.push(
                (name@, entry@),
            ),
            forall|k: int|
                0 <= k < old(self)@.mods.len() && (#[trigger] old(self)@.mods[k]).0 == name@
                    ==> final(self)@.mods == old(self)@.mods.update(k, (name@, entry@)),
    {
        let ghost before = self@.mods;
        let mut i: usize = 0;
        while i < self.mods.len()
            invariant
                i <= self.mods.len(),
                self@.mods == before,
                distinct_names(before),
                *self == *old(self),
                forall|k: int| 0 <= k < i ==> (#[trigger] before[k]).0 != name@,
            decreases self.mods.len() - i,
        {
            if self.mods[i].0 == name {
                assert(before[i as int].0 == name@);
                self.mods.set(i, (name, entry));
                assert(self@.mods =~= before.update(i as int, (name@, entry@)));
                assert forall|k: int| 0 <= k < before.len() && (#[trigger] before[k]).0
                    == name@ implies k == i by {}
                return ;
            }
            i += 1;
        }
        self.mods.push((name, entry));
        assert(self@.mods =~= before.push((name@, entry@)));
    }
}

impl Default for Config {
    /// The configuration that is written out where none exists: no server
    /// jar, no options, no mods.
    fn default() -> (config: Config)
        ensures
            config@ == (ConfigView { server_jar: Seq::empty(), jvm: None, mods: Seq::empty() }),
            config.wf(),
    {
        let config = Config { server_jar: String::new(), jvm: None, mods: Vec::new() };
        assert(config@.mods =~= Seq::empty());
        config
    }
}

} // verus!
