//! The store of workspaces and the operations that change it.
//!
//! The store keeps its workspaces sorted by name, so every walk over it is in
//! the order of names and the first workspace that matches an identity is the
//! one with the smallest name.

use vstd::prelude::*;
use crate::names::{
    compare_names, lemma_name_lt_asymmetric, lemma_name_lt_transitive, name_lt, same_text,
    NameOrder,
};
use crate::model::{
    add_effect, add_outcome, as_store, delete_effect, distinct_names, first_match,
    lemma_store_of_keys, store_of, fresh_workspace, get_outcome,
    insertion_point, lemma_absent_at_insertion_point, lemma_entry_found, lemma_insert_entry,
    lemma_remove_entry, lemma_update_entry, lookup_outcome, matches_identity, index_of,
    no_match, patterns_effect, repatterned_workspace, revised_workspace, sorted_by_name,
    update_effect, ConfigError, PersistError, StoreMap, WorkspaceView,
};
use crate::patterns::{copy_patterns, merge_into};
use crate::text::text_views;

verus! {

/// The identity that a workspace stands for, and the URL patterns kept with it.
#[derive(Debug, Clone, PartialEq, Eq)]
pub struct WorkspaceConfig {
    pub name: String,
    pub email: String,
    pub patterns: Vec<String>,
}

impl View for WorkspaceConfig {
    type V = WorkspaceView;

    open spec fn view(&self) -> WorkspaceView {
        WorkspaceView {
            name: self.name@,
            email: self.email@,
            patterns: text_views(self.patterns@),
        }
    }
}

/// All workspaces, each under its name, in the order of names.
#[derive(Debug)]
pub struct Config {
    pub workspaces: Vec<(String, WorkspaceConfig)>,
}

impl View for Config {
    type V = StoreMap;

    open spec fn view(&self) -> StoreMap {
        as_store(self.entries())
    }
}

/// The names and workspaces of a list, as plain values.
pub open spec fn entry_views(entries: Seq<(String, WorkspaceConfig)>) -> Seq<
    (Seq<char>, WorkspaceView),
> {
    entries.map_values(|e: (String, WorkspaceConfig)| (e.0@, e.1@))
}

/// What was found where the store is kept.
#[derive(Debug, Clone, PartialEq, Eq)]
pub enum StoredFile {
    /// There is no file.
    Missing,
    /// There is a file, and it could not be read.
    Unreadable,
    /// The file was read, and its text does not hold a store.
    Unparsable,
    /// The named workspaces that the file holds, in any order.
    Parsed(Vec<(String, WorkspaceConfig)>),
}

/// What loading makes of what was found: without a file the store is
/// empty, and a file that cannot be read or understood is an error, as is
/// one that names a workspace twice.
pub open spec fn load_outcome(file: StoredFile) -> Result<StoreMap, PersistError> {
    match file {
        StoredFile::Missing => Ok(Map::empty()),
        StoredFile::Unreadable => Err(PersistError::Read),
        StoredFile::Unparsable => Err(PersistError::Parse),
        StoredFile::Parsed(entries) => if distinct_names(entry_views(entries@)) {
            Ok(store_of(entry_views(entries@)))
        } else {
            Err(PersistError::Parse)
        },
    }
}

/// The views of an optional string.
pub open spec fn optional_text(s: Option<&str>) -> Option<Seq<char>> {
    match s {
        Some(t) => Some(t@),
        None => None,
    }
}

impl WorkspaceConfig {
    /// A copy of the workspace.
    pub fn duplicate(&self) -> (r: WorkspaceConfig)
        ensures
            r@ == self@,
    {
        WorkspaceConfig {
            name: self.name.clone(),
            email: self.email.clone(),
            patterns: copy_patterns(&self.patterns),
        }
    }
}

impl Default for Config {
    fn default() -> (r: Config)
        ensures
            r.wf(),
            r@ == Map::<Seq<char>, WorkspaceView>::empty(),
            r.workspaces@.len() == 0,
    {
        let r = Config { workspaces: Vec::new() };
        proof {
            assert(r@ =~= Map::<Seq<char>, WorkspaceView>::empty());
        }
        r
    }
}

impl Config {
    /// The names and workspaces of the store, in the order in which it keeps
    /// them.
    pub open spec fn entries(&self) -> Seq<(Seq<char>, WorkspaceView)> {
        entry_views(self.workspaces@)
    }

    /// The store is sorted by name; no name occurs twice.
    pub open spec fn wf(&self) -> bool {
        sorted_by_name(self.entries())
    }

    /// Whether the store is sorted by name, as every operation expects it.
    pub fn is_well_formed(&self) -> (r: bool)
        ensures
            r == self.wf(),
    {
        let ghost s = self.entries();
        if self.workspaces.len() == 0 {
            return true;
        }
        let mut i: usize = 1;
        while i < self.workspaces.len()
            invariant
                1 <= i <= self.workspaces@.len(),
                s == self.entries(),
                sorted_by_name(s.take(i as int)),
            decreases self.workspaces@.len() - i,
        {
            let ghost seen = s.take(i as int);
            let ghost next = s.take(i as int + 1);
            match compare_names(self.workspaces[i - 1].0.as_str(), self.workspaces[i].0.as_str()) {
                NameOrder::Before => {
                    proof {
                        assert forall|a: int, b: int| 0 <= a < b < next.len() implies name_lt(
                            (#[trigger] next[a]).0,
                            (#[trigger] next[b]).0,
                        ) by {
                            assert(next[a] == s[a] && next[b] == s[b]);
                            if b < i {
                                assert(seen[a] == s[a] && seen[b] == s[b]);
                            } else if a < i - 1 {
                                assert(seen[a] == s[a] && seen[i - 1] == s[i - 1]);
                                lemma_name_lt_transitive(s[a].0, s[i - 1].0, s[i as int].0);
                            }
                        }
                    }
                },
                _ => {
                    proof {
                        if name_lt(s[i - 1].0, s[i as int].0) {
                            lemma_name_lt_asymmetric(s[i - 1].0, s[i as int].0);
                        }
                    }
                    return false;
                },
            }
            i += 1;
        }
        proof {
            assert(s.take(i as int) =~= s);
        }
        true
    }

    /// Finds `name`: its position and `true`, or the position at which it
    /// would have to be inserted and `false`.
    fn locate(&self, name: &str) -> (r: (usize, bool))
        requires
            self.wf(),
        ensures
            r.1 == self@.contains_key(name@),
            r.1 ==> r.0 < self.workspaces@.len() && self.entries()[r.0 as int].0 == name@
                && self@[name@] == self.entries()[r.0 as int].1,
            !r.1 ==> insertion_point(self.entries(), name@, r.0 as int),
    {
        let mut i: usize = 0;
        while i < self.workspaces.len()
            invariant
                self.wf(),
                i <= self.workspaces@.len(),
                forall|j: int| 0 <= j < i ==> name_lt((#[trigger] self.entries()[j]).0, name@),
            decreases self.workspaces@.len() - i,
        {
            match compare_names(self.workspaces[i].0.as_str(), name) {
                NameOrder::Before => {
                    i += 1;
                },
                NameOrder::Same => {
                    proof {
                        lemma_entry_found(self.entries(), i as int);
                    }
                    return (i, true);
                },
                NameOrder::After => {
                    proof {
                        lemma_absent_at_insertion_point(self.entries(), name@, i as int);
                    }
                    return (i, false);
                },
            }
        }
        proof {
            lemma_absent_at_insertion_point(self.entries(), name@, i as int);
        }
        (i, false)
    }

    /// Puts `workspace` into the store under `name`, which must be new.
    pub fn insert_workspace(&mut self, name: String, workspace: WorkspaceConfig) -> (r: Result<
        (),
        ConfigError,
    >)
        requires
            old(self).wf(),
        ensures
            final(self).wf(),
            r == add_outcome(old(self)@, name@),
            r is Ok ==> final(self)@ == old(self)@.insert(name@, workspace@),
            r is Ok ==> final(self).workspaces@.len() == old(self).workspaces@.len() + 1,
            r is Err ==> *final(self) == *old(self),
    {
        let (i, found) = self.locate(name.as_str());
        if found {
            return Err(ConfigError::DuplicateWorkspace);
        }
        proof {
            lemma_insert_entry(self.entries(), i as int, (name@, workspace@));
        }
        self.workspaces.insert(i, (name, workspace));
        proof {
            assert(self.entries() =~= old(self).entries().insert(i as int, (name@, workspace@)));
        }
        Ok(())
    }

    /// The store that was found where it is kept.
    pub fn load(file: &StoredFile) -> (r: Result<Config, PersistError>)
        ensures
            match r {
                Ok(c) => c.wf() && load_outcome(*file) == Ok::<StoreMap, PersistError>(c@),
                Err(e) => load_outcome(*file) == Err::<StoreMap, PersistError>(e),
            },
    {
        match file {
            StoredFile::Missing => Ok(Config::default()),
            StoredFile::Unreadable => Err(PersistError::Read),
            StoredFile::Unparsable => Err(PersistError::Parse),
            StoredFile::Parsed(entries) => match Config::from_entries(entries) {
                Ok(c) => Ok(c),
                Err(_) => Err(PersistError::Parse),
            },
        }
    }

    /// What is to be kept of the store: all its workspaces, each under its
    /// name.
    pub fn save(&self) -> (r: StoredFile)
        ensures
            r matches StoredFile::Parsed(entries) && entry_views(entries@) == self.entries(),
    {
        let mut entries: Vec<(String, WorkspaceConfig)> = Vec::new();
        let mut i: usize = 0;
        while i < self.workspaces.len()
            invariant
                i <= self.workspaces@.len(),
                entry_views(entries@) == self.entries().take(i as int),
            decreases self.workspaces@.len() - i,
        {
            let name = self.workspaces[i].0.clone();
            let workspace = self.workspaces[i].1.duplicate();
            let ghost before = entry_views(entries@);
            let ghost kept = (name@, workspace@);
            entries.push((name, workspace));
            proof {
                assert(entry_views(entries@) =~= before.push(kept));
                assert(self.entries()[i as int] == kept);
                assert(self.entries().take(i as int + 1) =~= self.entries().take(i as int).push(
                    kept,
                ));
            }
            i += 1;
        }
        proof {
            assert(self.entries().take(i as int) =~= self.entries());
        }
        StoredFile::Parsed(entries)
    }

    /// Builds a store from named workspaces in any order. A name that occurs
    /// twice is refused.
    pub fn from_entries(entries: &Vec<(String, WorkspaceConfig)>) -> (r: Result<Config, ConfigError>)
        ensures
            match r {
                Ok(c) => {
                    &&& c.wf()
                    &&& distinct_names(entry_views(entries@))
                    &&& c@ == store_of(entry_views(entries@))
                    &&& c.workspaces@.len() == entries@.len()
                },
                Err(e) => e == ConfigError::DuplicateWorkspace && !distinct_names(
                    entry_views(entries@),
                ),
            },
    {
        let ghost all = entry_views(entries@);
        let mut config = Config::default();
        let mut i: usize = 0;
        proof {
            assert(all.take(0) =~= Seq::empty());
        }
        while i < entries.len()
            invariant
                i <= entries@.len(),
                all == entry_views(entries@),
                config.wf(),
                config.workspaces@.len() == i,
                config@ == store_of(all.take(i as int)),
                distinct_names(all.take(i as int)),
            decreases entries@.len() - i,
        {
            let ghost seen = all.take(i as int);
            let ghost next = all.take(i as int + 1);
            proof {
                assert(next.drop_last() =~= seen);
                assert(next.last() == all[i as int]);
                lemma_store_of_keys(seen, all[i as int].0);
            }
            let name = entries[i].0.clone();
            let workspace = entries[i].1.duplicate();
            match config.insert_workspace(name, workspace) {
                Ok(_) => {
                    proof {
                        assert forall|a: int, b: int| 0 <= a < b < next.len() implies (
                        #[trigger] next[a]).0 != (#[trigger] next[b]).0 by {
                            assert(next[a] == all[a] && next[b] == all[b]);
                            if b < i {
                                assert(seen[a] == all[a] && seen[b] == all[b]);
                            } else {
                                assert(seen[a].0 == all[a].0);
                            }
                        }
                    }
                },
                Err(e) => {
                    proof {
                        let j = choose|j: int|
                            0 <= j < seen.len() && (#[trigger] seen[j]).0 == all[i as int].0;
                        assert(all[j] == seen[j]);
                    }
                    return Err(e);
                },
            }
            i += 1;
        }
        proof {
            assert(all.take(i as int) =~= all);
        }
        Ok(config)
    }

    /// Adds a workspace without patterns. A name that is already in the
    /// store is refused, and the store stays as it was.
    pub fn add_workspace(&mut self, name: &str, user_name: &str, email: &str) -> (r: Result<
        (),
        ConfigError,
    >)
        requires
            old(self).wf(),
        ensures
            final(self).wf(),
            r == add_outcome(old(self)@, name@),
            final(self)@ == add_effect(old(self)@, name@, user_name@, email@),
            r is Ok ==> final(self).workspaces@.len() == old(self).workspaces@.len() + 1,
            r is Err ==> *final(self) == *old(self),
    {
        let workspace = WorkspaceConfig {
            name: user_name.to_owned(),
            email: email.to_owned(),
            patterns: Vec::new(),
        };
        proof {
            assert(workspace@.patterns =~= Seq::<Seq<char>>::empty());
            assert(workspace@ == fresh_workspace(user_name@, email@));
        }
        self.insert_workspace(name.to_owned(), workspace)
    }

    /// Replaces the user name and the e-mail address that are given and keeps
    /// the rest. A name that is not in the store is refused.
    pub fn update_workspace(
        &mut self,
        name: &str,
        user_name: Option<&str>,
        email: Option<&str>,
    ) -> (r: Result<(), ConfigError>)
        requires
            old(self).wf(),
        ensures
            final(self).wf(),
            r == lookup_outcome(old(self)@, name@),
            final(self)@ == update_effect(
                old(self)@,
                name@,
                optional_text(user_name),
                optional_text(email),
            ),
            final(self).workspaces@.len() == old(self).workspaces@.len(),
            r is Err ==> *final(self) == *old(self),
    {
        let (i, found) = self.locate(name);
        if !found {
            return Err(ConfigError::WorkspaceNotFound);
        }
        let ghost revised = revised_workspace(
            self@[name@],
            optional_text(user_name),
            optional_text(email),
        );
        proof {
            lemma_update_entry(self.entries(), i as int, revised);
        }
        if let Some(u) = user_name {
            self.workspaces[i].1.name = u.to_owned();
        }
        if let Some(e) = email {
            self.workspaces[i].1.email = e.to_owned();
        }
        proof {
            assert(self.entries() =~= old(self).entries().update(i as int, (name@, revised)));
        }
        Ok(())
    }

    /// Updates the patterns of a workspace: on a reset the list becomes
    /// `patterns` as given; otherwise each pattern that the list does not
    /// hold yet is appended, in the order given.
    pub fn update_workspace_patterns(
        &mut self,
        name: &str,
        patterns: Vec<String>,
        reset: bool,
    ) -> (r: Result<(), ConfigError>)
        requires
            old(self).wf(),
        ensures
            final(self).wf(),
            r == lookup_outcome(old(self)@, name@),
            final(self)@ == patterns_effect(old(self)@, name@, text_views(patterns@), reset),
            final(self).workspaces@.len() == old(self).workspaces@.len(),
            r is Err ==> *final(self) == *old(self),
    {
        let (i, found) = self.locate(name);
        if !found {
            return Err(ConfigError::WorkspaceNotFound);
        }
        let ghost revised = repatterned_workspace(self@[name@], text_views(patterns@), reset);
        proof {
            lemma_update_entry(self.entries(), i as int, revised);
        }
        if reset {
            self.workspaces[i].1.patterns = patterns;
        } else {
            merge_into(&mut self.workspaces[i].1.patterns, &patterns);
        }
        proof {
            assert(self.entries() =~= old(self).entries().update(i as int, (name@, revised)));
        }
        Ok(())
    }

    /// The workspace of that name.
    pub fn get_workspace(&self, name: &str) -> (r: Result<&WorkspaceConfig, ConfigError>)
        requires
            self.wf(),
        ensures
            match r {
                Ok(w) => get_outcome(self@, name@) == Ok::<WorkspaceView, ConfigError>(w@),
                Err(e) => get_outcome(self@, name@) == Err::<WorkspaceView, ConfigError>(e),
            },
    {
        let (i, found) = self.locate(name);
        if found {
            Ok(&self.workspaces[i].1)
        } else {
            Err(ConfigError::WorkspaceNotFound)
        }
    }

    /// Removes the workspace of that name.
    pub fn delete_workspace(&mut self, name: &str) -> (r: Result<(), ConfigError>)
        requires
            old(self).wf(),
        ensures
            final(self).wf(),
            r == lookup_outcome(old(self)@, name@),
            final(self)@ == delete_effect(old(self)@, name@),
            r is Ok ==> final(self).workspaces@.len() + 1 == old(self).workspaces@.len(),
            r is Err ==> *final(self) == *old(self),
    {
        let (i, found) = self.locate(name);
        if !found {
            return Err(ConfigError::WorkspaceNotFound);
        }
        proof {
            lemma_remove_entry(self.entries(), i as int);
        }
        let _ = self.workspaces.remove(i);
        proof {
            assert(self.entries() =~= old(self).entries().remove(i as int));
        }
        Ok(())
    }

    /// The names of all workspaces, in the order of names.
    pub fn workspace_names(&self) -> (r: Vec<String>)
        ensures
            r@.len() == self.workspaces@.len(),
            forall|i: int| 0 <= i < r@.len() ==> (#[trigger] r@[i])@ == self.entries()[i].0,
    {
        let mut r: Vec<String> = Vec::new();
        let mut i: usize = 0;
        while i < self.workspaces.len()
            invariant
                i <= self.workspaces@.len(),
                r@.len() == i,
                forall|j: int| 0 <= j < i ==> (#[trigger] r@[j])@ == self.entries()[j].0,
            decreases self.workspaces@.len() - i,
        {
            r.push(self.workspaces[i].0.clone());
            i += 1;
        }
        r
    }

    /// The first workspace, in the order of names, whose user name and e-mail
    /// address are the ones given.
    pub fn find_matching_workspace(&self, name: &str, email: &str) -> (r: Option<
        (&String, &WorkspaceConfig),
    >)
        requires
            self.wf(),
        ensures
            match r {
                Some((n, w)) => first_match(self@, n@, name@, email@) && self@[n@] == w@,
                None => no_match(self@, name@, email@),
            },
    {
        let mut i: usize = 0;
        while i < self.workspaces.len()
            invariant
                self.wf(),
                i <= self.workspaces@.len(),
                forall|j: int|
                    0 <= j < i ==> !matches_identity((#[trigger] self.entries()[j]).1, name@, email@),
            decreases self.workspaces@.len() - i,
        {
            let entry = &self.workspaces[i];
            if same_text(entry.1.name.as_str(), name) && same_text(entry.1.email.as_str(), email) {
                proof {
                    let s = self.entries();
                    lemma_entry_found(s, i as int);
                    assert forall|other: Seq<char>|
                        self@.contains_key(other) && matches_identity(
                            #[trigger] self@[other],
                            name@,
                            email@,
                        ) implies other == s[i as int].0 || name_lt(s[i as int].0, other) by {
                        let j = index_of(s, other);
                        assert(s[j].0 == other);
                    }
                }
                return Some((&entry.0, &entry.1));
            }
            i += 1;
        }
        proof {
            let s = self.entries();
            assert forall|other: Seq<char>| self@.contains_key(other) implies !matches_identity(
                #[trigger] self@[other],
                name@,
                email@,
            ) by {
                let j = index_of(s, other);
                assert(s[j].0 == other);
            }
        }
        None
    }
}

} // verus!
