//! The mathematical model of a store: what a workspace is, what a sequence of
//! named workspaces holds, and what each operation makes of it.

use vstd::prelude::*;
use crate::names::{name_lt, lemma_name_lt_asymmetric, lemma_name_lt_transitive};

verus! {

/// What a workspace holds, as plain sequences of characters.
pub struct WorkspaceView {
    pub name: Seq<char>,
    pub email: Seq<char>,
    pub patterns: Seq<Seq<char>>,
}

/// Why an operation on the store was refused.
#[derive(Clone, Copy, Debug, PartialEq, Eq, Structural)]
pub enum ConfigError {
    /// A workspace of that name is already in the store.
    DuplicateWorkspace,
    /// No workspace of that name is in the store.
    WorkspaceNotFound,
}

/// Why the store could not be read from its file or written to it.
#[derive(Clone, Copy, Debug, PartialEq, Eq, Structural)]
pub enum PersistError {
    /// The file is there and could not be read.
    Read,
    /// The file was read and does not hold a store.
    Parse,
    /// The file could not be written.
    Write,
}

/// The store as a mapping from workspace name to workspace.
pub type StoreMap = Map<Seq<char>, WorkspaceView>;

/// A workspace as `add` makes it: the two fields given, and no patterns.
pub open spec fn fresh_workspace(user_name: Seq<char>, email: Seq<char>) -> WorkspaceView {
    WorkspaceView { name: user_name, email, patterns: Seq::empty() }
}

/// A workspace with the fields that are given replaced.
pub open spec fn revised_workspace(
    w: WorkspaceView,
    user_name: Option<Seq<char>>,
    email: Option<Seq<char>>,
) -> WorkspaceView {
    WorkspaceView {
        name: match user_name {
            Some(n) => n,
            None => w.name,
        },
        email: match email {
            Some(e) => e,
            None => w.email,
        },
        patterns: w.patterns,
    }
}

/// `existing` with `pattern` at its end, unless it is already there.
pub open spec fn append_new(existing: Seq<Seq<char>>, pattern: Seq<char>) -> Seq<Seq<char>> {
    if existing.contains(pattern) {
        existing
    } else {
        existing.push(pattern)
    }
}

/// `existing` followed by those of `added` that occur neither in `existing`
/// nor earlier in `added`, in the order in which `added` gives them.
pub open spec fn merge_patterns(existing: Seq<Seq<char>>, added: Seq<Seq<char>>) -> Seq<
    Seq<char>,
>
    decreases added.len(),
{
    if added.len() == 0 {
        existing
    } else {
        merge_patterns(append_new(existing, added[0]), added.drop_first())
    }
}

/// The pattern list after an update: `given` itself on a reset, else the merge.
pub open spec fn revised_patterns(
    existing: Seq<Seq<char>>,
    given: Seq<Seq<char>>,
    reset: bool,
) -> Seq<Seq<char>> {
    if reset {
        given
    } else {
        merge_patterns(existing, given)
    }
}

/// A workspace with its pattern list updated.
pub open spec fn repatterned_workspace(
    w: WorkspaceView,
    given: Seq<Seq<char>>,
    reset: bool,
) -> WorkspaceView {
    WorkspaceView {
        name: w.name,
        email: w.email,
        patterns: revised_patterns(w.patterns, given, reset),
    }
}

/// How often `pattern` occurs in `list`.
pub open spec fn occurrences(list: Seq<Seq<char>>, pattern: Seq<char>) -> nat
    decreases list.len(),
{
    if list.len() == 0 {
        0
    } else {
        occurrences(list.drop_last(), pattern) + if list.last() == pattern {
            1nat
        } else {
            0nat
        }
    }
}

/// The workspace matches the identity `(user_name, email)`.
pub open spec fn matches_identity(w: WorkspaceView, user_name: Seq<char>, email: Seq<char>) -> bool {
    w.name == user_name && w.email == email
}

// ---------------------------------------------------------------------------
// What each operation answers and what it leaves in the store.
// ---------------------------------------------------------------------------

/// What adding under `name` answers: a name that is present is a duplicate.
pub open spec fn add_outcome(store: StoreMap, name: Seq<char>) -> Result<(), ConfigError> {
    if store.contains_key(name) {
        Err(ConfigError::DuplicateWorkspace)
    } else {
        Ok(())
    }
}

/// The store after adding: one workspace more, without patterns, unless the
/// name was present, in which case the store is as before.
pub open spec fn add_effect(
    store: StoreMap,
    name: Seq<char>,
    user_name: Seq<char>,
    email: Seq<char>,
) -> StoreMap {
    if store.contains_key(name) {
        store
    } else {
        store.insert(name, fresh_workspace(user_name, email))
    }
}

/// The answer of every operation that needs the workspace to exist.
pub open spec fn lookup_outcome(store: StoreMap, name: Seq<char>) -> Result<(), ConfigError> {
    if store.contains_key(name) {
        Ok(())
    } else {
        Err(ConfigError::WorkspaceNotFound)
    }
}

/// What looking up `name` answers: the workspace, or that there is none.
pub open spec fn get_outcome(store: StoreMap, name: Seq<char>) -> Result<
    WorkspaceView,
    ConfigError,
> {
    if store.contains_key(name) {
        Ok(store[name])
    } else {
        Err(ConfigError::WorkspaceNotFound)
    }
}

/// The store after an update of the user name and the e-mail address: the
/// workspace holds the fields given and keeps the others; a name that is
/// absent leaves the store as it was.
pub open spec fn update_effect(
    store: StoreMap,
    name: Seq<char>,
    user_name: Option<Seq<char>>,
    email: Option<Seq<char>>,
) -> StoreMap {
    if store.contains_key(name) {
        store.insert(name, revised_workspace(store[name], user_name, email))
    } else {
        store
    }
}

/// The store after an update of the patterns of a workspace; a name that
/// is absent leaves the store as it was.
pub open spec fn patterns_effect(
    store: StoreMap,
    name: Seq<char>,
    given: Seq<Seq<char>>,
    reset: bool,
) -> StoreMap {
    if store.contains_key(name) {
        store.insert(name, repatterned_workspace(store[name], given, reset))
    } else {
        store
    }
}

/// The store after a deletion: without the workspace of that name.
pub open spec fn delete_effect(store: StoreMap, name: Seq<char>) -> StoreMap {
    if store.contains_key(name) {
        store.remove(name)
    } else {
        store
    }
}

/// `name` is the first workspace, in the order of names, that matches the
/// identity.
pub open spec fn first_match(
    store: StoreMap,
    name: Seq<char>,
    user_name: Seq<char>,
    email: Seq<char>,
) -> bool {
    &&& store.contains_key(name)
    &&& matches_identity(store[name], user_name, email)
    &&& forall|other: Seq<char>|
        #![trigger store.contains_key(other)]
        #![trigger store[other]]
        store.contains_key(other) && matches_identity(store[other], user_name, email) ==> other
            == name || name_lt(name, other)
}

/// No workspace of the store matches the identity.
pub open spec fn no_match(store: StoreMap, user_name: Seq<char>, email: Seq<char>) -> bool {
    forall|other: Seq<char>|
        #![trigger store.contains_key(other)]
        #![trigger store[other]]
        store.contains_key(other) ==> !matches_identity(store[other], user_name, email)
}

// ---------------------------------------------------------------------------
// Sequences of named workspaces, sorted by name.
// ---------------------------------------------------------------------------

/// The names are strictly increasing, so none occurs twice.
pub open spec fn sorted_by_name(s: Seq<(Seq<char>, WorkspaceView)>) -> bool {
    forall|i: int, j: int| 0 <= i < j < s.len() ==> name_lt((#[trigger] s[i]).0, (#[trigger] s[j]).0)
}

/// Some entry of the sequence has this name.
pub open spec fn holds_name(s: Seq<(Seq<char>, WorkspaceView)>, name: Seq<char>) -> bool {
    exists|i: int| 0 <= i < s.len() && (#[trigger] s[i]).0 == name
}

/// The position of an entry with this name, where there is one.
pub open spec fn index_of(s: Seq<(Seq<char>, WorkspaceView)>, name: Seq<char>) -> int {
    choose|i: int| 0 <= i < s.len() && (#[trigger] s[i]).0 == name
}

/// The mapping that a sequence of named workspaces stands for.
pub open spec fn as_store(s: Seq<(Seq<char>, WorkspaceView)>) -> StoreMap {
    Map::new(|k: Seq<char>| holds_name(s, k), |k: Seq<char>| s[index_of(s, k)].1)
}

/// No name occurs twice.
pub open spec fn distinct_names(s: Seq<(Seq<char>, WorkspaceView)>) -> bool {
    forall|i: int, j: int| 0 <= i < j < s.len() ==> (#[trigger] s[i]).0 != (#[trigger] s[j]).0
}

/// The mapping that a list of named workspaces, in any order, builds up when
/// they are put into an empty store one after the other.
pub open spec fn store_of(s: Seq<(Seq<char>, WorkspaceView)>) -> StoreMap
    decreases s.len(),
{
    if s.len() == 0 {
        Map::empty()
    } else {
        store_of(s.drop_last()).insert(s.last().0, s.last().1)
    }
}

/// The keys of the mapping built from a list are the names in the list.
pub proof fn lemma_store_of_keys(s: Seq<(Seq<char>, WorkspaceView)>, name: Seq<char>)
    ensures
        store_of(s).contains_key(name) <==> holds_name(s, name),
    decreases s.len(),
{
    if s.len() > 0 {
        let front = s.drop_last();
        lemma_store_of_keys(front, name);
        if holds_name(front, name) {
            let i = choose|i: int| 0 <= i < front.len() && (#[trigger] front[i]).0 == name;
            assert(s[i].0 == name);
        }
        if holds_name(s, name) && s.last().0 != name {
            let i = choose|i: int| 0 <= i < s.len() && (#[trigger] s[i]).0 == name;
            assert(front[i].0 == name);
        }
        if s.last().0 == name {
            assert(s[s.len() - 1].0 == name);
        }
    }
}

/// `name` belongs at position `i` of `s`: everything before it is smaller,
/// and the entry at `i`, if there is one, is larger.
pub open spec fn insertion_point(s: Seq<(Seq<char>, WorkspaceView)>, name: Seq<char>, i: int) -> bool {
    &&& 0 <= i <= s.len()
    &&& forall|j: int| 0 <= j < i ==> name_lt((#[trigger] s[j]).0, name)
    &&& i < s.len() ==> name_lt(name, s[i].0)
}

/// In a sorted sequence the entry at `i` is the one that its name finds.
pub proof fn lemma_entry_found(s: Seq<(Seq<char>, WorkspaceView)>, i: int)
    requires
        sorted_by_name(s),
        0 <= i < s.len(),
    ensures
        holds_name(s, s[i].0),
        index_of(s, s[i].0) == i,
        as_store(s).contains_key(s[i].0),
        as_store(s)[s[i].0] == s[i].1,
{
    let k = index_of(s, s[i].0);
    if k < i {
        lemma_name_lt_asymmetric(s[k].0, s[i].0);
    } else if i < k {
        lemma_name_lt_asymmetric(s[i].0, s[k].0);
    }
}

/// At an insertion point the name is absent, and smaller than all that follows.
pub proof fn lemma_absent_at_insertion_point(
    s: Seq<(Seq<char>, WorkspaceView)>,
    name: Seq<char>,
    i: int,
)
    requires
        sorted_by_name(s),
        insertion_point(s, name, i),
    ensures
        !holds_name(s, name),
        !as_store(s).contains_key(name),
        forall|j: int| i <= j < s.len() ==> name_lt(name, (#[trigger] s[j]).0),
{
    assert forall|j: int| i <= j < s.len() implies name_lt(name, (#[trigger] s[j]).0) by {
        if i < j {
            lemma_name_lt_transitive(name, s[i].0, s[j].0);
        }
    }
    assert forall|j: int| 0 <= j < s.len() implies (#[trigger] s[j]).0 != name by {
        if j < i {
            lemma_name_lt_asymmetric(s[j].0, name);
        } else {
            lemma_name_lt_asymmetric(name, s[j].0);
        }
    }
}

/// Inserting at the insertion point keeps the order and adds one key.
pub proof fn lemma_insert_entry(
    s: Seq<(Seq<char>, WorkspaceView)>,
    i: int,
    e: (Seq<char>, WorkspaceView),
)
    requires
        sorted_by_name(s),
        insertion_point(s, e.0, i),
    ensures
        sorted_by_name(s.insert(i, e)),
        as_store(s.insert(i, e)) == as_store(s).insert(e.0, e.1),
{
    let t = s.insert(i, e);
    lemma_absent_at_insertion_point(s, e.0, i);
    assert forall|a: int, b: int| 0 <= a < b < t.len() implies name_lt(
        (#[trigger] t[a]).0,
        (#[trigger] t[b]).0,
    ) by {
        if b < i {
            assert(t[a] == s[a] && t[b] == s[b]);
        } else if b == i {
            assert(t[a] == s[a]);
        } else if a < i {
            assert(t[a] == s[a] && t[b] == s[b - 1]);
            if b - 1 == i {
                lemma_name_lt_transitive(s[a].0, e.0, s[i].0);
            } else {
                lemma_name_lt_transitive(s[a].0, e.0, s[b - 1].0);
            }
        } else if a == i {
            assert(t[b] == s[b - 1]);
        } else {
            assert(t[a] == s[a - 1] && t[b] == s[b - 1]);
        }
    }
    let target = as_store(s).insert(e.0, e.1);
    assert forall|k: Seq<char>| as_store(t).contains_key(k) <==> target.contains_key(k) by {
        if holds_name(t, k) {
            let j = index_of(t, k);
            if j < i {
                assert(s[j].0 == k);
            } else if j > i {
                assert(s[j - 1].0 == k);
            }
        }
        if holds_name(s, k) {
            let j = index_of(s, k);
            if j < i {
                assert(t[j].0 == k);
            } else {
                assert(t[j + 1].0 == k);
            }
        }
        if k == e.0 {
            assert(t[i].0 == k);
        }
    }
    assert forall|k: Seq<char>| as_store(t).contains_key(k) implies as_store(t)[k] == target[k] by {
        let j = index_of(t, k);
        lemma_entry_found(t, j);
        if j < i {
            lemma_entry_found(s, j);
        } else if j > i {
            lemma_entry_found(s, j - 1);
        }
    }
    assert(as_store(t) =~= target);
}

/// Removing an entry keeps the order and removes its key.
pub proof fn lemma_remove_entry(s: Seq<(Seq<char>, WorkspaceView)>, i: int)
    requires
        sorted_by_name(s),
        0 <= i < s.len(),
    ensures
        sorted_by_name(s.remove(i)),
        as_store(s.remove(i)) == as_store(s).remove(s[i].0),
{
    let t = s.remove(i);
    let target = as_store(s).remove(s[i].0);
    assert forall|a: int, b: int| 0 <= a < b < t.len() implies name_lt(
        (#[trigger] t[a]).0,
        (#[trigger] t[b]).0,
    ) by {
        let a0 = if a < i { a } else { a + 1 };
        let b0 = if b < i { b } else { b + 1 };
        assert(t[a] == s[a0] && t[b] == s[b0]);
    }
    assert forall|k: Seq<char>| as_store(t).contains_key(k) <==> target.contains_key(k) by {
        if holds_name(t, k) {
            let j = index_of(t, k);
            let j0 = if j < i { j } else { j + 1 };
            assert(s[j0].0 == k);
            lemma_entry_found(s, j0);
            lemma_entry_found(s, i);
        }
        if holds_name(s, k) && k != s[i].0 {
            let j = index_of(s, k);
            let j1 = if j < i { j } else { j - 1 };
            assert(t[j1].0 == k);
        }
    }
    assert forall|k: Seq<char>| as_store(t).contains_key(k) implies as_store(t)[k] == target[k] by {
        let j = index_of(t, k);
        let j0 = if j < i { j } else { j + 1 };
        lemma_entry_found(t, j);
        assert(t[j] == s[j0]);
        lemma_entry_found(s, j0);
    }
    assert(as_store(t) =~= target);
}

/// Replacing the workspace of an entry keeps the order and rebinds its key.
pub proof fn lemma_update_entry(s: Seq<(Seq<char>, WorkspaceView)>, i: int, w: WorkspaceView)
    requires
        sorted_by_name(s),
        0 <= i < s.len(),
    ensures
        sorted_by_name(s.update(i, (s[i].0, w))),
        as_store(s.update(i, (s[i].0, w))) == as_store(s).insert(s[i].0, w),
{
    let t = s.update(i, (s[i].0, w));
    let target = as_store(s).insert(s[i].0, w);
    assert forall|a: int, b: int| 0 <= a < b < t.len() implies name_lt(
        (#[trigger] t[a]).0,
        (#[trigger] t[b]).0,
    ) by {
        assert(t[a].0 == s[a].0 && t[b].0 == s[b].0);
    }
    assert forall|k: Seq<char>| as_store(t).contains_key(k) <==> target.contains_key(k) by {
        if holds_name(t, k) {
            let j = index_of(t, k);
            assert(s[j].0 == k);
        }
        if holds_name(s, k) {
            let j = index_of(s, k);
            assert(t[j].0 == k);
        }
        if k == s[i].0 {
            assert(t[i].0 == k);
        }
    }
    assert forall|k: Seq<char>| as_store(t).contains_key(k) implies as_store(t)[k] == target[k] by {
        let j = index_of(t, k);
        lemma_entry_found(t, j);
        lemma_entry_found(s, j);
    }
    assert(as_store(t) =~= target);
}

} // verus!
