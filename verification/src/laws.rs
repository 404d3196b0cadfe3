//! What holds of the store's operations taken together.
//!
//! Each law is stated over the model that the contracts of the operations
//! use, so it holds of every run of the verified code.

use vstd::prelude::*;
use crate::model::{
    add_effect, add_outcome, append_new, as_store, delete_effect, distinct_names,
    fresh_workspace, get_outcome, insertion_point, lemma_insert_entry, lookup_outcome,
    merge_patterns, occurrences, patterns_effect, sorted_by_name, store_of, update_effect,
    ConfigError, StoreMap, WorkspaceView,
};
use crate::commands::{update_outcome, update_text, UpdateOutcome};
use crate::config::{entry_views, load_outcome, Config, StoredFile};
use crate::model::PersistError;
use crate::git::{reading_outcome, GitError};
use crate::model::{first_match, matches_identity, no_match};
use crate::names::{lemma_name_lt_asymmetric, name_lt};

verus! {

/// A workspace that was added under a new name is found under that name,
/// with the user name and e-mail address given and without patterns.
pub proof fn law_add_then_get(
    store: StoreMap,
    name: Seq<char>,
    user_name: Seq<char>,
    email: Seq<char>,
)
    requires
        !store.contains_key(name),
    ensures
        add_outcome(store, name) == Ok::<(), ConfigError>(()),
        get_outcome(add_effect(store, name, user_name, email), name) == Ok::<
            WorkspaceView,
            ConfigError,
        >(WorkspaceView { name: user_name, email, patterns: Seq::empty() }),
{
}

/// Adding under a name that is present is refused as a duplicate and leaves
/// the store as it was.
pub proof fn law_add_duplicate(
    store: StoreMap,
    name: Seq<char>,
    user_name: Seq<char>,
    email: Seq<char>,
)
    requires
        store.contains_key(name),
    ensures
        add_outcome(store, name) == Err::<(), ConfigError>(ConfigError::DuplicateWorkspace),
        add_effect(store, name, user_name, email) == store,
{
}

/// Of two additions under one name the second is refused, and the workspace
/// keeps what the first gave it.
pub proof fn law_add_twice(
    store: StoreMap,
    name: Seq<char>,
    first_user: Seq<char>,
    first_email: Seq<char>,
    second_user: Seq<char>,
    second_email: Seq<char>,
)
    requires
        !store.contains_key(name),
    ensures
        ({
            let once = add_effect(store, name, first_user, first_email);
            let twice = add_effect(once, name, second_user, second_email);
            &&& add_outcome(once, name) == Err::<(), ConfigError>(ConfigError::DuplicateWorkspace)
            &&& twice == once
            &&& twice[name] == fresh_workspace(first_user, first_email)
        }),
{
}

/// An update under a name that is absent is refused and changes nothing.
pub proof fn law_update_absent(
    store: StoreMap,
    name: Seq<char>,
    user_name: Option<Seq<char>>,
    email: Option<Seq<char>>,
)
    requires
        !store.contains_key(name),
    ensures
        lookup_outcome(store, name) == Err::<(), ConfigError>(ConfigError::WorkspaceNotFound),
        update_effect(store, name, user_name, email) == store,
{
}

/// An update that gives neither field succeeds and changes nothing.
pub proof fn law_update_nothing(store: StoreMap, name: Seq<char>)
    requires
        store.contains_key(name),
    ensures
        lookup_outcome(store, name) == Ok::<(), ConfigError>(()),
        update_effect(store, name, None, None) == store,
{
    assert(update_effect(store, name, None, None) =~= store);
}

/// An update that asks for nothing reports that there are no changes,
/// whether or not the workspace exists, and is no error.
pub proof fn law_update_reports_no_changes(store: StoreMap, workspace: Seq<char>)
    ensures
        update_outcome(store, workspace, None, None, false) == Ok::<UpdateOutcome, ConfigError>(
            UpdateOutcome::NoChanges,
        ),
        update_text(store, workspace, None, None, false)
            == seq!["No changes specified. Use --name and/or --email to update the workspace."@],
{
}

/// An update changes the fields given, keeps the patterns, and touches no
/// other workspace.
pub proof fn law_update_changes_only_given(
    store: StoreMap,
    name: Seq<char>,
    user_name: Option<Seq<char>>,
    email: Option<Seq<char>>,
    other: Seq<char>,
)
    requires
        store.contains_key(name),
        other != name,
    ensures
        ({
            let after = update_effect(store, name, user_name, email);
            &&& after.contains_key(name)
            &&& after[name].patterns == store[name].patterns
            &&& user_name is None ==> after[name].name == store[name].name
            &&& email is None ==> after[name].email == store[name].email
            &&& user_name is Some ==> after[name].name == user_name->0
            &&& email is Some ==> after[name].email == email->0
            &&& after.contains_key(other) == store.contains_key(other)
            &&& store.contains_key(other) ==> after[other] == store[other]
        }),
{
}

/// Deleting under a name that is absent is refused and changes nothing.
pub proof fn law_delete_absent(store: StoreMap, name: Seq<char>)
    requires
        !store.contains_key(name),
    ensures
        lookup_outcome(store, name) == Err::<(), ConfigError>(ConfigError::WorkspaceNotFound),
        delete_effect(store, name) == store,
{
}

/// After a workspace was deleted, it is no longer found, and every other
/// workspace is as before.
pub proof fn law_delete_then_get(store: StoreMap, name: Seq<char>, other: Seq<char>)
    requires
        store.contains_key(name),
        other != name,
    ensures
        lookup_outcome(store, name) == Ok::<(), ConfigError>(()),
        get_outcome(delete_effect(store, name), name) == Err::<WorkspaceView, ConfigError>(
            ConfigError::WorkspaceNotFound,
        ),
        get_outcome(delete_effect(store, name), other) == get_outcome(store, other),
{
}

/// A pattern occurs in a list exactly if it occurs there at least once.
pub proof fn lemma_occurrences_contains(list: Seq<Seq<char>>, pattern: Seq<char>)
    ensures
        list.contains(pattern) <==> occurrences(list, pattern) >= 1,
    decreases list.len(),
{
    if list.len() > 0 {
        let front = list.drop_last();
        lemma_occurrences_contains(front, pattern);
        if list.contains(pattern) {
            let i = choose|i: int| 0 <= i < list.len() && list[i] == pattern;
            if i < list.len() - 1 {
                assert(front[i] == pattern);
            }
        }
        if front.contains(pattern) {
            let i = choose|i: int| 0 <= i < front.len() && front[i] == pattern;
            assert(list[i] == pattern);
        }
        if list.last() == pattern {
            assert(list[list.len() - 1] == pattern);
        }
    }
}

/// What a list holds, it still holds after a merge.
pub proof fn lemma_merge_keeps(existing: Seq<Seq<char>>, added: Seq<Seq<char>>, pattern: Seq<char>)
    requires
        existing.contains(pattern),
    ensures
        merge_patterns(existing, added).contains(pattern),
    decreases added.len(),
{
    if added.len() > 0 {
        let next = append_new(existing, added[0]);
        let i = choose|i: int| 0 <= i < existing.len() && existing[i] == pattern;
        assert(next[i] == pattern);
        lemma_merge_keeps(next, added.drop_first(), pattern);
    }
}

/// After a merge the list holds every pattern that was to be added.
pub proof fn lemma_merge_holds_added(existing: Seq<Seq<char>>, added: Seq<Seq<char>>, i: int)
    requires
        0 <= i < added.len(),
    ensures
        merge_patterns(existing, added).contains(added[i]),
    decreases added.len(),
{
    let next = append_new(existing, added[0]);
    if i == 0 {
        if !existing.contains(added[0]) {
            assert(next[existing.len() as int] == added[0]);
        }
        lemma_merge_keeps(next, added.drop_first(), added[0]);
    } else {
        lemma_merge_holds_added(next, added.drop_first(), i - 1);
    }
}

/// Merging patterns that the list already holds changes nothing.
pub proof fn lemma_merge_known(existing: Seq<Seq<char>>, added: Seq<Seq<char>>)
    requires
        forall|i: int| 0 <= i < added.len() ==> existing.contains(#[trigger] added[i]),
    ensures
        merge_patterns(existing, added) == existing,
    decreases added.len(),
{
    if added.len() > 0 {
        assert(existing.contains(added[0]));
        let rest = added.drop_first();
        assert forall|i: int| 0 <= i < rest.len() implies existing.contains(#[trigger] rest[i]) by {
            assert(rest[i] == added[i + 1]);
        }
        lemma_merge_known(existing, rest);
    }
}

/// A merge begins with the list as it was.
pub proof fn law_merge_extends(existing: Seq<Seq<char>>, added: Seq<Seq<char>>)
    ensures
        existing.len() <= merge_patterns(existing, added).len(),
        merge_patterns(existing, added).subrange(0, existing.len() as int) == existing,
    decreases added.len(),
{
    if added.len() == 0 {
        assert(existing.subrange(0, existing.len() as int) =~= existing);
    } else {
        let next = append_new(existing, added[0]);
        law_merge_extends(next, added.drop_first());
        let merged = merge_patterns(next, added.drop_first());
        assert(merged.subrange(0, existing.len() as int) =~= merged.subrange(
            0,
            next.len() as int,
        ).subrange(0, existing.len() as int));
        assert(next.subrange(0, existing.len() as int) =~= existing);
    }
}

/// Appending the same patterns a second time changes nothing.
pub proof fn law_merge_twice(existing: Seq<Seq<char>>, added: Seq<Seq<char>>)
    ensures
        merge_patterns(merge_patterns(existing, added), added) == merge_patterns(existing, added),
{
    let once = merge_patterns(existing, added);
    assert forall|i: int| 0 <= i < added.len() implies once.contains(#[trigger] added[i]) by {
        lemma_merge_holds_added(existing, added, i);
    }
    lemma_merge_known(once, added);
}

/// Appending one pattern twice to a workspace that held it at most once
/// leaves it there exactly once.
pub proof fn law_same_pattern_twice(store: StoreMap, name: Seq<char>, pattern: Seq<char>)
    requires
        store.contains_key(name),
        occurrences(store[name].patterns, pattern) <= 1,
    ensures
        ({
            let once = patterns_effect(store, name, seq![pattern], false);
            let twice = patterns_effect(once, name, seq![pattern], false);
            &&& twice == once
            &&& occurrences(twice[name].patterns, pattern) == 1
        }),
{
    let before = store[name].patterns;
    let given = seq![pattern];
    let once = patterns_effect(store, name, given, false);
    let twice = patterns_effect(once, name, given, false);
    assert(given.drop_first() =~= Seq::<Seq<char>>::empty());
    assert(merge_patterns(before, given) == append_new(before, pattern)) by {
        assert(merge_patterns(append_new(before, given[0]), given.drop_first()) == append_new(
            before,
            given[0],
        ));
    }
    lemma_occurrences_contains(before, pattern);
    if !before.contains(pattern) {
        assert(before.push(pattern).drop_last() =~= before);
    }
    law_merge_twice(before, given);
    assert(twice =~= once);
}

/// A reset makes the pattern list the one given, whatever it held, and
/// keeps the rest of the workspace.
pub proof fn law_reset_replaces(store: StoreMap, name: Seq<char>, given: Seq<Seq<char>>)
    requires
        store.contains_key(name),
    ensures
        ({
            let after = patterns_effect(store, name, given, true);
            &&& lookup_outcome(store, name) == Ok::<(), ConfigError>(())
            &&& after.contains_key(name)
            &&& after[name].patterns == given
            &&& after[name].name == store[name].name
            &&& after[name].email == store[name].email
        }),
{
}

/// Appending patterns to a list without repetitions gives a list without
/// repetitions.
pub proof fn law_merge_no_repetition(existing: Seq<Seq<char>>, added: Seq<Seq<char>>)
    requires
        existing.no_duplicates(),
    ensures
        merge_patterns(existing, added).no_duplicates(),
    decreases added.len(),
{
    if added.len() > 0 {
        let next = append_new(existing, added[0]);
        assert(next.no_duplicates());
        law_merge_no_repetition(next, added.drop_first());
    }
}

/// A store that is taken apart into its entries and built up again from them
/// is the same store: nothing is lost and nothing changes.
pub proof fn law_rebuild(s: Seq<(Seq<char>, WorkspaceView)>)
    requires
        sorted_by_name(s),
    ensures
        distinct_names(s),
        store_of(s) == as_store(s),
    decreases s.len(),
{
    assert forall|i: int, j: int| 0 <= i < j < s.len() implies (#[trigger] s[i]).0 != (
    #[trigger] s[j]).0 by {
        lemma_name_lt_asymmetric(s[i].0, s[j].0);
    }
    if s.len() == 0 {
        assert(as_store(s) =~= Map::<Seq<char>, WorkspaceView>::empty());
    } else {
        let front = s.drop_last();
        let last = s.last();
        assert forall|i: int, j: int| 0 <= i < j < front.len() implies name_lt(
            (#[trigger] front[i]).0,
            (#[trigger] front[j]).0,
        ) by {
            assert(front[i] == s[i] && front[j] == s[j]);
        }
        law_rebuild(front);
        assert(insertion_point(front, last.0, front.len() as int)) by {
            assert forall|j: int| 0 <= j < front.len() implies name_lt(
                (#[trigger] front[j]).0,
                last.0,
            ) by {
                assert(front[j] == s[j]);
                assert(s[s.len() - 1] == last);
            }
        }
        lemma_insert_entry(front, front.len() as int, last);
        assert(front.insert(front.len() as int, last) =~= s);
    }
}

/// Loading what was saved gives the same store: every workspace is there
/// again under its name, with its user name, its e-mail address and its
/// patterns. (What lies between, the text of the file, is the caller's.)
pub proof fn law_load_what_was_saved(config: Config, file: StoredFile)
    requires
        config.wf(),
        file matches StoredFile::Parsed(entries) && entry_views(entries@) == config.entries(),
    ensures
        load_outcome(file) == Ok::<StoreMap, PersistError>(config@),
{
    law_rebuild(config.entries());
}

/// Where exactly one workspace holds an identity, that workspace is the
/// match, and no other is.
pub proof fn law_only_match(
    store: StoreMap,
    name: Seq<char>,
    user_name: Seq<char>,
    email: Seq<char>,
    found: Seq<char>,
)
    requires
        store.contains_key(name),
        matches_identity(store[name], user_name, email),
        forall|other: Seq<char>|
            store.contains_key(other) && other != name ==> !matches_identity(
                #[trigger] store[other],
                user_name,
                email,
            ),
    ensures
        first_match(store, name, user_name, email),
        !no_match(store, user_name, email),
        first_match(store, found, user_name, email) ==> found == name,
{
}

/// Where no workspace holds an identity, there is no match.
pub proof fn law_no_match(store: StoreMap, user_name: Seq<char>, email: Seq<char>, found: Seq<char>)
    requires
        forall|other: Seq<char>|
            store.contains_key(other) ==> !(#[trigger] store[other].name == user_name
                && store[other].email == email),
    ensures
        no_match(store, user_name, email),
        !first_match(store, found, user_name, email),
{
}

/// A setting is never read as an empty text: where git gave nothing but
/// white space, the setting counts as not configured, as it does where git
/// failed.
pub proof fn law_reading_never_empty(output: Option<(bool, Seq<u8>)>)
    ensures
        reading_outcome(output) matches Ok(value) ==> value.len() > 0,
        output matches Some((success, _)) && !success ==> reading_outcome(output) == Err::<
            Seq<char>,
            GitError,
        >(GitError::NotConfigured),
{
}

} // verus!
