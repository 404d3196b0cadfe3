//! Lists of URL patterns.

use vstd::prelude::*;
use crate::model::{append_new, merge_patterns};
use crate::names::{compare_names, NameOrder};
use crate::text::text_views;

verus! {

/// Whether `list` holds `pattern`.
pub fn contains_pattern(list: &Vec<String>, pattern: &str) -> (r: bool)
    ensures
        r == text_views(list@).contains(pattern@),
{
    let mut i: usize = 0;
    while i < list.len()
        invariant
            i <= list@.len(),
            forall|j: int| 0 <= j < i ==> #[trigger] text_views(list@)[j] != pattern@,
        decreases list@.len() - i,
    {
        match compare_names(list[i].as_str(), pattern) {
            NameOrder::Same => {
                assert(text_views(list@)[i as int] == pattern@);
                return true;
            },
            _ => {},
        }
        i += 1;
    }
    false
}

/// A copy of the list.
pub fn copy_patterns(list: &Vec<String>) -> (r: Vec<String>)
    ensures
        r@ == list@,
{
    let mut r: Vec<String> = Vec::new();
    let mut i: usize = 0;
    while i < list.len()
        invariant
            i <= list@.len(),
            r@ == list@.subrange(0, i as int),
        decreases list@.len() - i,
    {
        r.push(list[i].clone());
        proof {
            assert(r@ =~= list@.subrange(0, i as int + 1));
        }
        i += 1;
    }
    proof {
        assert(list@.subrange(0, list@.len() as int) =~= list@);
    }
    r
}

/// Appends to `existing` each pattern of `added` that it does not hold yet.
pub fn merge_into(existing: &mut Vec<String>, added: &Vec<String>)
    ensures
        text_views(final(existing)@) == merge_patterns(
            text_views(old(existing)@),
            text_views(added@),
        ),
{
    let ghost all = text_views(added@);
    let mut i: usize = 0;
    proof {
        assert(all.skip(0) =~= all);
    }
    while i < added.len()
        invariant
            i <= added@.len(),
            all == text_views(added@),
            merge_patterns(text_views(existing@), all.skip(i as int)) == merge_patterns(
                text_views(old(existing)@),
                all,
            ),
        decreases added@.len() - i,
    {
        let ghost before = text_views(existing@);
        proof {
            assert(all.skip(i as int).drop_first() =~= all.skip(i as int + 1));
            assert(all.skip(i as int)[0] == added@[i as int]@);
        }
        if !contains_pattern(existing, added[i].as_str()) {
            existing.push(added[i].clone());
            proof {
                assert(text_views(existing@) =~= before.push(added@[i as int]@));
            }
        }
        proof {
            assert(text_views(existing@) == append_new(before, added@[i as int]@));
        }
        i += 1;
    }
}

} // verus!
