//! Keeping rows in rank order by a text key.

use vstd::prelude::*;
use vstd::string::*;
use crate::model::{in_order, ranked};
use crate::text::{lemma_text_le_total, lemma_text_le_transitive, text_less};

verus! {

/// The views of a list of keys, in the same order.
pub open spec fn key_views(keys: Seq<String>) -> Seq<Seq<char>> {
    Seq::new(keys.len(), |i: int| keys[i]@)
}

/// Decides `in_order`.
pub(crate) fn may_stand_before(a: &str, b: &str, descending: bool) -> (r: bool)
    ensures
        r == in_order(a@, b@, descending),
{
    if descending {
        !text_less(a, b)
    } else {
        !text_less(b, a)
    }
}

/// Puts `row` with its `key` into two parallel lists that are ranked by key,
/// behind every row that may stand before it, and says where it went.
pub(crate) fn insert_ranked<T>(
    keys: &mut Vec<String>,
    rows: &mut Vec<T>,
    key: String,
    row: T,
    descending: bool,
) -> (at: usize)
    requires
        old(keys).len() == old(rows).len(),
        ranked(key_views(old(keys)@), descending),
    ensures
        at <= old(rows).len(),
        final(keys)@ == old(keys)@.insert(at as int, key),
        final(rows)@ == old(rows)@.insert(at as int, row),
        ranked(key_views(final(keys)@), descending),
{
    let mut at: usize = 0;
    while at < keys.len() && may_stand_before(keys[at].as_str(), key.as_str(), descending)
        invariant
            at <= keys.len(),
            *keys == *old(keys),
            *rows == *old(rows),
            forall|k: int| 0 <= k < at ==> in_order(#[trigger] keys[k]@, key@, descending),
        decreases keys.len() - at,
    {
        at = at + 1;
    }
    proof {
        let before = key_views(keys@);
        let after = key_views(keys@.insert(at as int, key));
        assert(after =~= before.insert(at as int, key@));
        assert forall|i: int, j: int| 0 <= i < j < after.len() implies in_order(
            after[i],
            after[j],
            descending,
        ) by {
            if j < at {
            } else if j == at {
                assert(after[i] == keys[i]@);
            } else if i == at {
                // the scan stopped at a key that must stand behind the new one
                assert(at < keys.len());
                let stop = keys[at as int]@;
                assert(!in_order(stop, key@, descending));
                lemma_text_le_total(stop, key@);
                assert(in_order(key@, stop, descending));
                if j - 1 > at {
                    assert(in_order(before[at as int], before[j - 1], descending));
                    if descending {
                        lemma_text_le_transitive(before[j - 1], stop, key@);
                    } else {
                        lemma_text_le_transitive(key@, stop, before[j - 1]);
                    }
                }
            } else if i < at {
                assert(in_order(before[i], before[j - 1], descending));
            } else {
                assert(in_order(before[i - 1], before[j - 1], descending));
            }
        }
    }
    keys.insert(at, key);
    rows.insert(at, row);
    at
}

} // verus!
