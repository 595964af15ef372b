//! The parts of a search: the pattern that stands for "contains the query",
//! and the recipes that matching children point to.

use crate::models::{owners_of, rows_of, ChildRecord};
use std::collections::HashSet;
use vstd::prelude::*;
use vstd::std_specs::hash::group_hash_axioms;
use vstd::string::{StrSliceExecFns, StringExecFns};

verus! {

/// Whether a character has a meaning of its own in a `LIKE` pattern with the
/// escape character `\`: the two wildcards and the escape character.
pub open spec fn is_special(c: char) -> bool {
    c == '%' || c == '_' || c == '\\'
}

/// A text in which every character stands for itself in a `LIKE` pattern:
/// each wildcard and each escape character behind an escape character.
pub open spec fn escaped(text: Seq<char>) -> Seq<char>
    decreases text.len(),
{
    if text.len() == 0 {
        text
    } else if is_special(text[0]) {
        seq!['\\', text[0]] + escaped(text.skip(1))
    } else {
        seq![text[0]] + escaped(text.skip(1))
    }
}

/// The `LIKE` pattern for "contains `query`": the escaped query between two
/// `%`.
pub open spec fn like_text(query: Seq<char>) -> Seq<char> {
    seq!['%'] + escaped(query) + seq!['%']
}

pub fn like_pattern(query: &str) -> (pattern: String)
    ensures
        pattern@ == like_text(query@),
{
    let n = query.unicode_len();
    let mut pattern = String::from_str("%");
    proof {
        reveal_strlit("%");
        reveal_strlit("\\");
        assert(query@.skip(0) =~= query@);
    }
    let mut i: usize = 0;
    while i < n
        invariant
            0 <= i <= n,
            n == query@.len(),
            "\\"@ == seq!['\\'],
            pattern@ + escaped(query@.skip(i as int)) == seq!['%'] + escaped(query@),
        decreases n - i,
    {
        let ghost rest = query@.skip(i as int);
        let ghost before = pattern@;
        let c = query.get_char(i);
        if c == '%' || c == '_' || c == '\\' {
            pattern.append("\\");
        }
        pattern.append(query.substring_char(i, i + 1));
        proof {
            assert(rest.skip(1) =~= query@.skip(i + 1));
            assert(query@.subrange(i as int, i + 1) =~= seq![rest[0]]);
            if is_special(c) {
                assert(pattern@ + escaped(rest.skip(1)) =~= before + (seq!['\\', rest[0]]
                    + escaped(rest.skip(1))));
            } else {
                assert(pattern@ + escaped(rest.skip(1)) =~= before + (seq![rest[0]] + escaped(
                    rest.skip(1),
                )));
            }
        }
        i += 1;
    }
    pattern.append("%");
    assert(pattern@ =~= like_text(query@));
    pattern
}

/// The recipes found so far together with the owners of `records`. A set
/// holds each of them once.
pub fn add_owners<T: ChildRecord>(found: HashSet<i64>, records: &[T]) -> (all: HashSet<i64>)
    ensures
        all@ == found@.union(owners_of(rows_of(records@)).to_set()),
{
    broadcast use group_hash_axioms;

    let ghost start = found@;
    let ghost owners = owners_of(rows_of(records@));
    let mut all = found;
    let mut i: usize = 0;
    assert(start.union(owners.take(0).to_set()) =~= start);
    while i < records.len()
        invariant
            0 <= i <= records.len(),
            owners == owners_of(rows_of(records@)),
            all@ == start.union(owners.take(i as int).to_set()),
        decreases records.len() - i,
    {
        let owner = records[i].recipe_id();
        let ghost before = owners.take(i as int);
        let ghost next = owners.take(i + 1);
        all.insert(owner);
        proof {
            assert(next[i as int] == owner);
            assert forall|id: i64| next.contains(id) <==> before.contains(id) || id == owner by {
                if next.contains(id) {
                    let k = choose|k: int| 0 <= k < next.len() && next[k] == id;
                    if k < i {
                        assert(before[k] == id);
                    }
                }
                if before.contains(id) {
                    let k = choose|k: int| 0 <= k < before.len() && before[k] == id;
                    assert(next[k] == id);
                }
            }
            assert(all@ =~= start.union(next.to_set()));
        }
        i += 1;
    }
    assert(owners.take(i as int) =~= owners);
    all
}

} // verus!
