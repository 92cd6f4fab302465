//! Ordering of a group's entries, best value first.

use crate::product::{lemma_above_asymmetric, lemma_not_above_transitive, Score};
use vstd::prelude::*;
use vstd::seq_lib::{
    lemma_multiset_commutative, to_multiset_build, to_multiset_contains, to_multiset_len,
    to_multiset_remove,
};

verus! {

/// A listed product: its position in the catalog and its value score.
#[derive(Clone, Copy, Debug, PartialEq, Eq, Structural)]
pub struct Entry {
    pub index: usize,
    pub score: Score,
}

impl Entry {
    /// Whether `self` must stand before `other`: its score is the better
    /// one, or the scores tie and it comes earlier in the catalog.
    pub open spec fn precedes(self, other: Entry) -> bool {
        self.score.above(other.score) || (!other.score.above(self.score) && self.index
            < other.index)
    }

    /// Whether `self` must stand before `other`.
    pub fn is_before(&self, other: &Entry) -> (yes: bool)
        ensures
            yes == self.precedes(*other),
    {
        if self.score.is_above(&other.score) {
            true
        } else if other.score.is_above(&self.score) {
            false
        } else {
            self.index < other.index
        }
    }
}

/// Whether a sequence is in ranking order: no entry stands behind one that
/// it must precede.
pub open spec fn ranked(entries: Seq<Entry>) -> bool {
    forall|i: int, j: int| 0 <= i < j < entries.len() ==> !entries[j].precedes(entries[i])
}

/// Of two entries at most one must precede the other.
pub proof fn lemma_precedes_asymmetric(a: Entry, b: Entry)
    ensures
        !(a.precedes(b) && b.precedes(a)),
{
    lemma_above_asymmetric(a.score, b.score);
}

/// If `a` may stand before `b`, and `b` before `c`, then `a` may stand
/// before `c`.
pub proof fn lemma_order_transitive(a: Entry, b: Entry, c: Entry)
    requires
        !b.precedes(a),
        !c.precedes(b),
    ensures
        !c.precedes(a),
{
    lemma_not_above_transitive(c.score, b.score, a.score);
    if !a.score.above(c.score) && !c.score.above(b.score) {
        lemma_not_above_transitive(a.score, c.score, b.score);
    }
    if !b.score.above(a.score) && !a.score.above(c.score) {
        lemma_not_above_transitive(b.score, a.score, c.score);
    }
}

/// In a ranked sequence an entry with a better score stands before every
/// entry with a worse one.
pub proof fn lemma_ranked_better_first(entries: Seq<Entry>, i: int, j: int)
    requires
        ranked(entries),
        0 <= i < entries.len(),
        0 <= j < entries.len(),
        entries[i].score.above(entries[j].score),
    ensures
        i < j,
{
    lemma_above_asymmetric(entries[i].score, entries[j].score);
    if j < i {
        assert(!entries[i].precedes(entries[j]));
    }
}

/// Whether a sequence is in ranking order and no two of its entries tie in
/// both score and catalog position.
pub open spec fn strictly_ranked(entries: Seq<Entry>) -> bool {
    forall|i: int, j: int| 0 <= i < j < entries.len() ==> entries[i].precedes(entries[j])
}

/// Entries of which no two tie in both score and catalog position have one
/// ranking order only: two ranked sequences of the same entries are equal.
pub proof fn law_ranking_is_unique(a: Seq<Entry>, b: Seq<Entry>)
    requires
        strictly_ranked(a),
        ranked(b),
        a.to_multiset() == b.to_multiset(),
    ensures
        a == b,
    decreases a.len(),
{
    to_multiset_len(a);
    to_multiset_len(b);
    if a.len() == 0 {
        assert(a =~= b);
    } else {
        let x = a[0];
        let y = b[0];
        assert(a.contains(x));
        assert(b.contains(y));
        to_multiset_contains(a, x);
        to_multiset_contains(b, x);
        to_multiset_contains(a, y);
        to_multiset_contains(b, y);
        let p = choose|p: int| 0 <= p < a.len() && a[p] == y;
        let q = choose|q: int| 0 <= q < b.len() && b[q] == x;
        lemma_precedes_asymmetric(x, x);
        if p > 0 {
            assert(a[0].precedes(a[p]));
            if q > 0 {
                assert(!b[q].precedes(b[0]));
            }
        }
        assert(x == y);
        let rest_a = a.drop_first();
        let rest_b = b.drop_first();
        assert(rest_a =~= a.remove(0));
        assert(rest_b =~= b.remove(0));
        to_multiset_remove(a, 0);
        to_multiset_remove(b, 0);
        assert forall|i: int, j: int| 0 <= i < j < rest_a.len() implies rest_a[i].precedes(
            rest_a[j],
        ) by {
            assert(a[i + 1].precedes(a[j + 1]));
        }
        assert forall|i: int, j: int| 0 <= i < j < rest_b.len() implies !rest_b[j].precedes(
            rest_b[i],
        ) by {
            assert(!b[j + 1].precedes(b[i + 1]));
        }
        law_ranking_is_unique(rest_a, rest_b);
        assert forall|k: int| 0 <= k < a.len() implies a[k] == b[k] by {
            if k > 0 {
                assert(rest_a[k - 1] == rest_b[k - 1]);
            }
        }
        assert(a =~= b);
    }
}

/// Merges two ranked runs into one.
fn merge(left: &Vec<Entry>, right: &Vec<Entry>) -> (out: Vec<Entry>)
    requires
        ranked(left@),
        ranked(right@),
    ensures
        ranked(out@),
        out@.to_multiset() == left@.to_multiset().add(right@.to_multiset()),
{
    let mut out: Vec<Entry> = Vec::new();
    let mut i: usize = 0;
    let mut j: usize = 0;
    proof {
        let nothing = Seq::<Entry>::empty();
        assert(left@.take(0) =~= nothing);
        assert(right@.take(0) =~= nothing);
        assert(out@ =~= nothing);
        assert(nothing + nothing =~= nothing);
        lemma_multiset_commutative(nothing, nothing);
    }
    while i < left.len() || j < right.len()
        invariant
            i <= left.len(),
            j <= right.len(),
            ranked(left@),
            ranked(right@),
            ranked(out@),
            out@.to_multiset() == left@.take(i as int).to_multiset().add(
                right@.take(j as int).to_multiset(),
            ),
            forall|k: int, a: int|
                0 <= k < out@.len() && i <= a < left@.len() ==> !left@[a].precedes(out@[k]),
            forall|k: int, b: int|
                0 <= k < out@.len() && j <= b < right@.len() ==> !right@[b].precedes(out@[k]),
        decreases left.len() - i + right.len() - j,
    {
        let from_left = if j >= right.len() {
            true
        } else if i >= left.len() {
            false
        } else {
            !right[j].is_before(&left[i])
        };
        let ghost before = out@;
        if from_left {
            let entry = left[i];
            proof {
                assert forall|b: int| j <= b < right@.len() implies !right@[b].precedes(
                    entry,
                ) by {
                    lemma_order_transitive(entry, right@[j as int], right@[b]);
                }
                assert(left@.take(i + 1) =~= left@.take(i as int).push(entry));
                to_multiset_build(left@.take(i as int), entry);
                to_multiset_build(before, entry);
            }
            out.push(entry);
            i += 1;
        } else {
            let entry = right[j];
            proof {
                lemma_precedes_asymmetric(entry, left@[i as int]);
                assert forall|a: int| i <= a < left@.len() implies !left@[a].precedes(entry) by {
                    lemma_order_transitive(entry, left@[i as int], left@[a]);
                }
                assert(right@.take(j + 1) =~= right@.take(j as int).push(entry));
                to_multiset_build(right@.take(j as int), entry);
                to_multiset_build(before, entry);
            }
            out.push(entry);
            j += 1;
        }
        assert(out@.to_multiset() =~= left@.take(i as int).to_multiset().add(
            right@.take(j as int).to_multiset(),
        ));
    }
    assert(left@.take(i as int) =~= left@);
    assert(right@.take(j as int) =~= right@);
    out
}

/// Ranks the entries `from..to` of a sequence.
fn rank_range(entries: &Vec<Entry>, from: usize, to: usize) -> (out: Vec<Entry>)
    requires
        from <= to <= entries.len(),
    ensures
        ranked(out@),
        out@.to_multiset() == entries@.subrange(from as int, to as int).to_multiset(),
    decreases to - from,
{
    let ghost part = entries@.subrange(from as int, to as int);
    if to - from == 0 {
        let out: Vec<Entry> = Vec::new();
        assert(out@ =~= part);
        out
    } else if to - from == 1 {
        let mut out: Vec<Entry> = Vec::new();
        out.push(entries[from]);
        assert(out@ =~= part);
        out
    } else {
        let middle = from + (to - from) / 2;
        let left = rank_range(entries, from, middle);
        let right = rank_range(entries, middle, to);
        proof {
            let first = entries@.subrange(from as int, middle as int);
            let second = entries@.subrange(middle as int, to as int);
            assert(part =~= first + second);
            lemma_multiset_commutative(first, second);
        }
        merge(&left, &right)
    }
}

/// Puts entries in ranking order: best score first, and among entries whose
/// scores tie the one that comes earlier in the catalog.
///
/// The result holds the same entries, each as often as the input does.
pub fn rank(entries: &Vec<Entry>) -> (out: Vec<Entry>)
    ensures
        ranked(out@),
        out@.to_multiset() == entries@.to_multiset(),
        out@.len() == entries@.len(),
        forall|i: int, j: int|
            0 <= i < out@.len() && 0 <= j < out@.len() && out@[i].score.above(out@[j].score)
                ==> i < j,
{
    let out = rank_range(entries, 0, entries.len());
    proof {
        assert(entries@.subrange(0, entries@.len() as int) =~= entries@);
        out@.to_multiset_ensures();
        entries@.to_multiset_ensures();
        assert forall|i: int, j: int|
            0 <= i < out@.len() && 0 <= j < out@.len() && out@[i].score.above(
                out@[j].score,
            ) implies i < j by {
            lemma_ranked_better_first(out@, i, j);
        }
    }
    out
}

} // verus!
