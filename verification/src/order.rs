//! Lexicographic order on character sequences, and binary search in tables of
//! words that are sorted by it.

use vstd::prelude::*;
use vstd::string::*;
use crate::text::chars_of;

verus! {

/// `a` comes before `b` in lexicographic order, given that the two agree on
/// their first `k` characters.
pub open spec fn precedes_from(a: Seq<char>, b: Seq<char>, k: int) -> bool
    decreases b.len() - k,
{
    if k >= b.len() {
        false
    } else if k >= a.len() {
        true
    } else if a[k] != b[k] {
        a[k] < b[k]
    } else {
        precedes_from(a, b, k + 1)
    }
}

/// `a` comes strictly before `b` in lexicographic order.
pub open spec fn precedes(a: Seq<char>, b: Seq<char>) -> bool {
    precedes_from(a, b, 0)
}

/// The words of `table` stand in strictly ascending lexicographic order.
pub open spec fn ascending(table: Seq<&'static str>) -> bool {
    forall|i: int, j: int|
        0 <= i < j < table.len() ==> precedes(#[trigger] table[i]@, #[trigger] table[j]@)
}

/// Each word of `table` comes before the next one.
pub open spec fn stepwise_ascending(table: Seq<&'static str>) -> bool {
    forall|i: int| 0 <= i < table.len() - 1 ==> precedes(#[trigger] table[i]@, table[i + 1]@)
}

/// `word` is one of the words of `table`: what a scan from the first entry to
/// the last finds.
pub open spec fn holds(table: Seq<&'static str>, word: Seq<char>) -> bool {
    exists|i: int| 0 <= i < table.len() && (#[trigger] table[i])@ == word
}

/// How two words stand to each other.
#[derive(Debug, Clone, Copy, PartialEq, Eq, Structural)]
pub enum Rank {
    Before,
    Same,
    After,
}

/// No word comes before itself.
pub proof fn lemma_precedes_irreflexive(a: Seq<char>, k: int)
    requires
        0 <= k,
    ensures
        !precedes_from(a, a, k),
    decreases a.len() - k,
{
    if k < a.len() {
        lemma_precedes_irreflexive(a, k + 1);
    }
}

/// The order is transitive.
pub proof fn lemma_precedes_transitive(a: Seq<char>, b: Seq<char>, c: Seq<char>, k: int)
    requires
        0 <= k,
        precedes_from(a, b, k),
        precedes_from(b, c, k),
    ensures
        precedes_from(a, c, k),
    decreases c.len() - k,
{
    if k < a.len() && k < b.len() && k < c.len() && a[k] == b[k] && b[k] == c[k] {
        lemma_precedes_transitive(a, b, c, k + 1);
    }
}

/// A table whose neighbours ascend ascends as a whole.
pub proof fn lemma_stepwise_ascending(table: Seq<&'static str>)
    requires
        stepwise_ascending(table),
    ensures
        ascending(table),
{
    assert forall|i: int, j: int| 0 <= i < j < table.len() implies precedes(
        #[trigger] table[i]@,
        #[trigger] table[j]@,
    ) by {
        lemma_ascending_pair(table, i, j);
    }
}

proof fn lemma_ascending_pair(table: Seq<&'static str>, i: int, j: int)
    requires
        stepwise_ascending(table),
        0 <= i < j < table.len(),
    ensures
        precedes(table[i]@, table[j]@),
    decreases j - i,
{
    if i + 1 < j {
        lemma_ascending_pair(table, i, j - 1);
        assert(precedes(table[j - 1]@, table[j - 1 + 1]@));
        lemma_precedes_transitive(table[i]@, table[j - 1]@, table[j]@, 0);
    } else {
        assert(precedes(table[i]@, table[i + 1]@));
    }
}

/// Compares two words lexicographically.
pub fn rank(a: &Vec<char>, b: &Vec<char>) -> (r: Rank)
    ensures
        r is Before <==> precedes(a@, b@),
        r is Same <==> a@ == b@,
        r is After <==> precedes(b@, a@),
{
    let mut i: usize = 0;
    while i < a.len() && i < b.len()
        invariant
            i <= a.len(),
            i <= b.len(),
            forall|j: int| 0 <= j < i ==> a@[j] == b@[j],
            precedes(a@, b@) == precedes_from(a@, b@, i as int),
            precedes(b@, a@) == precedes_from(b@, a@, i as int),
        decreases a.len() - i,
    {
        if a[i] < b[i] {
            assert(a@[i as int] != b@[i as int]);
            return Rank::Before;
        }
        if a[i] > b[i] {
            assert(a@[i as int] != b@[i as int]);
            return Rank::After;
        }
        i += 1;
    }
    if i < b.len() {
        assert(a@.len() != b@.len());
        Rank::Before
    } else if i < a.len() {
        assert(a@.len() != b@.len());
        Rank::After
    } else {
        assert(a@ =~= b@);
        proof {
            lemma_precedes_irreflexive(a@, 0);
        }
        Rank::Same
    }
}

/// Binary search for `word` in an ascending table.
pub fn search<const N: usize>(table: &[&'static str; N], word: &Vec<char>) -> (r: bool)
    requires
        ascending(table@),
    ensures
        r == holds(table@, word@),
{
    let mut lo: usize = 0;
    let mut hi: usize = N;
    while lo < hi
        invariant
            lo <= hi <= N,
            N == table@.len(),
            ascending(table@),
            forall|j: int| 0 <= j < lo ==> (#[trigger] table@[j])@ != word@,
            forall|j: int| hi <= j < N ==> (#[trigger] table@[j])@ != word@,
        decreases hi - lo,
    {
        let mid: usize = lo + (hi - lo) / 2;
        let entry = chars_of(table[mid]);
        match rank(&entry, word) {
            Rank::Same => {
                assert(table@[mid as int]@ == word@);
                return true;
            },
            Rank::Before => {
                assert forall|j: int| 0 <= j < mid + 1 implies (#[trigger] table@[j])@
                    != word@ by {
                    if j < mid {
                        assert(precedes(table@[j]@, table@[mid as int]@));
                        lemma_precedes_transitive(table@[j]@, entry@, word@, 0);
                    }
                    lemma_precedes_irreflexive(word@, 0);
                }
                lo = mid + 1;
            },
            Rank::After => {
                assert forall|j: int| mid <= j < N implies (#[trigger] table@[j])@
                    != word@ by {
                    if mid < j {
                        assert(precedes(table@[mid as int]@, table@[j]@));
                        lemma_precedes_transitive(word@, entry@, table@[j]@, 0);
                    }
                    lemma_precedes_irreflexive(word@, 0);
                }
                hi = mid;
            },
        }
    }
    false
}

} // verus!
