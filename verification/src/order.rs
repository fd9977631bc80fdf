//! Sorting the current results by path, then file name.
//!
//! The engine offers an expensive call that re-sorts the current result
//! list by path and file name in place.  The order is lexicographic by
//! character; here it is defined as a specification, proved to be a total
//! order, and implemented as a verified selection sort over the modeled
//! result rows.

use vstd::prelude::*;
use vstd::multiset::Multiset;
use vstd::string::StrSliceExecFns;

use crate::engine::ResultRow;

verus! {

broadcast use vstd::seq_lib::group_to_multiset_ensures;

/// Lexicographic order on texts: the shorter of two equal-prefixed texts
/// comes first, otherwise the first differing character decides.
pub open spec fn chars_le(a: Seq<char>, b: Seq<char>) -> bool
    decreases a.len(),
{
    if a.len() == 0 {
        true
    } else if b.len() == 0 {
        false
    } else if a[0] != b[0] {
        a[0] < b[0]
    } else {
        chars_le(a.drop_first(), b.drop_first())
    }
}

/// Strictly before, lexicographically.
pub open spec fn chars_lt(a: Seq<char>, b: Seq<char>) -> bool {
    chars_le(a, b) && a != b
}

/// The order the engine's sort-by-path produces: by path, ties broken by
/// file name.
pub open spec fn row_path_le(a: ResultRow, b: ResultRow) -> bool {
    chars_lt(a.path@, b.path@) || (a.path@ == b.path@ && chars_le(a.name@, b.name@))
}

/// Sorted by path, then file name.
pub open spec fn sorted_by_path(rows: Seq<ResultRow>) -> bool {
    forall|i: int, j: int|
        0 <= i < j < rows.len() ==> row_path_le(#[trigger] rows[i], #[trigger] rows[j])
}

/// Any two texts are ordered one way or the other.
pub proof fn lemma_chars_le_total(a: Seq<char>, b: Seq<char>)
    ensures
        chars_le(a, b) || chars_le(b, a),
    decreases a.len(),
{
    if a.len() > 0 && b.len() > 0 && a[0] == b[0] {
        lemma_chars_le_total(a.drop_first(), b.drop_first());
    }
}

/// Every text is no later than itself.
pub proof fn lemma_chars_le_reflexive(a: Seq<char>)
    ensures
        chars_le(a, a),
    decreases a.len(),
{
    if a.len() > 0 {
        lemma_chars_le_reflexive(a.drop_first());
    }
}

/// Every row is no later than itself.
pub proof fn lemma_row_path_le_reflexive(a: ResultRow)
    ensures
        row_path_le(a, a),
{
    lemma_chars_le_reflexive(a.name@);
}

/// Two texts each no later than the other are the same text.
pub proof fn lemma_chars_le_antisymmetric(a: Seq<char>, b: Seq<char>)
    requires
        chars_le(a, b),
        chars_le(b, a),
    ensures
        a == b,
    decreases a.len(),
{
    if a.len() == 0 {
        assert(b.len() == 0);
        assert(a =~= b);
    } else {
        assert(b.len() > 0);
        assert(a[0] == b[0]);
        lemma_chars_le_antisymmetric(a.drop_first(), b.drop_first());
        assert(a.drop_first().len() == a.len() - 1);
        assert(b.drop_first().len() == b.len() - 1);
        assert(a.drop_first() == b.drop_first());
        assert(a.len() == b.len());
        assert forall|x: int| 0 <= x < a.len() implies a[x] == b[x] by {
            if x > 0 {
                assert(a.drop_first()[x - 1] == a[x]);
                assert(b.drop_first()[x - 1] == b[x]);
                assert(a.drop_first() == b.drop_first());
            }
        }
        assert(a =~= b);
    }
}

/// The order on texts is transitive.
pub proof fn lemma_chars_le_transitive(a: Seq<char>, b: Seq<char>, c: Seq<char>)
    requires
        chars_le(a, b),
        chars_le(b, c),
    ensures
        chars_le(a, c),
    decreases a.len(),
{
    if a.len() > 0 && b.len() > 0 && c.len() > 0 && a[0] == b[0] && b[0] == c[0] {
        lemma_chars_le_transitive(a.drop_first(), b.drop_first(), c.drop_first());
    }
}

/// Any two rows are ordered one way or the other.
pub proof fn lemma_row_path_le_total(a: ResultRow, b: ResultRow)
    ensures
        row_path_le(a, b) || row_path_le(b, a),
{
    lemma_chars_le_total(a.path@, b.path@);
    lemma_chars_le_total(a.name@, b.name@);
    if chars_le(a.path@, b.path@) && chars_le(b.path@, a.path@) {
        lemma_chars_le_antisymmetric(a.path@, b.path@);
    }
}

/// The order on rows is transitive.
pub proof fn lemma_row_path_le_transitive(a: ResultRow, b: ResultRow, c: ResultRow)
    requires
        row_path_le(a, b),
        row_path_le(b, c),
    ensures
        row_path_le(a, c),
{
    if chars_le(a.path@, b.path@) && chars_le(b.path@, c.path@) {
        lemma_chars_le_transitive(a.path@, b.path@, c.path@);
    }
    if a.path@ != c.path@ {
        if chars_le(c.path@, a.path@) && chars_le(a.path@, c.path@) {
            lemma_chars_le_antisymmetric(a.path@, c.path@);
        }
    } else {
        if a.path@ != b.path@ {
            // a.path == c.path, so b sits between two equal paths
            if chars_le(a.path@, b.path@) && chars_le(b.path@, a.path@) {
                lemma_chars_le_antisymmetric(a.path@, b.path@);
            }
            lemma_chars_le_transitive(b.path@, c.path@, a.path@);
            assert(chars_le(c.path@, a.path@) ==> chars_le(b.path@, a.path@)) by {
                if chars_le(c.path@, a.path@) {
                    lemma_chars_le_transitive(b.path@, c.path@, a.path@);
                }
            }
            lemma_chars_le_antisymmetric(a.path@, b.path@);
        } else {
            lemma_chars_le_transitive(a.name@, b.name@, c.name@);
        }
    }
}

/// Skipping an equal prefix does not change how two texts compare.
proof fn lemma_chars_le_skip(a: Seq<char>, b: Seq<char>, i: int)
    requires
        0 <= i <= a.len(),
        i <= b.len(),
        forall|j: int| 0 <= j < i ==> a[j] == b[j],
    ensures
        chars_le(a, b) == chars_le(a.skip(i), b.skip(i)),
    decreases i,
{
    if i == 0 {
        assert(a.skip(0) =~= a);
        assert(b.skip(0) =~= b);
    } else {
        lemma_chars_le_skip(a.drop_first(), b.drop_first(), i - 1);
        assert(a.drop_first().skip(i - 1) =~= a.skip(i));
        assert(b.drop_first().skip(i - 1) =~= b.skip(i));
    }
}

/// Compare two texts lexicographically.
pub fn str_chars_le(a: &str, b: &str) -> (r: bool)
    ensures
        r == chars_le(a@, b@),
{
    let alen = a.unicode_len();
    let blen = b.unicode_len();
    let mut i: usize = 0;
    while i < alen && i < blen
        invariant
            alen == a@.len(),
            blen == b@.len(),
            i <= alen,
            i <= blen,
            forall|j: int| 0 <= j < i ==> a@[j] == b@[j],
        decreases alen - i,
    {
        let ca = a.get_char(i);
        let cb = b.get_char(i);
        if ca != cb {
            proof {
                lemma_chars_le_skip(a@, b@, i as int);
            }
            return ca < cb;
        }
        i += 1;
    }
    proof {
        lemma_chars_le_skip(a@, b@, i as int);
    }
    i == alen
}

/// Compare two rows by path, then file name.
pub fn row_path_le_exec(a: &ResultRow, b: &ResultRow) -> (r: bool)
    ensures
        r == row_path_le(*a, *b),
{
    if a.path == b.path {
        str_chars_le(a.name.as_str(), b.name.as_str())
    } else {
        str_chars_le(a.path.as_str(), b.path.as_str())
    }
}

/// Sort rows by path, then file name: the result is ordered and holds
/// exactly the same rows.
pub fn sort_rows_by_path(src: Vec<ResultRow>) -> (out: Vec<ResultRow>)
    ensures
        out@.to_multiset() == src@.to_multiset(),
        out@.len() == src@.len(),
        sorted_by_path(out@),
        forall|i: int| 0 <= i < out@.len() ==> src@.contains(#[trigger] out@[i]),
{
    let ghost orig = src@;
    let mut rest = src;
    let mut out: Vec<ResultRow> = Vec::new();
    while rest.len() > 0
        invariant
            out@.len() + rest@.len() == orig.len(),
            out@.to_multiset().add(rest@.to_multiset()) == orig.to_multiset(),
            sorted_by_path(out@),
            forall|i: int, j: int|
                0 <= i < out@.len() && 0 <= j < rest@.len() ==> row_path_le(
                    #[trigger] out@[i],
                    #[trigger] rest@[j],
                ),
            forall|i: int| 0 <= i < out@.len() ==> orig.contains(#[trigger] out@[i]),
        decreases rest@.len(),
    {
        let mut m: usize = 0;
        let mut k: usize = 1;
        proof {
            lemma_row_path_le_reflexive(rest@[0]);
        }
        while k < rest.len()
            invariant
                rest@.len() > 0,
                m < k,
                k <= rest@.len(),
                forall|j: int| 0 <= j < k ==> row_path_le(rest@[m as int], #[trigger] rest@[j]),
            decreases rest@.len() - k,
        {
            if row_path_le_exec(&rest[k], &rest[m]) {
                proof {
                    assert forall|j: int| 0 <= j < k + 1 implies row_path_le(
                        rest@[k as int],
                        #[trigger] rest@[j],
                    ) by {
                        if j < k {
                            lemma_row_path_le_transitive(rest@[k as int], rest@[m as int], rest@[j]);
                        } else {
                            lemma_row_path_le_reflexive(rest@[k as int]);
                        }
                    }
                }
                m = k;
            } else {
                proof {
                    lemma_row_path_le_total(rest@[k as int], rest@[m as int]);
                }
            }
            k += 1;
        }
        let ghost rest0 = rest@;
        let x = rest.remove(m);
        proof {
            assert(rest0.contains(x)) by {
                assert(rest0[m as int] == x);
            }
            assert(orig.to_multiset().count(x) > 0) by {
                assert(rest0.to_multiset().count(x) > 0);
                assert(out@.to_multiset().add(rest0.to_multiset()) == orig.to_multiset());
            }
            assert(orig.contains(x));
        }
        out.push(x);
        proof {
            // the extracted minimum keeps both orderings intact
            assert forall|i: int, j: int|
                0 <= i < out@.len() && 0 <= j < rest@.len() implies row_path_le(
                #[trigger] out@[i],
                #[trigger] rest@[j],
            ) by {
                let rj = if j < m {
                    j
                } else {
                    j + 1
                };
                assert(rest@[j] == rest0[rj]);
                if i < out@.len() - 1 {
                    assert(row_path_le(out@[i], rest0[rj]));
                } else {
                    assert(out@[i] == x);
                    assert(row_path_le(x, rest0[rj]));
                }
            }
            assert forall|i: int, j: int|
                0 <= i < j < out@.len() implies row_path_le(
                #[trigger] out@[i],
                #[trigger] out@[j],
            ) by {
                if j == out@.len() - 1 {
                    assert(row_path_le(out@[i], rest0[m as int]));
                }
            }
            // the multisets still add up to the original rows
            assert(out@.to_multiset().add(rest@.to_multiset()) =~= orig.to_multiset());
        }
    }
    proof {
        assert(rest@.to_multiset() =~= Multiset::<ResultRow>::empty());
        assert(out@.to_multiset() =~= orig.to_multiset());
    }
    out
}

} // verus!
