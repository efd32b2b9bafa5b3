//! Edit distance between two strings, counted in Unicode scalar values.

use vstd::prelude::*;
use crate::text::chars_of;

verus! {

/// The least of three numbers.
pub open spec fn min3(a: nat, b: nat, c: nat) -> nat {
    if a <= b {
        if a <= c { a } else { c }
    } else {
        if b <= c { b } else { c }
    }
}

/// Levenshtein distance: the least number of single-character insertions,
/// deletions and substitutions that turn `a` into `b`.
pub open spec fn edit_distance(a: Seq<char>, b: Seq<char>) -> nat
    decreases a.len() + b.len(),
{
    if a.len() == 0 {
        b.len()
    } else if b.len() == 0 {
        a.len()
    } else {
        let substitution: nat = if a.last() == b.last() { 0 } else { 1 };
        min3(
            edit_distance(a.drop_last(), b) + 1,
            edit_distance(a, b.drop_last()) + 1,
            edit_distance(a.drop_last(), b.drop_last()) + substitution,
        )
    }
}

/// The distance never exceeds the length of the longer string.
pub proof fn lemma_distance_bounded(a: Seq<char>, b: Seq<char>)
    ensures
        edit_distance(a, b) <= a.len() || edit_distance(a, b) <= b.len(),
    decreases a.len() + b.len(),
{
    if a.len() > 0 && b.len() > 0 {
        lemma_distance_bounded(a.drop_last(), b.drop_last());
    }
}

/// A string is at distance zero from itself.
pub proof fn lemma_distance_identity(a: Seq<char>)
    ensures
        edit_distance(a, a) == 0,
    decreases a.len(),
{
    if a.len() > 0 {
        lemma_distance_identity(a.drop_last());
    }
}

/// The distance does not depend on the order of its arguments.
pub proof fn lemma_distance_symmetric(a: Seq<char>, b: Seq<char>)
    ensures
        edit_distance(a, b) == edit_distance(b, a),
    decreases a.len() + b.len(),
{
    if a.len() > 0 && b.len() > 0 {
        lemma_distance_symmetric(a.drop_last(), b);
        lemma_distance_symmetric(a, b.drop_last());
        lemma_distance_symmetric(a.drop_last(), b.drop_last());
    }
}

/// The distance from or to the empty string is the other string's length.
pub proof fn lemma_distance_empty(s: Seq<char>)
    ensures
        edit_distance(Seq::<char>::empty(), s) == s.len(),
        edit_distance(s, Seq::<char>::empty()) == s.len(),
{
}

/// The distance is at least the difference of the lengths.
pub proof fn lemma_distance_spans_lengths(a: Seq<char>, b: Seq<char>)
    ensures
        a.len() <= b.len() + edit_distance(a, b),
        b.len() <= a.len() + edit_distance(a, b),
    decreases a.len() + b.len(),
{
    if a.len() > 0 && b.len() > 0 {
        lemma_distance_spans_lengths(a.drop_last(), b);
        lemma_distance_spans_lengths(a, b.drop_last());
        lemma_distance_spans_lengths(a.drop_last(), b.drop_last());
    }
}

/// The triangle inequality: going by way of a third string is never
/// shorter.
pub proof fn lemma_distance_triangle(a: Seq<char>, b: Seq<char>, c: Seq<char>)
    ensures
        edit_distance(a, c) <= edit_distance(a, b) + edit_distance(b, c),
    decreases a.len() + b.len() + c.len(),
{
    if a.len() == 0 {
        lemma_distance_spans_lengths(b, c);
    } else if c.len() == 0 {
        lemma_distance_spans_lengths(a, b);
    } else if b.len() == 0 {
        lemma_distance_bounded(a, c);
    } else {
        lemma_distance_triangle(a.drop_last(), b, c);
        lemma_distance_triangle(a, b, c.drop_last());
        lemma_distance_triangle(a, b.drop_last(), c);
        lemma_distance_triangle(a, b.drop_last(), c.drop_last());
        lemma_distance_triangle(a.drop_last(), b.drop_last(), c);
        lemma_distance_triangle(a.drop_last(), b.drop_last(), c.drop_last());
    }
}

/// Two strings are at distance zero only if they are the same.
pub proof fn lemma_distance_zero_is_same(a: Seq<char>, b: Seq<char>)
    ensures
        edit_distance(a, b) == 0 <==> a == b,
    decreases a.len() + b.len(),
{
    if a == b {
        lemma_distance_identity(a);
    }
    if edit_distance(a, b) == 0 {
        if a.len() > 0 && b.len() > 0 {
            lemma_distance_zero_is_same(a.drop_last(), b.drop_last());
            assert(a =~= a.drop_last().push(a.last()));
            assert(b =~= b.drop_last().push(b.last()));
        } else {
            assert(a =~= b);
        }
    }
}

/// One more than `v`, or `usize::MAX` where that does not fit.
fn bump(v: usize) -> (r: usize)
    ensures
        v < usize::MAX ==> r == v + 1,
        v == usize::MAX ==> r == usize::MAX,
{
    if v < usize::MAX { v + 1 } else { v }
}

/// Edit distance between two character vectors, by dynamic programming over
/// one row of the distance table.
pub fn distance_of_chars(x: &Vec<char>, y: &Vec<char>) -> (d: usize)
    ensures
        d == edit_distance(x@, y@),
{
    let n = x.len();
    let m = y.len();
    if n == 0 {
        return m;
    }
    if m == 0 {
        return n;
    }
    let mut row: Vec<usize> = Vec::new();
    let mut j: usize = 0;
    while j < m
        invariant
            j <= m,
            m == y@.len(),
            row@.len() == j,
            forall|k: int| 0 <= k < j ==> row@[k] == #[trigger] edit_distance(x@.take(0), y@.take(k + 1)),
        decreases m - j,
    {
        row.push(j + 1);
        j += 1;
    }
    let mut i: usize = 0;
    while i < n
        invariant
            i <= n,
            n == x@.len(),
            m == y@.len(),
            m > 0,
            row@.len() == m,
            forall|k: int| 0 <= k < m ==> row@[k] == #[trigger] edit_distance(x@.take(i as int), y@.take(k + 1)),
        decreases n - i,
    {
        let mut diag: usize = i;
        let mut left: usize = i + 1;
        let mut j: usize = 0;
        while j < m
            invariant
                i < n,
                j <= m,
                n == x@.len(),
                m == y@.len(),
                row@.len() == m,
                diag == edit_distance(x@.take(i as int), y@.take(j as int)),
                left == edit_distance(x@.take(i + 1), y@.take(j as int)),
                forall|k: int| 0 <= k < j ==> row@[k] == #[trigger] edit_distance(x@.take(i + 1), y@.take(k + 1)),
                forall|k: int| j <= k < m ==> row@[k] == #[trigger] edit_distance(x@.take(i as int), y@.take(k + 1)),
            decreases m - j,
        {
            let up = row[j];
            let ghost a = x@.take(i + 1);
            let ghost b = y@.take(j + 1);
            proof {
                assert(a.drop_last() == x@.take(i as int));
                assert(b.drop_last() == y@.take(j as int));
                assert(a.last() == x@[i as int]);
                assert(b.last() == y@[j as int]);
                assert(up == edit_distance(x@.take(i as int), y@.take(j + 1)));
                lemma_distance_bounded(x@.take(i as int), y@.take(j as int));
                lemma_distance_bounded(a, b);
            }
            let replaced = if x[i] == y[j] { diag } else { diag + 1 };
            let removed = bump(up);
            let added = bump(left);
            let mut cell = if removed <= added { removed } else { added };
            if replaced < cell {
                cell = replaced;
            }
            assert(cell == edit_distance(a, b));
            row.set(j, cell);
            diag = up;
            left = cell;
            j += 1;
        }
        i += 1;
    }
    proof {
        assert(x@.take(n as int) == x@);
        assert(y@.take(m - 1 + 1) == y@);
        assert(row@[m - 1] == edit_distance(x@.take(n as int), y@.take(m - 1 + 1)));
    }
    row[m - 1]
}

/// Edit distance between two strings.
pub fn distance(a: &str, b: &str) -> (d: usize)
    ensures
        d == edit_distance(a@, b@),
{
    let x = chars_of(a);
    let y = chars_of(b);
    distance_of_chars(&x, &y)
}

} // verus!
