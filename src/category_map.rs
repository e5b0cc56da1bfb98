//! Which questions belong to which category.
use vstd::prelude::*;

use crate::types::{category_index, Category};
use crate::{N_CATEGORIES, N_QUESTIONS, QUESTIONS_PER_CATEGORY};

verus! {

/// The rows of a table of question indices, each as a sequence.
pub open spec fn rows_of(rows: [[u8; 20]; 10]) -> Seq<Seq<u8>> {
    Seq::new(10, |c: int| rows@[c]@)
}

/// The first `n` rows, one after another.
pub open spec fn flatten_rows(rows: Seq<Seq<u8>>, n: nat) -> Seq<u8>
    decreases n,
{
    if n == 0 {
        Seq::empty()
    } else {
        flatten_rows(rows, (n - 1) as nat) + rows[n - 1]
    }
}

/// How many times `q` occurs in `s`.
pub open spec fn occurrences(s: Seq<u8>, q: int) -> nat
    decreases s.len(),
{
    if s.len() == 0 {
        0
    } else {
        occurrences(s.drop_last(), q) + if s.last() == q { 1nat } else { 0nat }
    }
}

/// Ten rows of twenty question indices that partition the questions: every
/// entry is a question, and every question occurs exactly once.
pub open spec fn is_partition(rows: Seq<Seq<u8>>) -> bool {
    &&& rows.len() == 10
    &&& forall|c: int| 0 <= c < 10 ==> #[trigger] rows[c].len() == 20
    &&& forall|c: int, j: int| 0 <= c < 10 && 0 <= j < 20 ==> #[trigger] rows[c][j] < 200
    &&& forall|q: int| 0 <= q < 200 ==> #[trigger] occurrences(flatten_rows(rows, 10), q) == 1
}

/// The sum of the scores at the questions listed in `idx`.
pub open spec fn sum_at(scores: Seq<u8>, idx: Seq<u8>) -> int
    decreases idx.len(),
{
    if idx.len() == 0 {
        0
    } else {
        sum_at(scores, idx.drop_last()) + scores[idx.last() as int]
    }
}

/// The raw sum of `category`: the scores of the questions in its row, added up.
pub open spec fn category_sum(scores: Seq<u8>, rows: Seq<Seq<u8>>, category: Category) -> int {
    sum_at(scores, rows[category_index(category) as int])
}

/// The sum of the first `n` scores.
pub open spec fn sum_first(scores: Seq<u8>, n: nat) -> int
    decreases n,
{
    if n == 0 {
        0
    } else {
        sum_first(scores, (n - 1) as nat) + scores[n - 1]
    }
}

/// The raw sums of the first `n` rows, added up.
pub open spec fn sum_of_rows(scores: Seq<u8>, rows: Seq<Seq<u8>>, n: nat) -> int
    decreases n,
{
    if n == 0 {
        0
    } else {
        sum_of_rows(scores, rows, (n - 1) as nat) + sum_at(scores, rows[n - 1])
    }
}

/// Each of the first `n` scores, counted as often as its question occurs in `idx`.
spec fn weighted_first(scores: Seq<u8>, idx: Seq<u8>, n: nat) -> int
    decreases n,
{
    if n == 0 {
        0
    } else {
        weighted_first(scores, idx, (n - 1) as nat) + scores[n - 1] * occurrences(idx, n - 1)
    }
}

/// Occurrences in a concatenation add up.
pub proof fn lemma_occurrences_append(s: Seq<u8>, t: Seq<u8>, q: int)
    ensures
        occurrences(s + t, q) == occurrences(s, q) + occurrences(t, q),
    decreases t.len(),
{
    if t.len() == 0 {
        assert(s + t =~= s);
    } else {
        lemma_occurrences_append(s, t.drop_last(), q);
        assert((s + t).drop_last() =~= s + t.drop_last());
    }
}

/// Taking more rows never loses an occurrence.
pub proof fn lemma_occurrences_flatten_grow(rows: Seq<Seq<u8>>, m: nat, n: nat, q: int)
    requires
        m <= n,
    ensures
        occurrences(flatten_rows(rows, m), q) <= occurrences(flatten_rows(rows, n), q),
    decreases n,
{
    if m < n {
        lemma_occurrences_flatten_grow(rows, m, (n - 1) as nat, q);
        lemma_occurrences_append(flatten_rows(rows, (n - 1) as nat), rows[n - 1], q);
    }
}

/// Sums over a concatenation add up.
proof fn lemma_sum_at_append(scores: Seq<u8>, a: Seq<u8>, b: Seq<u8>)
    ensures
        sum_at(scores, a + b) == sum_at(scores, a) + sum_at(scores, b),
    decreases b.len(),
{
    if b.len() == 0 {
        assert(a + b =~= a);
    } else {
        lemma_sum_at_append(scores, a, b.drop_last());
        assert((a + b).drop_last() =~= a + b.drop_last());
    }
}

/// The sums of the first `n` rows add up to the sum over those rows laid end to end.
proof fn lemma_sum_of_rows_flatten(scores: Seq<u8>, rows: Seq<Seq<u8>>, n: nat)
    ensures
        sum_of_rows(scores, rows, n) == sum_at(scores, flatten_rows(rows, n)),
    decreases n,
{
    if n > 0 {
        lemma_sum_of_rows_flatten(scores, rows, (n - 1) as nat);
        lemma_sum_at_append(scores, flatten_rows(rows, (n - 1) as nat), rows[n - 1]);
    }
}

/// One more occurrence of `x` adds its score once, if `x` is among the first `n`.
proof fn lemma_weighted_push(scores: Seq<u8>, idx: Seq<u8>, x: u8, n: nat)
    ensures
        weighted_first(scores, idx.push(x), n) == weighted_first(scores, idx, n) + if x < n {
            scores[x as int] as int
        } else {
            0
        },
    decreases n,
{
    if n > 0 {
        lemma_weighted_push(scores, idx, x, (n - 1) as nat);
        assert(idx.push(x).drop_last() =~= idx);
        let k = n - 1;
        let o = occurrences(idx, k);
        let v = scores[k] as int;
        assert(v * (o + 1) == v * o + v) by (nonlinear_arith);
    }
}

/// With nothing listed, nothing is counted.
proof fn lemma_weighted_empty(scores: Seq<u8>, idx: Seq<u8>, n: nat)
    requires
        idx.len() == 0,
    ensures
        weighted_first(scores, idx, n) == 0,
    decreases n,
{
    if n > 0 {
        lemma_weighted_empty(scores, idx, (n - 1) as nat);
        assert(occurrences(idx, n - 1) == 0);
        assert(scores[n - 1] * 0 == 0);
    }
}

/// A sum over listed questions counts each score as often as its question is listed.
proof fn lemma_sum_at_weighted(scores: Seq<u8>, idx: Seq<u8>)
    requires
        forall|j: int| 0 <= j < idx.len() ==> #[trigger] idx[j] < 200,
    ensures
        sum_at(scores, idx) == weighted_first(scores, idx, 200),
    decreases idx.len(),
{
    if idx.len() == 0 {
        lemma_weighted_empty(scores, idx, 200);
    } else {
        let init = idx.drop_last();
        lemma_sum_at_weighted(scores, init);
        assert(init.push(idx.last()) =~= idx);
        lemma_weighted_push(scores, init, idx.last(), 200);
    }
}

/// Where each of the first `n` questions is listed once, the weighted sum is the plain one.
proof fn lemma_weighted_once(scores: Seq<u8>, idx: Seq<u8>, n: nat)
    requires
        forall|q: int| 0 <= q < n ==> #[trigger] occurrences(idx, q) == 1,
    ensures
        weighted_first(scores, idx, n) == sum_first(scores, n),
    decreases n,
{
    if n > 0 {
        lemma_weighted_once(scores, idx, (n - 1) as nat);
        assert(occurrences(idx, n - 1) == 1);
    }
}

/// The raw sums of the ten categories of a partition add up to the sum of all
/// two hundred question scores.
pub proof fn lemma_category_sums_add_up(scores: Seq<u8>, rows: Seq<Seq<u8>>)
    requires
        is_partition(rows),
        scores.len() == 200,
    ensures
        sum_of_rows(scores, rows, 10) == sum_first(scores, 200),
{
    let flat = flatten_rows(rows, 10);
    lemma_sum_of_rows_flatten(scores, rows, 10);
    lemma_flatten_entries(rows, 10);
    lemma_sum_at_weighted(scores, flat);
    lemma_weighted_once(scores, flat, 200);
}

/// Every entry of the first `n` rows of a partition is a question.
proof fn lemma_flatten_entries(rows: Seq<Seq<u8>>, n: nat)
    requires
        is_partition(rows),
        n <= 10,
    ensures
        forall|j: int| 0 <= j < flatten_rows(rows, n).len() ==> #[trigger] flatten_rows(rows, n)[j] < 200,
    decreases n,
{
    if n > 0 {
        lemma_flatten_entries(rows, (n - 1) as nat);
        let a = flatten_rows(rows, (n - 1) as nat);
        let b = rows[n - 1];
        assert forall|j: int| 0 <= j < (a + b).len() implies #[trigger] (a + b)[j] < 200 by {
            if j >= a.len() {
                assert(b[j - a.len()] == rows[n - 1][j - a.len()]);
            }
        }
    }
}

/// The question indices of each category: row `c` lists the twenty questions of
/// the category at index `c`, and the rows partition the questions.
pub struct CategoryMap {
    rows: [[u8; 20]; 10],
}

impl CategoryMap {
    #[verifier::type_invariant]
    spec fn partitions_questions(self) -> bool {
        is_partition(rows_of(self.rows))
    }

    /// Builds a map from its rows, or `None` unless the rows partition the
    /// questions.
    pub fn new(rows: [[u8; 20]; 10]) -> (r: Option<CategoryMap>)
        ensures
            r.is_some() <==> is_partition(rows_of(rows)),
            r matches Some(m) ==> m@ == rows_of(rows),
    {
        let ghost all = rows_of(rows);
        let mut counts = [0u8; 200];
        let mut c: usize = 0;
        while c < N_CATEGORIES
            invariant
                0 <= c <= 10,
                all == rows_of(rows),
                forall|q: int| 0 <= q < 200 ==> #[trigger] counts@[q] as nat == occurrences(flatten_rows(all, c as nat), q),
                forall|q: int| 0 <= q < 200 ==> #[trigger] counts@[q] <= 1,
                forall|c1: int, j1: int| 0 <= c1 < c && 0 <= j1 < 20 ==> #[trigger] all[c1][j1] < 200,
            decreases 10 - c,
        {
            let row = rows[c];
            assert(row@ == all[c as int]);
            let mut j: usize = 0;
            while j < QUESTIONS_PER_CATEGORY
                invariant
                    0 <= c < 10,
                    0 <= j <= 20,
                    all == rows_of(rows),
                    row@ == all[c as int],
                    forall|q: int| 0 <= q < 200 ==> #[trigger] counts@[q] as nat == occurrences(flatten_rows(all, c as nat) + row@.take(j as int), q),
                    forall|q: int| 0 <= q < 200 ==> #[trigger] counts@[q] <= 1,
                    forall|c1: int, j1: int| 0 <= c1 < c && 0 <= j1 < 20 ==> #[trigger] all[c1][j1] < 200,
                    forall|j1: int| 0 <= j1 < j ==> #[trigger] row@[j1] < 200,
                decreases 20 - j,
            {
                let q = row[j];
                let ghost before = flatten_rows(all, c as nat) + row@.take(j as int);
                let ghost after = flatten_rows(all, c as nat) + row@.take(j + 1);
                assert(after =~= before.push(q));
                assert(after.drop_last() =~= before);
                if q >= 200 {
                    assert(all[c as int][j as int] >= 200);
                    return None;
                }
                if counts[q as usize] != 0 {
                    proof {
                        assert(occurrences(after, q as int) == 2);
                        assert(flatten_rows(all, (c + 1) as nat) =~= after + row@.skip(j + 1));
                        lemma_occurrences_append(after, row@.skip(j + 1), q as int);
                        lemma_occurrences_flatten_grow(all, (c + 1) as nat, 10, q as int);
                    }
                    return None;
                }
                counts[q as usize] = 1;
                j += 1;
            }
            assert(flatten_rows(all, c as nat) + row@.take(20) =~= flatten_rows(all, (c + 1) as nat));
            c += 1;
        }
        let mut q: usize = 0;
        while q < N_QUESTIONS
            invariant
                0 <= q <= 200,
                forall|q1: int| 0 <= q1 < 200 ==> #[trigger] counts@[q1] as nat == occurrences(flatten_rows(all, 10), q1),
                forall|q1: int| 0 <= q1 < q ==> #[trigger] counts@[q1] == 1,
                forall|c1: int, j1: int| 0 <= c1 < 10 && 0 <= j1 < 20 ==> #[trigger] all[c1][j1] < 200,
                all == rows_of(rows),
            decreases 200 - q,
        {
            if counts[q] != 1 {
                assert(counts@[q as int] as nat == occurrences(flatten_rows(all, 10), q as int));
                return None;
            }
            q += 1;
        }
        assert forall|q1: int| 0 <= q1 < 200 implies #[trigger] occurrences(flatten_rows(all, 10), q1) == 1 by {
            assert(counts@[q1] == 1);
        }
        assert forall|c1: int| 0 <= c1 < 10 implies #[trigger] all[c1].len() == 20 by {}
        Some(CategoryMap { rows })
    }

    /// The questions of `category`.
    pub fn row(&self, category: Category) -> (r: [u8; 20])
        ensures
            r@ == self@[category_index(category) as int],
            forall|j: int| 0 <= j < 20 ==> #[trigger] r@[j] < 200,
    {
        proof { use_type_invariant(self); }
        let r = self.rows[category.index() as usize];
        assert forall|j: int| 0 <= j < 20 implies #[trigger] r@[j] < 200 by {
            assert(self@[category_index(category) as int][j] < 200);
        }
        r
    }
}

impl View for CategoryMap {
    type V = Seq<Seq<u8>>;

    closed spec fn view(&self) -> Seq<Seq<u8>> {
        rows_of(self.rows)
    }
}

} // verus!
