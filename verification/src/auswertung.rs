//! Aggregate queries over a collection of articles with integer-cent
//! prices: total, average, and the count of articles above a threshold.

use vstd::prelude::*;
use vstd::seq_lib::commutative_foldr;
use vstd::seq_lib::lemma_fold_right_permutation;
use crate::artikel::Artikel;

verus! {

/// The sum of all prices of a sequence of articles; 0 for the empty sequence.
pub open spec fn sum_prices(s: Seq<Artikel<i64>>) -> int
    decreases s.len(),
{
    if s.len() == 0 {
        0
    } else {
        sum_prices(s.drop_last()) + s.last().preis
    }
}

/// Returns the total of all prices; 0 for an empty collection. The result
/// is an `i128` so that no collection of `i64` prices can overflow it.
pub fn total_price(artikel: &Vec<Artikel<i64>>) -> (gesamt: i128)
    ensures
        gesamt == sum_prices(artikel@),
{
    let mut gesamt: i128 = 0;
    let mut j: usize = 0;
    while j < artikel.len()
        invariant
            j <= artikel@.len(),
            gesamt == sum_prices(artikel@.subrange(0, j as int)),
            -(j as int) * 0x8000_0000_0000_0000 <= gesamt <= (j as int) * 0x7fff_ffff_ffff_ffff,
        decreases artikel@.len() - j,
    {
        proof {
            assert(artikel@.subrange(0, j + 1).drop_last() =~= artikel@.subrange(0, j as int));
            assert(artikel@.subrange(0, j + 1).last() == artikel@[j as int]);
        }
        gesamt = gesamt + artikel[j].preis as i128;
        j += 1;
    }
    proof {
        assert(artikel@.subrange(0, artikel@.len() as int) =~= artikel@);
    }
    gesamt
}

/// The average of a total over `n` values, truncated towards zero; 0 when
/// `n` is 0. The empty case is a deliberate policy: an empty collection has
/// a defined average of 0 rather than an undefined numeric value.
pub open spec fn durchschnitt_of(total: int, n: nat) -> int {
    if n == 0 {
        0
    } else if total >= 0 {
        total / (n as int)
    } else {
        -((-total) / (n as int))
    }
}

/// Returns the average price, truncated towards zero; 0 for an empty
/// collection (a documented policy, not an error).
pub fn average_price(artikel: &Vec<Artikel<i64>>) -> (durchschnitt: i128)
    ensures
        durchschnitt == durchschnitt_of(sum_prices(artikel@), artikel@.len()),
{
    if artikel.len() == 0 {
        0
    } else {
        let gesamt = total_price(artikel);
        gesamt / (artikel.len() as i128)
    }
}

/// The number of articles whose price is strictly greater than `schwelle`.
pub open spec fn count_over(s: Seq<Artikel<i64>>, schwelle: int) -> nat
    decreases s.len(),
{
    if s.len() == 0 {
        0
    } else {
        count_over(s.drop_last(), schwelle) + (if s.last().preis > schwelle {
            1nat
        } else {
            0nat
        })
    }
}

/// Returns how many articles cost strictly more than the threshold.
pub fn count_over_threshold(artikel: &Vec<Artikel<i64>>, schwelle: i64) -> (teuer: usize)
    ensures
        teuer == count_over(artikel@, schwelle as int),
{
    let mut teuer: usize = 0;
    let mut j: usize = 0;
    while j < artikel.len()
        invariant
            j <= artikel@.len(),
            teuer == count_over(artikel@.subrange(0, j as int), schwelle as int),
            teuer <= j,
        decreases artikel@.len() - j,
    {
        proof {
            assert(artikel@.subrange(0, j + 1).drop_last() =~= artikel@.subrange(0, j as int));
            assert(artikel@.subrange(0, j + 1).last() == artikel@[j as int]);
        }
        if artikel[j].preis > schwelle {
            teuer += 1;
        }
        j += 1;
    }
    proof {
        assert(artikel@.subrange(0, artikel@.len() as int) =~= artikel@);
    }
    teuer
}

/// The collection that discounting `s` with pricing function `g` yields:
/// same names and order, each price recomputed by `g`.
pub open spec fn rabattiert_seq(s: Seq<Artikel<i64>>, g: spec_fn(Artikel<i64>) -> i64) -> Seq<
    Artikel<i64>,
> {
    s.map_values(|a: Artikel<i64>| Artikel { name: a.name, preis: g(a) })
}

/// The total that discounting `s` with pricing function `g` yields.
pub open spec fn sum_discounted(s: Seq<Artikel<i64>>, g: spec_fn(Artikel<i64>) -> i64) -> int
    decreases s.len(),
{
    if s.len() == 0 {
        0
    } else {
        sum_discounted(s.drop_last(), g) + g(s.last())
    }
}

/// Folding `f` over a sequence is `sum_discounted` plus the seed, whenever
/// `f` adds `g` of the element to the accumulator.
proof fn lemma_sum_discounted_fold(
    s: Seq<Artikel<i64>>,
    g: spec_fn(Artikel<i64>) -> i64,
    f: spec_fn(Artikel<i64>, int) -> int,
    b: int,
)
    requires
        forall|a: Artikel<i64>, v: int| #[trigger] f(a, v) == g(a) + v,
    ensures
        s.fold_right(f, b) == sum_discounted(s, g) + b,
    decreases s.len(),
{
    if s.len() > 0 {
        lemma_sum_discounted_fold(s.drop_last(), g, f, f(s.last(), b));
    }
}

/// Summing the prices of a discounted collection is summing the recomputed
/// prices of the original one.
pub proof fn lemma_sum_prices_rabattiert(s: Seq<Artikel<i64>>, g: spec_fn(Artikel<i64>) -> i64)
    ensures
        sum_prices(rabattiert_seq(s, g)) == sum_discounted(s, g),
    decreases s.len(),
{
    if s.len() > 0 {
        assert(rabattiert_seq(s, g).drop_last() =~= rabattiert_seq(s.drop_last(), g));
        lemma_sum_prices_rabattiert(s.drop_last(), g);
    }
}

/// Law: the discounted total is independent of the order of the articles.
/// Reordering a collection before discounting it with any pricing function
/// leaves the total of the discounted prices unchanged.
pub proof fn lemma_discounted_total_permutation(
    s1: Seq<Artikel<i64>>,
    s2: Seq<Artikel<i64>>,
    g: spec_fn(Artikel<i64>) -> i64,
)
    requires
        s1.to_multiset() == s2.to_multiset(),
    ensures
        sum_prices(rabattiert_seq(s1, g)) == sum_prices(rabattiert_seq(s2, g)),
{
    let f = |a: Artikel<i64>, v: int| g(a) + v;
    lemma_sum_discounted_fold(s1, g, f, 0);
    lemma_sum_discounted_fold(s2, g, f, 0);
    assert(commutative_foldr(f)) by {
        assert forall|x: Artikel<i64>, y: Artikel<i64>, v: int| #[trigger] f(x, f(y, v)) == f(
            y,
            f(x, v),
        ) by {}
    }
    lemma_fold_right_permutation(s1, s2, f, 0);
    lemma_sum_prices_rabattiert(s1, g);
    lemma_sum_prices_rabattiert(s2, g);
}

/// Law: the total of a collection depends only on which articles it holds,
/// not on their order.
pub proof fn lemma_total_permutation(s1: Seq<Artikel<i64>>, s2: Seq<Artikel<i64>>)
    requires
        s1.to_multiset() == s2.to_multiset(),
    ensures
        sum_prices(s1) == sum_prices(s2),
{
    let g = |a: Artikel<i64>| a.preis;
    let f = |a: Artikel<i64>, v: int| g(a) + v;
    lemma_sum_discounted_fold(s1, g, f, 0);
    lemma_sum_discounted_fold(s2, g, f, 0);
    lemma_sum_prices_as_discounted(s1, g);
    lemma_sum_prices_as_discounted(s2, g);
    assert(commutative_foldr(f)) by {
        assert forall|x: Artikel<i64>, y: Artikel<i64>, v: int| #[trigger] f(x, f(y, v)) == f(
            y,
            f(x, v),
        ) by {}
    }
    lemma_fold_right_permutation(s1, s2, f, 0);
}

/// When `g` reports each article's stored price, `sum_discounted` is
/// `sum_prices`.
proof fn lemma_sum_prices_as_discounted(s: Seq<Artikel<i64>>, g: spec_fn(Artikel<i64>) -> i64)
    requires
        forall|a: Artikel<i64>| #[trigger] g(a) == a.preis,
    ensures
        sum_discounted(s, g) == sum_prices(s),
    decreases s.len(),
{
    if s.len() > 0 {
        lemma_sum_prices_as_discounted(s.drop_last(), g);
    }
}

} // verus!
