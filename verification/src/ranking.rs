//! Stable ranking of scored genomes.
//!
//! A generation pairs every genome with its fitness and sorts the pairs
//! ascending by fitness (best first). The sort must be stable — ties keep
//! their original relative order — or reproducibility under a fixed seed
//! breaks. `rank_sort` is the mathematical model (a stable insertion sort)
//! and `sort_ranked` is the verified executable that realises it exactly.

use vstd::prelude::*;

verus! {

broadcast use vstd::seq_lib::group_to_multiset_ensures;

/// Ascending by fitness: every earlier pair scores no worse than a later one.
pub open spec fn sorted_by_fitness<G>(s: Seq<(G, u64)>) -> bool {
    forall|i: int, j: int| 0 <= i <= j < s.len() ==> (#[trigger] s[i]).1 <= (#[trigger] s[j]).1
}

/// Stable insertion of one scored genome into an already sorted sequence:
/// the new pair lands after every pair whose fitness is less than or equal
/// to its own, so equal fitnesses keep their original relative order.
pub open spec fn insert_ranked<G>(s: Seq<(G, u64)>, x: (G, u64)) -> Seq<(G, u64)>
    decreases s.len(),
{
    if s.len() == 0 {
        seq![x]
    } else if s.last().1 <= x.1 {
        s.push(x)
    } else {
        insert_ranked(s.drop_last(), x).push(s.last())
    }
}

/// Stable sort ascending by fitness, built by inserting the pairs in their
/// original order.
pub open spec fn rank_sort<G>(s: Seq<(G, u64)>) -> Seq<(G, u64)>
    decreases s.len(),
{
    if s.len() == 0 {
        Seq::empty()
    } else {
        insert_ranked(rank_sort(s.drop_last()), s.last())
    }
}

pub proof fn lemma_insert_ranked_len<G>(s: Seq<(G, u64)>, x: (G, u64))
    ensures
        insert_ranked(s, x).len() == s.len() + 1,
    decreases s.len(),
{
    if s.len() == 0 {
    } else if s.last().1 <= x.1 {
    } else {
        lemma_insert_ranked_len(s.drop_last(), x);
    }
}

/// Ranking neither creates nor drops genomes: the sorted sequence has the
/// same length as the scored sequence it came from.
pub proof fn lemma_rank_sort_len<G>(s: Seq<(G, u64)>)
    ensures
        rank_sort(s).len() == s.len(),
    decreases s.len(),
{
    if s.len() == 0 {
    } else {
        lemma_rank_sort_len(s.drop_last());
        lemma_insert_ranked_len(rank_sort(s.drop_last()), s.last());
    }
}

pub proof fn lemma_insert_ranked_multiset<G>(s: Seq<(G, u64)>, x: (G, u64))
    ensures
        insert_ranked(s, x).to_multiset() == s.to_multiset().insert(x),
    decreases s.len(),
{
    if s.len() == 0 {
        assert(seq![x] =~= Seq::empty().push(x));
        assert(Seq::<(G, u64)>::empty().push(x).to_multiset() =~= Seq::<(
            G,
            u64,
        )>::empty().to_multiset().insert(x));
    } else if s.last().1 <= x.1 {
        assert(s.push(x).to_multiset() =~= s.to_multiset().insert(x));
    } else {
        lemma_insert_ranked_multiset(s.drop_last(), x);
        assert(s =~= s.drop_last().push(s.last()));
        assert(s.to_multiset() =~= s.drop_last().push(s.last()).to_multiset());
        assert(insert_ranked(s.drop_last(), x).push(s.last()).to_multiset() =~= insert_ranked(
            s.drop_last(),
            x,
        ).to_multiset().insert(s.last()));
        assert(s.drop_last().to_multiset().insert(x).insert(s.last()) =~= s.drop_last()
            .to_multiset()
            .insert(s.last())
            .insert(x));
    }
}

/// Ranking is a permutation: the sorted sequence holds exactly the pairs of
/// the scored sequence, with multiplicity.
pub proof fn lemma_rank_sort_multiset<G>(s: Seq<(G, u64)>)
    ensures
        rank_sort(s).to_multiset() == s.to_multiset(),
    decreases s.len(),
{
    if s.len() == 0 {
    } else {
        lemma_rank_sort_multiset(s.drop_last());
        lemma_insert_ranked_multiset(rank_sort(s.drop_last()), s.last());
        assert(s =~= s.drop_last().push(s.last()));
        assert(s.drop_last().push(s.last()).to_multiset() =~= s.drop_last().to_multiset().insert(
            s.last(),
        ));
    }
}

/// Every pair of the sorted sequence is a pair of the original one.
pub proof fn lemma_rank_sort_membership<G>(s: Seq<(G, u64)>, i: int)
    requires
        0 <= i < rank_sort(s).len(),
    ensures
        s.contains(rank_sort(s)[i]),
{
    lemma_rank_sort_multiset(s);
    assert(rank_sort(s).contains(rank_sort(s)[i]));
    assert(rank_sort(s).to_multiset().count(rank_sort(s)[i]) > 0);
}

pub proof fn lemma_insert_ranked_sorted<G>(s: Seq<(G, u64)>, x: (G, u64))
    requires
        sorted_by_fitness(s),
    ensures
        sorted_by_fitness(insert_ranked(s, x)),
    decreases s.len(),
{
    lemma_insert_ranked_len(s, x);
    if s.len() == 0 {
    } else if s.last().1 <= x.1 {
        assert forall|i: int, j: int| 0 <= i <= j < s.push(x).len() implies (#[trigger] s.push(
            x,
        )[i]).1 <= (#[trigger] s.push(x)[j]).1 by {
            if j < s.len() {
            } else {
                if i < s.len() {
                    assert(s[i].1 <= s[s.len() - 1].1);
                }
            }
        }
    } else {
        assert(sorted_by_fitness(s.drop_last())) by {
            assert forall|i: int, j: int| 0 <= i <= j < s.drop_last().len() implies (
            #[trigger] s.drop_last()[i]).1 <= (#[trigger] s.drop_last()[j]).1 by {
                assert(s[i].1 <= s[j].1);
            }
        }
        lemma_insert_ranked_sorted(s.drop_last(), x);
        let t = insert_ranked(s.drop_last(), x);
        lemma_insert_ranked_len(s.drop_last(), x);
        // every pair already placed scores no more than the last pair of s
        assert forall|i: int| 0 <= i < t.len() implies (#[trigger] t[i]).1 <= s.last().1 by {
            lemma_insert_ranked_multiset(s.drop_last(), x);
            assert(t.contains(t[i]));
            assert(t.to_multiset().count(t[i]) > 0);
            if t[i] == x {
            } else {
                assert(s.drop_last().to_multiset().count(t[i]) > 0);
                assert(s.drop_last().contains(t[i]));
                let k = choose|k: int|
                    0 <= k < s.drop_last().len() && s.drop_last()[k] == t[i];
                assert(s[k].1 <= s[s.len() - 1].1);
            }
        }
        assert forall|i: int, j: int| 0 <= i <= j < t.push(s.last()).len() implies (
        #[trigger] t.push(s.last())[i]).1 <= (#[trigger] t.push(s.last())[j]).1 by {
            if j < t.len() {
                assert(t[i].1 <= t[j].1);
            } else if i < t.len() {
                assert(t[i].1 <= s.last().1);
            }
        }
    }
}

/// The ranked sequence is sorted ascending by fitness.
pub proof fn lemma_rank_sort_sorted<G>(s: Seq<(G, u64)>)
    ensures
        sorted_by_fitness(rank_sort(s)),
    decreases s.len(),
{
    if s.len() == 0 {
    } else {
        lemma_rank_sort_sorted(s.drop_last());
        lemma_insert_ranked_sorted(rank_sort(s.drop_last()), s.last());
    }
}

/// The front of the ranked sequence is a best performer: it scores no more
/// than any pair of the sequence it was ranked from. In particular, when the
/// front carries fitness 0, no better genome was dropped, and when it
/// carries a positive fitness, no pair of the population was perfect.
pub proof fn lemma_ranked_first_is_minimal<G>(s: Seq<(G, u64)>)
    requires
        s.len() > 0,
    ensures
        rank_sort(s).len() == s.len(),
        forall|k: int| 0 <= k < s.len() ==> rank_sort(s)[0].1 <= (#[trigger] s[k]).1,
{
    lemma_rank_sort_len(s);
    lemma_rank_sort_sorted(s);
    lemma_rank_sort_multiset(s);
    assert forall|k: int| 0 <= k < s.len() implies rank_sort(s)[0].1 <= (#[trigger] s[k]).1 by {
        assert(s.contains(s[k]));
        assert(s.to_multiset().count(s[k]) > 0);
        assert(rank_sort(s).to_multiset().count(s[k]) > 0);
        assert(rank_sort(s).contains(s[k]));
        let j = choose|j: int| 0 <= j < rank_sort(s).len() && rank_sort(s)[j] == s[k];
        assert(rank_sort(s)[0].1 <= rank_sort(s)[j].1);
    }
}

/// Positional form of `insert_ranked`: when every pair from position `i` on
/// scores strictly worse than `x` and the pair just before `i` (if any)
/// scores no worse, the stable insertion is exactly an insertion at `i`.
proof fn lemma_insert_ranked_at<G>(s: Seq<(G, u64)>, x: (G, u64), i: int)
    requires
        0 <= i <= s.len(),
        forall|j: int| i <= j < s.len() ==> (#[trigger] s[j]).1 > x.1,
        i > 0 ==> s[i - 1].1 <= x.1,
    ensures
        insert_ranked(s, x) == s.insert(i, x),
    decreases s.len(),
{
    if s.len() == 0 {
        assert(insert_ranked(s, x) =~= s.insert(0, x));
    } else if s.last().1 <= x.1 {
        assert(i == s.len()) by {
            if i < s.len() {
                assert(s[s.len() - 1].1 > x.1);
            }
        }
        assert(s.push(x) =~= s.insert(i, x));
    } else {
        assert(i < s.len()) by {
            if i == s.len() {
                assert(s[i - 1].1 <= x.1);
            }
        }
        assert forall|j: int| i <= j < s.drop_last().len() implies (#[trigger] s.drop_last()[j]).1
            > x.1 by {
            assert(s[j].1 > x.1);
        }
        if i > 0 {
            assert(s.drop_last()[i - 1] == s[i - 1]);
        }
        lemma_insert_ranked_at(s.drop_last(), x, i);
        lemma_insert_ranked_len(s.drop_last(), x);
        assert(insert_ranked(s.drop_last(), x).push(s.last()) =~= s.insert(i, x));
    }
}

/// Insert one scored genome into a vector sorted ascending by fitness,
/// placing it after every pair that scores no worse (stable position).
fn insert_by_fitness<G>(v: &mut Vec<(G, u64)>, x: (G, u64))
    requires
        sorted_by_fitness(old(v)@),
    ensures
        final(v)@ == insert_ranked(old(v)@, x),
{
    let ghost orig = v@;
    let mut i: usize = v.len();
    while i > 0 && v[i - 1].1 > x.1
        invariant
            i <= v@.len(),
            v@ == orig,
            forall|j: int| i <= j < v@.len() ==> (#[trigger] v@[j]).1 > x.1,
        decreases i,
    {
        i = i - 1;
    }
    proof {
        lemma_insert_ranked_at(orig, x, i as int);
    }
    v.insert(i, x);
}

/// Stable sort ascending by fitness: the result is exactly `rank_sort` of
/// the input, so ranking is a fixed function of the scored population.
pub fn sort_ranked<G>(v: Vec<(G, u64)>) -> (r: Vec<(G, u64)>)
    ensures
        r@ == rank_sort(v@),
{
    let ghost orig = v@;
    let mut rest = v;
    let mut out: Vec<(G, u64)> = Vec::new();
    proof {
        assert(orig.subrange(0, 0) =~= Seq::empty());
        assert(orig.subrange(0, orig.len() as int) =~= orig);
    }
    while rest.len() > 0
        invariant
            out@.len() + rest@.len() == orig.len(),
            rest@ == orig.subrange(orig.len() - rest@.len(), orig.len() as int),
            out@ == rank_sort(orig.subrange(0, orig.len() - rest@.len())),
            sorted_by_fitness(out@),
        decreases rest@.len(),
    {
        let ghost k = orig.len() - rest@.len();
        let x = rest.remove(0);
        proof {
            assert(x == orig[k as int]);
            assert(rest@ =~= orig.subrange(orig.len() - rest@.len(), orig.len() as int));
            let prefix = orig.subrange(0, k as int);
            let prefix1 = orig.subrange(0, k as int + 1);
            assert(prefix1.drop_last() =~= prefix);
            assert(prefix1.last() == orig[k as int]);
            lemma_rank_sort_sorted(prefix);
        }
        insert_by_fitness(&mut out, x);
        proof {
            lemma_insert_ranked_sorted(
                rank_sort(orig.subrange(0, k as int)),
                orig[k as int],
            );
            lemma_insert_ranked_len(
                rank_sort(orig.subrange(0, k as int)),
                orig[k as int],
            );
            lemma_rank_sort_len(orig.subrange(0, k as int));
        }
    }
    proof {
        assert(orig.subrange(0, orig.len() as int) =~= orig);
    }
    out
}

} // verus!
