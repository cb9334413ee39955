//! Ranking by score: the order in which a list has to be read so that its
//! scores never rise, with equal scores in their old order.

use vstd::prelude::*;

verus! {

/// Where an item with `score` goes into an order of `scores` that is ranked
/// already: before the first place at or after `from` that holds a lower
/// score, at the end if there is none.
pub open spec fn insert_position(scores: Seq<u64>, order: Seq<int>, score: u64, from: int) -> int
    decreases order.len() - from,
{
    if from < 0 || from >= order.len() {
        order.len() as int
    } else if scores[order[from]] < score {
        from
    } else {
        insert_position(scores, order, score, from + 1)
    }
}

/// The indices of `scores` in descending order of score; indices of equal
/// scores stay in ascending order.
pub open spec fn rank_order(scores: Seq<u64>) -> Seq<int>
    decreases scores.len(),
{
    if scores.len() == 0 {
        Seq::empty()
    } else {
        let init = rank_order(scores.drop_last());
        init.insert(insert_position(scores, init, scores.last(), 0), scores.len() - 1)
    }
}

/// The items of a list in descending order of their scores.
pub open spec fn ranked_by<T>(items: Seq<T>, scores: Seq<u64>) -> Seq<T> {
    rank_order(scores).map_values(|i: int| items[i])
}

/// Whether `order` lists each of the indices below `n` exactly once.
pub open spec fn is_permutation(order: Seq<int>, n: int) -> bool {
    &&& order.len() == n
    &&& forall|k: int| 0 <= k < order.len() ==> 0 <= #[trigger] order[k] < n
    &&& forall|j: int, k: int| 0 <= j < k < order.len() ==> order[j] != order[k]
}

/// Whether the scores never rise along `order`, and equal scores come in
/// ascending order of their indices.
pub open spec fn is_stable_descending(scores: Seq<u64>, order: Seq<int>) -> bool {
    forall|j: int, k: int|
        0 <= j < k < order.len() ==> scores[order[j]] > scores[order[k]] || (scores[order[j]] == scores[order[k]]
            && order[j] < order[k])
}

proof fn lemma_insert_position(scores: Seq<u64>, order: Seq<int>, score: u64, from: int)
    requires
        0 <= from <= order.len(),
    ensures
        from <= insert_position(scores, order, score, from) <= order.len(),
        forall|j: int| from <= j < insert_position(scores, order, score, from) ==> scores[order[j]] >= score,
        insert_position(scores, order, score, from) < order.len() ==> scores[order[insert_position(
            scores,
            order,
            score,
            from,
        )]] < score,
    decreases order.len() - from,
{
    if from < order.len() && scores[order[from]] >= score {
        lemma_insert_position(scores, order, score, from + 1);
    }
}

/// Ranking lists every index exactly once, in an order along which the
/// scores never rise and equal scores keep the order they had.
pub proof fn law_rank_order(scores: Seq<u64>)
    ensures
        is_permutation(rank_order(scores), scores.len() as int),
        is_stable_descending(scores, rank_order(scores)),
    decreases scores.len(),
{
    if scores.len() > 0 {
        let front = scores.drop_last();
        let init = rank_order(front);
        let n = scores.len() as int;
        let score = scores.last();
        let pos = insert_position(scores, init, score, 0);
        law_rank_order(front);
        lemma_insert_position(scores, init, score, 0);
        let out = init.insert(pos, n - 1);
        assert(out == rank_order(scores));
        assert forall|k: int| 0 <= k < out.len() implies 0 <= #[trigger] out[k] < n by {
            if k < pos {
                assert(out[k] == init[k]);
            } else if k > pos {
                assert(out[k] == init[k - 1]);
            }
        }
        assert forall|j: int, k: int| 0 <= j < k < out.len() implies out[j] != out[k] && (scores[out[j]]
            > scores[out[k]] || (scores[out[j]] == scores[out[k]] && out[j] < out[k])) by {
            let a = if j < pos {
                j
            } else {
                j - 1
            };
            let b = if k < pos {
                k
            } else {
                k - 1
            };
            if j != pos {
                assert(out[j] == init[a]);
                assert(scores[init[a]] == front[init[a]]);
            }
            if k != pos {
                assert(out[k] == init[b]);
                assert(scores[init[b]] == front[init[b]]);
            }
            if j != pos && k != pos {
                assert(a < b);
            } else if k == pos {
                assert(scores[init[j]] >= score);
            } else {
                assert(pos < init.len());
                if pos < b {
                    assert(front[init[pos]] > front[init[b]] || (front[init[pos]] == front[init[b]] && init[pos]
                        < init[b]));
                }
                assert(scores[init[pos]] == front[init[pos]]);
            }
        }
    }
}

/// The indices of `scores` in descending order of score; indices of equal
/// scores stay in ascending order.
pub fn rank_indices(scores: &Vec<u64>) -> (r: Vec<usize>)
    ensures
        r@.len() == scores@.len(),
        r@.map_values(|i: usize| i as int) == rank_order(scores@),
        forall|k: int| 0 <= k < r@.len() ==> #[trigger] r@[k] < scores@.len(),
{
    let mut out: Vec<usize> = Vec::new();
    let mut i: usize = 0;
    assert(scores@.take(0) =~= Seq::empty());
    assert(out@.map_values(|i: usize| i as int) =~= Seq::empty());
    while i < scores.len()
        invariant
            i <= scores.len(),
            out@.len() == i,
            out@.map_values(|i: usize| i as int) == rank_order(scores@.take(i as int)),
            forall|k: int| 0 <= k < out@.len() ==> #[trigger] out@[k] < i,
        decreases scores.len() - i,
    {
        let score = scores[i];
        let ghost prefix = scores@.take(i as int + 1);
        let ghost before = out@.map_values(|i: usize| i as int);
        let mut pos: usize = 0;
        while pos < out.len() && scores[out[pos]] >= score
            invariant
                pos <= out.len(),
                i < scores.len(),
                prefix == scores@.take(i as int + 1),
                before == out@.map_values(|i: usize| i as int),
                forall|k: int| 0 <= k < out@.len() ==> #[trigger] out@[k] < i,
                insert_position(prefix, before, score, 0) == insert_position(prefix, before, score, pos as int),
            decreases out.len() - pos,
        {
            assert(before[pos as int] == out@[pos as int]);
            assert(prefix[before[pos as int]] == scores@[out@[pos as int] as int]);
            pos += 1;
        }
        proof {
            if pos < out.len() {
                assert(before[pos as int] == out@[pos as int]);
                assert(prefix[before[pos as int]] == scores@[out@[pos as int] as int]);
            }
            assert(prefix.drop_last() =~= scores@.take(i as int));
            assert(prefix.last() == score);
        }
        out.insert(pos, i);
        assert(out@.map_values(|i: usize| i as int) =~= before.insert(pos as int, i as int));
        i += 1;
    }
    assert(scores@.take(scores.len() as int) =~= scores@);
    out
}

} // verus!
