//! The matchmaker: which prover of a snapshot gets a job.
//!
//! Provers are ranked by performance rating, highest first, and provers of
//! equal rating keep the order they have in the snapshot. The job goes to the
//! head of that ranking. The head is found in one pass over the snapshot; the
//! ranking itself is never built.

use vstd::prelude::*;
use crate::types::{Job, Prover};

verus! {

/// Position `i` of `snapshot` holds a prover that no other outranks, and
/// every prover before it has a strictly lower rating.
pub open spec fn is_top_ranked(snapshot: Seq<Prover>, i: int) -> bool {
    &&& 0 <= i < snapshot.len()
    &&& forall|j: int|
        0 <= j < snapshot.len() ==> #[trigger] snapshot[j].performance_rating
            <= snapshot[i].performance_rating
    &&& forall|j: int|
        0 <= j < i ==> #[trigger] snapshot[j].performance_rating < snapshot[i].performance_rating
}

/// The position of the top-ranked prover of a snapshot that has one.
pub open spec fn top_ranked(snapshot: Seq<Prover>) -> int {
    choose|i: int| is_top_ranked(snapshot, i)
}

/// The prover a job is matched to: none for an empty snapshot, else the
/// top-ranked one.
pub open spec fn best_match(snapshot: Seq<Prover>) -> Option<Prover> {
    if snapshot.len() == 0 {
        None
    } else {
        Some(snapshot[top_ranked(snapshot)])
    }
}

/// Snapshot position `j` is the origin of some rank.
pub open spec fn has_rank(origin: Seq<int>, j: int) -> bool {
    exists|k: int| 0 <= k < origin.len() && #[trigger] origin[k] == j
}

/// `ranked` is `snapshot` sorted by rating, highest first, by a stable sort:
/// `origin[k]` is the snapshot position of the prover ranked `k`, every
/// snapshot position is the origin of exactly one rank, and of two provers
/// with the same rating the one earlier in the snapshot ranks first.
pub open spec fn is_stable_ranking(snapshot: Seq<Prover>, ranked: Seq<Prover>, origin: Seq<int>)
    -> bool {
    &&& ranked.len() == snapshot.len()
    &&& origin.len() == snapshot.len()
    &&& forall|k: int|
        0 <= k < ranked.len() ==> 0 <= #[trigger] origin[k] < snapshot.len() && ranked[k]
            == snapshot[origin[k]]
    &&& forall|k: int, l: int|
        0 <= k < l < ranked.len() ==> #[trigger] origin[k] != #[trigger] origin[l]
    &&& forall|j: int| 0 <= j < snapshot.len() ==> #[trigger] has_rank(origin, j)
    &&& forall|k: int, l: int|
        0 <= k < l < ranked.len() ==> #[trigger] ranked[k].performance_rating
            >= #[trigger] ranked[l].performance_rating
    &&& forall|k: int, l: int|
        0 <= k < l < ranked.len() && ranked[k].performance_rating == ranked[l].performance_rating
            ==> #[trigger] origin[k] < #[trigger] origin[l]
}

/// A snapshot has at most one top-ranked position.
pub proof fn lemma_top_ranked_unique(snapshot: Seq<Prover>, a: int, b: int)
    requires
        is_top_ranked(snapshot, a),
        is_top_ranked(snapshot, b),
    ensures
        a == b,
{
    if a < b {
        assert(snapshot[a].performance_rating < snapshot[b].performance_rating);
        assert(snapshot[b].performance_rating <= snapshot[a].performance_rating);
    } else if b < a {
        assert(snapshot[b].performance_rating < snapshot[a].performance_rating);
        assert(snapshot[a].performance_rating <= snapshot[b].performance_rating);
    }
}

/// Every snapshot that is not empty has a top-ranked position, and
/// `top_ranked` names it.
pub proof fn lemma_top_ranked_exists(snapshot: Seq<Prover>)
    requires
        snapshot.len() > 0,
    ensures
        is_top_ranked(snapshot, top_ranked(snapshot)),
    decreases snapshot.len(),
{
    if snapshot.len() == 1 {
        assert(is_top_ranked(snapshot, 0));
    } else {
        let front = snapshot.drop_last();
        let last = snapshot.len() - 1;
        lemma_top_ranked_exists(front);
        let i = top_ranked(front);
        assert forall|j: int| 0 <= j < front.len() implies front[j] == snapshot[j] by {}
        if snapshot[last].performance_rating > snapshot[i].performance_rating {
            assert forall|j: int| 0 <= j < snapshot.len() implies
                #[trigger] snapshot[j].performance_rating
                    <= snapshot[last].performance_rating by {
                if j < last {
                    assert(front[j].performance_rating <= front[i].performance_rating);
                }
            }
            assert forall|j: int| 0 <= j < last implies #[trigger] snapshot[j].performance_rating
                < snapshot[last].performance_rating by {
                assert(front[j].performance_rating <= front[i].performance_rating);
            }
            assert(is_top_ranked(snapshot, last));
        } else {
            assert forall|j: int| 0 <= j < snapshot.len() implies
                #[trigger] snapshot[j].performance_rating <= snapshot[i].performance_rating by {
                if j < last {
                    assert(front[j].performance_rating <= front[i].performance_rating);
                }
            }
            assert forall|j: int| 0 <= j < i implies #[trigger] snapshot[j].performance_rating
                < snapshot[i].performance_rating by {
                assert(front[j].performance_rating < front[i].performance_rating);
            }
            assert(is_top_ranked(snapshot, i));
        }
    }
}

/// Of two provers with the same rating the later one in the snapshot is
/// never selected: among provers that share the top rating, the match is
/// the first of them.
pub proof fn lemma_earlier_of_equal_rating_is_preferred(snapshot: Seq<Prover>, a: int, b: int)
    requires
        0 <= a < b < snapshot.len(),
        snapshot[a].performance_rating == snapshot[b].performance_rating,
    ensures
        top_ranked(snapshot) != b,
        best_match(snapshot) == Some(snapshot[top_ranked(snapshot)]),
        snapshot[top_ranked(snapshot)].performance_rating >= snapshot[a].performance_rating,
{
    lemma_top_ranked_exists(snapshot);
    let t = top_ranked(snapshot);
    assert(snapshot[a].performance_rating <= snapshot[t].performance_rating);
    if t == b {
        assert(snapshot[a].performance_rating < snapshot[b].performance_rating);
    }
}

/// The head of a stable ranking by rating, highest first, is the prover the
/// matchmaker selects: ranking the snapshot and taking the first prover, and
/// scanning it for the first prover of the highest rating, give the same
/// match.
pub proof fn lemma_head_of_stable_ranking_is_best_match(
    snapshot: Seq<Prover>,
    ranked: Seq<Prover>,
    origin: Seq<int>,
)
    requires
        snapshot.len() > 0,
        is_stable_ranking(snapshot, ranked, origin),
    ensures
        origin[0] == top_ranked(snapshot),
        best_match(snapshot) == Some(ranked[0]),
{
    let head = origin[0];
    assert(ranked[0] == snapshot[head]);
    assert forall|j: int| 0 <= j < snapshot.len() implies #[trigger] snapshot[j].performance_rating
        <= snapshot[head].performance_rating by {
        assert(has_rank(origin, j));
        let k = choose|k: int| 0 <= k < origin.len() && #[trigger] origin[k] == j;
        assert(ranked[k] == snapshot[origin[k]]);
        if k > 0 {
            assert(ranked[0].performance_rating >= ranked[k].performance_rating);
        }
    }
    assert forall|j: int| 0 <= j < head implies #[trigger] snapshot[j].performance_rating
        < snapshot[head].performance_rating by {
        assert(has_rank(origin, j));
        let k = choose|k: int| 0 <= k < origin.len() && #[trigger] origin[k] == j;
        assert(ranked[k] == snapshot[origin[k]]);
        assert(k != 0);
        assert(ranked[0].performance_rating >= ranked[k].performance_rating);
        if ranked[0].performance_rating == ranked[k].performance_rating {
            assert(origin[0] < origin[k]);
        }
    }
    assert(is_top_ranked(snapshot, head));
    lemma_top_ranked_exists(snapshot);
    lemma_top_ranked_unique(snapshot, head, top_ranked(snapshot));
}

/// Pairs jobs with provers. It keeps no state of its own.
#[derive(Clone, Copy, Debug, PartialEq, Eq, Structural)]
pub struct Matchmaker;

impl Matchmaker {
    /// Selects the prover for `job` from a snapshot of the registry: the
    /// prover with the highest performance rating, and among several with
    /// that rating the one that comes first in the snapshot. An empty
    /// snapshot gives no match. The job itself does not enter the ranking.
    pub fn match_job_to_prover(job: &Job, provers: Vec<Prover>) -> (matched: Option<Prover>)
        ensures
            matched == best_match(provers@),
            matched is Some <==> provers@.len() > 0,
            matched matches Some(prover) ==> exists|i: int|
                is_top_ranked(provers@, i) && prover == provers@[i],
    {
        let n = provers.len();
        if n == 0 {
            return None;
        }
        let mut best: usize = 0;
        let mut i: usize = 1;
        while i < n
            invariant
                n == provers@.len(),
                1 <= i <= n,
                best < i,
                forall|j: int|
                    0 <= j < i ==> #[trigger] provers@[j].performance_rating
                        <= provers@[best as int].performance_rating,
                forall|j: int|
                    0 <= j < best ==> #[trigger] provers@[j].performance_rating
                        < provers@[best as int].performance_rating,
            decreases n - i,
        {
            if provers[i].performance_rating > provers[best].performance_rating {
                best = i;
            }
            i = i + 1;
        }
        proof {
            assert(is_top_ranked(provers@, best as int));
            lemma_top_ranked_exists(provers@);
            lemma_top_ranked_unique(provers@, best as int, top_ranked(provers@));
        }
        Some(provers[best])
    }
}

} // verus!
