//! Which Cuckatoo proofs are accepted: those whose edges form one simple cycle.

use vstd::prelude::*;
use vstd::seq_lib::{commutative_foldl, lemma_fold_left_permutation};

use crate::pow::cuckatoo::{
    bad_edge, cuckoo_refusal, edge_refusal, endpoints, first_bad_edge, looked_at, side_xor,
};
use crate::pow::cycle::{
    closes, goes_round, leads_on, lemma_closed_walk_goes_round, lemma_pigeonhole,
    lemma_round_closes, mate, other_end, successor,
};

verus! {

/// Whether the edges are small enough and ascend.
pub open spec fn in_order(nonces: Seq<u64>, mask: u64) -> bool {
    forall|i: int| 0 <= i < nonces.len() ==> !#[trigger] bad_edge(nonces, mask, i)
}

/// Whether the edges of a proof form one simple cycle.
pub open spec fn form_a_cycle(keys: Seq<u64>, mask: u64, nonces: Seq<u64>) -> bool {
    exists|order: Seq<int>| #[trigger] goes_round(endpoints(keys, mask, nonces), order)
}

/// Combines `sum` by exclusive or with the endpoint of an edge on one side.
spec fn combine(ends: Seq<u64>, side: int) -> spec_fn(u64, int) -> u64 {
    |sum: u64, edge: int| sum ^ ends[2 * edge + side]
}

/// The edges that an order of endpoints enters.
spec fn entered(order: Seq<int>) -> Seq<int> {
    order.map_values(|at: int| at / 2)
}

/// It does not matter which of two endpoints is combined first.
proof fn lemma_combine_commutes(ends: Seq<u64>, side: int)
    ensures
        commutative_foldl(combine(ends, side)),
{
    let f = combine(ends, side);
    assert forall|x: int, y: int, v: u64| #[trigger] f(f(v, x), y) == f(f(v, y), x) by {
        let a = ends[2 * x + side];
        let b = ends[2 * y + side];
        assert((v ^ a) ^ b == (v ^ b) ^ a) by (bit_vector);
    }
}

/// The edges from the first on, combined one after the other.
proof fn lemma_side_xor_folds(ends: Seq<u64>, side: int, count: nat, start: u64)
    ensures
        side_xor(ends, side, count, start) == Seq::new(count, |i: int| i).fold_left(
            start,
            combine(ends, side),
        ),
    decreases count,
{
    if count > 0 {
        let less = (count - 1) as nat;
        lemma_side_xor_folds(ends, side, less, start);
        assert(Seq::new(count, |i: int| i).drop_last() =~= Seq::new(less, |i: int| i));
    }
}

/// A list of as many different edges as there are holds each of them once.
proof fn lemma_all_edges(edges: Seq<int>)
    requires
        edges.no_duplicates(),
        forall|i: int| 0 <= i < edges.len() ==> 0 <= #[trigger] edges[i] < edges.len(),
    ensures
        edges.to_multiset() == Seq::new(edges.len(), |i: int| i).to_multiset(),
{
    broadcast use vstd::seq_lib::group_to_multiset_ensures;

    let ascending = Seq::new(edges.len(), |i: int| i);
    lemma_pigeonhole(edges, edges.len());
    edges.lemma_multiset_has_no_duplicates();
    ascending.lemma_multiset_has_no_duplicates();
    assert forall|x: int| edges.to_multiset().count(x) == ascending.to_multiset().count(x) by {
        if 0 <= x < edges.len() {
            assert(ascending[x] == x);
        }
        assert(edges.contains(x) <==> ascending.contains(x));
        assert(edges.contains(x) <==> edges.to_multiset().count(x) > 0);
        assert(ascending.contains(x) <==> ascending.to_multiset().count(x) > 0);
    }
    assert(edges.to_multiset() =~= ascending.to_multiset());
}

/// Whether the endpoints come in pairs: the first of a pair lies on `side`, and
/// the edge that the second enters has its endpoint on `side` at the other node.
spec fn pairs_up(ends: Seq<u64>, side: int, order: Seq<int>) -> bool {
    forall|i: int|
        0 <= i && 2 * i + 1 < order.len() ==> {
            &&& (#[trigger] order[2 * i]) % 2 == side
            &&& order[2 * i + 1] % 2 != side
            &&& ends[order[2 * i]] ^ ends[other_end(order[2 * i + 1])] == 1
        }
}

/// Each pair changes the last bit, and no other.
proof fn lemma_pairs_cancel(ends: Seq<u64>, side: int, order: Seq<int>, pairs: nat, start: u64)
    requires
        0 <= side < 2,
        order.len() == 2 * pairs,
        pairs_up(ends, side, order),
    ensures
        entered(order).fold_left(start, combine(ends, side)) == start ^ ((pairs % 2) as u64),
    decreases pairs,
{
    let f = combine(ends, side);
    if pairs == 0 {
        assert(start ^ 0u64 == start) by (bit_vector);
        assert(entered(order).fold_left(start, f) == start);
    } else {
        let less = (pairs - 1) as nat;
        let rest = order.take(2 * less as int);
        assert forall|i: int| 0 <= i && 2 * i + 1 < rest.len() implies {
            &&& (#[trigger] rest[2 * i]) % 2 == side
            &&& rest[2 * i + 1] % 2 != side
            &&& ends[rest[2 * i]] ^ ends[other_end(rest[2 * i + 1])] == 1
        } by {
            assert(order[2 * i] % 2 == side);
        }
        lemma_pairs_cancel(ends, side, rest, less, start);
        let first = order[2 * less as int];
        let second = order[2 * less as int + 1];
        assert(order[2 * (less as int)] % 2 == side);
        let all = entered(order);
        assert(all.drop_last().drop_last() =~= entered(rest));
        assert(all.last() == second / 2);
        assert(all.drop_last().last() == first / 2);
        assert(2 * (first / 2) + side == first);
        assert(2 * (second / 2) + side == other_end(second));
        let sum = entered(rest).fold_left(start, f);
        let a = ends[first];
        let b = ends[other_end(second)];
        assert(all.drop_last().fold_left(start, f) == sum ^ a);
        assert(all.fold_left(start, f) == (sum ^ a) ^ b);
        assert((sum ^ a) ^ b == sum ^ 1) by (bit_vector)
            requires
                a ^ b == 1,
        ;
        assert((start ^ 0) ^ 1 == start ^ 1) by (bit_vector);
        assert((start ^ 1) ^ 1 == start ^ 0) by (bit_vector);
    }
}

/// An order round a cycle, taken from its second endpoint on.
spec fn turned(order: Seq<int>) -> Seq<int> {
    Seq::new(order.len(), |i: int| successor(order, i))
}

/// Two endpoints that the cycle passes one after the other at one node pair
/// differ in the last bit.
proof fn lemma_mates_differ(ends: Seq<u64>, at: int, m: int)
    requires
        leads_on(ends, at, m),
    ensures
        ends[at] ^ ends[m] == 1,
{
    let a = ends[at];
    let b = ends[m];
    assert(mate(ends, at, m));
    assert(a ^ b == 1) by (bit_vector)
        requires
            b >> 1 == a >> 1,
            b != a,
    ;
}

/// The endpoints on one side cancel out where some order of the edges pairs them up.
proof fn lemma_side_cancels(ends: Seq<u64>, side: int, order: Seq<int>, pairs: nat)
    requires
        0 <= side < 2,
        order.len() == 2 * pairs,
        pairs_up(ends, side, order),
        entered(order).no_duplicates(),
        forall|i: int| 0 <= i < order.len() ==> 0 <= #[trigger] order[i] < 2 * order.len(),
    ensures
        side_xor(ends, side, order.len(), (pairs % 2) as u64) == 0,
{
    let start = (pairs % 2) as u64;
    let f = combine(ends, side);
    let edges = entered(order);
    assert forall|i: int| 0 <= i < edges.len() implies 0 <= #[trigger] edges[i] < edges.len() by {
        assert(edges[i] == order[i] / 2);
    }
    lemma_all_edges(edges);
    lemma_combine_commutes(ends, side);
    lemma_fold_left_permutation(Seq::new(order.len(), |i: int| i), edges, f, start);
    lemma_side_xor_folds(ends, side, order.len(), start);
    lemma_pairs_cancel(ends, side, order, pairs, start);
    assert(start ^ start == 0) by (bit_vector);
}

/// The endpoints of a cycle cancel out on both sides.
proof fn lemma_cycle_cancels(ends: Seq<u64>, order: Seq<int>, pairs: nat)
    requires
        goes_round(ends, order),
        order.len() == 2 * pairs,
    ensures
        side_xor(ends, 0, order.len(), (pairs % 2) as u64) == 0,
        side_xor(ends, 1, order.len(), (pairs % 2) as u64) == 0,
{
    lemma_round_closes(ends, order);
    assert forall|i: int| 0 <= i && 2 * i + 1 < order.len() implies {
        &&& (#[trigger] order[2 * i]) % 2 == 0
        &&& order[2 * i + 1] % 2 != 0
        &&& ends[order[2 * i]] ^ ends[other_end(order[2 * i + 1])] == 1
    } by {
        lemma_mates_differ(ends, order[2 * i], other_end(successor(order, 2 * i)));
    }
    lemma_side_cancels(ends, 0, order, pairs);
    let other = turned(order);
    assert forall|i: int| 0 <= i && 2 * i + 1 < other.len() implies {
        &&& (#[trigger] other[2 * i]) % 2 == 1
        &&& other[2 * i + 1] % 2 != 1
        &&& ends[other[2 * i]] ^ ends[other_end(other[2 * i + 1])] == 1
    } by {
        assert(other[2 * i] == order[2 * i + 1]);
        assert(other[2 * i + 1] == successor(order, 2 * i + 1));
        lemma_mates_differ(ends, order[2 * i + 1], other_end(successor(order, 2 * i + 1)));
    }
    assert(entered(other).no_duplicates()) by {
        assert forall|i: int, j: int| 0 <= i < other.len() && 0 <= j < other.len() && i != j implies entered(
            other,
        )[i] != entered(other)[j] by {
            let a = if i + 1 < order.len() { i + 1 } else { 0 };
            let b = if j + 1 < order.len() { j + 1 } else { 0 };
            assert(other[i] == order[a] && other[j] == order[b]);
            if a < b {
                assert(order[a] / 2 != order[b] / 2);
            } else {
                assert(order[b] / 2 != order[a] / 2);
            }
        }
    }
    lemma_side_cancels(ends, 1, other, pairs);
}

/// Where there is a bad edge there is a first one.
proof fn lemma_first_bad_edge(nonces: Seq<u64>, mask: u64, i: int)
    requires
        0 <= i < nonces.len(),
        bad_edge(nonces, mask, i),
    ensures
        exists|first: int| first_bad_edge(nonces, mask, first),
    decreases i,
{
    if exists|j: int| 0 <= j < i && bad_edge(nonces, mask, j) {
        let j = choose|j: int| 0 <= j < i && bad_edge(nonces, mask, j);
        lemma_first_bad_edge(nonces, mask, j);
    } else {
        assert(first_bad_edge(nonces, mask, i));
    }
}

/// A proof with as many edges as the graph asks for is accepted exactly where
/// its edges are small enough, ascend and form one simple cycle. That their
/// endpoints cancel out follows: it refuses no cycle.
pub proof fn cycles_are_accepted(keys: Seq<u64>, mask: u64, size: usize, nonces: Seq<u64>)
    requires
        nonces.len() == size,
    ensures
        cuckoo_refusal(keys, mask, size, nonces) is None <==> in_order(nonces, mask)
            && form_a_cycle(keys, mask, nonces),
{
    let ends = endpoints(keys, mask, nonces);
    let start = (size as u64 / 2) & 1;
    assert(looked_at(ends, size) =~= ends);
    if cuckoo_refusal(keys, mask, size, nonces) is None {
        assert(in_order(nonces, mask)) by {
            if !in_order(nonces, mask) {
                let i = choose|i: int| 0 <= i < nonces.len() && #[trigger] bad_edge(nonces, mask, i);
                lemma_first_bad_edge(nonces, mask, i);
            }
        }
        assert(closes(ends, size as nat));
        let order = lemma_closed_walk_goes_round(ends, size as nat);
        assert(goes_round(ends, order));
    }
    if in_order(nonces, mask) && form_a_cycle(keys, mask, nonces) {
        let order = choose|order: Seq<int>| #[trigger] goes_round(ends, order);
        lemma_round_closes(ends, order);
        assert(order.len() == size);
        let half = size as u64 / 2;
        assert(half & 1 == half % 2) by (bit_vector);
        lemma_cycle_cancels(ends, order, half as nat);
        assert(0u64 | 0u64 == 0) by (bit_vector);
        assert forall|i: int| !#[trigger] first_bad_edge(nonces, mask, i) by {
            if 0 <= i < nonces.len() {
                assert(!bad_edge(nonces, mask, i));
            }
        }
        assert(edge_refusal(keys, mask, size, nonces) is None);
    }
}

} // verus!
