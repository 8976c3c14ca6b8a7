//! Cycles in a Cuckatoo graph. A proof gives the two endpoints of each of its
//! edges; endpoint `2 * i` and endpoint `2 * i + 1` belong to edge `i`.

use vstd::prelude::*;
use vstd::set_lib::*;

verus! {

/// Whether endpoint `c` lies on the same side and at the same node pair as
/// endpoint `at`.
pub open spec fn mate(ends: Seq<u64>, at: int, c: int) -> bool {
    0 <= c < ends.len() && c != at && c % 2 == at % 2 && ends[c] >> 1 == ends[at] >> 1
}

/// Whether `m` is the one mate of `at`.
pub open spec fn lone_mate(ends: Seq<u64>, at: int, m: int) -> bool {
    mate(ends, at, m) && forall|c: int| mate(ends, at, c) ==> c == m
}

/// Whether more than one endpoint is a mate of `at`.
pub open spec fn branches(ends: Seq<u64>, at: int) -> bool {
    exists|c: int, d: int| c != d && #[trigger] mate(ends, at, c) && #[trigger] mate(ends, at, d)
}

/// The other endpoint of the same edge.
pub open spec fn other_end(at: int) -> int {
    if at % 2 == 0 {
        at + 1
    } else {
        at - 1
    }
}

/// Whether the walk can leave `at` over its mate `m`: the only one, at the other node of the pair.
pub open spec fn leads_on(ends: Seq<u64>, at: int, m: int) -> bool {
    lone_mate(ends, at, m) && ends[m] != ends[at]
}

/// Where one step from `at` leads: over its mate to the other end of the mate's edge.
pub open spec fn next(ends: Seq<u64>, at: int) -> Option<int> {
    if exists|m: int| leads_on(ends, at, m) {
        Some(other_end(choose|m: int| leads_on(ends, at, m)))
    } else {
        None
    }
}

/// Where `steps` steps from endpoint 0 lead, if the walk gets that far.
pub open spec fn walk(ends: Seq<u64>, steps: nat) -> Option<int>
    decreases steps,
{
    if steps == 0 {
        Some(0)
    } else {
        match walk(ends, (steps - 1) as nat) {
            Some(at) => next(ends, at),
            None => None,
        }
    }
}

/// Whether the walk takes `steps` steps without coming back to endpoint 0.
pub open spec fn away(ends: Seq<u64>, steps: nat) -> bool {
    forall|j: nat|
        0 < j <= steps ==> (#[trigger] walk(ends, j) is Some && walk(ends, j) != Some(0int))
}

/// Whether the walk comes back to endpoint 0 after `length` steps and not before.
pub open spec fn closes(ends: Seq<u64>, length: nat) -> bool {
    length > 0 && away(ends, (length - 1) as nat) && walk(ends, length) == Some(0int)
}

/// Whether the walk reaches, before it comes back, an endpoint with more than one mate.
pub open spec fn meets_branch(ends: Seq<u64>, steps: nat) -> bool {
    away(ends, steps) && walk(ends, steps) is Some && branches(ends, walk(ends, steps)->0)
}

/// Whether one of the first `steps` endpoints of the walk belongs to `edge`.
pub open spec fn passes(ends: Seq<u64>, steps: nat, edge: int) -> bool {
    exists|j: nat| j < steps && (#[trigger] walk(ends, j))->0 / 2 == edge
}

/// What the walk from endpoint 0 shows about a proof of `size` edges.
pub enum CycleVerdict {
    /// The walk closes after `size` steps.
    Cycle,
    /// The walk closes after another number of steps.
    Short,
    /// The walk meets an endpoint with more than one mate.
    Branch,
    /// The walk meets an endpoint that leads nowhere.
    DeadEnd,
}

/// What the walk from endpoint 0 shows about a proof of `size` edges.
pub open spec fn cycle_verdict(ends: Seq<u64>, size: nat) -> CycleVerdict {
    if closes(ends, size) {
        CycleVerdict::Cycle
    } else if exists|length: nat| closes(ends, length) {
        CycleVerdict::Short
    } else if exists|steps: nat| meets_branch(ends, steps) {
        CycleVerdict::Branch
    } else {
        CycleVerdict::DeadEnd
    }
}

/// Taking the other end twice leads back.
proof fn lemma_other_end(a: int, b: int)
    ensures
        other_end(other_end(a)) == a,
        other_end(a) == other_end(b) ==> a == b,
        other_end(a) != a,
        (other_end(a) + a) % 2 == 1,
        a >= 0 ==> other_end(a) >= 0,
        other_end(a) / 2 == a / 2,
        a / 2 == b / 2 ==> a == b || b == other_end(a),
{
}

/// A step comes from a mate that leads on.
proof fn lemma_next(ends: Seq<u64>, at: int) -> (m: int)
    requires
        next(ends, at) is Some,
    ensures
        leads_on(ends, at, m),
        next(ends, at) == Some(other_end(m)),
{
    choose|m: int| leads_on(ends, at, m)
}

/// A mate that leads on is where the step goes.
pub proof fn lemma_next_is(ends: Seq<u64>, at: int, m: int)
    requires
        leads_on(ends, at, m),
    ensures
        next(ends, at) == Some(other_end(m)),
{
    let chosen = choose|m: int| leads_on(ends, at, m);
    assert(leads_on(ends, at, chosen));
    assert(mate(ends, at, m) && mate(ends, at, chosen));
}

/// Where there is a branch the walk does not go on.
pub proof fn lemma_branch_stops(ends: Seq<u64>, at: int)
    requires
        branches(ends, at),
    ensures
        next(ends, at) is None,
{
    if next(ends, at) is Some {
        let m = lemma_next(ends, at);
        let (c, d) = choose|c: int, d: int|
            c != d && #[trigger] mate(ends, at, c) && #[trigger] mate(ends, at, d);
        assert(c == m && d == m);
    }
}

/// A walk that has stopped stays stopped.
proof fn lemma_stopped(ends: Seq<u64>, steps: nat, later: nat)
    requires
        walk(ends, steps) is None,
        steps <= later,
    ensures
        walk(ends, later) is None,
    decreases later,
{
    if steps < later {
        lemma_stopped(ends, steps, (later - 1) as nat);
    }
}

/// The walk stays among the endpoints, and changes sides with every step.
proof fn lemma_walk_range(ends: Seq<u64>, steps: nat)
    requires
        ends.len() > 0,
        ends.len() % 2 == 0,
        walk(ends, steps) is Some,
    ensures
        0 <= walk(ends, steps)->0 < ends.len(),
        walk(ends, steps)->0 % 2 == steps % 2,
    decreases steps,
{
    if steps > 0 {
        let at = walk(ends, (steps - 1) as nat)->0;
        lemma_walk_range(ends, (steps - 1) as nat);
        let m = lemma_next(ends, at);
        lemma_other_end(m, m);
    }
}

/// Two endpoints from which a step leads to the same place are the same endpoint.
proof fn lemma_next_injective(ends: Seq<u64>, a: int, b: int)
    requires
        0 <= a < ends.len(),
        0 <= b < ends.len(),
        next(ends, a) is Some,
        next(ends, a) == next(ends, b),
    ensures
        a == b,
{
    let m = lemma_next(ends, a);
    let n = lemma_next(ends, b);
    lemma_other_end(m, n);
    if a != b {
        assert(mate(ends, b, m));
        assert(mate(ends, a, b));
    }
}

/// While the walk is away from endpoint 0 it visits no endpoint twice.
proof fn lemma_walk_distinct(ends: Seq<u64>, steps: nat, i: nat, j: nat)
    requires
        ends.len() > 0,
        ends.len() % 2 == 0,
        away(ends, steps),
        i < j <= steps,
    ensures
        walk(ends, i) != walk(ends, j),
    decreases i,
{
    assert(walk(ends, j) is Some && walk(ends, j) != Some(0int));
    if i > 0 && walk(ends, i) == walk(ends, j) {
        assert(walk(ends, (j - 1) as nat) is Some);
        let a = walk(ends, (i - 1) as nat);
        if a is None {
            lemma_stopped(ends, (i - 1) as nat, j);
        }
        lemma_walk_range(ends, (i - 1) as nat);
        lemma_walk_range(ends, (j - 1) as nat);
        lemma_next_injective(ends, a->0, walk(ends, (j - 1) as nat)->0);
        lemma_walk_distinct(ends, steps, (i - 1) as nat, (j - 1) as nat);
    }
}

/// Numbers below `bound` that are all different are at most `bound` many, and
/// where there are `bound` of them every number below `bound` is among them.
pub proof fn lemma_pigeonhole(s: Seq<int>, bound: nat)
    requires
        s.no_duplicates(),
        forall|i: int| 0 <= i < s.len() ==> 0 <= #[trigger] s[i] < bound,
    ensures
        s.len() <= bound,
        s.len() == bound ==> forall|x: int| 0 <= x < bound ==> s.contains(x),
{
    s.unique_seq_to_set();
    let range = set_int_range(0, bound as int);
    lemma_int_range(0, bound as int);
    assert(s.to_set().subset_of(range)) by {
        assert forall|x: int| s.to_set().contains(x) implies range.contains(x) by {
            let i = choose|i: int| 0 <= i < s.len() && s[i] == x;
            assert(0 <= s[i] < bound);
        }
    }
    lemma_len_subset(s.to_set(), range);
    if s.len() == bound {
        lemma_subset_equality(s.to_set(), range);
        assert forall|x: int| 0 <= x < bound implies s.contains(x) by {
            assert(range.contains(x));
            assert(s.to_set().contains(x));
        }
    }
}

/// The walk cannot stay away from endpoint 0 for as many steps as there are endpoints.
pub proof fn lemma_walk_bounded(ends: Seq<u64>, steps: nat)
    requires
        ends.len() > 0,
        ends.len() % 2 == 0,
        away(ends, steps),
    ensures
        steps < ends.len(),
{
    let visited = Seq::new(steps + 1, |j: int| walk(ends, j as nat)->0);
    assert forall|j: int| 0 <= j < visited.len() implies 0 <= #[trigger] visited[j] < ends.len() by {
        if j > 0 {
            assert(walk(ends, j as nat) is Some);
        }
        lemma_walk_range(ends, j as nat);
    }
    assert forall|i: int, j: int| 0 <= i < visited.len() && 0 <= j < visited.len() && i != j implies visited[i]
        != visited[j] by {
        let low = if i < j { i as nat } else { j as nat };
        let high = if i < j { j as nat } else { i as nat };
        lemma_walk_distinct(ends, steps, low, high);
        assert(walk(ends, high) is Some);
        if low > 0 {
            assert(walk(ends, low) is Some);
        }
    }
    lemma_pigeonhole(visited, ends.len());
}

/// Once the walk has stopped at a fault it does not close.
pub proof fn lemma_stop_never_closes(ends: Seq<u64>, steps: nat, length: nat)
    requires
        away(ends, steps),
        walk(ends, steps + 1) is None,
    ensures
        !closes(ends, length),
        steps + 1 <= length ==> !away(ends, length),
{
    if steps + 1 <= length {
        lemma_stopped(ends, steps + 1, length);
        assert(walk(ends, length) is None);
    } else if length > 0 {
        assert(walk(ends, length) != Some(0int));
    }
}

/// The walk closes after one number of steps only.
pub proof fn lemma_closes_once(ends: Seq<u64>, a: nat, b: nat)
    requires
        closes(ends, a),
        closes(ends, b),
    ensures
        a == b,
{
    if a < b {
        assert(walk(ends, a) != Some(0int));
    } else if b < a {
        assert(walk(ends, b) != Some(0int));
    }
}

/// A closed walk never takes an edge in both directions.
proof fn lemma_no_edge_twice(ends: Seq<u64>, length: nat, i: nat, j: nat)
    requires
        ends.len() > 0,
        ends.len() % 2 == 0,
        closes(ends, length),
        i < j < length,
    ensures
        walk(ends, j)->0 != other_end(walk(ends, i)->0),
    decreases j - i,
{
    let steps = (length - 1) as nat;
    assert(walk(ends, j) is Some);
    if i > 0 {
        assert(walk(ends, i) is Some);
    }
    let a = walk(ends, i)->0;
    let b = walk(ends, j)->0;
    lemma_walk_range(ends, i);
    lemma_walk_range(ends, j);
    if b == other_end(a) {
        lemma_other_end(a, b);
        assert(walk(ends, i + 1) is Some);
        let m = lemma_next(ends, a);
        lemma_other_end(m, a);
        if j == i + 1 {
            assert(m == a);
        } else {
            assert(j >= i + 3);
            assert(walk(ends, (j - 1) as nat) is Some);
            let c = walk(ends, (j - 1) as nat)->0;
            lemma_walk_range(ends, (j - 1) as nat);
            let n = lemma_next(ends, c);
            lemma_other_end(n, a);
            assert(n == a);
            assert(mate(ends, a, c));
            assert(m == c);
            lemma_other_end(c, c);
            lemma_no_edge_twice(ends, length, i + 1, (j - 1) as nat);
        }
    }
}

/// An accepted proof is one cycle through all of its edges: the walk that
/// closes after as many steps as there are edges passes over every edge, and
/// over none twice.
pub proof fn cycle_covers_every_edge(ends: Seq<u64>, size: nat)
    requires
        size > 0,
        ends.len() == 2 * size,
        cycle_verdict(ends, size) is Cycle,
    ensures
        forall|edge: int| 0 <= edge < size ==> #[trigger] passes(ends, size, edge),
        forall|i: nat, j: nat| #![trigger walk(ends, i), walk(ends, j)]
            i < j < size ==> walk(ends, i)->0 / 2 != walk(ends, j)->0 / 2,
{
    let visited = Seq::new(size, |j: int| walk(ends, j as nat)->0 / 2);
    assert forall|i: nat, j: nat| #![trigger walk(ends, i), walk(ends, j)] i < j < size implies walk(
        ends,
        i,
    )->0 / 2 != walk(ends, j)->0 / 2 by {
        lemma_walk_distinct(ends, (size - 1) as nat, i, j);
        lemma_no_edge_twice(ends, size, i, j);
        assert(walk(ends, j) is Some);
        if i > 0 {
            assert(walk(ends, i) is Some);
        }
        lemma_other_end(walk(ends, i)->0, walk(ends, j)->0);
    }
    assert(visited.no_duplicates()) by {
        assert forall|i: int, j: int| 0 <= i < visited.len() && 0 <= j < visited.len() && i != j implies visited[i]
            != visited[j] by {
            let low = if i < j { i as nat } else { j as nat };
            let high = if i < j { j as nat } else { i as nat };
            assert(walk(ends, low)->0 / 2 != walk(ends, high)->0 / 2);
        }
    }
    assert forall|j: int| 0 <= j < visited.len() implies 0 <= #[trigger] visited[j] < size by {
        if j > 0 {
            assert(walk(ends, j as nat) is Some);
        }
        lemma_walk_range(ends, j as nat);
    }
    lemma_pigeonhole(visited, size);
    assert forall|edge: int| 0 <= edge < size implies #[trigger] passes(ends, size, edge) by {
        assert(visited.contains(edge));
        let j = choose|j: int| 0 <= j < visited.len() && visited[j] == edge;
        assert(walk(ends, j as nat)->0 / 2 == edge);
    }
}

/// The endpoint after the one at `i`, the first after the last.
pub open spec fn successor(order: Seq<int>, i: int) -> int {
    if i + 1 < order.len() {
        order[i + 1]
    } else {
        order[0]
    }
}

/// Whether the edges form one simple cycle, and `order` goes round it: it
/// enters every edge once, at the endpoint that it names, starts at endpoint 0,
/// and gets from each endpoint to the next over the other end of the next
/// one's edge, which lies at the other node of the same pair, where no third
/// endpoint lies.
pub open spec fn goes_round(ends: Seq<u64>, order: Seq<int>) -> bool {
    &&& order.len() > 0
    &&& ends.len() == 2 * order.len()
    &&& order[0] == 0
    &&& forall|i: int| 0 <= i < order.len() ==> 0 <= #[trigger] order[i] < ends.len()
    &&& forall|i: int, j: int|
        0 <= i < j < order.len() ==> #[trigger] order[i] / 2 != #[trigger] order[j] / 2
    &&& forall|i: int|
        0 <= i < order.len() ==> leads_on(
            ends,
            order[i],
            other_end(#[trigger] successor(order, i)),
        )
}

/// The walk goes the way that an order round the cycle names.
proof fn lemma_walk_goes_round(ends: Seq<u64>, order: Seq<int>, steps: nat)
    requires
        goes_round(ends, order),
        steps <= order.len(),
    ensures
        walk(ends, steps) == Some(
            if steps < order.len() {
                order[steps as int]
            } else {
                0
            },
        ),
    decreases steps,
{
    if steps > 0 {
        let i = steps - 1;
        lemma_walk_goes_round(ends, order, i as nat);
        let to = successor(order, i);
        assert(leads_on(ends, order[i], other_end(to)));
        lemma_next_is(ends, order[i], other_end(to));
        lemma_other_end(to, to);
    }
}

/// Where the edges form one simple cycle the walk closes after as many steps
/// as there are edges. It changes sides with every step, so that is an even
/// number.
pub proof fn lemma_round_closes(ends: Seq<u64>, order: Seq<int>)
    requires
        goes_round(ends, order),
    ensures
        closes(ends, order.len()),
        order.len() % 2 == 0,
        forall|i: int| 0 <= i < order.len() ==> #[trigger] order[i] % 2 == i % 2,
{
    let length = order.len();
    assert forall|i: int| 0 <= i < order.len() implies #[trigger] order[i] % 2 == i % 2 by {
        lemma_walk_goes_round(ends, order, i as nat);
        lemma_walk_range(ends, i as nat);
    }
    assert forall|j: nat| 0 < j <= length - 1 implies #[trigger] walk(ends, j) is Some && walk(
        ends,
        j,
    ) != Some(0int) by {
        lemma_walk_goes_round(ends, order, j);
        assert(order[0] / 2 != order[j as int] / 2);
    }
    lemma_walk_goes_round(ends, order, length);
    lemma_walk_range(ends, length);
}

/// Where the walk closes after as many steps as there are edges, the edges
/// form one simple cycle.
pub proof fn lemma_closed_walk_goes_round(ends: Seq<u64>, size: nat) -> (order: Seq<int>)
    requires
        size > 0,
        ends.len() == 2 * size,
        closes(ends, size),
    ensures
        goes_round(ends, order),
        order.len() == size,
{
    let order = Seq::new(size, |i: int| walk(ends, i as nat)->0);
    cycle_covers_every_edge(ends, size);
    assert forall|i: int| 0 <= i < size implies 0 <= #[trigger] order[i] < ends.len() by {
        if i > 0 {
            assert(walk(ends, i as nat) is Some);
        }
        lemma_walk_range(ends, i as nat);
    }
    assert forall|i: int, j: int| 0 <= i < j < size implies #[trigger] order[i] / 2
        != #[trigger] order[j] / 2 by {
        assert(walk(ends, i as nat)->0 / 2 != walk(ends, j as nat)->0 / 2);
    }
    assert forall|i: int| 0 <= i < size implies leads_on(
        ends,
        order[i],
        other_end(#[trigger] successor(order, i)),
    ) by {
        let here = i as nat;
        if i > 0 {
            assert(walk(ends, here) is Some);
        }
        assert(walk(ends, here + 1) is Some);
        let m = lemma_next(ends, order[i]);
        lemma_other_end(m, m);
        assert(walk(ends, here + 1) == Some(successor(order, i)));
    }
    order
}

} // verus!
