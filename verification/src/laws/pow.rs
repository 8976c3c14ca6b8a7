//! What is relied on when proofs of work are judged.

use vstd::prelude::*;

use crate::pow::acceptance::{cycles_are_accepted, form_a_cycle, in_order};
use crate::pow::common::{node, CuckooParams, EdgeType, Error};
use crate::pow::cuckatoo::{
    bad_edge, big_endian, edge_refusal, endpoints, first_bad_edge, looked_at,
    new_cuckatoo_ctx, side_xor,
    CuckatooContext,
};
use crate::pow::cycle::{
    closes, goes_round, leads_on, lemma_round_closes, mate, meets_branch, other_end, successor,
};
use crate::pow::progpow::{get_progpow_value, new_progpow_ctx, ProgPowContext};
use crate::pow::siphash::{rounds, sip_hash, siphash24};
use crate::pow::types::{BlockHeader, ContextRequest, PoWContext, PrePow, Proof};
use crate::pow::{header_nonce, requested_context, verify_size};
use crate::text::to_hex;

verus! {

/// The nonce of a header is set beside it for a ProgPow, a RandomX and an MD5
/// proof, and no nonce is for a Cuckoo proof.
pub proof fn nonce_goes_with_every_proof_but_a_cycle(header: BlockHeader, res: Option<u64>)
    requires
        call_ensures(header_nonce, (&header,), res),
    ensures
        header.pow.proof is ProgPowProof ==> res == Some(header.pow.nonce),
        header.pow.proof is RandomXProof ==> res == Some(header.pow.nonce),
        header.pow.proof is MD5Proof ==> res == Some(header.pow.nonce),
        header.pow.proof is CuckooProof <==> res is None,
{
}

/// Each kind of proof is judged by the verifier of its own kind: RandomX with
/// the seed of the header, MD5 with its bits and the size that the chain asks
/// for, and a cycle with its bits, its own length and the height of the header.
pub proof fn each_proof_has_its_verifier(
    header: BlockHeader,
    proof_size: usize,
    res: ContextRequest,
)
    requires
        call_ensures(requested_context, (&header, proof_size), res),
    ensures
        header.pow.proof is ProgPowProof <==> res is ProgPow,
        header.pow.proof is RandomXProof ==> res == (ContextRequest::RandomX {
            seed: header.pow.seed,
        }),
        header.pow.proof is MD5Proof ==> res == (ContextRequest::MD5 {
            edge_bits: header.pow.edge_bits,
            proof_size,
            contexts: 1,
        }),
        header.pow.proof matches Proof::CuckooProof { nonces, .. } ==> res == (
        ContextRequest::Cuckoo {
            height: header.height,
            edge_bits: header.pow.edge_bits,
            proof_size: nonces.len(),
            contexts: 1,
        }),
{
}

/// A header is judged by its verifier after that was given the header, its
/// height and, for every proof but a cycle, its nonce, and not to solve but to
/// verify: it is accepted exactly where that verifier has no reason to refuse.
/// A verifier that could not be made or does not take the header fails instead.
pub proof fn header_is_judged_with_its_nonce<T: EdgeType, C: PoWContext<T>>(
    header: BlockHeader,
    pre_pow: PrePow,
    context: Result<C, Error>,
    res: Result<(), Error>,
)
    requires
        call_ensures(verify_size::<T, C>, (&header, pre_pow, context), res),
    ensures
        context matches Err(error) ==> res == Err::<(), Error>(error),
        context matches Ok(verifier) ==> {
            let failure = verifier.header_failure(pre_pow);
            let height = Some(header.height);
            let with_nonce = verifier.with_header(pre_pow, Some(header.pow.nonce), height, false);
            let without = verifier.with_header(pre_pow, None, height, false);
            &&& failure matches Some(error) ==> res == Err::<(), Error>(error)
            &&& failure is None && !(header.pow.proof is CuckooProof) ==> {
                &&& res is Ok <==> with_nonce.refusal(header.pow.proof) is None
                &&& with_nonce.refusal(header.pow.proof) matches Some(reason) ==> (res matches Err(
                    Error::Verification(text),
                ) && text@ == reason)
            }
            &&& failure is None && header.pow.proof is CuckooProof ==> {
                &&& res is Ok <==> without.refusal(header.pow.proof) is None
                &&& without.refusal(header.pow.proof) matches Some(reason) ==> (res matches Err(
                    Error::Verification(text),
                ) && text@ == reason)
            }
        },
{
}

/// The ProgPow verifier starts empty, holds the header, nonce and height that
/// it is given, zero for what is missing, takes every header, and refuses every
/// proof. The ProgPow value of a header is zero.
pub proof fn progpow_holds_headers_and_accepts_nothing<T: EdgeType>(
    fresh: Result<ProgPowContext<T>, Error>,
    context: ProgPowContext<T>,
    header: PrePow,
    nonce: Option<u64>,
    height: Option<u64>,
    solve: bool,
    candidate: Proof,
    bytes: &[u8],
    at: u64,
    with: u64,
    value: [u8; 32],
)
    requires
        call_ensures(new_progpow_ctx::<T>, (), fresh),
        call_ensures(get_progpow_value, (bytes, at, with), value),
    ensures
        fresh matches Ok(made) && made.nonce == 0 && made.height == 0 && made.header@.len() == 0,
        context.header_failure(header) is None,
        ({
            let given = context.with_header(header, nonce, height, solve);
            &&& given.header@ == header.bytes@
            &&& nonce matches Some(number) ==> given.nonce == number
            &&& nonce is None ==> given.nonce == 0
            &&& height matches Some(number) ==> given.height == number
            &&& height is None ==> given.height == 0
        }),
        context.refusal(candidate) == Some("native wallet build has no PoW verifier"@),
        forall|i: int| 0 <= i < 32 ==> #[trigger] value@[i] == 0,
{
}

/// A word turned left.
pub open spec fn turned_left(x: u64, by: u64) -> u64 {
    (x << by) | (x >> (64 - by) as u64)
}

/// One round of SipHash, in the order in which its steps are given: each of two
/// pairs of words is added, turned and mixed, and then the same crosswise.
pub open spec fn sip_round(v0: u64, v1: u64, v2: u64, v3: u64) -> (u64, u64, u64, u64) {
    let v0 = v0.wrapping_add(v1);
    let v1 = turned_left(v1, 13);
    let v1 = v1 ^ v0;
    let v0 = turned_left(v0, 32);
    let v2 = v2.wrapping_add(v3);
    let v3 = turned_left(v3, 16);
    let v3 = v3 ^ v2;
    let v0 = v0.wrapping_add(v3);
    let v3 = turned_left(v3, 21);
    let v3 = v3 ^ v0;
    let v2 = v2.wrapping_add(v1);
    let v1 = turned_left(v1, 17);
    let v1 = v1 ^ v2;
    let v2 = turned_left(v2, 32);
    (v0, v1, v2, v3)
}

/// The round after a state.
pub open spec fn next_round(s: (u64, u64, u64, u64)) -> (u64, u64, u64, u64) {
    sip_round(s.0, s.1, s.2, s.3)
}

/// The hash is SipHash with two rounds for the word and four to close: the word
/// is mixed into the last state word before and into the first after its rounds.
pub proof fn hash_is_siphash_of_one_word(keys: [u64; 4], word: u64, res: u64)
    requires
        call_ensures(siphash24, (&keys, word), res),
    ensures
        ({
            let start = (keys@[0], keys@[1], keys@[2], keys@[3] ^ word);
            let taken = next_round(next_round(start));
            let mixed = (taken.0 ^ word, taken.1, taken.2 ^ 0xff, taken.3);
            let closed = next_round(next_round(next_round(next_round(mixed))));
            res == closed.0 ^ closed.1 ^ closed.2 ^ closed.3
        }),
{
    reveal_with_fuel(rounds, 5);
}

/// A new graph has no keys, the bits and the size that it was asked for, and
/// the largest edge that the bits can write; where the edge type cannot hold
/// that, there is no graph.
pub proof fn graph_has_the_bits_and_size_asked_for<T: EdgeType>(
    edge_bits: u8,
    proof_size: usize,
    max_solutions: u32,
    params: Result<CuckooParams<T>, Error>,
    res: Result<CuckatooContext<T>, Error>,
    same: Result<CuckatooContext<T>, Error>,
)
    requires
        edge_bits < 64,
        call_ensures(CuckooParams::<T>::new, (edge_bits, proof_size), params),
        call_ensures(CuckatooContext::<T>::new_impl, (edge_bits, proof_size), res),
        call_ensures(new_cuckatoo_ctx::<T>, (edge_bits, proof_size, max_solutions), same),
    ensures
        ({
            let largest = ((1u64 << (edge_bits as u64)) - 1) as u64;
            &&& params is Ok <==> T::holds(largest)
            &&& res is Ok <==> T::holds(largest)
            &&& same is Ok <==> T::holds(largest)
            &&& params matches Ok(made) ==> is_fresh(made, edge_bits, proof_size, largest)
            &&& res matches Ok(made) ==> is_fresh(made.params, edge_bits, proof_size, largest)
            &&& same matches Ok(made) ==> is_fresh(made.params, edge_bits, proof_size, largest)
        }),
{
}

/// Whether parameters are without keys, with these bits, size and largest edge.
pub open spec fn is_fresh<T: EdgeType>(
    params: CuckooParams<T>,
    edge_bits: u8,
    proof_size: usize,
    largest: u64,
) -> bool {
    &&& params.siphash_keys@ =~= seq![0u64, 0, 0, 0]
    &&& params.edge_bits == edge_bits
    &&& params.proof_size == proof_size
    &&& params.edge_mask.value() == largest
}

/// Keys that could be made replace those of the graph, and a failure to make
/// them is passed on and leaves the graph as it is.
pub proof fn graph_takes_its_keys<T: EdgeType>(
    context: &mut CuckatooContext<T>,
    siphash_keys: Result<[u64; 4], Error>,
    res: Result<(), Error>,
)
    requires
        call_ensures(
            CuckatooContext::<T>::set_header_nonce_impl,
            (context, siphash_keys),
            res,
        ),
    ensures
        siphash_keys matches Ok(keys) ==> {
            &&& res is Ok
            &&& final(context).params.siphash_keys == keys
            &&& final(context).params.edge_bits == old(context).params.edge_bits
            &&& final(context).params.proof_size == old(context).params.proof_size
            &&& final(context).params.edge_mask == old(context).params.edge_mask
        },
        siphash_keys matches Err(error) ==> res == Err::<(), Error>(error) && *final(context)
            == *old(context),
{
}

/// The nodes of an edge are the hashes of twice its number and of one more,
/// cut down to the bits of the graph.
pub proof fn nodes_are_hashes_of_the_edge<T: EdgeType>(
    context: CuckatooContext<T>,
    edge: T,
    uorv: u64,
    hash: u64,
    res: Result<T, Error>,
)
    requires
        2 * edge.value() + uorv <= u64::MAX,
        call_ensures(
            siphash24,
            (&context.params.siphash_keys, (2 * edge.value() + uorv) as u64),
            hash,
        ),
        call_ensures(CuckatooContext::<T>::sipnode, (&context, edge, uorv), res),
    ensures
        res matches Ok(found) && found.value() == hash & context.params.edge_mask.value(),
{
}

/// A proof of another kind is refused by a graph as such.
pub proof fn graph_judges_cycles_only<T: EdgeType>(
    context: CuckatooContext<T>,
    candidate: Proof,
    res: Result<(), Error>,
)
    requires
        !(candidate is CuckooProof),
        call_ensures(CuckatooContext::<T>::verify_impl, (&context, &candidate), res),
    ensures
        res matches Err(Error::Verification(text)) && text@ == "wrong algorithm"@,
{
}

/// Whether the first `count` edges are no larger than `largest` and each is
/// larger than the one before it.
pub open spec fn ascend(nonces: Seq<u64>, largest: u64, count: int) -> bool {
    &&& forall|i: int| 0 <= i < count ==> #[trigger] nonces[i] <= largest
    &&& forall|i: int| 0 < i < count ==> nonces[i - 1] < #[trigger] nonces[i]
}

proof fn lemma_ascend(nonces: Seq<u64>, largest: u64, count: int)
    requires
        0 <= count <= nonces.len(),
    ensures
        ascend(nonces, largest, count) <==> forall|i: int|
            0 <= i < count ==> !#[trigger] bad_edge(nonces, largest, i),
{
    if ascend(nonces, largest, count) {
        assert forall|i: int| 0 <= i < count implies !#[trigger] bad_edge(nonces, largest, i) by {
            assert(nonces[i] <= largest);
        }
    }
    if forall|i: int| 0 <= i < count ==> !#[trigger] bad_edge(nonces, largest, i) {
        assert forall|i: int| 0 <= i < count implies #[trigger] nonces[i] <= largest by {
            assert(!bad_edge(nonces, largest, i));
        }
        assert forall|i: int| 0 < i < count implies nonces[i - 1] < #[trigger] nonces[i] by {
            assert(!bad_edge(nonces, largest, i));
        }
    }
}

/// Where the edges ascend up to some edge, that edge decides if it does not: it
/// is refused as too big where it is larger than the graph allows, and as not
/// ascending where it is not larger than the one before it.
pub proof fn first_edge_out_of_order_is_refused<T: EdgeType>(
    context: CuckatooContext<T>,
    edge_bits: u8,
    nonces: Vec<u64>,
    i: int,
    res: Result<(), Error>,
)
    requires
        0 <= i < nonces@.len(),
        ascend(nonces@, context.params.edge_mask.value(), i),
        call_ensures(
            CuckatooContext::<T>::verify_impl,
            (&context, &Proof::CuckooProof { edge_bits, nonces }),
            res,
        ),
    ensures
        nonces@[i] > context.params.edge_mask.value() ==> (res matches Err(
            Error::Verification(text),
        ) && text@ == "edge too big"@),
        nonces@[i] <= context.params.edge_mask.value() && i > 0 && nonces@[i] <= nonces@[i - 1]
            ==> (res matches Err(Error::Verification(text)) && text@ == "edges not ascending"@),
{
    let largest = context.params.edge_mask.value();
    lemma_ascend(nonces@, largest, i);
    if bad_edge(nonces@, largest, i) {
        assert(first_bad_edge(nonces@, largest, i));
        assert forall|j: int| first_bad_edge(nonces@, largest, j) implies j == i by {
            if j < i {
                assert(!bad_edge(nonces@, largest, j));
            } else if j > i {
                assert(!bad_edge(nonces@, largest, i));
            }
        }
    }
}

/// Whether two edges end at the two nodes of one pair, where no third edge ends.
pub open spec fn meet(nodes: Seq<u64>, a: int, b: int) -> bool {
    &&& a != b
    &&& nodes[a] >> 1 == nodes[b] >> 1
    &&& nodes[a] != nodes[b]
    &&& forall|c: int|
        0 <= c < nodes.len() && c != a && c != b ==> #[trigger] nodes[c] >> 1 != nodes[a] >> 1
}

/// The edge after the one at `i`, the first after the last.
pub open spec fn edge_after(order: Seq<int>, i: int) -> int {
    if i + 1 < order.len() {
        order[i + 1]
    } else {
        order[0]
    }
}

/// Whether the edges, in this order, go round in one cycle: each edge comes
/// once, the first edge first, and each meets the next, by turns on one side
/// and on the other. `one` and `other` are the nodes of the edges on the two sides.
pub open spec fn round_trip(one: Seq<u64>, other: Seq<u64>, order: Seq<int>) -> bool {
    &&& order.len() > 0
    &&& order.len() % 2 == 0
    &&& order.len() == one.len()
    &&& order.len() == other.len()
    &&& order[0] == 0
    &&& forall|i: int| 0 <= i < order.len() ==> 0 <= #[trigger] order[i] < order.len()
    &&& forall|i: int, j: int|
        0 <= i < j < order.len() ==> #[trigger] order[i] != #[trigger] order[j]
    &&& forall|i: int|
        0 <= i < order.len() ==> meet(
            if i % 2 == 0 {
                one
            } else {
                other
            },
            order[i],
            #[trigger] edge_after(order, i),
        )
}

/// The nodes of the edges on one side.
pub open spec fn side_nodes(keys: Seq<u64>, mask: u64, nonces: Seq<u64>, side: u64) -> Seq<u64> {
    nonces.map_values(|edge: u64| sip_hash(keys, (2 * edge + side) as u64) & mask)
}

/// Where the endpoints interleave the nodes of the two sides, an endpoint leads
/// on over another exactly where their edges meet on its side.
proof fn lemma_leads_on_is_meeting(ends: Seq<u64>, nodes: Seq<u64>, side: int, a: int, b: int)
    requires
        0 <= side < 2,
        ends.len() == 2 * nodes.len(),
        forall|c: int| 0 <= c < nodes.len() ==> #[trigger] nodes[c] == ends[2 * c + side],
        0 <= a < nodes.len(),
        0 <= b < nodes.len(),
    ensures
        leads_on(ends, 2 * a + side, 2 * b + side) <==> meet(nodes, a, b),
{
    let at = 2 * a + side;
    let m = 2 * b + side;
    assert(nodes[a] == ends[at] && nodes[b] == ends[m]);
    if leads_on(ends, at, m) {
        assert(mate(ends, at, m));
        assert forall|c: int| 0 <= c < nodes.len() && c != a && c != b implies #[trigger] nodes[c]
            >> 1 != nodes[a] >> 1 by {
            if nodes[c] >> 1 == nodes[a] >> 1 {
                assert(mate(ends, at, 2 * c + side));
            }
        }
    }
    if meet(nodes, a, b) {
        assert(mate(ends, at, m));
        assert forall|c: int| mate(ends, at, c) implies c == m by {
            assert(c == 2 * (c / 2) + side);
            assert(nodes[c / 2] == ends[c]);
        }
    }
}

proof fn lemma_round_trip(ends: Seq<u64>, one: Seq<u64>, other: Seq<u64>)
    requires
        one.len() == other.len(),
        ends.len() == 2 * one.len(),
        forall|c: int| 0 <= c < one.len() ==> #[trigger] one[c] == ends[2 * c],
        forall|c: int| 0 <= c < one.len() ==> #[trigger] other[c] == ends[2 * c + 1],
    ensures
        (exists|order: Seq<int>| #[trigger] goes_round(ends, order)) <==> exists|order: Seq<int>|
            #[trigger] round_trip(one, other, order),
{
    let n = one.len();
    if exists|ways: Seq<int>| #[trigger] goes_round(ends, ways) {
        let ways = choose|ways: Seq<int>| #[trigger] goes_round(ends, ways);
        lemma_round_closes(ends, ways);
        let order = Seq::new(n, |i: int| ways[i] / 2);
        assert forall|i: int| 0 <= i < n implies meet(
            if i % 2 == 0 {
                one
            } else {
                other
            },
            order[i],
            #[trigger] edge_after(order, i),
        ) by {
            let to = successor(ways, i);
            let nodes = if i % 2 == 0 { one } else { other };
            let j = if i + 1 < n { i + 1 } else { 0 };
            assert(to == ways[j]);
            assert(ways[i] % 2 == i % 2 && ways[j] % 2 == j % 2);
            assert(ways[i] == 2 * order[i] + i % 2);
            assert(other_end(to) == 2 * order[j] + i % 2);
            assert(edge_after(order, i) == order[j]);
            assert(0 <= ways[j] < ends.len());
            lemma_leads_on_is_meeting(ends, nodes, i % 2, order[i], order[j]);
        }
        assert forall|i: int| 0 <= i < n implies 0 <= #[trigger] order[i] < n by {
            assert(0 <= ways[i] < ends.len());
        }
        assert forall|i: int, j: int| 0 <= i < j < n implies #[trigger] order[i]
            != #[trigger] order[j] by {
            assert(ways[i] / 2 != ways[j] / 2);
        }
        assert(round_trip(one, other, order));
    }
    if exists|order: Seq<int>| #[trigger] round_trip(one, other, order) {
        let order = choose|order: Seq<int>| #[trigger] round_trip(one, other, order);
        let ways = Seq::new(n, |i: int| 2 * order[i] + i % 2);
        assert forall|i: int| 0 <= i < n implies leads_on(
            ends,
            ways[i],
            other_end(#[trigger] successor(ways, i)),
        ) by {
            let nodes = if i % 2 == 0 { one } else { other };
            let j = if i + 1 < n { i + 1 } else { 0 };
            assert(edge_after(order, i) == order[j]);
            assert(successor(ways, i) == ways[j]);
            assert(ways[j] == 2 * order[j] + j % 2);
            assert(j % 2 != i % 2);
            assert(other_end(ways[j]) == 2 * order[j] + i % 2);
            assert(0 <= order[j] < n && 0 <= order[i] < n);
            lemma_leads_on_is_meeting(ends, nodes, i % 2, order[i], order[j]);
        }
        assert forall|i: int| 0 <= i < n implies 0 <= #[trigger] ways[i] < ends.len() by {
            assert(0 <= order[i] < n);
        }
        assert forall|i: int, j: int| 0 <= i < j < n implies #[trigger] ways[i] / 2
            != #[trigger] ways[j] / 2 by {
            assert(order[i] != order[j]);
            assert(ways[i] / 2 == order[i] && ways[j] / 2 == order[j]);
        }
        assert(goes_round(ends, ways));
    }
}

/// A graph accepts a proof with as many edges as it asks for exactly where the
/// edges ascend, are within the graph and go round in one cycle.
pub proof fn graph_accepts_exactly_its_cycles<T: EdgeType>(
    context: CuckatooContext<T>,
    edge_bits: u8,
    nonces: Vec<u64>,
    res: Result<(), Error>,
)
    requires
        nonces@.len() == context.params.proof_size,
        call_ensures(
            CuckatooContext::<T>::verify_impl,
            (&context, &Proof::CuckooProof { edge_bits, nonces }),
            res,
        ),
    ensures
        ({
            let keys = context.params.siphash_keys@;
            let largest = context.params.edge_mask.value();
            let one = side_nodes(keys, largest, nonces@, 0);
            let other = side_nodes(keys, largest, nonces@, 1);
            res is Ok <==> ascend(nonces@, largest, nonces@.len() as int) && exists|
                order: Seq<int>,
            | #[trigger] round_trip(one, other, order)
        }),
{
    let keys = context.params.siphash_keys@;
    let largest = context.params.edge_mask.value();
    let one = side_nodes(keys, largest, nonces@, 0);
    let other = side_nodes(keys, largest, nonces@, 1);
    let ends = endpoints(keys, largest, nonces@);
    cycles_are_accepted(keys, largest, context.params.proof_size, nonces@);
    lemma_ascend(nonces@, largest, nonces@.len() as int);
    assert forall|c: int| 0 <= c < one.len() implies #[trigger] one[c] == ends[2 * c] by {
        assert((2 * c) / 2 == c && (2 * c) % 2 == 0);
        assert(ends[2 * c] == node(keys, largest, nonces@[c], 0));
    }
    assert forall|c: int| 0 <= c < one.len() implies #[trigger] other[c] == ends[2 * c + 1] by {
        assert((2 * c + 1) / 2 == c && (2 * c + 1) % 2 == 1);
        assert(ends[2 * c + 1] == node(keys, largest, nonces@[c], 1));
    }
    lemma_round_trip(ends, one, other);
    assert(form_a_cycle(keys, largest, nonces@) <==> exists|order: Seq<int>|
        #[trigger] goes_round(ends, order));
    assert(in_order(nonces@, largest) <==> ascend(nonces@, largest, nonces@.len() as int));
}

/// All of these words combined by exclusive or, beginning with `start`.
pub open spec fn xor_all(nodes: Seq<u64>, start: u64) -> u64 {
    nodes.fold_left(start, |sum: u64, word: u64| sum ^ word)
}

proof fn lemma_xor_all(ends: Seq<u64>, nodes: Seq<u64>, side: int, count: nat, start: u64)
    requires
        count <= nodes.len(),
        forall|c: int| 0 <= c < nodes.len() ==> #[trigger] nodes[c] == ends[2 * c + side],
    ensures
        side_xor(ends, side, count, start) == xor_all(nodes.take(count as int), start),
    decreases count,
{
    if count > 0 {
        let less = (count - 1) as nat;
        lemma_xor_all(ends, nodes, side, less, start);
        assert(nodes.take(count as int).drop_last() =~= nodes.take(less as int));
        assert(nodes[less as int] == ends[2 * less as int + side]);
    }
}

/// Edges that ascend are not refused before a cycle is looked for exactly where
/// their nodes cancel out.
proof fn lemma_paired(keys: Seq<u64>, largest: u64, size: usize, nonces: Seq<u64>)
    requires
        ascend(nonces, largest, nonces.len() as int),
    ensures
        ({
            let start = ((size as u64 / 2) % 2) as u64;
            let paired = xor_all(side_nodes(keys, largest, nonces, 0), start) == 0 && xor_all(
                side_nodes(keys, largest, nonces, 1),
                start,
            ) == 0;
            edge_refusal(keys, largest, size, nonces) == (if paired {
                None
            } else {
                Some("endpoints do not match"@)
            })
        }),
{
    let one = side_nodes(keys, largest, nonces, 0);
    let other = side_nodes(keys, largest, nonces, 1);
    let ends = endpoints(keys, largest, nonces);
    let half = size as u64 / 2;
    assert(half & 1 == half % 2) by (bit_vector);
    lemma_ascend(nonces, largest, nonces.len() as int);
    assert forall|i: int| !#[trigger] first_bad_edge(nonces, largest, i) by {
        if 0 <= i < nonces.len() {
            assert(!bad_edge(nonces, largest, i));
        }
    }
    assert forall|c: int| 0 <= c < one.len() implies #[trigger] one[c] == ends[2 * c + 0] by {
        assert((2 * c) / 2 == c && (2 * c) % 2 == 0);
        assert(ends[2 * c] == node(keys, largest, nonces[c], 0));
    }
    assert forall|c: int| 0 <= c < other.len() implies #[trigger] other[c] == ends[2 * c + 1] by {
        assert((2 * c + 1) / 2 == c && (2 * c + 1) % 2 == 1);
        assert(ends[2 * c + 1] == node(keys, largest, nonces[c], 1));
    }
    lemma_xor_all(ends, one, 0, one.len(), half & 1);
    lemma_xor_all(ends, other, 1, other.len(), half & 1);
    assert(one.take(one.len() as int) =~= one);
    assert(other.take(other.len() as int) =~= other);
    let a = xor_all(one, half & 1);
    let b = xor_all(other, half & 1);
    assert(a | b == 0 <==> a == 0 && b == 0) by (bit_vector);
}

/// Edges that ascend are refused where the nodes on a side do not pair up: they
/// would cancel out, but for one bit where the cycle has an odd number of pairs.
pub proof fn unpaired_nodes_are_refused<T: EdgeType>(
    context: CuckatooContext<T>,
    edge_bits: u8,
    nonces: Vec<u64>,
    res: Result<(), Error>,
)
    requires
        ascend(nonces@, context.params.edge_mask.value(), nonces@.len() as int),
        call_ensures(
            CuckatooContext::<T>::verify_impl,
            (&context, &Proof::CuckooProof { edge_bits, nonces }),
            res,
        ),
    ensures
        ({
            let keys = context.params.siphash_keys@;
            let largest = context.params.edge_mask.value();
            let start = ((context.params.proof_size as u64 / 2) % 2) as u64;
            xor_all(side_nodes(keys, largest, nonces@, 0), start) != 0 || xor_all(
                side_nodes(keys, largest, nonces@, 1),
                start,
            ) != 0 ==> (res matches Err(Error::Verification(text)) && text@
                == "endpoints do not match"@)
        }),
{
    lemma_paired(
        context.params.siphash_keys@,
        context.params.edge_mask.value(),
        context.params.proof_size,
        nonces@,
    );
}

/// The endpoints of the first `size` edges, or all where there are fewer.
pub open spec fn walked_over(ends: Seq<u64>, size: nat) -> Seq<u64> {
    if 2 * size <= ends.len() {
        ends.take(2 * size as int)
    } else {
        ends
    }
}

/// Edges that ascend and whose nodes pair up are refused by where the walk from
/// the first of them leads, over as many of them as the graph asks for: as too
/// short where it comes back after another number of steps, as a branch where it
/// meets a node with more than one way on, and as a dead end else.
pub proof fn broken_cycle_is_refused_by_its_fault<T: EdgeType>(
    context: CuckatooContext<T>,
    edge_bits: u8,
    nonces: Vec<u64>,
    res: Result<(), Error>,
)
    requires
        ascend(nonces@, context.params.edge_mask.value(), nonces@.len() as int),
        ({
            let keys = context.params.siphash_keys@;
            let largest = context.params.edge_mask.value();
            let start = ((context.params.proof_size as u64 / 2) % 2) as u64;
            xor_all(side_nodes(keys, largest, nonces@, 0), start) == 0 && xor_all(
                side_nodes(keys, largest, nonces@, 1),
                start,
            ) == 0
        }),
        call_ensures(
            CuckatooContext::<T>::verify_impl,
            (&context, &Proof::CuckooProof { edge_bits, nonces }),
            res,
        ),
    ensures
        ({
            let size = context.params.proof_size as nat;
            let all = endpoints(
                context.params.siphash_keys@,
                context.params.edge_mask.value(),
                nonces@,
            );
            let ends = walked_over(all, size);
            let comes_back = exists|length: nat| closes(ends, length);
            let branches_off = exists|steps: nat| meets_branch(ends, steps);
            &&& res is Ok <==> closes(ends, size)
            &&& !closes(ends, size) && comes_back ==> (res matches Err(Error::Verification(text))
                && text@ == "cycle too short"@)
            &&& !comes_back && branches_off ==> (res matches Err(Error::Verification(text)) && text@
                == "branch in cycle"@)
            &&& !comes_back && !branches_off ==> (res matches Err(Error::Verification(text))
                && text@ == "cycle dead ends"@)
        }),
{
    lemma_paired(
        context.params.siphash_keys@,
        context.params.edge_mask.value(),
        context.params.proof_size,
        nonces@,
    );
    let all = endpoints(
        context.params.siphash_keys@,
        context.params.edge_mask.value(),
        nonces@,
    );
    assert(looked_at(all, context.params.proof_size) == walked_over(
        all,
        context.params.proof_size as nat,
    ));
}

/// The number of an edge is the number that its type holds: one of 32 bits
/// holds what fits 32 bits, and one of 64 bits holds all.
pub proof fn edge_types_hold_what_fits(number: u64, small: u32, large: u64)
    ensures
        <u32 as EdgeType>::holds(number) <==> number <= 0xffff_ffff,
        <u64 as EdgeType>::holds(number),
        small.value() == small,
        large.value() == large,
{
}

/// A graph that is given a header takes the keys that were made of it, and
/// stays as it is where they could not be made, which it reports; the nonce, the
/// height and the purpose do not count. It judges as the graph by itself does.
pub proof fn graph_takes_keys_from_the_header<T: EdgeType>(
    context: CuckatooContext<T>,
    header: PrePow,
    nonce: Option<u64>,
    height: Option<u64>,
    solve: bool,
    candidate: Proof,
    res: Result<(), Error>,
)
    requires
        call_ensures(CuckatooContext::<T>::verify_impl, (&context, &candidate), res),
    ensures
        header.siphash_keys matches Ok(keys) ==> {
            let keyed = context.with_header(header, nonce, height, solve);
            &&& context.header_failure(header) is None
            &&& keyed.params.siphash_keys == keys
            &&& keyed.params.edge_bits == context.params.edge_bits
            &&& keyed.params.proof_size == context.params.proof_size
            &&& keyed.params.edge_mask == context.params.edge_mask
        },
        header.siphash_keys matches Err(error) ==> context.header_failure(header) == Some(error)
            && context.with_header(header, nonce, height, solve) == context,
        res is Ok <==> context.refusal(candidate) is None,
        context.refusal(candidate) matches Some(reason) ==> (res matches Err(
            Error::Verification(text),
        ) && text@ == reason),
{
}

/// A key of the graph is written in hexadecimal, its eight bytes from the most
/// significant on.
pub proof fn key_is_written_from_its_first_byte<T: EdgeType>(
    context: CuckatooContext<T>,
    index: usize,
    bytes: Vec<u8>,
    text: String,
    res: Result<String, Error>,
)
    requires
        index < 4,
        bytes@.len() == 8,
        forall|i: int|
            0 <= i < 8 ==> #[trigger] bytes@[i] == (context.params.siphash_keys@[index as int] >> ((
            56 - 8 * i) as u64)) as u8,
        call_ensures(to_hex, (&bytes,), text),
        call_ensures(CuckatooContext::<T>::sipkey_hex, (&context, index), res),
    ensures
        res matches Ok(key) && key@ == text@,
{
    assert(bytes@ =~= big_endian(context.params.siphash_keys@[index as int]));
}

} // verus!
