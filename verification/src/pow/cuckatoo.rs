//! Verification of Cuckatoo Cycle proofs.

use vstd::prelude::*;

use byteorder::{BigEndian, WriteBytesExt};

use crate::pow::common::{largest_edge, node, CuckooParams, EdgeType, Error};
use crate::pow::cycle::{
    away, branches, closes, cycle_verdict, leads_on, lemma_branch_stops, lemma_closes_once,
    lemma_next_is, lemma_stop_never_closes, lemma_walk_bounded, lone_mate, mate, meets_branch,
    next, walk, CycleVerdict,
};
use crate::pow::types::{verified_as, PoWContext, PrePow, Proof};
use crate::text::{hex, to_hex};

verus! {

/// A Cuckatoo graph against which proofs are verified.
pub struct CuckatooContext<T: EdgeType> {
    pub params: CuckooParams<T>,
}

/// Whether the edge at `i` is too big or does not come after the one before it.
pub open spec fn bad_edge(nonces: Seq<u64>, mask: u64, i: int) -> bool {
    nonces[i] > mask || (i > 0 && nonces[i] <= nonces[i - 1])
}

/// Whether the edge at `i` is the first bad one.
pub open spec fn first_bad_edge(nonces: Seq<u64>, mask: u64, i: int) -> bool {
    &&& 0 <= i < nonces.len()
    &&& bad_edge(nonces, mask, i)
    &&& forall|j: int| 0 <= j < i ==> !bad_edge(nonces, mask, j)
}

/// The endpoints of the edges, two for each.
pub open spec fn endpoints(keys: Seq<u64>, mask: u64, nonces: Seq<u64>) -> Seq<u64> {
    Seq::new(
        2 * nonces.len(),
        |i: int| node(keys, mask, nonces[i / 2], (i % 2) as u64),
    )
}

/// `start` combined by exclusive or with the endpoints of one side of the first `count` edges.
pub open spec fn side_xor(ends: Seq<u64>, side: int, count: nat, start: u64) -> u64
    decreases count,
{
    if count == 0 {
        start
    } else {
        side_xor(ends, side, (count - 1) as nat, start) ^ ends[2 * (count - 1) + side]
    }
}

/// The reason for which the edges of a proof are refused before any cycle is looked for.
pub open spec fn edge_refusal(keys: Seq<u64>, mask: u64, size: usize, nonces: Seq<u64>) -> Option<
    Seq<char>,
> {
    let ends = endpoints(keys, mask, nonces);
    let start = (size as u64 / 2) & 1;
    if exists|i: int| first_bad_edge(nonces, mask, i) && nonces[i] > mask {
        Some("edge too big"@)
    } else if exists|i: int| first_bad_edge(nonces, mask, i) {
        Some("edges not ascending"@)
    } else if side_xor(ends, 0, nonces.len(), start) | side_xor(ends, 1, nonces.len(), start) != 0 {
        Some("endpoints do not match"@)
    } else {
        None
    }
}

/// The reason for which the endpoints of `size` edges are refused, if they form no cycle.
pub open spec fn cycle_refusal(ends: Seq<u64>, size: nat) -> Option<Seq<char>> {
    match cycle_verdict(ends, size) {
        CycleVerdict::Cycle => None,
        CycleVerdict::Short => Some("cycle too short"@),
        CycleVerdict::Branch => Some("branch in cycle"@),
        CycleVerdict::DeadEnd => Some("cycle dead ends"@),
    }
}

/// The endpoints that a cycle of `size` edges is looked for in: those of the
/// first `size` edges, or all where there are fewer.
pub open spec fn looked_at(ends: Seq<u64>, size: usize) -> Seq<u64> {
    if 2 * size <= ends.len() {
        ends.take(2 * size)
    } else {
        ends
    }
}

/// The reason for which a proof of `size` edges is refused, if it is.
pub open spec fn cuckoo_refusal(keys: Seq<u64>, mask: u64, size: usize, nonces: Seq<u64>) -> Option<
    Seq<char>,
> {
    match edge_refusal(keys, mask, size, nonces) {
        Some(reason) => Some(reason),
        None => {
            cycle_refusal(looked_at(endpoints(keys, mask, nonces), size), size as nat)
        },
    }
}

/// `std::io::Error`, the error of a write.
#[verifier::external_type_specification]
#[verifier::external_body]
pub struct ExIoError(std::io::Error);

/// The eight bytes of `number`, the most significant first.
pub open spec fn big_endian(number: u64) -> Seq<u8> {
    Seq::new(8, |i: int| (number >> ((56 - 8 * i) as u64)) as u8)
}

/// `byteorder::WriteBytesExt::write_u64` with `BigEndian`, on a vector: appends
/// the eight bytes of the number, the most significant first. Writing to a
/// vector does not fail.
#[verifier::external_body]
fn write_u64(output: &mut Vec<u8>, number: u64) -> (res: Result<(), std::io::Error>)
    ensures
        res is Ok,
        final(output)@ == old(output)@ + big_endian(number),
{
    output.write_u64::<BigEndian>(number)
}

/// What one step of the walk finds.
enum Step {
    /// More than one mate.
    Branch,
    /// No mate that leads on.
    DeadEnd,
    /// The endpoint that the step leads to.
    To(usize),
}

/// An error that carries this reason.
fn refuse(reason: &str) -> (res: Error)
    ensures
        res matches Error::Verification(text) && text@ == reason@,
{
    Error::Verification(String::from_str(reason))
}

/// Whether no endpoint below `bound` is a mate of `at`.
spec fn no_mate_below(ends: Seq<u64>, at: int, bound: int) -> bool {
    forall|d: int| #[trigger] mate(ends, at, d) ==> d >= bound
}

/// Whether `m` is the one mate of `at` below `bound`.
spec fn one_mate_below(ends: Seq<u64>, at: int, bound: int, m: int) -> bool {
    m < bound && mate(ends, at, m) && forall|d: int| #[trigger]
        mate(ends, at, d) && d < bound ==> d == m
}

/// Of the two endpoints of edge `i` one can be a mate of `at`.
proof fn lemma_next_pair(ends: Seq<u64>, at: int, i: int)
    ensures
        forall|d: int| #[trigger] mate(ends, at, d) && 2 * i <= d < 2 * i + 2 ==> d == 2 * i + at % 2,
{
}

/// Looks for the mates of `at` among the endpoints of the first `size` edges and takes the step.
fn take_step(ends: &Vec<u64>, size: usize, at: usize) -> (res: Step)
    requires
        at < 2 * size <= ends@.len(),
        ends@.len() <= usize::MAX,
    ensures
        match res {
            Step::Branch => branches(ends@.take(2 * size), at as int),
            Step::DeadEnd => !branches(ends@.take(2 * size), at as int) && next(
                ends@.take(2 * size),
                at as int,
            ) is None,
            Step::To(to) => to < 2 * size && next(ends@.take(2 * size), at as int) == Some(
                to as int,
            ),
        },
{
    let ghost known = ends@.take(2 * size);
    let side: usize = at % 2;
    let mut found: Option<usize> = None;
    let mut i: usize = 0;
    while i < size
        invariant
            at < 2 * size <= ends@.len() <= usize::MAX,
            known == ends@.take(2 * size),
            side == at % 2,
            i <= size,
            match found {
                None => no_mate_below(known, at as int, 2 * i),
                Some(m) => one_mate_below(known, at as int, 2 * i, m as int),
            },
        decreases size - i,
    {
        let c: usize = 2 * i + side;
        let is_mate = c != at && ends[c] >> 1 == ends[at] >> 1;
        assert(is_mate == mate(known, at as int, c as int));
        proof {
            lemma_next_pair(known, at as int, i as int);
        }
        if is_mate {
            if found.is_some() {
                return Step::Branch;
            }
            found = Some(c);
        }
        i = i + 1;
    }
    match found {
        None => {
            assert(forall|m: int| !leads_on(known, at as int, m));
            Step::DeadEnd
        },
        Some(m) => {
            assert(lone_mate(known, at as int, m as int));
            if ends[m] == ends[at] {
                assert forall|c: int| !leads_on(known, at as int, c) by {
                    if leads_on(known, at as int, c) {
                        assert(mate(known, at as int, c));
                    }
                }
                return Step::DeadEnd;
            }
            proof {
                assert(leads_on(known, at as int, m as int));
                lemma_next_is(known, at as int, m as int);
            }
            Step::To(
                if m % 2 == 0 {
                    m + 1
                } else {
                    m - 1
                },
            )
        },
    }
}

/// Walks from endpoint 0 and judges where the walk leads.
fn verify_cycle(ends: &Vec<u64>, size: usize) -> (res: Result<(), Error>)
    requires
        1 <= size,
        2 * size <= ends@.len() <= usize::MAX,
    ensures
        verified_as(res, cycle_refusal(ends@.take(2 * size), size as nat)),
{
    let ghost known = ends@.take(2 * size);
    let mut cycle_length: usize = 0;
    let mut endpoint_index: usize = 0;
    loop
        invariant_except_break
            endpoint_index < 2 * size,
            cycle_length < 2 * size,
            away(known, cycle_length as nat),
            walk(known, cycle_length as nat) == Some(endpoint_index as int),
        invariant
            1 <= size,
            2 * size <= ends@.len() <= usize::MAX,
            known == ends@.take(2 * size),
        ensures
            closes(known, cycle_length as nat),
        decreases 2 * size - cycle_length,
    {
        let ghost steps = cycle_length as nat;
        match take_step(ends, size, endpoint_index) {
            Step::Branch => {
                proof {
                    lemma_branch_stops(known, endpoint_index as int);
                    assert(meets_branch(known, steps));
                    assert forall|length: nat| !closes(known, length) by {
                        lemma_stop_never_closes(known, steps, length);
                    }
                }
                return Err(refuse("branch in cycle"));
            },
            Step::DeadEnd => {
                proof {
                    lemma_dead_end(known, steps);
                }
                return Err(refuse("cycle dead ends"));
            },
            Step::To(to) => {
                endpoint_index = to;
                cycle_length = cycle_length + 1;
                assert(walk(known, cycle_length as nat) == Some(to as int));
                if endpoint_index == 0 {
                    break ;
                }
                proof {
                    assert(away(known, cycle_length as nat));
                    lemma_walk_bounded(known, cycle_length as nat);
                }
            },
        }
    }
    if cycle_length == size {
        Ok(())
    } else {
        proof {
            if closes(known, size as nat) {
                lemma_closes_once(known, size as nat, cycle_length as nat);
            }
        }
        Err(refuse("cycle too short"))
    }
}

/// Whether a cycle of `size` edges can be looked for among these endpoints:
/// there are enough of them, or the search ends at the first endpoint, because
/// that has two mates or because a cycle of one edge has no other endpoint to go to.
pub open spec fn searchable(ends: Seq<u64>, size: usize) -> bool {
    ||| 1 <= size && 2 * size <= ends.len()
    ||| ends.len() < 2 * size <= usize::MAX && branches(ends, 0)
    ||| ends.len() == 0 && size == 1
}

/// Judges the endpoints of fewer edges than a cycle takes.
fn verify_few(ends: &Vec<u64>, size: usize) -> (res: Result<(), Error>)
    requires
        ends@.len() < 2 * size,
        ends@.len() % 2 == 0,
        searchable(ends@, size),
    ensures
        verified_as(res, cycle_refusal(ends@, size as nat)),
{
    assert(ends@.take(ends@.len() as int) =~= ends@);
    assert(away(ends@, 0));
    assert(walk(ends@, 0) == Some(0int));
    assert(walk(ends@, 1) == next(ends@, 0));
    if ends.len() > 0 {
        if let Step::Branch = take_step(ends, ends.len() / 2, 0) {
            proof {
                lemma_branch_stops(ends@, 0);
                assert(meets_branch(ends@, 0));
                assert forall|length: nat| !closes(ends@, length) by {
                    lemma_stop_never_closes(ends@, 0, length);
                }
            }
            return Err(refuse("branch in cycle"));
        }
    }
    proof {
        assert forall|m: int| !leads_on(ends@, 0, m) by {
            if leads_on(ends@, 0, m) {
                assert(mate(ends@, 0, m));
            }
        }
        lemma_dead_end(ends@, 0);
    }
    Err(refuse("cycle dead ends"))
}

/// The reason for which this graph refuses a proof, made of what decides it.
pub open spec fn graph_refusal(keys: Seq<u64>, mask: u64, size: usize, candidate: Proof) -> Option<
    Seq<char>,
> {
    match candidate {
        Proof::CuckooProof { nonces, .. } => cuckoo_refusal(keys, mask, size, nonces@),
        _ => Some("wrong algorithm"@),
    }
}

/// Whether `res` is a graph without keys, or the refusal where the edge type
/// cannot hold the edges.
pub open spec fn is_new_graph<T: EdgeType>(
    res: Result<CuckatooContext<T>, Error>,
    edge_bits: u8,
    proof_size: usize,
) -> bool {
    match res {
        Ok(context) => {
            &&& T::holds(largest_edge(edge_bits))
            &&& context.well_formed()
            &&& context.params.siphash_keys@ == seq![0u64, 0, 0, 0]
            &&& context.params.edge_bits == edge_bits
            &&& context.params.proof_size == proof_size
        },
        Err(error) => error is IntegerCast && !T::holds(largest_edge(edge_bits)),
    }
}

impl<T: EdgeType> CuckatooContext<T> {
    /// Whether the parameters fit together.
    pub open spec fn well_formed(&self) -> bool {
        self.params.edge_bits < 64 && self.params.edge_mask.value() == largest_edge(
            self.params.edge_bits,
        )
    }

    /// The reason for which this graph refuses a proof, if it does.
    pub open spec fn refuses(&self, candidate: Proof) -> Option<Seq<char>> {
        graph_refusal(
            self.params.siphash_keys@,
            self.params.edge_mask.value(),
            self.params.proof_size,
            candidate,
        )
    }

    /// The graph after it was given keys; a failure to make them leaves it as it is.
    pub open spec fn keyed(self, siphash_keys: Result<[u64; 4], Error>) -> Self {
        match siphash_keys {
            Ok(keys) => CuckatooContext {
                params: CuckooParams { siphash_keys: keys, ..self.params },
            },
            Err(_) => self,
        }
    }

    /// Whether the proof can be judged: where its edges are not refused, a
    /// cycle can be looked for among them.
    pub open spec fn judges(&self, candidate: Proof) -> bool {
        match candidate {
            Proof::CuckooProof { nonces, .. } => {
                &&& 2 * nonces@.len() <= usize::MAX
                &&& edge_refusal(
                    self.params.siphash_keys@,
                    self.params.edge_mask.value(),
                    self.params.proof_size,
                    nonces@,
                ) is Some || searchable(
                    endpoints(
                        self.params.siphash_keys@,
                        self.params.edge_mask.value(),
                        nonces@,
                    ),
                    self.params.proof_size,
                )
            },
            _ => true,
        }
    }

    /// A graph without keys; refused where the edge type cannot hold the edges.
    pub fn new_impl(edge_bits: u8, proof_size: usize) -> (res: Result<CuckatooContext<T>, Error>)
        requires
            edge_bits < 64,
        ensures
            is_new_graph(res, edge_bits, proof_size),
    {
        match CuckooParams::new(edge_bits, proof_size) {
            Ok(params) => Ok(CuckatooContext { params }),
            Err(error) => Err(error),
        }
    }

    /// One of the keys of the graph in hexadecimal.
    pub fn sipkey_hex(&self, index: usize) -> (res: Result<String, Error>)
        requires
            index < 4,
        ensures
            res matches Ok(key) && key@ == hex(
                big_endian(self.params.siphash_keys@[index as int]),
            ),
    {
        let mut output: Vec<u8> = Vec::new();
        match write_u64(&mut output, self.params.siphash_keys[index]) {
            Ok(()) => {
                assert(output@ =~= big_endian(self.params.siphash_keys@[index as int]));
                Ok(to_hex(&output))
            },
            Err(_) => Err(Error::Other(String::from_str("key not written"))),
        }
    }

    /// Keys the graph with what hashing a header gave, or passes on the failure to hash it.
    pub fn set_header_nonce_impl(&mut self, siphash_keys: Result<[u64; 4], Error>) -> (res: Result<
        (),
        Error,
    >)
        ensures
            *final(self) == old(self).keyed(siphash_keys),
            match siphash_keys {
                Ok(_) => res is Ok,
                Err(error) => res == Err::<(), Error>(error),
            },
    {
        match siphash_keys {
            Ok(keys) => {
                self.params.siphash_keys = keys;
                Ok(())
            },
            Err(error) => Err(error),
        }
    }

    /// The node on side `uorv` of `edge`.
    pub fn sipnode(&self, edge: T, uorv: u64) -> (res: Result<T, Error>)
        requires
            2 * edge.value() + uorv <= u64::MAX,
        ensures
            res matches Ok(found) && found.value() == node(
                self.params.siphash_keys@,
                self.params.edge_mask.value(),
                edge.value(),
                uorv,
            ),
    {
        self.params.sipnode(edge, uorv)
    }

    /// The endpoint on side `uorv` of the edge with number `nonce`.
    fn endpoint(&self, nonce: u64, uorv: u64) -> (res: Result<u64, Error>)
        requires
            self.well_formed(),
            nonce <= self.params.edge_mask.value(),
            uorv < 2,
        ensures
            res matches Ok(end) && end == node(
                self.params.siphash_keys@,
                self.params.edge_mask.value(),
                nonce,
                uorv,
            ),
    {
        proof {
            let bits = self.params.edge_bits as u64;
            let edges = 1u64 << bits;
            assert(1 <= edges <= 0x8000_0000_0000_0000u64) by (bit_vector)
                requires
                    edges == 1u64 << bits,
                    bits < 64,
            ;
            self.params.edge_mask.holds_below(nonce);
        }
        match T::from_u64(nonce) {
            Some(edge) => match self.sipnode(edge, uorv) {
                Ok(found) => Ok(found.to_u64()),
                Err(error) => Err(error),
            },
            None => Err(Error::IntegerCast),
        }
    }

    /// The endpoints of the edges of a proof, or the reason to refuse them.
    fn collect_endpoints(&self, nonces: &Vec<u64>) -> (res: Result<Vec<u64>, Error>)
        requires
            self.well_formed(),
            2 * nonces@.len() <= usize::MAX,
        ensures
            match edge_refusal(
                self.params.siphash_keys@,
                self.params.edge_mask.value(),
                self.params.proof_size,
                nonces@,
            ) {
                Some(reason) => res matches Err(Error::Verification(text)) && text@ == reason,
                None => res matches Ok(ends) && ends@ == endpoints(
                    self.params.siphash_keys@,
                    self.params.edge_mask.value(),
                    nonces@,
                ),
            },
    {
        let ghost keys = self.params.siphash_keys@;
        let ghost mask = self.params.edge_mask.value();
        let ghost all = endpoints(keys, mask, nonces@);
        let start: u64 = (self.params.proof_size as u64 / 2) & 1;
        let mut ends: Vec<u64> = Vec::new();
        let mut xor0: u64 = start;
        let mut xor1: u64 = start;
        let mut index: usize = 0;
        while index < nonces.len()
            invariant
                self.well_formed(),
                keys == self.params.siphash_keys@,
                mask == self.params.edge_mask.value(),
                all == endpoints(keys, mask, nonces@),
                start == (self.params.proof_size as u64 / 2) & 1,
                2 * nonces@.len() <= usize::MAX,
                index <= nonces@.len(),
                forall|j: int| 0 <= j < index ==> !bad_edge(nonces@, mask, j),
                ends@ == all.take(2 * index),
                xor0 == side_xor(all, 0, index as nat, start),
                xor1 == side_xor(all, 1, index as nat, start),
            decreases nonces@.len() - index,
        {
            if nonces[index] > self.params.edge_mask.to_u64() {
                assert(first_bad_edge(nonces@, mask, index as int));
                return Err(refuse("edge too big"));
            }
            if index > 0 && nonces[index] <= nonces[index - 1] {
                proof {
                    assert(first_bad_edge(nonces@, mask, index as int));
                    assert forall|i: int| first_bad_edge(nonces@, mask, i) implies i == index by {
                        if i < index {
                            assert(!bad_edge(nonces@, mask, i));
                        } else if i > index {
                            assert(!bad_edge(nonces@, mask, index as int));
                        }
                    }
                }
                return Err(refuse("edges not ascending"));
            }
            assert(!bad_edge(nonces@, mask, index as int));
            let end0 = self.endpoint(nonces[index], 0)?;
            let end1 = self.endpoint(nonces[index], 1)?;
            assert(all[2 * index] == end0 && all[2 * index + 1] == end1);
            ends.push(end0);
            ends.push(end1);
            xor0 = xor0 ^ end0;
            xor1 = xor1 ^ end1;
            assert(all.take(2 * index + 2) =~= all.take(2 * index).push(end0).push(end1));
            index = index + 1;
        }
        assert(all.take(all.len() as int) =~= all);
        if xor0 | xor1 != 0 {
            return Err(refuse("endpoints do not match"));
        }
        Ok(ends)
    }

    /// Judges a proof: its edges must be in order and small enough, their
    /// endpoints must pair up, and they must form one cycle of the right length.
    pub fn verify_impl(&self, proof: &Proof) -> (res: Result<(), Error>)
        requires
            self.well_formed(),
            self.judges(*proof),
        ensures
            verified_as(res, self.refuses(*proof)),
    {
        let given = proof;
        let nonces = match given {
            Proof::CuckooProof { nonces, .. } => nonces,
            _ => {
                return Err(refuse("wrong algorithm"));
            },
        };
        let ends = match self.collect_endpoints(nonces) {
            Ok(ends) => ends,
            Err(error) => {
                return Err(error);
            },
        };
        let size = self.params.proof_size;
        if size <= nonces.len() {
            verify_cycle(&ends, size)
        } else {
            verify_few(&ends, size)
        }
    }
}

/// A walk that stops where there is no branch shows a dead end.
proof fn lemma_dead_end(ends: Seq<u64>, steps: nat)
    requires
        away(ends, steps),
        walk(ends, steps) is Some,
        next(ends, walk(ends, steps)->0) is None,
        !branches(ends, walk(ends, steps)->0),
    ensures
        forall|size: nat| cycle_verdict(ends, size) is DeadEnd,
{
    assert forall|length: nat| !closes(ends, length) by {
        lemma_stop_never_closes(ends, steps, length);
    }
    assert forall|other: nat| !meets_branch(ends, other) by {
        if meets_branch(ends, other) {
            lemma_branch_stops(ends, walk(ends, other)->0);
            if other < steps {
                assert(walk(ends, other + 1) is Some);
            } else if other > steps {
                lemma_stop_never_closes(ends, steps, other);
            }
        }
    }
}

impl<T: EdgeType> PoWContext<T> for CuckatooContext<T> {
    open spec fn header_failure(&self, header: PrePow) -> Option<Error> {
        match header.siphash_keys {
            Ok(_) => None,
            Err(error) => Some(error),
        }
    }

    open spec fn takes_proof(&self, proof: Proof) -> bool {
        self.well_formed() && self.judges(proof)
    }

    open spec fn with_header(
        &self,
        header: PrePow,
        nonce: Option<u64>,
        height: Option<u64>,
        solve: bool,
    ) -> Self {
        self.keyed(header.siphash_keys)
    }

    open spec fn refusal(&self, proof: Proof) -> Option<Seq<char>> {
        self.refuses(proof)
    }

    fn set_header_nonce(
        &mut self,
        header: PrePow,
        nonce: Option<u64>,
        height: Option<u64>,
        solve: bool,
    ) -> (res: Result<(), Error>) {
        self.set_header_nonce_impl(header.siphash_keys)
    }

    fn verify(&mut self, proof: &Proof) -> (res: Result<(), Error>) {
        self.verify_impl(proof)
    }
}

/// A graph without keys; refused where the edge type cannot hold the edges.
pub fn new_cuckatoo_ctx<T: EdgeType>(edge_bits: u8, proof_size: usize, max_solutions: u32) -> (res:
    Result<CuckatooContext<T>, Error>)
    requires
        edge_bits < 64,
    ensures
        is_new_graph(res, edge_bits, proof_size),
{
    CuckatooContext::new_impl(edge_bits, proof_size)
}

/// The room for solutions, the height and whether a solution is looked for
/// never change a judgement. Graphs that were made with the same bits and size,
/// whatever the room, are refused together; given the same header, whatever the
/// height and the purpose, they take the same proofs and refuse each for the same
/// reason as the graph that was made and keyed by itself.
pub proof fn only_keys_and_size_decide<T: EdgeType>(
    edge_bits: u8,
    proof_size: usize,
    one: Result<CuckatooContext<T>, Error>,
    other: Result<CuckatooContext<T>, Error>,
    plain: Result<CuckatooContext<T>, Error>,
    header: PrePow,
    nonce: Option<u64>,
    one_height: Option<u64>,
    other_height: Option<u64>,
    one_solve: bool,
    other_solve: bool,
    candidate: Proof,
)
    requires
        is_new_graph(one, edge_bits, proof_size),
        is_new_graph(other, edge_bits, proof_size),
        is_new_graph(plain, edge_bits, proof_size),
    ensures
        one is Err <==> plain is Err,
        other is Err <==> plain is Err,
        plain is Ok ==> {
            let first = one->Ok_0;
            let second = other->Ok_0;
            let first_keyed = first.with_header(header, nonce, one_height, one_solve);
            let second_keyed = second.with_header(header, nonce, other_height, other_solve);
            let plain_keyed = plain->Ok_0.keyed(header.siphash_keys);
            &&& first.header_failure(header) == second.header_failure(header)
            &&& first_keyed.refusal(candidate) == second_keyed.refusal(candidate)
            &&& first_keyed.refusal(candidate) == plain_keyed.refuses(candidate)
            &&& first_keyed.takes_proof(candidate) == second_keyed.takes_proof(candidate)
            &&& first_keyed.takes_proof(candidate) == (plain_keyed.well_formed()
                && plain_keyed.judges(candidate))
        },
{
}

} // verus!
