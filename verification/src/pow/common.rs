//! What the Cuckoo family of proofs shares: edges, parameters and errors.

use vstd::prelude::*;

use crate::pow::siphash::{sip_hash, siphash24};

verus! {

/// Why a proof-of-work step failed.
#[derive(Debug)]
pub enum Error {
    /// The proof does not verify, with the reason.
    Verification(String),
    /// A number does not fit the edge type.
    IntegerCast,
    /// A failure outside the verifier, by its text.
    Other(String),
}

/// An integer type that can hold the edges of a graph.
pub trait EdgeType: Sized + Copy {
    /// The edge as a number.
    spec fn value(self) -> u64;

    /// Whether the type can hold `number`.
    spec fn holds(number: u64) -> bool;

    /// A type that holds a number holds every smaller one.
    proof fn holds_below(self, number: u64)
        ensures
            number <= self.value() ==> Self::holds(number),
    ;

    /// The edge as a number.
    fn to_u64(self) -> (res: u64)
        ensures
            res == self.value(),
    ;

    /// The edge with this number, where the type can hold it.
    fn from_u64(number: u64) -> (res: Option<Self>)
        ensures
            match res {
                Some(edge) => Self::holds(number) && edge.value() == number,
                None => !Self::holds(number),
            },
    ;
}

impl EdgeType for u64 {
    open spec fn value(self) -> u64 {
        self
    }

    open spec fn holds(number: u64) -> bool {
        true
    }

    proof fn holds_below(self, number: u64) {
    }

    fn to_u64(self) -> (res: u64) {
        self
    }

    fn from_u64(number: u64) -> (res: Option<Self>) {
        Some(number)
    }
}

impl EdgeType for u32 {
    open spec fn value(self) -> u64 {
        self as u64
    }

    open spec fn holds(number: u64) -> bool {
        number <= u32::MAX
    }

    proof fn holds_below(self, number: u64) {
    }

    fn to_u64(self) -> (res: u64) {
        self as u64
    }

    fn from_u64(number: u64) -> (res: Option<Self>) {
        if number <= u32::MAX as u64 {
            Some(number as u32)
        } else {
            None
        }
    }
}

/// The parameters of a Cuckoo graph and the keys that spread its edges.
pub struct CuckooParams<T: EdgeType> {
    pub siphash_keys: [u64; 4],
    pub edge_bits: u8,
    pub proof_size: usize,
    pub edge_mask: T,
}

/// The largest edge of a graph with `edge_bits` bits for an edge.
pub open spec fn largest_edge(edge_bits: u8) -> u64 {
    ((1u64 << (edge_bits as u64)) - 1) as u64
}

/// The node on side `uorv` of `edge`.
pub open spec fn node(keys: Seq<u64>, mask: u64, edge: u64, uorv: u64) -> u64 {
    sip_hash(keys, (2 * edge + uorv) as u64) & mask
}

impl<T: EdgeType> CuckooParams<T> {
    /// Parameters without keys; refused where the edge type cannot hold the edges.
    pub fn new(edge_bits: u8, proof_size: usize) -> (res: Result<CuckooParams<T>, Error>)
        requires
            edge_bits < 64,
        ensures
            match res {
                Ok(params) => {
                    &&& T::holds(largest_edge(edge_bits))
                    &&& params.siphash_keys@ == seq![0u64, 0, 0, 0]
                    &&& params.edge_bits == edge_bits
                    &&& params.proof_size == proof_size
                    &&& params.edge_mask.value() == largest_edge(edge_bits)
                },
                Err(error) => error is IntegerCast && !T::holds(largest_edge(edge_bits)),
            },
    {
        let bits = edge_bits as u64;
        let edges = 1u64 << bits;
        assert(edges >= 1) by (bit_vector)
            requires
                edges == 1u64 << bits,
                bits < 64,
        ;
        match T::from_u64(edges - 1) {
            Some(edge_mask) => Ok(
                CuckooParams { siphash_keys: [0, 0, 0, 0], edge_bits, proof_size, edge_mask },
            ),
            None => Err(Error::IntegerCast),
        }
    }

    /// The node on side `uorv` of `edge`.
    pub fn sipnode(&self, edge: T, uorv: u64) -> (res: Result<T, Error>)
        requires
            2 * edge.value() + uorv <= u64::MAX,
        ensures
            res matches Ok(found) && found.value() == node(
                self.siphash_keys@,
                self.edge_mask.value(),
                edge.value(),
                uorv,
            ),
    {
        let hash = siphash24(&self.siphash_keys, 2 * edge.to_u64() + uorv);
        let mask = self.edge_mask.to_u64();
        let masked = hash & mask;
        assert(masked <= mask) by (bit_vector)
            requires
                masked == hash & mask,
        ;
        proof {
            self.edge_mask.holds_below(masked);
        }
        match T::from_u64(masked) {
            Some(found) => Ok(found),
            None => Err(Error::IntegerCast),
        }
    }
}

} // verus!
