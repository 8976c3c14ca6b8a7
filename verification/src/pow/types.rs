//! Proofs, headers and the interface of a proof-of-work verifier.

use vstd::prelude::*;

use crate::pow::common::{EdgeType, Error};

verus! {

/// A proof of work.
pub enum Proof {
    /// The edges of a cycle in a Cuckoo graph.
    CuckooProof { edge_bits: u8, nonces: Vec<u64> },
    /// A ProgPow mix.
    ProgPowProof { mix: [u8; 32] },
    /// A RandomX hash.
    RandomXProof { hash: [u8; 32] },
    /// An MD5 proof.
    MD5Proof { edge_bits: u8, proof: String },
}

/// The header part that is hashed before the work is done, with the keys that
/// a Cuckoo graph has from it, or the failure to hash it. The keys are those of
/// the header and the nonce together: where a nonce is set beside the header,
/// it was hashed with it.
pub struct PrePow {
    pub bytes: Vec<u8>,
    pub siphash_keys: Result<[u64; 4], Error>,
}

/// The proof-of-work fields of a block header.
pub struct ProofOfWork {
    pub nonce: u64,
    pub seed: [u8; 32],
    pub edge_bits: u8,
    pub proof: Proof,
}

/// What verification reads of a block header.
pub struct BlockHeader {
    pub height: u64,
    pub pow: ProofOfWork,
}

/// The verifier that a proof asks for.
pub enum ContextRequest {
    /// The ProgPow verifier.
    ProgPow,
    /// The RandomX verifier for a seed.
    RandomX { seed: [u8; 32] },
    /// The MD5 verifier.
    MD5 { edge_bits: u8, proof_size: usize, contexts: u32 },
    /// The verifier of the Cuckoo family that is in force at a height.
    Cuckoo { height: u64, edge_bits: u8, proof_size: usize, contexts: u32 },
}

/// A verifier for one algorithm.
pub trait PoWContext<T: EdgeType>: Sized {
    /// The failure to take this header, if there is one.
    spec fn header_failure(&self, header: PrePow) -> Option<Error>;

    /// Whether the verifier can judge this proof.
    spec fn takes_proof(&self, proof: Proof) -> bool;

    /// The verifier after it was given a header.
    spec fn with_header(
        &self,
        header: PrePow,
        nonce: Option<u64>,
        height: Option<u64>,
        solve: bool,
    ) -> Self;

    /// The reason for which the verifier refuses the proof, if it does.
    spec fn refusal(&self, proof: Proof) -> Option<Seq<char>>;

    /// Gives the verifier the header that the proof is for.
    fn set_header_nonce(
        &mut self,
        header: PrePow,
        nonce: Option<u64>,
        height: Option<u64>,
        solve: bool,
    ) -> (res: Result<(), Error>)
        ensures
            match old(self).header_failure(header) {
                None => res is Ok && *final(self) == old(self).with_header(
                    header,
                    nonce,
                    height,
                    solve,
                ),
                Some(error) => res == Err::<(), Error>(error) && *final(self) == *old(self),
            },
    ;

    /// Judges a proof.
    fn verify(&mut self, proof: &Proof) -> (res: Result<(), Error>)
        requires
            old(self).takes_proof(*proof),
        ensures
            *final(self) == *old(self),
            verified_as(res, old(self).refusal(*proof)),
    ;
}

/// Whether `res` accepts where there is no reason to refuse, and refuses with that reason where there is one.
pub open spec fn verified_as(res: Result<(), Error>, refusal: Option<Seq<char>>) -> bool {
    match refusal {
        None => res is Ok,
        Some(reason) => res matches Err(Error::Verification(text)) && text@ == reason,
    }
}

} // verus!
