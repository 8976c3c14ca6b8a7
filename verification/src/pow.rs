//! Proof-of-work data types and verification used by the wallet.

pub mod acceptance;
pub mod common;
pub mod cuckatoo;
pub mod cycle;
pub mod progpow;
pub mod siphash;
pub mod types;

use vstd::prelude::*;

use crate::pow::common::{EdgeType, Error};
use crate::pow::progpow::{is_new_progpow, ProgPowContext};
use crate::pow::types::{verified_as, BlockHeader, ContextRequest, PoWContext, PrePow, Proof};

verus! {

/// How many solutions a verifier keeps room for.
pub const VERIFICATION_CONTEXTS: u32 = 1;

/// The verifier that the proof of `header` asks for; `proof_size` is the
/// number of edges that the chain asks of a cycle.
pub open spec fn context_for(header: BlockHeader, proof_size: usize) -> ContextRequest {
    match header.pow.proof {
        Proof::ProgPowProof { .. } => ContextRequest::ProgPow,
        Proof::RandomXProof { .. } => ContextRequest::RandomX { seed: header.pow.seed },
        Proof::MD5Proof { .. } => ContextRequest::MD5 {
            edge_bits: header.pow.edge_bits,
            proof_size,
            contexts: VERIFICATION_CONTEXTS,
        },
        Proof::CuckooProof { nonces, .. } => ContextRequest::Cuckoo {
            height: header.height,
            edge_bits: header.pow.edge_bits,
            proof_size: nonces.len(),
            contexts: VERIFICATION_CONTEXTS,
        },
    }
}

/// The verifier that the proof of `header` asks for; `proof_size` is the
/// number of edges that the chain asks of a cycle.
pub fn requested_context(header: &BlockHeader, proof_size: usize) -> (res: ContextRequest)
    ensures
        res == context_for(*header, proof_size),
{
    match &header.pow.proof {
        Proof::ProgPowProof { .. } => ContextRequest::ProgPow,
        Proof::RandomXProof { .. } => ContextRequest::RandomX { seed: header.pow.seed },
        Proof::MD5Proof { .. } => ContextRequest::MD5 {
            edge_bits: header.pow.edge_bits,
            proof_size,
            contexts: VERIFICATION_CONTEXTS,
        },
        Proof::CuckooProof { nonces, .. } => ContextRequest::Cuckoo {
            height: header.height,
            edge_bits: header.pow.edge_bits,
            proof_size: nonces.len(),
            contexts: VERIFICATION_CONTEXTS,
        },
    }
}

/// The nonce that is set beside the header: none for a cycle, whose header holds it already.
pub open spec fn nonce_beside(header: BlockHeader) -> Option<u64> {
    if header.pow.proof is CuckooProof {
        None
    } else {
        Some(header.pow.nonce)
    }
}

/// The nonce that is set beside the header: none for a cycle, whose header holds it already.
pub fn header_nonce(header: &BlockHeader) -> (res: Option<u64>)
    ensures
        res == nonce_beside(*header),
{
    match &header.pow.proof {
        Proof::CuckooProof { .. } => None,
        _ => Some(header.pow.nonce),
    }
}

/// Whether `res` is the judgement of the verifier `context` on the proof of
/// `header`, or the failure that came before it.
pub open spec fn judged<T: EdgeType, C: PoWContext<T>>(
    header: BlockHeader,
    pre_pow: PrePow,
    context: Result<C, Error>,
    res: Result<(), Error>,
) -> bool {
    match context {
        Ok(verifier) => match verifier.header_failure(pre_pow) {
            Some(error) => res == Err::<(), Error>(error),
            None => verified_as(
                res,
                verifier.with_header(
                    pre_pow,
                    nonce_beside(header),
                    Some(header.height),
                    false,
                ).refusal(header.pow.proof),
            ),
        },
        Err(error) => res == Err::<(), Error>(error),
    }
}

/// Verifies the proof of `header`, whose hashed part is `pre_pow`, with the
/// verifier that `requested_context` asked for.
pub fn verify_size<T: EdgeType, C: PoWContext<T>>(
    header: &BlockHeader,
    pre_pow: PrePow,
    context: Result<C, Error>,
) -> (res: Result<(), Error>)
    requires
        context matches Ok(verifier) ==> (verifier.header_failure(pre_pow) is None
            ==> verifier.with_header(
            pre_pow,
            nonce_beside(*header),
            Some(header.height),
            false,
        ).takes_proof(header.pow.proof)),
    ensures
        judged(*header, pre_pow, context, res),
{
    let mut verifier = match context {
        Ok(verifier) => verifier,
        Err(error) => {
            return Err(error);
        },
    };
    let nonce = header_nonce(header);
    match verifier.set_header_nonce(pre_pow, nonce, Some(header.height), false) {
        Ok(()) => verifier.verify(&header.pow.proof),
        Err(error) => Err(error),
    }
}

/// A header whose proof asks for ProgPow is never accepted: the verifier that
/// is made for it refuses every proof.
pub proof fn progpow_is_never_accepted<T: EdgeType>(
    header: BlockHeader,
    proof_size: usize,
    pre_pow: PrePow,
    context: Result<ProgPowContext<T>, Error>,
    res: Result<(), Error>,
)
    requires
        context_for(header, proof_size) is ProgPow,
        is_new_progpow(context),
        judged(header, pre_pow, context, res),
    ensures
        verified_as(res, Some("native wallet build has no PoW verifier"@)),
        res is Err,
{
}

} // verus!
