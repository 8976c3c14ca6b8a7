//! ProgPow in a build that holds headers but verifies no proof.

use std::marker::PhantomData;

use vstd::prelude::*;

use crate::pow::common::{EdgeType, Error};
use crate::pow::types::{PoWContext, PrePow, Proof};

verus! {

/// The header that a ProgPow proof would be for.
pub struct ProgPowContext<T: EdgeType> {
    pub header: Vec<u8>,
    pub nonce: u64,
    pub height: u64,
    pub phantom: PhantomData<T>,
}

/// Whether `res` is a verifier without a header.
pub open spec fn is_new_progpow<T: EdgeType>(res: Result<ProgPowContext<T>, Error>) -> bool {
    res matches Ok(context) && context.nonce == 0 && context.height == 0 && context.header@
        == Seq::<u8>::empty()
}

/// A verifier without a header.
pub fn new_progpow_ctx<T: EdgeType>() -> (res: Result<ProgPowContext<T>, Error>)
    ensures
        is_new_progpow(res),
{
    Ok(ProgPowContext { nonce: 0, height: 0, header: Vec::new(), phantom: PhantomData })
}

/// The ProgPow value of a header: zero in this build, whatever the header.
pub fn get_progpow_value(header: &[u8], height: u64, nonce: u64) -> (res: [u8; 32])
    ensures
        forall|i: int| 0 <= i < 32 ==> res@[i] == 0,
{
    [0u8;32]
}

impl<T: EdgeType> PoWContext<T> for ProgPowContext<T> {
    open spec fn header_failure(&self, header: PrePow) -> Option<Error> {
        None
    }

    open spec fn takes_proof(&self, candidate: Proof) -> bool {
        true
    }

    open spec fn with_header(
        &self,
        header: PrePow,
        nonce: Option<u64>,
        height: Option<u64>,
        solve: bool,
    ) -> Self {
        ProgPowContext {
            header: header.bytes,
            nonce: match nonce {
                Some(given) => given,
                None => 0,
            },
            height: match height {
                Some(given) => given,
                None => 0,
            },
            phantom: self.phantom,
        }
    }

    open spec fn refusal(&self, candidate: Proof) -> Option<Seq<char>> {
        Some("native wallet build has no PoW verifier"@)
    }

    fn set_header_nonce(
        &mut self,
        header: PrePow,
        nonce: Option<u64>,
        height: Option<u64>,
        solve: bool,
    ) -> (res: Result<(), Error>) {
        self.header = header.bytes;
        self.nonce = nonce.unwrap_or(0);
        self.height = height.unwrap_or(0);
        Ok(())
    }

    fn verify(&mut self, candidate: &Proof) -> (res: Result<(), Error>) {
        Err(Error::Verification(String::from_str("native wallet build has no PoW verifier")))
    }
}

} // verus!
