use altbase_epic::pow::common::{CuckooParams, Error};
use altbase_epic::pow::cuckatoo::{new_cuckatoo_ctx, CuckatooContext};
use altbase_epic::pow::progpow::{get_progpow_value, new_progpow_ctx, ProgPowContext};
use altbase_epic::pow::siphash::siphash24;
use altbase_epic::pow::types::{
    BlockHeader, ContextRequest, PoWContext, PrePow, Proof, ProofOfWork,
};
use altbase_epic::pow::{header_nonce, requested_context, verify_size};

fn graph(keys: [u64; 4], edge_bits: u8, proof_size: usize) -> CuckatooContext<u64> {
    let mut context = match new_cuckatoo_ctx::<u64>(edge_bits, proof_size, 1) {
        Ok(context) => context,
        Err(_) => panic!("no graph"),
    };
    assert!(context.set_header_nonce_impl(Ok(keys)).is_ok());
    context
}

fn cycle(edge_bits: u8, nonces: Vec<u64>) -> Proof {
    Proof::CuckooProof { edge_bits, nonces }
}

fn refusal(result: Result<(), Error>) -> String {
    match result {
        Ok(()) => "accepted".to_string(),
        Err(Error::Verification(reason)) => reason,
        Err(_) => panic!("another error"),
    }
}

fn header(proof: Proof) -> BlockHeader {
    BlockHeader {
        height: 77,
        pow: ProofOfWork { nonce: 5, seed: [3; 32], edge_bits: 4, proof },
    }
}

#[test]
fn hash_of_one_word() {
    assert_eq!(siphash24(&[1, 2, 3, 4], 10), 928382149599306901);
    assert_eq!(siphash24(&[1, 2, 3, 4], 111), 10524991083049122233);
    assert_eq!(siphash24(&[9, 7, 6, 7], 12), 1305683875471634734);
    assert_eq!(siphash24(&[9, 7, 6, 7], 10), 11589833042187638814);
}

#[test]
fn edges_must_fit_the_edge_type() {
    assert!(CuckooParams::<u32>::new(32, 42).is_ok());
    assert!(matches!(CuckooParams::<u32>::new(33, 42), Err(Error::IntegerCast)));
    let params = CuckooParams::<u64>::new(63, 42).ok().unwrap();
    assert_eq!(params.edge_mask, (1u64 << 63) - 1);
    assert_eq!(params.siphash_keys, [0, 0, 0, 0]);
}

#[test]
fn node_is_the_masked_hash() {
    let context = graph([1, 2, 3, 4], 8, 4);
    assert_eq!(context.sipnode(5, 0).ok().unwrap(), siphash24(&[1, 2, 3, 4], 10) & 0xff);
    assert_eq!(context.sipnode(55, 1).ok().unwrap(), siphash24(&[1, 2, 3, 4], 111) & 0xff);
}

#[test]
fn keys_are_written_in_hexadecimal() {
    let context = graph([0x0123456789abcdef, 0, 1, u64::MAX], 8, 4);
    assert_eq!(context.sipkey_hex(0).ok().unwrap(), "0123456789abcdef");
    assert_eq!(context.sipkey_hex(2).ok().unwrap(), "0000000000000001");
    assert_eq!(context.sipkey_hex(3).ok().unwrap(), "ffffffffffffffff");
}

#[test]
fn cycle_through_all_edges_is_accepted() {
    let context = graph([4, 2, 3, 4], 4, 4);
    assert_eq!(refusal(context.verify_impl(&cycle(4, vec![8, 9, 10, 15]))), "accepted");
}

/// Whether the edges form one simple cycle.
fn is_cycle(context: &CuckatooContext<u64>, nonces: &[u64]) -> bool {
    let node = |edge: usize, side: u64| context.sipnode(nonces[edge], side).ok().unwrap();
    let mut reached = vec![0];
    let mut i = 0;
    while i < reached.len() {
        let edge = reached[i];
        for side in [0, 1] {
            let end = node(edge, side);
            let met: Vec<usize> = (0..nonces.len())
                .filter(|other| *other != edge && node(*other, side) >> 1 == end >> 1)
                .collect();
            if met.len() != 1 || node(met[0], side) == end {
                return false;
            }
            if !reached.contains(&met[0]) {
                reached.push(met[0]);
            }
        }
        i += 1;
    }
    reached.len() == nonces.len()
}

#[test]
fn proofs_are_accepted_exactly_where_they_are_cycles() {
    let mut accepted = 0;
    for key in 0..40 {
        let context = graph([key, 2, 3, 4], 4, 4);
        for edges in 0u64..1 << 16 {
            if edges.count_ones() == 4 {
                let nonces: Vec<u64> = (0..16).filter(|i| edges >> i & 1 == 1).collect();
                let is_accepted = context.verify_impl(&cycle(4, nonces.clone())).is_ok();
                assert_eq!(is_accepted, is_cycle(&context, &nonces));
                accepted += u32::from(is_accepted);
            }
        }
    }
    assert!(accepted > 0);
}

#[test]
fn other_proofs_are_refused() {
    let context = graph([1, 2, 3, 4], 4, 4);
    let judge = |nonces: Vec<u64>| refusal(context.verify_impl(&cycle(4, nonces)));
    assert_eq!(judge(vec![0, 1, 2, 16]), "edge too big");
    assert_eq!(judge(vec![0, 1, 1, 16]), "edges not ascending");
    assert_eq!(judge(vec![0, 2, 1, 3]), "edges not ascending");
    assert_eq!(judge(vec![0, 1, 2, 3]), "endpoints do not match");
    assert_eq!(judge(vec![0, 1, 3, 15]), "cycle dead ends");
    assert_eq!(judge(vec![4, 9, 11, 14]), "branch in cycle");
    let short = graph([12, 2, 3, 4], 5, 4);
    assert_eq!(refusal(short.verify_impl(&cycle(5, vec![9, 21, 25, 29]))), "cycle too short");
    let wrong = Proof::ProgPowProof { mix: [0; 32] };
    assert_eq!(refusal(context.verify_impl(&wrong)), "wrong algorithm");
}

#[test]
fn too_few_edges_can_still_be_refused() {
    let context = graph([1, 2, 3, 4], 4, 5);
    assert_eq!(refusal(context.verify_impl(&cycle(4, vec![4, 9, 11, 14]))), "branch in cycle");
    assert_eq!(refusal(context.verify_impl(&cycle(4, vec![4, 9]))), "endpoints do not match");
    let one = graph([1, 2, 3, 4], 4, 1);
    assert_eq!(refusal(one.verify_impl(&cycle(4, vec![]))), "cycle dead ends");
}

#[test]
fn room_height_and_purpose_change_no_judgement() {
    for (room, height, solve) in [(1, None, false), (9, Some(5), true), (0, Some(0), false)] {
        let mut context = new_cuckatoo_ctx::<u64>(4, 4, room).ok().unwrap();
        let keyed = PrePow { bytes: vec![], siphash_keys: Ok([4, 2, 3, 4]) };
        assert!(context.set_header_nonce(keyed, None, height, solve).is_ok());
        assert_eq!(refusal(context.verify(&cycle(4, vec![8, 9, 10, 15]))), "accepted");
        assert_eq!(refusal(context.verify(&cycle(4, vec![0, 1, 2, 16]))), "edge too big");
    }
}

#[test]
fn progpow_header_is_never_accepted() {
    let seen = header(Proof::ProgPowProof { mix: [9; 32] });
    assert!(matches!(requested_context(&seen, 42), ContextRequest::ProgPow));
    let pre_pow = PrePow { bytes: vec![1], siphash_keys: Err(Error::Other("none".to_string())) };
    let result = verify_size(&seen, pre_pow, new_progpow_ctx::<u64>());
    assert_eq!(refusal(result), "native wallet build has no PoW verifier");
}

#[test]
fn header_keys_the_graph() {
    let proof = cycle(4, vec![8, 9, 10, 15]);
    let keyed = PrePow { bytes: vec![1], siphash_keys: Ok([4, 2, 3, 4]) };
    let context = new_cuckatoo_ctx::<u64>(4, 4, 1);
    assert_eq!(refusal(verify_size(&header(proof), keyed, context)), "accepted");
}

#[test]
fn failures_before_the_proof_are_passed_on() {
    let failed = PrePow { bytes: vec![1], siphash_keys: Err(Error::Other("hash".to_string())) };
    let context = new_cuckatoo_ctx::<u64>(4, 4, 1);
    let result = verify_size(&header(cycle(4, vec![8, 9, 10, 15])), failed, context);
    assert!(matches!(result, Err(Error::Other(reason)) if reason == "hash"));
    let unused = PrePow { bytes: vec![1], siphash_keys: Ok([0; 4]) };
    let context: Result<CuckatooContext<u64>, Error> = Err(Error::Other("context".to_string()));
    let result = verify_size(&header(cycle(4, vec![8])), unused, context);
    assert!(matches!(result, Err(Error::Other(reason)) if reason == "context"));
}

#[test]
fn progpow_holds_its_header_and_verifies_nothing() {
    let mut context: ProgPowContext<u64> = new_progpow_ctx().ok().unwrap();
    assert_eq!((context.header.len(), context.nonce, context.height), (0, 0, 0));
    let pre_pow = PrePow { bytes: vec![7, 8], siphash_keys: Ok([0; 4]) };
    assert!(context.set_header_nonce(pre_pow, Some(5), Some(77), false).is_ok());
    assert_eq!((context.header.clone(), context.nonce, context.height), (vec![7, 8], 5, 77));
    let proof = Proof::ProgPowProof { mix: [1; 32] };
    assert_eq!(refusal(context.verify(&proof)), "native wallet build has no PoW verifier");
    let again = PrePow { bytes: vec![], siphash_keys: Ok([0; 4]) };
    assert!(context.set_header_nonce(again, None, None, false).is_ok());
    assert_eq!((context.nonce, context.height), (0, 0));
    assert_eq!(get_progpow_value(&[1, 2], 3, 4), [0; 32]);
}

#[test]
fn verifier_follows_the_proof() {
    let progpow = header(Proof::ProgPowProof { mix: [0; 32] });
    assert!(matches!(requested_context(&progpow, 42), ContextRequest::ProgPow));
    assert_eq!(header_nonce(&progpow), Some(5));
    let randomx = header(Proof::RandomXProof { hash: [0; 32] });
    assert!(matches!(
        requested_context(&randomx, 42),
        ContextRequest::RandomX { seed } if seed == [3; 32]
    ));
    let md5 = header(Proof::MD5Proof { edge_bits: 4, proof: "x".to_string() });
    assert!(matches!(
        requested_context(&md5, 42),
        ContextRequest::MD5 { edge_bits: 4, proof_size: 42, contexts: 1 }
    ));
    let cuckoo = header(cycle(4, vec![1, 2, 3]));
    assert!(matches!(
        requested_context(&cuckoo, 42),
        ContextRequest::Cuckoo { height: 77, edge_bits: 4, proof_size: 3, contexts: 1 }
    ));
    assert_eq!(header_nonce(&cuckoo), None);
}
