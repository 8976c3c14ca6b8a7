//! SipHash-2-4 over one 64-bit word, keyed by its four state words.

use vstd::prelude::*;

verus! {

/// The four words of a SipHash state.
pub struct SipState {
    pub v0: u64,
    pub v1: u64,
    pub v2: u64,
    pub v3: u64,
}

/// `x` rotated left by `by` bits.
pub open spec fn rotated(x: u64, by: u64) -> u64 {
    (x << by) | (x >> (64 - by) as u64)
}

/// The first half of a SipHash round.
pub open spec fn half_round_one(s: SipState) -> SipState {
    let v0 = s.v0.wrapping_add(s.v1);
    let v2 = s.v2.wrapping_add(s.v3);
    SipState { v0: rotated(v0, 32), v1: rotated(s.v1, 13) ^ v0, v2, v3: rotated(s.v3, 16) ^ v2 }
}

/// The second half of a SipHash round.
pub open spec fn half_round_two(s: SipState) -> SipState {
    let v2 = s.v2.wrapping_add(s.v1);
    let v0 = s.v0.wrapping_add(s.v3);
    SipState { v0, v1: rotated(s.v1, 17) ^ v2, v2: rotated(v2, 32), v3: rotated(s.v3, 21) ^ v0 }
}

/// `count` SipHash rounds.
pub open spec fn rounds(s: SipState, count: nat) -> SipState
    decreases count,
{
    if count == 0 {
        s
    } else {
        half_round_two(half_round_one(rounds(s, (count - 1) as nat)))
    }
}

/// The hash of `word` under the state `keys`: two rounds take the word in,
/// four rounds close, and the state words are folded together.
pub open spec fn sip_hash(keys: Seq<u64>, word: u64) -> u64 {
    let taken = rounds(
        SipState { v0: keys[0], v1: keys[1], v2: keys[2], v3: keys[3] ^ word },
        2,
    );
    let closed = rounds(SipState { v0: taken.v0 ^ word, v2: taken.v2 ^ 0xff, ..taken }, 4);
    closed.v0 ^ closed.v1 ^ closed.v2 ^ closed.v3
}

fn rotate(x: u64, by: u64) -> (res: u64)
    requires
        0 < by < 64,
    ensures
        res == rotated(x, by),
{
    (x << by) | (x >> (64 - by))
}

fn run_rounds(start: SipState, count: u64) -> (res: SipState)
    ensures
        res == rounds(start, count as nat),
{
    let mut s = start;
    let mut done: u64 = 0;
    while done < count
        invariant
            done <= count,
            s == rounds(start, done as nat),
        decreases count - done,
    {
        let v0 = s.v0.wrapping_add(s.v1);
        let v2 = s.v2.wrapping_add(s.v3);
        let h = SipState {
            v0: rotate(v0, 32),
            v1: rotate(s.v1, 13) ^ v0,
            v2,
            v3: rotate(s.v3, 16) ^ v2,
        };
        let w2 = h.v2.wrapping_add(h.v1);
        let w0 = h.v0.wrapping_add(h.v3);
        s = SipState {
            v0: w0,
            v1: rotate(h.v1, 17) ^ w2,
            v2: rotate(w2, 32),
            v3: rotate(h.v3, 21) ^ w0,
        };
        done = done + 1;
    }
    s
}

/// The hash of `word` under the state `keys`.
pub fn siphash24(keys: &[u64; 4], word: u64) -> (res: u64)
    ensures
        res == sip_hash(keys@, word),
{
    let taken = run_rounds(
        SipState { v0: keys[0], v1: keys[1], v2: keys[2], v3: keys[3] ^ word },
        2,
    );
    let closed = run_rounds(
        SipState { v0: taken.v0 ^ word, v1: taken.v1, v2: taken.v2 ^ 0xff, v3: taken.v3 },
        4,
    );
    closed.v0 ^ closed.v1 ^ closed.v2 ^ closed.v3
}

} // verus!
