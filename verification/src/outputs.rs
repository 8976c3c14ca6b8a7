//! The outputs of a wallet: what they are worth and which transactions they belong to.

use std::collections::{HashMap, HashSet};

use vstd::hash_set::StringHashSet;
use vstd::prelude::*;

use crate::text::{hex, to_hex};

verus! {

/// The state of an output.
#[derive(Copy, Clone, PartialEq, Eq, Debug, Structural)]
pub enum OutputStatus {
    Unconfirmed,
    Unspent,
    Locked,
    Spent,
    Deleted,
}

/// An output of the wallet.
pub struct Output {
    pub status: OutputStatus,
    /// What it is worth, in units.
    pub value: u64,
    /// The block that it came with, or zero.
    pub height: u64,
    /// Its commitment as text, where the wallet has stored it.
    pub commit: Option<String>,
    /// Its commitment.
    pub commit_bytes: Vec<u8>,
    /// The transaction that it belongs to.
    pub tx_log_entry: Option<u32>,
    /// Whether it can be spent at the height that was asked about.
    pub eligible: bool,
}

/// Whether an output is gone.
pub open spec fn gone(status: OutputStatus) -> bool {
    status is Spent || status is Deleted
}

/// Whether an output is gone.
pub fn is_gone(status: OutputStatus) -> (res: bool)
    ensures
        res == gone(status),
{
    match status {
        OutputStatus::Spent | OutputStatus::Deleted => true,
        _ => false,
    }
}

/// The commitment of an output as text: as it is stored, or in hexadecimal.
pub open spec fn commit_of(output: Output) -> Seq<char> {
    match output.commit {
        Some(text) => text@,
        None => hex(output.commit_bytes@),
    }
}

/// The commitment of an output as text.
pub fn commit_text(output: &Output) -> (res: String)
    ensures
        res@ == commit_of(*output),
{
    match &output.commit {
        Some(text) => text.clone(),
        None => to_hex(&output.commit_bytes),
    }
}

/// What an output adds to the balance.
pub open spec fn balance_share(output: Output) -> nat {
    if output.status is Unspent || output.status is Unconfirmed {
        output.value as nat
    } else {
        0
    }
}

/// What an output adds to what can be spent.
pub open spec fn spendable_share(output: Output) -> nat {
    if output.status is Unspent && output.eligible {
        output.value as nat
    } else {
        0
    }
}

/// The balance of these outputs.
pub open spec fn balance(outputs: Seq<Output>) -> nat
    decreases outputs.len(),
{
    if outputs.len() == 0 {
        0
    } else {
        balance(outputs.drop_last()) + balance_share(outputs.last())
    }
}

/// What can be spent of these outputs.
pub open spec fn spendable(outputs: Seq<Output>) -> nat
    decreases outputs.len(),
{
    if outputs.len() == 0 {
        0
    } else {
        spendable(outputs.drop_last()) + spendable_share(outputs.last())
    }
}

/// `n`, or the largest `u64` where it is more.
pub open spec fn capped(n: nat) -> u64 {
    if n > u64::MAX {
        u64::MAX
    } else {
        n as u64
    }
}

/// The balance of these outputs and what of it can be spent.
pub fn output_totals(outputs: &Vec<Output>) -> (res: (u64, u64))
    ensures
        res.0 == capped(balance(outputs@)),
        res.1 == capped(spendable(outputs@)),
{
    let mut total: u64 = 0;
    let mut can_spend: u64 = 0;
    let mut i: usize = 0;
    assert(outputs@.take(0) =~= Seq::<Output>::empty());
    while i < outputs.len()
        invariant
            i <= outputs@.len(),
            total == capped(balance(outputs@.take(i as int))),
            can_spend == capped(spendable(outputs@.take(i as int))),
        decreases outputs@.len() - i,
    {
        assert(outputs@.take(i + 1).drop_last() =~= outputs@.take(i as int));
        let output = &outputs[i];
        match output.status {
            OutputStatus::Unspent => {
                total = total.saturating_add(output.value);
                if output.eligible {
                    can_spend = can_spend.saturating_add(output.value);
                }
            },
            OutputStatus::Unconfirmed => {
                total = total.saturating_add(output.value);
            },
            OutputStatus::Locked | OutputStatus::Spent | OutputStatus::Deleted => {},
        }
        i = i + 1;
    }
    assert(outputs@.take(outputs@.len() as int) =~= outputs@);
    (total, can_spend)
}

/// What can be spent is never more than the balance.
pub proof fn spendable_within_balance(outputs: Seq<Output>)
    ensures
        spendable(outputs) <= balance(outputs),
        capped(spendable(outputs)) <= capped(balance(outputs)),
    decreases outputs.len(),
{
    if outputs.len() > 0 {
        spendable_within_balance(outputs.drop_last());
    }
}

/// Whether output `i` belongs to the transaction `id`.
pub open spec fn belongs(outputs: Seq<Output>, i: int, id: u32) -> bool {
    0 <= i < outputs.len() && outputs[i].tx_log_entry == Some(id)
}

/// Whether any output belongs to the transaction `id`.
pub open spec fn has_outputs(outputs: Seq<Output>, id: u32) -> bool {
    exists|i: int| belongs(outputs, i, id)
}

/// Whether every output of the transaction `id` is gone.
pub open spec fn all_gone(outputs: Seq<Output>, id: u32) -> bool {
    forall|i: int| #[trigger] belongs(outputs, i, id) ==> gone(outputs[i].status)
}

/// Whether `commit` is the commitment of an output that is gone.
pub open spec fn gone_commit(outputs: Seq<Output>, commit: Seq<char>) -> bool {
    exists|i: int|
        0 <= i < outputs.len() && gone((#[trigger] outputs[i]).status) && commit_of(outputs[i])
            == commit
}

/// For each transaction with outputs whether they are all gone, and the
/// commitments of the outputs that are gone.
pub fn spent_outputs_by_tx(outputs: &Vec<Output>) -> (res: (HashMap<u32, bool>, StringHashSet))
    ensures
        forall|id: u32| #[trigger]
            res.0@.contains_key(id) <==> has_outputs(outputs@, id),
        forall|id: u32| #[trigger]
            res.0@.contains_key(id) ==> res.0@[id] == all_gone(outputs@, id),
        forall|commit: Seq<char>| #[trigger]
            res.1@.contains(commit) <==> gone_commit(outputs@, commit),
{
    let mut spent_by_tx: HashMap<u32, bool> = HashMap::new();
    let mut spent_commits = StringHashSet::new();
    let mut i: usize = 0;
    while i < outputs.len()
        invariant
            i <= outputs@.len(),
            forall|id: u32| #[trigger]
                spent_by_tx@.contains_key(id) <==> has_outputs(outputs@.take(i as int), id),
            forall|id: u32| #[trigger]
                spent_by_tx@.contains_key(id) ==> spent_by_tx@[id] == all_gone(
                    outputs@.take(i as int),
                    id,
                ),
            forall|commit: Seq<char>| #[trigger]
                spent_commits@.contains(commit) <==> gone_commit(outputs@.take(i as int), commit),
        decreases outputs@.len() - i,
    {
        let output = &outputs[i];
        proof {
            lemma_one_more(outputs@, i as int);
        }
        let is_spent = is_gone(output.status);
        if is_spent {
            let _ = spent_commits.insert(commit_text(output));
        }
        if let Some(id) = output.tx_log_entry {
            let so_far = match spent_by_tx.get(&id) {
                Some(value) => *value,
                None => true,
            };
            let _ = spent_by_tx.insert(id, so_far && is_spent);
        }
        i = i + 1;
    }
    assert(outputs@.take(outputs@.len() as int) =~= outputs@);
    (spent_by_tx, spent_commits)
}

/// What the next output changes.
proof fn lemma_one_more(outputs: Seq<Output>, i: int)
    requires
        0 <= i < outputs.len(),
    ensures
        forall|id: u32| #[trigger]
            has_outputs(outputs.take(i + 1), id) <==> has_outputs(outputs.take(i), id)
                || outputs[i].tx_log_entry == Some(id),
        forall|id: u32| #[trigger]
            all_gone(outputs.take(i + 1), id) <==> all_gone(outputs.take(i), id) && (
            outputs[i].tx_log_entry == Some(id) ==> gone(outputs[i].status)),
        forall|id: u32| !has_outputs(outputs.take(i), id) ==> #[trigger] all_gone(outputs.take(i), id),
        forall|commit: Seq<char>| #[trigger]
            gone_commit(outputs.take(i + 1), commit) <==> gone_commit(outputs.take(i), commit) || (
            gone(outputs[i].status) && commit_of(outputs[i]) == commit),
{
    let before = outputs.take(i);
    let after = outputs.take(i + 1);
    assert forall|id: u32| #[trigger]
        has_outputs(after, id) <==> has_outputs(before, id) || outputs[i].tx_log_entry == Some(
            id,
        ) by {
        if has_outputs(before, id) {
            let j = choose|j: int| belongs(before, j, id);
            assert(belongs(after, j, id));
        }
        if outputs[i].tx_log_entry == Some(id) {
            assert(belongs(after, i, id));
        }
        if has_outputs(after, id) {
            let j = choose|j: int| belongs(after, j, id);
            if j < i {
                assert(belongs(before, j, id));
            }
        }
    }
    assert forall|id: u32| #[trigger]
        all_gone(after, id) <==> all_gone(before, id) && (outputs[i].tx_log_entry == Some(id)
            ==> gone(outputs[i].status)) by {
        if all_gone(after, id) {
            assert forall|j: int| #[trigger] belongs(before, j, id) implies gone(
                before[j].status,
            ) by {
                assert(belongs(after, j, id));
            }
            assert(belongs(after, i, id) <==> outputs[i].tx_log_entry == Some(id));
        }
        if all_gone(before, id) && (outputs[i].tx_log_entry == Some(id) ==> gone(
            outputs[i].status,
        )) {
            assert forall|j: int| #[trigger] belongs(after, j, id) implies gone(
                after[j].status,
            ) by {
                if j < i {
                    assert(belongs(before, j, id));
                }
            }
        }
    }
    assert forall|commit: Seq<char>| #[trigger]
        gone_commit(after, commit) <==> gone_commit(before, commit) || (gone(outputs[i].status)
            && commit_of(outputs[i]) == commit) by {
        if gone_commit(before, commit) {
            let j = choose|j: int|
                0 <= j < before.len() && gone((#[trigger] before[j]).status) && commit_of(before[j])
                    == commit;
            assert(after[j] == before[j]);
        }
        if gone(outputs[i].status) && commit_of(outputs[i]) == commit {
            assert(after[i] == outputs[i]);
        }
        if gone_commit(after, commit) {
            let j = choose|j: int|
                0 <= j < after.len() && gone((#[trigger] after[j]).status) && commit_of(after[j])
                    == commit;
            if j < i {
                assert(before[j] == after[j]);
            }
        }
    }
}

/// The commitments of the outputs of the transaction `id`, in order.
pub open spec fn commits_of(outputs: Seq<Output>, id: u32) -> Seq<Seq<char>>
    decreases outputs.len(),
{
    if outputs.len() == 0 {
        Seq::empty()
    } else {
        let earlier = commits_of(outputs.drop_last(), id);
        if outputs.last().tx_log_entry == Some(id) {
            earlier.push(commit_of(outputs.last()))
        } else {
            earlier
        }
    }
}

/// The texts of these strings.
pub open spec fn texts(strings: Seq<String>) -> Seq<Seq<char>> {
    strings.map_values(|text: String| text@)
}

/// The blocks that these outputs came with.
pub open spec fn heights_of(outputs: Seq<Output>) -> Set<u64> {
    Set::new(|height: u64| height > 0 && came_with(outputs, height))
}

/// Whether any output came with the block at `height`.
pub open spec fn came_with(outputs: Seq<Output>, height: u64) -> bool {
    exists|i: int| 0 <= i < outputs.len() && (#[trigger] outputs[i]).height == height
}

/// The commitments of the outputs of each transaction that has any, in order,
/// and the blocks that the outputs came with.
pub fn output_commits_and_heights_by_tx(outputs: &Vec<Output>) -> (res: (
    HashMap<u32, Vec<String>>,
    HashSet<u64>,
))
    ensures
        forall|id: u32| #[trigger]
            res.0@.contains_key(id) <==> commits_of(outputs@, id).len() > 0,
        forall|id: u32| #[trigger]
            res.0@.contains_key(id) ==> texts(res.0@[id]@) == commits_of(outputs@, id),
        res.1@ == heights_of(outputs@),
{
    let mut commits: HashMap<u32, Vec<String>> = HashMap::new();
    let mut heights: HashSet<u64> = HashSet::new();
    let mut i: usize = 0;
    assert(heights@ =~= heights_of(outputs@.take(0)));
    while i < outputs.len()
        invariant
            i <= outputs@.len(),
            forall|id: u32| #[trigger]
                commits@.contains_key(id) <==> commits_of(outputs@.take(i as int), id).len() > 0,
            forall|id: u32| #[trigger]
                commits@.contains_key(id) ==> texts(commits@[id]@) == commits_of(
                    outputs@.take(i as int),
                    id,
                ),
            heights@ == heights_of(outputs@.take(i as int)),
        decreases outputs@.len() - i,
    {
        let ghost before = outputs@.take(i as int);
        let ghost after = outputs@.take(i + 1);
        let output = &outputs[i];
        assert(after.drop_last() =~= before);
        assert(after.last() == *output);
        if output.height > 0 {
            let _ = heights.insert(output.height);
        }
        assert(heights@ =~= heights_of(after)) by {
            assert forall|height: u64| heights@.contains(height) <==> heights_of(after).contains(
                height,
            ) by {
                if came_with(before, height) {
                    let j = choose|j: int|
                        0 <= j < before.len() && (#[trigger] before[j]).height == height;
                    assert(after[j].height == height);
                }
                if came_with(after, height) {
                    let j = choose|j: int|
                        0 <= j < after.len() && (#[trigger] after[j]).height == height;
                    if j < i {
                        assert(before[j].height == height);
                    }
                }
                assert(after[i as int].height == output.height);
            }
        }
        if let Some(id) = output.tx_log_entry {
            let commit = commit_text(output);
            let mut known = match commits.remove(&id) {
                Some(known) => known,
                None => Vec::new(),
            };
            let ghost earlier = known@;
            assert(texts(earlier) =~= commits_of(before, id));
            known.push(commit);
            assert(texts(known@) =~= texts(earlier).push(commit@));
            let _ = commits.insert(id, known);
        }
        i = i + 1;
    }
    assert(outputs@.take(outputs@.len() as int) =~= outputs@);
    (commits, heights)
}

/// A transaction has commitments if and only if it has outputs.
pub proof fn commits_are_of_outputs(outputs: Seq<Output>, id: u32)
    ensures
        commits_of(outputs, id).len() > 0 <==> has_outputs(outputs, id),
    decreases outputs.len(),
{
    if outputs.len() > 0 {
        let earlier = outputs.drop_last();
        commits_are_of_outputs(earlier, id);
        if has_outputs(earlier, id) {
            let j = choose|j: int| belongs(earlier, j, id);
            assert(belongs(outputs, j, id));
        }
        if outputs.last().tx_log_entry == Some(id) {
            assert(belongs(outputs, outputs.len() - 1, id));
        }
        if has_outputs(outputs, id) {
            let j = choose|j: int| belongs(outputs, j, id);
            if j < outputs.len() - 1 {
                assert(belongs(earlier, j, id));
            }
        }
    }
}

} // verus!
