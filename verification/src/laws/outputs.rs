//! What is relied on when outputs are added up and sorted by transaction.

use std::collections::{HashMap, HashSet};

use vstd::hash_set::StringHashSet;
use vstd::prelude::*;

use crate::outputs::{
    balance, belongs, came_with, commit_of, commit_text, commits_of, gone_commit, has_outputs,
    is_gone, output_commits_and_heights_by_tx, output_totals, spendable, spent_outputs_by_tx, texts,
    Output, OutputStatus,
};
use crate::text::hex;

verus! {

/// `sum` and `more` together, or the largest `u64` where that is more.
pub open spec fn plus(sum: u64, more: u64) -> u64 {
    if sum + more > u64::MAX {
        u64::MAX
    } else {
        (sum + more) as u64
    }
}

/// Without outputs there is neither a balance nor anything to spend. One more
/// output adds its whole value to the balance where it is unspent or not
/// confirmed yet, and to what can be spent where it is unspent and eligible;
/// any other adds nothing. Its transaction, height and commitment do not count.
pub proof fn every_output_counts_by_its_status(
    before: Vec<Output>,
    sums: (u64, u64),
    after: Vec<Output>,
    output: Output,
    res: (u64, u64),
)
    requires
        call_ensures(output_totals, (&before,), sums),
        call_ensures(output_totals, (&after,), res),
        after@ == before@.push(output),
    ensures
        before@.len() == 0 ==> sums == (0u64, 0u64),
        output.status == OutputStatus::Unspent ==> res.0 == plus(sums.0, output.value),
        output.status == OutputStatus::Unspent && output.eligible ==> res.1 == plus(
            sums.1,
            output.value,
        ),
        output.status == OutputStatus::Unspent && !output.eligible ==> res.1 == sums.1,
        output.status == OutputStatus::Unconfirmed ==> res == (plus(sums.0, output.value), sums.1),
        output.status == OutputStatus::Locked ==> res == sums,
        output.status == OutputStatus::Spent ==> res == sums,
        output.status == OutputStatus::Deleted ==> res == sums,
{
    assert(after@.drop_last() =~= before@);
}

/// Whether two outputs are alike in what they are worth.
pub open spec fn worth_the_same(a: Output, b: Output) -> bool {
    a.status == b.status && a.value == b.value && a.eligible == b.eligible
}

proof fn lemma_worth(a: Seq<Output>, b: Seq<Output>)
    requires
        a.len() == b.len(),
        forall|i: int| 0 <= i < a.len() ==> worth_the_same(#[trigger] a[i], b[i]),
    ensures
        balance(a) == balance(b),
        spendable(a) == spendable(b),
    decreases a.len(),
{
    if a.len() > 0 {
        assert forall|i: int| 0 <= i < a.drop_last().len() implies worth_the_same(
            #[trigger] a.drop_last()[i],
            b.drop_last()[i],
        ) by {
            assert(worth_the_same(a[i], b[i]));
        }
        lemma_worth(a.drop_last(), b.drop_last());
        assert(worth_the_same(a[a.len() - 1], b[b.len() - 1]));
    }
}

/// What outputs are worth depends on their status, value and eligibility
/// alone: outputs that agree in these add up to the same, whatever their
/// transactions, heights and commitments.
pub proof fn only_status_value_and_eligibility_count(
    some: Vec<Output>,
    sums: (u64, u64),
    others: Vec<Output>,
    res: (u64, u64),
)
    requires
        call_ensures(output_totals, (&some,), sums),
        call_ensures(output_totals, (&others,), res),
        some@.len() == others@.len(),
        forall|i: int| 0 <= i < some@.len() ==> worth_the_same(#[trigger] some@[i], others@[i]),
    ensures
        sums == res,
{
    lemma_worth(some@, others@);
}

/// An output is gone exactly where it is spent or deleted.
pub proof fn gone_means_spent_or_deleted(status: OutputStatus, res: bool)
    requires
        call_ensures(is_gone, (status,), res),
    ensures
        res <==> status == OutputStatus::Spent || status == OutputStatus::Deleted,
{
}

/// A commitment that is stored as text is shown as that text, and any other in
/// hexadecimal.
pub proof fn stored_commitment_comes_first(output: Output, res: String)
    requires
        call_ensures(commit_text, (&output,), res),
    ensures
        output.commit matches Some(text) ==> res@ == text@,
        output.commit is None ==> res@ == hex(output.commit_bytes@),
        res@ == commit_of(output),
{
}

/// Whether an output is spent or deleted.
pub open spec fn used_up(output: Output) -> bool {
    output.status == OutputStatus::Spent || output.status == OutputStatus::Deleted
}

/// Whether the outputs of a transaction are used up is known of every
/// transaction that has any: it is so where each of them is spent or deleted. A
/// commitment counts as used up exactly where an output with it is.
pub proof fn used_up_goes_by_the_outputs(
    outputs: Vec<Output>,
    res: (HashMap<u32, bool>, StringHashSet),
    id: u32,
    commit: Seq<char>,
)
    requires
        call_ensures(spent_outputs_by_tx, (&outputs,), res),
    ensures
        res.0@.contains_key(id) <==> exists|i: int|
            0 <= i < outputs@.len() && (#[trigger] outputs@[i]).tx_log_entry == Some(id),
        res.0@.contains_key(id) ==> (res.0@[id] <==> forall|i: int|
            0 <= i < outputs@.len() && (#[trigger] outputs@[i]).tx_log_entry == Some(id) ==> used_up(
                outputs@[i],
            )),
        res.1@.contains(commit) <==> exists|i: int|
            0 <= i < outputs@.len() && used_up(#[trigger] outputs@[i]) && commit_of(outputs@[i])
                == commit,
{
    assert(res.0@.contains_key(id) <==> has_outputs(outputs@, id));
    if exists|i: int| 0 <= i < outputs@.len() && (#[trigger] outputs@[i]).tx_log_entry == Some(id) {
        let i = choose|i: int|
            0 <= i < outputs@.len() && (#[trigger] outputs@[i]).tx_log_entry == Some(id);
        assert(belongs(outputs@, i, id));
    }
    if res.0@.contains_key(id) {
        if res.0@[id] {
            assert forall|i: int|
                0 <= i < outputs@.len() && (#[trigger] outputs@[i]).tx_log_entry == Some(
                    id,
                ) implies used_up(outputs@[i]) by {
                assert(belongs(outputs@, i, id));
            }
        }
    }
    assert(res.1@.contains(commit) <==> gone_commit(outputs@, commit));
}

/// One more output adds its commitment behind those of its transaction, and
/// to no other; without outputs no transaction has any.
pub proof fn commitments_are_kept_in_order(
    before: Vec<Output>,
    first: (HashMap<u32, Vec<String>>, HashSet<u64>),
    after: Vec<Output>,
    output: Output,
    res: (HashMap<u32, Vec<String>>, HashSet<u64>),
    id: u32,
)
    requires
        call_ensures(output_commits_and_heights_by_tx, (&before,), first),
        call_ensures(output_commits_and_heights_by_tx, (&after,), res),
        after@ == before@.push(output),
    ensures
        before@.len() == 0 ==> !first.0@.contains_key(id),
        ({
            let known = if first.0@.contains_key(id) {
                texts(first.0@[id]@)
            } else {
                Seq::empty()
            };
            if output.tx_log_entry == Some(id) {
                res.0@.contains_key(id) && texts(res.0@[id]@) == known.push(commit_of(output))
            } else {
                (res.0@.contains_key(id) <==> first.0@.contains_key(id)) && (
                res.0@.contains_key(id) ==> texts(res.0@[id]@) == known)
            }
        }),
{
    assert(after@.drop_last() =~= before@);
    assert(first.0@.contains_key(id) <==> commits_of(before@, id).len() > 0);
    assert(res.0@.contains_key(id) <==> commits_of(after@, id).len() > 0);
    if !first.0@.contains_key(id) {
        assert(commits_of(before@, id) =~= Seq::empty());
    }
}

/// The blocks that outputs came with are those that they name, block zero left out.
pub proof fn blocks_are_those_of_the_outputs(
    outputs: Vec<Output>,
    res: (HashMap<u32, Vec<String>>, HashSet<u64>),
    height: u64,
)
    requires
        call_ensures(output_commits_and_heights_by_tx, (&outputs,), res),
    ensures
        res.1@.contains(height) <==> height != 0 && exists|i: int|
            0 <= i < outputs@.len() && (#[trigger] outputs@[i]).height == height,
{
    assert(came_with(outputs@, height) <==> exists|i: int|
        0 <= i < outputs@.len() && (#[trigger] outputs@[i]).height == height);
}

} // verus!
