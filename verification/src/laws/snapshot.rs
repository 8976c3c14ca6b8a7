//! What is relied on in a report on the whole wallet.

use std::collections::{HashMap, HashSet};

use serde_json::Value;
use vstd::hash_set::StringHashSet;
use vstd::prelude::*;

use crate::block_times::BlockTime;
use crate::history::{
    amounts_of_outputs, amounts_of_transactions, documents, logged_documents, logged_transactions,
    records_follow_the_outputs, records_of, represented_tx_ids, restored_output_transactions,
    transaction_document, AmountTexts, Records, TxEntry,
};
use crate::json::{json, json_parsed, member, Json};
use crate::laws::history::shows;
use crate::laws::request::says;
use crate::outputs::{
    came_with, commits_of, has_outputs, output_commits_and_heights_by_tx, output_totals, spent_outputs_by_tx, Output,
};
use crate::snapshot::{
    add_confirmation_heights, balances, confirmed_in, effective_height, report_figures, reported_document, retrieval_height,
    snapshot, spoken_heights, spoken_of, Report, Snapshot, SnapshotAction, SnapshotEvent, Summary,
};

verus! {

/// A report goes its way step by step: the wallet is opened, asked for its
/// address, restored and brought up to date, and the blocks up to the last one
/// that it knows are scanned; where any were, it is brought up to date again.
pub proof fn report_goes_step_by_step(
    address: String,
    updated: bool,
    again: bool,
    info: Summary,
    later: Summary,
    opened: (Snapshot, SnapshotAction),
    addressed: (Snapshot, SnapshotAction),
    restored: (Snapshot, SnapshotAction),
    refreshed: (Snapshot, SnapshotAction),
    scanned: (Snapshot, SnapshotAction),
    refreshed_again: (Snapshot, SnapshotAction),
    not_scanned: (Snapshot, SnapshotAction),
)
    requires
        call_ensures(snapshot, (Snapshot::Opening, SnapshotEvent::Opened(Ok(()))), opened),
        call_ensures(snapshot, (opened.0, SnapshotEvent::Addressed(Ok(address))), addressed),
        call_ensures(snapshot, (addressed.0, SnapshotEvent::Restored(Ok(()))), restored),
        call_ensures(
            snapshot,
            (restored.0, SnapshotEvent::Refreshed(Ok((updated, info)))),
            refreshed,
        ),
        call_ensures(snapshot, (refreshed.0, SnapshotEvent::Rescanned(Ok(true))), scanned),
        call_ensures(
            snapshot,
            (scanned.0, SnapshotEvent::Refreshed(Ok((again, later)))),
            refreshed_again,
        ),
        call_ensures(snapshot, (refreshed.0, SnapshotEvent::Rescanned(Ok(false))), not_scanned),
    ensures
        opened.1 is Address,
        addressed.1 is Restore,
        restored.1 is Refresh,
        refreshed.1 == (SnapshotAction::Rescan { tip_height: info.last_confirmed_height }),
        scanned.1 is Refresh,
        refreshed_again == (
            Snapshot::Listing { address, updated: updated || again, info: later },
            SnapshotAction::List,
        ),
        not_scanned == (Snapshot::Listing { address, updated, info }, SnapshotAction::List),
{
}

/// All that was gathered on the way, and nothing else, is in the report: the
/// log as it was listed, and the outputs as they were retrieved each time.
pub proof fn report_holds_what_was_gathered(
    address: String,
    updated: bool,
    info: Summary,
    txs: Vec<TxEntry>,
    with_spent: Vec<Output>,
    history: Vec<Output>,
    height: u64,
    current: Option<Vec<Output>>,
    restorable: Vec<Output>,
    listed: (Snapshot, SnapshotAction),
    gathered: (Snapshot, SnapshotAction),
    retrieved: (Snapshot, SnapshotAction),
    collected: (Snapshot, SnapshotAction),
)
    requires
        call_ensures(
            snapshot,
            (Snapshot::Listing { address, updated, info }, SnapshotEvent::Listed(Ok(txs))),
            listed,
        ),
        call_ensures(
            snapshot,
            (listed.0, SnapshotEvent::Gathered { with_spent, history }),
            gathered,
        ),
        call_ensures(retrieval_height, (&history, &txs, &info), height),
        call_ensures(snapshot, (gathered.0, SnapshotEvent::Retrieved(current)), retrieved),
        call_ensures(snapshot, (retrieved.0, SnapshotEvent::Collected(restorable)), collected),
    ensures
        listed.1 is Gather,
        gathered.1 == (SnapshotAction::Retrieve { height }),
        retrieved.1 is Collect,
        collected.0 is Finished,
        collected.1 == SnapshotAction::Report(
            Report { address, updated, info, txs, with_spent, history, current, restorable },
        ),
{
}

/// Whether a report has failed in these words.
pub open spec fn failed_in(res: (Snapshot, SnapshotAction), words: Seq<char>) -> bool {
    res.0 is Finished && (res.1 matches SnapshotAction::Fail(message) && message@ == words)
}

/// A step that fails ends the report, in its words.
pub proof fn failed_step_ends_the_report(
    reason: String,
    address: String,
    updated: bool,
    info: Summary,
    not_opened: (Snapshot, SnapshotAction),
    not_addressed: (Snapshot, SnapshotAction),
    not_restored: (Snapshot, SnapshotAction),
    not_refreshed: (Snapshot, SnapshotAction),
    not_scanned: (Snapshot, SnapshotAction),
    not_refreshed_again: (Snapshot, SnapshotAction),
    not_listed: (Snapshot, SnapshotAction),
)
    requires
        call_ensures(snapshot, (Snapshot::Opening, SnapshotEvent::Opened(Err(reason))), not_opened),
        call_ensures(
            snapshot,
            (Snapshot::Addressing, SnapshotEvent::Addressed(Err(reason))),
            not_addressed,
        ),
        call_ensures(
            snapshot,
            (Snapshot::Restoring { address }, SnapshotEvent::Restored(Err(reason))),
            not_restored,
        ),
        call_ensures(
            snapshot,
            (Snapshot::Refreshing { address }, SnapshotEvent::Refreshed(Err(reason))),
            not_refreshed,
        ),
        call_ensures(
            snapshot,
            (
                Snapshot::Rescanning { address, updated, info },
                SnapshotEvent::Rescanned(Err(reason)),
            ),
            not_scanned,
        ),
        call_ensures(
            snapshot,
            (
                Snapshot::RefreshingAgain { address, updated },
                SnapshotEvent::Refreshed(Err(reason)),
            ),
            not_refreshed_again,
        ),
        call_ensures(
            snapshot,
            (Snapshot::Listing { address, updated, info }, SnapshotEvent::Listed(Err(reason))),
            not_listed,
        ),
    ensures
        failed_in(not_opened, reason@),
        failed_in(not_addressed, reason@),
        failed_in(not_restored, reason@),
        failed_in(not_refreshed, "Epic balance refresh: "@ + reason@),
        failed_in(not_scanned, reason@),
        failed_in(not_refreshed_again, "Epic balance refresh: "@ + reason@),
        failed_in(not_listed, "Epic transaction refresh: "@ + reason@),
{
}

/// The blocks that a report speaks of are those that its outputs came with,
/// block zero left out, and those that confirm its transactions.
pub proof fn spoken_blocks_are_of_outputs_and_transactions(
    history: Vec<Output>,
    txs: Vec<TxEntry>,
    res: HashSet<u64>,
    height: u64,
)
    requires
        call_ensures(spoken_heights, (&history, &txs), res),
    ensures
        res@.contains(height) <==> {
            ||| height != 0 && exists|i: int|
                0 <= i < history@.len() && (#[trigger] history@[i]).height == height
            ||| exists|i: int|
                0 <= i < txs@.len() && (#[trigger] txs@[i]).confirmation_height == Some(height)
        },
{
    assert(came_with(history@, height) <==> exists|i: int|
        0 <= i < history@.len() && (#[trigger] history@[i]).height == height);
    assert(confirmed_in(txs@, height) <==> exists|i: int|
        0 <= i < txs@.len() && (#[trigger] txs@[i]).confirmation_height == Some(height));
}

/// The last block is not before any of these, and is one of them.
pub proof fn last_block_is_one_of_them(heights: HashSet<u64>, last: u64, res: u64, height: u64)
    requires
        call_ensures(effective_height, (&heights, last), res),
    ensures
        last <= res,
        heights@.contains(height) ==> height <= res,
        res == last || heights@.contains(res),
{
}

/// Outputs are retrieved at the last block that the wallet, an output or a
/// transaction speaks of.
pub proof fn outputs_are_retrieved_at_the_last_block(
    history: Vec<Output>,
    txs: Vec<TxEntry>,
    info: Summary,
    res: u64,
    i: int,
    j: int,
)
    requires
        call_ensures(retrieval_height, (&history, &txs, &info), res),
    ensures
        info.last_confirmed_height <= res,
        0 <= i < history@.len() ==> history@[i].height <= res,
        0 <= j < txs@.len() ==> (txs@[j].confirmation_height matches Some(at) ==> at <= res),
        res == info.last_confirmed_height || (exists|k: int|
            0 <= k < history@.len() && (#[trigger] history@[k]).height == res) || (exists|k: int|
            0 <= k < txs@.len() && (#[trigger] txs@[k]).confirmation_height == Some(res)),
{
    let spoken = spoken_of(history@, txs@);
    if 0 <= i < history@.len() && history@[i].height > 0 {
        assert(came_with(history@, history@[i].height));
        assert(spoken.contains(history@[i].height));
    }
    if 0 <= j < txs@.len() {
        if let Some(at) = txs@[j].confirmation_height {
            assert(confirmed_in(txs@, at));
            assert(spoken.contains(at));
        }
    }
    if res != info.last_confirmed_height {
        assert(spoken.contains(res));
    }
}

/// The balance and what of it can be spent are what the outputs add up to;
/// where the outputs could not be had, they are what the wallet says of itself,
/// less what is locked.
pub proof fn balances_are_of_the_outputs(
    totals: Option<(u64, u64)>,
    info: Summary,
    res: (u64, u64),
)
    requires
        call_ensures(balances, (totals, &info), res),
    ensures
        totals matches Some(sums) ==> res == sums,
        totals is None ==> {
            &&& info.amount_locked <= info.total ==> res.0 + info.amount_locked == info.total
            &&& info.amount_locked > info.total ==> res.0 == 0
            &&& res.1 == info.amount_currently_spendable
        },
{
}

/// The figures of a report are the balances by its outputs and the last block
/// that the wallet has scanned.
pub proof fn figures_are_the_balances(
    info: Summary,
    outputs: Vec<Output>,
    sums: (u64, u64),
    own: (u64, u64),
    counted: (u64, u64, u64),
    not_counted: (u64, u64, u64),
)
    requires
        call_ensures(output_totals, (&outputs,), sums),
        call_ensures(balances, (None, &info), own),
        call_ensures(report_figures, (&info, &Some(outputs)), counted),
        call_ensures(report_figures, (&info, &None), not_counted),
    ensures
        counted == (sums.0, sums.1, info.last_confirmed_height),
        not_counted == (own.0, own.1, info.last_confirmed_height),
{
}

/// The amounts that a report writes are its balances, then those of its
/// transactions, then those of the outputs that rows can be made of.
pub proof fn report_writes_all_of_its_amounts(
    report: Report,
    res: Vec<u64>,
    figures: (u64, u64, u64),
    moved: Vec<u64>,
    values: Vec<u64>,
)
    requires
        call_ensures(Report::amounts, (&report,), res),
        call_ensures(report_figures, (&report.info, &report.current), figures),
        call_ensures(amounts_of_transactions, (&report.txs,), moved),
        call_ensures(amounts_of_outputs, (&report.restorable,), values),
    ensures
        res@ == seq![figures.0, figures.1] + moved@ + values@,
{
}

/// The blocks whose times a report shows are those that it speaks of.
pub proof fn report_shows_the_times_of_spoken_blocks(
    report: Report,
    res: HashSet<u64>,
    spoken: HashSet<u64>,
)
    requires
        call_ensures(Report::block_heights, (&report,), res),
        call_ensures(spoken_heights, (&report.history, &report.txs), spoken),
    ensures
        res@ == spoken@,
{
}

/// The keys of a report are different.
proof fn lemma_report_keys()
    ensures
        "code"@.len() == 4,
        "updatedFromNode"@.len() == 15,
        "updated_from_node"@.len() == 17,
        "address"@.len() == 7,
        "balance"@.len() == 7,
        "spendable"@.len() == 9,
        "lastScannedHeight"@.len() == 17,
        "last_scanned_height"@.len() == 19,
        "transactions"@.len() == 12,
        "ok"@.len() == 2,
        "updated_from_node"@ != "lastScannedHeight"@,
        "address"@ != "balance"@,
{
    reveal_strlit("code");
    reveal_strlit("updatedFromNode");
    reveal_strlit("updated_from_node");
    reveal_strlit("address");
    reveal_strlit("balance");
    reveal_strlit("spendable");
    reveal_strlit("lastScannedHeight");
    reveal_strlit("last_scanned_height");
    reveal_strlit("transactions");
    reveal_strlit("ok");
    assert("updated_from_node"@[0] != "lastScannedHeight"@[0]);
    assert("address"@[0] != "balance"@[0]);
}

/// A report shows whether the node was heard, the address of the wallet, the
/// last block that it has scanned, and the balances as they are written.
pub proof fn report_shows_the_figures(
    report: Report,
    block_times: HashMap<u64, BlockTime>,
    written: AmountTexts,
    figures: (u64, u64, u64),
    res: Value,
    reply: String,
)
    requires
        call_ensures(report_figures, (&report.info, &report.current), figures),
        call_ensures(Report::payload, (&report, block_times, &written), res),
        call_ensures(Report::reply, (&report, block_times, &written), reply),
    ensures
        shows(res, "code"@, Json::Text("epic-native-wallet"@)),
        shows(res, "updatedFromNode"@, Json::Bool(report.updated)),
        shows(res, "updated_from_node"@, Json::Bool(report.updated)),
        shows(res, "address"@, Json::Text(report.address@)),
        shows(res, "balance"@, Json::Text(written@[figures.0]@)),
        shows(res, "spendable"@, Json::Text(written@[figures.1]@)),
        shows(res, "lastScannedHeight"@, Json::Integer(figures.2 as int)),
        shows(res, "last_scanned_height"@, Json::Integer(figures.2 as int)),
        says(reply@, "ok"@, Json::Bool(true)),
        forall|key: Seq<char>|
            key != "ok"@ ==> #[trigger] member(json(res), key) == member(
                json_parsed(reply@)->Ok_0,
                key,
            ),
{
    lemma_report_keys();
}

/// The transactions of a report are the rows of its log, by the outputs with
/// those that are gone and by the history, and then the rows of the outputs
/// that were retrieved last and that the log does not account for.
pub proof fn report_shows_the_log_and_the_rest(
    report: Report,
    block_times: HashMap<u64, BlockTime>,
    written: AmountTexts,
    used_up: (HashMap<u32, bool>, StringHashSet),
    found: (HashMap<u32, Vec<String>>, HashSet<u64>),
    records: Records,
    logged: Vec<Value>,
    represented: HashSet<u32>,
    address: &str,
    rest: Vec<Value>,
    res: Value,
)
    requires
        call_ensures(spent_outputs_by_tx, (&report.with_spent,), used_up),
        call_ensures(output_commits_and_heights_by_tx, (&report.history,), found),
        records.spent_by_tx == used_up.0,
        records.spent_commits == used_up.1,
        records.commits_by_tx == found.0,
        records.block_times == block_times,
        records.address@ == report.address@,
        records.tip_height == report.info.last_confirmed_height,
        call_ensures(logged_transactions, (&report.txs, &records, &written), logged),
        call_ensures(represented_tx_ids, (&report.txs,), represented),
        address@ == report.address@,
        call_ensures(
            restored_output_transactions,
            (
                &report.restorable,
                &represented,
                address,
                report.info.last_confirmed_height,
                &block_times,
                &written,
            ),
            rest,
        ),
        call_ensures(Report::payload, (&report, block_times, &written), res),
    ensures
        shows(res, "transactions"@, Json::Array(documents(logged@) + documents(rest@))),
{
    lemma_report_keys();
    assert(records_of(records, report.with_spent@, report.history@)) by {
        assert forall|id: u32| #[trigger]
            records.spent_by_tx@.contains_key(id) <==> has_outputs(report.with_spent@, id) by {
            assert(used_up.0@.contains_key(id) <==> has_outputs(report.with_spent@, id));
        }
        assert forall|id: u32| #[trigger]
            records.commits_by_tx@.contains_key(id) <==> commits_of(report.history@, id).len()
                > 0 by {
            assert(found.0@.contains_key(id) <==> commits_of(report.history@, id).len() > 0);
        }
    }
    assert forall|tx: TxEntry| #[trigger]
        transaction_document(tx, records, written@) == reported_document(
            report,
            tx,
            block_times@,
            written@,
        ) by {
        records_follow_the_outputs(tx, records, report.with_spent@, report.history@);
    }
    assert(logged_documents(report.txs@, records, written@) =~= report.txs@.map_values(
        |tx: TxEntry| reported_document(report, tx, block_times@, written@),
    ));
}

/// The blocks that confirm transactions are added to the blocks that are there.
pub proof fn confirming_blocks_are_added(
    heights: &mut HashSet<u64>,
    txs: Vec<TxEntry>,
    height: u64,
)
    requires
        call_ensures(add_confirmation_heights, (heights, &txs), ()),
    ensures
        final(heights)@.contains(height) <==> old(heights)@.contains(height) || exists|i: int|
            0 <= i < txs@.len() && (#[trigger] txs@[i]).confirmation_height == Some(height),
{
    assert(confirmed_in(txs@, height) <==> exists|i: int|
        0 <= i < txs@.len() && (#[trigger] txs@[i]).confirmation_height == Some(height));
}

} // verus!
