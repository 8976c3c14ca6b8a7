//! A report on the whole wallet: which steps it takes, and what is in it.

use std::collections::{HashMap, HashSet};

use serde_json::Value;
use vstd::prelude::*;

use crate::block_times::{listed_heights, BlockTime};
use crate::history::{
    amounts_of_outputs, amounts_of_transactions, covers, documents, ids, lemma_covers_parts,
    lemma_restored_flat, lemma_row_flat, logged_documents, logged_transactions, output_amounts,
    output_commit_of, outputs_spent_again, records_follow_the_outputs, records_of,
    represented_tx_ids, restored_documents, restored_output_transactions, row_document,
    transaction_document, tx_amounts, tx_time, word, wording, AmountTexts, Records, TxEntry,
};
use crate::json::{self, flat, json, lemma_tabular, Json};
use crate::outputs::{
    balance, capped, heights_of, output_commits_and_heights_by_tx, output_totals, spendable,
    spent_outputs_by_tx, Output,
};
use crate::request::{ok, ok_document, replies};
use crate::text::join;

verus! {

/// What the wallet says of itself in short.
#[derive(Copy, Clone)]
pub struct Summary {
    pub last_confirmed_height: u64,
    pub total: u64,
    pub amount_locked: u64,
    pub amount_currently_spendable: u64,
}

/// How far a report has come.
pub enum Snapshot {
    /// The wallet is being opened.
    Opening,
    /// The address is being asked for.
    Addressing,
    /// The wallet is being restored.
    Restoring { address: String },
    /// The wallet is being brought up to date.
    Refreshing { address: String },
    /// The last blocks are being scanned.
    Rescanning { address: String, updated: bool, info: Summary },
    /// The wallet is being brought up to date after that.
    RefreshingAgain { address: String, updated: bool },
    /// The transactions are being listed.
    Listing { address: String, updated: bool, info: Summary },
    /// The outputs of the past are being retrieved.
    Gathering { address: String, updated: bool, info: Summary, txs: Vec<TxEntry> },
    /// The outputs of the present are being retrieved.
    Totalling {
        address: String,
        updated: bool,
        info: Summary,
        txs: Vec<TxEntry>,
        with_spent: Vec<Output>,
        history: Vec<Output>,
    },
    /// The outputs of the past are being retrieved once more.
    Collecting {
        address: String,
        updated: bool,
        info: Summary,
        txs: Vec<TxEntry>,
        with_spent: Vec<Output>,
        history: Vec<Output>,
        current: Option<Vec<Output>>,
    },
    /// All that the report needs is there, or it has failed.
    Finished,
}

/// All that a report on a wallet is made of.
pub struct Report {
    /// The address of the wallet.
    pub address: String,
    /// Whether the node was heard.
    pub updated: bool,
    /// What the wallet says of itself.
    pub info: Summary,
    /// The log.
    pub txs: Vec<TxEntry>,
    /// The outputs, those that are gone among them.
    pub with_spent: Vec<Output>,
    /// The outputs of the whole history.
    pub history: Vec<Output>,
    /// The outputs that are there, where they could be had.
    pub current: Option<Vec<Output>>,
    /// The outputs of the whole history as they were retrieved last, for those
    /// that the log does not account for.
    pub restorable: Vec<Output>,
}

/// What happened to a report outside.
pub enum SnapshotEvent {
    /// The wallet was opened, or the failure.
    Opened(Result<(), String>),
    /// The address, or the failure.
    Addressed(Result<String, String>),
    /// The wallet was restored, or the failure.
    Restored(Result<(), String>),
    /// Whether the node was heard, and what the wallet says of itself, or the reason why not.
    Refreshed(Result<(bool, Summary), String>),
    /// Whether the last blocks were scanned, or the failure.
    Rescanned(Result<bool, String>),
    /// The transactions, or the reason why they could not be listed.
    Listed(Result<Vec<TxEntry>, String>),
    /// The outputs with those that are gone, and those of the whole history;
    /// none where they could not be had.
    Gathered { with_spent: Vec<Output>, history: Vec<Output> },
    /// The outputs that are there, where they could be had.
    Retrieved(Option<Vec<Output>>),
    /// The outputs of the whole history once more; none where they could not be had.
    Collected(Vec<Output>),
}

/// What is to be done for a report.
pub enum SnapshotAction {
    /// Ask for the address.
    Address,
    /// Restore the wallet where it has not been.
    Restore,
    /// Bring the wallet up to date with the node.
    Refresh,
    /// Scan the blocks before this one where they have not been.
    Rescan { tip_height: u64 },
    /// List the transactions.
    List,
    /// Retrieve the outputs with those that are gone, and those of the whole history.
    Gather,
    /// Retrieve the outputs that are there, as they can be spent at this block.
    Retrieve { height: u64 },
    /// Retrieve the outputs of the whole history once more.
    Collect,
    /// Report.
    Report(Report),
    /// Give up.
    Fail(String),
}

/// Whether `event` can happen to a report that has come this far.
pub open spec fn awaits(stage: Snapshot, event: SnapshotEvent) -> bool {
    match event {
        SnapshotEvent::Opened(_) => stage is Opening,
        SnapshotEvent::Addressed(_) => stage is Addressing,
        SnapshotEvent::Restored(_) => stage is Restoring,
        SnapshotEvent::Refreshed(_) => stage is Refreshing || stage is RefreshingAgain,
        SnapshotEvent::Rescanned(_) => stage is Rescanning,
        SnapshotEvent::Listed(_) => stage is Listing,
        SnapshotEvent::Gathered { .. } => stage is Gathering,
        SnapshotEvent::Retrieved(_) => stage is Totalling,
        SnapshotEvent::Collected(_) => stage is Collecting,
    }
}

/// Whether a report has failed in these words.
pub open spec fn failed(res: (Snapshot, SnapshotAction), words: Seq<char>) -> bool {
    &&& res.0 is Finished
    &&& res.1 matches SnapshotAction::Fail(message) && message@ == words
}

/// Whether `res` is where a report stands after `event`, and what is to be done then.
pub open spec fn follows(
    stage: Snapshot,
    event: SnapshotEvent,
    res: (Snapshot, SnapshotAction),
) -> bool {
    match (stage, event) {
        (_, SnapshotEvent::Opened(Ok(_))) => res == (Snapshot::Addressing, SnapshotAction::Address),
        (_, SnapshotEvent::Opened(Err(message))) => failed(res, message@),
        (_, SnapshotEvent::Addressed(Ok(address))) => res == (
            Snapshot::Restoring { address },
            SnapshotAction::Restore,
        ),
        (_, SnapshotEvent::Addressed(Err(message))) => failed(res, message@),
        (Snapshot::Restoring { address }, SnapshotEvent::Restored(Ok(_))) => res == (
            Snapshot::Refreshing { address },
            SnapshotAction::Refresh,
        ),
        (_, SnapshotEvent::Restored(Err(message))) => failed(res, message@),
        (Snapshot::Refreshing { address }, SnapshotEvent::Refreshed(Ok((updated, info)))) => res
            == (
            Snapshot::Rescanning { address, updated, info },
            SnapshotAction::Rescan { tip_height: info.last_confirmed_height },
        ),
        (
            Snapshot::RefreshingAgain { address, updated },
            SnapshotEvent::Refreshed(Ok((again, info))),
        ) => res == (
            Snapshot::Listing { address, updated: updated || again, info },
            SnapshotAction::List,
        ),
        (_, SnapshotEvent::Refreshed(Err(reason))) => failed(
            res,
            "Epic balance refresh: "@ + reason@,
        ),
        (
            Snapshot::Rescanning { address, updated, info },
            SnapshotEvent::Rescanned(Ok(scanned)),
        ) => if scanned {
            res == (Snapshot::RefreshingAgain { address, updated }, SnapshotAction::Refresh)
        } else {
            res == (Snapshot::Listing { address, updated, info }, SnapshotAction::List)
        },
        (_, SnapshotEvent::Rescanned(Err(message))) => failed(res, message@),
        (Snapshot::Listing { address, updated, info }, SnapshotEvent::Listed(Ok(txs))) => res == (
            Snapshot::Gathering { address, updated, info, txs },
            SnapshotAction::Gather,
        ),
        (
            Snapshot::Gathering { address, updated, info, txs },
            SnapshotEvent::Gathered { with_spent, history },
        ) => {
            &&& res.0 == (Snapshot::Totalling { address, updated, info, txs, with_spent, history })
            &&& res.1 matches SnapshotAction::Retrieve { height } && is_top(
                spoken_of(history@, txs@),
                info.last_confirmed_height,
                height,
            )
        },
        (
            Snapshot::Totalling { address, updated, info, txs, with_spent, history },
            SnapshotEvent::Retrieved(current),
        ) => res == (
            Snapshot::Collecting { address, updated, info, txs, with_spent, history, current },
            SnapshotAction::Collect,
        ),
        (
            Snapshot::Collecting { address, updated, info, txs, with_spent, history, current },
            SnapshotEvent::Collected(restorable),
        ) => res == (
            Snapshot::Finished,
            SnapshotAction::Report(
                Report { address, updated, info, txs, with_spent, history, current, restorable },
            ),
        ),
        (_, SnapshotEvent::Listed(Err(reason))) => failed(
            res,
            "Epic transaction refresh: "@ + reason@,
        ),
        _ => true,
    }
}

fn fail(message: String) -> (res: (Snapshot, SnapshotAction))
    ensures
        failed(res, message@),
{
    (Snapshot::Finished, SnapshotAction::Fail(message))
}

/// Takes in what happened to a report and says what is to be done. The wallet
/// is brought up to date a second time if the last blocks were scanned.
pub fn snapshot(stage: Snapshot, event: SnapshotEvent) -> (res: (Snapshot, SnapshotAction))
    requires
        awaits(stage, event),
    ensures
        follows(stage, event, res),
{
    match (stage, event) {
        (_, SnapshotEvent::Opened(Ok(()))) => (Snapshot::Addressing, SnapshotAction::Address),
        (_, SnapshotEvent::Addressed(Ok(address))) => (
            Snapshot::Restoring { address },
            SnapshotAction::Restore,
        ),
        (Snapshot::Restoring { address }, SnapshotEvent::Restored(Ok(()))) => (
            Snapshot::Refreshing { address },
            SnapshotAction::Refresh,
        ),
        (Snapshot::Refreshing { address }, SnapshotEvent::Refreshed(Ok((updated, info)))) => (
            Snapshot::Rescanning { address, updated, info },
            SnapshotAction::Rescan { tip_height: info.last_confirmed_height },
        ),
        (
            Snapshot::RefreshingAgain { address, updated },
            SnapshotEvent::Refreshed(Ok((again, info))),
        ) => (
            Snapshot::Listing { address, updated: updated || again, info },
            SnapshotAction::List,
        ),
        (
            Snapshot::Rescanning { address, updated, info },
            SnapshotEvent::Rescanned(Ok(scanned)),
        ) => if scanned {
            (Snapshot::RefreshingAgain { address, updated }, SnapshotAction::Refresh)
        } else {
            (Snapshot::Listing { address, updated, info }, SnapshotAction::List)
        },
        (Snapshot::Listing { address, updated, info }, SnapshotEvent::Listed(Ok(txs))) => (
            Snapshot::Gathering { address, updated, info, txs },
            SnapshotAction::Gather,
        ),
        (
            Snapshot::Gathering { address, updated, info, txs },
            SnapshotEvent::Gathered { with_spent, history },
        ) => {
            let height = retrieval_height(&history, &txs, &info);
            (
                Snapshot::Totalling { address, updated, info, txs, with_spent, history },
                SnapshotAction::Retrieve { height },
            )
        },
        (
            Snapshot::Totalling { address, updated, info, txs, with_spent, history },
            SnapshotEvent::Retrieved(current),
        ) => (
            Snapshot::Collecting { address, updated, info, txs, with_spent, history, current },
            SnapshotAction::Collect,
        ),
        (
            Snapshot::Collecting { address, updated, info, txs, with_spent, history, current },
            SnapshotEvent::Collected(restorable),
        ) => (
            Snapshot::Finished,
            SnapshotAction::Report(
                Report { address, updated, info, txs, with_spent, history, current, restorable },
            ),
        ),
        (_, SnapshotEvent::Opened(Err(message))) => fail(message),
        (_, SnapshotEvent::Addressed(Err(message))) => fail(message),
        (_, SnapshotEvent::Restored(Err(message))) => fail(message),
        (_, SnapshotEvent::Rescanned(Err(message))) => fail(message),
        (_, SnapshotEvent::Refreshed(Err(reason))) => fail(
            join("Epic balance refresh: ", reason.as_str()),
        ),
        (_, SnapshotEvent::Listed(Err(reason))) => fail(
            join("Epic transaction refresh: ", reason.as_str()),
        ),
        // No other event is awaited.
        (other, _) => (other, SnapshotAction::List),
    }
}

/// Whether the block at `height` confirms any of these transactions.
pub open spec fn confirmed_in(txs: Seq<TxEntry>, height: u64) -> bool {
    exists|i: int| 0 <= i < txs.len() && (#[trigger] txs[i]).confirmation_height == Some(height)
}

/// The blocks that confirm these transactions.
pub open spec fn confirming(txs: Seq<TxEntry>) -> Set<u64> {
    Set::new(|height: u64| confirmed_in(txs, height))
}

/// Adds the blocks that confirm these transactions.
pub fn add_confirmation_heights(heights: &mut HashSet<u64>, txs: &Vec<TxEntry>)
    ensures
        forall|height: u64| #[trigger]
            final(heights)@.contains(height) <==> old(heights)@.contains(height) || confirmed_in(
                txs@,
                height,
            ),
        final(heights)@ == old(heights)@.union(confirming(txs@)),
{
    let ghost before = heights@;
    let mut i: usize = 0;
    while i < txs.len()
        invariant
            i <= txs@.len(),
            forall|height: u64| #[trigger]
                heights@.contains(height) <==> before.contains(height) || confirmed_in(
                    txs@.take(i as int),
                    height,
                ),
        decreases txs@.len() - i,
    {
        let ghost earlier = txs@.take(i as int);
        let ghost later = txs@.take(i + 1);
        assert forall|height: u64| #[trigger]
            confirmed_in(later, height) <==> confirmed_in(earlier, height)
                || txs@[i as int].confirmation_height == Some(height) by {
            if confirmed_in(earlier, height) {
                let j = choose|j: int|
                    0 <= j < earlier.len() && (#[trigger] earlier[j]).confirmation_height == Some(
                        height,
                    );
                assert(later[j].confirmation_height == Some(height));
            }
            if confirmed_in(later, height) {
                let j = choose|j: int|
                    0 <= j < later.len() && (#[trigger] later[j]).confirmation_height == Some(
                        height,
                    );
                if j < i {
                    assert(earlier[j].confirmation_height == Some(height));
                }
            }
            assert(later[i as int] == txs@[i as int]);
        }
        if let Some(height) = txs[i].confirmation_height {
            let _ = heights.insert(height);
        }
        i = i + 1;
    }
    assert(txs@.take(txs@.len() as int) =~= txs@);
    assert(heights@ =~= before.union(confirming(txs@)));
}

/// Whether `top` is the last of these blocks and of `last`.
pub open spec fn is_top(heights: Set<u64>, last: u64, top: u64) -> bool {
    &&& last <= top
    &&& forall|height: u64| #[trigger] heights.contains(height) ==> height <= top
    &&& top == last || heights.contains(top)
}

/// The last block that the wallet or any of its outputs and transactions speaks of.
pub fn effective_height(heights: &HashSet<u64>, last_confirmed_height: u64) -> (res: u64)
    ensures
        is_top(heights@, last_confirmed_height, res),
{
    let listed = listed_heights(heights);
    let mut top = last_confirmed_height;
    for i in 0..listed.len()
        invariant
            listed@.to_set() == heights@,
            last_confirmed_height <= top,
            forall|j: int| 0 <= j < i ==> #[trigger] listed@[j] <= top,
            top == last_confirmed_height || heights@.contains(top),
    {
        assert(listed@.to_set().contains(listed@[i as int]));
        if listed[i] > top {
            top = listed[i];
        }
    }
    assert forall|height: u64| #[trigger] heights@.contains(height) implies height <= top by {
        assert(listed@.to_set().contains(height));
    }
    top
}

/// The blocks that the outputs came with and that confirm the transactions.
pub open spec fn spoken_of(history: Seq<Output>, txs: Seq<TxEntry>) -> Set<u64> {
    Set::new(|height: u64| heights_of(history).contains(height) || confirmed_in(txs, height))
}

/// The blocks that the outputs came with and that confirm the transactions.
pub fn spoken_heights(history: &Vec<Output>, txs: &Vec<TxEntry>) -> (res: HashSet<u64>)
    ensures
        res@ == spoken_of(history@, txs@),
{
    let (_, mut heights) = output_commits_and_heights_by_tx(history);
    add_confirmation_heights(&mut heights, txs);
    assert(heights@ =~= spoken_of(history@, txs@));
    heights
}

/// The block at which the outputs are asked whether they can be spent: the
/// last that the wallet or any of its outputs and transactions speaks of.
pub fn retrieval_height(history: &Vec<Output>, txs: &Vec<TxEntry>, info: &Summary) -> (res: u64)
    ensures
        is_top(spoken_of(history@, txs@), info.last_confirmed_height, res),
{
    effective_height(&spoken_heights(history, txs), info.last_confirmed_height)
}

/// There is one last block only.
pub proof fn top_is_unique(heights: Set<u64>, last: u64, one: u64, two: u64)
    requires
        is_top(heights, last, one),
        is_top(heights, last, two),
    ensures
        one == two,
{
}

/// The balance and what of it can be spent: what the outputs add up to, or
/// what the wallet says of itself where they could not be had.
pub open spec fn balances_of(totals: Option<(u64, u64)>, info: Summary) -> (u64, u64) {
    match totals {
        Some(sums) => sums,
        None => (
            if info.total < info.amount_locked {
                0
            } else {
                (info.total - info.amount_locked) as u64
            },
            info.amount_currently_spendable,
        ),
    }
}

/// The balance and what of it can be spent.
pub fn balances(totals: Option<(u64, u64)>, info: &Summary) -> (res: (u64, u64))
    ensures
        res == balances_of(totals, *info),
{
    match totals {
        Some(sums) => sums,
        None => (info.total.saturating_sub(info.amount_locked), info.amount_currently_spendable),
    }
}

/// What these outputs add up to, where they could be had.
pub open spec fn totals_of(current: Option<Vec<Output>>) -> Option<(u64, u64)> {
    match current {
        Some(outputs) => Some((capped(balance(outputs@)), capped(spendable(outputs@)))),
        None => None,
    }
}

/// The figures of a report: the balance, what of it can be spent, and the last
/// block that the wallet has scanned.
pub open spec fn figures_of(info: Summary, current: Option<Vec<Output>>) -> (u64, u64, u64) {
    let sums = balances_of(totals_of(current), info);
    (sums.0, sums.1, info.last_confirmed_height)
}

/// The figures of a report: the balance, what of it can be spent, and the last
/// block that the wallet has scanned.
pub fn report_figures(info: &Summary, current: &Option<Vec<Output>>) -> (res: (u64, u64, u64))
    ensures
        res == figures_of(*info, *current),
{
    let totals = match current {
        Some(outputs) => Some(output_totals(outputs)),
        None => None,
    };
    let (total, can_spend) = balances(totals, info);
    (total, can_spend, info.last_confirmed_height)
}

/// The report on a wallet with these transactions.
pub open spec fn snapshot_document(
    updated: bool,
    address: Seq<char>,
    balance: Seq<char>,
    spendable: Seq<char>,
    last_height: u64,
    transactions: Seq<Json>,
) -> Json {
    Json::Object(
        map![
            "code"@ => Json::Text("epic-native-wallet"@),
            "updatedFromNode"@ => Json::Bool(updated),
            "updated_from_node"@ => Json::Bool(updated),
            "address"@ => Json::Text(address),
            "balance"@ => Json::Text(balance),
            "spendable"@ => Json::Text(spendable),
            "lastScannedHeight"@ => Json::Integer(last_height as int),
            "last_scanned_height"@ => Json::Integer(last_height as int),
            "transactions"@ => Json::Array(transactions),
        ],
    )
}

/// The report of a transaction in the log, by the outputs of the wallet.
pub open spec fn reported_document(
    report: Report,
    tx: TxEntry,
    block_times: Map<u64, BlockTime>,
    written: Map<u64, String>,
) -> Json {
    row_document(
        tx,
        output_commit_of(report.history@, tx.id),
        outputs_spent_again(tx, report.with_spent@, report.history@),
        tx_time(tx, block_times),
        report.address@,
        report.info.last_confirmed_height,
        written,
    )
}

/// The reports of all transactions: those in the log, then those of the
/// outputs that the log does not account for.
pub open spec fn reported_documents(
    report: Report,
    block_times: Map<u64, BlockTime>,
    written: Map<u64, String>,
) -> Seq<Json> {
    report.txs@.map_values(|tx: TxEntry| reported_document(report, tx, block_times, written))
        + restored_documents(
        report.restorable@,
        ids(report.txs@),
        report.address@,
        report.info.last_confirmed_height,
        block_times,
        written,
    )
}

/// What is reported of a wallet: `block_times` is when blocks were made, and
/// `written` how amounts are written.
pub open spec fn report_document(
    report: Report,
    block_times: Map<u64, BlockTime>,
    written: Map<u64, String>,
) -> Json {
    let figures = figures_of(report.info, report.current);
    snapshot_document(
        report.updated,
        report.address@,
        wording(written, figures.0),
        wording(written, figures.1),
        figures.2,
        reported_documents(report, block_times, written),
    )
}

/// The amounts that a report writes, in units: the balance, what of it can be
/// spent, those of the transactions and those of the outputs.
pub open spec fn report_amounts(report: Report) -> Seq<u64> {
    let figures = figures_of(report.info, report.current);
    seq![figures.0, figures.1] + tx_amounts(report.txs@) + output_amounts(report.restorable@)
}

impl Report {
    /// The blocks whose times the report shows.
    pub fn block_heights(&self) -> (res: HashSet<u64>)
        ensures
            res@ == spoken_of(self.history@, self.txs@),
    {
        spoken_heights(&self.history, &self.txs)
    }

    /// The amounts that the report writes, in units.
    pub fn amounts(&self) -> (res: Vec<u64>)
        ensures
            res@ == report_amounts(*self),
    {
        let (total, can_spend, _) = report_figures(&self.info, &self.current);
        let mut amounts: Vec<u64> = Vec::new();
        amounts.push(total);
        amounts.push(can_spend);
        let mut of_transactions = amounts_of_transactions(&self.txs);
        let mut of_outputs = amounts_of_outputs(&self.restorable);
        amounts.append(&mut of_transactions);
        amounts.append(&mut of_outputs);
        assert(amounts@ =~= report_amounts(*self));
        amounts
    }

    /// The records of the wallet that the report is on.
    fn records(&self, block_times: HashMap<u64, BlockTime>) -> (res: Records)
        ensures
            records_of(res, self.with_spent@, self.history@),
            res.block_times == block_times,
            res.address@ == self.address@,
            res.tip_height == self.info.last_confirmed_height,
    {
        let (spent_by_tx, spent_commits) = spent_outputs_by_tx(&self.with_spent);
        let (commits_by_tx, _) = output_commits_and_heights_by_tx(&self.history);
        Records {
            spent_by_tx,
            spent_commits,
            commits_by_tx,
            block_times,
            address: self.address.clone(),
            tip_height: self.info.last_confirmed_height,
        }
    }

    /// The reports of all transactions.
    fn transactions(&self, block_times: HashMap<u64, BlockTime>, written: &AmountTexts) -> (res: Vec<
        Value,
    >)
        requires
            covers(written@, report_amounts(*self)),
        ensures
            documents(res@) == reported_documents(*self, block_times@, written@),
    {
        let records = self.records(block_times);
        proof {
            let figures = figures_of(self.info, self.current);
            let first = seq![figures.0, figures.1] + tx_amounts(self.txs@);
            lemma_covers_parts(written@, first, output_amounts(self.restorable@));
            lemma_covers_parts(written@, seq![figures.0, figures.1], tx_amounts(self.txs@));
            assert forall|tx: TxEntry| #[trigger]
                transaction_document(tx, records, written@) == reported_document(
                    *self,
                    tx,
                    block_times@,
                    written@,
                ) by {
                records_follow_the_outputs(tx, records, self.with_spent@, self.history@);
            }
            assert(logged_documents(self.txs@, records, written@) =~= self.txs@.map_values(
                |tx: TxEntry| reported_document(*self, tx, block_times@, written@),
            ));
        }
        let mut rows = logged_transactions(&self.txs, &records, written);
        let represented = represented_tx_ids(&self.txs);
        let mut restored = restored_output_transactions(
            &self.restorable,
            &represented,
            records.address.as_str(),
            records.tip_height,
            &records.block_times,
            written,
        );
        let ghost first = rows@;
        let ghost second = restored@;
        rows.append(&mut restored);
        assert(documents(rows@) =~= documents(first) + documents(second));
        rows
    }

    /// What is reported of the wallet: `block_times` is when blocks were made,
    /// and `written` how the amounts are written.
    pub fn payload(&self, block_times: HashMap<u64, BlockTime>, written: &AmountTexts) -> (res:
        Value)
        requires
            covers(written@, report_amounts(*self)),
        ensures
            json(res) == report_document(*self, block_times@, written@),
    {
        let (total, can_spend, last_height) = report_figures(&self.info, &self.current);
        assert(report_amounts(*self)[0] == total && report_amounts(*self)[1] == can_spend);
        let mut payload = json::null();
        json::set(&mut payload, "code", json::string("epic-native-wallet"));
        json::set(&mut payload, "updatedFromNode", json::boolean(self.updated));
        json::set(&mut payload, "updated_from_node", json::boolean(self.updated));
        json::set(&mut payload, "address", json::string(self.address.as_str()));
        json::set(&mut payload, "balance", json::string(word(written, total).as_str()));
        json::set(&mut payload, "spendable", json::string(word(written, can_spend).as_str()));
        json::set(&mut payload, "lastScannedHeight", json::unsigned(last_height));
        json::set(&mut payload, "last_scanned_height", json::unsigned(last_height));
        let rows = json::array(self.transactions(block_times, written));
        json::set(&mut payload, "transactions", rows);
        payload
    }

    /// The reply that reports on the wallet.
    pub fn reply(&self, block_times: HashMap<u64, BlockTime>, written: &AmountTexts) -> (res:
        String)
        requires
            covers(written@, report_amounts(*self)),
        ensures
            replies(res@, ok_document(report_document(*self, block_times@, written@))),
    {
        proof {
            lemma_report_tabular(*self, block_times@, written@);
        }
        ok(self.payload(block_times, written))
    }
}

/// A report holds scalars and a list of flat objects.
proof fn lemma_report_tabular(
    report: Report,
    block_times: Map<u64, BlockTime>,
    written: Map<u64, String>,
)
    ensures
        json::rereadable(ok_document(report_document(report, block_times, written))),
{
    let all = reported_documents(report, block_times, written);
    let logged = report.txs@.map_values(
        |tx: TxEntry| reported_document(report, tx, block_times, written),
    );
    let restored = restored_documents(
        report.restorable@,
        ids(report.txs@),
        report.address@,
        report.info.last_confirmed_height,
        block_times,
        written,
    );
    lemma_restored_flat(
        report.restorable@,
        ids(report.txs@),
        report.address@,
        report.info.last_confirmed_height,
        block_times,
        written,
    );
    assert forall|i: int| 0 <= i < all.len() implies flat(#[trigger] all[i]) by {
        if i < logged.len() {
            let tx = report.txs@[i];
            lemma_row_flat(
                tx,
                output_commit_of(report.history@, tx.id),
                outputs_spent_again(tx, report.with_spent@, report.history@),
                tx_time(tx, block_times),
                report.address@,
                report.info.last_confirmed_height,
                written,
            );
            assert(all[i] == logged[i]);
        } else {
            assert(all[i] == Json::Array(restored)->Array_0[i - logged.len()]);
        }
    }
    assert(json::rows(Json::Array(all)));
    lemma_tabular(ok_document(report_document(report, block_times, written)));
}

/// The balances that are reported are those of the outputs that were asked for
/// at the last block spoken of, or what the wallet says of itself where they
/// could not be had, and the block that is reported is the last that the wallet
/// has scanned, whatever block was spoken of.
pub proof fn figures_are_of_the_last_block(
    gathering: Snapshot,
    with_spent: Vec<Output>,
    history: Vec<Output>,
    asked: (Snapshot, SnapshotAction),
    current: Option<Vec<Output>>,
    retrieved: (Snapshot, SnapshotAction),
    restorable: Vec<Output>,
    done: (Snapshot, SnapshotAction),
)
    requires
        gathering is Gathering,
        follows(gathering, SnapshotEvent::Gathered { with_spent, history }, asked),
        follows(asked.0, SnapshotEvent::Retrieved(current), retrieved),
        follows(retrieved.0, SnapshotEvent::Collected(restorable), done),
    ensures
        asked.1 matches SnapshotAction::Retrieve { height } && is_top(
            spoken_of(history@, gathering->Gathering_txs@),
            gathering->Gathering_info.last_confirmed_height,
            height,
        ),
        done.1 matches SnapshotAction::Report(report) && report.info == gathering->Gathering_info
            && report.txs == gathering->Gathering_txs && report.history == history
            && report.with_spent == with_spent && report.restorable == restorable && figures_of(report.info, report.current)
            == figures_of(gathering->Gathering_info, current),
{
}

} // verus!
