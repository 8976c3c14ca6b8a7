use std::collections::HashMap;

use altbase_epic::history::{
    amounts_of_outputs, amounts_of_transactions, chain_txid_text, confirmation_count,
    is_spent_again, logged_transactions, represented_tx_ids, restored_output_row,
    restored_output_transactions, transaction_row, tx_amount, tx_direction, tx_status, AmountTexts,
    Records, TxEntry, TxLogEntryType,
};
use altbase_epic::outputs::{
    output_commits_and_heights_by_tx, spent_outputs_by_tx, Output, OutputStatus,
};
use serde_json::Value;

fn output(status: OutputStatus, commit: &str, tx_log_entry: Option<u32>) -> Output {
    Output {
        status,
        value: 150_000_000,
        height: 90,
        commit: Some(commit.to_string()),
        commit_bytes: vec![],
        tx_log_entry,
        eligible: true,
    }
}

fn records(outputs: Vec<Output>) -> Records {
    let (spent_by_tx, spent_commits) = spent_outputs_by_tx(&outputs);
    let (commits_by_tx, _heights) = output_commits_and_heights_by_tx(&outputs);
    Records {
        spent_by_tx,
        spent_commits,
        commits_by_tx,
        block_times: HashMap::new(),
        address: "me@epicbox.example".to_string(),
        tip_height: 100,
    }
}

fn entry(id: u32, tx_type: TxLogEntryType) -> TxEntry {
    TxEntry {
        id,
        tx_type,
        confirmed: true,
        confirmation_height: Some(91),
        kernel_excess: None,
        stored_kernel_excess: None,
        slate_id: None,
        creation_timestamp: 5000,
        creation_date: "1970-01-01T00:00:05+00:00".to_string(),
        amount_credited: 150_000_000,
        amount_debited: 0,
        fee: None,
        public_addr: None,
    }
}

fn written() -> AmountTexts {
    [(150_000_000, "1.5"), (149_000_000, "1.49"), (1_000_000, "0.01"), (0, "0")]
        .into_iter()
        .map(|(units, text)| (units, text.to_string()))
        .collect()
}

#[test]
fn types_have_directions() {
    for tx_type in [
        TxLogEntryType::TxReceived,
        TxLogEntryType::TxReceivedMempool,
        TxLogEntryType::ConfirmedCoinbase,
    ] {
        assert_eq!(tx_direction(tx_type), "incoming");
    }
    for tx_type in [
        TxLogEntryType::TxReceivedCancelled,
        TxLogEntryType::TxSent,
        TxLogEntryType::TxSentMempool,
        TxLogEntryType::TxSentCancelled,
        TxLogEntryType::Other,
    ] {
        assert_eq!(tx_direction(tx_type), "outgoing");
    }
}

#[test]
fn types_have_states() {
    assert_eq!(tx_status(TxLogEntryType::TxSentCancelled, true), "confirmed");
    assert_eq!(tx_status(TxLogEntryType::TxSentMempool, false), "mempool");
    assert_eq!(tx_status(TxLogEntryType::TxReceivedMempool, false), "mempool");
    assert_eq!(tx_status(TxLogEntryType::TxSentCancelled, false), "cancelled");
    assert_eq!(tx_status(TxLogEntryType::TxReceivedCancelled, false), "cancelled");
    assert_eq!(tx_status(TxLogEntryType::TxSent, false), "pending");
    assert_eq!(tx_status(TxLogEntryType::ConfirmedCoinbase, false), "pending");
}

#[test]
fn amounts_are_what_is_moved() {
    assert_eq!(tx_amount(TxLogEntryType::TxReceived, 10, 3, Some(1)), 7);
    assert_eq!(tx_amount(TxLogEntryType::TxReceived, 3, 10, None), 0);
    assert_eq!(tx_amount(TxLogEntryType::TxSent, 3, 10, Some(2)), 5);
    assert_eq!(tx_amount(TxLogEntryType::TxSent, 3, 10, None), 7);
    assert_eq!(tx_amount(TxLogEntryType::TxSent, 3, 10, Some(8)), 0);
    assert_eq!(tx_amount(TxLogEntryType::TxSent, 10, 3, Some(1)), 0);
}

#[test]
fn confirmations_are_counted_with_the_own_block() {
    assert_eq!(confirmation_count(false, Some(5), 10), 0);
    assert_eq!(confirmation_count(true, Some(5), 10), 6);
    assert_eq!(confirmation_count(true, Some(10), 10), 1);
    assert_eq!(confirmation_count(true, Some(11), 10), 1);
    assert_eq!(confirmation_count(true, Some(0), 10), 1);
    assert_eq!(confirmation_count(true, None, 10), 1);
    assert_eq!(confirmation_count(true, Some(1), u64::MAX), u64::MAX);
}

#[test]
fn transaction_is_found_by_the_best_that_is_known() {
    let mut tx = entry(4, TxLogEntryType::TxReceived);
    assert_eq!(chain_txid_text(&tx, &None), "epic-local-91-4");
    tx.confirmation_height = None;
    assert_eq!(chain_txid_text(&tx, &None), "epic-local-pending-4");
    tx.slate_id = Some("slate".to_string());
    assert_eq!(chain_txid_text(&tx, &None), "slate");
    let commit = Some("commit".to_string());
    assert_eq!(chain_txid_text(&tx, &commit), "commit");
    tx.stored_kernel_excess = Some(vec![0x0a]);
    assert_eq!(chain_txid_text(&tx, &commit), "0a");
    tx.kernel_excess = Some(vec![0xff]);
    assert_eq!(chain_txid_text(&tx, &commit), "ff");
}

#[test]
fn incoming_transaction_is_reported() {
    let mut records = records(vec![output(OutputStatus::Unspent, "c1", Some(4))]);
    records.block_times.insert(91, (9000, "then".to_string()));
    let mut tx = entry(4, TxLogEntryType::TxReceived);
    tx.slate_id = Some("slate".to_string());
    tx.public_addr = Some("them".to_string());
    let row = transaction_row(&tx, &records, &written());
    assert_eq!(row["id"], "slate");
    assert_eq!(row["txid"], "slate");
    assert_eq!(row["chainTxid"], "c1");
    assert_eq!(row["chain_txid"], "c1");
    assert_eq!(row["slateId"], "slate");
    assert_eq!(row["tx_slate_id"], "slate");
    assert_eq!(row["kernelExcess"], Value::Null);
    assert_eq!(row["kernel_excess"], Value::Null);
    assert_eq!(row["storedKernelExcess"], Value::Null);
    assert_eq!(row["stored_kernel_excess"], Value::Null);
    assert_eq!(row["outputCommit"], "c1");
    assert_eq!(row["output_commit"], "c1");
    assert_eq!(row["type"], "incoming");
    assert_eq!(row["direction"], "incoming");
    assert_eq!(row["status"], "confirmed");
    assert_eq!(row["confirmed"], true);
    assert_eq!(row["confirmations"], 10);
    assert_eq!(row["amount"], "1.5");
    assert_eq!(row["fee"], Value::Null);
    assert_eq!(row["from"], "them");
    assert_eq!(row["to"], "me@epicbox.example");
    assert_eq!(row["timestamp"], 9000);
    assert_eq!(row["date"], "then");
    assert_eq!(row["height"], 91);
    assert_eq!(row["spent"], false);
    assert_eq!(row.as_object().unwrap().len(), 25);
}

#[test]
fn outgoing_transaction_is_reported() {
    let records = records(vec![]);
    let mut tx = entry(4, TxLogEntryType::TxSent);
    tx.confirmed = false;
    tx.confirmation_height = None;
    tx.amount_credited = 0;
    tx.amount_debited = 150_000_000;
    tx.fee = Some(1_000_000);
    tx.kernel_excess = Some(vec![0x01, 0x02]);
    let row = transaction_row(&tx, &records, &written());
    assert_eq!(row["id"], "0102");
    assert_eq!(row["kernelExcess"], "0102");
    assert_eq!(row["status"], "pending");
    assert_eq!(row["confirmations"], 0);
    assert_eq!(row["amount"], "1.49");
    assert_eq!(row["fee"], "0.01");
    assert_eq!(row["from"], "me@epicbox.example");
    assert_eq!(row["to"], Value::Null);
    assert_eq!(row["timestamp"], 5000);
    assert_eq!(row["date"], "1970-01-01T00:00:05+00:00");
    assert_eq!(row["height"], Value::Null);
}

#[test]
fn only_what_came_in_is_spent_again() {
    let gone = records(vec![output(OutputStatus::Spent, "c1", Some(4))]);
    assert!(is_spent_again(&entry(4, TxLogEntryType::TxReceived), &gone));
    assert!(!is_spent_again(&entry(4, TxLogEntryType::TxSent), &gone));
    assert!(!is_spent_again(&entry(5, TxLogEntryType::TxReceived), &gone));
    let same_commit = records(vec![
        output(OutputStatus::Unspent, "c1", Some(4)),
        output(OutputStatus::Deleted, "c1", None),
    ]);
    assert!(is_spent_again(&entry(4, TxLogEntryType::TxReceived), &same_commit));
}

#[test]
fn log_is_reported_in_order() {
    let records = records(vec![]);
    let txs = vec![entry(2, TxLogEntryType::TxSent), entry(1, TxLogEntryType::TxReceived)];
    let rows = logged_transactions(&txs, &records, &written());
    assert_eq!(rows.len(), 2);
    assert_eq!(rows[0]["id"], "epic-local-91-2");
    assert_eq!(rows[1]["id"], "epic-local-91-1");
    let ids = represented_tx_ids(&txs);
    assert!(ids.contains(&1) && ids.contains(&2) && ids.len() == 2);
}

#[test]
fn outputs_outside_the_log_are_reported_by_themselves() {
    let txs = vec![entry(4, TxLogEntryType::TxReceived)];
    let outputs = vec![
        output(OutputStatus::Unspent, "c1", Some(4)),
        output(OutputStatus::Spent, "c2", None),
        output(OutputStatus::Unspent, "c3", Some(5)),
    ];
    let mut times = HashMap::new();
    let ids = represented_tx_ids(&txs);
    let rows = restored_output_transactions(&outputs, &ids, "me", 100, &times, &written());
    assert_eq!(rows.len(), 2);
    assert_eq!(rows[0]["id"], "c2");
    assert_eq!(rows[0]["txid"], "c2");
    assert_eq!(rows[0]["outputCommit"], "c2");
    assert_eq!(rows[0]["output_commit"], "c2");
    assert_eq!(rows[0]["type"], "incoming");
    assert_eq!(rows[0]["direction"], "incoming");
    assert_eq!(rows[0]["status"], "confirmed");
    assert_eq!(rows[0]["confirmed"], true);
    assert_eq!(rows[0]["confirmations"], 11);
    assert_eq!(rows[0]["amount"], "1.5");
    assert_eq!(rows[0]["fee"], Value::Null);
    assert_eq!(rows[0]["from"], "Restore");
    assert_eq!(rows[0]["to"], "me");
    assert_eq!(rows[0]["timestamp"], 0);
    assert_eq!(rows[0]["date"], Value::Null);
    assert_eq!(rows[0]["height"], 90);
    assert_eq!(rows[0]["spent"], true);
    assert_eq!(rows[1]["id"], "c3");
    assert_eq!(rows[1]["spent"], false);
    times.insert(90, (77, "day".to_string()));
    let row = restored_output_row(&outputs[1], "me", 100, &times, &written());
    assert_eq!(row["timestamp"], 77);
    assert_eq!(row["date"], "day");
    let all = vec![output(OutputStatus::Unspent, "c1", Some(4))];
    assert!(restored_output_transactions(&all, &ids, "me", 100, &times, &written()).is_empty());
}

#[test]
fn amounts_are_listed_for_writing() {
    let mut sent = entry(1, TxLogEntryType::TxSent);
    sent.amount_credited = 1;
    sent.amount_debited = 10;
    sent.fee = Some(2);
    let txs = vec![entry(2, TxLogEntryType::TxReceived), sent];
    assert_eq!(amounts_of_transactions(&txs), vec![150_000_000, 7, 2]);
    let outputs = vec![output(OutputStatus::Spent, "c", None)];
    assert_eq!(amounts_of_outputs(&outputs), vec![150_000_000]);
}
