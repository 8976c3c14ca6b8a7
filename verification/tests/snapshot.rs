use std::collections::{HashMap, HashSet};

use altbase_epic::history::{AmountTexts, TxEntry, TxLogEntryType};
use altbase_epic::outputs::{Output, OutputStatus};
use altbase_epic::snapshot::{
    add_confirmation_heights, balances, effective_height, report_figures, retrieval_height,
    snapshot, Report, Snapshot, SnapshotAction, SnapshotEvent, Summary,
};
use serde_json::Value;

fn summary(last_confirmed_height: u64) -> Summary {
    Summary {
        last_confirmed_height,
        total: 100,
        amount_locked: 30,
        amount_currently_spendable: 60,
    }
}

fn entry(confirmation_height: Option<u64>) -> TxEntry {
    TxEntry {
        id: 1,
        tx_type: TxLogEntryType::TxReceived,
        confirmed: true,
        confirmation_height,
        kernel_excess: None,
        stored_kernel_excess: None,
        slate_id: Some("slate".to_string()),
        creation_timestamp: 0,
        creation_date: String::new(),
        amount_credited: 9,
        amount_debited: 2,
        fee: None,
        public_addr: None,
    }
}

fn output(height: u64) -> Output {
    Output {
        status: OutputStatus::Unspent,
        value: 5,
        height,
        commit: None,
        commit_bytes: vec![0xcc],
        tx_log_entry: None,
        eligible: true,
    }
}

fn failure(res: (Snapshot, SnapshotAction)) -> String {
    match res {
        (Snapshot::Finished, SnapshotAction::Fail(message)) => message,
        _ => panic!("it goes on"),
    }
}

#[test]
fn report_takes_its_steps() {
    let (stage, action) = snapshot(Snapshot::Opening, SnapshotEvent::Opened(Ok(())));
    assert!(matches!(action, SnapshotAction::Address));
    let (stage, action) = snapshot(stage, SnapshotEvent::Addressed(Ok("me".to_string())));
    assert!(matches!(action, SnapshotAction::Restore));
    let (stage, action) = snapshot(stage, SnapshotEvent::Restored(Ok(())));
    assert!(matches!(action, SnapshotAction::Refresh));
    let (stage, action) = snapshot(stage, SnapshotEvent::Refreshed(Ok((false, summary(50)))));
    assert!(matches!(action, SnapshotAction::Rescan { tip_height: 50 }));
    let (stage, action) = snapshot(stage, SnapshotEvent::Rescanned(Ok(true)));
    assert!(matches!(action, SnapshotAction::Refresh));
    let (stage, action) = snapshot(stage, SnapshotEvent::Refreshed(Ok((true, summary(51)))));
    assert!(matches!(action, SnapshotAction::List));
    let (stage, action) = snapshot(stage, SnapshotEvent::Listed(Ok(vec![entry(Some(60))])));
    assert!(matches!(action, SnapshotAction::Gather));
    let gathered = SnapshotEvent::Gathered { with_spent: vec![], history: vec![output(70)] };
    let (stage, action) = snapshot(stage, gathered);
    assert!(matches!(action, SnapshotAction::Retrieve { height: 70 }));
    let retrieved = SnapshotEvent::Retrieved(Some(vec![output(71), output(72)]));
    let (stage, action) = snapshot(stage, retrieved);
    assert!(matches!(action, SnapshotAction::Collect));
    let collected = SnapshotEvent::Collected(vec![output(70), output(73)]);
    let (stage, action) = snapshot(stage, collected);
    assert!(matches!(stage, Snapshot::Finished));
    match action {
        SnapshotAction::Report(report) => {
            assert_eq!(report.address, "me");
            assert!(report.updated);
            assert_eq!(report.txs.len(), 1);
            assert_eq!(report.history.len(), 1);
            assert_eq!(report.restorable.len(), 2);
            assert_eq!(report_figures(&report.info, &report.current), (10, 10, 51));
        }
        _ => panic!("nothing is reported"),
    }
}

#[test]
fn wallet_is_refreshed_once_where_nothing_was_scanned() {
    let stage = Snapshot::Rescanning {
        address: "me".to_string(),
        updated: true,
        info: summary(50),
    };
    let (stage, action) = snapshot(stage, SnapshotEvent::Rescanned(Ok(false)));
    assert!(matches!(action, SnapshotAction::List));
    assert!(matches!(
        stage,
        Snapshot::Listing { updated: true, info: Summary { last_confirmed_height: 50, .. }, .. }
    ));
}

#[test]
fn report_fails_with_the_reason_of_its_step() {
    let bad = || "e".to_string();
    let here = || "me".to_string();
    assert_eq!(failure(snapshot(Snapshot::Opening, SnapshotEvent::Opened(Err(bad())))), "e");
    assert_eq!(failure(snapshot(Snapshot::Addressing, SnapshotEvent::Addressed(Err(bad())))), "e");
    let stage = Snapshot::Restoring { address: here() };
    assert_eq!(failure(snapshot(stage, SnapshotEvent::Restored(Err(bad())))), "e");
    let stage = Snapshot::Refreshing { address: here() };
    assert_eq!(
        failure(snapshot(stage, SnapshotEvent::Refreshed(Err(bad())))),
        "Epic balance refresh: e"
    );
    let stage = Snapshot::Rescanning { address: here(), updated: false, info: summary(1) };
    assert_eq!(failure(snapshot(stage, SnapshotEvent::Rescanned(Err(bad())))), "e");
    let stage = Snapshot::Listing { address: here(), updated: false, info: summary(1) };
    assert_eq!(
        failure(snapshot(stage, SnapshotEvent::Listed(Err(bad())))),
        "Epic transaction refresh: e"
    );
}

#[test]
fn last_block_is_the_highest_that_is_known() {
    let mut heights: HashSet<u64> = [5, 70].into_iter().collect();
    assert_eq!(effective_height(&heights, 60), 70);
    assert_eq!(effective_height(&heights, 80), 80);
    add_confirmation_heights(&mut heights, &vec![entry(Some(90)), entry(None), entry(Some(5))]);
    assert_eq!(heights.len(), 3);
    assert_eq!(effective_height(&heights, 80), 90);
    assert_eq!(effective_height(&HashSet::new(), 3), 3);
}

#[test]
fn balances_have_a_fallback() {
    assert_eq!(balances(Some((7, 5)), &summary(1)), (7, 5));
    assert_eq!(balances(None, &summary(1)), (70, 60));
    let locked = Summary { amount_locked: 200, ..summary(1) };
    assert_eq!(balances(None, &locked), (0, 60));
}

#[test]
fn outputs_are_retrieved_at_the_last_block_spoken_of() {
    let txs = vec![entry(Some(41)), entry(None)];
    assert_eq!(retrieval_height(&vec![output(40)], &txs, &summary(50)), 50);
    assert_eq!(retrieval_height(&vec![output(60)], &txs, &summary(50)), 60);
    assert_eq!(retrieval_height(&vec![], &vec![entry(Some(61))], &summary(50)), 61);
}

#[test]
fn figures_are_of_the_outputs_or_the_summary() {
    let current = Some(vec![output(40), output(41)]);
    assert_eq!(report_figures(&summary(50), &current), (10, 10, 50));
    assert_eq!(report_figures(&summary(50), &None), (70, 60, 50));
}

#[test]
fn report_holds_log_and_restored_outputs() {
    let report = Report {
        address: "me".to_string(),
        updated: true,
        info: summary(50),
        txs: vec![entry(Some(41))],
        with_spent: vec![output(40)],
        history: vec![output(40)],
        current: Some(vec![output(40), output(80)]),
        restorable: vec![output(40)],
    };
    let heights = report.block_heights();
    assert!(heights.contains(&40) && heights.contains(&41) && heights.len() == 2);
    assert_eq!(report.amounts(), vec![10, 10, 7, 5]);
    let written: AmountTexts =
        report.amounts().into_iter().map(|units| (units, format!("<{units}>"))).collect();
    let mut times = HashMap::new();
    times.insert(41, (4100, "then".to_string()));
    let reply: Value = serde_json::from_str(&report.reply(times, &written)).unwrap();
    assert_eq!(reply["ok"], true);
    assert_eq!(reply["code"], "epic-native-wallet");
    assert_eq!(reply["updatedFromNode"], true);
    assert_eq!(reply["updated_from_node"], true);
    assert_eq!(reply["address"], "me");
    assert_eq!(reply["balance"], "<10>");
    assert_eq!(reply["spendable"], "<10>");
    assert_eq!(reply["lastScannedHeight"], 50);
    assert_eq!(reply["last_scanned_height"], 50);
    let rows = reply["transactions"].as_array().unwrap();
    assert_eq!(rows.len(), 2);
    assert_eq!(rows[0]["id"], "slate");
    assert_eq!(rows[0]["amount"], "<7>");
    assert_eq!(rows[0]["confirmations"], 10);
    assert_eq!(rows[0]["date"], "then");
    assert_eq!(rows[1]["id"], "cc");
    assert_eq!(rows[1]["amount"], "<5>");
    assert_eq!(reply, {
        let mut again = report.payload(HashMap::new(), &written);
        again["ok"] = Value::from(true);
        again["transactions"] = reply["transactions"].clone();
        again
    });
}

#[test]
fn restored_rows_come_from_the_last_retrieval() {
    let report = |history: Vec<Output>, restorable: Vec<Output>| Report {
        address: "me".to_string(),
        updated: true,
        info: summary(50),
        txs: vec![],
        with_spent: vec![],
        history,
        current: None,
        restorable,
    };
    let written: AmountTexts =
        [5, 60, 70].into_iter().map(|units| (units, format!("<{units}>"))).collect();
    let rows = |report: &Report| {
        let payload = report.payload(HashMap::new(), &written);
        payload["transactions"].as_array().unwrap().len()
    };
    let late = report(vec![], vec![output(40), output(41)]);
    assert!(late.block_heights().is_empty());
    assert_eq!(late.amounts(), vec![70, 60, 5, 5]);
    assert_eq!(rows(&late), 2);
    let lost = report(vec![output(40)], vec![]);
    assert_eq!(lost.block_heights().len(), 1);
    assert_eq!(lost.amounts(), vec![70, 60]);
    assert_eq!(rows(&lost), 0);
}
