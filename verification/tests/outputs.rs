use altbase_epic::outputs::{
    commit_text, output_commits_and_heights_by_tx, output_totals, spent_outputs_by_tx, Output,
    OutputStatus,
};

fn output(status: OutputStatus, value: u64, tx_log_entry: Option<u32>) -> Output {
    Output {
        status,
        value,
        height: 10,
        commit: Some(format!("commit-{value}")),
        commit_bytes: vec![0xab, 0x01],
        tx_log_entry,
        eligible: true,
    }
}

#[test]
fn commitment_is_stored_or_hexadecimal() {
    let mut one = output(OutputStatus::Unspent, 1, None);
    assert_eq!(commit_text(&one), "commit-1");
    one.commit = None;
    assert_eq!(commit_text(&one), "ab01");
}

#[test]
fn totals_count_what_is_not_locked_or_gone() {
    let mut outputs = vec![
        output(OutputStatus::Unspent, 1, None),
        output(OutputStatus::Unconfirmed, 10, None),
        output(OutputStatus::Locked, 100, None),
        output(OutputStatus::Spent, 1000, None),
        output(OutputStatus::Deleted, 10000, None),
        output(OutputStatus::Unspent, 100000, None),
    ];
    outputs[5].eligible = false;
    assert_eq!(output_totals(&outputs), (100011, 1));
    assert_eq!(output_totals(&vec![]), (0, 0));
}

#[test]
fn totals_do_not_run_over() {
    let outputs = vec![
        output(OutputStatus::Unspent, u64::MAX - 1, None),
        output(OutputStatus::Unspent, 5, None),
        output(OutputStatus::Unconfirmed, 7, None),
    ];
    assert_eq!(output_totals(&outputs), (u64::MAX, u64::MAX));
}

#[test]
fn spendable_is_never_more_than_the_balance() {
    let outputs = vec![
        output(OutputStatus::Unspent, 5, None),
        output(OutputStatus::Unconfirmed, 7, None),
    ];
    let (total, spendable) = output_totals(&outputs);
    assert_eq!((total, spendable), (12, 5));
}

#[test]
fn transaction_is_spent_when_all_its_outputs_are_gone() {
    let outputs = vec![
        output(OutputStatus::Spent, 1, Some(1)),
        output(OutputStatus::Deleted, 2, Some(1)),
        output(OutputStatus::Spent, 3, Some(2)),
        output(OutputStatus::Unspent, 4, Some(2)),
        output(OutputStatus::Locked, 5, Some(3)),
        output(OutputStatus::Spent, 6, None),
    ];
    let (spent_by_tx, spent_commits) = spent_outputs_by_tx(&outputs);
    assert_eq!(spent_by_tx.len(), 3);
    assert_eq!(spent_by_tx.get(&1), Some(&true));
    assert_eq!(spent_by_tx.get(&2), Some(&false));
    assert_eq!(spent_by_tx.get(&3), Some(&false));
    for (commit, gone) in [
        ("commit-1", true),
        ("commit-2", true),
        ("commit-3", true),
        ("commit-4", false),
        ("commit-5", false),
        ("commit-6", true),
    ] {
        assert_eq!(spent_commits.contains(commit), gone, "{commit}");
    }
}

#[test]
fn commitments_keep_their_order() {
    let mut outputs = vec![
        output(OutputStatus::Unspent, 3, Some(1)),
        output(OutputStatus::Unspent, 1, Some(2)),
        output(OutputStatus::Unspent, 2, Some(1)),
        output(OutputStatus::Unspent, 4, None),
    ];
    outputs[1].height = 0;
    outputs[3].height = 12;
    let (commits, heights) = output_commits_and_heights_by_tx(&outputs);
    assert_eq!(commits.len(), 2);
    assert_eq!(commits[&1], vec!["commit-3".to_string(), "commit-2".to_string()]);
    assert_eq!(commits[&2], vec!["commit-1".to_string()]);
    assert_eq!(heights.len(), 2);
    assert!(heights.contains(&10) && heights.contains(&12));
}
