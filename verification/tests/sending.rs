use altbase_epic::outputs::{Output, OutputStatus};
use altbase_epic::request::EpicRequest;
use altbase_epic::sending::{
    init_tx_args, prepare_send, probe_destination, rollback_message, sanitize_epicbox_error, send,
    send_prepare_probe, send_publish_probe, MaxSend, MaxStep, PrepareAction, PrepareEvent,
    Preparing, Rollback, SendAction, SendEvent, SentTexts,
};
use serde_json::Value;

fn request() -> EpicRequest {
    EpicRequest {
        action: "send".to_string(),
        phrase: None,
        password: None,
        data_dir: None,
        node_url: None,
        restore_start_height: None,
        to: None,
        amount: None,
        fee: None,
        send_max: None,
        memo: None,
        address: None,
        slate: None,
    }
}

fn read(text: &str) -> Value {
    serde_json::from_str(text).unwrap()
}

fn failure(res: (Preparing, PrepareAction)) -> String {
    match res {
        (Preparing::Done, PrepareAction::Fail(message)) => message,
        _ => panic!("it goes on"),
    }
}

fn texts() -> SentTexts {
    SentTexts { txid: "id".to_string(), amount: "1.5".to_string(), fee: "0.01".to_string() }
}

#[test]
fn confirmed_fee_ends_the_search() {
    let (mut search, step) = MaxSend::new(100, 10);
    assert!(matches!(step, MaxStep::Estimate { amount: 90 }));
    assert!(matches!(search.estimated(12), MaxStep::Estimate { amount: 88 }));
    assert!(matches!(search.estimated(12), MaxStep::Send { amount: 88 }));
    assert_eq!(search.fee + 88, 100);
}

#[test]
fn search_ends_after_six_estimates() {
    let (mut search, _) = MaxSend::new(100, 10);
    for estimate in [11, 12, 13, 14, 15] {
        assert!(matches!(search.estimated(estimate), MaxStep::Estimate { .. }));
    }
    assert!(matches!(search.estimated(16), MaxStep::Send { amount: 84 }));
}

#[test]
fn fee_that_takes_all_leaves_nothing_to_send() {
    let (_, step) = MaxSend::new(10, 10);
    assert!(matches!(step, MaxStep::NotEnough { required: 10, available: 10 }));
    let (mut search, _) = MaxSend::new(100, 10);
    assert!(matches!(
        search.estimated(101),
        MaxStep::NotEnough { required: 101, available: 100 }
    ));
    let (mut search, _) = MaxSend::new(100, 10);
    for estimate in [11, 12, 13, 14, 15] {
        search.estimated(estimate);
    }
    assert!(matches!(search.estimated(100), MaxStep::NothingLeft));
}

#[test]
fn transaction_is_made_with_one_confirmation() {
    let mut req = request();
    let args = init_tx_args(&req, 7);
    assert_eq!((args.amount, args.minimum_confirmations), (7, 1));
    assert_eq!((args.max_outputs, args.num_change_outputs), (500, 1));
    assert!(!args.selection_strategy_is_use_all);
    assert_eq!(args.message, None);
    req.memo = Some("hello".to_string());
    assert_eq!(init_tx_args(&req, 7).message, Some("hello".to_string()));
}

#[test]
fn given_amount_is_sent() {
    let mut req = request();
    let begun = prepare_send(&req, Preparing::Opening, PrepareEvent::Opened(Ok(())));
    assert_eq!(failure(begun), "Amount is required");
    req.amount = Some("1.5".to_string());
    let (stage, action) = prepare_send(&req, Preparing::Opening, PrepareEvent::Opened(Ok(())));
    assert!(matches!(action, PrepareAction::ReadAmount(text) if text == "1.5"));
    let (stage, action) = prepare_send(&req, stage, PrepareEvent::AmountRead(Ok(150)));
    assert!(matches!(action, PrepareAction::Create(args) if args.amount == 150));
    let (stage, action) = prepare_send(&req, stage, PrepareEvent::Created(Ok(())));
    assert!(matches!(stage, Preparing::Done));
    assert!(matches!(action, PrepareAction::Prepared { amount: 150 }));
}

#[test]
fn all_that_can_be_spent_is_sent() {
    let mut req = request();
    req.send_max = Some("Yes".to_string());
    req.amount = Some("1.5".to_string());
    req.fee = Some("0.02".to_string());
    let (stage, action) = prepare_send(&req, Preparing::Opening, PrepareEvent::Opened(Ok(())));
    assert!(matches!(action, PrepareAction::Refresh));
    let (stage, action) = prepare_send(&req, stage, PrepareEvent::Refreshed(Ok((70, 50))));
    assert!(matches!(action, PrepareAction::Retrieve { height: 70 }));
    let outputs = vec![Output {
        status: OutputStatus::Unspent,
        value: 100,
        height: 1,
        commit: None,
        commit_bytes: vec![],
        tx_log_entry: None,
        eligible: true,
    }];
    let (stage, action) = prepare_send(&req, stage, PrepareEvent::Retrieved(Some(outputs)));
    assert!(matches!(
        action,
        PrepareAction::ReadFee { requested: Some(text) } if text == "0.02"
    ));
    let read_fee = PrepareEvent::FeeRead { requested: Some(Ok(20)), default: Ok(10) };
    let (stage, action) = prepare_send(&req, stage, read_fee);
    assert!(matches!(action, PrepareAction::Estimate { amount: 80 }));
    let (stage, action) = prepare_send(&req, stage, PrepareEvent::Estimated(Ok(8)));
    assert!(matches!(action, PrepareAction::Estimate { amount: 92 }));
    let (stage, action) = prepare_send(&req, stage, PrepareEvent::Estimated(Ok(8)));
    assert!(matches!(action, PrepareAction::Create(args) if args.amount == 92));
    assert!(matches!(stage, Preparing::Creating { amount: 92 }));
}

#[test]
fn wallet_says_what_can_be_spent_where_outputs_cannot_be_had() {
    let req = request();
    let stage = Preparing::Totalling { currently_spendable: 50 };
    let (stage, action) = prepare_send(&req, stage, PrepareEvent::Retrieved(None));
    assert!(matches!(action, PrepareAction::ReadFee { requested: None }));
    assert!(matches!(stage, Preparing::ReadingFee { spendable: 50 }));
}

#[test]
fn fee_above_the_funds_is_refused_in_words() {
    let req = request();
    let stage = Preparing::ReadingFee { spendable: 50 };
    let event = PrepareEvent::FeeRead { requested: None, default: Ok(60) };
    let (stage, action) = prepare_send(&req, stage, event);
    assert!(matches!(action, PrepareAction::Word { required: 60, available: 50 }));
    let worded = PrepareEvent::Worded { required: "0.6".to_string(), available: "0.5".to_string() };
    assert_eq!(
        failure(prepare_send(&req, stage, worded)),
        "Epic transaction create: Not enough funds. Required: 0.6, Available: 0.5"
    );
    let stage = Preparing::Estimating { search: MaxSend { spendable: 50, fee: 1, rounds: 5 } };
    assert_eq!(
        failure(prepare_send(&req, stage, PrepareEvent::Estimated(Ok(50)))),
        "Epic transaction create: Not enough funds after fee"
    );
}

#[test]
fn preparation_fails_with_the_reason_of_its_step() {
    let req = request();
    let bad = || "e".to_string();
    let search = MaxSend { spendable: 50, fee: 1, rounds: 0 };
    for (stage, event, words) in [
        (Preparing::Opening, PrepareEvent::Opened(Err(bad())), "e"),
        (Preparing::ReadingAmount, PrepareEvent::AmountRead(Err(bad())), "Epic amount: e"),
        (Preparing::Refreshing, PrepareEvent::Refreshed(Err(bad())), "Epic balance refresh: e"),
        (
            Preparing::ReadingFee { spendable: 5 },
            PrepareEvent::FeeRead { requested: Some(Err(bad())), default: Ok(1) },
            "Epic fee: e",
        ),
        (
            Preparing::ReadingFee { spendable: 5 },
            PrepareEvent::FeeRead { requested: Some(Ok(0)), default: Err(bad()) },
            "Epic default fee: e",
        ),
        (
            Preparing::Estimating { search },
            PrepareEvent::Estimated(Err(bad())),
            "Epic max fee estimate: e",
        ),
        (
            Preparing::Creating { amount: 5 },
            PrepareEvent::Created(Err(bad())),
            "Epic transaction create: e",
        ),
    ] {
        assert_eq!(failure(prepare_send(&req, stage, event)), words);
    }
}

#[test]
fn unreachable_server_is_said_in_other_words() {
    let shown = "Epicbox server is not reachable. Please try again in a moment.";
    for text in [
        "x \nCan't connect to the epicbox server!\nCheck your epic-wallet.toml settings and make sure epicbox domain is correct.\ny",
        "Native-TLS failed",
        "timed out (OS error 10060)",
    ] {
        assert_eq!(sanitize_epicbox_error(text), shown);
    }
    assert_eq!(sanitize_epicbox_error("Wrong slate"), "Wrong slate");
}

#[test]
fn failed_rollback_is_said() {
    let message = || "It failed.".to_string();
    assert_eq!(rollback_message(message(), Rollback::Done), "It failed.");
    assert_eq!(rollback_message(message(), Rollback::Missing), "It failed.");
    assert_eq!(
        rollback_message(message(), Rollback::Failed("db".to_string())),
        "It failed. Local transaction rollback failed: db"
    );
}

#[test]
fn transaction_is_sent_or_taken_back() {
    let mut req = request();
    assert!(matches!(
        send(&req, SendEvent::Prepared(Ok(()))),
        SendAction::Return(Err(message)) if message == "Destination address is required"
    ));
    req.to = Some("them".to_string());
    assert!(matches!(
        send(&req, SendEvent::Prepared(Err("e".to_string()))),
        SendAction::Return(Err(message)) if message == "e"
    ));
    assert!(matches!(
        send(&req, SendEvent::Prepared(Ok(()))),
        SendAction::Publish { to } if to == "them"
    ));
    assert!(matches!(send(&req, SendEvent::Sent(Ok(()))), SendAction::Address));
    assert!(matches!(
        send(&req, SendEvent::Sent(Err("native-tls".to_string()))),
        SendAction::RollBack { message }
            if message == "Epicbox send: Epicbox server is not reachable. Please try again in a moment."
    ));
    let taken_back = SendEvent::RolledBack { message: "m".to_string(), rollback: Rollback::Done };
    assert!(matches!(
        send(&req, taken_back),
        SendAction::Return(Err(message)) if message == "m"
    ));
    let lost = SendEvent::Addressed { address: Err("e".to_string()), texts: texts() };
    assert!(matches!(send(&req, lost), SendAction::Return(Err(message)) if message == "e"));
}

#[test]
fn sent_transaction_is_reported() {
    let event = SendEvent::Addressed { address: Ok("me".to_string()), texts: texts() };
    let reply = match send(&request(), event) {
        SendAction::Return(Ok(reply)) => read(&reply),
        _ => panic!("no reply"),
    };
    assert_eq!(reply["ok"], true);
    assert_eq!(reply["code"], "epic-native-epicbox-sent");
    assert_eq!(reply["address"], "me");
    assert_eq!(reply["txid"], "id");
    assert_eq!(reply["amount"], "1.5");
    assert_eq!(reply["fee"], "0.01");
    assert_eq!(reply["balance"], "0");
    assert_eq!(reply["spendable"], "0");
    assert_eq!(reply["transactions"].as_array().unwrap().len(), 0);
}

#[test]
fn probes_are_reported() {
    let reply = read(&send_prepare_probe(Ok("me".to_string()), "id", "1.5").unwrap());
    assert_eq!(reply["code"], "epic-native-send-prepared");
    assert_eq!(reply["address"], "me");
    assert_eq!(reply["txid"], "id");
    assert_eq!(reply["amount"], "1.5");
    assert_eq!(send_prepare_probe(Err("e".to_string()), "id", "1.5"), Err("e".to_string()));
    let reply = read(&send_publish_probe(Ok("id".to_string())).unwrap());
    assert_eq!(reply["code"], "epic-native-send-published");
    assert_eq!(reply["txid"], "id");
    assert_eq!(
        send_publish_probe(Err("native-tls".to_string())),
        Err("Epicbox send: native-tls".to_string())
    );
    let mut req = request();
    assert_eq!(probe_destination(&req), Err("Destination address is required".to_string()));
    req.to = Some("them".to_string());
    assert_eq!(probe_destination(&req), Ok("them".to_string()));
}
