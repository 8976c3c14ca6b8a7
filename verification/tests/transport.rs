use altbase_epic::request::{err, EpicRequest, RawText};
use altbase_epic::sending::{Rollback, SentTexts};
use altbase_epic::transport::{
    slate_failure, epicbox_publish_is_pending, pending_reply, publish_outcome,
    publish_with_listener, relayed_reply, send_with_transport, transport_publish_payload,
    transport_request, transport_response, transport_sent, transport_slate_text,
    transport_wallet_payload, PublishAction, PublishEvent, TransportAction, TransportEvent,
};
use serde_json::Value;

fn request() -> EpicRequest {
    EpicRequest {
        action: "send".to_string(),
        phrase: Some("test phrase".to_string()),
        password: Some("test password".to_string()),
        data_dir: Some("test-wallet".to_string()),
        node_url: Some("https://node.example".to_string()),
        restore_start_height: Some(123),
        to: None,
        amount: None,
        fee: None,
        send_max: None,
        memo: None,
        address: None,
        slate: None,
    }
}

#[test]
fn transport_publish_payload_carries_wallet_context() {
    let req = request();
    let mut slate = Value::Null;
    slate["id"] = Value::from("test-slate");
    let payload = transport_publish_payload(
        &req,
        "sender@epicbox.epiccash.com",
        "receiver@epicbox.epiccash.com",
        slate,
    );

    assert_eq!(payload["action"], "publish");
    assert_eq!(payload["phrase"], "test phrase");
    assert_eq!(payload["password"], "test password");
    assert_eq!(payload["dataDir"], "test-wallet");
    assert_eq!(payload["nodeUrl"], "https://node.example");
    assert_eq!(payload["restoreStartHeight"], 123);
    assert_eq!(payload["address"], "sender@epicbox.epiccash.com");
    assert_eq!(payload["to"], "receiver@epicbox.epiccash.com");
    assert_eq!(payload["slate"]["id"], "test-slate");
}

#[test]
fn transport_keeps_ambiguous_published_slate_pending() {
    assert!(epicbox_publish_is_pending(
        "Epicbox transaction 1 was published and is awaiting finalization"
    ));
    assert!(epicbox_publish_is_pending(
        "Epicbox transaction 1 publish outcome is uncertain: connection reset"
    ));
    assert!(!epicbox_publish_is_pending("Epicbox listener is not ready"));
    assert!(!epicbox_publish_is_pending("Epic slate deserialize failed"));
}

fn read(text: &str) -> Value {
    serde_json::from_str(text).unwrap()
}

fn answered(text: &str) -> TransportAction {
    send_with_transport(&request(), TransportEvent::Answered(Ok(read(text))))
}

fn relayed(attempt: u32, error: &str) -> PublishAction {
    let result = Err(error.to_string());
    publish_with_listener(&request(), PublishEvent::Relayed { attempt, result })
}

#[test]
fn listen_request_reads_back_as_it_was_written() {
    let payload = transport_wallet_payload(&request(), "listen");
    let text = transport_request(&payload);
    assert_eq!(read(&text), payload);
    assert_eq!(payload["action"], "listen");
    assert_eq!(payload["restoreStartHeight"], 123);
    assert_eq!(payload.as_object().unwrap().len(), 6);
    let empty = EpicRequest { phrase: None, restore_start_height: None, ..request() };
    let payload = transport_wallet_payload(&empty, "listen");
    assert_eq!(payload["phrase"], Value::Null);
    assert_eq!(payload["restoreStartHeight"], Value::Null);
    assert_eq!(payload.as_object().unwrap().len(), 6);
}

#[test]
fn reply_must_be_json() {
    assert_eq!(transport_response(RawText::Text("[1]".to_string())), Ok(read("[1]")));
    assert_eq!(
        transport_response(RawText::Missing),
        Err("Epic transport returned a null response".to_string())
    );
    assert_eq!(
        transport_response(RawText::NotText("utf-8".to_string())),
        Err("Epic transport response: utf-8".to_string())
    );
    let message = transport_response(RawText::Text("{".to_string())).unwrap_err();
    assert!(message.starts_with("Epic transport response: EOF while parsing"));
}

#[test]
fn replies_of_the_listener_are_understood() {
    let relayed = transport_response(RawText::Text(relayed_reply("id", "0.01"))).unwrap();
    assert_eq!(publish_outcome(&relayed), Ok(false));
    assert_eq!(relayed["txid"], "id");
    assert_eq!(relayed["fee"], "0.01");
    let pending = transport_response(RawText::Text(pending_reply("id"))).unwrap();
    assert_eq!(publish_outcome(&pending), Ok(true));
    assert_eq!(pending["txid"], "id");
    let refused = transport_response(RawText::Text(err("code", "why"))).unwrap();
    assert_eq!(publish_outcome(&refused), Err("why".to_string()));
}

#[test]
fn reply_that_says_nothing_is_a_refusal() {
    for text in ["null", "{}", r#"{"ok":"true"}"#, r#"{"ok":false,"error":5}"#] {
        assert_eq!(
            publish_outcome(&read(text)),
            Err("Epic transport publish failed".to_string())
        );
    }
    assert_eq!(publish_outcome(&read(r#"{"ok":true}"#)), Ok(false));
    assert_eq!(publish_outcome(&read(r#"{"ok":true,"code":7}"#)), Ok(false));
}

#[test]
fn transaction_is_sent_through_the_transport() {
    let req = EpicRequest { to: Some("them".to_string()), ..request() };
    let step = |event| send_with_transport(&req, event);
    assert!(matches!(step(TransportEvent::Prepared(Ok(()))), TransportAction::Address));
    assert!(matches!(step(TransportEvent::Addressed(Ok(()))), TransportAction::Serialize));
    assert!(matches!(
        step(TransportEvent::Serialized(Ok(()))),
        TransportAction::Lock { to } if to == "them"
    ));
    assert!(matches!(step(TransportEvent::Locked(Ok(()))), TransportAction::Publish));
    assert!(matches!(answered(r#"{"ok":true}"#), TransportAction::Reply { pending: false }));
    assert!(matches!(
        answered(r#"{"ok":true,"code":"epic-native-epicbox-pending"}"#),
        TransportAction::Reply { pending: true }
    ));
}

#[test]
fn transaction_that_was_not_published_is_taken_back() {
    let lock = TransportEvent::Locked(Err("db".to_string()));
    assert!(matches!(
        send_with_transport(&request(), lock),
        TransportAction::RollBack { message } if message == "Epic transaction lock: db"
    ));
    let lost = TransportEvent::Answered(Err("gone".to_string()));
    assert!(matches!(
        send_with_transport(&request(), lost),
        TransportAction::RollBack { message } if message == "Epicbox send: gone"
    ));
    assert!(matches!(
        answered(r#"{"ok":false,"error":"no"}"#),
        TransportAction::RollBack { message } if message == "Epicbox send: no"
    ));
    let failed = TransportEvent::RolledBack {
        message: "Epicbox send: no".to_string(),
        rollback: Rollback::Failed("db".to_string()),
    };
    assert!(matches!(
        send_with_transport(&request(), failed),
        TransportAction::Fail(message)
            if message == "Epicbox send: no Local transaction rollback failed: db"
    ));
}

#[test]
fn transport_gives_up_before_anything_is_locked() {
    for (event, words) in [
        (TransportEvent::Prepared(Ok(())), "Destination address is required"),
        (TransportEvent::Prepared(Err("e".to_string())), "e"),
        (TransportEvent::Addressed(Err("e".to_string())), "e"),
        (TransportEvent::Serialized(Err("e".to_string())), "Epic slate serialize: e"),
    ] {
        assert!(matches!(
            send_with_transport(&request(), event),
            TransportAction::Fail(message) if message == words
        ));
    }
}

#[test]
fn transaction_sent_through_the_transport_is_reported() {
    let texts = SentTexts {
        txid: "id".to_string(),
        amount: "1.5".to_string(),
        fee: "0.01".to_string(),
    };
    let reply = read(&transport_sent(true, "me", &texts));
    assert_eq!(reply["ok"], true);
    assert_eq!(reply["code"], "epic-native-epicbox-pending");
    assert_eq!(reply["pending"], true);
    assert_eq!(reply["address"], "me");
    assert_eq!(reply["txid"], "id");
    assert_eq!(reply["amount"], "1.5");
    assert_eq!(reply["fee"], "0.01");
    assert_eq!(reply["balance"], "0");
    assert_eq!(reply["spendable"], "0");
    let reply = read(&transport_sent(false, "me", &texts));
    assert_eq!(reply["code"], "epic-native-epicbox-sent");
    assert_eq!(reply["pending"], false);
}

#[test]
fn publication_needs_both_addresses_and_a_slate() {
    let mut req = request();
    let words = |req: &EpicRequest| match publish_with_listener(req, PublishEvent::Asked) {
        PublishAction::Fail(message) => message,
        PublishAction::Decode => "decode".to_string(),
        _ => panic!("another action"),
    };
    assert_eq!(words(&req), "Epic sender address is required");
    req.address = Some("me".to_string());
    assert_eq!(words(&req), "Epic destination address is required");
    req.to = Some("them".to_string());
    assert_eq!(words(&req), "Epic slate is required");
    req.slate = Some(Value::Null);
    assert_eq!(words(&req), "decode");
    let listening = PublishEvent::Listening { attempt: 1, result: Ok(()) };
    assert!(matches!(
        publish_with_listener(&req, listening),
        PublishAction::Relay { attempt: 1, from, to } if from == "me" && to == "them"
    ));
}

#[test]
fn publication_takes_its_steps() {
    let req = request();
    assert!(matches!(
        publish_with_listener(&req, PublishEvent::Decoded(Ok(()))),
        PublishAction::Open { attempt: 0, pause: false }
    ));
    assert!(matches!(
        publish_with_listener(&req, PublishEvent::Opened { attempt: 2, result: Ok(()) }),
        PublishAction::Listen { attempt: 2 }
    ));
    assert!(matches!(
        publish_with_listener(&req, PublishEvent::Relayed { attempt: 2, result: Ok(()) }),
        PublishAction::ReplySent
    ));
    for (event, words) in [
        (PublishEvent::Decoded(Err(slate_failure("e"))), "Epic slate deserialize: e"),
        (
            PublishEvent::Opened { attempt: 0, result: Err("e".to_string()) },
            "Epicbox listener start: e",
        ),
        (
            PublishEvent::Listening { attempt: 0, result: Err("e".to_string()) },
            "Epicbox listener: e",
        ),
    ] {
        assert!(matches!(
            publish_with_listener(&req, event),
            PublishAction::Fail(message) if message == words
        ));
    }
    let mut slate = Value::Null;
    slate["id"] = Value::from("s");
    assert_eq!(transport_slate_text(&slate), r#"{"id":"s"}"#);
}

#[test]
fn listener_is_tried_three_times() {
    let error = "Epicbox listener is not ready";
    assert!(matches!(relayed(0, error), PublishAction::Open { attempt: 1, pause: true }));
    assert!(matches!(relayed(1, error), PublishAction::Open { attempt: 2, pause: true }));
    assert!(matches!(
        relayed(2, error),
        PublishAction::Fail(message) if message == "Epicbox publish: Epicbox listener is not ready"
    ));
    assert!(matches!(
        relayed(0, "another"),
        PublishAction::Fail(message) if message == "Epicbox publish: another"
    ));
}

#[test]
fn slate_that_may_be_published_is_not_taken_back() {
    for error in [
        "Generic error: Epicbox transaction 1 publish outcome is uncertain: reset",
        "Generic error: Epicbox transaction 1 was published but finalization failed: no",
        "Generic error: Epicbox transaction 1 was published and is awaiting finalization",
        "Generic error: Epicbox transaction 1 was published but its completion channel closed unexpectedly",
    ] {
        assert!(matches!(relayed(0, error), PublishAction::ReplyPending));
        let reply = transport_response(RawText::Text(pending_reply("1")));
        assert!(matches!(
            send_with_transport(&request(), TransportEvent::Answered(reply)),
            TransportAction::Reply { pending: true }
        ));
    }
}
