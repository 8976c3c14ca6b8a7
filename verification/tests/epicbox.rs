use altbase_epic::epicbox::address::{
    endpoint, endpoint_of, epicbox_io_error, epicbox_url, ConnectAttempts, EpicboxAddress, EpicboxConfig, UriParts,
};
use altbase_epic::epicbox::broker::{
    client_details, close_after_post, close_reason, made_send, post_slate, subscribe_request,
    subscription_result, BrokerAction, BrokerEnd, BrokerEvent, EpicboxBroker, Incoming,
    ProtocolRequest, ProtocolRequestV2, ProtocolResponseV2,
};
use altbase_epic::epicbox::channel::{
    start_epicbox, Completion, EpicboxChannel, EpicboxListenChannel, ListenAction, ListenEvent,
    RelayAction, RelayEvent, SendAction, SendEvent, StartAction, StartEvent,
};
use altbase_epic::epicbox::controller::{
    complete_send, on_slate, posting_route, register_send_completion, remove_send_completion,
    CloseReason, Container, EpicboxController, ListenerInterface, SlateAction, SlateEvent,
    SlateReply, SlateShape, TorConfig,
};
use altbase_epic::epicbox::error::Error;
use altbase_epic::epicbox::registry::Registry;

fn config(unsecure: Option<bool>) -> EpicboxConfig {
    EpicboxConfig {
        epicbox_domain: None,
        epicbox_port: None,
        epicbox_protocol_unsecure: unsecure,
    }
}

fn address(port: Option<u16>) -> EpicboxAddress {
    EpicboxAddress { public_key: "key".to_string(), domain: "box.example".to_string(), port }
}

fn words<T>(result: Result<T, Error>) -> String {
    match result {
        Err(Error::GenericError(text)) => text,
        _ => panic!("another result"),
    }
}

fn text(text: &str) -> String {
    text.to_string()
}

#[test]
fn registry_holds_one_value_for_each_key() {
    let mut registry: Registry<u32> = Registry::new();
    assert_eq!(registry.insert("a", 1), None);
    assert_eq!(registry.insert("b", 2), None);
    assert_eq!(registry.insert("a", 3), Some(1));
    assert_eq!(registry.get("a"), Some(&3));
    assert_eq!(registry.get("c"), None);
    assert_eq!(registry.remove("a"), Some(3));
    assert_eq!(registry.remove("a"), None);
    assert_eq!(registry.get("b"), Some(&2));
}

#[test]
fn server_has_a_url() {
    assert_eq!(epicbox_url(&config(None), &address(None)), "wss://box.example:443");
    assert_eq!(epicbox_url(&config(Some(false)), &address(Some(1))), "wss://box.example:1");
    assert_eq!(epicbox_url(&config(Some(true)), &address(None)), "ws://box.example:80");
    assert_eq!(epicbox_url(&config(Some(true)), &address(Some(3423))), "ws://box.example:3423");
}

#[test]
fn url_names_host_and_port() {
    let found = |url: &str| endpoint(url).map(|found| (found.host, found.port));
    assert_eq!(found("wss://box.example"), Ok((text("box.example"), 443)));
    assert_eq!(found("ws://box.example/path"), Ok((text("box.example"), 80)));
    assert_eq!(found("wss://box.example:3423"), Ok((text("box.example"), 3423)));
    assert_eq!(found("ws://[::1]:9"), Ok((text("::1"), 9)));
    assert_eq!(found("ws://[::1]"), Ok((text("::1"), 80)));
    assert_eq!(found("https://box.example"), Err(text("URL error: URL scheme not supported")));
    assert!(found("no url").is_err());
    assert!(found("ws://[::1").is_err());
}

#[test]
fn url_without_a_host_is_refused() {
    let parts = UriParts { secure: true, host: None, port: Some(5) };
    assert_eq!(endpoint_of(parts).err().unwrap(), "IO error: epicbox host is missing");
    let parts = UriParts { secure: false, host: Some(text("[]")), port: None };
    let found = endpoint_of(parts).ok().unwrap();
    assert_eq!((found.host, found.port), (text(""), 80));
}

#[test]
fn last_attempt_gives_the_error() {
    assert_eq!(
        ConnectAttempts::new().give_up("ws://x"),
        "IO error: epicbox connect timeout: ws://x"
    );
    let mut attempts = ConnectAttempts::new();
    attempts.failed(text("first"));
    attempts.failed(text("second"));
    assert_eq!(attempts.give_up("ws://x"), "IO error: second");
    assert_eq!(epicbox_io_error("interrupted"), "IO error: interrupted");
}

fn challenge(str: &str) -> BrokerEvent {
    BrokerEvent::Received(Incoming::Response(ProtocolResponseV2::Challenge { str: text(str) }))
}

fn next_message(broker: &mut EpicboxBroker) {
    assert!(matches!(broker.subscribe(BrokerEvent::NodeSynced(true)), BrokerAction::Read));
}

fn subscribed() -> EpicboxBroker {
    let mut broker = EpicboxBroker::new(3);
    next_message(&mut broker);
    assert!(matches!(broker.subscribe(challenge("c1")), BrokerAction::SendDetails));
    assert!(matches!(
        broker.subscribe(BrokerEvent::Sent(Ok(()))),
        BrokerAction::Sign(signed) if signed == "c1"
    ));
    assert!(matches!(
        broker.subscribe(BrokerEvent::Signed(Ok(text("s1")))),
        BrokerAction::SendSubscribe { signature } if signature == "s1"
    ));
    assert!(matches!(broker.subscribe(BrokerEvent::Sent(Ok(()))), BrokerAction::CheckNode));
    broker
}

#[test]
fn broker_waits_for_the_node() {
    let mut broker = EpicboxBroker::new(0);
    assert!(matches!(broker.subscribe(BrokerEvent::NodeSynced(false)), BrokerAction::Pause));
    next_message(&mut broker);
    assert!(matches!(
        broker.subscribe(BrokerEvent::Received(Incoming::Control)),
        BrokerAction::CheckNode
    ));
    next_message(&mut broker);
    assert!(matches!(
        broker.subscribe(BrokerEvent::Received(Incoming::Response(ProtocolResponseV2::Accepted))),
        BrokerAction::CheckNode
    ));
}

#[test]
fn details_go_out_before_the_first_subscription_only() {
    let mut broker = subscribed();
    assert!(!broker.first_run);
    assert_eq!(broker.reconnections, 0);
    next_message(&mut broker);
    assert!(matches!(
        broker.subscribe(challenge("c2")),
        BrokerAction::Sign(signed) if signed == "c2"
    ));
    assert_eq!(broker.challenge, Some(text("c2")));
}

#[test]
fn slate_is_handled_before_it_is_acknowledged() {
    let mut broker = subscribed();
    next_message(&mut broker);
    let slate = ProtocolResponseV2::Slate {
        from: text("them"),
        str: text("body"),
        signature: text("sig"),
        epicboxmsgid: text("m1"),
    };
    assert!(matches!(
        broker.subscribe(BrokerEvent::Received(Incoming::Response(slate))),
        BrokerAction::OpenSlate { from, str, signature }
            if from == "them" && str == "body" && signature == "sig"
    ));
    assert!(matches!(
        broker.subscribe(BrokerEvent::SlateOpened(true)),
        BrokerAction::HandleSlate
    ));
    assert!(matches!(
        broker.subscribe(BrokerEvent::SlateHandled),
        BrokerAction::Sign(signed) if signed == "c1"
    ));
    assert!(matches!(
        broker.subscribe(BrokerEvent::Signed(Ok(text("s2")))),
        BrokerAction::SendSubscribe { signature } if signature == "s2"
    ));
    assert!(matches!(
        broker.subscribe(BrokerEvent::Sent(Ok(()))),
        BrokerAction::Sign(signed) if signed == "m1"
    ));
    assert!(matches!(
        broker.subscribe(BrokerEvent::Signed(Ok(text("s3")))),
        BrokerAction::SendMade { signature, epicboxmsgid }
            if signature == "s3" && epicboxmsgid == "m1"
    ));
    assert!(matches!(broker.subscribe(BrokerEvent::Sent(Ok(()))), BrokerAction::Notify));
}

#[test]
fn broker_ends_for_a_reason() {
    let mut broker = subscribed();
    next_message(&mut broker);
    let action = broker.subscribe(BrokerEvent::ReadFailed);
    assert!(matches!(action, BrokerAction::Finish(BrokerEnd::Broken)));
    assert_eq!(broker.reconnections, 1);
    let mut broker = subscribed();
    next_message(&mut broker);
    assert!(matches!(
        broker.subscribe(BrokerEvent::Received(Incoming::Close)),
        BrokerAction::Finish(BrokerEnd::Closed)
    ));
    let mut broker = subscribed();
    next_message(&mut broker);
    assert!(matches!(
        broker.subscribe(BrokerEvent::Received(Incoming::Unreadable)),
        BrokerAction::Finish(BrokerEnd::Unreadable)
    ));
    let mut broker = EpicboxBroker::new(0);
    next_message(&mut broker);
    broker.subscribe(challenge("c"));
    assert!(matches!(
        broker.subscribe(BrokerEvent::Sent(Err(text("e")))),
        BrokerAction::Finish(BrokerEnd::DetailsNotSent(reason)) if reason == "e"
    ));
}

#[test]
fn ends_have_results_and_close_reasons() {
    assert!(subscription_result(BrokerEnd::Unreadable).is_ok());
    assert!(subscription_result(BrokerEnd::SlateRefused).is_ok());
    assert!(subscription_result(BrokerEnd::Closed).is_ok());
    assert!(matches!(
        subscription_result(BrokerEnd::Broken),
        Err(Error::EpicboxWebsocketAbnormalTermination)
    ));
    assert!(matches!(
        subscription_result(BrokerEnd::DetailsNotSent(text("e"))),
        Err(Error::EpicboxTungstenite(said)) if said == "Could not send 'ClientDetails' request! e"
    ));
    assert!(matches!(
        subscription_result(BrokerEnd::NotSigned(text("e"))),
        Err(Error::Wallet(said)) if said == "e"
    ));
    assert!(matches!(close_reason(&BrokerEnd::Closed), Some(CloseReason::Normal)));
    assert!(matches!(close_reason(&BrokerEnd::Broken), Some(CloseReason::Abnormal(_))));
    assert!(close_reason(&BrokerEnd::Unreadable).is_none());
}

#[test]
fn requests_name_the_protocol() {
    assert!(matches!(
        subscribe_request("key", text("s")),
        ProtocolRequestV2::Subscribe { address, ver, signature }
            if address == "key" && ver == "3.0.0" && signature == "s"
    ));
    assert!(matches!(
        made_send("key", text("m"), text("s")),
        ProtocolRequestV2::Made { address, signature, epicboxmsgid, ver }
            if address == "key" && signature == "s" && epicboxmsgid == "m" && ver == "3.0.0"
    ));
    assert!(matches!(
        client_details("4.0.0", "send"),
        ProtocolRequestV2::ClientDetails { wallet_version, wallet_mode, protocol_version }
            if wallet_version == "4.0.0" && wallet_mode == "send" && protocol_version == "3.0.0"
    ));
    let post = post_slate(text("me"), text("them"), Ok(text("body"))).ok().unwrap();
    assert_eq!(post.message, "body");
    assert_eq!(post.text_to_sign(), "body");
    let signed = post.signed(Ok(text("s")));
    assert!(matches!(
        signed,
        Ok(ProtocolRequest::PostSlate { from, to, str, signature })
            if from == "me" && to == "them" && str == "body" && signature == "s"
    ));
    assert!(post_slate(text("me"), text("them"), Err(Error::Wallet(text("e")))).is_err());
    assert!(matches!(close_after_post(Ok(()), true), Ok(true)));
    assert!(matches!(close_after_post(Ok(()), false), Ok(false)));
    assert!(close_after_post(Err(Error::Wallet(text("e"))), true).is_err());
}

#[test]
fn container_finds_its_listener() {
    let mut container: Container<u32> = Container::new(config(None));
    assert_eq!(container.account, "default");
    assert!(matches!(
        container.listener(ListenerInterface::Epicbox),
        Err(Error::NoListener(name)) if name == "Epicbox"
    ));
    container.insert(ListenerInterface::Epicbox, 7);
    assert!(matches!(container.listener(ListenerInterface::Epicbox), Ok(7)));
}

fn controller(use_tor_listener: bool) -> EpicboxController<()> {
    EpicboxController::new((), 0, TorConfig { use_tor_listener }).ok().unwrap()
}

#[test]
fn open_slate_is_received_and_a_closed_one_finalized() {
    let controller = controller(false);
    let arrived = |num_participants, participant_data, has_inputs| {
        controller.process_incoming_slate(Some(text("them")), SlateEvent::Arrived(SlateShape {
            num_participants,
            participant_data,
            has_inputs,
        }))
    };
    assert!(matches!(
        arrived(2, 1, true),
        SlateAction::Receive { address: Some(from) } if from == "them"
    ));
    assert!(matches!(arrived(2, 1, false), SlateAction::Done(Ok(false))));
    assert!(matches!(arrived(2, 2, true), SlateAction::Finalize));
    assert!(matches!(
        controller.process_incoming_slate(Some(text("them")), SlateEvent::Received(Err(text("e")))),
        SlateAction::Done(Err(Error::EpicboxReceiveTx(reason))) if reason == "e"
    ));
    assert!(matches!(
        controller.process_incoming_slate(Some(text("them")), SlateEvent::WalletMissing(Error::Wallet(text("e")))),
        SlateAction::Done(Err(Error::Wallet(reason))) if reason == "e"
    ));
    assert!(matches!(
        controller.process_incoming_slate(Some(text("them")), SlateEvent::Received(Ok(()))),
        SlateAction::Done(Ok(false))
    ));
}

#[test]
fn final_transaction_is_posted() {
    let onions = || vec![text("a.onion"), text("b.onion"), text("c.onion")];
    let posted = |tor, addresses| {
        controller(tor).process_incoming_slate(Some(text("them")), SlateEvent::Finalized(Ok(addresses)))
    };
    assert!(matches!(posted(false, onions()), SlateAction::Post));
    assert!(matches!(posted(true, vec![]), SlateAction::Post));
    for _ in 0..20 {
        assert!(matches!(
            posted(true, onions()),
            SlateAction::PostToTor(address) if onions().contains(&address)
        ));
    }
    assert!(matches!(
        posting_route(&onions(), true),
        SlateAction::PostToTor(address) if address == "a.onion"
    ));
    assert!(matches!(posting_route(&onions(), false), SlateAction::Post));
    let tor = controller(true);
    assert!(matches!(
        tor.process_incoming_slate(Some(text("them")), SlateEvent::PostedToTor(false)),
        SlateAction::Post
    ));
    assert!(matches!(
        tor.process_incoming_slate(Some(text("them")), SlateEvent::PostedToTor(true)),
        SlateAction::Done(Ok(true))
    ));
    assert!(matches!(
        tor.process_incoming_slate(Some(text("them")), SlateEvent::Posted(Ok(()))),
        SlateAction::Done(Ok(true))
    ));
}

#[test]
fn onion_addresses_are_shuffled() {
    let onions: Vec<String> = (0..50).map(|i| format!("{i}.onion")).collect();
    let mut taken: Vec<String> = Vec::new();
    for _ in 0..40 {
        let finalized = SlateEvent::Finalized(Ok(onions.clone()));
        if let SlateAction::PostToTor(address) = controller(true).process_incoming_slate(Some(text("them")), finalized) {
            taken.push(address);
        }
    }
    assert_eq!(taken.len(), 40);
    assert!(taken.iter().any(|address| address != &onions[0]));
}

#[test]
fn outcome_reaches_the_waiting_sender_once() {
    let mut completions: Registry<u32> = Registry::new();
    register_send_completion(&mut completions, "s", 1);
    register_send_completion(&mut completions, "t", 2);
    assert!(matches!(
        on_slate(&mut completions, "s", "them", Ok(false)),
        SlateReply::SendBack { to: "them" }
    ));
    assert!(matches!(on_slate(&mut completions, "s", "", Ok(true)), SlateReply::Complete(Some(1))));
    assert!(matches!(on_slate(&mut completions, "s", "", Ok(true)), SlateReply::Complete(None)));
    assert!(matches!(
        on_slate(&mut completions, "t", "", Err(Error::Wallet(text("e")))),
        SlateReply::Fail(Some(2), Error::Wallet(reason)) if reason == "e"
    ));
    register_send_completion(&mut completions, "u", 3);
    remove_send_completion(&mut completions, "u");
    assert_eq!(complete_send(&mut completions, "u"), None);
}

#[test]
fn listener_is_known_while_it_runs() {
    let channel = EpicboxListenChannel::new().ok().unwrap();
    let mut publishers: Registry<u32> = Registry::new();
    let mut reconnections: u32 = 0;
    let addressed = ListenEvent::Addressed(Ok(address(None)));
    assert!(matches!(
        channel.listen(&config(None), &mut publishers, &mut reconnections, addressed),
        ListenAction::Connect(url) if url == "wss://box.example:443"
    ));
    let connected = ListenEvent::Connected { key: text("k"), publisher: 5 };
    assert!(matches!(
        channel.listen(&config(None), &mut publishers, &mut reconnections, connected),
        ListenAction::Subscribe { wallet_mode } if wallet_mode == "listener"
    ));
    assert_eq!(publishers.get("k"), Some(&5));
    let ended = ListenEvent::Ended { key: text("k"), result: Ok(()) };
    assert!(matches!(
        channel.listen(&config(None), &mut publishers, &mut reconnections, ended),
        ListenAction::Return(Ok(()))
    ));
    assert_eq!(publishers.get("k"), None);
    assert_eq!(reconnections, 0);
    let failed = ListenEvent::ConnectFailed(text("e"));
    assert!(matches!(
        channel.listen(&config(None), &mut publishers, &mut reconnections, failed),
        ListenAction::Return(Err(Error::EpicboxTungstenite(reason))) if reason == "e"
    ));
    assert_eq!(reconnections, 1);
}

#[test]
fn slate_goes_through_the_listener() {
    let channel = EpicboxListenChannel::new().ok().unwrap();
    let mut waiting: Registry<u32> = Registry::new();
    let mut step = |event: RelayEvent<u32, &'static str>| {
        let action = channel.send_via_listener(&mut waiting, "me", "them", "s", event);
        (action, waiting.get("s").copied())
    };
    for looks in [0, 99] {
        assert!(matches!(
            step(RelayEvent::NotFound { looks }),
            (RelayAction::Look { from }, None) if from == "me"
        ));
    }
    assert!(matches!(
        step(RelayEvent::Found),
        (RelayAction::ReadDestination { to }, None) if to == "them"
    ));
    assert!(matches!(
        step(RelayEvent::Destination(Ok(4))),
        (RelayAction::Post { from, to }, Some(4)) if from == "me" && to == "them"
    ));
    assert!(matches!(step(RelayEvent::Posted(Ok(()))), (RelayAction::Wait, Some(4))));
    assert!(matches!(
        step(RelayEvent::Waited(Completion::Finalized("slate"))),
        (RelayAction::Return(Ok("slate")), None)
    ));
}

#[test]
fn slate_that_does_not_come_back_is_spoken_of() {
    let channel = EpicboxListenChannel::new().ok().unwrap();
    let mut waiting: Registry<u32> = Registry::new();
    let mut said = |event: RelayEvent<u32, ()>| {
        match channel.send_via_listener(&mut waiting, "me", "them", "1", event) {
            RelayAction::Return(result) => words(result),
            _ => panic!("it goes on"),
        }
    };
    assert_eq!(said(RelayEvent::NotFound { looks: 100 }), "Epicbox listener is not ready");
    assert_eq!(
        said(RelayEvent::Posted(Err(text("e")))),
        "Epicbox transaction 1 publish outcome is uncertain: e"
    );
    assert_eq!(
        said(RelayEvent::Waited(Completion::Failed(text("e")))),
        "Epicbox transaction 1 was published but finalization failed: e"
    );
    assert_eq!(
        said(RelayEvent::Waited(Completion::TimedOut)),
        "Epicbox transaction 1 was published and is awaiting finalization"
    );
    assert_eq!(
        said(RelayEvent::Waited(Completion::Disconnected)),
        "Epicbox transaction 1 was published but its completion channel closed unexpectedly"
    );
}

#[test]
fn slate_is_sent_over_a_connection_of_its_own() {
    let channel = EpicboxChannel::new(&text("them"), None).ok().unwrap();
    let mut waiting: Registry<u32> = Registry::new();
    let mut step = |event: SendEvent<u32, &'static str>| {
        let action = channel.send(&mut waiting, "1", event);
        (action, waiting.get("1").copied())
    };
    assert!(matches!(step(SendEvent::Begun(4)), (SendAction::Start, Some(4))));
    assert!(matches!(
        step(SendEvent::Started(Ok(()))),
        (SendAction::Publish { to }, Some(4)) if to == "them"
    ));
    assert!(matches!(
        step(SendEvent::Published(Ok(()))),
        (SendAction::LockOutputs { to }, Some(4)) if to == "them"
    ));
    assert!(matches!(step(SendEvent::Locked(Ok(()))), (SendAction::Wait, Some(4))));
    assert!(matches!(
        step(SendEvent::Waited(Completion::TimedOut)),
        (SendAction::Return(Err(Error::GenericError(said))), None)
            if said == "Epicbox transaction 1 was not finalized and accepted by the node within 90 seconds"
    ));
    step(SendEvent::Begun(4));
    assert!(matches!(
        step(SendEvent::Waited(Completion::Disconnected)),
        (SendAction::Return(Err(Error::GenericError(said))), None)
            if said == "Epicbox transaction 1 completion channel closed unexpectedly"
    ));
    step(SendEvent::Begun(4));
    assert!(matches!(
        step(SendEvent::Waited(Completion::Failed(text("e")))),
        (SendAction::Return(Err(Error::GenericError(said))), None) if said == "e"
    ));
    step(SendEvent::Begun(4));
    assert!(matches!(
        step(SendEvent::Started(Err(Error::Wallet(text("e"))))),
        (SendAction::Return(Err(Error::Wallet(_))), None)
    ));
    assert!(matches!(
        step(SendEvent::Waited(Completion::Finalized("slate"))),
        (SendAction::Return(Ok("slate")), None)
    ));
}

#[test]
fn failed_connection_comes_with_advice() {
    assert!(matches!(
        start_epicbox(&config(Some(true)), StartEvent::Addressed(Ok(address(Some(7))))),
        StartAction::Connect(url) if url == "ws://box.example:7"
    ));
    assert!(matches!(
        start_epicbox(&config(None), StartEvent::Connected),
        StartAction::Subscribe { wallet_mode } if wallet_mode == "send"
    ));
    assert!(matches!(
        start_epicbox(&config(None), StartEvent::ConnectFailed(text("e"))),
        StartAction::Fail(Error::EpicboxTungstenite(said)) if said
            == "\nCan't connect to the epicbox server!\nCheck your epic-wallet.toml settings and make sure epicbox domain is correct.\ne"
    ));
}

#[test]
fn channels_can_be_cloned() {
    let given = EpicboxConfig {
        epicbox_domain: Some(text("box.example")),
        epicbox_port: Some(7),
        epicbox_protocol_unsecure: Some(true),
    };
    let channel = EpicboxChannel::new(&text("them"), Some(given)).ok().unwrap().clone();
    assert_eq!(channel.dest, "them");
    let config = channel.epicbox_config.unwrap();
    assert_eq!(config.epicbox_domain, Some(text("box.example")));
    assert_eq!(config.epicbox_port, Some(7));
    assert_eq!(config.epicbox_protocol_unsecure, Some(true));
    let _listener = EpicboxListenChannel::new().ok().unwrap().clone();
}
