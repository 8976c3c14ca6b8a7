use altbase_epic::request::{
    c_string, default_fee, dispatch, err, handle, node_url, ok, request_bool, request_ffi,
    requested_fee, requested_or_default_fee, wallet_dir, wallet_reply, wallet_seed_file_name,
    Action, EpicRequest, Features, RawText,
};
use serde_json::Value;

fn request(action: &str) -> EpicRequest {
    EpicRequest {
        action: action.to_string(),
        phrase: None,
        password: None,
        data_dir: None,
        node_url: None,
        restore_start_height: None,
        to: None,
        amount: None,
        fee: None,
        send_max: None,
        memo: None,
        address: None,
        slate: None,
    }
}

fn no_features() -> Features {
    Features {
        snapshot: false,
        send: false,
        transport_client: false,
        transport_server: false,
        send_prepare: false,
        send_publish: false,
    }
}

fn read(text: &str) -> Value {
    serde_json::from_str(text).unwrap()
}

#[test]
fn directory_and_node_have_defaults() {
    let mut req = request("ensure");
    assert_eq!(wallet_dir(&req), "epic-light");
    assert_eq!(node_url(&req), "https://api.altbase.io");
    req.data_dir = Some("  ".to_string());
    req.node_url = Some("\t".to_string());
    assert_eq!(wallet_dir(&req), "epic-light");
    assert_eq!(node_url(&req), "https://api.altbase.io");
    req.data_dir = Some(" wallets/one ".to_string());
    req.node_url = Some("https://node.example///".to_string());
    assert_eq!(wallet_dir(&req), " wallets/one ");
    assert_eq!(node_url(&req), "https://node.example");
    req.node_url = Some("//".to_string());
    assert_eq!(node_url(&req), "");
    assert_eq!(wallet_seed_file_name(), "wallet.seed");
}

#[test]
fn yes_is_said_in_three_ways() {
    for text in ["true", " TRUE ", "1", "Yes", "yEs\n"] {
        assert!(request_bool(Some(text)), "{text:?}");
    }
    for text in ["", "no", "0", "true1", "y", "on"] {
        assert!(!request_bool(Some(text)), "{text:?}");
    }
    assert!(!request_bool(None));
}

#[test]
fn fee_of_zero_counts_as_none() {
    let mut req = request("send");
    assert_eq!(requested_fee(&req), None);
    req.fee = Some(" ".to_string());
    assert_eq!(requested_fee(&req), None);
    req.fee = Some("0.02".to_string());
    assert_eq!(requested_fee(&req), Some("0.02".to_string()));
    assert_eq!(default_fee(), "0.01");
    assert_eq!(requested_or_default_fee(Some(Ok(2)), Ok(1)), Ok(2));
    assert_eq!(requested_or_default_fee(Some(Ok(0)), Ok(1)), Ok(1));
    assert_eq!(requested_or_default_fee(None, Ok(1)), Ok(1));
    assert_eq!(
        requested_or_default_fee(Some(Err("bad".to_string())), Ok(1)),
        Err("Epic fee: bad".to_string())
    );
    assert_eq!(
        requested_or_default_fee(None, Err("bad".to_string())),
        Err("Epic default fee: bad".to_string())
    );
}

#[test]
fn replies_are_json_objects() {
    let mut payload = Value::Null;
    payload["code"] = Value::from("x");
    assert_eq!(ok(payload), "{\"code\":\"x\",\"ok\":true}");
    assert_eq!(
        err("some-code", "a \"quoted\"\u{0}text"),
        "{\"code\":\"some-code\",\"error\":\"a \\\"quoted\\\"\\u0000text\",\"ok\":false}"
    );
}

#[test]
fn replies_over_the_c_interface_hold_no_nul() {
    assert_eq!(c_string("fine".to_string()), "fine");
    let reply = read(&c_string("not\u{0}fine".to_string()));
    assert_eq!(reply["ok"], false);
    assert_eq!(reply["code"], "epic-native-nul");
    assert_eq!(reply["error"], "response contained NUL");
}

#[test]
fn text_must_come_in_over_the_c_interface() {
    let reply = read(&request_ffi(RawText::Missing).unwrap_err());
    assert_eq!(reply["code"], "epic-native-null-request");
    assert_eq!(reply["error"], "request pointer is null");
    let reply = read(&request_ffi(RawText::NotText("invalid utf-8".to_string())).unwrap_err());
    assert_eq!(reply["code"], "epic-native-utf8-request");
    assert_eq!(reply["error"], "invalid utf-8");
    assert_eq!(request_ffi(RawText::Text("{}".to_string())), Ok("{}".to_string()));
}

#[test]
fn actions_depend_on_what_was_built() {
    let none = no_features();
    assert_eq!(dispatch("ensure", &none), Some(Action::Ensure));
    for action in ["snapshot", "send", "listen", "publish", "", "Ensure"] {
        assert_eq!(dispatch(action, &none), None, "{action:?}");
    }
    let snapshot = Features { snapshot: true, ..no_features() };
    assert_eq!(dispatch("snapshot", &snapshot), Some(Action::Snapshot));
    let server = Features { transport_server: true, ..no_features() };
    assert_eq!(dispatch("listen", &server), Some(Action::Ensure));
    assert_eq!(dispatch("publish", &server), Some(Action::Publish));
    let all = Features {
        snapshot: true,
        send: true,
        transport_client: true,
        transport_server: true,
        send_prepare: true,
        send_publish: true,
    };
    assert_eq!(dispatch("send", &all), Some(Action::Send));
    let client = Features { send: false, ..all };
    assert_eq!(dispatch("send", &client), Some(Action::SendWithTransport));
    let prepare = Features { transport_client: false, ..client };
    assert_eq!(dispatch("send", &prepare), Some(Action::SendPrepareProbe));
    let publish = Features { send_prepare: false, ..prepare };
    assert_eq!(dispatch("send", &publish), Some(Action::SendPublishProbe));
}

#[test]
fn requests_that_cannot_be_carried_out_are_answered() {
    let reply = read(&handle(Err("missing field".to_string()), &no_features()).err().unwrap());
    assert_eq!(reply["code"], "epic-native-bad-request");
    assert_eq!(reply["error"], "missing field");
    let reply = read(&handle(Ok(request("send")), &no_features()).err().unwrap());
    assert_eq!(reply["code"], "epic-native-bad-action");
    assert_eq!(reply["error"], "Unsupported Epic action");
    let (req, action) = handle(Ok(request("ensure")), &no_features()).ok().unwrap();
    assert_eq!(req.action, "ensure");
    assert_eq!(action, Action::Ensure);
}

#[test]
fn wallet_errors_are_replies() {
    assert_eq!(wallet_reply(Ok("done".to_string())), "done");
    let reply = read(&wallet_reply(Err("Amount is required".to_string())));
    assert_eq!(reply["ok"], false);
    assert_eq!(reply["code"], "epic-native-wallet-error");
    assert_eq!(reply["error"], "Amount is required");
}
