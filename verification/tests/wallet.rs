use altbase_epic::request::EpicRequest;
use altbase_epic::wallet::{
    address_for, build_failure, config_file_name, ensure, open_wallet, seed_dir_name, BuildStep,
    OpenAction, OpenEvent, Running, WalletOpening,
};
use serde_json::Value;

fn request(phrase: Option<&str>, password: Option<&str>) -> EpicRequest {
    EpicRequest {
        action: "ensure".to_string(),
        phrase: phrase.map(|text| text.to_string()),
        password: password.map(|text| text.to_string()),
        data_dir: None,
        node_url: Some("https://node.example/".to_string()),
        restore_start_height: None,
        to: None,
        amount: None,
        fee: None,
        send_max: None,
        memo: None,
        address: None,
        slate: None,
    }
}

fn opening() -> WalletOpening {
    open_wallet(&request(Some("words"), Some("secret"))).ok().unwrap()
}

fn failure(action: OpenAction) -> String {
    match action {
        OpenAction::Return(Err(message)) => message,
        _ => panic!("it goes on"),
    }
}

#[test]
fn phrase_and_password_are_required() {
    for phrase in [None, Some(""), Some(" \n")] {
        assert_eq!(
            open_wallet(&request(phrase, None)).err().unwrap(),
            "Epic wallet phrase is required"
        );
    }
    for password in [None, Some("")] {
        assert_eq!(
            open_wallet(&request(Some("words"), password)).err().unwrap(),
            "Epic wallet password is required"
        );
    }
    let opened = open_wallet(&request(Some(" words "), Some(" "))).ok().unwrap();
    assert_eq!(opened.phrase, " words ");
    assert_eq!(opened.password, " ");
    assert_eq!(opened.data_dir, "epic-light");
    assert_eq!(opened.node_url, "https://node.example");
}

#[test]
fn new_wallet_is_configured_and_restored() {
    let opening = opening();
    assert!(matches!(
        opening.proceed(OpenEvent::DirectoryMade(Ok(()))),
        OpenAction::Build { data_dir, node_url }
            if data_dir == "epic-light" && node_url == "https://node.example"
    ));
    assert!(matches!(opening.proceed(OpenEvent::Built(Ok(()))), OpenAction::LookForConfig));
    assert!(matches!(opening.proceed(OpenEvent::ConfigLooked(false)), OpenAction::CreateConfig));
    assert!(matches!(opening.proceed(OpenEvent::ConfigCreated(Ok(()))), OpenAction::LookForSeed));
    assert!(matches!(
        opening.proceed(OpenEvent::SeedLooked(false)),
        OpenAction::Restore { phrase, password } if phrase == "words" && password == "secret"
    ));
    assert!(matches!(
        opening.proceed(OpenEvent::Restored(Ok(()))),
        OpenAction::Open { password } if password == "secret"
    ));
    assert!(matches!(opening.proceed(OpenEvent::Opened(Ok(()))), OpenAction::Return(Ok(()))));
}

#[test]
fn known_wallet_is_opened() {
    let opening = opening();
    assert!(matches!(opening.proceed(OpenEvent::ConfigLooked(true)), OpenAction::LookForSeed));
    assert!(matches!(
        opening.proceed(OpenEvent::SeedLooked(true)),
        OpenAction::Open { password } if password == "secret"
    ));
}

#[test]
fn each_step_of_opening_has_its_label() {
    let opening = opening();
    let bad = || Err("e".to_string());
    for (event, words) in [
        (OpenEvent::DirectoryMade(bad()), "Epic data directory create: e"),
        (OpenEvent::Built(bad()), "e"),
        (OpenEvent::ConfigCreated(bad()), "Epic config create: e"),
        (OpenEvent::Restored(bad()), "Epic wallet restore: e"),
        (OpenEvent::Opened(bad()), "Epic wallet open: e"),
    ] {
        assert_eq!(failure(opening.proceed(event)), words);
    }
    for (step, words) in [
        (BuildStep::NodeClient, "Epic node client: e"),
        (BuildStep::Wallet, "Epic wallet init: e"),
        (BuildStep::Provider, "Epic lifecycle provider: e"),
        (BuildStep::Directory, "Epic data directory: e"),
    ] {
        assert_eq!(build_failure(step, "e"), words);
    }
}

#[test]
fn files_have_names() {
    assert_eq!(config_file_name(), "epic-wallet.toml");
    assert_eq!(seed_dir_name(), "wallet_data");
}

#[test]
fn nothing_is_started_twice() {
    let mut running = Running::new();
    assert!(running.start_once("one"));
    assert!(!running.start_once("one"));
    assert!(running.start_once("two"));
    running.stopped("one");
    assert!(running.start_once("one"));
    assert!(!running.start_once("two"));
}

#[test]
fn opened_wallet_is_reported_with_its_address() {
    let reply = ensure(Ok("me".to_string())).unwrap();
    let reply: Value = serde_json::from_str(&reply).unwrap();
    assert_eq!(reply["ok"], true);
    assert_eq!(reply["code"], "epic-native-wallet");
    assert_eq!(reply["address"], "me");
    assert_eq!(reply["balance"], "0");
    assert_eq!(reply["spendable"], "0");
    assert_eq!(reply["transactions"].as_array().unwrap().len(), 0);
    assert_eq!(ensure(Err("e".to_string())), Err("Epic address: e".to_string()));
    assert_eq!(address_for(Ok("me".to_string())), Ok("me".to_string()));
}
