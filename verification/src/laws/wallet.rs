//! What is relied on when a wallet is opened.

use serde_json::Value;
use vstd::prelude::*;

use crate::json::Json;
use crate::laws::history::shows;
use crate::laws::request::{is_given, lemma_given, says};
use crate::laws::sending::lemma_sent_keys;
use crate::request::{default_fee, node_url, wallet_dir, wallet_seed_file_name, EpicRequest};
use crate::scan::restore_scan_marker;
use crate::wallet::{
    address_for, build_failure, config_file_name, ensure, ensure_payload, open_wallet, seed_dir_name,
    BuildStep, OpenAction, OpenEvent, Running, WalletOpening,
};

verus! {

/// A wallet is opened with the phrase and the password of the request, in its
/// directory and for its node. The phrase must hold more than white space; the
/// password must not be empty, and may be white space.
pub proof fn wallet_is_opened_with_phrase_and_password(
    req: EpicRequest,
    dir: String,
    node: String,
    res: Result<WalletOpening, String>,
)
    requires
        call_ensures(open_wallet, (&req,), res),
        call_ensures(wallet_dir, (&req,), dir),
        call_ensures(node_url, (&req,), node),
    ensures
        ({
            let has_password = req.password is Some && req.password->0@.len() > 0;
            &&& res is Ok <==> is_given(req.phrase) && has_password
            &&& !is_given(req.phrase) ==> (res matches Err(message) && message@
                == "Epic wallet phrase is required"@)
            &&& is_given(req.phrase) && !has_password ==> (res matches Err(message) && message@
                == "Epic wallet password is required"@)
        }),
        res matches Ok(opening) ==> {
            &&& opening.phrase@ == req.phrase->0@
            &&& opening.password@ == req.password->0@
            &&& opening.data_dir@ == dir@
            &&& opening.node_url@ == node@
        },
{
    lemma_given(req.phrase);
}

/// A wallet is built where it is kept and for its node; then the configuration
/// is made, and the wallet restored from its phrase, only where their files are
/// not there; and it is opened with its password.
pub proof fn wallet_is_restored_once(
    opening: WalletOpening,
    made: OpenAction,
    built: OpenAction,
    config_there: OpenAction,
    config_missing: OpenAction,
    config_created: OpenAction,
    seed_there: OpenAction,
    seed_missing: OpenAction,
    restored: OpenAction,
    opened: OpenAction,
)
    requires
        call_ensures(WalletOpening::proceed, (&opening, OpenEvent::DirectoryMade(Ok(()))), made),
        call_ensures(WalletOpening::proceed, (&opening, OpenEvent::Built(Ok(()))), built),
        call_ensures(WalletOpening::proceed, (&opening, OpenEvent::ConfigLooked(true)), config_there),
        call_ensures(
            WalletOpening::proceed,
            (&opening, OpenEvent::ConfigLooked(false)),
            config_missing,
        ),
        call_ensures(
            WalletOpening::proceed,
            (&opening, OpenEvent::ConfigCreated(Ok(()))),
            config_created,
        ),
        call_ensures(WalletOpening::proceed, (&opening, OpenEvent::SeedLooked(true)), seed_there),
        call_ensures(WalletOpening::proceed, (&opening, OpenEvent::SeedLooked(false)), seed_missing),
        call_ensures(WalletOpening::proceed, (&opening, OpenEvent::Restored(Ok(()))), restored),
        call_ensures(WalletOpening::proceed, (&opening, OpenEvent::Opened(Ok(()))), opened),
    ensures
        made matches OpenAction::Build { data_dir, node_url } && data_dir@ == opening.data_dir@
            && node_url@ == opening.node_url@,
        built is LookForConfig,
        config_there is LookForSeed,
        config_missing is CreateConfig,
        config_created is LookForSeed,
        seed_there matches OpenAction::Open { password } && password@ == opening.password@,
        seed_missing matches OpenAction::Restore { phrase, password } && phrase@
            == opening.phrase@ && password@ == opening.password@,
        restored matches OpenAction::Open { password } && password@ == opening.password@,
        opened == OpenAction::Return(Ok(())),
{
}

/// Whether opening has failed in these words.
pub open spec fn not_opened(res: OpenAction, words: Seq<char>) -> bool {
    res matches OpenAction::Return(Err(message)) && message@ == words
}

/// A step that fails ends the opening, in words that say which it was.
pub proof fn failed_step_ends_the_opening(
    opening: WalletOpening,
    reason: String,
    directory: OpenAction,
    built: OpenAction,
    config: OpenAction,
    restored: OpenAction,
    opened: OpenAction,
)
    requires
        call_ensures(
            WalletOpening::proceed,
            (&opening, OpenEvent::DirectoryMade(Err(reason))),
            directory,
        ),
        call_ensures(WalletOpening::proceed, (&opening, OpenEvent::Built(Err(reason))), built),
        call_ensures(
            WalletOpening::proceed,
            (&opening, OpenEvent::ConfigCreated(Err(reason))),
            config,
        ),
        call_ensures(WalletOpening::proceed, (&opening, OpenEvent::Restored(Err(reason))), restored),
        call_ensures(WalletOpening::proceed, (&opening, OpenEvent::Opened(Err(reason))), opened),
    ensures
        not_opened(directory, "Epic data directory create: "@ + reason@),
        not_opened(built, reason@),
        not_opened(config, "Epic config create: "@ + reason@),
        not_opened(restored, "Epic wallet restore: "@ + reason@),
        not_opened(opened, "Epic wallet open: "@ + reason@),
{
}

/// A step by which a wallet is built fails in words that say which it was.
pub proof fn failed_build_names_its_step(step: BuildStep, reason: &str, res: String)
    requires
        call_ensures(build_failure, (step, reason), res),
    ensures
        step is NodeClient ==> res@ == "Epic node client: "@ + reason@,
        step is Wallet ==> res@ == "Epic wallet init: "@ + reason@,
        step is Provider ==> res@ == "Epic lifecycle provider: "@ + reason@,
        step is Directory ==> res@ == "Epic data directory: "@ + reason@,
{
}

/// A wallet that was opened and not looked into is reported by its address,
/// without a balance and without transactions; a failure to find the address is
/// returned.
pub proof fn opened_wallet_is_reported_by_its_address(
    address: Result<String, String>,
    labelled: Result<String, String>,
    res: Result<String, String>,
    text: &str,
    payload: Value,
)
    requires
        call_ensures(address_for, (address,), labelled),
        call_ensures(ensure, (address,), res),
        call_ensures(ensure_payload, (text,), payload),
    ensures
        address matches Err(reason) ==> {
            &&& labelled matches Err(message) && message@ == "Epic address: "@ + reason@
            &&& res matches Err(message) && message@ == "Epic address: "@ + reason@
        },
        address matches Ok(found) ==> {
            &&& labelled matches Ok(same) && same@ == found@
            &&& res matches Ok(reply) && {
                &&& says(reply@, "ok"@, Json::Bool(true))
                &&& says(reply@, "code"@, Json::Text("epic-native-wallet"@))
                &&& says(reply@, "address"@, Json::Text(found@))
                &&& says(reply@, "balance"@, Json::Text("0"@))
                &&& says(reply@, "spendable"@, Json::Text("0"@))
                &&& says(reply@, "transactions"@, Json::Array(Seq::empty()))
            }
        },
        shows(payload, "code"@, Json::Text("epic-native-wallet"@)),
        shows(payload, "address"@, Json::Text(text@)),
        shows(payload, "balance"@, Json::Text("0"@)),
        shows(payload, "spendable"@, Json::Text("0"@)),
        shows(payload, "transactions"@, Json::Array(Seq::empty())),
{
    lemma_sent_keys();
}

/// The files of a wallet keep their names, so that a wallet is found again, and
/// the default fee is a hundredth.
pub proof fn files_keep_their_names(
    seed: String,
    config: &'static str,
    seed_dir: &'static str,
    marker: &'static str,
    fee: &'static str,
)
    requires
        call_ensures(wallet_seed_file_name, (), seed),
        call_ensures(config_file_name, (), config),
        call_ensures(seed_dir_name, (), seed_dir),
        call_ensures(restore_scan_marker, (), marker),
        call_ensures(default_fee, (), fee),
    ensures
        seed@ == "wallet.seed"@,
        config@ == "epic-wallet.toml"@,
        seed_dir@ == "wallet_data"@,
        marker@ == "altbase.restore-scan.done"@,
        fee@ == "0.01"@,
{
}

/// What runs beside a wallet is started once: it is to be started exactly where
/// it does not run for that wallet, runs from then on, and can be started again
/// only after it has stopped. Other wallets are not touched.
pub proof fn beside_a_wallet_runs_one(running: &mut Running, scope: &str, res: bool, other: Seq<char>)
    requires
        call_ensures(Running::start_once, (running, scope), res),
    ensures
        res <==> !old(running)@.contains(scope@),
        final(running)@.contains(scope@),
        other != scope@ ==> (final(running)@.contains(other) <==> old(running)@.contains(other)),
{
}

/// What has stopped does not run, and nothing runs at first.
pub proof fn stopped_does_not_run(
    fresh: Running,
    running: &mut Running,
    scope: &str,
    other: Seq<char>,
)
    requires
        call_ensures(Running::new, (), fresh),
        call_ensures(Running::stopped, (running, scope), ()),
    ensures
        !fresh@.contains(other),
        !final(running)@.contains(scope@),
        other != scope@ ==> (final(running)@.contains(other) <==> old(running)@.contains(other)),
{
}

} // verus!
