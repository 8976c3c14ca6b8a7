//! Opening a wallet, and what runs beside an open one.

use serde_json::Value;
use vstd::hash_set::StringHashSet;
use vstd::prelude::*;

use crate::json::{self, json, lemma_tabular, Json};
use crate::request::{
    asked_dir, asked_node, given, is_labelled, labelled, node_url, ok, ok_document, replies,
    required_text, wallet_dir, without_slashes, EpicRequest,
};
use crate::text::{chars_of, join};

verus! {

/// What a wallet is opened with.
pub struct WalletOpening {
    pub phrase: String,
    pub password: String,
    pub data_dir: String,
    pub node_url: String,
}

/// The password of a request, where it is there and not empty.
pub open spec fn given_password(req: EpicRequest) -> Option<Seq<char>> {
    match req.password {
        Some(text) => if text@.len() > 0 {
            Some(text@)
        } else {
            None
        },
        None => None,
    }
}

/// What the wallet of a request is opened with, or what the request lacks.
pub fn open_wallet(req: &EpicRequest) -> (res: Result<WalletOpening, String>)
    ensures
        match (given(req.phrase), given_password(*req)) {
            (None, _) => res matches Err(message) && message@ == "Epic wallet phrase is required"@,
            (Some(_), None) => res matches Err(message) && message@
                == "Epic wallet password is required"@,
            (Some(phrase), Some(password)) => {
                &&& res matches Ok(opening)
                &&& opening.phrase@ == phrase
                &&& opening.password@ == password
                &&& opening.data_dir@ == asked_dir(*req)
                &&& opening.node_url@ == without_slashes(asked_node(*req))
            },
        },
{
    let phrase = match required_text(&req.phrase, "Epic wallet phrase is required") {
        Ok(phrase) => phrase,
        Err(message) => {
            return Err(message);
        },
    };
    let password = match &req.password {
        Some(text) => if chars_of(text.as_str()).len() > 0 {
            text.clone()
        } else {
            return Err(String::from_str("Epic wallet password is required"));
        },
        None => {
            return Err(String::from_str("Epic wallet password is required"));
        },
    };
    Ok(WalletOpening { phrase, password, data_dir: wallet_dir(req), node_url: node_url(req) })
}

/// What happened while a wallet is opened.
pub enum OpenEvent {
    /// The directory was made, or the reason why not.
    DirectoryMade(Result<(), String>),
    /// The wallet was built, or the failure.
    Built(Result<(), String>),
    /// Whether there is a configuration file.
    ConfigLooked(bool),
    /// The configuration file was made, or the reason why not.
    ConfigCreated(Result<(), String>),
    /// Whether there is a seed file.
    SeedLooked(bool),
    /// The wallet was restored from its phrase, or the reason why not.
    Restored(Result<(), String>),
    /// The wallet was opened, or the reason why not.
    Opened(Result<(), String>),
}

/// What is to be done to open a wallet.
pub enum OpenAction {
    /// Build the wallet in this directory for this node.
    Build { data_dir: String, node_url: String },
    /// Look for the configuration file.
    LookForConfig,
    /// Make the configuration file.
    CreateConfig,
    /// Look for the seed file.
    LookForSeed,
    /// Restore the wallet from its phrase.
    Restore { phrase: String, password: String },
    /// Open the wallet.
    Open { password: String },
    /// Return.
    Return(Result<(), String>),
}

/// The name of the configuration file.
pub fn config_file_name() -> (res: &'static str)
    ensures
        res@ == "epic-wallet.toml"@,
{
    "epic-wallet.toml"
}

/// The directory of the seed file, under the directory of the wallet.
pub fn seed_dir_name() -> (res: &'static str)
    ensures
        res@ == "wallet_data"@,
{
    "wallet_data"
}

/// Whether `res` returns a failure: this label and this reason.
pub open spec fn returns_failure(res: OpenAction, label: Seq<char>, reason: Seq<char>) -> bool {
    res matches OpenAction::Return(Err(message)) && message@ == label + reason
}

fn fail(label: &str, reason: String) -> (res: OpenAction)
    ensures
        returns_failure(res, label@, reason@),
{
    OpenAction::Return(Err(join(label, reason.as_str())))
}

impl WalletOpening {
    /// Takes in what happened while the wallet is opened and says what is to be
    /// done. The configuration is made and the wallet restored only where
    /// their files are not there yet.
    pub fn proceed(&self, event: OpenEvent) -> (res: OpenAction)
        ensures
            match event {
                OpenEvent::DirectoryMade(Ok(_)) => res == (OpenAction::Build {
                    data_dir: self.data_dir,
                    node_url: self.node_url,
                }),
                OpenEvent::DirectoryMade(Err(reason)) => returns_failure(
                    res,
                    "Epic data directory create: "@,
                    reason@,
                ),
                OpenEvent::Built(Ok(_)) => res is LookForConfig,
                OpenEvent::Built(Err(message)) => res == OpenAction::Return(Err(message)),
                OpenEvent::ConfigLooked(there) => if there {
                    res is LookForSeed
                } else {
                    res is CreateConfig
                },
                OpenEvent::ConfigCreated(Ok(_)) => res is LookForSeed,
                OpenEvent::ConfigCreated(Err(reason)) => returns_failure(
                    res,
                    "Epic config create: "@,
                    reason@,
                ),
                OpenEvent::SeedLooked(there) => if there {
                    res == (OpenAction::Open { password: self.password })
                } else {
                    res == (OpenAction::Restore { phrase: self.phrase, password: self.password })
                },
                OpenEvent::Restored(Ok(_)) => res == (OpenAction::Open { password: self.password }),
                OpenEvent::Restored(Err(reason)) => returns_failure(
                    res,
                    "Epic wallet restore: "@,
                    reason@,
                ),
                OpenEvent::Opened(Ok(_)) => res == OpenAction::Return(Ok(())),
                OpenEvent::Opened(Err(reason)) => returns_failure(
                    res,
                    "Epic wallet open: "@,
                    reason@,
                ),
            },
    {
        match event {
            OpenEvent::DirectoryMade(Ok(())) => OpenAction::Build {
                data_dir: self.data_dir.clone(),
                node_url: self.node_url.clone(),
            },
            OpenEvent::DirectoryMade(Err(reason)) => fail("Epic data directory create: ", reason),
            OpenEvent::Built(Ok(())) => OpenAction::LookForConfig,
            OpenEvent::Built(Err(message)) => OpenAction::Return(Err(message)),
            OpenEvent::ConfigLooked(there) => if there {
                OpenAction::LookForSeed
            } else {
                OpenAction::CreateConfig
            },
            OpenEvent::ConfigCreated(Ok(())) => OpenAction::LookForSeed,
            OpenEvent::ConfigCreated(Err(reason)) => fail("Epic config create: ", reason),
            OpenEvent::SeedLooked(there) => if there {
                OpenAction::Open { password: self.password.clone() }
            } else {
                OpenAction::Restore {
                    phrase: self.phrase.clone(),
                    password: self.password.clone(),
                }
            },
            OpenEvent::Restored(Ok(())) => OpenAction::Open { password: self.password.clone() },
            OpenEvent::Restored(Err(reason)) => fail("Epic wallet restore: ", reason),
            OpenEvent::Opened(Ok(())) => OpenAction::Return(Ok(())),
            OpenEvent::Opened(Err(reason)) => fail("Epic wallet open: ", reason),
        }
    }
}

/// The steps by which a wallet is built.
#[derive(Copy, Clone)]
pub enum BuildStep {
    NodeClient,
    Wallet,
    Provider,
    Directory,
}

/// What comes before the reason for which a step failed.
pub open spec fn build_label(step: BuildStep) -> Seq<char> {
    match step {
        BuildStep::NodeClient => "Epic node client: "@,
        BuildStep::Wallet => "Epic wallet init: "@,
        BuildStep::Provider => "Epic lifecycle provider: "@,
        BuildStep::Directory => "Epic data directory: "@,
    }
}

/// The failure of a step by which a wallet is built.
pub fn build_failure(step: BuildStep, reason: &str) -> (res: String)
    ensures
        res@ == build_label(step) + reason@,
{
    let label = match step {
        BuildStep::NodeClient => "Epic node client: ",
        BuildStep::Wallet => "Epic wallet init: ",
        BuildStep::Provider => "Epic lifecycle provider: ",
        BuildStep::Directory => "Epic data directory: ",
    };
    join(label, reason)
}

/// The wallets for which something is running.
pub struct Running {
    scopes: StringHashSet,
}

impl View for Running {
    type V = Set<Seq<char>>;

    closed spec fn view(&self) -> Set<Seq<char>> {
        self.scopes@
    }
}

impl Running {
    /// It is running for no wallet.
    pub fn new() -> (res: Self)
        ensures
            res@ == Set::<Seq<char>>::empty(),
    {
        Running { scopes: StringHashSet::new() }
    }

    /// Whether it is to be started for a wallet: it is, and counts as running
    /// from then on, unless it is running.
    pub fn start_once(&mut self, scope: &str) -> (res: bool)
        ensures
            res == !old(self)@.contains(scope@),
            final(self)@ == old(self)@.insert(scope@),
    {
        self.scopes.insert(String::from_str(scope))
    }

    /// Takes in that it no longer runs for a wallet.
    pub fn stopped(&mut self, scope: &str)
        ensures
            final(self)@ == old(self)@.remove(scope@),
    {
        let _ = self.scopes.remove(scope);
    }
}

/// What was started for a wallet is not started again before it has stopped,
/// and can be after that; nothing changes for another wallet.
pub proof fn started_until_stopped(running: Set<Seq<char>>, scope: Seq<char>, other: Seq<char>)
    ensures
        running.insert(scope).contains(scope),
        !running.insert(scope).remove(scope).contains(scope),
        other != scope ==> (running.insert(scope).contains(other) <==> running.contains(other)),
        other != scope ==> (running.remove(scope).contains(other) <==> running.contains(other)),
{
}

/// The address of the wallet, or the failure.
pub fn address_for(result: Result<String, String>) -> (res: Result<String, String>)
    ensures
        is_labelled("Epic address: "@, result, res),
{
    labelled("Epic address: ", result)
}

/// What is reported of a wallet that was opened and not looked into.
pub open spec fn ensure_document(address: Seq<char>) -> Json {
    Json::Object(
        map![
            "code"@ => Json::Text("epic-native-wallet"@),
            "address"@ => Json::Text(address),
            "balance"@ => Json::Text("0"@),
            "spendable"@ => Json::Text("0"@),
            "transactions"@ => Json::Array(Seq::empty()),
        ],
    )
}

/// What is reported of a wallet that was opened and not looked into.
pub fn ensure_payload(address: &str) -> (res: Value)
    ensures
        json(res) == ensure_document(address@),
{
    let mut payload = json::null();
    json::set(&mut payload, "code", json::string("epic-native-wallet"));
    json::set(&mut payload, "address", json::string(address));
    json::set(&mut payload, "balance", json::string("0"));
    json::set(&mut payload, "spendable", json::string("0"));
    let none: Vec<Value> = Vec::new();
    assert(none@.map_values(|item: Value| json(item)) =~= Seq::<Json>::empty());
    json::set(&mut payload, "transactions", json::array(none));
    payload
}

/// The reply to a request that opens the wallet; `address` is the address, or the failure.
pub fn ensure(address: Result<String, String>) -> (res: Result<String, String>)
    ensures
        match address {
            Ok(found) => res matches Ok(reply) && replies(
                reply@,
                ok_document(ensure_document(found@)),
            ),
            Err(reason) => res matches Err(message) && message@ == "Epic address: "@ + reason@,
        },
{
    match address_for(address) {
        Ok(found) => {
            proof {
                lemma_tabular(ok_document(ensure_document(found@)));
            }
            Ok(ok(ensure_payload(found.as_str())))
        },
        Err(message) => Err(message),
    }
}

} // verus!
