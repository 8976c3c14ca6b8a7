//! Requests to the wallet and the replies to them.

use vstd::prelude::*;

use serde_json::Value;

use crate::json::{
    self, extensible, json, json_text, lemma_tabular, members, reads_as, rereadable, Json,
};
use crate::text::{
    blank, chars_of, is_blank, join, lower_text, lowered, same_text, string_of, trim, trimmed,
};

verus! {

/// A request to the wallet.
pub struct EpicRequest {
    pub action: String,
    pub phrase: Option<String>,
    pub password: Option<String>,
    pub data_dir: Option<String>,
    pub node_url: Option<String>,
    pub restore_start_height: Option<u64>,
    pub to: Option<String>,
    pub amount: Option<String>,
    pub fee: Option<String>,
    pub send_max: Option<String>,
    pub memo: Option<String>,
    pub address: Option<String>,
    pub slate: Option<Value>,
}

/// The text of a field, where it is there and holds more than white space.
pub open spec fn given(value: Option<String>) -> Option<Seq<char>> {
    match value {
        Some(text) => if blank(text@) {
            None
        } else {
            Some(text@)
        },
        None => None,
    }
}

/// The text of a field, where it is there and holds more than white space.
pub fn given_text(value: &Option<String>) -> (res: Option<String>)
    ensures
        match res {
            Some(text) => given(*value) == Some(text@),
            None => given(*value) is None,
        },
{
    match value {
        Some(text) => if is_blank(text.as_str()) {
            None
        } else {
            Some(text.clone())
        },
        None => None,
    }
}

/// Whether `res` is the text that was given, or the refusal in these words where none was.
pub open spec fn required(value: Option<Seq<char>>, words: Seq<char>, res: Result<String, String>) -> bool {
    match value {
        Some(text) => res matches Ok(found) && found@ == text,
        None => res matches Err(message) && message@ == words,
    }
}

/// The text of a field that must be there, or the refusal in these words.
pub fn required_text(value: &Option<String>, words: &str) -> (res: Result<String, String>)
    ensures
        required(given(*value), words@, res),
{
    match given_text(value) {
        Some(text) => Ok(text),
        None => Err(String::from_str(words)),
    }
}

/// Whether `res` is `result`, with `label` before the text of an error.
pub open spec fn is_labelled<T>(label: Seq<char>, result: Result<T, String>, res: Result<T, String>) -> bool {
    match result {
        Ok(value) => res == Ok::<T, String>(value),
        Err(error) => res matches Err(message) && message@ == label + error@,
    }
}

/// `result`, with `label` before the text of an error.
pub fn labelled<T>(label: &str, result: Result<T, String>) -> (res: Result<T, String>)
    ensures
        is_labelled(label@, result, res),
{
    match result {
        Ok(value) => Ok(value),
        Err(error) => Err(join(label, error.as_str())),
    }
}

/// The directory that a request asks for, or the usual one.
pub open spec fn asked_dir(req: EpicRequest) -> Seq<char> {
    match given(req.data_dir) {
        Some(dir) => dir,
        None => "epic-light"@,
    }
}

/// The directory that the wallet is kept in.
pub fn wallet_dir(req: &EpicRequest) -> (res: String)
    ensures
        res@ == asked_dir(*req),
{
    match given_text(&req.data_dir) {
        Some(dir) => dir,
        None => String::from_str("epic-light"),
    }
}

/// The name of the file that the seed is kept in.
pub fn wallet_seed_file_name() -> (res: String)
    ensures
        res@ == "wallet.seed"@,
{
    String::from_str("wallet.seed")
}

/// `url` without the slashes at its end.
pub open spec fn without_slashes(url: Seq<char>) -> Seq<char>
    decreases url.len(),
{
    if url.len() > 0 && url.last() == '/' {
        without_slashes(url.drop_last())
    } else {
        url
    }
}

/// The node that a request asks for, or the usual one.
pub open spec fn asked_node(req: EpicRequest) -> Seq<char> {
    match given(req.node_url) {
        Some(url) => url,
        None => "https://api.altbase.io"@,
    }
}

/// The URL of the node, without slashes at its end.
pub fn node_url(req: &EpicRequest) -> (res: String)
    ensures
        res@ == without_slashes(asked_node(*req)),
{
    let url = match given_text(&req.node_url) {
        Some(url) => url,
        None => String::from_str("https://api.altbase.io"),
    };
    let mut chars = chars_of(url.as_str());
    let ghost whole = chars@;
    while chars.len() > 0 && chars[chars.len() - 1] == '/'
        invariant
            without_slashes(whole) == without_slashes(chars@),
        decreases chars@.len(),
    {
        let _ = chars.pop();
    }
    string_of(chars.as_slice())
}

/// Whether a text means yes: `true`, `1` or `yes`, in any case, with white space around it or not.
pub open spec fn means_yes(text: Seq<char>) -> bool {
    let word = lowered(trimmed(text));
    word == "true"@ || word == "1"@ || word == "yes"@
}

/// Whether a field is there and says yes.
pub open spec fn says_yes(value: Option<&str>) -> bool {
    match value {
        Some(text) => means_yes(text@),
        None => false,
    }
}

/// Whether a field says yes.
pub fn request_bool(value: Option<&str>) -> (res: bool)
    ensures
        res == says_yes(value),
{
    match value {
        Some(text) => {
            let core = trim(&chars_of(text));
            let word = lower_text(string_of(core.as_slice()).as_str());
            same_text(word.as_str(), "true") || same_text(word.as_str(), "1") || same_text(
                word.as_str(),
                "yes",
            )
        },
        None => false,
    }
}

/// The fee that a request asks for, as text.
pub fn requested_fee(req: &EpicRequest) -> (res: Option<String>)
    ensures
        match res {
            Some(text) => given(req.fee) == Some(text@),
            None => given(req.fee) is None,
        },
{
    given_text(&req.fee)
}

/// The fee where none is asked for, as text.
pub fn default_fee() -> (res: &'static str)
    ensures
        res@ == "0.01"@,
{
    "0.01"
}

/// The fee that a request asks for: `requested` is what its text was read as,
/// where there was one, and `default` what the default was read as. A fee of
/// zero counts as none.
pub fn requested_or_default_fee(
    requested: Option<Result<u64, String>>,
    default: Result<u64, String>,
) -> (res: Result<u64, String>)
    ensures
        match requested {
            Some(Err(error)) => res matches Err(message) && message@ == "Epic fee: "@ + error@,
            Some(Ok(fee)) => if fee > 0 {
                res == Ok::<u64, String>(fee)
            } else {
                is_labelled("Epic default fee: "@, default, res)
            },
            None => is_labelled("Epic default fee: "@, default, res),
        },
{
    if let Some(read) = requested {
        match read {
            Ok(fee) => if fee > 0 {
                return Ok(fee);
            },
            Err(error) => {
                return Err(join("Epic fee: ", error.as_str()));
            },
        }
    }
    labelled("Epic default fee: ", default)
}

/// The JSON string of a text, or `null`.
pub open spec fn optional_text(value: Option<String>) -> Json {
    match value {
        Some(text) => Json::Text(text@),
        None => Json::Null,
    }
}

/// The JSON string of a text, or `null`.
pub fn text_or_null(value: &Option<String>) -> (res: Value)
    ensures
        json(res) == optional_text(*value),
{
    match value {
        Some(text) => json::string(text.as_str()),
        None => json::null(),
    }
}

/// The JSON number, or `null`.
pub open spec fn optional_number(value: Option<u64>) -> Json {
    match value {
        Some(number) => Json::Integer(number as int),
        None => Json::Null,
    }
}

/// The JSON number, or `null`.
pub fn number_or_null(value: Option<u64>) -> (res: Value)
    ensures
        json(res) == optional_number(value),
{
    match value {
        Some(number) => json::unsigned(number),
        None => json::null(),
    }
}

/// A payload that says that it is a success.
pub open spec fn ok_document(payload: Json) -> Json {
    Json::Object(members(payload).insert("ok"@, Json::Bool(true)))
}

/// Marks a payload as a success.
pub fn ok_payload(payload: Value) -> (res: Value)
    requires
        extensible(json(payload)),
    ensures
        json(res) == ok_document(json(payload)),
{
    let mut res = payload;
    json::set(&mut res, "ok", json::boolean(true));
    res
}

/// Whether `text` is the reply that holds `document`: its compact text, without
/// a NUL, and what reads back as the document.
pub open spec fn replies(text: Seq<char>, document: Json) -> bool {
    &&& text == json_text(document)
    &&& !text.contains('\0')
    &&& reads_as(text, document)
}

/// The reply for a success.
pub fn ok(payload: Value) -> (res: String)
    requires
        extensible(json(payload)),
    ensures
        res@ == json_text(ok_document(json(payload))),
        !res@.contains('\0'),
        rereadable(ok_document(json(payload))) ==> replies(res@, ok_document(json(payload))),
{
    json::render(&ok_payload(payload))
}

/// A payload that says that it is a failure, and why.
pub open spec fn err_document(code: Seq<char>, message: Seq<char>) -> Json {
    Json::Object(
        map![
            "ok"@ => Json::Bool(false),
            "code"@ => Json::Text(code),
            "error"@ => Json::Text(message),
        ],
    )
}

/// The payload for a failure.
pub fn err_payload(code: &str, message: &str) -> (res: Value)
    ensures
        json(res) == err_document(code@, message@),
{
    let mut res = json::null();
    json::set(&mut res, "ok", json::boolean(false));
    json::set(&mut res, "code", json::string(code));
    json::set(&mut res, "error", json::string(message));
    res
}

/// The reply for a failure.
pub fn err(code: &str, message: &str) -> (res: String)
    ensures
        replies(res@, err_document(code@, message@)),
{
    proof {
        lemma_tabular(err_document(code@, message@));
    }
    json::render(&err_payload(code, message))
}

/// The text that goes back over the C interface: `text`, unless it holds a NUL.
pub fn c_string(text: String) -> (res: String)
    ensures
        !res@.contains('\0'),
        if text@.contains('\0') {
            replies(res@, err_document("epic-native-nul"@, "response contained NUL"@))
        } else {
            res == text
        },
{
    let chars = chars_of(text.as_str());
    let mut i: usize = 0;
    while i < chars.len()
        invariant
            chars@ == text@,
            i <= chars@.len(),
            forall|j: int| 0 <= j < i ==> chars@[j] != '\0',
        decreases chars@.len() - i,
    {
        if chars[i] == '\0' {
            assert(text@[i as int] == '\0');
            return err("epic-native-nul", "response contained NUL");
        }
        i = i + 1;
    }
    text
}

/// Text that comes in over the C interface.
pub enum RawText {
    /// A null pointer.
    Missing,
    /// Bytes that are not text, with the reason.
    NotText(String),
    /// Text.
    Text(String),
}

/// The text of a request, or the reply where there is none.
pub fn request_ffi(input: RawText) -> (res: Result<String, String>)
    ensures
        match input {
            RawText::Missing => res matches Err(reply) && replies(
                reply@,
                err_document("epic-native-null-request"@, "request pointer is null"@),
            ),
            RawText::NotText(reason) => res matches Err(reply) && replies(
                reply@,
                err_document("epic-native-utf8-request"@, reason@),
            ),
            RawText::Text(text) => res == Ok::<String, String>(text),
        },
{
    match input {
        RawText::Missing => Err(err("epic-native-null-request", "request pointer is null")),
        RawText::NotText(reason) => Err(err("epic-native-utf8-request", reason.as_str())),
        RawText::Text(text) => Ok(text),
    }
}

/// What the library was built to do.
pub struct Features {
    pub snapshot: bool,
    pub send: bool,
    pub transport_client: bool,
    pub transport_server: bool,
    pub send_prepare: bool,
    pub send_publish: bool,
}

/// What a request asks for.
#[derive(Copy, Clone, PartialEq, Eq, Debug, Structural)]
pub enum Action {
    /// Open the wallet.
    Ensure,
    /// Report balance and transactions.
    Snapshot,
    /// Send over an epicbox connection of its own.
    Send,
    /// Send over the transport library.
    SendWithTransport,
    /// Prepare a transaction and send nothing.
    SendPrepareProbe,
    /// Send an empty slate.
    SendPublishProbe,
    /// Publish a slate through the listener.
    Publish,
}

/// What the library does for an action, if it was built to do it.
pub open spec fn action_for(action: Seq<char>, features: Features) -> Option<Action> {
    if action == "ensure"@ {
        Some(Action::Ensure)
    } else if action == "snapshot"@ && features.snapshot {
        Some(Action::Snapshot)
    } else if action == "send"@ && features.send {
        Some(Action::Send)
    } else if action == "send"@ && features.transport_client {
        Some(Action::SendWithTransport)
    } else if action == "send"@ && features.send_prepare {
        Some(Action::SendPrepareProbe)
    } else if action == "send"@ && features.send_publish {
        Some(Action::SendPublishProbe)
    } else if action == "listen"@ && features.transport_server {
        Some(Action::Ensure)
    } else if action == "publish"@ && features.transport_server {
        Some(Action::Publish)
    } else {
        None
    }
}

/// What the library does for an action, if it was built to do it.
pub fn dispatch(action: &str, features: &Features) -> (res: Option<Action>)
    ensures
        res == action_for(action@, *features),
{
    if same_text(action, "ensure") {
        Some(Action::Ensure)
    } else if features.snapshot && same_text(action, "snapshot") {
        Some(Action::Snapshot)
    } else if features.send && same_text(action, "send") {
        Some(Action::Send)
    } else if features.transport_client && same_text(action, "send") {
        Some(Action::SendWithTransport)
    } else if features.send_prepare && same_text(action, "send") {
        Some(Action::SendPrepareProbe)
    } else if features.send_publish && same_text(action, "send") {
        Some(Action::SendPublishProbe)
    } else if features.transport_server && same_text(action, "listen") {
        Some(Action::Ensure)
    } else if features.transport_server && same_text(action, "publish") {
        Some(Action::Publish)
    } else {
        None
    }
}

/// The request with what is to be done about it, or the reply where it cannot
/// be read or asks for something that the library does not do.
pub fn handle(read: Result<EpicRequest, String>, features: &Features) -> (res: Result<
    (EpicRequest, Action),
    String,
>)
    ensures
        match read {
            Err(reason) => res matches Err(reply) && replies(
                reply@,
                err_document("epic-native-bad-request"@, reason@),
            ),
            Ok(req) => match action_for(req.action@, *features) {
                Some(action) => res == Ok::<(EpicRequest, Action), String>((req, action)),
                None => res matches Err(reply) && replies(
                    reply@,
                    err_document("epic-native-bad-action"@, "Unsupported Epic action"@),
                ),
            },
        },
{
    match read {
        Err(reason) => Err(err("epic-native-bad-request", reason.as_str())),
        Ok(req) => match dispatch(req.action.as_str(), features) {
            Some(action) => Ok((req, action)),
            None => Err(err("epic-native-bad-action", "Unsupported Epic action")),
        },
    }
}

/// The reply to a request that the wallet has carried out or not.
pub fn wallet_reply(result: Result<String, String>) -> (res: String)
    ensures
        match result {
            Ok(reply) => res == reply,
            Err(message) => replies(res@, err_document("epic-native-wallet-error"@, message@)),
        },
{
    match result {
        Ok(reply) => reply,
        Err(message) => err("epic-native-wallet-error", message.as_str()),
    }
}

} // verus!
