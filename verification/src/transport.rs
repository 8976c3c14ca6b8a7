//! Sending through the transport library: what the two sides say to each other.

use serde_json::Value;
use vstd::prelude::*;

use crate::epicbox::channel::{
    awaiting_finalization, completion_lost, finalization_failed, listener_not_ready,
    outcome_uncertain,
};
use crate::json::{
    self, json, json_parsed, json_text, lemma_tabular, member, members, nests, reads_as, rereadable,
    Json,
};
use crate::request::{
    err_document, given, number_or_null, ok, ok_document, optional_number, optional_text,
    replies, required_text, text_or_null, EpicRequest, RawText,
};
use crate::sending::{rollback_message, rolled_back, set_nothing, Rollback, SentTexts};
use crate::text::{contains, contains_text, join, lemma_contains_middle, occurs_at, same_text};

verus! {

/// A request to the transport library that speaks of the same wallet.
pub open spec fn wallet_document(req: EpicRequest, action: Seq<char>) -> Json {
    Json::Object(
        map![
            "action"@ => Json::Text(action),
            "phrase"@ => optional_text(req.phrase),
            "password"@ => optional_text(req.password),
            "dataDir"@ => optional_text(req.data_dir),
            "nodeUrl"@ => optional_text(req.node_url),
            "restoreStartHeight"@ => optional_number(req.restore_start_height),
        ],
    )
}

/// A request to the transport library that speaks of the same wallet.
pub fn transport_wallet_payload(req: &EpicRequest, action: &str) -> (res: Value)
    ensures
        json(res) == wallet_document(*req, action@),
{
    let mut payload = json::null();
    json::set(&mut payload, "action", json::string(action));
    json::set(&mut payload, "phrase", text_or_null(&req.phrase));
    json::set(&mut payload, "password", text_or_null(&req.password));
    json::set(&mut payload, "dataDir", text_or_null(&req.data_dir));
    json::set(&mut payload, "nodeUrl", text_or_null(&req.node_url));
    json::set(&mut payload, "restoreStartHeight", number_or_null(req.restore_start_height));
    payload
}

/// A request to the transport library to publish a slate.
pub open spec fn publish_document(
    req: EpicRequest,
    address: Seq<char>,
    to: Seq<char>,
    slate: Json,
) -> Json {
    Json::Object(
        members(wallet_document(req, "publish"@)).insert("address"@, Json::Text(address)).insert(
            "to"@,
            Json::Text(to),
        ).insert("slate"@, slate),
    )
}

/// A request to the transport library to publish a slate.
pub fn transport_publish_payload(req: &EpicRequest, address: &str, to: &str, slate: Value) -> (res:
    Value)
    ensures
        json(res) == publish_document(*req, address@, to@, json(slate)),
{
    let mut payload = transport_wallet_payload(req, "publish");
    json::set(&mut payload, "address", json::string(address));
    json::set(&mut payload, "to", json::string(to));
    json::set(&mut payload, "slate", slate);
    payload
}

/// The text of a request to the transport library. It holds no NUL.
pub fn transport_request(payload: &Value) -> (res: String)
    ensures
        res@ == json_text(json(*payload)),
        !res@.contains('\0'),
        rereadable(json(*payload)) ==> reads_as(res@, json(*payload)),
{
    json::render(payload)
}

/// The text of a request to the transport library reads back as what was
/// written; where it holds a slate, provided that the text of the slate would
/// read back one level deeper.
pub proof fn transport_requests_read_back(
    req: EpicRequest,
    action: Seq<char>,
    address: Seq<char>,
    to: Seq<char>,
    slate: Json,
)
    ensures
        rereadable(wallet_document(req, action)),
        nests(slate, 99) ==> rereadable(publish_document(req, address, to, slate)),
{
    lemma_tabular(wallet_document(req, action));
    lemma_tabular(wallet_document(req, "publish"@));
    let asked = wallet_document(req, "publish"@);
    let whole = publish_document(req, address, to, slate);
    if nests(slate, 99) {
        assert forall|key: Seq<char>| #[trigger] whole->Object_0.contains_key(key) implies nests(
            whole->Object_0[key],
            99,
        ) by {
            if key != "slate"@ && key != "to"@ && key != "address"@ {
                assert(asked->Object_0.contains_key(key));
            }
        }
    }
}

/// The reply of the transport library, or the failure.
pub fn transport_response(reply: RawText) -> (res: Result<Value, String>)
    ensures
        match reply {
            RawText::Missing => res matches Err(message) && message@
                == "Epic transport returned a null response"@,
            RawText::NotText(reason) => res matches Err(message) && message@
                == "Epic transport response: "@ + reason@,
            RawText::Text(text) => match json_parsed(text@) {
                Ok(document) => res matches Ok(response) && json(response) == document,
                Err(reason) => res matches Err(message) && message@
                    == "Epic transport response: "@ + reason,
            },
        },
{
    match reply {
        RawText::Missing => Err(String::from_str("Epic transport returned a null response")),
        RawText::NotText(reason) => Err(join("Epic transport response: ", reason.as_str())),
        RawText::Text(text) => match json::parse(text.as_str()) {
            Ok(response) => Ok(response),
            Err(reason) => Err(join("Epic transport response: ", reason.as_str())),
        },
    }
}

/// Whether a reply says that the slate was published.
pub open spec fn says_published(response: Json) -> bool {
    member(response, "ok"@) == Some(Json::Bool(true))
}

/// Whether a reply says that the slate has not come back yet.
pub open spec fn says_pending(response: Json) -> bool {
    member(response, "code"@) == Some(Json::Text("epic-native-epicbox-pending"@))
}

/// Why the slate was not published, by what a reply says.
pub open spec fn refusal(response: Json) -> Seq<char> {
    match member(response, "error"@) {
        Some(Json::Text(text)) => text,
        _ => "Epic transport publish failed"@,
    }
}

/// What a reply says of the slate: whether it is pending, or why it was not published.
pub fn publish_outcome(response: &Value) -> (res: Result<bool, String>)
    ensures
        match res {
            Ok(pending) => says_published(json(*response)) && pending == says_pending(
                json(*response),
            ),
            Err(message) => !says_published(json(*response)) && message@ == refusal(
                json(*response),
            ),
        },
{
    let published = match json::get(response, "ok") {
        Some(value) => match json::as_bool(value) {
            Some(published) => published,
            None => false,
        },
        None => false,
    };
    if !published {
        if let Some(value) = json::get(response, "error") {
            if let Some(text) = json::as_str(value) {
                return Err(String::from_str(text));
            }
        }
        return Err(String::from_str("Epic transport publish failed"));
    }
    let pending = match json::get(response, "code") {
        Some(value) => match json::as_str(value) {
            Some(code) => same_text(code, "epic-native-epicbox-pending"),
            None => false,
        },
        None => false,
    };
    Ok(pending)
}

/// What is reported of a transaction that was sent through the transport library.
pub open spec fn transport_document(pending: bool, address: Seq<char>, texts: SentTexts) -> Json {
    Json::Object(
        map![
            "code"@ => Json::Text(
                if pending {
                    "epic-native-epicbox-pending"@
                } else {
                    "epic-native-epicbox-sent"@
                },
            ),
            "address"@ => Json::Text(address),
            "txid"@ => Json::Text(texts.txid@),
            "amount"@ => Json::Text(texts.amount@),
            "fee"@ => Json::Text(texts.fee@),
            "pending"@ => Json::Bool(pending),
            "balance"@ => Json::Text("0"@),
            "spendable"@ => Json::Text("0"@),
            "transactions"@ => Json::Array(Seq::empty()),
        ],
    )
}

/// The reply for a transaction that was sent through the transport library.
pub fn transport_sent(pending: bool, address: &str, texts: &SentTexts) -> (res: String)
    ensures
        replies(res@, ok_document(transport_document(pending, address@, *texts))),
{
    let code = if pending {
        "epic-native-epicbox-pending"
    } else {
        "epic-native-epicbox-sent"
    };
    let mut payload = json::null();
    json::set(&mut payload, "code", json::string(code));
    json::set(&mut payload, "address", json::string(address));
    json::set(&mut payload, "txid", json::string(texts.txid.as_str()));
    json::set(&mut payload, "amount", json::string(texts.amount.as_str()));
    json::set(&mut payload, "fee", json::string(texts.fee.as_str()));
    json::set(&mut payload, "pending", json::boolean(pending));
    set_nothing(&mut payload);
    proof {
        lemma_tabular(ok_document(transport_document(pending, address@, *texts)));
    }
    ok(payload)
}

/// What happened to a transaction that is sent through the transport library.
pub enum TransportEvent {
    /// The transaction was prepared, or the failure.
    Prepared(Result<(), String>),
    /// The address of the wallet was found, or the failure.
    Addressed(Result<(), String>),
    /// The slate was written as a document, or the reason why not.
    Serialized(Result<(), String>),
    /// The outputs that it spends were locked, or the reason why not.
    Locked(Result<(), String>),
    /// The transport library answered, or the failure.
    Answered(Result<Value, String>),
    /// It was taken back after the failure in `message`.
    RolledBack { message: String, rollback: Rollback },
}

/// What is to be done with a transaction that is sent through the transport library.
pub enum TransportAction {
    /// Ask for the address of the wallet.
    Address,
    /// Write the slate as a document.
    Serialize,
    /// Lock the outputs that it spends, for this destination.
    Lock { to: String },
    /// Ask the transport library to publish it.
    Publish,
    /// Take it back after this failure.
    RollBack { message: String },
    /// It was published; reply so.
    Reply { pending: bool },
    /// Give up.
    Fail(String),
}

/// Whether `res` takes the transaction back after this failure.
pub open spec fn takes_back(res: TransportAction, words: Seq<char>) -> bool {
    res matches TransportAction::RollBack { message } && message@ == words
}

/// Whether `res` gives up in these words.
pub open spec fn gives_up(res: TransportAction, words: Seq<char>) -> bool {
    res matches TransportAction::Fail(message) && message@ == words
}

/// Whether `res` is what is to be done after `event`. A transaction is taken
/// back only before it was published.
pub open spec fn follows(to: Option<Seq<char>>, event: TransportEvent, res: TransportAction) -> bool {
    match event {
        TransportEvent::Prepared(Ok(_)) => match to {
            Some(_) => res is Address,
            None => gives_up(res, "Destination address is required"@),
        },
        TransportEvent::Prepared(Err(message)) => gives_up(res, message@),
        TransportEvent::Addressed(Ok(_)) => res is Serialize,
        TransportEvent::Addressed(Err(message)) => gives_up(res, message@),
        TransportEvent::Serialized(Ok(_)) => match to {
            Some(found) => res matches TransportAction::Lock { to: given_to } && given_to@ == found,
            None => gives_up(res, "Destination address is required"@),
        },
        TransportEvent::Serialized(Err(reason)) => gives_up(
            res,
            "Epic slate serialize: "@ + reason@,
        ),
        TransportEvent::Locked(Ok(_)) => res is Publish,
        TransportEvent::Locked(Err(reason)) => takes_back(
            res,
            "Epic transaction lock: "@ + reason@,
        ),
        TransportEvent::Answered(Ok(response)) => if says_published(json(response)) {
            res == (TransportAction::Reply { pending: says_pending(json(response)) })
        } else {
            takes_back(res, "Epicbox send: "@ + refusal(json(response)))
        },
        TransportEvent::Answered(Err(error)) => takes_back(res, "Epicbox send: "@ + error@),
        TransportEvent::RolledBack { message, rollback } => gives_up(
            res,
            rolled_back(message@, rollback),
        ),
    }
}

/// Takes in what happened to a transaction that is sent through the transport
/// library and says what is to be done.
pub fn send_with_transport(req: &EpicRequest, event: TransportEvent) -> (res: TransportAction)
    ensures
        follows(given(req.to), event, res),
{
    match event {
        TransportEvent::Prepared(Ok(())) => match required_text(
            &req.to,
            "Destination address is required",
        ) {
            Ok(_) => TransportAction::Address,
            Err(message) => TransportAction::Fail(message),
        },
        TransportEvent::Prepared(Err(message)) => TransportAction::Fail(message),
        TransportEvent::Addressed(Ok(())) => TransportAction::Serialize,
        TransportEvent::Addressed(Err(message)) => TransportAction::Fail(message),
        TransportEvent::Serialized(Ok(())) => match required_text(
            &req.to,
            "Destination address is required",
        ) {
            Ok(to) => TransportAction::Lock { to },
            Err(message) => TransportAction::Fail(message),
        },
        TransportEvent::Serialized(Err(reason)) => TransportAction::Fail(
            join("Epic slate serialize: ", reason.as_str()),
        ),
        TransportEvent::Locked(Ok(())) => TransportAction::Publish,
        TransportEvent::Locked(Err(reason)) => TransportAction::RollBack {
            message: join("Epic transaction lock: ", reason.as_str()),
        },
        TransportEvent::Answered(Ok(response)) => match publish_outcome(&response) {
            Ok(pending) => TransportAction::Reply { pending },
            Err(message) => TransportAction::RollBack {
                message: join("Epicbox send: ", message.as_str()),
            },
        },
        TransportEvent::Answered(Err(error)) => TransportAction::RollBack {
            message: join("Epicbox send: ", error.as_str()),
        },
        TransportEvent::RolledBack { message, rollback } => TransportAction::Fail(
            rollback_message(message, rollback),
        ),
    }
}

/// The text that a slate is read from on the side of the transport library.
pub fn transport_slate_text(slate: &Value) -> (res: String)
    ensures
        res@ == json_text(json(*slate)),
        rereadable(json(*slate)) ==> reads_as(res@, json(*slate)),
{
    json::render(slate)
}

/// Whether an error leaves open whether the slate will still be finalized:
/// the server has it, or may have it.
pub open spec fn leaves_pending(error: Seq<char>) -> bool {
    contains(error, "was published"@) || contains(error, "publish outcome is uncertain"@)
}

/// Whether an error leaves open whether the slate will still be finalized.
pub fn epicbox_publish_is_pending(error: &str) -> (res: bool)
    ensures
        res == leaves_pending(error@),
{
    contains_text(error, "was published") || contains_text(error, "publish outcome is uncertain")
}

/// How often the listener is started before the slate is given up.
pub const LISTENER_START_ATTEMPTS: u32 = 3;

/// What happened to a slate that is published through the listener.
pub enum PublishEvent {
    /// The request came in.
    Asked,
    /// The slate was read, or the failure.
    Decoded(Result<(), String>),
    /// The wallet was opened for the attempt of this number, or the failure.
    Opened { attempt: u32, result: Result<(), String> },
    /// There is a listener for the attempt of this number, or the reason why not.
    Listening { attempt: u32, result: Result<(), String> },
    /// The slate came back in the attempt of this number, or the text of the error.
    Relayed { attempt: u32, result: Result<(), String> },
}

/// What is to be done with a slate that is published through the listener.
pub enum PublishAction {
    /// Read the slate.
    Decode,
    /// Open the wallet for the attempt of this number, which starts the
    /// listener; pause before that where asked to.
    Open { attempt: u32, pause: bool },
    /// Make a listener for the attempt of this number.
    Listen { attempt: u32 },
    /// Give the slate to the listener in the attempt of this number.
    Relay { attempt: u32, from: String, to: String },
    /// It came back; reply so.
    ReplySent,
    /// It has not come back; reply so.
    ReplyPending,
    /// Give up.
    Fail(String),
}

/// Whether `res` gives up in these words.
pub open spec fn publish_fails(res: PublishAction, words: Seq<char>) -> bool {
    res matches PublishAction::Fail(message) && message@ == words
}

/// What the request for publication lacks, if anything.
pub open spec fn lacks(req: EpicRequest) -> Option<Seq<char>> {
    if given(req.address) is None {
        Some("Epic sender address is required"@)
    } else if given(req.to) is None {
        Some("Epic destination address is required"@)
    } else if req.slate is None {
        Some("Epic slate is required"@)
    } else {
        None
    }
}

/// Whether an error says that the listener is not ready.
pub open spec fn says_not_ready(error: Seq<char>) -> bool {
    contains(error, "Epicbox listener is not ready"@)
}

/// Whether `res` is what is to be done after `event`.
pub open spec fn publish_follows(req: EpicRequest, event: PublishEvent, res: PublishAction) -> bool {
    match event {
        PublishEvent::Asked => match lacks(req) {
            Some(words) => publish_fails(res, words),
            None => res is Decode,
        },
        PublishEvent::Decoded(Ok(_)) => res == (PublishAction::Open { attempt: 0, pause: false }),
        PublishEvent::Decoded(Err(message)) => publish_fails(res, message@),
        PublishEvent::Opened { attempt, result: Ok(_) } => res == (PublishAction::Listen {
            attempt,
        }),
        PublishEvent::Opened { attempt, result: Err(reason) } => publish_fails(
            res,
            "Epicbox listener start: "@ + reason@,
        ),
        PublishEvent::Listening { attempt, result: Ok(_) } => match (given(req.address), given(req.to)) {
            (Some(address), Some(destination)) => {
                &&& res matches PublishAction::Relay { attempt: same, from, to }
                &&& same == attempt
                &&& from@ == address
                &&& to@ == destination
            },
            (None, _) => publish_fails(res, "Epic sender address is required"@),
            (_, None) => publish_fails(res, "Epic destination address is required"@),
        },
        PublishEvent::Listening { attempt, result: Err(reason) } => publish_fails(
            res,
            "Epicbox listener: "@ + reason@,
        ),
        PublishEvent::Relayed { attempt, result: Ok(_) } => res is ReplySent,
        PublishEvent::Relayed { attempt, result: Err(error) } => if leaves_pending(error@) {
            res is ReplyPending
        } else if says_not_ready(error@) && attempt + 1 < LISTENER_START_ATTEMPTS {
            res == (PublishAction::Open { attempt: (attempt + 1) as u32, pause: true })
        } else {
            publish_fails(res, "Epicbox publish: "@ + error@)
        },
    }
}

/// Takes in what happened to a slate that is published through the listener
/// and says what is to be done.
pub fn publish_with_listener(req: &EpicRequest, event: PublishEvent) -> (res: PublishAction)
    ensures
        publish_follows(*req, event, res),
{
    match event {
        PublishEvent::Asked => {
            if let Err(message) = required_text(&req.address, "Epic sender address is required") {
                return PublishAction::Fail(message);
            }
            if let Err(message) = required_text(&req.to, "Epic destination address is required") {
                return PublishAction::Fail(message);
            }
            match &req.slate {
                Some(_) => PublishAction::Decode,
                None => PublishAction::Fail(String::from_str("Epic slate is required")),
            }
        },
        PublishEvent::Decoded(Ok(())) => PublishAction::Open { attempt: 0, pause: false },
        PublishEvent::Decoded(Err(message)) => PublishAction::Fail(message),
        PublishEvent::Opened { attempt, result: Ok(()) } => PublishAction::Listen { attempt },
        PublishEvent::Opened { result: Err(reason), .. } => PublishAction::Fail(
            join("Epicbox listener start: ", reason.as_str()),
        ),
        PublishEvent::Listening { attempt, result: Ok(()) } => {
            let from = match required_text(&req.address, "Epic sender address is required") {
                Ok(from) => from,
                Err(message) => {
                    return PublishAction::Fail(message);
                },
            };
            match required_text(&req.to, "Epic destination address is required") {
                Ok(to) => PublishAction::Relay { attempt, from, to },
                Err(message) => PublishAction::Fail(message),
            }
        },
        PublishEvent::Listening { result: Err(reason), .. } => PublishAction::Fail(
            join("Epicbox listener: ", reason.as_str()),
        ),
        PublishEvent::Relayed { result: Ok(()), .. } => PublishAction::ReplySent,
        PublishEvent::Relayed { attempt, result: Err(error) } => if epicbox_publish_is_pending(
            error.as_str(),
        ) {
            PublishAction::ReplyPending
        } else if attempt < LISTENER_START_ATTEMPTS - 1 && contains_text(
            error.as_str(),
            "Epicbox listener is not ready",
        ) {
            PublishAction::Open { attempt: attempt + 1, pause: true }
        } else {
            PublishAction::Fail(join("Epicbox publish: ", error.as_str()))
        },
    }
}

/// The failure of reading a slate.
pub fn slate_failure(reason: &str) -> (res: String)
    ensures
        res@ == "Epic slate deserialize: "@ + reason@,
{
    join("Epic slate deserialize: ", reason)
}

/// What the transport library says of a slate that came back.
pub open spec fn relayed_document(txid: Seq<char>, fee: Seq<char>) -> Json {
    Json::Object(
        map![
            "code"@ => Json::Text("epic-native-epicbox-sent"@),
            "txid"@ => Json::Text(txid),
            "fee"@ => Json::Text(fee),
        ],
    )
}

/// What the transport library says of a slate that has not come back.
pub open spec fn pending_document(txid: Seq<char>) -> Json {
    Json::Object(
        map!["code"@ => Json::Text("epic-native-epicbox-pending"@), "txid"@ => Json::Text(txid)],
    )
}

/// The reply of the transport library for a slate that came back.
pub fn relayed_reply(txid: &str, fee: &str) -> (res: String)
    ensures
        replies(res@, ok_document(relayed_document(txid@, fee@))),
{
    let mut payload = json::null();
    json::set(&mut payload, "code", json::string("epic-native-epicbox-sent"));
    json::set(&mut payload, "txid", json::string(txid));
    json::set(&mut payload, "fee", json::string(fee));
    proof {
        lemma_tabular(ok_document(relayed_document(txid@, fee@)));
    }
    ok(payload)
}

/// The reply of the transport library for a slate that has not come back.
pub fn pending_reply(txid: &str) -> (res: String)
    ensures
        replies(res@, ok_document(pending_document(txid@))),
{
    let mut payload = json::null();
    json::set(&mut payload, "code", json::string("epic-native-epicbox-pending"));
    json::set(&mut payload, "txid", json::string(txid));
    proof {
        lemma_tabular(ok_document(pending_document(txid@)));
    }
    ok(payload)
}

/// What the transport library says is what the sender understands: a slate
/// that came back is sent, one that has not is pending, and a failure is
/// refused for the same reason.
pub proof fn replies_are_understood(txid: Seq<char>, fee: Seq<char>, code: Seq<char>, message: Seq<char>)
    ensures
        says_published(ok_document(relayed_document(txid, fee))),
        !says_pending(ok_document(relayed_document(txid, fee))),
        says_published(ok_document(pending_document(txid))),
        says_pending(ok_document(pending_document(txid))),
        !says_published(err_document(code, message)),
        refusal(err_document(code, message)) == message,
{
    reveal_strlit("ok");
    reveal_strlit("code");
    reveal_strlit("txid");
    reveal_strlit("fee");
    reveal_strlit("error");
    reveal_strlit("epic-native-epicbox-sent");
    reveal_strlit("epic-native-epicbox-pending");
    assert("ok"@.len() != "code"@.len());
    assert("ok"@.len() != "error"@.len());
    assert("txid"@[0] != "code"@[0]);
    assert("fee"@.len() != "code"@.len());
    assert("code"@.len() != "error"@.len());
    assert("epic-native-epicbox-sent"@.len() != "epic-native-epicbox-pending"@.len());
}

/// An error for a slate that the server has or may have, whatever stands
/// before and behind it, leaves the slate pending.
pub proof fn published_slate_stays_pending(
    before: Seq<char>,
    after: Seq<char>,
    slate_id: Seq<char>,
    reason: Seq<char>,
)
    ensures
        leaves_pending(before + outcome_uncertain(slate_id, reason) + after),
        leaves_pending(before + finalization_failed(slate_id, reason) + after),
        leaves_pending(before + awaiting_finalization(slate_id) + after),
        leaves_pending(before + completion_lost(slate_id) + after),
{
    let start = "Epicbox transaction "@ + slate_id;
    let none = Seq::<char>::empty();
    let published = "was published"@;
    let uncertain = "publish outcome is uncertain"@;
    reveal_strlit("was published");
    reveal_strlit("publish outcome is uncertain");
    reveal_strlit(" publish outcome is uncertain: ");
    reveal_strlit(" was published but finalization failed: ");
    reveal_strlit(" was published and is awaiting finalization");
    reveal_strlit(" was published but its completion channel closed unexpectedly");
    let a = " publish outcome is uncertain: "@;
    let b = " was published but finalization failed: "@;
    let c = " was published and is awaiting finalization"@;
    let d = " was published but its completion channel closed unexpectedly"@;
    assert(a.subrange(1, uncertain.len() as int + 1) =~= uncertain);
    assert(b.subrange(1, published.len() as int + 1) =~= published);
    assert(c.subrange(1, published.len() as int + 1) =~= published);
    assert(d.subrange(1, published.len() as int + 1) =~= published);
    assert(occurs_at(a, uncertain, 1));
    assert(occurs_at(b, published, 1));
    assert(occurs_at(c, published, 1));
    assert(occurs_at(d, published, 1));
    lemma_contains_middle(start, a, reason, uncertain);
    lemma_contains_middle(start, b, reason, published);
    lemma_contains_middle(start, c, none, published);
    lemma_contains_middle(start, d, none, published);
    assert(outcome_uncertain(slate_id, reason) =~= start + a + reason);
    assert(finalization_failed(slate_id, reason) =~= start + b + reason);
    assert(awaiting_finalization(slate_id) =~= start + c + none);
    assert(completion_lost(slate_id) =~= start + d + none);
    lemma_contains_middle(before, outcome_uncertain(slate_id, reason), after, uncertain);
    lemma_contains_middle(before, finalization_failed(slate_id, reason), after, published);
    lemma_contains_middle(before, awaiting_finalization(slate_id), after, published);
    lemma_contains_middle(before, completion_lost(slate_id), after, published);
}

/// A listener that is not ready has published nothing, and says so.
pub proof fn unready_listener_has_published_nothing()
    ensures
        !leaves_pending(listener_not_ready()),
        says_not_ready(listener_not_ready()),
{
    reveal_strlit("Epicbox listener is not ready");
    reveal_strlit("was published");
    reveal_strlit("publish outcome is uncertain");
    let text = listener_not_ready();
    let published = "was published"@;
    let uncertain = "publish outcome is uncertain"@;
    assert(text.subrange(0, text.len() as int) =~= text);
    assert(occurs_at(text, text, 0));
    assert forall|at: int| !occurs_at(text, published, at) by {
        if occurs_at(text, published, at) {
            assert(text.subrange(at, at + published.len())[0] == published[0]);
            assert(text[at] == 'w');
        }
    }
    assert forall|at: int| !occurs_at(text, uncertain, at) by {
        if occurs_at(text, uncertain, at) {
            assert(text.subrange(at, at + uncertain.len())[0] == uncertain[0]);
            assert(text.subrange(at, at + uncertain.len())[1] == uncertain[1]);
            assert(text[at] == 'p' && text[at + 1] == 'u');
        }
    }
}

/// A slate that the server has or may have is never taken back: the error of
/// the listener becomes a reply, and the sender does not undo what that reply speaks of.
pub proof fn published_slate_is_not_taken_back(
    req: EpicRequest,
    attempt: u32,
    error: String,
    txid: Seq<char>,
    to: Option<Seq<char>>,
    response: Value,
    server: PublishAction,
    client: TransportAction,
)
    requires
        leaves_pending(error@),
        publish_follows(req, PublishEvent::Relayed { attempt, result: Err(error) }, server),
        json(response) == ok_document(pending_document(txid)),
        follows(to, TransportEvent::Answered(Ok(response)), client),
    ensures
        server is ReplyPending,
        client == (TransportAction::Reply { pending: true }),
{
    replies_are_understood(txid, Seq::empty(), Seq::empty(), Seq::empty());
}

} // verus!
