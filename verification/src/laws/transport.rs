//! What is relied on between a sender and the transport library.

use serde_json::Value;
use vstd::prelude::*;

use crate::json::{json, json_parsed, json_text, member, nests, Json};
use crate::laws::history::{shows, string_or_null, text_there};
use crate::laws::request::{is_given, lemma_given, says};
use crate::laws::sending::lemma_sent_keys;
use crate::request::{EpicRequest, RawText};
use crate::sending::{rollback_message, Rollback, SentTexts};
use crate::text::contains;
use crate::transport::{
    epicbox_publish_is_pending, pending_reply, publish_outcome, publish_with_listener,
    relayed_reply, send_with_transport, slate_failure, transport_publish_payload, transport_request,
    transport_response, transport_sent, transport_slate_text, transport_wallet_payload,
    PublishAction, PublishEvent, TransportAction, TransportEvent,
};

verus! {

/// The keys of a request to the transport library are different.
proof fn lemma_transport_keys()
    ensures
        "action"@.len() == 6,
        "phrase"@.len() == 6,
        "password"@.len() == 8,
        "dataDir"@.len() == 7,
        "nodeUrl"@.len() == 7,
        "restoreStartHeight"@.len() == 18,
        "address"@.len() == 7,
        "to"@.len() == 2,
        "slate"@.len() == 5,
        "action"@ != "phrase"@,
        "dataDir"@ != "nodeUrl"@,
        "dataDir"@ != "address"@,
        "nodeUrl"@ != "address"@,
{
    reveal_strlit("action");
    reveal_strlit("phrase");
    reveal_strlit("password");
    reveal_strlit("dataDir");
    reveal_strlit("nodeUrl");
    reveal_strlit("restoreStartHeight");
    reveal_strlit("address");
    reveal_strlit("to");
    reveal_strlit("slate");
    assert("action"@[0] != "phrase"@[0]);
    assert("dataDir"@[0] != "nodeUrl"@[0]);
    assert("dataDir"@[0] != "address"@[0]);
    assert("nodeUrl"@[0] != "address"@[0]);
}

/// Whether a document speaks of the wallet of a request, with this action.
pub open spec fn speaks_of_the_wallet(document: Value, req: EpicRequest, action: Seq<char>) -> bool {
    &&& shows(document, "action"@, Json::Text(action))
    &&& shows(document, "phrase"@, string_or_null(text_there(req.phrase)))
    &&& shows(document, "password"@, string_or_null(text_there(req.password)))
    &&& shows(document, "dataDir"@, string_or_null(text_there(req.data_dir)))
    &&& shows(document, "nodeUrl"@, string_or_null(text_there(req.node_url)))
    &&& req.restore_start_height matches Some(height) ==> shows(
        document,
        "restoreStartHeight"@,
        Json::Integer(height as int),
    )
    &&& req.restore_start_height is None ==> shows(document, "restoreStartHeight"@, Json::Null)
}

/// A request to the transport library says all that the request said of the
/// wallet, and the action that is asked for.
pub proof fn transport_is_told_of_the_same_wallet(req: EpicRequest, action: &str, res: Value)
    requires
        call_ensures(transport_wallet_payload, (&req, action), res),
    ensures
        speaks_of_the_wallet(res, req, action@),
{
    lemma_transport_keys();
}

/// A request to publish says that beside the sender, the destination and the slate.
pub proof fn transport_is_asked_to_publish_the_slate(
    req: EpicRequest,
    address: &str,
    to: &str,
    slate: Value,
    res: Value,
)
    requires
        call_ensures(transport_publish_payload, (&req, address, to, slate), res),
    ensures
        speaks_of_the_wallet(res, req, "publish"@),
        shows(res, "address"@, Json::Text(address@)),
        shows(res, "to"@, Json::Text(to@)),
        shows(res, "slate"@, json(slate)),
{
    lemma_transport_keys();
}

/// What is sent to the transport library is the text of the request, and a
/// slate is read from its own text.
pub proof fn requests_are_sent_as_their_text(
    payload: Value,
    request: String,
    slate: Value,
    text: String,
)
    requires
        call_ensures(transport_request, (&payload,), request),
        call_ensures(transport_slate_text, (&slate,), text),
    ensures
        request@ == json_text(json(payload)),
        !request@.contains('\0'),
        nests(json(payload), 100) ==> json_parsed(request@) == Ok::<Json, Seq<char>>(json(payload)),
        text@ == json_text(json(slate)),
        nests(json(slate), 100) ==> json_parsed(text@) == Ok::<Json, Seq<char>>(json(slate)),
{
}

/// An answer of the transport library is what its text reads as; one that is
/// missing, is no text or cannot be read is a failure.
pub proof fn answer_is_what_its_text_reads_as(reply: RawText, res: Result<Value, String>)
    requires
        call_ensures(transport_response, (reply,), res),
    ensures
        reply is Missing ==> (res matches Err(message) && message@
            == "Epic transport returned a null response"@),
        reply matches RawText::NotText(reason) ==> (res matches Err(message) && message@
            == "Epic transport response: "@ + reason@),
        reply matches RawText::Text(text) ==> {
            &&& json_parsed(text@) matches Ok(document) ==> (res matches Ok(found) && json(found)
                == document)
            &&& json_parsed(text@) matches Err(reason) ==> (res matches Err(message) && message@
                == "Epic transport response: "@ + reason)
        },
{
}

/// A slate was published exactly where the answer says `true` under `ok`, and
/// is pending exactly where the code says so; else the answer gives the reason.
pub proof fn answer_says_what_became_of_the_slate(response: Value, res: Result<bool, String>)
    requires
        call_ensures(publish_outcome, (&response,), res),
    ensures
        res is Ok <==> member(json(response), "ok"@) == Some(Json::Bool(true)),
        res matches Ok(pending) ==> (pending <==> member(json(response), "code"@) == Some(
            Json::Text("epic-native-epicbox-pending"@),
        )),
        res matches Err(message) ==> match member(json(response), "error"@) {
            Some(Json::Text(reason)) => message@ == reason,
            _ => message@ == "Epic transport publish failed"@,
        },
{
}

/// What was sent through the transport library is reported with its identifier,
/// amount and fee, the address of the wallet, and whether it is pending.
pub proof fn transported_transaction_is_reported(
    pending: bool,
    address: &str,
    texts: SentTexts,
    res: String,
)
    requires
        call_ensures(transport_sent, (pending, address, &texts), res),
    ensures
        says(res@, "ok"@, Json::Bool(true)),
        pending ==> says(res@, "code"@, Json::Text("epic-native-epicbox-pending"@)),
        !pending ==> says(res@, "code"@, Json::Text("epic-native-epicbox-sent"@)),
        says(res@, "pending"@, Json::Bool(pending)),
        says(res@, "address"@, Json::Text(address@)),
        says(res@, "txid"@, Json::Text(texts.txid@)),
        says(res@, "amount"@, Json::Text(texts.amount@)),
        says(res@, "fee"@, Json::Text(texts.fee@)),
        says(res@, "balance"@, Json::Text("0"@)),
        says(res@, "spendable"@, Json::Text("0"@)),
        says(res@, "transactions"@, Json::Array(Seq::empty())),
{
    lemma_sent_keys();
}

/// A transaction goes step by step: its outputs are locked, for the destination
/// of the request, before it is published and after it was prepared, addressed
/// and written. Without a destination it goes nowhere.
pub proof fn transaction_is_locked_before_it_is_published(
    req: EpicRequest,
    prepared: TransportAction,
    addressed: TransportAction,
    serialized: TransportAction,
    locked: TransportAction,
)
    requires
        call_ensures(send_with_transport, (&req, TransportEvent::Prepared(Ok(()))), prepared),
        call_ensures(send_with_transport, (&req, TransportEvent::Addressed(Ok(()))), addressed),
        call_ensures(send_with_transport, (&req, TransportEvent::Serialized(Ok(()))), serialized),
        call_ensures(send_with_transport, (&req, TransportEvent::Locked(Ok(()))), locked),
    ensures
        is_given(req.to) ==> prepared is Address && (serialized matches TransportAction::Lock { to }
            && to@ == req.to->0@),
        !is_given(req.to) ==> (prepared matches TransportAction::Fail(message) && message@
            == "Destination address is required"@) && (serialized matches TransportAction::Fail(
            message,
        ) && message@ == "Destination address is required"@),
        addressed is Serialize,
        locked is Publish,
{
    lemma_given(req.to);
}

/// A transaction that fails before its outputs are locked is given up; one that
/// fails after that and before it was published is taken back, and the failure
/// is returned with what came of that.
pub proof fn locked_transaction_is_taken_back(
    req: EpicRequest,
    reason: String,
    message: String,
    rollback: Rollback,
    said: String,
    not_prepared: TransportAction,
    not_addressed: TransportAction,
    not_serialized: TransportAction,
    not_locked: TransportAction,
    not_answered: TransportAction,
    taken_back: TransportAction,
)
    requires
        call_ensures(send_with_transport, (&req, TransportEvent::Prepared(Err(reason))), not_prepared),
        call_ensures(
            send_with_transport,
            (&req, TransportEvent::Addressed(Err(reason))),
            not_addressed,
        ),
        call_ensures(
            send_with_transport,
            (&req, TransportEvent::Serialized(Err(reason))),
            not_serialized,
        ),
        call_ensures(send_with_transport, (&req, TransportEvent::Locked(Err(reason))), not_locked),
        call_ensures(
            send_with_transport,
            (&req, TransportEvent::Answered(Err(reason))),
            not_answered,
        ),
        call_ensures(rollback_message, (message, rollback), said),
        call_ensures(
            send_with_transport,
            (&req, TransportEvent::RolledBack { message, rollback }),
            taken_back,
        ),
    ensures
        not_prepared matches TransportAction::Fail(words) && words@ == reason@,
        not_addressed matches TransportAction::Fail(words) && words@ == reason@,
        not_serialized matches TransportAction::Fail(words) && words@ == "Epic slate serialize: "@
            + reason@,
        not_locked matches TransportAction::RollBack { message: words } && words@
            == "Epic transaction lock: "@ + reason@,
        not_answered matches TransportAction::RollBack { message: words } && words@
            == "Epicbox send: "@ + reason@,
        taken_back matches TransportAction::Fail(words) && words@ == said@,
{
}

/// An answer that the slate was published is replied, pending or not, and the
/// transaction stands; any other answer has it taken back, for its reason.
pub proof fn published_transaction_stands(
    req: EpicRequest,
    response: Value,
    outcome: Result<bool, String>,
    res: TransportAction,
)
    requires
        call_ensures(publish_outcome, (&response,), outcome),
        call_ensures(send_with_transport, (&req, TransportEvent::Answered(Ok(response))), res),
    ensures
        outcome matches Ok(pending) ==> res == (TransportAction::Reply { pending }),
        outcome matches Err(reason) ==> (res matches TransportAction::RollBack { message }
            && message@ == "Epicbox send: "@ + reason@),
{
}

/// An error leaves a slate pending exactly where it says that the slate was
/// published or that this is uncertain.
pub proof fn pending_is_what_was_or_may_be_published(error: &str, res: bool)
    requires
        call_ensures(epicbox_publish_is_pending, (error,), res),
    ensures
        res <==> contains(error@, "was published"@) || contains(
            error@,
            "publish outcome is uncertain"@,
        ),
{
}

/// A slate is published only for a request that names its sender and its
/// destination and holds the slate; what is missing is named, the first first.
pub proof fn publication_needs_sender_destination_and_slate(req: EpicRequest, res: PublishAction)
    requires
        call_ensures(publish_with_listener, (&req, PublishEvent::Asked), res),
    ensures
        res is Decode <==> is_given(req.address) && is_given(req.to) && req.slate is Some,
        !is_given(req.address) ==> (res matches PublishAction::Fail(message) && message@
            == "Epic sender address is required"@),
        is_given(req.address) && !is_given(req.to) ==> (res matches PublishAction::Fail(message)
            && message@ == "Epic destination address is required"@),
        is_given(req.address) && is_given(req.to) && req.slate is None ==> (
        res matches PublishAction::Fail(message) && message@ == "Epic slate is required"@),
{
    lemma_given(req.address);
    lemma_given(req.to);
}

/// A slate that was read goes, in its first attempt and in every other, through
/// an open wallet and a listener from the sender to the destination.
pub proof fn slate_goes_from_sender_to_destination(
    req: EpicRequest,
    attempt: u32,
    decoded: PublishAction,
    opened: PublishAction,
    listening: PublishAction,
    relayed: PublishAction,
)
    requires
        is_given(req.address),
        is_given(req.to),
        call_ensures(publish_with_listener, (&req, PublishEvent::Decoded(Ok(()))), decoded),
        call_ensures(
            publish_with_listener,
            (&req, PublishEvent::Opened { attempt, result: Ok(()) }),
            opened,
        ),
        call_ensures(
            publish_with_listener,
            (&req, PublishEvent::Listening { attempt, result: Ok(()) }),
            listening,
        ),
        call_ensures(
            publish_with_listener,
            (&req, PublishEvent::Relayed { attempt, result: Ok(()) }),
            relayed,
        ),
    ensures
        decoded == (PublishAction::Open { attempt: 0, pause: false }),
        opened == (PublishAction::Listen { attempt }),
        listening matches PublishAction::Relay { attempt: same, from, to } && same == attempt
            && from@ == req.address->0@ && to@ == req.to->0@,
        relayed is ReplySent,
{
    lemma_given(req.address);
    lemma_given(req.to);
}

/// An error that leaves the slate pending is replied as such, in any attempt.
/// A listener that is not ready is tried again, after a pause, until the third
/// attempt; any other error ends the publication.
pub proof fn unready_listener_is_tried_three_times(
    req: EpicRequest,
    attempt: u32,
    error: String,
    text: &str,
    pending: bool,
    res: PublishAction,
)
    requires
        text@ == error@,
        call_ensures(epicbox_publish_is_pending, (text,), pending),
        call_ensures(
            publish_with_listener,
            (&req, PublishEvent::Relayed { attempt, result: Err(error) }),
            res,
        ),
    ensures
        pending ==> res is ReplyPending,
        ({
            let again = contains(error@, "Epicbox listener is not ready"@) && attempt < 2;
            &&& !pending && again ==> res == (PublishAction::Open {
                attempt: (attempt + 1) as u32,
                pause: true,
            })
            &&& !pending && !again ==> (res matches PublishAction::Fail(message) && message@
                == "Epicbox publish: "@ + error@)
        }),
{
}

/// A step of a publication that fails ends it, in words that say which it was.
pub proof fn failed_step_ends_the_publication(
    req: EpicRequest,
    attempt: u32,
    reason: String,
    text: &str,
    not_decoded: PublishAction,
    not_opened: PublishAction,
    not_listening: PublishAction,
    said: String,
)
    requires
        call_ensures(publish_with_listener, (&req, PublishEvent::Decoded(Err(reason))), not_decoded),
        call_ensures(
            publish_with_listener,
            (&req, PublishEvent::Opened { attempt, result: Err(reason) }),
            not_opened,
        ),
        call_ensures(
            publish_with_listener,
            (&req, PublishEvent::Listening { attempt, result: Err(reason) }),
            not_listening,
        ),
        call_ensures(slate_failure, (text,), said),
    ensures
        not_decoded matches PublishAction::Fail(message) && message@ == reason@,
        not_opened matches PublishAction::Fail(message) && message@ == "Epicbox listener start: "@
            + reason@,
        not_listening matches PublishAction::Fail(message) && message@ == "Epicbox listener: "@
            + reason@,
        said@ == "Epic slate deserialize: "@ + text@,
{
}

/// The transport library replies with the identifier of the slate, and with the
/// fee where it came back.
pub proof fn transport_replies_with_the_identifier(
    txid: &str,
    fee: &str,
    relayed: String,
    pending: String,
)
    requires
        call_ensures(relayed_reply, (txid, fee), relayed),
        call_ensures(pending_reply, (txid,), pending),
    ensures
        says(relayed@, "ok"@, Json::Bool(true)),
        says(relayed@, "code"@, Json::Text("epic-native-epicbox-sent"@)),
        says(relayed@, "txid"@, Json::Text(txid@)),
        says(relayed@, "fee"@, Json::Text(fee@)),
        says(pending@, "ok"@, Json::Bool(true)),
        says(pending@, "code"@, Json::Text("epic-native-epicbox-pending"@)),
        says(pending@, "txid"@, Json::Text(txid@)),
{
    lemma_sent_keys();
}

} // verus!
