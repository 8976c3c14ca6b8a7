//! What is relied on in requests and in the replies to them.

use serde_json::Value;
use vstd::prelude::*;

use crate::json::{json, json_parsed, member, rereadable, Json};
use crate::laws::text::is_space;
use crate::request::{
    c_string, dispatch, err, err_payload, given, given_text, handle, labelled, node_url,
    number_or_null, ok, ok_payload, request_bool, request_ffi, requested_fee,
    requested_or_default_fee, required_text, text_or_null, wallet_dir, wallet_reply, without_slashes,
    Action, EpicRequest, Features, RawText,
};
use crate::text::{lowered, trimmed, white};

verus! {

/// Whether a text holds more than white space.
pub open spec fn holds_more(text: Seq<char>) -> bool {
    exists|i: int| 0 <= i < text.len() && !is_space(#[trigger] text[i])
}

/// Whether a field is there and holds more than white space.
pub open spec fn is_given(value: Option<String>) -> bool {
    match value {
        Some(text) => holds_more(text@),
        None => false,
    }
}

proof fn lemma_white(c: char)
    ensures
        white(c) == is_space(c),
{
}

/// A field counts exactly where it is there and holds more than white space,
/// and it counts as it stands, with the white space round it.
pub proof fn given_field_is_taken_as_it_stands(value: Option<String>, res: Option<String>)
    requires
        call_ensures(given_text, (&value,), res),
    ensures
        res is Some <==> is_given(value),
        res matches Some(text) ==> text@ == value->0@,
        given(value) == (if is_given(value) {
            Some(value->0@)
        } else {
            None
        }),
{
    lemma_given(value);
}

/// What `given` finds in a field.
pub proof fn lemma_given(value: Option<String>)
    ensures
        given(value) == (if is_given(value) {
            Some(value->0@)
        } else {
            None
        }),
{
    if let Some(text) = value {
        if holds_more(text@) {
            let i = choose|i: int| 0 <= i < text@.len() && !is_space(#[trigger] text@[i]);
            lemma_white(text@[i]);
        } else {
            assert forall|i: int| 0 <= i < text@.len() implies white(#[trigger] text@[i]) by {
                lemma_white(text@[i]);
            }
        }
    }
}

/// A field that must be there is taken as it stands, and refused in the given
/// words where it is missing or blank.
pub proof fn required_field_is_there_or_refused(
    value: Option<String>,
    words: &str,
    res: Result<String, String>,
)
    requires
        call_ensures(required_text, (&value, words), res),
    ensures
        is_given(value) ==> (res matches Ok(text) && text@ == value->0@),
        !is_given(value) ==> (res matches Err(message) && message@ == words@),
{
    lemma_given(value);
}

/// A label stands before the text of an error and leaves a success alone.
pub proof fn label_stands_before_an_error<T>(
    label: &str,
    result: Result<T, String>,
    res: Result<T, String>,
)
    requires
        call_ensures(labelled::<T>, (label, result), res),
    ensures
        result is Ok ==> res == result,
        result matches Err(error) ==> (res matches Err(message) && message@ == label@ + error@),
{
}

/// The wallet is kept in the directory that the request names, and in
/// `epic-light` only where it names none.
pub proof fn wallet_is_kept_where_asked(req: EpicRequest, res: String)
    requires
        call_ensures(wallet_dir, (&req,), res),
    ensures
        is_given(req.data_dir) ==> res@ == req.data_dir->0@,
        !is_given(req.data_dir) ==> res@ == "epic-light"@,
{
    lemma_given(req.data_dir);
}

proof fn lemma_slashes(url: Seq<char>)
    ensures
        without_slashes(url).len() <= url.len(),
        without_slashes(url) == url.take(without_slashes(url).len() as int),
        forall|i: int| without_slashes(url).len() <= i < url.len() ==> #[trigger] url[i] == '/',
        without_slashes(url).len() > 0 ==> without_slashes(url).last() != '/',
    decreases url.len(),
{
    if url.len() > 0 && url.last() == '/' {
        let shorter = url.drop_last();
        lemma_slashes(shorter);
        assert(shorter.take(without_slashes(url).len() as int) =~= url.take(
            without_slashes(url).len() as int,
        ));
        assert forall|i: int| without_slashes(url).len() <= i < url.len() implies #[trigger] url[i]
            == '/' by {
            if i < shorter.len() {
                assert(shorter[i] == url[i]);
            }
        }
    } else {
        assert(url.take(url.len() as int) =~= url);
    }
}

/// The node is the one that the request names, and the usual one only where it
/// names none; its URL loses the slashes at its end, all of them and nothing else.
pub proof fn node_is_asked_without_slashes_at_the_end(req: EpicRequest, res: String)
    requires
        call_ensures(node_url, (&req,), res),
    ensures
        ({
            let named = if is_given(req.node_url) {
                req.node_url->0@
            } else {
                "https://api.altbase.io"@
            };
            &&& res@.len() <= named.len()
            &&& res@ == named.take(res@.len() as int)
            &&& forall|i: int| res@.len() <= i < named.len() ==> #[trigger] named[i] == '/'
            &&& res@.len() > 0 ==> res@.last() != '/'
        }),
{
    lemma_given(req.node_url);
    lemma_slashes(
        if is_given(req.node_url) {
            req.node_url->0@
        } else {
            "https://api.altbase.io"@
        },
    );
}

/// Whether a field is there and its text, in lower case and without the white
/// space round it, is one of the three words for yes.
pub open spec fn is_yes(value: Option<Seq<char>>) -> bool {
    match value {
        Some(text) => {
            ||| lowered(trimmed(text)) == "true"@
            ||| lowered(trimmed(text)) == "1"@
            ||| lowered(trimmed(text)) == "yes"@
        },
        None => false,
    }
}

/// A field says yes in three words and in no other, and a missing field does not.
pub proof fn yes_is_said_in_three_words(value: Option<&str>, res: bool)
    requires
        call_ensures(request_bool, (value,), res),
    ensures
        value is None ==> !res,
        value matches Some(text) ==> res == is_yes(Some(text@)),
        value matches Some(text) ==> (res <==> lowered(trimmed(text@)) == "true"@ || lowered(
            trimmed(text@),
        ) == "1"@ || lowered(trimmed(text@)) == "yes"@),
{
}

/// The fee that a request names is taken where it is more than zero; where it
/// names none or zero, the default is. A fee that cannot be read is an error,
/// and so is a default that is needed and cannot be read.
pub proof fn named_fee_comes_before_the_default(
    requested: Option<Result<u64, String>>,
    default: Result<u64, String>,
    res: Result<u64, String>,
)
    requires
        call_ensures(requested_or_default_fee, (requested, default), res),
    ensures
        requested matches Some(Ok(fee)) ==> (fee > 0 ==> res == Ok::<u64, String>(fee)),
        requested matches Some(Err(error)) ==> (res matches Err(message) && message@ == "Epic fee: "@
            + error@),
        requested is None || requested == Some(Ok::<u64, String>(0u64)) ==> match default {
            Ok(fee) => res == Ok::<u64, String>(fee),
            Err(error) => res matches Err(message) && message@ == "Epic default fee: "@ + error@,
        },
{
}

/// The fee of a request is its fee field, where that holds more than white space.
pub proof fn fee_is_the_fee_field(req: EpicRequest, res: Option<String>)
    requires
        call_ensures(requested_fee, (&req,), res),
    ensures
        res is Some <==> is_given(req.fee),
        res matches Some(text) ==> text@ == req.fee->0@,
{
    lemma_given(req.fee);
}

/// A text or a number that is there is written, and `null` stands for one that is not.
pub proof fn missing_value_is_null(
    text: Option<String>,
    written: Value,
    number: Option<u64>,
    counted: Value,
)
    requires
        call_ensures(text_or_null, (&text,), written),
        call_ensures(number_or_null, (number,), counted),
    ensures
        match text {
            Some(found) => json(written) == Json::Text(found@),
            None => json(written) == Json::Null,
        },
        match number {
            Some(found) => json(counted) == Json::Integer(found as int),
            None => json(counted) == Json::Null,
        },
{
}

/// Whether a reply reads as an object with this member.
pub open spec fn says(reply: Seq<char>, key: Seq<char>, value: Json) -> bool {
    match json_parsed(reply) {
        Ok(document) => member(document, key) == Some(value),
        Err(_) => false,
    }
}

/// Whether a reply says that the request failed, with this code and for this reason.
pub open spec fn says_failure(reply: Seq<char>, code: Seq<char>, reason: Seq<char>) -> bool {
    &&& says(reply, "ok"@, Json::Bool(false))
    &&& says(reply, "code"@, Json::Text(code))
    &&& says(reply, "error"@, Json::Text(reason))
}

/// A payload that is marked as a success says so, and says all else that it said.
pub proof fn success_keeps_its_payload(payload: Value, res: Value, key: Seq<char>)
    requires
        call_ensures(ok_payload, (payload,), res),
    ensures
        member(json(res), "ok"@) == Some(Json::Bool(true)),
        key != "ok"@ ==> member(json(res), key) == member(json(payload), key),
{
}

/// The reply for a success holds the payload, marked as a success.
pub proof fn success_is_replied(payload: Value, marked: Value, res: String)
    requires
        call_ensures(ok_payload, (payload,), marked),
        call_ensures(ok, (payload,), res),
        rereadable(json(marked)),
    ensures
        json_parsed(res@) == Ok::<Json, Seq<char>>(json(marked)),
{
}

/// The three keys of a failure are different.
pub proof fn lemma_failure_keys()
    ensures
        "ok"@ != "code"@,
        "ok"@ != "error"@,
        "code"@ != "error"@,
{
    reveal_strlit("ok");
    reveal_strlit("code");
    reveal_strlit("error");
    assert("ok"@.len() == 2 && "code"@.len() == 4 && "error"@.len() == 5);
}

/// A failure is replied with its code and its reason.
pub proof fn failure_is_replied(code: &str, message: &str, payload: Value, res: String)
    requires
        call_ensures(err_payload, (code, message), payload),
        call_ensures(err, (code, message), res),
    ensures
        says_failure(res@, code@, message@),
        json_parsed(res@) == Ok::<Json, Seq<char>>(json(payload)),
        !res@.contains('\0'),
{
    lemma_failure_keys();
}

/// A reply goes back as it is unless it holds a NUL, and then a failure goes back.
pub proof fn reply_goes_back_without_nul(text: String, res: String)
    requires
        call_ensures(c_string, (text,), res),
    ensures
        forall|i: int| 0 <= i < res@.len() ==> #[trigger] res@[i] != '\0',
        !text@.contains('\0') ==> res@ == text@,
        text@.contains('\0') ==> says_failure(
            res@,
            "epic-native-nul"@,
            "response contained NUL"@,
        ),
{
    lemma_failure_keys();
    assert forall|i: int| 0 <= i < res@.len() implies #[trigger] res@[i] != '\0' by {
        assert(!res@.contains('\0'));
    }
}

/// A request that is text is taken as it is, and any other is refused by what it is.
pub proof fn request_must_be_text(input: RawText, res: Result<String, String>)
    requires
        call_ensures(request_ffi, (input,), res),
    ensures
        input matches RawText::Text(text) ==> (res matches Ok(taken) && taken@ == text@),
        input is Missing ==> (res matches Err(reply) && says_failure(
            reply@,
            "epic-native-null-request"@,
            "request pointer is null"@,
        )),
        input matches RawText::NotText(reason) ==> (res matches Err(reply) && says_failure(
            reply@,
            "epic-native-utf8-request"@,
            reason@,
        )),
{
    lemma_failure_keys();
}

proof fn lemma_action_names()
    ensures
        "ensure"@ != "snapshot"@,
        "ensure"@ != "send"@,
        "ensure"@ != "listen"@,
        "ensure"@ != "publish"@,
        "snapshot"@ != "send"@,
        "snapshot"@ != "listen"@,
        "snapshot"@ != "publish"@,
        "send"@ != "listen"@,
        "send"@ != "publish"@,
        "listen"@ != "publish"@,
{
    reveal_strlit("ensure");
    reveal_strlit("snapshot");
    reveal_strlit("send");
    reveal_strlit("listen");
    reveal_strlit("publish");
    assert("ensure"@.len() == 6 && "snapshot"@.len() == 8 && "send"@.len() == 4 && "listen"@.len()
        == 6 && "publish"@.len() == 7);
    assert("ensure"@[0] != "listen"@[0]);
}

/// Each thing that the library does is done for its own action and where it
/// was built to do it, and for no other action. Of the ways to send, the first
/// that was built in is taken.
pub proof fn each_action_has_its_name(action: &str, features: Features, res: Option<Action>)
    requires
        call_ensures(dispatch, (action, &features), res),
    ensures
        res == Some(Action::Ensure) <==> action@ == "ensure"@ || (action@ == "listen"@
            && features.transport_server),
        res == Some(Action::Snapshot) <==> action@ == "snapshot"@ && features.snapshot,
        res == Some(Action::Publish) <==> action@ == "publish"@ && features.transport_server,
        res == Some(Action::Send) <==> action@ == "send"@ && features.send,
        res == Some(Action::SendWithTransport) <==> action@ == "send"@ && !features.send
            && features.transport_client,
        res == Some(Action::SendPrepareProbe) <==> action@ == "send"@ && !features.send
            && !features.transport_client && features.send_prepare,
        res == Some(Action::SendPublishProbe) <==> action@ == "send"@ && !features.send
            && !features.transport_client && !features.send_prepare && features.send_publish,
{
    lemma_action_names();
}

/// A request that was read is passed on unchanged with what its action asks
/// for; one that cannot be read, or asks for what the library does not do, is
/// answered by a failure.
pub proof fn request_is_passed_on_with_its_action(
    read: Result<EpicRequest, String>,
    features: Features,
    res: Result<(EpicRequest, Action), String>,
    action: &str,
    found: Option<Action>,
)
    requires
        call_ensures(handle, (read, &features), res),
        call_ensures(dispatch, (action, &features), found),
        read matches Ok(req) ==> action@ == req.action@,
    ensures
        read matches Err(reason) ==> (res matches Err(reply) && says_failure(
            reply@,
            "epic-native-bad-request"@,
            reason@,
        )),
        read is Ok && found is Some ==> res == Ok::<(EpicRequest, Action), String>(
            (read->Ok_0, found->0),
        ),
        read is Ok && found is None ==> (res matches Err(reply) && says_failure(
            reply@,
            "epic-native-bad-action"@,
            "Unsupported Epic action"@,
        )),
{
    lemma_failure_keys();
}

/// The reply of the wallet goes back as it is, and a failure of the wallet is
/// answered by its reason.
pub proof fn wallet_failure_is_replied(result: Result<String, String>, res: String)
    requires
        call_ensures(wallet_reply, (result,), res),
    ensures
        result matches Ok(reply) ==> res@ == reply@,
        result matches Err(message) ==> says_failure(
            res@,
            "epic-native-wallet-error"@,
            message@,
        ),
{
    lemma_failure_keys();
}

} // verus!
