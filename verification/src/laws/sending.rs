//! What is relied on when something is sent.

use serde_json::Value;
use vstd::prelude::*;

use crate::json::{json, member, Json};
use crate::laws::request::{is_given, is_yes, lemma_given, says};
use crate::outputs::{output_totals, Output};
use crate::request::{requested_or_default_fee, EpicRequest};
use crate::sending::{
    init_tx_args, prepare_send, probe_destination, rollback_message, sanitize_epicbox_error, send,
    send_prepare_probe, send_publish_probe, sent_payload, InitTxArgs, MaxSend, MaxStep,
    PrepareAction, PrepareEvent, Preparing, Rollback, SendAction, SendEvent, SentTexts,
};
use crate::text::{contains, lowered, trimmed};

verus! {

/// Whether `args` make a transaction over this amount as the wallet makes all
/// of its own, with the memo of the request as the message.
pub open spec fn pays(args: InitTxArgs, amount: int, memo: Option<String>) -> bool {
    &&& args.amount == amount
    &&& args.minimum_confirmations == 1
    &&& args.max_outputs == 500
    &&& args.num_change_outputs == 1
    &&& !args.selection_strategy_is_use_all
    &&& memo is Some <==> args.message is Some
    &&& memo matches Some(text) ==> args.message->0@ == text@
}

/// A transaction is made over the amount that was decided, with the memo of
/// the request, from outputs with one confirmation.
pub proof fn transaction_is_made_over_the_amount(req: EpicRequest, amount: u64, res: InitTxArgs)
    requires
        call_ensures(init_tx_args, (&req, amount), res),
    ensures
        pays(res, amount as int, req.memo),
{
}

/// The text of a field that is there.
pub open spec fn field(value: Option<String>) -> Option<Seq<char>> {
    match value {
        Some(text) => Some(text@),
        None => None,
    }
}

/// All that can be spent is sent only where the request says yes to it in one
/// of the three words; else the amount of the request is read, and a request
/// without one is refused.
pub proof fn all_is_sent_only_on_yes(req: EpicRequest, res: (Preparing, PrepareAction))
    requires
        call_ensures(
            prepare_send,
            (&req, Preparing::Opening, PrepareEvent::Opened(Ok(()))),
            res,
        ),
    ensures
        is_yes(field(req.send_max)) ==> res.0 is Refreshing && res.1 is Refresh,
        !is_yes(field(req.send_max)) && is_given(req.amount) ==> {
            &&& res.0 is ReadingAmount
            &&& res.1 matches PrepareAction::ReadAmount(text) && text@ == req.amount->0@
        },
        !is_yes(field(req.send_max)) && !is_given(req.amount) ==> {
            &&& res.0 is Done
            &&& res.1 matches PrepareAction::Fail(message) && message@ == "Amount is required"@
        },
        req.send_max is None ==> !(res.1 is Refresh),
        req.send_max matches Some(text) ==> (res.1 is Refresh <==> lowered(trimmed(text@))
            == "true"@ || lowered(trimmed(text@)) == "1"@ || lowered(trimmed(text@)) == "yes"@),
{
    lemma_given(req.amount);
}

/// The amount that was read is the amount of the transaction, and the
/// transaction that was made is reported over the same amount.
pub proof fn read_amount_is_sent(
    req: EpicRequest,
    amount: u64,
    made: (Preparing, PrepareAction),
    done: (Preparing, PrepareAction),
)
    requires
        call_ensures(
            prepare_send,
            (&req, Preparing::ReadingAmount, PrepareEvent::AmountRead(Ok(amount))),
            made,
        ),
        call_ensures(prepare_send, (&req, made.0, PrepareEvent::Created(Ok(()))), done),
    ensures
        made.0 == (Preparing::Creating { amount }),
        made.1 matches PrepareAction::Create(args) && pays(args, amount as int, req.memo),
        done.0 is Done,
        done.1 == (PrepareAction::Prepared { amount }),
{
}

/// Outputs are asked for at the last block of the wallet, and what can be spent
/// is what they add up to, or what the wallet says of itself where they could
/// not be had. Then the fee is read that the request names, if it names one.
pub proof fn all_is_what_the_outputs_add_up_to(
    req: EpicRequest,
    height: u64,
    currently_spendable: u64,
    refreshed: (Preparing, PrepareAction),
    outputs: Vec<Output>,
    sums: (u64, u64),
    counted: (Preparing, PrepareAction),
    not_counted: (Preparing, PrepareAction),
)
    requires
        call_ensures(
            prepare_send,
            (
                &req,
                Preparing::Refreshing,
                PrepareEvent::Refreshed(Ok((height, currently_spendable))),
            ),
            refreshed,
        ),
        call_ensures(output_totals, (&outputs,), sums),
        call_ensures(
            prepare_send,
            (&req, refreshed.0, PrepareEvent::Retrieved(Some(outputs))),
            counted,
        ),
        call_ensures(
            prepare_send,
            (&req, refreshed.0, PrepareEvent::Retrieved(None)),
            not_counted,
        ),
    ensures
        refreshed.1 == (PrepareAction::Retrieve { height }),
        counted.0 == (Preparing::ReadingFee { spendable: sums.1 }),
        not_counted.0 == (Preparing::ReadingFee { spendable: currently_spendable }),
        counted.1 matches PrepareAction::ReadFee { requested } && (requested is Some <==> is_given(
            req.fee,
        )) && (requested matches Some(text) ==> text@ == req.fee->0@),
        not_counted.1 matches PrepareAction::ReadFee { requested } && (requested is Some
            <==> is_given(req.fee)) && (requested matches Some(text) ==> text@ == req.fee->0@),
{
    lemma_given(req.fee);
}

/// The first fee that is tried is the one that was read. Where it is less than
/// what can be spent, the fee for the rest is estimated; else there is not
/// enough. A fee that could not be read ends the preparation.
pub proof fn read_fee_is_tried_first(
    req: EpicRequest,
    spendable: u64,
    requested: Option<Result<u64, String>>,
    default: Result<u64, String>,
    read: Result<u64, String>,
    res: (Preparing, PrepareAction),
)
    requires
        call_ensures(requested_or_default_fee, (requested, default), read),
        call_ensures(
            prepare_send,
            (
                &req,
                Preparing::ReadingFee { spendable },
                PrepareEvent::FeeRead { requested, default },
            ),
            res,
        ),
    ensures
        read matches Err(message) ==> res.0 is Done && (res.1 matches PrepareAction::Fail(said)
            && said@ == message@),
        read matches Ok(fee) ==> {
            &&& fee < spendable ==> res.0 == (Preparing::Estimating {
                search: MaxSend { spendable, fee, rounds: 0 },
            }) && res.1 == (PrepareAction::Estimate { amount: (spendable - fee) as u64 })
            &&& fee >= spendable ==> res.0 is Wording && res.1 == (PrepareAction::Word {
                required: fee,
                available: spendable,
            })
        },
{
}

/// An estimate that is the fee that was tried ends the search: the rest is
/// sent. Any other is tried next, up to six times; the seventh fee is taken
/// without an estimate. What is sent and the fee are together all that can be
/// spent, and a fee that leaves nothing ends the search without a transaction.
pub proof fn all_is_sent_beside_the_fee(
    req: EpicRequest,
    search: MaxSend,
    estimate: u64,
    res: (Preparing, PrepareAction),
)
    requires
        search.rounds < 6,
        search.fee < search.spendable,
        call_ensures(
            prepare_send,
            (&req, Preparing::Estimating { search }, PrepareEvent::Estimated(Ok(estimate))),
            res,
        ),
    ensures
        estimate == search.fee ==> {
            &&& res.0 == (Preparing::Creating { amount: (search.spendable - search.fee) as u64 })
            &&& res.1 matches PrepareAction::Create(args) && pays(
                args,
                search.spendable - search.fee,
                req.memo,
            )
        },
        estimate != search.fee && search.rounds < 5 && estimate < search.spendable ==> {
            &&& res.0 == (Preparing::Estimating {
                search: MaxSend {
                    spendable: search.spendable,
                    fee: estimate,
                    rounds: (search.rounds + 1) as u32,
                },
            })
            &&& res.1 == (PrepareAction::Estimate {
                amount: (search.spendable - estimate) as u64,
            })
        },
        estimate != search.fee && search.rounds < 5 && estimate >= search.spendable ==> {
            &&& res.0 is Wording
            &&& res.1 == (PrepareAction::Word {
                required: estimate,
                available: search.spendable,
            })
        },
        estimate != search.fee && search.rounds == 5 && estimate < search.spendable ==> {
            &&& res.0 == (Preparing::Creating { amount: (search.spendable - estimate) as u64 })
            &&& res.1 matches PrepareAction::Create(args) && pays(
                args,
                search.spendable - estimate,
                req.memo,
            )
        },
        estimate != search.fee && search.rounds == 5 && estimate >= search.spendable ==> {
            &&& res.0 is Done
            &&& res.1 matches PrepareAction::Fail(message) && message@
                == "Epic transaction create: Not enough funds after fee"@
        },
{
}

/// The search by itself goes the same way.
pub proof fn search_starts_with_the_first_fee(can_spend: u64, fee: u64, res: (MaxSend, MaxStep))
    requires
        call_ensures(MaxSend::new, (can_spend, fee), res),
    ensures
        res.0 == (MaxSend { spendable: can_spend, fee, rounds: 0 }),
        fee < can_spend ==> res.1 == (MaxStep::Estimate { amount: (can_spend - fee) as u64 }),
        fee >= can_spend ==> res.1 == (MaxStep::NotEnough { required: fee, available: can_spend }),
{
}

/// Whether a preparation has failed in these words.
pub open spec fn failed_in(res: (Preparing, PrepareAction), words: Seq<char>) -> bool {
    res.0 is Done && (res.1 matches PrepareAction::Fail(message) && message@ == words)
}

/// Every step of a preparation that fails ends it, in words that say which
/// step failed and why.
pub proof fn failed_step_ends_the_preparation(
    req: EpicRequest,
    reason: String,
    amount: u64,
    search: MaxSend,
    required: String,
    available: String,
    not_opened: (Preparing, PrepareAction),
    not_read: (Preparing, PrepareAction),
    not_refreshed: (Preparing, PrepareAction),
    not_estimated: (Preparing, PrepareAction),
    not_enough: (Preparing, PrepareAction),
    not_created: (Preparing, PrepareAction),
)
    requires
        call_ensures(
            prepare_send,
            (&req, Preparing::Opening, PrepareEvent::Opened(Err(reason))),
            not_opened,
        ),
        call_ensures(
            prepare_send,
            (&req, Preparing::ReadingAmount, PrepareEvent::AmountRead(Err(reason))),
            not_read,
        ),
        call_ensures(
            prepare_send,
            (&req, Preparing::Refreshing, PrepareEvent::Refreshed(Err(reason))),
            not_refreshed,
        ),
        call_ensures(
            prepare_send,
            (&req, Preparing::Estimating { search }, PrepareEvent::Estimated(Err(reason))),
            not_estimated,
        ),
        call_ensures(
            prepare_send,
            (&req, Preparing::Wording, PrepareEvent::Worded { required, available }),
            not_enough,
        ),
        call_ensures(
            prepare_send,
            (&req, Preparing::Creating { amount }, PrepareEvent::Created(Err(reason))),
            not_created,
        ),
    ensures
        failed_in(not_opened, reason@),
        failed_in(not_read, "Epic amount: "@ + reason@),
        failed_in(not_refreshed, "Epic balance refresh: "@ + reason@),
        failed_in(not_estimated, "Epic max fee estimate: "@ + reason@),
        failed_in(
            not_enough,
            "Epic transaction create: Not enough funds. Required: "@ + required@ + ", Available: "@
                + available@,
        ),
        failed_in(not_created, "Epic transaction create: "@ + reason@),
{
}

/// An error that speaks, in any case, of a server that cannot be connected to,
/// of the encryption or of a timeout of the operating system is shown as one
/// sentence, and every other as it is.
pub proof fn unreachable_server_is_shown_as_such(text: &str, res: String)
    requires
        call_ensures(sanitize_epicbox_error, (text,), res),
    ensures
        ({
            let lower = lowered(text@);
            let speaks = contains(lower, "can't connect to the epicbox server"@) || contains(
                lower,
                "native-tls"@,
            ) || contains(lower, "os error 10060"@);
            &&& speaks ==> res@
                == "Epicbox server is not reachable. Please try again in a moment."@
            &&& !speaks ==> res@ == text@
        }),
{
}

/// A failure keeps its words when the transaction is taken back, with the
/// reason behind them where that failed too.
pub proof fn rollback_keeps_the_failure(message: String, rollback: Rollback, res: String)
    requires
        call_ensures(rollback_message, (message, rollback), res),
    ensures
        !(rollback is Failed) ==> res@ == message@,
        rollback matches Rollback::Failed(reason) ==> res@ == message@
            + " Local transaction rollback failed: "@ + reason@,
{
}

/// A transaction that was prepared is sent to the destination of the request,
/// and a request without one is refused; a preparation that failed is not sent.
pub proof fn prepared_transaction_goes_to_the_destination(
    req: EpicRequest,
    reason: String,
    prepared: SendAction,
    failed: SendAction,
)
    requires
        call_ensures(send, (&req, SendEvent::Prepared(Ok(()))), prepared),
        call_ensures(send, (&req, SendEvent::Prepared(Err(reason))), failed),
    ensures
        is_given(req.to) ==> (prepared matches SendAction::Publish { to } && to@ == req.to->0@),
        !is_given(req.to) ==> (prepared matches SendAction::Return(Err(message)) && message@
            == "Destination address is required"@),
        failed == SendAction::Return(Err(reason)),
{
    lemma_given(req.to);
}

/// A transaction that could not be sent is taken back, and the failure is
/// returned with what came of that.
pub proof fn unsent_transaction_is_taken_back(
    req: EpicRequest,
    error: String,
    text: &str,
    shown: String,
    unsent: SendAction,
    message: String,
    rollback: Rollback,
    said: String,
    taken_back: SendAction,
    sent: SendAction,
)
    requires
        text@ == error@,
        call_ensures(sanitize_epicbox_error, (text,), shown),
        call_ensures(send, (&req, SendEvent::Sent(Err(error))), unsent),
        call_ensures(rollback_message, (message, rollback), said),
        call_ensures(send, (&req, SendEvent::RolledBack { message, rollback }), taken_back),
        call_ensures(send, (&req, SendEvent::Sent(Ok(()))), sent),
    ensures
        unsent matches SendAction::RollBack { message: words } && words@ == "Epicbox send: "@
            + shown@,
        taken_back matches SendAction::Return(Err(words)) && words@ == said@,
        sent is Address,
{
}

/// Whether a reply says that a transaction was sent, with its identifier,
/// amount and fee, from the wallet with this address.
pub open spec fn says_sent(reply: Seq<char>, address: Seq<char>, texts: SentTexts) -> bool {
    &&& says(reply, "ok"@, Json::Bool(true))
    &&& says(reply, "code"@, Json::Text("epic-native-epicbox-sent"@))
    &&& says(reply, "address"@, Json::Text(address))
    &&& says(reply, "txid"@, Json::Text(texts.txid@))
    &&& says(reply, "amount"@, Json::Text(texts.amount@))
    &&& says(reply, "fee"@, Json::Text(texts.fee@))
    &&& says(reply, "balance"@, Json::Text("0"@))
    &&& says(reply, "spendable"@, Json::Text("0"@))
    &&& says(reply, "transactions"@, Json::Array(Seq::empty()))
}

/// The keys of a reply to a sender are different.
pub proof fn lemma_sent_keys()
    ensures
        "ok"@.len() == 2,
        "code"@.len() == 4,
        "address"@.len() == 7,
        "txid"@.len() == 4,
        "amount"@.len() == 6,
        "fee"@.len() == 3,
        "balance"@.len() == 7,
        "spendable"@.len() == 9,
        "transactions"@.len() == 12,
        "pending"@.len() == 7,
        "code"@ != "txid"@,
        "address"@ != "balance"@,
        "address"@ != "pending"@,
        "balance"@ != "pending"@,
{
    reveal_strlit("ok");
    reveal_strlit("code");
    reveal_strlit("address");
    reveal_strlit("txid");
    reveal_strlit("amount");
    reveal_strlit("fee");
    reveal_strlit("balance");
    reveal_strlit("spendable");
    reveal_strlit("transactions");
    reveal_strlit("pending");
    assert("code"@[0] != "txid"@[0]);
    assert("address"@[0] != "balance"@[0]);
    assert("address"@[0] != "pending"@[0]);
    assert("balance"@[0] != "pending"@[0]);
}

/// A transaction that was sent is reported with its identifier, its amount,
/// its fee and the address of the wallet; a failure to find that is returned.
pub proof fn sent_transaction_is_reported(
    req: EpicRequest,
    address: String,
    texts: SentTexts,
    reason: String,
    sent: SendAction,
    failed: SendAction,
)
    requires
        call_ensures(send, (&req, SendEvent::Addressed { address: Ok(address), texts }), sent),
        call_ensures(send, (&req, SendEvent::Addressed { address: Err(reason), texts }), failed),
    ensures
        sent matches SendAction::Return(Ok(reply)) && says_sent(reply@, address@, texts),
        failed == SendAction::Return(Err(reason)),
{
    lemma_sent_keys();
}

/// The payload by itself says the same.
pub proof fn sent_payload_holds_the_texts(address: &str, texts: SentTexts, res: Value)
    requires
        call_ensures(sent_payload, (address, &texts), res),
    ensures
        member(json(res), "code"@) == Some(Json::Text("epic-native-epicbox-sent"@)),
        member(json(res), "address"@) == Some(Json::Text(address@)),
        member(json(res), "txid"@) == Some(Json::Text(texts.txid@)),
        member(json(res), "amount"@) == Some(Json::Text(texts.amount@)),
        member(json(res), "fee"@) == Some(Json::Text(texts.fee@)),
{
    lemma_sent_keys();
}

/// A transaction that was prepared and not sent is reported with its
/// identifier, its amount and the address of the wallet.
pub proof fn prepared_transaction_is_reported(
    address: Result<String, String>,
    txid: &str,
    amount: &str,
    res: Result<String, String>,
)
    requires
        call_ensures(send_prepare_probe, (address, txid, amount), res),
    ensures
        address matches Err(message) ==> res == Err::<String, String>(message),
        address matches Ok(found) ==> (res matches Ok(reply) && {
            &&& says(reply@, "ok"@, Json::Bool(true))
            &&& says(reply@, "code"@, Json::Text("epic-native-send-prepared"@))
            &&& says(reply@, "address"@, Json::Text(found@))
            &&& says(reply@, "txid"@, Json::Text(txid@))
            &&& says(reply@, "amount"@, Json::Text(amount@))
        }),
{
    lemma_sent_keys();
}

/// An empty slate goes to the destination of the request, and is reported with
/// its identifier where it came back.
pub proof fn empty_slate_is_reported(
    req: EpicRequest,
    destination: Result<String, String>,
    sent: Result<String, String>,
    res: Result<String, String>,
)
    requires
        call_ensures(probe_destination, (&req,), destination),
        call_ensures(send_publish_probe, (sent,), res),
    ensures
        is_given(req.to) ==> (destination matches Ok(to) && to@ == req.to->0@),
        !is_given(req.to) ==> (destination matches Err(message) && message@
            == "Destination address is required"@),
        sent matches Ok(txid) ==> (res matches Ok(reply) && {
            &&& says(reply@, "ok"@, Json::Bool(true))
            &&& says(reply@, "code"@, Json::Text("epic-native-send-published"@))
            &&& says(reply@, "txid"@, Json::Text(txid@))
        }),
        sent matches Err(error) ==> (res matches Err(message) && message@ == "Epicbox send: "@
            + error@),
{
    lemma_given(req.to);
    lemma_sent_keys();
}

/// An estimate that is the fee that was tried ends the search; any other is
/// tried next, up to six times, and what is sent or estimated is what it leaves.
pub proof fn search_goes_on_with_the_estimate(search: &mut MaxSend, estimate: u64, res: MaxStep)
    requires
        old(search).rounds < 6,
        old(search).fee < old(search).spendable,
        call_ensures(MaxSend::estimated, (search, estimate), res),
    ensures
        final(search).spendable == old(search).spendable,
        final(search).fee == estimate,
        estimate == old(search).fee ==> res == (MaxStep::Send {
            amount: (old(search).spendable - estimate) as u64,
        }) && final(search).rounds == old(search).rounds,
        estimate != old(search).fee ==> {
            let left = old(search).spendable - estimate;
            &&& final(search).rounds == old(search).rounds + 1
            &&& left > 0 && old(search).rounds < 5 ==> res == (MaxStep::Estimate {
                amount: left as u64,
            })
            &&& left > 0 && old(search).rounds == 5 ==> res == (MaxStep::Send {
                amount: left as u64,
            })
            &&& left <= 0 && old(search).rounds < 5 ==> res == (MaxStep::NotEnough {
                required: estimate,
                available: old(search).spendable,
            })
            &&& left <= 0 && old(search).rounds == 5 ==> res is NothingLeft
        },
{
}

} // verus!
