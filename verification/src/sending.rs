//! Sending: how much, and what is to be done when it goes wrong.

use serde_json::Value;
use vstd::prelude::*;

use crate::epicbox::channel::connection_advice;
use crate::json::{self, extensible, json, lemma_tabular, members, Json};
use crate::outputs::{capped, output_totals, spendable, Output};
use crate::request::{
    given, given_text, means_yes, ok, ok_document, replies, request_bool, requested_fee,
    requested_or_default_fee, required, required_text, EpicRequest,
};
use crate::text::{
    contains, contains_text, join, join3, lemma_contains_middle, lower_text, lowered, occurs_at,
};

verus! {

/// How many fees are tried before the last one is taken.
pub const FEE_ROUNDS: u32 = 6;

/// Sending all that can be spent: the amount depends on the fee, and the fee on the amount.
#[derive(Copy, Clone)]
pub struct MaxSend {
    /// What can be spent.
    pub spendable: u64,
    /// The fee that is tried.
    pub fee: u64,
    /// How many fees were estimated.
    pub rounds: u32,
}

/// What follows from a fee.
#[derive(Copy, Clone)]
pub enum MaxStep {
    /// Estimate the fee for this amount.
    Estimate { amount: u64 },
    /// Send this amount.
    Send { amount: u64 },
    /// There is not enough for the fee.
    NotEnough { required: u64, available: u64 },
    /// Nothing is left beside the fee.
    NothingLeft,
}

impl MaxSend {
    /// What follows from the fee that is tried: as long as fees are tried, an
    /// estimate for what is left beside it; after that, what is left.
    pub open spec fn step(self) -> MaxStep {
        if self.rounds < FEE_ROUNDS {
            if self.spendable <= self.fee {
                MaxStep::NotEnough { required: self.fee, available: self.spendable }
            } else {
                MaxStep::Estimate { amount: (self.spendable - self.fee) as u64 }
            }
        } else if self.spendable <= self.fee {
            MaxStep::NothingLeft
        } else {
            MaxStep::Send { amount: (self.spendable - self.fee) as u64 }
        }
    }

    /// Where the search stands after an estimate, and what follows. It ends
    /// where the estimate is the fee that was tried.
    pub open spec fn after(self, estimate: u64) -> (MaxSend, MaxStep) {
        if estimate == self.fee {
            (self, MaxStep::Send { amount: (self.spendable - self.fee) as u64 })
        } else {
            let next = MaxSend { fee: estimate, rounds: (self.rounds + 1) as u32, ..self };
            (next, next.step())
        }
    }

    /// The search for the amount, with the first fee to try.
    pub fn new(can_spend: u64, fee: u64) -> (res: (MaxSend, MaxStep))
        ensures
            res.0 == (MaxSend { spendable: can_spend, fee, rounds: 0 }),
            res.1 == res.0.step(),
    {
        let search = MaxSend { spendable: can_spend, fee, rounds: 0 };
        let step = search.next_step();
        (search, step)
    }

    fn next_step(&self) -> (res: MaxStep)
        ensures
            res == self.step(),
    {
        if self.rounds < FEE_ROUNDS {
            if self.spendable <= self.fee {
                MaxStep::NotEnough { required: self.fee, available: self.spendable }
            } else {
                MaxStep::Estimate { amount: self.spendable - self.fee }
            }
        } else if self.spendable <= self.fee {
            MaxStep::NothingLeft
        } else {
            MaxStep::Send { amount: self.spendable - self.fee }
        }
    }

    /// Takes in the fee that was estimated and says what follows.
    pub fn estimated(&mut self, estimate: u64) -> (res: MaxStep)
        requires
            old(self).step() is Estimate,
        ensures
            (*final(self), res) == old(self).after(estimate),
    {
        if estimate == self.fee {
            return MaxStep::Send { amount: self.spendable - self.fee };
        }
        self.fee = estimate;
        self.rounds = self.rounds + 1;
        self.next_step()
    }
}

/// What comes of a search in which the fees in `estimates` are estimated, one after the other.
pub open spec fn searched(search: MaxSend, estimates: Seq<u64>) -> (MaxSend, MaxStep)
    decreases estimates.len(),
{
    if search.step() is Estimate && estimates.len() > 0 {
        let (next, step) = search.after(estimates[0]);
        if step is Estimate {
            searched(next, estimates.drop_first())
        } else {
            (next, step)
        }
    } else {
        (search, search.step())
    }
}

/// Whatever fees are estimated, the search is over after as many as are tried
/// at most. What it sends is not zero, and leaves the fee that the search
/// ended with and nothing else.
pub proof fn max_send_leaves_the_fee(search: MaxSend, estimates: Seq<u64>)
    requires
        search.rounds <= FEE_ROUNDS,
        estimates.len() >= FEE_ROUNDS - search.rounds,
    ensures
        !(searched(search, estimates).1 is Estimate),
        searched(search, estimates).1 matches MaxStep::Send { amount } ==> {
            &&& amount > 0
            &&& amount + searched(search, estimates).0.fee == search.spendable
        },
    decreases estimates.len(),
{
    if search.step() is Estimate && estimates.len() > 0 {
        let (next, step) = search.after(estimates[0]);
        if step is Estimate {
            max_send_leaves_the_fee(next, estimates.drop_first());
        }
    }
}

/// A search that ends before the last round ends because an estimate confirmed
/// the fee that was tried.
pub proof fn early_end_is_confirmed(search: MaxSend, estimate: u64)
    requires
        search.step() is Estimate,
        search.rounds + 1 < FEE_ROUNDS,
        search.after(estimate).1 is Send,
    ensures
        estimate == search.fee,
        search.after(estimate).0.fee == estimate,
{
}

/// What a transaction is made with.
pub struct InitTxArgs {
    pub amount: u64,
    pub minimum_confirmations: u64,
    pub max_outputs: u32,
    pub num_change_outputs: u32,
    pub selection_strategy_is_use_all: bool,
    pub message: Option<String>,
}

/// Whether `args` make a transaction over `amount` with this message: from
/// outputs with one confirmation, of which there may be 500 and not all have to
/// be used, with one output for the change.
pub open spec fn sends(args: InitTxArgs, amount: u64, message: Option<String>) -> bool {
    &&& args.amount == amount
    &&& args.minimum_confirmations == 1
    &&& args.max_outputs == 500
    &&& args.num_change_outputs == 1
    &&& !args.selection_strategy_is_use_all
    &&& match (args.message, message) {
        (Some(given_message), Some(memo)) => given_message@ == memo@,
        (None, None) => true,
        _ => false,
    }
}

/// What a transaction over `amount` is made with.
pub fn init_tx_args(req: &EpicRequest, amount: u64) -> (res: InitTxArgs)
    ensures
        sends(res, amount, req.memo),
{
    let message = match &req.memo {
        Some(memo) => Some(memo.clone()),
        None => None,
    };
    InitTxArgs {
        amount,
        minimum_confirmations: 1,
        max_outputs: 500,
        num_change_outputs: 1,
        selection_strategy_is_use_all: false,
        message,
    }
}

/// How far the preparation of a transaction has come.
#[derive(Copy, Clone)]
pub enum Preparing {
    /// The wallet is being opened.
    Opening,
    /// The amount is being read.
    ReadingAmount,
    /// The wallet is being brought up to date.
    Refreshing,
    /// The outputs are being retrieved; the wallet says that this can be spent.
    Totalling { currently_spendable: u64 },
    /// The fee is being read.
    ReadingFee { spendable: u64 },
    /// A fee is being estimated.
    Estimating { search: MaxSend },
    /// The amounts of a failure are being written.
    Wording,
    /// The transaction is being made.
    Creating { amount: u64 },
    /// It is made, or has failed.
    Done,
}

/// What happened while a transaction is prepared.
pub enum PrepareEvent {
    /// The wallet was opened, or the failure.
    Opened(Result<(), String>),
    /// The amount was read, or the reason why not.
    AmountRead(Result<u64, String>),
    /// The last block and what can be spent by what the wallet says of itself, or the reason why not.
    Refreshed(Result<(u64, u64), String>),
    /// The outputs, where they could be had.
    Retrieved(Option<Vec<Output>>),
    /// What the fee of the request was read as, where there was one, and what the default was.
    FeeRead { requested: Option<Result<u64, String>>, default: Result<u64, String> },
    /// The fee was estimated, or the reason why not.
    Estimated(Result<u64, String>),
    /// The amounts as text.
    Worded { required: String, available: String },
    /// The transaction was made, or the reason why not.
    Created(Result<(), String>),
}

/// What is to be done to prepare a transaction.
pub enum PrepareAction {
    /// Read this amount.
    ReadAmount(String),
    /// Bring the wallet up to date with the node.
    Refresh,
    /// Retrieve the outputs, as they can be spent at this block.
    Retrieve { height: u64 },
    /// Read the fee of the request, where there is one, and the default.
    ReadFee { requested: Option<String> },
    /// Estimate the fee for this amount.
    Estimate { amount: u64 },
    /// Write these amounts as text.
    Word { required: u64, available: u64 },
    /// Make the transaction.
    Create(InitTxArgs),
    /// It is made over this amount.
    Prepared { amount: u64 },
    /// Give up.
    Fail(String),
}

/// Whether `event` can happen to a preparation that has come this far.
pub open spec fn awaits(stage: Preparing, event: PrepareEvent) -> bool {
    match event {
        PrepareEvent::Opened(_) => stage is Opening,
        PrepareEvent::AmountRead(_) => stage is ReadingAmount,
        PrepareEvent::Refreshed(_) => stage is Refreshing,
        PrepareEvent::Retrieved(_) => stage is Totalling,
        PrepareEvent::FeeRead { .. } => stage is ReadingFee,
        PrepareEvent::Estimated(_) => stage matches Preparing::Estimating { search }
            && search.step() is Estimate,
        PrepareEvent::Worded { .. } => stage is Wording,
        PrepareEvent::Created(_) => stage is Creating,
    }
}

/// Whether a preparation has failed in these words.
pub open spec fn gave_up(res: (Preparing, PrepareAction), words: Seq<char>) -> bool {
    &&& res.0 is Done
    &&& res.1 matches PrepareAction::Fail(message) && message@ == words
}

/// Whether a preparation goes on with a transaction over `amount`.
pub open spec fn creates(res: (Preparing, PrepareAction), req: EpicRequest, amount: u64) -> bool {
    &&& res.0 == (Preparing::Creating { amount })
    &&& res.1 matches PrepareAction::Create(args) && sends(args, amount, req.memo)
}

/// Whether a preparation goes on as the search for the amount asks.
pub open spec fn searches(
    res: (Preparing, PrepareAction),
    req: EpicRequest,
    search: MaxSend,
    step: MaxStep,
) -> bool {
    match step {
        MaxStep::Estimate { amount } => res == (
            Preparing::Estimating { search },
            PrepareAction::Estimate { amount },
        ),
        MaxStep::Send { amount } => creates(res, req, amount),
        MaxStep::NotEnough { required, available } => res == (
            Preparing::Wording,
            PrepareAction::Word { required, available },
        ),
        MaxStep::NothingLeft => gave_up(
            res,
            "Epic transaction create: Not enough funds after fee"@,
        ),
    }
}

/// The words for a fee that is more than what can be spent.
pub open spec fn not_enough(required: Seq<char>, available: Seq<char>) -> Seq<char> {
    "Epic transaction create: Not enough funds. Required: "@ + required + ", Available: "@
        + available
}

/// Whether `res` is where a preparation stands after `event`, and what is to be done then.
pub open spec fn follows(
    req: EpicRequest,
    stage: Preparing,
    event: PrepareEvent,
    res: (Preparing, PrepareAction),
) -> bool {
    match (stage, event) {
        (_, PrepareEvent::Opened(Err(message))) => gave_up(res, message@),
        (_, PrepareEvent::Opened(Ok(_))) => if wants_all(req) {
            res == (Preparing::Refreshing, PrepareAction::Refresh)
        } else {
            match given(req.amount) {
                Some(amount) => {
                    &&& res.0 is ReadingAmount
                    &&& res.1 matches PrepareAction::ReadAmount(text) && text@ == amount
                },
                None => gave_up(res, "Amount is required"@),
            }
        },
        (_, PrepareEvent::AmountRead(Ok(amount))) => creates(res, req, amount),
        (_, PrepareEvent::AmountRead(Err(reason))) => gave_up(res, "Epic amount: "@ + reason@),
        (_, PrepareEvent::Refreshed(Ok((height, currently_spendable)))) => res == (
            Preparing::Totalling { currently_spendable },
            PrepareAction::Retrieve { height },
        ),
        (_, PrepareEvent::Refreshed(Err(reason))) => gave_up(
            res,
            "Epic balance refresh: "@ + reason@,
        ),
        (Preparing::Totalling { currently_spendable }, PrepareEvent::Retrieved(outputs)) => {
            &&& res.0 == (Preparing::ReadingFee {
                spendable: match outputs {
                    Some(found) => capped(spendable(found@)),
                    None => currently_spendable,
                },
            })
            &&& res.1 matches PrepareAction::ReadFee { requested }
            &&& match requested {
                Some(text) => given(req.fee) == Some(text@),
                None => given(req.fee) is None,
            }
        },
        (
            Preparing::ReadingFee { spendable },
            PrepareEvent::FeeRead { requested: Some(Err(reason)), default },
        ) => gave_up(res, "Epic fee: "@ + reason@),
        (Preparing::ReadingFee { spendable }, PrepareEvent::FeeRead { requested, default }) => {
            match (requested, default) {
                (Some(Ok(fee)), _) if fee > 0 => {
                    let search = MaxSend { spendable, fee, rounds: 0 };
                    searches(res, req, search, search.step())
                },
                (_, Ok(fee)) => {
                    let search = MaxSend { spendable, fee, rounds: 0 };
                    searches(res, req, search, search.step())
                },
                (_, Err(reason)) => gave_up(res, "Epic default fee: "@ + reason@),
            }
        },
        (Preparing::Estimating { search }, PrepareEvent::Estimated(Ok(fee))) => searches(
            res,
            req,
            search.after(fee).0,
            search.after(fee).1,
        ),
        (_, PrepareEvent::Estimated(Err(reason))) => gave_up(
            res,
            "Epic max fee estimate: "@ + reason@,
        ),
        (_, PrepareEvent::Worded { required, available }) => gave_up(
            res,
            not_enough(required@, available@),
        ),
        (Preparing::Creating { amount }, PrepareEvent::Created(Ok(_))) => res == (
            Preparing::Done,
            PrepareAction::Prepared { amount },
        ),
        (_, PrepareEvent::Created(Err(reason))) => gave_up(
            res,
            "Epic transaction create: "@ + reason@,
        ),
        _ => true,
    }
}

/// Whether a request asks to send all that can be spent.
pub open spec fn wants_all(req: EpicRequest) -> bool {
    match req.send_max {
        Some(text) => means_yes(text@),
        None => false,
    }
}

/// Goes on as the search for the amount asks.
fn go_on(req: &EpicRequest, search: MaxSend, step: MaxStep) -> (res: (Preparing, PrepareAction))
    ensures
        searches(res, *req, search, step),
{
    match step {
        MaxStep::Estimate { amount } => (
            Preparing::Estimating { search },
            PrepareAction::Estimate { amount },
        ),
        MaxStep::Send { amount } => create(req, amount),
        MaxStep::NotEnough { required, available } => (
            Preparing::Wording,
            PrepareAction::Word { required, available },
        ),
        MaxStep::NothingLeft => give_up(
            String::from_str("Epic transaction create: Not enough funds after fee"),
        ),
    }
}

fn create(req: &EpicRequest, amount: u64) -> (res: (Preparing, PrepareAction))
    ensures
        creates(res, *req, amount),
{
    (Preparing::Creating { amount }, PrepareAction::Create(init_tx_args(req, amount)))
}

fn give_up(message: String) -> (res: (Preparing, PrepareAction))
    ensures
        gave_up(res, message@),
{
    (Preparing::Done, PrepareAction::Fail(message))
}

fn give_up_for(label: &str, reason: String) -> (res: (Preparing, PrepareAction))
    ensures
        gave_up(res, label@ + reason@),
{
    give_up(join(label, reason.as_str()))
}

/// Begins with the amount of the request, or with what can be spent where it asks for all of it.
fn begin(req: &EpicRequest) -> (res: (Preparing, PrepareAction))
    ensures
        follows(*req, Preparing::Opening, PrepareEvent::Opened(Ok(())), res),
{
    let all = match &req.send_max {
        Some(text) => request_bool(Some(text.as_str())),
        None => false,
    };
    if all {
        return (Preparing::Refreshing, PrepareAction::Refresh);
    }
    match given_text(&req.amount) {
        Some(text) => (Preparing::ReadingAmount, PrepareAction::ReadAmount(text)),
        None => give_up(String::from_str("Amount is required")),
    }
}

/// Takes in what happened while a transaction is prepared and says what is to be done.
pub fn prepare_send(req: &EpicRequest, stage: Preparing, event: PrepareEvent) -> (res: (
    Preparing,
    PrepareAction,
))
    requires
        awaits(stage, event),
    ensures
        follows(*req, stage, event, res),
{
    match (stage, event) {
        (_, PrepareEvent::Opened(Err(message))) => give_up(message),
        (_, PrepareEvent::Opened(Ok(()))) => begin(req),
        (_, PrepareEvent::AmountRead(Ok(amount))) => create(req, amount),
        (_, PrepareEvent::AmountRead(Err(reason))) => give_up_for("Epic amount: ", reason),
        (_, PrepareEvent::Refreshed(Ok((height, currently_spendable)))) => (
            Preparing::Totalling { currently_spendable },
            PrepareAction::Retrieve { height },
        ),
        (_, PrepareEvent::Refreshed(Err(reason))) => give_up_for("Epic balance refresh: ", reason),
        (Preparing::Totalling { currently_spendable }, PrepareEvent::Retrieved(outputs)) => {
            let can_spend = match outputs {
                Some(found) => output_totals(&found).1,
                None => currently_spendable,
            };
            (
                Preparing::ReadingFee { spendable: can_spend },
                PrepareAction::ReadFee { requested: requested_fee(req) },
            )
        },
        (
            Preparing::ReadingFee { spendable: can_spend },
            PrepareEvent::FeeRead { requested, default },
        ) => match requested_or_default_fee(requested, default) {
            Ok(fee) => {
                let (search, step) = MaxSend::new(can_spend, fee);
                go_on(req, search, step)
            },
            Err(message) => give_up(message),
        },
        (Preparing::Estimating { search }, PrepareEvent::Estimated(Ok(fee))) => {
            let mut next = search;
            let step = next.estimated(fee);
            go_on(req, next, step)
        },
        (_, PrepareEvent::Estimated(Err(reason))) => give_up_for(
            "Epic max fee estimate: ",
            reason,
        ),
        (_, PrepareEvent::Worded { required: needed, available }) => {
            let start = join3(
                "Epic transaction create: Not enough funds. Required: ",
                needed.as_str(),
                ", Available: ",
            );
            give_up(join(start.as_str(), available.as_str()))
        },
        (Preparing::Creating { amount }, PrepareEvent::Created(Ok(()))) => (
            Preparing::Done,
            PrepareAction::Prepared { amount },
        ),
        (_, PrepareEvent::Created(Err(reason))) => give_up_for("Epic transaction create: ", reason),
        // No other event is awaited.
        (other, _) => (other, PrepareAction::Refresh),
    }
}

/// A preparation that estimates a fee awaits the estimate.
pub proof fn estimates_are_awaited(
    req: EpicRequest,
    stage: Preparing,
    event: PrepareEvent,
    res: (Preparing, PrepareAction),
    estimate: Result<u64, String>,
)
    requires
        awaits(stage, event),
        follows(req, stage, event, res),
        res.0 is Estimating,
    ensures
        awaits(res.0, PrepareEvent::Estimated(estimate)),
{
}

/// Whether an error says that the epicbox server cannot be reached.
pub open spec fn says_unreachable(text: Seq<char>) -> bool {
    contains(lowered(text), "can't connect to the epicbox server"@) || contains(
        lowered(text),
        "native-tls"@,
    ) || contains(lowered(text), "os error 10060"@)
}

/// An error of the epicbox adapter as it is shown.
pub open spec fn sanitized(text: Seq<char>) -> Seq<char> {
    if says_unreachable(text) {
        "Epicbox server is not reachable. Please try again in a moment."@
    } else {
        text
    }
}

/// An error of the epicbox adapter as it is shown.
pub fn sanitize_epicbox_error(text: &str) -> (res: String)
    ensures
        res@ == sanitized(text@),
{
    let lower = lower_text(text);
    if contains_text(lower.as_str(), "can't connect to the epicbox server") || contains_text(
        lower.as_str(),
        "native-tls",
    ) || contains_text(lower.as_str(), "os error 10060") {
        return String::from_str("Epicbox server is not reachable. Please try again in a moment.");
    }
    String::from_str(text)
}

/// `lowered` goes through the parts of a text.
proof fn lemma_lowered_parts(a: Seq<char>, b: Seq<char>)
    ensures
        lowered(a + b) == lowered(a) + lowered(b),
{
    assert(lowered(a + b) =~= lowered(a) + lowered(b));
}

/// An error that holds the advice on a connection that failed, whatever stands
/// before and behind it, is shown as a server that cannot be reached.
pub proof fn failed_connection_is_unreachable(before: Seq<char>, after: Seq<char>)
    ensures
        sanitized(before + connection_advice() + after)
            == "Epicbox server is not reachable. Please try again in a moment."@,
{
    let advice = connection_advice();
    let needle = "can't connect to the epicbox server"@;
    reveal_strlit("can't connect to the epicbox server");
    reveal_strlit(
        "\nCan't connect to the epicbox server!\nCheck your epic-wallet.toml settings and make sure epicbox domain is correct.\n",
    );
    assert(lowered(advice).subrange(1, needle.len() as int + 1) =~= needle);
    assert(occurs_at(lowered(advice), needle, 1));
    lemma_lowered_parts(before, advice);
    lemma_lowered_parts(before + advice, after);
    lemma_contains_middle(lowered(before), lowered(advice), lowered(after), needle);
}

/// How taking back a transaction ended.
pub enum Rollback {
    /// It was taken back.
    Done,
    /// There was none to take back.
    Missing,
    /// It failed, with the reason.
    Failed(String),
}

/// What is said of a transaction that failed with `message` and was taken back.
pub open spec fn rolled_back(message: Seq<char>, rollback: Rollback) -> Seq<char> {
    match rollback {
        Rollback::Failed(reason) => message + " Local transaction rollback failed: "@ + reason@,
        _ => message,
    }
}

/// What is said of a transaction that failed with `message` and was taken back.
pub fn rollback_message(message: String, rollback: Rollback) -> (res: String)
    ensures
        res@ == rolled_back(message@, rollback),
{
    match rollback {
        Rollback::Failed(reason) => join3(
            message.as_str(),
            " Local transaction rollback failed: ",
            reason.as_str(),
        ),
        Rollback::Done | Rollback::Missing => message,
    }
}

/// What is said of a transaction.
pub struct SentTexts {
    pub txid: String,
    pub amount: String,
    pub fee: String,
}

/// What is reported of a transaction that was sent.
pub open spec fn sent_document(address: Seq<char>, texts: SentTexts) -> Json {
    Json::Object(
        map![
            "code"@ => Json::Text("epic-native-epicbox-sent"@),
            "address"@ => Json::Text(address),
            "txid"@ => Json::Text(texts.txid@),
            "amount"@ => Json::Text(texts.amount@),
            "fee"@ => Json::Text(texts.fee@),
            "balance"@ => Json::Text("0"@),
            "spendable"@ => Json::Text("0"@),
            "transactions"@ => Json::Array(Seq::empty()),
        ],
    )
}

/// Puts the balances and transactions that a reply to a sender holds: none.
pub(crate) fn set_nothing(payload: &mut Value)
    requires
        extensible(json(*old(payload))),
    ensures
        json(*final(payload)) == Json::Object(
            members(json(*old(payload))).insert("balance"@, Json::Text("0"@)).insert(
                "spendable"@,
                Json::Text("0"@),
            ).insert("transactions"@, Json::Array(Seq::empty())),
        ),
{
    json::set(payload, "balance", json::string("0"));
    json::set(payload, "spendable", json::string("0"));
    let none: Vec<Value> = Vec::new();
    assert(none@.map_values(|item: Value| json(item)) =~= Seq::<Json>::empty());
    json::set(payload, "transactions", json::array(none));
}

/// What is reported of a transaction that was sent.
pub fn sent_payload(address: &str, texts: &SentTexts) -> (res: Value)
    ensures
        json(res) == sent_document(address@, *texts),
{
    let mut payload = json::null();
    json::set(&mut payload, "code", json::string("epic-native-epicbox-sent"));
    json::set(&mut payload, "address", json::string(address));
    json::set(&mut payload, "txid", json::string(texts.txid.as_str()));
    json::set(&mut payload, "amount", json::string(texts.amount.as_str()));
    json::set(&mut payload, "fee", json::string(texts.fee.as_str()));
    set_nothing(&mut payload);
    payload
}

/// What happened to a transaction that is sent over an epicbox connection of its own.
pub enum SendEvent {
    /// The transaction was prepared, or the failure.
    Prepared(Result<(), String>),
    /// It was sent, or the text of the error.
    Sent(Result<(), String>),
    /// It was taken back after the failure in `message`.
    RolledBack { message: String, rollback: Rollback },
    /// The address of the wallet, or the failure, for a transaction that was sent.
    Addressed { address: Result<String, String>, texts: SentTexts },
}

/// What is to be done with a transaction that is sent.
pub enum SendAction {
    /// Send it to this destination.
    Publish { to: String },
    /// Take it back after this failure.
    RollBack { message: String },
    /// Ask for the address of the wallet.
    Address,
    /// Return.
    Return(Result<String, String>),
}

/// Takes in what happened to a transaction that is sent and says what is to be
/// done. One that could not be sent is taken back.
pub fn send(req: &EpicRequest, event: SendEvent) -> (res: SendAction)
    ensures
        match event {
            SendEvent::Prepared(Ok(_)) => match given(req.to) {
                Some(to) => res matches SendAction::Publish { to: found } && found@ == to,
                None => res matches SendAction::Return(Err(message)) && message@
                    == "Destination address is required"@,
            },
            SendEvent::Prepared(Err(message)) => res == SendAction::Return(Err(message)),
            SendEvent::Sent(Ok(_)) => res is Address,
            SendEvent::Sent(Err(error)) => res matches SendAction::RollBack { message } && message@
                == "Epicbox send: "@ + sanitized(error@),
            SendEvent::RolledBack { message, rollback } => res matches SendAction::Return(Err(said))
                && said@ == rolled_back(message@, rollback),
            SendEvent::Addressed { address: Ok(address), texts } => res matches SendAction::Return(
                Ok(reply),
            ) && replies(reply@, ok_document(sent_document(address@, texts))),
            SendEvent::Addressed { address: Err(message), texts } => res == SendAction::Return(
                Err(message),
            ),
        },
{
    match event {
        SendEvent::Prepared(Ok(())) => match required_text(
            &req.to,
            "Destination address is required",
        ) {
            Ok(to) => SendAction::Publish { to },
            Err(message) => SendAction::Return(Err(message)),
        },
        SendEvent::Prepared(Err(message)) => SendAction::Return(Err(message)),
        SendEvent::Sent(Ok(())) => SendAction::Address,
        SendEvent::Sent(Err(error)) => {
            let shown = sanitize_epicbox_error(error.as_str());
            SendAction::RollBack { message: join("Epicbox send: ", shown.as_str()) }
        },
        SendEvent::RolledBack { message, rollback } => SendAction::Return(
            Err(rollback_message(message, rollback)),
        ),
        SendEvent::Addressed { address: Ok(address), texts } => {
            proof {
                lemma_tabular(ok_document(sent_document(address@, texts)));
            }
            SendAction::Return(Ok(ok(sent_payload(address.as_str(), &texts))))
        },
        SendEvent::Addressed { address: Err(message), .. } => SendAction::Return(Err(message)),
    }
}

/// What is reported of a transaction that was prepared and not sent.
pub open spec fn prepared_document(address: Seq<char>, txid: Seq<char>, amount: Seq<char>) -> Json {
    Json::Object(
        map![
            "code"@ => Json::Text("epic-native-send-prepared"@),
            "address"@ => Json::Text(address),
            "txid"@ => Json::Text(txid),
            "amount"@ => Json::Text(amount),
        ],
    )
}

/// The reply to a request that prepares a transaction and sends nothing;
/// `address` is the address of the wallet, or the failure.
pub fn send_prepare_probe(address: Result<String, String>, txid: &str, amount: &str) -> (res: Result<
    String,
    String,
>)
    ensures
        match address {
            Ok(found) => res matches Ok(reply) && replies(
                reply@,
                ok_document(prepared_document(found@, txid@, amount@)),
            ),
            Err(message) => res == Err::<String, String>(message),
        },
{
    match address {
        Ok(found) => {
            let mut payload = json::null();
            json::set(&mut payload, "code", json::string("epic-native-send-prepared"));
            json::set(&mut payload, "address", json::string(found.as_str()));
            json::set(&mut payload, "txid", json::string(txid));
            json::set(&mut payload, "amount", json::string(amount));
            proof {
                lemma_tabular(ok_document(prepared_document(found@, txid@, amount@)));
            }
            Ok(ok(payload))
        },
        Err(message) => Err(message),
    }
}

/// What is reported of an empty slate that was sent.
pub open spec fn published_document(txid: Seq<char>) -> Json {
    Json::Object(
        map!["code"@ => Json::Text("epic-native-send-published"@), "txid"@ => Json::Text(txid)],
    )
}

/// The destination of an empty slate.
pub fn probe_destination(req: &EpicRequest) -> (res: Result<String, String>)
    ensures
        required(given(req.to), "Destination address is required"@, res),
{
    required_text(&req.to, "Destination address is required")
}

/// The reply to a request that sends an empty slate: `sent` is the identifier
/// of the slate that came back, or the text of the error.
pub fn send_publish_probe(sent: Result<String, String>) -> (res: Result<String, String>)
    ensures
        match sent {
            Ok(txid) => res matches Ok(reply) && replies(
                reply@,
                ok_document(published_document(txid@)),
            ),
            Err(error) => res matches Err(message) && message@ == "Epicbox send: "@ + error@,
        },
{
    match sent {
        Ok(txid) => {
            let mut payload = json::null();
            json::set(&mut payload, "code", json::string("epic-native-send-published"));
            json::set(&mut payload, "txid", json::string(txid.as_str()));
            proof {
                lemma_tabular(ok_document(published_document(txid@)));
            }
            Ok(ok(payload))
        },
        Err(error) => Err(join("Epicbox send: ", error.as_str())),
    }
}

} // verus!
