//! What a wallet reports: its balance and its transactions.

use std::collections::{HashMap, HashSet};

use serde_json::Value;
use vstd::hash_set::StringHashSet;
use vstd::prelude::*;

use crate::block_times::{epic_time_for_height, time_at, BlockTime};
use crate::json::{self, flat, json, rows, Json};
use crate::outputs::{
    all_gone, commit_of, commit_text, commits_of, gone, gone_commit, has_outputs, is_gone, texts,
    Output,
};
use crate::request::{number_or_null, optional_number, optional_text, text_or_null};
use crate::text::{chars_of, decimal, decimal_text, hex, join, join3, to_hex};

verus! {

/// What a transaction in the log of the wallet is.
#[derive(Copy, Clone, PartialEq, Eq, Debug, Structural)]
pub enum TxLogEntryType {
    ConfirmedCoinbase,
    TxReceived,
    TxReceivedMempool,
    TxReceivedCancelled,
    TxSent,
    TxSentMempool,
    TxSentCancelled,
    /// Anything else that the wallet logs.
    Other,
}

/// Whether a transaction brings something in.
pub open spec fn incoming(tx_type: TxLogEntryType) -> bool {
    tx_type is TxReceived || tx_type is TxReceivedMempool || tx_type is ConfirmedCoinbase
}

/// The word for the direction of a transaction.
pub open spec fn direction_of(tx_type: TxLogEntryType) -> Seq<char> {
    if incoming(tx_type) {
        "incoming"@
    } else {
        "outgoing"@
    }
}

/// Whether a transaction brings something in.
pub fn is_incoming(tx_type: TxLogEntryType) -> (res: bool)
    ensures
        res == incoming(tx_type),
{
    match tx_type {
        TxLogEntryType::TxReceived
        | TxLogEntryType::TxReceivedMempool
        | TxLogEntryType::ConfirmedCoinbase => true,
        _ => false,
    }
}

/// The word for the direction of a transaction.
pub fn tx_direction(tx_type: TxLogEntryType) -> (res: &'static str)
    ensures
        res@ == direction_of(tx_type),
{
    if is_incoming(tx_type) {
        "incoming"
    } else {
        "outgoing"
    }
}

/// The word for the state of a transaction.
pub open spec fn status_of(tx_type: TxLogEntryType, confirmed: bool) -> Seq<char> {
    if confirmed {
        "confirmed"@
    } else if tx_type is TxSentMempool || tx_type is TxReceivedMempool {
        "mempool"@
    } else if tx_type is TxSentCancelled || tx_type is TxReceivedCancelled {
        "cancelled"@
    } else {
        "pending"@
    }
}

/// The word for the state of a transaction.
pub fn tx_status(tx_type: TxLogEntryType, confirmed: bool) -> (res: &'static str)
    ensures
        res@ == status_of(tx_type, confirmed),
{
    if confirmed {
        "confirmed"
    } else {
        match tx_type {
            TxLogEntryType::TxSentMempool | TxLogEntryType::TxReceivedMempool => "mempool",
            TxLogEntryType::TxSentCancelled | TxLogEntryType::TxReceivedCancelled => "cancelled",
            _ => "pending",
        }
    }
}

/// `n`, or zero where it is less.
pub open spec fn at_least_zero(n: int) -> u64 {
    if n < 0 {
        0
    } else {
        n as u64
    }
}

/// What a transaction moves, in units: what it brings in, or what it takes out
/// beside the fee; never less than zero.
pub open spec fn moved(tx_type: TxLogEntryType, credited: u64, debited: u64, fee: Option<u64>) -> u64 {
    if incoming(tx_type) {
        at_least_zero(credited - debited)
    } else {
        at_least_zero(
            debited - credited - match fee {
                Some(paid) => paid,
                None => 0,
            },
        )
    }
}

/// What a transaction moves, in units.
pub fn tx_amount(tx_type: TxLogEntryType, credited: u64, debited: u64, fee: Option<u64>) -> (res:
    u64)
    ensures
        res == moved(tx_type, credited, debited, fee),
{
    if is_incoming(tx_type) {
        credited.saturating_sub(debited)
    } else {
        let paid: u64 = match fee {
            Some(paid) => paid,
            None => 0,
        };
        debited.saturating_sub(credited).saturating_sub(paid)
    }
}

/// How many blocks confirm a transaction: none before it is confirmed, then
/// its own block and those after it; one where its block is not known or lies
/// after the tip.
pub open spec fn confirmations(confirmed: bool, height: Option<u64>, tip_height: u64) -> u64 {
    if !confirmed {
        0
    } else {
        match height {
            Some(at) => if 0 < at <= tip_height {
                (tip_height - at + 1) as u64
            } else {
                1
            },
            None => 1,
        }
    }
}

/// How many blocks confirm a transaction.
pub fn confirmation_count(confirmed: bool, height: Option<u64>, tip_height: u64) -> (res: u64)
    ensures
        res == confirmations(confirmed, height, tip_height),
{
    if !confirmed {
        return 0;
    }
    match height {
        Some(at) => if at > 0 && tip_height >= at {
            tip_height.saturating_sub(at).saturating_add(1)
        } else {
            1
        },
        None => 1,
    }
}

/// A transaction has confirmations if and only if it is confirmed, and another
/// block never takes any away.
pub proof fn confirmations_grow(confirmed: bool, height: Option<u64>, tip_height: u64, later: u64)
    requires
        tip_height <= later,
    ensures
        confirmations(confirmed, height, tip_height) > 0 <==> confirmed,
        confirmations(confirmed, height, tip_height) <= confirmations(confirmed, height, later),
{
}

/// A transaction in the log of the wallet.
pub struct TxEntry {
    pub id: u32,
    pub tx_type: TxLogEntryType,
    pub confirmed: bool,
    pub confirmation_height: Option<u64>,
    /// The excess of its kernel, where the log has it.
    pub kernel_excess: Option<Vec<u8>>,
    /// The excess of the first kernel of the transaction as it is stored.
    pub stored_kernel_excess: Option<Vec<u8>>,
    pub slate_id: Option<String>,
    /// When it was made: milliseconds since 1970, and as text.
    pub creation_timestamp: i64,
    pub creation_date: String,
    /// What came in and what went out, in units.
    pub amount_credited: u64,
    pub amount_debited: u64,
    /// What it costs, in units.
    pub fee: Option<u64>,
    /// The address at the other end.
    pub public_addr: Option<String>,
}

/// What a transaction in the log moves, in units.
pub open spec fn tx_units(tx: TxEntry) -> u64 {
    moved(tx.tx_type, tx.amount_credited, tx.amount_debited, tx.fee)
}

/// How amounts are written: the texts of amounts in units.
pub type AmountTexts = HashMap<u64, String>;

/// The text of an amount.
pub open spec fn wording(written: Map<u64, String>, units: u64) -> Seq<char> {
    written[units]@
}

/// The text of an amount.
pub fn word(written: &AmountTexts, units: u64) -> (res: String)
    requires
        written@.contains_key(units),
    ensures
        res@ == wording(written@, units),
{
    match written.get(&units) {
        Some(text) => text.clone(),
        None => String::new(),
    }
}

/// The amounts of a transaction that a report writes: what it moves, and what it costs.
pub open spec fn own_amounts(tx: TxEntry) -> Seq<u64> {
    match tx.fee {
        Some(fee) => seq![tx_units(tx), fee],
        None => seq![tx_units(tx)],
    }
}

/// The amounts of these transactions that a report writes, in order.
pub open spec fn tx_amounts(txs: Seq<TxEntry>) -> Seq<u64>
    decreases txs.len(),
{
    if txs.len() == 0 {
        Seq::empty()
    } else {
        tx_amounts(txs.drop_last()) + own_amounts(txs.last())
    }
}

/// The amounts of these outputs, in order.
pub open spec fn output_amounts(outputs: Seq<Output>) -> Seq<u64> {
    outputs.map_values(|output: Output| output.value)
}

/// Whether there is a text for each of these amounts.
pub open spec fn covers(written: Map<u64, String>, amounts: Seq<u64>) -> bool {
    forall|i: int| 0 <= i < amounts.len() ==> written.contains_key(#[trigger] amounts[i])
}

/// Texts that cover two lists of amounts together cover each.
pub proof fn lemma_covers_parts(written: Map<u64, String>, a: Seq<u64>, b: Seq<u64>)
    ensures
        covers(written, a + b) <==> covers(written, a) && covers(written, b),
{
    let both = a + b;
    if covers(written, both) {
        assert forall|i: int| 0 <= i < a.len() implies written.contains_key(#[trigger] a[i]) by {
            assert(both[i] == a[i]);
        }
        assert forall|i: int| 0 <= i < b.len() implies written.contains_key(#[trigger] b[i]) by {
            assert(both[a.len() + i] == b[i]);
        }
    }
}

/// Texts that cover the amounts of all transactions cover those of each.
proof fn lemma_covers_each(written: Map<u64, String>, txs: Seq<TxEntry>, i: int)
    requires
        covers(written, tx_amounts(txs)),
        0 <= i < txs.len(),
    ensures
        covers(written, own_amounts(txs[i])),
    decreases txs.len(),
{
    lemma_covers_parts(written, tx_amounts(txs.drop_last()), own_amounts(txs.last()));
    if i < txs.len() - 1 {
        lemma_covers_each(written, txs.drop_last(), i);
    }
}

/// The amounts of these transactions that a report writes, in order.
pub fn amounts_of_transactions(txs: &Vec<TxEntry>) -> (res: Vec<u64>)
    ensures
        res@ == tx_amounts(txs@),
{
    let mut amounts: Vec<u64> = Vec::new();
    let mut i: usize = 0;
    assert(txs@.take(0) =~= Seq::<TxEntry>::empty());
    while i < txs.len()
        invariant
            i <= txs@.len(),
            amounts@ == tx_amounts(txs@.take(i as int)),
        decreases txs@.len() - i,
    {
        let ghost before = amounts@;
        assert(txs@.take(i + 1).drop_last() =~= txs@.take(i as int));
        let tx = &txs[i];
        amounts.push(tx_amount(tx.tx_type, tx.amount_credited, tx.amount_debited, tx.fee));
        if let Some(fee) = tx.fee {
            amounts.push(fee);
        }
        assert(amounts@ =~= before + own_amounts(*tx));
        i = i + 1;
    }
    assert(txs@.take(txs@.len() as int) =~= txs@);
    amounts
}

/// The amounts of these outputs, in order.
pub fn amounts_of_outputs(outputs: &Vec<Output>) -> (res: Vec<u64>)
    ensures
        res@ == output_amounts(outputs@),
{
    let mut amounts: Vec<u64> = Vec::new();
    let mut i: usize = 0;
    while i < outputs.len()
        invariant
            i <= outputs@.len(),
            amounts@ == output_amounts(outputs@.take(i as int)),
        decreases outputs@.len() - i,
    {
        amounts.push(outputs[i].value);
        assert(output_amounts(outputs@.take(i + 1)) =~= output_amounts(outputs@.take(i as int)).push(
            outputs@[i as int].value,
        ));
        i = i + 1;
    }
    assert(outputs@.take(outputs@.len() as int) =~= outputs@);
    amounts
}

/// What is known beside the log.
pub struct Records {
    /// Whether all outputs of a transaction are gone.
    pub spent_by_tx: HashMap<u32, bool>,
    /// The commitments of the outputs that are gone.
    pub spent_commits: StringHashSet,
    /// The commitments of the outputs of a transaction.
    pub commits_by_tx: HashMap<u32, Vec<String>>,
    /// When blocks were made.
    pub block_times: HashMap<u64, BlockTime>,
    /// The address of the wallet.
    pub address: String,
    /// The last block that the wallet knows of.
    pub tip_height: u64,
}

/// The hexadecimal text of bytes that are there.
pub open spec fn hex_of(bytes: Option<Vec<u8>>) -> Option<Seq<char>> {
    match bytes {
        Some(found) => Some(hex(found@)),
        None => None,
    }
}

/// The text of a string that is there.
pub open spec fn text_of(value: Option<String>) -> Option<Seq<char>> {
    match value {
        Some(text) => Some(text@),
        None => None,
    }
}

/// The first that is there.
pub open spec fn either(first: Option<Seq<char>>, second: Option<Seq<char>>) -> Option<Seq<char>> {
    match first {
        Some(_) => first,
        None => second,
    }
}

/// The JSON string of a text, or `null`.
pub open spec fn text_json(value: Option<Seq<char>>) -> Json {
    match value {
        Some(text) => Json::Text(text),
        None => Json::Null,
    }
}

fn hex_text(bytes: &Option<Vec<u8>>) -> (res: Option<String>)
    ensures
        text_of(res) == hex_of(*bytes),
{
    match bytes {
        Some(found) => Some(to_hex(found)),
        None => None,
    }
}

/// The commitment of the first output of a transaction, where it has one.
pub open spec fn first_commit(commits_by_tx: Map<u32, Vec<String>>, id: u32) -> Option<Seq<char>> {
    if commits_by_tx.contains_key(id) && commits_by_tx[id]@.len() > 0 {
        Some(commits_by_tx[id]@[0]@)
    } else {
        None
    }
}

fn find_first_commit(commits_by_tx: &HashMap<u32, Vec<String>>, id: u32) -> (res: Option<String>)
    ensures
        text_of(res) == first_commit(commits_by_tx@, id),
{
    match commits_by_tx.get(&id) {
        Some(commits) => if commits.len() > 0 {
            Some(commits[0].clone())
        } else {
            None
        },
        None => None,
    }
}

/// The name of a transaction for which nothing better is known.
pub open spec fn local_name(height: Option<u64>, id: u32) -> Seq<char> {
    "epic-local-"@ + match height {
        Some(at) => decimal(at as nat),
        None => "pending"@,
    } + "-"@ + decimal(id as nat)
}

fn local_name_text(height: Option<u64>, id: u32) -> (res: String)
    ensures
        res@ == local_name(height, id),
{
    let place = match height {
        Some(at) => decimal_text(at),
        None => String::from_str("pending"),
    };
    let number = decimal_text(id as u64);
    let start = join3("epic-local-", place.as_str(), "-");
    join(start.as_str(), number.as_str())
}

/// What a transaction is found by on the chain: the excess of its kernel, the
/// excess of the stored kernel or the commitment of its first output, else the
/// identifier of its slate, and else a name of its own.
pub open spec fn chain_txid(tx: TxEntry, output_commit: Option<Seq<char>>) -> Seq<char> {
    match either(
        either(
            either(hex_of(tx.kernel_excess), hex_of(tx.stored_kernel_excess)),
            output_commit,
        ),
        text_of(tx.slate_id),
    ) {
        Some(text) => text,
        None => local_name(tx.confirmation_height, tx.id),
    }
}

/// What a transaction is called: the identifier of its slate, else what it is
/// found by on the chain.
pub open spec fn txid(tx: TxEntry, output_commit: Option<Seq<char>>) -> Seq<char> {
    match tx.slate_id {
        Some(text) => text@,
        None => chain_txid(tx, output_commit),
    }
}

/// What a transaction is found by on the chain; `output_commit` is the
/// commitment of its first output.
pub fn chain_txid_text(tx: &TxEntry, output_commit: &Option<String>) -> (res: String)
    ensures
        res@ == chain_txid(*tx, text_of(*output_commit)),
{
    if let Some(bytes) = &tx.kernel_excess {
        return to_hex(bytes);
    }
    if let Some(bytes) = &tx.stored_kernel_excess {
        return to_hex(bytes);
    }
    if let Some(text) = output_commit {
        return text.clone();
    }
    if let Some(text) = &tx.slate_id {
        return text.clone();
    }
    local_name_text(tx.confirmation_height, tx.id)
}

/// Whether what a transaction brought in has been spent again: all its outputs
/// are gone, or an output with the commitment of its first one is.
pub open spec fn spent_again(tx: TxEntry, records: Records) -> bool {
    incoming(tx.tx_type) && ((records.spent_by_tx@.contains_key(tx.id)
        && records.spent_by_tx@[tx.id]) || match first_commit(records.commits_by_tx@, tx.id) {
        Some(commit) => records.spent_commits@.contains(commit),
        None => false,
    })
}

/// Whether what a transaction brought in has been spent again.
pub fn is_spent_again(tx: &TxEntry, records: &Records) -> (res: bool)
    ensures
        res == spent_again(*tx, *records),
{
    if !is_incoming(tx.tx_type) {
        return false;
    }
    if let Some(spent) = records.spent_by_tx.get(&tx.id) {
        if *spent {
            return true;
        }
    }
    match find_first_commit(&records.commits_by_tx, tx.id) {
        Some(commit) => records.spent_commits.contains(commit.as_str()),
        None => false,
    }
}

/// Whether the records are those of a wallet with these outputs: `with_spent`
/// for what is gone and `history` for the commitments.
pub open spec fn records_of(records: Records, with_spent: Seq<Output>, history: Seq<Output>) -> bool {
    &&& forall|id: u32| #[trigger]
        records.spent_by_tx@.contains_key(id) <==> has_outputs(with_spent, id)
    &&& forall|id: u32| #[trigger]
        records.spent_by_tx@.contains_key(id) ==> records.spent_by_tx@[id] == all_gone(
            with_spent,
            id,
        )
    &&& forall|commit: Seq<char>| #[trigger]
        records.spent_commits@.contains(commit) <==> gone_commit(with_spent, commit)
    &&& forall|id: u32| #[trigger]
        records.commits_by_tx@.contains_key(id) <==> commits_of(history, id).len() > 0
    &&& forall|id: u32| #[trigger]
        records.commits_by_tx@.contains_key(id) ==> texts(records.commits_by_tx@[id]@)
            == commits_of(history, id)
}

/// Whether what a transaction brought in has been spent again, by the outputs
/// of the wallet: it has outputs and all of them are gone, or an output that is
/// gone has the commitment of its first one.
pub open spec fn outputs_spent_again(
    tx: TxEntry,
    with_spent: Seq<Output>,
    history: Seq<Output>,
) -> bool {
    incoming(tx.tx_type) && ((has_outputs(with_spent, tx.id) && all_gone(with_spent, tx.id)) || (
    commits_of(history, tx.id).len() > 0 && gone_commit(
        with_spent,
        commits_of(history, tx.id)[0],
    )))
}

/// The commitment of the first output of a transaction, by the outputs of the wallet.
pub open spec fn output_commit_of(history: Seq<Output>, id: u32) -> Option<Seq<char>> {
    let commits = commits_of(history, id);
    if commits.len() > 0 {
        Some(commits[0])
    } else {
        None
    }
}

/// What the records of a wallet say of a transaction is what its outputs say:
/// whether what it brought in was spent again, and the commitment of its first output.
pub proof fn records_follow_the_outputs(
    tx: TxEntry,
    records: Records,
    with_spent: Seq<Output>,
    history: Seq<Output>,
)
    requires
        records_of(records, with_spent, history),
    ensures
        spent_again(tx, records) <==> outputs_spent_again(tx, with_spent, history),
        first_commit(records.commits_by_tx@, tx.id) == output_commit_of(history, tx.id),
{
    let id = tx.id;
    if records.commits_by_tx@.contains_key(id) {
        let commits = records.commits_by_tx@[id]@;
        assert(texts(commits) == commits_of(history, id));
        assert(commits.len() == commits_of(history, id).len());
        assert(texts(commits)[0] == commits[0]@);
    }
    assert(records.spent_by_tx@.contains_key(id) <==> has_outputs(with_spent, id));
}

/// The report of a transaction in the log: `output_commit` is the commitment
/// of its first output, `spent` whether what it brought in was spent again, and
/// `time` when it was confirmed or made.
pub open spec fn row_document(
    tx: TxEntry,
    output_commit: Option<Seq<char>>,
    spent: bool,
    time: (i64, Seq<char>),
    address: Seq<char>,
    tip_height: u64,
    written: Map<u64, String>,
) -> Json {
    let here = Json::Text(address);
    Json::Object(
        map![
            "id"@ => Json::Text(txid(tx, output_commit)),
            "txid"@ => Json::Text(txid(tx, output_commit)),
            "chainTxid"@ => Json::Text(chain_txid(tx, output_commit)),
            "chain_txid"@ => Json::Text(chain_txid(tx, output_commit)),
            "slateId"@ => text_json(text_of(tx.slate_id)),
            "tx_slate_id"@ => text_json(text_of(tx.slate_id)),
            "kernelExcess"@ => text_json(hex_of(tx.kernel_excess)),
            "kernel_excess"@ => text_json(hex_of(tx.kernel_excess)),
            "storedKernelExcess"@ => text_json(hex_of(tx.stored_kernel_excess)),
            "stored_kernel_excess"@ => text_json(hex_of(tx.stored_kernel_excess)),
            "outputCommit"@ => text_json(output_commit),
            "output_commit"@ => text_json(output_commit),
            "type"@ => Json::Text(direction_of(tx.tx_type)),
            "direction"@ => Json::Text(direction_of(tx.tx_type)),
            "status"@ => Json::Text(status_of(tx.tx_type, tx.confirmed)),
            "confirmed"@ => Json::Bool(tx.confirmed),
            "confirmations"@ => Json::Integer(
                confirmations(tx.confirmed, tx.confirmation_height, tip_height) as int,
            ),
            "amount"@ => Json::Text(wording(written, tx_units(tx))),
            "fee"@ => match tx.fee {
                Some(fee) => Json::Text(wording(written, fee)),
                None => Json::Null,
            },
            "from"@ => if incoming(tx.tx_type) {
                optional_text(tx.public_addr)
            } else {
                here
            },
            "to"@ => if incoming(tx.tx_type) {
                here
            } else {
                optional_text(tx.public_addr)
            },
            "timestamp"@ => Json::Integer(time.0 as int),
            "date"@ => Json::Text(time.1),
            "height"@ => optional_number(tx.confirmation_height),
            "spent"@ => Json::Bool(spent),
        ],
    )
}

/// When a transaction was confirmed, where that is known, and else when it was made.
pub open spec fn tx_time(tx: TxEntry, block_times: Map<u64, BlockTime>) -> (i64, Seq<char>) {
    time_at(
        block_times,
        tx.confirmation_height,
        (tx.creation_timestamp, tx.creation_date@),
    )
}

/// The report of a transaction in the log, by the records of the wallet.
pub open spec fn transaction_document(
    tx: TxEntry,
    records: Records,
    written: Map<u64, String>,
) -> Json {
    row_document(
        tx,
        first_commit(records.commits_by_tx@, tx.id),
        spent_again(tx, records),
        tx_time(tx, records.block_times@),
        records.address@,
        records.tip_height,
        written,
    )
}

/// The report of a transaction holds nothing but scalars.
pub proof fn lemma_row_flat(
    tx: TxEntry,
    output_commit: Option<Seq<char>>,
    spent: bool,
    time: (i64, Seq<char>),
    address: Seq<char>,
    tip_height: u64,
    written: Map<u64, String>,
)
    ensures
        flat(row_document(tx, output_commit, spent, time, address, tip_height, written)),
{
}

/// Puts the same text, or `null`, under two keys.
fn set_both(document: &mut Value, first: &str, second: &str, value: &Option<String>)
    requires
        json::extensible(json(*old(document))),
    ensures
        json(*final(document)) == Json::Object(
            json::members(json(*old(document))).insert(
                first@,
                text_json(text_of(*value)),
            ).insert(second@, text_json(text_of(*value))),
        ),
{
    json::set(document, first, text_or_null(value));
    json::set(document, second, text_or_null(value));
}

/// The report of a transaction in the log.
pub fn transaction_row(tx: &TxEntry, records: &Records, written: &AmountTexts) -> (res: Value)
    requires
        covers(written@, own_amounts(*tx)),
    ensures
        json(res) == transaction_document(*tx, *records, written@),
{
    assert(own_amounts(*tx)[0] == tx_units(*tx));
    let amount = word(
        written,
        tx_amount(tx.tx_type, tx.amount_credited, tx.amount_debited, tx.fee),
    );
    let fee = match tx.fee {
        Some(fee) => {
            assert(own_amounts(*tx)[1] == fee);
            Some(word(written, fee))
        },
        None => None,
    };
    let output_commit = find_first_commit(&records.commits_by_tx, tx.id);
    let chain = chain_txid_text(tx, &output_commit);
    let name = match &tx.slate_id {
        Some(text) => text.clone(),
        None => chain.clone(),
    };
    let (timestamp, date) = epic_time_for_height(
        &records.block_times,
        tx.confirmation_height,
        tx.creation_timestamp,
        tx.creation_date.clone(),
    );
    let came_in = is_incoming(tx.tx_type);
    let there = text_or_null(&tx.public_addr);
    let here = json::string(records.address.as_str());
    let (from, to) = if came_in {
        (there, here)
    } else {
        (here, there)
    };
    let name = Some(name);
    let chain = Some(chain);
    let direction = Some(String::from_str(tx_direction(tx.tx_type)));
    let mut row = json::null();
    set_both(&mut row, "id", "txid", &name);
    set_both(&mut row, "chainTxid", "chain_txid", &chain);
    set_both(&mut row, "slateId", "tx_slate_id", &tx.slate_id);
    set_both(&mut row, "kernelExcess", "kernel_excess", &hex_text(&tx.kernel_excess));
    set_both(
        &mut row,
        "storedKernelExcess",
        "stored_kernel_excess",
        &hex_text(&tx.stored_kernel_excess),
    );
    set_both(&mut row, "outputCommit", "output_commit", &output_commit);
    set_both(&mut row, "type", "direction", &direction);
    json::set(&mut row, "status", json::string(tx_status(tx.tx_type, tx.confirmed)));
    json::set(&mut row, "confirmed", json::boolean(tx.confirmed));
    json::set(
        &mut row,
        "confirmations",
        json::unsigned(
            confirmation_count(tx.confirmed, tx.confirmation_height, records.tip_height),
        ),
    );
    json::set(&mut row, "amount", json::string(amount.as_str()));
    json::set(&mut row, "fee", text_or_null(&fee));
    json::set(&mut row, "from", from);
    json::set(&mut row, "to", to);
    json::set(&mut row, "timestamp", json::signed(timestamp));
    json::set(&mut row, "date", json::string(date.as_str()));
    json::set(&mut row, "height", number_or_null(tx.confirmation_height));
    json::set(&mut row, "spent", json::boolean(is_spent_again(tx, records)));
    row
}

/// What these documents hold.
pub open spec fn documents(values: Seq<Value>) -> Seq<Json> {
    values.map_values(|value: Value| json(value))
}

/// The reports of the transactions in the log, in order.
pub open spec fn logged_documents(
    txs: Seq<TxEntry>,
    records: Records,
    written: Map<u64, String>,
) -> Seq<Json> {
    txs.map_values(|tx: TxEntry| transaction_document(tx, records, written))
}

/// The reports of the transactions in the log, in order.
pub fn logged_transactions(txs: &Vec<TxEntry>, records: &Records, written: &AmountTexts) -> (res:
    Vec<Value>)
    requires
        covers(written@, tx_amounts(txs@)),
    ensures
        documents(res@) == logged_documents(txs@, *records, written@),
{
    let mut rows: Vec<Value> = Vec::new();
    let mut i: usize = 0;
    while i < txs.len()
        invariant
            i <= txs@.len(),
            covers(written@, tx_amounts(txs@)),
            documents(rows@) == logged_documents(txs@.take(i as int), *records, written@),
        decreases txs@.len() - i,
    {
        let ghost before = rows@;
        proof {
            lemma_covers_each(written@, txs@, i as int);
        }
        let row = transaction_row(&txs[i], records, written);
        rows.push(row);
        assert(documents(rows@) =~= documents(before).push(json(row)));
        assert(logged_documents(txs@.take(i + 1), *records, written@) =~= logged_documents(
            txs@.take(i as int),
            *records,
            written@,
        ).push(transaction_document(txs@[i as int], *records, written@)));
        i = i + 1;
    }
    assert(txs@.take(txs@.len() as int) =~= txs@);
    rows
}

/// The identifiers of these transactions.
pub open spec fn ids(txs: Seq<TxEntry>) -> Set<u32> {
    Set::new(|id: u32| logged(txs, id))
}

/// Whether a transaction with this identifier is in the log.
pub open spec fn logged(txs: Seq<TxEntry>, id: u32) -> bool {
    exists|i: int| 0 <= i < txs.len() && (#[trigger] txs[i]).id == id
}

/// The identifiers of these transactions.
pub fn represented_tx_ids(txs: &Vec<TxEntry>) -> (res: HashSet<u32>)
    ensures
        res@ == ids(txs@),
{
    let mut found: HashSet<u32> = HashSet::new();
    let mut i: usize = 0;
    assert(found@ =~= ids(txs@.take(0)));
    while i < txs.len()
        invariant
            i <= txs@.len(),
            found@ == ids(txs@.take(i as int)),
        decreases txs@.len() - i,
    {
        let ghost before = txs@.take(i as int);
        let ghost after = txs@.take(i + 1);
        let _ = found.insert(txs[i].id);
        assert(found@ =~= ids(after)) by {
            assert forall|id: u32| found@.contains(id) <==> logged(after, id) by {
                if logged(before, id) {
                    let j = choose|j: int| 0 <= j < before.len() && (#[trigger] before[j]).id == id;
                    assert(after[j].id == id);
                }
                if logged(after, id) {
                    let j = choose|j: int| 0 <= j < after.len() && (#[trigger] after[j]).id == id;
                    if j < i {
                        assert(before[j].id == id);
                    }
                }
                assert(after[i as int].id == txs@[i as int].id);
            }
        }
        i = i + 1;
    }
    assert(txs@.take(txs@.len() as int) =~= txs@);
    found
}

/// The report of an output that no transaction in the log accounts for.
pub open spec fn restored_document(
    output: Output,
    address: Seq<char>,
    tip_height: u64,
    block_times: Map<u64, BlockTime>,
    written: Map<u64, String>,
) -> Json {
    let time = time_at(block_times, Some(output.height), (0, Seq::empty()));
    Json::Object(
        map![
            "id"@ => Json::Text(commit_of(output)),
            "txid"@ => Json::Text(commit_of(output)),
            "outputCommit"@ => Json::Text(commit_of(output)),
            "output_commit"@ => Json::Text(commit_of(output)),
            "type"@ => Json::Text("incoming"@),
            "direction"@ => Json::Text("incoming"@),
            "status"@ => Json::Text("confirmed"@),
            "confirmed"@ => Json::Bool(true),
            "confirmations"@ => Json::Integer(
                confirmations(true, Some(output.height), tip_height) as int,
            ),
            "amount"@ => Json::Text(wording(written, output.value)),
            "fee"@ => Json::Null,
            "from"@ => Json::Text("Restore"@),
            "to"@ => Json::Text(address),
            "timestamp"@ => Json::Integer(time.0 as int),
            "date"@ => if time.1.len() == 0 {
                Json::Null
            } else {
                Json::Text(time.1)
            },
            "height"@ => Json::Integer(output.height as int),
            "spent"@ => Json::Bool(gone(output.status)),
        ],
    )
}

/// The report of an output that no transaction in the log accounts for.
pub fn restored_output_row(
    output: &Output,
    address: &str,
    tip_height: u64,
    block_times: &HashMap<u64, BlockTime>,
    written: &AmountTexts,
) -> (res: Value)
    requires
        written@.contains_key(output.value),
    ensures
        json(res) == restored_document(*output, address@, tip_height, block_times@, written@),
{
    let amount = word(written, output.value);
    let nowhen = String::new();
    assert(nowhen@ =~= Seq::<char>::empty());
    let (timestamp, date) = epic_time_for_height(block_times, Some(output.height), 0, nowhen);
    let commit = Some(commit_text(output));
    let direction = Some(String::from_str("incoming"));
    let mut row = json::null();
    set_both(&mut row, "id", "txid", &commit);
    set_both(&mut row, "outputCommit", "output_commit", &commit);
    set_both(&mut row, "type", "direction", &direction);
    json::set(&mut row, "status", json::string("confirmed"));
    json::set(&mut row, "confirmed", json::boolean(true));
    json::set(
        &mut row,
        "confirmations",
        json::unsigned(confirmation_count(true, Some(output.height), tip_height)),
    );
    json::set(&mut row, "amount", json::string(amount.as_str()));
    json::set(&mut row, "fee", json::null());
    json::set(&mut row, "from", json::string("Restore"));
    json::set(&mut row, "to", json::string(address));
    json::set(&mut row, "timestamp", json::signed(timestamp));
    let known = chars_of(date.as_str()).len() > 0;
    let shown_date = if known {
        json::string(date.as_str())
    } else {
        json::null()
    };
    json::set(&mut row, "date", shown_date);
    json::set(&mut row, "height", json::unsigned(output.height));
    json::set(&mut row, "spent", json::boolean(is_gone(output.status)));
    row
}

/// Whether a transaction in the log accounts for an output.
pub open spec fn accounted(output: Output, represented: Set<u32>) -> bool {
    match output.tx_log_entry {
        Some(id) => represented.contains(id),
        None => false,
    }
}

/// The reports of the outputs that no transaction in the log accounts for, in order.
pub open spec fn restored_documents(
    outputs: Seq<Output>,
    represented: Set<u32>,
    address: Seq<char>,
    tip_height: u64,
    block_times: Map<u64, BlockTime>,
    written: Map<u64, String>,
) -> Seq<Json>
    decreases outputs.len(),
{
    if outputs.len() == 0 {
        Seq::empty()
    } else {
        let earlier = restored_documents(
            outputs.drop_last(),
            represented,
            address,
            tip_height,
            block_times,
            written,
        );
        if accounted(outputs.last(), represented) {
            earlier
        } else {
            earlier.push(
                restored_document(outputs.last(), address, tip_height, block_times, written),
            )
        }
    }
}

/// The reports of the outputs that no transaction in the log accounts for, in order.
pub fn restored_output_transactions(
    outputs: &Vec<Output>,
    represented: &HashSet<u32>,
    address: &str,
    tip_height: u64,
    block_times: &HashMap<u64, BlockTime>,
    written: &AmountTexts,
) -> (res: Vec<Value>)
    requires
        covers(written@, output_amounts(outputs@)),
    ensures
        documents(res@) == restored_documents(
            outputs@,
            represented@,
            address@,
            tip_height,
            block_times@,
            written@,
        ),
{
    let mut rows: Vec<Value> = Vec::new();
    let mut i: usize = 0;
    assert(outputs@.take(0) =~= Seq::<Output>::empty());
    while i < outputs.len()
        invariant
            i <= outputs@.len(),
            covers(written@, output_amounts(outputs@)),
            documents(rows@) == restored_documents(
                outputs@.take(i as int),
                represented@,
                address@,
                tip_height,
                block_times@,
                written@,
            ),
        decreases outputs@.len() - i,
    {
        let ghost before = rows@;
        assert(outputs@.take(i + 1).drop_last() =~= outputs@.take(i as int));
        let output = &outputs[i];
        let known = match output.tx_log_entry {
            Some(id) => represented.contains(&id),
            None => false,
        };
        if !known {
            assert(output_amounts(outputs@)[i as int] == output.value);
            let row = restored_output_row(output, address, tip_height, block_times, written);
            rows.push(row);
            assert(documents(rows@) =~= documents(before).push(json(row)));
        }
        i = i + 1;
    }
    assert(outputs@.take(outputs@.len() as int) =~= outputs@);
    rows
}

/// The reports of outputs hold nothing but scalars.
pub proof fn lemma_restored_flat(
    outputs: Seq<Output>,
    represented: Set<u32>,
    address: Seq<char>,
    tip_height: u64,
    block_times: Map<u64, BlockTime>,
    written: Map<u64, String>,
)
    ensures
        rows(
            Json::Array(
                restored_documents(
                    outputs,
                    represented,
                    address,
                    tip_height,
                    block_times,
                    written,
                ),
            ),
        ),
    decreases outputs.len(),
{
    let all = restored_documents(outputs, represented, address, tip_height, block_times, written);
    if outputs.len() > 0 {
        let last = outputs.last();
        lemma_restored_flat(
            outputs.drop_last(),
            represented,
            address,
            tip_height,
            block_times,
            written,
        );
        let earlier = Json::Array(
            restored_documents(
                outputs.drop_last(),
                represented,
                address,
                tip_height,
                block_times,
                written,
            ),
        );
        assert(flat(restored_document(last, address, tip_height, block_times, written)));
        assert forall|i: int| 0 <= i < all.len() implies flat(#[trigger] all[i]) by {
            if i < earlier->Array_0.len() {
                assert(all[i] == earlier->Array_0[i]);
            }
        }
    }
}

/// Where the log accounts for every output, none is reported by itself.
pub proof fn accounted_outputs_are_not_restored(
    outputs: Seq<Output>,
    represented: Set<u32>,
    address: Seq<char>,
    tip_height: u64,
    block_times: Map<u64, BlockTime>,
    written: Map<u64, String>,
)
    requires
        forall|i: int| 0 <= i < outputs.len() ==> accounted(#[trigger] outputs[i], represented),
    ensures
        restored_documents(
            outputs,
            represented,
            address,
            tip_height,
            block_times,
            written,
        ).len() == 0,
    decreases outputs.len(),
{
    if outputs.len() > 0 {
        let earlier = outputs.drop_last();
        assert forall|i: int| 0 <= i < earlier.len() implies accounted(
            #[trigger] earlier[i],
            represented,
        ) by {
            assert(earlier[i] == outputs[i]);
        }
        accounted_outputs_are_not_restored(
            earlier,
            represented,
            address,
            tip_height,
            block_times,
            written,
        );
    }
}

} // verus!
