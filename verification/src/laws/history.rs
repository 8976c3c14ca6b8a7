//! What is relied on in the history of a wallet.

use std::collections::{HashMap, HashSet};

use serde_json::Value;
use vstd::prelude::*;

use crate::block_times::{epic_time_for_height, BlockTime};
use crate::history::{
    amounts_of_outputs, amounts_of_transactions, chain_txid_text, confirmation_count, documents,
    is_incoming, is_spent_again, logged, logged_transactions, represented_tx_ids,
    restored_output_row, restored_output_transactions, transaction_row, tx_amount, tx_direction,
    tx_status, word, AmountTexts, Records, TxEntry, TxLogEntryType,
};
use crate::json::{json, member, Json};
use crate::outputs::{commit_text, Output, OutputStatus};
use crate::text::{decimal, hex};

verus! {

/// Whether a transaction is of one of the three kinds that bring something in.
pub open spec fn comes_in(tx_type: TxLogEntryType) -> bool {
    match tx_type {
        TxLogEntryType::ConfirmedCoinbase => true,
        TxLogEntryType::TxReceived => true,
        TxLogEntryType::TxReceivedMempool => true,
        TxLogEntryType::TxReceivedCancelled => false,
        TxLogEntryType::TxSent => false,
        TxLogEntryType::TxSentMempool => false,
        TxLogEntryType::TxSentCancelled => false,
        TxLogEntryType::Other => false,
    }
}

/// What was mined or received comes in, cancelled or not known as such does
/// not; all else goes out.
pub proof fn direction_goes_by_the_kind(tx_type: TxLogEntryType, came_in: bool, word: &'static str)
    requires
        call_ensures(is_incoming, (tx_type,), came_in),
        call_ensures(tx_direction, (tx_type,), word),
    ensures
        came_in == comes_in(tx_type),
        comes_in(tx_type) ==> word@ == "incoming"@,
        !comes_in(tx_type) ==> word@ == "outgoing"@,
{
}

/// A confirmed transaction is confirmed, whatever its kind; any other is in the
/// mempool, cancelled or pending by its kind.
pub proof fn status_goes_by_confirmation_and_kind(
    tx_type: TxLogEntryType,
    confirmed: bool,
    res: &'static str,
)
    requires
        call_ensures(tx_status, (tx_type, confirmed), res),
    ensures
        confirmed ==> res@ == "confirmed"@,
        !confirmed ==> match tx_type {
            TxLogEntryType::TxSentMempool => res@ == "mempool"@,
            TxLogEntryType::TxReceivedMempool => res@ == "mempool"@,
            TxLogEntryType::TxSentCancelled => res@ == "cancelled"@,
            TxLogEntryType::TxReceivedCancelled => res@ == "cancelled"@,
            TxLogEntryType::TxSent => res@ == "pending"@,
            TxLogEntryType::TxReceived => res@ == "pending"@,
            TxLogEntryType::ConfirmedCoinbase => res@ == "pending"@,
            TxLogEntryType::Other => res@ == "pending"@,
        },
{
}

/// What comes in is what was credited beyond what was debited; what goes out is
/// what was debited beyond what was credited and beyond the fee. Neither is
/// less than zero, and a fee takes nothing from what comes in.
pub proof fn amount_is_what_changes_hands(
    tx_type: TxLogEntryType,
    credited: u64,
    debited: u64,
    fee: Option<u64>,
    res: u64,
)
    requires
        call_ensures(tx_amount, (tx_type, credited, debited, fee), res),
    ensures
        comes_in(tx_type) && debited <= credited ==> res + debited == credited,
        comes_in(tx_type) && credited < debited ==> res == 0,
        ({
            let paid: int = match fee {
                Some(paid) => paid as int,
                None => 0,
            };
            &&& !comes_in(tx_type) && credited + paid <= debited ==> res + credited + paid
                == debited
            &&& !comes_in(tx_type) && debited < credited + paid ==> res == 0
        }),
{
}

/// A transaction that is not confirmed has no confirmation. One in a known
/// block has one for that block and one for each block after it; one in no
/// known block, or in one after the tip, has one.
pub proof fn each_block_confirms_once(
    confirmed: bool,
    height: Option<u64>,
    tip_height: u64,
    res: u64,
    at_the_next_tip: u64,
)
    requires
        tip_height < u64::MAX,
        call_ensures(confirmation_count, (confirmed, height, tip_height), res),
        call_ensures(confirmation_count, (confirmed, height, (tip_height + 1) as u64), at_the_next_tip),
    ensures
        !confirmed ==> res == 0,
        confirmed && (height is None || height == Some(0u64)) ==> res == 1,
        confirmed && height is Some && height->0 > tip_height ==> res == 1,
        confirmed && height is Some && height->0 == tip_height ==> res == 1,
        confirmed && height is Some && 0 < height->0 <= tip_height ==> {
            &&& res + height->0 == tip_height + 1
            &&& at_the_next_tip == res + 1
        },
{
}

/// The text of an amount is the one that was written for it.
pub proof fn amount_is_worded_as_written(written: AmountTexts, units: u64, res: String)
    requires
        call_ensures(word, (&written, units), res),
    ensures
        written@.contains_key(units) ==> res@ == written@[units]@,
{
}

/// One more transaction adds what it moves and, where it has one, its fee, behind the amounts
/// of those before it; without transactions there are none.
pub proof fn amounts_are_those_of_the_transactions(
    before: Vec<TxEntry>,
    first: Vec<u64>,
    after: Vec<TxEntry>,
    tx: TxEntry,
    moved: u64,
    res: Vec<u64>,
)
    requires
        call_ensures(amounts_of_transactions, (&before,), first),
        call_ensures(amounts_of_transactions, (&after,), res),
        call_ensures(
            tx_amount,
            (tx.tx_type, tx.amount_credited, tx.amount_debited, tx.fee),
            moved,
        ),
        after@ == before@.push(tx),
    ensures
        before@.len() == 0 ==> first@.len() == 0,
        tx.fee is None ==> res@ == first@.push(moved),
        tx.fee matches Some(fee) ==> res@ == first@.push(moved).push(fee),
{
    assert(after@.drop_last() =~= before@);
    match tx.fee {
        Some(fee) => {
            assert(first@ + seq![moved, fee] =~= first@.push(moved).push(fee));
        },
        None => {
            assert(first@ + seq![moved] =~= first@.push(moved));
        },
    }
}

/// The amounts of outputs are their values, in order.
pub proof fn amounts_are_the_values_of_the_outputs(outputs: Vec<Output>, res: Vec<u64>)
    requires
        call_ensures(amounts_of_outputs, (&outputs,), res),
    ensures
        res@.len() == outputs@.len(),
        forall|i: int| 0 <= i < outputs@.len() ==> #[trigger] res@[i] == outputs@[i].value,
{
}

/// What a transaction is found by on the chain is the first of these that
/// there is: the excess of its kernel, the excess of the stored kernel, the
/// commitment of its first output, the identifier of its slate; and else a
/// name made of its block, where it has one, and its number in the log.
pub proof fn transaction_is_found_by_the_first_there_is(
    tx: TxEntry,
    output_commit: Option<String>,
    res: String,
)
    requires
        call_ensures(chain_txid_text, (&tx, &output_commit), res),
    ensures
        tx.kernel_excess matches Some(bytes) ==> res@ == hex(bytes@),
        tx.kernel_excess is None ==> (tx.stored_kernel_excess matches Some(bytes) ==> res@ == hex(
            bytes@,
        )),
        tx.kernel_excess is None && tx.stored_kernel_excess is None ==> (output_commit matches Some(
            commit,
        ) ==> res@ == commit@),
        tx.kernel_excess is None && tx.stored_kernel_excess is None && output_commit is None ==> (
        tx.slate_id matches Some(slate) ==> res@ == slate@),
        tx.kernel_excess is None && tx.stored_kernel_excess is None && output_commit is None
            && tx.slate_id is None ==> res@ == "epic-local-"@ + (match tx.confirmation_height {
            Some(height) => decimal(height as nat),
            None => "pending"@,
        }) + "-"@ + decimal(tx.id as nat),
{
}

/// The commitment of the first output of a transaction, by the records.
pub open spec fn first_commitment(records: Records, id: u32) -> Option<Seq<char>> {
    if records.commits_by_tx@.contains_key(id) && records.commits_by_tx@[id]@.len() > 0 {
        Some(records.commits_by_tx@[id]@[0]@)
    } else {
        None
    }
}

/// Only what came in can be spent again. It was where all outputs of the
/// transaction are used up, or an output with the commitment of its first is.
pub proof fn only_what_came_in_is_spent_again(tx: TxEntry, records: Records, res: bool)
    requires
        call_ensures(is_spent_again, (&tx, &records), res),
    ensures
        res ==> comes_in(tx.tx_type),
        comes_in(tx.tx_type) && records.spent_by_tx@.contains_key(tx.id)
            && records.spent_by_tx@[tx.id] ==> res,
        comes_in(tx.tx_type) ==> (first_commitment(records, tx.id) matches Some(commit) ==> (
        records.spent_commits@.contains(commit) ==> res)),
        res ==> (records.spent_by_tx@.contains_key(tx.id) && records.spent_by_tx@[tx.id]) || (
        first_commitment(records, tx.id) matches Some(commit) && records.spent_commits@.contains(
            commit,
        )),
{
}

/// Whether a row has this member.
pub open spec fn shows(row: Value, key: Seq<char>, value: Json) -> bool {
    member(json(row), key) == Some(value)
}

/// The string of a text that is there, and else `null`.
pub open spec fn string_or_null(text: Option<Seq<char>>) -> Json {
    match text {
        Some(found) => Json::Text(found),
        None => Json::Null,
    }
}

/// The text of a string that is there.
pub open spec fn text_there(value: Option<String>) -> Option<Seq<char>> {
    match value {
        Some(text) => Some(text@),
        None => None,
    }
}

/// The hexadecimal text of bytes that are there.
pub open spec fn hex_there(value: Option<Vec<u8>>) -> Option<Seq<char>> {
    match value {
        Some(bytes) => Some(hex(bytes@)),
        None => None,
    }
}

/// The keys of a row are different.
proof fn lemma_row_keys()
    ensures
        "id"@.len() == 2,
        "txid"@.len() == 4,
        "chainTxid"@.len() == 9,
        "chain_txid"@.len() == 10,
        "slateId"@.len() == 7,
        "tx_slate_id"@.len() == 11,
        "kernelExcess"@.len() == 12,
        "kernel_excess"@.len() == 13,
        "storedKernelExcess"@.len() == 18,
        "stored_kernel_excess"@.len() == 20,
        "outputCommit"@.len() == 12,
        "output_commit"@.len() == 13,
        "type"@.len() == 4,
        "direction"@.len() == 9,
        "status"@.len() == 6,
        "confirmed"@.len() == 9,
        "confirmations"@.len() == 13,
        "amount"@.len() == 6,
        "fee"@.len() == 3,
        "from"@.len() == 4,
        "to"@.len() == 2,
        "timestamp"@.len() == 9,
        "date"@.len() == 4,
        "height"@.len() == 6,
        "spent"@.len() == 5,
        "id"@ != "to"@,
        "txid"@ != "type"@,
        "txid"@ != "from"@,
        "txid"@ != "date"@,
        "chainTxid"@ != "direction"@,
        "chainTxid"@ != "confirmed"@,
        "chainTxid"@ != "timestamp"@,
        "kernelExcess"@ != "outputCommit"@,
        "kernel_excess"@ != "output_commit"@,
        "kernel_excess"@ != "confirmations"@,
        "output_commit"@ != "confirmations"@,
        "type"@ != "from"@,
        "type"@ != "date"@,
        "direction"@ != "confirmed"@,
        "direction"@ != "timestamp"@,
        "status"@ != "amount"@,
        "status"@ != "height"@,
        "confirmed"@ != "timestamp"@,
        "amount"@ != "height"@,
        "from"@ != "date"@,
{
    reveal_strlit("id");
    reveal_strlit("txid");
    reveal_strlit("chainTxid");
    reveal_strlit("chain_txid");
    reveal_strlit("slateId");
    reveal_strlit("tx_slate_id");
    reveal_strlit("kernelExcess");
    reveal_strlit("kernel_excess");
    reveal_strlit("storedKernelExcess");
    reveal_strlit("stored_kernel_excess");
    reveal_strlit("outputCommit");
    reveal_strlit("output_commit");
    reveal_strlit("type");
    reveal_strlit("direction");
    reveal_strlit("status");
    reveal_strlit("confirmed");
    reveal_strlit("confirmations");
    reveal_strlit("amount");
    reveal_strlit("fee");
    reveal_strlit("from");
    reveal_strlit("to");
    reveal_strlit("timestamp");
    reveal_strlit("date");
    reveal_strlit("height");
    reveal_strlit("spent");
    assert("id"@[0] != "to"@[0]);
    assert("txid"@[1] != "type"@[1]);
    assert("txid"@[0] != "from"@[0]);
    assert("txid"@[0] != "date"@[0]);
    assert("chainTxid"@[0] != "direction"@[0]);
    assert("chainTxid"@[1] != "confirmed"@[1]);
    assert("chainTxid"@[0] != "timestamp"@[0]);
    assert("kernelExcess"@[0] != "outputCommit"@[0]);
    assert("kernel_excess"@[0] != "output_commit"@[0]);
    assert("kernel_excess"@[0] != "confirmations"@[0]);
    assert("output_commit"@[0] != "confirmations"@[0]);
    assert("type"@[0] != "from"@[0]);
    assert("type"@[0] != "date"@[0]);
    assert("direction"@[0] != "confirmed"@[0]);
    assert("direction"@[0] != "timestamp"@[0]);
    assert("status"@[0] != "amount"@[0]);
    assert("status"@[0] != "height"@[0]);
    assert("confirmed"@[0] != "timestamp"@[0]);
    assert("amount"@[0] != "height"@[0]);
    assert("from"@[0] != "date"@[0]);
}

/// The two ends of a transaction are the address of the wallet and the address
/// at the other end, where that is known: what goes out goes from the wallet to
/// the other end, and what comes in from there to the wallet.
pub proof fn row_shows_both_ends(tx: TxEntry, records: Records, written: AmountTexts, res: Value)
    requires
        call_ensures(transaction_row, (&tx, &records, &written), res),
    ensures
        !comes_in(tx.tx_type) ==> {
            &&& shows(res, "from"@, Json::Text(records.address@))
            &&& tx.public_addr matches Some(there) ==> shows(res, "to"@, Json::Text(there@))
            &&& tx.public_addr is None ==> shows(res, "to"@, Json::Null)
        },
        comes_in(tx.tx_type) ==> {
            &&& shows(res, "to"@, Json::Text(records.address@))
            &&& tx.public_addr matches Some(there) ==> shows(res, "from"@, Json::Text(there@))
            &&& tx.public_addr is None ==> shows(res, "from"@, Json::Null)
        },
        ({
            let here = Json::Text(records.address@);
            let there = match tx.public_addr {
                Some(address) => Json::Text(address@),
                None => Json::Null,
            };
            match tx.tx_type {
                TxLogEntryType::ConfirmedCoinbase
                | TxLogEntryType::TxReceived
                | TxLogEntryType::TxReceivedMempool => shows(res, "from"@, there) && shows(
                    res,
                    "to"@,
                    here,
                ),
                _ => shows(res, "from"@, here) && shows(res, "to"@, there),
            }
        }),
{
    lemma_row_keys();
}

/// A transaction is called by the identifier of its slate, and where it has
/// none by what it is found by on the chain, which is shown too, with all that
/// it could be found by.
pub proof fn row_shows_what_it_is_found_by(
    tx: TxEntry,
    records: Records,
    written: AmountTexts,
    res: Value,
    output_commit: Option<String>,
    chain_txid: String,
)
    requires
        call_ensures(transaction_row, (&tx, &records, &written), res),
        text_there(output_commit) == first_commitment(records, tx.id),
        call_ensures(chain_txid_text, (&tx, &output_commit), chain_txid),
    ensures
        ({
            let name = match tx.slate_id {
                Some(slate) => slate@,
                None => chain_txid@,
            };
            &&& shows(res, "id"@, Json::Text(name))
            &&& shows(res, "txid"@, Json::Text(name))
        }),
        shows(res, "chainTxid"@, Json::Text(chain_txid@)),
        shows(res, "chain_txid"@, Json::Text(chain_txid@)),
        shows(res, "slateId"@, string_or_null(text_there(tx.slate_id))),
        shows(res, "tx_slate_id"@, string_or_null(text_there(tx.slate_id))),
        shows(res, "kernelExcess"@, string_or_null(hex_there(tx.kernel_excess))),
        shows(res, "kernel_excess"@, string_or_null(hex_there(tx.kernel_excess))),
        shows(res, "storedKernelExcess"@, string_or_null(hex_there(tx.stored_kernel_excess))),
        shows(res, "stored_kernel_excess"@, string_or_null(hex_there(tx.stored_kernel_excess))),
        shows(res, "outputCommit"@, string_or_null(first_commitment(records, tx.id))),
        shows(res, "output_commit"@, string_or_null(first_commitment(records, tx.id))),
{
    lemma_row_keys();
}

/// A row shows the direction, the state, the confirmations, the amounts as they
/// are written, the block and whether what came in was spent again.
pub proof fn row_shows_what_the_log_says(
    tx: TxEntry,
    records: Records,
    written: AmountTexts,
    res: Value,
    direction: &'static str,
    status: &'static str,
    confirmations: u64,
    moved: u64,
    spent: bool,
)
    requires
        call_ensures(transaction_row, (&tx, &records, &written), res),
        call_ensures(tx_direction, (tx.tx_type,), direction),
        call_ensures(tx_status, (tx.tx_type, tx.confirmed), status),
        call_ensures(
            confirmation_count,
            (tx.confirmed, tx.confirmation_height, records.tip_height),
            confirmations,
        ),
        call_ensures(
            tx_amount,
            (tx.tx_type, tx.amount_credited, tx.amount_debited, tx.fee),
            moved,
        ),
        call_ensures(is_spent_again, (&tx, &records), spent),
    ensures
        shows(res, "type"@, Json::Text(direction@)),
        shows(res, "direction"@, Json::Text(direction@)),
        shows(res, "status"@, Json::Text(status@)),
        shows(res, "confirmed"@, Json::Bool(tx.confirmed)),
        shows(res, "confirmations"@, Json::Integer(confirmations as int)),
        shows(res, "amount"@, Json::Text(written@[moved]@)),
        tx.fee matches Some(fee) ==> shows(res, "fee"@, Json::Text(written@[fee]@)),
        tx.fee is None ==> shows(res, "fee"@, Json::Null),
        tx.confirmation_height matches Some(height) ==> shows(
            res,
            "height"@,
            Json::Integer(height as int),
        ),
        tx.confirmation_height is None ==> shows(res, "height"@, Json::Null),
        shows(res, "spent"@, Json::Bool(spent)),
{
    lemma_row_keys();
}

/// A row is dated by its block, where the time of that is known, and else by
/// when the transaction was made.
pub proof fn row_is_dated_by_its_block(
    tx: TxEntry,
    records: Records,
    written: AmountTexts,
    res: Value,
)
    requires
        call_ensures(transaction_row, (&tx, &records, &written), res),
    ensures
        ({
            let known = tx.confirmation_height is Some && records.block_times@.contains_key(
                tx.confirmation_height->0,
            );
            let block = records.block_times@[tx.confirmation_height->0];
            &&& known ==> shows(res, "timestamp"@, Json::Integer(block.0 as int)) && shows(
                res,
                "date"@,
                Json::Text(block.1@),
            )
            &&& !known ==> shows(res, "timestamp"@, Json::Integer(tx.creation_timestamp as int))
                && shows(res, "date"@, Json::Text(tx.creation_date@))
        }),
{
    lemma_row_keys();
}

/// The log is shown in order, one row for each transaction.
pub proof fn log_is_shown_row_by_row(
    txs: Vec<TxEntry>,
    records: Records,
    written: AmountTexts,
    res: Vec<Value>,
    i: int,
    row: Value,
)
    requires
        0 <= i < txs@.len(),
        call_ensures(logged_transactions, (&txs, &records, &written), res),
        call_ensures(transaction_row, (&txs@[i], &records, &written), row),
    ensures
        res@.len() == txs@.len(),
        json(res@[i]) == json(row),
{
    assert(documents(res@).len() == res@.len());
    assert(documents(res@)[i] == json(res@[i]));
}

/// The transactions that the log accounts for are those in it.
pub proof fn logged_transactions_are_represented(txs: Vec<TxEntry>, res: HashSet<u32>, id: u32)
    requires
        call_ensures(represented_tx_ids, (&txs,), res),
    ensures
        res@.contains(id) <==> exists|i: int| 0 <= i < txs@.len() && (#[trigger] txs@[i]).id == id,
{
    assert(res@.contains(id) <==> logged(txs@, id));
}

/// An output that the log does not account for is shown as received and
/// confirmed, under its commitment, with its value and its block, and dated by
/// its block where the time of that is known.
pub proof fn restored_row_shows_the_output(
    output: Output,
    address: &str,
    tip_height: u64,
    block_times: HashMap<u64, BlockTime>,
    written: AmountTexts,
    res: Value,
    commit: String,
    confirmations: u64,
)
    requires
        call_ensures(
            restored_output_row,
            (&output, address, tip_height, &block_times, &written),
            res,
        ),
        call_ensures(commit_text, (&output,), commit),
        call_ensures(confirmation_count, (true, Some(output.height), tip_height), confirmations),
    ensures
        shows(res, "id"@, Json::Text(commit@)),
        shows(res, "txid"@, Json::Text(commit@)),
        shows(res, "outputCommit"@, Json::Text(commit@)),
        shows(res, "output_commit"@, Json::Text(commit@)),
        shows(res, "type"@, Json::Text("incoming"@)),
        shows(res, "direction"@, Json::Text("incoming"@)),
        shows(res, "status"@, Json::Text("confirmed"@)),
        shows(res, "confirmed"@, Json::Bool(true)),
        shows(res, "confirmations"@, Json::Integer(confirmations as int)),
        shows(res, "amount"@, Json::Text(written@[output.value]@)),
        shows(res, "fee"@, Json::Null),
        shows(res, "from"@, Json::Text("Restore"@)),
        shows(res, "to"@, Json::Text(address@)),
        shows(res, "height"@, Json::Integer(output.height as int)),
        shows(
            res,
            "spent"@,
            Json::Bool(
                output.status == OutputStatus::Spent || output.status == OutputStatus::Deleted,
            ),
        ),
        !block_times@.contains_key(output.height) ==> shows(res, "timestamp"@, Json::Integer(0))
            && shows(res, "date"@, Json::Null),
        block_times@.contains_key(output.height) ==> shows(
            res,
            "timestamp"@,
            Json::Integer(block_times@[output.height].0 as int),
        ) && shows(
            res,
            "date"@,
            if block_times@[output.height].1@.len() == 0 {
                Json::Null
            } else {
                Json::Text(block_times@[output.height].1@)
            },
        ),
{
    lemma_row_keys();
}

/// One more output is shown behind those before it unless the log accounts for
/// its transaction; an output without a transaction is always shown.
pub proof fn unaccounted_outputs_are_shown(
    before: Vec<Output>,
    first: Vec<Value>,
    after: Vec<Output>,
    output: Output,
    row: Value,
    res: Vec<Value>,
    represented: HashSet<u32>,
    address: &str,
    tip_height: u64,
    block_times: HashMap<u64, BlockTime>,
    written: AmountTexts,
)
    requires
        after@ == before@.push(output),
        call_ensures(
            restored_output_transactions,
            (&before, &represented, address, tip_height, &block_times, &written),
            first,
        ),
        call_ensures(
            restored_output_transactions,
            (&after, &represented, address, tip_height, &block_times, &written),
            res,
        ),
        call_ensures(
            restored_output_row,
            (&output, address, tip_height, &block_times, &written),
            row,
        ),
    ensures
        before@.len() == 0 ==> first@.len() == 0,
        ({
            let accounted = output.tx_log_entry is Some && represented@.contains(
                output.tx_log_entry->0,
            );
            &&& accounted ==> documents(res@) == documents(first@)
            &&& !accounted ==> documents(res@) == documents(first@).push(json(row))
        }),
{
    assert(after@.drop_last() =~= before@);
    assert(documents(first@).len() == first@.len());
}

/// The time of a block is taken where it is known, and else what is given in its place.
pub proof fn known_time_comes_first(
    block_times: HashMap<u64, BlockTime>,
    height: Option<u64>,
    timestamp: i64,
    date: String,
    res: BlockTime,
)
    requires
        call_ensures(epic_time_for_height, (&block_times, height, timestamp, date), res),
    ensures
        height is Some && block_times@.contains_key(height->0) ==> res.0
            == block_times@[height->0].0 && res.1@ == block_times@[height->0].1@,
        height is None || !block_times@.contains_key(height->0) ==> res.0 == timestamp && res.1@
            == date@,
{
}

} // verus!
