//! What is relied on of the times of blocks.

use std::collections::{HashMap, HashSet};

use serde_json::Value;
use vstd::prelude::*;

use crate::block_times::{
    dated_header, epic_block_times_by_height, header_time, is_missing, items_in, known_block_times, listed_heights,
    read_block_times, rfc3339_millis, shown, time_in, timed_header, with_times, BlockTime,
};
use crate::json::{json, json_u64, member, Json};

verus! {

/// The member of a member of a document, where both are there.
pub open spec fn inner(document: Json, outer: Seq<char>, key: Seq<char>) -> Option<Json> {
    match member(document, outer) {
        Some(found) => member(found, key),
        None => None,
    }
}

/// The header in an item of the node's reply.
pub open spec fn header_of(item: Json) -> Option<Json> {
    inner(item, "result"@, "Ok"@)
}

/// Whether a document is there and is this number.
pub open spec fn is_number(document: Option<Json>, n: u64) -> bool {
    document == Some(Json::Integer(n as int))
}

/// Whether a document is there and is a number that fits.
pub open spec fn is_some_number(document: Option<Json>) -> bool {
    exists|n: u64| is_number(document, n)
}

/// An item gives the time of a block only where its header holds the time as
/// text, and then the text as it stands. The block is the one that the item
/// names, and the one in its header where the item names none.
pub proof fn item_dates_the_block_that_it_names(item: Value, res: Option<(u64, String)>)
    requires
        call_ensures(dated_header, (&item,), res),
    ensures
        res matches Some((height, text)) ==> {
            &&& header_of(json(item)) matches Some(header) && member(header, "timestamp"@) == Some(
                Json::Text(text@),
            )
            &&& is_some_number(member(json(item), "id"@)) ==> is_number(
                member(json(item), "id"@),
                height,
            )
            &&& !is_some_number(member(json(item), "id"@)) ==> is_number(
                member(header_of(json(item))->0, "height"@),
                height,
            )
        },
        res is None ==> {
            ||| header_of(json(item)) is None
            ||| !(member(header_of(json(item))->0, "timestamp"@) is Some && member(
                header_of(json(item))->0,
                "timestamp"@,
            )->0 is Text)
            ||| !is_some_number(member(json(item), "id"@)) && !is_some_number(
                member(header_of(json(item))->0, "height"@),
            )
        },
{
    let named = member(json(item), "id"@);
    lemma_number(named);
    if let Some(header) = header_of(json(item)) {
        lemma_number(member(header, "height"@));
    }
}

proof fn lemma_number(document: Option<Json>)
    ensures
        match document {
            Some(found) => match json_u64(found) {
                Some(n) => is_number(document, n) && is_some_number(document),
                None => !is_some_number(document),
            },
            None => !is_some_number(document),
        },
{
    if let Some(found) = document {
        if let Some(n) = json_u64(found) {
            assert(is_number(document, n));
        }
    }
}

/// A block has a time exactly where the text of its time can be read, and the
/// time is what it is read as, beside the text.
pub proof fn time_is_what_the_text_is_read_as(
    height: u64,
    text: String,
    millis: Option<i64>,
    res: Option<(u64, BlockTime)>,
)
    requires
        call_ensures(timed_header, (height, text, millis), res),
    ensures
        res is Some <==> millis is Some,
        res matches Some((at, time)) ==> at == height && millis == Some(time.0) && time.1@ == text@,
{
}

/// An item gives a time exactly where it dates a block and the text can be read.
pub proof fn item_gives_the_time_of_its_block(
    item: Value,
    found: Option<(u64, String)>,
    res: Option<(u64, BlockTime)>,
)
    requires
        call_ensures(dated_header, (&item,), found),
        call_ensures(header_time, (&item,), res),
    ensures
        found is None ==> res is None,
        found matches Some((height, text)) ==> match rfc3339_millis(text@) {
            Some(millis) => res matches Some((at, time)) && at == height && time.0 == millis
                && time.1@ == text@,
            None => res is None,
        },
        match res {
            Some((at, time)) => time_in(json(item)) == Some((at, (time.0, time.1@))),
            None => time_in(json(item)) is None,
        },
{
}

/// A reply is read item by item: one more item puts the time that it gives in
/// the place of any that was known of that block, touches no other block, and
/// changes nothing where it gives none. A reply without items changes nothing.
pub proof fn reply_is_read_item_by_item(
    known: Map<u64, (i64, Seq<char>)>,
    items: Seq<Json>,
    item: Json,
    height: u64,
)
    ensures
        with_times(known, Seq::empty()) == known,
        ({
            let before = with_times(known, items);
            let after = with_times(known, items.push(item));
            match time_in(item) {
                Some((at, time)) => {
                    &&& after.contains_key(at) && after[at] == time
                    &&& height != at ==> (after.contains_key(height) <==> before.contains_key(
                        height,
                    ))
                    &&& height != at && before.contains_key(height) ==> after[height]
                        == before[height]
                },
                None => after == before,
            }
        }),
{
    assert(items.push(item).drop_last() =~= items);
}

/// The items of a reply are those of an array, in order, or the one object
/// that the reply is; any other reply has none.
pub proof fn reply_is_an_array_or_one_item(items: Seq<Json>, members: Map<Seq<char>, Json>, other: Json)
    ensures
        items_in(Json::Array(items)) == items,
        items_in(Json::Object(members)) == seq![Json::Object(members)],
        !(other is Array) && !(other is Object) ==> items_in(other).len() == 0,
{
}

/// What is shown of known times is what is known.
pub proof fn shown_times_are_the_known_ones(times: Map<u64, BlockTime>, height: u64)
    ensures
        shown(times).contains_key(height) <==> times.contains_key(height),
        times.contains_key(height) ==> shown(times)[height] == (times[height].0, times[height].1@),
{
}

/// Of the blocks that are asked about, block zero is left out; those whose time
/// is known are not asked for again, and all others are, each once. The node is
/// not asked at all where none is left.
pub proof fn node_is_asked_for_what_is_not_known(
    heights: HashSet<u64>,
    cache: HashMap<u64, BlockTime>,
    res: (HashMap<u64, BlockTime>, Option<Vec<u64>>),
    height: u64,
)
    requires
        call_ensures(known_block_times, (&heights, &cache), res),
    ensures
        res.0@.contains_key(height) <==> height != 0 && heights@.contains(height)
            && cache@.contains_key(height),
        res.0@.contains_key(height) ==> res.0@[height] == cache@[height],
        res.1 matches Some(missing) ==> {
            &&& missing@.contains(height) <==> height != 0 && heights@.contains(height)
                && !cache@.contains_key(height)
            &&& missing@.no_duplicates()
            &&& missing@.len() > 0
        },
        res.1 is None ==> (height != 0 && heights@.contains(height) ==> cache@.contains_key(height)),
{
    if let Some(missing) = res.1 {
        assert(missing@.contains(height) <==> is_missing(heights@, cache@, height));
        let some = choose|some: u64| #[trigger] is_missing(heights@, cache@, some);
        assert(missing@.contains(some));
    } else {
        assert(res.0@.contains_key(height) <==> height > 0 && heights@.contains(height));
    }
}

/// The blocks of a set are listed each once.
pub proof fn each_block_is_listed_once(heights: HashSet<u64>, res: Vec<u64>, height: u64)
    requires
        call_ensures(listed_heights, (&heights,), res),
    ensures
        res@.contains(height) <==> heights@.contains(height),
        forall|i: int, j: int| 0 <= i < j < res@.len() ==> res@[i] != res@[j],
{
    assert(res@.to_set().contains(height) <==> res@.contains(height));
}

/// The items of a reply are read into the times that are known.
pub proof fn reply_is_read_into_the_known_times(reply: Value, known: &mut HashMap<u64, BlockTime>)
    requires
        call_ensures(read_block_times, (&reply, known), ()),
    ensures
        shown(final(known)@) == with_times(shown(old(known)@), items_in(json(reply))),
{
}

/// The same reply is read into the times that are asked for and into those that
/// are kept; without a reply both stay as they are.
pub proof fn reply_is_read_twice_or_not_at_all(
    times: &mut HashMap<u64, BlockTime>,
    cache: &mut HashMap<u64, BlockTime>,
    reply: Option<&Value>,
)
    requires
        call_ensures(epic_block_times_by_height, (times, cache, reply), ()),
    ensures
        reply is None ==> final(times)@ == old(times)@ && final(cache)@ == old(cache)@,
        reply matches Some(given) ==> {
            &&& shown(final(times)@) == with_times(shown(old(times)@), items_in(json(*given)))
            &&& shown(final(cache)@) == with_times(shown(old(cache)@), items_in(json(*given)))
        },
{
}

} // verus!
