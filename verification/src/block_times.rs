//! When blocks were made, by what a node says of their headers.

use std::collections::{HashMap, HashSet};

use serde_json::Value;
use vstd::prelude::*;

use crate::json::{self, json, json_u64, member, Json};

verus! {

/// The time of a block: milliseconds since 1970, and the text that it was read from.
pub type BlockTime = (i64, String);

/// The milliseconds since 1970 that `chrono::DateTime::parse_from_rfc3339` and
/// `timestamp_millis` make of a text, or none where it is not such a time.
pub uninterp spec fn rfc3339_millis(text: Seq<char>) -> Option<i64>;

/// `chrono::DateTime::parse_from_rfc3339` reads a time, and `timestamp_millis`
/// gives it as milliseconds since 1970. What comes out depends on the text alone.
#[verifier::external_body]
fn parse_millis(text: &str) -> (res: Option<i64>)
    ensures
        res == rfc3339_millis(text@),
{
    match chrono::DateTime::parse_from_rfc3339(text) {
        Ok(time) => Some(time.timestamp_millis()),
        Err(_) => None,
    }
}

/// The times in `times`, with their texts.
pub open spec fn shown(times: Map<u64, BlockTime>) -> Map<u64, (i64, Seq<char>)> {
    times.map_values(|time: BlockTime| (time.0, time.1@))
}

/// The member under `key` of a document that is there.
pub open spec fn below(document: Option<Json>, key: Seq<char>) -> Option<Json> {
    match document {
        Some(found) => member(found, key),
        None => None,
    }
}

/// The header that an item holds, where it holds one.
pub open spec fn header_in(item: Json) -> Option<Json> {
    below(member(item, "result"@), "Ok"@)
}

/// The number that a document is, if it is there and is one.
pub open spec fn number_in(document: Option<Json>) -> Option<u64> {
    match document {
        Some(found) => json_u64(found),
        None => None,
    }
}

/// The height that an item speaks of: its identifier, or else the height in its header.
pub open spec fn height_in(item: Json) -> Option<u64> {
    match number_in(member(item, "id"@)) {
        Some(height) => Some(height),
        None => number_in(below(header_in(item), "height"@)),
    }
}

/// The text of the time in the header of an item.
pub open spec fn timestamp_in(item: Json) -> Option<Seq<char>> {
    match below(header_in(item), "timestamp"@) {
        Some(Json::Text(text)) => Some(text),
        _ => None,
    }
}

/// The block that an item speaks of and the text of its time, where it has both.
pub open spec fn dated(item: Json) -> Option<(u64, Seq<char>)> {
    match (height_in(item), timestamp_in(item)) {
        (Some(height), Some(text)) => Some((height, text)),
        _ => None,
    }
}

/// A block with its time: `millis` is what the text of the time was read as.
pub open spec fn timed(height: u64, text: Seq<char>, millis: Option<i64>) -> Option<
    (u64, (i64, Seq<char>)),
> {
    match millis {
        Some(since) => Some((height, (since, text))),
        None => None,
    }
}

/// The block that an item speaks of and its time, where it has both.
pub open spec fn time_in(item: Json) -> Option<(u64, (i64, Seq<char>))> {
    match dated(item) {
        Some((height, text)) => timed(height, text, rfc3339_millis(text)),
        None => None,
    }
}

/// The times that the items give, over those in `known`; later items win.
pub open spec fn with_times(known: Map<u64, (i64, Seq<char>)>, items: Seq<Json>) -> Map<
    u64,
    (i64, Seq<char>),
>
    decreases items.len(),
{
    if items.len() == 0 {
        known
    } else {
        let earlier = with_times(known, items.drop_last());
        match time_in(items.last()) {
            Some((height, time)) => earlier.insert(height, time),
            None => earlier,
        }
    }
}

/// The items of a reply: those of an array, or one object by itself.
pub open spec fn items_in(reply: Json) -> Seq<Json> {
    match reply {
        Json::Array(items) => items,
        Json::Object(_) => seq![reply],
        _ => Seq::empty(),
    }
}

/// The header that an item holds, where it holds one.
fn find_header(item: &Value) -> (res: Option<&Value>)
    ensures
        match res {
            Some(header) => header_in(json(*item)) == Some(json(*header)),
            None => header_in(json(*item)) is None,
        },
{
    match json::get(item, "result") {
        Some(result) => json::get(result, "Ok"),
        None => None,
    }
}

/// The number under `key`, if it is there and is one.
fn find_number(document: &Value, key: &str) -> (res: Option<u64>)
    ensures
        res == number_in(member(json(*document), key@)),
{
    match json::get(document, key) {
        Some(found) => json::as_u64(found),
        None => None,
    }
}

/// The block that an item speaks of and the text of its time, where it has both.
pub fn dated_header(item: &Value) -> (res: Option<(u64, String)>)
    ensures
        match res {
            Some((height, text)) => dated(json(*item)) == Some((height, text@)),
            None => dated(json(*item)) is None,
        },
{
    let header = match find_header(item) {
        Some(header) => header,
        None => {
            return None;
        },
    };
    let height = match find_number(item, "id") {
        Some(height) => height,
        None => match find_number(header, "height") {
            Some(height) => height,
            None => {
                return None;
            },
        },
    };
    match json::get(header, "timestamp") {
        Some(value) => match json::as_str(value) {
            Some(text) => Some((height, String::from_str(text))),
            None => None,
        },
        None => None,
    }
}

/// A block with its time: `millis` is what the text of the time was read as.
pub fn timed_header(height: u64, text: String, millis: Option<i64>) -> (res: Option<
    (u64, BlockTime),
>)
    ensures
        match res {
            Some((at, time)) => timed(height, text@, millis) == Some((at, (time.0, time.1@))),
            None => timed(height, text@, millis) is None,
        },
{
    match millis {
        Some(since) => Some((height, (since, text))),
        None => None,
    }
}

/// The block that an item speaks of and its time, where it has both.
pub fn header_time(item: &Value) -> (res: Option<(u64, BlockTime)>)
    ensures
        match res {
            Some((height, time)) => time_in(json(*item)) == Some((height, (time.0, time.1@))),
            None => time_in(json(*item)) is None,
        },
{
    match dated_header(item) {
        Some((height, text)) => {
            let millis = parse_millis(text.as_str());
            timed_header(height, text, millis)
        },
        None => None,
    }
}

/// Puts the time that an item gives, if it gives one, among the known times.
fn take_item(item: &Value, known: &mut HashMap<u64, BlockTime>)
    ensures
        shown(final(known)@) == match time_in(json(*item)) {
            Some((height, time)) => shown(old(known)@).insert(height, time),
            None => shown(old(known)@),
        },
{
    if let Some((height, time)) = header_time(item) {
        let _ = known.insert(height, time);
        assert(shown(known@) =~= shown(old(known)@).insert(height, (time.0, time.1@)));
    }
}

/// Puts the times that a reply of the node gives among the known times.
pub fn read_block_times(reply: &Value, known: &mut HashMap<u64, BlockTime>)
    ensures
        shown(final(known)@) == with_times(shown(old(known)@), items_in(json(*reply))),
{
    let ghost before = shown(known@);
    if let Some(items) = json::as_array(reply) {
        let ghost all = items@.map_values(|item: Value| json(item));
        let mut i: usize = 0;
        assert(all.take(0) =~= Seq::<Json>::empty());
        while i < items.len()
            invariant
                i <= items@.len(),
                all == items@.map_values(|item: Value| json(item)),
                shown(known@) == with_times(before, all.take(i as int)),
            decreases items@.len() - i,
        {
            assert(all.take(i + 1).drop_last() =~= all.take(i as int));
            assert(all.take(i + 1).last() == json(items@[i as int]));
            take_item(&items[i], known);
            i = i + 1;
        }
        assert(all.take(all.len() as int) =~= all);
        return;
    }
    if json::is_object(reply) {
        let ghost only = seq![json(*reply)];
        assert(only.drop_last() =~= Seq::<Json>::empty());
        assert(with_times(before, only.drop_last()) == before);
        take_item(reply, known);
    }
}

/// Puts the times that a reply of the node gives among the times that are
/// asked for and among those that are kept; where no reply came, both stay as
/// they are.
pub fn epic_block_times_by_height(
    times: &mut HashMap<u64, BlockTime>,
    cache: &mut HashMap<u64, BlockTime>,
    reply: Option<&Value>,
)
    ensures
        match reply {
            Some(given) => {
                &&& shown(final(times)@) == with_times(shown(old(times)@), items_in(json(*given)))
                &&& shown(final(cache)@) == with_times(shown(old(cache)@), items_in(json(*given)))
            },
            None => *final(times) == *old(times) && *final(cache) == *old(cache),
        },
{
    if let Some(given) = reply {
        read_block_times(given, times);
        read_block_times(given, cache);
    }
}

/// Whether item `i` gives the time of the block at `height`.
pub open spec fn gives(items: Seq<Json>, i: int, height: u64) -> bool {
    0 <= i < items.len() && match time_in(items[i]) {
        Some((at, _)) => at == height,
        None => false,
    }
}

/// A time that was known stays known, and so does one that a reply gave: the
/// block is not asked for again.
pub proof fn read_times_are_kept(
    known: Map<u64, (i64, Seq<char>)>,
    items: Seq<Json>,
    i: int,
    height: u64,
)
    requires
        known.contains_key(height) || gives(items, i, height),
    ensures
        with_times(known, items).contains_key(height),
    decreases items.len(),
{
    if items.len() > 0 {
        if known.contains_key(height) || i < items.len() - 1 {
            read_times_are_kept(known, items.drop_last(), i, height);
        }
    }
}

/// The blocks in a set, each once, in no order in particular.
pub fn listed_heights(heights: &HashSet<u64>) -> (res: Vec<u64>)
    ensures
        res@.to_set() == heights@,
        res@.no_duplicates(),
{
    let mut listed: Vec<u64> = Vec::new();
    for height in it: heights.iter()
        invariant
            it.seq().unref().to_set() == heights@,
            it.seq().no_duplicates(),
            listed@ == it.seq().unref().take(it.index()),
            it.index() == it.seq().len() ==> listed@.to_set() == heights@,
            listed@.no_duplicates(),
    {
        let ghost all = it.seq().unref();
        let ghost now = it.index();
        assert(all[now] == *height);
        assert forall|j: int| 0 <= j < now implies listed@[j] != *height by {
            assert(it.seq()[j] != it.seq()[now]);
        }
        listed.push(*height);
        assert(listed@ =~= all.take(now + 1));
        assert(now + 1 == all.len() ==> listed@ =~= all);
    }
    listed
}

/// Whether the time of a block is wanted and not in `cache`.
pub open spec fn is_missing(
    heights: Set<u64>,
    cache: Map<u64, BlockTime>,
    height: u64,
) -> bool {
    height > 0 && heights.contains(height) && !cache.contains_key(height)
}

/// The times of the blocks above zero among `heights` that `cache` holds, and
/// the blocks that the node is to be asked for: those that it does not hold.
/// Where it holds them all, the node is not to be asked.
pub fn known_block_times(heights: &HashSet<u64>, cache: &HashMap<u64, BlockTime>) -> (res: (
    HashMap<u64, BlockTime>,
    Option<Vec<u64>>,
))
    ensures
        forall|height: u64| #[trigger]
            res.0@.contains_key(height) <==> height > 0 && heights@.contains(height)
                && cache@.contains_key(height),
        forall|height: u64| #[trigger]
            res.0@.contains_key(height) ==> res.0@[height] == cache@[height],
        res.1 is Some <==> exists|height: u64| #[trigger] is_missing(heights@, cache@, height),
        res.1 is None ==> forall|height: u64| #[trigger]
            res.0@.contains_key(height) <==> height > 0 && heights@.contains(height),
        res.1 matches Some(missing) ==> {
            &&& forall|height: u64| #[trigger]
                missing@.contains(height) <==> is_missing(heights@, cache@, height)
            &&& missing@.no_duplicates()
        },
{
    let listed = listed_heights(heights);
    let mut times: HashMap<u64, BlockTime> = HashMap::new();
    let mut missing: Vec<u64> = Vec::new();
    for i in 0..listed.len()
        invariant
            listed@.no_duplicates(),
            forall|h: u64| #[trigger]
                times@.contains_key(h) <==> h > 0 && listed@.take(i as int).contains(h)
                    && cache@.contains_key(h),
            forall|h: u64| #[trigger] times@.contains_key(h) ==> times@[h] == cache@[h],
            forall|h: u64| #[trigger]
                missing@.contains(h) <==> h > 0 && listed@.take(i as int).contains(h)
                    && !cache@.contains_key(h),
            missing@.no_duplicates(),
    {
        let height: u64 = listed[i];
        let ghost before = listed@.take(i as int);
        let ghost lacking = missing@;
        assert(listed@.take(i + 1) =~= before.push(height));
        proof {
            before.lemma_push_to_set_commute(height);
            lacking.lemma_push_to_set_commute(height);
        }
        assert(!before.contains(height));
        assert forall|h: u64| #[trigger]
            before.push(height).contains(h) <==> before.contains(h) || h == height by {
            assert(before.push(height).to_set().contains(h) <==> before.to_set().insert(
                height,
            ).contains(h));
        }
        if height > 0 {
            match cache.get(&height) {
                Some(time) => {
                    let _ = times.insert(height, (time.0, time.1.clone()));
                },
                None => {
                    missing.push(height);
                    assert forall|h: u64| #[trigger]
                        missing@.contains(h) <==> lacking.contains(h) || h == height by {
                        assert(missing@.to_set().contains(h) <==> lacking.to_set().insert(
                            height,
                        ).contains(h));
                    }
                    assert(!lacking.contains(height));
                },
            }
        }
    }
    proof {
        assert(listed@.take(listed@.len() as int) =~= listed@);
        assert forall|h: u64| heights@.contains(h) <==> #[trigger] listed@.contains(h) by {
            assert(listed@.to_set().contains(h) <==> listed@.contains(h));
        }
        assert forall|height: u64| #[trigger]
            missing@.contains(height) <==> is_missing(heights@, cache@, height) by {
            if is_missing(heights@, cache@, height) {
                assert(listed@.contains(height));
            }
        }
        if missing@.len() > 0 {
            assert(missing@.contains(missing@[0]));
            assert(is_missing(heights@, cache@, missing@[0]));
        } else {
            assert forall|height: u64| !#[trigger] is_missing(heights@, cache@, height) by {
                assert(!missing@.contains(height));
            }
            assert forall|height: u64| #[trigger]
                times@.contains_key(height) <==> height > 0 && heights@.contains(height) by {
                assert(!is_missing(heights@, cache@, height));
                assert(heights@.contains(height) <==> listed@.contains(height));
            }
        }
    }
    if missing.len() == 0 {
        (times, None)
    } else {
        (times, Some(missing))
    }
}

/// The time of the block at `height`, where there is one and its time is
/// known, and else the time in its place.
pub open spec fn time_at(
    times: Map<u64, BlockTime>,
    height: Option<u64>,
    fallback: (i64, Seq<char>),
) -> (i64, Seq<char>) {
    match height {
        Some(at) => if times.contains_key(at) {
            (times[at].0, times[at].1@)
        } else {
            fallback
        },
        None => fallback,
    }
}

/// The time of the block at `height`, where there is one and its time is
/// known, and else the time in its place.
pub fn epic_time_for_height(
    block_times: &HashMap<u64, BlockTime>,
    height: Option<u64>,
    fallback_timestamp: i64,
    fallback_date: String,
) -> (res: BlockTime)
    ensures
        (res.0, res.1@) == time_at(block_times@, height, (fallback_timestamp, fallback_date@)),
{
    match height {
        Some(at) => match block_times.get(&at) {
            Some(time) => (time.0, time.1.clone()),
            None => (fallback_timestamp, fallback_date),
        },
        None => (fallback_timestamp, fallback_date),
    }
}

} // verus!
