use std::collections::{HashMap, HashSet};

use altbase_epic::block_times::{
    dated_header, epic_block_times_by_height, epic_time_for_height, header_time, known_block_times,
    listed_heights, read_block_times, timed_header,
};
use serde_json::Value;

fn read(text: &str) -> Value {
    serde_json::from_str(text).unwrap()
}

fn time(millis: i64, text: &str) -> (i64, String) {
    (millis, text.to_string())
}

#[test]
fn header_has_a_height_and_a_time() {
    let item = read(r#"{"id":7,"result":{"Ok":{"height":9,"timestamp":"1970-01-01T00:00:01+00:00"}}}"#);
    assert_eq!(dated_header(&item), Some((7, "1970-01-01T00:00:01+00:00".to_string())));
    assert_eq!(header_time(&item), Some((7, time(1000, "1970-01-01T00:00:01+00:00"))));
    let item = read(r#"{"id":"x","result":{"Ok":{"height":9,"timestamp":"2024-02-29T12:30:00.5+02:00"}}}"#);
    assert_eq!(
        header_time(&item),
        Some((9, time(1709202600500, "2024-02-29T12:30:00.5+02:00")))
    );
}

#[test]
fn other_items_give_no_time() {
    for text in [
        "null",
        "[]",
        r#"{"id":7}"#,
        r#"{"id":7,"result":{}}"#,
        r#"{"id":7,"result":{"Ok":{}}}"#,
        r#"{"id":7,"result":{"Ok":{"timestamp":5}}}"#,
        r#"{"id":7,"result":{"Ok":{"timestamp":"yesterday"}}}"#,
        r#"{"id":-7,"result":{"Ok":{"timestamp":"1970-01-01T00:00:01Z"}}}"#,
        r#"{"id":7.5,"result":{"Ok":{"timestamp":"1970-01-01T00:00:01Z"}}}"#,
        r#"{"result":{"Err":{"height":9,"timestamp":"1970-01-01T00:00:01Z"}}}"#,
    ] {
        assert_eq!(header_time(&read(text)), None, "{text}");
    }
}

#[test]
fn time_that_could_not_be_read_is_left_out() {
    assert_eq!(timed_header(4, "t".to_string(), Some(-5)), Some((4, time(-5, "t"))));
    assert_eq!(timed_header(4, "t".to_string(), None), None);
}

#[test]
fn later_items_win() {
    let reply = read(
        r#"[{"id":1,"result":{"Ok":{"timestamp":"1970-01-01T00:00:01Z"}}},
            {"id":2,"result":{"Ok":{"timestamp":"bad"}}},
            {"id":1,"result":{"Ok":{"timestamp":"1970-01-01T00:00:02Z"}}}]"#,
    );
    let mut known = HashMap::new();
    known.insert(3, time(9, "nine"));
    read_block_times(&reply, &mut known);
    assert_eq!(known.len(), 2);
    assert_eq!(known[&1], time(2000, "1970-01-01T00:00:02Z"));
    assert_eq!(known[&3], time(9, "nine"));
}

#[test]
fn one_item_needs_no_array() {
    let mut known = HashMap::new();
    let reply = read(r#"{"id":1,"result":{"Ok":{"timestamp":"1970-01-01T00:00:01Z"}}}"#);
    read_block_times(&reply, &mut known);
    assert_eq!(known[&1].0, 1000);
    let mut nothing = HashMap::new();
    read_block_times(&read("\"text\""), &mut nothing);
    assert!(nothing.is_empty());
}

#[test]
fn known_times_are_not_asked_for_again() {
    let heights: HashSet<u64> = [0, 1, 2, 3].into_iter().collect();
    let mut cache = HashMap::new();
    cache.insert(2, time(20, "two"));
    cache.insert(0, time(0, "zero"));
    let (mut times, missing) = known_block_times(&heights, &cache);
    let mut missing = missing.unwrap();
    missing.sort();
    assert_eq!(missing, vec![1, 3]);
    assert_eq!(times.len(), 1);
    assert_eq!(times[&2], time(20, "two"));
    let reply = read(
        r#"[{"id":1,"result":{"Ok":{"timestamp":"1970-01-01T00:00:01Z"}}},
            {"id":3,"result":{"Ok":{"timestamp":"1970-01-01T00:00:03Z"}}}]"#,
    );
    epic_block_times_by_height(&mut times, &mut cache, None);
    assert_eq!(times.len(), 1);
    assert_eq!(cache.len(), 2);
    epic_block_times_by_height(&mut times, &mut cache, Some(&reply));
    assert_eq!(times.len(), 3);
    assert_eq!(cache.len(), 4);
    let (times, missing) = known_block_times(&heights, &cache);
    assert_eq!(missing, None);
    assert_eq!(times[&3].0, 3000);
    assert_eq!(known_block_times(&HashSet::new(), &cache).1, None);
}

#[test]
fn every_block_is_listed_once() {
    let heights: HashSet<u64> = [9, 0, 4].into_iter().collect();
    let mut listed = listed_heights(&heights);
    listed.sort();
    assert_eq!(listed, vec![0, 4, 9]);
}

#[test]
fn unknown_time_has_a_fallback() {
    let mut times = HashMap::new();
    times.insert(5, time(50, "five"));
    let at = |height| epic_time_for_height(&times, height, 1, "one".to_string());
    assert_eq!(at(Some(5)), time(50, "five"));
    assert_eq!(at(Some(6)), time(1, "one"));
    assert_eq!(at(None), time(1, "one"));
}
