//! JSON documents. `serde_json` holds, writes and reads them; this module says
//! what a document holds and gives the calls into `serde_json` their contracts.

use vstd::prelude::*;

verus! {

/// `serde_json::Value`, a JSON document. What one holds is `json`.
#[verifier::external_type_specification]
#[verifier::external_body]
pub struct ExValue(serde_json::Value);

/// What a JSON document holds.
pub enum Json {
    /// `null`.
    Null,
    /// `true` or `false`.
    Bool(bool),
    /// A number that fits `u64` or `i64`.
    Integer(int),
    /// Any other number, by the text that writes it.
    Fraction(Seq<char>),
    /// A string.
    Text(Seq<char>),
    /// An array.
    Array(Seq<Json>),
    /// An object: its members by their keys.
    Object(Map<Seq<char>, Json>),
}

/// What `value` holds.
pub uninterp spec fn json(value: serde_json::Value) -> Json;

/// The compact text of a document, as the `Display` impl of `serde_json::Value` writes it.
pub uninterp spec fn json_text(document: Json) -> Seq<char>;

/// The document that `serde_json::from_str` reads from `text`, or the text of its error.
pub uninterp spec fn json_parsed(text: Seq<char>) -> Result<Json, Seq<char>>;

/// The member of an object under `key`; other documents have no members.
pub open spec fn member(document: Json, key: Seq<char>) -> Option<Json> {
    match document {
        Json::Object(members) => if members.contains_key(key) {
            Some(members[key])
        } else {
            None
        },
        _ => None,
    }
}

/// The members of an object; `null` counts as an object without members.
pub open spec fn members(document: Json) -> Map<Seq<char>, Json> {
    match document {
        Json::Object(members) => members,
        _ => Map::empty(),
    }
}

/// Whether a document is an object, or `null`, which can become one.
pub open spec fn extensible(document: Json) -> bool {
    document is Object || document is Null
}

/// Whether a document is `null`, a boolean, an integer or a string.
pub open spec fn scalar(document: Json) -> bool {
    document is Null || document is Bool || document is Integer || document is Text
}

/// Whether a document is an object whose members are scalars.
pub open spec fn flat(document: Json) -> bool {
    document is Object && forall|key: Seq<char>| #[trigger]
        document->Object_0.contains_key(key) ==> scalar(document->Object_0[key])
}

/// Whether a document is an array of flat objects.
pub open spec fn rows(document: Json) -> bool {
    document is Array && forall|i: int|
        0 <= i < document->Array_0.len() ==> flat(#[trigger] document->Array_0[i])
}

/// Whether a document is an object whose members are scalars and arrays of flat objects.
pub open spec fn tabular(document: Json) -> bool {
    document is Object && forall|key: Seq<char>| #[trigger]
        document->Object_0.contains_key(key) ==> scalar(document->Object_0[key]) || rows(
            document->Object_0[key],
        )
}

/// Whether a document nests arrays and objects at most `depth` deep and holds
/// no number but integers.
pub open spec fn nests(document: Json, depth: nat) -> bool
    decreases depth,
{
    match document {
        Json::Fraction(_) => false,
        Json::Array(items) => depth > 0 && forall|i: int|
            0 <= i < items.len() ==> nests(#[trigger] items[i], (depth - 1) as nat),
        Json::Object(members) => depth > 0 && forall|key: Seq<char>| #[trigger]
            members.contains_key(key) ==> nests(members[key], (depth - 1) as nat),
        _ => true,
    }
}

/// Whether the text of a document reads back as that document: it does where
/// the document is not nested too deep and holds no fraction.
pub open spec fn rereadable(document: Json) -> bool {
    nests(document, 100)
}

/// Scalars are not nested.
proof fn lemma_scalar(document: Json, depth: nat)
    requires
        scalar(document),
    ensures
        nests(document, depth),
{
}

/// Flat objects are nested once.
proof fn lemma_flat(document: Json, depth: nat)
    requires
        flat(document),
        depth > 0,
    ensures
        nests(document, depth),
{
    assert forall|key: Seq<char>| #[trigger] document->Object_0.contains_key(key) implies nests(
        document->Object_0[key],
        (depth - 1) as nat,
    ) by {
        lemma_scalar(document->Object_0[key], (depth - 1) as nat);
    }
}

/// The text of a tabular object reads back.
pub proof fn lemma_tabular(document: Json)
    requires
        tabular(document),
    ensures
        rereadable(document),
{
    assert forall|key: Seq<char>| #[trigger] document->Object_0.contains_key(key) implies nests(
        document->Object_0[key],
        99,
    ) by {
        let inner = document->Object_0[key];
        if scalar(inner) {
            lemma_scalar(inner, 99);
        } else {
            assert forall|i: int| 0 <= i < inner->Array_0.len() implies nests(
                #[trigger] inner->Array_0[i],
                98,
            ) by {
                lemma_flat(inner->Array_0[i], 98);
            }
        }
    }
}

/// Whether `text` reads as `document`.
pub open spec fn reads_as(text: Seq<char>, document: Json) -> bool {
    json_parsed(text) == Ok::<Json, Seq<char>>(document)
}

/// `serde_json::Value::Null`.
#[verifier::external_body]
pub(crate) fn null() -> (res: serde_json::Value)
    ensures
        json(res) == Json::Null,
{
    serde_json::Value::Null
}

/// `serde_json::Value::from` a boolean gives that boolean.
#[verifier::external_body]
pub(crate) fn boolean(value: bool) -> (res: serde_json::Value)
    ensures
        json(res) == Json::Bool(value),
{
    serde_json::Value::from(value)
}

/// `serde_json::Value::from` a `u64` gives that number.
#[verifier::external_body]
pub(crate) fn unsigned(value: u64) -> (res: serde_json::Value)
    ensures
        json(res) == Json::Integer(value as int),
{
    serde_json::Value::from(value)
}

/// `serde_json::Value::from` an `i64` gives that number.
#[verifier::external_body]
pub(crate) fn signed(value: i64) -> (res: serde_json::Value)
    ensures
        json(res) == Json::Integer(value as int),
{
    serde_json::Value::from(value)
}

/// `serde_json::Value::from` a string slice gives that string.
#[verifier::external_body]
pub(crate) fn string(value: &str) -> (res: serde_json::Value)
    ensures
        json(res) == Json::Text(value@),
{
    serde_json::Value::from(value)
}

/// `serde_json::Value::from` a vector gives the array of its documents.
#[verifier::external_body]
pub(crate) fn array(items: Vec<serde_json::Value>) -> (res: serde_json::Value)
    ensures
        json(res) == Json::Array(items@.map_values(|item: serde_json::Value| json(item))),
{
    serde_json::Value::from(items)
}

/// Assigning through `IndexMut` of `serde_json::Value` puts a member into an
/// object, in the place of one with the same key. `null` becomes an object
/// first; on any other document the assignment panics.
#[verifier::external_body]
pub(crate) fn set(document: &mut serde_json::Value, key: &str, value: serde_json::Value)
    requires
        extensible(json(*old(document))),
    ensures
        json(*final(document)) == Json::Object(
            members(json(*old(document))).insert(key@, json(value)),
        ),
{
    document[key] = value;
}

/// `serde_json::Value::get` with a string finds the member of an object under that key.
#[verifier::external_body]
pub(crate) fn get<'a>(document: &'a serde_json::Value, key: &str) -> (res: Option<
    &'a serde_json::Value,
>)
    ensures
        match res {
            Some(value) => member(json(*document), key@) == Some(json(*value)),
            None => member(json(*document), key@) is None,
        },
{
    document.get(key)
}

/// `serde_json::Value::as_u64` gives the number of a document that is one and fits.
#[verifier::external_body]
pub(crate) fn as_u64(document: &serde_json::Value) -> (res: Option<u64>)
    ensures
        res == json_u64(json(*document)),
{
    document.as_u64()
}

/// The number that a document is, where it fits `u64`.
pub open spec fn json_u64(document: Json) -> Option<u64> {
    match document {
        Json::Integer(n) => if 0 <= n <= u64::MAX {
            Some(n as u64)
        } else {
            None
        },
        _ => None,
    }
}

/// `serde_json::Value::as_str` gives the text of a document that is a string.
#[verifier::external_body]
pub(crate) fn as_str(document: &serde_json::Value) -> (res: Option<&str>)
    ensures
        match res {
            Some(text) => json(*document) == Json::Text(text@),
            None => !(json(*document) is Text),
        },
{
    document.as_str()
}

/// `serde_json::Value::as_bool` gives the boolean of a document that is one.
#[verifier::external_body]
pub(crate) fn as_bool(document: &serde_json::Value) -> (res: Option<bool>)
    ensures
        match res {
            Some(value) => json(*document) == Json::Bool(value),
            None => !(json(*document) is Bool),
        },
{
    document.as_bool()
}

/// `serde_json::Value::as_array` gives the documents of an array.
#[verifier::external_body]
pub(crate) fn as_array(document: &serde_json::Value) -> (res: Option<&Vec<serde_json::Value>>)
    ensures
        match res {
            Some(items) => json(*document) == Json::Array(
                items@.map_values(|item: serde_json::Value| json(item)),
            ),
            None => !(json(*document) is Array),
        },
{
    document.as_array()
}

/// `serde_json::Value::is_object` tells objects from other documents.
#[verifier::external_body]
pub(crate) fn is_object(document: &serde_json::Value) -> (res: bool)
    ensures
        res == (json(*document) is Object),
{
    document.is_object()
}

/// `to_string` through the `Display` impl of `serde_json::Value` writes the
/// compact text. Control characters are escaped in it, so it holds no NUL. The
/// text of a document without fractions reads back as that document, unless it
/// is nested as deep as the reader goes, which is more than a hundred levels.
#[verifier::external_body]
pub(crate) fn render(document: &serde_json::Value) -> (res: String)
    ensures
        res@ == json_text(json(*document)),
        !res@.contains('\0'),
        rereadable(json(*document)) ==> reads_as(res@, json(*document)),
{
    document.to_string()
}

/// `serde_json::from_str` reads a document; an error is given by its text.
#[verifier::external_body]
pub(crate) fn parse(text: &str) -> (res: Result<serde_json::Value, String>)
    ensures
        match res {
            Ok(document) => json_parsed(text@) matches Ok(read) && read == json(document),
            Err(message) => json_parsed(text@) matches Err(said) && said == message@,
        },
{
    serde_json::from_str(text).map_err(|e: serde_json::Error| e.to_string())
}

} // verus!
