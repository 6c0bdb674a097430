//! Documents: what a JSON tree says, and how it is read.

use crate::json::{Fields, Json, Number, Tree};
use crate::json;
use vstd::prelude::*;

verus! {

/// The object with one field.
pub open spec fn object_of(key: Seq<char>, value: Tree) -> Tree {
    Tree::Object(Map::empty().insert(key, value))
}

/// The object with two fields.
pub open spec fn object_of_two(
    key: Seq<char>,
    value: Tree,
    other_key: Seq<char>,
    other_value: Tree,
) -> Tree {
    Tree::Object(Map::empty().insert(key, value).insert(other_key, other_value))
}

/// An object has these fields and no others.
pub open spec fn has_just(tree: Tree, keys: Set<Seq<char>>) -> bool {
    tree matches Tree::Object(fields) && fields.dom() == keys
}

/// A field is found under its key and nowhere else, and only in an object.
pub proof fn law_fields_are_found(fields: Map<Seq<char>, Tree>, key: Seq<char>, other: Tree)
    ensures
        fields.dom().contains(key) ==> Tree::Object(fields).get(key) == Some(fields[key]),
        !fields.dom().contains(key) ==> Tree::Object(fields).get(key) is None,
        !(other is Object) ==> other.get(key) is None,
{
}

/// What a document is read as: an array by its elements, a string by its
/// characters, a number by its value where it is a non-negative integer, and
/// anything else as nothing.
pub proof fn law_documents_read_as_what_they_are(tree: Tree)
    ensures
        match tree {
            Tree::Array(items) => tree.as_array() == Some(items) && tree.as_text() is None
                && tree.as_u64() is None,
            Tree::Text(s) => tree.as_array() is None && tree.as_text() == Some(s) && tree.as_u64()
                is None,
            Tree::Number(Number::PosInt(n)) => tree.as_array() is None && tree.as_text() is None
                && tree.as_u64() == Some(n),
            _ => tree.as_array() is None && tree.as_text() is None && tree.as_u64() is None,
        },
{
}

/// A JSON tree says of its leaves what they hold.
pub proof fn law_leaves_say_what_they_hold(b: bool, n: Number, s: String)
    ensures
        Json::Null@ == Tree::Null,
        Json::Bool(b)@ == Tree::Bool(b),
        Json::Number(n)@ == Tree::Number(n),
        Json::Text(s)@ == Tree::Text(s@),
{
}

/// An array says of each of its elements, in their order, what the element
/// says.
pub proof fn law_arrays_say_what_their_elements_say(items: Vec<Json>, i: int)
    requires
        0 <= i < items@.len(),
    ensures
        Json::Array(items)@ matches Tree::Array(said) && said.len() == items@.len() && said[i]
            == items@[i]@,
{
    json::lemma_trees_of(items@);
}

/// An object with one more entry has that entry under its key, whatever stood
/// there, and the rest as before.
pub proof fn law_later_entries_win(
    fewer: Vec<(String, Json)>,
    more: Vec<(String, Json)>,
    key: String,
    value: Json,
    other: Seq<char>,
)
    requires
        more@ == fewer@.push((key, value)),
    ensures
        Json::Object(more)@.get(key@) == Some(value@),
        other != key@ ==> Json::Object(more)@.get(other) == Json::Object(fewer)@.get(other),
{
    json::lemma_fields_push(fewer@, key, value);
}

/// An object without entries has nothing under any key.
pub proof fn law_no_entries_no_fields(none: Vec<(String, Json)>, key: Seq<char>)
    requires
        none@.len() == 0,
    ensures
        Json::Object(none)@ is Object,
        Json::Object(none)@.get(key) is None,
{
}

// ---------------------------------------------------------------------------
// What the operations return
// ---------------------------------------------------------------------------

/// What is read of a document is what the document says.
pub proof fn law_documents_are_read(
    json: Json,
    key: &str,
    under: Option<&Json>,
    items: Option<&Vec<Json>>,
    said: Option<&str>,
    number: Option<u64>,
    i: int,
)
    requires
        call_ensures(Json::get, (&json, key), under),
        call_ensures(Json::as_array, (&json,), items),
        call_ensures(Json::as_text, (&json,), said),
        call_ensures(Json::as_u64, (&json,), number),
    ensures
        match under {
            Some(found) => json@.get(key@) == Some(found@),
            None => json@.get(key@) is None,
        },
        match items {
            Some(list) => json@ matches Tree::Array(trees) && trees.len() == list@.len() && (0 <= i
                < trees.len() ==> list@[i]@ == trees[i]),
            None => !(json@ is Array),
        },
        match said {
            Some(s) => json@ == Tree::Text(s@),
            None => !(json@ is Text),
        },
        match number {
            Some(n) => json@ == Tree::Number(Number::PosInt(n)),
            None => !(json@ matches Tree::Number(Number::PosInt(_))),
        },
{
    if let Some(list) = items {
        json::lemma_trees_of(list@);
    }
}

/// A copy of a document says the same.
pub proof fn law_copies_say_the_same(json: Json, copy: Json)
    requires
        call_ensures(<Json as Clone>::clone, (&json,), copy),
    ensures
        copy@ == json@,
{
}

/// Fields start with none, take one after the other under its key, and become
/// the object that has them.
pub proof fn law_fields_become_an_object(
    none: Fields,
    fields: &mut Fields,
    key: &str,
    value: Json,
    other: Seq<char>,
    done: Fields,
    object: Json,
    empty: bool,
)
    requires
        call_ensures(Fields::new, (), none),
        call_ensures(Fields::insert, (fields, key, value), ()),
        call_ensures(Fields::into_json, (done,), object),
        call_ensures(Fields::is_empty, (&done,), empty),
    ensures
        none@.dom() == Set::<Seq<char>>::empty(),
        final(fields)@.dom().contains(key@) && final(fields)@[key@] == value@,
        other != key@ ==> final(fields)@.dom().contains(other) == old(fields)@.dom().contains(other)
            && (old(fields)@.dom().contains(other) ==> final(fields)@[other] == old(
            fields,
        )@[other]),
        object@ == Tree::Object(done@),
        empty ==> !done@.dom().contains(other),
        !empty ==> done@ != Map::<Seq<char>, Tree>::empty(),
{
    assert(none@.dom() =~= Set::<Seq<char>>::empty());
}

/// Small documents hold what they are made of, and nothing else.
pub proof fn law_small_documents_hold_what_they_are_made_of(
    key: &str,
    value: Json,
    other_key: &str,
    other: Json,
    said: &str,
    one: Json,
    two: Json,
    quoted: Json,
    single: Json,
)
    requires
        call_ensures(json::object1, (key, value), one),
        call_ensures(json::object2, (key, value, other_key, other), two),
        call_ensures(json::text_json, (said,), quoted),
        call_ensures(json::array1, (value,), single),
    ensures
        one@ == object_of(key@, value@),
        two@ == object_of_two(key@, value@, other_key@, other@),
        quoted@ == Tree::Text(said@),
        single@ matches Tree::Array(items) && items.len() == 1 && items[0] == value@,
{
}

/// What bytes, a text or a value spell is read as it is.
pub proof fn law_what_is_spelled_is_read(
    bytes: &[u8],
    said: &str,
    value: serde_json::Value,
    of_bytes: Result<Json, String>,
    of_text: Option<Json>,
    of_value: Json,
)
    requires
        call_ensures(Json::parse_slice, (bytes,), of_bytes),
        call_ensures(Json::parse_str, (said,), of_text),
        call_ensures(Json::from_value, (&value,), of_value),
    ensures
        match json::json_from_slice(bytes@) {
            Ok(document) => of_bytes matches Ok(read) && read@ == document,
            Err(why) => of_bytes matches Err(complaint) && complaint@ == why,
        },
        match json::json_from_str(said@) {
            Some(document) => of_text matches Some(read) && read@ == document,
            None => of_text is None,
        },
        of_value@ == json::value_tree(value),
{
}

} // verus!
