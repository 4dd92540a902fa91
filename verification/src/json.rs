//! JSON values and their text, as `serde_json` holds, prints and reads them.
use vstd::prelude::*;
use crate::text::{decimal, string_texts};

verus! {

/// What a JSON text or a [`serde_json::Value`] stands for. A number is kept as the text that it
/// is printed with.
pub ghost enum JsonTree {
    Null,
    Bool(bool),
    Number(Seq<char>),
    Str(Seq<char>),
    Array(Seq<JsonTree>),
    Object(Map<Seq<char>, JsonTree>),
}

/// How many arrays and objects inside one another `serde_json` reads at most.
pub open spec fn reading_depth() -> nat {
    127
}

/// `text` is a whole number that fits in 64 bits, signed or unsigned.
pub open spec fn integer_text(text: Seq<char>) -> bool {
    exists|n: nat|
        {
            let digits = #[trigger] decimal(n);
            ||| n <= u64::MAX && text == digits
            ||| 0 < n <= -i64::MIN && text == "-"@ + digits
        }
}

/// At most `depth` arrays and objects stand inside one another in `tree`.
pub open spec fn nests(tree: JsonTree, depth: nat) -> bool
    decreases depth,
{
    match tree {
        JsonTree::Array(items) => {
            &&& depth > 0
            &&& forall|i: int|
                0 <= i < items.len() ==> nests(#[trigger] items[i], (depth - 1) as nat)
        },
        JsonTree::Object(fields) => {
            &&& depth > 0
            &&& forall|k: Seq<char>|
                fields.contains_key(k) ==> nests(#[trigger] fields[k], (depth - 1) as nat)
        },
        _ => true,
    }
}

/// Every number in `tree` is a whole one, and at most `depth` arrays and objects stand inside one
/// another.
pub open spec fn reads_back(tree: JsonTree, depth: nat) -> bool
    decreases depth,
{
    match tree {
        JsonTree::Null | JsonTree::Bool(_) | JsonTree::Str(_) => true,
        JsonTree::Number(text) => integer_text(text),
        JsonTree::Array(items) => {
            &&& depth > 0
            &&& forall|i: int|
                0 <= i < items.len() ==> reads_back(#[trigger] items[i], (depth - 1) as nat)
        },
        JsonTree::Object(fields) => {
            &&& depth > 0
            &&& forall|k: Seq<char>|
                fields.contains_key(k) ==> reads_back(#[trigger] fields[k], (depth - 1) as nat)
        },
    }
}

/// `read` is what the text of `tree` reads as, where `tree` nests no deeper than `depth`: the same
/// value, save that a fraction stands as `serde_json` reads its text when that is all there is to
/// read. A fraction reads as a fraction, and perhaps as one with a different last digit.
pub open spec fn reads_as(tree: JsonTree, read: JsonTree, depth: nat) -> bool
    decreases depth,
{
    match tree {
        JsonTree::Null | JsonTree::Bool(_) | JsonTree::Str(_) => read == tree,
        JsonTree::Number(text) => if integer_text(text) {
            read == tree
        } else {
            &&& json_parse(text) == Some(read)
            &&& read matches JsonTree::Number(fraction) && !integer_text(fraction)
        },
        JsonTree::Array(items) => {
            &&& depth > 0
            &&& read matches JsonTree::Array(others) && {
                &&& others.len() == items.len()
                &&& forall|i: int|
                    0 <= i < items.len() ==> reads_as(
                        #[trigger] items[i],
                        others[i],
                        (depth - 1) as nat,
                    )
            }
        },
        JsonTree::Object(fields) => {
            &&& depth > 0
            &&& read matches JsonTree::Object(others) && {
                &&& others.dom() == fields.dom()
                &&& forall|k: Seq<char>|
                    fields.contains_key(k) ==> reads_as(
                        #[trigger] fields[k],
                        others[k],
                        (depth - 1) as nat,
                    )
            }
        },
    }
}

/// `text` reads as a text of `tree` does, unless `tree` nests deeper than `serde_json` reads.
pub open spec fn can_be_read(text: Seq<char>, tree: JsonTree) -> bool {
    nests(tree, reading_depth()) ==> (json_parse(text) matches Some(read) && reads_as(
        tree,
        read,
        reading_depth(),
    ))
}

/// The fields of an empty object.
pub open spec fn no_fields() -> Map<Seq<char>, JsonTree> {
    Map::empty()
}

/// A JSON array of strings.
pub open spec fn string_array(items: Seq<Seq<char>>) -> JsonTree {
    JsonTree::Array(items.map_values(|s: Seq<char>| JsonTree::Str(s)))
}

/// Any JSON value, as `serde_json` holds it.
#[verifier::external_type_specification]
#[verifier::external_body]
pub struct ExValue(serde_json::Value);

/// A JSON object, as `serde_json` holds it.
#[verifier::external_type_specification]
#[verifier::external_body]
#[verifier::reject_recursive_types(K)]
#[verifier::reject_recursive_types(V)]
pub struct ExMap<K, V>(serde_json::Map<K, V>);

/// What `serde_json` reports of a text that is no JSON.
#[verifier::external_type_specification]
#[verifier::external_body]
pub struct ExError(serde_json::Error);

/// What a [`serde_json::Value`] stands for.
pub uninterp spec fn value_tree(value: serde_json::Value) -> JsonTree;

/// The fields of a [`serde_json::Map`], each under its name.
pub uninterp spec fn map_fields(map: serde_json::Map<String, serde_json::Value>) -> Map<
    Seq<char>,
    JsonTree,
>;

/// The compact text that `serde_json` prints for a JSON value.
pub uninterp spec fn json_text(tree: JsonTree) -> Seq<char>;

/// What `serde_json` reads from a text; `None` where it refuses the text.
pub uninterp spec fn json_parse(text: Seq<char>) -> Option<JsonTree>;

/// Wraps `serde_json::Map::new`: an object without fields.
#[verifier::external_body]
pub(crate) fn new_map() -> (r: serde_json::Map<String, serde_json::Value>)
    ensures
        map_fields(r) == no_fields(),
{
    serde_json::Map::new()
}

/// Wraps `serde_json::Map::insert`: the field `key` now holds `value`, whether or not there was
/// one of that name; the others are as they were.
#[verifier::external_body]
pub(crate) fn insert_field(
    map: &mut serde_json::Map<String, serde_json::Value>,
    key: &str,
    value: serde_json::Value,
)
    ensures
        map_fields(*final(map)) == map_fields(*old(map)).insert(key@, value_tree(value)),
{
    map.insert(key.to_owned(), value);
}

/// Wraps `serde_json::Value::from` for an object: the value is that object.
#[verifier::external_body]
pub(crate) fn object_value(map: serde_json::Map<String, serde_json::Value>) -> (value:
    serde_json::Value)
    ensures
        value_tree(value) == JsonTree::Object(map_fields(map)),
{
    serde_json::Value::from(map)
}

/// Wraps `serde_json::Value::from` for a string: the value is that string.
#[verifier::external_body]
pub(crate) fn string_value(text: String) -> (value: serde_json::Value)
    ensures
        value_tree(value) == JsonTree::Str(text@),
{
    serde_json::Value::from(text)
}

/// Wraps `serde_json::Value::from` for a list of strings: the value is the array of them, in
/// their order.
#[verifier::external_body]
pub(crate) fn array_value(items: Vec<String>) -> (value: serde_json::Value)
    ensures
        value_tree(value) == string_array(string_texts(items@)),
{
    serde_json::Value::from(items)
}

/// Wraps `serde_json::Value::is_null`: the value is a null.
#[verifier::external_body]
pub(crate) fn is_null(value: &serde_json::Value) -> (r: bool)
    ensures
        r == (value_tree(*value) is Null),
{
    value.is_null()
}

/// Wraps `serde_json::Value::clone`: the copy is the same value.
#[verifier::external_body]
pub(crate) fn copy_value(value: &serde_json::Value) -> (copy: serde_json::Value)
    ensures
        copy == *value,
{
    value.clone()
}

/// Wraps `serde_json::Value::to_string`, which prints the compact text of a value. The text
/// depends on what the value stands for alone (fields are printed in the order of their names).
/// Read again it gives the value back, as long as the value nests no deeper than `serde_json`
/// reads. A fraction reads as its own text does, wherever it stands. Which fraction comes of it is
/// not stated, since `serde_json` may read one with a different last digit.
#[verifier::external_body]
pub(crate) fn value_text(value: &serde_json::Value) -> (text: String)
    ensures
        text@ == json_text(value_tree(*value)),
        can_be_read(text@, value_tree(*value)),
{
    value.to_string()
}

/// Wraps `serde_json::from_str`: the value that the text stands for, or an error where the text
/// is refused. What the error says is not stated.
#[verifier::external_body]
pub(crate) fn parse_value(text: &str) -> (r: Result<serde_json::Value, serde_json::Error>)
    ensures
        match r {
            Ok(value) => json_parse(text@) == Some(value_tree(value)),
            Err(_) => json_parse(text@) is None,
        },
{
    serde_json::from_str(text)
}

/// What the text of a value reads as is fixed by the value, fractions and all.
pub proof fn law_reading_is_fixed(tree: JsonTree, one: JsonTree, other: JsonTree, depth: nat)
    requires
        reads_as(tree, one, depth),
        reads_as(tree, other, depth),
    ensures
        one == other,
    decreases depth,
{
    match tree {
        JsonTree::Array(items) => {
            let (ones, others) = (one->Array_0, other->Array_0);
            assert forall|i: int| 0 <= i < items.len() implies ones[i] == others[i] by {
                assert(reads_as(items[i], ones[i], (depth - 1) as nat));
                law_reading_is_fixed(items[i], ones[i], others[i], (depth - 1) as nat);
            }
            assert(ones =~= others);
        },
        JsonTree::Object(fields) => {
            let (ones, others) = (one->Object_0, other->Object_0);
            assert forall|k: Seq<char>| fields.contains_key(k) implies ones[k] == others[k] by {
                assert(reads_as(fields[k], ones[k], (depth - 1) as nat));
                law_reading_is_fixed(fields[k], ones[k], others[k], (depth - 1) as nat);
            }
            assert(ones =~= others);
        },
        _ => {},
    }
}

/// A value whose numbers are all whole is read back as it was.
pub proof fn law_whole_numbers_are_read_back(tree: JsonTree, read: JsonTree, depth: nat)
    requires
        reads_back(tree, depth),
        reads_as(tree, read, depth),
    ensures
        read == tree,
{
    lemma_reads_as_itself(tree, depth);
    law_reading_is_fixed(tree, read, tree, depth);
}

/// A value whose numbers are all whole nests no deeper than `depth`, and may read as itself.
pub(crate) proof fn lemma_reads_as_itself(tree: JsonTree, depth: nat)
    requires
        reads_back(tree, depth),
    ensures
        nests(tree, depth),
        reads_as(tree, tree, depth),
    decreases depth,
{
    match tree {
        JsonTree::Array(items) => {
            assert forall|i: int| 0 <= i < items.len() implies nests(
                #[trigger] items[i],
                (depth - 1) as nat,
            ) && reads_as(items[i], items[i], (depth - 1) as nat) by {
                lemma_reads_as_itself(items[i], (depth - 1) as nat);
            }
        },
        JsonTree::Object(fields) => {
            assert forall|k: Seq<char>| fields.contains_key(k) implies nests(
                #[trigger] fields[k],
                (depth - 1) as nat,
            ) && reads_as(fields[k], fields[k], (depth - 1) as nat) by {
                lemma_reads_as_itself(fields[k], (depth - 1) as nat);
            }
        },
        _ => {},
    }
}

} // verus!
