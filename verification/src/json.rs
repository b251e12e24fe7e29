//! JSON documents, as `serde_json` reads, builds and prints them.
use serde_json::Value;
use vstd::prelude::*;

verus! {

/// A `serde_json` document, opaque: `json_tree` names what it holds.
#[verifier::external_type_specification]
#[verifier::external_body]
pub struct ExValue(serde_json::Value);

/// The members of a `serde_json` object, opaque: `json_members` names what they are.
#[verifier::external_type_specification]
#[verifier::external_body]
#[verifier::reject_recursive_types(K)]
#[verifier::reject_recursive_types(V)]
pub struct ExMembers<K, V>(serde_json::Map<K, V>);

/// A JSON number, in the three forms that `serde_json` tells apart. A fraction
/// is given by the bits of its double.
pub enum JsonNumber {
    Whole(u64),
    Negative(i64),
    Fraction(u64),
}

/// The mathematical content of a JSON document.
pub enum JsonTree {
    Null,
    Bool(bool),
    Number(JsonNumber),
    Text(Seq<char>),
    List(Seq<JsonTree>),
    Object(Map<Seq<char>, JsonTree>),
}

/// What a `serde_json::Value` holds.
pub uninterp spec fn json_tree(value: serde_json::Value) -> JsonTree;

/// The members that a `serde_json::Map` holds, by their keys.
pub uninterp spec fn json_members(
    members: serde_json::Map<String, serde_json::Value>,
) -> Map<Seq<char>, JsonTree>;

/// What `serde_json::from_str` makes of a text: `None` where it reports an error.
pub uninterp spec fn json_parsed(text: Seq<char>) -> Option<JsonTree>;

/// The text that `serde_json::to_string` prints for a document.
pub uninterp spec fn json_compact(tree: JsonTree) -> Seq<char>;

/// The text that `serde_json::to_string_pretty` prints for a document.
pub uninterp spec fn json_pretty(tree: JsonTree) -> Seq<char>;

/// The bits of the double that a number is rounded to.
pub uninterp spec fn number_double(number: JsonNumber) -> u64;

/// The member of an object under `key`; nothing under any key of anything else.
pub open spec fn tree_member(tree: JsonTree, key: Seq<char>) -> Option<JsonTree> {
    match tree {
        JsonTree::Object(members) => if members.dom().contains(key) {
            Some(members[key])
        } else {
            None
        },
        _ => None,
    }
}

/// The text of a text node.
pub open spec fn tree_text(tree: JsonTree) -> Option<Seq<char>> {
    match tree {
        JsonTree::Text(text) => Some(text),
        _ => None,
    }
}

/// The truth value of a boolean node.
pub open spec fn tree_bool(tree: JsonTree) -> Option<bool> {
    match tree {
        JsonTree::Bool(b) => Some(b),
        _ => None,
    }
}

/// The object with the given members; of two with one key, the later stays.
pub open spec fn object_of(fields: Seq<(Seq<char>, JsonTree)>) -> Map<Seq<char>, JsonTree>
    decreases fields.len(),
{
    if fields.len() == 0 {
        Map::empty()
    } else {
        object_of(fields.drop_last()).insert(fields.last().0, fields.last().1)
    }
}

/// Calls `serde_json::from_str` for a `Value`: the document that the text spells,
/// `None` where the text is no JSON document.
#[verifier::external_body]
pub(crate) fn parse_json(text: &str) -> (r: Option<Value>)
    ensures
        r is Some <==> json_parsed(text@) is Some,
        r matches Some(value) ==> Some(json_tree(value)) == json_parsed(text@),
{
    serde_json::from_str::<Value>(text).ok()
}

/// Calls `Value::get` with a string key: the member under the key, `None` where
/// there is none or where the value is no object.
#[verifier::external_body]
pub(crate) fn json_get<'a>(value: &'a Value, key: &str) -> (r: Option<&'a Value>)
    ensures
        r is Some <==> tree_member(json_tree(*value), key@) is Some,
        r matches Some(member) ==> Some(json_tree(*member)) == tree_member(json_tree(*value), key@),
{
    value.get(key)
}

/// Calls `Value::as_str`: the text of a string, `None` for anything else.
#[verifier::external_body]
pub(crate) fn json_as_text(value: &Value) -> (r: Option<String>)
    ensures
        r is Some <==> tree_text(json_tree(*value)) is Some,
        r matches Some(text) ==> Some(text@) == tree_text(json_tree(*value)),
{
    value.as_str().map(String::from)
}

/// Calls `Value::as_bool`: the truth value of a boolean, `None` for anything else.
#[verifier::external_body]
pub(crate) fn json_as_bool(value: &Value) -> (r: Option<bool>)
    ensures
        r == tree_bool(json_tree(*value)),
{
    value.as_bool()
}

/// Calls `Value::as_f64`: the bits of the double of a number, `None` for anything
/// else. A fraction is given as it is; which double another number is rounded to is left
/// to `number_double`.
#[verifier::external_body]
pub(crate) fn json_as_double(value: &Value) -> (r: Option<u64>)
    ensures
        r == (match json_tree(*value) {
            JsonTree::Number(number) => Some(number_double(number)),
            _ => None,
        }),
        json_tree(*value) matches JsonTree::Number(JsonNumber::Fraction(bits)) ==> r == Some(bits),
{
    value.as_f64().map(|double| double.to_bits())
}

/// Makes a `Value::Null`.
#[verifier::external_body]
pub(crate) fn json_null() -> (r: Value)
    ensures
        json_tree(r) == JsonTree::Null,
{
    Value::Null
}

/// Makes a `Value::String` that holds the text.
#[verifier::external_body]
pub(crate) fn json_text(text: &str) -> (r: Value)
    ensures
        json_tree(r) == JsonTree::Text(text@),
{
    Value::String(String::from(text))
}

/// Makes a `Value::Bool` that holds the truth value.
#[verifier::external_body]
pub(crate) fn json_bool(b: bool) -> (r: Value)
    ensures
        json_tree(r) == JsonTree::Bool(b),
{
    Value::Bool(b)
}

/// Calls `Value::from` for a `u64`: a number that holds it exactly.
#[verifier::external_body]
pub(crate) fn json_whole(n: u64) -> (r: Value)
    ensures
        json_tree(r) == JsonTree::Number(JsonNumber::Whole(n)),
{
    Value::from(n)
}

/// Calls `serde_json::Map::new`: no members.
#[verifier::external_body]
fn no_members() -> (r: serde_json::Map<String, Value>)
    ensures
        json_members(r) == object_of(Seq::empty()),
{
    serde_json::Map::new()
}

/// Calls `serde_json::Map::insert`: the member under the key is the value from now on,
/// and the one that was there is given out.
#[verifier::external_body]
fn insert_member(
    members: &mut serde_json::Map<String, Value>,
    key: String,
    value: Value,
) -> (r: Option<Value>)
    ensures
        json_members(*final(members)) == json_members(*old(members)).insert(
            key@,
            json_tree(value),
        ),
        r is Some <==> json_members(*old(members)).dom().contains(key@),
        r matches Some(before) ==> json_tree(before) == json_members(*old(members))[key@],
{
    members.insert(key, value)
}

/// Makes a `Value::Object` that has the members.
#[verifier::external_body]
fn members_object(members: serde_json::Map<String, Value>) -> (r: Value)
    ensures
        json_tree(r) == JsonTree::Object(json_members(members)),
{
    Value::Object(members)
}

/// Calls `serde_json::to_string` on a `Value`, which cannot fail: every key is a
/// string and the writer is memory. What is printed depends on the content alone.
#[verifier::external_body]
pub(crate) fn json_to_string(value: &Value) -> (r: String)
    ensures
        r@ == json_compact(json_tree(*value)),
{
    serde_json::to_string(value).unwrap()
}

/// Calls `serde_json::to_string_pretty` on a `Value`, which cannot fail either.
#[verifier::external_body]
pub(crate) fn json_to_string_pretty(value: &Value) -> (r: String)
    ensures
        r@ == json_pretty(json_tree(*value)),
{
    serde_json::to_string_pretty(value).unwrap()
}

/// The content of an optional text: the text, or null.
pub open spec fn optional_text(text: Option<Seq<char>>) -> JsonTree {
    match text {
        Some(t) => JsonTree::Text(t),
        None => JsonTree::Null,
    }
}

/// The content of a whole number.
pub open spec fn whole(n: int) -> JsonTree {
    JsonTree::Number(JsonNumber::Whole(n as u64))
}

/// An object that is being put together, field by field.
pub struct JsonFields {
    members: serde_json::Map<String, Value>,
    fields: Ghost<Seq<(Seq<char>, JsonTree)>>,
}

impl View for JsonFields {
    type V = Seq<(Seq<char>, JsonTree)>;

    closed spec fn view(&self) -> Seq<(Seq<char>, JsonTree)> {
        self.fields@
    }
}

impl JsonFields {
    /// The members are what the fields make.
    pub closed spec fn wf(self) -> bool {
        json_members(self.members) == object_of(self.fields@)
    }

    /// No fields.
    pub fn new() -> (r: Self)
        ensures
            r.wf(),
            r@ == Seq::<(Seq<char>, JsonTree)>::empty(),
    {
        let r = Self { members: no_members(), fields: Ghost(Seq::empty()) };
        proof {
            assert(json_members(r.members) =~= object_of(r.fields@));
        }
        r
    }

    /// Appends a field.
    pub fn put(&mut self, key: &str, value: Value)
        requires
            old(self).wf(),
        ensures
            final(self).wf(),
            final(self)@ == old(self)@.push((key@, json_tree(value))),
    {
        let ghost field = (key@, json_tree(value));
        let _ = insert_member(&mut self.members, key.to_owned(), value);
        proof {
            self.fields@ = self.fields@.push(field);
            assert(self.fields@.drop_last() =~= old(self).fields@);
        }
    }

    /// The object with these fields; of two with one key, the later stays.
    pub fn into_object(self) -> (r: Value)
        requires
            self.wf(),
        ensures
            json_tree(r) == JsonTree::Object(object_of(self@)),
    {
        members_object(self.members)
    }
}

/// An optional text: the text, or null.
pub(crate) fn json_optional_text(text: Option<&String>) -> (r: Value)
    ensures
        json_tree(r) == optional_text(
            match text {
                Some(t) => Some(t@),
                None => None,
            },
        ),
{
    match text {
        Some(t) => json_text(t.as_str()),
        None => json_null(),
    }
}

/// A key of an object is the key of a field, and the last field with that key has the
/// value.
pub proof fn law_members(fields: Seq<(Seq<char>, JsonTree)>, key: Seq<char>, i: int)
    ensures
        tree_member(JsonTree::Object(object_of(fields)), key) is Some <==> exists|j: int|
            0 <= j < fields.len() && (#[trigger] fields[j]).0 == key,
        0 <= i < fields.len() && fields[i].0 == key && (forall|j: int|
            i < j < fields.len() ==> (#[trigger] fields[j]).0 != key) ==> tree_member(
            JsonTree::Object(object_of(fields)),
            key,
        ) == Some(fields[i].1),
    decreases fields.len(),
{
    if fields.len() > 0 {
        let rest = fields.drop_last();
        law_members(rest, key, i);
        assert(fields[fields.len() - 1] == fields.last());
        assert(forall|j: int| 0 <= j < rest.len() ==> rest[j] == fields[j]);
        if fields.last().0 != key {
            if tree_member(JsonTree::Object(object_of(rest)), key) is Some {
                let j = choose|j: int| 0 <= j < rest.len() && (#[trigger] rest[j]).0 == key;
                assert(fields[j].0 == key);
            }
            if exists|j: int| 0 <= j < fields.len() && (#[trigger] fields[j]).0 == key {
                let j = choose|j: int| 0 <= j < fields.len() && (#[trigger] fields[j]).0 == key;
                assert(rest[j].0 == key);
            }
        }
    }
}

/// Only an object has members, only a text is a text, and only a truth value is one.
pub proof fn law_kinds(
    members: Map<Seq<char>, JsonTree>,
    tree: JsonTree,
    key: Seq<char>,
    text: Seq<char>,
    b: bool,
)
    ensures
        members.dom().contains(key) ==> tree_member(JsonTree::Object(members), key) == Some(
            members[key],
        ),
        !members.dom().contains(key) ==> tree_member(JsonTree::Object(members), key) is None,
        !(tree is Object) ==> tree_member(tree, key) is None,
        tree_text(tree) == Some(text) <==> tree == JsonTree::Text(text),
        tree_bool(tree) == Some(b) <==> tree == JsonTree::Bool(b),
        optional_text(Some(text)) == JsonTree::Text(text),
        optional_text(None) == JsonTree::Null,
{
}

/// Different numbers have different contents.
pub proof fn law_numbers_differ(a: u64, b: u64)
    ensures
        whole(a as int) == whole(b as int) <==> a == b,
        whole(a as int) == JsonTree::Number(JsonNumber::Whole(a)),
{
}

} // verus!
