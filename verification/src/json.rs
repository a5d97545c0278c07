//! JSON documents as plain data.
//!
//! The text is read by `serde_json`; what it found is handed on as a [`Json`]
//! tree that the rest of the library can inspect.

use serde_json::Value;
use vstd::prelude::*;

verus! {

/// The tree that `serde_json` reads a document into. Nothing is known of it
/// but what `value_tree` names.
#[verifier::external_type_specification]
#[verifier::external_body]
pub struct ExValue(Value);

/// Why `serde_json` rejected a text. It is only passed over.
#[verifier::external_type_specification]
#[verifier::external_body]
pub struct ExJsonError(serde_json::Error);

/// A number of a JSON document.
#[derive(Debug)]
pub struct JsonNumber {
    /// The number as a signed 64-bit integer, where it is one.
    pub integer: Option<i64>,
    /// The number in decimal notation.
    pub text: String,
}

/// A JSON document.
#[derive(Debug)]
pub enum Json {
    Null,
    Bool(bool),
    Number(JsonNumber),
    Text(String),
    Array(Vec<Json>),
    Object(Vec<(String, Json)>),
}

/// What a JSON document says.
pub enum JsonView {
    Null,
    Bool(bool),
    /// A number: as a signed 64-bit integer, where it is one, and in decimal
    /// notation.
    Number { integer: Option<i64>, text: Seq<char> },
    Text(Seq<char>),
    Array(Seq<JsonView>),
    /// The members of an object, each with its name.
    Object(Seq<(Seq<char>, JsonView)>),
}

impl Json {
    /// What the document says.
    pub open spec fn says(self) -> JsonView
        decreases self,
    {
        match self {
            Json::Null => JsonView::Null,
            Json::Bool(b) => JsonView::Bool(b),
            Json::Number(number) => JsonView::Number { integer: number.integer, text: number.text@ },
            Json::Text(text) => JsonView::Text(text@),
            Json::Array(items) => JsonView::Array(
                Seq::new(
                    items@.len(),
                    |i: int|
                        if 0 <= i < items@.len() {
                            items@[i].says()
                        } else {
                            JsonView::Null
                        },
                ),
            ),
            Json::Object(members) => JsonView::Object(
                Seq::new(
                    members@.len(),
                    |i: int|
                        if 0 <= i < members@.len() {
                            (members@[i].0@, members@[i].1.says())
                        } else {
                            (Seq::empty(), JsonView::Null)
                        },
                ),
            ),
        }
    }
}

impl View for Json {
    type V = JsonView;

    open spec fn view(&self) -> JsonView {
        self.says()
    }
}

/// What a run of documents says, one by one.
pub open spec fn items_view(items: Seq<Json>) -> Seq<JsonView> {
    Seq::new(items.len(), |i: int| items[i]@)
}

/// What a run of members says, one by one.
pub open spec fn members_view(members: Seq<(String, Json)>) -> Seq<(Seq<char>, JsonView)> {
    Seq::new(members.len(), |i: int| (members[i].0@, members[i].1@))
}

/// An array says what its items say.
pub proof fn lemma_array_view(items: Vec<Json>)
    ensures
        Json::Array(items)@ == JsonView::Array(items_view(items@)),
{
    assert(Json::Array(items)@->Array_0 =~= items_view(items@));
}

/// An object says what its members say.
pub proof fn lemma_object_view(members: Vec<(String, Json)>)
    ensures
        Json::Object(members)@ == JsonView::Object(members_view(members@)),
{
    assert(Json::Object(members)@->Object_0 =~= members_view(members@));
}

/// What the document says that `serde_json::from_slice` reads from `bytes`,
/// or `None` where it rejects them.
pub uninterp spec fn parsed_document(bytes: Seq<u8>) -> Option<JsonView>;

/// What a `serde_json::Value` says.
pub uninterp spec fn value_tree(value: Value) -> JsonView;

/// Calls `serde_json::from_slice` for a `serde_json::Value`. The contract
/// only names the outcome: an error exactly where `parsed_document` is
/// `None`, else a value that says what the parsed document says.
#[verifier::external_body]
fn read_value(bytes: &[u8]) -> (r: Result<Value, serde_json::Error>)
    ensures
        r is Err <==> parsed_document(bytes@) is None,
        r matches Ok(value) ==> parsed_document(bytes@) == Some(value_tree(value)),
{
    serde_json::from_slice::<Value>(bytes)
}

/// Takes a `serde_json::Value` apart, variant by variant, into a tree that
/// says the same. A number keeps what `Number::as_i64` and its `Display`
/// give; the members of an object come as `serde_json::Map` hands them out.
#[verifier::external_body]
fn tree_of_value(value: Value) -> (r: Json)
    ensures
        r@ == value_tree(value),
{
    match value {
        Value::Null => Json::Null,
        Value::Bool(b) => Json::Bool(b),
        Value::Number(n) => Json::Number(JsonNumber { integer: n.as_i64(), text: n.to_string() }),
        Value::String(s) => Json::Text(s),
        Value::Array(items) => Json::Array(items.into_iter().map(tree_of_value).collect()),
        Value::Object(members) => Json::Object(
            members.into_iter().map(|(name, value)| (name, tree_of_value(value))).collect(),
        ),
    }
}

/// The string literal that `serde_json` writes for `text`: the text between
/// double quotes, with what JSON cannot hold as it stands escaped.
pub uninterp spec fn string_literal(text: Seq<char>) -> Seq<char>;

/// Has `serde_json` write `text` as a JSON string, through the `Display` of
/// a `serde_json::Value::String`. The contract only names what it writes.
#[verifier::external_body]
pub(crate) fn write_string(text: &str) -> (r: String)
    ensures
        r@ == string_literal(text@),
{
    Value::String(text.to_owned()).to_string()
}

/// The first member of `members` from position `from` on that is named
/// `name`.
pub open spec fn member_from(members: Seq<(Seq<char>, JsonView)>, name: Seq<char>, from: int) -> Option<
    JsonView,
>
    decreases members.len() - from,
{
    if from < 0 || from >= members.len() {
        None
    } else if members[from].0 == name {
        Some(members[from].1)
    } else {
        member_from(members, name, from + 1)
    }
}

/// The member of an object that is named `name`: the first one, should the
/// name occur again.
pub open spec fn member(members: Seq<(Seq<char>, JsonView)>, name: Seq<char>) -> Option<JsonView> {
    member_from(members, name, 0)
}

/// The text of the member named `name`, where there is one and it is a
/// string.
pub open spec fn text_member(members: Seq<(Seq<char>, JsonView)>, name: Seq<char>) -> Option<Seq<char>> {
    match member(members, name) {
        Some(JsonView::Text(text)) => Some(text),
        _ => None,
    }
}

/// The decimal notation of the member named `name`, where there is one and
/// it is a number.
pub open spec fn number_member(members: Seq<(Seq<char>, JsonView)>, name: Seq<char>) -> Option<Seq<char>> {
    match member(members, name) {
        Some(JsonView::Number { integer, text }) => Some(text),
        _ => None,
    }
}

/// The member named `name` as a 32-bit integer, where there is one and it is
/// an integer in that range.
pub open spec fn integer_member(members: Seq<(Seq<char>, JsonView)>, name: Seq<char>) -> Option<i32> {
    match member(members, name) {
        Some(JsonView::Number { integer: Some(v), text }) => if i32::MIN <= v <= i32::MAX {
            Some(v as i32)
        } else {
            None
        },
        _ => None,
    }
}

/// What an optional document says.
pub open spec fn document_view(doc: Option<Json>) -> Option<JsonView> {
    match doc {
        Some(doc) => Some(doc@),
        None => None,
    }
}

/// What an optional text says.
pub open spec fn text_view(text: Option<String>) -> Option<Seq<char>> {
    match text {
        Some(text) => Some(text@),
        None => None,
    }
}

impl Json {
    /// Reads a JSON document from bytes. `None` where the bytes are not
    /// UTF-8 text that holds exactly one JSON value.
    pub fn parse(bytes: &[u8]) -> (r: Option<Json>)
        ensures
            document_view(r) == parsed_document(bytes@),
    {
        match read_value(bytes) {
            Ok(value) => Some(tree_of_value(value)),
            Err(_) => None,
        }
    }

    /// Looks a member up by its name.
    pub fn find<'a>(members: &'a Vec<(String, Json)>, name: &str) -> (r: Option<&'a Json>)
        ensures
            match member(members_view(members@), name@) {
                Some(found) => r is Some && r->0@ == found,
                None => r is None,
            },
    {
        let wanted = name.to_owned();
        let mut i: usize = 0;
        while i < members.len()
            invariant
                i <= members.len(),
                wanted@ == name@,
                member(members_view(members@), name@) == member_from(
                    members_view(members@),
                    name@,
                    i as int,
                ),
            decreases members.len() - i,
        {
            if members[i].0 == wanted {
                return Some(&members[i].1);
            }
            i += 1;
        }
        None
    }

    /// The string that the member named `name` holds.
    pub fn find_text(members: &Vec<(String, Json)>, name: &str) -> (r: Option<String>)
        ensures
            text_view(r) == text_member(members_view(members@), name@),
    {
        match Json::find(members, name) {
            Some(Json::Text(text)) => Some(text.clone()),
            _ => None,
        }
    }

    /// The number that the member named `name` holds, in decimal notation.
    pub fn find_number(members: &Vec<(String, Json)>, name: &str) -> (r: Option<String>)
        ensures
            text_view(r) == number_member(members_view(members@), name@),
    {
        match Json::find(members, name) {
            Some(Json::Number(number)) => Some(number.text.clone()),
            _ => None,
        }
    }

    /// The 32-bit integer that the member named `name` holds.
    pub fn find_integer(members: &Vec<(String, Json)>, name: &str) -> (r: Option<i32>)
        ensures
            r == integer_member(members_view(members@), name@),
    {
        match Json::find(members, name) {
            Some(Json::Number(number)) => match number.integer {
                Some(v) => if -2147483648 <= v && v <= 2147483647 {
                    Some(v as i32)
                } else {
                    None
                },
                None => None,
            },
            _ => None,
        }
    }
}

} // verus!
