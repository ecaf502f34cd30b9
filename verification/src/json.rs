//! JSON documents as a tree of plain values, and the reading of fields from
//! them.

use vstd::prelude::*;
use crate::text::same_text;

verus! {

/// A JSON document.
#[derive(Debug, PartialEq)]
pub enum Json {
    Null,
    Bool(bool),
    /// A number: `Some` when it is an integer that fits in 64 signed bits,
    /// `None` for every other number.
    Number(Option<i64>),
    Text(String),
    Array(Vec<Json>),
    /// The members of an object, each a key and its value.
    Object(Vec<(String, Json)>),
}

/// Mathematical model of a JSON document.
pub ghost enum JsonModel {
    Null,
    Bool(bool),
    Number(Option<i64>),
    Text(Seq<char>),
    Array(Seq<JsonModel>),
    Object(Seq<(Seq<char>, JsonModel)>),
}

/// The document that `json` holds.
pub open spec fn model_of(json: Json) -> JsonModel
    decreases json,
{
    match json {
        Json::Null => JsonModel::Null,
        Json::Bool(b) => JsonModel::Bool(b),
        Json::Number(n) => JsonModel::Number(n),
        Json::Text(s) => JsonModel::Text(s@),
        Json::Array(items) => JsonModel::Array(
            Seq::new(
                items.len() as nat,
                |i: int|
                    if 0 <= i < items.len() {
                        model_of(items[i])
                    } else {
                        JsonModel::Null
                    },
            ),
        ),
        Json::Object(members) => JsonModel::Object(
            Seq::new(
                members.len() as nat,
                |i: int|
                    if 0 <= i < members.len() {
                        (members[i].0@, model_of(members[i].1))
                    } else {
                        (Seq::empty(), JsonModel::Null)
                    },
            ),
        ),
    }
}

impl View for Json {
    type V = JsonModel;

    open spec fn view(&self) -> JsonModel {
        model_of(*self)
    }
}

impl DeepView for Json {
    type V = JsonModel;

    open spec fn deep_view(&self) -> JsonModel {
        self@
    }
}

/// The value of the first member named `key`, if there is one.
pub open spec fn find_member(members: Seq<(Seq<char>, JsonModel)>, key: Seq<char>) -> Option<
    JsonModel,
>
    decreases members.len(),
{
    if members.len() == 0 {
        None
    } else if members[0].0 == key {
        Some(members[0].1)
    } else {
        find_member(members.drop_first(), key)
    }
}

impl JsonModel {
    /// The member `key` of an object; `None` for anything but an object
    /// that has it.
    pub open spec fn member(self, key: Seq<char>) -> Option<JsonModel> {
        match self {
            JsonModel::Object(members) => find_member(members, key),
            _ => None,
        }
    }

    /// The member `key` where it is there and not `null`.
    pub open spec fn present(self, key: Seq<char>) -> Option<JsonModel> {
        match self.member(key) {
            Some(JsonModel::Null) => None,
            found => found,
        }
    }

    /// The characters of a string.
    pub open spec fn text(self) -> Option<Seq<char>> {
        match self {
            JsonModel::Text(s) => Some(s),
            _ => None,
        }
    }

    /// The value of an integer that fits in 64 signed bits.
    pub open spec fn integer(self) -> Option<i64> {
        match self {
            JsonModel::Number(n) => n,
            _ => None,
        }
    }

    /// The value of an integer between 0 and 2^32 - 1.
    pub open spec fn unsigned32(self) -> Option<u32> {
        match self.integer() {
            Some(n) => if 0 <= n <= u32::MAX {
                Some(n as u32)
            } else {
                None
            },
            None => None,
        }
    }

    /// The value of an integer between -2^31 and 2^31 - 1.
    pub open spec fn signed32(self) -> Option<i32> {
        match self.integer() {
            Some(n) => if i32::MIN <= n <= i32::MAX {
                Some(n as i32)
            } else {
                None
            },
            None => None,
        }
    }

    /// Whether this is an object.
    pub open spec fn is_object(self) -> bool {
        self is Object
    }

    /// The items of an array.
    pub open spec fn items(self) -> Option<Seq<JsonModel>> {
        match self {
            JsonModel::Array(items) => Some(items),
            _ => None,
        }
    }

    /// The text of the member `key`, which must be there and be a string.
    pub open spec fn required_text(self, key: Seq<char>) -> Option<Seq<char>> {
        match self.member(key) {
            Some(value) => value.text(),
            None => None,
        }
    }

    /// The number in the member `key`, which must be there and hold an
    /// integer between 0 and 2^32 - 1.
    pub open spec fn required_unsigned32(self, key: Seq<char>) -> Option<u32> {
        match self.member(key) {
            Some(value) => value.unsigned32(),
            None => None,
        }
    }

    /// The number in the member `key`, which may be missing or `null`: the
    /// outer `None` says that it holds something that is not an integer
    /// between 0 and 2^32 - 1.
    pub open spec fn optional_unsigned32(self, key: Seq<char>) -> Option<Option<u32>> {
        match self.present(key) {
            Some(value) => match value.unsigned32() {
                Some(number) => Some(Some(number)),
                None => None,
            },
            None => Some(None),
        }
    }

    /// The text of the member `key`, which may be missing or `null`: the
    /// outer `None` says that it holds something that is not a string.
    pub open spec fn optional_text(self, key: Seq<char>) -> Option<Option<Seq<char>>> {
        match self.present(key) {
            Some(value) => match value.text() {
                Some(s) => Some(Some(s)),
                None => None,
            },
            None => Some(None),
        }
    }
}

/// What decoding every item of `items` with `decode` gives, in order;
/// `None` as soon as one item does not decode.
pub open spec fn decode_each<T>(
    items: Seq<JsonModel>,
    decode: spec_fn(JsonModel) -> Option<T>,
) -> Option<Seq<T>> {
    if forall|i: int| 0 <= i < items.len() ==> (#[trigger] decode(items[i])) is Some {
        Some(items.map_values(|item: JsonModel| decode(item)->Some_0))
    } else {
        None
    }
}

/// The document that `serde_json` reads from `text`, and `None` where it
/// rejects `text`.
pub uninterp spec fn parsed_json(text: Seq<u8>) -> Option<JsonModel>;

#[verifier::external_type_specification]
#[verifier::external_body]
pub struct ExJsonValue(serde_json::Value);

/// Moves a `serde_json::Value` into a [`Json`], variant for variant; of a
/// number it keeps what `serde_json::Number::as_i64` gives.
#[verifier::external_body]
fn json_of_value(value: serde_json::Value) -> Json {
    match value {
        serde_json::Value::Null => Json::Null,
        serde_json::Value::Bool(b) => Json::Bool(b),
        serde_json::Value::Number(n) => Json::Number(n.as_i64()),
        serde_json::Value::String(s) => Json::Text(s),
        serde_json::Value::Array(a) => Json::Array(a.into_iter().map(json_of_value).collect()),
        serde_json::Value::Object(o) => Json::Object(
            o.into_iter().map(|(k, v)| (k, json_of_value(v))).collect(),
        ),
    }
}

/// Calls `serde_json::from_slice` for a `serde_json::Value`. The contract
/// gives the outcome the name [`parsed_json`]: the same bytes always read
/// as the same document, or are always rejected.
#[verifier::external_body]
fn read_json(bytes: &[u8]) -> (document: Option<Json>)
    ensures
        document.deep_view() == parsed_json(bytes@),
{
    serde_json::from_slice::<serde_json::Value>(bytes).ok().map(json_of_value)
}

/// The JSON document written in `text`, if `text` is one.
pub fn parse_json(text: &[u8]) -> (document: Option<Json>)
    ensures
        document.deep_view() == parsed_json(text@),
{
    read_json(text)
}

impl Json {
    /// The member `key` of an object.
    pub fn member(&self, key: &str) -> (found: Option<&Json>)
        ensures
            found.deep_view() == self@.member(key@),
    {
        match self {
            Json::Object(members) => {
                let ghost all = self@->Object_0;
                let mut i: usize = 0;
                assert(all.skip(0) =~= all);
                while i < members.len()
                    invariant
                        i <= members.len(),
                        self@ == JsonModel::Object(all),
                        *self == Json::Object(*members),
                        all.len() == members.len(),
                        find_member(all, key@) == find_member(all.skip(i as int), key@),
                    decreases members.len() - i,
                {
                    assert(all.skip(i as int)[0] == all[i as int]);
                    assert(all.skip(i as int).drop_first() =~= all.skip(i + 1));
                    if same_text(members[i].0.as_str(), key) {
                        return Some(&members[i].1);
                    }
                    i += 1;
                }
                None
            },
            _ => None,
        }
    }

    /// The member `key` where it is there and not `null`.
    pub fn present(&self, key: &str) -> (found: Option<&Json>)
        ensures
            found.deep_view() == self@.present(key@),
    {
        match self.member(key) {
            Some(Json::Null) => None,
            found => found,
        }
    }

    /// The characters of a string.
    pub fn text(&self) -> (text: Option<&String>)
        ensures
            text.deep_view() == self@.text(),
    {
        match self {
            Json::Text(s) => Some(s),
            _ => None,
        }
    }

    /// The value of an integer between 0 and 2^32 - 1.
    pub fn unsigned32(&self) -> (number: Option<u32>)
        ensures
            number == self@.unsigned32(),
    {
        match self {
            Json::Number(Some(n)) => if 0 <= *n && *n <= 0xffff_ffff {
                Some(*n as u32)
            } else {
                None
            },
            _ => None,
        }
    }

    /// The value of an integer between -2^31 and 2^31 - 1.
    pub fn signed32(&self) -> (number: Option<i32>)
        ensures
            number == self@.signed32(),
    {
        match self {
            Json::Number(Some(n)) => if -0x8000_0000 <= *n && *n <= 0x7fff_ffff {
                Some(*n as i32)
            } else {
                None
            },
            _ => None,
        }
    }

    /// Whether this is an object.
    pub fn is_object(&self) -> (object: bool)
        ensures
            object == self@.is_object(),
    {
        match self {
            Json::Object(_) => true,
            _ => false,
        }
    }

    /// The items of an array.
    pub fn items(&self) -> (items: Option<&Vec<Json>>)
        ensures
            items.deep_view() == self@.items(),
    {
        match self {
            Json::Array(items) => {
                assert(items.deep_view() =~= self@->Array_0);
                Some(items)
            },
            _ => None,
        }
    }

    /// The text of the member `key`, which must be there and be a string.
    pub fn required_text(&self, key: &str) -> (text: Option<String>)
        ensures
            text.deep_view() == self@.required_text(key@),
    {
        match self.member(key) {
            Some(value) => match value.text() {
                Some(s) => Some(s.clone()),
                None => None,
            },
            None => None,
        }
    }

    /// The number in the member `key`, which must be there and hold an
    /// integer between 0 and 2^32 - 1.
    pub fn required_unsigned32(&self, key: &str) -> (number: Option<u32>)
        ensures
            number == self@.required_unsigned32(key@),
    {
        match self.member(key) {
            Some(value) => value.unsigned32(),
            None => None,
        }
    }

    /// The number in the member `key`, which may be missing or `null`: the
    /// outer `None` says that it holds something that is not an integer
    /// between 0 and 2^32 - 1.
    pub fn optional_unsigned32(&self, key: &str) -> (number: Option<Option<u32>>)
        ensures
            number == self@.optional_unsigned32(key@),
    {
        match self.present(key) {
            Some(value) => match value.unsigned32() {
                Some(number) => Some(Some(number)),
                None => None,
            },
            None => Some(None),
        }
    }

    /// The text of the member `key`, which may be missing or `null`: the
    /// outer `None` says that it holds something that is not a string.
    pub fn optional_text(&self, key: &str) -> (text: Option<Option<String>>)
        ensures
            text.deep_view() == self@.optional_text(key@),
    {
        match self.present(key) {
            Some(value) => match value.text() {
                Some(s) => Some(Some(s.clone())),
                None => None,
            },
            None => Some(None),
        }
    }
}

} // verus!
