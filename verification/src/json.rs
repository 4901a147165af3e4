//! JSON documents, as the mathematical value `Json`, and the `serde_json`
//! calls that build, read, parse and print them.
//!
//! A `serde_json::Value` is opaque to the verifier. What it holds is named
//! by `json_of`, and every function below that takes or returns a `Value`
//! speaks of it through that name.

use vstd::prelude::*;

verus! {

/// The mathematical content of a JSON document.
pub enum Json {
    Null,
    Bool(bool),
    /// A number that reads as an unsigned 64-bit integer.
    Natural(nat),
    /// A negative integer.
    Negative(int),
    /// Any other number, by the bits of its double-precision value.
    Fraction(u64),
    Text(Seq<char>),
    Array(Seq<Json>),
    Object(Map<Seq<char>, Json>),
}

impl Json {
    /// Whether `self` is an object with a member under `key`.
    pub open spec fn has_member(self, key: Seq<char>) -> bool {
        self matches Json::Object(fields) && fields.contains_key(key)
    }

    /// The member under `key`; `Null` where `self` is no object or has no
    /// such member.
    pub open spec fn member(self, key: Seq<char>) -> Json {
        match self {
            Json::Object(fields) => if fields.contains_key(key) {
                fields[key]
            } else {
                Json::Null
            },
            _ => Json::Null,
        }
    }

    /// The text under `key`, where that member is a string.
    pub open spec fn text_at(self, key: Seq<char>) -> Option<Seq<char>> {
        match self.member(key) {
            Json::Text(text) => Some(text),
            _ => None,
        }
    }

    /// The text under `key` of an optional member: a missing or null member
    /// reads as no text, a string as its text, anything else is an error
    /// (the outer `None`).
    pub open spec fn optional_text_at(self, key: Seq<char>) -> Option<Option<Seq<char>>> {
        match self.member(key) {
            Json::Null => Some(None),
            Json::Text(text) => Some(Some(text)),
            _ => None,
        }
    }

    /// The number under `key`, where that member is an unsigned integer that
    /// fits 32 bits.
    pub open spec fn u32_at(self, key: Seq<char>) -> Option<u32> {
        match self.member(key) {
            Json::Natural(n) => if n <= u32::MAX {
                Some(n as u32)
            } else {
                None
            },
            _ => None,
        }
    }

    /// The number under `key` of an optional member: a missing or null member
    /// reads as no number, anything but an unsigned integer that fits 32 bits
    /// is an error (the outer `None`).
    pub open spec fn optional_u32_at(self, key: Seq<char>) -> Option<Option<u32>> {
        match self.member(key) {
            Json::Null => Some(None),
            _ => match self.u32_at(key) {
                Some(n) => Some(Some(n)),
                None => None,
            },
        }
    }

    /// The texts of an array of strings.
    pub open spec fn texts(self) -> Option<Seq<Seq<char>>> {
        match self {
            Json::Array(items) => if forall|i: int| 0 <= i < items.len() ==> #[trigger] items[i] is Text {
                Some(Seq::new(items.len(), |i: int| items[i]->Text_0))
            } else {
                None
            },
            _ => None,
        }
    }

    /// The array of the items, each written with `write`.
    pub open spec fn list_from<T>(items: Seq<T>, write: spec_fn(T) -> Json) -> Json {
        Json::Array(items.map_values(write))
    }

    /// The texts of an object whose members are all strings, by key.
    pub open spec fn texts_by_key(self) -> Option<Map<Seq<char>, Seq<char>>> {
        match self {
            Json::Object(fields) => if forall|key: Seq<char>|
                fields.contains_key(key) ==> #[trigger] fields[key] is Text {
                Some(fields.map_values(|member: Json| member->Text_0))
            } else {
                None
            },
            _ => None,
        }
    }

    /// The object that holds each text as a string under its key.
    pub open spec fn from_texts(texts: Map<Seq<char>, Seq<char>>) -> Json {
        Json::Object(texts.map_values(|text: Seq<char>| Json::Text(text)))
    }

    /// The number under `key` of an optional member, as `optional_u32_at`
    /// but for the machine's word size.
    pub open spec fn optional_usize_at(self, key: Seq<char>) -> Option<Option<usize>> {
        match self.member(key) {
            Json::Null => Some(None),
            Json::Natural(n) => if n <= usize::MAX {
                Some(Some(n as usize))
            } else {
                None
            },
            _ => None,
        }
    }

    /// The object with the one member `content` under `key`.
    pub open spec fn envelope(key: Seq<char>, content: Json) -> Json {
        Json::empty_object().with(key, content)
    }

    /// The object `self` with `member` stored under `key`.
    pub open spec fn with(self, key: Seq<char>, member: Json) -> Json
        recommends
            self is Object,
    {
        match self {
            Json::Object(fields) => Json::Object(fields.insert(key, member)),
            _ => self,
        }
    }

    /// The object `self` with `member` stored under `key` if there is one.
    pub open spec fn with_optional(self, key: Seq<char>, member: Option<Json>) -> Json {
        match member {
            Some(inner) => self.with(key, inner),
            None => self,
        }
    }

    /// The object without members.
    pub open spec fn empty_object() -> Json {
        Json::Object(Map::empty())
    }
}

#[verifier::external_type_specification]
#[verifier::external_body]
pub struct ExValue(serde_json::Value);

#[verifier::external_type_specification]
#[verifier::external_body]
pub struct ExSyntaxError(serde_json::Error);

/// The document that a `serde_json::Value` holds.
pub uninterp spec fn json_of(value: serde_json::Value) -> Json;

/// The document that `serde_json` reads from `bytes`, if it reads one.
pub uninterp spec fn parsed(bytes: Seq<u8>) -> Option<Json>;

/// The compact text that `serde_json` prints for a document.
pub uninterp spec fn rendered(json: Json) -> Seq<char>;

/// The documents that a sequence of values holds.
pub open spec fn jsons_of(values: Seq<serde_json::Value>) -> Seq<Json> {
    values.map_values(|value: serde_json::Value| json_of(value))
}

/// `serde_json::from_slice` at type `Value`. Whether it succeeds and what it
/// reads depend on the bytes alone: a success holds the document named
/// `parsed(bytes)`, a failure means that `parsed(bytes)` is `None`.
#[verifier::external_body]
pub(crate) fn parse(bytes: &[u8]) -> (outcome: Result<serde_json::Value, serde_json::Error>)
    ensures
        outcome matches Ok(value) ==> parsed(bytes@) == Some(json_of(value)),
        outcome is Err ==> parsed(bytes@) is None,
{
    serde_json::from_slice::<serde_json::Value>(bytes)
}

/// `to_string` of a `serde_json::Value`, which goes through its `Display`:
/// the compact text, which depends on the document alone.
#[verifier::external_body]
pub(crate) fn render(value: &serde_json::Value) -> (text: String)
    ensures
        text@ == rendered(json_of(*value)),
{
    value.to_string()
}

/// `serde_json::Value::get` with a string key: the member of an object under
/// that key; nothing for a missing key or for a value that is no object.
#[verifier::external_body]
pub(crate) fn get_member<'a>(value: &'a serde_json::Value, key: &str) -> (found: Option<
    &'a serde_json::Value,
>)
    ensures
        found matches Some(inner) ==> json_of(*value).has_member(key@) && json_of(*inner)
            == json_of(*value).member(key@),
        found is None ==> !json_of(*value).has_member(key@),
{
    value.get(key)
}

/// `serde_json::Value::is_null`.
#[verifier::external_body]
pub(crate) fn is_null(value: &serde_json::Value) -> (null: bool)
    ensures
        null == (json_of(*value) is Null),
{
    value.is_null()
}

/// `serde_json::Value::as_str`: the text of a string, nothing for any other
/// kind of value.
#[verifier::external_body]
pub(crate) fn as_text<'a>(value: &'a serde_json::Value) -> (found: Option<&'a str>)
    ensures
        found matches Some(text) ==> json_of(*value) == Json::Text(text@),
        found is None ==> !(json_of(*value) is Text),
{
    value.as_str()
}

/// `serde_json::Value::as_u64`: the value of a number that is stored as an
/// unsigned integer, nothing for a negative or fractional number or for any
/// other kind of value.
#[verifier::external_body]
pub(crate) fn as_natural(value: &serde_json::Value) -> (found: Option<u64>)
    ensures
        found matches Some(n) ==> json_of(*value) == Json::Natural(n as nat),
        found is None ==> !(json_of(*value) is Natural),
{
    value.as_u64()
}

/// `serde_json::Value::as_array`: the items of an array, in their order,
/// nothing for any other kind of value.
#[verifier::external_body]
pub(crate) fn as_items<'a>(value: &'a serde_json::Value) -> (found: Option<
    &'a Vec<serde_json::Value>,
>)
    ensures
        found matches Some(items) ==> json_of(*value) == Json::Array(jsons_of(items@)),
        found is None ==> !(json_of(*value) is Array),
{
    value.as_array()
}

/// Whether `members` lists the members of an object with those fields: each
/// member once, under its key, with what it holds.
pub open spec fn lists_members(
    members: Seq<(String, serde_json::Value)>,
    fields: Map<Seq<char>, Json>,
) -> bool {
    &&& forall|i: int|
        0 <= i < members.len() ==> fields.contains_key((#[trigger] members[i]).0@)
            && fields[members[i].0@] == json_of(members[i].1)
    &&& forall|i: int, j: int|
        0 <= i < j < members.len() ==> (#[trigger] members[i]).0@ != (#[trigger] members[j]).0@
    &&& forall|key: Seq<char>| #[trigger]
        fields.contains_key(key) ==> exists|i: int|
            0 <= i < members.len() && (#[trigger] members[i]).0@ == key
}

/// `serde_json::Value::as_object` and `serde_json::Map::iter`: the members
/// of an object with their keys, each member once; nothing for any other
/// kind of value. Keys and members are copied out.
#[verifier::external_body]
pub(crate) fn as_members(value: &serde_json::Value) -> (found: Option<
    Vec<(String, serde_json::Value)>,
>)
    ensures
        found matches Some(members) ==> json_of(*value) matches Json::Object(fields)
            && lists_members(members@, fields),
        found is None ==> !(json_of(*value) is Object),
{
    let fields = value.as_object()?;
    Some(fields.iter().map(|(key, member)| (key.clone(), member.clone())).collect())
}

/// The variant `serde_json::Value::Null`.
#[verifier::external_body]
pub(crate) fn null() -> (value: serde_json::Value)
    ensures
        json_of(value) == Json::Null,
{
    serde_json::Value::Null
}

/// The variant `serde_json::Value::Bool`.
#[verifier::external_body]
pub(crate) fn from_bool(flag: bool) -> (value: serde_json::Value)
    ensures
        json_of(value) == Json::Bool(flag),
{
    serde_json::Value::Bool(flag)
}

/// `From<u64>` of `serde_json::Value`: the number, stored as an unsigned
/// integer.
#[verifier::external_body]
pub(crate) fn from_natural(n: u64) -> (value: serde_json::Value)
    ensures
        json_of(value) == Json::Natural(n as nat),
{
    serde_json::Value::from(n)
}

/// The variant `serde_json::Value::String`.
#[verifier::external_body]
pub(crate) fn from_text(text: String) -> (value: serde_json::Value)
    ensures
        json_of(value) == Json::Text(text@),
{
    serde_json::Value::String(text)
}

/// The variant `serde_json::Value::Array`.
#[verifier::external_body]
pub(crate) fn from_items(items: Vec<serde_json::Value>) -> (value: serde_json::Value)
    ensures
        json_of(value) == Json::Array(jsons_of(items@)),
{
    serde_json::Value::Array(items)
}

/// The variant `serde_json::Value::Object` around `serde_json::Map::new`: an
/// object without members.
#[verifier::external_body]
pub(crate) fn empty_object() -> (value: serde_json::Value)
    ensures
        json_of(value) == Json::empty_object(),
{
    serde_json::Value::Object(serde_json::Map::new())
}

/// Assignment through `IndexMut<&str>` of `serde_json::Value`: on an object
/// it stores the member under the key, replacing one that was there. (On a
/// value that is neither an object nor null the call panics.)
#[verifier::external_body]
pub(crate) fn set_member(object: &mut serde_json::Value, key: &str, member: serde_json::Value)
    requires
        json_of(*old(object)) is Object,
    ensures
        json_of(*final(object)) == json_of(*old(object)).with(key@, json_of(member)),
{
    object[key] = member;
}

/// The member under `key`, or `nothing` where there is none.
pub(crate) fn member_or<'a>(
    value: &'a serde_json::Value,
    key: &str,
    nothing: &'a serde_json::Value,
) -> (member: &'a serde_json::Value)
    requires
        json_of(*nothing) is Null,
    ensures
        json_of(*member) == json_of(*value).member(key@),
{
    match get_member(value, key) {
        Some(inner) => inner,
        None => nothing,
    }
}

/// The text that is printed for the member under `key`: that of `null` where
/// there is no such member.
pub fn member_text(value: &serde_json::Value, key: &str) -> (text: String)
    ensures
        text@ == rendered(json_of(*value).member(key@)),
{
    match get_member(value, key) {
        Some(inner) => render(inner),
        None => {
            let nothing = null();
            render(&nothing)
        },
    }
}

/// Reads the string under `key`.
pub fn read_text(value: &serde_json::Value, key: &str) -> (found: Option<String>)
    ensures
        found.deep_view() == json_of(*value).text_at(key@),
{
    match get_member(value, key) {
        Some(inner) => match as_text(inner) {
            Some(text) => Some(text.to_owned()),
            None => None,
        },
        None => None,
    }
}

/// Reads the optional string under `key`. The outer `None` reports a member
/// of another kind.
pub fn read_optional_text(value: &serde_json::Value, key: &str) -> (found: Option<Option<String>>)
    ensures
        found.deep_view() == json_of(*value).optional_text_at(key@),
{
    match get_member(value, key) {
        Some(inner) => {
            if is_null(inner) {
                Some(None)
            } else {
                match as_text(inner) {
                    Some(text) => Some(Some(text.to_owned())),
                    None => None,
                }
            }
        },
        None => Some(None),
    }
}

/// Reads the 32-bit unsigned number under `key`.
pub fn read_u32(value: &serde_json::Value, key: &str) -> (found: Option<u32>)
    ensures
        found == json_of(*value).u32_at(key@),
{
    match get_member(value, key) {
        Some(inner) => match as_natural(inner) {
            Some(n) => if n <= 0xffff_ffff {
                Some(n as u32)
            } else {
                None
            },
            None => None,
        },
        None => None,
    }
}

/// Reads the optional 32-bit unsigned number under `key`. The outer `None`
/// reports a member of another kind or a number out of range.
pub fn read_optional_u32(value: &serde_json::Value, key: &str) -> (found: Option<Option<u32>>)
    ensures
        found == json_of(*value).optional_u32_at(key@),
{
    match get_member(value, key) {
        Some(inner) => {
            if is_null(inner) {
                Some(None)
            } else {
                match as_natural(inner) {
                    Some(n) => if n <= 0xffff_ffff {
                        Some(Some(n as u32))
                    } else {
                        None
                    },
                    None => None,
                }
            }
        },
        None => Some(None),
    }
}

/// Stores `text` under `key`.
pub(crate) fn put_text(object: &mut serde_json::Value, key: &str, text: &String)
    requires
        json_of(*old(object)) is Object,
    ensures
        json_of(*final(object)) == json_of(*old(object)).with(key@, Json::Text(text@)),
{
    set_member(object, key, from_text(text.clone()));
}

/// Stores `text` under `key` if there is one.
pub(crate) fn put_optional_text(object: &mut serde_json::Value, key: &str, text: &Option<String>)
    requires
        json_of(*old(object)) is Object,
    ensures
        json_of(*final(object)) == json_of(*old(object)).with_optional(
            key@,
            match text.deep_view() {
                Some(inner) => Some(Json::Text(inner)),
                None => None,
            },
        ),
{
    match text {
        Some(inner) => put_text(object, key, inner),
        None => {},
    }
}

/// Stores the number `n` under `key`.
pub(crate) fn put_u32(object: &mut serde_json::Value, key: &str, n: u32)
    requires
        json_of(*old(object)) is Object,
    ensures
        json_of(*final(object)) == json_of(*old(object)).with(key@, Json::Natural(n as nat)),
{
    set_member(object, key, from_natural(n as u64));
}

/// Stores the number under `key` if there is one.
pub(crate) fn put_optional_u32(object: &mut serde_json::Value, key: &str, n: Option<u32>)
    requires
        json_of(*old(object)) is Object,
    ensures
        json_of(*final(object)) == json_of(*old(object)).with_optional(
            key@,
            match n {
                Some(inner) => Some(Json::Natural(inner as nat)),
                None => None,
            },
        ),
{
    match n {
        Some(inner) => put_u32(object, key, inner),
        None => {},
    }
}

/// Reads the texts of an array of strings.
pub fn read_texts(value: &serde_json::Value) -> (found: Option<Vec<String>>)
    ensures
        found.deep_view() == json_of(*value).texts(),
{
    let items = match as_items(value) {
        Some(items) => items,
        None => return None,
    };
    let mut texts: Vec<String> = Vec::new();
    let mut i: usize = 0;
    while i < items.len()
        invariant
            i <= items.len(),
            texts.len() == i,
            json_of(*value) == Json::Array(jsons_of(items@)),
            forall|k: int| 0 <= k < i ==> json_of(#[trigger] items[k]) == Json::Text(texts[k]@),
        decreases items.len() - i,
    {
        match as_text(&items[i]) {
            Some(text) => {
                texts.push(text.to_owned());
            },
            None => {
                assert(!(jsons_of(items@)[i as int] is Text));
                return None;
            },
        }
        i = i + 1;
    }
    proof {
        let jsons = jsons_of(items@);
        assert forall|k: int| 0 <= k < jsons.len() implies #[trigger] jsons[k] is Text by {
            assert(json_of(items[k]) == Json::Text(texts[k]@));
        }
        assert(texts.deep_view() =~= Seq::new(jsons.len(), |k: int| jsons[k]->Text_0)) by {
            assert forall|k: int| 0 <= k < jsons.len() implies texts.deep_view()[k]
                == jsons[k]->Text_0 by {
                assert(json_of(items[k]) == Json::Text(texts[k]@));
            }
        }
    }
    Some(texts)
}

/// Builds the object with the one member `content` under `key`.
pub fn envelope(key: &str, content: serde_json::Value) -> (value: serde_json::Value)
    ensures
        json_of(value) == Json::envelope(key@, json_of(content)),
{
    let mut value = empty_object();
    set_member(&mut value, key, content);
    value
}

/// Reads the optional word-sized unsigned number under `key`. The outer
/// `None` reports a member of another kind or a number out of range.
pub fn read_optional_usize(value: &serde_json::Value, key: &str) -> (found: Option<Option<usize>>)
    ensures
        found == json_of(*value).optional_usize_at(key@),
{
    match get_member(value, key) {
        Some(inner) => {
            if is_null(inner) {
                Some(None)
            } else {
                match as_natural(inner) {
                    Some(n) => if n <= usize::MAX as u64 {
                        Some(Some(n as usize))
                    } else {
                        None
                    },
                    None => None,
                }
            }
        },
        None => Some(None),
    }
}

/// Stores the word-sized number under `key` if there is one.
pub(crate) fn put_optional_usize(object: &mut serde_json::Value, key: &str, n: Option<usize>)
    requires
        json_of(*old(object)) is Object,
    ensures
        json_of(*final(object)) == json_of(*old(object)).with_optional(
            key@,
            match n {
                Some(inner) => Some(Json::Natural(inner as nat)),
                None => None,
            },
        ),
{
    match n {
        Some(inner) => set_member(object, key, from_natural(inner as u64)),
        None => {},
    }
}

/// Reads the texts of an object whose members are all strings, as pairs of
/// key and text, each key once.
pub fn read_texts_by_key(value: &serde_json::Value) -> (found: Option<Vec<(String, String)>>)
    ensures
        match json_of(*value).texts_by_key() {
            Some(texts) => found matches Some(pairs) && pairs_cover(pairs@, texts),
            None => found is None,
        },
{
    let members = match as_members(value) {
        Some(members) => members,
        None => return None,
    };
    let ghost fields = json_of(*value)->Object_0;
    let mut pairs: Vec<(String, String)> = Vec::new();
    let mut i: usize = 0;
    while i < members.len()
        invariant
            i <= members.len(),
            pairs.len() == i,
            json_of(*value) == Json::Object(fields),
            lists_members(members@, fields),
            forall|k: int|
                0 <= k < i ==> (#[trigger] pairs[k]).0@ == members[k].0@ && json_of(members[k].1)
                    == Json::Text(pairs[k].1@),
        decreases members.len() - i,
    {
        match as_text(&members[i].1) {
            Some(text) => {
                pairs.push((members[i].0.clone(), text.to_owned()));
            },
            None => {
                assert(fields.contains_key(members[i as int].0@));
                assert(!(fields[members[i as int].0@] is Text));
                return None;
            },
        }
        i = i + 1;
    }
    proof {
        assert forall|key: Seq<char>| fields.contains_key(key) implies #[trigger] fields[key] is Text by {
            let k = choose|k: int| 0 <= k < members.len() && (#[trigger] members[k]).0@ == key;
            assert(json_of(members[k].1) == Json::Text(pairs[k].1@));
        }
        let texts = fields.map_values(|member: Json| member->Text_0);
        assert forall|k: int| 0 <= k < pairs.len() implies texts.contains_key(
            (#[trigger] pairs[k]).0@,
        ) && texts[pairs[k].0@] == pairs[k].1@ by {
            assert(fields.contains_key(members[k].0@));
        }
        assert forall|a: int, b: int| 0 <= a < b < pairs.len() implies (#[trigger] pairs[a]).0@ != (
        #[trigger] pairs[b]).0@ by {
            assert(members[a].0@ != members[b].0@);
        }
        assert forall|key: Seq<char>| #[trigger] texts.contains_key(key) implies exists|k: int|
            0 <= k < pairs.len() && (#[trigger] pairs[k]).0@ == key by {
            assert(fields.contains_key(key));
            let k = choose|k: int| 0 <= k < members.len() && (#[trigger] members[k]).0@ == key;
            assert(pairs[k].0@ == key);
        }
    }
    Some(pairs)
}

/// Whether `pairs` lists the texts of `texts`: each key once, with its text.
pub open spec fn pairs_cover(pairs: Seq<(String, String)>, texts: Map<Seq<char>, Seq<char>>) -> bool {
    &&& forall|i: int|
        0 <= i < pairs.len() ==> texts.contains_key((#[trigger] pairs[i]).0@) && texts[pairs[i].0@]
            == pairs[i].1@
    &&& forall|i: int, j: int|
        0 <= i < j < pairs.len() ==> (#[trigger] pairs[i]).0@ != (#[trigger] pairs[j]).0@
    &&& forall|key: Seq<char>| #[trigger]
        texts.contains_key(key) ==> exists|i: int| 0 <= i < pairs.len() && (#[trigger] pairs[i]).0@ == key
}

} // verus!
