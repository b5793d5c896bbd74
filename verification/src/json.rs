//! JSON documents, as `serde_json` reads and writes them.
//!
//! A document is held as a `serde_json::Value`, which the verifier cannot look
//! into. What a value holds is described by [`Json`], a mathematical tree, and
//! every accessor of `Value` that the library calls is given a contract over
//! that tree. Those contracts are assumed, not proved: each one restates what
//! the accessor's source does. The functions at the end of the file are
//! verified against them.

use serde_json::Value;
use vstd::prelude::*;

verus! {

/// `serde_json::Value`, made known so that it can be held and handed on.
/// Nothing is known of what is inside but what the contracts below say.
#[verifier::external_type_specification]
#[verifier::external_body]
pub struct ExValue(serde_json::Value);

/// `serde_json::Error`, made known so that a failed reading can be told from
/// one that gave a value. Nothing is known of what is inside.
#[verifier::external_type_specification]
#[verifier::external_body]
pub struct ExError(serde_json::Error);

/// What a JSON value holds.
pub enum Json {
    /// `null`.
    Null,
    /// `true` or `false`.
    Bool(bool),
    /// A number that is held as a non-negative integer: it was written
    /// without a sign, a fraction or an exponent, and fits in 64 bits.
    Unsigned(u64),
    /// Any other number.
    OtherNumber,
    /// A string.
    Text(Seq<char>),
    /// An array.
    Array(Seq<Json>),
    /// An object; a key occurs at most once.
    Object(Map<Seq<char>, Json>),
}

/// The tree that a `serde_json::Value` holds.
pub uninterp spec fn json_model(v: Value) -> Json;

/// The tree that a byte string denotes when it is read as one JSON document,
/// or `None` where the bytes are not a JSON document.
pub uninterp spec fn json_document(bytes: Seq<u8>) -> Option<Json>;

/// The JSON string literal, quotes and escapes included, that stands for a
/// string in compact JSON text.
pub uninterp spec fn json_string_literal(s: Seq<char>) -> Seq<char>;

/// The trees of a sequence of values, in order.
pub open spec fn json_models(items: Seq<Value>) -> Seq<Json> {
    Seq::new(items.len(), |i: int| json_model(items[i]))
}

impl Json {
    /// The member under `key`, where `self` is an object that has one.
    pub open spec fn member(self, key: Seq<char>) -> Option<Json> {
        match self {
            Json::Object(members) => if members.dom().contains(key) {
                Some(members[key])
            } else {
                None
            },
            _ => None,
        }
    }

    /// The characters of a string; `None` for any other value.
    pub open spec fn text(self) -> Option<Seq<char>> {
        match self {
            Json::Text(s) => Some(s),
            _ => None,
        }
    }

    /// The value of a non-negative integer; `None` for any other value.
    pub open spec fn unsigned(self) -> Option<u64> {
        match self {
            Json::Unsigned(n) => Some(n),
            _ => None,
        }
    }

    /// The value of a boolean; `None` for any other value.
    pub open spec fn truth(self) -> Option<bool> {
        match self {
            Json::Bool(b) => Some(b),
            _ => None,
        }
    }

    /// The items of an array; `None` for any other value.
    pub open spec fn items(self) -> Option<Seq<Json>> {
        match self {
            Json::Array(items) => Some(items),
            _ => None,
        }
    }

    /// Whether `key` holds nothing: the member is missing or is `null`.
    pub open spec fn vacant_at(self, key: Seq<char>) -> bool {
        match self.member(key) {
            Some(m) => m is Null,
            None => true,
        }
    }

    /// What the member under `key` reads as; `None` where the member is
    /// missing or does not read as a `D`.
    pub open spec fn field<D: FromJson>(self, key: Seq<char>) -> Option<D::V> {
        match self.member(key) {
            Some(m) => D::of_json(m),
            None => None,
        }
    }

    /// What may stand under `key`: `Some(None)` where the key is vacant,
    /// `Some(Some(d))` where its member reads as a `D`, and `None` where the
    /// member is there and does not read as one.
    pub open spec fn optional_field<D: FromJson>(self, key: Seq<char>) -> Option<Option<D::V>> {
        if self.vacant_at(key) {
            Some(None)
        } else {
            match self.field::<D>(key) {
                Some(d) => Some(Some(d)),
                None => None,
            }
        }
    }

    /// What an array reads as, item by item; `None` where the value is no
    /// array or one of its items does not read as a `D`.
    pub open spec fn list<D: FromJson>(self) -> Option<Seq<D::V>> {
        match self {
            Json::Array(items) => if all_read::<D>(items) {
                Some(Seq::new(items.len(), |i: int| D::of_json(items[i])->Some_0))
            } else {
                None
            },
            _ => None,
        }
    }

    /// What the array under `key` reads as; `None` where the member is
    /// missing or does not read as a list of `D`.
    pub open spec fn list_field<D: FromJson>(self, key: Seq<char>) -> Option<Seq<D::V>> {
        match self.member(key) {
            Some(m) => m.list::<D>(),
            None => None,
        }
    }

    /// The array that may stand under `key`, read as `optional_field` reads
    /// a single value.
    pub open spec fn optional_list_field<D: FromJson>(self, key: Seq<char>) -> Option<
        Option<Seq<D::V>>,
    > {
        if self.vacant_at(key) {
            Some(None)
        } else {
            match self.list_field::<D>(key) {
                Some(list) => Some(Some(list)),
                None => None,
            }
        }
    }
}

/// Whether every item reads as a `D`.
pub open spec fn all_read<D: FromJson>(items: Seq<Json>) -> bool {
    forall|i: int| 0 <= i < items.len() ==> (#[trigger] D::of_json(items[i])) is Some
}

/// A 64-bit number as a `usize`, where it fits.
pub open spec fn size_of(n: u64) -> Option<usize> {
    if n <= usize::MAX {
        Some(n as usize)
    } else {
        None
    }
}

/// The model of a value that may be there.
pub open spec fn viewed<T: View>(o: Option<T>) -> Option<T::V> {
    match o {
        Some(t) => Some(t@),
        None => None,
    }
}

/// The models of the items of a sequence, in order.
pub open spec fn views<T: View>(items: Seq<T>) -> Seq<T::V> {
    Seq::new(items.len(), |i: int| items[i]@)
}

/// The models of the items of a list that may be there.
pub open spec fn viewed_list<T: View>(o: Option<Vec<T>>) -> Option<Seq<T::V>> {
    match o {
        Some(list) => Some(views(list@)),
        None => None,
    }
}

/// A type that is read from a JSON value: the body of a reply, or a part of
/// one.
pub trait FromJson: View + Sized {
    /// What a value reads as, or `None` where it does not have the shape that
    /// the type asks for.
    spec fn of_json(doc: Json) -> Option<Self::V>;

    /// Reads a value of the type.
    fn from_json(doc: &Value) -> (r: Option<Self>)
        ensures
            viewed(r) == Self::of_json(json_model(*doc)),
    ;
}

/// What the bytes of a body read as: they are to hold one JSON document, and
/// that document is to have the shape that the type asks for.
pub open spec fn decoded<D: FromJson>(body: Seq<u8>) -> Option<D::V> {
    match json_document(body) {
        Some(doc) => D::of_json(doc),
        None => None,
    }
}

/// `serde_json::from_slice::<Value>`: the bytes are read as one JSON document,
/// surrounded by nothing but whitespace. The contract names the tree of the
/// value read, and claims that reading fails exactly where the bytes denote no
/// document.
#[verifier::external_body]
pub(crate) fn parse(bytes: &[u8]) -> (r: Result<Value, serde_json::Error>)
    ensures
        match r {
            Ok(v) => json_document(bytes@) == Some(json_model(v)),
            Err(_) => json_document(bytes@) is None,
        },
{
    serde_json::from_slice::<Value>(bytes)
}

/// `Value::get` with a string index: the member of an object under that key.
/// The contract claims that it is found exactly where the value is an object
/// that holds the key.
#[verifier::external_body]
pub(crate) fn member<'a>(v: &'a Value, key: &str) -> (r: Option<&'a Value>)
    ensures
        match r {
            Some(m) => json_model(*v).member(key@) == Some(json_model(*m)),
            None => json_model(*v).member(key@) is None,
        },
{
    v.get(key)
}

/// `Value::from(&str)` followed by `to_string`: the compact JSON text of a
/// string value, which is the string's literal.
#[verifier::external_body]
pub(crate) fn quoted(s: &str) -> (r: String)
    ensures
        r@ == json_string_literal(s@),
{
    Value::from(s).to_string()
}

/// `Value::is_null` holds of `null` alone.
pub assume_specification[ Value::is_null ](v: &Value) -> (r: bool)
    ensures
        r == (json_model(*v) is Null),
;

/// `Value::as_bool` gives the value of a boolean and nothing otherwise.
pub assume_specification[ Value::as_bool ](v: &Value) -> (r: Option<bool>)
    ensures
        r == json_model(*v).truth(),
;

/// `Value::as_u64` gives the value of a number that was written as a
/// non-negative integer and fits in 64 bits, and nothing otherwise.
pub assume_specification[ Value::as_u64 ](v: &Value) -> (r: Option<u64>)
    ensures
        r == json_model(*v).unsigned(),
;

/// `Value::as_str` gives the characters of a string and nothing otherwise.
pub assume_specification[ Value::as_str ](v: &Value) -> (r: Option<&str>)
    ensures
        match r {
            Some(s) => json_model(*v).text() == Some(s@),
            None => json_model(*v).text() is None,
        },
;

/// `Value::as_array` gives the items of an array and nothing otherwise.
pub assume_specification[ Value::as_array ](v: &Value) -> (r: Option<&Vec<Value>>)
    ensures
        match r {
            Some(items) => json_model(*v).items() == Some(json_models(items@)),
            None => json_model(*v).items() is None,
        },
;

/// `Value::clone` gives a value that holds the same tree.
pub assume_specification[ <Value as Clone>::clone ](v: &Value) -> (r: Value)
    ensures
        json_model(r) == json_model(*v),
;

/// Converts a 64-bit number to a `usize`, where it fits.
pub fn to_size(n: u64) -> (r: Option<usize>)
    ensures
        r == size_of(n),
{
    if n <= usize::MAX as u64 {
        Some(n as usize)
    } else {
        None
    }
}

impl FromJson for String {
    /// A string reads as its characters.
    open spec fn of_json(doc: Json) -> Option<Seq<char>> {
        doc.text()
    }

    fn from_json(doc: &Value) -> (r: Option<String>) {
        match doc.as_str() {
            Some(s) => Some(s.to_owned()),
            None => None,
        }
    }
}

impl FromJson for usize {
    /// A non-negative integer reads as a size where it fits in `usize`.
    open spec fn of_json(doc: Json) -> Option<usize> {
        match doc.unsigned() {
            Some(n) => size_of(n),
            None => None,
        }
    }

    fn from_json(doc: &Value) -> (r: Option<usize>) {
        match doc.as_u64() {
            Some(n) => to_size(n),
            None => None,
        }
    }
}

impl FromJson for bool {
    /// A boolean reads as itself.
    open spec fn of_json(doc: Json) -> Option<bool> {
        doc.truth()
    }

    fn from_json(doc: &Value) -> (r: Option<bool>) {
        doc.as_bool()
    }
}

/// Reads a value from the bytes of a body.
pub fn decode<D: FromJson>(body: &[u8]) -> (r: Option<D>)
    ensures
        viewed(r) == decoded::<D>(body@),
{
    match parse(body) {
        Ok(doc) => D::from_json(&doc),
        Err(_) => None,
    }
}

/// Tells whether `key` is missing or holds `null`.
pub fn vacant_at(doc: &Value, key: &str) -> (r: bool)
    ensures
        r == json_model(*doc).vacant_at(key@),
{
    match member(doc, key) {
        Some(m) => m.is_null(),
        None => true,
    }
}

/// Reads the member under `key`, which has to be there.
pub fn field<D: FromJson>(doc: &Value, key: &str) -> (r: Option<D>)
    ensures
        viewed(r) == json_model(*doc).field::<D>(key@),
{
    match member(doc, key) {
        Some(m) => D::from_json(m),
        None => None,
    }
}

/// Reads the member that may stand under `key`. The outer `None` reports a
/// member that is there and does not read as a `D`.
pub fn optional_field<D: FromJson>(doc: &Value, key: &str) -> (r: Option<Option<D>>)
    ensures
        match r {
            Some(d) => json_model(*doc).optional_field::<D>(key@) == Some(viewed(d)),
            None => json_model(*doc).optional_field::<D>(key@) is None,
        },
{
    if vacant_at(doc, key) {
        Some(None)
    } else {
        match field::<D>(doc, key) {
            Some(d) => Some(Some(d)),
            None => None,
        }
    }
}

/// Reads an array, item by item.
pub fn list<D: FromJson>(v: &Value) -> (r: Option<Vec<D>>)
    ensures
        viewed_list(r) == json_model(*v).list::<D>(),
{
    let items = match v.as_array() {
        Some(items) => items,
        None => { return None; },
    };
    let ghost models = json_models(items@);
    let mut list: Vec<D> = Vec::new();
    let mut i: usize = 0;
    while i < items.len()
        invariant
            i <= items.len(),
            models == json_models(items@),
            json_model(*v) == Json::Array(models),
            list.len() == i,
            forall|k: int| 0 <= k < i ==> (#[trigger] D::of_json(models[k])) == Some(list[k]@),
        decreases items.len() - i,
    {
        match D::from_json(&items[i]) {
            Some(d) => {
                list.push(d);
            },
            None => {
                assert(D::of_json(models[i as int]) is None);
                return None;
            },
        }
        i += 1;
    }
    assert(all_read::<D>(models));
    assert(views(list@) =~= Seq::new(models.len(), |k: int| D::of_json(models[k])->Some_0));
    Some(list)
}

/// Reads the array under `key`, which has to be there.
pub fn list_field<D: FromJson>(doc: &Value, key: &str) -> (r: Option<Vec<D>>)
    ensures
        viewed_list(r) == json_model(*doc).list_field::<D>(key@),
{
    match member(doc, key) {
        Some(m) => list::<D>(m),
        None => None,
    }
}

/// Reads the array that may stand under `key`. The outer `None` reports a
/// member that is there and does not read as a list of `D`.
pub fn optional_list_field<D: FromJson>(doc: &Value, key: &str) -> (r: Option<Option<Vec<D>>>)
    ensures
        match r {
            Some(list) => json_model(*doc).optional_list_field::<D>(key@) == Some(
                viewed_list(list),
            ),
            None => json_model(*doc).optional_list_field::<D>(key@) is None,
        },
{
    if vacant_at(doc, key) {
        Some(None)
    } else {
        match list_field::<D>(doc, key) {
            Some(list) => Some(Some(list)),
            None => None,
        }
    }
}

/// Copies the member under `key` as it stands, whatever it holds.
pub fn blob_at(doc: &Value, key: &str) -> (r: Option<Value>)
    ensures
        match r {
            Some(v) => json_model(*doc).member(key@) == Some(json_model(v)),
            None => json_model(*doc).member(key@) is None,
        },
{
    match member(doc, key) {
        Some(m) => Some(m.clone()),
        None => None,
    }
}

} // verus!
