//! JSON values, as the app-server and the pager exchange them.

use vstd::prelude::*;

use crate::text::{optional, views};

verus! {

/// A JSON value. `Unsigned` and `Negative` are the integers of JSON text; `Fraction` is every
/// other number.
#[derive(Debug, PartialEq)]
pub enum Json {
    Null,
    Bool(bool),
    Unsigned(u64),
    Negative(i64),
    Fraction(Fraction),
    Text(String),
    Array(Vec<Json>),
    Object(JsonObject),
}

/// A JSON number that is no 64-bit integer. It is only ever read from JSON text or taken out of
/// a JSON value.
#[derive(Debug, PartialEq)]
pub struct Fraction {
    number: serde_json::Number,
}

/// The members of a JSON object. Where a key was written twice, the later member counts.
#[derive(Debug, PartialEq)]
pub struct JsonObject {
    pub entries: Vec<(String, Json)>,
}

/// What a JSON value is: a tree with unordered objects, in which an integer is an integer
/// however it is stored.
#[verifier::ext_equal]
pub enum JsonView {
    Null,
    Bool(bool),
    Integer(int),
    Fraction(Fraction),
    Text(Seq<char>),
    Array(Seq<JsonView>),
    Object(Map<Seq<char>, JsonView>),
}

impl View for Json {
    type V = JsonView;

    open spec fn view(&self) -> JsonView
        decreases self,
    {
        match self {
            Json::Null => JsonView::Null,
            Json::Bool(flag) => JsonView::Bool(*flag),
            Json::Unsigned(number) => JsonView::Integer(*number as int),
            Json::Negative(number) => JsonView::Integer(*number as int),
            Json::Fraction(fraction) => JsonView::Fraction(*fraction),
            Json::Text(text) => JsonView::Text(text@),
            Json::Array(items) => JsonView::Array(
                Seq::new(
                    items@.len(),
                    |i: int| if 0 <= i < items@.len() { items@[i].view() } else { JsonView::Null },
                ),
            ),
            Json::Object(object) => JsonView::Object(object.view()),
        }
    }
}

impl View for JsonObject {
    type V = Map<Seq<char>, JsonView>;

    open spec fn view(&self) -> Map<Seq<char>, JsonView>
        decreases self,
    {
        members(self.entries@)
    }
}

/// The members that a list of entries stands for: the last entry of a key counts.
pub open spec fn members(entries: Seq<(String, Json)>) -> Map<Seq<char>, JsonView>
    decreases entries,
{
    if entries.len() == 0 {
        Map::empty()
    } else {
        members(entries.drop_last()).insert(entries.last().0@, entries.last().1.view())
    }
}

impl JsonView {
    /// The member of an object under `key`.
    pub open spec fn get(self, key: Seq<char>) -> Option<JsonView> {
        match self {
            JsonView::Object(object) => if object.contains_key(key) {
                Some(object[key])
            } else {
                None
            },
            _ => None,
        }
    }

    /// The text that a JSON string holds.
    pub open spec fn text(self) -> Option<Seq<char>> {
        match self {
            JsonView::Text(text) => Some(text),
            _ => None,
        }
    }

    /// The text of the member under `key`, where that is a string.
    pub open spec fn text_at(self, key: Seq<char>) -> Option<Seq<char>> {
        match self.get(key) {
            Some(value) => value.text(),
            None => None,
        }
    }

    /// The text of the member `inner` of the member `outer`, where there is one.
    pub open spec fn text_within(self, outer: Seq<char>, inner: Seq<char>) -> Option<Seq<char>> {
        match self.get(outer) {
            Some(value) => value.text_at(inner),
            None => None,
        }
    }

    /// The elements of the member under `key`: none where that is no array.
    pub open spec fn items_at(self, key: Seq<char>) -> Seq<JsonView> {
        match self.get(key) {
            Some(JsonView::Array(items)) => items,
            _ => Seq::empty(),
        }
    }

    /// The truth value of the member under `key`, where that is one.
    pub open spec fn flag_at(self, key: Seq<char>) -> Option<bool> {
        match self.get(key) {
            Some(JsonView::Bool(flag)) => Some(flag),
            _ => None,
        }
    }

    /// The integer under `key`, where that is one from 0 to `u64::MAX`.
    pub open spec fn unsigned_at(self, key: Seq<char>) -> Option<u64> {
        match self.get(key) {
            Some(JsonView::Integer(number)) => if 0 <= number <= u64::MAX {
                Some(number as u64)
            } else {
                None
            },
            _ => None,
        }
    }

    /// The integer under `key`, where that is one from `i64::MIN` to `i64::MAX`.
    pub open spec fn signed_at(self, key: Seq<char>) -> Option<i64> {
        match self.get(key) {
            Some(JsonView::Integer(number)) => if i64::MIN <= number <= i64::MAX {
                Some(number as i64)
            } else {
                None
            },
            _ => None,
        }
    }

    /// The member under `key`, or null.
    pub open spec fn get_or_null(self, key: Seq<char>) -> JsonView {
        match self.get(key) {
            Some(value) => value,
            None => JsonView::Null,
        }
    }

    /// No fraction and no raw-value marker occurs in the value, and arrays and objects nest at
    /// most `depth` deep.
    pub open spec fn plain(self, depth: nat) -> bool
        decreases depth,
    {
        match self {
            JsonView::Fraction(_) => false,
            JsonView::Array(items) => depth > 0 && forall|i: int|
                0 <= i < items.len() ==> (#[trigger] items[i]).plain((depth - 1) as nat),
            JsonView::Object(object) => depth > 0 && !object.contains_key(
                "$serde_json::private::RawValue"@,
            ) && forall|key: Seq<char>|
                object.contains_key(key) ==> (#[trigger] object[key]).plain((depth - 1) as nat),
            _ => true,
        }
    }
}

/// A JSON string, or null where there is no text.
pub open spec fn text_or_null(text: Option<Seq<char>>) -> JsonView {
    match text {
        Some(text) => JsonView::Text(text),
        None => JsonView::Null,
    }
}

/// A value, or null where there is none.
pub open spec fn value_or_null(value: Option<JsonView>) -> JsonView {
    match value {
        Some(value) => value,
        None => JsonView::Null,
    }
}

pub proof fn lemma_array_view(items: Vec<Json>)
    ensures
        Json::Array(items)@ == JsonView::Array(views(items@)),
{
    assert(Json::Array(items)@->Array_0 =~= views(items@));
}

proof fn lemma_members_push(entries: Seq<(String, Json)>, key: String, value: Json)
    ensures
        members(entries.push((key, value))) == members(entries).insert(key@, value@),
{
    assert(entries.push((key, value)).drop_last() =~= entries);
}

pub proof fn lemma_members_hit(entries: Seq<(String, Json)>, i: int)
    requires
        0 <= i < entries.len(),
        forall|j: int| i < j < entries.len() ==> (#[trigger] entries[j]).0@ != entries[i].0@,
    ensures
        members(entries).contains_key(entries[i].0@),
        members(entries)[entries[i].0@] == entries[i].1@,
    decreases entries.len(),
{
    let earlier = entries.drop_last();
    assert(members(entries) == members(earlier).insert(entries.last().0@, entries.last().1@));
    if i < entries.len() - 1 {
        lemma_members_hit(earlier, i);
        assert(entries.last().0@ != entries[i].0@);
    }
}

pub proof fn lemma_members_miss(entries: Seq<(String, Json)>, key: Seq<char>)
    requires
        forall|j: int| 0 <= j < entries.len() ==> (#[trigger] entries[j]).0@ != key,
    ensures
        !members(entries).contains_key(key),
    decreases entries.len(),
{
    if entries.len() > 0 {
        let earlier = entries.drop_last();
        assert(members(entries) == members(earlier).insert(entries.last().0@, entries.last().1@));
        lemma_members_miss(earlier, key);
        assert(entries.last().0@ != key);
    }
}

impl JsonObject {
    pub fn new() -> (object: Self)
        ensures
            object@ == Map::<Seq<char>, JsonView>::empty(),
    {
        JsonObject { entries: Vec::new() }
    }

    /// Sets the member under `key`.
    pub fn insert(&mut self, key: &str, value: Json)
        ensures
            final(self)@ == old(self)@.insert(key@, value@),
    {
        let name = key.to_owned();
        proof {
            lemma_members_push(self.entries@, name, value);
        }
        self.entries.push((name, value));
    }

    /// The object with one more member.
    pub fn with(self, key: &str, value: Json) -> (object: Self)
        ensures
            object@ == self@.insert(key@, value@),
    {
        let mut object = self;
        object.insert(key, value);
        object
    }

    /// The member under `key`.
    pub fn get(&self, key: &str) -> (value: Option<&Json>)
        ensures
            optional(value) == JsonView::Object(self@).get(key@),
    {
        let mut i: usize = self.entries.len();
        while i > 0
            invariant
                i <= self.entries.len(),
                forall|j: int|
                    i <= j < self.entries.len() ==> (#[trigger] self.entries[j]).0@ != key@,
            decreases i,
        {
            i = i - 1;
            if self.entries[i].0.as_str().eq(key) {
                proof {
                    lemma_members_hit(self.entries@, i as int);
                }
                return Some(&self.entries[i].1);
            }
        }
        proof {
            lemma_members_miss(self.entries@, key@);
        }
        None
    }
}

impl Json {
    /// The JSON string with this text.
    pub fn text(text: &str) -> (value: Json)
        ensures
            value@ == JsonView::Text(text@),
    {
        Json::Text(text.to_owned())
    }

    /// The JSON string with this text, or null.
    pub fn text_or_null(text: Option<&str>) -> (value: Json)
        ensures
            value@ == text_or_null(optional(text)),
    {
        match text {
            Some(text) => Json::text(text),
            None => Json::Null,
        }
    }

    /// A copy of the value, or null.
    pub fn copy_or_null(value: Option<&Json>) -> (copy: Json)
        ensures
            copy@ == value_or_null(optional(value)),
    {
        match value {
            Some(value) => value.clone(),
            None => Json::Null,
        }
    }

    /// The member of an object under `key`.
    pub fn get(&self, key: &str) -> (value: Option<&Json>)
        ensures
            optional(value) == self@.get(key@),
    {
        match self {
            Json::Object(object) => object.get(key),
            _ => None,
        }
    }

    /// The text of a JSON string.
    pub fn as_str(&self) -> (text: Option<&str>)
        ensures
            optional(text) == self@.text(),
    {
        match self {
            Json::Text(text) => Some(text.as_str()),
            _ => None,
        }
    }

    /// Whether this is null.
    pub fn is_null(&self) -> (result: bool)
        ensures
            result == (self@ == JsonView::Null),
    {
        match self {
            Json::Null => true,
            _ => false,
        }
    }

    /// The text of the member under `key`, where that is a string.
    pub fn get_str(&self, key: &str) -> (text: Option<&str>)
        ensures
            optional(text) == self@.text_at(key@),
    {
        match self.get(key) {
            Some(value) => value.as_str(),
            None => None,
        }
    }

    /// The text of the member `inner` of the member `outer`, where there is one.
    pub fn get_str_within(&self, outer: &str, inner: &str) -> (text: Option<&str>)
        ensures
            optional(text) == self@.text_within(outer@, inner@),
    {
        match self.get(outer) {
            Some(value) => value.get_str(inner),
            None => None,
        }
    }

    /// The elements of the member under `key`, where that is an array.
    pub fn get_items(&self, key: &str) -> (items: Option<&Vec<Json>>)
        ensures
            match items {
                Some(items) => self@.get(key@) == Some(JsonView::Array(views(items@))),
                None => !(self@.get(key@) matches Some(JsonView::Array(_))),
            },
            match items {
                Some(items) => self@.items_at(key@) == views(items@),
                None => self@.items_at(key@) == Seq::<JsonView>::empty(),
            },
    {
        match self.get(key) {
            Some(value) => match value {
                Json::Array(items) => {
                    proof {
                        lemma_array_view(*items);
                    }
                    Some(items)
                },
                _ => None,
            },
            None => None,
        }
    }

    /// The truth value of the member under `key`, where that is one.
    pub fn get_bool(&self, key: &str) -> (flag: Option<bool>)
        ensures
            flag == self@.flag_at(key@),
    {
        match self.get(key) {
            Some(value) => match value {
                Json::Bool(flag) => Some(*flag),
                _ => None,
            },
            None => None,
        }
    }

    /// The integer under `key`, where that is one from 0 to `u64::MAX`.
    pub fn get_u64(&self, key: &str) -> (number: Option<u64>)
        ensures
            number == self@.unsigned_at(key@),
    {
        match self.get(key) {
            Some(value) => match value {
                Json::Unsigned(number) => Some(*number),
                Json::Negative(number) => if *number >= 0 {
                    Some(*number as u64)
                } else {
                    None
                },
                _ => None,
            },
            None => None,
        }
    }

    /// The integer under `key`, where that is one from `i64::MIN` to `i64::MAX`.
    pub fn get_i64(&self, key: &str) -> (number: Option<i64>)
        ensures
            number == self@.signed_at(key@),
    {
        match self.get(key) {
            Some(value) => match value {
                Json::Unsigned(number) => if *number <= i64::MAX as u64 {
                    Some(*number as i64)
                } else {
                    None
                },
                Json::Negative(number) => Some(*number),
                _ => None,
            },
            None => None,
        }
    }
}

/// `serde_json::Number`'s `Clone`: the copy is the same number.
pub assume_specification[ <serde_json::Number as Clone>::clone ](
    number: &serde_json::Number,
) -> (copy: serde_json::Number)
    ensures
        copy == *number,
;

impl Clone for Fraction {
    fn clone(&self) -> (copy: Self)
        ensures
            copy == *self,
    {
        Fraction { number: self.number.clone() }
    }
}

impl Clone for Json {
    fn clone(&self) -> (copy: Self)
        ensures
            copy@ == self@,
        decreases self,
    {
        match self {
            Json::Null => Json::Null,
            Json::Bool(flag) => Json::Bool(*flag),
            Json::Unsigned(number) => Json::Unsigned(*number),
            Json::Negative(number) => Json::Negative(*number),
            Json::Fraction(fraction) => Json::Fraction(fraction.clone()),
            Json::Text(text) => Json::Text(text.clone()),
            Json::Array(items) => {
                let mut copies: Vec<Json> = Vec::new();
                for i in 0..items.len()
                    invariant
                        self == Json::Array(*items),
                        copies@.len() == i,
                        forall|j: int| 0 <= j < i ==> #[trigger] copies@[j]@ == items@[j]@,
                {
                    assert(decreases_to!(self => self->Array_0));
                    assert(decreases_to!(items@ => items@[i as int]));
                    copies.push(items[i].clone());
                }
                proof {
                    lemma_array_view(copies);
                    lemma_array_view(*items);
                    assert(views(copies@) =~= views(items@));
                }
                Json::Array(copies)
            },
            Json::Object(object) => Json::Object(object.clone()),
        }
    }
}

impl Clone for JsonObject {
    fn clone(&self) -> (copy: Self)
        ensures
            copy@ == self@,
        decreases self,
    {
        let mut copy = JsonObject::new();
        for i in 0..self.entries.len()
            invariant
                copy@ == members(self.entries@.take(i as int)),
        {
            let value = &self.entries[i].1;
            assert(decreases_to!(self => value));
            copy.insert(self.entries[i].0.as_str(), value.clone());
            assert(self.entries@.take(i + 1).drop_last() =~= self.entries@.take(i as int));
        }
        assert(self.entries@.take(self.entries.len() as int) =~= self.entries@);
        copy
    }
}

/// A number of `serde_json`.
#[verifier::external_type_specification]
#[verifier::external_body]
pub struct ExNumber(serde_json::Number);

/// A JSON value of `serde_json`.
#[verifier::external_type_specification]
#[verifier::external_body]
pub struct ExValue(serde_json::Value);

/// What a `serde_json::Value` holds.
pub uninterp spec fn value_contents(value: serde_json::Value) -> JsonView;

/// The value that a JSON text stands for: none where `serde_json` refuses the text.
pub uninterp spec fn parsed(text: Seq<char>) -> Option<JsonView>;

/// The compact JSON text that `serde_json` writes for a value. Objects are written by their keys in
/// order, so that the text depends on the members alone: `serde_json` is built here without its
/// feature `preserve_order`, under which it would depend on the order they were entered in.
pub uninterp spec fn rendered(value: JsonView) -> Seq<char>;

/// Takes a `serde_json::Value` apart, variant by variant: nothing of it is lost or added.
#[verifier::external_body]
fn open_value(value: serde_json::Value) -> (json: Json)
    ensures
        json@ == value_contents(value),
{
    match value {
        serde_json::Value::Null => Json::Null,
        serde_json::Value::Bool(flag) => Json::Bool(flag),
        serde_json::Value::Number(number) => match (number.as_u64(), number.as_i64()) {
            (Some(unsigned), _) => Json::Unsigned(unsigned),
            (None, Some(negative)) => Json::Negative(negative),
            (None, None) => Json::Fraction(Fraction { number }),
        },
        serde_json::Value::String(text) => Json::Text(text),
        serde_json::Value::Array(items) => Json::Array(items.into_iter().map(open_value).collect()),
        serde_json::Value::Object(object) => Json::Object(JsonObject {
            entries: object.into_iter().map(|(key, item)| (key, open_value(item))).collect(),
        }),
    }
}

/// Builds the `serde_json::Value` of a JSON value, variant by variant. The members of an object
/// are entered in order with `serde_json::Map::insert`, by which a later member under the same key
/// replaces an earlier one.
#[verifier::external_body]
fn build_value(json: Json) -> (value: serde_json::Value)
    ensures
        value_contents(value) == json@,
{
    match json {
        Json::Null => serde_json::Value::Null,
        Json::Bool(flag) => serde_json::Value::Bool(flag),
        Json::Unsigned(number) => serde_json::Value::from(number),
        Json::Negative(number) => serde_json::Value::from(number),
        Json::Fraction(fraction) => serde_json::Value::Number(fraction.number),
        Json::Text(text) => serde_json::Value::String(text),
        Json::Array(items) => items.into_iter().map(build_value).collect(),
        Json::Object(object) => {
            let mut members = serde_json::Map::new();
            for (key, item) in object.entries { members.insert(key, build_value(item)); }
            serde_json::Value::Object(members)
        },
    }
}

/// `serde_json::from_str::<serde_json::Value>`: the value of the text, or nothing where the text
/// is refused.
#[verifier::external_body]
fn value_from_str(text: &str) -> (value: Option<serde_json::Value>)
    ensures
        match value {
            Some(value) => parsed(text@) == Some(value_contents(value)),
            None => parsed(text@) is None,
        },
{
    serde_json::from_str(text).ok()
}

/// `serde_json::to_string` of a `serde_json::Value`: compact text, which `serde_json` always
/// produces, and which the contents of the value determine, since without the feature
/// `preserve_order` an object keeps its members sorted. No line break occurs in it, since strings
/// are written with their control characters escaped. Read back, it gives the same value, provided
/// that the value holds no fraction, nests no deeper than the parser follows and does not use the
/// key by which `serde_json` marks raw text.
#[verifier::external_body]
fn value_to_string(value: &serde_json::Value) -> (text: Option<String>)
    ensures
        text matches Some(text) && text@ == rendered(value_contents(*value)),
        text matches Some(text) && !text@.contains('\n'),
        text matches Some(text) && (value_contents(*value).plain(127) ==> parsed(text@) == Some(
            value_contents(*value),
        )),
{
    serde_json::to_string(value).ok()
}

impl Json {
    /// The value out of `serde_json`.
    pub fn from_value(value: serde_json::Value) -> (json: Json)
        ensures
            json@ == value_contents(value),
    {
        open_value(value)
    }

    /// The value for `serde_json`.
    pub fn into_value(self) -> (value: serde_json::Value)
        ensures
            value_contents(value) == self@,
    {
        build_value(self)
    }

    /// Reads a JSON text.
    pub fn parse(text: &str) -> (value: Option<Json>)
        ensures
            optional(value) == parsed(text@),
    {
        match value_from_str(text) {
            Some(value) => Some(open_value(value)),
            None => None,
        }
    }

    /// Writes the compact JSON text.
    pub fn render(&self) -> (text: String)
        ensures
            text@ == rendered(self@),
            !text@.contains('\n'),
            self@.plain(127) ==> parsed(text@) == Some(self@),
    {
        value_to_string(&build_value(self.clone())).unwrap()
    }
}

} // verus!
