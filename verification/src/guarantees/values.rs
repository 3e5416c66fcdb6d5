//! What holds of JSON values and plain texts.

use vstd::prelude::*;

use crate::json::{
    lemma_array_view, lemma_members_hit, lemma_members_miss, text_or_null, value_or_null, Fraction,
    Json, JsonObject, JsonView,
};
use crate::rpc::encode_line;
use crate::string_map::{position, StringMap};
use crate::text::{blank, concat, is_blank, join, joined, optional, views, white_space};
use crate::time::{or_epoch, rfc3339, timestamp};
use crate::updates::text_or;

verus! {

/// A value is an object that holds nothing but what is under `keys`.
pub open spec fn holds_only(value: JsonView, keys: Set<Seq<char>>) -> bool {
    value is Object && forall|key: Seq<char>| #[trigger]
        value.get(key) is Some ==> keys.contains(key)
}

/// A member of an object is found under its key and no other, and nothing is found in what is no
/// object.
pub proof fn members_are_found(object: Map<Seq<char>, JsonView>, value: JsonView, key: Seq<char>)
    ensures
        object.contains_key(key) ==> JsonView::Object(object).get(key) == Some(object[key]),
        !object.contains_key(key) ==> JsonView::Object(object).get(key) is None,
        !(value is Object) ==> value.get(key) is None,
{
}

/// A member is read by its kind: a text exactly as it stands, a list with all its elements, a truth
/// value, or an integer that fits; anything else counts as absent.
pub proof fn members_are_read_by_kind(
    value: JsonView,
    key: Seq<char>,
    text: Seq<char>,
    items: Seq<JsonView>,
    flag: bool,
    number: int,
)
    ensures
        value.get(key) == Some(JsonView::Text(text)) <==> value.text_at(key) == Some(text),
        value.get(key) == Some(JsonView::Array(items)) ==> value.items_at(key) == items,
        !(value.get(key) matches Some(JsonView::Array(_))) ==> value.items_at(key).len() == 0,
        value.get(key) == Some(JsonView::Bool(flag)) <==> value.flag_at(key) == Some(flag),
        value.get(key) == Some(JsonView::Integer(number)) && 0 <= number <= u64::MAX
            ==> value.unsigned_at(key) == Some(number as u64),
        value.get(key) == Some(JsonView::Integer(number)) && !(0 <= number <= u64::MAX)
            ==> value.unsigned_at(key) is None,
        value.get(key) == Some(JsonView::Integer(number)) && i64::MIN <= number <= i64::MAX
            ==> value.signed_at(key) == Some(number as i64),
        value.get(key) == Some(JsonView::Integer(number)) && !(i64::MIN <= number <= i64::MAX)
            ==> value.signed_at(key) is None,
        !(value.get(key) matches Some(JsonView::Integer(_))) ==> value.unsigned_at(key) is None
            && value.signed_at(key) is None,
        value.get(key) is None ==> value.get_or_null(key) == JsonView::Null,
        value.get(key) matches Some(member) ==> value.get_or_null(key) == member,
{
}

/// A text inside a member is found by both keys.
pub proof fn inner_texts_are_found(
    value: JsonView,
    outer: Seq<char>,
    inner: Seq<char>,
    text: Seq<char>,
)
    ensures
        value.text_within(outer, inner) == Some(text) <==> (value.get(outer) matches Some(member)
            && member.get(inner) == Some(JsonView::Text(text))),
        JsonView::Text(text).text() == Some(text),
        text_or_null(Some(text)) == JsonView::Text(text),
        text_or_null(None) == JsonView::Null,
        value_or_null(Some(value)) == value,
        value_or_null(None) == JsonView::Null,
        text_or(Some(text), inner) == text,
        text_or(None, inner) == inner,
{
}

/// A member is handed out as it stands, and only from an object.
pub proof fn members_are_handed_out(
    value: &Json,
    object: &JsonObject,
    key: &str,
    member: Option<&Json>,
    of_object: Option<&Json>,
)
    requires
        call_ensures(Json::get, (value, key), member),
        call_ensures(JsonObject::get, (object, key), of_object),
    ensures
        match of_object {
            Some(found) => object@.contains_key(key@) && found@ == object@[key@],
            None => !object@.contains_key(key@),
        },
        match value {
            Json::Object(members) => match member {
                Some(found) => members@.contains_key(key@) && found@ == members@[key@],
                None => !members@.contains_key(key@),
            },
            _ => member is None,
        },
{
}

/// A member is handed out by its kind: a text, a truth value, the elements of a list, or an integer
/// that fits; where it is of another kind, nothing is.
pub proof fn members_are_handed_out_by_kind(
    value: &Json,
    key: &str,
    member: Option<&Json>,
    text: Option<&str>,
    flag: Option<bool>,
    items: Option<&Vec<Json>>,
    unsigned: Option<u64>,
    signed: Option<i64>,
)
    requires
        call_ensures(Json::get, (value, key), member),
        call_ensures(Json::get_str, (value, key), text),
        call_ensures(Json::get_bool, (value, key), flag),
        call_ensures(Json::get_items, (value, key), items),
        call_ensures(Json::get_u64, (value, key), unsigned),
        call_ensures(Json::get_i64, (value, key), signed),
    ensures
        match (optional(member), text) {
            (Some(JsonView::Text(held)), Some(found)) => found@ == held,
            (Some(JsonView::Text(_)), None) => false,
            (_, found) => found is None,
        },
        match optional(member) {
            Some(JsonView::Bool(held)) => flag == Some(held),
            _ => flag is None,
        },
        match (optional(member), items) {
            (Some(JsonView::Array(held)), Some(found)) => views(found@) == held,
            (Some(JsonView::Array(_)), None) => false,
            (_, found) => found is None,
        },
        match optional(member) {
            Some(JsonView::Integer(held)) => if 0 <= held <= u64::MAX {
                unsigned matches Some(found) && found == held
            } else {
                unsigned is None
            },
            _ => unsigned is None,
        },
        match optional(member) {
            Some(JsonView::Integer(held)) => if i64::MIN <= held <= i64::MAX {
                signed matches Some(found) && found == held
            } else {
                signed is None
            },
            _ => signed is None,
        },
{
}

/// A text is handed out of a value, or out of a member of a member, as it stands.
pub proof fn texts_are_handed_out(
    value: &Json,
    outer: &str,
    inner: &str,
    text: Option<&str>,
    within: Option<&str>,
    null: bool,
)
    requires
        call_ensures(Json::as_str, (value,), text),
        call_ensures(Json::get_str_within, (value, outer, inner), within),
        call_ensures(Json::is_null, (value,), null),
    ensures
        match (value@, text) {
            (JsonView::Text(held), Some(found)) => found@ == held,
            (JsonView::Text(_), None) => false,
            (_, found) => found is None,
        },
        match within {
            Some(found) => value@.get(outer@) matches Some(member) && member.get(inner@) == Some(
                JsonView::Text(found@),
            ),
            None => value@.get(outer@) matches Some(member) ==> !(member.get(inner@) matches Some(
                JsonView::Text(_),
            )),
        },
        null <==> value@ is Null,
{
}

/// Values are made of what they are made from: texts, copies, and null in place of what is absent.
pub proof fn values_are_made_from_what_is_given(
    text: &str,
    value: &Json,
    written: Json,
    copied: Json,
    cloned: Json,
    no_text: Json,
    no_value: Json,
)
    requires
        call_ensures(Json::text, (text,), written),
        call_ensures(Json::copy_or_null, (Some(value),), copied),
        call_ensures(Json::clone, (value,), cloned),
        call_ensures(Json::text_or_null, (None::<&str>,), no_text),
        call_ensures(Json::copy_or_null, (None::<&Json>,), no_value),
    ensures
        written@ == JsonView::Text(text@),
        copied@ == value@,
        cloned@ == value@,
        no_text@ is Null,
        no_value@ is Null,
{
}

/// Where a text is given, it is the one that stands.
pub proof fn given_texts_stand(text: &str, value: Json)
    requires
        call_ensures(Json::text_or_null, (Some(text),), value),
    ensures
        value@ == JsonView::Text(text@),
{
}

/// An object begins empty, and grows by the member it is given.
pub proof fn objects_grow_by_their_members(
    empty: JsonObject,
    object: JsonObject,
    key: &str,
    value: Json,
    grown: JsonObject,
    other: Seq<char>,
)
    requires
        call_ensures(JsonObject::new, (), empty),
        call_ensures(JsonObject::with, (object, key, value), grown),
    ensures
        JsonView::Object(empty@).get(other) is None,
        JsonView::Object(grown@).get(key@) == Some(value@),
        other != key@ ==> JsonView::Object(grown@).get(other) == JsonView::Object(object@).get(
            other,
        ),
{
}

/// A value that goes out to `serde_json` and comes back is the same.
pub proof fn values_come_back(json: Json, value: serde_json::Value, again: Json)
    requires
        call_ensures(Json::into_value, (json,), value),
        call_ensures(Json::from_value, (value,), again),
    ensures
        again@ == json@,
{
}

/// A value stands for what it was made of.
pub proof fn values_stand_for_their_parts(
    flag: bool,
    unsigned: u64,
    signed: i64,
    fraction: Fraction,
    text: String,
    items: Vec<Json>,
    object: JsonObject,
)
    ensures
        Json::Null@ == JsonView::Null,
        Json::Bool(flag)@ == JsonView::Bool(flag),
        Json::Unsigned(unsigned)@ == JsonView::Integer(unsigned as int),
        Json::Negative(signed)@ == JsonView::Integer(signed as int),
        Json::Fraction(fraction)@ == JsonView::Fraction(fraction),
        Json::Text(text)@ == JsonView::Text(text@),
        Json::Array(items)@ == JsonView::Array(
            Seq::new(items@.len(), |i: int| items@[i]@),
        ),
        Json::Object(object)@ == JsonView::Object(object@),
{
    lemma_array_view(items);
    assert(views(items@) =~= Seq::new(items@.len(), |i: int| items@[i]@));
}

/// Under a key that was written more than once, the last member counts; under one that was never
/// written there is none.
pub proof fn last_members_count(object: JsonObject, key: Seq<char>, at: int)
    ensures
        0 <= at < object.entries@.len() && object.entries@[at].0@ == key && (forall|j: int|
            at < j < object.entries@.len() ==> (#[trigger] object.entries@[j]).0@ != key)
            ==> object@.contains_key(key) && object@[key] == object.entries@[at].1@,
        (forall|j: int|
            0 <= j < object.entries@.len() ==> (#[trigger] object.entries@[j]).0@ != key)
            ==> !object@.contains_key(key),
{
    if 0 <= at < object.entries@.len() && object.entries@[at].0@ == key && (forall|j: int|
        at < j < object.entries@.len() ==> (#[trigger] object.entries@[j]).0@ != key) {
        lemma_members_hit(object.entries@, at);
    }
    if forall|j: int|
        0 <= j < object.entries@.len() ==> (#[trigger] object.entries@[j]).0@ != key {
        lemma_members_miss(object.entries@, key);
    }
}

/// A member that was set is the one that is found, and setting it touches no other.
pub proof fn set_members_are_found(
    object: &mut JsonObject,
    key: &str,
    value: Json,
    other: Seq<char>,
)
    requires
        call_ensures(JsonObject::insert, (object, key, value), ()),
    ensures
        JsonView::Object(final(object)@).get(key@) == Some(value@),
        other != key@ ==> JsonView::Object(final(object)@).get(other) == JsonView::Object(
            old(object)@,
        ).get(other),
{
}

/// What is written is read back, line or no line: a text that a plain value was written as, and
/// the line that carries it.
pub proof fn written_values_are_read_back(
    value: &Json,
    text: String,
    line: String,
    read: &str,
    found: Option<Json>,
)
    requires
        call_ensures(Json::render, (value,), text),
        call_ensures(encode_line, (value,), line),
        call_ensures(Json::parse, (read,), found),
        value@.plain(127),
        read@ == text@,
    ensures
        found matches Some(found) && found@ == value@,
        line@ == text@.push('\n'),
{
}

/// A line holds one line break, at its end.
pub proof fn lines_break_once(value: &Json, line: String, i: int)
    requires
        call_ensures(encode_line, (value,), line),
        0 <= i < line@.len(),
    ensures
        line@[i] == '\n' <==> i == line@.len() - 1,
{
}

/// Values without fractions are plain, down to some depth: texts, truth values, integers and null
/// at any, lists and objects exactly where what they hold is plain one level less deep, and no
/// object holds the mark of a raw value.
pub proof fn plain_values_are_made_of_plain_values(
    depth: nat,
    text: Seq<char>,
    flag: bool,
    number: int,
    fraction: Fraction,
    items: Seq<JsonView>,
    object: Map<Seq<char>, JsonView>,
)
    ensures
        JsonView::Null.plain(depth),
        JsonView::Text(text).plain(depth),
        JsonView::Bool(flag).plain(depth),
        JsonView::Integer(number).plain(depth),
        !JsonView::Fraction(fraction).plain(depth),
        !JsonView::Array(items).plain(0),
        !JsonView::Object(object).plain(0),
        JsonView::Array(items).plain(depth + 1) <==> (forall|i: int|
            0 <= i < items.len() ==> (#[trigger] items[i]).plain(depth)),
        JsonView::Object(object).plain(depth + 1) <==> (forall|key: Seq<char>|
            object.contains_key(key) ==> (#[trigger] object[key]).plain(depth))
            && !object.contains_key("$serde_json::private::RawValue"@),
{
    let deeper: nat = depth + 1;
    assert((deeper - 1) as nat == depth);
    let list = JsonView::Array(items);
    if list.plain(deeper) {
        assert forall|i: int| 0 <= i < items.len() implies (#[trigger] items[i]).plain(depth) by {
            assert(list->Array_0[i].plain((deeper - 1) as nat));
        }
    }
}

/// The code points of white space: the controls from tab to carriage return, the space, the next
/// line, and the spaces and separators of the other blocks.
pub open spec fn is_space(code: int) -> bool {
    ||| 9 <= code <= 13
    ||| code == 32
    ||| code == 133
    ||| code == 160
    ||| code == 5760
    ||| 8192 <= code <= 8202
    ||| code == 8232 || code == 8233
    ||| code == 8239 || code == 8287
    ||| code == 12288
}

/// A text counts as blank exactly where every character of it is white space.
pub proof fn blank_texts_are_white_space(text: &str, result: bool)
    requires
        call_ensures(is_blank, (text,), result),
    ensures
        result <==> forall|i: int| 0 <= i < text@.len() ==> is_space(#[trigger] text@[i] as int),
{
    assert forall|i: int| 0 <= i < text@.len() implies (white_space(#[trigger] text@[i])
        <==> is_space(text@[i] as int)) by {}
}

/// A text is blank exactly where each part of it is, and a single character exactly where it is
/// white space.
pub proof fn blank_texts_are_blank_throughout(first: Seq<char>, second: Seq<char>, c: char)
    ensures
        blank(Seq::<char>::empty()),
        blank(seq![c]) <==> white_space(c),
        blank(first + second) <==> blank(first) && blank(second),
{
    assert(seq![c][0] == c);
    let both = first + second;
    if blank(both) {
        assert forall|i: int| 0 <= i < first.len() implies white_space(#[trigger] first[i]) by {
            assert(both[i] == first[i]);
        }
        assert forall|i: int| 0 <= i < second.len() implies white_space(#[trigger] second[i]) by {
            assert(both[first.len() + i] == second[i]);
        }
    }
}

/// Whether a text counts as blank, two texts in a row and parts that are joined come out as their
/// models say.
pub proof fn texts_come_out_as_their_models(
    text: &str,
    other: &str,
    found_blank: bool,
    both: String,
    parts: &Vec<String>,
    whole: String,
)
    requires
        call_ensures(is_blank, (text,), found_blank),
        call_ensures(concat, (text, other), both),
        call_ensures(join, (parts, other), whole),
    ensures
        found_blank == forall|i: int| 0 <= i < text@.len() ==> white_space(#[trigger] text@[i]),
        both@ == text@ + other@,
        parts@.len() == 0 ==> whole@.len() == 0,
        parts@.len() == 1 ==> whole@ == parts@[0]@,
        parts@.len() == 2 ==> whole@ == parts@[0]@ + other@ + parts@[1]@,
{
    if parts@.len() == 2 {
        reveal_with_fuel(joined, 2);
        assert(views(parts@).drop_last() =~= seq![parts@[0]@]);
    }
}

/// Joining is done part by part: two runs of parts are joined by joining each and putting the
/// separator between them.
pub proof fn joining_goes_part_by_part(
    first: Seq<Seq<char>>,
    second: Seq<Seq<char>>,
    separator: Seq<char>,
)
    requires
        first.len() > 0,
        second.len() > 0,
    ensures
        joined(first + second, separator) == joined(first, separator) + separator + joined(
            second,
            separator,
        ),
    decreases second.len(),
{
    let both = first + second;
    assert(both.last() == second.last());
    assert(both.drop_last() =~= first + second.drop_last());
    if second.len() == 1 {
        assert(both.drop_last() =~= first);
    } else {
        joining_goes_part_by_part(first, second.drop_last(), separator);
        assert(joined(both, separator) =~= joined(first, separator) + separator + joined(
            second,
            separator,
        ));
    }
}

/// The views of elements keep their number and order.
pub proof fn views_keep_order<T: View>(items: Seq<T>, item: T)
    ensures
        views(items).len() == items.len(),
        forall|i: int| 0 <= i < items.len() ==> #[trigger] views(items)[i] == items[i]@,
        optional(Some(item)) == Some(item@),
        optional(None::<T>) == None::<T::V>,
{
}

/// A point in time has the text that the calendar gives it, and outside the calendar that of the
/// start of 1970.
pub proof fn times_have_their_text(seconds: i64, text: String)
    requires
        call_ensures(timestamp, (seconds,), text),
    ensures
        -8_334_601_228_800 <= seconds <= 8_210_266_876_799 ==> rfc3339(seconds) == Some(text@),
        seconds < -8_334_601_228_800 || seconds > 8_210_266_876_799 || seconds == 0 ==> text@
            == "1970-01-01T00:00:00+00:00"@,
{
}

/// A text that is there is kept, and the start of 1970 stands in only for one that is not.
pub proof fn epochs_stand_in(found: Option<String>, text: String)
    requires
        call_ensures(or_epoch, (found,), text),
    ensures
        found matches Some(found) ==> text@ == found@,
        found is None ==> text@ == "1970-01-01T00:00:00+00:00"@,
{
}

/// A map by text keeps what was put in under its key, until it is taken out by that key.
pub proof fn maps_keep_their_values<V>(
    map: &mut StringMap<V>,
    key: String,
    value: V,
    other: Seq<char>,
)
    requires
        call_ensures(StringMap::<V>::insert, (map, key, value), ()),
    ensures
        final(map)@.contains_key(key@) && final(map)@[key@] == value,
        other != key@ ==> (final(map)@.contains_key(other) <==> old(map)@.contains_key(other)),
        other != key@ && old(map)@.contains_key(other) ==> final(map)@[other] == old(map)@[other],
{
}

/// Taking a value out by its key gives it and leaves the others.
pub proof fn maps_give_their_values<V>(
    map: &mut StringMap<V>,
    key: &str,
    value: Option<V>,
    other: Seq<char>,
)
    requires
        call_ensures(StringMap::<V>::remove, (map, key), value),
    ensures
        value is Some <==> old(map)@.contains_key(key@),
        value matches Some(value) ==> value == old(map)@[key@],
        !final(map)@.contains_key(key@),
        other != key@ ==> (final(map)@.contains_key(other) <==> old(map)@.contains_key(other)),
        other != key@ && old(map)@.contains_key(other) ==> final(map)@[other] == old(map)@[other],
{
}

/// A value is found under its key, and nothing under any other.
pub proof fn maps_find_their_values<V>(map: &StringMap<V>, key: &str, value: Option<&V>)
    requires
        call_ensures(StringMap::<V>::get, (map, key), value),
    ensures
        value is Some <==> map@.contains_key(key@),
        value matches Some(value) ==> *value == map@[key@],
{
}

/// The entries are the keys with their values, each key once.
pub proof fn maps_list_their_values<V>(
    map: &StringMap<V>,
    entries: &Vec<(String, V)>,
    i: int,
    j: int,
    key: Seq<char>,
)
    requires
        call_ensures(StringMap::<V>::entries, (map,), entries),
    ensures
        0 <= i < entries@.len() ==> map@.contains_key(entries@[i].0@) && map@[entries@[i].0@]
            == entries@[i].1,
        0 <= i < j < entries@.len() ==> entries@[i].0@ != entries@[j].0@,
        map@.contains_key(key) ==> exists|k: int|
            0 <= k < entries@.len() && (#[trigger] entries@[k]).0@ == key,
{
    if 0 <= i < entries@.len() {
        let key = entries@[i].0@;
        assert(position(entries@, key, i));
        let found = choose|k: int| position(entries@, key, k);
        assert(found == i);
    }
}

/// Taking out a value wherever it stands leaves exactly the keys of other values, with those.
pub proof fn maps_lose_a_value(map: &mut StringMap<String>, value: &str, key: Seq<char>)
    requires
        call_ensures(StringMap::<String>::remove_value, (map, value), ()),
    ensures
        final(map)@.contains_key(key) <==> old(map)@.contains_key(key) && old(map)@[key]@
            != value@,
        final(map)@.contains_key(key) ==> final(map)@[key] == old(map)@[key],
{
}

} // verus!
