//! JSON values as the library holds them, and their passage to and from `serde_json`.

use crate::text::{chars_of, optional_text, same_text, texts_view};
use vstd::prelude::*;
use vstd::string::*;
use vstd::utf8::*;

verus! {

/// A number of `serde_json`, carried unread.
#[verifier::external_type_specification]
#[verifier::external_body]
pub struct ExJsonNumber(serde_json::Number);

/// A JSON tree of `serde_json`.
#[verifier::external_type_specification]
#[verifier::external_body]
pub struct ExJsonTree(serde_json::Value);

/// A JSON value. The fields of a record stand in the order of their keys.
#[derive(Debug, PartialEq)]
pub enum JsonValue {
    Null,
    Bool(bool),
    Unsigned(u64),
    Signed(i64),
    /// A number as `serde_json` holds it.
    Real(serde_json::Number),
    Text(String),
    List(Vec<JsonValue>),
    Record(Vec<(String, JsonValue)>),
}

/// What a JSON value is, apart from how it is held.
#[verifier::ext_equal]
pub enum Json {
    Null,
    Bool(bool),
    Integer(int),
    Real(serde_json::Number),
    Text(Seq<char>),
    List(Seq<Json>),
    Record(Seq<(Seq<char>, Json)>),
}

impl View for JsonValue {
    type V = Json;

    open spec fn view(&self) -> Json {
        json_model(*self)
    }
}

/// What `Number::as_u64` of `serde_json` returns.
pub uninterp spec fn number_u64(number: serde_json::Number) -> Option<u64>;

/// What `Number::as_i64` of `serde_json` returns.
pub uninterp spec fn number_i64(number: serde_json::Number) -> Option<i64>;

/// The model of a number of `serde_json`: an integer where it is one of 64 bits.
pub open spec fn number_model(number: serde_json::Number) -> Json {
    match (number_u64(number), number_i64(number)) {
        (Some(value), _) => Json::Integer(value as int),
        (None, Some(value)) => Json::Integer(value as int),
        (None, None) => Json::Real(number),
    }
}

/// The model of a value.
pub open spec fn json_model(value: JsonValue) -> Json
    decreases value,
{
    match value {
        JsonValue::Null => Json::Null,
        JsonValue::Bool(value) => Json::Bool(value),
        JsonValue::Unsigned(value) => Json::Integer(value as int),
        JsonValue::Signed(value) => Json::Integer(value as int),
        JsonValue::Real(number) => number_model(number),
        JsonValue::Text(text) => Json::Text(text@),
        JsonValue::List(items) => Json::List(
            Seq::new(
                items@.len(),
                |i: int|
                    if 0 <= i < items@.len() {
                        json_model(items@[i])
                    } else {
                        Json::Null
                    },
            ),
        ),
        JsonValue::Record(fields) => Json::Record(
            Seq::new(
                fields@.len(),
                |i: int|
                    if 0 <= i < fields@.len() {
                        field_view(fields@[i])
                    } else {
                        (Seq::<char>::empty(), Json::Null)
                    },
            ),
        ),
    }
}

/// The model of one field of a record.
pub open spec fn field_view(field: (String, JsonValue)) -> (Seq<char>, Json)
    decreases field,
{
    (field.0@, json_model(field.1))
}

/// The models of a list of values.
pub open spec fn values_view(items: Seq<JsonValue>) -> Seq<Json> {
    items.map_values(|item: JsonValue| item@)
}

/// The models of the fields of a record.
pub open spec fn fields_view(fields: Seq<(String, JsonValue)>) -> Seq<(Seq<char>, Json)> {
    fields.map_values(|field: (String, JsonValue)| field_view(field))
}

/// The model of a list holds the models of its items.
pub broadcast proof fn list_view(items: Vec<JsonValue>)
    ensures
        #[trigger] JsonValue::List(items)@ == Json::List(values_view(items@)),
{
    assert(JsonValue::List(items)@->List_0 =~= values_view(items@));
}

/// The model of a record holds the models of its fields.
pub broadcast proof fn record_view(fields: Vec<(String, JsonValue)>)
    ensures
        #[trigger] JsonValue::Record(fields)@ == Json::Record(fields_view(fields@)),
{
    assert(JsonValue::Record(fields)@->Record_0 =~= fields_view(fields@));
}

pub broadcast group group_json_views {
    list_view,
    record_view,
}

/// An item is smaller than its list.
pub proof fn item_is_smaller(value: JsonValue, i: int)
    requires
        value is List,
        0 <= i < value->List_0@.len(),
    ensures
        decreases_to!(value => value->List_0@[i]),
{
    assert(decreases_to!(value => value->List_0));
    assert(decreases_to!(value->List_0@ => value->List_0@[i]));
}

/// The value of a field is smaller than its record.
pub proof fn field_is_smaller(value: JsonValue, i: int)
    requires
        value is Record,
        0 <= i < value->Record_0@.len(),
    ensures
        decreases_to!(value => value->Record_0@[i].1),
{
    assert(decreases_to!(value => value->Record_0));
    assert(decreases_to!(value->Record_0@ => value->Record_0@[i]));
    assert(decreases_to!(value->Record_0@[i] => value->Record_0@[i].1));
}

/// `Number::clone` of `serde_json` gives an equal number.
pub assume_specification[ <serde_json::Number as Clone>::clone ](
    number: &serde_json::Number,
) -> (copy: serde_json::Number)
    ensures
        copy == *number,
;

impl Clone for JsonValue {
    fn clone(&self) -> (copy: Self)
        ensures
            copy@ == self@,
        decreases self,
    {
        broadcast use group_json_views;

        match self {
            JsonValue::Null => JsonValue::Null,
            JsonValue::Bool(value) => JsonValue::Bool(*value),
            JsonValue::Unsigned(value) => JsonValue::Unsigned(*value),
            JsonValue::Signed(value) => JsonValue::Signed(*value),
            JsonValue::Real(number) => JsonValue::Real(number.clone()),
            JsonValue::Text(text) => JsonValue::Text(text.clone()),
            JsonValue::List(items) => {
                let mut copies: Vec<JsonValue> = Vec::new();
                let mut i: usize = 0;
                while i < items.len()
                    invariant
                        i <= items.len(),
                        copies.len() == i,
                        *self == JsonValue::List(*items),
                        forall|k: int| 0 <= k < i ==> (#[trigger] copies@[k])@ == items@[k]@,
                    decreases items.len() - i,
                {
                    proof {
                        item_is_smaller(*self, i as int);
                    }
                    copies.push(items[i].clone());
                    i += 1;
                }
                assert(values_view(copies@) =~= values_view(items@));
                JsonValue::List(copies)
            },
            JsonValue::Record(fields) => {
                let mut copies: Vec<(String, JsonValue)> = Vec::new();
                let mut i: usize = 0;
                while i < fields.len()
                    invariant
                        i <= fields.len(),
                        copies.len() == i,
                        *self == JsonValue::Record(*fields),
                        forall|k: int|
                            0 <= k < i ==> field_view(#[trigger] copies@[k]) == field_view(
                                fields@[k],
                            ),
                    decreases fields.len() - i,
                {
                    proof {
                        field_is_smaller(*self, i as int);
                    }
                    copies.push((fields[i].0.clone(), fields[i].1.clone()));
                    i += 1;
                }
                assert(fields_view(copies@) =~= fields_view(fields@));
                JsonValue::Record(copies)
            },
        }
    }
}

/// Whether `left` stands before `right` in the order of their characters.
pub open spec fn text_less(left: Seq<char>, right: Seq<char>) -> bool
    decreases left.len(),
{
    if right.len() == 0 {
        false
    } else if left.len() == 0 {
        true
    } else if left[0] == right[0] {
        text_less(left.skip(1), right.skip(1))
    } else {
        left[0] < right[0]
    }
}

/// Of two texts exactly one is smaller, or they are equal.
pub proof fn text_less_is_total(left: Seq<char>, right: Seq<char>)
    ensures
        left == right || text_less(left, right) || text_less(right, left),
        text_less(left, right) ==> !text_less(right, left) && left != right,
    decreases left.len(),
{
    if left.len() > 0 && right.len() > 0 && left[0] == right[0] {
        text_less_is_total(left.skip(1), right.skip(1));
        if left.skip(1) == right.skip(1) {
            assert(left == seq![left[0]] + left.skip(1));
            assert(right == seq![right[0]] + right.skip(1));
        }
    } else if left.len() == 0 && right.len() == 0 {
        assert(left == right);
    }
}

/// The order of texts is transitive.
pub proof fn text_less_is_transitive(first: Seq<char>, second: Seq<char>, third: Seq<char>)
    requires
        text_less(first, second),
        text_less(second, third),
    ensures
        text_less(first, third),
    decreases first.len(),
{
    if first.len() > 0 && first[0] == second[0] && second[0] == third[0] {
        text_less_is_transitive(first.skip(1), second.skip(1), third.skip(1));
    }
}

/// Whether `left` stands before `right`, as [`text_less`] says.
pub fn precedes(left: &str, right: &str) -> (less: bool)
    ensures
        less == text_less(left@, right@),
{
    let first = chars_of(left);
    let second = chars_of(right);
    let mut i: usize = 0;
    assert(first@.skip(0) == first@);
    assert(second@.skip(0) == second@);
    while i < first.len() && i < second.len()
        invariant
            i <= first.len(),
            i <= second.len(),
            text_less(left@, right@) == text_less(first@.skip(i as int), second@.skip(i as int)),
        decreases first.len() - i,
    {
        if first[i] != second[i] {
            return first[i] < second[i];
        }
        assert(first@.skip(i as int).skip(1) == first@.skip(i + 1));
        assert(second@.skip(i as int).skip(1) == second@.skip(i + 1));
        i += 1;
    }
    i < second.len()
}

/// Whether the keys of a record strictly increase.
pub open spec fn keys_ascend(fields: Seq<(Seq<char>, Json)>) -> bool {
    forall|i: int, j: int|
        0 <= i < j < fields.len() ==> text_less(#[trigger] fields[i].0, #[trigger] fields[j].0)
}

/// The value of the first field named `key`.
pub open spec fn field_of(fields: Seq<(Seq<char>, Json)>, key: Seq<char>) -> Option<Json>
    decreases fields.len(),
{
    if fields.len() == 0 {
        None
    } else if fields[0].0 == key {
        Some(fields[0].1)
    } else {
        field_of(fields.skip(1), key)
    }
}

/// The fields after `key` is set to `value`: in place where the key is there, else in key order.
pub open spec fn with_field(
    fields: Seq<(Seq<char>, Json)>,
    key: Seq<char>,
    value: Json,
) -> Seq<(Seq<char>, Json)>
    decreases fields.len(),
{
    if fields.len() == 0 {
        seq![(key, value)]
    } else if fields[0].0 == key {
        seq![(key, value)] + fields.skip(1)
    } else if text_less(key, fields[0].0) {
        seq![(key, value)] + fields
    } else {
        seq![fields[0]] + with_field(fields.skip(1), key, value)
    }
}

/// The fields without the first one named `key`.
pub open spec fn without_field(fields: Seq<(Seq<char>, Json)>, key: Seq<char>) -> Seq<
    (Seq<char>, Json),
>
    decreases fields.len(),
{
    if fields.len() == 0 {
        fields
    } else if fields[0].0 == key {
        fields.skip(1)
    } else {
        seq![fields[0]] + without_field(fields.skip(1), key)
    }
}

/// A field reads back as it was set, and no other field changes.
pub proof fn set_field_reads_back(
    fields: Seq<(Seq<char>, Json)>,
    key: Seq<char>,
    value: Json,
    other: Seq<char>,
)
    ensures
        field_of(with_field(fields, key, value), key) == Some(value),
        other != key ==> field_of(with_field(fields, key, value), other) == field_of(fields, other),
    decreases fields.len(),
{
    let result = with_field(fields, key, value);
    if fields.len() == 0 {
        assert(result.skip(1) == fields);
    } else if fields[0].0 == key {
        assert(result.skip(1) == fields.skip(1));
    } else if text_less(key, fields[0].0) {
        assert(result.skip(1) == fields);
    } else {
        set_field_reads_back(fields.skip(1), key, value, other);
        assert(result.skip(1) == with_field(fields.skip(1), key, value));
    }
}

/// Setting a field keeps the keys in ascending order.
pub proof fn set_field_keeps_order(fields: Seq<(Seq<char>, Json)>, key: Seq<char>, value: Json)
    requires
        keys_ascend(fields),
    ensures
        keys_ascend(with_field(fields, key, value)),
        forall|i: int|
            0 <= i < with_field(fields, key, value).len() ==> (#[trigger] with_field(
                fields,
                key,
                value,
            )[i].0 == key || exists|j: int|
                0 <= j < fields.len() && fields[j].0 == with_field(fields, key, value)[i].0),
    decreases fields.len(),
{
    let result = with_field(fields, key, value);
    if fields.len() == 0 {
    } else if fields[0].0 == key {
        assert forall|i: int| 0 < i < result.len() implies result[i] == fields[i] by {}
        assert forall|i: int| 0 <= i < result.len() implies (#[trigger] result[i].0) == key
            || exists|j: int| 0 <= j < fields.len() && fields[j].0 == result[i].0 by {
            assert(fields[i].0 == result[i].0);
        }
    } else if text_less(key, fields[0].0) {
        assert forall|i: int| 0 < i < result.len() implies result[i] == fields[i - 1] by {}
        assert forall|j: int| 0 < j < result.len() implies text_less(key, #[trigger] result[j].0) by {
            if j > 1 {
                text_less_is_transitive(key, fields[0].0, fields[j - 1].0);
            }
        }
        assert forall|i: int| 0 <= i < result.len() implies (#[trigger] result[i].0) == key
            || exists|j: int| 0 <= j < fields.len() && fields[j].0 == result[i].0 by {
            if i > 0 {
                assert(fields[i - 1].0 == result[i].0);
            }
        }
    } else {
        let rest = with_field(fields.skip(1), key, value);
        assert(keys_ascend(fields.skip(1)));
        set_field_keeps_order(fields.skip(1), key, value);
        text_less_is_total(key, fields[0].0);
        assert forall|i: int| 0 < i < result.len() implies result[i] == rest[i - 1] by {}
        assert forall|j: int| 0 < j < result.len() implies text_less(
            fields[0].0,
            #[trigger] result[j].0,
        ) by {
            assert(rest[j - 1].0 == key || exists|k: int|
                0 <= k < fields.skip(1).len() && fields.skip(1)[k].0 == rest[j - 1].0);
            if rest[j - 1].0 != key {
                let k = choose|k: int|
                    0 <= k < fields.skip(1).len() && fields.skip(1)[k].0 == rest[j - 1].0;
                assert(fields[k + 1].0 == rest[j - 1].0);
            }
        }
        assert forall|i: int| 0 <= i < result.len() implies (#[trigger] result[i].0) == key
            || exists|j: int| 0 <= j < fields.len() && fields[j].0 == result[i].0 by {
            if i > 0 && result[i].0 != key {
                assert(rest[i - 1].0 == result[i].0);
                let k = choose|k: int|
                    0 <= k < fields.skip(1).len() && fields.skip(1)[k].0 == rest[i - 1].0;
                assert(fields[k + 1].0 == result[i].0);
            } else if i == 0 {
                assert(fields[0].0 == result[0].0);
            }
        }
    }
}

proof fn with_field_skips(
    fields: Seq<(Seq<char>, Json)>,
    key: Seq<char>,
    value: Json,
    at: int,
)
    requires
        0 <= at <= fields.len(),
        forall|k: int|
            0 <= k < at ==> (#[trigger] fields[k]).0 != key && !text_less(key, fields[k].0),
    ensures
        with_field(fields, key, value) == fields.take(at) + with_field(fields.skip(at), key, value),
    decreases at,
{
    if at == 0 {
        assert(fields.skip(0) == fields);
        assert(fields.take(0) + with_field(fields, key, value) == with_field(fields, key, value));
    } else {
        let rest = fields.skip(1);
        assert forall|k: int| 0 <= k < at - 1 implies (#[trigger] rest[k]).0 != key && !text_less(
            key,
            rest[k].0,
        ) by {
            assert(rest[k] == fields[k + 1]);
        }
        with_field_skips(rest, key, value, at - 1);
        assert(fields[0].0 != key);
        assert(rest.skip(at - 1) == fields.skip(at));
        assert(seq![fields[0]] + (rest.take(at - 1) + with_field(fields.skip(at), key, value))
            == fields.take(at) + with_field(fields.skip(at), key, value));
    }
}

proof fn without_field_skips(fields: Seq<(Seq<char>, Json)>, key: Seq<char>, at: int)
    requires
        0 <= at <= fields.len(),
        forall|k: int| 0 <= k < at ==> (#[trigger] fields[k]).0 != key,
    ensures
        without_field(fields, key) == fields.take(at) + without_field(fields.skip(at), key),
        field_of(fields, key) == field_of(fields.skip(at), key),
    decreases at,
{
    if at == 0 {
        assert(fields.skip(0) == fields);
        assert(fields.take(0) + without_field(fields, key) == without_field(fields, key));
    } else {
        let rest = fields.skip(1);
        assert forall|k: int| 0 <= k < at - 1 implies (#[trigger] rest[k]).0 != key by {
            assert(rest[k] == fields[k + 1]);
        }
        without_field_skips(rest, key, at - 1);
        assert(fields[0].0 != key);
        assert(rest.skip(at - 1) == fields.skip(at));
        assert(seq![fields[0]] + (rest.take(at - 1) + without_field(fields.skip(at), key))
            == fields.take(at) + without_field(fields.skip(at), key));
    }
}

/// Sets a field of a record.
pub fn set_field(fields: &mut Vec<(String, JsonValue)>, key: String, value: JsonValue)
    ensures
        fields_view(final(fields)@) == with_field(fields_view(old(fields)@), key@, value@),
{
    let ghost before = fields_view(fields@);
    let mut at: usize = 0;
    while at < fields.len() && !same_text(fields[at].0.as_str(), key.as_str()) && !precedes(
        key.as_str(),
        fields[at].0.as_str(),
    )
        invariant
            at <= fields.len(),
            before == fields_view(fields@),
            forall|k: int|
                0 <= k < at ==> (#[trigger] before[k]).0 != key@ && !text_less(key@, before[k].0),
        decreases fields.len() - at,
    {
        assert(before[at as int].0 == fields@[at as int].0@);
        at += 1;
    }
    proof {
        with_field_skips(before, key@, value@, at as int);
        if at < fields.len() {
            assert(before.skip(at as int)[0] == before[at as int]);
            assert(before[at as int].0 == fields@[at as int].0@);
        }
    }
    let replaces = at < fields.len() && same_text(fields[at].0.as_str(), key.as_str());
    let ghost rest = before.skip(at as int);
    if replaces {
        fields.set(at, (key, value));
        assert(fields_view(fields@) == before.take(at as int) + (seq![(key@, value@)]
            + rest.skip(1)));
    } else {
        fields.insert(at, (key, value));
        assert(fields_view(fields@) == before.take(at as int) + (seq![(key@, value@)] + rest));
        assert(rest.len() == 0 ==> seq![(key@, value@)] + rest == seq![(key@, value@)]);
    }
}

/// Finds a field of a record.
pub fn find_field<'a>(fields: &'a Vec<(String, JsonValue)>, key: &str) -> (found: Option<
    &'a JsonValue,
>)
    ensures
        match found {
            Some(value) => field_of(fields_view(fields@), key@) == Some(value@),
            None => field_of(fields_view(fields@), key@) is None,
        },
{
    let ghost model = fields_view(fields@);
    let mut at: usize = 0;
    while at < fields.len()
        invariant
            at <= fields.len(),
            model == fields_view(fields@),
            forall|k: int| 0 <= k < at ==> (#[trigger] model[k]).0 != key@,
        decreases fields.len() - at,
    {
        assert(model[at as int] == field_view(fields@[at as int]));
        if same_text(fields[at].0.as_str(), key) {
            proof {
                without_field_skips(model, key@, at as int);
                assert(model.skip(at as int)[0] == model[at as int]);
            }
            return Some(&fields[at].1);
        }
        at += 1;
    }
    proof {
        without_field_skips(model, key@, at as int);
        assert(model.skip(at as int).len() == 0);
    }
    None
}

/// Takes a field out of a record.
pub fn take_field(fields: &mut Vec<(String, JsonValue)>, key: &str) -> (taken: Option<JsonValue>)
    ensures
        fields_view(final(fields)@) == without_field(fields_view(old(fields)@), key@),
        match taken {
            Some(value) => field_of(fields_view(old(fields)@), key@) == Some(value@),
            None => field_of(fields_view(old(fields)@), key@) is None,
        },
{
    let ghost model = fields_view(fields@);
    let mut at: usize = 0;
    while at < fields.len()
        invariant
            at <= fields.len(),
            model == fields_view(fields@),
            fields@ == old(fields)@,
            forall|k: int| 0 <= k < at ==> (#[trigger] model[k]).0 != key@,
        decreases fields.len() - at,
    {
        assert(model[at as int] == field_view(fields@[at as int]));
        if same_text(fields[at].0.as_str(), key) {
            let field = fields.remove(at);
            proof {
                without_field_skips(model, key@, at as int);
                assert(model.skip(at as int)[0] == model[at as int]);
                assert(fields_view(fields@) == model.take(at as int) + model.skip(at as int).skip(
                    1,
                ));
            }
            return Some(field.1);
        }
        at += 1;
    }
    proof {
        without_field_skips(model, key@, at as int);
        assert(model.skip(at as int).len() == 0);
        assert(model.take(at as int) + model.skip(at as int) == model);
    }
    None
}

/// The fields gathered into a record one after another: a later field of the same key wins.
pub open spec fn gathered(fields: Seq<(Seq<char>, Json)>) -> Seq<(Seq<char>, Json)>
    decreases fields.len(),
{
    if fields.len() == 0 {
        fields
    } else {
        with_field(gathered(fields.drop_last()), fields.last().0, fields.last().1)
    }
}

/// Where a field of a name stands last among fields, it is the one that stays.
pub proof fn gathered_keeps_last(fields: Seq<(Seq<char>, Json)>, at: int)
    requires
        0 <= at < fields.len(),
        forall|i: int| at < i < fields.len() ==> (#[trigger] fields[i]).0 != fields[at].0,
    ensures
        field_of(gathered(fields), fields[at].0) == Some(fields[at].1),
    decreases fields.len(),
{
    let fewer = fields.drop_last();
    let last = fields.last();
    set_field_reads_back(gathered(fewer), last.0, last.1, fields[at].0);
    if at < fields.len() - 1 {
        assert(fields[fields.len() - 1].0 != fields[at].0);
        assert(fewer[at] == fields[at]);
        assert forall|i: int| at < i < fewer.len() implies (#[trigger] fewer[i]).0 != fewer[at].0 by {
            assert(fewer[i] == fields[i]);
        }
        gathered_keeps_last(fewer, at);
    }
}

/// A field that is found stands somewhere.
pub proof fn found_fields_stand(fields: Seq<(Seq<char>, Json)>, key: Seq<char>) -> (at: int)
    requires
        field_of(fields, key) is Some,
    ensures
        0 <= at < fields.len(),
        fields[at] == (key, field_of(fields, key)->0),
    decreases fields.len(),
{
    if fields[0].0 == key {
        0
    } else {
        1 + found_fields_stand(fields.skip(1), key)
    }
}

/// The value with the fields of every record in key order, each key once.
pub open spec fn canonical(value: Json) -> Json
    decreases value,
{
    match value {
        Json::List(items) => Json::List(canonical_items(items)),
        Json::Record(fields) => Json::Record(gathered(canonical_fields(fields))),
        _ => value,
    }
}

/// The items, each in canonical form.
pub open spec fn canonical_items(items: Seq<Json>) -> Seq<Json>
    decreases items,
{
    if items.len() == 0 {
        items
    } else {
        canonical_items(items.drop_last()).push(canonical(items.last()))
    }
}

/// The fields, each with its value in canonical form.
pub open spec fn canonical_fields(fields: Seq<(Seq<char>, Json)>) -> Seq<(Seq<char>, Json)>
    decreases fields,
{
    if fields.len() == 0 {
        fields
    } else {
        canonical_fields(fields.drop_last()).push((fields.last().0, canonical(fields.last().1)))
    }
}

/// Whether the keys of every record in the value ascend.
pub open spec fn ordered(value: Json) -> bool
    decreases value,
{
    match value {
        Json::List(items) => all_ordered(items),
        Json::Record(fields) => keys_ascend(fields) && fields_ordered(fields),
        _ => true,
    }
}

/// Whether every item is ordered.
pub open spec fn all_ordered(items: Seq<Json>) -> bool
    decreases items,
{
    items.len() == 0 || (all_ordered(items.drop_last()) && ordered(items.last()))
}

/// Whether every field value is ordered.
pub open spec fn fields_ordered(fields: Seq<(Seq<char>, Json)>) -> bool
    decreases fields,
{
    fields.len() == 0 || (fields_ordered(fields.drop_last()) && ordered(fields.last().1))
}

proof fn append_greatest(fields: Seq<(Seq<char>, Json)>, key: Seq<char>, value: Json)
    requires
        forall|i: int| 0 <= i < fields.len() ==> text_less(#[trigger] fields[i].0, key),
    ensures
        with_field(fields, key, value) == fields.push((key, value)),
    decreases fields.len(),
{
    if fields.len() > 0 {
        text_less_is_total(fields[0].0, key);
        assert forall|i: int| 0 <= i < fields.skip(1).len() implies text_less(
            #[trigger] fields.skip(1)[i].0,
            key,
        ) by {
            assert(fields.skip(1)[i] == fields[i + 1]);
        }
        append_greatest(fields.skip(1), key, value);
    }
}

/// Fields with ascending keys gather to themselves.
pub proof fn gathered_ascending(fields: Seq<(Seq<char>, Json)>)
    requires
        keys_ascend(fields),
    ensures
        gathered(fields) == fields,
    decreases fields.len(),
{
    if fields.len() > 0 {
        gathered_ascending(fields.drop_last());
        append_greatest(fields.drop_last(), fields.last().0, fields.last().1);
        assert(fields.drop_last().push(fields.last()) == fields);
    }
}

/// Gathered keys ascend.
pub proof fn gathered_keys_ascend(fields: Seq<(Seq<char>, Json)>)
    ensures
        keys_ascend(gathered(fields)),
    decreases fields.len(),
{
    if fields.len() > 0 {
        gathered_keys_ascend(fields.drop_last());
        set_field_keeps_order(gathered(fields.drop_last()), fields.last().0, fields.last().1);
    }
}

/// An ordered value is its own canonical form.
pub proof fn canonical_of_ordered(value: Json)
    requires
        ordered(value),
    ensures
        canonical(value) == value,
    decreases value,
{
    match value {
        Json::List(items) => {
            canonical_of_ordered_items(items);
        },
        Json::Record(fields) => {
            canonical_of_ordered_fields(fields);
            gathered_ascending(fields);
        },
        _ => {},
    }
}

proof fn canonical_of_ordered_items(items: Seq<Json>)
    requires
        all_ordered(items),
    ensures
        canonical_items(items) == items,
    decreases items,
{
    if items.len() > 0 {
        canonical_of_ordered_items(items.drop_last());
        canonical_of_ordered(items.last());
        assert(items.drop_last().push(items.last()) == items);
    }
}

proof fn canonical_of_ordered_fields(fields: Seq<(Seq<char>, Json)>)
    requires
        fields_ordered(fields),
    ensures
        canonical_fields(fields) == fields,
    decreases fields,
{
    if fields.len() > 0 {
        canonical_of_ordered_fields(fields.drop_last());
        assert(decreases_to!(fields => fields.last()));
        assert(decreases_to!(fields.last() => fields.last().1));
        canonical_of_ordered(fields.last().1);
        assert(fields.drop_last().push(fields.last()) == fields);
    }
}

/// A named value.
pub fn field(key: &str, value: JsonValue) -> (named: (String, JsonValue))
    ensures
        field_view(named) == (key@, value@),
{
    (key.to_owned(), value)
}

/// Adds a field behind others.
pub fn push_field(fields: &mut Vec<(String, JsonValue)>, name: &str, value: JsonValue)
    ensures
        fields_view(final(fields)@) == fields_view(old(fields)@).push((name@, value@)),
{
    fields.push(field(name, value));
    assert(fields_view(fields@) =~= fields_view(old(fields)@).push((name@, value@)));
}

/// No fields.
pub fn no_fields() -> (fields: Vec<(String, JsonValue)>)
    ensures
        fields_view(fields@) == Seq::<(Seq<char>, Json)>::empty(),
{
    let fields: Vec<(String, JsonValue)> = Vec::new();
    assert(fields_view(fields@) =~= Seq::<(Seq<char>, Json)>::empty());
    fields
}

/// A text value.
pub fn text_value(text: &str) -> (value: JsonValue)
    ensures
        value@ == Json::Text(text@),
{
    JsonValue::Text(text.to_owned())
}

/// The model of an optional text: null where there is none.
pub open spec fn text_or_null(text: Option<Seq<char>>) -> Json {
    match text {
        Some(text) => Json::Text(text),
        None => Json::Null,
    }
}

/// An optional text, null where there is none.
pub fn optional_value(text: &Option<String>) -> (value: JsonValue)
    ensures
        value@ == text_or_null(optional_text(*text)),
{
    match text {
        Some(text) => JsonValue::Text(text.clone()),
        None => JsonValue::Null,
    }
}

/// A list of text values.
pub fn text_list(texts: &Vec<String>) -> (value: JsonValue)
    ensures
        value@ == Json::List(texts_view(texts@).map_values(|text: Seq<char>| Json::Text(text))),
{
    broadcast use group_json_views;

    let mut items: Vec<JsonValue> = Vec::new();
    let mut i: usize = 0;
    while i < texts.len()
        invariant
            i <= texts.len(),
            items.len() == i,
            forall|k: int| 0 <= k < i ==> (#[trigger] items@[k])@ == Json::Text(texts@[k]@),
        decreases texts.len() - i,
    {
        items.push(JsonValue::Text(texts[i].clone()));
        i += 1;
    }
    assert(values_view(items@) == texts_view(texts@).map_values(
        |text: Seq<char>| Json::Text(text),
    ));
    JsonValue::List(items)
}

/// A record of the given fields, in key order.
pub fn record_of(fields: Vec<(String, JsonValue)>) -> (value: JsonValue)
    ensures
        value@ == Json::Record(gathered(fields_view(fields@))),
{
    broadcast use group_json_views;

    let ghost all = fields@;
    let mut record: Vec<(String, JsonValue)> = Vec::new();
    for named in it: fields
        invariant
            it.seq() == all,
            fields_view(record@) == gathered(fields_view(all).take(it.index())),
    {
        let (key, value) = named;
        proof {
            let taken = fields_view(all).take(it.index() + 1);
            assert(taken.drop_last() == fields_view(all).take(it.index()));
            assert(taken.last() == field_view(all[it.index()]));
        }
        set_field(&mut record, key, value);
    }
    assert(fields_view(all).take(all.len() as int) == fields_view(all));
    JsonValue::Record(record)
}

/// How deep lists and records nest in a value.
pub open spec fn depth(value: Json) -> nat
    decreases value,
{
    match value {
        Json::List(items) => 1 + list_depth(items),
        Json::Record(fields) => 1 + record_depth(fields),
        _ => 0,
    }
}

/// The greatest depth among items.
pub open spec fn list_depth(items: Seq<Json>) -> nat
    decreases items,
{
    if items.len() == 0 {
        0
    } else {
        let rest = list_depth(items.drop_last());
        let last = depth(items.last());
        if rest < last {
            last
        } else {
            rest
        }
    }
}

/// The greatest depth among field values.
pub open spec fn record_depth(fields: Seq<(Seq<char>, Json)>) -> nat
    decreases fields,
{
    if fields.len() == 0 {
        0
    } else {
        let rest = record_depth(fields.drop_last());
        let last = depth(fields.last().1);
        if rest < last {
            last
        } else {
            rest
        }
    }
}

/// Taking a field out leaves the others; the field itself is gone where no other has its name.
pub proof fn removed_fields_are_gone(
    fields: Seq<(Seq<char>, Json)>,
    key: Seq<char>,
    other: Seq<char>,
)
    ensures
        other != key ==> field_of(without_field(fields, key), other) == field_of(fields, other),
        field_of(fields, key) is None ==> without_field(fields, key) == fields,
        field_of(fields, key) is Some ==> without_field(fields, key).len() == fields.len() - 1,
        (forall|i: int, j: int|
            0 <= i < j < fields.len() ==> (#[trigger] fields[i]).0 != (#[trigger] fields[j]).0)
            ==> field_of(without_field(fields, key), key) is None,
    decreases fields.len(),
{
    let result = without_field(fields, key);
    if fields.len() > 0 {
        let rest = fields.skip(1);
        removed_fields_are_gone(rest, key, other);
        if fields[0].0 != key {
            assert(result.skip(1) =~= without_field(rest, key));
            assert(seq![fields[0]] + rest =~= fields);
        }
        if forall|i: int, j: int|
            0 <= i < j < fields.len() ==> (#[trigger] fields[i]).0 != (#[trigger] fields[j]).0 {
            assert forall|i: int, j: int| 0 <= i < j < rest.len() implies (#[trigger] rest[i]).0
                != (#[trigger] rest[j]).0 by {
                assert(rest[i] == fields[i + 1] && rest[j] == fields[j + 1]);
            }
            if fields[0].0 == key {
                assert forall|j: int| 0 <= j < rest.len() implies (#[trigger] rest[j]).0 != key by {
                    assert(rest[j] == fields[j + 1]);
                    assert(fields[0].0 != fields[j + 1].0);
                }
                if field_of(rest, key) is Some {
                    let at = found_fields_stand(rest, key);
                    assert(rest[at].0 == key);
                }
            }
        }
    }
}

/// A field that is set reads back, one that is taken is handed out, and the others stay.
pub proof fn fields_are_set_and_taken(
    set: &mut Vec<(String, JsonValue)>,
    key: String,
    value: JsonValue,
    from: &mut Vec<(String, JsonValue)>,
    name: &str,
    taken: Option<JsonValue>,
    other: Seq<char>,
)
    requires
        call_ensures(set_field, (set, key, value), ()),
        call_ensures(take_field, (from, name), taken),
    ensures
        field_of(fields_view(final(set)@), key@) == Some(value@),
        other != key@ ==> field_of(fields_view(final(set)@), other) == field_of(
            fields_view(old(set)@),
            other,
        ),
        taken is Some <==> field_of(fields_view(old(from)@), name@) is Some,
        taken is Some ==> field_of(fields_view(old(from)@), name@) == Some(taken->0@),
        other != name@ ==> field_of(fields_view(final(from)@), other) == field_of(
            fields_view(old(from)@),
            other,
        ),
        taken is None ==> fields_view(final(from)@) == fields_view(old(from)@),
{
    set_field_reads_back(fields_view(old(set)@), key@, value@, other);
    removed_fields_are_gone(fields_view(old(from)@), name@, other);
}

/// A field is found by its name, the first that has it.
pub proof fn the_first_field_of_a_name_is_found(
    fields: Seq<(Seq<char>, Json)>,
    key: Seq<char>,
    at: int,
)
    requires
        0 <= at <= fields.len(),
        forall|i: int| 0 <= i < at ==> (#[trigger] fields[i]).0 != key,
    ensures
        at == fields.len() ==> field_of(fields, key) is None,
        at < fields.len() && fields[at].0 == key ==> field_of(fields, key) == Some(fields[at].1),
    decreases at,
{
    if at > 0 {
        assert(fields[0].0 != key);
        let rest = fields.skip(1);
        assert forall|i: int| 0 <= i < at - 1 implies (#[trigger] rest[i]).0 != key by {
            assert(rest[i] == fields[i + 1]);
        }
        the_first_field_of_a_name_is_found(rest, key, at - 1);
    }
}

} // verus!
