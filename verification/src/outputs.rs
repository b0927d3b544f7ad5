//! Outputs of steps: how values that use them are resolved, and how a new one is stored.

use crate::codec::{json_text, write_json};
use crate::json::{
    canonical, field_is_smaller, field_of, fields_view, group_json_views, item_is_smaller,
    set_field_reads_back, values_view, with_field, Json, JsonValue,
};
use crate::report::FailureCategory;
use crate::secrets::{in_order, registering_keeps_order, with_secret};
use crate::step_error::{plain_error, StepError};
use crate::text::{quote, quoted};
use crate::values::{
    any_secret, long_enough, resolved_text, with_long_secret, Outputs, Redactor, Resolved,
    RuntimeValue, MAX_RUNTIME_VALUE_BYTES,
};
use vstd::prelude::*;
use vstd::string::*;
use vstd::utf8::*;

verus! {

/// What is told of an output that is missing.
pub open spec fn missing_output_text(name: Seq<char>) -> Seq<char> {
    "runtime output "@ + quoted(name) + " is unavailable"@
}

/// What is told of an output that is missing.
pub fn missing_output(name: &str) -> (text: String)
    ensures
        text@ == missing_output_text(name@),
{
    let mut text = "runtime output ".to_owned();
    let shown = quote(name);
    text.append(shown.as_str());
    text.append(" is unavailable");
    text
}

/// Puts a value together, or says which output it lacks.
pub fn resolve_runtime(value: &RuntimeValue, outputs: &Outputs) -> (result: Result<
    Resolved<String>,
    StepError,
>)
    ensures
        match result {
            Ok(resolved) => {
                &&& resolved_text(value.parts@, outputs@) == Ok::<Seq<char>, Seq<char>>(
                    resolved.value@,
                )
                &&& resolved.secret == any_secret(value.parts@)
            },
            Err(error) => resolved_text(value.parts@, outputs@) is Err && plain_error(
                error,
                FailureCategory::Protocol,
                missing_output_text(resolved_text(value.parts@, outputs@)->Err_0),
            ),
        },
{
    match value.resolve(outputs) {
        Ok(resolved) => Ok(resolved),
        Err(name) => {
            let message = missing_output(name.as_str());
            Err(StepError::new(FailureCategory::Protocol, message.as_str()))
        },
    }
}

/// The texts inside a value, in their order. Keys are not among them.
pub open spec fn texts_in(value: Json) -> Seq<Seq<char>>
    decreases value,
{
    match value {
        Json::Text(text) => seq![text],
        Json::List(items) => texts_in_items(items),
        Json::Record(fields) => texts_in_fields(fields),
        _ => Seq::empty(),
    }
}

/// The texts inside items.
pub open spec fn texts_in_items(items: Seq<Json>) -> Seq<Seq<char>>
    decreases items,
{
    if items.len() == 0 {
        Seq::empty()
    } else {
        texts_in_items(items.drop_last()) + texts_in(items.last())
    }
}

/// The texts inside the values of fields.
pub open spec fn texts_in_fields(fields: Seq<(Seq<char>, Json)>) -> Seq<Seq<char>>
    decreases fields,
{
    if fields.len() == 0 {
        Seq::empty()
    } else {
        texts_in_fields(fields.drop_last()) + texts_in(fields.last().1)
    }
}

/// The secrets once each of the texts that is long enough is one of them.
pub open spec fn with_long_secrets(
    secrets: Seq<Seq<char>>,
    texts: Seq<Seq<char>>,
) -> Seq<Seq<char>>
    decreases texts.len(),
{
    if texts.len() == 0 {
        secrets
    } else {
        with_long_secret(with_long_secrets(secrets, texts.drop_last()), texts.last())
    }
}

proof fn long_secrets_in_turn(
    secrets: Seq<Seq<char>>,
    first: Seq<Seq<char>>,
    second: Seq<Seq<char>>,
)
    ensures
        with_long_secrets(secrets, first + second) == with_long_secrets(
            with_long_secrets(secrets, first),
            second,
        ),
    decreases second.len(),
{
    if second.len() == 0 {
        assert(first + second == first);
    } else {
        assert((first + second).drop_last() == first + second.drop_last());
        long_secrets_in_turn(secrets, first, second.drop_last());
    }
}

/// Makes every text inside a value a secret, unless it is too short.
pub fn register_string_secrets(redactor: &mut Redactor, value: &JsonValue)
    ensures
        final(redactor).secrets@ == with_long_secrets(old(redactor).secrets@, texts_in(value@)),
    decreases value,
{
    broadcast use group_json_views;

    let ghost before = redactor.secrets@;
    match value {
        JsonValue::Text(text) => {
            redactor.add_secret(text.as_str());
            assert(seq![text@].drop_last() == Seq::<Seq<char>>::empty());
            assert(with_long_secrets(before, Seq::empty()) == before);
        },
        JsonValue::List(items) => {
            let mut i: usize = 0;
            assert(values_view(items@).take(0) == Seq::<Json>::empty());
            while i < items.len()
                invariant
                    i <= items.len(),
                    *value == JsonValue::List(*items),
                    redactor.secrets@ == with_long_secrets(
                        before,
                        texts_in_items(values_view(items@).take(i as int)),
                    ),
                decreases items.len() - i,
            {
                proof {
                    item_is_smaller(*value, i as int);
                    let taken = values_view(items@).take(i + 1);
                    assert(taken.drop_last() == values_view(items@).take(i as int));
                    assert(taken.last() == items@[i as int]@);
                    long_secrets_in_turn(
                        before,
                        texts_in_items(taken.drop_last()),
                        texts_in(taken.last()),
                    );
                }
                register_string_secrets(redactor, &items[i]);
                i += 1;
            }
            assert(values_view(items@).take(i as int) == values_view(items@));
        },
        JsonValue::Record(fields) => {
            let mut i: usize = 0;
            assert(fields_view(fields@).take(0) == Seq::<(Seq<char>, Json)>::empty());
            while i < fields.len()
                invariant
                    i <= fields.len(),
                    *value == JsonValue::Record(*fields),
                    redactor.secrets@ == with_long_secrets(
                        before,
                        texts_in_fields(fields_view(fields@).take(i as int)),
                    ),
                decreases fields.len() - i,
            {
                proof {
                    field_is_smaller(*value, i as int);
                    let taken = fields_view(fields@).take(i + 1);
                    assert(taken.drop_last() == fields_view(fields@).take(i as int));
                    assert(taken.last().1 == fields@[i as int].1@);
                    long_secrets_in_turn(
                        before,
                        texts_in_fields(taken.drop_last()),
                        texts_in(taken.last().1),
                    );
                }
                register_string_secrets(redactor, &fields[i].1);
                i += 1;
            }
            assert(fields_view(fields@).take(i as int) == fields_view(fields@));
        },
        _ => {},
    }
}

/// Whether the JSON text of a value is small enough to be stored.
pub open spec fn fits(value: Json) -> bool {
    encode_utf8(json_text(canonical(value))).len() <= MAX_RUNTIME_VALUE_BYTES
}

/// The secrets once an output is stored: its JSON text, unless it is a text that is too short,
/// then every text inside it.
pub open spec fn with_output_secrets(secrets: Seq<Seq<char>>, value: Json) -> Seq<Seq<char>> {
    let known = match value {
        Json::Text(text) => if long_enough(text) {
            with_long_secret(secrets, json_text(canonical(value)))
        } else {
            secrets
        },
        _ => with_long_secret(secrets, json_text(canonical(value))),
    };
    with_long_secrets(known, texts_in(value))
}

/// Stores an output and makes its texts secret. One that is too large changes nothing.
pub fn store_output(
    outputs: &mut Outputs,
    redactor: &mut Redactor,
    name: &str,
    value: JsonValue,
) -> (result: Result<(), StepError>)
    ensures
        match result {
            Ok(_) => {
                &&& fits(value@)
                &&& final(outputs)@ == with_field(old(outputs)@, name@, value@)
                &&& final(redactor).secrets@ == with_output_secrets(
                    old(redactor).secrets@,
                    value@,
                )
            },
            Err(error) => {
                &&& !fits(value@)
                &&& plain_error(
                    error,
                    FailureCategory::Protocol,
                    "runtime output exceeds the runtime value size limit"@,
                )
                &&& *final(outputs) == *old(outputs)
                &&& *final(redactor) == *old(redactor)
            },
        },
{
    let serialized = write_json(&value);
    if serialized.as_str().as_bytes().len() > MAX_RUNTIME_VALUE_BYTES {
        return Err(
            StepError::new(
                FailureCategory::Protocol,
                "runtime output exceeds the runtime value size limit",
            ),
        );
    }
    let bare_text: Option<&str> = match &value {
        JsonValue::Text(text) => Some(text.as_str()),
        _ => None,
    };
    redactor.add_serialized_secret(serialized.as_str(), bare_text);
    register_string_secrets(redactor, &value);
    outputs.insert(name.to_owned(), value);
    Ok(())
}

proof fn long_secrets_are_known(secrets: Seq<Seq<char>>, texts: Seq<Seq<char>>, i: int)
    requires
        in_order(secrets),
    ensures
        in_order(with_long_secrets(secrets, texts)),
        forall|known: Seq<char>|
            secrets.contains(known) ==> #[trigger] with_long_secrets(secrets, texts).contains(known),
        0 <= i < texts.len() && texts[i].len() >= 4 ==> with_long_secrets(secrets, texts).contains(
            texts[i],
        ),
    decreases texts.len(),
{
    if texts.len() > 0 {
        let fewer = texts.drop_last();
        long_secrets_are_known(secrets, fewer, i);
        let before = with_long_secrets(secrets, fewer);
        if long_enough(texts.last()) {
            registering_keeps_order(before, texts.last());
        }
        if 0 <= i < fewer.len() {
            assert(fewer[i] == texts[i]);
        }
    }
}

/// Whether a text stands in a value, outside of its keys.
pub open spec fn holds_string(value: Json, text: Seq<char>) -> bool
    decreases value,
{
    match value {
        Json::Text(held) => held == text,
        Json::List(items) => exists|i: int|
            0 <= i < items.len() && holds_string(#[trigger] items[i], text),
        Json::Record(fields) => exists|i: int|
            0 <= i < fields.len() && holds_string((#[trigger] fields[i]).1, text),
        _ => false,
    }
}

/// Once an output is stored, every text in it that is long enough is kept from view, and so is its JSON text,
/// and nothing that was kept from view before is shown.
pub proof fn stored_outputs_are_kept_from_view(
    secrets: Seq<Seq<char>>,
    value: Json,
    text: Seq<char>,
    known: Seq<char>,
)
    requires
        in_order(secrets),
    ensures
        holds_string(value, text) && text.len() >= 4 ==> with_output_secrets(
            secrets,
            value,
        ).contains(text),
        secrets.contains(known) ==> with_output_secrets(secrets, value).contains(known),
        !(value is Text) && json_text(canonical(value)).len() >= 4 ==> with_output_secrets(
            secrets,
            value,
        ).contains(json_text(canonical(value))),
{
    let serialized = json_text(canonical(value));
    let first = match value {
        Json::Text(bare) => if long_enough(bare) {
            with_long_secret(secrets, serialized)
        } else {
            secrets
        },
        _ => with_long_secret(secrets, serialized),
    };
    registering_keeps_order(secrets, serialized);
    assert(in_order(first));
    long_secrets_are_known(first, texts_in(value), 0);
    if holds_string(value, text) && text.len() >= 4 {
        strings_are_found(value, text);
        let i = texts_in(value).index_of(text);
        long_secrets_are_known(first, texts_in(value), i);
    }
    if !(value is Text) && serialized.len() >= 4 {
        assert(first.contains(serialized));
    }
}

proof fn strings_are_found(value: Json, text: Seq<char>)
    requires
        holds_string(value, text),
    ensures
        texts_in(value).contains(text),
    decreases value,
{
    match value {
        Json::Text(held) => {
            assert(seq![held][0] == text);
        },
        Json::List(items) => {
            let i = choose|i: int|
                0 <= i < items.len() && holds_string(#[trigger] items[i], text);
            assert(decreases_to!(value => items));
            assert(decreases_to!(items => items[i]));
            strings_are_found(items[i], text);
            items_hold_strings(items, i, text);
        },
        Json::Record(fields) => {
            let i = choose|i: int|
                0 <= i < fields.len() && holds_string((#[trigger] fields[i]).1, text);
            assert(decreases_to!(value => fields));
            assert(decreases_to!(fields => fields[i]));
            assert(decreases_to!(fields[i] => fields[i].1));
            strings_are_found(fields[i].1, text);
            fields_hold_strings(fields, i, text);
        },
        _ => {},
    }
}

proof fn items_hold_strings(items: Seq<Json>, i: int, text: Seq<char>)
    requires
        0 <= i < items.len(),
        texts_in(items[i]).contains(text),
    ensures
        texts_in_items(items).contains(text),
    decreases items.len(),
{
    let fewer = items.drop_last();
    let before = texts_in_items(fewer);
    let last = texts_in(items.last());
    if i < fewer.len() {
        items_hold_strings(fewer, i, text);
        assert((before + last)[before.index_of(text)] == text);
    } else {
        assert((before + last)[before.len() + last.index_of(text)] == text);
    }
}

proof fn fields_hold_strings(fields: Seq<(Seq<char>, Json)>, i: int, text: Seq<char>)
    requires
        0 <= i < fields.len(),
        texts_in(fields[i].1).contains(text),
    ensures
        texts_in_fields(fields).contains(text),
    decreases fields.len(),
{
    let fewer = fields.drop_last();
    let before = texts_in_fields(fewer);
    let last = texts_in(fields.last().1);
    if i < fewer.len() {
        fields_hold_strings(fewer, i, text);
        assert((before + last)[before.index_of(text)] == text);
    } else {
        assert((before + last)[before.len() + last.index_of(text)] == text);
    }
}

/// An output is stored exactly if its JSON text has at most a mebibyte.
pub proof fn outputs_are_stored_up_to_a_mebibyte(value: Json)
    ensures
        fits(value) <==> encode_utf8(json_text(canonical(value))).len() <= 1_048_576,
{
}

/// A stored output reads back, no other changes, and its texts are kept from view; one that is too large is
/// refused and changes nothing.
pub proof fn stored_outputs_read_back(
    outputs: &mut Outputs,
    redactor: &mut Redactor,
    name: &str,
    value: JsonValue,
    result: Result<(), StepError>,
    other: Seq<char>,
    text: Seq<char>,
)
    requires
        call_ensures(store_output, (outputs, redactor, name, value), result),
        in_order(old(redactor).secrets@),
    ensures
        result is Ok <==> encode_utf8(json_text(canonical(value@))).len() <= 1_048_576,
        result is Ok ==> field_of(final(outputs)@, name@) == Some(value@),
        result is Ok && other != name@ ==> field_of(final(outputs)@, other) == field_of(
            old(outputs)@,
            other,
        ),
        result is Ok && holds_string(value@, text) && text.len() >= 4
            ==> final(redactor).secrets@.contains(text),
        result is Err ==> *final(outputs) == *old(outputs) && *final(redactor) == *old(redactor)
            && result->Err_0.category is Protocol,
{
    set_field_reads_back(old(outputs)@, name@, value@, other);
    stored_outputs_are_kept_from_view(old(redactor).secrets@, value@, text, text);
}

} // verus!
