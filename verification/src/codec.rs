//! JSON text, written and read by `serde_json`.

use crate::json::{
    canonical, canonical_fields, canonical_items, depth, field_is_smaller, field_of, field_view,
    fields_view, gathered, group_json_views, item_is_smaller, number_i64, number_model, number_u64,
    values_view, Json, JsonValue,
};
use vstd::prelude::*;
use vstd::utf8::*;

verus! {

/// One level of a JSON tree of `serde_json`.
pub enum Level {
    Null,
    Bool(bool),
    Unsigned(u64),
    Signed(i64),
    Real(serde_json::Number),
    Text(String),
    List(Vec<serde_json::Value>),
    Record(Vec<(String, serde_json::Value)>),
}

/// What a JSON tree of `serde_json` holds, with the fields of each record in key order.
pub uninterp spec fn tree_contents(tree: serde_json::Value) -> Json;

/// The contents of a list of trees.
pub open spec fn trees_view(trees: Seq<serde_json::Value>) -> Seq<Json> {
    trees.map_values(|tree: serde_json::Value| tree_contents(tree))
}

/// The contents of one named tree.
pub open spec fn named_tree_view(field: (String, serde_json::Value)) -> (Seq<char>, Json) {
    (field.0@, tree_contents(field.1))
}

/// The contents of named trees.
pub open spec fn named_trees_view(fields: Seq<(String, serde_json::Value)>) -> Seq<
    (Seq<char>, Json),
> {
    fields.map_values(|field: (String, serde_json::Value)| named_tree_view(field))
}

/// What one level holds.
pub open spec fn level_view(level: Level) -> Json {
    match level {
        Level::Null => Json::Null,
        Level::Bool(value) => Json::Bool(value),
        Level::Unsigned(value) => Json::Integer(value as int),
        Level::Signed(value) => Json::Integer(value as int),
        Level::Real(number) => number_model(number),
        Level::Text(text) => Json::Text(text@),
        Level::List(items) => Json::List(trees_view(items@)),
        Level::Record(fields) => Json::Record(named_trees_view(fields@)),
    }
}

/// Builds a `serde_json::Value` out of one level. Its record collects the fields in turn into a
/// map that is kept in key order, where a later field of the same key replaces an earlier one.
#[verifier::external_body]
fn tree_of(level: Level) -> (tree: serde_json::Value)
    ensures
        tree_contents(tree) == match level_view(level) {
            Json::Record(fields) => Json::Record(gathered(fields)),
            other => other,
        },
{
    match level {
        Level::Null => serde_json::Value::Null,
        Level::Bool(value) => serde_json::Value::Bool(value),
        Level::Unsigned(value) => serde_json::Value::Number(value.into()),
        Level::Signed(value) => serde_json::Value::Number(value.into()),
        Level::Real(number) => serde_json::Value::Number(number),
        Level::Text(text) => serde_json::Value::String(text),
        Level::List(items) => serde_json::Value::Array(items),
        Level::Record(fields) => serde_json::Value::Object(fields.into_iter().collect()),
    }
}

/// Takes a `serde_json::Value` apart into one level. The map of an object hands its fields out in
/// key order.
#[verifier::external_body]
fn level_of(tree: serde_json::Value) -> (level: Level)
    ensures
        level_view(level) == tree_contents(tree),
{
    match tree {
        serde_json::Value::Null => Level::Null,
        serde_json::Value::Bool(value) => Level::Bool(value),
        serde_json::Value::Number(number) => Level::Real(number),
        serde_json::Value::String(text) => Level::Text(text),
        serde_json::Value::Array(items) => Level::List(items),
        serde_json::Value::Object(fields) => Level::Record(fields.into_iter().collect()),
    }
}

/// Calls `Number::as_u64` of `serde_json`.
#[verifier::external_body]
fn as_u64(number: &serde_json::Number) -> (value: Option<u64>)
    ensures
        value == number_u64(*number),
{
    number.as_u64()
}

/// Calls `Number::as_i64` of `serde_json`.
#[verifier::external_body]
fn as_i64(number: &serde_json::Number) -> (value: Option<i64>)
    ensures
        value == number_i64(*number),
{
    number.as_i64()
}

/// The compact text that `serde_json::to_string` writes for a JSON tree.
pub uninterp spec fn json_text(value: Json) -> Seq<char>;

/// What `serde_json::from_slice` reads from bytes: a JSON tree, or the text of its error.
pub uninterp spec fn json_parsed(bytes: Seq<u8>) -> Result<Json, Seq<char>>;

/// Whether every number in the value is an integer.
pub open spec fn integral(value: Json) -> bool
    decreases value,
{
    match value {
        Json::Real(_) => false,
        Json::List(items) => forall|i: int| 0 <= i < items.len() ==> integral(#[trigger] items[i]),
        Json::Record(fields) => forall|i: int|
            0 <= i < fields.len() ==> integral((#[trigger] fields[i]).1),
        _ => true,
    }
}

/// Whether two values are the same but for their numbers that are no integers.
pub open spec fn alike(left: Json, right: Json) -> bool
    decreases right,
{
    match (left, right) {
        (Json::Real(_), Json::Real(_)) => true,
        (Json::List(left), Json::List(right)) => {
            &&& left.len() == right.len()
            &&& forall|i: int| 0 <= i < right.len() ==> alike(left[i], #[trigger] right[i])
        },
        (Json::Record(left), Json::Record(right)) => {
            &&& left.len() == right.len()
            &&& forall|i: int|
                0 <= i < right.len() ==> left[i].0 == (#[trigger] right[i]).0 && alike(
                    left[i].1,
                    right[i].1,
                )
        },
        _ => left == right,
    }
}

/// Whether the text reads back as the value, but for the last digits of numbers that are no integers,
/// as it does where the nesting stays below the reader's limit of 128 levels.
pub open spec fn reads_back(text: Seq<char>, value: Json) -> bool {
    depth(value) < 128 ==> match json_parsed(encode_utf8(text)) {
        Ok(read) => alike(read, value),
        Err(_) => false,
    }
}

/// A value of integers that reads back is read as it is.
pub proof fn integers_read_back(text: Seq<char>, value: Json)
    requires
        reads_back(text, value),
        integral(value),
        depth(value) < 128,
    ensures
        json_parsed(encode_utf8(text)) == Ok::<Json, Seq<char>>(value),
{
    alike_integers_are_equal(json_parsed(encode_utf8(text))->Ok_0, value);
}

proof fn alike_integers_are_equal(left: Json, right: Json)
    requires
        alike(left, right),
        integral(right),
    ensures
        left == right,
    decreases right,
{
    match (left, right) {
        (Json::List(items), Json::List(others)) => {
            assert forall|i: int| 0 <= i < others.len() implies items[i] == others[i] by {
                assert(decreases_to!(right => others));
                assert(decreases_to!(others => others[i]));
                alike_integers_are_equal(items[i], others[i]);
            }
            assert(items =~= others);
        },
        (Json::Record(fields), Json::Record(others)) => {
            assert forall|i: int| 0 <= i < others.len() implies fields[i] == others[i] by {
                assert(decreases_to!(right => others));
                assert(decreases_to!(others => others[i]));
                assert(decreases_to!(others[i] => others[i].1));
                alike_integers_are_equal(fields[i].1, others[i].1);
            }
            assert(fields =~= others);
        },
        _ => {},
    }
}

/// Records that are alike hold the same integers under the same names.
pub proof fn alike_records_hold_the_same_integers(
    left: Seq<(Seq<char>, Json)>,
    right: Seq<(Seq<char>, Json)>,
    name: Seq<char>,
    number: int,
)
    requires
        alike(Json::Record(left), Json::Record(right)),
        field_of(right, name) == Some(Json::Integer(number)),
    ensures
        field_of(left, name) == Some(Json::Integer(number)),
    decreases right.len(),
{
    if right.len() > 0 {
        assert(left[0].0 == right[0].0 && alike(left[0].1, right[0].1));
        if right[0].0 != name {
            assert forall|i: int| 0 <= i < right.skip(1).len() implies left.skip(1)[i].0 == (
            #[trigger] right.skip(1)[i]).0 && alike(left.skip(1)[i].1, right.skip(1)[i].1) by {
                assert(right.skip(1)[i] == right[i + 1]);
                assert(left.skip(1)[i] == left[i + 1]);
            }
            alike_records_hold_the_same_integers(left.skip(1), right.skip(1), name, number);
        }
    }
}

/// Calls `serde_json::to_string`, which does not fail on a JSON tree. Its text is one line, and it reads
/// back as the same tree, within the limits of [`reads_back`].
#[verifier::external_body]
fn render(tree: &serde_json::Value) -> (text: String)
    ensures
        text@ == json_text(tree_contents(*tree)),
        !text@.contains('\n'),
        reads_back(text@, tree_contents(*tree)),
{
    serde_json::to_string(tree).expect("a JSON tree has a text")
}

/// Calls `serde_json::from_slice` and turns its error into text.
#[verifier::external_body]
fn parse(bytes: &[u8]) -> (parsed: Result<serde_json::Value, String>)
    ensures
        match parsed {
            Ok(tree) => json_parsed(bytes@) == Ok::<Json, Seq<char>>(tree_contents(tree)),
            Err(error) => json_parsed(bytes@) == Err::<Json, Seq<char>>(error@),
        },
{
    serde_json::from_slice(bytes).map_err(|error| error.to_string())
}

/// The value as a tree of `serde_json`.
fn to_tree(value: &JsonValue) -> (tree: serde_json::Value)
    ensures
        tree_contents(tree) == canonical(value@),
    decreases value,
{
    broadcast use group_json_views;

    match value {
        JsonValue::Null => tree_of(Level::Null),
        JsonValue::Bool(value) => tree_of(Level::Bool(*value)),
        JsonValue::Unsigned(value) => tree_of(Level::Unsigned(*value)),
        JsonValue::Signed(value) => tree_of(Level::Signed(*value)),
        JsonValue::Real(number) => tree_of(Level::Real(number.clone())),
        JsonValue::Text(text) => tree_of(Level::Text(text.clone())),
        JsonValue::List(items) => {
            let mut trees: Vec<serde_json::Value> = Vec::new();
            let mut i: usize = 0;
            while i < items.len()
                invariant
                    i <= items.len(),
                    trees.len() == i,
                    *value == JsonValue::List(*items),
                    trees_view(trees@) == canonical_items(values_view(items@).take(i as int)),
                decreases items.len() - i,
            {
                proof {
                    item_is_smaller(*value, i as int);
                    let taken = values_view(items@).take(i + 1);
                    assert(taken.drop_last() == values_view(items@).take(i as int));
                }
                let ghost before = trees@;
                trees.push(to_tree(&items[i]));
                assert(trees_view(trees@) == trees_view(before).push(
                    tree_contents(trees@[i as int]),
                ));
                i += 1;
            }
            assert(values_view(items@).take(i as int) == values_view(items@));
            tree_of(Level::List(trees))
        },
        JsonValue::Record(fields) => {
            let mut trees: Vec<(String, serde_json::Value)> = Vec::new();
            let mut i: usize = 0;
            while i < fields.len()
                invariant
                    i <= fields.len(),
                    trees.len() == i,
                    *value == JsonValue::Record(*fields),
                    named_trees_view(trees@) == canonical_fields(
                        fields_view(fields@).take(i as int),
                    ),
                decreases fields.len() - i,
            {
                proof {
                    field_is_smaller(*value, i as int);
                    let taken = fields_view(fields@).take(i + 1);
                    assert(taken.drop_last() == fields_view(fields@).take(i as int));
                    assert(taken.last() == field_view(fields@[i as int]));
                }
                let ghost before = trees@;
                trees.push((fields[i].0.clone(), to_tree(&fields[i].1)));
                assert(named_trees_view(trees@) == named_trees_view(before).push(
                    named_tree_view(trees@[i as int]),
                ));
                i += 1;
            }
            assert(fields_view(fields@).take(i as int) == fields_view(fields@));
            tree_of(Level::Record(trees))
        },
    }
}

/// The value that a tree of `serde_json` holds.
fn from_tree(tree: serde_json::Value) -> (value: JsonValue)
    ensures
        value@ == tree_contents(tree),
    decreases tree_contents(tree),
{
    broadcast use group_json_views;

    let ghost contents = tree_contents(tree);
    match level_of(tree) {
        Level::Null => JsonValue::Null,
        Level::Bool(value) => JsonValue::Bool(value),
        Level::Unsigned(value) => JsonValue::Unsigned(value),
        Level::Signed(value) => JsonValue::Signed(value),
        Level::Real(number) => {
            if let Some(value) = as_u64(&number) {
                JsonValue::Unsigned(value)
            } else if let Some(value) = as_i64(&number) {
                JsonValue::Signed(value)
            } else {
                JsonValue::Real(number)
            }
        },
        Level::Text(text) => JsonValue::Text(text),
        Level::List(items) => {
            let ghost all = items@;
            let mut values: Vec<JsonValue> = Vec::new();
            for item in it: items
                invariant
                    contents == tree_contents(tree),
                    contents == Json::List(trees_view(all)),
                    it.seq() == all,
                    values.len() == it.index(),
                    forall|k: int|
                        0 <= k < values.len() ==> (#[trigger] values@[k])@ == tree_contents(all[k]),
            {
                let ghost at = values.len() as int;
                proof {
                    assert(trees_view(all)[at] == tree_contents(all[at]));
                    assert(decreases_to!(contents => contents->List_0));
                    assert(decreases_to!(contents->List_0 => contents->List_0[at]));
                }
                values.push(from_tree(item));
            }
            assert(values_view(values@) == trees_view(all));
            JsonValue::List(values)
        },
        Level::Record(fields) => {
            let ghost all = fields@;
            let mut values: Vec<(String, JsonValue)> = Vec::new();
            for field in it: fields
                invariant
                    contents == tree_contents(tree),
                    contents == Json::Record(named_trees_view(all)),
                    it.seq() == all,
                    values.len() == it.index(),
                    forall|k: int|
                        0 <= k < values.len() ==> field_view(#[trigger] values@[k])
                            == named_tree_view(all[k]),
            {
                let ghost at = values.len() as int;
                proof {
                    assert(named_trees_view(all)[at] == named_tree_view(all[at]));
                    assert(decreases_to!(contents => contents->Record_0));
                    assert(decreases_to!(contents->Record_0 => contents->Record_0[at]));
                    assert(decreases_to!(contents->Record_0[at] => contents->Record_0[at].1));
                }
                let (key, item) = field;
                values.push((key, from_tree(item)));
            }
            assert(fields_view(values@) == named_trees_view(all));
            JsonValue::Record(values)
        },
    }
}

/// The compact JSON text of a value.
pub fn write_json(value: &JsonValue) -> (text: String)
    ensures
        text@ == json_text(canonical(value@)),
        !text@.contains('\n'),
        reads_back(text@, canonical(value@)),
{
    let tree = to_tree(value);
    render(&tree)
}

/// Reads JSON text given as bytes.
pub fn read_json(bytes: &[u8]) -> (parsed: Result<JsonValue, String>)
    ensures
        match parsed {
            Ok(value) => json_parsed(bytes@) == Ok::<Json, Seq<char>>(value@),
            Err(error) => json_parsed(bytes@) == Err::<Json, Seq<char>>(error@),
        },
{
    match parse(bytes) {
        Ok(tree) => Ok(from_tree(tree)),
        Err(error) => Err(error),
    }
}

/// The value with the fields of every record in key order, each key once.
pub fn in_key_order(value: &JsonValue) -> (copy: JsonValue)
    ensures
        copy@ == canonical(value@),
{
    from_tree(to_tree(value))
}

/// The natural number that a value is, where 64 bits hold it.
pub open spec fn unsigned_of(value: Json) -> Option<u64> {
    match value {
        Json::Integer(number) => if 0 <= number <= u64::MAX {
            Some(number as u64)
        } else {
            None
        },
        _ => None,
    }
}

/// The natural number that a value is, where 64 bits hold it.
pub fn unsigned_value(value: &JsonValue) -> (number: Option<u64>)
    ensures
        number == unsigned_of(value@),
{
    match value {
        JsonValue::Unsigned(number) => Some(*number),
        JsonValue::Signed(number) => if *number >= 0 {
            Some(*number as u64)
        } else {
            None
        },
        JsonValue::Real(number) => match as_u64(number) {
            Some(number) => Some(number),
            None => match as_i64(number) {
                Some(number) => if number >= 0 {
                    Some(number as u64)
                } else {
                    None
                },
                None => None,
            },
        },
        _ => None,
    }
}

/// The integer that a value is, where 64 bits hold it.
pub open spec fn signed_of(value: Json) -> Option<i64> {
    match value {
        Json::Integer(number) => if i64::MIN <= number <= i64::MAX {
            Some(number as i64)
        } else {
            None
        },
        _ => None,
    }
}

/// The integer that a value is, where 64 bits hold it.
pub fn signed_value(value: &JsonValue) -> (number: Option<i64>)
    ensures
        number == signed_of(value@),
{
    match value {
        JsonValue::Unsigned(number) => if *number <= i64::MAX as u64 {
            Some(*number as i64)
        } else {
            None
        },
        JsonValue::Signed(number) => Some(*number),
        JsonValue::Real(number) => match as_u64(number) {
            Some(number) => if number <= i64::MAX as u64 {
                Some(number as i64)
            } else {
                None
            },
            None => as_i64(number),
        },
        _ => None,
    }
}

/// The text that a `serde_saphyr::Serializer` writes for a map of these fields, in their order, or the
/// text of its error.
pub uninterp spec fn yaml_written(
    fields: Seq<(Seq<char>, Json)>,
    indent_step: usize,
    compact_list_indent: bool,
    quote_all: bool,
) -> Result<Seq<char>, Seq<char>>;

/// Whether a text, or the text of an error, is this one.
pub open spec fn is_written(
    result: Result<String, String>,
    expected: Result<Seq<char>, Seq<char>>,
) -> bool {
    match (result, expected) {
        (Ok(text), Ok(expected)) => text@ == expected,
        (Err(message), Err(expected)) => message@ == expected,
        _ => false,
    }
}

/// Calls `collect_map` of `serde::Serializer` on a `serde_saphyr::Serializer` with these options, which
/// writes the fields in their order, and turns its error into text. The contract claims that the result
/// depends on the fields and these options alone.
#[verifier::external_body]
fn render_yaml(
    fields: Vec<(String, serde_json::Value)>,
    indent_step: usize,
    compact_list_indent: bool,
    quote_all: bool,
) -> (result: Result<String, String>)
    ensures
        is_written(
            result,
            yaml_written(named_trees_view(fields@), indent_step, compact_list_indent, quote_all),
        ),
{
    let mut options = serde_saphyr::SerializerOptions::default();
    options.indent_step = indent_step;
    options.compact_list_indent = compact_list_indent;
    options.quote_all = quote_all;
    let mut text = String::new();
    let mut serializer = serde_saphyr::Serializer::with_options(&mut text, options).map_err(
        |error| error.to_string(),
    )?;
    serde::Serializer::collect_map(&mut serializer, fields).map_err(|error| error.to_string())?;
    Ok(text)
}

/// What the YAML text of fields is, with two spaces for each level, lists not indented, and every text
/// quoted.
pub open spec fn yaml_text(fields: Seq<(Seq<char>, Json)>) -> Result<Seq<char>, Seq<char>> {
    yaml_written(canonical_fields(fields), 2, true, true)
}

/// The YAML text of fields, in their order.
pub fn write_yaml(fields: &Vec<(String, JsonValue)>) -> (result: Result<String, String>)
    ensures
        is_written(result, yaml_text(fields_view(fields@))),
{
    let mut trees: Vec<(String, serde_json::Value)> = Vec::new();
    let mut i: usize = 0;
    assert(named_trees_view(trees@) =~= canonical_fields(fields_view(fields@).take(0)));
    while i < fields.len()
        invariant
            i <= fields.len(),
            trees.len() == i,
            named_trees_view(trees@) == canonical_fields(fields_view(fields@).take(i as int)),
        decreases fields.len() - i,
    {
        proof {
            let taken = fields_view(fields@).take(i + 1);
            assert(taken.drop_last() == fields_view(fields@).take(i as int));
            assert(taken.last() == field_view(fields@[i as int]));
        }
        let ghost before = trees@;
        trees.push((fields[i].0.clone(), to_tree(&fields[i].1)));
        assert(named_trees_view(trees@) == named_trees_view(before).push(
            named_tree_view(trees@[i as int]),
        ));
        i += 1;
    }
    assert(fields_view(fields@).take(i as int) == fields_view(fields@));
    render_yaml(trees, 2, true, true)
}

/// A whole number is read exactly if it fits the kind of number that is asked for.
pub proof fn whole_numbers_are_read_where_they_fit(
    value: JsonValue,
    unsigned: Option<u64>,
    signed: Option<i64>,
)
    requires
        call_ensures(unsigned_value, (&value,), unsigned),
        call_ensures(signed_value, (&value,), signed),
    ensures
        value@ matches Json::Integer(number) ==> {
            &&& (unsigned is Some <==> 0 <= number <= 0xffff_ffff_ffff_ffff)
            &&& (signed is Some <==> -0x8000_0000_0000_0000 <= number <= 0x7fff_ffff_ffff_ffff)
            &&& (unsigned is Some ==> unsigned->0 == number)
            &&& (signed is Some ==> signed->0 == number)
        },
        !(value@ is Integer) ==> unsigned is None && signed is None,
{
}

/// What is written is read again where it holds no fractions, its fields in the order of their names.
pub proof fn what_is_written_is_read(
    value: JsonValue,
    text: String,
    bytes: &[u8],
    read: Result<JsonValue, String>,
)
    requires
        call_ensures(write_json, (&value,), text),
        bytes@ == encode_utf8(text@),
        call_ensures(read_json, (bytes,), read),
        integral(canonical(value@)),
        depth(canonical(value@)) < 128,
    ensures
        read matches Ok(again) && again@ == canonical(value@),
{
    integers_read_back(text@, canonical(value@));
}

} // verus!
