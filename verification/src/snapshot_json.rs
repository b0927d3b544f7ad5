//! How snapshots and their differences are told to a client. Rectangles are given as the records that
//! tell them, in the order of the elements.

use crate::json::{
    field, field_view, fields_view, no_fields, push_field, text_value, values_view, Json, JsonValue,
};
use crate::snapshot::{
    reference_text, ChangedElement, DiffElement, ElementRef, LocatorIdentity, ReferenceError,
    SemanticElement, SemanticNode, SemanticState, SnapshotDiff,
};
use crate::text_map::TextMap;
use vstd::prelude::*;
use vstd::string::*;

verus! {

/// Fields with one more, where it is known.
pub open spec fn with_flag(
    fields: Seq<(Seq<char>, Json)>,
    name: Seq<char>,
    flag: Option<bool>,
) -> Seq<(Seq<char>, Json)> {
    match flag {
        Some(flag) => fields.push((name, Json::Bool(flag))),
        None => fields,
    }
}

/// Fields with one more, where it is known.
pub open spec fn with_text(
    fields: Seq<(Seq<char>, Json)>,
    name: Seq<char>,
    text: Option<String>,
) -> Seq<(Seq<char>, Json)> {
    match text {
        Some(text) => fields.push((name, Json::Text(text@))),
        None => fields,
    }
}

/// The record of the states that are known.
pub open spec fn states_json(state: SemanticState) -> Json {
    let fields = with_flag(Seq::empty(), "enabled"@, state.enabled);
    let fields = with_flag(fields, "editable"@, state.editable);
    let fields = with_flag(fields, "checked"@, state.checked);
    let fields = with_flag(fields, "selected"@, state.selected);
    let fields = with_flag(fields, "focused"@, state.focused);
    let fields = with_flag(fields, "expanded"@, state.expanded);
    Json::Record(with_flag(fields, "pressed"@, state.pressed))
}

/// Fields with those of a node. Nothing is told of what is not known.
pub open spec fn with_node(
    fields: Seq<(Seq<char>, Json)>,
    node: SemanticNode,
    bounds: Json,
) -> Seq<(Seq<char>, Json)> {
    let fields = fields.push(("role"@, Json::Text(node.role@)));
    let fields = with_text(fields, "name"@, node.name);
    let fields = with_text(fields, "value"@, node.value);
    let fields = with_text(fields, "description"@, node.description);
    let fields = if node.bounds is Some {
        fields.push(("bounds"@, bounds))
    } else {
        fields
    };
    let fields = with_flag(fields, "visible"@, node.visible);
    if node.state.none_known() {
        fields
    } else {
        fields.push(("states"@, states_json(node.state)))
    }
}

fn push_flag(fields: &mut Vec<(String, JsonValue)>, name: &str, flag: Option<bool>)
    ensures
        fields_view(final(fields)@) == with_flag(fields_view(old(fields)@), name@, flag),
{
    if let Some(flag) = flag {
        push_field(fields, name, JsonValue::Bool(flag));
    }
}

fn push_text(fields: &mut Vec<(String, JsonValue)>, name: &str, text: &Option<String>)
    ensures
        fields_view(final(fields)@) == with_text(fields_view(old(fields)@), name@, *text),
{
    if let Some(text) = text {
        push_field(fields, name, text_value(text.as_str()));
    }
}

fn states_value(state: SemanticState) -> (value: JsonValue)
    ensures
        value@ == states_json(state),
{
    broadcast use crate::json::group_json_views;

    let mut fields = no_fields();
    push_flag(&mut fields, "enabled", state.enabled);
    push_flag(&mut fields, "editable", state.editable);
    push_flag(&mut fields, "checked", state.checked);
    push_flag(&mut fields, "selected", state.selected);
    push_flag(&mut fields, "focused", state.focused);
    push_flag(&mut fields, "expanded", state.expanded);
    push_flag(&mut fields, "pressed", state.pressed);
    JsonValue::Record(fields)
}

fn push_node(fields: &mut Vec<(String, JsonValue)>, node: &SemanticNode, bounds: &JsonValue)
    ensures
        fields_view(final(fields)@) == with_node(fields_view(old(fields)@), *node, bounds@),
{
    push_field(fields, "role", text_value(node.role.as_str()));
    push_text(fields, "name", &node.name);
    push_text(fields, "value", &node.value);
    push_text(fields, "description", &node.description);
    if node.bounds.is_some() {
        push_field(fields, "bounds", bounds.clone());
    }
    push_flag(fields, "visible", node.visible);
    if !node.state.is_empty() {
        push_field(fields, "states", states_value(node.state));
    }
}

/// The record of an element. Its identity is not told.
pub open spec fn element_json(element: SemanticElement, bounds: Json) -> Json {
    let fields = seq![("ref"@, Json::Text(reference_text(element.element_ref)))];
    let fields = match element.parent {
        Some(parent) => fields.push(("parent"@, Json::Text(reference_text(parent)))),
        None => fields,
    };
    Json::Record(with_node(fields, element.node, bounds))
}

/// The record of an element.
pub fn element_value(element: &SemanticElement, bounds: &JsonValue) -> (value: JsonValue)
    ensures
        value@ == element_json(*element, bounds@),
{
    broadcast use crate::json::group_json_views;

    let mut fields = no_fields();
    push_field(&mut fields, "ref", JsonValue::Text(element.element_ref.text()));
    assert(fields_view(fields@) =~= seq![
        ("ref"@, Json::Text(reference_text(element.element_ref))),
    ]);
    if let Some(parent) = element.parent {
        push_field(&mut fields, "parent", JsonValue::Text(parent.text()));
    }
    push_node(&mut fields, &element.node, bounds);
    JsonValue::Record(fields)
}

/// The list of elements.
pub open spec fn elements_json(elements: Seq<SemanticElement>, bounds: Seq<Json>) -> Json {
    Json::List(
        elements.map(|i: int, element: SemanticElement| element_json(element, bounds[i])),
    )
}

/// The list of elements.
pub fn elements_value(elements: &Vec<SemanticElement>, bounds: &Vec<JsonValue>) -> (value:
    JsonValue)
    requires
        bounds@.len() == elements@.len(),
    ensures
        value@ == elements_json(elements@, values_view(bounds@)),
{
    broadcast use crate::json::group_json_views;

    let mut items: Vec<JsonValue> = Vec::new();
    let mut i: usize = 0;
    while i < elements.len()
        invariant
            i <= elements.len(),
            bounds@.len() == elements@.len(),
            items@.len() == i,
            forall|k: int|
                0 <= k < i ==> (#[trigger] items@[k])@ == element_json(
                    elements@[k],
                    values_view(bounds@)[k],
                ),
        decreases elements.len() - i,
    {
        items.push(element_value(&elements[i], &bounds[i]));
        i += 1;
    }
    assert(values_view(items@) =~= elements_json(elements@, values_view(bounds@))->List_0);
    JsonValue::List(items)
}

/// Fields with the parent of an element, where it has one.
pub open spec fn with_parent(
    fields: Seq<(Seq<char>, Json)>,
    name: Seq<char>,
    parent: Option<LocatorIdentity>,
) -> Seq<(Seq<char>, Json)> {
    match parent {
        Some(parent) => fields.push((name, Json::Text(parent.text@))),
        None => fields,
    }
}

/// The record of an element that is there in one snapshot only.
pub open spec fn difference_json(element: DiffElement, bounds: Json) -> Json {
    Json::Record(
        with_node(with_parent(Seq::empty(), "parent"@, element.parent), element.node, bounds),
    )
}

/// The record of an element that is not what it was.
pub open spec fn change_json(element: ChangedElement, before: Json, after: Json) -> Json {
    let fields = with_parent(Seq::empty(), "before_parent"@, element.before_parent);
    let fields = with_parent(fields, "after_parent"@, element.after_parent);
    let fields = fields.push(
        ("before"@, Json::Record(with_node(Seq::empty(), element.before, before))),
    );
    Json::Record(
        fields.push(("after"@, Json::Record(with_node(Seq::empty(), element.after, after)))),
    )
}

fn push_parent(
    fields: &mut Vec<(String, JsonValue)>,
    name: &str,
    parent: &Option<LocatorIdentity>,
)
    ensures
        fields_view(final(fields)@) == with_parent(fields_view(old(fields)@), name@, *parent),
{
    if let Some(parent) = parent {
        push_field(fields, name, text_value(parent.text.as_str()));
    }
}

fn difference_value(element: &DiffElement, bounds: &JsonValue) -> (value: JsonValue)
    ensures
        value@ == difference_json(*element, bounds@),
{
    broadcast use crate::json::group_json_views;

    let mut fields = no_fields();
    push_parent(&mut fields, "parent", &element.parent);
    push_node(&mut fields, &element.node, bounds);
    JsonValue::Record(fields)
}

fn change_value(element: &ChangedElement, before: &JsonValue, after: &JsonValue) -> (value:
    JsonValue)
    ensures
        value@ == change_json(*element, before@, after@),
{
    broadcast use crate::json::group_json_views;

    let mut fields = no_fields();
    push_parent(&mut fields, "before_parent", &element.before_parent);
    push_parent(&mut fields, "after_parent", &element.after_parent);
    let mut earlier = no_fields();
    push_node(&mut earlier, &element.before, before);
    push_field(&mut fields, "before", JsonValue::Record(earlier));
    let mut later = no_fields();
    push_node(&mut later, &element.after, after);
    push_field(&mut fields, "after", JsonValue::Record(later));
    JsonValue::Record(fields)
}

/// The record of elements by identity.
pub open spec fn differences_json(
    keys: Seq<Seq<char>>,
    elements: Map<Seq<char>, DiffElement>,
    bounds: Seq<Json>,
) -> Json {
    Json::Record(
        keys.map(
            |i: int, key: Seq<char>| (key, difference_json(elements[key], bounds[i])),
        ),
    )
}

/// The record of elements by identity.
pub fn differences_value(elements: &TextMap<DiffElement>, bounds: &Vec<JsonValue>) -> (value:
    JsonValue)
    requires
        bounds@.len() == elements.keys().len(),
    ensures
        value@ == differences_json(elements.keys(), elements@, values_view(bounds@)),
{
    broadcast use crate::json::group_json_views;

    let ghost keys = elements.keys();
    let mut fields: Vec<(String, JsonValue)> = Vec::new();
    let len = elements.len();
    let mut i: usize = 0;
    while i < len
        invariant
            i <= len,
            len == keys.len(),
            keys == elements.keys(),
            bounds@.len() == keys.len(),
            fields@.len() == i,
            forall|k: int|
                0 <= k < i ==> field_view(#[trigger] fields@[k]) == (
                    keys[k],
                    difference_json(elements@[keys[k]], values_view(bounds@)[k]),
                ),
        decreases len - i,
    {
        let key = elements.key_at(i);
        let element = elements.value_at(i);
        fields.push(field(key.as_str(), difference_value(element, &bounds[i])));
        i += 1;
    }
    assert(fields_view(fields@) =~= differences_json(
        keys,
        elements@,
        values_view(bounds@),
    )->Record_0);
    JsonValue::Record(fields)
}

/// The record of elements that changed, by identity.
pub open spec fn changes_json(
    keys: Seq<Seq<char>>,
    elements: Map<Seq<char>, ChangedElement>,
    before: Seq<Json>,
    after: Seq<Json>,
) -> Json {
    Json::Record(
        keys.map(
            |i: int, key: Seq<char>| (key, change_json(elements[key], before[i], after[i])),
        ),
    )
}

/// The record of elements that changed, by identity.
pub fn changes_value(
    elements: &TextMap<ChangedElement>,
    before: &Vec<JsonValue>,
    after: &Vec<JsonValue>,
) -> (value: JsonValue)
    requires
        before@.len() == elements.keys().len(),
        after@.len() == elements.keys().len(),
    ensures
        value@ == changes_json(
            elements.keys(),
            elements@,
            values_view(before@),
            values_view(after@),
        ),
{
    broadcast use crate::json::group_json_views;

    let ghost keys = elements.keys();
    let mut fields: Vec<(String, JsonValue)> = Vec::new();
    let len = elements.len();
    let mut i: usize = 0;
    while i < len
        invariant
            i <= len,
            len == keys.len(),
            keys == elements.keys(),
            before@.len() == keys.len(),
            after@.len() == keys.len(),
            fields@.len() == i,
            forall|k: int|
                0 <= k < i ==> field_view(#[trigger] fields@[k]) == (
                    keys[k],
                    change_json(
                        elements@[keys[k]],
                        values_view(before@)[k],
                        values_view(after@)[k],
                    ),
                ),
        decreases len - i,
    {
        let key = elements.key_at(i);
        let element = elements.value_at(i);
        fields.push(field(key.as_str(), change_value(element, &before[i], &after[i])));
        i += 1;
    }
    assert(fields_view(fields@) =~= changes_json(
        keys,
        elements@,
        values_view(before@),
        values_view(after@),
    )->Record_0);
    JsonValue::Record(fields)
}

/// The rectangles of the elements of a difference, each in the order of its elements.
#[derive(Debug)]
pub struct DiffBounds {
    pub added: Vec<JsonValue>,
    pub before: Vec<JsonValue>,
    pub after: Vec<JsonValue>,
    pub removed: Vec<JsonValue>,
}

/// The record of a difference.
pub open spec fn diff_json(diff: SnapshotDiff, bounds: DiffBounds) -> Json {
    Json::Record(
        seq![
            ("from_generation"@, Json::Integer(diff.from_generation as int)),
            ("to_generation"@, Json::Integer(diff.to_generation as int)),
            (
                "added"@,
                differences_json(diff.added.keys(), diff.added@, values_view(bounds.added@)),
            ),
            (
                "changed"@,
                changes_json(
                    diff.changed.keys(),
                    diff.changed@,
                    values_view(bounds.before@),
                    values_view(bounds.after@),
                ),
            ),
            (
                "removed"@,
                differences_json(diff.removed.keys(), diff.removed@, values_view(bounds.removed@)),
            ),
        ],
    )
}

impl SnapshotDiff {
    /// The record of the difference.
    pub fn to_json(&self, bounds: &DiffBounds) -> (value: JsonValue)
        requires
            bounds.added@.len() == self.added.keys().len(),
            bounds.before@.len() == self.changed.keys().len(),
            bounds.after@.len() == self.changed.keys().len(),
            bounds.removed@.len() == self.removed.keys().len(),
        ensures
            value@ == diff_json(*self, *bounds),
    {
        broadcast use crate::json::group_json_views;

        let fields: Vec<(String, JsonValue)> = vec![
            field("from_generation", JsonValue::Unsigned(self.from_generation)),
            field("to_generation", JsonValue::Unsigned(self.to_generation)),
            field("added", differences_value(&self.added, &bounds.added)),
            field("changed", changes_value(&self.changed, &bounds.before, &bounds.after)),
            field("removed", differences_value(&self.removed, &bounds.removed)),
        ];
        assert(fields_view(fields@) =~= diff_json(*self, *bounds)->Record_0);
        JsonValue::Record(fields)
    }
}

/// The record of a reference that does not resolve.
pub open spec fn reference_error_json(error: ReferenceError) -> Json {
    let (code, reference) = match error {
        ReferenceError::Unknown { reference } => ("unknown_ref"@, reference),
        ReferenceError::Stale { reference } => ("stale_ref"@, reference),
    };
    Json::Record(
        seq![("code"@, Json::Text(code)), ("ref"@, Json::Text(reference_text(reference)))],
    )
}

impl ReferenceError {
    /// The record of the error.
    pub fn to_json(self) -> (value: JsonValue)
        ensures
            value@ == reference_error_json(self),
    {
        broadcast use crate::json::group_json_views;

        let (code, reference) = match self {
            ReferenceError::Unknown { reference } => ("unknown_ref", reference),
            ReferenceError::Stale { reference } => ("stale_ref", reference),
        };
        let fields: Vec<(String, JsonValue)> = vec![
            field("code", text_value(code)),
            field("ref", JsonValue::Text(reference.text())),
        ];
        assert(fields_view(fields@) =~= reference_error_json(self)->Record_0);
        JsonValue::Record(fields)
    }
}

/// What is told of an element names no other: no two elements of a snapshot share a reference.
pub proof fn told_references_differ(left: ElementRef, right: ElementRef)
    requires
        reference_text(left) == reference_text(right),
    ensures
        left@ == right@,
{
    let first = crate::text::decimal(left@ as nat);
    let second = crate::text::decimal(right@ as nat);
    assert(first =~= reference_text(left).skip(1));
    assert(second =~= reference_text(right).skip(1));
    crate::text::decimal_is_injective(left@ as nat, right@ as nat);
}

/// An element is told by its reference and its role, and by what is known of it, each under its own name.
pub proof fn elements_are_told_as_known(
    element: SemanticElement,
    bounds: JsonValue,
    value: JsonValue,
)
    requires
        call_ensures(element_value, (&element, &bounds), value),
    ensures
        value@ matches Json::Record(fields) && {
            &&& fields[0] == ("ref"@, Json::Text(reference_text(element.element_ref)))
            &&& fields.contains(("role"@, Json::Text(element.node.role@)))
            &&& (element.parent matches Some(parent) ==> fields[1] == (
                "parent"@,
                Json::Text(reference_text(parent)),
            ))
            &&& (element.node.name matches Some(text) ==> fields.contains(
                ("name"@, Json::Text(text@)),
            ))
            &&& (element.node.value matches Some(text) ==> fields.contains(
                ("value"@, Json::Text(text@)),
            ))
            &&& (element.node.description matches Some(text) ==> fields.contains(
                ("description"@, Json::Text(text@)),
            ))
            &&& (element.node.bounds is Some ==> fields.contains(("bounds"@, bounds@)))
            &&& (element.node.visible matches Some(flag) ==> fields.contains(
                ("visible"@, Json::Bool(flag)),
            ))
            &&& (!element.node.state.none_known() ==> fields.last() == (
                "states"@,
                states_json(element.node.state),
            ))
        },
{
    let first = seq![("ref"@, Json::Text(reference_text(element.element_ref)))];
    let start = match element.parent {
        Some(parent) => first.push(("parent"@, Json::Text(reference_text(parent)))),
        None => first,
    };
    nodes_are_told(start, element.node, bounds@);
    let fields = value@->Record_0;
    assert(fields == with_node(start, element.node, bounds@));
    assert(fields[0] == start[0]);
    if element.parent is Some {
        assert(fields[1] == start[1]);
    }
}

proof fn nodes_are_told(start: Seq<(Seq<char>, Json)>, node: SemanticNode, bounds: Json)
    ensures
        ({
            let fields = with_node(start, node, bounds);
            &&& start.is_prefix_of(fields)
            &&& forall|i: int| 0 <= i < start.len() ==> fields[i] == #[trigger] start[i]
            &&& fields.len() > start.len()
            &&& fields.contains(("role"@, Json::Text(node.role@)))
            &&& (node.name matches Some(text) ==> fields.contains(("name"@, Json::Text(text@))))
            &&& (node.value matches Some(text) ==> fields.contains(("value"@, Json::Text(text@))))
            &&& (node.description matches Some(text) ==> fields.contains(
                ("description"@, Json::Text(text@)),
            ))
            &&& (node.bounds is Some ==> fields.contains(("bounds"@, bounds)))
            &&& (node.visible matches Some(flag) ==> fields.contains(
                ("visible"@, Json::Bool(flag)),
            ))
            &&& (!node.state.none_known() ==> fields.last() == ("states"@, states_json(node.state)))
        }),
{
    let first = start.push(("role"@, Json::Text(node.role@)));
    let second = with_text(first, "name"@, node.name);
    let third = with_text(second, "value"@, node.value);
    let fourth = with_text(third, "description"@, node.description);
    let fifth = if node.bounds is Some {
        fourth.push(("bounds"@, bounds))
    } else {
        fourth
    };
    let sixth = with_flag(fifth, "visible"@, node.visible);
    let fields = with_node(start, node, bounds);
    assert(fields.take(start.len() as int) =~= start);
    assert(fields[start.len() as int] == ("role"@, Json::Text(node.role@)));
    if let Some(text) = node.name {
        assert(fields[first.len() as int] == ("name"@, Json::Text(text@)));
    }
    if let Some(text) = node.value {
        assert(fields[second.len() as int] == ("value"@, Json::Text(text@)));
    }
    if let Some(text) = node.description {
        assert(fields[third.len() as int] == ("description"@, Json::Text(text@)));
    }
    if node.bounds is Some {
        assert(fields[fourth.len() as int] == ("bounds"@, bounds));
    }
    if let Some(flag) = node.visible {
        assert(fields[fifth.len() as int] == ("visible"@, Json::Bool(flag)));
    }
}

/// The states of an element are told by name, those that are known and no others.
pub proof fn states_are_told_by_name(state: SemanticState)
    ensures
        states_json(state) matches Json::Record(fields) && {
            &&& (state.enabled matches Some(flag) ==> fields.contains(
                ("enabled"@, Json::Bool(flag)),
            ))
            &&& (state.editable matches Some(flag) ==> fields.contains(
                ("editable"@, Json::Bool(flag)),
            ))
            &&& (state.checked matches Some(flag) ==> fields.contains(
                ("checked"@, Json::Bool(flag)),
            ))
            &&& (state.selected matches Some(flag) ==> fields.contains(
                ("selected"@, Json::Bool(flag)),
            ))
            &&& (state.focused matches Some(flag) ==> fields.contains(
                ("focused"@, Json::Bool(flag)),
            ))
            &&& (state.expanded matches Some(flag) ==> fields.contains(
                ("expanded"@, Json::Bool(flag)),
            ))
            &&& (state.pressed matches Some(flag) ==> fields.contains(
                ("pressed"@, Json::Bool(flag)),
            ))
            &&& (state.none_known() ==> fields.len() == 0)
        },
{
    let none = Seq::<(Seq<char>, Json)>::empty();
    let first = with_flag(none, "enabled"@, state.enabled);
    let second = with_flag(first, "editable"@, state.editable);
    let third = with_flag(second, "checked"@, state.checked);
    let fourth = with_flag(third, "selected"@, state.selected);
    let fifth = with_flag(fourth, "focused"@, state.focused);
    let sixth = with_flag(fifth, "expanded"@, state.expanded);
    flags_are_told(none, "enabled"@, state.enabled);
    flags_are_told(first, "editable"@, state.editable);
    flags_are_told(second, "checked"@, state.checked);
    flags_are_told(third, "selected"@, state.selected);
    flags_are_told(fourth, "focused"@, state.focused);
    flags_are_told(fifth, "expanded"@, state.expanded);
    flags_are_told(sixth, "pressed"@, state.pressed);
}

proof fn flags_are_told(fields: Seq<(Seq<char>, Json)>, name: Seq<char>, flag: Option<bool>)
    ensures
        forall|told: (Seq<char>, Json)| #[trigger]
            fields.contains(told) ==> with_flag(fields, name, flag).contains(told),
        flag matches Some(flag) ==> with_flag(fields, name, Some(flag)).contains(
            (name, Json::Bool(flag)),
        ),
{
    if let Some(flag) = flag {
        let more = fields.push((name, Json::Bool(flag)));
        assert(more[fields.len() as int] == (name, Json::Bool(flag)));
        assert forall|told: (Seq<char>, Json)| #[trigger] fields.contains(told) implies more.contains(
            told,
        ) by {
            assert(more[fields.index_of(told)] == told);
        }
    }
}

/// A difference is told by the two snapshots that it is between, and by what was added, changed and removed.
pub proof fn differences_are_told_by_kind(diff: SnapshotDiff, bounds: DiffBounds, value: JsonValue)
    requires
        call_ensures(SnapshotDiff::to_json, (&diff, &bounds), value),
    ensures
        value@ matches Json::Record(fields) && {
            &&& fields.contains(("from_generation"@, Json::Integer(diff.from_generation as int)))
            &&& fields.contains(("to_generation"@, Json::Integer(diff.to_generation as int)))
            &&& fields.contains(
                (
                    "added"@,
                    differences_json(diff.added.keys(), diff.added@, values_view(bounds.added@)),
                ),
            )
            &&& fields.contains(
                (
                    "removed"@,
                    differences_json(
                        diff.removed.keys(),
                        diff.removed@,
                        values_view(bounds.removed@),
                    ),
                ),
            )
            &&& fields.contains(
                (
                    "changed"@,
                    changes_json(
                        diff.changed.keys(),
                        diff.changed@,
                        values_view(bounds.before@),
                        values_view(bounds.after@),
                    ),
                ),
            )
        },
{
    let fields = value@->Record_0;
    assert(fields[0].0 == "from_generation"@ && fields[1].0 == "to_generation"@);
    assert(fields[2].0 == "added"@ && fields[3].0 == "changed"@ && fields[4].0 == "removed"@);
}

/// A change is told with the element as it was and as it is.
pub proof fn changes_are_told_with_both_sides(element: ChangedElement, before: Json, after: Json)
    ensures
        change_json(element, before, after) matches Json::Record(fields) && {
            &&& fields.last() == (
                "after"@,
                Json::Record(with_node(Seq::empty(), element.after, after)),
            )
            &&& fields[fields.len() - 2] == (
                "before"@,
                Json::Record(with_node(Seq::empty(), element.before, before)),
            )
            &&& (element.before_parent matches Some(parent) ==> fields[0] == (
                "before_parent"@,
                Json::Text(parent.text@),
            ))
            &&& (element.after_parent matches Some(parent) ==> fields.contains(
                ("after_parent"@, Json::Text(parent.text@)),
            ))
        },
{
    let first = with_parent(Seq::empty(), "before_parent"@, element.before_parent);
    let fields = change_json(element, before, after)->Record_0;
    if let Some(parent) = element.after_parent {
        assert(fields[first.len() as int] == ("after_parent"@, Json::Text(parent.text@)));
    }
}

/// An unusable reference is told by why it cannot be used.
pub proof fn unusable_references_are_told(error: ReferenceError, value: JsonValue)
    requires
        call_ensures(ReferenceError::to_json, (error,), value),
    ensures
        error matches ReferenceError::Unknown { reference } ==> value@ == Json::Record(
            seq![
                ("code"@, Json::Text("unknown_ref"@)),
                ("ref"@, Json::Text(reference_text(reference))),
            ],
        ),
        error matches ReferenceError::Stale { reference } ==> value@ == Json::Record(
            seq![
                ("code"@, Json::Text("stale_ref"@)),
                ("ref"@, Json::Text(reference_text(reference))),
            ],
        ),
{
}

} // verus!
