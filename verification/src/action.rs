//! Interactive actions: their references to elements and to the environment, and the flow that each
//! of them runs as.

use crate::codec::{
    integers_read_back, integral, json_parsed, json_text, read_json, reads_back, write_json,
};
use crate::flow::CompiledFlow;
use crate::journal::{single, single_value, JournalWriter};
use crate::json::{
    canonical, depth, field, field_is_smaller, field_of, field_view, fields_view, find_field,
    item_is_smaller, set_field, take_field, text_value, values_view, with_field, without_field,
    Json, JsonValue,
};
use crate::replay::{environment_of, environment_reference, placeholder};
use crate::secrets::with_secret;
use crate::session::{Body, CommandError, ErrorCode, Message, PreparedAction};
use crate::snapshot::{
    numbered_reference, reference_of, ElementRef, LocatorIdentity, ReferenceError, SnapshotStore,
    Viewport,
};
use crate::text::{
    chars_of, decimal, holds_text, join, quote, quoted, same_text, texts_view, wide_decimal_text,
};
use crate::values::Resolved;
use vstd::prelude::*;
use vstd::string::*;
use vstd::utf8::*;

verus! {

/// An element that a reference stands for: its locator and its node.
#[derive(Debug)]
pub struct Referent {
    pub number: u64,
    pub locator: JsonValue,
    pub backend_node_id: i64,
}

/// The references that resolve, the number of references that were issued, and the revision of the
/// latest snapshot.
#[derive(Debug)]
pub struct References {
    pub entries: Vec<Referent>,
    pub last_ref: u64,
    pub revision: u64,
}

/// What a reference stands for.
pub open spec fn lookup(entries: Seq<Referent>, number: u64) -> Option<(Json, i64)>
    decreases entries.len(),
{
    if entries.len() == 0 {
        None
    } else if entries[0].number == number {
        Some((entries[0].locator@, entries[0].backend_node_id))
    } else {
        lookup(entries.skip(1), number)
    }
}

/// Why a command is refused: its kind, its text, and the latest snapshot where that is told.
pub ghost struct Refusal {
    pub code: ErrorCode,
    pub message: Seq<char>,
    pub latest: Option<u64>,
}

/// The refusal of a command that is not valid.
pub open spec fn invalid(message: Seq<char>) -> Refusal {
    Refusal { code: ErrorCode::Validation, message, latest: None }
}

/// Whether an error is this refusal.
pub open spec fn is_refusal(error: CommandError, refusal: Refusal) -> bool {
    &&& error.code == refusal.code
    &&& match error.message {
        Message::Text(text) => text@ == refusal.message,
        _ => false,
    }
    &&& match (error.details, refusal.latest) {
        (Some(Body::LatestSnapshot(latest)), Some(expected)) => latest == expected,
        (None, None) => true,
        _ => false,
    }
}

/// The error of a command that is not valid.
pub fn validation_error(message: &str) -> (error: CommandError)
    ensures
        is_refusal(error, invalid(message@)),
{
    CommandError {
        code: ErrorCode::Validation,
        message: Message::Text(message.to_owned()),
        details: None,
    }
}

/// The element that a text refers to.
pub open spec fn referent_of(text: Seq<char>, references: References) -> Result<
    (Json, i64),
    Refusal,
> {
    match reference_of(text) {
        None => Err(
            invalid(
                "invalid element reference "@ + quoted(text)
                    + "; expected eN where N is positive"@,
            ),
        ),
        Some(number) => match lookup(references.entries@, number) {
            Some(referent) => Ok(referent),
            None => Err(
                if number <= references.last_ref {
                    Refusal {
                        code: ErrorCode::StaleReference,
                        message: "stale element reference "@ + numbered_reference(number),
                        latest: Some(references.revision),
                    }
                } else {
                    Refusal {
                        code: ErrorCode::UnknownReference,
                        message: "unknown element reference "@ + numbered_reference(number),
                        latest: Some(references.revision),
                    }
                },
            ),
        },
    }
}

/// The element that a field named `ref` refers to.
pub open spec fn reference_taken(fields: Seq<(Seq<char>, Json)>, references: References) -> Result<
    (Json, i64),
    Refusal,
> {
    match field_of(fields, "ref"@) {
        None => Err(invalid("ref is required"@)),
        Some(Json::Text(text)) => referent_of(text, references),
        Some(_) => Err(invalid("ref must be a string"@)),
    }
}

fn find_referent(entries: &Vec<Referent>, number: u64) -> (found: Option<usize>)
    ensures
        match found {
            Some(at) => at < entries@.len() && lookup(entries@, number) == Some(
                (entries@[at as int].locator@, entries@[at as int].backend_node_id),
            ),
            None => lookup(entries@, number) is None,
        },
{
    let mut i: usize = 0;
    assert(entries@.skip(0) == entries@);
    while i < entries.len()
        invariant
            i <= entries.len(),
            lookup(entries@, number) == lookup(entries@.skip(i as int), number),
        decreases entries.len() - i,
    {
        proof {
            let rest = entries@.skip(i as int);
            assert(rest[0] == entries@[i as int]);
            assert(rest.skip(1) == entries@.skip(i + 1));
        }
        if entries[i].number == number {
            return Some(i);
        }
        i += 1;
    }
    None
}

/// Takes the field named `ref` out of a record, and finds the element that it refers to.
pub fn take_reference(
    fields: &mut Vec<(String, JsonValue)>,
    references: &References,
) -> (result: Result<(JsonValue, i64), CommandError>)
    ensures
        fields_view(final(fields)@) == without_field(fields_view(old(fields)@), "ref"@),
        match (result, reference_taken(fields_view(old(fields)@), *references)) {
            (Ok((locator, node)), Ok((expected, expected_node))) => locator@ == expected && node
                == expected_node,
            (Err(error), Err(refusal)) => is_refusal(error, refusal),
            _ => false,
        },
{
    let value = match take_field(fields, "ref") {
        Some(value) => value,
        None => {
            return Err(validation_error("ref is required"));
        },
    };
    let text = match &value {
        JsonValue::Text(text) => text,
        _ => {
            return Err(validation_error("ref must be a string"));
        },
    };
    let reference = match ElementRef::parse(text.as_str()) {
        Ok(reference) => reference,
        Err(error) => {
            let message = error.message();
            return Err(validation_error(message.as_str()));
        },
    };
    match find_referent(&references.entries, reference.number()) {
        Some(at) => Ok(
            (references.entries[at].locator.clone(), references.entries[at].backend_node_id),
        ),
        None => {
            let details = Some(Body::LatestSnapshot(references.revision));
            if reference.number() <= references.last_ref {
                let error = ReferenceError::Stale { reference };
                Err(
                    CommandError {
                        code: ErrorCode::StaleReference,
                        message: Message::Text(error.message()),
                        details,
                    },
                )
            } else {
                let error = ReferenceError::Unknown { reference };
                Err(
                    CommandError {
                        code: ErrorCode::UnknownReference,
                        message: Message::Text(error.message()),
                        details,
                    },
                )
            }
        },
    }
}

/// The element that an action is about: its locator and its node, where there is one.
pub ghost struct Aim {
    pub locator: Option<Json>,
    pub node: Option<i64>,
}

/// What is asserted, with each reference replaced by its locator, and the element that was referred
/// to last. A record with a reference is replaced as a whole.
pub open spec fn asserted(value: Json, references: References, aim: Aim) -> Result<
    (Json, Aim),
    Refusal,
>
    decreases value,
{
    match value {
        Json::Record(fields) => if field_of(fields, "ref"@) is Some {
            match reference_taken(fields, references) {
                Ok((locator, node)) => Ok(
                    (locator, Aim { locator: Some(locator), node: Some(node) }),
                ),
                Err(refusal) => Err(refusal),
            }
        } else {
            match asserted_fields(fields, references, aim) {
                Ok((fields, aim)) => Ok((Json::Record(fields), aim)),
                Err(refusal) => Err(refusal),
            }
        },
        Json::List(items) => match asserted_items(items, references, aim) {
            Ok((items, aim)) => Ok((Json::List(items), aim)),
            Err(refusal) => Err(refusal),
        },
        _ => Ok((value, aim)),
    }
}

/// The fields of what is asserted.
pub open spec fn asserted_fields(
    fields: Seq<(Seq<char>, Json)>,
    references: References,
    aim: Aim,
) -> Result<(Seq<(Seq<char>, Json)>, Aim), Refusal>
    decreases fields,
{
    if fields.len() == 0 {
        Ok((fields, aim))
    } else {
        match asserted_fields(fields.drop_last(), references, aim) {
            Err(refusal) => Err(refusal),
            Ok((before, aim)) => match asserted(fields.last().1, references, aim) {
                Err(refusal) => Err(refusal),
                Ok((last, aim)) => Ok((before.push((fields.last().0, last)), aim)),
            },
        }
    }
}

/// The items of what is asserted.
pub open spec fn asserted_items(items: Seq<Json>, references: References, aim: Aim) -> Result<
    (Seq<Json>, Aim),
    Refusal,
>
    decreases items,
{
    if items.len() == 0 {
        Ok((items, aim))
    } else {
        match asserted_items(items.drop_last(), references, aim) {
            Err(refusal) => Err(refusal),
            Ok((before, aim)) => match asserted(items.last(), references, aim) {
                Err(refusal) => Err(refusal),
                Ok((last, aim)) => Ok((before.push(last), aim)),
            },
        }
    }
}

proof fn refused_fields_stay(
    fields: Seq<(Seq<char>, Json)>,
    references: References,
    aim: Aim,
    at: int,
)
    requires
        0 <= at <= fields.len(),
        asserted_fields(fields.take(at), references, aim) is Err,
    ensures
        asserted_fields(fields, references, aim) == asserted_fields(
            fields.take(at),
            references,
            aim,
        ),
    decreases fields.len() - at,
{
    if at < fields.len() {
        assert(fields.take(at + 1).drop_last() == fields.take(at));
        refused_fields_stay(fields, references, aim, at + 1);
    } else {
        assert(fields.take(at) == fields);
    }
}

proof fn refused_items_stay(items: Seq<Json>, references: References, aim: Aim, at: int)
    requires
        0 <= at <= items.len(),
        asserted_items(items.take(at), references, aim) is Err,
    ensures
        asserted_items(items, references, aim) == asserted_items(items.take(at), references, aim),
    decreases items.len() - at,
{
    if at < items.len() {
        assert(items.take(at + 1).drop_last() == items.take(at));
        refused_items_stay(items, references, aim, at + 1);
    } else {
        assert(items.take(at) == items);
    }
}

/// The element that an action is about.
#[derive(Debug)]
pub struct Target {
    pub locator: Option<JsonValue>,
    pub node: Option<i64>,
}

impl View for Target {
    type V = Aim;

    open spec fn view(&self) -> Aim {
        Aim {
            locator: match self.locator {
                Some(locator) => Some(locator@),
                None => None,
            },
            node: self.node,
        }
    }
}

fn copy_fields(fields: &Vec<(String, JsonValue)>) -> (copy: Vec<(String, JsonValue)>)
    ensures
        fields_view(copy@) == fields_view(fields@),
{
    let mut copy: Vec<(String, JsonValue)> = Vec::new();
    let mut i: usize = 0;
    while i < fields.len()
        invariant
            i <= fields.len(),
            copy@.len() == i,
            forall|k: int|
                0 <= k < i ==> field_view(#[trigger] copy@[k]) == field_view(fields@[k]),
        decreases fields.len() - i,
    {
        copy.push((fields[i].0.clone(), fields[i].1.clone()));
        i += 1;
    }
    assert(fields_view(copy@) =~= fields_view(fields@));
    copy
}

/// Replaces the references in what is asserted.
pub fn replace_assertion_refs(
    value: &JsonValue,
    references: &References,
    target: &mut Target,
) -> (result: Result<JsonValue, CommandError>)
    ensures
        match (result, asserted(value@, *references, old(target)@)) {
            (Ok(result), Ok((expected, aim))) => result@ == expected && final(target)@ == aim,
            (Err(error), Err(refusal)) => is_refusal(error, refusal),
            _ => false,
        },
    decreases value,
{
    broadcast use crate::json::group_json_views;

    match value {
        JsonValue::Record(fields) => {
            if find_field(fields, "ref").is_some() {
                let mut copy = copy_fields(fields);
                return match take_reference(&mut copy, references) {
                    Ok((locator, node)) => {
                        target.locator = Some(locator.clone());
                        target.node = Some(node);
                        Ok(locator)
                    },
                    Err(error) => Err(error),
                };
            }
            let ghost all = fields_view(fields@);
            let ghost start = target@;
            let mut values: Vec<(String, JsonValue)> = Vec::new();
            let mut i: usize = 0;
            assert(all.take(0) =~= Seq::<(Seq<char>, Json)>::empty());
            assert(fields_view(values@) =~= Seq::<(Seq<char>, Json)>::empty());
            while i < fields.len()
                invariant
                    i <= fields.len(),
                    *value == JsonValue::Record(*fields),
                    value@ == Json::Record(all),
                    all == fields_view(fields@),
                    start == old(target)@,
                    field_of(all, "ref"@) is None,
                    asserted_fields(all.take(i as int), *references, start) == Ok::<
                        (Seq<(Seq<char>, Json)>, Aim),
                        Refusal,
                    >((fields_view(values@), target@)),
                decreases fields.len() - i,
            {
                proof {
                    field_is_smaller(*value, i as int);
                    assert(all.take(i + 1).drop_last() == all.take(i as int));
                    assert(all.take(i + 1).last() == field_view(fields@[i as int]));
                }
                let ghost before = fields_view(values@);
                match replace_assertion_refs(&fields[i].1, references, target) {
                    Ok(child) => {
                        values.push((fields[i].0.clone(), child));
                        assert(fields_view(values@) =~= before.push(
                            (fields@[i as int].0@, child@),
                        ));
                    },
                    Err(error) => {
                        proof {
                            refused_fields_stay(all, *references, start, i + 1);
                        }
                        return Err(error);
                    },
                }
                i += 1;
            }
            assert(all.take(i as int) == all);
            Ok(JsonValue::Record(values))
        },
        JsonValue::List(items) => {
            let ghost all = values_view(items@);
            let ghost start = target@;
            let mut values: Vec<JsonValue> = Vec::new();
            let mut i: usize = 0;
            assert(all.take(0) =~= Seq::<Json>::empty());
            assert(values_view(values@) =~= Seq::<Json>::empty());
            while i < items.len()
                invariant
                    i <= items.len(),
                    *value == JsonValue::List(*items),
                    value@ == Json::List(all),
                    all == values_view(items@),
                    start == old(target)@,
                    asserted_items(all.take(i as int), *references, start) == Ok::<
                        (Seq<Json>, Aim),
                        Refusal,
                    >((values_view(values@), target@)),
                decreases items.len() - i,
            {
                proof {
                    item_is_smaller(*value, i as int);
                    assert(all.take(i + 1).drop_last() == all.take(i as int));
                    assert(all.take(i + 1).last() == items@[i as int]@);
                }
                let ghost before = values_view(values@);
                match replace_assertion_refs(&items[i], references, target) {
                    Ok(child) => {
                        values.push(child);
                        assert(values_view(values@) =~= before.push(child@));
                    },
                    Err(error) => {
                        proof {
                            refused_items_stay(all, *references, start, i + 1);
                        }
                        return Err(error);
                    },
                }
                i += 1;
            }
            assert(all.take(i as int) == all);
            Ok(JsonValue::List(values))
        },
        _ => Ok(value.clone()),
    }
}

/// Whether an action is about an element that is referred to.
pub open spec fn targeted(name: Seq<char>) -> bool {
    ||| name == "click"@
    ||| name == "double_click"@
    ||| name == "fill"@
    ||| name == "erase"@
    ||| name == "select"@
    ||| name == "press"@
    ||| name == "wait_until_visible"@
    ||| name == "wait_until_stable"@
}

/// Whether there is such an action.
pub open spec fn supported(name: Seq<char>) -> bool {
    ||| targeted(name)
    ||| name == "open"@
    ||| name == "back"@
    ||| name == "switch_page"@
    ||| name == "switch_frame"@
    ||| name == "pause"@
    ||| name == "assert"@
}

fn is_targeted(name: &str) -> (yes: bool)
    ensures
        yes == targeted(name@),
{
    same_text(name, "click") || same_text(name, "double_click") || same_text(name, "fill")
        || same_text(name, "erase") || same_text(name, "select") || same_text(name, "press")
        || same_text(name, "wait_until_visible") || same_text(name, "wait_until_stable")
}

fn is_supported(name: &str) -> (yes: bool)
    ensures
        yes == supported(name@),
{
    is_targeted(name) || same_text(name, "open") || same_text(name, "back") || same_text(
        name,
        "switch_page",
    ) || same_text(name, "switch_frame") || same_text(name, "pause") || same_text(name, "assert")
}

/// What a step is told with, and the element that it is about.
pub open spec fn payload_of(name: Seq<char>, payload: Json, references: References) -> Result<
    (Json, Aim),
    Refusal,
> {
    let none = Aim { locator: None, node: None };
    if name == "open"@ {
        match payload {
            Json::Record(fields) => match field_of(fields, "url"@) {
                Some(url) => Ok((url, none)),
                None => Err(invalid("act.open requires url"@)),
            },
            _ => Err(invalid("act.open requires url"@)),
        }
    } else if targeted(name) {
        match payload {
            Json::Record(fields) => match reference_taken(fields, references) {
                Ok((locator, node)) => Ok(
                    (
                        Json::Record(
                            with_field(without_field(fields, "ref"@), "target"@, locator),
                        ),
                        Aim { locator: Some(locator), node: Some(node) },
                    ),
                ),
                Err(refusal) => Err(refusal),
            },
            _ => Err(invalid("act."@ + name + " must be an object"@)),
        }
    } else if name == "switch_frame"@ && payload is Record && field_of(
        payload->Record_0,
        "ref"@,
    ) is Some {
        match reference_taken(payload->Record_0, references) {
            Ok((locator, node)) => Ok(
                (
                    single("target"@, locator),
                    Aim { locator: Some(locator), node: Some(node) },
                ),
            ),
            Err(refusal) => Err(refusal),
        }
    } else if name == "assert"@ {
        asserted(payload, references, none)
    } else {
        Ok((payload, none))
    }
}

/// An action that is ready to be compiled.
pub ghost struct PreparedModel {
    pub step: Json,
    pub name: Seq<char>,
    pub aim: Aim,
}

/// An action made ready: its references are replaced by locators.
pub open spec fn prepared(action: Json, references: References) -> Result<PreparedModel, Refusal> {
    match action {
        Json::Record(fields) => if fields.len() == 1 {
            let name = fields[0].0;
            if supported(name) {
                match payload_of(name, fields[0].1, references) {
                    Ok((payload, aim)) => Ok(
                        PreparedModel { step: single(name, payload), name, aim },
                    ),
                    Err(refusal) => Err(refusal),
                }
            } else {
                Err(invalid("unsupported interactive action "@ + quoted(name)))
            }
        } else {
            Err(invalid("action must be an object containing exactly one operation"@))
        },
        _ => Err(invalid("action must be an object containing exactly one operation"@)),
    }
}

/// Whether an action is ready in this way.
pub open spec fn is_prepared(action: PreparedAction, model: PreparedModel) -> bool {
    &&& action.step@ == model.step
    &&& action.name@ == model.name
    &&& action.backend_node_id == model.aim.node
    &&& match (action.locator, model.aim.locator) {
        (Some(locator), Some(expected)) => locator@ == expected,
        (None, None) => true,
        _ => false,
    }
}

/// Makes the payload of a step.
fn prepare_payload(name: &str, payload: &JsonValue, references: &References) -> (result: Result<
    (JsonValue, Target),
    CommandError,
>)
    ensures
        match (result, payload_of(name@, payload@, *references)) {
            (Ok((payload, target)), Ok((expected, aim))) => payload@ == expected && target@ == aim,
            (Err(error), Err(refusal)) => is_refusal(error, refusal),
            _ => false,
        },
{
    broadcast use crate::json::group_json_views;

    let none = Target { locator: None, node: None };
    if same_text(name, "open") {
        return match payload {
            JsonValue::Record(fields) => match find_field(fields, "url") {
                Some(url) => Ok((url.clone(), none)),
                None => Err(validation_error("act.open requires url")),
            },
            _ => Err(validation_error("act.open requires url")),
        };
    }
    if is_targeted(name) {
        return match payload {
            JsonValue::Record(fields) => {
                let mut copy = copy_fields(fields);
                match take_reference(&mut copy, references) {
                    Ok((locator, node)) => {
                        set_field(&mut copy, "target".to_owned(), locator.clone());
                        Ok(
                            (
                                JsonValue::Record(copy),
                                Target { locator: Some(locator), node: Some(node) },
                            ),
                        )
                    },
                    Err(error) => Err(error),
                }
            },
            _ => {
                let mut message = join("act.", name);
                message.append(" must be an object");
                Err(validation_error(message.as_str()))
            },
        };
    }
    if same_text(name, "switch_frame") {
        if let JsonValue::Record(fields) = payload {
            if find_field(fields, "ref").is_some() {
                let mut copy = copy_fields(fields);
                return match take_reference(&mut copy, references) {
                    Ok((locator, node)) => Ok(
                        (
                            single_value("target", locator.clone()),
                            Target { locator: Some(locator), node: Some(node) },
                        ),
                    ),
                    Err(error) => Err(error),
                };
            }
        }
    }
    if same_text(name, "assert") {
        let mut target = none;
        return match replace_assertion_refs(payload, references, &mut target) {
            Ok(payload) => Ok((payload, target)),
            Err(error) => Err(error),
        };
    }
    Ok((payload.clone(), none))
}

/// Makes an action ready to be compiled.
pub fn prepare_action(action: &JsonValue, references: &References) -> (result: Result<
    PreparedAction,
    CommandError,
>)
    ensures
        match (result, prepared(action@, *references)) {
            (Ok(action), Ok(model)) => is_prepared(action, model),
            (Err(error), Err(refusal)) => is_refusal(error, refusal),
            _ => false,
        },
{
    broadcast use crate::json::group_json_views;

    let fields = match action {
        JsonValue::Record(fields) => fields,
        _ => {
            return Err(
                validation_error("action must be an object containing exactly one operation"),
            );
        },
    };
    if fields.len() != 1 {
        return Err(
            validation_error("action must be an object containing exactly one operation"),
        );
    }
    assert(fields_view(fields@)[0] == field_view(fields@[0]));
    let name = &fields[0].0;
    if !is_supported(name.as_str()) {
        let shown = quote(name.as_str());
        let message = join("unsupported interactive action ", shown.as_str());
        return Err(validation_error(message.as_str()));
    }
    match prepare_payload(name.as_str(), &fields[0].1, references) {
        Ok((payload, target)) => Ok(
            PreparedAction {
                step: single_value(name.as_str(), payload),
                locator: target.locator,
                name: name.clone(),
                backend_node_id: target.node,
            },
        ),
        Err(error) => Err(error),
    }
}

/// The locator that an identity stands for, from what was read of its text.
pub open spec fn locator_read(text: Seq<char>, parsed: Result<Json, Seq<char>>) -> Json {
    match parsed {
        Ok(value) => value,
        Err(_) => Json::Text(text),
    }
}

/// The references of a store that resolve, with their locators.
pub fn references_of(store: &SnapshotStore) -> (references: References)
    requires
        store.wf(),
    ensures
        references.last_ref == store@.last_ref,
        references.revision == store@.generation,
        forall|number: u64| #[trigger]
            lookup(references.entries@, number) == if store@.latest.contains_key(number) {
                let (identity, node) = store@.latest[number];
                Some(
                    (
                        locator_read(identity.text@, json_parsed(encode_utf8(identity.text@))),
                        node,
                    ),
                )
            } else {
                None
            },
{
    let ghost latest = store@.latest;
    let mut entries: Vec<Referent> = Vec::new();
    if let Some(snapshot) = store.latest_snapshot() {
        let ghost elements = snapshot.elements@;
        let mut i: usize = 0;
        while i < snapshot.elements.len()
            invariant
                i <= snapshot.elements.len(),
                elements == snapshot.elements@,
                latest == store@.latest,
                forall|k: int|
                    0 <= k < entries@.len() ==> latest.contains_key(
                        (#[trigger] entries@[k]).number,
                    ) && is_referent(entries@[k], latest),
                forall|k: int|
                    0 <= k < i && latest.contains_key((#[trigger] elements[k]).element_ref@)
                        ==> numbers(entries@).contains(elements[k].element_ref@),
            decreases snapshot.elements.len() - i,
        {
            let reference = snapshot.elements[i].element_ref;
            if let Ok((identity, backend_node_id)) = store.resolve(reference) {
                let locator = match read_json(identity.text.as_str().as_bytes()) {
                    Ok(value) => value,
                    Err(_) => JsonValue::Text(identity.text.clone()),
                };
                let ghost before = entries@;
                entries.push(Referent { number: reference.number(), locator, backend_node_id });
                proof {
                    assert(numbers(entries@) =~= numbers(before).push(reference@));
                    assert forall|k: int|
                        0 <= k < i + 1 && latest.contains_key(
                            (#[trigger] elements[k]).element_ref@,
                        ) implies numbers(entries@).contains(elements[k].element_ref@) by {
                        if k < i {
                            let at = numbers(before).index_of(elements[k].element_ref@);
                            assert(numbers(entries@)[at] == elements[k].element_ref@);
                        } else {
                            assert(numbers(entries@)[before.len() as int] == reference@);
                        }
                    }
                }
            }
            i += 1;
        }
        proof {
            assert forall|number: u64| #[trigger] latest.contains_key(number) implies numbers(
                entries@,
            ).contains(number) by {
                let k = choose|k: int|
                    0 <= k < store@.kept.last().snapshot.elements.len() && (
                    #[trigger] store@.kept.last().snapshot.elements[k]).element_ref@ == number;
                assert(elements[k].element_ref@ == number);
            }
        }
    }
    proof {
        assert forall|number: u64| #[trigger] lookup(entries@, number) == if latest.contains_key(
            number,
        ) {
            let (identity, node) = latest[number];
            Some((locator_read(identity.text@, json_parsed(encode_utf8(identity.text@))), node))
        } else {
            None
        } by {
            lookup_finds(entries@, latest, number);
        }
    }
    References { entries, last_ref: store.last_reference(), revision: store.generation() }
}

/// The numbers of referents.
spec fn numbers(entries: Seq<Referent>) -> Seq<u64> {
    entries.map_values(|entry: Referent| entry.number)
}

/// Whether a referent is what its number stands for.
spec fn is_referent(
    entry: Referent,
    latest: Map<u64, (LocatorIdentity, i64)>,
) -> bool {
    let (identity, node) = latest[entry.number];
    &&& entry.backend_node_id == node
    &&& entry.locator@ == locator_read(identity.text@, json_parsed(encode_utf8(identity.text@)))
}

proof fn lookup_finds(
    entries: Seq<Referent>,
    latest: Map<u64, (LocatorIdentity, i64)>,
    number: u64,
)
    requires
        forall|k: int|
            0 <= k < entries.len() ==> latest.contains_key((#[trigger] entries[k]).number)
                && is_referent(entries[k], latest),
    ensures
        numbers(entries).contains(number) ==> lookup(entries, number) == Some(
            (
                locator_read(
                    latest[number].0.text@,
                    json_parsed(encode_utf8(latest[number].0.text@)),
                ),
                latest[number].1,
            ),
        ),
        !numbers(entries).contains(number) ==> lookup(entries, number) is None,
        !latest.contains_key(number) ==> lookup(entries, number) is None,
    decreases entries.len(),
{
    if entries.len() > 0 {
        let rest = entries.skip(1);
        assert forall|k: int| 0 <= k < rest.len() implies latest.contains_key(
            (#[trigger] rest[k]).number,
        ) && is_referent(rest[k], latest) by {
            assert(rest[k] == entries[k + 1]);
        }
        lookup_finds(rest, latest, number);
        assert(numbers(entries)[0] == entries[0].number);
        if numbers(entries).contains(number) && entries[0].number != number {
            let at = numbers(entries).index_of(number);
            assert(numbers(rest)[at - 1] == number);
        }
        if numbers(rest).contains(number) {
            let at = numbers(rest).index_of(number);
            assert(numbers(entries)[at + 1] == number);
        }
    }
}

/// Whether a text can be the name of an environment variable.
pub open spec fn environment_name(text: Seq<char>) -> bool {
    &&& text.len() > 0
    &&& !('0' <= text[0] <= '9')
    &&& forall|i: int|
        0 <= i < text.len() ==> 'a' <= #[trigger] text[i] <= 'z' || 'A' <= text[i] <= 'Z' || '0'
            <= text[i] <= '9' || text[i] == '_'
}

/// Whether a text can be the name of an environment variable.
pub fn valid_environment_name(value: &str) -> (valid: bool)
    ensures
        valid == environment_name(value@),
{
    let chars = chars_of(value);
    if chars.len() == 0 || ('0' <= chars[0] && chars[0] <= '9') {
        return false;
    }
    let mut i: usize = 0;
    while i < chars.len()
        invariant
            i <= chars.len(),
            chars@ == value@,
            forall|k: int|
                0 <= k < i ==> 'a' <= #[trigger] value@[k] <= 'z' || 'A' <= value@[k] <= 'Z' || '0'
                    <= value@[k] <= '9' || value@[k] == '_',
        decreases chars.len() - i,
    {
        let ch = chars[i];
        if !(('a' <= ch && ch <= 'z') || ('A' <= ch && ch <= 'Z') || ('0' <= ch && ch <= '9') || ch
            == '_') {
            assert(value@[i as int] == ch);
            return false;
        }
        i += 1;
    }
    true
}

/// The environment variables that a value refers to, in order.
pub open spec fn environment_references(value: Json) -> Seq<Seq<char>>
    decreases value,
{
    match environment_of(value) {
        Some(name) => seq![name],
        None => match value {
            Json::List(items) => items_environment(items),
            Json::Record(fields) => fields_environment(fields),
            _ => Seq::empty(),
        },
    }
}

/// The environment variables that items refer to.
pub open spec fn items_environment(items: Seq<Json>) -> Seq<Seq<char>>
    decreases items,
{
    if items.len() == 0 {
        Seq::empty()
    } else {
        items_environment(items.drop_last()) + environment_references(items.last())
    }
}

/// The environment variables that fields refer to.
pub open spec fn fields_environment(fields: Seq<(Seq<char>, Json)>) -> Seq<Seq<char>>
    decreases fields,
{
    if fields.len() == 0 {
        Seq::empty()
    } else {
        fields_environment(fields.drop_last()) + environment_references(fields.last().1)
    }
}

fn collect_environment(value: &JsonValue, names: &mut Vec<String>)
    ensures
        texts_view(final(names)@) == texts_view(old(names)@) + environment_references(value@),
    decreases value,
{
    broadcast use crate::json::group_json_views;

    let ghost start = texts_view(names@);
    if let Some(name) = environment_reference(value) {
        names.push(name);
        assert(texts_view(names@) =~= start + seq![name@]);
        return;
    }
    match value {
        JsonValue::List(items) => {
            let ghost all = values_view(items@);
            let mut i: usize = 0;
            assert(all.take(0) =~= Seq::<Json>::empty());
            assert(start =~= start + items_environment(all.take(0)));
            while i < items.len()
                invariant
                    i <= items.len(),
                    *value == JsonValue::List(*items),
                    value@ == Json::List(all),
                    all == values_view(items@),
                    texts_view(names@) == start + items_environment(all.take(i as int)),
                decreases items.len() - i,
            {
                proof {
                    item_is_smaller(*value, i as int);
                    assert(all.take(i + 1).drop_last() == all.take(i as int));
                    assert(all.take(i + 1).last() == items@[i as int]@);
                }
                collect_environment(&items[i], names);
                assert(texts_view(names@) =~= start + items_environment(all.take(i + 1)));
                i += 1;
            }
            assert(all.take(i as int) == all);
        },
        JsonValue::Record(fields) => {
            let ghost all = fields_view(fields@);
            let mut i: usize = 0;
            assert(all.take(0) =~= Seq::<(Seq<char>, Json)>::empty());
            assert(start =~= start + fields_environment(all.take(0)));
            while i < fields.len()
                invariant
                    i <= fields.len(),
                    *value == JsonValue::Record(*fields),
                    value@ == Json::Record(all),
                    all == fields_view(fields@),
                    texts_view(names@) == start + fields_environment(all.take(i as int)),
                decreases fields.len() - i,
            {
                proof {
                    field_is_smaller(*value, i as int);
                    assert(all.take(i + 1).drop_last() == all.take(i as int));
                    assert(all.take(i + 1).last() == field_view(fields@[i as int]));
                }
                collect_environment(&fields[i].1, names);
                assert(texts_view(names@) =~= start + fields_environment(all.take(i + 1)));
                i += 1;
            }
            assert(all.take(i as int) == all);
        },
        _ => {
            assert(texts_view(names@) =~= start + Seq::<Seq<char>>::empty());
        },
    }
}

/// The environment variables that a value refers to, in order.
pub fn environment_names(value: &JsonValue) -> (names: Vec<String>)
    ensures
        texts_view(names@) == environment_references(value@),
{
    let mut names: Vec<String> = Vec::new();
    assert(texts_view(names@) =~= Seq::<Seq<char>>::empty());
    collect_environment(value, &mut names);
    assert(texts_view(names@) =~= environment_references(value@));
    names
}

/// The name of an interactive secret.
pub open spec fn interactive_secret(number: nat) -> Seq<char> {
    "interactive_secret_"@ + decimal(number)
}

/// A value with its references to the environment replaced by the names of secrets, which are
/// numbered from one on, and the variables of those secrets. `available` are the variables that are
/// set.
pub open spec fn environment_replaced(
    value: Json,
    found: Seq<Seq<char>>,
    available: Seq<Seq<char>>,
) -> Result<(Json, Seq<Seq<char>>), Seq<char>>
    decreases value,
{
    match environment_of(value) {
        Some(name) => if !environment_name(name) {
            Err("environment name must match [A-Za-z_][A-Za-z0-9_]*"@)
        } else if !available.contains(name) {
            Err("environment variable "@ + quoted(name) + " is unavailable"@)
        } else {
            Ok(
                (
                    Json::Text(placeholder(interactive_secret(found.len() + 1))),
                    found.push(name),
                ),
            )
        },
        None => match value {
            Json::List(items) => match items_replaced(items, found, available) {
                Ok((items, found)) => Ok((Json::List(items), found)),
                Err(message) => Err(message),
            },
            Json::Record(fields) => match fields_replaced(fields, found, available) {
                Ok((fields, found)) => Ok((Json::Record(fields), found)),
                Err(message) => Err(message),
            },
            _ => Ok((value, found)),
        },
    }
}

/// Items with their references to the environment replaced.
pub open spec fn items_replaced(
    items: Seq<Json>,
    found: Seq<Seq<char>>,
    available: Seq<Seq<char>>,
) -> Result<(Seq<Json>, Seq<Seq<char>>), Seq<char>>
    decreases items,
{
    if items.len() == 0 {
        Ok((items, found))
    } else {
        match items_replaced(items.drop_last(), found, available) {
            Err(message) => Err(message),
            Ok((before, found)) => match environment_replaced(items.last(), found, available) {
                Err(message) => Err(message),
                Ok((last, found)) => Ok((before.push(last), found)),
            },
        }
    }
}

/// Fields with their references to the environment replaced.
pub open spec fn fields_replaced(
    fields: Seq<(Seq<char>, Json)>,
    found: Seq<Seq<char>>,
    available: Seq<Seq<char>>,
) -> Result<(Seq<(Seq<char>, Json)>, Seq<Seq<char>>), Seq<char>>
    decreases fields,
{
    if fields.len() == 0 {
        Ok((fields, found))
    } else {
        match fields_replaced(fields.drop_last(), found, available) {
            Err(message) => Err(message),
            Ok((before, found)) => match environment_replaced(fields.last().1, found, available) {
                Err(message) => Err(message),
                Ok((last, found)) => Ok((before.push((fields.last().0, last)), found)),
            },
        }
    }
}

proof fn refused_item_stays(
    items: Seq<Json>,
    found: Seq<Seq<char>>,
    available: Seq<Seq<char>>,
    at: int,
)
    requires
        0 <= at <= items.len(),
        items_replaced(items.take(at), found, available) is Err,
    ensures
        items_replaced(items, found, available) == items_replaced(
            items.take(at),
            found,
            available,
        ),
    decreases items.len() - at,
{
    if at < items.len() {
        assert(items.take(at + 1).drop_last() == items.take(at));
        refused_item_stays(items, found, available, at + 1);
    } else {
        assert(items.take(at) == items);
    }
}

proof fn refused_field_stays(
    fields: Seq<(Seq<char>, Json)>,
    found: Seq<Seq<char>>,
    available: Seq<Seq<char>>,
    at: int,
)
    requires
        0 <= at <= fields.len(),
        fields_replaced(fields.take(at), found, available) is Err,
    ensures
        fields_replaced(fields, found, available) == fields_replaced(
            fields.take(at),
            found,
            available,
        ),
    decreases fields.len() - at,
{
    if at < fields.len() {
        assert(fields.take(at + 1).drop_last() == fields.take(at));
        refused_field_stays(fields, found, available, at + 1);
    } else {
        assert(fields.take(at) == fields);
    }
}

/// Replaces the references of a value to the environment.
pub fn replace_environment_values(
    value: &JsonValue,
    found: &mut Vec<String>,
    available: &Vec<String>,
) -> (result: Result<JsonValue, String>)
    ensures
        match (
            result,
            environment_replaced(value@, texts_view(old(found)@), texts_view(available@)),
        ) {
            (Ok(result), Ok((expected, names))) => result@ == expected && texts_view(final(found)@)
                == names,
            (Err(message), Err(expected)) => message@ == expected,
            _ => false,
        },
    decreases value,
{
    broadcast use crate::json::group_json_views;

    let ghost start = texts_view(found@);
    let ghost known = texts_view(available@);
    if let Some(name) = environment_reference(value) {
        if !valid_environment_name(name.as_str()) {
            return Err("environment name must match [A-Za-z_][A-Za-z0-9_]*".to_owned());
        }
        if !holds_text(available, name.as_str()) {
            let mut message = "environment variable ".to_owned();
            let shown = quote(name.as_str());
            message.append(shown.as_str());
            message.append(" is unavailable");
            return Err(message);
        }
        let number: u128 = found.len() as u128 + 1;
        let mut text = "${".to_owned();
        text.append("interactive_secret_");
        let numeral = wide_decimal_text(number);
        text.append(numeral.as_str());
        text.append("}");
        proof {
            assert(text@ =~= placeholder(interactive_secret(start.len() + 1)));
        }
        found.push(name);
        assert(texts_view(found@) =~= start.push(name@));
        return Ok(JsonValue::Text(text));
    }
    match value {
        JsonValue::List(items) => {
            let ghost all = values_view(items@);
            let mut values: Vec<JsonValue> = Vec::new();
            let mut i: usize = 0;
            assert(all.take(0) =~= Seq::<Json>::empty());
            assert(values_view(values@) =~= Seq::<Json>::empty());
            while i < items.len()
                invariant
                    i <= items.len(),
                    *value == JsonValue::List(*items),
                    value@ == Json::List(all),
                    all == values_view(items@),
                    known == texts_view(available@),
                    start == texts_view(old(found)@),
                    environment_of(value@) is None,
                    items_replaced(all.take(i as int), start, known) == Ok::<
                        (Seq<Json>, Seq<Seq<char>>),
                        Seq<char>,
                    >((values_view(values@), texts_view(found@))),
                decreases items.len() - i,
            {
                proof {
                    item_is_smaller(*value, i as int);
                    assert(all.take(i + 1).drop_last() == all.take(i as int));
                    assert(all.take(i + 1).last() == items@[i as int]@);
                }
                let ghost before = values_view(values@);
                match replace_environment_values(&items[i], found, available) {
                    Ok(child) => {
                        values.push(child);
                        assert(values_view(values@) =~= before.push(child@));
                    },
                    Err(message) => {
                        proof {
                            refused_item_stays(all, start, known, i + 1);
                        }
                        return Err(message);
                    },
                }
                i += 1;
            }
            assert(all.take(i as int) == all);
            Ok(JsonValue::List(values))
        },
        JsonValue::Record(fields) => {
            let ghost all = fields_view(fields@);
            let mut values: Vec<(String, JsonValue)> = Vec::new();
            let mut i: usize = 0;
            assert(all.take(0) =~= Seq::<(Seq<char>, Json)>::empty());
            assert(fields_view(values@) =~= Seq::<(Seq<char>, Json)>::empty());
            while i < fields.len()
                invariant
                    i <= fields.len(),
                    *value == JsonValue::Record(*fields),
                    value@ == Json::Record(all),
                    all == fields_view(fields@),
                    known == texts_view(available@),
                    start == texts_view(old(found)@),
                    environment_of(value@) is None,
                    fields_replaced(all.take(i as int), start, known) == Ok::<
                        (Seq<(Seq<char>, Json)>, Seq<Seq<char>>),
                        Seq<char>,
                    >((fields_view(values@), texts_view(found@))),
                decreases fields.len() - i,
            {
                proof {
                    field_is_smaller(*value, i as int);
                    assert(all.take(i + 1).drop_last() == all.take(i as int));
                    assert(all.take(i + 1).last() == field_view(fields@[i as int]));
                }
                let ghost before = fields_view(values@);
                match replace_environment_values(&fields[i].1, found, available) {
                    Ok(child) => {
                        values.push((fields[i].0.clone(), child));
                        assert(fields_view(values@) =~= before.push(
                            (fields@[i as int].0@, child@),
                        ));
                    },
                    Err(message) => {
                        proof {
                            refused_field_stays(all, start, known, i + 1);
                        }
                        return Err(message);
                    },
                }
                i += 1;
            }
            assert(all.take(i as int) == all);
            Ok(JsonValue::Record(values))
        },
        _ => Ok(value.clone()),
    }
}

/// The secrets of a flow, by their names.
pub open spec fn secret_records(found: Seq<Seq<char>>) -> Seq<(Seq<char>, Json)> {
    found.map(
        |i: int, name: Seq<char>|
            (interactive_secret((i + 1) as nat), single("env"@, Json::Text(name))),
    )
}

/// The flow that an interactive step runs as. The timeout is in nanoseconds.
pub open spec fn interactive_flow(
    step: Json,
    found: Seq<Seq<char>>,
    timeout: u128,
    viewport: Viewport,
) -> Json {
    Json::Record(
        seq![
            ("version"@, Json::Integer(1)),
            ("name"@, Json::Text("interactive-action"@)),
            (
                "settings"@,
                Json::Record(
                    seq![
                        ("timeout"@, Json::Text(decimal((timeout / 1_000_000) as nat) + "ms"@)),
                        (
                            "viewport"@,
                            Json::Record(
                                seq![
                                    ("width"@, Json::Integer(viewport.width as int)),
                                    ("height"@, Json::Integer(viewport.height as int)),
                                ],
                            ),
                        ),
                        ("video"@, Json::Text("off"@)),
                    ],
                ),
            ),
            ("secrets"@, Json::Record(secret_records(found))),
            ("steps"@, Json::List(seq![step])),
        ],
    )
}

fn secrets_value(found: &Vec<String>) -> (value: JsonValue)
    ensures
        value@ == Json::Record(secret_records(texts_view(found@))),
{
    broadcast use crate::json::group_json_views;

    let mut fields: Vec<(String, JsonValue)> = Vec::new();
    let mut i: usize = 0;
    while i < found.len()
        invariant
            i <= found.len(),
            fields@.len() == i,
            forall|k: int|
                0 <= k < i ==> field_view(#[trigger] fields@[k]) == (
                    interactive_secret((k + 1) as nat),
                    single("env"@, Json::Text(found@[k]@)),
                ),
        decreases found.len() - i,
    {
        let number = wide_decimal_text(i as u128 + 1);
        let name = join("interactive_secret_", number.as_str());
        fields.push((name, single_value("env", text_value(found[i].as_str()))));
        i += 1;
    }
    assert(fields_view(fields@) =~= secret_records(texts_view(found@)));
    JsonValue::Record(fields)
}

fn settings_value(timeout: u128, viewport: Viewport) -> (value: JsonValue)
    ensures
        value@ == Json::Record(
            seq![
                ("timeout"@, Json::Text(decimal((timeout / 1_000_000) as nat) + "ms"@)),
                (
                    "viewport"@,
                    Json::Record(
                        seq![
                            ("width"@, Json::Integer(viewport.width as int)),
                            ("height"@, Json::Integer(viewport.height as int)),
                        ],
                    ),
                ),
                ("video"@, Json::Text("off"@)),
            ],
        ),
{
    broadcast use crate::json::group_json_views;

    let size: Vec<(String, JsonValue)> = vec![
        field("width", JsonValue::Unsigned(viewport.width as u64)),
        field("height", JsonValue::Unsigned(viewport.height as u64)),
    ];
    assert(fields_view(size@) =~= seq![
        ("width"@, Json::Integer(viewport.width as int)),
        ("height"@, Json::Integer(viewport.height as int)),
    ]);
    let mut wait = wide_decimal_text(timeout / 1_000_000);
    wait.append("ms");
    let fields: Vec<(String, JsonValue)> = vec![
        field("timeout", JsonValue::Text(wait)),
        field("viewport", JsonValue::Record(size)),
        field("video", text_value("off")),
    ];
    assert(fields_view(fields@) =~= seq![
        ("timeout"@, Json::Text(decimal((timeout / 1_000_000) as nat) + "ms"@)),
        (
            "viewport"@,
            Json::Record(
                seq![
                    ("width"@, Json::Integer(viewport.width as int)),
                    ("height"@, Json::Integer(viewport.height as int)),
                ],
            ),
        ),
        ("video"@, Json::Text("off"@)),
    ]);
    JsonValue::Record(fields)
}

/// The flow that an interactive step runs as, or why there is none.
pub fn interactive_record(
    step: &JsonValue,
    available: &Vec<String>,
    timeout: u128,
    viewport: Viewport,
) -> (result: Result<JsonValue, String>)
    ensures
        match (result, environment_replaced(step@, Seq::empty(), texts_view(available@))) {
            (Ok(flow), Ok((step, found))) => flow@ == interactive_flow(
                step,
                found,
                timeout,
                viewport,
            ),
            (Err(message), Err(expected)) => message@ == expected,
            _ => false,
        },
{
    broadcast use crate::json::group_json_views;

    let mut found: Vec<String> = Vec::new();
    assert(texts_view(found@) =~= Seq::<Seq<char>>::empty());
    let executable = match replace_environment_values(step, &mut found, available) {
        Ok(executable) => executable,
        Err(message) => {
            return Err(message);
        },
    };
    let ghost told = executable@;
    let steps: Vec<JsonValue> = vec![executable];
    assert(values_view(steps@) =~= seq![told]);
    let fields: Vec<(String, JsonValue)> = vec![
        field("version", JsonValue::Unsigned(1)),
        field("name", text_value("interactive-action")),
        field("settings", settings_value(timeout, viewport)),
        field("secrets", secrets_value(&found)),
        field("steps", JsonValue::List(steps)),
    ];
    proof {
        let flow = interactive_flow(told, texts_view(found@), timeout, viewport);
        assert(fields_view(fields@) =~= flow->Record_0);
    }
    Ok(JsonValue::Record(fields))
}

/// The text of the flow that an interactive step runs as, or why there is none.
pub fn interactive_source(
    step: &JsonValue,
    available: &Vec<String>,
    timeout: u128,
    viewport: Viewport,
) -> (result: Result<String, String>)
    ensures
        match (result, environment_replaced(step@, Seq::empty(), texts_view(available@))) {
            (Ok(source), Ok((step, found))) => source@ == json_text(
                canonical(interactive_flow(step, found, timeout, viewport)),
            ),
            (Err(message), Err(expected)) => message@ == expected,
            _ => false,
        },
{
    match interactive_record(step, available, timeout, viewport) {
        Ok(flow) => Ok(write_json(&flow)),
        Err(message) => Err(message),
    }
}

/// The secrets of a journal with those of a flow's inputs.
pub open spec fn with_inputs(
    secrets: Seq<Seq<char>>,
    inputs: Seq<(String, Resolved<String>)>,
) -> Seq<Seq<char>>
    decreases inputs.len(),
{
    if inputs.len() == 0 {
        secrets
    } else {
        let before = with_inputs(secrets, inputs.drop_last());
        if inputs.last().1.secret {
            with_secret(before, inputs.last().1.value@)
        } else {
            before
        }
    }
}

/// Keeps the secret inputs of a flow out of the journal.
pub fn register_flow_secrets(journal: &mut JournalWriter, flow: &CompiledFlow)
    ensures
        final(journal).secrets@ == with_inputs(old(journal).secrets@, flow.inputs@),
        final(journal).next_sequence == old(journal).next_sequence,
{
    let ghost start = journal.secrets@;
    let mut i: usize = 0;
    assert(flow.inputs@.take(0) =~= Seq::<(String, Resolved<String>)>::empty());
    while i < flow.inputs.len()
        invariant
            i <= flow.inputs.len(),
            start == old(journal).secrets@,
            journal.secrets@ == with_inputs(start, flow.inputs@.take(i as int)),
            journal.next_sequence == old(journal).next_sequence,
        decreases flow.inputs.len() - i,
    {
        proof {
            let taken = flow.inputs@.take(i + 1);
            assert(taken.drop_last() == flow.inputs@.take(i as int));
            assert(taken.last() == flow.inputs@[i as int]);
        }
        if flow.inputs[i].1.secret {
            journal.register_secret(flow.inputs[i].1.value.as_str());
        }
        i += 1;
    }
    assert(flow.inputs@.take(i as int) == flow.inputs@);
}

/// The secrets of an interactive step are the variables that it refers to, in order: nothing else of
/// the environment is named, and nothing that is referred to is left out.
pub proof fn every_reference_becomes_a_secret(
    value: Json,
    found: Seq<Seq<char>>,
    available: Seq<Seq<char>>,
)
    ensures
        environment_replaced(value, found, available) is Ok ==> environment_replaced(
            value,
            found,
            available,
        )->Ok_0.1 == found + environment_references(value),
    decreases value,
{
    match environment_of(value) {
        Some(name) => {
            assert(found + seq![name] =~= found.push(name));
        },
        None => match value {
            Json::List(items) => {
                every_item_reference_becomes_a_secret(items, found, available);
            },
            Json::Record(fields) => {
                every_field_reference_becomes_a_secret(fields, found, available);
            },
            _ => {
                assert(found + Seq::<Seq<char>>::empty() =~= found);
            },
        },
    }
}

proof fn every_item_reference_becomes_a_secret(
    items: Seq<Json>,
    found: Seq<Seq<char>>,
    available: Seq<Seq<char>>,
)
    ensures
        items_replaced(items, found, available) is Ok ==> items_replaced(
            items,
            found,
            available,
        )->Ok_0.1 == found + items_environment(items),
    decreases items,
{
    if items.len() == 0 {
        assert(found + Seq::<Seq<char>>::empty() =~= found);
    } else {
        every_item_reference_becomes_a_secret(items.drop_last(), found, available);
        if items_replaced(items.drop_last(), found, available) is Ok {
            let between = items_replaced(items.drop_last(), found, available)->Ok_0.1;
            every_reference_becomes_a_secret(items.last(), between, available);
            assert(found + items_environment(items) =~= (found + items_environment(
                items.drop_last(),
            )) + environment_references(items.last()));
        }
    }
}

proof fn every_field_reference_becomes_a_secret(
    fields: Seq<(Seq<char>, Json)>,
    found: Seq<Seq<char>>,
    available: Seq<Seq<char>>,
)
    ensures
        fields_replaced(fields, found, available) is Ok ==> fields_replaced(
            fields,
            found,
            available,
        )->Ok_0.1 == found + fields_environment(fields),
    decreases fields,
{
    if fields.len() == 0 {
        assert(found + Seq::<Seq<char>>::empty() =~= found);
    } else {
        every_field_reference_becomes_a_secret(fields.drop_last(), found, available);
        if fields_replaced(fields.drop_last(), found, available) is Ok {
            let between = fields_replaced(fields.drop_last(), found, available)->Ok_0.1;
            assert(decreases_to!(fields => fields.last()));
            assert(decreases_to!(fields.last() => fields.last().1));
            every_reference_becomes_a_secret(fields.last().1, between, available);
            assert(found + fields_environment(fields) =~= (found + fields_environment(
                fields.drop_last(),
            )) + environment_references(fields.last().1));
        }
    }
}

/// A reference leads back to the locator that its element was captured with, where the text of the
/// locator reads back.
pub proof fn references_lead_to_their_locator(text: Seq<char>, locator: Json)
    requires
        reads_back(text, locator),
        integral(locator),
        depth(locator) < 128,
    ensures
        locator_read(text, json_parsed(encode_utf8(text))) == locator,
{
    integers_read_back(text, locator);
}

/// An action is one operation, and its step is that operation under its own name.
pub proof fn an_action_is_one_operation(
    action: JsonValue,
    references: References,
    result: Result<PreparedAction, CommandError>,
)
    requires
        call_ensures(prepare_action, (&action, &references), result),
    ensures
        result matches Ok(prepared) ==> {
            &&& action@ is Record
            &&& action@->Record_0.len() == 1
            &&& prepared.name@ == action@->Record_0[0].0
            &&& prepared.step@ is Record
            &&& prepared.step@->Record_0.len() == 1
            &&& prepared.step@->Record_0[0].0 == action@->Record_0[0].0
        },
        !(action@ is Record) ==> result is Err && result->Err_0.code is Validation,
        action@ is Record && action@->Record_0.len() != 1 ==> result is Err && result->Err_0.code
            is Validation,
{
    if let Ok(model) = prepared(action@, references) {
        assert(model.step == single(model.name, model.step->Record_0[0].1));
    }
}

proof fn names_of_actions()
    ensures
        "click"@ != "open"@,
        "double_click"@ != "open"@,
        "fill"@ != "open"@,
        "erase"@ != "open"@,
        "select"@ != "open"@,
        "press"@ != "open"@,
        "wait_until_visible"@ != "open"@,
        "wait_until_stable"@ != "open"@,
        "target"@ != "ref"@,
{
    reveal_strlit("open");
    reveal_strlit("click");
    reveal_strlit("double_click");
    reveal_strlit("fill");
    reveal_strlit("erase");
    reveal_strlit("select");
    reveal_strlit("press");
    reveal_strlit("wait_until_visible");
    reveal_strlit("wait_until_stable");
    reveal_strlit("target");
    reveal_strlit("ref");
    assert("open"@.len() == 4 && "click"@.len() == 5 && "double_click"@.len() == 12);
    assert("open"@[0] == 'o' && "fill"@[0] == 'f');
    assert("erase"@.len() == 5 && "select"@.len() == 6 && "press"@.len() == 5);
    assert("wait_until_visible"@.len() == 18 && "wait_until_stable"@.len() == 17);
    assert("target"@.len() == 6 && "ref"@.len() == 3);
}

/// An operation on an element refers to it. Its step has the element's locator as its target in place of the
/// reference, and every other field as it was; the action leads to the element's node.
pub proof fn references_become_targets(
    action: JsonValue,
    references: References,
    result: Result<PreparedAction, CommandError>,
    name: Seq<char>,
    fields: Seq<(Seq<char>, Json)>,
    number: u64,
    text: Seq<char>,
    at: int,
    other: Seq<char>,
)
    requires
        call_ensures(prepare_action, (&action, &references), result),
        name == "click"@ || name == "double_click"@ || name == "fill"@ || name == "erase"@ || name
            == "select"@ || name == "press"@ || name == "wait_until_visible"@ || name
            == "wait_until_stable"@,
        action@ == Json::Record(seq![(name, Json::Record(fields))]),
        field_of(fields, "ref"@) == Some(Json::Text(text)),
        reference_of(text) == Some(number),
        0 <= at < references.entries@.len(),
        references.entries@[at].number == number,
        forall|i: int| 0 <= i < at ==> (#[trigger] references.entries@[i]).number != number,
    ensures
        result matches Ok(prepared) && {
            let entry = references.entries@[at];
            let payload = prepared.step@->Record_0[0].1;
            &&& prepared.name@ == name
            &&& payload is Record
            &&& field_of(payload->Record_0, "target"@) == Some(entry.locator@)
            &&& (other != "ref"@ && other != "target"@ ==> field_of(payload->Record_0, other)
                == field_of(fields, other))
            &&& prepared.backend_node_id == Some(entry.backend_node_id)
            &&& (prepared.locator matches Some(locator) && locator@ == entry.locator@)
        },
{
    names_of_actions();
    lookup_is_first(references.entries@, number, at);
    let entry = references.entries@[at];
    let taken = without_field(fields, "ref"@);
    crate::json::removed_fields_are_gone(fields, "ref"@, other);
    crate::json::set_field_reads_back(taken, "target"@, entry.locator@, other);
    let record = seq![(name, Json::Record(fields))];
    assert(record[0] == (name, Json::Record(fields)));
    assert(supported(name));
    assert(reference_taken(fields, references) == Ok::<(Json, i64), Refusal>(
        (entry.locator@, entry.backend_node_id),
    ));
}

proof fn lookup_is_first(entries: Seq<Referent>, number: u64, at: int)
    requires
        0 <= at < entries.len(),
        entries[at].number == number,
        forall|i: int| 0 <= i < at ==> (#[trigger] entries[i]).number != number,
    ensures
        lookup(entries, number) == Some((entries[at].locator@, entries[at].backend_node_id)),
    decreases at,
{
    if at > 0 {
        assert(entries[0].number != number);
        let rest = entries.skip(1);
        assert forall|i: int| 0 <= i < at - 1 implies (#[trigger] rest[i]).number != number by {
            assert(rest[i] == entries[i + 1]);
        }
        lookup_is_first(rest, number, at - 1);
    }
}

/// A reference that is not known is stale if it was given out before, and unknown if not; either way the
/// latest snapshot is told.
pub proof fn unknown_references_are_told_apart(
    text: Seq<char>,
    references: References,
    number: u64,
)
    requires
        reference_of(text) == Some(number),
        forall|i: int|
            0 <= i < references.entries@.len() ==> (#[trigger] references.entries@[i]).number
                != number,
    ensures
        referent_of(text, references) matches Err(refusal) && refusal.latest == Some(
            references.revision,
        ) && (refusal.code is StaleReference <==> number <= references.last_ref) && (refusal.code
            is UnknownReference <==> number > references.last_ref),
{
    nothing_is_looked_up(references.entries@, number);
}

proof fn nothing_is_looked_up(entries: Seq<Referent>, number: u64)
    requires
        forall|i: int| 0 <= i < entries.len() ==> (#[trigger] entries[i]).number != number,
    ensures
        lookup(entries, number) is None,
    decreases entries.len(),
{
    if entries.len() > 0 {
        assert(entries[0].number != number);
        let rest = entries.skip(1);
        assert forall|i: int| 0 <= i < rest.len() implies (#[trigger] rest[i]).number != number by {
            assert(rest[i] == entries[i + 1]);
        }
        nothing_is_looked_up(rest, number);
    }
}

/// Whether a value refers to an element, at any depth.
pub open spec fn refers(value: Json) -> bool
    decreases value,
{
    match value {
        Json::Record(fields) => field_of(fields, "ref"@) is Some || exists|i: int|
            0 <= i < fields.len() && refers((#[trigger] fields[i]).1),
        Json::List(items) => exists|i: int| 0 <= i < items.len() && refers(#[trigger] items[i]),
        _ => false,
    }
}

/// An assertion that refers to no element stays as it is and aims at nothing new.
pub proof fn assertions_without_references_stay(value: Json, references: References, aim: Aim)
    requires
        !refers(value),
    ensures
        asserted(value, references, aim) == Ok::<(Json, Aim), Refusal>((value, aim)),
    decreases value,
{
    match value {
        Json::Record(fields) => {
            assert(decreases_to!(value => fields));
            assert forall|i: int| 0 <= i < fields.len() implies !refers(
                (#[trigger] fields[i]).1,
            ) by {}
            fields_without_references_stay(fields, references, aim);
        },
        Json::List(items) => {
            assert(decreases_to!(value => items));
            items_without_references_stay(items, references, aim);
        },
        _ => {},
    }
}

proof fn fields_without_references_stay(
    fields: Seq<(Seq<char>, Json)>,
    references: References,
    aim: Aim,
)
    requires
        forall|i: int| 0 <= i < fields.len() ==> !refers((#[trigger] fields[i]).1),
    ensures
        asserted_fields(fields, references, aim) == Ok::<(Seq<(Seq<char>, Json)>, Aim), Refusal>(
            (fields, aim),
        ),
    decreases fields,
{
    if fields.len() > 0 {
        let before = fields.drop_last();
        assert forall|i: int| 0 <= i < before.len() implies !refers((#[trigger] before[i]).1) by {
            assert(before[i] == fields[i]);
        }
        fields_without_references_stay(before, references, aim);
        assert(decreases_to!(fields => fields[fields.len() - 1]));
        assert(!refers(fields[fields.len() - 1].1));
        assertions_without_references_stay(fields.last().1, references, aim);
        assert(before.push((fields.last().0, fields.last().1)) =~= fields);
    }
}

proof fn items_without_references_stay(items: Seq<Json>, references: References, aim: Aim)
    requires
        forall|i: int| 0 <= i < items.len() ==> !refers(#[trigger] items[i]),
    ensures
        asserted_items(items, references, aim) == Ok::<(Seq<Json>, Aim), Refusal>((items, aim)),
    decreases items,
{
    if items.len() > 0 {
        let before = items.drop_last();
        assert forall|i: int| 0 <= i < before.len() implies !refers(#[trigger] before[i]) by {
            assert(before[i] == items[i]);
        }
        items_without_references_stay(before, references, aim);
        assert(decreases_to!(items => items[items.len() - 1]));
        assertions_without_references_stay(items.last(), references, aim);
        assert(before.push(items.last()) =~= items);
    }
}

/// In an assertion a reference is replaced by the element's locator, at any depth, and the action aims at that
/// element.
pub proof fn references_in_assertions_become_locators(
    name: Seq<char>,
    text: Seq<char>,
    references: References,
    aim: Aim,
    at: int,
    number: u64,
)
    requires
        name != "ref"@,
        reference_of(text) == Some(number),
        0 <= at < references.entries@.len(),
        references.entries@[at].number == number,
        forall|i: int| 0 <= i < at ==> (#[trigger] references.entries@[i]).number != number,
    ensures
        ({
            let entry = references.entries@[at];
            let reference = Json::Record(seq![("ref"@, Json::Text(text))]);
            asserted(Json::Record(seq![(name, reference)]), references, aim) == Ok::<
                (Json, Aim),
                Refusal,
            >(
                (
                    Json::Record(seq![(name, entry.locator@)]),
                    Aim { locator: Some(entry.locator@), node: Some(entry.backend_node_id) },
                ),
            )
        }),
{
    lookup_is_first(references.entries@, number, at);
    let entry = references.entries@[at];
    let inner = seq![("ref"@, Json::Text(text))];
    let reference = Json::Record(inner);
    let outer = seq![(name, reference)];
    assert(field_of(inner, "ref"@) == Some(Json::Text(text)));
    assert(outer.skip(1) =~= Seq::<(Seq<char>, Json)>::empty());
    assert(field_of(outer.skip(1), "ref"@) is None);
    assert(field_of(outer, "ref"@) is None);
    assert(outer.drop_last() =~= Seq::<(Seq<char>, Json)>::empty());
    assert(asserted_fields(outer.drop_last(), references, aim) == Ok::<
        (Seq<(Seq<char>, Json)>, Aim),
        Refusal,
    >((Seq::empty(), aim)));
    let found = asserted(reference, references, aim);
    assert(found == Ok::<(Json, Aim), Refusal>(
        (
            entry.locator@,
            Aim { locator: Some(entry.locator@), node: Some(entry.backend_node_id) },
        ),
    ));
    assert(Seq::<(Seq<char>, Json)>::empty().push((name, entry.locator@)) =~= seq![
        (name, entry.locator@),
    ]);
}

/// Opening takes an address, whatever else is given, and aims at no element.
pub proof fn opening_takes_the_address(
    fields: Seq<(Seq<char>, Json)>,
    references: References,
)
    ensures
        field_of(fields, "url"@) matches Some(url) ==> payload_of(
            "open"@,
            Json::Record(fields),
            references,
        ) == Ok::<(Json, Aim), Refusal>((url, Aim { locator: None, node: None })),
        field_of(fields, "url"@) is None ==> payload_of("open"@, Json::Record(fields), references)
            is Err,
{
}

/// The name of a variable is letters, digits and underscores, and begins with no digit.
pub proof fn variables_have_plain_names(value: &str, valid: bool, i: int)
    requires
        call_ensures(valid_environment_name, (value,), valid),
    ensures
        value@.len() == 0 ==> !valid,
        value@.len() > 0 && '0' <= value@[0] <= '9' ==> !valid,
        valid && 0 <= i < value@.len() ==> value@[i] == '_' || '0' <= value@[i] <= '9' || 'A'
            <= value@[i] <= 'Z' || 'a' <= value@[i] <= 'z',
        value@.len() > 0 && (forall|k: int|
            0 <= k < value@.len() ==> #[trigger] value@[k] == '_' || 'A' <= value@[k] <= 'Z' || 'a'
                <= value@[k] <= 'z') ==> valid,
        value@.len() == 2 && value@[0] == '_' && '0' <= value@[1] <= '9' ==> valid,
{
}

/// A step that refers to no variable stays as it is.
pub proof fn steps_without_variables_stay(
    value: Json,
    found: Seq<Seq<char>>,
    available: Seq<Seq<char>>,
)
    requires
        environment_references(value).len() == 0,
    ensures
        environment_replaced(value, found, available) == Ok::<(Json, Seq<Seq<char>>), Seq<char>>(
            (value, found),
        ),
    decreases value,
{
    match value {
        Json::Record(fields) => {
            if environment_of(value) is None {
                assert(decreases_to!(value => fields));
                fields_without_variables_stay(fields, found, available);
            }
        },
        Json::List(items) => {
            assert(decreases_to!(value => items));
            items_without_variables_stay(items, found, available);
        },
        _ => {},
    }
}

proof fn fields_without_variables_stay(
    fields: Seq<(Seq<char>, Json)>,
    found: Seq<Seq<char>>,
    available: Seq<Seq<char>>,
)
    requires
        fields_environment(fields).len() == 0,
    ensures
        fields_replaced(fields, found, available) == Ok::<
            (Seq<(Seq<char>, Json)>, Seq<Seq<char>>),
            Seq<char>,
        >((fields, found)),
    decreases fields,
{
    if fields.len() > 0 {
        let before = fields.drop_last();
        fields_without_variables_stay(before, found, available);
        assert(decreases_to!(fields => fields[fields.len() - 1]));
        steps_without_variables_stay(fields.last().1, found, available);
        assert(before.push((fields.last().0, fields.last().1)) =~= fields);
    }
}

proof fn items_without_variables_stay(
    items: Seq<Json>,
    found: Seq<Seq<char>>,
    available: Seq<Seq<char>>,
)
    requires
        items_environment(items).len() == 0,
    ensures
        items_replaced(items, found, available) == Ok::<(Seq<Json>, Seq<Seq<char>>), Seq<char>>(
            (items, found),
        ),
    decreases items,
{
    if items.len() > 0 {
        let before = items.drop_last();
        items_without_variables_stay(before, found, available);
        assert(decreases_to!(items => items[items.len() - 1]));
        steps_without_variables_stay(items.last(), found, available);
        assert(before.push(items.last()) =~= items);
    }
}

/// A reference to a variable that is available is replaced by the name of a secret, numbered by how many there
/// are; one to a variable that is not available is refused.
pub proof fn variables_become_numbered_secrets(
    name: Seq<char>,
    found: Seq<Seq<char>>,
    available: Seq<Seq<char>>,
)
    ensures
        ({
            let reference = Json::Record(seq![("env"@, Json::Text(name))]);
            &&& available.contains(name) && environment_name(name) ==> environment_replaced(
                reference,
                found,
                available,
            ) == Ok::<(Json, Seq<Seq<char>>), Seq<char>>(
                (
                    Json::Text(
                        "${"@ + ("interactive_secret_"@ + decimal((found.len() + 1) as nat)) + "}"@,
                    ),
                    found.push(name),
                ),
            )
            &&& !available.contains(name) || !environment_name(name) ==> environment_replaced(
                reference,
                found,
                available,
            ) is Err
        }),
{
}

/// A single action is a flow of its own: of one step, with its time, its viewport and no recording, and with
/// the secrets that the step refers to, in order.
pub proof fn actions_are_flows_of_one_step(
    step: JsonValue,
    available: Vec<String>,
    timeout: u128,
    viewport: Viewport,
    result: Result<JsonValue, String>,
    i: int,
)
    requires
        call_ensures(interactive_record, (&step, &available, timeout, viewport), result),
        environment_references(step@).len() == 0,
    ensures
        result matches Ok(flow) && (flow@ matches Json::Record(fields) && {
            &&& fields.contains(("version"@, Json::Integer(1)))
            &&& fields.contains(("steps"@, Json::List(seq![step@])))
            &&& fields.contains(("secrets"@, Json::Record(Seq::empty())))
            &&& exists|settings: Seq<(Seq<char>, Json)>| #[trigger]
                fields.contains(("settings"@, Json::Record(settings))) && settings.contains(
                    ("timeout"@, Json::Text(decimal((timeout / 1_000_000) as nat) + "ms"@)),
                ) && settings.contains(("video"@, Json::Text("off"@))) && settings.contains(
                    (
                        "viewport"@,
                        Json::Record(
                            seq![
                                ("width"@, Json::Integer(viewport.width as int)),
                                ("height"@, Json::Integer(viewport.height as int)),
                            ],
                        ),
                    ),
                )
        }),
{
    steps_without_variables_stay(step@, Seq::empty(), texts_view(available@));
    let fields = interactive_flow(step@, Seq::empty(), timeout, viewport)->Record_0;
    assert(secret_records(Seq::empty()) =~= Seq::<(Seq<char>, Json)>::empty());
    assert(fields[0] == ("version"@, Json::Integer(1)));
    assert(fields[4] == ("steps"@, Json::List(seq![step@])));
    assert(fields[3] == ("secrets"@, Json::Record(Seq::empty())));
    let settings = fields[2].1->Record_0;
    assert(fields[2] == ("settings"@, Json::Record(settings)));
    assert(fields.contains(("settings"@, Json::Record(settings))));
    assert(settings[0] == ("timeout"@, Json::Text(decimal((timeout / 1_000_000) as nat) + "ms"@)));
    assert(settings[2] == ("video"@, Json::Text("off"@)));
    assert(settings[1].0 == "viewport"@);
    assert(settings.contains(settings[1]));
}

/// Each secret of an action is read from the variable that it stands for.
pub proof fn secrets_stand_for_their_variables(found: Seq<Seq<char>>, i: int)
    requires
        0 <= i < found.len(),
    ensures
        secret_records(found).len() == found.len(),
        secret_records(found)[i] == (
            "interactive_secret_"@ + decimal((i + 1) as nat),
            Json::Record(seq![("env"@, Json::Text(found[i]))]),
        ),
{
}

/// Every secret input of a flow is kept from view, and nothing else of it is.
pub proof fn secret_inputs_are_kept_from_view(
    secrets: Seq<Seq<char>>,
    inputs: Seq<(String, Resolved<String>)>,
    i: int,
    text: Seq<char>,
)
    requires
        crate::secrets::in_order(secrets),
    ensures
        crate::secrets::in_order(with_inputs(secrets, inputs)),
        0 <= i < inputs.len() && inputs[i].1.secret && inputs[i].1.value@.len() > 0 ==> with_inputs(
            secrets,
            inputs,
        ).contains(inputs[i].1.value@),
        secrets.contains(text) ==> with_inputs(secrets, inputs).contains(text),
        with_inputs(secrets, inputs).contains(text) && !secrets.contains(text) ==> exists|k: int|
            0 <= k < inputs.len() && (#[trigger] inputs[k]).1.secret && inputs[k].1.value@ == text,
    decreases inputs.len(),
{
    if inputs.len() > 0 {
        let fewer = inputs.drop_last();
        let before = with_inputs(secrets, fewer);
        let last = inputs.last().1;
        secret_inputs_are_kept_from_view(secrets, fewer, i, text);
        crate::secrets::registering_keeps_order(before, last.value@);
        crate::secrets::only_registered_texts_are_secret(before, last.value@, text);
        if 0 <= i < fewer.len() {
            assert(fewer[i] == inputs[i]);
            crate::secrets::only_registered_texts_are_secret(
                before,
                last.value@,
                inputs[i].1.value@,
            );
        }
        crate::secrets::only_registered_texts_are_secret(before, last.value@, last.value@);
        if with_inputs(secrets, inputs).contains(text) && !secrets.contains(text) {
            if before.contains(text) {
                let k = choose|k: int|
                    0 <= k < fewer.len() && (#[trigger] fewer[k]).1.secret && fewer[k].1.value@
                        == text;
                assert(fewer[k] == inputs[k]);
            } else {
                assert(inputs[inputs.len() - 1].1.secret);
            }
        }
    }
}

/// An operation is supported exactly if it is one of those that a session can do.
pub proof fn sessions_do_these_operations(name: Seq<char>, payload: Json, references: References)
    ensures
        ({
            let known = name == "open"@ || name == "back"@ || name == "switch_page"@ || name
                == "switch_frame"@ || name == "pause"@ || name == "assert"@ || name == "click"@
                || name == "double_click"@ || name == "fill"@ || name == "erase"@ || name
                == "select"@ || name == "press"@ || name == "wait_until_visible"@ || name
                == "wait_until_stable"@;
            let result = prepared(Json::Record(seq![(name, payload)]), references);
            &&& !known ==> (result matches Err(refusal) && refusal.code is Validation)
            &&& known ==> (result is Err <==> payload_of(name, payload, references) is Err)
        }),
{
    let record = seq![(name, payload)];
    assert(record[0] == (name, payload));
}

/// Operations that name no element are done as they were given.
pub proof fn operations_without_elements_stay(payload: Json, references: References)
    ensures
        payload_of("back"@, payload, references) == Ok::<(Json, Aim), Refusal>(
            (payload, Aim { locator: None, node: None }),
        ),
        payload_of("switch_page"@, payload, references) == Ok::<(Json, Aim), Refusal>(
            (payload, Aim { locator: None, node: None }),
        ),
        payload_of("pause"@, payload, references) == Ok::<(Json, Aim), Refusal>(
            (payload, Aim { locator: None, node: None }),
        ),
{
    reveal_strlit("back");
    reveal_strlit("switch_page");
    reveal_strlit("pause");
    reveal_strlit("open");
    reveal_strlit("click");
    reveal_strlit("double_click");
    reveal_strlit("fill");
    reveal_strlit("erase");
    reveal_strlit("select");
    reveal_strlit("press");
    reveal_strlit("wait_until_visible");
    reveal_strlit("wait_until_stable");
    reveal_strlit("switch_frame");
    reveal_strlit("assert");
    assert("back"@.len() == 4 && "open"@.len() == 4 && "fill"@.len() == 4);
    assert("back"@[0] == 'b' && "open"@[0] == 'o' && "fill"@[0] == 'f');
    assert("switch_page"@.len() == 11 && "double_click"@.len() == 12);
    assert("switch_frame"@.len() == 12 && "assert"@.len() == 6 && "select"@.len() == 6);
    assert("pause"@.len() == 5 && "click"@.len() == 5 && "erase"@.len() == 5);
    assert("press"@.len() == 5 && "pause"@[0] == 'p' && "press"@[0] == 'p');
    assert("pause"@[1] == 'a' && "press"@[1] == 'r' && "click"@[0] == 'c' && "erase"@[0] == 'e');
    assert("wait_until_visible"@.len() == 18 && "wait_until_stable"@.len() == 17);
}

/// A reference is taken out of what it was given with, and leads to its element; the other fields stay.
pub proof fn references_are_taken_out(
    fields: &mut Vec<(String, JsonValue)>,
    references: References,
    result: Result<(JsonValue, i64), CommandError>,
    other: Seq<char>,
    number: u64,
    text: Seq<char>,
    at: int,
)
    requires
        call_ensures(take_reference, (fields, &references), result),
        field_of(fields_view(old(fields)@), "ref"@) == Some(Json::Text(text)),
        reference_of(text) == Some(number),
        0 <= at < references.entries@.len(),
        references.entries@[at].number == number,
        forall|i: int| 0 <= i < at ==> (#[trigger] references.entries@[i]).number != number,
    ensures
        result matches Ok((locator, node)) && locator@ == references.entries@[at].locator@ && node
            == references.entries@[at].backend_node_id,
        other != "ref"@ ==> field_of(fields_view(final(fields)@), other) == field_of(
            fields_view(old(fields)@),
            other,
        ),
{
    lookup_is_first(references.entries@, number, at);
    crate::json::removed_fields_are_gone(fields_view(old(fields)@), "ref"@, other);
}

/// The source of an action is the text of its flow.
pub proof fn sources_are_the_text_of_their_flow(
    step: JsonValue,
    available: Vec<String>,
    timeout: u128,
    viewport: Viewport,
    record: Result<JsonValue, String>,
    source: Result<String, String>,
)
    requires
        call_ensures(interactive_record, (&step, &available, timeout, viewport), record),
        call_ensures(interactive_source, (&step, &available, timeout, viewport), source),
    ensures
        source is Ok <==> record is Ok,
        source is Ok ==> source->Ok_0@ == json_text(canonical(record->Ok_0@)),
        source is Err ==> source->Err_0@ == record->Err_0@,
{
}

/// The references of a session are those that its latest snapshot gave out, each to the element it was given
/// to.
pub proof fn references_are_those_of_the_latest_snapshot(
    store: SnapshotStore,
    references: References,
    number: u64,
)
    requires
        store.wf(),
        call_ensures(references_of, (&store,), references),
    ensures
        references.last_ref == store@.last_ref,
        references.revision == store@.generation,
        lookup(references.entries@, number) is Some <==> store@.latest.contains_key(number),
        store@.latest.contains_key(number) ==> (lookup(
            references.entries@,
            number,
        )->0).1 == store@.latest[number].1,
        store@.latest.contains_key(number) ==> (json_parsed(
            encode_utf8(store@.latest[number].0.text@),
        ) matches Ok(locator) ==> (lookup(references.entries@, number)->0).0 == locator),
{
}

} // verus!
