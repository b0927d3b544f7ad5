//! How steps and their targets are told in reports.

use crate::flow::{
    Assertion, ClearTarget, CompiledFlow, CompiledStep, FrameSwitch, Locator, LocatorRelation,
    LocatorStrategy, NativeDialogResponse, Operation, PageSwitch, RecordingControl, SettleCondition,
};
use crate::report::{optional_safe, REDACTED, SafeText, StepContext};
use crate::text::{copy_optional, decimal, decimal_text, optional_text, quote, quoted, same_text};
use crate::values::Resolved;
use vstd::prelude::*;
use vstd::string::*;

verus! {

/// The name of an operation.
pub open spec fn operation_label(operation: Operation) -> Seq<char> {
    match operation {
        Operation::Open { .. } => "open"@,
        Operation::Click { .. } => "click"@,
        Operation::ClickPoint { .. } => "click.point"@,
        Operation::DoubleClick { .. } => "double_click"@,
        Operation::Fill { .. } => "fill"@,
        Operation::Erase { .. } => "erase"@,
        Operation::Select { .. } => "select"@,
        Operation::Scroll { .. } => "scroll"@,
        Operation::ScrollUntilVisible { .. } => "scroll_until_visible"@,
        Operation::Swipe { .. } => "swipe"@,
        Operation::LongPress { .. } => "long_press"@,
        Operation::WaitUntilVisible { .. } => "wait_until_visible"@,
        Operation::WaitUntilStable { .. } => "wait_until_stable"@,
        Operation::Pause { .. } => "pause"@,
        Operation::Back => "back"@,
        Operation::SwitchPage(PageSwitch::Popup) => "switch_page.popup"@,
        Operation::SwitchPage(PageSwitch::Opener) => "switch_page.opener"@,
        Operation::SwitchPage(PageSwitch::Name(_)) => "switch_page.name"@,
        Operation::SwitchPage(PageSwitch::Url(_)) => "switch_page.url"@,
        Operation::SwitchFrame(FrameSwitch::Target(_)) => "switch_frame.target"@,
        Operation::SwitchFrame(FrameSwitch::Main) => "switch_frame.main"@,
        Operation::SwitchFrame(FrameSwitch::Parent) => "switch_frame.parent"@,
        Operation::Press { .. } => "press"@,
        Operation::Screenshot { .. } => "screenshot"@,
        Operation::Recording(RecordingControl::Start) => "recording.start"@,
        Operation::Recording(RecordingControl::Stop) => "recording.stop"@,
        Operation::Dialog { action: NativeDialogResponse::Accept, .. } => "dialog.accept"@,
        Operation::Dialog { action: NativeDialogResponse::Dismiss, .. } => "dialog.dismiss"@,
        Operation::Clear(ClearTarget::Cookies) => "clear.cookies"@,
        Operation::Clear(ClearTarget::Storage) => "clear.storage"@,
        Operation::Clear(ClearTarget::Indexeddb) => "clear.indexeddb"@,
        Operation::Clear(ClearTarget::CacheStorage) => "clear.cache-storage"@,
        Operation::Clear(ClearTarget::ServiceWorkers) => "clear.service-workers"@,
        Operation::Evaluate { .. } => "evaluate"@,
        Operation::Request { .. } => "request"@,
        Operation::Assert(Assertion::Visible(_)) => "assert.visible"@,
        Operation::Assert(Assertion::Hidden(_)) => "assert.hidden"@,
        Operation::Assert(Assertion::Text { .. }) => "assert.text"@,
        Operation::Assert(Assertion::Url(_)) => "assert.url"@,
        Operation::Assert(Assertion::Screenshot(_)) => "assert.screenshot"@,
    }
}

/// The name of an operation.
pub fn operation_name(operation: &Operation) -> (name: &'static str)
    ensures
        name@ == operation_label(*operation),
{
    match operation {
        Operation::Open { .. } => "open",
        Operation::Click { .. } => "click",
        Operation::ClickPoint { .. } => "click.point",
        Operation::DoubleClick { .. } => "double_click",
        Operation::Fill { .. } => "fill",
        Operation::Erase { .. } => "erase",
        Operation::Select { .. } => "select",
        Operation::Scroll { .. } => "scroll",
        Operation::ScrollUntilVisible { .. } => "scroll_until_visible",
        Operation::Swipe { .. } => "swipe",
        Operation::LongPress { .. } => "long_press",
        Operation::WaitUntilVisible { .. } => "wait_until_visible",
        Operation::WaitUntilStable { .. } => "wait_until_stable",
        Operation::Pause { .. } => "pause",
        Operation::Back => "back",
        Operation::SwitchPage(PageSwitch::Popup) => "switch_page.popup",
        Operation::SwitchPage(PageSwitch::Opener) => "switch_page.opener",
        Operation::SwitchPage(PageSwitch::Name(_)) => "switch_page.name",
        Operation::SwitchPage(PageSwitch::Url(_)) => "switch_page.url",
        Operation::SwitchFrame(FrameSwitch::Target(_)) => "switch_frame.target",
        Operation::SwitchFrame(FrameSwitch::Main) => "switch_frame.main",
        Operation::SwitchFrame(FrameSwitch::Parent) => "switch_frame.parent",
        Operation::Press { .. } => "press",
        Operation::Screenshot { .. } => "screenshot",
        Operation::Recording(RecordingControl::Start) => "recording.start",
        Operation::Recording(RecordingControl::Stop) => "recording.stop",
        Operation::Dialog { action: NativeDialogResponse::Accept, .. } => "dialog.accept",
        Operation::Dialog { action: NativeDialogResponse::Dismiss, .. } => "dialog.dismiss",
        Operation::Clear(ClearTarget::Cookies) => "clear.cookies",
        Operation::Clear(ClearTarget::Storage) => "clear.storage",
        Operation::Clear(ClearTarget::Indexeddb) => "clear.indexeddb",
        Operation::Clear(ClearTarget::CacheStorage) => "clear.cache-storage",
        Operation::Clear(ClearTarget::ServiceWorkers) => "clear.service-workers",
        Operation::Evaluate { .. } => "evaluate",
        Operation::Request { .. } => "request",
        Operation::Assert(Assertion::Visible(_)) => "assert.visible",
        Operation::Assert(Assertion::Hidden(_)) => "assert.hidden",
        Operation::Assert(Assertion::Text { .. }) => "assert.text",
        Operation::Assert(Assertion::Url(_)) => "assert.url",
        Operation::Assert(Assertion::Screenshot(_)) => "assert.screenshot",
    }
}

/// The element that an operation is about, if it is about one.
pub open spec fn operation_target(operation: Operation) -> Option<Locator> {
    match operation {
        Operation::Click { target, .. } => Some(target),
        Operation::DoubleClick { target, .. } => Some(target),
        Operation::Fill { target, .. } => Some(target),
        Operation::Erase { target } => Some(target),
        Operation::Select { target, .. } => Some(target),
        Operation::ScrollUntilVisible { target, .. } => Some(target),
        Operation::Swipe { target, .. } => Some(target),
        Operation::LongPress { target, .. } => Some(target),
        Operation::WaitUntilVisible { target } => Some(target),
        Operation::WaitUntilStable { target } => Some(target),
        Operation::Press { target, .. } => Some(target),
        Operation::SwitchFrame(FrameSwitch::Target(target)) => Some(target),
        Operation::Assert(Assertion::Text { target, .. }) => Some(target),
        Operation::Assert(Assertion::Visible(target)) => Some(target),
        Operation::Assert(Assertion::Hidden(target)) => Some(target),
        Operation::Open { settle: Some(SettleCondition::Visible(target)), .. } => Some(target),
        Operation::Open { settle: Some(SettleCondition::Stable(target)), .. } => Some(target),
        _ => None,
    }
}

/// The element that an operation is about, if it is about one.
pub fn operation_locator(operation: &Operation) -> (locator: Option<&Locator>)
    ensures
        match locator {
            Some(locator) => operation_target(*operation) == Some(*locator),
            None => operation_target(*operation) is None,
        },
{
    match operation {
        Operation::Click { target, .. } => Some(target),
        Operation::DoubleClick { target, .. } => Some(target),
        Operation::Fill { target, .. } => Some(target),
        Operation::Erase { target } => Some(target),
        Operation::Select { target, .. } => Some(target),
        Operation::ScrollUntilVisible { target, .. } => Some(target),
        Operation::Swipe { target, .. } => Some(target),
        Operation::LongPress { target, .. } => Some(target),
        Operation::WaitUntilVisible { target } => Some(target),
        Operation::WaitUntilStable { target } => Some(target),
        Operation::Press { target, .. } => Some(target),
        Operation::SwitchFrame(FrameSwitch::Target(target)) => Some(target),
        Operation::Assert(Assertion::Text { target, .. }) => Some(target),
        Operation::Assert(Assertion::Visible(target)) => Some(target),
        Operation::Assert(Assertion::Hidden(target)) => Some(target),
        Operation::Open { settle: Some(SettleCondition::Visible(target)), .. } => Some(target),
        Operation::Open { settle: Some(SettleCondition::Stable(target)), .. } => Some(target),
        _ => None,
    }
}

/// A named value in quotes.
pub open spec fn labelled(name: Seq<char>, value: Seq<char>) -> Seq<char> {
    name + quoted(value)
}

/// How a strategy is told, unless it is secret.
pub open spec fn strategy_shown(strategy: LocatorStrategy) -> Option<Seq<char>> {
    match strategy {
        LocatorStrategy::Css(value) => if value.secret {
            None
        } else {
            Some(labelled("css="@, value.value@))
        },
        LocatorStrategy::TestId(value) => if value.secret {
            None
        } else {
            Some(labelled("test_id="@, value.value@))
        },
        LocatorStrategy::Text { value, .. } => if value.secret {
            None
        } else {
            Some(labelled("text="@, value.value@))
        },
        LocatorStrategy::Label(value) => if value.secret {
            None
        } else {
            Some(labelled("label="@, value.value@))
        },
        LocatorStrategy::Role { value, name } => match name {
            Some(name) => if value.secret || name.secret {
                None
            } else {
                Some(labelled("role="@, value.value@) + labelled(" name="@, name.value@))
            },
            None => if value.secret {
                None
            } else {
                Some(labelled("role="@, value.value@))
            },
        },
    }
}

/// How a state is told, where the locator asks for it.
pub open spec fn flag_shown(name: Seq<char>, flag: Option<bool>) -> Seq<char> {
    match flag {
        Some(true) => name + "true"@,
        Some(false) => name + "false"@,
        None => Seq::empty(),
    }
}

/// How the position and the states that a locator asks for are told.
pub open spec fn states_shown(locator: Locator) -> Seq<char> {
    (match locator.index {
        Some(index) => " index="@ + decimal(index as nat),
        None => Seq::empty(),
    }) + flag_shown(" checked="@, locator.checked) + flag_shown(" selected="@, locator.selected)
        + flag_shown(" focused="@, locator.focused) + flag_shown(" enabled="@, locator.enabled)
}

/// How a locator is told, unless it or one of its relations is secret.
pub open spec fn locator_shown(locator: Locator) -> Option<Seq<char>>
    decreases locator,
{
    match strategy_shown(locator.strategy) {
        Some(head) => relations_shown(locator.relations@, head + states_shown(locator)),
        None => None,
    }
}

/// How the relations of a locator are told, after the text `before`.
pub open spec fn relations_shown(
    relations: Seq<LocatorRelation>,
    before: Seq<char>,
) -> Option<Seq<char>>
    decreases relations,
{
    if relations.len() == 0 {
        Some(before)
    } else {
        match relations_shown(relations.drop_last(), before) {
            Some(text) => match locator_shown(*relations.last().locator) {
                Some(nested) => Some(
                    text + " "@ + relations.last().kind.label() + "=("@ + nested + ")"@,
                ),
                None => None,
            },
            None => None,
        }
    }
}

/// The locator of a relation is smaller than the locator it belongs to.
pub proof fn relation_is_smaller(locator: Locator, i: int)
    requires
        0 <= i < locator.relations@.len(),
    ensures
        decreases_to!(locator => *locator.relations@[i].locator),
{
    assert(decreases_to!(locator => locator.relations));
    assert(decreases_to!(locator.relations@ => locator.relations@[i]));
    assert(decreases_to!(locator.relations@[i] => locator.relations@[i].locator));
}

fn append_labelled(text: &mut String, name: &str, value: &str)
    ensures
        final(text)@ == old(text)@ + labelled(name@, value@),
{
    text.append(name);
    let shown = quote(value);
    text.append(shown.as_str());
}

fn append_flag(text: &mut String, name: &str, flag: Option<bool>)
    ensures
        final(text)@ == old(text)@ + flag_shown(name@, flag),
{
    if let Some(flag) = flag {
        text.append(name);
        text.append(if flag { "true" } else { "false" });
    }
}

fn show_plain(name: &str, value: &Resolved<String>) -> (shown: Option<String>)
    ensures
        optional_text(shown) == if value.secret {
            None
        } else {
            Some(labelled(name@, value.value@))
        },
{
    if value.is_secret() {
        return None;
    }
    let mut text = String::new();
    append_labelled(&mut text, name, value.value.as_str());
    Some(text)
}

fn show_strategy(strategy: &LocatorStrategy) -> (shown: Option<String>)
    ensures
        optional_text(shown) == strategy_shown(*strategy),
{
    match strategy {
        LocatorStrategy::Css(value) => show_plain("css=", value),
        LocatorStrategy::TestId(value) => show_plain("test_id=", value),
        LocatorStrategy::Text { value, .. } => show_plain("text=", value),
        LocatorStrategy::Label(value) => show_plain("label=", value),
        LocatorStrategy::Role { value, name } => match name {
            Some(name) => {
                if value.is_secret() || name.is_secret() {
                    return None;
                }
                let mut text = String::new();
                append_labelled(&mut text, "role=", value.value.as_str());
                append_labelled(&mut text, " name=", name.value.as_str());
                Some(text)
            },
            None => show_plain("role=", value),
        },
    }
}

/// How a locator is told, unless it or one of its relations is secret.
pub fn locator_text_inner(locator: &Locator) -> (shown: Option<String>)
    ensures
        optional_text(shown) == locator_shown(*locator),
    decreases locator,
{
    let mut text = match show_strategy(&locator.strategy) {
        Some(text) => text,
        None => {
            return None;
        },
    };
    let ghost head = text@;
    if let Some(index) = locator.index {
        text.append(" index=");
        let number = decimal_text(index as u64);
        text.append(number.as_str());
    }
    append_flag(&mut text, " checked=", locator.checked);
    append_flag(&mut text, " selected=", locator.selected);
    append_flag(&mut text, " focused=", locator.focused);
    append_flag(&mut text, " enabled=", locator.enabled);
    let ghost before = head + states_shown(*locator);
    assert(text@ == before);
    let mut i: usize = 0;
    assert(locator.relations@.take(0) == Seq::<LocatorRelation>::empty());
    while i < locator.relations.len()
        invariant
            i <= locator.relations.len(),
            relations_shown(locator.relations@.take(i as int), before) == Some(text@),
            locator_shown(*locator) == relations_shown(locator.relations@, before),
        decreases locator.relations.len() - i,
    {
        let ghost taken = locator.relations@.take(i + 1);
        proof {
            relation_is_smaller(*locator, i as int);
            assert(taken.drop_last() == locator.relations@.take(i as int));
            assert(taken.last() == locator.relations@[i as int]);
        }
        match locator_text_inner(&locator.relations[i].locator) {
            Some(nested) => {
                text.append(" ");
                text.append(locator.relations[i].kind.as_str());
                text.append("=(");
                text.append(nested.as_str());
                text.append(")");
            },
            None => {
                proof {
                    hidden_relation_hides_all(locator.relations@, before, i + 1);
                }
                return None;
            },
        }
        i += 1;
    }
    assert(locator.relations@.take(i as int) == locator.relations@);
    Some(text)
}

proof fn hidden_relation_hides_all(relations: Seq<LocatorRelation>, before: Seq<char>, at: int)
    requires
        0 <= at <= relations.len(),
        relations_shown(relations.take(at), before) is None,
    ensures
        relations_shown(relations, before) is None,
    decreases relations.len() - at,
{
    if at < relations.len() {
        assert(relations.take(at + 1).drop_last() == relations.take(at));
        hidden_relation_hides_all(relations, before, at + 1);
    } else {
        assert(relations.take(at) == relations);
    }
}

/// How a locator is told in a report: a secret one only by the redaction mark.
pub fn locator_text(locator: &Locator) -> (text: SafeText)
    ensures
        text@ == match locator_shown(*locator) {
            Some(shown) => shown,
            None => REDACTED@,
        },
{
    match locator_text_inner(locator) {
        Some(text) => SafeText::public(text),
        None => SafeText::secret(),
    }
}

/// Whether a context tells of a step of a flow. A step of the flow's own file names no file.
pub open spec fn tells_of(context: StepContext, flow: CompiledFlow, step: CompiledStep) -> bool {
    let joined = step.source@ != flow.source@;
    &&& context.number == step.index
    &&& optional_text(context.source) == if joined {
        Some(step.source@)
    } else {
        None
    }
    &&& context.source_step == if joined {
        Some(step.source_index)
    } else {
        None
    }
    &&& context.id == step.id
    &&& context.operation@ == operation_label(step.operation)
    &&& optional_safe(context.locator) == match operation_target(step.operation) {
        Some(locator) => match locator_shown(locator) {
            Some(shown) => Some(shown),
            None => Some(REDACTED@),
        },
        None => None,
    }
}

/// How a step of a flow is told in a report.
pub fn step_context(flow: &CompiledFlow, step: &CompiledStep) -> (context: StepContext)
    ensures
        tells_of(context, *flow, *step),
{
    let joined = !same_text(step.source.as_str(), flow.source.as_str());
    StepContext {
        number: step.index,
        source: if joined {
            Some(step.source.clone())
        } else {
            None
        },
        source_step: if joined {
            Some(step.source_index)
        } else {
            None
        },
        id: copy_optional(&step.id),
        operation: operation_name(&step.operation).to_owned(),
        locator: match operation_locator(&step.operation) {
            Some(locator) => Some(locator_text(locator)),
            None => None,
        },
    }
}

/// Whether a locator, or one that it relates to, holds a secret value.
pub open spec fn holds_secret(locator: Locator) -> bool
    decreases locator,
{
    ||| strategy_shown(locator.strategy) is None
    ||| relations_hold_secret(locator.relations@)
}

/// Whether one of the relations holds a secret value.
pub open spec fn relations_hold_secret(relations: Seq<LocatorRelation>) -> bool
    decreases relations,
{
    relations.len() > 0 && (relations_hold_secret(relations.drop_last()) || holds_secret(
        *relations.last().locator,
    ))
}

/// A locator that holds a secret is never told: it is shown by the redaction mark alone.
pub proof fn secret_locators_are_never_shown(locator: Locator)
    ensures
        locator_shown(locator) is None <==> holds_secret(locator),
    decreases locator,
{
    if let Some(head) = strategy_shown(locator.strategy) {
        secret_relations_are_never_shown(locator.relations@, head + states_shown(locator));
    }
}

proof fn secret_relations_are_never_shown(relations: Seq<LocatorRelation>, before: Seq<char>)
    ensures
        relations_shown(relations, before) is None <==> relations_hold_secret(relations),
    decreases relations,
{
    if relations.len() > 0 {
        secret_relations_are_never_shown(relations.drop_last(), before);
        assert(decreases_to!(relations => relations.last()));
        assert(decreases_to!(relations.last() => relations.last().locator));
        secret_locators_are_never_shown(*relations.last().locator);
    }
}

/// A step is told by its number, its identifier and what it does, and by where it stands in a file of its own
/// if it is from one.
pub proof fn steps_are_told_by_place(flow: CompiledFlow, step: CompiledStep, context: StepContext)
    requires
        call_ensures(step_context, (&flow, &step), context),
    ensures
        context.number == step.index,
        context.id == step.id,
        step.source@ == flow.source@ ==> context.source is None && context.source_step is None,
        step.source@ != flow.source@ ==> context.source is Some && context.source->0@ == step.source@
            && context.source_step == Some(step.source_index),
{
}

/// What a step acts on is the element that it names; a step that names none acts on none.
pub proof fn steps_act_on_what_they_name(operation: Operation, locator: Option<&Locator>)
    requires
        call_ensures(operation_locator, (&operation,), locator),
    ensures
        match operation {
            Operation::Click { target, .. } => locator is Some && *locator->0 == target,
            Operation::DoubleClick { target, .. } => locator is Some && *locator->0 == target,
            Operation::Fill { target, .. } => locator is Some && *locator->0 == target,
            Operation::Erase { target } => locator is Some && *locator->0 == target,
            Operation::Select { target, .. } => locator is Some && *locator->0 == target,
            Operation::ScrollUntilVisible { target, .. } => locator is Some && *locator->0 == target,
            Operation::Swipe { target, .. } => locator is Some && *locator->0 == target,
            Operation::LongPress { target, .. } => locator is Some && *locator->0 == target,
            Operation::WaitUntilVisible { target } => locator is Some && *locator->0 == target,
            Operation::WaitUntilStable { target } => locator is Some && *locator->0 == target,
            Operation::Press { target, .. } => locator is Some && *locator->0 == target,
            Operation::SwitchFrame(place) => match place {
                FrameSwitch::Target(target) => locator is Some && *locator->0 == target,
                _ => locator is None,
            },
            Operation::Assert(assertion) => match assertion {
                Assertion::Visible(target) => locator is Some && *locator->0 == target,
                Assertion::Hidden(target) => locator is Some && *locator->0 == target,
                Assertion::Text { target, .. } => locator is Some && *locator->0 == target,
                _ => locator is None,
            },
            Operation::Open { settle, .. } => match settle {
                Some(SettleCondition::Visible(target)) => locator is Some && *locator->0 == target,
                Some(SettleCondition::Stable(target)) => locator is Some && *locator->0 == target,
                None => locator is None,
            },
            _ => locator is None,
        },
{
}

/// A locator is shown by what it looks for and what narrows it. One with a secret in it shows nothing but the
/// mark.
pub proof fn locators_are_shown_but_for_secrets(locator: Locator, text: SafeText)
    requires
        call_ensures(locator_text, (&locator,), text),
    ensures
        holds_secret(locator) ==> text@ == "[REDACTED]"@,
        locator.strategy matches LocatorStrategy::Css(value) ==> value.secret ==> text@
            == "[REDACTED]"@,
        locator.strategy matches LocatorStrategy::TestId(value) ==> value.secret ==> text@
            == "[REDACTED]"@,
        locator.strategy matches LocatorStrategy::Label(value) ==> value.secret ==> text@
            == "[REDACTED]"@,
        locator.strategy matches LocatorStrategy::Text { value, .. } ==> value.secret ==> text@
            == "[REDACTED]"@,
        locator.strategy matches LocatorStrategy::Role { value, name } ==> value.secret || (name
            is Some && name->0.secret) ==> text@ == "[REDACTED]"@,
        locator.relations@.len() == 0 && locator.index is None && locator.checked is None
            && locator.selected is None && locator.focused is None && locator.enabled is None ==> {
            &&& (locator.strategy matches LocatorStrategy::Css(value) ==> !value.secret ==> text@
                == "css="@ + quoted(value.value@))
            &&& (locator.strategy matches LocatorStrategy::TestId(value) ==> !value.secret ==> text@
                == "test_id="@ + quoted(value.value@))
            &&& (locator.strategy matches LocatorStrategy::Label(value) ==> !value.secret ==> text@
                == "label="@ + quoted(value.value@))
            &&& (locator.strategy matches LocatorStrategy::Text { value, .. } ==> !value.secret
                ==> text@ == "text="@ + quoted(value.value@))
        },
        locator.relations@.len() == 0 ==> (locator.index matches Some(index) ==> locator.checked
            is None && locator.selected is None && locator.focused is None && locator.enabled is None
            ==> (locator.strategy matches LocatorStrategy::Css(value) ==> !value.secret ==> text@
            == "css="@ + quoted(value.value@) + " index="@ + decimal(index as nat))),
{
    secret_locators_are_never_shown(locator);
    let none = Seq::<char>::empty();
    if locator.relations@.len() == 0 && strategy_shown(locator.strategy) is Some
        && locator.checked is None && locator.selected is None && locator.focused is None
        && locator.enabled is None {
        let head = strategy_shown(locator.strategy)->0;
        match locator.index {
            Some(index) => {
                assert(states_shown(locator) =~= " index="@ + decimal(index as nat));
                assert(head + (" index="@ + decimal(index as nat)) =~= head + " index="@ + decimal(
                    index as nat,
                ));
            },
            None => {
                assert(states_shown(locator) =~= none);
                assert(head + none =~= head);
            },
        }
    }
}

/// Each state that narrows a locator is shown by its name, in a fixed order.
pub proof fn states_are_shown_in_order(locator: Locator)
    requires
        locator.index is None,
    ensures
        ({
            let shown = |name: Seq<char>, flag: Option<bool>|
                match flag {
                    Some(flag) => name + (if flag {
                        "true"@
                    } else {
                        "false"@
                    }),
                    None => Seq::<char>::empty(),
                };
            states_shown(locator) == shown(" checked="@, locator.checked) + shown(
                " selected="@,
                locator.selected,
            ) + shown(" focused="@, locator.focused) + shown(" enabled="@, locator.enabled)
        }),
{
    let none = Seq::<char>::empty();
    let checked = flag_shown(" checked="@, locator.checked);
    assert(none + checked =~= checked);
}

} // verus!
