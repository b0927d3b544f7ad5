//! The journal of a session: what it tells, line by line, and how secrets are kept out of it.

use crate::codec::{
    alike_records_hold_the_same_integers, in_key_order, json_parsed, json_text, read_json,
    reads_back, unsigned_of, unsigned_value, write_json,
};
use crate::json::{
    canonical, canonical_fields, depth, field, field_is_smaller, field_of, field_view, fields_view,
    find_field, found_fields_stand, gathered, gathered_keeps_last, gathered_keys_ascend,
    item_is_smaller, no_fields, push_field, record_of, set_field, text_less, text_less_is_total,
    text_list, text_value, values_view, Json, JsonValue,
};
use crate::report::REDACTED;
use crate::secrets::{
    clashes, redacted, redacted_is_unchanged_or_marked, redacted_text_holds_no_secret, with_secret,
    SecretList,
};
use crate::text::{decimal, decimal_text, join, occurs, texts_view};
use vstd::prelude::*;
use vstd::string::*;
use vstd::utf8::*;

verus! {

/// How an element stands to another one.
#[derive(Debug, Clone, Copy, PartialEq, Eq, PartialOrd, Ord, Structural)]
pub enum RelationKind {
    Within,
    ChildOf,
    Has,
    Above,
    Below,
    Left,
    Right,
}

impl RelationKind {
    /// The relation's name.
    pub open spec fn label(self) -> Seq<char> {
        match self {
            RelationKind::Within => "within"@,
            RelationKind::ChildOf => "child_of"@,
            RelationKind::Has => "has"@,
            RelationKind::Above => "above"@,
            RelationKind::Below => "below"@,
            RelationKind::Left => "left"@,
            RelationKind::Right => "right"@,
        }
    }

    /// The relation's name.
    pub fn as_str(self) -> (name: &'static str)
        ensures
            name@ == self.label(),
    {
        match self {
            RelationKind::Within => "within",
            RelationKind::ChildOf => "child_of",
            RelationKind::Has => "has",
            RelationKind::Above => "above",
            RelationKind::Below => "below",
            RelationKind::Left => "left",
            RelationKind::Right => "right",
        }
    }
}

/// How a text is matched.
#[derive(Debug, Clone, Copy, PartialEq, Eq, Structural)]
pub enum TextMatch {
    Exact,
    Contains,
}

impl TextMatch {
    /// The match's name.
    pub open spec fn label(self) -> Seq<char> {
        match self {
            TextMatch::Exact => "exact"@,
            TextMatch::Contains => "contains"@,
        }
    }

    /// The match's name.
    pub fn name(self) -> (name: &'static str)
        ensures
            name@ == self.label(),
    {
        match self {
            TextMatch::Exact => "exact",
            TextMatch::Contains => "contains",
        }
    }
}


/// A record with one field.
pub open spec fn single(name: Seq<char>, value: Json) -> Json {
    Json::Record(seq![(name, value)])
}

/// A record with one field.
pub fn single_value(name: &str, value: JsonValue) -> (record: JsonValue)
    ensures
        record@ == single(name@, value@),
{
    broadcast use crate::json::group_json_views;

    let fields: Vec<(String, JsonValue)> = vec![field(name, value)];
    assert(fields_view(fields@) =~= seq![(name@, value@)]);
    JsonValue::Record(fields)
}

/// A secret that stands in the environment.
#[derive(Debug, Clone, PartialEq, Eq)]
pub struct SecretReference {
    pub env: String,
}

impl SecretReference {
    /// The secret of an environment variable.
    pub fn from_env(name: &str) -> (reference: SecretReference)
        ensures
            reference.env@ == name@,
    {
        SecretReference { env: name.to_owned() }
    }

    /// The record of the secret.
    pub fn to_json(&self) -> (value: JsonValue)
        ensures
            value@ == single("env"@, Json::Text(self.env@)),
    {
        single_value("env", text_value(self.env.as_str()))
    }
}

/// A value of a replay.
#[derive(Debug, Clone, PartialEq, Eq)]
pub enum ReplayValue {
    Literal(String),
    Environment(SecretReference),
}

/// How a value is told.
pub open spec fn replay_value_json(value: ReplayValue) -> Json {
    match value {
        ReplayValue::Literal(text) => Json::Text(text@),
        ReplayValue::Environment(reference) => single("env"@, Json::Text(reference.env@)),
    }
}

impl ReplayValue {
    /// How the value is told.
    pub fn to_json(&self) -> (value: JsonValue)
        ensures
            value@ == replay_value_json(*self),
    {
        match self {
            ReplayValue::Literal(text) => text_value(text.as_str()),
            ReplayValue::Environment(reference) => reference.to_json(),
        }
    }
}

/// How a locator that outlives a snapshot finds its element.
#[derive(Debug, Clone, PartialEq, Eq)]
#[allow(inconsistent_fields)]
pub enum LocatorStrategy {
    Css(String),
    TestId(String),
    Text { value: String, match_kind: TextMatch },
    Label(String),
    Role { value: String, name: Option<String> },
}

/// A relation of a locator that outlives a snapshot.
#[derive(Debug, PartialEq, Eq)]
pub struct DurableRelation {
    pub kind: RelationKind,
    pub locator: Box<DurableLocator>,
}

/// A locator that outlives a snapshot. Of two relations of one kind the later counts.
#[derive(Debug, PartialEq, Eq)]
pub struct DurableLocator {
    pub strategy: LocatorStrategy,
    pub index: Option<usize>,
    pub checked: Option<bool>,
    pub selected: Option<bool>,
    pub focused: Option<bool>,
    pub enabled: Option<bool>,
    pub relations: Vec<DurableRelation>,
}

/// The field of a strategy.
pub open spec fn durable_strategy(strategy: LocatorStrategy) -> (Seq<char>, Json) {
    match strategy {
        LocatorStrategy::Css(value) => ("css"@, Json::Text(value@)),
        LocatorStrategy::TestId(value) => ("test_id"@, Json::Text(value@)),
        LocatorStrategy::Text { value, match_kind } => (
            "text"@,
            Json::Record(
                gathered(
                    seq![
                        ("value"@, Json::Text(value@)),
                        ("match"@, Json::Text(match_kind.label())),
                    ],
                ),
            ),
        ),
        LocatorStrategy::Label(value) => ("label"@, Json::Text(value@)),
        LocatorStrategy::Role { value, name } => (
            "role"@,
            Json::Record(
                gathered(
                    match name {
                        Some(name) => seq![
                            ("value"@, Json::Text(value@)),
                            ("name"@, Json::Text(name@)),
                        ],
                        None => seq![("value"@, Json::Text(value@))],
                    },
                ),
            ),
        ),
    }
}

/// Fields with one more, if it is known.
pub open spec fn flagged(
    fields: Seq<(Seq<char>, Json)>,
    name: Seq<char>,
    flag: Option<bool>,
) -> Seq<(Seq<char>, Json)> {
    match flag {
        Some(flag) => fields.push((name, Json::Bool(flag))),
        None => fields,
    }
}

/// The fields of a locator without its relations.
pub open spec fn durable_own_fields(locator: DurableLocator) -> Seq<(Seq<char>, Json)> {
    let fields = seq![durable_strategy(locator.strategy)];
    let fields = match locator.index {
        Some(index) => fields.push(("index"@, Json::Integer(index as int))),
        None => fields,
    };
    let fields = flagged(fields, "checked"@, locator.checked);
    let fields = flagged(fields, "selected"@, locator.selected);
    let fields = flagged(fields, "focused"@, locator.focused);
    flagged(fields, "enabled"@, locator.enabled)
}

/// The record of a locator.
pub open spec fn durable_json(locator: DurableLocator) -> Json
    decreases locator,
{
    Json::Record(gathered(durable_related(durable_own_fields(locator), locator.relations@)))
}

/// Fields with those of relations.
pub open spec fn durable_related(
    fields: Seq<(Seq<char>, Json)>,
    relations: Seq<DurableRelation>,
) -> Seq<(Seq<char>, Json)>
    decreases relations,
{
    if relations.len() == 0 {
        fields
    } else {
        durable_related(fields, relations.drop_last()).push(
            (relations.last().kind.label(), durable_json(*relations.last().locator)),
        )
    }
}

proof fn durable_relation_is_smaller(locator: DurableLocator, i: int)
    requires
        0 <= i < locator.relations@.len(),
    ensures
        decreases_to!(locator => *locator.relations@[i].locator),
{
    assert(decreases_to!(locator => locator.relations));
    assert(decreases_to!(locator.relations@ => locator.relations@[i]));
    assert(decreases_to!(locator.relations@[i] => locator.relations@[i].locator));
}

fn push_flag(fields: &mut Vec<(String, JsonValue)>, name: &str, flag: Option<bool>)
    ensures
        fields_view(final(fields)@) == flagged(fields_view(old(fields)@), name@, flag),
{
    if let Some(flag) = flag {
        push_field(fields, name, JsonValue::Bool(flag));
    }
}

fn push_strategy(fields: &mut Vec<(String, JsonValue)>, strategy: &LocatorStrategy)
    ensures
        fields_view(final(fields)@) == fields_view(old(fields)@).push(durable_strategy(*strategy)),
{
    match strategy {
        LocatorStrategy::Css(value) => push_field(fields, "css", text_value(value.as_str())),
        LocatorStrategy::TestId(value) => push_field(
            fields,
            "test_id",
            text_value(value.as_str()),
        ),
        LocatorStrategy::Text { value, match_kind } => {
            let parts: Vec<(String, JsonValue)> = vec![
                field("value", text_value(value.as_str())),
                field("match", text_value(match_kind.name())),
            ];
            assert(fields_view(parts@) =~= seq![
                ("value"@, Json::Text(value@)),
                ("match"@, Json::Text(match_kind.label())),
            ]);
            push_field(fields, "text", record_of(parts));
        },
        LocatorStrategy::Label(value) => push_field(fields, "label", text_value(value.as_str())),
        LocatorStrategy::Role { value, name } => {
            let mut parts: Vec<(String, JsonValue)> = vec![
                field("value", text_value(value.as_str())),
            ];
            assert(fields_view(parts@) =~= seq![("value"@, Json::Text(value@))]);
            if let Some(name) = name {
                push_field(&mut parts, "name", text_value(name.as_str()));
                assert(fields_view(parts@) =~= seq![
                    ("value"@, Json::Text(value@)),
                    ("name"@, Json::Text(name@)),
                ]);
            }
            push_field(fields, "role", record_of(parts));
        },
    }
}

impl DurableLocator {
    /// A locator with a strategy and no further condition.
    pub fn new(strategy: LocatorStrategy) -> (locator: DurableLocator)
        ensures
            locator.strategy == strategy,
            locator.index is None,
            locator.checked is None,
            locator.selected is None,
            locator.focused is None,
            locator.enabled is None,
            locator.relations@.len() == 0,
    {
        DurableLocator {
            strategy,
            index: None,
            checked: None,
            selected: None,
            focused: None,
            enabled: None,
            relations: Vec::new(),
        }
    }

    /// The record of the locator.
    pub fn to_json(&self) -> (value: JsonValue)
        ensures
            value@ == durable_json(*self),
        decreases self,
    {
        let mut fields = no_fields();
        push_strategy(&mut fields, &self.strategy);
        assert(fields_view(fields@) =~= seq![durable_strategy(self.strategy)]);
        if let Some(index) = self.index {
            push_field(&mut fields, "index", JsonValue::Unsigned(index as u64));
        }
        push_flag(&mut fields, "checked", self.checked);
        push_flag(&mut fields, "selected", self.selected);
        push_flag(&mut fields, "focused", self.focused);
        push_flag(&mut fields, "enabled", self.enabled);
        let ghost own = durable_own_fields(*self);
        let mut i: usize = 0;
        assert(self.relations@.take(0) == Seq::<DurableRelation>::empty());
        while i < self.relations.len()
            invariant
                i <= self.relations.len(),
                fields_view(fields@) == durable_related(own, self.relations@.take(i as int)),
            decreases self.relations.len() - i,
        {
            let ghost taken = self.relations@.take(i + 1);
            proof {
                durable_relation_is_smaller(*self, i as int);
                assert(taken.drop_last() == self.relations@.take(i as int));
                assert(taken.last() == self.relations@[i as int]);
            }
            let nested = self.relations[i].locator.to_json();
            push_field(&mut fields, self.relations[i].kind.as_str(), nested);
            i += 1;
        }
        assert(self.relations@.take(i as int) == self.relations@);
        record_of(fields)
    }
}

/// An operation on an element.
#[derive(Debug, PartialEq, Eq)]
pub struct TargetAction {
    pub target: DurableLocator,
}

/// An operation on an element with a value.
#[derive(Debug, PartialEq, Eq)]
pub struct ValueAction {
    pub target: DurableLocator,
    pub value: ReplayValue,
}

/// A key pressed on an element.
#[derive(Debug, PartialEq, Eq)]
pub struct PressAction {
    pub target: DurableLocator,
    pub key: String,
    pub modifiers: Vec<String>,
}

/// An operation without parts.
#[derive(Debug, Clone, Copy, Default, PartialEq, Eq, Structural)]
pub struct EmptyAction {}

/// How far a page is scrolled.
#[derive(Debug, Clone, Copy, PartialEq, Eq, Structural)]
pub struct ScrollAction {
    pub x: i64,
    pub y: i64,
}

/// How a dialog is answered.
#[derive(Debug, Clone, Copy, PartialEq, Eq, Structural)]
pub enum DialogResponse {
    Accept,
    Dismiss,
}

impl DialogResponse {
    /// The name of the answer.
    pub open spec fn label(self) -> Seq<char> {
        match self {
            DialogResponse::Accept => "accept"@,
            DialogResponse::Dismiss => "dismiss"@,
        }
    }

    /// The name of the answer.
    pub fn name(self) -> (name: &'static str)
        ensures
            name@ == self.label(),
    {
        match self {
            DialogResponse::Accept => "accept",
            DialogResponse::Dismiss => "dismiss",
        }
    }
}

/// The answer to a dialog.
#[derive(Debug, Clone, PartialEq, Eq)]
pub struct DialogAction {
    pub action: DialogResponse,
    pub text: Option<ReplayValue>,
}

/// An operation of a replay.
#[derive(Debug)]
pub enum ReplayOperation {
    Open(ReplayValue),
    Click(TargetAction),
    DoubleClick(TargetAction),
    Fill(ValueAction),
    Erase(TargetAction),
    Select(ValueAction),
    Press(PressAction),
    Back(EmptyAction),
    SwitchPage(JsonValue),
    SwitchFrame(JsonValue),
    WaitUntilVisible(TargetAction),
    WaitUntilStable(TargetAction),
    Scroll(ScrollAction),
    Dialog(DialogAction),
    Assert(JsonValue),
}

/// The record of an operation on an element.
pub open spec fn target_json(action: TargetAction) -> Json {
    single("target"@, durable_json(action.target))
}

/// The record of an operation on an element with a value.
pub open spec fn value_json(action: ValueAction) -> Json {
    Json::Record(
        gathered(
            seq![
                ("target"@, durable_json(action.target)),
                ("value"@, replay_value_json(action.value)),
            ],
        ),
    )
}

/// The record of a key press. Where there are no modifiers, none are told.
pub open spec fn press_json(action: PressAction) -> Json {
    let fields = seq![
        ("target"@, durable_json(action.target)),
        ("key"@, Json::Text(action.key@)),
    ];
    Json::Record(
        gathered(
            if action.modifiers@.len() == 0 {
                fields
            } else {
                fields.push(
                    (
                        "modifiers"@,
                        Json::List(
                            texts_view(action.modifiers@).map_values(
                                |text: Seq<char>| Json::Text(text),
                            ),
                        ),
                    ),
                )
            },
        ),
    )
}

/// The record of scrolling. Where it is not sideways, that is not told.
pub open spec fn scroll_json(action: ScrollAction) -> Json {
    Json::Record(
        gathered(
            if action.x == 0 {
                seq![("y"@, Json::Integer(action.y as int))]
            } else {
                seq![
                    ("x"@, Json::Integer(action.x as int)),
                    ("y"@, Json::Integer(action.y as int)),
                ]
            },
        ),
    )
}

/// The record of the answer to a dialog.
pub open spec fn dialog_json(action: DialogAction) -> Json {
    let fields = seq![("action"@, Json::Text(action.action.label()))];
    Json::Record(
        gathered(
            match action.text {
                Some(text) => fields.push(("text"@, replay_value_json(text))),
                None => fields,
            },
        ),
    )
}

/// The record of an operation: its name with its parts.
pub open spec fn operation_json(operation: ReplayOperation) -> Json {
    match operation {
        ReplayOperation::Open(value) => single("open"@, replay_value_json(value)),
        ReplayOperation::Click(action) => single("click"@, target_json(action)),
        ReplayOperation::DoubleClick(action) => single("double_click"@, target_json(action)),
        ReplayOperation::Fill(action) => single("fill"@, value_json(action)),
        ReplayOperation::Erase(action) => single("erase"@, target_json(action)),
        ReplayOperation::Select(action) => single("select"@, value_json(action)),
        ReplayOperation::Press(action) => single("press"@, press_json(action)),
        ReplayOperation::Back(_) => single("back"@, Json::Record(Seq::empty())),
        ReplayOperation::SwitchPage(value) => single("switch_page"@, value@),
        ReplayOperation::SwitchFrame(value) => single("switch_frame"@, value@),
        ReplayOperation::WaitUntilVisible(action) => single(
            "wait_until_visible"@,
            target_json(action),
        ),
        ReplayOperation::WaitUntilStable(action) => single(
            "wait_until_stable"@,
            target_json(action),
        ),
        ReplayOperation::Scroll(action) => single("scroll"@, scroll_json(action)),
        ReplayOperation::Dialog(action) => single("dialog"@, dialog_json(action)),
        ReplayOperation::Assert(value) => single("assert"@, value@),
    }
}

impl TargetAction {
    fn to_json(&self) -> (value: JsonValue)
        ensures
            value@ == target_json(*self),
    {
        single_value("target", self.target.to_json())
    }
}

impl ValueAction {
    fn to_json(&self) -> (value: JsonValue)
        ensures
            value@ == value_json(*self),
    {
        let fields: Vec<(String, JsonValue)> = vec![
            field("target", self.target.to_json()),
            field("value", self.value.to_json()),
        ];
        assert(fields_view(fields@) =~= seq![
            ("target"@, durable_json(self.target)),
            ("value"@, replay_value_json(self.value)),
        ]);
        record_of(fields)
    }
}

impl PressAction {
    fn to_json(&self) -> (value: JsonValue)
        ensures
            value@ == press_json(*self),
    {
        let mut fields: Vec<(String, JsonValue)> = vec![
            field("target", self.target.to_json()),
            field("key", text_value(self.key.as_str())),
        ];
        assert(fields_view(fields@) =~= seq![
            ("target"@, durable_json(self.target)),
            ("key"@, Json::Text(self.key@)),
        ]);
        if self.modifiers.len() > 0 {
            push_field(&mut fields, "modifiers", text_list(&self.modifiers));
        }
        record_of(fields)
    }
}

fn integer_value(value: i64) -> (json: JsonValue)
    ensures
        json@ == Json::Integer(value as int),
{
    JsonValue::Signed(value)
}

/// Whether a distance is none.
pub fn is_zero(value: i64) -> (zero: bool)
    ensures
        zero == (value == 0),
{
    value == 0
}

impl ScrollAction {
    fn to_json(&self) -> (value: JsonValue)
        ensures
            value@ == scroll_json(*self),
    {
        let mut fields = no_fields();
        if !is_zero(self.x) {
            push_field(&mut fields, "x", integer_value(self.x));
        }
        push_field(&mut fields, "y", integer_value(self.y));
        assert(fields_view(fields@) =~= if self.x == 0 {
            seq![("y"@, Json::Integer(self.y as int))]
        } else {
            seq![("x"@, Json::Integer(self.x as int)), ("y"@, Json::Integer(self.y as int))]
        });
        record_of(fields)
    }
}

impl DialogAction {
    fn to_json(&self) -> (value: JsonValue)
        ensures
            value@ == dialog_json(*self),
    {
        let mut fields = no_fields();
        push_field(&mut fields, "action", text_value(self.action.name()));
        assert(fields_view(fields@) =~= seq![("action"@, Json::Text(self.action.label()))]);
        if let Some(text) = &self.text {
            push_field(&mut fields, "text", text.to_json());
        }
        record_of(fields)
    }
}

impl ReplayOperation {
    /// The record of the operation.
    pub fn to_json(&self) -> (value: JsonValue)
        ensures
            value@ == operation_json(*self),
    {
        broadcast use crate::json::group_json_views;

        match self {
            ReplayOperation::Open(value) => single_value("open", value.to_json()),
            ReplayOperation::Click(action) => single_value("click", action.to_json()),
            ReplayOperation::DoubleClick(action) => single_value("double_click", action.to_json()),
            ReplayOperation::Fill(action) => single_value("fill", action.to_json()),
            ReplayOperation::Erase(action) => single_value("erase", action.to_json()),
            ReplayOperation::Select(action) => single_value("select", action.to_json()),
            ReplayOperation::Press(action) => single_value("press", action.to_json()),
            ReplayOperation::Back(_) => single_value("back", JsonValue::Record(no_fields())),
            ReplayOperation::SwitchPage(value) => single_value("switch_page", value.clone()),
            ReplayOperation::SwitchFrame(value) => single_value("switch_frame", value.clone()),
            ReplayOperation::WaitUntilVisible(action) => single_value(
                "wait_until_visible",
                action.to_json(),
            ),
            ReplayOperation::WaitUntilStable(action) => single_value(
                "wait_until_stable",
                action.to_json(),
            ),
            ReplayOperation::Scroll(action) => single_value("scroll", action.to_json()),
            ReplayOperation::Dialog(action) => single_value("dialog", action.to_json()),
            ReplayOperation::Assert(value) => single_value("assert", value.clone()),
        }
    }
}

/// How an action went.
#[derive(Debug, Clone, PartialEq, Eq)]
pub enum ActionOutcome {
    Success,
    Failed { error: String },
}

/// The record of an outcome.
pub open spec fn outcome_json(outcome: ActionOutcome) -> Json {
    match outcome {
        ActionOutcome::Success => single("status"@, Json::Text("success"@)),
        ActionOutcome::Failed { error } => Json::Record(
            gathered(seq![("status"@, Json::Text("failed"@)), ("error"@, Json::Text(error@))]),
        ),
    }
}

impl ActionOutcome {
    /// Whether the action went well.
    pub fn succeeded(&self) -> (succeeded: bool)
        ensures
            succeeded == (*self is Success),
    {
        matches!(self, ActionOutcome::Success)
    }

    fn to_json(&self) -> (value: JsonValue)
        ensures
            value@ == outcome_json(*self),
    {
        match self {
            ActionOutcome::Success => single_value("status", text_value("success")),
            ActionOutcome::Failed { error } => {
                let fields: Vec<(String, JsonValue)> = vec![
                    field("status", text_value("failed")),
                    field("error", text_value(error.as_str())),
                ];
                assert(fields_view(fields@) =~= seq![
                    ("status"@, Json::Text("failed"@)),
                    ("error"@, Json::Text(error@)),
                ]);
                record_of(fields)
            },
        }
    }
}

/// What the journal of a session tells.
#[derive(Debug)]
#[allow(inconsistent_fields)]
pub enum JournalEvent {
    Settings { settings: JsonValue },
    Snapshot { snapshot_revision: u64, summary: JsonValue },
    Action {
        operation: Box<ReplayOperation>,
        outcome: ActionOutcome,
        durable_locator: Option<DurableLocator>,
    },
    ReplayStep { step: JsonValue, outcome: ActionOutcome, durable_locator: Option<JsonValue> },
    DialogHandled { action: String, text: Option<JsonValue> },
    ObservedNavigation { url: String },
    Submission { outcome: ActionOutcome },
    RecorderWarning { warning: String },
    Artifact { kind: String, path: String },
    Export { name: String },
    Close { summary: JsonValue },
}

/// The fields of an event, after its type.
pub open spec fn event_fields(event: JournalEvent) -> Seq<(Seq<char>, Json)> {
    match event {
        JournalEvent::Settings { settings } => seq![
            ("type"@, Json::Text("settings"@)),
            ("settings"@, settings@),
        ],
        JournalEvent::Snapshot { snapshot_revision, summary } => seq![
            ("type"@, Json::Text("snapshot"@)),
            ("snapshot_revision"@, Json::Integer(snapshot_revision as int)),
            ("summary"@, summary@),
        ],
        JournalEvent::Action { operation, outcome, durable_locator } => {
            let fields = seq![
                ("type"@, Json::Text("action"@)),
                ("operation"@, operation_json(*operation)),
                ("outcome"@, outcome_json(outcome)),
            ];
            match durable_locator {
                Some(locator) => fields.push(("durable_locator"@, durable_json(locator))),
                None => fields,
            }
        },
        JournalEvent::ReplayStep { step, outcome, durable_locator } => {
            let fields = seq![
                ("type"@, Json::Text("replay_step"@)),
                ("step"@, step@),
                ("outcome"@, outcome_json(outcome)),
            ];
            match durable_locator {
                Some(locator) => fields.push(("durable_locator"@, locator@)),
                None => fields,
            }
        },
        JournalEvent::DialogHandled { action, text } => {
            let fields = seq![
                ("type"@, Json::Text("dialog_handled"@)),
                ("action"@, Json::Text(action@)),
            ];
            match text {
                Some(text) => fields.push(("text"@, text@)),
                None => fields,
            }
        },
        JournalEvent::ObservedNavigation { url } => seq![
            ("type"@, Json::Text("observed_navigation"@)),
            ("url"@, Json::Text(url@)),
        ],
        JournalEvent::Submission { outcome } => seq![
            ("type"@, Json::Text("submission"@)),
            ("outcome"@, outcome_json(outcome)),
        ],
        JournalEvent::RecorderWarning { warning } => seq![
            ("type"@, Json::Text("recorder_warning"@)),
            ("warning"@, Json::Text(warning@)),
        ],
        JournalEvent::Artifact { kind, path } => seq![
            ("type"@, Json::Text("artifact"@)),
            ("kind"@, Json::Text(kind@)),
            ("path"@, Json::Text(path@)),
        ],
        JournalEvent::Export { name } => seq![
            ("type"@, Json::Text("export"@)),
            ("name"@, Json::Text(name@)),
        ],
        JournalEvent::Close { summary } => seq![
            ("type"@, Json::Text("close"@)),
            ("summary"@, summary@),
        ],
    }
}

/// The record of one line of the journal, before redaction.
pub open spec fn envelope_json(sequence: u64, event: JournalEvent) -> Json {
    canonical(
        Json::Record(
            seq![("sequence"@, Json::Integer(sequence as int))] + event_fields(event),
        ),
    )
}

fn push_type(fields: &mut Vec<(String, JsonValue)>, name: &str)
    ensures
        fields_view(final(fields)@) == fields_view(old(fields)@).push(("type"@, Json::Text(name@))),
{
    push_field(fields, "type", text_value(name));
}

impl JournalEvent {
    fn push_fields(&self, fields: &mut Vec<(String, JsonValue)>)
        ensures
            fields_view(final(fields)@) == fields_view(old(fields)@) + event_fields(*self),
    {
        let ghost before = fields_view(fields@);
        match self {
            JournalEvent::Settings { settings } => {
                push_type(fields, "settings");
                push_field(fields, "settings", settings.clone());
            },
            JournalEvent::Snapshot { snapshot_revision, summary } => {
                push_type(fields, "snapshot");
                push_field(fields, "snapshot_revision", JsonValue::Unsigned(*snapshot_revision));
                push_field(fields, "summary", summary.clone());
            },
            JournalEvent::Action { operation, outcome, durable_locator } => {
                push_type(fields, "action");
                push_field(fields, "operation", operation.to_json());
                push_field(fields, "outcome", outcome.to_json());
                if let Some(locator) = durable_locator {
                    push_field(fields, "durable_locator", locator.to_json());
                }
            },
            JournalEvent::ReplayStep { step, outcome, durable_locator } => {
                push_type(fields, "replay_step");
                push_field(fields, "step", step.clone());
                push_field(fields, "outcome", outcome.to_json());
                if let Some(locator) = durable_locator {
                    push_field(fields, "durable_locator", locator.clone());
                }
            },
            JournalEvent::DialogHandled { action, text } => {
                push_type(fields, "dialog_handled");
                push_field(fields, "action", text_value(action.as_str()));
                if let Some(text) = text {
                    push_field(fields, "text", text.clone());
                }
            },
            JournalEvent::ObservedNavigation { url } => {
                push_type(fields, "observed_navigation");
                push_field(fields, "url", text_value(url.as_str()));
            },
            JournalEvent::Submission { outcome } => {
                push_type(fields, "submission");
                push_field(fields, "outcome", outcome.to_json());
            },
            JournalEvent::RecorderWarning { warning } => {
                push_type(fields, "recorder_warning");
                push_field(fields, "warning", text_value(warning.as_str()));
            },
            JournalEvent::Artifact { kind, path } => {
                push_type(fields, "artifact");
                push_field(fields, "kind", text_value(kind.as_str()));
                push_field(fields, "path", text_value(path.as_str()));
            },
            JournalEvent::Export { name } => {
                push_type(fields, "export");
                push_field(fields, "name", text_value(name.as_str()));
            },
            JournalEvent::Close { summary } => {
                push_type(fields, "close");
                push_field(fields, "summary", summary.clone());
            },
        }
        assert(fields_view(fields@) =~= before + event_fields(*self));
    }
}

/// A value with the secrets replaced in every text of it, names of fields too. Fields whose names
/// become the same leave the last of them.
pub open spec fn redacted_json(value: Json, secrets: Seq<Seq<char>>) -> Json
    decreases value,
{
    match value {
        Json::Text(text) => Json::Text(redacted(text, secrets)),
        Json::List(items) => Json::List(redacted_items(items, secrets)),
        Json::Record(fields) => Json::Record(gathered(redacted_fields(fields, secrets))),
        _ => value,
    }
}

/// Items with the secrets replaced.
pub open spec fn redacted_items(items: Seq<Json>, secrets: Seq<Seq<char>>) -> Seq<Json>
    decreases items,
{
    if items.len() == 0 {
        items
    } else {
        redacted_items(items.drop_last(), secrets).push(redacted_json(items.last(), secrets))
    }
}

/// Fields with the secrets replaced.
pub open spec fn redacted_fields(
    fields: Seq<(Seq<char>, Json)>,
    secrets: Seq<Seq<char>>,
) -> Seq<(Seq<char>, Json)>
    decreases fields,
{
    if fields.len() == 0 {
        fields
    } else {
        redacted_fields(fields.drop_last(), secrets).push(
            (redacted(fields.last().0, secrets), redacted_json(fields.last().1, secrets)),
        )
    }
}

/// The value with the secrets replaced in every text of it.
pub fn redact_value(value: &JsonValue, secrets: &SecretList) -> (result: JsonValue)
    ensures
        result@ == redacted_json(value@, secrets@),
    decreases value,
{
    broadcast use crate::json::group_json_views;

    match value {
        JsonValue::Text(text) => JsonValue::Text(secrets.redact(text.as_str())),
        JsonValue::List(items) => {
            let mut values: Vec<JsonValue> = Vec::new();
            let mut i: usize = 0;
            assert(values_view(items@).take(0) =~= Seq::<Json>::empty());
            assert(values_view(values@) =~= Seq::<Json>::empty());
            while i < items.len()
                invariant
                    i <= items.len(),
                    *value == JsonValue::List(*items),
                    values_view(values@) == redacted_items(
                        values_view(items@).take(i as int),
                        secrets@,
                    ),
                decreases items.len() - i,
            {
                let ghost taken = values_view(items@).take(i + 1);
                proof {
                    item_is_smaller(*value, i as int);
                    assert(taken.drop_last() == values_view(items@).take(i as int));
                    assert(taken.last() == items@[i as int]@);
                }
                let ghost before = values_view(values@);
                let clean = redact_value(&items[i], secrets);
                values.push(clean);
                assert(values_view(values@) =~= before.push(clean@));
                i += 1;
            }
            assert(values_view(items@).take(i as int) == values_view(items@));
            JsonValue::List(values)
        },
        JsonValue::Record(fields) => {
            let mut values: Vec<(String, JsonValue)> = no_fields();
            let mut i: usize = 0;
            assert(fields_view(fields@).take(0) =~= Seq::<(Seq<char>, Json)>::empty());
            while i < fields.len()
                invariant
                    i <= fields.len(),
                    *value == JsonValue::Record(*fields),
                    fields_view(values@) == gathered(
                        redacted_fields(fields_view(fields@).take(i as int), secrets@),
                    ),
                decreases fields.len() - i,
            {
                let ghost taken = fields_view(fields@).take(i + 1);
                proof {
                    field_is_smaller(*value, i as int);
                    assert(taken.drop_last() == fields_view(fields@).take(i as int));
                    assert(taken.last() == field_view(fields@[i as int]));
                    let all = redacted_fields(taken, secrets@);
                    assert(all.drop_last() == redacted_fields(taken.drop_last(), secrets@));
                }
                let key = secrets.redact(fields[i].0.as_str());
                let clean = redact_value(&fields[i].1, secrets);
                set_field(&mut values, key, clean);
                i += 1;
            }
            assert(fields_view(fields@).take(i as int) == fields_view(fields@));
            JsonValue::Record(values)
        },
        _ => value.clone(),
    }
}

/// Whether a text stands somewhere in a value, as a text of it or as part of one, or in the name of a
/// field.
pub open spec fn tells(value: Json, part: Seq<char>) -> bool
    decreases value,
{
    match value {
        Json::Text(text) => occurs(text, part),
        Json::List(items) => items_tell(items, part),
        Json::Record(fields) => fields_tell(fields, part),
        _ => false,
    }
}

/// Whether a text stands in one of the items.
pub open spec fn items_tell(items: Seq<Json>, part: Seq<char>) -> bool
    decreases items,
{
    items.len() > 0 && (items_tell(items.drop_last(), part) || tells(items.last(), part))
}

/// Whether a text stands in one of the fields.
pub open spec fn fields_tell(fields: Seq<(Seq<char>, Json)>, part: Seq<char>) -> bool
    decreases fields,
{
    fields.len() > 0 && (fields_tell(fields.drop_last(), part) || occurs(fields.last().0, part)
        || tells(fields.last().1, part))
}

proof fn fields_tell_somewhere(fields: Seq<(Seq<char>, Json)>, part: Seq<char>)
    ensures
        fields_tell(fields, part) <==> exists|i: int|
            0 <= i < fields.len() && (occurs((#[trigger] fields[i]).0, part) || tells(
                fields[i].1,
                part,
            )),
    decreases fields.len(),
{
    if fields.len() > 0 {
        let fewer = fields.drop_last();
        fields_tell_somewhere(fewer, part);
        if fields_tell(fewer, part) {
            let i = choose|i: int|
                0 <= i < fewer.len() && (occurs((#[trigger] fewer[i]).0, part) || tells(
                    fewer[i].1,
                    part,
                ));
            assert(fields[i] == fewer[i]);
        } else if fields_tell(fields, part) {
            assert(fields[fields.len() - 1] == fields.last());
        }
        if exists|i: int|
            0 <= i < fields.len() && (occurs((#[trigger] fields[i]).0, part) || tells(
                fields[i].1,
                part,
            )) {
            let i = choose|i: int|
                0 <= i < fields.len() && (occurs((#[trigger] fields[i]).0, part) || tells(
                    fields[i].1,
                    part,
                ));
            if i < fields.len() - 1 {
                assert(fewer[i] == fields[i]);
            }
        }
    }
}

proof fn set_field_tells(
    fields: Seq<(Seq<char>, Json)>,
    key: Seq<char>,
    value: Json,
    part: Seq<char>,
)
    requires
        !fields_tell(fields, part),
        !occurs(key, part),
        !tells(value, part),
    ensures
        !fields_tell(crate::json::with_field(fields, key, value), part),
{
    let result = crate::json::with_field(fields, key, value);
    fields_tell_somewhere(fields, part);
    fields_tell_somewhere(result, part);
    assert forall|i: int| 0 <= i < result.len() implies !(occurs((#[trigger] result[i]).0, part)
        || tells(result[i].1, part)) by {
        set_field_adds_one(fields, key, value, i);
    }
}

proof fn set_field_adds_one(fields: Seq<(Seq<char>, Json)>, key: Seq<char>, value: Json, i: int)
    requires
        0 <= i < crate::json::with_field(fields, key, value).len(),
    ensures
        crate::json::with_field(fields, key, value)[i] == (key, value) || fields.contains(
            crate::json::with_field(fields, key, value)[i],
        ),
    decreases fields.len(),
{
    let result = crate::json::with_field(fields, key, value);
    if fields.len() == 0 {
    } else if fields[0].0 == key {
        if i > 0 {
            assert(result[i] == fields.skip(1)[i - 1]);
            assert(fields.skip(1)[i - 1] == fields[i]);
        }
    } else if text_less(key, fields[0].0) {
        if i > 0 {
            assert(result[i] == fields[i - 1]);
        }
    } else if i == 0 {
        assert(result[0] == fields[0]);
    } else {
        let rest = fields.skip(1);
        assert(result[i] == crate::json::with_field(rest, key, value)[i - 1]);
        set_field_adds_one(rest, key, value, i - 1);
        if rest.contains(result[i]) {
            let at = rest.index_of(result[i]);
            assert(fields[at + 1] == result[i]);
        }
    }
}

/// A redacted value tells none of the secrets, neither in its texts nor in the names of its fields.
/// This leaves out secrets that can overlap the mark that replaces them.
pub proof fn redacted_values_tell_no_secret(
    value: Json,
    secrets: Seq<Seq<char>>,
    secret: Seq<char>,
)
    requires
        forall|i: int| 0 <= i < secrets.len() ==> (#[trigger] secrets[i]).len() > 0,
        secrets.contains(secret),
        !clashes(secret, REDACTED@),
    ensures
        !tells(redacted_json(value, secrets), secret),
    decreases value,
{
    match value {
        Json::Text(text) => {
            redacted_text_holds_no_secret(text, secrets, secret);
        },
        Json::List(items) => {
            redacted_items_tell_no_secret(items, secrets, secret);
        },
        Json::Record(fields) => {
            redacted_fields_tell_no_secret(fields, secrets, secret);
        },
        _ => {},
    }
}

proof fn redacted_items_tell_no_secret(
    items: Seq<Json>,
    secrets: Seq<Seq<char>>,
    secret: Seq<char>,
)
    requires
        forall|i: int| 0 <= i < secrets.len() ==> (#[trigger] secrets[i]).len() > 0,
        secrets.contains(secret),
        !clashes(secret, REDACTED@),
    ensures
        !items_tell(redacted_items(items, secrets), secret),
    decreases items,
{
    if items.len() > 0 {
        redacted_items_tell_no_secret(items.drop_last(), secrets, secret);
        redacted_values_tell_no_secret(items.last(), secrets, secret);
        let all = redacted_items(items, secrets);
        assert(all.drop_last() == redacted_items(items.drop_last(), secrets));
    }
}

proof fn redacted_fields_tell_no_secret(
    fields: Seq<(Seq<char>, Json)>,
    secrets: Seq<Seq<char>>,
    secret: Seq<char>,
)
    requires
        forall|i: int| 0 <= i < secrets.len() ==> (#[trigger] secrets[i]).len() > 0,
        secrets.contains(secret),
        !clashes(secret, REDACTED@),
    ensures
        !fields_tell(gathered(redacted_fields(fields, secrets)), secret),
    decreases fields,
{
    if fields.len() > 0 {
        let all = redacted_fields(fields, secrets);
        redacted_fields_tell_no_secret(fields.drop_last(), secrets, secret);
        assert(all.drop_last() == redacted_fields(fields.drop_last(), secrets));
        assert(decreases_to!(fields => fields.last()));
        assert(decreases_to!(fields.last() => fields.last().1));
        redacted_values_tell_no_secret(fields.last().1, secrets, secret);
        redacted_text_holds_no_secret(fields.last().0, secrets, secret);
        set_field_tells(gathered(all.drop_last()), all.last().0, all.last().1, secret);
    }
}

/// What a line of the journal holds.
pub open spec fn line_json(sequence: u64, event: JournalEvent, secrets: Seq<Seq<char>>) -> Json {
    canonical(redacted_json(envelope_json(sequence, event), secrets))
}

/// Why a journal cannot be read or written on.
#[derive(Debug, Clone, PartialEq, Eq)]
#[allow(inconsistent_fields)]
pub enum JournalError {
    Exhausted,
    Invalid(String),
    MissingSequence,
    Unexpected { expected: u64, found: u64 },
}

/// The text of an error.
pub open spec fn journal_error_text(error: JournalError) -> Seq<char> {
    match error {
        JournalError::Exhausted => "journal sequence exhausted"@,
        JournalError::Invalid(reason) => "invalid journal: "@ + reason@,
        JournalError::MissingSequence => "missing sequence"@,
        JournalError::Unexpected { expected, found } => "expected journal sequence "@ + decimal(
            expected as nat,
        ) + ", found "@ + decimal(found as nat),
    }
}

impl JournalError {
    /// The text of the error.
    pub fn message(&self) -> (message: String)
        ensures
            message@ == journal_error_text(*self),
    {
        match self {
            JournalError::Exhausted => "journal sequence exhausted".to_owned(),
            JournalError::Invalid(reason) => join("invalid journal: ", reason.as_str()),
            JournalError::MissingSequence => "missing sequence".to_owned(),
            JournalError::Unexpected { expected, found } => {
                let mut message = "expected journal sequence ".to_owned();
                let wanted = decimal_text(*expected);
                message.append(wanted.as_str());
                message.append(", found ");
                let seen = decimal_text(*found);
                message.append(seen.as_str());
                message
            },
        }
    }
}

/// Writes the lines of a journal: numbers them in sequence, and keeps the secrets out.
#[derive(Debug)]
pub struct JournalWriter {
    pub next_sequence: u64,
    pub secrets: SecretList,
}

impl JournalWriter {
    /// A writer that goes on with a sequence.
    pub fn new(next_sequence: u64) -> (writer: JournalWriter)
        ensures
            writer.next_sequence == next_sequence,
            writer.secrets@ == Seq::<Seq<char>>::empty(),
    {
        JournalWriter { next_sequence, secrets: SecretList::new() }
    }

    /// Keeps a text out of the lines that follow.
    pub fn register_secret(&mut self, secret: &str)
        ensures
            final(self).secrets@ == with_secret(old(self).secrets@, secret@),
            final(self).next_sequence == old(self).next_sequence,
    {
        self.secrets.register_secret(secret.to_owned());
    }

    /// The next line, for an event. It ends where it says so, and nowhere before.
    pub fn line(&self, event: &JournalEvent) -> (line: String)
        ensures
            line@ == json_text(line_json(self.next_sequence, *event, self.secrets@)).push('\n'),
            !json_text(line_json(self.next_sequence, *event, self.secrets@)).contains('\n'),
            reads_back(
                json_text(line_json(self.next_sequence, *event, self.secrets@)),
                line_json(self.next_sequence, *event, self.secrets@),
            ),
    {
        broadcast use crate::json::group_json_views;

        let mut fields = no_fields();
        push_field(&mut fields, "sequence", JsonValue::Unsigned(self.next_sequence));
        assert(fields_view(fields@) =~= seq![
            ("sequence"@, Json::Integer(self.next_sequence as int)),
        ]);
        event.push_fields(&mut fields);
        let envelope = in_key_order(&JsonValue::Record(fields));
        let clean = redact_value(&envelope, &self.secrets);
        let mut line = write_json(&clean);
        line.push('\n');
        line
    }

    /// Counts the line that was written, and tells its number.
    pub fn written(&mut self) -> (result: Result<u64, JournalError>)
        ensures
            final(self).secrets == old(self).secrets,
            if old(self).next_sequence < u64::MAX {
                &&& result == Ok::<u64, JournalError>(old(self).next_sequence)
                &&& final(self).next_sequence == old(self).next_sequence + 1
            } else {
                &&& result == Err::<u64, JournalError>(JournalError::Exhausted)
                &&& final(self).next_sequence == old(self).next_sequence
            },
    {
        let sequence = self.next_sequence;
        match sequence.checked_add(1) {
            Some(next) => {
                self.next_sequence = next;
                Ok(sequence)
            },
            None => Err(JournalError::Exhausted),
        }
    }
}

/// The number that a line was written under.
pub open spec fn sequence_of(value: Json) -> Option<u64> {
    match value {
        Json::Record(fields) => match field_of(fields, "sequence"@) {
            Some(number) => unsigned_of(number),
            None => None,
        },
        _ => None,
    }
}

/// Whether this comes of a line, read where a number is expected: the number of the line after it,
/// or why the line is not that one.
pub open spec fn line_follows(
    next: u64,
    parsed: Result<Json, Seq<char>>,
    result: Result<u64, JournalError>,
) -> bool {
    match parsed {
        Err(reason) => match result {
            Err(JournalError::Invalid(told)) => told@ == reason,
            _ => false,
        },
        Ok(value) => match sequence_of(value) {
            None => result == Err::<u64, JournalError>(JournalError::MissingSequence),
            Some(found) => if found != next {
                result == Err::<u64, JournalError>(
                    JournalError::Unexpected { expected: next, found },
                )
            } else if next == u64::MAX {
                result == Err::<u64, JournalError>(JournalError::Exhausted)
            } else {
                result == Ok::<u64, JournalError>((next + 1) as u64)
            },
        },
    }
}

/// The number after the lines of a journal, where they are numbered from one on.
pub open spec fn journal_next(lines: Seq<Result<Json, Seq<char>>>) -> Option<u64>
    decreases lines.len(),
{
    if lines.len() == 0 {
        Some(1)
    } else {
        match (journal_next(lines.drop_last()), lines.last()) {
            (Some(next), Ok(value)) => if sequence_of(value) == Some(next) && next < u64::MAX {
                Some((next + 1) as u64)
            } else {
                None
            },
            _ => None,
        }
    }
}

/// Takes a line where a number is expected.
pub fn check_line(next: u64, parsed: Result<JsonValue, String>) -> (result: Result<
    u64,
    JournalError,
>)
    ensures
        line_follows(
            next,
            match parsed {
                Ok(value) => Ok(value@),
                Err(reason) => Err(reason@),
            },
            result,
        ),
{
    broadcast use crate::json::group_json_views;

    let value = match parsed {
        Ok(value) => value,
        Err(reason) => {
            return Err(JournalError::Invalid(reason));
        },
    };
    let found = match &value {
        JsonValue::Record(fields) => match find_field(fields, "sequence") {
            Some(number) => unsigned_value(number),
            None => None,
        },
        _ => None,
    };
    match found {
        None => Err(JournalError::MissingSequence),
        Some(found) => if found != next {
            Err(JournalError::Unexpected { expected: next, found })
        } else {
            match next.checked_add(1) {
                Some(next) => Ok(next),
                None => Err(JournalError::Exhausted),
            }
        },
    }
}

/// What is read from the lines of a journal.
pub open spec fn lines_parsed(lines: Seq<String>) -> Seq<Result<Json, Seq<char>>> {
    lines.map_values(|line: String| json_parsed(encode_utf8(line@)))
}

/// The number with which a journal of these lines goes on, or why it cannot: the first line that is
/// not the next one tells.
pub fn read_next_sequence(lines: &Vec<String>) -> (result: Result<u64, JournalError>)
    ensures
        ({
            let parsed = lines_parsed(lines@);
            match result {
                Ok(next) => journal_next(parsed) == Some(next),
                Err(error) => exists|i: int|
                    {
                        &&& 0 <= i < parsed.len()
                        &&& journal_next(parsed.take(i)) is Some
                        &&& #[trigger] line_follows(
                            journal_next(parsed.take(i))->0,
                            parsed[i],
                            result,
                        )
                    },
            }
        }),
{
    let ghost parsed = lines_parsed(lines@);
    let mut next: u64 = 1;
    let mut i: usize = 0;
    while i < lines.len()
        invariant
            i <= lines.len(),
            parsed == lines_parsed(lines@),
            journal_next(parsed.take(i as int)) == Some(next),
        decreases lines.len() - i,
    {
        let ghost taken = parsed.take(i + 1);
        proof {
            assert(taken.drop_last() == parsed.take(i as int));
            assert(taken.last() == parsed[i as int]);
            assert(parsed[i as int] == json_parsed(encode_utf8(lines@[i as int]@)));
        }
        let value = read_json(lines[i].as_str().as_bytes());
        let result = check_line(next, value);
        match result {
            Ok(following) => {
                next = following;
            },
            Err(error) => {
                assert(line_follows(
                    journal_next(parsed.take(i as int))->0,
                    parsed[i as int],
                    Err(error),
                ));
                return Err(error);
            },
        }
        i += 1;
    }
    assert(parsed.take(parsed.len() as int) == parsed);
    Ok(next)
}

/// The lines of a journal that can be read are numbered from one on, without a gap.
pub proof fn journals_are_numbered(lines: Seq<Result<Json, Seq<char>>>, i: int)
    requires
        journal_next(lines) is Some,
        0 <= i < lines.len(),
    ensures
        journal_next(lines) == Some((lines.len() + 1) as u64),
        lines.len() < u64::MAX,
        lines[i] is Ok,
        sequence_of(lines[i]->Ok_0) == Some((i + 1) as u64),
    decreases lines.len(),
{
    let fewer = lines.drop_last();
    if fewer.len() == 0 {
    } else {
        journals_are_numbered(fewer, 0);
        if i < fewer.len() {
            journals_are_numbered(fewer, i);
            assert(fewer[i] == lines[i]);
        }
    }
}

/// A journal that goes on where another ended reads as one: the line written under the number that
/// the reading gave is the next one.
pub proof fn journals_go_on(lines: Seq<Result<Json, Seq<char>>>, line: Json)
    requires
        journal_next(lines) is Some,
        journal_next(lines)->0 < u64::MAX,
        sequence_of(line) == journal_next(lines),
    ensures
        journal_next(lines.push(Ok(line))) == Some((journal_next(lines)->0 + 1) as u64),
{
    assert(lines.push(Ok(line)).drop_last() == lines);
}

proof fn redacted_fields_at(fields: Seq<(Seq<char>, Json)>, secrets: Seq<Seq<char>>, i: int)
    requires
        0 <= i < fields.len(),
    ensures
        redacted_fields(fields, secrets).len() == fields.len(),
        redacted_fields(fields, secrets)[i] == (
            redacted(fields[i].0, secrets),
            redacted_json(fields[i].1, secrets),
        ),
    decreases fields.len(),
{
    let fewer = fields.drop_last();
    if fewer.len() > 0 {
        redacted_fields_at(fewer, secrets, 0);
        if i < fewer.len() {
            redacted_fields_at(fewer, secrets, i);
        }
    } else {
        assert(redacted_fields(fewer, secrets).len() == 0);
    }
}

proof fn canonical_fields_at(fields: Seq<(Seq<char>, Json)>, i: int)
    requires
        0 <= i < fields.len(),
    ensures
        canonical_fields(fields).len() == fields.len(),
        canonical_fields(fields)[i] == (fields[i].0, canonical(fields[i].1)),
    decreases fields.len(),
{
    let fewer = fields.drop_last();
    if fewer.len() > 0 {
        canonical_fields_at(fewer, 0);
        if i < fewer.len() {
            canonical_fields_at(fewer, i);
        }
    } else {
        assert(canonical_fields(fewer).len() == 0);
    }
}

proof fn canonical_keeps_field(fields: Seq<(Seq<char>, Json)>, at: int)
    requires
        0 <= at < fields.len(),
        forall|i: int| at < i < fields.len() ==> (#[trigger] fields[i]).0 != fields[at].0,
    ensures
        field_of(gathered(canonical_fields(fields)), fields[at].0) == Some(
            canonical(fields[at].1),
        ),
{
    let all = canonical_fields(fields);
    canonical_fields_at(fields, at);
    assert forall|i: int| at < i < all.len() implies (#[trigger] all[i]).0 != all[at].0 by {
        canonical_fields_at(fields, i);
    }
    gathered_keeps_last(all, at);
}

/// A line is read under the number that it was written under, unless a secret is part of the word
/// that names it.
pub proof fn lines_keep_their_number(
    sequence: u64,
    event: JournalEvent,
    secrets: Seq<Seq<char>>,
)
    requires
        redacted("sequence"@, secrets) == "sequence"@,
    ensures
        sequence_of(line_json(sequence, event, secrets)) == Some(sequence),
{
    let name = "sequence"@;
    let number = Json::Integer(sequence as int);
    let told = seq![(name, number)] + event_fields(event);
    assert forall|i: int| 0 < i < told.len() implies (#[trigger] told[i]).0 != name by {
        assert(told[i] == event_fields(event)[i - 1]);
        event_names_differ(event, i - 1);
    }
    assert(told[0] == (name, number));
    canonical_keeps_field(told, 0);
    let kept = gathered(canonical_fields(told));
    gathered_keys_ascend(canonical_fields(told));
    let at = found_fields_stand(kept, name);
    let clean = redacted_fields(kept, secrets);
    redacted_fields_at(kept, secrets, at);
    assert forall|i: int| at < i < clean.len() implies (#[trigger] clean[i]).0 != clean[at].0 by {
        redacted_fields_at(kept, secrets, i);
        redacted_is_unchanged_or_marked(kept[i].0, secrets);
        reveal_strlit("sequence");
        assert(!name.contains('['));
        text_less_is_total(kept[at].0, kept[i].0);
    }
    gathered_keeps_last(clean, at);
    let last = gathered(clean);
    gathered_keys_ascend(clean);
    let place = found_fields_stand(last, name);
    assert forall|i: int| place < i < last.len() implies (#[trigger] last[i]).0 != last[place].0 by {
        text_less_is_total(last[place].0, last[i].0);
    }
    canonical_keeps_field(last, place);
}

/// An event that was written into a journal, with the secrets that were kept out of its line.
pub ghost struct WrittenEvent {
    pub event: JournalEvent,
    pub secrets: Seq<Seq<char>>,
}

/// The text of the line under which an event was written.
pub open spec fn line_text(sequence: u64, written: WrittenEvent) -> Seq<char> {
    json_text(line_json(sequence, written.event, written.secrets))
}

/// Whether the line of an event can be read again: it reads back, it is nested less than the reader
/// takes, and no secret is part of the word that names its number.
pub open spec fn can_be_read(sequence: u64, written: WrittenEvent) -> bool {
    let line = line_json(sequence, written.event, written.secrets);
    &&& reads_back(json_text(line), line)
    &&& depth(line) < 128
    &&& redacted("sequence"@, written.secrets) == "sequence"@
}

/// The lines that are read of a journal once events were written behind the lines that it had.
pub open spec fn lines_with(
    lines: Seq<Result<Json, Seq<char>>>,
    next: u64,
    written: Seq<WrittenEvent>,
) -> Seq<Result<Json, Seq<char>>> {
    lines + Seq::new(
        written.len(),
        |i: int| json_parsed(encode_utf8(line_text((next + i) as u64, written[i]))),
    )
}

/// A line is read under the number that it was written under, whatever numbers its event holds.
pub proof fn written_lines_are_read(sequence: u64, written: WrittenEvent)
    requires
        can_be_read(sequence, written),
    ensures
        ({
            let read = json_parsed(encode_utf8(line_text(sequence, written)));
            read is Ok && sequence_of(read->Ok_0) == Some(sequence)
        }),
{
    let line = line_json(sequence, written.event, written.secrets);
    lines_keep_their_number(sequence, written.event, written.secrets);
    let read = json_parsed(encode_utf8(json_text(line)))->Ok_0;
    alike_records_hold_the_same_integers(
        read->Record_0,
        line->Record_0,
        "sequence"@,
        sequence as int,
    );
}

/// Events that are written behind the lines of a journal take the numbers that follow, one each, and a
/// journal that is opened again goes on after the last of them.
pub proof fn reopened_journals_go_on(
    lines: Seq<Result<Json, Seq<char>>>,
    written: Seq<WrittenEvent>,
)
    requires
        journal_next(lines) is Some,
        journal_next(lines)->0 + written.len() <= u64::MAX,
        forall|i: int|
            0 <= i < written.len() ==> can_be_read(
                (journal_next(lines)->0 + i) as u64,
                #[trigger] written[i],
            ),
    ensures
        ({
            let next = journal_next(lines)->0;
            let all = lines_with(lines, next, written);
            &&& all.take(lines.len() as int) == lines
            &&& journal_next(all) == Some((next + written.len()) as u64)
        }),
    decreases written.len(),
{
    let next = journal_next(lines)->0;
    let all = lines_with(lines, next, written);
    assert(all.take(lines.len() as int) =~= lines);
    if written.len() == 0 {
        assert(all =~= lines);
    } else {
        let fewer = written.drop_last();
        let last = written.len() - 1;
        reopened_journals_go_on(lines, fewer);
        assert(all.drop_last() =~= lines_with(lines, next, fewer));
        assert(written[last] == written.last());
        written_lines_are_read((next + last) as u64, written.last());
    }
}

proof fn event_names_differ(event: JournalEvent, i: int)
    requires
        0 <= i < event_fields(event).len(),
    ensures
        event_fields(event)[i].0 != "sequence"@,
{
    reveal_strlit("sequence");
    reveal_strlit("type");
    reveal_strlit("settings");
    reveal_strlit("snapshot_revision");
    reveal_strlit("summary");
    reveal_strlit("operation");
    reveal_strlit("outcome");
    reveal_strlit("durable_locator");
    reveal_strlit("step");
    reveal_strlit("action");
    reveal_strlit("text");
    reveal_strlit("url");
    reveal_strlit("warning");
    reveal_strlit("kind");
    reveal_strlit("path");
    reveal_strlit("name");
    assert("sequence"@[1] == 'e' && "sequence"@[0] == 's' && "sequence"@.len() == 8);
    assert("settings"@[2] == 't');
    assert("sequence"@[2] == 'q');
}

/// Every event is told by its kind and by what it holds, each under its name.
pub proof fn events_are_told_by_kind(event: JournalEvent)
    ensures
        ({
            let fields = event_fields(event);
            let kind = |name: Seq<char>| fields.len() > 0 && fields[0] == ("type"@, Json::Text(name));
            match event {
                JournalEvent::Settings { settings } => kind("settings"@) && fields.contains(
                    ("settings"@, settings@),
                ),
                JournalEvent::Snapshot { snapshot_revision, summary } => kind("snapshot"@)
                    && fields.contains(
                    ("snapshot_revision"@, Json::Integer(snapshot_revision as int)),
                ) && fields.contains(("summary"@, summary@)),
                JournalEvent::Action { operation, outcome, durable_locator } => kind("action"@)
                    && fields.contains(("operation"@, operation_json(*operation)))
                    && fields.contains(("outcome"@, outcome_json(outcome))) && (durable_locator
                    is Some ==> fields.contains(
                    ("durable_locator"@, durable_json(durable_locator->0)),
                )) && fields.len() == if durable_locator is Some {
                    4int
                } else {
                    3
                },
                JournalEvent::ReplayStep { step, outcome, durable_locator } => kind("replay_step"@)
                    && fields.contains(("step"@, step@)) && fields.contains(
                    ("outcome"@, outcome_json(outcome)),
                ) && (durable_locator is Some ==> fields.contains(
                    ("durable_locator"@, durable_locator->0@),
                )) && fields.len() == if durable_locator is Some {
                    4int
                } else {
                    3
                },
                JournalEvent::DialogHandled { action, text } => kind("dialog_handled"@)
                    && fields.contains(("action"@, Json::Text(action@))) && (text is Some
                    ==> fields.contains(("text"@, text->0@))) && fields.len() == if text is Some {
                    3int
                } else {
                    2
                },
                JournalEvent::ObservedNavigation { url } => kind("observed_navigation"@)
                    && fields.contains(("url"@, Json::Text(url@))),
                JournalEvent::Submission { outcome } => kind("submission"@) && fields.contains(
                    ("outcome"@, outcome_json(outcome)),
                ),
                JournalEvent::RecorderWarning { warning } => kind("recorder_warning"@)
                    && fields.contains(("warning"@, Json::Text(warning@))),
                JournalEvent::Artifact { kind: sort, path } => kind("artifact"@)
                    && fields.contains(("kind"@, Json::Text(sort@))) && fields.contains(
                    ("path"@, Json::Text(path@)),
                ),
                JournalEvent::Export { name } => kind("export"@) && fields.contains(
                    ("name"@, Json::Text(name@)),
                ),
                JournalEvent::Close { summary } => kind("close"@) && fields.contains(
                    ("summary"@, summary@),
                ),
            }
        }),
{
    let fields = event_fields(event);
    assert(forall|i: int| 0 <= i < fields.len() ==> fields.contains(#[trigger] fields[i]));
    assert(fields[0].0 == "type"@);
    assert(fields.contains(fields[1]));
    if fields.len() > 2 {
        assert(fields.contains(fields[2]));
    }
    if fields.len() > 3 {
        assert(fields.contains(fields[3]));
    }
}

/// An operation is told under its own name, with its target, and what it types, presses or chooses beside.
pub proof fn operations_are_told_by_name(operation: ReplayOperation, value: JsonValue)
    requires
        call_ensures(ReplayOperation::to_json, (&operation,), value),
    ensures
        match operation {
            ReplayOperation::Open(held) => value@ == single("open"@, replay_value_json(held)),
            ReplayOperation::Click(action) => value@ == single(
                "click"@,
                single("target"@, durable_json(action.target)),
            ),
            ReplayOperation::DoubleClick(action) => value@ == single(
                "double_click"@,
                single("target"@, durable_json(action.target)),
            ),
            ReplayOperation::Erase(action) => value@ == single(
                "erase"@,
                single("target"@, durable_json(action.target)),
            ),
            ReplayOperation::WaitUntilVisible(action) => value@ == single(
                "wait_until_visible"@,
                single("target"@, durable_json(action.target)),
            ),
            ReplayOperation::WaitUntilStable(action) => value@ == single(
                "wait_until_stable"@,
                single("target"@, durable_json(action.target)),
            ),
            ReplayOperation::Fill(action) => exists|inner: Json|
                value@ == #[trigger] single("fill"@, inner) && (inner matches Json::Record(fields)
                    && field_of(fields, "target"@) == Some(durable_json(action.target))
                    && field_of(fields, "value"@) == Some(replay_value_json(action.value))),
            ReplayOperation::Select(action) => exists|inner: Json|
                value@ == #[trigger] single("select"@, inner) && (inner matches Json::Record(fields)
                    && field_of(fields, "target"@) == Some(durable_json(action.target))
                    && field_of(fields, "value"@) == Some(replay_value_json(action.value))),
            ReplayOperation::Press(action) => exists|inner: Json|
                value@ == #[trigger] single("press"@, inner) && (inner matches Json::Record(fields)
                    && field_of(fields, "target"@) == Some(durable_json(action.target))
                    && field_of(fields, "key"@) == Some(Json::Text(action.key@)) && (
                action.modifiers@.len() > 0 ==> field_of(fields, "modifiers"@) == Some(
                    Json::List(
                        texts_view(action.modifiers@).map_values(
                            |text: Seq<char>| Json::Text(text),
                        ),
                    ),
                ))),
            ReplayOperation::Scroll(action) => exists|inner: Json|
                value@ == #[trigger] single("scroll"@, inner) && (inner matches Json::Record(fields)
                    && field_of(fields, "y"@) == Some(Json::Integer(action.y as int)) && (action.x
                    != 0 ==> field_of(fields, "x"@) == Some(Json::Integer(action.x as int)))),
            ReplayOperation::Dialog(action) => exists|inner: Json|
                value@ == #[trigger] single("dialog"@, inner) && (inner matches Json::Record(fields)
                    && field_of(fields, "action"@) == Some(
                    Json::Text(
                        if action.action is Accept {
                            "accept"@
                        } else {
                            "dismiss"@
                        },
                    ),
                ) && (action.text matches Some(text) ==> field_of(fields, "text"@) == Some(
                    replay_value_json(text),
                ))),
            ReplayOperation::Back(_) => value@ == single("back"@, Json::Record(Seq::empty())),
            ReplayOperation::SwitchPage(held) => value@ == single("switch_page"@, held@),
            ReplayOperation::SwitchFrame(held) => value@ == single("switch_frame"@, held@),
            ReplayOperation::Assert(held) => value@ == single("assert"@, held@),
        },
{
    reveal_strlit("target");
    reveal_strlit("value");
    reveal_strlit("key");
    reveal_strlit("modifiers");
    reveal_strlit("x");
    reveal_strlit("y");
    reveal_strlit("action");
    reveal_strlit("text");
    assert("target"@.len() == 6 && "value"@.len() == 5 && "key"@.len() == 3);
    assert("modifiers"@.len() == 9 && "x"@[0] == 'x' && "y"@[0] == 'y');
    assert("action"@.len() == 6 && "text"@.len() == 4);
    match operation {
        ReplayOperation::Fill(action) => {
            values_are_told(action);
            assert(value@ == single("fill"@, value_json(action)));
        },
        ReplayOperation::Select(action) => {
            values_are_told(action);
            assert(value@ == single("select"@, value_json(action)));
        },
        ReplayOperation::Press(action) => {
            let plain = seq![
                ("target"@, durable_json(action.target)),
                ("key"@, Json::Text(action.key@)),
            ];
            let fields = if action.modifiers@.len() == 0 {
                plain
            } else {
                plain.push(
                    (
                        "modifiers"@,
                        Json::List(
                            texts_view(action.modifiers@).map_values(
                                |text: Seq<char>| Json::Text(text),
                            ),
                        ),
                    ),
                )
            };
            assert(press_json(action) == Json::Record(gathered(fields)));
            gathered_keeps_last(fields, 0);
            gathered_keeps_last(fields, 1);
            if fields.len() > 2 {
                gathered_keeps_last(fields, 2);
            }
            assert(value@ == single("press"@, press_json(action)));
        },
        ReplayOperation::Scroll(action) => {
            let fields = if action.x == 0 {
                seq![("y"@, Json::Integer(action.y as int))]
            } else {
                seq![
                    ("x"@, Json::Integer(action.x as int)),
                    ("y"@, Json::Integer(action.y as int)),
                ]
            };
            gathered_keeps_last(fields, fields.len() - 1);
            gathered_keeps_last(fields, 0);
            assert(value@ == single("scroll"@, scroll_json(action)));
        },
        ReplayOperation::Dialog(action) => {
            let plain = seq![("action"@, Json::Text(action.action.label()))];
            let fields = match action.text {
                Some(text) => plain.push(("text"@, replay_value_json(text))),
                None => plain,
            };
            gathered_keeps_last(fields, 0);
            gathered_keeps_last(fields, fields.len() - 1);
            assert(value@ == single("dialog"@, dialog_json(action)));
        },
        _ => {},
    }
}

proof fn values_are_told(action: ValueAction)
    ensures
        value_json(action) matches Json::Record(fields) && field_of(fields, "target"@) == Some(
            durable_json(action.target),
        ) && field_of(fields, "value"@) == Some(replay_value_json(action.value)),
{
    reveal_strlit("target");
    reveal_strlit("value");
    assert("target"@.len() == 6 && "value"@.len() == 5);
    let fields = seq![
        ("target"@, durable_json(action.target)),
        ("value"@, replay_value_json(action.value)),
    ];
    gathered_keeps_last(fields, 0);
    gathered_keeps_last(fields, 1);
}

/// An outcome is told by its status, a failed one with its error; only one is a success.
pub proof fn outcomes_are_told_by_status(outcome: ActionOutcome, succeeded: bool)
    requires
        call_ensures(ActionOutcome::succeeded, (&outcome,), succeeded),
    ensures
        outcome_json(outcome) matches Json::Record(fields) && field_of(fields, "status"@) == Some(
            Json::Text(
                if succeeded {
                    "success"@
                } else {
                    "failed"@
                },
            ),
        ) && (outcome matches ActionOutcome::Failed { error } ==> field_of(fields, "error"@) == Some(
            Json::Text(error@),
        )),
        succeeded <==> !(outcome is Failed),
{
    reveal_strlit("status");
    reveal_strlit("error");
    assert("status"@.len() == 6 && "error"@.len() == 5);
    if let ActionOutcome::Failed { error } = outcome {
        let fields = seq![("status"@, Json::Text("failed"@)), ("error"@, Json::Text(error@))];
        gathered_keeps_last(fields, 0);
        gathered_keeps_last(fields, 1);
    }
}

/// A value of a replay is a text or a reference to a variable.
pub proof fn replay_values_are_texts_or_references(value: ReplayValue, told: JsonValue)
    requires
        call_ensures(ReplayValue::to_json, (&value,), told),
    ensures
        value matches ReplayValue::Literal(text) ==> told@ == Json::Text(text@),
        value matches ReplayValue::Environment(reference) ==> told@ == Json::Record(
            seq![("env"@, Json::Text(reference.env@))],
        ),
{
}

/// A locator that lasts is told by what it looks for, under its own name, and by what narrows it.
pub proof fn durable_locators_are_told(locator: DurableLocator, value: JsonValue)
    requires
        call_ensures(DurableLocator::to_json, (&locator,), value),
        locator.relations@.len() == 0,
        locator.index is None && locator.checked is None && locator.selected is None
            && locator.focused is None && locator.enabled is None,
    ensures
        locator.strategy matches LocatorStrategy::Css(text) ==> value@ == single(
            "css"@,
            Json::Text(text@),
        ),
        locator.strategy matches LocatorStrategy::TestId(text) ==> value@ == single(
            "test_id"@,
            Json::Text(text@),
        ),
        locator.strategy matches LocatorStrategy::Label(text) ==> value@ == single(
            "label"@,
            Json::Text(text@),
        ),
{
    let fields = durable_own_fields(locator);
    assert(fields == seq![durable_strategy(locator.strategy)]);
    assert(fields.drop_last() =~= Seq::<(Seq<char>, Json)>::empty());
    assert(gathered(Seq::<(Seq<char>, Json)>::empty()) == Seq::<(Seq<char>, Json)>::empty());
    assert(gathered(fields) =~= seq![durable_strategy(locator.strategy)]);
}

/// A line is the next of a journal exactly if it is one with the number that comes next; the number after it is
/// greater by one.
pub proof fn lines_follow_by_number(
    next: u64,
    parsed: Result<JsonValue, String>,
    result: Result<u64, JournalError>,
)
    requires
        call_ensures(check_line, (next, parsed), result),
    ensures
        result matches Ok(after) ==> after == next + 1 && parsed is Ok,
        parsed is Err ==> result is Err && result->Err_0 is Invalid,
        parsed matches Ok(value) ==> (value@ matches Json::Record(fields) ==> (field_of(
            fields,
            "sequence"@,
        ) matches Some(number) ==> (unsigned_of(number) matches Some(found) ==> {
            &&& (found == next && next < u64::MAX <==> result is Ok)
            &&& (found != next ==> result == Err::<u64, JournalError>(
                JournalError::Unexpected { expected: next, found },
            ))
        }))),
{
}

/// Redaction reaches every text of a value, and leaves numbers, truth values and nothing as they are.
pub proof fn redaction_reaches_every_text(value: JsonValue, secrets: SecretList, result: JsonValue)
    requires
        call_ensures(redact_value, (&value, &secrets), result),
    ensures
        match value@ {
            Json::Text(text) => result@ == Json::Text(redacted(text, secrets@)),
            Json::List(items) => result@ matches Json::List(shown) && shown.len() == items.len()
                && (forall|i: int|
                0 <= i < items.len() ==> #[trigger] shown[i] == redacted_json(items[i], secrets@)),
            Json::Record(_) => result@ is Record,
            other => result@ == other,
        },
{
    if let Json::List(items) = value@ {
        items_are_redacted(items, secrets@);
    }
}

proof fn items_are_redacted(items: Seq<Json>, secrets: Seq<Seq<char>>)
    ensures
        redacted_items(items, secrets).len() == items.len(),
        forall|i: int|
            0 <= i < items.len() ==> #[trigger] redacted_items(items, secrets)[i] == redacted_json(
                items[i],
                secrets,
            ),
    decreases items.len(),
{
    if items.len() > 0 {
        items_are_redacted(items.drop_last(), secrets);
    }
}

/// The kinds of relations are told apart by their names.
pub proof fn relations_are_told_by_name(kind: RelationKind, name: &'static str)
    requires
        call_ensures(RelationKind::as_str, (kind,), name),
    ensures
        name@ == match kind {
            RelationKind::Within => "within"@,
            RelationKind::ChildOf => "child_of"@,
            RelationKind::Has => "has"@,
            RelationKind::Above => "above"@,
            RelationKind::Below => "below"@,
            RelationKind::Left => "left"@,
            RelationKind::Right => "right"@,
        },
{
}

/// Each line that is written has the next number, until there is none left.
pub proof fn written_lines_count_up(writer: &mut JournalWriter, result: Result<u64, JournalError>)
    requires
        call_ensures(JournalWriter::written, (writer,), result),
    ensures
        result matches Ok(number) ==> number == old(writer).next_sequence
            && final(writer).next_sequence == number + 1,
        result is Err <==> old(writer).next_sequence == u64::MAX,
        result is Err ==> final(writer).next_sequence == old(writer).next_sequence,
        final(writer).secrets@ == old(writer).secrets@,
{
}

} // verus!
