//! What a session writes: responses to the client and entries of its journal.

use crate::codec::{json_text, write_json};
use crate::dialog::{dialog_fields, DialogPolicy, PendingDialog};
use crate::interactive::{
    inspection_fields, pages_json, pages_value, InteractiveStepError, InteractiveStepResult,
};
use crate::journal::{single, single_value, ActionOutcome, JournalEvent};
use crate::json::{
    canonical, field, fields_view, gathered, no_fields, optional_value, push_field, text_list,
    text_or_null, text_value, values_view, Json, JsonValue,
};
use crate::recorder::recording_fields;
use crate::report::{
    optional_safe, ArtifactPaths, Failure, FailureCategory, FlowReport, FlowStatus, SafeText,
    StepContext,
};
use crate::session::{
    Body, CloseResult, DialogChoice, ErrorCode, Message, Note, Outcome, PreparedAction, Response,
    SessionOptions, SnapshotParts, MAX_ENVELOPE_BYTES,
};
use crate::snapshot::Viewport;
use crate::text::{
    decimal, decimal_text, join, number_of, optional_text, padded_numerals_stand_for_their_number,
    padded_text, quote, quoted, texts_view, zero_padded,
};
use crate::video::VideoMode;
use vstd::prelude::*;
use vstd::string::*;

verus! {

impl ErrorCode {
    /// The name of the code.
    pub open spec fn label(self) -> Seq<char> {
        match self {
            ErrorCode::EnvelopeTooLarge => "envelope_too_large"@,
            ErrorCode::InvalidCommand => "invalid_command"@,
            ErrorCode::DialogPending => "dialog_pending"@,
            ErrorCode::Validation => "validation"@,
            ErrorCode::SettingsConflict => "settings_conflict"@,
            ErrorCode::Busy => "busy"@,
            ErrorCode::Cancelled => "cancelled"@,
            ErrorCode::SubmissionFailed => "submission_failed"@,
            ErrorCode::Browser => "browser"@,
            ErrorCode::Artifacts => "artifacts"@,
            ErrorCode::NotStarted => "not_started"@,
            ErrorCode::SnapshotUnavailable => "snapshot_unavailable"@,
            ErrorCode::StaleReference => "stale_reference"@,
            ErrorCode::UnknownReference => "unknown_reference"@,
            ErrorCode::ActionFailed => "action_failed"@,
            ErrorCode::OutputNotFound => "output_not_found"@,
            ErrorCode::NotActive => "not_active"@,
            ErrorCode::ExportInvalid => "export_invalid"@,
        }
    }

    /// The name of the code.
    pub fn name(self) -> (name: &'static str)
        ensures
            name@ == self.label(),
    {
        match self {
            ErrorCode::EnvelopeTooLarge => "envelope_too_large",
            ErrorCode::InvalidCommand => "invalid_command",
            ErrorCode::DialogPending => "dialog_pending",
            ErrorCode::Validation => "validation",
            ErrorCode::SettingsConflict => "settings_conflict",
            ErrorCode::Busy => "busy",
            ErrorCode::Cancelled => "cancelled",
            ErrorCode::SubmissionFailed => "submission_failed",
            ErrorCode::Browser => "browser",
            ErrorCode::Artifacts => "artifacts",
            ErrorCode::NotStarted => "not_started",
            ErrorCode::SnapshotUnavailable => "snapshot_unavailable",
            ErrorCode::StaleReference => "stale_reference",
            ErrorCode::UnknownReference => "unknown_reference",
            ErrorCode::ActionFailed => "action_failed",
            ErrorCode::OutputNotFound => "output_not_found",
            ErrorCode::NotActive => "not_active",
            ErrorCode::ExportInvalid => "export_invalid",
        }
    }
}

/// The name of a category, as reports tell it.
pub open spec fn category_label(category: FailureCategory) -> Seq<char> {
    match category {
        FailureCategory::BrowserLaunch => "browser_launch"@,
        FailureCategory::BrowserCrash => "browser_crash"@,
        FailureCategory::Protocol => "protocol"@,
        FailureCategory::Navigation => "navigation"@,
        FailureCategory::Timeout => "timeout"@,
        FailureCategory::Locator => "locator"@,
        FailureCategory::Actionability => "actionability"@,
        FailureCategory::Assertion => "assertion"@,
        FailureCategory::Script => "script"@,
        FailureCategory::Request => "request"@,
        FailureCategory::Recording => "recording"@,
    }
}

fn category_name(category: FailureCategory) -> (name: &'static str)
    ensures
        name@ == category_label(category),
{
    match category {
        FailureCategory::BrowserLaunch => "browser_launch",
        FailureCategory::BrowserCrash => "browser_crash",
        FailureCategory::Protocol => "protocol",
        FailureCategory::Navigation => "navigation",
        FailureCategory::Timeout => "timeout",
        FailureCategory::Locator => "locator",
        FailureCategory::Actionability => "actionability",
        FailureCategory::Assertion => "assertion",
        FailureCategory::Script => "script",
        FailureCategory::Request => "request",
        FailureCategory::Recording => "recording",
    }
}

/// The name of a status.
pub open spec fn status_label(status: FlowStatus) -> Seq<char> {
    match status {
        FlowStatus::Passed => "passed"@,
        FlowStatus::Failed => "failed"@,
        FlowStatus::Interrupted => "interrupted"@,
    }
}

fn status_name(status: FlowStatus) -> (name: &'static str)
    ensures
        name@ == status_label(status),
{
    match status {
        FlowStatus::Passed => "passed",
        FlowStatus::Failed => "failed",
        FlowStatus::Interrupted => "interrupted",
    }
}

/// The text of a message.
pub open spec fn message_text(message: Message) -> Seq<char> {
    match message {
        Message::Text(text) => text@,
        Message::ArtifactSetup(error) => "initialize session artifacts: "@ + error@,
        Message::OutputUnavailable(name) => "runtime output "@ + quoted(name@) + " is unavailable"@,
        Message::EnvelopeTooLarge => "command envelope exceeds 1048576 bytes"@,
        Message::PendingBeforeSubmitting => "handle the pending native dialog before submitting"@,
        Message::PendingBeforeActing => "handle the pending native dialog before acting"@,
        Message::PendingBeforeScrolling => "handle the pending native dialog before scrolling"@,
        Message::SettingsConflict => "viewport and geolocation must match the first submission"@,
        Message::Busy => "one mutating submission is already active"@,
        Message::SubmissionFailed => "submission did not pass"@,
        Message::NotStarted => "submit a valid flow before inspecting the session"@,
        Message::ReferenceLost => "the referenced element detached or no longer uniquely matches"@,
        Message::EmptyScroll => "scroll requires a non-zero x or y delta"@,
        Message::DialogText => "dialog text is only valid with action accept for a prompt"@,
        Message::NotActive => "no submission is active"@,
    }
}

impl Message {
    /// The text of the message.
    pub fn text(&self) -> (text: String)
        ensures
            text@ == message_text(*self),
    {
        match self {
            Message::Text(text) => text.clone(),
            Message::ArtifactSetup(error) => join("initialize session artifacts: ", error.as_str()),
            Message::OutputUnavailable(name) => {
                let shown = quote(name.as_str());
                let mut text = join("runtime output ", shown.as_str());
                text.append(" is unavailable");
                text
            },
            Message::EnvelopeTooLarge => "command envelope exceeds 1048576 bytes".to_owned(),
            Message::PendingBeforeSubmitting => "handle the pending native dialog before submitting".to_owned(),
            Message::PendingBeforeActing => "handle the pending native dialog before acting".to_owned(),
            Message::PendingBeforeScrolling => "handle the pending native dialog before scrolling".to_owned(),
            Message::SettingsConflict => "viewport and geolocation must match the first submission".to_owned(),
            Message::Busy => "one mutating submission is already active".to_owned(),
            Message::SubmissionFailed => "submission did not pass".to_owned(),
            Message::NotStarted => "submit a valid flow before inspecting the session".to_owned(),
            Message::ReferenceLost => "the referenced element detached or no longer uniquely matches".to_owned(),
            Message::EmptyScroll => "scroll requires a non-zero x or y delta".to_owned(),
            Message::DialogText => "dialog text is only valid with action accept for a prompt".to_owned(),
            Message::NotActive => "no submission is active".to_owned(),
        }
    }
}

/// A list of texts.
pub open spec fn list_json(texts: Seq<String>) -> Json {
    Json::List(texts_view(texts).map_values(|text: Seq<char>| Json::Text(text)))
}

/// Fields with one more, where it is known.
pub open spec fn with_text(
    fields: Seq<(Seq<char>, Json)>,
    name: Seq<char>,
    text: Option<Seq<char>>,
) -> Seq<(Seq<char>, Json)> {
    match text {
        Some(text) => fields.push((name, Json::Text(text))),
        None => fields,
    }
}

fn push_text(fields: &mut Vec<(String, JsonValue)>, name: &str, text: &Option<String>)
    ensures
        fields_view(final(fields)@) == with_text(
            fields_view(old(fields)@),
            name@,
            optional_text(*text),
        ),
{
    if let Some(text) = text {
        push_field(fields, name, text_value(text.as_str()));
    }
}

fn push_safe(fields: &mut Vec<(String, JsonValue)>, name: &str, text: &Option<SafeText>)
    ensures
        fields_view(final(fields)@) == with_text(
            fields_view(old(fields)@),
            name@,
            optional_safe(*text),
        ),
{
    if let Some(text) = text {
        push_field(fields, name, text_value(text.as_str()));
    }
}

/// Fields with one more, where it is known.
pub open spec fn with_number(
    fields: Seq<(Seq<char>, Json)>,
    name: Seq<char>,
    number: Option<int>,
) -> Seq<(Seq<char>, Json)> {
    match number {
        Some(number) => fields.push((name, Json::Integer(number))),
        None => fields,
    }
}

/// The record of the step of a failure.
pub open spec fn step_json(step: StepContext) -> Json {
    let fields = seq![("number"@, Json::Integer(step.number as int))];
    let fields = with_text(fields, "source"@, optional_text(step.source));
    let fields = with_number(
        fields,
        "source_step"@,
        match step.source_step {
            Some(number) => Some(number as int),
            None => None,
        },
    );
    let fields = with_text(fields, "id"@, optional_text(step.id));
    let fields = fields.push(("operation"@, Json::Text(step.operation@)));
    Json::Record(with_text(fields, "locator"@, optional_safe(step.locator)))
}

fn step_value(step: &StepContext) -> (value: JsonValue)
    ensures
        value@ == step_json(*step),
{
    broadcast use crate::json::group_json_views;

    let mut fields = no_fields();
    push_field(&mut fields, "number", JsonValue::Unsigned(step.number as u64));
    assert(fields_view(fields@) =~= seq![("number"@, Json::Integer(step.number as int))]);
    push_text(&mut fields, "source", &step.source);
    if let Some(number) = step.source_step {
        push_field(&mut fields, "source_step", JsonValue::Unsigned(number as u64));
    }
    push_text(&mut fields, "id", &step.id);
    push_field(&mut fields, "operation", text_value(step.operation.as_str()));
    push_safe(&mut fields, "locator", &step.locator);
    JsonValue::Record(fields)
}

/// The record of a failure.
pub open spec fn failure_json(failure: Failure) -> Json {
    let fields = seq![
        ("category"@, Json::Text(category_label(failure.category))),
        ("message"@, Json::Text(failure.message@)),
    ];
    let fields = match failure.step {
        Some(step) => fields.push(("step"@, step_json(step))),
        None => fields,
    };
    let fields = with_text(fields, "current_url"@, optional_safe(failure.current_url));
    let fields = with_number(
        fields,
        "timeout_ms"@,
        match failure.timeout_ms {
            Some(number) => Some(number as int),
            None => None,
        },
    );
    Json::Record(with_text(fields, "last_observed"@, optional_safe(failure.last_observed)))
}

fn failure_value(failure: &Failure) -> (value: JsonValue)
    ensures
        value@ == failure_json(*failure),
{
    broadcast use crate::json::group_json_views;

    let mut fields = no_fields();
    push_field(&mut fields, "category", text_value(category_name(failure.category)));
    push_field(&mut fields, "message", text_value(failure.message.as_str()));
    assert(fields_view(fields@) =~= seq![
        ("category"@, Json::Text(category_label(failure.category))),
        ("message"@, Json::Text(failure.message@)),
    ]);
    if let Some(step) = &failure.step {
        push_field(&mut fields, "step", step_value(step));
    }
    push_safe(&mut fields, "current_url", &failure.current_url);
    if let Some(number) = failure.timeout_ms {
        push_field(&mut fields, "timeout_ms", JsonValue::Unsigned(number));
    }
    push_safe(&mut fields, "last_observed", &failure.last_observed);
    JsonValue::Record(fields)
}

/// The record of artifacts.
pub open spec fn artifacts_json(artifacts: ArtifactPaths) -> Json {
    let fields = seq![
        ("directory"@, Json::Text(artifacts.directory@)),
        ("screenshots"@, list_json(artifacts.screenshots@)),
    ];
    let fields = with_text(
        fields,
        "failure_screenshot"@,
        optional_text(artifacts.failure_screenshot),
    );
    let fields = with_text(fields, "visual_actual"@, optional_text(artifacts.visual_actual));
    let fields = with_text(fields, "visual_diff"@, optional_text(artifacts.visual_diff));
    let fields = with_text(fields, "recording"@, optional_text(artifacts.recording));
    Json::Record(
        with_text(fields, "partial_recording"@, optional_text(artifacts.partial_recording)),
    )
}

fn artifacts_value(artifacts: &ArtifactPaths) -> (value: JsonValue)
    ensures
        value@ == artifacts_json(*artifacts),
{
    broadcast use crate::json::group_json_views;

    let mut fields = no_fields();
    push_field(&mut fields, "directory", text_value(artifacts.directory.as_str()));
    push_field(&mut fields, "screenshots", text_list(&artifacts.screenshots));
    assert(fields_view(fields@) =~= seq![
        ("directory"@, Json::Text(artifacts.directory@)),
        ("screenshots"@, list_json(artifacts.screenshots@)),
    ]);
    push_text(&mut fields, "failure_screenshot", &artifacts.failure_screenshot);
    push_text(&mut fields, "visual_actual", &artifacts.visual_actual);
    push_text(&mut fields, "visual_diff", &artifacts.visual_diff);
    push_text(&mut fields, "recording", &artifacts.recording);
    push_text(&mut fields, "partial_recording", &artifacts.partial_recording);
    JsonValue::Record(fields)
}

/// The list of warnings.
pub open spec fn warnings_json(warnings: Seq<SafeText>) -> Json {
    Json::List(warnings.map_values(|warning: SafeText| Json::Text(warning@)))
}

/// The list of failures.
pub open spec fn failures_json(failures: Seq<Failure>) -> Json {
    Json::List(failures.map_values(|failure: Failure| failure_json(failure)))
}

fn warnings_value(warnings: &Vec<SafeText>) -> (value: JsonValue)
    ensures
        value@ == warnings_json(warnings@),
{
    broadcast use crate::json::group_json_views;

    let mut items: Vec<JsonValue> = Vec::new();
    let mut i: usize = 0;
    while i < warnings.len()
        invariant
            i <= warnings.len(),
            items@.len() == i,
            forall|k: int| 0 <= k < i ==> (#[trigger] items@[k])@ == Json::Text(warnings@[k]@),
        decreases warnings.len() - i,
    {
        items.push(text_value(warnings[i].as_str()));
        i += 1;
    }
    assert(values_view(items@) =~= warnings@.map_values(
        |warning: SafeText| Json::Text(warning@),
    ));
    JsonValue::List(items)
}

fn failures_value(failures: &Vec<Failure>) -> (value: JsonValue)
    ensures
        value@ == failures_json(failures@),
{
    broadcast use crate::json::group_json_views;

    let mut items: Vec<JsonValue> = Vec::new();
    let mut i: usize = 0;
    while i < failures.len()
        invariant
            i <= failures.len(),
            items@.len() == i,
            forall|k: int| 0 <= k < i ==> (#[trigger] items@[k])@ == failure_json(failures@[k]),
        decreases failures.len() - i,
    {
        items.push(failure_value(&failures[i]));
        i += 1;
    }
    assert(values_view(items@) =~= failures@.map_values(|failure: Failure| failure_json(failure)));
    JsonValue::List(items)
}

/// The record of a report.
pub open spec fn report_json(report: FlowReport) -> Json {
    Json::Record(
        seq![
            ("name"@, Json::Text(report.name@)),
            ("path"@, Json::Text(report.path@)),
            ("duration_ms"@, Json::Integer(report.duration_ms as int)),
            ("status"@, Json::Text(status_label(report.status))),
            ("failures"@, failures_json(report.failures@)),
            ("warnings"@, warnings_json(report.warnings@)),
            ("artifacts"@, artifacts_json(report.artifacts)),
        ],
    )
}

pub fn report_value(report: &FlowReport) -> (value: JsonValue)
    ensures
        value@ == report_json(*report),
{
    broadcast use crate::json::group_json_views;

    let fields: Vec<(String, JsonValue)> = vec![
        field("name", text_value(report.name.as_str())),
        field("path", text_value(report.path.as_str())),
        field("duration_ms", JsonValue::Unsigned(report.duration_ms)),
        field("status", text_value(status_name(report.status))),
        field("failures", failures_value(&report.failures)),
        field("warnings", warnings_value(&report.warnings)),
        field("artifacts", artifacts_value(&report.artifacts)),
    ];
    assert(fields_view(fields@) =~= report_json(*report)->Record_0);
    JsonValue::Record(fields)
}

/// The record of a session that closed.
pub open spec fn closed_json(close: CloseResult) -> Json {
    Json::Record(
        seq![
            ("closed"@, Json::Bool(true)),
            ("recording"@, Json::Record(gathered(recording_fields(close.recording)))),
            ("warnings"@, list_json(close.warnings@)),
        ],
    )
}

fn closed_value(close: &CloseResult) -> (value: JsonValue)
    ensures
        value@ == closed_json(*close),
{
    broadcast use crate::json::group_json_views;

    let fields: Vec<(String, JsonValue)> = vec![
        field("closed", JsonValue::Bool(true)),
        field("recording", close.recording.to_json()),
        field("warnings", text_list(&close.warnings)),
    ];
    assert(fields_view(fields@) =~= closed_json(*close)->Record_0);
    JsonValue::Record(fields)
}

/// The record of a session that closed, with its bundle.
pub open spec fn bundled_json(bundle: Option<String>, close: CloseResult) -> Json {
    Json::Record(
        seq![
            ("closed"@, Json::Bool(true)),
            ("bundle"@, text_or_null(optional_text(bundle))),
            ("recording"@, Json::Record(gathered(recording_fields(close.recording)))),
            ("warnings"@, list_json(close.warnings@)),
        ],
    )
}

fn bundled_value(bundle: &Option<String>, close: &CloseResult) -> (value: JsonValue)
    ensures
        value@ == bundled_json(*bundle, *close),
{
    broadcast use crate::json::group_json_views;

    let fields: Vec<(String, JsonValue)> = vec![
        field("closed", JsonValue::Bool(true)),
        field("bundle", optional_value(bundle)),
        field("recording", close.recording.to_json()),
        field("warnings", text_list(&close.warnings)),
    ];
    assert(fields_view(fields@) =~= bundled_json(*bundle, *close)->Record_0);
    JsonValue::Record(fields)
}

/// The record of a snapshot that a dialog is in the way of.
pub open spec fn blocked_json(latest: u64, dialog: PendingDialog) -> Json {
    Json::Record(
        seq![
            ("snapshot_revision"@, Json::Integer(latest as int)),
            ("pending_dialog"@, Json::Record(gathered(dialog_fields(dialog)))),
            ("capture_status"@, Json::Text("blocked_by_dialog"@)),
        ],
    )
}

fn blocked_value(latest: u64, dialog: &PendingDialog) -> (value: JsonValue)
    ensures
        value@ == blocked_json(latest, *dialog),
{
    broadcast use crate::json::group_json_views;

    let fields: Vec<(String, JsonValue)> = vec![
        field("snapshot_revision", JsonValue::Unsigned(latest)),
        field("pending_dialog", dialog.to_json()),
        field("capture_status", text_value("blocked_by_dialog")),
    ];
    assert(fields_view(fields@) =~= blocked_json(latest, *dialog)->Record_0);
    JsonValue::Record(fields)
}

/// An optional value, null where there is none.
pub open spec fn value_or_null(value: Option<JsonValue>) -> Json {
    match value {
        Some(value) => value@,
        None => Json::Null,
    }
}

fn value_or_none(value: &Option<JsonValue>) -> (copy: JsonValue)
    ensures
        copy@ == value_or_null(*value),
{
    match value {
        Some(value) => value.clone(),
        None => JsonValue::Null,
    }
}

/// A dialog, null where there is none.
pub open spec fn dialog_or_null(dialog: Option<PendingDialog>) -> Json {
    match dialog {
        Some(dialog) => Json::Record(gathered(dialog_fields(dialog))),
        None => Json::Null,
    }
}

fn dialog_or_none(dialog: &Option<PendingDialog>) -> (value: JsonValue)
    ensures
        value@ == dialog_or_null(*dialog),
{
    match dialog {
        Some(dialog) => dialog.to_json(),
        None => JsonValue::Null,
    }
}

/// The elements of a snapshot, where they are wanted as a tree.
pub open spec fn tree_json(parts: SnapshotParts) -> Json {
    if parts.accessibility {
        parts.capture.elements@
    } else {
        Json::Null
    }
}

fn tree_value(parts: &SnapshotParts) -> (value: JsonValue)
    ensures
        value@ == tree_json(*parts),
{
    if parts.accessibility {
        parts.capture.elements.clone()
    } else {
        JsonValue::Null
    }
}

/// The artifacts of a step.
pub open spec fn artifact_json(artifact: Option<String>) -> Json {
    Json::List(
        match artifact {
            Some(path) => seq![Json::Text(path@)],
            None => Seq::empty(),
        },
    )
}

fn artifact_value(artifact: &Option<String>) -> (value: JsonValue)
    ensures
        value@ == artifact_json(*artifact),
{
    broadcast use crate::json::group_json_views;

    let mut items: Vec<JsonValue> = Vec::new();
    if let Some(path) = artifact {
        items.push(text_value(path.as_str()));
    }
    assert(values_view(items@) =~= artifact_json(*artifact)->List_0);
    JsonValue::List(items)
}

/// The record of a snapshot.
pub open spec fn snapshot_json(parts: SnapshotParts) -> Json {
    Json::Record(
        seq![
            ("snapshot_revision"@, Json::Integer(parts.capture.generation as int)),
            ("url"@, Json::Text(parts.inspection.url@)),
            ("title"@, Json::Text(parts.inspection.title@)),
            ("pages"@, pages_json(parts.inspection.pages@)),
            ("active_frame"@, text_or_null(optional_text(parts.inspection.active_frame))),
            ("viewport"@, parts.capture.viewport@),
            ("scroll"@, parts.capture.scroll@),
            ("pending_dialog"@, Json::Null),
            ("capture_status"@, Json::Text("complete"@)),
            ("screenshot"@, text_or_null(optional_text(parts.screenshot))),
            ("tree"@, tree_json(parts)),
            ("elements"@, parts.capture.elements@),
            ("truncation"@, single("truncated"@, Json::Bool(parts.capture.truncated))),
            ("diff"@, value_or_null(parts.capture.diff)),
        ],
    )
}

fn snapshot_value(parts: &SnapshotParts) -> (value: JsonValue)
    ensures
        value@ == snapshot_json(*parts),
{
    broadcast use crate::json::group_json_views;

    let fields: Vec<(String, JsonValue)> = vec![
        field("snapshot_revision", JsonValue::Unsigned(parts.capture.generation)),
        field("url", text_value(parts.inspection.url.as_str())),
        field("title", text_value(parts.inspection.title.as_str())),
        field("pages", pages_value(&parts.inspection.pages)),
        field("active_frame", optional_value(&parts.inspection.active_frame)),
        field("viewport", parts.capture.viewport.clone()),
        field("scroll", parts.capture.scroll.clone()),
        field("pending_dialog", JsonValue::Null),
        field("capture_status", text_value("complete")),
        field("screenshot", optional_value(&parts.screenshot)),
        field("tree", tree_value(parts)),
        field("elements", parts.capture.elements.clone()),
        field("truncation", single_value("truncated", JsonValue::Bool(parts.capture.truncated))),
        field("diff", value_or_none(&parts.capture.diff)),
    ];
    assert(fields_view(fields@) =~= snapshot_json(*parts)->Record_0);
    JsonValue::Record(fields)
}

/// The record of an action that was done.
pub open spec fn acted_json(
    action: PreparedAction,
    result: InteractiveStepResult,
    pending: Option<PendingDialog>,
    elapsed_ms: u64,
) -> Json {
    Json::Record(
        seq![
            ("action"@, Json::Text(action.name@)),
            ("locator"@, value_or_null(action.locator)),
            ("url"@, Json::Text(result.url@)),
            ("title"@, Json::Text(result.title@)),
            ("pending_dialog"@, dialog_or_null(pending)),
            ("outputs"@, list_json(result.outputs@)),
            ("artifacts"@, artifact_json(result.artifact)),
            ("elapsed_ms"@, Json::Integer(elapsed_ms as int)),
        ],
    )
}

fn acted_value(
    action: &PreparedAction,
    result: &InteractiveStepResult,
    pending: &Option<PendingDialog>,
    elapsed_ms: u64,
) -> (value: JsonValue)
    ensures
        value@ == acted_json(*action, *result, *pending, elapsed_ms),
{
    broadcast use crate::json::group_json_views;

    let fields: Vec<(String, JsonValue)> = vec![
        field("action", text_value(action.name.as_str())),
        field("locator", value_or_none(&action.locator)),
        field("url", text_value(result.url.as_str())),
        field("title", text_value(result.title.as_str())),
        field("pending_dialog", dialog_or_none(pending)),
        field("outputs", text_list(&result.outputs)),
        field("artifacts", artifact_value(&result.artifact)),
        field("elapsed_ms", JsonValue::Unsigned(elapsed_ms)),
    ];
    assert(fields_view(fields@) =~= acted_json(*action, *result, *pending, elapsed_ms)->Record_0);
    JsonValue::Record(fields)
}

/// The record of an action that failed.
pub open spec fn failed_step_json(error: InteractiveStepError) -> Json {
    Json::Record(
        seq![
            ("category"@, Json::Text(error.category.label())),
            ("last_observed"@, text_or_null(optional_text(error.last_observed))),
        ],
    )
}

fn failed_step_value(error: &InteractiveStepError) -> (value: JsonValue)
    ensures
        value@ == failed_step_json(*error),
{
    broadcast use crate::json::group_json_views;

    let fields: Vec<(String, JsonValue)> = vec![
        field("category", text_value(error.category.name())),
        field("last_observed", optional_value(&error.last_observed)),
    ];
    assert(fields_view(fields@) =~= failed_step_json(*error)->Record_0);
    JsonValue::Record(fields)
}

/// The record of a dialog that was answered.
pub open spec fn handled_json(dialog: PendingDialog) -> Json {
    Json::Record(
        seq![
            ("dialog"@, Json::Record(gathered(dialog_fields(dialog)))),
            ("handled"@, Json::Bool(true)),
        ],
    )
}

fn handled_value(dialog: &PendingDialog) -> (value: JsonValue)
    ensures
        value@ == handled_json(*dialog),
{
    broadcast use crate::json::group_json_views;

    let fields: Vec<(String, JsonValue)> = vec![
        field("dialog", dialog.to_json()),
        field("handled", JsonValue::Bool(true)),
    ];
    assert(fields_view(fields@) =~= handled_json(*dialog)->Record_0);
    JsonValue::Record(fields)
}

/// The record of a runtime output.
pub open spec fn output_json(name: String, content: JsonValue) -> Json {
    Json::Record(
        seq![
            ("name"@, Json::Text(name@)),
            ("value"@, content@),
        ],
    )
}

fn output_value(name: &String, content: &JsonValue) -> (value: JsonValue)
    ensures
        value@ == output_json(*name, *content),
{
    broadcast use crate::json::group_json_views;

    let fields: Vec<(String, JsonValue)> = vec![
        field("name", text_value(name.as_str())),
        field("value", content.clone()),
    ];
    assert(fields_view(fields@) =~= output_json(*name, *content)->Record_0);
    JsonValue::Record(fields)
}

/// What a response tells.
pub open spec fn body_json(body: Body) -> Json {
    match body {
        Body::Value(value) => value@,
        Body::MaxBytes => single("max_bytes"@, Json::Integer(MAX_ENVELOPE_BYTES as int)),
        Body::Cancelling => single("cancelling"@, Json::Bool(true)),
        Body::Dialog(dialog) => Json::Record(gathered(dialog_fields(dialog))),
        Body::Report(report) => report_json(report),
        Body::LatestSnapshot(latest) => single(
            "latest_snapshot_revision"@,
            Json::Integer(latest as int),
        ),
        Body::Closed(close) => closed_json(close),
        Body::ClosedWithBundle { bundle, close } => bundled_json(bundle, close),
        Body::Inspection(inspection) => Json::Record(gathered(inspection_fields(inspection))),
        Body::Blocked { latest, dialog } => blocked_json(latest, dialog),
        Body::Snapshot(parts) => snapshot_json(parts),
        Body::Acted { action, result, pending, elapsed_ms } => acted_json(
            action,
            result,
            pending,
            elapsed_ms,
        ),
        Body::StepFailure(error) => failed_step_json(error),
        Body::Scroll(scroll) => single("scroll"@, scroll@),
        Body::Handled(dialog) => handled_json(dialog),
        Body::Output { name, value } => output_json(name, value),
    }
}

impl Body {
    /// What a response tells.
    pub fn to_json(&self) -> (value: JsonValue)
        ensures
            value@ == body_json(*self),
    {
        match self {
            Body::Value(value) => value.clone(),
            Body::MaxBytes => single_value(
                "max_bytes",
                JsonValue::Unsigned(MAX_ENVELOPE_BYTES as u64),
            ),
            Body::Cancelling => single_value("cancelling", JsonValue::Bool(true)),
            Body::Dialog(dialog) => dialog.to_json(),
            Body::Report(report) => report_value(report),
            Body::LatestSnapshot(latest) => single_value(
                "latest_snapshot_revision",
                JsonValue::Unsigned(*latest),
            ),
            Body::Closed(close) => closed_value(close),
            Body::ClosedWithBundle { bundle, close } => bundled_value(bundle, close),
            Body::Inspection(inspection) => inspection.to_json(),
            Body::Blocked { latest, dialog } => blocked_value(*latest, dialog),
            Body::Snapshot(parts) => snapshot_value(parts),
            Body::Acted { action, result, pending, elapsed_ms } => acted_value(
                action,
                result,
                pending,
                *elapsed_ms,
            ),
            Body::StepFailure(error) => failed_step_value(error),
            Body::Scroll(scroll) => single_value("scroll", scroll.clone()),
            Body::Handled(dialog) => handled_value(dialog),
            Body::Output { name, value } => output_value(name, value),
        }
    }
}

/// The compact text of a value.
pub open spec fn written(value: Json) -> Seq<char> {
    json_text(canonical(value))
}

/// The end of a response: its result, or its error.
pub open spec fn outcome_text(outcome: Outcome) -> Seq<char> {
    match outcome {
        Outcome::Success(body) => ",\"result\":"@ + written(body_json(body)) + "}"@,
        Outcome::Error { code, message, details } => {
            let start = ",\"error\":{\"code\":"@ + written(Json::Text(code.label()))
                + ",\"message\":"@ + written(Json::Text(message_text(message)));
            match details {
                Some(details) => start + ",\"details\":"@ + written(body_json(details)) + "}}"@,
                None => start + "}}"@,
            }
        },
    }
}

/// The line of a response: to which command, whether it succeeded, of which session, under which
/// revision, and with what.
pub open spec fn response_line(session_id: Seq<char>, response: Response) -> Seq<char> {
    "{\"id\":"@ + written(response.id@) + (if response.outcome is Success {
        ",\"ok\":true,\"session_id\":"@
    } else {
        ",\"ok\":false,\"session_id\":"@
    }) + written(Json::Text(session_id)) + ",\"revision\":"@ + decimal(response.revision as nat)
        + outcome_text(response.outcome) + "\n"@
}

fn append_json(text: &mut String, value: &JsonValue)
    ensures
        final(text)@ == old(text)@ + written(value@),
{
    let shown = write_json(value);
    text.append(shown.as_str());
}

fn append_outcome(text: &mut String, outcome: &Outcome)
    ensures
        final(text)@ == old(text)@ + outcome_text(*outcome),
{
    let ghost before = text@;
    match outcome {
        Outcome::Success(body) => {
            text.append(",\"result\":");
            append_json(text, &body.to_json());
            text.append("}");
        },
        Outcome::Error { code, message, details } => {
            text.append(",\"error\":{\"code\":");
            append_json(text, &text_value(code.name()));
            text.append(",\"message\":");
            let told = message.text();
            append_json(text, &text_value(told.as_str()));
            if let Some(details) = details {
                text.append(",\"details\":");
                append_json(text, &details.to_json());
            }
            text.append("}}");
        },
    }
    assert(text@ =~= before + outcome_text(*outcome));
}

/// The line of a response.
pub fn write_response(session_id: &str, response: &Response) -> (line: String)
    ensures
        line@ == response_line(session_id@, *response),
{
    let mut line = "{\"id\":".to_owned();
    append_json(&mut line, &response.id);
    if matches!(response.outcome, Outcome::Success(_)) {
        line.append(",\"ok\":true,\"session_id\":");
    } else {
        line.append(",\"ok\":false,\"session_id\":");
    }
    append_json(&mut line, &text_value(session_id));
    line.append(",\"revision\":");
    let revision = decimal_text(response.revision);
    line.append(revision.as_str());
    append_outcome(&mut line, &response.outcome);
    line.append("\n");
    assert(line@ =~= response_line(session_id@, *response));
    line
}

/// The record of a viewport.
pub open spec fn viewport_json(viewport: Viewport) -> Json {
    Json::Record(
        seq![
            ("width"@, Json::Integer(viewport.width as int)),
            ("height"@, Json::Integer(viewport.height as int)),
        ],
    )
}

pub fn viewport_value(viewport: Viewport) -> (value: JsonValue)
    ensures
        value@ == viewport_json(viewport),
{
    broadcast use crate::json::group_json_views;

    let fields: Vec<(String, JsonValue)> = vec![
        field("width", JsonValue::Unsigned(viewport.width as u64)),
        field("height", JsonValue::Unsigned(viewport.height as u64)),
    ];
    assert(fields_view(fields@) =~= viewport_json(viewport)->Record_0);
    JsonValue::Record(fields)
}

/// The record of the settings of a session. The timeout is in nanoseconds.
pub open spec fn settings_json(
    viewport: Viewport,
    timeout: u128,
    video: VideoMode,
    policy: DialogPolicy,
) -> Json {
    Json::Record(
        seq![
            ("viewport"@, viewport_json(viewport)),
            ("timeout_ms"@, Json::Integer((timeout / 1_000_000) as int)),
            ("video"@, Json::Text(video.label())),
            ("dialog_policy"@, Json::Text(policy.label())),
        ],
    )
}

pub fn settings_value(
    viewport: Viewport,
    timeout: u128,
    video: VideoMode,
    policy: DialogPolicy,
) -> (value: JsonValue)
    requires
        timeout / 1_000_000 <= u64::MAX,
    ensures
        value@ == settings_json(viewport, timeout, video, policy),
{
    broadcast use crate::json::group_json_views;

    let fields: Vec<(String, JsonValue)> = vec![
        field("viewport", viewport_value(viewport)),
        field("timeout_ms", JsonValue::Unsigned((timeout / 1_000_000) as u64)),
        field("video", text_value(video.name())),
        field("dialog_policy", text_value(policy.name())),
    ];
    assert(fields_view(fields@) =~= settings_json(viewport, timeout, video, policy)->Record_0);
    JsonValue::Record(fields)
}

impl SessionOptions {
    /// The record of the settings that the session is started with.
    pub fn settings_json(&self) -> (value: JsonValue)
        requires
            self.settings.timeout / 1_000_000 <= u64::MAX,
        ensures
            value@ == settings_json(
                self.settings.viewport,
                self.settings.timeout,
                self.video,
                self.dialog_policy,
            ),
    {
        settings_value(
            self.settings.viewport,
            self.settings.timeout,
            self.video,
            self.dialog_policy,
        )
    }
}

/// The record that sums a snapshot up.
pub open spec fn summary_json(url: String, elements: u64) -> Json {
    Json::Record(
        seq![
            ("url"@, Json::Text(url@)),
            ("elements"@, Json::Integer(elements as int)),
        ],
    )
}

fn summary_value(url: &String, elements: u64) -> (value: JsonValue)
    ensures
        value@ == summary_json(*url, elements),
{
    broadcast use crate::json::group_json_views;

    let fields: Vec<(String, JsonValue)> = vec![
        field("url", text_value(url.as_str())),
        field("elements", JsonValue::Unsigned(elements)),
    ];
    assert(fields_view(fields@) =~= summary_json(*url, elements)->Record_0);
    JsonValue::Record(fields)
}

/// The name of an answer to a dialog.
pub open spec fn choice_label(choice: DialogChoice) -> Seq<char> {
    match choice {
        DialogChoice::Accept => "accept"@,
        DialogChoice::Dismiss => "dismiss"@,
    }
}

/// Whether this is the entry of the journal for a note. `settings` is the record of the session's
/// settings.
pub open spec fn is_entry(event: JournalEvent, note: Note, settings: Json) -> bool {
    match note {
        Note::Settings => match event {
            JournalEvent::Settings { settings: told } => told@ == settings,
            _ => false,
        },
        Note::Warning(warning) => event == JournalEvent::RecorderWarning { warning },
        Note::Submission { passed } => match event {
            JournalEvent::Submission { outcome } => is_outcome(
                outcome,
                if passed {
                    None
                } else {
                    Some("submission did not pass"@)
                },
            ),
            _ => false,
        },
        Note::Snapshot { revision, url, elements } => match event {
            JournalEvent::Snapshot { snapshot_revision, summary } => snapshot_revision == revision
                && summary@ == summary_json(url, elements),
            _ => false,
        },
        Note::Navigation(url) => event == JournalEvent::ObservedNavigation { url },
        Note::Dialog { action, text } => match event {
            JournalEvent::DialogHandled { action: told, text: value } => {
                &&& told@ == choice_label(action)
                &&& match (value, text) {
                    (Some(value), Some(text)) => value@ == Json::Text(text@),
                    (None, None) => true,
                    _ => false,
                }
            },
            _ => false,
        },
    }
}

/// Whether an outcome is a success, or a failure with this error.
pub open spec fn is_outcome(outcome: ActionOutcome, error: Option<Seq<char>>) -> bool {
    match (outcome, error) {
        (ActionOutcome::Success, None) => true,
        (ActionOutcome::Failed { error: told }, Some(error)) => told@ == error,
        _ => false,
    }
}

/// The entry of the journal for a note.
pub fn journal_entry(note: Note, settings: JsonValue) -> (event: JournalEvent)
    ensures
        is_entry(event, note, settings@),
{
    match note {
        Note::Settings => JournalEvent::Settings { settings },
        Note::Warning(warning) => JournalEvent::RecorderWarning { warning },
        Note::Submission { passed } => JournalEvent::Submission {
            outcome: if passed {
                ActionOutcome::Success
            } else {
                ActionOutcome::Failed { error: "submission did not pass".to_owned() }
            },
        },
        Note::Snapshot { revision, url, elements } => JournalEvent::Snapshot {
            snapshot_revision: revision,
            summary: summary_value(&url, elements),
        },
        Note::Navigation(url) => JournalEvent::ObservedNavigation { url },
        Note::Dialog { action, text } => {
            let told = match action {
                DialogChoice::Accept => "accept".to_owned(),
                DialogChoice::Dismiss => "dismiss".to_owned(),
            };
            let text = match text {
                Some(text) => Some(JsonValue::Text(text)),
                None => None,
            };
            JournalEvent::DialogHandled { action: told, text }
        },
    }
}

/// The entry of the journal for a step that was done.
pub fn step_entry(
    step: &JsonValue,
    locator: &Option<JsonValue>,
    result: &Result<InteractiveStepResult, InteractiveStepError>,
) -> (event: JournalEvent)
    ensures
        match event {
            JournalEvent::ReplayStep { step: told, outcome, durable_locator } => {
                &&& told@ == step@
                &&& is_outcome(
                    outcome,
                    match *result {
                        Ok(_) => None,
                        Err(error) => Some(error.message@),
                    },
                )
                &&& match (durable_locator, *locator) {
                    (Some(told), Some(locator)) => told@ == locator@,
                    (None, None) => true,
                    _ => false,
                }
            },
            _ => false,
        },
{
    let outcome = match result {
        Ok(_) => ActionOutcome::Success,
        Err(error) => ActionOutcome::Failed { error: error.message.clone() },
    };
    let durable_locator = match locator {
        Some(locator) => Some(locator.clone()),
        None => None,
    };
    JournalEvent::ReplayStep { step: step.clone(), outcome, durable_locator }
}

/// The record of how far a page is scrolled.
pub open spec fn scroll_distance_json(x: i64, y: i64) -> Json {
    Json::Record(
        seq![
            ("x"@, Json::Integer(x as int)),
            ("y"@, Json::Integer(y as int)),
        ],
    )
}

fn scroll_distance_value(x: i64, y: i64) -> (value: JsonValue)
    ensures
        value@ == scroll_distance_json(x, y),
{
    broadcast use crate::json::group_json_views;

    let fields: Vec<(String, JsonValue)> = vec![
        field("x", JsonValue::Signed(x)),
        field("y", JsonValue::Signed(y)),
    ];
    assert(fields_view(fields@) =~= scroll_distance_json(x, y)->Record_0);
    JsonValue::Record(fields)
}

/// The step that scrolls a page.
pub fn scroll_step(x: i64, y: i64) -> (step: JsonValue)
    ensures
        step@ == single("scroll"@, scroll_distance_json(x, y)),
{
    single_value("scroll", scroll_distance_value(x, y))
}

/// A name with a number of at least six digits.
pub open spec fn numbered_name(prefix: Seq<char>, number: u64, suffix: Seq<char>) -> Seq<char> {
    prefix + zero_padded(decimal(number as nat), 6) + suffix
}

fn number_name(prefix: &str, number: u64, suffix: &str) -> (name: String)
    ensures
        name@ == numbered_name(prefix@, number, suffix@),
{
    let mut name = prefix.to_owned();
    let digits = padded_text(number, 6);
    name.append(digits.as_str());
    name.append(suffix);
    name
}

/// The directory of a submission.
pub fn submission_name(number: u64) -> (name: String)
    ensures
        name@ == numbered_name("submission-"@, number, ""@),
{
    number_name("submission-", number, "")
}

/// The source of the flow of a submission.
pub fn submission_source(number: u64) -> (name: String)
    ensures
        name@ == numbered_name("submission-"@, number, ".yaml"@),
{
    number_name("submission-", number, ".yaml")
}

/// The directory of an inspection.
pub fn inspection_name(number: u64) -> (name: String)
    ensures
        name@ == numbered_name("inspection-"@, number, ""@),
{
    number_name("inspection-", number, "")
}

/// The file of the screenshot of a snapshot.
pub fn snapshot_name(number: u64) -> (name: String)
    ensures
        name@ == numbered_name("snapshot-"@, number, ".png"@),
{
    number_name("snapshot-", number, ".png")
}

/// Different numbers make different names.
pub proof fn numbered_names_differ(
    prefix: Seq<char>,
    left: u64,
    right: u64,
    suffix: Seq<char>,
)
    requires
        numbered_name(prefix, left, suffix) == numbered_name(prefix, right, suffix),
    ensures
        left == right,
{
    let first = zero_padded(decimal(left as nat), 6);
    let second = zero_padded(decimal(right as nat), 6);
    let whole = numbered_name(prefix, left, suffix);
    assert(whole.len() == prefix.len() + first.len() + suffix.len());
    assert(numbered_name(prefix, right, suffix).len() == prefix.len() + second.len()
        + suffix.len());
    assert(first =~= whole.subrange(prefix.len() as int, (prefix.len() + first.len()) as int));
    assert(second =~= whole.subrange(prefix.len() as int, (prefix.len() + second.len()) as int));
    crate::text::padded_is_injective(left as nat, right as nat, 6);
}

/// The numeral of a number to the base of sixteen.
pub open spec fn hexadecimal(value: nat) -> Seq<char>
    decreases value,
{
    if value < 16 {
        seq![hex_digit(value)]
    } else {
        hexadecimal(value / 16).push(hex_digit(value % 16))
    }
}

/// A digit to the base of sixteen.
pub open spec fn hex_digit(value: nat) -> char {
    if value < 10 {
        ('0' as nat + value) as char
    } else {
        ('a' as nat + value - 10) as char
    }
}

fn hexadecimal_text(value: u128) -> (text: String)
    ensures
        text@ == hexadecimal(value as nat),
    decreases value,
{
    let mut text = if value < 16 {
        String::new()
    } else {
        hexadecimal_text(value / 16)
    };
    let digit: u8 = (value % 16) as u8;
    if digit < 10 {
        text.push((48u8 + digit) as char);
    } else {
        text.push((87u8 + digit) as char);
    }
    text
}

/// The identifier of a session, from the number of its process and the time.
pub fn session_id(process: u32, nanos: u128) -> (id: String)
    ensures
        id@ == hexadecimal(process as nat) + "-"@ + hexadecimal(nanos as nat),
{
    let mut id = hexadecimal_text(process as u128);
    id.append("-");
    let time = hexadecimal_text(nanos);
    id.append(time.as_str());
    id
}

/// The directory of a session's artifacts.
pub fn session_directory(id: &str) -> (name: String)
    ensures
        name@ == "session-"@ + id@,
{
    join("session-", id)
}

/// The file of the journal of a session that has no directory.
pub fn fallback_journal(id: &str) -> (name: String)
    ensures
        name@ == "playrust-session-"@ + id@ + ".ndjson"@,
{
    let mut name = join("playrust-session-", id);
    name.append(".ndjson");
    name
}

/// A response is told with the identifier of its request, the session's, and its revision; it is in order
/// exactly if it is no error.
pub proof fn responses_tell_whose_they_are(session_id: &str, response: Response, line: String)
    requires
        call_ensures(write_response, (session_id, &response), line),
    ensures
        ({
            let start = "{\"id\":"@ + json_text(canonical(response.id@)) + (match response.outcome {
                Outcome::Success(_) => ",\"ok\":true,\"session_id\":"@,
                Outcome::Error { .. } => ",\"ok\":false,\"session_id\":"@,
            }) + json_text(canonical(Json::Text(session_id@))) + ",\"revision\":"@ + decimal(
                response.revision as nat,
            );
            &&& start.is_prefix_of(line@)
            &&& line@.last() == '\n'
            &&& response.outcome matches Outcome::Success(body) ==> line@ == start
                + ",\"result\":"@ + json_text(canonical(body_json(body))) + "}"@ + "\n"@
            &&& response.outcome matches Outcome::Error { code, message, details } ==> {
                let told = start + ",\"error\":{\"code\":"@ + json_text(
                    canonical(Json::Text(code.label())),
                ) + ",\"message\":"@ + json_text(canonical(Json::Text(message_text(message))));
                &&& details is None ==> line@ == told + "}}"@ + "\n"@
                &&& details is Some ==> line@ == told + ",\"details\":"@ + json_text(
                    canonical(body_json(details->0)),
                ) + "}}"@ + "\n"@
            }
        }),
{
    reveal_strlit("\n");
    let start = "{\"id\":"@ + written(response.id@) + (match response.outcome {
        Outcome::Success(_) => ",\"ok\":true,\"session_id\":"@,
        Outcome::Error { .. } => ",\"ok\":false,\"session_id\":"@,
    }) + written(Json::Text(session_id@)) + ",\"revision\":"@ + decimal(response.revision as nat);
    assert(line@ =~= start + outcome_text(response.outcome) + "\n"@);
    assert(line@.take(start.len() as int) =~= start);
    assert(line@.last() == "\n"@[0]);
    match response.outcome {
        Outcome::Success(body) => {
            assert(line@ =~= start + ",\"result\":"@ + json_text(canonical(body_json(body))) + "}"@
                + "\n"@);
        },
        Outcome::Error { code, message, details } => {
            let told = start + ",\"error\":{\"code\":"@ + json_text(
                canonical(Json::Text(code.label())),
            ) + ",\"message\":"@ + json_text(canonical(Json::Text(message_text(message))));
            match details {
                Some(details) => {
                    assert(line@ =~= told + ",\"details\":"@ + json_text(
                        canonical(body_json(details)),
                    ) + "}}"@ + "\n"@);
                },
                None => {
                    assert(line@ =~= told + "}}"@ + "\n"@);
                },
            }
        },
    }
}

/// The names that errors go by.
pub proof fn errors_go_by_their_names(code: ErrorCode, name: &'static str)
    requires
        call_ensures(ErrorCode::name, (code,), name),
    ensures
        code is StaleReference ==> name@ == "stale_reference"@,
        code is UnknownReference ==> name@ == "unknown_reference"@,
        code is DialogPending ==> name@ == "dialog_pending"@,
        code is Validation ==> name@ == "validation"@,
        code is Busy ==> name@ == "busy"@,
        code is Cancelled ==> name@ == "cancelled"@,
        code is NotStarted ==> name@ == "not_started"@,
        code is NotActive ==> name@ == "not_active"@,
        code is ActionFailed ==> name@ == "action_failed"@,
        code is SubmissionFailed ==> name@ == "submission_failed"@,
        code is SnapshotUnavailable ==> name@ == "snapshot_unavailable"@,
        code is OutputNotFound ==> name@ == "output_not_found"@,
        code is ExportInvalid ==> name@ == "export_invalid"@,
        code is Artifacts ==> name@ == "artifacts"@,
        code is Browser ==> name@ == "browser"@,
        code is InvalidCommand ==> name@ == "invalid_command"@,
        code is EnvelopeTooLarge ==> name@ == "envelope_too_large"@,
        code is SettingsConflict ==> name@ == "settings_conflict"@,
{
}

/// A snapshot is told with what was captured: its revision, the page, the elements, what was cut off and what
/// changed; the tree is there only if it was asked for.
pub proof fn snapshots_are_told_as_captured(parts: SnapshotParts, value: JsonValue)
    requires
        call_ensures(Body::to_json, (&Body::Snapshot(parts),), value),
    ensures
        value@ matches Json::Record(fields) && {
            &&& fields.contains(
                ("snapshot_revision"@, Json::Integer(parts.capture.generation as int)),
            )
            &&& fields.contains(("url"@, Json::Text(parts.inspection.url@)))
            &&& fields.contains(("title"@, Json::Text(parts.inspection.title@)))
            &&& fields.contains(("pages"@, pages_json(parts.inspection.pages@)))
            &&& fields.contains(("viewport"@, parts.capture.viewport@))
            &&& fields.contains(("scroll"@, parts.capture.scroll@))
            &&& fields.contains(("pending_dialog"@, Json::Null))
            &&& fields.contains(("capture_status"@, Json::Text("complete"@)))
            &&& fields.contains(("elements"@, parts.capture.elements@))
            &&& (parts.accessibility ==> fields.contains(("tree"@, parts.capture.elements@)))
            &&& (!parts.accessibility ==> fields.contains(("tree"@, Json::Null)))
            &&& fields.contains(
                (
                    "truncation"@,
                    Json::Record(seq![("truncated"@, Json::Bool(parts.capture.truncated))]),
                ),
            )
            &&& (parts.capture.diff matches Some(diff) ==> fields.contains(("diff"@, diff@)))
            &&& (parts.capture.diff is None ==> fields.contains(("diff"@, Json::Null)))
            &&& (parts.screenshot matches Some(path) ==> fields.contains(
                ("screenshot"@, Json::Text(path@)),
            ))
            &&& (parts.screenshot is None ==> fields.contains(("screenshot"@, Json::Null)))
        },
{
    let fields = value@->Record_0;
    assert(fields[0].0 == "snapshot_revision"@ && fields[1].0 == "url"@ && fields[2].0 == "title"@);
    assert(fields[3].0 == "pages"@ && fields[5].0 == "viewport"@ && fields[6].0 == "scroll"@);
    assert(fields[7].0 == "pending_dialog"@ && fields[8].0 == "capture_status"@);
    assert(fields[9].0 == "screenshot"@ && fields[10].0 == "tree"@ && fields[11].0 == "elements"@);
    assert(fields[12].0 == "truncation"@ && fields[13].0 == "diff"@);
}

/// An action that was done is told with its name, its locator, the page it left, its outputs and artifacts, the
/// dialog that it opened, and how long it took.
pub proof fn actions_are_told_as_done(
    action: PreparedAction,
    result: InteractiveStepResult,
    pending: Option<PendingDialog>,
    elapsed_ms: u64,
    value: JsonValue,
)
    requires
        call_ensures(Body::to_json, (&Body::Acted { action, result, pending, elapsed_ms },), value),
    ensures
        value@ matches Json::Record(fields) && {
            &&& fields.contains(("action"@, Json::Text(action.name@)))
            &&& (action.locator matches Some(locator) ==> fields.contains(
                ("locator"@, locator@),
            ))
            &&& (action.locator is None ==> fields.contains(("locator"@, Json::Null)))
            &&& fields.contains(("url"@, Json::Text(result.url@)))
            &&& fields.contains(("title"@, Json::Text(result.title@)))
            &&& fields.contains(("outputs"@, list_json(result.outputs@)))
            &&& (result.artifact matches Some(path) ==> fields.contains(
                ("artifacts"@, Json::List(seq![Json::Text(path@)])),
            ))
            &&& (result.artifact is None ==> fields.contains(
                ("artifacts"@, Json::List(Seq::empty())),
            ))
            &&& (pending matches Some(dialog) ==> fields.contains(
                ("pending_dialog"@, Json::Record(gathered(dialog_fields(dialog)))),
            ))
            &&& (pending is None ==> fields.contains(("pending_dialog"@, Json::Null)))
            &&& fields.contains(("elapsed_ms"@, Json::Integer(elapsed_ms as int)))
        },
{
    let fields = value@->Record_0;
    assert(fields[0].0 == "action"@ && fields[1].0 == "locator"@ && fields[2].0 == "url"@);
    assert(fields[3].0 == "title"@ && fields[4].0 == "pending_dialog"@);
    assert(fields[5].0 == "outputs"@ && fields[6].0 == "artifacts"@ && fields[7].0 == "elapsed_ms"@);
}

/// A run is told with its name, its file, how long it took, its status, and all that failed and was warned of.
pub proof fn runs_are_told_by_their_report(report: FlowReport, value: JsonValue, i: int)
    requires
        call_ensures(report_value, (&report,), value),
    ensures
        value@ matches Json::Record(fields) && {
            &&& fields.contains(("name"@, Json::Text(report.name@)))
            &&& fields.contains(("path"@, Json::Text(report.path@)))
            &&& fields.contains(("duration_ms"@, Json::Integer(report.duration_ms as int)))
            &&& (report.status is Passed ==> fields.contains(("status"@, Json::Text("passed"@))))
            &&& (report.status is Failed ==> fields.contains(("status"@, Json::Text("failed"@))))
            &&& (report.status is Interrupted ==> fields.contains(
                ("status"@, Json::Text("interrupted"@)),
            ))
            &&& exists|held: Seq<Json>| #[trigger]
                fields.contains(("failures"@, Json::List(held))) && held.len()
                    == report.failures@.len() && (0 <= i < held.len() ==> held[i] == failure_json(
                    report.failures@[i],
                ))
            &&& exists|held: Seq<Json>| #[trigger]
                fields.contains(("warnings"@, Json::List(held))) && held.len()
                    == report.warnings@.len() && (0 <= i < held.len() ==> held[i] == Json::Text(
                    report.warnings@[i]@,
                ))
            &&& fields.contains(("artifacts"@, artifacts_json(report.artifacts)))
        },
{
    let fields = value@->Record_0;
    assert(fields[0].0 == "name"@ && fields[1].0 == "path"@ && fields[2].0 == "duration_ms"@);
    assert(fields[3].0 == "status"@ && fields[6].0 == "artifacts"@);
    let failures = fields[4].1->List_0;
    let warnings = fields[5].1->List_0;
    assert(fields[4] == ("failures"@, Json::List(failures)));
    assert(fields[5] == ("warnings"@, Json::List(warnings)));
    assert(fields.contains(("failures"@, Json::List(failures))));
    assert(fields.contains(("warnings"@, Json::List(warnings))));
}

/// A failure is told with its category and message, and with all else that is known of it.
pub proof fn failures_are_told_with_what_is_known(failure: Failure)
    ensures
        failure_json(failure) matches Json::Record(fields) && {
            &&& fields[0] == ("category"@, Json::Text(category_label(failure.category)))
            &&& fields[1] == ("message"@, Json::Text(failure.message@))
            &&& (failure.step matches Some(step) ==> fields.contains(("step"@, step_json(step))))
            &&& (failure.current_url matches Some(url) ==> fields.contains(
                ("current_url"@, Json::Text(url@)),
            ))
            &&& (failure.timeout_ms matches Some(time) ==> fields.contains(
                ("timeout_ms"@, Json::Integer(time as int)),
            ))
            &&& (failure.last_observed matches Some(seen) ==> fields.contains(
                ("last_observed"@, Json::Text(seen@)),
            ))
        },
{
    let first = seq![
        ("category"@, Json::Text(category_label(failure.category))),
        ("message"@, Json::Text(failure.message@)),
    ];
    let second = match failure.step {
        Some(step) => first.push(("step"@, step_json(step))),
        None => first,
    };
    let third = with_text(second, "current_url"@, optional_safe(failure.current_url));
    let fourth = with_number(
        third,
        "timeout_ms"@,
        match failure.timeout_ms {
            Some(number) => Some(number as int),
            None => None,
        },
    );
    let fields = with_text(fourth, "last_observed"@, optional_safe(failure.last_observed));
    if let Some(step) = failure.step {
        assert(fields[2] == ("step"@, step_json(step)));
    }
    if let Some(url) = failure.current_url {
        assert(fields[second.len() as int] == ("current_url"@, Json::Text(url@)));
    }
    if let Some(time) = failure.timeout_ms {
        assert(fields[third.len() as int] == ("timeout_ms"@, Json::Integer(time as int)));
    }
    if let Some(seen) = failure.last_observed {
        assert(fields[fourth.len() as int] == ("last_observed"@, Json::Text(seen@)));
    }
}

/// The files of a run are told each under its own name.
pub proof fn artifacts_are_told_by_name(artifacts: ArtifactPaths)
    ensures
        artifacts_json(artifacts) matches Json::Record(fields) && {
            &&& fields[0] == ("directory"@, Json::Text(artifacts.directory@))
            &&& fields[1] == ("screenshots"@, list_json(artifacts.screenshots@))
            &&& (artifacts.failure_screenshot matches Some(path) ==> fields.contains(
                ("failure_screenshot"@, Json::Text(path@)),
            ))
            &&& (artifacts.visual_actual matches Some(path) ==> fields.contains(
                ("visual_actual"@, Json::Text(path@)),
            ))
            &&& (artifacts.visual_diff matches Some(path) ==> fields.contains(
                ("visual_diff"@, Json::Text(path@)),
            ))
            &&& (artifacts.recording matches Some(path) ==> fields.contains(
                ("recording"@, Json::Text(path@)),
            ))
            &&& (artifacts.partial_recording matches Some(path) ==> fields.contains(
                ("partial_recording"@, Json::Text(path@)),
            ))
        },
{
    let first = seq![
        ("directory"@, Json::Text(artifacts.directory@)),
        ("screenshots"@, list_json(artifacts.screenshots@)),
    ];
    let second = with_text(
        first,
        "failure_screenshot"@,
        optional_text(artifacts.failure_screenshot),
    );
    let third = with_text(second, "visual_actual"@, optional_text(artifacts.visual_actual));
    let fourth = with_text(third, "visual_diff"@, optional_text(artifacts.visual_diff));
    let fifth = with_text(fourth, "recording"@, optional_text(artifacts.recording));
    let fields = with_text(
        fifth,
        "partial_recording"@,
        optional_text(artifacts.partial_recording),
    );
    if let Some(path) = artifacts.failure_screenshot {
        assert(fields[2] == ("failure_screenshot"@, Json::Text(path@)));
    }
    if let Some(path) = artifacts.visual_actual {
        assert(fields[second.len() as int] == ("visual_actual"@, Json::Text(path@)));
    }
    if let Some(path) = artifacts.visual_diff {
        assert(fields[third.len() as int] == ("visual_diff"@, Json::Text(path@)));
    }
    if let Some(path) = artifacts.recording {
        assert(fields[fourth.len() as int] == ("recording"@, Json::Text(path@)));
    }
    if let Some(path) = artifacts.partial_recording {
        assert(fields[fifth.len() as int] == ("partial_recording"@, Json::Text(path@)));
    }
}

/// What else a session answers with is told under its own name.
pub proof fn answers_are_told_by_name(body: Body, value: JsonValue)
    requires
        call_ensures(Body::to_json, (&body,), value),
    ensures
        match body {
            Body::Value(held) => value@ == held@,
            Body::MaxBytes => value@ == Json::Record(seq![("max_bytes"@, Json::Integer(1_048_576))]),
            Body::Cancelling => value@ == Json::Record(seq![("cancelling"@, Json::Bool(true))]),
            Body::LatestSnapshot(latest) => value@ == Json::Record(
                seq![("latest_snapshot_revision"@, Json::Integer(latest as int))],
            ),
            Body::Scroll(scroll) => value@ == Json::Record(seq![("scroll"@, scroll@)]),
            Body::Output { name, value: held } => value@ == Json::Record(
                seq![("name"@, Json::Text(name@)), ("value"@, held@)],
            ),
            Body::Blocked { latest, dialog } => value@ == Json::Record(
                seq![
                    ("snapshot_revision"@, Json::Integer(latest as int)),
                    ("pending_dialog"@, Json::Record(gathered(dialog_fields(dialog)))),
                    ("capture_status"@, Json::Text("blocked_by_dialog"@)),
                ],
            ),
            Body::Handled(dialog) => value@ == Json::Record(
                seq![
                    ("dialog"@, Json::Record(gathered(dialog_fields(dialog)))),
                    ("handled"@, Json::Bool(true)),
                ],
            ),
            Body::StepFailure(error) => value@ matches Json::Record(fields) && fields[0] == (
                "category"@,
                Json::Text(error.category.label()),
            ) && fields[1] == (
                "last_observed"@,
                match error.last_observed {
                    Some(text) => Json::Text(text@),
                    None => Json::Null,
                },
            ),
            Body::Closed(close) => value@ == Json::Record(
                seq![
                    ("closed"@, Json::Bool(true)),
                    ("recording"@, Json::Record(gathered(recording_fields(close.recording)))),
                    ("warnings"@, list_json(close.warnings@)),
                ],
            ),
            Body::ClosedWithBundle { bundle, close } => value@ matches Json::Record(fields)
                && fields.contains(("closed"@, Json::Bool(true))) && fields.contains(
                ("recording"@, Json::Record(gathered(recording_fields(close.recording)))),
            ) && fields.contains(("warnings"@, list_json(close.warnings@))) && (bundle is Some
                ==> fields.contains(("bundle"@, Json::Text(bundle->0@)))) && (bundle is None
                ==> fields.contains(("bundle"@, Json::Null))),
            _ => true,
        },
{
    if let Body::ClosedWithBundle { bundle, close } = body {
        let fields = value@->Record_0;
        assert(fields[0].0 == "closed"@ && fields[1].0 == "bundle"@);
        assert(fields[2].0 == "recording"@ && fields[3].0 == "warnings"@);
    }
}

/// What goes on record is told as it happened.
pub proof fn records_tell_what_happened(note: Note, settings: JsonValue, event: JournalEvent)
    requires
        call_ensures(journal_entry, (note, settings), event),
    ensures
        match note {
            Note::Settings => event matches JournalEvent::Settings { settings: told } && told@
                == settings@,
            Note::Warning(warning) => event matches JournalEvent::RecorderWarning { warning: told }
                && told@ == warning@,
            Note::Submission { passed } => event matches JournalEvent::Submission { outcome }
                && (outcome is Success <==> passed),
            Note::Snapshot { revision, url, elements } => event matches JournalEvent::Snapshot {
                snapshot_revision,
                summary,
            } && snapshot_revision == revision && summary@ == Json::Record(
                seq![
                    ("url"@, Json::Text(url@)),
                    ("elements"@, Json::Integer(elements as int)),
                ],
            ),
            Note::Navigation(url) => event matches JournalEvent::ObservedNavigation { url: told }
                && told@ == url@,
            Note::Dialog { action, text } => event matches JournalEvent::DialogHandled {
                action: told,
                text: value,
            } && (action is Accept ==> told@ == "accept"@) && (action is Dismiss ==> told@
                == "dismiss"@) && (value is Some <==> text is Some) && (text is Some ==> value->0@
                == Json::Text(text->0@)),
        },
{
}

/// A step goes on record as it was, with its locator, and with its error if it failed.
pub proof fn steps_go_on_record_as_they_were(
    step: JsonValue,
    locator: Option<JsonValue>,
    result: Result<InteractiveStepResult, InteractiveStepError>,
    event: JournalEvent,
)
    requires
        call_ensures(step_entry, (&step, &locator, &result), event),
    ensures
        event matches JournalEvent::ReplayStep { step: told, outcome, durable_locator } && {
            &&& told@ == step@
            &&& (outcome is Success <==> result is Ok)
            &&& (outcome matches ActionOutcome::Failed { error } ==> error@
                == result->Err_0.message@)
            &&& (durable_locator is Some <==> locator is Some)
            &&& (locator is Some ==> durable_locator->0@ == locator->0@)
        },
{
}

/// A number in hexadecimal digits.
pub open spec fn hexadecimal_value(text: Seq<char>) -> nat
    decreases text.len(),
{
    if text.len() == 0 {
        0
    } else {
        let last = text.last() as nat;
        let digit = if '0' as nat <= last <= '9' as nat {
            (last - '0' as nat) as nat
        } else {
            (last - 'a' as nat + 10) as nat
        };
        hexadecimal_value(text.drop_last()) * 16 + digit
    }
}

/// A number that is written in hexadecimal digits reads back.
pub proof fn hexadecimal_reads_back(value: nat)
    ensures
        hexadecimal(value).len() > 0,
        hexadecimal_value(hexadecimal(value)) == value,
    decreases value,
{
    if value < 16 {
        let text = seq![hex_digit(value)];
        assert(text.drop_last() =~= Seq::<char>::empty());
        assert(hexadecimal_value(text.drop_last()) == 0);
    } else {
        hexadecimal_reads_back(value / 16);
        let before = hexadecimal(value / 16);
        assert(before.push(hex_digit(value % 16)).drop_last() =~= before);
    }
}

/// Files of a session are named by what they are and a number of six digits or more, which reads back.
pub proof fn files_are_named_by_number(
    number: u64,
    submission: String,
    source: String,
    inspection: String,
    snapshot: String,
    digits: String,
)
    requires
        call_ensures(submission_name, (number,), submission),
        call_ensures(submission_source, (number,), source),
        call_ensures(inspection_name, (number,), inspection),
        call_ensures(snapshot_name, (number,), snapshot),
        call_ensures(padded_text, (number, 6), digits),
    ensures
        submission@ == "submission-"@ + digits@,
        source@ == "submission-"@ + digits@ + ".yaml"@,
        inspection@ == "inspection-"@ + digits@,
        snapshot@ == "snapshot-"@ + digits@ + ".png"@,
        digits@.len() >= 6,
        number_of(digits@) == number,
{
    padded_numerals_stand_for_their_number(number, 6, digits);
    reveal_strlit("");
    assert("submission-"@ + digits@ + ""@ =~= "submission-"@ + digits@);
    assert("inspection-"@ + digits@ + ""@ =~= "inspection-"@ + digits@);
}

/// A session's settings are told in milliseconds and by name.
pub proof fn settings_are_told(
    viewport: Viewport,
    timeout: u128,
    video: VideoMode,
    policy: DialogPolicy,
    value: JsonValue,
)
    requires
        call_ensures(settings_value, (viewport, timeout, video, policy), value),
    ensures
        value@ matches Json::Record(fields) && {
            &&& fields.contains(
                (
                    "viewport"@,
                    Json::Record(
                        seq![
                            ("width"@, Json::Integer(viewport.width as int)),
                            ("height"@, Json::Integer(viewport.height as int)),
                        ],
                    ),
                ),
            )
            &&& fields.contains(("timeout_ms"@, Json::Integer((timeout / 1_000_000) as int)))
            &&& (video is Off ==> fields.contains(("video"@, Json::Text("off"@))))
            &&& (video is On ==> fields.contains(("video"@, Json::Text("on"@))))
            &&& (policy is Accept ==> fields.contains(("dialog_policy"@, Json::Text("accept"@))))
            &&& (policy is Dismiss ==> fields.contains(("dialog_policy"@, Json::Text("dismiss"@))))
            &&& (policy is Explicit ==> fields.contains(
                ("dialog_policy"@, Json::Text("explicit"@)),
            ))
        },
{
    let fields = value@->Record_0;
    assert(fields[0].0 == "viewport"@ && fields[1].0 == "timeout_ms"@ && fields[2].0 == "video"@);
    assert(fields[3].0 == "dialog_policy"@);
}

/// A scroll goes on record with its distance in both directions.
pub proof fn scrolls_go_on_record(x: i64, y: i64, step: JsonValue)
    requires
        call_ensures(scroll_step, (x, y), step),
    ensures
        step@ == Json::Record(
            seq![
                (
                    "scroll"@,
                    Json::Record(
                        seq![("x"@, Json::Integer(x as int)), ("y"@, Json::Integer(y as int))],
                    ),
                ),
            ],
        ),
{
}

/// A session goes by its process and its time in hexadecimal digits, and its files by that name.
pub proof fn sessions_go_by_process_and_time(
    process: u32,
    nanos: u128,
    id: String,
    name: &str,
    directory: String,
    journal: String,
)
    requires
        call_ensures(session_id, (process, nanos), id),
        call_ensures(session_directory, (name,), directory),
        call_ensures(fallback_journal, (name,), journal),
    ensures
        exists|first: Seq<char>, second: Seq<char>|
            {
                &&& id@ == #[trigger] (first + "-"@ + second)
                &&& hexadecimal_value(first) == process
                &&& hexadecimal_value(second) == nanos
            },
        directory@ == "session-"@ + name@,
        journal@ == "playrust-session-"@ + name@ + ".ndjson"@,
{
    hexadecimal_reads_back(process as nat);
    hexadecimal_reads_back(nanos as nat);
    assert(id@ == hexadecimal(process as nat) + "-"@ + hexadecimal(nanos as nat));
}

} // verus!
