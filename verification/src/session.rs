//! The command loop of an interactive session, as a machine from state and event to state and
//! action. Whoever drives it performs each action and hands back what happened.

use crate::dialog::{DialogPolicy, PendingDialog};
use crate::interactive::{
    InteractiveStepError, InteractiveStepResult, SessionInspection, SessionSettings,
};
use crate::json::JsonValue;
use crate::recorder::SessionRecordingFinish;
use crate::report::{any_fatal, ExitCode, FlowReport, FlowStatus};
use crate::text::copy_optional;
use crate::video::VideoMode;
use vstd::prelude::*;
use vstd::string::*;

verus! {

/// The largest number of bytes of a command before its newline.
pub const MAX_ENVELOPE_BYTES: usize = 1_048_576;

/// What a session is started with.
#[derive(Debug)]
pub struct SessionOptions {
    pub browser: String,
    pub headed: bool,
    pub artifacts: String,
    pub ffmpeg_path: Option<String>,
    pub settings: SessionSettings,
    pub video: VideoMode,
    pub dialog_policy: DialogPolicy,
}

/// Which screenshot a snapshot comes with.
#[derive(Debug, Clone, Copy, PartialEq, Eq, Structural)]
pub enum SnapshotScreenshot {
    Omitted,
    Viewport,
    FullPage,
}

/// How a client answers a dialog.
#[derive(Debug, Clone, Copy, PartialEq, Eq, Structural)]
pub enum DialogChoice {
    Accept,
    Dismiss,
}

/// A command of the client.
#[derive(Debug)]
#[allow(inconsistent_fields)]
pub enum SessionCommand {
    Submit { flow: String, variables: Vec<(String, String)> },
    Inspect { accessibility: bool, screenshot: bool },
    Snapshot { screenshot: SnapshotScreenshot, accessibility: bool, since: Option<u64> },
    Act { action: JsonValue },
    Scroll { x: i64, y: i64 },
    Dialog { action: DialogChoice, text: Option<String> },
    Export { name: String },
    Output { name: String },
    Cancel,
    Close,
}

/// A command with the client's identifier for it.
#[derive(Debug)]
pub struct Request {
    pub id: JsonValue,
    pub command: SessionCommand,
}

/// What was read from the client. A request comes with the dialog that is pending and with the
/// latest snapshot's revision at that moment.
#[derive(Debug)]
pub enum Input {
    Request { request: Request, pending: Option<PendingDialog>, latest: u64 },
    Malformed { id: JsonValue, message: String },
    TooLarge,
    Closed,
    Failed,
}

/// The kind of an error, as clients see it.
#[derive(Debug, Clone, Copy, PartialEq, Eq, Structural)]
pub enum ErrorCode {
    EnvelopeTooLarge,
    InvalidCommand,
    DialogPending,
    Validation,
    SettingsConflict,
    Busy,
    Cancelled,
    SubmissionFailed,
    Browser,
    Artifacts,
    NotStarted,
    SnapshotUnavailable,
    StaleReference,
    UnknownReference,
    ActionFailed,
    OutputNotFound,
    NotActive,
    ExportInvalid,
}

/// The message of an error.
#[derive(Debug)]
pub enum Message {
    Text(String),
    ArtifactSetup(String),
    OutputUnavailable(String),
    EnvelopeTooLarge,
    PendingBeforeSubmitting,
    PendingBeforeActing,
    PendingBeforeScrolling,
    SettingsConflict,
    Busy,
    SubmissionFailed,
    NotStarted,
    ReferenceLost,
    EmptyScroll,
    DialogText,
    NotActive,
}

/// How the browser session closed.
#[derive(Debug)]
pub struct CloseResult {
    pub recording: SessionRecordingFinish,
    pub warnings: Vec<String>,
}

/// A captured snapshot, as far as the response speaks of it.
#[derive(Debug)]
pub struct Capture {
    pub generation: u64,
    pub viewport: JsonValue,
    pub scroll: JsonValue,
    pub elements: JsonValue,
    pub count: u64,
    pub truncated: bool,
    pub diff: Option<JsonValue>,
}

/// Everything that a snapshot's response is made of.
#[derive(Debug)]
pub struct SnapshotParts {
    pub inspection: SessionInspection,
    pub capture: Capture,
    pub screenshot: Option<String>,
    pub accessibility: bool,
}

/// An interactive action, ready to be compiled.
#[derive(Debug)]
pub struct PreparedAction {
    pub step: JsonValue,
    pub locator: Option<JsonValue>,
    pub name: String,
    pub backend_node_id: Option<i64>,
}

/// The payload of a response, or the details of an error.
#[derive(Debug)]
pub enum Body {
    Value(JsonValue),
    MaxBytes,
    Cancelling,
    Dialog(PendingDialog),
    Report(FlowReport),
    LatestSnapshot(u64),
    Closed(CloseResult),
    ClosedWithBundle { bundle: Option<String>, close: CloseResult },
    Inspection(SessionInspection),
    Blocked { latest: u64, dialog: PendingDialog },
    Snapshot(SnapshotParts),
    Acted {
        action: PreparedAction,
        result: InteractiveStepResult,
        pending: Option<PendingDialog>,
        elapsed_ms: u64,
    },
    StepFailure(InteractiveStepError),
    Scroll(JsonValue),
    Handled(PendingDialog),
    Output { name: String, value: JsonValue },
}

/// Whether a command succeeded, and with what.
#[derive(Debug)]
pub enum Outcome {
    Success(Body),
    Error { code: ErrorCode, message: Message, details: Option<Body> },
}

/// An error of a command.
#[derive(Debug)]
pub struct CommandError {
    pub code: ErrorCode,
    pub message: Message,
    pub details: Option<Body>,
}

/// The response to one command.
#[derive(Debug)]
pub struct Response {
    pub id: JsonValue,
    pub revision: u64,
    pub outcome: Outcome,
}

/// An entry for the session's journal.
#[derive(Debug)]
pub enum Note {
    Settings,
    Warning(String),
    Submission { passed: bool },
    Snapshot { revision: u64, url: String, elements: u64 },
    Navigation(String),
    Dialog { action: DialogChoice, text: Option<String> },
}

/// What happened.
#[derive(Debug)]
pub enum Event {
    Launched(bool),
    ArtifactsReady(Result<(), String>),
    Logged(Result<(), String>),
    Opened(Result<Vec<String>, String>),
    Input(Input),
    Written(bool),
    Compiled(Result<bool, String>),
    Finished(Result<FlowReport, String>),
    Reported(Result<(), String>),
    Closed(Result<CloseResult, String>),
    Published(Result<(Option<String>, CloseResult), String>),
    Inspected(Result<SessionInspection, String>),
    BaselineChecked(Result<(), String>),
    Captured(Result<Capture, String>),
    Screenshot(Result<String, String>),
    Prepared(Result<PreparedAction, CommandError>),
    ActionCompiled(Result<(), String>),
    Matched { result: Result<bool, String>, latest: u64 },
    UrlRead(Option<String>),
    Acted(Result<InteractiveStepResult, InteractiveStepError>),
    Observed { pending: Option<PendingDialog>, elapsed_ms: u64 },
    ScrollRead(Result<JsonValue, String>),
    Answered(Result<PendingDialog, String>),
    Exported(Result<JsonValue, CommandError>),
    Found(Option<JsonValue>),
    ShutDown(bool),
}

/// What to do next.
#[derive(Debug)]
#[allow(inconsistent_fields)]
pub enum Action {
    Ignore,
    Launch { width: u32, height: u32 },
    PrepareArtifacts,
    PrepareFallback,
    Log(Note),
    LogStep,
    OpenSession,
    ReadCommand,
    Reply(Response),
    ReplyWhileRunning { response: Response, cancel: bool },
    Compile { flow: String, variables: Vec<(String, String)>, number: u64 },
    Submit { number: u64 },
    AwaitSubmission { listen: bool, cancel: bool },
    WriteReport,
    CloseBrowser,
    PublishClose(CloseResult),
    Inspect { accessibility: bool, screenshot: Option<u64> },
    CheckBaseline(u64),
    Capture { since: Option<u64> },
    TakeScreenshot { number: u64, full_page: bool },
    PrepareAction(JsonValue),
    CompileAction,
    MatchReference(i64),
    ReadUrl,
    Act,
    Observe,
    Scroll { x: i64, y: i64 },
    ReadScroll,
    AnswerDialog { action: DialogChoice, text: Option<String> },
    Export(String),
    LookUp(String),
    ShutDown,
    Finish(ExitCode),
}

/// What follows once a response is written.
#[derive(Debug)]
pub enum After {
    Read,
    Stop,
    Concluded { close: Option<JsonValue>, fatal: bool, interrupted: bool },
    CloseRequested(JsonValue),
    CloseAnswered,
}

/// A submission that is running.
#[derive(Debug)]
pub struct Submission {
    pub id: JsonValue,
    pub close: Option<JsonValue>,
    pub input_closed: bool,
    pub cancelled: bool,
}

/// What a snapshot command asked for.
#[derive(Debug, Clone, Copy, PartialEq, Eq, Structural)]
pub struct SnapshotRequest {
    pub screenshot: SnapshotScreenshot,
    pub accessibility: bool,
    pub since: Option<u64>,
}

/// Where the session stands.
#[derive(Debug)]
#[allow(inconsistent_fields)]
pub enum Stage {
    Launching,
    PreparingArtifacts,
    PreparingFallback,
    LoggingSettings,
    Opening,
    LoggingWarnings { warnings: Vec<String>, at: usize },
    ClosingEarly,
    Reading,
    Replying(After),
    Compiling { id: JsonValue },
    Submitting(Submission),
    ReplyingWhileRunning(Submission),
    LoggingSubmission { id: JsonValue, close: Option<JsonValue>, fatal: bool, report: FlowReport },
    ReportingSubmission {
        id: JsonValue,
        close: Option<JsonValue>,
        fatal: bool,
        report: FlowReport,
    },
    ClosingAfterReportFailure { id: JsonValue },
    ClosingAfterSubmission { id: JsonValue },
    PublishingAfterSubmission { id: JsonValue },
    Inspecting { id: JsonValue },
    CheckingBaseline { id: JsonValue, wanted: SnapshotRequest, latest: u64 },
    InspectingForSnapshot { id: JsonValue, wanted: SnapshotRequest },
    Capturing { id: JsonValue, wanted: SnapshotRequest, inspection: SessionInspection },
    TakingScreenshot { id: JsonValue, parts: SnapshotParts },
    LoggingSnapshot { id: JsonValue, parts: SnapshotParts },
    Preparing { id: JsonValue },
    CompilingAction { id: JsonValue, action: PreparedAction },
    Matching { id: JsonValue, action: PreparedAction },
    ReadingUrl { id: JsonValue, action: PreparedAction },
    Acting { id: JsonValue, action: PreparedAction, url_before: Option<String> },
    LoggingAction {
        id: JsonValue,
        action: PreparedAction,
        url_before: Option<String>,
        result: Result<InteractiveStepResult, InteractiveStepError>,
    },
    LoggingNavigation { id: JsonValue, action: PreparedAction, result: InteractiveStepResult },
    Observing { id: JsonValue, action: PreparedAction, result: InteractiveStepResult },
    Scrolling { id: JsonValue, x: i64, y: i64 },
    LoggingScroll {
        id: JsonValue,
        x: i64,
        y: i64,
        result: Result<InteractiveStepResult, InteractiveStepError>,
    },
    ReadingScroll { id: JsonValue },
    AnsweringDialog { id: JsonValue, action: DialogChoice, text: Option<String> },
    LoggingDialog { id: JsonValue, dialog: PendingDialog },
    ReportingForExport { id: JsonValue, name: String },
    Exporting { id: JsonValue },
    LookingUp { id: JsonValue, name: String },
    ClosingOnRequest { id: JsonValue },
    PublishingOnRequest { id: JsonValue },
    ClosingAtEnd,
    PublishingAtEnd,
    ShuttingDown,
    Ended,
}

/// What the session keeps at every stage.
#[derive(Debug)]
pub struct Core {
    pub id: String,
    pub revision: u64,
    pub submissions: u64,
    pub inspections: u64,
    pub snapshots: u64,
    pub exit: ExitCode,
    pub open: bool,
    pub artifact_error: Option<String>,
}

/// An interactive session.
#[derive(Debug)]
pub struct Session {
    pub core: Core,
    pub stage: Stage,
}

/// Whether no counter has run out.
pub open spec fn has_room(core: Core) -> bool {
    &&& core.revision < u64::MAX
    &&& core.submissions < u64::MAX
    &&& core.inspections < u64::MAX
    &&& core.snapshots < u64::MAX
}

/// Whether a step left the page at another address than before. An unknown address is none.
pub open spec fn url_changed(before: Option<String>, after: String) -> bool {
    after@.len() > 0 && (before is None || before->0@ != after@)
}

fn has_moved(before: &Option<String>, after: &String) -> (moved: bool)
    ensures
        moved == url_changed(*before, *after),
{
    if after.as_str().is_empty() {
        return false;
    }
    match before {
        Some(before) => !(*before == *after),
        None => true,
    }
}

/// The session once its infrastructure has failed.
pub open spec fn with_failure(core: Core) -> Core {
    Core { exit: ExitCode::Infrastructure, ..core }
}

fn broken(core: Core) -> (next: Core)
    ensures
        next == with_failure(core),
{
    Core { exit: ExitCode::Infrastructure, ..core }
}

/// The session once its browser session is gone.
pub open spec fn without_browser(core: Core) -> Core {
    Core { open: false, ..core }
}

fn unopened(core: Core) -> (next: Core)
    ensures
        next == without_browser(core),
{
    Core { open: false, ..core }
}

/// A stage without anything to say.
pub open spec fn standing(core: Core, stage: Stage, action: Action) -> (Session, Action) {
    (Session { core, stage }, action)
}

fn stay(core: Core, stage: Stage, action: Action) -> (next: (Session, Action))
    ensures
        next == standing(core, stage, action),
{
    (Session { core, stage }, action)
}

/// A response, with the revision after the latest.
pub open spec fn replied(
    core: Core,
    id: JsonValue,
    outcome: Outcome,
    after: After,
) -> (Session, Action) {
    let revision = (core.revision + 1) as u64;
    (
        Session { core: Core { revision, ..core }, stage: Stage::Replying(after) },
        Action::Reply(Response { id, revision, outcome }),
    )
}

fn reply(core: Core, id: JsonValue, outcome: Outcome, after: After) -> (next: (Session, Action))
    requires
        has_room(core),
    ensures
        next == replied(core, id, outcome, after),
{
    let revision: u64 = core.revision + 1;
    (
        Session { core: Core { revision, ..core }, stage: Stage::Replying(after) },
        Action::Reply(Response { id, revision, outcome }),
    )
}

/// An error response without details, after which the next command is read.
pub open spec fn refused(
    core: Core,
    id: JsonValue,
    code: ErrorCode,
    message: Message,
) -> (Session, Action) {
    replied(core, id, Outcome::Error { code, message, details: None }, After::Read)
}

fn refuse(core: Core, id: JsonValue, code: ErrorCode, message: Message) -> (next: (Session, Action))
    requires
        has_room(core),
    ensures
        next == refused(core, id, code, message),
{
    reply(core, id, Outcome::Error { code, message, details: None }, After::Read)
}

/// An error response of a session whose infrastructure failed.
pub open spec fn failed(
    core: Core,
    id: JsonValue,
    code: ErrorCode,
    message: Message,
    details: Option<Body>,
    after: After,
) -> (Session, Action) {
    replied(with_failure(core), id, Outcome::Error { code, message, details }, after)
}

fn fail(
    core: Core,
    id: JsonValue,
    code: ErrorCode,
    message: Message,
    details: Option<Body>,
    after: After,
) -> (next: (Session, Action))
    requires
        has_room(core),
    ensures
        next == failed(core, id, code, message, details, after),
{
    reply(broken(core), id, Outcome::Error { code, message, details }, after)
}

/// The next command is read.
pub open spec fn reading(core: Core) -> (Session, Action) {
    standing(core, Stage::Reading, Action::ReadCommand)
}

fn read_on(core: Core) -> (next: (Session, Action))
    ensures
        next == reading(core),
{
    stay(core, Stage::Reading, Action::ReadCommand)
}

/// The session comes to its end: the browser session closes, then the browser.
pub open spec fn winding_down(core: Core) -> (Session, Action) {
    if core.open {
        standing(without_browser(core), Stage::ClosingAtEnd, Action::CloseBrowser)
    } else {
        standing(core, Stage::ShuttingDown, Action::ShutDown)
    }
}

fn wind_down(core: Core) -> (next: (Session, Action))
    ensures
        next == winding_down(core),
{
    if core.open {
        stay(unopened(core), Stage::ClosingAtEnd, Action::CloseBrowser)
    } else {
        stay(core, Stage::ShuttingDown, Action::ShutDown)
    }
}

/// A response while a submission runs.
pub open spec fn replied_while_running(
    core: Core,
    run: Submission,
    id: JsonValue,
    outcome: Outcome,
    cancel: bool,
) -> (Session, Action) {
    let revision = (core.revision + 1) as u64;
    (
        Session { core: Core { revision, ..core }, stage: Stage::ReplyingWhileRunning(run) },
        Action::ReplyWhileRunning { response: Response { id, revision, outcome }, cancel },
    )
}

fn reply_while_running(
    core: Core,
    run: Submission,
    id: JsonValue,
    outcome: Outcome,
    cancel: bool,
) -> (next: (Session, Action))
    requires
        has_room(core),
    ensures
        next == replied_while_running(core, run, id, outcome, cancel),
{
    let revision: u64 = core.revision + 1;
    (
        Session { core: Core { revision, ..core }, stage: Stage::ReplyingWhileRunning(run) },
        Action::ReplyWhileRunning { response: Response { id, revision, outcome }, cancel },
    )
}

/// The submission runs on; commands are read while nobody closed the session.
pub open spec fn awaiting_submission(
    core: Core,
    run: Submission,
    cancel: bool,
) -> (Session, Action) {
    let listen = run.close is None && !run.input_closed;
    standing(core, Stage::Submitting(run), Action::AwaitSubmission { listen, cancel })
}

fn await_submission(core: Core, run: Submission, cancel: bool) -> (next: (Session, Action))
    ensures
        next == awaiting_submission(core, run, cancel),
{
    let listen = run.close.is_none() && !run.input_closed;
    stay(core, Stage::Submitting(run), Action::AwaitSubmission { listen, cancel })
}

/// What a command starts.
pub open spec fn begun(
    core: Core,
    request: Request,
    pending: Option<PendingDialog>,
    latest: u64,
) -> (Session, Action) {
    let id = request.id;
    match request.command {
        SessionCommand::Submit { flow, variables } => match pending {
            Some(dialog) => replied(
                core,
                id,
                Outcome::Error {
                    code: ErrorCode::DialogPending,
                    message: Message::PendingBeforeSubmitting,
                    details: Some(Body::Dialog(dialog)),
                },
                After::Read,
            ),
            None => {
                let number = (core.submissions + 1) as u64;
                standing(core, Stage::Compiling { id }, Action::Compile { flow, variables, number })
            },
        },
        SessionCommand::Inspect { accessibility, screenshot } => {
            if !core.open {
                refused(core, id, ErrorCode::NotStarted, Message::NotStarted)
            } else {
                let number = (core.inspections + 1) as u64;
                standing(
                    Core { inspections: number, ..core },
                    Stage::Inspecting { id },
                    Action::Inspect {
                        accessibility,
                        screenshot: if screenshot {
                            Some(number)
                        } else {
                            None
                        },
                    },
                )
            }
        },
        SessionCommand::Snapshot { screenshot, accessibility, since } => match pending {
            Some(dialog) => replied(
                core,
                id,
                Outcome::Success(Body::Blocked { latest, dialog }),
                After::Read,
            ),
            None => {
                let wanted = SnapshotRequest { screenshot, accessibility, since };
                match since {
                    Some(from) => standing(
                        core,
                        Stage::CheckingBaseline { id, wanted, latest },
                        Action::CheckBaseline(from),
                    ),
                    None => standing(
                        core,
                        Stage::InspectingForSnapshot { id, wanted },
                        Action::Inspect { accessibility: false, screenshot: None },
                    ),
                }
            },
        },
        SessionCommand::Act { action } => match pending {
            Some(dialog) => replied(
                core,
                id,
                Outcome::Error {
                    code: ErrorCode::DialogPending,
                    message: Message::PendingBeforeActing,
                    details: Some(Body::Dialog(dialog)),
                },
                After::Read,
            ),
            None => standing(core, Stage::Preparing { id }, Action::PrepareAction(action)),
        },
        SessionCommand::Scroll { x, y } => {
            if x == 0 && y == 0 {
                refused(core, id, ErrorCode::Validation, Message::EmptyScroll)
            } else {
                match pending {
                    Some(dialog) => replied(
                        core,
                        id,
                        Outcome::Error {
                            code: ErrorCode::DialogPending,
                            message: Message::PendingBeforeScrolling,
                            details: Some(Body::Dialog(dialog)),
                        },
                        After::Read,
                    ),
                    None => standing(core, Stage::Scrolling { id, x, y }, Action::Scroll { x, y }),
                }
            }
        },
        SessionCommand::Dialog { action, text } => {
            if text is Some && action != DialogChoice::Accept {
                refused(core, id, ErrorCode::Validation, Message::DialogText)
            } else {
                let sent = text;
                standing(
                    core,
                    Stage::AnsweringDialog { id, action, text },
                    Action::AnswerDialog { action, text: sent },
                )
            }
        },
        SessionCommand::Export { name } => match core.artifact_error {
            Some(error) => failed(
                Core { artifact_error: Some(error), ..core },
                id,
                ErrorCode::Artifacts,
                Message::ArtifactSetup(error),
                None,
                After::Stop,
            ),
            None => standing(core, Stage::ReportingForExport { id, name }, Action::WriteReport),
        },
        SessionCommand::Output { name } => {
            let wanted = name;
            standing(core, Stage::LookingUp { id, name }, Action::LookUp(wanted))
        },
        SessionCommand::Cancel => refused(core, id, ErrorCode::NotActive, Message::NotActive),
        SessionCommand::Close => standing(
            without_browser(core),
            Stage::ClosingOnRequest { id },
            Action::CloseBrowser,
        ),
    }
}

fn begin(
    core: Core,
    request: Request,
    pending: Option<PendingDialog>,
    latest: u64,
) -> (next: (Session, Action))
    requires
        has_room(core),
    ensures
        next == begun(core, request, pending, latest),
{
    let id = request.id;
    match request.command {
        SessionCommand::Submit { flow, variables } => match pending {
            Some(dialog) => reply(
                core,
                id,
                Outcome::Error {
                    code: ErrorCode::DialogPending,
                    message: Message::PendingBeforeSubmitting,
                    details: Some(Body::Dialog(dialog)),
                },
                After::Read,
            ),
            None => {
                let number: u64 = core.submissions + 1;
                stay(core, Stage::Compiling { id }, Action::Compile { flow, variables, number })
            },
        },
        SessionCommand::Inspect { accessibility, screenshot } => {
            if !core.open {
                refuse(core, id, ErrorCode::NotStarted, Message::NotStarted)
            } else {
                let number: u64 = core.inspections + 1;
                stay(
                    Core { inspections: number, ..core },
                    Stage::Inspecting { id },
                    Action::Inspect {
                        accessibility,
                        screenshot: if screenshot {
                            Some(number)
                        } else {
                            None
                        },
                    },
                )
            }
        },
        SessionCommand::Snapshot { screenshot, accessibility, since } => match pending {
            Some(dialog) => reply(
                core,
                id,
                Outcome::Success(Body::Blocked { latest, dialog }),
                After::Read,
            ),
            None => {
                let wanted = SnapshotRequest { screenshot, accessibility, since };
                match since {
                    Some(from) => stay(
                        core,
                        Stage::CheckingBaseline { id, wanted, latest },
                        Action::CheckBaseline(from),
                    ),
                    None => stay(
                        core,
                        Stage::InspectingForSnapshot { id, wanted },
                        Action::Inspect { accessibility: false, screenshot: None },
                    ),
                }
            },
        },
        SessionCommand::Act { action } => match pending {
            Some(dialog) => reply(
                core,
                id,
                Outcome::Error {
                    code: ErrorCode::DialogPending,
                    message: Message::PendingBeforeActing,
                    details: Some(Body::Dialog(dialog)),
                },
                After::Read,
            ),
            None => stay(core, Stage::Preparing { id }, Action::PrepareAction(action)),
        },
        SessionCommand::Scroll { x, y } => {
            if x == 0 && y == 0 {
                refuse(core, id, ErrorCode::Validation, Message::EmptyScroll)
            } else {
                match pending {
                    Some(dialog) => reply(
                        core,
                        id,
                        Outcome::Error {
                            code: ErrorCode::DialogPending,
                            message: Message::PendingBeforeScrolling,
                            details: Some(Body::Dialog(dialog)),
                        },
                        After::Read,
                    ),
                    None => stay(core, Stage::Scrolling { id, x, y }, Action::Scroll { x, y }),
                }
            }
        },
        SessionCommand::Dialog { action, text } => {
            if text.is_some() && action != DialogChoice::Accept {
                refuse(core, id, ErrorCode::Validation, Message::DialogText)
            } else {
                let sent = copy_optional(&text);
                stay(
                    core,
                    Stage::AnsweringDialog { id, action, text },
                    Action::AnswerDialog { action, text: sent },
                )
            }
        },
        SessionCommand::Export { name } => match core.artifact_error {
            Some(error) => fail(
                Core { artifact_error: Some(error.clone()), ..core },
                id,
                ErrorCode::Artifacts,
                Message::ArtifactSetup(error),
                None,
                After::Stop,
            ),
            None => stay(core, Stage::ReportingForExport { id, name }, Action::WriteReport),
        },
        SessionCommand::Output { name } => {
            let wanted = name.clone();
            stay(core, Stage::LookingUp { id, name }, Action::LookUp(wanted))
        },
        SessionCommand::Cancel => refuse(core, id, ErrorCode::NotActive, Message::NotActive),
        SessionCommand::Close => stay(
            unopened(core),
            Stage::ClosingOnRequest { id },
            Action::CloseBrowser,
        ),
    }
}

/// What input starts while no command is active.
pub open spec fn received(core: Core, input: Input) -> (Session, Action) {
    match input {
        Input::Request { request, pending, latest } => begun(core, request, pending, latest),
        Input::Malformed { id, message } => refused(
            core,
            id,
            ErrorCode::InvalidCommand,
            Message::Text(message),
        ),
        Input::TooLarge => replied(
            core,
            JsonValue::Null,
            Outcome::Error {
                code: ErrorCode::EnvelopeTooLarge,
                message: Message::EnvelopeTooLarge,
                details: Some(Body::MaxBytes),
            },
            After::Read,
        ),
        Input::Closed => winding_down(core),
        Input::Failed => winding_down(with_failure(core)),
    }
}

fn receive(core: Core, input: Input) -> (next: (Session, Action))
    requires
        has_room(core),
    ensures
        next == received(core, input),
{
    match input {
        Input::Request { request, pending, latest } => begin(core, request, pending, latest),
        Input::Malformed { id, message } => refuse(
            core,
            id,
            ErrorCode::InvalidCommand,
            Message::Text(message),
        ),
        Input::TooLarge => reply(
            core,
            JsonValue::Null,
            Outcome::Error {
                code: ErrorCode::EnvelopeTooLarge,
                message: Message::EnvelopeTooLarge,
                details: Some(Body::MaxBytes),
            },
            After::Read,
        ),
        Input::Closed => wind_down(core),
        Input::Failed => wind_down(broken(core)),
    }
}

/// What input does while a submission runs.
pub open spec fn received_while_running(
    core: Core,
    run: Submission,
    input: Input,
) -> (Session, Action) {
    match input {
        Input::Request { request, pending, latest } => match request.command {
            SessionCommand::Cancel => replied_while_running(
                core,
                Submission { cancelled: true, ..run },
                request.id,
                Outcome::Success(Body::Cancelling),
                true,
            ),
            SessionCommand::Close => awaiting_submission(
                core,
                Submission { close: Some(request.id), cancelled: true, ..run },
                true,
            ),
            _ => replied_while_running(
                core,
                run,
                request.id,
                Outcome::Error { code: ErrorCode::Busy, message: Message::Busy, details: None },
                false,
            ),
        },
        Input::Malformed { id, message } => replied_while_running(
            core,
            run,
            id,
            Outcome::Error {
                code: ErrorCode::InvalidCommand,
                message: Message::Text(message),
                details: None,
            },
            false,
        ),
        Input::TooLarge => replied_while_running(
            core,
            run,
            JsonValue::Null,
            Outcome::Error {
                code: ErrorCode::EnvelopeTooLarge,
                message: Message::EnvelopeTooLarge,
                details: Some(Body::MaxBytes),
            },
            false,
        ),
        Input::Closed => awaiting_submission(
            core,
            Submission { input_closed: true, cancelled: true, ..run },
            true,
        ),
        Input::Failed => awaiting_submission(
            with_failure(core),
            Submission { input_closed: true, cancelled: true, ..run },
            true,
        ),
    }
}

fn receive_while_running(core: Core, run: Submission, input: Input) -> (next: (Session, Action))
    requires
        has_room(core),
    ensures
        next == received_while_running(core, run, input),
{
    match input {
        Input::Request { request, pending, latest } => match request.command {
            SessionCommand::Cancel => reply_while_running(
                core,
                Submission { cancelled: true, ..run },
                request.id,
                Outcome::Success(Body::Cancelling),
                true,
            ),
            SessionCommand::Close => await_submission(
                core,
                Submission { close: Some(request.id), cancelled: true, ..run },
                true,
            ),
            _ => reply_while_running(
                core,
                run,
                request.id,
                Outcome::Error { code: ErrorCode::Busy, message: Message::Busy, details: None },
                false,
            ),
        },
        Input::Malformed { id, message } => reply_while_running(
            core,
            run,
            id,
            Outcome::Error {
                code: ErrorCode::InvalidCommand,
                message: Message::Text(message),
                details: None,
            },
            false,
        ),
        Input::TooLarge => reply_while_running(
            core,
            run,
            JsonValue::Null,
            Outcome::Error {
                code: ErrorCode::EnvelopeTooLarge,
                message: Message::EnvelopeTooLarge,
                details: Some(Body::MaxBytes),
            },
            false,
        ),
        Input::Closed => await_submission(
            core,
            Submission { input_closed: true, cancelled: true, ..run },
            true,
        ),
        Input::Failed => await_submission(
            broken(core),
            Submission { input_closed: true, cancelled: true, ..run },
            true,
        ),
    }
}

/// The report could not be written after a submission.
pub open spec fn report_unwritten(
    core: Core,
    id: JsonValue,
    close: Option<JsonValue>,
    report: FlowReport,
    message: Message,
) -> (Session, Action) {
    failed(
        core,
        id,
        ErrorCode::Artifacts,
        message,
        Some(Body::Report(report)),
        match close {
            Some(id) => After::CloseRequested(id),
            None => After::Stop,
        },
    )
}

fn report_failed(
    core: Core,
    id: JsonValue,
    close: Option<JsonValue>,
    report: FlowReport,
    message: Message,
) -> (next: (Session, Action))
    requires
        has_room(core),
    ensures
        next == report_unwritten(core, id, close, report, message),
{
    fail(
        core,
        id,
        ErrorCode::Artifacts,
        message,
        Some(Body::Report(report)),
        match close {
            Some(id) => After::CloseRequested(id),
            None => After::Stop,
        },
    )
}

/// The submission is on record, and its outcome is told.
pub open spec fn concluded(
    core: Core,
    id: JsonValue,
    close: Option<JsonValue>,
    fatal: bool,
    report: FlowReport,
) -> (Session, Action) {
    let status = report.status;
    let interrupted = status == FlowStatus::Interrupted;
    let outcome = if status == FlowStatus::Passed {
        Outcome::Success(Body::Report(report))
    } else {
        Outcome::Error {
            code: if fatal {
                ErrorCode::Browser
            } else if interrupted {
                ErrorCode::Cancelled
            } else {
                ErrorCode::SubmissionFailed
            },
            message: Message::SubmissionFailed,
            details: Some(Body::Report(report)),
        }
    };
    replied(core, id, outcome, After::Concluded { close, fatal, interrupted })
}

fn conclude(
    core: Core,
    id: JsonValue,
    close: Option<JsonValue>,
    fatal: bool,
    report: FlowReport,
) -> (next: (Session, Action))
    requires
        has_room(core),
    ensures
        next == concluded(core, id, close, fatal, report),
{
    let status = report.status;
    let interrupted = status == FlowStatus::Interrupted;
    let outcome = if status == FlowStatus::Passed {
        Outcome::Success(Body::Report(report))
    } else {
        Outcome::Error {
            code: if fatal {
                ErrorCode::Browser
            } else if interrupted {
                ErrorCode::Cancelled
            } else {
                ErrorCode::SubmissionFailed
            },
            message: Message::SubmissionFailed,
            details: Some(Body::Report(report)),
        }
    };
    reply(core, id, outcome, After::Concluded { close, fatal, interrupted })
}

/// What follows a response that was written, or could not be.
pub open spec fn after_written(core: Core, after: After, written: bool) -> (Session, Action) {
    let reached = if written {
        core
    } else {
        with_failure(core)
    };
    match after {
        After::Read => if written {
            reading(reached)
        } else {
            winding_down(reached)
        },
        After::Stop => winding_down(reached),
        After::CloseAnswered => winding_down(reached),
        After::CloseRequested(id) => standing(
            without_browser(reached),
            Stage::ClosingAfterReportFailure { id },
            Action::CloseBrowser,
        ),
        After::Concluded { close, fatal, interrupted } => {
            let marked = if fatal {
                with_failure(reached)
            } else if interrupted && reached.exit != ExitCode::Infrastructure {
                Core { exit: ExitCode::Interrupted, ..reached }
            } else {
                reached
            };
            match close {
                Some(id) => standing(
                    without_browser(marked),
                    Stage::ClosingAfterSubmission { id },
                    Action::CloseBrowser,
                ),
                None => if !written || fatal || interrupted {
                    winding_down(marked)
                } else {
                    reading(marked)
                },
            }
        },
    }
}

fn after_reply(core: Core, after: After, written: bool) -> (next: (Session, Action))
    ensures
        next == after_written(core, after, written),
{
    let reached = if written {
        core
    } else {
        broken(core)
    };
    match after {
        After::Read => if written {
            read_on(reached)
        } else {
            wind_down(reached)
        },
        After::Stop => wind_down(reached),
        After::CloseAnswered => wind_down(reached),
        After::CloseRequested(id) => stay(
            unopened(reached),
            Stage::ClosingAfterReportFailure { id },
            Action::CloseBrowser,
        ),
        After::Concluded { close, fatal, interrupted } => {
            let marked = if fatal {
                broken(reached)
            } else if interrupted && reached.exit != ExitCode::Infrastructure {
                Core { exit: ExitCode::Interrupted, ..reached }
            } else {
                reached
            };
            match close {
                Some(id) => stay(
                    unopened(marked),
                    Stage::ClosingAfterSubmission { id },
                    Action::CloseBrowser,
                ),
                None => if !written || fatal || interrupted {
                    wind_down(marked)
                } else {
                    read_on(marked)
                },
            }
        },
    }
}

/// The snapshot goes on record.
pub open spec fn snapshot_logged(
    core: Core,
    id: JsonValue,
    parts: SnapshotParts,
) -> (Session, Action) {
    let note = Note::Snapshot {
        revision: parts.capture.generation,
        url: parts.inspection.url,
        elements: parts.capture.count,
    };
    standing(core, Stage::LoggingSnapshot { id, parts }, Action::Log(note))
}

fn log_snapshot(core: Core, id: JsonValue, parts: SnapshotParts) -> (next: (Session, Action))
    ensures
        next == snapshot_logged(core, id, parts),
{
    let note = Note::Snapshot {
        revision: parts.capture.generation,
        url: parts.inspection.url.clone(),
        elements: parts.capture.count,
    };
    stay(core, Stage::LoggingSnapshot { id, parts }, Action::Log(note))
}

/// The next warning of the recorder goes on record; after the last, commands are read.
pub open spec fn warning_logged(core: Core, warnings: Vec<String>, at: usize) -> (Session, Action) {
    if at < warnings@.len() {
        let note = Note::Warning(warnings@[at as int]);
        standing(core, Stage::LoggingWarnings { warnings, at }, Action::Log(note))
    } else {
        reading(core)
    }
}

fn log_next_warning(core: Core, warnings: Vec<String>, at: usize) -> (next: (Session, Action))
    ensures
        next == warning_logged(core, warnings, at),
{
    if at < warnings.len() {
        let note = Note::Warning(warnings[at].clone());
        stay(core, Stage::LoggingWarnings { warnings, at }, Action::Log(note))
    } else {
        read_on(core)
    }
}

/// The browser is shut down.
pub open spec fn shutting_down(core: Core) -> (Session, Action) {
    standing(core, Stage::ShuttingDown, Action::ShutDown)
}

fn shut_down(core: Core) -> (next: (Session, Action))
    ensures
        next == shutting_down(core),
{
    stay(core, Stage::ShuttingDown, Action::ShutDown)
}

/// The part of its work that a session is at.
#[derive(Debug, Clone, Copy, PartialEq, Eq, Structural)]
pub enum Phase {
    Setup,
    Talk,
    Submission,
    Snapshot,
    Action,
    Scroll,
    Closing,
}

/// The part of its work that a stage belongs to.
pub open spec fn phase_of(stage: Stage) -> Phase {
    match stage {
        Stage::Launching
        | Stage::PreparingArtifacts
        | Stage::PreparingFallback
        | Stage::LoggingSettings
        | Stage::Opening
        | Stage::LoggingWarnings { .. }
        | Stage::ClosingEarly => Phase::Setup,
        Stage::Reading
        | Stage::Replying(..)
        | Stage::Inspecting { .. }
        | Stage::AnsweringDialog { .. }
        | Stage::LoggingDialog { .. }
        | Stage::ReportingForExport { .. }
        | Stage::Exporting { .. }
        | Stage::LookingUp { .. } => Phase::Talk,
        Stage::Compiling { .. }
        | Stage::Submitting(..)
        | Stage::ReplyingWhileRunning(..)
        | Stage::LoggingSubmission { .. }
        | Stage::ReportingSubmission { .. } => Phase::Submission,
        Stage::CheckingBaseline { .. }
        | Stage::InspectingForSnapshot { .. }
        | Stage::Capturing { .. }
        | Stage::TakingScreenshot { .. }
        | Stage::LoggingSnapshot { .. } => Phase::Snapshot,
        Stage::Preparing { .. }
        | Stage::CompilingAction { .. }
        | Stage::Matching { .. }
        | Stage::ReadingUrl { .. }
        | Stage::Acting { .. }
        | Stage::LoggingAction { .. }
        | Stage::LoggingNavigation { .. }
        | Stage::Observing { .. } => Phase::Action,
        Stage::Scrolling { .. }
        | Stage::LoggingScroll { .. }
        | Stage::ReadingScroll { .. } => Phase::Scroll,
        Stage::ClosingAfterReportFailure { .. }
        | Stage::ClosingAfterSubmission { .. }
        | Stage::PublishingAfterSubmission { .. }
        | Stage::ClosingOnRequest { .. }
        | Stage::PublishingOnRequest { .. }
        | Stage::ClosingAtEnd
        | Stage::PublishingAtEnd
        | Stage::ShuttingDown
        | Stage::Ended => Phase::Closing,
    }
}

fn phase(stage: &Stage) -> (phase: Phase)
    ensures
        phase == phase_of(*stage),
{
    match stage {
        Stage::Launching
        | Stage::PreparingArtifacts
        | Stage::PreparingFallback
        | Stage::LoggingSettings
        | Stage::Opening
        | Stage::LoggingWarnings { .. }
        | Stage::ClosingEarly => Phase::Setup,
        Stage::Reading
        | Stage::Replying(..)
        | Stage::Inspecting { .. }
        | Stage::AnsweringDialog { .. }
        | Stage::LoggingDialog { .. }
        | Stage::ReportingForExport { .. }
        | Stage::Exporting { .. }
        | Stage::LookingUp { .. } => Phase::Talk,
        Stage::Compiling { .. }
        | Stage::Submitting(..)
        | Stage::ReplyingWhileRunning(..)
        | Stage::LoggingSubmission { .. }
        | Stage::ReportingSubmission { .. } => Phase::Submission,
        Stage::CheckingBaseline { .. }
        | Stage::InspectingForSnapshot { .. }
        | Stage::Capturing { .. }
        | Stage::TakingScreenshot { .. }
        | Stage::LoggingSnapshot { .. } => Phase::Snapshot,
        Stage::Preparing { .. }
        | Stage::CompilingAction { .. }
        | Stage::Matching { .. }
        | Stage::ReadingUrl { .. }
        | Stage::Acting { .. }
        | Stage::LoggingAction { .. }
        | Stage::LoggingNavigation { .. }
        | Stage::Observing { .. } => Phase::Action,
        Stage::Scrolling { .. }
        | Stage::LoggingScroll { .. }
        | Stage::ReadingScroll { .. } => Phase::Scroll,
        Stage::ClosingAfterReportFailure { .. }
        | Stage::ClosingAfterSubmission { .. }
        | Stage::PublishingAfterSubmission { .. }
        | Stage::ClosingOnRequest { .. }
        | Stage::PublishingOnRequest { .. }
        | Stage::ClosingAtEnd
        | Stage::PublishingAtEnd
        | Stage::ShuttingDown
        | Stage::Ended => Phase::Closing,
    }
}

/// One step while the session is set up.
pub open spec fn setup_step(core: Core, stage: Stage, event: Event) -> (Session, Action) {
    match (stage, event) {
        (Stage::Launching, Event::Launched(launched)) => if launched {
            standing(core, Stage::PreparingArtifacts, Action::PrepareArtifacts)
        } else {
            standing(with_failure(core), Stage::Ended, Action::Finish(ExitCode::Infrastructure))
        },
        (Stage::PreparingArtifacts, Event::ArtifactsReady(ready)) => match ready {
            Ok(_) => standing(core, Stage::LoggingSettings, Action::Log(Note::Settings)),
            Err(error) => standing(
                Core { artifact_error: Some(error), ..core },
                Stage::PreparingFallback,
                Action::PrepareFallback,
            ),
        },
        (Stage::PreparingFallback, Event::ArtifactsReady(ready)) => match ready {
            Ok(_) => standing(core, Stage::LoggingSettings, Action::Log(Note::Settings)),
            Err(_) => shutting_down(with_failure(core)),
        },
        (Stage::LoggingSettings, Event::Logged(logged)) => match logged {
            Ok(_) => standing(core, Stage::Opening, Action::OpenSession),
            Err(_) => shutting_down(with_failure(core)),
        },
        (Stage::Opening, Event::Opened(opened)) => match opened {
            Ok(warnings) => warning_logged(Core { open: true, ..core }, warnings, 0),
            Err(_) => shutting_down(with_failure(core)),
        },
        (Stage::LoggingWarnings { warnings, at }, Event::Logged(logged)) => match logged {
            Ok(_) => if at < warnings@.len() {
                warning_logged(core, warnings, (at + 1) as usize)
            } else {
                reading(core)
            },
            Err(_) => standing(
                without_browser(with_failure(core)),
                Stage::ClosingEarly,
                Action::CloseBrowser,
            ),
        },
        (Stage::ClosingEarly, Event::Closed(_)) => shutting_down(core),
        (stage, _) => standing(core, stage, Action::Ignore),
    }
}

fn step_setup(core: Core, stage: Stage, event: Event) -> (next: (Session, Action))
    requires
        has_room(core),
    ensures
        next == setup_step(core, stage, event),
{
    match (stage, event) {
        (Stage::Launching, Event::Launched(launched)) => if launched {
            stay(core, Stage::PreparingArtifacts, Action::PrepareArtifacts)
        } else {
            stay(broken(core), Stage::Ended, Action::Finish(ExitCode::Infrastructure))
        },
        (Stage::PreparingArtifacts, Event::ArtifactsReady(ready)) => match ready {
            Ok(_) => stay(core, Stage::LoggingSettings, Action::Log(Note::Settings)),
            Err(error) => stay(
                Core { artifact_error: Some(error), ..core },
                Stage::PreparingFallback,
                Action::PrepareFallback,
            ),
        },
        (Stage::PreparingFallback, Event::ArtifactsReady(ready)) => match ready {
            Ok(_) => stay(core, Stage::LoggingSettings, Action::Log(Note::Settings)),
            Err(_) => shut_down(broken(core)),
        },
        (Stage::LoggingSettings, Event::Logged(logged)) => match logged {
            Ok(_) => stay(core, Stage::Opening, Action::OpenSession),
            Err(_) => shut_down(broken(core)),
        },
        (Stage::Opening, Event::Opened(opened)) => match opened {
            Ok(warnings) => log_next_warning(Core { open: true, ..core }, warnings, 0),
            Err(_) => shut_down(broken(core)),
        },
        (Stage::LoggingWarnings { warnings, at }, Event::Logged(logged)) => match logged {
            Ok(_) => if at < warnings.len() {
                log_next_warning(core, warnings, at + 1)
            } else {
                read_on(core)
            },
            Err(_) => stay(
                unopened(broken(core)),
                Stage::ClosingEarly,
                Action::CloseBrowser,
            ),
        },
        (Stage::ClosingEarly, Event::Closed(_)) => shut_down(core),
        (stage, _) => stay(core, stage, Action::Ignore),
    }
}

/// One step of commands that take one exchange.
pub open spec fn talk_step(core: Core, stage: Stage, event: Event) -> (Session, Action) {
    match (stage, event) {
        (Stage::Reading, Event::Input(input)) => received(core, input),
        (Stage::Replying(after), Event::Written(written)) => after_written(core, after, written),
        (Stage::Inspecting { id }, Event::Inspected(inspected)) => match inspected {
            Ok(inspection) => replied(
                core,
                id,
                Outcome::Success(Body::Inspection(inspection)),
                After::Read,
            ),
            Err(error) => failed(
                core,
                id,
                ErrorCode::Browser,
                Message::Text(error),
                None,
                After::Stop,
            ),
        },
        (Stage::AnsweringDialog { id, action, text }, Event::Answered(answered)) => match answered {
            Ok(dialog) => standing(
                core,
                Stage::LoggingDialog { id, dialog },
                Action::Log(Note::Dialog { action, text }),
            ),
            Err(error) => refused(core, id, ErrorCode::Validation, Message::Text(error)),
        },
        (Stage::LoggingDialog { id, dialog }, Event::Logged(logged)) => match logged {
            Ok(_) => replied(core, id, Outcome::Success(Body::Handled(dialog)), After::Read),
            Err(error) => refused(core, id, ErrorCode::Artifacts, Message::Text(error)),
        },
        (Stage::ReportingForExport { id, name }, Event::Reported(reported)) => match reported {
            Ok(_) => standing(core, Stage::Exporting { id }, Action::Export(name)),
            Err(error) => failed(
                core,
                id,
                ErrorCode::Artifacts,
                Message::Text(error),
                None,
                After::Stop,
            ),
        },
        (Stage::Exporting { id }, Event::Exported(exported)) => match exported {
            Ok(value) => replied(core, id, Outcome::Success(Body::Value(value)), After::Read),
            Err(error) => replied(
                core,
                id,
                Outcome::Error {
                    code: error.code,
                    message: error.message,
                    details: error.details,
                },
                After::Read,
            ),
        },
        (Stage::LookingUp { id, name }, Event::Found(found)) => match found {
            Some(value) => replied(
                core,
                id,
                Outcome::Success(Body::Output { name, value }),
                After::Read,
            ),
            None => refused(
                core,
                id,
                ErrorCode::OutputNotFound,
                Message::OutputUnavailable(name),
            ),
        },
        (stage, _) => standing(core, stage, Action::Ignore),
    }
}

fn step_talk(core: Core, stage: Stage, event: Event) -> (next: (Session, Action))
    requires
        has_room(core),
    ensures
        next == talk_step(core, stage, event),
{
    match (stage, event) {
        (Stage::Reading, Event::Input(input)) => receive(core, input),
        (Stage::Replying(after), Event::Written(written)) => after_reply(core, after, written),
        (Stage::Inspecting { id }, Event::Inspected(inspected)) => match inspected {
            Ok(inspection) => reply(
                core,
                id,
                Outcome::Success(Body::Inspection(inspection)),
                After::Read,
            ),
            Err(error) => fail(
                core,
                id,
                ErrorCode::Browser,
                Message::Text(error),
                None,
                After::Stop,
            ),
        },
        (Stage::AnsweringDialog { id, action, text }, Event::Answered(answered)) => match answered {
            Ok(dialog) => stay(
                core,
                Stage::LoggingDialog { id, dialog },
                Action::Log(Note::Dialog { action, text }),
            ),
            Err(error) => refuse(core, id, ErrorCode::Validation, Message::Text(error)),
        },
        (Stage::LoggingDialog { id, dialog }, Event::Logged(logged)) => match logged {
            Ok(_) => reply(core, id, Outcome::Success(Body::Handled(dialog)), After::Read),
            Err(error) => refuse(core, id, ErrorCode::Artifacts, Message::Text(error)),
        },
        (Stage::ReportingForExport { id, name }, Event::Reported(reported)) => match reported {
            Ok(_) => stay(core, Stage::Exporting { id }, Action::Export(name)),
            Err(error) => fail(
                core,
                id,
                ErrorCode::Artifacts,
                Message::Text(error),
                None,
                After::Stop,
            ),
        },
        (Stage::Exporting { id }, Event::Exported(exported)) => match exported {
            Ok(value) => reply(core, id, Outcome::Success(Body::Value(value)), After::Read),
            Err(error) => reply(
                core,
                id,
                Outcome::Error {
                    code: error.code,
                    message: error.message,
                    details: error.details,
                },
                After::Read,
            ),
        },
        (Stage::LookingUp { id, name }, Event::Found(found)) => match found {
            Some(value) => reply(
                core,
                id,
                Outcome::Success(Body::Output { name, value }),
                After::Read,
            ),
            None => refuse(
                core,
                id,
                ErrorCode::OutputNotFound,
                Message::OutputUnavailable(name),
            ),
        },
        (stage, _) => stay(core, stage, Action::Ignore),
    }
}

/// One step of a submission.
pub open spec fn submission_step(core: Core, stage: Stage, event: Event) -> (Session, Action) {
    match (stage, event) {
        (Stage::Compiling { id }, Event::Compiled(compiled)) => match compiled {
            Err(error) => refused(core, id, ErrorCode::Validation, Message::Text(error)),
            Ok(settings_match) => if settings_match {
                let number = (core.submissions + 1) as u64;
                standing(
                    Core { submissions: number, ..core },
                    Stage::Submitting(
                        Submission { id, close: None, input_closed: false, cancelled: false },
                    ),
                    Action::Submit { number },
                )
            } else {
                refused(core, id, ErrorCode::SettingsConflict, Message::SettingsConflict)
            },
        },
        (Stage::Submitting(run), Event::Input(input)) => if run.close is None && !run.input_closed {
            received_while_running(core, run, input)
        } else {
            standing(core, Stage::Submitting(run), Action::Ignore)
        },
        (Stage::ReplyingWhileRunning(run), Event::Written(written)) => if written {
            awaiting_submission(core, run, false)
        } else {
            awaiting_submission(with_failure(core), Submission { cancelled: true, ..run }, true)
        },
        (Stage::Submitting(run), Event::Finished(finished)) => match finished {
            Err(error) => refused(core, run.id, ErrorCode::SettingsConflict, Message::Text(error)),
            Ok(report) => {
                let fatal = any_fatal(report.failures@);
                let report = if run.cancelled && !fatal {
                    FlowReport { status: FlowStatus::Interrupted, ..report }
                } else {
                    report
                };
                let note = Note::Submission { passed: report.status == FlowStatus::Passed };
                standing(
                    core,
                    Stage::LoggingSubmission { id: run.id, close: run.close, fatal, report },
                    Action::Log(note),
                )
            },
        },
        (Stage::LoggingSubmission { id, close, fatal, report }, Event::Logged(logged)) =>
        match logged {
            Err(error) => failed(
                core,
                id,
                ErrorCode::Artifacts,
                Message::Text(error),
                None,
                After::Stop,
            ),
            Ok(_) => match core.artifact_error {
                Some(error) => report_unwritten(
                    Core { artifact_error: Some(error), ..core },
                    id,
                    close,
                    report,
                    Message::ArtifactSetup(error),
                ),
                None => standing(
                    core,
                    Stage::ReportingSubmission { id, close, fatal, report },
                    Action::WriteReport,
                ),
            },
        },
        (Stage::ReportingSubmission { id, close, fatal, report }, Event::Reported(reported)) =>
        match reported {
            Err(error) => report_unwritten(core, id, close, report, Message::Text(error)),
            Ok(_) => concluded(core, id, close, fatal, report),
        },
        (stage, _) => standing(core, stage, Action::Ignore),
    }
}

fn step_submission(core: Core, stage: Stage, event: Event) -> (next: (Session, Action))
    requires
        has_room(core),
    ensures
        next == submission_step(core, stage, event),
{
    match (stage, event) {
        (Stage::Compiling { id }, Event::Compiled(compiled)) => match compiled {
            Err(error) => refuse(core, id, ErrorCode::Validation, Message::Text(error)),
            Ok(settings_match) => if settings_match {
                let number: u64 = core.submissions + 1;
                stay(
                    Core { submissions: number, ..core },
                    Stage::Submitting(
                        Submission { id, close: None, input_closed: false, cancelled: false },
                    ),
                    Action::Submit { number },
                )
            } else {
                refuse(core, id, ErrorCode::SettingsConflict, Message::SettingsConflict)
            },
        },
        (Stage::Submitting(run), Event::Input(input)) => if run.close.is_none() && !run.input_closed {
            receive_while_running(core, run, input)
        } else {
            stay(core, Stage::Submitting(run), Action::Ignore)
        },
        (Stage::ReplyingWhileRunning(run), Event::Written(written)) => if written {
            await_submission(core, run, false)
        } else {
            await_submission(broken(core), Submission { cancelled: true, ..run }, true)
        },
        (Stage::Submitting(run), Event::Finished(finished)) => match finished {
            Err(error) => refuse(core, run.id, ErrorCode::SettingsConflict, Message::Text(error)),
            Ok(report) => {
                let fatal = report.has_fatal_failure();
                let report = if run.cancelled && !fatal {
                    FlowReport { status: FlowStatus::Interrupted, ..report }
                } else {
                    report
                };
                let note = Note::Submission { passed: report.status == FlowStatus::Passed };
                stay(
                    core,
                    Stage::LoggingSubmission { id: run.id, close: run.close, fatal, report },
                    Action::Log(note),
                )
            },
        },
        (Stage::LoggingSubmission { id, close, fatal, report }, Event::Logged(logged)) =>
        match logged {
            Err(error) => fail(
                core,
                id,
                ErrorCode::Artifacts,
                Message::Text(error),
                None,
                After::Stop,
            ),
            Ok(_) => match core.artifact_error {
                Some(error) => report_failed(
                    Core { artifact_error: Some(error.clone()), ..core },
                    id,
                    close,
                    report,
                    Message::ArtifactSetup(error),
                ),
                None => stay(
                    core,
                    Stage::ReportingSubmission { id, close, fatal, report },
                    Action::WriteReport,
                ),
            },
        },
        (Stage::ReportingSubmission { id, close, fatal, report }, Event::Reported(reported)) =>
        match reported {
            Err(error) => report_failed(core, id, close, report, Message::Text(error)),
            Ok(_) => conclude(core, id, close, fatal, report),
        },
        (stage, _) => stay(core, stage, Action::Ignore),
    }
}

/// One step of a snapshot.
pub open spec fn snapshot_step(core: Core, stage: Stage, event: Event) -> (Session, Action) {
    match (stage, event) {
        (Stage::CheckingBaseline { id, wanted, latest }, Event::BaselineChecked(checked)) =>
        match checked {
            Ok(_) => standing(
                core,
                Stage::InspectingForSnapshot { id, wanted },
                Action::Inspect { accessibility: false, screenshot: None },
            ),
            Err(error) => replied(
                core,
                id,
                Outcome::Error {
                    code: ErrorCode::SnapshotUnavailable,
                    message: Message::Text(error),
                    details: Some(Body::LatestSnapshot(latest)),
                },
                After::Read,
            ),
        },
        (Stage::InspectingForSnapshot { id, wanted }, Event::Inspected(inspected)) =>
        match inspected {
            Ok(inspection) => standing(
                core,
                Stage::Capturing { id, wanted, inspection },
                Action::Capture { since: wanted.since },
            ),
            Err(error) => failed(
                core,
                id,
                ErrorCode::Browser,
                Message::Text(error),
                None,
                After::Stop,
            ),
        },
        (Stage::Capturing { id, wanted, inspection }, Event::Captured(captured)) =>
        match captured {
            Err(error) => failed(
                core,
                id,
                ErrorCode::Browser,
                Message::Text(error),
                None,
                After::Stop,
            ),
            Ok(capture) => {
                let number = (core.snapshots + 1) as u64;
                let counted = Core { snapshots: number, ..core };
                let parts = SnapshotParts {
                    inspection,
                    capture,
                    screenshot: None,
                    accessibility: wanted.accessibility,
                };
                match wanted.screenshot {
                    SnapshotScreenshot::Omitted => snapshot_logged(counted, id, parts),
                    SnapshotScreenshot::Viewport => standing(
                        counted,
                        Stage::TakingScreenshot { id, parts },
                        Action::TakeScreenshot { number, full_page: false },
                    ),
                    SnapshotScreenshot::FullPage => standing(
                        counted,
                        Stage::TakingScreenshot { id, parts },
                        Action::TakeScreenshot { number, full_page: true },
                    ),
                }
            },
        },
        (Stage::TakingScreenshot { id, parts }, Event::Screenshot(taken)) => match taken {
            Ok(path) => snapshot_logged(core, id, SnapshotParts { screenshot: Some(path), ..parts }),
            Err(error) => failed(
                core,
                id,
                ErrorCode::Artifacts,
                Message::Text(error),
                None,
                After::Stop,
            ),
        },
        (Stage::LoggingSnapshot { id, parts }, Event::Logged(logged)) => match logged {
            Ok(_) => replied(core, id, Outcome::Success(Body::Snapshot(parts)), After::Read),
            Err(error) => failed(
                core,
                id,
                ErrorCode::Artifacts,
                Message::Text(error),
                None,
                After::Stop,
            ),
        },
        (stage, _) => standing(core, stage, Action::Ignore),
    }
}

fn step_snapshot(core: Core, stage: Stage, event: Event) -> (next: (Session, Action))
    requires
        has_room(core),
    ensures
        next == snapshot_step(core, stage, event),
{
    match (stage, event) {
        (Stage::CheckingBaseline { id, wanted, latest }, Event::BaselineChecked(checked)) =>
        match checked {
            Ok(_) => stay(
                core,
                Stage::InspectingForSnapshot { id, wanted },
                Action::Inspect { accessibility: false, screenshot: None },
            ),
            Err(error) => reply(
                core,
                id,
                Outcome::Error {
                    code: ErrorCode::SnapshotUnavailable,
                    message: Message::Text(error),
                    details: Some(Body::LatestSnapshot(latest)),
                },
                After::Read,
            ),
        },
        (Stage::InspectingForSnapshot { id, wanted }, Event::Inspected(inspected)) =>
        match inspected {
            Ok(inspection) => stay(
                core,
                Stage::Capturing { id, wanted, inspection },
                Action::Capture { since: wanted.since },
            ),
            Err(error) => fail(
                core,
                id,
                ErrorCode::Browser,
                Message::Text(error),
                None,
                After::Stop,
            ),
        },
        (Stage::Capturing { id, wanted, inspection }, Event::Captured(captured)) =>
        match captured {
            Err(error) => fail(
                core,
                id,
                ErrorCode::Browser,
                Message::Text(error),
                None,
                After::Stop,
            ),
            Ok(capture) => {
                let number: u64 = core.snapshots + 1;
                let counted = Core { snapshots: number, ..core };
                let parts = SnapshotParts {
                    inspection,
                    capture,
                    screenshot: None,
                    accessibility: wanted.accessibility,
                };
                match wanted.screenshot {
                    SnapshotScreenshot::Omitted => log_snapshot(counted, id, parts),
                    SnapshotScreenshot::Viewport => stay(
                        counted,
                        Stage::TakingScreenshot { id, parts },
                        Action::TakeScreenshot { number, full_page: false },
                    ),
                    SnapshotScreenshot::FullPage => stay(
                        counted,
                        Stage::TakingScreenshot { id, parts },
                        Action::TakeScreenshot { number, full_page: true },
                    ),
                }
            },
        },
        (Stage::TakingScreenshot { id, parts }, Event::Screenshot(taken)) => match taken {
            Ok(path) => log_snapshot(core, id, SnapshotParts { screenshot: Some(path), ..parts }),
            Err(error) => fail(
                core,
                id,
                ErrorCode::Artifacts,
                Message::Text(error),
                None,
                After::Stop,
            ),
        },
        (Stage::LoggingSnapshot { id, parts }, Event::Logged(logged)) => match logged {
            Ok(_) => reply(core, id, Outcome::Success(Body::Snapshot(parts)), After::Read),
            Err(error) => fail(
                core,
                id,
                ErrorCode::Artifacts,
                Message::Text(error),
                None,
                After::Stop,
            ),
        },
        (stage, _) => stay(core, stage, Action::Ignore),
    }
}

/// One step of an interactive action.
pub open spec fn action_step(core: Core, stage: Stage, event: Event) -> (Session, Action) {
    match (stage, event) {
        (Stage::Preparing { id }, Event::Prepared(prepared)) => match prepared {
            Ok(action) => standing(core, Stage::CompilingAction { id, action }, Action::CompileAction),
            Err(error) => replied(
                core,
                id,
                Outcome::Error {
                    code: error.code,
                    message: error.message,
                    details: error.details,
                },
                After::Read,
            ),
        },
        (Stage::CompilingAction { id, action }, Event::ActionCompiled(compiled)) => match compiled {
            Err(error) => refused(core, id, ErrorCode::Validation, Message::Text(error)),
            Ok(_) => match action.backend_node_id {
                Some(node) => standing(
                    core,
                    Stage::Matching { id, action },
                    Action::MatchReference(node),
                ),
                None => standing(core, Stage::ReadingUrl { id, action }, Action::ReadUrl),
            },
        },
        (Stage::Matching { id, action }, Event::Matched { result, latest }) => match result {
            Ok(matches) => if matches {
                standing(core, Stage::ReadingUrl { id, action }, Action::ReadUrl)
            } else {
                replied(
                    core,
                    id,
                    Outcome::Error {
                        code: ErrorCode::StaleReference,
                        message: Message::ReferenceLost,
                        details: Some(Body::LatestSnapshot(latest)),
                    },
                    After::Read,
                )
            },
            Err(error) => refused(core, id, ErrorCode::ActionFailed, Message::Text(error)),
        },
        (Stage::ReadingUrl { id, action }, Event::UrlRead(url_before)) => standing(
            core,
            Stage::Acting { id, action, url_before },
            Action::Act,
        ),
        (Stage::Acting { id, action, url_before }, Event::Acted(result)) => standing(
            core,
            Stage::LoggingAction { id, action, url_before, result },
            Action::LogStep,
        ),
        (Stage::LoggingAction { id, action, url_before, result }, Event::Logged(logged)) =>
        match logged {
            Err(error) => failed(
                core,
                id,
                ErrorCode::Artifacts,
                Message::Text(error),
                None,
                After::Stop,
            ),
            Ok(_) => match result {
                Err(error) => {
                    let message = error.message;
                    replied(
                        core,
                        id,
                        Outcome::Error {
                            code: ErrorCode::ActionFailed,
                            message: Message::Text(message),
                            details: Some(Body::StepFailure(error)),
                        },
                        After::Read,
                    )
                },
                Ok(result) => if url_changed(url_before, result.url) {
                    let url = result.url;
                    standing(
                        core,
                        Stage::LoggingNavigation { id, action, result },
                        Action::Log(Note::Navigation(url)),
                    )
                } else {
                    standing(core, Stage::Observing { id, action, result }, Action::Observe)
                },
            },
        },
        (Stage::LoggingNavigation { id, action, result }, Event::Logged(logged)) => match logged {
            Err(error) => failed(
                core,
                id,
                ErrorCode::Artifacts,
                Message::Text(error),
                None,
                After::Stop,
            ),
            Ok(_) => standing(core, Stage::Observing { id, action, result }, Action::Observe),
        },
        (Stage::Observing { id, action, result }, Event::Observed { pending, elapsed_ms }) =>
        replied(
            core,
            id,
            Outcome::Success(Body::Acted { action, result, pending, elapsed_ms }),
            After::Read,
        ),
        (stage, _) => standing(core, stage, Action::Ignore),
    }
}

fn step_action(core: Core, stage: Stage, event: Event) -> (next: (Session, Action))
    requires
        has_room(core),
    ensures
        next == action_step(core, stage, event),
{
    match (stage, event) {
        (Stage::Preparing { id }, Event::Prepared(prepared)) => match prepared {
            Ok(action) => stay(core, Stage::CompilingAction { id, action }, Action::CompileAction),
            Err(error) => reply(
                core,
                id,
                Outcome::Error {
                    code: error.code,
                    message: error.message,
                    details: error.details,
                },
                After::Read,
            ),
        },
        (Stage::CompilingAction { id, action }, Event::ActionCompiled(compiled)) => match compiled {
            Err(error) => refuse(core, id, ErrorCode::Validation, Message::Text(error)),
            Ok(_) => match action.backend_node_id {
                Some(node) => stay(
                    core,
                    Stage::Matching { id, action },
                    Action::MatchReference(node),
                ),
                None => stay(core, Stage::ReadingUrl { id, action }, Action::ReadUrl),
            },
        },
        (Stage::Matching { id, action }, Event::Matched { result, latest }) => match result {
            Ok(matches) => if matches {
                stay(core, Stage::ReadingUrl { id, action }, Action::ReadUrl)
            } else {
                reply(
                    core,
                    id,
                    Outcome::Error {
                        code: ErrorCode::StaleReference,
                        message: Message::ReferenceLost,
                        details: Some(Body::LatestSnapshot(latest)),
                    },
                    After::Read,
                )
            },
            Err(error) => refuse(core, id, ErrorCode::ActionFailed, Message::Text(error)),
        },
        (Stage::ReadingUrl { id, action }, Event::UrlRead(url_before)) => stay(
            core,
            Stage::Acting { id, action, url_before },
            Action::Act,
        ),
        (Stage::Acting { id, action, url_before }, Event::Acted(result)) => stay(
            core,
            Stage::LoggingAction { id, action, url_before, result },
            Action::LogStep,
        ),
        (Stage::LoggingAction { id, action, url_before, result }, Event::Logged(logged)) =>
        match logged {
            Err(error) => fail(
                core,
                id,
                ErrorCode::Artifacts,
                Message::Text(error),
                None,
                After::Stop,
            ),
            Ok(_) => match result {
                Err(error) => {
                    let message = error.message.clone();
                    reply(
                        core,
                        id,
                        Outcome::Error {
                            code: ErrorCode::ActionFailed,
                            message: Message::Text(message),
                            details: Some(Body::StepFailure(error)),
                        },
                        After::Read,
                    )
                },
                Ok(result) => if has_moved(&url_before, &result.url) {
                    let url = result.url.clone();
                    stay(
                        core,
                        Stage::LoggingNavigation { id, action, result },
                        Action::Log(Note::Navigation(url)),
                    )
                } else {
                    stay(core, Stage::Observing { id, action, result }, Action::Observe)
                },
            },
        },
        (Stage::LoggingNavigation { id, action, result }, Event::Logged(logged)) => match logged {
            Err(error) => fail(
                core,
                id,
                ErrorCode::Artifacts,
                Message::Text(error),
                None,
                After::Stop,
            ),
            Ok(_) => stay(core, Stage::Observing { id, action, result }, Action::Observe),
        },
        (Stage::Observing { id, action, result }, Event::Observed { pending, elapsed_ms }) =>
        reply(
            core,
            id,
            Outcome::Success(Body::Acted { action, result, pending, elapsed_ms }),
            After::Read,
        ),
        (stage, _) => stay(core, stage, Action::Ignore),
    }
}

/// One step of a scroll.
pub open spec fn scroll_step(core: Core, stage: Stage, event: Event) -> (Session, Action) {
    match (stage, event) {
        (Stage::Scrolling { id, x, y }, Event::Acted(result)) => standing(
            core,
            Stage::LoggingScroll { id, x, y, result },
            Action::LogStep,
        ),
        (Stage::LoggingScroll { id, x, y, result }, Event::Logged(logged)) => match logged {
            Err(error) => failed(
                core,
                id,
                ErrorCode::Artifacts,
                Message::Text(error),
                None,
                After::Stop,
            ),
            Ok(_) => match result {
                Ok(_) => standing(core, Stage::ReadingScroll { id }, Action::ReadScroll),
                Err(error) => refused(
                    core,
                    id,
                    ErrorCode::ActionFailed,
                    Message::Text(error.message),
                ),
            },
        },
        (Stage::ReadingScroll { id }, Event::ScrollRead(read)) => match read {
            Ok(scroll) => replied(core, id, Outcome::Success(Body::Scroll(scroll)), After::Read),
            Err(error) => refused(core, id, ErrorCode::Browser, Message::Text(error)),
        },
        (stage, _) => standing(core, stage, Action::Ignore),
    }
}

fn step_scroll(core: Core, stage: Stage, event: Event) -> (next: (Session, Action))
    requires
        has_room(core),
    ensures
        next == scroll_step(core, stage, event),
{
    match (stage, event) {
        (Stage::Scrolling { id, x, y }, Event::Acted(result)) => stay(
            core,
            Stage::LoggingScroll { id, x, y, result },
            Action::LogStep,
        ),
        (Stage::LoggingScroll { id, x, y, result }, Event::Logged(logged)) => match logged {
            Err(error) => fail(
                core,
                id,
                ErrorCode::Artifacts,
                Message::Text(error),
                None,
                After::Stop,
            ),
            Ok(_) => match result {
                Ok(_) => stay(core, Stage::ReadingScroll { id }, Action::ReadScroll),
                Err(error) => refuse(
                    core,
                    id,
                    ErrorCode::ActionFailed,
                    Message::Text(error.message),
                ),
            },
        },
        (Stage::ReadingScroll { id }, Event::ScrollRead(read)) => match read {
            Ok(scroll) => reply(core, id, Outcome::Success(Body::Scroll(scroll)), After::Read),
            Err(error) => refuse(core, id, ErrorCode::Browser, Message::Text(error)),
        },
        (stage, _) => stay(core, stage, Action::Ignore),
    }
}

/// One step while the session closes. What the session leaves is published only where its artifacts
/// could be set up.
pub open spec fn closing_step(core: Core, stage: Stage, event: Event) -> (Session, Action) {
    match (stage, event) {
        (Stage::ClosingAfterReportFailure { id }, Event::Closed(closed)) => match closed {
            Ok(close) => replied(core, id, Outcome::Success(Body::Closed(close)), After::Stop),
            Err(error) => replied(
                core,
                id,
                Outcome::Error {
                    code: ErrorCode::Browser,
                    message: Message::Text(error),
                    details: None,
                },
                After::Stop,
            ),
        },
        (Stage::ClosingAfterSubmission { id }, Event::Closed(closed)) => match closed {
            Ok(close) => match core.artifact_error {
                Some(error) => failed(
                    core,
                    id,
                    ErrorCode::Artifacts,
                    Message::ArtifactSetup(error),
                    None,
                    After::CloseAnswered,
                ),
                None => standing(
                    core,
                    Stage::PublishingAfterSubmission { id },
                    Action::PublishClose(close),
                ),
            },
            Err(error) => failed(
                core,
                id,
                ErrorCode::Browser,
                Message::Text(error),
                None,
                After::CloseAnswered,
            ),
        },
        (Stage::PublishingAfterSubmission { id }, Event::Published(published)) => match published {
            Ok((bundle, close)) => replied(
                core,
                id,
                Outcome::Success(Body::ClosedWithBundle { bundle, close }),
                After::CloseAnswered,
            ),
            Err(error) => failed(
                core,
                id,
                ErrorCode::Artifacts,
                Message::Text(error),
                None,
                After::CloseAnswered,
            ),
        },
        (Stage::ClosingOnRequest { id }, Event::Closed(closed)) => match closed {
            Ok(close) => match core.artifact_error {
                Some(error) => failed(
                    core,
                    id,
                    ErrorCode::Artifacts,
                    Message::ArtifactSetup(error),
                    None,
                    After::Stop,
                ),
                None => standing(
                    core,
                    Stage::PublishingOnRequest { id },
                    Action::PublishClose(close),
                ),
            },
            Err(error) => failed(
                core,
                id,
                ErrorCode::Browser,
                Message::Text(error),
                None,
                After::Stop,
            ),
        },
        (Stage::PublishingOnRequest { id }, Event::Published(published)) => match published {
            Ok((bundle, close)) => replied(
                core,
                id,
                Outcome::Success(Body::ClosedWithBundle { bundle, close }),
                After::CloseAnswered,
            ),
            Err(error) => failed(
                core,
                id,
                ErrorCode::Artifacts,
                Message::Text(error),
                None,
                After::Stop,
            ),
        },
        (Stage::ClosingAtEnd, Event::Closed(closed)) => match closed {
            Ok(close) => match core.artifact_error {
                Some(_) => shutting_down(with_failure(core)),
                None => standing(core, Stage::PublishingAtEnd, Action::PublishClose(close)),
            },
            Err(_) => shutting_down(with_failure(core)),
        },
        (Stage::PublishingAtEnd, Event::Published(published)) => match published {
            Ok(_) => shutting_down(core),
            Err(_) => shutting_down(with_failure(core)),
        },
        (Stage::ShuttingDown, Event::ShutDown(done)) => {
            let left = if done {
                core
            } else {
                with_failure(core)
            };
            let exit = left.exit;
            standing(left, Stage::Ended, Action::Finish(exit))
        },
        (stage, _) => standing(core, stage, Action::Ignore),
    }
}

fn step_closing(core: Core, stage: Stage, event: Event) -> (next: (Session, Action))
    requires
        has_room(core),
    ensures
        next == closing_step(core, stage, event),
{
    match (stage, event) {
        (Stage::ClosingAfterReportFailure { id }, Event::Closed(closed)) => match closed {
            Ok(close) => reply(core, id, Outcome::Success(Body::Closed(close)), After::Stop),
            Err(error) => reply(
                core,
                id,
                Outcome::Error {
                    code: ErrorCode::Browser,
                    message: Message::Text(error),
                    details: None,
                },
                After::Stop,
            ),
        },
        (Stage::ClosingAfterSubmission { id }, Event::Closed(closed)) => match closed {
            Ok(close) => match core.artifact_error {
                Some(error) => fail(
                    Core { artifact_error: Some(error.clone()), ..core },
                    id,
                    ErrorCode::Artifacts,
                    Message::ArtifactSetup(error),
                    None,
                    After::CloseAnswered,
                ),
                None => stay(
                    Core { artifact_error: None, ..core },
                    Stage::PublishingAfterSubmission { id },
                    Action::PublishClose(close),
                ),
            },
            Err(error) => fail(
                core,
                id,
                ErrorCode::Browser,
                Message::Text(error),
                None,
                After::CloseAnswered,
            ),
        },
        (Stage::PublishingAfterSubmission { id }, Event::Published(published)) => match published {
            Ok((bundle, close)) => reply(
                core,
                id,
                Outcome::Success(Body::ClosedWithBundle { bundle, close }),
                After::CloseAnswered,
            ),
            Err(error) => fail(
                core,
                id,
                ErrorCode::Artifacts,
                Message::Text(error),
                None,
                After::CloseAnswered,
            ),
        },
        (Stage::ClosingOnRequest { id }, Event::Closed(closed)) => match closed {
            Ok(close) => match core.artifact_error {
                Some(error) => fail(
                    Core { artifact_error: Some(error.clone()), ..core },
                    id,
                    ErrorCode::Artifacts,
                    Message::ArtifactSetup(error),
                    None,
                    After::Stop,
                ),
                None => stay(
                    Core { artifact_error: None, ..core },
                    Stage::PublishingOnRequest { id },
                    Action::PublishClose(close),
                ),
            },
            Err(error) => fail(
                core,
                id,
                ErrorCode::Browser,
                Message::Text(error),
                None,
                After::Stop,
            ),
        },
        (Stage::PublishingOnRequest { id }, Event::Published(published)) => match published {
            Ok((bundle, close)) => reply(
                core,
                id,
                Outcome::Success(Body::ClosedWithBundle { bundle, close }),
                After::CloseAnswered,
            ),
            Err(error) => fail(
                core,
                id,
                ErrorCode::Artifacts,
                Message::Text(error),
                None,
                After::Stop,
            ),
        },
        (Stage::ClosingAtEnd, Event::Closed(closed)) => match closed {
            Ok(close) => if core.artifact_error.is_some() {
                shut_down(broken(core))
            } else {
                stay(core, Stage::PublishingAtEnd, Action::PublishClose(close))
            },
            Err(_) => shut_down(broken(core)),
        },
        (Stage::PublishingAtEnd, Event::Published(published)) => match published {
            Ok(_) => shut_down(core),
            Err(_) => shut_down(broken(core)),
        },
        (Stage::ShuttingDown, Event::ShutDown(done)) => {
            let left = if done {
                core
            } else {
                broken(core)
            };
            let exit = left.exit;
            stay(left, Stage::Ended, Action::Finish(exit))
        },
        (stage, _) => stay(core, stage, Action::Ignore),
    }
}

/// The state and action that follow an event. An event that does not fit the stage is ignored.
pub open spec fn next_step(session: Session, event: Event) -> (Session, Action) {
    match phase_of(session.stage) {
        Phase::Setup => setup_step(session.core, session.stage, event),
        Phase::Talk => talk_step(session.core, session.stage, event),
        Phase::Submission => submission_step(session.core, session.stage, event),
        Phase::Snapshot => snapshot_step(session.core, session.stage, event),
        Phase::Action => action_step(session.core, session.stage, event),
        Phase::Scroll => scroll_step(session.core, session.stage, event),
        Phase::Closing => closing_step(session.core, session.stage, event),
    }
}

impl Session {
    /// A session about to launch its browser, in a window with room for the page and the
    /// browser's own edges.
    pub fn start(id: String, width: u32, height: u32) -> (next: (Session, Action))
        ensures
            next == started(id, width, height),
    {
        let core = Core {
            id,
            revision: 0,
            submissions: 0,
            inspections: 0,
            snapshots: 0,
            exit: ExitCode::Success,
            open: false,
            artifact_error: None,
        };
        stay(
            core,
            Stage::Launching,
            Action::Launch { width: width.saturating_add(300), height: height.saturating_add(200) },
        )
    }

    /// Takes an event and says what to do next.
    pub fn next(self, event: Event) -> (next: (Session, Action))
        requires
            has_room(self.core),
        ensures
            next == next_step(self, event),
    {
        match phase(&self.stage) {
            Phase::Setup => step_setup(self.core, self.stage, event),
            Phase::Talk => step_talk(self.core, self.stage, event),
            Phase::Submission => step_submission(self.core, self.stage, event),
            Phase::Snapshot => step_snapshot(self.core, self.stage, event),
            Phase::Action => step_action(self.core, self.stage, event),
            Phase::Scroll => step_scroll(self.core, self.stage, event),
            Phase::Closing => step_closing(self.core, self.stage, event),
        }
    }
}

/// A sum of page size and margin, up to the largest 32-bit number.
pub open spec fn widened(size: u32, margin: int) -> u32 {
    if size + margin > u32::MAX {
        u32::MAX
    } else {
        (size + margin) as u32
    }
}

/// The first state and action of a session.
pub open spec fn started(id: String, width: u32, height: u32) -> (Session, Action) {
    (
        Session {
            core: Core {
                id,
                revision: 0,
                submissions: 0,
                inspections: 0,
                snapshots: 0,
                exit: ExitCode::Success,
                open: false,
                artifact_error: None,
            },
            stage: Stage::Launching,
        },
        Action::Launch { width: widened(width, 300), height: widened(height, 200) },
    )
}

} // verus!
