//! What holds of every interactive session, whatever its client and its browser do.

use crate::dialog::PendingDialog;
use crate::interactive::{InteractiveStepError, InteractiveStepResult, SessionInspection};
use crate::json::JsonValue;
use crate::report::{ExitCode, FailureCategory, FlowReport, FlowStatus};
use crate::session::{
    action_step, begun, closing_step, has_room, next_step, phase_of, scroll_step, setup_step,
    snapshot_step, started, submission_step, talk_step, Action, After, Body, Capture, CloseResult,
    CommandError, Core, DialogChoice, ErrorCode, Event, Input, Message, Note, Outcome, Phase,
    PreparedAction, Request, Response, Session, SessionCommand, SnapshotParts, SnapshotRequest,
    Stage, Submission,
};
use vstd::prelude::*;

verus! {

/// The response that an action sends, if it sends one.
pub open spec fn sent(action: Action) -> Option<Response> {
    match action {
        Action::Reply(response) => Some(response),
        Action::ReplyWhileRunning { response, .. } => Some(response),
        _ => None,
    }
}

/// Whether a step counts its responses and keeps an infrastructure failure.
pub open spec fn accounts(core: Core, next: (Session, Action)) -> bool {
    &&& match sent(next.1) {
        Some(response) => {
            &&& response.revision == core.revision + 1
            &&& next.0.core.revision == core.revision + 1
        },
        None => next.0.core.revision == core.revision,
    }
    &&& core.exit == ExitCode::Infrastructure ==> next.0.core.exit == ExitCode::Infrastructure
    &&& next.0.core.exit == core.exit || next.0.core.exit == ExitCode::Infrastructure
        || next.0.core.exit == ExitCode::Interrupted
    &&& next.0.core.id == core.id
}

proof fn begun_accounts(
    core: Core,
    request: Request,
    pending: Option<crate::dialog::PendingDialog>,
    latest: u64,
)
    requires
        has_room(core),
    ensures
        accounts(core, begun(core, request, pending, latest)),
{
}

proof fn talk_accounts(core: Core, stage: Stage, event: Event)
    requires
        has_room(core),
    ensures
        accounts(core, talk_step(core, stage, event)),
{
    match event {
        Event::Input(Input::Request { request, pending, latest }) => {
            begun_accounts(core, request, pending, latest);
        },
        _ => {},
    }
}

/// Every response takes the revision after the latest, and nothing else moves it. An exit code of
/// infrastructure failure stays.
pub proof fn every_response_advances_the_revision(session: Session, event: Event)
    requires
        has_room(session.core),
    ensures
        accounts(session.core, next_step(session, event)),
{
    match phase_of(session.stage) {
        Phase::Talk => {
            talk_accounts(session.core, session.stage, event);
        },
        Phase::Setup => {
            assert(accounts(session.core, setup_step(session.core, session.stage, event)));
        },
        Phase::Submission => {
            assert(accounts(session.core, submission_step(session.core, session.stage, event)));
        },
        Phase::Snapshot => {
            assert(accounts(session.core, snapshot_step(session.core, session.stage, event)));
        },
        Phase::Action => {
            assert(accounts(session.core, action_step(session.core, session.stage, event)));
        },
        Phase::Scroll => {
            assert(accounts(session.core, scroll_step(session.core, session.stage, event)));
        },
        Phase::Closing => {
            assert(accounts(session.core, closing_step(session.core, session.stage, event)));
        },
    }
}

/// The requests that still wait for a response at a stage: the one at work, and a close that came
/// while it was.
pub open spec fn owed(stage: Stage) -> (Option<JsonValue>, Option<JsonValue>) {
    match stage {
        Stage::Submitting(run) => (Some(run.id), run.close),
        Stage::ReplyingWhileRunning(run) => (Some(run.id), run.close),
        Stage::LoggingSubmission { id, close, .. } => (Some(id), close),
        Stage::ReportingSubmission { id, close, .. } => (Some(id), close),
        Stage::Replying(After::Concluded { close, .. }) => (None, close),
        Stage::Replying(After::CloseRequested(id)) => (None, Some(id)),
        Stage::Compiling { id } => (Some(id), None),
        Stage::ClosingAfterReportFailure { id } => (Some(id), None),
        Stage::ClosingAfterSubmission { id } => (Some(id), None),
        Stage::PublishingAfterSubmission { id } => (Some(id), None),
        Stage::Inspecting { id } => (Some(id), None),
        Stage::CheckingBaseline { id, .. } => (Some(id), None),
        Stage::InspectingForSnapshot { id, .. } => (Some(id), None),
        Stage::Capturing { id, .. } => (Some(id), None),
        Stage::TakingScreenshot { id, .. } => (Some(id), None),
        Stage::LoggingSnapshot { id, .. } => (Some(id), None),
        Stage::Preparing { id } => (Some(id), None),
        Stage::CompilingAction { id, .. } => (Some(id), None),
        Stage::Matching { id, .. } => (Some(id), None),
        Stage::ReadingUrl { id, .. } => (Some(id), None),
        Stage::Acting { id, .. } => (Some(id), None),
        Stage::LoggingAction { id, .. } => (Some(id), None),
        Stage::LoggingNavigation { id, .. } => (Some(id), None),
        Stage::Observing { id, .. } => (Some(id), None),
        Stage::Scrolling { id, .. } => (Some(id), None),
        Stage::LoggingScroll { id, .. } => (Some(id), None),
        Stage::ReadingScroll { id } => (Some(id), None),
        Stage::AnsweringDialog { id, .. } => (Some(id), None),
        Stage::LoggingDialog { id, .. } => (Some(id), None),
        Stage::ReportingForExport { id, .. } => (Some(id), None),
        Stage::Exporting { id } => (Some(id), None),
        Stage::LookingUp { id, .. } => (Some(id), None),
        Stage::ClosingOnRequest { id } => (Some(id), None),
        Stage::PublishingOnRequest { id } => (Some(id), None),
        _ => (None, None),
    }
}

/// Whether input is taken at a stage.
pub open spec fn listens(stage: Stage) -> bool {
    match stage {
        Stage::Reading => true,
        Stage::Submitting(run) => run.close is None && !run.input_closed,
        _ => false,
    }
}

/// The identifier that input brings and that a response owes: null where it could not be read.
pub open spec fn brought(stage: Stage, event: Event) -> Option<JsonValue> {
    match event {
        Event::Input(input) => if listens(stage) {
            match input {
                Input::Request { request, .. } => Some(request.id),
                Input::Malformed { id, .. } => Some(id),
                Input::TooLarge => Some(JsonValue::Null),
                _ => None,
            }
        } else {
            None
        },
        _ => None,
    }
}

/// The identifier that an action answers.
pub open spec fn answered(action: Action) -> Option<JsonValue> {
    match sent(action) {
        Some(response) => Some(response.id),
        None => None,
    }
}

/// How often an identifier occurs in an optional place.
pub open spec fn occurrences(place: Option<JsonValue>, id: JsonValue) -> nat {
    if place == Some(id) {
        1
    } else {
        0
    }
}

/// Whether a step neither loses nor doubles a request: what was owed or brought is answered or
/// still owed.
pub open spec fn balances(
    stage: Stage,
    event: Event,
    next: (Session, Action),
    id: JsonValue,
) -> bool {
    occurrences(owed(stage).0, id) + occurrences(owed(stage).1, id) + occurrences(
        brought(stage, event),
        id,
    ) == occurrences(owed(next.0.stage).0, id) + occurrences(owed(next.0.stage).1, id)
        + occurrences(answered(next.1), id)
}

/// Whether a submission can be neither reported nor logged after a close was taken: then the close
/// is forgotten.
pub open spec fn forgets_close(stage: Stage, event: Event) -> bool {
    match (stage, event) {
        (Stage::Submitting(run), Event::Finished(Err(_))) => run.close is Some,
        (Stage::LoggingSubmission { close, .. }, Event::Logged(Err(_))) => close is Some,
        _ => false,
    }
}

proof fn talk_balances(core: Core, stage: Stage, event: Event, id: JsonValue)
    requires
        phase_of(stage) == Phase::Talk,
    ensures
        balances(stage, event, talk_step(core, stage, event), id),
{
    match event {
        Event::Input(Input::Request { request, pending, latest }) => {
            if stage is Reading {
                let next = begun(core, request, pending, latest);
                assert(talk_step(core, stage, event) == next);
                assert(occurrences(Some(request.id), id) == occurrences(owed(next.0.stage).0, id)
                    + occurrences(owed(next.0.stage).1, id) + occurrences(answered(next.1), id));
            }
        },
        _ => {},
    }
}

/// Every request gets exactly one response, under its own identifier, and no response comes
/// without a request. The one exception is a close taken while a submission runs that then can be
/// neither reported nor logged.
pub proof fn every_request_is_answered_once(session: Session, event: Event, id: JsonValue)
    requires
        !forgets_close(session.stage, event),
    ensures
        balances(session.stage, event, next_step(session, event), id),
{
    let stage = session.stage;
    match phase_of(stage) {
        Phase::Talk => {
            talk_balances(session.core, stage, event, id);
        },
        Phase::Setup => {
            assert(balances(stage, event, setup_step(session.core, stage, event), id));
        },
        Phase::Submission => {
            assert(balances(stage, event, submission_step(session.core, stage, event), id));
        },
        Phase::Snapshot => {
            assert(balances(stage, event, snapshot_step(session.core, stage, event), id));
        },
        Phase::Action => {
            assert(balances(stage, event, action_step(session.core, stage, event), id));
        },
        Phase::Scroll => {
            assert(balances(stage, event, scroll_step(session.core, stage, event), id));
        },
        Phase::Closing => {
            assert(balances(stage, event, closing_step(session.core, stage, event), id));
        },
    }
}

/// Whether the browser session is open at a stage, where the stage settles it.
pub open spec fn stage_is_open(stage: Stage) -> Option<bool> {
    match stage {
        Stage::Launching
        | Stage::PreparingArtifacts
        | Stage::PreparingFallback
        | Stage::LoggingSettings
        | Stage::Opening
        | Stage::ClosingEarly
        | Stage::ClosingAfterReportFailure { .. }
        | Stage::ClosingAfterSubmission { .. }
        | Stage::PublishingAfterSubmission { .. }
        | Stage::ClosingOnRequest { .. }
        | Stage::PublishingOnRequest { .. }
        | Stage::ClosingAtEnd
        | Stage::PublishingAtEnd
        | Stage::ShuttingDown
        | Stage::Ended
        | Stage::Replying(After::CloseAnswered) => Some(false),
        Stage::Replying(After::Stop) => None,
        _ => Some(true),
    }
}

/// Whether the session knows rightly if its browser session is open.
pub open spec fn consistent(session: Session) -> bool {
    match stage_is_open(session.stage) {
        Some(open) => session.core.open == open,
        None => true,
    }
}

/// Whether a step keeps the session consistent and closes the browser session at most once.
pub open spec fn keeps_consistent(core: Core, next: (Session, Action)) -> bool {
    &&& consistent(next.0)
    &&& next.1 is CloseBrowser ==> core.open && !next.0.core.open
    &&& core.open && !next.0.core.open ==> next.1 is CloseBrowser
    &&& next.1 is Finish ==> next.0.stage is Ended && next.1->Finish_0 == next.0.core.exit
}

proof fn talk_keeps_consistent(core: Core, stage: Stage, event: Event)
    requires
        phase_of(stage) == Phase::Talk,
        consistent(Session { core, stage }),
    ensures
        keeps_consistent(core, talk_step(core, stage, event)),
{
    match event {
        Event::Input(Input::Request { request, pending, latest }) => {
            if stage is Reading {
                let next = begun(core, request, pending, latest);
                assert(talk_step(core, stage, event) == next);
                assert(keeps_consistent(core, next));
            }
        },
        _ => {},
    }
}

/// A session opens its browser session once, closes it once, and ends with the exit code it has
/// gathered. This holds from the start and every step keeps it.
pub proof fn the_browser_closes_once(session: Session, event: Event)
    requires
        consistent(session),
    ensures
        keeps_consistent(session.core, next_step(session, event)),
{
    let stage = session.stage;
    match phase_of(stage) {
        Phase::Talk => {
            talk_keeps_consistent(session.core, stage, event);
        },
        Phase::Setup => {
            assert(keeps_consistent(session.core, setup_step(session.core, stage, event)));
        },
        Phase::Submission => {
            assert(keeps_consistent(session.core, submission_step(session.core, stage, event)));
        },
        Phase::Snapshot => {
            assert(keeps_consistent(session.core, snapshot_step(session.core, stage, event)));
        },
        Phase::Action => {
            assert(keeps_consistent(session.core, action_step(session.core, stage, event)));
        },
        Phase::Scroll => {
            assert(keeps_consistent(session.core, scroll_step(session.core, stage, event)));
        },
        Phase::Closing => {
            assert(keeps_consistent(session.core, closing_step(session.core, stage, event)));
        },
    }
}

/// A new session is consistent.
pub proof fn a_new_session_is_consistent(id: String, width: u32, height: u32)
    ensures
        consistent(started(id, width, height).0),
{
}

/// While a submission runs, a command other than cancel and close is refused as busy and leaves
/// the submission as it is.
pub proof fn commands_are_refused_while_a_submission_runs(
    session: Session,
    request: Request,
    pending: Option<crate::dialog::PendingDialog>,
    latest: u64,
)
    requires
        session.stage is Submitting,
        listens(session.stage),
        !(request.command is Cancel),
        !(request.command is Close),
    ensures
        ({
            let next = next_step(session, Event::Input(Input::Request { request, pending, latest }));
            &&& next.0.stage == Stage::ReplyingWhileRunning(session.stage->Submitting_0)
            &&& next.0.core.exit == session.core.exit
            &&& answered(next.1) == Some(request.id)
            &&& sent(next.1)->0.outcome == (Outcome::Error {
                code: ErrorCode::Busy,
                message: Message::Busy,
                details: None,
            })
        }),
{
}

/// A close taken while a submission runs cancels it, and no further command is read.
pub proof fn a_close_ends_listening(
    session: Session,
    request: Request,
    pending: Option<crate::dialog::PendingDialog>,
    latest: u64,
)
    requires
        session.stage is Submitting,
        listens(session.stage),
        request.command is Close,
    ensures
        ({
            let next = next_step(session, Event::Input(Input::Request { request, pending, latest }));
            &&& next.1 == (Action::AwaitSubmission { listen: false, cancel: true })
            &&& !listens(next.0.stage)
            &&& owed(next.0.stage).1 == Some(request.id)
        }),
{
}

/// The error of a session's artifacts is set only while they are set up, and never forgotten.
pub proof fn artifact_errors_stay(session: Session, event: Event)
    ensures
        ({
            let before = session.core.artifact_error;
            let after = next_step(session, event).0.core.artifact_error;
            after == before || (session.stage is PreparingArtifacts && after is Some)
        }),
{
    let core = session.core;
    let stage = session.stage;
    match phase_of(stage) {
        Phase::Talk => {
            match event {
                Event::Input(Input::Request { request, pending, latest }) => {
                    if stage is Reading {
                        let next = begun(core, request, pending, latest);
                        assert(talk_step(core, stage, event) == next);
                        assert(next.0.core.artifact_error == core.artifact_error);
                    }
                },
                _ => {},
            }
        },
        Phase::Setup => {
            assert(setup_step(core, stage, event).0.core.artifact_error == core.artifact_error
                || stage is PreparingArtifacts);
        },
        Phase::Submission => {
            assert(submission_step(core, stage, event).0.core.artifact_error
                == core.artifact_error);
        },
        Phase::Snapshot => {
            assert(snapshot_step(core, stage, event).0.core.artifact_error == core.artifact_error);
        },
        Phase::Action => {
            assert(action_step(core, stage, event).0.core.artifact_error == core.artifact_error);
        },
        Phase::Scroll => {
            assert(scroll_step(core, stage, event).0.core.artifact_error == core.artifact_error);
        },
        Phase::Closing => {
            assert(closing_step(core, stage, event).0.core.artifact_error == core.artifact_error);
        },
    }
}

/// Whether a step of a session without artifacts publishes nothing and writes no report. A close that
/// was asked for is answered with the error, and one at the end of the session is a failure.
pub open spec fn leaves_nothing(
    stage: Stage,
    event: Event,
    error: String,
    next: (Session, Action),
) -> bool {
    &&& !(next.1 is PublishClose)
    &&& !(next.1 is WriteReport)
    &&& (stage is ClosingOnRequest && event is Closed && event->Closed_0 is Ok ==> {
        &&& next.0.core.exit == ExitCode::Infrastructure
        &&& answered(next.1) == owed(stage).0
        &&& sent(next.1)->0.outcome == (Outcome::Error {
            code: ErrorCode::Artifacts,
            message: Message::ArtifactSetup(error),
            details: None,
        })
    })
    &&& (stage is ClosingAtEnd && event is Closed ==> next.0.core.exit == ExitCode::Infrastructure
        && next.1 is ShutDown)
}

proof fn talk_leaves_nothing(core: Core, stage: Stage, event: Event, error: String)
    requires
        phase_of(stage) == Phase::Talk,
        core.artifact_error == Some(error),
    ensures
        leaves_nothing(stage, event, error, talk_step(core, stage, event)),
{
    match event {
        Event::Input(Input::Request { request, pending, latest }) => {
            if stage is Reading {
                let next = begun(core, request, pending, latest);
                assert(talk_step(core, stage, event) == next);
                assert(leaves_nothing(stage, event, error, next));
            }
        },
        _ => {},
    }
}

/// A session whose artifacts could not be set up leaves nothing: it publishes nothing when it closes
/// and writes no report. A close is then answered with the error, and a session that closes at its end
/// has failed.
pub proof fn nothing_is_published_without_artifacts(session: Session, event: Event, error: String)
    requires
        session.core.artifact_error == Some(error),
    ensures
        leaves_nothing(session.stage, event, error, next_step(session, event)),
{
    let core = session.core;
    let stage = session.stage;
    match phase_of(stage) {
        Phase::Talk => {
            talk_leaves_nothing(core, stage, event, error);
        },
        Phase::Setup => {
            assert(leaves_nothing(stage, event, error, setup_step(core, stage, event)));
        },
        Phase::Submission => {
            assert(leaves_nothing(stage, event, error, submission_step(core, stage, event)));
        },
        Phase::Snapshot => {
            assert(leaves_nothing(stage, event, error, snapshot_step(core, stage, event)));
        },
        Phase::Action => {
            assert(leaves_nothing(stage, event, error, action_step(core, stage, event)));
        },
        Phase::Scroll => {
            assert(leaves_nothing(stage, event, error, scroll_step(core, stage, event)));
        },
        Phase::Closing => {
            assert(leaves_nothing(stage, event, error, closing_step(core, stage, event)));
        },
    }
}

/// Where a session stands, and what it does, once a request has come in.
pub open spec fn asked(
    session: Session,
    request: Request,
    pending: Option<PendingDialog>,
    latest: u64,
) -> (Session, Action) {
    next_step(session, Event::Input(Input::Request { request, pending, latest }))
}

/// Whether a step answers an identifier with an outcome, and reads on once that is written.
pub open spec fn answers(
    before: Session,
    next: (Session, Action),
    id: JsonValue,
    outcome: Outcome,
) -> bool {
    &&& next.1 == Action::Reply(
        Response { id, revision: (before.core.revision + 1) as u64, outcome },
    )
    &&& next.0.core.exit == before.core.exit
    &&& next_step(next.0, Event::Written(true)).1 is ReadCommand
    &&& next_step(next.0, Event::Written(true)).0.stage is Reading
    &&& next_step(next.0, Event::Written(false)).0.core.exit == ExitCode::Infrastructure
    &&& !(next_step(next.0, Event::Written(false)).1 is ReadCommand)
}

/// Whether a step answers an identifier with an error, after which the session has failed and no
/// further command is read.
pub open spec fn gives_up(
    next: (Session, Action),
    id: JsonValue,
    code: ErrorCode,
    message: Message,
    details: Option<Body>,
) -> bool {
    &&& sent(next.1) is Some
    &&& sent(next.1)->0.id == id
    &&& sent(next.1)->0.outcome == (Outcome::Error { code, message, details })
    &&& next.0.core.exit == ExitCode::Infrastructure
    &&& !(next_step(next.0, Event::Written(true)).1 is ReadCommand)
    &&& next_step(next.0, Event::Written(true)).0.core.exit == ExitCode::Infrastructure
}

/// An error outcome without details.
pub open spec fn plain_refusal(code: ErrorCode, message: Message) -> Outcome {
    Outcome::Error { code, message, details: None }
}

/// A snapshot is taken as it was asked for: against the baseline that the command names, with the
/// picture that it wants, and with what was seen of the page in its response.
pub proof fn a_snapshot_is_taken_as_asked(
    session: Session,
    request: Request,
    latest: u64,
    inspection: SessionInspection,
    capture: Capture,
    path: String,
)
    requires
        session.stage is Reading,
        request.command is Snapshot,
        session.core.snapshots < u64::MAX,
    ensures
        ({
            let since = request.command->Snapshot_since;
            let picture = request.command->Snapshot_screenshot;
            let told = request.command->Snapshot_accessibility;
            let first = asked(session, request, None, latest);
            let second = if since is Some {
                next_step(first.0, Event::BaselineChecked(Ok(())))
            } else {
                first
            };
            let third = next_step(second.0, Event::Inspected(Ok(inspection)));
            let fourth = next_step(third.0, Event::Captured(Ok(capture)));
            let fifth = if picture is Omitted {
                fourth
            } else {
                next_step(fourth.0, Event::Screenshot(Ok(path)))
            };
            let last = next_step(fifth.0, Event::Logged(Ok(())));
            &&& (since matches Some(from) ==> first.1 == Action::CheckBaseline(from))
            &&& second.1 == (Action::Inspect { accessibility: false, screenshot: None })
            &&& third.1 == (Action::Capture { since })
            &&& fourth.0.core.snapshots == session.core.snapshots + 1
            &&& (picture is Viewport ==> fourth.1 == (Action::TakeScreenshot {
                number: (session.core.snapshots + 1) as u64,
                full_page: false,
            }))
            &&& (picture is FullPage ==> fourth.1 == (Action::TakeScreenshot {
                number: (session.core.snapshots + 1) as u64,
                full_page: true,
            }))
            &&& fifth.1 == Action::Log(
                Note::Snapshot {
                    revision: capture.generation,
                    url: inspection.url,
                    elements: capture.count,
                },
            )
            &&& answers(
                fifth.0,
                last,
                request.id,
                Outcome::Success(
                    Body::Snapshot(
                        SnapshotParts {
                            inspection,
                            capture,
                            screenshot: if picture is Omitted {
                                None
                            } else {
                                Some(path)
                            },
                            accessibility: told,
                        },
                    ),
                ),
            )
            &&& last.0.core.submissions == session.core.submissions
            &&& last.0.core.inspections == session.core.inspections
        }),
{
}

/// What goes wrong with a snapshot is told: a baseline that is not kept leaves the session as it is,
/// anything else ends it.
pub proof fn snapshots_tell_what_went_wrong(
    core: Core,
    id: JsonValue,
    wanted: SnapshotRequest,
    latest: u64,
    inspection: SessionInspection,
    parts: SnapshotParts,
    error: String,
)
    ensures
        ({
            let checking = Session { core, stage: Stage::CheckingBaseline { id, wanted, latest } };
            let looking = Session { core, stage: Stage::InspectingForSnapshot { id, wanted } };
            let capturing = Session { core, stage: Stage::Capturing { id, wanted, inspection } };
            let picturing = Session { core, stage: Stage::TakingScreenshot { id, parts } };
            let logging = Session { core, stage: Stage::LoggingSnapshot { id, parts } };
            let message = Message::Text(error);
            &&& answers(
                checking,
                next_step(checking, Event::BaselineChecked(Err(error))),
                id,
                Outcome::Error {
                    code: ErrorCode::SnapshotUnavailable,
                    message,
                    details: Some(Body::LatestSnapshot(latest)),
                },
            )
            &&& gives_up(
                next_step(looking, Event::Inspected(Err(error))),
                id,
                ErrorCode::Browser,
                message,
                None,
            )
            &&& gives_up(
                next_step(capturing, Event::Captured(Err(error))),
                id,
                ErrorCode::Browser,
                message,
                None,
            )
            &&& gives_up(
                next_step(picturing, Event::Screenshot(Err(error))),
                id,
                ErrorCode::Artifacts,
                message,
                None,
            )
            &&& gives_up(
                next_step(logging, Event::Logged(Err(error))),
                id,
                ErrorCode::Artifacts,
                message,
                None,
            )
        }),
{
}

/// While a dialog is pending, nothing is done to the page: a submission, an action and a scroll are
/// refused with the dialog, and a snapshot tells of it.
pub proof fn pending_dialogs_come_first(
    session: Session,
    request: Request,
    dialog: PendingDialog,
    latest: u64,
)
    requires
        session.stage is Reading,
    ensures
        ({
            let next = asked(session, request, Some(dialog), latest);
            let refusal = |message: Message| Outcome::Error {
                code: ErrorCode::DialogPending,
                message,
                details: Some(Body::Dialog(dialog)),
            };
            match request.command {
                SessionCommand::Submit { .. } => answers(
                    session,
                    next,
                    request.id,
                    refusal(Message::PendingBeforeSubmitting),
                ),
                SessionCommand::Act { .. } => answers(
                    session,
                    next,
                    request.id,
                    refusal(Message::PendingBeforeActing),
                ),
                SessionCommand::Scroll { x, y } => x != 0 || y != 0 ==> answers(
                    session,
                    next,
                    request.id,
                    refusal(Message::PendingBeforeScrolling),
                ),
                SessionCommand::Snapshot { .. } => answers(
                    session,
                    next,
                    request.id,
                    Outcome::Success(Body::Blocked { latest, dialog }),
                ),
                _ => true,
            }
        }),
{
}

/// A submission that passed is run once, is put on record, and is answered with its report.
pub proof fn a_submission_is_run_and_reported(
    session: Session,
    request: Request,
    latest: u64,
    report: FlowReport,
)
    requires
        session.stage is Reading,
        request.command is Submit,
        session.core.submissions < u64::MAX,
        session.core.artifact_error is None,
    ensures
        ({
            let number = (session.core.submissions + 1) as u64;
            let first = asked(session, request, None, latest);
            let second = next_step(first.0, Event::Compiled(Ok(true)));
            let third = next_step(second.0, Event::Finished(Ok(report)));
            let fourth = next_step(third.0, Event::Logged(Ok(())));
            let last = next_step(fourth.0, Event::Reported(Ok(())));
            let fatal = exists|i: int|
                0 <= i < report.failures@.len() && (#[trigger] report.failures@[i]).category.spec_fatal();
            &&& first.1 == (Action::Compile {
                flow: request.command->Submit_flow,
                variables: request.command->Submit_variables,
                number,
            })
            &&& first.0.core.submissions == session.core.submissions
            &&& second.1 == (Action::Submit { number })
            &&& second.0.core.submissions == number
            &&& third.1 == Action::Log(
                Note::Submission { passed: report.status == FlowStatus::Passed },
            )
            &&& fourth.1 is WriteReport
            &&& sent(last.1) is Some
            &&& sent(last.1)->0.id == request.id
            &&& sent(last.1)->0.outcome == if report.status == FlowStatus::Passed {
                Outcome::Success(Body::Report(report))
            } else {
                Outcome::Error {
                    code: if fatal {
                        ErrorCode::Browser
                    } else if report.status == FlowStatus::Interrupted {
                        ErrorCode::Cancelled
                    } else {
                        ErrorCode::SubmissionFailed
                    },
                    message: Message::SubmissionFailed,
                    details: Some(Body::Report(report)),
                }
            }
            &&& (next_step(last.0, Event::Written(true)).1 is ReadCommand <==> !fatal
                && report.status != FlowStatus::Interrupted)
            &&& next_step(last.0, Event::Written(true)).0.core.exit == if fatal {
                ExitCode::Infrastructure
            } else if report.status == FlowStatus::Interrupted && session.core.exit
                != ExitCode::Infrastructure {
                ExitCode::Interrupted
            } else {
                session.core.exit
            }
        }),
{
}

/// A submission that cannot be compiled, or that wants other settings, is refused and not counted.
pub proof fn bad_submissions_are_refused(core: Core, id: JsonValue, error: String)
    ensures
        ({
            let compiling = Session { core, stage: Stage::Compiling { id } };
            let broken = next_step(compiling, Event::Compiled(Err(error)));
            let other = next_step(compiling, Event::Compiled(Ok(false)));
            &&& answers(
                compiling,
                broken,
                id,
                plain_refusal(ErrorCode::Validation, Message::Text(error)),
            )
            &&& answers(
                compiling,
                other,
                id,
                plain_refusal(ErrorCode::SettingsConflict, Message::SettingsConflict),
            )
            &&& broken.0.core.submissions == core.submissions
            &&& other.0.core.submissions == core.submissions
        }),
{
}

/// A submission that is cancelled counts as interrupted, unless it failed for good, and its client
/// is told so at once.
pub proof fn cancelled_submissions_are_interrupted(
    session: Session,
    request: Request,
    pending: Option<PendingDialog>,
    latest: u64,
    report: FlowReport,
)
    requires
        session.stage is Submitting,
        listens(session.stage),
        request.command is Cancel,
    ensures
        ({
            let run = session.stage->Submitting_0;
            let first = asked(session, request, pending, latest);
            let second = next_step(first.0, Event::Written(true));
            let last = next_step(second.0, Event::Finished(Ok(report)));
            let fatal = exists|i: int|
                0 <= i < report.failures@.len() && (#[trigger] report.failures@[i]).category.spec_fatal();
            &&& first.1 == (Action::ReplyWhileRunning {
                response: Response {
                    id: request.id,
                    revision: (session.core.revision + 1) as u64,
                    outcome: Outcome::Success(Body::Cancelling),
                },
                cancel: true,
            })
            &&& second.1 == (Action::AwaitSubmission { listen: true, cancel: false })
            &&& last.0.stage is LoggingSubmission
            &&& last.0.stage->LoggingSubmission_id == run.id
            &&& last.0.stage->LoggingSubmission_close == run.close
            &&& last.0.stage->LoggingSubmission_fatal == fatal
            &&& last.0.stage->LoggingSubmission_report == if fatal {
                report
            } else {
                FlowReport { status: FlowStatus::Interrupted, ..report }
            }
        }),
{
}

/// A submission that nobody cancelled keeps its report as it is, and one whose input or output was lost
/// is cancelled.
pub proof fn lost_clients_cancel_their_submission(session: Session, report: FlowReport)
    requires
        session.stage is Submitting,
    ensures
        ({
            let run = session.stage->Submitting_0;
            let done = next_step(session, Event::Finished(Ok(report)));
            let closed = next_step(session, Event::Input(Input::Closed));
            let failed = next_step(session, Event::Input(Input::Failed));
            let replying = Session { stage: Stage::ReplyingWhileRunning(run), ..session };
            let unwritten = next_step(replying, Event::Written(false));
            &&& (!run.cancelled ==> done.0.stage is LoggingSubmission
                && done.0.stage->LoggingSubmission_report == report)
            &&& (listens(session.stage) ==> {
                &&& closed.1 == (Action::AwaitSubmission { listen: false, cancel: true })
                &&& closed.0.stage->Submitting_0.cancelled
                &&& closed.0.core.exit == session.core.exit
                &&& failed.1 == (Action::AwaitSubmission { listen: false, cancel: true })
                &&& failed.0.stage->Submitting_0.cancelled
                &&& failed.0.core.exit == ExitCode::Infrastructure
            })
            &&& (unwritten.1 matches Action::AwaitSubmission { cancel, .. } && cancel)
            &&& unwritten.0.stage->Submitting_0.cancelled
            &&& unwritten.0.core.exit == ExitCode::Infrastructure
        }),
{
}

/// What cannot be put on record of a submission is told to its client, and ends the session; a close
/// that came meanwhile is carried out all the same.
pub proof fn unrecorded_submissions_end_the_session(
    core: Core,
    id: JsonValue,
    close: Option<JsonValue>,
    fatal: bool,
    report: FlowReport,
    error: String,
)
    ensures
        ({
            let logging = Session {
                core,
                stage: Stage::LoggingSubmission { id, close, fatal, report },
            };
            let reporting = Session {
                core,
                stage: Stage::ReportingSubmission { id, close, fatal, report },
            };
            let unlogged = next_step(logging, Event::Logged(Err(error)));
            let unreported = next_step(reporting, Event::Reported(Err(error)));
            let after = next_step(unreported.0, Event::Written(true));
            &&& gives_up(unlogged, id, ErrorCode::Artifacts, Message::Text(error), None)
            &&& gives_up(
                unreported,
                id,
                ErrorCode::Artifacts,
                Message::Text(error),
                Some(Body::Report(report)),
            )
            &&& (close matches Some(other) ==> after.1 is CloseBrowser && owed(after.0.stage).0
                == Some(other))
        }),
{
}

/// A close that came while a submission ran is carried out after it, and answered with what the
/// session leaves.
pub proof fn a_close_follows_its_submission(
    core: Core,
    id: JsonValue,
    close: JsonValue,
    fatal: bool,
    report: FlowReport,
    left: CloseResult,
    bundle: Option<String>,
    error: String,
)
    requires
        core.artifact_error is None,
    ensures
        ({
            let reporting = Session {
                core,
                stage: Stage::ReportingSubmission { id, close: Some(close), fatal, report },
            };
            let told = next_step(reporting, Event::Reported(Ok(())));
            let closing = next_step(told.0, Event::Written(true));
            let publishing = next_step(closing.0, Event::Closed(Ok(left)));
            let last = next_step(publishing.0, Event::Published(Ok((bundle, left))));
            &&& sent(told.1)->0.id == id
            &&& closing.1 is CloseBrowser
            &&& publishing.1 == Action::PublishClose(left)
            &&& sent(last.1)->0.id == close
            &&& sent(last.1)->0.outcome == Outcome::Success(
                Body::ClosedWithBundle { bundle, close: left },
            )
            &&& next_step(last.0, Event::Written(true)).1 is ShutDown
            &&& gives_up(
                next_step(closing.0, Event::Closed(Err(error))),
                close,
                ErrorCode::Browser,
                Message::Text(error),
                None,
            )
            &&& gives_up(
                next_step(publishing.0, Event::Published(Err(error))),
                close,
                ErrorCode::Artifacts,
                Message::Text(error),
                None,
            )
        }),
{
}

/// A close is answered with what the session leaves, and then the browser is shut down.
pub proof fn a_close_is_carried_out(
    session: Session,
    request: Request,
    pending: Option<PendingDialog>,
    latest: u64,
    left: CloseResult,
    published: CloseResult,
    bundle: Option<String>,
    error: String,
)
    requires
        session.stage is Reading,
        request.command is Close,
        session.core.artifact_error is None,
    ensures
        ({
            let closing = asked(session, request, pending, latest);
            let publishing = next_step(closing.0, Event::Closed(Ok(left)));
            let last = next_step(publishing.0, Event::Published(Ok((bundle, published))));
            let shutting = next_step(last.0, Event::Written(true));
            &&& closing.1 is CloseBrowser
            &&& publishing.1 == Action::PublishClose(left)
            &&& sent(last.1)->0.id == request.id
            &&& sent(last.1)->0.outcome == Outcome::Success(
                Body::ClosedWithBundle { bundle, close: published },
            )
            &&& shutting.1 is ShutDown
            &&& next_step(shutting.0, Event::ShutDown(true)).1 == Action::Finish(session.core.exit)
            &&& next_step(shutting.0, Event::ShutDown(false)).1 == Action::Finish(
                ExitCode::Infrastructure,
            )
            &&& gives_up(
                next_step(closing.0, Event::Closed(Err(error))),
                request.id,
                ErrorCode::Browser,
                Message::Text(error),
                None,
            )
            &&& gives_up(
                next_step(publishing.0, Event::Published(Err(error))),
                request.id,
                ErrorCode::Artifacts,
                Message::Text(error),
                None,
            )
        }),
{
}

/// At the end of its input a session closes, publishes what it leaves and shuts down. Whatever fails on
/// the way is an infrastructure failure.
pub proof fn the_end_of_input_ends_a_session(
    session: Session,
    left: CloseResult,
    published: (Option<String>, CloseResult),
    error: String,
)
    requires
        session.stage is Reading,
        session.core.open,
        session.core.artifact_error is None,
    ensures
        ({
            let closing = next_step(session, Event::Input(Input::Closed));
            let failing = next_step(session, Event::Input(Input::Failed));
            let publishing = next_step(closing.0, Event::Closed(Ok(left)));
            let last = next_step(publishing.0, Event::Published(Ok(published)));
            let unclosed = next_step(closing.0, Event::Closed(Err(error)));
            let unpublished = next_step(publishing.0, Event::Published(Err(error)));
            &&& closing.1 is CloseBrowser
            &&& failing.1 is CloseBrowser
            &&& failing.0.core.exit == ExitCode::Infrastructure
            &&& publishing.1 == Action::PublishClose(left)
            &&& last.1 is ShutDown
            &&& next_step(last.0, Event::ShutDown(true)).1 == Action::Finish(session.core.exit)
            &&& unclosed.1 is ShutDown
            &&& unclosed.0.core.exit == ExitCode::Infrastructure
            &&& unpublished.1 is ShutDown
            &&& unpublished.0.core.exit == ExitCode::Infrastructure
        }),
{
}

/// An inspection shows what was asked for, under a number of its own.
pub proof fn an_inspection_is_answered_with_what_was_seen(
    session: Session,
    request: Request,
    pending: Option<PendingDialog>,
    latest: u64,
    inspection: SessionInspection,
    error: String,
)
    requires
        session.stage is Reading,
        request.command is Inspect,
        session.core.inspections < u64::MAX,
    ensures
        ({
            let first = asked(session, request, pending, latest);
            let number = (session.core.inspections + 1) as u64;
            if session.core.open {
                &&& first.1 == (Action::Inspect {
                    accessibility: request.command->Inspect_accessibility,
                    screenshot: if request.command->Inspect_screenshot {
                        Some(number)
                    } else {
                        None
                    },
                })
                &&& first.0.core.inspections == number
                &&& answers(
                    first.0,
                    next_step(first.0, Event::Inspected(Ok(inspection))),
                    request.id,
                    Outcome::Success(Body::Inspection(inspection)),
                )
                &&& gives_up(
                    next_step(first.0, Event::Inspected(Err(error))),
                    request.id,
                    ErrorCode::Browser,
                    Message::Text(error),
                    None,
                )
            } else {
                answers(
                    session,
                    first,
                    request.id,
                    plain_refusal(ErrorCode::NotStarted, Message::NotStarted),
                )
            }
        }),
{
}

/// An action is prepared, compiled, done, put on record and answered with what came of it. A reference
/// is matched first, and an address that changed is put on record too.
pub proof fn an_action_is_done_and_reported(
    session: Session,
    request: Request,
    latest: u64,
    action: PreparedAction,
    before: Option<String>,
    result: InteractiveStepResult,
    pending: Option<PendingDialog>,
    elapsed_ms: u64,
    newest: u64,
)
    requires
        session.stage is Reading,
        request.command is Act,
    ensures
        ({
            let first = asked(session, request, None, latest);
            let second = next_step(first.0, Event::Prepared(Ok(action)));
            let third = next_step(second.0, Event::ActionCompiled(Ok(())));
            let fourth = if action.backend_node_id is Some {
                next_step(third.0, Event::Matched { result: Ok(true), latest: newest })
            } else {
                third
            };
            let fifth = next_step(fourth.0, Event::UrlRead(before));
            let sixth = next_step(fifth.0, Event::Acted(Ok(result)));
            let seventh = next_step(sixth.0, Event::Logged(Ok(())));
            let moved = result.url@.len() > 0 && (before is None || before->0@ != result.url@);
            let eighth = if moved {
                next_step(seventh.0, Event::Logged(Ok(())))
            } else {
                seventh
            };
            let last = next_step(eighth.0, Event::Observed { pending, elapsed_ms });
            &&& first.1 == Action::PrepareAction(request.command->Act_action)
            &&& second.1 is CompileAction
            &&& second.0.stage->CompilingAction_action == action
            &&& (action.backend_node_id matches Some(node) ==> third.1 == Action::MatchReference(
                node,
            ))
            &&& fourth.1 is ReadUrl
            &&& fifth.1 is Act
            &&& sixth.1 is LogStep
            &&& sixth.0.stage is LoggingAction
            &&& sixth.0.stage->LoggingAction_action == action
            &&& sixth.0.stage->LoggingAction_result == Ok::<
                InteractiveStepResult,
                InteractiveStepError,
            >(result)
            &&& (moved ==> seventh.1 == Action::Log(Note::Navigation(result.url)))
            &&& eighth.1 is Observe
            &&& answers(
                eighth.0,
                last,
                request.id,
                Outcome::Success(Body::Acted { action, result, pending, elapsed_ms }),
            )
        }),
{
}

/// What goes wrong with an action is told, and only what cannot be put on record ends the session.
pub proof fn actions_tell_what_went_wrong(
    core: Core,
    id: JsonValue,
    action: PreparedAction,
    before: Option<String>,
    result: Result<InteractiveStepResult, InteractiveStepError>,
    done: InteractiveStepResult,
    refusal: CommandError,
    failure: InteractiveStepError,
    error: String,
    latest: u64,
)
    ensures
        ({
            let preparing = Session { core, stage: Stage::Preparing { id } };
            let compiling = Session { core, stage: Stage::CompilingAction { id, action } };
            let matching = Session { core, stage: Stage::Matching { id, action } };
            let acting = Session { core, stage: Stage::Acting { id, action, url_before: before } };
            let logging = Session {
                core,
                stage: Stage::LoggingAction { id, action, url_before: before, result },
            };
            let moving = Session {
                core,
                stage: Stage::LoggingNavigation { id, action, result: done },
            };
            let acted = next_step(acting, Event::Acted(Err(failure)));
            &&& answers(
                preparing,
                next_step(preparing, Event::Prepared(Err(refusal))),
                id,
                Outcome::Error {
                    code: refusal.code,
                    message: refusal.message,
                    details: refusal.details,
                },
            )
            &&& answers(
                compiling,
                next_step(compiling, Event::ActionCompiled(Err(error))),
                id,
                plain_refusal(ErrorCode::Validation, Message::Text(error)),
            )
            &&& answers(
                matching,
                next_step(matching, Event::Matched { result: Ok(false), latest }),
                id,
                Outcome::Error {
                    code: ErrorCode::StaleReference,
                    message: Message::ReferenceLost,
                    details: Some(Body::LatestSnapshot(latest)),
                },
            )
            &&& answers(
                matching,
                next_step(matching, Event::Matched { result: Err(error), latest }),
                id,
                plain_refusal(ErrorCode::ActionFailed, Message::Text(error)),
            )
            &&& acted.1 is LogStep
            &&& answers(
                acted.0,
                next_step(acted.0, Event::Logged(Ok(()))),
                id,
                Outcome::Error {
                    code: ErrorCode::ActionFailed,
                    message: Message::Text(failure.message),
                    details: Some(Body::StepFailure(failure)),
                },
            )
            &&& gives_up(
                next_step(logging, Event::Logged(Err(error))),
                id,
                ErrorCode::Artifacts,
                Message::Text(error),
                None,
            )
            &&& gives_up(
                next_step(moving, Event::Logged(Err(error))),
                id,
                ErrorCode::Artifacts,
                Message::Text(error),
                None,
            )
        }),
{
}

/// A scroll goes as far as was asked, is put on record, and is answered with where the page stands
/// then. One that goes nowhere is refused.
pub proof fn a_scroll_goes_as_far_as_asked(
    session: Session,
    request: Request,
    latest: u64,
    done: InteractiveStepResult,
    failure: InteractiveStepError,
    scroll: JsonValue,
    error: String,
)
    requires
        session.stage is Reading,
        request.command is Scroll,
    ensures
        ({
            let x = request.command->Scroll_x;
            let y = request.command->Scroll_y;
            let first = asked(session, request, None, latest);
            let second = next_step(first.0, Event::Acted(Ok(done)));
            let third = next_step(second.0, Event::Logged(Ok(())));
            let failed = next_step(first.0, Event::Acted(Err(failure)));
            if x == 0 && y == 0 {
                answers(
                    session,
                    first,
                    request.id,
                    plain_refusal(ErrorCode::Validation, Message::EmptyScroll),
                )
            } else {
                &&& first.1 == (Action::Scroll { x, y })
                &&& second.1 is LogStep
                &&& second.0.stage == (Stage::LoggingScroll { id: request.id, x, y, result: Ok(done) })
                &&& third.1 is ReadScroll
                &&& answers(
                    third.0,
                    next_step(third.0, Event::ScrollRead(Ok(scroll))),
                    request.id,
                    Outcome::Success(Body::Scroll(scroll)),
                )
                &&& answers(
                    third.0,
                    next_step(third.0, Event::ScrollRead(Err(error))),
                    request.id,
                    plain_refusal(ErrorCode::Browser, Message::Text(error)),
                )
                &&& failed.1 is LogStep
                &&& answers(
                    failed.0,
                    next_step(failed.0, Event::Logged(Ok(()))),
                    request.id,
                    plain_refusal(ErrorCode::ActionFailed, Message::Text(failure.message)),
                )
                &&& gives_up(
                    next_step(second.0, Event::Logged(Err(error))),
                    request.id,
                    ErrorCode::Artifacts,
                    Message::Text(error),
                    None,
                )
            }
        }),
{
}

/// A dialog is answered as the command says, and the answer is put on record. A text goes only with an
/// acceptance.
pub proof fn a_dialog_is_answered_as_asked(
    session: Session,
    request: Request,
    pending: Option<PendingDialog>,
    latest: u64,
    dialog: PendingDialog,
    error: String,
)
    requires
        session.stage is Reading,
        request.command is Dialog,
    ensures
        ({
            let action = request.command->Dialog_action;
            let text = request.command->Dialog_text;
            let first = asked(session, request, pending, latest);
            let second = next_step(first.0, Event::Answered(Ok(dialog)));
            if text is Some && action == DialogChoice::Dismiss {
                answers(
                    session,
                    first,
                    request.id,
                    plain_refusal(ErrorCode::Validation, Message::DialogText),
                )
            } else {
                &&& first.1 == (Action::AnswerDialog { action, text })
                &&& second.1 == Action::Log(Note::Dialog { action, text })
                &&& answers(
                    second.0,
                    next_step(second.0, Event::Logged(Ok(()))),
                    request.id,
                    Outcome::Success(Body::Handled(dialog)),
                )
                &&& answers(
                    first.0,
                    next_step(first.0, Event::Answered(Err(error))),
                    request.id,
                    plain_refusal(ErrorCode::Validation, Message::Text(error)),
                )
                &&& answers(
                    second.0,
                    next_step(second.0, Event::Logged(Err(error))),
                    request.id,
                    plain_refusal(ErrorCode::Artifacts, Message::Text(error)),
                )
            }
        }),
{
}

/// An export is made under the name that was asked for, after the report was written, and an output is
/// looked up under its name. Each is answered with what was found.
pub proof fn exports_and_outputs_are_answered(
    session: Session,
    request: Request,
    pending: Option<PendingDialog>,
    latest: u64,
    value: JsonValue,
    refusal: CommandError,
    error: String,
)
    requires
        session.stage is Reading,
        session.core.artifact_error is None,
    ensures
        ({
            let first = asked(session, request, pending, latest);
            match request.command {
                SessionCommand::Export { name } => {
                    let second = next_step(first.0, Event::Reported(Ok(())));
                    &&& first.1 is WriteReport
                    &&& second.1 == Action::Export(name)
                    &&& answers(
                        second.0,
                        next_step(second.0, Event::Exported(Ok(value))),
                        request.id,
                        Outcome::Success(Body::Value(value)),
                    )
                    &&& answers(
                        second.0,
                        next_step(second.0, Event::Exported(Err(refusal))),
                        request.id,
                        Outcome::Error {
                            code: refusal.code,
                            message: refusal.message,
                            details: refusal.details,
                        },
                    )
                    &&& gives_up(
                        next_step(first.0, Event::Reported(Err(error))),
                        request.id,
                        ErrorCode::Artifacts,
                        Message::Text(error),
                        None,
                    )
                },
                SessionCommand::Output { name } => {
                    &&& first.1 == Action::LookUp(name)
                    &&& answers(
                        first.0,
                        next_step(first.0, Event::Found(Some(value))),
                        request.id,
                        Outcome::Success(Body::Output { name, value }),
                    )
                    &&& answers(
                        first.0,
                        next_step(first.0, Event::Found(None)),
                        request.id,
                        plain_refusal(
                            ErrorCode::OutputNotFound,
                            Message::OutputUnavailable(name),
                        ),
                    )
                },
                SessionCommand::Cancel => answers(
                    session,
                    first,
                    request.id,
                    plain_refusal(ErrorCode::NotActive, Message::NotActive),
                ),
                _ => true,
            }
        }),
{
}

/// A line that is no command is refused, under the identifier that could be read, whether a submission
/// runs or not.
pub proof fn lines_that_are_no_command_are_refused(session: Session, id: JsonValue, message: String)
    requires
        listens(session.stage),
    ensures
        ({
            let malformed = next_step(session, Event::Input(Input::Malformed { id, message }));
            let large = next_step(session, Event::Input(Input::TooLarge));
            let refusal = plain_refusal(ErrorCode::InvalidCommand, Message::Text(message));
            let overflow = Outcome::Error {
                code: ErrorCode::EnvelopeTooLarge,
                message: Message::EnvelopeTooLarge,
                details: Some(Body::MaxBytes),
            };
            &&& sent(malformed.1)->0.id == id
            &&& sent(malformed.1)->0.outcome == refusal
            &&& sent(large.1)->0.id == JsonValue::Null
            &&& sent(large.1)->0.outcome == overflow
            &&& malformed.0.core.exit == session.core.exit
            &&& large.0.core.exit == session.core.exit
            &&& (session.stage matches Stage::Submitting(run) ==> malformed.0.stage
                == Stage::ReplyingWhileRunning(run) && large.0.stage == Stage::ReplyingWhileRunning(
                run,
            ) && malformed.1->ReplyWhileRunning_cancel == false
                && large.1->ReplyWhileRunning_cancel == false)
            &&& (session.stage is Reading ==> next_step(
                malformed.0,
                Event::Written(true),
            ).1 is ReadCommand && next_step(large.0, Event::Written(true)).1 is ReadCommand)
        }),
{
}

/// A session comes up in order: the browser, its artifacts, its journal, its pages, and then the first
/// command. What fails on the way ends it.
pub proof fn a_session_comes_up_in_order(
    id: String,
    width: u32,
    height: u32,
    warnings: Vec<String>,
    error: String,
)
    ensures
        ({
            let first = started(id, width, height);
            let launched = next_step(first.0, Event::Launched(true));
            let ready = next_step(launched.0, Event::ArtifactsReady(Ok(())));
            let logged = next_step(ready.0, Event::Logged(Ok(())));
            let opened = next_step(logged.0, Event::Opened(Ok(warnings)));
            let unlaunched = next_step(first.0, Event::Launched(false));
            let unready = next_step(launched.0, Event::ArtifactsReady(Err(error)));
            let fallback = next_step(unready.0, Event::ArtifactsReady(Ok(())));
            let homeless = next_step(unready.0, Event::ArtifactsReady(Err(error)));
            let unlogged = next_step(ready.0, Event::Logged(Err(error)));
            let unopened = next_step(logged.0, Event::Opened(Err(error)));
            &&& first.1 is Launch
            &&& (width as int + 300 <= u32::MAX ==> first.1->Launch_width == width + 300)
            &&& (height as int + 200 <= u32::MAX ==> first.1->Launch_height == height + 200)
            &&& first.0.core.id == id
            &&& first.0.core.exit == ExitCode::Success
            &&& first.0.core.revision == 0
            &&& first.0.core.submissions == 0
            &&& first.0.core.inspections == 0
            &&& first.0.core.snapshots == 0
            &&& launched.1 is PrepareArtifacts
            &&& ready.1 == Action::Log(Note::Settings)
            &&& ready.0.core.artifact_error is None
            &&& logged.1 is OpenSession
            &&& opened.0.core.open
            &&& opened.1 == if warnings@.len() == 0 {
                Action::ReadCommand
            } else {
                Action::Log(Note::Warning(warnings@[0]))
            }
            &&& unlaunched.1 == Action::Finish(ExitCode::Infrastructure)
            &&& unready.1 is PrepareFallback
            &&& fallback.1 == Action::Log(Note::Settings)
            &&& fallback.0.core.artifact_error == Some(error)
            &&& homeless.1 is ShutDown
            &&& homeless.0.core.exit == ExitCode::Infrastructure
            &&& unlogged.1 is ShutDown
            &&& unlogged.0.core.exit == ExitCode::Infrastructure
            &&& unopened.1 is ShutDown
            &&& unopened.0.core.exit == ExitCode::Infrastructure
        }),
{
}

/// Every warning of the recorder goes on record before the first command is read.
pub proof fn warnings_go_on_record_one_by_one(
    core: Core,
    warnings: Vec<String>,
    at: usize,
    error: String,
)
    requires
        at < warnings@.len(),
        core.open,
    ensures
        ({
            let logging = Session { core, stage: Stage::LoggingWarnings { warnings, at } };
            let next = next_step(logging, Event::Logged(Ok(())));
            let failed = next_step(logging, Event::Logged(Err(error)));
            &&& next.1 == if at + 1 < warnings@.len() {
                Action::Log(Note::Warning(warnings@[at + 1]))
            } else {
                Action::ReadCommand
            }
            &&& (at + 1 < warnings@.len() ==> next.0.stage == (Stage::LoggingWarnings {
                warnings,
                at: (at + 1) as usize,
            }))
            &&& failed.1 is CloseBrowser
            &&& failed.0.core.exit == ExitCode::Infrastructure
            &&& next_step(failed.0, Event::Closed(Err(error))).1 is ShutDown
        }),
{
    assert(warnings@.len() == warnings.len());
}

/// Failures of a browser that is gone, of the protocol or of the recording are fatal, and no others.
pub proof fn fatal_failures_are_of_the_infrastructure(category: FailureCategory)
    ensures
        category.spec_fatal() <==> category is BrowserLaunch || category is BrowserCrash || category
            is Protocol || category is Recording,
{
}

/// A session that has ended stays as it is.
pub proof fn an_ended_session_stays_ended(session: Session, event: Event)
    requires
        session.stage is Ended,
    ensures
        next_step(session, event) == (session, Action::Ignore),
{
}

/// A submission starts with nothing against it: no close follows it, its input is open, and it is not
/// cancelled. It has the next number.
pub proof fn a_submission_starts_afresh(core: Core, id: JsonValue)
    requires
        core.submissions < u64::MAX,
    ensures
        ({
            let session = Session { core, stage: Stage::Compiling { id } };
            let (after, action) = next_step(session, Event::Compiled(Ok(true)));
            &&& action == (Action::Submit { number: (core.submissions + 1) as u64 })
            &&& after.core.submissions == core.submissions + 1
            &&& after.stage == Stage::Submitting(
                Submission { id, close: None, input_closed: false, cancelled: false },
            )
        }),
{
}

/// Nothing more is heard while a submission runs once a close was asked for or the input ended.
pub proof fn nothing_is_heard_behind_a_close(core: Core, run: Submission, input: Input)
    requires
        run.close is Some || run.input_closed,
    ensures
        ({
            let session = Session { core, stage: Stage::Submitting(run) };
            let (after, action) = next_step(session, Event::Input(input));
            &&& action is Ignore
            &&& after == session
        }),
{
}

} // verus!
