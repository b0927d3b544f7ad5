//! The run of a flow, as a machine from state and event to state and action: which step is tried
//! next, when the recording starts and stops, and what the run reports. Whoever drives it performs
//! each action in the browser and hands back what happened.

use crate::flow::RecordingControl;
use crate::report::Failure;
use crate::step_error::StepError;
use vstd::prelude::*;
use vstd::string::*;

verus! {

/// What becomes of the overlay before a step is tried.
#[derive(Debug, Clone, Copy, PartialEq, Eq, Structural)]
pub enum OverlayChange {
    Keep,
    Remove,
    Update,
}

/// What the run needs to know of a step.
#[derive(Debug, Clone, Copy, PartialEq, Eq, Structural)]
pub struct StepPlan {
    pub control: Option<RecordingControl>,
    pub retries: u32,
    pub captures_screenshot: bool,
}

/// Why the recording failed.
#[derive(Debug)]
pub enum RecordingFault {
    TimeoutTooLarge,
    Text(String),
}

/// Something that went wrong, to be told as a failure.
#[derive(Debug)]
pub enum Fault {
    TimeoutTooLarge,
    DeadlineExpired,
    BrowserLost(String),
    Step(StepError),
    Recording(RecordingFault),
    RemoveRecording { path: String, error: String },
}

/// A recording that ended in an error, and which of its files are there.
#[derive(Debug)]
pub struct VideoFinishError {
    pub error: String,
    pub partial: String,
    pub partial_exists: bool,
    pub recording: Option<String>,
    pub recording_exists: bool,
}

/// How a recording ended.
#[derive(Debug)]
pub enum VideoFinish {
    Done(Option<String>),
    Broken(VideoFinishError),
}

/// How the start of a recording went.
#[derive(Debug)]
pub enum VideoStart {
    Ready { recording: bool },
    Cancelled(Option<VideoFinish>),
    Failed(String),
}

/// How one try of a step went.
#[derive(Debug)]
pub enum Attempt {
    Done { screenshot: Option<String> },
    Failed(StepError),
    Expired,
    NoDeadline,
    BrowserLost(String),
    Cancelled,
}

/// Whether the conditions of a recording step hold.
#[derive(Debug)]
pub enum ControlCheck {
    Matches(bool),
    Failed(StepError),
    Expired,
    NoDeadline,
    BrowserLost(String),
    Cancelled,
}

/// What happened. Where a run looks for its cancellation, the event says whether it was asked for.
#[derive(Debug)]
#[allow(inconsistent_fields)]
pub enum RunEvent {
    VideoStarted { start: VideoStart, cancelled: bool },
    NoRecordingDeadline,
    Checked { check: ControlCheck, now: u128 },
    Stopped { finish: Option<VideoFinish>, cancelled: bool, stopped_at: u128 },
    Attempted { outcome: Attempt, now: u128 },
    Kept,
    VisualPublished(Result<(), StepError>),
    Captured(Option<String>),
    Described(Failure),
    VideoFinished(VideoFinish),
    OverlayClosed,
    Removed(Result<(), String>),
}

/// What to do next.
#[derive(Debug)]
#[allow(inconsistent_fields)]
pub enum RunAction {
    Ignore,
    StartVideo,
    CheckControl { step: usize },
    StartVideoForStep { step: usize },
    StopVideoForStep { step: usize, finish: bool },
    Attempt { step: usize, attempt: u32, overlay: OverlayChange },
    KeepStep { screenshot: Option<String>, refresh_overlay: bool },
    PublishVisual,
    CaptureFailure { remove_overlay: bool },
    Describe { step: Option<usize>, fault: Fault },
    FinishVideo { settle: bool, failed: bool, stop_at: Option<u128> },
    CloseOverlay,
    RemoveRecording(String),
    Finish,
}

/// Where the run stands.
#[derive(Debug)]
#[allow(inconsistent_fields)]
pub enum RunStage {
    StartingVideo,
    CheckingControl,
    StartingOnDemand,
    StoppingOnDemand,
    Attempting { attempt: u32 },
    KeepingStep,
    PublishingVisual { error: StepError },
    DescribingSecondary { error: StepError },
    CapturingFailure { fault: Fault },
    Describing,
    FinishingVideo,
    ClosingOverlay,
    DescribingRecording,
    CapturingLate,
    RemovingRecording { path: String },
    DescribingRemoval,
    Finished,
}

/// What the run keeps at every stage.
#[derive(Debug)]
pub struct RunCore {
    pub plan: Vec<StepPlan>,
    pub manual: bool,
    pub retains_on_failure: bool,
    pub overlays: bool,
    pub at: usize,
    pub interrupted: bool,
    pub recording: bool,
    pub stop_at: Option<u128>,
    pub recording_error: Option<RecordingFault>,
    pub recording_path: Option<String>,
    pub partial_path: Option<String>,
    pub failure_screenshot: Option<String>,
    pub visual_actual: Option<String>,
    pub visual_diff: Option<String>,
    pub primary: Option<Failure>,
    pub secondary: Option<Failure>,
    pub recording_failure: Option<Failure>,
    pub removal_failure: Option<Failure>,
}

/// The run of a flow.
#[derive(Debug)]
pub struct FlowRun {
    pub core: RunCore,
    pub stage: RunStage,
}

/// Whether some failure is on record.
pub open spec fn has_failure(core: RunCore) -> bool {
    core.primary is Some || core.secondary is Some || core.recording_failure is Some
        || core.removal_failure is Some
}

fn any_failure(core: &RunCore) -> (any: bool)
    ensures
        any == has_failure(*core),
{
    core.primary.is_some() || core.secondary.is_some() || core.recording_failure.is_some()
        || core.removal_failure.is_some()
}

/// Whether the overlay is drawn: only while a recording runs.
pub open spec fn overlay_active(core: RunCore) -> bool {
    core.recording && core.overlays
}

fn overlay_on(core: &RunCore) -> (active: bool)
    ensures
        active == overlay_active(*core),
{
    core.recording && core.overlays
}

/// A stage and what to do there.
pub open spec fn run_standing(
    core: RunCore,
    stage: RunStage,
    action: RunAction,
) -> (FlowRun, RunAction) {
    (FlowRun { core, stage }, action)
}

fn stay(core: RunCore, stage: RunStage, action: RunAction) -> (next: (FlowRun, RunAction))
    ensures
        next == run_standing(core, stage, action),
{
    (FlowRun { core, stage }, action)
}

/// The run once a recording has ended: its files are kept, and its error is noted.
pub open spec fn video_finish_applied(core: RunCore, finish: VideoFinish) -> RunCore {
    match finish {
        VideoFinish::Done(path) => match path {
            Some(path) => RunCore { recording_path: Some(path), ..core },
            None => core,
        },
        VideoFinish::Broken(broken) => {
            let recording_path = if broken.recording_exists && broken.recording is Some {
                broken.recording
            } else {
                core.recording_path
            };
            let partial_path = if broken.partial_exists {
                Some(broken.partial)
            } else {
                core.partial_path
            };
            RunCore {
                recording_path,
                partial_path,
                recording_error: Some(RecordingFault::Text(broken.error)),
                ..core
            }
        },
    }
}

/// The run once a recording has ended: its files are kept, and its error is noted.
pub fn apply_video_finish(core: RunCore, finish: VideoFinish) -> (next: RunCore)
    ensures
        next == video_finish_applied(core, finish),
{
    match finish {
        VideoFinish::Done(path) => match path {
            Some(path) => RunCore { recording_path: Some(path), ..core },
            None => core,
        },
        VideoFinish::Broken(broken) => {
            let recording_path = if broken.recording_exists && broken.recording.is_some() {
                broken.recording
            } else {
                core.recording_path
            };
            let partial_path = if broken.partial_exists {
                Some(broken.partial)
            } else {
                core.partial_path
            };
            RunCore {
                recording_path,
                partial_path,
                recording_error: Some(RecordingFault::Text(broken.error)),
                ..core
            }
        },
    }
}

/// A fault of the step at hand is told; it ends the run.
pub open spec fn described(core: RunCore, fault: Fault) -> (FlowRun, RunAction) {
    let step = Some(core.at);
    run_standing(core, RunStage::Describing, RunAction::Describe { step, fault })
}

fn describe(core: RunCore, fault: Fault) -> (next: (FlowRun, RunAction))
    ensures
        next == described(core, fault),
{
    let step = Some(core.at);
    stay(core, RunStage::Describing, RunAction::Describe { step, fault })
}

/// The page is captured as the failed step left it.
pub open spec fn failure_captured(core: RunCore, fault: Fault) -> (FlowRun, RunAction) {
    let remove_overlay = overlay_active(core);
    run_standing(
        core,
        RunStage::CapturingFailure { fault },
        RunAction::CaptureFailure { remove_overlay },
    )
}

fn capture_failure(core: RunCore, fault: Fault) -> (next: (FlowRun, RunAction))
    ensures
        next == failure_captured(core, fault),
{
    let remove_overlay = overlay_on(&core);
    stay(
        core,
        RunStage::CapturingFailure { fault },
        RunAction::CaptureFailure { remove_overlay },
    )
}

/// A step failed for good. Pictures of a failed comparison are published first.
pub open spec fn step_failed(core: RunCore, fault: Fault) -> (FlowRun, RunAction) {
    match fault {
        Fault::Step(error) => if error.visual_artifacts is Some {
            run_standing(core, RunStage::PublishingVisual { error }, RunAction::PublishVisual)
        } else {
            failure_captured(core, Fault::Step(error))
        },
        fault => failure_captured(core, fault),
    }
}

fn fail_step(core: RunCore, fault: Fault) -> (next: (FlowRun, RunAction))
    ensures
        next == step_failed(core, fault),
{
    match fault {
        Fault::Step(error) => if error.visual_artifacts.is_some() {
            stay(core, RunStage::PublishingVisual { error }, RunAction::PublishVisual)
        } else {
            capture_failure(core, Fault::Step(error))
        },
        fault => capture_failure(core, fault),
    }
}

/// A step is tried.
pub open spec fn step_attempted(core: RunCore, attempt: u32) -> (FlowRun, RunAction) {
    let step = core.at;
    let overlay = if overlay_active(core) {
        if core.plan@[step as int].captures_screenshot {
            OverlayChange::Remove
        } else {
            OverlayChange::Update
        }
    } else {
        OverlayChange::Keep
    };
    run_standing(
        core,
        RunStage::Attempting { attempt },
        RunAction::Attempt { step, attempt, overlay },
    )
}

fn attempt_step(core: RunCore, attempt: u32) -> (next: (FlowRun, RunAction))
    requires
        core.at < core.plan.len(),
    ensures
        next == step_attempted(core, attempt),
{
    let step: usize = core.at;
    let overlay = if overlay_on(&core) {
        if core.plan[step].captures_screenshot {
            OverlayChange::Remove
        } else {
            OverlayChange::Update
        }
    } else {
        OverlayChange::Keep
    };
    stay(
        core,
        RunStage::Attempting { attempt },
        RunAction::Attempt { step, attempt, overlay },
    )
}

/// The overlay is taken down.
pub open spec fn overlay_closing(core: RunCore) -> (FlowRun, RunAction) {
    run_standing(core, RunStage::ClosingOverlay, RunAction::CloseOverlay)
}

fn close_overlay(core: RunCore) -> (next: (FlowRun, RunAction))
    ensures
        next == overlay_closing(core),
{
    stay(core, RunStage::ClosingOverlay, RunAction::CloseOverlay)
}

/// No further step is tried. A recording that runs is finished.
pub open spec fn run_concluded(core: RunCore) -> (FlowRun, RunAction) {
    if core.recording {
        let failed = core.primary is Some || core.interrupted;
        let stop_at = core.stop_at;
        run_standing(
            core,
            RunStage::FinishingVideo,
            RunAction::FinishVideo { settle: !failed, failed, stop_at },
        )
    } else {
        overlay_closing(core)
    }
}

fn conclude(core: RunCore) -> (next: (FlowRun, RunAction))
    ensures
        next == run_concluded(core),
{
    if core.recording {
        let failed = core.primary.is_some() || core.interrupted;
        let stop_at = core.stop_at;
        stay(
            core,
            RunStage::FinishingVideo,
            RunAction::FinishVideo { settle: !failed, failed, stop_at },
        )
    } else {
        close_overlay(core)
    }
}

/// The step at hand is begun, unless the run was interrupted or is through.
pub open spec fn step_chosen(core: RunCore) -> (FlowRun, RunAction) {
    if core.interrupted || core.at >= core.plan@.len() {
        run_concluded(core)
    } else {
        let step = core.at;
        if core.plan@[step as int].control is Some {
            run_standing(core, RunStage::CheckingControl, RunAction::CheckControl { step })
        } else {
            step_attempted(core, 0)
        }
    }
}

fn next_step(core: RunCore) -> (next: (FlowRun, RunAction))
    ensures
        next == step_chosen(core),
{
    if core.interrupted || core.at >= core.plan.len() {
        conclude(core)
    } else {
        let step: usize = core.at;
        if core.plan[step].control.is_some() {
            stay(core, RunStage::CheckingControl, RunAction::CheckControl { step })
        } else {
            attempt_step(core, 0)
        }
    }
}

/// The run goes on to the next step.
pub open spec fn run_advanced(core: RunCore) -> (FlowRun, RunAction) {
    let at = (core.at + 1) as usize;
    step_chosen(RunCore { at, ..core })
}

fn advance(core: RunCore) -> (next: (FlowRun, RunAction))
    requires
        core.at < core.plan.len(),
    ensures
        next == run_advanced(core),
{
    let at: usize = core.at + 1;
    next_step(RunCore { at, ..core })
}

/// A recording step is done. An interruption or an error of the recording ends the run.
pub open spec fn control_done(core: RunCore, cancelled: bool) -> (FlowRun, RunAction) {
    let interrupted = core.interrupted || cancelled;
    if interrupted {
        run_concluded(RunCore { interrupted, ..core })
    } else {
        match core.recording_error {
            Some(fault) => described(
                RunCore { recording_error: None, ..core },
                Fault::Recording(fault),
            ),
            None => run_advanced(core),
        }
    }
}

fn after_control(core: RunCore, cancelled: bool) -> (next: (FlowRun, RunAction))
    requires
        core.at < core.plan.len(),
    ensures
        next == control_done(core, cancelled),
{
    let interrupted = core.interrupted || cancelled;
    if interrupted {
        conclude(RunCore { interrupted, ..core })
    } else {
        match core.recording_error {
            Some(fault) => describe(
                RunCore { recording_error: None, ..core },
                Fault::Recording(fault),
            ),
            None => advance(core),
        }
    }
}

/// The recording of the whole run has started, or not.
pub open spec fn recording_started(
    core: RunCore,
    start: VideoStart,
    cancelled: bool,
) -> (FlowRun, RunAction) {
    match start {
        VideoStart::Ready { recording } => step_chosen(
            RunCore { recording, interrupted: cancelled, ..core },
        ),
        VideoStart::Cancelled(finish) => {
            let stopped = RunCore { interrupted: true, ..core };
            match finish {
                Some(finish) => step_chosen(video_finish_applied(stopped, finish)),
                None => step_chosen(stopped),
            }
        },
        VideoStart::Failed(error) => step_chosen(
            RunCore {
                recording_error: Some(RecordingFault::Text(error)),
                interrupted: cancelled,
                ..core
            },
        ),
    }
}

fn start_recording(
    core: RunCore,
    start: VideoStart,
    cancelled: bool,
) -> (next: (FlowRun, RunAction))
    ensures
        next == recording_started(core, start, cancelled),
{
    match start {
        VideoStart::Ready { recording } => next_step(
            RunCore { recording, interrupted: cancelled, ..core },
        ),
        VideoStart::Cancelled(finish) => {
            let stopped = RunCore { interrupted: true, ..core };
            match finish {
                Some(finish) => next_step(apply_video_finish(stopped, finish)),
                None => next_step(stopped),
            }
        },
        VideoStart::Failed(error) => next_step(
            RunCore {
                recording_error: Some(RecordingFault::Text(error)),
                interrupted: cancelled,
                ..core
            },
        ),
    }
}

/// What the conditions of a recording step lead to.
pub open spec fn control_checked(core: RunCore, check: ControlCheck, now: u128) -> (
    FlowRun,
    RunAction,
) {
    let step = core.at;
    match check {
        ControlCheck::NoDeadline => described(core, Fault::TimeoutTooLarge),
        ControlCheck::Cancelled => run_concluded(
            RunCore { interrupted: true, stop_at: Some(now), ..core },
        ),
        ControlCheck::BrowserLost(error) => described(core, Fault::BrowserLost(error)),
        ControlCheck::Failed(error) => described(core, Fault::Step(error)),
        ControlCheck::Expired => described(core, Fault::DeadlineExpired),
        ControlCheck::Matches(matches) => if !matches {
            run_advanced(core)
        } else {
            match core.plan@[step as int].control {
                Some(RecordingControl::Stop) => {
                    let finish = core.recording;
                    run_standing(
                        core,
                        RunStage::StoppingOnDemand,
                        RunAction::StopVideoForStep { step, finish },
                    )
                },
                _ => run_standing(
                    core,
                    RunStage::StartingOnDemand,
                    RunAction::StartVideoForStep { step },
                ),
            }
        },
    }
}

fn check_control(core: RunCore, check: ControlCheck, now: u128) -> (next: (FlowRun, RunAction))
    requires
        core.at < core.plan.len(),
    ensures
        next == control_checked(core, check, now),
{
    let step: usize = core.at;
    match check {
        ControlCheck::NoDeadline => describe(core, Fault::TimeoutTooLarge),
        ControlCheck::Cancelled => conclude(
            RunCore { interrupted: true, stop_at: Some(now), ..core },
        ),
        ControlCheck::BrowserLost(error) => describe(core, Fault::BrowserLost(error)),
        ControlCheck::Failed(error) => describe(core, Fault::Step(error)),
        ControlCheck::Expired => describe(core, Fault::DeadlineExpired),
        ControlCheck::Matches(matches) => if !matches {
            advance(core)
        } else {
            match core.plan[step].control {
                Some(RecordingControl::Stop) => {
                    let finish = core.recording;
                    stay(
                        core,
                        RunStage::StoppingOnDemand,
                        RunAction::StopVideoForStep { step, finish },
                    )
                },
                _ => stay(
                    core,
                    RunStage::StartingOnDemand,
                    RunAction::StartVideoForStep { step },
                ),
            }
        },
    }
}

/// A run whose recording ends now.
pub open spec fn ended_at(core: RunCore, now: u128) -> RunCore {
    RunCore { stop_at: Some(now), ..core }
}

fn end_at(core: RunCore, now: u128) -> (ended: RunCore)
    ensures
        ended == ended_at(core, now),
{
    RunCore { stop_at: Some(now), ..core }
}

/// What a try of the step at hand leads to: the next step, another try, or the end. Where it is the
/// end, a recording ends with it.
pub open spec fn attempt_taken(
    core: RunCore,
    attempt: u32,
    outcome: Attempt,
    now: u128,
) -> (FlowRun, RunAction) {
    let retries = core.plan@[core.at as int].retries;
    match outcome {
        Attempt::Done { screenshot } => {
            let refresh_overlay = overlay_active(core);
            run_standing(
                core,
                RunStage::KeepingStep,
                RunAction::KeepStep { screenshot, refresh_overlay },
            )
        },
        Attempt::Cancelled => run_concluded(
            RunCore { interrupted: true, stop_at: Some(now), ..core },
        ),
        Attempt::NoDeadline => step_failed(ended_at(core, now), Fault::TimeoutTooLarge),
        Attempt::BrowserLost(error) => step_failed(ended_at(core, now), Fault::BrowserLost(error)),
        Attempt::Failed(error) => if attempt < retries {
            step_attempted(core, (attempt + 1) as u32)
        } else {
            step_failed(ended_at(core, now), Fault::Step(error))
        },
        Attempt::Expired => if attempt < retries {
            step_attempted(core, (attempt + 1) as u32)
        } else {
            step_failed(ended_at(core, now), Fault::DeadlineExpired)
        },
    }
}

fn take_attempt(core: RunCore, attempt: u32, outcome: Attempt, now: u128) -> (next: (
    FlowRun,
    RunAction,
))
    requires
        core.at < core.plan.len(),
    ensures
        next == attempt_taken(core, attempt, outcome, now),
{
    let retries: u32 = core.plan[core.at].retries;
    match outcome {
        Attempt::Done { screenshot } => {
            let refresh_overlay = overlay_on(&core);
            stay(
                core,
                RunStage::KeepingStep,
                RunAction::KeepStep { screenshot, refresh_overlay },
            )
        },
        Attempt::Cancelled => conclude(
            RunCore { interrupted: true, stop_at: Some(now), ..core },
        ),
        Attempt::NoDeadline => fail_step(end_at(core, now), Fault::TimeoutTooLarge),
        Attempt::BrowserLost(error) => fail_step(end_at(core, now), Fault::BrowserLost(error)),
        Attempt::Failed(error) => if attempt < retries {
            attempt_step(core, attempt + 1)
        } else {
            fail_step(end_at(core, now), Fault::Step(error))
        },
        Attempt::Expired => if attempt < retries {
            attempt_step(core, attempt + 1)
        } else {
            fail_step(end_at(core, now), Fault::DeadlineExpired)
        },
    }
}

/// The recording of a passing run is removed where only failures are kept.
pub open spec fn removal_considered(core: RunCore) -> (FlowRun, RunAction) {
    if core.manual && core.retains_on_failure && !has_failure(core) && !core.interrupted {
        match core.recording_path {
            Some(path) => {
                let removed = path;
                run_standing(
                    RunCore { recording_path: None, ..core },
                    RunStage::RemovingRecording { path },
                    RunAction::RemoveRecording(removed),
                )
            },
            None => run_standing(core, RunStage::Finished, RunAction::Finish),
        }
    } else {
        run_standing(core, RunStage::Finished, RunAction::Finish)
    }
}

fn consider_removal(core: RunCore) -> (next: (FlowRun, RunAction))
    ensures
        next == removal_considered(core),
{
    if core.manual && core.retains_on_failure && !any_failure(&core) && !core.interrupted {
        match core.recording_path {
            Some(path) => {
                let removed = path.clone();
                stay(
                    RunCore { recording_path: None, ..core },
                    RunStage::RemovingRecording { path },
                    RunAction::RemoveRecording(removed),
                )
            },
            None => stay(core, RunStage::Finished, RunAction::Finish),
        }
    } else {
        stay(core, RunStage::Finished, RunAction::Finish)
    }
}

/// A failure without a picture of the page gets one.
pub open spec fn late_captured(core: RunCore) -> (FlowRun, RunAction) {
    if has_failure(core) && core.failure_screenshot is None {
        run_standing(
            core,
            RunStage::CapturingLate,
            RunAction::CaptureFailure { remove_overlay: false },
        )
    } else {
        removal_considered(core)
    }
}

fn late_capture(core: RunCore) -> (next: (FlowRun, RunAction))
    ensures
        next == late_captured(core),
{
    if any_failure(&core) && core.failure_screenshot.is_none() {
        stay(
            core,
            RunStage::CapturingLate,
            RunAction::CaptureFailure { remove_overlay: false },
        )
    } else {
        consider_removal(core)
    }
}

/// An error of the recording is told as a failure of its own.
pub open spec fn tail_told(core: RunCore) -> (FlowRun, RunAction) {
    match core.recording_error {
        Some(fault) => run_standing(
            RunCore { recording_error: None, ..core },
            RunStage::DescribingRecording,
            RunAction::Describe { step: None, fault: Fault::Recording(fault) },
        ),
        None => late_captured(core),
    }
}

fn tell(core: RunCore) -> (next: (FlowRun, RunAction))
    ensures
        next == tail_told(core),
{
    match core.recording_error {
        Some(fault) => stay(
            RunCore { recording_error: None, ..core },
            RunStage::DescribingRecording,
            RunAction::Describe { step: None, fault: Fault::Recording(fault) },
        ),
        None => late_capture(core),
    }
}

/// The state and action that follow an event. An event that does not fit the stage is ignored.
pub open spec fn run_step(run: FlowRun, event: RunEvent) -> (FlowRun, RunAction) {
    let core = run.core;
    match (run.stage, event) {
        (RunStage::StartingVideo, RunEvent::VideoStarted { start, cancelled }) =>
        recording_started(core, start, cancelled),
        (RunStage::StartingVideo, RunEvent::NoRecordingDeadline) => step_chosen(
            RunCore { recording_error: Some(RecordingFault::TimeoutTooLarge), ..core },
        ),
        (RunStage::CheckingControl, RunEvent::Checked { check, now }) => if core.at < core.plan@.len() {
            control_checked(core, check, now)
        } else {
            run_standing(core, RunStage::CheckingControl, RunAction::Ignore)
        },
        (RunStage::StartingOnDemand, RunEvent::VideoStarted { start, cancelled }) =>
        if core.at >= core.plan@.len() {
            run_standing(core, RunStage::StartingOnDemand, RunAction::Ignore)
        } else {
            match start {
                VideoStart::Ready { recording } => control_done(
                    RunCore { recording, ..core },
                    cancelled,
                ),
                VideoStart::Cancelled(finish) => {
                    let stopped = RunCore { interrupted: true, ..core };
                    match finish {
                        Some(finish) => control_done(
                            video_finish_applied(stopped, finish),
                            cancelled,
                        ),
                        None => control_done(stopped, cancelled),
                    }
                },
                VideoStart::Failed(error) => {
                    let interrupted = core.interrupted || cancelled;
                    described(
                        RunCore { interrupted, ..core },
                        Fault::Recording(RecordingFault::Text(error)),
                    )
                },
            }
        },
        (RunStage::StoppingOnDemand, RunEvent::Stopped { finish, cancelled, stopped_at }) =>
        if core.at >= core.plan@.len() {
            run_standing(core, RunStage::StoppingOnDemand, RunAction::Ignore)
        } else {
            let stopped = RunCore { recording: false, stop_at: Some(stopped_at), ..core };
            match finish {
                Some(finish) => control_done(video_finish_applied(stopped, finish), cancelled),
                None => control_done(stopped, cancelled),
            }
        },
        (RunStage::Attempting { attempt }, RunEvent::Attempted { outcome, now }) =>
        if core.at < core.plan@.len() {
            attempt_taken(core, attempt, outcome, now)
        } else {
            run_standing(core, RunStage::Attempting { attempt }, RunAction::Ignore)
        },
        (RunStage::KeepingStep, RunEvent::Kept) => if core.at < core.plan@.len() {
            run_advanced(core)
        } else {
            run_standing(core, RunStage::KeepingStep, RunAction::Ignore)
        },
        (RunStage::PublishingVisual { error }, RunEvent::VisualPublished(published)) =>
        match published {
            Ok(_) => {
                let visual_actual = match error.visual_artifacts {
                    Some(artifacts) => Some(artifacts.actual_path),
                    None => None,
                };
                let visual_diff = match error.visual_artifacts {
                    Some(artifacts) => Some(artifacts.diff_path),
                    None => None,
                };
                failure_captured(
                    RunCore { visual_actual, visual_diff, ..core },
                    Fault::Step(error),
                )
            },
            Err(publication) => {
                let step = Some(core.at);
                run_standing(
                    core,
                    RunStage::DescribingSecondary { error },
                    RunAction::Describe { step, fault: Fault::Step(publication) },
                )
            },
        },
        (RunStage::DescribingSecondary { error }, RunEvent::Described(failure)) =>
        failure_captured(RunCore { secondary: Some(failure), ..core }, Fault::Step(error)),
        (RunStage::CapturingFailure { fault }, RunEvent::Captured(path)) => described(
            RunCore { failure_screenshot: path, ..core },
            fault,
        ),
        (RunStage::Describing, RunEvent::Described(failure)) => run_concluded(
            RunCore { primary: Some(failure), ..core },
        ),
        (RunStage::FinishingVideo, RunEvent::VideoFinished(finish)) => overlay_closing(
            video_finish_applied(RunCore { recording: false, ..core }, finish),
        ),
        (RunStage::ClosingOverlay, RunEvent::OverlayClosed) => tail_told(core),
        (RunStage::DescribingRecording, RunEvent::Described(failure)) => late_captured(
            RunCore { recording_failure: Some(failure), ..core },
        ),
        (RunStage::CapturingLate, RunEvent::Captured(path)) => removal_considered(
            RunCore { failure_screenshot: path, ..core },
        ),
        (RunStage::RemovingRecording { path }, RunEvent::Removed(removed)) => match removed {
            Ok(_) => run_standing(core, RunStage::Finished, RunAction::Finish),
            Err(error) => {
                let kept = path;
                run_standing(
                    RunCore { recording_path: Some(kept), ..core },
                    RunStage::DescribingRemoval,
                    RunAction::Describe {
                        step: None,
                        fault: Fault::RemoveRecording { path, error },
                    },
                )
            },
        },
        (RunStage::DescribingRemoval, RunEvent::Described(failure)) => run_standing(
            RunCore { removal_failure: Some(failure), ..core },
            RunStage::Finished,
            RunAction::Finish,
        ),
        (stage, _) => run_standing(core, stage, RunAction::Ignore),
    }
}

/// The first state and action of a run.
pub open spec fn run_started(
    plan: Vec<StepPlan>,
    manual: bool,
    retains_on_failure: bool,
    overlays: bool,
    cancelled: bool,
) -> (FlowRun, RunAction) {
    let core = RunCore {
        plan,
        manual,
        retains_on_failure,
        overlays,
        at: 0,
        interrupted: cancelled,
        recording: false,
        stop_at: None,
        recording_error: None,
        recording_path: None,
        partial_path: None,
        failure_screenshot: None,
        visual_actual: None,
        visual_diff: None,
        primary: None,
        secondary: None,
        recording_failure: None,
        removal_failure: None,
    };
    if cancelled {
        run_standing(core, RunStage::Finished, RunAction::Finish)
    } else if manual {
        step_chosen(core)
    } else {
        run_standing(core, RunStage::StartingVideo, RunAction::StartVideo)
    }
}

impl FlowRun {
    /// A run about to begin. One that is cancelled beforehand ends at once.
    pub fn start(
        plan: Vec<StepPlan>,
        manual: bool,
        retains_on_failure: bool,
        overlays: bool,
        cancelled: bool,
    ) -> (next: (FlowRun, RunAction))
        ensures
            next == run_started(plan, manual, retains_on_failure, overlays, cancelled),
    {
        let core = RunCore {
            plan,
            manual,
            retains_on_failure,
            overlays,
            at: 0,
            interrupted: cancelled,
            recording: false,
            stop_at: None,
            recording_error: None,
            recording_path: None,
            partial_path: None,
            failure_screenshot: None,
            visual_actual: None,
            visual_diff: None,
            primary: None,
            secondary: None,
            recording_failure: None,
            removal_failure: None,
        };
        if cancelled {
            stay(core, RunStage::Finished, RunAction::Finish)
        } else if manual {
            next_step(core)
        } else {
            stay(core, RunStage::StartingVideo, RunAction::StartVideo)
        }
    }

    /// Takes an event and says what to do next.
    pub fn next(self, event: RunEvent) -> (next: (FlowRun, RunAction))
        ensures
            next == run_step(self, event),
    {
        let core = self.core;
        match (self.stage, event) {
            (RunStage::StartingVideo, RunEvent::VideoStarted { start, cancelled }) =>
            start_recording(core, start, cancelled),
            (RunStage::StartingVideo, RunEvent::NoRecordingDeadline) => next_step(
                RunCore { recording_error: Some(RecordingFault::TimeoutTooLarge), ..core },
            ),
            (RunStage::CheckingControl, RunEvent::Checked { check, now }) => if core.at < core.plan.len() {
                check_control(core, check, now)
            } else {
                stay(core, RunStage::CheckingControl, RunAction::Ignore)
            },
            (RunStage::StartingOnDemand, RunEvent::VideoStarted { start, cancelled }) =>
            if core.at >= core.plan.len() {
                stay(core, RunStage::StartingOnDemand, RunAction::Ignore)
            } else {
                match start {
                    VideoStart::Ready { recording } => after_control(
                        RunCore { recording, ..core },
                        cancelled,
                    ),
                    VideoStart::Cancelled(finish) => {
                        let stopped = RunCore { interrupted: true, ..core };
                        match finish {
                            Some(finish) => after_control(
                                apply_video_finish(stopped, finish),
                                cancelled,
                            ),
                            None => after_control(stopped, cancelled),
                        }
                    },
                    VideoStart::Failed(error) => {
                        let interrupted = core.interrupted || cancelled;
                        describe(
                            RunCore { interrupted, ..core },
                            Fault::Recording(RecordingFault::Text(error)),
                        )
                    },
                }
            },
            (RunStage::StoppingOnDemand, RunEvent::Stopped { finish, cancelled, stopped_at }) =>
            if core.at >= core.plan.len() {
                stay(core, RunStage::StoppingOnDemand, RunAction::Ignore)
            } else {
                let stopped = RunCore { recording: false, stop_at: Some(stopped_at), ..core };
                match finish {
                    Some(finish) => after_control(apply_video_finish(stopped, finish), cancelled),
                    None => after_control(stopped, cancelled),
                }
            },
            (RunStage::Attempting { attempt }, RunEvent::Attempted { outcome, now }) =>
            if core.at < core.plan.len() {
                take_attempt(core, attempt, outcome, now)
            } else {
                stay(core, RunStage::Attempting { attempt }, RunAction::Ignore)
            },
            (RunStage::KeepingStep, RunEvent::Kept) => if core.at < core.plan.len() {
                advance(core)
            } else {
                stay(core, RunStage::KeepingStep, RunAction::Ignore)
            },
            (RunStage::PublishingVisual { error }, RunEvent::VisualPublished(published)) =>
            match published {
                Ok(_) => {
                    let visual_actual = match &error.visual_artifacts {
                        Some(artifacts) => Some(artifacts.actual_path.clone()),
                        None => None,
                    };
                    let visual_diff = match &error.visual_artifacts {
                        Some(artifacts) => Some(artifacts.diff_path.clone()),
                        None => None,
                    };
                    capture_failure(
                        RunCore { visual_actual, visual_diff, ..core },
                        Fault::Step(error),
                    )
                },
                Err(publication) => {
                    let step = Some(core.at);
                    stay(
                        core,
                        RunStage::DescribingSecondary { error },
                        RunAction::Describe { step, fault: Fault::Step(publication) },
                    )
                },
            },
            (RunStage::DescribingSecondary { error }, RunEvent::Described(failure)) =>
            capture_failure(RunCore { secondary: Some(failure), ..core }, Fault::Step(error)),
            (RunStage::CapturingFailure { fault }, RunEvent::Captured(path)) => describe(
                RunCore { failure_screenshot: path, ..core },
                fault,
            ),
            (RunStage::Describing, RunEvent::Described(failure)) => conclude(
                RunCore { primary: Some(failure), ..core },
            ),
            (RunStage::FinishingVideo, RunEvent::VideoFinished(finish)) => close_overlay(
                apply_video_finish(RunCore { recording: false, ..core }, finish),
            ),
            (RunStage::ClosingOverlay, RunEvent::OverlayClosed) => tell(core),
            (RunStage::DescribingRecording, RunEvent::Described(failure)) => late_capture(
                RunCore { recording_failure: Some(failure), ..core },
            ),
            (RunStage::CapturingLate, RunEvent::Captured(path)) => consider_removal(
                RunCore { failure_screenshot: path, ..core },
            ),
            (RunStage::RemovingRecording { path }, RunEvent::Removed(removed)) => match removed {
                Ok(_) => stay(core, RunStage::Finished, RunAction::Finish),
                Err(error) => {
                    let kept = path.clone();
                    stay(
                        RunCore { recording_path: Some(kept), ..core },
                        RunStage::DescribingRemoval,
                        RunAction::Describe {
                            step: None,
                            fault: Fault::RemoveRecording { path, error },
                        },
                    )
                },
            },
            (RunStage::DescribingRemoval, RunEvent::Described(failure)) => stay(
                RunCore { removal_failure: Some(failure), ..core },
                RunStage::Finished,
                RunAction::Finish,
            ),
            (stage, _) => stay(core, stage, RunAction::Ignore),
        }
    }
}

} // verus!
