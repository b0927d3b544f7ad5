//! What holds of every run of a flow, whatever its steps and its browser do.

use crate::flow_run::{
    attempt_taken, control_checked, control_done, described, ended_at, has_failure, run_advanced,
    run_concluded, run_started, run_step, step_chosen, step_failed, video_finish_applied, Attempt,
    ControlCheck, Fault, FlowRun, OverlayChange, RecordingFault, RunAction, RunCore, RunEvent,
    RunStage, StepPlan, VideoFinish, VideoFinishError, VideoStart,
};
use crate::flow::RecordingControl;
use crate::report::{status_of, Failure, FlowStatus};
use crate::run_report::failures_of;
use crate::step_error::StepError;
use vstd::prelude::*;

verus! {

/// Whether no failure is on record.
pub open spec fn clean(core: RunCore) -> bool {
    !has_failure(core)
}

/// Whether there is a reason to try no further step.
pub open spec fn through(core: RunCore) -> bool {
    core.primary is Some || core.interrupted || core.at == core.plan@.len()
}

/// What is true of a run at each stage.
pub open spec fn sound(run: FlowRun) -> bool {
    let core = run.core;
    &&& core.at <= core.plan@.len()
    &&& match run.stage {
        RunStage::StartingVideo => core.at == 0 && !core.interrupted && !core.recording && clean(
            core,
        ),
        RunStage::CheckingControl => core.at < core.plan@.len()
            && core.plan@[core.at as int].control is Some && !core.interrupted && clean(core),
        RunStage::StartingOnDemand => core.at < core.plan@.len() && !core.interrupted && clean(
            core,
        ),
        RunStage::StoppingOnDemand => core.at < core.plan@.len() && !core.interrupted && clean(
            core,
        ),
        RunStage::Attempting { attempt } => core.at < core.plan@.len()
            && core.plan@[core.at as int].control is None && attempt
            <= core.plan@[core.at as int].retries && !core.interrupted && clean(core),
        RunStage::KeepingStep => core.at < core.plan@.len() && !core.interrupted && clean(core),
        RunStage::PublishingVisual { error } => core.at < core.plan@.len() && clean(core)
            && error.visual_artifacts is Some,
        RunStage::DescribingSecondary { error } => core.at < core.plan@.len() && clean(core),
        RunStage::CapturingFailure { fault } => core.at < core.plan@.len() && core.primary is None
            && core.recording_failure is None && core.removal_failure is None,
        RunStage::Describing => core.at < core.plan@.len() && core.primary is None
            && core.recording_failure is None && core.removal_failure is None,
        RunStage::FinishingVideo => through(core) && core.recording && core.recording_failure is None
            && core.removal_failure is None,
        RunStage::ClosingOverlay => through(core) && !core.recording && core.recording_failure
            is None && core.removal_failure is None,
        RunStage::DescribingRecording => through(core) && !core.recording && core.recording_error
            is None && core.recording_failure is None && core.removal_failure is None,
        RunStage::CapturingLate => through(core) && !core.recording && core.recording_error is None
            && has_failure(core) && core.removal_failure is None,
        RunStage::RemovingRecording { path } => through(core) && !core.recording
            && core.recording_error is None && clean(core) && !core.interrupted,
        RunStage::DescribingRemoval => through(core) && !core.recording && core.recording_error
            is None && clean(core) && !core.interrupted,
        RunStage::Finished => through(core) && !core.recording && core.recording_error is None,
    }
}

/// A new run is sound.
pub proof fn a_new_run_is_sound(
    plan: Vec<StepPlan>,
    manual: bool,
    retains_on_failure: bool,
    overlays: bool,
    cancelled: bool,
)
    ensures
        sound(run_started(plan, manual, retains_on_failure, overlays, cancelled).0),
{
}

/// How far a run is from its end: the larger parts weigh more.
pub open spec fn remaining(run: FlowRun) -> (nat, nat, nat, nat) {
    let steps = (run.core.plan@.len() - run.core.at) as nat;
    match run.stage {
        RunStage::StartingVideo => (2, 0, 0, 0),
        RunStage::CheckingControl => (1, steps, 9, 0),
        RunStage::StartingOnDemand => (1, steps, 8, 0),
        RunStage::StoppingOnDemand => (1, steps, 8, 0),
        RunStage::Attempting { attempt } => (
            1,
            steps,
            7,
            (run.core.plan@[run.core.at as int].retries - attempt) as nat,
        ),
        RunStage::KeepingStep => (1, steps, 6, 0),
        RunStage::PublishingVisual { .. } => (1, steps, 5, 0),
        RunStage::DescribingSecondary { .. } => (1, steps, 4, 0),
        RunStage::CapturingFailure { .. } => (1, steps, 3, 0),
        RunStage::Describing => (1, steps, 2, 0),
        RunStage::FinishingVideo => (0, 0, 7, 0),
        RunStage::ClosingOverlay => (0, 0, 6, 0),
        RunStage::DescribingRecording => (0, 0, 5, 0),
        RunStage::CapturingLate => (0, 0, 4, 0),
        RunStage::RemovingRecording { .. } => (0, 0, 3, 0),
        RunStage::DescribingRemoval => (0, 0, 2, 0),
        RunStage::Finished => (0, 0, 0, 0),
    }
}

/// Whether one distance is less than another: the first part that differs decides.
pub open spec fn nearer(left: (nat, nat, nat, nat), right: (nat, nat, nat, nat)) -> bool {
    ||| left.0 < right.0
    ||| left.0 == right.0 && left.1 < right.1
    ||| left.0 == right.0 && left.1 == right.1 && left.2 < right.2
    ||| left.0 == right.0 && left.1 == right.1 && left.2 == right.2 && left.3 < right.3
}

/// Whether what follows is sound, keeps the plan, goes on by at most one step, comes nearer to the
/// end than `bound`, and tries only a step that is due.
pub open spec fn due(
    core: RunCore,
    bound: (nat, nat, nat, nat),
    next: (FlowRun, RunAction),
) -> bool {
    &&& sound(next.0)
    &&& next.0.core.plan == core.plan
    &&& next.0.core.at == core.at || next.0.core.at == core.at + 1
    &&& nearer(remaining(next.0), bound)
    &&& next.1 matches RunAction::Attempt { step, attempt, .. } ==> {
        &&& step == next.0.core.at < next.0.core.plan@.len()
        &&& attempt <= next.0.core.plan@[step as int].retries
        &&& next.0.core.primary is None
        &&& !next.0.core.interrupted
    }
}

proof fn concluding_is_due(core: RunCore, bound: (nat, nat, nat, nat))
    requires
        core.at <= core.plan@.len(),
        through(core),
        core.recording_failure is None,
        core.removal_failure is None,
        bound.0 >= 1,
    ensures
        due(core, bound, run_concluded(core)),
{
}

proof fn choosing_is_due(core: RunCore, bound: (nat, nat, nat, nat))
    requires
        core.at <= core.plan@.len(),
        clean(core),
        bound.0 == 2 || bound.0 == 1 && bound.1 > core.plan@.len() - core.at,
    ensures
        due(core, bound, step_chosen(core)),
{
    if core.interrupted || core.at >= core.plan@.len() {
        concluding_is_due(core, bound);
    }
}

proof fn advancing_is_due(core: RunCore, third: nat, fourth: nat)
    requires
        core.at < core.plan@.len(),
        clean(core),
    ensures
        due(core, (1, (core.plan@.len() - core.at) as nat, third, fourth), run_advanced(core)),
{
    assert(core.plan@.len() == core.plan.len());
    let at = (core.at + 1) as usize;
    assert(at == core.at + 1);
    choosing_is_due(
        RunCore { at, ..core },
        (1, (core.plan@.len() - core.at) as nat, third, fourth),
    );
}

proof fn describing_is_due(core: RunCore, fault: Fault, third: nat)
    requires
        core.at < core.plan@.len(),
        core.primary is None,
        core.recording_failure is None,
        core.removal_failure is None,
        third > 2,
    ensures
        due(core, (1, (core.plan@.len() - core.at) as nat, third, 0), described(core, fault)),
{
}

proof fn finishing_control_is_due(core: RunCore, cancelled: bool)
    requires
        core.at < core.plan@.len(),
        clean(core),
    ensures
        due(core, (1, (core.plan@.len() - core.at) as nat, 8, 0), control_done(core, cancelled)),
{
    let bound = (1nat, (core.plan@.len() - core.at) as nat, 8nat, 0nat);
    let interrupted = core.interrupted || cancelled;
    if interrupted {
        concluding_is_due(RunCore { interrupted, ..core }, bound);
    } else {
        match core.recording_error {
            Some(fault) => {
                describing_is_due(
                    RunCore { recording_error: None, ..core },
                    Fault::Recording(fault),
                    8,
                );
            },
            None => {
                advancing_is_due(core, 8, 0);
            },
        }
    }
}

proof fn checking_is_due(core: RunCore, check: ControlCheck, now: u128)
    requires
        core.at < core.plan@.len(),
        core.plan@[core.at as int].control is Some,
        clean(core),
        !core.interrupted,
    ensures
        due(core, (1, (core.plan@.len() - core.at) as nat, 9, 0), control_checked(core, check, now)),
{
    let bound = (1nat, (core.plan@.len() - core.at) as nat, 9nat, 0nat);
    match check {
        ControlCheck::NoDeadline => {
            describing_is_due(core, Fault::TimeoutTooLarge, 9);
        },
        ControlCheck::Cancelled => {
            concluding_is_due(
                RunCore { interrupted: true, stop_at: Some(now), ..core },
                bound,
            );
        },
        ControlCheck::BrowserLost(error) => {
            describing_is_due(core, Fault::BrowserLost(error), 9);
        },
        ControlCheck::Failed(error) => {
            describing_is_due(core, Fault::Step(error), 9);
        },
        ControlCheck::Expired => {
            describing_is_due(core, Fault::DeadlineExpired, 9);
        },
        ControlCheck::Matches(matches) => {
            if !matches {
                advancing_is_due(core, 9, 0);
            }
        },
    }
}

proof fn failing_is_due(core: RunCore, fault: Fault, fourth: nat)
    requires
        core.at < core.plan@.len(),
        clean(core),
    ensures
        due(core, (1, (core.plan@.len() - core.at) as nat, 7, fourth), step_failed(core, fault)),
{
}

proof fn trying_is_due(core: RunCore, attempt: u32, outcome: Attempt, now: u128)
    requires
        core.at < core.plan@.len(),
        core.plan@[core.at as int].control is None,
        attempt <= core.plan@[core.at as int].retries,
        clean(core),
        !core.interrupted,
    ensures
        due(
            core,
            (
                1,
                (core.plan@.len() - core.at) as nat,
                7,
                (core.plan@[core.at as int].retries - attempt) as nat,
            ),
            attempt_taken(core, attempt, outcome, now),
        ),
{
    let left = (core.plan@[core.at as int].retries - attempt) as nat;
    let bound = (1nat, (core.plan@.len() - core.at) as nat, 7nat, left);
    match outcome {
        Attempt::Done { screenshot } => {},
        Attempt::Cancelled => {
            concluding_is_due(
                RunCore { interrupted: true, stop_at: Some(now), ..core },
                bound,
            );
        },
        Attempt::NoDeadline => {
            failing_is_due(ended_at(core, now), Fault::TimeoutTooLarge, left);
        },
        Attempt::BrowserLost(error) => {
            failing_is_due(ended_at(core, now), Fault::BrowserLost(error), left);
        },
        Attempt::Failed(error) => {
            if attempt >= core.plan@[core.at as int].retries {
                failing_is_due(ended_at(core, now), Fault::Step(error), left);
            }
        },
        Attempt::Expired => {
            if attempt >= core.plan@[core.at as int].retries {
                failing_is_due(ended_at(core, now), Fault::DeadlineExpired, left);
            }
        },
    }
}

proof fn events_are_due(run: FlowRun, event: RunEvent)
    requires
        sound(run),
    ensures
        run_step(run, event).1 is Ignore ==> run_step(run, event).0 == run,
        !(run_step(run, event).1 is Ignore) ==> due(
            run.core,
            remaining(run),
            run_step(run, event),
        ),
{
    let core = run.core;
    match (run.stage, event) {
        (RunStage::StartingVideo, RunEvent::VideoStarted { start, cancelled }) => match start {
            VideoStart::Ready { recording } => {
                choosing_is_due(
                    RunCore { recording, interrupted: cancelled, ..core },
                    remaining(run),
                );
            },
            VideoStart::Cancelled(finish) => {
                let stopped = RunCore { interrupted: true, ..core };
                match finish {
                    Some(finish) => {
                        choosing_is_due(video_finish_applied(stopped, finish), remaining(run));
                    },
                    None => {
                        choosing_is_due(stopped, remaining(run));
                    },
                }
            },
            VideoStart::Failed(error) => {
                choosing_is_due(
                    RunCore {
                        recording_error: Some(RecordingFault::Text(error)),
                        interrupted: cancelled,
                        ..core
                    },
                    remaining(run),
                );
            },
        },
        (RunStage::StartingVideo, RunEvent::NoRecordingDeadline) => {
            choosing_is_due(
                RunCore { recording_error: Some(RecordingFault::TimeoutTooLarge), ..core },
                remaining(run),
            );
        },
        (RunStage::CheckingControl, RunEvent::Checked { check, now }) => {
            checking_is_due(core, check, now);
        },
        (RunStage::StartingOnDemand, RunEvent::VideoStarted { start, cancelled }) => match start {
            VideoStart::Ready { recording } => {
                finishing_control_is_due(RunCore { recording, ..core }, cancelled);
            },
            VideoStart::Cancelled(finish) => {
                let stopped = RunCore { interrupted: true, ..core };
                match finish {
                    Some(finish) => {
                        finishing_control_is_due(video_finish_applied(stopped, finish), cancelled);
                    },
                    None => {
                        finishing_control_is_due(stopped, cancelled);
                    },
                }
            },
            VideoStart::Failed(error) => {
                let interrupted = core.interrupted || cancelled;
                describing_is_due(
                    RunCore { interrupted, ..core },
                    Fault::Recording(RecordingFault::Text(error)),
                    8,
                );
            },
        },
        (RunStage::StoppingOnDemand, RunEvent::Stopped { finish, cancelled, stopped_at }) => {
            let stopped = RunCore { recording: false, stop_at: Some(stopped_at), ..core };
            match finish {
                Some(finish) => {
                    finishing_control_is_due(video_finish_applied(stopped, finish), cancelled);
                },
                None => {
                    finishing_control_is_due(stopped, cancelled);
                },
            }
        },
        (RunStage::Attempting { attempt }, RunEvent::Attempted { outcome, now }) => {
            trying_is_due(core, attempt, outcome, now);
        },
        (RunStage::KeepingStep, RunEvent::Kept) => {
            advancing_is_due(core, 6, 0);
        },
        (RunStage::Describing, RunEvent::Described(failure)) => {
            concluding_is_due(RunCore { primary: Some(failure), ..core }, remaining(run));
        },
        _ => {},
    }
}

/// Every step of the machine keeps a run sound: in particular a recording that was started is
/// finished before the run is, and its error does not go untold.
pub proof fn runs_stay_sound(run: FlowRun, event: RunEvent)
    requires
        sound(run),
    ensures
        sound(run_step(run, event).0),
{
    events_are_due(run, event);
}

/// Steps are tried in their order, each at most once more often than it has retries, and none
/// once the run has failed or was interrupted.
pub proof fn tries_are_bounded_and_in_order(run: FlowRun, event: RunEvent)
    requires
        sound(run),
    ensures
        ({
            let (after, action) = run_step(run, event);
            &&& after.core.plan == run.core.plan
            &&& after.core.at == run.core.at || after.core.at == run.core.at + 1
            &&& action matches RunAction::Attempt { step, attempt, .. } ==> {
                &&& step == after.core.at < after.core.plan@.len()
                &&& attempt <= after.core.plan@[step as int].retries
                &&& after.core.primary is None
                &&& !after.core.interrupted
            }
        }),
{
    events_are_due(run, event);
}

/// A step is tried again only after a try that failed or ran out of time, and only while it has
/// retries left.
pub proof fn only_failed_tries_are_repeated(run: FlowRun, event: RunEvent)
    requires
        sound(run),
        run.stage is Attempting,
        run_step(run, event).1 is Attempt,
        run_step(run, event).0.core.at == run.core.at,
    ensures
        event matches RunEvent::Attempted { outcome, .. } && (outcome is Failed || outcome
            is Expired),
        run.stage->Attempting_attempt < run.core.plan@[run.core.at as int].retries,
{
}

/// A recording ends at the time at which a step failed for good or the run was cancelled, or was
/// stopped by a step; nothing else moves that time, and it is told where the recording is finished.
pub proof fn recordings_end_where_the_run_does(run: FlowRun, event: RunEvent)
    requires
        sound(run),
    ensures
        ({
            let (after, action) = run_step(run, event);
            let ended = match (run.stage, event) {
                (RunStage::CheckingControl, RunEvent::Checked { check, now }) => if check
                    is Cancelled {
                    Some(now)
                } else {
                    None
                },
                (RunStage::Attempting { .. }, RunEvent::Attempted { outcome, now }) => if action
                    is Attempt || action is KeepStep {
                    None
                } else {
                    Some(now)
                },
                (RunStage::StoppingOnDemand, RunEvent::Stopped { stopped_at, .. }) => Some(
                    stopped_at,
                ),
                _ => None,
            };
            &&& after.core.stop_at == if ended is Some {
                ended
            } else {
                run.core.stop_at
            }
            &&& (action matches RunAction::FinishVideo { stop_at, .. } ==> stop_at
                == after.core.stop_at)
        }),
{
}

/// A try that failed while the step has retries left is followed by the very next try of the same step,
/// so a step that keeps failing is tried once more often than it has retries.
pub proof fn failed_tries_are_followed_by_the_next(run: FlowRun, outcome: Attempt, now: u128)
    requires
        sound(run),
        run.stage is Attempting,
        outcome is Failed || outcome is Expired,
    ensures
        ({
            let attempt = run.stage->Attempting_attempt;
            let retries = run.core.plan@[run.core.at as int].retries;
            let (after, action) = run_step(run, RunEvent::Attempted { outcome, now });
            &&& (attempt < retries ==> {
                &&& action is Attempt
                &&& action->Attempt_step == run.core.at
                &&& action->Attempt_attempt == attempt + 1
                &&& after.stage == (RunStage::Attempting { attempt: (attempt + 1) as u32 })
                &&& after.core == run.core
            })
            &&& (attempt >= retries ==> {
                &&& !(action is Attempt)
                &&& !(action is KeepStep)
                &&& action is PublishVisual || action is CaptureFailure
            })
        }),
{
}

/// The events of a step that fails so many times in a row.
pub open spec fn after_failures(run: FlowRun, outcomes: Seq<Attempt>, now: u128) -> FlowRun
    decreases outcomes.len(),
{
    if outcomes.len() == 0 {
        run
    } else {
        run_step(
            after_failures(run, outcomes.drop_last(), now),
            RunEvent::Attempted { outcome: outcomes.last(), now },
        ).0
    }
}

/// A step that has failed no more often than it has retries is at its next try, numbered by its
/// failures.
pub proof fn a_step_is_tried_as_often_as_it_may(run: FlowRun, outcomes: Seq<Attempt>, now: u128)
    requires
        sound(run),
        run.stage == (RunStage::Attempting { attempt: 0 }),
        outcomes.len() <= run.core.plan@[run.core.at as int].retries,
        forall|i: int|
            0 <= i < outcomes.len() ==> (#[trigger] outcomes[i]) is Failed || outcomes[i] is Expired,
    ensures
        after_failures(run, outcomes, now).stage == (RunStage::Attempting {
            attempt: outcomes.len() as u32,
        }),
        after_failures(run, outcomes, now).core == run.core,
    decreases outcomes.len(),
{
    if outcomes.len() > 0 {
        let fewer = outcomes.drop_last();
        assert forall|i: int| 0 <= i < fewer.len() implies (#[trigger] fewer[i]) is Failed
            || fewer[i] is Expired by {
            assert(fewer[i] == outcomes[i]);
        }
        a_step_is_tried_as_often_as_it_may(run, fewer, now);
        let last = outcomes[outcomes.len() - 1];
        assert(last == outcomes.last());
        runs_stay_sound(after_failures(run, fewer, now), RunEvent::Attempted { outcome: last, now });
    }
}

/// Whether a run begins with a step, or with none where they are through.
pub open spec fn begins_with(next: (FlowRun, RunAction), at: int) -> bool {
    let core = next.0.core;
    &&& core.at == at
    &&& if core.interrupted || at >= core.plan@.len() {
        next.1 is FinishVideo || next.1 is CloseOverlay
    } else if core.plan@[at].control is Some {
        next.1 == (RunAction::CheckControl { step: at as usize })
    } else {
        &&& next.1 is Attempt
        &&& next.1->Attempt_step == at
        &&& next.1->Attempt_attempt == 0
        &&& next.0.stage == (RunStage::Attempting { attempt: 0 })
    }
}

/// A run begins with its recording, unless the flow itself says when to record, and then with its
/// first step.
pub proof fn a_run_begins_with_its_first_step(
    plan: Vec<StepPlan>,
    manual: bool,
    retains_on_failure: bool,
    overlays: bool,
    recording: bool,
    cancelled: bool,
    error: String,
)
    ensures
        ({
            let first = run_started(plan, manual, retains_on_failure, overlays, false);
            let ready = run_step(
                first.0,
                RunEvent::VideoStarted { start: VideoStart::Ready { recording }, cancelled },
            );
            let broken = run_step(
                first.0,
                RunEvent::VideoStarted { start: VideoStart::Failed(error), cancelled },
            );
            let late = run_step(first.0, RunEvent::NoRecordingDeadline);
            let stopped = run_step(
                first.0,
                RunEvent::VideoStarted { start: VideoStart::Cancelled(None), cancelled },
            );
            &&& first.0.core.plan == plan
            &&& first.0.core.manual == manual
            &&& first.0.core.retains_on_failure == retains_on_failure
            &&& first.0.core.overlays == overlays
            &&& (manual ==> begins_with(first, 0))
            &&& (!manual ==> {
                &&& first.1 is StartVideo
                &&& ready.0.core.recording == recording
                &&& ready.0.core.interrupted == cancelled
                &&& ready.0.core.recording_error is None
                &&& begins_with(ready, 0)
                &&& !broken.0.core.recording
                &&& broken.0.core.recording_error == Some(RecordingFault::Text(error))
                &&& broken.0.core.interrupted == cancelled
                &&& begins_with(broken, 0)
                &&& late.0.core.recording_error == Some(RecordingFault::TimeoutTooLarge)
                &&& begins_with(late, 0)
                &&& stopped.0.core.interrupted
                &&& !(stopped.1 is Attempt)
            })
        }),
{
}

/// A step that was done is kept, with its picture, and the run goes on with the step behind it.
pub proof fn a_done_step_is_kept_and_followed_by_the_next(
    run: FlowRun,
    screenshot: Option<String>,
    now: u128,
)
    requires
        sound(run),
        run.stage is Attempting,
    ensures
        ({
            let kept = run_step(
                run,
                RunEvent::Attempted { outcome: Attempt::Done { screenshot }, now },
            );
            let next = run_step(kept.0, RunEvent::Kept);
            &&& kept.1 is KeepStep
            &&& kept.1->KeepStep_screenshot == screenshot
            &&& kept.1->KeepStep_refresh_overlay == (run.core.recording && run.core.overlays)
            &&& kept.0.core == run.core
            &&& begins_with(next, run.core.at + 1)
            &&& next.0.core.primary is None
        }),
{
    assert(run.core.plan@.len() == run.core.plan.len());
}

/// A step is tried with the overlay up to date, or without it where the step takes a picture, and only
/// while something is recorded.
pub proof fn pictures_are_taken_without_the_overlay(run: FlowRun, event: RunEvent)
    requires
        sound(run),
        run_step(run, event).1 is Attempt,
    ensures
        ({
            let (after, action) = run_step(run, event);
            let plan = after.core.plan@[action->Attempt_step as int];
            action->Attempt_overlay == if !after.core.recording || !after.core.overlays {
                OverlayChange::Keep
            } else if plan.captures_screenshot {
                OverlayChange::Remove
            } else {
                OverlayChange::Update
            }
        }),
{
    tries_are_bounded_and_in_order(run, event);
}

/// Whether the run tells a fault of the step at hand next.
pub open spec fn tells_fault(next: (FlowRun, RunAction), at: usize, fault: Fault) -> bool {
    &&& next.1 == (RunAction::Describe { step: Some(at), fault })
    &&& next.0.stage is Describing
}

/// The last failure of a step ends its run: the page is captured as the step left it, and the failure
/// is told of that step with its own error.
pub proof fn a_failed_step_ends_its_run_with_its_error(
    run: FlowRun,
    outcome: Attempt,
    now: u128,
    picture: Option<String>,
    failure: Failure,
)
    requires
        sound(run),
        run.stage is Attempting,
        match outcome {
            Attempt::Failed(error) => error.visual_artifacts is None
                && run.stage->Attempting_attempt >= run.core.plan@[run.core.at as int].retries,
            Attempt::Expired => run.stage->Attempting_attempt
                >= run.core.plan@[run.core.at as int].retries,
            Attempt::NoDeadline => true,
            Attempt::BrowserLost(_) => true,
            _ => false,
        },
    ensures
        ({
            let capturing = run_step(run, RunEvent::Attempted { outcome, now });
            let telling = run_step(capturing.0, RunEvent::Captured(picture));
            let ending = run_step(telling.0, RunEvent::Described(failure));
            &&& capturing.1 == (RunAction::CaptureFailure {
                remove_overlay: run.core.recording && run.core.overlays,
            })
            &&& tells_fault(
                telling,
                run.core.at,
                match outcome {
                    Attempt::Failed(error) => Fault::Step(error),
                    Attempt::Expired => Fault::DeadlineExpired,
                    Attempt::BrowserLost(error) => Fault::BrowserLost(error),
                    _ => Fault::TimeoutTooLarge,
                },
            )
            &&& telling.0.core.failure_screenshot == picture
            &&& ending.0.core.primary == Some(failure)
            &&& ending.0.core.failure_screenshot == picture
            &&& ending.1 == if run.core.recording {
                RunAction::FinishVideo { settle: false, failed: true, stop_at: Some(now) }
            } else {
                RunAction::CloseOverlay
            }
        }),
{
}

/// The pictures of a failed comparison are published before its failure is told, and told as they were
/// published. What goes wrong with that is told beside the failure, not in its place.
pub proof fn pictures_of_a_comparison_are_published(
    run: FlowRun,
    error: StepError,
    now: u128,
    publication: StepError,
    second: Failure,
    picture: Option<String>,
)
    requires
        sound(run),
        run.stage is Attempting,
        run.stage->Attempting_attempt >= run.core.plan@[run.core.at as int].retries,
        error.visual_artifacts is Some,
    ensures
        ({
            let publishing = run_step(
                run,
                RunEvent::Attempted { outcome: Attempt::Failed(error), now },
            );
            let published = run_step(publishing.0, RunEvent::VisualPublished(Ok(())));
            let refused = run_step(publishing.0, RunEvent::VisualPublished(Err(publication)));
            let beside = run_step(refused.0, RunEvent::Described(second));
            &&& publishing.1 is PublishVisual
            &&& publishing.0.stage == (RunStage::PublishingVisual { error })
            &&& published.1 is CaptureFailure
            &&& published.0.core.visual_actual == Some(error.visual_artifacts->0.actual_path)
            &&& published.0.core.visual_diff == Some(error.visual_artifacts->0.diff_path)
            &&& tells_fault(
                run_step(published.0, RunEvent::Captured(picture)),
                run.core.at,
                Fault::Step(error),
            )
            &&& refused.1 == (RunAction::Describe {
                step: Some(run.core.at),
                fault: Fault::Step(publication),
            })
            &&& beside.1 is CaptureFailure
            &&& beside.0.core.secondary == Some(second)
            &&& beside.0.core.primary is None
            &&& beside.0.core.visual_actual == run.core.visual_actual
            &&& beside.0.core.visual_diff == run.core.visual_diff
            &&& tells_fault(
                run_step(beside.0, RunEvent::Captured(picture)),
                run.core.at,
                Fault::Step(error),
            )
        }),
{
}

/// A cancelled step ends its run as interrupted, without a failure.
pub proof fn a_cancelled_step_interrupts_its_run(run: FlowRun, now: u128)
    requires
        sound(run),
    ensures
        ({
            let tried = run_step(run, RunEvent::Attempted { outcome: Attempt::Cancelled, now });
            let checked = run_step(
                run,
                RunEvent::Checked { check: ControlCheck::Cancelled, now },
            );
            let ending = if run.core.recording {
                RunAction::FinishVideo { settle: false, failed: true, stop_at: Some(now) }
            } else {
                RunAction::CloseOverlay
            };
            &&& (run.stage is Attempting ==> tried.1 == ending && tried.0.core.interrupted
                && tried.0.core.primary is None)
            &&& (run.stage is CheckingControl ==> checked.1 == ending && checked.0.core.interrupted
                && checked.0.core.primary is None)
        }),
{
}

/// A recording step that is due starts or stops the recording as it says; one that is not due is passed
/// over, and one that cannot be decided ends the run with its error.
pub proof fn recording_steps_do_what_they_say(run: FlowRun, now: u128, error: StepError, lost: String)
    requires
        sound(run),
        run.stage is CheckingControl,
    ensures
        ({
            let at = run.core.at;
            let due = run_step(run, RunEvent::Checked { check: ControlCheck::Matches(true), now });
            let passed = run_step(
                run,
                RunEvent::Checked { check: ControlCheck::Matches(false), now },
            );
            &&& due.1 == if run.core.plan@[at as int].control == Some(RecordingControl::Stop) {
                RunAction::StopVideoForStep { step: at, finish: run.core.recording }
            } else {
                RunAction::StartVideoForStep { step: at }
            }
            &&& due.0.core == run.core
            &&& begins_with(passed, at + 1)
            &&& tells_fault(
                run_step(run, RunEvent::Checked { check: ControlCheck::Failed(error), now }),
                at,
                Fault::Step(error),
            )
            &&& tells_fault(
                run_step(run, RunEvent::Checked { check: ControlCheck::Expired, now }),
                at,
                Fault::DeadlineExpired,
            )
            &&& tells_fault(
                run_step(run, RunEvent::Checked { check: ControlCheck::NoDeadline, now }),
                at,
                Fault::TimeoutTooLarge,
            )
            &&& tells_fault(
                run_step(run, RunEvent::Checked { check: ControlCheck::BrowserLost(lost), now }),
                at,
                Fault::BrowserLost(lost),
            )
        }),
{
    assert(run.core.plan@.len() == run.core.plan.len());
}

/// After a recording was started or stopped by a step the run goes on with the step behind it, unless
/// it was cancelled meanwhile or the recording broke, which is told of the step.
pub proof fn runs_go_on_after_a_recording_step(
    run: FlowRun,
    recording: bool,
    cancelled: bool,
    stopped_at: u128,
    path: Option<String>,
    broken: VideoFinishError,
    error: String,
)
    requires
        sound(run),
        run.core.recording_error is None,
    ensures
        ({
            let at = run.core.at;
            let ready = run_step(
                run,
                RunEvent::VideoStarted { start: VideoStart::Ready { recording }, cancelled },
            );
            let failed = run_step(
                run,
                RunEvent::VideoStarted { start: VideoStart::Failed(error), cancelled },
            );
            let stopped = run_step(
                run,
                RunEvent::Stopped {
                    finish: Some(VideoFinish::Done(path)),
                    cancelled,
                    stopped_at,
                },
            );
            let lost = run_step(
                run,
                RunEvent::Stopped {
                    finish: Some(VideoFinish::Broken(broken)),
                    cancelled,
                    stopped_at,
                },
            );
            &&& (run.stage is StartingOnDemand ==> {
                &&& ready.0.core.recording == recording
                &&& ready.0.core.interrupted == cancelled
                &&& (!cancelled ==> begins_with(ready, at + 1))
                &&& (cancelled ==> ready.1 is FinishVideo || ready.1 is CloseOverlay)
                &&& tells_fault(failed, at, Fault::Recording(RecordingFault::Text(error)))
            })
            &&& (run.stage is StoppingOnDemand ==> {
                &&& !stopped.0.core.recording
                &&& stopped.0.core.interrupted == cancelled
                &&& stopped.0.core.recording_path == if path is Some {
                    path
                } else {
                    run.core.recording_path
                }
                &&& (!cancelled ==> begins_with(stopped, at + 1))
                &&& (cancelled ==> stopped.1 is CloseOverlay)
                &&& !lost.0.core.recording
                &&& (!cancelled ==> tells_fault(
                    lost,
                    at,
                    Fault::Recording(RecordingFault::Text(broken.error)),
                ))
            })
        }),
{
    assert(run.core.plan@.len() == run.core.plan.len());
}

/// What is left of a recording is told: its file, or what there is of it together with the error.
pub proof fn what_is_left_of_a_recording_is_told(
    run: FlowRun,
    path: String,
    broken: VideoFinishError,
)
    requires
        sound(run),
        run.stage is FinishingVideo,
    ensures
        ({
            let done = run_step(run, RunEvent::VideoFinished(VideoFinish::Done(Some(path))));
            let none = run_step(run, RunEvent::VideoFinished(VideoFinish::Done(None)));
            let lost = run_step(run, RunEvent::VideoFinished(VideoFinish::Broken(broken)));
            &&& done.1 is CloseOverlay
            &&& done.0.core == (RunCore {
                recording: false,
                recording_path: Some(path),
                ..run.core
            })
            &&& none.1 is CloseOverlay
            &&& none.0.core == (RunCore { recording: false, ..run.core })
            &&& lost.1 is CloseOverlay
            &&& !lost.0.core.recording
            &&& lost.0.core.recording_error == Some(RecordingFault::Text(broken.error))
            &&& (broken.recording_exists && broken.recording is Some
                ==> lost.0.core.recording_path == broken.recording)
            &&& (!broken.recording_exists ==> lost.0.core.recording_path == run.core.recording_path)
            &&& (broken.partial_exists ==> lost.0.core.partial_path == Some(broken.partial))
            &&& (!broken.partial_exists ==> lost.0.core.partial_path == run.core.partial_path)
            &&& lost.0.core.primary == run.core.primary
        }),
{
}

/// At its end a run tells what broke its recording, takes a picture of the page where it failed without
/// one, and removes the recording of a run that passed where only failures are kept, and no other.
pub proof fn the_end_of_a_run_is_told(
    run: FlowRun,
    failure: Failure,
    picture: Option<String>,
    error: String,
)
    requires
        sound(run),
    ensures
        ({
            let core = run.core;
            let closed = run_step(run, RunEvent::OverlayClosed);
            let failed = core.primary is Some || core.secondary is Some;
            let unwanted = core.manual && core.retains_on_failure && !core.interrupted
                && core.recording_path is Some;
            &&& (run.stage is ClosingOverlay && core.recording_error is Some ==> {
                let told = run_step(closed.0, RunEvent::Described(failure));
                &&& closed.1 == (RunAction::Describe {
                    step: None,
                    fault: Fault::Recording(core.recording_error->0),
                })
                &&& told.0.core.recording_failure == Some(failure)
                &&& told.0.core.recording_path == core.recording_path
                &&& told.1 == if core.failure_screenshot is None {
                    RunAction::CaptureFailure { remove_overlay: false }
                } else {
                    RunAction::Finish
                }
            })
            &&& (run.stage is ClosingOverlay && core.recording_error is None ==> closed.1
                == if failed && core.failure_screenshot is None {
                RunAction::CaptureFailure { remove_overlay: false }
            } else if !failed && unwanted {
                RunAction::RemoveRecording(core.recording_path->0)
            } else {
                RunAction::Finish
            })
            &&& (run.stage is CapturingLate ==> {
                let captured = run_step(run, RunEvent::Captured(picture));
                &&& captured.1 is Finish
                &&& captured.0.core.failure_screenshot == picture
                &&& captured.0.core.primary == core.primary
            })
            &&& (run.stage matches RunStage::RemovingRecording { path } ==> {
                let removed = run_step(run, RunEvent::Removed(Ok(())));
                let kept = run_step(run, RunEvent::Removed(Err(error)));
                let told = run_step(kept.0, RunEvent::Described(failure));
                &&& removed.1 is Finish
                &&& removed.0.core == core
                &&& kept.1 == (RunAction::Describe {
                    step: None,
                    fault: Fault::RemoveRecording { path, error },
                })
                &&& kept.0.core.recording_path == Some(path)
                &&& told.1 is Finish
                &&& told.0.core.removal_failure == Some(failure)
            })
        }),
{
}

/// A recording that is to be removed is no longer told of.
pub proof fn removed_recordings_are_not_told(run: FlowRun, event: RunEvent)
    requires
        sound(run),
        run_step(run, event).1 is RemoveRecording,
    ensures
        ({
            let (after, action) = run_step(run, event);
            &&& after.core.recording_path is None
            &&& run.core.recording_path == Some(action->RemoveRecording_0)
            &&& after.stage == (RunStage::RemovingRecording { path: action->RemoveRecording_0 })
            &&& !has_failure(run.core)
        }),
{
    events_are_due(run, event);
}

/// The failures of a run are told in order: of the step, of its pictures, of its recording, and of the
/// recording's removal; each that there is, and no other. A run passed exactly if it has none and was
/// not interrupted.
pub proof fn failures_are_told_in_order(core: RunCore)
    ensures
        ({
            let told = failures_of(core);
            let count = |failure: Option<Failure>| if failure is Some { 1int } else { 0int };
            &&& told.len() == count(core.primary) + count(core.secondary) + count(
                core.recording_failure,
            ) + count(core.removal_failure)
            &&& (core.primary matches Some(failure) ==> told[0] == failure)
            &&& (core.secondary matches Some(failure) ==> told[count(core.primary)] == failure)
            &&& (core.recording_failure matches Some(failure) ==> told[count(core.primary) + count(
                core.secondary,
            )] == failure)
            &&& (core.removal_failure matches Some(failure) ==> told.last() == failure)
            &&& (status_of(told.len(), core.interrupted) == FlowStatus::Passed <==> told.len() == 0
                && !core.interrupted)
            &&& (status_of(told.len(), core.interrupted) == FlowStatus::Interrupted
                <==> core.interrupted)
        }),
{
}

/// Every event that fits brings a run nearer to its end, so every run ends.
pub proof fn runs_end(run: FlowRun, event: RunEvent)
    requires
        sound(run),
        !(run_step(run, event).1 is Ignore),
    ensures
        nearer(remaining(run_step(run, event).0), remaining(run)),
{
    events_are_due(run, event);
}

/// A finished run passes only if every step was done, and fails only with a failure to show.
pub proof fn a_passed_run_did_every_step(run: FlowRun)
    requires
        sound(run),
        run.stage is Finished,
    ensures
        ({
            let status = status_of(failures_of(run.core).len(), run.core.interrupted);
            &&& status == FlowStatus::Passed ==> run.core.at == run.core.plan@.len()
            &&& status == FlowStatus::Failed ==> has_failure(run.core)
            &&& status == FlowStatus::Interrupted <==> run.core.interrupted
        }),
{
}

/// A run that was cancelled before it began does nothing.
pub proof fn a_cancelled_run_does_nothing(
    plan: Vec<StepPlan>,
    manual: bool,
    retains_on_failure: bool,
    overlays: bool,
)
    ensures
        ({
            let (run, action) = run_started(plan, manual, retains_on_failure, overlays, true);
            &&& action is Finish
            &&& run.stage is Finished
            &&& run.core.interrupted
            &&& failures_of(run.core).len() == 0
        }),
{
}

} // verus!
