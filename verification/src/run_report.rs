//! What a run of a flow reports.

use crate::diagnostics::{step_context, tells_of};
use crate::flow::{Assertion, CompiledFlow, CompiledStep, Operation};
use crate::flow_run::{Fault, RecordingFault, RunCore, StepPlan};
use crate::number::{duration_ms, millis_of};
use crate::report::{
    optional_safe, status_of, ArtifactPaths, Failure, FailureCategory, FlowReport, FlowStatus,
    SafeText, StepContext,
};
use crate::secrets::redacted;
use crate::step_error::{deadline_error, deadline_timeout_ms, plain_error, protocol, StepError};
use crate::values::Redactor;
use vstd::prelude::*;
use vstd::string::*;

verus! {

/// Whether an operation captures a screenshot.
pub open spec fn captures_screenshot(operation: Operation) -> bool {
    ||| operation is Screenshot
    ||| operation matches Operation::Assert(Assertion::Screenshot(_))
}

/// Whether a step captures a screenshot.
pub fn step_captures_screenshot(step: &CompiledStep) -> (captures: bool)
    ensures
        captures == captures_screenshot(step.operation),
{
    match &step.operation {
        Operation::Screenshot { .. } => true,
        Operation::Assert(Assertion::Screenshot(_)) => true,
        _ => false,
    }
}

/// What the run needs to know of a step.
pub open spec fn plan_of(step: CompiledStep) -> StepPlan {
    StepPlan {
        control: match step.operation {
            Operation::Recording(control) => Some(control),
            _ => None,
        },
        retries: step.retries,
        captures_screenshot: captures_screenshot(step.operation),
    }
}

/// What the run needs to know of each step.
pub fn step_plans(flow: &CompiledFlow) -> (plans: Vec<StepPlan>)
    ensures
        plans@ == flow.steps@.map_values(|step: CompiledStep| plan_of(step)),
{
    let mut plans: Vec<StepPlan> = Vec::new();
    let mut i: usize = 0;
    while i < flow.steps.len()
        invariant
            i <= flow.steps.len(),
            plans.len() == i,
            forall|k: int| 0 <= k < i ==> #[trigger] plans@[k] == plan_of(flow.steps@[k]),
        decreases flow.steps.len() - i,
    {
        let step = &flow.steps[i];
        plans.push(
            StepPlan {
                control: match &step.operation {
                    Operation::Recording(control) => Some(*control),
                    _ => None,
                },
                retries: step.retries,
                captures_screenshot: step_captures_screenshot(step),
            },
        );
        i += 1;
    }
    assert(plans@ == flow.steps@.map_values(|step: CompiledStep| plan_of(step)));
    plans
}

/// Whether some step of the flow answers a dialog.
pub fn expects_dialog(flow: &CompiledFlow) -> (expects: bool)
    ensures
        expects == exists|i: int|
            0 <= i < flow.steps@.len() && (#[trigger] flow.steps@[i]).operation is Dialog,
{
    let mut i: usize = 0;
    while i < flow.steps.len()
        invariant
            i <= flow.steps.len(),
            forall|k: int| 0 <= k < i ==> !((#[trigger] flow.steps@[k]).operation is Dialog),
        decreases flow.steps.len() - i,
    {
        if let Operation::Dialog { .. } = &flow.steps[i].operation {
            return true;
        }
        i += 1;
    }
    false
}

/// Whether the browser is there.
#[derive(Debug, Clone, Copy, PartialEq, Eq, Structural)]
pub enum BrowserStatus {
    Running,
    Failed,
    Closed,
}

/// The category of an error outside of steps: a lost browser is a crash.
pub fn browser_error_category(status: BrowserStatus) -> (category: FailureCategory)
    ensures
        category == if status == BrowserStatus::Running {
            FailureCategory::Protocol
        } else {
            FailureCategory::BrowserCrash
        },
{
    match status {
        BrowserStatus::Running => FailureCategory::Protocol,
        BrowserStatus::Failed | BrowserStatus::Closed => FailureCategory::BrowserCrash,
    }
}

/// Whether an error of a step stands for a fault of its run.
pub open spec fn error_of(error: StepError, fault: Fault) -> bool {
    match fault {
        Fault::TimeoutTooLarge => plain_error(
            error,
            FailureCategory::Protocol,
            "step timeout is too large"@,
        ),
        Fault::DeadlineExpired => deadline_error(
            error,
            FailureCategory::Timeout,
            "step deadline expired"@,
            None,
        ),
        Fault::BrowserLost(message) => plain_error(error, FailureCategory::Protocol, message@),
        Fault::Step(cause) => error == cause,
        Fault::Recording(RecordingFault::TimeoutTooLarge) => plain_error(
            error,
            FailureCategory::Recording,
            "recording timeout is too large"@,
        ),
        Fault::Recording(RecordingFault::Text(message)) => plain_error(
            error,
            FailureCategory::Recording,
            message@,
        ),
        Fault::RemoveRecording { path, error: cause } => plain_error(
            error,
            FailureCategory::Recording,
            "remove passing recording "@ + path@ + ": "@ + cause@,
        ),
    }
}

/// The error that stands for a fault.
pub fn fault_error(fault: Fault) -> (error: StepError)
    ensures
        error_of(error, fault),
{
    match fault {
        Fault::TimeoutTooLarge => protocol("step timeout is too large"),
        Fault::DeadlineExpired => StepError::new(
            FailureCategory::Timeout,
            "step deadline expired",
        ).deadline(),
        Fault::BrowserLost(message) => protocol(message.as_str()),
        Fault::Step(error) => error,
        Fault::Recording(RecordingFault::TimeoutTooLarge) => StepError::new(
            FailureCategory::Recording,
            "recording timeout is too large",
        ),
        Fault::Recording(RecordingFault::Text(message)) => StepError::new(
            FailureCategory::Recording,
            message.as_str(),
        ),
        Fault::RemoveRecording { path, error } => {
            let mut message = "remove passing recording ".to_owned();
            message.append(path.as_str());
            message.append(": ");
            message.append(error.as_str());
            StepError::new(FailureCategory::Recording, message.as_str())
        },
    }
}

/// A text with the redactor's secrets replaced.
pub fn safe(redactor: &Redactor, text: &str) -> (safe: SafeText)
    ensures
        safe@ == redacted(text@, redactor.secrets@),
{
    SafeText::public(redactor.redact(text))
}

/// Whether a failure tells a category and a message without more of the browser.
pub open spec fn is_plain_failure(
    failure: Failure,
    secrets: Seq<Seq<char>>,
    category: FailureCategory,
    message: Seq<char>,
) -> bool {
    &&& failure.category == category
    &&& failure.message@ == redacted(message, secrets)
    &&& failure.current_url is None
    &&& failure.timeout_ms is None
    &&& failure.last_observed is None
}

/// A failure outside of the browser, with its text redacted.
pub fn failure(
    redactor: &Redactor,
    category: FailureCategory,
    message: &str,
    step: Option<StepContext>,
) -> (failure: Failure)
    ensures
        is_plain_failure(failure, redactor.secrets@, category, message@),
        failure.step == step,
{
    let mut failure = Failure::new(category, safe(redactor, message));
    failure.step = step;
    failure
}

/// Whether a failure tells an error of a step. A browser that is gone makes it a crash, and all its
/// texts are redacted.
pub open spec fn is_step_failure(
    failure: Failure,
    flow: CompiledFlow,
    secrets: Seq<Seq<char>>,
    step: CompiledStep,
    error: StepError,
    status: BrowserStatus,
    current_url: Option<Seq<char>>,
) -> bool {
    &&& failure.category == if status == BrowserStatus::Running {
        error.category
    } else {
        FailureCategory::BrowserCrash
    }
    &&& failure.message@ == redacted(error.message@, secrets)
    &&& (failure.step matches Some(context) && tells_of(context, flow, step))
    &&& optional_safe(failure.current_url) == match current_url {
        Some(url) => Some(redacted(url, secrets)),
        None => None,
    }
    &&& failure.timeout_ms == if error.deadline_based {
        Some(millis_of(step.timeout))
    } else {
        None
    }
    &&& optional_safe(failure.last_observed) == match error.last_observed {
        Some(observed) => Some(redacted(observed@, secrets)),
        None => None,
    }
}

/// The characters of an optional text.
pub open spec fn optional_chars(text: Option<&str>) -> Option<Seq<char>> {
    match text {
        Some(text) => Some(text@),
        None => None,
    }
}

/// The failure of a step.
pub fn step_failure(
    flow: &CompiledFlow,
    redactor: &Redactor,
    step: &CompiledStep,
    error: &StepError,
    status: BrowserStatus,
    current_url: Option<&str>,
) -> (failure: Failure)
    ensures
        is_step_failure(
            failure,
            *flow,
            redactor.secrets@,
            *step,
            *error,
            status,
            optional_chars(current_url),
        ),
{
    let category = match status {
        BrowserStatus::Running => error.category,
        BrowserStatus::Failed | BrowserStatus::Closed => FailureCategory::BrowserCrash,
    };
    Failure {
        category,
        message: safe(redactor, error.message.as_str()),
        step: Some(step_context(flow, step)),
        current_url: match current_url {
            Some(url) => Some(safe(redactor, url)),
            None => None,
        },
        timeout_ms: deadline_timeout_ms(error, step.timeout),
        last_observed: match &error.last_observed {
            Some(observed) => Some(safe(redactor, observed.as_str())),
            None => None,
        },
    }
}

/// The failure that tells a fault of a run. One of the recording says nothing of the page; any other
/// fault of a step does.
pub fn fault_failure(
    flow: &CompiledFlow,
    redactor: &Redactor,
    step: Option<&CompiledStep>,
    fault: Fault,
    status: BrowserStatus,
    current_url: Option<&str>,
) -> (failure: Failure)
    ensures
        exists|error: StepError| #[trigger]
            error_of(error, fault) && match step {
                Some(step) => if fault is Recording {
                    &&& is_plain_failure(
                        failure,
                        flow.redactor.secrets@,
                        error.category,
                        error.message@,
                    )
                    &&& (failure.step matches Some(context) && tells_of(context, *flow, *step))
                } else {
                    is_step_failure(
                        failure,
                        *flow,
                        redactor.secrets@,
                        *step,
                        error,
                        status,
                        optional_chars(current_url),
                    )
                },
                None => {
                    &&& is_plain_failure(
                        failure,
                        flow.redactor.secrets@,
                        error.category,
                        error.message@,
                    )
                    &&& failure.step is None
                },
            },
{
    let of_recording = matches!(fault, Fault::Recording(_));
    let error = fault_error(fault);
    match step {
        Some(step) => if of_recording {
            failure(
                &flow.redactor,
                error.category,
                error.message.as_str(),
                Some(step_context(flow, step)),
            )
        } else {
            step_failure(flow, redactor, step, &error, status, current_url)
        },
        None => failure(&flow.redactor, error.category, error.message.as_str(), None),
    }
}

/// An optional failure as a list.
pub open spec fn listed(failure: Option<Failure>) -> Seq<Failure> {
    match failure {
        Some(failure) => seq![failure],
        None => Seq::empty(),
    }
}

/// The failures of a run: the step's own, then one of publishing its pictures, then those of the
/// recording.
pub open spec fn failures_of(core: RunCore) -> Seq<Failure> {
    listed(core.primary) + listed(core.secondary) + listed(core.recording_failure) + listed(
        core.removal_failure,
    )
}

/// The warnings that the report shows for the flow.
pub fn recording_secret_warnings(flow: &CompiledFlow) -> (warnings: Vec<SafeText>)
    ensures
        warnings@.map_values(|text: SafeText| text@) == match flow.recording_secret_warning {
            Some(warning) => seq![warning@],
            None => Seq::<Seq<char>>::empty(),
        },
{
    let mut warnings: Vec<SafeText> = Vec::new();
    if let Some(warning) = &flow.recording_secret_warning {
        warnings.push(SafeText::public(warning.clone()));
    }
    assert(warnings@.map_values(|text: SafeText| text@) == match flow.recording_secret_warning {
        Some(warning) => seq![warning@],
        None => Seq::<Seq<char>>::empty(),
    });
    warnings
}

/// The report of a flow that ran for `elapsed` nanoseconds.
pub fn report(
    flow: &CompiledFlow,
    elapsed: u128,
    artifacts: ArtifactPaths,
    failures: Vec<Failure>,
    interrupted: bool,
) -> (report: FlowReport)
    ensures
        report.name == flow.name,
        report.path == flow.source,
        report.duration_ms == millis_of(elapsed),
        report.status == status_of(failures@.len(), interrupted),
        report.failures == failures,
        report.warnings@.map_values(|text: SafeText| text@) == match flow.recording_secret_warning {
            Some(warning) => seq![warning@],
            None => Seq::<Seq<char>>::empty(),
        },
        report.artifacts == artifacts,
{
    FlowReport {
        name: flow.name.clone(),
        path: flow.source.clone(),
        duration_ms: duration_ms(elapsed),
        status: if interrupted {
            FlowStatus::Interrupted
        } else if failures.len() == 0 {
            FlowStatus::Passed
        } else {
            FlowStatus::Failed
        },
        failures,
        warnings: recording_secret_warnings(flow),
        artifacts,
    }
}

fn push_listed(failures: &mut Vec<Failure>, failure: Option<Failure>)
    ensures
        final(failures)@ == old(failures)@ + listed(failure),
{
    if let Some(failure) = failure {
        failures.push(failure);
    }
}

/// The report of a finished run, with the screenshots that its steps left.
pub fn run_report(
    flow: &CompiledFlow,
    core: RunCore,
    elapsed: u128,
    directory: String,
    screenshots: Vec<String>,
) -> (report: FlowReport)
    ensures
        report.name == flow.name,
        report.path == flow.source,
        report.duration_ms == millis_of(elapsed),
        report.status == status_of(failures_of(core).len(), core.interrupted),
        report.failures@ == failures_of(core),
        report.warnings@.map_values(|text: SafeText| text@) == match flow.recording_secret_warning {
            Some(warning) => seq![warning@],
            None => Seq::<Seq<char>>::empty(),
        },
        report.artifacts == (ArtifactPaths {
            directory,
            screenshots,
            failure_screenshot: core.failure_screenshot,
            visual_actual: core.visual_actual,
            visual_diff: core.visual_diff,
            recording: core.recording_path,
            partial_recording: core.partial_path,
        }),
{
    let mut failures: Vec<Failure> = Vec::new();
    push_listed(&mut failures, core.primary);
    push_listed(&mut failures, core.secondary);
    push_listed(&mut failures, core.recording_failure);
    push_listed(&mut failures, core.removal_failure);
    let artifacts = ArtifactPaths {
        directory,
        screenshots,
        failure_screenshot: core.failure_screenshot,
        visual_actual: core.visual_actual,
        visual_diff: core.visual_diff,
        recording: core.recording_path,
        partial_recording: core.partial_path,
    };
    report(flow, elapsed, artifacts, failures, core.interrupted)
}

/// The report once the browser context could not be disposed of: one failure more, and a flow that
/// had passed has failed.
pub fn add_close_failure(report: FlowReport, failure: Failure) -> (result: FlowReport)
    ensures
        result.failures@ == report.failures@.push(failure),
        result.status == if report.status == FlowStatus::Passed {
            FlowStatus::Failed
        } else {
            report.status
        },
        result.name == report.name,
        result.path == report.path,
        result.duration_ms == report.duration_ms,
        result.warnings == report.warnings,
        result.artifacts == report.artifacts,
{
    let mut failures = report.failures;
    failures.push(failure);
    FlowReport {
        status: if report.status == FlowStatus::Passed {
            FlowStatus::Failed
        } else {
            report.status
        },
        failures,
        name: report.name,
        path: report.path,
        duration_ms: report.duration_ms,
        warnings: report.warnings,
        artifacts: report.artifacts,
    }
}

/// Each step has its plan, in order: as many retries as it says, what it says of a recording, and whether it
/// takes a picture.
pub proof fn plans_follow_the_steps(flow: CompiledFlow, plans: Vec<StepPlan>, i: int)
    requires
        call_ensures(step_plans, (&flow,), plans),
        0 <= i < flow.steps@.len(),
    ensures
        plans@.len() == flow.steps@.len(),
        plans@[i].retries == flow.steps@[i].retries,
        match flow.steps@[i].operation {
            Operation::Recording(control) => plans@[i].control == Some(control)
                && !plans@[i].captures_screenshot,
            Operation::Screenshot { .. } => plans@[i].control is None
                && plans@[i].captures_screenshot,
            Operation::Assert(assertion) => plans@[i].control is None
                && plans@[i].captures_screenshot == (assertion is Screenshot),
            _ => plans@[i].control is None && !plans@[i].captures_screenshot,
        },
{
    assert(plans@[i] == plan_of(flow.steps@[i]));
}

/// A flow expects a dialog exactly if one of its steps answers one.
pub proof fn dialogs_are_expected_by_steps(flow: CompiledFlow, expects: bool, i: int)
    requires
        call_ensures(expects_dialog, (&flow,), expects),
    ensures
        0 <= i < flow.steps@.len() && flow.steps@[i].operation is Dialog ==> expects,
        (forall|k: int| 0 <= k < flow.steps@.len() ==> !((#[trigger] flow.steps@[k]).operation is Dialog))
            ==> !expects,
{
}

/// Failures while the browser runs are told by their own category, and any failure once it is gone is a crash.
pub proof fn lost_browsers_are_crashes(
    flow: CompiledFlow,
    redactor: Redactor,
    step: CompiledStep,
    error: StepError,
    status: BrowserStatus,
    told: Failure,
    category: FailureCategory,
)
    requires
        call_ensures(step_failure, (&flow, &redactor, &step, &error, status, None), told),
        call_ensures(browser_error_category, (status,), category),
    ensures
        status is Running ==> told.category == error.category && category is Protocol,
        !(status is Running) ==> told.category is BrowserCrash && category is BrowserCrash,
        told.timeout_ms is Some <==> error.deadline_based,
        told.last_observed is Some <==> error.last_observed is Some,
        told.current_url is None,
        told.step is Some,
{
}

/// A failure of a step shows no secret: every text in it is redacted.
pub proof fn failures_are_redacted(
    flow: CompiledFlow,
    redactor: Redactor,
    step: CompiledStep,
    error: StepError,
    status: BrowserStatus,
    url: &str,
    told: Failure,
)
    requires
        call_ensures(step_failure, (&flow, &redactor, &step, &error, status, Some(url)), told),
    ensures
        told.message@ == redacted(error.message@, redactor.secrets@),
        told.current_url is Some && told.current_url->0@ == redacted(url@, redactor.secrets@),
        error.last_observed matches Some(observed) ==> told.last_observed is Some
            && told.last_observed->0@ == redacted(observed@, redactor.secrets@),
{
    assert(optional_chars(Some(url)) == Some(url@));
    assert(optional_safe(told.current_url) == Some(redacted(url@, redactor.secrets@)));
}

/// What ended a run is told by its category: a deadline is a timeout, whatever concerns the recording is a
/// recording failure, and the rest is of the protocol, but for an error of the step itself.
pub proof fn faults_have_their_categories(fault: Fault, error: StepError)
    requires
        call_ensures(fault_error, (fault,), error),
    ensures
        match fault {
            Fault::TimeoutTooLarge => error.category is Protocol && !error.deadline_based,
            Fault::DeadlineExpired => error.category is Timeout && error.deadline_based,
            Fault::BrowserLost(message) => error.category is Protocol && error.message@ == message@
                && !error.deadline_based,
            Fault::Step(cause) => error == cause,
            Fault::Recording(RecordingFault::TimeoutTooLarge) => error.category is Recording
                && !error.deadline_based,
            Fault::Recording(RecordingFault::Text(message)) => error.category is Recording
                && error.message@ == message@ && !error.deadline_based,
            Fault::RemoveRecording { path, error: cause } => error.category is Recording
                && error.message@ == "remove passing recording "@ + path@ + ": "@ + cause@,
        },
{
}

/// A report passes exactly if nothing failed and nothing was interrupted, and lists what failed in order: what
/// ended the run, what came after, the recording, and its removal.
pub proof fn reports_list_what_failed(
    flow: CompiledFlow,
    core: RunCore,
    elapsed: u128,
    directory: String,
    screenshots: Vec<String>,
    told: FlowReport,
)
    requires
        call_ensures(run_report, (&flow, core, elapsed, directory, screenshots), told),
    ensures
        told.status is Interrupted <==> core.interrupted,
        told.status is Passed <==> !core.interrupted && core.primary is None && core.secondary is None
            && core.recording_failure is None && core.removal_failure is None,
        told.failures@.len() == (if core.primary is Some {
            1int
        } else {
            0
        }) + (if core.secondary is Some {
            1int
        } else {
            0
        }) + (if core.recording_failure is Some {
            1int
        } else {
            0
        }) + (if core.removal_failure is Some {
            1int
        } else {
            0
        }),
        core.primary is Some ==> told.failures@[0] == core.primary->0,
        core.removal_failure is Some ==> told.failures@.last() == core.removal_failure->0,
        core.recording_failure is Some && core.removal_failure is None ==> told.failures@.last()
            == core.recording_failure->0,
        core.secondary is Some ==> told.failures@[if core.primary is Some {
            1int
        } else {
            0
        }] == core.secondary->0,
        told.name == flow.name && told.path == flow.source,
        told.artifacts.directory == directory && told.artifacts.screenshots == screenshots,
        told.artifacts.failure_screenshot == core.failure_screenshot,
        told.artifacts.visual_actual == core.visual_actual,
        told.artifacts.visual_diff == core.visual_diff,
        told.artifacts.recording == core.recording_path,
        told.artifacts.partial_recording == core.partial_path,
{
}

/// A failure to close is added behind the others, and a run that had passed has failed by it.
pub proof fn close_failures_are_added(report: FlowReport, failure: Failure, after: FlowReport)
    requires
        call_ensures(add_close_failure, (report, failure), after),
    ensures
        after.failures@.len() == report.failures@.len() + 1,
        after.failures@.last() == failure,
        after.failures@.drop_last() == report.failures@,
        !(after.status is Passed),
        report.status is Interrupted <==> after.status is Interrupted,
        after.name == report.name && after.path == report.path && after.duration_ms
            == report.duration_ms && after.artifacts == report.artifacts,
{
    assert(after.failures@.drop_last() =~= report.failures@);
}

/// A report tells the warning of its flow, and passes exactly if nothing failed and it was not interrupted.
pub proof fn reports_pass_without_failures(
    flow: CompiledFlow,
    elapsed: u128,
    artifacts: ArtifactPaths,
    failures: Vec<Failure>,
    interrupted: bool,
    told: FlowReport,
)
    requires
        call_ensures(report, (&flow, elapsed, artifacts, failures, interrupted), told),
    ensures
        told.status is Passed <==> failures@.len() == 0 && !interrupted,
        told.status is Interrupted <==> interrupted,
        told.failures@ == failures@,
        told.artifacts == artifacts,
        told.name == flow.name && told.path == flow.source,
        told.warnings@.len() == if flow.recording_secret_warning is Some {
            1int
        } else {
            0
        },
        flow.recording_secret_warning matches Some(warning) ==> told.warnings@[0]@ == warning@,
        elapsed < 1_000_000 * (u64::MAX as int) ==> told.duration_ms * 1_000_000 <= elapsed < (
        told.duration_ms + 1) * 1_000_000,
{
    let shown = told.warnings@.map_values(|text: SafeText| text@);
    assert(shown.len() == told.warnings@.len());
    if flow.recording_secret_warning is Some {
        assert(shown[0] == told.warnings@[0]@);
    }
}

/// A failure that is no step's is told by its category and its message without secrets, and by nothing else.
pub proof fn plain_failures_tell_their_message(
    redactor: Redactor,
    category: FailureCategory,
    message: &str,
    step: Option<StepContext>,
    told: Failure,
)
    requires
        call_ensures(failure, (&redactor, category, message, step), told),
    ensures
        told.category == category,
        told.message@ == redacted(message@, redactor.secrets@),
        told.step == step,
        told.current_url is None && told.timeout_ms is None && told.last_observed is None,
{
}

} // verus!
