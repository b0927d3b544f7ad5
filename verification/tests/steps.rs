use playrust::address::service_worker_origin;
use playrust::bundle::close_entry;
use playrust::codec::write_json;
use playrust::flow::{
    CompiledFlow, CompiledStep, FlowSettings, NativeDialogResponse, Operation, PresentationOverlays,
    RecordingControl, ViewportPoint,
};
use playrust::flow_run::{Fault, RecordingFault, VideoFinish};
use playrust::gesture::swipe_outside;
use playrust::http::{body_failed, request_failed};
use playrust::interaction::{erase_outcome, fill_outcome, focus_outcome, select_outcome};
use playrust::interactive::{InteractiveStepError, InteractiveStepResult, SessionSettings};
use playrust::journal::{ActionOutcome, JournalEvent};
use playrust::json::JsonValue;
use playrust::locate::{capture_again, node_name, AxNode};
use playrust::navigation::opener_page;
use playrust::recorder::{video_finish, EndingFault, RecordingStatus, SessionRecordingFinish};
use playrust::report::{ArtifactPaths, Failure, FailureCategory, FlowReport, FlowStatus, SafeText};
use playrust::run_report::{
    add_close_failure, browser_error_category, expects_dialog, fault_error, fault_failure,
    step_plans, BrowserStatus,
};
use playrust::runtime::crop_outside;
use playrust::snapshot::Viewport;
use playrust::step_error::{settle_locator_error, LocatorError, Observation, Sighting, StepError};
use playrust::step_work::{
    evaluation_place, expression_answer, function_answer, keep_script_result, script_failed,
    script_function, Place,
};
use playrust::values::{Outputs, Redactor};
use playrust::video::VideoMode;
use playrust::wire::{scroll_step, step_entry};

fn flow(operations: Vec<Operation>) -> CompiledFlow {
    let steps = operations
        .into_iter()
        .enumerate()
        .map(|(index, operation)| CompiledStep {
            index: index + 1,
            source: "flow.yaml".to_owned(),
            source_index: index + 1,
            id: None,
            operation,
            timeout: 10_000_000_000,
            retries: 2,
            guards: Vec::new(),
            when: None,
        })
        .collect();
    CompiledFlow {
        name: "flow".to_owned(),
        source: "flow.yaml".to_owned(),
        steps,
        settings: FlowSettings {
            timeout: 7_000_000_000,
            viewport: Viewport {
                width: 800,
                height: 600,
            },
            geolocation: None,
            video: VideoMode::Off,
            overlays: PresentationOverlays {
                pointer: false,
                step: false,
                url: false,
            },
        },
        manual_recording: false,
        recording_secret_warning: None,
        inputs: Vec::new(),
        redactor: Redactor::new(),
    }
}

fn told(error: &StepError) -> (FailureCategory, &str) {
    (error.category, error.message.as_str())
}

fn text(value: &str) -> JsonValue {
    JsonValue::Text(value.to_owned())
}

#[test]
fn service_workers_are_cleared_for_the_origin() {
    assert_eq!(
        service_worker_origin(Some("https://example.test:8443/a?b#c")).unwrap(),
        "https://example.test:8443"
    );
    assert_eq!(
        service_worker_origin(Some("http://example.test:80/")).unwrap(),
        "http://example.test"
    );
    let error = service_worker_origin(None).unwrap_err();
    assert_eq!(
        told(&error),
        (FailureCategory::Protocol, "active page has no URL")
    );
    let error = service_worker_origin(Some("no address")).unwrap_err();
    assert_eq!(
        told(&error),
        (
            FailureCategory::Protocol,
            "relative URL without a base"
        )
    );
}

#[test]
fn the_page_answers_input() {
    assert!(focus_outcome(true).is_ok());
    assert!(fill_outcome(true).is_ok());
    assert!(erase_outcome("ok").is_ok());
    assert!(select_outcome("ok").is_ok());
    for (error, message) in [
        (focus_outcome(false), "target could not receive focus"),
        (fill_outcome(false), "target could not be prepared for fill"),
        (
            erase_outcome("detached"),
            "erase target detached before input dispatch",
        ),
        (erase_outcome("focus"), "erase target could not receive focus"),
        (erase_outcome("editable"), "erase target is not editable"),
        (
            select_outcome("detached"),
            "select target detached before input dispatch",
        ),
        (
            select_outcome("focus"),
            "select target could not receive focus",
        ),
        (
            select_outcome("option"),
            "select value did not match an option",
        ),
        (
            select_outcome("select"),
            "select target is not a native single-value select",
        ),
        (
            Err(swipe_outside()),
            "swipe endpoint is outside the viewport",
        ),
    ] {
        let error = error.unwrap_err();
        assert_eq!(told(&error), (FailureCategory::Actionability, message));
    }
}

#[test]
fn scripts_are_wrapped_and_their_results_kept() {
    assert_eq!(
        script_function("return 1;", true),
        "function(...args) {\nreturn 1;\n}"
    );
    assert_eq!(
        script_function("go();", false),
        "async function(...args) { await (async function(...args) {\ngo();\n})(...args); }"
    );
    assert_eq!(
        told(&script_failed()),
        (FailureCategory::Script, "page script failed")
    );
    let mut outputs = Outputs::new();
    let mut redactor = Redactor::new();
    assert!(keep_script_result(&mut outputs, &mut redactor, &None, Some(text("x"))).is_ok());
    assert!(outputs.names().is_empty());
    let name = Some("token".to_owned());
    let error = keep_script_result(&mut outputs, &mut redactor, &name, None).unwrap_err();
    assert_eq!(
        told(&error),
        (
            FailureCategory::Protocol,
            "page script returned no JSON-serializable value"
        )
    );
    let value = Some(text("canary-value"));
    assert!(keep_script_result(&mut outputs, &mut redactor, &name, value).is_ok());
    assert_eq!(outputs.get("token"), Some(&text("canary-value")));
    assert_eq!(redactor.redact("a canary-value"), "a [REDACTED]");
}

#[test]
fn answers_of_the_page_are_values_or_errors() {
    assert_eq!(
        expression_answer(None, Some(JsonValue::Bool(true))).unwrap(),
        JsonValue::Bool(true)
    );
    let error = expression_answer(Some("Uncaught"), Some(JsonValue::Null)).unwrap_err();
    assert_eq!(
        told(&error),
        (
            FailureCategory::Protocol,
            "page expression threw: Uncaught"
        )
    );
    let error = expression_answer(None, None).unwrap_err();
    assert_eq!(
        told(&error),
        (
            FailureCategory::Protocol,
            "page expression returned no value"
        )
    );
    assert_eq!(function_answer(None, Some(text("ok"))).unwrap(), text("ok"));
    let error = function_answer(Some("Uncaught"), None).unwrap_err();
    assert_eq!(
        told(&error),
        (FailureCategory::Protocol, "page function threw: Uncaught")
    );
    let error = function_answer(None, None).unwrap_err();
    assert_eq!(
        told(&error),
        (FailureCategory::Protocol, "page function returned no value")
    );
}

#[test]
fn expressions_are_evaluated_in_their_frame() {
    assert_eq!(
        evaluation_place(false, true, Some(3)).unwrap(),
        Place::Target
    );
    assert_eq!(
        evaluation_place(true, true, Some(3)).unwrap(),
        Place::FrameOfTarget(3)
    );
    assert_eq!(
        evaluation_place(true, false, Some(3)).unwrap(),
        Place::FrameOfPage(3)
    );
    let error = evaluation_place(true, false, None).unwrap_err();
    assert_eq!(
        told(&error),
        (
            FailureCategory::Protocol,
            "active frame has no executable context"
        )
    );
}

#[test]
fn faults_are_told_as_errors() {
    for (fault, category, message) in [
        (
            Fault::TimeoutTooLarge,
            FailureCategory::Protocol,
            "step timeout is too large",
        ),
        (
            Fault::BrowserLost("Chromium is closed".to_owned()),
            FailureCategory::Protocol,
            "Chromium is closed",
        ),
        (
            Fault::Step(StepError::assertion("missed")),
            FailureCategory::Assertion,
            "missed",
        ),
        (
            Fault::Recording(RecordingFault::TimeoutTooLarge),
            FailureCategory::Recording,
            "recording timeout is too large",
        ),
        (
            Fault::Recording(RecordingFault::Text("broken".to_owned())),
            FailureCategory::Recording,
            "broken",
        ),
        (
            Fault::RemoveRecording {
                path: "a.mp4".to_owned(),
                error: "denied".to_owned(),
            },
            FailureCategory::Recording,
            "remove passing recording a.mp4: denied",
        ),
    ] {
        let error = fault_error(fault);
        assert_eq!(told(&error), (category, message));
        assert!(!error.deadline_based);
    }
    let error = fault_error(Fault::DeadlineExpired);
    assert_eq!(
        told(&error),
        (FailureCategory::Timeout, "step deadline expired")
    );
    assert!(error.deadline_based);
    assert_eq!(
        told(&request_failed()),
        (FailureCategory::Request, "HTTP request failed")
    );
    assert_eq!(
        told(&body_failed()),
        (FailureCategory::Request, "HTTP response body failed")
    );
    assert_eq!(
        told(&crop_outside()),
        (
            FailureCategory::Protocol,
            "screenshot crop must fit within the active frame viewport"
        )
    );
}

#[test]
fn faults_of_the_recording_say_nothing_of_the_page() {
    let flow = flow(vec![Operation::Back]);
    let mut redactor = Redactor::new();
    redactor.add_secret("canary-value");
    let url = Some("https://example.test/canary-value");
    let failure = fault_failure(
        &flow,
        &redactor,
        Some(&flow.steps[0]),
        Fault::DeadlineExpired,
        BrowserStatus::Running,
        url,
    );
    assert_eq!(failure.category, FailureCategory::Timeout);
    assert_eq!(failure.message.as_str(), "step deadline expired");
    assert_eq!(failure.step.as_ref().unwrap().operation, "back");
    assert_eq!(
        failure.current_url.as_ref().unwrap().as_str(),
        "https://example.test/[REDACTED]"
    );
    assert_eq!(failure.timeout_ms, Some(10_000));
    let failure = fault_failure(
        &flow,
        &redactor,
        Some(&flow.steps[0]),
        Fault::Recording(RecordingFault::Text("broken".to_owned())),
        BrowserStatus::Closed,
        url,
    );
    assert_eq!(failure.category, FailureCategory::Recording);
    assert_eq!(failure.message.as_str(), "broken");
    assert_eq!(failure.step.as_ref().unwrap().number, 1);
    assert!(failure.current_url.is_none());
    let failure = fault_failure(
        &flow,
        &redactor,
        None,
        Fault::TimeoutTooLarge,
        BrowserStatus::Closed,
        url,
    );
    assert_eq!(failure.category, FailureCategory::Protocol);
    assert!(failure.step.is_none() && failure.current_url.is_none());
}

#[test]
fn pages_that_do_not_settle_fail_their_step() {
    let last = Observation {
        sighting: Sighting::Hidden,
        text: "hidden".to_owned(),
    };
    let error = settle_locator_error(LocatorError::Timeout { last });
    assert_eq!(
        told(&error),
        (
            FailureCategory::Actionability,
            "open settle condition was not satisfied before the step deadline"
        )
    );
    assert_eq!(error.last_observed.as_deref(), Some("hidden"));
    assert!(error.deadline_based);
    let error = settle_locator_error(LocatorError::Protocol("closed".to_owned()));
    assert_eq!(told(&error), (FailureCategory::Protocol, "closed"));
    let error = opener_page(None).unwrap_err();
    assert_eq!(
        told(&error),
        (FailureCategory::Navigation, "active page has no opener")
    );
    assert_eq!(opener_page(Some("page-1".to_owned())).unwrap(), "page-1");
}

#[test]
fn plans_follow_the_steps_of_a_flow() {
    let flow = flow(vec![
        Operation::ClickPoint {
            point: ViewportPoint { x: 1, y: 2 },
        },
        Operation::Screenshot {
            name: "a".to_owned(),
            crop: None,
        },
        Operation::Recording(RecordingControl::Stop),
    ]);
    let plans = step_plans(&flow);
    assert_eq!(plans.len(), 3);
    assert!(plans.iter().all(|plan| plan.retries == 2));
    assert_eq!(
        plans
            .iter()
            .map(|plan| plan.captures_screenshot)
            .collect::<Vec<_>>(),
        [false, true, false]
    );
    assert!(plans[0].control.is_none() && plans[1].control.is_none());
    assert!(matches!(plans[2].control, Some(RecordingControl::Stop)));
    assert!(!expects_dialog(&flow));
    let settings = SessionSettings::from_flow(&flow);
    assert_eq!(settings.timeout, 7_000_000_000);
    assert_eq!(settings.viewport, flow.settings.viewport);
    assert_eq!(settings.geolocation, None);
}

#[test]
fn flows_with_dialog_steps_expect_dialogs() {
    assert!(expects_dialog(&flow(vec![
        Operation::Back,
        Operation::Dialog {
            action: NativeDialogResponse::Accept,
            text: None,
        },
    ])));
    assert!(!expects_dialog(&flow(vec![])));
}

#[test]
fn lost_browsers_have_crashed() {
    assert_eq!(
        browser_error_category(BrowserStatus::Running),
        FailureCategory::Protocol
    );
    assert_eq!(
        browser_error_category(BrowserStatus::Failed),
        FailureCategory::BrowserCrash
    );
    assert_eq!(
        browser_error_category(BrowserStatus::Closed),
        FailureCategory::BrowserCrash
    );
}

#[test]
fn contexts_that_stay_open_fail_their_flow() {
    let report = |status: FlowStatus| FlowReport {
        name: "flow".to_owned(),
        path: "flow.yaml".to_owned(),
        duration_ms: 5,
        status,
        failures: Vec::new(),
        warnings: Vec::new(),
        artifacts: ArtifactPaths {
            directory: "out".to_owned(),
            screenshots: Vec::new(),
            failure_screenshot: None,
            visual_actual: None,
            visual_diff: None,
            recording: None,
            partial_recording: None,
        },
    };
    let failure = Failure::new(
        FailureCategory::Protocol,
        SafeText::public("timed out".to_owned()),
    );
    let failed = add_close_failure(report(FlowStatus::Passed), failure.clone());
    assert_eq!(failed.status, FlowStatus::Failed);
    assert_eq!(failed.failures, [failure.clone()]);
    assert_eq!(failed.duration_ms, 5);
    let interrupted = add_close_failure(report(FlowStatus::Interrupted), failure);
    assert_eq!(interrupted.status, FlowStatus::Interrupted);
}

#[test]
fn ended_recordings_are_told_with_what_is_left() {
    let done = video_finish(
        Ok(Some("a.mp4".to_owned())),
        "a.partial.mp4".to_owned(),
        false,
        false,
    );
    assert!(matches!(done, VideoFinish::Done(Some(path)) if path == "a.mp4"));
    let fault = EndingFault {
        error: "lost".to_owned(),
        recording: Some("a.mp4".to_owned()),
    };
    match video_finish(Err(fault), "a.partial.mp4".to_owned(), true, false) {
        VideoFinish::Broken(broken) => {
            assert_eq!(broken.error, "lost");
            assert_eq!(broken.partial, "a.partial.mp4");
            assert!(broken.partial_exists);
            assert_eq!(broken.recording.as_deref(), Some("a.mp4"));
            assert!(!broken.recording_exists);
        }
        other => panic!("{other:?}"),
    }
}

#[test]
fn closed_sessions_note_their_recording() {
    let entry = close_entry(&SessionRecordingFinish {
        status: RecordingStatus::Partial,
        path: None,
        partial_path: Some("a.partial.mp4".to_owned()),
        warnings: vec!["late".to_owned()],
    });
    match entry {
        JournalEvent::Close { summary } => assert_eq!(
            write_json(&summary),
            "{\"recording\":{\"partial_path\":\"a.partial.mp4\",\"status\":\"partial\",\"warnings\":[\"late\"]}}"
        ),
        other => panic!("{other:?}"),
    }
}

#[test]
fn steps_are_noted_with_their_outcome() {
    let done = Ok(InteractiveStepResult {
        url: String::new(),
        title: String::new(),
        outputs: Vec::new(),
        artifact: None,
    });
    match step_entry(&scroll_step(0, -5), &None, &done) {
        JournalEvent::ReplayStep {
            step,
            outcome,
            durable_locator,
        } => {
            assert_eq!(write_json(&step), "{\"scroll\":{\"x\":0,\"y\":-5}}");
            assert_eq!(outcome, ActionOutcome::Success);
            assert!(durable_locator.is_none());
        }
        other => panic!("{other:?}"),
    }
    let failed = Err(InteractiveStepError {
        category: FailureCategory::Locator,
        message: "missing".to_owned(),
        last_observed: None,
    });
    match step_entry(&JsonValue::Null, &Some(text("a")), &failed) {
        JournalEvent::ReplayStep {
            outcome,
            durable_locator,
            ..
        } => {
            assert_eq!(
                outcome,
                ActionOutcome::Failed {
                    error: "missing".to_owned()
                }
            );
            assert_eq!(durable_locator, Some(text("a")));
        }
        other => panic!("{other:?}"),
    }
}

#[test]
fn captures_are_taken_again_until_the_deadline() {
    assert!(capture_again(true, 4, 5));
    assert!(!capture_again(true, 5, 5));
    assert!(!capture_again(false, 4, 5));
    let node = AxNode {
        ignored: false,
        backend_node_id: Some(1),
        role: None,
        name: Some(text("Sign in")),
        value: None,
        description: None,
        properties: Vec::new(),
    };
    assert_eq!(node_name(&node).as_deref(), Some("Sign in"));
}
