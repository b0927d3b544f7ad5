use playrust::codec::read_json;
use playrust::interactive::{InteractiveStepError, InteractiveStepResult};
use playrust::json::JsonValue;
use playrust::recorder::{RecordingStatus, SessionRecordingFinish};
use playrust::report::{ArtifactPaths, ExitCode, FailureCategory, FlowReport, FlowStatus};
use playrust::request::decode_request;
use playrust::session::{
    Action, Body, CloseResult, ErrorCode, Event, Input, Note, Outcome, PreparedAction, Response,
    Session,
};
use playrust::wire::write_response;

fn request(line: &str) -> Event {
    let request = decode_request(line.as_bytes()).unwrap();
    Event::Input(Input::Request {
        request,
        pending: None,
        latest: 0,
    })
}

fn opened() -> Session {
    let (session, action) = Session::start("s".to_owned(), 1280, 720);
    assert!(matches!(
        action,
        Action::Launch {
            width: 1580,
            height: 920
        }
    ));
    let (session, action) = session.next(Event::Launched(true));
    assert!(matches!(action, Action::PrepareArtifacts));
    let (session, action) = session.next(Event::ArtifactsReady(Ok(())));
    assert!(matches!(action, Action::Log(Note::Settings)));
    let (session, action) = session.next(Event::Logged(Ok(())));
    assert!(matches!(action, Action::OpenSession));
    let (session, action) = session.next(Event::Opened(Ok(Vec::new())));
    assert!(matches!(action, Action::ReadCommand));
    session
}

fn reply(action: Action) -> Response {
    match action {
        Action::Reply(response) => response,
        other => panic!("{other:?}"),
    }
}

fn close() -> CloseResult {
    CloseResult {
        recording: SessionRecordingFinish {
            status: RecordingStatus::Failed,
            path: None,
            partial_path: None,
            warnings: Vec::new(),
        },
        warnings: Vec::new(),
    }
}

fn report(status: FlowStatus) -> FlowReport {
    FlowReport {
        name: "x".to_owned(),
        path: "x.yaml".to_owned(),
        duration_ms: 1,
        status,
        failures: Vec::new(),
        warnings: Vec::new(),
        artifacts: ArtifactPaths {
            directory: "d".to_owned(),
            screenshots: Vec::new(),
            failure_screenshot: None,
            visual_actual: None,
            visual_diff: None,
            recording: None,
            partial_recording: None,
        },
    }
}

#[test]
fn every_response_advances_the_revision() {
    let session = opened();
    let (session, action) = session.next(request(r#"{"id":1,"command":"cancel"}"#));
    let first = reply(action);
    assert_eq!(first.revision, 1);
    assert!(matches!(
        first.outcome,
        Outcome::Error {
            code: ErrorCode::NotActive,
            ..
        }
    ));
    let (session, action) = session.next(Event::Written(true));
    assert!(matches!(action, Action::ReadCommand));
    let (_, action) = session.next(Event::Input(Input::Malformed {
        id: JsonValue::Unsigned(2),
        message: "failed".to_owned(),
    }));
    let second = reply(action);
    assert_eq!(second.revision, 2);
    assert!(write_response("session", &second).contains("\"message\":\"failed\""));
}

#[test]
fn a_session_closes_once_and_ends() {
    let session = opened();
    let (session, action) = session.next(request(r#"{"id":"c","command":"close"}"#));
    assert!(matches!(action, Action::CloseBrowser));
    let (session, action) = session.next(Event::Closed(Ok(close())));
    assert!(matches!(action, Action::PublishClose(_)));
    let (session, action) =
        session.next(Event::Published(Ok((Some("out/run".to_owned()), close()))));
    let response = reply(action);
    let line = write_response("s", &response);
    assert!(line.contains("\"bundle\":\"out/run\""), "{line}");
    assert!(line.contains("\"closed\":true"));
    assert!(line.contains("\"recording\":{\"status\":\"failed\",\"warnings\":[]}"));
    let (session, action) = session.next(Event::Written(true));
    assert!(matches!(action, Action::ShutDown));
    let (session, action) = session.next(Event::ShutDown(true));
    assert!(matches!(action, Action::Finish(ExitCode::Success)));
    let (_, action) = session.next(request(r#"{"id":"c","command":"close"}"#));
    assert!(matches!(action, Action::Ignore));
}

#[test]
fn commands_are_refused_while_a_submission_runs() {
    let session = opened();
    let (session, action) =
        session.next(request(r#"{"id":1,"command":"submit","flow":"f"}"#));
    assert!(matches!(action, Action::Compile { number: 1, .. }));
    let (session, action) = session.next(Event::Compiled(Ok(true)));
    assert!(matches!(action, Action::Submit { number: 1 }));
    let (session, action) = session.next(request(r#"{"id":2,"command":"inspect"}"#));
    match action {
        Action::ReplyWhileRunning { response, cancel } => {
            assert!(!cancel);
            assert!(matches!(
                response.outcome,
                Outcome::Error {
                    code: ErrorCode::Busy,
                    ..
                }
            ));
        }
        other => panic!("{other:?}"),
    }
    let (session, _) = session.next(Event::Written(true));
    let (session, action) = session.next(request(r#"{"id":3,"command":"cancel"}"#));
    assert!(matches!(
        action,
        Action::ReplyWhileRunning { cancel: true, .. }
    ));
    let (session, _) = session.next(Event::Written(true));
    let (session, action) = session.next(Event::Finished(Ok(report(FlowStatus::Failed))));
    assert!(matches!(
        action,
        Action::Log(Note::Submission { passed: false })
    ));
    let (session, action) = session.next(Event::Logged(Ok(())));
    assert!(matches!(action, Action::WriteReport));
    let (session, action) = session.next(Event::Reported(Ok(())));
    let line = write_response("s", &reply(action));
    assert!(line.contains("\"code\":\"cancelled\""), "{line}");
    assert!(line.contains("\"status\":\"interrupted\""));
    let (_, action) = session.next(Event::Written(true));
    assert!(matches!(action, Action::CloseBrowser));
}

#[test]
fn a_passed_submission_is_answered_with_its_report() {
    let session = opened();
    let (session, _) = session.next(request(r#"{"id":1,"command":"submit","flow":"f"}"#));
    let (session, _) = session.next(Event::Compiled(Ok(true)));
    let (session, _) = session.next(Event::Finished(Ok(report(FlowStatus::Passed))));
    let (session, _) = session.next(Event::Logged(Ok(())));
    let (session, action) = session.next(Event::Reported(Ok(())));
    assert_eq!(
        write_response("s", &reply(action)),
        "{\"id\":1,\"ok\":true,\"session_id\":\"s\",\"revision\":1,\"result\":{\"artifacts\":{\"directory\":\"d\",\"screenshots\":[]},\"duration_ms\":1,\"failures\":[],\"name\":\"x\",\"path\":\"x.yaml\",\"status\":\"passed\",\"warnings\":[]}}\n"
    );
    let (_, action) = session.next(Event::Written(true));
    assert!(matches!(action, Action::ReadCommand));
}

#[test]
fn other_settings_are_a_conflict() {
    let session = opened();
    let (session, _) = session.next(request(r#"{"id":1,"command":"submit","flow":"f"}"#));
    let (_, action) = session.next(Event::Compiled(Ok(false)));
    assert!(matches!(
        reply(action).outcome,
        Outcome::Error {
            code: ErrorCode::SettingsConflict,
            ..
        }
    ));
}

fn prepared() -> PreparedAction {
    PreparedAction {
        step: read_json(b"{\"click\":{\"target\":{\"css\":\"a\"}}}").unwrap(),
        locator: Some(read_json(b"{\"css\":\"a\"}").unwrap()),
        name: "click".to_owned(),
        backend_node_id: Some(4),
    }
}

#[test]
fn actions_check_their_reference_before_they_act() {
    let session = opened();
    let (session, action) =
        session.next(request(r#"{"id":1,"command":"act","action":{"click":{"ref":"e1"}}}"#));
    assert!(matches!(action, Action::PrepareAction(_)));
    let (session, action) = session.next(Event::Prepared(Ok(prepared())));
    assert!(matches!(action, Action::CompileAction));
    let (session, action) = session.next(Event::ActionCompiled(Ok(())));
    assert!(matches!(action, Action::MatchReference(4)));
    let (session, action) = session.next(Event::Matched {
        result: Ok(true),
        latest: 3,
    });
    assert!(matches!(action, Action::ReadUrl));
    let (session, action) = session.next(Event::UrlRead(Some("https://a.test".to_owned())));
    assert!(matches!(action, Action::Act));
    let (session, action) = session.next(Event::Acted(Ok(InteractiveStepResult {
        url: "https://b.test".to_owned(),
        title: "B".to_owned(),
        outputs: vec!["o".to_owned()],
        artifact: None,
    })));
    assert!(matches!(action, Action::LogStep));
    let (session, action) = session.next(Event::Logged(Ok(())));
    assert!(matches!(action, Action::Log(Note::Navigation(_))));
    let (session, action) = session.next(Event::Logged(Ok(())));
    assert!(matches!(action, Action::Observe));
    let (_, action) = session.next(Event::Observed {
        pending: None,
        elapsed_ms: 12,
    });
    assert_eq!(
        write_response("s", &reply(action)),
        "{\"id\":1,\"ok\":true,\"session_id\":\"s\",\"revision\":1,\"result\":{\"action\":\"click\",\"artifacts\":[],\"elapsed_ms\":12,\"locator\":{\"css\":\"a\"},\"outputs\":[\"o\"],\"pending_dialog\":null,\"title\":\"B\",\"url\":\"https://b.test\"}}\n"
    );
}

#[test]
fn a_lost_element_is_not_acted_on() {
    let session = opened();
    let (session, _) =
        session.next(request(r#"{"id":1,"command":"act","action":{"click":{"ref":"e1"}}}"#));
    let (session, _) = session.next(Event::Prepared(Ok(prepared())));
    let (session, _) = session.next(Event::ActionCompiled(Ok(())));
    let (_, action) = session.next(Event::Matched {
        result: Ok(false),
        latest: 3,
    });
    match reply(action).outcome {
        Outcome::Error { code, details, .. } => {
            assert_eq!(code, ErrorCode::StaleReference);
            assert!(matches!(details, Some(Body::LatestSnapshot(3))));
        }
        other => panic!("{other:?}"),
    }
}

#[test]
fn failed_scrolling_is_told_and_empty_scrolling_refused() {
    let session = opened();
    let (session, action) = session.next(request(r#"{"id":1,"command":"scroll","y":0}"#));
    assert!(matches!(
        reply(action).outcome,
        Outcome::Error {
            code: ErrorCode::Validation,
            ..
        }
    ));
    let (session, _) = session.next(Event::Written(true));
    let (session, action) = session.next(request(r#"{"id":2,"command":"scroll","y":5}"#));
    assert!(matches!(action, Action::Scroll { x: 0, y: 5 }));
    let (session, action) = session.next(Event::Acted(Err(InteractiveStepError {
        category: FailureCategory::Protocol,
        message: "lost".to_owned(),
        last_observed: None,
    })));
    assert!(matches!(action, Action::LogStep));
    let (_, action) = session.next(Event::Logged(Ok(())));
    assert!(write_response("s", &reply(action)).contains("\"message\":\"lost\""));
}

#[test]
fn without_a_journal_a_session_does_not_start() {
    let (session, _) = Session::start("s".to_owned(), u32::MAX, 1);
    let (session, _) = session.next(Event::Launched(true));
    let (session, action) = session.next(Event::ArtifactsReady(Err("denied".to_owned())));
    assert!(matches!(action, Action::PrepareFallback));
    let (session, action) = session.next(Event::ArtifactsReady(Err("full".to_owned())));
    assert!(matches!(action, Action::ShutDown));
    let (_, action) = session.next(Event::ShutDown(true));
    assert!(matches!(action, Action::Finish(ExitCode::Infrastructure)));
}

fn opened_without_artifacts() -> Session {
    let (session, _) = Session::start("s".to_owned(), 1280, 720);
    let (session, _) = session.next(Event::Launched(true));
    let (session, action) = session.next(Event::ArtifactsReady(Err("denied".to_owned())));
    assert!(matches!(action, Action::PrepareFallback));
    let (session, _) = session.next(Event::ArtifactsReady(Ok(())));
    let (session, _) = session.next(Event::Logged(Ok(())));
    let (session, action) = session.next(Event::Opened(Ok(Vec::new())));
    assert!(matches!(action, Action::ReadCommand));
    session
}

#[test]
fn a_close_without_artifacts_is_answered_with_their_error() {
    let session = opened_without_artifacts();
    let (session, action) = session.next(request("{\"id\":7,\"command\":\"close\"}"));
    assert!(matches!(action, Action::CloseBrowser));
    let (session, action) = session.next(Event::Closed(Ok(close())));
    let response = reply(action);
    match &response.outcome {
        Outcome::Error { code, .. } => assert_eq!(code.name(), "artifacts"),
        other => panic!("{other:?}"),
    }
    let line = write_response("s", &response);
    assert!(line.contains("\"id\":7"), "{line}");
    assert!(
        line.contains("\"message\":\"initialize session artifacts: denied\""),
        "{line}"
    );
    let (session, action) = session.next(Event::Written(true));
    assert!(matches!(action, Action::ShutDown));
    let (_, action) = session.next(Event::ShutDown(true));
    assert!(matches!(action, Action::Finish(ExitCode::Infrastructure)));
}

#[test]
fn a_session_that_ends_without_artifacts_has_failed() {
    let session = opened_without_artifacts();
    let (session, action) = session.next(Event::Input(Input::Closed));
    assert!(matches!(action, Action::CloseBrowser));
    let (session, action) = session.next(Event::Closed(Ok(close())));
    assert!(matches!(action, Action::ShutDown));
    let (_, action) = session.next(Event::ShutDown(true));
    assert!(matches!(action, Action::Finish(ExitCode::Infrastructure)));
}

#[test]
fn the_end_of_input_closes_a_session() {
    let session = opened();
    let (session, action) = session.next(Event::Input(Input::Closed));
    assert!(matches!(action, Action::CloseBrowser));
    let (session, action) = session.next(Event::Closed(Err("gone".to_owned())));
    assert!(matches!(action, Action::ShutDown));
    let (_, action) = session.next(Event::ShutDown(true));
    assert!(matches!(action, Action::Finish(ExitCode::Infrastructure)));
}
