use playrust::bundle::{
    choose_screenshots, export_value, merged_warnings, sort_texts, Closing, ClosingAction,
    ClosingEvent, Creation, Export, ExportAction, ExportEvent,
};
use playrust::codec::write_json;
use playrust::flow::{PageSwitch, RecordingControl, ViewportPoint};
use playrust::flow_run::{
    Attempt, ControlCheck, FlowRun, OverlayChange, RunAction, RunEvent, StepPlan, VideoFinish,
    VideoStart,
};
use playrust::frames::{active_url, find_frame, FrameStack, FrameTree};
use playrust::gesture::{
    dialog_not_answered, viewport_click_error, ClickAction, ClickEvent, Clicks, Hold, HoldAction,
    HoldEvent,
};
use playrust::navigation::{
    choose_page, go_back, history_entry, page_in_context, page_matches, BackAction, BackEvent,
    Navigation, NavigationAction, NavigationEvent, PageChoice, PageFacts, TargetFacts, Trouble,
};
use playrust::recorder::{
    finish_result, screencast_frame, stop_error, Awaited, Finalization, FinalizeAction,
    FinalizeEvent, FinishAction, FinishEvent, FrameEvent, RecorderAction, RecorderEvent,
    RecordingStatus, SessionRecorder, SessionRecordingFinish, StartAction, StartEvent, StartOutcome,
    StopOutcome, VideoEnding, VideoStarting,
};
use playrust::report::{Failure, FailureCategory, SafeText};
use playrust::session::{CloseResult, ErrorCode};
use playrust::step_error::StepError;
use playrust::values::{Redactor, Resolved};
use playrust::video::{VideoError, VideoMode};

fn plain() -> StepPlan {
    StepPlan {
        control: None,
        retries: 1,
        captures_screenshot: false,
    }
}

fn tried(outcome: Attempt) -> RunEvent {
    RunEvent::Attempted { outcome, now: 5 }
}

fn failure(category: FailureCategory) -> Failure {
    Failure::new(category, SafeText::public("failed".to_owned()))
}

#[test]
fn failed_tries_are_repeated_and_then_told() {
    let (run, action) = FlowRun::start(vec![plain()], true, false, false, false);
    assert!(matches!(
        action,
        RunAction::Attempt {
            step: 0,
            attempt: 0,
            overlay: OverlayChange::Keep
        }
    ));
    let (run, action) = run.next(tried(Attempt::Failed(StepError::assertion("x"))));
    assert!(matches!(
        action,
        RunAction::Attempt {
            step: 0,
            attempt: 1,
            ..
        }
    ));
    let (run, action) = run.next(tried(Attempt::Failed(StepError::assertion("x"))));
    assert!(matches!(action, RunAction::CaptureFailure { .. }));
    let (run, action) = run.next(RunEvent::Captured(Some("failure.png".to_owned())));
    assert!(matches!(action, RunAction::Describe { step: Some(0), .. }));
    let (run, action) = run.next(RunEvent::Described(failure(FailureCategory::Assertion)));
    assert!(matches!(action, RunAction::CloseOverlay));
    let (run, action) = run.next(RunEvent::OverlayClosed);
    assert!(matches!(action, RunAction::Finish), "{action:?}");
    assert_eq!(run.core.failure_screenshot.as_deref(), Some("failure.png"));
    assert!(run.core.primary.is_some());
}

#[test]
fn a_run_that_passes_does_every_step() {
    let (run, _) = FlowRun::start(vec![plain(), plain()], true, false, false, false);
    let (run, action) = run.next(tried(Attempt::Done { screenshot: None }));
    assert!(matches!(action, RunAction::KeepStep { .. }));
    let (run, action) = run.next(RunEvent::Kept);
    assert!(matches!(action, RunAction::Attempt { step: 1, .. }));
    let (run, _) = run.next(tried(Attempt::Done { screenshot: None }));
    let (run, action) = run.next(RunEvent::Kept);
    assert!(matches!(action, RunAction::CloseOverlay));
    let (run, action) = run.next(RunEvent::OverlayClosed);
    assert!(matches!(action, RunAction::Finish), "{action:?}");
    assert!(run.core.primary.is_none() && !run.core.interrupted);
}

#[test]
fn cancelled_runs_do_nothing() {
    let (run, action) = FlowRun::start(vec![plain()], false, false, false, true);
    assert!(run.core.interrupted);
    assert!(!matches!(action, RunAction::Attempt { .. }));
}

#[test]
fn steps_control_the_recording() {
    let start = StepPlan {
        control: Some(RecordingControl::Start),
        retries: 0,
        captures_screenshot: false,
    };
    let (run, action) = FlowRun::start(vec![start, plain()], true, false, false, false);
    assert!(matches!(action, RunAction::CheckControl { step: 0 }));
    let (run, action) = run.next(RunEvent::Checked {
        check: ControlCheck::Matches(true),
        now: 3,
    });
    assert!(matches!(action, RunAction::StartVideoForStep { step: 0 }));
    let (run, action) = run.next(RunEvent::VideoStarted {
        start: VideoStart::Ready { recording: true },
        cancelled: false,
    });
    assert!(run.core.recording);
    assert!(matches!(action, RunAction::Attempt { step: 1, .. }), "{action:?}");
    let (run, _) = run.next(tried(Attempt::Done { screenshot: None }));
    let (run, action) = run.next(RunEvent::Kept);
    assert!(matches!(
        action,
        RunAction::FinishVideo {
            settle: true,
            failed: false,
            stop_at: None,
        }
    ));
    let (run, _) = run.next(RunEvent::VideoFinished(VideoFinish::Done(Some(
        "recording.mp4".to_owned(),
    ))));
    assert_eq!(run.core.recording_path.as_deref(), Some("recording.mp4"));
}

fn trouble(retryable: bool) -> Trouble {
    Trouble {
        message: "lost".to_owned(),
        retryable,
    }
}

#[test]
fn navigations_wait_for_the_page() {
    let (navigation, action) = Navigation::start("https://a.test".to_owned(), None);
    assert!(matches!(action, NavigationAction::AwaitCommand));
    let (navigation, action) = navigation.next(NavigationEvent::Replied {
        error_text: None,
        is_download: false,
        frame_id: "f".to_owned(),
    });
    assert!(matches!(action, NavigationAction::ReadUrl), "{action:?}");
    let (navigation, action) = navigation.next(NavigationEvent::UrlRead {
        url: "https://a.test".to_owned(),
        expired: false,
    });
    assert!(matches!(action, NavigationAction::ReadState), "{action:?}");
    let (navigation, action) = navigation.next(NavigationEvent::StateRead {
        state: "loading".to_owned(),
        expired: false,
    });
    assert!(matches!(action, NavigationAction::Sleep));
    let (navigation, action) = navigation.next(NavigationEvent::Slept);
    assert!(matches!(action, NavigationAction::ReadUrl));
    let (navigation, _) = navigation.next(NavigationEvent::UrlRead {
        url: "https://b.test".to_owned(),
        expired: false,
    });
    let (_, action) = navigation.next(NavigationEvent::StateRead {
        state: "interactive".to_owned(),
        expired: false,
    });
    assert!(matches!(action, NavigationAction::Done), "{action:?}");
}

#[test]
fn downloads_are_no_navigation() {
    let (navigation, _) = Navigation::start("https://a.test".to_owned(), None);
    let (_, action) = navigation.next(NavigationEvent::Replied {
        error_text: None,
        is_download: true,
        frame_id: "f".to_owned(),
    });
    match action {
        NavigationAction::Fail(fault) => assert_eq!(
            playrust::navigation::navigation_error(fault).message,
            "navigation resulted in a download"
        ),
        other => panic!("{other:?}"),
    }
}

#[test]
fn going_back_waits_for_the_entry() {
    assert!(matches!(
        go_back(2, BackEvent::HistoryRead { index: 3, expired: false }),
        BackAction::Sleep
    ));
    assert!(matches!(
        go_back(2, BackEvent::HistoryRead { index: 2, expired: false }),
        BackAction::ReadState
    ));
    assert!(matches!(
        go_back(2, BackEvent::StateRead { ready: true, expired: false }),
        BackAction::Done
    ));
    assert!(matches!(
        go_back(2, BackEvent::HistoryFailed { trouble: trouble(true), expired: true }),
        BackAction::Fail(_)
    ));
    assert_eq!(history_entry(&vec![7, 8], 1).unwrap(), 8);
    assert!(history_entry(&vec![7, 8], 2).is_err());
}

#[test]
fn pages_are_chosen_by_what_they_are() {
    let popup = PageFacts {
        opener: Some("main".to_owned()),
        name: "help".to_owned(),
        url: Some("https://help.test/".to_owned()),
    };
    assert!(page_matches(&PageSwitch::Popup, &popup, "main"));
    assert!(!page_matches(&PageSwitch::Popup, &popup, "other"));
    let named = PageSwitch::Name(Resolved::new("help".to_owned(), false));
    assert!(page_matches(&named, &popup, "main"));
    assert!(matches!(
        choose_page(&named, &vec![3], false),
        PageChoice::Switch(3)
    ));
    assert!(matches!(
        choose_page(&named, &vec![], false),
        PageChoice::Wait
    ));
    match choose_page(&named, &vec![], true) {
        PageChoice::Fail(error) => assert!(error.message.contains("no page named \"help\"")),
        other => panic!("{other:?}"),
    }
    let targets = vec![TargetFacts {
        id: "p".to_owned(),
        kind: "page".to_owned(),
        context: Some("c".to_owned()),
    }];
    assert!(page_in_context(&targets, "p", "c"));
    assert!(!page_in_context(&targets, "p", "d"));
}

#[test]
fn frames_are_entered_and_left() {
    let mut frames = FrameStack::new();
    assert!(frames.frame().is_none());
    assert!(frames.switch_to_parent().is_err());
    frames.switch_to_element(Some("outer".to_owned())).unwrap();
    frames.switch_to_element(Some("inner".to_owned())).unwrap();
    assert!(frames.switch_to_element(None).is_err());
    assert_eq!(frames.frame().map(String::as_str), Some("inner"));
    assert_eq!(frames.oopif_index(&vec![true, false]), Some(0));
    assert_eq!(
        frames.local_frame(&vec![true, false]).map(String::as_str),
        Some("inner")
    );
    assert_eq!(frames.point_path(&vec![true, false]), vec![1, 0]);
    frames.switch_to_parent().unwrap();
    assert_eq!(frames.frame().map(String::as_str), Some("outer"));
    frames.switch_to_main();
    assert!(frames.frame().is_none());
    let tree = FrameTree {
        id: "root".to_owned(),
        url: "https://a.test".to_owned(),
        children: vec![FrameTree {
            id: "child".to_owned(),
            url: "https://b.test".to_owned(),
            children: Vec::new(),
        }],
    };
    assert_eq!(
        find_frame(&tree, "child").map(String::as_str),
        Some("https://b.test")
    );
    assert!(find_frame(&tree, "gone").is_none());
    assert_eq!(active_url(&tree, None).as_deref(), Some("https://a.test"));
}

#[test]
fn clicks_are_counted_and_end_with_a_dialog() {
    let (clicks, action) = Clicks::start(2, true);
    assert!(matches!(action, ClickAction::Move));
    let (clicks, action) = clicks.next(ClickEvent::Done);
    assert!(matches!(action, ClickAction::Press { count: 1 }));
    let (clicks, action) = clicks.next(ClickEvent::Done);
    assert!(matches!(action, ClickAction::Settle));
    let (clicks, action) = clicks.next(ClickEvent::Done);
    assert!(matches!(action, ClickAction::Release { count: 1 }));
    let (clicks, action) = clicks.next(ClickEvent::Done);
    assert!(matches!(action, ClickAction::Press { count: 2 }));
    let (clicks, action) = clicks.next(ClickEvent::DialogOpened);
    assert!(matches!(action, ClickAction::Finish));
    let (_, action) = clicks.next(ClickEvent::Done);
    assert!(matches!(action, ClickAction::Ignore));
}

#[test]
fn recordings_end_with_the_step_that_failed() {
    let (run, action) = FlowRun::start(vec![plain()], false, false, false, false);
    assert!(matches!(action, RunAction::StartVideo));
    let (run, _) = run.next(RunEvent::VideoStarted {
        start: VideoStart::Ready { recording: true },
        cancelled: false,
    });
    let (run, action) = run.next(RunEvent::Attempted {
        outcome: Attempt::Expired,
        now: 7,
    });
    assert!(matches!(action, RunAction::Attempt { attempt: 1, .. }));
    assert_eq!(run.core.stop_at, None);
    let (run, action) = run.next(RunEvent::Attempted {
        outcome: Attempt::Expired,
        now: 9,
    });
    assert!(matches!(action, RunAction::CaptureFailure { .. }));
    let (run, _) = run.next(RunEvent::Captured(None));
    let (_, action) = run.next(RunEvent::Described(failure(FailureCategory::Timeout)));
    assert!(matches!(
        action,
        RunAction::FinishVideo {
            settle: false,
            failed: true,
            stop_at: Some(9),
        }
    ));
}

#[test]
fn failed_clicks_are_not_tried_again() {
    let (clicks, _) = Clicks::start(2, false);
    let (clicks, action) = clicks.next(ClickEvent::Done);
    assert!(matches!(action, ClickAction::Press { count: 1 }));
    let (clicks, action) = clicks.next(ClickEvent::Failed(StepError::assertion("pressed")));
    match action {
        ClickAction::Fail(error) => assert_eq!(error.message, "pressed"),
        other => panic!("{other:?}"),
    }
    let (clicks, action) = clicks.next(ClickEvent::Done);
    assert!(matches!(action, ClickAction::Ignore));
    let (_, action) = clicks.next(ClickEvent::Done);
    assert!(matches!(action, ClickAction::Ignore));
}

#[test]
fn errors_of_input_tell_what_was_tried() {
    let point = ViewportPoint { x: 30, y: 40 };
    let error = viewport_click_error(point, StepError::assertion("gone").deadline());
    assert_eq!(error.message, "viewport click at (30, 40) failed: gone");
    assert_eq!(error.category, FailureCategory::Assertion);
    assert!(error.deadline_based);
    let error = dialog_not_answered("no dialog is showing");
    assert_eq!(error.message, "handle native dialog: no dialog is showing");
    assert_eq!(error.category, FailureCategory::Actionability);
}

#[test]
fn redactors_take_over_the_secrets_of_others() {
    let mut first = Redactor::new();
    first.add_secret("alpha-secret");
    let mut second = Redactor::new();
    second.add_secret("beta-secret");
    first.extend(&second);
    assert_eq!(
        first.redact("alpha-secret and beta-secret"),
        "[REDACTED] and [REDACTED]"
    );
    assert_eq!(second.redact("alpha-secret"), "alpha-secret");
}

#[test]
fn held_pointers_are_released() {
    let (hold, action) = Hold::start(true);
    assert!(matches!(action, HoldAction::Press));
    let (hold, action) = hold.next(HoldEvent::Done);
    assert!(matches!(action, HoldAction::Wait));
    let (hold, action) = hold.next(HoldEvent::Done);
    assert!(matches!(action, HoldAction::Move));
    let (hold, action) = hold.next(HoldEvent::Failed(StepError::assertion("moved")));
    assert!(matches!(action, HoldAction::Release));
    let (_, action) = hold.next(HoldEvent::Failed(StepError::assertion("released")));
    match action {
        HoldAction::Fail(error) => assert_eq!(error.message, "moved"),
        other => panic!("{other:?}"),
    }
}

#[test]
fn screencast_frames_are_decoded() {
    assert_eq!(
        screencast_frame(FrameEvent::Frame(b"AAEC".to_vec())).unwrap(),
        vec![0, 1, 2]
    );
    assert!(screencast_frame(FrameEvent::Frame(b"!".to_vec()))
        .unwrap_err()
        .starts_with("decode screencast frame: "));
    assert_eq!(
        screencast_frame(FrameEvent::Closed).unwrap_err(),
        "screencast event stream closed"
    );
    assert_eq!(
        screencast_frame(FrameEvent::NotAcknowledged("gone".to_owned())).unwrap_err(),
        "acknowledge screencast frame: gone"
    );
    assert_eq!(stop_error(StopOutcome::Stopped), None);
    assert_eq!(
        stop_error(StopOutcome::TimedOut).as_deref(),
        Some("stop screencast timed out")
    );
}

fn finalization(mode: VideoMode, flow_failed: bool) -> Finalization {
    Finalization::start(
        mode,
        flow_failed,
        "out.mp4".to_owned(),
        "out.partial.mp4".to_owned(),
    )
}

fn exited(finalization: Finalization) -> (Finalization, FinalizeAction) {
    let (finalization, action) = finalization.next(FinalizeEvent::Written(None));
    assert!(matches!(action, FinalizeAction::WaitForExit));
    let (finalization, action) = finalization.next(FinalizeEvent::Exited {
        success: true,
        status: "exit status: 0".to_owned(),
    });
    assert!(matches!(action, FinalizeAction::ReadStderr));
    finalization.next(FinalizeEvent::StderrRead(String::new()))
}

#[test]
fn recordings_are_published_or_removed_by_mode() {
    let (work, action) = exited(finalization(VideoMode::RetainOnFailure, false));
    assert!(matches!(action, FinalizeAction::RemoveOutput));
    let (work, action) = work.next(FinalizeEvent::Done(None));
    assert!(matches!(action, FinalizeAction::RemovePartial));
    let (_, action) = work.next(FinalizeEvent::Done(None));
    assert!(matches!(action, FinalizeAction::Finish(Ok(None))));

    let (work, _) = exited(finalization(VideoMode::RetainOnFailure, true));
    let (work, action) = work.next(FinalizeEvent::Done(None));
    assert!(matches!(action, FinalizeAction::RenamePartial));
    let (_, action) = work.next(FinalizeEvent::Done(None));
    match action {
        FinalizeAction::Finish(Ok(Some(path))) => assert_eq!(path, "out.mp4"),
        other => panic!("{other:?}"),
    }
}

#[test]
fn late_writers_are_killed() {
    let (work, action) = finalization(VideoMode::On, false).next(FinalizeEvent::WriterTimedOut);
    assert!(matches!(action, FinalizeAction::Kill { abort_writer: true }));
    let (_, action) = work.next(FinalizeEvent::Killed);
    match action {
        FinalizeAction::Finish(Err(error)) => assert_eq!(
            error.message(),
            "FFmpeg finalization timed out after 15s; partial recording retained at out.partial.mp4"
        ),
        other => panic!("{other:?}"),
    }
}

#[test]
fn recordings_of_flows_tell_every_screencast_error() {
    let mut ending = VideoEnding::start(false, "p".to_owned());
    assert!(matches!(
        ending.next(FinishEvent::Stopped(StopOutcome::Failed("a".to_owned()))),
        FinishAction::Join
    ));
    assert!(matches!(
        ending.next(FinishEvent::Joined(Some("b".to_owned()))),
        FinishAction::Finalize { retain: true }
    ));
    match ending.next(FinishEvent::Finalized(Ok(Some("out.mp4".to_owned())))) {
        FinishAction::Finish(Err(fault)) => {
            assert_eq!(fault.error, "stop screencast: a; b");
            assert_eq!(fault.recording.as_deref(), Some("out.mp4"));
        }
        other => panic!("{other:?}"),
    }
    let mut ending = VideoEnding::start(false, "p".to_owned());
    ending.next(FinishEvent::Stopped(StopOutcome::Stopped));
    assert!(matches!(
        ending.next(FinishEvent::Joined(None)),
        FinishAction::Finalize { retain: false }
    ));
    match ending.next(FinishEvent::Finalized(Err(VideoError::H264Unavailable))) {
        FinishAction::Finish(Err(fault)) => assert!(fault.error.contains("libx264")),
        other => panic!("{other:?}"),
    }
}

fn came(result: Result<(), String>) -> StartEvent {
    StartEvent::Came(Awaited::Ready(result))
}

#[test]
fn recordings_start_with_their_first_frame() {
    let (start, action) = VideoStarting::start("p".to_owned(), false, VideoMode::On, true);
    assert!(matches!(action, StartAction::CreateDirectory));
    let (start, action) = start.next(came(Ok(())));
    assert!(matches!(action, StartAction::Listen));
    let (start, action) = start.next(came(Ok(())));
    assert!(matches!(action, StartAction::StartScreencast));
    let (start, action) = start.next(came(Ok(())));
    assert!(matches!(action, StartAction::StartRecorder));
    let (start, action) = start.next(came(Ok(())));
    assert!(matches!(action, StartAction::AwaitFrame));
    let (_, action) = start.next(came(Ok(())));
    assert!(matches!(
        action,
        StartAction::End(StartOutcome::Ready { recording: true })
    ));
}

#[test]
fn failed_starts_stop_the_screencast() {
    let (start, _) = VideoStarting::start("p".to_owned(), false, VideoMode::On, true);
    let (start, _) = start.next(came(Ok(())));
    let (start, _) = start.next(came(Ok(())));
    let (start, action) = start.next(StartEvent::Came(Awaited::Deadline));
    assert!(matches!(action, StartAction::StopScreencast));
    let (_, action) = start.next(StartEvent::Stopped {
        error: Some("stuck".to_owned()),
        partial_exists: false,
    });
    match action {
        StartAction::End(outcome) => match outcome.into_start() {
            VideoStart::Failed(message) => assert_eq!(
                message,
                "recording start deadline expired; cleanup failed: stuck"
            ),
            other => panic!("{other:?}"),
        },
        other => panic!("{other:?}"),
    }
    let (_, action) = VideoStarting::start("p".to_owned(), false, VideoMode::On, false);
    match action {
        StartAction::End(outcome) => match outcome.into_start() {
            VideoStart::Failed(message) => assert_eq!(
                message,
                "video is enabled but no FFmpeg path was provided"
            ),
            other => panic!("{other:?}"),
        },
        other => panic!("{other:?}"),
    }
    let (_, action) = VideoStarting::start("p".to_owned(), true, VideoMode::On, true);
    assert!(matches!(
        action,
        StartAction::End(StartOutcome::Cancelled(None))
    ));
}

#[test]
fn recorders_follow_from_page_to_page() {
    let recorder = SessionRecorder::new();
    let (recorder, action) = recorder.next(RecorderEvent::Bind("a".to_owned()));
    assert!(matches!(action, RecorderAction::Listen));
    let (recorder, _) = recorder.next(RecorderEvent::Listened(None));
    let (recorder, action) = recorder.next(RecorderEvent::Cast(None));
    assert!(matches!(action, RecorderAction::Bound));
    let (recorder, action) = recorder.next(RecorderEvent::Bind("a".to_owned()));
    assert!(matches!(action, RecorderAction::Bound));
    let (recorder, action) = recorder.next(RecorderEvent::Bind("b".to_owned()));
    assert!(matches!(action, RecorderAction::StopScreencast));
    let (recorder, action) = recorder.next(RecorderEvent::Stopped(StopOutcome::TimedOut));
    assert!(matches!(action, RecorderAction::JoinTask));
    let (recorder, action) = recorder.next(RecorderEvent::Joined(None));
    assert!(matches!(action, RecorderAction::Listen));
    let (recorder, action) = recorder.next(RecorderEvent::Listened(Some("x".to_owned())));
    match action {
        RecorderAction::NotBound(fault) => {
            assert_eq!(fault.message(), "listen for screencast frames: x")
        }
        other => panic!("{other:?}"),
    }
    let (recorder, action) = recorder.next(RecorderEvent::Finalize);
    assert!(matches!(
        action,
        RecorderAction::FinalizeRecorder { with_frame: false }
    ));
    let (recorder, action) = recorder.next(RecorderEvent::FinalizeTimedOut);
    assert!(matches!(action, RecorderAction::Finish { path: None }));
    assert_eq!(
        recorder.warnings,
        vec!["stop screencast timed out", "video finalization timed out"]
    );
    let finish = finish_result(None, "out.mp4", false, "p.mp4", true, recorder.warnings);
    assert_eq!(finish.status, RecordingStatus::Partial);
    assert_eq!(finish.partial_path.as_deref(), Some("p.mp4"));
}

#[test]
fn bundles_are_exported_step_by_step() {
    let (export, action) = Export::start("run".to_owned(), "out/run".to_owned(), false, &None);
    assert!(matches!(action, ExportAction::BuildReplay));
    let (export, action) = export.next(ExportEvent::Built(None));
    assert!(matches!(action, ExportAction::Compile));
    let (export, action) = export.next(ExportEvent::Compiled(None));
    assert!(matches!(action, ExportAction::CreateDirectory));
    let (export, action) = export.next(ExportEvent::Created(Creation::Done));
    assert!(matches!(action, ExportAction::PublishReplay));
    let (export, action) = export.next(ExportEvent::Done(None));
    assert!(matches!(action, ExportAction::LogExport));
    let (export, action) = export.next(ExportEvent::Done(None));
    assert!(matches!(action, ExportAction::FlushJournal));
    let (export, action) = export.next(ExportEvent::Done(None));
    assert!(matches!(action, ExportAction::CopyJournal));
    let (export, action) = export.next(ExportEvent::Done(None));
    assert!(matches!(action, ExportAction::CheckReport));
    let (export, action) = export.next(ExportEvent::ReportChecked(true));
    assert!(matches!(action, ExportAction::CopyReport));
    let (export, action) = export.next(ExportEvent::Done(None));
    assert!(matches!(action, ExportAction::CopyScreenshots));
    let (export, action) = export.next(ExportEvent::Copied(Ok(vec!["out/run/a.png".to_owned()])));
    match action {
        ExportAction::Finish(screenshots) => assert_eq!(
            write_json(&export_value(&export.name, &export.bundle, &screenshots, 2)),
            "{\"bundle\":\"out/run\",\"journal\":\"out/run/session.ndjson\",\"name\":\"run\",\"recording_pending\":true,\"replay\":\"out/run/replay.yaml\",\"report\":\"out/run/report.json\",\"screenshots\":[\"out/run/a.png\"],\"step_count\":2}"
        ),
        other => panic!("{other:?}"),
    }
}

#[test]
fn bundles_of_others_are_not_touched() {
    for (name, exists, message) in [
        ("../x", false, "bundle name must be a safe path component"),
        ("run", true, "bundle out/run already exists"),
    ] {
        let (_, action) = Export::start(name.to_owned(), "out/run".to_owned(), exists, &None);
        match action {
            ExportAction::Fail(fault) => {
                let error = fault.into_error();
                assert_eq!(error.code, ErrorCode::ExportInvalid);
                assert_eq!(error.message.text(), message);
            }
            other => panic!("{other:?}"),
        }
    }
    let own = Some("out/run".to_owned());
    let (export, action) = Export::start("run".to_owned(), "out/run".to_owned(), true, &own);
    assert!(matches!(action, ExportAction::BuildReplay));
    let (export, _) = export.next(ExportEvent::Built(None));
    let (_, action) = export.next(ExportEvent::Compiled(None));
    assert!(matches!(action, ExportAction::PublishReplay));
}

fn close() -> CloseResult {
    CloseResult {
        recording: SessionRecordingFinish {
            status: RecordingStatus::Complete,
            path: Some("session/recording.mp4".to_owned()),
            partial_path: None,
            warnings: vec!["b".to_owned(), "a".to_owned()],
        },
        warnings: vec!["c".to_owned(), "a".to_owned()],
    }
}

#[test]
fn closing_tells_each_warning_once_and_moves_the_recording() {
    assert_eq!(merged_warnings(&close()), vec!["a", "b", "c"]);
    let (mut closing, mut action) = Closing::start(Some("out/run".to_owned()), close());
    assert!(matches!(action, ClosingAction::WriteReport));
    let mut logged = Vec::new();
    loop {
        let event = match action {
            ClosingAction::LogWarning(warning) => {
                logged.push(warning);
                ClosingEvent::Done(None)
            }
            ClosingAction::CheckReport => ClosingEvent::Checked(false),
            ClosingAction::CheckRecording(path) => {
                assert_eq!(path, "session/recording.mp4");
                ClosingEvent::Checked(true)
            }
            ClosingAction::CopyRecording(path) => ClosingEvent::Copied(Ok(
                playrust::bundle::bundle_place("out/run", &path),
            )),
            ClosingAction::Finish => break,
            ClosingAction::Ignore | ClosingAction::Fail(_) => panic!("{action:?}"),
            _ => ClosingEvent::Done(None),
        };
        (closing, action) = closing.next(event);
    }
    assert_eq!(logged, vec!["a", "b", "c"]);
    assert_eq!(
        closing.close.recording.path.as_deref(),
        Some("out/run/recording.mp4")
    );
}

#[test]
fn screenshots_are_found_by_their_extension() {
    assert_eq!(
        choose_screenshots(&vec![
            "b.png".to_owned(),
            "report.json".to_owned(),
            ".png".to_owned(),
            "a.png".to_owned(),
        ]),
        vec!["b.png", "a.png"]
    );
    assert_eq!(
        sort_texts(vec!["b".to_owned(), "a".to_owned(), "b".to_owned()]),
        vec!["a", "b", "b"]
    );
}
