//! Recording of a screen: starting and ending it, and following a session from page to page. Each
//! course of events is laid out as a machine from state and event to state and action.

use crate::flow_run::{VideoFinish, VideoFinishError, VideoStart};
use crate::json::{field, fields_view, gathered, record_of, text_list, text_value, Json, JsonValue};
use crate::text::{join, same_text, texts_view};
use crate::video::{video_error_text, VideoError, VideoMode, PROCESS_TIMEOUT};
use vstd::prelude::*;
use vstd::string::*;

verus! {

/// The time that secondary work of the browser is given, in nanoseconds.
pub const SECONDARY_TIMEOUT: u128 = 2_000_000_000;

/// The time that the end of a recording is given, in nanoseconds.
pub const VIDEO_FINALIZE_TIMEOUT: u128 = 20_000_000_000;

/// The time for which the last frame is shown, in nanoseconds.
pub const FINAL_FRAME_DELAY: u128 = 250_000_000;

/// The file of a recording.
pub const RECORDING_NAME: &'static str = "recording.mp4";

/// The bytes that the base64 crate decodes, or what it tells of the error.
pub uninterp spec fn base64_decoded(data: Seq<u8>) -> Result<Seq<u8>, Seq<char>>;

/// Whether decoded bytes, or the text of an error, are these.
pub open spec fn is_decoded(
    result: Result<Vec<u8>, String>,
    expected: Result<Seq<u8>, Seq<char>>,
) -> bool {
    match (result, expected) {
        (Ok(bytes), Ok(expected)) => bytes@ == expected,
        (Err(message), Err(expected)) => message@ == expected,
        _ => false,
    }
}

/// Calls `decode` of `base64::engine::general_purpose::STANDARD`. The contract claims that the bytes,
/// or the text of the error, depend on the data alone.
#[verifier::external_body]
fn decode_base64(data: &[u8]) -> (result: Result<Vec<u8>, String>)
    ensures
        is_decoded(result, base64_decoded(data@)),
{
    base64::Engine::decode(&base64::engine::general_purpose::STANDARD, data).map_err(
        |error| error.to_string(),
    )
}

/// How the next event of a screencast came: not at all, with an acknowledgement that failed, or as a
/// frame.
#[derive(Debug)]
pub enum FrameEvent {
    Closed,
    NotAcknowledged(String),
    Frame(Vec<u8>),
}

/// What the source of a screencast makes of an event: a frame, or the error that ends it.
pub open spec fn frame_result(event: FrameEvent, decoded: Result<Seq<u8>, Seq<char>>) -> Result<
    Seq<u8>,
    Seq<char>,
> {
    match event {
        FrameEvent::Closed => Err("screencast event stream closed"@),
        FrameEvent::NotAcknowledged(error) => Err("acknowledge screencast frame: "@ + error@),
        FrameEvent::Frame(_) => match decoded {
            Ok(jpeg) => Ok(jpeg),
            Err(error) => Err("decode screencast frame: "@ + error),
        },
    }
}

/// Makes a frame, or the error that ends a screencast, of decoded data.
pub fn decoded_frame(decoded: Result<Vec<u8>, String>) -> (result: Result<Vec<u8>, String>)
    ensures
        match (result, decoded) {
            (Ok(jpeg), Ok(bytes)) => jpeg == bytes,
            (Err(message), Err(error)) => message@ == "decode screencast frame: "@ + error@,
            _ => false,
        },
{
    match decoded {
        Ok(jpeg) => Ok(jpeg),
        Err(error) => Err(join("decode screencast frame: ", error.as_str())),
    }
}

/// Takes an event of a screencast.
pub fn screencast_frame(event: FrameEvent) -> (result: Result<Vec<u8>, String>)
    ensures
        is_decoded(
            result,
            frame_result(
                event,
                match event {
                    FrameEvent::Frame(data) => base64_decoded(data@),
                    _ => Err(Seq::empty()),
                },
            ),
        ),
{
    match event {
        FrameEvent::Closed => Err("screencast event stream closed".to_owned()),
        FrameEvent::NotAcknowledged(error) => Err(
            join("acknowledge screencast frame: ", error.as_str()),
        ),
        FrameEvent::Frame(data) => decoded_frame(decode_base64(data.as_slice())),
    }
}

/// How the order to end a screencast went.
#[derive(Debug)]
pub enum StopOutcome {
    Stopped,
    Failed(String),
    TimedOut,
}

/// What is told of the order to end a screencast.
pub open spec fn stop_text(outcome: StopOutcome) -> Option<Seq<char>> {
    match outcome {
        StopOutcome::Stopped => None,
        StopOutcome::Failed(error) => Some("stop screencast: "@ + error@),
        StopOutcome::TimedOut => Some("stop screencast timed out"@),
    }
}

/// What is told of the order to end a screencast, where it failed.
pub fn stop_error(outcome: StopOutcome) -> (error: Option<String>)
    ensures
        match (error, stop_text(outcome)) {
            (Some(error), Some(text)) => error@ == text,
            (None, None) => true,
            _ => false,
        },
{
    match outcome {
        StopOutcome::Stopped => None,
        StopOutcome::Failed(error) => Some(join("stop screencast: ", error.as_str())),
        StopOutcome::TimedOut => Some("stop screencast timed out".to_owned()),
    }
}

/// Whether a recording is kept that is only wanted of failures. Errors of the screencast keep it too.
pub fn should_retain_video(flow_failed: bool, screencast_errors: &Vec<String>) -> (retain: bool)
    ensures
        retain == (flow_failed || screencast_errors@.len() > 0),
{
    flow_failed || screencast_errors.len() > 0
}

/// A message, with what went wrong while cleaning up.
pub open spec fn with_cleanup(message: Seq<char>, cleanup: Option<String>) -> Seq<char> {
    match cleanup {
        Some(cleanup) => message + "; cleanup failed: "@ + cleanup@,
        None => message,
    }
}

/// A message, with what went wrong while cleaning up.
pub fn video_start_cleanup_error(message: &str, cleanup: Option<String>) -> (text: String)
    ensures
        text@ == with_cleanup(message@, cleanup),
{
    let mut text = message.to_owned();
    if let Some(cleanup) = cleanup {
        text.append("; cleanup failed: ");
        text.append(cleanup.as_str());
    }
    text
}

/// What the end of a recorder's work waits for.
#[derive(Debug)]
#[allow(inconsistent_fields)]
pub enum FinalizeStage {
    Writing,
    Exiting { writer: Option<String> },
    Reading { writer: Option<String>, success: bool, status: String },
    Killing,
    ClearingForRemoval,
    Removing,
    ClearingForRename,
    Renaming,
    Over,
}

/// The end of a recorder's work.
#[derive(Debug)]
pub struct Finalization {
    pub mode: VideoMode,
    pub flow_failed: bool,
    pub output_path: String,
    pub partial_path: String,
    pub stage: FinalizeStage,
}

/// What happens at the end of a recorder's work. The writer of frames ends, with the text of its error
/// or none, it is lost, or its time is up. FFmpeg exits, is lost, or its time is up. Its errors were
/// read, it was killed, or a file was removed or moved.
#[derive(Debug)]
#[allow(inconsistent_fields)]
pub enum FinalizeEvent {
    Written(Option<String>),
    WriterLost(String),
    WriterTimedOut,
    Exited { success: bool, status: String },
    ExitLost(String),
    ExitTimedOut,
    StderrRead(String),
    Killed,
    Done(Option<String>),
}

/// What to do next at the end of a recorder's work.
#[derive(Debug)]
pub enum FinalizeAction {
    Ignore,
    WaitForExit,
    ReadStderr,
    Kill { abort_writer: bool },
    RemoveOutput,
    RemovePartial,
    RenamePartial,
    Finish(Result<Option<String>, VideoError>),
}

/// The work at another stage.
pub open spec fn finalization_at(
    finalization: Finalization,
    stage: FinalizeStage,
    action: FinalizeAction,
) -> (Finalization, FinalizeAction) {
    (Finalization { stage, ..finalization }, action)
}

fn final_at(
    finalization: Finalization,
    stage: FinalizeStage,
    action: FinalizeAction,
) -> (next: (Finalization, FinalizeAction))
    ensures
        next == finalization_at(finalization, stage, action),
{
    (Finalization { stage, ..finalization }, action)
}

/// The work with its outcome.
pub open spec fn finalization_over(
    finalization: Finalization,
    result: Result<Option<String>, VideoError>,
) -> (Finalization, FinalizeAction) {
    (
        Finalization { stage: FinalizeStage::Over, ..finalization },
        FinalizeAction::Finish(result),
    )
}

fn final_over(
    finalization: Finalization,
    result: Result<Option<String>, VideoError>,
) -> (next: (Finalization, FinalizeAction))
    ensures
        next == finalization_over(finalization, result),
{
    (
        Finalization { stage: FinalizeStage::Over, ..finalization },
        FinalizeAction::Finish(result),
    )
}

/// What follows an event at the end of a recorder's work.
pub open spec fn finalization_step(
    finalization: Finalization,
    event: FinalizeEvent,
) -> (Finalization, FinalizeAction) {
    let Finalization { mode, flow_failed, output_path, partial_path, stage } = finalization;
    match (stage, event) {
        (FinalizeStage::Writing, FinalizeEvent::Written(writer)) => finalization_at(
            Finalization { mode, flow_failed, output_path, partial_path, stage: FinalizeStage::Over },
            FinalizeStage::Exiting { writer },
            FinalizeAction::WaitForExit,
        ),
        (FinalizeStage::Writing, FinalizeEvent::WriterLost(error)) => finalization_over(
            Finalization { mode, flow_failed, output_path, partial_path, stage: FinalizeStage::Over },
            Err(VideoError::FrameWriter(error)),
        ),
        (FinalizeStage::Writing, FinalizeEvent::WriterTimedOut) => finalization_at(
            Finalization { mode, flow_failed, output_path, partial_path, stage: FinalizeStage::Over },
            FinalizeStage::Killing,
            FinalizeAction::Kill { abort_writer: true },
        ),
        (FinalizeStage::Exiting { writer }, FinalizeEvent::Exited { success, status }) => finalization_at(
            Finalization { mode, flow_failed, output_path, partial_path, stage: FinalizeStage::Over },
            FinalizeStage::Reading { writer, success, status },
            FinalizeAction::ReadStderr,
        ),
        (FinalizeStage::Exiting { writer: _ }, FinalizeEvent::ExitLost(source)) => {
            let path = partial_path;
            finalization_over(
                Finalization {
                    mode,
                    flow_failed,
                    output_path,
                    partial_path,
                    stage: FinalizeStage::Over,
                },
                Err(VideoError::Artifact { path, source }),
            )
        },
        (FinalizeStage::Exiting { writer: _ }, FinalizeEvent::ExitTimedOut) => finalization_at(
            Finalization { mode, flow_failed, output_path, partial_path, stage: FinalizeStage::Over },
            FinalizeStage::Killing,
            FinalizeAction::Kill { abort_writer: false },
        ),
        (FinalizeStage::Killing, FinalizeEvent::Killed) => {
            let path = partial_path;
            finalization_over(
                Finalization {
                    mode,
                    flow_failed,
                    output_path,
                    partial_path,
                    stage: FinalizeStage::Over,
                },
                Err(VideoError::FinalizationTimeout(PROCESS_TIMEOUT, path)),
            )
        },
        (
            FinalizeStage::Reading { writer, success, status },
            FinalizeEvent::StderrRead(stderr),
        ) => {
            let path = partial_path;
            let rest = Finalization {
                mode,
                flow_failed,
                output_path,
                partial_path,
                stage: FinalizeStage::Over,
            };
            if !success {
                finalization_over(
                    rest,
                    Err(VideoError::FfmpegFailed { status, stderr, partial_path: path }),
                )
            } else {
                match writer {
                    Some(error) => finalization_over(rest, Err(VideoError::FrameWriter(error))),
                    None => if mode == VideoMode::RetainOnFailure && !flow_failed {
                        finalization_at(
                            rest,
                            FinalizeStage::ClearingForRemoval,
                            FinalizeAction::RemoveOutput,
                        )
                    } else {
                        finalization_at(
                            rest,
                            FinalizeStage::ClearingForRename,
                            FinalizeAction::RemoveOutput,
                        )
                    },
                }
            }
        },
        (FinalizeStage::ClearingForRemoval, FinalizeEvent::Done(error)) => {
            let path = output_path;
            let rest = Finalization {
                mode,
                flow_failed,
                output_path,
                partial_path,
                stage: FinalizeStage::Over,
            };
            match error {
                Some(source) => finalization_over(rest, Err(VideoError::Artifact { path, source })),
                None => finalization_at(rest, FinalizeStage::Removing, FinalizeAction::RemovePartial),
            }
        },
        (FinalizeStage::Removing, FinalizeEvent::Done(error)) => {
            let path = partial_path;
            let rest = Finalization {
                mode,
                flow_failed,
                output_path,
                partial_path,
                stage: FinalizeStage::Over,
            };
            match error {
                Some(source) => finalization_over(rest, Err(VideoError::Artifact { path, source })),
                None => finalization_over(rest, Ok(None)),
            }
        },
        (FinalizeStage::ClearingForRename, FinalizeEvent::Done(error)) => {
            let path = output_path;
            let rest = Finalization {
                mode,
                flow_failed,
                output_path,
                partial_path,
                stage: FinalizeStage::Over,
            };
            match error {
                Some(source) => finalization_over(rest, Err(VideoError::Artifact { path, source })),
                None => finalization_at(rest, FinalizeStage::Renaming, FinalizeAction::RenamePartial),
            }
        },
        (FinalizeStage::Renaming, FinalizeEvent::Done(error)) => {
            let path = output_path;
            let rest = Finalization {
                mode,
                flow_failed,
                output_path,
                partial_path,
                stage: FinalizeStage::Over,
            };
            match error {
                Some(source) => finalization_over(rest, Err(VideoError::Artifact { path, source })),
                None => finalization_over(rest, Ok(Some(path))),
            }
        },
        (stage, _) => (
            Finalization { mode, flow_failed, output_path, partial_path, stage },
            FinalizeAction::Ignore,
        ),
    }
}

fn next_finalization(
    finalization: Finalization,
    event: FinalizeEvent,
) -> (next: (Finalization, FinalizeAction))
    ensures
        next == finalization_step(finalization, event),
{
    let Finalization { mode, flow_failed, output_path, partial_path, stage } = finalization;
    match (stage, event) {
        (FinalizeStage::Writing, FinalizeEvent::Written(writer)) => final_at(
            Finalization { mode, flow_failed, output_path, partial_path, stage: FinalizeStage::Over },
            FinalizeStage::Exiting { writer },
            FinalizeAction::WaitForExit,
        ),
        (FinalizeStage::Writing, FinalizeEvent::WriterLost(error)) => final_over(
            Finalization { mode, flow_failed, output_path, partial_path, stage: FinalizeStage::Over },
            Err(VideoError::FrameWriter(error)),
        ),
        (FinalizeStage::Writing, FinalizeEvent::WriterTimedOut) => final_at(
            Finalization { mode, flow_failed, output_path, partial_path, stage: FinalizeStage::Over },
            FinalizeStage::Killing,
            FinalizeAction::Kill { abort_writer: true },
        ),
        (FinalizeStage::Exiting { writer }, FinalizeEvent::Exited { success, status }) => final_at(
            Finalization { mode, flow_failed, output_path, partial_path, stage: FinalizeStage::Over },
            FinalizeStage::Reading { writer, success, status },
            FinalizeAction::ReadStderr,
        ),
        (FinalizeStage::Exiting { writer: _ }, FinalizeEvent::ExitLost(source)) => {
            let path = partial_path.clone();
            final_over(
                Finalization {
                    mode,
                    flow_failed,
                    output_path,
                    partial_path,
                    stage: FinalizeStage::Over,
                },
                Err(VideoError::Artifact { path, source }),
            )
        },
        (FinalizeStage::Exiting { writer: _ }, FinalizeEvent::ExitTimedOut) => final_at(
            Finalization { mode, flow_failed, output_path, partial_path, stage: FinalizeStage::Over },
            FinalizeStage::Killing,
            FinalizeAction::Kill { abort_writer: false },
        ),
        (FinalizeStage::Killing, FinalizeEvent::Killed) => {
            let path = partial_path.clone();
            final_over(
                Finalization {
                    mode,
                    flow_failed,
                    output_path,
                    partial_path,
                    stage: FinalizeStage::Over,
                },
                Err(VideoError::FinalizationTimeout(PROCESS_TIMEOUT, path)),
            )
        },
        (
            FinalizeStage::Reading { writer, success, status },
            FinalizeEvent::StderrRead(stderr),
        ) => {
            let path = partial_path.clone();
            let rest = Finalization {
                mode,
                flow_failed,
                output_path,
                partial_path,
                stage: FinalizeStage::Over,
            };
            if !success {
                final_over(
                    rest,
                    Err(VideoError::FfmpegFailed { status, stderr, partial_path: path }),
                )
            } else {
                match writer {
                    Some(error) => final_over(rest, Err(VideoError::FrameWriter(error))),
                    None => if mode == VideoMode::RetainOnFailure && !flow_failed {
                        final_at(
                            rest,
                            FinalizeStage::ClearingForRemoval,
                            FinalizeAction::RemoveOutput,
                        )
                    } else {
                        final_at(
                            rest,
                            FinalizeStage::ClearingForRename,
                            FinalizeAction::RemoveOutput,
                        )
                    },
                }
            }
        },
        (FinalizeStage::ClearingForRemoval, FinalizeEvent::Done(error)) => {
            let path = output_path.clone();
            let rest = Finalization {
                mode,
                flow_failed,
                output_path,
                partial_path,
                stage: FinalizeStage::Over,
            };
            match error {
                Some(source) => final_over(rest, Err(VideoError::Artifact { path, source })),
                None => final_at(rest, FinalizeStage::Removing, FinalizeAction::RemovePartial),
            }
        },
        (FinalizeStage::Removing, FinalizeEvent::Done(error)) => {
            let path = partial_path.clone();
            let rest = Finalization {
                mode,
                flow_failed,
                output_path,
                partial_path,
                stage: FinalizeStage::Over,
            };
            match error {
                Some(source) => final_over(rest, Err(VideoError::Artifact { path, source })),
                None => final_over(rest, Ok(None)),
            }
        },
        (FinalizeStage::ClearingForRename, FinalizeEvent::Done(error)) => {
            let path = output_path.clone();
            let rest = Finalization {
                mode,
                flow_failed,
                output_path,
                partial_path,
                stage: FinalizeStage::Over,
            };
            match error {
                Some(source) => final_over(rest, Err(VideoError::Artifact { path, source })),
                None => final_at(rest, FinalizeStage::Renaming, FinalizeAction::RenamePartial),
            }
        },
        (FinalizeStage::Renaming, FinalizeEvent::Done(error)) => {
            let path = output_path.clone();
            let rest = Finalization {
                mode,
                flow_failed,
                output_path,
                partial_path,
                stage: FinalizeStage::Over,
            };
            match error {
                Some(source) => final_over(rest, Err(VideoError::Artifact { path, source })),
                None => final_over(rest, Ok(Some(path))),
            }
        },
        (stage, _) => (
            Finalization { mode, flow_failed, output_path, partial_path, stage },
            FinalizeAction::Ignore,
        ),
    }
}

impl Finalization {
    /// Begins the end of a recorder's work: the writer of frames is waited for.
    pub fn start(
        mode: VideoMode,
        flow_failed: bool,
        output_path: String,
        partial_path: String,
    ) -> (finalization: Finalization)
        ensures
            finalization == (Finalization {
                mode,
                flow_failed,
                output_path,
                partial_path,
                stage: FinalizeStage::Writing,
            }),
    {
        Finalization { mode, flow_failed, output_path, partial_path, stage: FinalizeStage::Writing }
    }

    /// Takes an event.
    pub fn next(self, event: FinalizeEvent) -> (next: (Finalization, FinalizeAction))
        ensures
            next == finalization_step(self, event),
    {
        next_finalization(self, event)
    }
}

/// A recording that is only wanted of failures is never published after a success, and never removed
/// after a failure; any other is never removed.
pub open spec fn keeps_to_mode(finalization: Finalization) -> bool {
    let unwanted = finalization.mode == VideoMode::RetainOnFailure && !finalization.flow_failed;
    &&& (finalization.stage is ClearingForRemoval || finalization.stage is Removing ==> unwanted)
    &&& (finalization.stage is ClearingForRename || finalization.stage is Renaming ==> !unwanted)
}

/// Whatever happens, the partial recording is removed only where it is not wanted, it is moved to its
/// place only where it is, and an outcome with a recording names its place.
pub proof fn recordings_are_kept_by_mode(finalization: Finalization, event: FinalizeEvent)
    requires
        keeps_to_mode(finalization),
    ensures
        ({
            let (after, action) = finalization_step(finalization, event);
            let unwanted = finalization.mode == VideoMode::RetainOnFailure
                && !finalization.flow_failed;
            &&& keeps_to_mode(after)
            &&& (action is RemovePartial ==> unwanted)
            &&& (action is RenamePartial ==> !unwanted)
            &&& (action is Finish ==> after.stage is Over)
            &&& (action matches FinalizeAction::Finish(Ok(path)) ==> path == if unwanted {
                None
            } else {
                Some(finalization.output_path)
            })
        }),
{
}

/// The end of a recorder's work comes: each event that is not ignored brings it nearer.
pub proof fn finalizations_end(finalization: Finalization, event: FinalizeEvent)
    ensures
        ({
            let (after, action) = finalization_step(finalization, event);
            &&& (action is Ignore ==> after == finalization)
            &&& (!(action is Ignore) ==> finalize_left(after.stage) < finalize_left(
                finalization.stage,
            ))
        }),
{
}

/// How many events the end of a recorder's work still takes at most.
pub open spec fn finalize_left(stage: FinalizeStage) -> nat {
    match stage {
        FinalizeStage::Writing => 5,
        FinalizeStage::Exiting { .. } => 4,
        FinalizeStage::Reading { .. } => 3,
        FinalizeStage::Killing => 1,
        FinalizeStage::ClearingForRemoval => 2,
        FinalizeStage::Removing => 1,
        FinalizeStage::ClearingForRename => 2,
        FinalizeStage::Renaming => 1,
        FinalizeStage::Over => 0,
    }
}

/// What the end of a flow's recording waits for.
#[derive(Debug, Clone, Copy, PartialEq, Eq, Structural)]
pub enum FinishStage {
    Stopping,
    Joining,
    Finalizing,
    Over,
}

/// The end of a flow's recording, with the errors of its screencast.
#[derive(Debug)]
pub struct VideoEnding {
    pub flow_failed: bool,
    pub partial_path: String,
    pub errors: Vec<String>,
    pub stage: FinishStage,
}

/// What happens at the end of a flow's recording. The screencast is stopped. The task that takes its
/// frames ends, with its error or none, it is lost, or its time is up. The recorder is done, with the
/// place of the recording or its error, or its time is up.
#[derive(Debug)]
pub enum FinishEvent {
    Stopped(StopOutcome),
    Joined(Option<String>),
    TaskLost(String),
    TaskTimedOut,
    Finalized(Result<Option<String>, VideoError>),
    FinalizeTimedOut,
}

/// What to do next at the end of a flow's recording.
#[derive(Debug)]
pub enum FinishAction {
    Ignore,
    Join,
    Finalize { retain: bool },
    Finish(Result<Option<String>, EndingFault>),
}

/// Why a flow's recording is broken. The recording may be there all the same.
#[derive(Debug, Clone, PartialEq, Eq)]
pub struct EndingFault {
    pub error: String,
    pub recording: Option<String>,
}

/// What is known at the end of a flow's recording.
pub ghost struct EndingModel {
    pub flow_failed: bool,
    pub partial_path: Seq<char>,
    pub errors: Seq<Seq<char>>,
    pub stage: FinishStage,
}

impl View for VideoEnding {
    type V = EndingModel;

    open spec fn view(&self) -> EndingModel {
        EndingModel {
            flow_failed: self.flow_failed,
            partial_path: self.partial_path@,
            errors: texts_view(self.errors@),
            stage: self.stage,
        }
    }
}

/// Texts in a row, with a text between any two.
pub open spec fn joined(texts: Seq<Seq<char>>, between: Seq<char>) -> Seq<char>
    decreases texts.len(),
{
    if texts.len() == 0 {
        Seq::empty()
    } else if texts.len() == 1 {
        texts[0]
    } else {
        joined(texts.drop_last(), between) + between + texts.last()
    }
}

/// Texts in a row, with a text between any two.
pub fn join_texts(texts: &Vec<String>, between: &str) -> (text: String)
    ensures
        text@ == joined(texts_view(texts@), between@),
{
    let ghost all = texts_view(texts@);
    let mut text = String::new();
    let mut i: usize = 0;
    assert(all.take(0) =~= Seq::<Seq<char>>::empty());
    while i < texts.len()
        invariant
            i <= texts.len(),
            all == texts_view(texts@),
            text@ == joined(all.take(i as int), between@),
        decreases texts.len() - i,
    {
        proof {
            assert(all.take(i + 1).drop_last() == all.take(i as int));
            assert(all.take(i + 1).last() == texts@[i as int]@);
        }
        if i > 0 {
            text.append(between);
        }
        text.append(texts[i].as_str());
        i += 1;
    }
    assert(all.take(all.len() as int) == all);
    text
}

/// Whether an ending is broken with an error and nothing recorded.
pub open spec fn ends_broken(action: FinishAction, error: Seq<char>) -> bool {
    match action {
        FinishAction::Finish(Err(fault)) => fault.error@ == error && fault.recording is None,
        _ => false,
    }
}

/// The errors with one more, if there is one.
pub open spec fn with_error(errors: Seq<Seq<char>>, error: Option<Seq<char>>) -> Seq<Seq<char>> {
    match error {
        Some(error) => errors.push(error),
        None => errors,
    }
}

/// Whether this follows an event at the end of a flow's recording.
pub open spec fn ending_follows(
    before: EndingModel,
    event: FinishEvent,
    after: EndingModel,
    action: FinishAction,
) -> bool {
    let over = EndingModel { stage: FinishStage::Over, ..before };
    match (before.stage, event) {
        (FinishStage::Stopping, FinishEvent::Stopped(outcome)) => {
            &&& after == EndingModel {
                errors: with_error(before.errors, stop_text(outcome)),
                stage: FinishStage::Joining,
                ..before
            }
            &&& action == FinishAction::Join
        },
        (FinishStage::Joining, FinishEvent::Joined(error)) => {
            let errors = with_error(
                before.errors,
                match error {
                    Some(error) => Some(error@),
                    None => None,
                },
            );
            &&& after == EndingModel { errors, stage: FinishStage::Finalizing, ..before }
            &&& action == FinishAction::Finalize {
                retain: before.flow_failed || errors.len() > 0,
            }
        },
        (FinishStage::Joining, FinishEvent::TaskLost(error)) => {
            &&& after == over
            &&& ends_broken(action, "screencast task failed: "@ + error@)
        },
        (FinishStage::Joining, FinishEvent::TaskTimedOut) => {
            &&& after == over
            &&& ends_broken(action, "screencast task shutdown timed out"@)
        },
        (FinishStage::Finalizing, FinishEvent::Finalized(result)) => {
            &&& after == over
            &&& match result {
                Ok(recording) => if before.errors.len() == 0 {
                    action == FinishAction::Finish(Ok(recording))
                } else {
                    match action {
                        FinishAction::Finish(Err(fault)) => fault.recording == recording
                            && fault.error@ == joined(before.errors, "; "@),
                        _ => false,
                    }
                },
                Err(error) => ends_broken(action, video_error_text(error)),
            }
        },
        (FinishStage::Finalizing, FinishEvent::FinalizeTimedOut) => {
            &&& after == over
            &&& ends_broken(action, "video finalization timed out"@)
        },
        _ => after == before && action == FinishAction::Ignore,
    }
}

fn push_error(errors: &mut Vec<String>, error: Option<String>)
    ensures
        texts_view(final(errors)@) == with_error(
            texts_view(old(errors)@),
            match error {
                Some(error) => Some(error@),
                None => None,
            },
        ),
{
    if let Some(error) = error {
        errors.push(error);
        assert(texts_view(errors@) =~= texts_view(old(errors)@).push(error@));
    }
}

fn broken(error: String) -> (action: FinishAction)
    ensures
        ends_broken(action, error@),
{
    FinishAction::Finish(Err(EndingFault { error, recording: None }))
}

impl VideoEnding {
    /// Begins the end of a flow's recording: the screencast is to be stopped.
    pub fn start(flow_failed: bool, partial_path: String) -> (ending: VideoEnding)
        ensures
            ending@ == (EndingModel {
                flow_failed,
                partial_path: partial_path@,
                errors: Seq::empty(),
                stage: FinishStage::Stopping,
            }),
    {
        let ending = VideoEnding {
            flow_failed,
            partial_path,
            errors: Vec::new(),
            stage: FinishStage::Stopping,
        };
        assert(texts_view(ending.errors@) =~= Seq::<Seq<char>>::empty());
        ending
    }

    /// Takes an event.
    pub fn next(&mut self, event: FinishEvent) -> (action: FinishAction)
        ensures
            ending_follows(old(self)@, event, final(self)@, action),
    {
        match (self.stage, event) {
            (FinishStage::Stopping, FinishEvent::Stopped(outcome)) => {
                push_error(&mut self.errors, stop_error(outcome));
                self.stage = FinishStage::Joining;
                FinishAction::Join
            },
            (FinishStage::Joining, FinishEvent::Joined(error)) => {
                push_error(&mut self.errors, error);
                self.stage = FinishStage::Finalizing;
                FinishAction::Finalize {
                    retain: should_retain_video(self.flow_failed, &self.errors),
                }
            },
            (FinishStage::Joining, FinishEvent::TaskLost(error)) => {
                self.stage = FinishStage::Over;
                broken(join("screencast task failed: ", error.as_str()))
            },
            (FinishStage::Joining, FinishEvent::TaskTimedOut) => {
                self.stage = FinishStage::Over;
                broken("screencast task shutdown timed out".to_owned())
            },
            (FinishStage::Finalizing, FinishEvent::Finalized(result)) => {
                self.stage = FinishStage::Over;
                match result {
                    Ok(recording) => if self.errors.len() == 0 {
                        FinishAction::Finish(Ok(recording))
                    } else {
                        FinishAction::Finish(
                            Err(EndingFault { error: join_texts(&self.errors, "; "), recording }),
                        )
                    },
                    Err(error) => broken(error.message()),
                }
            },
            (FinishStage::Finalizing, FinishEvent::FinalizeTimedOut) => {
                self.stage = FinishStage::Over;
                broken("video finalization timed out".to_owned())
            },
            _ => FinishAction::Ignore,
        }
    }
}

/// How a recording ended, with what is left of it.
pub fn video_finish(
    result: Result<Option<String>, EndingFault>,
    partial_path: String,
    partial_exists: bool,
    recording_exists: bool,
) -> (finish: VideoFinish)
    ensures
        finish == match result {
            Ok(recording) => VideoFinish::Done(recording),
            Err(fault) => VideoFinish::Broken(
                VideoFinishError {
                    error: fault.error,
                    partial: partial_path,
                    partial_exists,
                    recording: fault.recording,
                    recording_exists,
                },
            ),
        },
{
    match result {
        Ok(recording) => VideoFinish::Done(recording),
        Err(fault) => VideoFinish::Broken(
            VideoFinishError {
                error: fault.error,
                partial: partial_path,
                partial_exists,
                recording: fault.recording,
                recording_exists,
            },
        ),
    }
}

/// Why a recording was not started.
#[derive(Debug)]
pub enum StartCause {
    NoFfmpeg,
    Deadline,
    Directory(String),
    Told(String),
    EndedEarly,
}

/// Why a recording was not started, and what went wrong while cleaning up.
#[derive(Debug)]
pub struct StartFault {
    pub cause: StartCause,
    pub cleanup: Option<String>,
}

/// The text of a cause.
pub open spec fn cause_text(cause: StartCause) -> Seq<char> {
    match cause {
        StartCause::NoFfmpeg => "video is enabled but no FFmpeg path was provided"@,
        StartCause::Deadline => "recording start deadline expired"@,
        StartCause::Directory(error) => "create artifact directory: "@ + error@,
        StartCause::Told(error) => error@,
        StartCause::EndedEarly => "screencast ended before the first frame"@,
    }
}

impl StartFault {
    /// The text of the fault.
    pub fn message(self) -> (message: String)
        ensures
            message@ == with_cleanup(cause_text(self.cause), self.cleanup),
    {
        let cause = match self.cause {
            StartCause::NoFfmpeg => "video is enabled but no FFmpeg path was provided".to_owned(),
            StartCause::Deadline => "recording start deadline expired".to_owned(),
            StartCause::Directory(error) => join("create artifact directory: ", error.as_str()),
            StartCause::Told(error) => error,
            StartCause::EndedEarly => "screencast ended before the first frame".to_owned(),
        };
        video_start_cleanup_error(cause.as_str(), self.cleanup)
    }
}

/// How an attempt to start a recording ended.
#[derive(Debug)]
pub enum StartOutcome {
    Ready { recording: bool },
    Cancelled(Option<VideoFinish>),
    Failed(StartFault),
}

/// Why the screencast is stopped again.
#[derive(Debug)]
pub enum Retreat {
    Cancelled,
    Failed(StartCause),
}

/// What the start of a recording waits for.
#[derive(Debug)]
pub enum StartStage {
    Creating,
    Listening,
    Screencasting,
    StartingRecorder,
    AwaitingFrame,
    Stopping(Retreat),
    Finishing(Retreat),
    Over,
}

/// How a wait that can be cancelled or run out of time ended.
#[derive(Debug)]
pub enum Awaited {
    Ready(Result<(), String>),
    Cancelled,
    Deadline,
}

/// What happens at the start of a recording.
#[derive(Debug)]
#[allow(inconsistent_fields)]
pub enum StartEvent {
    Came(Awaited),
    Stopped { error: Option<String>, partial_exists: bool },
    Finished(VideoFinish),
}

/// What to do next at the start of a recording.
#[derive(Debug)]
pub enum StartAction {
    Ignore,
    CreateDirectory,
    Listen,
    StartScreencast,
    StartRecorder,
    AwaitFrame,
    StopScreencast,
    FinishSession,
    End(StartOutcome),
}

/// The start of a recording.
#[derive(Debug)]
pub struct VideoStarting {
    pub partial_path: String,
    pub stage: StartStage,
}

/// The end of an attempt to start.
pub open spec fn starting_over(
    partial_path: String,
    outcome: StartOutcome,
) -> (VideoStarting, StartAction) {
    (VideoStarting { partial_path, stage: StartStage::Over }, StartAction::End(outcome))
}

fn start_over(partial_path: String, outcome: StartOutcome) -> (next: (VideoStarting, StartAction))
    ensures
        next == starting_over(partial_path, outcome),
{
    (VideoStarting { partial_path, stage: StartStage::Over }, StartAction::End(outcome))
}

/// What follows a wait before the screencast was started.
pub open spec fn awaited_next(
    partial_path: String,
    awaited: Awaited,
    stage: StartStage,
    action: StartAction,
    directory: bool,
) -> (VideoStarting, StartAction) {
    match awaited {
        Awaited::Ready(result) => match result {
            Ok(_) => (VideoStarting { partial_path, stage }, action),
            Err(error) => if directory {
                starting_over(
                    partial_path,
                    StartOutcome::Failed(
                        StartFault { cause: StartCause::Directory(error), cleanup: None },
                    ),
                )
            } else {
                starting_over(
                    partial_path,
                    StartOutcome::Failed(
                        StartFault { cause: StartCause::Told(error), cleanup: None },
                    ),
                )
            },
        },
        Awaited::Cancelled => starting_over(partial_path, StartOutcome::Cancelled(None)),
        Awaited::Deadline => starting_over(
            partial_path,
            StartOutcome::Failed(StartFault { cause: StartCause::Deadline, cleanup: None }),
        ),
    }
}

fn await_next(
    partial_path: String,
    awaited: Awaited,
    stage: StartStage,
    action: StartAction,
    directory: bool,
) -> (next: (VideoStarting, StartAction))
    ensures
        next == awaited_next(partial_path, awaited, stage, action, directory),
{
    match awaited {
        Awaited::Ready(result) => match result {
            Ok(_) => (VideoStarting { partial_path, stage }, action),
            Err(error) => if directory {
                start_over(
                    partial_path,
                    StartOutcome::Failed(
                        StartFault { cause: StartCause::Directory(error), cleanup: None },
                    ),
                )
            } else {
                start_over(
                    partial_path,
                    StartOutcome::Failed(
                        StartFault { cause: StartCause::Told(error), cleanup: None },
                    ),
                )
            },
        },
        Awaited::Cancelled => start_over(partial_path, StartOutcome::Cancelled(None)),
        Awaited::Deadline => start_over(
            partial_path,
            StartOutcome::Failed(StartFault { cause: StartCause::Deadline, cleanup: None }),
        ),
    }
}

/// What follows a wait after the screencast was started: what fails is cleaned up after.
pub open spec fn awaited_cleanup(
    partial_path: String,
    awaited: Awaited,
    stage: StartStage,
    action: StartAction,
) -> (VideoStarting, StartAction) {
    match awaited {
        Awaited::Ready(result) => match result {
            Ok(_) => (VideoStarting { partial_path, stage }, action),
            Err(error) => (
                VideoStarting {
                    partial_path,
                    stage: StartStage::Stopping(Retreat::Failed(StartCause::Told(error))),
                },
                StartAction::StopScreencast,
            ),
        },
        Awaited::Cancelled => (
            VideoStarting { partial_path, stage: StartStage::Stopping(Retreat::Cancelled) },
            StartAction::StopScreencast,
        ),
        Awaited::Deadline => (
            VideoStarting {
                partial_path,
                stage: StartStage::Stopping(Retreat::Failed(StartCause::Deadline)),
            },
            StartAction::StopScreencast,
        ),
    }
}

fn await_cleanup(
    partial_path: String,
    awaited: Awaited,
    stage: StartStage,
    action: StartAction,
) -> (next: (VideoStarting, StartAction))
    ensures
        next == awaited_cleanup(partial_path, awaited, stage, action),
{
    match awaited {
        Awaited::Ready(result) => match result {
            Ok(_) => (VideoStarting { partial_path, stage }, action),
            Err(error) => (
                VideoStarting {
                    partial_path,
                    stage: StartStage::Stopping(Retreat::Failed(StartCause::Told(error))),
                },
                StartAction::StopScreencast,
            ),
        },
        Awaited::Cancelled => (
            VideoStarting { partial_path, stage: StartStage::Stopping(Retreat::Cancelled) },
            StartAction::StopScreencast,
        ),
        Awaited::Deadline => (
            VideoStarting {
                partial_path,
                stage: StartStage::Stopping(Retreat::Failed(StartCause::Deadline)),
            },
            StartAction::StopScreencast,
        ),
    }
}

/// The outcome once the screencast was stopped again.
pub open spec fn stop_retreat(
    partial_path: String,
    retreat: Retreat,
    error: Option<String>,
    partial_exists: bool,
) -> (VideoStarting, StartAction) {
    match retreat {
        Retreat::Cancelled => match error {
            Some(error) => {
                let partial = partial_path;
                starting_over(
                    partial_path,
                    StartOutcome::Cancelled(
                        Some(
                            VideoFinish::Broken(
                                VideoFinishError {
                                    error,
                                    partial,
                                    partial_exists,
                                    recording: None,
                                    recording_exists: false,
                                },
                            ),
                        ),
                    ),
                )
            },
            None => starting_over(partial_path, StartOutcome::Cancelled(None)),
        },
        Retreat::Failed(cause) => starting_over(
            partial_path,
            StartOutcome::Failed(StartFault { cause, cleanup: error }),
        ),
    }
}

fn retreat_stopped(
    partial_path: String,
    retreat: Retreat,
    error: Option<String>,
    partial_exists: bool,
) -> (next: (VideoStarting, StartAction))
    ensures
        next == stop_retreat(partial_path, retreat, error, partial_exists),
{
    match retreat {
        Retreat::Cancelled => match error {
            Some(error) => {
                let partial = partial_path.clone();
                start_over(
                    partial_path,
                    StartOutcome::Cancelled(
                        Some(
                            VideoFinish::Broken(
                                VideoFinishError {
                                    error,
                                    partial,
                                    partial_exists,
                                    recording: None,
                                    recording_exists: false,
                                },
                            ),
                        ),
                    ),
                )
            },
            None => start_over(partial_path, StartOutcome::Cancelled(None)),
        },
        Retreat::Failed(cause) => start_over(
            partial_path,
            StartOutcome::Failed(StartFault { cause, cleanup: error }),
        ),
    }
}

/// The outcome once the recording was ended again.
pub open spec fn finish_retreat(
    partial_path: String,
    retreat: Retreat,
    finish: VideoFinish,
) -> (VideoStarting, StartAction) {
    match retreat {
        Retreat::Cancelled => starting_over(partial_path, StartOutcome::Cancelled(Some(finish))),
        Retreat::Failed(cause) => match finish {
            VideoFinish::Done(_) => starting_over(
                partial_path,
                StartOutcome::Failed(StartFault { cause, cleanup: None }),
            ),
            VideoFinish::Broken(broken) => starting_over(
                partial_path,
                StartOutcome::Failed(StartFault { cause, cleanup: Some(broken.error) }),
            ),
        },
    }
}

fn retreat_finished(
    partial_path: String,
    retreat: Retreat,
    finish: VideoFinish,
) -> (next: (VideoStarting, StartAction))
    ensures
        next == finish_retreat(partial_path, retreat, finish),
{
    match retreat {
        Retreat::Cancelled => start_over(partial_path, StartOutcome::Cancelled(Some(finish))),
        Retreat::Failed(cause) => match finish {
            VideoFinish::Done(_) => start_over(
                partial_path,
                StartOutcome::Failed(StartFault { cause, cleanup: None }),
            ),
            VideoFinish::Broken(broken) => start_over(
                partial_path,
                StartOutcome::Failed(StartFault { cause, cleanup: Some(broken.error) }),
            ),
        },
    }
}

/// What follows an event at the start of a recording.
pub open spec fn starting_step(
    starting: VideoStarting,
    event: StartEvent,
) -> (VideoStarting, StartAction) {
    let VideoStarting { partial_path, stage } = starting;
    match (stage, event) {
        (StartStage::Creating, StartEvent::Came(awaited)) => awaited_next(
            partial_path,
            awaited,
            StartStage::Listening,
            StartAction::Listen,
            true,
        ),
        (StartStage::Listening, StartEvent::Came(awaited)) => awaited_next(
            partial_path,
            awaited,
            StartStage::Screencasting,
            StartAction::StartScreencast,
            false,
        ),
        (StartStage::Screencasting, StartEvent::Came(awaited)) => awaited_cleanup(
            partial_path,
            awaited,
            StartStage::StartingRecorder,
            StartAction::StartRecorder,
        ),
        (StartStage::StartingRecorder, StartEvent::Came(awaited)) => awaited_cleanup(
            partial_path,
            awaited,
            StartStage::AwaitingFrame,
            StartAction::AwaitFrame,
        ),
        (StartStage::AwaitingFrame, StartEvent::Came(awaited)) => match awaited {
            Awaited::Ready(result) => match result {
                Ok(_) => starting_over(partial_path, StartOutcome::Ready { recording: true }),
                Err(_) => (
                    VideoStarting {
                        partial_path,
                        stage: StartStage::Finishing(Retreat::Failed(StartCause::EndedEarly)),
                    },
                    StartAction::FinishSession,
                ),
            },
            Awaited::Cancelled => (
                VideoStarting { partial_path, stage: StartStage::Finishing(Retreat::Cancelled) },
                StartAction::FinishSession,
            ),
            Awaited::Deadline => (
                VideoStarting {
                    partial_path,
                    stage: StartStage::Finishing(Retreat::Failed(StartCause::Deadline)),
                },
                StartAction::FinishSession,
            ),
        },
        (StartStage::Stopping(retreat), StartEvent::Stopped { error, partial_exists }) =>
            stop_retreat(partial_path, retreat, error, partial_exists),
        (StartStage::Finishing(retreat), StartEvent::Finished(finish)) => finish_retreat(
            partial_path,
            retreat,
            finish,
        ),
        (stage, _) => (VideoStarting { partial_path, stage }, StartAction::Ignore),
    }
}

fn next_start(starting: VideoStarting, event: StartEvent) -> (next: (VideoStarting, StartAction))
    ensures
        next == starting_step(starting, event),
{
    let VideoStarting { partial_path, stage } = starting;
    match (stage, event) {
        (StartStage::Creating, StartEvent::Came(awaited)) => await_next(
            partial_path,
            awaited,
            StartStage::Listening,
            StartAction::Listen,
            true,
        ),
        (StartStage::Listening, StartEvent::Came(awaited)) => await_next(
            partial_path,
            awaited,
            StartStage::Screencasting,
            StartAction::StartScreencast,
            false,
        ),
        (StartStage::Screencasting, StartEvent::Came(awaited)) => await_cleanup(
            partial_path,
            awaited,
            StartStage::StartingRecorder,
            StartAction::StartRecorder,
        ),
        (StartStage::StartingRecorder, StartEvent::Came(awaited)) => await_cleanup(
            partial_path,
            awaited,
            StartStage::AwaitingFrame,
            StartAction::AwaitFrame,
        ),
        (StartStage::AwaitingFrame, StartEvent::Came(awaited)) => match awaited {
            Awaited::Ready(result) => match result {
                Ok(_) => start_over(partial_path, StartOutcome::Ready { recording: true }),
                Err(_) => (
                    VideoStarting {
                        partial_path,
                        stage: StartStage::Finishing(Retreat::Failed(StartCause::EndedEarly)),
                    },
                    StartAction::FinishSession,
                ),
            },
            Awaited::Cancelled => (
                VideoStarting { partial_path, stage: StartStage::Finishing(Retreat::Cancelled) },
                StartAction::FinishSession,
            ),
            Awaited::Deadline => (
                VideoStarting {
                    partial_path,
                    stage: StartStage::Finishing(Retreat::Failed(StartCause::Deadline)),
                },
                StartAction::FinishSession,
            ),
        },
        (StartStage::Stopping(retreat), StartEvent::Stopped { error, partial_exists }) =>
            retreat_stopped(partial_path, retreat, error, partial_exists),
        (StartStage::Finishing(retreat), StartEvent::Finished(finish)) => retreat_finished(
            partial_path,
            retreat,
            finish,
        ),
        (stage, _) => (VideoStarting { partial_path, stage }, StartAction::Ignore),
    }
}

/// How an attempt to start a recording begins.
pub open spec fn started(
    partial_path: String,
    cancelled: bool,
    mode: VideoMode,
    has_ffmpeg: bool,
) -> (VideoStarting, StartAction) {
    if cancelled {
        starting_over(partial_path, StartOutcome::Cancelled(None))
    } else if mode is Off {
        starting_over(partial_path, StartOutcome::Ready { recording: false })
    } else if !has_ffmpeg {
        starting_over(
            partial_path,
            StartOutcome::Failed(StartFault { cause: StartCause::NoFfmpeg, cleanup: None }),
        )
    } else {
        (
            VideoStarting { partial_path, stage: StartStage::Creating },
            StartAction::CreateDirectory,
        )
    }
}

impl VideoStarting {
    /// Begins to start a recording.
    pub fn start(partial_path: String, cancelled: bool, mode: VideoMode, has_ffmpeg: bool) -> (next:
        (VideoStarting, StartAction))
        ensures
            next == started(partial_path, cancelled, mode, has_ffmpeg),
    {
        if cancelled {
            start_over(partial_path, StartOutcome::Cancelled(None))
        } else if mode == VideoMode::Off {
            start_over(partial_path, StartOutcome::Ready { recording: false })
        } else if !has_ffmpeg {
            start_over(
                partial_path,
                StartOutcome::Failed(StartFault { cause: StartCause::NoFfmpeg, cleanup: None }),
            )
        } else {
            (
                VideoStarting { partial_path, stage: StartStage::Creating },
                StartAction::CreateDirectory,
            )
        }
    }

    /// Takes an event.
    pub fn next(self, event: StartEvent) -> (next: (VideoStarting, StartAction))
        ensures
            next == starting_step(self, event),
    {
        next_start(self, event)
    }
}

impl StartOutcome {
    /// The outcome as the flow takes it.
    pub fn into_start(self) -> (start: VideoStart)
        ensures
            match self {
                StartOutcome::Ready { recording } => start == (VideoStart::Ready { recording }),
                StartOutcome::Cancelled(finish) => start == VideoStart::Cancelled(finish),
                StartOutcome::Failed(fault) => match start {
                    VideoStart::Failed(message) => message@ == with_cleanup(
                        cause_text(fault.cause),
                        fault.cleanup,
                    ),
                    _ => false,
                },
            },
    {
        match self {
            StartOutcome::Ready { recording } => VideoStart::Ready { recording },
            StartOutcome::Cancelled(finish) => VideoStart::Cancelled(finish),
            StartOutcome::Failed(fault) => VideoStart::Failed(fault.message()),
        }
    }
}

/// The order to start the screencast was given.
pub open spec fn casting(stage: StartStage) -> bool {
    stage is Screencasting || stage is StartingRecorder || stage is AwaitingFrame
}

/// A screencast that was ordered runs on only where the recording is ready: every other end comes
/// after it was stopped, or after the recording was ended.
pub proof fn screencasts_are_stopped(starting: VideoStarting, event: StartEvent)
    ensures
        ({
            let (after, action) = starting_step(starting, event);
            &&& (casting(starting.stage) && action is End ==> action == StartAction::End(
                StartOutcome::Ready { recording: true },
            ))
            &&& (after.stage is Stopping && !(starting.stage is Stopping) ==> action
                is StopScreencast)
            &&& (after.stage is Finishing && !(starting.stage is Finishing) ==> action
                is FinishSession)
            &&& (action is End ==> after.stage is Over)
            &&& (casting(starting.stage) ==> casting(after.stage) || after.stage is Stopping
                || after.stage is Finishing || action is End)
        }),
{
}

/// A cancelled start never ends as a failure, unless it had failed before.
pub proof fn cancelled_starts_are_cancelled(starting: VideoStarting, event: StartEvent)
    requires
        event == StartEvent::Came(Awaited::Cancelled) || starting.stage == StartStage::Stopping(
            Retreat::Cancelled,
        ) || starting.stage == StartStage::Finishing(Retreat::Cancelled),
    ensures
        ({
            let (after, action) = starting_step(starting, event);
            action is End ==> action->End_0 is Cancelled
        }),
{
}

/// How many events the start of a recording still takes at most.
pub open spec fn start_left(stage: StartStage) -> nat {
    match stage {
        StartStage::Creating => 6,
        StartStage::Listening => 5,
        StartStage::Screencasting => 4,
        StartStage::StartingRecorder => 3,
        StartStage::AwaitingFrame => 2,
        StartStage::Stopping(_) => 1,
        StartStage::Finishing(_) => 1,
        StartStage::Over => 0,
    }
}

/// The start of a recording comes to an end: each event that is not ignored brings it nearer.
pub proof fn starts_end(starting: VideoStarting, event: StartEvent)
    ensures
        ({
            let (after, action) = starting_step(starting, event);
            &&& (action is Ignore ==> after == starting)
            &&& (!(action is Ignore) ==> start_left(after.stage) < start_left(starting.stage))
        }),
{
}

/// How a recording ended.
#[derive(Debug, Clone, Copy, PartialEq, Eq, Structural)]
pub enum RecordingStatus {
    Complete,
    Partial,
    Failed,
}

impl RecordingStatus {
    /// The name of the status.
    pub open spec fn label(self) -> Seq<char> {
        match self {
            RecordingStatus::Complete => "complete"@,
            RecordingStatus::Partial => "partial"@,
            RecordingStatus::Failed => "failed"@,
        }
    }

    /// The name of the status.
    pub fn name(self) -> (name: &'static str)
        ensures
            name@ == self.label(),
    {
        match self {
            RecordingStatus::Complete => "complete",
            RecordingStatus::Partial => "partial",
            RecordingStatus::Failed => "failed",
        }
    }
}

/// What is left of a session's recording.
#[derive(Debug, Clone, PartialEq, Eq)]
pub struct SessionRecordingFinish {
    pub status: RecordingStatus,
    pub path: Option<String>,
    pub partial_path: Option<String>,
    pub warnings: Vec<String>,
}

/// The fields that describe what is left of a recording.
pub open spec fn recording_fields(finish: SessionRecordingFinish) -> Seq<(Seq<char>, Json)> {
    let fields = seq![("status"@, Json::Text(finish.status.label()))];
    let fields = match finish.path {
        Some(path) => fields.push(("path"@, Json::Text(path@))),
        None => fields,
    };
    let fields = match finish.partial_path {
        Some(path) => fields.push(("partial_path"@, Json::Text(path@))),
        None => fields,
    };
    fields.push(
        (
            "warnings"@,
            Json::List(texts_view(finish.warnings@).map_values(|text: Seq<char>| Json::Text(text))),
        ),
    )
}

impl SessionRecordingFinish {
    /// The record that describes what is left of the recording.
    pub fn to_json(&self) -> (value: JsonValue)
        ensures
            value@ == Json::Record(gathered(recording_fields(*self))),
    {
        let mut fields: Vec<(String, JsonValue)> = vec![
            field("status", text_value(self.status.name())),
        ];
        if let Some(path) = &self.path {
            fields.push(field("path", text_value(path.as_str())));
        }
        if let Some(path) = &self.partial_path {
            fields.push(field("partial_path", text_value(path.as_str())));
        }
        fields.push(field("warnings", text_list(&self.warnings)));
        assert(fields_view(fields@) =~= recording_fields(*self));
        record_of(fields)
    }
}

/// What is left of a recording: it is complete where the recorder tells its place or its file is
/// there, else partial where the partial file is there.
pub fn finish_result(
    path: Option<String>,
    output_path: &str,
    output_exists: bool,
    partial_path: &str,
    partial_exists: bool,
    warnings: Vec<String>,
) -> (finish: SessionRecordingFinish)
    ensures
        match finish.path {
            Some(place) => match path {
                Some(told) => place == told,
                None => output_exists && place@ == output_path@,
            },
            None => path is None && !output_exists,
        },
        match finish.partial_path {
            Some(place) => partial_exists && place@ == partial_path@,
            None => !partial_exists,
        },
        finish.status == if path is Some || output_exists {
            RecordingStatus::Complete
        } else if partial_exists {
            RecordingStatus::Partial
        } else {
            RecordingStatus::Failed
        },
        finish.warnings == warnings,
{
    let complete = match path {
        Some(path) => Some(path),
        None => if output_exists {
            Some(output_path.to_owned())
        } else {
            None
        },
    };
    let partial = if partial_exists {
        Some(partial_path.to_owned())
    } else {
        None
    };
    let status = if complete.is_some() {
        RecordingStatus::Complete
    } else if partial.is_some() {
        RecordingStatus::Partial
    } else {
        RecordingStatus::Failed
    };
    SessionRecordingFinish { status, path: complete, partial_path: partial, warnings }
}

/// Why the source of frames is given up.
#[derive(Debug)]
pub enum Purpose {
    Rebind(String),
    Finalize,
}

/// What the recorder of a session waits for. In a stage that ends the recording, `frame` tells whether
/// its last frame was captured.
#[derive(Debug)]
#[allow(inconsistent_fields)]
pub enum RecorderStage {
    Idle,
    Stopping { purpose: Purpose, frame: bool },
    Joining { purpose: Purpose, frame: bool },
    Listening { page: String },
    Casting { page: String },
    Capturing,
    Finalizing,
    Over,
}

/// The recorder of a session: the page it takes frames from, and what it waits for.
#[derive(Debug)]
pub struct Recorder {
    pub source: Option<String>,
    pub stage: RecorderStage,
}

/// What the recorder of a session warns of.
#[derive(Debug)]
pub enum Warning {
    Told(String),
    Stop(StopOutcome),
    TaskLost(String),
    TaskTimedOut,
    FinalFrame(String),
    FinalizeTimedOut,
    Video(VideoError),
}

/// The text of a warning, if there is anything to warn of.
pub open spec fn warning_text(warning: Warning) -> Option<Seq<char>> {
    match warning {
        Warning::Told(error) => Some(error@),
        Warning::Stop(outcome) => stop_text(outcome),
        Warning::TaskLost(error) => Some("screencast task failed: "@ + error@),
        Warning::TaskTimedOut => Some("screencast task shutdown timed out"@),
        Warning::FinalFrame(error) => Some("capture final recording frame: "@ + error@),
        Warning::FinalizeTimedOut => Some("video finalization timed out"@),
        Warning::Video(error) => Some(video_error_text(error)),
    }
}

impl Warning {
    /// The text of the warning.
    pub fn text(self) -> (text: Option<String>)
        ensures
            match (text, warning_text(self)) {
                (Some(text), Some(expected)) => text@ == expected,
                (None, None) => true,
                _ => false,
            },
    {
        match self {
            Warning::Told(error) => Some(error),
            Warning::Stop(outcome) => stop_error(outcome),
            Warning::TaskLost(error) => Some(join("screencast task failed: ", error.as_str())),
            Warning::TaskTimedOut => Some("screencast task shutdown timed out".to_owned()),
            Warning::FinalFrame(error) => Some(
                join("capture final recording frame: ", error.as_str()),
            ),
            Warning::FinalizeTimedOut => Some("video finalization timed out".to_owned()),
            Warning::Video(error) => Some(error.message()),
        }
    }
}

/// Why the recorder does not follow to a page.
#[derive(Debug)]
pub enum BindFault {
    Listen(String),
    Start(String),
}

/// The text of the fault.
pub open spec fn bind_text(fault: BindFault) -> Seq<char> {
    match fault {
        BindFault::Listen(error) => "listen for screencast frames: "@ + error@,
        BindFault::Start(error) => "start screencast: "@ + error@,
    }
}

impl BindFault {
    /// The text of the fault.
    pub fn message(&self) -> (message: String)
        ensures
            message@ == bind_text(*self),
    {
        match self {
            BindFault::Listen(error) => join("listen for screencast frames: ", error.as_str()),
            BindFault::Start(error) => join("start screencast: ", error.as_str()),
        }
    }
}

/// What happens to the recorder of a session.
#[derive(Debug)]
pub enum RecorderEvent {
    Bind(String),
    Finalize,
    Captured(Option<String>),
    Stopped(StopOutcome),
    Joined(Option<String>),
    TaskLost(String),
    TaskTimedOut,
    Listened(Option<String>),
    Cast(Option<String>),
    Finalized(Result<Option<String>, VideoError>),
    FinalizeTimedOut,
}

/// What the recorder of a session does next.
#[derive(Debug)]
#[allow(inconsistent_fields)]
pub enum RecorderAction {
    Ignore,
    Bound,
    NotBound(BindFault),
    CaptureFinalFrame,
    StopScreencast,
    JoinTask,
    Listen,
    StartScreencast,
    FinalizeRecorder { with_frame: bool },
    Finish { path: Option<String> },
}

/// A state, what to do, and what to warn of.
#[derive(Debug)]
pub struct RecorderNext {
    pub recorder: Recorder,
    pub action: RecorderAction,
    pub warning: Option<Warning>,
}

/// Whether this is the page that frames are taken from.
pub open spec fn is_page(source: Option<String>, page: String) -> bool {
    match source {
        Some(source) => source@ == page@,
        None => false,
    }
}

fn same_page(source: &Option<String>, page: &String) -> (same: bool)
    ensures
        same == is_page(*source, *page),
{
    match source {
        Some(source) => same_text(source.as_str(), page.as_str()),
        None => false,
    }
}

/// The recorder at a stage, with nothing to warn of.
pub open spec fn recorder_then(
    source: Option<String>,
    stage: RecorderStage,
    action: RecorderAction,
) -> RecorderNext {
    RecorderNext { recorder: Recorder { source, stage }, action, warning: None }
}

fn recorder_at(
    source: Option<String>,
    stage: RecorderStage,
    action: RecorderAction,
) -> (next: RecorderNext)
    ensures
        next == recorder_then(source, stage, action),
{
    RecorderNext { recorder: Recorder { source, stage }, action, warning: None }
}

/// What follows once the source of frames is gone.
pub open spec fn source_lost(
    purpose: Purpose,
    frame: bool,
    warning: Option<Warning>,
) -> RecorderNext {
    match purpose {
        Purpose::Rebind(page) => RecorderNext {
            recorder: Recorder { source: None, stage: RecorderStage::Listening { page } },
            action: RecorderAction::Listen,
            warning,
        },
        Purpose::Finalize => RecorderNext {
            recorder: Recorder { source: None, stage: RecorderStage::Finalizing },
            action: RecorderAction::FinalizeRecorder { with_frame: frame },
            warning,
        },
    }
}

fn source_gone(purpose: Purpose, frame: bool, warning: Option<Warning>) -> (next: RecorderNext)
    ensures
        next == source_lost(purpose, frame, warning),
{
    match purpose {
        Purpose::Rebind(page) => RecorderNext {
            recorder: Recorder { source: None, stage: RecorderStage::Listening { page } },
            action: RecorderAction::Listen,
            warning,
        },
        Purpose::Finalize => RecorderNext {
            recorder: Recorder { source: None, stage: RecorderStage::Finalizing },
            action: RecorderAction::FinalizeRecorder { with_frame: frame },
            warning,
        },
    }
}

/// What follows an event of the recorder of a session.
pub open spec fn recorder_step(recorder: Recorder, event: RecorderEvent) -> RecorderNext {
    let Recorder { source, stage } = recorder;
    match (stage, event) {
        (RecorderStage::Idle, RecorderEvent::Bind(page)) => if is_page(source, page) {
            recorder_then(source, RecorderStage::Idle, RecorderAction::Bound)
        } else if source is Some {
            recorder_then(
                source,
                RecorderStage::Stopping { purpose: Purpose::Rebind(page), frame: false },
                RecorderAction::StopScreencast,
            )
        } else {
            recorder_then(source, RecorderStage::Listening { page }, RecorderAction::Listen)
        },
        (RecorderStage::Idle, RecorderEvent::Finalize) => if source is Some {
            recorder_then(source, RecorderStage::Capturing, RecorderAction::CaptureFinalFrame)
        } else {
            recorder_then(
                source,
                RecorderStage::Finalizing,
                RecorderAction::FinalizeRecorder { with_frame: false },
            )
        },
        (RecorderStage::Capturing, RecorderEvent::Captured(error)) => match error {
            Some(error) => RecorderNext {
                recorder: Recorder {
                    source,
                    stage: RecorderStage::Stopping { purpose: Purpose::Finalize, frame: false },
                },
                action: RecorderAction::StopScreencast,
                warning: Some(Warning::FinalFrame(error)),
            },
            None => recorder_then(
                source,
                RecorderStage::Stopping { purpose: Purpose::Finalize, frame: true },
                RecorderAction::StopScreencast,
            ),
        },
        (RecorderStage::Stopping { purpose, frame }, RecorderEvent::Stopped(outcome)) =>
            RecorderNext {
                recorder: Recorder { source, stage: RecorderStage::Joining { purpose, frame } },
                action: RecorderAction::JoinTask,
                warning: Some(Warning::Stop(outcome)),
            },
        (RecorderStage::Joining { purpose, frame }, RecorderEvent::Joined(error)) => match error {
            Some(error) => source_lost(purpose, frame, Some(Warning::Told(error))),
            None => source_lost(purpose, frame, None),
        },
        (RecorderStage::Joining { purpose, frame }, RecorderEvent::TaskLost(error)) =>
            source_lost(purpose, frame, Some(Warning::TaskLost(error))),
        (RecorderStage::Joining { purpose, frame }, RecorderEvent::TaskTimedOut) => source_lost(
            purpose,
            frame,
            Some(Warning::TaskTimedOut),
        ),
        (RecorderStage::Listening { page }, RecorderEvent::Listened(error)) => match error {
            Some(error) => recorder_then(
                None,
                RecorderStage::Idle,
                RecorderAction::NotBound(BindFault::Listen(error)),
            ),
            None => recorder_then(
                None,
                RecorderStage::Casting { page },
                RecorderAction::StartScreencast,
            ),
        },
        (RecorderStage::Casting { page }, RecorderEvent::Cast(error)) => match error {
            Some(error) => recorder_then(
                None,
                RecorderStage::Idle,
                RecorderAction::NotBound(BindFault::Start(error)),
            ),
            None => recorder_then(Some(page), RecorderStage::Idle, RecorderAction::Bound),
        },
        (RecorderStage::Finalizing, RecorderEvent::Finalized(result)) => match result {
            Ok(path) => recorder_then(None, RecorderStage::Over, RecorderAction::Finish { path }),
            Err(error) => RecorderNext {
                recorder: Recorder { source: None, stage: RecorderStage::Over },
                action: RecorderAction::Finish { path: None },
                warning: Some(Warning::Video(error)),
            },
        },
        (RecorderStage::Finalizing, RecorderEvent::FinalizeTimedOut) => RecorderNext {
            recorder: Recorder { source: None, stage: RecorderStage::Over },
            action: RecorderAction::Finish { path: None },
            warning: Some(Warning::FinalizeTimedOut),
        },
        (stage, _) => recorder_then(source, stage, RecorderAction::Ignore),
    }
}

fn next_recorder(recorder: Recorder, event: RecorderEvent) -> (next: RecorderNext)
    ensures
        next == recorder_step(recorder, event),
{
    let Recorder { source, stage } = recorder;
    match (stage, event) {
        (RecorderStage::Idle, RecorderEvent::Bind(page)) => if same_page(&source, &page) {
            recorder_at(source, RecorderStage::Idle, RecorderAction::Bound)
        } else if source.is_some() {
            recorder_at(
                source,
                RecorderStage::Stopping { purpose: Purpose::Rebind(page), frame: false },
                RecorderAction::StopScreencast,
            )
        } else {
            recorder_at(source, RecorderStage::Listening { page }, RecorderAction::Listen)
        },
        (RecorderStage::Idle, RecorderEvent::Finalize) => if source.is_some() {
            recorder_at(source, RecorderStage::Capturing, RecorderAction::CaptureFinalFrame)
        } else {
            recorder_at(
                source,
                RecorderStage::Finalizing,
                RecorderAction::FinalizeRecorder { with_frame: false },
            )
        },
        (RecorderStage::Capturing, RecorderEvent::Captured(error)) => match error {
            Some(error) => RecorderNext {
                recorder: Recorder {
                    source,
                    stage: RecorderStage::Stopping { purpose: Purpose::Finalize, frame: false },
                },
                action: RecorderAction::StopScreencast,
                warning: Some(Warning::FinalFrame(error)),
            },
            None => recorder_at(
                source,
                RecorderStage::Stopping { purpose: Purpose::Finalize, frame: true },
                RecorderAction::StopScreencast,
            ),
        },
        (RecorderStage::Stopping { purpose, frame }, RecorderEvent::Stopped(outcome)) =>
            RecorderNext {
                recorder: Recorder { source, stage: RecorderStage::Joining { purpose, frame } },
                action: RecorderAction::JoinTask,
                warning: Some(Warning::Stop(outcome)),
            },
        (RecorderStage::Joining { purpose, frame }, RecorderEvent::Joined(error)) => match error {
            Some(error) => source_gone(purpose, frame, Some(Warning::Told(error))),
            None => source_gone(purpose, frame, None),
        },
        (RecorderStage::Joining { purpose, frame }, RecorderEvent::TaskLost(error)) =>
            source_gone(purpose, frame, Some(Warning::TaskLost(error))),
        (RecorderStage::Joining { purpose, frame }, RecorderEvent::TaskTimedOut) => source_gone(
            purpose,
            frame,
            Some(Warning::TaskTimedOut),
        ),
        (RecorderStage::Listening { page }, RecorderEvent::Listened(error)) => match error {
            Some(error) => recorder_at(
                None,
                RecorderStage::Idle,
                RecorderAction::NotBound(BindFault::Listen(error)),
            ),
            None => recorder_at(
                None,
                RecorderStage::Casting { page },
                RecorderAction::StartScreencast,
            ),
        },
        (RecorderStage::Casting { page }, RecorderEvent::Cast(error)) => match error {
            Some(error) => recorder_at(
                None,
                RecorderStage::Idle,
                RecorderAction::NotBound(BindFault::Start(error)),
            ),
            None => recorder_at(Some(page), RecorderStage::Idle, RecorderAction::Bound),
        },
        (RecorderStage::Finalizing, RecorderEvent::Finalized(result)) => match result {
            Ok(path) => recorder_at(None, RecorderStage::Over, RecorderAction::Finish { path }),
            Err(error) => RecorderNext {
                recorder: Recorder { source: None, stage: RecorderStage::Over },
                action: RecorderAction::Finish { path: None },
                warning: Some(Warning::Video(error)),
            },
        },
        (RecorderStage::Finalizing, RecorderEvent::FinalizeTimedOut) => RecorderNext {
            recorder: Recorder { source: None, stage: RecorderStage::Over },
            action: RecorderAction::Finish { path: None },
            warning: Some(Warning::FinalizeTimedOut),
        },
        (stage, _) => recorder_at(source, stage, RecorderAction::Ignore),
    }
}

/// The recorder of a session, with its warnings.
#[derive(Debug)]
pub struct SessionRecorder {
    pub recorder: Recorder,
    pub warnings: Vec<String>,
}

impl SessionRecorder {
    /// A recorder that takes frames from no page yet.
    pub fn new() -> (session: SessionRecorder)
        ensures
            session.recorder == (Recorder { source: None, stage: RecorderStage::Idle }),
            session.warnings@.len() == 0,
    {
        SessionRecorder {
            recorder: Recorder { source: None, stage: RecorderStage::Idle },
            warnings: Vec::new(),
        }
    }

    /// Takes an event, and keeps what is to be warned of.
    pub fn next(self, event: RecorderEvent) -> (next: (SessionRecorder, RecorderAction))
        ensures
            ({
                let step = recorder_step(self.recorder, event);
                &&& next.0.recorder == step.recorder
                &&& next.1 == step.action
                &&& texts_view(next.0.warnings@) == with_error(
                    texts_view(self.warnings@),
                    match step.warning {
                        Some(warning) => warning_text(warning),
                        None => None,
                    },
                )
            }),
    {
        let SessionRecorder { recorder, warnings } = self;
        let mut warnings = warnings;
        let next = next_recorder(recorder, event);
        if let Some(warning) = next.warning {
            push_error(&mut warnings, warning.text());
        }
        (SessionRecorder { recorder: next.recorder, warnings }, next.action)
    }
}

/// A recorder takes frames from one page at a time: it binds to another page only once the screencast
/// of the one before was stopped and its task is gone.
pub proof fn one_source_at_a_time(recorder: Recorder, event: RecorderEvent)
    requires
        recorder.stage is Listening || recorder.stage is Casting || recorder.stage is Finalizing
            ==> recorder.source is None,
    ensures
        ({
            let next = recorder_step(recorder, event);
            let after = next.recorder;
            &&& (after.stage is Listening || after.stage is Casting || after.stage is Finalizing
                ==> after.source is None)
            &&& (next.action is StartScreencast ==> recorder.source is None)
            &&& (next.action is Bound ==> after.source is Some && after.stage is Idle)
            &&& (after.source != recorder.source && recorder.source is Some ==> recorder.stage
                is Joining)
        }),
{
}

/// A page that frames are taken from already is not bound again: nothing is stopped or started.
pub proof fn binding_again_changes_nothing(recorder: Recorder, page: String)
    requires
        recorder.stage is Idle,
        is_page(recorder.source, page),
    ensures
        recorder_step(recorder, RecorderEvent::Bind(page)) == (RecorderNext {
            recorder,
            action: RecorderAction::Bound,
            warning: None,
        }),
{
}

/// How a recording's file is settled: the writer is awaited, then the program's exit, then what it wrote to
/// its error output. A recording that is wanted is moved to its place; one that is not is removed; both once
/// the place is cleared.
pub proof fn a_recording_is_settled_in_order(
    start: Finalization,
    writer: Option<String>,
    success: bool,
    status: String,
    stderr: String,
)
    requires
        start.stage is Writing,
    ensures
        ({
            let unwanted = start.mode is RetainOnFailure && !start.flow_failed;
            let (exiting, first) = finalization_step(start, FinalizeEvent::Written(writer));
            let (reading, second) = finalization_step(
                exiting,
                FinalizeEvent::Exited { success, status },
            );
            let (clearing, third) = finalization_step(reading, FinalizeEvent::StderrRead(stderr));
            let (moving, fourth) = finalization_step(clearing, FinalizeEvent::Done(None));
            let fifth = finalization_step(moving, FinalizeEvent::Done(None)).1;
            &&& first is WaitForExit && second is ReadStderr
            &&& !success ==> third == FinalizeAction::Finish(
                Err(
                    VideoError::FfmpegFailed { status, stderr, partial_path: start.partial_path },
                ),
            )
            &&& success && writer is Some ==> third == FinalizeAction::Finish(
                Err(VideoError::FrameWriter(writer->0)),
            )
            &&& success && writer is None ==> third is RemoveOutput
            &&& success && writer is None && unwanted ==> fourth is RemovePartial && fifth
                == FinalizeAction::Finish(Ok(None))
            &&& success && writer is None && !unwanted ==> fourth is RenamePartial && fifth
                == FinalizeAction::Finish(Ok(Some(start.output_path)))
        }),
{
}

/// A recording that cannot be settled tells what went wrong, and where: a program that does not end is killed
/// first, and a file that could not be cleared, moved or removed is named.
pub proof fn unsettled_recordings_tell_why(finalization: Finalization, error: String)
    ensures
        ({
            let at = |stage: FinalizeStage| Finalization { stage, ..finalization };
            let told = |stage: FinalizeStage, event: FinalizeEvent|
                finalization_step(Finalization { stage, ..finalization }, event).1;
            let broken = |path: String| FinalizeAction::Finish(
                Err(VideoError::Artifact { path, source: error }),
            );
            let done = FinalizeEvent::Done(Some(error));
            &&& told(FinalizeStage::Writing, FinalizeEvent::WriterLost(error))
                == FinalizeAction::Finish(Err(VideoError::FrameWriter(error)))
            &&& told(FinalizeStage::Writing, FinalizeEvent::WriterTimedOut) == (FinalizeAction::Kill {
                abort_writer: true,
            })
            &&& told(
                FinalizeStage::Exiting { writer: Some(error) },
                FinalizeEvent::ExitTimedOut,
            ) == (FinalizeAction::Kill { abort_writer: false })
            &&& told(FinalizeStage::Exiting { writer: None }, FinalizeEvent::ExitTimedOut) == (
            FinalizeAction::Kill { abort_writer: false })
            &&& told(FinalizeStage::Exiting { writer: None }, FinalizeEvent::ExitLost(error))
                == broken(finalization.partial_path)
            &&& told(FinalizeStage::Killing, FinalizeEvent::Killed) == FinalizeAction::Finish(
                Err(
                    VideoError::FinalizationTimeout(15_000_000_000, finalization.partial_path),
                ),
            )
            &&& told(FinalizeStage::ClearingForRemoval, done) == broken(finalization.output_path)
            &&& told(FinalizeStage::Removing, done) == broken(finalization.partial_path)
            &&& told(FinalizeStage::ClearingForRename, done) == broken(finalization.output_path)
            &&& told(FinalizeStage::Renaming, done) == broken(finalization.output_path)
        }),
{
}

/// How a recording ends: the screencast is stopped, its task joined, and the file settled, which is kept where
/// the run failed or anything went wrong on the way. What went wrong is told all together, with the recording.
pub proof fn an_ending_tells_all_that_went_wrong(
    start: EndingModel,
    outcome: StopOutcome,
    first: (EndingModel, FinishAction),
    joined_error: Option<String>,
    second: (EndingModel, FinishAction),
    result: Result<Option<String>, VideoError>,
    third: (EndingModel, FinishAction),
)
    requires
        start.stage is Stopping && start.errors.len() == 0,
        ending_follows(start, FinishEvent::Stopped(outcome), first.0, first.1),
        ending_follows(first.0, FinishEvent::Joined(joined_error), second.0, second.1),
        ending_follows(second.0, FinishEvent::Finalized(result), third.0, third.1),
    ensures
        ({
            let clean = outcome is Stopped && joined_error is None;
            &&& first.1 is Join
            &&& second.1 == (FinishAction::Finalize { retain: start.flow_failed || !clean })
            &&& clean && result is Ok ==> third.1 == FinishAction::Finish(Ok(result->Ok_0))
            &&& !clean && result is Ok ==> (third.1 matches FinishAction::Finish(Err(fault))
                && fault.recording == result->Ok_0)
            &&& outcome is Stopped && joined_error is Some && result is Ok ==> (third.1 matches
                FinishAction::Finish(Err(fault)) && fault.error@ == joined_error->0@)
            &&& outcome is Failed && joined_error is None && result is Ok ==> (third.1 matches
                FinishAction::Finish(Err(fault)) && fault.error@ == "stop screencast: "@
                + outcome->Failed_0@)
            &&& outcome is TimedOut && joined_error is Some && result is Ok ==> (third.1 matches
                FinishAction::Finish(Err(fault)) && fault.error@ == "stop screencast timed out"@
                + "; "@ + joined_error->0@)
            &&& result is Err ==> (third.1 matches FinishAction::Finish(Err(fault))
                && fault.recording is None && fault.error@ == video_error_text(result->Err_0))
            &&& third.0.stage is Over
        }),
{
    if let Some(told) = joined_error {
        if let Some(text) = stop_text(outcome) {
            let both = second.0.errors;
            assert(both =~= seq![text, told@]);
            assert(both.drop_last() =~= seq![text]);
            assert(joined(seq![text], "; "@) == text);
            assert(joined(both, "; "@) == text + "; "@ + told@);
        } else {
            assert(second.0.errors =~= seq![told@]);
        }
    } else if let Some(text) = stop_text(outcome) {
        assert(second.0.errors =~= seq![text]);
    }
}

/// An ending whose task is lost or late, or whose file is not settled in time, is broken and has no recording.
pub proof fn lost_endings_have_no_recording(
    before: EndingModel,
    error: String,
    after: EndingModel,
    action: FinishAction,
    event: FinishEvent,
)
    requires
        ending_follows(before, event, after, action),
        before.stage is Joining && (event == FinishEvent::TaskLost(error) || event is TaskTimedOut)
            || before.stage is Finalizing && event is FinalizeTimedOut,
    ensures
        action matches FinishAction::Finish(Err(fault)) && fault.recording is None && (event
            is TaskLost ==> fault.error@ == "screencast task failed: "@ + error@),
        after.stage is Over,
{
}

/// A recording is kept where the run failed or the screencast did.
pub proof fn failures_keep_the_recording(flow_failed: bool, errors: Vec<String>, retain: bool)
    requires
        call_ensures(should_retain_video, (flow_failed, &errors), retain),
    ensures
        retain <==> flow_failed || errors@.len() != 0,
{
}

/// What became of a recording that broke is told with its files, and one that did not with its path alone.
pub proof fn endings_are_told_with_their_files(
    result: Result<Option<String>, EndingFault>,
    partial_path: String,
    partial_exists: bool,
    recording_exists: bool,
    finish: VideoFinish,
)
    requires
        call_ensures(video_finish, (result, partial_path, partial_exists, recording_exists), finish),
    ensures
        result matches Ok(recording) ==> finish == VideoFinish::Done(recording),
        result matches Err(fault) ==> (finish matches VideoFinish::Broken(told) && told.error
            == fault.error && told.partial == partial_path && told.partial_exists == partial_exists
            && told.recording == fault.recording && told.recording_exists == recording_exists),
{
}

/// How a recording starts: the directory is made, frames are listened for, the screencast and the recorder are
/// started, and the first frame is awaited. Only then is it ready.
pub proof fn a_recording_starts_in_order(partial_path: String, mode: VideoMode)
    requires
        !(mode is Off),
    ensures
        ({
            let fine = StartEvent::Came(Awaited::Ready(Ok(())));
            let (creating, first) = started(partial_path, false, mode, true);
            let (listening, second) = starting_step(creating, fine);
            let (casting, third) = starting_step(listening, fine);
            let (starting, fourth) = starting_step(casting, fine);
            let (awaiting, fifth) = starting_step(starting, fine);
            let (over, sixth) = starting_step(awaiting, fine);
            &&& first is CreateDirectory && second is Listen && third is StartScreencast
            &&& fourth is StartRecorder && fifth is AwaitFrame
            &&& sixth == StartAction::End(StartOutcome::Ready { recording: true })
            &&& over.stage is Over && over.partial_path == partial_path
        }),
{
}

/// A run that is cancelled starts no recording, one whose mode is off needs none, and one that is to record
/// needs a program for it.
pub proof fn recordings_start_only_where_wanted(
    partial_path: String,
    cancelled: bool,
    mode: VideoMode,
    has_ffmpeg: bool,
)
    ensures
        ({
            let action = started(partial_path, cancelled, mode, has_ffmpeg).1;
            &&& cancelled ==> action == StartAction::End(StartOutcome::Cancelled(None))
            &&& !cancelled && mode is Off ==> action == StartAction::End(
                StartOutcome::Ready { recording: false },
            )
            &&& !cancelled && !(mode is Off) && !has_ffmpeg ==> action == StartAction::End(
                StartOutcome::Failed(StartFault { cause: StartCause::NoFfmpeg, cleanup: None }),
            )
            &&& !cancelled && !(mode is Off) && has_ffmpeg ==> action is CreateDirectory
        }),
{
}

/// A start that fails before the screencast runs ends at once with its error.
pub proof fn early_failures_end_the_start(starting: VideoStarting, awaited: Awaited)
    requires
        starting.stage is Creating || starting.stage is Listening,
        !(awaited matches Awaited::Ready(Ok(_))),
    ensures
        starting_step(starting, StartEvent::Came(awaited)).1 == StartAction::End(
            match awaited {
                Awaited::Cancelled => StartOutcome::Cancelled(None),
                Awaited::Deadline => StartOutcome::Failed(
                    StartFault { cause: StartCause::Deadline, cleanup: None },
                ),
                Awaited::Ready(result) => StartOutcome::Failed(
                    StartFault {
                        cause: if starting.stage is Creating {
                            StartCause::Directory(result->Err_0)
                        } else {
                            StartCause::Told(result->Err_0)
                        },
                        cleanup: None,
                    },
                ),
            },
        ),
{
}

/// A start that fails once the screencast runs stops it first. It then ends with what it failed with, and with
/// what went wrong in stopping.
pub proof fn late_failures_stop_the_screencast(
    starting: VideoStarting,
    awaited: Awaited,
    error: Option<String>,
    partial_exists: bool,
)
    requires
        starting.stage is Screencasting || starting.stage is StartingRecorder,
        !(awaited matches Awaited::Ready(Ok(_))),
    ensures
        ({
            let (stopping, first) = starting_step(starting, StartEvent::Came(awaited));
            let second = starting_step(stopping, StartEvent::Stopped { error, partial_exists }).1;
            &&& first is StopScreencast
            &&& awaited is Deadline ==> second == StartAction::End(
                StartOutcome::Failed(StartFault { cause: StartCause::Deadline, cleanup: error }),
            )
            &&& awaited matches Awaited::Ready(result) ==> second == StartAction::End(
                StartOutcome::Failed(
                    StartFault { cause: StartCause::Told(result->Err_0), cleanup: error },
                ),
            )
            &&& awaited is Cancelled && error is None ==> second == StartAction::End(
                StartOutcome::Cancelled(None),
            )
            &&& awaited is Cancelled && error is Some ==> second == StartAction::End(
                StartOutcome::Cancelled(
                    Some(
                        VideoFinish::Broken(
                            VideoFinishError {
                                error: error->0,
                                partial: starting.partial_path,
                                partial_exists,
                                recording: None,
                                recording_exists: false,
                            },
                        ),
                    ),
                ),
            )
        }),
{
}

/// A start that fails while it awaits the first frame ends the recording first, and then ends with what it
/// failed with and what went wrong at the end of the recording.
pub proof fn starts_without_a_frame_end_the_recording(
    starting: VideoStarting,
    awaited: Awaited,
    finish: VideoFinish,
)
    requires
        starting.stage is AwaitingFrame,
        !(awaited matches Awaited::Ready(Ok(_))),
    ensures
        ({
            let (finishing, first) = starting_step(starting, StartEvent::Came(awaited));
            let second = starting_step(finishing, StartEvent::Finished(finish)).1;
            let cleanup = match finish {
                VideoFinish::Done(_) => None,
                VideoFinish::Broken(broken) => Some(broken.error),
            };
            &&& first is FinishSession
            &&& awaited is Cancelled ==> second == StartAction::End(
                StartOutcome::Cancelled(Some(finish)),
            )
            &&& awaited is Deadline ==> second == StartAction::End(
                StartOutcome::Failed(StartFault { cause: StartCause::Deadline, cleanup }),
            )
            &&& awaited is Ready ==> second == StartAction::End(
                StartOutcome::Failed(StartFault { cause: StartCause::EndedEarly, cleanup }),
            )
        }),
{
}

/// What a failed start is told with: its cause, and the cleanup's error behind it where there is one.
pub proof fn failed_starts_tell_cause_and_cleanup(
    fault: StartFault,
    message: String,
    outcome: StartOutcome,
    start: VideoStart,
)
    requires
        call_ensures(StartFault::message, (fault,), message),
        call_ensures(StartOutcome::into_start, (outcome,), start),
    ensures
        fault.cause matches StartCause::Told(error) ==> message@ == match fault.cleanup {
            None => error@,
            Some(cleanup) => error@ + "; cleanup failed: "@ + cleanup@,
        },
        fault.cause matches StartCause::Directory(error) ==> fault.cleanup is None ==> message@
            == "create artifact directory: "@ + error@,
        outcome == StartOutcome::Failed(fault) ==> (start matches VideoStart::Failed(told) && told@
            == message@),
        outcome matches StartOutcome::Ready { recording } ==> start == (VideoStart::Ready {
            recording,
        }),
        outcome matches StartOutcome::Cancelled(finish) ==> start == VideoStart::Cancelled(finish),
{
}

/// A recording of a session is complete where its file is there, partial where only a partial one is, and
/// failed where neither is. Each path is told exactly if its file is there.
pub proof fn recordings_are_told_by_their_files(
    path: Option<String>,
    output_path: &str,
    output_exists: bool,
    partial_path: &str,
    partial_exists: bool,
    warnings: Vec<String>,
    finish: SessionRecordingFinish,
)
    requires
        call_ensures(
            finish_result,
            (path, output_path, output_exists, partial_path, partial_exists, warnings),
            finish,
        ),
    ensures
        finish.status is Complete <==> path is Some || output_exists,
        finish.status is Partial <==> path is None && !output_exists && partial_exists,
        finish.status is Complete <==> finish.path is Some,
        path is Some ==> finish.path == path,
        path is None && output_exists ==> finish.path->0@ == output_path@,
        finish.partial_path is Some <==> partial_exists,
        partial_exists ==> finish.partial_path->0@ == partial_path@,
        finish.warnings@ == warnings@,
{
}

/// How a session's recorder changes pages: the screencast of the page before is stopped and its task joined;
/// then frames of the new page are listened for and its screencast is started. With that the page is bound.
pub proof fn recorders_change_pages_in_order(recorder: Recorder, page: String, outcome: StopOutcome)
    requires
        recorder.stage is Idle,
        recorder.source is Some,
        recorder.source->0@ != page@,
    ensures
        ({
            let first = recorder_step(recorder, RecorderEvent::Bind(page));
            let second = recorder_step(first.recorder, RecorderEvent::Stopped(outcome));
            let third = recorder_step(second.recorder, RecorderEvent::Joined(None));
            let fourth = recorder_step(third.recorder, RecorderEvent::Listened(None));
            let fifth = recorder_step(fourth.recorder, RecorderEvent::Cast(None));
            &&& first.action is StopScreencast && second.action is JoinTask
            &&& third.action is Listen && fourth.action is StartScreencast
            &&& fifth.action is Bound && fifth.recorder.source == Some(page)
            &&& second.warning == Some(Warning::Stop(outcome))
            &&& first.warning is None && third.warning is None && fifth.warning is None
        }),
{
}

/// A recorder without a page binds one by listening for its frames and starting its screencast; where either
/// fails, it is told, and no page is bound.
pub proof fn first_pages_are_bound(recorder: Recorder, page: String, error: String)
    requires
        recorder.stage is Idle,
        recorder.source is None,
    ensures
        ({
            let first = recorder_step(recorder, RecorderEvent::Bind(page));
            let deaf = recorder_step(first.recorder, RecorderEvent::Listened(Some(error)));
            let second = recorder_step(first.recorder, RecorderEvent::Listened(None));
            let dark = recorder_step(second.recorder, RecorderEvent::Cast(Some(error)));
            let third = recorder_step(second.recorder, RecorderEvent::Cast(None));
            &&& first.action is Listen && second.action is StartScreencast
            &&& third.action is Bound && third.recorder.source == Some(page)
            &&& deaf.action == RecorderAction::NotBound(BindFault::Listen(error))
            &&& dark.action == RecorderAction::NotBound(BindFault::Start(error))
            &&& deaf.recorder == recorder && dark.recorder == recorder
        }),
{
}

/// How a session's recorder ends: with a page, its final frame is captured, its screencast stopped and its
/// task joined before the recording is settled, with the frame if there is one. Without a page it is settled
/// at once.
pub proof fn recorders_end_with_a_final_frame(
    recorder: Recorder,
    captured: Option<String>,
    outcome: StopOutcome,
    result: Result<Option<String>, VideoError>,
)
    requires
        recorder.stage is Idle,
    ensures
        ({
            let first = recorder_step(recorder, RecorderEvent::Finalize);
            let second = recorder_step(first.recorder, RecorderEvent::Captured(captured));
            let third = recorder_step(second.recorder, RecorderEvent::Stopped(outcome));
            let fourth = recorder_step(third.recorder, RecorderEvent::Joined(None));
            let fifth = recorder_step(fourth.recorder, RecorderEvent::Finalized(result));
            &&& recorder.source is Some ==> {
                &&& first.action is CaptureFinalFrame && second.action is StopScreencast
                &&& third.action is JoinTask
                &&& fourth.action == (RecorderAction::FinalizeRecorder {
                    with_frame: captured is None,
                })
                &&& second.warning == match captured {
                    Some(error) => Some(Warning::FinalFrame(error)),
                    None => None,
                }
                &&& fifth.action == (RecorderAction::Finish {
                    path: match result {
                        Ok(path) => path,
                        Err(_) => None,
                    },
                })
                &&& fifth.warning == match result {
                    Ok(_) => None,
                    Err(error) => Some(Warning::Video(error)),
                }
                &&& fifth.recorder.stage is Over
            }
            &&& recorder.source is None ==> first.action == (RecorderAction::FinalizeRecorder {
                with_frame: false,
            })
        }),
{
}

/// A screencast task that fails, is lost or is late is warned of, and the recorder goes on all the same.
pub proof fn lost_tasks_are_warned_of(purpose: Purpose, frame: bool, error: String)
    ensures
        ({
            let recorder = Recorder {
                source: Some(error),
                stage: RecorderStage::Joining { purpose, frame },
            };
            let failed = recorder_step(recorder, RecorderEvent::Joined(Some(error)));
            let lost = recorder_step(recorder, RecorderEvent::TaskLost(error));
            let late = recorder_step(recorder, RecorderEvent::TaskTimedOut);
            let settling = Recorder { source: None, stage: RecorderStage::Finalizing };
            let unsettled = recorder_step(settling, RecorderEvent::FinalizeTimedOut);
            &&& failed.warning == Some(Warning::Told(error))
            &&& lost.warning == Some(Warning::TaskLost(error))
            &&& late.warning == Some(Warning::TaskTimedOut)
            &&& failed.recorder == lost.recorder && lost.recorder == late.recorder
            &&& failed.recorder.source is None
            &&& failed.action == lost.action && lost.action == late.action
            &&& purpose matches Purpose::Rebind(page) ==> failed.action is Listen
                && failed.recorder.stage == (RecorderStage::Listening { page })
            &&& purpose is Finalize ==> failed.action == (RecorderAction::FinalizeRecorder {
                with_frame: frame,
            })
            &&& unsettled.action == (RecorderAction::Finish { path: None })
            &&& unsettled.warning == Some(Warning::FinalizeTimedOut)
        }),
{
}

/// A recorder keeps its warnings, in order, and adds at most the one that an event brought; a screencast that
/// stopped as it should brings none.
pub proof fn warnings_are_kept_in_order(
    session: SessionRecorder,
    event: RecorderEvent,
    next: (SessionRecorder, RecorderAction),
)
    requires
        call_ensures(SessionRecorder::next, (session, event), next),
    ensures
        texts_view(session.warnings@).is_prefix_of(texts_view(next.0.warnings@)),
        next.0.warnings@.len() <= session.warnings@.len() + 1,
        event == RecorderEvent::Stopped(StopOutcome::Stopped) ==> texts_view(next.0.warnings@)
            == texts_view(session.warnings@),
        (session.recorder.stage is Joining && (event matches RecorderEvent::Joined(Some(error))))
            ==> next.0.warnings@.len() == session.warnings@.len() + 1 && next.0.warnings@.last()@
            == event->Joined_0->0@,
{
    let before = texts_view(session.warnings@);
    let after = texts_view(next.0.warnings@);
    assert(before.len() == session.warnings@.len() && after.len() == next.0.warnings@.len());
    assert(before =~= after.take(before.len() as int));
    if after.len() == before.len() + 1 {
        assert(after.last() == next.0.warnings@.last()@);
    }
}

/// A frame is what was decoded; anything else that comes instead is told.
pub proof fn frames_are_what_was_decoded(
    decoded: Result<Vec<u8>, String>,
    frame: Result<Vec<u8>, String>,
    event: FrameEvent,
    result: Result<Vec<u8>, String>,
)
    requires
        call_ensures(decoded_frame, (decoded,), frame),
        call_ensures(screencast_frame, (event,), result),
    ensures
        decoded is Ok ==> frame is Ok && frame->Ok_0@ == decoded->Ok_0@,
        decoded is Err ==> frame is Err && frame->Err_0@ == "decode screencast frame: "@
            + decoded->Err_0@,
        event is Closed || event is NotAcknowledged ==> result is Err,
        event matches FrameEvent::NotAcknowledged(error) ==> result->Err_0@
            == "acknowledge screencast frame: "@ + error@,
        event matches FrameEvent::Frame(data) ==> (result is Ok <==> base64_decoded(data@) is Ok)
            && (result is Ok ==> result->Ok_0@ == base64_decoded(data@)->Ok_0),
{
}

/// A recorder waits for what it asked for; anything else changes nothing and is not warned of.
pub proof fn events_out_of_turn_leave_a_recorder(recorder: Recorder, event: RecorderEvent)
    ensures
        ({
            let next = recorder_step(recorder, event);
            let awaited = match event {
                RecorderEvent::Bind(_) | RecorderEvent::Finalize => recorder.stage is Idle,
                RecorderEvent::Captured(_) => recorder.stage is Capturing,
                RecorderEvent::Stopped(_) => recorder.stage is Stopping,
                RecorderEvent::Joined(_)
                | RecorderEvent::TaskLost(_)
                | RecorderEvent::TaskTimedOut => recorder.stage is Joining,
                RecorderEvent::Listened(_) => recorder.stage is Listening,
                RecorderEvent::Cast(_) => recorder.stage is Casting,
                RecorderEvent::Finalized(_) | RecorderEvent::FinalizeTimedOut => recorder.stage
                    is Finalizing,
            };
            &&& !awaited ==> next.action is Ignore && next.recorder == recorder && next.warning
                is None
            &&& awaited ==> !(next.action is Ignore)
        }),
{
}

/// The end of a recording waits for what it asked for; anything else changes nothing.
pub proof fn events_out_of_turn_leave_an_ending(
    before: EndingModel,
    event: FinishEvent,
    after: EndingModel,
    action: FinishAction,
)
    requires
        ending_follows(before, event, after, action),
    ensures
        ({
            let awaited = match event {
                FinishEvent::Stopped(_) => before.stage is Stopping,
                FinishEvent::Joined(_)
                | FinishEvent::TaskLost(_)
                | FinishEvent::TaskTimedOut => before.stage is Joining,
                FinishEvent::Finalized(_) | FinishEvent::FinalizeTimedOut => before.stage
                    is Finalizing,
            };
            &&& !awaited ==> action is Ignore && after == before
            &&& awaited ==> !(action is Ignore)
            &&& after.flow_failed == before.flow_failed && after.partial_path == before.partial_path
        }),
{
}

/// What a warning says is what went wrong.
pub proof fn warnings_say_what_went_wrong(warning: Warning, text: Option<String>)
    requires
        call_ensures(Warning::text, (warning,), text),
    ensures
        match warning {
            Warning::Told(error) => text is Some && text->0@ == error@,
            Warning::Stop(outcome) => text is None <==> outcome is Stopped,
            Warning::TaskLost(error) => text is Some && text->0@ == "screencast task failed: "@
                + error@,
            Warning::FinalFrame(error) => text is Some && text->0@
                == "capture final recording frame: "@ + error@,
            Warning::TaskTimedOut => text is Some && text->0@ == "screencast task shutdown timed out"@,
            Warning::FinalizeTimedOut => text is Some && text->0@ == "video finalization timed out"@,
            Warning::Video(error) => text is Some && text->0@ == video_error_text(error),
        },
{
}

/// A recording is told by its status and its files, each under its own name, and with its warnings.
pub proof fn recordings_are_told_by_name(finish: SessionRecordingFinish)
    ensures
        ({
            let fields = recording_fields(finish);
            &&& fields[0] == (
                "status"@,
                Json::Text(
                    match finish.status {
                        RecordingStatus::Complete => "complete"@,
                        RecordingStatus::Partial => "partial"@,
                        RecordingStatus::Failed => "failed"@,
                    },
                ),
            )
            &&& (finish.path matches Some(path) ==> fields[1] == ("path"@, Json::Text(path@)))
            &&& (finish.partial_path matches Some(path) ==> fields[fields.len() - 2] == (
                "partial_path"@,
                Json::Text(path@),
            ))
            &&& fields.last().0 == "warnings"@
            &&& (fields.last().1 matches Json::List(items) && items.len() == finish.warnings@.len())
        }),
{
}

} // verus!
