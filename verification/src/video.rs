//! Screen recordings through FFmpeg: configuration, frame pacing and command line.

use crate::http::{lossy, lossy_text};
use crate::paths::{
    extension, has_file_name, path_extension, path_name, with_extension, with_path_extension,
};
use crate::text::{decimal, decimal_text, quote, quoted, same_text, texts_view, trim, trimmed};
use vstd::prelude::*;
use vstd::string::*;

verus! {

/// The frames of a recording in each second.
pub const FRAME_RATE: u128 = 15;

/// The time that FFmpeg is given to answer or to end, in nanoseconds.
pub const PROCESS_TIMEOUT: u128 = 15_000_000_000;

/// The largest number of bytes kept of what FFmpeg writes about errors.
pub const MAX_STDERR_BYTES: usize = 65_536;

/// Whether and when a recording is kept.
#[derive(Debug, Clone, Copy, PartialEq, Eq, Structural)]
pub enum VideoMode {
    Off,
    On,
    RetainOnFailure,
}

impl VideoMode {
    /// The name of the mode.
    pub open spec fn label(self) -> Seq<char> {
        match self {
            VideoMode::Off => "off"@,
            VideoMode::On => "on"@,
            VideoMode::RetainOnFailure => "retain-on-failure"@,
        }
    }

    /// Whether anything is recorded.
    pub fn enabled(self) -> (enabled: bool)
        ensures
            enabled == !(self is Off),
    {
        self != VideoMode::Off
    }

    /// The name of the mode.
    pub fn name(self) -> (name: &'static str)
        ensures
            name@ == self.label(),
    {
        match self {
            VideoMode::Off => "off",
            VideoMode::On => "on",
            VideoMode::RetainOnFailure => "retain-on-failure",
        }
    }

    /// Reads the name of a mode.
    pub fn parse(value: &str) -> (result: Result<VideoMode, VideoError>)
        ensures
            match result {
                Ok(mode) => value@ == mode.label(),
                Err(error) => {
                    &&& forall|mode: VideoMode| #![trigger mode.label()] value@ != mode.label()
                    &&& match error {
                        VideoError::InvalidMode(told) => told@ == value@,
                        _ => false,
                    }
                },
            },
    {
        if same_text(value, "off") {
            Ok(VideoMode::Off)
        } else if same_text(value, "on") {
            Ok(VideoMode::On)
        } else if same_text(value, "retain-on-failure") {
            Ok(VideoMode::RetainOnFailure)
        } else {
            Err(VideoError::InvalidMode(value.to_owned()))
        }
    }
}

impl std::str::FromStr for VideoMode {
    type Err = VideoError;

    /// Reads the name of a mode.
    fn from_str(value: &str) -> (result: Result<VideoMode, VideoError>)
        ensures
            match result {
                Ok(mode) => value@ == mode.label(),
                Err(error) => {
                    &&& forall|mode: VideoMode| value@ != #[trigger] mode.label()
                    &&& match error {
                        VideoError::InvalidMode(told) => told@ == value@,
                        _ => false,
                    }
                },
            },
    {
        VideoMode::parse(value)
    }
}

/// The names of modes are distinct.
pub proof fn mode_names_are_distinct(left: VideoMode, right: VideoMode)
    ensures
        left.label() == right.label() ==> left == right,
{
    reveal_strlit("off");
    reveal_strlit("on");
    reveal_strlit("retain-on-failure");
    assert("off"@.len() == 3);
    assert("on"@.len() == 2);
    assert("retain-on-failure"@.len() == 17);
}

/// Why there is no recording. Times are in nanoseconds.
#[derive(Debug, Clone, PartialEq, Eq)]
#[allow(inconsistent_fields)]
pub enum VideoError {
    InvalidMode(String),
    InvalidConfig(String),
    Spawn { path: String, source: String },
    PreflightTimeout(u128),
    Preflight(String),
    H264Unavailable,
    FirstFrameTimeout(u128),
    FrameWriter(String),
    FinalizationTimeout(u128, String),
    FfmpegFailed { status: String, stderr: String, partial_path: String },
    Artifact { path: String, source: String },
}

/// How std shows a time.
pub uninterp spec fn time_shown(seconds: u64, nanos: u32) -> Seq<char>;

/// Formats a `std::time::Duration` with `{:?}`. The contract claims that the text depends on the
/// duration alone.
#[verifier::external_body]
fn show_time(seconds: u64, nanos: u32) -> (text: String)
    requires
        nanos < 1_000_000_000,
    ensures
        text@ == time_shown(seconds, nanos),
{
    format!("{:?}", std::time::Duration::new(seconds, nanos))
}

/// How a time is shown. Beyond what 64 bits of seconds hold, the largest such time is shown.
pub open spec fn time_text(nanos: u128) -> Seq<char> {
    let seconds = nanos / 1_000_000_000;
    if seconds <= u64::MAX {
        time_shown(seconds as u64, (nanos % 1_000_000_000) as u32)
    } else {
        time_shown(u64::MAX, 999_999_999)
    }
}

fn tell_time(nanos: u128) -> (text: String)
    ensures
        text@ == time_text(nanos),
{
    let seconds: u128 = nanos / 1_000_000_000;
    if seconds <= u64::MAX as u128 {
        show_time(seconds as u64, (nanos % 1_000_000_000) as u32)
    } else {
        show_time(u64::MAX, 999_999_999)
    }
}

/// The text of an error.
pub open spec fn video_error_text(error: VideoError) -> Seq<char> {
    match error {
        VideoError::InvalidMode(mode) => "invalid video mode "@ + quoted(mode@)
            + "; expected off, on, or retain-on-failure"@,
        VideoError::InvalidConfig(reason) => "invalid video configuration: "@ + reason@,
        VideoError::Spawn { path, source } => "failed to start FFmpeg at "@ + path@ + ": "@
            + source@,
        VideoError::PreflightTimeout(time) => "FFmpeg preflight timed out after "@ + time_text(
            time,
        ),
        VideoError::Preflight(reason) => "FFmpeg preflight failed: "@ + reason@,
        VideoError::H264Unavailable => "FFmpeg does not provide the required libx264 encoder"@,
        VideoError::FirstFrameTimeout(time) => "timed out waiting "@ + time_text(time)
            + " for the first video frame"@,
        VideoError::FrameWriter(reason) => "video frame writer failed: "@ + reason@,
        VideoError::FinalizationTimeout(time, path) => "FFmpeg finalization timed out after "@
            + time_text(time) + "; partial recording retained at "@ + path@,
        VideoError::FfmpegFailed { status, stderr, partial_path } =>
        "FFmpeg exited unsuccessfully ("@ + status@ + "): "@ + stderr@
            + "; partial recording retained at "@ + partial_path@,
        VideoError::Artifact { path, source } => "video artifact operation failed for "@ + path@
            + ": "@ + source@,
    }
}

fn between(first: &str, second: &str, third: &str, fourth: &str) -> (text: String)
    ensures
        text@ == first@ + second@ + third@ + fourth@,
{
    let mut text = first.to_owned();
    text.append(second);
    text.append(third);
    text.append(fourth);
    text
}

fn after(first: &str, second: &str) -> (text: String)
    ensures
        text@ == first@ + second@,
{
    let mut text = first.to_owned();
    text.append(second);
    text
}

impl VideoError {
    /// The text of the error.
    pub fn message(&self) -> (message: String)
        ensures
            message@ == video_error_text(*self),
    {
        match self {
            VideoError::InvalidMode(mode) => {
                let shown = quote(mode.as_str());
                let mut message = after("invalid video mode ", shown.as_str());
                message.append("; expected off, on, or retain-on-failure");
                message
            },
            VideoError::InvalidConfig(reason) => after(
                "invalid video configuration: ",
                reason.as_str(),
            ),
            VideoError::Spawn { path, source } => between(
                "failed to start FFmpeg at ",
                path.as_str(),
                ": ",
                source.as_str(),
            ),
            VideoError::PreflightTimeout(time) => {
                let shown = tell_time(*time);
                after("FFmpeg preflight timed out after ", shown.as_str())
            },
            VideoError::Preflight(reason) => after("FFmpeg preflight failed: ", reason.as_str()),
            VideoError::H264Unavailable => {
                "FFmpeg does not provide the required libx264 encoder".to_owned()
            },
            VideoError::FirstFrameTimeout(time) => {
                let shown = tell_time(*time);
                let mut message = after("timed out waiting ", shown.as_str());
                message.append(" for the first video frame");
                message
            },
            VideoError::FrameWriter(reason) => after(
                "video frame writer failed: ",
                reason.as_str(),
            ),
            VideoError::FinalizationTimeout(time, path) => {
                let shown = tell_time(*time);
                between(
                    "FFmpeg finalization timed out after ",
                    shown.as_str(),
                    "; partial recording retained at ",
                    path.as_str(),
                )
            },
            VideoError::FfmpegFailed { status, stderr, partial_path } => {
                let mut message = between(
                    "FFmpeg exited unsuccessfully (",
                    status.as_str(),
                    "): ",
                    stderr.as_str(),
                );
                message.append("; partial recording retained at ");
                message.append(partial_path.as_str());
                message
            },
            VideoError::Artifact { path, source } => between(
                "video artifact operation failed for ",
                path.as_str(),
                ": ",
                source.as_str(),
            ),
        }
    }
}

/// How a recording is made.
#[derive(Debug, Clone, PartialEq, Eq)]
pub struct VideoConfig {
    pub mode: VideoMode,
    pub ffmpeg_path: String,
    pub output_path: String,
    pub viewport_width: u32,
    pub viewport_height: u32,
}

/// What is wrong with a configuration, if anything is.
pub open spec fn config_fault(config: VideoConfig) -> Option<Seq<char>> {
    if config.mode is Off {
        None
    } else if config.viewport_width == 0 || config.viewport_height == 0 {
        Some("video viewport dimensions must be greater than zero"@)
    } else if config.viewport_width % 2 != 0 || config.viewport_height % 2 != 0 {
        Some("video viewport width and height must both be even"@)
    } else if config.ffmpeg_path@.len() == 0 {
        Some("FFmpeg path must not be empty"@)
    } else if path_name(config.output_path@) is None {
        Some("video output path must include a file name"@)
    } else if path_extension(config.output_path@) != Some("mp4"@) {
        Some("video output path must end in .mp4"@)
    } else {
        None
    }
}

/// Whether an error tells of a configuration.
pub open spec fn is_config_error(error: VideoError, reason: Seq<char>) -> bool {
    match error {
        VideoError::InvalidConfig(told) => told@ == reason,
        _ => false,
    }
}

fn config_error(reason: &str) -> (error: VideoError)
    ensures
        is_config_error(error, reason@),
{
    VideoError::InvalidConfig(reason.to_owned())
}

fn is_blank(text: &str) -> (blank: bool)
    ensures
        blank == (text@.len() == 0),
{
    proof {
        reveal_strlit("");
        assert(text@.len() == 0 ==> text@ == ""@);
    }
    same_text(text, "")
}

impl VideoConfig {
    /// Refuses a configuration that nothing can be recorded with.
    pub fn validate(&self) -> (result: Result<(), VideoError>)
        ensures
            match (result, config_fault(*self)) {
                (Ok(_), None) => true,
                (Err(error), Some(reason)) => is_config_error(error, reason),
                _ => false,
            },
    {
        if !self.mode.enabled() {
            return Ok(());
        }
        if self.viewport_width == 0 || self.viewport_height == 0 {
            return Err(config_error("video viewport dimensions must be greater than zero"));
        }
        if self.viewport_width % 2 != 0 || self.viewport_height % 2 != 0 {
            return Err(config_error("video viewport width and height must both be even"));
        }
        if is_blank(self.ffmpeg_path.as_str()) {
            return Err(config_error("FFmpeg path must not be empty"));
        }
        if !has_file_name(self.output_path.as_str()) {
            return Err(config_error("video output path must include a file name"));
        }
        let complete = match extension(self.output_path.as_str()) {
            Some(extension) => same_text(extension.as_str(), "mp4"),
            None => false,
        };
        if !complete {
            return Err(config_error("video output path must end in .mp4"));
        }
        Ok(())
    }

    /// Where the recording is written while it is made.
    pub fn partial_path(&self) -> (path: String)
        ensures
            path@ == with_path_extension(self.output_path@, "partial.mp4"@),
    {
        with_extension(self.output_path.as_str(), "partial.mp4")
    }

    /// Refuses a configuration that no recorder can be started with.
    pub fn validate_start(&self) -> (result: Result<(), VideoError>)
        ensures
            match (result, config_fault(*self)) {
                (Ok(_), None) => !(self.mode is Off),
                (Err(error), None) => self.mode is Off && is_config_error(
                    error,
                    "cannot start a recorder when video mode is off"@,
                ),
                (Err(error), Some(reason)) => is_config_error(error, reason),
                _ => false,
            },
    {
        match self.validate() {
            Ok(_) => if self.mode.enabled() {
                Ok(())
            } else {
                Err(config_error("cannot start a recorder when video mode is off"))
            },
            Err(error) => Err(error),
        }
    }
}

/// Whether a byte is white space of ASCII.
pub open spec fn ascii_space(byte: u8) -> bool {
    byte == 32 || byte == 9 || byte == 10 || byte == 12 || byte == 13
}

/// Whether a word stands between white space in a text of bytes.
pub open spec fn has_word(bytes: Seq<u8>, word: Seq<u8>) -> bool {
    exists|start: int|
        {
            &&& 0 <= start <= bytes.len() - word.len()
            &&& (start == 0 || ascii_space(bytes[start - 1]))
            &&& (start + word.len() == bytes.len() || ascii_space(bytes[start + word.len()]))
            &&& #[trigger] bytes.subrange(start, start + word.len()) == word
        }
}

/// The bytes of the name of the encoder.
pub open spec fn encoder_name() -> Seq<u8> {
    seq![108u8, 105u8, 98u8, 120u8, 50u8, 54u8, 52u8]
}

fn is_ascii_space(byte: u8) -> (space: bool)
    ensures
        space == ascii_space(byte),
{
    byte == 32 || byte == 9 || byte == 10 || byte == 12 || byte == 13
}

fn encoder_at(bytes: &[u8], start: usize) -> (found: bool)
    requires
        start + 7 <= bytes@.len(),
    ensures
        found == (bytes@.subrange(start as int, start + 7) == encoder_name()),
{
    let found = bytes[start] == 108 && bytes[start + 1] == 105 && bytes[start + 2] == 98
        && bytes[start + 3] == 120 && bytes[start + 4] == 50 && bytes[start + 5] == 54
        && bytes[start + 6] == 52;
    proof {
        let part = bytes@.subrange(start as int, start + 7);
        if found {
            assert(part =~= encoder_name());
        } else if part == encoder_name() {
            assert(part[0] == bytes@[start as int]);
            assert(part[1] == bytes@[start + 1]);
            assert(part[2] == bytes@[start + 2]);
            assert(part[3] == bytes@[start + 3]);
            assert(part[4] == bytes@[start + 4]);
            assert(part[5] == bytes@[start + 5]);
            assert(part[6] == bytes@[start + 6]);
        }
    }
    found
}

/// Whether the list of encoders has the one that is used.
fn lists_encoder(bytes: &[u8]) -> (found: bool)
    ensures
        found == has_word(bytes@, encoder_name()),
{
    let mut start: usize = 0;
    while start < bytes.len() && bytes.len() - start >= 7
        invariant
            start <= bytes@.len(),
            forall|k: int|
                0 <= k < start && k + 7 <= bytes@.len() && (k == 0 || ascii_space(bytes@[k - 1])) && (k
                    + 7 == bytes@.len() || ascii_space(bytes@[k + 7])) ==> #[trigger] bytes@.subrange(
                    k,
                    k + 7,
                ) != encoder_name(),
        decreases bytes@.len() - start,
    {
        if (start == 0 || is_ascii_space(bytes[start - 1])) && (bytes.len() - start == 7
            || is_ascii_space(bytes[start + 7])) && encoder_at(bytes, start) {
            assert(bytes@.subrange(start as int, start + encoder_name().len()) == encoder_name());
            return true;
        }
        start += 1;
    }
    proof {
        if has_word(bytes@, encoder_name()) {
            let k = choose|k: int|
                {
                    &&& 0 <= k <= bytes@.len() - encoder_name().len()
                    &&& (k == 0 || ascii_space(bytes@[k - 1]))
                    &&& (k + encoder_name().len() == bytes@.len() || ascii_space(
                        bytes@[k + encoder_name().len()],
                    ))
                    &&& #[trigger] bytes@.subrange(k, k + encoder_name().len()) == encoder_name()
                };
            assert(bytes@.subrange(k, k + 7) == encoder_name());
        }
    }
    false
}

/// What a process wrote, in one line.
pub open spec fn both_outputs(stdout: Seq<u8>, stderr: Seq<u8>) -> Seq<char> {
    trimmed(trimmed(lossy_text(stdout)) + " "@ + trimmed(lossy_text(stderr)))
}

/// What a process wrote, in one line.
pub fn output_text(stdout: &Vec<u8>, stderr: &Vec<u8>) -> (text: String)
    ensures
        text@ == both_outputs(stdout@, stderr@),
{
    let first = lossy(stdout);
    let second = lossy(stderr);
    let mut text = trim(first.as_str());
    text.append(" ");
    let rest = trim(second.as_str());
    text.append(rest.as_str());
    trim(text.as_str())
}

/// Decides whether FFmpeg can be used, from how its list of encoders came.
pub fn check_encoders(success: bool, stdout: &Vec<u8>, stderr: &Vec<u8>) -> (result: Result<
    (),
    VideoError,
>)
    ensures
        match result {
            Ok(_) => success && has_word(stdout@, encoder_name()),
            Err(VideoError::Preflight(reason)) => !success && reason@ == both_outputs(
                stdout@,
                stderr@,
            ),
            Err(VideoError::H264Unavailable) => success && !has_word(stdout@, encoder_name()),
            Err(_) => false,
        },
{
    if !success {
        return Err(VideoError::Preflight(output_text(stdout, stderr)));
    }
    if !lists_encoder(stdout.as_slice()) {
        return Err(VideoError::H264Unavailable);
    }
    Ok(())
}

/// The first bytes of a sequence, at most so many.
pub open spec fn leading_bytes(bytes: Seq<u8>, count: nat) -> Seq<u8> {
    if bytes.len() > count {
        bytes.take(count as int)
    } else {
        bytes
    }
}

/// Keeps the first bytes of what FFmpeg writes about errors, and drops the rest.
pub fn keep_stderr(kept: &mut Vec<u8>, chunk: &[u8])
    requires
        old(kept)@.len() <= MAX_STDERR_BYTES,
    ensures
        final(kept)@ == leading_bytes(old(kept)@ + chunk@, MAX_STDERR_BYTES as nat),
        final(kept)@.len() <= MAX_STDERR_BYTES,
{
    let ghost before = kept@;
    let mut i: usize = 0;
    while i < chunk.len() && kept.len() < MAX_STDERR_BYTES
        invariant
            i <= chunk@.len(),
            kept@.len() <= MAX_STDERR_BYTES,
            kept@ == before + chunk@.take(i as int),
        decreases chunk@.len() - i,
    {
        kept.push(chunk[i]);
        assert(kept@ =~= before + chunk@.take(i + 1));
        i += 1;
    }
    assert(kept@ =~= leading_bytes(before + chunk@, MAX_STDERR_BYTES as nat));
}

/// What FFmpeg told of errors.
pub fn stderr_text(kept: &Vec<u8>) -> (text: String)
    ensures
        text@ == trimmed(lossy_text(kept@)),
{
    let text = lossy(kept);
    trim(text.as_str())
}

/// The filter that fits every frame into the viewport.
pub open spec fn filter_text(width: u32, height: u32) -> Seq<char> {
    let size = decimal(width as nat) + ":"@ + decimal(height as nat);
    "scale="@ + size + ":force_original_aspect_ratio=decrease,pad="@ + size
        + ":(ow-iw)/2:(oh-ih)/2:color=black,setsar=1"@
}

/// The arguments of FFmpeg.
pub open spec fn ffmpeg_line(width: u32, height: u32, partial_path: Seq<char>) -> Seq<Seq<char>> {
    seq![
        "-hide_banner"@,
        "-loglevel"@,
        "error"@,
        "-f"@,
        "image2pipe"@,
        "-framerate"@,
        "15"@,
        "-vcodec"@,
        "mjpeg"@,
        "-i"@,
        "pipe:0"@,
        "-vf"@,
        filter_text(width, height),
        "-an"@,
        "-c:v"@,
        "libx264"@,
        "-crf"@,
        "20"@,
        "-preset"@,
        "veryfast"@,
        "-pix_fmt"@,
        "yuv420p"@,
        "-movflags"@,
        "+faststart"@,
        "-y"@,
        partial_path,
    ]
}

fn filter_value(width: u32, height: u32) -> (text: String)
    ensures
        text@ == filter_text(width, height),
{
    let mut size = decimal_text(width as u64);
    size.append(":");
    let second = decimal_text(height as u64);
    size.append(second.as_str());
    let mut text = "scale=".to_owned();
    text.append(size.as_str());
    text.append(":force_original_aspect_ratio=decrease,pad=");
    text.append(size.as_str());
    text.append(":(ow-iw)/2:(oh-ih)/2:color=black,setsar=1");
    text
}

/// The arguments of FFmpeg: frames come as JPEG pictures through its input, and leave as H.264 in an
/// MP4 file.
pub fn ffmpeg_arguments(config: &VideoConfig, partial_path: &str) -> (arguments: Vec<String>)
    ensures
        texts_view(arguments@) == ffmpeg_line(
            config.viewport_width,
            config.viewport_height,
            partial_path@,
        ),
{
    let filter = filter_value(config.viewport_width, config.viewport_height);
    let arguments: Vec<String> = vec![
        "-hide_banner".to_owned(),
        "-loglevel".to_owned(),
        "error".to_owned(),
        "-f".to_owned(),
        "image2pipe".to_owned(),
        "-framerate".to_owned(),
        "15".to_owned(),
        "-vcodec".to_owned(),
        "mjpeg".to_owned(),
        "-i".to_owned(),
        "pipe:0".to_owned(),
        "-vf".to_owned(),
        filter,
        "-an".to_owned(),
        "-c:v".to_owned(),
        "libx264".to_owned(),
        "-crf".to_owned(),
        "20".to_owned(),
        "-preset".to_owned(),
        "veryfast".to_owned(),
        "-pix_fmt".to_owned(),
        "yuv420p".to_owned(),
        "-movflags".to_owned(),
        "+faststart".to_owned(),
        "-y".to_owned(),
        partial_path.to_owned(),
    ];
    assert(texts_view(arguments@) =~= ffmpeg_line(
        config.viewport_width,
        config.viewport_height,
        partial_path@,
    ));
    arguments
}

/// A frame that waits to be written.
#[derive(Debug, Clone, PartialEq, Eq)]
pub struct PendingFrame {
    pub jpeg: Vec<u8>,
    pub received_at: u128,
}

/// What a recorder and its sources share: the newest frame that was not taken yet, whether there was
/// any, and the time after which no frame counts.
#[derive(Debug)]
pub struct SharedState {
    pub latest: Option<PendingFrame>,
    pub first_frame_received: bool,
    pub stop_at: Option<u128>,
}

impl Default for SharedState {
    /// No frame yet.
    fn default() -> (state: SharedState)
        ensures
            state == (SharedState { latest: None, first_frame_received: false, stop_at: None }),
    {
        SharedState { latest: None, first_frame_received: false, stop_at: None }
    }
}

impl SharedState {
    /// Replaces the frame that waits. Once finalization has begun, frames are dropped.
    pub fn push_frame_at(&mut self, jpeg: Vec<u8>, received_at: u128) -> (taken: bool)
        ensures
            taken == (old(self).stop_at is None),
            *final(self) == if taken {
                SharedState {
                    latest: Some(PendingFrame { jpeg, received_at }),
                    first_frame_received: true,
                    stop_at: None,
                }
            } else {
                *old(self)
            },
    {
        if self.stop_at.is_some() {
            return false;
        }
        self.latest = Some(PendingFrame { jpeg, received_at });
        self.first_frame_received = true;
        true
    }

    /// Begins finalization. The first boundary stays.
    pub fn begin_finalization(&mut self, stop_at: u128)
        ensures
            *final(self) == (SharedState {
                stop_at: Some(
                    match old(self).stop_at {
                        Some(first) => first,
                        None => stop_at,
                    },
                ),
                ..*old(self)
            }),
    {
        if self.stop_at.is_none() {
            self.stop_at = Some(stop_at);
        }
    }

    /// Takes the frame that waits, if it came in time, and tells the boundary.
    pub fn take_frame(&mut self) -> (taken: (Option<PendingFrame>, Option<u128>))
        ensures
            *final(self) == (SharedState { latest: None, ..*old(self) }),
            taken.1 == old(self).stop_at,
            taken.0 == match (old(self).latest, old(self).stop_at) {
                (Some(frame), Some(stop_at)) => if frame.received_at <= stop_at {
                    Some(frame)
                } else {
                    None
                },
                (latest, _) => latest,
            },
    {
        let mut frame: Option<PendingFrame> = None;
        std::mem::swap(&mut self.latest, &mut frame);
        let in_time = match (&frame, self.stop_at) {
            (Some(frame), Some(stop_at)) => frame.received_at <= stop_at,
            _ => true,
        };
        if in_time {
            (frame, self.stop_at)
        } else {
            (None, self.stop_at)
        }
    }

    /// Decides a wait for the first frame: it came, its time is up, or it goes on.
    pub fn first_frame(&self, expired: bool, wait: u128) -> (outcome: Option<
        Result<(), VideoError>,
    >)
        ensures
            match outcome {
                Some(Ok(_)) => self.first_frame_received,
                Some(Err(error)) => !self.first_frame_received && expired && error
                    == VideoError::FirstFrameTimeout(wait),
                None => !self.first_frame_received && !expired,
            },
    {
        if self.first_frame_received {
            Some(Ok(()))
        } else if expired {
            Some(Err(VideoError::FirstFrameTimeout(wait)))
        } else {
            None
        }
    }
}

/// How many frames are due at a time: one at the start, and one more for each fifteenth of a second
/// that has begun since.
pub open spec fn due(started_at: u128, through: u128) -> u64 {
    let elapsed: int = if through > started_at {
        through - started_at
    } else {
        0
    };
    let product = elapsed * FRAME_RATE;
    let capped = if product <= u128::MAX {
        product
    } else {
        u128::MAX as int
    };
    let frames = (capped + 999_999_999) / 1_000_000_000;
    if frames < 1 {
        1
    } else if frames <= u64::MAX {
        frames as u64
    } else {
        u64::MAX
    }
}

/// How many frames are due at a time.
pub fn frames_due(started_at: u128, through: u128) -> (frames: u64)
    ensures
        frames == due(started_at, through),
{
    let elapsed: u128 = if through > started_at {
        through - started_at
    } else {
        0
    };
    let product: u128 = match elapsed.checked_mul(FRAME_RATE) {
        Some(product) => product,
        None => u128::MAX,
    };
    let whole: u128 = product / 1_000_000_000;
    let frames: u128 = if product % 1_000_000_000 == 0 {
        whole
    } else {
        whole + 1
    };
    if frames < 1 {
        1
    } else if frames <= u64::MAX as u128 {
        frames as u64
    } else {
        u64::MAX
    }
}

/// No frame is ever taken back: more time never makes fewer frames due.
pub proof fn frames_accumulate(started_at: u128, earlier: u128, later: u128)
    requires
        earlier <= later,
    ensures
        1 <= due(started_at, earlier) <= due(started_at, later),
{
    let first: int = if earlier > started_at {
        earlier - started_at
    } else {
        0
    };
    let second: int = if later > started_at {
        later - started_at
    } else {
        0
    };
    assert(first * 15 <= second * 15);
}

/// Every second after the start makes exactly fifteen more frames due.
pub proof fn a_second_has_fifteen_frames(started_at: u128, through: u128)
    requires
        started_at < through,
        through + 1_000_000_000 <= u128::MAX / 15,
        due(started_at, through) < u64::MAX - 15,
    ensures
        due(started_at, (through + 1_000_000_000) as u128) == due(started_at, through) + 15,
{
}

/// Frames that are to be written: one picture, so many times.
#[derive(Debug, Clone, PartialEq, Eq)]
pub struct Emission {
    pub jpeg: Vec<u8>,
    pub count: u64,
}

/// Turns frames that come at any time into frames at a steady rate: each frame is repeated until the
/// next one comes.
#[derive(Debug)]
pub struct FramePacer {
    pub started_at: Option<u128>,
    pub latest_received_at: Option<u128>,
    pub latest_jpeg: Vec<u8>,
    pub latest_emitted: bool,
    pub emitted: u64,
}

/// What a pacer knows.
pub ghost struct PacerModel {
    pub started_at: Option<u128>,
    pub latest_received_at: Option<u128>,
    pub latest_jpeg: Seq<u8>,
    pub latest_emitted: bool,
    pub emitted: u64,
}

impl View for FramePacer {
    type V = PacerModel;

    open spec fn view(&self) -> PacerModel {
        PacerModel {
            started_at: self.started_at,
            latest_received_at: self.latest_received_at,
            latest_jpeg: self.latest_jpeg@,
            latest_emitted: self.latest_emitted,
            emitted: self.emitted,
        }
    }
}

impl Default for FramePacer {
    /// A pacer that has seen no frame.
    fn default() -> (pacer: FramePacer)
        ensures
            pacer@ == (PacerModel {
                started_at: None,
                latest_received_at: None,
                latest_jpeg: Seq::empty(),
                latest_emitted: false,
                emitted: 0,
            }),
    {
        let pacer = FramePacer {
            started_at: None,
            latest_received_at: None,
            latest_jpeg: Vec::new(),
            latest_emitted: false,
            emitted: 0,
        };
        assert(pacer.latest_jpeg@ =~= Seq::<u8>::empty());
        pacer
    }
}

/// How many frames are missing at a time.
pub open spec fn missing(pacer: PacerModel, through: u128) -> u64 {
    match pacer.started_at {
        Some(started_at) => if pacer.emitted < due(started_at, through) {
            (due(started_at, through) - pacer.emitted) as u64
        } else {
            0
        },
        None => 0,
    }
}

/// The pacer after the missing frames were written.
pub open spec fn emitted_until(pacer: PacerModel, through: u128) -> PacerModel {
    PacerModel {
        emitted: (pacer.emitted + missing(pacer, through)) as u64,
        latest_emitted: pacer.latest_emitted || missing(pacer, through) > 0,
        ..pacer
    }
}

/// The pacer after a frame came, and what is written then: nothing for a frame that is older than
/// the latest one, else the frames missing until now, which repeat the frame before. The first frame
/// is written at once.
pub open spec fn received(pacer: PacerModel, jpeg: Seq<u8>, received_at: u128) -> (
    PacerModel,
    Seq<u8>,
    u64,
) {
    if pacer.started_at is None {
        let begun = PacerModel {
            started_at: Some(received_at),
            latest_received_at: Some(received_at),
            latest_jpeg: jpeg,
            latest_emitted: false,
            emitted: pacer.emitted,
        };
        (emitted_until(begun, received_at), jpeg, missing(begun, received_at))
    } else if pacer.latest_received_at is Some && received_at < pacer.latest_received_at->0 {
        (pacer, Seq::empty(), 0)
    } else {
        (
            PacerModel {
                latest_received_at: Some(received_at),
                latest_jpeg: jpeg,
                latest_emitted: false,
                ..emitted_until(pacer, received_at)
            },
            pacer.latest_jpeg,
            missing(pacer, received_at),
        )
    }
}

/// The pacer at the end, and how often its latest frame is written then: at least once.
pub open spec fn finished(pacer: PacerModel, stop_at: u128) -> (PacerModel, u64) {
    let reached = emitted_until(pacer, stop_at);
    if pacer.started_at is Some && !reached.latest_emitted {
        (
            PacerModel {
                emitted: (reached.emitted + 1) as u64,
                latest_emitted: true,
                ..reached
            },
            1,
        )
    } else {
        (reached, missing(pacer, stop_at))
    }
}

impl FramePacer {
    fn emit_until(&mut self, through: u128) -> (count: u64)
        ensures
            count == missing(old(self)@, through),
            final(self)@ == emitted_until(old(self)@, through),
    {
        match self.started_at {
            Some(started_at) => {
                let target = frames_due(started_at, through);
                if self.emitted < target {
                    let count: u64 = target - self.emitted;
                    self.emitted = target;
                    self.latest_emitted = true;
                    count
                } else {
                    0
                }
            },
            None => 0,
        }
    }

    /// Takes a frame, and tells what is to be written.
    pub fn receive(&mut self, jpeg: Vec<u8>, received_at: u128) -> (emission: Emission)
        ensures
            ({
                let (after, written, count) = received(old(self)@, jpeg@, received_at);
                &&& final(self)@ == after
                &&& emission.jpeg@ == written
                &&& emission.count == count
            }),
    {
        if self.started_at.is_none() {
            let copy = copy_bytes(&jpeg);
            self.started_at = Some(received_at);
            self.latest_received_at = Some(received_at);
            self.latest_jpeg = jpeg;
            self.latest_emitted = false;
            let count = self.emit_until(received_at);
            return Emission { jpeg: copy, count };
        }
        if let Some(last) = self.latest_received_at {
            if received_at < last {
                let none: Vec<u8> = Vec::new();
                assert(none@ =~= Seq::<u8>::empty());
                return Emission { jpeg: none, count: 0 };
            }
        }
        let count = self.emit_until(received_at);
        let mut previous = jpeg;
        std::mem::swap(&mut self.latest_jpeg, &mut previous);
        self.latest_received_at = Some(received_at);
        self.latest_emitted = false;
        Emission { jpeg: previous, count }
    }

    /// Ends the recording, and tells what is to be written. The number of frames has to stay within
    /// 64 bits.
    pub fn finish(&mut self, stop_at: u128) -> (emission: Emission)
        requires
            emitted_until(old(self)@, stop_at).emitted < u64::MAX,
        ensures
            final(self)@ == finished(old(self)@, stop_at).0,
            emission.jpeg@ == old(self)@.latest_jpeg,
            emission.count == finished(old(self)@, stop_at).1,
    {
        let mut count = self.emit_until(stop_at);
        if self.started_at.is_some() && !self.latest_emitted {
            self.emitted += 1;
            self.latest_emitted = true;
            count = 1;
        }
        Emission { jpeg: copy_bytes(&self.latest_jpeg), count }
    }
}

fn copy_bytes(bytes: &Vec<u8>) -> (copy: Vec<u8>)
    ensures
        copy@ == bytes@,
{
    let mut copy: Vec<u8> = Vec::new();
    let mut i: usize = 0;
    while i < bytes.len()
        invariant
            i <= bytes.len(),
            copy@ == bytes@.take(i as int),
        decreases bytes.len() - i,
    {
        copy.push(bytes[i]);
        assert(copy@ =~= bytes@.take(i + 1));
        i += 1;
    }
    assert(bytes@.take(i as int) == bytes@);
    copy
}

/// A pacer that has seen a frame has written as many as were due when the latest one came, and no
/// frame that came before the latest one counts.
pub open spec fn on_grid(pacer: PacerModel) -> bool {
    match (pacer.started_at, pacer.latest_received_at) {
        (Some(started_at), Some(latest)) => started_at <= latest && pacer.emitted == due(
            started_at,
            latest,
        ),
        (None, None) => pacer.emitted == 0,
        _ => false,
    }
}

/// Frames stay on the grid, whatever frames come.
pub proof fn receiving_stays_on_grid(pacer: PacerModel, jpeg: Seq<u8>, received_at: u128)
    requires
        on_grid(pacer),
    ensures
        on_grid(received(pacer, jpeg, received_at).0),
{
    if pacer.started_at is Some && pacer.latest_received_at is Some && received_at
        >= pacer.latest_received_at->0 {
        frames_accumulate(pacer.started_at->0, pacer.latest_received_at->0, received_at);
    }
}

/// A finished recording has the frames that were due when it stopped, or one more, so that its
/// latest frame is seen.
pub proof fn finished_recordings_are_complete(pacer: PacerModel, stop_at: u128)
    requires
        on_grid(pacer),
        pacer.started_at is Some,
        stop_at >= pacer.latest_received_at->0,
        due(pacer.started_at->0, stop_at) < u64::MAX,
    ensures
        ({
            let after = finished(pacer, stop_at).0;
            let frames = due(pacer.started_at->0, stop_at);
            &&& after.latest_emitted
            &&& after.emitted == frames || after.emitted == frames + 1
            &&& (pacer.latest_emitted ==> after.emitted == frames)
        }),
{
    frames_accumulate(pacer.started_at->0, pacer.latest_received_at->0, stop_at);
}

/// A recording's mode is read from its three names and from nothing else, and only the first turns it off.
pub proof fn modes_are_read_by_name(
    value: &str,
    result: Result<VideoMode, VideoError>,
    mode: VideoMode,
    enabled: bool,
    name: &'static str,
)
    requires
        call_ensures(VideoMode::parse, (value,), result),
        call_ensures(VideoMode::enabled, (mode,), enabled),
        call_ensures(VideoMode::name, (mode,), name),
    ensures
        value@ == "off"@ ==> result == Ok::<VideoMode, VideoError>(VideoMode::Off),
        value@ == "on"@ ==> result == Ok::<VideoMode, VideoError>(VideoMode::On),
        value@ == "retain-on-failure"@ ==> result == Ok::<VideoMode, VideoError>(
            VideoMode::RetainOnFailure,
        ),
        result is Ok ==> value@ == "off"@ || value@ == "on"@ || value@ == "retain-on-failure"@,
        value@ == name@ ==> result == Ok::<VideoMode, VideoError>(mode),
        enabled <==> name@ != "off"@,
{
    mode_names_are_distinct(mode, VideoMode::Off);
    mode_names_are_distinct(mode, VideoMode::On);
    mode_names_are_distinct(mode, VideoMode::RetainOnFailure);
    assert(VideoMode::Off.label() == "off"@);
    assert(VideoMode::On.label() == "on"@);
    assert(VideoMode::RetainOnFailure.label() == "retain-on-failure"@);
    if let Ok(read) = result {
        mode_names_are_distinct(read, mode);
        mode_names_are_distinct(read, VideoMode::Off);
        mode_names_are_distinct(read, VideoMode::On);
        mode_names_are_distinct(read, VideoMode::RetainOnFailure);
    }
}

/// A configuration is valid exactly if nothing is recorded, or the viewport has even sides that are not zero,
/// a program to run, and an output file whose name ends in mp4. A recorder is started only from a valid one
/// that records.
pub proof fn recordings_need_even_sides_and_a_file(
    config: VideoConfig,
    valid: Result<(), VideoError>,
    startable: Result<(), VideoError>,
)
    requires
        call_ensures(VideoConfig::validate, (&config,), valid),
        call_ensures(VideoConfig::validate_start, (&config,), startable),
    ensures
        valid is Ok <==> config.mode is Off || {
            &&& config.viewport_width >= 2 && config.viewport_height >= 2
            &&& config.viewport_width % 2 == 0 && config.viewport_height % 2 == 0
            &&& config.ffmpeg_path@.len() > 0
            &&& path_name(config.output_path@) is Some
            &&& path_extension(config.output_path@) == Some("mp4"@)
        },
        startable is Ok <==> valid is Ok && !(config.mode is Off),
        valid is Err ==> valid->Err_0 is InvalidConfig,
        startable is Err ==> startable->Err_0 is InvalidConfig,
{
}

/// The encoder is found where its name stands alone among the encoders, and not where it does not occur at
/// all. A program that failed is told by what it wrote.
pub proof fn the_encoder_has_to_be_listed(
    success: bool,
    stdout: Vec<u8>,
    stderr: Vec<u8>,
    result: Result<(), VideoError>,
    before: Seq<u8>,
    after: Seq<u8>,
)
    requires
        call_ensures(check_encoders, (success, &stdout, &stderr), result),
    ensures
        !success <==> result is Err && result->Err_0 is Preflight,
        success && stdout@ == before + seq![32u8, 108, 105, 98, 120, 50, 54, 52, 32] + after
            ==> result is Ok,
        success && (forall|i: int|
            0 <= i <= stdout@.len() - 7 ==> #[trigger] stdout@.subrange(i, i + 7) != seq![
                108u8,
                105,
                98,
                120,
                50,
                54,
                52,
            ]) ==> result is Err && result->Err_0 is H264Unavailable,
        result is Ok ==> success,
{
    let word = seq![108u8, 105, 98, 120, 50, 54, 52];
    assert(encoder_name() =~= word);
    let held = before + seq![32u8, 108, 105, 98, 120, 50, 54, 52, 32] + after;
    if stdout@ == held {
        let start = before.len() as int + 1;
        assert(held.subrange(start, start + 7) =~= word);
        assert(held[start - 1] == 32);
        assert(held[start + 7] == 32);
        assert(held.subrange(start, start + word.len()) == word);
        assert(has_word(stdout@, word));
    }
    if has_word(stdout@, word) {
        let start = choose|start: int|
            {
                &&& 0 <= start <= stdout@.len() - word.len()
                &&& (start == 0 || ascii_space(stdout@[start - 1]))
                &&& (start + word.len() == stdout@.len() || ascii_space(
                    stdout@[start + word.len()],
                ))
                &&& #[trigger] stdout@.subrange(start, start + word.len()) == word
            };
        assert(stdout@.subrange(start, start + 7) == word);
    }
}

/// The command line names the picture's size and ends in the file that is written; it differs between two
/// recordings in nothing but that.
pub proof fn the_command_line_names_size_and_file(
    config: VideoConfig,
    path: &str,
    arguments: Vec<String>,
    other_config: VideoConfig,
    other_path: &str,
    other: Vec<String>,
    i: int,
)
    requires
        call_ensures(ffmpeg_arguments, (&config, path), arguments),
        call_ensures(ffmpeg_arguments, (&other_config, other_path), other),
    ensures
        arguments@.len() == other@.len() == 26,
        arguments@[25]@ == path@,
        arguments@[24]@ == "-y"@,
        arguments@[5]@ == "-framerate"@ && arguments@[6]@ == "15"@,
        arguments@[9]@ == "-i"@ && arguments@[10]@ == "pipe:0"@,
        arguments@[11]@ == "-vf"@,
        arguments@[12]@ == "scale="@ + decimal(config.viewport_width as nat) + ":"@ + decimal(
            config.viewport_height as nat,
        ) + ":force_original_aspect_ratio=decrease,pad="@ + decimal(config.viewport_width as nat)
            + ":"@ + decimal(config.viewport_height as nat)
            + ":(ow-iw)/2:(oh-ih)/2:color=black,setsar=1"@,
        arguments@[14]@ == "-c:v"@ && arguments@[15]@ == "libx264"@,
        arguments@[16]@ == "-crf"@ && arguments@[17]@ == "20"@,
        arguments@[18]@ == "-preset"@ && arguments@[19]@ == "veryfast"@,
        arguments@[20]@ == "-pix_fmt"@ && arguments@[21]@ == "yuv420p"@,
        0 <= i < 25 && i != 12 ==> arguments@[i]@ == other@[i]@,
{
    let line = texts_view(arguments@);
    let line_of_other = texts_view(other@);
    assert(line.len() == arguments@.len() && line_of_other.len() == other@.len());
    assert(forall|k: int| 0 <= k < 26 ==> line[k] == #[trigger] arguments@[k]@);
    assert(forall|k: int| 0 <= k < 26 ==> line_of_other[k] == #[trigger] other@[k]@);
    let size = decimal(config.viewport_width as nat) + ":"@ + decimal(config.viewport_height as nat);
    assert(line[12] =~= "scale="@ + decimal(config.viewport_width as nat) + ":"@ + decimal(
        config.viewport_height as nat,
    ) + ":force_original_aspect_ratio=decrease,pad="@ + decimal(config.viewport_width as nat)
        + ":"@ + decimal(config.viewport_height as nat)
        + ":(ow-iw)/2:(oh-ih)/2:color=black,setsar=1"@);
}

/// There are fifteen frames to a second: as many are due as have begun by then, and the first is due at once.
pub proof fn frames_are_due_fifteen_to_a_second(started_at: u128, through: u128, frames: u64)
    requires
        call_ensures(frames_due, (started_at, through), frames),
        through <= 1_000_000_000_000_000_000,
    ensures
        through <= started_at ==> frames == 1,
        through > started_at ==> (frames - 1) * 1_000_000_000 < (through - started_at) * 15 <= frames
            * 1_000_000_000,
{
}

/// A frame that comes first starts the recording and is written once. A later one is held back, and the one
/// before it is written until the number of frames is the one that is due. One that comes out of order is
/// dropped.
pub proof fn frames_are_shown_until_the_next(pacer: PacerModel, jpeg: Seq<u8>, received_at: u128)
    requires
        on_grid(pacer),
        received_at <= 1_000_000_000_000_000_000,
    ensures
        ({
            let (after, written, count) = received(pacer, jpeg, received_at);
            &&& pacer.started_at is None ==> after.started_at == Some(received_at) && written == jpeg
                && count == 1 && after.emitted == 1 && after.latest_emitted
            &&& pacer.started_at is Some && received_at < pacer.latest_received_at->0 ==> after
                == pacer && count == 0
            &&& pacer.started_at is Some && received_at >= pacer.latest_received_at->0 ==> {
                let elapsed = received_at - pacer.started_at->0;
                &&& written == pacer.latest_jpeg
                &&& after.latest_jpeg == jpeg
                &&& after.latest_received_at == Some(received_at)
                &&& after.started_at == pacer.started_at
                &&& after.emitted == pacer.emitted + count
                &&& !after.latest_emitted
                &&& elapsed > 0 ==> (after.emitted - 1) * 1_000_000_000 < elapsed * 15
                    <= after.emitted * 1_000_000_000
            }
        }),
{
    if pacer.started_at is Some && received_at >= pacer.latest_received_at->0 {
        frames_accumulate(pacer.started_at->0, pacer.latest_received_at->0, received_at);
    }
}

/// What is written at the end is what is still due, or one frame where the latest was not written yet.
pub proof fn the_latest_frame_is_written_at_the_end(pacer: PacerModel, stop_at: u128)
    requires
        on_grid(pacer),
        stop_at <= 1_000_000_000_000_000_000,
    ensures
        ({
            let (after, count) = finished(pacer, stop_at);
            &&& pacer.started_at is None ==> count == 0 && after == pacer
            &&& pacer.started_at is Some && stop_at >= pacer.latest_received_at->0 ==> {
                let elapsed = stop_at - pacer.started_at->0;
                &&& after.emitted == pacer.emitted + count
                &&& after.latest_emitted
                &&& !pacer.latest_emitted ==> count >= 1
                &&& elapsed > 0 && count != 1 ==> (after.emitted - 1) * 1_000_000_000 < elapsed * 15
                    <= after.emitted * 1_000_000_000
            }
        }),
{
    if pacer.started_at is Some && stop_at >= pacer.latest_received_at->0 {
        frames_accumulate(pacer.started_at->0, pacer.latest_received_at->0, stop_at);
    }
}

/// Of a program's error output its beginning is kept.
pub proof fn error_output_is_kept_from_its_beginning(bytes: Seq<u8>, count: nat)
    ensures
        leading_bytes(bytes, count).is_prefix_of(bytes),
        leading_bytes(bytes, count).len() == if bytes.len() < count {
            bytes.len()
        } else {
            count
        },
        MAX_STDERR_BYTES == 65_536,
{
    assert(leading_bytes(bytes, count) =~= bytes.take(leading_bytes(bytes, count).len() as int));
}

/// Frames are taken until the recording ends, the latest in place of the one before; none is taken behind the
/// end, which is the first that was set.
pub proof fn frames_are_taken_until_the_end(
    state: &mut SharedState,
    jpeg: Vec<u8>,
    received_at: u128,
    taken: bool,
    ending: &mut SharedState,
    stop_at: u128,
)
    requires
        call_ensures(SharedState::push_frame_at, (state, jpeg, received_at), taken),
        call_ensures(SharedState::begin_finalization, (ending, stop_at), ()),
    ensures
        taken <==> old(state).stop_at is None,
        taken ==> final(state).latest == Some(PendingFrame { jpeg, received_at })
            && final(state).first_frame_received && final(state).stop_at is None,
        !taken ==> *final(state) == *old(state),
        final(ending).stop_at is Some,
        old(ending).stop_at is Some ==> final(ending).stop_at == old(ending).stop_at,
        old(ending).stop_at is None ==> final(ending).stop_at == Some(stop_at),
        final(ending).latest == old(ending).latest,
{
}

/// A frame is handed out once, and not at all if it came behind the end.
pub proof fn frames_are_handed_out_once(
    state: &mut SharedState,
    taken: (Option<PendingFrame>, Option<u128>),
)
    requires
        call_ensures(SharedState::take_frame, (state,), taken),
    ensures
        final(state).latest is None,
        final(state).first_frame_received == old(state).first_frame_received,
        final(state).stop_at == old(state).stop_at,
        taken.1 == old(state).stop_at,
        old(state).latest is None ==> taken.0 is None,
        old(state).latest matches Some(frame) ==> match old(state).stop_at {
            Some(end) => (frame.received_at <= end ==> taken.0 == Some(frame)) && (frame.received_at
                > end ==> taken.0 is None),
            None => taken.0 == Some(frame),
        },
{
}

/// What a pacer hands out is what is to be written, and as often as is due.
pub proof fn pacers_hand_out_what_is_due(
    pacer: &mut FramePacer,
    jpeg: Vec<u8>,
    received_at: u128,
    emission: Emission,
)
    requires
        call_ensures(FramePacer::receive, (pacer, jpeg, received_at), emission),
        on_grid(old(pacer)@),
        received_at <= 1_000_000_000_000_000_000,
    ensures
        final(pacer).emitted == old(pacer).emitted + emission.count,
        on_grid(final(pacer)@),
        old(pacer).started_at is None ==> emission.jpeg@ == jpeg@ && emission.count == 1,
        (old(pacer).started_at is Some && received_at >= old(pacer).latest_received_at->0)
            ==> emission.jpeg@ == old(pacer).latest_jpeg@ && final(pacer).latest_jpeg@ == jpeg@,
{
    let before = old(pacer)@;
    frames_are_shown_until_the_next(before, jpeg@, received_at);
    receiving_stays_on_grid(before, jpeg@, received_at);
}

/// Of a program's error output the first 65536 bytes are kept.
pub proof fn the_beginning_of_error_output_is_kept(kept: &mut Vec<u8>, chunk: &[u8], i: int)
    requires
        old(kept)@.len() <= 65_536,
        call_ensures(keep_stderr, (kept, chunk), ()),
    ensures
        final(kept)@.len() == if old(kept)@.len() + chunk@.len() < 65_536 {
            (old(kept)@.len() + chunk@.len()) as int
        } else {
            65_536
        },
        0 <= i < old(kept)@.len() ==> final(kept)@[i] == old(kept)@[i],
        old(kept)@.len() <= i < final(kept)@.len() ==> final(kept)@[i] == chunk@[i
            - old(kept)@.len()],
{
}

/// The first frame is awaited until it is there or time is up.
pub proof fn the_first_frame_is_awaited(
    state: SharedState,
    expired: bool,
    wait: u128,
    outcome: Option<Result<(), VideoError>>,
)
    requires
        call_ensures(SharedState::first_frame, (&state, expired, wait), outcome),
    ensures
        state.first_frame_received ==> outcome matches Some(Ok(_)),
        !state.first_frame_received && !expired ==> outcome is None,
        !state.first_frame_received && expired ==> outcome == Some(
            Err::<(), VideoError>(VideoError::FirstFrameTimeout(wait)),
        ),
{
}

} // verus!
