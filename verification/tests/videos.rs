use std::time::Duration;

use playrust::video::{
    check_encoders, ffmpeg_arguments, frames_due, keep_stderr, output_text, stderr_text, FramePacer,
    SharedState, VideoConfig, VideoError, VideoMode, MAX_STDERR_BYTES,
};

fn config() -> VideoConfig {
    VideoConfig {
        mode: VideoMode::On,
        ffmpeg_path: "ffmpeg".to_owned(),
        output_path: "recording.mp4".to_owned(),
        viewport_width: 1280,
        viewport_height: 720,
    }
}

fn millis(count: u64) -> u128 {
    Duration::from_millis(count).as_nanos()
}

#[test]
fn video_mode_parses_and_deserializes() {
    assert_eq!("off".parse::<VideoMode>().unwrap(), VideoMode::Off);
    assert_eq!("on".parse::<VideoMode>().unwrap(), VideoMode::On);
    assert_eq!(
        "retain-on-failure".parse::<VideoMode>().unwrap(),
        VideoMode::RetainOnFailure
    );
    match playrust::codec::read_json(b"\"retain-on-failure\"").unwrap() {
        playrust::json::JsonValue::Text(name) => {
            assert_eq!(name.parse::<VideoMode>().unwrap(), VideoMode::RetainOnFailure)
        }
        other => panic!("{other:?}"),
    }
    assert!("always".parse::<VideoMode>().is_err());
    assert_eq!(
        VideoMode::parse("always").unwrap_err().message(),
        "invalid video mode \"always\"; expected off, on, or retain-on-failure"
    );
    for mode in [VideoMode::Off, VideoMode::On, VideoMode::RetainOnFailure] {
        assert_eq!(mode.name().parse::<VideoMode>().unwrap(), mode);
        assert_eq!(mode.enabled(), mode != VideoMode::Off);
    }
}

#[test]
fn enabled_video_requires_nonzero_even_dimensions() {
    let mut value = config();
    assert!(value.validate().is_ok());
    value.viewport_width = 1279;
    assert!(value.validate().is_err());
    value.viewport_width = 0;
    assert!(value.validate().is_err());
    value.mode = VideoMode::Off;
    assert!(value.validate().is_ok());
    assert!(value.validate_start().is_err());
}

#[test]
fn recordings_need_a_program_and_a_file() {
    let mut value = config();
    value.ffmpeg_path = String::new();
    assert_eq!(
        value.validate().unwrap_err().message(),
        "invalid video configuration: FFmpeg path must not be empty"
    );
    for (path, reason) in [
        ("dir/..", "video output path must include a file name"),
        ("/", "video output path must include a file name"),
        ("recording.webm", "video output path must end in .mp4"),
        (".mp4", "video output path must end in .mp4"),
        ("recording.mp4.", "video output path must end in .mp4"),
    ] {
        let mut value = config();
        value.output_path = path.to_owned();
        assert_eq!(
            value.validate(),
            Err(VideoError::InvalidConfig(reason.to_owned())),
            "{path}"
        );
    }
    for (path, partial) in [
        ("a/b.mp4", "a/b.partial.mp4"),
        ("a.b/c.mp4/", "a.b/c.partial.mp4"),
        ("x.y.mp4/.", "x.y.partial.mp4"),
        ("/", "/"),
    ] {
        let mut value = config();
        value.output_path = path.to_owned();
        assert_eq!(value.partial_path(), partial);
        assert_eq!(
            std::path::Path::new(path).with_extension("partial.mp4"),
            std::path::PathBuf::from(partial)
        );
    }
}

#[test]
fn pacing_uses_a_cumulative_fifteen_fps_grid() {
    let start = 7;
    assert_eq!(frames_due(start, start), 1);
    assert_eq!(frames_due(start, start + millis(66)), 1);
    assert_eq!(frames_due(start, start + millis(67)), 2);
    assert_eq!(frames_due(start, start + millis(999)), 15);
    assert_eq!(frames_due(start, start + millis(1000)), 15);
    assert_eq!(frames_due(start, start + millis(1001)), 16);
    assert_eq!(frames_due(start, 0), 1);
    assert_eq!(frames_due(0, u128::MAX), u64::MAX);
}

fn write(output: &mut Vec<u8>, emission: playrust::video::Emission) {
    for _ in 0..emission.count {
        output.extend_from_slice(&emission.jpeg);
    }
}

#[test]
fn pacing_repeats_the_previous_frame_until_the_next_receipt() {
    let start = 7;
    let mut output = Vec::new();
    let mut pacer = FramePacer::default();

    write(&mut output, pacer.receive(vec![1], start));
    write(&mut output, pacer.receive(vec![2], start + millis(140)));
    write(&mut output, pacer.finish(start + millis(210)));

    assert_eq!(output, vec![1, 1, 1, 2]);
}

#[test]
fn pacing_emits_a_frame_received_at_the_stop_boundary() {
    let start = 7;
    let mut output = Vec::new();
    let mut pacer = FramePacer::default();

    write(&mut output, pacer.receive(vec![1], start));
    write(&mut output, pacer.receive(vec![2], start + millis(10)));
    write(&mut output, pacer.finish(start + millis(10)));

    assert_eq!(output, vec![1, 2]);
}

#[test]
fn frames_from_the_past_are_dropped() {
    let mut output = Vec::new();
    let mut pacer = FramePacer::default();
    write(&mut output, pacer.finish(millis(5)));
    assert!(output.is_empty());
    write(&mut output, pacer.receive(vec![1], millis(100)));
    write(&mut output, pacer.receive(vec![2], millis(50)));
    write(&mut output, pacer.finish(millis(1100)));
    assert_eq!(output, vec![1; 15]);
}

#[test]
fn stderr_capture_keeps_the_prefix_and_drains_the_rest() {
    let input = vec![b'x'; MAX_STDERR_BYTES + 1024];
    let mut kept = Vec::new();
    for chunk in input.chunks(1000) {
        keep_stderr(&mut kept, chunk);
    }
    let captured = stderr_text(&kept);

    assert_eq!(captured.len(), MAX_STDERR_BYTES);
    assert_eq!(stderr_text(&b"  two words \n".to_vec()), "two words");
}

#[test]
fn finalization_signal_is_idempotent_and_rejects_late_frames() {
    let mut state = SharedState::default();
    let first_stop = 1_000;

    state.begin_finalization(first_stop);
    state.begin_finalization(first_stop + 1_000_000_000);
    assert!(!state.push_frame_at(vec![1], first_stop));

    assert_eq!(state.stop_at, Some(first_stop));
    assert!(state.latest.is_none());
    assert!(!state.first_frame_received);
}

#[test]
fn the_newest_frame_waits_to_be_taken() {
    let mut state = SharedState::default();
    assert!(state.first_frame(false, 5).is_none());
    assert_eq!(
        state.first_frame(true, 1_500_000_000).unwrap().unwrap_err().message(),
        "timed out waiting 1.5s for the first video frame"
    );
    assert!(state.push_frame_at(vec![1], 10));
    assert!(state.push_frame_at(vec![2], 20));
    assert_eq!(state.first_frame(true, 5), Some(Ok(())));
    state.begin_finalization(15);
    assert_eq!(state.take_frame(), (None, Some(15)));
    let mut in_time = SharedState::default();
    in_time.push_frame_at(vec![3], 15);
    in_time.begin_finalization(15);
    let (frame, stop) = in_time.take_frame();
    assert_eq!(frame.unwrap().jpeg, vec![3]);
    assert_eq!(stop, Some(15));
    assert!(in_time.latest.is_none());
}

#[test]
fn ffmpeg_arguments_pipe_mjpeg_and_publish_compatible_h264() {
    let value = config();
    let partial = value.partial_path();
    let arguments = ffmpeg_arguments(&value, &partial);

    assert_eq!(partial, "recording.partial.mp4");
    assert_eq!(
        arguments,
        vec![
            "-hide_banner",
            "-loglevel",
            "error",
            "-f",
            "image2pipe",
            "-framerate",
            "15",
            "-vcodec",
            "mjpeg",
            "-i",
            "pipe:0",
            "-vf",
            "scale=1280:720:force_original_aspect_ratio=decrease,pad=1280:720:(ow-iw)/2:(oh-ih)/2:color=black,setsar=1",
            "-an",
            "-c:v",
            "libx264",
            "-crf",
            "20",
            "-preset",
            "veryfast",
            "-pix_fmt",
            "yuv420p",
            "-movflags",
            "+faststart",
            "-y",
            "recording.partial.mp4",
        ]
    );
}

#[test]
fn encoders_are_looked_for_as_words() {
    let none = Vec::new();
    assert!(check_encoders(true, &b" V..... libx264 H.264\n".to_vec(), &none).is_ok());
    assert!(check_encoders(true, &b"libx264".to_vec(), &none).is_ok());
    assert_eq!(
        check_encoders(true, &b" V..... libx264rgb H.264\n".to_vec(), &none),
        Err(VideoError::H264Unavailable)
    );
    assert_eq!(
        check_encoders(true, &b"xlibx264".to_vec(), &none),
        Err(VideoError::H264Unavailable)
    );
    let failed = check_encoders(false, &b" out \n".to_vec(), &b"\terr".to_vec()).unwrap_err();
    assert_eq!(failed.message(), "FFmpeg preflight failed: out err");
    assert_eq!(output_text(&b"\xff".to_vec(), &none), "\u{fffd}");
}

#[test]
fn errors_of_recordings_tell_what_happened() {
    for (error, message) in [
        (
            VideoError::Spawn {
                path: "ffmpeg".to_owned(),
                source: "missing".to_owned(),
            },
            "failed to start FFmpeg at ffmpeg: missing",
        ),
        (
            VideoError::PreflightTimeout(15_000_000_000),
            "FFmpeg preflight timed out after 15s",
        ),
        (
            VideoError::H264Unavailable,
            "FFmpeg does not provide the required libx264 encoder",
        ),
        (
            VideoError::FrameWriter("broken pipe".to_owned()),
            "video frame writer failed: broken pipe",
        ),
        (
            VideoError::FinalizationTimeout(15_000_000_000, "p".to_owned()),
            "FFmpeg finalization timed out after 15s; partial recording retained at p",
        ),
        (
            VideoError::FfmpegFailed {
                status: "exit status: 1".to_owned(),
                stderr: "bad".to_owned(),
                partial_path: "p".to_owned(),
            },
            "FFmpeg exited unsuccessfully (exit status: 1): bad; partial recording retained at p",
        ),
        (
            VideoError::Artifact {
                path: "p".to_owned(),
                source: "full".to_owned(),
            },
            "video artifact operation failed for p: full",
        ),
    ] {
        assert_eq!(error.message(), message);
    }
}
