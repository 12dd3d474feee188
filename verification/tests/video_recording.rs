use rustation_ng::templates::video_recording::{
    AudioMixer, AudioQueue, ColorPalette, EncoderConfig, Frame, FrameQueue, GifConfig, GifRecorder,
    RecordingError, RecordingStats, StreamState, StreamingManager, VideoCodec,
};

fn frame(width: u32, height: u32, fill: u8) -> Frame {
    Frame { width, height, pixels: vec![fill; (width * height * 4) as usize] }
}

#[test]
fn frame_queue_drops_oldest_when_full() {
    let mut q = FrameQueue::new(2);
    q.push(frame(1, 1, 1));
    q.push(frame(1, 1, 2));
    assert!(q.is_full());
    q.push(frame(1, 1, 3));
    assert_eq!(q.frames.len(), 2);
    assert_eq!(q.pop().unwrap().pixels[0], 2);
    assert_eq!(q.pop().unwrap().pixels[0], 3);
    assert!(q.pop().is_none());
    assert!(!q.is_full());
}

#[test]
fn audio_queue_chunks_in_order() {
    let mut q = AudioQueue::new();
    q.push(vec![1, 2, 3]);
    q.push(vec![4, 5]);
    assert!(q.pop_chunk(6).is_none());
    assert_eq!(q.samples.len(), 5);
    assert_eq!(q.pop_chunk(4).unwrap(), vec![1, 2, 3, 4]);
    assert_eq!(q.samples.len(), 1);
    assert_eq!(q.pop_chunk(1).unwrap(), vec![5]);
    assert_eq!(q.pop_chunk(0).unwrap(), Vec::<i16>::new());
}

#[test]
fn audio_mixer_passes_samples_through() {
    let m = AudioMixer::new();
    assert_eq!(m.process(&[-3, 0, 7], 44100), vec![-3, 0, 7]);
}

#[test]
fn palette_keeps_frames_and_is_black() {
    let p = ColorPalette::new();
    let f = frame(2, 2, 9);
    let q = p.quantize(&f).unwrap();
    assert_eq!(q.width, 2);
    assert_eq!(q.pixels, f.pixels);
    assert!(p.to_gif_palette().iter().all(|&b| b == 0));
}

#[test]
fn gif_recorder_stops_at_max_duration() {
    let mut config = GifConfig::default();
    config.frame_delay_ms = 40;
    config.max_duration_ms = 100;
    let mut rec = GifRecorder::new(config);
    assert!(rec.add_frame(&frame(4, 4, 0)).is_ok()); // 40 ms
    assert!(rec.add_frame(&frame(4, 4, 0)).is_ok()); // 80 ms
    let r = rec.add_frame(&frame(4, 4, 0)); // 120 ms
    assert!(matches!(r, Err(RecordingError::GifDurationExceeded)));
    assert_eq!(rec.frames.len(), 3);
}

#[test]
fn gif_duration_limit_is_inclusive() {
    let mut config = GifConfig::default();
    config.frame_delay_ms = 50;
    config.max_duration_ms = 100;
    let mut rec = GifRecorder::new(config);
    assert!(rec.add_frame(&frame(1, 1, 0)).is_ok());
    assert!(matches!(rec.add_frame(&frame(1, 1, 0)), Err(RecordingError::GifDurationExceeded)));
}

#[test]
fn streaming_state_machine() {
    let mut s = StreamingManager::new("rtmp://live.example.com/app".to_string(), "key123".to_string());
    assert_eq!(s.state, StreamState::Disconnected);
    assert_eq!(s.stream_url(), "rtmp://live.example.com/app/key123");
    assert!(matches!(s.send_frame(&frame(1, 1, 0)), Err(RecordingError::NotStreaming)));
    assert!(s.start_stream().is_ok());
    assert_eq!(s.state, StreamState::Streaming);
    assert!(s.send_frame(&frame(1, 1, 0)).is_ok());
    assert!(s.stop_stream().is_ok());
    assert_eq!(s.state, StreamState::Disconnected);
}

#[test]
fn recording_defaults() {
    let e = EncoderConfig::default();
    assert_eq!(e.video_codec, VideoCodec::H264);
    assert_eq!((e.width, e.height, e.framerate, e.bitrate, e.quality), (1280, 720, 60, 4000, 23));
    assert_eq!(e.h264_preset, "medium");
    let g = GifConfig::default();
    assert_eq!((g.max_width, g.max_height, g.frame_delay_ms, g.max_duration_ms, g.color_count), (640, 480, 33, 10000, 256));
    assert_eq!(RecordingStats::default().frames_recorded, 0);
}

use rustation_ng::templates::video_recording::recorder::{
    EncoderCommand, EncoderStep, RecordingConfig, ScreenshotFormat, VideoEncoder, VideoRecorder, AUDIO_CHUNK,
};
use rustation_ng::templates::video_recording::{AudioCodec, OutputFormat, RecorderState};

#[test]
fn ffmpeg_command_line_for_default_h264() {
    let enc = VideoEncoder::new(EncoderConfig::default(), "out.mp4".to_string());
    let args = enc.ffmpeg_args();
    let expected: Vec<&str> = vec![
        "-y", "-f", "rawvideo", "-pixel_format", "rgba", "-video_size", "1280x720", "-framerate", "60", "-i",
        "pipe:0", "-f", "s16le", "-ar", "44100", "-ac", "2", "-i", "pipe:3", "-c:v", "libx264", "-preset",
        "medium", "-crf", "23", "-c:a", "aac", "-b:a", "192k", "-pix_fmt", "yuv420p", "out.mp4",
    ];
    assert_eq!(args, expected);
}

#[test]
fn ffmpeg_command_line_vp9_without_audio() {
    let mut config = EncoderConfig::default();
    config.video_codec = VideoCodec::VP9;
    config.audio_enabled = false;
    config.width = 640;
    config.height = 480;
    config.framerate = 30;
    config.bitrate = 1500;
    config.quality = 31;
    let args = VideoEncoder::new(config, "clip.webm".to_string()).ffmpeg_args();
    let expected: Vec<&str> = vec![
        "-y", "-f", "rawvideo", "-pixel_format", "rgba", "-video_size", "640x480", "-framerate", "30", "-i",
        "pipe:0", "-c:v", "libvpx-vp9", "-b:v", "1500k", "-crf", "31", "-pix_fmt", "yuv420p", "clip.webm",
    ];
    assert_eq!(args, expected);
}

#[test]
fn ffmpeg_command_line_av1_flac() {
    let mut config = EncoderConfig::default();
    config.video_codec = VideoCodec::AV1;
    config.audio_codec = AudioCodec::FLAC;
    config.audio_sample_rate = 48000;
    let args = VideoEncoder::new(config, "a.mkv".to_string()).ffmpeg_args();
    assert_eq!(&args[11..19], &["-f", "s16le", "-ar", "48000", "-ac", "2", "-i", "pipe:3"]);
    assert_eq!(&args[19..25], &["-c:v", "libaom-av1", "-crf", "23", "-b:v", "0"]);
    assert_eq!(&args[25..27], &["-c:a", "flac"]);
    assert_eq!(args.last().unwrap(), "a.mkv");
}

#[test]
fn stream_command_line_ends_with_url() {
    let s = StreamingManager::new("rtmp://x/app".to_string(), "k".to_string());
    let args = s.stream_args();
    assert_eq!(args.len(), 36);
    assert_eq!(args[0], "-re");
    assert_eq!(args[13..17], ["-preset", "veryfast", "-tune", "zerolatency"]);
    assert_eq!(args[34], "flv");
    assert_eq!(args[35], "rtmp://x/app/k");
}

#[test]
fn encoder_step_follows_commands_and_queues() {
    let mut enc = VideoEncoder::new(EncoderConfig::default(), "o.mp4".to_string());
    let mut frames = FrameQueue::new(4);
    let mut audio = AudioQueue::new();
    frames.push(frame(1, 1, 7));
    audio.push(vec![1; AUDIO_CHUNK + 3]);
    assert!(matches!(enc.step(Some(EncoderCommand::Pause), &mut frames, &mut audio), EncoderStep::Pause));
    assert_eq!(frames.frames.len(), 1);
    match enc.step(None, &mut frames, &mut audio) {
        EncoderStep::Work { frame: Some(f), audio: Some(a) } => {
            assert_eq!(f.pixels[0], 7);
            assert_eq!(a.len(), AUDIO_CHUNK);
        }
        _ => panic!("expected a frame and a chunk"),
    }
    assert_eq!(enc.frame_count, 1);
    assert_eq!(audio.samples.len(), 3);
    assert!(matches!(enc.step(None, &mut frames, &mut audio), EncoderStep::Work { frame: None, audio: None }));
    assert_eq!(enc.frame_count, 1);
    assert!(matches!(enc.step(Some(EncoderCommand::Stop), &mut frames, &mut audio), EncoderStep::Stop));
}

#[test]
fn recorder_state_machine_and_counters() {
    let mut config = RecordingConfig::default();
    config.buffer_size = 2;
    let mut rec = VideoRecorder::new(config).unwrap();
    assert_eq!(rec.state, RecorderState::Idle);
    // ignored while idle
    assert!(rec.submit_frame(&frame(1, 1, 0)).is_ok());
    assert_eq!(rec.frame_queue.frames.len(), 0);
    assert!(matches!(rec.stop_recording(), Err(RecordingError::NotRecording)));
    assert!(rec.start_recording("game.mp4").is_ok());
    assert_eq!(rec.output_path, "game.mp4");
    assert!(matches!(rec.start_recording("other.mp4"), Err(RecordingError::AlreadyRecording)));
    for _ in 0..3 {
        rec.submit_frame(&frame(1, 1, 0)).unwrap();
    }
    assert_eq!(rec.stats.frames_recorded, 2);
    assert_eq!(rec.stats.dropped_frames, 1);
    rec.submit_audio(&[1, 2, 3]).unwrap();
    assert_eq!(rec.stats.audio_samples, 3);
    assert_eq!(rec.audio_queue.samples.len(), 3);
    assert!(rec.stop_recording().is_ok());
    assert_eq!(rec.state, RecorderState::Idle);
    assert!(rec.start_gif_recording(3000, "game.gif").is_ok());
    assert_eq!(rec.config.output_format, OutputFormat::Gif);
    assert_eq!(rec.config.gif_config.max_duration_ms, 3000);
    assert_eq!(rec.stats.frames_recorded, 0);
}

#[test]
fn screenshot_format_from_extension() {
    let rec = VideoRecorder::new(RecordingConfig::default()).unwrap();
    assert_eq!(rec.take_screenshot(None).unwrap(), ScreenshotFormat::Png);
    assert_eq!(rec.take_screenshot(Some("png")).unwrap(), ScreenshotFormat::Png);
    assert_eq!(rec.take_screenshot(Some("jpeg")).unwrap(), ScreenshotFormat::Jpeg(95));
    assert_eq!(rec.take_screenshot(Some("jpg")).unwrap(), ScreenshotFormat::Jpeg(95));
    assert_eq!(rec.take_screenshot(Some("bmp")).unwrap(), ScreenshotFormat::Bmp);
    match rec.take_screenshot(Some("tiff")) {
        Err(RecordingError::UnsupportedFormat(e)) => assert_eq!(e, "tiff"),
        _ => panic!("tiff is not supported"),
    }
}
