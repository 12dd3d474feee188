//! The video recorder: its state machine, the queues it feeds, the command line of the
//! encoder process and the decisions of the encoder loop. Starting the process, the
//! encoder thread and writing to its pipe are the host's.

use vstd::prelude::*;
use vstd::string::StringExecFns;
use crate::text::{dec_str, dec_string, str_eq};
use super::{
    AudioCodec, AudioConfig, AudioMixer, AudioQueue, EncoderConfig, Frame, FrameQueue, GifConfig, OutputFormat,
    RecorderState, RecordingError, RecordingStats, VideoCodec,
};

verus! {

/// The text of each argument of a command line.
pub open spec fn arg_views(v: Seq<String>) -> Seq<Seq<char>> {
    v.map_values(|s: String| s@)
}

/// Append one argument.
pub fn push_arg(args: &mut Vec<String>, a: &str)
    ensures
        arg_views(final(args)@) == arg_views(old(args)@).push(a@),
{
    push_owned(args, String::from_str(a));
}

/// Append one argument that is already a string.
pub fn push_owned(args: &mut Vec<String>, s: String)
    ensures
        arg_views(final(args)@) == arg_views(old(args)@).push(s@),
{
    let ghost before = args@;
    let ghost sv = s@;
    args.push(s);
    assert(arg_views(args@) =~= arg_views(before).push(sv));
}

/// The encoder options for a video codec.
pub open spec fn video_codec_args(codec: VideoCodec, h264_preset: Seq<char>, h265_preset: Seq<char>, bitrate: u32, quality: u32) -> Seq<Seq<char>> {
    match codec {
        VideoCodec::H264 => seq!["-c:v"@, "libx264"@, "-preset"@, h264_preset, "-crf"@, dec_str(quality as nat)],
        VideoCodec::H265 => seq!["-c:v"@, "libx265"@, "-preset"@, h265_preset, "-crf"@, dec_str(quality as nat)],
        VideoCodec::VP9 => seq!["-c:v"@, "libvpx-vp9"@, "-b:v"@, dec_str(bitrate as nat) + "k"@, "-crf"@, dec_str(quality as nat)],
        VideoCodec::AV1 => seq!["-c:v"@, "libaom-av1"@, "-crf"@, dec_str(quality as nat), "-b:v"@, "0"@],
    }
}

/// The encoder options for an audio codec.
pub open spec fn audio_codec_args(codec: AudioCodec) -> Seq<Seq<char>> {
    match codec {
        AudioCodec::AAC => seq!["-c:a"@, "aac"@, "-b:a"@, "192k"@],
        AudioCodec::MP3 => seq!["-c:a"@, "libmp3lame"@, "-b:a"@, "192k"@],
        AudioCodec::Opus => seq!["-c:a"@, "libopus"@, "-b:a"@, "128k"@],
        AudioCodec::FLAC => seq!["-c:a"@, "flac"@],
    }
}

/// The raw-video input: RGBA frames of the configured size and rate on standard input.
pub open spec fn video_input_args(c: EncoderConfig) -> Seq<Seq<char>> {
    seq![
        "-y"@,
        "-f"@,
        "rawvideo"@,
        "-pixel_format"@,
        "rgba"@,
        "-video_size"@,
        dec_str(c.width as nat) + "x"@ + dec_str(c.height as nat),
        "-framerate"@,
        dec_str(c.framerate as nat),
        "-i"@,
        "pipe:0"@,
    ]
}

/// The audio input: signed 16-bit little-endian stereo on descriptor 3.
pub open spec fn audio_input_args(c: EncoderConfig) -> Seq<Seq<char>> {
    seq!["-f"@, "s16le"@, "-ar"@, dec_str(c.audio_sample_rate as nat), "-ac"@, "2"@, "-i"@, "pipe:3"@]
}

/// The arguments of the encoder process for a configuration and an output file.
pub open spec fn ffmpeg_args_of(c: EncoderConfig, output: Seq<char>) -> Seq<Seq<char>> {
    video_input_args(c)
        + (if c.audio_enabled { audio_input_args(c) } else { Seq::empty() })
        + video_codec_args(c.video_codec, c.h264_preset@, c.h265_preset@, c.bitrate, c.quality)
        + (if c.audio_enabled { audio_codec_args(c.audio_codec) } else { Seq::empty() })
        + seq!["-pix_fmt"@, "yuv420p"@, output]
}

fn push_video_input_args(args: &mut Vec<String>, c: &EncoderConfig)
    ensures
        arg_views(final(args)@) == arg_views(old(args)@) + video_input_args(*c),
{
    push_arg(args, "-y");
    push_arg(args, "-f");
    push_arg(args, "rawvideo");
    push_arg(args, "-pixel_format");
    push_arg(args, "rgba");
    push_arg(args, "-video_size");
    let mut size = dec_string(c.width as u64);
    size.append("x");
    size.append(dec_string(c.height as u64).as_str());
    push_owned(args, size);
    push_arg(args, "-framerate");
    push_owned(args, dec_string(c.framerate as u64));
    push_arg(args, "-i");
    push_arg(args, "pipe:0");
    assert(arg_views(args@) =~= arg_views(old(args)@) + video_input_args(*c));
}

fn push_audio_input_args(args: &mut Vec<String>, c: &EncoderConfig)
    ensures
        arg_views(final(args)@) == arg_views(old(args)@) + audio_input_args(*c),
{
    push_arg(args, "-f");
    push_arg(args, "s16le");
    push_arg(args, "-ar");
    push_owned(args, dec_string(c.audio_sample_rate as u64));
    push_arg(args, "-ac");
    push_arg(args, "2");
    push_arg(args, "-i");
    push_arg(args, "pipe:3");
    assert(arg_views(args@) =~= arg_views(old(args)@) + audio_input_args(*c));
}

fn push_video_codec_args(args: &mut Vec<String>, c: &EncoderConfig)
    ensures
        arg_views(final(args)@) == arg_views(old(args)@) + video_codec_args(
            c.video_codec,
            c.h264_preset@,
            c.h265_preset@,
            c.bitrate,
            c.quality,
        ),
{
    match c.video_codec {
        VideoCodec::H264 => {
            push_arg(args, "-c:v");
            push_arg(args, "libx264");
            push_arg(args, "-preset");
            push_owned(args, c.h264_preset.clone());
            push_arg(args, "-crf");
            push_owned(args, dec_string(c.quality as u64));
        },
        VideoCodec::H265 => {
            push_arg(args, "-c:v");
            push_arg(args, "libx265");
            push_arg(args, "-preset");
            push_owned(args, c.h265_preset.clone());
            push_arg(args, "-crf");
            push_owned(args, dec_string(c.quality as u64));
        },
        VideoCodec::VP9 => {
            push_arg(args, "-c:v");
            push_arg(args, "libvpx-vp9");
            push_arg(args, "-b:v");
            let mut rate = dec_string(c.bitrate as u64);
            rate.append("k");
            push_owned(args, rate);
            push_arg(args, "-crf");
            push_owned(args, dec_string(c.quality as u64));
        },
        VideoCodec::AV1 => {
            push_arg(args, "-c:v");
            push_arg(args, "libaom-av1");
            push_arg(args, "-crf");
            push_owned(args, dec_string(c.quality as u64));
            push_arg(args, "-b:v");
            push_arg(args, "0");
        },
    }
    assert(arg_views(args@) =~= arg_views(old(args)@) + video_codec_args(
        c.video_codec,
        c.h264_preset@,
        c.h265_preset@,
        c.bitrate,
        c.quality,
    ));
}

fn push_audio_codec_args(args: &mut Vec<String>, codec: AudioCodec)
    ensures
        arg_views(final(args)@) == arg_views(old(args)@) + audio_codec_args(codec),
{
    match codec {
        AudioCodec::AAC => {
            push_arg(args, "-c:a");
            push_arg(args, "aac");
            push_arg(args, "-b:a");
            push_arg(args, "192k");
        },
        AudioCodec::MP3 => {
            push_arg(args, "-c:a");
            push_arg(args, "libmp3lame");
            push_arg(args, "-b:a");
            push_arg(args, "192k");
        },
        AudioCodec::Opus => {
            push_arg(args, "-c:a");
            push_arg(args, "libopus");
            push_arg(args, "-b:a");
            push_arg(args, "128k");
        },
        AudioCodec::FLAC => {
            push_arg(args, "-c:a");
            push_arg(args, "flac");
        },
    }
    assert(arg_views(args@) =~= arg_views(old(args)@) + audio_codec_args(codec));
}

/// A command for the encoder loop.
#[derive(Debug, Clone, Copy, PartialEq, Eq, Structural)]
pub enum EncoderCommand {
    Stop,
    Pause,
}

/// What the encoder loop does next: stop, wait, or encode what it took from the
/// queues (when it took nothing, it idles briefly).
pub enum EncoderStep {
    Stop,
    Pause,
    Work { frame: Option<Frame>, audio: Option<Vec<i16>> },
}

/// Audio is taken from its queue in chunks of this many samples.
pub const AUDIO_CHUNK: usize = 1024;

/// The encoder of a recording: its settings, the file it writes, and how many frames it
/// has encoded.
pub struct VideoEncoder {
    pub config: EncoderConfig,
    pub output_path: String,
    pub frame_count: u64,
}

impl VideoEncoder {
    pub fn new(config: EncoderConfig, output_path: String) -> (r: Self)
        ensures
            r.config == config,
            r.output_path == output_path,
            r.frame_count == 0,
    {
        VideoEncoder { config, output_path, frame_count: 0 }
    }

    /// The arguments the encoder process is started with.
    pub fn ffmpeg_args(&self) -> (r: Vec<String>)
        ensures
            arg_views(r@) == ffmpeg_args_of(self.config, self.output_path@),
    {
        let mut args: Vec<String> = Vec::new();
        assert(arg_views(args@) =~= Seq::<Seq<char>>::empty());
        push_video_input_args(&mut args, &self.config);
        let ghost a1 = arg_views(args@);
        if self.config.audio_enabled {
            push_audio_input_args(&mut args, &self.config);
        }
        let ghost a2 = arg_views(args@);
        assert(a2 =~= a1 + (if self.config.audio_enabled { audio_input_args(self.config) } else { Seq::empty() }));
        push_video_codec_args(&mut args, &self.config);
        let ghost a3 = arg_views(args@);
        if self.config.audio_enabled {
            push_audio_codec_args(&mut args, self.config.audio_codec);
        }
        let ghost a4 = arg_views(args@);
        assert(a4 =~= a3 + (if self.config.audio_enabled { audio_codec_args(self.config.audio_codec) } else { Seq::empty() }));
        push_arg(&mut args, "-pix_fmt");
        push_arg(&mut args, "yuv420p");
        push_owned(&mut args, self.output_path.clone());
        assert(arg_views(args@) =~= ffmpeg_args_of(self.config, self.output_path@));
        args
    }

    /// One turn of the encoder loop, given the command received since the last turn:
    /// stop, pause, or take the oldest frame and the oldest chunk of audio.
    pub fn step(&mut self, cmd: Option<EncoderCommand>, frames: &mut FrameQueue, audio: &mut AudioQueue) -> (r: EncoderStep)
        requires
            old(self).frame_count < u64::MAX,
        ensures
            final(self).config == old(self).config,
            final(self).output_path == old(self).output_path,
            cmd == Some(EncoderCommand::Stop) ==> r is Stop && *final(frames) == *old(frames) && *final(audio) == *old(
                audio,
            ) && final(self).frame_count == old(self).frame_count,
            cmd == Some(EncoderCommand::Pause) ==> r is Pause && *final(frames) == *old(frames) && *final(audio) == *old(
                audio,
            ) && final(self).frame_count == old(self).frame_count,
            cmd is None ==> (r matches EncoderStep::Work { frame, audio: chunk } && {
                &&& final(frames).max_size == old(frames).max_size
                &&& old(frames).frames@.len() == 0 ==> frame is None && final(frames).frames@ == old(frames).frames@
                    && final(self).frame_count == old(self).frame_count
                &&& old(frames).frames@.len() > 0 ==> frame == Some(old(frames).frames@[0]) && final(frames).frames@
                    == old(frames).frames@.drop_first() && final(self).frame_count == old(self).frame_count + 1
                &&& old(audio).samples@.len() >= AUDIO_CHUNK ==> (chunk matches Some(v) && v@ == old(
                    audio,
                ).samples@.take(AUDIO_CHUNK as int) && final(audio).samples@ == old(audio).samples@.skip(
                    AUDIO_CHUNK as int,
                ))
                &&& old(audio).samples@.len() < AUDIO_CHUNK ==> chunk is None && final(audio).samples@ == old(
                    audio,
                ).samples@
            }),
    {
        match cmd {
            Some(EncoderCommand::Stop) => EncoderStep::Stop,
            Some(EncoderCommand::Pause) => EncoderStep::Pause,
            None => {
                let frame = frames.pop();
                if frame.is_some() {
                    self.frame_count = self.frame_count + 1;
                }
                let chunk = audio.pop_chunk(AUDIO_CHUNK);
                EncoderStep::Work { frame, audio: chunk }
            },
        }
    }
}

/// Recording settings. Frame preprocessing (scaling, filters, watermark) is the
/// host's and is applied before frames are submitted.
pub struct RecordingConfig {
    pub output_format: OutputFormat,
    pub encoder_config: EncoderConfig,
    pub audio_config: AudioConfig,
    pub gif_config: GifConfig,
    /// Frames held for the encoder; 60 is a second at 60 fps.
    pub buffer_size: usize,
}

impl Default for RecordingConfig {
    fn default() -> (r: Self)
        ensures
            r.output_format == OutputFormat::MP4,
            r.audio_config.sample_rate == 44100,
            r.gif_config.frame_delay_ms == 33 && r.gif_config.max_duration_ms == 10000,
            r.encoder_config.video_codec == VideoCodec::H264 && r.encoder_config.width == 1280
                && r.encoder_config.height == 720,
            r.buffer_size == 60,
    {
        RecordingConfig {
            output_format: OutputFormat::MP4,
            encoder_config: EncoderConfig::default(),
            audio_config: AudioConfig::default(),
            gif_config: GifConfig::default(),
            buffer_size: 60,
        }
    }
}

/// The image formats a screenshot can be saved in; JPEG with its quality.
#[derive(Debug, Clone, Copy, PartialEq, Eq, Structural)]
pub enum ScreenshotFormat {
    Png,
    Jpeg(u8),
    Bmp,
}

/// The screenshot format for a file extension; no extension means PNG.
pub open spec fn screenshot_format_of(ext: Option<Seq<char>>) -> Option<ScreenshotFormat> {
    match ext {
        None => Some(ScreenshotFormat::Png),
        Some(e) => if e == "png"@ {
            Some(ScreenshotFormat::Png)
        } else if e == "jpg"@ || e == "jpeg"@ {
            Some(ScreenshotFormat::Jpeg(95))
        } else if e == "bmp"@ {
            Some(ScreenshotFormat::Bmp)
        } else {
            None
        },
    }
}

/// Records frames and audio to a video file through the encoder.
pub struct VideoRecorder {
    pub state: RecorderState,
    pub config: RecordingConfig,
    pub frame_queue: FrameQueue,
    pub audio_mixer: AudioMixer,
    pub audio_queue: AudioQueue,
    pub stats: RecordingStats,
    pub output_path: String,
}

impl VideoRecorder {
    /// Idle, with empty queues; the frame queue holds `buffer_size` frames.
    pub fn new(config: RecordingConfig) -> (r: Result<Self, RecordingError>)
        ensures
            r matches Ok(v) && {
                &&& v.state == RecorderState::Idle
                &&& v.frame_queue.frames@.len() == 0
                &&& v.frame_queue.max_size == config.buffer_size
                &&& v.audio_queue.samples@.len() == 0
                &&& v.stats == RecordingStats::zeroed()
                &&& v.output_path@.len() == 0
                &&& v.config == config
            },
    {
        let size = config.buffer_size;
        Ok(VideoRecorder {
            state: RecorderState::Idle,
            config,
            frame_queue: FrameQueue::new(size),
            audio_mixer: AudioMixer::new(),
            audio_queue: AudioQueue::new(),
            stats: RecordingStats::default(),
            output_path: String::new(),
        })
    }

    /// Start recording to `output_path`; only when idle.
    pub fn start_recording(&mut self, output_path: &str) -> (r: Result<(), RecordingError>)
        ensures
            (r is Ok) == (old(self).state == RecorderState::Idle),
            r is Err ==> (r matches Err(RecordingError::AlreadyRecording) && *final(self) == *old(self)),
            r is Ok ==> {
                &&& final(self).state == RecorderState::Recording
                &&& final(self).output_path@ == output_path@
                &&& final(self).stats == RecordingStats::zeroed()
                &&& final(self).config == old(self).config
                &&& final(self).frame_queue == old(self).frame_queue
                &&& final(self).audio_queue == old(self).audio_queue
            },
    {
        if self.state != RecorderState::Idle {
            return Err(RecordingError::AlreadyRecording);
        }
        self.output_path = String::from_str(output_path);
        self.stats = RecordingStats::default();
        self.state = RecorderState::Recording;
        Ok(())
    }

    /// Stop recording; only while recording.
    pub fn stop_recording(&mut self) -> (r: Result<(), RecordingError>)
        ensures
            (r is Ok) == (old(self).state == RecorderState::Recording),
            r is Err ==> (r matches Err(RecordingError::NotRecording) && *final(self) == *old(self)),
            r is Ok ==> final(self).state == RecorderState::Idle && final(self).stats == old(self).stats
                && final(self).output_path == old(self).output_path,
    {
        if self.state != RecorderState::Recording {
            return Err(RecordingError::NotRecording);
        }
        self.state = RecorderState::Idle;
        Ok(())
    }

    /// Queue a frame while recording; a full queue drops it and counts the drop. Outside
    /// a recording the frame is ignored.
    pub fn submit_frame(&mut self, frame: &Frame) -> (r: Result<(), RecordingError>)
        requires
            old(self).stats.frames_recorded < u64::MAX,
            old(self).stats.dropped_frames < u64::MAX,
        ensures
            r is Ok,
            final(self).state == old(self).state,
            final(self).config == old(self).config,
            final(self).audio_queue == old(self).audio_queue,
            old(self).state != RecorderState::Recording ==> *final(self) == *old(self),
            old(self).state == RecorderState::Recording && old(self).frame_queue.frames@.len()
                >= old(self).frame_queue.max_size ==> final(self).frame_queue == old(self).frame_queue
                && final(self).stats == (RecordingStats {
                dropped_frames: (old(self).stats.dropped_frames + 1) as u64,
                ..old(self).stats
            }),
            old(self).state == RecorderState::Recording && old(self).frame_queue.frames@.len()
                < old(self).frame_queue.max_size ==> {
                &&& final(self).frame_queue.max_size == old(self).frame_queue.max_size
                &&& final(self).frame_queue.frames@.len() == old(self).frame_queue.frames@.len() + 1
                &&& final(self).frame_queue.frames@.drop_last() == old(self).frame_queue.frames@
                &&& final(self).frame_queue.frames@.last().width == frame.width
                &&& final(self).frame_queue.frames@.last().height == frame.height
                &&& final(self).frame_queue.frames@.last().pixels@ == frame.pixels@
                &&& final(self).stats == (RecordingStats {
                    frames_recorded: (old(self).stats.frames_recorded + 1) as u64,
                    ..old(self).stats
                })
            },
    {
        if self.state != RecorderState::Recording {
            return Ok(());
        }
        if self.frame_queue.is_full() {
            self.stats.dropped_frames = self.stats.dropped_frames + 1;
            return Ok(());
        }
        let ghost before = self.frame_queue.frames@;
        self.frame_queue.push(frame.clone());
        assert(self.frame_queue.frames@.drop_last() =~= before);
        self.stats.frames_recorded = self.stats.frames_recorded + 1;
        Ok(())
    }

    /// Queue audio samples while recording, counting them. Outside a recording they
    /// are ignored.
    pub fn submit_audio(&mut self, samples: &[i16]) -> (r: Result<(), RecordingError>)
        requires
            old(self).stats.audio_samples + samples@.len() <= u64::MAX,
        ensures
            r is Ok,
            final(self).state == old(self).state,
            final(self).config == old(self).config,
            final(self).frame_queue == old(self).frame_queue,
            old(self).state != RecorderState::Recording ==> *final(self) == *old(self),
            old(self).state == RecorderState::Recording ==> final(self).audio_queue.samples@ == old(
                self,
            ).audio_queue.samples@ + samples@ && final(self).stats == (RecordingStats {
                audio_samples: (old(self).stats.audio_samples + samples@.len()) as u64,
                ..old(self).stats
            }),
    {
        if self.state != RecorderState::Recording {
            return Ok(());
        }
        let processed = self.audio_mixer.process(samples, self.config.audio_config.sample_rate);
        self.audio_queue.push(processed);
        self.stats.audio_samples = self.stats.audio_samples + samples.len() as u64;
        Ok(())
    }

    /// The format a screenshot is saved in, from the extension of its file name; an
    /// extension that names no known format is an error that carries it.
    pub fn take_screenshot(&self, extension: Option<&str>) -> (r: Result<ScreenshotFormat, RecordingError>)
        ensures
            screenshot_format_of(
                match extension {
                    Some(e) => Some(e@),
                    None => None,
                },
            ) matches Some(f) ==> (r matches Ok(g) && g == f),
            screenshot_format_of(
                match extension {
                    Some(e) => Some(e@),
                    None => None,
                },
            ) is None ==> (extension matches Some(e) && r matches Err(RecordingError::UnsupportedFormat(m)) && m@ == e@),
    {
        match extension {
            None => Ok(ScreenshotFormat::Png),
            Some(e) => {
                if str_eq(e, "png") {
                    Ok(ScreenshotFormat::Png)
                } else if str_eq(e, "jpg") || str_eq(e, "jpeg") {
                    Ok(ScreenshotFormat::Jpeg(95))
                } else if str_eq(e, "bmp") {
                    Ok(ScreenshotFormat::Bmp)
                } else {
                    Err(RecordingError::UnsupportedFormat(String::from_str(e)))
                }
            },
        }
    }

    /// Record a GIF clip of at most `duration_ms` to `gif_path` (the output path with a
    /// `gif` extension, which the host forms); only when idle.
    pub fn start_gif_recording(&mut self, duration_ms: u32, gif_path: &str) -> (r: Result<(), RecordingError>)
        ensures
            final(self).config.output_format == OutputFormat::Gif,
            final(self).config.gif_config.max_duration_ms == duration_ms,
            (r is Ok) == (old(self).state == RecorderState::Idle),
            r is Err ==> (r matches Err(RecordingError::AlreadyRecording) && final(self).state == old(self).state),
            r is Ok ==> final(self).state == RecorderState::Recording && final(self).output_path@ == gif_path@
                && final(self).stats == RecordingStats::zeroed(),
    {
        self.config.output_format = OutputFormat::Gif;
        self.config.gif_config.max_duration_ms = duration_ms;
        self.start_recording(gif_path)
    }
}

} // verus!
