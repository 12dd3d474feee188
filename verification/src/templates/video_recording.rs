//! Recording support: frame and audio queues, GIF clip collection with its duration
//! limit, the streaming state machine, and the encoder configurations.

use vstd::prelude::*;
use vstd::string::StringExecFns;
use std::collections::VecDeque;

pub mod recorder;

verus! {

/// An RGBA frame.
pub struct Frame {
    pub width: u32,
    pub height: u32,
    pub pixels: Vec<u8>,
}

impl Clone for Frame {
    fn clone(&self) -> (r: Self)
        ensures
            r.width == self.width,
            r.height == self.height,
            r.pixels@ == self.pixels@,
    {
        Frame { width: self.width, height: self.height, pixels: self.pixels.clone() }
    }
}

/// Output container formats.
#[derive(Debug, Clone, Copy, PartialEq, Eq, Structural)]
pub enum OutputFormat {
    MP4,
    WebM,
    MKV,
    AVI,
    Gif,
    Raw,
}

/// Video codecs.
#[derive(Debug, Clone, Copy, PartialEq, Eq, Structural)]
pub enum VideoCodec {
    H264,
    H265,
    VP9,
    AV1,
}

/// Audio codecs.
#[derive(Debug, Clone, Copy, PartialEq, Eq, Structural)]
pub enum AudioCodec {
    AAC,
    MP3,
    Opus,
    FLAC,
}

/// Where a recording stands.
#[derive(Debug, Clone, Copy, PartialEq, Eq, Structural)]
pub enum RecorderState {
    Idle,
    Recording,
    Paused,
    Error,
}

/// Where a stream stands.
#[derive(Debug, Clone, Copy, PartialEq, Eq, Structural)]
pub enum StreamState {
    Disconnected,
    Connecting,
    Streaming,
    Error,
}

/// Recording counters; the encoding time in nanoseconds.
#[derive(Debug, Clone, Copy, PartialEq, Eq, Structural)]
pub struct RecordingStats {
    pub frames_recorded: u64,
    pub dropped_frames: u64,
    pub audio_samples: u64,
    pub bytes_written: u64,
    pub encoding_time: u64,
}

impl RecordingStats {
    /// Every counter at zero.
    pub open spec fn zeroed() -> Self {
        RecordingStats { frames_recorded: 0, dropped_frames: 0, audio_samples: 0, bytes_written: 0, encoding_time: 0 }
    }
}

impl Default for RecordingStats {
    fn default() -> (r: Self)
        ensures
            r == RecordingStats::zeroed(),
    {
        RecordingStats { frames_recorded: 0, dropped_frames: 0, audio_samples: 0, bytes_written: 0, encoding_time: 0 }
    }
}

/// Recording errors; an I/O error carries its description.
#[derive(Debug)]
pub enum RecordingError {
    AlreadyRecording,
    NotRecording,
    NotStreaming,
    EncoderError,
    IoError(String),
    UnsupportedFormat(String),
    GifDurationExceeded,
}

/// Encoder settings.
pub struct EncoderConfig {
    pub video_codec: VideoCodec,
    pub audio_codec: AudioCodec,
    pub width: u32,
    pub height: u32,
    pub framerate: u32,
    /// Kilobits per second.
    pub bitrate: u32,
    /// CRF value, 0 to 51, lower is better.
    pub quality: u32,
    pub h264_preset: String,
    pub h265_preset: String,
    pub audio_enabled: bool,
    pub audio_sample_rate: u32,
}

impl Default for EncoderConfig {
    fn default() -> (r: Self)
        ensures
            r.video_codec == VideoCodec::H264 && r.audio_codec == AudioCodec::AAC,
            r.width == 1280 && r.height == 720 && r.framerate == 60,
            r.bitrate == 4000 && r.quality == 23,
            r.h264_preset@ == "medium"@ && r.h265_preset@ == "medium"@,
            r.audio_enabled && r.audio_sample_rate == 44100,
    {
        EncoderConfig {
            video_codec: VideoCodec::H264,
            audio_codec: AudioCodec::AAC,
            width: 1280,
            height: 720,
            framerate: 60,
            bitrate: 4000,
            quality: 23,
            h264_preset: String::from_str("medium"),
            h265_preset: String::from_str("medium"),
            audio_enabled: true,
            audio_sample_rate: 44100,
        }
    }
}

/// GIF clip settings.
#[derive(Debug, Clone, Copy, PartialEq, Eq, Structural)]
pub struct GifConfig {
    pub max_width: u32,
    pub max_height: u32,
    pub frame_delay_ms: u32,
    pub max_duration_ms: u32,
    pub dithering: bool,
    pub color_count: u32,
}

impl Default for GifConfig {
    fn default() -> (r: Self)
        ensures
            r == (GifConfig {
                max_width: 640,
                max_height: 480,
                frame_delay_ms: 33,
                max_duration_ms: 10000,
                dithering: true,
                color_count: 256,
            }),
    {
        GifConfig { max_width: 640, max_height: 480, frame_delay_ms: 33, max_duration_ms: 10000, dithering: true, color_count: 256 }
    }
}

/// Audio settings.
#[derive(Debug, Clone, Copy, PartialEq, Eq, Structural)]
pub struct AudioConfig {
    pub sample_rate: u32,
}

impl Default for AudioConfig {
    fn default() -> (r: Self)
        ensures
            r.sample_rate == 44100,
    {
        AudioConfig { sample_rate: 44100 }
    }
}

/// Frames waiting for the encoder, at most `max_size`; a push to a full queue drops
/// the oldest.
pub struct FrameQueue {
    pub frames: VecDeque<Frame>,
    pub max_size: usize,
}

impl FrameQueue {
    pub fn new(max_size: usize) -> (r: Self)
        ensures
            r.frames@.len() == 0,
            r.max_size == max_size,
    {
        FrameQueue { frames: VecDeque::new(), max_size }
    }

    /// Queue a frame, dropping the oldest if the queue is full.
    pub fn push(&mut self, frame: Frame)
        ensures
            final(self).max_size == old(self).max_size,
            final(self).frames@ == (if old(self).frames@.len() >= old(self).max_size && old(self).frames@.len() > 0 {
                old(self).frames@.drop_first().push(frame)
            } else {
                old(self).frames@.push(frame)
            }),
    {
        if self.frames.len() >= self.max_size {
            self.frames.pop_front();
        }
        self.frames.push_back(frame);
    }

    /// Take the oldest frame.
    pub fn pop(&mut self) -> (r: Option<Frame>)
        ensures
            final(self).max_size == old(self).max_size,
            old(self).frames@.len() == 0 ==> r is None && final(self).frames@ == old(self).frames@,
            old(self).frames@.len() > 0 ==> (r == Some(old(self).frames@[0]) && final(self).frames@ == old(self).frames@.drop_first()),
    {
        self.frames.pop_front()
    }

    /// Whether the queue holds `max_size` frames or more.
    pub fn is_full(&self) -> (r: bool)
        ensures
            r == (self.frames@.len() >= self.max_size),
    {
        self.frames.len() >= self.max_size
    }
}

/// Audio samples waiting for the encoder.
pub struct AudioQueue {
    pub samples: VecDeque<i16>,
}

impl AudioQueue {
    pub fn new() -> (r: Self)
        ensures
            r.samples@.len() == 0,
    {
        AudioQueue { samples: VecDeque::new() }
    }

    /// Append samples.
    pub fn push(&mut self, samples: Vec<i16>)
        ensures
            final(self).samples@ == old(self).samples@ + samples@,
    {
        let ghost s0 = self.samples@;
        let mut i: usize = 0;
        while i < samples.len()
            invariant
                i <= samples@.len(),
                self.samples@ == s0 + samples@.take(i as int),
            decreases samples@.len() - i,
        {
            self.samples.push_back(samples[i]);
            i = i + 1;
            assert(self.samples@ =~= s0 + samples@.take(i as int));
        }
        assert(samples@.take(samples@.len() as int) =~= samples@);
    }

    /// Take the oldest `size` samples if that many are queued.
    pub fn pop_chunk(&mut self, size: usize) -> (r: Option<Vec<i16>>)
        ensures
            old(self).samples@.len() >= size ==> (r matches Some(v) && v@ == old(self).samples@.take(size as int)
                && final(self).samples@ == old(self).samples@.skip(size as int)),
            old(self).samples@.len() < size ==> r is None && final(self).samples@ == old(self).samples@,
    {
        if self.samples.len() < size {
            return None;
        }
        let ghost s0 = self.samples@;
        let mut chunk: Vec<i16> = Vec::new();
        let mut i: usize = 0;
        while i < size
            invariant
                i <= size <= s0.len(),
                chunk@ == s0.take(i as int),
                self.samples@ == s0.skip(i as int),
            decreases size - i,
        {
            match self.samples.pop_front() {
                Some(x) => chunk.push(x),
                None => {},
            }
            i = i + 1;
            assert(chunk@ =~= s0.take(i as int));
            assert(self.samples@ =~= s0.skip(i as int));
        }
        Some(chunk)
    }
}

/// Audio processing before encoding: passes samples through.
#[derive(Debug, Clone, Copy, PartialEq, Eq, Structural)]
pub struct AudioMixer;

impl AudioMixer {
    pub fn new() -> (r: Self) {
        AudioMixer
    }

    /// The samples to encode: the input unchanged.
    pub fn process(&self, samples: &[i16], rate: u32) -> (r: Vec<i16>)
        ensures
            r@ == samples@,
    {
        let mut v: Vec<i16> = Vec::new();
        let mut i: usize = 0;
        while i < samples.len()
            invariant
                i <= samples@.len(),
                v@ == samples@.take(i as int),
            decreases samples@.len() - i,
        {
            v.push(samples[i]);
            i = i + 1;
            assert(v@ =~= samples@.take(i as int));
        }
        assert(samples@.take(samples@.len() as int) =~= samples@);
        v
    }
}

/// The colour palette of a GIF clip.
#[derive(Debug, Clone, Copy, PartialEq, Eq, Structural)]
pub struct ColorPalette;

impl ColorPalette {
    pub fn new() -> (r: Self) {
        ColorPalette
    }

    /// A frame reduced to the palette: frames are kept as they are.
    pub fn quantize(&self, frame: &Frame) -> (r: Result<Frame, RecordingError>)
        ensures
            r matches Ok(f) && f.width == frame.width && f.height == frame.height && f.pixels@ == frame.pixels@,
    {
        Ok(frame.clone())
    }

    /// The palette in GIF form: 256 black entries.
    pub fn to_gif_palette(&self) -> (r: [u8; 768])
        ensures
            forall|i: int| 0 <= i < 768 ==> r@[i] == 0,
    {
        [0; 768]
    }
}

/// A GIF clip being collected.
pub struct GifRecorder {
    pub frames: Vec<Frame>,
    pub config: GifConfig,
    pub palette: ColorPalette,
}

impl GifRecorder {
    pub fn new(config: GifConfig) -> (r: Self)
        ensures
            r.frames@.len() == 0,
            r.config == config,
    {
        GifRecorder { frames: Vec::new(), config, palette: ColorPalette::new() }
    }

    /// Add a frame that fits the clip's maximum size (larger frames are scaled down to
    /// fit first). The frame is kept; once the clip reaches its maximum duration the
    /// error says so.
    pub fn add_frame(&mut self, frame: &Frame) -> (r: Result<(), RecordingError>)
        requires
            frame.width <= old(self).config.max_width,
            frame.height <= old(self).config.max_height,
            (old(self).frames@.len() + 1) * old(self).config.frame_delay_ms <= u32::MAX,
        ensures
            final(self).config == old(self).config,
            final(self).frames@.len() == old(self).frames@.len() + 1,
            forall|i: int| 0 <= i < old(self).frames@.len() ==> final(self).frames@[i] == old(self).frames@[i],
            final(self).frames@.last().width == frame.width,
            final(self).frames@.last().height == frame.height,
            final(self).frames@.last().pixels@ == frame.pixels@,
            (r is Ok) == ((old(self).frames@.len() + 1) * old(self).config.frame_delay_ms < old(self).config.max_duration_ms),
            r is Err ==> r matches Err(RecordingError::GifDurationExceeded),
    {
        let quantized = match self.palette.quantize(frame) {
            Ok(f) => f,
            Err(e) => {
                return Err(e);
            },
        };
        self.frames.push(quantized);
        let n: u64 = self.frames.len() as u64;
        let delay: u64 = self.config.frame_delay_ms as u64;
        assert(n == old(self).frames@.len() + 1);
        assert(n * delay <= u32::MAX);
        let duration: u64 = n * delay;
        if duration >= self.config.max_duration_ms as u64 {
            return Err(RecordingError::GifDurationExceeded);
        }
        Ok(())
    }
}

/// The stream encoder: the process that it drives is the host's.
#[derive(Debug, Clone, Copy, PartialEq, Eq, Structural)]
pub struct StreamEncoder;

impl StreamEncoder {
    pub fn new() -> (r: Self) {
        StreamEncoder
    }

    /// Start encoding with the given encoder arguments.
    pub fn start_ffmpeg(&mut self, args: Vec<String>) -> (r: Result<(), RecordingError>)
        ensures
            r is Ok,
    {
        Ok(())
    }

    /// Send a frame.
    pub fn send_frame(&mut self, frame: &Frame) -> (r: Result<(), RecordingError>)
        ensures
            r is Ok,
            *final(self) == *old(self),
    {
        Ok(())
    }

    /// Stop encoding.
    pub fn stop(&mut self) -> (r: Result<(), RecordingError>)
        ensures
            r is Ok,
            *final(self) == *old(self),
    {
        Ok(())
    }
}

/// The encoder arguments of a live stream to `url`.
pub open spec fn stream_args_of(url: Seq<char>) -> Seq<Seq<char>> {
    seq![
        "-re"@, "-f"@, "rawvideo"@, "-pixel_format"@, "rgba"@, "-video_size"@, "1280x720"@, "-framerate"@, "60"@,
        "-i"@, "pipe:0"@, "-c:v"@, "libx264"@, "-preset"@, "veryfast"@, "-tune"@, "zerolatency"@, "-b:v"@,
        "2500k"@, "-maxrate"@, "2500k"@, "-bufsize"@, "5000k"@, "-pix_fmt"@, "yuv420p"@, "-g"@, "120"@, "-c:a"@,
        "aac"@, "-b:a"@, "128k"@, "-ar"@, "44100"@, "-f"@, "flv"@, url,
    ]
}

/// A live stream to an RTMP server.
pub struct StreamingManager {
    pub rtmp_url: String,
    pub stream_key: String,
    pub encoder: StreamEncoder,
    pub state: StreamState,
}

impl StreamingManager {
    /// Disconnected.
    pub fn new(rtmp_url: String, stream_key: String) -> (r: Self)
        ensures
            r.rtmp_url == rtmp_url && r.stream_key == stream_key,
            r.state == StreamState::Disconnected,
    {
        StreamingManager { rtmp_url, stream_key, encoder: StreamEncoder::new(), state: StreamState::Disconnected }
    }

    /// The address streamed to: the server URL, a slash, and the stream key.
    pub fn stream_url(&self) -> (r: String)
        ensures
            r@ == self.rtmp_url@ + "/"@ + self.stream_key@,
    {
        let mut url = self.rtmp_url.clone();
        url.append("/");
        url.append(self.stream_key.as_str());
        url
    }

    /// The encoder arguments of a live stream: 1280x720 RGBA at 60 fps in, low-latency
    /// H.264 at 2500 kb/s and AAC at 128 kb/s out, as FLV to the stream address.
    pub fn stream_args(&self) -> (r: Vec<String>)
        ensures
            recorder::arg_views(r@) == stream_args_of(self.rtmp_url@ + "/"@ + self.stream_key@),
    {
        let mut a: Vec<String> = Vec::new();
        assert(recorder::arg_views(a@) =~= Seq::<Seq<char>>::empty());
        recorder::push_arg(&mut a, "-re");
        recorder::push_arg(&mut a, "-f");
        recorder::push_arg(&mut a, "rawvideo");
        recorder::push_arg(&mut a, "-pixel_format");
        recorder::push_arg(&mut a, "rgba");
        recorder::push_arg(&mut a, "-video_size");
        recorder::push_arg(&mut a, "1280x720");
        recorder::push_arg(&mut a, "-framerate");
        recorder::push_arg(&mut a, "60");
        recorder::push_arg(&mut a, "-i");
        recorder::push_arg(&mut a, "pipe:0");
        recorder::push_arg(&mut a, "-c:v");
        recorder::push_arg(&mut a, "libx264");
        recorder::push_arg(&mut a, "-preset");
        recorder::push_arg(&mut a, "veryfast");
        recorder::push_arg(&mut a, "-tune");
        recorder::push_arg(&mut a, "zerolatency");
        recorder::push_arg(&mut a, "-b:v");
        recorder::push_arg(&mut a, "2500k");
        recorder::push_arg(&mut a, "-maxrate");
        recorder::push_arg(&mut a, "2500k");
        recorder::push_arg(&mut a, "-bufsize");
        recorder::push_arg(&mut a, "5000k");
        recorder::push_arg(&mut a, "-pix_fmt");
        recorder::push_arg(&mut a, "yuv420p");
        recorder::push_arg(&mut a, "-g");
        recorder::push_arg(&mut a, "120");
        recorder::push_arg(&mut a, "-c:a");
        recorder::push_arg(&mut a, "aac");
        recorder::push_arg(&mut a, "-b:a");
        recorder::push_arg(&mut a, "128k");
        recorder::push_arg(&mut a, "-ar");
        recorder::push_arg(&mut a, "44100");
        recorder::push_arg(&mut a, "-f");
        recorder::push_arg(&mut a, "flv");
        recorder::push_owned(&mut a, self.stream_url());
        assert(recorder::arg_views(a@) =~= stream_args_of(self.rtmp_url@ + "/"@ + self.stream_key@));
        a
    }

    /// Start streaming: the encoder is started with `stream_args`.
    pub fn start_stream(&mut self) -> (r: Result<(), RecordingError>)
        ensures
            r is Ok,
            final(self).state == StreamState::Streaming,
            final(self).rtmp_url == old(self).rtmp_url && final(self).stream_key == old(self).stream_key,
    {
        let args = self.stream_args();
        match self.encoder.start_ffmpeg(args) {
            Ok(()) => {},
            Err(e) => {
                return Err(e);
            },
        }
        self.state = StreamState::Streaming;
        Ok(())
    }

    /// Send a frame; only while streaming.
    pub fn send_frame(&mut self, frame: &Frame) -> (r: Result<(), RecordingError>)
        ensures
            (r is Ok) == (old(self).state == StreamState::Streaming),
            r is Err ==> r matches Err(RecordingError::NotStreaming),
            *final(self) == *old(self),
    {
        if self.state != StreamState::Streaming {
            return Err(RecordingError::NotStreaming);
        }
        self.encoder.send_frame(frame)
    }

    /// Stop streaming.
    pub fn stop_stream(&mut self) -> (r: Result<(), RecordingError>)
        ensures
            r is Ok,
            *final(self) == (StreamingManager { state: StreamState::Disconnected, ..*old(self) }),
    {
        match self.encoder.stop() {
            Ok(()) => {},
            Err(e) => {
                return Err(e);
            },
        }
        self.state = StreamState::Disconnected;
        Ok(())
    }
}

} // verus!
