//! Closed domain types: container formats, codecs, quality tiers, equalizer
//! presets and session statuses, with the fixed lookup tables between them.

use vstd::prelude::*;

verus! {

/// Supported output container formats.
#[derive(Debug, Clone, Copy, PartialEq, Eq, Hash, Structural)]
pub enum AudioFormat {
    /// Ogg container (for Opus).
    Opus,
    /// MP3.
    Mp3,
    /// AAC in an ADTS container.
    Aac,
    /// Raw PCM (signed 16-bit little-endian).
    Pcm,
    /// WAV container.
    Wav,
    /// FLAC.
    Flac,
}

/// Supported audio codecs.
#[derive(Debug, Clone, Copy, PartialEq, Eq, Hash, Structural)]
pub enum AudioCodec {
    /// libopus, a high-quality Opus encoder.
    Libopus,
    /// libmp3lame, an MP3 encoder.
    Libmp3lame,
    /// The encoder's native AAC codec.
    Aac,
    /// PCM signed 16-bit little-endian.
    PcmS16le,
    /// FLAC lossless.
    Flac,
}

/// Quality tiers, ordered from most economical to lossless.
#[derive(Debug, Clone, Copy, PartialEq, Eq, Hash, Structural)]
pub enum AudioQuality {
    /// Low quality (saves bandwidth).
    Low,
    /// Medium quality (balanced).
    Medium,
    /// High quality.
    High,
    /// Maximum quality (lossless where possible).
    Lossless,
}

/// Status of a transcode session.
#[derive(Debug, Clone, Copy, PartialEq, Eq, Hash, Structural)]
pub enum TranscodeStatus {
    /// Waiting to be processed.
    Queued,
    /// Being processed.
    Processing,
    /// Output is being streamed.
    Streaming,
    /// Finished successfully.
    Completed,
    /// Failed.
    Failed,
    /// Cancelled.
    Cancelled,
}

/// Equalizer presets.
#[derive(Debug, Clone, Copy, PartialEq, Eq, Hash, Structural)]
pub enum EqPreset {
    /// No change (pass-through).
    Flat,
    /// Boosted low frequencies (+6 dB at 100 Hz).
    BassBoost,
    /// Voice optimization (high-pass at 80 Hz, presence boost).
    Voice,
    /// Boosted high frequencies (+4 dB at 8 kHz).
    Treble,
}

/// MIME content type of each container format.
pub open spec fn spec_content_type(f: AudioFormat) -> Seq<char> {
    match f {
        AudioFormat::Opus => "audio/ogg"@,
        AudioFormat::Mp3 => "audio/mpeg"@,
        AudioFormat::Aac => "audio/aac"@,
        AudioFormat::Pcm => "audio/pcm"@,
        AudioFormat::Wav => "audio/wav"@,
        AudioFormat::Flac => "audio/flac"@,
    }
}

/// Container name each format is requested under from the encoder.
pub open spec fn spec_ffmpeg_format(f: AudioFormat) -> Seq<char> {
    match f {
        AudioFormat::Opus => "ogg"@,
        AudioFormat::Mp3 => "mp3"@,
        AudioFormat::Aac => "adts"@,
        AudioFormat::Pcm => "s16le"@,
        AudioFormat::Wav => "wav"@,
        AudioFormat::Flac => "flac"@,
    }
}

/// File extension of each container format.
pub open spec fn spec_extension(f: AudioFormat) -> Seq<char> {
    match f {
        AudioFormat::Opus => "ogg"@,
        AudioFormat::Mp3 => "mp3"@,
        AudioFormat::Aac => "aac"@,
        AudioFormat::Pcm => "pcm"@,
        AudioFormat::Wav => "wav"@,
        AudioFormat::Flac => "flac"@,
    }
}

/// Lower-case name of each container format.
pub open spec fn spec_format_label(f: AudioFormat) -> Seq<char> {
    match f {
        AudioFormat::Opus => "opus"@,
        AudioFormat::Mp3 => "mp3"@,
        AudioFormat::Aac => "aac"@,
        AudioFormat::Pcm => "pcm"@,
        AudioFormat::Wav => "wav"@,
        AudioFormat::Flac => "flac"@,
    }
}

impl AudioFormat {
    /// Returns the MIME content type for this format.
    pub fn content_type(&self) -> (r: &'static str)
        ensures
            r@ == spec_content_type(*self),
    {
        match self {
            AudioFormat::Opus => "audio/ogg",
            AudioFormat::Mp3 => "audio/mpeg",
            AudioFormat::Aac => "audio/aac",
            AudioFormat::Pcm => "audio/pcm",
            AudioFormat::Wav => "audio/wav",
            AudioFormat::Flac => "audio/flac",
        }
    }

    /// Returns the container name the encoder knows this format by.
    pub fn ffmpeg_format(&self) -> (r: &'static str)
        ensures
            r@ == spec_ffmpeg_format(*self),
    {
        match self {
            AudioFormat::Opus => "ogg",
            AudioFormat::Mp3 => "mp3",
            AudioFormat::Aac => "adts",
            AudioFormat::Pcm => "s16le",
            AudioFormat::Wav => "wav",
            AudioFormat::Flac => "flac",
        }
    }

    /// Returns the file extension for this format.
    pub fn extension(&self) -> (r: &'static str)
        ensures
            r@ == spec_extension(*self),
    {
        match self {
            AudioFormat::Opus => "ogg",
            AudioFormat::Mp3 => "mp3",
            AudioFormat::Aac => "aac",
            AudioFormat::Pcm => "pcm",
            AudioFormat::Wav => "wav",
            AudioFormat::Flac => "flac",
        }
    }

    /// Returns the lower-case name of this format.
    pub fn label(&self) -> (r: &'static str)
        ensures
            r@ == spec_format_label(*self),
    {
        match self {
            AudioFormat::Opus => "opus",
            AudioFormat::Mp3 => "mp3",
            AudioFormat::Aac => "aac",
            AudioFormat::Pcm => "pcm",
            AudioFormat::Wav => "wav",
            AudioFormat::Flac => "flac",
        }
    }
}

/// Name each codec is requested under from the encoder.
pub open spec fn spec_ffmpeg_codec(c: AudioCodec) -> Seq<char> {
    match c {
        AudioCodec::Libopus => "libopus"@,
        AudioCodec::Libmp3lame => "libmp3lame"@,
        AudioCodec::Aac => "aac"@,
        AudioCodec::PcmS16le => "pcm_s16le"@,
        AudioCodec::Flac => "flac"@,
    }
}

/// The fixed codec/container compatibility table.
pub open spec fn spec_compatible(c: AudioCodec, f: AudioFormat) -> bool {
    ||| (c == AudioCodec::Libopus && f == AudioFormat::Opus)
    ||| (c == AudioCodec::Libmp3lame && f == AudioFormat::Mp3)
    ||| (c == AudioCodec::Aac && f == AudioFormat::Aac)
    ||| (c == AudioCodec::PcmS16le && f == AudioFormat::Pcm)
    ||| (c == AudioCodec::PcmS16le && f == AudioFormat::Wav)
    ||| (c == AudioCodec::Flac && f == AudioFormat::Flac)
}

impl AudioCodec {
    /// Returns the name the encoder knows this codec by.
    pub fn ffmpeg_codec(&self) -> (r: &'static str)
        ensures
            r@ == spec_ffmpeg_codec(*self),
    {
        match self {
            AudioCodec::Libopus => "libopus",
            AudioCodec::Libmp3lame => "libmp3lame",
            AudioCodec::Aac => "aac",
            AudioCodec::PcmS16le => "pcm_s16le",
            AudioCodec::Flac => "flac",
        }
    }

    /// Checks whether this codec can be muxed into the given container.
    pub fn is_compatible_with(&self, format: AudioFormat) -> (r: bool)
        ensures
            r == spec_compatible(*self, format),
    {
        match (self, format) {
            (AudioCodec::Libopus, AudioFormat::Opus) => true,
            (AudioCodec::Libmp3lame, AudioFormat::Mp3) => true,
            (AudioCodec::Aac, AudioFormat::Aac) => true,
            (AudioCodec::PcmS16le, AudioFormat::Pcm) => true,
            (AudioCodec::PcmS16le, AudioFormat::Wav) => true,
            (AudioCodec::Flac, AudioFormat::Flac) => true,
            _ => false,
        }
    }

    /// Returns the lower-case name of this codec (same as its encoder name).
    pub fn label(&self) -> (r: &'static str)
        ensures
            r@ == spec_ffmpeg_codec(*self),
    {
        self.ffmpeg_codec()
    }
}

/// The fixed default-bitrate table, in kbit/s; 0 means "not applicable"
/// (PCM and lossless codecs take no bitrate argument).
pub open spec fn spec_bitrate_for_codec(q: AudioQuality, c: AudioCodec) -> u32 {
    match c {
        AudioCodec::Libopus => match q {
            AudioQuality::Low => 32u32,
            AudioQuality::Medium => 64u32,
            AudioQuality::High => 128u32,
            AudioQuality::Lossless => 256u32,
        },
        AudioCodec::Libmp3lame => match q {
            AudioQuality::Low => 64u32,
            AudioQuality::Medium => 128u32,
            AudioQuality::High => 192u32,
            AudioQuality::Lossless => 320u32,
        },
        AudioCodec::Aac => match q {
            AudioQuality::Low => 48u32,
            AudioQuality::Medium => 96u32,
            AudioQuality::High => 160u32,
            AudioQuality::Lossless => 256u32,
        },
        AudioCodec::PcmS16le => 0u32,
        AudioCodec::Flac => 0u32,
    }
}

/// The fixed default-sample-rate table, in Hz.
pub open spec fn spec_sample_rate(q: AudioQuality) -> u32 {
    match q {
        AudioQuality::Low => 24000u32,
        AudioQuality::Medium => 44100u32,
        AudioQuality::High => 48000u32,
        AudioQuality::Lossless => 48000u32,
    }
}

impl AudioQuality {
    /// Returns the default bitrate in kbit/s for this tier and codec;
    /// 0 means the codec takes no bitrate argument.
    pub fn bitrate_for_codec(&self, codec: AudioCodec) -> (r: u32)
        ensures
            r == spec_bitrate_for_codec(*self, codec),
    {
        match (self, codec) {
            (AudioQuality::Low, AudioCodec::Libopus) => 32,
            (AudioQuality::Medium, AudioCodec::Libopus) => 64,
            (AudioQuality::High, AudioCodec::Libopus) => 128,
            (AudioQuality::Lossless, AudioCodec::Libopus) => 256,
            (AudioQuality::Low, AudioCodec::Libmp3lame) => 64,
            (AudioQuality::Medium, AudioCodec::Libmp3lame) => 128,
            (AudioQuality::High, AudioCodec::Libmp3lame) => 192,
            (AudioQuality::Lossless, AudioCodec::Libmp3lame) => 320,
            (AudioQuality::Low, AudioCodec::Aac) => 48,
            (AudioQuality::Medium, AudioCodec::Aac) => 96,
            (AudioQuality::High, AudioCodec::Aac) => 160,
            (AudioQuality::Lossless, AudioCodec::Aac) => 256,
            (_, AudioCodec::PcmS16le) => 0,
            (_, AudioCodec::Flac) => 0,
        }
    }

    /// Returns the default sample rate in Hz for this tier.
    pub fn sample_rate(&self) -> (r: u32)
        ensures
            r == spec_sample_rate(*self),
    {
        match self {
            AudioQuality::Low => 24000,
            AudioQuality::Medium => 44100,
            AudioQuality::High => 48000,
            AudioQuality::Lossless => 48000,
        }
    }

    /// Returns the lower-case name of this tier.
    pub fn label(&self) -> (r: &'static str)
        ensures
            (*self == AudioQuality::Low ==> r@ == "low"@)
                && (*self == AudioQuality::Medium ==> r@ == "medium"@)
                && (*self == AudioQuality::High ==> r@ == "high"@)
                && (*self == AudioQuality::Lossless ==> r@ == "lossless"@),
    {
        match self {
            AudioQuality::Low => "low",
            AudioQuality::Medium => "medium",
            AudioQuality::High => "high",
            AudioQuality::Lossless => "lossless",
        }
    }
}

/// Every quality tier maps a PCM-family or lossless codec to bitrate 0:
/// those codecs never get an explicit bitrate argument.
pub proof fn lemma_lossless_codecs_take_no_bitrate()
    ensures
        forall|q: AudioQuality| spec_bitrate_for_codec(q, AudioCodec::PcmS16le) == 0,
        forall|q: AudioQuality| spec_bitrate_for_codec(q, AudioCodec::Flac) == 0,
{
}

impl TranscodeStatus {
    /// Returns the snake-case name of this status.
    pub fn label(&self) -> (r: &'static str)
        ensures
            (*self == TranscodeStatus::Queued ==> r@ == "queued"@)
                && (*self == TranscodeStatus::Processing ==> r@ == "processing"@)
                && (*self == TranscodeStatus::Streaming ==> r@ == "streaming"@)
                && (*self == TranscodeStatus::Completed ==> r@ == "completed"@)
                && (*self == TranscodeStatus::Failed ==> r@ == "failed"@)
                && (*self == TranscodeStatus::Cancelled ==> r@ == "cancelled"@),
    {
        match self {
            TranscodeStatus::Queued => "queued",
            TranscodeStatus::Processing => "processing",
            TranscodeStatus::Streaming => "streaming",
            TranscodeStatus::Completed => "completed",
            TranscodeStatus::Failed => "failed",
            TranscodeStatus::Cancelled => "cancelled",
        }
    }
}

impl EqPreset {
    /// Returns a human-readable description of this preset.
    pub fn description(&self) -> (r: &'static str)
        ensures
            (*self == EqPreset::Flat ==> r@ == "No EQ applied"@)
                && (*self == EqPreset::BassBoost ==> r@ == "Enhanced bass (+6dB @ 100Hz)"@)
                && (*self == EqPreset::Voice ==> r@ == "Voice optimized (highpass 80Hz, presence boost)"@)
                && (*self == EqPreset::Treble ==> r@ == "Enhanced treble (+4dB @ 8kHz)"@),
    {
        match self {
            EqPreset::Flat => "No EQ applied",
            EqPreset::BassBoost => "Enhanced bass (+6dB @ 100Hz)",
            EqPreset::Voice => "Voice optimized (highpass 80Hz, presence boost)",
            EqPreset::Treble => "Enhanced treble (+4dB @ 8kHz)",
        }
    }

    /// Returns the snake-case name of this preset.
    pub fn label(&self) -> (r: &'static str)
        ensures
            (*self == EqPreset::Flat ==> r@ == "flat"@)
                && (*self == EqPreset::BassBoost ==> r@ == "bass_boost"@)
                && (*self == EqPreset::Voice ==> r@ == "voice"@)
                && (*self == EqPreset::Treble ==> r@ == "treble"@),
    {
        match self {
            EqPreset::Flat => "flat",
            EqPreset::BassBoost => "bass_boost",
            EqPreset::Voice => "voice",
            EqPreset::Treble => "treble",
        }
    }
}

} // verus!
