//! Request and response models for transcoding.
//!
//! Fractional request fields are carried as scaled integers: speed and
//! volume factors in ten-thousandths, the loudness target in tenths of a
//! LUFS, fades in hundredths of a second. Out-of-range values (including
//! negative ones) are representable and rejected by validation.

use crate::enums::{AudioCodec, AudioFormat, AudioQuality, EqPreset, TranscodeStatus};
use vstd::prelude::*;

verus! {

/// Optional audio effects of a transcode request.
#[derive(Debug, Clone, Default)]
pub struct AudioFilters {
    /// Equalizer preset.
    pub eq_preset: Option<EqPreset>,
    /// Speed factor in ten-thousandths (10000 = unchanged); valid
    /// range [5000, 20000].
    pub speed: Option<i32>,
    /// Volume factor in ten-thousandths (10000 = unchanged); valid
    /// range [0, 20000].
    pub volume: Option<i32>,
}

/// A speed factor outside [0.5, 2.0].
pub open spec fn spec_bad_speed(f: AudioFilters) -> bool {
    match f.speed {
        Some(s) => s < 5000 || s > 20000,
        None => false,
    }
}

/// A volume factor outside [0.0, 2.0].
pub open spec fn spec_bad_volume(f: AudioFilters) -> bool {
    match f.volume {
        Some(v) => v < 0 || v > 20000,
        None => false,
    }
}

/// The first rule an [`AudioFilters`] value violates, if any.
pub open spec fn spec_filters_error(f: AudioFilters) -> Option<Seq<char>> {
    if spec_bad_speed(f) {
        Some("speed must be between 0.5 and 2.0"@)
    } else if spec_bad_volume(f) {
        Some("volume must be between 0.0 and 2.0"@)
    } else {
        None
    }
}

/// Whether any of the three effect fields is present.
pub open spec fn spec_has_filters(f: AudioFilters) -> bool {
    f.eq_preset is Some || f.speed is Some || f.volume is Some
}

impl AudioFilters {
    /// Checks the effect fields against their documented ranges,
    /// reporting the first violated rule.
    pub fn validate(&self) -> (r: Result<(), String>)
        ensures
            match r {
                Ok(()) => spec_filters_error(*self) is None,
                Err(e) => spec_filters_error(*self) == Some(e@),
            },
    {
        match self.speed {
            Some(speed) => {
                if speed < 5000 || speed > 20000 {
                    return Err(String::from_str("speed must be between 0.5 and 2.0"));
                }
            },
            None => {},
        }
        match self.volume {
            Some(volume) => {
                if volume < 0 || volume > 20000 {
                    return Err(String::from_str("volume must be between 0.0 and 2.0"));
                }
            },
            None => {},
        }
        Ok(())
    }

    /// Whether any effect is requested at all.
    pub fn has_filters(&self) -> (r: bool)
        ensures
            r == spec_has_filters(*self),
    {
        self.eq_preset.is_some() || self.speed.is_some() || self.volume.is_some()
    }
}

/// A raw transcode request: everything but the source URL is optional
/// and defaults as documented.
#[derive(Debug, Clone)]
pub struct TranscodeRequest {
    /// URL of the source audio; required, must be non-empty.
    pub source_url: String,
    /// Target container format.
    pub format: AudioFormat,
    /// Accepted alias for `format` in the wire model; not interpreted here.
    pub output_format: Option<String>,
    /// Audio codec.
    pub codec: AudioCodec,
    /// Quality tier.
    pub quality: AudioQuality,
    /// Bitrate in kbit/s; defaults from the quality table. Valid range
    /// [8, 512].
    pub bitrate: Option<u32>,
    /// Sample rate in Hz; defaults from the quality table.
    pub sample_rate: Option<u32>,
    /// Channel count (1 = mono, 2 = stereo); defaults to 2.
    pub channels: Option<u8>,
    /// Optional audio effects.
    pub audio_filters: Option<AudioFilters>,
    /// Whether to apply loudness normalization.
    pub normalize: bool,
    /// Normalization target in tenths of a LUFS (default -160); valid
    /// range [-700, 0].
    pub target_loudness: i32,
    /// Fade-in duration in hundredths of a second; valid range [0, 3000].
    pub fade_in: Option<i32>,
    /// Fade-out duration in hundredths of a second; valid range [0, 3000].
    /// Accepted and validated, but not compiled into the filter chain.
    pub fade_out: Option<i32>,
}

/// A bitrate outside [8, 512] kbit/s.
pub open spec fn spec_bad_bitrate(r: TranscodeRequest) -> bool {
    match r.bitrate {
        Some(b) => b < 8 || b > 512,
        None => false,
    }
}

/// A sample rate not in the fixed set of supported rates.
pub open spec fn spec_bad_sample_rate(r: TranscodeRequest) -> bool {
    match r.sample_rate {
        Some(sr) => !(sr == 8000 || sr == 12000 || sr == 16000 || sr == 24000 || sr == 44100
            || sr == 48000 || sr == 96000),
        None => false,
    }
}

/// A channel count other than 1 or 2.
pub open spec fn spec_bad_channels(r: TranscodeRequest) -> bool {
    match r.channels {
        Some(c) => c < 1 || c > 2,
        None => false,
    }
}

/// The error of the nested effect fields, if any.
pub open spec fn spec_nested_filters_error(r: TranscodeRequest) -> Option<Seq<char>> {
    match r.audio_filters {
        Some(f) => spec_filters_error(f),
        None => None,
    }
}

/// A fade-in outside [0, 30] seconds.
pub open spec fn spec_bad_fade_in(r: TranscodeRequest) -> bool {
    match r.fade_in {
        Some(x) => x < 0 || x > 3000,
        None => false,
    }
}

/// A fade-out outside [0, 30] seconds.
pub open spec fn spec_bad_fade_out(r: TranscodeRequest) -> bool {
    match r.fade_out {
        Some(x) => x < 0 || x > 3000,
        None => false,
    }
}

/// A loudness target outside [-70, 0] LUFS.
pub open spec fn spec_bad_loudness(r: TranscodeRequest) -> bool {
    r.target_loudness < -700 || r.target_loudness > 0
}

/// The first rule a request violates, if any, with its exact message;
/// rules are checked in a fixed order.
pub open spec fn spec_request_error(r: TranscodeRequest) -> Option<Seq<char>> {
    if r.source_url@.len() == 0 {
        Some("source_url is required"@)
    } else if spec_bad_bitrate(r) {
        Some("bitrate must be between 8 and 512 kbps"@)
    } else if spec_bad_sample_rate(r) {
        Some("sample_rate must be one of: [8000, 12000, 16000, 24000, 44100, 48000, 96000]"@)
    } else if spec_bad_channels(r) {
        Some("channels must be 1 (mono) or 2 (stereo)"@)
    } else if spec_nested_filters_error(r) is Some {
        spec_nested_filters_error(r)
    } else if spec_bad_fade_in(r) {
        Some("fade_in must be between 0 and 30 seconds"@)
    } else if spec_bad_fade_out(r) {
        Some("fade_out must be between 0 and 30 seconds"@)
    } else if spec_bad_loudness(r) {
        Some("target_loudness must be between -70 and 0 LUFS"@)
    } else {
        None
    }
}

impl TranscodeRequest {
    /// Checks every request field against its documented range, reporting
    /// the first violated rule with its exact message.
    pub fn validate(&self) -> (r: Result<(), String>)
        ensures
            match r {
                Ok(()) => spec_request_error(*self) is None,
                Err(e) => spec_request_error(*self) == Some(e@),
            },
    {
        if self.source_url.as_str().is_empty() {
            return Err(String::from_str("source_url is required"));
        }
        match self.bitrate {
            Some(bitrate) => {
                if bitrate < 8 || bitrate > 512 {
                    return Err(String::from_str("bitrate must be between 8 and 512 kbps"));
                }
            },
            None => {},
        }
        match self.sample_rate {
            Some(sr) => {
                if !(sr == 8000 || sr == 12000 || sr == 16000 || sr == 24000 || sr == 44100
                    || sr == 48000 || sr == 96000) {
                    return Err(
                        String::from_str(
                            "sample_rate must be one of: [8000, 12000, 16000, 24000, 44100, 48000, 96000]",
                        ),
                    );
                }
            },
            None => {},
        }
        match self.channels {
            Some(ch) => {
                if ch < 1 || ch > 2 {
                    return Err(String::from_str("channels must be 1 (mono) or 2 (stereo)"));
                }
            },
            None => {},
        }
        match &self.audio_filters {
            Some(filters) => {
                match filters.validate() {
                    Ok(()) => {},
                    Err(e) => {
                        return Err(e);
                    },
                }
            },
            None => {},
        }
        match self.fade_in {
            Some(fade) => {
                if fade < 0 || fade > 3000 {
                    return Err(String::from_str("fade_in must be between 0 and 30 seconds"));
                }
            },
            None => {},
        }
        match self.fade_out {
            Some(fade) => {
                if fade < 0 || fade > 3000 {
                    return Err(String::from_str("fade_out must be between 0 and 30 seconds"));
                }
            },
            None => {},
        }
        if self.target_loudness < -700 || self.target_loudness > 0 {
            return Err(String::from_str("target_loudness must be between -70 and 0 LUFS"));
        }
        Ok(())
    }
}

/// The initial response returned when a transcode session starts.
#[derive(Debug, Clone)]
pub struct TranscodeResponse {
    /// Unique id of the transcode session.
    pub session_id: String,
    /// Session status.
    pub status: TranscodeStatus,
    /// Content type of the resulting stream.
    pub content_type: String,
    /// Optional informational message.
    pub message: Option<String>,
}

impl TranscodeResponse {
    /// A fresh response in the processing state, with no message.
    pub fn new(session_id: String, content_type: &str) -> (r: TranscodeResponse)
        ensures
            r.session_id == session_id,
            r.status == TranscodeStatus::Processing,
            r.content_type@ == content_type@,
            r.message is None,
    {
        TranscodeResponse {
            session_id,
            status: TranscodeStatus::Processing,
            content_type: String::from_str(content_type),
            message: None,
        }
    }

    /// The same response with an informational message attached.
    pub fn with_message(self, message: &str) -> (r: TranscodeResponse)
        ensures
            r.session_id == self.session_id,
            r.status == self.status,
            r.content_type == self.content_type,
            match r.message {
                Some(m) => m@ == message@,
                None => false,
            },
    {
        TranscodeResponse {
            session_id: self.session_id,
            status: self.status,
            content_type: self.content_type,
            message: Some(String::from_str(message)),
        }
    }
}

} // verus!
