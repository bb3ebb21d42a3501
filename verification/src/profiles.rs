//! Transcode profiles: fully-resolved, immutable configurations and the
//! deterministic command-argument vector compiled from them.

use crate::digits::{dec_string, spec_dec};
use crate::enums::{
    spec_bitrate_for_codec, spec_ffmpeg_codec, spec_ffmpeg_format, spec_sample_rate, AudioCodec,
    AudioFormat,
};
use crate::filters::{chain, fade_in, loudnorm, spec_fade_in, spec_join, spec_loudnorm};
use crate::transcode::{spec_request_error, TranscodeRequest};
use vstd::prelude::*;

verus! {

/// A fully-resolved transcode configuration: every default applied, built
/// exactly once from a validated request and never mutated afterwards.
#[derive(Debug, Clone)]
pub struct TranscodeProfile {
    /// URL of the source audio.
    pub source_url: String,
    /// Output container format.
    pub format: AudioFormat,
    /// Audio codec.
    pub codec: AudioCodec,
    /// Bitrate in kbit/s; 0 means the codec takes no bitrate argument.
    pub bitrate: u32,
    /// Sample rate in Hz.
    pub sample_rate: u32,
    /// Channel count.
    pub channels: u8,
    /// Whether to apply loudness normalization.
    pub normalize: bool,
    /// Normalization target in tenths of a LUFS.
    pub target_loudness: i32,
    /// Fade-in duration in hundredths of a second.
    pub fade_in: Option<u32>,
    /// Fade-out duration in hundredths of a second; carried but not
    /// compiled into the filter chain.
    pub fade_out: Option<u32>,
}

/// The profile a request resolves to: explicit fields kept, absent ones
/// defaulted from the fixed quality tables (bitrate, sample rate) or to
/// stereo (channels).
pub open spec fn spec_profile_of(req: TranscodeRequest) -> TranscodeProfile {
    TranscodeProfile {
        source_url: req.source_url,
        format: req.format,
        codec: req.codec,
        bitrate: match req.bitrate {
            Some(b) => b,
            None => spec_bitrate_for_codec(req.quality, req.codec),
        },
        sample_rate: match req.sample_rate {
            Some(sr) => sr,
            None => spec_sample_rate(req.quality),
        },
        channels: match req.channels {
            Some(c) => c,
            None => 2u8,
        },
        normalize: req.normalize,
        target_loudness: req.target_loudness,
        fade_in: match req.fade_in {
            Some(x) => Some(x as u32),
            None => None,
        },
        fade_out: match req.fade_out {
            Some(x) => Some(x as u32),
            None => None,
        },
    }
}

/// The profile-level filter chain: an optional fade-in expression
/// followed by an optional loudness-normalization expression.
pub open spec fn spec_profile_filters(p: TranscodeProfile) -> Seq<char> {
    spec_join(
        (match p.fade_in {
            Some(d) => seq![spec_fade_in(d as nat)],
            None => Seq::<Seq<char>>::empty(),
        }) + (if p.normalize {
            seq![spec_loudnorm(p.target_loudness as int)]
        } else {
            Seq::<Seq<char>>::empty()
        }),
    )
}

/// The encoder argument vector compiled from a profile, in its fixed
/// order: global flags, input, codec, bitrate (omitted when 0), sample
/// rate, channels, filter chain (omitted when empty), output format and
/// the standard-output sink.
pub open spec fn spec_ffmpeg_args(p: TranscodeProfile) -> Seq<Seq<char>> {
    seq![
        "-hide_banner"@,
        "-loglevel"@,
        "warning"@,
        "-y"@,
        "-i"@,
        p.source_url@,
        "-c:a"@,
        spec_ffmpeg_codec(p.codec),
    ] + (if p.bitrate > 0 {
        seq!["-b:a"@, spec_dec(p.bitrate as nat) + "k"@]
    } else {
        Seq::<Seq<char>>::empty()
    }) + seq!["-ar"@, spec_dec(p.sample_rate as nat), "-ac"@, spec_dec(p.channels as nat)] + (
    if spec_profile_filters(p).len() > 0 {
        seq!["-af"@, spec_profile_filters(p)]
    } else {
        Seq::<Seq<char>>::empty()
    }) + seq!["-f"@, spec_ffmpeg_format(p.format), "pipe:1"@]
}

impl TranscodeProfile {
    /// Resolves a validated request into a profile, applying the
    /// documented defaulting rules.
    pub fn from_request(req: &TranscodeRequest) -> (r: TranscodeProfile)
        requires
            spec_request_error(*req) is None,
        ensures
            r == spec_profile_of(*req),
    {
        let bitrate: u32 = match req.bitrate {
            Some(b) => b,
            None => req.quality.bitrate_for_codec(req.codec),
        };
        let sample_rate: u32 = match req.sample_rate {
            Some(sr) => sr,
            None => req.quality.sample_rate(),
        };
        let channels: u8 = match req.channels {
            Some(c) => c,
            None => 2,
        };
        TranscodeProfile {
            source_url: req.source_url.clone(),
            format: req.format,
            codec: req.codec,
            bitrate,
            sample_rate,
            channels,
            normalize: req.normalize,
            target_loudness: req.target_loudness,
            fade_in: match req.fade_in {
                Some(x) => Some(x as u32),
                None => None,
            },
            fade_out: match req.fade_out {
                Some(x) => Some(x as u32),
                None => None,
            },
        }
    }

    /// Builds the profile-level filter chain: fade-in, then loudness
    /// normalization, comma-joined; empty when neither applies.
    fn build_audio_filters(&self) -> (r: String)
        ensures
            r@ == spec_profile_filters(*self),
    {
        let mut filter_parts: Vec<String> = Vec::new();
        match self.fade_in {
            Some(duration) => {
                let f = fade_in(duration);
                filter_parts.push(f);
            },
            None => {},
        }
        match self.fade_out {
            None => {},
            Some(_) => {
                // needs the source duration, which only the encoder
                // knows; accepted but not compiled
            },
        }
        if self.normalize {
            let f = loudnorm(self.target_loudness);
            filter_parts.push(f);
        }
        proof {
            assert(filter_parts.deep_view() =~= (match self.fade_in {
                Some(d) => seq![spec_fade_in(d as nat)],
                None => Seq::<Seq<char>>::empty(),
            }) + (if self.normalize {
                seq![spec_loudnorm(self.target_loudness as int)]
            } else {
                Seq::<Seq<char>>::empty()
            }));
        }
        chain(&filter_parts)
    }

    /// Compiles the profile into the encoder's argument vector, in the
    /// exact order the encoder's argument parser expects.
    pub fn build_ffmpeg_args(&self) -> (r: Vec<String>)
        ensures
            r.deep_view() == spec_ffmpeg_args(*self),
    {
        let mut args: Vec<String> = Vec::new();
        args.push(String::from_str("-hide_banner"));
        args.push(String::from_str("-loglevel"));
        args.push(String::from_str("warning"));
        args.push(String::from_str("-y"));
        args.push(String::from_str("-i"));
        args.push(self.source_url.clone());
        args.push(String::from_str("-c:a"));
        args.push(String::from_str(self.codec.ffmpeg_codec()));
        if self.bitrate > 0 {
            args.push(String::from_str("-b:a"));
            let mut b = dec_string(self.bitrate as u64);
            b.append("k");
            args.push(b);
        }
        args.push(String::from_str("-ar"));
        args.push(dec_string(self.sample_rate as u64));
        args.push(String::from_str("-ac"));
        args.push(dec_string(self.channels as u64));
        let filters = self.build_audio_filters();
        if !filters.as_str().is_empty() {
            args.push(String::from_str("-af"));
            args.push(filters);
        }
        args.push(String::from_str("-f"));
        args.push(String::from_str(self.format.ffmpeg_format()));
        args.push(String::from_str("pipe:1"));
        proof {
            assert(args.deep_view() =~= spec_ffmpeg_args(*self));
        }
        args
    }
}

/// Compiling a profile is deterministic: equal profiles yield identical
/// argument vectors and identical filter chains, with no hidden state.
pub proof fn lemma_compile_deterministic(p1: TranscodeProfile, p2: TranscodeProfile)
    requires
        p1 == p2,
    ensures
        spec_ffmpeg_args(p1) == spec_ffmpeg_args(p2),
        spec_profile_filters(p1) == spec_profile_filters(p2),
{
}

impl TranscodeProfile {
    /// The fixed profile for messenger voice notes: normalized Opus at
    /// 64 kbit/s.
    pub fn telegram_voice(source_url: &str) -> (r: TranscodeProfile)
        ensures
            r.source_url@ == source_url@,
            r.format == AudioFormat::Opus,
            r.codec == AudioCodec::Libopus,
            r.bitrate == 64u32,
            r.sample_rate == 48000u32,
            r.channels == 2u8,
            r.normalize == true,
            r.target_loudness == -160i32,
            r.fade_in is None,
            r.fade_out is None,
    {
        TranscodeProfile {
            source_url: String::from_str(source_url),
            format: AudioFormat::Opus,
            codec: AudioCodec::Libopus,
            bitrate: 64,
            sample_rate: 48000,
            channels: 2,
            normalize: true,
            target_loudness: -160,
            fade_in: None,
            fade_out: None,
        }
    }

    /// The fixed low-latency streaming profile: unnormalized Opus at
    /// 48 kbit/s.
    pub fn low_latency(source_url: &str) -> (r: TranscodeProfile)
        ensures
            r.source_url@ == source_url@,
            r.format == AudioFormat::Opus,
            r.codec == AudioCodec::Libopus,
            r.bitrate == 48u32,
            r.sample_rate == 48000u32,
            r.channels == 2u8,
            r.normalize == false,
            r.target_loudness == -160i32,
            r.fade_in is None,
            r.fade_out is None,
    {
        TranscodeProfile {
            source_url: String::from_str(source_url),
            format: AudioFormat::Opus,
            codec: AudioCodec::Libopus,
            bitrate: 48,
            sample_rate: 48000,
            channels: 2,
            normalize: false,
            target_loudness: -160,
            fade_in: None,
            fade_out: None,
        }
    }

    /// The fixed high-quality profile: normalized Opus at 128 kbit/s
    /// with a -14 LUFS target.
    pub fn high_quality(source_url: &str) -> (r: TranscodeProfile)
        ensures
            r.source_url@ == source_url@,
            r.format == AudioFormat::Opus,
            r.codec == AudioCodec::Libopus,
            r.bitrate == 128u32,
            r.sample_rate == 48000u32,
            r.channels == 2u8,
            r.normalize == true,
            r.target_loudness == -140i32,
            r.fade_in is None,
            r.fade_out is None,
    {
        TranscodeProfile {
            source_url: String::from_str(source_url),
            format: AudioFormat::Opus,
            codec: AudioCodec::Libopus,
            bitrate: 128,
            sample_rate: 48000,
            channels: 2,
            normalize: true,
            target_loudness: -140,
            fade_in: None,
            fade_out: None,
        }
    }
}

} // verus!
