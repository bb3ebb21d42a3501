//! Tests for profile construction and its argument compilation.

use rust_transcoder::enums::{AudioCodec, AudioFormat, AudioQuality};
use rust_transcoder::profiles::TranscodeProfile;
use rust_transcoder::transcode::TranscodeRequest;

#[test]
fn test_telegram_voice_profile() {
    let profile = TranscodeProfile::telegram_voice("https://example.com/audio.mp3");
    let args = profile.build_ffmpeg_args();

    assert!(args.contains(&"-c:a".to_string()));
    assert!(args.contains(&"libopus".to_string()));
    assert!(args.contains(&"-b:a".to_string()));
    assert!(args.contains(&"64k".to_string()));
}

#[test]
fn test_ffmpeg_args_structure() {
    let profile = TranscodeProfile {
        source_url: "https://example.com/test.mp3".to_string(),
        format: AudioFormat::Mp3,
        codec: AudioCodec::Libmp3lame,
        bitrate: 128,
        sample_rate: 44100,
        channels: 2,
        normalize: false,
        target_loudness: -160,
        fade_in: None,
        fade_out: None,
    };

    let args = profile.build_ffmpeg_args();

    assert!(args.contains(&"-i".to_string()));
    assert!(args.contains(&"https://example.com/test.mp3".to_string()));
    assert!(args.contains(&"pipe:1".to_string()));
    assert!(args.contains(&"-f".to_string()));
    assert!(args.contains(&"mp3".to_string()));
}

#[test]
fn test_audio_filters_with_normalize() {
    let profile = TranscodeProfile {
        source_url: "test.mp3".to_string(),
        format: AudioFormat::Opus,
        codec: AudioCodec::Libopus,
        bitrate: 64,
        sample_rate: 48000,
        channels: 2,
        normalize: true,
        target_loudness: -160,
        fade_in: Some(200),
        fade_out: None,
    };

    let args = profile.build_ffmpeg_args();
    assert!(args.contains(&"-af".to_string()));

    let af_idx = args.iter().position(|a| a == "-af").unwrap();
    let filters = &args[af_idx + 1];
    assert!(filters.contains("afade"));
    assert!(filters.contains("loudnorm"));
}

fn request_with_explicit_fields() -> TranscodeRequest {
    TranscodeRequest {
        source_url: "https://example.com/audio.mp3".to_string(),
        format: AudioFormat::Mp3,
        output_format: None,
        codec: AudioCodec::Libmp3lame,
        quality: AudioQuality::High,
        bitrate: Some(256),
        sample_rate: Some(44100),
        channels: Some(1),
        audio_filters: None,
        normalize: true,
        target_loudness: -140,
        fade_in: Some(150),
        fade_out: None,
    }
}

#[test]
fn test_from_request_keeps_explicit_fields() {
    let req = request_with_explicit_fields();
    assert!(req.validate().is_ok());
    let profile = TranscodeProfile::from_request(&req);
    assert_eq!(profile.source_url, "https://example.com/audio.mp3");
    assert_eq!(profile.format, AudioFormat::Mp3);
    assert_eq!(profile.codec, AudioCodec::Libmp3lame);
    assert_eq!(profile.bitrate, 256);
    assert_eq!(profile.sample_rate, 44100);
    assert_eq!(profile.channels, 1);
    assert!(profile.normalize);
    assert_eq!(profile.target_loudness, -140);
    assert_eq!(profile.fade_in, Some(150));
    assert_eq!(profile.fade_out, None);
}

#[test]
fn test_from_request_applies_defaults() {
    let req = TranscodeRequest {
        source_url: "https://example.com/audio.mp3".to_string(),
        format: AudioFormat::Opus,
        output_format: None,
        codec: AudioCodec::Libopus,
        quality: AudioQuality::Medium,
        bitrate: None,
        sample_rate: None,
        channels: None,
        audio_filters: None,
        normalize: false,
        target_loudness: -160,
        fade_in: None,
        fade_out: None,
    };
    assert!(req.validate().is_ok());
    let profile = TranscodeProfile::from_request(&req);
    // bitrate and sample rate come from the medium-quality table
    assert_eq!(profile.bitrate, 64);
    assert_eq!(profile.sample_rate, 44100);
    // channels default to stereo
    assert_eq!(profile.channels, 2);
}

#[test]
fn test_compile_twice_is_byte_identical() {
    let req = request_with_explicit_fields();
    let p1 = TranscodeProfile::from_request(&req);
    let p2 = TranscodeProfile::from_request(&req);
    assert_eq!(p1.build_ffmpeg_args(), p2.build_ffmpeg_args());
    assert_eq!(p1.build_ffmpeg_args(), p1.build_ffmpeg_args());
}
