//! Tests for the individual filter expressions and the chain builder.
//! Scaled-integer inputs: seconds in hundredths, decibels and loudness
//! in tenths, tempo and volume factors in ten-thousandths.

use rust_transcoder::enums::EqPreset;
use rust_transcoder::filters::{
    build_audio_filter_chain, chain, channels, compressor, eq_preset_to_filter, equalizer,
    fade_in, fade_out, highpass, loudnorm, lowpass, resample, tempo, volume, volume_factor,
};

#[test]
fn test_fade_in() {
    assert_eq!(fade_in(200), "afade=t=in:st=0:d=2.00");
    assert_eq!(fade_in(50), "afade=t=in:st=0:d=0.50");
}

#[test]
fn test_fade_out() {
    assert_eq!(fade_out(1000, 200), "afade=t=out:st=10.00:d=2.00");
}

#[test]
fn test_loudnorm() {
    let filter = loudnorm(-160);
    assert!(filter.contains("loudnorm"));
    assert!(filter.contains("I=-16.0"));
}

#[test]
fn test_volume() {
    assert_eq!(volume(30), "volume=3.0dB");
    assert_eq!(volume(-60), "volume=-6.0dB");
}

#[test]
fn test_highpass_lowpass() {
    assert_eq!(highpass(100), "highpass=f=100");
    assert_eq!(lowpass(8000), "lowpass=f=8000");
}

#[test]
fn test_tempo() {
    assert_eq!(tempo(15000), "atempo=1.5000");
    // extreme values decompose into a two-stage chain
    assert!(tempo(3000).contains("atempo=0.5"));
    assert!(tempo(30000).contains("atempo=2.0"));
}

#[test]
fn test_chain() {
    let filters = vec![
        fade_in(100),
        loudnorm(-160),
        String::new(), // an empty expression must be skipped
    ];
    let result = chain(&filters);
    assert!(result.contains("afade"));
    assert!(result.contains("loudnorm"));
    assert!(!result.contains(",,"));
}

#[test]
fn test_channels() {
    assert!(channels(1).contains("mono"));
    assert!(channels(2).contains("stereo"));
}

#[test]
fn filters_test_eq_preset_flat() {
    let filter = eq_preset_to_filter(EqPreset::Flat);
    assert!(filter.is_empty(), "Flat should produce empty filter");
}

#[test]
fn filters_test_eq_preset_bass_boost() {
    let filter = eq_preset_to_filter(EqPreset::BassBoost);
    assert!(filter.contains("equalizer"), "BassBoost should use equalizer");
    assert!(filter.contains("f=100"), "BassBoost should target 100Hz");
}

#[test]
fn filters_test_eq_preset_voice() {
    let filter = eq_preset_to_filter(EqPreset::Voice);
    assert!(filter.contains("highpass"), "Voice should use highpass");
    assert!(filter.contains("equalizer"), "Voice should use equalizer for presence");
}

#[test]
fn filters_test_eq_preset_treble() {
    let filter = eq_preset_to_filter(EqPreset::Treble);
    assert!(filter.contains("equalizer"), "Treble should use equalizer");
    assert!(filter.contains("f=8000"), "Treble should target 8kHz");
}

#[test]
fn test_volume_factor_unity() {
    let filter = volume_factor(10000);
    assert!(filter.is_empty(), "Volume 1.0 should produce empty filter");
}

#[test]
fn test_volume_factor_amplify() {
    let filter = volume_factor(20000);
    assert!(filter.contains("volume"), "Volume 2.0 should produce volume filter");
    // 20 * log10(2.0) is about 6.02 dB
    assert!(filter.contains("6.0"), "Volume 2.0 should be ~+6dB");
}

#[test]
fn test_volume_factor_attenuate() {
    let filter = volume_factor(5000);
    assert!(filter.contains("volume"), "Volume 0.5 should produce volume filter");
    // 20 * log10(0.5) is about -6.02 dB
    assert!(filter.contains("-6.0"), "Volume 0.5 should be ~-6dB");
}

#[test]
fn filters_test_build_filter_chain_empty() {
    let chain = build_audio_filter_chain(None, None, None);
    assert!(chain.is_empty(), "No filters should produce empty chain");
}

#[test]
fn test_build_filter_chain_speed_only() {
    let chain = build_audio_filter_chain(None, Some(15000), None);
    assert!(chain.contains("atempo"), "Speed should add atempo filter");
    assert!(chain.contains("1.5"), "Speed 1.5 should be in filter");
}

#[test]
fn filters_test_build_filter_chain_combined() {
    let chain = build_audio_filter_chain(Some(EqPreset::BassBoost), Some(12500), Some(8000));
    assert!(chain.contains("equalizer"), "Should have EQ");
    assert!(chain.contains("atempo"), "Should have speed");
    assert!(chain.contains("volume"), "Should have volume");
    // fixed order: EQ, then speed, then volume
    let eq_pos = chain.find("equalizer").unwrap();
    let tempo_pos = chain.find("atempo").unwrap();
    let vol_pos = chain.find("volume").unwrap();
    assert!(eq_pos < tempo_pos, "EQ should come before tempo");
    assert!(tempo_pos < vol_pos, "Tempo should come before volume");
}

#[test]
fn test_volume_factor_exact_db_rendering() {
    assert_eq!(volume_factor(20000), "volume=6.0dB");
    assert_eq!(volume_factor(5000), "volume=-6.0dB");
    // 20 * log10(1.5) is about 3.52 dB
    assert_eq!(volume_factor(15000), "volume=3.5dB");
    // 20 * log10(0.8) is about -1.94 dB
    assert_eq!(volume_factor(8000), "volume=-1.9dB");
}

#[test]
fn test_tempo_two_stage_chains_exactly() {
    // 0.3: first stage fixed at 0.5, remainder 0.6
    assert_eq!(tempo(3000), "atempo=0.5,atempo=0.6000");
    // 0.2: remainder 0.4 would be below 0.5, so it clamps to 0.5
    assert_eq!(tempo(2000), "atempo=0.5,atempo=0.5000");
    // 3.0: first stage fixed at 2.0, remainder 1.5
    assert_eq!(tempo(30000), "atempo=2.0,atempo=1.5000");
    // 5.0: remainder 2.5 would be above 2.0, so it clamps to 2.0
    assert_eq!(tempo(50000), "atempo=2.0,atempo=2.0000");
}

#[test]
fn test_tempo_boundary_values_stay_single_stage() {
    assert_eq!(tempo(5000), "atempo=0.5000");
    assert_eq!(tempo(20000), "atempo=2.0000");
}

#[test]
fn test_equalizer_exact_expression() {
    assert_eq!(equalizer(100, 'o', 100, 60), "equalizer=f=100:width_type=o:width=1.00:g=6.0");
    assert_eq!(equalizer(3000, 'o', 100, 30), "equalizer=f=3000:width_type=o:width=1.00:g=3.0");
    assert_eq!(equalizer(8000, 'o', 150, 40), "equalizer=f=8000:width_type=o:width=1.50:g=4.0");
}

#[test]
fn test_loudnorm_exact_expression() {
    assert_eq!(loudnorm(-160), "loudnorm=I=-16.0:TP=-1.5:LRA=11:print_format=none");
    assert_eq!(loudnorm(-140), "loudnorm=I=-14.0:TP=-1.5:LRA=11:print_format=none");
}

#[test]
fn test_resample_and_compressor_expressions() {
    assert_eq!(resample(48000), "aresample=48000");
    assert_eq!(
        compressor(3, 100),
        "compand=attacks=0.003:decays=0.100:points=-80/-80|-12/-12|0/-6|20/-6"
    );
}

#[test]
fn test_channels_other_count_renders_plainly() {
    assert_eq!(channels(6), "pan=6c");
}

#[test]
fn test_volume_factor_zero_has_no_finite_gain() {
    assert_eq!(volume_factor(0), "volume=-infdB");
}
