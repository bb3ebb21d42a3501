//! Audio filter expressions.
//!
//! Builds the individual effect-filter expressions understood by the
//! external encoder and joins them into comma-separated chains. Scaled
//! integers stand in for fractional quantities: seconds in hundredths,
//! decibels and loudness targets in tenths, tempo and volume factors in
//! ten-thousandths.

use crate::db::{db_tenths, spec_db_tenths};
use crate::digits::{
    push_char, push_dec, push_fixed, spec_dec, spec_fixed,
};
use crate::enums::EqPreset;
use vstd::prelude::*;

verus! {

/// A fade-in expression starting at time zero, duration in hundredths
/// of a second.
pub open spec fn spec_fade_in(duration_centis: nat) -> Seq<char> {
    "afade=t=in:st=0:d="@ + spec_fixed(duration_centis as int, 2)
}

/// A fade-out expression; start time and duration in hundredths of a second.
pub open spec fn spec_fade_out(start_centis: nat, duration_centis: nat) -> Seq<char> {
    "afade=t=out:st="@ + spec_fixed(start_centis as int, 2) + ":d="@ + spec_fixed(
        duration_centis as int,
        2,
    )
}

/// A loudness-normalization expression: integrated target in tenths of a
/// LUFS, fixed true-peak ceiling -1.5 dB and loudness range 11 LU.
pub open spec fn spec_loudnorm(target_lufs_tenths: int) -> Seq<char> {
    "loudnorm=I="@ + spec_fixed(target_lufs_tenths, 1) + ":TP=-1.5:LRA=11:print_format=none"@
}

/// A volume expression; gain in tenths of a decibel.
pub open spec fn spec_volume(db_tenths: int) -> Seq<char> {
    "volume="@ + spec_fixed(db_tenths, 1) + "dB"@
}

/// A high-pass expression; cutoff in Hz.
pub open spec fn spec_highpass(frequency: nat) -> Seq<char> {
    "highpass=f="@ + spec_dec(frequency)
}

/// A low-pass expression; cutoff in Hz.
pub open spec fn spec_lowpass(frequency: nat) -> Seq<char> {
    "lowpass=f="@ + spec_dec(frequency)
}

/// A peaking-equalizer expression: center frequency in Hz, band width in
/// hundredths (of the unit selected by `width_type`), gain in tenths of
/// a decibel.
pub open spec fn spec_equalizer(
    frequency: nat,
    width_type: char,
    width_centis: nat,
    gain_tenths: int,
) -> Seq<char> {
    "equalizer=f="@ + spec_dec(frequency) + ":width_type="@ + seq![width_type] + ":width="@
        + spec_fixed(width_centis as int, 2) + ":g="@ + spec_fixed(gain_tenths, 1)
}

/// A compressor/expander expression with a fixed transfer curve; attack
/// and decay in thousandths of a second.
pub open spec fn spec_compressor(attack_millis: nat, decay_millis: nat) -> Seq<char> {
    "compand=attacks="@ + spec_fixed(attack_millis as int, 3) + ":decays="@ + spec_fixed(
        decay_millis as int,
        3,
    ) + ":points=-80/-80|-12/-12|0/-6|20/-6"@
}

/// A resampling expression; target rate in Hz.
pub open spec fn spec_resample(sample_rate: nat) -> Seq<char> {
    "aresample="@ + spec_dec(sample_rate)
}

/// A channel-layout expression: a fixed downmix for mono, a fixed
/// pass-through for stereo, a bare channel count otherwise.
pub open spec fn spec_channels(count: nat) -> Seq<char> {
    if count == 1 {
        "pan=mono|c0=0.5*c0+0.5*c1"@
    } else if count == 2 {
        "pan=stereo|FL=FL|FR=FR"@
    } else {
        "pan="@ + spec_dec(count) + "c"@
    }
}

/// A tempo expression for a speed factor in ten-thousandths. The
/// underlying primitive only covers factors in [0.5, 2.0]; anything
/// outside is decomposed into a fixed first stage of 0.5 or 2.0 chained
/// with the clamped remainder, formatted with four decimals.
pub open spec fn spec_tempo(factor: nat) -> Seq<char> {
    if factor < 5000 {
        let f1 = if 2 * factor >= 5000 {
            2 * factor
        } else {
            5000nat
        };
        "atempo=0.5,atempo="@ + spec_fixed(f1 as int, 4)
    } else if factor > 20000 {
        let f1 = if factor / 2 <= 20000 {
            factor / 2
        } else {
            20000nat
        };
        "atempo=2.0,atempo="@ + spec_fixed(f1 as int, 4)
    } else {
        "atempo="@ + spec_fixed(factor as int, 4)
    }
}

/// The filter expression of an equalizer preset; flat maps to the empty
/// string (no filter).
pub open spec fn spec_eq_preset_filter(preset: EqPreset) -> Seq<char> {
    match preset {
        EqPreset::Flat => Seq::<char>::empty(),
        EqPreset::BassBoost => spec_equalizer(100, 'o', 100, 60),
        EqPreset::Voice => spec_highpass(80) + ","@ + spec_equalizer(3000, 'o', 100, 30),
        EqPreset::Treble => spec_equalizer(8000, 'o', 150, 40),
    }
}

/// The volume expression for a linear factor in ten-thousandths: empty
/// within one thousandth of unity, the decibel-rendered gain otherwise
/// (a zero factor has no finite decibel value and renders as `-inf`,
/// as the encoder's expression parser accepts).
pub open spec fn spec_volume_factor(factor: nat) -> Seq<char> {
    if 9991 <= factor <= 10009 {
        Seq::<char>::empty()
    } else if factor == 0 {
        "volume=-infdB"@
    } else {
        spec_volume(spec_db_tenths(factor))
    }
}

/// Non-empty expressions of `fs`, joined in order with commas.
pub open spec fn spec_join(fs: Seq<Seq<char>>) -> Seq<char>
    decreases fs.len(),
{
    if fs.len() == 0 {
        Seq::<char>::empty()
    } else {
        let head = fs[0];
        let rest = spec_join(fs.drop_first());
        if head.len() == 0 {
            rest
        } else if rest.len() == 0 {
            head
        } else {
            head + ","@ + rest
        }
    }
}

/// Builds a fade-in expression; duration in hundredths of a second.
pub fn fade_in(duration_centis: u32) -> (r: String)
    ensures
        r@ == spec_fade_in(duration_centis as nat),
{
    let mut s = String::from_str("afade=t=in:st=0:d=");
    push_fixed(&mut s, duration_centis as i64, 2);
    proof {
        assert(s@ =~= spec_fade_in(duration_centis as nat));
    }
    s
}

/// Builds a fade-out expression; start and duration in hundredths of a
/// second.
pub fn fade_out(start_centis: u32, duration_centis: u32) -> (r: String)
    ensures
        r@ == spec_fade_out(start_centis as nat, duration_centis as nat),
{
    let mut s = String::from_str("afade=t=out:st=");
    push_fixed(&mut s, start_centis as i64, 2);
    s.append(":d=");
    push_fixed(&mut s, duration_centis as i64, 2);
    proof {
        assert(s@ =~= spec_fade_out(start_centis as nat, duration_centis as nat));
    }
    s
}

/// Builds a loudness-normalization expression; target in tenths of a LUFS.
pub fn loudnorm(target_lufs_tenths: i32) -> (r: String)
    ensures
        r@ == spec_loudnorm(target_lufs_tenths as int),
{
    let mut s = String::from_str("loudnorm=I=");
    push_fixed(&mut s, target_lufs_tenths as i64, 1);
    s.append(":TP=-1.5:LRA=11:print_format=none");
    proof {
        assert(s@ =~= spec_loudnorm(target_lufs_tenths as int));
    }
    s
}

/// Builds a volume expression; gain in tenths of a decibel.
pub fn volume(db_gain_tenths: i32) -> (r: String)
    ensures
        r@ == spec_volume(db_gain_tenths as int),
{
    let mut s = String::from_str("volume=");
    push_fixed(&mut s, db_gain_tenths as i64, 1);
    s.append("dB");
    proof {
        assert(s@ =~= spec_volume(db_gain_tenths as int));
    }
    s
}

/// Builds a high-pass expression; cutoff in Hz.
pub fn highpass(frequency: u32) -> (r: String)
    ensures
        r@ == spec_highpass(frequency as nat),
{
    let mut s = String::from_str("highpass=f=");
    push_dec(&mut s, frequency as u64);
    proof {
        assert(s@ =~= spec_highpass(frequency as nat));
    }
    s
}

/// Builds a low-pass expression; cutoff in Hz.
pub fn lowpass(frequency: u32) -> (r: String)
    ensures
        r@ == spec_lowpass(frequency as nat),
{
    let mut s = String::from_str("lowpass=f=");
    push_dec(&mut s, frequency as u64);
    proof {
        assert(s@ =~= spec_lowpass(frequency as nat));
    }
    s
}

/// Builds a peaking-equalizer expression; width in hundredths, gain in
/// tenths of a decibel.
pub fn equalizer(frequency: u32, width_type: char, width_centis: u32, gain_tenths: i32) -> (r:
    String)
    ensures
        r@ == spec_equalizer(
            frequency as nat,
            width_type,
            width_centis as nat,
            gain_tenths as int,
        ),
{
    let mut s = String::from_str("equalizer=f=");
    push_dec(&mut s, frequency as u64);
    s.append(":width_type=");
    push_char(&mut s, width_type);
    s.append(":width=");
    push_fixed(&mut s, width_centis as i64, 2);
    s.append(":g=");
    push_fixed(&mut s, gain_tenths as i64, 1);
    proof {
        assert(s@ =~= spec_equalizer(
            frequency as nat,
            width_type,
            width_centis as nat,
            gain_tenths as int,
        ));
    }
    s
}

/// Builds a compressor expression; attack and decay in thousandths of a
/// second.
pub fn compressor(attack_millis: u32, decay_millis: u32) -> (r: String)
    ensures
        r@ == spec_compressor(attack_millis as nat, decay_millis as nat),
{
    let mut s = String::from_str("compand=attacks=");
    push_fixed(&mut s, attack_millis as i64, 3);
    s.append(":decays=");
    push_fixed(&mut s, decay_millis as i64, 3);
    s.append(":points=-80/-80|-12/-12|0/-6|20/-6");
    proof {
        assert(s@ =~= spec_compressor(attack_millis as nat, decay_millis as nat));
    }
    s
}

/// Builds a resampling expression; target rate in Hz.
pub fn resample(sample_rate: u32) -> (r: String)
    ensures
        r@ == spec_resample(sample_rate as nat),
{
    let mut s = String::from_str("aresample=");
    push_dec(&mut s, sample_rate as u64);
    proof {
        assert(s@ =~= spec_resample(sample_rate as nat));
    }
    s
}

/// Builds a channel-layout expression for the given channel count.
pub fn channels(count: u8) -> (r: String)
    ensures
        r@ == spec_channels(count as nat),
{
    match count {
        1 => String::from_str("pan=mono|c0=0.5*c0+0.5*c1"),
        2 => String::from_str("pan=stereo|FL=FL|FR=FR"),
        _ => {
            let mut s = String::from_str("pan=");
            push_dec(&mut s, count as u64);
            s.append("c");
            proof {
                assert(s@ =~= spec_channels(count as nat));
            }
            s
        },
    }
}

/// Builds a tempo expression for a speed factor in ten-thousandths,
/// decomposing factors outside [0.5, 2.0] into a two-stage chain.
pub fn tempo(factor: u32) -> (r: String)
    requires
        factor <= 2000000000,
    ensures
        r@ == spec_tempo(factor as nat),
{
    if factor < 5000 {
        let f1: u32 = if 2 * factor >= 5000 {
            2 * factor
        } else {
            5000
        };
        let mut s = String::from_str("atempo=0.5,atempo=");
        push_fixed(&mut s, f1 as i64, 4);
        proof {
            assert(s@ =~= spec_tempo(factor as nat));
        }
        s
    } else if factor > 20000 {
        let f1: u32 = if factor / 2 <= 20000 {
            factor / 2
        } else {
            20000
        };
        let mut s = String::from_str("atempo=2.0,atempo=");
        push_fixed(&mut s, f1 as i64, 4);
        proof {
            assert(s@ =~= spec_tempo(factor as nat));
        }
        s
    } else {
        let mut s = String::from_str("atempo=");
        push_fixed(&mut s, factor as i64, 4);
        proof {
            assert(s@ =~= spec_tempo(factor as nat));
        }
        s
    }
}

/// Joins the expressions of `filters` from position `i` on, skipping
/// empty ones.
fn chain_from(filters: &Vec<String>, i: usize) -> (r: String)
    requires
        i <= filters.len(),
    ensures
        r@ == spec_join(filters.deep_view().skip(i as int)),
    decreases filters.len() - i,
{
    if i == filters.len() {
        proof {
            assert(filters.deep_view().skip(i as int) =~= Seq::<Seq<char>>::empty());
        }
        String::new()
    } else {
        let rest = chain_from(filters, i + 1);
        let head: &String = &filters[i];
        proof {
            let dv = filters.deep_view();
            assert(dv.skip(i as int)[0] == dv[i as int]);
            assert(dv.skip(i as int).drop_first() =~= dv.skip(i as int + 1));
        }
        if head.as_str().is_empty() {
            rest
        } else if rest.as_str().is_empty() {
            head.clone()
        } else {
            let mut s = head.clone();
            s.append(",");
            s.append(rest.as_str());
            proof {
                assert(s@ =~= head@ + ","@ + rest@);
            }
            s
        }
    }
}

/// Joins several filter expressions into one chain, skipping empty ones.
pub fn chain(filters: &Vec<String>) -> (r: String)
    ensures
        r@ == spec_join(filters.deep_view()),
{
    let r = chain_from(filters, 0);
    proof {
        assert(filters.deep_view().skip(0) =~= filters.deep_view());
    }
    r
}

/// Builds the filter expression of an equalizer preset; flat yields the
/// empty string.
pub fn eq_preset_to_filter(preset: EqPreset) -> (r: String)
    ensures
        r@ == spec_eq_preset_filter(preset),
{
    match preset {
        EqPreset::Flat => String::new(),
        EqPreset::BassBoost => equalizer(100, 'o', 100, 60),
        EqPreset::Voice => {
            let mut s = highpass(80);
            s.append(",");
            let presence = equalizer(3000, 'o', 100, 30);
            s.append(presence.as_str());
            proof {
                assert(s@ =~= spec_eq_preset_filter(EqPreset::Voice));
            }
            s
        },
        EqPreset::Treble => equalizer(8000, 'o', 150, 40),
    }
}

/// Builds the volume expression for a linear factor in ten-thousandths
/// (1.0 maps to 10000): empty within one thousandth of unity, otherwise
/// the gain `20 * log10(factor)` rendered in decibels.
pub fn volume_factor(factor: u32) -> (r: String)
    requires
        factor <= 20000,
    ensures
        r@ == spec_volume_factor(factor as nat),
{
    if 9991 <= factor && factor <= 10009 {
        String::new()
    } else if factor == 0 {
        String::from_str("volume=-infdB")
    } else {
        volume(db_tenths(factor))
    }
}

/// The optional equalizer entry of a filter chain.
pub open spec fn spec_eq_part(eq_preset: Option<EqPreset>) -> Seq<Seq<char>> {
    match eq_preset {
        Some(p) => if spec_eq_preset_filter(p).len() > 0 {
            seq![spec_eq_preset_filter(p)]
        } else {
            Seq::<Seq<char>>::empty()
        },
        None => Seq::<Seq<char>>::empty(),
    }
}

/// The optional tempo entry of a filter chain: present only when the
/// factor differs from unity by more than one thousandth.
pub open spec fn spec_speed_part(speed: Option<u32>) -> Seq<Seq<char>> {
    match speed {
        Some(s) => if s < 9990 || s > 10010 {
            seq![spec_tempo(s as nat)]
        } else {
            Seq::<Seq<char>>::empty()
        },
        None => Seq::<Seq<char>>::empty(),
    }
}

/// The optional volume entry of a filter chain.
pub open spec fn spec_vol_part(volume_level: Option<u32>) -> Seq<Seq<char>> {
    match volume_level {
        Some(v) => if spec_volume_factor(v as nat).len() > 0 {
            seq![spec_volume_factor(v as nat)]
        } else {
            Seq::<Seq<char>>::empty()
        },
        None => Seq::<Seq<char>>::empty(),
    }
}

/// The full effect chain in its fixed order: equalizer first, tempo
/// second, volume last.
pub open spec fn spec_filter_chain(
    eq_preset: Option<EqPreset>,
    speed: Option<u32>,
    volume_level: Option<u32>,
) -> Seq<char> {
    spec_join(spec_eq_part(eq_preset) + spec_speed_part(speed) + spec_vol_part(volume_level))
}

/// Order invariant of the effect chain: whenever all three effects are
/// active (a non-flat preset, a speed factor away from unity, a volume
/// factor whose expression is non-empty), the compiled chain is exactly
/// the equalizer expression, then the tempo expression, then the volume
/// expression, comma-separated in that order.
pub proof fn lemma_filter_chain_order(p: EqPreset, s: u32, v: u32)
    requires
        p != EqPreset::Flat,
        s < 9990 || s > 10010,
        spec_volume_factor(v as nat).len() > 0,
    ensures
        spec_filter_chain(Some(p), Some(s), Some(v)) == spec_eq_preset_filter(p) + ","@
            + spec_tempo(s as nat) + ","@ + spec_volume_factor(v as nat),
{
    let eqf = spec_eq_preset_filter(p);
    let tf = spec_tempo(s as nat);
    let vf = spec_volume_factor(v as nat);
    reveal_strlit("equalizer=f=");
    reveal_strlit("highpass=f=");
    reveal_strlit("atempo=");
    reveal_strlit("atempo=0.5,atempo=");
    reveal_strlit("atempo=2.0,atempo=");
    assert(eqf.len() > 0);
    assert(tf.len() > 0);
    let fs = spec_eq_part(Some(p)) + spec_speed_part(Some(s)) + spec_vol_part(Some(v));
    assert(fs =~= seq![eqf, tf, vf]);
    assert(fs.drop_first() =~= seq![tf, vf]);
    assert(seq![tf, vf].drop_first() =~= seq![vf]);
    assert(seq![vf].drop_first() =~= Seq::<Seq<char>>::empty());
    assert(spec_join(Seq::<Seq<char>>::empty()) == Seq::<char>::empty());
    assert(spec_join(seq![vf]) == vf);
    assert(spec_join(seq![tf, vf]) == tf + ","@ + vf);
    assert(spec_join(fs) == eqf + ","@ + (tf + ","@ + vf));
    assert(eqf + ","@ + (tf + ","@ + vf) =~= eqf + ","@ + tf + ","@ + vf);
}

/// Builds the full effect chain for the optional equalizer preset, speed
/// factor and volume factor (both factors in ten-thousandths), in the
/// fixed order: equalizer, then tempo, then volume.
pub fn build_audio_filter_chain(
    eq_preset: Option<EqPreset>,
    speed: Option<u32>,
    volume_level: Option<u32>,
) -> (r: String)
    requires
        match speed {
            Some(s) => s <= 2000000000,
            None => true,
        },
        match volume_level {
            Some(v) => v <= 20000,
            None => true,
        },
    ensures
        r@ == spec_filter_chain(eq_preset, speed, volume_level),
{
    let mut filters: Vec<String> = Vec::new();
    match eq_preset {
        Some(p) => {
            let f = eq_preset_to_filter(p);
            if !f.as_str().is_empty() {
                filters.push(f);
            }
        },
        None => {},
    }
    proof {
        assert(filters.deep_view() =~= spec_eq_part(eq_preset));
    }
    match speed {
        Some(s) => {
            if s < 9990 || s > 10010 {
                let t = tempo(s);
                filters.push(t);
            }
        },
        None => {},
    }
    proof {
        assert(filters.deep_view() =~= spec_eq_part(eq_preset) + spec_speed_part(speed));
    }
    match volume_level {
        Some(v) => {
            let vf = volume_factor(v);
            if !vf.as_str().is_empty() {
                filters.push(vf);
            }
        },
        None => {},
    }
    proof {
        assert(filters.deep_view() =~= spec_eq_part(eq_preset) + spec_speed_part(speed)
            + spec_vol_part(volume_level));
    }
    chain(&filters)
}

} // verus!
