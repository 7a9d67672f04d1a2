use kz_dsp::config::{FilterType, PeqBand, SpatialMode};
use kz_dsp::delay::DelayLine;
use kz_dsp::engine::{active_band_count, band_slot, spatial_stage, SpatialStage, MAX_BANDS};

fn run(line: &mut DelayLine<f32>, xs: &[f32]) -> Vec<f32> {
    xs.iter().map(|&x| line.process(x)).collect()
}

#[test]
fn delay_zero_passes_through() {
    let mut d = DelayLine::new(8, 0, 0.0f32);
    assert_eq!(run(&mut d, &[1.0, 2.0, 3.0]), vec![1.0, 2.0, 3.0]);
}

#[test]
fn delay_by_two_samples() {
    let mut d = DelayLine::new(8, 2, 0.0f32);
    assert_eq!(run(&mut d, &[1.0, 2.0, 3.0, 4.0, 5.0]), vec![0.0, 0.0, 1.0, 2.0, 3.0]);
}

#[test]
fn delay_wraps_around_ring() {
    let mut d = DelayLine::new(4, 3, 0.0f32);
    let xs: Vec<f32> = (1..=10).map(|i| i as f32).collect();
    assert_eq!(run(&mut d, &xs), vec![0.0, 0.0, 0.0, 1.0, 2.0, 3.0, 4.0, 5.0, 6.0, 7.0]);
}

#[test]
fn delay_is_clamped_to_capacity() {
    let d = DelayLine::new(384, 1000, 0.0f32);
    assert_eq!(d.delay(), 383);
    assert_eq!(d.capacity(), 384);
    let mut d = DelayLine::new(128, 5, 0.0f32);
    d.set_delay(500);
    assert_eq!(d.delay(), 127);
}

#[test]
fn set_delay_keeps_samples() {
    let mut d = DelayLine::new(8, 0, 0.0f32);
    run(&mut d, &[1.0, 2.0, 3.0]);
    d.set_delay(2);
    // newest three samples are now 3, 2, 1 (and the new one); delay 2 reaches back to 2.0
    assert_eq!(d.process(4.0), 2.0);
}

#[test]
fn reset_clears_history() {
    let mut d = DelayLine::new(4, 1, 0.0f32);
    run(&mut d, &[7.0, 8.0]);
    d.reset(0.0);
    assert_eq!(d.delay(), 1);
    assert_eq!(d.process(9.0), 0.0);
    assert_eq!(d.process(10.0), 9.0);
}

#[test]
fn oldest_and_push_form_a_comb() {
    // A 3-sample ring: the oldest sample comes back 3 writes later.
    let mut d = DelayLine::new(3, 0, 0.0f32);
    let mut outs = Vec::new();
    for x in [1.0f32, 2.0, 3.0, 4.0, 5.0] {
        let out = d.oldest();
        d.push(x + 0.5 * out);
        outs.push(out);
    }
    assert_eq!(outs, vec![0.0, 0.0, 0.0, 1.0, 2.0]);
}

fn band(enabled: bool) -> PeqBand<f32> {
    PeqBand { freq: 1000.0, gain_db: 1.0, q: 1.0, filter_type: FilterType::LowShelf, enabled }
}

#[test]
fn band_slots_follow_enabled_bands() {
    let peq = vec![band(true), band(false), band(true)];
    assert_eq!(active_band_count(peq.len()), 3);
    assert!(band_slot(&peq, 0).is_some());
    assert!(band_slot(&peq, 1).is_none());
    assert!(band_slot(&peq, 2).is_some());
    assert!((3..MAX_BANDS).all(|i| band_slot(&peq, i).is_none()));
}

#[test]
fn band_slots_cap_at_ten() {
    let peq: Vec<PeqBand<f32>> = (0..12).map(|_| band(true)).collect();
    assert_eq!(active_band_count(peq.len()), 10);
    assert!((0..MAX_BANDS).all(|i| band_slot(&peq, i).is_some()));
    assert_eq!(active_band_count(0), 0);
}

#[test]
fn spatial_stage_choice() {
    assert_eq!(spatial_stage(SpatialMode::Off, true), SpatialStage::Passthrough);
    assert_eq!(spatial_stage(SpatialMode::Crossfeed, true), SpatialStage::Crossfeed);
    assert_eq!(spatial_stage(SpatialMode::Crossfeed, false), SpatialStage::Passthrough);
    assert_eq!(spatial_stage(SpatialMode::Hrtf, false), SpatialStage::Hrtf);
}
