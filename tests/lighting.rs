use beat_lights::color::{clamp_to_byte, map_colors, primary_byte, ZoneColorFrame};
use beat_lights::config::{Config, LEVEL_ONE, VOLUME_ONE};
use beat_lights::render::{decay_step, frame_period_nanos, pacing_delay, BeatSignal, RenderLoop};
use beat_lights::volume::{intensity_scale, IntensityScale, VolumeHandoff};

fn frame(rolling: u64, scale: IntensityScale, beat_index: u64) -> [u8; 12] {
    map_colors(rolling, &scale, beat_index).as_bytes()
}

#[test]
fn scenario_all_zero() {
    let f = frame(0, IntensityScale::zero(), 0);
    assert_eq!(f, [0, 0, 0, 0, 0, 0, 0, 0, 0, 0, 0, 0]);
}

#[test]
fn scenario_even_beat() {
    let f = frame(LEVEL_ONE, IntensityScale::new(32, 1), 0);
    assert_eq!(f, [0, 16, 32, 32, 0, 0, 0, 32, 0, 0, 16, 32]);
}

#[test]
fn scenario_odd_beat_swaps_middle_zones() {
    let f = frame(LEVEL_ONE, IntensityScale::new(32, 1), 1);
    assert_eq!(f, [0, 16, 32, 0, 32, 0, 32, 0, 0, 0, 16, 32]);
}

#[test]
fn map_is_deterministic_and_alternates() {
    let s = IntensityScale::new(7, 3);
    let a = frame(3 * LEVEL_ONE, s, 41);
    assert_eq!(a, frame(3 * LEVEL_ONE, s, 41));
    assert_eq!(a, frame(3 * LEVEL_ONE, s, 43));
    let b = frame(3 * LEVEL_ONE, s, 42);
    assert_eq!(b, [0, 3, 7, 7, 0, 0, 0, 7, 0, 0, 3, 7]);
    assert_eq!(a, [0, 3, 7, 0, 7, 0, 7, 0, 0, 0, 3, 7]);
}

#[test]
fn primary_rounds_down() {
    assert_eq!(primary_byte(LEVEL_ONE / 2, &IntensityScale::new(5, 1)), 2);
    assert_eq!(primary_byte(LEVEL_ONE, &IntensityScale::new(1, 3)), 0);
}

#[test]
fn bytes_saturate_without_wrapping() {
    assert_eq!(clamp_to_byte(255), 255);
    assert_eq!(clamp_to_byte(256), 255);
    assert_eq!(clamp_to_byte(u128::MAX), 255);
    assert_eq!(primary_byte(u64::MAX, &IntensityScale::new(u64::MAX, 1)), 255);
    assert_eq!(primary_byte(LEVEL_ONE * 256, &IntensityScale::new(1, 1)), 255);
    assert_eq!(primary_byte(LEVEL_ONE * 255, &IntensityScale::new(1, 1)), 255);
    assert_eq!(primary_byte(LEVEL_ONE * 254, &IntensityScale::new(1, 1)), 254);
    let f = frame(u64::MAX, IntensityScale::new(u64::MAX, 1), 0);
    assert_eq!(f, [0, 127, 255, 255, 0, 0, 0, 255, 0, 0, 127, 255]);
}

#[test]
fn scale_is_brightness_over_volume_squared() {
    let cfg = Config::standard();
    let full = intensity_scale(&cfg, VOLUME_ONE);
    assert_eq!(full.num, full.den * 32);
    assert_eq!(primary_byte(LEVEL_ONE, &full), 32);
    let half = intensity_scale(&cfg, VOLUME_ONE / 2);
    assert_eq!(half.num, half.den * 128);
    assert_eq!(primary_byte(LEVEL_ONE, &half), 128);
    let floor = intensity_scale(&cfg, 1000);
    assert_eq!(floor.num, floor.den * 3200);
    assert_eq!(primary_byte(655, &floor), 31);
    assert_eq!(primary_byte(LEVEL_ONE, &floor), 255);
    assert_eq!(primary_byte(LEVEL_ONE / 2, &intensity_scale(&cfg, 8000)), 25);
}

#[test]
fn scale_strictly_decreases_in_range() {
    let cfg = Config::standard();
    let mut v: u32 = 1000;
    while v < VOLUME_ONE {
        let a = intensity_scale(&cfg, v);
        let b = intensity_scale(&cfg, v + 1);
        assert!((b.num as u128) * (a.den as u128) < (a.num as u128) * (b.den as u128));
        v += 1;
    }
}

#[test]
fn scale_is_zero_outside_range() {
    let cfg = Config::standard();
    for v in [0u32, 1, 999, 10001, u32::MAX] {
        let s = intensity_scale(&cfg, v);
        assert_eq!(s.num, 0);
        assert_eq!(primary_byte(u64::MAX, &s), 0);
    }
    assert!(intensity_scale(&cfg, 1000).num > 0);
    assert!(intensity_scale(&cfg, VOLUME_ONE).num > 0);
}

#[test]
fn quiet_ticks_decay_exactly() {
    let cfg = Config::standard();
    let mut level: u64 = 1000;
    let expected = [900u64, 810, 729, 656, 590];
    for e in expected {
        level = decay_step(&cfg, level, 0);
        assert_eq!(level, e);
    }
    assert_eq!(decay_step(&cfg, 5, 0), 4);
    assert_eq!(decay_step(&cfg, 0, 0), 0);
    let mut level: u64 = 100;
    let mut ticks: u32 = 0;
    while level > 0 {
        let next = decay_step(&cfg, level, 0);
        assert!(next < level);
        level = next;
        ticks += 1;
    }
    assert!(ticks <= 100);
}

#[test]
fn peak_hold_takes_larger_value() {
    let cfg = Config::standard();
    assert_eq!(decay_step(&cfg, 1000, 950), 950);
    assert_eq!(decay_step(&cfg, 1000, 800), 900);
    assert_eq!(decay_step(&cfg, u64::MAX, 0), 16602069666338596453);
}

#[test]
fn render_loop_tick() {
    let cfg = Config::standard();
    let scale = IntensityScale::new(32, 1);
    let mut state = RenderLoop::new();
    assert_eq!(state.rolling, 0);
    assert_eq!(state.last_beat_index, 0);
    let f = state.tick(&cfg, BeatSignal { beat_index: 1, beat_volume: LEVEL_ONE }, &scale);
    assert_eq!(state.rolling, LEVEL_ONE);
    assert_eq!(state.last_beat_index, 1);
    assert_eq!(f.as_bytes(), [0, 16, 32, 0, 32, 0, 32, 0, 0, 0, 16, 32]);
    let f: ZoneColorFrame = state.tick(&cfg, BeatSignal { beat_index: 1, beat_volume: 0 }, &scale);
    assert_eq!(state.rolling, 58982);
    assert_eq!(f.as_bytes(), [0, 14, 28, 0, 28, 0, 28, 0, 0, 0, 14, 28]);
    let f = state.tick(&cfg, BeatSignal { beat_index: 2, beat_volume: 0 }, &scale);
    assert_eq!(state.rolling, 53083);
    assert_eq!(state.last_beat_index, 2);
    assert_eq!(f.as_bytes(), [0, 12, 25, 25, 0, 0, 0, 25, 0, 0, 12, 25]);
}

#[test]
fn pacing_sleeps_for_rest_of_period() {
    let cfg = Config::standard();
    let p = frame_period_nanos(&cfg);
    assert_eq!(p, 33_333_333);
    assert_eq!(pacing_delay(p, 10_000_000), 23_333_333);
    assert_eq!(pacing_delay(p, 0), p);
    assert_eq!(pacing_delay(p, p), 0);
    assert_eq!(pacing_delay(p, p + 5), 0);
    assert_eq!(pacing_delay(p, u64::MAX), 0);
}

#[test]
fn config_rejects_out_of_range_constants() {
    assert!(Config::new(9, 10, 1, 30, 1000).is_some());
    assert!(Config::new(0, 10, 1, 30, 1000).is_none());
    assert!(Config::new(10, 10, 1, 30, 1000).is_none());
    assert!(Config::new(9, 10, 0, 30, 1000).is_none());
    assert!(Config::new(9, 10, 1, 0, 1000).is_none());
    assert!(Config::new(9, 10, 1, 30, 0).is_none());
    assert!(Config::new(9, 10, 1, 30, VOLUME_ONE).is_none());
    let c = Config::new(19, 20, 5, 60, 500).unwrap();
    assert_eq!(c.decay_num, 19);
    assert_eq!(c.frame_rate_hz, 60);
    assert_eq!(frame_period_nanos(&c), 16_666_666);
}

#[test]
fn handoff_keeps_latest_sample() {
    let cfg = Config::standard();
    let cell = VolumeHandoff::new(VOLUME_ONE);
    assert_eq!(cell.current_scale(&cfg), intensity_scale(&cfg, VOLUME_ONE));
    for v in [2000u32, 3000, 500, 5000] {
        cell.publish(v);
    }
    assert_eq!(cell.latest_sample(), 5000);
    let s = cell.current_scale(&cfg);
    assert_eq!(s, intensity_scale(&cfg, 5000));
    assert_eq!(primary_byte(LEVEL_ONE, &s), 128);
    cell.publish(500);
    assert_eq!(cell.current_scale(&cfg).num, 0);
}
