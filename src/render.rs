use vstd::prelude::*;
use crate::color::{frame_of, map_colors, ZoneColorFrame};
use crate::config::Config;
use crate::volume::IntensityScale;

verus! {

/// One sample of the beat analyser: the count of beats detected so far and the
/// energy of the latest detection window, in units of `1 / LEVEL_ONE`.
#[derive(Clone, Copy, Debug, PartialEq, Eq, Structural)]
pub struct BeatSignal {
    pub beat_index: u64,
    pub beat_volume: u64,
}

/// A level after one tick of decay: `level * decay`, rounded down.
pub open spec fn decayed(cfg: Config, level: int) -> int {
    (level * cfg.decay_num) / (cfg.decay_den as int)
}

/// Decay with peak hold: the decayed level, or the new beat volume where that
/// is higher.
pub open spec fn next_rolling(cfg: Config, level: int, beat_volume: int) -> int {
    let d = decayed(cfg, level);
    if d >= beat_volume {
        d
    } else {
        beat_volume
    }
}

/// The level after `n` ticks without beat input.
pub open spec fn quiet_level(cfg: Config, level: int, n: nat) -> int
    decreases n,
{
    if n == 0 {
        level
    } else {
        next_rolling(cfg, quiet_level(cfg, level, (n - 1) as nat), 0)
    }
}

/// One step of decay with peak hold on a beat level.
pub fn decay_step(cfg: &Config, level: u64, beat_volume: u64) -> (r: u64)
    requires
        cfg.valid(),
    ensures
        r == next_rolling(*cfg, level as int, beat_volume as int),
{
    let num = cfg.decay_num as u128;
    let den = cfg.decay_den as u128;
    let l = level as u128;
    assert(l * num <= l * den) by (nonlinear_arith)
        requires num < den, l >= 0;
    assert(l * den <= 0xffff_ffff_ffff_ffffu128 * 0xffff_ffffu128) by (nonlinear_arith)
        requires l <= 0xffff_ffff_ffff_ffffu128, den <= 0xffff_ffffu128;
    let d = (l * num) / den;
    assert(d <= l) by (nonlinear_arith)
        requires d as int == (l * num) as int / den as int, l * num <= l * den, den > 0, l >= 0;
    let d = d as u64;
    if d >= beat_volume {
        d
    } else {
        beat_volume
    }
}

/// State of the render loop between ticks: the rolling beat level and the beat
/// index seen last.
#[derive(Clone, Copy, Debug, PartialEq, Eq, Structural)]
pub struct RenderLoop {
    pub rolling: u64,
    pub last_beat_index: u64,
}

impl RenderLoop {
    /// The state before the first tick: level zero, beat index zero.
    pub fn new() -> (r: RenderLoop)
        ensures
            r.rolling == 0,
            r.last_beat_index == 0,
    {
        RenderLoop { rolling: 0, last_beat_index: 0 }
    }

    /// One tick: applies decay with peak hold to the rolling level, records the
    /// beat index, and returns the frame for the new level under `scale`.
    pub fn tick(&mut self, cfg: &Config, signal: BeatSignal, scale: &IntensityScale) -> (r:
        ZoneColorFrame)
        requires
            cfg.valid(),
            scale.valid(),
        ensures
            final(self).rolling == next_rolling(
                *cfg,
                old(self).rolling as int,
                signal.beat_volume as int,
            ),
            final(self).last_beat_index == signal.beat_index,
            r@ == frame_of(final(self).rolling, *scale, signal.beat_index as int),
    {
        self.rolling = decay_step(cfg, self.rolling, signal.beat_volume);
        if signal.beat_index != self.last_beat_index {
            self.last_beat_index = signal.beat_index;
        }
        map_colors(self.rolling, scale, self.last_beat_index)
    }
}

/// Without beat input one tick multiplies the level by the decay factor,
/// rounded down: the level never rises, never goes below zero, and falls
/// strictly while it is positive.
pub proof fn lemma_quiet_tick(cfg: Config, level: int)
    requires
        cfg.valid(),
        level >= 0,
    ensures
        next_rolling(cfg, level, 0) == decayed(cfg, level),
        0 <= next_rolling(cfg, level, 0) <= level,
        level > 0 ==> next_rolling(cfg, level, 0) < level,
{
    let n = cfg.decay_num as int;
    let d = cfg.decay_den as int;
    assert(0 <= (level * n) / d) by (nonlinear_arith)
        requires level >= 0, n > 0, d > 0;
    assert(level > 0 ==> (level * n) / d < level) by (nonlinear_arith)
        requires level >= 0, 0 < n < d;
    assert((level * n) / d <= level) by (nonlinear_arith)
        requires level >= 0, 0 < n < d;
}

/// Over a run of ticks without beat input the level never rises, stays
/// non-negative, and has reached zero after as many ticks as its starting
/// value.
pub proof fn lemma_quiet_decay(cfg: Config, level: int, n: nat)
    requires
        cfg.valid(),
        level >= 0,
    ensures
        quiet_level(cfg, level, n + 1) == decayed(cfg, quiet_level(cfg, level, n)),
        0 <= quiet_level(cfg, level, n + 1) <= quiet_level(cfg, level, n) <= level,
        quiet_level(cfg, level, n) <= if level - n > 0 { level - n } else { 0 },
    decreases n,
{
    if n > 0 {
        lemma_quiet_decay(cfg, level, (n - 1) as nat);
    }
    lemma_quiet_tick(cfg, level);
    lemma_quiet_tick(cfg, quiet_level(cfg, level, n));
}

/// The length of one frame in nanoseconds for a frame rate.
pub open spec fn period_of(frame_rate_hz: int) -> int {
    1_000_000_000int / frame_rate_hz
}

/// The target frame period of a configuration, in nanoseconds.
pub fn frame_period_nanos(cfg: &Config) -> (r: u64)
    requires
        cfg.valid(),
    ensures
        r == period_of(cfg.frame_rate_hz as int),
{
    1_000_000_000u64 / (cfg.frame_rate_hz as u64)
}

/// How long to sleep after a tick whose work took `elapsed` nanoseconds: the
/// rest of the period, or nothing once the period is used up. The tick then
/// lasts exactly the period, or as long as its work where that is longer.
pub fn pacing_delay(period: u64, elapsed: u64) -> (r: u64)
    ensures
        elapsed < period ==> r == period - elapsed,
        elapsed >= period ==> r == 0,
        elapsed + r == if elapsed < period { period } else { elapsed },
{
    if elapsed < period {
        period - elapsed
    } else {
        0
    }
}

} // verus!
