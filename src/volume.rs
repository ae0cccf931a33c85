use vstd::prelude::*;
use std::sync::atomic::{AtomicU32, Ordering};
use crate::config::{Config, LEVEL_ONE, VOLUME_ONE};

verus! {

/// A non-negative multiplier for beat levels, held as the exact fraction
/// `num / den`.
#[derive(Clone, Copy, Debug, PartialEq, Eq, Structural)]
pub struct IntensityScale {
    pub num: u64,
    pub den: u64,
}

impl IntensityScale {
    pub open spec fn valid(self) -> bool {
        self.den > 0
    }

    /// The scale `num / den`.
    pub fn new(num: u64, den: u64) -> (r: IntensityScale)
        requires
            den > 0,
        ensures
            r.num == num,
            r.den == den,
            r.valid(),
    {
        IntensityScale { num, den }
    }

    /// The scale 0, which mutes beat-reactive colour.
    pub fn zero() -> (r: IntensityScale)
        ensures
            r.num == 0,
            r.den == 1,
    {
        IntensityScale { num: 0, den: 1 }
    }
}

/// `a < b` as fractions.
pub open spec fn scale_lt(a: IntensityScale, b: IntensityScale) -> bool {
    a.num * b.den < b.num * a.den
}

/// Whether a volume sample lies in the range on which the transform is defined.
pub open spec fn in_volume_range(cfg: Config, v: u32) -> bool {
    cfg.volume_floor <= v <= VOLUME_ONE
}

/// The intensity scale for the volume `v / VOLUME_ONE`: `K / (v / VOLUME_ONE)^2`
/// inside the valid range, written as an exact fraction, and zero outside it.
pub open spec fn scale_of(cfg: Config, v: u32) -> IntensityScale {
    if in_volume_range(cfg, v) {
        IntensityScale {
            num: (cfg.brightness_k * VOLUME_ONE * VOLUME_ONE) as u64,
            den: (LEVEL_ONE * v * v) as u64,
        }
    } else {
        IntensityScale { num: 0, den: 1 }
    }
}

/// Computes the intensity scale for a master-volume sample.
pub fn intensity_scale(cfg: &Config, v: u32) -> (r: IntensityScale)
    requires
        cfg.valid(),
    ensures
        r == scale_of(*cfg, v),
        r.valid(),
        in_volume_range(*cfg, v) ==> r.num == cfg.brightness_k * VOLUME_ONE * VOLUME_ONE
            && r.den == LEVEL_ONE * v * v,
        !in_volume_range(*cfg, v) ==> r.num == 0,
{
    if cfg.volume_floor <= v && v <= VOLUME_ONE {
        let k = cfg.brightness_k as u64;
        let w = v as u64;
        assert(k * 100000000 <= 4294967295u64 * 100000000) by (nonlinear_arith)
            requires k <= 4294967295u64;
        assert(w * w <= 100000000) by (nonlinear_arith)
            requires w <= 10000;
        assert(w * w > 0) by (nonlinear_arith)
            requires w > 0;
        let vv = w * w;
        let r = IntensityScale { num: k * 100000000, den: LEVEL_ONE * vv };
        assert(r.num == cfg.brightness_k * VOLUME_ONE * VOLUME_ONE);
        assert(r.den == LEVEL_ONE * v * v) by (nonlinear_arith)
            requires r.den == LEVEL_ONE * vv, vv == w * w, w == v;
        r
    } else {
        IntensityScale { num: 0, den: 1 }
    }
}

/// Inside the valid range the scale strictly decreases as the volume rises.
pub proof fn lemma_scale_strictly_decreasing(cfg: Config, v1: u32, v2: u32)
    requires
        cfg.valid(),
        in_volume_range(cfg, v1),
        in_volume_range(cfg, v2),
        v1 < v2,
    ensures
        scale_lt(scale_of(cfg, v2), scale_of(cfg, v1)),
{
    let k = cfg.brightness_k as int;
    let a = v1 as int;
    let b = v2 as int;
    assert(k * 100000000 * (65536 * (a * a)) < k * 100000000 * (65536 * (b * b)))
        by (nonlinear_arith)
        requires
            0 < k,
            0 < a < b,
    ;
    assert((65536 * a * a) as u64 == 65536 * (a * a)) by (nonlinear_arith)
        requires
            0 < a <= 10000,
    ;
    assert((65536 * b * b) as u64 == 65536 * (b * b)) by (nonlinear_arith)
        requires
            0 < b <= 10000,
    ;
}

/// Outside the valid range the scale is zero, whatever the sample.
pub proof fn lemma_scale_zero_outside_range(cfg: Config, v: u32)
    requires
        cfg.valid(),
        !in_volume_range(cfg, v),
    ensures
        scale_of(cfg, v).num == 0,
        scale_of(cfg, v).valid(),
{
}

/// A single-slot cell through which volume-change notifications, delivered on
/// another thread, reach the render thread.
///
/// A writer stores the latest master-volume sample; a reader takes whatever
/// sample is newest when it reads. Neither side ever waits on the other, and
/// samples that are overwritten before being read are dropped.
pub struct VolumeHandoff {
    latest: AtomicU32,
}

impl VolumeHandoff {
    /// A cell holding the sample read when the endpoint was acquired.
    pub fn new(initial: u32) -> (r: VolumeHandoff) {
        VolumeHandoff { latest: AtomicU32::new(initial) }
    }

    /// Records a new master-volume sample, replacing any that was not yet read.
    pub fn publish(&self, v: u32) {
        self.latest.store(v, Ordering::Release);
    }

    /// The newest master-volume sample.
    pub fn latest_sample(&self) -> (r: u32) {
        self.latest.load(Ordering::Acquire)
    }

    /// The intensity scale of the newest sample. The sample is read whole,
    /// never torn: the result is the transform of some stored sample.
    pub fn current_scale(&self, cfg: &Config) -> (r: IntensityScale)
        requires
            cfg.valid(),
        ensures
            exists|v: u32| r == scale_of(*cfg, v),
            r.valid(),
    {
        let v = self.latest_sample();
        intensity_scale(cfg, v)
    }
}

} // verus!
