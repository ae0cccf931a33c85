use vstd::prelude::*;

verus! {

/// Denominator of a master-volume sample: `VOLUME_ONE` stands for full volume.
pub const VOLUME_ONE: u32 = 10000;

/// Denominator of a beat level: `LEVEL_ONE` stands for a level of 1.0.
pub const LEVEL_ONE: u64 = 65536;

/// Tunable constants of the lighting core.
///
/// * the decay factor is `decay_num / decay_den`, strictly between 0 and 1;
/// * the brightness constant `K` is `brightness_k / LEVEL_ONE`, positive;
/// * the frame rate is `frame_rate_hz` ticks per second, positive;
/// * the volume floor is `volume_floor / VOLUME_ONE`, strictly between 0 and 1.
#[derive(Clone, Copy, Debug, PartialEq, Eq, Structural)]
pub struct Config {
    pub decay_num: u32,
    pub decay_den: u32,
    pub brightness_k: u32,
    pub frame_rate_hz: u32,
    pub volume_floor: u32,
}

impl Config {
    pub open spec fn valid(self) -> bool {
        &&& 0 < self.decay_num < self.decay_den
        &&& 0 < self.brightness_k
        &&& 0 < self.frame_rate_hz
        &&& 0 < self.volume_floor < VOLUME_ONE
    }

    /// Builds a configuration, or `None` when one of the constants is out of
    /// its range.
    pub fn new(
        decay_num: u32,
        decay_den: u32,
        brightness_k: u32,
        frame_rate_hz: u32,
        volume_floor: u32,
    ) -> (r: Option<Config>)
        ensures
            r.is_some() <==> (Config {
                decay_num,
                decay_den,
                brightness_k,
                frame_rate_hz,
                volume_floor,
            }).valid(),
            r.is_some() ==> r.unwrap() == (Config {
                decay_num,
                decay_den,
                brightness_k,
                frame_rate_hz,
                volume_floor,
            }),
    {
        let c = Config { decay_num, decay_den, brightness_k, frame_rate_hz, volume_floor };
        if 0 < decay_num && decay_num < decay_den && 0 < brightness_k && 0 < frame_rate_hz
            && 0 < volume_floor && volume_floor < VOLUME_ONE {
            Some(c)
        } else {
            None
        }
    }

    /// The usual settings: decay 0.9, brightness constant 32, 30 frames per
    /// second, volume floor 0.1.
    pub fn standard() -> (r: Config)
        ensures
            r.valid(),
            r.decay_num == 9 && r.decay_den == 10,
            r.brightness_k == 32 * LEVEL_ONE,
            r.frame_rate_hz == 30,
            r.volume_floor == 1000,
    {
        Config {
            decay_num: 9,
            decay_den: 10,
            brightness_k: 2097152,
            frame_rate_hz: 30,
            volume_floor: 1000,
        }
    }
}

} // verus!
