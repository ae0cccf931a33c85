use vstd::prelude::*;
use crate::config::LEVEL_ONE;
use crate::volume::IntensityScale;

verus! {

/// `x` saturated into the byte range.
pub open spec fn byte_clamp(x: int) -> int {
    if x > 255 {
        255
    } else {
        x
    }
}

/// The brightness byte for a beat level `rolling / LEVEL_ONE` multiplied by the
/// scale `num / den`: the product rounded down, saturated at 255.
pub open spec fn primary_of(rolling: u64, scale: IntensityScale) -> int {
    byte_clamp((rolling * scale.num) / (LEVEL_ONE * scale.den))
}

/// The twelve bytes (four zones of red, green, blue) for a primary byte and a
/// beat index. Zones 0 and 3 carry `(0, primary / 2, primary)`; zones 1 and 2
/// carry `(primary, 0, 0)` and `(0, primary, 0)`, in that order on an even
/// beat index and swapped on an odd one.
pub open spec fn frame_for(p: int, beat_index: int) -> Seq<int> {
    let q = p / 2;
    let m = if beat_index % 2 == 0 { p } else { 0 };
    let n = if beat_index % 2 == 0 { 0 } else { p };
    seq![0, q, p, m, n, 0, n, m, 0, 0, q, p]
}

/// The frame for a beat level, a scale and a beat index.
pub open spec fn frame_of(rolling: u64, scale: IntensityScale, beat_index: int) -> Seq<int> {
    frame_for(primary_of(rolling, scale), beat_index)
}

/// A frame with the colours of zones 1 and 2 exchanged.
pub open spec fn swap_middle_zones(f: Seq<int>) -> Seq<int> {
    seq![f[0], f[1], f[2], f[6], f[7], f[8], f[3], f[4], f[5], f[9], f[10], f[11]]
}

/// Colours for the four zones of the keyboard, three bytes (red, green, blue)
/// per zone.
#[derive(Clone, Copy, Debug, PartialEq, Eq)]
pub struct ZoneColorFrame {
    pub bytes: [u8; 12],
}

impl ZoneColorFrame {
    /// The frame's bytes as integers.
    pub open spec fn view(self) -> Seq<int> {
        self.bytes@.map_values(|b: u8| b as int)
    }

    /// The twelve bytes, zone by zone.
    pub fn as_bytes(&self) -> (r: [u8; 12])
        ensures
            r == self.bytes,
    {
        self.bytes
    }
}

/// Saturates a non-negative integer into a byte.
pub fn clamp_to_byte(x: u128) -> (r: u8)
    ensures
        r == byte_clamp(x as int),
{
    if x > 255 {
        255
    } else {
        x as u8
    }
}

/// The brightness byte for a beat level under a scale: the product rounded
/// down and saturated at 255, never wrapped.
pub fn primary_byte(rolling: u64, scale: &IntensityScale) -> (r: u8)
    requires
        scale.valid(),
    ensures
        r == primary_of(rolling, *scale),
{
    let a = rolling as u128;
    let b = scale.num as u128;
    assert(a * b <= 0xffff_ffff_ffff_ffffu128 * 0xffff_ffff_ffff_ffffu128) by (nonlinear_arith)
        requires a <= 0xffff_ffff_ffff_ffffu128, b <= 0xffff_ffff_ffff_ffffu128;
    let d = (scale.den as u128) * 65536;
    clamp_to_byte((a * b) / d)
}

/// Maps a beat level, a scale and a beat index to the colours of the four
/// zones. The result depends on these three values alone.
pub fn map_colors(rolling: u64, scale: &IntensityScale, beat_index: u64) -> (r: ZoneColorFrame)
    requires
        scale.valid(),
    ensures
        r@ == frame_of(rolling, *scale, beat_index as int),
{
    let p = primary_byte(rolling, scale);
    let q = p / 2;
    let (m, n) = if beat_index % 2 == 0 {
        (p, 0u8)
    } else {
        (0u8, p)
    };
    let r = ZoneColorFrame { bytes: [0, q, p, m, n, 0, n, m, 0, 0, q, p] };
    assert(r@ =~= frame_of(rolling, *scale, beat_index as int));
    r
}

/// Frames computed from identical inputs are identical, byte for byte.
pub proof fn lemma_frame_determined(
    f1: ZoneColorFrame,
    f2: ZoneColorFrame,
    rolling: u64,
    scale: IntensityScale,
    beat_index: int,
)
    requires
        f1@ == frame_of(rolling, scale, beat_index),
        f2@ == frame_of(rolling, scale, beat_index),
    ensures
        f1 == f2,
{
    assert forall|i: int| 0 <= i < 12 implies f1.bytes@[i] == f2.bytes@[i] by {
        assert(f1@[i] == f2@[i]);
    }
    assert(f1.bytes@ =~= f2.bytes@);
    assert(f1.bytes =~= f2.bytes);
}

/// Beat indices two apart give the same frame; consecutive beat indices give
/// frames that differ by exchanging zones 1 and 2.
pub proof fn lemma_beat_parity(rolling: u64, scale: IntensityScale, beat_index: int)
    ensures
        frame_of(rolling, scale, beat_index + 2) == frame_of(rolling, scale, beat_index),
        frame_of(rolling, scale, beat_index + 1) == swap_middle_zones(
            frame_of(rolling, scale, beat_index),
        ),
{
    let f = frame_of(rolling, scale, beat_index);
    assert(frame_of(rolling, scale, beat_index + 2) =~= f);
    assert(frame_of(rolling, scale, beat_index + 1) =~= swap_middle_zones(f));
}

/// Every byte of a frame is the saturated value of its exact product, or half
/// of it, or zero: it never wraps around.
pub proof fn lemma_frame_saturates(rolling: u64, scale: IntensityScale, beat_index: int)
    requires
        scale.valid(),
    ensures
        forall|i: int|
            0 <= i < 12 ==> 0 <= #[trigger] frame_of(rolling, scale, beat_index)[i] <= 255,
        0 <= primary_of(rolling, scale) <= 255,
        (rolling * scale.num) / (LEVEL_ONE * scale.den) <= 255 ==> primary_of(rolling, scale)
            == (rolling * scale.num) / (LEVEL_ONE * scale.den),
{
    let x = (rolling * scale.num) / (LEVEL_ONE * scale.den);
    assert(x >= 0) by (nonlinear_arith)
        requires rolling >= 0, scale.num >= 0, scale.den > 0, LEVEL_ONE == 65536, x == (rolling * scale.num) / (LEVEL_ONE * scale.den);
}

} // verus!
