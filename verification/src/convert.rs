//! Sample-format adaptation.
//!
//! The engine's internal sample is a fixed-point value: an `i64` that stands
//! for `v / 32768` of full scale, so the normalized range is `-32768 ..= 32767`
//! (with `32768` the out-of-range image of exactly full scale).  Conversion to
//! a concrete device representation clamps — it never wraps — and is a pure
//! function of the sample alone, so equal inputs always convert to equal
//! outputs.

use vstd::prelude::*;

verus! {

/// `v` forced into `lo ..= hi`.
pub open spec fn clamp(v: int, lo: int, hi: int) -> int {
    if v < lo {
        lo
    } else if v > hi {
        hi
    } else {
        v
    }
}

/// Adapts a fixed-point sample to a signed 16-bit device sample: the value
/// itself when it is in range, saturated to the nearest bound otherwise.
pub fn convert_i16(v: i64) -> (r: i16)
    ensures
        r as int == clamp(v as int, -32768, 32767),
{
    if v < -32768 {
        -32768
    } else if v > 32767 {
        32767
    } else {
        v as i16
    }
}

/// Adapts a fixed-point sample to an unsigned 16-bit device sample in offset
/// binary: silence sits at 32768, full negative at 0, full positive at 65535.
pub fn convert_u16(v: i64) -> (r: u16)
    ensures
        r as int == clamp(v as int, -32768, 32767) + 32768,
{
    let c = convert_i16(v);
    (c as i32 + 32768) as u16
}

/// Conversion is total and saturating: for every input the signed result lies
/// in the 16-bit range and the unsigned result in the offset-binary range; on
/// the normalized range the signed conversion is exact; outside it the result
/// is pinned to the nearest bound, so no input can wrap.
pub proof fn lemma_convert_clamps(v: int)
    ensures
        -32768 <= clamp(v, -32768, 32767) <= 32767,
        0 <= clamp(v, -32768, 32767) + 32768 <= 65535,
        -32768 <= v <= 32767 ==> clamp(v, -32768, 32767) == v,
        v > 32767 ==> clamp(v, -32768, 32767) == 32767,
        v < -32768 ==> clamp(v, -32768, 32767) == -32768,
{
}

} // verus!
