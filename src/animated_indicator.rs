//! Animated indicator: a single red LED that sweeps along the strip and back.
use vstd::prelude::*;
use crate::battery_indicator::{LedColor, LedWrite, writes_for};

verus! {

/// Position of the lit LED at each of the sixteen animation steps.
pub open spec fn keyframe(i: int) -> i32 {
    if i < 8 {
        i as i32
    } else {
        (15 - i) as i32
    }
}

/// The host calls that draw `frame`: every LED off, then the keyframe's LED red.
pub open spec fn frame_writes(frame: int) -> Seq<LedWrite> {
    writes_for(Seq::new(8, |i: int| LedColor(0, 0, 0))).push(
        LedWrite { index: keyframe(frame % 16), color: LedColor(255, 0, 0) },
    )
}

fn keyframe_at(i: usize) -> (r: i32)
    requires
        i < 16,
    ensures
        r == keyframe(i as int),
{
    let keyframes: [i32; 16] = [0, 1, 2, 3, 4, 5, 6, 7, 7, 6, 5, 4, 3, 2, 1, 0];
    keyframes[i]
}

/// This indicator ignores sensor readings: no host calls.
pub fn sensor_update(sensor_id: i32, sensor_value: i32) -> (r: Vec<LedWrite>)
    ensures
        r@.len() == 0,
{
    Vec::new()
}

/// The host calls that draw animation frame `frame`.
pub fn apply(frame: i32) -> (r: Vec<LedWrite>)
    requires
        frame >= 0,
    ensures
        r@ == frame_writes(frame as int),
{
    let idx: usize = (frame % 16) as usize;
    let mut out: Vec<LedWrite> = Vec::new();
    let mut index: i32 = 0;
    while index < 8
        invariant
            0 <= index <= 8,
            out@ == writes_for(Seq::new(index as nat, |i: int| LedColor(0, 0, 0))),
        decreases 8 - index,
    {
        out.push(LedWrite { index, color: LedColor(0, 0, 0) });
        index = index + 1;
        assert(out@ =~= writes_for(Seq::new(index as nat, |i: int| LedColor(0, 0, 0))));
    }
    out.push(LedWrite { index: keyframe_at(idx), color: LedColor(255, 0, 0) });
    out
}

} // verus!
