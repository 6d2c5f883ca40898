//! Battery indicator: lights a share of an eight-LED strip according to a
//! battery percentage, in a colour chosen by thresholds.
use vstd::prelude::*;

verus! {

/// An RGB colour for one LED.
#[derive(PartialEq, Eq, Structural, Debug, Clone, Copy)]
pub struct LedColor(pub i32, pub i32, pub i32);

/// One host call `set_led(index, red, green, blue)` issued by a guest.
#[derive(PartialEq, Eq, Structural, Debug, Clone, Copy)]
pub struct LedWrite {
    pub index: i32,
    pub color: LedColor,
}

/// Sensor identifier of the simulated battery.
pub const SENSOR_BATTERY: i32 = 20;

pub open spec fn spec_off() -> LedColor {
    LedColor(0, 0, 0)
}

#[verifier::when_used_as_spec(spec_off)]
pub fn off() -> (r: LedColor)
    returns
        spec_off(),
{
    LedColor(0, 0, 0)
}

pub open spec fn spec_yellow() -> LedColor {
    LedColor(255, 255, 0)
}

#[verifier::when_used_as_spec(spec_yellow)]
pub fn yellow() -> (r: LedColor)
    returns
        spec_yellow(),
{
    LedColor(255, 255, 0)
}

pub open spec fn spec_green() -> LedColor {
    LedColor(0, 255, 0)
}

#[verifier::when_used_as_spec(spec_green)]
pub fn green() -> (r: LedColor)
    returns
        spec_green(),
{
    LedColor(0, 255, 0)
}

pub open spec fn spec_red() -> LedColor {
    LedColor(255, 0, 0)
}

#[verifier::when_used_as_spec(spec_red)]
pub fn red() -> (r: LedColor)
    returns
        spec_red(),
{
    LedColor(255, 0, 0)
}

/// Whether a percentage is one the indicator displays.
pub open spec fn in_range(pct: int) -> bool {
    0 <= pct <= 100
}

/// Number of lit LEDs: one per started 12.5 percent, i.e. ceil(pct / 12.5).
pub open spec fn lit_count(pct: int) -> int {
    (2 * pct + 24) / 25
}

/// Colour for a percentage: red up to 20, yellow below 50, green from 50 on.
pub open spec fn color_for(pct: int) -> LedColor {
    if pct <= 20 {
        red()
    } else if pct < 50 {
        yellow()
    } else {
        green()
    }
}

/// Colour of LED `i` for a battery percentage.
pub open spec fn led_value(pct: int, i: int) -> LedColor {
    if in_range(pct) && i < lit_count(pct) {
        color_for(pct)
    } else {
        off()
    }
}

/// The host calls that show `values`: LED `i` set to `values[i]`, in order.
pub open spec fn writes_for(values: Seq<LedColor>) -> Seq<LedWrite> {
    Seq::new(values.len(), |i: int| LedWrite { index: i as i32, color: values[i] })
}

/// LED colours for a battery percentage. Outside 0..=100 every LED is off.
pub fn get_led_values(battery_remaining: i32) -> (r: [LedColor; 8])
    ensures
        forall|i: int| 0 <= i < 8 ==> #[trigger] r[i] == led_value(battery_remaining as int, i),
{
    let mut arr: [LedColor; 8] = [off(); 8];
    if battery_remaining < 0 || battery_remaining > 100 {
        return arr;
    }
    let lit: usize = ((2 * battery_remaining + 24) / 25) as usize;
    let color = if battery_remaining <= 20 {
        red()
    } else if battery_remaining < 50 {
        yellow()
    } else {
        green()
    };
    assert(lit <= 8);
    let mut idx: usize = 0;
    while idx < lit
        invariant
            lit == lit_count(battery_remaining as int),
            lit <= 8,
            idx <= lit,
            color == color_for(battery_remaining as int),
            forall|i: int| 0 <= i < idx ==> #[trigger] arr[i] == color,
            forall|i: int| idx <= i < 8 ==> #[trigger] arr[i] == off(),
        decreases lit - idx,
    {
        arr[idx] = color;
        idx = idx + 1;
    }
    arr
}

/// The host calls that show `values` on the strip, LED 0 first.
pub fn set_leds(values: [LedColor; 8]) -> (r: Vec<LedWrite>)
    ensures
        r@ == writes_for(values@),
{
    let mut out: Vec<LedWrite> = Vec::new();
    let mut x: usize = 0;
    while x < 8
        invariant
            x <= 8,
            out@ == writes_for(values@.subrange(0, x as int)),
        decreases 8 - x,
    {
        let c = values[x];
        out.push(LedWrite { index: x as i32, color: c });
        x = x + 1;
        assert(out@ =~= writes_for(values@.subrange(0, x as int)));
    }
    assert(values@.subrange(0, 8) =~= values@);
    out
}

/// Host calls issued on a sensor reading: the battery gauge for the battery
/// sensor, nothing for any other sensor.
pub fn sensor_update(sensor_id: i32, sensor_value: i32) -> (r: Vec<LedWrite>)
    ensures
        sensor_id == SENSOR_BATTERY ==> r@ == writes_for(
            Seq::new(8, |i: int| led_value(sensor_value as int, i)),
        ),
        sensor_id != SENSOR_BATTERY ==> r@.len() == 0,
{
    if sensor_id == SENSOR_BATTERY {
        let values = get_led_values(sensor_value);
        assert(values@ =~= Seq::new(8, |i: int| led_value(sensor_value as int, i)));
        set_leds(values)
    } else {
        Vec::new()
    }
}

/// The battery indicator is not animated: a frame issues no host calls.
pub fn apply(frame: u32) -> (r: Vec<LedWrite>)
    ensures
        r@.len() == 0,
{
    Vec::new()
}

} // verus!
