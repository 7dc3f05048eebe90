//! The ship-status gauges: stateless presentation data. A gauge carries a
//! label, a color and a fill ratio in thousandths of full scale; the ratio
//! is clamped into range at construction, never rejected, since gauge
//! values come from static ship data rather than user input.

use vstd::prelude::*;
use vstd::string::StringExecFns;
use crate::color::Color;

verus! {

/// Full scale of a gauge ratio, in thousandths: a ratio of 1.0 is
/// `RATIO_SCALE`, a ratio of 0.5 is half of it.
pub const RATIO_SCALE: u16 = 1000;

/// `v` clamped into `[0, RATIO_SCALE]`.
pub open spec fn clamp_ratio_spec(v: int) -> int {
    if v < 0 {
        0
    } else if v > RATIO_SCALE as int {
        RATIO_SCALE as int
    } else {
        v
    }
}

/// Clamps a raw ratio, in thousandths of full scale, into
/// `[0, RATIO_SCALE]`. Values above full scale saturate at full scale,
/// values below zero at zero.
pub fn clamp_ratio(value: i64) -> (r: u16)
    ensures
        r as int == clamp_ratio_spec(value as int),
        r <= RATIO_SCALE,
{
    if value < 0 {
        0
    } else if value > RATIO_SCALE as i64 {
        RATIO_SCALE
    } else {
        value as u16
    }
}

/// Clamping is idempotent, and saturated inputs are indistinguishable
/// after clamping: every ratio at or above full scale clamps to the same
/// value as full scale itself, and every ratio at or below zero to the
/// same value as zero, so an out-of-range gauge renders exactly as the
/// nearest in-range one.
pub proof fn lemma_clamp_saturates(v: int)
    ensures
        clamp_ratio_spec(clamp_ratio_spec(v)) == clamp_ratio_spec(v),
        v >= RATIO_SCALE as int ==> clamp_ratio_spec(v) == clamp_ratio_spec(RATIO_SCALE as int),
        v <= 0 ==> clamp_ratio_spec(v) == clamp_ratio_spec(0),
{
}

/// One labelled gauge: the rendering backend paints a bar filled
/// `value / RATIO_SCALE` of the way, in `color`, inside a box titled
/// `name`. The stored value is always in range, so what is painted
/// depends only on these three fields.
#[derive(Debug)]
pub struct MyGauge {
    pub name: String,
    pub value: u16,
    pub color: Color,
}

impl MyGauge {
    /// The stored ratio is clamped.
    pub open spec fn wf(self) -> bool {
        self.value <= RATIO_SCALE
    }

    /// A gauge with the given label and color; `value` is in thousandths
    /// of full scale and is clamped into `[0, RATIO_SCALE]`.
    pub fn new(name: &str, value: i64, color: Color) -> (g: MyGauge)
        ensures
            g.name@ == name@,
            g.value as int == clamp_ratio_spec(value as int),
            g.color == color,
            g.wf(),
    {
        MyGauge { name: String::from_str(name), value: clamp_ratio(value), color }
    }
}

/// The ship-status panel: the three fixed gauges of the console, in the
/// order they are stacked on screen.
#[derive(Debug)]
pub struct ShipStatus {
    pub shields: MyGauge,
    pub power: MyGauge,
    pub fuel: MyGauge,
}

impl ShipStatus {
    /// All three gauges hold in-range values.
    pub open spec fn wf(self) -> bool {
        &&& self.shields.wf()
        &&& self.power.wf()
        &&& self.fuel.wf()
    }

    /// The console's fixed ship status: shields at nine tenths, power at
    /// one half, fuel at three tenths.
    pub fn new() -> (s: ShipStatus)
        ensures
            s.wf(),
            s.shields.name@ == "Shields"@ && s.shields.value == 900 && s.shields.color
                == Color::Blue,
            s.power.name@ == "Power"@ && s.power.value == 500 && s.power.color == Color::Yellow,
            s.fuel.name@ == "Fuel"@ && s.fuel.value == 300 && s.fuel.color == Color::Red,
    {
        ShipStatus {
            shields: MyGauge::new("Shields", 900, Color::Blue),
            power: MyGauge::new("Power", 500, Color::Yellow),
            fuel: MyGauge::new("Fuel", 300, Color::Red),
        }
    }
}

} // verus!
