//! Calibration: the fader snaps the bipolar output to whole volts (-4..4) so
//! the DAC can be checked against a meter.

use vstd::prelude::*;

use crate::app::{LedRequest, Leds};
use crate::scaling::{split_unsigned, split_unsigned_value};
use crate::types::{Brightness, Color, Led, LedMode, LedMsg};

verus! {

/// Color of the app's LEDs away from a target.
pub const LED_COLOR: Color = Color::Violet;
/// How near (in DAC counts) the fader must be to snap to a target.
pub const SNAP_THRESHOLD: u16 = 50;
/// Number of voltage targets.
pub const TARGET_COUNT: usize = 9;
/// Calibration voltages and their DAC values (-5V..5V over 0..4095).
pub const VOLTAGE_TARGETS: [(i32, u16); 9] = [
    (-4, 410),
    (-3, 819),
    (-2, 1229),
    (-1, 1638),
    (0, 2047),
    (1, 2457),
    (2, 2867),
    (3, 3276),
    (4, 3686),
];

/// Color of a calibration voltage.
pub open spec fn voltage_color(voltage: i32) -> Color {
    if voltage == -4 {
        Color::Red
    } else if voltage == -3 {
        Color::Orange
    } else if voltage == -2 {
        Color::Yellow
    } else if voltage == -1 {
        Color::Green
    } else if voltage == 0 {
        Color::White
    } else if voltage == 1 {
        Color::Cyan
    } else if voltage == 2 {
        Color::Blue
    } else if voltage == 3 {
        Color::Pink
    } else if voltage == 4 {
        Color::Lime
    } else {
        LED_COLOR
    }
}

/// The color that marks a calibration voltage.
pub fn get_voltage_color(voltage: i32) -> (r: Color)
    ensures
        r == voltage_color(voltage),
{
    match voltage {
        -4 => Color::Red,
        -3 => Color::Orange,
        -2 => Color::Yellow,
        -1 => Color::Green,
        0 => Color::White,
        1 => Color::Cyan,
        2 => Color::Blue,
        3 => Color::Pink,
        4 => Color::Lime,
        _ => LED_COLOR,
    }
}

/// Whether the fader is near target `i`: the closeness test of the library
/// said so, or it is less than the snap threshold away.
pub open spec fn snaps_to(fader_value: u16, close: [bool; 9], i: int) -> bool {
    close[i] || (if fader_value >= VOLTAGE_TARGETS[i].1 {
        fader_value - VOLTAGE_TARGETS[i].1
    } else {
        VOLTAGE_TARGETS[i].1 - fader_value
    }) < SNAP_THRESHOLD
}

/// The first target the fader snaps to, from target `i` on.
pub open spec fn snap_from(fader_value: u16, close: [bool; 9], i: int) -> Option<(i32, u16)>
    decreases 9 - i,
{
    if i >= 9 || i < 0 {
        None
    } else if snaps_to(fader_value, close, i) {
        Some(VOLTAGE_TARGETS[i])
    } else {
        snap_from(fader_value, close, i + 1)
    }
}

/// The first voltage target the fader snaps to; `close[i]` is the library's
/// closeness test of the fader value against target `i`.
pub fn find_snap_target(fader_value: u16, close: [bool; 9]) -> (r: Option<(i32, u16)>)
    ensures
        r == snap_from(fader_value, close, 0),
{
    let mut i: usize = 0;
    while i < TARGET_COUNT
        invariant
            i <= 9,
            snap_from(fader_value, close, 0) == snap_from(fader_value, close, i as int),
        decreases 9 - i,
    {
        let (voltage, target) = VOLTAGE_TARGETS[i];
        let distance = if fader_value >= target {
            fader_value - target
        } else {
            target - fader_value
        };
        if close[i] || distance < SNAP_THRESHOLD {
            return Some((voltage, target));
        }
        i += 1;
    }
    None
}

/// The calibration output: the DAC value sent and the voltage last snapped to.
#[derive(Clone, Copy)]
pub struct Calibration {
    pub output_value: u16,
    pub snapped_voltage: Option<i32>,
}

/// The LEDs that show a snap to `voltage` at DAC value `value`: the
/// button dimly, top and bottom as the value's meter, in the voltage's color.
pub open spec fn snap_leds(leds: Leds<1>, voltage: i32, value: u16) -> Seq<LedRequest> {
    let color = voltage_color(voltage);
    let parts = split_unsigned(value);
    let ch = leds.device_channel(0) as usize;
    seq![
        (ch, Led::Button, LedMsg::SetMode(LedMode::Static(color, Brightness::Lower))),
        (ch, Led::Top, LedMsg::SetMode(LedMode::Static(color, Brightness::Custom(parts[0])))),
        (ch, Led::Bottom, LedMsg::SetMode(LedMode::Static(color, Brightness::Custom(parts[1])))),
    ]
}

impl Calibration {
    /// Output `initial`, nothing snapped yet.
    pub fn new(initial: u16) -> (r: Self)
        ensures
            r.output_value == initial,
            r.snapped_voltage is None,
    {
        Calibration { output_value: initial, snapped_voltage: None }
    }

    /// One poll of the fader: snapping to a new voltage sets the output to
    /// its DAC value and returns the LEDs that show it; otherwise the output
    /// stays. The output to send is `output_value` afterwards.
    pub fn poll(&mut self, leds: &Leds<1>, fader_value: u16, close: [bool; 9]) -> (r: Vec<LedRequest>)
        requires
            leds.start_channel + 1 <= usize::MAX,
        ensures
            match snap_from(fader_value, close, 0) {
                Some((voltage, target)) => if old(self).snapped_voltage != Some(voltage) {
                    &&& final(self).output_value == target
                    &&& final(self).snapped_voltage == Some(voltage)
                    &&& r@ == snap_leds(*leds, voltage, target)
                } else {
                    *final(self) == *old(self) && r@.len() == 0
                },
                None => *final(self) == *old(self) && r@.len() == 0,
            },
    {
        let mut out: Vec<LedRequest> = Vec::new();
        match find_snap_target(fader_value, close) {
            Some((voltage, target)) => {
                let changed = match self.snapped_voltage {
                    Some(v) => v != voltage,
                    None => true,
                };
                if changed {
                    self.snapped_voltage = Some(voltage);
                    self.output_value = target;
                    let color = get_voltage_color(voltage);
                    out.push(leds.set(0, Led::Button, color, Brightness::Lower));
                    let parts = split_unsigned_value(target);
                    out.push(leds.set(0, Led::Top, color, Brightness::Custom(parts[0])));
                    out.push(leds.set(0, Led::Bottom, color, Brightness::Custom(parts[1])));
                    assert(out@ =~= snap_leds(*leds, voltage, target));
                }
            },
            None => {},
        }
        out
    }
}

} // verus!
