use faderpunk::app::Leds;
use faderpunk::apps::calibration::{find_snap_target, get_voltage_color, Calibration};
use faderpunk::apps::calibration_unipolar;
use faderpunk::apps::lfo::{get_color_for, Waveform};
use faderpunk::types::{Brightness, Color, Led, LedMode, LedMsg};

#[test]
fn bipolar_snaps_within_threshold() {
    assert_eq!(find_snap_target(2040, [false; 9]), Some((0, 2047)));
    assert_eq!(find_snap_target(1000, [false; 9]), None);
    assert_eq!(find_snap_target(3735, [false; 9]), Some((4, 3686)));
    assert_eq!(find_snap_target(3736, [false; 9]), None);
    let mut close = [false; 9];
    close[0] = true;
    assert_eq!(find_snap_target(1000, close), Some((-4, 410)));
}

#[test]
fn unipolar_snaps_within_threshold() {
    assert_eq!(calibration_unipolar::find_snap_target(0, [false; 11]), Some((0, 0)));
    assert_eq!(calibration_unipolar::find_snap_target(4050, [false; 11]), Some((10, 4095)));
    assert_eq!(calibration_unipolar::find_snap_target(2300, [false; 11]), None);
}

#[test]
fn voltage_colors() {
    assert_eq!(get_voltage_color(-4), Color::Red);
    assert_eq!(get_voltage_color(4), Color::Lime);
    assert_eq!(get_voltage_color(9), Color::Violet);
    assert_eq!(calibration_unipolar::get_voltage_color(10), Color::PaleGreen);
    assert_eq!(calibration_unipolar::get_voltage_color(-1), Color::Violet);
}

#[test]
fn poll_reports_new_snaps_only() {
    let leds: Leds<1> = Leds::new(2);
    let mut cal = Calibration::new(100);
    assert!(cal.poll(&leds, 1000, [false; 9]).is_empty());
    assert_eq!(cal.output_value, 100);
    let out = cal.poll(&leds, 2050, [false; 9]);
    assert_eq!(cal.output_value, 2047);
    assert_eq!(cal.snapped_voltage, Some(0));
    assert_eq!(out.len(), 3);
    assert_eq!(out[0], (2, Led::Button, LedMsg::SetMode(LedMode::Static(Color::White, Brightness::Lower))));
    assert_eq!(out[2], (2, Led::Bottom, LedMsg::SetMode(LedMode::Static(Color::White, Brightness::Custom(0)))));
    assert!(cal.poll(&leds, 2060, [false; 9]).is_empty());
    assert!(cal.poll(&leds, 1000, [false; 9]).is_empty());
    assert_eq!(cal.output_value, 2047);
}

#[test]
fn lfo_wave_colors() {
    assert_eq!(get_color_for(Waveform::Sine), Color::Yellow);
    assert_eq!(get_color_for(Waveform::SawInv), Color::Red);
    assert_eq!(get_color_for(Waveform::Square), Color::White);
}
