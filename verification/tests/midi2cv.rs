use faderpunk::app::Leds;
use faderpunk::apps::midi2cv::{M2cAction, Midi2Cv, MidiIn, Mode, Storage};
use faderpunk::config::Curve;
use faderpunk::types::{Brightness, Color, LatchLayer, Led, LedMode, LedMsg};

fn lit(led: Led, b: Brightness) -> M2cAction {
    M2cAction::Led((0, led, LedMsg::SetMode(LedMode::Static(Color::Cyan, b))))
}

#[test]
fn midi2cv_gate_counts_held_notes() {
    let leds = Leds::<1>::new(0);
    let (mut m, work) = Midi2Cv::new(&leds, Mode::Gate, Curve::Linear, 32, 36, Color::Cyan, Storage::default(), 0);
    assert_eq!(work, vec![lit(Led::Button, Brightness::Lower), M2cAction::Out(0)]);
    assert_eq!(m.on_midi(&leds, MidiIn::NoteOn(60, 100), 0), vec![M2cAction::Out(4095), lit(Led::Top, Brightness::Lower)]);
    m.on_midi(&leds, MidiIn::NoteOn(64, 100), 0);
    assert!(m.on_midi(&leds, MidiIn::NoteOff(60), 0).is_empty());
    assert_eq!(m.on_midi(&leds, MidiIn::NoteOff(64), 0), vec![M2cAction::Out(0), M2cAction::Led((0, Led::Top, LedMsg::Reset))]);
    assert_eq!(m.note_num, 0);
}

#[test]
fn midi2cv_note_gate_only_its_note() {
    let leds = Leds::<1>::new(0);
    let (mut m, _) = Midi2Cv::new(&leds, Mode::NoteGate, Curve::Linear, 32, 36, Color::Cyan, Storage::default(), 0);
    assert!(m.on_midi(&leds, MidiIn::NoteOn(60, 100), 0).is_empty());
    assert_eq!(m.on_midi(&leds, MidiIn::NoteOn(36, 100), 0)[0], M2cAction::Out(4095));
}

#[test]
fn midi2cv_pitch_and_bend() {
    let leds = Leds::<1>::new(0);
    let (mut m, work) = Midi2Cv::new(&leds, Mode::Pitch, Curve::Linear, 32, 36, Color::Cyan, Storage::default(), 2047);
    assert_eq!(work[1], M2cAction::Out(2048));
    // Key 60 with the octave fader in its middle tenth: 60 * 410 / 12 = 2050.
    let work = m.on_midi(&leds, MidiIn::NoteOn(60, 1), 2048);
    assert_eq!(m.pitch, 2050);
    assert_eq!(work, vec![lit(Led::Top, Brightness::Custom(128))]);
    // The click-free bend starts at 0 and heads for the middle.
    let work = m.on_ms(&leds, LatchLayer::Main, 2047, false);
    // clickless(0, 2048) = 128; 2050 + 128 - 2047 = 131.
    assert_eq!(work, vec![M2cAction::Out(131)]);
    m.on_midi(&leds, MidiIn::PitchBend(2400, 40, 0), 0);
    assert_eq!(m.offset, 2400);
}

#[test]
fn midi2cv_cc_mode_with_attenuation_and_velocity() {
    let leds = Leds::<1>::new(0);
    let (mut m, _) = Midi2Cv::new(&leds, Mode::Cc, Curve::Linear, 32, 36, Color::Cyan, Storage::default(), 0);
    assert!(m.on_midi(&leds, MidiIn::Controller(31, 127), 0).is_empty());
    assert_eq!(m.offset, 0);
    m.on_midi(&leds, MidiIn::Controller(32, 127), 0);
    assert_eq!(m.offset, 4095);
    let work = m.on_ms(&leds, LatchLayer::Main, 0, false);
    assert_eq!(work, vec![M2cAction::Out(255), lit(Led::Top, Brightness::Custom(15))]);
    assert!(m.on_fader(LatchLayer::Alt, 0));
    let work = m.on_ms(&leds, LatchLayer::Alt, 0, true);
    assert_eq!(work[0], M2cAction::Out(0));

    let (mut v, _) = Midi2Cv::new(&leds, Mode::Velocity, Curve::Linear, 32, 36, Color::Cyan, Storage::default(), 0);
    assert_eq!(v.on_midi(&leds, MidiIn::NoteOn(1, 127), 0), vec![M2cAction::Out(4095), lit(Led::Top, Brightness::Custom(255))]);
    let work = v.on_button_down(&leds);
    assert_eq!(work, vec![M2cAction::Led((0, Led::Button, LedMsg::Reset)), M2cAction::Out(0), M2cAction::Led((0, Led::Top, LedMsg::Reset))]);
}
