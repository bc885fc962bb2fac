use faderpunk::app::Leds;
use faderpunk::apps::turing::{Storage, Turing, TuringAction};
use faderpunk::types::{Brightness, Color, LatchLayer, Led, LedMode, LedMsg};

fn lit(led: Led, color: Color, b: Brightness) -> TuringAction {
    TuringAction::Led((7, led, LedMsg::SetMode(LedMode::Static(color, b))))
}

fn started(midi_mode: u8) -> (Turing, Leds<1>) {
    let leds = Leds::<1>::new(7);
    let (t, work) = Turing::new(&leds, midi_mode, 5, 1, 50, Color::Blue, Storage::default());
    assert_eq!(work, vec![lit(Led::Button, Color::Blue, Brightness::Lower)]);
    (t, leds)
}

#[test]
fn turing_app_step_plays_quantized_note() {
    let (mut t, leds) = started(1);
    assert_eq!(t.div, 6);
    assert_eq!(t.tick_start(0), Some(0));
    let (work, save) = t.tick_end(&leds, Some((60, 1000)), false);
    assert!(!save);
    assert_eq!(
        work,
        vec![TuringAction::Out(1000), lit(Led::Top, Color::Blue, Brightness::Custom(0)), TuringAction::NoteOn(61)]
    );
    assert_eq!(t.midi_note, 61);
    // Ticks 1 and 2 do nothing; tick 3 ends the note.
    for _ in 0..2 {
        assert_eq!(t.tick_start(0), None);
        let (work, _) = t.tick_end(&leds, None, false);
        assert!(work.is_empty());
    }
    assert_eq!(t.tick_start(0), None);
    let (work, _) = t.tick_end(&leds, None, false);
    assert_eq!(work, vec![TuringAction::Led((7, Led::Bottom, LedMsg::Reset)), TuringAction::NoteOff(61)]);
}

#[test]
fn turing_app_flip_chance_and_depth() {
    let (mut t, leds) = started(2);
    let (work, save) = t.on_fader(LatchLayer::Main, 4095);
    assert!(work.is_empty() && !save);
    assert_eq!(t.latch_target(LatchLayer::Main), 4095);
    // Certain flip: the injected bit becomes 1; the exponential depth curve at 3000 is 1611.
    assert_eq!(t.tick_start(0), Some(808));
    assert_eq!(t.register, 32768);
    let (work, save) = t.tick_end(&leds, Some((10, 500)), true);
    assert_eq!(
        work,
        vec![
            TuringAction::Out(500),
            lit(Led::Top, Color::Blue, Brightness::Custom(128)),
            TuringAction::Cc(4, 808),
            lit(Led::Bottom, Color::Red, Brightness::Low),
        ]
    );
    // The cycle start stores the changed register.
    assert!(save);
    assert_eq!(t.stored.register_saved, 32768);
}

#[test]
fn turing_app_length_recording_and_scene_recall() {
    let (mut t, leds) = started(0);
    let (work, save) = t.on_frame(&leds, true, false);
    assert!(!save);
    assert_eq!(work, vec![lit(Led::Top, Color::Red, Brightness::Custom(187))]);
    for _ in 0..5 {
        t.on_button_down(true);
    }
    let (_, save) = t.on_frame(&leds, false, false);
    assert!(save);
    assert_eq!(t.stored.length_saved, 5);

    let (work, save) = t.on_fader(LatchLayer::Third, 4095);
    assert!(save);
    assert_eq!(t.div, 2);
    assert_eq!(work, vec![TuringAction::NoteOff(0)]);

    let mut stored = Storage::default();
    stored.register_saved = 0xABCD;
    t.on_fader(LatchLayer::Main, 4095);
    t.on_scene_load(stored);
    assert!(t.recall);
    assert_eq!(t.prob, 0);
    assert_eq!(t.div, 6);
    t.tick_start(0);
    let (work, save) = t.tick_end(&leds, Some((0, 0)), false);
    assert!(!save);
    assert_eq!(work.last(), Some(&TuringAction::NoteOff(0)));
    assert_eq!(t.register, 0xABCD);
    assert!(!t.recall);

    let off = t.on_reset();
    assert_eq!(off, TuringAction::NoteOff((t.att_reg / 32) as u8));
    assert_eq!(t.clkn, 0);
}
