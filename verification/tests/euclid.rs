use faderpunk::app::Leds;
use faderpunk::apps::euclid::{Euclid, EuclidAction, Storage};
use faderpunk::types::{Brightness, Color, LatchLayer, Led, LedMode, LedMsg};

fn lit(chan: usize, led: Led, color: Color, b: Brightness) -> EuclidAction {
    EuclidAction::Led((chan, led, LedMsg::SetMode(LedMode::Static(color, b))))
}

fn started() -> (Euclid, Leds<2>) {
    let leds = Leds::<2>::new(4);
    let (e, _) = Euclid::new(&leds, 32, 33, 50, Color::Yellow, Storage::default());
    (e, leds)
}

#[test]
fn start_takes_pattern_from_faders() {
    let leds = Leds::<2>::new(4);
    let (e, work) = Euclid::new(&leds, 32, 33, 50, Color::Yellow, Storage::default());
    assert_eq!(e.num_beat, 8);
    assert_eq!(e.num_step, 3);
    assert_eq!(e.rotation, 0);
    assert_eq!(e.div, 6);
    assert_eq!((e.note, e.note2), (31, 32));
    assert_eq!(
        work,
        vec![
            lit(5, Led::Button, Color::Yellow, Brightness::Lower),
            lit(4, Led::Button, Color::Yellow, Brightness::Lower),
        ]
    );
}

#[test]
fn three_in_eight_with_downbeat() {
    let (mut e, leds) = started();
    let work = e.on_tick(&leds, LatchLayer::Main, 0);
    assert_eq!(
        work,
        vec![
            EuclidAction::NoteOn(31),
            EuclidAction::GateHigh(0),
            EuclidAction::GateHigh(1),
            EuclidAction::NoteOn(32),
            lit(4, Led::Top, Color::Yellow, Brightness::Default),
            lit(5, Led::Top, Color::Yellow, Brightness::Default),
        ]
    );
    e.on_tick(&leds, LatchLayer::Main, 0);
    e.on_tick(&leds, LatchLayer::Main, 0);
    // Half a step in, both gates close.
    let work = e.on_tick(&leds, LatchLayer::Main, 0);
    assert_eq!(
        work,
        vec![
            EuclidAction::NoteOff(31),
            EuclidAction::GateLow(0),
            EuclidAction::NoteOff(32),
            EuclidAction::GateLow(1),
            lit(4, Led::Bottom, Color::Yellow, Brightness::Custom(0)),
            lit(4, Led::Top, Color::Yellow, Brightness::Custom(0)),
            lit(5, Led::Top, Color::Yellow, Brightness::Custom(0)),
        ]
    );
    e.on_tick(&leds, LatchLayer::Main, 0);
    e.on_tick(&leds, LatchLayer::Main, 0);
    // Steps 1 and 2 are rests; step 3 fires (pattern 1001001).
    let mut fired = Vec::new();
    for step in 1..8u16 {
        for t in 0..6u16 {
            let work = e.on_tick(&leds, LatchLayer::Alt, 0);
            if t == 0 && work.contains(&EuclidAction::NoteOn(31)) {
                fired.push(step);
            }
        }
    }
    assert_eq!(fired, vec![3, 6]);
}

#[test]
fn probability_fader_gates_the_first_output() {
    let (mut e, leds) = started();
    e.on_fader(1, LatchLayer::Alt, 99);
    let work = e.on_tick(&leds, LatchLayer::Third, 0);
    // The roll is raised to 100, above the fader: only the downbeat output plays.
    assert_eq!(
        work,
        vec![
            EuclidAction::GateHigh(1),
            EuclidAction::NoteOn(32),
            lit(4, Led::Bottom, Color::Red, Brightness::Lower),
        ]
    );
}

#[test]
fn fill_mode_plays_where_the_first_is_silent() {
    let (mut e, leds) = started();
    let (work, save) = e.on_button_down(&leds, 1, true);
    assert!(save && !e.stored.mode);
    assert_eq!(work, vec![lit(5, Led::Button, Color::Yellow, Brightness::Low)]);
    let work = e.on_tick(&leds, LatchLayer::Third, 0);
    // The first output fires, so the second stays quiet.
    assert_eq!(
        work,
        vec![
            EuclidAction::NoteOn(31),
            EuclidAction::GateHigh(0),
            lit(4, Led::Bottom, Color::Red, Brightness::Lower),
        ]
    );
}

#[test]
fn muting_silences_ticks_and_toggles_back() {
    let (mut e, leds) = started();
    let (work, save) = e.on_button_down(&leds, 1, false);
    assert!(save && e.muted && e.stored.mute_saved);
    assert_eq!(
        work,
        vec![
            EuclidAction::GateLow(0),
            EuclidAction::Led((5, Led::Top, LedMsg::Reset)),
            EuclidAction::Led((5, Led::Bottom, LedMsg::Reset)),
            EuclidAction::Led((5, Led::Button, LedMsg::Reset)),
        ]
    );
    let work = e.on_tick(&leds, LatchLayer::Third, 0);
    assert_eq!(work, vec![lit(4, Led::Bottom, Color::Red, Brightness::Lower)]);
    assert_eq!(e.on_frame(&leds, LatchLayer::Main), vec![EuclidAction::Led((5, Led::Button, LedMsg::Reset))]);
    let (work, _) = e.on_button_down(&leds, 1, false);
    assert!(!e.muted && !e.stored.mute_saved);
    assert_eq!(work, vec![lit(5, Led::Button, Color::Yellow, Brightness::Lower)]);
    let (work, save) = e.on_button_down(&leds, 0, false);
    assert!(!save && work.is_empty());
}

#[test]
fn faders_set_steps_rotation_and_division() {
    let (mut e, _) = started();
    assert_eq!(e.latch_target(0, LatchLayer::Third), 3000);
    assert!(e.on_fader(0, LatchLayer::Main, 4095));
    assert_eq!(e.num_beat, 16);
    assert_eq!(e.num_step, 7);
    assert!(e.on_fader(0, LatchLayer::Alt, 2048));
    assert_eq!(e.rotation, 8);
    assert!(e.on_fader(0, LatchLayer::Third, 4095));
    assert_eq!(e.div, 2);
    assert!(e.on_fader(0, LatchLayer::Third, 0));
    assert_eq!(e.div, 384);
    assert!(!e.on_fader(1, LatchLayer::Third, 100));

    let mut stored = Storage::default();
    stored.div_saved = 2100;
    stored.mute_saved = true;
    e.on_scene_load(stored);
    assert_eq!(e.div, 12);
    assert!(e.muted);
    assert_eq!(e.num_beat, 8);

    let leds = Leds::<2>::new(4);
    let work = e.on_reset();
    assert_eq!(work, vec![EuclidAction::NoteOff(31), EuclidAction::NoteOff(32), EuclidAction::GateLow(0)]);
    assert_eq!(e.clkn, 0);
    assert_eq!(e.on_frame(&leds, LatchLayer::Alt), vec![lit(5, Led::Button, Color::Yellow, Brightness::Lowest)]);
}
