use faderpunk::app::Leds;
use faderpunk::apps::clkturing::{ClkAction, ClkTuring, Storage};
use faderpunk::types::{Brightness, Color, Led, LedMode, LedMsg};

fn lit(chan: usize, led: Led, color: Color, b: Brightness) -> ClkAction {
    ClkAction::Led((chan, led, LedMsg::SetMode(LedMode::Static(color, b))))
}

fn started(mode: u8) -> (ClkTuring, Leds<2>) {
    let leds = Leds::<2>::new(10);
    let (t, work) = ClkTuring::new(&leds, mode, 3, Color::Green, Storage::default());
    assert_eq!(work.len(), 2);
    assert_eq!(work[1], lit(11, Led::Button, Color::Green, Brightness::Lower));
    (t, leds)
}

#[test]
fn clkturing_steps_on_rising_edge_only() {
    let (mut t, leds) = started(1);
    assert_eq!(t.ms_start(500, 0), Some(0));
    let work = t.ms_end(&leds, Some((60, 999)));
    assert_eq!(
        work,
        vec![
            ClkAction::Out(999),
            lit(10, Led::Top, Color::Green, Brightness::Custom(0)),
            lit(11, Led::Top, Color::Green, Brightness::Custom(0)),
            ClkAction::NoteOn(60),
            lit(10, Led::Bottom, Color::Red, Brightness::Low),
        ]
    );
    // Still high: nothing.
    assert_eq!(t.ms_start(600, 0), None);
    assert!(t.ms_end(&leds, None).is_empty());
    // Falling edge: the note stops.
    assert_eq!(t.ms_start(100, 0), None);
    assert_eq!(
        t.ms_end(&leds, None),
        vec![lit(10, Led::Bottom, Color::Red, Brightness::Custom(0)), ClkAction::NoteOff(60)]
    );
}

#[test]
fn clkturing_every_second_fader_change_counts() {
    let (mut t, leds) = started(2);
    assert!(!t.fader_event());
    assert!(t.fader_event());
    assert!(!t.on_fader(0, 4095));
    assert_eq!(t.prob, 4095);
    assert_eq!(t.ms_start(4095, 0), Some(1505));
    assert_eq!(t.register, 32768);
    let work = t.ms_end(&leds, Some((0, 7)));
    assert_eq!(work[3], ClkAction::Cc(2, 1505));
    // The register between steps only follows on the falling edge.
    assert_eq!(t.register_glob, 0);
    t.ms_start(0, 0);
    t.ms_end(&leds, None);
    assert_eq!(t.register_glob, 32768);
    assert!(t.on_fader(1, 100));
    assert_eq!(t.stored.att_saved, 100);
}

#[test]
fn clkturing_records_length_with_shift() {
    let (mut t, _) = started(0);
    assert!(!t.on_shift_frame(true));
    for _ in 0..6 {
        t.on_button_down(true);
    }
    assert!(!t.on_shift_frame(true));
    assert!(t.on_shift_frame(false));
    assert_eq!(t.length, 5);
    assert_eq!(t.stored.length_saved, 6);
    // A single press records nothing.
    t.on_shift_frame(true);
    t.on_button_down(true);
    assert!(!t.on_shift_frame(false));
    assert_eq!(t.length, 5);

    let mut stored = Storage::default();
    stored.register_saved = 77;
    t.on_scene_load(stored);
    assert_eq!((t.length, t.register_glob, t.prob), (8, 77, 0));
}
