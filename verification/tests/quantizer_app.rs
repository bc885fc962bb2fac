use faderpunk::app::Leds;
use faderpunk::apps::quantizer::{QuantAction, QuantizerApp, Storage};
use faderpunk::types::{Brightness, Color, Led, LedMode, LedMsg};

fn lit(chan: usize, led: Led, b: Brightness) -> QuantAction {
    QuantAction::Led((chan, led, LedMsg::SetMode(LedMode::Static(Color::Green, b))))
}

#[test]
fn quantizer_app_shifts_and_shows() {
    let leds = Leds::<2>::new(0);
    let (mut q, work) = QuantizerApp::new(&leds, Color::Green, Storage::default());
    assert_eq!(work.len(), 2);
    // Octave fader 2047 is just below the middle tenth: one octave down.
    assert_eq!(q.ms_start(1000), 590);
    let work = q.ms_end(&leds, 1024);
    assert_eq!(work, vec![QuantAction::Out(1024), lit(0, Led::Top, Brightness::Custom(0)), lit(0, Led::Bottom, Brightness::Custom(127)), lit(1, Led::Top, Brightness::Custom(0))]);
    // One octave up, one semitone up.
    q.on_fader(0, 2457);
    q.on_fader(1, 342);
    assert_eq!(q.ms_start(1000), 1000 + 410 + 34);
    assert_eq!(q.ms_end(&leds, 0)[3], lit(1, Led::Top, Brightness::Custom(21)));
    // Four semitones: the 16-bit product wraps (136 * 255 = 34680).
    q.on_fader(1, 1366);
    q.ms_start(0);
    assert_eq!(q.st_shift, 136);
    assert_eq!(q.ms_end(&leds, 0)[3], lit(1, Led::Top, Brightness::Custom(181)));
    // Buttons reset the faders.
    assert!(q.on_button_down(0, false));
    assert_eq!(q.stored.st, 0);
    assert!(q.on_button_down(1, false));
    assert_eq!(q.stored.oct, 0);
    assert_eq!(q.ms_start(1000), 0);
    assert_eq!(q.latch_target(1), 0);
}
