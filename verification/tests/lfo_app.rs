use faderpunk::app::Leds;
use faderpunk::apps::lfo::{Lfo, LfoAction, Storage, Waveform};
use faderpunk::types::{Brightness, Color, LatchLayer, Led, LedMode, LedMsg};

fn lit(led: Led, color: Color, b: Brightness) -> LfoAction {
    LfoAction::Led((0, led, LedMsg::SetMode(LedMode::Static(color, b))))
}

#[test]
fn lfo_reads_wave_and_cycles_shapes() {
    let leds = Leds::<1>::new(0);
    let (mut l, light) = Lfo::new(&leds, false, true, Storage::default());
    assert_eq!(light, lit(Led::Button, Color::Yellow, Brightness::Lower));
    assert_eq!(l.div, 24);
    let work = l.on_ms(&leds, LatchLayer::Main, 1024);
    assert_eq!(
        work,
        vec![
            LfoAction::Out(4095),
            LfoAction::Cc(4095),
            lit(Led::Button, Color::Yellow, Brightness::Lower),
            lit(Led::Top, Color::Yellow, Brightness::Custom(255)),
            lit(Led::Bottom, Color::Yellow, Brightness::Custom(0)),
        ]
    );
    // Same step of 32: no CC.
    assert_eq!(l.on_ms(&leds, LatchLayer::Main, 1024).len(), 4);
    // Wave cycle: sine, triangle, saw, inverted saw.
    for _ in 0..3 {
        l.on_button_down(&leds, false);
    }
    assert_eq!(l.stored.wave, Waveform::SawInv);
    assert_eq!(l.on_ms(&leds, LatchLayer::Main, 1024)[0], LfoAction::Out(3071));
    // Shift asks for a restart.
    let (work, restart, save) = l.on_button_down(&leds, true);
    assert!(work.is_none() && restart && !save);
    // Sync: flashes in the start color; the button dims in the second half.
    let (work, save) = l.on_long_press(&leds, true);
    assert!(save && l.stored.clocked);
    assert_eq!(work, Some(LfoAction::Led((0, Led::Button, LedMsg::SetMode(LedMode::Flash(Color::Yellow, Some(4)))))));
    assert_eq!(l.on_ms(&leds, LatchLayer::Alt, 3000)[2], lit(Led::Button, Color::Red, Brightness::Lowest));
    l.on_fader(LatchLayer::Main, 4095);
    assert_eq!(l.div, 6);
    l.on_fader(LatchLayer::Alt, 2048);
    assert_eq!(l.on_ms(&leds, LatchLayer::Main, 0)[0], LfoAction::Out(2048));
}
