use faderpunk::app::Leds;
use faderpunk::apps::slew::{SlewAction, SlewApp, Storage};
use faderpunk::types::{Brightness, Color, LatchLayer, Led, LedMode, LedMsg};

fn lit(chan: usize, led: Led, color: Color, b: Brightness) -> SlewAction {
    SlewAction::Led((chan, led, LedMsg::SetMode(LedMode::Static(color, b))))
}

#[test]
fn slew_app_passes_slewed_value_through() {
    let leds = Leds::<2>::new(0);
    let (mut s, work) = SlewApp::new(&leds, Color::Cyan, Storage::default());
    assert_eq!(work.len(), 2);
    let work = s.on_ms(&leds, LatchLayer::Main, 2000);
    assert_eq!(work[0], SlewAction::Out(2000));
    assert_eq!(work[1], lit(0, Led::Top, Color::Cyan, Brightness::Custom(0)));
    assert_eq!(work[2], lit(0, Led::Bottom, Color::Cyan, Brightness::Custom(5)));
    // An offset up adds; one far down wraps below zero and ends at the top.
    s.on_fader(0, LatchLayer::Alt, 3000);
    assert_eq!(s.on_ms(&leds, LatchLayer::Main, 2000)[0], SlewAction::Out(2953));
    s.on_fader(0, LatchLayer::Alt, 0);
    let work = s.on_ms(&leds, LatchLayer::Alt, 2000);
    assert_eq!(work[0], SlewAction::Out(4095));
    assert_eq!(work[1], lit(0, Led::Top, Color::Red, Brightness::Custom(0)));
    assert_eq!(work[2], lit(0, Led::Bottom, Color::Red, Brightness::Custom(255)));
    assert_eq!(work[5], lit(0, Led::Button, Color::Red, Brightness::Lower));
    assert_eq!(work[6], SlewAction::Led((1, Led::Button, LedMsg::Reset)));
    // Shift and the first button reset the offset.
    assert!(s.on_button_down(0, true));
    assert_eq!(s.stored.offset_saved, 2047);
    assert!(!s.on_button_down(0, false));
    s.on_fader(1, LatchLayer::Main, 100);
    assert_eq!(s.latch_target(1, LatchLayer::Main), 100);
    assert_eq!(s.latch_target(1, LatchLayer::Alt), 4095);
}
