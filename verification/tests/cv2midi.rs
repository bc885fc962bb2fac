use faderpunk::app::Leds;
use faderpunk::apps::cv2midi::{CvCcAction, CvToCc, Storage};
use faderpunk::types::{Brightness, Color, LatchLayer, Led, LedMode, LedMsg};

fn lit(led: Led, color: Color, b: Brightness) -> CvCcAction {
    CvCcAction::Led((2, led, LedMsg::SetMode(LedMode::Static(color, b))))
}

#[test]
fn cv2midi_sends_on_change_only() {
    let leds = Leds::<1>::new(2);
    let (mut c, light) = CvToCc::new(&leds, false, Color::Violet, Storage::default());
    assert_eq!(light, lit(Led::Button, Color::Violet, Brightness::Lower));
    let work = c.on_ms(&leds, LatchLayer::Main, 1000);
    assert_eq!(work, vec![lit(Led::Top, Color::Violet, Brightness::Custom(62)), CvCcAction::Cc(1000)]);
    // Same step of 32: no CC.
    let work = c.on_ms(&leds, LatchLayer::Main, 1010);
    assert_eq!(work, vec![lit(Led::Top, Color::Violet, Brightness::Custom(63))]);
    // Offset and attenuation.
    c.on_fader(LatchLayer::Main, 500);
    c.on_fader(LatchLayer::Alt, 2048);
    let work = c.on_ms(&leds, LatchLayer::Alt, 4095);
    assert_eq!(work, vec![lit(Led::Top, Color::Red, Brightness::Custom(128)), CvCcAction::Cc(2548)]);
    // Muted: 0.
    let light = c.on_button_down(&leds);
    assert_eq!(light, CvCcAction::Led((2, Led::Button, LedMsg::Reset)));
    let work = c.on_ms(&leds, LatchLayer::Main, 4095);
    assert_eq!(work, vec![lit(Led::Top, Color::Violet, Brightness::Custom(0)), CvCcAction::Cc(0)]);
}

#[test]
fn cv2midi_bipolar_rests_in_the_middle() {
    let leds = Leds::<1>::new(2);
    let mut stored = Storage::default();
    stored.offset_saved = 2047;
    stored.muted = true;
    let (mut c, light) = CvToCc::new(&leds, true, Color::Blue, stored);
    assert_eq!(light, CvCcAction::Led((2, Led::Button, LedMsg::Reset)));
    let work = c.on_ms(&leds, LatchLayer::Main, 0);
    assert_eq!(
        work,
        vec![lit(Led::Top, Color::Blue, Brightness::Custom(0)), lit(Led::Bottom, Color::Blue, Brightness::Custom(0)), CvCcAction::Cc(2047)]
    );
    c.on_button_down(&leds);
    // Unmuted, a full input passes through (offset neutral).
    let work = c.on_ms(&leds, LatchLayer::Main, 4095);
    assert_eq!(work[2], CvCcAction::Cc(4095));
}
