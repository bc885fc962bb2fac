use faderpunk::app::Leds;
use faderpunk::apps::default::{DefaultAction, DefaultApp, Storage};
use faderpunk::config::Curve;
use faderpunk::types::{Brightness, Color, LatchLayer, Led, LedMode, LedMsg};

fn lit(led: Led, color: Color, b: Brightness) -> DefaultAction {
    DefaultAction::Led((5, led, LedMsg::SetMode(LedMode::Static(color, b))))
}

#[test]
fn default_app_follows_fader_and_mutes() {
    let leds = Leds::<1>::new(5);
    let (mut d, light) = DefaultApp::new(&leds, Curve::Linear, false, Color::Blue, Storage::default(), 1600);
    assert_eq!(light, lit(Led::Button, Color::Blue, Brightness::Lower));
    let work = d.on_ms(&leds, LatchLayer::Main, None);
    // (0 * 15 + 1600) / 16 = 100.
    assert_eq!(work, vec![DefaultAction::Out(100), lit(Led::Top, Color::Blue, Brightness::Custom(6)), DefaultAction::Led((5, Led::Bottom, LedMsg::Reset))]);
    for _ in 0..200 {
        d.on_ms(&leds, LatchLayer::Main, None);
    }
    assert_eq!(d.output, 1600);
    assert_eq!(d.on_fader_event(LatchLayer::Main), (Some(DefaultAction::Cc(1600)), false));
    // Half attenuation on the shift layer.
    let work = d.on_ms(&leds, LatchLayer::Alt, Some(2048));
    assert_eq!(work[0], DefaultAction::Out(800));
    assert_eq!(work[1], lit(Led::Top, Color::Red, Brightness::Custom(128)));
    assert_eq!(d.on_fader_event(LatchLayer::Alt), (None, true));
    // Muting heads to 0.
    assert_eq!(d.on_button(&leds), DefaultAction::Led((5, Led::Button, LedMsg::Reset)));
    for _ in 0..200 {
        d.on_ms(&leds, LatchLayer::Main, None);
    }
    assert_eq!(d.output, 0);
    let light = d.on_scene_load(&leds, Storage::default());
    assert_eq!(light, lit(Led::Button, Color::Blue, Brightness::Lower));
    assert!(!d.muted);
}
