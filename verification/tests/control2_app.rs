use faderpunk::app::Leds;
use faderpunk::apps::control2::{Control2, ControlAction, Storage};
use faderpunk::config::Curve;
use faderpunk::types::{Brightness, Color, LatchLayer, Led, LedMode, LedMsg};

fn lit(led: Led, color: Color, b: Brightness) -> ControlAction {
    ControlAction::Led((1, led, LedMsg::SetMode(LedMode::Static(color, b))))
}

#[test]
fn control2_output_glides_to_fader() {
    let leds = Leds::<1>::new(1);
    let (mut c, work) = Control2::new(&leds, Curve::Linear, false, Color::Green, false, Storage::default(), 4095);
    assert_eq!(work, vec![lit(Led::Button, Color::Green, Brightness::Lower), ControlAction::FaderCc(4095)]);
    let work = c.on_ms(&leds, LatchLayer::Main, None, false);
    assert_eq!(
        work,
        vec![
            ControlAction::FaderCc(63),
            ControlAction::Out(63),
            lit(Led::Top, Color::Green, Brightness::Custom(15)),
            ControlAction::Led((1, Led::Bottom, LedMsg::Reset)),
            lit(Led::Button, Color::Green, Brightness::Lower),
        ]
    );
    let mut last = c.out;
    for _ in 0..400 {
        c.on_ms(&leds, LatchLayer::Main, None, false);
        assert!(c.out >= last);
        last = c.out;
    }
    assert_eq!(c.out, 4095);
}

#[test]
fn control2_buttons_toggle_and_momentary() {
    let leds = Leds::<1>::new(1);
    let (mut c, _) = Control2::new(&leds, Curve::Linear, true, Color::Green, true, Storage::default(), 0);
    let (work, save) = c.on_button_down(&leds, false);
    assert!(save && !c.stored.button_state);
    assert_eq!(work, vec![ControlAction::ButtonCc(0), ControlAction::Led((1, Led::Button, LedMsg::Reset))]);
    let (work, _) = c.on_button_down(&leds, false);
    assert!(c.stored.button_state);
    assert_eq!(work, vec![ControlAction::ButtonCc(4095), lit(Led::Button, Color::Green, Brightness::Lower)]);
    // Shift makes the button momentary.
    let (work, save) = c.on_button_down(&leds, true);
    assert!(save && !c.stored.toggle && work.is_empty());
    let (work, save) = c.on_button_down(&leds, false);
    assert!(!save);
    assert_eq!(work, vec![ControlAction::ButtonCc(4095), lit(Led::Button, Color::Green, Brightness::Lower)]);
    assert_eq!(c.on_button_up(&leds), vec![ControlAction::ButtonCc(0), ControlAction::Led((1, Led::Button, LedMsg::Reset))]);
    assert_eq!(c.on_fader_event(LatchLayer::Main), (Some(ControlAction::I2c(0)), false));
    assert_eq!(c.on_fader_event(LatchLayer::Alt), (None, true));
    // The attenuation layer.
    assert_eq!(c.latch_target(LatchLayer::Alt), 4095);
    let work = c.on_ms(&leds, LatchLayer::Alt, Some(1600), false);
    assert_eq!(c.stored.att_saved, 1600);
    assert_eq!(work[work.len() - 3], ControlAction::Led((1, Led::Button, LedMsg::Reset)));
    assert_eq!(work[work.len() - 1], lit(Led::Bottom, Color::Red, Brightness::Custom(100)));
    // Kept state: the main layer's value is the stored one.
    let work = c.on_scene_load(&leds, Storage::default());
    assert_eq!(work, vec![lit(Led::Button, Color::Green, Brightness::Lower), ControlAction::ButtonCc(4095)]);
    assert_eq!(c.latch_target(LatchLayer::Main), 4095);
}
