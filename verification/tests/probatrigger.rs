use faderpunk::app::Leds;
use faderpunk::apps::probatrigger::{ProbaAction, ProbaTrigger, Storage};
use faderpunk::types::{Brightness, Color, LatchLayer, Led, LedMode, LedMsg};

fn lit(led: Led, color: Color, b: Brightness) -> ProbaAction {
    ProbaAction::Led((0, led, LedMsg::SetMode(LedMode::Static(color, b))))
}

#[test]
fn probatrigger_fires_at_full_chance() {
    let leds = Leds::<1>::new(0);
    let (mut p, work) = ProbaTrigger::new(&leds, 33, 50, Color::Yellow, Storage::default(), 1000);
    assert_eq!(work, vec![lit(Led::Button, Color::Yellow, Brightness::Lower)]);
    assert_eq!(p.div, 6);
    let work = p.on_tick(&leds, LatchLayer::Main, 2000);
    assert_eq!(
        work,
        vec![
            ProbaAction::GateHigh,
            lit(Led::Top, Color::Yellow, Brightness::Lower),
            ProbaAction::NoteOn(32),
            ProbaAction::Led((0, Led::Bottom, LedMsg::Reset)),
        ]
    );
    assert_eq!(p.rndval, 2000);
    p.on_tick(&leds, LatchLayer::Main, 0);
    p.on_tick(&leds, LatchLayer::Main, 0);
    let work = p.on_tick(&leds, LatchLayer::Main, 0);
    assert_eq!(
        work,
        vec![
            ProbaAction::NoteOff(32),
            lit(Led::Top, Color::Yellow, Brightness::Custom(0)),
            ProbaAction::GateLow,
            lit(Led::Bottom, Color::Yellow, Brightness::Custom(0)),
        ]
    );
}

#[test]
fn probatrigger_zero_chance_and_mute() {
    let leds = Leds::<1>::new(0);
    let (mut p, _) = ProbaTrigger::new(&leds, 1, 10, Color::Pink, Storage::default(), 5);
    p.on_fader(LatchLayer::Main, 0);
    assert_eq!(p.latch_target(LatchLayer::Main), 0);
    let work = p.on_tick(&leds, LatchLayer::Alt, 0);
    assert_eq!(work, vec![lit(Led::Bottom, Color::Red, Brightness::Lower)]);

    p.on_fader(LatchLayer::Main, 4095);
    let work = p.on_button_down(&leds);
    assert!(p.muted && p.stored.mute_saved);
    assert_eq!(work[0], ProbaAction::GateLow);
    assert_eq!(work.len(), 4);
    for _ in 0..12 {
        let work = p.on_tick(&leds, LatchLayer::Main, 0);
        assert!(!work.contains(&ProbaAction::GateHigh));
    }
    let work = p.on_button_down(&leds);
    assert_eq!(work, vec![lit(Led::Button, Color::Pink, Brightness::Lower)]);

    p.on_fader(LatchLayer::Alt, 4095);
    assert_eq!(p.div, 2);
    assert_eq!(p.on_reset(), vec![ProbaAction::NoteOff(0), ProbaAction::GateLow]);
    let mut stored = Storage::default();
    stored.mute_saved = true;
    let work = p.on_scene_load(&leds, stored);
    assert_eq!(work[1], ProbaAction::GateLow);
    assert_eq!(p.div, 6);
}
