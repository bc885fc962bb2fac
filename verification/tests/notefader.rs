use faderpunk::app::Leds;
use faderpunk::apps::notefader::{NoteAction, NoteFader, Storage};
use faderpunk::types::{Brightness, Color, LatchLayer, Led, LedMode, LedMsg};

fn lit(led: Led, color: Color, b: Brightness) -> NoteAction {
    NoteAction::Led((4, led, LedMsg::SetMode(LedMode::Static(color, b))))
}

#[test]
fn notefader_button_plays_and_stops_note() {
    let leds = Leds::<1>::new(4);
    let (mut n, work) = NoteFader::new(&leds, 12, 117, 50, Color::Blue, Storage::default());
    assert_eq!(work, vec![lit(Led::Button, Color::Blue, Brightness::Lower)]);
    n.on_fader(LatchLayer::Main, 1200);
    let (work, request) = n.frame_start(&leds, false, true);
    // 1200 * (117 + 3) / 120 = 1200.
    assert_eq!(request, Some(1200));
    assert_eq!(work, vec![lit(Led::Top, Color::Blue, Brightness::Lower)]);
    let work = n.frame_end(&leds, Some((40, 1500)));
    assert_eq!(work, vec![NoteAction::Out(1500), NoteAction::NoteOn(52), lit(Led::Button, Color::Blue, Brightness::Lower)]);
    // Held: nothing more.
    let (work, request) = n.frame_start(&leds, false, true);
    assert!(work.is_empty() && request.is_none());
    let (work, _) = n.frame_start(&leds, false, false);
    assert_eq!(
        work,
        vec![
            NoteAction::NoteOff(52),
            lit(Led::Top, Color::Blue, Brightness::Custom(0)),
            lit(Led::Button, Color::Blue, Brightness::Lowest),
        ]
    );
}

#[test]
fn notefader_clocked_mode_plays_on_steps() {
    let leds = Leds::<1>::new(4);
    let (mut n, _) = NoteFader::new(&leds, 1, 1, 50, Color::Red, Storage::default());
    // Shift with the button switches to clocked mode.
    let work = n.on_button_down(&leds, true);
    assert!(work.is_empty() && n.clocked && n.stored.clocked);
    assert_eq!(n.div, 6);
    let (work, request) = n.tick_start(&leds);
    assert_eq!(request, Some(0));
    assert_eq!(work, vec![lit(Led::Top, Color::Red, Brightness::Lower)]);
    let work = n.tick_end(&leds, Some((60, 2000)), true);
    assert_eq!(
        work,
        vec![
            NoteAction::Out(2000),
            NoteAction::NoteOn(61),
            lit(Led::Button, Color::Red, Brightness::Lower),
            lit(Led::Bottom, Color::Red, Brightness::Lower),
        ]
    );
    for _ in 0..2 {
        let (_, request) = n.tick_start(&leds);
        assert!(request.is_none());
        n.tick_end(&leds, None, false);
    }
    n.tick_start(&leds);
    let work = n.tick_end(&leds, None, false);
    assert_eq!(
        work,
        vec![NoteAction::NoteOff(61), lit(Led::Top, Color::Red, Brightness::Custom(0)), lit(Led::Bottom, Color::Red, Brightness::Custom(0))]
    );
    // Muted: no trigger.
    n.on_button_down(&leds, false);
    assert!(n.muted);
    for _ in 0..2 {
        n.tick_start(&leds);
        n.tick_end(&leds, None, false);
    }
    let (work, request) = n.tick_start(&leds);
    assert!(work.is_empty() && request.is_none());
    assert_eq!(n.on_reset(), NoteAction::NoteOff(61));
}
