use faderpunk::app::Leds;
use faderpunk::apps::arp_de_levy::{ArpAction, ArpButton, ArpDeLevy, ArpRolls, Storage, MODE_DOWN};
use faderpunk::types::{Brightness, Color, LatchLayer, Led, LedMode, LedMsg};

fn quiet_rolls() -> ArpRolls {
    ArpRolls {
        reroll: [0; 16],
        mutate_check: [4095; 4],
        mutate_pick: [0; 4],
        mutate_first: [0; 4],
        mutate_second: [0; 4],
        random_idx: 0,
        hit: 0,
    }
}

fn started() -> (ArpDeLevy, Leds<1>) {
    let leds = Leds::<1>::new(3);
    let (arp, _) = ArpDeLevy::new(&leds, 48, Color::Blue, Storage::default());
    (arp, leds)
}

fn static_led(chan: usize, led: Led, color: Color, b: Brightness) -> ArpAction {
    ArpAction::Led((chan, led, LedMsg::SetMode(LedMode::Static(color, b))))
}

#[test]
fn start_silences_pool_and_shows_mode() {
    let leds = Leds::<1>::new(3);
    let (arp, work) = ArpDeLevy::new(&leds, 48, Color::Blue, Storage::default());
    assert_eq!(work.len(), 19);
    assert_eq!(work[0], ArpAction::NoteOff(48));
    assert_eq!(work[1], ArpAction::NoteOff(48));
    assert_eq!(work[2], ArpAction::NoteOff(50));
    assert_eq!(work[16], ArpAction::NoteOff(74));
    assert_eq!(work[17], ArpAction::CvZero);
    assert_eq!(work[18], static_led(3, Led::Button, Color::Blue, Brightness::Mid));
    assert_eq!(arp.phrase, 10);
    assert_eq!(arp.step, 0);
}

#[test]
fn ticks_fire_gate_and_swing() {
    let (mut arp, leds) = started();
    let rolls = quiet_rolls();
    let (work, save) = arp.on_tick(&leds, 0, LatchLayer::Main, &rolls);
    assert!(!save);
    assert_eq!(work, vec![ArpAction::Fire(48), static_led(3, Led::Top, Color::Blue, Brightness::Custom(0))]);
    assert_eq!(arp.gate_off_at, Some(3));
    assert_eq!(arp.step, 1);

    let (work, _) = arp.on_tick(&leds, 3, LatchLayer::Main, &rolls);
    assert_eq!(work, vec![ArpAction::NoteOffCurrent, static_led(3, Led::Bottom, Color::Blue, Brightness::Off)]);

    // The odd step is swung by one tick.
    let (work, _) = arp.on_tick(&leds, 6, LatchLayer::Main, &rolls);
    assert_eq!(work, vec![static_led(3, Led::Top, Color::Blue, Brightness::Custom(25))]);
    assert_eq!(arp.pending_on_at, Some(7));
    let (work, _) = arp.on_tick(&leds, 7, LatchLayer::Main, &rolls);
    assert_eq!(work, vec![ArpAction::Fire(50)]);
    assert_eq!(arp.gate_off_at, Some(10));
}

#[test]
fn a_miss_plays_nothing() {
    let (mut arp, leds) = started();
    let mut rolls = quiet_rolls();
    rolls.hit = 4095;
    let (work, _) = arp.on_tick(&leds, 0, LatchLayer::Alt, &rolls);
    assert!(work.is_empty());
    assert_eq!(arp.step, 1);
}

#[test]
fn reverse_press_fades_the_button() {
    let (mut arp, leds) = started();
    arp.on_button_down(true);
    assert_eq!(arp.button, ArpButton::ShiftPress);
    let (work, save) = arp.on_button_up(&leds);
    assert!(save && work.is_empty());
    assert!(arp.reversed && arp.stored.reversed);
    assert_eq!(arp.reverse_fade, 500);

    let work = arp.on_frame(&leds, LatchLayer::Main);
    assert_eq!(work, vec![static_led(3, Led::Button, Color::White, Brightness::Custom(255))]);
    for _ in 0..498 {
        arp.on_frame(&leds, LatchLayer::Main);
    }
    assert_eq!(arp.reverse_fade, 1);
    let work = arp.on_frame(&leds, LatchLayer::Main);
    assert_eq!(
        work,
        vec![
            static_led(3, Led::Button, Color::White, Brightness::Custom(0)),
            static_led(3, Led::Button, Color::Blue, Brightness::Mid),
        ]
    );
    assert_eq!(arp.reverse_fade, 0);
    assert!(arp.on_frame(&leds, LatchLayer::Main).is_empty());

    // A second reversal restores the direction.
    arp.on_button_down(true);
    arp.on_button_up(&leds);
    assert!(!arp.reversed && !arp.stored.reversed);
}

#[test]
fn layer_leds_show_texture_and_octaves() {
    let (mut arp, leds) = started();
    let work = arp.on_frame(&leds, LatchLayer::Alt);
    assert_eq!(work, vec![static_led(3, Led::Top, Color::Orange, Brightness::Custom(128))]);
    let work = arp.on_frame(&leds, LatchLayer::Third);
    assert_eq!(work, vec![static_led(3, Led::Top, Color::Cyan, Brightness::High)]);
}

#[test]
fn long_presses_mute_and_cycle_modes() {
    let (mut arp, leds) = started();
    // Long press alone, no fader move: mute on release.
    arp.on_button_down(false);
    let (work, save) = arp.on_long_press(&leds, false);
    assert!(!save && work.is_empty());
    let (work, save) = arp.on_button_up(&leds);
    assert!(save && arp.muted);
    assert_eq!(
        work,
        vec![
            ArpAction::NoteOff(48),
            ArpAction::Led((3, Led::Button, LedMsg::Reset)),
            ArpAction::Led((3, Led::Bottom, LedMsg::Reset)),
        ]
    );
    // Muted: a hit plays nothing.
    let (work, _) = arp.on_tick(&leds, 0, LatchLayer::Third, &quiet_rolls());
    assert!(work.is_empty());

    // Shift long presses step through the six modes and back.
    let (mut arp, leds) = started();
    let (work, save) = arp.on_long_press(&leds, true);
    assert!(save);
    assert_eq!(arp.mode, MODE_DOWN);
    assert_eq!(work, vec![static_led(3, Led::Button, Color::Orange, Brightness::Mid)]);
    for _ in 0..5 {
        arp.on_long_press(&leds, true);
    }
    assert_eq!(arp.mode, 0);
    assert_eq!(arp.stored.mode, 0);
}

#[test]
fn short_press_queues_reroll_and_clock_stop_resets() {
    let (mut arp, leds) = started();
    arp.on_button_down(false);
    let (work, save) = arp.on_button_up(&leds);
    assert!(!save && work.is_empty());
    assert!(arp.reroll && arp.reset);
    let (_, save) = arp.on_tick(&leds, 1, LatchLayer::Main, &quiet_rolls());
    assert!(save);
    assert!(!arp.reroll);
    // Rolls of zero put every live note on the base note.
    assert_eq!(&arp.pool[..10], &[48u8; 10]);
    assert_eq!(arp.stored.pool, arp.pool);

    let work = arp.on_clock_stop(&leds);
    assert_eq!(
        work,
        vec![
            ArpAction::NoteOffCurrent,
            ArpAction::CvZero,
            ArpAction::Led((3, Led::Top, LedMsg::Reset)),
            ArpAction::Led((3, Led::Bottom, LedMsg::Reset)),
        ]
    );
    assert_eq!(arp.step, 0);
    assert_eq!(arp.gate_off_at, None);
}
