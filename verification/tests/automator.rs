use faderpunk::app::Leds;
use faderpunk::apps::automator::{AutoAction, Automator, LooperCmd, LooperState, Storage};
use faderpunk::types::{Brightness, Color, Led, LedMode, LedMsg};

fn button(mode: LedMode) -> AutoAction {
    AutoAction::Led((2, Led::Button, LedMsg::SetMode(mode)))
}

fn one_bar() -> (Automator, Leds<1>) {
    let leds = Leds::<1>::new(2);
    let mut stored = Storage::default();
    stored.loop_bars = 1;
    let (a, _) = Automator::new(&leds, Color::Cyan, stored);
    (a, leds)
}

#[test]
fn automator_starts_passing_through() {
    let leds = Leds::<1>::new(2);
    let (a, work) = Automator::new(&leds, Color::Cyan, Storage::default());
    assert_eq!(a.state, LooperState::Passthrough);
    assert_eq!(a.loop_len, 96);
    assert_eq!(work, vec![button(LedMode::Flash(Color::White, None))]);
    assert!(!a.accepts_press());
}

#[test]
fn automator_records_commits_and_plays_back() {
    let (mut a, leds) = one_bar();
    // Pass 60 fader values through; the last 48 become the loop.
    for v in 0..60u16 {
        let (work, save) = a.on_tick(v * 10);
        assert!(!save);
        assert_eq!(work, vec![AutoAction::Out(v * 10), AutoAction::Cc(v * 10)]);
    }
    assert!(a.accepts_press());
    let light = a.on_tap(&leds);
    assert_eq!(light, button(LedMode::Static(Color::Green, Brightness::High)));
    assert_eq!(a.cmd, LooperCmd::CommitLoop);
    let (_, save) = a.on_tick(0);
    assert!(save);
    assert!(a.stored.has_loop);
    for i in 0..48usize {
        assert_eq!(a.play_buf[i], (12 + i as u16) * 10);
    }
    assert_eq!(a.stored.buffer, a.play_buf);
    // The first played sample was smoothed from 0 toward 120: (0 * 3 + 120) / 4 = 30.
    assert_eq!(a.prev_slew, 30);
    assert_eq!(a.read_head, 1);
}

#[test]
fn automator_overdub_and_undo() {
    let (mut a, leds) = one_bar();
    for v in 0..48u16 {
        a.on_tick(v);
    }
    a.on_tap(&leds);
    a.on_tick(0);
    let before = a.play_buf;
    // Overdub: the loop takes the fader.
    assert_eq!(a.on_tap(&leds), button(LedMode::Static(Color::Red, Brightness::High)));
    let (work, _) = a.on_tick(4000);
    assert_eq!(work, vec![AutoAction::Out(4000), AutoAction::Cc(4000)]);
    assert_eq!(a.play_buf[1], 4000);
    assert_eq!(a.undo_buf, before);
    a.on_tick(4000);
    assert_eq!(a.on_ms(1234), Some(1234));
    // Hold undoes.
    let (light, save) = a.on_hold(&leds);
    assert!(!save);
    assert_eq!(light, button(LedMode::FlashThenStatic(Color::Yellow, 1, Color::Green, Brightness::High)));
    a.on_tick(0);
    assert_eq!(a.play_buf, before);
    assert_eq!(a.state, LooperState::Playing);
    assert_eq!(a.on_ms(1234), None);
    // Hold while playing stops.
    let (light, _) = a.on_hold(&leds);
    assert_eq!(light, button(LedMode::FadeOut(Color::Yellow)));
    assert_eq!(a.state, LooperState::Passthrough);
}

#[test]
fn automator_hold_cycles_loop_length() {
    let (mut a, leds) = one_bar();
    let (light, save) = a.on_hold(&leds);
    assert!(save);
    assert_eq!(a.loop_bars, 2);
    assert_eq!(light, button(LedMode::Flash(Color::White, Some(2))));
    a.on_hold(&leds);
    assert_eq!(a.loop_bars, 4);
    a.on_hold(&leds);
    assert_eq!(a.loop_bars, 1);
    assert_eq!(a.stored.loop_bars, 1);
}

#[test]
fn automator_leds_follow_clock_and_scene() {
    let (mut a, leds) = one_bar();
    assert!(a.on_led_poll(&leds).is_empty());
    a.on_start();
    assert_eq!(a.on_led_poll(&leds), vec![button(LedMode::Static(Color::Cyan, Brightness::Mid))]);
    assert!(a.on_led_poll(&leds).is_empty());
    a.on_stop();
    assert_eq!(a.on_led_poll(&leds), vec![button(LedMode::Flash(Color::White, None))]);

    let mut stored = Storage::default();
    stored.has_loop = true;
    stored.buffer[0] = 777;
    let light = a.on_scene_load(&leds, stored);
    assert_eq!(light, button(LedMode::Static(Color::Green, Brightness::High)));
    assert_eq!(a.state, LooperState::Playing);
    a.on_reset();
    a.on_tick(0);
    assert_eq!(a.play_buf[0], 777);
    assert_eq!(a.loop_len, 96);
}
