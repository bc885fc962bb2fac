use faderpunk::app::Leds;
use faderpunk::apps::ad::{AdAction, AdGate, Storage};
use faderpunk::config::Curve;
use faderpunk::types::{Brightness, Color, LatchLayer, Led, LedMode, LedMsg};

fn lit(chan: usize, led: Led, color: Color, b: Brightness) -> AdAction {
    AdAction::Led((chan, led, LedMsg::SetMode(LedMode::Static(color, b))))
}

#[test]
fn ad_trigger_holds_gate_for_shortest_length() {
    let leds = Leds::<2>::new(3);
    let (mut a, work) = AdGate::new(&leds, Storage::default());
    assert_eq!(
        work,
        vec![
            lit(3, Led::Button, Color::Yellow, Brightness::Lower),
            lit(4, Led::Button, Color::Yellow, Brightness::Lower),
        ]
    );
    assert_eq!(a.timer, 5000);
    // Rising edge: one gate from the edge, one from the trigger.
    a.on_ms_gate(500);
    assert_eq!(a.timer, 5001);
    assert_eq!(a.gate_on, 2);
    assert_eq!(a.env_state, 1);
    assert!(a.old_gate && a.t2g);
    assert_eq!(a.start_time, 5001);
    // The trigger's gate lasts past the shortest gate (1) plus 10 ms.
    for _ in 0..11 {
        a.on_ms_gate(500);
    }
    assert_eq!(a.gate_on, 2);
    a.on_ms_gate(500);
    assert_eq!(a.gate_on, 1);
    assert!(!a.t2g);
    // Falling edge: no gate left; in AD mode the stage stays.
    a.on_ms_gate(0);
    assert_eq!(a.gate_on, 0);
    assert!(!a.old_gate);
    assert_eq!(a.env_state, 1);
}

#[test]
fn ad_asr_mode_releases_on_gate_end() {
    let leds = Leds::<2>::new(0);
    let (mut a, _) = AdGate::new(&leds, Storage::default());
    assert!(a.on_button_down(1, true));
    assert_eq!(a.stored.mode_saved, 1);
    a.on_midi_note(true);
    a.on_ms_gate(0);
    assert_eq!(a.gate_on, 2);
    a.on_midi_note(false);
    a.on_midi_note(false);
    a.on_midi_note(false);
    assert_eq!(a.gate_on, 0);
    a.on_ms_gate(0);
    assert_eq!(a.env_state, 2);
    assert!(!a.old_gate);
}

#[test]
fn ad_output_and_lights() {
    let leds = Leds::<2>::new(0);
    let (mut a, _) = AdGate::new(&leds, Storage::default());
    a.on_fader(1, LatchLayer::Alt, 2048);
    assert_eq!(a.stored.att_saved, 2048);
    let work = a.on_ms_out(&leds, 4095, false, false);
    assert_eq!(
        work,
        vec![
            AdAction::Out(2048),
            lit(0, Led::Button, Color::Yellow, Brightness::Lower),
            lit(1, Led::Button, Color::Yellow, Brightness::Lower),
            lit(0, Led::Bottom, Color::Red, Brightness::Lower),
        ]
    );
    let work = a.on_ms_out(&leds, 0, false, false);
    assert_eq!(
        work,
        vec![
            AdAction::Out(0),
            lit(0, Led::Button, Color::Yellow, Brightness::Lower),
            AdAction::Led((0, Led::Top, LedMsg::Reset)),
            lit(1, Led::Button, Color::Yellow, Brightness::Lower),
            AdAction::Led((1, Led::Top, LedMsg::Reset)),
            lit(0, Led::Bottom, Color::Red, Brightness::Lower),
        ]
    );
    // Shift: mode color, level light, shortest-gate blink off.
    assert!(!a.on_button_down(0, true));
    assert_eq!(a.gate_on, 1);
    let work = a.on_ms_out(&leds, 4095, true, true);
    assert_eq!(
        work,
        vec![
            AdAction::Out(2048),
            lit(1, Led::Button, Color::Yellow, Brightness::Lower),
            lit(1, Led::Top, Color::Red, Brightness::Custom(128)),
            AdAction::Led((0, Led::Top, LedMsg::Reset)),
            lit(0, Led::Bottom, Color::Red, Brightness::Low),
        ]
    );
    // Releasing the first button with shift closes a gate.
    a.on_ms_out(&leds, 0, true, false);
    assert_eq!(a.gate_on, 0);
    assert!(!a.button_old);
}

#[test]
fn ad_curves_cycle_and_scene_load() {
    let leds = Leds::<2>::new(0);
    let (mut a, _) = AdGate::new(&leds, Storage::default());
    assert!(a.on_button_down(0, false));
    assert_eq!(a.stored.curve_saved[0], Curve::Exponential);
    assert!(a.on_button_down(0, false));
    assert_eq!(a.stored.curve_saved[0], Curve::Logarithmic);
    assert!(a.on_button_down(0, false));
    assert_eq!(a.stored.curve_saved[0], Curve::Linear);
    assert_eq!(a.latch_target(0, LatchLayer::Alt), 1);
    assert_eq!(a.latch_target(1, LatchLayer::Main), 2000);
    a.on_fader(0, LatchLayer::Main, 300);
    assert_eq!(a.stored.fader_saved, [300, 2000]);
    let mut s = Storage::default();
    s.curve_saved = [Curve::Logarithmic, Curve::Exponential];
    let work = a.on_scene_load(&leds, s);
    assert_eq!(
        work,
        vec![
            lit(0, Led::Button, Color::Cyan, Brightness::Lower),
            lit(1, Led::Button, Color::Pink, Brightness::Lower),
        ]
    );
    assert_eq!(a.stored.fader_saved, [2000, 2000]);
}

#[test]
fn ad_storage_starts_from_default() {
    let m = faderpunk::storage::ManagedStorage::<Storage>::new(3, 4);
    assert_eq!((m.app_id, m.start_channel), (3, 4));
    assert_eq!(m.query(|s| (s.fader_saved, s.mode_saved, s.att_saved, s.min_gate_saved)), ([2000, 2000], 0, 4095, 1));
}
