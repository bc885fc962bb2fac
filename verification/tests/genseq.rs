use faderpunk::app::Leds;
use faderpunk::apps::genseq::{GenAction, GenSeq, Storage};
use faderpunk::types::{Brightness, Color, LatchLayer, Led, LedMode, LedMsg};

fn lit(chan: usize, led: Led, color: Color, b: Brightness) -> GenAction {
    GenAction::Led((chan, led, LedMsg::SetMode(LedMode::Static(color, b))))
}

fn started() -> (GenSeq, Leds<3>) {
    let leds = Leds::<3>::new(0);
    let (g, _) = GenSeq::new(&leds, 48, Color::Blue, Storage::default());
    (g, leds)
}

/// One whole tick without a quantizer answer.
fn tick(g: &mut GenSeq, leds: &Leds<3>) -> Vec<GenAction> {
    let (mut work, request) = g.tick_start(leds, &[0, 0, 0]);
    assert!(request.is_none());
    let (rest, _) = g.tick_end(leds, None);
    work.extend(rest);
    work
}

#[test]
fn genseq_starts_with_seed_rhythm() {
    let leds = Leds::<3>::new(0);
    let (g, work) = GenSeq::new(&leds, 48, Color::Blue, Storage::default());
    assert_eq!(g.div, 6);
    assert_eq!((g.euclid_length, g.euclid_beat, g.legato_beat, g.accent_beat), (7, 3, 2, 2));
    assert_eq!(g.register_pitch, 7632);
    assert_eq!(work.len(), 3);
    assert_eq!(work[2], lit(2, Led::Button, Color::Blue, Brightness::Low));
}

#[test]
fn genseq_beats_gates_and_legato() {
    let (mut g, leds) = started();
    // Step 1 of the rhythm: legato only.
    assert_eq!(tick(&mut g, &leds), vec![lit(2, Led::Top, Color::Blue, Brightness::Low)]);
    for _ in 1..6 {
        tick(&mut g, &leds);
    }
    // Step 2: a beat, unaccented, note 0 at half velocity.
    assert_eq!(
        tick(&mut g, &leds),
        vec![
            GenAction::Out(1, 4095),
            GenAction::Out(2, 0),
            GenAction::NoteOn(0, 2048),
            lit(1, Led::Top, Color::Blue, Brightness::Low),
            lit(2, Led::Top, Color::Blue, Brightness::Custom(0)),
        ]
    );
    assert!(g.gate_on);
    tick(&mut g, &leds);
    tick(&mut g, &leds);
    // Half a step later its gate ends.
    assert_eq!(
        tick(&mut g, &leds),
        vec![GenAction::Out(1, 0), lit(1, Led::Top, Color::Blue, Brightness::Custom(0)), GenAction::NoteOff(0)]
    );
    assert!(!g.gate_on);
}

#[test]
fn genseq_cycle_start_quantizes_and_stores_register() {
    let (mut g, leds) = started();
    for _ in 0..36 {
        tick(&mut g, &leds);
    }
    let (_, request) = g.tick_start(&leds, &[0, 0, 0]);
    assert_eq!(request, Some(836));
    assert_eq!(g.register_length, 267);
    assert_eq!(g.register_legato, 34178);
    assert_eq!(g.register_pitch, 36584);
    assert_eq!((g.euclid_length, g.euclid_beat, g.legato_beat, g.accent_beat), (1, 1, 0, 0));
    let (work, save) = g.tick_end(&leds, Some((60, 2000)));
    assert!(save);
    assert_eq!(work[0], GenAction::Out(0, 2000));
    assert_eq!(work[1], lit(0, Led::Top, Color::Blue, Brightness::Custom(142)));
    assert_eq!(g.midi_note, 96);
    assert_eq!(g.stored.register_pitch, 36584);
}

#[test]
fn genseq_scene_recall_restores_pitch_register() {
    let (mut g, leds) = started();
    g.on_scene_load(Storage::default());
    assert!(g.recall);
    for _ in 0..36 {
        tick(&mut g, &leds);
    }
    let (_, request) = g.tick_start(&leds, &[0, 0, 0]);
    assert!(request.is_some());
    let (_, save) = g.tick_end(&leds, Some((60, 2000)));
    assert!(!save);
    assert!(!g.recall);
    assert_eq!(g.register_pitch, 7632);
}

#[test]
fn genseq_faders_layers_and_buttons() {
    let (mut g, leds) = started();
    assert_eq!(g.latch_target(1, LatchLayer::Third), 1638);
    let (work, save) = g.on_fader(0, LatchLayer::Third, 4095);
    assert!(save);
    assert_eq!(g.div, 2);
    assert_eq!(work, vec![GenAction::NoteOff(0)]);
    let (work, save) = g.on_fader(2, LatchLayer::Alt, 100);
    assert!(save && work.is_empty());
    assert_eq!(g.stored.accent_att, 100);
    let (_, save) = g.on_fader(5, LatchLayer::Main, 100);
    assert!(!save);

    let work = g.on_frame(&leds, LatchLayer::Third, false, [true, false, true]);
    assert_eq!(g.prob, [2048, 0, 2048]);
    assert_eq!(work[0], lit(0, Led::Button, Color::Pink, Brightness::High));
    assert_eq!(work[1], lit(1, Led::Button, Color::Green, Brightness::High));
    assert_eq!(work[3], GenAction::Led((0, Led::Top, LedMsg::Reset)));
    let work = g.on_frame(&leds, LatchLayer::Alt, true, [true, true, true]);
    assert_eq!(g.prob, [0, 0, 0]);
    assert_eq!(work[5], lit(2, Led::Top, Color::Yellow, Brightness::Custom(6)));

    g.gate_on = true;
    let work = g.on_reset();
    assert_eq!(work, vec![GenAction::Out(1, 0), GenAction::NoteOff(0)]);
    assert_eq!(g.clkn, 0);
}
