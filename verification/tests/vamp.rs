use faderpunk::app::Leds;
use faderpunk::apps::vamp::{
    build_chord, led_layer, load_genre_into, pick_markov, scale_index_to_key, scale_offsets,
    velocity_12bit, ButtonHold, GenrePreset, Storage, Vamp, VampMidi, Voice, GENRE_MARKOV,
    GENRE_PROGRESSIONS,
};
use faderpunk::types::{Color, Key, LatchLayer, Led, LedMode, LedMsg, Brightness};

fn perform_vamp() -> Vamp {
    Vamp::new(48, 5, 3, 0, 100, 0, 0, 1, Color::Violet, Storage::default())
}

#[test]
fn scale_choice_maps_to_keys() {
    assert_eq!(scale_index_to_key(5), Key::Aeolian);
    assert_eq!(scale_index_to_key(8), Key::PentatonicMin);
    assert_eq!(scale_index_to_key(0), Key::Ionian);
    assert_eq!(scale_index_to_key(42), Key::Ionian);
}

#[test]
fn scale_offsets_of_major_and_minor() {
    assert_eq!(scale_offsets(Key::Ionian), vec![0, 2, 4, 5, 7, 9, 11]);
    assert_eq!(scale_offsets(Key::Aeolian), vec![0, 2, 3, 5, 7, 8, 10]);
    assert_eq!(scale_offsets(Key::PentatonicMaj), vec![0, 2, 4, 7, 9]);
}

#[test]
fn velocity_scales_and_clamps() {
    assert_eq!(velocity_12bit(100), 3224);
    assert_eq!(velocity_12bit(127), 4095);
    assert_eq!(velocity_12bit(0), 32);
    assert_eq!(velocity_12bit(500), 4095);
}

#[test]
fn chords_follow_the_scale() {
    assert_eq!(build_chord(60, Key::Ionian, 0, 0), vec![60, 64, 67]);
    assert_eq!(build_chord(60, Key::Ionian, 4, 1), vec![67, 71, 74, 77]);
    assert_eq!(build_chord(60, Key::Ionian, 1, 2), vec![62, 65, 69, 72, 76]);
    assert_eq!(build_chord(60, Key::Ionian, 0, 3), vec![60, 76, 91]);
    assert_eq!(build_chord(120, Key::Ionian, 6, 0), vec![127, 127, 127]);
    assert_eq!(build_chord(48, Key::Aeolian, 7, 0), vec![48, 51, 55]);
}

#[test]
fn markov_pick_walks_the_weights() {
    let dub = GENRE_MARKOV[0];
    assert_eq!(pick_markov(0, &dub, 0), 0);
    assert_eq!(pick_markov(0, &dub, 4095), 6);
    assert_eq!(pick_markov(0, &dub, 1024), 2);
    let empty = [[0u8; 7]; 7];
    assert_eq!(pick_markov(5, &empty, 2000), 5);
}

#[test]
fn markov_pick_lands_on_weighted_degree() {
    let mut weights = [[0u8; 7]; 7];
    weights[2] = [0, 0, 0, 9, 0, 0, 0];
    for roll in [0u16, 1, 2047, 4095] {
        let next = pick_markov(2, &weights, roll);
        assert!(weights[2][next as usize] > 0);
        assert_eq!(next, 3);
    }
}

#[test]
fn genre_loads_into_slots() {
    let mut slots = [9u8; 32];
    assert_eq!(load_genre_into(&mut slots, 3), 8);
    assert_eq!(&slots[..8], &[0, 6, 5, 6, 0, 6, 5, 6]);
    assert!(slots[8..].iter().all(|&s| s == 0));
    assert_eq!(load_genre_into(&mut slots, 99), 8);
    assert_eq!(&slots[..8], &GENRE_PROGRESSIONS[7]);
    assert_eq!(GenrePreset::get(20).progression, GENRE_PROGRESSIONS[7]);
}

#[test]
fn storage_default_is_house() {
    let s = Storage::default();
    assert_eq!(s.slot_count, 8);
    assert_eq!(s.genre, 3);
    assert_eq!(&s.slots[..8], &GENRE_PROGRESSIONS[3]);
    assert_eq!(s.tension, 2048);
    assert!(!s.mode_auto && !s.auto_running);
}

#[test]
fn new_vamp_selects_first_slot() {
    let v = perform_vamp();
    assert_eq!(v.key, Key::Aeolian);
    assert_eq!(v.vel12, 3224);
    assert_eq!(v.div, 12);
    assert_eq!(v.capture_bars, 8);
    assert_eq!(v.slot_idx, 0);
    assert_eq!(v.degree, 0);
    assert!(!v.mode_auto);
    let auto = Vamp::new(48, 5, 3, 0, 100, 0, 1, 1, Color::Violet, Storage::default());
    assert!(auto.mode_auto);
    assert!(!auto.auto_running);
}

#[test]
fn empty_storage_gets_genre_progression() {
    let mut st = Storage::default();
    st.slot_count = 0;
    st.genre = 200;
    let v = Vamp::new(48, 5, 1, 0, 100, 0, 0, 9, Color::Violet, st);
    assert_eq!(v.slot_count, 8);
    assert_eq!(v.genre, 1);
    assert_eq!(&v.slots[..8], &GENRE_PROGRESSIONS[1]);
    assert_eq!(v.capture_bars, 2);
}

#[test]
fn perform_press_sounds_and_release_silences() {
    let mut v = perform_vamp();
    let mut voice = Voice::new(v.degree);
    assert!(!v.on_button_down(false));
    assert_eq!(v.button, ButtonHold::PerformHold);
    let out = v.engine_step(&mut voice, 100);
    assert_eq!(
        out,
        vec![VampMidi::NoteOn(48, 3224), VampMidi::NoteOn(51, 3224), VampMidi::NoteOn(55, 3224)]
    );
    assert_eq!(voice.sounding, vec![48, 51, 55]);
    assert_eq!(v.ring_len, 1);
    assert_eq!(v.activity, 247);
    assert!(v.engine_step(&mut voice, 101).is_empty());
    assert!(!v.on_button_up());
    let out = v.engine_step(&mut voice, 102);
    assert_eq!(out, vec![VampMidi::NoteOff(48), VampMidi::NoteOff(51), VampMidi::NoteOff(55)]);
    assert!(voice.sounding.is_empty());
}

#[test]
fn panic_stops_everything() {
    let mut v = perform_vamp();
    let mut voice = Voice::new(v.degree);
    v.on_button_down(false);
    v.engine_step(&mut voice, 10);
    assert!(!v.on_long_press(true, 11));
    let out = v.engine_step(&mut voice, 12);
    assert_eq!(
        out,
        vec![
            VampMidi::NoteOff(48),
            VampMidi::NoteOff(51),
            VampMidi::NoteOff(55),
            VampMidi::Cc(120, 0),
            VampMidi::Cc(123, 0)
        ]
    );
    assert!(voice.sounding.is_empty());
    assert!(!v.chord_held);
}

#[test]
fn long_press_captures_recent_chords() {
    let mut v = perform_vamp();
    let mut voice = Voice::new(v.degree);
    v.on_button_down(false);
    v.engine_step(&mut voice, 100);
    v.on_button_up();
    v.on_fader(LatchLayer::Main, 1024);
    assert_eq!(v.slot_idx, 2);
    assert_eq!(v.degree, 5);
    v.on_button_down(false);
    v.engine_step(&mut voice, 150);
    v.on_button_up();
    assert!(v.on_long_press(false, 200));
    assert_eq!(v.slot_count, 2);
    assert_eq!(&v.slots[..3], &[0, 5, 0]);
    assert_eq!(v.stored.slot_count, 2);
    assert_eq!(v.capture_flash, 255);
    let mut late = perform_vamp();
    assert!(!late.on_long_press(false, 5000));
    assert_eq!(late.capture_flash, 64);
}

#[test]
fn shift_press_toggles_auto_and_autoplay() {
    let mut v = perform_vamp();
    assert!(v.on_button_down(true));
    assert!(v.mode_auto);
    assert!(v.stored.mode_auto);
    assert!(!v.on_button_up());
    assert!(!v.on_button_down(false));
    assert!(v.on_button_up());
    assert!(v.auto_running);
    let mut voice = Voice::new(0);
    v.on_tick(0, 0, 0);
    assert!(v.pending_play);
    assert_eq!(v.pending_degree, 0);
    assert_eq!(v.auto_step, 1);
    let out = v.engine_step(&mut voice, 0);
    assert_eq!(
        out,
        vec![VampMidi::NoteOn(48, 3224), VampMidi::NoteOn(51, 3224), VampMidi::NoteOn(55, 3224)]
    );
    v.on_tick(5, 0, 0);
    assert!(!v.pending_release && !v.pending_play);
    v.on_tick(9, 0, 0);
    assert!(v.pending_release);
    let out = v.engine_step(&mut voice, 9);
    assert_eq!(out, vec![VampMidi::NoteOff(48), VampMidi::NoteOff(51), VampMidi::NoteOff(55)]);
    v.on_tick(12, 0, 0);
    assert_eq!(v.pending_degree, 6);
    let out = v.engine_step(&mut voice, 12);
    assert_eq!(out.len(), 3);
    assert_eq!(voice.sounding, build_chord(48, Key::Aeolian, 6, 0));
    v.on_clock_stop();
    assert_eq!(v.auto_step, 0);
    assert!(v.pending_release);
}

#[test]
fn faders_set_genre_and_division() {
    let mut v = perform_vamp();
    assert!(v.on_fader(LatchLayer::Alt, 0));
    assert_eq!(v.genre, 0);
    assert_eq!(&v.slots[..8], &GENRE_PROGRESSIONS[0]);
    assert!(!v.on_fader(LatchLayer::Alt, 100));
    assert!(v.on_fader(LatchLayer::Third, 0));
    assert_eq!(v.div, 384);
    assert_eq!(v.latch_target(LatchLayer::Third), 0);
    assert_eq!(v.latch_target(LatchLayer::Alt), 0);
    v.on_button_down(true);
    v.on_button_up();
    assert!(v.on_fader(LatchLayer::Main, 3000));
    assert_eq!(v.tension, 3000);
    assert_eq!(v.latch_target(LatchLayer::Main), 3000);
}

#[test]
fn scene_load_takes_storage() {
    let mut v = perform_vamp();
    let mut st = Storage::default();
    st.slot_count = 0;
    st.genre = 12;
    st.mode_auto = true;
    st.auto_running = true;
    v.on_scene_load(st);
    assert_eq!(v.slot_count, 1);
    assert_eq!(v.genre, 7);
    assert!(v.auto_running && v.mode_auto);
    assert!(v.panic_flag);
}

#[test]
fn layer_and_leds() {
    assert_eq!(led_layer(true, false), LatchLayer::Alt);
    assert_eq!(led_layer(false, true), LatchLayer::Third);
    assert_eq!(led_layer(true, true), LatchLayer::Main);
    let v = perform_vamp();
    let leds: Leds<1> = Leds::new(4);
    let frame = v.led_frame(&leds, LatchLayer::Main);
    assert_eq!(frame.len(), 3);
    assert_eq!(frame[0], (4, Led::Top, LedMsg::SetMode(LedMode::Static(Color::Violet, Brightness::Custom(0)))));
    assert_eq!(frame[1], (4, Led::Bottom, LedMsg::SetMode(LedMode::Static(Color::Violet, Brightness::Custom(255)))));
    assert_eq!(frame[2], (4, Led::Button, LedMsg::SetMode(LedMode::Static(Color::Violet, Brightness::Mid))));
    let alt = v.led_frame(&leds, LatchLayer::Alt);
    assert_eq!(alt[2], (4, Led::Button, LedMsg::SetMode(LedMode::Static(Color::Pink, Brightness::High))));
}
