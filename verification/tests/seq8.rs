use faderpunk::app::Leds;
use faderpunk::apps::seq8::{derive_runtime_params, Seq8, Seq8Action, Storage, RESOLUTION};
use faderpunk::types::{Brightness, Color, LatchLayer, Led, LedMode, LedMsg};

#[test]
fn default_runtime_params() {
    let st = Storage::default();
    let (len, res, gate) = derive_runtime_params(st.length_fader, st.gate_fader, st.res_fader, &RESOLUTION);
    assert_eq!(len, [16; 4]);
    assert_eq!(res, [6; 4]);
    assert_eq!(gate, [2; 4]);
}

#[test]
fn runtime_params_edges() {
    let (len, res, gate) = derive_runtime_params([0, 255, 256, 4095], [0, 4095, 2048, 4095], [0, 511, 512, 4095], &RESOLUTION);
    assert_eq!(len, [1, 1, 2, 16]);
    assert_eq!(res, [24, 24, 16, 2]);
    assert_eq!(gate, [1, 23, 8, 1]);
    for n in 0..4 {
        assert!(1 <= gate[n] && (gate[n] as usize) < res[n]);
    }
}

#[test]
fn first_tick_plays_every_track() {
    let mut s = Seq8::new(Storage::default());
    let out = s.on_tick(0);
    assert_eq!(
        out,
        vec![
            Seq8Action::NoteOffLast(0),
            Seq8Action::PlayStep(0, 0),
            Seq8Action::NoteOffLast(1),
            Seq8Action::PlayStep(1, 0),
            Seq8Action::NoteOffLast(2),
            Seq8Action::PlayStep(2, 0),
            Seq8Action::NoteOffLast(3),
            Seq8Action::PlayStep(3, 0),
        ]
    );
    assert_eq!(s.gate_snapshot, [2; 4]);
    assert!(s.on_tick(1).is_empty());
    let out = s.on_tick(2);
    assert_eq!(out.len(), 8);
    assert_eq!(out[0], Seq8Action::GateLow(0));
    assert_eq!(out[1], Seq8Action::NoteOffLast(0));
}

#[test]
fn gate_toggle_and_legato() {
    let mut s = Seq8::new(Storage::default());
    assert!(s.on_button_down(3, false));
    assert!(!s.stored.gateseq.0[3]);
    s.on_tick(0);
    let out = s.on_tick(18);
    assert_eq!(out[0], Seq8Action::NoteOffLast(0));
    assert_eq!(out[1], Seq8Action::GateLow(0));
    assert!(s.on_button_down(3, false));
    assert!(s.stored.gateseq.0[3]);
    assert!(s.on_long_press(4, false));
    assert!(s.stored.legato_seq.0[4] && s.stored.gateseq.0[4]);
    s.on_tick(24);
    let out = s.on_tick(26);
    assert!(!out.contains(&Seq8Action::GateLow(0)));
    assert!(!s.on_long_press(4, true));
}

#[test]
fn faders_write_steps_and_settings() {
    let mut s = Seq8::new(Storage::default());
    assert!(s.on_fader(LatchLayer::Main, 2, 1000));
    assert_eq!(s.stored.seq.0[2], 1000);
    assert_eq!(s.latch_target(LatchLayer::Main, 2), 1000);
    assert!(!s.on_button_down(3, true));
    assert_eq!(s.page, 3);
    assert!(s.on_fader(LatchLayer::Main, 0, 77));
    assert_eq!(s.stored.seq.0[24], 77);
    assert!(s.on_fader(LatchLayer::Alt, 0, 1023));
    assert_eq!(s.seq_length[1], 4);
    assert_eq!(s.latch_target(LatchLayer::Alt, 0), 1023);
    assert!(s.on_fader(LatchLayer::Alt, 4, 4095));
    assert_eq!(s.clockres[1], 2);
    assert_eq!(s.gatel[1], 2);
    assert!(!s.on_fader(LatchLayer::Alt, 6, 4095));
    assert!(!s.on_fader(LatchLayer::Third, 0, 5));
    assert_eq!(s.latch_target(LatchLayer::Third, 0), 0);
}

#[test]
fn step_value_scales_range_and_octave() {
    let mut st = Storage::default();
    st.seq.0[0] = 4095;
    st.oct_fader[0] = 2500;
    let mut s = Seq8::new(st);
    let out = s.on_tick(0);
    assert_eq!(out[1], Seq8Action::PlayStep(0, 1230 + 820));
}

#[test]
fn clock_stop_releases_all() {
    let s = Seq8::new(Storage::default());
    let out = s.on_clock_stop();
    assert_eq!(out.len(), 8);
    assert_eq!(out[6], Seq8Action::NoteOffLast(3));
    assert_eq!(out[7], Seq8Action::GateLow(3));
}

#[test]
fn led_frames() {
    let s = Seq8::new(Storage::default());
    let leds: Leds<8> = Leds::new(8);
    let frame = s.led_frame(&leds, false, 0);
    assert_eq!(frame.len(), 8 * 3 + 1);
    assert_eq!(frame[0], (8, Led::Top, LedMsg::SetMode(LedMode::Static(Color::Yellow, Brightness::Custom(0)))));
    assert_eq!(frame[1], (8, Led::Button, LedMsg::SetMode(LedMode::Static(Color::Yellow, Brightness::Mid))));
    assert_eq!(frame[2], (8, Led::Bottom, LedMsg::SetMode(LedMode::Static(Color::Red, Brightness::Mid))));
    assert_eq!(frame[24], (8, Led::Bottom, LedMsg::SetMode(LedMode::Static(Color::Yellow, Brightness::High))));
    let shifted = s.led_frame(&leds, true, 0);
    assert_eq!(shifted.len(), 8 + 16);
    assert_eq!(shifted[0], (8, Led::Button, LedMsg::SetMode(LedMode::Static(Color::Yellow, Brightness::High))));
    assert_eq!(shifted[8], (8, Led::Top, LedMsg::SetMode(LedMode::Static(Color::Red, Brightness::High))));
    assert_eq!(shifted[9], (9, Led::Top, LedMsg::SetMode(LedMode::Static(Color::Red, Brightness::Mid))));
}
