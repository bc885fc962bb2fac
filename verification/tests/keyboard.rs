use faderpunk::app::Leds;
use faderpunk::apps::keyboard::{
    advance_arp, arp_direction_from_value, arp_span_from_value, arp_ticks_from_value,
    build_arp_sequence, build_note_map, effective_base, key_color, scale_mask, KeyAction, Keyboard,
};
use faderpunk::types::{Brightness, Color, Key, Led, LedMode, LedMsg, Note};

#[test]
fn scale_map_of_c_major() {
    assert_eq!(
        build_note_map(60, Key::Ionian, Note::C, 0),
        [60, 62, 64, 65, 67, 69, 71, 72, 74, 76, 77, 79, 81, 83, 84, 86]
    );
}

#[test]
fn scale_map_follows_tonic() {
    let map = build_note_map(60, Key::PentatonicMin, Note::A, 0);
    assert_eq!(&map[..6], &[60, 62, 64, 67, 69, 72]);
    for w in map.windows(2) {
        assert!(w[0] < w[1]);
    }
}

#[test]
fn scale_map_runs_out_at_top() {
    let mut expected = [127u8; 16];
    expected[0] = 125;
    expected[1] = 127;
    assert_eq!(build_note_map(125, Key::Ionian, Note::C, 0), expected);
    assert_eq!(build_note_map(200, Key::Ionian, Note::C, 0), [127u8; 16]);
}

#[test]
fn chromatic_map_counts_up() {
    let map = build_note_map(120, Key::Ionian, Note::C, 1);
    assert_eq!(&map[..8], &[120, 121, 122, 123, 124, 125, 126, 127]);
    assert!(map[8..].iter().all(|&n| n == 127));
}

#[test]
fn piano_colors() {
    assert_eq!(key_color(60), Color::White);
    assert_eq!(key_color(61), Color::Yellow);
    assert_eq!(key_color(70), Color::Yellow);
    assert_eq!(key_color(71), Color::White);
}

#[test]
fn scale_masks() {
    assert_eq!(scale_mask(Key::Off), 0xFFF);
    assert_eq!(scale_mask(Key::Chromatic), 0xFFF);
    assert_eq!(scale_mask(Key::Ionian), 0b101011010101);
}

#[test]
fn arp_sequence_sorted_and_spread() {
    let mut buf = [None; 16];
    buf[0] = Some((64, 100));
    buf[3] = Some((60, 200));
    buf[9] = Some((64, 7));
    assert_eq!(
        build_arp_sequence(&buf, 2, 0),
        vec![(60, 200), (64, 100), (64, 7), (72, 200), (76, 100), (76, 7)]
    );
    assert_eq!(
        build_arp_sequence(&buf, 1, 1),
        vec![(64, 7), (64, 100), (60, 200)]
    );
    assert!(build_arp_sequence(&[None; 16], 4, 0).is_empty());
}

#[test]
fn arp_sequence_caps_at_64() {
    let mut buf = [None; 16];
    for (i, slot) in buf.iter_mut().enumerate() {
        *slot = Some((i as u8, 1));
    }
    let seq = build_arp_sequence(&buf, 10, 0);
    assert_eq!(seq.len(), 64);
    assert_eq!(seq[63], (15 + 36, 1));
    let high = build_arp_sequence(&[Some((120, 5)); 16], 2, 0);
    assert_eq!(high[16], (127, 5));
}

#[test]
fn arp_advance_modes() {
    let mut up = true;
    assert_eq!(advance_arp(2, 3, 0, &mut up, 0), 0);
    assert_eq!(advance_arp(2, 3, 2, &mut up, 0), 1);
    assert!(!up);
    assert_eq!(advance_arp(0, 3, 2, &mut up, 0), 1);
    assert!(up);
    assert_eq!(advance_arp(0, 1, 2, &mut up, 0), 0);
    assert_eq!(advance_arp(0, 5, 3, &mut up, 4095), 0);
    assert_eq!(advance_arp(0, 5, 3, &mut up, 13), 3);
    assert_eq!(advance_arp(7, 0, 0, &mut up, 0), 0);
}

#[test]
fn arp_fader_choices() {
    assert_eq!(arp_ticks_from_value(0), 24);
    assert_eq!(arp_ticks_from_value(1024), 12);
    assert_eq!(arp_ticks_from_value(2048), 6);
    assert_eq!(arp_ticks_from_value(4095), 3);
    assert_eq!(arp_direction_from_value(3000), 2);
    assert_eq!(arp_span_from_value(0), 1);
    assert_eq!(arp_span_from_value(4095), 4);
    assert_eq!(effective_base(60, -5), 0);
    assert_eq!(effective_base(60, 5), 120);
    assert_eq!(effective_base(100, 3), 127);
}

#[test]
fn key_press_and_release() {
    let leds: Leds<16> = Leds::new(0);
    let mut kb = Keyboard::new(60, 0, Key::Ionian, Note::C);
    let faders = [2000u16; 16];
    let out = kb.on_button_down(&leds, 5, false, &faders);
    assert_eq!(out[0], KeyAction::NoteOn(69, 2000));
    assert_eq!(
        out[1],
        KeyAction::Led((5, Led::Button, LedMsg::SetMode(LedMode::Static(Color::White, Brightness::High))))
    );
    assert_eq!(kb.held[5], Some(69));
    let out = kb.on_button_up(&leds, 5);
    assert_eq!(out[0], KeyAction::NoteOff(69));
    assert_eq!(
        out[1],
        KeyAction::Led((5, Led::Button, LedMsg::SetMode(LedMode::Static(Color::White, Brightness::Mid))))
    );
    assert_eq!(kb.held[5], None);
    assert!(kb.on_button_up(&leds, 5).is_empty());
}

#[test]
fn octave_shift_repaints() {
    let leds: Leds<16> = Leds::new(0);
    let mut kb = Keyboard::new(60, 0, Key::Ionian, Note::C);
    let out = kb.on_button_down(&leds, 1, true, &[0; 16]);
    assert_eq!(out.len(), 16);
    assert_eq!(kb.octave_offset, 1);
    assert_eq!(kb.note_map[0], 72);
    for _ in 0..10 {
        kb.on_button_down(&leds, 0, true, &[0; 16]);
    }
    assert_eq!(kb.octave_offset, -5);
    assert_eq!(kb.note_map[0], 0);
}

#[test]
fn arpeggio_plays_held_notes() {
    let leds: Leds<16> = Leds::new(0);
    let mut kb = Keyboard::new(60, 0, Key::Ionian, Note::C);
    let faders = [1000u16; 16];
    kb.on_button_down(&leds, 2, false, &faders);
    kb.on_button_down(&leds, 0, false, &faders);
    let out = kb.on_button_down(&leds, 3, true, &faders);
    assert!(kb.arp_active);
    assert_eq!(out.len(), 1);
    assert_eq!(kb.arp_buffer[0], Some((60, 1000)));
    assert_eq!(kb.arp_buffer[2], Some((64, 1000)));
    assert!(kb.on_tick(1, 0).is_empty());
    let out = kb.on_tick(6, 0);
    assert_eq!(out, vec![KeyAction::NoteOn(64, 1000)]);
    let out = kb.on_tick(12, 0);
    assert_eq!(out, vec![KeyAction::NoteOff(64), KeyAction::NoteOn(60, 1000)]);
    let out = kb.on_clock_stop();
    assert_eq!(out, vec![KeyAction::NoteOff(60)]);
    assert_eq!(kb.arp_pos, 0);
    kb.on_fader(2, 0, true);
    assert_eq!(kb.arp_clk_div, 24);
    kb.on_fader(2, 0, false);
    assert_eq!(kb.arp_clk_div, 24);
}

#[test]
fn scale_change_releases_and_remaps() {
    let leds: Leds<16> = Leds::new(0);
    let mut kb = Keyboard::new(60, 0, Key::Ionian, Note::C);
    kb.on_button_down(&leds, 1, false, &[500; 16]);
    assert!(kb.on_scale(&leds, Key::Ionian, Note::C).is_empty());
    let out = kb.on_scale(&leds, Key::Aeolian, Note::C);
    assert_eq!(out[0], KeyAction::NoteOff(62));
    assert_eq!(out.len(), 17);
    assert_eq!(kb.held, [None; 16]);
    assert_eq!(kb.note_map[2], 63);
}
