use faderpunk::apps::arp_de_levy::{
    clamp_note, levy_delta, mode_color, mutate_pool, note_to_pitch, octaves_from_value, pool_index,
    reroll_pool, texture_from_value, MODE_CONVERGE, MODE_DOWN, MODE_DOWN_UP, MODE_UP, MODE_UP_DOWN,
};
use faderpunk::apps::automator::{loop_len_samples, next_loop_bars};
use faderpunk::apps::control2::slew_2;
use faderpunk::apps::euclid::{euclidean_filter, euclidean_pattern, rotl32};
use faderpunk::apps::follower::{average_values, rectify, shift_and_insert};
use faderpunk::apps::genseq;
use faderpunk::apps::slew;
use faderpunk::apps::turing::{rotate_select_bit, scale_to_12bit};
use faderpunk::types::{Color, Note};

#[test]
fn arp_de_levy_fader_choices() {
    assert_eq!(octaves_from_value(0), 1);
    assert_eq!(octaves_from_value(4095), 4);
    assert_eq!(texture_from_value(0), (820, 16, 0));
    assert_eq!(texture_from_value(4095), (4095, 4, 2));
    assert_eq!(mode_color(MODE_DOWN, Color::Blue), Color::Orange);
    assert_eq!(mode_color(MODE_UP, Color::Blue), Color::Blue);
    assert_eq!(clamp_note(-3), 0);
    assert_eq!(clamp_note(300), 127);
}

#[test]
fn levy_steps_are_signed_table_entries() {
    assert_eq!(levy_delta(0, 0), 1);
    assert_eq!(levy_delta(15, 1), -12);
    assert_eq!(levy_delta(31, 2), 12);
}

#[test]
fn pool_mutation_and_reroll() {
    let mut pool = [60u8; 16];
    mutate_pool(&mut pool, 4, 50, 70, 5, 15, 0);
    assert_eq!(pool[1], 70);
    assert_eq!(pool[0], 60);
    let mut pool = [0u8; 16];
    reroll_pool(&mut pool, 2, 40, 52, &[4095; 16]);
    let mut wide = [0u8; 16];
    let mut rolls = [4095u16; 16];
    rolls[1] = 2048;
    reroll_pool(&mut wide, 3, 40, 88, &rolls);
    assert_eq!(&wide[..4], &[88, 64, 88, 40]);
    assert_eq!(&pool[..3], &[52, 52, 40]);
}

#[test]
fn pool_index_modes() {
    assert_eq!(pool_index(5, 4, MODE_UP, false), 1);
    assert_eq!(pool_index(0, 4, MODE_DOWN, false), 3);
    let up_down: Vec<usize> = (0..8).map(|s| pool_index(s, 4, MODE_UP_DOWN, false)).collect();
    assert_eq!(up_down, vec![0, 1, 2, 3, 2, 1, 0, 1]);
    assert_eq!(pool_index(0, 4, MODE_DOWN_UP, false), 3);
    let converge: Vec<usize> = (0..4).map(|s| pool_index(s, 4, MODE_CONVERGE, false)).collect();
    assert_eq!(converge, vec![0, 3, 1, 2]);
    assert_eq!(pool_index(0, 4, MODE_UP, true), 3);
    assert_eq!(pool_index(9, 0, MODE_UP, false), 0);
}

#[test]
fn pitch_of_midi_note() {
    let p = note_to_pitch(61);
    assert_eq!(p.octave, 4);
    assert_eq!(p.note, Note::CSharp);
    assert_eq!(note_to_pitch(0).octave, -1);
}

#[test]
fn turing_register_steps() {
    assert_eq!(rotate_select_bit(0b1, 0, 1, 16), (0b1000_0000_0000_0000, false));
    assert_eq!(rotate_select_bit(0b1, 5, 1, 16), (0, true));
    assert_eq!(rotate_select_bit(0x8000, 0, 1, 1), (0xC000, false));
    assert_eq!(scale_to_12bit(0xFFFF, 8), 4095);
    assert_eq!(scale_to_12bit(0x8000, 1), 4095);
    assert_eq!(scale_to_12bit(0x7FFF, 1), 0);
    assert_eq!(genseq::scale_to_12bit(0x0100, 8), 16);
}

#[test]
fn slew_moves_toward_input() {
    assert_eq!(slew_2(0, 1000, 0), 1000);
    assert_eq!(slew_2(0, 1000, 3), 250);
    assert_eq!(slew_2(990, 1000, 20), 1000);
}

#[test]
fn euclidean_rhythms() {
    assert_eq!(euclidean_pattern(8, 3, 0, 0), 0b1001001);
    assert_eq!(euclidean_pattern(8, 3, 1, 0), 0b10010010);
    assert_eq!(rotl32(0b1001001, 8, 8), 0b1001001);
    let hits: Vec<u32> = (0..8).filter(|&c| euclidean_filter(8, 3, 0, c)).collect();
    assert_eq!(hits, vec![0, 3, 6]);
    assert!(euclidean_filter(8, 3, 0, 11));
    assert!(genseq::euclidean_filter(0, 1, 0, 5));
}

#[test]
fn automator_loop_lengths() {
    assert_eq!(loop_len_samples(4), 192);
    assert_eq!(next_loop_bars(1), 2);
    assert_eq!(next_loop_bars(2), 4);
    assert_eq!(next_loop_bars(4), 1);
    assert_eq!(next_loop_bars(next_loop_bars(next_loop_bars(2))), 2);
}

#[test]
fn follower_history() {
    let history = [5u16; 2048];
    let next = shift_and_insert(&history, 9, 1, 2);
    assert_eq!(&next[..4], &[9, 5, 5, 1]);
    assert_eq!(average_values(&[1, 2, 3, 10], 3), 2);
    assert_eq!(average_values(&[4, 8], 10), 6);
    assert_eq!(rectify(2047), 0);
    assert_eq!(rectify(0), 4095);
    assert_eq!(rectify(3000), 1904);
    assert_eq!(rectify(5000), 0);
    assert_eq!(slew::rectify(2047), 2047);
    assert_eq!(slew::rectify(0), 4094);
    assert_eq!(slew::rectify(3000), 3000);
}

#[test]
fn follower_averages_rectified_history() {
    use_follower();
}

fn use_follower() {
    let leds = faderpunk::app::Leds::<2>::new(0);
    let (mut f, work) = faderpunk::apps::follower::Follower::new(&leds, false);
    assert_eq!(work.len(), 2);
    f.on_fader(0, 6);
    assert_eq!(f.slew, 4);
    // 0 is the far end below the center: it folds up to 4095.
    let (work, avg) = f.ms_start(&leds, 0);
    assert_eq!(avg, 1023);
    assert_eq!(
        work[1],
        faderpunk::apps::follower::FollowAction::Led((
            0,
            faderpunk::types::Led::Bottom,
            faderpunk::types::LedMsg::SetMode(faderpunk::types::LedMode::Static(
                Color::Custom(188, 77, 216),
                faderpunk::types::Brightness::Custom(96)
            ))
        ))
    );
    let work = f.ms_end(&leds, 1000);
    assert_eq!(work[2], faderpunk::apps::follower::FollowAction::Out(1000));
    // The next sample: the center rectifies to 0; places past the length take the output.
    let (_, avg) = f.ms_start(&leds, 2047);
    assert_eq!(f.buffer[0], 0);
    assert_eq!(f.buffer[1], 4095);
    assert_eq!(f.buffer[5], 1000);
    assert_eq!(avg, 1023);
}
