use faderpunk::app::Leds;
use faderpunk::apps::cv2midinote::{CvNoteAction, CvToNote, Storage};
use faderpunk::types::{Brightness, Color, LatchLayer, Led, LedMode, LedMsg};

fn lit(chan: usize, led: Led, color: Color, b: Brightness) -> CvNoteAction {
    CvNoteAction::Led((chan, led, LedMsg::SetMode(LedMode::Static(color, b))))
}

#[test]
fn cv2midinote_gate_samples_and_releases() {
    let leds = Leds::<2>::new(0);
    let (mut c, work) = CvToNote::new(&leds, Color::Orange, Storage::default());
    assert_eq!(work.len(), 2);
    let (work, sample) = c.on_ms(&leds, 500);
    assert!(sample && work.is_empty());
    let work = c.on_sample(&leds, 2048);
    assert_eq!(
        work,
        vec![
            CvNoteAction::NoteOn(5),
            lit(1, Led::Button, Color::Orange, Brightness::Low),
            lit(0, Led::Top, Color::Orange, Brightness::Custom(0)),
            lit(0, Led::Bottom, Color::Orange, Brightness::Custom(212)),
            lit(1, Led::Top, Color::Orange, Brightness::Lower),
        ]
    );
    // A second sample without an edge does nothing.
    assert!(c.on_sample(&leds, 0).is_empty());
    let (work, sample) = c.on_ms(&leds, 0);
    assert!(!sample);
    assert_eq!(
        work,
        vec![
            CvNoteAction::NoteOff(5),
            lit(1, Led::Button, Color::Orange, Brightness::Low),
            CvNoteAction::Led((1, Led::Top, LedMsg::Reset)),
        ]
    );
}

#[test]
fn cv2midinote_faders_transpose_and_mute() {
    let leds = Leds::<2>::new(0);
    let (mut c, _) = CvToNote::new(&leds, Color::Orange, Storage::default());
    assert!(c.on_fader(1, LatchLayer::Main, 2048));
    assert!(!c.on_fader(1, LatchLayer::Alt, 4095));
    c.on_ms(&leds, 4095);
    c.on_sample(&leds, 2048);
    assert_eq!(c.note, 65);
    let (_, save) = c.on_button_down(&leds, 0);
    assert!(save);
    assert_eq!(c.stored.fader_saved[0], 0);
    let (work, _) = c.on_button_down(&leds, 1);
    assert!(c.muted);
    assert_eq!(work, vec![CvNoteAction::Led((1, Led::Button, LedMsg::Reset))]);
    c.on_ms(&leds, 0);
    // Muted: a rising edge only shows the last note.
    let (work, sample) = c.on_ms(&leds, 4095);
    assert!(!sample);
    assert_eq!(work.len(), 3);
}
