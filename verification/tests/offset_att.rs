use faderpunk::app::Leds;
use faderpunk::apps::mixer::{on_fader_change, Storage as MixerStorage};
use faderpunk::apps::offset_att::{OffsetAction, OffsetAtt, Storage};
use faderpunk::types::{Brightness, Color, Led, LedMode, LedMsg};

fn lit(chan: usize, led: Led, color: Color, b: Brightness) -> OffsetAction {
    OffsetAction::Led((chan, led, LedMsg::SetMode(LedMode::Static(color, b))))
}

#[test]
fn offset_att_doubles_around_the_middle() {
    let leds = Leds::<2>::new(0);
    let mut a = OffsetAtt::new(Color::Rose, Storage::default());
    assert!(a.on_button_down(0, false));
    assert_eq!(a.stored.offset_saved, 2047);
    assert!(!a.on_button_down(1, true));
    for _ in 0..200 {
        a.on_ms(&leds, 2500);
    }
    assert_eq!((a.att, a.offset_fad), (4095, 2047));
    let work = a.on_ms(&leds, 2500);
    assert_eq!(work[0], OffsetAction::Out(2953));
    assert_eq!(work[5], lit(0, Led::Button, Color::Rose, Brightness::Lower));
    assert_eq!(work[6], lit(1, Led::Button, Color::Rose, Brightness::Low));
    assert_eq!(a.on_ms(&leds, 3500)[0], OffsetAction::Out(4094));
    assert_eq!(a.on_ms(&leds, 0)[0], OffsetAction::Out(0));
    assert!(a.on_fader(1, 100));
    assert_eq!(a.latch_target(1), 100);
    assert!(a.on_button_down(1, false));
    assert_eq!(a.stored.att_saved, 3071);
}

#[test]
fn mixer_scales_input_by_gain() {
    let mut st = MixerStorage::default();
    assert_eq!(on_fader_change(&mut st, 2048, 4095), 2048);
    assert_eq!(st.master_gain, 2048);
    assert_eq!(on_fader_change(&mut st, 0, 4095), 0);
}
