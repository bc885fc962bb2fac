use faderpunk::app::{scene_event, Clock, Die, Global, InJack, MidiInput, MidiOutput, OutJack, SceneEvent};
use faderpunk::fpapp_runtime::{
    decode_color, decode_led, decode_led_mode, decode_midi_out, decode_range, decode_vpo,
    encode_midi_message, native_address, pack_quantized, placement_allowed, BlobKind, CommandKind,
    CommandV1, DeviceAction, EventKind, EventV1, RuntimeContext,
};
use faderpunk::types::{
    Brightness, ClockEvent, Color, InputEvent, Led, LedMode, LedMsg, MidiEvent, MidiMessage, Range,
    VoltPerOct,
};

#[test]
fn clock_divides_ticks() {
    let mut clock = Clock::new();
    assert_eq!(clock.on_event(ClockEvent::Tick(1), 3), None);
    assert_eq!(clock.on_event(ClockEvent::Tick(2), 3), None);
    assert_eq!(clock.on_event(ClockEvent::Tick(3), 3), Some(ClockEvent::Tick(3)));
    assert_eq!(clock.tick_count, 0);
    clock.on_event(ClockEvent::Tick(4), 3);
    assert_eq!(clock.on_event(ClockEvent::Stop, 3), Some(ClockEvent::Stop));
    assert_eq!(clock.tick_count, 1);
    assert_eq!(clock.on_event(ClockEvent::Reset, 3), Some(ClockEvent::Reset));
    assert_eq!(clock.tick_count, 0);
}

#[test]
fn jacks_scale_values() {
    let input = InJack::new(2, Range::_0_5V);
    assert_eq!(input.get_value(&[0, 0, 1000]), 2000);
    assert_eq!(input.get_value(&[0, 0, 40000]), u16::MAX);
    let output = OutJack::new(1, Range::_0_5V);
    let mut dac = [0u16; 16];
    output.set_value(4000, &mut dac);
    assert_eq!(dac[1], 2000);
}

#[test]
fn midi_requests_scale_to_seven_bits() {
    let out = MidiOutput::new(4, 17);
    assert_eq!(out.midi_channel, 1);
    assert_eq!(out.send_cc(200, 4095).2, MidiMessage::Controller { controller: 72, value: 127 });
    assert_eq!(out.send_note_on(60, 2048).2, MidiMessage::NoteOn { key: 60, vel: 64 });
    assert_eq!(out.send_note_off(188).2, MidiMessage::NoteOff { key: 60, vel: 0 });
    assert_eq!(out.send_pitch_bend(20000).2, MidiMessage::PitchBend { bend: 20000 - 16384 });
    let input = MidiInput::new(3);
    let msg = MidiMessage::ProgramChange { program: 9 };
    assert_eq!(input.accept(InputEvent::MidiMsg(3, msg)), Some(msg));
    assert_eq!(input.accept(InputEvent::MidiMsg(4, msg)), None);
}

#[test]
fn globals_and_die() {
    let mut g = Global::new(false);
    assert!(g.toggle());
    assert!(!g.toggle());
    assert!(!g.get());
    assert_eq!(Die::new().roll_from(0xFF, 0xFF), 4095);
    assert_eq!(Die::new().roll_from(1, 16), 1);
    assert!(scene_event(InputEvent::LoadScene(3)) == Some(SceneEvent::LoadSscene(3)));
    assert!(scene_event(InputEvent::ButtonDown(3)).is_none());
}

#[test]
fn decoders() {
    assert_eq!(decode_range(1), Range::_0_5V);
    assert_eq!(decode_range(9), Range::_0_10V);
    assert_eq!(decode_led(2), Led::Button);
    assert_eq!(decode_color(3), Color::Red);
    assert_eq!(decode_color(0x8012_3456), Color::Custom(0x12, 0x34, 0x56));
    assert_eq!(decode_color(99), Color::White);
    assert_eq!(decode_led_mode(2, 4, u32::MAX, 0), LedMode::Flash(Color::Lime, None));
    assert_eq!(decode_led_mode(4, 0, 0x1020, 0), LedMode::ClockFlash(Color::White, Brightness::Custom(0x20), Brightness::Custom(0x10)));
    assert_eq!(decode_led_mode(0, 1, 77, 0), LedMode::Static(Color::Yellow, Brightness::Custom(77)));
    assert_eq!(decode_midi_out(0b101).0, [true, false, true]);
    assert_eq!(decode_vpo(1), VoltPerOct::Buchla);
    assert_eq!(decode_vpo(5), VoltPerOct::Custom(3));
    assert_eq!(pack_quantized(60, true), 316);
    assert_eq!(native_address(0x1000, 0x20), 0x1021);
    assert!(placement_allowed(12, 4));
    assert!(!placement_allowed(13, 4));
    assert!(!placement_allowed(0, 0));
    assert!(!placement_allowed(usize::MAX, 1));
    assert!(!placement_allowed(0, 17));
}

#[test]
fn midi_message_encoding() {
    assert_eq!(encode_midi_message(MidiMessage::NoteOn { key: 60, vel: 100 }), (1, 60 | (100 << 8)));
    assert_eq!(encode_midi_message(MidiMessage::PitchBend { bend: 8192 }), (6, 8192));
}

#[test]
fn events_queue_and_read_back() {
    let mut ctx = RuntimeContext::new(7, 4, 2, 1);
    assert_eq!(ctx.event_cursor(), 0);
    ctx.push_event(RuntimeContext::translate_clock(ClockEvent::Tick(99)));
    let e = ctx.read_event_after(0).unwrap();
    assert_eq!(e.kind, EventKind::ClockTick);
    assert_eq!(e.data, 99);
    assert_eq!(e.sequence, 1);
    assert!(ctx.read_event_after(1).is_none());
    let faders = [100u16; 16];
    let t = ctx.translate(InputEvent::FaderChange(5), &faders, false).unwrap();
    assert_eq!(t.channel, 1);
    assert_eq!(t.kind, EventKind::Fader);
    assert!(ctx.translate(InputEvent::FaderChange(9), &faders, false).is_none());
    let midi = RuntimeContext::translate_midi(MidiEvent::Nrpn { channel: 2, param: 5, value: 1 }, true).unwrap();
    assert_eq!(midi.kind, EventKind::MidiUsbNrpn);
    assert_eq!(midi.data, 5 + 65536);
    ctx.on_param_request();
    assert_eq!(ctx.read_event_after(1).unwrap().kind, EventKind::ParamRequest);
    ctx.on_param_values(Some(&[1, 2, 3]));
    assert_eq!(ctx.read_blob(BlobKind::ParamUpdate, 0, 8), Some(vec![1, 2, 3]));
    ctx.push_fader_positions(&[9; 16]);
    assert_eq!(ctx.events.len(), 5);
    assert_eq!(ctx.events.get(4).unwrap().value, 9);
    assert_eq!(ctx.events.get(4).unwrap().channel, 1);
}

#[test]
fn outputs_and_commands() {
    let mut ctx = RuntimeContext::new(7, 4, 2, 1);
    assert_eq!(ctx.set_output(1, 5000), Some((5, 4095)));
    assert_eq!(ctx.set_output(2, 10), None);
    let cmd = CommandV1 { kind: CommandKind::GateHigh, channel: 9, flags: 0, arg0: 0, arg1: 0, arg2: 0 };
    assert!(ctx.submit_command(cmd));
    assert!(matches!(ctx.resolve_command(cmd), DeviceAction::GateHigh(5)));
    let led = CommandV1 { kind: CommandKind::LedUnset, channel: 0, flags: 1, arg0: 0, arg1: 0, arg2: 0 };
    assert!(matches!(ctx.resolve_command(led), DeviceAction::Led(4, Led::Bottom, LedMsg::Reset)));
    assert!(matches!(ctx.resolve_checked(cmd), Some(DeviceAction::GateHigh(5))));
    let bad_cc = CommandV1 { kind: CommandKind::MidiCc, channel: 0, flags: 0, arg0: 255, arg1: 7, arg2: 100 };
    assert!(ctx.resolve_checked(bad_cc).is_none());
    let cc = CommandV1 { arg0: 2, ..bad_cc };
    assert!(matches!(ctx.resolve_checked(cc), Some(DeviceAction::Midi { midi_channel: 2, .. })));
    assert!(ctx.read_blob(BlobKind::Storage, 1, 10).is_none());
    assert_eq!(ctx.pending_blob_read, Some((BlobKind::Storage, 1)));
    assert!(ctx.write_blob(BlobKind::Params, 0, &[4, 5]));
    assert!(!ctx.write_blob(BlobKind::Params, 0, &[6]));
    assert_eq!(ctx.blob_address(BlobKind::Params, 0), Some(122_880 + 128));
    assert_eq!(ctx.blob_address(BlobKind::Storage, 0), Some(1024 + 6800));
    assert_eq!(ctx.blob_address(BlobKind::Storage, 2), Some(1024 + 6800 + 800));
    assert_eq!(ctx.blob_address(BlobKind::ParamUpdate, 0), None);
    ctx.schedule_wake_at(500);
    ctx.schedule_wake_at(900);
    assert_eq!(ctx.wake_at, Some(500));
    ctx.on_wake_timer();
    assert_eq!(ctx.wake_at, None);
    let _ = EventV1::bare(EventKind::ClockStart);
}

#[test]
fn full_queues_drop_oldest_event_and_refuse_commands() {
    let mut ctx = RuntimeContext::new(7, 0, 1, 1);
    for _ in 0..70 {
        ctx.on_param_request();
    }
    assert_eq!(ctx.events.len(), 64);
    assert_eq!(ctx.events.get(0).unwrap().sequence, 7);
    assert_eq!(ctx.events.get(63).unwrap().sequence, 70);
    assert!(ctx.events.get(64).is_none());
    assert_eq!(ctx.read_event_after(69).unwrap().sequence, 70);
    for i in 0..33u32 {
        let cmd = CommandV1 { kind: CommandKind::GateHigh, channel: 0, flags: 0, arg0: i, arg1: 0, arg2: 0 };
        assert_eq!(ctx.submit_command(cmd), i < 32);
    }
    let (cmds, _, _, processed) = ctx.take_services();
    assert!(processed);
    assert_eq!(cmds.len(), 32);
    assert_eq!(cmds[0].arg0, 0);
    assert_eq!(cmds[31].arg0, 31);
    let (cmds, _, _, processed) = ctx.take_services();
    assert!(cmds.is_empty() && !processed);
}
