use faderpunk::app::Latch;
use faderpunk::types::LatchLayer;
use faderpunk::config::{Layout, Waveform};
use faderpunk::fpapps::{CachedDescriptor, FpAppCatalog, RuntimeDescriptor};
use faderpunk::layout::LayoutManager;
use faderpunk::routing::{
    apply_attenuation_and_offset, evaluate_source_value, CombineMode, Route, RouteDestination,
    RouteSource, RoutingConfig, RoutingEngine,
};
use faderpunk::storage::{frame_record, record_payload, AppParamsAddress, AppStorageAddress};

fn route(src: u8, dest: RouteDestination, mode: CombineMode, att: i16, off: i16) -> Route {
    Route {
        enabled: true,
        source: RouteSource::AppOutput { channel: src },
        destination: dest,
        mode,
        attenuation_percent: att,
        offset: off,
    }
}

#[test]
fn attenuation_and_offset() {
    assert_eq!(apply_attenuation_and_offset(2000, 50, 100), 1100);
    assert_eq!(apply_attenuation_and_offset(3000, 200, 0), 4095);
    assert_eq!(apply_attenuation_and_offset(100, -100, 0), 0);
    assert_eq!(apply_attenuation_and_offset(99, -50, 100), 51);
}

#[test]
fn source_values() {
    let outputs = [7u16; 16];
    assert_eq!(evaluate_source_value(RouteSource::Constant { value: 5000 }, &outputs, &[]), 4095);
    assert_eq!(evaluate_source_value(RouteSource::AppOutput { channel: 3 }, &outputs, &[]), 7);
    assert_eq!(evaluate_source_value(RouteSource::AppOutput { channel: 30 }, &outputs, &[]), 0);
    assert_eq!(evaluate_source_value(RouteSource::PhysicalAdc { channel: 1 }, &outputs, &[5, 6]), 6);
    assert_eq!(evaluate_source_value(RouteSource::PhysicalAdc { channel: 2 }, &outputs, &[5, 6]), 0);
}

#[test]
fn routed_input_reads_virtual_output() {
    let mut engine = RoutingEngine::new();
    assert!(!engine.set_virtual_output(2, 1000));
    let mut config = RoutingConfig::new();
    config.routes[0] = Some(route(2, RouteDestination::AppInput { channel: 5 }, CombineMode::Replace, 100, 0));
    let notify = engine.set_routing_config(config);
    assert_eq!(notify, vec![5]);
    assert!(engine.is_input_routed(5));
    assert!(!engine.is_input_routed(6));
    assert_eq!(engine.get_input_value(5, 77, &[]), 1000);
    assert_eq!(engine.get_input_value(6, 77, &[]), 77);
    assert!(engine.set_virtual_output(2, 1200));
    assert!(!engine.set_virtual_output(2, 1200));
    assert_eq!(engine.get_virtual_output(2), 1200);
    assert_eq!(engine.get_virtual_output(99), 0);
}

#[test]
fn replace_takes_the_last_route() {
    let mut engine = RoutingEngine::new();
    engine.set_virtual_output(0, 100);
    engine.set_virtual_output(1, 900);
    let mut config = RoutingConfig::new();
    let dest = RouteDestination::PhysicalDac { channel: 4 };
    config.routes[3] = Some(route(0, dest, CombineMode::Replace, 100, 0));
    config.routes[9] = Some(route(1, dest, CombineMode::Replace, 100, 0));
    assert!(engine.set_routing_config(config).is_empty());
    assert_eq!(engine.get_dac_value(4, 5, &[]), 900);
    assert_eq!(engine.get_dac_value(3, 5, &[]), 5);
}

#[test]
fn combine_modes() {
    let mut engine = RoutingEngine::new();
    engine.set_virtual_output(0, 3000);
    engine.set_virtual_output(1, 2000);
    let dest = RouteDestination::PhysicalDac { channel: 0 };
    for (mode, expected) in [
        (CombineMode::Sum, 4095),
        (CombineMode::Average, 2500),
        (CombineMode::Max, 3000),
        (CombineMode::Min, 2000),
        (CombineMode::Or, 4095),
        (CombineMode::And, 0),
        (CombineMode::Xor, 4095),
    ] {
        let mut config = RoutingConfig::new();
        config.routes[0] = Some(route(0, dest, mode, 100, 0));
        config.routes[1] = Some(route(1, dest, CombineMode::Replace, 100, 0));
        engine.set_routing_config(config);
        assert_eq!(engine.get_dac_value(0, 1, &[]), expected);
    }
}

#[test]
fn disabled_routes_route_nothing() {
    let mut engine = RoutingEngine::new();
    let mut config = RoutingConfig::new();
    let mut r = route(0, RouteDestination::AppInput { channel: 1 }, CombineMode::Replace, 100, 0);
    r.enabled = false;
    config.routes[0] = Some(r);
    assert!(engine.set_routing_config(config).is_empty());
    assert!(!engine.active);
    assert_eq!(engine.get_input_value(1, 321, &[]), 321);
}

#[test]
fn storage_addresses_roundtrip() {
    let key = AppStorageAddress::new(3, Some(2));
    let addr = key.to_address();
    assert_eq!(addr, 1024 + 3 * 6800 + 3 * 400);
    assert!(AppStorageAddress::from_address(addr + 17) == key);
    let live = AppStorageAddress::new(0, None);
    assert_eq!(live.to_address(), 1024);
    let p = AppParamsAddress::new(5);
    assert_eq!(p.to_address(), 122_880 + 5 * 128);
    assert_eq!(AppParamsAddress::from_address(122_880 + 5 * 128 + 3).start_channel, 5);
}

#[test]
fn records_roundtrip() {
    let framed = frame_record(9, &[1, 2, 3]);
    assert_eq!(framed, vec![9, 1, 2, 3]);
    assert_eq!(record_payload(9, &framed), Some(vec![1, 2, 3]));
    assert_eq!(record_payload(8, &framed), None);
    assert_eq!(record_payload(9, &[]), None);
}

#[test]
fn layout_validation_packs_apps() {
    let mut slots = [None; 16];
    slots[0] = Some((1, 0));
    slots[5] = Some((2, 0));
    slots[9] = Some((7, 0));
    let mut layout = Layout(slots);
    let counts = [None, Some(2), Some(3)];
    layout.validate(&counts);
    assert_eq!(layout.0[0], Some((1, 2)));
    assert_eq!(layout.0[2], Some((2, 3)));
    assert_eq!(layout.0.iter().filter(|s| s.is_some()).count(), 2);
    assert_eq!(layout.first_free(), Some(3));
    let mut it = layout.iter();
    assert_eq!(it.next(), Some((1, 0, 2)));
    assert_eq!(it.next(), Some((2, 2, 3)));
    assert_eq!(it.next(), None);
    assert_eq!(Layout::new().first_free(), Some(0));
}

#[test]
fn layout_validation_stops_when_full() {
    let mut slots = [None; 16];
    slots[0] = Some((1, 0));
    slots[1] = Some((1, 0));
    slots[2] = Some((2, 0));
    let mut layout = Layout(slots);
    layout.validate(&[None, Some(8), Some(1)]);
    assert_eq!(layout.0[0], Some((1, 8)));
    assert_eq!(layout.0[8], Some((1, 8)));
    assert_eq!(layout.first_free(), Some(9));
}

#[test]
fn waveform_cycle_returns() {
    let w = Waveform::Sine;
    assert_eq!(w.cycle().cycle().cycle().cycle(), w);
    assert_eq!(Waveform::Triangle.cycle(), Waveform::Saw);
}

#[test]
fn waveform_samples_come_from_tables() {
    assert_eq!(Waveform::Saw.at(0), libfp::constants::WAVEFORM_SAW[0]);
    assert_eq!(Waveform::Sine.at(4096 + 1024), libfp::constants::WAVEFORM_SINE[1024]);
    assert_eq!(Waveform::Rect.at(3000), libfp::constants::WAVEFORM_SQUARE[3000]);
    assert_ne!(Waveform::Triangle.at(1000), 1000 % 4096 + 12345);
}

#[test]
fn layout_manager_reconciles() {
    let mut m = LayoutManager::new();
    let mut desired = [None; 16];
    desired[0] = Some((4, 2, 1));
    desired[4] = Some((5, 1, 2));
    let ok = [true; 16];
    let planned = m.plan_layout(&desired);
    assert!(planned.changed && planned.spawns[0] && planned.spawns[4]);
    let plan = m.spawn_layout(&desired, &ok);
    assert!(plan.changed);
    assert!(plan.spawns[0] && plan.spawns[4]);
    assert!(!plan.exits.iter().any(|&e| e));
    let again = m.spawn_layout(&desired, &ok);
    assert!(!again.changed);
    desired[4] = None;
    let plan = m.spawn_layout(&desired, &ok);
    assert!(plan.exits[4]);
    assert!(!plan.spawns.iter().any(|&s| s));
    assert!(m.exit_app(0));
    assert!(!m.exit_app(0));
    m.set_held(0, true);
    let plan = m.spawn_layout(&desired, &ok);
    assert!(!plan.spawns[0]);
    assert!(!m.spawn_one(0, 4, 2, 1, false));
    assert!(m.layout[0].is_none());
    assert!(m.spawn_one(0, 4, 2, 1, true));
    assert!(!m.spawn_one(0, 4, 2, 1, true));
}

#[test]
fn layout_failed_spawn_is_not_recorded_and_retried() {
    let mut m = LayoutManager::new();
    let mut desired = [None; 16];
    desired[3] = Some((9, 1, 0));
    desired[5] = Some((6, 1, 0));
    let mut outcome = [true; 16];
    outcome[3] = false;
    let plan = m.spawn_layout(&desired, &outcome);
    assert!(plan.spawns[3] && plan.spawns[5]);
    assert!(plan.changed);
    assert_eq!(m.layout[3], None);
    assert_eq!(m.layout[5], Some((6, 1, 0)));
    // Only the failed channel is planned again.
    let next = m.plan_layout(&desired);
    assert!(next.spawns[3] && !next.spawns[5]);
    // A layout whose only spawn fails changes nothing.
    let mut only = [None; 16];
    only[3] = Some((9, 1, 0));
    let mut m2 = LayoutManager::new();
    let plan = m2.spawn_layout(&only, &[false; 16]);
    assert!(plan.spawns[3] && !plan.changed);
    let (exited, plan) = m.respawn_all(&desired, &outcome);
    assert!(exited[5] && !exited[3]);
    assert!(plan.spawns[3] && plan.spawns[5]);
    assert_eq!(m.layout[3], None);
}

fn descriptor(slot: u8, app_id: u8, channels: u8) -> RuntimeDescriptor {
    RuntimeDescriptor { slot, app_id, channels, code_base: 0x1000, required_bytes: 64, init: 1, poll: 2, drop: 3 }
}

#[test]
fn catalog_publishes_and_quarantines() {
    let mut cat = FpAppCatalog::new();
    assert!(!cat.has_runnable_app());
    let found = [Some(descriptor(0, 40, 2)), None, Some(descriptor(2, 41, 1)), None];
    cat.refresh_catalog(&found);
    assert!(cat.has_runnable_app());
    assert!(cat.runtime_descriptor(41) == Some(descriptor(2, 41, 1)));
    assert_eq!(cat.get_channels(40), Some(2));
    assert_eq!(cat.get_channels(42), None);
    cat.apply_quarantine(0b0001, &found);
    assert_eq!(cat.quarantined_slots(), 1);
    assert_eq!(cat.get_channels(40), None);
    assert_eq!(cat.clear_quarantine(0), Some(0));
    assert_eq!(cat.clear_quarantine(0), None);
    let mut c = CachedDescriptor::new();
    c.publish(descriptor(3, 50, 4));
    assert!(c.get(3, 50) == Some(descriptor(3, 50, 4)));
    assert!(c.get(3, 51).is_none());
}

#[test]
fn latch_picks_up_at_target() {
    let mut latch = Latch::new(2000);
    assert_eq!(latch.update(2005, LatchLayer::Main, 2000), None);
    assert_eq!(latch.update(3000, LatchLayer::Main, 2000), Some(3000));
    // Switching layers away from the stored value lets go of it.
    assert_eq!(latch.update(3000, LatchLayer::Alt, 500), None);
    assert_eq!(latch.update(600, LatchLayer::Alt, 500), None);
    // Crossing the stored value picks it up.
    assert_eq!(latch.update(400, LatchLayer::Alt, 500), Some(400));
    assert_eq!(latch.update(800, LatchLayer::Alt, 400), Some(800));
}
