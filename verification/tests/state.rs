use faderpunk::app::{GateJack, InJack, OutJack};
use faderpunk::state::{JackRegistry, RuntimeState, StateCell};
use faderpunk::types::Range;

#[test]
fn state_updates_persist_only_changes() {
    let mut cell = StateCell::new();
    assert!(cell.is_clock_running());
    cell.init_state(RuntimeState::default());
    assert!(!cell.is_clock_running());
    let running = RuntimeState { clock_is_running: true };
    assert_eq!(cell.update_state(running, true), Some(running));
    assert!(cell.is_clock_running());
    assert_eq!(cell.update_state(running, false), None);
    assert!(cell.is_clock_running());
}

#[test]
fn jack_registry_registers_and_clears() {
    let mut reg = JackRegistry::new();
    assert!(reg.get_out_jacks().iter().all(|j| j.is_none()));
    reg.register_out_jack(3, OutJack::new(3, Range::_Neg5_5V));
    reg.register_in_jack(3, InJack::new(3, Range::_0_10V));
    reg.register_gate_jack(5, GateJack::new(5));
    let outs = reg.get_out_jacks();
    assert_eq!(outs[3].map(|j| j.channel), Some(3));
    assert!(outs[4].is_none());
    reg.clear_jacks(3);
    assert!(reg.get_out_jacks()[3].is_none());
    assert!(reg.get_in_jacks()[3].is_none());
    assert_eq!(reg.get_gate_jacks()[5].map(|j| j.channel), Some(5));
}
