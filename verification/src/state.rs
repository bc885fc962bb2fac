//! Runtime state kept across power cycles (whether the clock runs) and the
//! registry of which jack each global channel has configured.

use vstd::prelude::*;

use crate::app::{GateJack, InJack, OutJack};
use crate::config::GLOBAL_CHANNELS;

verus! {

/// What the device keeps across power cycles.
#[derive(Clone, Copy, Debug, PartialEq, Eq, Structural)]
pub struct RuntimeState {
    pub clock_is_running: bool,
}

impl Default for RuntimeState {
    /// The clock stopped.
    fn default() -> (r: Self)
        ensures
            !r.clock_is_running,
    {
        RuntimeState { clock_is_running: false }
    }
}

/// The live runtime state: it starts with the clock running until the
/// stored state is loaded.
pub struct StateCell {
    pub state: RuntimeState,
}

impl StateCell {
    /// The state before anything is loaded: the clock running.
    pub fn new() -> (r: Self)
        ensures
            r.state.clock_is_running,
    {
        StateCell { state: RuntimeState { clock_is_running: true } }
    }

    /// The stored state replaces the live one.
    pub fn init_state(&mut self, loaded: RuntimeState)
        ensures
            final(self).state == loaded,
    {
        self.state = loaded;
    }

    /// A modification arrived: `modified` is the state after it and
    /// `changed` whether it changed anything. The live state becomes
    /// `modified`; the result is what to persist (only a change is).
    pub fn update_state(&mut self, modified: RuntimeState, changed: bool) -> (to_store: Option<RuntimeState>)
        ensures
            final(self).state == modified,
            to_store == if changed { Some(modified) } else { None::<RuntimeState> },
    {
        self.state = modified;
        if changed {
            Some(modified)
        } else {
            None
        }
    }

    /// Whether the clock runs.
    pub fn is_clock_running(&self) -> (r: bool)
        ensures
            r == self.state.clock_is_running,
    {
        self.state.clock_is_running
    }
}

/// Which output, input and gate jack each global channel has configured.
/// Rebuilt whenever apps spawn; never persisted.
pub struct JackRegistry {
    pub out_jacks: [Option<OutJack>; GLOBAL_CHANNELS],
    pub in_jacks: [Option<InJack>; GLOBAL_CHANNELS],
    pub gate_jacks: [Option<GateJack>; GLOBAL_CHANNELS],
}

impl JackRegistry {
    /// No channel has a jack.
    pub fn new() -> (r: Self)
        ensures
            forall|i: int| 0 <= i < 16 ==> r.out_jacks[i] is None && r.in_jacks[i] is None && r.gate_jacks[i] is None,
    {
        let r = JackRegistry { out_jacks: [None; 16], in_jacks: [None; 16], gate_jacks: [None; 16] };
        assert forall|i: int| 0 <= i < 16 implies r.out_jacks[i] is None && r.in_jacks[i] is None
            && r.gate_jacks[i] is None by {}
        r
    }

    /// Channel `global_chan` has output jack `jack`.
    pub fn register_out_jack(&mut self, global_chan: usize, jack: OutJack)
        requires
            global_chan < 16,
        ensures
            final(self).out_jacks@ == old(self).out_jacks@.update(global_chan as int, Some(jack)),
            final(self).in_jacks == old(self).in_jacks,
            final(self).gate_jacks == old(self).gate_jacks,
    {
        self.out_jacks[global_chan] = Some(jack);
    }

    /// Channel `global_chan` has input jack `jack`.
    pub fn register_in_jack(&mut self, global_chan: usize, jack: InJack)
        requires
            global_chan < 16,
        ensures
            final(self).in_jacks@ == old(self).in_jacks@.update(global_chan as int, Some(jack)),
            final(self).out_jacks == old(self).out_jacks,
            final(self).gate_jacks == old(self).gate_jacks,
    {
        self.in_jacks[global_chan] = Some(jack);
    }

    /// Channel `global_chan` has gate jack `jack`.
    pub fn register_gate_jack(&mut self, global_chan: usize, jack: GateJack)
        requires
            global_chan < 16,
        ensures
            final(self).gate_jacks@ == old(self).gate_jacks@.update(global_chan as int, Some(jack)),
            final(self).out_jacks == old(self).out_jacks,
            final(self).in_jacks == old(self).in_jacks,
    {
        self.gate_jacks[global_chan] = Some(jack);
    }

    /// Channel `global_chan`'s app left: it has no jack of any kind.
    pub fn clear_jacks(&mut self, global_chan: usize)
        requires
            global_chan < 16,
        ensures
            final(self).out_jacks@ == old(self).out_jacks@.update(global_chan as int, None),
            final(self).in_jacks@ == old(self).in_jacks@.update(global_chan as int, None),
            final(self).gate_jacks@ == old(self).gate_jacks@.update(global_chan as int, None),
    {
        self.out_jacks[global_chan] = None;
        self.in_jacks[global_chan] = None;
        self.gate_jacks[global_chan] = None;
    }

    /// Every channel's output jack.
    pub fn get_out_jacks(&self) -> (r: [Option<OutJack>; GLOBAL_CHANNELS])
        ensures
            r == self.out_jacks,
    {
        self.out_jacks
    }

    /// Every channel's input jack.
    pub fn get_in_jacks(&self) -> (r: [Option<InJack>; GLOBAL_CHANNELS])
        ensures
            r == self.in_jacks,
    {
        self.in_jacks
    }

    /// Every channel's gate jack.
    pub fn get_gate_jacks(&self) -> (r: [Option<GateJack>; GLOBAL_CHANNELS])
        ensures
            r == self.gate_jacks,
    {
        self.gate_jacks
    }
}

/// A registered jack is what the registry gives back for its channel, and
/// clearing a channel leaves every other channel's jacks as they were.
pub proof fn law_register_then_get(reg: JackRegistry, c: int, d: int, jack: OutJack)
    requires
        0 <= c < 16,
        0 <= d < 16,
        c != d,
    ensures
        reg.out_jacks@.update(c, Some(jack))[c] == Some(jack),
        reg.out_jacks@.update(c, None)[d] == reg.out_jacks@[d],
        reg.in_jacks@.update(c, None)[d] == reg.in_jacks@[d],
        reg.gate_jacks@.update(c, None)[d] == reg.gate_jacks@[d],
{
}

} // verus!
