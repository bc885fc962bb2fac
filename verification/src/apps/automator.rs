//! Automator: records and loops fader movements over 1, 2 or 4 bars.

use vstd::prelude::*;

use crate::storage::AppStorage;
use crate::app::{LedRequest, Leds};
use crate::types::{Brightness, Color, Led, LedMode, LedMsg};

verus! {

/// Samples recorded per bar.
pub const SAMPLES_PER_BAR: usize = 48;
/// Capacity of the loop buffer.
pub const MAX_BUFFER_SAMPLES: usize = 192;

/// Samples in a loop of `bars` bars.
pub fn loop_len_samples(bars: u8) -> (r: usize)
    ensures
        r == bars * 48,
{
    bars as usize * SAMPLES_PER_BAR
}

/// The next loop length in the cycle 1 → 2 → 4 → 1 bars.
pub open spec fn next_bars_spec(bars: u8) -> u8 {
    if bars == 1 {
        2
    } else if bars == 2 {
        4
    } else {
        1
    }
}

/// The next loop length.
pub fn next_loop_bars(bars: u8) -> (r: u8)
    ensures
        r == next_bars_spec(bars),
{
    match bars {
        1 => 2,
        2 => 4,
        _ => 1,
    }
}

/// Cycling the loop length always gives a loop that fits the buffer, and
/// three steps return to where they started.
pub proof fn law_loop_length_cycle(bars: u8)
    ensures
        next_bars_spec(bars) * 48 <= MAX_BUFFER_SAMPLES,
        (bars == 1 || bars == 2 || bars == 4) ==> next_bars_spec(
            next_bars_spec(next_bars_spec(bars)),
        ) == bars,
{
}

/// Calls `libfp::utils::slew_2`: the weighted average of `prev` (weight
/// `slew`) and `input` (weight 1), computed in 32 bits and cast back to
/// 16 bits, snapping to `input` when it is less than `snap` away.
#[verifier::external_body]
fn slew_toward(prev: u16, input: u16, slew: u16, snap: i32) -> (r: u16)
    ensures
        r == slew_snap(prev, input, slew, snap),
{
    libfp::utils::slew_2(prev, input, slew, snap)
}

/// One step of `libfp::utils::slew_2`.
pub open spec fn slew_snap(prev: u16, input: u16, slew: u16, snap: i32) -> u16 {
    let smoothed = ((prev as int * slew as int + input as int) / (slew as int + 1)) as u16;
    let d = smoothed as int - input as int;
    if (if d < 0 { -d } else { d }) < snap {
        input
    } else {
        smoothed
    }
}

/// What the looper is doing: passing the fader through (and recording it
/// in the circular buffer), playing the committed loop, or overdubbing it.
#[derive(Clone, Copy, Debug, PartialEq, Eq, Structural)]
pub enum LooperState {
    Passthrough,
    Playing,
    Overdubbing,
}

/// A command from the button handler, carried out at the next sample tick.
#[derive(Clone, Copy, Debug, PartialEq, Eq, Structural)]
pub enum LooperCmd {
    Idle,
    /// Take the last loop's worth of the circular buffer as the loop.
    CommitLoop,
    /// Keep the loop for undo and start overdubbing.
    BeginOverdub,
    /// Stop overdubbing and keep the loop.
    EndOverdub,
    /// Put back the loop as it was before the overdub.
    UndoOverdub,
    /// Back to passthrough.
    StopPlayback,
    /// Take the stored loop (after a scene load).
    LoadFromStorage,
}

/// What the automator keeps: the loop length in bars, the committed loop
/// and whether there is one.
#[derive(Clone, Copy)]
pub struct Storage {
    pub loop_bars: u8,
    pub buffer: [u16; 192],
    pub has_loop: bool,
}

impl Default for Storage {
    /// Two bars, an empty (zero) loop, none committed.
    fn default() -> (r: Self)
        ensures
            r.loop_bars == 2 && !r.has_loop,
            forall|i: int| 0 <= i < 192 ==> #[trigger] r.buffer[i] == 0,
    {
        Storage { loop_bars: 2, buffer: [0u16; 192], has_loop: false }
    }
}

impl AppStorage for Storage {}

/// Whether a loop length is one of 1, 2 or 4 bars.
pub open spec fn bars_ok(bars: u8) -> bool {
    bars == 1 || bars == 2 || bars == 4
}

/// Work for the device: the CV jack's value, the MIDI CC's value, an LED.
#[derive(Clone, Copy, Debug, PartialEq, Eq)]
pub enum AutoAction {
    Out(u16),
    Cc(u16),
    Led(LedRequest),
}

/// A running automator: its color and storage, looper state and pending
/// command, whether the clock runs, the loop length, the circular write
/// buffer and its head, the loop being played, its undo copy, the read
/// head, the loop's length in samples, the last smoothed value, and the
/// state the LEDs last showed.
#[derive(Clone, Copy)]
pub struct Automator {
    pub led_color: Color,
    pub stored: Storage,
    pub state: LooperState,
    pub cmd: LooperCmd,
    pub clock_running: bool,
    pub loop_bars: u8,
    pub write_buf: [u16; 192],
    pub write_head: usize,
    pub play_buf: [u16; 192],
    pub undo_buf: [u16; 192],
    pub has_undo: bool,
    pub read_head: usize,
    pub loop_len: usize,
    pub prev_slew: u16,
    pub shown_state: LooperState,
    pub shown_clock: bool,
}

/// The automator with its buffers as sequences.
pub struct AutoModel {
    pub led_color: Color,
    pub stored_bars: u8,
    pub stored_buffer: Seq<u16>,
    pub stored_has_loop: bool,
    pub state: LooperState,
    pub cmd: LooperCmd,
    pub clock_running: bool,
    pub loop_bars: u8,
    pub write_buf: Seq<u16>,
    pub write_head: int,
    pub play_buf: Seq<u16>,
    pub undo_buf: Seq<u16>,
    pub has_undo: bool,
    pub read_head: int,
    pub loop_len: int,
    pub prev_slew: u16,
    pub shown_state: LooperState,
    pub shown_clock: bool,
}

impl View for Automator {
    type V = AutoModel;

    open spec fn view(&self) -> AutoModel {
        AutoModel {
            led_color: self.led_color,
            stored_bars: self.stored.loop_bars,
            stored_buffer: self.stored.buffer@,
            stored_has_loop: self.stored.has_loop,
            state: self.state,
            cmd: self.cmd,
            clock_running: self.clock_running,
            loop_bars: self.loop_bars,
            write_buf: self.write_buf@,
            write_head: self.write_head as int,
            play_buf: self.play_buf@,
            undo_buf: self.undo_buf@,
            has_undo: self.has_undo,
            read_head: self.read_head as int,
            loop_len: self.loop_len as int,
            prev_slew: self.prev_slew,
            shown_state: self.shown_state,
            shown_clock: self.shown_clock,
        }
    }
}

/// The loop a commit takes: the last `len` samples of the circular buffer
/// before `head`, oldest first, over the start of the play buffer.
pub open spec fn committed(write_buf: Seq<u16>, head: int, len: int, play: Seq<u16>) -> Seq<u16> {
    let start = (head + 192 - len) % 192;
    Seq::new(192, |i: int| if i < len { write_buf[(start + i) % 192] } else { play[i] })
}

/// The pending command carried out at a sample tick; returns whether to save.
pub open spec fn apply_cmd(m: AutoModel, cmd: LooperCmd) -> (AutoModel, bool) {
    match cmd {
        LooperCmd::CommitLoop => {
            let len = m.loop_bars * 48;
            let play = committed(m.write_buf, m.write_head, len, m.play_buf);
            (
                AutoModel {
                    loop_len: len,
                    play_buf: play,
                    read_head: 0,
                    has_undo: false,
                    stored_buffer: play,
                    stored_has_loop: true,
                    ..m
                },
                true,
            )
        },
        LooperCmd::BeginOverdub => (AutoModel { undo_buf: m.play_buf, has_undo: true, ..m }, false),
        LooperCmd::EndOverdub => (AutoModel { stored_buffer: m.play_buf, ..m }, true),
        LooperCmd::UndoOverdub => if m.has_undo {
            (AutoModel { play_buf: m.undo_buf, has_undo: false, ..m }, false)
        } else {
            (m, false)
        },
        LooperCmd::LoadFromStorage => (
            AutoModel { play_buf: m.stored_buffer, loop_len: m.loop_bars * 48, read_head: 0, has_undo: false, ..m },
            false,
        ),
        _ => (m, false),
    }
}

/// The sample of a tick: passthrough records the fader in the circular
/// buffer and sends it; playing sends the loop's sample, smoothed;
/// overdubbing writes the fader into the loop and sends it.
pub open spec fn play_step(m: AutoModel, fader: u16) -> (AutoModel, Seq<AutoAction>) {
    match m.state {
        LooperState::Passthrough => (
            AutoModel { write_buf: m.write_buf.update(m.write_head, fader), write_head: (m.write_head + 1) % 192, ..m },
            seq![AutoAction::Out(fader), AutoAction::Cc(fader)],
        ),
        LooperState::Playing => {
            let v = slew_snap(m.prev_slew, m.play_buf[m.read_head % m.loop_len], 3, 10);
            (
                AutoModel { prev_slew: v, read_head: (m.read_head + 1) % m.loop_len, ..m },
                seq![AutoAction::Out(v), AutoAction::Cc(v)],
            )
        },
        LooperState::Overdubbing => (
            AutoModel {
                play_buf: m.play_buf.update(m.read_head % m.loop_len, fader),
                read_head: (m.read_head + 1) % m.loop_len,
                ..m
            },
            seq![AutoAction::Out(fader), AutoAction::Cc(fader)],
        ),
    }
}

/// A sample tick (every second clock tick) with the fader at `fader`: the
/// clock counts as running, the pending command is carried out, then the
/// sample. Returns the work and whether to save.
pub open spec fn tick_model(m: AutoModel, fader: u16) -> (AutoModel, Seq<AutoAction>, bool) {
    let (m1, save) = apply_cmd(AutoModel { clock_running: true, cmd: LooperCmd::Idle, ..m }, m.cmd);
    let (m2, out) = play_step(m1, fader);
    (m2, out, save)
}

/// A tap of the button: passthrough commits the loop (button green),
/// playing starts an overdub (red), overdubbing ends it (green).
pub open spec fn tap_model(m: AutoModel) -> AutoModel {
    match m.state {
        LooperState::Passthrough => AutoModel { state: LooperState::Playing, cmd: LooperCmd::CommitLoop, ..m },
        LooperState::Playing => AutoModel { state: LooperState::Overdubbing, cmd: LooperCmd::BeginOverdub, ..m },
        LooperState::Overdubbing => AutoModel { state: LooperState::Playing, cmd: LooperCmd::EndOverdub, ..m },
    }
}

/// A hold of the button: passthrough steps the loop length (kept),
/// playing stops, overdubbing is undone.
pub open spec fn hold_model(m: AutoModel) -> AutoModel {
    match m.state {
        LooperState::Passthrough => AutoModel { loop_bars: next_bars_spec(m.loop_bars), stored_bars: next_bars_spec(m.loop_bars), ..m },
        LooperState::Playing => AutoModel { state: LooperState::Passthrough, cmd: LooperCmd::StopPlayback, ..m },
        LooperState::Overdubbing => AutoModel { state: LooperState::Playing, cmd: LooperCmd::UndoOverdub, ..m },
    }
}

/// The states after a run of sample ticks with the fader at `faders`.
pub open spec fn run_ticks(m: AutoModel, faders: Seq<u16>) -> AutoModel
    decreases faders.len(),
{
    if faders.len() == 0 {
        m
    } else {
        run_ticks(tick_model(m, faders[0]).0, faders.drop_first())
    }
}

/// The model's invariant: a loop length of 1, 2 or 4 bars, a loop of up
/// to 192 samples with the read head inside it, the write head inside the
/// buffer, buffers of 192 samples.
pub open spec fn model_ok(m: AutoModel) -> bool {
    &&& bars_ok(m.loop_bars)
    &&& (m.loop_len == 48 || m.loop_len == 96 || m.loop_len == 192)
    &&& 0 <= m.read_head < m.loop_len
    &&& 0 <= m.write_head < 192
    &&& m.write_buf.len() == 192 && m.play_buf.len() == 192 && m.undo_buf.len() == 192
    &&& m.stored_buffer.len() == 192
}

/// A sample tick keeps the invariant.
pub proof fn lemma_tick_keeps(m: AutoModel, fader: u16)
    requires
        model_ok(m),
    ensures
        model_ok(tick_model(m, fader).0),
{
}

/// The LED update of the 50 ms loop: only on a change of state or clock.
/// Passthrough shows the app color (clock running) or flashes white;
/// playing and overdubbing keep the button handler's light, but with the
/// state unchanged and the clock stopped show green or red.
pub open spec fn led_model(m: AutoModel, leds: Leds<1>) -> (AutoModel, Seq<AutoAction>) {
    if m.state == m.shown_state && m.clock_running == m.shown_clock {
        (m, Seq::empty())
    } else {
        let ch = leds.device_channel(0) as usize;
        let out = match m.state {
            LooperState::Passthrough => if m.clock_running {
                seq![AutoAction::Led((ch, Led::Button, LedMsg::SetMode(LedMode::Static(m.led_color, Brightness::Mid))))]
            } else {
                seq![AutoAction::Led((ch, Led::Button, LedMsg::SetMode(LedMode::Flash(Color::White, None))))]
            },
            LooperState::Playing => if m.shown_state == m.state && !m.clock_running {
                seq![AutoAction::Led((ch, Led::Button, LedMsg::SetMode(LedMode::Static(Color::Green, Brightness::High))))]
            } else {
                Seq::empty()
            },
            LooperState::Overdubbing => if m.shown_state == m.state && !m.clock_running {
                seq![AutoAction::Led((ch, Led::Button, LedMsg::SetMode(LedMode::Static(Color::Red, Brightness::High))))]
            } else {
                Seq::empty()
            },
        };
        (AutoModel { shown_state: m.state, shown_clock: m.clock_running, ..m }, out)
    }
}

impl Automator {
    /// The invariant: the model's.
    pub open spec fn wf(&self) -> bool {
        model_ok(self@)
    }

    /// The automator as `run` starts it from its color and storage (a loop
    /// length of 1, 2 or 4 bars): playing the stored loop if there is one,
    /// else passing through; the button shows green, or flashes white.
    pub fn new(leds: &Leds<1>, led_color: Color, stored: Storage) -> (r: (Self, Vec<AutoAction>))
        requires
            bars_ok(stored.loop_bars),
            leds.start_channel + 1 <= usize::MAX,
        ensures
            r.0.wf(),
            r.0@.state == if stored.has_loop { LooperState::Playing } else { LooperState::Passthrough },
            r.0@.play_buf == if stored.has_loop { stored.buffer@ } else { Seq::new(192, |i: int| 0u16) },
            r.0@.write_buf == Seq::new(192, |i: int| 0u16) && r.0@.undo_buf == Seq::new(192, |i: int| 0u16),
            r.0@.cmd == LooperCmd::Idle && !r.0@.clock_running && !r.0@.has_undo,
            r.0@.loop_bars == stored.loop_bars && r.0@.loop_len == stored.loop_bars * 48,
            r.0@.write_head == 0 && r.0@.read_head == 0 && r.0@.prev_slew == 0,
            r.0@.shown_state == LooperState::Passthrough && !r.0@.shown_clock,
            r.0@.stored_bars == stored.loop_bars && r.0@.stored_buffer == stored.buffer@,
            r.0@.stored_has_loop == stored.has_loop && r.0@.led_color == led_color,
            r.1@ == seq![AutoAction::Led(
                (
                    leds.device_channel(0) as usize,
                    Led::Button,
                    LedMsg::SetMode(
                        if stored.has_loop {
                            LedMode::Static(Color::Green, Brightness::High)
                        } else {
                            LedMode::Flash(Color::White, None)
                        },
                    ),
                ),
            )],
    {
        let zeros = [0u16; 192];
        let play = if stored.has_loop {
            stored.buffer
        } else {
            zeros
        };
        let a = Automator {
            led_color,
            stored,
            state: if stored.has_loop {
                LooperState::Playing
            } else {
                LooperState::Passthrough
            },
            cmd: LooperCmd::Idle,
            clock_running: false,
            loop_bars: stored.loop_bars,
            write_buf: zeros,
            write_head: 0,
            play_buf: play,
            undo_buf: zeros,
            has_undo: false,
            read_head: 0,
            loop_len: loop_len_samples(stored.loop_bars),
            prev_slew: 0,
            shown_state: LooperState::Passthrough,
            shown_clock: false,
        };
        assert(zeros@ =~= Seq::new(192, |i: int| 0u16));
        let mut out: Vec<AutoAction> = Vec::new();
        let mode = if stored.has_loop {
            LedMode::Static(Color::Green, Brightness::High)
        } else {
            LedMode::Flash(Color::White, None)
        };
        out.push(AutoAction::Led(leds.set_mode(0, Led::Button, mode)));
        (a, out)
    }

    fn commit(&mut self)
        requires
            old(self).wf(),
        ensures
            final(self).wf(),
            (final(self)@, true) == apply_cmd(old(self)@, LooperCmd::CommitLoop),
    {
        let len = loop_len_samples(self.loop_bars);
        let start = (self.write_head + 192 - len) % 192;
        let wb = self.write_buf;
        let mut play = self.play_buf;
        let mut i: usize = 0;
        while i < len
            invariant
                i <= len,
                len <= 192,
                start < 192,
                forall|j: int| 0 <= j < i ==> #[trigger] play[j] == wb[(start + j) % 192],
                forall|j: int| i <= j < 192 ==> #[trigger] play[j] == old(self).play_buf[j],
            decreases len - i,
        {
            play[i] = wb[(start + i) % 192];
            i += 1;
        }
        self.play_buf = play;
        self.loop_len = len;
        self.read_head = 0;
        self.has_undo = false;
        self.stored.buffer = play;
        self.stored.has_loop = true;
        assert(self.play_buf@ =~= committed(old(self)@.write_buf, old(self)@.write_head, len as int, old(self)@.play_buf));
    }

    fn run_cmd(&mut self, cmd: LooperCmd) -> (save: bool)
        requires
            old(self).wf(),
        ensures
            final(self).wf(),
            (final(self)@, save) == apply_cmd(old(self)@, cmd),
    {
        match cmd {
            LooperCmd::CommitLoop => {
                self.commit();
                true
            },
            LooperCmd::BeginOverdub => {
                self.undo_buf = self.play_buf;
                self.has_undo = true;
                false
            },
            LooperCmd::EndOverdub => {
                self.stored.buffer = self.play_buf;
                true
            },
            LooperCmd::UndoOverdub => {
                if self.has_undo {
                    self.play_buf = self.undo_buf;
                    self.has_undo = false;
                }
                false
            },
            LooperCmd::LoadFromStorage => {
                self.play_buf = self.stored.buffer;
                self.loop_len = loop_len_samples(self.loop_bars);
                self.read_head = 0;
                self.has_undo = false;
                false
            },
            _ => false,
        }
    }

    /// A sample tick with the fader at `fader`: see `tick_model`.
    pub fn on_tick(&mut self, fader: u16) -> (r: (Vec<AutoAction>, bool))
        requires
            old(self).wf(),
        ensures
            final(self).wf(),
            (final(self)@, r.0@, r.1) == tick_model(old(self)@, fader),
    {
        self.clock_running = true;
        let cmd = self.cmd;
        self.cmd = LooperCmd::Idle;
        let save = self.run_cmd(cmd);
        let out = self.sample(fader);
        (out, save)
    }

    fn sample(&mut self, fader: u16) -> (r: Vec<AutoAction>)
        requires
            old(self).wf(),
        ensures
            final(self).wf(),
            (final(self)@, r@) == play_step(old(self)@, fader),
    {
        let mut out: Vec<AutoAction> = Vec::new();
        match self.state {
            LooperState::Passthrough => {
                self.write_buf[self.write_head] = fader;
                self.write_head = (self.write_head + 1) % 192;
                out.push(AutoAction::Out(fader));
                out.push(AutoAction::Cc(fader));
            },
            LooperState::Playing => {
                let sample = self.play_buf[self.read_head % self.loop_len];
                let v = slew_toward(self.prev_slew, sample, 3, 10);
                self.prev_slew = v;
                out.push(AutoAction::Out(v));
                out.push(AutoAction::Cc(v));
                self.read_head = (self.read_head + 1) % self.loop_len;
            },
            LooperState::Overdubbing => {
                let idx = self.read_head % self.loop_len;
                self.play_buf[idx] = fader;
                out.push(AutoAction::Out(fader));
                out.push(AutoAction::Cc(fader));
                self.read_head = (self.read_head + 1) % self.loop_len;
            },
        }
        out
    }

    /// Clock reset (MIDI start): the clock runs and the loop restarts.
    pub fn on_reset(&mut self)
        ensures
            final(self)@ == (AutoModel { clock_running: true, read_head: 0, ..old(self)@ }),
            old(self).wf() ==> final(self).wf(),
    {
        self.clock_running = true;
        self.read_head = 0;
    }

    /// Clock start (MIDI continue): the clock runs.
    pub fn on_start(&mut self)
        ensures
            final(self)@ == (AutoModel { clock_running: true, ..old(self)@ }),
            old(self).wf() ==> final(self).wf(),
    {
        self.clock_running = true;
    }

    /// Clock stop, or no tick within the timeout: the clock is stopped.
    pub fn on_stop(&mut self)
        ensures
            final(self)@ == (AutoModel { clock_running: false, ..old(self)@ }),
            old(self).wf() ==> final(self).wf(),
    {
        self.clock_running = false;
    }

    /// Whether a press counts: buttons are ignored while the clock is stopped.
    pub fn accepts_press(&self) -> (r: bool)
        ensures
            r == self.clock_running,
    {
        self.clock_running
    }

    /// A tap of the button: see `tap_model`; returns the button's light.
    pub fn on_tap(&mut self, leds: &Leds<1>) -> (r: AutoAction)
        requires
            leds.start_channel + 1 <= usize::MAX,
        ensures
            final(self)@ == tap_model(old(self)@),
            old(self).wf() ==> final(self).wf(),
            r == AutoAction::Led(
                (
                    leds.device_channel(0) as usize,
                    Led::Button,
                    LedMsg::SetMode(
                        LedMode::Static(
                            if old(self).state == LooperState::Playing { Color::Red } else { Color::Green },
                            Brightness::High,
                        ),
                    ),
                ),
            ),
    {
        match self.state {
            LooperState::Passthrough => {
                self.state = LooperState::Playing;
                self.cmd = LooperCmd::CommitLoop;
                AutoAction::Led(leds.set(0, Led::Button, Color::Green, Brightness::High))
            },
            LooperState::Playing => {
                self.state = LooperState::Overdubbing;
                self.cmd = LooperCmd::BeginOverdub;
                AutoAction::Led(leds.set(0, Led::Button, Color::Red, Brightness::High))
            },
            LooperState::Overdubbing => {
                self.state = LooperState::Playing;
                self.cmd = LooperCmd::EndOverdub;
                AutoAction::Led(leds.set(0, Led::Button, Color::Green, Brightness::High))
            },
        }
    }

    /// A hold of the button: see `hold_model`; returns the button's light
    /// (white flashes as many as the new bars, a yellow fade, or yellow
    /// then green) and whether to save (a new loop length).
    pub fn on_hold(&mut self, leds: &Leds<1>) -> (r: (AutoAction, bool))
        requires
            old(self).wf(),
            leds.start_channel + 1 <= usize::MAX,
        ensures
            final(self).wf(),
            final(self)@ == hold_model(old(self)@),
            r.1 == (old(self).state == LooperState::Passthrough),
            r.0 == AutoAction::Led(
                (
                    leds.device_channel(0) as usize,
                    Led::Button,
                    LedMsg::SetMode(
                        match old(self).state {
                            LooperState::Passthrough => LedMode::Flash(Color::White, Some(next_bars_spec(old(self).loop_bars) as usize)),
                            LooperState::Playing => LedMode::FadeOut(Color::Yellow),
                            LooperState::Overdubbing => LedMode::FlashThenStatic(Color::Yellow, 1, Color::Green, Brightness::High),
                        },
                    ),
                ),
            ),
    {
        match self.state {
            LooperState::Passthrough => {
                let bars = next_loop_bars(self.loop_bars);
                self.loop_bars = bars;
                self.stored.loop_bars = bars;
                (AutoAction::Led(leds.set_mode(0, Led::Button, LedMode::Flash(Color::White, Some(bars as usize)))), true)
            },
            LooperState::Playing => {
                self.state = LooperState::Passthrough;
                self.cmd = LooperCmd::StopPlayback;
                (AutoAction::Led(leds.set_mode(0, Led::Button, LedMode::FadeOut(Color::Yellow))), false)
            },
            LooperState::Overdubbing => {
                self.state = LooperState::Playing;
                self.cmd = LooperCmd::UndoOverdub;
                (
                    AutoAction::Led(
                        leds.set_mode(0, Led::Button, LedMode::FlashThenStatic(Color::Yellow, 1, Color::Green, Brightness::High)),
                    ),
                    false,
                )
            },
        }
    }

    /// The 50 ms LED loop: see `led_model`.
    pub fn on_led_poll(&mut self, leds: &Leds<1>) -> (r: Vec<AutoAction>)
        requires
            leds.start_channel + 1 <= usize::MAX,
        ensures
            (final(self)@, r@) == led_model(old(self)@, *leds),
            old(self).wf() ==> final(self).wf(),
    {
        let mut out: Vec<AutoAction> = Vec::new();
        if self.state == self.shown_state && self.clock_running == self.shown_clock {
            return out;
        }
        match self.state {
            LooperState::Passthrough => {
                if self.clock_running {
                    out.push(AutoAction::Led(leds.set(0, Led::Button, self.led_color, Brightness::Mid)));
                } else {
                    out.push(AutoAction::Led(leds.set_mode(0, Led::Button, LedMode::Flash(Color::White, None))));
                }
            },
            LooperState::Playing => {
                if self.shown_state == self.state && !self.clock_running {
                    out.push(AutoAction::Led(leds.set(0, Led::Button, Color::Green, Brightness::High)));
                }
            },
            LooperState::Overdubbing => {
                if self.shown_state == self.state && !self.clock_running {
                    out.push(AutoAction::Led(leds.set(0, Led::Button, Color::Red, Brightness::High)));
                }
            },
        }
        self.shown_state = self.state;
        self.shown_clock = self.clock_running;
        assert(out@ =~= led_model(old(self)@, *leds).1);
        out
    }

    /// A scene was loaded (its loop length 1, 2 or 4 bars): the automator
    /// takes its storage and loop length; with a stored loop it plays it
    /// (loaded at the next tick, button green), else it passes through
    /// (button in its color).
    pub fn on_scene_load(&mut self, leds: &Leds<1>, stored: Storage) -> (r: AutoAction)
        requires
            old(self).wf(),
            bars_ok(stored.loop_bars),
            leds.start_channel + 1 <= usize::MAX,
        ensures
            final(self).wf(),
            final(self)@ == (AutoModel {
                stored_bars: stored.loop_bars,
                stored_buffer: stored.buffer@,
                stored_has_loop: stored.has_loop,
                loop_bars: stored.loop_bars,
                state: if stored.has_loop { LooperState::Playing } else { LooperState::Passthrough },
                cmd: if stored.has_loop { LooperCmd::LoadFromStorage } else { old(self).cmd },
                ..old(self)@
            }),
            r == AutoAction::Led(
                (
                    leds.device_channel(0) as usize,
                    Led::Button,
                    LedMsg::SetMode(
                        if stored.has_loop {
                            LedMode::Static(Color::Green, Brightness::High)
                        } else {
                            LedMode::Static(old(self).led_color, Brightness::Mid)
                        },
                    ),
                ),
            ),
    {
        self.stored = stored;
        self.loop_bars = stored.loop_bars;
        if stored.has_loop {
            self.state = LooperState::Playing;
            self.cmd = LooperCmd::LoadFromStorage;
            AutoAction::Led(leds.set(0, Led::Button, Color::Green, Brightness::High))
        } else {
            self.state = LooperState::Passthrough;
            AutoAction::Led(leds.set(0, Led::Button, self.led_color, Brightness::Mid))
        }
    }

    /// The 1 ms loop: while passing through or overdubbing the jack
    /// follows the fader between ticks.
    pub fn on_ms(&self, fader: u16) -> (r: Option<u16>)
        ensures
            r == if self.state == LooperState::Playing { None } else { Some(fader) },
    {
        match self.state {
            LooperState::Playing => None,
            _ => Some(fader),
        }
    }
}

/// A committed loop is the last loop's worth of faders the automator
/// passed through, oldest first: committing right after passing through
/// `len` (the loop's length) fader values plays them back in order.
pub proof fn law_commit_takes_last_samples(m: AutoModel, i: int)
    requires
        model_ok(m),
        0 <= i < m.loop_bars * 48,
    ensures
        apply_cmd(m, LooperCmd::CommitLoop).0.play_buf[i] == m.write_buf[(m.write_head + 192 - m.loop_bars * 48 + i) % 192],
        apply_cmd(m, LooperCmd::CommitLoop).0.stored_buffer == apply_cmd(m, LooperCmd::CommitLoop).0.play_buf,
        apply_cmd(m, LooperCmd::CommitLoop).0.read_head == 0,
{
}

proof fn lemma_overdub_keeps_undo(m: AutoModel, faders: Seq<u16>)
    requires
        model_ok(m),
        m.state == LooperState::Overdubbing,
        m.cmd == LooperCmd::Idle,
    ensures
        run_ticks(m, faders).undo_buf == m.undo_buf,
        run_ticks(m, faders).has_undo == m.has_undo,
        run_ticks(m, faders).state == LooperState::Overdubbing,
        run_ticks(m, faders).cmd == LooperCmd::Idle,
        model_ok(run_ticks(m, faders)),
    decreases faders.len(),
{
    if faders.len() > 0 {
        let t = tick_model(m, faders[0]).0;
        lemma_tick_keeps(m, faders[0]);
        lemma_overdub_keeps_undo(t, faders.drop_first());
    }
}

/// Undo puts the loop back: a tap during playback, overdub ticks (at
/// least one, with any fader values), a hold, and the next tick leave the
/// loop as it was before the tap, playing again.
pub proof fn law_undo_restores_loop(m: AutoModel, faders: Seq<u16>, f: u16)
    requires
        model_ok(m),
        m.state == LooperState::Playing,
        m.cmd == LooperCmd::Idle,
        faders.len() >= 1,
    ensures
        ({
            let begun = tick_model(tap_model(m), faders[0]).0;
            let after = tick_model(hold_model(run_ticks(begun, faders.drop_first())), f).0;
            after.play_buf == m.play_buf && after.state == LooperState::Playing && !after.has_undo
        }),
{
    let t = tap_model(m);
    let begun = tick_model(t, faders[0]).0;
    let b1 = apply_cmd(AutoModel { clock_running: true, cmd: LooperCmd::Idle, ..t }, t.cmd).0;
    assert(b1.undo_buf == m.play_buf && b1.has_undo);
    assert(begun.undo_buf == m.play_buf);
    lemma_tick_keeps(t, faders[0]);
    lemma_overdub_keeps_undo(begun, faders.drop_first());
}

} // verus!
