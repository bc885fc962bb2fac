//! Envelope follower: a running history of input samples, averaged and
//! rectified around the center.

use vstd::prelude::*;

use crate::app::{LedRequest, Leds};
use crate::types::{Brightness, Color, Led, LedMode, LedMsg};

verus! {

/// Length of the sample history.
pub const HISTORY_LEN: usize = 2048;

/// Shifts `new_value` into the history: the rest moves one place back;
/// places past `slew` are filled with `avr`.
pub fn shift_and_insert(input: &[u16; 2048], new_value: u16, avr: u16, slew: u16) -> (r: [u16; 2048])
    ensures
        r@[0] == new_value,
        forall|i: int|
            1 <= i < 2048 ==> #[trigger] r@[i] == if i > slew as int {
                avr
            } else {
                input@[i - 1]
            },
{
    let mut output = [0u16; 2048];
    output[0] = new_value;
    let mut i: usize = 1;
    while i < 2048
        invariant
            1 <= i <= 2048,
            output@[0] == new_value,
            forall|k: int|
                1 <= k < i ==> #[trigger] output@[k] == if k > slew as int {
                    avr
                } else {
                    input@[k - 1]
                },
        decreases 2048 - i,
    {
        output[i] = input[i - 1];
        if i > slew as usize {
            output[i] = avr;
        }
        i = i + 1;
    }
    output
}

/// Sum of `s`.
pub open spec fn sum_u16(s: Seq<u16>) -> int
    decreases s.len(),
{
    if s.len() == 0 {
        0
    } else {
        sum_u16(s.drop_last()) + s.last()
    }
}

/// Average (rounded down) of the first `count` samples, `count` limited to
/// the samples there are.
pub fn average_values(data: &[u16], count: usize) -> (r: u16)
    requires
        (if count < data@.len() {
            count as int
        } else {
            data@.len() as int
        }) > 0,
        count <= u32::MAX,
        sum_u16(data@.take(if count < data@.len() {
            count as int
        } else {
            data@.len() as int
        })) <= u32::MAX,
    ensures
        ({
            let n = if count < data@.len() {
                count as int
            } else {
                data@.len() as int
            };
            r == sum_u16(data@.take(n)) / n
        }),
{
    let n = if count < data.len() {
        count
    } else {
        data.len()
    };
    let ghost total = sum_u16(data@.take(n as int));
    let mut sum: u32 = 0;
    let mut i: usize = 0;
    while i < n
        invariant
            i <= n,
            n <= data@.len(),
            total == sum_u16(data@.take(n as int)),
            total <= u32::MAX,
            sum == sum_u16(data@.take(i as int)),
        decreases n - i,
    {
        assert(data@.take(i + 1).drop_last() =~= data@.take(i as int));
        proof {
            lemma_sum_prefix_le(data@.take(n as int), (i + 1) as int);
            assert(data@.take(n as int).take(i + 1) =~= data@.take(i + 1));
        }
        sum = sum + data[i] as u32;
        i = i + 1;
    }
    proof {
        lemma_sum_bound(data@.take(n as int));
    }
    let d = n as u32;
    assert(sum as int / d as int <= 65535) by (nonlinear_arith)
        requires
            sum <= 65535 * d,
            d > 0,
    ;
    (sum / d) as u16
}

/// A prefix sums to no more than the whole.
proof fn lemma_sum_prefix_le(s: Seq<u16>, k: int)
    requires
        0 <= k <= s.len(),
    ensures
        sum_u16(s.take(k)) <= sum_u16(s),
    decreases s.len(),
{
    if k < s.len() {
        assert(s.drop_last().take(k) =~= s.take(k));
        lemma_sum_prefix_le(s.drop_last(), k);
    } else {
        assert(s.take(k) =~= s);
    }
}

/// `n` samples sum to at most `n * 65535`.
proof fn lemma_sum_bound(s: Seq<u16>)
    ensures
        0 <= sum_u16(s) <= 65535 * s.len(),
    decreases s.len(),
{
    if s.len() > 0 {
        lemma_sum_bound(s.drop_last());
    }
}

/// Rectifies around the center 2047: the distance from the center scaled
/// back to the full range; values above 4095 give 0.
pub open spec fn rectify_spec(value: u16) -> u16 {
    if value <= 2047 {
        ((2047 - value) * 4095 / 2047) as u16
    } else if value <= 4095 {
        ((value - 2048) * 4095 / 2047) as u16
    } else {
        0
    }
}

/// Full-wave rectification of a bipolar signal.
pub fn rectify(value: u16) -> (r: u16)
    ensures
        r == rectify_spec(value),
        r <= 4095,
{
    if value <= 2047 {
        ((2047 - value) as u32 * 4095 / 2047) as u16
    } else if value <= 4095 {
        ((value - 2048) as u32 * 4095 / 2047) as u16
    } else {
        0
    }
}

/// The follower's LED color.
pub open spec fn follow_color() -> Color {
    Color::Custom(188, 77, 216)
}
/// The button level while playing.
pub const BUTTON_BRIGHTNESS: u8 = 75;

/// Work for the device: the output jack, LEDs.
#[derive(Clone, Copy, Debug, PartialEq, Eq)]
pub enum FollowAction {
    Out(u16),
    Led(LedRequest),
}

/// A running follower: the averaging length (1 to 2048), the depth, the
/// sample history and the last output.
#[derive(Clone, Copy)]
pub struct Follower {
    pub slew: u16,
    pub att: u16,
    pub buffer: [u16; 2048],
    pub outval: u16,
}

/// The level pair of a value on a channel: top half the value's LED level,
/// bottom half its complement.
pub open spec fn level_lights(leds: Leds<2>, chan: usize, v: u16) -> Seq<FollowAction> {
    seq![
        FollowAction::Led((leds.device_channel(chan) as usize, Led::Top, LedMsg::SetMode(LedMode::Static(follow_color(), Brightness::Custom(((v / 16) / 2) as u8))))),
        FollowAction::Led((leds.device_channel(chan) as usize, Led::Bottom, LedMsg::SetMode(LedMode::Static(follow_color(), Brightness::Custom(((255 - v / 16) / 2) as u8))))),
    ]
}

impl Follower {
    /// The invariant: an averaging length of 1 to 2048, samples and output
    /// within 12 bits.
    pub open spec fn wf(&self) -> bool {
        &&& 1 <= self.slew <= 2048
        &&& self.outval <= 4095
        &&& forall|i: int| 0 <= i < 2048 ==> #[trigger] self.buffer[i] <= 4095
    }

    /// The follower as `run` starts it: averaging one sample, depth 0, an
    /// empty history; the buttons lit unless muted.
    pub fn new(leds: &Leds<2>, muted: bool) -> (r: (Self, Vec<FollowAction>))
        requires
            leds.start_channel + 2 <= usize::MAX,
        ensures
            r.0.wf(),
            r.0.slew == 1 && r.0.att == 0 && r.0.outval == 0,
            forall|i: int| 0 <= i < 2048 ==> #[trigger] r.0.buffer[i] == 0,
            r.1@ == seq![
                FollowAction::Led((leds.device_channel(0) as usize, Led::Button, LedMsg::SetMode(LedMode::Static(follow_color(), Brightness::Custom(if muted { 0 } else { BUTTON_BRIGHTNESS }))))),
                FollowAction::Led((leds.device_channel(1) as usize, Led::Button, LedMsg::SetMode(LedMode::Static(follow_color(), Brightness::Custom(if muted { 0 } else { BUTTON_BRIGHTNESS }))))),
            ],
    {
        let b = if muted {
            0
        } else {
            BUTTON_BRIGHTNESS
        };
        let mut out: Vec<FollowAction> = Vec::new();
        out.push(FollowAction::Led(leds.set(0, Led::Button, Color::Custom(188, 77, 216), Brightness::Custom(b))));
        out.push(FollowAction::Led(leds.set(1, Led::Button, Color::Custom(188, 77, 216), Brightness::Custom(b))));
        (Follower { slew: 1, att: 0, buffer: [0u16; 2048], outval: 0 }, out)
    }

    /// The first half of a millisecond with the input at `input` (12-bit):
    /// the rectified input goes into the history (places past the averaging
    /// length take the last output), the first `slew` samples are averaged,
    /// and the first channel's LEDs show the average; it is returned for
    /// the dynamic scaling, whose result goes to `ms_end`.
    pub fn ms_start(&mut self, leds: &Leds<2>, input: u16) -> (r: (Vec<FollowAction>, u16))
        requires
            old(self).wf(),
            input <= 4095,
            leds.start_channel + 2 <= usize::MAX,
        ensures
            final(self).wf(),
            final(self).slew == old(self).slew && final(self).att == old(self).att,
            final(self).buffer@[0] == rectify_spec(input),
            forall|i: int| 1 <= i < 2048 ==> #[trigger] final(self).buffer@[i] == if i > old(self).slew as int {
                old(self).outval
            } else {
                old(self).buffer@[i - 1]
            },
            r.1 == sum_u16(final(self).buffer@.take(old(self).slew as int)) / (old(self).slew as int),
            final(self).outval == r.1,
            r.0@ == level_lights(*leds, 0, r.1),
    {
        let inval = rectify(input);
        let buf = shift_and_insert(&self.buffer, inval, self.outval, self.slew);
        self.buffer = buf;
        proof {
            lemma_sum_bound(self.buffer@.take(self.slew as int));
            assert(self.buffer@.take(self.slew as int).len() == self.slew);
        }
        let avg = average_values(&self.buffer, self.slew as usize);
        self.outval = avg;
        proof {
            let t = self.buffer@.take(self.slew as int);
            assert forall|i: int| 0 <= i < t.len() implies t[i] <= 4095 by {
                assert(t[i] == self.buffer[i]);
            }
            lemma_sum_bound_12(t);
            let total = sum_u16(t);
            let n = self.slew as int;
            assert(total / n <= 4095) by (nonlinear_arith)
                requires
                    total <= 4095 * n,
                    n >= 1,
                    total >= 0,
            ;
        }
        let mut out: Vec<FollowAction> = Vec::new();
        out.push(FollowAction::Led(leds.set(0, Led::Top, Color::Custom(188, 77, 216), Brightness::Custom(((avg / 16) / 2) as u8))));
        out.push(FollowAction::Led(leds.set(0, Led::Bottom, Color::Custom(188, 77, 216), Brightness::Custom(((255 - avg / 16) / 2) as u8))));
        (out, avg)
    }

    /// The second half of a millisecond with the dynamically scaled value
    /// (12-bit): it becomes the output, goes to the jack, and the second
    /// channel's LEDs show it.
    pub fn ms_end(&mut self, leds: &Leds<2>, scaled: u16) -> (r: Vec<FollowAction>)
        requires
            scaled <= 4095,
            leds.start_channel + 2 <= usize::MAX,
        ensures
            *final(self) == (Follower { outval: scaled, ..*old(self) }),
            r@ == level_lights(*leds, 1, scaled) + seq![FollowAction::Out(scaled)],
    {
        self.outval = scaled;
        let mut out: Vec<FollowAction> = Vec::new();
        out.push(FollowAction::Led(leds.set(1, Led::Top, Color::Custom(188, 77, 216), Brightness::Custom(((scaled / 16) / 2) as u8))));
        out.push(FollowAction::Led(leds.set(1, Led::Bottom, Color::Custom(188, 77, 216), Brightness::Custom(((255 - scaled / 16) / 2) as u8))));
        out.push(FollowAction::Out(scaled));
        out
    }

    /// Fader `chan` moved to `v` (12-bit): the first sets the averaging
    /// length (half the fader, plus one), the second the depth.
    pub fn on_fader(&mut self, chan: usize, v: u16)
        requires
            old(self).wf(),
            v <= 4095,
        ensures
            final(self).wf(),
            chan == 0 ==> *final(self) == (Follower { slew: (v / 2 + 1) as u16, ..*old(self) }),
            chan == 1 ==> *final(self) == (Follower { att: v, ..*old(self) }),
            chan > 1 ==> *final(self) == *old(self),
    {
        if chan == 0 {
            self.slew = v / 2 + 1;
        } else if chan == 1 {
            self.att = v;
        }
    }
}

proof fn lemma_sum_bound_12(s: Seq<u16>)
    requires
        forall|i: int| 0 <= i < s.len() ==> s[i] <= 4095,
    ensures
        0 <= sum_u16(s) <= 4095 * s.len(),
    decreases s.len(),
{
    if s.len() > 0 {
        let d = s.drop_last();
        assert forall|i: int| 0 <= i < d.len() implies d[i] <= 4095 by {
            assert(d[i] == s[i]);
        }
        lemma_sum_bound_12(d);
    }
}

} // verus!
