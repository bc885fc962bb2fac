//! The internal modulation router: app outputs, MIDI-driven outputs, physical
//! inputs and constants routed onto app faders, app inputs and physical DACs,
//! combined per destination.

use vstd::prelude::*;

verus! {

/// Number of route slots in a routing configuration.
pub const MAX_ROUTES: usize = 32;

/// Number of virtual app outputs.
pub const VIRTUAL_OUTPUTS: usize = 16;

/// Where a routed signal comes from.
#[derive(Clone, Copy, PartialEq, Eq, Structural)]
pub enum RouteSource {
    AppOutput { channel: u8 },
    AppMidi { channel: u8 },
    PhysicalAdc { channel: u8 },
    Constant { value: u16 },
}

/// Where a routed signal goes.
#[derive(Clone, Copy, PartialEq, Eq, Structural)]
pub enum RouteDestination {
    AppFader { channel: u8 },
    AppInput { channel: u8 },
    PhysicalDac { channel: u8 },
}

/// How several routes into one destination are combined.
#[derive(Clone, Copy, PartialEq, Eq, Structural)]
pub enum CombineMode {
    Replace,
    Sum,
    Average,
    Max,
    Min,
    Or,
    And,
    Xor,
}

/// One route: source, destination, gain in percent (-200..200) and offset in counts.
#[derive(Clone, Copy, PartialEq, Eq, Structural)]
pub struct Route {
    pub enabled: bool,
    pub source: RouteSource,
    pub destination: RouteDestination,
    pub mode: CombineMode,
    pub attenuation_percent: i16,
    pub offset: i16,
}

/// All route slots.
#[derive(Clone, Copy)]
pub struct RoutingConfig {
    pub routes: [Option<Route>; 32],
}

impl RoutingConfig {
    /// A configuration with every slot empty.
    pub fn new() -> (r: Self)
        ensures
            forall|i: int| 0 <= i < MAX_ROUTES ==> r.routes@[i] is None,
    {
        RoutingConfig { routes: [None; 32] }
    }
}

/// The routing state: the last values the apps put on their virtual outputs,
/// the active configuration, and whether any route of it is enabled.
pub struct RoutingEngine {
    pub virtual_outputs: [u16; 16],
    pub config: RoutingConfig,
    pub active: bool,
}

// ----------------------------------------------------------------------------
// Specification
// ----------------------------------------------------------------------------

/// `v` limited to `lo..=hi`.
pub open spec fn clamp_int(v: int, lo: int, hi: int) -> int {
    if v < lo {
        lo
    } else if v > hi {
        hi
    } else {
        v
    }
}

/// Integer division rounding toward zero, as Rust's `/` does.
pub open spec fn div_toward_zero(a: int, d: int) -> int {
    if a >= 0 {
        a / d
    } else {
        -((-a) / d)
    }
}

/// `raw` scaled by `percent` (rounded toward zero), shifted by `offset`,
/// limited to `0..=4095`.
pub open spec fn attenuated(raw: u16, percent: i16, offset: i16) -> u16 {
    clamp_int(div_toward_zero(raw as int * percent as int, 100) + offset as int, 0, 4095) as u16
}

/// Value of a virtual output; channels past the last read as 0.
pub open spec fn virtual_value(outputs: Seq<u16>, channel: int) -> u16 {
    if 0 <= channel < outputs.len() {
        outputs[channel]
    } else {
        0
    }
}

/// Raw value of a route source: app outputs from the virtual outputs,
/// physical inputs from `adc` (0 past its end), constants limited to 4095.
pub open spec fn source_value(source: RouteSource, outputs: Seq<u16>, adc: Seq<u16>) -> u16 {
    match source {
        RouteSource::AppOutput { channel } => virtual_value(outputs, channel as int),
        RouteSource::AppMidi { channel } => virtual_value(outputs, channel as int),
        RouteSource::PhysicalAdc { channel } => if (channel as int) < adc.len() {
            adc[channel as int]
        } else {
            0
        },
        RouteSource::Constant { value } => if value > 4095 {
            4095
        } else {
            value
        },
    }
}

/// Value a route contributes after gain and offset.
pub open spec fn route_value(r: Route, outputs: Seq<u16>, adc: Seq<u16>) -> u16 {
    attenuated(source_value(r.source, outputs, adc), r.attenuation_percent, r.offset)
}

/// Whether a route's raw source value counts as a high logic level.
pub open spec fn route_high(r: Route, outputs: Seq<u16>, adc: Seq<u16>) -> bool {
    source_value(r.source, outputs, adc) > 2000
}

/// Sum of the contributed values of `routes`.
pub open spec fn sum_values(routes: Seq<Route>, outputs: Seq<u16>, adc: Seq<u16>) -> int
    decreases routes.len(),
{
    if routes.len() == 0 {
        0
    } else {
        sum_values(routes.drop_last(), outputs, adc) + route_value(routes.last(), outputs, adc)
    }
}

/// Largest contributed value of `routes`, at least 0.
pub open spec fn max_value(routes: Seq<Route>, outputs: Seq<u16>, adc: Seq<u16>) -> u16
    decreases routes.len(),
{
    if routes.len() == 0 {
        0
    } else {
        let m = max_value(routes.drop_last(), outputs, adc);
        let v = route_value(routes.last(), outputs, adc);
        if v > m {
            v
        } else {
            m
        }
    }
}

/// Smallest contributed value of `routes`, at most 4095.
pub open spec fn min_value(routes: Seq<Route>, outputs: Seq<u16>, adc: Seq<u16>) -> u16
    decreases routes.len(),
{
    if routes.len() == 0 {
        4095
    } else {
        let m = min_value(routes.drop_last(), outputs, adc);
        let v = route_value(routes.last(), outputs, adc);
        if v < m {
            v
        } else {
            m
        }
    }
}

/// Number of routes whose source is at a high logic level.
pub open spec fn high_count(routes: Seq<Route>, outputs: Seq<u16>, adc: Seq<u16>) -> nat
    decreases routes.len(),
{
    if routes.len() == 0 {
        0
    } else {
        high_count(routes.drop_last(), outputs, adc) + if route_high(routes.last(), outputs, adc) {
            1nat
        } else {
            0nat
        }
    }
}

/// The combined value of the routes into one destination; the combine mode
/// of the first route decides; `default_val` when there is no route.
pub open spec fn combined_value(
    routes: Seq<Route>,
    default_val: u16,
    outputs: Seq<u16>,
    adc: Seq<u16>,
) -> u16 {
    if routes.len() == 0 {
        default_val
    } else {
        match routes[0].mode {
            CombineMode::Replace => route_value(routes.last(), outputs, adc),
            CombineMode::Sum => clamp_int(sum_values(routes, outputs, adc), 0, 4095) as u16,
            CombineMode::Average => clamp_int(
                sum_values(routes, outputs, adc) / routes.len() as int,
                0,
                4095,
            ) as u16,
            CombineMode::Max => max_value(routes, outputs, adc),
            CombineMode::Min => min_value(routes, outputs, adc),
            CombineMode::Or => if high_count(routes, outputs, adc) > 0 {
                4095
            } else {
                0
            },
            CombineMode::And => if high_count(routes, outputs, adc) == routes.len() {
                4095
            } else {
                0
            },
            CombineMode::Xor => if high_count(routes, outputs, adc) % 2 == 1 {
                4095
            } else {
                0
            },
        }
    }
}

/// Whether slot `slot` holds an enabled route into `dest`.
pub open spec fn slot_matches(slot: Option<Route>, dest: RouteDestination) -> bool {
    match slot {
        Some(r) => r.enabled && r.destination == dest,
        None => false,
    }
}

/// The enabled routes into `dest`, in slot order.
pub open spec fn matching_routes(slots: Seq<Option<Route>>, dest: RouteDestination) -> Seq<Route>
    decreases slots.len(),
{
    if slots.len() == 0 {
        Seq::empty()
    } else {
        let prev = matching_routes(slots.drop_last(), dest);
        if slot_matches(slots.last(), dest) {
            prev.push(slots.last()->0)
        } else {
            prev
        }
    }
}

/// Whether any slot holds an enabled route.
pub open spec fn any_enabled(slots: Seq<Option<Route>>) -> bool {
    exists|i: int| 0 <= i < slots.len() && (#[trigger] slots[i]) is Some && slots[i]->0.enabled
}

/// Whether some enabled route goes into `dest`.
pub open spec fn routed_to(slots: Seq<Option<Route>>, dest: RouteDestination) -> bool {
    exists|i: int| 0 <= i < slots.len() && #[trigger] slot_matches(slots[i], dest)
}

/// The channels to notify of a fader change after a configuration change:
/// those of the enabled routes into app faders or app inputs, in slot order.
pub open spec fn app_destinations(slots: Seq<Option<Route>>) -> Seq<usize>
    decreases slots.len(),
{
    if slots.len() == 0 {
        Seq::empty()
    } else {
        let prev = app_destinations(slots.drop_last());
        match slots.last() {
            Some(r) => if r.enabled {
                match r.destination {
                    RouteDestination::AppFader { channel } => prev.push(channel as usize),
                    RouteDestination::AppInput { channel } => prev.push(channel as usize),
                    RouteDestination::PhysicalDac { .. } => prev,
                }
            } else {
                prev
            },
            None => prev,
        }
    }
}

/// Whether the button of `channel` is held; channels past the table are not.
pub open spec fn button_held(pressed: Seq<bool>, channel: int) -> bool {
    0 <= channel < pressed.len() && pressed[channel]
}

/// The app channels to notify when the virtual output `source` changes: the
/// targets of enabled routes from that output into app faders or inputs,
/// unless shift or the target's button is held.
pub open spec fn modulated_targets(
    slots: Seq<Option<Route>>,
    source: u8,
    shift: bool,
    pressed: Seq<bool>,
) -> Seq<usize>
    decreases slots.len(),
{
    if slots.len() == 0 {
        Seq::empty()
    } else {
        let prev = modulated_targets(slots.drop_last(), source, shift, pressed);
        match slots.last() {
            Some(r) => if r.enabled && r.source == (RouteSource::AppOutput { channel: source }) {
                match r.destination {
                    RouteDestination::PhysicalDac { .. } => prev,
                    RouteDestination::AppFader { channel } => if !shift && !button_held(
                        pressed,
                        channel as int,
                    ) {
                        prev.push(channel as usize)
                    } else {
                        prev
                    },
                    RouteDestination::AppInput { channel } => if !shift && !button_held(
                        pressed,
                        channel as int,
                    ) {
                        prev.push(channel as usize)
                    } else {
                        prev
                    },
                }
            } else {
                prev
            },
            None => prev,
        }
    }
}

/// Matching routes are among the slots, so there are no more than slots.
pub proof fn lemma_matching_len(slots: Seq<Option<Route>>, dest: RouteDestination)
    ensures
        matching_routes(slots, dest).len() <= slots.len(),
        (matching_routes(slots, dest).len() == 0) <==> !routed_to(slots, dest),
    decreases slots.len(),
{
    if slots.len() > 0 {
        lemma_matching_len(slots.drop_last(), dest);
        if routed_to(slots.drop_last(), dest) {
            let i = choose|i: int| 0 <= i < slots.drop_last().len() && #[trigger] slot_matches(
                slots.drop_last()[i],
                dest,
            );
            assert(slot_matches(slots[i], dest));
        }
        if routed_to(slots, dest) && !slot_matches(slots.last(), dest) {
            let i = choose|i: int| 0 <= i < slots.len() && #[trigger] slot_matches(slots[i], dest);
            assert(slot_matches(slots.drop_last()[i], dest));
        }
        if slot_matches(slots.last(), dest) {
            assert(slot_matches(slots[slots.len() - 1], dest));
        }
    }
}

/// The sum of `n` values of at most 4095 each.
proof fn lemma_sum_bounds(routes: Seq<Route>, outputs: Seq<u16>, adc: Seq<u16>)
    ensures
        0 <= sum_values(routes, outputs, adc) <= 4095 * routes.len(),
    decreases routes.len(),
{
    if routes.len() > 0 {
        lemma_sum_bounds(routes.drop_last(), outputs, adc);
    }
}

/// Counting the high routes counts no more than the routes.
proof fn lemma_high_count_bound(routes: Seq<Route>, outputs: Seq<u16>, adc: Seq<u16>)
    ensures
        high_count(routes, outputs, adc) <= routes.len(),
    decreases routes.len(),
{
    if routes.len() > 0 {
        lemma_high_count_bound(routes.drop_last(), outputs, adc);
    }
}

/// The combined value of one or more routes stays within `0..=4095`.
pub proof fn lemma_combined_in_range(
    routes: Seq<Route>,
    default_val: u16,
    outputs: Seq<u16>,
    adc: Seq<u16>,
)
    requires
        routes.len() > 0,
    ensures
        combined_value(routes, default_val, outputs, adc) <= 4095,
{
    lemma_max_bound(routes, outputs, adc);
    lemma_min_bound(routes, outputs, adc);
}

proof fn lemma_max_bound(routes: Seq<Route>, outputs: Seq<u16>, adc: Seq<u16>)
    ensures
        max_value(routes, outputs, adc) <= 4095,
    decreases routes.len(),
{
    if routes.len() > 0 {
        lemma_max_bound(routes.drop_last(), outputs, adc);
    }
}

proof fn lemma_min_bound(routes: Seq<Route>, outputs: Seq<u16>, adc: Seq<u16>)
    ensures
        min_value(routes, outputs, adc) <= 4095,
    decreases routes.len(),
{
    if routes.len() > 0 {
        lemma_min_bound(routes.drop_last(), outputs, adc);
    }
}

/// Xor is a parity: on its own a route gives 4095 exactly when its raw
/// source is above 2000 (0 otherwise), and adding two more high routes to
/// any set never changes the result, so three high inputs are high like one.
pub proof fn law_xor_parity(
    routes: Seq<Route>,
    h1: Route,
    h2: Route,
    r: Route,
    default_val: u16,
    outputs: Seq<u16>,
    adc: Seq<u16>,
)
    requires
        routes.len() > 0,
        routes[0].mode == CombineMode::Xor,
        r.mode == CombineMode::Xor,
        source_value(h1.source, outputs, adc) > 2000,
        source_value(h2.source, outputs, adc) > 2000,
    ensures
        combined_value(routes.push(h1).push(h2), default_val, outputs, adc) == combined_value(
            routes,
            default_val,
            outputs,
            adc,
        ),
        combined_value(seq![r], default_val, outputs, adc) == if source_value(r.source, outputs, adc) > 2000 {
            4095u16
        } else {
            0u16
        },
{
    let s1 = routes.push(h1);
    let s2 = s1.push(h2);
    assert(s2.drop_last() =~= s1);
    assert(s1.drop_last() =~= routes);
    assert(s2[0] == routes[0]);
    assert(s1.last() == h1 && s2.last() == h2);
    assert(route_high(h1, outputs, adc) && route_high(h2, outputs, adc));
    assert(high_count(s1, outputs, adc) == high_count(routes, outputs, adc) + 1);
    assert(high_count(s2, outputs, adc) == high_count(routes, outputs, adc) + 2);
    assert(seq![r].drop_last() =~= Seq::<Route>::empty());
    assert(seq![r].last() == r);
    assert(high_count(Seq::<Route>::empty(), outputs, adc) == 0);
    assert(high_count(seq![r], outputs, adc) == if source_value(r.source, outputs, adc) > 2000 {
        1nat
    } else {
        0nat
    });
}

/// A destination that no enabled route goes into keeps its own value.
pub proof fn law_unrouted_destination_keeps_default(
    slots: Seq<Option<Route>>,
    dest: RouteDestination,
    default_val: u16,
    outputs: Seq<u16>,
    adc: Seq<u16>,
)
    requires
        !routed_to(slots, dest),
    ensures
        combined_value(matching_routes(slots, dest), default_val, outputs, adc) == default_val,
{
    lemma_matching_len(slots, dest);
}

/// A destination that enabled routes go into gets a value within `0..=4095`,
/// whatever its own value.
pub proof fn law_routed_value_in_range(
    slots: Seq<Option<Route>>,
    dest: RouteDestination,
    default_val: u16,
    outputs: Seq<u16>,
    adc: Seq<u16>,
)
    requires
        routed_to(slots, dest),
    ensures
        combined_value(matching_routes(slots, dest), default_val, outputs, adc) <= 4095,
{
    lemma_matching_len(slots, dest);
    lemma_combined_in_range(matching_routes(slots, dest), default_val, outputs, adc);
}

/// A configuration without an enabled route routes nothing anywhere.
pub proof fn law_no_enabled_route_routes_nothing(slots: Seq<Option<Route>>, dest: RouteDestination)
    requires
        !any_enabled(slots),
    ensures
        !routed_to(slots, dest),
{
    if routed_to(slots, dest) {
        let i = choose|i: int| 0 <= i < slots.len() && #[trigger] slot_matches(slots[i], dest);
        assert(slots[i] is Some && slots[i]->0.enabled);
    }
}

/// In replace mode the last matching route alone decides the value.
pub proof fn law_replace_takes_last_route(
    routes: Seq<Route>,
    default_val: u16,
    outputs: Seq<u16>,
    adc: Seq<u16>,
)
    requires
        routes.len() > 0,
        routes[0].mode == CombineMode::Replace,
    ensures
        combined_value(routes, default_val, outputs, adc) == attenuated(
            source_value(routes.last().source, outputs, adc),
            routes.last().attenuation_percent,
            routes.last().offset,
        ),
{
}

// ----------------------------------------------------------------------------
// Executable functions
// ----------------------------------------------------------------------------

/// Applies the gain (in percent, rounded toward zero) and offset to a raw
/// sample, limited to `0..=4095`.
pub fn apply_attenuation_and_offset(raw: u16, attenuation_percent: i16, offset: i16) -> (r: u16)
    ensures
        r == attenuated(raw, attenuation_percent, offset),
{
    assert(-2147450880 <= raw as int * attenuation_percent as int <= 2147450880) by (nonlinear_arith)
        requires
            0 <= raw <= 65535,
            -32768 <= attenuation_percent <= 32767,
    ;
    let prod: i32 = raw as i32 * attenuation_percent as i32;
    let q: i32 = if prod >= 0 {
        prod / 100
    } else {
        -((-prod) / 100)
    };
    let scaled: i32 = q + offset as i32;
    if scaled < 0 {
        0
    } else if scaled > 4095 {
        4095
    } else {
        scaled as u16
    }
}

/// Raw value of a route source, reading physical inputs from `adc`.
pub fn evaluate_source_value(source: RouteSource, outputs: &[u16; 16], adc: &[u16]) -> (r: u16)
    ensures
        r == source_value(source, outputs@, adc@),
{
    match source {
        RouteSource::AppOutput { channel } => {
            if (channel as usize) < 16 {
                outputs[channel as usize]
            } else {
                0
            }
        },
        RouteSource::AppMidi { channel } => {
            if (channel as usize) < 16 {
                outputs[channel as usize]
            } else {
                0
            }
        },
        RouteSource::PhysicalAdc { channel } => {
            if (channel as usize) < adc.len() {
                adc[channel as usize]
            } else {
                0
            }
        },
        RouteSource::Constant { value } => {
            if value > 4095 {
                4095
            } else {
                value
            }
        },
    }
}

/// Combines the routes into one destination: the combine mode of the first
/// route decides; `default_val` when there is none.
pub fn evaluate_matching_routes(
    routes: &[Route],
    default_val: u16,
    outputs: &[u16; 16],
    adc: &[u16],
) -> (r: u16)
    requires
        routes@.len() <= MAX_ROUTES,
    ensures
        r == combined_value(routes@, default_val, outputs@, adc@),
{
    let n = routes.len();
    if n == 0 {
        return default_val;
    }
    let ghost rs = routes@;
    let mode = routes[0].mode;
    match mode {
        CombineMode::Replace => {
            let last_route = routes[n - 1];
            let src = evaluate_source_value(last_route.source, outputs, adc);
            apply_attenuation_and_offset(src, last_route.attenuation_percent, last_route.offset)
        },
        CombineMode::Sum | CombineMode::Average => {
            let mut sum: i32 = 0;
            let mut i: usize = 0;
            while i < n
                invariant
                    n == rs.len(),
                    rs == routes@,
                    n <= MAX_ROUTES,
                    i <= n,
                    sum == sum_values(rs.take(i as int), outputs@, adc@),
                    0 <= sum <= 4095 * i,
                decreases n - i,
            {
                let r = routes[i];
                let src = evaluate_source_value(r.source, outputs, adc);
                let val = apply_attenuation_and_offset(src, r.attenuation_percent, r.offset);
                assert(rs.take(i + 1).drop_last() =~= rs.take(i as int));
                sum = sum + val as i32;
                i = i + 1;
            }
            assert(rs.take(n as int) =~= rs);
            if mode == CombineMode::Sum {
                if sum > 4095 {
                    4095
                } else {
                    sum as u16
                }
            } else {
                let avg = sum / (n as i32);
                if avg > 4095 {
                    4095
                } else {
                    avg as u16
                }
            }
        },
        CombineMode::Max => {
            let mut max_val: u16 = 0;
            let mut i: usize = 0;
            while i < n
                invariant
                    n == rs.len(),
                    rs == routes@,
                    i <= n,
                    max_val == max_value(rs.take(i as int), outputs@, adc@),
                decreases n - i,
            {
                let r = routes[i];
                let src = evaluate_source_value(r.source, outputs, adc);
                let val = apply_attenuation_and_offset(src, r.attenuation_percent, r.offset);
                assert(rs.take(i + 1).drop_last() =~= rs.take(i as int));
                if val > max_val {
                    max_val = val;
                }
                i = i + 1;
            }
            assert(rs.take(n as int) =~= rs);
            max_val
        },
        CombineMode::Min => {
            let mut min_val: u16 = 4095;
            let mut i: usize = 0;
            while i < n
                invariant
                    n == rs.len(),
                    rs == routes@,
                    i <= n,
                    min_val == min_value(rs.take(i as int), outputs@, adc@),
                decreases n - i,
            {
                let r = routes[i];
                let src = evaluate_source_value(r.source, outputs, adc);
                let val = apply_attenuation_and_offset(src, r.attenuation_percent, r.offset);
                assert(rs.take(i + 1).drop_last() =~= rs.take(i as int));
                if val < min_val {
                    min_val = val;
                }
                i = i + 1;
            }
            assert(rs.take(n as int) =~= rs);
            min_val
        },
        CombineMode::Or | CombineMode::And | CombineMode::Xor => {
            let mut high: usize = 0;
            let mut i: usize = 0;
            while i < n
                invariant
                    n == rs.len(),
                    rs == routes@,
                    i <= n,
                    high == high_count(rs.take(i as int), outputs@, adc@),
                    high <= i,
                decreases n - i,
            {
                let r = routes[i];
                let src = evaluate_source_value(r.source, outputs, adc);
                assert(rs.take(i + 1).drop_last() =~= rs.take(i as int));
                if src > 2000 {
                    high = high + 1;
                }
                i = i + 1;
            }
            assert(rs.take(n as int) =~= rs);
            let out = match mode {
                CombineMode::Or => high > 0,
                CombineMode::And => high == n,
                _ => high % 2 == 1,
            };
            if out {
                4095
            } else {
                0
            }
        },
    }
}

/// The routes gathered for one destination, held in a
/// `heapless::Vec<Route, 32>` (whose storage type Verus cannot be told of).
#[verifier::external_body]
pub struct RouteList {
    items: heapless::Vec<Route, 32>,
}

/// The routes a route list holds, in order.
pub uninterp spec fn route_list_items(list: RouteList) -> Seq<Route>;

/// Calls `heapless::Vec::<Route, 32>::new`: an empty list.
#[verifier::external_body]
fn route_list_new() -> (r: RouteList)
    ensures
        route_list_items(r) == Seq::<Route>::empty(),
{
    RouteList { items: heapless::Vec::new() }
}

/// Calls `heapless::Vec::push`: below the capacity of 32 the route is
/// appended and `Ok` comes back (`true`); a full list is left as it was and
/// the route comes back in `Err` (`false`). A list never holds more than 32
/// routes.
#[verifier::external_body]
fn route_list_push(list: &mut RouteList, route: Route) -> (pushed: bool)
    ensures
        pushed == (route_list_items(*old(list)).len() < MAX_ROUTES),
        pushed ==> route_list_items(*final(list)) == route_list_items(*old(list)).push(route),
        !pushed ==> route_list_items(*final(list)) == route_list_items(*old(list)),
        route_list_items(*final(list)).len() <= MAX_ROUTES,
{
    list.items.push(route).is_ok()
}

/// Calls `heapless::Vec::as_slice`: the routes held, in order (at most 32).
#[verifier::external_body]
fn route_list_slice(list: &RouteList) -> (r: &[Route])
    ensures
        r@ == route_list_items(*list),
        r@.len() <= MAX_ROUTES,
{
    list.items.as_slice()
}

impl RouteList {
    /// The routes held, in order.
    pub fn as_slice(&self) -> (r: &[Route])
        ensures
            r@ == route_list_items(*self),
            r@.len() <= MAX_ROUTES,
    {
        route_list_slice(self)
    }
}

/// The enabled routes of `config` into `dest`, in slot order.
pub fn collect_matching_routes(config: &RoutingConfig, dest: RouteDestination) -> (r: RouteList)
    ensures
        route_list_items(r) == matching_routes(config.routes@, dest),
        route_list_items(r).len() <= MAX_ROUTES,
{
    let mut out = route_list_new();
    let mut i: usize = 0;
    let ghost slots = config.routes@;
    while i < 32
        invariant
            i <= 32,
            slots == config.routes@,
            route_list_items(out) == matching_routes(slots.take(i as int), dest),
        decreases 32 - i,
    {
        assert(slots.take(i + 1).drop_last() =~= slots.take(i as int));
        assert(slots.take(i + 1).last() == slots[i as int]);
        proof {
            lemma_matching_len(slots.take(i as int), dest);
        }
        if let Some(r) = config.routes[i] {
            if r.enabled && r.destination == dest {
                let _ = route_list_push(&mut out, r);
            }
        }
        i = i + 1;
    }
    assert(slots.take(32) =~= slots);
    proof {
        lemma_matching_len(slots, dest);
    }
    out
}

impl RoutingEngine {
    /// An engine with all virtual outputs at 0, no routes, and inactive.
    pub fn new() -> (r: Self)
        ensures
            forall|i: int| 0 <= i < 16 ==> r.virtual_outputs@[i] == 0,
            forall|i: int| 0 <= i < MAX_ROUTES ==> r.config.routes@[i] is None,
            !r.active,
    {
        RoutingEngine { virtual_outputs: [0; 16], config: RoutingConfig::new(), active: false }
    }

    /// Stores `value` on virtual output `channel` (ignored past the last
    /// output). Returns whether routed destinations must be told of the
    /// change: the value changed and routing is active.
    pub fn set_virtual_output(&mut self, channel: usize, value: u16) -> (notify: bool)
        ensures
            final(self).config == old(self).config,
            final(self).active == old(self).active,
            channel < 16 ==> final(self).virtual_outputs@ == old(self).virtual_outputs@.update(
                channel as int,
                value,
            ),
            channel >= 16 ==> final(self).virtual_outputs == old(self).virtual_outputs,
            notify == (channel < 16 && old(self).virtual_outputs@[channel as int] != value
                && old(self).active),
    {
        if channel < 16 {
            let old_value = self.virtual_outputs[channel];
            self.virtual_outputs[channel] = value;
            old_value != value && self.active
        } else {
            false
        }
    }

    /// The value on virtual output `channel`; 0 past the last output.
    pub fn get_virtual_output(&self, channel: usize) -> (r: u16)
        ensures
            r == virtual_value(self.virtual_outputs@, channel as int),
    {
        if channel < 16 {
            self.virtual_outputs[channel]
        } else {
            0
        }
    }

    /// The app channels to tell of a fader change when virtual output
    /// `source_channel` changed: targets of enabled routes from it into app
    /// faders and inputs, unless shift or the target's button is held.
    pub fn modulated_destinations(
        &self,
        source_channel: usize,
        shift_pressed: bool,
        buttons_pressed: &[bool],
    ) -> (r: Vec<usize>)
        ensures
            r@ == modulated_targets(
                self.config.routes@,
                source_channel as u8,
                shift_pressed,
                buttons_pressed@,
            ),
    {
        let src_chan = source_channel as u8;
        let mut out: Vec<usize> = Vec::new();
        let mut i: usize = 0;
        let ghost slots = self.config.routes@;
        while i < 32
            invariant
                i <= 32,
                slots == self.config.routes@,
                src_chan == source_channel as u8,
                out@ == modulated_targets(slots.take(i as int), src_chan, shift_pressed, buttons_pressed@),
            decreases 32 - i,
        {
            assert(slots.take(i + 1).drop_last() =~= slots.take(i as int));
            assert(slots.take(i + 1).last() == slots[i as int]);
            if let Some(r) = self.config.routes[i] {
                if r.enabled && r.source == (RouteSource::AppOutput { channel: src_chan }) {
                    match r.destination {
                        RouteDestination::AppFader { channel } | RouteDestination::AppInput {
                            channel,
                        } => {
                            let target_chan = channel as usize;
                            let held = target_chan < buttons_pressed.len()
                                && buttons_pressed[target_chan];
                            if !shift_pressed && !held {
                                out.push(target_chan);
                            }
                        },
                        _ => {},
                    }
                }
            }
            i = i + 1;
        }
        assert(slots.take(32) =~= slots);
        out
    }

    /// Whether an enabled route of the active configuration goes into app input `channel`.
    pub fn is_input_routed(&self, channel: usize) -> (r: bool)
        ensures
            r == (self.active && routed_to(
                self.config.routes@,
                RouteDestination::AppInput { channel: channel as u8 },
            )),
    {
        if !self.active {
            return false;
        }
        let dest = RouteDestination::AppInput { channel: channel as u8 };
        let list = collect_matching_routes(&self.config, dest);
        let m = list.as_slice();
        proof {
            lemma_matching_len(self.config.routes@, dest);
        }
        m.len() > 0
    }

    /// The effective value of app input `channel`: `physical_adc` unless
    /// enabled routes go into it, then their combined value.
    pub fn get_input_value(&self, channel: usize, physical_adc: u16, adc: &[u16]) -> (r: u16)
        ensures
            r == (if self.active {
                combined_value(
                    matching_routes(
                        self.config.routes@,
                        RouteDestination::AppInput { channel: channel as u8 },
                    ),
                    physical_adc,
                    self.virtual_outputs@,
                    adc@,
                )
            } else {
                physical_adc
            }),
    {
        if !self.active {
            return physical_adc;
        }
        let dest = RouteDestination::AppInput { channel: channel as u8 };
        let list = collect_matching_routes(&self.config, dest);
        let m = list.as_slice();
        if m.len() == 0 {
            physical_adc
        } else {
            evaluate_matching_routes(m, physical_adc, &self.virtual_outputs, adc)
        }
    }

    /// The effective value of DAC `channel`: `default_dac` unless enabled
    /// routes go into it, then their combined value.
    pub fn get_dac_value(&self, channel: usize, default_dac: u16, adc: &[u16]) -> (r: u16)
        ensures
            r == (if self.active {
                combined_value(
                    matching_routes(
                        self.config.routes@,
                        RouteDestination::PhysicalDac { channel: channel as u8 },
                    ),
                    default_dac,
                    self.virtual_outputs@,
                    adc@,
                )
            } else {
                default_dac
            }),
    {
        if !self.active {
            return default_dac;
        }
        let dest = RouteDestination::PhysicalDac { channel: channel as u8 };
        let list = collect_matching_routes(&self.config, dest);
        let m = list.as_slice();
        if m.len() == 0 {
            default_dac
        } else {
            evaluate_matching_routes(m, default_dac, &self.virtual_outputs, adc)
        }
    }

    /// The modulation offset (-2048..=2047) on app fader `channel`: 0 when
    /// routing is inactive, shift or the channel's button is held, or no
    /// route goes into it; otherwise the routes' combined value around 2048.
    pub fn get_fader_offset(
        &self,
        channel: usize,
        shift_pressed: bool,
        buttons_pressed: &[bool],
        adc: &[u16],
    ) -> (r: i16)
        ensures
            r == (if !self.active || shift_pressed || button_held(buttons_pressed@, channel as int) {
                0
            } else {
                let m = matching_routes(
                    self.config.routes@,
                    RouteDestination::AppFader { channel: channel as u8 },
                );
                if m.len() == 0 {
                    0
                } else {
                    clamp_int(
                        combined_value(m, 2048, self.virtual_outputs@, adc@) as int - 2048,
                        -2048,
                        2047,
                    ) as i16
                }
            }),
    {
        if !self.active {
            return 0;
        }
        if shift_pressed || (channel < buttons_pressed.len() && buttons_pressed[channel]) {
            return 0;
        }
        let dest = RouteDestination::AppFader { channel: channel as u8 };
        let list = collect_matching_routes(&self.config, dest);
        let m = list.as_slice();
        if m.len() == 0 {
            0
        } else {
            let val = evaluate_matching_routes(m, 2048, &self.virtual_outputs, adc);
            let d: i32 = val as i32 - 2048;
            if d < -2048 {
                -2048
            } else if d > 2047 {
                2047
            } else {
                d as i16
            }
        }
    }

    /// Installs `new_config`: routing becomes active exactly when one of its
    /// routes is enabled. Returns the app channels to tell of a fader change.
    pub fn set_routing_config(&mut self, new_config: RoutingConfig) -> (notify: Vec<usize>)
        ensures
            final(self).config == new_config,
            final(self).active == any_enabled(new_config.routes@),
            final(self).virtual_outputs == old(self).virtual_outputs,
            notify@ == app_destinations(new_config.routes@),
    {
        let mut has_routes = false;
        let mut out: Vec<usize> = Vec::new();
        let mut i: usize = 0;
        let ghost slots = new_config.routes@;
        while i < 32
            invariant
                i <= 32,
                slots == new_config.routes@,
                has_routes == any_enabled(slots.take(i as int)),
                out@ == app_destinations(slots.take(i as int)),
            decreases 32 - i,
        {
            assert(slots.take(i + 1).drop_last() =~= slots.take(i as int));
            assert(slots.take(i + 1).last() == slots[i as int]);
            assert(slots.take(i + 1)[i as int] == slots[i as int]);
            if let Some(r) = new_config.routes[i] {
                if r.enabled {
                    has_routes = true;
                    match r.destination {
                        RouteDestination::AppFader { channel } | RouteDestination::AppInput {
                            channel,
                        } => {
                            out.push(channel as usize);
                        },
                        _ => {},
                    }
                }
            }
            proof {
                if has_routes && !any_enabled(slots.take(i as int)) {
                    assert(slots.take(i + 1)[i as int] is Some);
                }
                if any_enabled(slots.take(i + 1)) && !(slots[i as int] is Some
                    && slots[i as int]->0.enabled) {
                    let j = choose|j: int|
                        0 <= j < i + 1 && (#[trigger] slots.take(i + 1)[j]) is Some && slots.take(
                            i + 1,
                        )[j]->0.enabled;
                    assert(slots.take(i as int)[j] == slots.take(i + 1)[j]);
                }
                if any_enabled(slots.take(i as int)) {
                    let j = choose|j: int|
                        0 <= j < i && (#[trigger] slots.take(i as int)[j]) is Some && slots.take(
                            i as int,
                        )[j]->0.enabled;
                    assert(slots.take(i + 1)[j] == slots.take(i as int)[j]);
                }
            }
            i = i + 1;
        }
        assert(slots.take(32) =~= slots);
        self.active = has_routes;
        self.config = new_config;
        out
    }

    /// A copy of the active configuration.
    pub fn get_routing_config(&self) -> (r: RoutingConfig)
        ensures
            r == self.config,
    {
        self.config
    }
}

} // verus!
