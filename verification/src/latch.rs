//! Take-over of a stored value by a physical fader.
use vstd::prelude::*;

verus! {

/// The layer of values that a fader is editing.
#[derive(Clone, Copy, Debug, PartialEq, Eq, Structural)]
pub enum LatchLayer {
    Main,
    Alt,
    Third,
}

impl From<bool> for LatchLayer {
    fn from(is_alternate_layer: bool) -> (r: Self) {
        if is_alternate_layer {
            LatchLayer::Alt
        } else {
            LatchLayer::Main
        }
    }
}

impl vstd::std_specs::convert::FromSpecImpl<bool> for LatchLayer {
    open spec fn obeys_from_spec() -> bool {
        true
    }

    open spec fn from_spec(is_alternate_layer: bool) -> Self {
        if is_alternate_layer {
            LatchLayer::Alt
        } else {
            LatchLayer::Main
        }
    }
}

/// Defines how a fader should take control of a value when switching layers
/// or starting a session.
#[derive(Clone, Copy, Debug, PartialEq, Eq, Structural)]
pub enum TakeoverMode {
    /// Wait until the fader crosses the target value, then sync.
    Pickup,
    /// The value immediately jumps to the fader position.
    Jump,
    /// Gradually scale the value toward the fader position based on movement and runway.
    Scale,
}

impl Default for TakeoverMode {
    fn default() -> (r: Self)
        ensures
            r == TakeoverMode::Pickup,
    {
        TakeoverMode::Pickup
    }
}

/// The jitter tolerance of a latch made with `AnalogLatch::new`.
pub const DEFAULT_TOLERANCE: u16 = 25;

/// The top of the 12-bit range.
pub const FULL_SCALE: i64 = 4095;

/// Quotient rounded toward zero.
pub open spec fn quotient_to_zero(a: int, b: int) -> int {
    if a >= 0 {
        a / b
    } else {
        -((-a) / b)
    }
}

/// Divides and rounds toward zero.
pub fn divide_to_zero(a: i64, b: i64) -> (r: i64)
    requires
        b > 0,
        a > i64::MIN,
    ensures
        r == quotient_to_zero(a as int, b as int),
{
    proof {
        if a >= 0 {
            vstd::arithmetic::div_mod::lemma_div_is_ordered_by_denominator(a as int, 1, b as int);
            vstd::arithmetic::div_mod::lemma_div_pos_is_pos(a as int, b as int);
        } else {
            vstd::arithmetic::div_mod::lemma_div_is_ordered_by_denominator(-a as int, 1, b as int);
            vstd::arithmetic::div_mod::lemma_div_pos_is_pos(-a as int, b as int);
        }
    }
    if a >= 0 {
        (a as u64 / b as u64) as i64
    } else {
        -(((-a) as u64 / b as u64) as i64)
    }
}

/// Whether two readings differ by no more than `tolerance`.
pub open spec fn within(a: int, b: int, tolerance: int) -> bool {
    -tolerance <= a - b <= tolerance
}

/// `v` brought into `0..=4095`.
pub open spec fn clamp_12bit(v: int) -> int {
    if v < 0 {
        0
    } else if v > 4095 {
        4095
    } else {
        v
    }
}

/// Whether a move of the fader from `from` to `to` goes toward `target`.
pub open spec fn moves_toward(from: int, to: int, target: int) -> bool {
    (from < target && from < to) || (from > target && from > to)
}

/// How far a stored value travels when the fader moves from `from` to `to`
/// without being in control.
///
/// Half the move when the fader approaches `target`, twice the move when it
/// leaves it, stretched by up to a quarter as the fader nears the end of its
/// travel. Both roundings are toward zero.
pub open spec fn scaled_travel(from: int, to: int, target: int) -> int {
    let delta = to - from;
    let base = if moves_toward(from, to, target) {
        quotient_to_zero(delta, 2)
    } else {
        delta * 2
    };
    let runway = if delta > 0 {
        4095 - to
    } else {
        to
    };
    quotient_to_zero(base * (4095 * 4 + (4095 - runway)), 16380)
}

/// Where a stored value `target` lands after the move of the fader from `from` to `to`.
pub open spec fn scaled_target(from: int, to: int, target: int) -> int {
    clamp_12bit(target + scaled_travel(from, to, target))
}

/// A stateless machine that implements "catch-up" or "pickup" logic for a fader or knob.
///
/// It determines when a physical fader should take control of a value. It does
/// not store the values of the layers it manages: the caller keeps them and
/// passes the relevant value to `update`.
#[derive(Debug, Clone, Copy, PartialEq, Eq, Structural)]
pub struct AnalogLatch {
    pub active_layer: LatchLayer,
    pub is_latched: bool,
    pub prev_value: u16,
    pub last_emitted_value: u16,
    pub prev_target: u16,
    pub jitter_tolerance: u16,
    pub mode: TakeoverMode,
}

impl AnalogLatch {
    /// A latch that sits on the main layer, in control, at `initial_value`.
    pub open spec fn initial(
        initial_value: u16,
        jitter_tolerance: u16,
        mode: TakeoverMode,
    ) -> AnalogLatch {
        AnalogLatch {
            active_layer: LatchLayer::Main,
            is_latched: true,
            prev_value: initial_value,
            last_emitted_value: initial_value,
            prev_target: initial_value,
            jitter_tolerance,
            mode,
        }
    }

    /// Whether two readings are equal up to the jitter tolerance.
    pub open spec fn near(self, a: int, b: int) -> bool {
        within(a, b, self.jitter_tolerance as int)
    }

    /// Whether the fader is in control once the requested layer and the stored
    /// value of that layer have been taken into account, before any movement.
    pub open spec fn holds(self, value: u16, layer: LatchLayer, target: u16) -> bool {
        if layer == self.active_layer && target == self.prev_target {
            self.is_latched
        } else if layer == self.active_layer && !self.is_latched {
            self.near(value as int, target as int)
        } else {
            self.mode == TakeoverMode::Jump || self.near(value as int, target as int)
        }
    }

    /// Whether the fader has passed or reached the stored value since the last reading.
    pub open spec fn crosses(self, value: u16, target: u16) -> bool {
        ||| self.prev_value <= target <= value
        ||| value <= target <= self.prev_value
        ||| self.near(value as int, target as int)
    }

    /// Whether the stored value, scaled along with the fader, meets the fader.
    pub open spec fn meets(self, value: u16, target: u16) -> bool {
        let next = scaled_target(self.prev_value as int, value as int, target as int);
        ||| target <= value <= next
        ||| next <= value <= target
        ||| self.near(next, value as int)
    }

    /// Whether `value` is one of the two ends of the travel and was not the last value emitted.
    pub open spec fn fresh_edge(self, value: u16) -> bool {
        (value == 0 || value == 4095) && value != self.last_emitted_value
    }

    /// The value that an update emits.
    pub open spec fn emits(self, value: u16, layer: LatchLayer, target: u16) -> Option<u16> {
        if self.fresh_edge(value) {
            Some(value)
        } else if self.mode == TakeoverMode::Jump || self.holds(value, layer, target) {
            if self.near(value as int, self.last_emitted_value as int) {
                None
            } else {
                Some(value)
            }
        } else if self.mode == TakeoverMode::Pickup {
            if self.crosses(value, target) {
                Some(value)
            } else {
                None
            }
        } else if value == self.prev_value {
            None
        } else if (value == target && (value == 0 || value == 4095)) || self.meets(value, target) {
            Some(value)
        } else {
            Some(scaled_target(self.prev_value as int, value as int, target as int) as u16)
        }
    }

    /// Whether the fader is in control after an update.
    pub open spec fn latches(self, value: u16, layer: LatchLayer, target: u16) -> bool {
        ||| self.fresh_edge(value)
        ||| self.holds(value, layer, target)
        ||| self.mode == TakeoverMode::Pickup && self.crosses(value, target)
        ||| self.mode == TakeoverMode::Scale && value != self.prev_value && ((value == target && (
        value == 0 || value == 4095)) || self.meets(value, target))
    }

    /// The latch after an update.
    pub open spec fn updated(self, value: u16, layer: LatchLayer, target: u16) -> AnalogLatch {
        AnalogLatch {
            active_layer: layer,
            is_latched: self.latches(value, layer, target),
            prev_value: value,
            last_emitted_value: match self.emits(value, layer, target) {
                Some(emitted) => emitted,
                None => self.last_emitted_value,
            },
            prev_target: target,
            jitter_tolerance: self.jitter_tolerance,
            mode: self.mode,
        }
    }

    /// Creates a new latch with the default jitter tolerance.
    ///
    /// It starts on the main layer and assumes that the fader's physical
    /// position matches the given initial value, so it begins latched.
    pub fn new(initial_value: u16, mode: TakeoverMode) -> (r: Self)
        ensures
            r == AnalogLatch::initial(initial_value, 25, mode),
    {
        AnalogLatch::with_tolerance(initial_value, DEFAULT_TOLERANCE, mode)
    }

    /// Creates a new latch with a custom jitter tolerance.
    pub fn with_tolerance(initial_value: u16, jitter_tolerance: u16, mode: TakeoverMode) -> (r: Self)
        ensures
            r == AnalogLatch::initial(initial_value, jitter_tolerance, mode),
    {
        AnalogLatch {
            active_layer: LatchLayer::Main,
            is_latched: true,
            prev_value: initial_value,
            last_emitted_value: initial_value,
            prev_target: initial_value,
            jitter_tolerance,
            mode,
        }
    }

    /// Checks if two values are approximately equal within the jitter tolerance.
    pub fn values_equal(&self, a: u16, b: u16) -> (r: bool)
        ensures
            r == self.near(a as int, b as int),
    {
        let diff: u16 = if a > b {
            a - b
        } else {
            b - a
        };
        diff <= self.jitter_tolerance
    }

    /// Returns the layer that the latch is currently focused on.
    pub fn active_layer(&self) -> (r: LatchLayer)
        ensures
            r == self.active_layer,
    {
        self.active_layer
    }

    /// Returns `true` if the fader is currently in control of the active layer's value.
    pub fn is_latched(&self) -> (r: bool)
        ensures
            r == self.is_latched,
    {
        self.is_latched
    }

    /// Where the stored value lands after a move of an unlatched fader.
    fn scaled(&self, value: u16, target: u16) -> (r: u16)
        ensures
            r == scaled_target(self.prev_value as int, value as int, target as int),
    {
        let from: i64 = self.prev_value as i64;
        let to: i64 = value as i64;
        let current: i64 = target as i64;
        let delta: i64 = to - from;
        let toward = (from < current && from < to) || (from > current && from > to);
        let base: i64 = if toward {
            divide_to_zero(delta, 2)
        } else {
            delta * 2
        };
        let runway: i64 = if delta > 0 {
            FULL_SCALE - to
        } else {
            to
        };
        let factor: i64 = FULL_SCALE * 4 + (FULL_SCALE - runway);
        assert(-131070 <= base <= 131070);
        assert(-45060 <= factor <= 90000);
        assert(-20_000_000_000 <= base * factor <= 20_000_000_000) by (nonlinear_arith)
            requires
                -131070 <= base <= 131070,
                -45060 <= factor <= 90000,
        ;
        let product: i64 = base * factor;
        let travel: i64 = divide_to_zero(product, FULL_SCALE * 4);
        let next: i64 = current + travel;
        if next < 0 {
            0
        } else if next > FULL_SCALE {
            4095
        } else {
            next as u16
        }
    }

    /// Updates the latch's internal state based on new fader input.
    ///
    /// `value` is the current physical value of the fader, `new_active_layer`
    /// the layer that should be active and `active_layer_target_value` the value
    /// stored for that layer, used to detect the crossover point when the fader
    /// is not latched.
    ///
    /// Returns `Some(new_value)` if the fader is latched and its value has
    /// changed beyond the jitter tolerance, or if it has just taken control. The
    /// caller uses this value to update its state for the active layer. Returns
    /// `None` if no change should occur.
    pub fn update(
        &mut self,
        value: u16,
        new_active_layer: LatchLayer,
        active_layer_target_value: u16,
    ) -> (r: Option<u16>)
        ensures
            r == old(self).emits(value, new_active_layer, active_layer_target_value),
            *final(self) == old(self).updated(value, new_active_layer, active_layer_target_value),
    {
        let target = active_layer_target_value;
        if new_active_layer != self.active_layer {
            self.active_layer = new_active_layer;
            self.is_latched = match self.mode {
                TakeoverMode::Jump => true,
                _ => self.values_equal(value, target),
            };
        } else if self.is_latched {
            if self.prev_target != target {
                self.is_latched = match self.mode {
                    TakeoverMode::Jump => true,
                    _ => self.values_equal(value, target),
                };
            }
        } else if self.prev_target != target && self.values_equal(value, target) {
            self.is_latched = true;
        }
        self.prev_target = target;

        let is_absolute_edge = value == 0 || value == 4095;
        let mut new_value: Option<u16> = None;
        if is_absolute_edge && value != self.last_emitted_value {
            self.is_latched = true;
            new_value = Some(value);
        } else if self.mode == TakeoverMode::Jump || self.is_latched {
            if !self.values_equal(value, self.last_emitted_value) {
                new_value = Some(value);
            }
        } else if self.mode == TakeoverMode::Pickup {
            let has_crossed = (self.prev_value <= target && target <= value) || (value <= target
                && target <= self.prev_value) || self.values_equal(value, target);
            if has_crossed {
                self.is_latched = true;
                new_value = Some(value);
            }
        } else if value != self.prev_value {
            if is_absolute_edge && value == target {
                self.is_latched = true;
                new_value = Some(value);
            } else {
                let next: u16 = self.scaled(value, target);
                let crossed = (target <= value && value <= next) || (next <= value && value
                    <= target) || self.values_equal(next, value);
                if crossed {
                    self.is_latched = true;
                    new_value = Some(value);
                } else {
                    new_value = Some(next);
                }
            }
        }
        if let Some(emitted_value) = new_value {
            self.last_emitted_value = emitted_value;
        }
        self.prev_value = value;
        new_value
    }
}

/// In jump mode a latched fader never loses control.
pub proof fn law_jump_stays_latched(
    latch: AnalogLatch,
    value: u16,
    layer: LatchLayer,
    target: u16,
)
    requires
        latch.mode == TakeoverMode::Jump,
        latch.is_latched,
    ensures
        latch.updated(value, layer, target).is_latched,
{
}

/// Reaching an end of the travel always applies, whatever the mode, the layer
/// and the stored value: the end is emitted unless it was the last value
/// emitted, and then the fader is in control.
pub proof fn law_edges_always_apply(
    latch: AnalogLatch,
    value: u16,
    layer: LatchLayer,
    target: u16,
)
    requires
        value == 0 || value == 4095,
        value != latch.last_emitted_value,
    ensures
        latch.emits(value, layer, target) == Some(value),
        latch.updated(value, layer, target).is_latched,
{
}

/// While a fader is in control of an unchanged layer and value, it emits its
/// position exactly when it has left the jitter band of the last value emitted,
/// or has reached an end of the travel.
pub proof fn law_latched_follows_beyond_jitter(latch: AnalogLatch, value: u16)
    requires
        latch.is_latched,
    ensures
        latch.emits(value, latch.active_layer, latch.prev_target) == (if !latch.near(
            value as int,
            latch.last_emitted_value as int,
        ) || latch.fresh_edge(value) {
            Some(value)
        } else {
            None
        }),
        latch.updated(value, latch.active_layer, latch.prev_target).is_latched,
{
}

/// A value emitted while the fader ends up in control is the fader's own position.
pub proof fn law_latched_emits_position(
    latch: AnalogLatch,
    value: u16,
    layer: LatchLayer,
    target: u16,
)
    requires
        latch.updated(value, layer, target).is_latched,
        latch.emits(value, layer, target) is Some,
    ensures
        latch.emits(value, layer, target) == Some(value),
{
}

/// In pickup mode the stored value does not move before the fader reaches or
/// passes it, or reaches an end of the travel; when it moves, the fader has taken
/// control.
pub proof fn law_pickup_waits_for_crossover(
    latch: AnalogLatch,
    value: u16,
    layer: LatchLayer,
    target: u16,
)
    requires
        latch.mode == TakeoverMode::Pickup,
        !latch.holds(value, layer, target),
    ensures
        latch.emits(value, layer, target) == (if latch.fresh_edge(value) || latch.crosses(
            value,
            target,
        ) {
            Some(value)
        } else {
            None
        }),
        latch.updated(value, layer, target).is_latched == latch.emits(
            value,
            layer,
            target,
        ).is_some(),
{
}

/// In scale mode an emitted value is either the fader's position or within the
/// 12-bit range.
pub proof fn law_scale_output_in_range(
    latch: AnalogLatch,
    value: u16,
    layer: LatchLayer,
    target: u16,
)
    requires
        latch.mode == TakeoverMode::Scale,
        latch.emits(value, layer, target) is Some,
        latch.emits(value, layer, target) != Some(value),
    ensures
        latch.emits(value, layer, target).unwrap() <= 4095,
        !latch.updated(value, layer, target).is_latched,
{
}

/// A fader at rest emits nothing: a second reading of the same position, on the
/// same layer, gives `None`, both when the caller has stored what was emitted
/// and when it has not, and the latch stays as it is. A fader that rests at an end
/// of the travel while a value other than its own was emitted applies that end
/// first.
pub proof fn law_rest_is_silent(latch: AnalogLatch, value: u16, layer: LatchLayer, target: u16)
    requires
        (value == 0 || value == 4095) && latch.emits(value, layer, target) is Some ==> latch.emits(
            value,
            layer,
            target,
        ) == Some(value),
    ensures
        latch.updated(value, layer, target).emits(value, layer, target) is None,
        latch.updated(value, layer, target).updated(value, layer, target) == latch.updated(
            value,
            layer,
            target,
        ),
        latch.emits(value, layer, target) matches Some(stored) ==> latch.updated(
            value,
            layer,
            target,
        ).emits(value, layer, stored) is None,
{
}

/// Selecting another layer leaves the fader in control only in jump mode, when
/// it already sits at that layer's value, when it reaches an end of the travel,
/// or when the same reading takes control by the rule of its mode.
pub proof fn law_layer_switch_unlatches(
    latch: AnalogLatch,
    value: u16,
    layer: LatchLayer,
    target: u16,
)
    requires
        layer != latch.active_layer,
        latch.mode != TakeoverMode::Jump,
        !latch.near(value as int, target as int),
        !latch.fresh_edge(value),
        value == latch.prev_value,
    ensures
        !latch.updated(value, layer, target).is_latched,
        latch.updated(value, layer, target).active_layer == layer,
        latch.emits(value, layer, target) is None,
{
}

/// In scale mode, a fader that is not in control and moves away from the stored
/// value, or starts on it, carries the stored value along in the direction of its
/// move: by at least twice the move and at most five quarters of that, the more
/// the less of its travel is left, and not beyond an end of the travel. It takes
/// control only where the stored value so carried has met it.
pub proof fn law_scale_doubles_moves_away(latch: AnalogLatch, value: u16)
    requires
        latch.mode == TakeoverMode::Scale,
        !latch.is_latched,
        latch.prev_value <= 4095,
        latch.prev_target <= 4095,
        value <= 4095,
        value != latch.prev_value,
        latch.prev_value == latch.prev_target || (latch.prev_value < latch.prev_target) == (value
            < latch.prev_value),
        !((value == 0 || value == 4095) && value != latch.last_emitted_value),
        !((value == 0 || value == 4095) && value == latch.prev_target),
    ensures
        ({
            let target = latch.prev_target as int;
            let moved = if value > latch.prev_value {
                value - latch.prev_value
            } else {
                latch.prev_value - value
            };
            let emitted = latch.emits(value, latch.active_layer, latch.prev_target);
            let after = latch.updated(value, latch.active_layer, latch.prev_target);
            let apart = if value > target {
                value - target
            } else {
                target - value
            };
            // What is left of the travel in the direction of the move.
            let left = if value > latch.prev_value {
                4095 - value
            } else {
                value as int
            };
            &&& emitted is Some
            &&& after.is_latched ==> emitted == Some(value)
            &&& !after.is_latched ==> ({
                let next = emitted->0 as int;
                let carried = if value > latch.prev_value {
                    next - target
                } else {
                    target - next
                };
                &&& 0 <= next <= 4095
                &&& 0 <= 2 * carried <= 5 * moved
                &&& 0 < next < 4095 ==> carried >= 2 * moved
                &&& 0 < next < 4095 ==> 16380 * carried <= 2 * moved * (20475 - left) < 16380
                    * carried + 16380
            })
            // Further away than the stored value is carried, the two have not met.
            &&& 2 * apart > 5 * moved + 2 * latch.jitter_tolerance ==> !after.is_latched
        }),
{
    let from = latch.prev_value as int;
    let to = value as int;
    let target = latch.prev_target as int;
    let delta = to - from;
    let left = if delta > 0 {
        4095 - to
    } else {
        to
    };
    assert(!moves_toward(from, to, target));
    let factor = 4095 * 4 + (4095 - left);
    assert(16380 <= factor <= 20475);
    let size = if delta > 0 {
        delta
    } else {
        -delta
    };
    let product = 2 * size * factor;
    assert(2 * size * 16380 <= product <= 2 * size * 20475) by (nonlinear_arith)
        requires
            product == 2 * size * factor,
            16380 <= factor <= 20475,
            size > 0,
    ;
    if delta > 0 {
        assert(delta * 2 * factor == product) by (nonlinear_arith)
            requires
                product == 2 * size * factor,
                size == delta,
        ;
    } else {
        assert(delta * 2 * factor == -product) by (nonlinear_arith)
            requires
                product == 2 * size * factor,
                size == -delta,
        ;
    }
    let travel = scaled_travel(from, to, target);
    assert(delta > 0 ==> travel == product / 16380);
    assert(delta < 0 ==> travel == -(product / 16380));
}

/// In scale mode, a fader that is not in control and moves toward the stored
/// value pulls the stored value along by half its move, rounded down, and at most
/// a quarter more, in the direction of the move, and takes control where they
/// meet.
pub proof fn law_scale_halves_approach(latch: AnalogLatch, value: u16)
    requires
        latch.mode == TakeoverMode::Scale,
        !latch.is_latched,
        latch.prev_value <= 4095,
        latch.prev_target <= 4095,
        value <= 4095,
        latch.prev_value < latch.prev_target && latch.prev_value < value || latch.prev_value
            > latch.prev_target && latch.prev_value > value,
        !((value == 0 || value == 4095) && value != latch.last_emitted_value),
        !((value == 0 || value == 4095) && value == latch.prev_target),
    ensures
        ({
            let target = latch.prev_target as int;
            let moved = if value > latch.prev_value {
                value - latch.prev_value
            } else {
                latch.prev_value - value
            };
            let emitted = latch.emits(value, latch.active_layer, latch.prev_target);
            let after = latch.updated(value, latch.active_layer, latch.prev_target);
            let left = if value > latch.prev_value {
                4095 - value
            } else {
                value as int
            };
            let half = moved / 2;
            &&& emitted is Some
            &&& after.is_latched ==> emitted == Some(value)
            &&& !after.is_latched ==> ({
                let next = emitted->0 as int;
                let carried = if value > latch.prev_value {
                    next - target
                } else {
                    target - next
                };
                &&& 0 <= next <= 4095
                &&& 0 <= 4 * carried <= 5 * half
                &&& 0 < next < 4095 ==> carried >= half
                &&& 0 < next < 4095 ==> 16380 * carried <= half * (20475 - left) < 16380 * carried
                    + 16380
            })
            // Where the fader stays clear of the stored value, the two have not met.
            &&& (value + latch.jitter_tolerance < target && value > latch.prev_value) || (value
                > target + latch.jitter_tolerance && value < latch.prev_value)
                ==> !after.is_latched
        }),
{
    let from = latch.prev_value as int;
    let to = value as int;
    let target = latch.prev_target as int;
    let delta = to - from;
    let left = if delta > 0 {
        4095 - to
    } else {
        to
    };
    assert(moves_toward(from, to, target));
    let factor = 4095 * 4 + (4095 - left);
    assert(16380 <= factor <= 20475);
    let half = if delta > 0 {
        delta / 2
    } else {
        (-delta) / 2
    };
    let product = half * factor;
    assert(half * 16380 <= product <= half * 20475) by (nonlinear_arith)
        requires
            product == half * factor,
            16380 <= factor <= 20475,
            half >= 0,
    ;
    if delta < 0 {
        assert((-half) * factor == -product) by (nonlinear_arith)
            requires
                product == half * factor,
        ;
    }
    let travel = scaled_travel(from, to, target);
    assert(delta > 0 ==> travel == product / 16380);
    assert(delta < 0 ==> travel == -(product / 16380));
}

/// In scale mode, a fader at rest that is not in control leaves the stored value
/// alone.
pub proof fn law_scale_waits_for_moves(latch: AnalogLatch)
    requires
        latch.mode == TakeoverMode::Scale,
        !latch.is_latched,
        0 < latch.prev_value < 4095,
    ensures
        latch.emits(latch.prev_value, latch.active_layer, latch.prev_target) is None,
        latch.updated(latch.prev_value, latch.active_layer, latch.prev_target) == latch,
{
}

/// In pickup mode, a fader that is not in control takes it exactly where it
/// reaches or passes the stored value, comes within the tolerance of it, or
/// reaches an end of the travel; until then the stored value stays.
pub proof fn law_pickup_takes_over_at_target(latch: AnalogLatch, value: u16)
    requires
        latch.mode == TakeoverMode::Pickup,
        !latch.is_latched,
    ensures
        ({
            let target = latch.prev_target as int;
            let before = latch.prev_value as int;
            let reached = (before - target) * (value - target) <= 0 || target
                - latch.jitter_tolerance <= value <= target + latch.jitter_tolerance;
            let edge = (value == 0 || value == 4095) && value != latch.last_emitted_value;
            let emitted = latch.emits(value, latch.active_layer, latch.prev_target);
            let after = latch.updated(value, latch.active_layer, latch.prev_target);
            &&& after.is_latched == (reached || edge)
            &&& emitted == (if reached || edge {
                Some(value)
            } else {
                None
            })
        }),
{
    let a = latch.prev_value - latch.prev_target;
    let b = value - latch.prev_target;
    assert((a * b <= 0) == (a <= 0 && b >= 0 || a >= 0 && b <= 0)) by (nonlinear_arith);
}

/// In jump mode, a move beyond the tolerance gives the stored value the position
/// of the fader at once, whatever the layer and the stored value.
pub proof fn law_jump_follows_at_once(
    latch: AnalogLatch,
    value: u16,
    layer: LatchLayer,
    target: u16,
)
    requires
        latch.mode == TakeoverMode::Jump,
        value > latch.last_emitted_value + latch.jitter_tolerance || value
            + latch.jitter_tolerance < latch.last_emitted_value,
    ensures
        latch.emits(value, layer, target) == Some(value),
        latch.updated(value, layer, target).last_emitted_value == value,
{
}

/// A fader that comes within the tolerance of another layer's value as that layer
/// is selected, or of a stored value as that changes, is in control of it; one
/// that is further away loses control but in jump mode, unless this reading
/// takes it back.
pub proof fn law_selection_latches_nearby(
    latch: AnalogLatch,
    value: u16,
    layer: LatchLayer,
    target: u16,
)
    requires
        layer != latch.active_layer || target != latch.prev_target,
        value == latch.prev_value,
        0 < value < 4095,
    ensures
        target - latch.jitter_tolerance <= value <= target + latch.jitter_tolerance
            ==> latch.updated(value, layer, target).is_latched,
        latch.mode != TakeoverMode::Jump && !(target - latch.jitter_tolerance <= value <= target
            + latch.jitter_tolerance) ==> !latch.updated(value, layer, target).is_latched
            && latch.emits(value, layer, target) is None,
        latch.mode == TakeoverMode::Jump && (latch.is_latched || layer != latch.active_layer)
            ==> latch.updated(value, layer, target).is_latched,
{
}

/// A fader in control follows its position: it emits nothing within the
/// tolerance of the last value emitted, and its position beyond it.
pub proof fn law_latched_fader_is_followed(latch: AnalogLatch, value: u16)
    requires
        latch.is_latched,
        0 < value < 4095,
    ensures
        latch.emits(value, latch.active_layer, latch.prev_target) == (if latch.last_emitted_value
            - latch.jitter_tolerance <= value <= latch.last_emitted_value
            + latch.jitter_tolerance {
            None
        } else {
            Some(value)
        }),
        latch.updated(value, latch.active_layer, latch.prev_target).is_latched,
{
}

/// Every update takes note of the reading, the layer and the stored value, and of
/// what was emitted; the mode and the tolerance stay.
pub proof fn law_update_remembers(latch: AnalogLatch, value: u16, layer: LatchLayer, target: u16)
    ensures
        latch.updated(value, layer, target).prev_value == value,
        latch.updated(value, layer, target).active_layer == layer,
        latch.updated(value, layer, target).prev_target == target,
        latch.updated(value, layer, target).mode == latch.mode,
        latch.updated(value, layer, target).jitter_tolerance == latch.jitter_tolerance,
        latch.emits(value, layer, target) matches Some(emitted) ==> latch.updated(
            value,
            layer,
            target,
        ).last_emitted_value == emitted,
        latch.emits(value, layer, target) is None ==> latch.updated(
            value,
            layer,
            target,
        ).last_emitted_value == latch.last_emitted_value,
{
}

/// A latch takes over by pickup unless it is told otherwise, and tells positions
/// apart that are more than 25 counts, or the given tolerance, from each other.
pub proof fn law_latches_have_tolerance(
    value: u16,
    tolerance: u16,
    mode: TakeoverMode,
    usual: TakeoverMode,
    plain: AnalogLatch,
    given: AnalogLatch,
    a: int,
    b: int,
)
    requires
        call_ensures(TakeoverMode::default, (), usual),
        call_ensures(AnalogLatch::new, (value, mode), plain),
        call_ensures(AnalogLatch::with_tolerance, (value, tolerance, mode), given),
    ensures
        usual == TakeoverMode::Pickup,
        plain.near(a, b) == (-25 <= a - b <= 25),
        given.near(a, b) == (-(tolerance as int) <= a - b <= tolerance),
        plain.mode == mode && given.mode == mode,
        plain.prev_value == value && given.prev_value == value,
{
}

/// A flag selects the second layer where it is up and the main one where it is not.
pub proof fn law_flags_select_layers(alternate: bool, layer: LatchLayer)
    requires
        call_ensures(<LatchLayer as From<bool>>::from, (alternate,), layer),
    ensures
        alternate ==> layer == LatchLayer::Alt,
        !alternate ==> layer == LatchLayer::Main,
{
}

} // verus!
