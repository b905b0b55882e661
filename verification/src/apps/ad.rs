//! AD Envelope: attack and decay with a curve each, once, held or looping.
//!
//! A millisecond is handled in four steps: the gates are read, the envelope
//! rises where it is in its attack, it falls where it is in its decay, and the
//! output is set. The ramps themselves are computed outside; a step takes the
//! position of the ramp and what became of it.
use vstd::prelude::*;
use vstd::array::spec_array_update;

use crate::app::{led_set, led_unset, Action, App, Leds, MidiInput, OutJack, PortMode};
use crate::apps::parts::{byte_level, level_byte, light_or_not, lit_or_not};
use crate::latch::{AnalogLatch, LatchLayer, TakeoverMode};
use crate::midi::MidiMessage;
use crate::storage::{values_new, values_push, AppParams, AppStorage, ManagedStorage, ParamStore};
use crate::tables::Tables;
use crate::tasks::leds::Led;
use crate::types::{
    Brightness, Color, Curve, MidiChannel, MidiIn, ParamValue, Range, Value,
};
use crate::utils::{attenuate, attenuated};

verus! {

pub const CHANNELS: usize = 2;

pub const PARAMS: usize = 3;

/// The input level that counts as a gate.
pub const GATE_LEVEL: u16 = 406;

/// The shortest time of a ramp.
pub const MINISPEED: u32 = 10;

/// The parameters of the app.
#[derive(Clone, Copy, Debug, PartialEq, Eq, Structural)]
pub struct Params {
    pub midi_in: MidiIn,
    pub midi_channel: MidiChannel,
    pub retrigger: bool,
}

impl AppParams for Params {
    open spec fn read(values: Seq<Value>) -> Option<Self> {
        if values.len() < 3 {
            None
        } else {
            Some(
                Params {
                    midi_in: MidiIn::reads(values[0]),
                    midi_channel: MidiChannel::reads(values[1]),
                    retrigger: bool::reads(values[2]),
                },
            )
        }
    }

    open spec fn listing(self) -> Seq<Value> {
        seq![
            self.midi_in.stored(),
            self.midi_channel.stored(),
            self.retrigger.stored(),
        ]
    }

    fn from_values(values: &[Value]) -> (r: Option<Self>) {
        if values.len() < PARAMS {
            return None;
        }
        Some(
            Params {
                midi_in: MidiIn::from_value(values[0]),
                midi_channel: MidiChannel::from_value(values[1]),
                retrigger: bool::from_value(values[2]),
            },
        )
    }

    fn to_values(&self) -> (r: heapless::Vec<Value, 16>) {
        let mut vec = values_new();
        let _ = values_push(&mut vec, self.midi_in.into_value());
        let _ = values_push(&mut vec, self.midi_channel.into_value());
        let _ = values_push(&mut vec, self.retrigger.into_value());
        vec
    }

    proof fn law_params_round_trip(self) {
    }
}

/// What the app keeps. The modes are: 0 once, 1 held, 2 looping.
#[derive(Clone, Copy)]
pub struct Storage {
    pub fader_saved: [u16; 2],
    pub curve_saved: [Curve; 2],
    pub mode_saved: u8,
    pub att_saved: u16,
    pub min_gate_saved: u16,
}

impl Default for Storage {
    fn default() -> (r: Self)
        ensures
            r.fader_saved@ == seq![2000u16, 2000],
            r.curve_saved@ == seq![Curve::Linear, Curve::Linear],
            r.mode_saved == 0,
            r.att_saved == 4095,
            r.min_gate_saved == 1,
            r.wf(),
    {
        Storage {
            fader_saved: [2000, 2000],
            curve_saved: [Curve::Linear, Curve::Linear],
            mode_saved: 0,
            att_saved: 4095,
            min_gate_saved: 1,
        }
    }
}

impl AppStorage for Storage {

}

impl Storage {
    pub open spec fn wf(self) -> bool {
        self.mode_saved < 3
    }
}

/// The parameters that the app starts with: no MIDI input.
pub open spec fn initial_params() -> Params {
    Params {
        midi_in: (MidiIn { usb: false, din: false }),
        midi_channel: MidiChannel(1),
        retrigger: false,
    }
}

/// The parameters and the storage of the app, before anything was loaded.
pub fn wrapper(app: App<2>) -> (r: (ParamStore<Params>, ManagedStorage<Storage>))
    ensures
        r.0 == (ParamStore {
            app_id: app.app_id,
            inner: initial_params(),
            layout_id: app.layout_id,
        }),
        r.1.app_id == app.app_id,
        r.1.layout_id == app.layout_id,
        call_ensures(Storage::default, (), r.1.inner),
{
    (
        ParamStore::new(
            app.app_id,
            app.layout_id,
            Params {
                midi_in: MidiIn { usb: false, din: false },
                midi_channel: MidiChannel::default(),
                retrigger: false,
            },
        ),
        ManagedStorage::new(app.app_id, app.layout_id),
    )
}

/// The color of a curve or a mode.
pub open spec fn color_at(index: int) -> Color {
    if index == 0 {
        Color::Yellow
    } else if index == 1 {
        Color::Cyan
    } else {
        Color::Pink
    }
}

fn color_of(index: usize) -> (r: Color)
    ensures
        r == color_at(index as int),
{
    match index {
        0 => Color::Yellow,
        1 => Color::Cyan,
        _ => Color::Pink,
    }
}

/// The time of a ramp, by the position of the fader on its curve.
pub open spec fn ramp_time(tables: Tables, fader: u16) -> u32 {
    (tables.curve(Curve::Exponential, fader as int) + 10) as u32
}

fn find_ramp_time(tables: &Tables, fader: u16) -> (r: u32)
    requires
        tables.wf(),
    ensures
        r == ramp_time(*tables, fader),
        r >= MINISPEED,
{
    tables.curve_at(Curve::Exponential, fader) as u32 + MINISPEED
}

/// A count with one less, down to none.
pub open spec fn one_less(count: i32) -> i32 {
    if count > 0 {
        (count - 1) as i32
    } else {
        0
    }
}

fn decrement(count: i32) -> (r: i32)
    ensures
        r == one_less(count),
        r >= 0,
{
    if count > 0 {
        count - 1
    } else {
        0
    }
}

/// The time between two counts of a clock that starts over after its last one.
pub open spec fn elapsed(now: u32, since: u32) -> int {
    if now >= since {
        now - since
    } else {
        now - since + 0x1_0000_0000
    }
}

/// The part of a millisecond that the envelope is in.
#[derive(Clone, Copy, Debug, PartialEq, Eq, Structural)]
pub enum EnvState {
    Idle,
    Attack,
    Decay,
}

/// What is read once per millisecond: the shift button, the first button, and the input.
#[derive(Clone, Copy, Debug, PartialEq, Eq, Structural)]
pub struct Inputs {
    pub shift: bool,
    pub button: bool,
    pub raw: u16,
}

/// What an event brings.
pub enum Event {
    /// A millisecond has gone by: first, the gates are read.
    Gates(Inputs),
    /// The attack has moved to a position, and whether that was past the top.
    Rise { position: u16, past_top: bool },
    /// The decay has moved to a position, whether that was below zero, and whether
    /// it is at zero now.
    Fall { position: u16, below_zero: bool, at_zero: bool },
    /// Last in a millisecond, the output is set.
    Output(Inputs),
    /// A fader was moved to a value.
    Fader { chan: usize, value: u16 },
    /// A button was pressed.
    Down { chan: usize, shift: bool },
    /// A MIDI message.
    Midi(MidiMessage),
    /// A scene was loaded into the storage.
    LoadScene(Storage),
    /// A scene is to be saved.
    SaveScene(u8),
}

/// The running app. `gate_on` counts what holds the envelope open. `times` are the
/// times of both ramps, `fader_times` those that the faders have set.
pub struct AdEnvelope {
    pub start_channel: usize,
    pub params: Params,
    pub storage: Storage,
    pub times: [u32; 2],
    pub fader_times: [u32; 2],
    pub latch_layer: LatchLayer,
    pub latch: [AnalogLatch; 2],
    pub gate_on: i32,
    pub oldinputval: u16,
    pub env_state: EnvState,
    pub outval: u16,
    pub old_gate: bool,
    pub button_old: bool,
    pub timer: u32,
    pub start_time: u32,
    pub trigger_to_gate: bool,
}

impl AdEnvelope {
    /// Whether the settings and the count of gates are in range.
    pub open spec fn wf(self) -> bool {
        &&& self.start_channel + 2 <= 16
        &&& self.storage.wf()
        &&& self.gate_on >= 0
    }

    pub open spec fn second(self) -> usize {
        (self.start_channel + 1) as usize
    }

    /// The LEDs of the two buttons in the colors of the curves.
    pub open spec fn curve_leds(self, storage: Storage) -> Seq<Action> {
        seq![
            led_set(
                self.start_channel,
                Led::Button,
                color_at(storage.curve_saved[0].index()),
                Brightness::Mid,
            ),
            led_set(
                self.second(),
                Led::Button,
                color_at(storage.curve_saved[1].index()),
                Brightness::Mid,
            ),
        ]
    }

    fn show_curves(&self, actions: &mut Vec<Action>)
        requires
            self.wf(),
        ensures
            final(actions)@ == old(actions)@ + self.curve_leds(self.storage),
    {
        let leds = Leds::<2>::new(self.start_channel);
        let first = color_of(self.storage.curve_saved[0].to_index());
        let second = color_of(self.storage.curve_saved[1].to_index());
        actions.push(leds.set(0, Led::Button, first, Brightness::Mid));
        actions.push(leds.set(1, Led::Button, second, Brightness::Mid));
    }

    /// The times of both ramps by what is stored.
    pub open spec fn stored_times(storage: Storage, tables: Tables) -> [u32; 2] {
        [
            ramp_time(tables, storage.fader_saved[0]),
            ramp_time(tables, storage.fader_saved[1]),
        ]
    }

    /// The state that the app starts with.
    pub open spec fn started(
        app: App<2>,
        params: Params,
        storage: Storage,
        faders: [u16; 2],
        takeover: TakeoverMode,
        tables: Tables,
    ) -> AdEnvelope {
        AdEnvelope {
            start_channel: app.start_channel,
            params,
            storage,
            times: AdEnvelope::stored_times(storage, tables),
            fader_times: AdEnvelope::stored_times(storage, tables),
            latch_layer: LatchLayer::Main,
            latch: [
                AnalogLatch::initial(faders[0], 25, takeover),
                AnalogLatch::initial(faders[1], 25, takeover),
            ],
            gate_on: 0,
            oldinputval: 0,
            env_state: EnvState::Idle,
            outval: 0,
            old_gate: false,
            button_old: false,
            timer: 5000,
            start_time: 0,
            trigger_to_gate: false,
        }
    }

    /// Starts the app on what is stored, and tells what it listens to.
    pub fn new(
        app: App<2>,
        params: Params,
        storage: Storage,
        faders: [u16; 2],
        takeover: TakeoverMode,
        tables: &Tables,
    ) -> (r: (Self, MidiInput, Vec<Action>))
        requires
            app.wf(),
            storage.wf(),
            tables.wf(),
        ensures
            r.0 == AdEnvelope::started(app, params, storage, faders, takeover, *tables),
            r.0.wf(),
            r.1 == (MidiInput {
                midi_channel: params.midi_channel.wire(),
                din_sub: params.midi_in.din,
                usb_sub: params.midi_in.usb,
            }),
            r.2@ == seq![
                Action::Configure {
                    channel: app.start_channel,
                    mode: PortMode::Input { bipolar: false },
                    gpo_level: None,
                },
                Action::Configure {
                    channel: (app.start_channel + 1) as usize,
                    mode: PortMode::Output { bipolar: false },
                    gpo_level: None,
                },
            ] + r.0.curve_leds(storage),
    {
        let times: [u32; 2] = [
            find_ramp_time(tables, storage.fader_saved[0]),
            find_ramp_time(tables, storage.fader_saved[1]),
        ];
        let state = AdEnvelope {
            start_channel: app.start_channel,
            params,
            storage,
            times,
            fader_times: times,
            latch_layer: LatchLayer::Main,
            latch: [app.make_latch(faders[0], takeover), app.make_latch(faders[1], takeover)],
            gate_on: 0,
            oldinputval: 0,
            env_state: EnvState::Idle,
            outval: 0,
            old_gate: false,
            button_old: false,
            timer: 5000,
            start_time: 0,
            trigger_to_gate: false,
        };
        let midi_in = app.use_midi_input(params.midi_in, params.midi_channel);
        let mut actions: Vec<Action> = vec![
            app.make_in_jack(0, Range::_0_10V).1,
            app.make_out_jack(1, Range::_0_10V).1,
        ];
        state.show_curves(&mut actions);
        (state, midi_in, actions)
    }

    /// The state after the input was read: a rising gate counts one more, a
    /// falling one counts one less.
    pub open spec fn input_read(self, inputs: Inputs) -> AdEnvelope {
        let risen: i32 = if inputs.raw >= 406 && self.oldinputval < 406 {
            (self.gate_on + 1) as i32
        } else {
            self.gate_on
        };
        AdEnvelope {
            timer: if self.timer == u32::MAX {
                0
            } else {
                (self.timer + 1) as u32
            },
            latch_layer: if inputs.shift {
                LatchLayer::Alt
            } else {
                LatchLayer::Main
            },
            gate_on: if inputs.raw <= 406 && self.oldinputval > 406 {
                one_less(risen)
            } else {
                risen
            },
            oldinputval: inputs.raw,
            ..self
        }
    }

    /// The state after the count was followed: with the first one the attack
    /// begins and a trigger counts as a gate for the least time; with the last one
    /// the decay begins, where the envelope is held.
    pub open spec fn gate_followed(self) -> AdEnvelope {
        let begins = self.gate_on > 0 && !self.old_gate;
        let begun = if begins {
            AdEnvelope {
                env_state: EnvState::Attack,
                old_gate: true,
                start_time: self.timer,
                ..self
            }
        } else {
            self
        };
        let triggered = if begun.timer == begun.start_time {
            AdEnvelope { gate_on: (begun.gate_on + 1) as i32, trigger_to_gate: true, ..begun }
        } else {
            begun
        };
        let ended = if triggered.gate_on == 0 && triggered.old_gate {
            AdEnvelope {
                env_state: if triggered.storage.mode_saved == 1 {
                    EnvState::Decay
                } else {
                    triggered.env_state
                },
                old_gate: false,
                ..triggered
            }
        } else {
            triggered
        };
        if elapsed(ended.timer, ended.start_time) > ended.storage.min_gate_saved + 10
            && ended.trigger_to_gate && ended.storage.min_gate_saved != 4095 {
            AdEnvelope { gate_on: one_less(ended.gate_on), trigger_to_gate: false, ..ended }
        } else {
            ended
        }
    }

    fn read_input(&mut self, inputs: Inputs)
        requires
            old(self).wf(),
            old(self).gate_on < i32::MAX,
        ensures
            *final(self) == old(self).input_read(inputs),
            final(self).wf(),
            final(self).gate_on <= old(self).gate_on + 1,
    {
        self.timer = self.timer.wrapping_add(1);
        self.latch_layer = LatchLayer::from(inputs.shift);
        if inputs.raw >= GATE_LEVEL && self.oldinputval < GATE_LEVEL {
            self.gate_on = self.gate_on + 1;
        }
        if inputs.raw <= GATE_LEVEL && self.oldinputval > GATE_LEVEL {
            self.gate_on = decrement(self.gate_on);
        }
        self.oldinputval = inputs.raw;
    }

    fn follow_gate(&mut self)
        requires
            old(self).wf(),
            old(self).gate_on < i32::MAX,
        ensures
            *final(self) == old(self).gate_followed(),
            final(self).wf(),
    {
        if self.gate_on > 0 && !self.old_gate {
            self.env_state = EnvState::Attack;
            self.old_gate = true;
            self.start_time = self.timer;
        }
        if self.timer == self.start_time {
            self.gate_on = self.gate_on + 1;
            self.trigger_to_gate = true;
        }
        if self.gate_on == 0 && self.old_gate {
            if self.storage.mode_saved == 1 {
                self.env_state = EnvState::Decay;
            }
            self.old_gate = false;
        }
        let min_gate: u32 = self.storage.min_gate_saved as u32;
        let passed: u32 = self.timer.wrapping_sub(self.start_time);
        if passed > min_gate + 10 && self.trigger_to_gate && min_gate != 4095 {
            self.gate_on = decrement(self.gate_on);
            self.trigger_to_gate = false;
        }
    }

    /// Reads the gates, first in a millisecond.
    pub fn read_gates(&mut self, inputs: Inputs)
        requires
            old(self).wf(),
            old(self).gate_on <= i32::MAX - 2,
        ensures
            *final(self) == old(self).input_read(inputs).gate_followed(),
            final(self).wf(),
    {
        self.read_input(inputs);
        self.follow_gate();
    }

    /// The part that the envelope is in.
    pub fn phase(&self) -> (r: EnvState)
        ensures
            r == self.env_state,
    {
        self.env_state
    }

    /// The state after the attack has moved: past the top the decay begins, unless
    /// the envelope is held.
    pub open spec fn risen(self, position: u16, past_top: bool, tables: Tables) -> AdEnvelope {
        AdEnvelope {
            env_state: if past_top && self.storage.mode_saved != 1 {
                EnvState::Decay
            } else {
                self.env_state
            },
            gate_on: if past_top && self.storage.mode_saved == 0 && self.params.retrigger {
                0
            } else {
                self.gate_on
            },
            outval: tables.curve(self.storage.curve_saved[0], position as int),
            ..self
        }
    }

    /// The attack has moved to a position.
    pub fn rise(&mut self, position: u16, past_top: bool, tables: &Tables) -> (r: Vec<Action>)
        requires
            old(self).wf(),
            tables.wf(),
        ensures
            *final(self) == old(self).risen(position, past_top, *tables),
            final(self).wf(),
            r@ == seq![
                led_set(
                    old(self).start_channel,
                    Led::Top,
                    Color::White,
                    Brightness::Custom(level_byte(final(self).outval as int)),
                ),
                led_unset(old(self).second(), Led::Top),
            ],
    {
        if past_top {
            if self.storage.mode_saved != 1 {
                self.env_state = EnvState::Decay;
            }
            if self.storage.mode_saved == 0 && self.params.retrigger {
                self.gate_on = 0;
            }
        }
        self.outval = tables.curve_at(self.storage.curve_saved[0], position);
        let leds = Leds::<2>::new(self.start_channel);
        let level: u8 = byte_level(self.outval);
        vec![
            leds.set(0, Led::Top, Color::White, Brightness::Custom(level)),
            leds.unset(1, Led::Top),
        ]
    }

    /// The state after the decay has moved: below zero it is over, and at zero it
    /// begins anew where the envelope loops and is held open.
    pub open spec fn fallen(
        self,
        position: u16,
        below_zero: bool,
        at_zero: bool,
        tables: Tables,
    ) -> AdEnvelope {
        AdEnvelope {
            env_state: if at_zero && self.storage.mode_saved == 2 && self.gate_on != 0 {
                EnvState::Attack
            } else if below_zero {
                EnvState::Idle
            } else {
                self.env_state
            },
            outval: tables.curve(self.storage.curve_saved[1], position as int),
            ..self
        }
    }

    /// The decay has moved to a position.
    pub fn fall(&mut self, position: u16, below_zero: bool, at_zero: bool, tables: &Tables) -> (r:
        Vec<Action>)
        requires
            old(self).wf(),
            tables.wf(),
        ensures
            *final(self) == old(self).fallen(position, below_zero, at_zero, *tables),
            final(self).wf(),
            r@ == seq![
                led_unset(old(self).start_channel, Led::Top),
                led_set(
                    old(self).second(),
                    Led::Top,
                    Color::White,
                    Brightness::Custom(level_byte(final(self).outval as int)),
                ),
            ],
    {
        if below_zero {
            self.env_state = EnvState::Idle;
        }
        self.outval = tables.curve_at(self.storage.curve_saved[1], position);
        if at_zero && self.storage.mode_saved == 2 && self.gate_on != 0 {
            self.env_state = EnvState::Attack;
        }
        let leds = Leds::<2>::new(self.start_channel);
        let level: u8 = byte_level(self.outval);
        vec![
            leds.unset(0, Led::Top),
            leds.set(1, Led::Top, Color::White, Brightness::Custom(level)),
        ]
    }

    /// The state after the output was set. The output is attenuated anew in every
    /// millisecond; letting go of the first button with shift ends a gate.
    pub open spec fn put_out(self, inputs: Inputs) -> AdEnvelope {
        AdEnvelope {
            outval: (attenuated(self.outval as int, self.storage.att_saved as int) % 65536) as u16,
            gate_on: if self.button_old && !inputs.button && inputs.shift {
                one_less(self.gate_on)
            } else {
                self.gate_on
            },
            button_old: inputs.button,
            ..self
        }
    }

    /// The LEDs while the settings are edited: the mode, the attenuation, and a
    /// blinking light for the least length of a gate.
    pub open spec fn setting_leds(self) -> Seq<Action> {
        let length = self.storage.min_gate_saved + 10;
        seq![
            led_set(
                self.second(),
                Led::Button,
                color_at(self.storage.mode_saved as int),
                Brightness::Mid,
            ),
            led_set(
                self.second(),
                Led::Top,
                Color::Red,
                Brightness::Custom(level_byte(self.storage.att_saved as int)),
            ),
            lit_or_not(
                self.start_channel,
                Led::Top,
                self.timer as int % length + 200 < length,
                Color::Red,
                Brightness::High,
            ),
        ]
    }

    /// The LEDs while the envelope is shown: the curves, and dark ramps at rest.
    pub open spec fn ramp_leds(self, outval: int) -> Seq<Action> {
        let curves = self.curve_leds(self.storage);
        if outval == 0 {
            seq![
                curves[0],
                led_unset(self.start_channel, Led::Top),
                curves[1],
                led_unset(self.second(), Led::Top),
            ]
        } else {
            curves
        }
    }

    /// What setting the output sets off.
    pub open spec fn out_actions(self, inputs: Inputs) -> Seq<Action> {
        let after = self.put_out(inputs);
        seq![Action::Dac { channel: self.second(), value: after.outval }] + (
        if self.latch_layer == LatchLayer::Alt {
            self.setting_leds()
        } else {
            self.ramp_leds(after.outval as int)
        }) + seq![
            led_set(
                self.start_channel,
                Led::Bottom,
                Color::Red,
                if self.gate_on > 0 {
                    Brightness::High
                } else {
                    Brightness::Mid
                },
            ),
        ]
    }

    fn push_settings(&self, actions: &mut Vec<Action>)
        requires
            self.wf(),
        ensures
            final(actions)@ == old(actions)@ + self.setting_leds(),
    {
        let leds = Leds::<2>::new(self.start_channel);
        let color = color_of(self.storage.mode_saved as usize);
        actions.push(leds.set(1, Led::Button, color, Brightness::Mid));
        let att: u8 = byte_level(self.storage.att_saved);
        actions.push(leds.set(1, Led::Top, Color::Red, Brightness::Custom(att)));
        let length: u32 = self.storage.min_gate_saved as u32 + 10;
        let lit = self.timer % length + 200 < length;
        actions.push(
            light_or_not(self.start_channel, Led::Top, lit, Color::Red, Brightness::High),
        );
    }

    fn push_ramps(&self, actions: &mut Vec<Action>)
        requires
            self.wf(),
        ensures
            final(actions)@ == old(actions)@ + self.ramp_leds(self.outval as int),
    {
        let leds = Leds::<2>::new(self.start_channel);
        let first = color_of(self.storage.curve_saved[0].to_index());
        let second = color_of(self.storage.curve_saved[1].to_index());
        actions.push(leds.set(0, Led::Button, first, Brightness::Mid));
        if self.outval == 0 {
            actions.push(leds.unset(0, Led::Top));
        }
        actions.push(leds.set(1, Led::Button, second, Brightness::Mid));
        if self.outval == 0 {
            actions.push(leds.unset(1, Led::Top));
        }
    }

    /// Sets the output, last in a millisecond.
    pub fn put(&mut self, inputs: Inputs) -> (r: Vec<Action>)
        requires
            old(self).wf(),
        ensures
            *final(self) == old(self).put_out(inputs),
            final(self).wf(),
            r@ == old(self).out_actions(inputs),
    {
        let leds = Leds::<2>::new(self.start_channel);
        let mut actions: Vec<Action> = Vec::new();
        self.outval = attenuate(self.outval, self.storage.att_saved);
        actions.push(OutJack::new(self.start_channel + 1, Range::_0_10V).set_value(self.outval));
        if self.latch_layer == LatchLayer::Alt {
            self.push_settings(&mut actions);
        } else {
            self.push_ramps(&mut actions);
        }
        let bright = if self.gate_on > 0 {
            Brightness::High
        } else {
            Brightness::Mid
        };
        actions.push(leds.set(0, Led::Bottom, Color::Red, bright));
        if self.button_old && !inputs.button && inputs.shift {
            self.gate_on = decrement(self.gate_on);
        }
        self.button_old = inputs.button;
        actions
    }

    /// The stored value that a fader edits: the time of a ramp, or the least
    /// length of a gate and the attenuation.
    pub open spec fn fader_target(self, chan: int) -> u16 {
        match self.latch_layer {
            LatchLayer::Main => self.storage.fader_saved[chan],
            LatchLayer::Alt => if chan == 0 {
                self.storage.min_gate_saved
            } else {
                self.storage.att_saved
            },
            LatchLayer::Third => 0,
        }
    }

    /// The state after a fader was moved. The time of a ramp follows the fader
    /// itself.
    pub open spec fn fader_moved(self, chan: int, value: u16, tables: Tables) -> AdEnvelope {
        let latch = self.latch[chan];
        let target = self.fader_target(chan);
        let latched = AdEnvelope {
            latch: spec_array_update(
                self.latch,
                chan,
                latch.updated(value, self.latch_layer, target),
            ),
            ..self
        };
        match latch.emits(value, self.latch_layer, target) {
            Some(new_value) => match self.latch_layer {
                LatchLayer::Main => {
                    let times = spec_array_update(
                        self.fader_times,
                        chan,
                        ramp_time(tables, value),
                    );
                    AdEnvelope {
                        times,
                        fader_times: times,
                        storage: Storage {
                            fader_saved: spec_array_update(
                                self.storage.fader_saved,
                                chan,
                                new_value,
                            ),
                            ..self.storage
                        },
                        ..latched
                    }
                },
                LatchLayer::Alt => AdEnvelope {
                    storage: if chan == 0 {
                        Storage { min_gate_saved: new_value, ..self.storage }
                    } else {
                        Storage { att_saved: new_value, ..self.storage }
                    },
                    ..latched
                },
                LatchLayer::Third => latched,
            },
            None => latched,
        }
    }

    /// A fader that changes a value asks for it to be saved.
    pub open spec fn fader_actions(self, chan: int, value: u16) -> Seq<Action> {
        if self.latch[chan].emits(value, self.latch_layer, self.fader_target(chan)) is Some
            && self.latch_layer != LatchLayer::Third {
            seq![Action::Save]
        } else {
            Seq::empty()
        }
    }

    /// A fader was moved.
    pub fn fader_handler(&mut self, chan: usize, value: u16, tables: &Tables) -> (r: Vec<Action>)
        requires
            old(self).wf(),
            tables.wf(),
            chan < 2,
        ensures
            *final(self) == old(self).fader_moved(chan as int, value, *tables),
            final(self).wf(),
            r@ == old(self).fader_actions(chan as int, value),
    {
        let mut actions: Vec<Action> = Vec::new();
        let layer = self.latch_layer;
        let target: u16 = match layer {
            LatchLayer::Main => self.storage.fader_saved[chan],
            LatchLayer::Alt => {
                if chan == 0 {
                    self.storage.min_gate_saved
                } else {
                    self.storage.att_saved
                }
            },
            LatchLayer::Third => 0,
        };
        let mut latch = self.latch[chan];
        let emitted = latch.update(value, layer, target);
        self.latch[chan] = latch;
        if let Some(new_value) = emitted {
            match layer {
                LatchLayer::Main => {
                    self.fader_times[chan] = find_ramp_time(tables, value);
                    self.times = self.fader_times;
                    self.storage.fader_saved[chan] = new_value;
                    actions.push(Action::Save);
                },
                LatchLayer::Alt => {
                    if chan == 0 {
                        self.storage.min_gate_saved = new_value;
                    } else {
                        self.storage.att_saved = new_value;
                    }
                    actions.push(Action::Save);
                },
                LatchLayer::Third => {},
            }
        }
        actions
    }

    /// The state after a button was pressed: the curve of its ramp cycles; with
    /// shift the second one changes the mode and the first one begins a gate.
    pub open spec fn pressed(self, chan: int, shift: bool) -> AdEnvelope {
        if !shift {
            AdEnvelope {
                storage: Storage {
                    curve_saved: spec_array_update(
                        self.storage.curve_saved,
                        chan,
                        self.storage.curve_saved[chan].next(),
                    ),
                    ..self.storage
                },
                ..self
            }
        } else if chan == 1 {
            AdEnvelope {
                storage: Storage {
                    mode_saved: ((self.storage.mode_saved + 1) % 3) as u8,
                    ..self.storage
                },
                ..self
            }
        } else {
            AdEnvelope { gate_on: (self.gate_on + 1) as i32, ..self }
        }
    }

    /// A button was pressed.
    pub fn button_handler(&mut self, chan: usize, shift: bool) -> (r: Vec<Action>)
        requires
            old(self).wf(),
            old(self).gate_on < i32::MAX,
            chan < 2,
        ensures
            *final(self) == old(self).pressed(chan as int, shift),
            final(self).wf(),
            r@ == (if !shift || chan == 1 {
                seq![Action::Save]
            } else {
                Seq::empty()
            }),
    {
        let mut actions: Vec<Action> = Vec::new();
        if !shift {
            let mut curve_setting = self.storage.curve_saved;
            curve_setting[chan] = curve_setting[chan].cycle();
            self.storage.curve_saved = curve_setting;
            actions.push(Action::Save);
        } else if chan == 1 {
            self.storage.mode_saved = (self.storage.mode_saved + 1) % 3;
            actions.push(Action::Save);
        } else {
            self.gate_on = self.gate_on + 1;
        }
        actions
    }

    /// The gates after a MIDI message. A note that begins with no velocity ends.
    pub open spec fn notes_held(self, message: MidiMessage) -> i32 {
        match message {
            MidiMessage::NoteOn { vel, .. } => if vel > 0 {
                (self.gate_on + 1) as i32
            } else {
                one_less(self.gate_on)
            },
            MidiMessage::NoteOff { .. } => one_less(self.gate_on),
            _ => self.gate_on,
        }
    }

    /// A MIDI message was received.
    pub fn midi_handler(&mut self, message: MidiMessage)
        requires
            old(self).wf(),
            old(self).gate_on < i32::MAX,
        ensures
            *final(self) == (AdEnvelope { gate_on: old(self).notes_held(message), ..*old(self) }),
            final(self).wf(),
    {
        match message {
            MidiMessage::NoteOn { vel, .. } => {
                if vel > 0 {
                    self.gate_on = self.gate_on + 1;
                } else {
                    self.gate_on = decrement(self.gate_on);
                }
            },
            MidiMessage::NoteOff { .. } => {
                self.gate_on = decrement(self.gate_on);
            },
            _ => {},
        }
    }

    /// A scene was loaded into the storage.
    pub fn load_scene(&mut self, storage: Storage, tables: &Tables) -> (r: Vec<Action>)
        requires
            old(self).wf(),
            storage.wf(),
            tables.wf(),
        ensures
            *final(self) == (AdEnvelope {
                storage,
                times: AdEnvelope::stored_times(storage, *tables),
                ..*old(self)
            }),
            final(self).wf(),
            r@ == old(self).curve_leds(storage),
    {
        self.storage = storage;
        let mut actions: Vec<Action> = Vec::new();
        self.show_curves(&mut actions);
        self.times = [
            find_ramp_time(tables, storage.fader_saved[0]),
            find_ramp_time(tables, storage.fader_saved[1]),
        ];
        actions
    }

    /// Whether an event brings what the hardware can bring, and more gates can
    /// be counted.
    pub open spec fn admits(self, event: Event) -> bool {
        &&& self.gate_on <= i32::MAX - 2
        &&& match event {
            Event::Fader { chan, .. } => chan < 2,
            Event::Down { chan, .. } => chan < 2,
            Event::LoadScene(storage) => storage.wf(),
            _ => true,
        }
    }

    /// The state after an event.
    pub open spec fn after(self, event: Event, tables: Tables) -> AdEnvelope {
        match event {
            Event::Gates(inputs) => self.input_read(inputs).gate_followed(),
            Event::Rise { position, past_top } => self.risen(position, past_top, tables),
            Event::Fall { position, below_zero, at_zero } => self.fallen(
                position,
                below_zero,
                at_zero,
                tables,
            ),
            Event::Output(inputs) => self.put_out(inputs),
            Event::Fader { chan, value } => self.fader_moved(chan as int, value, tables),
            Event::Down { chan, shift } => self.pressed(chan as int, shift),
            Event::Midi(message) => AdEnvelope { gate_on: self.notes_held(message), ..self },
            Event::LoadScene(storage) => AdEnvelope {
                storage,
                times: AdEnvelope::stored_times(storage, tables),
                ..self
            },
            Event::SaveScene(_) => self,
        }
    }

    /// What an event sets off.
    pub open spec fn does(self, event: Event, tables: Tables) -> Seq<Action> {
        match event {
            Event::Gates(_) => Seq::empty(),
            Event::Rise { position, past_top } => seq![
                led_set(
                    self.start_channel,
                    Led::Top,
                    Color::White,
                    Brightness::Custom(
                        level_byte(self.risen(position, past_top, tables).outval as int),
                    ),
                ),
                led_unset(self.second(), Led::Top),
            ],
            Event::Fall { position, below_zero, at_zero } => seq![
                led_unset(self.start_channel, Led::Top),
                led_set(
                    self.second(),
                    Led::Top,
                    Color::White,
                    Brightness::Custom(
                        level_byte(
                            self.fallen(position, below_zero, at_zero, tables).outval as int,
                        ),
                    ),
                ),
            ],
            Event::Output(inputs) => self.out_actions(inputs),
            Event::Fader { chan, value } => self.fader_actions(chan as int, value),
            Event::Down { chan, shift } => if !shift || chan == 1 {
                seq![Action::Save]
            } else {
                Seq::empty()
            },
            Event::Midi(_) => Seq::empty(),
            Event::LoadScene(storage) => self.curve_leds(storage),
            Event::SaveScene(scene) => seq![Action::SaveScene(scene)],
        }
    }

    /// Handles an event.
    pub fn run(&mut self, event: Event, tables: &Tables) -> (r: Vec<Action>)
        requires
            old(self).wf(),
            old(self).admits(event),
            tables.wf(),
        ensures
            *final(self) == old(self).after(event, *tables),
            final(self).wf(),
            r@ == old(self).does(event, *tables),
    {
        match event {
            Event::Gates(inputs) => {
                self.read_gates(inputs);
                Vec::new()
            },
            Event::Rise { position, past_top } => self.rise(position, past_top, tables),
            Event::Fall { position, below_zero, at_zero } => self.fall(
                position,
                below_zero,
                at_zero,
                tables,
            ),
            Event::Output(inputs) => self.put(inputs),
            Event::Fader { chan, value } => self.fader_handler(chan, value, tables),
            Event::Down { chan, shift } => self.button_handler(chan, shift),
            Event::Midi(message) => {
                self.midi_handler(message);
                Vec::new()
            },
            Event::LoadScene(storage) => self.load_scene(storage, tables),
            Event::SaveScene(scene) => vec![Action::SaveScene(scene)],
        }
    }
}

/// A gate that opens starts the attack, whatever the envelope was doing.
pub proof fn law_gate_starts_attack(app: AdEnvelope, inputs: Inputs)
    requires
        app.wf(),
        app.gate_on == 0,
        !app.old_gate,
        app.oldinputval < 406,
        inputs.raw > 406,
    ensures
        app.input_read(inputs).gate_followed().env_state == EnvState::Attack,
        app.input_read(inputs).gate_followed().old_gate,
{
}

/// A held envelope stays in its attack past the top; the others go on to their
/// decay.
pub proof fn law_top_ends_attack(app: AdEnvelope, position: u16, tables: Tables)
    requires
        app.env_state == EnvState::Attack,
    ensures
        app.risen(position, true, tables).env_state == (if app.storage.mode_saved == 1 {
            EnvState::Attack
        } else {
            EnvState::Decay
        }),
        app.risen(position, false, tables).env_state == EnvState::Attack,
{
}

/// Only a looping envelope with an open gate starts over at the end of its decay.
pub proof fn law_only_loops_start_over(app: AdEnvelope, position: u16, tables: Tables)
    requires
        app.env_state == EnvState::Decay,
    ensures
        app.fallen(position, true, true, tables).env_state == (if app.storage.mode_saved == 2
            && app.gate_on != 0 {
            EnvState::Attack
        } else {
            EnvState::Idle
        }),
{
}

/// The modes come back after three steps.
pub proof fn law_modes_cycle(app: AdEnvelope)
    requires
        app.wf(),
    ensures
        app.pressed(1, true).pressed(1, true).pressed(1, true) == app,
{
}

/// In every millisecond of the decay, the voltage put out is the decay curve's
/// value at the position, at the app's level, and the attack's is the attack
/// curve's. So at full level it is the table's value itself.
pub proof fn law_ramps_follow_curves(
    app: AdEnvelope,
    position: u16,
    past_top: bool,
    below_zero: bool,
    at_zero: bool,
    inputs: Inputs,
    tables: Tables,
)
    requires
        app.wf(),
        tables.wf(),
        position <= 4095,
    ensures
        ({
            let fallen = app.after(Event::Fall { position, below_zero, at_zero }, tables);
            let risen = app.after(Event::Rise { position, past_top }, tables);
            let decay = match app.storage.curve_saved[1] {
                Curve::Linear => tables.linear@[position as int],
                Curve::Logarithmic => tables.logarithmic@[position as int],
                Curve::Exponential => tables.exponential@[position as int],
            };
            let attack = match app.storage.curve_saved[0] {
                Curve::Linear => tables.linear@[position as int],
                Curve::Logarithmic => tables.logarithmic@[position as int],
                Curve::Exponential => tables.exponential@[position as int],
            };
            let down = fallen.does(Event::Output(inputs), tables)[0];
            let up = risen.does(Event::Output(inputs), tables)[0];
            &&& app.storage.att_saved == 4095 ==> down == (Action::Dac {
                channel: (app.start_channel + 1) as usize,
                value: decay,
            })
            &&& app.storage.att_saved == 4095 ==> up == (Action::Dac {
                channel: (app.start_channel + 1) as usize,
                value: attack,
            })
            &&& app.storage.att_saved <= 4095 ==> (down matches Action::Dac { channel, value }
                && channel == app.start_channel + 1 && 4095 * value <= decay * app.storage.att_saved
                < 4095 * value + 4095)
            &&& app.storage.att_saved <= 4095 ==> (up matches Action::Dac { channel, value }
                && channel == app.start_channel + 1 && 4095 * value <= attack
                * app.storage.att_saved < 4095 * value + 4095)
        }),
{
    let fallen = app.after(Event::Fall { position, below_zero, at_zero }, tables);
    let risen = app.after(Event::Rise { position, past_top }, tables);
    let att = app.storage.att_saved as int;
    crate::utils::law_attenuate_ends(fallen.outval as int, 4095);
    crate::utils::law_attenuate_ends(risen.outval as int, 4095);
    if att <= 4095 {
        crate::utils::law_attenuate_ends(fallen.outval as int, att);
        crate::utils::law_attenuate_ends(risen.outval as int, att);
    }
}

/// Where both curves are linear, as in a table that gives every position back,
/// and the level is full, the voltage put out is the position.
pub proof fn law_linear_ramps_put_out_position(
    app: AdEnvelope,
    position: u16,
    inputs: Inputs,
    tables: Tables,
)
    requires
        app.wf(),
        tables.wf(),
        position <= 4095,
        forall|i: int| 0 <= i < 4096 ==> #[trigger] tables.linear@[i] == i,
        app.storage.curve_saved[0] == Curve::Linear,
        app.storage.curve_saved[1] == Curve::Linear,
        app.storage.att_saved == 4095,
    ensures
        app.after(
            Event::Fall { position, below_zero: false, at_zero: false },
            tables,
        ).does(Event::Output(inputs), tables)[0] == (Action::Dac {
            channel: (app.start_channel + 1) as usize,
            value: position,
        }),
        app.after(Event::Rise { position, past_top: false }, tables).does(
            Event::Output(inputs),
            tables,
        )[0] == (Action::Dac { channel: (app.start_channel + 1) as usize, value: position }),
{
    law_ramps_follow_curves(app, position, false, false, false, inputs, tables);
}

/// On a curve that rises, a higher position never puts out a lower voltage, in the
/// attack as in the decay, at any level.
pub proof fn law_ramps_are_ordered(
    app: AdEnvelope,
    low: u16,
    high: u16,
    inputs: Inputs,
    tables: Tables,
)
    requires
        app.wf(),
        tables.wf(),
        low <= high <= 4095,
        app.storage.att_saved <= 4095,
        forall|i: int, j: int|
            0 <= i <= j < 4096 ==> #[trigger] tables.of_curve(app.storage.curve_saved[0])[i]
                <= #[trigger] tables.of_curve(app.storage.curve_saved[0])[j],
        forall|i: int, j: int|
            0 <= i <= j < 4096 ==> #[trigger] tables.of_curve(app.storage.curve_saved[1])[i]
                <= #[trigger] tables.of_curve(app.storage.curve_saved[1])[j],
    ensures
        ({
            let fall = |position: u16|
                app.after(
                    Event::Fall { position, below_zero: false, at_zero: false },
                    tables,
                ).does(Event::Output(inputs), tables)[0];
            let rise = |position: u16|
                app.after(Event::Rise { position, past_top: false }, tables).does(
                    Event::Output(inputs),
                    tables,
                )[0];
            &&& fall(low) is Dac && fall(high) is Dac && fall(low)->Dac_value <= fall(
                high,
            )->Dac_value
            &&& rise(low) is Dac && rise(high) is Dac && rise(low)->Dac_value <= rise(
                high,
            )->Dac_value
        }),
{
    let att = app.storage.att_saved as int;
    let f = |position: u16|
        app.after(Event::Fall { position, below_zero: false, at_zero: false }, tables).outval;
    let r = |position: u16| app.after(Event::Rise { position, past_top: false }, tables).outval;
    assert(f(low) <= f(high));
    assert(r(low) <= r(high));
    crate::utils::law_attenuate_is_proportional(att, f(low) as int, f(high) as int);
    crate::utils::law_attenuate_is_proportional(att, r(low) as int, r(high) as int);
    crate::utils::lemma_attenuated_bound(f(high) as int, att);
    crate::utils::lemma_attenuated_bound(r(high) as int, att);
    crate::utils::lemma_attenuated_bound(f(low) as int, att);
    crate::utils::lemma_attenuated_bound(r(low) as int, att);
}

/// A ramp that moves leaves everything but the output, the phase and, past the
/// top, the gates alone; a moving attack or decay goes on as it is.
pub proof fn law_ramps_go_on(app: AdEnvelope, position: u16, tables: Tables)
    ensures
        ({
            let up = app.after(Event::Rise { position, past_top: false }, tables);
            let down = app.after(
                Event::Fall { position, below_zero: false, at_zero: false },
                tables,
            );
            &&& up == (AdEnvelope { outval: up.outval, ..app })
            &&& down == (AdEnvelope { outval: down.outval, ..app })
        }),
{
}

/// Past the top, an envelope that runs once or loops begins its decay and one that
/// is held stays; where retriggering is on, one that runs once forgets its gates.
/// Below zero the decay is over. At zero a looping envelope with an open gate
/// begins its attack.
pub proof fn law_phases(app: AdEnvelope, position: u16, tables: Tables)
    requires
        app.storage.wf(),
    ensures
        ({
            let top = app.after(Event::Rise { position, past_top: true }, tables);
            let end = app.after(
                Event::Fall { position, below_zero: true, at_zero: true },
                tables,
            );
            let mode = app.storage.mode_saved;
            &&& mode == 0 || mode == 2 ==> top.env_state == EnvState::Decay
            &&& mode == 1 ==> top.env_state == app.env_state
            &&& mode == 0 && app.params.retrigger ==> top.gate_on == 0
            &&& mode != 0 || !app.params.retrigger ==> top.gate_on == app.gate_on
            &&& mode == 2 && app.gate_on != 0 ==> end.env_state == EnvState::Attack
            &&& mode != 2 || app.gate_on == 0 ==> end.env_state == EnvState::Idle
            &&& end.gate_on == app.gate_on
        }),
{
}

/// An input that rises to the level of a gate counts one more, and one that falls
/// below it counts one less; the first gate starts the attack and is kept open
/// for the least time. Where the envelope is held, the last one to go starts the
/// decay.
pub proof fn law_inputs_gate_the_envelope(app: AdEnvelope, inputs: Inputs, tables: Tables)
    requires
        app.wf(),
        app.gate_on < 1000,
        app.storage.min_gate_saved < 4095,
    ensures
        ({
            let after = app.after(Event::Gates(inputs), tables);
            let opens = inputs.raw > 406 && app.oldinputval < 406;
            let closes = inputs.raw < 406 && app.oldinputval > 406;
            &&& after.oldinputval == inputs.raw
            &&& after.latch_layer == (if inputs.shift {
                LatchLayer::Alt
            } else {
                LatchLayer::Main
            })
            &&& opens && !app.old_gate ==> after.env_state == EnvState::Attack && after.old_gate
                && after.trigger_to_gate && after.gate_on == app.gate_on + 2 && after.start_time
                == after.timer
            &&& app.gate_on == 1 && closes && app.old_gate && after.timer != app.start_time
                && !app.trigger_to_gate ==> after.gate_on == 0 && !after.old_gate
                && after.env_state == (if app.storage.mode_saved == 1 {
                EnvState::Decay
            } else {
                app.env_state
            })
            &&& !opens && !closes && (inputs.raw == 406) == (app.oldinputval == 406)
                && app.old_gate == (app.gate_on > 0) && after.timer != app.start_time
                && !app.trigger_to_gate ==> after.gate_on == app.gate_on && after.env_state
                == app.env_state && after.old_gate == app.old_gate
        }),
{
}

/// A trigger holds its gate open until the least time of a gate has gone by, and
/// no longer.
pub proof fn law_triggers_end(app: AdEnvelope, inputs: Inputs, tables: Tables)
    requires
        app.wf(),
        0 < app.gate_on < 1000,
        app.old_gate,
        app.trigger_to_gate,
        app.oldinputval == inputs.raw,
        app.start_time <= app.timer < u32::MAX,
        app.storage.min_gate_saved < 4095,
    ensures
        ({
            let after = app.after(Event::Gates(inputs), tables);
            let passed = app.timer + 1 - app.start_time;
            &&& after.timer == app.timer + 1
            &&& passed > app.storage.min_gate_saved + 10 ==> after.gate_on == app.gate_on - 1
                && !after.trigger_to_gate
            &&& passed <= app.storage.min_gate_saved + 10 ==> after.gate_on == app.gate_on
                && after.trigger_to_gate
        }),
{
}

/// A note that begins counts one gate more and one that ends one less, whatever
/// the key; so notes that begin and end leave the gates as they were. A note
/// without velocity ends one. Nothing else counts.
pub proof fn law_notes_gate_the_envelope(
    app: AdEnvelope,
    key: u8,
    vel: u8,
    message: MidiMessage,
    tables: Tables,
)
    requires
        app.wf(),
        app.gate_on < 1000,
    ensures
        ({
            let on = app.after(Event::Midi(MidiMessage::NoteOn { key, vel }), tables);
            let off = app.after(Event::Midi(MidiMessage::NoteOff { key, vel }), tables);
            &&& vel > 0 ==> on.gate_on == app.gate_on + 1
            &&& vel == 0 ==> on == off
            &&& app.gate_on > 0 ==> off.gate_on == app.gate_on - 1
            &&& app.gate_on == 0 ==> off.gate_on == 0
            &&& vel > 0 ==> on.after(
                Event::Midi(MidiMessage::NoteOff { key, vel }),
                tables,
            ) == app
            &&& !(message is NoteOn) && !(message is NoteOff) ==> app.after(
                Event::Midi(message),
                tables,
            ) == app
        }),
{
}

/// The first button with shift counts a gate while it is held.
pub proof fn law_button_gates_the_envelope(app: AdEnvelope, raw: u16, tables: Tables)
    requires
        app.wf(),
        app.gate_on < 1000,
        app.button_old,
    ensures
        app.after(Event::Down { chan: 0, shift: true }, tables) == (AdEnvelope {
            gate_on: (app.gate_on + 1) as i32,
            ..app
        }),
        app.gate_on > 0 ==> app.after(
            Event::Output(Inputs { shift: true, button: false, raw }),
            tables,
        ).gate_on == app.gate_on - 1,
        app.after(Event::Output(Inputs { shift: true, button: true, raw }), tables).gate_on
            == app.gate_on,
        app.after(Event::Output(Inputs { shift: false, button: false, raw }), tables).gate_on
            == app.gate_on,
{
}

/// Without shift a button steps the curve of its ramp, and leaves that of the
/// other; with shift the second button steps the mode. Both are saved.
pub proof fn law_buttons_step_curves_and_mode(app: AdEnvelope, chan: usize, tables: Tables)
    requires
        app.wf(),
        chan < 2,
    ensures
        ({
            let curves = app.after(Event::Down { chan, shift: false }, tables).storage.curve_saved;
            let mode = app.after(Event::Down { chan: 1, shift: true }, tables).storage;
            &&& curves[chan as int] == (match app.storage.curve_saved[chan as int] {
                Curve::Linear => Curve::Logarithmic,
                Curve::Logarithmic => Curve::Exponential,
                Curve::Exponential => Curve::Linear,
            })
            &&& curves[1 - chan] == app.storage.curve_saved[1 - chan]
            &&& mode.mode_saved == (if app.storage.mode_saved == 2 {
                0
            } else {
                app.storage.mode_saved + 1
            })
            &&& mode.curve_saved == app.storage.curve_saved
            &&& app.does(Event::Down { chan, shift: false }, tables) == seq![Action::Save]
            &&& app.does(Event::Down { chan: 1, shift: true }, tables) == seq![Action::Save]
        }),
{
}

/// A fader that has a value to give stores it and asks for it to be saved: on the
/// main layer as the position of its ramp, whose time becomes ten more than the
/// exponential curve at the fader, on the second one as the least time of a gate
/// or as the level. Otherwise nothing is stored.
pub proof fn law_faders_set_times_and_levels(
    app: AdEnvelope,
    chan: usize,
    value: u16,
    tables: Tables,
)
    requires
        app.wf(),
        tables.wf(),
        chan < 2,
        value <= 4095,
        app.latch_layer != LatchLayer::Third,
    ensures
        ({
            let at = chan as int;
            let target = match app.latch_layer {
                LatchLayer::Main => app.storage.fader_saved[at],
                _ => if chan == 0 {
                    app.storage.min_gate_saved
                } else {
                    app.storage.att_saved
                },
            };
            let event = Event::Fader { chan, value };
            let after = app.after(event, tables);
            let emitted = app.latch[at].emits(value, app.latch_layer, target);
            &&& emitted is None ==> after.storage == app.storage && after.times == app.times
                && app.does(event, tables).len() == 0
            &&& emitted matches Some(v) ==> {
                &&& app.does(event, tables) == seq![Action::Save]
                &&& app.latch_layer == LatchLayer::Main ==> after.storage.fader_saved[at] == v
                    && after.times[at] == tables.exponential@[value as int] + 10
                    && after.storage.fader_saved[1 - at] == app.storage.fader_saved[1 - at]
                    && after.storage.att_saved == app.storage.att_saved
                &&& app.latch_layer == LatchLayer::Alt && chan == 0
                    ==> after.storage.min_gate_saved == v && after.storage.att_saved
                    == app.storage.att_saved && after.times == app.times
                &&& app.latch_layer == LatchLayer::Alt && chan == 1 ==> after.storage.att_saved == v
                    && after.storage.min_gate_saved == app.storage.min_gate_saved && after.times
                    == app.times
            }
            &&& after.latch[at] == app.latch[at].updated(value, app.latch_layer, target)
            &&& after.latch[1 - at] == app.latch[1 - at]
        }),
{
}

/// The app starts with the times that are stored, and a scene brings its own: ten
/// more than the exponential curve at the stored position of the ramp.
pub proof fn law_times_are_stored(
    app: AdEnvelope,
    unit: App<2>,
    params: Params,
    storage: Storage,
    faders: [u16; 2],
    takeover: TakeoverMode,
    tables: Tables,
    at: int,
)
    requires
        tables.wf(),
        0 <= at < 2,
        storage.fader_saved[at] <= 4095,
    ensures
        AdEnvelope::started(unit, params, storage, faders, takeover, tables).times[at]
            == tables.exponential@[storage.fader_saved[at] as int] + 10,
        app.after(Event::LoadScene(storage), tables).times[at]
            == tables.exponential@[storage.fader_saved[at] as int] + 10,
        app.after(Event::LoadScene(storage), tables).storage == storage,
        AdEnvelope::started(unit, params, storage, faders, takeover, tables).storage == storage,
        AdEnvelope::started(unit, params, storage, faders, takeover, tables).env_state
            == EnvState::Idle,
        AdEnvelope::started(unit, params, storage, faders, takeover, tables).gate_on == 0,
{
}

/// A ramp is shown in white on the upper LED of its own channel, as bright as the
/// output, and the other channel's is dark; a scene brings the colors of its curves.
pub proof fn law_ramps_are_shown(
    app: AdEnvelope,
    position: u16,
    done: bool,
    at_zero: bool,
    storage: Storage,
    tables: Tables,
)
    requires
        app.wf(),
    ensures
        ({
            let rise = Event::Rise { position, past_top: done };
            let fall = Event::Fall { position, below_zero: done, at_zero };
            let first = app.start_channel;
            let second = (app.start_channel + 1) as usize;
            &&& app.does(rise, tables) == seq![
                led_set(
                    first,
                    Led::Top,
                    Color::White,
                    Brightness::Custom(level_byte(app.after(rise, tables).outval as int)),
                ),
                led_unset(second, Led::Top),
            ]
            &&& app.does(fall, tables) == seq![
                led_unset(first, Led::Top),
                led_set(
                    second,
                    Led::Top,
                    Color::White,
                    Brightness::Custom(level_byte(app.after(fall, tables).outval as int)),
                ),
            ]
            &&& app.does(Event::LoadScene(storage), tables) == seq![
                led_set(
                    first,
                    Led::Button,
                    color_at(storage.curve_saved[0].index()),
                    Brightness::Mid,
                ),
                led_set(
                    second,
                    Led::Button,
                    color_at(storage.curve_saved[1].index()),
                    Brightness::Mid,
                ),
            ]
        }),
{
}

/// The output is set on the second channel. The buttons show the curves, and dark
/// ramps where the output is zero; with shift the mode, the level and the least
/// length of a gate are shown. The lower LED of the first channel is brighter while
/// a gate is on.
pub proof fn law_output_is_shown(app: AdEnvelope, inputs: Inputs, tables: Tables, into: int, k: int)
    requires
        app.wf(),
        0 <= k,
        0 <= into < app.storage.min_gate_saved + 10,
        app.timer == k * (app.storage.min_gate_saved + 10) + into,
    ensures
        ({
            let event = Event::Output(inputs);
            let actions = app.does(event, tables);
            let out = app.after(event, tables).outval;
            let first = app.start_channel;
            let second = (app.start_channel + 1) as usize;
            let alt = app.latch_layer == LatchLayer::Alt;
            let length = app.storage.min_gate_saved + 10;
            let curves = app.storage.curve_saved;
            &&& actions[0] == (Action::Dac { channel: second, value: out })
            &&& actions.last() == led_set(
                first,
                Led::Bottom,
                Color::Red,
                if app.gate_on > 0 {
                    Brightness::High
                } else {
                    Brightness::Mid
                },
            )
            &&& alt ==> actions[1] == led_set(
                second,
                Led::Button,
                color_at(app.storage.mode_saved as int),
                Brightness::Mid,
            ) && actions[2] == led_set(
                second,
                Led::Top,
                Color::Red,
                Brightness::Custom(level_byte(app.storage.att_saved as int)),
            ) && actions[3] == (if into + 200 < length {
                led_set(first, Led::Top, Color::Red, Brightness::High)
            } else {
                led_unset(first, Led::Top)
            })
            &&& !alt ==> actions[1] == led_set(
                first,
                Led::Button,
                color_at(curves[0].index()),
                Brightness::Mid,
            ) && actions[if out == 0 {
                3
            } else {
                2int
            }] == led_set(second, Led::Button, color_at(curves[1].index()), Brightness::Mid)
            &&& !alt && out == 0 ==> actions[2] == led_unset(first, Led::Top) && actions[4]
                == led_unset(second, Led::Top)
        }),
{
    vstd::arithmetic::div_mod::lemma_fundamental_div_mod_converse(
        app.timer as int,
        app.storage.min_gate_saved + 10,
        k,
        into,
    );
}

/// The first curve or mode is shown in yellow, the next in cyan, the others in pink.
pub proof fn law_colors_tell_curves(index: int)
    ensures
        (color_at(index) == Color::Yellow) == (index == 0),
        (color_at(index) == Color::Cyan) == (index == 1),
        (color_at(index) == Color::Pink) == (index != 0 && index != 1),
{
}

/// The app starts on what is stored, both outputs at rest, no gate on, and the
/// times of both ramps by the stored faders. Its faders are where they are found.
pub proof fn law_starts_on_storage(
    app: App<2>,
    params: Params,
    storage: Storage,
    faders: [u16; 2],
    takeover: TakeoverMode,
    tables: Tables,
)
    ensures
        ({
            let s = AdEnvelope::started(app, params, storage, faders, takeover, tables);
            &&& s.start_channel == app.start_channel && s.params == params && s.storage == storage
            &&& s.latch_layer == LatchLayer::Main
            &&& s.latch[0] == AnalogLatch::initial(faders[0], 25, takeover)
            &&& s.latch[1] == AnalogLatch::initial(faders[1], 25, takeover)
            &&& s.env_state == EnvState::Idle && s.outval == 0 && s.gate_on == 0
            &&& !s.old_gate && !s.button_old && !s.trigger_to_gate
            &&& s.oldinputval == 0 && s.timer == 5000 && s.start_time == 0
            &&& s.times == s.fader_times && s.times == s.after(Event::LoadScene(storage), tables).times
        }),
{
}

/// The parameters of a fresh app, and what it has in its storage.
pub proof fn law_fresh_app(r: Storage)
    requires
        call_ensures(Storage::default, (), r),
    ensures
        ({
            let p = initial_params();
            &&& p.midi_in == (MidiIn { usb: false, din: false })
            &&& p.midi_channel == MidiChannel(1)
            &&& !p.retrigger
        }),
        r.fader_saved@ == seq![2000u16, 2000],
        r.curve_saved@ == seq![Curve::Linear, Curve::Linear],
        r.mode_saved == 0,
        r.att_saved == 4095,
        r.min_gate_saved == 1,
{
}

} // verus!
