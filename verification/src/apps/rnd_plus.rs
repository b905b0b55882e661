//! Random+: random values, clocked, timed or triggered, with a CV input that
//! can be assigned to the speed, the trigger or the slew.
use vstd::prelude::*;
use vstd::array::spec_array_update;

use crate::app::{
    channels_unset, led_set, led_unset, Action, App, Leds, MidiOutput, OutJack, PortMode,
};
use crate::apps::parts::{
    byte_level, division, division_for, division_of, find_division, half_division, layer_for,
    layer_of, level_byte, light_or_not, lit_or_not, part_of_division, Rolls,
};
use crate::latch::{clamp_12bit, quotient_to_zero, AnalogLatch, LatchLayer, TakeoverMode};
use crate::storage::{values_new, values_push, AppParams, AppStorage, ManagedStorage, ParamStore};
use crate::tables::Tables;
use crate::tasks::leds::Led;
use crate::types::{
    Brightness, ClockEvent, Color, Curve, MidiCc, MidiChannel, MidiOut, ParamValue, Range, Value,
};
use crate::utils::{
    attenuate, attenuate_bipolar, attenuated, attenuated_bipolar, clamp_to, split_unsigned_value,
    unsigned_halves,
};

verus! {

pub const CHANNELS: usize = 2;

pub const PARAMS: usize = 6;

/// The input level that counts as a trigger.
pub const TRIGGER_LEVEL: u16 = 2458;

/// The parameters of the app.
#[derive(Clone, Copy, Debug, PartialEq, Eq, Structural)]
pub struct Params {
    pub bipolar: bool,
    pub midi_channel: MidiChannel,
    pub midi_cc: MidiCc,
    pub nrpn: bool,
    pub midi_out: MidiOut,
    pub color: Color,
}

impl AppParams for Params {
    open spec fn read(values: Seq<Value>) -> Option<Self> {
        if values.len() < 6 {
            None
        } else {
            Some(
                Params {
                    bipolar: bool::reads(values[0]),
                    midi_channel: MidiChannel::reads(values[1]),
                    midi_cc: MidiCc::reads(values[2]),
                    nrpn: bool::reads(values[3]),
                    midi_out: MidiOut::reads(values[4]),
                    color: Color::reads(values[5]),
                },
            )
        }
    }

    open spec fn listing(self) -> Seq<Value> {
        seq![
            self.bipolar.stored(),
            self.midi_channel.stored(),
            self.midi_cc.stored(),
            Value::MidiNrpn(self.nrpn),
            self.midi_out.stored(),
            self.color.stored(),
        ]
    }

    fn from_values(values: &[Value]) -> (r: Option<Self>) {
        if values.len() < PARAMS {
            return None;
        }
        Some(
            Params {
                bipolar: bool::from_value(values[0]),
                midi_channel: MidiChannel::from_value(values[1]),
                midi_cc: MidiCc::from_value(values[2]),
                nrpn: bool::from_value(values[3]),
                midi_out: MidiOut::from_value(values[4]),
                color: Color::from_value(values[5]),
            },
        )
    }

    fn to_values(&self) -> (r: heapless::Vec<Value, 16>) {
        let mut vec = values_new();
        let _ = values_push(&mut vec, self.bipolar.into_value());
        let _ = values_push(&mut vec, self.midi_channel.into_value());
        let _ = values_push(&mut vec, self.midi_cc.into_value());
        let _ = values_push(&mut vec, Value::MidiNrpn(self.nrpn));
        let _ = values_push(&mut vec, self.midi_out.into_value());
        let _ = values_push(&mut vec, self.color.into_value());
        vec
    }

    proof fn law_params_round_trip(self) {
    }
}

/// What the app keeps. `dest` is what the input is assigned to: 0 the speed, 1
/// the trigger, 2 the slew.
#[derive(Clone, Copy, Debug, PartialEq, Eq, Structural)]
pub struct Storage {
    pub fader_saved: u16,
    pub mute_save: bool,
    pub att_saved: u16,
    pub slew_saved: u16,
    pub clocked: bool,
    pub in_att: u16,
    pub in_mute: bool,
    pub dest: usize,
}

impl Default for Storage {
    fn default() -> (r: Self)
        ensures
            r == (Storage {
                fader_saved: 3000,
                mute_save: false,
                att_saved: 4096,
                slew_saved: 0,
                clocked: true,
                in_att: 4095,
                in_mute: false,
                dest: 0,
            }),
            r.wf(),
    {
        Storage {
            fader_saved: 3000,
            mute_save: false,
            att_saved: 4096,
            slew_saved: 0,
            clocked: true,
            in_att: 4095,
            in_mute: false,
            dest: 0,
        }
    }
}

impl AppStorage for Storage {

}

impl Storage {
    /// Whether the speed is a 12-bit position, and another destination can be counted.
    pub open spec fn wf(self) -> bool {
        self.fader_saved <= 4095 && self.dest < usize::MAX
    }
}

/// The parameters that the app starts with: the controller of its first channel.
pub open spec fn initial_params(start_channel: usize) -> Params {
    Params {
        bipolar: false,
        midi_channel: MidiChannel(1),
        midi_cc: MidiCc::for_channel(32, start_channel),
        nrpn: false,
        midi_out: (MidiOut { usb: true, out1: true, out2: true }),
        color: Color::Green,
    }
}

/// The parameters and the storage of the app, before anything was loaded.
pub fn wrapper(app: App<2>) -> (r: (ParamStore<Params>, ManagedStorage<Storage>))
    ensures
        r.0 == (ParamStore {
            app_id: app.app_id,
            inner: initial_params(app.start_channel),
            layout_id: app.layout_id,
        }),
        r.1.app_id == app.app_id,
        r.1.layout_id == app.layout_id,
        call_ensures(Storage::default, (), r.1.inner),
{
    (
        ParamStore::new(
            app.app_id,
            app.layout_id,
            Params {
                bipolar: false,
                midi_channel: MidiChannel::default(),
                midi_cc: MidiCc::of_channel(32, app.start_channel),
                nrpn: false,
                midi_out: MidiOut::default(),
                color: Color::Green,
            },
        ),
        ManagedStorage::new(app.app_id, app.layout_id),
    )
}

/// A value moved by the input, whose middle is 2047.
pub open spec fn modulated(base: int, in_val: int) -> int {
    clamp_12bit(base + in_val - 2047)
}

/// A value moved by the input, whose middle is 2047.
pub fn mod_with_input(base: u16, in_val: u16) -> (r: u16)
    ensures
        r == modulated(base as int, in_val as int),
        r <= 4095,
{
    let moved: i32 = base as i32 + in_val as i32 - 2047;
    if moved < 0 {
        0
    } else if moved > 4095 {
        4095
    } else {
        moved as u16
    }
}

/// The places that the input moves the division by: up to six either way.
pub open spec fn division_offset(in_val: int) -> int {
    clamp_to(quotient_to_zero((in_val - 2047) * 6, 2047), -6, 6)
}

/// The division of a fader, moved by the input.
pub open spec fn modulated_division(base: int, in_val: int) -> u16 {
    let index = if base / 345 < 11 {
        base / 345
    } else {
        11
    };
    division(clamp_to(index + division_offset(in_val), 0, 11))
}

/// The division of a fader, moved by the input.
pub fn resolution_with_input_offset(base: u16, in_val: u16) -> (r: u16)
    ensures
        r == modulated_division(base as int, in_val as int),
        2 <= r <= 384,
{
    let base_index: i32 = if base / 345 < 11 {
        (base / 345) as i32
    } else {
        11
    };
    let offset: i32 = if in_val >= 2047 {
        let up: i32 = (in_val as i32 - 2047) * 6 / 2047;
        if up > 6 {
            6
        } else {
            up
        }
    } else {
        let down: i32 = (2047 - in_val as i32) * 6 / 2047;
        if down > 6 {
            -6
        } else {
            -down
        }
    };
    let moved: i32 = base_index + offset;
    let index: usize = if moved < 0 {
        0
    } else if moved > 11 {
        11
    } else {
        moved as usize
    };
    find_division(index)
}

/// The milliseconds between two values, by the speed on its curve.
pub open spec fn period(tables: Tables, speed: int) -> int {
    tables.curve(Curve::Exponential, 4095 - speed) * 5000 / 4095 + 71
}

/// What is read once per millisecond: the shift button, the second button, the
/// input, and rolls of the die for a trigger and for the timer. `slewed` is the
/// output one step closer to its target.
#[derive(Clone, Copy, Debug, PartialEq, Eq, Structural)]
pub struct Inputs {
    pub shift: bool,
    pub button: bool,
    pub raw: u16,
    pub trigger_rolls: Rolls,
    pub timer_rolls: Rolls,
    pub slewed: u16,
}

impl Inputs {
    pub open spec fn wf(self) -> bool {
        self.trigger_rolls.wf() && self.timer_rolls.wf()
    }
}

/// What the slew works on: the output, where it is to go, and how fast.
#[derive(Clone, Copy, Debug, PartialEq, Eq, Structural)]
pub struct SlewRequest {
    pub prev: u16,
    pub target: u16,
    pub rate: u16,
}

/// What an event brings.
pub enum Event {
    /// An event of the clock, the shift button, and rolls of the die.
    Clock { event: ClockEvent, shift: bool, rolls: Rolls },
    /// A millisecond has gone by.
    Millisecond(Inputs),
    /// A button was pressed.
    Down { chan: usize, shift: bool },
    /// The second button was pressed for long.
    LongPress { shift: bool },
    /// A fader was moved to a value.
    Fader { chan: usize, value: u16 },
    /// A scene was loaded into the storage.
    LoadScene(Storage),
    /// A scene is to be saved.
    SaveScene(u8),
}

/// The running app. The clock and the timer count on from zero after their last
/// number.
pub struct RandomPlus {
    pub start_channel: usize,
    pub params: Params,
    pub storage: Storage,
    pub val: u16,
    pub button_color: Color,
    pub in_val: u16,
    pub latch_layer: LatchLayer,
    pub clkn: u16,
    pub latch: [AnalogLatch; 2],
    pub out: u16,
    pub last_out: u16,
    pub count: u32,
    pub oldinputval: u16,
}

impl RandomPlus {
    pub open spec fn wf(self) -> bool {
        self.start_channel + 2 <= 16 && self.storage.wf()
    }

    /// The channel of the output.
    pub open spec fn second(self) -> usize {
        (self.start_channel + 1) as usize
    }

    pub open spec fn range(self) -> Range {
        if self.params.bipolar {
            Range::_Neg5_5V
        } else {
            Range::_0_10V
        }
    }

    fn get_range(&self) -> (r: Range)
        ensures
            r == self.range(),
    {
        if self.params.bipolar {
            Range::_Neg5_5V
        } else {
            Range::_0_10V
        }
    }

    /// The output set to a value.
    pub open spec fn output(self, value: u16) -> Action {
        (OutJack { channel: self.second(), range: self.range() }).valued(value)
    }

    /// The MIDI port.
    pub open spec fn midi(self) -> MidiOutput {
        MidiOutput::port(
            self.start_channel,
            self.params.midi_out,
            self.params.midi_channel,
            self.params.nrpn,
        )
    }

    fn midi_port(&self) -> (r: MidiOutput)
        ensures
            r == self.midi(),
    {
        MidiOutput::new(
            self.params.midi_out,
            self.start_channel,
            self.params.midi_channel.to_wire(),
            self.params.nrpn,
        )
    }

    /// The state that the app starts with.
    pub open spec fn started(
        app: App<2>,
        params: Params,
        storage: Storage,
        faders: [u16; 2],
        takeover: TakeoverMode,
    ) -> RandomPlus {
        RandomPlus {
            start_channel: app.start_channel,
            params,
            storage,
            val: 0,
            button_color: Color::White,
            in_val: 2047,
            latch_layer: LatchLayer::Main,
            clkn: 0,
            latch: [
                AnalogLatch::initial(faders[0], 25, takeover),
                AnalogLatch::initial(faders[1], 25, takeover),
            ],
            out: 0,
            last_out: 0,
            count: 0,
            oldinputval: 0,
        }
    }

    /// What the start sets off: the jacks, and the LEDs of the output.
    pub open spec fn start_actions(self) -> Seq<Action> {
        seq![
            Action::Configure {
                channel: self.start_channel,
                mode: PortMode::Input { bipolar: true },
                gpo_level: None,
            },
            Action::Configure {
                channel: self.second(),
                mode: PortMode::Output { bipolar: self.params.bipolar },
                gpo_level: None,
            },
        ] + (if self.storage.mute_save {
            seq![
                led_unset(self.second(), Led::Button),
                self.output(2047),
                led_unset(self.second(), Led::Top),
                led_unset(self.second(), Led::Bottom),
            ]
        } else {
            seq![led_set(self.second(), Led::Button, self.params.color, Brightness::Mid)]
        })
    }

    /// Starts the app on what is stored.
    pub fn new(
        app: App<2>,
        params: Params,
        storage: Storage,
        faders: [u16; 2],
        takeover: TakeoverMode,
    ) -> (r: (Self, Vec<Action>))
        requires
            app.wf(),
            storage.wf(),
        ensures
            r.0 == RandomPlus::started(app, params, storage, faders, takeover),
            r.0.wf(),
            r.1@ == r.0.start_actions(),
    {
        let state = RandomPlus {
            start_channel: app.start_channel,
            params,
            storage,
            val: 0,
            button_color: Color::White,
            in_val: 2047,
            latch_layer: LatchLayer::Main,
            clkn: 0,
            latch: [app.make_latch(faders[0], takeover), app.make_latch(faders[1], takeover)],
            out: 0,
            last_out: 0,
            count: 0,
            oldinputval: 0,
        };
        let leds = app.use_leds();
        let range = state.get_range();
        let (_, input) = app.make_in_jack(0, Range::_Neg5_5V);
        let (jack, output) = app.make_out_jack(1, range);
        let mut actions: Vec<Action> = vec![input, output];
        if storage.mute_save {
            actions.push(leds.unset(1, Led::Button));
            actions.push(jack.set_value(2047));
            actions.push(leds.unset(1, Led::Top));
            actions.push(leds.unset(1, Led::Bottom));
        } else {
            actions.push(leds.set(1, Led::Button, params.color, Brightness::Mid));
        }
        (state, actions)
    }

    /// The ticks between two values.
    pub open spec fn div(self) -> int {
        if self.storage.dest == 0 {
            modulated_division(self.storage.fader_saved as int, self.in_val as int) as int
        } else {
            division_of(self.storage.fader_saved as int) as int
        }
    }

    fn get_div(&self) -> (r: u32)
        requires
            self.wf(),
        ensures
            r == self.div(),
            2 <= r <= 384,
    {
        if self.storage.dest == 0 {
            resolution_with_input_offset(self.storage.fader_saved, self.in_val) as u32
        } else {
            division_for(self.storage.fader_saved) as u32
        }
    }

    /// Whether the clock brings a new value.
    pub open spec fn clock_fires(self) -> bool {
        self.clkn as int % self.div() == 0 && !self.storage.mute_save && self.storage.clocked
            && self.storage.dest != 1
    }

    /// The state with a new value and a new color.
    pub open spec fn rolled(self, rolls: Rolls) -> RandomPlus {
        RandomPlus {
            val: rolls.value,
            button_color: rolls.color(self.storage.mute_save),
            ..self
        }
    }

    /// The button in the color of the rolls.
    pub open spec fn roll_led(self, rolls: Rolls) -> Action {
        led_set(
            self.second(),
            Led::Button,
            rolls.color(self.storage.mute_save),
            Brightness::Mid,
        )
    }

    fn roll(&mut self, rolls: Rolls) -> (r: Action)
        requires
            old(self).wf(),
            rolls.wf(),
        ensures
            *final(self) == old(self).rolled(rolls),
            r == old(self).roll_led(rolls),
    {
        let color = rolls.get_color(self.storage.mute_save);
        self.val = rolls.value;
        self.button_color = color;
        Leds::<2>::new(self.start_channel).set(1, Led::Button, color, Brightness::Mid)
    }

    /// The state after a tick of the clock.
    pub open spec fn ticked(self, rolls: Rolls) -> RandomPlus {
        let rolled = if self.clock_fires() {
            self.rolled(rolls)
        } else {
            self
        };
        RandomPlus {
            clkn: if self.clkn == u16::MAX {
                0
            } else {
                (self.clkn + 1) as u16
            },
            ..rolled
        }
    }

    /// What a tick of the clock sets off: a new value, and with shift a flash of
    /// the division.
    pub open spec fn tick_actions(self, shift: bool, rolls: Rolls) -> Seq<Action> {
        let at = self.clkn as int % self.div();
        (if self.clock_fires() {
            seq![self.roll_led(rolls)]
        } else {
            Seq::empty()
        }) + (if at == 0 && self.storage.clocked && shift {
            seq![led_set(self.second(), Led::Bottom, Color::Red, Brightness::High)]
        } else {
            Seq::empty()
        }) + (if at == part_of_division(self.div(), 50) && shift {
            seq![led_unset(self.second(), Led::Bottom)]
        } else {
            Seq::empty()
        })
    }

    /// An event of the clock.
    pub fn fut1(&mut self, event: ClockEvent, shift: bool, rolls: Rolls) -> (r: Vec<Action>)
        requires
            old(self).wf(),
            rolls.wf(),
        ensures
            *final(self) == (match event {
                ClockEvent::Tick => old(self).ticked(rolls),
                ClockEvent::Reset => RandomPlus { clkn: 0, ..*old(self) },
                _ => *old(self),
            }),
            final(self).wf(),
            r@ == (match event {
                ClockEvent::Tick => old(self).tick_actions(shift, rolls),
                _ => Seq::empty(),
            }),
    {
        let mut actions: Vec<Action> = Vec::new();
        match event {
            ClockEvent::Reset => {
                self.clkn = 0;
            },
            ClockEvent::Tick => {
                let leds = Leds::<2>::new(self.start_channel);
                let div: u32 = self.get_div();
                let at: u32 = self.clkn as u32 % div;
                let clocked = self.storage.clocked;
                if at == 0 && !self.storage.mute_save && clocked && self.storage.dest != 1 {
                    actions.push(self.roll(rolls));
                }
                if at == 0 && clocked && shift {
                    actions.push(leds.set(1, Led::Bottom, Color::Red, Brightness::High));
                }
                if at == half_division(div) && shift {
                    actions.push(leds.unset(1, Led::Bottom));
                }
                self.clkn = self.clkn.wrapping_add(1);
            },
            _ => {},
        }
        actions
    }

    /// The state with the mute toggled.
    pub open spec fn mute_toggled(self) -> RandomPlus {
        RandomPlus {
            storage: Storage { mute_save: !self.storage.mute_save, ..self.storage },
            ..self
        }
    }

    /// What the toggled mute sets off.
    pub open spec fn mute_actions(self) -> Seq<Action> {
        seq![Action::Save] + (if self.storage.mute_save {
            seq![led_set(self.second(), Led::Button, self.params.color, Brightness::Mid)]
        } else {
            channels_unset(self.start_channel, 2)
        })
    }

    fn toggle_mute(&mut self) -> (r: Vec<Action>)
        requires
            old(self).wf(),
        ensures
            *final(self) == old(self).mute_toggled(),
            final(self).wf(),
            r@ == old(self).mute_actions(),
    {
        let leds = Leds::<2>::new(self.start_channel);
        let mut actions: Vec<Action> = vec![Action::Save];
        self.storage.mute_save = !self.storage.mute_save;
        if self.storage.mute_save {
            let mut dark = leds.unset_all();
            actions.append(&mut dark);
        } else {
            actions.push(leds.set(1, Led::Button, self.params.color, Brightness::Mid));
        }
        actions
    }

    /// The state after a button was pressed: the first one mutes the input, and
    /// with shift assigns it; the second one, with shift, mutes the output.
    pub open spec fn pressed(self, chan: int, shift: bool) -> RandomPlus {
        if chan == 0 && !shift {
            RandomPlus {
                storage: Storage { in_mute: !self.storage.in_mute, ..self.storage },
                ..self
            }
        } else if chan == 0 {
            RandomPlus {
                storage: Storage { dest: ((self.storage.dest + 1) % 3) as usize, ..self.storage },
                ..self
            }
        } else if chan == 1 && shift {
            self.mute_toggled()
        } else {
            self
        }
    }

    /// What a pressed button sets off.
    pub open spec fn press_actions(self, chan: int, shift: bool) -> Seq<Action> {
        if chan == 0 {
            seq![Action::Save]
        } else if chan == 1 && shift {
            self.mute_actions()
        } else {
            Seq::empty()
        }
    }

    /// A button was pressed.
    pub fn short_press(&mut self, chan: usize, shift: bool) -> (r: Vec<Action>)
        requires
            old(self).wf(),
        ensures
            *final(self) == old(self).pressed(chan as int, shift),
            final(self).wf(),
            r@ == old(self).press_actions(chan as int, shift),
    {
        if chan == 0 {
            if !shift {
                self.storage.in_mute = !self.storage.in_mute;
            } else {
                self.storage.dest = (self.storage.dest + 1) % 3;
            }
            vec![Action::Save]
        } else if chan == 1 && shift {
            self.toggle_mute()
        } else {
            Vec::new()
        }
    }

    /// The state after the second button was pressed for long with shift: the
    /// values come from the timer instead of the clock, or the other way round,
    /// and the mute of the press before is taken back.
    pub open spec fn held(self, shift: bool) -> RandomPlus {
        if shift {
            let toggled = self.mute_toggled();
            RandomPlus {
                storage: Storage { clocked: !self.storage.clocked, ..toggled.storage },
                ..toggled
            }
        } else {
            self
        }
    }

    /// The second button was pressed for long.
    pub fn long_press(&mut self, shift: bool) -> (r: Vec<Action>)
        requires
            old(self).wf(),
        ensures
            *final(self) == old(self).held(shift),
            final(self).wf(),
            r@ == (if shift {
                old(self).mute_actions()
            } else {
                Seq::empty()
            }),
    {
        if shift {
            self.storage.clocked = !self.storage.clocked;
            self.toggle_mute()
        } else {
            Vec::new()
        }
    }

    /// The stored value that a fader edits: the first one the attenuation of the
    /// input, the second one the speed, the attenuation or the slew.
    pub open spec fn fader_target(self, chan: int) -> u16 {
        if chan == 0 {
            match self.latch_layer {
                LatchLayer::Main => self.storage.in_att,
                _ => 0,
            }
        } else {
            match self.latch_layer {
                LatchLayer::Main => self.storage.fader_saved,
                LatchLayer::Alt => self.storage.att_saved,
                LatchLayer::Third => self.storage.slew_saved,
            }
        }
    }

    /// The storage with a value of a fader.
    pub open spec fn edited(self, chan: int, value: u16) -> Storage {
        if chan == 0 {
            match self.latch_layer {
                LatchLayer::Main => Storage { in_att: value, ..self.storage },
                _ => self.storage,
            }
        } else {
            match self.latch_layer {
                LatchLayer::Main => Storage { fader_saved: value, ..self.storage },
                LatchLayer::Alt => Storage { att_saved: value, ..self.storage },
                LatchLayer::Third => Storage { slew_saved: value, ..self.storage },
            }
        }
    }

    /// The state after a fader was moved.
    pub open spec fn fader_moved(self, chan: int, value: u16) -> RandomPlus {
        let latch = self.latch[chan];
        let target = self.fader_target(chan);
        RandomPlus {
            latch: spec_array_update(
                self.latch,
                chan,
                latch.updated(value, self.latch_layer, target),
            ),
            storage: match latch.emits(value, self.latch_layer, target) {
                Some(new_value) => self.edited(chan, new_value),
                None => self.storage,
            },
            ..self
        }
    }

    /// A fader that changes a value asks for it to be saved.
    pub open spec fn fader_actions(self, chan: int, value: u16) -> Seq<Action> {
        if self.latch[chan].emits(value, self.latch_layer, self.fader_target(chan)) is Some && (chan
            == 1 || self.latch_layer == LatchLayer::Main) {
            seq![Action::Save]
        } else {
            Seq::empty()
        }
    }

    /// A fader was moved.
    pub fn fader_handler(&mut self, chan: usize, value: u16) -> (r: Vec<Action>)
        requires
            old(self).wf(),
            chan < 2,
            value <= 4095,
        ensures
            *final(self) == old(self).fader_moved(chan as int, value),
            final(self).wf(),
            r@ == old(self).fader_actions(chan as int, value),
    {
        let mut actions: Vec<Action> = Vec::new();
        let layer = self.latch_layer;
        let target: u16 = if chan == 0 {
            match layer {
                LatchLayer::Main => self.storage.in_att,
                _ => 0,
            }
        } else {
            match layer {
                LatchLayer::Main => self.storage.fader_saved,
                LatchLayer::Alt => self.storage.att_saved,
                LatchLayer::Third => self.storage.slew_saved,
            }
        };
        let mut latch = self.latch[chan];
        let emitted = latch.update(value, layer, target);
        self.latch[chan] = latch;
        if let Some(new_value) = emitted {
            if chan == 0 {
                if layer == LatchLayer::Main {
                    self.storage.in_att = new_value;
                    actions.push(Action::Save);
                }
            } else {
                match layer {
                    LatchLayer::Main => {
                        self.storage.fader_saved = new_value;
                    },
                    LatchLayer::Alt => {
                        self.storage.att_saved = new_value;
                    },
                    LatchLayer::Third => {
                        self.storage.slew_saved = new_value;
                    },
                }
                actions.push(Action::Save);
            }
        }
        actions
    }

    /// What a loaded scene sets off: dark LEDs where it is muted.
    pub open spec fn load_actions(self, storage: Storage) -> Seq<Action> {
        if storage.mute_save {
            seq![
                led_unset(self.second(), Led::Button),
                led_unset(self.second(), Led::Top),
                led_unset(self.second(), Led::Bottom),
            ]
        } else {
            Seq::empty()
        }
    }

    /// A scene was loaded into the storage.
    pub fn load_scene(&mut self, storage: Storage) -> (r: Vec<Action>)
        requires
            old(self).wf(),
            storage.wf(),
        ensures
            *final(self) == (RandomPlus { storage, ..*old(self) }),
            final(self).wf(),
            r@ == old(self).load_actions(storage),
    {
        let leds = Leds::<2>::new(self.start_channel);
        self.storage = storage;
        let mut actions: Vec<Action> = Vec::new();
        if storage.mute_save {
            actions.push(leds.unset(1, Led::Button));
            actions.push(leds.unset(1, Led::Top));
            actions.push(leds.unset(1, Led::Bottom));
        }
        actions
    }

    /// The input after its attenuation, at rest in the middle where it is muted.
    pub open spec fn input(self, raw: u16) -> u16 {
        if self.storage.in_mute {
            2047
        } else {
            attenuated_bipolar(raw as int, self.storage.in_att as int) as u16
        }
    }

    /// Whether the input triggers a new value: it is assigned to that, and rises
    /// through the trigger level.
    pub open spec fn triggered(self, raw: u16) -> bool {
        self.storage.dest == 1 && self.input(raw) >= 2458 && self.oldinputval < 2458
    }

    /// The state after the input was read.
    pub open spec fn sampled(self, inputs: Inputs) -> RandomPlus {
        let rolled = if self.triggered(inputs.raw) {
            self.rolled(inputs.trigger_rolls)
        } else {
            self
        };
        RandomPlus {
            latch_layer: layer_of(inputs.shift, inputs.button),
            in_val: self.input(inputs.raw),
            oldinputval: if self.storage.dest == 1 {
                self.input(inputs.raw)
            } else {
                0
            },
            ..rolled
        }
    }

    /// What reading the input sets off.
    pub open spec fn sample_actions(self, inputs: Inputs) -> Seq<Action> {
        let halves = unsigned_halves(self.input(inputs.raw) as int);
        seq![
            led_set(
                self.start_channel,
                Led::Top,
                self.params.color,
                Brightness::Custom(halves.0 as u8),
            ),
            led_set(
                self.start_channel,
                Led::Bottom,
                self.params.color,
                Brightness::Custom(halves.1 as u8),
            ),
        ] + (if self.triggered(inputs.raw) {
            seq![self.roll_led(inputs.trigger_rolls)]
        } else {
            Seq::empty()
        })
    }

    fn get_input(&self, raw: u16) -> (r: u16)
        ensures
            r == self.input(raw),
            r <= 4095,
    {
        if self.storage.in_mute {
            2047
        } else {
            attenuate_bipolar(raw, self.storage.in_att)
        }
    }

    fn sample(&mut self, inputs: Inputs, actions: &mut Vec<Action>)
        requires
            old(self).wf(),
            inputs.wf(),
        ensures
            *final(self) == old(self).sampled(inputs),
            final(self).wf(),
            final(actions)@ == old(actions)@ + old(self).sample_actions(inputs),
    {
        let leds = Leds::<2>::new(self.start_channel);
        let in_val: u16 = self.get_input(inputs.raw);
        let led_in = split_unsigned_value(in_val);
        self.latch_layer = layer_for(inputs.shift, inputs.button);
        let color = self.params.color;
        actions.push(leds.set(0, Led::Top, color, Brightness::Custom(led_in[0])));
        actions.push(leds.set(0, Led::Bottom, color, Brightness::Custom(led_in[1])));
        self.in_val = in_val;
        if self.storage.dest == 1 {
            if in_val >= TRIGGER_LEVEL && self.oldinputval < TRIGGER_LEVEL {
                actions.push(self.roll(inputs.trigger_rolls));
            }
            self.oldinputval = in_val;
        } else {
            self.oldinputval = 0;
        }
    }

    /// Where the output is to go.
    pub open spec fn target(self) -> u16 {
        if self.params.bipolar {
            attenuated_bipolar(self.val as int, self.storage.att_saved as int) as u16
        } else {
            (attenuated(self.val as int, self.storage.att_saved as int) % 65536) as u16
        }
    }

    /// The slew, moved by the input where it is assigned to it.
    pub open spec fn slew(self) -> int {
        if self.storage.dest == 2 {
            modulated(self.storage.slew_saved as int, self.in_val as int)
        } else {
            self.storage.slew_saved as int
        }
    }

    /// What the slew works on in a millisecond with the given inputs.
    pub open spec fn slewing(self, inputs: Inputs, tables: Tables) -> SlewRequest {
        SlewRequest {
            prev: self.out,
            target: self.sampled(inputs).target(),
            rate: tables.curve(Curve::Exponential, self.sampled(inputs).slew()),
        }
    }

    /// What the slew works on in a millisecond with the given inputs.
    pub fn slew_request(&self, inputs: Inputs, tables: &Tables) -> (r: SlewRequest)
        requires
            self.wf(),
            inputs.wf(),
            tables.wf(),
        ensures
            r == (SlewRequest {
                prev: self.out,
                target: self.sampled(inputs).target(),
                rate: tables.curve(Curve::Exponential, self.sampled(inputs).slew()),
            }),
            r == self.slewing(inputs, *tables),
    {
        let in_val: u16 = self.get_input(inputs.raw);
        let val: u16 = if self.storage.dest == 1 && in_val >= TRIGGER_LEVEL && self.oldinputval
            < TRIGGER_LEVEL {
            inputs.trigger_rolls.value
        } else {
            self.val
        };
        let slew: u16 = if self.storage.dest == 2 {
            mod_with_input(self.storage.slew_saved, in_val)
        } else {
            self.storage.slew_saved
        };
        let target: u16 = if self.params.bipolar {
            attenuate_bipolar(val, self.storage.att_saved)
        } else {
            attenuate(val, self.storage.att_saved)
        };
        SlewRequest { prev: self.out, target, rate: tables.curve_at(Curve::Exponential, slew) }
    }

    /// The output: at rest where it is muted, else as the slew has it.
    pub open spec fn next_out(self, slewed: u16) -> u16 {
        if !self.storage.mute_save {
            slewed
        } else if self.params.bipolar {
            2047
        } else {
            0
        }
    }

    /// The LEDs, by what the faders edit: the output, the destination and the
    /// attenuation, or the slew.
    pub open spec fn leds(self) -> Seq<Action> {
        match self.latch_layer {
            LatchLayer::Main => seq![
                lit_or_not(
                    self.start_channel,
                    Led::Button,
                    !self.storage.in_mute,
                    self.params.color,
                    Brightness::Mid,
                ),
            ] + (if self.params.bipolar {
                let halves = unsigned_halves(self.out as int);
                seq![
                    led_set(
                        self.second(),
                        Led::Top,
                        self.button_color,
                        Brightness::Custom(halves.0 as u8),
                    ),
                    led_set(
                        self.second(),
                        Led::Bottom,
                        self.button_color,
                        Brightness::Custom(halves.1 as u8),
                    ),
                ]
            } else {
                seq![
                    led_set(
                        self.second(),
                        Led::Top,
                        self.button_color,
                        Brightness::Custom(level_byte(self.out as int)),
                    ),
                ]
            }),
            LatchLayer::Alt => seq![
                led_set(
                    self.start_channel,
                    Led::Button,
                    if self.storage.dest == 1 {
                        Color::Pink
                    } else if self.storage.dest == 2 {
                        Color::Cyan
                    } else {
                        Color::Yellow
                    },
                    Brightness::Mid,
                ),
                led_set(
                    self.second(),
                    Led::Top,
                    Color::Red,
                    Brightness::Custom(level_byte(self.storage.att_saved as int)),
                ),
            ],
            LatchLayer::Third => seq![
                led_set(
                    self.second(),
                    Led::Top,
                    Color::Green,
                    Brightness::Custom(level_byte(self.storage.slew_saved as int)),
                ),
            ],
        }
    }

    fn push_leds(&self, actions: &mut Vec<Action>)
        requires
            self.wf(),
        ensures
            final(actions)@ == old(actions)@ + self.leds(),
    {
        let leds = Leds::<2>::new(self.start_channel);
        match self.latch_layer {
            LatchLayer::Main => {
                actions.push(
                    light_or_not(
                        self.start_channel,
                        Led::Button,
                        !self.storage.in_mute,
                        self.params.color,
                        Brightness::Mid,
                    ),
                );
                let color = self.button_color;
                if self.params.bipolar {
                    let ledj = split_unsigned_value(self.out);
                    actions.push(leds.set(1, Led::Top, color, Brightness::Custom(ledj[0])));
                    actions.push(leds.set(1, Led::Bottom, color, Brightness::Custom(ledj[1])));
                } else {
                    let level: u8 = byte_level(self.out);
                    actions.push(leds.set(1, Led::Top, color, Brightness::Custom(level)));
                }
            },
            LatchLayer::Alt => {
                let color = match self.storage.dest {
                    0 => Color::Yellow,
                    1 => Color::Pink,
                    2 => Color::Cyan,
                    _ => Color::Yellow,
                };
                actions.push(leds.set(0, Led::Button, color, Brightness::Mid));
                let level: u8 = byte_level(self.storage.att_saved);
                actions.push(leds.set(1, Led::Top, Color::Red, Brightness::Custom(level)));
            },
            LatchLayer::Third => {
                let level: u8 = byte_level(self.storage.slew_saved);
                actions.push(leds.set(1, Led::Top, Color::Green, Brightness::Custom(level)));
            },
        }
    }

    /// The state after the output was set.
    pub open spec fn put_out(self, slewed: u16) -> RandomPlus {
        RandomPlus { out: self.next_out(slewed), last_out: self.next_out(slewed), ..self }
    }

    /// What setting the output sets off: the voltage, and the controller where it
    /// has moved by a step of 32.
    pub open spec fn out_actions(self, slewed: u16) -> Seq<Action> {
        let out = self.next_out(slewed);
        seq![self.output(out)] + (if self.last_out / 32 != out / 32 {
            seq![self.midi().cc(self.params.midi_cc, out)]
        } else {
            Seq::empty()
        })
    }

    /// The timer one millisecond later; it starts over after its last number.
    pub open spec fn next_count(self) -> u32 {
        if self.count == u32::MAX {
            0
        } else {
            (self.count + 1) as u32
        }
    }

    /// Whether the timer brings a new value.
    pub open spec fn timer_fires(self, tables: Tables) -> bool {
        let speed = if self.storage.dest == 0 {
            modulated(self.storage.fader_saved as int, self.in_val as int)
        } else {
            self.storage.fader_saved as int
        };
        !self.storage.clocked && self.storage.dest != 1 && self.next_count() as int % period(
            tables,
            speed,
        ) == 0
    }

    /// The state after the timer has run.
    pub open spec fn timed(self, rolls: Rolls, tables: Tables) -> RandomPlus {
        let rolled = if self.timer_fires(tables) {
            self.rolled(rolls)
        } else {
            self
        };
        RandomPlus {
            count: if self.storage.clocked {
                self.count
            } else {
                self.next_count()
            },
            ..rolled
        }
    }

    fn run_timer(&mut self, rolls: Rolls, tables: &Tables, actions: &mut Vec<Action>)
        requires
            old(self).wf(),
            rolls.wf(),
            tables.wf(),
        ensures
            *final(self) == old(self).timed(rolls, *tables),
            final(self).wf(),
            final(actions)@ == old(actions)@ + (if old(self).timer_fires(*tables) {
                seq![old(self).roll_led(rolls)]
            } else {
                Seq::empty()
            }),
    {
        if !self.storage.clocked {
            self.count = self.count.wrapping_add(1);
            let base: u16 = self.storage.fader_saved;
            let speed: u16 = if self.storage.dest == 0 {
                mod_with_input(base, self.in_val)
            } else {
                base
            };
            let timed_div: u32 = tables.curve_at(Curve::Exponential, 4095 - speed) as u32 * 5000
                / 4095 + 71;
            if self.storage.dest != 1 && self.count % timed_div == 0 {
                actions.push(self.roll(rolls));
            }
        }
    }

    /// The state after a millisecond.
    pub open spec fn waited(self, inputs: Inputs, tables: Tables) -> RandomPlus {
        self.sampled(inputs).put_out(inputs.slewed).timed(inputs.timer_rolls, tables)
    }

    /// What a millisecond sets off.
    pub open spec fn wait_actions(self, inputs: Inputs, tables: Tables) -> Seq<Action> {
        let sampled = self.sampled(inputs);
        let after = sampled.put_out(inputs.slewed);
        self.sample_actions(inputs) + sampled.out_actions(inputs.slewed) + after.leds() + (
        if after.timer_fires(tables) {
            seq![after.roll_led(inputs.timer_rolls)]
        } else {
            Seq::empty()
        })
    }

    /// A millisecond has gone by: the input is read, the output follows, and the
    /// timer runs.
    pub fn timed_loop(&mut self, inputs: Inputs, tables: &Tables) -> (r: Vec<Action>)
        requires
            old(self).wf(),
            inputs.wf(),
            tables.wf(),
        ensures
            *final(self) == old(self).waited(inputs, *tables),
            final(self).wf(),
            r@ == old(self).wait_actions(inputs, *tables),
    {
        let mut actions: Vec<Action> = Vec::new();
        self.sample(inputs, &mut actions);
        let out: u16 = if !self.storage.mute_save {
            inputs.slewed
        } else if self.params.bipolar {
            2047
        } else {
            0
        };
        self.out = out;
        actions.push(OutJack::new(self.start_channel + 1, self.get_range()).set_value(out));
        if self.last_out / 32 != out / 32 {
            actions.push(self.midi_port().send_cc(self.params.midi_cc, out));
        }
        self.last_out = out;
        self.push_leds(&mut actions);
        self.run_timer(inputs.timer_rolls, tables, &mut actions);
        actions
    }

    /// Whether an event brings what the hardware can bring.
    pub open spec fn admits(event: Event) -> bool {
        match event {
            Event::Clock { rolls, .. } => rolls.wf(),
            Event::Millisecond(inputs) => inputs.wf(),
            Event::Fader { chan, value } => chan < 2 && value <= 4095,
            Event::LoadScene(storage) => storage.wf(),
            _ => true,
        }
    }

    /// The state after an event.
    pub open spec fn after(self, event: Event, tables: Tables) -> RandomPlus {
        match event {
            Event::Clock { event, rolls, .. } => match event {
                ClockEvent::Tick => self.ticked(rolls),
                ClockEvent::Reset => RandomPlus { clkn: 0, ..self },
                _ => self,
            },
            Event::Millisecond(inputs) => self.waited(inputs, tables),
            Event::Down { chan, shift } => self.pressed(chan as int, shift),
            Event::LongPress { shift } => self.held(shift),
            Event::Fader { chan, value } => self.fader_moved(chan as int, value),
            Event::LoadScene(storage) => RandomPlus { storage, ..self },
            Event::SaveScene(_) => self,
        }
    }

    /// What an event sets off.
    pub open spec fn does(self, event: Event, tables: Tables) -> Seq<Action> {
        match event {
            Event::Clock { event, shift, rolls } => match event {
                ClockEvent::Tick => self.tick_actions(shift, rolls),
                _ => Seq::empty(),
            },
            Event::Millisecond(inputs) => self.wait_actions(inputs, tables),
            Event::Down { chan, shift } => self.press_actions(chan as int, shift),
            Event::LongPress { shift } => if shift {
                self.mute_actions()
            } else {
                Seq::empty()
            },
            Event::Fader { chan, value } => self.fader_actions(chan as int, value),
            Event::LoadScene(storage) => self.load_actions(storage),
            Event::SaveScene(scene) => seq![Action::SaveScene(scene)],
        }
    }

    /// Handles an event.
    pub fn run(&mut self, event: Event, tables: &Tables) -> (r: Vec<Action>)
        requires
            old(self).wf(),
            RandomPlus::admits(event),
            tables.wf(),
        ensures
            *final(self) == old(self).after(event, *tables),
            final(self).wf(),
            r@ == old(self).does(event, *tables),
    {
        match event {
            Event::Clock { event, shift, rolls } => self.fut1(event, shift, rolls),
            Event::Millisecond(inputs) => self.timed_loop(inputs, tables),
            Event::Down { chan, shift } => self.short_press(chan, shift),
            Event::LongPress { shift } => self.long_press(shift),
            Event::Fader { chan, value } => self.fader_handler(chan, value),
            Event::LoadScene(storage) => self.load_scene(storage),
            Event::SaveScene(scene) => vec![Action::SaveScene(scene)],
        }
    }
}

/// A long press with shift follows a press with shift: together they leave the
/// mute as it was, and only change where the values come from.
pub proof fn law_long_press_keeps_mute(app: RandomPlus)
    ensures
        app.pressed(1, true).held(true).storage == (Storage {
            clocked: !app.storage.clocked,
            ..app.storage
        }),
{
}

/// Three assignments of the input come back to the first.
pub proof fn law_destinations_cycle(app: RandomPlus)
    requires
        app.storage.dest < 3,
    ensures
        app.pressed(0, true).pressed(0, true).pressed(0, true) == app,
{
}

/// The input at its middle moves neither the division nor the speed.
pub proof fn law_input_middle_is_neutral(base: int)
    requires
        0 <= base <= 4095,
    ensures
        modulated(base, 2047) == base,
        modulated_division(base, 2047) == division_of(base),
{
}

/// While muted, neither the clock nor the timer changes what is put out.
pub proof fn law_muted_output_rests(app: RandomPlus, inputs: Inputs, tables: Tables)
    requires
        app.storage.mute_save,
    ensures
        app.waited(inputs, tables).out == (if app.params.bipolar {
            2047int
        } else {
            0
        }),
{
}

/// A value is moved by as much as the input is off its middle, and stays in range.
/// The division is moved by the input's share of six places, rounded to zero,
/// among twelve that the fader selects by equal parts.
pub proof fn law_input_modulates(base: int, in_val: int, place: int, offset: int)
    requires
        0 <= base <= 4095,
        0 <= in_val <= 4095,
        345 * place <= base < 345 * place + 345,
        in_val >= 2047 ==> 2047 * offset <= 6 * (in_val - 2047) < 2047 * offset + 2047,
        in_val < 2047 ==> 2047 * -offset <= 6 * (2047 - in_val) < 2047 * -offset + 2047,
    ensures
        0 <= base + in_val - 2047 <= 4095 ==> modulated(base, in_val) == base + in_val - 2047,
        base + in_val < 2047 ==> modulated(base, in_val) == 0,
        base + in_val - 2047 > 4095 ==> modulated(base, in_val) == 4095,
        0 <= place + offset <= 11 ==> modulated_division(base, in_val) == division(
            place + offset,
        ),
        place + offset < 0 ==> modulated_division(base, in_val) == division(0),
        place + offset > 11 ==> modulated_division(base, in_val) == division(11),
{
}

/// The clock is counted at every tick, from zero again after a reset. A value is
/// rolled where the count is a whole number of divisions, the app is on the clock
/// and not muted, and the input is not the trigger.
pub proof fn law_clock_rolls_values(
    app: RandomPlus,
    shift: bool,
    rolls: Rolls,
    tables: Tables,
    div: int,
    k: int,
    into: int,
)
    requires
        app.wf(),
        0 <= k,
        0 <= into < div,
        app.storage.dest == 0 ==> div == modulated_division(
            app.storage.fader_saved as int,
            app.in_val as int,
        ),
        app.storage.dest != 0 ==> div == division_of(app.storage.fader_saved as int),
        app.clkn == k * div + into,
    ensures
        ({
            let event = Event::Clock { event: ClockEvent::Tick, shift, rolls };
            let after = app.after(event, tables);
            let fires = into == 0 && app.storage.clocked && !app.storage.mute_save
                && app.storage.dest != 1;
            &&& fires ==> after.val == rolls.value && after.button_color == rolls.color(false)
                && app.does(event, tables)[0] == led_set(
                (app.start_channel + 1) as usize,
                Led::Button,
                rolls.color(false),
                Brightness::Mid,
            )
            &&& !fires ==> after.val == app.val && after.button_color == app.button_color
            &&& app.clkn < 65535 ==> after.clkn == app.clkn + 1
            &&& app.clkn == 65535 ==> after.clkn == 0
            &&& after.storage == app.storage
            &&& !shift && !fires ==> app.does(event, tables).len() == 0
        }),
        app.after(Event::Clock { event: ClockEvent::Reset, shift, rolls }, tables) == (RandomPlus {
            clkn: 0,
            ..app
        }),
        app.after(Event::Clock { event: ClockEvent::Stop, shift, rolls }, tables) == app,
        app.after(Event::Clock { event: ClockEvent::Start, shift, rolls }, tables) == app,
{
    vstd::arithmetic::div_mod::lemma_fundamental_div_mod_converse(app.clkn as int, div, k, into);
    assert(div == app.div());
}

/// The input is attenuated from its middle, and at rest in the middle where it is
/// muted.
pub proof fn law_input_is_attenuated(app: RandomPlus, inputs: Inputs, tables: Tables)
    requires
        app.wf(),
        inputs.raw <= 4095,
        app.storage.in_att <= 4095,
    ensures
        ({
            let after = app.after(Event::Millisecond(inputs), tables);
            let raw = inputs.raw;
            let att = app.storage.in_att;
            &&& app.storage.in_mute ==> after.in_val == 2047
            &&& !app.storage.in_mute && raw >= 2048 ==> 4095 * (after.in_val - 2048) <= (raw - 2048)
                * att < 4095 * (after.in_val - 2048) + 4095
            &&& !app.storage.in_mute && raw <= 2048 ==> 4095 * (2048 - after.in_val) <= (2048 - raw)
                * att < 4095 * (2048 - after.in_val) + 4095
            &&& after.oldinputval == (if app.storage.dest == 1 {
                after.in_val
            } else {
                0
            })
        }),
{
    crate::apps::parts::law_levels_scale_from_rest(inputs.raw as int, app.storage.in_att as int);
}

/// Assigned to the trigger, the input rolls a value when it rises to 2458 from
/// below. Otherwise and off the clock the milliseconds are counted, and a value is
/// rolled whenever the count is a whole number of periods of 71 milliseconds and
/// up to five seconds more. The input moves the speed that is assigned to it.
pub proof fn law_trigger_and_timer_roll_values(
    app: RandomPlus,
    inputs: Inputs,
    tables: Tables,
    speed: int,
    period: int,
    k: int,
    into: int,
)
    requires
        app.wf(),
        tables.wf(),
        app.count < u32::MAX,
        0 <= k,
        0 <= into < period,
        ({
            let after = app.after(Event::Millisecond(inputs), tables);
            let slow = tables.curve(Curve::Exponential, 4095 - speed);
            &&& app.storage.dest == 0 ==> speed == modulated(
                app.storage.fader_saved as int,
                after.in_val as int,
            )
            &&& app.storage.dest != 0 ==> speed == app.storage.fader_saved
            &&& 4095 * (period - 71) <= slow * 5000 < 4095 * (period - 71) + 4095
        }),
        app.count + 1 == k * period + into,
    ensures
        ({
            let after = app.after(Event::Millisecond(inputs), tables);
            let muted = app.storage.mute_save;
            let rises = app.storage.dest == 1 && after.in_val >= 2458 && app.oldinputval < 2458;
            let fires = into == 0 && !app.storage.clocked && app.storage.dest != 1;
            &&& rises ==> after.val == inputs.trigger_rolls.value && after.button_color
                == inputs.trigger_rolls.color(muted)
            &&& fires ==> after.val == inputs.timer_rolls.value && after.button_color
                == inputs.timer_rolls.color(muted)
            &&& !rises && !fires ==> after.val == app.val && after.button_color == app.button_color
            &&& app.storage.clocked ==> after.count == app.count
            &&& !app.storage.clocked ==> after.count == app.count + 1
            &&& after.storage == app.storage && after.clkn == app.clkn
        }),
{
    vstd::arithmetic::div_mod::lemma_fundamental_div_mod_converse(
        app.count + 1,
        period,
        k,
        into,
    );
    let slow = tables.curve(Curve::Exponential, 4095 - speed);
    assert(period == slow * 5000 / 4095 + 71);
    assert(period == self::period(tables, speed));
}

/// The slew goes from the output to the value after the attenuation, a value that
/// was triggered in the same millisecond included: the attenuation's share of the
/// value, or of its distance from the middle where the output is bipolar. Its rate
/// is on the exponential curve, moved by the input where it is assigned to it.
pub proof fn law_slew_goes_to_value(app: RandomPlus, inputs: Inputs, tables: Tables)
    requires
        app.wf(),
        app.val <= 4095,
        inputs.trigger_rolls.value <= 4095,
        app.storage.att_saved <= 4095,
    ensures
        ({
            let after = app.after(Event::Millisecond(inputs), tables);
            let rises = app.storage.dest == 1 && after.in_val >= 2458 && app.oldinputval < 2458;
            let val = if rises {
                inputs.trigger_rolls.value
            } else {
                app.val
            };
            let request = app.slewing(inputs, tables);
            let goal = request.target as int;
            let att = app.storage.att_saved;
            &&& request.prev == app.out
            &&& app.storage.dest == 2 ==> request.rate == tables.curve(
                Curve::Exponential,
                modulated(app.storage.slew_saved as int, after.in_val as int),
            )
            &&& app.storage.dest != 2 ==> request.rate == tables.curve(
                Curve::Exponential,
                app.storage.slew_saved as int,
            )
            &&& !app.params.bipolar ==> 4095 * goal <= val * att < 4095 * goal + 4095
            &&& app.params.bipolar && val >= 2048 ==> 4095 * (goal - 2048) <= (val - 2048) * att
                < 4095 * (goal - 2048) + 4095
            &&& app.params.bipolar && val <= 2048 ==> 4095 * (2048 - goal) <= (2048 - val) * att
                < 4095 * (2048 - goal) + 4095
        }),
{
    let att = app.storage.att_saved as int;
    let sampled = app.sampled(inputs);
    assert(app.after(Event::Millisecond(inputs), tables).in_val == sampled.in_val);
    crate::apps::parts::law_levels_scale_from_rest(sampled.val as int, att);
    crate::utils::law_attenuate_ends(sampled.val as int, att);
}

/// The output, on the second channel, is set at every millisecond, to where the
/// slew is or to rest where the app is muted. Its controller is sent where the
/// output has gone over a multiple of 32. The layer follows the buttons.
pub proof fn law_output_is_set(app: RandomPlus, inputs: Inputs, tables: Tables)
    requires
        app.wf(),
    ensures
        ({
            let after = app.after(Event::Millisecond(inputs), tables);
            let actions = app.does(Event::Millisecond(inputs), tables);
            let rest: u16 = if app.params.bipolar {
                2047
            } else {
                0
            };
            let out = if app.storage.mute_save {
                rest
            } else {
                inputs.slewed
            };
            let range = if app.params.bipolar {
                Range::_Neg5_5V
            } else {
                Range::_0_10V
            };
            let cc = app.midi().cc(app.params.midi_cc, out);
            let dac = Action::Dac {
                channel: (app.start_channel + 1) as usize,
                value: crate::app::output_value(range, out),
            };
            &&& after.out == out && after.last_out == out
            &&& actions.contains(dac)
            &&& (exists|m: int|
                app.last_out < 32 * m <= out || out < #[trigger] (32 * m) <= app.last_out)
                ==> actions.contains(cc)
            &&& after.latch_layer == (if inputs.shift && !inputs.button {
                LatchLayer::Alt
            } else if !inputs.shift && inputs.button {
                LatchLayer::Third
            } else {
                LatchLayer::Main
            })
        }),
{
    let actions = app.does(Event::Millisecond(inputs), tables);
    let at: int = if app.triggered(inputs.raw) {
        3
    } else {
        2
    };
    let sampled = app.sampled(inputs);
    let out = sampled.next_out(inputs.slewed);
    assert(actions[at] == sampled.output(out));
    if app.last_out / 32 != out / 32 {
        assert(actions[at + 1] == app.midi().cc(app.params.midi_cc, out));
    }
}

/// The first button mutes the input, and with shift assigns it to the next of the
/// three destinations. The second one with shift mutes the output, and held for
/// long takes the values from the clock or the timer as well. Each is saved.
pub proof fn law_buttons_are_stored(app: RandomPlus, tables: Tables)
    requires
        app.wf(),
        app.storage.dest < 3,
    ensures
        ({
            let input = Event::Down { chan: 0, shift: false };
            let assign = Event::Down { chan: 0, shift: true };
            let mute = Event::Down { chan: 1, shift: true };
            let hold = Event::LongPress { shift: true };
            let dest: usize = if app.storage.dest == 0 {
                1
            } else if app.storage.dest == 1 {
                2
            } else {
                0
            };
            let muted = !app.storage.mute_save;
            &&& app.after(input, tables).storage == (Storage {
                in_mute: !app.storage.in_mute,
                ..app.storage
            }) && app.does(input, tables) == seq![Action::Save]
            &&& app.after(assign, tables).storage == (Storage { dest, ..app.storage }) && app.does(
                assign,
                tables,
            ) == seq![Action::Save]
            &&& app.after(mute, tables).storage == (Storage { mute_save: muted, ..app.storage })
                && app.does(mute, tables)[0] == Action::Save
            &&& app.after(hold, tables).storage == (Storage {
                mute_save: muted,
                clocked: !app.storage.clocked,
                ..app.storage
            }) && app.does(hold, tables)[0] == Action::Save
            &&& app.after(Event::Down { chan: 1, shift: false }, tables) == app
            &&& app.after(Event::LongPress { shift: false }, tables) == app
        }),
{
}

/// A fader that has a value to give stores it and asks for it to be saved: the
/// first one as the attenuation of the input, on the main layer alone; the second
/// one as the speed, the attenuation or the slew, by the layer.
pub proof fn law_faders_store_their_values(
    app: RandomPlus,
    chan: usize,
    value: u16,
    tables: Tables,
)
    requires
        app.wf(),
        chan < 2,
        value <= 4095,
    ensures
        ({
            let layer = app.latch_layer;
            let event = Event::Fader { chan, value };
            let after = app.after(event, tables);
            let target = match (chan == 0, layer) {
                (true, LatchLayer::Main) => app.storage.in_att,
                (true, _) => 0,
                (false, LatchLayer::Main) => app.storage.fader_saved,
                (false, LatchLayer::Alt) => app.storage.att_saved,
                (false, LatchLayer::Third) => app.storage.slew_saved,
            };
            let latch = app.latch[chan as int];
            let emitted = latch.emits(value, layer, target);
            let stores = emitted is Some && (chan == 1 || layer == LatchLayer::Main);
            let v = emitted.unwrap();
            &&& after.latch[chan as int] == latch.updated(value, layer, target)
            &&& after.latch[1 - chan] == app.latch[1 - chan]
            &&& !stores ==> after.storage == app.storage && app.does(event, tables).len() == 0
            &&& stores ==> app.does(event, tables) == seq![Action::Save] && after.storage == (match (
                chan == 0,
                layer,
            ) {
                (true, _) => Storage { in_att: v, ..app.storage },
                (false, LatchLayer::Main) => Storage { fader_saved: v, ..app.storage },
                (false, LatchLayer::Alt) => Storage { att_saved: v, ..app.storage },
                (false, LatchLayer::Third) => Storage { slew_saved: v, ..app.storage },
            })
        }),
{
}

/// A scene brings its storage and changes nothing else.
pub proof fn law_scenes_bring_storage(app: RandomPlus, storage: Storage, tables: Tables, scene: u8)
    ensures
        app.after(Event::LoadScene(storage), tables) == (RandomPlus { storage, ..app }),
        app.after(Event::SaveScene(scene), tables) == app,
        app.does(Event::SaveScene(scene), tables) == seq![Action::SaveScene(scene)],
{
}

/// The second channel shows the output in the color of the last roll, above and
/// below the middle where it is bipolar; with shift the attenuation in red and the
/// destination, and with the second button held the slew in green. The first button
/// is lit where the input is not muted.
pub proof fn law_output_is_shown(app: RandomPlus)
    requires
        app.wf(),
    ensures
        ({
            let shown = app.leds();
            let first = app.start_channel;
            let second = (app.start_channel + 1) as usize;
            let color = app.params.color;
            let (above, below) = unsigned_halves(app.out as int);
            match app.latch_layer {
                LatchLayer::Main => {
                    &&& shown[0] == (if app.storage.in_mute {
                        led_unset(first, Led::Button)
                    } else {
                        led_set(first, Led::Button, color, Brightness::Mid)
                    })
                    &&& app.params.bipolar ==> shown.skip(1) == seq![
                        led_set(
                            second,
                            Led::Top,
                            app.button_color,
                            Brightness::Custom(above as u8),
                        ),
                        led_set(
                            second,
                            Led::Bottom,
                            app.button_color,
                            Brightness::Custom(below as u8),
                        ),
                    ]
                    &&& !app.params.bipolar ==> shown.skip(1) == seq![
                        led_set(
                            second,
                            Led::Top,
                            app.button_color,
                            Brightness::Custom(level_byte(app.out as int)),
                        ),
                    ]
                },
                LatchLayer::Alt => {
                    &&& shown.len() == 2
                    &&& app.storage.dest == 0 ==> shown[0] == led_set(
                        first,
                        Led::Button,
                        Color::Yellow,
                        Brightness::Mid,
                    )
                    &&& app.storage.dest == 1 ==> shown[0] == led_set(
                        first,
                        Led::Button,
                        Color::Pink,
                        Brightness::Mid,
                    )
                    &&& app.storage.dest == 2 ==> shown[0] == led_set(
                        first,
                        Led::Button,
                        Color::Cyan,
                        Brightness::Mid,
                    )
                    &&& shown[1] == led_set(
                        second,
                        Led::Top,
                        Color::Red,
                        Brightness::Custom(level_byte(app.storage.att_saved as int)),
                    )
                },
                LatchLayer::Third => shown == seq![
                    led_set(
                        second,
                        Led::Top,
                        Color::Green,
                        Brightness::Custom(level_byte(app.storage.slew_saved as int)),
                    ),
                ],
            }
        }),
{
}

/// The first channel shows the input, above and below its middle; a value that is
/// triggered shows the color of its roll on the second button at once, and one of
/// the timer at last.
pub proof fn law_input_is_shown(app: RandomPlus, inputs: Inputs, tables: Tables)
    requires
        app.wf(),
    ensures
        ({
            let actions = app.does(Event::Millisecond(inputs), tables);
            let after = app.after(Event::Millisecond(inputs), tables);
            let first = app.start_channel;
            let second = (app.start_channel + 1) as usize;
            let color = app.params.color;
            let muted = app.storage.mute_save;
            let (above, below) = unsigned_halves(after.in_val as int);
            let rises = app.storage.dest == 1 && after.in_val >= 2458 && app.oldinputval < 2458;
            &&& actions[0] == led_set(first, Led::Top, color, Brightness::Custom(above as u8))
            &&& actions[1] == led_set(first, Led::Bottom, color, Brightness::Custom(below as u8))
            &&& rises ==> actions[2] == led_set(
                second,
                Led::Button,
                inputs.trigger_rolls.color(muted),
                Brightness::Mid,
            )
            &&& app.sampled(inputs).timer_fires(tables) ==> actions.last() == led_set(
                second,
                Led::Button,
                inputs.timer_rolls.color(muted),
                Brightness::Mid,
            )
        }),
{
}

/// With shift the lower LED of the second channel flashes with the division: red
/// where it begins, on the clock, and out at half of it. A muted scene puts all of
/// that channel's LEDs out, and so does muting; going on lights the button.
pub proof fn law_mute_and_flash_are_shown(
    app: RandomPlus,
    rolls: Rolls,
    storage: Storage,
    tables: Tables,
    k: int,
    into: int,
)
    requires
        app.wf(),
        0 <= k,
        0 <= into < app.div(),
        2 <= app.div(),
        app.clkn == k * app.div() + into,
    ensures
        ({
            let tick = app.does(
                Event::Clock { event: ClockEvent::Tick, shift: true, rolls },
                tables,
            );
            let second = (app.start_channel + 1) as usize;
            let loaded = app.does(Event::LoadScene(storage), tables);
            let mute = app.does(Event::Down { chan: 1, shift: true }, tables);
            let half = into > 0 && 2 * into <= app.div() < 2 * into + 2;
            &&& half ==> tick == seq![led_unset(second, Led::Bottom)]
            &&& into > 0 && !half ==> tick.len() == 0
            &&& into == 0 && app.storage.clocked ==> tick.last() == led_set(
                second,
                Led::Bottom,
                Color::Red,
                Brightness::High,
            )
            &&& storage.mute_save ==> loaded == seq![
                led_unset(second, Led::Button),
                led_unset(second, Led::Top),
                led_unset(second, Led::Bottom),
            ]
            &&& !storage.mute_save ==> loaded.len() == 0
            &&& app.storage.mute_save ==> mute == seq![
                Action::Save,
                led_set(second, Led::Button, app.params.color, Brightness::Mid),
            ]
            &&& !app.storage.mute_save ==> mute.skip(1) == channels_unset(app.start_channel, 2)
        }),
{
    vstd::arithmetic::div_mod::lemma_fundamental_div_mod_converse(
        app.clkn as int,
        app.div(),
        k,
        into,
    );
}

/// The app starts on what is stored, with the input in its middle and a white
/// button. Its faders are where they are found.
pub proof fn law_starts_on_storage(
    app: App<2>,
    params: Params,
    storage: Storage,
    faders: [u16; 2],
    takeover: TakeoverMode,
)
    ensures
        ({
            let s = RandomPlus::started(app, params, storage, faders, takeover);
            &&& s.start_channel == app.start_channel && s.params == params && s.storage == storage
            &&& s.latch_layer == LatchLayer::Main
            &&& s.latch[0] == AnalogLatch::initial(faders[0], 25, takeover)
            &&& s.latch[1] == AnalogLatch::initial(faders[1], 25, takeover)
            &&& s.val == 0 && s.out == 0 && s.last_out == 0
            &&& s.count == 0 && s.clkn == 0
            &&& s.in_val == 2047 && s.oldinputval == 0
            &&& s.button_color == Color::White
        }),
{
}

/// The start takes a bipolar input and an output and lights the second button; where
/// the app is muted it puts the output to the middle and that channel's LEDs out.
pub proof fn law_start_is_shown(app: RandomPlus)
    ensures
        ({
            let start = app.start_actions();
            let second = (app.start_channel + 1) as usize;
            let range = if app.params.bipolar {
                Range::_Neg5_5V
            } else {
                Range::_0_10V
            };
            &&& start[0] == (Action::Configure {
                channel: app.start_channel,
                mode: PortMode::Input { bipolar: true },
                gpo_level: None,
            })
            &&& start[1] == (Action::Configure {
                channel: second,
                mode: PortMode::Output { bipolar: app.params.bipolar },
                gpo_level: None,
            })
            &&& !app.storage.mute_save ==> start.skip(2) == seq![
                led_set(second, Led::Button, app.params.color, Brightness::Mid),
            ]
            &&& app.storage.mute_save ==> start.skip(2) == seq![
                led_unset(second, Led::Button),
                Action::Dac { channel: second, value: crate::app::output_value(range, 2047) },
                led_unset(second, Led::Top),
                led_unset(second, Led::Bottom),
            ]
        }),
{
}

/// The parameters of a fresh app, and what it has in its storage.
pub proof fn law_fresh_app(start_channel: usize, r: Storage)
    requires
        call_ensures(Storage::default, (), r),
    ensures
        ({
            let p = initial_params(start_channel);
            &&& !p.bipolar
            &&& p.midi_channel == MidiChannel(1)
            &&& p.midi_cc == MidiCc::for_channel(32, start_channel)
            &&& !p.nrpn
            &&& p.midi_out == (MidiOut { usb: true, out1: true, out2: true })
            &&& p.color == Color::Green
        }),
        r.fader_saved == 3000,
        !r.mute_save,
        r.att_saved == 4096,
        r.slew_saved == 0,
        r.clocked,
        r.in_att == 4095,
        !r.in_mute,
        r.dest == 0,
{
}

} // verus!
