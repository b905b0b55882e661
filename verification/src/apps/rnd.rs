//! Random CC/CV: random values, clocked or timed.
use vstd::prelude::*;

use crate::app::{
    channels_unset, led_set, led_unset, Action, App, Leds, MidiOutput, OutJack, PortMode,
};
use crate::apps::parts::{
    byte_level, division_for, division_of, half_division, layer_for, layer_of, level_byte,
    part_of_division, Rolls,
};
use crate::latch::{AnalogLatch, LatchLayer, TakeoverMode};
use crate::storage::{values_new, values_push, AppParams, AppStorage, ManagedStorage, ParamStore};
use crate::tables::Tables;
use crate::tasks::leds::Led;
use crate::types::{
    Brightness, ClockEvent, Color, Curve, MidiCc, MidiChannel, MidiOut, ParamValue, Range, Value,
};
use crate::utils::{
    attenuate, attenuate_bipolar, attenuated, attenuated_bipolar, split_unsigned_value,
    unsigned_halves,
};

verus! {

pub const CHANNELS: usize = 1;

pub const PARAMS: usize = 5;

/// The parameters of the app.
#[derive(Clone, Copy, Debug, PartialEq, Eq, Structural)]
pub struct Params {
    pub range: Range,
    pub midi_channel: MidiChannel,
    pub midi_cc: MidiCc,
    pub midi_out: MidiOut,
    pub nrpn: bool,
}

impl AppParams for Params {
    open spec fn read(values: Seq<Value>) -> Option<Self> {
        if values.len() < 5 {
            None
        } else {
            Some(
                Params {
                    range: Range::reads(values[0]),
                    midi_channel: MidiChannel::reads(values[1]),
                    midi_cc: MidiCc::reads(values[2]),
                    nrpn: bool::reads(values[3]),
                    midi_out: MidiOut::reads(values[4]),
                },
            )
        }
    }

    open spec fn listing(self) -> Seq<Value> {
        seq![
            self.range.stored(),
            self.midi_channel.stored(),
            self.midi_cc.stored(),
            Value::MidiNrpn(self.nrpn),
            self.midi_out.stored(),
        ]
    }

    fn from_values(values: &[Value]) -> (r: Option<Self>) {
        if values.len() < PARAMS {
            return None;
        }
        Some(
            Params {
                range: Range::from_value(values[0]),
                midi_channel: MidiChannel::from_value(values[1]),
                midi_cc: MidiCc::from_value(values[2]),
                nrpn: bool::from_value(values[3]),
                midi_out: MidiOut::from_value(values[4]),
            },
        )
    }

    fn to_values(&self) -> (r: heapless::Vec<Value, 16>) {
        let mut vec = values_new();
        let _ = values_push(&mut vec, self.range.into_value());
        let _ = values_push(&mut vec, self.midi_channel.into_value());
        let _ = values_push(&mut vec, self.midi_cc.into_value());
        let _ = values_push(&mut vec, Value::MidiNrpn(self.nrpn));
        let _ = values_push(&mut vec, self.midi_out.into_value());
        vec
    }

    proof fn law_params_round_trip(self) {
    }
}

/// What the app keeps.
#[derive(Clone, Copy, Debug, PartialEq, Eq, Structural)]
pub struct Storage {
    pub fader_saved: u16,
    pub mute_save: bool,
    pub att_saved: u16,
    pub slew_saved: u16,
    pub clocked: bool,
}

impl Default for Storage {
    fn default() -> (r: Self)
        ensures
            r == (Storage {
                fader_saved: 3000,
                mute_save: false,
                att_saved: 4096,
                slew_saved: 0,
                clocked: true,
            }),
            r.wf(),
    {
        Storage {
            fader_saved: 3000,
            mute_save: false,
            att_saved: 4096,
            slew_saved: 0,
            clocked: true,
        }
    }
}

impl AppStorage for Storage {

}

impl Storage {
    /// Whether the position that the division is derived from is within the table.
    pub open spec fn wf(self) -> bool {
        self.fader_saved <= 4139
    }
}

/// The parameters that the app starts with: the controller of its channel.
pub open spec fn initial_params(start_channel: usize) -> Params {
    Params {
        range: Range::_0_10V,
        midi_channel: MidiChannel(1),
        midi_cc: MidiCc::for_channel(32, start_channel),
        midi_out: (MidiOut { usb: true, out1: true, out2: true }),
        nrpn: false,
    }
}

/// The parameters and the storage of the app, before anything was loaded.
pub fn wrapper(app: App<1>) -> (r: (ParamStore<Params>, ManagedStorage<Storage>))
    ensures
        r.0 == (ParamStore {
            app_id: app.app_id,
            inner: initial_params(app.start_channel),
            layout_id: app.layout_id,
        }),
        r.1.app_id == app.app_id,
        r.1.layout_id == app.layout_id,
        call_ensures(Storage::default, (), r.1.inner),
{
    (
        ParamStore::new(
            app.app_id,
            app.layout_id,
            Params {
                range: Range::_0_10V,
                midi_channel: MidiChannel::default(),
                midi_cc: MidiCc::of_channel(32, app.start_channel),
                midi_out: MidiOut::default(),
                nrpn: false,
            },
        ),
        ManagedStorage::new(app.app_id, app.layout_id),
    )
}

/// The milliseconds between two values, by the speed on its curve.
pub open spec fn period(tables: Tables, speed: int) -> u16 {
    (tables.curve(Curve::Exponential, 4095 - speed) * 5000 / 4095 + 71) as u16
}

/// What is read once per millisecond: the shift button, the button, and rolls of
/// the die for the timer. `slewed` is the output one step closer to its target.
#[derive(Clone, Copy, Debug, PartialEq, Eq, Structural)]
pub struct Inputs {
    pub shift: bool,
    pub button: bool,
    pub rolls: Rolls,
    pub slewed: u16,
}

/// What the slew works on: the output, where it is to go, and how fast.
#[derive(Clone, Copy, Debug, PartialEq, Eq, Structural)]
pub struct SlewRequest {
    pub prev: u16,
    pub target: u16,
    pub rate: u16,
}

/// What an event brings.
pub enum Event {
    /// An event of the clock, at the given tick, the shift button, and rolls of the die.
    Clock { event: ClockEvent, ticks: u64, shift: bool, rolls: Rolls },
    /// A millisecond has gone by.
    Millisecond(Inputs),
    /// The button was pressed.
    Down { shift: bool },
    /// The button was pressed for long.
    LongPress { shift: bool },
    /// The fader was moved to a value.
    Fader(u16),
    /// A scene was loaded into the storage.
    LoadScene(Storage),
    /// A scene is to be saved.
    SaveScene(u8),
}

/// The running app.
pub struct Random {
    pub start_channel: usize,
    pub params: Params,
    pub storage: Storage,
    pub muted: bool,
    pub div: u16,
    pub val: u16,
    pub button_color: Color,
    pub time_div: u16,
    pub latch_layer: LatchLayer,
    pub latch: AnalogLatch,
    pub out: u16,
    pub last_out: u16,
    pub count: u32,
}

impl Random {
    pub open spec fn wf(self) -> bool {
        &&& self.start_channel < 16
        &&& self.storage.wf()
        &&& 2 <= self.div <= 384
        &&& self.time_div > 0
    }

    pub open spec fn bipolar(self) -> bool {
        self.params.range.bipolar()
    }

    /// The output set to a value.
    pub open spec fn output(self, value: u16) -> Action {
        (OutJack { channel: self.start_channel, range: self.params.range }).valued(value)
    }

    /// The MIDI port.
    pub open spec fn midi(self) -> MidiOutput {
        MidiOutput::port(
            self.start_channel,
            self.params.midi_out,
            self.params.midi_channel,
            self.params.nrpn,
        )
    }

    fn midi_port(&self) -> (r: MidiOutput)
        ensures
            r == self.midi(),
    {
        MidiOutput::new(
            self.params.midi_out,
            self.start_channel,
            self.params.midi_channel.to_wire(),
            self.params.nrpn,
        )
    }

    /// The button of an app that is not muted.
    pub open spec fn button_led(self) -> Action {
        led_set(self.start_channel, Led::Button, Color::Violet, Brightness::Mid)
    }

    /// The state that the app starts with.
    pub open spec fn started(
        app: App<1>,
        params: Params,
        storage: Storage,
        fader: u16,
        takeover: TakeoverMode,
    ) -> Random {
        Random {
            start_channel: app.start_channel,
            params,
            storage,
            muted: storage.mute_save,
            div: division_of(storage.fader_saved as int),
            val: 0,
            button_color: Color::White,
            time_div: 125,
            latch_layer: LatchLayer::Main,
            latch: AnalogLatch::initial(fader, 25, takeover),
            out: 0,
            last_out: 0,
            count: 0,
        }
    }

    /// What the start sets off: the jack, and the LEDs.
    pub open spec fn start_actions(self) -> Seq<Action> {
        seq![
            Action::Configure {
                channel: self.start_channel,
                mode: PortMode::Output { bipolar: self.bipolar() },
                gpo_level: None,
            },
        ] + (if self.muted {
            seq![
                led_unset(self.start_channel, Led::Button),
                self.output(2047),
                led_unset(self.start_channel, Led::Top),
                led_unset(self.start_channel, Led::Bottom),
            ]
        } else {
            seq![self.button_led()]
        })
    }

    /// Starts the app on what is stored.
    pub fn new(
        app: App<1>,
        params: Params,
        storage: Storage,
        fader: u16,
        takeover: TakeoverMode,
    ) -> (r: (Self, Vec<Action>))
        requires
            app.wf(),
            storage.wf(),
        ensures
            r.0 == Random::started(app, params, storage, fader, takeover),
            r.0.wf(),
            r.1@ == r.0.start_actions(),
    {
        let state = Random {
            start_channel: app.start_channel,
            params,
            storage,
            muted: storage.mute_save,
            div: division_for(storage.fader_saved),
            val: 0,
            button_color: Color::White,
            time_div: 125,
            latch_layer: LatchLayer::Main,
            latch: app.make_latch(fader, takeover),
            out: 0,
            last_out: 0,
            count: 0,
        };
        let leds = app.use_leds();
        let (jack, output) = app.make_out_jack(0, params.range);
        let mut actions: Vec<Action> = vec![output];
        if storage.mute_save {
            actions.push(leds.unset(0, Led::Button));
            actions.push(jack.set_value(2047));
            actions.push(leds.unset(0, Led::Top));
            actions.push(leds.unset(0, Led::Bottom));
        } else {
            actions.push(leds.set(0, Led::Button, Color::Violet, Brightness::Mid));
        }
        (state, actions)
    }

    /// The place of a tick within the division. Ticks are counted in 32 bits.
    pub open spec fn place(self, ticks: u64) -> int {
        ticks as int % 0x1_0000_0000 % self.div as int
    }

    /// Whether the clock brings a new value.
    pub open spec fn clock_fires(self, ticks: u64) -> bool {
        self.place(ticks) == 0 && !self.muted && self.storage.clocked
    }

    /// The state with a new value and a new color.
    pub open spec fn rolled(self, rolls: Rolls) -> Random {
        Random { val: rolls.value, button_color: rolls.color(self.muted), ..self }
    }

    /// The button in the color of the rolls.
    pub open spec fn roll_led(self, rolls: Rolls) -> Action {
        led_set(self.start_channel, Led::Button, rolls.color(self.muted), Brightness::Mid)
    }

    fn roll(&mut self, rolls: Rolls) -> (r: Action)
        requires
            old(self).wf(),
            rolls.wf(),
        ensures
            *final(self) == old(self).rolled(rolls),
            r == old(self).roll_led(rolls),
    {
        let color = rolls.get_color(self.muted);
        self.val = rolls.value;
        self.button_color = color;
        Leds::<1>::new(self.start_channel).set(0, Led::Button, color, Brightness::Mid)
    }

    /// What a tick of the clock sets off: a new value, and with shift a flash of
    /// the division.
    pub open spec fn tick_actions(self, ticks: u64, shift: bool, rolls: Rolls) -> Seq<Action> {
        let at = self.place(ticks);
        (if self.clock_fires(ticks) {
            seq![self.roll_led(rolls)]
        } else {
            Seq::empty()
        }) + (if at == 0 && self.storage.clocked && shift {
            seq![led_set(self.start_channel, Led::Bottom, Color::Red, Brightness::High)]
        } else {
            Seq::empty()
        }) + (if at == part_of_division(self.div as int, 50) && shift {
            seq![led_unset(self.start_channel, Led::Bottom)]
        } else {
            Seq::empty()
        })
    }

    /// An event of the clock.
    pub fn fut1(&mut self, event: ClockEvent, ticks: u64, shift: bool, rolls: Rolls) -> (r: Vec<
        Action,
    >)
        requires
            old(self).wf(),
            rolls.wf(),
        ensures
            *final(self) == (if event == ClockEvent::Tick && old(self).clock_fires(ticks) {
                old(self).rolled(rolls)
            } else {
                *old(self)
            }),
            final(self).wf(),
            r@ == (match event {
                ClockEvent::Tick => old(self).tick_actions(ticks, shift, rolls),
                _ => Seq::empty(),
            }),
    {
        let mut actions: Vec<Action> = Vec::new();
        match event {
            ClockEvent::Tick => {
                let leds = Leds::<1>::new(self.start_channel);
                let clkn: u64 = ticks % 0x1_0000_0000;
                let at: u64 = clkn % self.div as u64;
                let clocked = self.storage.clocked;
                let half: u32 = half_division(self.div as u32);
                if at == 0 && !self.muted && clocked {
                    actions.push(self.roll(rolls));
                }
                if at == 0 && clocked && shift {
                    actions.push(leds.set(0, Led::Bottom, Color::Red, Brightness::High));
                }
                if at == half as u64 && shift {
                    actions.push(leds.unset(0, Led::Bottom));
                }
            },
            _ => {},
        }
        actions
    }

    /// The state with the mute toggled.
    pub open spec fn mute_toggled(self) -> Random {
        let muted = !self.muted;
        Random { muted, storage: Storage { mute_save: muted, ..self.storage }, ..self }
    }

    /// What the toggled mute sets off.
    pub open spec fn mute_actions(self) -> Seq<Action> {
        seq![Action::Save] + (if self.muted {
            seq![self.button_led()]
        } else {
            channels_unset(self.start_channel, 1)
        })
    }

    fn toggle_mute(&mut self) -> (r: Vec<Action>)
        requires
            old(self).wf(),
        ensures
            *final(self) == old(self).mute_toggled(),
            final(self).wf(),
            r@ == old(self).mute_actions(),
    {
        let leds = Leds::<1>::new(self.start_channel);
        let mut actions: Vec<Action> = vec![Action::Save];
        self.muted = !self.muted;
        self.storage.mute_save = self.muted;
        if self.muted {
            let mut dark = leds.unset_all();
            actions.append(&mut dark);
        } else {
            actions.push(leds.set(0, Led::Button, Color::Violet, Brightness::Mid));
        }
        actions
    }

    /// The button was pressed: with shift it toggles the mute.
    pub fn fut2(&mut self, shift: bool) -> (r: Vec<Action>)
        requires
            old(self).wf(),
        ensures
            *final(self) == (if shift {
                old(self).mute_toggled()
            } else {
                *old(self)
            }),
            final(self).wf(),
            r@ == (if shift {
                old(self).mute_actions()
            } else {
                Seq::empty()
            }),
    {
        if shift {
            self.toggle_mute()
        } else {
            Vec::new()
        }
    }

    /// The state after the button was pressed for long with shift: the values
    /// come from the timer instead of the clock, or the other way round, and the
    /// mute of the press before is taken back.
    pub open spec fn held(self, shift: bool) -> Random {
        if shift {
            let toggled = self.mute_toggled();
            Random {
                storage: Storage { clocked: !self.storage.clocked, ..toggled.storage },
                ..toggled
            }
        } else {
            self
        }
    }

    /// The button was pressed for long.
    pub fn long_press(&mut self, shift: bool) -> (r: Vec<Action>)
        requires
            old(self).wf(),
        ensures
            *final(self) == old(self).held(shift),
            final(self).wf(),
            r@ == (if shift {
                old(self).mute_actions()
            } else {
                Seq::empty()
            }),
    {
        if shift {
            self.storage.clocked = !self.storage.clocked;
            self.toggle_mute()
        } else {
            Vec::new()
        }
    }

    /// The stored value that the fader edits: the speed, the attenuation or the slew.
    pub open spec fn fader_target(self) -> u16 {
        match self.latch_layer {
            LatchLayer::Main => self.storage.fader_saved,
            LatchLayer::Alt => self.storage.att_saved,
            LatchLayer::Third => self.storage.slew_saved,
        }
    }

    /// The state after the fader was moved.
    pub open spec fn fader_moved(self, value: u16, tables: Tables) -> Random {
        let target = self.fader_target();
        let latched = Random {
            latch: self.latch.updated(value, self.latch_layer, target),
            ..self
        };
        match self.latch.emits(value, self.latch_layer, target) {
            Some(new_value) => match self.latch_layer {
                LatchLayer::Main => Random {
                    div: division_of(new_value as int),
                    time_div: period(tables, new_value as int),
                    storage: Storage { fader_saved: new_value, ..self.storage },
                    ..latched
                },
                LatchLayer::Alt => Random {
                    storage: Storage { att_saved: new_value, ..self.storage },
                    ..latched
                },
                LatchLayer::Third => Random {
                    storage: Storage { slew_saved: new_value, ..self.storage },
                    ..latched
                },
            },
            None => latched,
        }
    }

    /// A fader that changes a value asks for it to be saved.
    pub open spec fn fader_actions(self, value: u16) -> Seq<Action> {
        if self.latch.emits(value, self.latch_layer, self.fader_target()) is Some {
            seq![Action::Save]
        } else {
            Seq::empty()
        }
    }

    /// The fader was moved.
    pub fn fut3(&mut self, value: u16, tables: &Tables) -> (r: Vec<Action>)
        requires
            old(self).wf(),
            tables.wf(),
            value <= 4095,
        ensures
            *final(self) == old(self).fader_moved(value, *tables),
            final(self).wf(),
            r@ == old(self).fader_actions(value),
    {
        let mut actions: Vec<Action> = Vec::new();
        let layer = self.latch_layer;
        let target: u16 = match layer {
            LatchLayer::Main => self.storage.fader_saved,
            LatchLayer::Alt => self.storage.att_saved,
            LatchLayer::Third => self.storage.slew_saved,
        };
        if let Some(new_value) = self.latch.update(value, layer, target) {
            match layer {
                LatchLayer::Main => {
                    self.div = division_for(new_value);
                    let speed: u32 = tables.curve_at(Curve::Exponential, 4095 - new_value) as u32;
                    self.time_div = (speed * 5000 / 4095 + 71) as u16;
                    self.storage.fader_saved = new_value;
                },
                LatchLayer::Alt => {
                    self.storage.att_saved = new_value;
                },
                LatchLayer::Third => {
                    self.storage.slew_saved = new_value;
                },
            }
            actions.push(Action::Save);
        }
        actions
    }

    /// The state after a scene was loaded into the storage.
    pub open spec fn loaded(self, storage: Storage) -> Random {
        Random {
            storage,
            muted: storage.mute_save,
            div: division_of(storage.fader_saved as int),
            ..self
        }
    }

    /// What a loaded scene sets off.
    pub open spec fn load_actions(self, storage: Storage) -> Seq<Action> {
        if storage.mute_save {
            seq![
                led_unset(self.start_channel, Led::Button),
                led_unset(self.start_channel, Led::Top),
                led_unset(self.start_channel, Led::Bottom),
            ]
        } else {
            seq![self.button_led()]
        }
    }

    /// A scene was loaded into the storage.
    pub fn load_scene(&mut self, storage: Storage) -> (r: Vec<Action>)
        requires
            old(self).wf(),
            storage.wf(),
        ensures
            *final(self) == old(self).loaded(storage),
            final(self).wf(),
            r@ == old(self).load_actions(storage),
    {
        let leds = Leds::<1>::new(self.start_channel);
        self.storage = storage;
        self.muted = storage.mute_save;
        self.div = division_for(storage.fader_saved);
        let mut actions: Vec<Action> = Vec::new();
        if storage.mute_save {
            actions.push(leds.unset(0, Led::Button));
            actions.push(leds.unset(0, Led::Top));
            actions.push(leds.unset(0, Led::Bottom));
        } else {
            actions.push(leds.set(0, Led::Button, Color::Violet, Brightness::Mid));
        }
        actions
    }

    /// Where the output is to go.
    pub open spec fn target(self) -> u16 {
        if self.bipolar() {
            attenuated_bipolar(self.val as int, self.storage.att_saved as int) as u16
        } else {
            (attenuated(self.val as int, self.storage.att_saved as int) % 65536) as u16
        }
    }

    /// What the slew works on in a millisecond.
    pub open spec fn slewing(self, tables: Tables) -> SlewRequest {
        SlewRequest {
            prev: self.out,
            target: self.target(),
            rate: tables.curve(Curve::Exponential, self.storage.slew_saved as int),
        }
    }

    /// What the slew works on in a millisecond.
    pub fn slew_request(&self, tables: &Tables) -> (r: SlewRequest)
        requires
            self.wf(),
            tables.wf(),
        ensures
            r == (SlewRequest {
                prev: self.out,
                target: self.target(),
                rate: tables.curve(Curve::Exponential, self.storage.slew_saved as int),
            }),
            r == self.slewing(*tables),
    {
        let target: u16 = if self.params.range.is_bipolar() {
            attenuate_bipolar(self.val, self.storage.att_saved)
        } else {
            attenuate(self.val, self.storage.att_saved)
        };
        let rate: u16 = tables.curve_at(Curve::Exponential, self.storage.slew_saved);
        SlewRequest { prev: self.out, target, rate }
    }

    /// The output: at rest where it is muted, else as the slew has it.
    pub open spec fn next_out(self, slewed: u16) -> u16 {
        if !self.muted {
            slewed
        } else if self.bipolar() {
            2047
        } else {
            0
        }
    }

    /// The LEDs, by what the fader edits: the output, the attenuation or the slew.
    pub open spec fn leds(self) -> Seq<Action> {
        match self.latch_layer {
            LatchLayer::Main => if self.bipolar() {
                let halves = unsigned_halves(self.out as int);
                seq![
                    led_set(
                        self.start_channel,
                        Led::Top,
                        self.button_color,
                        Brightness::Custom(halves.0 as u8),
                    ),
                    led_set(
                        self.start_channel,
                        Led::Bottom,
                        self.button_color,
                        Brightness::Custom(halves.1 as u8),
                    ),
                ]
            } else {
                seq![
                    led_set(
                        self.start_channel,
                        Led::Top,
                        self.button_color,
                        Brightness::Custom(level_byte(self.out as int)),
                    ),
                ]
            },
            LatchLayer::Alt => seq![
                led_set(
                    self.start_channel,
                    Led::Top,
                    Color::Red,
                    Brightness::Custom(level_byte(self.storage.att_saved as int)),
                ),
            ],
            LatchLayer::Third => seq![
                led_set(
                    self.start_channel,
                    Led::Top,
                    Color::Green,
                    Brightness::Custom(level_byte(self.storage.slew_saved as int)),
                ),
            ],
        }
    }

    fn push_leds(&self, actions: &mut Vec<Action>)
        requires
            self.wf(),
        ensures
            final(actions)@ == old(actions)@ + self.leds(),
    {
        let leds = Leds::<1>::new(self.start_channel);
        match self.latch_layer {
            LatchLayer::Main => {
                let color = self.button_color;
                if self.params.range.is_bipolar() {
                    let ledj = split_unsigned_value(self.out);
                    actions.push(leds.set(0, Led::Top, color, Brightness::Custom(ledj[0])));
                    actions.push(leds.set(0, Led::Bottom, color, Brightness::Custom(ledj[1])));
                } else {
                    let level: u8 = byte_level(self.out);
                    actions.push(leds.set(0, Led::Top, color, Brightness::Custom(level)));
                }
            },
            LatchLayer::Alt => {
                let level: u8 = byte_level(self.storage.att_saved);
                actions.push(leds.set(0, Led::Top, Color::Red, Brightness::Custom(level)));
            },
            LatchLayer::Third => {
                let level: u8 = byte_level(self.storage.slew_saved);
                actions.push(leds.set(0, Led::Top, Color::Green, Brightness::Custom(level)));
            },
        }
    }

    /// The state after the output was set.
    pub open spec fn put_out(self, inputs: Inputs) -> Random {
        Random {
            latch_layer: layer_of(inputs.shift, inputs.button),
            out: self.next_out(inputs.slewed),
            last_out: self.next_out(inputs.slewed),
            ..self
        }
    }

    /// What setting the output sets off: the voltage, and the controller where it
    /// has moved by a step of 32.
    pub open spec fn out_actions(self, slewed: u16) -> Seq<Action> {
        let out = self.next_out(slewed);
        seq![self.output(out)] + (if self.last_out / 32 != out / 32 {
            seq![self.midi().cc(self.params.midi_cc, out)]
        } else {
            Seq::empty()
        })
    }

    /// The timer one millisecond later; it starts over after its last number.
    pub open spec fn next_count(self) -> u32 {
        if self.count == u32::MAX {
            0
        } else {
            (self.count + 1) as u32
        }
    }

    /// Whether the timer brings a new value.
    pub open spec fn timer_fires(self) -> bool {
        !self.storage.clocked && self.next_count() as int % self.time_div as int == 0
    }

    /// The state after a millisecond.
    pub open spec fn waited(self, inputs: Inputs) -> Random {
        let after = self.put_out(inputs);
        let rolled = if self.timer_fires() {
            after.rolled(inputs.rolls)
        } else {
            after
        };
        Random {
            count: if self.storage.clocked {
                self.count
            } else {
                self.next_count()
            },
            ..rolled
        }
    }

    /// What a millisecond sets off.
    pub open spec fn wait_actions(self, inputs: Inputs) -> Seq<Action> {
        self.out_actions(inputs.slewed) + self.put_out(inputs).leds() + (if self.timer_fires() {
            seq![self.roll_led(inputs.rolls)]
        } else {
            Seq::empty()
        })
    }

    /// A millisecond has gone by: the output follows, and the timer runs.
    pub fn timed_loop(&mut self, inputs: Inputs) -> (r: Vec<Action>)
        requires
            old(self).wf(),
            inputs.rolls.wf(),
        ensures
            *final(self) == old(self).waited(inputs),
            final(self).wf(),
            r@ == old(self).wait_actions(inputs),
    {
        let mut actions: Vec<Action> = Vec::new();
        self.latch_layer = layer_for(inputs.shift, inputs.button);
        let out: u16 = if !self.muted {
            inputs.slewed
        } else if self.params.range.is_bipolar() {
            2047
        } else {
            0
        };
        self.out = out;
        actions.push(OutJack::new(self.start_channel, self.params.range).set_value(out));
        if self.last_out / 32 != out / 32 {
            actions.push(self.midi_port().send_cc(self.params.midi_cc, out));
        }
        self.last_out = out;
        self.push_leds(&mut actions);
        if !self.storage.clocked {
            self.count = self.count.wrapping_add(1);
            if self.count % (self.time_div as u32) == 0 {
                actions.push(self.roll(inputs.rolls));
            }
        }
        actions
    }

    /// Whether an event brings what the hardware can bring.
    pub open spec fn admits(event: Event) -> bool {
        match event {
            Event::Clock { rolls, .. } => rolls.wf(),
            Event::Millisecond(inputs) => inputs.rolls.wf(),
            Event::Fader(value) => value <= 4095,
            Event::LoadScene(storage) => storage.wf(),
            _ => true,
        }
    }

    /// The state after an event.
    pub open spec fn after(self, event: Event, tables: Tables) -> Random {
        match event {
            Event::Clock { event, ticks, rolls, .. } => if event == ClockEvent::Tick
                && self.clock_fires(ticks) {
                self.rolled(rolls)
            } else {
                self
            },
            Event::Millisecond(inputs) => self.waited(inputs),
            Event::Down { shift } => if shift {
                self.mute_toggled()
            } else {
                self
            },
            Event::LongPress { shift } => self.held(shift),
            Event::Fader(value) => self.fader_moved(value, tables),
            Event::LoadScene(storage) => self.loaded(storage),
            Event::SaveScene(_) => self,
        }
    }

    /// What an event sets off.
    pub open spec fn does(self, event: Event) -> Seq<Action> {
        match event {
            Event::Clock { event, ticks, shift, rolls } => match event {
                ClockEvent::Tick => self.tick_actions(ticks, shift, rolls),
                _ => Seq::empty(),
            },
            Event::Millisecond(inputs) => self.wait_actions(inputs),
            Event::Down { shift } => if shift {
                self.mute_actions()
            } else {
                Seq::empty()
            },
            Event::LongPress { shift } => if shift {
                self.mute_actions()
            } else {
                Seq::empty()
            },
            Event::Fader(value) => self.fader_actions(value),
            Event::LoadScene(storage) => self.load_actions(storage),
            Event::SaveScene(scene) => seq![Action::SaveScene(scene)],
        }
    }

    /// Handles an event.
    pub fn run(&mut self, event: Event, tables: &Tables) -> (r: Vec<Action>)
        requires
            old(self).wf(),
            Random::admits(event),
            tables.wf(),
        ensures
            *final(self) == old(self).after(event, *tables),
            final(self).wf(),
            r@ == old(self).does(event),
    {
        match event {
            Event::Clock { event, ticks, shift, rolls } => self.fut1(event, ticks, shift, rolls),
            Event::Millisecond(inputs) => self.timed_loop(inputs),
            Event::Down { shift } => self.fut2(shift),
            Event::LongPress { shift } => self.long_press(shift),
            Event::Fader(value) => self.fut3(value, tables),
            Event::LoadScene(storage) => self.load_scene(storage),
            Event::SaveScene(scene) => vec![Action::SaveScene(scene)],
        }
    }
}

/// A long press with shift follows a press with shift: together they leave the
/// mute as it was, and only change where the values come from.
pub proof fn law_long_press_keeps_mute(app: Random)
    requires
        app.muted == app.storage.mute_save,
    ensures
        app.mute_toggled().held(true) == (Random {
            storage: Storage { clocked: !app.storage.clocked, ..app.storage },
            ..app
        }),
{
}

/// While muted the output rests.
pub proof fn law_muted_output_rests(app: Random, inputs: Inputs)
    requires
        app.muted,
    ensures
        app.waited(inputs).out == (if app.bipolar() {
            2047int
        } else {
            0
        }),
{
}

/// On the clock a value is rolled at every tick that the division divides, unless
/// the app is muted, and the button shows the color of the roll. Off the clock,
/// and at any other tick, the value stays.
pub proof fn law_clock_rolls_values(
    app: Random,
    ticks: u64,
    shift: bool,
    rolls: Rolls,
    tables: Tables,
    k: int,
    into: int,
)
    requires
        app.wf(),
        ticks < 0x1_0000_0000,
        0 <= k,
        0 <= into < app.div,
        ticks == k * app.div + into,
    ensures
        ({
            let event = Event::Clock { event: ClockEvent::Tick, ticks, shift, rolls };
            let after = app.after(event, tables);
            let fires = into == 0 && app.storage.clocked && !app.muted;
            &&& fires ==> after == (Random {
                val: rolls.value,
                button_color: rolls.color(false),
                ..app
            }) && app.does(event)[0] == led_set(
                app.start_channel,
                Led::Button,
                rolls.color(false),
                Brightness::Mid,
            )
            &&& !fires ==> after == app
            &&& into == 0 && app.storage.clocked && shift ==> app.does(event).contains(
                led_set(app.start_channel, Led::Bottom, Color::Red, Brightness::High),
            )
            &&& !shift && !fires ==> app.does(event).len() == 0
        }),
        app.after(Event::Clock { event: ClockEvent::Stop, ticks, shift, rolls }, tables) == app,
        app.after(Event::Clock { event: ClockEvent::Reset, ticks, shift, rolls }, tables) == app,
        app.after(Event::Clock { event: ClockEvent::Start, ticks, shift, rolls }, tables) == app,
{
    vstd::arithmetic::div_mod::lemma_fundamental_div_mod_converse(
        ticks as int,
        app.div as int,
        k,
        into,
    );
    let event = Event::Clock { event: ClockEvent::Tick, ticks, shift, rolls };
    if into == 0 && app.storage.clocked && shift {
        let at: int = if app.muted {
            0
        } else {
            1
        };
        assert(app.does(event)[at] == led_set(
            app.start_channel,
            Led::Bottom,
            Color::Red,
            Brightness::High,
        ));
    }
}

/// Off the clock the milliseconds are counted, and a value is rolled whenever the
/// count is a whole number of periods; on the clock they are not.
pub proof fn law_timer_rolls_values(
    app: Random,
    inputs: Inputs,
    tables: Tables,
    k: int,
    into: int,
)
    requires
        app.wf(),
        app.count < u32::MAX,
        0 <= k,
        0 <= into < app.time_div,
        app.count + 1 == k * app.time_div + into,
    ensures
        ({
            let after = app.after(Event::Millisecond(inputs), tables);
            let fires = into == 0 && !app.storage.clocked;
            &&& fires ==> after.val == inputs.rolls.value && after.button_color
                == inputs.rolls.color(app.muted)
            &&& !fires ==> after.val == app.val && after.button_color == app.button_color
            &&& app.storage.clocked ==> after.count == app.count
            &&& !app.storage.clocked ==> after.count == app.count + 1
            &&& after.storage == app.storage && after.muted == app.muted && after.div == app.div
        }),
{
    vstd::arithmetic::div_mod::lemma_fundamental_div_mod_converse(
        app.count + 1,
        app.time_div as int,
        k,
        into,
    );
}

/// The slew goes from the output to the value after the attenuation: its share of
/// the value on a unipolar range, of its distance from the middle on a bipolar
/// one. Its rate is the stored one on the exponential curve.
pub proof fn law_slew_goes_to_value(app: Random, tables: Tables)
    requires
        app.wf(),
        app.val <= 4095,
        app.storage.att_saved <= 4095,
    ensures
        ({
            let request = app.slewing(tables);
            let goal = request.target as int;
            let att = app.storage.att_saved;
            let bipolar = app.params.range.bipolar();
            &&& request.prev == app.out
            &&& request.rate == tables.curve(Curve::Exponential, app.storage.slew_saved as int)
            &&& !bipolar ==> 4095 * goal <= app.val * att < 4095 * goal + 4095
            &&& bipolar && app.val >= 2048 ==> 4095 * (goal - 2048) <= (app.val - 2048) * att
                < 4095 * (goal - 2048) + 4095
            &&& bipolar && app.val <= 2048 ==> 4095 * (2048 - goal) <= (2048 - app.val) * att
                < 4095 * (2048 - goal) + 4095
        }),
{
    let att = app.storage.att_saved as int;
    crate::apps::parts::law_levels_scale_from_rest(app.val as int, att);
    crate::utils::law_attenuate_ends(app.val as int, att);
}

/// The output is set at every millisecond, to where the slew is or to rest where
/// the app is muted. Its controller is sent where the output has gone over a
/// multiple of 32. The layer follows the buttons.
pub proof fn law_output_is_set(app: Random, inputs: Inputs, tables: Tables)
    requires
        app.wf(),
    ensures
        ({
            let after = app.after(Event::Millisecond(inputs), tables);
            let actions = app.does(Event::Millisecond(inputs));
            let rest: u16 = if app.params.range.bipolar() {
                2047
            } else {
                0
            };
            let out = if app.muted {
                rest
            } else {
                inputs.slewed
            };
            let cc = app.midi().cc(app.params.midi_cc, out);
            &&& after.out == out && after.last_out == out
            &&& actions[0] == (Action::Dac {
                channel: app.start_channel,
                value: crate::app::output_value(app.params.range, out),
            })
            &&& (exists|m: int|
                app.last_out < 32 * m <= out || out < #[trigger] (32 * m) <= app.last_out)
                ==> actions[1] == cc
            &&& app.last_out == out ==> actions[1] != cc
            &&& after.latch_layer == (if inputs.shift && !inputs.button {
                LatchLayer::Alt
            } else if !inputs.shift && inputs.button {
                LatchLayer::Third
            } else {
                LatchLayer::Main
            })
        }),
{
}

/// With shift a press toggles the mute, which is stored and saved, and a long one
/// takes the values from the clock or the timer as well. Without shift neither
/// does anything.
pub proof fn law_buttons_mute_and_clock(app: Random, tables: Tables)
    requires
        app.wf(),
    ensures
        ({
            let press = Event::Down { shift: true };
            let hold = Event::LongPress { shift: true };
            let muted = !app.muted;
            &&& app.after(press, tables) == (Random {
                muted,
                storage: Storage { mute_save: muted, ..app.storage },
                ..app
            })
            &&& app.after(hold, tables) == (Random {
                muted,
                storage: Storage {
                    mute_save: muted,
                    clocked: !app.storage.clocked,
                    ..app.storage
                },
                ..app
            })
            &&& app.does(press)[0] == Action::Save && app.does(hold)[0] == Action::Save
            &&& app.muted ==> app.does(press)[1] == led_set(
                app.start_channel,
                Led::Button,
                Color::Violet,
                Brightness::Mid,
            )
            &&& app.after(Event::Down { shift: false }, tables) == app
            &&& app.after(Event::LongPress { shift: false }, tables) == app
            &&& app.does(Event::Down { shift: false }).len() == 0
            &&& app.does(Event::LongPress { shift: false }).len() == 0
        }),
{
}

/// A fader that has a value to give stores it and asks for it to be saved: as the
/// speed, as the attenuation or as the slew, by the layer. The division and the
/// period follow the speed: the period is 71 milliseconds and up to five seconds
/// more on the exponential curve.
pub proof fn law_fader_stores_its_value(app: Random, value: u16, tables: Tables)
    requires
        app.wf(),
        tables.wf(),
        value <= 4095,
    ensures
        ({
            let layer = app.latch_layer;
            let event = Event::Fader(value);
            let target = match layer {
                LatchLayer::Main => app.storage.fader_saved,
                LatchLayer::Alt => app.storage.att_saved,
                LatchLayer::Third => app.storage.slew_saved,
            };
            let emitted = app.latch.emits(value, layer, target);
            let after = app.after(event, tables);
            let slow = tables.curve(Curve::Exponential, 4095 - emitted.unwrap());
            &&& after.latch == app.latch.updated(value, layer, target)
            &&& emitted is None ==> after.storage == app.storage && app.does(event).len() == 0
            &&& emitted is Some ==> app.does(event) == seq![Action::Save]
            &&& emitted is None || layer != LatchLayer::Main ==> after.div == app.div
                && after.time_div == app.time_div
            &&& emitted matches Some(v) ==> (layer == LatchLayer::Alt ==> after.storage == (
            Storage { att_saved: v, ..app.storage })) && (layer == LatchLayer::Third
                ==> after.storage == (Storage { slew_saved: v, ..app.storage })) && (layer
                == LatchLayer::Main ==> after.storage == (Storage {
                fader_saved: v,
                ..app.storage
            }) && after.div == division_of(v as int) && 4095 * (after.time_div - 71) <= slow * 5000
                < 4095 * (after.time_div - 71) + 4095)
        }),
{
}

/// A scene brings its storage, the mute and the division of it.
pub proof fn law_scenes_bring_storage(app: Random, storage: Storage, tables: Tables, scene: u8)
    ensures
        app.after(Event::LoadScene(storage), tables) == (Random {
            storage,
            muted: storage.mute_save,
            div: division_of(storage.fader_saved as int),
            ..app
        }),
        app.after(Event::SaveScene(scene), tables) == app,
        app.does(Event::SaveScene(scene)) == seq![Action::SaveScene(scene)],
{
}

/// The LEDs show the output in the color of the last roll, above and below the
/// middle on a bipolar range; with shift the attenuation in red, and with the button
/// held the slew in green. They follow the output and come before a new roll.
pub proof fn law_output_is_shown(app: Random, inputs: Inputs)
    requires
        app.wf(),
    ensures
        ({
            let after = app.put_out(inputs);
            let shown = after.leds();
            let first = app.start_channel;
            let (above, below) = unsigned_halves(after.out as int);
            match after.latch_layer {
                LatchLayer::Main => {
                    &&& app.params.range.bipolar() ==> shown == seq![
                        led_set(
                            first,
                            Led::Top,
                            app.button_color,
                            Brightness::Custom(above as u8),
                        ),
                        led_set(
                            first,
                            Led::Bottom,
                            app.button_color,
                            Brightness::Custom(below as u8),
                        ),
                    ]
                    &&& !app.params.range.bipolar() ==> shown == seq![
                        led_set(
                            first,
                            Led::Top,
                            app.button_color,
                            Brightness::Custom(level_byte(after.out as int)),
                        ),
                    ]
                },
                LatchLayer::Alt => shown == seq![
                    led_set(
                        first,
                        Led::Top,
                        Color::Red,
                        Brightness::Custom(level_byte(app.storage.att_saved as int)),
                    ),
                ],
                LatchLayer::Third => shown == seq![
                    led_set(
                        first,
                        Led::Top,
                        Color::Green,
                        Brightness::Custom(level_byte(app.storage.slew_saved as int)),
                    ),
                ],
            }
        }),
        ({
            let actions = app.does(Event::Millisecond(inputs));
            let roll = led_set(
                app.start_channel,
                Led::Button,
                inputs.rolls.color(app.muted),
                Brightness::Mid,
            );
            let at: int = if app.last_out / 32 != app.put_out(inputs).out / 32 {
                2
            } else {
                1
            };
            &&& app.timer_fires() ==> actions.last() == roll && actions.drop_last().skip(at)
                == app.put_out(inputs).leds()
            &&& !app.timer_fires() ==> actions.skip(at) == app.put_out(inputs).leds()
        }),
{
}

/// Half a division after its flash, the lower LED goes out again, while shift is
/// held; a scene shows the mute of its storage, and muting puts all LEDs out.
pub proof fn law_mute_and_flash_are_shown(
    app: Random,
    ticks: u64,
    rolls: Rolls,
    storage: Storage,
    k: int,
    into: int,
)
    requires
        app.wf(),
        ticks < 0x1_0000_0000,
        0 <= k,
        0 < into < app.div,
        ticks == k * app.div + into,
    ensures
        ({
            let tick = app.does(
                Event::Clock { event: ClockEvent::Tick, ticks, shift: true, rolls },
            );
            let first = app.start_channel;
            let loaded = app.does(Event::LoadScene(storage));
            let half = 2 * into <= app.div < 2 * into + 2;
            &&& half ==> tick == seq![led_unset(first, Led::Bottom)]
            &&& !half ==> tick.len() == 0
            &&& storage.mute_save ==> loaded == seq![
                led_unset(first, Led::Button),
                led_unset(first, Led::Top),
                led_unset(first, Led::Bottom),
            ]
            &&& !storage.mute_save ==> loaded == seq![
                led_set(first, Led::Button, Color::Violet, Brightness::Mid),
            ]
            &&& !app.muted ==> app.does(Event::Down { shift: true }).skip(1) == channels_unset(
                first,
                1,
            )
        }),
{
    vstd::arithmetic::div_mod::lemma_fundamental_div_mod_converse(
        ticks as int,
        app.div as int,
        k,
        into,
    );
}

/// The app starts on what is stored, muted as it is stored, with the stored
/// division and a white button, its timer at 125 milliseconds. Its faders are where
/// they are found.
pub proof fn law_starts_on_storage(
    app: App<1>,
    params: Params,
    storage: Storage,
    fader: u16,
    takeover: TakeoverMode,
    tables: Tables,
)
    ensures
        ({
            let s = Random::started(app, params, storage, fader, takeover);
            &&& s.start_channel == app.start_channel && s.params == params && s.storage == storage
            &&& s.latch_layer == LatchLayer::Main
            &&& s.latch == AnalogLatch::initial(fader, 25, takeover)
            &&& s.muted == storage.mute_save
            &&& s.div == division_of(storage.fader_saved as int)
            &&& s == s.after(Event::LoadScene(storage), tables)
            &&& s.val == 0 && s.out == 0 && s.last_out == 0 && s.count == 0
            &&& s.time_div == 125
            &&& s.button_color == Color::White
        }),
{
}

/// The start takes an output of the app's range and lights the button; where the app
/// is muted it puts the output to the middle and the LEDs out.
pub proof fn law_start_is_shown(app: Random)
    ensures
        ({
            let start = app.start_actions();
            let first = app.start_channel;
            &&& start[0] == (Action::Configure {
                channel: first,
                mode: PortMode::Output { bipolar: app.params.range.bipolar() },
                gpo_level: None,
            })
            &&& !app.muted ==> start.skip(1) == seq![
                led_set(first, Led::Button, Color::Violet, Brightness::Mid),
            ]
            &&& app.muted ==> start.skip(1) == seq![
                led_unset(first, Led::Button),
                Action::Dac {
                    channel: first,
                    value: crate::app::output_value(app.params.range, 2047),
                },
                led_unset(first, Led::Top),
                led_unset(first, Led::Bottom),
            ]
        }),
{
}

/// The parameters of a fresh app, and what it has in its storage.
pub proof fn law_fresh_app(start_channel: usize, r: Storage)
    requires
        call_ensures(Storage::default, (), r),
    ensures
        ({
            let p = initial_params(start_channel);
            &&& p.range == Range::_0_10V
            &&& p.midi_channel == MidiChannel(1)
            &&& p.midi_cc == MidiCc::for_channel(32, start_channel)
            &&& p.midi_out == (MidiOut { usb: true, out1: true, out2: true })
            &&& !p.nrpn
        }),
        r.fader_saved == 3000,
        !r.mute_save,
        r.att_saved == 4096,
        r.slew_saved == 0,
        r.clocked,
{
}

} // verus!
