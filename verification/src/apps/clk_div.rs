//! Clock Divider: gates and notes at a division of the clock.
use vstd::prelude::*;

use crate::app::{
    led_set, led_unset, Action, App, GateJack, Leds, MidiOutput, PortMode,
};
use crate::apps::parts::{
    division_for, division_of, layer_for, layer_of, part_division, part_of_division,
};
use crate::latch::{AnalogLatch, LatchLayer, TakeoverMode};
use crate::storage::{values_new, values_push, AppParams, AppStorage, ManagedStorage, ParamStore};
use crate::tasks::leds::Led;
use crate::types::{
    Brightness, ClockEvent, Color, MidiChannel, MidiNote, MidiOut, ParamValue, Value,
};
use crate::utils::{clamp_to, rescaled};

verus! {

pub const CHANNELS: usize = 1;

pub const PARAMS: usize = 5;

/// The parameters of the app.
#[derive(Clone, Copy, Debug, PartialEq, Eq, Structural)]
pub struct Params {
    pub midi_channel: MidiChannel,
    pub midi_out: MidiOut,
    pub note: MidiNote,
    pub gatel: i32,
    pub color: Color,
}

impl AppParams for Params {
    open spec fn read(values: Seq<Value>) -> Option<Self> {
        if values.len() < 5 {
            None
        } else {
            Some(
                Params {
                    midi_channel: MidiChannel::reads(values[0]),
                    note: MidiNote::reads(values[1]),
                    gatel: i32::reads(values[2]),
                    color: Color::reads(values[3]),
                    midi_out: MidiOut::reads(values[4]),
                },
            )
        }
    }

    open spec fn listing(self) -> Seq<Value> {
        seq![
            self.midi_channel.stored(),
            self.note.stored(),
            self.gatel.stored(),
            self.color.stored(),
            self.midi_out.stored(),
        ]
    }

    fn from_values(values: &[Value]) -> (r: Option<Self>) {
        if values.len() < PARAMS {
            return None;
        }
        Some(
            Params {
                midi_channel: MidiChannel::from_value(values[0]),
                note: MidiNote::from_value(values[1]),
                gatel: i32::from_value(values[2]),
                color: Color::from_value(values[3]),
                midi_out: MidiOut::from_value(values[4]),
            },
        )
    }

    fn to_values(&self) -> (r: heapless::Vec<Value, 16>) {
        let mut vec = values_new();
        let _ = values_push(&mut vec, self.midi_channel.into_value());
        let _ = values_push(&mut vec, self.note.into_value());
        let _ = values_push(&mut vec, self.gatel.into_value());
        let _ = values_push(&mut vec, self.color.into_value());
        let _ = values_push(&mut vec, self.midi_out.into_value());
        vec
    }

    proof fn law_params_round_trip(self) {
    }
}

impl Params {
    /// Whether the length of a gate can be computed for every division.
    pub open spec fn wf(self) -> bool {
        0 <= self.gatel <= 11_184_810
    }
}

/// What the app keeps. The divisions of the fader lie between the least and the
/// greatest one.
#[derive(Clone, Copy, Debug, PartialEq, Eq, Structural)]
pub struct Storage {
    pub fader_saved: u16,
    pub mute_saved: bool,
    pub max_div: u16,
    pub min_div: u16,
}

impl Default for Storage {
    fn default() -> (r: Self)
        ensures
            r == (Storage { fader_saved: 3000, mute_saved: false, max_div: 4095, min_div: 0 }),
            r.wf(),
    {
        Storage { fader_saved: 3000, mute_saved: false, max_div: 4095, min_div: 0 }
    }
}

impl AppStorage for Storage {

}

impl Storage {
    /// Whether the positions that divisions are derived from are within the table.
    pub open spec fn wf(self) -> bool {
        self.fader_saved <= 4139 && self.max_div <= 4139 && self.min_div <= 4139
    }
}

/// The parameters that the app starts with: gates of half a step, and no MIDI output.
pub open spec fn initial_params() -> Params {
    Params {
        midi_channel: MidiChannel(1),
        midi_out: MidiOut { usb: false, out1: false, out2: false },
        note: MidiNote(32),
        gatel: 50,
        color: Color::Cyan,
    }
}

/// The parameters and the storage of the app, before anything was loaded.
pub fn wrapper(app: App<1>) -> (r: (ParamStore<Params>, ManagedStorage<Storage>))
    ensures
        r.0 == (ParamStore {
            app_id: app.app_id,
            inner: initial_params(),
            layout_id: app.layout_id,
        }),
        r.1.app_id == app.app_id,
        r.1.layout_id == app.layout_id,
        call_ensures(Storage::default, (), r.1.inner),
{
    (
        ParamStore::new(
            app.app_id,
            app.layout_id,
            Params {
                midi_channel: MidiChannel::default(),
                midi_out: MidiOut { usb: false, out1: false, out2: false },
                note: MidiNote(32),
                gatel: 50,
                color: Color::Cyan,
            },
        ),
        ManagedStorage::new(app.app_id, app.layout_id),
    )
}

/// Rescale a 12-bit value (`0..=4095`) into a `min..=max` interval.
pub fn rescale_12bit_int(input: u16, min: u16, max: u16) -> (r: u16)
    ensures
        r == rescaled(input as int, min as int, max as int),
        min <= max ==> min <= r <= max,
{
    crate::utils::rescale_12bit_int(input, min, max)
}

/// What an event brings.
pub enum Event {
    /// An event of the clock, at the given tick.
    Clock { event: ClockEvent, ticks: u64 },
    /// The button was pressed.
    Down { shift: bool },
    /// The fader was moved to a value.
    Fader(u16),
    /// A look at the buttons, once per millisecond.
    Layer { shift: bool, button: bool },
    /// A scene was loaded into the storage.
    LoadScene(Storage),
    /// A scene is to be saved.
    SaveScene(u8),
}

/// The running app. `start_max` is the greatest position that the app started with.
pub struct ClockDivider {
    pub start_channel: usize,
    pub params: Params,
    pub storage: Storage,
    pub start_max: u16,
    pub muted: bool,
    pub div: u16,
    pub max: u16,
    pub min: u16,
    pub latch_layer: LatchLayer,
    pub latch: AnalogLatch,
    pub note_on: bool,
}

impl ClockDivider {
    pub open spec fn wf(self) -> bool {
        &&& self.start_channel < 16
        &&& self.params.wf()
        &&& self.storage.wf()
        &&& 2 <= self.div <= 384
        &&& 2 <= self.max <= 384
        &&& 2 <= self.min <= 384
    }

    /// The MIDI port.
    pub open spec fn midi(self) -> MidiOutput {
        MidiOutput::port(self.start_channel, self.params.midi_out, self.params.midi_channel, false)
    }

    fn midi_port(&self) -> (r: MidiOutput)
        ensures
            r == self.midi(),
    {
        MidiOutput::new(
            self.params.midi_out,
            self.start_channel,
            self.params.midi_channel.to_wire(),
            false,
        )
    }

    /// Its gate.
    pub open spec fn gate(self, high: bool) -> Action {
        Action::Gate { channel: self.start_channel, high }
    }

    /// The state that the app starts with.
    pub open spec fn started(
        app: App<1>,
        params: Params,
        storage: Storage,
        fader: u16,
        takeover: TakeoverMode,
    ) -> ClockDivider {
        ClockDivider {
            start_channel: app.start_channel,
            params,
            storage,
            start_max: storage.max_div,
            muted: storage.mute_saved,
            div: division_of(storage.fader_saved as int),
            max: division_of(storage.max_div as int),
            min: division_of(storage.min_div as int),
            latch_layer: LatchLayer::Main,
            latch: AnalogLatch::initial(fader, 25, takeover),
            note_on: false,
        }
    }

    /// What the start sets off.
    pub open spec fn start_actions(self) -> Seq<Action> {
        seq![
            Action::Configure {
                channel: self.start_channel,
                mode: PortMode::Gate,
                gpo_level: Some(4095),
            },
        ] + (if self.muted {
            seq![
                led_unset(self.start_channel, Led::Button),
                led_unset(self.start_channel, Led::Top),
                led_unset(self.start_channel, Led::Bottom),
            ]
        } else {
            seq![self.button_led()]
        })
    }

    /// The button of an app that is not muted.
    pub open spec fn button_led(self) -> Action {
        led_set(self.start_channel, Led::Button, self.params.color, Brightness::High)
    }

    /// Starts the app on what is stored.
    pub fn new(
        app: App<1>,
        params: Params,
        storage: Storage,
        fader: u16,
        takeover: TakeoverMode,
    ) -> (r: (Self, Vec<Action>))
        requires
            app.wf(),
            params.wf(),
            storage.wf(),
        ensures
            r.0 == ClockDivider::started(app, params, storage, fader, takeover),
            r.0.wf(),
            r.1@ == r.0.start_actions(),
    {
        let state = ClockDivider {
            start_channel: app.start_channel,
            params,
            storage,
            start_max: storage.max_div,
            muted: storage.mute_saved,
            div: division_for(storage.fader_saved),
            max: division_for(storage.max_div),
            min: division_for(storage.min_div),
            latch_layer: LatchLayer::Main,
            latch: app.make_latch(fader, takeover),
            note_on: false,
        };
        let leds = app.use_leds();
        let mut actions: Vec<Action> = vec![app.make_gate_jack(0, 4095).1];
        if storage.mute_saved {
            actions.push(leds.unset(0, Led::Button));
            actions.push(leds.unset(0, Led::Top));
            actions.push(leds.unset(0, Led::Bottom));
        } else {
            actions.push(leds.set(0, Led::Button, params.color, Brightness::High));
        }
        (state, actions)
    }

    /// The ticks, counted in 32 bits.
    pub open spec fn clkn(ticks: u64) -> int {
        ticks as int % 0x1_0000_0000
    }

    /// Whether a step begins at a tick and is played.
    pub open spec fn plays(self, ticks: u64) -> bool {
        Self::clkn(ticks) % self.div as int == 0 && !self.muted
    }

    /// Whether gates end at a tick.
    pub open spec fn gates_end(self, ticks: u64) -> bool {
        Self::clkn(ticks) % self.div as int == part_of_division(
            self.div as int,
            self.params.gatel as int,
        )
    }

    /// What a step sets off.
    pub open spec fn step_actions(self) -> Seq<Action> {
        seq![self.gate(true)] + (if self.latch_layer == LatchLayer::Main {
            seq![
                led_set(
                    self.start_channel,
                    Led::Bottom,
                    if self.div == 2 || self.div == 4 || self.div == 8 || self.div == 16 {
                        Color::Orange
                    } else {
                        Color::Blue
                    },
                    Brightness::High,
                ),
            ]
        } else {
            Seq::empty()
        }) + seq![self.midi().note_on(self.params.note, 4095)]
    }

    /// What the end of a gate sets off.
    pub open spec fn end_actions(self) -> Seq<Action> {
        (if self.note_on {
            seq![self.midi().note_off(self.params.note), self.gate(false)]
        } else {
            Seq::empty()
        }) + (if self.latch_layer == LatchLayer::Main {
            seq![
                led_set(self.start_channel, Led::Top, self.params.color, Brightness::Off),
                led_set(self.start_channel, Led::Bottom, self.params.color, Brightness::Off),
            ]
        } else {
            Seq::empty()
        })
    }

    /// The tick within a limit at which its light goes out.
    pub open spec fn limit_end(self, limit: u16) -> int {
        clamp_to(limit * self.params.gatel / 100, 1, self.div - 1)
    }

    /// The lights of the limits while one of them is edited: each blinks in its
    /// own division, the greatest on top, the least below.
    pub open spec fn limit_leds(self, ticks: u64) -> Seq<Action> {
        let clkn = Self::clkn(ticks);
        let color = self.params.color;
        if self.latch_layer == LatchLayer::Main {
            Seq::empty()
        } else {
            (if clkn % self.max as int == self.limit_end(self.max) {
                seq![led_set(self.start_channel, Led::Top, color, Brightness::Off)]
            } else {
                Seq::empty()
            }) + (if clkn % self.min as int == self.limit_end(self.min) {
                seq![led_set(self.start_channel, Led::Bottom, color, Brightness::Off)]
            } else {
                Seq::empty()
            }) + (if clkn % self.max as int == 0 {
                seq![led_set(self.start_channel, Led::Top, Color::Red, Brightness::High)]
            } else {
                Seq::empty()
            }) + (if clkn % self.min as int == 0 {
                seq![led_set(self.start_channel, Led::Bottom, Color::Red, Brightness::High)]
            } else {
                Seq::empty()
            })
        }
    }

    /// The state after an event of the clock.
    pub open spec fn clocked(self, event: ClockEvent, ticks: u64) -> ClockDivider {
        match event {
            ClockEvent::Tick => if self.plays(ticks) {
                ClockDivider { note_on: true, ..self }
            } else if self.gates_end(ticks) {
                ClockDivider { note_on: false, ..self }
            } else {
                self
            },
            ClockEvent::Reset => ClockDivider { note_on: false, ..self },
            ClockEvent::Stop => ClockDivider { note_on: false, ..self },
            ClockEvent::Start => self,
        }
    }

    /// What an event of the clock sets off.
    pub open spec fn clock_actions(self, event: ClockEvent, ticks: u64) -> Seq<Action> {
        match event {
            ClockEvent::Tick => (if self.plays(ticks) {
                self.step_actions()
            } else if self.gates_end(ticks) {
                self.end_actions()
            } else {
                Seq::empty()
            }) + self.limit_leds(ticks),
            ClockEvent::Reset => seq![self.midi().note_off(self.params.note), self.gate(false)],
            ClockEvent::Stop => seq![self.midi().note_off(self.params.note), self.gate(false)],
            ClockEvent::Start => Seq::empty(),
        }
    }

    fn find_limit_end(&self, limit: u16) -> (r: u32)
        requires
            self.wf(),
            limit <= 384,
        ensures
            r == self.limit_end(limit),
    {
        let gatel: u32 = self.params.gatel as u32;
        let ticks: u32 = limit as u32;
        assert(0 <= ticks * gatel <= 384 * 11_184_810) by (nonlinear_arith)
            requires
                0 <= ticks <= 384,
                0 <= gatel <= 11_184_810,
        ;
        let part: u32 = ticks * gatel / 100;
        let most: u32 = self.div as u32 - 1;
        if part < 1 {
            1
        } else if part > most {
            most
        } else {
            part
        }
    }

    fn push_limits(&self, clkn: u32, ticks: Ghost<u64>, actions: &mut Vec<Action>)
        requires
            self.wf(),
            clkn == Self::clkn(ticks@),
        ensures
            final(actions)@ == old(actions)@ + self.limit_leds(ticks@),
    {
        let leds = Leds::<1>::new(self.start_channel);
        let color = self.params.color;
        if self.latch_layer != LatchLayer::Main {
            let max: u32 = self.max as u32;
            let min: u32 = self.min as u32;
            if clkn % max == self.find_limit_end(self.max) {
                actions.push(leds.set(0, Led::Top, color, Brightness::Off));
            }
            if clkn % min == self.find_limit_end(self.min) {
                actions.push(leds.set(0, Led::Bottom, color, Brightness::Off));
            }
            if clkn % max == 0 {
                actions.push(leds.set(0, Led::Top, Color::Red, Brightness::High));
            }
            if clkn % min == 0 {
                actions.push(leds.set(0, Led::Bottom, Color::Red, Brightness::High));
            }
        }
    }

    fn push_step(&self, actions: &mut Vec<Action>)
        requires
            self.wf(),
        ensures
            final(actions)@ == old(actions)@ + self.step_actions(),
    {
        let leds = Leds::<1>::new(self.start_channel);
        actions.push(GateJack::new(self.start_channel).set_high());
        if self.latch_layer == LatchLayer::Main {
            if self.div == 2 || self.div == 4 || self.div == 8 || self.div == 16 {
                actions.push(leds.set(0, Led::Bottom, Color::Orange, Brightness::High));
            } else {
                actions.push(leds.set(0, Led::Bottom, Color::Blue, Brightness::High));
            }
        }
        actions.push(self.midi_port().send_note_on(self.params.note, 4095));
    }

    fn push_end(&self, actions: &mut Vec<Action>)
        requires
            self.wf(),
        ensures
            final(actions)@ == old(actions)@ + self.end_actions(),
    {
        let leds = Leds::<1>::new(self.start_channel);
        if self.note_on {
            actions.push(self.midi_port().send_note_off(self.params.note));
            actions.push(GateJack::new(self.start_channel).set_low());
        }
        if self.latch_layer == LatchLayer::Main {
            actions.push(leds.set(0, Led::Top, self.params.color, Brightness::Off));
            actions.push(leds.set(0, Led::Bottom, self.params.color, Brightness::Off));
        }
    }

    /// An event of the clock.
    pub fn fut1(&mut self, event: ClockEvent, ticks: u64) -> (r: Vec<Action>)
        requires
            old(self).wf(),
        ensures
            *final(self) == old(self).clocked(event, ticks),
            final(self).wf(),
            r@ == old(self).clock_actions(event, ticks),
    {
        let mut actions: Vec<Action> = Vec::new();
        match event {
            ClockEvent::Reset | ClockEvent::Stop => {
                actions.push(self.midi_port().send_note_off(self.params.note));
                self.note_on = false;
                actions.push(GateJack::new(self.start_channel).set_low());
            },
            ClockEvent::Tick => {
                let div: u32 = self.div as u32;
                let gatel: u32 = self.params.gatel as u32;
                assert(div * gatel <= 384 * 11_184_810) by (nonlinear_arith)
                    requires
                        0 <= div <= 384,
                        0 <= gatel <= 11_184_810,
                ;
                let end: u32 = part_division(div, gatel);
                let clkn: u32 = (ticks % 0x1_0000_0000) as u32;
                if clkn % div == 0 && !self.muted {
                    self.push_step(&mut actions);
                    self.note_on = true;
                }
                if clkn % div == end {
                    self.push_end(&mut actions);
                    self.note_on = false;
                }
                self.push_limits(clkn, Ghost(ticks), &mut actions);
            },
            ClockEvent::Start => {},
        }
        actions
    }

    /// The state with the mute toggled.
    pub open spec fn mute_toggled(self) -> ClockDivider {
        let muted = !self.muted;
        ClockDivider { muted, storage: Storage { mute_saved: muted, ..self.storage }, ..self }
    }

    /// What the toggled mute sets off.
    pub open spec fn mute_actions(self) -> Seq<Action> {
        seq![Action::Save] + (if self.muted {
            seq![self.button_led()]
        } else {
            seq![self.gate(false), led_unset(self.start_channel, Led::Button)]
        })
    }

    /// The button was pressed: with shift it toggles the mute.
    pub fn fut2(&mut self, shift: bool) -> (r: Vec<Action>)
        requires
            old(self).wf(),
        ensures
            *final(self) == (if shift {
                old(self).mute_toggled()
            } else {
                *old(self)
            }),
            final(self).wf(),
            r@ == (if shift {
                old(self).mute_actions()
            } else {
                Seq::empty()
            }),
    {
        let mut actions: Vec<Action> = Vec::new();
        if shift {
            let leds = Leds::<1>::new(self.start_channel);
            self.muted = !self.muted;
            self.storage.mute_saved = self.muted;
            actions.push(Action::Save);
            if self.muted {
                actions.push(GateJack::new(self.start_channel).set_low());
                actions.push(leds.unset(0, Led::Button));
            } else {
                actions.push(leds.set(0, Led::Button, self.params.color, Brightness::High));
            }
        }
        actions
    }

    /// The stored position that the fader edits: the division, the greatest one or
    /// the least one.
    pub open spec fn fader_target(self) -> u16 {
        match self.latch_layer {
            LatchLayer::Main => self.storage.fader_saved,
            LatchLayer::Alt => self.storage.max_div,
            LatchLayer::Third => self.storage.min_div,
        }
    }

    /// The state with a fader's position stored. The greatest position stays at or
    /// above the least one, and the other way round.
    pub open spec fn edited(self, value: u16) -> ClockDivider {
        match self.latch_layer {
            LatchLayer::Main => ClockDivider {
                div: division_of(
                    rescaled(
                        value as int,
                        self.storage.min_div as int,
                        self.storage.max_div as int,
                    ),
                ),
                storage: Storage { fader_saved: value, ..self.storage },
                ..self
            },
            LatchLayer::Alt => ClockDivider {
                storage: Storage {
                    max_div: if value > self.storage.min_div {
                        value
                    } else {
                        self.storage.min_div
                    },
                    ..self.storage
                },
                max: division_of(
                    if value < self.start_max {
                        value as int
                    } else {
                        self.start_max as int
                    },
                ),
                ..self
            },
            LatchLayer::Third => {
                let limited = if value < self.storage.max_div {
                    value
                } else {
                    self.storage.max_div
                };
                ClockDivider {
                    storage: Storage { min_div: limited, ..self.storage },
                    min: division_of(limited as int),
                    ..self
                }
            },
        }
    }

    /// The state after the fader was moved.
    pub open spec fn fader_moved(self, value: u16) -> ClockDivider {
        let target = self.fader_target();
        let latched = ClockDivider {
            latch: self.latch.updated(value, self.latch_layer, target),
            ..self
        };
        match self.latch.emits(value, self.latch_layer, target) {
            Some(new_value) => latched.edited(new_value),
            None => latched,
        }
    }

    /// A fader that changes a value asks for it to be saved.
    pub open spec fn fader_actions(self, value: u16) -> Seq<Action> {
        if self.latch.emits(value, self.latch_layer, self.fader_target()) is Some {
            seq![Action::Save]
        } else {
            Seq::empty()
        }
    }

    fn edit(&mut self, value: u16)
        requires
            old(self).wf(),
            value <= 4095,
        ensures
            *final(self) == old(self).edited(value),
            final(self).wf(),
    {
        match self.latch_layer {
            LatchLayer::Main => {
                let val: u16 = rescale_12bit_int(
                    value,
                    self.storage.min_div,
                    self.storage.max_div,
                );
                self.div = division_for(val);
                self.storage.fader_saved = value;
            },
            LatchLayer::Alt => {
                if value > self.storage.min_div {
                    self.storage.max_div = value;
                } else {
                    self.storage.max_div = self.storage.min_div;
                }
                let limited: u16 = if value < self.start_max {
                    value
                } else {
                    self.start_max
                };
                self.max = division_for(limited);
            },
            LatchLayer::Third => {
                let limited: u16 = if value < self.storage.max_div {
                    value
                } else {
                    self.storage.max_div
                };
                self.storage.min_div = limited;
                self.min = division_for(limited);
            },
        }
    }

    /// The fader was moved.
    pub fn fut3(&mut self, value: u16) -> (r: Vec<Action>)
        requires
            old(self).wf(),
            value <= 4095,
        ensures
            *final(self) == old(self).fader_moved(value),
            final(self).wf(),
            r@ == old(self).fader_actions(value),
    {
        let mut actions: Vec<Action> = Vec::new();
        let layer = self.latch_layer;
        let target: u16 = match layer {
            LatchLayer::Main => self.storage.fader_saved,
            LatchLayer::Alt => self.storage.max_div,
            LatchLayer::Third => self.storage.min_div,
        };
        if let Some(new_value) = self.latch.update(value, layer, target) {
            self.edit(new_value);
            actions.push(Action::Save);
        }
        actions
    }

    /// The state after a scene was loaded into the storage.
    pub open spec fn loaded(self, storage: Storage) -> ClockDivider {
        ClockDivider {
            storage,
            muted: storage.mute_saved,
            div: division_of(storage.fader_saved as int),
            ..self
        }
    }

    /// What a loaded scene sets off.
    pub open spec fn load_actions(self, storage: Storage) -> Seq<Action> {
        if storage.mute_saved {
            seq![
                led_unset(self.start_channel, Led::Button),
                self.gate(false),
                led_unset(self.start_channel, Led::Top),
                led_unset(self.start_channel, Led::Bottom),
            ]
        } else {
            seq![self.button_led()]
        }
    }

    /// A scene was loaded into the storage.
    pub fn load_scene(&mut self, storage: Storage) -> (r: Vec<Action>)
        requires
            old(self).wf(),
            storage.wf(),
        ensures
            *final(self) == old(self).loaded(storage),
            final(self).wf(),
            r@ == old(self).load_actions(storage),
    {
        let leds = Leds::<1>::new(self.start_channel);
        self.storage = storage;
        self.muted = storage.mute_saved;
        self.div = division_for(storage.fader_saved);
        let mut actions: Vec<Action> = Vec::new();
        if storage.mute_saved {
            actions.push(leds.unset(0, Led::Button));
            actions.push(GateJack::new(self.start_channel).set_low());
            actions.push(leds.unset(0, Led::Top));
            actions.push(leds.unset(0, Led::Bottom));
        } else {
            actions.push(leds.set(0, Led::Button, self.params.color, Brightness::High));
        }
        actions
    }

    /// Follows the buttons, once per millisecond.
    pub fn shift(&mut self, shift: bool, button: bool)
        requires
            old(self).wf(),
        ensures
            *final(self) == (ClockDivider { latch_layer: layer_of(shift, button), ..*old(self) }),
            final(self).wf(),
    {
        self.latch_layer = layer_for(shift, button);
    }

    /// Whether an event brings what the hardware can bring.
    pub open spec fn admits(event: Event) -> bool {
        match event {
            Event::Fader(value) => value <= 4095,
            Event::LoadScene(storage) => storage.wf(),
            _ => true,
        }
    }

    /// The state after an event.
    pub open spec fn after(self, event: Event) -> ClockDivider {
        match event {
            Event::Clock { event, ticks } => self.clocked(event, ticks),
            Event::Down { shift } => if shift {
                self.mute_toggled()
            } else {
                self
            },
            Event::Fader(value) => self.fader_moved(value),
            Event::Layer { shift, button } => ClockDivider {
                latch_layer: layer_of(shift, button),
                ..self
            },
            Event::LoadScene(storage) => self.loaded(storage),
            Event::SaveScene(_) => self,
        }
    }

    /// What an event sets off.
    pub open spec fn does(self, event: Event) -> Seq<Action> {
        match event {
            Event::Clock { event, ticks } => self.clock_actions(event, ticks),
            Event::Down { shift } => if shift {
                self.mute_actions()
            } else {
                Seq::empty()
            },
            Event::Fader(value) => self.fader_actions(value),
            Event::Layer { .. } => Seq::empty(),
            Event::LoadScene(storage) => self.load_actions(storage),
            Event::SaveScene(scene) => seq![Action::SaveScene(scene)],
        }
    }

    /// Handles an event.
    pub fn run(&mut self, event: Event) -> (r: Vec<Action>)
        requires
            old(self).wf(),
            ClockDivider::admits(event),
        ensures
            *final(self) == old(self).after(event),
            final(self).wf(),
            r@ == old(self).does(event),
    {
        match event {
            Event::Clock { event, ticks } => self.fut1(event, ticks),
            Event::Down { shift } => self.fut2(shift),
            Event::Fader(value) => self.fut3(value),
            Event::Layer { shift, button } => {
                self.shift(shift, button);
                Vec::new()
            },
            Event::LoadScene(storage) => self.load_scene(storage),
            Event::SaveScene(scene) => vec![Action::SaveScene(scene)],
        }
    }
}

/// However the limits are edited, the greatest stays at or above the least, and
/// the division of the fader lies between them.
pub proof fn law_limits_stay_ordered(app: ClockDivider, value: u16)
    requires
        app.wf(),
        app.storage.min_div <= app.storage.max_div,
        value <= 4095,
    ensures
        app.edited(value).storage.min_div <= app.edited(value).storage.max_div,
        app.storage.min_div <= rescaled(
            value as int,
            app.storage.min_div as int,
            app.storage.max_div as int,
        ) <= app.storage.max_div,
{
    crate::utils::law_rescale_covers_interval(
        value as int,
        app.storage.min_div as int,
        app.storage.max_div as int,
    );
}

/// A muted app plays nothing.
pub proof fn law_muted_plays_nothing(app: ClockDivider, ticks: u64)
    requires
        app.muted,
    ensures
        !app.plays(ticks),
        !app.note_on ==> !app.clocked(ClockEvent::Tick, ticks).note_on,
{
}

/// The output opens, and the note starts, at every tick that the division divides,
/// unless the app is muted. What is open ends, with its note, at the tick that is
/// a gate length, in hundredths, into the division, at least one tick and less
/// than all of it. Nothing opens or ends at another tick.
pub proof fn law_division_is_played(app: ClockDivider, ticks: u64, k: int, into: int)
    requires
        app.wf(),
        ticks < 0x1_0000_0000,
        0 <= k,
        0 <= into < app.div,
        ticks == k * app.div + into,
    ensures
        ({
            let event = Event::Clock { event: ClockEvent::Tick, ticks };
            let after = app.after(event);
            let actions = app.does(event);
            let open = Action::Gate { channel: app.start_channel, high: true };
            let close = Action::Gate { channel: app.start_channel, high: false };
            let start = app.midi().note_on(app.params.note, 4095);
            let length = app.div * app.params.gatel;
            let ends = into > 0 && ((100 * into <= length < 100 * into + 100) || (into == 1 && length
                < 100) || (into == app.div - 1 && length >= 100 * into));
            &&& into == 0 && !app.muted ==> after.note_on && actions[0] == open && actions.contains(
                start,
            )
            &&& into != 0 || app.muted ==> !actions.contains(open) && !actions.contains(start)
            &&& ends ==> !after.note_on
            &&& ends && app.note_on ==> actions[0] == app.midi().note_off(app.params.note)
                && actions[1] == close
            &&& !ends && (into != 0 || app.muted) ==> after == app && !actions.contains(close)
            &&& after == (ClockDivider { note_on: after.note_on, ..app })
        }),
{
    let div = app.div as int;
    vstd::arithmetic::div_mod::lemma_fundamental_div_mod_converse(ticks as int, div, k, into);
    assert(0 <= div * app.params.gatel) by (nonlinear_arith)
        requires
            0 <= div,
            0 <= app.params.gatel,
    ;
    let event = Event::Clock { event: ClockEvent::Tick, ticks };
    let actions = app.does(event);
    if into == 0 && !app.muted {
        let at: int = if app.latch_layer == LatchLayer::Main {
            2
        } else {
            1
        };
        assert(actions[at] == app.midi().note_on(app.params.note, 4095));
    }
}

/// A stop and a reset close the output and end its note.
pub proof fn law_stop_silences(app: ClockDivider, ticks: u64, reset: bool)
    ensures
        ({
            let event = Event::Clock {
                event: if reset {
                    ClockEvent::Reset
                } else {
                    ClockEvent::Stop
                },
                ticks,
            };
            &&& !app.after(event).note_on
            &&& app.does(event) == seq![
                app.midi().note_off(app.params.note),
                Action::Gate { channel: app.start_channel, high: false },
            ]
        }),
{
}

/// A fader that has a value to give stores it and asks for it to be saved. On the
/// main layer it picks the division, its share of the way from the least to the
/// greatest; on the others it sets the greatest, but not below the least, or the
/// least, but not above the greatest.
pub proof fn law_fader_picks_division(app: ClockDivider, value: u16)
    requires
        app.wf(),
        value <= 4095,
        app.storage.min_div <= app.storage.max_div,
    ensures
        ({
            let target = match app.latch_layer {
                LatchLayer::Main => app.storage.fader_saved,
                LatchLayer::Alt => app.storage.max_div,
                LatchLayer::Third => app.storage.min_div,
            };
            let event = Event::Fader(value);
            let after = app.after(event);
            let before = app.storage;
            let emitted = app.latch.emits(value, app.latch_layer, target);
            &&& after.latch == app.latch.updated(value, app.latch_layer, target)
            &&& emitted is None ==> after.storage == before && after.div == app.div && app.does(
                event,
            ).len() == 0
            &&& emitted matches Some(v) ==> {
                &&& app.does(event) == seq![Action::Save]
                &&& app.latch_layer == LatchLayer::Main ==> after.storage == (Storage {
                    fader_saved: v,
                    ..before
                })
                &&& app.latch_layer == LatchLayer::Main && before.min_div == 0 && before.max_div
                    == 4095 ==> after.div == division_of(v as int)
                &&& app.latch_layer == LatchLayer::Main ==> exists|place: int|
                    after.div == #[trigger] division_of(place) && before.min_div <= place
                        <= before.max_div && 4095 * (place - before.min_div) <= (before.max_div
                        - before.min_div) * v < 4095 * (place - before.min_div) + 4095
                &&& app.latch_layer == LatchLayer::Alt ==> after.storage == (Storage {
                    max_div: if v < before.min_div {
                        before.min_div
                    } else {
                        v
                    },
                    ..before
                }) && after.div == app.div
                &&& app.latch_layer == LatchLayer::Third ==> after.storage == (Storage {
                    min_div: if v > before.max_div {
                        before.max_div
                    } else {
                        v
                    },
                    ..before
                }) && after.div == app.div && after.min == division_of(
                    after.storage.min_div as int,
                )
            }
        }),
{
    let target = app.fader_target();
    if let Some(v) = app.latch.emits(value, app.latch_layer, target) {
        assert(v <= 4095);
        let min = app.storage.min_div as int;
        let max = app.storage.max_div as int;
        let place = rescaled(v as int, min, max);
        crate::utils::law_rescale_covers_interval(v as int, min, max);
        crate::utils::law_rescale_is_proportional(v as int, min, max);
        if min == max {
            assert((max - min) * v == 0) by (nonlinear_arith)
                requires
                    max == min,
            ;
        }
        if min == 0 && max == 4095 {
            assert((max - min) * v == 4095 * v) by (nonlinear_arith)
                requires
                    max == 4095,
                    min == 0,
            ;
            assert(place == v);
        }
        if app.latch_layer == LatchLayer::Main {
            assert(app.after(Event::Fader(value)).div == division_of(place));
        }
    }
}

/// The button with shift toggles the mute, which is stored, and closes the output
/// where it mutes; without shift it does nothing. A scene brings its mute and its
/// division.
pub proof fn law_mute_and_scenes(app: ClockDivider, storage: Storage)
    requires
        app.wf(),
    ensures
        ({
            let event = Event::Down { shift: true };
            let after = app.after(event);
            &&& after.muted == !app.muted && after.storage == (Storage {
                mute_saved: !app.muted,
                ..app.storage
            })
            &&& app.does(event)[0] == Action::Save
            &&& !app.muted ==> app.does(event)[1] == (Action::Gate {
                channel: app.start_channel,
                high: false,
            })
            &&& app.after(Event::Down { shift: false }) == app
            &&& app.does(Event::Down { shift: false }).len() == 0
        }),
        app.after(Event::LoadScene(storage)).storage == storage,
        app.after(Event::LoadScene(storage)).muted == storage.mute_saved,
        app.after(Event::LoadScene(storage)).div == division_of(storage.fader_saved as int),
        storage.mute_saved ==> app.does(Event::LoadScene(storage)).contains(
            Action::Gate { channel: app.start_channel, high: false },
        ),
        app.after(Event::Layer { shift: true, button: false }).latch_layer == LatchLayer::Alt,
        app.after(Event::Layer { shift: false, button: true }).latch_layer == LatchLayer::Third,
        app.after(Event::Layer { shift: false, button: false }).latch_layer == LatchLayer::Main,
{
    if storage.mute_saved {
        assert(app.does(Event::LoadScene(storage))[1] == app.gate(false));
    }
}

/// A step lights the lower LED, in orange for the divisions by 2, 4, 8 and 16 and in
/// blue for the others, and its end puts both LEDs out, unless a limit is edited.
pub proof fn law_steps_are_shown(app: ClockDivider, ticks: u64, k: int, into: int)
    requires
        app.wf(),
        ticks < 0x1_0000_0000,
        0 <= k,
        0 <= into < app.div,
        ticks == k * app.div + into,
        !app.muted,
        app.latch_layer == LatchLayer::Main,
    ensures
        ({
            let actions = app.does(Event::Clock { event: ClockEvent::Tick, ticks });
            let halves = app.div == 2 || app.div == 4 || app.div == 8 || app.div == 16;
            let length = app.div * app.params.gatel;
            let ends = into > 0 && ((100 * into <= length < 100 * into + 100) || (into == 1 && length
                < 100) || (into == app.div - 1 && length >= 100 * into));
            let at: int = if app.note_on {
                2
            } else {
                0
            };
            &&& into == 0 ==> actions[1] == led_set(
                app.start_channel,
                Led::Bottom,
                if halves {
                    Color::Orange
                } else {
                    Color::Blue
                },
                Brightness::High,
            )
            &&& ends ==> actions.len() == at + 2 && actions[at] == led_set(
                app.start_channel,
                Led::Top,
                app.params.color,
                Brightness::Off,
            ) && actions[at + 1] == led_set(
                app.start_channel,
                Led::Bottom,
                app.params.color,
                Brightness::Off,
            )
        }),
{
    let div = app.div as int;
    vstd::arithmetic::div_mod::lemma_fundamental_div_mod_converse(ticks as int, div, k, into);
    assert(0 <= div * app.params.gatel) by (nonlinear_arith)
        requires
            0 <= div,
            0 <= app.params.gatel,
    ;
}

/// While a limit is edited, the greatest blinks in red on the upper LED and the
/// least on the lower one: lit where its division begins, and out after a gate
/// length, at least one tick and less than a division of the steps.
pub proof fn law_limits_blink(app: ClockDivider, ticks: u64, k: int, into: int, j: int, low: int)
    requires
        app.wf(),
        ticks < 0x1_0000_0000,
        0 <= k,
        0 <= into < app.max,
        ticks == k * app.max + into,
        0 <= j,
        0 <= low < app.min,
        ticks == j * app.min + low,
        app.latch_layer != LatchLayer::Main,
    ensures
        ({
            let blinks = app.limit_leds(ticks);
            let first = app.start_channel;
            let color = app.params.color;
            let above = app.max * app.params.gatel;
            let below = app.min * app.params.gatel;
            let goes_out = (100 * into <= above < 100 * into + 100 && 1 <= into < app.div) || (into
                == 1 && above < 100 && app.div > 1) || (into == app.div - 1 && into > 0 && above
                >= 100 * into);
            let low_out = (100 * low <= below < 100 * low + 100 && 1 <= low < app.div) || (low == 1
                && below < 100 && app.div > 1) || (low == app.div - 1 && low > 0 && below >= 100
                * low);
            &&& into == 0 ==> blinks.contains(led_set(first, Led::Top, Color::Red, Brightness::High))
            &&& low == 0 ==> blinks.contains(
                led_set(first, Led::Bottom, Color::Red, Brightness::High),
            )
            &&& goes_out ==> blinks.contains(led_set(first, Led::Top, color, Brightness::Off))
            &&& low_out ==> blinks.contains(led_set(first, Led::Bottom, color, Brightness::Off))
            &&& into != 0 && low != 0 && !goes_out && !low_out ==> blinks.len() == 0
        }),
{
    let t = ticks as int;
    vstd::arithmetic::div_mod::lemma_fundamental_div_mod_converse(t, app.max as int, k, into);
    vstd::arithmetic::div_mod::lemma_fundamental_div_mod_converse(t, app.min as int, j, low);
    assert(0 <= app.max * app.params.gatel) by (nonlinear_arith)
        requires
            0 <= app.max,
            0 <= app.params.gatel,
    ;
    assert(0 <= app.min * app.params.gatel) by (nonlinear_arith)
        requires
            0 <= app.min,
            0 <= app.params.gatel,
    ;
    let blinks = app.limit_leds(ticks);
    let first = app.start_channel;
    let a: int = if into == app.limit_end(app.max) {
        1
    } else {
        0
    };
    let b: int = if low == app.limit_end(app.min) {
        a + 1
    } else {
        a
    };
    let c: int = if into == 0 {
        b + 1
    } else {
        b
    };
    if into == app.limit_end(app.max) {
        assert(blinks[0] == led_set(first, Led::Top, app.params.color, Brightness::Off));
    }
    if low == app.limit_end(app.min) {
        assert(blinks[a] == led_set(first, Led::Bottom, app.params.color, Brightness::Off));
    }
    if into == 0 {
        assert(blinks[b] == led_set(first, Led::Top, Color::Red, Brightness::High));
    }
    if low == 0 {
        assert(blinks[c] == led_set(first, Led::Bottom, Color::Red, Brightness::High));
    }
}

/// The button is lit while the app is not muted; a mute closes the output, and a
/// scene that is muted puts all LEDs out.
pub proof fn law_mute_is_shown(app: ClockDivider, storage: Storage)
    ensures
        ({
            let press = app.does(Event::Down { shift: true });
            let load = app.does(Event::LoadScene(storage));
            let first = app.start_channel;
            let lit = led_set(first, Led::Button, app.params.color, Brightness::High);
            &&& app.muted ==> press == seq![Action::Save, lit]
            &&& !app.muted ==> press == seq![
                Action::Save,
                Action::Gate { channel: first, high: false },
                led_unset(first, Led::Button),
            ]
            &&& !storage.mute_saved ==> load == seq![lit]
            &&& storage.mute_saved ==> load == seq![
                led_unset(first, Led::Button),
                Action::Gate { channel: first, high: false },
                led_unset(first, Led::Top),
                led_unset(first, Led::Bottom),
            ]
        }),
{
}

/// The app starts on what is stored, silent, muted as it is stored, with the stored
/// division between the stored limits. Its faders are where they are found.
pub proof fn law_starts_on_storage(
    app: App<1>,
    params: Params,
    storage: Storage,
    fader: u16,
    takeover: TakeoverMode,
)
    ensures
        ({
            let s = ClockDivider::started(app, params, storage, fader, takeover);
            &&& s.start_channel == app.start_channel && s.params == params && s.storage == storage
            &&& s.latch_layer == LatchLayer::Main
            &&& s.latch == AnalogLatch::initial(fader, 25, takeover)
            &&& s.muted == storage.mute_saved
            &&& s.div == division_of(storage.fader_saved as int)
            &&& s.max == division_of(storage.max_div as int) && s.min == division_of(storage.min_div as int)
            &&& s.start_max == storage.max_div
            &&& !s.note_on
        }),
{
}

/// The start takes a gate output at full level and lights the button, or puts the
/// LEDs out where the app is muted.
pub proof fn law_start_is_shown(app: ClockDivider)
    ensures
        ({
            let start = app.start_actions();
            let first = app.start_channel;
            &&& start[0] == (Action::Configure {
                channel: first,
                mode: PortMode::Gate,
                gpo_level: Some(4095),
            })
            &&& !app.muted ==> start.skip(1) == seq![
                led_set(first, Led::Button, app.params.color, Brightness::High),
            ]
            &&& app.muted ==> start.skip(1) == seq![
                led_unset(first, Led::Button),
                led_unset(first, Led::Top),
                led_unset(first, Led::Bottom),
            ]
        }),
{
}

/// The parameters of a fresh app, and what it has in its storage.
pub proof fn law_fresh_app(r: Storage)
    requires
        call_ensures(Storage::default, (), r),
    ensures
        ({
            let p = initial_params();
            &&& p.midi_channel == MidiChannel(1)
            &&& p.midi_out == (MidiOut { usb: false, out1: false, out2: false })
            &&& p.note == MidiNote(32)
            &&& p.gatel == 50
            &&& p.color == Color::Cyan
        }),
        r == (Storage { fader_saved: 3000, mute_saved: false, max_div: 4095, min_div: 0 }),
{
}

} // verus!
