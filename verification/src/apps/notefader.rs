//! Note Fader: notes from a fader, by hand or on the clock.
use vstd::prelude::*;

use crate::app::{
    channels_unset, led_set, led_unset, Action, App, Leds, MidiOutput, OutJack, PortMode,
    Quantized, Quantizer,
};
use crate::apps::parts::{division_for, division_of, part_division, part_of_division};
use crate::latch::{divide_to_zero, quotient_to_zero, AnalogLatch, LatchLayer, TakeoverMode};
use crate::storage::{values_new, values_push, AppParams, AppStorage, ManagedStorage, ParamStore};
use crate::tasks::leds::Led;
use crate::types::{
    Brightness, ClockEvent, Color, MidiChannel, MidiNote, MidiOut, ParamValue, Range, Value,
};
use crate::utils::wrap_i32;

verus! {

pub const CHANNELS: usize = 1;

pub const PARAMS: usize = 7;

/// The parameters of the app. The output is the pitch (0) or a gate (1).
#[derive(Clone, Copy, Debug, PartialEq, Eq, Structural)]
pub struct Params {
    pub midi_channel: MidiChannel,
    pub midi_note: MidiNote,
    pub midi_out: MidiOut,
    pub span: i32,
    pub gatel: i32,
    pub outmode: usize,
    pub color: Color,
}

impl AppParams for Params {
    open spec fn read(values: Seq<Value>) -> Option<Self> {
        if values.len() < 7 {
            None
        } else {
            Some(
                Params {
                    midi_channel: MidiChannel::reads(values[0]),
                    midi_note: MidiNote::reads(values[1]),
                    span: i32::reads(values[2]),
                    gatel: i32::reads(values[3]),
                    outmode: usize::reads(values[4]),
                    color: Color::reads(values[5]),
                    midi_out: MidiOut::reads(values[6]),
                },
            )
        }
    }

    open spec fn listing(self) -> Seq<Value> {
        seq![
            self.midi_channel.stored(),
            self.midi_note.stored(),
            self.span.stored(),
            self.gatel.stored(),
            self.outmode.stored(),
            self.color.stored(),
            self.midi_out.stored(),
        ]
    }

    fn from_values(values: &[Value]) -> (r: Option<Self>) {
        if values.len() < PARAMS {
            return None;
        }
        Some(
            Params {
                midi_channel: MidiChannel::from_value(values[0]),
                midi_note: MidiNote::from_value(values[1]),
                span: i32::from_value(values[2]),
                gatel: i32::from_value(values[3]),
                outmode: usize::from_value(values[4]),
                color: Color::from_value(values[5]),
                midi_out: MidiOut::from_value(values[6]),
            },
        )
    }

    fn to_values(&self) -> (r: heapless::Vec<Value, 16>) {
        let mut vec = values_new();
        let _ = values_push(&mut vec, self.midi_channel.into_value());
        let _ = values_push(&mut vec, self.midi_note.into_value());
        let _ = values_push(&mut vec, self.span.into_value());
        let _ = values_push(&mut vec, self.gatel.into_value());
        let _ = values_push(&mut vec, self.outmode.into_value());
        let _ = values_push(&mut vec, self.color.into_value());
        let _ = values_push(&mut vec, self.midi_out.into_value());
        vec
    }

    proof fn law_params_round_trip(self) {
    }
}

impl Params {
    /// Whether the length of a gate can be computed for every division.
    pub open spec fn wf(self) -> bool {
        0 <= self.gatel <= 11_184_810
    }
}

/// What the app keeps.
#[derive(Clone, Copy, Debug, PartialEq, Eq, Structural)]
pub struct Storage {
    pub note_saved: u16,
    pub fader_saved: u16,
    pub mute_saved: bool,
    pub clocked: bool,
}

impl Default for Storage {
    fn default() -> (r: Self)
        ensures
            r == (Storage {
                note_saved: 0,
                fader_saved: 3000,
                mute_saved: false,
                clocked: false,
            }),
            r.wf(),
    {
        Storage { note_saved: 0, fader_saved: 3000, mute_saved: false, clocked: false }
    }
}

impl AppStorage for Storage {

}

impl Storage {
    /// Whether the position that the division is derived from is within the table.
    pub open spec fn wf(self) -> bool {
        self.fader_saved <= 4139
    }
}

/// The parameters that the app starts with: two octaves from the third C on.
pub open spec fn initial_params() -> Params {
    Params {
        midi_channel: MidiChannel(1),
        midi_note: MidiNote(48),
        midi_out: (MidiOut { usb: true, out1: true, out2: true }),
        span: 24,
        gatel: 50,
        outmode: 0,
        color: Color::Rose,
    }
}

/// The parameters and the storage of the app, before anything was loaded.
pub fn wrapper(app: App<1>) -> (r: (ParamStore<Params>, ManagedStorage<Storage>))
    ensures
        r.0 == (ParamStore {
            app_id: app.app_id,
            inner: initial_params(),
            layout_id: app.layout_id,
        }),
        r.1.app_id == app.app_id,
        r.1.layout_id == app.layout_id,
        call_ensures(Storage::default, (), r.1.inner),
{
    (
        ParamStore::new(
            app.app_id,
            app.layout_id,
            Params {
                midi_channel: MidiChannel::default(),
                midi_note: MidiNote(48),
                midi_out: MidiOut::default(),
                span: 24,
                gatel: 50,
                outmode: 0,
                color: Color::Rose,
            },
        ),
        ManagedStorage::new(app.app_id, app.layout_id),
    )
}

/// What an event brings. A played note is the quantized pitch, its number moved
/// up by the base note.
pub enum Event {
    /// An event of the clock, at the given tick, with the note that would be played.
    Clock { event: ClockEvent, ticks: u64, played: Quantized },
    /// The button was pressed, with the note that would be played.
    Down { shift: bool, played: Quantized },
    /// The button was released.
    Up { shift: bool },
    /// The fader was moved to a value.
    Fader(u16),
    /// A look at the shift button, once per millisecond.
    Layer { shift: bool },
    /// A scene was loaded into the storage.
    LoadScene(Storage),
    /// A scene is to be saved.
    SaveScene(u8),
}

/// The running app. The clock and the button each know the last note that they played.
pub struct NoteFader {
    pub start_channel: usize,
    pub params: Params,
    pub storage: Storage,
    pub start_mute: bool,
    pub muted: bool,
    pub div: u16,
    pub latch_layer: LatchLayer,
    pub latch: AnalogLatch,
    pub note_on: bool,
    pub clock_note: MidiNote,
    pub button_note: MidiNote,
}

impl NoteFader {
    pub open spec fn wf(self) -> bool {
        &&& self.start_channel < 16
        &&& self.params.wf()
        &&& self.storage.wf()
        &&& 2 <= self.div <= 384
    }

    /// The MIDI port.
    pub open spec fn midi(self) -> MidiOutput {
        MidiOutput::port(self.start_channel, self.params.midi_out, self.params.midi_channel, false)
    }

    fn midi_port(&self) -> (r: MidiOutput)
        ensures
            r == self.midi(),
    {
        MidiOutput::new(
            self.params.midi_out,
            self.start_channel,
            self.params.midi_channel.to_wire(),
            false,
        )
    }

    /// The output set to a value.
    pub open spec fn output(self, value: u16) -> Action {
        Action::Dac { channel: self.start_channel, value }
    }

    fn jack(&self) -> (r: OutJack)
        ensures
            r == (OutJack { channel: self.start_channel, range: Range::_0_10V }),
    {
        OutJack::new(self.start_channel, Range::_0_10V)
    }

    /// An LED in the color of the app.
    pub open spec fn led(self, led: Led, brightness: Brightness) -> Action {
        led_set(self.start_channel, led, self.params.color, brightness)
    }

    fn show(&self, led: Led, brightness: Brightness) -> (r: Action)
        requires
            self.start_channel < 16,
        ensures
            r == self.led(led, brightness),
    {
        Leds::<1>::new(self.start_channel).set(0, led, self.params.color, brightness)
    }

    /// The state that the app starts with.
    pub open spec fn started(
        app: App<1>,
        params: Params,
        storage: Storage,
        fader: u16,
        takeover: TakeoverMode,
    ) -> NoteFader {
        NoteFader {
            start_channel: app.start_channel,
            params,
            storage,
            start_mute: storage.mute_saved,
            muted: storage.mute_saved,
            div: division_of(storage.fader_saved as int),
            latch_layer: LatchLayer::Main,
            latch: AnalogLatch::initial(fader, 25, takeover),
            note_on: false,
            clock_note: MidiNote(0),
            button_note: MidiNote(62),
        }
    }

    /// What the start sets off.
    pub open spec fn start_actions(self) -> Seq<Action> {
        seq![
            Action::Configure {
                channel: self.start_channel,
                mode: PortMode::Output { bipolar: false },
                gpo_level: None,
            },
        ] + (if self.muted {
            seq![
                led_unset(self.start_channel, Led::Button),
                led_unset(self.start_channel, Led::Top),
                led_unset(self.start_channel, Led::Bottom),
            ]
        } else {
            seq![self.led(Led::Button, Brightness::Mid)]
        })
    }

    /// Starts the app on what is stored.
    pub fn new(
        app: App<1>,
        params: Params,
        storage: Storage,
        fader: u16,
        takeover: TakeoverMode,
    ) -> (r: (Self, Vec<Action>))
        requires
            app.wf(),
            params.wf(),
            storage.wf(),
        ensures
            r.0 == NoteFader::started(app, params, storage, fader, takeover),
            r.0.wf(),
            r.1@ == r.0.start_actions(),
    {
        let state = NoteFader {
            start_channel: app.start_channel,
            params,
            storage,
            start_mute: storage.mute_saved,
            muted: storage.mute_saved,
            div: division_for(storage.fader_saved),
            latch_layer: LatchLayer::Main,
            latch: app.make_latch(fader, takeover),
            note_on: false,
            clock_note: MidiNote::default(),
            button_note: MidiNote(62),
        };
        let leds = app.use_leds();
        let mut actions: Vec<Action> = vec![app.make_out_jack(0, Range::_0_10V).1];
        if storage.mute_saved {
            actions.push(leds.unset(0, Led::Button));
            actions.push(leds.unset(0, Led::Top));
            actions.push(leds.unset(0, Led::Bottom));
        } else {
            actions.push(state.show(Led::Button, Brightness::Mid));
        }
        (state, actions)
    }

    /// The pitch of the fader within the span, scaled in 32 bits with a sign; its low
    /// 16 bits stay.
    pub open spec fn pitch(self) -> int {
        let scaled = wrap_i32(self.storage.note_saved * (self.params.span + 3));
        quotient_to_zero(scaled, 120) % 65536
    }

    fn find_pitch(&self) -> (r: u16)
        ensures
            r == self.pitch(),
    {
        let note: i64 = self.storage.note_saved as i64;
        let span: i64 = self.params.span as i64 + 3;
        assert(-0x1_0000_0000_0000 <= note * span <= 0x1_0000_0000_0000) by (nonlinear_arith)
            requires
                0 <= note <= 65535,
                -0x8000_0000 <= span <= 0x8000_0002,
        ;
        let product: i64 = note * span;
        // A multiple of the modulus keeps the sum from being negative.
        let lifted: i64 = product + 0x8000_0000 + 0x1_0000_0000_0000;
        let scaled: i64 = lifted % 0x1_0000_0000 - 0x8000_0000;
        assert(scaled == wrap_i32(product as int));
        let pitch: i64 = divide_to_zero(scaled, 120);
        ((pitch + 0x8000_0000) % 65536) as u16
    }

    /// What the quantizer is asked for: the pitch of the fader, in 12 bits.
    pub fn request(&self) -> (r: u16)
        requires
            self.wf(),
        ensures
            r == (if self.pitch() > 4095 {
                4095
            } else {
                self.pitch()
            }),
    {
        let (pitch, _) = Quantizer::new(Range::_0_10V).get_quantized_note(self.find_pitch());
        pitch
    }

    /// What a played note sets off.
    pub open spec fn trigger_actions(self, played: Quantized) -> Seq<Action> {
        seq![
            self.led(Led::Top, Brightness::Mid),
            self.output(
                if self.params.outmode == 0 {
                    played.counts
                } else {
                    4095
                },
            ),
            self.midi().note_on(played.note, 4095),
            self.led(Led::Button, Brightness::Mid),
        ]
    }

    fn trigger_note(&self, played: Quantized, actions: &mut Vec<Action>)
        requires
            self.wf(),
        ensures
            final(actions)@ == old(actions)@ + self.trigger_actions(played),
    {
        actions.push(self.show(Led::Top, Brightness::Mid));
        let value: u16 = if self.params.outmode == 0 {
            played.counts
        } else {
            4095
        };
        actions.push(self.jack().set_value(value));
        actions.push(self.midi_port().send_note_on(played.note, 4095));
        actions.push(self.show(Led::Button, Brightness::Mid));
    }

    /// A gate that ends, where the output is one.
    pub open spec fn gate_off(self) -> Seq<Action> {
        if self.params.outmode == 1 {
            seq![self.output(0)]
        } else {
            Seq::empty()
        }
    }

    fn push_gate_off(&self, actions: &mut Vec<Action>)
        requires
            self.wf(),
        ensures
            final(actions)@ == old(actions)@ + self.gate_off(),
    {
        if self.params.outmode == 1 {
            actions.push(self.jack().set_value(0));
        }
    }

    /// The place of a tick within the division. Ticks are counted in 32 bits.
    pub open spec fn place(self, ticks: u64) -> int {
        ticks as int % 0x1_0000_0000 % self.div as int
    }

    /// Whether the clock plays a step at a tick.
    pub open spec fn steps(self, ticks: u64) -> bool {
        self.place(ticks) == 0 && self.storage.clocked
    }

    /// Whether gates end at a tick.
    pub open spec fn gates_end(self, ticks: u64) -> bool {
        self.place(ticks) == part_of_division(self.div as int, self.params.gatel as int)
    }

    /// The state after a tick.
    pub open spec fn ticked(self, ticks: u64, played: Quantized) -> NoteFader {
        if self.steps(ticks) && !self.muted {
            NoteFader { clock_note: played.note, note_on: true, ..self }
        } else if self.gates_end(ticks) {
            NoteFader { note_on: false, ..self }
        } else {
            self
        }
    }

    /// What a step sets off.
    pub open spec fn step_actions(self, played: Quantized) -> Seq<Action> {
        (if self.muted {
            Seq::empty()
        } else {
            (if self.note_on {
                seq![self.midi().note_off(self.clock_note)]
            } else {
                Seq::empty()
            }) + self.trigger_actions(played)
        }) + seq![
            led_set(
                self.start_channel,
                Led::Bottom,
                if self.div == 2 || self.div == 4 || self.div == 8 || self.div == 16 {
                    Color::Orange
                } else {
                    Color::Blue
                },
                Brightness::High,
            ),
        ]
    }

    /// What the end of a gate sets off.
    pub open spec fn end_actions(self) -> Seq<Action> {
        (if self.note_on {
            seq![
                self.midi().note_off(self.clock_note),
                self.led(Led::Top, Brightness::Off),
            ] + self.gate_off()
        } else {
            Seq::empty()
        }) + seq![self.led(Led::Bottom, Brightness::Off)]
    }

    /// What an event of the clock sets off.
    pub open spec fn clock_actions(self, event: ClockEvent, ticks: u64, played: Quantized) -> Seq<
        Action,
    > {
        match event {
            ClockEvent::Tick => if self.steps(ticks) {
                self.step_actions(played)
            } else if self.gates_end(ticks) {
                self.end_actions()
            } else {
                Seq::empty()
            },
            ClockEvent::Reset => seq![self.midi().note_off(self.clock_note)] + self.gate_off(),
            ClockEvent::Stop => seq![self.midi().note_off(self.clock_note)] + self.gate_off(),
            ClockEvent::Start => Seq::empty(),
        }
    }

    /// The state after an event of the clock.
    pub open spec fn clocked(self, event: ClockEvent, ticks: u64, played: Quantized) -> NoteFader {
        match event {
            ClockEvent::Tick => self.ticked(ticks, played),
            ClockEvent::Reset => NoteFader { note_on: false, ..self },
            ClockEvent::Stop => NoteFader { note_on: false, ..self },
            ClockEvent::Start => self,
        }
    }

    fn begin_step(&mut self, played: Quantized, actions: &mut Vec<Action>)
        requires
            old(self).wf(),
        ensures
            *final(self) == (if old(self).muted {
                *old(self)
            } else {
                NoteFader { clock_note: played.note, note_on: true, ..*old(self) }
            }),
            final(self).wf(),
            final(actions)@ == old(actions)@ + old(self).step_actions(played),
    {
        if !self.muted {
            if self.note_on {
                actions.push(self.midi_port().send_note_off(self.clock_note));
            }
            self.trigger_note(played, actions);
            self.clock_note = played.note;
            self.note_on = true;
        }
        let leds = Leds::<1>::new(self.start_channel);
        if self.div == 2 || self.div == 4 || self.div == 8 || self.div == 16 {
            actions.push(leds.set(0, Led::Bottom, Color::Orange, Brightness::High));
        } else {
            actions.push(leds.set(0, Led::Bottom, Color::Blue, Brightness::High));
        }
    }

    fn end_gate(&mut self, actions: &mut Vec<Action>)
        requires
            old(self).wf(),
        ensures
            *final(self) == (NoteFader { note_on: false, ..*old(self) }),
            final(self).wf(),
            final(actions)@ == old(actions)@ + old(self).end_actions(),
    {
        if self.note_on {
            actions.push(self.midi_port().send_note_off(self.clock_note));
            actions.push(self.show(Led::Top, Brightness::Off));
            self.note_on = false;
            self.push_gate_off(actions);
        }
        actions.push(self.show(Led::Bottom, Brightness::Off));
    }

    /// An event of the clock.
    pub fn fut1(&mut self, event: ClockEvent, ticks: u64, played: Quantized) -> (r: Vec<Action>)
        requires
            old(self).wf(),
        ensures
            *final(self) == old(self).clocked(event, ticks, played),
            final(self).wf(),
            r@ == old(self).clock_actions(event, ticks, played),
    {
        let mut actions: Vec<Action> = Vec::new();
        match event {
            ClockEvent::Reset | ClockEvent::Stop => {
                actions.push(self.midi_port().send_note_off(self.clock_note));
                self.note_on = false;
                self.push_gate_off(&mut actions);
            },
            ClockEvent::Tick => {
                let div: u32 = self.div as u32;
                let gatel: u32 = self.params.gatel as u32;
                assert(div * gatel <= 384 * 11_184_810) by (nonlinear_arith)
                    requires
                        0 <= div <= 384,
                        0 <= gatel <= 11_184_810,
                ;
                let end: u32 = part_division(div, gatel);
                let clkn: u32 = (ticks % 0x1_0000_0000) as u32;
                let place: u32 = clkn % div;
                if place == 0 && self.storage.clocked {
                    self.begin_step(played, &mut actions);
                }
                if place == end {
                    self.end_gate(&mut actions);
                }
            },
            ClockEvent::Start => {},
        }
        actions
    }

    /// The state after the button was pressed: with shift the clock plays, or no
    /// longer; else, on the clock it toggles the mute, by hand it plays.
    pub open spec fn pressed(self, shift: bool, played: Quantized) -> NoteFader {
        if shift {
            NoteFader {
                storage: Storage { clocked: !self.storage.clocked, ..self.storage },
                ..self
            }
        } else if self.storage.clocked {
            let muted = !self.muted;
            NoteFader { muted, storage: Storage { mute_saved: muted, ..self.storage }, ..self }
        } else {
            NoteFader { button_note: played.note, ..self }
        }
    }

    /// What a press sets off.
    pub open spec fn press_actions(self, shift: bool, played: Quantized) -> Seq<Action> {
        if shift {
            seq![Action::Save]
        } else if self.storage.clocked {
            seq![Action::Save] + (if self.muted {
                seq![self.led(Led::Button, Brightness::Mid)]
            } else {
                channels_unset(self.start_channel, 1)
            })
        } else {
            self.trigger_actions(played)
        }
    }

    /// The button was pressed.
    pub fn button_down(&mut self, shift: bool, played: Quantized) -> (r: Vec<Action>)
        requires
            old(self).wf(),
        ensures
            *final(self) == old(self).pressed(shift, played),
            final(self).wf(),
            r@ == old(self).press_actions(shift, played),
    {
        let mut actions: Vec<Action> = Vec::new();
        if !shift {
            if self.storage.clocked {
                self.muted = !self.muted;
                self.storage.mute_saved = self.muted;
                actions.push(Action::Save);
                if self.muted {
                    let mut dark = Leds::<1>::new(self.start_channel).unset_all();
                    actions.append(&mut dark);
                } else {
                    actions.push(self.show(Led::Button, Brightness::Mid));
                }
            } else {
                self.trigger_note(played, &mut actions);
                self.button_note = played.note;
            }
        } else {
            self.storage.clocked = !self.storage.clocked;
            actions.push(Action::Save);
        }
        actions
    }

    /// What a release sets off: by hand the note ends.
    pub open spec fn release_actions(self, shift: bool) -> Seq<Action> {
        if !self.storage.clocked && !shift {
            seq![self.midi().note_off(self.button_note)] + self.gate_off() + seq![
                self.led(Led::Top, Brightness::Off),
                self.led(Led::Button, Brightness::Low),
            ]
        } else {
            Seq::empty()
        }
    }

    /// The button was released.
    pub fn button_up(&self, shift: bool) -> (r: Vec<Action>)
        requires
            self.wf(),
        ensures
            r@ == self.release_actions(shift),
    {
        let mut actions: Vec<Action> = Vec::new();
        if !self.storage.clocked && !shift {
            actions.push(self.midi_port().send_note_off(self.button_note));
            self.push_gate_off(&mut actions);
            actions.push(self.show(Led::Top, Brightness::Off));
            actions.push(self.show(Led::Button, Brightness::Low));
        }
        actions
    }

    /// The stored position that the fader edits: the note, or the division.
    pub open spec fn fader_target(self) -> u16 {
        match self.latch_layer {
            LatchLayer::Main => self.storage.note_saved,
            LatchLayer::Alt => self.storage.fader_saved,
            LatchLayer::Third => 0,
        }
    }

    /// The state after the fader was moved.
    pub open spec fn fader_moved(self, value: u16) -> NoteFader {
        let target = self.fader_target();
        let latched = NoteFader {
            latch: self.latch.updated(value, self.latch_layer, target),
            ..self
        };
        match self.latch.emits(value, self.latch_layer, target) {
            Some(new_value) => match self.latch_layer {
                LatchLayer::Main => NoteFader {
                    storage: Storage { note_saved: new_value, ..self.storage },
                    ..latched
                },
                LatchLayer::Alt => NoteFader {
                    div: division_of(new_value as int),
                    storage: Storage { fader_saved: new_value, ..self.storage },
                    ..latched
                },
                LatchLayer::Third => latched,
            },
            None => latched,
        }
    }

    /// A fader that changes a value asks for it to be saved.
    pub open spec fn fader_actions(self, value: u16) -> Seq<Action> {
        if self.latch.emits(value, self.latch_layer, self.fader_target()) is Some
            && self.latch_layer != LatchLayer::Third {
            seq![Action::Save]
        } else {
            Seq::empty()
        }
    }

    /// The fader was moved.
    pub fn fut3(&mut self, value: u16) -> (r: Vec<Action>)
        requires
            old(self).wf(),
            value <= 4095,
        ensures
            *final(self) == old(self).fader_moved(value),
            final(self).wf(),
            r@ == old(self).fader_actions(value),
    {
        let mut actions: Vec<Action> = Vec::new();
        let layer = self.latch_layer;
        let target: u16 = match layer {
            LatchLayer::Main => self.storage.note_saved,
            LatchLayer::Alt => self.storage.fader_saved,
            LatchLayer::Third => 0,
        };
        if let Some(new_value) = self.latch.update(value, layer, target) {
            match layer {
                LatchLayer::Main => {
                    self.storage.note_saved = new_value;
                    actions.push(Action::Save);
                },
                LatchLayer::Alt => {
                    self.div = division_for(new_value);
                    self.storage.fader_saved = new_value;
                    actions.push(Action::Save);
                },
                LatchLayer::Third => {},
            }
        }
        actions
    }

    /// What a loaded scene sets off, by the mute that the app started with.
    pub open spec fn load_actions(self) -> Seq<Action> {
        if self.start_mute {
            seq![
                self.led(Led::Button, Brightness::Low),
                led_unset(self.start_channel, Led::Top),
                led_unset(self.start_channel, Led::Bottom),
            ]
        } else {
            seq![self.led(Led::Button, Brightness::Mid)]
        }
    }

    /// A scene was loaded into the storage.
    pub fn load_scene(&mut self, storage: Storage) -> (r: Vec<Action>)
        requires
            old(self).wf(),
            storage.wf(),
        ensures
            *final(self) == (NoteFader {
                storage,
                div: division_of(storage.fader_saved as int),
                ..*old(self)
            }),
            final(self).wf(),
            r@ == old(self).load_actions(),
    {
        self.storage = storage;
        self.div = division_for(storage.fader_saved);
        let leds = Leds::<1>::new(self.start_channel);
        let mut actions: Vec<Action> = Vec::new();
        if self.start_mute {
            actions.push(self.show(Led::Button, Brightness::Low));
            actions.push(leds.unset(0, Led::Top));
            actions.push(leds.unset(0, Led::Bottom));
        } else {
            actions.push(self.show(Led::Button, Brightness::Mid));
        }
        actions
    }

    /// Follows the shift button: held, the fader sets the division.
    pub fn shift(&mut self, shift: bool)
        requires
            old(self).wf(),
        ensures
            *final(self) == (NoteFader {
                latch_layer: if shift {
                    LatchLayer::Alt
                } else {
                    LatchLayer::Main
                },
                ..*old(self)
            }),
            final(self).wf(),
    {
        self.latch_layer = LatchLayer::from(shift);
    }

    /// Whether an event brings what the hardware can bring.
    pub open spec fn admits(event: Event) -> bool {
        match event {
            Event::Fader(value) => value <= 4095,
            Event::LoadScene(storage) => storage.wf(),
            _ => true,
        }
    }

    /// The state after an event.
    pub open spec fn after(self, event: Event) -> NoteFader {
        match event {
            Event::Clock { event, ticks, played } => self.clocked(event, ticks, played),
            Event::Down { shift, played } => self.pressed(shift, played),
            Event::Up { .. } => self,
            Event::Fader(value) => self.fader_moved(value),
            Event::Layer { shift } => NoteFader {
                latch_layer: if shift {
                    LatchLayer::Alt
                } else {
                    LatchLayer::Main
                },
                ..self
            },
            Event::LoadScene(storage) => NoteFader {
                storage,
                div: division_of(storage.fader_saved as int),
                ..self
            },
            Event::SaveScene(_) => self,
        }
    }

    /// What an event sets off.
    pub open spec fn does(self, event: Event) -> Seq<Action> {
        match event {
            Event::Clock { event, ticks, played } => self.clock_actions(event, ticks, played),
            Event::Down { shift, played } => self.press_actions(shift, played),
            Event::Up { shift } => self.release_actions(shift),
            Event::Fader(value) => self.fader_actions(value),
            Event::Layer { .. } => Seq::empty(),
            Event::LoadScene(_) => self.load_actions(),
            Event::SaveScene(scene) => seq![Action::SaveScene(scene)],
        }
    }

    /// Handles an event.
    pub fn run(&mut self, event: Event) -> (r: Vec<Action>)
        requires
            old(self).wf(),
            NoteFader::admits(event),
        ensures
            *final(self) == old(self).after(event),
            final(self).wf(),
            r@ == old(self).does(event),
    {
        match event {
            Event::Clock { event, ticks, played } => self.fut1(event, ticks, played),
            Event::Down { shift, played } => self.button_down(shift, played),
            Event::Up { shift } => self.button_up(shift),
            Event::Fader(value) => self.fut3(value),
            Event::Layer { shift } => {
                self.shift(shift);
                Vec::new()
            },
            Event::LoadScene(storage) => self.load_scene(storage),
            Event::SaveScene(scene) => vec![Action::SaveScene(scene)],
        }
    }
}

/// A note that is played by hand ends with the release of the button.
pub proof fn law_hand_played_note_ends(app: NoteFader, played: Quantized)
    requires
        !app.storage.clocked,
    ensures
        app.press_actions(false, played).contains(app.midi().note_on(played.note, 4095)),
        app.pressed(false, played).release_actions(false).contains(
            app.midi().note_off(played.note),
        ),
{
    let on = app.press_actions(false, played);
    assert(on[2] == app.midi().note_on(played.note, 4095));
    let off = app.pressed(false, played).release_actions(false);
    assert(off[0] == app.midi().note_off(played.note));
}

/// Before the clock plays its next note, the last one ends.
pub proof fn law_clocked_notes_do_not_overlap(app: NoteFader, played: Quantized)
    requires
        app.note_on,
        !app.muted,
    ensures
        app.step_actions(played)[0] == app.midi().note_off(app.clock_note),
{
}

/// The pitch that is asked for is the fader's share of the span and three
/// semitones more, rounded down, where 120 semitones are full scale.
pub proof fn law_pitch_spans_semitones(app: NoteFader)
    requires
        app.storage.note_saved <= 4095,
        0 <= app.params.span <= 120,
    ensures
        ({
            let pitch = app.pitch();
            120 * pitch <= app.storage.note_saved * (app.params.span + 3) < 120 * pitch + 120
        }),
{
    let note = app.storage.note_saved as int;
    let span = app.params.span + 3;
    assert(0 <= note * span <= 4095 * 123) by (nonlinear_arith)
        requires
            0 <= note <= 4095,
            3 <= span <= 123,
    ;
}

/// On the clock a note is played at every tick that the division divides, unless
/// the app is muted: the output is set to its pitch, or opened as a gate, and the
/// note starts, after the last one has ended. It ends at the tick that is a gate
/// length, in hundredths, into the division, at least one tick and less than all
/// of it. By hand the clock plays nothing.
pub proof fn law_clock_plays_notes(
    app: NoteFader,
    ticks: u64,
    played: Quantized,
    k: int,
    into: int,
)
    requires
        app.wf(),
        ticks < 0x1_0000_0000,
        0 <= k,
        0 <= into < app.div,
        ticks == k * app.div + into,
    ensures
        ({
            let event = Event::Clock { event: ClockEvent::Tick, ticks, played };
            let after = app.after(event);
            let actions = app.does(event);
            let start = app.midi().note_on(played.note, 4095);
            let length = app.div * app.params.gatel;
            let ends = into > 0 && ((100 * into <= length < 100 * into + 100) || (into == 1 && length
                < 100) || (into == app.div - 1 && length >= 100 * into));
            let plays = into == 0 && app.storage.clocked && !app.muted;
            &&& plays ==> after.note_on && after.clock_note == played.note && actions.contains(
                start,
            ) && actions.contains(
                Action::Dac {
                    channel: app.start_channel,
                    value: if app.params.outmode == 0 {
                        played.counts
                    } else {
                        4095
                    },
                },
            )
            &&& plays && app.note_on ==> actions[0] == app.midi().note_off(app.clock_note)
            &&& !plays ==> forall|i: int|
                0 <= i < actions.len() ==> #[trigger] actions[i] != start
            &&& ends ==> !after.note_on
            &&& ends && app.note_on ==> actions[0] == app.midi().note_off(app.clock_note)
            &&& ends && app.note_on && app.params.outmode == 1 ==> actions[2] == (Action::Dac {
                channel: app.start_channel,
                value: 0,
            })
            &&& !plays && !ends ==> after == app
        }),
{
    let div = app.div as int;
    vstd::arithmetic::div_mod::lemma_fundamental_div_mod_converse(ticks as int, div, k, into);
    assert(0 <= div * app.params.gatel) by (nonlinear_arith)
        requires
            0 <= div,
            0 <= app.params.gatel,
    ;
    let actions = app.does(Event::Clock { event: ClockEvent::Tick, ticks, played });
    if into == 0 && app.storage.clocked && !app.muted {
        let at: int = if app.note_on {
            1
        } else {
            0
        };
        assert(actions[at + 1] == app.output(
            if app.params.outmode == 0 {
                played.counts
            } else {
                4095
            },
        ));
        assert(actions[at + 2] == app.midi().note_on(played.note, 4095));
    }
}

/// A stop and a reset end the note of the clock, and close the output where it is
/// a gate.
pub proof fn law_stop_silences(app: NoteFader, ticks: u64, played: Quantized, reset: bool)
    ensures
        ({
            let event = Event::Clock {
                event: if reset {
                    ClockEvent::Reset
                } else {
                    ClockEvent::Stop
                },
                ticks,
                played,
            };
            &&& !app.after(event).note_on
            &&& app.does(event)[0] == app.midi().note_off(app.clock_note)
            &&& app.params.outmode == 1 ==> app.does(event)[1] == (Action::Dac {
                channel: app.start_channel,
                value: 0,
            })
        }),
{
}

/// By hand the button plays the note while it is held, as the clock would; on the
/// clock it toggles the mute, which is stored. With shift it takes the clock on or
/// off, which is stored.
pub proof fn law_button_plays_or_mutes(app: NoteFader, played: Quantized)
    requires
        app.wf(),
    ensures
        ({
            let down = app.after(Event::Down { shift: false, played });
            let shifted = app.after(Event::Down { shift: true, played });
            let hand = !app.storage.clocked;
            let pressed = app.does(Event::Down { shift: false, played });
            let released = app.does(Event::Up { shift: false });
            &&& hand ==> down == (NoteFader { button_note: played.note, ..app }) && pressed[2]
                == app.midi().note_on(played.note, 4095) && pressed[1] == (Action::Dac {
                channel: app.start_channel,
                value: if app.params.outmode == 0 {
                    played.counts
                } else {
                    4095
                },
            })
            &&& hand ==> released[0] == app.midi().note_off(app.button_note)
            &&& hand && app.params.outmode == 1 ==> released[1] == (Action::Dac {
                channel: app.start_channel,
                value: 0,
            })
            &&& !hand ==> down.muted == !app.muted && down.storage == (Storage {
                mute_saved: !app.muted,
                ..app.storage
            }) && pressed[0] == Action::Save && released.len() == 0
            &&& shifted.storage == (Storage { clocked: !app.storage.clocked, ..app.storage })
                && shifted.muted == app.muted
            &&& app.does(Event::Down { shift: true, played }) == seq![Action::Save]
            &&& app.after(Event::Up { shift: false }) == app
        }),
{
}

/// A fader that has a value to give stores it and asks for it to be saved: as the
/// note, or with shift as the division, which is followed at once. A scene brings
/// both.
pub proof fn law_fader_stores_its_value(app: NoteFader, value: u16, storage: Storage)
    requires
        app.wf(),
        value <= 4095,
        app.latch_layer != LatchLayer::Third,
    ensures
        ({
            let main = app.latch_layer == LatchLayer::Main;
            let target = if main {
                app.storage.note_saved
            } else {
                app.storage.fader_saved
            };
            let event = Event::Fader(value);
            let after = app.after(event);
            let emitted = app.latch.emits(value, app.latch_layer, target);
            &&& emitted is None ==> after.storage == app.storage && after.div == app.div
                && app.does(event).len() == 0
            &&& emitted matches Some(v) ==> app.does(event) == seq![Action::Save] && (main
                ==> after.storage == (Storage { note_saved: v, ..app.storage }) && after.div
                == app.div) && (!main ==> after.storage == (Storage {
                fader_saved: v,
                ..app.storage
            }) && after.div == division_of(v as int))
            &&& after.latch == app.latch.updated(value, app.latch_layer, target)
        }),
        app.after(Event::LoadScene(storage)).storage == storage,
        app.after(Event::LoadScene(storage)).div == division_of(storage.fader_saved as int),
        app.after(Event::Layer { shift: true }).latch_layer == LatchLayer::Alt,
        app.after(Event::Layer { shift: false }).latch_layer == LatchLayer::Main,
{
}

/// A note that is played lights the upper LED and the button, in the color of the
/// app; by hand its end puts the first out and dims the other. Every step of the
/// clock lights the lower LED, in orange for the divisions by 2, 4, 8 and 16 and in
/// blue for the others, and the end of its gate puts both LEDs out.
pub proof fn law_notes_are_shown(app: NoteFader, played: Quantized, storage: Storage)
    requires
        app.wf(),
    ensures
        ({
            let first = app.start_channel;
            let color = app.params.color;
            let step = app.step_actions(played);
            let end = app.end_actions();
            let halves = app.div == 2 || app.div == 4 || app.div == 8 || app.div == 16;
            let pressed = app.does(Event::Down { shift: false, played });
            let released = app.does(Event::Up { shift: false });
            let loaded = app.does(Event::LoadScene(storage));
            let lit = led_set(first, Led::Button, color, Brightness::Mid);
            let at: int = if app.note_on {
                1
            } else {
                0
            };
            &&& step.last() == led_set(
                first,
                Led::Bottom,
                if halves {
                    Color::Orange
                } else {
                    Color::Blue
                },
                Brightness::High,
            )
            &&& app.muted ==> step.len() == 1
            &&& !app.muted ==> step.len() == at + 5 && step[at] == led_set(
                first,
                Led::Top,
                color,
                Brightness::Mid,
            ) && step[at + 3] == lit
            &&& end.last() == led_set(first, Led::Bottom, color, Brightness::Off)
            &&& app.note_on ==> end[1] == led_set(first, Led::Top, color, Brightness::Off)
            &&& !app.storage.clocked ==> pressed[0] == led_set(
                first,
                Led::Top,
                color,
                Brightness::Mid,
            ) && pressed[3] == lit && released[released.len() - 2] == led_set(
                first,
                Led::Top,
                color,
                Brightness::Off,
            ) && released.last() == led_set(first, Led::Button, color, Brightness::Low)
            &&& app.storage.clocked && app.muted ==> pressed == seq![Action::Save, lit]
            &&& app.storage.clocked && !app.muted ==> pressed.len() == 4 && pressed.skip(1)
                == channels_unset(first, 1)
            &&& !app.start_mute ==> loaded == seq![lit]
            &&& app.start_mute ==> loaded == seq![
                led_set(first, Led::Button, color, Brightness::Low),
                led_unset(first, Led::Top),
                led_unset(first, Led::Bottom),
            ]
        }),
{
}

/// The app starts on what is stored, silent, muted as it is stored, with the stored
/// division. Its faders are where they are found.
pub proof fn law_starts_on_storage(
    app: App<1>,
    params: Params,
    storage: Storage,
    fader: u16,
    takeover: TakeoverMode,
)
    ensures
        ({
            let s = NoteFader::started(app, params, storage, fader, takeover);
            &&& s.start_channel == app.start_channel && s.params == params && s.storage == storage
            &&& s.latch_layer == LatchLayer::Main
            &&& s.latch == AnalogLatch::initial(fader, 25, takeover)
            &&& s.muted == storage.mute_saved && s.start_mute == storage.mute_saved
            &&& s.div == division_of(storage.fader_saved as int)
            &&& !s.note_on
        }),
{
}

/// The start takes an output from 0 V and lights the button, or puts the LEDs out
/// where the app is muted.
pub proof fn law_start_is_shown(app: NoteFader)
    ensures
        ({
            let start = app.start_actions();
            let first = app.start_channel;
            &&& start[0] == (Action::Configure {
                channel: first,
                mode: PortMode::Output { bipolar: false },
                gpo_level: None,
            })
            &&& !app.muted ==> start.skip(1) == seq![
                led_set(first, Led::Button, app.params.color, Brightness::Mid),
            ]
            &&& app.muted ==> start.skip(1) == seq![
                led_unset(first, Led::Button),
                led_unset(first, Led::Top),
                led_unset(first, Led::Bottom),
            ]
        }),
{
}

/// The parameters of a fresh app, and what it has in its storage.
pub proof fn law_fresh_app(r: Storage)
    requires
        call_ensures(Storage::default, (), r),
    ensures
        ({
            let p = initial_params();
            &&& p.midi_channel == MidiChannel(1)
            &&& p.midi_note == MidiNote(48)
            &&& p.midi_out == (MidiOut { usb: true, out1: true, out2: true })
            &&& p.span == 24
            &&& p.gatel == 50
            &&& p.outmode == 0
            &&& p.color == Color::Rose
        }),
        r.note_saved == 0,
        r.fader_saved == 3000,
        !r.mute_saved,
        !r.clocked,
{
}

} // verus!
