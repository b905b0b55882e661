//! Turing+: a shift register that loops and mutates with a clock input.
use vstd::prelude::*;
use vstd::array::spec_array_update;

use crate::app::{
    input_value, led_set, Action, App, InJack, Leds, MidiOutput, OutJack, PortMode, Quantized,
    Quantizer,
};
use crate::latch::{AnalogLatch, LatchLayer, TakeoverMode};
use crate::storage::{values_new, values_push, AppParams, AppStorage, ManagedStorage, ParamStore};
use crate::tables::Tables;
use crate::tasks::leds::Led;
use crate::types::{
    Brightness, Color, Curve, MidiCc, MidiChannel, MidiMode, MidiNote, MidiOut, ParamValue, Range,
    Value,
};
use crate::utils::{attenuate, attenuated, clamp_to};

verus! {

pub const CHANNELS: usize = 2;

pub const PARAMS: usize = 8;

/// The input level that counts as a clock.
pub const CLOCK_LEVEL: u16 = 406;

/// The parameters of the app.
#[derive(Clone, Copy, Debug, PartialEq, Eq, Structural)]
pub struct Params {
    pub midi_channel: MidiChannel,
    pub midi_cc: MidiCc,
    pub midi_mode: MidiMode,
    pub midi_note: MidiNote,
    pub midi_out: MidiOut,
    pub color: Color,
    pub range: Range,
    pub nrpn: bool,
}

impl AppParams for Params {
    open spec fn read(values: Seq<Value>) -> Option<Self> {
        if values.len() < 8 {
            None
        } else {
            Some(
                Params {
                    midi_mode: MidiMode::reads(values[0]),
                    midi_channel: MidiChannel::reads(values[1]),
                    midi_cc: MidiCc::reads(values[2]),
                    color: Color::reads(values[3]),
                    range: Range::reads(values[4]),
                    midi_note: MidiNote::reads(values[5]),
                    nrpn: bool::reads(values[6]),
                    midi_out: MidiOut::reads(values[7]),
                },
            )
        }
    }

    open spec fn listing(self) -> Seq<Value> {
        seq![
            self.midi_mode.stored(),
            self.midi_channel.stored(),
            self.midi_cc.stored(),
            self.color.stored(),
            self.range.stored(),
            self.midi_note.stored(),
            Value::MidiNrpn(self.nrpn),
            self.midi_out.stored(),
        ]
    }

    fn from_values(values: &[Value]) -> (r: Option<Self>) {
        if values.len() < PARAMS {
            return None;
        }
        Some(
            Params {
                midi_mode: MidiMode::from_value(values[0]),
                midi_channel: MidiChannel::from_value(values[1]),
                midi_cc: MidiCc::from_value(values[2]),
                color: Color::from_value(values[3]),
                range: Range::from_value(values[4]),
                midi_note: MidiNote::from_value(values[5]),
                nrpn: bool::from_value(values[6]),
                midi_out: MidiOut::from_value(values[7]),
            },
        )
    }

    fn to_values(&self) -> (r: heapless::Vec<Value, 16>) {
        let mut vec = values_new();
        let _ = values_push(&mut vec, self.midi_mode.into_value());
        let _ = values_push(&mut vec, self.midi_channel.into_value());
        let _ = values_push(&mut vec, self.midi_cc.into_value());
        let _ = values_push(&mut vec, self.color.into_value());
        let _ = values_push(&mut vec, self.range.into_value());
        let _ = values_push(&mut vec, self.midi_note.into_value());
        let _ = values_push(&mut vec, Value::MidiNrpn(self.nrpn));
        let _ = values_push(&mut vec, self.midi_out.into_value());
        vec
    }

    proof fn law_params_round_trip(self) {
    }
}

/// What the app keeps.
#[derive(Clone, Copy, Debug, PartialEq, Eq, Structural)]
pub struct Storage {
    pub att_saved: u16,
    pub length_saved: u16,
    pub register_saved: u16,
}

impl Default for Storage {
    fn default() -> (r: Self)
        ensures
            r == (Storage { att_saved: 3000, length_saved: 8, register_saved: 0 }),
    {
        Storage { att_saved: 3000, length_saved: 8, register_saved: 0 }
    }
}

impl AppStorage for Storage {

}

/// The parameters that the app starts with: the controller of its first channel.
pub open spec fn initial_params(start_channel: usize) -> Params {
    Params {
        midi_channel: MidiChannel(1),
        midi_cc: MidiCc::for_channel(32, start_channel),
        midi_mode: MidiMode::Note,
        midi_note: MidiNote(36),
        midi_out: (MidiOut { usb: true, out1: true, out2: true }),
        color: Color::Pink,
        range: Range::_0_5V,
        nrpn: false,
    }
}

/// The parameters and the storage of the app, before anything was loaded.
pub fn wrapper(app: App<2>) -> (r: (ParamStore<Params>, ManagedStorage<Storage>))
    ensures
        r.0 == (ParamStore {
            app_id: app.app_id,
            inner: initial_params(app.start_channel),
            layout_id: app.layout_id,
        }),
        r.1.app_id == app.app_id,
        r.1.layout_id == app.layout_id,
        call_ensures(Storage::default, (), r.1.inner),
{
    (
        ParamStore::new(
            app.app_id,
            app.layout_id,
            Params {
                midi_channel: MidiChannel::default(),
                midi_cc: MidiCc::of_channel(32, app.start_channel),
                midi_mode: MidiMode::default(),
                midi_note: MidiNote(36),
                midi_out: MidiOut::default(),
                color: Color::Pink,
                range: Range::_0_5V,
                nrpn: false,
            },
        ),
        ManagedStorage::new(app.app_id, app.layout_id),
    )
}

// ---------------------------------------------------------------------------
// The register
// ---------------------------------------------------------------------------

/// The bit that is fed back, counted from the low end: `bit_index` places below
/// the highest one. Indices beyond the register select the highest bit.
pub open spec fn selected(bit_index: u16) -> u16 {
    if bit_index <= 15 {
        (15 - bit_index) as u16
    } else {
        15
    }
}

/// The bit that is fed back.
pub open spec fn selected_bit(x: u16, bit_index: u16) -> u16 {
    (x >> selected(bit_index)) & 1
}

/// The register one step on: moved down by one, with the selected bit, inverted
/// where `a` is above `b`, at its high end.
pub open spec fn turned(x: u16, a: u16, b: u16, bit_index: u16) -> u16 {
    let bit = selected_bit(x, bit_index);
    let fed = if a > b {
        bit ^ 1
    } else {
        bit
    };
    (x >> 1) | (fed << 15)
}

/// Moves the register on. Tells whether the bit that was fed back was inverted.
pub fn rotate_select_bit(x: u16, a: u16, b: u16, bit_index: u16) -> (r: (u16, bool))
    ensures
        r.0 == turned(x, a, b, bit_index),
        r.1 == (a > b),
{
    let index: u16 = if bit_index <= 15 {
        15 - bit_index
    } else {
        15
    };
    let original_bit: u16 = (x >> index) & 1;
    let mut bit: u16 = original_bit;
    if a > b {
        bit = bit ^ 1;
    }
    assert(original_bit ^ 1 != original_bit) by (bit_vector);
    let shifted: u16 = x >> 1;
    let result: u16 = shifted | (bit << 15);
    (result, bit != original_bit)
}

/// The number of bits that are read, one to sixteen.
pub open spec fn bits_read(x: u8) -> int {
    clamp_to(x as int, 1, 16)
}

/// The highest value of so many bits.
pub open spec fn max_value(bits: int) -> int {
    (1u32 << (bits as u32)) - 1
}

/// The top bits of a register as a 12-bit value.
pub open spec fn scaled_12bit(input: u16, x: u8) -> int {
    let top = input >> ((16 - bits_read(x)) as u16);
    top * 4095 / max_value(bits_read(x))
}

/// Scales the top `x` bits of a register to 12 bits.
pub fn scale_to_12bit(input: u16, x: u8) -> (r: u16)
    ensures
        r == scaled_12bit(input, x),
        r <= 4095,
{
    let bits: u8 = if x < 1 {
        1
    } else if x > 16 {
        16
    } else {
        x
    };
    let shift: u16 = 16 - bits as u16;
    let top: u16 = input >> shift;
    let width: u32 = bits as u32;
    assert(1 <= width <= 16 && shift == 16 - width ==> (1u32 << width) >= 2 && (1u32 << width)
        <= 0x10000 && (input >> shift) < (1u32 << width)) by (bit_vector);
    let max: u32 = (1u32 << width) - 1;
    proof {
        lemma_share(top as int, max as int);
    }
    (top as u32 * 4095 / max) as u16
}

proof fn lemma_share(top: int, max: int)
    requires
        0 <= top <= max,
        max > 0,
    ensures
        0 <= top * 4095 / max <= 4095,
{
    assert(top * 4095 <= 4095 * max) by (nonlinear_arith)
        requires
            0 <= top <= max,
    ;
    vstd::arithmetic::div_mod::lemma_div_is_ordered(top * 4095, 4095 * max, max);
    vstd::arithmetic::div_mod::lemma_div_multiples_vanish(4095, max);
    vstd::arithmetic::div_mod::lemma_div_pos_is_pos(top * 4095, max);
    assert(max * 4095 == 4095 * max) by (nonlinear_arith);
}

/// While nothing is inverted the register loops: its top bits, down to the one
/// that is fed back, rotate by one place with every step.
pub proof fn law_register_loops(x: u16, a: u16, b: u16, length: u16)
    requires
        a <= b,
        length <= 15,
    ensures
        ({
            let below = (15 - length) as u16;
            let before = x >> below;
            turned(x, a, b, length) >> below == (before >> 1) | ((before & 1) << length)
        }),
{
    let below = (15 - length) as u16;
    assert(length <= 15 && below == 15 - length ==> (((x >> 1) | (((x >> below) & 1) << 15))
        >> below) == ((x >> below) >> 1) | (((x >> below) & 1) << length)) by (bit_vector);
}

/// An inverted step differs from a plain one in the highest bit only.
pub proof fn law_mutation_flips_one_bit(x: u16, length: u16)
    ensures
        turned(x, 1, 0, length) ^ turned(x, 0, 0, length) == 0x8000,
{
    let bit = selected_bit(x, length);
    let index = selected(length);
    assert((((x >> 1) | ((((x >> index) & 1) ^ 1) << 15)) ^ ((x >> 1) | (((x >> index) & 1)
        << 15))) == 0x8000) by (bit_vector);
}

/// All ones read as full scale and an empty register as nothing, whatever the length.
pub proof fn law_scale_ends(x: u8)
    ensures
        scaled_12bit(0xFFFF, x) == 4095,
        scaled_12bit(0, x) == 0,
{
    let width = bits_read(x) as u32;
    let shift = (16 - bits_read(x)) as u16;
    let ones = 0xFFFFu16 >> shift;
    let none = 0u16 >> shift;
    assert(1 <= width <= 16 && shift == 16 - width ==> (0xFFFFu16 >> shift) as u32 == ones_of(
        1u32 << width,
    ) && (1u32 << width) >= 2) by (bit_vector);
    assert(0u16 >> shift == 0) by (bit_vector);
    let max = max_value(bits_read(x));
    assert(ones == max);
    assert(max * 4095 / max == 4095) by (nonlinear_arith)
        requires
            max > 0,
    ;
    assert(0int * 4095 / max == 0) by (nonlinear_arith)
        requires
            max > 0,
    ;
}

spec fn ones_of(x: u32) -> u32 {
    (x - 1) as u32
}

// ---------------------------------------------------------------------------
// The app
// ---------------------------------------------------------------------------

/// What is read once per millisecond: the input and a roll of the die. `played`
/// is the quantized value of the register, its note moved up by the base note.
#[derive(Clone, Copy, Debug, PartialEq, Eq, Structural)]
pub struct Inputs {
    pub raw: u16,
    pub roll: u16,
    pub played: Quantized,
}

/// What an event brings.
pub enum Event {
    /// A millisecond has gone by.
    Millisecond(Inputs),
    /// A fader was moved to a value.
    Fader { chan: usize, value: u16 },
    /// The first button was pressed.
    Down { shift: bool },
    /// A look at the shift button, once per millisecond.
    Shift(bool),
    /// A scene was loaded into the storage.
    LoadScene(Storage),
    /// A scene is to be saved.
    SaveScene(u8),
}

/// The running app. A clock turns `register`; `register_base` is what the next
/// clock starts from.
pub struct Turing {
    pub start_channel: usize,
    pub params: Params,
    pub storage: Storage,
    pub prob: u16,
    pub length: u16,
    pub register: u16,
    pub register_base: u16,
    pub note: MidiNote,
    pub oldinputval: u16,
    pub latch: [AnalogLatch; 2],
    pub rec_flag: bool,
    pub length_rec: u16,
    pub shift_old: bool,
}

impl Turing {
    pub open spec fn wf(self) -> bool {
        self.start_channel + 2 <= 16
    }

    pub open spec fn second(self) -> usize {
        (self.start_channel + 1) as usize
    }

    /// The MIDI port.
    pub open spec fn midi(self) -> MidiOutput {
        MidiOutput::port(
            self.start_channel,
            self.params.midi_out,
            self.params.midi_channel,
            self.params.nrpn,
        )
    }

    fn midi_port(&self) -> (r: MidiOutput)
        ensures
            r == self.midi(),
    {
        MidiOutput::new(
            self.params.midi_out,
            self.start_channel,
            self.params.midi_channel.to_wire(),
            self.params.nrpn,
        )
    }

    /// The state that the app starts with.
    pub open spec fn started(
        app: App<2>,
        params: Params,
        storage: Storage,
        faders: [u16; 2],
        takeover: TakeoverMode,
    ) -> Turing {
        Turing {
            start_channel: app.start_channel,
            params,
            storage,
            prob: 0,
            length: storage.length_saved,
            register: storage.register_saved,
            register_base: storage.register_saved,
            note: MidiNote(0),
            oldinputval: 0,
            latch: [
                AnalogLatch::initial(faders[0], 25, takeover),
                AnalogLatch::initial(faders[1], 25, takeover),
            ],
            rec_flag: false,
            length_rec: 0,
            shift_old: false,
        }
    }

    /// Starts the app on what is stored.
    pub fn new(
        app: App<2>,
        params: Params,
        storage: Storage,
        faders: [u16; 2],
        takeover: TakeoverMode,
    ) -> (r: (Self, Vec<Action>))
        requires
            app.wf(),
        ensures
            r.0 == Turing::started(app, params, storage, faders, takeover),
            r.0.wf(),
            r.1@ == seq![
                led_set(app.start_channel, Led::Button, params.color, Brightness::Mid),
                led_set(
                    (app.start_channel + 1) as usize,
                    Led::Button,
                    params.color,
                    Brightness::Mid,
                ),
                Action::Configure {
                    channel: app.start_channel,
                    mode: PortMode::Input { bipolar: params.range.bipolar() },
                    gpo_level: None,
                },
                Action::Configure {
                    channel: (app.start_channel + 1) as usize,
                    mode: PortMode::Output { bipolar: params.range.bipolar() },
                    gpo_level: None,
                },
            ],
    {
        let state = Turing {
            start_channel: app.start_channel,
            params,
            storage,
            prob: 0,
            length: storage.length_saved,
            register: storage.register_saved,
            register_base: storage.register_saved,
            note: MidiNote(0),
            oldinputval: 0,
            latch: [app.make_latch(faders[0], takeover), app.make_latch(faders[1], takeover)],
            rec_flag: false,
            length_rec: 0,
            shift_old: false,
        };
        let leds = app.use_leds();
        let actions = vec![
            leds.set(0, Led::Button, params.color, Brightness::Mid),
            leds.set(1, Led::Button, params.color, Brightness::Mid),
            app.make_in_jack(0, params.range).1,
            app.make_out_jack(1, params.range).1,
        ];
        (state, actions)
    }

    /// The value of the input.
    pub open spec fn input(self, raw: u16) -> u16 {
        input_value(self.params.range, raw)
    }

    /// Whether the input rises: a clock.
    pub open spec fn rises(self, raw: u16) -> bool {
        self.input(raw) >= 406 && self.oldinputval < 406
    }

    /// Whether the input falls: the end of a clock.
    pub open spec fn falls(self, raw: u16) -> bool {
        self.input(raw) <= 406 && self.oldinputval > 406
    }

    /// The register after a clock, by the roll of the die.
    pub open spec fn next_register(self, roll: u16) -> u16 {
        turned(
            self.register_base,
            self.prob,
            clamp_to(roll as int, 100, 3900) as u16,
            self.length,
        )
    }

    /// The 12-bit value of a register.
    pub open spec fn register_value(self, register: u16) -> int {
        scaled_12bit(register, (self.length % 256) as u8)
    }

    /// The value after the attenuation.
    pub open spec fn output_value(self, register: u16, tables: Tables) -> int {
        attenuated(
            self.register_value(register),
            tables.curve(Curve::Linear, self.storage.att_saved as int) as int,
        )
    }

    fn find_input(&self, raw: u16) -> (r: u16)
        ensures
            r == self.input(raw),
    {
        InJack::new(self.start_channel, self.params.range).get_value(raw)
    }

    fn find_register(&self, roll: u16) -> (r: u16)
        ensures
            r == self.next_register(roll),
    {
        let limit: u16 = if roll < 100 {
            100
        } else if roll > 3900 {
            3900
        } else {
            roll
        };
        rotate_select_bit(self.register_base, self.prob, limit, self.length).0
    }

    fn find_value(&self, register: u16) -> (r: u16)
        ensures
            r == self.register_value(register),
            r <= 4095,
    {
        scale_to_12bit(register, (self.length % 256) as u8)
    }

    fn find_output(&self, register: u16, tables: &Tables) -> (r: u16)
        requires
            tables.wf(),
        ensures
            r == self.output_value(register, *tables),
            r <= 4095,
    {
        attenuate(
            self.find_value(register),
            tables.curve_at(Curve::Linear, self.storage.att_saved),
        )
    }

    /// What the quantizer is asked for in a millisecond: the value of the register
    /// after a clock.
    pub fn request(&self, raw: u16, roll: u16, tables: &Tables) -> (r: Option<u16>)
        requires
            tables.wf(),
        ensures
            r == (if self.rises(raw) {
                Some(self.output_value(self.next_register(roll), *tables) as u16)
            } else {
                None
            }),
    {
        if self.find_input(raw) >= CLOCK_LEVEL && self.oldinputval < CLOCK_LEVEL {
            let value: u16 = self.find_output(self.find_register(roll), tables);
            let (pitch, _) = Quantizer::new(self.params.range).get_quantized_note(value);
            Some(pitch)
        } else {
            None
        }
    }

    /// The state after a millisecond: a clock turns the register, its end lets
    /// the next one start from there.
    pub open spec fn waited(self, inputs: Inputs) -> Turing {
        let turned = if self.rises(inputs.raw) {
            let register = self.next_register(inputs.roll);
            Turing {
                register,
                storage: Storage { register_saved: register, ..self.storage },
                note: if self.params.midi_mode == MidiMode::Note {
                    inputs.played.note
                } else {
                    self.note
                },
                ..self
            }
        } else {
            self
        };
        Turing {
            register_base: if self.falls(inputs.raw) {
                self.register
            } else {
                self.register_base
            },
            oldinputval: self.input(inputs.raw),
            ..turned
        }
    }

    /// What a clock sets off: the quantized value, and the note or the controller.
    pub open spec fn rise_actions(self, inputs: Inputs, tables: Tables) -> Seq<Action> {
        let register = self.next_register(inputs.roll);
        let value = self.output_value(register, tables);
        let color = self.params.color;
        seq![
            Action::Save,
            (OutJack { channel: self.second(), range: self.params.range }).valued(
                inputs.played.counts,
            ),
            led_set(
                self.start_channel,
                Led::Top,
                color,
                Brightness::Custom((self.register_value(register) / 16) as u8),
            ),
            led_set(self.second(), Led::Top, color, Brightness::Custom((value / 16) as u8)),
            match self.params.midi_mode {
                MidiMode::Note => self.midi().note_on(inputs.played.note, 4095),
                MidiMode::Cc => self.midi().cc(self.params.midi_cc, value as u16),
            },
            led_set(self.start_channel, Led::Bottom, Color::Red, Brightness::High),
        ]
    }

    /// What the end of a clock sets off.
    pub open spec fn fall_actions(self) -> Seq<Action> {
        seq![led_set(self.start_channel, Led::Bottom, Color::Red, Brightness::Off)] + (
        if self.params.midi_mode == MidiMode::Note {
            seq![self.midi().note_off(self.note)]
        } else {
            Seq::empty()
        })
    }

    /// What a millisecond sets off.
    pub open spec fn wait_actions(self, inputs: Inputs, tables: Tables) -> Seq<Action> {
        if self.rises(inputs.raw) {
            self.rise_actions(inputs, tables)
        } else if self.falls(inputs.raw) {
            self.fall_actions()
        } else {
            Seq::empty()
        }
    }

    fn clock_rises(&mut self, inputs: Inputs, tables: &Tables, actions: &mut Vec<Action>)
        requires
            old(self).wf(),
            tables.wf(),
        ensures
            *final(self) == (Turing {
                register: old(self).next_register(inputs.roll),
                storage: Storage {
                    register_saved: old(self).next_register(inputs.roll),
                    ..old(self).storage
                },
                note: if old(self).params.midi_mode == MidiMode::Note {
                    inputs.played.note
                } else {
                    old(self).note
                },
                ..*old(self)
            }),
            final(self).wf(),
            final(actions)@ == old(actions)@ + old(self).rise_actions(inputs, *tables),
    {
        let leds = Leds::<2>::new(self.start_channel);
        let color = self.params.color;
        let register: u16 = self.find_register(inputs.roll);
        let scaled: u16 = self.find_value(register);
        let value: u16 = self.find_output(register, tables);
        self.register = register;
        self.storage.register_saved = register;
        actions.push(Action::Save);
        let jack = OutJack::new(self.start_channel + 1, self.params.range);
        actions.push(jack.set_value(inputs.played.counts));
        actions.push(leds.set(0, Led::Top, color, Brightness::Custom((scaled / 16) as u8)));
        actions.push(leds.set(1, Led::Top, color, Brightness::Custom((value / 16) as u8)));
        match self.params.midi_mode {
            MidiMode::Note => {
                actions.push(self.midi_port().send_note_on(inputs.played.note, 4095));
                self.note = inputs.played.note;
            },
            MidiMode::Cc => {
                actions.push(self.midi_port().send_cc(self.params.midi_cc, value));
            },
        }
        actions.push(leds.set(0, Led::Bottom, Color::Red, Brightness::High));
    }

    /// A millisecond has gone by: the clock input is read.
    pub fn fut1(&mut self, inputs: Inputs, tables: &Tables) -> (r: Vec<Action>)
        requires
            old(self).wf(),
            tables.wf(),
        ensures
            *final(self) == old(self).waited(inputs),
            final(self).wf(),
            r@ == old(self).wait_actions(inputs, *tables),
    {
        let mut actions: Vec<Action> = Vec::new();
        let inputval: u16 = self.find_input(inputs.raw);
        if inputval >= CLOCK_LEVEL && self.oldinputval < CLOCK_LEVEL {
            self.clock_rises(inputs, tables, &mut actions);
        }
        if inputval <= CLOCK_LEVEL && self.oldinputval > CLOCK_LEVEL {
            let leds = Leds::<2>::new(self.start_channel);
            actions.push(leds.set(0, Led::Bottom, Color::Red, Brightness::Off));
            match self.params.midi_mode {
                MidiMode::Note => {
                    actions.push(self.midi_port().send_note_off(self.note));
                },
                MidiMode::Cc => {},
            }
            self.register_base = self.register;
        }
        self.oldinputval = inputval;
        actions
    }

    /// The value that a fader edits: the probability of a mutation, or the
    /// attenuation.
    pub open spec fn fader_target(self, chan: int) -> u16 {
        if chan == 0 {
            self.prob
        } else {
            self.storage.att_saved
        }
    }

    /// The state after a fader was moved.
    pub open spec fn fader_moved(self, chan: int, value: u16) -> Turing {
        let latch = self.latch[chan];
        let target = self.fader_target(chan);
        let latched = Turing {
            latch: spec_array_update(
                self.latch,
                chan,
                latch.updated(value, LatchLayer::Main, target),
            ),
            ..self
        };
        match latch.emits(value, LatchLayer::Main, target) {
            Some(new_value) => if chan == 0 {
                Turing { prob: new_value, ..latched }
            } else {
                Turing { storage: Storage { att_saved: new_value, ..self.storage }, ..latched }
            },
            None => latched,
        }
    }

    /// The attenuation is saved when it changes; the probability is not kept.
    pub open spec fn fader_actions(self, chan: int, value: u16) -> Seq<Action> {
        if chan == 1 && self.latch[chan].emits(
            value,
            LatchLayer::Main,
            self.fader_target(chan),
        ) is Some {
            seq![Action::Save]
        } else {
            Seq::empty()
        }
    }

    /// A fader was moved.
    pub fn fut2(&mut self, chan: usize, value: u16) -> (r: Vec<Action>)
        requires
            old(self).wf(),
            chan < 2,
        ensures
            *final(self) == old(self).fader_moved(chan as int, value),
            final(self).wf(),
            r@ == old(self).fader_actions(chan as int, value),
    {
        let mut actions: Vec<Action> = Vec::new();
        let target: u16 = if chan == 0 {
            self.prob
        } else {
            self.storage.att_saved
        };
        let mut latch = self.latch[chan];
        let emitted = latch.update(value, LatchLayer::Main, target);
        self.latch[chan] = latch;
        if let Some(new_value) = emitted {
            if chan == 0 {
                self.prob = new_value;
            } else {
                self.storage.att_saved = new_value;
                actions.push(Action::Save);
            }
        }
        actions
    }

    /// The state after the first button was pressed: while shift is held, presses
    /// count the length, up to 16.
    pub open spec fn pressed(self, shift: bool) -> Turing {
        if shift && self.rec_flag {
            Turing {
                length_rec: if self.length_rec < 16 {
                    (self.length_rec + 1) as u16
                } else {
                    16
                },
                ..self
            }
        } else {
            self
        }
    }

    /// The first button was pressed.
    pub fn fut3(&mut self, shift: bool)
        requires
            old(self).wf(),
        ensures
            *final(self) == old(self).pressed(shift),
            final(self).wf(),
    {
        if shift && self.rec_flag {
            if self.length_rec < 16 {
                self.length_rec = self.length_rec + 1;
            } else {
                self.length_rec = 16;
            }
        }
    }

    /// The state after a look at the shift button: with its press the counting
    /// starts, with its release a length of two or more is taken over.
    pub open spec fn shift_read(self, shift: bool) -> Turing {
        if shift && !self.shift_old {
            Turing { shift_old: true, rec_flag: true, length_rec: 0, ..self }
        } else if !shift && self.shift_old {
            let released = Turing { shift_old: false, rec_flag: false, ..self };
            if self.length_rec > 1 {
                Turing {
                    length: self.length_rec,
                    storage: Storage { length_saved: self.length_rec, ..self.storage },
                    ..released
                }
            } else {
                released
            }
        } else {
            self
        }
    }

    /// A length that was taken over is saved.
    pub open spec fn shift_actions(self, shift: bool) -> Seq<Action> {
        if !shift && self.shift_old && self.length_rec > 1 {
            seq![Action::Save]
        } else {
            Seq::empty()
        }
    }

    /// Follows the shift button.
    pub fn fut4(&mut self, shift: bool) -> (r: Vec<Action>)
        requires
            old(self).wf(),
        ensures
            *final(self) == old(self).shift_read(shift),
            final(self).wf(),
            r@ == old(self).shift_actions(shift),
    {
        let mut actions: Vec<Action> = Vec::new();
        if shift && !self.shift_old {
            self.shift_old = true;
            self.rec_flag = true;
            self.length_rec = 0;
        } else if !shift && self.shift_old {
            self.shift_old = false;
            self.rec_flag = false;
            if self.length_rec > 1 {
                self.length = self.length_rec;
                self.storage.length_saved = self.length_rec;
                actions.push(Action::Save);
            }
        }
        actions
    }

    /// The state after a scene was loaded into the storage.
    pub open spec fn loaded(self, storage: Storage) -> Turing {
        Turing {
            storage,
            length: storage.length_saved,
            register_base: storage.register_saved,
            prob: 0,
            ..self
        }
    }

    /// A scene was loaded into the storage.
    pub fn load_scene(&mut self, storage: Storage)
        requires
            old(self).wf(),
        ensures
            *final(self) == old(self).loaded(storage),
            final(self).wf(),
    {
        self.storage = storage;
        self.length = storage.length_saved;
        self.register_base = storage.register_saved;
        self.prob = 0;
    }

    /// Whether an event brings what the hardware can bring.
    pub open spec fn admits(event: Event) -> bool {
        event matches Event::Fader { chan, .. } ==> chan < 2
    }

    /// The state after an event.
    pub open spec fn after(self, event: Event) -> Turing {
        match event {
            Event::Millisecond(inputs) => self.waited(inputs),
            Event::Fader { chan, value } => self.fader_moved(chan as int, value),
            Event::Down { shift } => self.pressed(shift),
            Event::Shift(shift) => self.shift_read(shift),
            Event::LoadScene(storage) => self.loaded(storage),
            Event::SaveScene(_) => self,
        }
    }

    /// What an event sets off.
    pub open spec fn does(self, event: Event, tables: Tables) -> Seq<Action> {
        match event {
            Event::Millisecond(inputs) => self.wait_actions(inputs, tables),
            Event::Fader { chan, value } => self.fader_actions(chan as int, value),
            Event::Down { .. } => Seq::empty(),
            Event::Shift(shift) => self.shift_actions(shift),
            Event::LoadScene(_) => Seq::empty(),
            Event::SaveScene(scene) => seq![Action::SaveScene(scene)],
        }
    }

    /// Handles an event.
    pub fn run(&mut self, event: Event, tables: &Tables) -> (r: Vec<Action>)
        requires
            old(self).wf(),
            Turing::admits(event),
            tables.wf(),
        ensures
            *final(self) == old(self).after(event),
            final(self).wf(),
            r@ == old(self).does(event, *tables),
    {
        match event {
            Event::Millisecond(inputs) => self.fut1(inputs, tables),
            Event::Fader { chan, value } => self.fut2(chan, value),
            Event::Down { shift } => {
                self.fut3(shift);
                Vec::new()
            },
            Event::Shift(shift) => self.fut4(shift),
            Event::LoadScene(storage) => {
                self.load_scene(storage);
                Vec::new()
            },
            Event::SaveScene(scene) => vec![Action::SaveScene(scene)],
        }
    }
}

/// A probability below all rolls never mutates the register, one above all of
/// them always does.
pub proof fn law_probability_ends(app: Turing, roll: u16)
    ensures
        app.prob <= 100 ==> app.next_register(roll) == turned(
            app.register_base,
            0,
            0,
            app.length,
        ),
        app.prob > 3900 ==> app.next_register(roll) == turned(
            app.register_base,
            1,
            0,
            app.length,
        ),
{
}

/// A clock at the input, where it rises to the level of one, moves the register
/// down by one place and feeds a bit back at its high end: the one at the length,
/// counted from the highest, inverted where the probability is above the roll,
/// which counts as at least 100 and at most 3900. What a clock starts from is what
/// the end of the one before has left. The register is stored.
pub proof fn law_clocks_turn_register(app: Turing, inputs: Inputs, tables: Tables)
    requires
        app.wf(),
        tables.wf(),
        app.params.range != Range::_0_5V,
        app.oldinputval < 406,
        inputs.raw >= 406,
        app.length <= 15,
    ensures
        ({
            let event = Event::Millisecond(inputs);
            let after = app.after(event);
            let before = app.register_base;
            let fed = (before >> ((15 - app.length) as u16)) & 1;
            let top = after.register >> 15;
            &&& after.register & 0x7FFF == before >> 1
            &&& app.prob <= 100 ==> top == fed
            &&& app.prob > 3900 ==> top != fed
            &&& 100 <= inputs.roll <= 3900 ==> (top != fed) == (app.prob > inputs.roll)
            &&& after.storage.register_saved == after.register
            &&& after.register_base == app.register_base
            &&& after.oldinputval == inputs.raw
        }),
{
    let before = app.register_base;
    let index = (15 - app.length) as u16;
    let bit = (before >> index) & 1;
    assert(bit == 0 || bit == 1) by (bit_vector)
        requires
            bit == (before >> index) & 1,
    ;
    assert(((before >> 1) | (bit << 15)) & 0x7FFF == before >> 1 && ((before >> 1) | (bit << 15))
        >> 15 == bit) by (bit_vector)
        requires
            bit == 0 || bit == 1,
    ;
    let other = bit ^ 1;
    assert((other == 0 || other == 1) && other != bit) by (bit_vector)
        requires
            other == bit ^ 1,
            bit == 0 || bit == 1,
    ;
    assert(((before >> 1) | (other << 15)) & 0x7FFF == before >> 1 && ((before >> 1) | (other
        << 15)) >> 15 == other) by (bit_vector)
        requires
            other == 0 || other == 1,
    ;
}

/// The end of a clock makes the register what the next one starts from, and ends
/// the note; a steady input changes nothing.
pub proof fn law_clocks_end(app: Turing, inputs: Inputs, tables: Tables)
    requires
        app.wf(),
        app.params.range != Range::_0_5V,
    ensures
        ({
            let event = Event::Millisecond(inputs);
            let after = app.after(event);
            let actions = app.does(event, tables);
            &&& app.oldinputval > 406 && inputs.raw < 406 ==> after == (Turing {
                register_base: app.register,
                oldinputval: inputs.raw,
                ..app
            }) && (app.params.midi_mode == MidiMode::Note ==> actions.contains(
                app.midi().note_off(app.note),
            ))
            &&& (app.oldinputval < 406 && inputs.raw < 406) || (app.oldinputval > 406 && inputs.raw
                > 406) ==> after == (Turing { oldinputval: inputs.raw, ..app }) && actions.len()
                == 0
        }),
{
    let actions = app.does(Event::Millisecond(inputs), tables);
    if app.oldinputval > 406 && inputs.raw < 406 && app.params.midi_mode == MidiMode::Note {
        assert(actions[1] == app.midi().note_off(app.note));
    }
}

/// The value of a register is the share of full scale that its top bits, as many
/// as the length, have of all ones; it is put out at the level of the attenuation.
pub proof fn law_register_is_scaled(app: Turing, register: u16, tables: Tables)
    requires
        tables.wf(),
        1 <= app.length <= 16,
        app.storage.att_saved <= 4095,
    ensures
        ({
            let bits = app.length as u32;
            let top = (register >> ((16 - bits) as u16)) as int;
            let full = (1u32 << bits) - 1;
            let value = app.register_value(register);
            let level = tables.linear@[app.storage.att_saved as int];
            let out = app.output_value(register, tables);
            &&& 0 <= top <= full
            &&& full * value <= 4095 * top < full * value + full
            &&& 4095 * out <= value * level < 4095 * out + 4095
        }),
{
    let bits = app.length as u32;
    let shift = (16 - bits) as u16;
    let top = register >> shift;
    assert((1u32 << bits) >= 2 && (register >> shift) < (1u32 << bits)) by (bit_vector)
        requires
            1 <= bits <= 16,
            shift == 16 - bits,
    ;
    let full = (1u32 << bits) - 1;
    vstd::arithmetic::div_mod::lemma_fundamental_div_mod(top * 4095, full);
    vstd::arithmetic::div_mod::lemma_mod_bound(top * 4095, full);
}

/// A clock puts the quantized value of its register out, with its note, or with a
/// controller of the value, and asks for the register to be saved.
pub proof fn law_clocks_play_register(app: Turing, inputs: Inputs, tables: Tables)
    requires
        app.wf(),
        tables.wf(),
        app.params.range == Range::_0_10V,
        app.oldinputval < 406,
        inputs.raw >= 406,
    ensures
        ({
            let event = Event::Millisecond(inputs);
            let after = app.after(event);
            let actions = app.does(event, tables);
            &&& actions[0] == Action::Save
            &&& actions[1] == (Action::Dac {
                channel: (app.start_channel + 1) as usize,
                value: inputs.played.counts,
            })
            &&& app.params.midi_mode == MidiMode::Note ==> actions[4] == app.midi().note_on(
                inputs.played.note,
                4095,
            ) && after.note == inputs.played.note
            &&& app.params.midi_mode == MidiMode::Cc ==> actions[4] == app.midi().cc(
                app.params.midi_cc,
                app.output_value(after.register, tables) as u16,
            ) && after.note == app.note
        }),
{
}

/// The first fader sets the probability, the second one the attenuation, which is
/// stored.
pub proof fn law_faders_set_values(app: Turing, chan: usize, value: u16, tables: Tables)
    requires
        app.wf(),
        chan < 2,
    ensures
        ({
            let at = chan as int;
            let target = if chan == 0 {
                app.prob
            } else {
                app.storage.att_saved
            };
            let event = Event::Fader { chan, value };
            let after = app.after(event);
            let emitted = app.latch[at].emits(value, LatchLayer::Main, target);
            &&& emitted is None ==> after.prob == app.prob && after.storage == app.storage
            &&& emitted matches Some(v) ==> {
                &&& chan == 0 ==> after.prob == v && after.storage == app.storage
                &&& chan == 1 ==> after.storage == (Storage { att_saved: v, ..app.storage })
                    && after.prob == app.prob && app.does(event, tables) == seq![Action::Save]
            }
            &&& after.latch[at] == app.latch[at].updated(value, LatchLayer::Main, target)
            &&& after.register == app.register && after.length == app.length
        }),
{
}

/// While shift is held the button counts up to sixteen, from none; letting go of
/// shift takes a count of two or more over as the length, which is stored.
pub proof fn law_presses_count_length(app: Turing, tables: Tables)
    requires
        app.wf(),
    ensures
        ({
            let held = app.after(Event::Shift(true));
            let pressed = app.after(Event::Down { shift: true });
            let released = app.after(Event::Shift(false));
            &&& !app.shift_old ==> held.rec_flag && held.shift_old && held.length_rec == 0
                && held.length == app.length
            &&& app.rec_flag && app.length_rec < 16 ==> pressed.length_rec == app.length_rec + 1
            &&& app.rec_flag && app.length_rec >= 16 ==> pressed.length_rec == 16
            &&& !app.rec_flag ==> pressed == app
            &&& app.after(Event::Down { shift: false }) == app
            &&& app.shift_old && app.length_rec >= 2 ==> released.length == app.length_rec
                && released.storage == (Storage { length_saved: app.length_rec, ..app.storage })
                && !released.rec_flag && app.does(Event::Shift(false), tables) == seq![Action::Save]
            &&& app.shift_old && app.length_rec < 2 ==> released.length == app.length
                && released.storage == app.storage && !released.rec_flag
        }),
{
}

/// A scene brings its length, its attenuation and the register that the next clock
/// starts from, and takes the probability off; so does the start.
pub proof fn law_scenes_bring_register(
    app: Turing,
    storage: Storage,
    unit: App<2>,
    params: Params,
    faders: [u16; 2],
    takeover: TakeoverMode,
)
    ensures
        ({
            let loaded = app.after(Event::LoadScene(storage));
            let started = Turing::started(unit, params, storage, faders, takeover);
            &&& loaded.storage == storage && started.storage == storage
            &&& loaded.length == storage.length_saved && started.length == storage.length_saved
            &&& loaded.register_base == storage.register_saved && started.register_base
                == storage.register_saved
            &&& loaded.prob == 0 && started.prob == 0
        }),
{
}

/// A step shows the register on the first channel and the output on the second, by
/// 16 counts a step, and lights the lower LED in red, which its end puts out.
pub proof fn law_steps_are_shown(app: Turing, inputs: Inputs, tables: Tables)
    requires
        app.wf(),
        tables.wf(),
    ensures
        ({
            let rise = app.rise_actions(inputs, tables);
            let first = app.start_channel;
            let second = (app.start_channel + 1) as usize;
            let color = app.params.color;
            let register = app.next_register(inputs.roll);
            &&& rise.len() == 6
            &&& rise[2] matches Action::Led {
                channel,
                led: Led::Top,
                msg: crate::tasks::leds::LedMsg::Mode(crate::tasks::leds::LedMode::Static(shade, Brightness::Custom(level))),
            } && channel == first && shade == color && (0 <= app.register_value(register) <= 4095
                ==> 16 * level <= app.register_value(register) < 16 * level + 16)
            &&& rise[3] matches Action::Led {
                channel,
                led: Led::Top,
                msg: crate::tasks::leds::LedMsg::Mode(crate::tasks::leds::LedMode::Static(shade, Brightness::Custom(level))),
            } && channel == second && shade == color && (0 <= app.output_value(register, tables)
                <= 4095 ==> 16 * level <= app.output_value(register, tables) < 16 * level + 16)
            &&& rise[5] == led_set(first, Led::Bottom, Color::Red, Brightness::High)
            &&& app.fall_actions()[0] == led_set(first, Led::Bottom, Color::Red, Brightness::Off)
        }),
{
}

/// The app starts on what is stored, with the stored register and its length, and
/// nothing recorded. Its faders are where they are found.
pub proof fn law_starts_on_storage(
    app: App<2>,
    params: Params,
    storage: Storage,
    faders: [u16; 2],
    takeover: TakeoverMode,
)
    ensures
        ({
            let s = Turing::started(app, params, storage, faders, takeover);
            &&& s.start_channel == app.start_channel && s.params == params && s.storage == storage
            &&& s.latch[0] == AnalogLatch::initial(faders[0], 25, takeover)
            &&& s.latch[1] == AnalogLatch::initial(faders[1], 25, takeover)
            &&& s.register == storage.register_saved && s.register_base == storage.register_saved
            &&& s.length == storage.length_saved
            &&& s.prob == 0 && s.oldinputval == 0 && s.length_rec == 0
            &&& !s.rec_flag && !s.shift_old
            &&& s.note == MidiNote(0)
        }),
{
}

/// The bit that is fed back is as many places below the highest one as its index
/// says, and the highest one where there is no such place.
pub proof fn law_fed_bit_is_counted_down(x: u16, index: u16)
    ensures
        index <= 15 ==> selected(index) + index == 15,
        index > 15 ==> selected(index) == 15,
        selected_bit(x, index) == 0 || selected_bit(x, index) == 1,
{
    let shifted = x >> selected(index);
    assert(shifted & 1 == 0 || shifted & 1 == 1) by (bit_vector);
}

/// The parameters of a fresh app, and what it has in its storage.
pub proof fn law_fresh_app(start_channel: usize, r: Storage)
    requires
        call_ensures(Storage::default, (), r),
    ensures
        ({
            let p = initial_params(start_channel);
            &&& p.midi_channel == MidiChannel(1)
            &&& p.midi_cc == MidiCc::for_channel(32, start_channel)
            &&& p.midi_mode == MidiMode::Note
            &&& p.midi_note == MidiNote(36)
            &&& p.midi_out == (MidiOut { usb: true, out1: true, out2: true })
            &&& p.color == Color::Pink
            &&& p.range == Range::_0_5V
            &&& !p.nrpn
        }),
        r == (Storage { att_saved: 3000, length_saved: 8, register_saved: 0 }),
{
}

} // verus!
