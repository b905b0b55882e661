//! Euclid: a Euclidean sequencer with a second, complementary output.
use vstd::prelude::*;
use vstd::array::spec_array_update;

use crate::app::{
    channel_unset, led_set, Action, App, GateJack, Leds, MidiOutput, PortMode,
};
use crate::apps::parts::{
    byte_level, division_for, division_of, layer_for, layer_of, level_byte, light_or_not,
    lit_or_not, part_division, part_of_division,
};
use crate::latch::{AnalogLatch, LatchLayer, TakeoverMode};
use crate::storage::{values_new, values_push, AppParams, AppStorage, ManagedStorage, ParamStore};
use crate::tasks::leds::Led;
use crate::types::{
    Brightness, ClockEvent, Color, MidiChannel, MidiNote, MidiOut, ParamValue, Value,
};
use crate::utils::clamp_to;

verus! {

pub const CHANNELS: usize = 2;

pub const PARAMS: usize = 6;

/// The parameters of the app.
#[derive(Clone, Copy, Debug, PartialEq, Eq, Structural)]
pub struct Params {
    pub midi_channel: MidiChannel,
    pub midi_out: MidiOut,
    pub note: MidiNote,
    pub note2: MidiNote,
    pub gatel: i32,
    pub color: Color,
}

impl AppParams for Params {
    open spec fn read(values: Seq<Value>) -> Option<Self> {
        if values.len() < 6 {
            None
        } else {
            Some(
                Params {
                    midi_channel: MidiChannel::reads(values[0]),
                    note: MidiNote::reads(values[1]),
                    note2: MidiNote::reads(values[2]),
                    gatel: i32::reads(values[3]),
                    color: Color::reads(values[4]),
                    midi_out: MidiOut::reads(values[5]),
                },
            )
        }
    }

    open spec fn listing(self) -> Seq<Value> {
        seq![
            self.midi_channel.stored(),
            self.note.stored(),
            self.note2.stored(),
            self.gatel.stored(),
            self.color.stored(),
            self.midi_out.stored(),
        ]
    }

    fn from_values(values: &[Value]) -> (r: Option<Self>) {
        if values.len() < PARAMS {
            return None;
        }
        Some(
            Params {
                midi_channel: MidiChannel::from_value(values[0]),
                note: MidiNote::from_value(values[1]),
                note2: MidiNote::from_value(values[2]),
                gatel: i32::from_value(values[3]),
                color: Color::from_value(values[4]),
                midi_out: MidiOut::from_value(values[5]),
            },
        )
    }

    fn to_values(&self) -> (r: heapless::Vec<Value, 16>) {
        let mut vec = values_new();
        let _ = values_push(&mut vec, self.midi_channel.into_value());
        let _ = values_push(&mut vec, self.note.into_value());
        let _ = values_push(&mut vec, self.note2.into_value());
        let _ = values_push(&mut vec, self.gatel.into_value());
        let _ = values_push(&mut vec, self.color.into_value());
        let _ = values_push(&mut vec, self.midi_out.into_value());
        vec
    }

    proof fn law_params_round_trip(self) {
    }
}

impl Params {
    /// Whether the length of a gate can be computed for every division.
    pub open spec fn wf(self) -> bool {
        0 <= self.gatel <= 11_184_810
    }
}

/// What the app keeps: the length and the beats, the rotation and the
/// probability, the division, the mute, and whether the second output marks the
/// first step.
#[derive(Clone, Copy)]
pub struct Storage {
    pub fader_saved: [u16; 2],
    pub shift_fader_saved: [u16; 2],
    pub div_saved: u16,
    pub mute_saved: bool,
    pub mode: bool,
}

impl Default for Storage {
    fn default() -> (r: Self)
        ensures
            r.fader_saved@ == seq![2000u16, 2000],
            r.shift_fader_saved@ == seq![0u16, 4095],
            r.div_saved == 3000,
            !r.mute_saved,
            r.mode,
            r.wf(),
    {
        Storage {
            fader_saved: [2000, 2000],
            shift_fader_saved: [0, 4095],
            div_saved: 3000,
            mute_saved: false,
            mode: true,
        }
    }
}

impl AppStorage for Storage {

}

impl Storage {
    /// Whether the positions that steps are derived from have 12 bits, and the one
    /// that the division is derived from is within the table.
    pub open spec fn wf(self) -> bool {
        &&& self.fader_saved[0] <= 4095
        &&& self.fader_saved[1] <= 4095
        &&& self.shift_fader_saved[0] <= 4095
        &&& self.div_saved <= 4139
    }
}

/// The parameters that the app starts with: gates of half a step.
pub open spec fn initial_params() -> Params {
    Params {
        midi_channel: MidiChannel(1),
        midi_out: (MidiOut { usb: true, out1: true, out2: true }),
        note: MidiNote(32),
        note2: MidiNote(33),
        gatel: 50,
        color: Color::Orange,
    }
}

/// The parameters and the storage of the app, before anything was loaded.
pub fn wrapper(app: App<2>) -> (r: (ParamStore<Params>, ManagedStorage<Storage>))
    ensures
        r.0 == (ParamStore {
            app_id: app.app_id,
            inner: initial_params(),
            layout_id: app.layout_id,
        }),
        r.1.app_id == app.app_id,
        r.1.layout_id == app.layout_id,
        call_ensures(Storage::default, (), r.1.inner),
{
    (
        ParamStore::new(
            app.app_id,
            app.layout_id,
            Params {
                midi_channel: MidiChannel::default(),
                midi_out: MidiOut::default(),
                note: MidiNote(32),
                note2: MidiNote(33),
                gatel: 50,
                color: Color::Orange,
            },
        ),
        ManagedStorage::new(app.app_id, app.layout_id),
    )
}

// ---------------------------------------------------------------------------
// Patterns
// ---------------------------------------------------------------------------

/// A pattern rotated left within a width.
pub open spec fn rotated(value: u32, width: u8, rotation: u8) -> u32 {
    let by = rotation % width;
    let rest = (width - by) as u8;
    ((value << by) | (value >> rest)) & mask(width)
}

/// The low bits of a width.
pub open spec fn mask(width: u8) -> u32 {
    ((1u32 << width) - 1) as u32
}

/// Rotate left a u32 pattern within a given bit width
pub fn rotl32(value: u32, width: u8, rotation: u8) -> (r: u32)
    requires
        0 < width < 32,
    ensures
        r == rotated(value, width, rotation),
{
    let by: u8 = rotation % width;
    assert(width < 32 ==> (1u32 << width) >= 1) by (bit_vector);
    ((value << by) | (value >> (width - by))) & ((1u32 << width) - 1)
}

/// The steps that are counted, at least two.
pub open spec fn steps_counted(num_steps: u8) -> int {
    if num_steps < 2 {
        2
    } else {
        num_steps as int
    }
}

/// The place of a pattern in the table of patterns, which has a row of 33 per
/// number of steps.
pub open spec fn pattern_index(num_steps: u8, num_beats: u8) -> int {
    let steps = steps_counted(num_steps);
    (steps - 2) * 33 + (if num_beats < steps {
        num_beats as int
    } else {
        steps
    })
}

/// The Euclidean pattern of so many beats in so many steps, rotated within the
/// steps and the padding.
pub open spec fn pattern_of(
    patterns: Seq<u32>,
    num_steps: u8,
    num_beats: u8,
    rotation: u8,
    padding: u8,
) -> u32 {
    let index = pattern_index(num_steps, num_beats);
    let pattern = if index < patterns.len() {
        patterns[index]
    } else {
        0u32
    };
    let width = (steps_counted(num_steps) + padding) as u8;
    if rotation > 0 {
        rotated(pattern, width, rotation % width)
    } else {
        pattern
    }
}

/// Get the Euclidean pattern as a u32
pub fn euclidean_pattern(
    patterns: &[u32],
    num_steps: u8,
    num_beats: u8,
    rotation: u8,
    padding: u8,
) -> (r: u32)
    requires
        rotation > 0 ==> steps_counted(num_steps) + padding < 32,
    ensures
        r == pattern_of(patterns@, num_steps, num_beats, rotation, padding),
{
    let steps: u8 = if num_steps < 2 {
        2
    } else {
        num_steps
    };
    let beats: u8 = if num_beats < steps {
        num_beats
    } else {
        steps
    };
    let index: usize = ((steps - 2) as usize) * 33 + beats as usize;
    let mut pattern: u32 = if index < patterns.len() {
        patterns[index]
    } else {
        0
    };
    if rotation > 0 {
        let rot: u8 = rotation % (steps + padding);
        pattern = rotl32(pattern, steps + padding, rot);
    }
    pattern
}

/// Whether there is a beat at a position of the clock.
pub open spec fn beats_at(
    patterns: Seq<u32>,
    num_steps: u8,
    num_beats: u8,
    rotation: u8,
    clock: int,
) -> bool {
    let pos = (clock % num_steps as int) as u8;
    pattern_of(patterns, num_steps, num_beats, rotation, 0) & (1u32 << pos) != 0
}

/// Check if there's a beat at a given clock position
pub fn euclidean_filter(
    patterns: &[u32],
    num_steps: u8,
    num_beats: u8,
    rotation: u8,
    clock: u32,
) -> (r: bool)
    requires
        0 < num_steps <= 32,
        rotation > 0 ==> num_steps < 32,
    ensures
        r == beats_at(patterns@, num_steps, num_beats, rotation, clock as int),
{
    let pattern: u32 = euclidean_pattern(patterns, num_steps, num_beats, rotation, 0);
    let pos: u8 = (clock % num_steps as u32) as u8;
    (pattern & (1u32 << pos)) != 0
}

/// A pattern of a width, rotated by all of it or not at all, stays as it is; and
/// rotating on to the full width comes back to it.
pub proof fn law_rotation_is_cyclic(value: u32, width: u8, rotation: u8)
    requires
        0 < width < 32,
        value <= mask(width),
        rotation < width,
    ensures
        rotated(value, width, 0) == value,
        rotated(value, width, width) == value,
        rotated(rotated(value, width, rotation), width, (width - rotation) as u8) == value,
        rotated(value, width, rotation) <= mask(width),
{
    let w = width as nat;
    let m = mask(width);
    assert(width < 32 ==> (1u32 << width) >= 1) by (bit_vector);
    assert(width < 32 && m == sub_one(1u32 << width) && value <= m ==> ((value << 0u8) | (value
        >> width)) & m == value) by (bit_vector);
    vstd::arithmetic::div_mod::lemma_small_mod(0, w);
    vstd::arithmetic::div_mod::lemma_small_mod(rotation as nat, w);
    vstd::arithmetic::div_mod::lemma_mod_self_0(width as int);
    let rest = (width - rotation) as u8;
    let once = ((value << rotation) | (value >> rest)) & m;
    assert(((value << rotation) | (value >> rest)) & m <= m) by (bit_vector);
    assert(rotated(value, width, rotation) == once);
    assert(rotated(value, width, 0) == value);
    assert(rotated(value, width, width) == value);
    if rotation == 0 {
        assert(once == value);
    } else {
        vstd::arithmetic::div_mod::lemma_small_mod(rest as nat, w);
        assert(width < 32 && m == sub_one(1u32 << width) && value <= m && 0 < rotation && rotation
            < width && width == rest + rotation ==> (((((value << rotation) | (value >> rest)) & m)
            << rest) | ((((value << rotation) | (value >> rest)) & m) >> rotation)) & m == value)
            by (bit_vector);
    }
}

spec fn sub_one(x: u32) -> u32 {
    (x - 1) as u32
}

/// A rotation delays the beats by as many steps.
pub proof fn law_rotation_delays_beats(
    patterns: Seq<u32>,
    num_steps: u8,
    num_beats: u8,
    rotation: u8,
    clock: int,
)
    requires
        2 <= num_steps < 32,
        pattern_of(patterns, num_steps, num_beats, 0, 0) <= mask(num_steps),
        clock >= 0,
    ensures
        beats_at(patterns, num_steps, num_beats, rotation, clock + rotation) == beats_at(
            patterns,
            num_steps,
            num_beats,
            0,
            clock,
        ),
{
    let value = pattern_of(patterns, num_steps, num_beats, 0, 0);
    let by = rotation % num_steps;
    let from = (clock % num_steps as int) as u8;
    let to = ((clock + rotation) % num_steps as int) as u8;
    vstd::arithmetic::div_mod::lemma_small_mod(by as nat, num_steps as nat);
    vstd::arithmetic::div_mod::lemma_add_mod_noop(clock, rotation as int, num_steps as int);
    assert(to == (from + by) % num_steps as int);
    assert(to == if from + by < num_steps {
        from + by
    } else {
        from + by - num_steps
    }) by {
        if from + by < num_steps {
            vstd::arithmetic::div_mod::lemma_small_mod((from + by) as nat, num_steps as nat);
        } else {
            let over = from + by - num_steps;
            vstd::arithmetic::div_mod::lemma_mod_add_multiples_vanish(over, num_steps as int);
            vstd::arithmetic::div_mod::lemma_small_mod(over as nat, num_steps as nat);
        }
    }
    if rotation > 0 {
        lemma_rotated_bit(value, num_steps, by, from, to);
    }
}

proof fn lemma_rotated_bit(value: u32, width: u8, by: u8, from: u8, to: u8)
    requires
        0 < width < 32,
        value <= mask(width),
        by < width,
        from < width,
        to == (if from + by < width {
            from + by
        } else {
            from + by - width
        }),
    ensures
        (rotated(value, width, by) & (1u32 << to) != 0) == (value & (1u32 << from) != 0),
{
    vstd::arithmetic::div_mod::lemma_small_mod(by as nat, width as nat);
    let m = mask(width);
    let rest = (width - by) as u8;
    assert(width < 32 ==> (1u32 << width) >= 1) by (bit_vector);
    assert(m == sub_one(1u32 << width));
    assert(((((value << by) | (value >> rest)) & m) & (1u32 << to) != 0) == (value & (1u32 << from)
        != 0)) by (bit_vector)
        requires
            width < 32,
            m == sub_one(1u32 << width),
            value <= m,
            by < width,
            from < width,
            rest + by == width,
            (from + by < width && to == from + by) || (from + by >= width && to + width == from
                + by),
    ;
}

/// The pattern repeats with its number of steps.
pub proof fn law_pattern_is_periodic(
    patterns: Seq<u32>,
    num_steps: u8,
    num_beats: u8,
    rotation: u8,
    clock: int,
    rounds: int,
)
    requires
        0 < num_steps <= 32,
        clock >= 0,
    ensures
        beats_at(patterns, num_steps, num_beats, rotation, clock + rounds * num_steps) == beats_at(
            patterns,
            num_steps,
            num_beats,
            rotation,
            clock,
        ),
{
    vstd::arithmetic::div_mod::lemma_mod_multiples_vanish(rounds, clock, num_steps as int);
    assert(num_steps as int * rounds + clock == clock + rounds * num_steps) by (nonlinear_arith);
}

// ---------------------------------------------------------------------------
// The app
// ---------------------------------------------------------------------------

/// The steps of the pattern, one to sixteen.
pub open spec fn length_of(fader: u16) -> u8 {
    (fader * 15 / 4095 + 1) as u8
}

/// A share of the steps.
pub open spec fn share_of(fader: u16, length: u8) -> u8 {
    (fader * length / 4095) as u8
}

fn find_length(fader: u16) -> (r: u8)
    requires
        fader <= 4095,
    ensures
        r == length_of(fader),
        1 <= r <= 16,
{
    (fader as u32 * 15 / 4095) as u8 + 1
}

fn find_share(fader: u16, length: u8) -> (r: u8)
    requires
        fader <= 4095,
        length <= 16,
    ensures
        r == share_of(fader, length),
        r <= length,
{
    assert(0 <= fader * length <= 4095 * length) by (nonlinear_arith)
        requires
            0 <= fader <= 4095,
            0 <= length,
    ;
    (fader as u32 * length as u32 / 4095) as u8
}

/// What an event brings.
pub enum Event {
    /// An event of the clock, at the given tick, with a roll of the die.
    Clock { event: ClockEvent, ticks: u64, roll: u16 },
    /// A button was pressed.
    Down { chan: usize, shift: bool },
    /// A fader was moved to a value.
    Fader { chan: usize, value: u16 },
    /// A look at the buttons, once per millisecond.
    Layer { shift: bool, button: bool },
    /// A scene was loaded into the storage.
    LoadScene(Storage),
    /// A scene is to be saved.
    SaveScene(u8),
}

/// The running app.
pub struct Euclid {
    pub start_channel: usize,
    pub params: Params,
    pub storage: Storage,
    pub muted: bool,
    pub div: u16,
    pub num_step: u8,
    pub num_beat: u8,
    pub rotation: u8,
    pub latch_layer: LatchLayer,
    pub latch: [AnalogLatch; 2],
    pub note_on: bool,
    pub aux_on: bool,
    pub tick_origin: u32,
}

impl Euclid {
    pub open spec fn wf(self) -> bool {
        &&& self.start_channel + 2 <= 16
        &&& self.params.wf()
        &&& self.storage.wf()
        &&& 2 <= self.div <= 384
        &&& 1 <= self.num_beat <= 16
        &&& self.rotation <= 16
    }

    pub open spec fn second(self) -> usize {
        (self.start_channel + 1) as usize
    }

    /// The MIDI port.
    pub open spec fn midi(self) -> MidiOutput {
        MidiOutput::port(self.start_channel, self.params.midi_out, self.params.midi_channel, false)
    }

    fn midi_port(&self) -> (r: MidiOutput)
        ensures
            r == self.midi(),
    {
        MidiOutput::new(
            self.params.midi_out,
            self.start_channel,
            self.params.midi_channel.to_wire(),
            false,
        )
    }

    /// Gate output of an output.
    pub open spec fn gate(self, chan: int, high: bool) -> Action {
        Action::Gate { channel: (self.start_channel + chan) as usize, high }
    }

    fn jack(&self, chan: usize) -> (r: GateJack)
        requires
            self.wf(),
            chan < 2,
        ensures
            r.channel == self.start_channel + chan,
    {
        GateJack::new(self.start_channel + chan)
    }

    /// The state with the steps, the beats and the rotation of a storage.
    pub open spec fn derived(self, storage: Storage) -> Euclid {
        let length = length_of(storage.fader_saved[0]);
        Euclid {
            storage,
            num_beat: length,
            num_step: share_of(storage.fader_saved[1], length),
            rotation: share_of(storage.shift_fader_saved[0], length),
            ..self
        }
    }

    fn derive(&mut self, storage: Storage)
        requires
            storage.wf(),
        ensures
            *final(self) == old(self).derived(storage),
            1 <= final(self).num_beat <= 16,
            final(self).rotation <= 16,
    {
        let length: u8 = find_length(storage.fader_saved[0]);
        self.storage = storage;
        self.num_beat = length;
        self.num_step = find_share(storage.fader_saved[1], length);
        self.rotation = find_share(storage.shift_fader_saved[0], length);
    }

    /// The state that the app starts with.
    pub open spec fn started(
        app: App<2>,
        params: Params,
        storage: Storage,
        faders: [u16; 2],
        takeover: TakeoverMode,
        ticks: u64,
    ) -> Euclid {
        (Euclid {
            start_channel: app.start_channel,
            params,
            storage,
            muted: storage.mute_saved,
            div: 6,
            num_step: 16,
            num_beat: 4,
            rotation: 0,
            latch_layer: LatchLayer::Main,
            latch: [
                AnalogLatch::initial(faders[0], 25, takeover),
                AnalogLatch::initial(faders[1], 25, takeover),
            ],
            note_on: false,
            aux_on: false,
            tick_origin: (ticks as int % 0x1_0000_0000) as u32,
        }).derived(storage)
    }

    /// Starts the app on what is stored, at the given tick.
    pub fn new(
        app: App<2>,
        params: Params,
        storage: Storage,
        faders: [u16; 2],
        takeover: TakeoverMode,
        ticks: u64,
    ) -> (r: (Self, Vec<Action>))
        requires
            app.wf(),
            params.wf(),
            storage.wf(),
        ensures
            r.0 == Euclid::started(app, params, storage, faders, takeover, ticks),
            r.0.wf(),
            r.1@ == seq![
                Action::Configure {
                    channel: app.start_channel,
                    mode: PortMode::Gate,
                    gpo_level: Some(4095),
                },
                Action::Configure {
                    channel: (app.start_channel + 1) as usize,
                    mode: PortMode::Gate,
                    gpo_level: Some(4095),
                },
                lit_or_not(
                    (app.start_channel + 1) as usize,
                    Led::Button,
                    !storage.mute_saved,
                    params.color,
                    Brightness::Mid,
                ),
                led_set(app.start_channel, Led::Button, params.color, Brightness::Mid),
            ],
    {
        let mut state = Euclid {
            start_channel: app.start_channel,
            params,
            storage,
            muted: storage.mute_saved,
            div: 6,
            num_step: 16,
            num_beat: 4,
            rotation: 0,
            latch_layer: LatchLayer::Main,
            latch: [app.make_latch(faders[0], takeover), app.make_latch(faders[1], takeover)],
            note_on: false,
            aux_on: false,
            tick_origin: (ticks % 0x1_0000_0000) as u32,
        };
        state.derive(storage);
        let actions = vec![
            app.make_gate_jack(0, 4095).1,
            app.make_gate_jack(1, 4095).1,
            light_or_not(
                app.start_channel + 1,
                Led::Button,
                !storage.mute_saved,
                params.color,
                Brightness::Mid,
            ),
            app.use_leds().set(0, Led::Button, params.color, Brightness::Mid),
        ];
        (state, actions)
    }

    /// The ticks since the origin, counted in 32 bits.
    pub open spec fn clkn(self, ticks: u64) -> int {
        (ticks as int % 0x1_0000_0000 - self.tick_origin) % 0x1_0000_0000
    }

    fn find_clkn(&self, ticks: u64) -> (r: u32)
        ensures
            r == self.clkn(ticks),
    {
        let now: u32 = (ticks % 0x1_0000_0000) as u32;
        now.wrapping_sub(self.tick_origin)
    }

    /// Whether a step begins at a tick.
    pub open spec fn begins(self, clkn: int) -> bool {
        clkn % self.div as int == 0
    }

    /// Whether the pattern plays a note with the step that begins at a tick, by
    /// the roll of the die.
    pub open spec fn plays(self, clkn: int, roll: u16, patterns: Seq<u32>) -> bool {
        beats_at(
            patterns,
            self.num_beat,
            self.num_step,
            self.rotation,
            clkn / self.div as int,
        ) && self.storage.shift_fader_saved[1] >= clamp_to(roll as int, 100, 3900)
    }

    /// The state after a step has begun: the second output marks the first step,
    /// or takes the steps without a note.
    pub open spec fn stepped(self, clkn: int, roll: u16, patterns: Seq<u32>) -> Euclid {
        if self.muted {
            self
        } else {
            let note_on = self.note_on || self.plays(clkn, roll, patterns);
            let marked = if self.storage.mode {
                clkn / self.div as int % self.num_beat as int == 0
            } else {
                !note_on
            };
            Euclid { note_on, aux_on: self.aux_on || marked, ..self }
        }
    }

    /// What a step sets off.
    pub open spec fn step_actions(self, clkn: int, roll: u16, patterns: Seq<u32>) -> Seq<Action> {
        let plays = self.plays(clkn, roll, patterns);
        let marked = if self.storage.mode {
            clkn / self.div as int % self.num_beat as int == 0
        } else {
            !(self.note_on || plays)
        };
        (if !self.muted && plays {
            seq![self.midi().note_on(self.params.note, 4095), self.gate(0, true)]
        } else {
            Seq::empty()
        }) + (if !self.muted && marked {
            seq![self.gate(1, true), self.midi().note_on(self.params.note2, 4095)]
        } else {
            Seq::empty()
        }) + (if self.latch_layer == LatchLayer::Third {
            seq![
                led_set(
                    self.start_channel,
                    Led::Bottom,
                    if self.div == 2 || self.div == 4 || self.div == 8 || self.div == 16 {
                        Color::Orange
                    } else {
                        Color::Blue
                    },
                    Brightness::High,
                ),
            ]
        } else {
            Seq::empty()
        })
    }

    fn begin_step(&mut self, clkn: u32, roll: u16, patterns: &[u32], actions: &mut Vec<Action>)
        requires
            old(self).wf(),
        ensures
            *final(self) == old(self).stepped(clkn as int, roll, patterns@),
            final(self).wf(),
            final(actions)@ == old(actions)@ + old(self).step_actions(
                clkn as int,
                roll,
                patterns@,
            ),
    {
        let midi = self.midi_port();
        let div: u32 = self.div as u32;
        let step: u32 = clkn / div;
        if !self.muted {
            let limit: u16 = if roll < 100 {
                100
            } else if roll > 3900 {
                3900
            } else {
                roll
            };
            let hit = euclidean_filter(
                patterns,
                self.num_beat,
                self.num_step,
                self.rotation,
                step,
            );
            if hit && self.storage.shift_fader_saved[1] >= limit {
                actions.push(midi.send_note_on(self.params.note, 4095));
                actions.push(self.jack(0).set_high());
                self.note_on = true;
            }
            if self.storage.mode {
                if step % self.num_beat as u32 == 0 {
                    actions.push(self.jack(1).set_high());
                    actions.push(midi.send_note_on(self.params.note2, 4095));
                    self.aux_on = true;
                }
            } else if !self.note_on {
                actions.push(self.jack(1).set_high());
                actions.push(midi.send_note_on(self.params.note2, 4095));
                self.aux_on = true;
            }
        }
        if self.latch_layer == LatchLayer::Third {
            let leds = Leds::<2>::new(self.start_channel);
            if div == 2 || div == 4 || div == 8 || div == 16 {
                actions.push(leds.set(0, Led::Bottom, Color::Orange, Brightness::High));
            } else {
                actions.push(leds.set(0, Led::Bottom, Color::Blue, Brightness::High));
            }
        }
    }

    /// What the end of the gates sets off.
    pub open spec fn gate_end_actions(self) -> Seq<Action> {
        (if self.note_on {
            seq![self.midi().note_off(self.params.note), self.gate(0, false)]
        } else {
            Seq::empty()
        }) + (if self.aux_on {
            seq![self.midi().note_off(self.params.note2), self.gate(1, false)]
        } else {
            Seq::empty()
        }) + seq![led_set(self.start_channel, Led::Bottom, self.params.color, Brightness::Off)]
    }

    fn end_gates(&mut self, actions: &mut Vec<Action>)
        requires
            old(self).wf(),
        ensures
            *final(self) == (Euclid { note_on: false, aux_on: false, ..*old(self) }),
            final(self).wf(),
            final(actions)@ == old(actions)@ + old(self).gate_end_actions(),
    {
        let midi = self.midi_port();
        if self.note_on {
            actions.push(midi.send_note_off(self.params.note));
            self.note_on = false;
            actions.push(self.jack(0).set_low());
        }
        if self.aux_on {
            actions.push(midi.send_note_off(self.params.note2));
            self.aux_on = false;
            actions.push(self.jack(1).set_low());
        }
        let leds = Leds::<2>::new(self.start_channel);
        actions.push(leds.set(0, Led::Bottom, self.params.color, Brightness::Off));
    }

    /// The LEDs after a tick: both outputs, or the rotation and the probability.
    pub open spec fn leds(self) -> Seq<Action> {
        let color = self.params.color;
        match self.latch_layer {
            LatchLayer::Main => seq![
                led_set(
                    self.start_channel,
                    Led::Top,
                    color,
                    if self.note_on {
                        Brightness::High
                    } else {
                        Brightness::Off
                    },
                ),
                led_set(
                    self.second(),
                    Led::Top,
                    color,
                    if self.aux_on {
                        Brightness::High
                    } else {
                        Brightness::Off
                    },
                ),
            ],
            LatchLayer::Alt => seq![
                led_set(
                    self.start_channel,
                    Led::Top,
                    Color::Red,
                    Brightness::Custom(level_byte(self.storage.shift_fader_saved[0] as int)),
                ),
                led_set(
                    self.second(),
                    Led::Top,
                    Color::Red,
                    Brightness::Custom(level_byte(self.storage.shift_fader_saved[1] as int)),
                ),
            ],
            LatchLayer::Third => Seq::empty(),
        }
    }

    fn push_leds(&self, actions: &mut Vec<Action>)
        requires
            self.wf(),
        ensures
            final(actions)@ == old(actions)@ + self.leds(),
    {
        let leds = Leds::<2>::new(self.start_channel);
        let color = self.params.color;
        match self.latch_layer {
            LatchLayer::Main => {
                let first = if self.note_on {
                    Brightness::High
                } else {
                    Brightness::Off
                };
                let second = if self.aux_on {
                    Brightness::High
                } else {
                    Brightness::Off
                };
                actions.push(leds.set(0, Led::Top, color, first));
                actions.push(leds.set(1, Led::Top, color, second));
            },
            LatchLayer::Alt => {
                let first: u8 = byte_level(self.storage.shift_fader_saved[0]);
                let second: u8 = byte_level(self.storage.shift_fader_saved[1]);
                actions.push(leds.set(0, Led::Top, Color::Red, Brightness::Custom(first)));
                actions.push(leds.set(1, Led::Top, Color::Red, Brightness::Custom(second)));
            },
            LatchLayer::Third => {},
        }
    }

    /// Whether the gates end at a tick.
    pub open spec fn gates_end(self, clkn: int) -> bool {
        clkn % self.div as int == part_of_division(self.div as int, self.params.gatel as int)
    }

    /// The state after a tick.
    pub open spec fn ticked(self, clkn: int, roll: u16, patterns: Seq<u32>) -> Euclid {
        if self.begins(clkn) {
            self.stepped(clkn, roll, patterns)
        } else if self.gates_end(clkn) {
            Euclid { note_on: false, aux_on: false, ..self }
        } else {
            self
        }
    }

    /// What a tick sets off.
    pub open spec fn tick_actions(self, clkn: int, roll: u16, patterns: Seq<u32>) -> Seq<Action> {
        (if self.begins(clkn) {
            self.step_actions(clkn, roll, patterns)
        } else if self.gates_end(clkn) {
            self.gate_end_actions()
        } else {
            Seq::empty()
        }) + self.ticked(clkn, roll, patterns).leds()
    }

    /// Both notes and both gates ended.
    pub open spec fn silenced(self) -> Seq<Action> {
        seq![
            self.midi().note_off(self.params.note),
            self.midi().note_off(self.params.note2),
            self.gate(0, false),
            self.gate(1, false),
        ]
    }

    fn silence(&mut self) -> (r: Vec<Action>)
        requires
            old(self).wf(),
        ensures
            *final(self) == (Euclid { note_on: false, aux_on: false, ..*old(self) }),
            final(self).wf(),
            r@ == old(self).silenced(),
    {
        self.note_on = false;
        self.aux_on = false;
        let midi = self.midi_port();
        vec![
            midi.send_note_off(self.params.note),
            midi.send_note_off(self.params.note2),
            self.jack(0).set_low(),
            self.jack(1).set_low(),
        ]
    }

    /// The state after an event of the clock.
    pub open spec fn clocked(
        self,
        event: ClockEvent,
        ticks: u64,
        roll: u16,
        patterns: Seq<u32>,
    ) -> Euclid {
        match event {
            ClockEvent::Reset => Euclid {
                tick_origin: (ticks as int % 0x1_0000_0000) as u32,
                note_on: false,
                aux_on: false,
                ..self
            },
            ClockEvent::Stop => Euclid { note_on: false, aux_on: false, ..self },
            ClockEvent::Tick => self.ticked(self.clkn(ticks), roll, patterns),
            ClockEvent::Start => self,
        }
    }

    /// What an event of the clock sets off.
    pub open spec fn clock_actions(
        self,
        event: ClockEvent,
        ticks: u64,
        roll: u16,
        patterns: Seq<u32>,
    ) -> Seq<Action> {
        match event {
            ClockEvent::Reset => self.silenced(),
            ClockEvent::Stop => self.silenced(),
            ClockEvent::Tick => self.tick_actions(self.clkn(ticks), roll, patterns),
            ClockEvent::Start => Seq::empty(),
        }
    }

    /// An event of the clock.
    pub fn fut1(&mut self, event: ClockEvent, ticks: u64, roll: u16, patterns: &[u32]) -> (r: Vec<
        Action,
    >)
        requires
            old(self).wf(),
        ensures
            *final(self) == old(self).clocked(event, ticks, roll, patterns@),
            final(self).wf(),
            r@ == old(self).clock_actions(event, ticks, roll, patterns@),
    {
        match event {
            ClockEvent::Reset => {
                self.tick_origin = (ticks % 0x1_0000_0000) as u32;
                self.silence()
            },
            ClockEvent::Stop => self.silence(),
            ClockEvent::Tick => {
                let mut actions: Vec<Action> = Vec::new();
                let clkn: u32 = self.find_clkn(ticks);
                let div: u32 = self.div as u32;
                let gatel: u32 = self.params.gatel as u32;
                assert(div * gatel <= 384 * 11_184_810) by (nonlinear_arith)
                    requires
                        0 <= div <= 384,
                        0 <= gatel <= 11_184_810,
                ;
                let end: u32 = part_division(div, gatel);
                if clkn % div == 0 {
                    self.begin_step(clkn, roll, patterns, &mut actions);
                }
                if clkn % div == end {
                    self.end_gates(&mut actions);
                }
                self.push_leds(&mut actions);
                actions
            },
            ClockEvent::Start => Vec::new(),
        }
    }

    /// The state after a button was pressed: the second one toggles the mute, and
    /// with shift what the second output does.
    pub open spec fn pressed(self, chan: int, shift: bool) -> Euclid {
        if chan == 1 && !shift {
            let muted = !self.muted;
            Euclid { muted, storage: Storage { mute_saved: muted, ..self.storage }, ..self }
        } else if chan == 1 {
            Euclid { storage: Storage { mode: !self.storage.mode, ..self.storage }, ..self }
        } else {
            self
        }
    }

    /// The LED of the second output's mode.
    pub open spec fn mode_led(self, mode: bool) -> Action {
        led_set(
            self.second(),
            Led::Button,
            self.params.color,
            if mode {
                Brightness::Low
            } else {
                Brightness::High
            },
        )
    }

    fn show_mode(&self) -> (r: Action)
        requires
            self.wf(),
        ensures
            r == self.mode_led(self.storage.mode),
    {
        let leds = Leds::<2>::new(self.start_channel);
        if !self.storage.mode {
            leds.set(1, Led::Button, self.params.color, Brightness::High)
        } else {
            leds.set(1, Led::Button, self.params.color, Brightness::Low)
        }
    }

    /// What a pressed button sets off.
    pub open spec fn press_actions(self, chan: int, shift: bool) -> Seq<Action> {
        if chan == 1 && !shift {
            seq![Action::Save] + (if self.muted {
                seq![led_set(self.second(), Led::Button, self.params.color, Brightness::Mid)]
            } else {
                seq![self.gate(0, false)] + channel_unset(self.second())
            })
        } else if chan == 1 {
            seq![Action::Save, self.mode_led(!self.storage.mode)]
        } else {
            Seq::empty()
        }
    }

    /// A button was pressed.
    pub fn fut2(&mut self, chan: usize, shift: bool) -> (r: Vec<Action>)
        requires
            old(self).wf(),
        ensures
            *final(self) == old(self).pressed(chan as int, shift),
            final(self).wf(),
            r@ == old(self).press_actions(chan as int, shift),
    {
        let leds = Leds::<2>::new(self.start_channel);
        let mut actions: Vec<Action> = Vec::new();
        if chan == 1 {
            actions.push(Action::Save);
            if !shift {
                self.muted = !self.muted;
                self.storage.mute_saved = self.muted;
                if self.muted {
                    actions.push(self.jack(0).set_low());
                    let mut dark = leds.unset_chan(1);
                    actions.append(&mut dark);
                } else {
                    actions.push(leds.set(1, Led::Button, self.params.color, Brightness::Mid));
                }
            } else {
                self.storage.mode = !self.storage.mode;
                actions.push(self.show_mode());
            }
        }
        actions
    }

    /// The stored position that a fader edits.
    pub open spec fn fader_target(self, chan: int) -> u16 {
        match self.latch_layer {
            LatchLayer::Main => self.storage.fader_saved[chan],
            LatchLayer::Alt => self.storage.shift_fader_saved[chan],
            LatchLayer::Third => if chan == 0 {
                self.storage.div_saved
            } else {
                0
            },
        }
    }

    /// The state with a fader's position stored, and what follows from it.
    pub open spec fn edited(self, chan: int, value: u16) -> Euclid {
        match self.latch_layer {
            LatchLayer::Main => {
                let storage = Storage {
                    fader_saved: spec_array_update(self.storage.fader_saved, chan, value),
                    ..self.storage
                };
                if chan == 0 {
                    self.derived(storage)
                } else {
                    Euclid { storage, num_step: share_of(value, self.num_beat), ..self }
                }
            },
            LatchLayer::Alt => {
                let storage = Storage {
                    shift_fader_saved: spec_array_update(
                        self.storage.shift_fader_saved,
                        chan,
                        value,
                    ),
                    ..self.storage
                };
                if chan == 0 {
                    Euclid { storage, rotation: share_of(value, self.num_beat), ..self }
                } else {
                    Euclid { storage, ..self }
                }
            },
            LatchLayer::Third => if chan == 0 {
                Euclid {
                    storage: Storage { div_saved: value, ..self.storage },
                    div: division_of(value as int),
                    ..self
                }
            } else {
                self
            },
        }
    }

    /// The state after a fader was moved.
    pub open spec fn fader_moved(self, chan: int, value: u16) -> Euclid {
        let latch = self.latch[chan];
        let target = self.fader_target(chan);
        let latched = Euclid {
            latch: spec_array_update(
                self.latch,
                chan,
                latch.updated(value, self.latch_layer, target),
            ),
            ..self
        };
        match latch.emits(value, self.latch_layer, target) {
            Some(new_value) => latched.edited(chan, new_value),
            None => latched,
        }
    }

    /// A fader that changes a value asks for it to be saved.
    pub open spec fn fader_actions(self, chan: int, value: u16) -> Seq<Action> {
        if self.latch[chan].emits(value, self.latch_layer, self.fader_target(chan)) is Some && (chan
            == 0 || self.latch_layer != LatchLayer::Third) {
            seq![Action::Save]
        } else {
            Seq::empty()
        }
    }

    fn edit(&mut self, chan: usize, value: u16)
        requires
            old(self).wf(),
            chan < 2,
            value <= 4095,
        ensures
            *final(self) == old(self).edited(chan as int, value),
            final(self).wf(),
    {
        match self.latch_layer {
            LatchLayer::Main => {
                let mut storage = self.storage;
                storage.fader_saved[chan] = value;
                if chan == 0 {
                    self.derive(storage);
                } else {
                    self.storage = storage;
                    self.num_step = find_share(value, self.num_beat);
                }
            },
            LatchLayer::Alt => {
                self.storage.shift_fader_saved[chan] = value;
                if chan == 0 {
                    self.rotation = find_share(value, self.num_beat);
                }
            },
            LatchLayer::Third => {
                if chan == 0 {
                    self.div = division_for(value);
                    self.storage.div_saved = value;
                }
            },
        }
    }

    /// A fader was moved.
    pub fn fut3(&mut self, chan: usize, value: u16) -> (r: Vec<Action>)
        requires
            old(self).wf(),
            chan < 2,
            value <= 4095,
        ensures
            *final(self) == old(self).fader_moved(chan as int, value),
            final(self).wf(),
            r@ == old(self).fader_actions(chan as int, value),
    {
        let mut actions: Vec<Action> = Vec::new();
        let layer = self.latch_layer;
        let target: u16 = match layer {
            LatchLayer::Main => self.storage.fader_saved[chan],
            LatchLayer::Alt => self.storage.shift_fader_saved[chan],
            LatchLayer::Third => {
                if chan == 0 {
                    self.storage.div_saved
                } else {
                    0
                }
            },
        };
        let mut latch = self.latch[chan];
        let emitted = latch.update(value, layer, target);
        self.latch[chan] = latch;
        if let Some(new_value) = emitted {
            self.edit(chan, new_value);
            if chan == 0 || layer != LatchLayer::Third {
                actions.push(Action::Save);
            }
        }
        actions
    }

    /// The state after a scene was loaded into the storage.
    pub open spec fn loaded(self, storage: Storage) -> Euclid {
        Euclid {
            muted: storage.mute_saved,
            div: division_of(storage.div_saved as int),
            ..self.derived(storage)
        }
    }

    /// A scene was loaded into the storage.
    pub fn load_scene(&mut self, storage: Storage)
        requires
            old(self).wf(),
            storage.wf(),
        ensures
            *final(self) == old(self).loaded(storage),
            final(self).wf(),
    {
        self.derive(storage);
        self.muted = storage.mute_saved;
        self.div = division_for(storage.div_saved);
    }

    /// What a look at the buttons sets off: the mute, or the mode of the second
    /// output.
    pub open spec fn layer_actions(self, layer: LatchLayer) -> Seq<Action> {
        match layer {
            LatchLayer::Main => seq![
                lit_or_not(
                    self.second(),
                    Led::Button,
                    !self.muted,
                    self.params.color,
                    Brightness::Mid,
                ),
            ],
            LatchLayer::Alt => seq![self.mode_led(self.storage.mode)],
            LatchLayer::Third => Seq::empty(),
        }
    }

    /// Follows the buttons, once per millisecond.
    pub fn shift(&mut self, shift: bool, button: bool) -> (r: Vec<Action>)
        requires
            old(self).wf(),
        ensures
            *final(self) == (Euclid { latch_layer: layer_of(shift, button), ..*old(self) }),
            final(self).wf(),
            r@ == old(self).layer_actions(layer_of(shift, button)),
    {
        let layer = layer_for(shift, button);
        self.latch_layer = layer;
        let mut actions: Vec<Action> = Vec::new();
        match layer {
            LatchLayer::Main => {
                actions.push(
                    light_or_not(
                        self.start_channel + 1,
                        Led::Button,
                        !self.muted,
                        self.params.color,
                        Brightness::Mid,
                    ),
                );
            },
            LatchLayer::Alt => {
                actions.push(self.show_mode());
            },
            LatchLayer::Third => {},
        }
        actions
    }

    /// Whether an event brings what the hardware can bring.
    pub open spec fn admits(event: Event) -> bool {
        match event {
            Event::Fader { chan, value } => chan < 2 && value <= 4095,
            Event::LoadScene(storage) => storage.wf(),
            _ => true,
        }
    }

    /// The state after an event.
    pub open spec fn after(self, event: Event, patterns: Seq<u32>) -> Euclid {
        match event {
            Event::Clock { event, ticks, roll } => self.clocked(event, ticks, roll, patterns),
            Event::Down { chan, shift } => self.pressed(chan as int, shift),
            Event::Fader { chan, value } => self.fader_moved(chan as int, value),
            Event::Layer { shift, button } => Euclid {
                latch_layer: layer_of(shift, button),
                ..self
            },
            Event::LoadScene(storage) => self.loaded(storage),
            Event::SaveScene(_) => self,
        }
    }

    /// What an event sets off.
    pub open spec fn does(self, event: Event, patterns: Seq<u32>) -> Seq<Action> {
        match event {
            Event::Clock { event, ticks, roll } => self.clock_actions(event, ticks, roll, patterns),
            Event::Down { chan, shift } => self.press_actions(chan as int, shift),
            Event::Fader { chan, value } => self.fader_actions(chan as int, value),
            Event::Layer { shift, button } => self.layer_actions(layer_of(shift, button)),
            Event::LoadScene(_) => Seq::empty(),
            Event::SaveScene(scene) => seq![Action::SaveScene(scene)],
        }
    }

    /// Handles an event. `patterns` is the table of Euclidean patterns.
    pub fn run(&mut self, event: Event, patterns: &[u32]) -> (r: Vec<Action>)
        requires
            old(self).wf(),
            Euclid::admits(event),
        ensures
            *final(self) == old(self).after(event, patterns@),
            final(self).wf(),
            r@ == old(self).does(event, patterns@),
    {
        match event {
            Event::Clock { event, ticks, roll } => self.fut1(event, ticks, roll, patterns),
            Event::Down { chan, shift } => self.fut2(chan, shift),
            Event::Fader { chan, value } => self.fut3(chan, value),
            Event::Layer { shift, button } => self.shift(shift, button),
            Event::LoadScene(storage) => {
                self.load_scene(storage);
                Vec::new()
            },
            Event::SaveScene(scene) => vec![Action::SaveScene(scene)],
        }
    }
}

/// Every gate that opens at a step is closed within that step.
pub proof fn law_gates_end_within_step(app: Euclid, step: int)
    requires
        app.wf(),
        step >= 0,
    ensures
        exists|clkn: int|
            step * app.div < clkn < (step + 1) * app.div && #[trigger] app.gates_end(clkn),
{
    let div = app.div as int;
    let end = part_of_division(div, app.params.gatel as int);
    let clkn = step * div + end;
    vstd::arithmetic::div_mod::lemma_fundamental_div_mod_converse(clkn, div, step, end);
    assert((step + 1) * div == step * div + div) by (nonlinear_arith);
    assert(app.gates_end(clkn));
}

/// While muted no note and no gate begins.
pub proof fn law_muted_begins_nothing(app: Euclid, clkn: int, roll: u16, patterns: Seq<u32>)
    requires
        app.muted,
    ensures
        app.stepped(clkn, roll, patterns) == app,
        !app.step_actions(clkn, roll, patterns).contains(app.gate(0, true)),
        !app.step_actions(clkn, roll, patterns).contains(app.gate(1, true)),
{
}

impl Euclid {
    /// Whether the steps, the beats and the rotation are those of the stored
    /// positions: one to sixteen steps, and the same share of them as beats and as
    /// rotation as the fader has of its travel, all rounded down.
    pub open spec fn follows_storage(self) -> bool {
        let steps = self.num_beat as int;
        let length = self.storage.fader_saved[0] as int;
        let beats = self.storage.fader_saved[1] as int;
        let turn = self.storage.shift_fader_saved[0] as int;
        &&& 4095 * (steps - 1) <= 15 * length < 4095 * steps
        &&& 4095 * self.num_step <= beats * steps < 4095 * self.num_step + 4095
        &&& 4095 * self.rotation <= turn * steps < 4095 * self.rotation + 4095
    }
}

proof fn lemma_shares(fader: u16, length: u8)
    requires
        fader <= 4095,
        length <= 16,
    ensures
        4095 * share_of(fader, length) <= fader * length < 4095 * share_of(fader, length) + 4095,
        4095 * (length_of(fader) - 1) <= 15 * fader < 4095 * length_of(fader),
        1 <= length_of(fader) <= 16,
{
    assert(0 <= fader * length <= 4095 * length) by (nonlinear_arith)
        requires
            0 <= fader <= 4095,
            0 <= length,
    ;
}

/// The pattern that is played is always that of the stored positions: it is when
/// the app starts, and every event keeps it so, a fader that was moved and a scene
/// that was loaded among them.
pub proof fn law_pattern_follows_storage(
    app: Euclid,
    event: Event,
    patterns: Seq<u32>,
    unit: App<2>,
    params: Params,
    storage: Storage,
    faders: [u16; 2],
    takeover: TakeoverMode,
    ticks: u64,
)
    requires
        app.wf(),
        Euclid::admits(event),
        storage.wf(),
    ensures
        Euclid::started(unit, params, storage, faders, takeover, ticks).follows_storage(),
        app.follows_storage() ==> app.after(event, patterns).follows_storage(),
        app.after(Event::LoadScene(storage), patterns).follows_storage(),
        app.after(Event::LoadScene(storage), patterns).storage == storage,
{
    lemma_shares(storage.fader_saved[0], 0);
    let steps = length_of(storage.fader_saved[0]);
    lemma_shares(storage.fader_saved[1], steps);
    lemma_shares(storage.shift_fader_saved[0], steps);
    match event {
        Event::Fader { chan, value } => {
            let target = app.fader_target(chan as int);
            match app.latch[chan as int].emits(value, app.latch_layer, target) {
                Some(new_value) => {
                    if new_value <= 4095 {
                        lemma_shares(new_value, 0);
                        let length = length_of(new_value);
                        lemma_shares(new_value, app.num_beat);
                        lemma_shares(app.storage.fader_saved[1], length);
                        lemma_shares(app.storage.shift_fader_saved[0], length);
                    }
                    assert(new_value <= 4095);
                },
                None => {},
            }
        },
        Event::LoadScene(loaded) => {
            lemma_shares(loaded.fader_saved[0], 0);
            let length = length_of(loaded.fader_saved[0]);
            lemma_shares(loaded.fader_saved[1], length);
            lemma_shares(loaded.shift_fader_saved[0], length);
        },
        _ => {},
    }
}

/// A fader that has a value to give stores it and asks for it to be saved: on the
/// main layer as the length or the beats, on the second one as the rotation or
/// the probability, and the first one on the third layer as the division, which
/// is followed at once. Nothing else is stored.
pub proof fn law_faders_store_their_values(
    app: Euclid,
    chan: usize,
    value: u16,
    patterns: Seq<u32>,
)
    requires
        app.wf(),
        chan < 2,
        value <= 4095,
        chan == 0 || app.latch_layer != LatchLayer::Third,
    ensures
        ({
            let at = chan as int;
            let target = match app.latch_layer {
                LatchLayer::Main => app.storage.fader_saved[at],
                LatchLayer::Alt => app.storage.shift_fader_saved[at],
                LatchLayer::Third => app.storage.div_saved,
            };
            let event = Event::Fader { chan, value };
            let before = app.storage;
            let after = app.after(event, patterns).storage;
            let emitted = app.latch[at].emits(value, app.latch_layer, target);
            &&& emitted is None ==> after == before && app.does(event, patterns).len() == 0
            &&& emitted matches Some(v) ==> {
                &&& app.does(event, patterns) == seq![Action::Save]
                &&& app.latch_layer == LatchLayer::Main ==> after.fader_saved[at] == v
                    && after.shift_fader_saved == before.shift_fader_saved && after.div_saved
                    == before.div_saved
                &&& app.latch_layer == LatchLayer::Alt ==> after.shift_fader_saved[at] == v
                    && after.fader_saved == before.fader_saved && after.div_saved
                    == before.div_saved
                &&& app.latch_layer == LatchLayer::Third ==> after.div_saved == v
                    && after.fader_saved == before.fader_saved && after.shift_fader_saved
                    == before.shift_fader_saved && app.after(event, patterns).div == division_of(
                    v as int,
                )
            }
            &&& after.fader_saved[1 - at] == before.fader_saved[1 - at]
            &&& after.shift_fader_saved[1 - at] == before.shift_fader_saved[1 - at]
            &&& after.mute_saved == before.mute_saved && after.mode == before.mode
            &&& app.after(event, patterns).latch[at] == app.latch[at].updated(
                value,
                app.latch_layer,
                target,
            )
            &&& app.after(event, patterns).latch[1 - at] == app.latch[1 - at]
        }),
{
}

/// Without rotation, the steps with a beat are the bits, from the lowest on, of
/// the table's entry for the steps and the beats, in a row of 33 per number of
/// steps from two on; more beats than steps count as all steps.
pub proof fn law_beats_come_from_table(
    patterns: Seq<u32>,
    num_steps: u8,
    num_beats: u8,
    clock: int,
)
    requires
        2 <= num_steps <= 16,
        patterns.len() >= 15 * 33,
        0 <= clock,
    ensures
        ({
            let beats = if num_beats > num_steps {
                num_steps
            } else {
                num_beats
            };
            let entry = patterns[33 * (num_steps - 2) + beats];
            beats_at(patterns, num_steps, num_beats, 0, clock) == ((entry >> ((clock
                % num_steps as int) as u32)) % 2 == 1)
        }),
{
    let beats = if num_beats > num_steps {
        num_steps
    } else {
        num_beats
    };
    let index = pattern_index(num_steps, num_beats);
    assert(index == 33 * (num_steps - 2) + beats);
    let entry = patterns[index];
    let pos = (clock % num_steps as int) as u8;
    let at = (clock % num_steps as int) as u32;
    assert(pos == at && at < 32);
    assert((entry & (1u32 << pos) != 0) == ((entry >> at) % 2 == 1)) by (bit_vector)
        requires
            pos == at,
            at < 32,
    ;
}

/// A step begins at every tick that is a whole number of divisions after the
/// origin, and the step that begins there is that number; a reset makes its tick
/// the origin. Where the app is not muted, the step opens the first output and
/// starts its note exactly where the pattern has a beat, by the steps, beats and
/// rotation, and the roll of the die is within the probability. A roll counts as
/// at least 100 and at most 3900, so probabilities from there on always play and
/// those below 100 never do.
pub proof fn law_steps_play_beats(
    app: Euclid,
    ticks: u64,
    roll: u16,
    patterns: Seq<u32>,
    step: int,
)
    requires
        app.wf(),
        !app.muted,
        !app.note_on,
        0 <= step,
        ticks < 0x1_0000_0000,
        ticks == app.tick_origin + step * app.div,
    ensures
        ({
            let event = Event::Clock { event: ClockEvent::Tick, ticks, roll };
            let after = app.after(event, patterns);
            let actions = app.does(event, patterns);
            let beat = beats_at(patterns, app.num_beat, app.num_step, app.rotation, step);
            let chance = app.storage.shift_fader_saved[1];
            let start = app.midi().note_on(app.params.note, 4095);
            let open = Action::Gate { channel: app.start_channel, high: true };
            &&& !beat || chance < 100 ==> !after.note_on && !actions.contains(open)
            &&& beat && chance >= 3900 ==> after.note_on
            &&& beat && 100 <= chance < 3900 && 100 <= roll <= 3900 ==> after.note_on == (chance
                >= roll)
            &&& after.note_on ==> actions[0] == start && actions[1] == open
            &&& !after.note_on ==> !actions.contains(open)
        }),
        app.after(Event::Clock { event: ClockEvent::Reset, ticks, roll }, patterns).tick_origin
            == ticks,
{
    let div = app.div as int;
    let clkn = step * div;
    assert(clkn >= 0) by (nonlinear_arith)
        requires
            clkn == step * div,
            step >= 0,
            div > 0,
    ;
    assert(app.clkn(ticks) == clkn);
    vstd::arithmetic::div_mod::lemma_fundamental_div_mod_converse(clkn, div, step, 0);
    assert(app.begins(clkn));
    assert(clkn / div == step);
}

/// In its first mode the second output marks the first step of the pattern; in
/// its other mode it takes the steps without a note. Its note starts with it.
pub proof fn law_second_output_complements(
    app: Euclid,
    ticks: u64,
    roll: u16,
    patterns: Seq<u32>,
    step: int,
)
    requires
        app.wf(),
        !app.muted,
        !app.note_on,
        !app.aux_on,
        0 <= step,
        ticks < 0x1_0000_0000,
        ticks == app.tick_origin + step * app.div,
    ensures
        ({
            let event = Event::Clock { event: ClockEvent::Tick, ticks, roll };
            let after = app.after(event, patterns);
            let actions = app.does(event, patterns);
            let start = app.midi().note_on(app.params.note2, 4095);
            let open = Action::Gate { channel: (app.start_channel + 1) as usize, high: true };
            let at: int = if after.note_on {
                2
            } else {
                0
            };
            &&& app.storage.mode ==> after.aux_on == (step % app.num_beat as int == 0)
            &&& !app.storage.mode ==> after.aux_on == !after.note_on
            &&& after.aux_on ==> actions[at] == open && actions[at + 1] == start
            &&& !after.aux_on ==> !actions.contains(open)
        }),
{
    let div = app.div as int;
    let clkn = step * div;
    assert(clkn >= 0) by (nonlinear_arith)
        requires
            clkn == step * div,
            step >= 0,
            div > 0,
    ;
    assert(app.clkn(ticks) == clkn);
    vstd::arithmetic::div_mod::lemma_fundamental_div_mod_converse(clkn, div, step, 0);
}

/// Between the steps nothing begins. The gates and notes that are open end at the
/// tick that is a gate length, in hundredths, into the step, at least one tick
/// and less than the step; at no other tick does one end.
pub proof fn law_gates_end_by_length(
    app: Euclid,
    ticks: u64,
    roll: u16,
    patterns: Seq<u32>,
    step: int,
    into: int,
)
    requires
        app.wf(),
        0 <= step,
        0 < into < app.div,
        ticks < 0x1_0000_0000,
        ticks == app.tick_origin + step * app.div + into,
    ensures
        ({
            let event = Event::Clock { event: ClockEvent::Tick, ticks, roll };
            let after = app.after(event, patterns);
            let actions = app.does(event, patterns);
            let length = app.div * app.params.gatel;
            let ends = (100 * into <= length < 100 * into + 100) || (into == 1 && length < 100) || (
            into == app.div - 1 && length >= 100 * into);
            &&& after == (if ends {
                Euclid { note_on: false, aux_on: false, ..app }
            } else {
                app
            })
            &&& ends && app.note_on ==> actions[0] == app.midi().note_off(app.params.note)
                && actions[1] == (Action::Gate { channel: app.start_channel, high: false })
            &&& ends && app.aux_on ==> actions.contains(app.midi().note_off(app.params.note2))
                && actions.contains(
                Action::Gate { channel: (app.start_channel + 1) as usize, high: false },
            )
            &&& forall|i: int|
                0 <= i < actions.len() && #[trigger] actions[i] is Gate ==> ends
                    && !actions[i]->high
        }),
{
    let div = app.div as int;
    let clkn = step * div + into;
    assert(step * div >= 0) by (nonlinear_arith)
        requires
            step >= 0,
            div > 0,
    ;
    assert(app.clkn(ticks) == clkn);
    vstd::arithmetic::div_mod::lemma_fundamental_div_mod_converse(clkn, div, step, into);
    assert(0 <= div * app.params.gatel) by (nonlinear_arith)
        requires
            0 <= div,
            0 <= app.params.gatel,
    ;
    let event = Event::Clock { event: ClockEvent::Tick, ticks, roll };
    let actions = app.does(event, patterns);
    if app.gates_end(clkn) && app.aux_on {
        let at: int = if app.note_on {
            2
        } else {
            0
        };
        assert(actions[at] == app.midi().note_off(app.params.note2));
        assert(actions[at + 1] == app.gate(1, false));
    }
}

/// A stop and a reset end both notes and both gates.
pub proof fn law_stop_silences(app: Euclid, ticks: u64, roll: u16, patterns: Seq<u32>, reset: bool)
    requires
        app.wf(),
    ensures
        ({
            let event = Event::Clock {
                event: if reset {
                    ClockEvent::Reset
                } else {
                    ClockEvent::Stop
                },
                ticks,
                roll,
            };
            let after = app.after(event, patterns);
            let actions = app.does(event, patterns);
            &&& !after.note_on && !after.aux_on
            &&& after.storage == app.storage && after.muted == app.muted
            &&& actions.len() == 4
            &&& actions[0] == app.midi().note_off(app.params.note)
            &&& actions[1] == app.midi().note_off(app.params.note2)
            &&& actions[2] == (Action::Gate { channel: app.start_channel, high: false })
            &&& actions[3] == (Action::Gate {
                channel: (app.start_channel + 1) as usize,
                high: false,
            })
        }),
{
}

/// The second button toggles the mute, which is stored, and closes the first
/// output; with shift it toggles the mode of the second output. The other button
/// does nothing. While muted no step begins anything.
pub proof fn law_buttons_toggle(
    app: Euclid,
    chan: usize,
    shift: bool,
    ticks: u64,
    roll: u16,
    patterns: Seq<u32>,
)
    requires
        app.wf(),
    ensures
        ({
            let event = Event::Down { chan, shift };
            let after = app.after(event, patterns);
            let actions = app.does(event, patterns);
            &&& chan == 1 && !shift ==> after.muted == !app.muted && after.storage.mute_saved
                == after.muted && after.storage.mode == app.storage.mode
            &&& chan == 1 && shift ==> after.storage.mode == !app.storage.mode && after.muted
                == app.muted && after.storage.mute_saved == app.storage.mute_saved
            &&& chan == 1 ==> actions[0] == Action::Save
            &&& chan == 1 && !shift && !app.muted ==> actions[1] == (Action::Gate {
                channel: app.start_channel,
                high: false,
            })
            &&& chan != 1 ==> after == app && actions.len() == 0
        }),
        ({
            let event = Event::Clock { event: ClockEvent::Tick, ticks, roll };
            let actions = app.does(event, patterns);
            app.muted ==> !(app.after(event, patterns).note_on && !app.note_on) && !(app.after(
                event,
                patterns,
            ).aux_on && !app.aux_on) && forall|i: int|
                0 <= i < actions.len() && #[trigger] actions[i] is Gate ==> !actions[i]->high
        }),
{
}

/// Shift selects the second layer of the faders and the held button the third.
pub proof fn law_layers_are_selected(app: Euclid, patterns: Seq<u32>)
    ensures
        app.after(Event::Layer { shift: false, button: false }, patterns).latch_layer
            == LatchLayer::Main,
        app.after(Event::Layer { shift: true, button: false }, patterns).latch_layer
            == LatchLayer::Alt,
        app.after(Event::Layer { shift: false, button: true }, patterns).latch_layer
            == LatchLayer::Third,
{
}

/// A scene brings its mute and its division.
pub proof fn law_scenes_bring_division(app: Euclid, storage: Storage, patterns: Seq<u32>)
    requires
        storage.wf(),
    ensures
        app.after(Event::LoadScene(storage), patterns).muted == storage.mute_saved,
        app.after(Event::LoadScene(storage), patterns).div == division_of(storage.div_saved as int),
{
}

/// On the main layer the upper LEDs are lit while their outputs are open; with shift
/// they show what the faders have stored, in red.
pub proof fn law_gates_are_shown(app: Euclid)
    requires
        app.wf(),
    ensures
        ({
            let shown = app.leds();
            let first = app.start_channel;
            let second = (app.start_channel + 1) as usize;
            let color = app.params.color;
            let saved = app.storage.shift_fader_saved;
            match app.latch_layer {
                LatchLayer::Main => shown == seq![
                    led_set(
                        first,
                        Led::Top,
                        color,
                        if app.note_on {
                            Brightness::High
                        } else {
                            Brightness::Off
                        },
                    ),
                    led_set(
                        second,
                        Led::Top,
                        color,
                        if app.aux_on {
                            Brightness::High
                        } else {
                            Brightness::Off
                        },
                    ),
                ],
                LatchLayer::Alt => shown == seq![
                    led_set(
                        first,
                        Led::Top,
                        Color::Red,
                        Brightness::Custom(level_byte(saved[0] as int)),
                    ),
                    led_set(
                        second,
                        Led::Top,
                        Color::Red,
                        Brightness::Custom(level_byte(saved[1] as int)),
                    ),
                ],
                LatchLayer::Third => shown.len() == 0,
            }
        }),
{
}

/// Every tick shows the outputs as they are after it. While the division is edited a
/// step lights the lower LED, in orange for the divisions by 2, 4, 8 and 16 and in
/// blue for the others; the end of the gates puts it out.
pub proof fn law_steps_are_shown(app: Euclid, clkn: int, roll: u16, patterns: Seq<u32>)
    requires
        app.wf(),
    ensures
        ({
            let actions = app.tick_actions(clkn, roll, patterns);
            let shown = app.ticked(clkn, roll, patterns).leds();
            let halves = app.div == 2 || app.div == 4 || app.div == 8 || app.div == 16;
            let at = actions.len() - shown.len();
            &&& actions.skip(at as int) == shown
            &&& app.begins(clkn) && app.latch_layer == LatchLayer::Third ==> actions[at - 1]
                == led_set(
                app.start_channel,
                Led::Bottom,
                if halves {
                    Color::Orange
                } else {
                    Color::Blue
                },
                Brightness::High,
            )
            &&& !app.begins(clkn) && app.gates_end(clkn) ==> actions[at - 1] == led_set(
                app.start_channel,
                Led::Bottom,
                app.params.color,
                Brightness::Off,
            )
            &&& !app.begins(clkn) && !app.gates_end(clkn) ==> actions == shown
        }),
{
}

/// The second button shows the mute, and with shift the mode, dimmer where the
/// outputs are marked by the pattern's start.
pub proof fn law_second_button_is_shown(app: Euclid)
    requires
        app.wf(),
    ensures
        ({
            let second = (app.start_channel + 1) as usize;
            let color = app.params.color;
            &&& app.layer_actions(LatchLayer::Main) == seq![
                if app.muted {
                    crate::app::led_unset(second, Led::Button)
                } else {
                    led_set(second, Led::Button, color, Brightness::Mid)
                },
            ]
            &&& app.layer_actions(LatchLayer::Alt) == seq![
                led_set(
                    second,
                    Led::Button,
                    color,
                    if app.storage.mode {
                        Brightness::Low
                    } else {
                        Brightness::High
                    },
                ),
            ]
            &&& app.layer_actions(LatchLayer::Third).len() == 0
            &&& app.press_actions(1, true) == seq![
                Action::Save,
                led_set(
                    second,
                    Led::Button,
                    color,
                    if app.storage.mode {
                        Brightness::High
                    } else {
                        Brightness::Low
                    },
                ),
            ]
            &&& app.muted ==> app.press_actions(1, false) == seq![
                Action::Save,
                led_set(second, Led::Button, color, Brightness::Mid),
            ]
            &&& !app.muted ==> app.press_actions(1, false)[1] == (Action::Gate {
                channel: app.start_channel,
                high: false,
            }) && app.press_actions(1, false).len() == 5 && app.press_actions(1, false)[4]
                == crate::app::led_unset(second, Led::Button)
        }),
{
}

/// The app starts on what is stored, silent and muted as it is stored, its pattern
/// by the stored faders and its steps counted from where the clock is.
pub proof fn law_starts_on_storage(
    app: App<2>,
    params: Params,
    storage: Storage,
    faders: [u16; 2],
    takeover: TakeoverMode,
    ticks: u64,
)
    requires
        storage.wf(),
        ticks < 0x1_0000_0000,
    ensures
        ({
            let s = Euclid::started(app, params, storage, faders, takeover, ticks);
            &&& s.start_channel == app.start_channel && s.params == params && s.storage == storage
            &&& s.latch_layer == LatchLayer::Main
            &&& s.latch[0] == AnalogLatch::initial(faders[0], 25, takeover)
            &&& s.latch[1] == AnalogLatch::initial(faders[1], 25, takeover)
            &&& s.muted == storage.mute_saved
            &&& s.follows_storage()
            &&& !s.note_on && !s.aux_on && s.div == 6
            &&& s.tick_origin == ticks
        }),
{
    lemma_shares(storage.fader_saved[0], 0);
    let steps = length_of(storage.fader_saved[0]);
    lemma_shares(storage.fader_saved[1], steps);
    lemma_shares(storage.shift_fader_saved[0], steps);
}

/// The parameters of a fresh app, and what it has in its storage.
pub proof fn law_fresh_app(r: Storage)
    requires
        call_ensures(Storage::default, (), r),
    ensures
        ({
            let p = initial_params();
            &&& p.midi_channel == MidiChannel(1)
            &&& p.midi_out == (MidiOut { usb: true, out1: true, out2: true })
            &&& p.note == MidiNote(32)
            &&& p.note2 == MidiNote(33)
            &&& p.gatel == 50
            &&& p.color == Color::Orange
        }),
        r.fader_saved@ == seq![2000u16, 2000],
        r.shift_fader_saved@ == seq![0u16, 4095],
        r.div_saved == 3000,
        !r.mute_saved,
        r.mode,
{
}

} // verus!
