//! TB-3PO: a generator of acid patterns, with pitch, gate and accent outputs.
use vstd::prelude::*;
use vstd::array::spec_array_update;

use crate::app::{
    led_set, led_unset, Action, App, GateJack, Leds, MidiOutput, OutJack, PortMode, Quantized,
    Quantizer,
};
use crate::latch::{AnalogLatch, LatchLayer, TakeoverMode};
use crate::storage::{values_new, values_push, AppParams, AppStorage, ManagedStorage, ParamStore};
use crate::tasks::leds::Led;
use crate::types::{
    Brightness, ClockEvent, Color, MidiChannel, MidiNote, MidiOut, ParamValue, Range, Value,
};

verus! {

pub const CHANNELS: usize = 3;

pub const PARAMS: usize = 3;

/// The steps of a pattern.
pub const MAX_STEPS: usize = 32;

/// A semitone, where ten octaves span the 12-bit range.
pub const SEMITONE_COUNTS: i32 = 34;

/// The middle of the range of -5 to 5 V.
pub const CENTER_CV: u16 = 2048;

/// An octave.
pub const OCTAVE_COUNTS: i32 = 410;

/// The parameters of the app.
#[derive(Clone, Copy, Debug, PartialEq, Eq, Structural)]
pub struct Params {
    pub midi_channel: MidiChannel,
    pub midi_out: MidiOut,
    pub color: Color,
}

impl AppParams for Params {
    open spec fn read(values: Seq<Value>) -> Option<Self> {
        if values.len() < 3 {
            None
        } else {
            Some(
                Params {
                    midi_channel: MidiChannel::reads(values[0]),
                    midi_out: MidiOut::reads(values[1]),
                    color: Color::reads(values[2]),
                },
            )
        }
    }

    open spec fn listing(self) -> Seq<Value> {
        seq![
            self.midi_channel.stored(),
            self.midi_out.stored(),
            self.color.stored(),
        ]
    }

    fn from_values(values: &[Value]) -> (r: Option<Self>) {
        if values.len() < PARAMS {
            return None;
        }
        Some(
            Params {
                midi_channel: MidiChannel::from_value(values[0]),
                midi_out: MidiOut::from_value(values[1]),
                color: Color::from_value(values[2]),
            },
        )
    }

    fn to_values(&self) -> (r: heapless::Vec<Value, 16>) {
        let mut vec = values_new();
        let _ = values_push(&mut vec, self.midi_channel.into_value());
        let _ = values_push(&mut vec, self.midi_out.into_value());
        let _ = values_push(&mut vec, self.color.into_value());
        vec
    }

    proof fn law_params_round_trip(self) {
    }
}

impl Default for Params {
    fn default() -> (r: Self)
        ensures
            r == initial_params(),
    {
        Params {
            midi_channel: MidiChannel::default(),
            midi_out: MidiOut::default(),
            color: Color::Orange,
        }
    }
}

/// What the app keeps. Faders are 12-bit positions.
#[derive(Clone, Copy, Debug, PartialEq, Eq, Structural)]
pub struct Storage {
    pub seed: u16,
    pub density_fader: u16,
    pub length_fader: u16,
    pub transpose_fader: u16,
    pub res_saved: u16,
    pub lock_seed: bool,
    pub hold_pitch: bool,
    pub no_slides: bool,
}

impl Default for Storage {
    /// Medium density, about 16 steps, no transposition, sixteenth notes.
    fn default() -> (r: Self)
        ensures
            r == (Storage {
                seed: 0xABCD,
                density_fader: 2048,
                length_fader: 1920,
                transpose_fader: 2048,
                res_saved: 2048,
                lock_seed: false,
                hold_pitch: true,
                no_slides: false,
            }),
            r.wf(),
    {
        Storage {
            seed: 0xABCD,
            density_fader: 2048,
            length_fader: 1920,
            transpose_fader: 2048,
            res_saved: 2048,
            lock_seed: false,
            hold_pitch: true,
            no_slides: false,
        }
    }
}

impl AppStorage for Storage {

}

impl Storage {
    /// Whether the faders are 12-bit positions.
    pub open spec fn wf(self) -> bool {
        &&& self.density_fader <= 4095
        &&& self.length_fader <= 4095
        &&& self.transpose_fader <= 4095
        &&& self.res_saved <= 4095
    }

    /// How dense the pattern is, 0 to 14.
    pub open spec fn density(self) -> u8 {
        (self.density_fader * 14 / 4095) as u8
    }

    /// The steps that are played, 1 to 32.
    pub open spec fn steps(self) -> int {
        self.length_fader * 31 / 4095 + 1
    }

    /// The transposition in semitones, -24 to 24.
    pub open spec fn transpose(self) -> int {
        self.transpose_fader * 48 / 4095 - 24
    }

    fn get_density(&self) -> (r: u8)
        requires
            self.wf(),
        ensures
            r == self.density(),
            r <= 14,
    {
        (self.density_fader as u32 * 14 / 4095) as u8
    }

    fn get_steps(&self) -> (r: usize)
        requires
            self.wf(),
        ensures
            r == self.steps(),
            1 <= r <= 32,
    {
        (self.length_fader as u32 * 31 / 4095 + 1) as usize
    }

    fn get_transpose(&self) -> (r: i16)
        requires
            self.wf(),
        ensures
            r == self.transpose(),
            -24 <= r <= 24,
    {
        (self.transpose_fader as i32 * 48 / 4095 - 24) as i16
    }
}

/// The parameters that the app starts with.
pub open spec fn initial_params() -> Params {
    Params {
        midi_channel: MidiChannel(1),
        midi_out: (MidiOut { usb: true, out1: true, out2: true }),
        color: Color::Orange,
    }
}

/// The parameters and the storage of the app, before anything was loaded.
pub fn wrapper(app: App<3>) -> (r: (ParamStore<Params>, ManagedStorage<Storage>))
    ensures
        r.0 == (ParamStore {
            app_id: app.app_id,
            inner: initial_params(),
            layout_id: app.layout_id,
        }),
        r.1.app_id == app.app_id,
        r.1.layout_id == app.layout_id,
        call_ensures(Storage::default, (), r.1.inner),
{
    (
        ParamStore::new(
            app.app_id,
            app.layout_id,
            Params {
                midi_channel: MidiChannel::default(),
                midi_out: MidiOut::default(),
                color: Color::Orange,
            },
        ),
        ManagedStorage::new(app.app_id, app.layout_id),
    )
}

// ---------------------------------------------------------------------------
// Random numbers
// ---------------------------------------------------------------------------

/// The state after the next random number, which is that number.
pub open spec fn xorshifted(state: u32) -> u32 {
    let a = state ^ (state << 13);
    let b = a ^ (a >> 17);
    b ^ (b << 5)
}

/// The next random number.
pub fn xorshift32(state: &mut u32) -> (r: u32)
    ensures
        r == xorshifted(*old(state)),
        *final(state) == r,
{
    *state = *state ^ (*state << 13);
    *state = *state ^ (*state >> 17);
    *state = *state ^ (*state << 5);
    *state
}

/// A random number below `max`. Without room no number is drawn.
pub fn rand_below(state: &mut u32, max: u32) -> (r: u32)
    ensures
        max == 0 ==> r == 0 && *final(state) == *old(state),
        max > 0 ==> r == xorshifted(*old(state)) % max && *final(state) == xorshifted(*old(state)),
{
    if max == 0 {
        return 0;
    }
    xorshift32(state) % max
}

/// Whether a chance of `prob_pct` in a hundred comes true.
pub open spec fn chance(state: u32, prob_pct: u32) -> bool {
    xorshifted(state) % 100 < prob_pct
}

/// Whether a chance of `prob_pct` in a hundred comes true.
pub fn rand_bit(state: &mut u32, prob_pct: u32) -> (r: bool)
    ensures
        r == chance(*old(state), prob_pct),
        *final(state) == xorshifted(*old(state)),
{
    rand_below(state, 100) < prob_pct
}

/// The random numbers never get stuck at zero.
pub proof fn law_xorshift_stays_alive(state: u32)
    requires
        state != 0,
    ensures
        xorshifted(state) != 0,
{
    assert(state != 0 ==> ({
        let a = state ^ (state << 13);
        let b = a ^ (a >> 17);
        b ^ (b << 5)
    }) != 0) by (bit_vector);
}

// ---------------------------------------------------------------------------
// Patterns
// ---------------------------------------------------------------------------

/// A pattern: per step a gate, a slide, an accent and an octave up or down, each
/// a bit, and a pitch.
#[derive(Clone, Copy)]
pub struct AcidPattern {
    pub gates: u32,
    pub slides: u32,
    pub accents: u32,
    pub oct_ups: u32,
    pub oct_downs: u32,
    pub notes: [u8; 32],
}

impl Default for AcidPattern {
    fn default() -> (r: Self)
        ensures
            r.gates == 0,
            r.slides == 0,
            r.accents == 0,
            r.oct_ups == 0,
            r.oct_downs == 0,
            r.notes@ == Seq::new(32, |i: int| 0u8),
    {
        AcidPattern {
            gates: 0,
            slides: 0,
            accents: 0,
            oct_ups: 0,
            oct_downs: 0,
            notes: [0; 32],
        }
    }
}

/// A density above 14 counts as 14.
pub open spec fn density_limited(density: u8) -> int {
    if density < 14 {
        density as int
    } else {
        14
    }
}

/// The variety of pitches, 0 to 8.
pub open spec fn variety(density: u8) -> int {
    if density_limited(density) < 8 {
        density_limited(density)
    } else {
        8
    }
}

/// The number of pitches besides the lowest.
pub open spec fn pitches_available(variety: int) -> int {
    if variety <= 1 {
        variety
    } else {
        variety - 1
    }
}

/// The chance in a hundred that a step is gated: the lower and the higher the
/// density, the more gates.
pub open spec fn gate_chance(density: u8) -> int {
    let d = density_limited(density);
    10 + (if d >= 7 {
        d - 7
    } else {
        7 - d
    }) * 14
}

/// A seed for the random numbers, which is never zero.
pub open spec fn rng_seed(seed: u16, offset: int) -> u32 {
    (seed + offset) as u32
}

/// The pitches as they are drawn, step by step.
pub struct Pitches {
    pub rng: u32,
    pub notes: Seq<u8>,
    pub oct_ups: u32,
    pub oct_downs: u32,
}

impl Pitches {
    /// One more step: the last pitch again, or a new one, which may be an octave
    /// up or down. Octaves are kept per new pitch.
    pub open spec fn next(self, variety: int) -> Pitches {
        let s = self.notes.len() as int;
        let drawn = xorshifted(self.rng);
        if s > 0 && chance(self.rng, (50 - variety * 6) as u32) {
            Pitches { rng: drawn, notes: self.notes.push(self.notes[s - 1]), ..self }
        } else {
            let before = if s > 0 {
                drawn
            } else {
                self.rng
            };
            let pitch = xorshifted(before);
            let coin = xorshifted(pitch);
            let flip = coin % 200;
            Pitches {
                rng: coin,
                notes: self.notes.push((pitch as int % (pitches_available(variety) + 1)) as u8),
                oct_ups: if flip < 80 && flip % 2 == 1 {
                    (self.oct_ups << 1) | 1
                } else {
                    self.oct_ups << 1
                },
                oct_downs: if flip < 80 && flip % 2 == 0 {
                    (self.oct_downs << 1) | 1
                } else {
                    self.oct_downs << 1
                },
            }
        }
    }
}

/// The pitches of the first `n` steps.
pub open spec fn pitches(seed: u16, variety: int, n: int) -> Pitches
    decreases n,
{
    if n <= 0 {
        Pitches { rng: rng_seed(seed, 1), notes: Seq::empty(), oct_ups: 0, oct_downs: 0 }
    } else {
        pitches(seed, variety, n - 1).next(variety)
    }
}

/// The gates, slides and accents as they are drawn, step by step.
#[derive(Clone, Copy)]
pub struct Rhythm {
    pub rng: u32,
    pub gates: u32,
    pub slides: u32,
    pub accents: u32,
    pub latest_slide: bool,
    pub latest_accent: bool,
}

/// A field of bits with one more bit at its low end.
pub open spec fn with_bit(bits: u32, bit: bool) -> u32 {
    (bits << 1) | (if bit {
        1u32
    } else {
        0u32
    })
}

impl Rhythm {
    /// One more step. A slide or an accent is less likely after another one.
    pub open spec fn next(self, gate_chance: int) -> Rhythm {
        let first = xorshifted(self.rng);
        let second = xorshifted(first);
        let third = xorshifted(second);
        let gate = chance(self.rng, gate_chance as u32);
        let slide = chance(
            first,
            if self.latest_slide {
                10
            } else {
                18
            },
        );
        let accent = chance(
            second,
            if self.latest_accent {
                7
            } else {
                16
            },
        );
        Rhythm {
            rng: third,
            gates: with_bit(self.gates, gate),
            slides: with_bit(self.slides, slide),
            accents: with_bit(self.accents, accent),
            latest_slide: slide,
            latest_accent: accent,
        }
    }
}

/// The gates, slides and accents of the first `n` steps.
pub open spec fn rhythm(seed: u16, gate_chance: int, n: int) -> Rhythm
    decreases n,
{
    if n <= 0 {
        Rhythm {
            rng: rng_seed(seed, 2),
            gates: 0,
            slides: 0,
            accents: 0,
            latest_slide: false,
            latest_accent: false,
        }
    } else {
        rhythm(seed, gate_chance, n - 1).next(gate_chance)
    }
}

/// Whether a pattern is the one of a seed and a density.
pub open spec fn is_generated(pattern: AcidPattern, seed: u16, density: u8) -> bool {
    let tune = pitches(seed, variety(density), 32);
    let beat = rhythm(seed, gate_chance(density), 32);
    &&& pattern.gates == beat.gates
    &&& pattern.slides == beat.slides
    &&& pattern.accents == beat.accents
    &&& pattern.oct_ups == tune.oct_ups
    &&& pattern.oct_downs == tune.oct_downs
    &&& pattern.notes@ == tune.notes
}

fn append_bit(bits: u32, bit: bool) -> (r: u32)
    ensures
        r == with_bit(bits, bit),
{
    (bits << 1) | (if bit {
        1u32
    } else {
        0u32
    })
}

/// The pattern of a seed and a density.
pub fn generate_pattern(seed: u16, density: u8) -> (r: AcidPattern)
    ensures
        is_generated(r, seed, density),
        forall|i: int| 0 <= i < 32 ==> #[trigger] r.notes[i] <= 7,
{
    let limited: u8 = if density < 14 {
        density
    } else {
        14
    };
    let on_off_dens: u32 = if limited >= 7 {
        (limited - 7) as u32
    } else {
        (7 - limited) as u32
    };
    let pitch_change_dens: u32 = if limited < 8 {
        limited as u32
    } else {
        8
    };
    let available_pitches: u32 = if pitch_change_dens <= 1 {
        pitch_change_dens
    } else {
        pitch_change_dens - 1
    };
    let repeat_prob: u32 = 50 - pitch_change_dens * 6;
    let mut rng: u32 = seed as u32 + 1;
    let mut notes: [u8; 32] = [0u8; 32];
    let mut oct_ups: u32 = 0;
    let mut oct_downs: u32 = 0;
    let mut s: usize = 0;
    assert(notes@.take(0) =~= Seq::<u8>::empty());
    while s < MAX_STEPS
        invariant
            s <= MAX_STEPS,
            pitch_change_dens == variety(density),
            available_pitches == pitches_available(pitch_change_dens as int),
            available_pitches <= 7,
            repeat_prob == 50 - pitch_change_dens * 6,
            pitches(seed, pitch_change_dens as int, s as int) == (Pitches {
                rng,
                notes: notes@.take(s as int),
                oct_ups,
                oct_downs,
            }),
            forall|i: int| 0 <= i < s ==> #[trigger] notes[i] <= 7,
        decreases MAX_STEPS - s,
    {
        let ghost before = pitches(seed, pitch_change_dens as int, s as int);
        let ghost notes_before = notes@;
        if s > 0 && rand_bit(&mut rng, repeat_prob) {
            notes[s] = notes[s - 1];
        } else {
            notes[s] = rand_below(&mut rng, available_pitches + 1) as u8;
            let coinflip: u32 = rand_below(&mut rng, 200);
            oct_ups = oct_ups << 1;
            oct_downs = oct_downs << 1;
            if coinflip < 80 {
                if coinflip % 2 == 1 {
                    oct_ups = oct_ups | 1;
                } else {
                    oct_downs = oct_downs | 1;
                }
            }
        }
        assert(notes@.take(s + 1) =~= before.next(pitch_change_dens as int).notes);
        s = s + 1;
    }
    assert(notes@.take(32) =~= notes@);

    let dens_prob: u32 = 10 + on_off_dens * 14;
    let mut beat = Rhythm {
        rng: seed as u32 + 2,
        gates: 0,
        slides: 0,
        accents: 0,
        latest_slide: false,
        latest_accent: false,
    };
    let mut n: usize = 0;
    while n < MAX_STEPS
        invariant
            n <= MAX_STEPS,
            dens_prob == gate_chance(density),
            beat == rhythm(seed, dens_prob as int, n as int),
        decreases MAX_STEPS - n,
    {
        let mut rng: u32 = beat.rng;
        let gate = rand_bit(&mut rng, dens_prob);
        let new_slide = rand_bit(
            &mut rng,
            if beat.latest_slide {
                10
            } else {
                18
            },
        );
        let new_accent = rand_bit(
            &mut rng,
            if beat.latest_accent {
                7
            } else {
                16
            },
        );
        beat = Rhythm {
            rng,
            gates: append_bit(beat.gates, gate),
            slides: append_bit(beat.slides, new_slide),
            accents: append_bit(beat.accents, new_accent),
            latest_slide: new_slide,
            latest_accent: new_accent,
        };
        n = n + 1;
    }
    AcidPattern {
        gates: beat.gates,
        slides: beat.slides,
        accents: beat.accents,
        oct_ups,
        oct_downs,
        notes,
    }
}

/// A seed and a density always give the same pattern.
pub proof fn law_patterns_are_reproducible(
    a: AcidPattern,
    b: AcidPattern,
    seed: u16,
    density: u8,
)
    requires
        is_generated(a, seed, density),
        is_generated(b, seed, density),
    ensures
        a == b,
{
    assert(a.notes =~= b.notes) by {
        assert(a.notes@ == b.notes@);
    }
}

/// The density decides on the gates and the pitches alone: a seed gives the same
/// slides and accents at every density.
pub proof fn law_density_keeps_slides_and_accents(
    a: AcidPattern,
    b: AcidPattern,
    seed: u16,
    density_a: u8,
    density_b: u8,
)
    requires
        is_generated(a, seed, density_a),
        is_generated(b, seed, density_b),
    ensures
        a.slides == b.slides,
        a.accents == b.accents,
{
    lemma_rhythm_keeps_slides_and_accents(
        seed,
        gate_chance(density_a),
        gate_chance(density_b),
        32,
    );
}

proof fn lemma_rhythm_keeps_slides_and_accents(seed: u16, chance_a: int, chance_b: int, n: int)
    ensures
        ({
            let a = rhythm(seed, chance_a, n);
            let b = rhythm(seed, chance_b, n);
            &&& a.rng == b.rng
            &&& a.slides == b.slides
            &&& a.accents == b.accents
            &&& a.latest_slide == b.latest_slide
            &&& a.latest_accent == b.latest_accent
        }),
    decreases n,
{
    if n > 0 {
        lemma_rhythm_keeps_slides_and_accents(seed, chance_a, chance_b, n - 1);
    }
}

/// At both ends of the density every step is gated.
pub proof fn law_extreme_density_gates_all(pattern: AcidPattern, seed: u16, density: u8)
    requires
        is_generated(pattern, seed, density),
        density == 0 || density >= 14,
    ensures
        pattern.gates == u32::MAX,
{
    lemma_all_gates(seed, 32);
    let gates = pattern.gates;
    assert(gates as u64 == sub_one(1u64 << 32u64) ==> gates == 0xFFFF_FFFFu32) by (bit_vector);
}

spec fn sub_one(x: u64) -> u64 {
    (x - 1) as u64
}

proof fn lemma_all_gates(seed: u16, n: int)
    requires
        0 <= n <= 32,
    ensures
        rhythm(seed, 108, n).gates as u64 == sub_one(1u64 << (n as u64)),
    decreases n,
{
    if n == 0 {
        assert(sub_one(1u64 << 0u64) == 0) by (bit_vector);
    } else {
        lemma_all_gates(seed, n - 1);
        let gates = rhythm(seed, 108, n - 1).gates;
        let m = (n - 1) as u64;
        let next = (gates << 1) | 1u32;
        assert(m < 32 && gates as u64 == sub_one(1u64 << m) ==> ((gates << 1) | 1u32) as u64
            == sub_one(1u64 << add_one(m))) by (bit_vector);
        assert(add_one(m) == n as u64);
        assert(rhythm(seed, 108, n).gates == next);
    }
}

spec fn add_one(x: u64) -> u64 {
    (x + 1) as u64
}

/// A bit of a field.
pub open spec fn bit_at(bits: u32, step: u8) -> bool {
    (bits >> step) & 1 != 0
}

pub fn step_is_gated(p: &AcidPattern, step: u8) -> (r: bool)
    requires
        step < 32,
    ensures
        r == bit_at(p.gates, step),
{
    (p.gates >> step) & 1 != 0
}

pub fn step_is_slid(p: &AcidPattern, step: u8) -> (r: bool)
    requires
        step < 32,
    ensures
        r == bit_at(p.slides, step),
{
    (p.slides >> step) & 1 != 0
}

pub fn step_is_accent(p: &AcidPattern, step: u8) -> (r: bool)
    requires
        step < 32,
    ensures
        r == bit_at(p.accents, step),
{
    (p.accents >> step) & 1 != 0
}

pub fn step_is_oct_up(p: &AcidPattern, step: u8) -> (r: bool)
    requires
        step < 32,
    ensures
        r == bit_at(p.oct_ups, step),
{
    (p.oct_ups >> step) & 1 != 0
}

pub fn step_is_oct_down(p: &AcidPattern, step: u8) -> (r: bool)
    requires
        step < 32,
    ensures
        r == bit_at(p.oct_downs, step),
{
    (p.oct_downs >> step) & 1 != 0
}

/// The pitch of a step before quantizing, in counts of the range of -5 to 5 V.
pub open spec fn step_pitch(p: AcidPattern, step: u8, transpose: int) -> int {
    let pitch = 2048 + p.notes[step as int] * 34 + (if bit_at(p.oct_ups, step) {
        410
    } else if bit_at(p.oct_downs, step) {
        -410
    } else {
        0int
    }) + transpose * 34;
    crate::latch::clamp_12bit(pitch)
}

/// Raw pitch CV for a step before quantising (in counts of the range of -5 to 5 V, 0 to 4095).
pub fn raw_pitch_cv(p: &AcidPattern, step: u8, transpose: i16) -> (r: u16)
    requires
        step < 32,
    ensures
        r == step_pitch(*p, step, transpose as int),
        r <= 4095,
{
    let note: i32 = p.notes[step as usize] as i32;
    let octave: i32 = if step_is_oct_up(p, step) {
        OCTAVE_COUNTS
    } else if step_is_oct_down(p, step) {
        -OCTAVE_COUNTS
    } else {
        0
    };
    let cv: i32 = 2048 + note * 34 + octave + transpose as i32 * 34;
    if cv < 0 {
        0
    } else if cv > 4095 {
        4095
    } else {
        cv as u16
    }
}

// ---------------------------------------------------------------------------
// The app
// ---------------------------------------------------------------------------

/// The ticks of a step, by the eighth of the fader's travel.
pub open spec fn division_of(fader: u16) -> usize {
    seq![96usize, 48, 24, 12, 6, 4, 3, 2][fader as int / 512]
}

fn find_division(fader: u16) -> (r: usize)
    requires
        fader <= 4095,
    ensures
        r == division_of(fader),
        2 <= r <= 96,
{
    match fader / 512 {
        0 => 96,
        1 => 48,
        2 => 24,
        3 => 12,
        4 => 6,
        5 => 4,
        6 => 3,
        _ => 2,
    }
}

/// What an event brings.
pub enum Event {
    /// An event of the clock, at the given tick and time in microseconds, with
    /// the note that the step to be played is quantized to.
    Clock { event: ClockEvent, ticks: u64, now_us: u64, note: Quantized },
    /// A millisecond has gone by. `glide` is the pitch on its way to the target,
    /// and whether it has arrived there.
    Millisecond { glide: u16, reached: bool },
    /// A look at the buttons, once per millisecond.
    Layer { button: bool, shift: bool },
    /// A fader was moved to a value.
    Fader { chan: usize, value: u16 },
    /// A button was pressed.
    Down { chan: usize, shift: bool, ticks: u64 },
    /// A button was pressed for long.
    LongPress { chan: usize },
    /// The LEDs are due.
    Frame,
    /// A scene was loaded into the storage.
    LoadScene(Storage),
    /// A scene is to be saved.
    SaveScene(u8),
}

/// The running app.
pub struct Tb3po {
    pub start_channel: usize,
    pub params: Params,
    pub storage: Storage,
    pub step: u8,
    pub pattern: AcidPattern,
    pub slide_target: u16,
    pub slide_active: bool,
    pub gate_off_ms: u32,
    pub gate_active: bool,
    pub accent_active: bool,
    pub last_midi_note: MidiNote,
    pub regen_pending: bool,
    pub div: usize,
    pub latch_layer: LatchLayer,
    pub latches: [AnalogLatch; 3],
    pub last_tick_us: u64,
    pub cycle_ms: u32,
    pub prev_in_res: bool,
}

/// The pattern of a seed and a density.
pub open spec fn generated(seed: u16, density: u8) -> AcidPattern {
    choose|pattern: AcidPattern| is_generated(pattern, seed, density)
}

fn generate(seed: u16, density: u8) -> (r: AcidPattern)
    ensures
        r == generated(seed, density),
{
    let r = generate_pattern(seed, density);
    proof {
        law_patterns_are_reproducible(r, generated(seed, density), seed, density);
    }
    r
}

impl Tb3po {
    pub open spec fn wf(self) -> bool {
        &&& self.start_channel + 3 <= 16
        &&& self.storage.wf()
        &&& self.step < 32
        &&& 2 <= self.div <= 96
    }

    /// The MIDI port.
    pub open spec fn midi(self) -> MidiOutput {
        MidiOutput::port(self.start_channel, self.params.midi_out, self.params.midi_channel, false)
    }

    fn midi_port(&self) -> (r: MidiOutput)
        ensures
            r == self.midi(),
    {
        MidiOutput::new(
            self.params.midi_out,
            self.start_channel,
            self.params.midi_channel.to_wire(),
            false,
        )
    }

    /// Its gate.
    pub open spec fn gate(self, high: bool) -> Action {
        Action::Gate { channel: (self.start_channel + 1) as usize, high }
    }

    /// The accent output, of 0 to 5 V.
    pub open spec fn accent(self, value: u16) -> Action {
        Action::Dac { channel: (self.start_channel + 2) as usize, value: value / 2 }
    }

    /// The pitch output.
    pub open spec fn pitch(self, value: u16) -> Action {
        Action::Dac { channel: self.start_channel, value }
    }

    fn gate_out(&self) -> (r: GateJack)
        requires
            self.start_channel <= 13,
        ensures
            r.channel == self.start_channel + 1,
    {
        GateJack::new(self.start_channel + 1)
    }

    fn accent_out(&self) -> (r: OutJack)
        requires
            self.start_channel <= 13,
        ensures
            r.channel == self.start_channel + 2,
            r.range == Range::_0_5V,
    {
        OutJack::new(self.start_channel + 2, Range::_0_5V)
    }

    /// The state that the app starts with.
    pub open spec fn started(
        app: App<3>,
        params: Params,
        storage: Storage,
        faders: [u16; 3],
        takeover: TakeoverMode,
        now_us: u64,
    ) -> Tb3po {
        Tb3po {
            start_channel: app.start_channel,
            params,
            storage,
            step: 0,
            pattern: generated(storage.seed, storage.density()),
            slide_target: 2048,
            slide_active: false,
            gate_off_ms: 0,
            gate_active: false,
            accent_active: false,
            last_midi_note: MidiNote(0),
            regen_pending: false,
            div: division_of(storage.res_saved),
            latch_layer: LatchLayer::Main,
            latches: [
                AnalogLatch::initial(faders[0], 25, takeover),
                AnalogLatch::initial(faders[1], 25, takeover),
                AnalogLatch::initial(faders[2], 25, takeover),
            ],
            last_tick_us: now_us,
            cycle_ms: 500,
            prev_in_res: false,
        }
    }

    /// Starts the app on what is stored.
    pub fn new(
        app: App<3>,
        params: Params,
        storage: Storage,
        faders: [u16; 3],
        takeover: TakeoverMode,
        now_us: u64,
    ) -> (r: (Self, Vec<Action>))
        requires
            app.wf(),
            storage.wf(),
        ensures
            r.0 == Tb3po::started(app, params, storage, faders, takeover, now_us),
            r.0.wf(),
            r.1@ == seq![
                Action::Configure {
                    channel: app.start_channel,
                    mode: PortMode::Output { bipolar: true },
                    gpo_level: None,
                },
                Action::Configure {
                    channel: (app.start_channel + 1) as usize,
                    mode: PortMode::Gate,
                    gpo_level: Some(4095),
                },
                Action::Configure {
                    channel: (app.start_channel + 2) as usize,
                    mode: PortMode::Output { bipolar: false },
                    gpo_level: None,
                },
            ],
    {
        let state = Tb3po {
            start_channel: app.start_channel,
            params,
            storage,
            step: 0,
            pattern: generate(storage.seed, storage.get_density()),
            slide_target: CENTER_CV,
            slide_active: false,
            gate_off_ms: 0,
            gate_active: false,
            accent_active: false,
            last_midi_note: MidiNote::default(),
            regen_pending: false,
            div: find_division(storage.res_saved),
            latch_layer: LatchLayer::Main,
            latches: [
                app.make_latch(faders[0], takeover),
                app.make_latch(faders[1], takeover),
                app.make_latch(faders[2], takeover),
            ],
            last_tick_us: now_us,
            cycle_ms: 500,
            prev_in_res: false,
        };
        let actions = vec![
            app.make_out_jack(0, Range::_Neg5_5V).1,
            app.make_gate_jack(1, 4095).1,
            app.make_out_jack(2, Range::_0_5V).1,
        ];
        (state, actions)
    }

    /// The flash of the division while the first fader sets it: on at a step, off
    /// half a step later.
    pub open spec fn division_leds(self, clkn: int) -> Seq<Action> {
        let half = if self.div / 2 > 1 {
            self.div as int / 2
        } else {
            1
        };
        if self.latch_layer != LatchLayer::Third {
            Seq::empty()
        } else if clkn % self.div as int == 0 {
            seq![
                led_set(
                    self.start_channel,
                    Led::Bottom,
                    if self.div == 2 || self.div == 4 || self.div == 8 || self.div == 16 {
                        Color::Orange
                    } else {
                        Color::Blue
                    },
                    Brightness::High,
                ),
            ]
        } else if clkn % self.div as int == half {
            seq![led_unset(self.start_channel, Led::Bottom)]
        } else {
            Seq::empty()
        }
    }

    /// Whether a step begins at a tick.
    pub open spec fn begins(self, clkn: int) -> bool {
        clkn % self.div as int == 0
    }

    /// The step at a tick.
    #[verifier::opaque]
    pub open spec fn step_at(self, clkn: int) -> u8 {
        (clkn / self.div as int % self.storage.steps()) as u8
    }

    /// Whether the step before slides into the one at a tick. The first step
    /// after a reset has none before it.
    #[verifier::opaque]
    pub open spec fn slides_into(self, clkn: int) -> bool {
        let steps = self.storage.steps();
        &&& !self.storage.no_slides
        &&& clkn != 0
        &&& bit_at(self.pattern.slides, ((self.step_at(clkn) + steps - 1) % steps) as u8)
    }

    /// Whether the step at a tick is gated.
    pub open spec fn gated(self, clkn: int) -> bool {
        bit_at(self.pattern.gates, self.step_at(clkn))
    }

    /// Whether the step at a tick is accented.
    pub open spec fn accented(self, clkn: int) -> bool {
        bit_at(self.pattern.accents, self.step_at(clkn))
    }

    /// The time since the last step in milliseconds, or the one before it where it is
    /// less than one or not below 5000.
    pub open spec fn cycle(self, now_us: int) -> u32 {
        let delta = (now_us - self.last_tick_us) / 1000 % 0x1_0000_0000;
        if 0 < delta < 5000 {
            delta as u32
        } else {
            self.cycle_ms
        }
    }

    /// Whether the pitch of the step at a tick is looked up.
    pub open spec fn needs_note(self, clkn: int) -> bool {
        self.begins(clkn) && (self.slides_into(clkn) || !self.storage.hold_pitch || self.gated(
            clkn,
        ))
    }

    /// The state after the pitch of a step was taken: a step that is slid into
    /// slides, else it is taken at once, unless pitches are held and the step has
    /// no gate.
    pub open spec fn pitched(self, gated: bool, slid: bool, note: Quantized) -> Tb3po {
        if slid || !self.storage.hold_pitch || gated {
            Tb3po { slide_target: note.counts, slide_active: slid, ..self }
        } else {
            self
        }
    }

    /// The state with the place and the time of a step.
    pub open spec fn marked(self, clkn: int, now_us: int) -> Tb3po {
        Tb3po {
            step: self.step_at(clkn),
            last_tick_us: now_us as u64,
            cycle_ms: self.cycle(now_us),
            ..self
        }
    }

    /// The state after a note began. Its gate lasts half a step.
    pub open spec fn sounded(self, accent: bool, note: Quantized) -> Tb3po {
        Tb3po {
            accent_active: accent,
            last_midi_note: note.note,
            gate_active: true,
            gate_off_ms: self.cycle_ms / 2,
            ..self
        }
    }

    /// The state after a change of the density took effect.
    pub open spec fn regenerated(self) -> Tb3po {
        if self.regen_pending {
            Tb3po {
                pattern: generated(self.storage.seed, self.storage.density()),
                regen_pending: false,
                ..self
            }
        } else {
            self
        }
    }

    /// The state after a step began: its pitch is taken, and a step that is gated
    /// or slid into sounds. A change of the density takes effect after the step.
    pub open spec fn stepped(self, clkn: int, now_us: int, note: Quantized) -> Tb3po {
        let slid = self.slides_into(clkn);
        let gated = self.gated(clkn);
        let begun = self.marked(clkn, now_us).pitched(gated, slid, note);
        if gated || slid {
            begun.sounded(self.accented(clkn), note).regenerated()
        } else {
            begun.regenerated()
        }
    }

    /// The actions of a step that sounds: its note, its gate and its accent.
    pub open spec fn sounding(self, accent: bool, note: Quantized) -> Seq<Action> {
        seq![
            self.midi().note_off(self.last_midi_note),
            self.midi().note_on(
                note.note,
                if accent {
                    4095
                } else {
                    2048
                },
            ),
            self.gate(true),
            self.accent(
                if accent {
                    4095
                } else {
                    0
                },
            ),
        ]
    }

    /// What a step sets off: its note and its gate, where it is gated or slid into.
    pub open spec fn step_actions(self, clkn: int, note: Quantized) -> Seq<Action> {
        if self.gated(clkn) || self.slides_into(clkn) {
            self.sounding(self.accented(clkn), note)
        } else {
            Seq::empty()
        }
    }

    /// Its gate, the note and the accent ended.
    pub open spec fn silenced(self) -> Seq<Action> {
        seq![
            self.gate(false),
            self.midi().note_off(self.last_midi_note),
            self.accent(0),
        ]
    }

    /// The state with another seed, where the seed is not locked.
    pub open spec fn reseeded(self, ticks: u64) -> Tb3po {
        let storage = if self.storage.lock_seed {
            self.storage
        } else {
            Storage { seed: (ticks % 65536) as u16, ..self.storage }
        };
        Tb3po { storage, pattern: generated(storage.seed, storage.density()), ..self }
    }

    /// The state after an event of the clock. A reset brings a new pattern, unless
    /// the seed is locked.
    pub open spec fn clocked(
        self,
        event: ClockEvent,
        ticks: u64,
        now_us: u64,
        note: Quantized,
    ) -> Tb3po {
        match event {
            ClockEvent::Tick => if self.begins(ticks as int) {
                self.stepped(ticks as int, now_us as int, note)
            } else {
                self
            },
            ClockEvent::Reset => Tb3po {
                step: 0,
                slide_active: false,
                gate_off_ms: 0,
                gate_active: false,
                ..self.reseeded(ticks)
            },
            ClockEvent::Stop => Tb3po { gate_off_ms: 0, gate_active: false, ..self },
            ClockEvent::Start => self,
        }
    }

    /// What an event of the clock sets off.
    pub open spec fn clock_actions(self, event: ClockEvent, ticks: u64, note: Quantized) -> Seq<
        Action,
    > {
        match event {
            ClockEvent::Tick => self.division_leds(ticks as int) + (if self.begins(ticks as int) {
                self.step_actions(ticks as int, note)
            } else {
                Seq::empty()
            }),
            ClockEvent::Reset => (if self.storage.lock_seed {
                Seq::empty()
            } else {
                seq![Action::Save]
            }) + self.silenced(),
            ClockEvent::Stop => self.silenced(),
            ClockEvent::Start => Seq::empty(),
        }
    }

    fn find_step(&self, clkn: usize) -> (r: u8)
        requires
            self.wf(),
        ensures
            r == self.step_at(clkn as int),
            r < 32,
            r < self.storage.steps(),
    {
        reveal(Tb3po::step_at);
        let steps: usize = self.storage.get_steps();
        (clkn / self.div % steps) as u8
    }

    fn is_slid_prev(&self, clkn: usize) -> (r: bool)
        requires
            self.wf(),
        ensures
            r == self.slides_into(clkn as int),
    {
        reveal(Tb3po::slides_into);
        if self.storage.no_slides || clkn == 0 {
            return false;
        }
        let steps: usize = self.storage.get_steps();
        let step: usize = self.find_step(clkn) as usize;
        let prev: usize = (step + steps - 1) % steps;
        step_is_slid(&self.pattern, prev as u8)
    }

    /// What the quantizer is asked for at a tick: the pitch of a step that begins,
    /// where it is needed.
    pub fn request(&self, clkn: usize) -> (r: Option<u16>)
        requires
            self.wf(),
        ensures
            r == (if self.needs_note(clkn as int) {
                Some(
                    step_pitch(
                        self.pattern,
                        self.step_at(clkn as int),
                        self.storage.transpose(),
                    ) as u16,
                )
            } else {
                None
            }),
    {
        if clkn % self.div != 0 {
            return None;
        }
        let step: u8 = self.find_step(clkn);
        if self.is_slid_prev(clkn) || !self.storage.hold_pitch || step_is_gated(
            &self.pattern,
            step,
        ) {
            let raw: u16 = raw_pitch_cv(&self.pattern, step, self.storage.get_transpose());
            let (pitch, _) = Quantizer::new(Range::_Neg5_5V).get_quantized_note(raw);
            Some(pitch)
        } else {
            None
        }
    }

    fn show_division(&self, clkn: usize) -> (r: Vec<Action>)
        requires
            self.wf(),
        ensures
            r@ == self.division_leds(clkn as int),
    {
        let leds = Leds::<3>::new(self.start_channel);
        let mut actions: Vec<Action> = Vec::new();
        if self.latch_layer == LatchLayer::Third {
            let half: usize = if self.div / 2 > 1 {
                self.div / 2
            } else {
                1
            };
            if clkn % self.div == 0 {
                let color = if self.div == 2 || self.div == 4 || self.div == 8 || self.div == 16 {
                    Color::Orange
                } else {
                    Color::Blue
                };
                actions.push(leds.set(0, Led::Bottom, color, Brightness::High));
            } else if clkn % self.div == half {
                actions.push(leds.unset(0, Led::Bottom));
            }
        }
        actions
    }

    fn mark_time(&mut self, step: u8, now_us: u64)
        requires
            old(self).wf(),
            step < 32,
            now_us >= old(self).last_tick_us,
        ensures
            *final(self) == (Tb3po {
                step,
                last_tick_us: now_us,
                cycle_ms: old(self).cycle(now_us as int),
                ..*old(self)
            }),
            final(self).wf(),
    {
        let delta: u64 = (now_us - self.last_tick_us) / 1000 % 0x1_0000_0000;
        if delta > 0 && delta < 5000 {
            self.cycle_ms = delta as u32;
        }
        self.last_tick_us = now_us;
        self.step = step;
    }

    fn begin_note(&mut self, is_accent: bool, note: Quantized, actions: &mut Vec<Action>)
        requires
            old(self).wf(),
        ensures
            *final(self) == old(self).sounded(is_accent, note),
            final(self).wf(),
            final(actions)@ == old(actions)@ + old(self).sounding(is_accent, note),
    {
        self.accent_active = is_accent;
        let midi = self.midi_port();
        actions.push(midi.send_note_off(self.last_midi_note));
        let velocity: u16 = if is_accent {
            4095
        } else {
            2048
        };
        actions.push(midi.send_note_on(note.note, velocity));
        self.last_midi_note = note.note;
        actions.push(self.gate_out().set_high());
        self.gate_active = true;
        let level: u16 = if is_accent {
            4095
        } else {
            0
        };
        actions.push(self.accent_out().set_value(level));
        self.gate_off_ms = self.cycle_ms / 2;
    }

    fn take_pitch(&mut self, is_gated: bool, is_slid_prev: bool, note: Quantized)
        requires
            old(self).wf(),
        ensures
            *final(self) == old(self).pitched(is_gated, is_slid_prev, note),
            final(self).wf(),
    {
        if is_slid_prev {
            self.slide_target = note.counts;
            self.slide_active = true;
        } else if !self.storage.hold_pitch || is_gated {
            self.slide_target = note.counts;
            self.slide_active = false;
        }
    }

    fn regenerate(&mut self)
        requires
            old(self).wf(),
        ensures
            *final(self) == old(self).regenerated(),
            final(self).wf(),
    {
        if self.regen_pending {
            self.pattern = generate(self.storage.seed, self.storage.get_density());
            self.regen_pending = false;
        }
    }

    fn begin_step(&mut self, clkn: usize, now_us: u64, note: Quantized, actions: &mut Vec<Action>)
        requires
            old(self).wf(),
            now_us >= old(self).last_tick_us,
        ensures
            *final(self) == old(self).stepped(clkn as int, now_us as int, note),
            final(self).wf(),
            final(actions)@ == old(actions)@ + old(self).step_actions(clkn as int, note),
    {
        let step: u8 = self.find_step(clkn);
        let is_gated = step_is_gated(&self.pattern, step);
        let is_slid_prev = self.is_slid_prev(clkn);
        let is_accent = step_is_accent(&self.pattern, step);
        self.mark_time(step, now_us);
        self.take_pitch(is_gated, is_slid_prev, note);
        if is_gated || is_slid_prev {
            self.begin_note(is_accent, note, actions);
        }
        self.regenerate();
    }

    fn reseed(&mut self, ticks: u64)
        requires
            old(self).wf(),
        ensures
            *final(self) == old(self).reseeded(ticks),
            final(self).wf(),
    {
        if !self.storage.lock_seed {
            self.storage.seed = (ticks % 65536) as u16;
        }
        self.pattern = generate(self.storage.seed, self.storage.get_density());
    }

    fn silence(&self, actions: &mut Vec<Action>)
        requires
            self.wf(),
        ensures
            final(actions)@ == old(actions)@ + self.silenced(),
    {
        actions.push(self.gate_out().set_low());
        actions.push(self.midi_port().send_note_off(self.last_midi_note));
        actions.push(self.accent_out().set_value(0));
    }

    /// An event of the clock. `note` is the quantized pitch of the step to be played.
    pub fn clock_task(&mut self, event: ClockEvent, ticks: u64, now_us: u64, note: Quantized) -> (r:
        Vec<Action>)
        requires
            old(self).wf(),
            now_us >= old(self).last_tick_us,
            ticks <= usize::MAX,
        ensures
            *final(self) == old(self).clocked(event, ticks, now_us, note),
            final(self).wf(),
            r@ == old(self).clock_actions(event, ticks, note),
    {
        let mut actions: Vec<Action> = Vec::new();
        match event {
            ClockEvent::Tick => {
                let clkn: usize = ticks as usize;
                actions = self.show_division(clkn);
                if clkn % self.div == 0 {
                    self.begin_step(clkn, now_us, note, &mut actions);
                }
            },
            ClockEvent::Reset => {
                if !self.storage.lock_seed {
                    actions.push(Action::Save);
                }
                self.reseed(ticks);
                self.step = 0;
                self.slide_active = false;
                self.gate_off_ms = 0;
                self.gate_active = false;
                self.silence(&mut actions);
            },
            ClockEvent::Stop => {
                self.gate_off_ms = 0;
                self.gate_active = false;
                self.silence(&mut actions);
            },
            ClockEvent::Start => {},
        }
        actions
    }

    /// Whether a gate ends with this millisecond. It goes on through a slide.
    pub open spec fn gate_ends(self) -> bool {
        self.gate_off_ms == 1 && (self.storage.no_slides || !bit_at(self.pattern.slides, self.step))
    }

    /// The state after a millisecond.
    pub open spec fn waited(self, reached: bool) -> Tb3po {
        Tb3po {
            gate_off_ms: if self.gate_off_ms > 0 {
                (self.gate_off_ms - 1) as u32
            } else {
                0
            },
            gate_active: self.gate_active && !self.gate_ends(),
            slide_active: self.slide_active && !reached,
            ..self
        }
    }

    /// What a millisecond sets off: a gate may end, and the pitch is put out, on
    /// its way to the target while it slides.
    pub open spec fn output_actions(self, glide: u16, reached: bool) -> Seq<Action> {
        (if self.gate_ends() {
            self.silenced()
        } else {
            Seq::empty()
        }) + seq![
            self.pitch(
                if self.slide_active && !reached {
                    glide
                } else {
                    self.slide_target
                },
            ),
        ]
    }

    /// A millisecond has gone by. While the pitch slides, `glide` is where it is
    /// now, and `reached` tells whether it has arrived at the target.
    pub fn output_task(&mut self, glide: u16, reached: bool) -> (r: Vec<Action>)
        requires
            old(self).wf(),
        ensures
            *final(self) == old(self).waited(reached),
            final(self).wf(),
            r@ == old(self).output_actions(glide, reached),
    {
        let mut actions: Vec<Action> = Vec::new();
        if self.gate_off_ms > 0 {
            self.gate_off_ms = self.gate_off_ms - 1;
            if self.gate_off_ms == 0 {
                if self.storage.no_slides || !step_is_slid(&self.pattern, self.step) {
                    self.gate_active = false;
                    self.silence(&mut actions);
                }
            }
        }
        let mut value: u16 = self.slide_target;
        if self.slide_active {
            if reached {
                self.slide_active = false;
            } else {
                value = glide;
            }
        }
        actions.push(OutJack::new(self.start_channel, Range::_Neg5_5V).set_value(value));
        actions
    }

    /// Follows the first button: held without shift, the first fader sets the
    /// resolution. The flash of the division ends with it.
    pub fn layer_task(&mut self, button: bool, shift: bool) -> (r: Vec<Action>)
        requires
            old(self).wf(),
        ensures
            *final(self) == (Tb3po {
                prev_in_res: button && !shift,
                latch_layer: if button && !shift {
                    LatchLayer::Third
                } else {
                    LatchLayer::Main
                },
                ..*old(self)
            }),
            r@ == (if old(self).prev_in_res && !(button && !shift) {
                seq![led_unset(old(self).start_channel, Led::Bottom)]
            } else {
                Seq::empty()
            }),
    {
        let in_res = button && !shift;
        let mut actions: Vec<Action> = Vec::new();
        if self.prev_in_res && !in_res {
            actions.push(Leds::<3>::new(self.start_channel).unset(0, Led::Bottom));
        }
        self.prev_in_res = in_res;
        self.latch_layer = if in_res {
            LatchLayer::Third
        } else {
            LatchLayer::Main
        };
        actions
    }

    /// The layer of a fader: only the first one has another than the main one.
    pub open spec fn fader_layer(self, chan: int) -> LatchLayer {
        if chan == 0 {
            self.latch_layer
        } else {
            LatchLayer::Main
        }
    }

    /// The stored position that a fader edits.
    pub open spec fn fader_target(self, chan: int) -> u16 {
        if chan == 0 && self.latch_layer == LatchLayer::Third {
            self.storage.res_saved
        } else if chan == 0 {
            self.storage.density_fader
        } else if chan == 1 {
            self.storage.length_fader
        } else {
            self.storage.transpose_fader
        }
    }

    /// The state with a fader's position stored.
    pub open spec fn edited(self, chan: int, value: u16) -> Tb3po {
        if chan == 0 && self.latch_layer == LatchLayer::Third {
            Tb3po {
                storage: Storage { res_saved: value, ..self.storage },
                div: division_of(value),
                ..self
            }
        } else if chan == 0 {
            Tb3po {
                storage: Storage { density_fader: value, ..self.storage },
                regen_pending: true,
                ..self
            }
        } else if chan == 1 {
            Tb3po { storage: Storage { length_fader: value, ..self.storage }, ..self }
        } else {
            Tb3po { storage: Storage { transpose_fader: value, ..self.storage }, ..self }
        }
    }

    /// The state after a fader was moved.
    pub open spec fn fader_moved(self, chan: int, value: u16) -> Tb3po {
        let latch = self.latches[chan];
        let target = self.fader_target(chan);
        let layer = self.fader_layer(chan);
        let latched = Tb3po {
            latches: spec_array_update(self.latches, chan, latch.updated(value, layer, target)),
            ..self
        };
        match latch.emits(value, layer, target) {
            Some(new_value) => latched.edited(chan, new_value),
            None => latched,
        }
    }

    fn edit(&mut self, chan: usize, val: u16)
        requires
            old(self).wf(),
            chan < 3,
            val <= 4095,
        ensures
            *final(self) == old(self).edited(chan as int, val),
            final(self).wf(),
    {
        if chan == 0 && self.latch_layer == LatchLayer::Third {
            self.div = find_division(val);
            self.storage.res_saved = val;
        } else if chan == 0 {
            self.storage.density_fader = val;
            self.regen_pending = true;
        } else if chan == 1 {
            self.storage.length_fader = val;
        } else {
            self.storage.transpose_fader = val;
        }
    }

    /// A fader was moved.
    pub fn fader_task(&mut self, chan: usize, value: u16) -> (r: Vec<Action>)
        requires
            old(self).wf(),
            chan < 3,
            value <= 4095,
        ensures
            *final(self) == old(self).fader_moved(chan as int, value),
            final(self).wf(),
            r@ == (if old(self).latches[chan as int].emits(
                value,
                old(self).fader_layer(chan as int),
                old(self).fader_target(chan as int),
            ) is Some {
                seq![Action::Save]
            } else {
                Seq::empty()
            }),
    {
        let mut actions: Vec<Action> = Vec::new();
        let latch_layer = if chan == 0 {
            self.latch_layer
        } else {
            LatchLayer::Main
        };
        let in_res = chan == 0 && self.latch_layer == LatchLayer::Third;
        let target_value: u16 = if in_res {
            self.storage.res_saved
        } else if chan == 0 {
            self.storage.density_fader
        } else if chan == 1 {
            self.storage.length_fader
        } else {
            self.storage.transpose_fader
        };
        let mut latch = self.latches[chan];
        let emitted = latch.update(value, latch_layer, target_value);
        self.latches[chan] = latch;
        if let Some(val) = emitted {
            self.edit(chan, val);
            actions.push(Action::Save);
        }
        actions
    }

    /// The state after a button was pressed: the first one brings a new pattern,
    /// the others toggle the holding of pitches and the slides.
    pub open spec fn button_pressed(self, chan: int, shift: bool, ticks: u64) -> Tb3po {
        if shift {
            self
        } else if chan == 0 {
            if self.latch_layer != LatchLayer::Third && !self.storage.lock_seed {
                Tb3po { step: 0, ..self.reseeded(ticks) }
            } else {
                self
            }
        } else if chan == 1 {
            Tb3po {
                storage: Storage { hold_pitch: !self.storage.hold_pitch, ..self.storage },
                ..self
            }
        } else if chan == 2 {
            Tb3po {
                storage: Storage { no_slides: !self.storage.no_slides, ..self.storage },
                ..self
            }
        } else {
            self
        }
    }

    /// Whether a press of a button changes the storage.
    pub open spec fn press_saves(self, chan: int, shift: bool) -> bool {
        !shift && (chan == 1 || chan == 2 || (chan == 0 && self.latch_layer != LatchLayer::Third
            && !self.storage.lock_seed))
    }

    /// A button was pressed.
    pub fn button_task(&mut self, chan: usize, shift: bool, ticks: u64) -> (r: Vec<Action>)
        requires
            old(self).wf(),
        ensures
            *final(self) == old(self).button_pressed(chan as int, shift, ticks),
            final(self).wf(),
            r@ == (if old(self).press_saves(chan as int, shift) {
                seq![Action::Save]
            } else {
                Seq::empty()
            }),
    {
        let mut actions: Vec<Action> = Vec::new();
        if shift {
            return actions;
        }
        match chan {
            0 => {
                if self.latch_layer != LatchLayer::Third && !self.storage.lock_seed {
                    actions.push(Action::Save);
                    self.reseed(ticks);
                    self.step = 0;
                }
            },
            1 => {
                self.storage.hold_pitch = !self.storage.hold_pitch;
                actions.push(Action::Save);
            },
            2 => {
                self.storage.no_slides = !self.storage.no_slides;
                actions.push(Action::Save);
            },
            _ => {},
        }
        actions
    }

    /// A button was pressed for long: the first one locks the seed, or unlocks it.
    pub fn button_long_task(&mut self, chan: usize) -> (r: Vec<Action>)
        requires
            old(self).wf(),
        ensures
            *final(self) == (if chan == 0 {
                Tb3po {
                    storage: Storage {
                        lock_seed: !old(self).storage.lock_seed,
                        ..old(self).storage
                    },
                    ..*old(self)
                }
            } else {
                *old(self)
            }),
            r@ == (if chan == 0 {
                seq![Action::Save]
            } else {
                Seq::empty()
            }),
    {
        let mut actions: Vec<Action> = Vec::new();
        if chan == 0 {
            self.storage.lock_seed = !self.storage.lock_seed;
            actions.push(Action::Save);
        }
        actions
    }

    /// An LED that is lit or released.
    pub open spec fn led_if(self, chan: int, led: Led, lit: bool, color: Color, level: Brightness) -> Action {
        let channel = (self.start_channel + chan) as usize;
        if lit {
            led_set(channel, led, color, level)
        } else {
            led_unset(channel, led)
        }
    }

    /// The LEDs of the first channel: the resolution while it is being set, else
    /// the density and whether the seed is locked.
    pub open spec fn density_leds(self) -> Seq<Action> {
        let channel = self.start_channel;
        let color = self.params.color;
        (if self.latch_layer == LatchLayer::Third {
            seq![
                led_set(
                    channel,
                    Led::Top,
                    Color::Cyan,
                    Brightness::Custom((self.storage.res_saved as int / 512 * 32 + 16) as u8),
                ),
            ]
        } else {
            seq![
                led_set(
                    channel,
                    Led::Top,
                    color,
                    Brightness::Custom((self.storage.density() * 255 / 14) as u8),
                ),
                self.led_if(0, Led::Bottom, self.storage.lock_seed, Color::Orange, Brightness::Mid),
            ]
        }) + seq![led_set(channel, Led::Button, color, Brightness::Low)]
    }

    /// The LEDs of the app: density or resolution, progress and slide, gate and accent.
    pub open spec fn leds(self) -> Seq<Action> {
        let color = self.params.color;
        let second = (self.start_channel + 1) as usize;
        let third = (self.start_channel + 2) as usize;
        self.density_leds() + seq![
            led_set(
                second,
                Led::Top,
                color,
                Brightness::Custom((self.step * 255 / self.storage.steps() % 256) as u8),
            ),
            self.led_if(1, Led::Bottom, self.slide_active, color, Brightness::High),
            led_set(
                second,
                Led::Button,
                color,
                if self.storage.hold_pitch {
                    Brightness::Mid
                } else {
                    Brightness::Low
                },
            ),
            self.led_if(
                2,
                Led::Top,
                self.accent_active && self.gate_active,
                Color::Orange,
                Brightness::High,
            ),
            self.led_if(2, Led::Bottom, self.gate_active, color, Brightness::High),
            led_set(
                third,
                Led::Button,
                color,
                if self.storage.no_slides {
                    Brightness::Mid
                } else {
                    Brightness::Low
                },
            ),
        ]
    }

    fn lit(&self, chan: usize, led: Led, lit: bool, color: Color, level: Brightness) -> (r: Action)
        requires
            self.wf(),
            chan < 3,
        ensures
            r == self.led_if(chan as int, led, lit, color, level),
    {
        let leds = Leds::<3>::new(self.start_channel);
        if lit {
            leds.set(chan, led, color, level)
        } else {
            leds.unset(chan, led)
        }
    }

    /// Brings the LEDs up to date.
    pub fn led_task(&self) -> (r: Vec<Action>)
        requires
            self.wf(),
        ensures
            r@ == self.leds(),
    {
        let leds = Leds::<3>::new(self.start_channel);
        let color = self.params.color;
        let mut actions: Vec<Action> = Vec::new();
        if self.latch_layer == LatchLayer::Third {
            let res_idx: u8 = (self.storage.res_saved / 512) as u8;
            actions.push(
                leds.set(0, Led::Top, Color::Cyan, Brightness::Custom(res_idx * 32 + 16)),
            );
        } else {
            let density: u8 = self.storage.get_density();
            let level: u8 = (density as u32 * 255 / 14) as u8;
            actions.push(leds.set(0, Led::Top, color, Brightness::Custom(level)));
            actions.push(
                self.lit(0, Led::Bottom, self.storage.lock_seed, Color::Orange, Brightness::Mid),
            );
        }
        actions.push(leds.set(0, Led::Button, color, Brightness::Low));
        let steps: u32 = self.storage.get_steps() as u32;
        let progress: u8 = (self.step as u32 * 255 / steps % 256) as u8;
        actions.push(leds.set(1, Led::Top, color, Brightness::Custom(progress)));
        actions.push(self.lit(1, Led::Bottom, self.slide_active, color, Brightness::High));
        let hold = if self.storage.hold_pitch {
            Brightness::Mid
        } else {
            Brightness::Low
        };
        actions.push(leds.set(1, Led::Button, color, hold));
        actions.push(
            self.lit(
                2,
                Led::Top,
                self.accent_active && self.gate_active,
                Color::Orange,
                Brightness::High,
            ),
        );
        actions.push(self.lit(2, Led::Bottom, self.gate_active, color, Brightness::High));
        let plain = if self.storage.no_slides {
            Brightness::Mid
        } else {
            Brightness::Low
        };
        actions.push(leds.set(2, Led::Button, color, plain));
        actions
    }

    /// The state after a scene was loaded into the storage.
    pub open spec fn loaded(self, storage: Storage) -> Tb3po {
        Tb3po {
            storage,
            pattern: generated(storage.seed, storage.density()),
            div: division_of(storage.res_saved),
            step: 0,
            ..self
        }
    }

    /// A scene was loaded into the storage.
    pub fn load_scene(&mut self, storage: Storage)
        requires
            old(self).wf(),
            storage.wf(),
        ensures
            *final(self) == old(self).loaded(storage),
            final(self).wf(),
    {
        self.storage = storage;
        self.pattern = generate(storage.seed, storage.get_density());
        self.div = find_division(storage.res_saved);
        self.step = 0;
    }

    /// Whether an event brings what the hardware can bring.
    pub open spec fn admits(self, event: Event) -> bool {
        match event {
            Event::Clock { ticks, now_us, .. } => now_us >= self.last_tick_us && ticks
                <= usize::MAX,
            Event::Fader { chan, value } => chan < 3 && value <= 4095,
            Event::LoadScene(storage) => storage.wf(),
            _ => true,
        }
    }

    /// The state after an event.
    pub open spec fn after(self, event: Event) -> Tb3po {
        match event {
            Event::Clock { event, ticks, now_us, note } => self.clocked(event, ticks, now_us, note),
            Event::Millisecond { reached, .. } => self.waited(reached),
            Event::Layer { button, shift } => Tb3po {
                prev_in_res: button && !shift,
                latch_layer: if button && !shift {
                    LatchLayer::Third
                } else {
                    LatchLayer::Main
                },
                ..self
            },
            Event::Fader { chan, value } => self.fader_moved(chan as int, value),
            Event::Down { chan, shift, ticks } => self.button_pressed(chan as int, shift, ticks),
            Event::LongPress { chan } => if chan == 0 {
                Tb3po {
                    storage: Storage { lock_seed: !self.storage.lock_seed, ..self.storage },
                    ..self
                }
            } else {
                self
            },
            Event::Frame => self,
            Event::LoadScene(storage) => self.loaded(storage),
            Event::SaveScene(_) => self,
        }
    }

    /// What an event sets off.
    pub open spec fn does(self, event: Event) -> Seq<Action> {
        match event {
            Event::Clock { event, ticks, note, .. } => self.clock_actions(event, ticks, note),
            Event::Millisecond { glide, reached } => self.output_actions(glide, reached),
            Event::Layer { button, shift } => if self.prev_in_res && !(button && !shift) {
                seq![led_unset(self.start_channel, Led::Bottom)]
            } else {
                Seq::empty()
            },
            Event::Fader { chan, value } => if self.latches[chan as int].emits(
                value,
                self.fader_layer(chan as int),
                self.fader_target(chan as int),
            ) is Some {
                seq![Action::Save]
            } else {
                Seq::empty()
            },
            Event::Down { chan, shift, .. } => if self.press_saves(chan as int, shift) {
                seq![Action::Save]
            } else {
                Seq::empty()
            },
            Event::LongPress { chan } => if chan == 0 {
                seq![Action::Save]
            } else {
                Seq::empty()
            },
            Event::Frame => self.leds(),
            Event::LoadScene(_) => Seq::empty(),
            Event::SaveScene(scene) => seq![Action::SaveScene(scene)],
        }
    }

    /// Handles an event.
    pub fn run(&mut self, event: Event) -> (r: Vec<Action>)
        requires
            old(self).wf(),
            old(self).admits(event),
        ensures
            *final(self) == old(self).after(event),
            final(self).wf(),
            r@ == old(self).does(event),
    {
        match event {
            Event::Clock { event, ticks, now_us, note } => self.clock_task(
                event,
                ticks,
                now_us,
                note,
            ),
            Event::Millisecond { glide, reached } => self.output_task(glide, reached),
            Event::Layer { button, shift } => self.layer_task(button, shift),
            Event::Fader { chan, value } => self.fader_task(chan, value),
            Event::Down { chan, shift, ticks } => self.button_task(chan, shift, ticks),
            Event::LongPress { chan } => self.button_long_task(chan),
            Event::Frame => self.led_task(),
            Event::LoadScene(storage) => {
                self.load_scene(storage);
                Vec::new()
            },
            Event::SaveScene(scene) => vec![Action::SaveScene(scene)],
        }
    }
}

/// A locked seed survives resets and presses of the first button.
pub proof fn law_locked_seed_stays(app: Tb3po, ticks: u64, now_us: u64, note: Quantized)
    requires
        app.storage.lock_seed,
    ensures
        app.clocked(ClockEvent::Reset, ticks, now_us, note).storage == app.storage,
        app.button_pressed(0, false, ticks) == app,
{
}

/// Without slides no step glides: after every step the pitch is at its target.
pub proof fn law_no_slides_snaps(app: Tb3po, clkn: int, now_us: int, note: Quantized)
    requires
        app.storage.no_slides,
        !app.slide_active,
    ensures
        !app.stepped(clkn, now_us, note).slide_active,
{
    reveal(Tb3po::slides_into);
}

/// The steps follow the clock: two ticks that are a whole number of rounds apart
/// are at the same step.
pub proof fn law_steps_are_locked_to_clock(app: Tb3po, clkn: int, rounds: int)
    requires
        app.wf(),
        clkn >= 0,
        rounds >= 0,
    ensures
        app.step_at(clkn + rounds * (app.div * app.storage.steps())) == app.step_at(clkn),
{
    reveal(Tb3po::step_at);
    let div = app.div as int;
    let steps = app.storage.steps();
    let more = rounds * (div * steps);
    assert(more == (rounds * steps) * div) by (nonlinear_arith)
        requires
            more == rounds * (div * steps),
    ;
    vstd::arithmetic::div_mod::lemma_hoist_over_denominator(clkn, rounds * steps, div as nat);
    assert((clkn + more) / div == clkn / div + rounds * steps);
    vstd::arithmetic::div_mod::lemma_mod_multiples_vanish(rounds, clkn / div, steps);
    assert(steps * rounds + clkn / div == clkn / div + rounds * steps) by (nonlinear_arith);
}

// ---------------------------------------------------------------------------
// What the patterns are made of
// ---------------------------------------------------------------------------

/// The random number that comes after so many others from a state on; none gives
/// the state itself.
pub open spec fn number(state: u32, n: nat) -> u32
    decreases n,
{
    if n == 0 {
        state
    } else {
        xorshifted(number(state, (n - 1) as nat))
    }
}

/// The random numbers mix their bits without loss: the number after a sum of
/// states without carry is the sum of those after each, and different states
/// give different numbers. After 1 comes 270369.
pub proof fn law_numbers_mix_bits(a: u32, b: u32)
    ensures
        xorshifted(a ^ b) == xorshifted(a) ^ xorshifted(b),
        a != b ==> xorshifted(a) != xorshifted(b),
        xorshifted(1) == 270369,
{
    assert(({
        let c = a ^ b;
        let x = c ^ (c << 13);
        let y = x ^ (x >> 17);
        y ^ (y << 5)
    }) == ({
        let x = a ^ (a << 13);
        let y = x ^ (x >> 17);
        y ^ (y << 5)
    }) ^ ({
        let x = b ^ (b << 13);
        let y = x ^ (x >> 17);
        y ^ (y << 5)
    })) by (bit_vector);
    assert(a != b ==> ({
        let x = a ^ (a << 13);
        let y = x ^ (x >> 17);
        y ^ (y << 5)
    }) != ({
        let x = b ^ (b << 13);
        let y = x ^ (x >> 17);
        y ^ (y << 5)
    })) by (bit_vector);
    assert(({
        let x = 1u32 ^ (1u32 << 13);
        let y = x ^ (x >> 17);
        y ^ (y << 5)
    }) == 270369u32) by (bit_vector);
}

proof fn lemma_appended_bit(bits: u32, bit: bool, k: u8)
    requires
        k < 31,
    ensures
        bit_at(with_bit(bits, bit), 0) == bit,
        bit_at(with_bit(bits, bit), (k + 1) as u8) == bit_at(bits, k),
{
    let low: u32 = if bit {
        1
    } else {
        0
    };
    let next = (k + 1) as u8;
    assert((((bits << 1) | low) >> 0u8) & 1 == low) by (bit_vector)
        requires
            low <= 1,
    ;
    assert((((bits << 1) | low) >> next) & 1 == (bits >> k) & 1) by (bit_vector)
        requires
            low <= 1,
            k < 31,
            next == k + 1,
    ;
}

/// Gate, slide and accent of the draw `k`, among those of the first `n`.
proof fn lemma_rhythm_bits(seed: u16, gate_chance: int, n: int, k: int)
    requires
        0 <= k < n <= 32,
        0 <= gate_chance <= 108,
    ensures
        ({
            let done = rhythm(seed, gate_chance, n);
            let at = (n - 1 - k) as u8;
            let from = (seed + 2) as u32;
            let slid = k > 0 && bit_at(done.slides, (n - k) as u8);
            let loud = k > 0 && bit_at(done.accents, (n - k) as u8);
            &&& done.rng == number(from, (3 * n) as nat)
            &&& bit_at(done.gates, at) == (number(from, (3 * k + 1) as nat) % 100 < gate_chance)
            &&& bit_at(done.slides, at) == (number(from, (3 * k + 2) as nat) % 100 < (if slid {
                10
            } else {
                18u32
            }))
            &&& bit_at(done.accents, at) == (number(from, (3 * k + 3) as nat) % 100 < (if loud {
                7
            } else {
                16u32
            }))
            &&& done.latest_slide == bit_at(done.slides, 0)
            &&& done.latest_accent == bit_at(done.accents, 0)
        }),
    decreases n,
{
    let before = rhythm(seed, gate_chance, n - 1);
    let done = rhythm(seed, gate_chance, n);
    let from = (seed + 2) as u32;
    reveal_with_fuel(number, 4);
    if n == 1 {
        reveal_with_fuel(rhythm, 2);
        assert(before.rng == from);
        assert(number(from, 0) == from);
    } else {
        if k < n - 1 {
            lemma_rhythm_bits(seed, gate_chance, n - 1, k);
        } else {
            lemma_rhythm_bits(seed, gate_chance, n - 1, n - 2);
        }
    }
    let r0 = before.rng;
    assert(r0 == number(from, (3 * (n - 1)) as nat));
    assert(number(from, (3 * n - 2) as nat) == xorshifted(r0));
    assert(number(from, (3 * n - 1) as nat) == xorshifted(xorshifted(r0)));
    assert(number(from, (3 * n) as nat) == xorshifted(xorshifted(xorshifted(r0))));
    let gate = chance(r0, gate_chance as u32);
    let slide = done.latest_slide;
    let accent = done.latest_accent;
    assert(done.gates == with_bit(before.gates, gate));
    assert(done.slides == with_bit(before.slides, slide));
    assert(done.accents == with_bit(before.accents, accent));
    lemma_appended_bit(before.gates, gate, 0);
    lemma_appended_bit(before.slides, slide, 0);
    lemma_appended_bit(before.accents, accent, 0);
    if k < n - 1 {
        let j = (n - 2 - k) as u8;
        lemma_appended_bit(before.gates, gate, j);
        lemma_appended_bit(before.slides, slide, j);
        lemma_appended_bit(before.accents, accent, j);
        if k > 0 {
            let i = (n - 1 - k) as u8;
            if i < 31 {
                lemma_appended_bit(before.slides, slide, i);
                lemma_appended_bit(before.accents, accent, i);
            }
        }
    }
}

/// The gates, slides and accents of a pattern are drawn three numbers per step,
/// from the seed and two on, and stand in the fields from their highest bits on.
/// A step is gated with a chance of 10 in a hundred, and 14 more for every step of
/// the density away from 7; it slides with a chance of 18, or of 10 after another
/// slide, and is accented with a chance of 16, or of 7 after another accent.
pub proof fn law_rhythm_is_drawn(pattern: AcidPattern, seed: u16, density: u8, k: int)
    requires
        is_generated(pattern, seed, density),
        0 <= k < 32,
    ensures
        ({
            let at = (31 - k) as u8;
            let from = (seed + 2) as u32;
            let limited = if density > 14 {
                14
            } else {
                density as int
            };
            let away = if limited > 7 {
                limited - 7
            } else {
                7 - limited
            };
            let slid = k > 0 && bit_at(pattern.slides, (32 - k) as u8);
            let loud = k > 0 && bit_at(pattern.accents, (32 - k) as u8);
            &&& bit_at(pattern.gates, at) == (number(from, (3 * k + 1) as nat) % 100 < 10 + 14
                * away)
            &&& bit_at(pattern.slides, at) == (number(from, (3 * k + 2) as nat) % 100 < (if slid {
                10
            } else {
                18u32
            }))
            &&& bit_at(pattern.accents, at) == (number(from, (3 * k + 3) as nat) % 100 < (if loud {
                7
            } else {
                16u32
            }))
        }),
{
    lemma_rhythm_bits(seed, gate_chance(density), 32, k);
}

/// Whether the pitch and the octave of a step are drawn: `at` numbers were drawn
/// before a step, and `ups` and `downs` are the octaves so far. Every step but the
/// first may repeat the pitch before it, with a chance of 50 in a hundred less 6
/// for every step of the variety. Another one gets the next number, modulo the
/// pitches that there are, and a number for its octave: of 200, the odd ones below
/// 80 go up and the even ones go down.
pub open spec fn step_drawn(
    notes: Seq<u8>,
    state: u32,
    variety: int,
    at: Seq<nat>,
    ups: Seq<u32>,
    downs: Seq<u32>,
    s: int,
) -> bool {
    let available = if variety <= 1 {
        variety
    } else {
        variety - 1
    };
    let repeats = s > 0 && number(state, at[s] + 1) % 100 < 50 - 6 * variety;
    if repeats {
        &&& notes[s] == notes[s - 1]
        &&& at[s + 1] == at[s] + 1
        &&& ups[s + 1] == ups[s]
        &&& downs[s + 1] == downs[s]
    } else {
        let last = at[s + 1];
        let flip = number(state, last) % 200;
        &&& last == at[s] + (if s > 0 {
            3nat
        } else {
            2
        })
        &&& notes[s] == number(state, (last - 1) as nat) as int % (available + 1)
        &&& ups[s + 1] == (2 * ups[s] + (if flip < 80 && flip % 2 == 1 {
            1int
        } else {
            0
        })) % 0x1_0000_0000
        &&& downs[s + 1] == (2 * downs[s] + (if flip < 80 && flip % 2 == 0 {
            1int
        } else {
            0
        })) % 0x1_0000_0000
    }
}

/// Whether the pitches and octaves of 32 steps are drawn, from a state on.
pub open spec fn drawn_along(
    notes: Seq<u8>,
    state: u32,
    variety: int,
    at: Seq<nat>,
    ups: Seq<u32>,
    downs: Seq<u32>,
) -> bool {
    &&& notes.len() == 32 && at.len() == 33 && ups.len() == 33 && downs.len() == 33
    &&& at[0] == 0 && ups[0] == 0 && downs[0] == 0
    &&& forall|s: int|
        0 <= s < 32 ==> #[trigger] step_drawn(notes, state, variety, at, ups, downs, s)
}

/// The numbers that were drawn before a step.
spec fn drawn_before(seed: u16, variety: int, s: int) -> nat
    decreases s,
{
    if s <= 0 {
        0
    } else if s == 1 {
        2
    } else {
        let before = drawn_before(seed, variety, s - 1);
        if number((seed + 1) as u32, before + 1) % 100 < 50 - 6 * variety {
            before + 1
        } else {
            before + 3
        }
    }
}

proof fn lemma_doubled(bits: u32)
    ensures
        bits << 1 == (2 * bits) % 0x1_0000_0000,
        (bits << 1) | 1 == (2 * bits + 1) % 0x1_0000_0000,
{
    assert((bits << 1) as u64 == (2u64 * (bits as u64)) % 0x1_0000_0000) by (bit_vector);
    assert(((bits << 1) | 1) as u64 == (2u64 * (bits as u64) + 1u64) % 0x1_0000_0000)
        by (bit_vector);
}

proof fn lemma_pitches_drawn(seed: u16, variety: int, s: int)
    requires
        0 <= s <= 32,
        0 <= variety <= 8,
    ensures
        pitches(seed, variety, s).notes.len() == s,
        pitches(seed, variety, s).rng == number(
            (seed + 1) as u32,
            drawn_before(seed, variety, s),
        ),
    decreases s,
{
    reveal_with_fuel(number, 4);
    if s > 0 {
        lemma_pitches_drawn(seed, variety, s - 1);
        let state = (seed + 1) as u32;
        let n = drawn_before(seed, variety, s - 1);
        assert(number(state, n + 1) == xorshifted(number(state, n)));
        assert(number(state, n + 2) == xorshifted(number(state, n + 1)));
        assert(number(state, n + 3) == xorshifted(number(state, n + 2)));
        if s == 1 {
            assert(drawn_before(seed, variety, 0) == 0);
            assert(number(state, 0) == state);
        }
    }
}

proof fn lemma_pitches_stay(seed: u16, variety: int, s: int, n: int)
    requires
        0 <= s < n <= 32,
        0 <= variety <= 8,
    ensures
        pitches(seed, variety, n).notes.len() == n,
        pitches(seed, variety, n).notes[s] == pitches(seed, variety, s + 1).notes[s],
    decreases n,
{
    lemma_pitches_drawn(seed, variety, n);
    lemma_pitches_drawn(seed, variety, n - 1);
    if s < n - 1 {
        lemma_pitches_stay(seed, variety, s, n - 1);
    }
}

/// The pitches and octaves of a pattern are drawn from the seed and one on, with
/// the variety of the density, up to 8.
pub proof fn law_pitches_are_drawn(pattern: AcidPattern, seed: u16, density: u8)
    requires
        is_generated(pattern, seed, density),
    ensures
        exists|at: Seq<nat>, ups: Seq<u32>, downs: Seq<u32>| #[trigger]
            drawn_along(
                pattern.notes@,
                (seed + 1) as u32,
                variety(density),
                at,
                ups,
                downs,
            ) && pattern.oct_ups == ups[32] && pattern.oct_downs == downs[32],
        density <= 8 ==> variety(density) == density,
        density > 8 ==> variety(density) == 8,
{
    let v = variety(density);
    let state = (seed + 1) as u32;
    let notes = pattern.notes@;
    let at = Seq::new(33, |s: int| drawn_before(seed, v, s));
    let ups = Seq::new(33, |s: int| pitches(seed, v, s).oct_ups);
    let downs = Seq::new(33, |s: int| pitches(seed, v, s).oct_downs);
    assert forall|s: int| 0 <= s < 32 implies #[trigger] step_drawn(
        notes,
        state,
        v,
        at,
        ups,
        downs,
        s,
    ) by {
        reveal_with_fuel(number, 4);
        lemma_pitches_drawn(seed, v, s);
        lemma_pitches_drawn(seed, v, s + 1);
        lemma_pitches_stay(seed, v, s, 32);
        if s > 0 {
            lemma_pitches_stay(seed, v, s - 1, 32);
        }
        let before = pitches(seed, v, s);
        let n = drawn_before(seed, v, s);
        assert(pitches(seed, v, s + 1) == before.next(v));
        assert(number(state, n + 1) == xorshifted(before.rng));
        assert(number(state, n + 2) == xorshifted(number(state, n + 1)));
        assert(number(state, n + 3) == xorshifted(number(state, n + 2)));
        if s == 0 {
            assert(number(state, 0) == state);
        }
        lemma_doubled(before.oct_ups);
        lemma_doubled(before.oct_downs);
        let pitch = number(
            state,
            if s > 0 {
                n + 2
            } else {
                1
            },
        ) as int;
        assert(0 <= pitch % (pitches_available(v) + 1) <= 7) by {
            vstd::arithmetic::div_mod::lemma_mod_bound(pitch, pitches_available(v) + 1);
        }
    }
    lemma_pitches_drawn(seed, v, 0);
    lemma_pitches_drawn(seed, v, 32);
    assert(drawn_along(notes, state, v, at, ups, downs));
}

/// The pitch of a step is that of its note from the middle on, 34 counts per
/// semitone, an octave of 410 counts up or down where its bit is set, up before
/// down, with the transposition; it stays within 12 bits.
pub proof fn law_step_pitch(p: AcidPattern, step: u8, transpose: int)
    requires
        step < 32,
        p.notes[step as int] <= 7,
        -24 <= transpose <= 24,
    ensures
        ({
            let plain = 2048 + 34 * (p.notes[step as int] + transpose);
            let up = (p.oct_ups >> step) & 1 == 1;
            let down = (p.oct_downs >> step) & 1 == 1;
            step_pitch(p, step, transpose) == (if up {
                plain + 410
            } else if down {
                plain - 410
            } else {
                plain
            })
        }),
{
    let ups = p.oct_ups >> step;
    let downs = p.oct_downs >> step;
    assert(ups & 1 == 0 || ups & 1 == 1) by (bit_vector);
    assert(downs & 1 == 0 || downs & 1 == 1) by (bit_vector);
}

/// The settings keep their faders' share of their ranges, rounded down: 0 to 14
/// for the density, 1 to 32 steps, -24 to 24 semitones. The ticks of a step go from
/// 96 to 6 by halves, then 4, 3 and 2, an eighth of the travel each.
pub proof fn law_settings_follow_faders(storage: Storage, fader: u16)
    requires
        storage.wf(),
        fader <= 4095,
    ensures
        4095 * storage.density() <= 14 * storage.density_fader < 4095 * storage.density() + 4095,
        4095 * (storage.steps() - 1) <= 31 * storage.length_fader < 4095 * storage.steps(),
        4095 * (storage.transpose() + 24) <= 48 * storage.transpose_fader < 4095 * (
        storage.transpose() + 25),
        fader < 512 ==> division_of(fader) == 96,
        fader < 4 * 512 ==> division_of(fader) == 2 * division_of((fader + 512) as u16),
        5 * 512 <= fader < 6 * 512 ==> division_of(fader) == 4,
        6 * 512 <= fader < 7 * 512 ==> division_of(fader) == 3,
        7 * 512 <= fader ==> division_of(fader) == 2,
{
}

/// The pattern that is played is the one of the stored seed and density: when the
/// app starts, when a scene is loaded, after a new seed, and with the step after
/// the density fader was moved. A reset and the first button take the seed from
/// the clock unless it is locked.
pub proof fn law_pattern_follows_seed_and_density(
    app: Tb3po,
    unit: App<3>,
    params: Params,
    storage: Storage,
    faders: [u16; 3],
    takeover: TakeoverMode,
    pattern: AcidPattern,
    ticks: u64,
    now_us: u64,
    note: Quantized,
)
    requires
        app.wf(),
        storage.wf(),
        is_generated(pattern, storage.seed, storage.density()),
        ticks <= usize::MAX,
    ensures
        Tb3po::started(unit, params, storage, faders, takeover, now_us).pattern == pattern,
        Tb3po::started(unit, params, storage, faders, takeover, now_us).storage == storage,
        Tb3po::started(unit, params, storage, faders, takeover, now_us).div == division_of(
            storage.res_saved,
        ),
        app.after(Event::LoadScene(storage)).pattern == pattern,
        app.after(Event::LoadScene(storage)).storage == storage,
        app.after(Event::LoadScene(storage)).div == division_of(storage.res_saved),
        app.after(Event::LoadScene(storage)).step == 0,
        ({
            let reset = app.after(Event::Clock { event: ClockEvent::Reset, ticks, now_us, note });
            let press = app.after(Event::Down { chan: 0, shift: false, ticks });
            &&& reset.storage.seed == (if app.storage.lock_seed {
                app.storage.seed as int
            } else {
                ticks as int % 65536
            })
            &&& reset.storage == storage ==> reset.pattern == pattern
            &&& reset.step == 0 && !reset.gate_active && !reset.slide_active
            &&& app.storage.lock_seed || app.latch_layer == LatchLayer::Third ==> press == app
            &&& !app.storage.lock_seed && app.latch_layer != LatchLayer::Third
                ==> press.storage.seed == ticks as int % 65536 && press.step == 0 && (press.storage
                == storage ==> press.pattern == pattern)
        }),
        app.storage == storage && app.regen_pending && ticks as int % app.div as int == 0
            ==> app.after(Event::Clock { event: ClockEvent::Tick, ticks, now_us, note }).pattern
            == pattern,
        !app.regen_pending ==> app.after(
            Event::Clock { event: ClockEvent::Tick, ticks, now_us, note },
        ).pattern == app.pattern,
{
    law_patterns_are_reproducible(
        pattern,
        generated(storage.seed, storage.density()),
        storage.seed,
        storage.density(),
    );
}

/// A fader that has a value to give stores it and asks for it to be saved: the
/// first one as the density, which asks for a new pattern, or as the resolution
/// while that is set, which is followed at once; the second one as the length and
/// the third one as the transposition.
pub proof fn law_faders_store_their_values(app: Tb3po, chan: usize, value: u16)
    requires
        app.wf(),
        chan < 3,
        value <= 4095,
    ensures
        ({
            let at = chan as int;
            let third = chan == 0 && app.latch_layer == LatchLayer::Third;
            let target = if third {
                app.storage.res_saved
            } else if chan == 0 {
                app.storage.density_fader
            } else if chan == 1 {
                app.storage.length_fader
            } else {
                app.storage.transpose_fader
            };
            let layer = if chan == 0 {
                app.latch_layer
            } else {
                LatchLayer::Main
            };
            let event = Event::Fader { chan, value };
            let before = app.storage;
            let after = app.after(event);
            let emitted = app.latches[at].emits(value, layer, target);
            &&& emitted is None ==> after.storage == before && app.does(event).len() == 0
            &&& emitted matches Some(v) ==> {
                &&& app.does(event) == seq![Action::Save]
                &&& third ==> after.storage == (Storage { res_saved: v, ..before }) && after.div
                    == division_of(v) && after.regen_pending == app.regen_pending
                &&& chan == 0 && !third ==> after.storage == (Storage {
                    density_fader: v,
                    ..before
                }) && after.regen_pending && after.div == app.div
                &&& chan == 1 ==> after.storage == (Storage { length_fader: v, ..before })
                &&& chan == 2 ==> after.storage == (Storage { transpose_fader: v, ..before })
            }
            &&& after.pattern == app.pattern
            &&& after.latches[at] == app.latches[at].updated(value, layer, target)
        }),
{
}

/// Steps begin at the ticks that the resolution divides, one after the other,
/// round and round the length. A step with a gate, or one that the step before
/// slides into, ends the last note and starts its own, opens the output and puts
/// out its accent, and is accented in its velocity; its gate lasts half a step.
/// The first tick of all is slid into by none. A step without either is silent.
pub proof fn law_steps_play_pattern(
    app: Tb3po,
    n: int,
    ticks: u64,
    now_us: u64,
    note: Quantized,
)
    requires
        app.wf(),
        0 <= n,
        ticks <= usize::MAX,
        ticks == n * app.div,
        now_us >= app.last_tick_us,
        app.latch_layer != LatchLayer::Third,
    ensures
        ({
            let event = Event::Clock { event: ClockEvent::Tick, ticks, now_us, note };
            let after = app.after(event);
            let actions = app.does(event);
            let steps = app.storage.steps();
            let step = n % steps;
            let prev = (step + steps - 1) % steps;
            let gated = (app.pattern.gates >> (step as u8)) & 1 == 1;
            let slid = !app.storage.no_slides && n > 0 && (app.pattern.slides >> (prev as u8)) & 1
                == 1;
            let accent = (app.pattern.accents >> (step as u8)) & 1 == 1;
            &&& after.step == step
            &&& gated || slid ==> {
                &&& actions.len() == 4
                &&& actions[0] == app.midi().note_off(app.last_midi_note)
                &&& actions[1] == app.midi().note_on(
                    note.note,
                    if accent {
                        4095
                    } else {
                        2048
                    },
                )
                &&& actions[2] == (Action::Gate {
                    channel: (app.start_channel + 1) as usize,
                    high: true,
                })
                &&& actions[3] == (Action::Dac {
                    channel: (app.start_channel + 2) as usize,
                    value: if accent {
                        2047
                    } else {
                        0
                    },
                })
                &&& after.last_midi_note == note.note
                &&& after.gate_active && after.accent_active == accent
                &&& after.gate_off_ms == after.cycle_ms / 2
                &&& after.slide_target == note.counts
                &&& after.slide_active == slid
            }
            &&& !gated && !slid ==> actions.len() == 0 && after.gate_active == app.gate_active
                && after.last_midi_note == app.last_midi_note
            &&& !gated && !slid && app.storage.hold_pitch ==> after.slide_target
                == app.slide_target && after.slide_active == app.slide_active
            &&& !gated && !slid && !app.storage.hold_pitch ==> after.slide_target == note.counts
                && !after.slide_active
        }),
{
    reveal(Tb3po::step_at);
    reveal(Tb3po::slides_into);
    let div = app.div as int;
    vstd::arithmetic::div_mod::lemma_fundamental_div_mod_converse(ticks as int, div, n, 0);
    let steps = app.storage.steps();
    let step = n % steps;
    let prev = (step + steps - 1) % steps;
    vstd::arithmetic::div_mod::lemma_mod_bound(n, steps);
    vstd::arithmetic::div_mod::lemma_mod_bound(step + steps - 1, steps);
    let g = app.pattern.gates >> (step as u8);
    let s = app.pattern.slides >> (prev as u8);
    let a = app.pattern.accents >> (step as u8);
    assert(g & 1 == 0 || g & 1 == 1) by (bit_vector);
    assert(s & 1 == 0 || s & 1 == 1) by (bit_vector);
    assert(a & 1 == 0 || a & 1 == 1) by (bit_vector);
    assert(n == 0 <==> ticks == 0) by (nonlinear_arith)
        requires
            ticks == n * div,
            div > 0,
    ;
}

/// Between the steps nothing is played.
pub proof fn law_nothing_between_steps(app: Tb3po, ticks: u64, now_us: u64, note: Quantized, i: int)
    requires
        app.wf(),
        ticks as int % app.div as int != 0,
    ensures
        ({
            let event = Event::Clock { event: ClockEvent::Tick, ticks, now_us, note };
            &&& app.after(event) == app
            &&& 0 <= i < app.does(event).len() ==> app.does(event)[i] is Led
        }),
{
}

/// What the quantizer is asked for is the pitch of the step that begins, with the
/// transposition of the fader, wherever that step takes a pitch.
pub proof fn law_requests_ask_for_step(app: Tb3po, n: int, clkn: int)
    requires
        app.wf(),
        0 <= n,
        clkn == n * app.div,
    ensures
        app.step_at(clkn) == n % app.storage.steps(),
        !app.storage.hold_pitch ==> app.needs_note(clkn),
        (app.pattern.gates >> ((n % app.storage.steps()) as u8)) & 1 == 1 ==> app.needs_note(clkn),
{
    reveal(Tb3po::step_at);
    let div = app.div as int;
    vstd::arithmetic::div_mod::lemma_fundamental_div_mod_converse(clkn, div, n, 0);
    vstd::arithmetic::div_mod::lemma_mod_bound(n, app.storage.steps());
}

/// In every millisecond the pitch is put out: its target, or where a slide has
/// got to. A gate counts down and ends with its last millisecond, with its note
/// and its accent, unless its step slides into the next.
pub proof fn law_milliseconds(app: Tb3po, glide: u16, reached: bool)
    requires
        app.wf(),
    ensures
        ({
            let event = Event::Millisecond { glide, reached };
            let after = app.after(event);
            let actions = app.does(event);
            let slides = !app.storage.no_slides && (app.pattern.slides >> app.step) & 1 == 1;
            &&& actions.last() == (Action::Dac {
                channel: app.start_channel,
                value: if app.slide_active && !reached {
                    glide
                } else {
                    app.slide_target
                },
            })
            &&& after.slide_active == (app.slide_active && !reached)
            &&& app.gate_off_ms > 0 ==> after.gate_off_ms == app.gate_off_ms - 1
            &&& app.gate_off_ms == 0 ==> after.gate_off_ms == 0
            &&& app.gate_off_ms == 1 && !slides ==> !after.gate_active && actions.len() == 4
                && actions[0] == (Action::Gate {
                channel: (app.start_channel + 1) as usize,
                high: false,
            }) && actions[1] == app.midi().note_off(app.last_midi_note) && actions[2] == (
            Action::Dac { channel: (app.start_channel + 2) as usize, value: 0 })
            &&& app.gate_off_ms != 1 || slides ==> after.gate_active == app.gate_active
                && actions.len() == 1
        }),
{
    let s = app.pattern.slides >> app.step;
    assert(s & 1 == 0 || s & 1 == 1) by (bit_vector);
}

/// The second and third buttons toggle the holding of pitches and the slides, and
/// a long press of the first one the lock of the seed; all are saved. With shift
/// they do nothing.
pub proof fn law_buttons_toggle(app: Tb3po, chan: usize, ticks: u64)
    ensures
        app.after(Event::Down { chan: 1, shift: false, ticks }).storage == (Storage {
            hold_pitch: !app.storage.hold_pitch,
            ..app.storage
        }),
        app.after(Event::Down { chan: 2, shift: false, ticks }).storage == (Storage {
            no_slides: !app.storage.no_slides,
            ..app.storage
        }),
        app.after(Event::LongPress { chan: 0 }).storage == (Storage {
            lock_seed: !app.storage.lock_seed,
            ..app.storage
        }),
        app.after(Event::Down { chan, shift: true, ticks }) == app,
        app.does(Event::Down { chan: 1, shift: false, ticks }) == seq![Action::Save],
        app.does(Event::Down { chan: 2, shift: false, ticks }) == seq![Action::Save],
        app.does(Event::LongPress { chan: 0 }) == seq![Action::Save],
        app.does(Event::Down { chan, shift: true, ticks }).len() == 0,
        app.after(Event::Layer { button: true, shift: false }).latch_layer == LatchLayer::Third,
        app.after(Event::Layer { button: false, shift: false }).latch_layer == LatchLayer::Main,
        app.after(Event::Layer { button: true, shift: true }).latch_layer == LatchLayer::Main,
{
}

/// A stop and a reset close the output and end the last note and the accent.
pub proof fn law_stop_silences(app: Tb3po, ticks: u64, now_us: u64, note: Quantized, i: int)
    requires
        app.wf(),
        0 <= i < 3,
    ensures
        ({
            let stop = Event::Clock { event: ClockEvent::Stop, ticks, now_us, note };
            let reset = Event::Clock { event: ClockEvent::Reset, ticks, now_us, note };
            let ended = seq![
                Action::Gate { channel: (app.start_channel + 1) as usize, high: false },
                app.midi().note_off(app.last_midi_note),
                Action::Dac { channel: (app.start_channel + 2) as usize, value: 0 },
            ];
            &&& !app.after(stop).gate_active && app.after(stop).gate_off_ms == 0
            &&& app.after(stop).pattern == app.pattern
            &&& app.does(stop) == ended
            &&& app.storage.lock_seed ==> app.does(reset) == ended
            &&& !app.storage.lock_seed ==> app.does(reset) == seq![Action::Save] + ended
        }),
{
}

/// The first channel shows the density, or the division while it is edited, and a
/// locked seed; the second one how far the pattern has gone and a slide; the third
/// one an accent and its gate. The second and the third button are brighter while
/// pitches are held and while slides are off.
pub proof fn law_pattern_is_shown(app: Tb3po)
    requires
        app.wf(),
        app.storage.density() <= 14,
        app.storage.res_saved <= 4095,
        app.step < app.storage.steps() <= 32,
    ensures
        ({
            let shown = app.does(Event::Frame);
            let first = app.start_channel;
            let second = (app.start_channel + 1) as usize;
            let third = (app.start_channel + 2) as usize;
            let color = app.params.color;
            let edited = app.latch_layer == LatchLayer::Third;
            let at: int = if edited {
                1
            } else {
                2
            };
            let steps = app.storage.steps();
            &&& shown.len() == at + 7
            &&& shown[0] matches Action::Led {
                channel,
                led: Led::Top,
                msg: crate::tasks::leds::LedMsg::Mode(
                    crate::tasks::leds::LedMode::Static(hue, Brightness::Custom(level)),
                ),
            } && channel == first && (edited ==> hue == Color::Cyan && 512 * (level - 16) <= 32
                * app.storage.res_saved < 512 * (level - 16) + 16384 && (level - 16) % 32 == 0) && (
            !edited ==> hue == color && 14 * level <= 255 * app.storage.density() < 14 * level + 14)
            &&& !edited ==> shown[1] == (if app.storage.lock_seed {
                led_set(first, Led::Bottom, Color::Orange, Brightness::Mid)
            } else {
                led_unset(first, Led::Bottom)
            })
            &&& shown[at] == led_set(first, Led::Button, color, Brightness::Low)
            &&& shown[at + 1] matches Action::Led {
                channel,
                led: Led::Top,
                msg: crate::tasks::leds::LedMsg::Mode(
                    crate::tasks::leds::LedMode::Static(hue, Brightness::Custom(level)),
                ),
            } && channel == second && hue == color && steps * level <= 255 * app.step < steps
                * level + steps
            &&& shown[at + 2] == (if app.slide_active {
                led_set(second, Led::Bottom, color, Brightness::High)
            } else {
                led_unset(second, Led::Bottom)
            })
            &&& shown[at + 3] == led_set(
                second,
                Led::Button,
                color,
                if app.storage.hold_pitch {
                    Brightness::Mid
                } else {
                    Brightness::Low
                },
            )
            &&& shown[at + 4] == (if app.accent_active && app.gate_active {
                led_set(third, Led::Top, Color::Orange, Brightness::High)
            } else {
                led_unset(third, Led::Top)
            })
            &&& shown[at + 5] == (if app.gate_active {
                led_set(third, Led::Bottom, color, Brightness::High)
            } else {
                led_unset(third, Led::Bottom)
            })
            &&& shown[at + 6] == led_set(
                third,
                Led::Button,
                color,
                if app.storage.no_slides {
                    Brightness::Mid
                } else {
                    Brightness::Low
                },
            )
        }),
{
    let steps = app.storage.steps();
    let num = app.step * 255;
    vstd::arithmetic::div_mod::lemma_fundamental_div_mod(num, steps);
    vstd::arithmetic::div_mod::lemma_mod_bound(num, steps);
    let level = num / steps;
    assert(0 <= level < 255) by (nonlinear_arith)
        requires
            steps > 0,
            0 <= num <= 255 * (steps - 1),
            steps * level <= num < steps * level + steps,
            level == num / steps,
    ;
}

/// While the division is edited its first LED flashes with it below: in orange for
/// the divisions by 2, 4, 8 and 16 and in blue for the others where it begins, and
/// out at half of it. The end of the editing puts it out as well.
pub proof fn law_division_is_shown(app: Tb3po, clkn: int, k: int, into: int)
    requires
        app.wf(),
        2 <= app.div,
        0 <= k,
        0 <= into < app.div,
        clkn == k * app.div + into,
    ensures
        ({
            let shown = app.division_leds(clkn);
            let edited = app.latch_layer == LatchLayer::Third;
            let halves = app.div == 2 || app.div == 4 || app.div == 8 || app.div == 16;
            let half = into > 0 && 2 * into <= app.div < 2 * into + 2;
            &&& !edited ==> shown.len() == 0
            &&& edited && into == 0 ==> shown == seq![
                led_set(
                    app.start_channel,
                    Led::Bottom,
                    if halves {
                        Color::Orange
                    } else {
                        Color::Blue
                    },
                    Brightness::High,
                ),
            ]
            &&& edited && half ==> shown == seq![led_unset(app.start_channel, Led::Bottom)]
            &&& edited && into > 0 && !half ==> shown.len() == 0
        }),
        app.prev_in_res ==> app.does(Event::Layer { button: false, shift: false }) == seq![
            led_unset(app.start_channel, Led::Bottom),
        ],
        !app.prev_in_res ==> app.does(Event::Layer { button: false, shift: false }).len() == 0,
        app.does(Event::Layer { button: true, shift: false }).len() == 0,
{
    vstd::arithmetic::div_mod::lemma_fundamental_div_mod_converse(
        clkn,
        app.div as int,
        k,
        into,
    );
}

/// The app starts on what is stored, silent, at the first step of the pattern that
/// the stored seed and density give, its slide in the middle.
pub proof fn law_starts_on_storage(
    app: App<3>,
    params: Params,
    storage: Storage,
    faders: [u16; 3],
    takeover: TakeoverMode,
    now_us: u64,
    n: int,
)
    requires
        0 <= n < 3,
    ensures
        ({
            let s = Tb3po::started(app, params, storage, faders, takeover, now_us);
            &&& s.start_channel == app.start_channel && s.params == params && s.storage == storage
            &&& s.latch_layer == LatchLayer::Main && s.step == 0
            &&& s.latches[n] == AnalogLatch::initial(faders[n], 25, takeover)
            &&& s.pattern == generated(storage.seed, storage.density())
            &&& s.div == division_of(storage.res_saved)
            &&& s.slide_target == 2048 && !s.slide_active
            &&& !s.gate_active && !s.accent_active && s.gate_off_ms == 0
            &&& !s.regen_pending && !s.prev_in_res
            &&& s.last_tick_us == now_us && s.cycle_ms == 500
            &&& s.last_midi_note == MidiNote(0)
        }),
{
}

/// A step remembers when it began, and how many whole milliseconds have gone by since
/// the last one, unless that is none or five seconds or more; a pattern that was to be
/// drawn anew is, by the stored seed and density.
pub proof fn law_steps_take_time(
    app: Tb3po,
    n: int,
    ticks: u64,
    now_us: u64,
    note: Quantized,
    millis: int,
)
    requires
        app.wf(),
        0 <= n,
        ticks <= usize::MAX,
        ticks == n * app.div,
        now_us >= app.last_tick_us,
        1000 * millis <= now_us - app.last_tick_us < 1000 * millis + 1000,
        millis < 0x1_0000_0000,
    ensures
        ({
            let after = app.after(Event::Clock { event: ClockEvent::Tick, ticks, now_us, note });
            &&& after.last_tick_us == now_us
            &&& 0 < millis < 5000 ==> after.cycle_ms == millis
            &&& millis == 0 || millis >= 5000 ==> after.cycle_ms == app.cycle_ms
            &&& app.regen_pending ==> after.pattern == generated(
                app.storage.seed,
                app.storage.density(),
            )
            &&& !app.regen_pending ==> after.pattern == app.pattern
            &&& !after.regen_pending
            &&& after.storage == app.storage && after.div == app.div
        }),
{
    vstd::arithmetic::div_mod::lemma_fundamental_div_mod_converse(
        ticks as int,
        app.div as int,
        n,
        0,
    );
}

/// The parameters of a fresh app, and what it has in its storage.
pub proof fn law_fresh_app(r: Storage)
    requires
        call_ensures(Storage::default, (), r),
    ensures
        ({
            let p = initial_params();
            &&& p.midi_channel == MidiChannel(1)
            &&& p.midi_out == (MidiOut { usb: true, out1: true, out2: true })
            &&& p.color == Color::Orange
        }),
        r.seed == 0xABCD,
        r.density_fader == 2048,
        r.length_fader == 1920,
        r.transpose_fader == 2048,
        r.res_saved == 2048,
        !r.lock_seed,
        r.hold_pitch,
        !r.no_slides,
{
}

} // verus!
