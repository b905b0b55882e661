//! LFO+: an oscillator of five shapes with a CV input that can be assigned to
//! its speed, phase, amplitude or start.
//!
//! A millisecond is handled in two steps. First the input is read and the speed
//! is brought up to date; from `motion` the position of the oscillator follows.
//! Then the output is set for that position.
use vstd::prelude::*;
use vstd::array::spec_array_update;

use crate::app::{led_mode, led_set, led_unset, Action, App, Leds, MidiOutput, OutJack, PortMode};
use crate::apps::lfo::{counted, find_round, find_speed_divisor, round_of, speed_divisor, LfoMotion};
use crate::apps::parts::{byte_level, level_byte, light_or_not, lit_or_not};
use crate::latch::{clamp_12bit, AnalogLatch, LatchLayer, TakeoverMode};
use crate::storage::{values_new, values_push, AppParams, AppStorage, ManagedStorage, ParamStore};
use crate::tables::Tables;
use crate::tasks::leds::{Led, LedMode};
use crate::types::{
    Brightness, ClockEvent, Color, Curve, MidiCc, MidiChannel, MidiOut, ParamValue, Range, Value,
    Waveform,
};
use crate::utils::{
    attenuate, attenuate_bipolar, attenuated, attenuated_bipolar, split_unsigned_value, to_i16,
    unsigned_halves, wrap_i16,
};

verus! {

pub const CHANNELS: usize = 2;

pub const PARAMS: usize = 7;

/// The input level that starts the oscillator over.
pub const TRIGGER_LEVEL: u16 = 2458;

/// The parameters of the app.
#[derive(Clone, Copy, Debug, PartialEq, Eq, Structural)]
pub struct Params {
    pub speed_mult: usize,
    pub range: Range,
    pub midi_out: MidiOut,
    pub midi_channel: MidiChannel,
    pub midi_cc: MidiCc,
    pub color_in: Color,
    pub nrpn: bool,
}

impl AppParams for Params {
    open spec fn read(values: Seq<Value>) -> Option<Self> {
        if values.len() < 7 {
            None
        } else {
            Some(
                Params {
                    speed_mult: usize::reads(values[0]),
                    range: Range::reads(values[1]),
                    midi_channel: MidiChannel::reads(values[2]),
                    midi_cc: MidiCc::reads(values[3]),
                    color_in: Color::reads(values[4]),
                    nrpn: bool::reads(values[5]),
                    midi_out: MidiOut::reads(values[6]),
                },
            )
        }
    }

    open spec fn listing(self) -> Seq<Value> {
        seq![
            self.speed_mult.stored(),
            self.range.stored(),
            self.midi_channel.stored(),
            self.midi_cc.stored(),
            self.color_in.stored(),
            Value::MidiNrpn(self.nrpn),
            self.midi_out.stored(),
        ]
    }

    fn from_values(values: &[Value]) -> (r: Option<Self>) {
        if values.len() < PARAMS {
            return None;
        }
        Some(
            Params {
                speed_mult: usize::from_value(values[0]),
                range: Range::from_value(values[1]),
                midi_channel: MidiChannel::from_value(values[2]),
                midi_cc: MidiCc::from_value(values[3]),
                color_in: Color::from_value(values[4]),
                nrpn: bool::from_value(values[5]),
                midi_out: MidiOut::from_value(values[6]),
            },
        )
    }

    fn to_values(&self) -> (r: heapless::Vec<Value, 16>) {
        let mut vec = values_new();
        let _ = values_push(&mut vec, self.speed_mult.into_value());
        let _ = values_push(&mut vec, self.range.into_value());
        let _ = values_push(&mut vec, self.midi_channel.into_value());
        let _ = values_push(&mut vec, self.midi_cc.into_value());
        let _ = values_push(&mut vec, self.color_in.into_value());
        let _ = values_push(&mut vec, Value::MidiNrpn(self.nrpn));
        let _ = values_push(&mut vec, self.midi_out.into_value());
        vec
    }

    proof fn law_params_round_trip(self) {
    }
}

/// What the app keeps. `dest` is what the input is assigned to: 0 the speed, 1
/// the phase, 2 the amplitude, 3 the start.
#[derive(Clone, Copy, Debug, PartialEq, Eq, Structural)]
pub struct Storage {
    pub clocked: bool,
    pub layer_attenuation: u16,
    pub layer_speed: u16,
    pub wave: Waveform,
    pub in_att: u16,
    pub in_mute: bool,
    pub dest: usize,
}

impl Default for Storage {
    fn default() -> (r: Self)
        ensures
            r == (Storage {
                clocked: false,
                layer_attenuation: 4095,
                layer_speed: 2000,
                wave: Waveform::Sine,
                in_att: 4095,
                in_mute: false,
                dest: 0,
            }),
            r.wf(),
    {
        Storage {
            clocked: false,
            layer_attenuation: 4095,
            layer_speed: 2000,
            wave: Waveform::Sine,
            in_att: 4095,
            in_mute: false,
            dest: 0,
        }
    }
}

impl AppStorage for Storage {

}

impl Storage {
    /// Whether another destination can be counted.
    pub open spec fn wf(self) -> bool {
        self.dest < usize::MAX
    }
}

/// The parameters that the app starts with: the controller of its first channel, and no
/// MIDI output.
pub open spec fn initial_params(start_channel: usize) -> Params {
    Params {
        speed_mult: 0,
        range: Range::_Neg5_5V,
        midi_out: MidiOut { usb: false, out1: false, out2: false },
        midi_channel: MidiChannel(1),
        midi_cc: MidiCc::for_channel(32, start_channel),
        color_in: Color::Blue,
        nrpn: false,
    }
}

/// The parameters and the storage of the app, before anything was loaded.
pub fn wrapper(app: App<2>) -> (r: (ParamStore<Params>, ManagedStorage<Storage>))
    ensures
        r.0 == (ParamStore {
            app_id: app.app_id,
            inner: initial_params(app.start_channel),
            layout_id: app.layout_id,
        }),
        r.1.app_id == app.app_id,
        r.1.layout_id == app.layout_id,
        call_ensures(Storage::default, (), r.1.inner),
{
    (
        ParamStore::new(
            app.app_id,
            app.layout_id,
            Params {
                speed_mult: 0,
                range: Range::_Neg5_5V,
                midi_out: MidiOut { usb: false, out1: false, out2: false },
                midi_channel: MidiChannel::default(),
                midi_cc: MidiCc::of_channel(32, app.start_channel),
                color_in: Color::Blue,
                nrpn: false,
            },
        ),
        ManagedStorage::new(app.app_id, app.layout_id),
    )
}

/// The color of a waveform.
pub open spec fn wave_color(wave: Waveform) -> Color {
    match wave {
        Waveform::Sine => Color::Yellow,
        Waveform::Triangle => Color::Pink,
        Waveform::Saw => Color::Cyan,
        Waveform::SawInv => Color::Red,
        Waveform::Square => Color::White,
    }
}

/// The color of a waveform.
pub fn get_color_for(wave: Waveform) -> (r: Color)
    ensures
        r == wave_color(wave),
{
    match wave {
        Waveform::Sine => Color::Yellow,
        Waveform::Triangle => Color::Pink,
        Waveform::Saw => Color::Cyan,
        Waveform::SawInv => Color::Red,
        Waveform::Square => Color::White,
    }
}

/// The color of a destination.
pub open spec fn dest_color(dest: usize) -> Color {
    if dest == 1 {
        Color::Pink
    } else if dest == 2 {
        Color::Cyan
    } else if dest == 3 {
        Color::Red
    } else {
        Color::Yellow
    }
}

/// What an event brings.
pub enum Event {
    /// A millisecond has gone by, with the shift button and the input.
    Millisecond { shift: bool, raw: u16 },
    /// The oscillator has moved to a position, which is negative while it runs
    /// backwards.
    Output { pos: i16 },
    /// A fader was moved to a value.
    Fader { chan: usize, value: u16 },
    /// A button was pressed.
    Down { chan: usize, shift: bool },
    /// A button was pressed for long.
    LongPress { chan: usize, shift: bool },
    /// An event of the clock, a tick per quarter note.
    Clock(ClockEvent),
    /// A scene was loaded into the storage.
    LoadScene(Storage),
    /// A scene is to be saved.
    SaveScene(u8),
}

/// The running app.
pub struct LfoPlus {
    pub start_channel: usize,
    pub params: Params,
    pub storage: Storage,
    pub restart: bool,
    pub latch_layer: LatchLayer,
    pub latch: [AnalogLatch; 2],
    pub tick: bool,
    pub quarter: i32,
    pub rate: i32,
    pub speed_count: i32,
    pub speed_div: u16,
    pub count: i32,
    pub last_out: u16,
    pub in_val: u16,
    pub oldinputval: u16,
}

impl LfoPlus {
    pub open spec fn wf(self) -> bool {
        self.start_channel + 2 <= 16 && self.storage.wf() && self.in_val <= 4095
    }

    pub open spec fn second(self) -> usize {
        (self.start_channel + 1) as usize
    }

    pub open spec fn bipolar(self) -> bool {
        self.params.range.bipolar()
    }

    /// The output set to a value.
    pub open spec fn output(self, value: u16) -> Action {
        (OutJack { channel: self.second(), range: self.params.range }).valued(value)
    }

    /// The MIDI port.
    pub open spec fn midi(self) -> MidiOutput {
        MidiOutput::port(
            self.start_channel,
            self.params.midi_out,
            self.params.midi_channel,
            self.params.nrpn,
        )
    }

    fn midi_port(&self) -> (r: MidiOutput)
        ensures
            r == self.midi(),
    {
        MidiOutput::new(
            self.params.midi_out,
            self.start_channel,
            self.params.midi_channel.to_wire(),
            self.params.nrpn,
        )
    }

    /// The second button in the color of a waveform.
    pub open spec fn wave_led(self, wave: Waveform, brightness: Brightness) -> Action {
        led_set(self.second(), Led::Button, wave_color(wave), brightness)
    }

    fn show_wave(&self, brightness: Brightness) -> (r: Action)
        requires
            self.start_channel <= 14,
        ensures
            r == self.wave_led(self.storage.wave, brightness),
    {
        let color = get_color_for(self.storage.wave);
        Leds::<2>::new(self.start_channel).set(1, Led::Button, color, brightness)
    }

    /// The first button, dark where the input is muted.
    pub open spec fn input_led(self) -> Action {
        lit_or_not(
            self.start_channel,
            Led::Button,
            !self.storage.in_mute,
            self.params.color_in,
            Brightness::Mid,
        )
    }

    fn show_input(&self) -> (r: Action)
        requires
            self.start_channel <= 14,
        ensures
            r == self.input_led(),
    {
        light_or_not(
            self.start_channel,
            Led::Button,
            !self.storage.in_mute,
            self.params.color_in,
            Brightness::Mid,
        )
    }

    /// The state that the app starts with.
    pub open spec fn started(
        app: App<2>,
        params: Params,
        storage: Storage,
        faders: [u16; 2],
        takeover: TakeoverMode,
        tables: Tables,
    ) -> LfoPlus {
        LfoPlus {
            start_channel: app.start_channel,
            params,
            storage,
            restart: true,
            latch_layer: LatchLayer::Main,
            latch: [
                AnalogLatch::initial(faders[0], 25, takeover),
                AnalogLatch::initial(faders[1], 25, takeover),
            ],
            tick: false,
            quarter: 1,
            rate: tables.curve(Curve::Exponential, storage.layer_speed as int) as i32,
            speed_count: 1,
            speed_div: round_of(storage.layer_speed as int),
            count: 0,
            last_out: 0,
            in_val: 2047,
            oldinputval: 0,
        }
    }

    /// Starts the app on what is stored.
    pub fn new(
        app: App<2>,
        params: Params,
        storage: Storage,
        faders: [u16; 2],
        takeover: TakeoverMode,
        tables: &Tables,
    ) -> (r: (Self, Vec<Action>))
        requires
            app.wf(),
            storage.wf(),
            tables.wf(),
        ensures
            r.0 == LfoPlus::started(app, params, storage, faders, takeover, *tables),
            r.0.wf(),
            r.1@ == seq![
                Action::Configure {
                    channel: app.start_channel,
                    mode: PortMode::Input { bipolar: true },
                    gpo_level: None,
                },
                Action::Configure {
                    channel: (app.start_channel + 1) as usize,
                    mode: PortMode::Output { bipolar: params.range.bipolar() },
                    gpo_level: None,
                },
                r.0.wave_led(storage.wave, Brightness::Mid),
                r.0.input_led(),
            ],
    {
        let state = LfoPlus {
            start_channel: app.start_channel,
            params,
            storage,
            restart: true,
            latch_layer: LatchLayer::Main,
            latch: [app.make_latch(faders[0], takeover), app.make_latch(faders[1], takeover)],
            tick: false,
            quarter: 1,
            rate: tables.curve_at(Curve::Exponential, storage.layer_speed) as i32,
            speed_count: 1,
            speed_div: find_round(storage.layer_speed),
            count: 0,
            last_out: 0,
            in_val: 2047,
            oldinputval: 0,
        };
        let actions = vec![
            app.make_in_jack(0, Range::_Neg5_5V).1,
            app.make_out_jack(1, params.range).1,
            state.show_wave(Brightness::Mid),
            state.show_input(),
        ];
        (state, actions)
    }

    /// What the position follows from.
    pub open spec fn moving(self) -> LfoMotion {
        LfoMotion {
            restart: self.restart,
            sync: self.storage.clocked,
            rate: self.rate,
            count: if self.speed_count < 1 {
                1
            } else {
                self.speed_count
            },
            div: self.speed_div,
            mult: speed_divisor(self.params.speed_mult) as u32,
        }
    }

    /// What the position follows from.
    pub fn motion(&self) -> (r: LfoMotion)
        ensures
            r == self.moving(),
            r.restart == self.restart,
            r.sync == self.storage.clocked,
            r.rate == self.rate,
            r.count == (if self.speed_count < 1 {
                1
            } else {
                self.speed_count
            }),
            r.div == self.speed_div,
            r.mult == speed_divisor(self.params.speed_mult),
    {
        LfoMotion {
            restart: self.restart,
            sync: self.storage.clocked,
            rate: self.rate,
            count: if self.speed_count < 1 {
                1
            } else {
                self.speed_count
            },
            div: self.speed_div,
            mult: find_speed_divisor(self.params.speed_mult),
        }
    }

    /// The input after its attenuation, at rest in the middle where it is muted.
    pub open spec fn input(self, raw: u16) -> u16 {
        if self.storage.in_mute {
            2047
        } else {
            attenuated_bipolar(raw as int, self.storage.in_att as int) as u16
        }
    }

    /// The state with the speed brought up to date, moved by an offset whose
    /// middle is 2047.
    pub open spec fn sped(self, offset: int, tables: Tables) -> LfoPlus {
        let speed = self.storage.layer_speed as int;
        LfoPlus {
            rate: (tables.curve(Curve::Exponential, speed) + offset - 2047) as i32,
            speed_count: self.quarter,
            speed_div: round_of(clamp_12bit(speed + offset - 2047)),
            ..self
        }
    }

    fn time_calc(&mut self, offset: u16, tables: &Tables)
        requires
            old(self).wf(),
            tables.wf(),
        ensures
            *final(self) == old(self).sped(offset as int, *tables),
            final(self).wf(),
    {
        let speed: u16 = self.storage.layer_speed;
        let sum: u32 = speed as u32 + offset as u32;
        let moved: u16 = if sum < 2047 {
            0
        } else if sum > 2047 + 4095 {
            4095
        } else {
            (sum - 2047) as u16
        };
        self.rate = tables.curve_at(Curve::Exponential, speed) as i32 + offset as i32 - 2047;
        self.speed_count = self.quarter;
        self.speed_div = find_round(moved);
    }

    /// The state after the input was read: assigned to the start, a rise through
    /// the trigger level starts the oscillator over.
    pub open spec fn sampled(self, raw: u16, tables: Tables) -> LfoPlus {
        let in_val = self.input(raw);
        let offset = if self.storage.dest == 0 {
            in_val as int
        } else {
            2047
        };
        let sped = self.sped(offset, tables);
        LfoPlus {
            in_val,
            restart: self.restart || (self.storage.dest == 3 && in_val >= 2458 && self.oldinputval
                < 2458),
            oldinputval: if self.storage.dest == 3 {
                in_val
            } else {
                self.oldinputval
            },
            ..sped
        }
    }

    /// The state after a millisecond: with a quarter note, the time since the last
    /// one is taken over.
    pub open spec fn waited(self, shift: bool, raw: u16, tables: Tables) -> LfoPlus {
        let sampled = self.sampled(raw, tables);
        let count = counted(self.count);
        LfoPlus {
            latch_layer: if shift {
                LatchLayer::Alt
            } else {
                LatchLayer::Main
            },
            quarter: if self.tick {
                count
            } else {
                self.quarter
            },
            count: if self.tick {
                0
            } else {
                count
            },
            tick: false,
            ..sampled
        }
    }

    /// A millisecond has gone by: the input is read, and the speed is brought up
    /// to date.
    pub fn advance(&mut self, shift: bool, raw: u16, tables: &Tables)
        requires
            old(self).wf(),
            tables.wf(),
        ensures
            *final(self) == old(self).waited(shift, raw, *tables),
            final(self).wf(),
    {
        let in_val: u16 = if self.storage.in_mute {
            2047
        } else {
            attenuate_bipolar(raw, self.storage.in_att)
        };
        let offset: u16 = if self.storage.dest == 0 {
            in_val
        } else {
            2047
        };
        self.time_calc(offset, tables);
        self.in_val = in_val;
        if self.storage.dest == 3 {
            if in_val >= TRIGGER_LEVEL && self.oldinputval < TRIGGER_LEVEL {
                self.restart = true;
            }
            self.oldinputval = in_val;
        }
        self.latch_layer = LatchLayer::from(shift);
        self.count = self.count.wrapping_add(1);
        if self.tick {
            self.quarter = self.count;
            self.count = 0;
            self.tick = false;
        }
    }

    /// The attenuation, moved by the input where it is assigned to the amplitude. Both
    /// are taken as 16 bits with a sign.
    pub open spec fn attenuation(self) -> int {
        clamp_12bit(
            wrap_i16(
                wrap_i16(self.storage.layer_attenuation as int) + (if self.storage.dest == 2 {
                    (self.in_val - 2047) * 2
                } else {
                    0
                }),
            ),
        )
    }

    /// The position in the waveform, moved by the input where it is assigned to
    /// the phase.
    pub open spec fn phase(self, pos: int) -> int {
        (pos + (if self.storage.dest == 1 {
            (self.in_val - 2047) * 2
        } else {
            0
        })) % 4096
    }

    /// The value of the oscillator at a position, after the attenuation.
    #[verifier::opaque]
    pub open spec fn value(self, pos: int, tables: Tables) -> u16 {
        let wave = tables.wave(self.storage.wave, self.phase(pos)) as int;
        if self.bipolar() {
            attenuated_bipolar(wave, self.attenuation()) as u16
        } else {
            attenuated(wave, self.attenuation()) as u16
        }
    }

    fn find_attenuation(&self) -> (r: u16)
        requires
            self.wf(),
        ensures
            r == self.attenuation(),
            r <= 4095,
    {
        let input: i32 = if self.storage.dest == 2 {
            (self.in_val as i32 - 2047) * 2
        } else {
            0
        };
        let moved: i32 = to_i16(to_i16(self.storage.layer_attenuation as i32) + input);
        if moved < 0 {
            0
        } else if moved > 4095 {
            4095
        } else {
            moved as u16
        }
    }

    fn find_value(&self, pos: i16, tables: &Tables) -> (r: u16)
        requires
            self.wf(),
            tables.wf(),
            -4096 < pos < 4096,
        ensures
            r == self.value(pos as int, *tables),
            r <= 4095,
    {
        reveal(LfoPlus::value);
        let moved: i32 = pos as i32 + if self.storage.dest == 1 {
            (self.in_val as i32 - 2047) * 2
        } else {
            0
        };
        let phase: usize = ((moved + 12288) % 4096) as usize;
        assert(phase == self.phase(pos as int));
        let wave: u16 = tables.wave_at(self.storage.wave, phase);
        let att: u16 = self.find_attenuation();
        if self.params.range.is_bipolar() {
            attenuate_bipolar(wave, att)
        } else {
            attenuate(wave, att)
        }
    }

    /// The state after the output was set.
    pub open spec fn put_out(self, pos: int, tables: Tables) -> LfoPlus {
        LfoPlus {
            restart: false,
            last_out: if self.params.midi_out.any() {
                self.value(pos, tables)
            } else {
                self.last_out
            },
            ..self
        }
    }

    /// The LEDs for a value: the value and the mute of the input, or the
    /// attenuation and what the input is assigned to.
    pub open spec fn leds(self, value: u16) -> Seq<Action> {
        let color = wave_color(self.storage.wave);
        match self.latch_layer {
            LatchLayer::Main => {
                let levels = if self.bipolar() {
                    let halves = unsigned_halves(value as int);
                    (halves.0 as u8, halves.1 as u8)
                } else {
                    (level_byte(value as int), 0u8)
                };
                seq![
                    led_set(self.second(), Led::Top, color, Brightness::Custom(levels.0)),
                    led_set(self.second(), Led::Bottom, color, Brightness::Custom(levels.1)),
                    self.input_led(),
                ]
            },
            LatchLayer::Alt => seq![
                led_set(
                    self.second(),
                    Led::Top,
                    Color::Red,
                    Brightness::Custom((self.attenuation() / 32) as u8),
                ),
                led_unset(self.second(), Led::Bottom),
                led_set(
                    self.start_channel,
                    Led::Button,
                    dest_color(self.storage.dest),
                    Brightness::Mid,
                ),
            ],
            LatchLayer::Third => Seq::empty(),
        }
    }

    /// The LEDs of the input.
    pub open spec fn input_leds(self) -> Seq<Action> {
        let halves = unsigned_halves(self.in_val as int);
        let color = self.params.color_in;
        seq![
            led_set(self.start_channel, Led::Top, color, Brightness::Custom(halves.0 as u8)),
            led_set(self.start_channel, Led::Bottom, color, Brightness::Custom(halves.1 as u8)),
        ]
    }

    /// The LEDs at a position and a level of the output. In step with the clock the
    /// button dims in the second half.
    pub open spec fn panel(self, pos: int, value: u16) -> Seq<Action> {
        seq![
            self.wave_led(
                self.storage.wave,
                if self.storage.clocked && pos > 2048 {
                    Brightness::Low
                } else {
                    Brightness::Mid
                },
            ),
        ] + self.leds(value) + self.input_leds()
    }

    /// What setting the output sets off: the voltage, the controller where it has
    /// moved by a step of 32, and the LEDs.
    pub open spec fn out_actions(self, pos: int, tables: Tables) -> Seq<Action> {
        let value = self.value(pos, tables);
        seq![self.output(value)] + (if self.params.midi_out.any() && self.last_out / 32 != value
            / 32 {
            seq![self.midi().cc(self.params.midi_cc, value)]
        } else {
            Seq::empty()
        }) + self.panel(pos, value)
    }

    fn push_leds(&self, value: u16, actions: &mut Vec<Action>)
        requires
            self.wf(),
        ensures
            final(actions)@ == old(actions)@ + self.leds(value),
    {
        let leds = Leds::<2>::new(self.start_channel);
        match self.latch_layer {
            LatchLayer::Main => {
                let color = get_color_for(self.storage.wave);
                let levels: [u8; 2] = if self.params.range.is_bipolar() {
                    split_unsigned_value(value)
                } else {
                    [byte_level(value), 0]
                };
                actions.push(leds.set(1, Led::Top, color, Brightness::Custom(levels[0])));
                actions.push(leds.set(1, Led::Bottom, color, Brightness::Custom(levels[1])));
                actions.push(self.show_input());
            },
            LatchLayer::Alt => {
                let level: u8 = (self.find_attenuation() / 32) as u8;
                actions.push(leds.set(1, Led::Top, Color::Red, Brightness::Custom(level)));
                actions.push(leds.unset(1, Led::Bottom));
                let color = match self.storage.dest {
                    0 => Color::Yellow,
                    1 => Color::Pink,
                    2 => Color::Cyan,
                    3 => Color::Red,
                    _ => Color::Yellow,
                };
                actions.push(leds.set(0, Led::Button, color, Brightness::Mid));
            },
            LatchLayer::Third => {},
        }
    }

    fn push_input_leds(&self, actions: &mut Vec<Action>)
        requires
            self.wf(),
        ensures
            final(actions)@ == old(actions)@ + self.input_leds(),
    {
        let leds = Leds::<2>::new(self.start_channel);
        let color = self.params.color_in;
        let levels = split_unsigned_value(self.in_val);
        actions.push(leds.set(0, Led::Top, color, Brightness::Custom(levels[0])));
        actions.push(leds.set(0, Led::Bottom, color, Brightness::Custom(levels[1])));
    }

    fn push_panel(&self, pos: i16, value: u16, actions: &mut Vec<Action>)
        requires
            self.wf(),
        ensures
            final(actions)@ == old(actions)@ + self.panel(pos as int, value),
    {
        if self.storage.clocked && pos > 2048 {
            actions.push(self.show_wave(Brightness::Low));
        } else {
            actions.push(self.show_wave(Brightness::Mid));
        }
        self.push_leds(value, actions);
        self.push_input_leds(actions);
    }

    /// The oscillator has moved to a position: the output is set.
    pub fn put(&mut self, pos: i16, tables: &Tables) -> (r: Vec<Action>)
        requires
            old(self).wf(),
            tables.wf(),
            -4096 < pos < 4096,
        ensures
            *final(self) == old(self).put_out(pos as int, *tables),
            final(self).wf(),
            r@ == old(self).out_actions(pos as int, *tables),
    {
        let val: u16 = self.find_value(pos, tables);
        let mut actions: Vec<Action> = Vec::new();
        actions.push(OutJack::new(self.start_channel + 1, self.params.range).set_value(val));
        if self.params.midi_out.is_some() {
            if self.last_out / 32 != val / 32 {
                actions.push(self.midi_port().send_cc(self.params.midi_cc, val));
            }
            self.last_out = val;
        }
        self.push_panel(pos, val, &mut actions);
        self.restart = false;
        actions
    }

    /// The stored value that a fader edits: the first one the attenuation of the
    /// input, the second one the speed or the attenuation.
    pub open spec fn fader_target(self, chan: int) -> u16 {
        if chan == 0 {
            match self.latch_layer {
                LatchLayer::Main => self.storage.in_att,
                _ => 0,
            }
        } else {
            match self.latch_layer {
                LatchLayer::Main => self.storage.layer_speed,
                LatchLayer::Alt => self.storage.layer_attenuation,
                LatchLayer::Third => 0,
            }
        }
    }

    /// The storage with a value of a fader.
    pub open spec fn edited(self, chan: int, value: u16) -> Storage {
        if chan == 0 {
            match self.latch_layer {
                LatchLayer::Main => Storage { in_att: value, ..self.storage },
                _ => self.storage,
            }
        } else {
            match self.latch_layer {
                LatchLayer::Main => Storage { layer_speed: value, ..self.storage },
                LatchLayer::Alt => Storage { layer_attenuation: value, ..self.storage },
                LatchLayer::Third => self.storage,
            }
        }
    }

    /// The state after a fader was moved.
    pub open spec fn fader_moved(self, chan: int, value: u16) -> LfoPlus {
        let latch = self.latch[chan];
        let target = self.fader_target(chan);
        LfoPlus {
            latch: spec_array_update(
                self.latch,
                chan,
                latch.updated(value, self.latch_layer, target),
            ),
            storage: match latch.emits(value, self.latch_layer, target) {
                Some(new_value) => self.edited(chan, new_value),
                None => self.storage,
            },
            ..self
        }
    }

    /// A fader that changes a value asks for it to be saved.
    pub open spec fn fader_actions(self, chan: int, value: u16) -> Seq<Action> {
        if self.latch[chan].emits(value, self.latch_layer, self.fader_target(chan)) is Some && (
        self.latch_layer == LatchLayer::Main || (chan == 1 && self.latch_layer == LatchLayer::Alt)) {
            seq![Action::Save]
        } else {
            Seq::empty()
        }
    }

    /// A fader was moved.
    pub fn fader_handler(&mut self, chan: usize, value: u16) -> (r: Vec<Action>)
        requires
            old(self).wf(),
            chan < 2,
        ensures
            *final(self) == old(self).fader_moved(chan as int, value),
            final(self).wf(),
            r@ == old(self).fader_actions(chan as int, value),
    {
        let mut actions: Vec<Action> = Vec::new();
        let layer = self.latch_layer;
        let target: u16 = if chan == 0 {
            match layer {
                LatchLayer::Main => self.storage.in_att,
                _ => 0,
            }
        } else {
            match layer {
                LatchLayer::Main => self.storage.layer_speed,
                LatchLayer::Alt => self.storage.layer_attenuation,
                LatchLayer::Third => 0,
            }
        };
        let mut latch = self.latch[chan];
        let emitted = latch.update(value, layer, target);
        self.latch[chan] = latch;
        if let Some(new_value) = emitted {
            match layer {
                LatchLayer::Main => {
                    if chan == 0 {
                        self.storage.in_att = new_value;
                    } else {
                        self.storage.layer_speed = new_value;
                    }
                    actions.push(Action::Save);
                },
                LatchLayer::Alt => {
                    if chan == 1 {
                        self.storage.layer_attenuation = new_value;
                        actions.push(Action::Save);
                    }
                },
                LatchLayer::Third => {},
            }
        }
        actions
    }

    /// The state after a button was pressed: the first one mutes the input, and
    /// with shift assigns it; the second one takes the next waveform, and with
    /// shift starts the oscillator over.
    pub open spec fn pressed(self, chan: int, shift: bool) -> LfoPlus {
        if chan == 0 && !shift {
            LfoPlus {
                storage: Storage { in_mute: !self.storage.in_mute, ..self.storage },
                ..self
            }
        } else if chan == 0 {
            LfoPlus {
                storage: Storage { dest: ((self.storage.dest + 1) % 4) as usize, ..self.storage },
                ..self
            }
        } else if chan == 1 && !shift {
            LfoPlus { storage: Storage { wave: self.storage.wave.next(), ..self.storage }, ..self }
        } else if chan == 1 {
            LfoPlus { restart: true, ..self }
        } else {
            self
        }
    }

    /// What a pressed button sets off.
    pub open spec fn press_actions(self, chan: int, shift: bool) -> Seq<Action> {
        if chan == 0 {
            seq![Action::Save]
        } else if chan == 1 && !shift {
            seq![Action::Save, self.wave_led(self.storage.wave.next(), Brightness::Mid)]
        } else {
            Seq::empty()
        }
    }

    /// A button was pressed.
    pub fn button_handler(&mut self, chan: usize, shift: bool) -> (r: Vec<Action>)
        requires
            old(self).wf(),
        ensures
            *final(self) == old(self).pressed(chan as int, shift),
            final(self).wf(),
            r@ == old(self).press_actions(chan as int, shift),
    {
        let mut actions: Vec<Action> = Vec::new();
        if !shift {
            if chan == 0 {
                self.storage.in_mute = !self.storage.in_mute;
                actions.push(Action::Save);
            }
            if chan == 1 {
                self.storage.wave = self.storage.wave.cycle();
                actions.push(Action::Save);
                actions.push(self.show_wave(Brightness::Mid));
            }
        } else {
            if chan == 0 {
                self.storage.dest = (self.storage.dest + 1) % 4;
                actions.push(Action::Save);
            }
            if chan == 1 {
                self.restart = true;
            }
        }
        actions
    }

    /// The state after a button was pressed for long: the second one with shift
    /// puts the oscillator in step with the clock, or no longer.
    pub open spec fn held(self, chan: int, shift: bool) -> LfoPlus {
        if chan == 1 && shift {
            LfoPlus {
                storage: Storage { clocked: !self.storage.clocked, ..self.storage },
                ..self
            }
        } else {
            self
        }
    }

    /// What a long press sets off: four flashes when the oscillator goes in step.
    pub open spec fn hold_actions(self, chan: int, shift: bool) -> Seq<Action> {
        if !(chan == 1 && shift) {
            Seq::empty()
        } else if self.storage.clocked {
            seq![Action::Save]
        } else {
            seq![
                Action::Save,
                led_mode(
                    self.second(),
                    Led::Button,
                    LedMode::Flash(wave_color(self.storage.wave), Some(4)),
                ),
            ]
        }
    }

    /// A button was pressed for long.
    pub fn long_press_handler(&mut self, chan: usize, shift: bool) -> (r: Vec<Action>)
        requires
            old(self).wf(),
        ensures
            *final(self) == old(self).held(chan as int, shift),
            final(self).wf(),
            r@ == old(self).hold_actions(chan as int, shift),
    {
        let mut actions: Vec<Action> = Vec::new();
        if chan == 1 && shift {
            self.storage.clocked = !self.storage.clocked;
            actions.push(Action::Save);
            if self.storage.clocked {
                let color = get_color_for(self.storage.wave);
                let leds = Leds::<2>::new(self.start_channel);
                actions.push(leds.set_mode(1, Led::Button, LedMode::Flash(color, Some(4))));
            }
        }
        actions
    }

    /// The state after an event of the clock: a quarter note is noted, a reset
    /// starts the oscillator over.
    pub open spec fn clocked(self, event: ClockEvent) -> LfoPlus {
        match event {
            ClockEvent::Tick => LfoPlus { tick: true, ..self },
            ClockEvent::Reset => LfoPlus { restart: true, ..self },
            _ => self,
        }
    }

    /// An event of the clock.
    pub fn clock_handler(&mut self, event: ClockEvent)
        requires
            old(self).wf(),
        ensures
            *final(self) == old(self).clocked(event),
            final(self).wf(),
    {
        match event {
            ClockEvent::Tick => {
                self.tick = true;
            },
            ClockEvent::Reset => {
                self.restart = true;
            },
            _ => {},
        }
    }

    /// The state after a scene was loaded into the storage.
    pub open spec fn loaded(self, storage: Storage, tables: Tables) -> LfoPlus {
        LfoPlus {
            storage,
            rate: tables.curve(Curve::Exponential, storage.layer_speed as int) as i32,
            ..self
        }
    }

    /// A scene was loaded into the storage.
    pub fn load_scene(&mut self, storage: Storage, tables: &Tables) -> (r: Vec<Action>)
        requires
            old(self).wf(),
            storage.wf(),
            tables.wf(),
        ensures
            *final(self) == old(self).loaded(storage, *tables),
            final(self).wf(),
            r@ == seq![old(self).wave_led(storage.wave, Brightness::Mid)],
    {
        self.storage = storage;
        self.rate = tables.curve_at(Curve::Exponential, storage.layer_speed) as i32;
        vec![self.show_wave(Brightness::Mid)]
    }

    /// Whether an event brings what the hardware can bring.
    pub open spec fn admits(event: Event) -> bool {
        match event {
            Event::Output { pos } => -4096 < pos < 4096,
            Event::Fader { chan, .. } => chan < 2,
            Event::LoadScene(storage) => storage.wf(),
            _ => true,
        }
    }

    /// The state after an event.
    pub open spec fn after(self, event: Event, tables: Tables) -> LfoPlus {
        match event {
            Event::Millisecond { shift, raw } => self.waited(shift, raw, tables),
            Event::Output { pos } => self.put_out(pos as int, tables),
            Event::Fader { chan, value } => self.fader_moved(chan as int, value),
            Event::Down { chan, shift } => self.pressed(chan as int, shift),
            Event::LongPress { chan, shift } => self.held(chan as int, shift),
            Event::Clock(event) => self.clocked(event),
            Event::LoadScene(storage) => self.loaded(storage, tables),
            Event::SaveScene(_) => self,
        }
    }

    /// What an event sets off.
    pub open spec fn does(self, event: Event, tables: Tables) -> Seq<Action> {
        match event {
            Event::Millisecond { .. } => Seq::empty(),
            Event::Output { pos } => self.out_actions(pos as int, tables),
            Event::Fader { chan, value } => self.fader_actions(chan as int, value),
            Event::Down { chan, shift } => self.press_actions(chan as int, shift),
            Event::LongPress { chan, shift } => self.hold_actions(chan as int, shift),
            Event::Clock(_) => Seq::empty(),
            Event::LoadScene(storage) => seq![self.wave_led(storage.wave, Brightness::Mid)],
            Event::SaveScene(scene) => seq![Action::SaveScene(scene)],
        }
    }

    /// Handles an event.
    pub fn run(&mut self, event: Event, tables: &Tables) -> (r: Vec<Action>)
        requires
            old(self).wf(),
            LfoPlus::admits(event),
            tables.wf(),
        ensures
            *final(self) == old(self).after(event, *tables),
            final(self).wf(),
            r@ == old(self).does(event, *tables),
    {
        match event {
            Event::Millisecond { shift, raw } => {
                self.advance(shift, raw, tables);
                Vec::new()
            },
            Event::Output { pos } => self.put(pos, tables),
            Event::Fader { chan, value } => self.fader_handler(chan, value),
            Event::Down { chan, shift } => self.button_handler(chan, shift),
            Event::LongPress { chan, shift } => self.long_press_handler(chan, shift),
            Event::Clock(event) => {
                self.clock_handler(event);
                Vec::new()
            },
            Event::LoadScene(storage) => self.load_scene(storage, tables),
            Event::SaveScene(scene) => vec![Action::SaveScene(scene)],
        }
    }
}

/// The input at its middle moves nothing: neither the speed, nor the phase, nor
/// the amplitude.
pub proof fn law_input_middle_is_neutral(app: LfoPlus, pos: int, tables: Tables)
    requires
        app.in_val == 2047,
        app.storage.layer_attenuation <= 4095,
        0 <= pos <= 4095,
    ensures
        app.sped(2047, tables).rate == tables.curve(
            Curve::Exponential,
            app.storage.layer_speed as int,
        ),
        app.phase(pos) == pos,
        app.attenuation() == app.storage.layer_attenuation,
{
}

/// Four assignments of the input come back to the first.
pub proof fn law_destinations_cycle(app: LfoPlus)
    requires
        app.storage.dest < 4,
    ensures
        app.pressed(0, true).pressed(0, true).pressed(0, true).pressed(0, true) == app,
{
}

/// The input goes both ways from the middle, at its own attenuation; muted it rests
/// in the middle. Assigned to the speed it moves the speed up and down, assigned to
/// the start its rise through the trigger level starts the oscillator over, and
/// elsewhere it does neither.
pub proof fn law_input_is_read(app: LfoPlus, shift: bool, raw: u16, tables: Tables)
    requires
        app.wf(),
        tables.wf(),
        raw <= 4095,
        app.storage.in_att <= 4095,
        app.storage.layer_speed <= 4095,
    ensures
        ({
            let after = app.after(Event::Millisecond { shift, raw }, tables);
            let att = app.storage.in_att;
            let plain = tables.exponential@[app.storage.layer_speed as int] as int;
            let moved = app.storage.layer_speed + after.in_val - 2047;
            &&& app.storage.in_mute ==> after.in_val == 2047
            &&& !app.storage.in_mute && raw >= 2048 ==> 4095 * (after.in_val - 2048) <= (raw - 2048)
                * att < 4095 * (after.in_val - 2048) + 4095
            &&& !app.storage.in_mute && raw < 2048 ==> 4095 * (2048 - after.in_val) <= (2048 - raw)
                * att < 4095 * (2048 - after.in_val) + 4095
            &&& app.storage.dest == 0 ==> after.rate == plain + after.in_val - 2047
            &&& app.storage.dest == 0 && 0 <= moved <= 4095 ==> after.speed_div == round_of(moved)
            &&& app.storage.dest != 0 ==> after.rate == plain && after.speed_div == round_of(
                app.storage.layer_speed as int,
            )
            &&& app.storage.dest == 3 ==> after.restart == (app.restart || (app.oldinputval < 2458
                && after.in_val >= 2458)) && after.oldinputval == after.in_val
            &&& app.storage.dest != 3 ==> after.restart == app.restart
            &&& after.latch_layer == (if shift {
                LatchLayer::Alt
            } else {
                LatchLayer::Main
            })
            &&& after.storage == app.storage
        }),
{
    let att = app.storage.in_att as int;
    crate::apps::parts::law_levels_scale_from_rest(raw as int, att);
    crate::utils::law_attenuate_bipolar_ends(raw as int, att);
}

/// Assigned to the phase the input moves the position by up to half a round either
/// way, assigned to the amplitude it moves the attenuation, within 12 bits.
pub proof fn law_input_moves_phase_and_amplitude(app: LfoPlus, pos: int)
    requires
        app.wf(),
        -4096 < pos < 4096,
        app.storage.layer_attenuation <= 4095,
    ensures
        ({
            let deviation = 2 * (app.in_val - 2047);
            let moved = app.storage.layer_attenuation + deviation;
            &&& 0 <= app.phase(pos) < 4096
            &&& app.storage.dest == 1 ==> (app.phase(pos) - pos - deviation) % 4096 == 0
            &&& app.storage.dest != 1 ==> (app.phase(pos) - pos) % 4096 == 0
            &&& app.storage.dest == 2 && moved < 0 ==> app.attenuation() == 0
            &&& app.storage.dest == 2 && moved > 4095 ==> app.attenuation() == 4095
            &&& app.storage.dest == 2 && 0 <= moved <= 4095 ==> app.attenuation() == moved
            &&& app.storage.dest != 2 ==> app.attenuation() == app.storage.layer_attenuation
        }),
{
}

/// The output is the waveform's value at the phase, at the attenuation, from the
/// bottom on, or from the middle on where the range goes both ways; at full
/// attenuation the table's value itself. The controller follows in steps of 32
/// where there is an output for it.
pub proof fn law_output_is_the_wave(app: LfoPlus, pos: i16, tables: Tables)
    requires
        app.wf(),
        tables.wf(),
        -4096 < pos < 4096,
        app.params.range != Range::_0_5V,
    ensures
        ({
            let event = Event::Output { pos };
            let at = app.phase(pos as int);
            let wave = match app.storage.wave {
                Waveform::Triangle => tables.triangle@[at],
                Waveform::Saw => tables.saw@[at],
                Waveform::SawInv => tables.saw_inv@[at],
                Waveform::Square => tables.square@[at],
                Waveform::Sine => tables.sine@[at],
            };
            let att = app.attenuation();
            let actions = app.does(event, tables);
            let after = app.after(event, tables);
            let out = actions[0];
            let sends = app.params.midi_out.usb || app.params.midi_out.out1
                || app.params.midi_out.out2;
            &&& out matches Action::Dac { channel, value } && channel == app.start_channel + 1
                && value <= 4095 && (att == 4095 ==> value == wave) && (app.params.range
                == Range::_0_10V ==> 4095 * value <= wave * att < 4095 * value + 4095) && (
            app.params.range == Range::_Neg5_5V && wave >= 2048 ==> 4095 * (value - 2048) <= (wave
                - 2048) * att < 4095 * (value - 2048) + 4095) && (app.params.range
                == Range::_Neg5_5V && wave < 2048 ==> 4095 * (2048 - value) <= (2048 - wave) * att
                < 4095 * (2048 - value) + 4095)
            &&& sends ==> after.last_out == out->Dac_value
            &&& sends && app.last_out / 32 != after.last_out / 32 ==> actions[1] == app.midi().cc(
                app.params.midi_cc,
                after.last_out,
            )
            &&& !sends || app.last_out / 32 == after.last_out / 32 ==> forall|i: int|
                0 <= i < actions.len() ==> !(#[trigger] actions[i] is Midi)
            &&& !after.restart
            &&& after.storage == app.storage
        }),
{
    lemma_value_is_scaled(app, pos, tables);
    assert(app.does(Event::Output { pos }, tables)[0] == app.output(
        app.value(pos as int, tables),
    ));
}

proof fn lemma_value_is_scaled(app: LfoPlus, pos: i16, tables: Tables)
    requires
        app.wf(),
        tables.wf(),
        -4096 < pos < 4096,
        app.params.range != Range::_0_5V,
    ensures
        ({
            let wave = tables.wave(app.storage.wave, app.phase(pos as int)) as int;
            let att = app.attenuation();
            let value = app.value(pos as int, tables);
            &&& value <= 4095
            &&& att == 4095 ==> value == wave
            &&& app.params.range == Range::_0_10V ==> 4095 * value <= wave * att < 4095 * value
                + 4095
            &&& app.params.range == Range::_Neg5_5V && wave >= 2048 ==> 4095 * (value - 2048) <= (
            wave - 2048) * att < 4095 * (value - 2048) + 4095
            &&& app.params.range == Range::_Neg5_5V && wave < 2048 ==> 4095 * (2048 - value) <= (
            2048 - wave) * att < 4095 * (2048 - value) + 4095
        }),
{
    reveal(LfoPlus::value);
    let wave = tables.wave(app.storage.wave, app.phase(pos as int)) as int;
    let att = app.attenuation();
    assert(0 <= wave <= 4095);
    crate::apps::parts::law_levels_scale_from_rest(wave, att);
    crate::utils::law_attenuate_ends(wave, att);
}

/// The position follows from the rate, the clock and the divisor as they are, and
/// the milliseconds between two quarter notes become the speed in step with the
/// clock with the next one.
pub proof fn law_motion_follows_clock(app: LfoPlus, shift: bool, raw: u16, tables: Tables)
    requires
        app.wf(),
        0 <= app.count < i32::MAX,
    ensures
        ({
            let after = app.after(Event::Millisecond { shift, raw }, tables);
            &&& !app.tick ==> after.count == app.count + 1 && after.quarter == app.quarter
            &&& app.tick ==> after.count == 0 && !after.tick && after.quarter == app.count + 1
            &&& after.speed_count == app.quarter
        }),
        app.moving().restart == app.restart,
        app.moving().sync == app.storage.clocked,
        app.moving().rate == app.rate,
        app.speed_count >= 1 ==> app.moving().count == app.speed_count,
        app.speed_count < 1 ==> app.moving().count == 1,
        app.moving().div == app.speed_div,
        app.params.speed_mult == 0 ==> app.moving().mult == 1,
        app.after(Event::Clock(ClockEvent::Tick), tables) == (LfoPlus { tick: true, ..app }),
        app.after(Event::Clock(ClockEvent::Reset), tables) == (LfoPlus { restart: true, ..app }),
        app.after(Event::Clock(ClockEvent::Start), tables) == app,
        app.after(Event::Clock(ClockEvent::Stop), tables) == app,
{
    vstd::arithmetic::power2::lemma2_to64();
}

/// A fader that has a value to give stores it and asks for it to be saved: the
/// first one as the attenuation of the input, the second one as the speed, or with
/// shift as the attenuation.
pub proof fn law_faders_store_their_values(
    app: LfoPlus,
    chan: usize,
    value: u16,
    tables: Tables,
)
    requires
        app.wf(),
        chan < 2,
        app.latch_layer == LatchLayer::Main || (chan == 1 && app.latch_layer == LatchLayer::Alt),
    ensures
        ({
            let at = chan as int;
            let main = app.latch_layer == LatchLayer::Main;
            let target = if chan == 0 {
                app.storage.in_att
            } else if main {
                app.storage.layer_speed
            } else {
                app.storage.layer_attenuation
            };
            let event = Event::Fader { chan, value };
            let after = app.after(event, tables);
            let emitted = app.latch[at].emits(value, app.latch_layer, target);
            &&& emitted is None ==> after.storage == app.storage && app.does(event, tables).len()
                == 0
            &&& emitted matches Some(v) ==> {
                &&& app.does(event, tables) == seq![Action::Save]
                &&& chan == 0 ==> after.storage == (Storage { in_att: v, ..app.storage })
                &&& chan == 1 && main ==> after.storage == (Storage {
                    layer_speed: v,
                    ..app.storage
                })
                &&& chan == 1 && !main ==> after.storage == (Storage {
                    layer_attenuation: v,
                    ..app.storage
                })
            }
            &&& after.latch[at] == app.latch[at].updated(value, app.latch_layer, target)
        }),
{
}

/// The first button mutes the input, or assigns it to the next of four with shift;
/// the second one steps the waveform, or starts the oscillator over with shift, and
/// held for long with shift takes it in step with the clock, or out of it.
pub proof fn law_buttons(app: LfoPlus, tables: Tables)
    requires
        app.wf(),
    ensures
        app.after(Event::Down { chan: 0, shift: false }, tables).storage == (Storage {
            in_mute: !app.storage.in_mute,
            ..app.storage
        }),
        app.storage.dest < 3 ==> app.after(
            Event::Down { chan: 0, shift: true },
            tables,
        ).storage.dest == app.storage.dest + 1,
        app.storage.dest == 3 ==> app.after(
            Event::Down { chan: 0, shift: true },
            tables,
        ).storage.dest == 0,
        app.after(Event::Down { chan: 1, shift: false }, tables).storage == (Storage {
            wave: match app.storage.wave {
                Waveform::Sine => Waveform::Triangle,
                Waveform::Triangle => Waveform::Saw,
                Waveform::Saw => Waveform::SawInv,
                Waveform::SawInv => Waveform::Square,
                Waveform::Square => Waveform::Sine,
            },
            ..app.storage
        }),
        app.after(Event::Down { chan: 1, shift: true }, tables) == (LfoPlus {
            restart: true,
            ..app
        }),
        app.after(Event::LongPress { chan: 1, shift: true }, tables).storage == (Storage {
            clocked: !app.storage.clocked,
            ..app.storage
        }),
        app.after(Event::LongPress { chan: 0, shift: true }, tables) == app,
        app.after(Event::LongPress { chan: 1, shift: false }, tables) == app,
        app.does(Event::Down { chan: 0, shift: false }, tables) == seq![Action::Save],
        app.does(Event::Down { chan: 0, shift: true }, tables) == seq![Action::Save],
        app.does(Event::Down { chan: 1, shift: false }, tables)[0] == Action::Save,
        app.does(Event::LongPress { chan: 1, shift: true }, tables)[0] == Action::Save,
{
}

/// A scene brings its settings and the rate of its speed, as the start does.
pub proof fn law_scenes_bring_speed(
    app: LfoPlus,
    storage: Storage,
    unit: App<2>,
    params: Params,
    faders: [u16; 2],
    takeover: TakeoverMode,
    tables: Tables,
)
    requires
        tables.wf(),
        storage.layer_speed <= 4095,
    ensures
        ({
            let loaded = app.after(Event::LoadScene(storage), tables);
            let started = LfoPlus::started(unit, params, storage, faders, takeover, tables);
            &&& loaded.storage == storage && started.storage == storage
            &&& loaded.rate == tables.exponential@[storage.layer_speed as int]
            &&& started.rate == tables.exponential@[storage.layer_speed as int]
            &&& started.restart
        }),
{
}

/// The second channel shows the value in the color of the wave, above and below the
/// middle on a bipolar range, and the first one the input; with shift they show the
/// attenuation in red, by 32 counts a step, and the destination. The button is
/// dimmer in the second half of a clocked wave.
pub proof fn law_wave_is_shown(app: LfoPlus, pos: u16, value: u16)
    requires
        app.wf(),
        pos <= 4095,
    ensures
        ({
            let panel = app.panel(pos as int, value);
            let first = app.start_channel;
            let second = (app.start_channel + 1) as usize;
            let color = wave_color(app.storage.wave);
            let input = app.params.color_in;
            let (above, below) = unsigned_halves(value as int);
            let in_val = unsigned_halves(app.in_val as int);
            let n = panel.len();
            let bipolar = app.bipolar();
            &&& panel[0] == led_set(
                second,
                Led::Button,
                color,
                if app.storage.clocked && pos > 2048 {
                    Brightness::Low
                } else {
                    Brightness::Mid
                },
            )
            &&& panel[n - 2] == led_set(first, Led::Top, input, Brightness::Custom(in_val.0 as u8))
            &&& panel[n - 1] == led_set(
                first,
                Led::Bottom,
                input,
                Brightness::Custom(in_val.1 as u8),
            )
            &&& match app.latch_layer {
                LatchLayer::Main => {
                    &&& n == 6
                    &&& bipolar ==> panel[1] == led_set(
                        second,
                        Led::Top,
                        color,
                        Brightness::Custom(above as u8),
                    ) && panel[2] == led_set(
                        second,
                        Led::Bottom,
                        color,
                        Brightness::Custom(below as u8),
                    )
                    &&& !bipolar ==> panel[1] == led_set(
                        second,
                        Led::Top,
                        color,
                        Brightness::Custom(level_byte(value as int)),
                    ) && panel[2] == led_set(second, Led::Bottom, color, Brightness::Custom(0))
                    &&& panel[3] == (if app.storage.in_mute {
                        led_unset(first, Led::Button)
                    } else {
                        led_set(first, Led::Button, input, Brightness::Mid)
                    })
                },
                LatchLayer::Alt => {
                    &&& n == 6
                    &&& panel[1] matches Action::Led {
                        channel,
                        led: Led::Top,
                        msg: crate::tasks::leds::LedMsg::Mode(
                            crate::tasks::leds::LedMode::Static(Color::Red, Brightness::Custom(level)),
                        ),
                    } && channel == second && (0 <= app.attenuation() <= 4095 ==> 32 * level
                        <= app.attenuation() < 32 * level + 32)
                    &&& panel[2] == led_unset(second, Led::Bottom)
                    &&& panel[3] == led_set(
                        first,
                        Led::Button,
                        dest_color(app.storage.dest),
                        Brightness::Mid,
                    )
                },
                LatchLayer::Third => n == 3,
            }
        }),
{
}

/// Taking the clock on makes the second button flash four times in the color of the
/// wave, and a new wave is shown.
pub proof fn law_clock_and_wave_are_shown(app: LfoPlus, storage: Storage, tables: Tables)
    ensures
        ({
            let hold = app.does(Event::LongPress { chan: 1, shift: true }, tables);
            let second = (app.start_channel + 1) as usize;
            let wave = match app.storage.wave {
                Waveform::Triangle => Waveform::Saw,
                Waveform::Saw => Waveform::SawInv,
                Waveform::SawInv => Waveform::Square,
                Waveform::Square => Waveform::Sine,
                Waveform::Sine => Waveform::Triangle,
            };
            &&& !app.storage.clocked ==> hold == seq![
                Action::Save,
                led_mode(
                    second,
                    Led::Button,
                    LedMode::Flash(wave_color(app.storage.wave), Some(4)),
                ),
            ]
            &&& app.storage.clocked ==> hold == seq![Action::Save]
            &&& app.does(Event::Down { chan: 1, shift: false }, tables) == seq![
                Action::Save,
                led_set(second, Led::Button, wave_color(wave), Brightness::Mid),
            ]
            &&& app.does(Event::LoadScene(storage), tables) == seq![
                led_set(second, Led::Button, wave_color(storage.wave), Brightness::Mid),
            ]
        }),
{
}

/// The app starts on what is stored, at the start of its wave, with the input in
/// its middle. Its faders are where they are found.
pub proof fn law_starts_on_storage(
    app: App<2>,
    params: Params,
    storage: Storage,
    faders: [u16; 2],
    takeover: TakeoverMode,
    tables: Tables,
)
    ensures
        ({
            let s = LfoPlus::started(app, params, storage, faders, takeover, tables);
            &&& s.start_channel == app.start_channel && s.params == params && s.storage == storage
            &&& s.latch_layer == LatchLayer::Main
            &&& s.latch[0] == AnalogLatch::initial(faders[0], 25, takeover)
            &&& s.latch[1] == AnalogLatch::initial(faders[1], 25, takeover)
            &&& s.restart && !s.tick
            &&& s.quarter == 1 && s.speed_count == 1 && s.count == 0 && s.last_out == 0
            &&& s.in_val == 2047 && s.oldinputval == 0
            &&& s.rate == tables.curve(Curve::Exponential, storage.layer_speed as int)
            &&& s.speed_div == round_of(storage.layer_speed as int)
        }),
{
}

/// The parameters of a fresh app, and what it has in its storage.
pub proof fn law_fresh_app(start_channel: usize, r: Storage)
    requires
        call_ensures(Storage::default, (), r),
    ensures
        ({
            let p = initial_params(start_channel);
            &&& p.speed_mult == 0
            &&& p.range == Range::_Neg5_5V
            &&& p.midi_out == (MidiOut { usb: false, out1: false, out2: false })
            &&& p.midi_channel == MidiChannel(1)
            &&& p.midi_cc == MidiCc::for_channel(32, start_channel)
            &&& p.color_in == Color::Blue
            &&& !p.nrpn
        }),
        !r.clocked,
        r.layer_attenuation == 4095,
        r.layer_speed == 2000,
        r.wave == Waveform::Sine,
        r.in_att == 4095,
        !r.in_mute,
        r.dest == 0,
{
}

} // verus!
