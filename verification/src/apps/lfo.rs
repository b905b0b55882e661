//! LFO: an oscillator of five shapes, free or in step with the clock.
//!
//! A millisecond is handled in two steps. First the speed is brought up to date;
//! from `motion` the position of the oscillator follows. Then the output is set
//! for that position.
use vstd::prelude::*;

use crate::app::{led_mode, led_set, led_unset, Action, App, Leds, MidiOutput, OutJack, PortMode};
use crate::apps::parts::{byte_level, division, find_division, level_byte};
use crate::latch::{AnalogLatch, LatchLayer, TakeoverMode};
use crate::storage::{values_new, values_push, AppParams, AppStorage, ManagedStorage, ParamStore};
use crate::tables::Tables;
use crate::tasks::leds::{Led, LedMode};
use crate::types::{
    Brightness, ClockEvent, Color, Curve, MidiCc, MidiChannel, MidiOut, ParamValue, Range, Value,
    Waveform,
};
use crate::utils::{
    attenuate, attenuate_bipolar, attenuated, attenuated_bipolar, split_unsigned_value,
    unsigned_halves,
};

verus! {

pub const CHANNELS: usize = 1;

pub const PARAMS: usize = 6;

/// The parameters of the app.
#[derive(Clone, Copy, Debug, PartialEq, Eq, Structural)]
pub struct Params {
    pub speed_mult: usize,
    pub range: Range,
    pub midi_out: MidiOut,
    pub midi_channel: MidiChannel,
    pub midi_cc: MidiCc,
    pub nrpn: bool,
}

impl AppParams for Params {
    open spec fn read(values: Seq<Value>) -> Option<Self> {
        if values.len() < 6 {
            None
        } else {
            Some(
                Params {
                    speed_mult: usize::reads(values[0]),
                    range: Range::reads(values[1]),
                    midi_channel: MidiChannel::reads(values[2]),
                    midi_cc: MidiCc::reads(values[3]),
                    nrpn: bool::reads(values[4]),
                    midi_out: MidiOut::reads(values[5]),
                },
            )
        }
    }

    open spec fn listing(self) -> Seq<Value> {
        seq![
            self.speed_mult.stored(),
            self.range.stored(),
            self.midi_channel.stored(),
            self.midi_cc.stored(),
            Value::MidiNrpn(self.nrpn),
            self.midi_out.stored(),
        ]
    }

    fn from_values(values: &[Value]) -> (r: Option<Self>) {
        if values.len() < PARAMS {
            return None;
        }
        Some(
            Params {
                speed_mult: usize::from_value(values[0]),
                range: Range::from_value(values[1]),
                midi_channel: MidiChannel::from_value(values[2]),
                midi_cc: MidiCc::from_value(values[3]),
                nrpn: bool::from_value(values[4]),
                midi_out: MidiOut::from_value(values[5]),
            },
        )
    }

    fn to_values(&self) -> (r: heapless::Vec<Value, 16>) {
        let mut vec = values_new();
        let _ = values_push(&mut vec, self.speed_mult.into_value());
        let _ = values_push(&mut vec, self.range.into_value());
        let _ = values_push(&mut vec, self.midi_channel.into_value());
        let _ = values_push(&mut vec, self.midi_cc.into_value());
        let _ = values_push(&mut vec, Value::MidiNrpn(self.nrpn));
        let _ = values_push(&mut vec, self.midi_out.into_value());
        vec
    }

    proof fn law_params_round_trip(self) {
    }
}

/// What the app keeps.
#[derive(Clone, Copy, Debug, PartialEq, Eq, Structural)]
pub struct Storage {
    pub clocked: bool,
    pub layer_attenuation: u16,
    pub layer_speed: u16,
    pub wave: Waveform,
}

impl Default for Storage {
    fn default() -> (r: Self)
        ensures
            r == (Storage {
                clocked: false,
                layer_attenuation: 4095,
                layer_speed: 2000,
                wave: Waveform::Sine,
            }),
    {
        Storage {
            clocked: false,
            layer_attenuation: 4095,
            layer_speed: 2000,
            wave: Waveform::Sine,
        }
    }
}

impl AppStorage for Storage {

}

/// The parameters that the app starts with: the controller of its channel, and no MIDI output.
pub open spec fn initial_params(start_channel: usize) -> Params {
    Params {
        speed_mult: 0,
        range: Range::_Neg5_5V,
        midi_out: MidiOut { usb: false, out1: false, out2: false },
        midi_channel: MidiChannel(1),
        midi_cc: MidiCc::for_channel(32, start_channel),
        nrpn: false,
    }
}

/// The parameters and the storage of the app, before anything was loaded.
pub fn wrapper(app: App<1>) -> (r: (ParamStore<Params>, ManagedStorage<Storage>))
    ensures
        r.0 == (ParamStore {
            app_id: app.app_id,
            inner: initial_params(app.start_channel),
            layout_id: app.layout_id,
        }),
        r.1.app_id == app.app_id,
        r.1.layout_id == app.layout_id,
        call_ensures(Storage::default, (), r.1.inner),
{
    (
        ParamStore::new(
            app.app_id,
            app.layout_id,
            Params {
                speed_mult: 0,
                range: Range::_Neg5_5V,
                midi_out: MidiOut { usb: false, out1: false, out2: false },
                midi_channel: MidiChannel::default(),
                midi_cc: MidiCc::of_channel(32, app.start_channel),
                nrpn: false,
            },
        ),
        ManagedStorage::new(app.app_id, app.layout_id),
    )
}

/// The color of a waveform.
pub open spec fn wave_color(wave: Waveform) -> Color {
    match wave {
        Waveform::Sine => Color::Yellow,
        Waveform::Triangle => Color::Pink,
        Waveform::Saw => Color::Cyan,
        Waveform::SawInv => Color::Red,
        Waveform::Square => Color::White,
    }
}

/// The color of a waveform.
pub fn get_color_for(wave: Waveform) -> (r: Color)
    ensures
        r == wave_color(wave),
{
    match wave {
        Waveform::Sine => Color::Yellow,
        Waveform::Triangle => Color::Pink,
        Waveform::Saw => Color::Cyan,
        Waveform::SawInv => Color::Red,
        Waveform::Square => Color::White,
    }
}

/// What the position of an oscillator follows from: whether it starts over,
/// whether it is in step with the clock, its free speed on the curve of the
/// fader, the milliseconds of a quarter note and the ticks of a round, and what
/// both speeds are divided by.
#[derive(Clone, Copy, Debug, PartialEq, Eq, Structural)]
pub struct LfoMotion {
    pub restart: bool,
    pub sync: bool,
    pub rate: i32,
    pub count: i32,
    pub div: u16,
    pub mult: u32,
}

/// What the speeds are divided by: a power of two.
pub open spec fn speed_divisor(setting: usize) -> nat {
    vstd::arithmetic::power2::pow2(
        if setting < 31 {
            setting as nat
        } else {
            31
        },
    )
}

/// What the speeds are divided by: a power of two.
pub fn find_speed_divisor(setting: usize) -> (r: u32)
    ensures
        r == speed_divisor(setting),
{
    let n: u32 = if setting < 31 {
        setting as u32
    } else {
        31
    };
    proof {
        vstd::bits::lemma_u32_pow2_no_overflow(n as nat);
        vstd::bits::lemma_u32_shl_is_mul(1, n);
    }
    1u32 << n
}

/// The ticks of a round, by the position of the fader.
pub open spec fn round_of(speed: int) -> u16 {
    division(
        if speed / 500 < 8 {
            speed / 500
        } else {
            8
        },
    )
}

/// The ticks of a round, by the position of the fader.
pub fn find_round(speed: u16) -> (r: u16)
    ensures
        r == round_of(speed as int),
        6 <= r <= 384,
{
    let index: usize = if speed / 500 < 8 {
        (speed / 500) as usize
    } else {
        8
    };
    find_division(index)
}

/// A count one higher; it goes on from its least number after its greatest.
pub open spec fn counted(count: i32) -> i32 {
    if count == i32::MAX {
        i32::MIN
    } else {
        (count + 1) as i32
    }
}

/// What an event brings.
pub enum Event {
    /// A millisecond has gone by, with the shift button.
    Millisecond { shift: bool },
    /// The oscillator has moved to a position.
    Output { pos: usize },
    /// The fader was moved to a value.
    Fader(u16),
    /// The button was pressed.
    Down { shift: bool },
    /// The button was pressed for long.
    LongPress { shift: bool },
    /// An event of the clock, a tick per quarter note.
    Clock(ClockEvent),
    /// A scene was loaded into the storage.
    LoadScene(Storage),
    /// A scene is to be saved.
    SaveScene(u8),
}

/// The running app. The speed is what was derived from the fader and the last
/// quarter note when either changed.
pub struct Lfo {
    pub start_channel: usize,
    pub params: Params,
    pub storage: Storage,
    pub start_color: Color,
    pub restart: bool,
    pub latch_layer: LatchLayer,
    pub latch: AnalogLatch,
    pub tick: bool,
    pub quarter: i32,
    pub rate: u16,
    pub speed_count: i32,
    pub speed_div: u16,
    pub count: i32,
    pub last_out: u16,
}

impl Lfo {
    pub open spec fn wf(self) -> bool {
        self.start_channel < 16
    }

    pub open spec fn bipolar(self) -> bool {
        self.params.range == Range::_Neg5_5V
    }

    /// The output set to a value.
    pub open spec fn output(self, value: u16) -> Action {
        (OutJack { channel: self.start_channel, range: self.params.range }).valued(value)
    }

    /// The MIDI port.
    pub open spec fn midi(self) -> MidiOutput {
        MidiOutput::port(
            self.start_channel,
            self.params.midi_out,
            self.params.midi_channel,
            self.params.nrpn,
        )
    }

    fn midi_port(&self) -> (r: MidiOutput)
        ensures
            r == self.midi(),
    {
        MidiOutput::new(
            self.params.midi_out,
            self.start_channel,
            self.params.midi_channel.to_wire(),
            self.params.nrpn,
        )
    }

    /// The button in the color of a waveform.
    pub open spec fn wave_led(self, wave: Waveform) -> Action {
        led_set(self.start_channel, Led::Button, wave_color(wave), Brightness::Mid)
    }

    /// The state with the speed brought up to date.
    pub open spec fn sped(self, tables: Tables) -> Lfo {
        Lfo {
            rate: tables.curve(Curve::Exponential, self.storage.layer_speed as int),
            speed_count: self.quarter,
            speed_div: round_of(self.storage.layer_speed as int),
            ..self
        }
    }

    fn update_speed(&mut self, tables: &Tables)
        requires
            old(self).wf(),
            tables.wf(),
        ensures
            *final(self) == old(self).sped(*tables),
            final(self).wf(),
    {
        self.rate = tables.curve_at(Curve::Exponential, self.storage.layer_speed);
        self.speed_count = self.quarter;
        self.speed_div = find_round(self.storage.layer_speed);
    }

    /// The state that the app starts with.
    pub open spec fn started(
        app: App<1>,
        params: Params,
        storage: Storage,
        fader: u16,
        takeover: TakeoverMode,
        tables: Tables,
    ) -> Lfo {
        (Lfo {
            start_channel: app.start_channel,
            params,
            storage,
            start_color: wave_color(storage.wave),
            restart: true,
            latch_layer: LatchLayer::Main,
            latch: AnalogLatch::initial(fader, 25, takeover),
            tick: false,
            quarter: 500,
            rate: 0,
            speed_count: 500,
            speed_div: 24,
            count: 0,
            last_out: 0,
        }).sped(tables)
    }

    /// Starts the app on what is stored.
    pub fn new(
        app: App<1>,
        params: Params,
        storage: Storage,
        fader: u16,
        takeover: TakeoverMode,
        tables: &Tables,
    ) -> (r: (Self, Vec<Action>))
        requires
            app.wf(),
            tables.wf(),
        ensures
            r.0 == Lfo::started(app, params, storage, fader, takeover, *tables),
            r.0.wf(),
            r.1@ == seq![
                Action::Configure {
                    channel: app.start_channel,
                    mode: PortMode::Output { bipolar: params.range.bipolar() },
                    gpo_level: None,
                },
                r.0.wave_led(storage.wave),
            ],
    {
        let color = get_color_for(storage.wave);
        let mut state = Lfo {
            start_channel: app.start_channel,
            params,
            storage,
            start_color: color,
            restart: true,
            latch_layer: LatchLayer::Main,
            latch: app.make_latch(fader, takeover),
            tick: false,
            quarter: 500,
            rate: 0,
            speed_count: 500,
            speed_div: 24,
            count: 0,
            last_out: 0,
        };
        state.update_speed(tables);
        let actions = vec![
            app.make_out_jack(0, params.range).1,
            app.use_leds().set(0, Led::Button, color, Brightness::Mid),
        ];
        (state, actions)
    }

    /// What the position follows from.
    pub open spec fn moving(self) -> LfoMotion {
        LfoMotion {
            restart: self.restart,
            sync: self.storage.clocked,
            rate: self.rate as i32,
            count: if self.speed_count < 1 {
                1
            } else {
                self.speed_count
            },
            div: self.speed_div,
            mult: speed_divisor(self.params.speed_mult) as u32,
        }
    }

    /// What the position follows from.
    pub fn motion(&self) -> (r: LfoMotion)
        ensures
            r == self.moving(),
            r.restart == self.restart,
            r.sync == self.storage.clocked,
            r.rate == self.rate,
            r.count == (if self.speed_count < 1 {
                1
            } else {
                self.speed_count
            }),
            r.div == self.speed_div,
            r.mult == speed_divisor(self.params.speed_mult),
    {
        LfoMotion {
            restart: self.restart,
            sync: self.storage.clocked,
            rate: self.rate as i32,
            count: if self.speed_count < 1 {
                1
            } else {
                self.speed_count
            },
            div: self.speed_div,
            mult: find_speed_divisor(self.params.speed_mult),
        }
    }

    /// The state after a millisecond: with a quarter note, the time since the last
    /// one is taken over, unless it is two seconds or more.
    pub open spec fn waited(self, shift: bool, tables: Tables) -> Lfo {
        let count = counted(self.count);
        let layered = Lfo {
            latch_layer: if shift {
                LatchLayer::Alt
            } else {
                LatchLayer::Main
            },
            ..self
        };
        if self.tick {
            let timed = if count < 2000 {
                (Lfo { quarter: count, ..layered }).sped(tables)
            } else {
                layered
            };
            Lfo { count: 0, tick: false, ..timed }
        } else {
            Lfo { count, ..layered }
        }
    }

    /// A millisecond has gone by: the speed is brought up to date.
    pub fn advance(&mut self, shift: bool, tables: &Tables)
        requires
            old(self).wf(),
            tables.wf(),
        ensures
            *final(self) == old(self).waited(shift, *tables),
            final(self).wf(),
    {
        self.latch_layer = LatchLayer::from(shift);
        self.count = self.count.wrapping_add(1);
        if self.tick {
            if self.count < 2000 {
                self.quarter = self.count;
                self.update_speed(tables);
            }
            self.count = 0;
            self.tick = false;
        }
    }

    /// The value of the oscillator at a position, after the attenuation.
    #[verifier::opaque]
    pub open spec fn value(self, pos: int, tables: Tables) -> u16 {
        let wave = tables.wave(self.storage.wave, pos) as int;
        let att = self.storage.layer_attenuation as int;
        if self.bipolar() {
            attenuated_bipolar(wave, att) as u16
        } else {
            (attenuated(wave, att) % 65536) as u16
        }
    }

    fn find_value(&self, pos: usize, tables: &Tables) -> (r: u16)
        requires
            tables.wf(),
            pos <= 4095,
        ensures
            r == self.value(pos as int, *tables),
    {
        reveal(Lfo::value);
        let wave: u16 = tables.wave_at(self.storage.wave, pos);
        let att: u16 = self.storage.layer_attenuation;
        if self.params.range == Range::_Neg5_5V {
            attenuate_bipolar(wave, att)
        } else {
            attenuate(wave, att)
        }
    }

    /// The state after the output was set.
    pub open spec fn put_out(self, pos: int, tables: Tables) -> Lfo {
        Lfo {
            restart: false,
            last_out: if self.params.midi_out.any() {
                self.value(pos, tables)
            } else {
                self.last_out
            },
            ..self
        }
    }

    /// The LEDs for a value: the value, or the attenuation.
    pub open spec fn leds(self, value: u16) -> Seq<Action> {
        let color = wave_color(self.storage.wave);
        match self.latch_layer {
            LatchLayer::Main => {
                let levels = if self.bipolar() {
                    let halves = unsigned_halves(value as int);
                    (halves.0 as u8, halves.1 as u8)
                } else {
                    (level_byte(value as int), 0u8)
                };
                seq![
                    led_set(self.start_channel, Led::Top, color, Brightness::Custom(levels.0)),
                    led_set(self.start_channel, Led::Bottom, color, Brightness::Custom(levels.1)),
                ]
            },
            LatchLayer::Alt => seq![
                led_set(
                    self.start_channel,
                    Led::Top,
                    Color::Red,
                    Brightness::Custom((self.storage.layer_attenuation as int / 32 % 256) as u8),
                ),
                led_unset(self.start_channel, Led::Bottom),
            ],
            LatchLayer::Third => Seq::empty(),
        }
    }

    /// What setting the output sets off: the voltage, the controller where it has
    /// moved by a step of 32, and the LEDs. In step with the clock the button dims
    /// in the second half.
    pub open spec fn out_actions(self, pos: int, tables: Tables) -> Seq<Action> {
        let value = self.value(pos, tables);
        seq![self.output(value)] + (if self.params.midi_out.any() && self.last_out / 32 != value
            / 32 {
            seq![self.midi().cc(self.params.midi_cc, value)]
        } else {
            Seq::empty()
        }) + seq![
            led_set(
                self.start_channel,
                Led::Button,
                wave_color(self.storage.wave),
                if self.storage.clocked && pos > 2048 {
                    Brightness::Low
                } else {
                    Brightness::Mid
                },
            ),
        ] + self.leds(value)
    }

    fn push_leds(&self, value: u16, actions: &mut Vec<Action>)
        requires
            self.wf(),
        ensures
            final(actions)@ == old(actions)@ + self.leds(value),
    {
        let leds = Leds::<1>::new(self.start_channel);
        match self.latch_layer {
            LatchLayer::Main => {
                let color = get_color_for(self.storage.wave);
                let levels: [u8; 2] = if self.params.range == Range::_Neg5_5V {
                    split_unsigned_value(value)
                } else {
                    [byte_level(value), 0]
                };
                actions.push(leds.set(0, Led::Top, color, Brightness::Custom(levels[0])));
                actions.push(leds.set(0, Led::Bottom, color, Brightness::Custom(levels[1])));
            },
            LatchLayer::Alt => {
                let level: u8 = (self.storage.layer_attenuation / 32 % 256) as u8;
                actions.push(leds.set(0, Led::Top, Color::Red, Brightness::Custom(level)));
                actions.push(leds.unset(0, Led::Bottom));
            },
            LatchLayer::Third => {},
        }
    }

    /// The oscillator has moved to a position: the output is set.
    pub fn put(&mut self, pos: usize, tables: &Tables) -> (r: Vec<Action>)
        requires
            old(self).wf(),
            tables.wf(),
            pos <= 4095,
        ensures
            *final(self) == old(self).put_out(pos as int, *tables),
            final(self).wf(),
            r@ == old(self).out_actions(pos as int, *tables),
    {
        let leds = Leds::<1>::new(self.start_channel);
        let val: u16 = self.find_value(pos, tables);
        let mut actions: Vec<Action> = Vec::new();
        actions.push(OutJack::new(self.start_channel, self.params.range).set_value(val));
        if self.params.midi_out.is_some() {
            if self.last_out / 32 != val / 32 {
                actions.push(self.midi_port().send_cc(self.params.midi_cc, val));
            }
            self.last_out = val;
        }
        let color = get_color_for(self.storage.wave);
        if self.storage.clocked && pos > 2048 {
            actions.push(leds.set(0, Led::Button, color, Brightness::Low));
        } else {
            actions.push(leds.set(0, Led::Button, color, Brightness::Mid));
        }
        self.push_leds(val, &mut actions);
        self.restart = false;
        actions
    }

    /// The stored value that the fader edits.
    pub open spec fn fader_target(self) -> u16 {
        match self.latch_layer {
            LatchLayer::Main => self.storage.layer_speed,
            LatchLayer::Alt => self.storage.layer_attenuation,
            LatchLayer::Third => 0,
        }
    }

    /// The state after the fader was moved.
    pub open spec fn fader_moved(self, value: u16, tables: Tables) -> Lfo {
        let target = self.fader_target();
        let latched = Lfo { latch: self.latch.updated(value, self.latch_layer, target), ..self };
        match self.latch.emits(value, self.latch_layer, target) {
            Some(new_value) => match self.latch_layer {
                LatchLayer::Main => (Lfo {
                    storage: Storage { layer_speed: new_value, ..self.storage },
                    ..latched
                }).sped(tables),
                LatchLayer::Alt => Lfo {
                    storage: Storage { layer_attenuation: new_value, ..self.storage },
                    ..latched
                },
                LatchLayer::Third => latched,
            },
            None => latched,
        }
    }

    /// A fader that changes a value asks for it to be saved.
    pub open spec fn fader_actions(self, value: u16) -> Seq<Action> {
        if self.latch.emits(value, self.latch_layer, self.fader_target()) is Some
            && self.latch_layer != LatchLayer::Third {
            seq![Action::Save]
        } else {
            Seq::empty()
        }
    }

    /// The fader was moved.
    pub fn fut2(&mut self, value: u16, tables: &Tables) -> (r: Vec<Action>)
        requires
            old(self).wf(),
            tables.wf(),
        ensures
            *final(self) == old(self).fader_moved(value, *tables),
            final(self).wf(),
            r@ == old(self).fader_actions(value),
    {
        let mut actions: Vec<Action> = Vec::new();
        let layer = self.latch_layer;
        let target: u16 = match layer {
            LatchLayer::Main => self.storage.layer_speed,
            LatchLayer::Alt => self.storage.layer_attenuation,
            LatchLayer::Third => 0,
        };
        if let Some(new_value) = self.latch.update(value, layer, target) {
            match layer {
                LatchLayer::Main => {
                    self.storage.layer_speed = new_value;
                    actions.push(Action::Save);
                    self.update_speed(tables);
                },
                LatchLayer::Alt => {
                    self.storage.layer_attenuation = new_value;
                    actions.push(Action::Save);
                },
                LatchLayer::Third => {},
            }
        }
        actions
    }

    /// The state after the button was pressed: the next waveform, or with shift
    /// the oscillator starts over.
    pub open spec fn pressed(self, shift: bool) -> Lfo {
        if shift {
            Lfo { restart: true, ..self }
        } else {
            Lfo { storage: Storage { wave: self.storage.wave.next(), ..self.storage }, ..self }
        }
    }

    /// The button was pressed.
    pub fn fut3(&mut self, shift: bool) -> (r: Vec<Action>)
        requires
            old(self).wf(),
        ensures
            *final(self) == old(self).pressed(shift),
            final(self).wf(),
            r@ == (if shift {
                Seq::empty()
            } else {
                seq![Action::Save, old(self).wave_led(old(self).storage.wave.next())]
            }),
    {
        if !shift {
            self.storage.wave = self.storage.wave.cycle();
            let color = get_color_for(self.storage.wave);
            let leds = Leds::<1>::new(self.start_channel);
            vec![Action::Save, leds.set(0, Led::Button, color, Brightness::Mid)]
        } else {
            self.restart = true;
            Vec::new()
        }
    }

    /// The state after the button was pressed for long: with shift the oscillator
    /// goes in step with the clock, or no longer.
    pub open spec fn held(self, shift: bool) -> Lfo {
        if shift {
            Lfo { storage: Storage { clocked: !self.storage.clocked, ..self.storage }, ..self }
        } else {
            self
        }
    }

    /// What a long press sets off: four flashes when the oscillator goes in step,
    /// in the color that the app started with.
    pub open spec fn hold_actions(self, shift: bool) -> Seq<Action> {
        if !shift {
            Seq::empty()
        } else if self.storage.clocked {
            seq![Action::Save]
        } else {
            seq![
                Action::Save,
                led_mode(
                    self.start_channel,
                    Led::Button,
                    LedMode::Flash(self.start_color, Some(4)),
                ),
            ]
        }
    }

    /// The button was pressed for long.
    pub fn fut4(&mut self, shift: bool) -> (r: Vec<Action>)
        requires
            old(self).wf(),
        ensures
            *final(self) == old(self).held(shift),
            final(self).wf(),
            r@ == old(self).hold_actions(shift),
    {
        let mut actions: Vec<Action> = Vec::new();
        if shift {
            self.storage.clocked = !self.storage.clocked;
            actions.push(Action::Save);
            if self.storage.clocked {
                let leds = Leds::<1>::new(self.start_channel);
                let mode = LedMode::Flash(self.start_color, Some(4));
                actions.push(leds.set_mode(0, Led::Button, mode));
            }
        }
        actions
    }

    /// The state after an event of the clock: a quarter note is noted, a reset
    /// starts the oscillator over.
    pub open spec fn clocked(self, event: ClockEvent) -> Lfo {
        match event {
            ClockEvent::Tick => Lfo { tick: true, ..self },
            ClockEvent::Reset => Lfo { restart: true, ..self },
            _ => self,
        }
    }

    /// An event of the clock.
    pub fn fut5(&mut self, event: ClockEvent)
        requires
            old(self).wf(),
        ensures
            *final(self) == old(self).clocked(event),
            final(self).wf(),
    {
        match event {
            ClockEvent::Tick => {
                self.tick = true;
            },
            ClockEvent::Reset => {
                self.restart = true;
            },
            _ => {},
        }
    }

    /// A scene was loaded into the storage.
    pub fn load_scene(&mut self, storage: Storage, tables: &Tables) -> (r: Vec<Action>)
        requires
            old(self).wf(),
            tables.wf(),
        ensures
            *final(self) == (Lfo { storage, ..*old(self) }).sped(*tables),
            final(self).wf(),
            r@ == seq![old(self).wave_led(storage.wave)],
    {
        self.storage = storage;
        self.update_speed(tables);
        let color = get_color_for(storage.wave);
        vec![Leds::<1>::new(self.start_channel).set(0, Led::Button, color, Brightness::Mid)]
    }

    /// Whether an event brings what the hardware can bring.
    pub open spec fn admits(event: Event) -> bool {
        event matches Event::Output { pos } ==> pos <= 4095
    }

    /// The state after an event.
    pub open spec fn after(self, event: Event, tables: Tables) -> Lfo {
        match event {
            Event::Millisecond { shift } => self.waited(shift, tables),
            Event::Output { pos } => self.put_out(pos as int, tables),
            Event::Fader(value) => self.fader_moved(value, tables),
            Event::Down { shift } => self.pressed(shift),
            Event::LongPress { shift } => self.held(shift),
            Event::Clock(event) => self.clocked(event),
            Event::LoadScene(storage) => (Lfo { storage, ..self }).sped(tables),
            Event::SaveScene(_) => self,
        }
    }

    /// What an event sets off.
    pub open spec fn does(self, event: Event, tables: Tables) -> Seq<Action> {
        match event {
            Event::Millisecond { .. } => Seq::empty(),
            Event::Output { pos } => self.out_actions(pos as int, tables),
            Event::Fader(value) => self.fader_actions(value),
            Event::Down { shift } => if shift {
                Seq::empty()
            } else {
                seq![Action::Save, self.wave_led(self.storage.wave.next())]
            },
            Event::LongPress { shift } => self.hold_actions(shift),
            Event::Clock(_) => Seq::empty(),
            Event::LoadScene(storage) => seq![self.wave_led(storage.wave)],
            Event::SaveScene(scene) => seq![Action::SaveScene(scene)],
        }
    }

    /// Handles an event.
    pub fn run(&mut self, event: Event, tables: &Tables) -> (r: Vec<Action>)
        requires
            old(self).wf(),
            Lfo::admits(event),
            tables.wf(),
        ensures
            *final(self) == old(self).after(event, *tables),
            final(self).wf(),
            r@ == old(self).does(event, *tables),
    {
        match event {
            Event::Millisecond { shift } => {
                self.advance(shift, tables);
                Vec::new()
            },
            Event::Output { pos } => self.put(pos, tables),
            Event::Fader(value) => self.fut2(value, tables),
            Event::Down { shift } => self.fut3(shift),
            Event::LongPress { shift } => self.fut4(shift),
            Event::Clock(event) => {
                self.fut5(event);
                Vec::new()
            },
            Event::LoadScene(storage) => self.load_scene(storage, tables),
            Event::SaveScene(scene) => vec![Action::SaveScene(scene)],
        }
    }
}

/// Five presses come back to the first waveform.
pub proof fn law_presses_cycle_waveforms(app: Lfo)
    ensures
        app.pressed(false).pressed(false).pressed(false).pressed(false).pressed(false) == app,
{
}

/// Two long presses leave the app as it was.
pub proof fn law_sync_toggles_back(app: Lfo)
    ensures
        app.held(true).held(true) == app,
{
}

/// A start over lasts until the next output, and no longer.
pub proof fn law_restart_is_taken_once(app: Lfo, pos: int, tables: Tables)
    ensures
        app.clocked(ClockEvent::Reset).restart,
        !app.put_out(pos, tables).restart,
{
}

/// The output is the waveform's value at the position, at the stored attenuation,
/// from the bottom on, or from the middle on where the range goes both ways; at
/// full attenuation it is the table's value itself. The controller follows in
/// steps of 32 where there is an output for it.
pub proof fn law_output_is_the_wave(app: Lfo, pos: usize, tables: Tables)
    requires
        app.wf(),
        tables.wf(),
        pos <= 4095,
        app.storage.layer_attenuation <= 4095,
        app.params.range != Range::_0_5V,
    ensures
        ({
            let event = Event::Output { pos };
            let wave = match app.storage.wave {
                Waveform::Triangle => tables.triangle@[pos as int],
                Waveform::Saw => tables.saw@[pos as int],
                Waveform::SawInv => tables.saw_inv@[pos as int],
                Waveform::Square => tables.square@[pos as int],
                Waveform::Sine => tables.sine@[pos as int],
            };
            let att = app.storage.layer_attenuation;
            let actions = app.does(event, tables);
            let after = app.after(event, tables);
            let out = actions[0];
            let sends = app.params.midi_out.usb || app.params.midi_out.out1
                || app.params.midi_out.out2;
            &&& out matches Action::Dac { channel, value } && channel == app.start_channel && value
                <= 4095 && (att == 4095 ==> value == wave) && (app.params.range == Range::_0_10V
                ==> 4095 * value <= wave * att < 4095 * value + 4095) && (app.params.range
                == Range::_Neg5_5V && wave >= 2048 ==> 4095 * (value - 2048) <= (wave - 2048) * att
                < 4095 * (value - 2048) + 4095) && (app.params.range == Range::_Neg5_5V && wave
                < 2048 ==> 4095 * (2048 - value) <= (2048 - wave) * att < 4095 * (2048 - value)
                + 4095)
            &&& sends ==> after.last_out == out->Dac_value
            &&& sends && app.last_out / 32 != after.last_out / 32 ==> actions[1] == app.midi().cc(
                app.params.midi_cc,
                after.last_out,
            )
            &&& !sends || app.last_out / 32 == after.last_out / 32 ==> forall|i: int|
                0 <= i < actions.len() ==> !(#[trigger] actions[i] is Midi)
            &&& !after.restart
            &&& after.storage == app.storage
        }),
{
    lemma_value_is_scaled(app, pos, tables);
    assert(app.does(Event::Output { pos }, tables)[0] == app.output(
        app.value(pos as int, tables),
    ));
}

proof fn lemma_value_is_scaled(app: Lfo, pos: usize, tables: Tables)
    requires
        app.wf(),
        tables.wf(),
        pos <= 4095,
        app.storage.layer_attenuation <= 4095,
        app.params.range != Range::_0_5V,
    ensures
        ({
            let wave = tables.wave(app.storage.wave, pos as int) as int;
            let att = app.storage.layer_attenuation as int;
            let value = app.value(pos as int, tables);
            &&& value <= 4095
            &&& att == 4095 ==> value == wave
            &&& app.params.range == Range::_0_10V ==> 4095 * value <= wave * att < 4095 * value
                + 4095
            &&& app.params.range == Range::_Neg5_5V && wave >= 2048 ==> 4095 * (value - 2048) <= (
            wave - 2048) * att < 4095 * (value - 2048) + 4095
            &&& app.params.range == Range::_Neg5_5V && wave < 2048 ==> 4095 * (2048 - value) <= (
            2048 - wave) * att < 4095 * (2048 - value) + 4095
        }),
{
    reveal(Lfo::value);
    let wave = tables.wave(app.storage.wave, pos as int) as int;
    let att = app.storage.layer_attenuation as int;
    assert(0 <= wave <= 4095);
    crate::apps::parts::law_levels_scale_from_rest(wave, att);
    crate::utils::law_attenuate_ends(wave, att);
}

/// The oscillator moves at the exponential curve of the speed fader, or, in step
/// with the clock, by the last quarter note, with a round of 384 ticks at the
/// bottom of the fader to 6 at the top in nine steps, divided by a power of two.
pub proof fn law_speed_follows_fader(app: Lfo, value: u16, tables: Tables)
    requires
        app.wf(),
        tables.wf(),
        app.latch_layer == LatchLayer::Main,
        app.storage.layer_speed <= 4095,
    ensures
        ({
            let event = Event::Fader(value);
            let after = app.after(event, tables);
            let emitted = app.latch.emits(value, LatchLayer::Main, app.storage.layer_speed);
            &&& emitted is None ==> after.storage == app.storage && after.rate == app.rate
                && app.does(event, tables).len() == 0
            &&& emitted matches Some(v) ==> after.storage == (Storage {
                layer_speed: v,
                ..app.storage
            }) && app.does(event, tables) == seq![Action::Save] && after.rate
                == tables.exponential@[if v < 4095 {
                v as int
            } else {
                4095
            }] && after.speed_div == round_of(v as int) && after.speed_count == app.quarter
            &&& after.latch == app.latch.updated(
                value,
                LatchLayer::Main,
                app.storage.layer_speed,
            )
        }),
        app.moving().restart == app.restart,
        app.moving().sync == app.storage.clocked,
        app.moving().rate == app.rate,
        app.speed_count >= 1 ==> app.moving().count == app.speed_count,
        app.speed_count < 1 ==> app.moving().count == 1,
        app.moving().div == app.speed_div,
        app.params.speed_mult == 0 ==> app.moving().mult == 1,
{
    vstd::arithmetic::power2::lemma2_to64();
}

/// What the speeds are divided by doubles with every step of the setting, from one
/// on. The ticks of a round halve with every 500 of the fader up to 2000, and then
/// go on with 16, 12, 8 and 6.
pub proof fn law_rounds_and_divisors(speed: int, setting: usize)
    requires
        0 <= speed <= 4095,
        setting < 31,
    ensures
        speed_divisor(0) == 1,
        speed_divisor((setting + 1) as usize) == 2 * speed_divisor(setting),
        speed < 500 ==> round_of(speed) == 384,
        speed < 2000 ==> round_of(speed) == 2 * round_of(speed + 500),
        2500 <= speed < 3000 ==> round_of(speed) == 16,
        3000 <= speed < 3500 ==> round_of(speed) == 12,
        3500 <= speed < 4000 ==> round_of(speed) == 8,
        4000 <= speed ==> round_of(speed) == 6,
{
    vstd::arithmetic::power2::lemma2_to64();
    vstd::arithmetic::power2::lemma_pow2_unfold((setting + 1) as nat);
}

/// The milliseconds between two quarter notes of the clock become the speed in
/// step with it, unless they are two seconds or more.
pub proof fn law_clock_is_measured(app: Lfo, shift: bool, tables: Tables)
    requires
        app.wf(),
        0 <= app.count < i32::MAX,
    ensures
        ({
            let after = app.after(Event::Millisecond { shift }, tables);
            &&& !app.tick ==> after.count == app.count + 1 && after.quarter == app.quarter
                && after.speed_count == app.speed_count
            &&& app.tick ==> after.count == 0 && !after.tick
            &&& app.tick && app.count + 1 < 2000 ==> after.quarter == app.count + 1
                && after.speed_count == app.count + 1
            &&& app.tick && app.count + 1 >= 2000 ==> after.quarter == app.quarter
                && after.speed_count == app.speed_count
            &&& after.latch_layer == (if shift {
                LatchLayer::Alt
            } else {
                LatchLayer::Main
            })
        }),
        app.after(Event::Clock(ClockEvent::Tick), tables) == (Lfo { tick: true, ..app }),
        app.after(Event::Clock(ClockEvent::Reset), tables) == (Lfo { restart: true, ..app }),
        app.after(Event::Clock(ClockEvent::Start), tables) == app,
        app.after(Event::Clock(ClockEvent::Stop), tables) == app,
{
}

/// With shift the fader sets the attenuation, which is stored.
pub proof fn law_fader_sets_attenuation(app: Lfo, value: u16, tables: Tables)
    requires
        app.wf(),
        app.latch_layer == LatchLayer::Alt,
    ensures
        ({
            let event = Event::Fader(value);
            let after = app.after(event, tables);
            let emitted = app.latch.emits(value, LatchLayer::Alt, app.storage.layer_attenuation);
            &&& emitted is None ==> after.storage == app.storage && app.does(event, tables).len()
                == 0
            &&& emitted matches Some(v) ==> after.storage == (Storage {
                layer_attenuation: v,
                ..app.storage
            }) && app.does(event, tables) == seq![Action::Save]
            &&& after.rate == app.rate && after.speed_div == app.speed_div
        }),
{
}

/// The button steps the waveform, which is stored, and starts the oscillator over
/// with shift; held for long with shift it takes the oscillator in step with the
/// clock, or out of it.
pub proof fn law_button_steps_wave(app: Lfo, tables: Tables)
    requires
        app.wf(),
    ensures
        app.after(Event::Down { shift: false }, tables).storage == (Storage {
            wave: match app.storage.wave {
                Waveform::Sine => Waveform::Triangle,
                Waveform::Triangle => Waveform::Saw,
                Waveform::Saw => Waveform::SawInv,
                Waveform::SawInv => Waveform::Square,
                Waveform::Square => Waveform::Sine,
            },
            ..app.storage
        }),
        app.does(Event::Down { shift: false }, tables)[0] == Action::Save,
        app.after(Event::Down { shift: true }, tables) == (Lfo { restart: true, ..app }),
        app.does(Event::Down { shift: true }, tables).len() == 0,
        app.after(Event::LongPress { shift: true }, tables).storage == (Storage {
            clocked: !app.storage.clocked,
            ..app.storage
        }),
        app.does(Event::LongPress { shift: true }, tables)[0] == Action::Save,
        app.after(Event::LongPress { shift: false }, tables) == app,
{
}

/// A scene brings its waveform, its attenuation and its speed, as the start does.
pub proof fn law_scenes_bring_speed(
    app: Lfo,
    storage: Storage,
    unit: App<1>,
    params: Params,
    fader: u16,
    takeover: TakeoverMode,
    tables: Tables,
)
    requires
        tables.wf(),
        storage.layer_speed <= 4095,
    ensures
        ({
            let loaded = app.after(Event::LoadScene(storage), tables);
            let started = Lfo::started(unit, params, storage, fader, takeover, tables);
            &&& loaded.storage == storage && started.storage == storage
            &&& loaded.rate == tables.exponential@[storage.layer_speed as int]
            &&& started.rate == tables.exponential@[storage.layer_speed as int]
            &&& loaded.speed_div == round_of(storage.layer_speed as int)
            &&& started.speed_div == round_of(storage.layer_speed as int)
            &&& started.restart
        }),
{
}

/// The LEDs show the value in the color of the wave, above and below the middle on
/// a bipolar range; with shift the attenuation in red, by 32 counts a step. The
/// button is dimmer in the second half of a clocked wave.
pub proof fn law_wave_is_shown(app: Lfo, pos: u16, tables: Tables)
    requires
        app.wf(),
        tables.wf(),
        pos <= 4095,
    ensures
        ({
            let actions = app.out_actions(pos as int, tables);
            let value = app.value(pos as int, tables);
            let first = app.start_channel;
            let color = wave_color(app.storage.wave);
            let shown = app.leds(value);
            let (above, below) = unsigned_halves(value as int);
            let bipolar = app.params.range.bipolar();
            let at = actions.len() - shown.len();
            &&& actions.skip(at as int) == shown
            &&& actions[at - 1] == led_set(
                first,
                Led::Button,
                color,
                if app.storage.clocked && pos > 2048 {
                    Brightness::Low
                } else {
                    Brightness::Mid
                },
            )
            &&& match app.latch_layer {
                LatchLayer::Main => {
                    &&& shown.len() == 2
                    &&& bipolar ==> shown[0] == led_set(
                        first,
                        Led::Top,
                        color,
                        Brightness::Custom(above as u8),
                    ) && shown[1] == led_set(
                        first,
                        Led::Bottom,
                        color,
                        Brightness::Custom(below as u8),
                    )
                    &&& !bipolar ==> shown[0] == led_set(
                        first,
                        Led::Top,
                        color,
                        Brightness::Custom(level_byte(value as int)),
                    ) && shown[1] == led_set(first, Led::Bottom, color, Brightness::Custom(0))
                },
                LatchLayer::Alt => {
                    &&& shown.len() == 2
                    &&& shown[0] matches Action::Led {
                        channel,
                        led: Led::Top,
                        msg: crate::tasks::leds::LedMsg::Mode(
                            crate::tasks::leds::LedMode::Static(Color::Red, Brightness::Custom(level)),
                        ),
                    } && channel == first && (app.storage.layer_attenuation <= 4095 ==> 32 * level
                        <= app.storage.layer_attenuation < 32 * level + 32)
                    &&& shown[1] == led_unset(first, Led::Bottom)
                },
                LatchLayer::Third => shown.len() == 0,
            }
        }),
{
}

/// Taking the clock on makes the button flash four times; a scene shows its wave.
pub proof fn law_clock_and_scene_are_shown(app: Lfo, storage: Storage, tables: Tables)
    ensures
        !app.storage.clocked ==> app.does(Event::LongPress { shift: true }, tables) == seq![
            Action::Save,
            led_mode(app.start_channel, Led::Button, LedMode::Flash(app.start_color, Some(4))),
        ],
        app.storage.clocked ==> app.does(Event::LongPress { shift: true }, tables) == seq![
            Action::Save,
        ],
        app.does(Event::LongPress { shift: false }, tables).len() == 0,
        app.does(Event::LoadScene(storage), tables) == seq![
            led_set(
                app.start_channel,
                Led::Button,
                wave_color(storage.wave),
                Brightness::Mid,
            ),
        ],
{
}

/// The app starts on what is stored, at the start of its wave, a quarter of it in
/// 500 milliseconds. Its faders are where they are found.
pub proof fn law_starts_on_storage(
    app: App<1>,
    params: Params,
    storage: Storage,
    fader: u16,
    takeover: TakeoverMode,
    tables: Tables,
)
    ensures
        ({
            let s = Lfo::started(app, params, storage, fader, takeover, tables);
            &&& s.start_channel == app.start_channel && s.params == params && s.storage == storage
            &&& s.latch_layer == LatchLayer::Main
            &&& s.latch == AnalogLatch::initial(fader, 25, takeover)
            &&& s.restart && !s.tick
            &&& s.quarter == 500 && s.count == 0 && s.last_out == 0
            &&& s.start_color == wave_color(storage.wave)
        }),
{
}

/// The parameters of a fresh app, and what it has in its storage.
pub proof fn law_fresh_app(start_channel: usize, r: Storage)
    requires
        call_ensures(Storage::default, (), r),
    ensures
        ({
            let p = initial_params(start_channel);
            &&& p.speed_mult == 0
            &&& p.range == Range::_Neg5_5V
            &&& p.midi_out == (MidiOut { usb: false, out1: false, out2: false })
            &&& p.midi_channel == MidiChannel(1)
            &&& p.midi_cc == MidiCc::for_channel(32, start_channel)
            &&& !p.nrpn
        }),
        !r.clocked,
        r.layer_attenuation == 4095,
        r.layer_speed == 2000,
        r.wave == Waveform::Sine,
{
}

} // verus!
