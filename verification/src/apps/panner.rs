//! Panner: one level, spread over two outputs by a pan position and an LFO.
use vstd::prelude::*;
use vstd::array::spec_array_update;

use crate::app::{
    led_set, led_unset, Action, App, I2cOutput, Leds, MidiOutput, OutJack, PortMode,
};
use crate::apps::parts::{
    byte_level, curve_value, curved, level_byte, level_value, leveled,
};
use crate::latch::{clamp_12bit, AnalogLatch, LatchLayer, TakeoverMode};
use crate::storage::{values_new, values_push, AppParams, AppStorage, ManagedStorage, ParamStore};
use crate::tables::Tables;
use crate::tasks::leds::Led;
use crate::types::{
    Brightness, Color, Curve, MidiCc, MidiChannel, MidiOut, ParamValue, Range, Value, Waveform,
};
use crate::utils::{
    attenuate, attenuate_bipolar, attenuated, attenuated_bipolar, clickless, clickless_step,
    led_level, split_unsigned_value, to_i16, unsigned_halves, value_level, wrap_i16,
};

verus! {

pub const CHANNELS: usize = 2;

pub const PARAMS: usize = 10;

/// The parameters of the app.
#[derive(Clone, Copy, Debug, PartialEq, Eq, Structural)]
pub struct Params {
    pub curve: Curve,
    pub range: Range,
    pub midi_channel: MidiChannel,
    pub midi_cc_l: MidiCc,
    pub midi_cc_r: MidiCc,
    pub midi_out: MidiOut,
    pub on_release: bool,
    pub color: Color,
    pub save_state: bool,
    pub nrpn: bool,
}

impl AppParams for Params {
    open spec fn read(values: Seq<Value>) -> Option<Self> {
        if values.len() < 10 {
            None
        } else {
            Some(
                Params {
                    curve: Curve::reads(values[0]),
                    range: Range::reads(values[1]),
                    midi_channel: MidiChannel::reads(values[2]),
                    midi_cc_l: MidiCc::reads(values[3]),
                    midi_cc_r: MidiCc::reads(values[4]),
                    on_release: bool::reads(values[5]),
                    color: Color::reads(values[6]),
                    save_state: bool::reads(values[7]),
                    nrpn: bool::reads(values[8]),
                    midi_out: MidiOut::reads(values[9]),
                },
            )
        }
    }

    open spec fn listing(self) -> Seq<Value> {
        seq![
            self.curve.stored(),
            self.range.stored(),
            self.midi_channel.stored(),
            self.midi_cc_l.stored(),
            self.midi_cc_r.stored(),
            self.on_release.stored(),
            self.color.stored(),
            self.save_state.stored(),
            Value::MidiNrpn(self.nrpn),
            self.midi_out.stored(),
        ]
    }

    fn from_values(values: &[Value]) -> (r: Option<Self>) {
        if values.len() < PARAMS {
            return None;
        }
        Some(
            Params {
                curve: Curve::from_value(values[0]),
                range: Range::from_value(values[1]),
                midi_channel: MidiChannel::from_value(values[2]),
                midi_cc_l: MidiCc::from_value(values[3]),
                midi_cc_r: MidiCc::from_value(values[4]),
                on_release: bool::from_value(values[5]),
                color: Color::from_value(values[6]),
                save_state: bool::from_value(values[7]),
                nrpn: bool::from_value(values[8]),
                midi_out: MidiOut::from_value(values[9]),
            },
        )
    }

    fn to_values(&self) -> (r: heapless::Vec<Value, 16>) {
        let mut vec = values_new();
        let _ = values_push(&mut vec, self.curve.into_value());
        let _ = values_push(&mut vec, self.range.into_value());
        let _ = values_push(&mut vec, self.midi_channel.into_value());
        let _ = values_push(&mut vec, self.midi_cc_l.into_value());
        let _ = values_push(&mut vec, self.midi_cc_r.into_value());
        let _ = values_push(&mut vec, self.on_release.into_value());
        let _ = values_push(&mut vec, self.color.into_value());
        let _ = values_push(&mut vec, self.save_state.into_value());
        let _ = values_push(&mut vec, Value::MidiNrpn(self.nrpn));
        let _ = values_push(&mut vec, self.midi_out.into_value());
        vec
    }

    proof fn law_params_round_trip(self) {
    }
}

/// What the app keeps.
#[derive(Clone, Copy, Debug, PartialEq, Eq, Structural)]
pub struct Storage {
    pub muted: bool,
    pub att_saved: u16,
    pub fad_val: u16,
    pub pan_val: u16,
    pub lfo_speed: u16,
    pub lfo_amt: u16,
    pub wave: Waveform,
}

impl Default for Storage {
    fn default() -> (r: Self)
        ensures
            r == (Storage {
                muted: false,
                att_saved: 4095,
                fad_val: 4095,
                pan_val: 2048,
                lfo_speed: 2048,
                lfo_amt: 0,
                wave: Waveform::Sine,
            }),
    {
        Storage {
            muted: false,
            att_saved: 4095,
            fad_val: 4095,
            pan_val: 2048,
            lfo_speed: 2048,
            lfo_amt: 0,
            wave: Waveform::Sine,
        }
    }
}

impl AppStorage for Storage {

}

/// The parameters that the app starts with: the controllers of its channels, and no MIDI output.
pub open spec fn initial_params(start_channel: usize) -> Params {
    Params {
        curve: Curve::Linear,
        range: Range::_0_10V,
        midi_channel: MidiChannel(1),
        midi_cc_l: MidiCc::for_channel(32, start_channel),
        midi_cc_r: MidiCc::for_channel(33, start_channel),
        midi_out: MidiOut { usb: false, out1: false, out2: false },
        on_release: false,
        color: Color::Blue,
        save_state: true,
        nrpn: false,
    }
}

/// The parameters and the storage of the app, before anything was loaded.
pub fn wrapper(app: App<2>) -> (r: (ParamStore<Params>, ManagedStorage<Storage>))
    ensures
        r.0 == (ParamStore {
            app_id: app.app_id,
            inner: initial_params(app.start_channel),
            layout_id: app.layout_id,
        }),
        r.1.app_id == app.app_id,
        r.1.layout_id == app.layout_id,
        call_ensures(Storage::default, (), r.1.inner),
{
    (
        ParamStore::new(
            app.app_id,
            app.layout_id,
            Params {
                curve: Curve::Linear,
                range: Range::_0_10V,
                midi_channel: MidiChannel::default(),
                midi_cc_l: MidiCc::of_channel(32, app.start_channel),
                midi_cc_r: MidiCc::of_channel(33, app.start_channel),
                midi_out: MidiOut { usb: false, out1: false, out2: false },
                on_release: false,
                color: Color::Blue,
                save_state: true,
                nrpn: false,
            },
        ),
        ManagedStorage::new(app.app_id, app.layout_id),
    )
}

/// One step of the slew from `prev` toward `input`: the weighted mean, or the
/// input where they are as close as the weight.
pub open spec fn slew_step(prev: int, input: int, slew: int) -> int {
    let smoothed = (prev * slew + input) / (slew + 1);
    if -slew <= smoothed - input <= slew {
        input
    } else {
        smoothed
    }
}

/// Integer-based smoothing that snaps to its target when it is close enough.
pub fn slew_2(prev: u16, input: u16, slew: u16) -> (r: u16)
    ensures
        r == slew_step(prev as int, input as int, slew as int),
{
    proof {
        lemma_slew_bound(prev as int, input as int, slew as int);
        assert(0 <= prev * slew <= 65535 * 65535) by (nonlinear_arith)
            requires
                0 <= prev <= 65535,
                0 <= slew <= 65535,
        ;
    }
    let smoothed: u16 = ((prev as u32 * slew as u32 + input as u32) / (slew as u32 + 1)) as u16;
    let diff: u16 = if smoothed > input {
        smoothed - input
    } else {
        input - smoothed
    };
    if diff <= slew {
        input
    } else {
        smoothed
    }
}

proof fn lemma_slew_bound(prev: int, input: int, slew: int)
    requires
        0 <= prev,
        0 <= input,
        0 <= slew,
    ensures
        prev <= input ==> prev <= (prev * slew + input) / (slew + 1) <= input,
        prev >= input ==> input <= (prev * slew + input) / (slew + 1) <= prev,
{
    let d = slew + 1;
    let lo = if prev <= input {
        prev
    } else {
        input
    };
    let hi = if prev <= input {
        input
    } else {
        prev
    };
    let num = prev * slew + input;
    assert(lo * d <= num <= hi * d) by (nonlinear_arith)
        requires
            d == slew + 1,
            num == prev * slew + input,
            lo <= prev <= hi,
            lo <= input <= hi,
            slew >= 0,
    ;
    vstd::arithmetic::div_mod::lemma_div_is_ordered(lo * d, num, d);
    vstd::arithmetic::div_mod::lemma_div_is_ordered(num, hi * d, d);
    vstd::arithmetic::div_mod::lemma_div_by_multiple(lo, d);
    vstd::arithmetic::div_mod::lemma_div_by_multiple(hi, d);
}

/// The slew stays between its last value and its input, and holds the input once
/// it is reached.
pub proof fn law_slew_stays_between(prev: int, input: int, slew: int)
    requires
        0 <= prev,
        0 <= input,
        0 <= slew,
    ensures
        prev <= input ==> prev <= slew_step(prev, input, slew) <= input,
        prev >= input ==> input <= slew_step(prev, input, slew) <= prev,
        slew_step(input, input, slew) == input,
{
    lemma_slew_bound(prev, input, slew);
    lemma_slew_bound(input, input, slew);
}

/// The color of a waveform.
pub open spec fn wave_color(wave: Waveform) -> Color {
    match wave {
        Waveform::Sine => Color::Yellow,
        Waveform::Triangle => Color::Pink,
        Waveform::Saw => Color::Cyan,
        Waveform::SawInv => Color::Red,
        Waveform::Square => Color::White,
    }
}

/// The color of a waveform.
pub fn get_color_for(wave: Waveform) -> (r: Color)
    ensures
        r == wave_color(wave),
{
    match wave {
        Waveform::Sine => Color::Yellow,
        Waveform::Triangle => Color::Pink,
        Waveform::Saw => Color::Cyan,
        Waveform::SawInv => Color::Red,
        Waveform::Square => Color::White,
    }
}

/// What is read once per millisecond: the shift button, both buttons, the first
/// fader and the position of the LFO.
#[derive(Clone, Copy, Debug, PartialEq, Eq, Structural)]
pub struct Inputs {
    pub shift: bool,
    pub button0: bool,
    pub button1: bool,
    pub fader: u16,
    pub lfo_pos: usize,
}

impl Inputs {
    pub open spec fn wf(self) -> bool {
        self.lfo_pos <= 4095
    }

    /// The layer that the faders edit.
    pub open spec fn layer(self) -> LatchLayer {
        if self.shift && !self.button0 {
            LatchLayer::Alt
        } else if !self.shift && self.button1 {
            LatchLayer::Third
        } else {
            LatchLayer::Main
        }
    }
}

/// What an event brings.
pub enum Event {
    /// A millisecond has gone by.
    Millisecond(Inputs),
    /// A button was pressed.
    Down { chan: usize, shift: bool },
    /// A button was released.
    Up { chan: usize },
    /// A fader was moved to a value.
    Fader { chan: usize, value: u16 },
    /// A scene was loaded into the storage.
    LoadScene(Storage),
    /// A scene is to be saved.
    SaveScene(u8),
}

/// The running app. `lfo_rate` is the speed of the LFO on the curve of the fader.
pub struct Panner {
    pub start_channel: usize,
    pub params: Params,
    pub storage: Storage,
    pub muted: bool,
    pub output: u16,
    pub latch_layer: LatchLayer,
    pub lfo_rate: u16,
    pub latch: [AnalogLatch; 2],
    pub main_layer_value: u16,
    pub out_l: u16,
    pub out_r: u16,
    pub last_out: [u32; 2],
    pub val_left: u16,
    pub val_right: u16,
    pub fader_latch: AnalogLatch,
}

/// A side of the panorama: at rest when muted, else on its way to the curved value.
pub open spec fn side(
    tables: Tables,
    curve: Curve,
    bipolar: bool,
    muted: bool,
    prev: int,
    value: int,
) -> int {
    if muted {
        if bipolar {
            2047
        } else {
            0
        }
    } else {
        clickless_step(prev, curved(tables, curve, bipolar, value))
    }
}

fn side_value(
    tables: &Tables,
    curve: Curve,
    bipolar: bool,
    muted: bool,
    prev: u16,
    value: u16,
) -> (r: u16)
    requires
        tables.wf(),
        prev <= 4095,
    ensures
        r == side(*tables, curve, bipolar, muted, prev as int, value as int),
        r <= 4095,
{
    if muted {
        if bipolar {
            2047
        } else {
            0
        }
    } else {
        clickless(prev, curve_value(tables, curve, bipolar, value))
    }
}

impl Panner {
    pub open spec fn wf(self) -> bool {
        self.start_channel + 2 <= 16 && self.val_left <= 4095 && self.val_right <= 4095
    }

    pub open spec fn bipolar(self) -> bool {
        self.params.range.bipolar()
    }

    /// The MIDI port.
    pub open spec fn midi(self) -> MidiOutput {
        MidiOutput::port(
            self.start_channel,
            self.params.midi_out,
            self.params.midi_channel,
            self.params.nrpn,
        )
    }

    fn midi_port(&self) -> (r: MidiOutput)
        ensures
            r == self.midi(),
    {
        MidiOutput::new(
            self.params.midi_out,
            self.start_channel,
            self.params.midi_channel.to_wire(),
            self.params.nrpn,
        )
    }

    /// An output.
    pub open spec fn jack(self, chan: int) -> OutJack {
        OutJack { channel: (self.start_channel + chan) as usize, range: self.params.range }
    }

    /// The LED of the mute button.
    pub open spec fn mute_led(self, muted: bool) -> Action {
        if muted {
            led_unset(self.start_channel, Led::Button)
        } else {
            led_set(self.start_channel, Led::Button, self.params.color, Brightness::Mid)
        }
    }

    /// An LED of the second channel in the color of the waveform.
    pub open spec fn wave_led(self, led: Led, wave: Waveform, brightness: Brightness) -> Action {
        led_set((self.start_channel + 1) as usize, led, wave_color(wave), brightness)
    }

    fn show_mute(&self, muted: bool) -> (r: Action)
        requires
            self.start_channel <= 14,
        ensures
            r == self.mute_led(muted),
    {
        let leds = Leds::<2>::new(self.start_channel);
        if muted {
            leds.unset(0, Led::Button)
        } else {
            leds.set(0, Led::Button, self.params.color, Brightness::Mid)
        }
    }

    fn show_wave(&self, led: Led, wave: Waveform, brightness: Brightness) -> (r: Action)
        requires
            self.start_channel <= 14,
        ensures
            r == self.wave_led(led, wave, brightness),
    {
        Leds::<2>::new(self.start_channel).set(1, led, get_color_for(wave), brightness)
    }

    /// The state that the app starts with.
    pub open spec fn started(
        app: App<2>,
        params: Params,
        storage: Storage,
        faders: [u16; 2],
        takeover: TakeoverMode,
        tables: Tables,
    ) -> Panner {
        Panner {
            start_channel: app.start_channel,
            params,
            storage,
            muted: storage.muted,
            output: 0,
            latch_layer: LatchLayer::Main,
            lfo_rate: tables.curve(params.curve, storage.lfo_speed as int),
            latch: [
                AnalogLatch::initial(faders[0], 25, takeover),
                AnalogLatch::initial(faders[1], 25, takeover),
            ],
            main_layer_value: faders[0],
            out_l: 0,
            out_r: 0,
            last_out: [0, 0],
            val_left: 0,
            val_right: 0,
            fader_latch: AnalogLatch::initial(faders[1], 25, takeover),
        }
    }

    /// Starts the app on what is stored.
    pub fn new(
        app: App<2>,
        params: Params,
        storage: Storage,
        faders: [u16; 2],
        takeover: TakeoverMode,
        tables: &Tables,
    ) -> (r: (Self, Vec<Action>))
        requires
            app.wf(),
            tables.wf(),
        ensures
            r.0 == Panner::started(app, params, storage, faders, takeover, *tables),
            r.0.wf(),
            r.1@ == seq![
                r.0.mute_led(storage.muted),
                Action::Configure {
                    channel: app.start_channel,
                    mode: PortMode::Output { bipolar: params.range.bipolar() },
                    gpo_level: None,
                },
                Action::Configure {
                    channel: (app.start_channel + 1) as usize,
                    mode: PortMode::Output { bipolar: params.range.bipolar() },
                    gpo_level: None,
                },
                r.0.wave_led(Led::Button, storage.wave, Brightness::Mid),
            ],
    {
        let state = Panner {
            start_channel: app.start_channel,
            params,
            storage,
            muted: storage.muted,
            output: 0,
            latch_layer: LatchLayer::Main,
            lfo_rate: tables.curve_at(params.curve, storage.lfo_speed),
            latch: [app.make_latch(faders[0], takeover), app.make_latch(faders[1], takeover)],
            main_layer_value: faders[0],
            out_l: 0,
            out_r: 0,
            last_out: [0, 0],
            val_left: 0,
            val_right: 0,
            fader_latch: app.make_latch(faders[1], takeover),
        };
        let actions = vec![
            state.show_mute(storage.muted),
            app.make_out_jack(0, params.range).1,
            app.make_out_jack(1, params.range).1,
            state.show_wave(Led::Button, storage.wave, Brightness::Mid),
        ];
        (state, actions)
    }

    /// The level on the main layer: the stored one, where the state is stored.
    pub open spec fn level(self) -> u16 {
        if self.params.save_state {
            self.storage.fad_val
        } else {
            self.main_layer_value
        }
    }

    /// The state after the first fader was read: it sets the level, or the
    /// attenuation.
    pub open spec fn fader_read(self, inputs: Inputs) -> Panner {
        let layer = inputs.layer();
        let target = match layer {
            LatchLayer::Main => self.level(),
            LatchLayer::Alt => self.storage.att_saved,
            LatchLayer::Third => 0,
        };
        let latched = Panner {
            latch_layer: layer,
            main_layer_value: self.level(),
            latch: spec_array_update(
                self.latch,
                0,
                self.latch[0].updated(inputs.fader, layer, target),
            ),
            ..self
        };
        match (layer, self.latch[0].emits(inputs.fader, layer, target)) {
            (LatchLayer::Main, Some(value)) => if self.params.save_state {
                Panner { storage: Storage { fad_val: value, ..self.storage }, ..latched }
            } else {
                Panner { main_layer_value: value, ..latched }
            },
            (LatchLayer::Alt, Some(value)) => Panner {
                storage: Storage { att_saved: value, ..self.storage },
                ..latched
            },
            _ => latched,
        }
    }

    fn read_fader(&mut self, inputs: Inputs)
        requires
            old(self).wf(),
            inputs.wf(),
        ensures
            *final(self) == old(self).fader_read(inputs),
            final(self).wf(),
    {
        let layer = if inputs.shift && !inputs.button0 {
            LatchLayer::Alt
        } else if !inputs.shift && inputs.button1 {
            LatchLayer::Third
        } else {
            LatchLayer::Main
        };
        self.latch_layer = layer;
        if self.params.save_state {
            self.main_layer_value = self.storage.fad_val;
        }
        let target: u16 = match layer {
            LatchLayer::Main => self.main_layer_value,
            LatchLayer::Alt => self.storage.att_saved,
            LatchLayer::Third => 0,
        };
        let mut latch = self.latch[0];
        let emitted = latch.update(inputs.fader, layer, target);
        self.latch[0] = latch;
        if let Some(new_value) = emitted {
            match layer {
                LatchLayer::Main => {
                    if self.params.save_state {
                        self.storage.fad_val = new_value;
                    } else {
                        self.main_layer_value = new_value;
                    }
                },
                LatchLayer::Alt => {
                    self.storage.att_saved = new_value;
                },
                LatchLayer::Third => {},
            }
        }
    }

    /// The LFO, -2048 to 2047.
    pub open spec fn lfo(self, tables: Tables, pos: int) -> int {
        attenuated_bipolar(
            tables.wave(self.storage.wave, pos) as int,
            self.storage.lfo_amt as int,
        ) - 2048
    }

    /// The pan position, moved by the LFO. Both are taken as 16 bits with a sign.
    pub open spec fn pan(self, tables: Tables, pos: int) -> int {
        clamp_12bit(wrap_i16(wrap_i16(self.storage.pan_val as int) + self.lfo(tables, pos)))
    }

    /// The level before panning.
    pub open spec fn source(self) -> int {
        if self.bipolar() {
            self.main_layer_value as int / 2 + 2047
        } else {
            self.main_layer_value as int
        }
    }

    /// The state after both outputs were computed.
    pub open spec fn panned(self, tables: Tables, pos: int) -> Panner {
        let pan = self.pan(tables, pos);
        let bipolar = self.bipolar();
        let att = self.storage.att_saved as int;
        let left = side(
            tables,
            self.params.curve,
            bipolar,
            self.muted,
            self.val_left as int,
            attenuated(self.source(), pan),
        );
        let right = side(
            tables,
            self.params.curve,
            bipolar,
            self.muted,
            self.val_right as int,
            attenuated(self.source(), 4095 - pan),
        );
        let out_l = slew_step(self.out_l as int, leveled(bipolar, left, att), 3);
        let out_r = slew_step(self.out_r as int, leveled(bipolar, right, att), 3);
        Panner {
            val_left: left as u16,
            val_right: right as u16,
            out_l: out_l as u16,
            out_r: out_r as u16,
            last_out: [(out_l * 127 / 4095) as u32, (out_r * 127 / 4095) as u32],
            ..self
        }
    }

    fn find_lfo(&self, tables: &Tables, pos: usize) -> (r: i32)
        requires
            self.wf(),
            tables.wf(),
            pos <= 4095,
        ensures
            r == self.lfo(*tables, pos as int),
            -2048 <= r <= 2047,
    {
        let wave: u16 = tables.wave_at(self.storage.wave, pos);
        attenuate_bipolar(wave, self.storage.lfo_amt) as i32 - 2048
    }

    fn pan_outputs(&mut self, tables: &Tables, pos: usize)
        requires
            old(self).wf(),
            tables.wf(),
            pos <= 4095,
        ensures
            *final(self) == old(self).panned(*tables, pos as int),
            final(self).wf(),
    {
        let lfo_val: i32 = self.find_lfo(tables, pos);
        let moved: i32 = to_i16(to_i16(self.storage.pan_val as i32) + lfo_val);
        let pan_value: u16 = if moved < 0 {
            0
        } else if moved > 4095 {
            4095
        } else {
            moved as u16
        };
        let bipolar = self.params.range.is_bipolar();
        let fad_val: u16 = if bipolar {
            self.main_layer_value / 2 + 2047
        } else {
            self.main_layer_value
        };
        let pan_left: u16 = attenuate(fad_val, pan_value);
        let pan_right: u16 = attenuate(fad_val, 4095 - pan_value);
        let curve = self.params.curve;
        self.val_left = side_value(tables, curve, bipolar, self.muted, self.val_left, pan_left);
        self.val_right = side_value(tables, curve, bipolar, self.muted, self.val_right, pan_right);
        let att: u16 = self.storage.att_saved;
        let out_left: u16 = level_value(bipolar, self.val_left, att);
        let out_right: u16 = level_value(bipolar, self.val_right, att);
        proof {
            law_slew_stays_between(self.out_l as int, out_left as int, 3);
            law_slew_stays_between(self.out_r as int, out_right as int, 3);
        }
        self.out_l = slew_2(self.out_l, out_left, 3);
        self.out_r = slew_2(self.out_r, out_right, 3);
        self.last_out = [self.out_l as u32 * 127 / 4095, self.out_r as u32 * 127 / 4095];
    }

    /// The outputs, and the controllers where their 7-bit values changed since
    /// `before`.
    pub open spec fn output_actions(self, before: [u32; 2]) -> Seq<Action> {
        (if before[0] != self.last_out[0] {
            seq![self.midi().cc(self.params.midi_cc_l, self.out_l)]
        } else {
            Seq::empty()
        }) + (if before[1] != self.last_out[1] {
            seq![self.midi().cc(self.params.midi_cc_r, self.out_r)]
        } else {
            Seq::empty()
        }) + seq![self.jack(0).valued(self.out_l), self.jack(1).valued(self.out_r)]
    }

    /// Both LEDs of a channel for an output.
    pub open spec fn output_leds(self) -> Seq<Action> {
        let color = self.params.color;
        let first = self.start_channel;
        let second = (self.start_channel + 1) as usize;
        if self.bipolar() {
            let left = unsigned_halves(self.out_l as int);
            let right = unsigned_halves(self.out_r as int);
            seq![
                led_set(first, Led::Top, color, Brightness::Custom(left.0 as u8)),
                led_set(first, Led::Bottom, color, Brightness::Custom(left.1 as u8)),
                led_set(second, Led::Top, color, Brightness::Custom(right.0 as u8)),
                led_set(second, Led::Bottom, color, Brightness::Custom(right.1 as u8)),
            ]
        } else {
            seq![
                led_set(
                    first,
                    Led::Top,
                    color,
                    Brightness::Custom(led_level(self.out_l as int)),
                ),
                led_unset(second, Led::Bottom),
                led_set(
                    second,
                    Led::Top,
                    color,
                    Brightness::Custom(led_level(self.out_r as int)),
                ),
                led_unset(first, Led::Bottom),
            ]
        }
    }

    /// The LEDs, by what the faders edit: the outputs, the attenuation and the
    /// amount of the LFO, or the LFO.
    pub open spec fn leds(self, tables: Tables, pos: int) -> Seq<Action> {
        let first = self.start_channel;
        let second = (self.start_channel + 1) as usize;
        let att = Brightness::Custom(led_level(self.storage.att_saved as int));
        let lfo = self.lfo(tables, pos);
        let wave = self.storage.wave;
        match self.latch_layer {
            LatchLayer::Main => self.output_leds() + seq![
                led_set(second, Led::Button, self.params.color, Brightness::Mid),
            ],
            LatchLayer::Alt => seq![
                led_set(first, Led::Top, Color::Red, att),
                if self.bipolar() {
                    led_set(first, Led::Bottom, Color::Red, att)
                } else {
                    led_unset(first, Led::Bottom)
                },
                led_set(
                    second,
                    Led::Top,
                    Color::Red,
                    Brightness::Custom(level_byte(self.storage.lfo_amt as int)),
                ),
                self.wave_led(
                    Led::Bottom,
                    wave,
                    Brightness::Custom(
                        if lfo > 0 {
                            (lfo / 16) as u8
                        } else {
                            0
                        },
                    ),
                ),
                self.wave_led(Led::Button, wave, Brightness::Mid),
            ],
            LatchLayer::Third => {
                let halves = unsigned_halves(tables.wave(wave, pos) as int);
                seq![
                    self.wave_led(Led::Top, wave, Brightness::Custom(halves.0 as u8)),
                    self.wave_led(Led::Bottom, wave, Brightness::Custom(halves.1 as u8)),
                ]
            },
        }
    }

    fn push_outputs(&self, before: [u32; 2], actions: &mut Vec<Action>)
        requires
            self.wf(),
        ensures
            final(actions)@ == old(actions)@ + self.output_actions(before),
    {
        let midi = self.midi_port();
        if before[0] != self.last_out[0] {
            actions.push(midi.send_cc(self.params.midi_cc_l, self.out_l));
        }
        if before[1] != self.last_out[1] {
            actions.push(midi.send_cc(self.params.midi_cc_r, self.out_r));
        }
        actions.push(OutJack::new(self.start_channel, self.params.range).set_value(self.out_l));
        actions.push(
            OutJack::new(self.start_channel + 1, self.params.range).set_value(self.out_r),
        );
    }

    fn push_output_leds(&self, actions: &mut Vec<Action>)
        requires
            self.wf(),
        ensures
            final(actions)@ == old(actions)@ + self.output_leds(),
    {
        let leds = Leds::<2>::new(self.start_channel);
        let color = self.params.color;
        if self.params.range.is_bipolar() {
            let left = split_unsigned_value(self.out_l);
            let right = split_unsigned_value(self.out_r);
            actions.push(leds.set(0, Led::Top, color, Brightness::Custom(left[0])));
            actions.push(leds.set(0, Led::Bottom, color, Brightness::Custom(left[1])));
            actions.push(leds.set(1, Led::Top, color, Brightness::Custom(right[0])));
            actions.push(leds.set(1, Led::Bottom, color, Brightness::Custom(right[1])));
        } else {
            let left: u8 = value_level(self.out_l);
            let right: u8 = value_level(self.out_r);
            actions.push(leds.set(0, Led::Top, color, Brightness::Custom(left)));
            actions.push(leds.unset(1, Led::Bottom));
            actions.push(leds.set(1, Led::Top, color, Brightness::Custom(right)));
            actions.push(leds.unset(0, Led::Bottom));
        }
    }

    fn push_leds(&self, tables: &Tables, pos: usize, actions: &mut Vec<Action>)
        requires
            self.wf(),
            tables.wf(),
            pos <= 4095,
        ensures
            final(actions)@ == old(actions)@ + self.leds(*tables, pos as int),
    {
        let leds = Leds::<2>::new(self.start_channel);
        let wave = self.storage.wave;
        match self.latch_layer {
            LatchLayer::Main => {
                self.push_output_leds(actions);
                actions.push(leds.set(1, Led::Button, self.params.color, Brightness::Mid));
            },
            LatchLayer::Alt => {
                let att = Brightness::Custom(value_level(self.storage.att_saved));
                actions.push(leds.set(0, Led::Top, Color::Red, att));
                if self.params.range.is_bipolar() {
                    actions.push(leds.set(0, Led::Bottom, Color::Red, att));
                } else {
                    actions.push(leds.unset(0, Led::Bottom));
                }
                let amount: u8 = byte_level(self.storage.lfo_amt);
                actions.push(leds.set(1, Led::Top, Color::Red, Brightness::Custom(amount)));
                let lfo_val: i32 = self.find_lfo(tables, pos);
                let level: u8 = if lfo_val > 0 {
                    (lfo_val / 16) as u8
                } else {
                    0
                };
                actions.push(self.show_wave(Led::Bottom, wave, Brightness::Custom(level)));
                actions.push(self.show_wave(Led::Button, wave, Brightness::Mid));
            },
            LatchLayer::Third => {
                let bright = split_unsigned_value(tables.wave_at(wave, pos));
                actions.push(self.show_wave(Led::Top, wave, Brightness::Custom(bright[0])));
                actions.push(self.show_wave(Led::Bottom, wave, Brightness::Custom(bright[1])));
            },
        }
    }

    /// The state after a millisecond.
    pub open spec fn ticked(self, inputs: Inputs, tables: Tables) -> Panner {
        self.fader_read(inputs).panned(tables, inputs.lfo_pos as int)
    }

    /// What a millisecond sets off.
    pub open spec fn tick_actions(self, inputs: Inputs, tables: Tables) -> Seq<Action> {
        let after = self.ticked(inputs, tables);
        after.output_actions(self.last_out) + after.leds(tables, inputs.lfo_pos as int)
    }

    /// A millisecond has gone by: the first fader is read, and both outputs follow.
    pub fn main_loop(&mut self, inputs: Inputs, tables: &Tables) -> (r: Vec<Action>)
        requires
            old(self).wf(),
            inputs.wf(),
            tables.wf(),
        ensures
            *final(self) == old(self).ticked(inputs, *tables),
            final(self).wf(),
            r@ == old(self).tick_actions(inputs, *tables),
    {
        let before = self.last_out;
        self.read_fader(inputs);
        self.pan_outputs(tables, inputs.lfo_pos);
        let mut actions: Vec<Action> = Vec::new();
        self.push_outputs(before, &mut actions);
        self.push_leds(tables, inputs.lfo_pos, &mut actions);
        actions
    }

    /// The state after the mute was toggled. What is stored decides.
    pub open spec fn mute_toggled(self) -> Panner {
        let muted = !self.storage.muted;
        Panner { storage: Storage { muted, ..self.storage }, muted, ..self }
    }

    /// Toggles the mute.
    pub fn button0(&mut self) -> (r: Vec<Action>)
        requires
            old(self).wf(),
        ensures
            *final(self) == old(self).mute_toggled(),
            final(self).wf(),
            r@ == seq![Action::Save, old(self).mute_led(!old(self).storage.muted)],
    {
        self.storage.muted = !self.storage.muted;
        self.muted = self.storage.muted;
        vec![Action::Save, self.show_mute(self.muted)]
    }

    /// The second button, with shift, takes the next waveform.
    pub fn button1(&mut self, shift: bool) -> (r: Vec<Action>)
        requires
            old(self).wf(),
        ensures
            *final(self) == (if shift {
                Panner {
                    storage: Storage {
                        wave: old(self).storage.wave.next(),
                        ..old(self).storage
                    },
                    ..*old(self)
                }
            } else {
                *old(self)
            }),
            final(self).wf(),
            r@ == (if shift {
                seq![
                    Action::Save,
                    old(self).wave_led(
                        Led::Button,
                        old(self).storage.wave.next(),
                        Brightness::Mid,
                    ),
                ]
            } else {
                Seq::empty()
            }),
    {
        if shift {
            self.storage.wave = self.storage.wave.cycle();
            vec![Action::Save, self.show_wave(Led::Button, self.storage.wave, Brightness::Mid)]
        } else {
            Vec::new()
        }
    }

    /// The stored value that the second fader edits: the pan position, the amount
    /// or the speed of the LFO.
    pub open spec fn pan_target(self) -> u16 {
        match self.latch_layer {
            LatchLayer::Main => self.storage.pan_val,
            LatchLayer::Alt => self.storage.lfo_amt,
            LatchLayer::Third => self.storage.lfo_speed,
        }
    }

    /// The state after a fader was moved.
    pub open spec fn fader_moved(self, chan: int, value: u16, tables: Tables) -> Panner {
        if chan != 1 {
            self
        } else {
            let target = self.pan_target();
            let latched = Panner {
                fader_latch: self.fader_latch.updated(value, self.latch_layer, target),
                ..self
            };
            match self.fader_latch.emits(value, self.latch_layer, target) {
                Some(new_value) => match self.latch_layer {
                    LatchLayer::Main => Panner {
                        storage: Storage { pan_val: new_value, ..self.storage },
                        ..latched
                    },
                    LatchLayer::Alt => Panner {
                        storage: Storage { lfo_amt: new_value, ..self.storage },
                        ..latched
                    },
                    LatchLayer::Third => Panner {
                        storage: Storage { lfo_speed: new_value, ..self.storage },
                        lfo_rate: tables.curve(self.params.curve, new_value as int),
                        ..latched
                    },
                },
                None => latched,
            }
        }
    }

    /// What a moved fader sets off: the first one reports its value, or saves the
    /// attenuation; the second one saves what it changed.
    pub open spec fn fader_actions(self, chan: int, value: u16) -> Seq<Action> {
        if chan == 0 {
            match self.latch_layer {
                LatchLayer::Main => seq![
                    Action::I2cFader {
                        channel: self.start_channel,
                        value: self.output,
                        range: self.params.range,
                    },
                ],
                LatchLayer::Alt => seq![Action::SaveNow],
                LatchLayer::Third => Seq::empty(),
            }
        } else if chan == 1 && self.fader_latch.emits(
            value,
            self.latch_layer,
            self.pan_target(),
        ) is Some {
            seq![Action::Save]
        } else {
            Seq::empty()
        }
    }

    /// A fader was moved.
    pub fn fader_event_handler(&mut self, chan: usize, value: u16, tables: &Tables) -> (r: Vec<
        Action,
    >)
        requires
            old(self).wf(),
            tables.wf(),
        ensures
            *final(self) == old(self).fader_moved(chan as int, value, *tables),
            final(self).wf(),
            r@ == old(self).fader_actions(chan as int, value),
    {
        let mut actions: Vec<Action> = Vec::new();
        if chan == 0 {
            match self.latch_layer {
                LatchLayer::Main => {
                    let i2c = I2cOutput::<2>::new(self.start_channel);
                    actions.push(i2c.send_fader_value(0, self.output, self.params.range));
                },
                LatchLayer::Alt => {
                    actions.push(Action::SaveNow);
                },
                LatchLayer::Third => {},
            }
        }
        if chan == 1 {
            let layer = self.latch_layer;
            let target: u16 = match layer {
                LatchLayer::Main => self.storage.pan_val,
                LatchLayer::Alt => self.storage.lfo_amt,
                LatchLayer::Third => self.storage.lfo_speed,
            };
            if let Some(new_value) = self.fader_latch.update(value, layer, target) {
                match layer {
                    LatchLayer::Main => {
                        self.storage.pan_val = new_value;
                    },
                    LatchLayer::Alt => {
                        self.storage.lfo_amt = new_value;
                    },
                    LatchLayer::Third => {
                        self.lfo_rate = tables.curve_at(self.params.curve, new_value);
                        self.storage.lfo_speed = new_value;
                    },
                }
                actions.push(Action::Save);
            }
        }
        actions
    }

    /// The state after a scene was loaded into the storage. The mute follows
    /// where the state is stored.
    pub open spec fn loaded(self, storage: Storage, tables: Tables) -> Panner {
        Panner {
            storage,
            muted: if self.params.save_state {
                storage.muted
            } else {
                self.muted
            },
            lfo_rate: tables.curve(self.params.curve, storage.lfo_speed as int),
            ..self
        }
    }

    /// What a loaded scene sets off.
    pub open spec fn load_actions(self, storage: Storage) -> Seq<Action> {
        (if self.params.save_state {
            seq![self.mute_led(storage.muted)]
        } else {
            Seq::empty()
        }) + seq![self.wave_led(Led::Button, storage.wave, Brightness::Mid)]
    }

    /// A scene was loaded into the storage.
    pub fn load_scene(&mut self, storage: Storage, tables: &Tables) -> (r: Vec<Action>)
        requires
            old(self).wf(),
            tables.wf(),
        ensures
            *final(self) == old(self).loaded(storage, *tables),
            final(self).wf(),
            r@ == old(self).load_actions(storage),
    {
        let mut actions: Vec<Action> = Vec::new();
        self.storage = storage;
        if self.params.save_state {
            self.muted = storage.muted;
            actions.push(self.show_mute(storage.muted));
        }
        self.lfo_rate = tables.curve_at(self.params.curve, storage.lfo_speed);
        actions.push(self.show_wave(Led::Button, storage.wave, Brightness::Mid));
        actions
    }

    /// Whether an event brings what the hardware can bring.
    pub open spec fn admits(event: Event) -> bool {
        event matches Event::Millisecond(inputs) ==> inputs.wf()
    }

    /// Whether an event of the first button toggles the mute: its release or its
    /// press, by the setting.
    pub open spec fn mutes(self, event: Event) -> bool {
        match event {
            Event::Down { chan, .. } => chan == 0 && !self.params.on_release,
            Event::Up { chan } => chan == 0 && self.params.on_release,
            _ => false,
        }
    }

    /// The state after an event.
    pub open spec fn after(self, event: Event, tables: Tables) -> Panner {
        if self.mutes(event) {
            self.mute_toggled()
        } else {
            match event {
                Event::Millisecond(inputs) => self.ticked(inputs, tables),
                Event::Down { chan, shift } => if chan == 1 && shift {
                    Panner {
                        storage: Storage { wave: self.storage.wave.next(), ..self.storage },
                        ..self
                    }
                } else {
                    self
                },
                Event::Up { .. } => self,
                Event::Fader { chan, value } => self.fader_moved(chan as int, value, tables),
                Event::LoadScene(storage) => self.loaded(storage, tables),
                Event::SaveScene(_) => self,
            }
        }
    }

    /// What an event sets off.
    pub open spec fn does(self, event: Event, tables: Tables) -> Seq<Action> {
        if self.mutes(event) {
            seq![Action::Save, self.mute_led(!self.storage.muted)]
        } else {
            match event {
                Event::Millisecond(inputs) => self.tick_actions(inputs, tables),
                Event::Down { chan, shift } => if chan == 1 && shift {
                    seq![
                        Action::Save,
                        self.wave_led(Led::Button, self.storage.wave.next(), Brightness::Mid),
                    ]
                } else {
                    Seq::empty()
                },
                Event::Up { .. } => Seq::empty(),
                Event::Fader { chan, value } => self.fader_actions(chan as int, value),
                Event::LoadScene(storage) => self.load_actions(storage),
                Event::SaveScene(scene) => seq![Action::SaveScene(scene)],
            }
        }
    }

    /// Handles an event.
    pub fn run(&mut self, event: Event, tables: &Tables) -> (r: Vec<Action>)
        requires
            old(self).wf(),
            Panner::admits(event),
            tables.wf(),
        ensures
            *final(self) == old(self).after(event, *tables),
            final(self).wf(),
            r@ == old(self).does(event, *tables),
    {
        match event {
            Event::Millisecond(inputs) => self.main_loop(inputs, tables),
            Event::Down { chan, shift } => {
                if chan == 0 && !self.params.on_release {
                    self.button0()
                } else if chan == 1 {
                    self.button1(shift)
                } else {
                    Vec::new()
                }
            },
            Event::Up { chan } => {
                if chan == 0 && self.params.on_release {
                    self.button0()
                } else {
                    Vec::new()
                }
            },
            Event::Fader { chan, value } => self.fader_event_handler(chan, value, tables),
            Event::LoadScene(storage) => self.load_scene(storage, tables),
            Event::SaveScene(scene) => vec![Action::SaveScene(scene)],
        }
    }
}

/// Toggling the mute twice leaves the app as it was.
pub proof fn law_mute_toggles_back(app: Panner)
    requires
        app.muted == app.storage.muted,
    ensures
        app.mute_toggled().mute_toggled() == app,
{
}

/// The two sides share the level: together they make it up, to within the
/// rounding, and at the end of the pan all of it is on one side.
pub proof fn law_sides_share_the_level(level: int, pan: int)
    requires
        0 <= level,
        0 <= pan <= 4095,
    ensures
        attenuated(level, pan) + attenuated(level, 4095 - pan) <= level,
        attenuated(level, pan) + attenuated(level, 4095 - pan) >= level - 1,
        pan == 4095 ==> attenuated(level, pan) == level && attenuated(level, 4095 - pan) == 0,
{
    let a = level * pan;
    let b = level * (4095 - pan);
    assert(a + b == level * 4095) by (nonlinear_arith)
        requires
            a == level * pan,
            b == level * (4095 - pan),
    ;
    crate::utils::lemma_attenuated_bound(level, pan);
    crate::utils::lemma_attenuated_bound(level, 4095 - pan);
    if pan == 4095 {
        crate::utils::law_attenuate_ends(level, 0);
    }
}

/// A muted app comes to rest: its sides are at the rest position at once.
pub proof fn law_muted_sides_rest(app: Panner, tables: Tables, pos: int)
    requires
        app.muted,
    ensures
        app.panned(tables, pos).val_left == app.panned(tables, pos).val_right,
        app.panned(tables, pos).val_left == (if app.bipolar() {
            2047int
        } else {
            0
        }),
{
}

/// The slew takes the weighted mean of where it is and where it goes, rounded
/// down, until it is as close as the weight: it is then there.
pub proof fn law_slew_is_weighted_mean(prev: int, input: int, slew: int)
    requires
        0 <= prev,
        0 <= input,
        0 <= slew,
    ensures
        ({
            let r = slew_step(prev, input, slew);
            r == input || ((slew + 1) * r <= prev * slew + input < (slew + 1) * r + slew + 1 && (r
                > input + slew || r < input - slew))
        }),
        ({
            let near = prev * slew + input;
            (slew + 1) * (input - slew) <= near < (slew + 1) * (input + slew + 1) ==> slew_step(
                prev,
                input,
                slew,
            ) == input
        }),
{
    let d = slew + 1;
    let num = prev * slew + input;
    let q = num / d;
    vstd::arithmetic::div_mod::lemma_fundamental_div_mod(num, d);
    vstd::arithmetic::div_mod::lemma_mod_bound(num, d);
    assert(d * q <= num < d * q + d);
    if d * (input - slew) <= num < d * (input + slew + 1) {
        assert(input - slew <= q < input + slew + 1) by (nonlinear_arith)
            requires
                d * q <= num < d * q + d,
                d * (input - slew) <= num < d * (input + slew + 1),
                d >= 1,
        ;
    }
}

/// The pan is where its fader is, moved by the amount's share of how far the LFO is
/// from the middle, and stays in range. The left side gets the pan's share of the
/// level, the right side the rest's: of the level itself on a unipolar range, of
/// half of it above the middle on a bipolar one. Each goes to its share on the
/// curve in clickless steps, and its output slews to it after the attenuation.
pub proof fn law_pan_shares_the_level(
    app: Panner,
    tables: Tables,
    inputs: Inputs,
    swing: int,
    pan: int,
    level: int,
    left: int,
    right: int,
)
    requires
        app.wf(),
        inputs.wf(),
        tables.wf(),
        !app.muted,
        ({
            let after = app.after(Event::Millisecond(inputs), tables);
            let storage = after.storage;
            let wave = tables.wave(storage.wave, inputs.lfo_pos as int);
            let middle = storage.pan_val + swing;
            &&& storage.pan_val <= 4095
            &&& storage.lfo_amt <= 4095
            &&& after.main_layer_value <= 4095
            &&& wave >= 2048 ==> 0 <= swing && 4095 * swing <= (wave - 2048) * storage.lfo_amt
                < 4095 * swing + 4095
            &&& wave < 2048 ==> swing <= 0 && 4095 * -swing <= (2048 - wave) * storage.lfo_amt
                < 4095 * -swing + 4095
            &&& middle < 0 ==> pan == 0
            &&& middle > 4095 ==> pan == 4095
            &&& 0 <= middle <= 4095 ==> pan == middle
            &&& !app.params.range.bipolar() ==> level == after.main_layer_value
            &&& app.params.range.bipolar() ==> 2 * (level - 2047) <= after.main_layer_value <= 2 * (
            level - 2047) + 1
            &&& 4095 * left <= level * pan < 4095 * left + 4095
            &&& 4095 * right <= level * (4095 - pan) < 4095 * right + 4095
        }),
    ensures
        ({
            let after = app.after(Event::Millisecond(inputs), tables);
            let bipolar = app.params.range.bipolar();
            let curve = app.params.curve;
            let att = after.storage.att_saved as int;
            &&& after.val_left == clickless_step(
                app.val_left as int,
                curved(tables, curve, bipolar, left),
            )
            &&& after.val_right == clickless_step(
                app.val_right as int,
                curved(tables, curve, bipolar, right),
            )
            &&& after.out_l == slew_step(
                app.out_l as int,
                leveled(bipolar, after.val_left as int, att),
                3,
            )
            &&& after.out_r == slew_step(
                app.out_r as int,
                leveled(bipolar, after.val_right as int, att),
                3,
            )
        }),
{
    let read = app.fader_read(inputs);
    let storage = read.storage;
    let wave = tables.wave(storage.wave, inputs.lfo_pos as int) as int;
    let amount = storage.lfo_amt as int;
    assert(read.muted == app.muted && read.val_left == app.val_left && read.params == app.params);
    if wave >= 2048 {
        crate::utils::law_attenuate_bipolar_is_proportional(wave - 2048, amount);
    } else {
        crate::utils::lemma_attenuated_bound(2048 - wave, amount);
    }
    assert(read.lfo(tables, inputs.lfo_pos as int) == swing);
    assert(read.pan(tables, inputs.lfo_pos as int) == pan);
    assert(read.source() == level);
    crate::utils::law_attenuate_is_proportional(level, pan, pan);
    crate::utils::law_attenuate_is_proportional(level, 4095 - pan, 4095 - pan);
    crate::utils::law_attenuate_ends(level, pan);
    crate::utils::law_attenuate_ends(level, 4095 - pan);
    let bipolar = app.params.range.bipolar();
    let curve = app.params.curve;
    lemma_side_bound(read, tables, left, read.val_left);
    lemma_side_bound(read, tables, right, read.val_right);
    let after = app.after(Event::Millisecond(inputs), tables);
    lemma_output_bound(bipolar, after.val_left, storage.att_saved, app.out_l);
    lemma_output_bound(bipolar, after.val_right, storage.att_saved, app.out_r);
}

proof fn lemma_side_bound(app: Panner, tables: Tables, value: int, prev: u16)
    requires
        tables.wf(),
        0 <= value <= 4095,
        prev <= 4095,
    ensures
        0 <= clickless_step(
            prev as int,
            curved(tables, app.params.curve, app.bipolar(), value),
        ) <= 4095,
{
    crate::utils::law_clickless_converges(
        prev as int,
        curved(tables, app.params.curve, app.bipolar(), value),
    );
}

proof fn lemma_output_bound(bipolar: bool, value: u16, att: u16, prev: u16)
    ensures
        0 <= slew_step(prev as int, leveled(bipolar, value as int, att as int), 3) <= 65535,
{
    law_slew_stays_between(prev as int, leveled(bipolar, value as int, att as int), 3);
}

/// A muted app goes to rest on both sides: to the middle on a bipolar range, to
/// zero else.
pub proof fn law_muted_app_rests(app: Panner, tables: Tables, inputs: Inputs)
    requires
        app.muted,
    ensures
        ({
            let after = app.after(Event::Millisecond(inputs), tables);
            let rest: u16 = if app.params.range.bipolar() {
                2047
            } else {
                0
            };
            after.muted && after.val_left == rest && after.val_right == rest
        }),
{
}

/// The outputs are set to their values at every millisecond, left on the first
/// channel and right on the second, and a controller is sent where its 7-bit value
/// has changed.
pub proof fn law_outputs_are_set(app: Panner, tables: Tables, inputs: Inputs)
    requires
        app.wf(),
        inputs.wf(),
        tables.wf(),
    ensures
        ({
            let after = app.after(Event::Millisecond(inputs), tables);
            let actions = app.does(Event::Millisecond(inputs), tables);
            let left = Action::Dac {
                channel: app.start_channel,
                value: crate::app::output_value(app.params.range, after.out_l),
            };
            let right = Action::Dac {
                channel: (app.start_channel + 1) as usize,
                value: crate::app::output_value(app.params.range, after.out_r),
            };
            let first = app.midi().cc(app.params.midi_cc_l, after.out_l);
            let second = app.midi().cc(app.params.midi_cc_r, after.out_r);
            let turned_l = app.last_out[0] != after.last_out[0];
            let turned_r = app.last_out[1] != after.last_out[1];
            let at: int = (if turned_l {
                1int
            } else {
                0
            }) + (if turned_r {
                1int
            } else {
                0
            });
            &&& 4095 * after.last_out[0] <= 127 * after.out_l < 4095 * after.last_out[0] + 4095
            &&& 4095 * after.last_out[1] <= 127 * after.out_r < 4095 * after.last_out[1] + 4095
            &&& actions[at] == left
            &&& actions[at + 1] == right
            &&& turned_l ==> actions[0] == first
            &&& turned_r ==> actions[at - 1] == second
        }),
{
    let read = app.fader_read(inputs);
    let pos = inputs.lfo_pos as int;
    let after = app.after(Event::Millisecond(inputs), tables);
    lemma_output_bound(
        read.bipolar(),
        after.val_left,
        read.storage.att_saved,
        app.out_l,
    );
    lemma_output_bound(
        read.bipolar(),
        after.val_right,
        read.storage.att_saved,
        app.out_r,
    );
}

/// The first fader sets the level, in the storage where the state is stored, and
/// with shift the attenuation; a held second button takes it off both.
pub proof fn law_first_fader_sets_level(app: Panner, tables: Tables, inputs: Inputs)
    requires
        app.wf(),
        inputs.wf(),
        tables.wf(),
    ensures
        ({
            let after = app.after(Event::Millisecond(inputs), tables);
            let layer = after.latch_layer;
            let level = if app.params.save_state {
                app.storage.fad_val
            } else {
                app.main_layer_value
            };
            let target = match layer {
                LatchLayer::Main => level,
                LatchLayer::Alt => app.storage.att_saved,
                LatchLayer::Third => 0,
            };
            let emitted = app.latch[0].emits(inputs.fader, layer, target);
            &&& (layer == LatchLayer::Alt) == (inputs.shift && !inputs.button0)
            &&& (layer == LatchLayer::Third) == (!inputs.shift && inputs.button1)
            &&& after.latch[0] == app.latch[0].updated(inputs.fader, layer, target)
            &&& after.latch[1] == app.latch[1]
            &&& (emitted is None || layer == LatchLayer::Third) ==> after.storage == app.storage
                && after.main_layer_value == level
            &&& emitted matches Some(v) ==> (layer == LatchLayer::Alt ==> after.storage == (
            Storage { att_saved: v, ..app.storage }) && after.main_layer_value == level) && (layer
                == LatchLayer::Main && app.params.save_state ==> after.storage == (Storage {
                fad_val: v,
                ..app.storage
            })) && (layer == LatchLayer::Main && !app.params.save_state ==> after.storage
                == app.storage && after.main_layer_value == v)
        }),
{
}

/// The second fader, where it has a value to give, stores it and asks for it to be
/// saved: as the pan, with shift as the amount of the LFO, and with its button
/// held as the speed, which the LFO follows on the curve.
pub proof fn law_second_fader_stores_its_value(app: Panner, tables: Tables, value: u16)
    requires
        app.wf(),
        tables.wf(),
    ensures
        ({
            let layer = app.latch_layer;
            let event = Event::Fader { chan: 1, value };
            let target = match layer {
                LatchLayer::Main => app.storage.pan_val,
                LatchLayer::Alt => app.storage.lfo_amt,
                LatchLayer::Third => app.storage.lfo_speed,
            };
            let after = app.after(event, tables);
            let emitted = app.fader_latch.emits(value, layer, target);
            &&& after.fader_latch == app.fader_latch.updated(value, layer, target)
            &&& emitted is None ==> after.storage == app.storage && after.lfo_rate == app.lfo_rate
                && app.does(event, tables).len() == 0
            &&& emitted matches Some(v) ==> app.does(event, tables) == seq![Action::Save] && (layer
                == LatchLayer::Main ==> after.storage == (Storage { pan_val: v, ..app.storage })
                && after.lfo_rate == app.lfo_rate) && (layer == LatchLayer::Alt ==> after.storage
                == (Storage { lfo_amt: v, ..app.storage }) && after.lfo_rate == app.lfo_rate) && (
            layer == LatchLayer::Third ==> after.storage == (Storage {
                lfo_speed: v,
                ..app.storage
            }) && after.lfo_rate == tables.curve(app.params.curve, v as int))
        }),
        app.after(Event::Fader { chan: 0, value }, tables) == app,
        app.latch_layer == LatchLayer::Main ==> app.does(Event::Fader { chan: 0, value }, tables)
            == seq![
            Action::I2cFader {
                channel: app.start_channel,
                value: app.output,
                range: app.params.range,
            },
        ],
        app.latch_layer == LatchLayer::Alt ==> app.does(Event::Fader { chan: 0, value }, tables)
            == seq![Action::SaveNow],
{
}

/// The first button toggles the stored mute, when it goes down or when it comes up
/// by the parameter; the second one with shift takes the next of the five
/// waveforms. What changes is saved and shown.
pub proof fn law_buttons_mute_and_cycle(app: Panner, tables: Tables, shift: bool)
    requires
        app.wf(),
    ensures
        ({
            let down = Event::Down { chan: 0, shift };
            let up = Event::Up { chan: 0 };
            let cycle = Event::Down { chan: 1, shift };
            let mute = if app.params.on_release {
                up
            } else {
                down
            };
            let other = if app.params.on_release {
                down
            } else {
                up
            };
            let muted = !app.storage.muted;
            let wave = match app.storage.wave {
                Waveform::Triangle => Waveform::Saw,
                Waveform::Saw => Waveform::SawInv,
                Waveform::SawInv => Waveform::Square,
                Waveform::Square => Waveform::Sine,
                Waveform::Sine => Waveform::Triangle,
            };
            &&& app.after(mute, tables) == (Panner {
                muted,
                storage: Storage { muted, ..app.storage },
                ..app
            })
            &&& app.does(mute, tables)[0] == Action::Save
            &&& app.does(mute, tables)[1] == (if muted {
                led_unset(app.start_channel, Led::Button)
            } else {
                led_set(app.start_channel, Led::Button, app.params.color, Brightness::Mid)
            })
            &&& app.after(other, tables) == app && app.does(other, tables).len() == 0
            &&& shift ==> app.after(cycle, tables).storage == (Storage { wave, ..app.storage })
                && app.does(cycle, tables)[0] == Action::Save
            &&& !shift ==> app.after(cycle, tables) == app && app.does(cycle, tables).len() == 0
        }),
{
}

/// A scene brings its storage and the speed of the LFO, and the mute where the
/// state is stored.
pub proof fn law_scenes_bring_storage(app: Panner, tables: Tables, storage: Storage, scene: u8)
    ensures
        ({
            let after = app.after(Event::LoadScene(storage), tables);
            &&& after.storage == storage
            &&& after.lfo_rate == tables.curve(app.params.curve, storage.lfo_speed as int)
            &&& app.params.save_state ==> after.muted == storage.muted
            &&& !app.params.save_state ==> after.muted == app.muted
        }),
        app.after(Event::SaveScene(scene), tables) == app,
        app.does(Event::SaveScene(scene), tables) == seq![Action::SaveScene(scene)],
{
}

/// On the main layer the LEDs show both outputs, above and below the middle on a
/// bipolar range; with shift the attenuation and the amount of the LFO in red, and
/// the LFO's upper half; with the second button held the whole LFO.
pub proof fn law_outputs_are_shown(app: Panner, tables: Tables, pos: int)
    requires
        app.wf(),
    ensures
        ({
            let shown = app.leds(tables, pos);
            let first = app.start_channel;
            let second = (app.start_channel + 1) as usize;
            let color = app.params.color;
            let tone = wave_color(app.storage.wave);
            let bipolar = app.params.range.bipolar();
            let left = unsigned_halves(app.out_l as int);
            let right = unsigned_halves(app.out_r as int);
            let whole = unsigned_halves(tables.wave(app.storage.wave, pos) as int);
            let att = Brightness::Custom(led_level(app.storage.att_saved as int));
            match app.latch_layer {
                LatchLayer::Main => {
                    &&& shown.len() == 5
                    &&& bipolar ==> shown[0] == led_set(
                        first,
                        Led::Top,
                        color,
                        Brightness::Custom(left.0 as u8),
                    ) && shown[1] == led_set(
                        first,
                        Led::Bottom,
                        color,
                        Brightness::Custom(left.1 as u8),
                    ) && shown[2] == led_set(
                        second,
                        Led::Top,
                        color,
                        Brightness::Custom(right.0 as u8),
                    ) && shown[3] == led_set(
                        second,
                        Led::Bottom,
                        color,
                        Brightness::Custom(right.1 as u8),
                    )
                    &&& !bipolar ==> shown[0] == led_set(
                        first,
                        Led::Top,
                        color,
                        Brightness::Custom(led_level(app.out_l as int)),
                    ) && shown[1] == led_unset(second, Led::Bottom) && shown[2] == led_set(
                        second,
                        Led::Top,
                        color,
                        Brightness::Custom(led_level(app.out_r as int)),
                    ) && shown[3] == led_unset(first, Led::Bottom)
                    &&& shown[4] == led_set(second, Led::Button, color, Brightness::Mid)
                },
                LatchLayer::Alt => {
                    &&& shown.len() == 5
                    &&& shown[0] == led_set(first, Led::Top, Color::Red, att)
                    &&& bipolar ==> shown[1] == led_set(first, Led::Bottom, Color::Red, att)
                    &&& !bipolar ==> shown[1] == led_unset(first, Led::Bottom)
                    &&& shown[2] == led_set(
                        second,
                        Led::Top,
                        Color::Red,
                        Brightness::Custom(level_byte(app.storage.lfo_amt as int)),
                    )
                    &&& shown[3] matches Action::Led {
                        channel,
                        led: Led::Bottom,
                        msg: crate::tasks::leds::LedMsg::Mode(
                            crate::tasks::leds::LedMode::Static(hue, Brightness::Custom(level)),
                        ),
                    } && channel == second && hue == tone && (app.lfo(tables, pos) <= 0 ==> level
                        == 0) && (0 < app.lfo(tables, pos) < 4096 ==> 16 * level <= app.lfo(
                        tables,
                        pos,
                    ) < 16 * level + 16)
                    &&& shown[4] == led_set(second, Led::Button, tone, Brightness::Mid)
                },
                LatchLayer::Third => {
                    &&& shown.len() == 2
                    &&& shown[0] == led_set(
                        second,
                        Led::Top,
                        tone,
                        Brightness::Custom(whole.0 as u8),
                    )
                    &&& shown[1] == led_set(
                        second,
                        Led::Bottom,
                        tone,
                        Brightness::Custom(whole.1 as u8),
                    )
                },
            }
        }),
{
}

/// The waveforms are shown in yellow, pink, cyan, red and white, in their order.
pub proof fn law_colors_tell_waves(wave: Waveform)
    ensures
        (wave_color(wave) == Color::Yellow) == (wave == Waveform::Sine),
        (wave_color(wave) == Color::Pink) == (wave == Waveform::Triangle),
        (wave_color(wave) == Color::Cyan) == (wave == Waveform::Saw),
        (wave_color(wave) == Color::Red) == (wave == Waveform::SawInv),
        (wave_color(wave) == Color::White) == (wave == Waveform::Square),
{
}

/// The app starts on what is stored, muted as it is stored, both outputs at zero,
/// the LFO at the stored speed. Its faders are where they are found.
pub proof fn law_starts_on_storage(
    app: App<2>,
    params: Params,
    storage: Storage,
    faders: [u16; 2],
    takeover: TakeoverMode,
    tables: Tables,
)
    ensures
        ({
            let s = Panner::started(app, params, storage, faders, takeover, tables);
            &&& s.start_channel == app.start_channel && s.params == params && s.storage == storage
            &&& s.latch_layer == LatchLayer::Main
            &&& s.latch[0] == AnalogLatch::initial(faders[0], 25, takeover)
            &&& s.latch[1] == AnalogLatch::initial(faders[1], 25, takeover)
            &&& s.muted == storage.muted
            &&& s.lfo_rate == s.after(Event::LoadScene(storage), tables).lfo_rate
            &&& s.main_layer_value == faders[0]
            &&& s.output == 0 && s.out_l == 0 && s.out_r == 0
            &&& s.last_out[0] == 0 && s.last_out[1] == 0
            &&& s.val_left == 0 && s.val_right == 0
            &&& s.fader_latch == AnalogLatch::initial(faders[1], 25, takeover)
        }),
{
}

/// The parameters of a fresh app, and what it has in its storage.
pub proof fn law_fresh_app(start_channel: usize, r: Storage)
    requires
        call_ensures(Storage::default, (), r),
    ensures
        ({
            let p = initial_params(start_channel);
            &&& p.curve == Curve::Linear
            &&& p.range == Range::_0_10V
            &&& p.midi_channel == MidiChannel(1)
            &&& p.midi_cc_l == MidiCc::for_channel(32, start_channel)
            &&& p.midi_cc_r == MidiCc::for_channel(33, start_channel)
            &&& p.midi_out == (MidiOut { usb: false, out1: false, out2: false })
            &&& !p.on_release
            &&& p.color == Color::Blue
            &&& p.save_state
            &&& !p.nrpn
        }),
        !r.muted,
        r.att_saved == 4095,
        r.fad_val == 4095,
        r.pan_val == 2048,
        r.lfo_speed == 2048,
        r.lfo_amt == 0,
        r.wave == Waveform::Sine,
{
}

} // verus!
