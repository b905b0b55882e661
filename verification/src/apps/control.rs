//! Control: a fader and a button for MIDI and CV.
use vstd::prelude::*;

use crate::app::{
    led_set, led_unset, Action, App, I2cOutput, Leds, MidiOutput, OutJack, PortMode,
};
use crate::apps::parts::{
    byte_level, curve_value, curved, level_byte, level_value, leveled, light_or_not, lit_or_not,
};
use crate::latch::{AnalogLatch, LatchLayer, TakeoverMode};
use crate::storage::{values_new, values_push, AppParams, AppStorage, ManagedStorage, ParamStore};
use crate::tables::Tables;
use crate::tasks::leds::Led;
use crate::types::{
    Brightness, Color, Curve, MidiCc, MidiChannel, MidiOut, ParamValue, Range, Value,
};
use crate::utils::{
    clickless, clickless_step, led_level, split_unsigned_value, unsigned_halves, value_level,
};

verus! {

pub const CHANNELS: usize = 1;

pub const PARAMS: usize = 13;

/// The parameters of the app. The button mutes (0), toggles a controller (1), or
/// sends it while held (2).
#[derive(Clone, Copy, Debug, PartialEq, Eq, Structural)]
pub struct Params {
    pub curve: Curve,
    pub range: Range,
    pub midi_channel: MidiChannel,
    pub midi_cc: MidiCc,
    pub midi_out: MidiOut,
    pub on_release: bool,
    pub invert: bool,
    pub color: Color,
    pub save_state: bool,
    pub button_mode: usize,
    pub button_ch: MidiChannel,
    pub button_cc: MidiCc,
    pub nrpn: bool,
}

impl AppParams for Params {
    open spec fn read(values: Seq<Value>) -> Option<Self> {
        if values.len() < 13 {
            None
        } else {
            Some(
                Params {
                    curve: Curve::reads(values[0]),
                    range: Range::reads(values[1]),
                    midi_channel: MidiChannel::reads(values[2]),
                    midi_cc: MidiCc::reads(values[3]),
                    on_release: bool::reads(values[4]),
                    invert: bool::reads(values[5]),
                    color: Color::reads(values[6]),
                    save_state: bool::reads(values[7]),
                    button_mode: usize::reads(values[8]),
                    button_ch: MidiChannel::reads(values[9]),
                    button_cc: MidiCc::reads(values[10]),
                    nrpn: bool::reads(values[11]),
                    midi_out: MidiOut::reads(values[12]),
                },
            )
        }
    }

    open spec fn listing(self) -> Seq<Value> {
        seq![
            self.curve.stored(),
            self.range.stored(),
            self.midi_channel.stored(),
            self.midi_cc.stored(),
            self.on_release.stored(),
            self.invert.stored(),
            self.color.stored(),
            self.save_state.stored(),
            self.button_mode.stored(),
            self.button_ch.stored(),
            self.button_cc.stored(),
            Value::MidiNrpn(self.nrpn),
            self.midi_out.stored(),
        ]
    }

    fn from_values(values: &[Value]) -> (r: Option<Self>) {
        if values.len() < PARAMS {
            return None;
        }
        Some(
            Params {
                curve: Curve::from_value(values[0]),
                range: Range::from_value(values[1]),
                midi_channel: MidiChannel::from_value(values[2]),
                midi_cc: MidiCc::from_value(values[3]),
                on_release: bool::from_value(values[4]),
                invert: bool::from_value(values[5]),
                color: Color::from_value(values[6]),
                save_state: bool::from_value(values[7]),
                button_mode: usize::from_value(values[8]),
                button_ch: MidiChannel::from_value(values[9]),
                button_cc: MidiCc::from_value(values[10]),
                nrpn: bool::from_value(values[11]),
                midi_out: MidiOut::from_value(values[12]),
            },
        )
    }

    fn to_values(&self) -> (r: heapless::Vec<Value, 16>) {
        let mut vec = values_new();
        let _ = values_push(&mut vec, self.curve.into_value());
        let _ = values_push(&mut vec, self.range.into_value());
        let _ = values_push(&mut vec, self.midi_channel.into_value());
        let _ = values_push(&mut vec, self.midi_cc.into_value());
        let _ = values_push(&mut vec, self.on_release.into_value());
        let _ = values_push(&mut vec, self.invert.into_value());
        let _ = values_push(&mut vec, self.color.into_value());
        let _ = values_push(&mut vec, self.save_state.into_value());
        let _ = values_push(&mut vec, self.button_mode.into_value());
        let _ = values_push(&mut vec, self.button_ch.into_value());
        let _ = values_push(&mut vec, self.button_cc.into_value());
        let _ = values_push(&mut vec, Value::MidiNrpn(self.nrpn));
        let _ = values_push(&mut vec, self.midi_out.into_value());
        vec
    }

    proof fn law_params_round_trip(self) {
    }
}

/// What the app keeps.
#[derive(Clone, Copy, Debug, PartialEq, Eq, Structural)]
pub struct Storage {
    pub muted: bool,
    pub att_saved: u16,
    pub fad_val: u16,
}

impl Default for Storage {
    fn default() -> (r: Self)
        ensures
            r == (Storage { muted: false, att_saved: 4095, fad_val: 4095 }),
    {
        Storage { muted: false, att_saved: 4095, fad_val: 4095 }
    }
}

impl AppStorage for Storage {

}

/// The parameters that the app starts with: the controllers of its channel.
pub open spec fn initial_params(start_channel: usize) -> Params {
    Params {
        curve: Curve::Linear,
        range: Range::_0_10V,
        midi_channel: MidiChannel(1),
        midi_cc: MidiCc::for_channel(32, start_channel),
        midi_out: (MidiOut { usb: true, out1: true, out2: true }),
        on_release: false,
        invert: false,
        color: Color::Violet,
        save_state: true,
        button_mode: 0,
        button_ch: MidiChannel(1),
        button_cc: MidiCc::for_channel(48, start_channel),
        nrpn: false,
    }
}

/// The parameters and the storage of the app, before anything was loaded.
pub fn wrapper(app: App<1>) -> (r: (ParamStore<Params>, ManagedStorage<Storage>))
    ensures
        r.0 == (ParamStore {
            app_id: app.app_id,
            inner: initial_params(app.start_channel),
            layout_id: app.layout_id,
        }),
        r.1.app_id == app.app_id,
        r.1.layout_id == app.layout_id,
        call_ensures(Storage::default, (), r.1.inner),
{
    (
        ParamStore::new(
            app.app_id,
            app.layout_id,
            Params {
                curve: Curve::Linear,
                range: Range::_0_10V,
                midi_channel: MidiChannel::default(),
                midi_cc: MidiCc::of_channel(32, app.start_channel),
                midi_out: MidiOut::default(),
                on_release: false,
                invert: false,
                color: Color::Violet,
                save_state: true,
                button_mode: 0,
                button_ch: MidiChannel::default(),
                button_cc: MidiCc::of_channel(48, app.start_channel),
                nrpn: false,
            },
        ),
        ManagedStorage::new(app.app_id, app.layout_id),
    )
}

/// What is read once per millisecond: the shift button and the fader. `slewed` is
/// the output one step closer to its target.
#[derive(Clone, Copy, Debug, PartialEq, Eq, Structural)]
pub struct Inputs {
    pub shift: bool,
    pub fader: u16,
    pub slewed: u16,
}

/// What an event brings.
pub enum Event {
    /// A millisecond has gone by.
    Millisecond(Inputs),
    /// The button was pressed.
    Down,
    /// The button was released.
    Up,
    /// A second has gone by.
    Second,
    /// A scene was loaded into the storage.
    LoadScene(Storage),
    /// A scene is to be saved.
    SaveScene(u8),
}

/// The running app. `smoothed` is the level after the click filter; `held` tells
/// whether a button that sends while held is down.
pub struct Control {
    pub start_channel: usize,
    pub params: Params,
    pub storage: Storage,
    pub muted: bool,
    pub latch_layer: LatchLayer,
    pub latch: AnalogLatch,
    pub main_layer_value: u16,
    pub smoothed: u16,
    pub out: u16,
    pub last_out: u32,
    pub held: bool,
}

impl Control {
    pub open spec fn wf(self) -> bool {
        self.start_channel < 16 && self.smoothed <= 4095
    }

    pub open spec fn bipolar(self) -> bool {
        self.params.range.bipolar()
    }

    /// The output, which spans all of its range.
    pub open spec fn jack(self) -> OutJack {
        OutJack {
            channel: self.start_channel,
            range: if self.bipolar() {
                Range::_Neg5_5V
            } else {
                Range::_0_10V
            },
        }
    }

    fn get_jack(&self) -> (r: OutJack)
        ensures
            r == self.jack(),
    {
        if self.params.range.is_bipolar() {
            OutJack::new(self.start_channel, Range::_Neg5_5V)
        } else {
            OutJack::new(self.start_channel, Range::_0_10V)
        }
    }

    /// The MIDI port of the fader.
    pub open spec fn midi(self) -> MidiOutput {
        MidiOutput::port(
            self.start_channel,
            self.params.midi_out,
            self.params.midi_channel,
            self.params.nrpn,
        )
    }

    fn midi_port(&self) -> (r: MidiOutput)
        ensures
            r == self.midi(),
    {
        MidiOutput::new(
            self.params.midi_out,
            self.start_channel,
            self.params.midi_channel.to_wire(),
            self.params.nrpn,
        )
    }

    /// The controller of the button at a value.
    pub open spec fn button_message(self, value: u16) -> Action {
        MidiOutput::port(
            self.start_channel,
            self.params.midi_out,
            self.params.button_ch,
            false,
        ).cc(self.params.button_cc, value)
    }

    fn send_button(&self, value: u16) -> (r: Action)
        ensures
            r == self.button_message(value),
    {
        MidiOutput::new(
            self.params.midi_out,
            self.start_channel,
            self.params.button_ch.to_wire(),
            false,
        ).send_cc(self.params.button_cc, value)
    }

    /// The button, lit or dark.
    pub open spec fn button_led(self, lit: bool) -> Action {
        lit_or_not(self.start_channel, Led::Button, lit, self.params.color, Brightness::Mid)
    }

    fn show_button(&self, lit: bool) -> (r: Action)
        requires
            self.start_channel < 16,
        ensures
            r == self.button_led(lit),
    {
        light_or_not(self.start_channel, Led::Button, lit, self.params.color, Brightness::Mid)
    }

    /// The state that the app starts with.
    pub open spec fn started(
        app: App<1>,
        params: Params,
        storage: Storage,
        fader: u16,
        takeover: TakeoverMode,
    ) -> Control {
        Control {
            start_channel: app.start_channel,
            params,
            storage,
            muted: storage.muted,
            latch_layer: LatchLayer::Main,
            latch: AnalogLatch::initial(fader, 25, takeover),
            main_layer_value: fader,
            smoothed: 0,
            out: 0,
            last_out: 0,
            held: false,
        }
    }

    /// Starts the app on what is stored.
    pub fn new(
        app: App<1>,
        params: Params,
        storage: Storage,
        fader: u16,
        takeover: TakeoverMode,
    ) -> (r: (Self, Vec<Action>))
        requires
            app.wf(),
        ensures
            r.0 == Control::started(app, params, storage, fader, takeover),
            r.0.wf(),
            r.1@ == seq![
                r.0.button_led(!storage.muted),
                Action::Configure {
                    channel: app.start_channel,
                    mode: PortMode::Output { bipolar: params.range.bipolar() },
                    gpo_level: None,
                },
            ],
    {
        let state = Control {
            start_channel: app.start_channel,
            params,
            storage,
            muted: storage.muted,
            latch_layer: LatchLayer::Main,
            latch: app.make_latch(fader, takeover),
            main_layer_value: fader,
            smoothed: 0,
            out: 0,
            last_out: 0,
            held: false,
        };
        let range = state.get_jack().range;
        let actions = vec![state.show_button(!storage.muted), app.make_out_jack(0, range).1];
        (state, actions)
    }

    /// The level on the main layer: the stored one, where the state is stored.
    pub open spec fn level(self) -> u16 {
        if self.params.save_state {
            self.storage.fad_val
        } else {
            self.main_layer_value
        }
    }

    /// The state after the fader was read: it sets the level, or with shift the
    /// attenuation.
    pub open spec fn fader_read(self, shift: bool, fader: u16) -> Control {
        let layer = if shift {
            LatchLayer::Alt
        } else {
            LatchLayer::Main
        };
        let target = if shift {
            self.storage.att_saved
        } else {
            self.level()
        };
        let latched = Control {
            latch_layer: layer,
            main_layer_value: self.level(),
            latch: self.latch.updated(fader, layer, target),
            ..self
        };
        match self.latch.emits(fader, layer, target) {
            Some(value) => if shift {
                Control { storage: Storage { att_saved: value, ..self.storage }, ..latched }
            } else if self.params.save_state {
                Control { storage: Storage { fad_val: value, ..self.storage }, ..latched }
            } else {
                Control { main_layer_value: value, ..latched }
            },
            None => latched,
        }
    }

    fn read_fader(&mut self, shift: bool, fader: u16)
        requires
            old(self).wf(),
        ensures
            *final(self) == old(self).fader_read(shift, fader),
            final(self).wf(),
    {
        let layer = LatchLayer::from(shift);
        self.latch_layer = layer;
        if self.params.save_state {
            self.main_layer_value = self.storage.fad_val;
        }
        let target: u16 = match layer {
            LatchLayer::Main => self.main_layer_value,
            LatchLayer::Alt => self.storage.att_saved,
            LatchLayer::Third => 0,
        };
        if let Some(new_value) = self.latch.update(fader, layer, target) {
            match layer {
                LatchLayer::Main => {
                    if self.params.save_state {
                        self.storage.fad_val = new_value;
                    } else {
                        self.main_layer_value = new_value;
                    }
                },
                LatchLayer::Alt => {
                    self.storage.att_saved = new_value;
                },
                LatchLayer::Third => {},
            }
        }
    }

    /// Whether the output is muted: the button has to mute.
    pub open spec fn is_muted(self) -> bool {
        self.params.button_mode == 0 && self.muted
    }

    /// The output at rest.
    pub open spec fn rest(self) -> int {
        if self.bipolar() {
            2047
        } else {
            0
        }
    }

    /// The level after the click filter.
    pub open spec fn next_smoothed(self, tables: Tables) -> int {
        if self.is_muted() {
            self.smoothed as int
        } else {
            clickless_step(
                self.smoothed as int,
                curved(
                    tables,
                    self.params.curve,
                    self.bipolar(),
                    self.main_layer_value as int,
                ),
            )
        }
    }

    /// Where the output is to go: the curved level, attenuated, and upside down
    /// where it is inverted, in 16 bits.
    pub open spec fn target(self, tables: Tables) -> int {
        let val = if self.is_muted() {
            self.rest()
        } else {
            self.next_smoothed(tables)
        };
        let attenuated = leveled(self.bipolar(), val, self.storage.att_saved as int);
        if self.params.invert {
            (4095 - attenuated) % 65536
        } else {
            attenuated
        }
    }

    /// The value for the controller, which follows the fader itself.
    pub open spec fn midi_value(self) -> int {
        if self.is_muted() {
            self.rest()
        } else {
            leveled(self.bipolar(), self.main_layer_value as int, self.storage.att_saved as int)
        }
    }

    fn muted_now(&self) -> (r: bool)
        ensures
            r == self.is_muted(),
    {
        self.params.button_mode == 0 && self.muted
    }

    fn find_smoothed(&self, tables: &Tables) -> (r: u16)
        requires
            self.wf(),
            tables.wf(),
        ensures
            r == self.next_smoothed(*tables),
            r <= 4095,
    {
        if self.muted_now() {
            self.smoothed
        } else {
            let bipolar = self.params.range.is_bipolar();
            clickless(
                self.smoothed,
                curve_value(tables, self.params.curve, bipolar, self.main_layer_value),
            )
        }
    }

    fn find_target(&self, tables: &Tables) -> (r: u16)
        requires
            self.wf(),
            tables.wf(),
        ensures
            r == self.target(*tables),
    {
        let bipolar = self.params.range.is_bipolar();
        let val: u16 = if self.muted_now() {
            if bipolar {
                2047
            } else {
                0
            }
        } else {
            self.find_smoothed(tables)
        };
        let attenuated: u16 = level_value(bipolar, val, self.storage.att_saved);
        if self.params.invert {
            4095u16.wrapping_sub(attenuated)
        } else {
            attenuated
        }
    }

    fn find_midi_value(&self) -> (r: u16)
        requires
            self.wf(),
        ensures
            r == self.midi_value(),
    {
        let bipolar = self.params.range.is_bipolar();
        if self.muted_now() {
            if bipolar {
                2047
            } else {
                0
            }
        } else {
            level_value(bipolar, self.main_layer_value, self.storage.att_saved)
        }
    }

    /// What the slew works on in a millisecond with the given inputs: the output,
    /// and where it is to go.
    pub fn slew_request(&self, shift: bool, fader: u16, tables: &Tables) -> (r: (u16, u16))
        requires
            self.wf(),
            tables.wf(),
        ensures
            r.0 == self.out,
            r.1 == self.fader_read(shift, fader).target(*tables),
    {
        let mut next = Control {
            start_channel: self.start_channel,
            params: self.params,
            storage: self.storage,
            muted: self.muted,
            latch_layer: self.latch_layer,
            latch: self.latch,
            main_layer_value: self.main_layer_value,
            smoothed: self.smoothed,
            out: self.out,
            last_out: self.last_out,
            held: self.held,
        };
        next.read_fader(shift, fader);
        (self.out, next.find_target(tables))
    }

    /// The state after the output was set.
    pub open spec fn put_out(self, slewed: u16, tables: Tables) -> Control {
        Control {
            smoothed: self.next_smoothed(tables) as u16,
            out: slewed,
            last_out: (self.midi_value() * 127 / 4095) as u32,
            ..self
        }
    }

    /// The LEDs, by what the fader edits: the output or the attenuation.
    pub open spec fn leds(self, slewed: u16, tables: Tables) -> Seq<Action> {
        let color = self.params.color;
        let att = Brightness::Custom(level_byte(self.storage.att_saved as int));
        if self.latch_layer == LatchLayer::Main {
            if self.bipolar() {
                let halves = unsigned_halves(slewed as int);
                seq![
                    led_set(
                        self.start_channel,
                        Led::Top,
                        color,
                        Brightness::Custom(halves.0 as u8),
                    ),
                    led_set(
                        self.start_channel,
                        Led::Bottom,
                        color,
                        Brightness::Custom(halves.1 as u8),
                    ),
                ]
            } else {
                seq![
                    led_set(
                        self.start_channel,
                        Led::Top,
                        color,
                        Brightness::Custom(led_level(self.target(tables))),
                    ),
                    led_unset(self.start_channel, Led::Bottom),
                ]
            }
        } else if self.latch_layer == LatchLayer::Alt {
            seq![
                led_set(self.start_channel, Led::Top, Color::Red, att),
                if self.bipolar() {
                    led_set(self.start_channel, Led::Bottom, Color::Red, att)
                } else {
                    led_unset(self.start_channel, Led::Bottom)
                },
            ]
        } else {
            Seq::empty()
        }
    }

    /// What setting the output sets off: the voltage, and the controller and the
    /// report where the 7-bit value has changed.
    pub open spec fn out_actions(self, slewed: u16, tables: Tables) -> Seq<Action> {
        let value = self.midi_value();
        seq![self.jack().valued(slewed)] + (if self.last_out != value * 127 / 4095 {
            seq![
                self.midi().cc(self.params.midi_cc, value as u16),
                Action::I2cFader {
                    channel: self.start_channel,
                    value: slewed,
                    range: self.params.range,
                },
            ]
        } else {
            Seq::empty()
        }) + self.leds(slewed, tables)
    }

    fn push_leds(&self, slewed: u16, target: u16, actions: &mut Vec<Action>, tables: Ghost<Tables>)
        requires
            self.wf(),
            target == self.target(tables@),
        ensures
            final(actions)@ == old(actions)@ + self.leds(slewed, tables@),
    {
        let leds = Leds::<1>::new(self.start_channel);
        let color = self.params.color;
        match self.latch_layer {
            LatchLayer::Main => {
                if self.params.range.is_bipolar() {
                    let led1 = split_unsigned_value(slewed);
                    actions.push(leds.set(0, Led::Top, color, Brightness::Custom(led1[0])));
                    actions.push(leds.set(0, Led::Bottom, color, Brightness::Custom(led1[1])));
                } else {
                    let level: u8 = value_level(target);
                    actions.push(leds.set(0, Led::Top, color, Brightness::Custom(level)));
                    actions.push(leds.unset(0, Led::Bottom));
                }
            },
            LatchLayer::Alt => {
                let att = Brightness::Custom(byte_level(self.storage.att_saved));
                actions.push(leds.set(0, Led::Top, Color::Red, att));
                if self.params.range.is_bipolar() {
                    actions.push(leds.set(0, Led::Bottom, Color::Red, att));
                } else {
                    actions.push(leds.unset(0, Led::Bottom));
                }
            },
            LatchLayer::Third => {},
        }
    }

    fn put(&mut self, slewed: u16, tables: &Tables) -> (r: Vec<Action>)
        requires
            old(self).wf(),
            tables.wf(),
        ensures
            *final(self) == old(self).put_out(slewed, *tables),
            final(self).wf(),
            r@ == old(self).out_actions(slewed, *tables),
    {
        let mut actions: Vec<Action> = Vec::new();
        let target: u16 = self.find_target(tables);
        let value: u16 = self.find_midi_value();
        let scaled: u32 = value as u32 * 127 / 4095;
        actions.push(self.get_jack().set_value(slewed));
        if self.last_out != scaled {
            actions.push(self.midi_port().send_cc(self.params.midi_cc, value));
            let i2c = I2cOutput::<1>::new(self.start_channel);
            actions.push(i2c.send_fader_value(0, slewed, self.params.range));
        }
        self.push_leds(slewed, target, &mut actions, Ghost(*tables));
        self.smoothed = self.find_smoothed(tables);
        self.out = slewed;
        self.last_out = scaled;
        actions
    }

    /// A millisecond has gone by: the fader is read, and the output follows.
    pub fn main_loop(&mut self, inputs: Inputs, tables: &Tables) -> (r: Vec<Action>)
        requires
            old(self).wf(),
            tables.wf(),
        ensures
            *final(self) == old(self).fader_read(inputs.shift, inputs.fader).put_out(
                inputs.slewed,
                *tables,
            ),
            final(self).wf(),
            r@ == old(self).fader_read(inputs.shift, inputs.fader).out_actions(
                inputs.slewed,
                *tables,
            ),
    {
        self.read_fader(inputs.shift, inputs.fader);
        self.put(inputs.slewed, tables)
    }

    /// Whether an event of the button toggles: its release or its press, by the
    /// setting, unless the button sends while held.
    pub open spec fn toggles(self, down: bool) -> bool {
        self.params.button_mode != 2 && down != self.params.on_release
    }

    /// Whether an event of the button is sent on, where the button sends while
    /// held: presses and releases take turns.
    pub open spec fn sends(self, down: bool) -> bool {
        self.params.button_mode == 2 && down != self.held
    }

    /// The state after an event of the button.
    pub open spec fn button_moved(self, down: bool) -> Control {
        if self.sends(down) {
            Control { held: down, ..self }
        } else if self.toggles(down) {
            let muted = !self.storage.muted;
            Control { muted, storage: Storage { muted, ..self.storage }, ..self }
        } else {
            self
        }
    }

    /// What an event of the button sets off.
    pub open spec fn button_actions(self, down: bool) -> Seq<Action> {
        if self.sends(down) {
            seq![
                self.button_led(down),
                self.button_message(
                    if down {
                        4095
                    } else {
                        0
                    },
                ),
            ]
        } else if self.toggles(down) {
            let muted = !self.storage.muted;
            seq![Action::Save, self.button_led(!muted)] + (if self.params.button_mode == 1 {
                seq![
                    self.button_message(
                        if muted {
                            0
                        } else {
                            4095
                        },
                    ),
                ]
            } else {
                Seq::empty()
            })
        } else {
            Seq::empty()
        }
    }

    /// The button was pressed, or released.
    pub fn button_handler(&mut self, down: bool) -> (r: Vec<Action>)
        requires
            old(self).wf(),
        ensures
            *final(self) == old(self).button_moved(down),
            final(self).wf(),
            r@ == old(self).button_actions(down),
    {
        let mut actions: Vec<Action> = Vec::new();
        if self.params.button_mode == 2 {
            if down != self.held {
                self.held = down;
                actions.push(self.show_button(down));
                let value: u16 = if down {
                    4095
                } else {
                    0
                };
                actions.push(self.send_button(value));
            }
        } else if down != self.params.on_release {
            self.storage.muted = !self.storage.muted;
            self.muted = self.storage.muted;
            actions.push(Action::Save);
            actions.push(self.show_button(!self.muted));
            if self.params.button_mode == 1 {
                let value: u16 = if self.muted {
                    0
                } else {
                    4095
                };
                actions.push(self.send_button(value));
            }
        }
        actions
    }

    /// A second has gone by: what the fader has set is saved.
    pub fn save_handler(&self) -> (r: Vec<Action>)
        ensures
            r@ == seq![Action::SaveNow],
    {
        vec![Action::SaveNow]
    }

    /// The state after a scene was loaded into the storage. The mute follows
    /// where the state is stored.
    pub open spec fn loaded(self, storage: Storage) -> Control {
        Control {
            storage,
            muted: if self.params.save_state {
                storage.muted
            } else {
                self.muted
            },
            ..self
        }
    }

    /// A scene was loaded into the storage.
    pub fn load_scene(&mut self, storage: Storage) -> (r: Vec<Action>)
        requires
            old(self).wf(),
        ensures
            *final(self) == old(self).loaded(storage),
            final(self).wf(),
            r@ == (if old(self).params.save_state {
                seq![old(self).button_led(!storage.muted)]
            } else {
                Seq::empty()
            }),
    {
        let mut actions: Vec<Action> = Vec::new();
        self.storage = storage;
        if self.params.save_state {
            self.muted = storage.muted;
            actions.push(self.show_button(!storage.muted));
        }
        actions
    }

    /// The state after an event.
    pub open spec fn after(self, event: Event, tables: Tables) -> Control {
        match event {
            Event::Millisecond(inputs) => self.fader_read(inputs.shift, inputs.fader).put_out(
                inputs.slewed,
                tables,
            ),
            Event::Down => self.button_moved(true),
            Event::Up => self.button_moved(false),
            Event::Second => self,
            Event::LoadScene(storage) => self.loaded(storage),
            Event::SaveScene(_) => self,
        }
    }

    /// What an event sets off.
    pub open spec fn does(self, event: Event, tables: Tables) -> Seq<Action> {
        match event {
            Event::Millisecond(inputs) => self.fader_read(
                inputs.shift,
                inputs.fader,
            ).out_actions(inputs.slewed, tables),
            Event::Down => self.button_actions(true),
            Event::Up => self.button_actions(false),
            Event::Second => seq![Action::SaveNow],
            Event::LoadScene(storage) => if self.params.save_state {
                seq![self.button_led(!storage.muted)]
            } else {
                Seq::empty()
            },
            Event::SaveScene(scene) => seq![Action::SaveScene(scene)],
        }
    }

    /// Handles an event.
    pub fn run(&mut self, event: Event, tables: &Tables) -> (r: Vec<Action>)
        requires
            old(self).wf(),
            tables.wf(),
        ensures
            *final(self) == old(self).after(event, *tables),
            final(self).wf(),
            r@ == old(self).does(event, *tables),
    {
        match event {
            Event::Millisecond(inputs) => self.main_loop(inputs, tables),
            Event::Down => self.button_handler(true),
            Event::Up => self.button_handler(false),
            Event::Second => self.save_handler(),
            Event::LoadScene(storage) => self.load_scene(storage),
            Event::SaveScene(scene) => vec![Action::SaveScene(scene)],
        }
    }
}

/// Toggling the mute twice leaves the app as it was.
pub proof fn law_mute_toggles_back(app: Control)
    requires
        app.params.button_mode != 2,
        app.muted == app.storage.muted,
    ensures
        app.button_moved(!app.params.on_release).button_moved(!app.params.on_release) == app,
        app.button_moved(app.params.on_release) == app,
{
}

/// A button that sends while held sends as many releases as presses: after a
/// press only a release is sent, and after a release only a press.
pub proof fn law_held_button_alternates(app: Control, down: bool)
    requires
        app.params.button_mode == 2,
    ensures
        app.button_moved(down).held == down,
        app.button_moved(down).button_actions(down) == Seq::<Action>::empty(),
{
}

/// An inverted output mirrors the plain one within the 12-bit range, where the plain
/// one lies in it.
pub proof fn law_inversion_mirrors(app: Control, tables: Tables)
    requires
        app.params.invert,
        0 <= (Control { params: Params { invert: false, ..app.params }, ..app }).target(tables)
            <= 4095,
    ensures
        app.target(tables) + (Control {
            params: Params { invert: false, ..app.params },
            ..app
        }).target(tables) == 4095,
{
}

/// A fader that has a value to give sets the level, which is stored where the
/// state is, or with shift the attenuation; nothing else is stored.
pub proof fn law_fader_sets_level(app: Control, inputs: Inputs, tables: Tables)
    requires
        app.wf(),
        tables.wf(),
    ensures
        ({
            let after = app.after(Event::Millisecond(inputs), tables);
            let level = if app.params.save_state {
                app.storage.fad_val
            } else {
                app.main_layer_value
            };
            let layer = if inputs.shift {
                LatchLayer::Alt
            } else {
                LatchLayer::Main
            };
            let target = if inputs.shift {
                app.storage.att_saved
            } else {
                level
            };
            let emitted = app.latch.emits(inputs.fader, layer, target);
            &&& after.latch_layer == layer
            &&& after.latch == app.latch.updated(inputs.fader, layer, target)
            &&& after.storage.muted == app.storage.muted && after.muted == app.muted
            &&& emitted is None ==> after.storage == app.storage && after.main_layer_value == level
            &&& emitted matches Some(v) ==> {
                &&& inputs.shift ==> after.storage.att_saved == v && after.storage.fad_val
                    == app.storage.fad_val && after.main_layer_value == level
                &&& !inputs.shift ==> after.storage.att_saved == app.storage.att_saved
                &&& !inputs.shift && app.params.save_state ==> after.storage.fad_val == v
                &&& !inputs.shift && !app.params.save_state ==> after.main_layer_value == v
                    && after.storage == app.storage
            }
        }),
{
}

/// The output is set to where its slew has got to, in every millisecond. Where it
/// is to go is the level on its curve, through the click filter, at the stored
/// attenuation, or its mirror image where it is inverted; muted it is at rest.
pub proof fn law_output_follows_level(app: Control, inputs: Inputs, tables: Tables)
    requires
        app.wf(),
        tables.wf(),
        app.params.range == Range::_0_10V,
        app.storage.att_saved <= 4095,
        app.latch.emits(
            inputs.fader,
            if inputs.shift {
                LatchLayer::Alt
            } else {
                LatchLayer::Main
            },
            if inputs.shift {
                app.storage.att_saved
            } else if app.params.save_state {
                app.storage.fad_val
            } else {
                app.main_layer_value
            },
        ) is None,
    ensures
        ({
            let read = app.fader_read(inputs.shift, inputs.fader);
            let after = app.after(Event::Millisecond(inputs), tables);
            let level = if app.params.save_state {
                app.storage.fad_val
            } else {
                app.main_layer_value
            };
            let at = if level < 4095 {
                level as int
            } else {
                4095
            };
            let curve = match app.params.curve {
                Curve::Linear => tables.linear@[at],
                Curve::Logarithmic => tables.logarithmic@[at],
                Curve::Exponential => tables.exponential@[at],
            };
            let muted = app.params.button_mode == 0 && app.muted;
            let goal = read.target(tables);
            let plain = if app.params.invert {
                4095 - goal
            } else {
                goal
            };
            &&& app.does(Event::Millisecond(inputs), tables)[0] == (Action::Dac {
                channel: app.start_channel,
                value: inputs.slewed,
            })
            &&& after.out == inputs.slewed
            &&& muted ==> plain == 0 && after.smoothed == app.smoothed
            &&& !muted ==> 4095 * plain <= after.smoothed * app.storage.att_saved < 4095 * plain
                + 4095
            &&& !muted && app.smoothed < curve ==> app.smoothed < after.smoothed <= curve
            &&& !muted && app.smoothed > curve ==> curve <= after.smoothed < app.smoothed
            &&& !muted && app.smoothed == curve ==> after.smoothed == curve
        }),
{
    let read = app.fader_read(inputs.shift, inputs.fader);
    let att = app.storage.att_saved as int;
    let next = read.next_smoothed(tables);
    assert(0 <= next <= 4095);
    crate::apps::parts::law_levels_scale_from_rest(next, att);
    crate::apps::parts::law_levels_scale_from_rest(0, att);
    crate::utils::law_attenuate_ends(0, att);
    crate::utils::law_attenuate_ends(next, att);
}

/// In a bipolar range the output goes both ways from the middle: the level is
/// bent and attenuated from there, and muted it rests there, up to a count.
pub proof fn law_bipolar_output_follows_level(
    app: Control,
    shift: bool,
    fader: u16,
    tables: Tables,
)
    requires
        app.wf(),
        tables.wf(),
        app.params.range == Range::_Neg5_5V,
        app.storage.att_saved <= 4095,
        !shift && app.latch.emits(
            fader,
            LatchLayer::Main,
            if app.params.save_state {
                app.storage.fad_val
            } else {
                app.main_layer_value
            },
        ) is None,
    ensures
        ({
            let read = app.fader_read(shift, fader);
            let goal = read.target(tables);
            let plain = if app.params.invert {
                4095 - goal
            } else {
                goal
            };
            let att = app.storage.att_saved;
            let muted = app.params.button_mode == 0 && app.muted;
            let level = if app.params.save_state {
                app.storage.fad_val
            } else {
                app.main_layer_value
            };
            let next = read.next_smoothed(tables);
            &&& muted ==> 2047 <= plain <= 2048
            &&& !muted && next >= 2048 ==> 4095 * (plain - 2048) <= (next - 2048) * att < 4095 * (
            plain - 2048) + 4095
            &&& !muted && next < 2048 ==> 4095 * (2048 - plain) <= (2048 - next) * att < 4095 * (2048
                - plain) + 4095
            &&& !muted && next == app.smoothed ==> next == curved(
                tables,
                app.params.curve,
                true,
                level as int,
            )
        }),
{
    let read = app.fader_read(shift, fader);
    let att = app.storage.att_saved as int;
    let next = read.next_smoothed(tables);
    assert(0 <= next <= 4095);
    crate::apps::parts::law_levels_scale_from_rest(next, att);
    crate::apps::parts::law_levels_scale_from_rest(2047, att);
    let goal = curved(
        tables,
        app.params.curve,
        true,
        read.main_layer_value as int,
    );
    assert(0 <= goal);
    crate::utils::law_clickless_converges(app.smoothed as int, goal);
}

/// The controller follows the level at the attenuation, uncurved, and is sent with
/// a report of the output when its seven bits change, and only then; muted it is
/// at rest.
pub proof fn law_controller_follows_level(app: Control, inputs: Inputs, tables: Tables)
    requires
        app.wf(),
        tables.wf(),
        app.params.range == Range::_0_10V,
        app.storage.att_saved <= 4095,
        app.storage.fad_val <= 4095,
        app.main_layer_value <= 4095,
        app.latch.emits(
            inputs.fader,
            if inputs.shift {
                LatchLayer::Alt
            } else {
                LatchLayer::Main
            },
            if inputs.shift {
                app.storage.att_saved
            } else if app.params.save_state {
                app.storage.fad_val
            } else {
                app.main_layer_value
            },
        ) is None,
    ensures
        ({
            let event = Event::Millisecond(inputs);
            let after = app.after(event, tables);
            let actions = app.does(event, tables);
            let level = if app.params.save_state {
                app.storage.fad_val
            } else {
                app.main_layer_value
            };
            let muted = app.params.button_mode == 0 && app.muted;
            let value = app.fader_read(inputs.shift, inputs.fader).midi_value();
            &&& muted ==> value == 0
            &&& !muted ==> 4095 * value <= level * app.storage.att_saved < 4095 * value + 4095
            &&& 0 <= value <= 4095
            &&& 4095 * after.last_out <= 127 * value < 4095 * after.last_out + 4095
            &&& after.last_out != app.last_out ==> actions[1] == app.midi().cc(
                app.params.midi_cc,
                value as u16,
            ) && actions[2] == (Action::I2cFader {
                channel: app.start_channel,
                value: inputs.slewed,
                range: app.params.range,
            })
            &&& after.last_out == app.last_out ==> forall|i: int|
                0 <= i < actions.len() ==> !(#[trigger] actions[i] is Midi)
        }),
{
    let read = app.fader_read(inputs.shift, inputs.fader);
    let att = app.storage.att_saved as int;
    crate::apps::parts::law_levels_scale_from_rest(read.main_layer_value as int, att);
    crate::utils::law_attenuate_ends(read.main_layer_value as int, att);
}

/// A button that toggles does so with its press, or with its release where that is
/// set; the mute is stored and shown, and a button that sends its state sends full
/// scale while not muted and zero while muted. A button that sends while held
/// sends full scale when it goes down and zero when it comes up.
pub proof fn law_button_toggles_or_sends(app: Control, tables: Tables)
    requires
        app.wf(),
    ensures
        ({
            let event = if app.params.on_release {
                Event::Up
            } else {
                Event::Down
            };
            let other = if app.params.on_release {
                Event::Down
            } else {
                Event::Up
            };
            let after = app.after(event, tables);
            let actions = app.does(event, tables);
            let port = MidiOutput::port(
                app.start_channel,
                app.params.midi_out,
                app.params.button_ch,
                false,
            );
            &&& app.params.button_mode != 2 ==> {
                &&& after.muted == !app.storage.muted
                &&& after.storage == (Storage { muted: !app.storage.muted, ..app.storage })
                &&& actions[0] == Action::Save
                &&& app.params.button_mode == 1 ==> actions[2] == port.cc(
                    app.params.button_cc,
                    if after.muted {
                        0
                    } else {
                        4095
                    },
                )
                &&& app.params.button_mode != 1 ==> actions.len() == 2
                &&& app.after(other, tables) == app && app.does(other, tables).len() == 0
            }
            &&& app.params.button_mode == 2 ==> {
                &&& app.after(Event::Down, tables).storage == app.storage && app.after(
                    Event::Up,
                    tables,
                ).storage == app.storage
                &&& !app.held ==> app.does(Event::Down, tables)[1] == port.cc(
                    app.params.button_cc,
                    4095,
                ) && app.does(Event::Up, tables).len() == 0
                &&& app.held ==> app.does(Event::Up, tables)[1] == port.cc(app.params.button_cc, 0)
                    && app.does(Event::Down, tables).len() == 0
                &&& app.after(Event::Down, tables).held && !app.after(Event::Up, tables).held
            }
        }),
{
}

/// What the fader has set is saved once a second, and a scene brings its level,
/// its attenuation and, where the state is stored, its mute.
pub proof fn law_scenes_bring_level(app: Control, storage: Storage, tables: Tables)
    ensures
        app.does(Event::Second, tables) == seq![Action::SaveNow],
        app.after(Event::Second, tables) == app,
        app.after(Event::LoadScene(storage), tables).storage == storage,
        app.after(Event::LoadScene(storage), tables).muted == (if app.params.save_state {
            storage.muted
        } else {
            app.muted
        }),
{
}

/// On the main layer the LEDs show the output: above and below the middle on a
/// bipolar range, on the upper one alone else. With shift they show the attenuation
/// in red, and with the button held nothing.
pub proof fn law_output_is_shown(app: Control, slewed: u16, tables: Tables)
    requires
        app.wf(),
    ensures
        ({
            let shown = app.leds(slewed, tables);
            let first = app.start_channel;
            let color = app.params.color;
            let bipolar = app.params.range.bipolar();
            let (above, below) = unsigned_halves(slewed as int);
            let att = Brightness::Custom(level_byte(app.storage.att_saved as int));
            match app.latch_layer {
                LatchLayer::Main => {
                    &&& shown.len() == 2
                    &&& bipolar ==> shown[0] == led_set(
                        first,
                        Led::Top,
                        color,
                        Brightness::Custom(above as u8),
                    ) && shown[1] == led_set(
                        first,
                        Led::Bottom,
                        color,
                        Brightness::Custom(below as u8),
                    )
                    &&& !bipolar ==> shown[0] == led_set(
                        first,
                        Led::Top,
                        color,
                        Brightness::Custom(led_level(app.target(tables))),
                    ) && shown[1] == led_unset(first, Led::Bottom)
                },
                LatchLayer::Alt => {
                    &&& shown.len() == 2
                    &&& shown[0] == led_set(first, Led::Top, Color::Red, att)
                    &&& bipolar ==> shown[1] == led_set(first, Led::Bottom, Color::Red, att)
                    &&& !bipolar ==> shown[1] == led_unset(first, Led::Bottom)
                },
                LatchLayer::Third => shown.len() == 0,
            }
        }),
        ({
            let actions = app.out_actions(slewed, tables);
            let shown = app.leds(slewed, tables);
            actions.skip(actions.len() - shown.len()) == shown
        }),
{
}

/// The app starts on what is stored, muted as it is stored, with the fader as its
/// level and its output at zero. Its faders are where they are found.
pub proof fn law_starts_on_storage(
    app: App<1>,
    params: Params,
    storage: Storage,
    fader: u16,
    takeover: TakeoverMode,
)
    ensures
        ({
            let s = Control::started(app, params, storage, fader, takeover);
            &&& s.start_channel == app.start_channel && s.params == params && s.storage == storage
            &&& s.latch_layer == LatchLayer::Main
            &&& s.latch == AnalogLatch::initial(fader, 25, takeover)
            &&& s.muted == storage.muted
            &&& s.main_layer_value == fader
            &&& s.smoothed == 0 && s.out == 0 && s.last_out == 0
            &&& !s.held
        }),
{
}

/// The parameters of a fresh app, and what it has in its storage.
pub proof fn law_fresh_app(start_channel: usize, r: Storage)
    requires
        call_ensures(Storage::default, (), r),
    ensures
        ({
            let p = initial_params(start_channel);
            &&& p.curve == Curve::Linear
            &&& p.range == Range::_0_10V
            &&& p.midi_channel == MidiChannel(1)
            &&& p.midi_cc == MidiCc::for_channel(32, start_channel)
            &&& p.midi_out == (MidiOut { usb: true, out1: true, out2: true })
            &&& !p.on_release
            &&& !p.invert
            &&& p.color == Color::Violet
            &&& p.save_state
            &&& p.button_mode == 0
            &&& p.button_ch == MidiChannel(1)
            &&& p.button_cc == MidiCc::for_channel(48, start_channel)
            &&& !p.nrpn
        }),
        r == (Storage { muted: false, att_saved: 4095, fad_val: 4095 }),
{
}

} // verus!
