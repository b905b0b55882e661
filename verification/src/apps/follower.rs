//! Envelope Follower: the amplitude of an input as a voltage.
//!
//! A millisecond is handled in two steps. First the buttons are looked at; from
//! `sample` the level of the follower is computed. Then the output is set for
//! that level.
use vstd::prelude::*;
use vstd::array::spec_array_update;

use crate::app::{input_value, led_set, Action, App, InJack, Leds, OutJack, PortMode};
use crate::apps::parts::{byte_level, layer_for, layer_of, level_byte, light_or_not, lit_or_not};
use crate::latch::{AnalogLatch, LatchLayer, TakeoverMode};
use crate::storage::{values_new, values_push, AppParams, AppStorage, ManagedStorage, ParamStore};
use crate::tables::Tables;
use crate::tasks::leds::Led;
use crate::types::{Brightness, Color, Curve, ParamValue, Range, Value};
use crate::utils::{
    attenuverted, attenuverter, distance_level, split_signed_value, split_unsigned_value,
    unsigned_halves,
};

verus! {

pub const CHANNELS: usize = 2;

pub const PARAMS: usize = 2;

/// The parameters of the app.
#[derive(Clone, Copy, Debug, PartialEq, Eq, Structural)]
pub struct Params {
    pub color: Color,
    pub range: Range,
}

impl AppParams for Params {
    open spec fn read(values: Seq<Value>) -> Option<Self> {
        if values.len() < 2 {
            None
        } else {
            Some(
                Params {
                    color: Color::reads(values[0]),
                    range: Range::reads(values[1]),
                },
            )
        }
    }

    open spec fn listing(self) -> Seq<Value> {
        seq![
            self.color.stored(),
            self.range.stored(),
        ]
    }

    fn from_values(values: &[Value]) -> (r: Option<Self>) {
        if values.len() < PARAMS {
            return None;
        }
        Some(
            Params {
                color: Color::from_value(values[0]),
                range: Range::from_value(values[1]),
            },
        )
    }

    fn to_values(&self) -> (r: heapless::Vec<Value, 16>) {
        let mut vec = values_new();
        let _ = values_push(&mut vec, self.color.into_value());
        let _ = values_push(&mut vec, self.range.into_value());
        vec
    }

    proof fn law_params_round_trip(self) {
    }
}

/// What the app keeps: the rise and the fall, the attenuation, the offset and the gain.
#[derive(Clone, Copy)]
pub struct Storage {
    pub fader_saved: [u16; 2],
    pub att_saved: u16,
    pub offset_saved: u16,
    pub gain_saved: u16,
}

impl Default for Storage {
    fn default() -> (r: Self)
        ensures
            r.fader_saved@ == seq![2000u16, 2000],
            r.att_saved == 4095,
            r.offset_saved == 2047,
            r.gain_saved == 0,
            r.wf(),
    {
        Storage { fader_saved: [2000, 2000], att_saved: 4095, offset_saved: 2047, gain_saved: 0 }
    }
}

impl AppStorage for Storage {

}

impl Storage {
    /// Whether the attenuation has 12 bits.
    pub open spec fn wf(self) -> bool {
        self.att_saved <= 4095
    }
}

/// The parameters that the app starts with.
pub open spec fn initial_params() -> Params {
    Params {
        color: Color::Pink,
        range: Range::_Neg5_5V,
    }
}

/// The parameters and the storage of the app, before anything was loaded.
pub fn wrapper(app: App<2>) -> (r: (ParamStore<Params>, ManagedStorage<Storage>))
    ensures
        r.0 == (ParamStore {
            app_id: app.app_id,
            inner: initial_params(),
            layout_id: app.layout_id,
        }),
        r.1.app_id == app.app_id,
        r.1.layout_id == app.layout_id,
        call_ensures(Storage::default, (), r.1.inner),
{
    (
        ParamStore::new(
            app.app_id,
            app.layout_id,
            Params {
                color: Color::Pink,
                range: Range::_Neg5_5V,
            },
        ),
        ManagedStorage::new(app.app_id, app.layout_id),
    )
}

/// The distance from the middle, put above it.
pub open spec fn rectified(value: int) -> int {
    if value >= 2047 {
        value
    } else {
        2047 + (2047 - value)
    }
}

/// Folds the values below the middle up.
pub fn rectify(value: u16) -> (r: u16)
    ensures
        r == rectified(value as int),
        r >= 2047,
{
    if value >= 2047 {
        value
    } else {
        2047 - value + 2047
    }
}

/// What the level of the follower is computed from: the input, its gain on the
/// curve, and the rates of rise and fall.
#[derive(Clone, Copy, Debug, PartialEq, Eq, Structural)]
pub struct Sample {
    pub value: u16,
    pub gain: u16,
    pub rise: u16,
    pub fall: u16,
}

/// What an event brings.
pub enum Event {
    /// A millisecond has gone by, with the shift button and the first button.
    Millisecond { shift: bool, button: bool },
    /// The follower has moved to a level.
    Output { level: u16 },
    /// A fader was moved to a value.
    Fader { chan: usize, value: u16 },
    /// A button was pressed.
    Down { chan: usize, shift: bool },
    /// A scene was loaded into the storage.
    LoadScene(Storage),
    /// A scene is to be saved.
    SaveScene(u8),
}

/// The running app.
pub struct Follower {
    pub start_channel: usize,
    pub params: Params,
    pub storage: Storage,
    pub latch_layer: LatchLayer,
    pub latch: [AnalogLatch; 2],
}

impl Follower {
    pub open spec fn wf(self) -> bool {
        self.start_channel + 2 <= 16 && self.storage.wf()
    }

    pub open spec fn second(self) -> usize {
        (self.start_channel + 1) as usize
    }

    /// The state that the app starts with.
    pub open spec fn started(
        app: App<2>,
        params: Params,
        storage: Storage,
        faders: [u16; 2],
        takeover: TakeoverMode,
    ) -> Follower {
        Follower {
            start_channel: app.start_channel,
            params,
            storage,
            latch_layer: LatchLayer::Main,
            latch: [
                AnalogLatch::initial(faders[0], 25, takeover),
                AnalogLatch::initial(faders[1], 25, takeover),
            ],
        }
    }

    /// Starts the app on what is stored.
    pub fn new(
        app: App<2>,
        params: Params,
        storage: Storage,
        faders: [u16; 2],
        takeover: TakeoverMode,
    ) -> (r: (Self, Vec<Action>))
        requires
            app.wf(),
            storage.wf(),
        ensures
            r.0 == Follower::started(app, params, storage, faders, takeover),
            r.0.wf(),
            r.1@ == seq![
                Action::Configure {
                    channel: app.start_channel,
                    mode: PortMode::Input { bipolar: params.range.bipolar() },
                    gpo_level: None,
                },
                Action::Configure {
                    channel: (app.start_channel + 1) as usize,
                    mode: PortMode::Output { bipolar: params.range.bipolar() },
                    gpo_level: None,
                },
            ] + r.0.button_leds(),
    {
        let state = Follower {
            start_channel: app.start_channel,
            params,
            storage,
            latch_layer: LatchLayer::Main,
            latch: [app.make_latch(faders[0], takeover), app.make_latch(faders[1], takeover)],
        };
        let mut actions: Vec<Action> = vec![
            app.make_in_jack(0, params.range).1,
            app.make_out_jack(1, params.range).1,
        ];
        state.push_buttons(&mut actions);
        (state, actions)
    }

    /// Both buttons in the color of the app.
    pub open spec fn button_leds(self) -> Seq<Action> {
        seq![
            led_set(self.start_channel, Led::Button, self.params.color, Brightness::Mid),
            led_set(self.second(), Led::Button, self.params.color, Brightness::Mid),
        ]
    }

    fn push_buttons(&self, actions: &mut Vec<Action>)
        requires
            self.wf(),
        ensures
            final(actions)@ == old(actions)@ + self.button_leds(),
    {
        let leds = Leds::<2>::new(self.start_channel);
        actions.push(leds.set(0, Led::Button, self.params.color, Brightness::Mid));
        actions.push(leds.set(1, Led::Button, self.params.color, Brightness::Mid));
    }

    /// The buttons are looked at.
    pub fn advance(&mut self, shift: bool, button: bool)
        requires
            old(self).wf(),
        ensures
            *final(self) == (Follower { latch_layer: layer_of(shift, button), ..*old(self) }),
            final(self).wf(),
    {
        self.latch_layer = layer_for(shift, button);
    }

    /// What the level is computed from, where the converter of the input reads
    /// `raw`.
    pub open spec fn sampled(self, raw: u16, tables: Tables) -> Sample {
        let value = input_value(self.params.range, raw);
        Sample {
            value: if self.params.range.bipolar() {
                rectified(value as int) as u16
            } else {
                value
            },
            gain: tables.curve(Curve::Exponential, self.storage.gain_saved as int),
            rise: self.storage.fader_saved[0],
            fall: self.storage.fader_saved[1],
        }
    }

    /// What the level is computed from, where the converter of the input reads
    /// `raw`. An input that goes both ways is rectified.
    pub fn sample(&self, raw: u16, tables: &Tables) -> (r: Sample)
        requires
            self.wf(),
            tables.wf(),
        ensures
            r == self.sampled(raw, *tables),
            r.value == (if self.params.range.bipolar() {
                rectified(input_value(self.params.range, raw) as int)
            } else {
                input_value(self.params.range, raw) as int
            }),
            r.gain == tables.curve(Curve::Exponential, self.storage.gain_saved as int),
            r.rise == self.storage.fader_saved[0],
            r.fall == self.storage.fader_saved[1],
    {
        let mut inval: u16 = InJack::new(self.start_channel, self.params.range).get_value(raw);
        if self.params.range.is_bipolar() {
            inval = rectify(inval);
        }
        Sample {
            value: inval,
            gain: tables.curve_at(Curve::Exponential, self.storage.gain_saved),
            rise: self.storage.fader_saved[0],
            fall: self.storage.fader_saved[1],
        }
    }

    /// The offset, around 0.
    pub open spec fn offset(self) -> int {
        self.storage.offset_saved - 2047
    }

    /// The output for a level: attenuated or inverted, and moved by the offset. The
    /// sum is kept in 16 bits, so that one below 0 counts as full scale.
    pub open spec fn output_value(self, level: int) -> int {
        let sum = attenuverted(level, self.storage.att_saved as int) + self.offset();
        if sum % 65536 <= 4095 {
            sum % 65536
        } else {
            4095
        }
    }

    fn find_output(&self, level: u16) -> (r: u16)
        requires
            self.wf(),
            level <= 4095,
        ensures
            r == self.output_value(level as int),
            r <= 4095,
    {
        let offset: i32 = self.storage.offset_saved as i32 - 2047;
        let sum: i32 = attenuverter(level, self.storage.att_saved) as i32 + offset;
        let kept: i32 = (sum + 65536) % 65536;
        if kept <= 4095 {
            kept as u16
        } else {
            4095
        }
    }

    /// Both LEDs of a channel for a value around the middle.
    pub open spec fn halves_leds(channel: usize, color: Color, value: int) -> Seq<Action> {
        let halves = unsigned_halves(value);
        seq![
            led_set(channel, Led::Top, color, Brightness::Custom(halves.0 as u8)),
            led_set(channel, Led::Bottom, color, Brightness::Custom(halves.1 as u8)),
        ]
    }

    /// The LEDs while the rates are edited: the level and the output.
    pub open spec fn level_leds(self, level: int, out: int) -> Seq<Action> {
        let color = self.params.color;
        (if self.params.range.bipolar() {
            Self::halves_leds(self.start_channel, color, level) + Self::halves_leds(
                self.second(),
                color,
                out,
            )
        } else {
            seq![
                led_set(self.start_channel, Led::Top, color, Brightness::Custom(level_byte(level))),
                led_set(self.second(), Led::Top, color, Brightness::Custom(level_byte(out))),
            ]
        }) + self.button_leds()
    }

    /// The LEDs while the offset and the attenuation are edited. A button is dark
    /// where its setting is at its default.
    pub open spec fn setting_leds(self) -> Seq<Action> {
        let offset = self.offset();
        seq![
            led_set(
                self.start_channel,
                Led::Top,
                Color::Red,
                Brightness::Custom(
                    if offset >= 0 {
                        distance_level(offset) as u8
                    } else {
                        0
                    },
                ),
            ),
            led_set(
                self.start_channel,
                Led::Bottom,
                Color::Red,
                Brightness::Custom(
                    if offset < 0 {
                        distance_level(-offset) as u8
                    } else {
                        0
                    },
                ),
            ),
        ] + Self::halves_leds(self.second(), Color::Red, self.storage.att_saved as int) + seq![
            lit_or_not(
                self.start_channel,
                Led::Button,
                self.storage.offset_saved != 2047,
                Color::Red,
                Brightness::Mid,
            ),
            lit_or_not(
                self.second(),
                Led::Button,
                self.storage.att_saved != 4095,
                Color::Red,
                Brightness::Mid,
            ),
        ]
    }

    /// The LEDs, by what the faders edit.
    pub open spec fn leds(self, level: int, out: int) -> Seq<Action> {
        match self.latch_layer {
            LatchLayer::Main => self.level_leds(level, out),
            LatchLayer::Alt => self.setting_leds(),
            LatchLayer::Third => seq![
                led_set(
                    self.start_channel,
                    Led::Top,
                    Color::Red,
                    Brightness::Custom(level_byte(self.storage.gain_saved as int)),
                ),
            ] + Self::halves_leds(self.second(), self.params.color, out) + self.button_leds(),
        }
    }

    fn push_halves(&self, chan: usize, color: Color, value: u16, actions: &mut Vec<Action>)
        requires
            self.wf(),
            chan < 2,
        ensures
            final(actions)@ == old(actions)@ + Self::halves_leds(
                (self.start_channel + chan) as usize,
                color,
                value as int,
            ),
    {
        let leds = Leds::<2>::new(self.start_channel);
        let halves = split_unsigned_value(value);
        actions.push(leds.set(chan, Led::Top, color, Brightness::Custom(halves[0])));
        actions.push(leds.set(chan, Led::Bottom, color, Brightness::Custom(halves[1])));
    }

    fn push_levels(&self, level: u16, out: u16, actions: &mut Vec<Action>)
        requires
            self.wf(),
        ensures
            final(actions)@ == old(actions)@ + self.level_leds(level as int, out as int),
    {
        let leds = Leds::<2>::new(self.start_channel);
        let color = self.params.color;
        if self.params.range.is_bipolar() {
            self.push_halves(0, color, level, actions);
            self.push_halves(1, color, out, actions);
        } else {
            actions.push(leds.set(0, Led::Top, color, Brightness::Custom(byte_level(level))));
            actions.push(leds.set(1, Led::Top, color, Brightness::Custom(byte_level(out))));
        }
        self.push_buttons(actions);
    }

    fn push_settings(&self, actions: &mut Vec<Action>)
        requires
            self.wf(),
        ensures
            final(actions)@ == old(actions)@ + self.setting_leds(),
    {
        let leds = Leds::<2>::new(self.start_channel);
        let offset: i32 = self.storage.offset_saved as i32 - 2047;
        let off_led = split_signed_value(offset);
        actions.push(leds.set(0, Led::Top, Color::Red, Brightness::Custom(off_led[0])));
        actions.push(leds.set(0, Led::Bottom, Color::Red, Brightness::Custom(off_led[1])));
        self.push_halves(1, Color::Red, self.storage.att_saved, actions);
        actions.push(
            light_or_not(
                self.start_channel,
                Led::Button,
                self.storage.offset_saved != 2047,
                Color::Red,
                Brightness::Mid,
            ),
        );
        actions.push(
            light_or_not(
                self.start_channel + 1,
                Led::Button,
                self.storage.att_saved != 4095,
                Color::Red,
                Brightness::Mid,
            ),
        );
    }

    /// What the output for a level sets off.
    pub open spec fn out_actions(self, level: int) -> Seq<Action> {
        let out = self.output_value(level);
        seq![
            (OutJack { channel: self.second(), range: self.params.range }).valued(out as u16),
        ] + self.leds(level, out)
    }

    /// The follower has moved to a level: the output is set.
    pub fn put(&self, level: u16) -> (r: Vec<Action>)
        requires
            self.wf(),
            level <= 4095,
        ensures
            r@ == self.out_actions(level as int),
    {
        let leds = Leds::<2>::new(self.start_channel);
        let out: u16 = self.find_output(level);
        let mut actions: Vec<Action> = Vec::new();
        actions.push(OutJack::new(self.start_channel + 1, self.params.range).set_value(out));
        match self.latch_layer {
            LatchLayer::Main => {
                self.push_levels(level, out, &mut actions);
            },
            LatchLayer::Alt => {
                self.push_settings(&mut actions);
            },
            LatchLayer::Third => {
                let gain: u8 = byte_level(self.storage.gain_saved);
                actions.push(leds.set(0, Led::Top, Color::Red, Brightness::Custom(gain)));
                self.push_halves(1, self.params.color, out, &mut actions);
                self.push_buttons(&mut actions);
            },
        }
        actions
    }

    /// The stored value that a fader edits.
    pub open spec fn fader_target(self, chan: int) -> u16 {
        match self.latch_layer {
            LatchLayer::Main => self.storage.fader_saved[chan],
            LatchLayer::Alt => if chan == 0 {
                self.storage.offset_saved
            } else {
                self.storage.att_saved
            },
            LatchLayer::Third => if chan == 0 {
                self.storage.gain_saved
            } else {
                0
            },
        }
    }

    /// The storage with a value of a fader.
    pub open spec fn edited(self, chan: int, value: u16) -> Storage {
        match self.latch_layer {
            LatchLayer::Main => Storage {
                fader_saved: spec_array_update(self.storage.fader_saved, chan, value),
                ..self.storage
            },
            LatchLayer::Alt => if chan == 0 {
                Storage { offset_saved: value, ..self.storage }
            } else {
                Storage { att_saved: value, ..self.storage }
            },
            LatchLayer::Third => if chan == 0 {
                Storage { gain_saved: value, ..self.storage }
            } else {
                self.storage
            },
        }
    }

    /// The state after a fader was moved.
    pub open spec fn fader_moved(self, chan: int, value: u16) -> Follower {
        let latch = self.latch[chan];
        let target = self.fader_target(chan);
        Follower {
            latch: spec_array_update(
                self.latch,
                chan,
                latch.updated(value, self.latch_layer, target),
            ),
            storage: match latch.emits(value, self.latch_layer, target) {
                Some(new_value) => self.edited(chan, new_value),
                None => self.storage,
            },
            ..self
        }
    }

    /// A fader that changes a value asks for it to be saved.
    pub open spec fn fader_actions(self, chan: int, value: u16) -> Seq<Action> {
        if self.latch[chan].emits(value, self.latch_layer, self.fader_target(chan)) is Some && (chan
            == 0 || self.latch_layer != LatchLayer::Third) {
            seq![Action::Save]
        } else {
            Seq::empty()
        }
    }

    /// A fader was moved.
    pub fn fut2(&mut self, chan: usize, value: u16) -> (r: Vec<Action>)
        requires
            old(self).wf(),
            chan < 2,
            value <= 4095,
        ensures
            *final(self) == old(self).fader_moved(chan as int, value),
            final(self).wf(),
            r@ == old(self).fader_actions(chan as int, value),
    {
        let mut actions: Vec<Action> = Vec::new();
        let layer = self.latch_layer;
        let target: u16 = match layer {
            LatchLayer::Main => self.storage.fader_saved[chan],
            LatchLayer::Alt => {
                if chan == 0 {
                    self.storage.offset_saved
                } else {
                    self.storage.att_saved
                }
            },
            LatchLayer::Third => {
                if chan == 0 {
                    self.storage.gain_saved
                } else {
                    0
                }
            },
        };
        let mut latch = self.latch[chan];
        let emitted = latch.update(value, layer, target);
        self.latch[chan] = latch;
        if let Some(new_value) = emitted {
            match layer {
                LatchLayer::Main => {
                    self.storage.fader_saved[chan] = new_value;
                    actions.push(Action::Save);
                },
                LatchLayer::Alt => {
                    if chan == 0 {
                        self.storage.offset_saved = new_value;
                    } else {
                        self.storage.att_saved = new_value;
                    }
                    actions.push(Action::Save);
                },
                LatchLayer::Third => {
                    if chan == 0 {
                        self.storage.gain_saved = new_value;
                        actions.push(Action::Save);
                    }
                },
            }
        }
        actions
    }

    /// The state after a button was pressed: with shift, the offset or the
    /// attenuation goes back to its default.
    pub open spec fn pressed(self, chan: int, shift: bool) -> Follower {
        if shift && chan == 0 {
            Follower { storage: Storage { offset_saved: 2047, ..self.storage }, ..self }
        } else if shift && chan == 1 {
            Follower { storage: Storage { att_saved: 4095, ..self.storage }, ..self }
        } else {
            self
        }
    }

    /// A button was pressed.
    pub fn fut3(&mut self, chan: usize, shift: bool) -> (r: Vec<Action>)
        requires
            old(self).wf(),
        ensures
            *final(self) == old(self).pressed(chan as int, shift),
            final(self).wf(),
            r@ == (if shift && chan < 2 {
                seq![Action::Save]
            } else {
                Seq::empty()
            }),
    {
        let mut actions: Vec<Action> = Vec::new();
        if shift {
            if chan == 0 {
                self.storage.offset_saved = 2047;
                actions.push(Action::Save);
            }
            if chan == 1 {
                self.storage.att_saved = 4095;
                actions.push(Action::Save);
            }
        }
        actions
    }

    /// A scene was loaded into the storage.
    pub fn load_scene(&mut self, storage: Storage)
        requires
            old(self).wf(),
            storage.wf(),
        ensures
            *final(self) == (Follower { storage, ..*old(self) }),
            final(self).wf(),
    {
        self.storage = storage;
    }

    /// Whether an event brings what the hardware can bring.
    pub open spec fn admits(event: Event) -> bool {
        match event {
            Event::Output { level } => level <= 4095,
            Event::Fader { chan, value } => chan < 2 && value <= 4095,
            Event::LoadScene(storage) => storage.wf(),
            _ => true,
        }
    }

    /// The state after an event.
    pub open spec fn after(self, event: Event) -> Follower {
        match event {
            Event::Millisecond { shift, button } => Follower {
                latch_layer: layer_of(shift, button),
                ..self
            },
            Event::Output { .. } => self,
            Event::Fader { chan, value } => self.fader_moved(chan as int, value),
            Event::Down { chan, shift } => self.pressed(chan as int, shift),
            Event::LoadScene(storage) => Follower { storage, ..self },
            Event::SaveScene(_) => self,
        }
    }

    /// What an event sets off.
    pub open spec fn does(self, event: Event) -> Seq<Action> {
        match event {
            Event::Millisecond { .. } => Seq::empty(),
            Event::Output { level } => self.out_actions(level as int),
            Event::Fader { chan, value } => self.fader_actions(chan as int, value),
            Event::Down { chan, shift } => if shift && chan < 2 {
                seq![Action::Save]
            } else {
                Seq::empty()
            },
            Event::LoadScene(_) => Seq::empty(),
            Event::SaveScene(scene) => seq![Action::SaveScene(scene)],
        }
    }

    /// Handles an event.
    pub fn run(&mut self, event: Event) -> (r: Vec<Action>)
        requires
            old(self).wf(),
            Follower::admits(event),
        ensures
            *final(self) == old(self).after(event),
            final(self).wf(),
            r@ == old(self).does(event),
    {
        match event {
            Event::Millisecond { shift, button } => {
                self.advance(shift, button);
                Vec::new()
            },
            Event::Output { level } => self.put(level),
            Event::Fader { chan, value } => self.fut2(chan, value),
            Event::Down { chan, shift } => self.fut3(chan, shift),
            Event::LoadScene(storage) => {
                self.load_scene(storage);
                Vec::new()
            },
            Event::SaveScene(scene) => vec![Action::SaveScene(scene)],
        }
    }
}

/// Rectifying is symmetric around the middle, and does nothing a second time.
pub proof fn law_rectify_is_symmetric(distance: int)
    requires
        0 <= distance,
    ensures
        rectified(2047 - distance) == rectified(2047 + distance),
        rectified(rectified(2047 - distance)) == rectified(2047 - distance),
{
}

/// With the defaults of the attenuation and the offset, the output is the level.
pub proof fn law_defaults_pass_level(app: Follower, level: int)
    requires
        app.storage.att_saved == 4095,
        app.storage.offset_saved == 2047,
        0 <= level <= 4095,
    ensures
        app.output_value(level) == level,
{
    crate::utils::law_attenuverter_ends(level);
}

/// The level is computed from the input, folded up around the middle where it goes
/// both ways, from the exponential curve at the stored gain, and from the stored
/// rates, the first fader's for the rise and the second one's for the fall.
pub proof fn law_samples_are_taken(app: Follower, raw: u16, tables: Tables)
    requires
        tables.wf(),
        raw <= 4095,
        app.storage.gain_saved <= 4095,
    ensures
        ({
            let sample = app.sampled(raw, tables);
            &&& sample.rise == app.storage.fader_saved[0]
            &&& sample.fall == app.storage.fader_saved[1]
            &&& sample.gain == tables.exponential@[app.storage.gain_saved as int]
            &&& app.params.range == Range::_0_10V ==> sample.value == raw
            &&& app.params.range == Range::_0_5V ==> sample.value == 2 * raw
            &&& app.params.range == Range::_Neg5_5V && raw >= 2047 ==> sample.value == raw
            &&& app.params.range == Range::_Neg5_5V && raw < 2047 ==> sample.value - 2047 == 2047
                - raw
        }),
{
}

/// The output is the level, blended with its inversion by the stored attenuation
/// and moved by how far the stored offset is from its middle, up to full scale.
pub proof fn law_output_follows_level(app: Follower, level: u16)
    requires
        app.wf(),
        level <= 4095,
        app.storage.offset_saved <= 4095,
        app.params.range != Range::_0_5V,
    ensures
        ({
            let blend = (4095 - level) * (4095 - app.storage.att_saved) + level * (
            app.storage.att_saved + 1);
            let offset = app.storage.offset_saved - 2047;
            let out = app.output_value(level as int);
            let plain = out - offset;
            &&& app.does(Event::Output { level })[0] == (Action::Dac {
                channel: (app.start_channel + 1) as usize,
                value: out as u16,
            })
            &&& 0 <= out <= 4095
            &&& out < 4095 ==> 4096 * plain <= blend < 4096 * plain + 4096
            &&& app.after(Event::Output { level }) == app
        }),
        app.storage.att_saved == 4095 && app.storage.offset_saved >= 2047 ==> app.output_value(
            level as int,
        ) == (if level + app.storage.offset_saved - 2047 > 4095 {
            4095
        } else {
            level + app.storage.offset_saved - 2047
        }),
{
    let att = app.storage.att_saved as int;
    crate::utils::law_attenuverter_blends(level as int, level as int, att);
    crate::utils::law_attenuverter_ends(level as int);
    let a = attenuverted(level as int, att);
    assert((4095 - level) * (4095 - att) >= 0) by (nonlinear_arith)
        requires
            level <= 4095,
            att <= 4095,
    ;
    assert(level * (att + 1) >= 0) by (nonlinear_arith)
        requires
            level >= 0,
            att >= 0,
    ;
    assert((4095 - level) * (4095 - att) + level * (att + 1) <= 4095 * 4096) by (nonlinear_arith)
        requires
            0 <= level <= 4095,
            0 <= att <= 4095,
    ;
    assert(0 <= a <= 4095);
}

/// A fader that has a value to give stores it and asks for it to be saved: as the
/// rate of rise or fall, with shift as the offset or the attenuation, and the
/// first one, with the button held, as the gain.
pub proof fn law_faders_store_their_values(app: Follower, chan: usize, value: u16)
    requires
        app.wf(),
        chan < 2,
        value <= 4095,
        chan == 0 || app.latch_layer != LatchLayer::Third,
    ensures
        ({
            let at = chan as int;
            let target = match app.latch_layer {
                LatchLayer::Main => app.storage.fader_saved[at],
                LatchLayer::Alt => if chan == 0 {
                    app.storage.offset_saved
                } else {
                    app.storage.att_saved
                },
                LatchLayer::Third => app.storage.gain_saved,
            };
            let event = Event::Fader { chan, value };
            let before = app.storage;
            let after = app.after(event).storage;
            let emitted = app.latch[at].emits(value, app.latch_layer, target);
            &&& emitted is None ==> after == before && app.does(event).len() == 0
            &&& emitted matches Some(v) ==> {
                &&& app.does(event) == seq![Action::Save]
                &&& app.latch_layer == LatchLayer::Main ==> after.fader_saved[at] == v
                    && after.fader_saved[1 - at] == before.fader_saved[1 - at]
                    && after.offset_saved == before.offset_saved && after.att_saved
                    == before.att_saved && after.gain_saved == before.gain_saved
                &&& app.latch_layer == LatchLayer::Alt && chan == 0 ==> after == (Storage {
                    offset_saved: v,
                    ..before
                })
                &&& app.latch_layer == LatchLayer::Alt && chan == 1 ==> after == (Storage {
                    att_saved: v,
                    ..before
                })
                &&& app.latch_layer == LatchLayer::Third ==> after == (Storage {
                    gain_saved: v,
                    ..before
                })
            }
            &&& app.after(event).latch[at] == app.latch[at].updated(
                value,
                app.latch_layer,
                target,
            )
        }),
{
}

/// With shift the first button brings the offset back to its middle and the second
/// one the attenuation back to full; both are saved. The buttons select the layer
/// of the faders, and a scene brings its settings.
pub proof fn law_buttons_reset_settings(app: Follower, storage: Storage)
    ensures
        app.after(Event::Down { chan: 0, shift: true }).storage == (Storage {
            offset_saved: 2047,
            ..app.storage
        }),
        app.after(Event::Down { chan: 1, shift: true }).storage == (Storage {
            att_saved: 4095,
            ..app.storage
        }),
        app.does(Event::Down { chan: 0, shift: true }) == seq![Action::Save],
        app.does(Event::Down { chan: 1, shift: true }) == seq![Action::Save],
        app.after(Event::Down { chan: 0, shift: false }) == app,
        app.after(Event::Down { chan: 1, shift: false }) == app,
        app.after(Event::Millisecond { shift: true, button: false }).latch_layer
            == LatchLayer::Alt,
        app.after(Event::Millisecond { shift: false, button: true }).latch_layer
            == LatchLayer::Third,
        app.after(Event::Millisecond { shift: false, button: false }).latch_layer
            == LatchLayer::Main,
        app.after(Event::LoadScene(storage)).storage == storage,
{
}

/// On the main layer the LEDs show the level and the output, above and below the
/// middle on a bipolar range; with shift the offset and the attenuation in red, the
/// buttons lit where they are off their rest; with the button held the gain in red.
pub proof fn law_levels_are_shown(app: Follower, level: int, out: int)
    requires
        app.wf(),
    ensures
        ({
            let shown = app.leds(level, out);
            let first = app.start_channel;
            let second = (app.start_channel + 1) as usize;
            let color = app.params.color;
            let bipolar = app.params.range.bipolar();
            let offset = app.storage.offset_saved - 2047;
            let left = unsigned_halves(level);
            let right = unsigned_halves(out);
            let att = unsigned_halves(app.storage.att_saved as int);
            let n = shown.len();
            let lit_first = led_set(first, Led::Button, color, Brightness::Mid);
            let lit_second = led_set(second, Led::Button, color, Brightness::Mid);
            match app.latch_layer {
                LatchLayer::Main => {
                    &&& bipolar ==> n == 6 && shown[0] == led_set(
                        first,
                        Led::Top,
                        color,
                        Brightness::Custom(left.0 as u8),
                    ) && shown[1] == led_set(
                        first,
                        Led::Bottom,
                        color,
                        Brightness::Custom(left.1 as u8),
                    ) && shown[2] == led_set(
                        second,
                        Led::Top,
                        color,
                        Brightness::Custom(right.0 as u8),
                    ) && shown[3] == led_set(
                        second,
                        Led::Bottom,
                        color,
                        Brightness::Custom(right.1 as u8),
                    )
                    &&& !bipolar ==> n == 4 && shown[0] == led_set(
                        first,
                        Led::Top,
                        color,
                        Brightness::Custom(level_byte(level)),
                    ) && shown[1] == led_set(
                        second,
                        Led::Top,
                        color,
                        Brightness::Custom(level_byte(out)),
                    )
                    &&& shown[n - 2] == lit_first && shown[n - 1] == lit_second
                },
                LatchLayer::Alt => {
                    &&& n == 6
                    &&& offset >= 0 ==> shown[0] == led_set(
                        first,
                        Led::Top,
                        Color::Red,
                        Brightness::Custom(distance_level(offset) as u8),
                    ) && shown[1] == led_set(first, Led::Bottom, Color::Red, Brightness::Custom(0))
                    &&& offset < 0 ==> shown[0] == led_set(
                        first,
                        Led::Top,
                        Color::Red,
                        Brightness::Custom(0),
                    ) && shown[1] == led_set(
                        first,
                        Led::Bottom,
                        Color::Red,
                        Brightness::Custom(distance_level(-offset) as u8),
                    )
                    &&& shown[2] == led_set(
                        second,
                        Led::Top,
                        Color::Red,
                        Brightness::Custom(att.0 as u8),
                    )
                    &&& shown[3] == led_set(
                        second,
                        Led::Bottom,
                        Color::Red,
                        Brightness::Custom(att.1 as u8),
                    )
                    &&& shown[4] == (if offset != 0 {
                        led_set(first, Led::Button, Color::Red, Brightness::Mid)
                    } else {
                        crate::app::led_unset(first, Led::Button)
                    })
                    &&& shown[5] == (if app.storage.att_saved != 4095 {
                        led_set(second, Led::Button, Color::Red, Brightness::Mid)
                    } else {
                        crate::app::led_unset(second, Led::Button)
                    })
                },
                LatchLayer::Third => {
                    &&& n == 5
                    &&& shown[0] == led_set(
                        first,
                        Led::Top,
                        Color::Red,
                        Brightness::Custom(level_byte(app.storage.gain_saved as int)),
                    )
                    &&& shown[1] == led_set(
                        second,
                        Led::Top,
                        color,
                        Brightness::Custom(right.0 as u8),
                    )
                    &&& shown[2] == led_set(
                        second,
                        Led::Bottom,
                        color,
                        Brightness::Custom(right.1 as u8),
                    )
                    &&& shown[3] == lit_first && shown[4] == lit_second
                },
            }
        }),
        app.out_actions(level).skip(1) == app.leds(level, app.output_value(level)),
{
}

/// The app starts on what is stored, as a scene of it would be. Its faders are
/// where they are found.
pub proof fn law_starts_on_storage(
    app: App<2>,
    params: Params,
    storage: Storage,
    faders: [u16; 2],
    takeover: TakeoverMode,
)
    ensures
        ({
            let s = Follower::started(app, params, storage, faders, takeover);
            &&& s.start_channel == app.start_channel && s.params == params && s.storage == storage
            &&& s.latch_layer == LatchLayer::Main
            &&& s.latch[0] == AnalogLatch::initial(faders[0], 25, takeover)
            &&& s.latch[1] == AnalogLatch::initial(faders[1], 25, takeover)
            &&& s == s.after(Event::LoadScene(storage))
        }),
{
}

/// The parameters of a fresh app, and what it has in its storage.
pub proof fn law_fresh_app(r: Storage)
    requires
        call_ensures(Storage::default, (), r),
    ensures
        ({
            let p = initial_params();
            &&& p.color == Color::Pink
            &&& p.range == Range::_Neg5_5V
        }),
        r.fader_saved@ == seq![2000u16, 2000],
        r.att_saved == 4095,
        r.offset_saved == 2047,
        r.gain_saved == 0,
{
}

} // verus!
