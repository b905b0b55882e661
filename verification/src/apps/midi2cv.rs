//! MIDI to CV: a voltage from controllers, notes, velocities, aftertouch or bends.
use vstd::prelude::*;

use crate::app::{
    led_set, led_unset, Action, App, AppMidiEvent, Leds, MidiInput, OutJack, PortMode,
};
use crate::apps::parts::{byte_level, level_byte, light_or_not, lit_or_not};
use crate::latch::{clamp_12bit, AnalogLatch, LatchLayer, TakeoverMode};
use crate::midi::MidiMessage;
use crate::storage::{values_new, values_push, AppParams, AppStorage, ManagedStorage, ParamStore};
use crate::tables::Tables;
use crate::tasks::leds::Led;
use crate::types::{
    Brightness, Color, Curve, MidiCc, MidiChannel, MidiIn, MidiNote, ParamValue, Range, Value,
};
use crate::utils::{
    attenuate, attenuated, bits_7_16, clickless, clickless_step, led_level, scale_bits_14_12,
    scale_bits_7_12, value_level,
};

verus! {

pub const CHANNELS: usize = 1;

pub const PARAMS: usize = 9;

/// The parameters of the app. The modes are: 0 controller, 1 pitch, 2 gate, 3
/// velocity, 4 aftertouch, 5 bend, 6 gate of a note.
#[derive(Clone, Copy, Debug, PartialEq, Eq, Structural)]
pub struct Params {
    pub mode: usize,
    pub curve: Curve,
    pub midi_channel: MidiChannel,
    pub midi_cc: MidiCc,
    pub midi_note: MidiNote,
    pub midi_in: MidiIn,
    pub bend_range: i32,
    pub color: Color,
    pub gate_vel: bool,
}

impl AppParams for Params {
    open spec fn read(values: Seq<Value>) -> Option<Self> {
        if values.len() < 9 {
            None
        } else {
            Some(
                Params {
                    mode: usize::reads(values[0]),
                    curve: Curve::reads(values[1]),
                    midi_channel: MidiChannel::reads(values[2]),
                    midi_cc: MidiCc::reads(values[3]),
                    bend_range: i32::reads(values[4]),
                    midi_note: MidiNote::reads(values[5]),
                    color: Color::reads(values[6]),
                    midi_in: MidiIn::reads(values[7]),
                    gate_vel: bool::reads(values[8]),
                },
            )
        }
    }

    open spec fn listing(self) -> Seq<Value> {
        seq![
            self.mode.stored(),
            self.curve.stored(),
            self.midi_channel.stored(),
            self.midi_cc.stored(),
            self.bend_range.stored(),
            self.midi_note.stored(),
            self.color.stored(),
            self.midi_in.stored(),
            self.gate_vel.stored(),
        ]
    }

    fn from_values(values: &[Value]) -> (r: Option<Self>) {
        if values.len() < PARAMS {
            return None;
        }
        Some(
            Params {
                mode: usize::from_value(values[0]),
                curve: Curve::from_value(values[1]),
                midi_channel: MidiChannel::from_value(values[2]),
                midi_cc: MidiCc::from_value(values[3]),
                bend_range: i32::from_value(values[4]),
                midi_note: MidiNote::from_value(values[5]),
                color: Color::from_value(values[6]),
                midi_in: MidiIn::from_value(values[7]),
                gate_vel: bool::from_value(values[8]),
            },
        )
    }

    fn to_values(&self) -> (r: heapless::Vec<Value, 16>) {
        let mut vec = values_new();
        let _ = values_push(&mut vec, self.mode.into_value());
        let _ = values_push(&mut vec, self.curve.into_value());
        let _ = values_push(&mut vec, self.midi_channel.into_value());
        let _ = values_push(&mut vec, self.midi_cc.into_value());
        let _ = values_push(&mut vec, self.bend_range.into_value());
        let _ = values_push(&mut vec, self.midi_note.into_value());
        let _ = values_push(&mut vec, self.color.into_value());
        let _ = values_push(&mut vec, self.midi_in.into_value());
        let _ = values_push(&mut vec, self.gate_vel.into_value());
        vec
    }

    proof fn law_params_round_trip(self) {
    }
}

/// What the app keeps. On the second layer stands the attenuation, or the glide
/// of pitches; on the main one the octave of pitches.
#[derive(Clone, Copy, Debug, PartialEq, Eq, Structural)]
pub struct Storage {
    pub muted: bool,
    pub alt_layer_val: u16,
    pub main_layer_val: u16,
}

impl Default for Storage {
    fn default() -> (r: Self)
        ensures
            r == (Storage { muted: false, alt_layer_val: 4095, main_layer_val: 2048 }),
    {
        Storage { muted: false, alt_layer_val: 4095, main_layer_val: 2048 }
    }
}

impl AppStorage for Storage {

}

/// The parameters that the app starts with: the controller of its channel.
pub open spec fn initial_params(start_channel: usize) -> Params {
    Params {
        mode: 0,
        curve: Curve::Linear,
        midi_channel: MidiChannel(1),
        midi_cc: MidiCc::for_channel(32, start_channel),
        midi_note: MidiNote(36),
        midi_in: (MidiIn { usb: true, din: true }),
        bend_range: 12,
        color: Color::Cyan,
        gate_vel: false,
    }
}

/// The parameters and the storage of the app, before anything was loaded.
pub fn wrapper(app: App<1>) -> (r: (ParamStore<Params>, ManagedStorage<Storage>))
    ensures
        r.0 == (ParamStore {
            app_id: app.app_id,
            inner: initial_params(app.start_channel),
            layout_id: app.layout_id,
        }),
        r.1.app_id == app.app_id,
        r.1.layout_id == app.layout_id,
        call_ensures(Storage::default, (), r.1.inner),
{
    (
        ParamStore::new(
            app.app_id,
            app.layout_id,
            Params {
                mode: 0,
                curve: Curve::Linear,
                midi_channel: MidiChannel::default(),
                midi_cc: MidiCc::of_channel(32, app.start_channel),
                midi_note: MidiNote(36),
                midi_in: MidiIn::default(),
                bend_range: 12,
                color: Color::Cyan,
                gate_vel: false,
            },
        ),
        ManagedStorage::new(app.app_id, app.layout_id),
    )
}

/// The glide of pitches in a hundred steps, by the position of the fader.
pub open spec fn glide_of(fader: u16) -> i32 {
    (fader * 100 / 4095) as i32
}

fn find_glide(fader: u16) -> (r: i32)
    ensures
        r == glide_of(fader),
{
    (fader as u32 * 100 / 4095) as i32
}

/// The pitch of a key: an octave is 410, moved by up to five octaves either way
/// by the position of the fader.
pub open spec fn key_pitch(key: u8, fader: u16) -> u16 {
    clamp_12bit(key * 410 / 12 + (fader * 10 / 4095 - 5) * 410) as u16
}

fn find_pitch(key: u8, fader: u16) -> (r: u16)
    requires
        key < 128,
    ensures
        r == key_pitch(key, fader),
        r <= 4095,
{
    let note_in: i32 = (bits_7_16(key) as u32 * 410 / 12) as i32;
    let oct: i32 = (fader as u32 * 10 / 4095) as i32 - 5;
    let note_out: i32 = note_in + oct * 410;
    if note_out < 0 {
        0
    } else if note_out > 4095 {
        4095
    } else {
        note_out as u16
    }
}

/// The voltage of a gate: full, or by the velocity from a tenth up.
pub open spec fn gate_level(by_velocity: bool, vel: u8) -> u16 {
    if by_velocity {
        ((vel * 4095 / 127) * 3685 / 4095 + 410) as u16
    } else {
        4095
    }
}

fn find_gate_level(by_velocity: bool, vel: u8) -> (r: u16)
    requires
        vel < 128,
    ensures
        r == gate_level(by_velocity, vel),
        r <= 4095,
{
    if by_velocity {
        (scale_bits_7_12(vel) as u32 * 3685 / 4095 + 410) as u16
    } else {
        4095
    }
}

/// The LED levels of a bend, above and below its middle.
pub open spec fn bend_levels(bend: u16) -> (u8, u8) {
    if bend >= 8192 {
        (((bend - 8192) * 255 / 8192) as u8, 0)
    } else {
        (0, ((8192 - bend) * 255 / 8192) as u8)
    }
}

fn find_bend_levels(bend: u16) -> (r: (u8, u8))
    requires
        bend < 16384,
    ensures
        r == bend_levels(bend),
{
    if bend >= 8192 {
        (((bend as u32 - 8192) * 255 / 8192) as u8, 0)
    } else {
        (0, ((8192 - bend as u32) * 255 / 8192) as u8)
    }
}

/// What an event brings.
pub enum Event {
    /// A millisecond has gone by, with the shift button, the fader, and the pitch
    /// on its way to the target.
    Millisecond { shift: bool, fader: u16, glide: u16 },
    /// The button was pressed.
    Down,
    /// The fader was moved to a value.
    Fader(u16),
    /// A MIDI event. `bent` is the middle moved by a bend, in counts.
    Midi { event: AppMidiEvent, bent: u16 },
    /// A scene was loaded into the storage.
    LoadScene(Storage),
    /// A scene is to be saved.
    SaveScene(u8),
}

/// The running app. `glide` is the time of the glide, in a hundred steps.
pub struct MidiToCv {
    pub start_channel: usize,
    pub params: Params,
    pub storage: Storage,
    pub muted: bool,
    pub offset: u16,
    pub pitch: u16,
    pub glide_active: bool,
    pub glide: i32,
    pub latch_layer: LatchLayer,
    pub latch: AnalogLatch,
    pub outval: u16,
    pub fadval: u16,
    pub note_num: i32,
}

impl MidiToCv {
    pub open spec fn wf(self) -> bool {
        &&& self.start_channel < 16
        &&& self.fadval <= 4095
        &&& self.note_num >= 0
        &&& (self.params.mode == 0 || self.params.mode == 4) ==> self.offset <= 16383
    }

    /// The range of the output: bends go both ways.
    pub open spec fn range(self) -> Range {
        if self.params.mode == 5 {
            Range::_Neg5_5V
        } else {
            Range::_0_10V
        }
    }

    fn jack(&self) -> (r: OutJack)
        ensures
            r == (OutJack { channel: self.start_channel, range: self.range() }),
    {
        if self.params.mode == 5 {
            OutJack::new(self.start_channel, Range::_Neg5_5V)
        } else {
            OutJack::new(self.start_channel, Range::_0_10V)
        }
    }

    /// The output set to a value.
    pub open spec fn output(self, value: u16) -> Action {
        (OutJack { channel: self.start_channel, range: self.range() }).valued(value)
    }

    /// The top LED at a level.
    pub open spec fn top(self, color: Color, level: u8) -> Action {
        led_set(self.start_channel, Led::Top, color, Brightness::Custom(level))
    }

    fn show_top(&self, color: Color, level: u8) -> (r: Action)
        requires
            self.start_channel < 16,
        ensures
            r == self.top(color, level),
    {
        Leds::<1>::new(self.start_channel).set(0, Led::Top, color, Brightness::Custom(level))
    }

    /// The LED of the mute button.
    pub open spec fn mute_led(self, muted: bool) -> Action {
        lit_or_not(self.start_channel, Led::Button, !muted, self.params.color, Brightness::Mid)
    }

    fn show_mute(&self, muted: bool) -> (r: Action)
        requires
            self.start_channel < 16,
        ensures
            r == self.mute_led(muted),
    {
        light_or_not(self.start_channel, Led::Button, !muted, self.params.color, Brightness::Mid)
    }

    /// The state that the app starts with.
    pub open spec fn started(
        app: App<1>,
        params: Params,
        storage: Storage,
        fader: u16,
        takeover: TakeoverMode,
    ) -> MidiToCv {
        MidiToCv {
            start_channel: app.start_channel,
            params,
            storage,
            muted: storage.muted,
            offset: if params.mode == 5 || params.mode == 1 {
                2048
            } else {
                0
            },
            pitch: 0,
            glide_active: false,
            glide: glide_of(storage.alt_layer_val),
            latch_layer: LatchLayer::Main,
            latch: AnalogLatch::initial(fader, 25, takeover),
            outval: 0,
            fadval: fader,
            note_num: 0,
        }
    }

    /// Starts the app on what is stored, and tells what it listens to.
    pub fn new(
        app: App<1>,
        params: Params,
        storage: Storage,
        fader: u16,
        takeover: TakeoverMode,
    ) -> (r: (Self, MidiInput, Vec<Action>))
        requires
            app.wf(),
            fader <= 4095,
        ensures
            r.0 == MidiToCv::started(app, params, storage, fader, takeover),
            r.0.wf(),
            r.1 == (MidiInput {
                midi_channel: params.midi_channel.wire(),
                din_sub: params.midi_in.din,
                usb_sub: params.midi_in.usb,
            }),
            r.2@ == seq![
                r.0.mute_led(storage.muted),
                Action::Configure {
                    channel: app.start_channel,
                    mode: PortMode::Output { bipolar: params.mode == 5 },
                    gpo_level: None,
                },
                r.0.output(r.0.offset),
            ],
    {
        let state = MidiToCv {
            start_channel: app.start_channel,
            params,
            storage,
            muted: storage.muted,
            offset: if params.mode == 5 || params.mode == 1 {
                2048
            } else {
                0
            },
            pitch: 0,
            glide_active: false,
            glide: find_glide(storage.alt_layer_val),
            latch_layer: LatchLayer::Main,
            latch: app.make_latch(fader, takeover),
            outval: 0,
            fadval: fader,
            note_num: 0,
        };
        let midi_in = app.use_midi_input(params.midi_in, params.midi_channel);
        let jack = state.jack();
        let actions = vec![
            state.show_mute(storage.muted),
            app.make_out_jack(0, jack.range).1,
            jack.set_value(state.offset),
        ];
        (state, midi_in, actions)
    }

    /// The middle that pitches are put out around.
    pub open spec fn middle(self) -> u16 {
        if self.params.mode == 5 {
            if self.muted {
                2048
            } else {
                self.offset
            }
        } else {
            if self.muted {
                2047
            } else {
                self.offset
            }
        }
    }

    /// The pitch, on its way where notes are tied.
    pub open spec fn pitch_now(self, glide: u16) -> u16 {
        if self.glide_active {
            glide
        } else {
            self.pitch
        }
    }

    /// The state after a millisecond.
    pub open spec fn waited(self, shift: bool, fader: u16, tables: Tables) -> MidiToCv {
        let mode = self.params.mode;
        let layered = MidiToCv {
            latch_layer: if shift {
                LatchLayer::Alt
            } else {
                LatchLayer::Main
            },
            ..self
        };
        if mode == 0 || mode == 4 {
            let fadval = if shift {
                self.fadval
            } else {
                fader
            };
            let val = if self.muted {
                0
            } else {
                tables.curve(self.params.curve, fadval + self.offset) as int
            };
            MidiToCv {
                fadval,
                outval: clickless_step(self.outval as int, val) as u16,
                ..layered
            }
        } else if mode == 1 || mode == 5 {
            MidiToCv {
                outval: clickless_step(self.outval as int, self.middle() as int) as u16,
                ..layered
            }
        } else {
            layered
        }
    }

    /// What a millisecond sets off, `after` being the state after it.
    pub open spec fn wait_actions(self, shift: bool, glide: u16, after: MidiToCv) -> Seq<Action> {
        let mode = self.params.mode;
        let alt = self.storage.alt_layer_val;
        let color = self.params.color;
        if mode == 0 || mode == 4 {
            let attval = (attenuated(after.outval as int, alt as int) % 65536) as u16;
            seq![self.output(attval)] + (if shift {
                seq![
                    self.top(Color::Red, level_byte(alt as int)),
                    led_unset(self.start_channel, Led::Bottom),
                ]
            } else {
                seq![self.top(color, led_level(attval as int))]
            })
        } else if mode == 1 {
            let pitch = self.pitch_now(glide);
            seq![
                self.output(clamp_12bit(pitch + after.outval - 2047) as u16),
                if shift {
                    self.top(Color::Red, level_byte(alt as int))
                } else {
                    self.top(color, level_byte(pitch as int))
                },
            ]
        } else if mode == 5 {
            seq![self.output(after.outval)]
        } else {
            Seq::empty()
        }
    }

    fn show_value(&mut self, shift: bool, fader: u16, tables: &Tables, actions: &mut Vec<Action>)
        requires
            old(self).wf(),
            tables.wf(),
            fader <= 4095,
            old(self).params.mode == 0 || old(self).params.mode == 4,
            old(actions)@.len() == 0,
        ensures
            *final(self) == (MidiToCv {
                latch_layer: old(self).latch_layer,
                ..old(self).waited(shift, fader, *tables)
            }),
            final(self).wf(),
            final(actions)@ == old(self).wait_actions(shift, 0, *final(self)),
    {
        if !shift {
            self.fadval = fader;
        }
        let att: u16 = self.storage.alt_layer_val;
        let val: u16 = if self.muted {
            0
        } else {
            tables.curve_at(self.params.curve, self.fadval + self.offset)
        };
        self.outval = clickless(self.outval, val);
        let attval: u16 = attenuate(self.outval, att);
        actions.push(self.jack().set_value(attval));
        if shift {
            actions.push(self.show_top(Color::Red, byte_level(att)));
            actions.push(Leds::<1>::new(self.start_channel).unset(0, Led::Bottom));
        } else {
            actions.push(self.show_top(self.params.color, value_level(attval)));
        }
    }

    /// A millisecond has gone by: the output follows what was received. While
    /// notes are tied, `glide` is where the pitch is now.
    pub fn output_handler(&mut self, shift: bool, fader: u16, glide: u16, tables: &Tables) -> (r:
        Vec<Action>)
        requires
            old(self).wf(),
            tables.wf(),
            fader <= 4095,
        ensures
            *final(self) == old(self).waited(shift, fader, *tables),
            final(self).wf(),
            r@ == old(self).wait_actions(shift, glide, *final(self)),
    {
        let mut actions: Vec<Action> = Vec::new();
        let mode: usize = self.params.mode;
        if mode == 0 || mode == 4 {
            self.show_value(shift, fader, tables, &mut actions);
        } else if mode == 1 {
            let offset: u16 = if !self.muted {
                self.offset
            } else {
                2047
            };
            let pitch: u16 = if self.glide_active {
                glide
            } else {
                self.pitch
            };
            self.outval = clickless(self.outval, offset);
            let moved: i32 = pitch as i32 + self.outval as i32 - 2047;
            let out: u16 = if moved < 0 {
                0
            } else if moved > 4095 {
                4095
            } else {
                moved as u16
            };
            actions.push(self.jack().set_value(out));
            if shift {
                actions.push(self.show_top(Color::Red, byte_level(self.storage.alt_layer_val)));
            } else {
                actions.push(self.show_top(self.params.color, byte_level(pitch)));
            }
        } else if mode == 5 {
            let offset: u16 = if !self.muted {
                self.offset
            } else {
                2048
            };
            self.outval = clickless(self.outval, offset);
            actions.push(self.jack().set_value(self.outval));
        }
        self.latch_layer = LatchLayer::from(shift);
        actions
    }

    /// The state with the mute toggled.
    pub open spec fn mute_toggled(self) -> MidiToCv {
        let muted = !self.storage.muted;
        MidiToCv { muted, storage: Storage { muted, ..self.storage }, ..self }
    }

    /// What the toggled mute sets off. A velocity does not outlast it.
    pub open spec fn mute_actions(self) -> Seq<Action> {
        seq![Action::Save, self.mute_led(!self.storage.muted)] + (if self.params.mode == 3 {
            seq![self.output(0), led_unset(self.start_channel, Led::Top)]
        } else {
            Seq::empty()
        })
    }

    /// The button was pressed: it toggles the mute.
    pub fn button_handler(&mut self) -> (r: Vec<Action>)
        requires
            old(self).wf(),
        ensures
            *final(self) == old(self).mute_toggled(),
            final(self).wf(),
            r@ == old(self).mute_actions(),
    {
        self.storage.muted = !self.storage.muted;
        self.muted = self.storage.muted;
        let mut actions: Vec<Action> = vec![Action::Save, self.show_mute(self.muted)];
        if self.params.mode == 3 {
            actions.push(self.jack().set_value(0));
            actions.push(Leds::<1>::new(self.start_channel).unset(0, Led::Top));
        }
        actions
    }

    /// The stored value that the fader edits.
    pub open spec fn fader_target(self) -> u16 {
        match self.latch_layer {
            LatchLayer::Main => self.storage.main_layer_val,
            LatchLayer::Alt => self.storage.alt_layer_val,
            LatchLayer::Third => 0,
        }
    }

    /// The state after the fader was moved.
    pub open spec fn fader_moved(self, value: u16) -> MidiToCv {
        let target = self.fader_target();
        let latched = MidiToCv {
            latch: self.latch.updated(value, self.latch_layer, target),
            ..self
        };
        match self.latch.emits(value, self.latch_layer, target) {
            Some(new_value) => match self.latch_layer {
                LatchLayer::Main => MidiToCv {
                    storage: Storage { main_layer_val: new_value, ..self.storage },
                    ..latched
                },
                LatchLayer::Alt => MidiToCv {
                    storage: Storage { alt_layer_val: new_value, ..self.storage },
                    glide: if self.params.mode == 1 {
                        glide_of(new_value)
                    } else {
                        self.glide
                    },
                    ..latched
                },
                LatchLayer::Third => latched,
            },
            None => latched,
        }
    }

    /// A fader that changes a value asks for it to be saved.
    pub open spec fn fader_actions(self, value: u16) -> Seq<Action> {
        if self.latch.emits(value, self.latch_layer, self.fader_target()) is Some
            && self.latch_layer != LatchLayer::Third {
            seq![Action::Save]
        } else {
            Seq::empty()
        }
    }

    /// The fader was moved.
    pub fn fader_handler(&mut self, value: u16) -> (r: Vec<Action>)
        requires
            old(self).wf(),
        ensures
            *final(self) == old(self).fader_moved(value),
            final(self).wf(),
            r@ == old(self).fader_actions(value),
    {
        let mut actions: Vec<Action> = Vec::new();
        let layer = self.latch_layer;
        let target: u16 = match layer {
            LatchLayer::Main => self.storage.main_layer_val,
            LatchLayer::Alt => self.storage.alt_layer_val,
            LatchLayer::Third => 0,
        };
        if let Some(new_value) = self.latch.update(value, layer, target) {
            match layer {
                LatchLayer::Main => {
                    self.storage.main_layer_val = new_value;
                    actions.push(Action::Save);
                },
                LatchLayer::Alt => {
                    self.storage.alt_layer_val = new_value;
                    actions.push(Action::Save);
                    if self.params.mode == 1 {
                        self.glide = find_glide(new_value);
                    }
                },
                LatchLayer::Third => {},
            }
        }
        actions
    }

    /// Whether the app follows the end of a key.
    pub open spec fn follows(self, key: u8) -> bool {
        self.params.mode == 1 || self.params.mode == 2 || (self.params.mode == 6 && key
            == self.params.midi_note.0 % 128)
    }

    /// One key less.
    pub open spec fn fewer(self) -> i32 {
        if self.note_num > 0 {
            (self.note_num - 1) as i32
        } else {
            0
        }
    }

    /// The state after a key has ended.
    pub open spec fn key_ended(self, key: u8) -> MidiToCv {
        if self.follows(key) {
            MidiToCv {
                note_num: self.fewer(),
                glide_active: self.glide_active && !(self.params.mode == 1 && self.fewer() == 0),
                ..self
            }
        } else {
            self
        }
    }

    /// What the end of a key sets off: a gate ends with the last key.
    pub open spec fn end_actions(self, key: u8) -> Seq<Action> {
        if self.follows(key) && self.params.mode != 1 && self.fewer() == 0 {
            seq![self.output(0), led_unset(self.start_channel, Led::Top)]
        } else {
            Seq::empty()
        }
    }

    fn handle_note_off(&mut self, key: u8) -> (r: Vec<Action>)
        requires
            old(self).wf(),
        ensures
            *final(self) == old(self).key_ended(key),
            final(self).wf(),
            r@ == old(self).end_actions(key),
    {
        let mut actions: Vec<Action> = Vec::new();
        let mode: usize = self.params.mode;
        let fewer: i32 = if self.note_num > 0 {
            self.note_num - 1
        } else {
            0
        };
        if mode == 1 {
            self.note_num = fewer;
            if fewer == 0 {
                self.glide_active = false;
            }
        } else if mode == 2 || (mode == 6 && key == self.params.midi_note.to_wire()) {
            self.note_num = fewer;
            if fewer == 0 {
                actions.push(self.jack().set_value(0));
                actions.push(Leds::<1>::new(self.start_channel).unset(0, Led::Top));
            }
        }
        actions
    }

    /// Whether a key is one of those that make a gate.
    pub open spec fn gates(self, key: u8) -> bool {
        self.params.mode == 2 || (self.params.mode == 6 && key == self.params.midi_note.0 % 128)
    }

    /// The state after a key has begun. A pitch glides where another key is held.
    pub open spec fn key_begun(self, key: u8) -> MidiToCv {
        if self.params.mode == 1 && !self.muted {
            MidiToCv {
                glide_active: self.note_num > 0,
                note_num: (self.note_num + 1) as i32,
                pitch: key_pitch(key, self.storage.main_layer_val),
                ..self
            }
        } else if self.gates(key) {
            MidiToCv {
                note_num: if self.muted {
                    0
                } else {
                    (self.note_num + 1) as i32
                },
                ..self
            }
        } else {
            self
        }
    }

    /// What the begin of a key sets off.
    pub open spec fn begin_actions(self, key: u8, vel: u8) -> Seq<Action> {
        let color = self.params.color;
        if self.params.mode == 1 {
            if self.muted {
                Seq::empty()
            } else {
                let pitch = key_pitch(key, self.storage.main_layer_val);
                seq![self.top(color, level_byte(pitch as int))]
            }
        } else if self.gates(key) {
            if self.muted {
                Seq::empty()
            } else {
                seq![
                    self.output(gate_level(self.params.gate_vel, vel)),
                    led_set(self.start_channel, Led::Top, color, Brightness::Mid),
                ]
            }
        } else if self.params.mode == 3 {
            let level = if self.muted {
                0u16
            } else {
                (vel * 4095 / 127) as u16
            };
            seq![self.output(level), self.top(color, level_byte(level as int))]
        } else {
            Seq::empty()
        }
    }

    fn handle_note_on(&mut self, key: u8, vel: u8) -> (r: Vec<Action>)
        requires
            old(self).wf(),
            key < 128,
            vel < 128,
            old(self).note_num < i32::MAX,
        ensures
            *final(self) == old(self).key_begun(key),
            final(self).wf(),
            r@ == old(self).begin_actions(key, vel),
    {
        let mut actions: Vec<Action> = Vec::new();
        let mode: usize = self.params.mode;
        let color = self.params.color;
        if mode == 1 {
            if !self.muted {
                self.glide_active = self.note_num > 0;
                self.note_num = self.note_num + 1;
                let note_out: u16 = find_pitch(key, self.storage.main_layer_val);
                self.pitch = note_out;
                actions.push(self.show_top(color, byte_level(note_out)));
            }
        } else if mode == 2 || (mode == 6 && key == self.params.midi_note.to_wire()) {
            if !self.muted {
                let vel_out: u16 = find_gate_level(self.params.gate_vel, vel);
                actions.push(self.jack().set_value(vel_out));
                self.note_num = self.note_num + 1;
                let leds = Leds::<1>::new(self.start_channel);
                actions.push(leds.set(0, Led::Top, color, Brightness::Mid));
            } else {
                self.note_num = 0;
            }
        } else if mode == 3 {
            let vel_out: u16 = if !self.muted {
                scale_bits_7_12(vel)
            } else {
                0
            };
            actions.push(self.jack().set_value(vel_out));
            actions.push(self.show_top(color, byte_level(vel_out)));
        }
        actions
    }

    /// The state after a MIDI event. A note that begins with no velocity ends.
    pub open spec fn received(self, event: AppMidiEvent, bent: u16) -> MidiToCv {
        let mode = self.params.mode;
        match event {
            AppMidiEvent::Nrpn { param, value } => if mode == 0 && param == self.params.midi_cc.0 {
                MidiToCv { offset: (value * 4095 / 16383) as u16, ..self }
            } else {
                self
            },
            AppMidiEvent::Message(message) => match message {
                MidiMessage::Controller { controller, value } => if mode == 0 && controller
                    == self.params.midi_cc.0 % 128 {
                    MidiToCv { offset: (value * 4095 / 127) as u16, ..self }
                } else {
                    self
                },
                MidiMessage::NoteOn { key, vel } => if vel == 0 {
                    self.key_ended(key)
                } else {
                    self.key_begun(key)
                },
                MidiMessage::NoteOff { key, .. } => self.key_ended(key),
                MidiMessage::PitchBend { .. } => if mode == 1 || mode == 5 {
                    MidiToCv { offset: bent, ..self }
                } else {
                    self
                },
                MidiMessage::ChannelAftertouch { vel } => if mode == 4 {
                    MidiToCv { offset: (vel * 4095 / 127) as u16, ..self }
                } else {
                    self
                },
                _ => self,
            },
        }
    }

    /// What a MIDI event sets off.
    pub open spec fn midi_actions(self, event: AppMidiEvent) -> Seq<Action> {
        match event {
            AppMidiEvent::Message(MidiMessage::NoteOn { key, vel }) => if vel == 0 {
                self.end_actions(key)
            } else {
                self.begin_actions(key, vel)
            },
            AppMidiEvent::Message(MidiMessage::NoteOff { key, .. }) => self.end_actions(key),
            AppMidiEvent::Message(MidiMessage::PitchBend { bend }) => if self.params.mode == 1
                || self.params.mode == 5 {
                let levels = bend_levels(bend);
                seq![
                    self.top(self.params.color, levels.0),
                    led_set(
                        self.start_channel,
                        Led::Bottom,
                        self.params.color,
                        Brightness::Custom(levels.1),
                    ),
                ]
            } else {
                Seq::empty()
            },
            _ => Seq::empty(),
        }
    }

    /// Whether the fields of a message have their width, and another key can be
    /// counted.
    pub open spec fn receivable(self, event: AppMidiEvent) -> bool {
        &&& self.note_num < i32::MAX
        &&& event matches AppMidiEvent::Message(message) ==> message.wf()
    }

    /// A MIDI event was received. `bent` is the middle moved by a bend.
    pub fn midi_handler(&mut self, event: AppMidiEvent, bent: u16) -> (r: Vec<Action>)
        requires
            old(self).wf(),
            old(self).receivable(event),
        ensures
            *final(self) == old(self).received(event, bent),
            final(self).wf(),
            r@ == old(self).midi_actions(event),
    {
        let mode: usize = self.params.mode;
        match event {
            AppMidiEvent::Nrpn { param, value } => {
                if mode == 0 && param == self.params.midi_cc.as_u16() {
                    self.offset = scale_bits_14_12(value);
                }
                Vec::new()
            },
            AppMidiEvent::Message(message) => match message {
                MidiMessage::Controller { controller, value } => {
                    if mode == 0 && controller == self.params.midi_cc.to_wire() {
                        self.offset = scale_bits_7_12(value);
                    }
                    Vec::new()
                },
                MidiMessage::NoteOn { key, vel } => {
                    if vel == 0 {
                        self.handle_note_off(key)
                    } else {
                        self.handle_note_on(key, vel)
                    }
                },
                MidiMessage::NoteOff { key, .. } => self.handle_note_off(key),
                MidiMessage::PitchBend { bend } => {
                    let mut actions: Vec<Action> = Vec::new();
                    if mode == 1 || mode == 5 {
                        self.offset = bent;
                        let (up, down) = find_bend_levels(bend);
                        let leds = Leds::<1>::new(self.start_channel);
                        let color = self.params.color;
                        actions.push(self.show_top(color, up));
                        actions.push(leds.set(0, Led::Bottom, color, Brightness::Custom(down)));
                    }
                    actions
                },
                MidiMessage::ChannelAftertouch { vel } => {
                    if mode == 4 {
                        self.offset = scale_bits_7_12(vel);
                    }
                    Vec::new()
                },
                _ => Vec::new(),
            },
        }
    }

    /// A scene was loaded into the storage.
    pub fn load_scene(&mut self, storage: Storage) -> (r: Vec<Action>)
        requires
            old(self).wf(),
        ensures
            *final(self) == (MidiToCv { storage, muted: storage.muted, ..*old(self) }),
            final(self).wf(),
            r@ == seq![old(self).mute_led(storage.muted)],
    {
        self.storage = storage;
        self.muted = storage.muted;
        vec![self.show_mute(storage.muted)]
    }

    /// Whether an event brings what the hardware can bring.
    pub open spec fn admits(self, event: Event) -> bool {
        match event {
            Event::Millisecond { fader, .. } => fader <= 4095,
            Event::Midi { event, .. } => self.receivable(event),
            _ => true,
        }
    }

    /// The state after an event.
    pub open spec fn after(self, event: Event, tables: Tables) -> MidiToCv {
        match event {
            Event::Millisecond { shift, fader, .. } => self.waited(shift, fader, tables),
            Event::Down => self.mute_toggled(),
            Event::Fader(value) => self.fader_moved(value),
            Event::Midi { event, bent } => self.received(event, bent),
            Event::LoadScene(storage) => MidiToCv { storage, muted: storage.muted, ..self },
            Event::SaveScene(_) => self,
        }
    }

    /// What an event sets off.
    pub open spec fn does(self, event: Event, tables: Tables) -> Seq<Action> {
        match event {
            Event::Millisecond { shift, fader, glide } => self.wait_actions(
                shift,
                glide,
                self.waited(shift, fader, tables),
            ),
            Event::Down => self.mute_actions(),
            Event::Fader(value) => self.fader_actions(value),
            Event::Midi { event, .. } => self.midi_actions(event),
            Event::LoadScene(storage) => seq![self.mute_led(storage.muted)],
            Event::SaveScene(scene) => seq![Action::SaveScene(scene)],
        }
    }

    /// Handles an event.
    pub fn run(&mut self, event: Event, tables: &Tables) -> (r: Vec<Action>)
        requires
            old(self).wf(),
            old(self).admits(event),
            tables.wf(),
        ensures
            *final(self) == old(self).after(event, *tables),
            final(self).wf(),
            r@ == old(self).does(event, *tables),
    {
        match event {
            Event::Millisecond { shift, fader, glide } => self.output_handler(
                shift,
                fader,
                glide,
                tables,
            ),
            Event::Down => self.button_handler(),
            Event::Fader(value) => self.fader_handler(value),
            Event::Midi { event, bent } => self.midi_handler(event, bent),
            Event::LoadScene(storage) => self.load_scene(storage),
            Event::SaveScene(scene) => vec![Action::SaveScene(scene)],
        }
    }
}

/// A note that begins with no velocity counts as a note that ends.
pub proof fn law_zero_velocity_ends_note(app: MidiToCv, key: u8, vel: u8, bent: u16)
    ensures
        app.received(AppMidiEvent::Message(MidiMessage::NoteOn { key, vel: 0 }), bent)
            == app.received(AppMidiEvent::Message(MidiMessage::NoteOff { key, vel }), bent),
        app.midi_actions(AppMidiEvent::Message(MidiMessage::NoteOn { key, vel: 0 }))
            == app.midi_actions(AppMidiEvent::Message(MidiMessage::NoteOff { key, vel })),
{
}

/// In gate mode a gate stays open until as many keys have ended as have begun:
/// after a second key has begun, the end of one does not close it.
pub proof fn law_gate_stays_open_for_held_keys(app: MidiToCv, first: u8, second: u8)
    requires
        app.wf(),
        app.params.mode == 2,
        !app.muted,
        app.note_num < i32::MAX - 1,
    ensures
        app.key_begun(first).key_begun(second).end_actions(first) == Seq::<Action>::empty(),
        app.key_begun(first).key_ended(first) == app,
{
}

/// A velocity sensitive gate is between a tenth of the range and all of it, and
/// never falls with the velocity.
pub proof fn law_gate_level_grows(low: u8, high: u8)
    requires
        low <= high <= 127,
    ensures
        410 <= gate_level(true, low) <= gate_level(true, high) <= 4095,
        gate_level(true, 127) == 4095,
{
}

/// The pitch of a key is 410 counts per octave, rounded down to a count, moved by
/// whole octaves, five down at the bottom of the fader to five up at its top, and
/// stays within 12 bits. So an octave between keys is 410 counts apart.
pub proof fn law_pitch_of_keys(key: u8, fader: u16)
    requires
        key < 128,
        fader <= 4095,
    ensures
        ({
            let pitch = key_pitch(key, fader) as int;
            let octaves = fader as int * 10 / 4095 - 5;
            let plain = pitch - 410 * octaves;
            &&& 0 <= pitch <= 4095
            &&& -5 <= octaves <= 5
            &&& 0 < pitch < 4095 ==> 12 * plain <= 410 * key < 12 * plain + 12
            &&& pitch == 0 ==> key * 410 / 12 + 410 * octaves <= 0
            &&& pitch == 4095 ==> key * 410 / 12 + 410 * octaves >= 4095
        }),
        key_pitch(0, 2048) == 0,
        key + 12 < 120 ==> key_pitch((key + 12) as u8, 2048) == key_pitch(key, 2048) + 410,
{
}

/// The position of a glide in a hundred steps, and the voltage of a gate: all of
/// the range, or by the velocity from a tenth of it on, at an even rate.
pub proof fn law_glides_and_gates(fader: u16, vel: u8)
    requires
        fader <= 4095,
        vel < 128,
    ensures
        4095 * glide_of(fader) <= 100 * fader < 4095 * glide_of(fader) + 4095,
        gate_level(false, vel) == 4095,
        gate_level(true, 0) == 410,
        ({
            let above = gate_level(true, vel) - 410;
            127 * above <= 3685 * vel < 127 * above + 254
        }),
{
}

/// A bend lights the top LED above its middle and the bottom one below it, by its
/// share of the way to the end.
pub proof fn law_bends_are_shown(app: MidiToCv, bend: u16, bent: u16, tables: Tables)
    requires
        app.wf(),
        bend < 16384,
        app.params.mode == 1 || app.params.mode == 5,
    ensures
        ({
            let event = Event::Midi {
                event: AppMidiEvent::Message(MidiMessage::PitchBend { bend }),
                bent,
            };
            let (up, down) = bend_levels(bend);
            let actions = app.does(event, tables);
            &&& bend >= 8192 ==> down == 0 && 8192 * up <= 255 * (bend - 8192) < 8192 * up + 8192
            &&& bend <= 8192 ==> up == 0 && 8192 * down <= 255 * (8192 - bend) < 8192 * down + 8192
            &&& actions.len() == 2
            &&& actions[0] == led_set(
                app.start_channel,
                Led::Top,
                app.params.color,
                Brightness::Custom(up),
            )
            &&& actions[1] == led_set(
                app.start_channel,
                Led::Bottom,
                app.params.color,
                Brightness::Custom(down),
            )
        }),
{
}

/// As a pitch, a key that begins sets the pitch at once, or glides to it where
/// another key is held, and keys are counted; while muted nothing is taken.
pub proof fn law_keys_set_pitch(app: MidiToCv, key: u8, vel: u8, bent: u16, tables: Tables)
    requires
        app.wf(),
        app.params.mode == 1,
        app.note_num < 1000,
        key < 128,
        0 < vel < 128,
    ensures
        ({
            let on = Event::Midi {
                event: AppMidiEvent::Message(MidiMessage::NoteOn { key, vel }),
                bent,
            };
            let off = Event::Midi {
                event: AppMidiEvent::Message(MidiMessage::NoteOff { key, vel }),
                bent,
            };
            let begun = app.after(on, tables);
            let ended = app.after(off, tables);
            &&& !app.muted ==> begun.pitch == key_pitch(key, app.storage.main_layer_val)
                && begun.note_num == app.note_num + 1 && begun.glide_active == (app.note_num > 0)
                && begun.offset == app.offset
            &&& app.muted ==> begun == app
            &&& ended.pitch == app.pitch
            &&& app.note_num > 0 ==> ended.note_num == app.note_num - 1
            &&& app.note_num <= 1 ==> ended.note_num == 0 && !ended.glide_active
            &&& app.note_num > 1 ==> ended.glide_active == app.glide_active
            &&& app.does(off, tables).len() == 0
        }),
{
}

/// As a pitch, the output is the pitch, or where its glide has got to, moved by
/// the bend, which the click filter follows, and stays within 12 bits. Without a
/// bend, and once the filter has settled, it is the pitch plus one count.
pub proof fn law_pitch_is_put_out(
    app: MidiToCv,
    shift: bool,
    fader: u16,
    glide: u16,
    tables: Tables,
)
    requires
        app.wf(),
        app.params.mode == 1,
        app.pitch <= 4095,
        glide <= 4095,
        fader <= 4095,
        app.outval <= 4095,
        app.offset <= 4095,
    ensures
        ({
            let event = Event::Millisecond { shift, fader, glide };
            let after = app.after(event, tables);
            let pitch = if app.glide_active {
                glide
            } else {
                app.pitch
            };
            let middle = if app.muted {
                2047
            } else {
                app.offset as int
            };
            let moved = pitch + after.outval - 2047;
            &&& app.does(event, tables)[0] == (Action::Dac {
                channel: app.start_channel,
                value: if moved < 0 {
                    0
                } else if moved > 4095 {
                    4095
                } else {
                    moved as u16
                },
            })
            &&& app.outval == middle ==> after.outval == middle
            &&& app.outval < middle ==> app.outval < after.outval <= middle
            &&& app.outval > middle ==> middle <= after.outval < app.outval
            &&& after.pitch == app.pitch && after.glide_active == app.glide_active
        }),
{
}

/// As a gate, the first key opens the output and the last one to go closes it; of
/// the mode for one note only that note counts. A muted app opens nothing.
pub proof fn law_keys_open_gate(app: MidiToCv, key: u8, vel: u8, bent: u16, tables: Tables)
    requires
        app.wf(),
        app.note_num < 1000,
        app.params.midi_note.0 < 128,
        key < 128,
        0 < vel < 128,
        app.params.mode == 2 || app.params.mode == 6,
    ensures
        ({
            let on = Event::Midi {
                event: AppMidiEvent::Message(MidiMessage::NoteOn { key, vel }),
                bent,
            };
            let off = Event::Midi {
                event: AppMidiEvent::Message(MidiMessage::NoteOff { key, vel }),
                bent,
            };
            let counts = app.params.mode == 2 || key == app.params.midi_note.0;
            let begun = app.after(on, tables);
            let ended = app.after(off, tables);
            &&& counts && !app.muted ==> begun.note_num == app.note_num + 1 && app.does(
                on,
                tables,
            )[0] == (Action::Dac {
                channel: app.start_channel,
                value: gate_level(app.params.gate_vel, vel),
            })
            &&& app.muted || !counts ==> app.does(on, tables).len() == 0
            &&& counts && app.muted ==> begun.note_num == 0
            &&& !counts ==> begun == app && ended == app && app.does(off, tables).len() == 0
            &&& counts && app.note_num > 1 ==> ended.note_num == app.note_num - 1 && app.does(
                off,
                tables,
            ).len() == 0
            &&& counts && app.note_num <= 1 ==> ended.note_num == 0 && app.does(off, tables)[0] == (
            Action::Dac { channel: app.start_channel, value: 0 })
        }),
{
}

/// As a velocity, every key that begins puts out its velocity's share of full
/// scale, or nothing while muted.
pub proof fn law_velocity_is_put_out(app: MidiToCv, key: u8, vel: u8, bent: u16, tables: Tables)
    requires
        app.wf(),
        app.params.mode == 3,
        0 < vel < 128,
    ensures
        ({
            let on = Event::Midi {
                event: AppMidiEvent::Message(MidiMessage::NoteOn { key, vel }),
                bent,
            };
            let level = app.does(on, tables)[0];
            &&& level matches Action::Dac { channel, value } && channel == app.start_channel && (
            app.muted ==> value == 0) && (!app.muted ==> 127 * value <= 4095 * vel < 127 * value
                + 127)
            &&& app.after(on, tables) == app
        }),
{
}

/// A controller of the app's number and, in their modes, aftertouch and bends set
/// what is put out: the share of full scale of their value, or the bent middle.
/// Other controllers and other modes take no part.
pub proof fn law_messages_set_level(
    app: MidiToCv,
    controller: u8,
    value: u8,
    bend: u16,
    bent: u16,
    tables: Tables,
)
    requires
        app.wf(),
        app.params.midi_cc.0 < 128,
        controller < 128,
        value < 128,
    ensures
        ({
            let event = |message: MidiMessage|
                Event::Midi { event: AppMidiEvent::Message(message), bent };
            let cc = app.after(event(MidiMessage::Controller { controller, value }), tables);
            let touch = app.after(event(MidiMessage::ChannelAftertouch { vel: value }), tables);
            let bend = app.after(event(MidiMessage::PitchBend { bend }), tables);
            let mode = app.params.mode;
            &&& mode == 0 && controller == app.params.midi_cc.0 ==> 127 * cc.offset <= 4095 * value
                < 127 * cc.offset + 127
            &&& mode != 0 || controller != app.params.midi_cc.0 ==> cc == app
            &&& mode == 4 ==> 127 * touch.offset <= 4095 * value < 127 * touch.offset + 127
            &&& mode != 4 ==> touch == app
            &&& mode == 1 || mode == 5 ==> bend == (MidiToCv { offset: bent, ..app })
            &&& mode != 1 && mode != 5 ==> bend == app
        }),
{
}

/// As a controller or aftertouch, the output follows the curve at the fader's
/// position plus what was received, through the click filter, at the level that
/// is stored. A muted app goes to zero. The fader is followed without shift.
pub proof fn law_level_is_put_out(
    app: MidiToCv,
    shift: bool,
    fader: u16,
    glide: u16,
    tables: Tables,
)
    requires
        app.wf(),
        tables.wf(),
        app.params.mode == 0 || app.params.mode == 4,
        fader <= 4095,
        app.storage.alt_layer_val <= 4095,
        app.outval <= 4095,
    ensures
        ({
            let event = Event::Millisecond { shift, fader, glide };
            let after = app.after(event, tables);
            let from = if shift {
                app.fadval
            } else {
                fader
            };
            let sum = if from + app.offset > 4095 {
                4095
            } else {
                from + app.offset
            };
            let goal = if app.muted {
                0
            } else {
                match app.params.curve {
                    Curve::Linear => tables.linear@[sum],
                    Curve::Logarithmic => tables.logarithmic@[sum],
                    Curve::Exponential => tables.exponential@[sum],
                }
            };
            &&& after.fadval == from
            &&& app.outval == goal ==> after.outval == goal
            &&& app.outval < goal ==> app.outval < after.outval <= goal
            &&& app.outval > goal ==> goal <= after.outval < app.outval
            &&& app.does(event, tables)[0] matches Action::Dac { channel, value } && channel
                == app.start_channel && 4095 * value <= after.outval * app.storage.alt_layer_val
                < 4095 * value + 4095
        }),
{
    let event = Event::Millisecond { shift, fader, glide };
    let after = app.after(event, tables);
    crate::utils::law_attenuate_ends(after.outval as int, app.storage.alt_layer_val as int);
}

/// As a bend, the output follows the bent middle through the click filter, and
/// rests at the middle while muted.
pub proof fn law_bend_is_put_out(
    app: MidiToCv,
    shift: bool,
    fader: u16,
    glide: u16,
    tables: Tables,
)
    requires
        app.wf(),
        app.params.mode == 5,
        fader <= 4095,
    ensures
        ({
            let event = Event::Millisecond { shift, fader, glide };
            let after = app.after(event, tables);
            let goal = if app.muted {
                2048
            } else {
                app.offset
            };
            &&& app.outval == goal ==> after.outval == goal
            &&& app.outval < goal ==> app.outval < after.outval <= goal
            &&& app.outval > goal ==> goal <= after.outval < app.outval
            &&& app.does(event, tables) == seq![
                Action::Dac { channel: app.start_channel, value: after.outval },
            ]
        }),
{
}

/// The button toggles the mute, which is stored; as a velocity the output then
/// goes to zero. A scene brings its mute.
pub proof fn law_mute(app: MidiToCv, storage: Storage, tables: Tables)
    requires
        app.wf(),
    ensures
        app.after(Event::Down, tables).muted == !app.storage.muted,
        app.after(Event::Down, tables).storage == (Storage {
            muted: !app.storage.muted,
            ..app.storage
        }),
        app.does(Event::Down, tables)[0] == Action::Save,
        app.params.mode == 3 ==> app.does(Event::Down, tables)[2] == (Action::Dac {
            channel: app.start_channel,
            value: 0,
        }),
        app.after(Event::LoadScene(storage), tables).muted == storage.muted,
        app.after(Event::LoadScene(storage), tables).storage == storage,
{
}

/// A fader that has a value to give stores it and asks for it to be saved: on the
/// main layer as the octave, with shift as the level, or as the glide of pitches,
/// which is followed at once.
pub proof fn law_fader_stores_its_value(app: MidiToCv, value: u16, tables: Tables)
    requires
        app.wf(),
        app.latch_layer != LatchLayer::Third,
    ensures
        ({
            let main = app.latch_layer == LatchLayer::Main;
            let target = if main {
                app.storage.main_layer_val
            } else {
                app.storage.alt_layer_val
            };
            let event = Event::Fader(value);
            let after = app.after(event, tables);
            let emitted = app.latch.emits(value, app.latch_layer, target);
            &&& emitted is None ==> after.storage == app.storage && app.does(event, tables).len()
                == 0
            &&& emitted matches Some(v) ==> {
                &&& app.does(event, tables) == seq![Action::Save]
                &&& main ==> after.storage == (Storage { main_layer_val: v, ..app.storage })
                    && after.glide == app.glide
                &&& !main ==> after.storage == (Storage { alt_layer_val: v, ..app.storage })
                &&& !main && app.params.mode == 1 ==> after.glide == glide_of(v)
            }
            &&& after.latch == app.latch.updated(value, app.latch_layer, target)
        }),
        app.after(Event::Millisecond { shift: true, fader: 0, glide: 0 }, tables).latch_layer
            == LatchLayer::Alt,
        app.after(Event::Millisecond { shift: false, fader: 0, glide: 0 }, tables).latch_layer
            == LatchLayer::Main,
{
}

/// The upper LED shows what the mode makes of its input in the color of the app: the
/// level after the attenuation or the pitch, and with shift the attenuation in red.
/// An opened output lights it and a closed one puts it out.
pub proof fn law_values_are_shown(
    app: MidiToCv,
    shift: bool,
    fader: u16,
    glide: u16,
    key: u8,
    vel: u8,
    tables: Tables,
)
    requires
        app.wf(),
    ensures
        ({
            let actions = app.does(Event::Millisecond { shift, fader, glide }, tables);
            let after = app.waited(shift, fader, tables);
            let mode = app.params.mode;
            let first = app.start_channel;
            let color = app.params.color;
            let alt = Brightness::Custom(level_byte(app.storage.alt_layer_val as int));
            let level = attenuated(after.outval as int, app.storage.alt_layer_val as int) % 65536;
            &&& (mode == 0 || mode == 4) && shift ==> actions.len() == 3 && actions[1] == led_set(
                first,
                Led::Top,
                Color::Red,
                alt,
            ) && actions[2] == led_unset(first, Led::Bottom)
            &&& (mode == 0 || mode == 4) && !shift ==> actions.len() == 2 && actions[1] == led_set(
                first,
                Led::Top,
                color,
                Brightness::Custom(led_level(level)),
            )
            &&& mode == 1 && shift ==> actions[1] == led_set(first, Led::Top, Color::Red, alt)
            &&& mode == 1 && !shift ==> actions[1] == led_set(
                first,
                Led::Top,
                color,
                Brightness::Custom(level_byte(app.pitch_now(glide) as int)),
            )
        }),
        ({
            let begin = app.begin_actions(key, vel);
            let end = app.end_actions(key);
            let first = app.start_channel;
            let color = app.params.color;
            &&& app.params.mode != 1 && app.gates(key) && !app.muted ==> begin.len() == 2 && begin[1]
                == led_set(first, Led::Top, color, Brightness::Mid)
            &&& end.len() > 0 ==> end == seq![app.output(0), led_unset(first, Led::Top)]
            &&& app.params.mode == 3 && app.muted ==> begin[1] == led_set(
                first,
                Led::Top,
                color,
                Brightness::Custom(0),
            )
        }),
{
}

/// The button is lit while the app is not muted; where velocities are put out, a
/// press puts the output and the upper LED out.
pub proof fn law_mute_is_shown(app: MidiToCv, storage: Storage, tables: Tables)
    requires
        app.wf(),
    ensures
        ({
            let first = app.start_channel;
            let lit = led_set(first, Led::Button, app.params.color, Brightness::Mid);
            let dark = led_unset(first, Led::Button);
            let press = app.does(Event::Down, tables);
            &&& press[0] == Action::Save
            &&& press[1] == (if app.storage.muted {
                lit
            } else {
                dark
            })
            &&& app.params.mode != 3 ==> press.len() == 2
            &&& app.params.mode == 3 ==> press.skip(2) == seq![
                app.output(0),
                led_unset(first, Led::Top),
            ]
            &&& app.does(Event::LoadScene(storage), tables) == seq![
                if storage.muted {
                    dark
                } else {
                    lit
                },
            ]
        }),
{
}

/// The app starts on what is stored, muted as it is stored, with no key held, its
/// output in the middle where it bends. Its faders are where they are found.
pub proof fn law_starts_on_storage(
    app: App<1>,
    params: Params,
    storage: Storage,
    fader: u16,
    takeover: TakeoverMode,
)
    ensures
        ({
            let s = MidiToCv::started(app, params, storage, fader, takeover);
            &&& s.start_channel == app.start_channel && s.params == params && s.storage == storage
            &&& s.latch_layer == LatchLayer::Main
            &&& s.latch == AnalogLatch::initial(fader, 25, takeover)
            &&& s.muted == storage.muted
            &&& s.offset == (if params.mode == 5 || params.mode == 1 {
                2048u16
            } else {
                0
            })
            &&& s.pitch == 0 && s.outval == 0 && s.note_num == 0
            &&& !s.glide_active && s.glide == glide_of(storage.alt_layer_val)
            &&& s.fadval == fader
        }),
{
}

/// A parameter change with the number of the controller sets the level to the
/// value's share of fourteen bits, where controllers are put out; any other leaves
/// it.
pub proof fn law_parameters_set_level(
    app: MidiToCv,
    param: u16,
    value: u16,
    bent: u16,
    tables: Tables,
)
    requires
        app.wf(),
        value <= 16383,
    ensures
        ({
            let event = Event::Midi { event: AppMidiEvent::Nrpn { param, value }, bent };
            let after = app.after(event, tables);
            let set = app.params.mode == 0 && param == app.params.midi_cc.0;
            &&& set ==> 16383 * after.offset <= 4095 * value < 16383 * after.offset + 16383
            &&& after == (MidiToCv { offset: after.offset, ..app })
            &&& !set ==> after == app
            &&& app.does(event, tables).len() == 0
        }),
{
}

/// The parameters of a fresh app, and what it has in its storage.
pub proof fn law_fresh_app(start_channel: usize, r: Storage)
    requires
        call_ensures(Storage::default, (), r),
    ensures
        ({
            let p = initial_params(start_channel);
            &&& p.mode == 0
            &&& p.curve == Curve::Linear
            &&& p.midi_channel == MidiChannel(1)
            &&& p.midi_cc == MidiCc::for_channel(32, start_channel)
            &&& p.midi_note == MidiNote(36)
            &&& p.midi_in == (MidiIn { usb: true, din: true })
            &&& p.bend_range == 12
            &&& p.color == Color::Cyan
            &&& !p.gate_vel
        }),
        r == (Storage { muted: false, alt_layer_val: 4095, main_layer_val: 2048 }),
{
}

} // verus!
