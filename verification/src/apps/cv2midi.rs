//! CV to MIDI: a controller from an input.
use vstd::prelude::*;

use crate::app::{led_set, Action, App, Leds, MidiOutput, PortMode};
use crate::apps::parts::{byte_level, level_byte, light_or_not, lit_or_not};
use crate::latch::{clamp_12bit, AnalogLatch, LatchLayer, TakeoverMode};
use crate::storage::{values_new, values_push, AppParams, AppStorage, ManagedStorage, ParamStore};
use crate::tasks::leds::Led;
use crate::types::{
    Brightness, Color, MidiCc, MidiChannel, MidiOut, ParamValue, Range, Value,
};
use crate::utils::{
    attenuate, attenuate_bipolar, attenuated, attenuated_bipolar, split_unsigned_value, to_i16,
    unsigned_halves, wrap_i16,
};

verus! {

pub const CHANNELS: usize = 1;

pub const PARAMS: usize = 6;

/// The parameters of the app.
#[derive(Clone, Copy, Debug, PartialEq, Eq, Structural)]
pub struct Params {
    pub bipolar: bool,
    pub midi_channel: MidiChannel,
    pub midi_cc: MidiCc,
    pub midi_out: MidiOut,
    pub color: Color,
    pub nrpn: bool,
}

impl AppParams for Params {
    open spec fn read(values: Seq<Value>) -> Option<Self> {
        if values.len() < 6 {
            None
        } else {
            Some(
                Params {
                    bipolar: bool::reads(values[0]),
                    midi_channel: MidiChannel::reads(values[1]),
                    midi_cc: MidiCc::reads(values[2]),
                    color: Color::reads(values[3]),
                    nrpn: bool::reads(values[4]),
                    midi_out: MidiOut::reads(values[5]),
                },
            )
        }
    }

    open spec fn listing(self) -> Seq<Value> {
        seq![
            self.bipolar.stored(),
            self.midi_channel.stored(),
            self.midi_cc.stored(),
            self.color.stored(),
            Value::MidiNrpn(self.nrpn),
            self.midi_out.stored(),
        ]
    }

    fn from_values(values: &[Value]) -> (r: Option<Self>) {
        if values.len() < PARAMS {
            return None;
        }
        Some(
            Params {
                bipolar: bool::from_value(values[0]),
                midi_channel: MidiChannel::from_value(values[1]),
                midi_cc: MidiCc::from_value(values[2]),
                color: Color::from_value(values[3]),
                nrpn: bool::from_value(values[4]),
                midi_out: MidiOut::from_value(values[5]),
            },
        )
    }

    fn to_values(&self) -> (r: heapless::Vec<Value, 16>) {
        let mut vec = values_new();
        let _ = values_push(&mut vec, self.bipolar.into_value());
        let _ = values_push(&mut vec, self.midi_channel.into_value());
        let _ = values_push(&mut vec, self.midi_cc.into_value());
        let _ = values_push(&mut vec, self.color.into_value());
        let _ = values_push(&mut vec, Value::MidiNrpn(self.nrpn));
        let _ = values_push(&mut vec, self.midi_out.into_value());
        vec
    }

    proof fn law_params_round_trip(self) {
    }
}

/// What the app keeps.
#[derive(Clone, Copy, Debug, PartialEq, Eq, Structural)]
pub struct Storage {
    pub muted: bool,
    pub att_saved: u16,
    pub offset_saved: u16,
}

impl Default for Storage {
    fn default() -> (r: Self)
        ensures
            r == (Storage { muted: false, att_saved: 4095, offset_saved: 0 }),
    {
        Storage { muted: false, att_saved: 4095, offset_saved: 0 }
    }
}

impl AppStorage for Storage {

}

/// The parameters that the app starts with: the controller of its channel.
pub open spec fn initial_params(start_channel: usize) -> Params {
    Params {
        bipolar: false,
        midi_channel: MidiChannel(1),
        midi_cc: MidiCc::for_channel(32, start_channel),
        midi_out: (MidiOut { usb: true, out1: true, out2: true }),
        color: Color::Violet,
        nrpn: false,
    }
}

/// The parameters and the storage of the app, before anything was loaded.
pub fn wrapper(app: App<1>) -> (r: (ParamStore<Params>, ManagedStorage<Storage>))
    ensures
        r.0 == (ParamStore {
            app_id: app.app_id,
            inner: initial_params(app.start_channel),
            layout_id: app.layout_id,
        }),
        r.1.app_id == app.app_id,
        r.1.layout_id == app.layout_id,
        call_ensures(Storage::default, (), r.1.inner),
{
    (
        ParamStore::new(
            app.app_id,
            app.layout_id,
            Params {
                bipolar: false,
                midi_channel: MidiChannel::default(),
                midi_cc: MidiCc::of_channel(32, app.start_channel),
                midi_out: MidiOut::default(),
                color: Color::Violet,
                nrpn: false,
            },
        ),
        ManagedStorage::new(app.app_id, app.layout_id),
    )
}

/// What an event brings.
pub enum Event {
    /// A millisecond has gone by, with the shift button and the input.
    Millisecond { shift: bool, raw: u16 },
    /// The button was pressed.
    Down,
    /// The fader was moved to a value.
    Fader(u16),
    /// A scene was loaded into the storage.
    LoadScene(Storage),
    /// A scene is to be saved.
    SaveScene(u8),
}

/// The running app.
pub struct CvToCc {
    pub start_channel: usize,
    pub params: Params,
    pub storage: Storage,
    pub muted: bool,
    pub latch_layer: LatchLayer,
    pub latch: AnalogLatch,
    pub old_midi: u16,
}

impl CvToCc {
    pub open spec fn wf(self) -> bool {
        self.start_channel < 16
    }

    /// The MIDI port.
    pub open spec fn midi(self) -> MidiOutput {
        MidiOutput::port(
            self.start_channel,
            self.params.midi_out,
            self.params.midi_channel,
            self.params.nrpn,
        )
    }

    fn midi_port(&self) -> (r: MidiOutput)
        ensures
            r == self.midi(),
    {
        MidiOutput::new(
            self.params.midi_out,
            self.start_channel,
            self.params.midi_channel.to_wire(),
            self.params.nrpn,
        )
    }

    /// The LED of the mute button.
    pub open spec fn mute_led(self, muted: bool) -> Action {
        lit_or_not(self.start_channel, Led::Button, !muted, self.params.color, Brightness::Mid)
    }

    fn show_mute(&self, muted: bool) -> (r: Action)
        requires
            self.start_channel < 16,
        ensures
            r == self.mute_led(muted),
    {
        light_or_not(self.start_channel, Led::Button, !muted, self.params.color, Brightness::Mid)
    }

    /// The state that the app starts with.
    pub open spec fn started(
        app: App<1>,
        params: Params,
        storage: Storage,
        fader: u16,
        takeover: TakeoverMode,
    ) -> CvToCc {
        CvToCc {
            start_channel: app.start_channel,
            params,
            storage,
            muted: storage.muted,
            latch_layer: LatchLayer::Main,
            latch: AnalogLatch::initial(fader, 25, takeover),
            old_midi: 0,
        }
    }

    /// Starts the app on what is stored.
    pub fn new(
        app: App<1>,
        params: Params,
        storage: Storage,
        fader: u16,
        takeover: TakeoverMode,
    ) -> (r: (Self, Vec<Action>))
        requires
            app.wf(),
        ensures
            r.0 == CvToCc::started(app, params, storage, fader, takeover),
            r.0.wf(),
            r.1@ == seq![
                r.0.mute_led(storage.muted),
                Action::Configure {
                    channel: app.start_channel,
                    mode: PortMode::Input { bipolar: params.bipolar },
                    gpo_level: None,
                },
            ],
    {
        let state = CvToCc {
            start_channel: app.start_channel,
            params,
            storage,
            muted: storage.muted,
            latch_layer: LatchLayer::Main,
            latch: app.make_latch(fader, takeover),
            old_midi: 0,
        };
        let range = if params.bipolar {
            Range::_Neg5_5V
        } else {
            Range::_0_10V
        };
        let actions = vec![state.show_mute(storage.muted), app.make_in_jack(0, range).1];
        (state, actions)
    }

    /// The value of the controller: the input, attenuated and moved by the offset.
    /// A unipolar input counts twice; a muted app rests. Sums are kept in 16 bits,
    /// those of a bipolar input with a sign.
    pub open spec fn value(self, raw: u16) -> int {
        let att = self.storage.att_saved as int;
        if self.muted {
            if self.params.bipolar {
                2047
            } else {
                0
            }
        } else if self.params.bipolar {
            let offset = wrap_i16(wrap_i16(self.storage.offset_saved as int) - 2047);
            clamp_12bit(wrap_i16(attenuated_bipolar(raw as int, att) + offset))
        } else {
            clamp_12bit((attenuated(raw * 2 % 65536, att) + self.storage.offset_saved) % 65536)
        }
    }

    fn find_value(&self, raw: u16) -> (r: u16)
        requires
            self.wf(),
        ensures
            r == self.value(raw),
            r <= 4095,
    {
        if self.muted {
            if self.params.bipolar {
                2047
            } else {
                0
            }
        } else if self.params.bipolar {
            let level: i32 = attenuate_bipolar(raw, self.storage.att_saved) as i32;
            let offset: i32 = to_i16(to_i16(self.storage.offset_saved as i32) - 2047);
            let moved: i32 = to_i16(level + offset);
            if moved < 0 {
                0
            } else if moved > 4095 {
                4095
            } else {
                moved as u16
            }
        } else {
            let doubled: u16 = (raw as u32 * 2 % 65536) as u16;
            let level: u16 = attenuate(doubled, self.storage.att_saved);
            let moved: u16 = level.wrapping_add(self.storage.offset_saved);
            if moved > 4095 {
                4095
            } else {
                moved
            }
        }
    }

    /// The state after a millisecond.
    pub open spec fn waited(self, shift: bool, raw: u16) -> CvToCc {
        CvToCc {
            latch_layer: if shift {
                LatchLayer::Alt
            } else {
                LatchLayer::Main
            },
            old_midi: (self.value(raw) / 32) as u16,
            ..self
        }
    }

    /// What a millisecond sets off: the LEDs, and the controller where it has
    /// moved by a step of 32.
    pub open spec fn wait_actions(self, shift: bool, raw: u16) -> Seq<Action> {
        let value = self.value(raw);
        let color = self.params.color;
        let halves = unsigned_halves(value);
        (if shift {
            seq![
                led_set(
                    self.start_channel,
                    Led::Top,
                    Color::Red,
                    Brightness::Custom(level_byte(self.storage.att_saved as int)),
                ),
            ]
        } else if self.params.bipolar {
            seq![
                led_set(self.start_channel, Led::Top, color, Brightness::Custom(halves.0 as u8)),
                led_set(
                    self.start_channel,
                    Led::Bottom,
                    color,
                    Brightness::Custom(halves.1 as u8),
                ),
            ]
        } else {
            seq![
                led_set(self.start_channel, Led::Top, color, Brightness::Custom(level_byte(value))),
            ]
        }) + (if self.old_midi != value / 32 {
            seq![self.midi().cc(self.params.midi_cc, value as u16)]
        } else {
            Seq::empty()
        })
    }

    /// A millisecond has gone by: the input is read.
    pub fn fut1(&mut self, shift: bool, raw: u16) -> (r: Vec<Action>)
        requires
            old(self).wf(),
        ensures
            *final(self) == old(self).waited(shift, raw),
            final(self).wf(),
            r@ == old(self).wait_actions(shift, raw),
    {
        let leds = Leds::<1>::new(self.start_channel);
        let color = self.params.color;
        let mut actions: Vec<Action> = Vec::new();
        let layer = LatchLayer::from(shift);
        self.latch_layer = layer;
        let input_val: u16 = self.find_value(raw);
        if layer == LatchLayer::Main {
            if self.params.bipolar {
                let led1 = split_unsigned_value(input_val);
                actions.push(leds.set(0, Led::Top, color, Brightness::Custom(led1[0])));
                actions.push(leds.set(0, Led::Bottom, color, Brightness::Custom(led1[1])));
            } else {
                let level: u8 = byte_level(input_val);
                actions.push(leds.set(0, Led::Top, color, Brightness::Custom(level)));
            }
        } else {
            let att: u8 = byte_level(self.storage.att_saved);
            actions.push(leds.set(0, Led::Top, Color::Red, Brightness::Custom(att)));
        }
        if self.old_midi != input_val / 32 {
            actions.push(self.midi_port().send_cc(self.params.midi_cc, input_val));
            self.old_midi = input_val / 32;
        }
        actions
    }

    /// The state with the mute toggled.
    pub open spec fn mute_toggled(self) -> CvToCc {
        let muted = !self.storage.muted;
        CvToCc { muted, storage: Storage { muted, ..self.storage }, ..self }
    }

    /// The button was pressed: it toggles the mute.
    pub fn fut2(&mut self) -> (r: Vec<Action>)
        requires
            old(self).wf(),
        ensures
            *final(self) == old(self).mute_toggled(),
            final(self).wf(),
            r@ == seq![Action::Save, old(self).mute_led(!old(self).storage.muted)],
    {
        self.storage.muted = !self.storage.muted;
        self.muted = self.storage.muted;
        vec![Action::Save, self.show_mute(self.muted)]
    }

    /// The stored value that the fader edits.
    pub open spec fn fader_target(self) -> u16 {
        match self.latch_layer {
            LatchLayer::Main => self.storage.offset_saved,
            LatchLayer::Alt => self.storage.att_saved,
            LatchLayer::Third => 0,
        }
    }

    /// The state after the fader was moved.
    pub open spec fn fader_moved(self, value: u16) -> CvToCc {
        let target = self.fader_target();
        CvToCc {
            latch: self.latch.updated(value, self.latch_layer, target),
            storage: match self.latch.emits(value, self.latch_layer, target) {
                Some(new_value) => match self.latch_layer {
                    LatchLayer::Main => Storage { offset_saved: new_value, ..self.storage },
                    LatchLayer::Alt => Storage { att_saved: new_value, ..self.storage },
                    LatchLayer::Third => self.storage,
                },
                None => self.storage,
            },
            ..self
        }
    }

    /// A fader that changes a value asks for it to be saved.
    pub open spec fn fader_actions(self, value: u16) -> Seq<Action> {
        if self.latch.emits(value, self.latch_layer, self.fader_target()) is Some
            && self.latch_layer != LatchLayer::Third {
            seq![Action::Save]
        } else {
            Seq::empty()
        }
    }

    /// The fader was moved.
    pub fn fut3(&mut self, value: u16) -> (r: Vec<Action>)
        requires
            old(self).wf(),
        ensures
            *final(self) == old(self).fader_moved(value),
            final(self).wf(),
            r@ == old(self).fader_actions(value),
    {
        let mut actions: Vec<Action> = Vec::new();
        let layer = self.latch_layer;
        let target: u16 = match layer {
            LatchLayer::Main => self.storage.offset_saved,
            LatchLayer::Alt => self.storage.att_saved,
            LatchLayer::Third => 0,
        };
        if let Some(new_value) = self.latch.update(value, layer, target) {
            match layer {
                LatchLayer::Main => {
                    self.storage.offset_saved = new_value;
                    actions.push(Action::Save);
                },
                LatchLayer::Alt => {
                    self.storage.att_saved = new_value;
                    actions.push(Action::Save);
                },
                LatchLayer::Third => {},
            }
        }
        actions
    }

    /// A scene was loaded into the storage.
    pub fn load_scene(&mut self, storage: Storage) -> (r: Vec<Action>)
        requires
            old(self).wf(),
        ensures
            *final(self) == (CvToCc { storage, muted: storage.muted, ..*old(self) }),
            final(self).wf(),
            r@ == seq![old(self).mute_led(storage.muted)],
    {
        self.storage = storage;
        self.muted = storage.muted;
        vec![self.show_mute(storage.muted)]
    }

    /// The state after an event.
    pub open spec fn after(self, event: Event) -> CvToCc {
        match event {
            Event::Millisecond { shift, raw } => self.waited(shift, raw),
            Event::Down => self.mute_toggled(),
            Event::Fader(value) => self.fader_moved(value),
            Event::LoadScene(storage) => CvToCc { storage, muted: storage.muted, ..self },
            Event::SaveScene(_) => self,
        }
    }

    /// What an event sets off.
    pub open spec fn does(self, event: Event) -> Seq<Action> {
        match event {
            Event::Millisecond { shift, raw } => self.wait_actions(shift, raw),
            Event::Down => seq![Action::Save, self.mute_led(!self.storage.muted)],
            Event::Fader(value) => self.fader_actions(value),
            Event::LoadScene(storage) => seq![self.mute_led(storage.muted)],
            Event::SaveScene(scene) => seq![Action::SaveScene(scene)],
        }
    }

    /// Handles an event.
    pub fn run(&mut self, event: Event) -> (r: Vec<Action>)
        requires
            old(self).wf(),
        ensures
            *final(self) == old(self).after(event),
            final(self).wf(),
            r@ == old(self).does(event),
    {
        match event {
            Event::Millisecond { shift, raw } => self.fut1(shift, raw),
            Event::Down => self.fut2(),
            Event::Fader(value) => self.fut3(value),
            Event::LoadScene(storage) => self.load_scene(storage),
            Event::SaveScene(scene) => vec![Action::SaveScene(scene)],
        }
    }
}

/// A steady input is sent once: the millisecond after it has been sent, nothing
/// is sent.
pub proof fn law_steady_input_is_sent_once(app: CvToCc, shift: bool, raw: u16, i: int)
    requires
        app.old_midi == app.value(raw) / 32,
        0 <= i < app.wait_actions(shift, raw).len(),
    ensures
        app.wait_actions(shift, raw)[i] is Led,
        app.waited(shift, raw).old_midi == app.old_midi,
{
}

/// Toggling the mute twice leaves the app as it was.
pub proof fn law_mute_toggles_back(app: CvToCc)
    requires
        app.muted == app.storage.muted,
    ensures
        app.mute_toggled().mute_toggled() == app,
{
}

/// The controller of an input of 0 to 10 V is the input, which counts twice, at
/// the stored attenuation, plus the stored offset, up to full scale.
pub proof fn law_unipolar_input_is_scaled(app: CvToCc, raw: u16)
    requires
        app.wf(),
        !app.muted,
        !app.params.bipolar,
        raw <= 4095,
        app.storage.att_saved <= 4095,
        app.storage.offset_saved <= 4095,
    ensures
        ({
            let value = app.value(raw);
            let plain = value - app.storage.offset_saved;
            &&& 0 <= value <= 4095
            &&& value < 4095 ==> 4095 * plain <= 2 * raw * app.storage.att_saved < 4095 * plain
                + 4095
            &&& value == 4095 ==> 2 * raw * app.storage.att_saved + 4095
                * app.storage.offset_saved >= 4095 * 4095
        }),
{
    let att = app.storage.att_saved as int;
    crate::utils::law_attenuate_ends(2 * raw, att);
}

/// The controller of an input of -5 to 5 V is the input, attenuated from the middle
/// and moved by how far the offset is above or below its own middle, within 12
/// bits; so with the offset at the middle the attenuated input itself.
pub proof fn law_bipolar_input_is_scaled(app: CvToCc, raw: u16)
    requires
        app.wf(),
        !app.muted,
        app.params.bipolar,
        raw <= 4095,
        app.storage.att_saved <= 4095,
        app.storage.offset_saved <= 4095,
    ensures
        ({
            let value = app.value(raw);
            let att = app.storage.att_saved;
            let plain = value - (app.storage.offset_saved - 2047);
            &&& 0 <= value <= 4095
            &&& 0 < value < 4095 && raw >= 2048 ==> 4095 * (plain - 2048) <= (raw - 2048) * att
                < 4095 * (plain - 2048) + 4095
            &&& 0 < value < 4095 && raw < 2048 ==> 4095 * (2048 - plain) <= (2048 - raw) * att < 4095
                * (2048 - plain) + 4095
            &&& att == 4095 && app.storage.offset_saved == 2047 ==> value == raw
        }),
{
    let att = app.storage.att_saved as int;
    crate::utils::law_attenuate_bipolar_ends(raw as int, att);
    if raw >= 2048 {
        crate::utils::law_attenuate_bipolar_is_proportional(raw - 2048, att);
    } else {
        crate::utils::lemma_attenuated_bound(2048 - raw, att);
        crate::utils::law_attenuate_is_proportional(2048 - raw, att, 4095);
    }
}

/// In every millisecond the input is read, and the controller goes out with its
/// value where that has moved to another step of 32, and only then. A muted app
/// is at rest, at the bottom or in the middle.
pub proof fn law_controller_follows_input(app: CvToCc, shift: bool, raw: u16, i: int)
    requires
        app.wf(),
        app.old_midi < 128,
    ensures
        ({
            let event = Event::Millisecond { shift, raw };
            let after = app.after(event);
            let actions = app.does(event);
            let value = app.value(raw);
            &&& 0 <= value <= 4095
            &&& app.muted ==> value == (if app.params.bipolar {
                2047int
            } else {
                0
            })
            &&& 32 * after.old_midi <= value < 32 * after.old_midi + 32
            &&& after.old_midi != app.old_midi ==> actions.last() == app.midi().cc(
                app.params.midi_cc,
                value as u16,
            )
            &&& after.old_midi == app.old_midi && 0 <= i < actions.len() ==> !(actions[i] is Midi)
            &&& after.latch_layer == (if shift {
                LatchLayer::Alt
            } else {
                LatchLayer::Main
            })
            &&& after.storage == app.storage && after.muted == app.muted
        }),
{
}

/// The button toggles the mute, which is stored, and a scene brings its own.
pub proof fn law_mute_is_stored(app: CvToCc, storage: Storage)
    ensures
        app.after(Event::Down).muted == !app.storage.muted,
        app.after(Event::Down).storage == (Storage { muted: !app.storage.muted, ..app.storage }),
        app.does(Event::Down)[0] == Action::Save,
        app.after(Event::LoadScene(storage)).storage == storage,
        app.after(Event::LoadScene(storage)).muted == storage.muted,
{
}

/// A fader that has a value to give stores it and asks for it to be saved: as the
/// offset, or with shift as the attenuation.
pub proof fn law_fader_stores_its_value(app: CvToCc, value: u16)
    requires
        app.latch_layer != LatchLayer::Third,
    ensures
        ({
            let main = app.latch_layer == LatchLayer::Main;
            let target = if main {
                app.storage.offset_saved
            } else {
                app.storage.att_saved
            };
            let event = Event::Fader(value);
            let after = app.after(event);
            let emitted = app.latch.emits(value, app.latch_layer, target);
            &&& emitted is None ==> after.storage == app.storage && app.does(event).len() == 0
            &&& emitted matches Some(v) ==> app.does(event) == seq![Action::Save] && (main
                ==> after.storage == (Storage { offset_saved: v, ..app.storage })) && (!main
                ==> after.storage == (Storage { att_saved: v, ..app.storage }))
            &&& after.latch == app.latch.updated(value, app.latch_layer, target)
        }),
{
}

/// The LEDs show the value: above and below the middle where it is bipolar, on the
/// upper one alone else. With shift they show the attenuation in red.
pub proof fn law_value_is_shown(app: CvToCc, shift: bool, raw: u16, storage: Storage)
    ensures
        ({
            let actions = app.does(Event::Millisecond { shift, raw });
            let first = app.start_channel;
            let color = app.params.color;
            let value = app.value(raw);
            let (above, below) = unsigned_halves(value);
            &&& shift ==> actions[0] == led_set(
                first,
                Led::Top,
                Color::Red,
                Brightness::Custom(level_byte(app.storage.att_saved as int)),
            )
            &&& !shift && app.params.bipolar ==> actions[0] == led_set(
                first,
                Led::Top,
                color,
                Brightness::Custom(above as u8),
            ) && actions[1] == led_set(
                first,
                Led::Bottom,
                color,
                Brightness::Custom(below as u8),
            )
            &&& !shift && !app.params.bipolar ==> actions[0] == led_set(
                first,
                Led::Top,
                color,
                Brightness::Custom(level_byte(value)),
            )
        }),
        ({
            let lit = led_set(app.start_channel, Led::Button, app.params.color, Brightness::Mid);
            let dark = crate::app::led_unset(app.start_channel, Led::Button);
            &&& app.does(Event::Down)[1] == (if app.storage.muted {
                lit
            } else {
                dark
            })
            &&& app.does(Event::LoadScene(storage)) == seq![
                if storage.muted {
                    dark
                } else {
                    lit
                },
            ]
        }),
{
}

/// The app starts on what is stored, muted as it is stored. Its faders are where
/// they are found.
pub proof fn law_starts_on_storage(
    app: App<1>,
    params: Params,
    storage: Storage,
    fader: u16,
    takeover: TakeoverMode,
)
    ensures
        ({
            let s = CvToCc::started(app, params, storage, fader, takeover);
            &&& s.start_channel == app.start_channel && s.params == params && s.storage == storage
            &&& s.latch_layer == LatchLayer::Main
            &&& s.latch == AnalogLatch::initial(fader, 25, takeover)
            &&& s == s.after(Event::LoadScene(storage))
            &&& s.muted == storage.muted
            &&& s.old_midi == 0
        }),
{
}

/// The parameters of a fresh app, and what it has in its storage.
pub proof fn law_fresh_app(start_channel: usize, r: Storage)
    requires
        call_ensures(Storage::default, (), r),
    ensures
        ({
            let p = initial_params(start_channel);
            &&& !p.bipolar
            &&& p.midi_channel == MidiChannel(1)
            &&& p.midi_cc == MidiCc::for_channel(32, start_channel)
            &&& p.midi_out == (MidiOut { usb: true, out1: true, out2: true })
            &&& p.color == Color::Violet
            &&& !p.nrpn
        }),
        r == (Storage { muted: false, att_saved: 4095, offset_saved: 0 }),
{
}

} // verus!
