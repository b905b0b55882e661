//! CV/OCT to MIDI: notes from a pitch input and a gate input.
//!
//! A gate that rises waits for the delay before the pitch is read: its level is
//! handled first, and the note is played by an event of its own.
use vstd::prelude::*;
use vstd::array::spec_array_update;

use crate::app::{
    input_value, led_set, led_unset, Action, App, InJack, Leds, MidiOutput, PortMode, Quantizer,
};
use crate::apps::parts::{light_or_not, lit_or_not};
use crate::latch::{clamp_12bit, AnalogLatch, LatchLayer, TakeoverMode};
use crate::storage::{values_new, values_push, AppParams, AppStorage, ManagedStorage, ParamStore};
use crate::tasks::leds::Led;
use crate::types::{
    Brightness, Color, MidiChannel, MidiNote, MidiOut, ParamValue, Range, Value,
};
use crate::utils::{split_unsigned_value, unsigned_halves};

verus! {

pub const CHANNELS: usize = 2;

pub const PARAMS: usize = 5;

/// The input level that counts as a gate.
pub const GATE_LEVEL: u16 = 406;

/// The parameters of the app.
#[derive(Clone, Copy, Debug, PartialEq, Eq, Structural)]
pub struct Params {
    pub range: Range,
    pub midi_channel: MidiChannel,
    pub midi_out: MidiOut,
    pub delay: i32,
    pub color: Color,
}

impl AppParams for Params {
    open spec fn read(values: Seq<Value>) -> Option<Self> {
        if values.len() < 5 {
            None
        } else {
            Some(
                Params {
                    range: Range::reads(values[0]),
                    midi_channel: MidiChannel::reads(values[1]),
                    delay: i32::reads(values[2]),
                    color: Color::reads(values[3]),
                    midi_out: MidiOut::reads(values[4]),
                },
            )
        }
    }

    open spec fn listing(self) -> Seq<Value> {
        seq![
            self.range.stored(),
            self.midi_channel.stored(),
            self.delay.stored(),
            self.color.stored(),
            self.midi_out.stored(),
        ]
    }

    fn from_values(values: &[Value]) -> (r: Option<Self>) {
        if values.len() < PARAMS {
            return None;
        }
        Some(
            Params {
                range: Range::from_value(values[0]),
                midi_channel: MidiChannel::from_value(values[1]),
                delay: i32::from_value(values[2]),
                color: Color::from_value(values[3]),
                midi_out: MidiOut::from_value(values[4]),
            },
        )
    }

    fn to_values(&self) -> (r: heapless::Vec<Value, 16>) {
        let mut vec = values_new();
        let _ = values_push(&mut vec, self.range.into_value());
        let _ = values_push(&mut vec, self.midi_channel.into_value());
        let _ = values_push(&mut vec, self.delay.into_value());
        let _ = values_push(&mut vec, self.color.into_value());
        let _ = values_push(&mut vec, self.midi_out.into_value());
        vec
    }

    proof fn law_params_round_trip(self) {
    }
}

/// What the app keeps: the semitones and the octaves, the mute, and whether the
/// semitones are left out.
#[derive(Clone, Copy)]
pub struct Storage {
    pub fader_saved: [u16; 2],
    pub muted: bool,
    pub offset_toggle: bool,
}

impl Default for Storage {
    fn default() -> (r: Self)
        ensures
            r.fader_saved@ == seq![2047u16, 0],
            !r.muted,
            !r.offset_toggle,
    {
        Storage { fader_saved: [2047, 0], muted: false, offset_toggle: false }
    }
}

impl AppStorage for Storage {

}

/// The parameters that the app starts with.
pub open spec fn initial_params() -> Params {
    Params {
        range: Range::_0_10V,
        midi_channel: MidiChannel(1),
        midi_out: (MidiOut { usb: true, out1: true, out2: true }),
        delay: 0,
        color: Color::Orange,
    }
}

/// The parameters and the storage of the app, before anything was loaded.
pub fn wrapper(app: App<2>) -> (r: (ParamStore<Params>, ManagedStorage<Storage>))
    ensures
        r.0 == (ParamStore {
            app_id: app.app_id,
            inner: initial_params(),
            layout_id: app.layout_id,
        }),
        r.1.app_id == app.app_id,
        r.1.layout_id == app.layout_id,
        call_ensures(Storage::default, (), r.1.inner),
{
    (
        ParamStore::new(
            app.app_id,
            app.layout_id,
            Params {
                range: Range::_0_10V,
                midi_channel: MidiChannel::default(),
                midi_out: MidiOut::default(),
                delay: 0,
                color: Color::Orange,
            },
        ),
        ManagedStorage::new(app.app_id, app.layout_id),
    )
}

/// What an event brings.
pub enum Event {
    /// A millisecond has gone by: the second input reads a value.
    Gate(u16),
    /// The delay is over: the converter of the pitch input reads `raw`, and the
    /// pitch is quantized to a note.
    Play { raw: u16, note: MidiNote },
    /// A button was pressed.
    Down { chan: usize },
    /// A fader was moved to a value.
    Fader { chan: usize, value: u16 },
    /// A scene was loaded into the storage.
    LoadScene(Storage),
    /// A scene is to be saved.
    SaveScene(u8),
}

/// The running app. `pending` tells that a note waits for its delay.
pub struct CvToNote {
    pub start_channel: usize,
    pub params: Params,
    pub storage: Storage,
    pub muted: bool,
    pub latch: [AnalogLatch; 2],
    pub old_gatein: u16,
    pub midi_note: MidiNote,
    pub note_on: bool,
    pub note: u16,
    pub pending: bool,
}

impl CvToNote {
    pub open spec fn wf(self) -> bool {
        self.start_channel + 2 <= 16 && self.note <= 4095
    }

    pub open spec fn second(self) -> usize {
        (self.start_channel + 1) as usize
    }

    /// The MIDI port.
    pub open spec fn midi(self) -> MidiOutput {
        MidiOutput::port(self.start_channel, self.params.midi_out, self.params.midi_channel, false)
    }

    fn midi_port(&self) -> (r: MidiOutput)
        ensures
            r == self.midi(),
    {
        MidiOutput::new(
            self.params.midi_out,
            self.start_channel,
            self.params.midi_channel.to_wire(),
            false,
        )
    }

    /// The first button, dark where the semitones are left out.
    pub open spec fn offset_led(self, toggle: bool) -> Action {
        lit_or_not(self.start_channel, Led::Button, !toggle, self.params.color, Brightness::Mid)
    }

    fn show_offset(&self) -> (r: Action)
        requires
            self.wf(),
        ensures
            r == self.offset_led(self.storage.offset_toggle),
    {
        light_or_not(
            self.start_channel,
            Led::Button,
            !self.storage.offset_toggle,
            self.params.color,
            Brightness::Mid,
        )
    }

    /// The second button, dark where the app is muted.
    pub open spec fn mute_led(self, muted: bool) -> Action {
        lit_or_not(self.second(), Led::Button, !muted, self.params.color, Brightness::High)
    }

    fn show_mute(&self, muted: bool) -> (r: Action)
        requires
            self.wf(),
        ensures
            r == self.mute_led(muted),
    {
        light_or_not(
            self.start_channel + 1,
            Led::Button,
            !muted,
            self.params.color,
            Brightness::High,
        )
    }

    /// The state that the app starts with.
    pub open spec fn started(
        app: App<2>,
        params: Params,
        storage: Storage,
        faders: [u16; 2],
        takeover: TakeoverMode,
    ) -> CvToNote {
        CvToNote {
            start_channel: app.start_channel,
            params,
            storage,
            muted: storage.muted,
            latch: [
                AnalogLatch::initial(faders[0], 25, takeover),
                AnalogLatch::initial(faders[1], 25, takeover),
            ],
            old_gatein: 0,
            midi_note: MidiNote(0),
            note_on: false,
            note: 0,
            pending: false,
        }
    }

    /// What the start sets off.
    pub open spec fn start_actions(self) -> Seq<Action> {
        (if self.storage.muted {
            seq![led_unset(self.second(), Led::Button)]
        } else {
            seq![
                led_set(self.second(), Led::Button, self.params.color, Brightness::Mid),
                led_set(self.start_channel, Led::Button, self.params.color, Brightness::Mid),
            ]
        }) + seq![
            Action::Configure {
                channel: self.start_channel,
                mode: PortMode::Input { bipolar: self.params.range.bipolar() },
                gpo_level: None,
            },
            Action::Configure {
                channel: self.second(),
                mode: PortMode::Input { bipolar: false },
                gpo_level: None,
            },
            self.offset_led(self.storage.offset_toggle),
        ]
    }

    /// Starts the app on what is stored.
    pub fn new(
        app: App<2>,
        params: Params,
        storage: Storage,
        faders: [u16; 2],
        takeover: TakeoverMode,
    ) -> (r: (Self, Vec<Action>))
        requires
            app.wf(),
        ensures
            r.0 == CvToNote::started(app, params, storage, faders, takeover),
            r.0.wf(),
            r.1@ == r.0.start_actions(),
    {
        let state = CvToNote {
            start_channel: app.start_channel,
            params,
            storage,
            muted: storage.muted,
            latch: [app.make_latch(faders[0], takeover), app.make_latch(faders[1], takeover)],
            old_gatein: 0,
            midi_note: MidiNote(0),
            note_on: false,
            note: 0,
            pending: false,
        };
        let leds = app.use_leds();
        let mut actions: Vec<Action> = Vec::new();
        if storage.muted {
            actions.push(leds.unset(1, Led::Button));
        } else {
            actions.push(leds.set(1, Led::Button, params.color, Brightness::Mid));
            actions.push(leds.set(0, Led::Button, params.color, Brightness::Mid));
        }
        actions.push(app.make_in_jack(0, params.range).1);
        actions.push(app.make_in_jack(1, Range::_0_10V).1);
        actions.push(state.show_offset());
        (state, actions)
    }

    /// The pitch of an input: moved by up to five octaves either way, and by up to
    /// an octave of semitones.
    pub open spec fn pitch(self, raw: u16) -> int {
        let octave = (self.storage.fader_saved[1] * 10 / 4095 - 5) * 410;
        let semitones = if self.storage.offset_toggle {
            0
        } else {
            (self.storage.fader_saved[0] * 12 / 4095) * 410 / 12
        };
        clamp_12bit(input_value(self.params.range, raw) + octave + semitones)
    }

    fn find_pitch(&self, raw: u16) -> (r: u16)
        ensures
            r == self.pitch(raw),
            r <= 4095,
    {
        let input: i32 = InJack::new(self.start_channel, self.params.range).get_value(raw) as i32;
        let octave: i32 = ((self.storage.fader_saved[1] as u32 * 10 / 4095) as i32 - 5) * 410;
        let semitones: i32 = if !self.storage.offset_toggle {
            ((self.storage.fader_saved[0] as u32 * 12 / 4095) * 410 / 12) as i32
        } else {
            0
        };
        let note: i32 = input + octave + semitones;
        if note < 0 {
            0
        } else if note > 4095 {
            4095
        } else {
            note as u16
        }
    }

    /// What the quantizer is asked for, where the pitch input reads `raw`.
    pub fn request(&self, raw: u16) -> (r: u16)
        ensures
            r == self.pitch(raw),
    {
        let (pitch, _) = Quantizer::new(self.params.range).get_quantized_note(self.find_pitch(raw));
        pitch
    }

    /// Whether a gate rises.
    pub open spec fn rises(self, gatein: u16) -> bool {
        gatein >= 406 && self.old_gatein < 406
    }

    /// Whether a gate falls.
    pub open spec fn falls(self, gatein: u16) -> bool {
        gatein <= 406 && self.old_gatein > 406
    }

    /// The LED levels of a pitch, of which the low bytes stay.
    pub open spec fn pitch_levels(note: u16) -> (u8, u8) {
        let halves = unsigned_halves(note * 4095 / 120 % 65536);
        ((halves.0 * 2 % 256) as u8, (halves.1 * 2 % 256) as u8)
    }

    /// The LEDs of a rising gate.
    pub open spec fn gate_leds(self, note: u16) -> Seq<Action> {
        let levels = Self::pitch_levels(note);
        let color = self.params.color;
        seq![
            led_set(self.start_channel, Led::Top, color, Brightness::Custom(levels.0)),
            led_set(self.start_channel, Led::Bottom, color, Brightness::Custom(levels.1)),
            led_set(self.second(), Led::Top, color, Brightness::Mid),
        ]
    }

    fn push_gate_leds(&self, actions: &mut Vec<Action>)
        requires
            self.wf(),
        ensures
            final(actions)@ == old(actions)@ + self.gate_leds(self.note),
    {
        let leds = Leds::<2>::new(self.start_channel);
        let color = self.params.color;
        let value: u16 = (self.note as u32 * 4095 / 120 % 65536) as u16;
        let halves = split_unsigned_value(value);
        let top: u8 = (halves[0] as u16 * 2 % 256) as u8;
        let bottom: u8 = (halves[1] as u16 * 2 % 256) as u8;
        actions.push(leds.set(0, Led::Top, color, Brightness::Custom(top)));
        actions.push(leds.set(0, Led::Bottom, color, Brightness::Custom(bottom)));
        actions.push(leds.set(1, Led::Top, color, Brightness::Mid));
    }

    /// The state after the second input was read. While a note waits for its delay
    /// the input is not looked at.
    pub open spec fn gate_read(self, gatein: u16) -> CvToNote {
        if self.pending {
            self
        } else {
            CvToNote {
                pending: self.rises(gatein) && !self.muted,
                note_on: self.note_on && !self.falls(gatein),
                old_gatein: gatein,
                ..self
            }
        }
    }

    /// What a gate sets off: a muted app only shows it; its fall ends the note.
    pub open spec fn gate_actions(self, gatein: u16) -> Seq<Action> {
        if self.pending {
            Seq::empty()
        } else if self.rises(gatein) {
            if self.muted {
                self.gate_leds(self.note)
            } else {
                Seq::empty()
            }
        } else if self.falls(gatein) {
            (if self.note_on {
                seq![self.midi().note_off(self.midi_note), self.mute_led(self.muted)]
            } else {
                Seq::empty()
            }) + seq![led_unset(self.second(), Led::Top)]
        } else {
            Seq::empty()
        }
    }

    /// A millisecond has gone by: the second input is read, unless a note waits for
    /// its delay.
    pub fn gate(&mut self, gatein: u16) -> (r: Vec<Action>)
        requires
            old(self).wf(),
        ensures
            *final(self) == old(self).gate_read(gatein),
            final(self).wf(),
            r@ == old(self).gate_actions(gatein),
    {
        let mut actions: Vec<Action> = Vec::new();
        if self.pending {
            return actions;
        }
        if gatein >= GATE_LEVEL && self.old_gatein < GATE_LEVEL {
            if !self.muted {
                self.pending = true;
            } else {
                self.push_gate_leds(&mut actions);
            }
        }
        if gatein <= GATE_LEVEL && self.old_gatein > GATE_LEVEL {
            if self.note_on {
                actions.push(self.midi_port().send_note_off(self.midi_note));
                self.note_on = false;
                actions.push(self.show_mute(self.muted));
            }
            actions.push(Leds::<2>::new(self.start_channel).unset(1, Led::Top));
        }
        self.old_gatein = gatein;
        actions
    }

    /// Whether a note waits for its delay, and how long in milliseconds that is.
    pub fn waiting(&self) -> (r: Option<i32>)
        ensures
            r == (if self.pending {
                Some(self.params.delay)
            } else {
                None
            }),
    {
        if self.pending {
            Some(self.params.delay)
        } else {
            None
        }
    }

    /// The state after the note was played.
    pub open spec fn played(self, raw: u16, note: MidiNote) -> CvToNote {
        if self.pending {
            CvToNote {
                pending: false,
                note: self.pitch(raw) as u16,
                midi_note: note,
                note_on: true,
                ..self
            }
        } else {
            self
        }
    }

    /// What the note sets off.
    pub open spec fn play_actions(self, raw: u16, note: MidiNote) -> Seq<Action> {
        if self.pending {
            seq![
                self.midi().note_on(note, 4095),
                led_set(self.second(), Led::Button, self.params.color, Brightness::High),
            ] + self.gate_leds(self.pitch(raw) as u16)
        } else {
            Seq::empty()
        }
    }

    /// The delay of a note is over: it is played.
    pub fn play(&mut self, raw: u16, note: MidiNote) -> (r: Vec<Action>)
        requires
            old(self).wf(),
        ensures
            *final(self) == old(self).played(raw, note),
            final(self).wf(),
            r@ == old(self).play_actions(raw, note),
    {
        let mut actions: Vec<Action> = Vec::new();
        if self.pending {
            self.pending = false;
            self.note = self.find_pitch(raw);
            self.midi_note = note;
            actions.push(self.midi_port().send_note_on(note, 4095));
            self.note_on = true;
            let leds = Leds::<2>::new(self.start_channel);
            actions.push(leds.set(1, Led::Button, self.params.color, Brightness::High));
            self.push_gate_leds(&mut actions);
        }
        actions
    }

    /// The state after a button was pressed: the first one leaves the semitones
    /// out, or not; the second one toggles the mute.
    pub open spec fn pressed(self, chan: int) -> CvToNote {
        if chan == 0 {
            CvToNote {
                storage: Storage { offset_toggle: !self.storage.offset_toggle, ..self.storage },
                ..self
            }
        } else if chan == 1 {
            let muted = !self.storage.muted;
            CvToNote { muted, storage: Storage { muted, ..self.storage }, ..self }
        } else {
            self
        }
    }

    /// What a pressed button sets off.
    pub open spec fn press_actions(self, chan: int) -> Seq<Action> {
        if chan == 0 {
            seq![Action::Save, self.offset_led(!self.storage.offset_toggle)]
        } else if chan == 1 {
            seq![Action::Save, self.mute_led(!self.storage.muted)]
        } else {
            Seq::empty()
        }
    }

    /// A button was pressed.
    pub fn fut2(&mut self, chan: usize) -> (r: Vec<Action>)
        requires
            old(self).wf(),
        ensures
            *final(self) == old(self).pressed(chan as int),
            final(self).wf(),
            r@ == old(self).press_actions(chan as int),
    {
        let mut actions: Vec<Action> = Vec::new();
        if chan == 0 {
            self.storage.offset_toggle = !self.storage.offset_toggle;
            actions.push(Action::Save);
            actions.push(self.show_offset());
        }
        if chan == 1 {
            self.storage.muted = !self.storage.muted;
            self.muted = self.storage.muted;
            actions.push(Action::Save);
            actions.push(self.show_mute(self.muted));
        }
        actions
    }

    /// The state after a fader was moved.
    pub open spec fn fader_moved(self, chan: int, value: u16) -> CvToNote {
        let latch = self.latch[chan];
        let target = self.storage.fader_saved[chan];
        CvToNote {
            latch: spec_array_update(
                self.latch,
                chan,
                latch.updated(value, LatchLayer::Main, target),
            ),
            storage: match latch.emits(value, LatchLayer::Main, target) {
                Some(new_value) => Storage {
                    fader_saved: spec_array_update(self.storage.fader_saved, chan, new_value),
                    ..self.storage
                },
                None => self.storage,
            },
            ..self
        }
    }

    /// A fader that changes a value asks for it to be saved.
    pub open spec fn fader_actions(self, chan: int, value: u16) -> Seq<Action> {
        if self.latch[chan].emits(
            value,
            LatchLayer::Main,
            self.storage.fader_saved[chan],
        ) is Some {
            seq![Action::Save]
        } else {
            Seq::empty()
        }
    }

    /// A fader was moved.
    pub fn fut3(&mut self, chan: usize, value: u16) -> (r: Vec<Action>)
        requires
            old(self).wf(),
            chan < 2,
        ensures
            *final(self) == old(self).fader_moved(chan as int, value),
            final(self).wf(),
            r@ == old(self).fader_actions(chan as int, value),
    {
        let mut actions: Vec<Action> = Vec::new();
        let target: u16 = self.storage.fader_saved[chan];
        let mut latch = self.latch[chan];
        let emitted = latch.update(value, LatchLayer::Main, target);
        self.latch[chan] = latch;
        if let Some(new_value) = emitted {
            self.storage.fader_saved[chan] = new_value;
            actions.push(Action::Save);
        }
        actions
    }

    /// A scene was loaded into the storage.
    pub fn load_scene(&mut self, storage: Storage) -> (r: Vec<Action>)
        requires
            old(self).wf(),
        ensures
            *final(self) == (CvToNote { storage, muted: storage.muted, ..*old(self) }),
            final(self).wf(),
            r@ == seq![
                old(self).offset_led(storage.offset_toggle),
                old(self).mute_led(storage.muted),
            ],
    {
        self.storage = storage;
        self.muted = storage.muted;
        vec![self.show_offset(), self.show_mute(storage.muted)]
    }

    /// Whether an event brings what the hardware can bring.
    pub open spec fn admits(event: Event) -> bool {
        event matches Event::Fader { chan, .. } ==> chan < 2
    }

    /// The state after an event.
    pub open spec fn after(self, event: Event) -> CvToNote {
        match event {
            Event::Gate(gatein) => self.gate_read(gatein),
            Event::Play { raw, note } => self.played(raw, note),
            Event::Down { chan } => self.pressed(chan as int),
            Event::Fader { chan, value } => self.fader_moved(chan as int, value),
            Event::LoadScene(storage) => CvToNote { storage, muted: storage.muted, ..self },
            Event::SaveScene(_) => self,
        }
    }

    /// What an event sets off.
    pub open spec fn does(self, event: Event) -> Seq<Action> {
        match event {
            Event::Gate(gatein) => self.gate_actions(gatein),
            Event::Play { raw, note } => self.play_actions(raw, note),
            Event::Down { chan } => self.press_actions(chan as int),
            Event::Fader { chan, value } => self.fader_actions(chan as int, value),
            Event::LoadScene(storage) => seq![
                self.offset_led(storage.offset_toggle),
                self.mute_led(storage.muted),
            ],
            Event::SaveScene(scene) => seq![Action::SaveScene(scene)],
        }
    }

    /// Handles an event.
    pub fn run(&mut self, event: Event) -> (r: Vec<Action>)
        requires
            old(self).wf(),
            CvToNote::admits(event),
        ensures
            *final(self) == old(self).after(event),
            final(self).wf(),
            r@ == old(self).does(event),
    {
        match event {
            Event::Gate(gatein) => self.gate(gatein),
            Event::Play { raw, note } => self.play(raw, note),
            Event::Down { chan } => self.fut2(chan),
            Event::Fader { chan, value } => self.fut3(chan, value),
            Event::LoadScene(storage) => self.load_scene(storage),
            Event::SaveScene(scene) => vec![Action::SaveScene(scene)],
        }
    }
}

/// Every note that was played ends when its gate falls.
pub proof fn law_note_ends_with_gate(app: CvToNote, raw: u16, note: MidiNote, gatein: u16)
    requires
        app.pending,
        app.old_gatein > 406,
        gatein <= 406,
    ensures
        app.played(raw, note).gate_actions(gatein)[0] == app.midi().note_off(note),
        !app.played(raw, note).gate_read(gatein).note_on,
{
}

/// A gate that comes while a note waits for its delay is not seen: the note is played
/// as it would have been without it.
pub proof fn law_delay_hides_gates(app: CvToNote, gatein: u16, raw: u16, note: MidiNote)
    requires
        app.pending,
    ensures
        app.gate_read(gatein).played(raw, note) == app.played(raw, note),
        app.gate_actions(gatein) == Seq::<Action>::empty(),
{
}

/// A muted app plays nothing.
pub proof fn law_muted_plays_nothing(app: CvToNote, gatein: u16)
    requires
        app.muted,
        !app.pending,
    ensures
        !app.gate_read(gatein).pending,
{
}

/// The pitch that is asked for is the input, moved by whole octaves of 410 counts,
/// five down at the bottom of the second fader to five up at its top, and, unless
/// they are left out, by up to twelve semitones of the first one; within 12 bits.
pub proof fn law_pitch_is_moved(app: CvToNote, raw: u16)
    requires
        app.params.range != Range::_0_5V,
        app.storage.fader_saved[0] <= 4095,
        app.storage.fader_saved[1] <= 4095,
        raw <= 4095,
    ensures
        ({
            let octaves = app.storage.fader_saved[1] as int * 10 / 4095 - 5;
            let semitones = if app.storage.offset_toggle {
                0
            } else {
                app.storage.fader_saved[0] as int * 12 / 4095
            };
            let pitch = app.pitch(raw);
            let up = pitch - raw - 410 * octaves;
            let whole = raw + 410 * octaves;
            &&& 0 <= pitch <= 4095
            &&& -5 <= octaves <= 5 && 0 <= semitones <= 12
            &&& 0 < pitch < 4095 ==> 12 * up <= 410 * semitones < 12 * up + 12
            &&& pitch == 0 ==> whole <= 0
            &&& pitch == 4095 ==> 12 * whole + 410 * semitones >= 12 * 4095
        }),
{
}

/// A gate at the second input makes a note wait for its delay, unless the app is
/// muted; when the delay is over, the note that the pitch is quantized to is
/// played. The fall of its gate ends the note that was played.
pub proof fn law_gates_play_notes(app: CvToNote, gatein: u16, raw: u16, note: MidiNote)
    requires
        app.wf(),
    ensures
        ({
            let read = app.after(Event::Gate(gatein));
            let play = app.after(Event::Play { raw, note });
            let actions = app.does(Event::Play { raw, note });
            let rises = app.old_gatein < 406 && gatein >= 406;
            let falls = app.old_gatein > 406 && gatein <= 406;
            &&& !app.pending ==> read.old_gatein == gatein && read.pending == (rises && !app.muted)
            &&& !app.pending && falls ==> !read.note_on
            &&& !app.pending && falls && app.note_on ==> app.does(Event::Gate(gatein))[0]
                == app.midi().note_off(app.midi_note)
            &&& !app.pending && !falls ==> read.note_on == app.note_on && forall|i: int|
                0 <= i < app.does(Event::Gate(gatein)).len() ==> !(#[trigger] app.does(
                    Event::Gate(gatein),
                )[i] is Midi)
            &&& app.pending ==> !play.pending && play.note_on && play.midi_note == note && play.note
                == app.pitch(raw) && actions[0] == app.midi().note_on(note, 4095)
            &&& !app.pending ==> play == app && actions.len() == 0
        }),
{
}

/// The first button leaves the semitones out, or no longer, and the second one
/// toggles the mute; both are stored. A scene brings both.
pub proof fn law_buttons_toggle(app: CvToNote, storage: Storage)
    ensures
        app.after(Event::Down { chan: 0 }).storage == (Storage {
            offset_toggle: !app.storage.offset_toggle,
            ..app.storage
        }),
        app.after(Event::Down { chan: 0 }).muted == app.muted,
        app.after(Event::Down { chan: 1 }).storage == (Storage {
            muted: !app.storage.muted,
            ..app.storage
        }),
        app.after(Event::Down { chan: 1 }).muted == !app.storage.muted,
        app.does(Event::Down { chan: 0 })[0] == Action::Save,
        app.does(Event::Down { chan: 1 })[0] == Action::Save,
        app.after(Event::LoadScene(storage)).storage == storage,
        app.after(Event::LoadScene(storage)).muted == storage.muted,
{
}

/// A fader that has a value to give stores it in its place and asks for it to be
/// saved.
pub proof fn law_faders_store_their_values(app: CvToNote, chan: usize, value: u16)
    requires
        chan < 2,
    ensures
        ({
            let at = chan as int;
            let target = app.storage.fader_saved[at];
            let event = Event::Fader { chan, value };
            let after = app.after(event);
            let emitted = app.latch[at].emits(value, LatchLayer::Main, target);
            &&& emitted is None ==> after.storage == app.storage && app.does(event).len() == 0
            &&& emitted matches Some(v) ==> after.storage.fader_saved[at] == v && app.does(event)
                == seq![Action::Save]
            &&& after.storage.fader_saved[1 - at] == app.storage.fader_saved[1 - at]
            &&& after.storage.muted == app.storage.muted && after.storage.offset_toggle
                == app.storage.offset_toggle
            &&& after.latch[at] == app.latch[at].updated(value, LatchLayer::Main, target)
        }),
{
}

/// A pitch is shown above and below the middle of ten octaves, twice as bright as a
/// value is, and the second channel is lit.
pub proof fn law_pitch_is_shown(app: CvToNote, note: u16, pitch: int)
    requires
        120 * pitch <= note * 4095 < 120 * pitch + 120,
        pitch < 65536,
    ensures
        ({
            let (above, below) = unsigned_halves(pitch);
            let first = app.start_channel;
            let second = (app.start_channel + 1) as usize;
            let color = app.params.color;
            let shown = app.gate_leds(note);
            &&& shown.len() == 3
            &&& shown[0] == led_set(
                first,
                Led::Top,
                color,
                Brightness::Custom((above * 2 % 256) as u8),
            )
            &&& shown[1] == led_set(
                first,
                Led::Bottom,
                color,
                Brightness::Custom((below * 2 % 256) as u8),
            )
            &&& shown[2] == led_set(second, Led::Top, color, Brightness::Mid)
        }),
{
    assert(note * 4095 / 120 == pitch);
}

/// A note that plays shows its pitch, and so does a gate that would play one if the
/// app was not muted; a fall puts the second channel's upper LED out.
pub proof fn law_gates_are_shown(app: CvToNote, gatein: u16, raw: u16, note: MidiNote)
    requires
        app.wf(),
    ensures
        ({
            let second = (app.start_channel + 1) as usize;
            let lit = led_set(second, Led::Button, app.params.color, Brightness::High);
            let played = app.does(Event::Play { raw, note });
            let read = app.does(Event::Gate(gatein));
            let falls = !app.pending && !app.rises(gatein) && app.falls(gatein);
            &&& app.pending ==> played[1] == lit && played.skip(2) == app.gate_leds(
                app.after(Event::Play { raw, note }).note,
            )
            &&& !app.pending && app.rises(gatein) && app.muted ==> read == app.gate_leds(app.note)
            &&& falls ==> read.last() == led_unset(second, Led::Top)
            &&& falls && app.note_on ==> read[1] == (if app.muted {
                led_unset(second, Led::Button)
            } else {
                lit
            })
        }),
{
}

/// The first button is dark where the semitones are left out, the second one where
/// the app is muted.
pub proof fn law_buttons_are_shown(app: CvToNote, storage: Storage)
    ensures
        ({
            let first = app.start_channel;
            let second = (app.start_channel + 1) as usize;
            app.does(Event::LoadScene(storage)) == seq![
                if storage.offset_toggle {
                    led_unset(first, Led::Button)
                } else {
                    led_set(first, Led::Button, app.params.color, Brightness::Mid)
                },
                if storage.muted {
                    led_unset(second, Led::Button)
                } else {
                    led_set(second, Led::Button, app.params.color, Brightness::High)
                },
            ]
        }),
{
}

/// The app starts on what is stored, muted as it is stored, with no note on or
/// waiting. Its faders are where they are found.
pub proof fn law_starts_on_storage(
    app: App<2>,
    params: Params,
    storage: Storage,
    faders: [u16; 2],
    takeover: TakeoverMode,
)
    ensures
        ({
            let s = CvToNote::started(app, params, storage, faders, takeover);
            &&& s.start_channel == app.start_channel && s.params == params && s.storage == storage
            &&& s.latch[0] == AnalogLatch::initial(faders[0], 25, takeover)
            &&& s.latch[1] == AnalogLatch::initial(faders[1], 25, takeover)
            &&& s.muted == storage.muted
            &&& !s.note_on && !s.pending
            &&& s.old_gatein == 0 && s.note == 0
            &&& s.midi_note == MidiNote(0)
        }),
{
}

/// The start takes both inputs and shows the mute and the semitones on the buttons.
pub proof fn law_start_is_shown(app: CvToNote)
    ensures
        ({
            let start = app.start_actions();
            let first = app.start_channel;
            let second = (app.start_channel + 1) as usize;
            let color = app.params.color;
            let at: int = if app.storage.muted {
                1
            } else {
                2
            };
            &&& app.storage.muted ==> start[0] == led_unset(second, Led::Button)
            &&& !app.storage.muted ==> start[0] == led_set(
                second,
                Led::Button,
                color,
                Brightness::Mid,
            ) && start[1] == led_set(first, Led::Button, color, Brightness::Mid)
            &&& start[at] == (Action::Configure {
                channel: first,
                mode: PortMode::Input { bipolar: app.params.range.bipolar() },
                gpo_level: None,
            })
            &&& start[at + 1] == (Action::Configure {
                channel: second,
                mode: PortMode::Input { bipolar: false },
                gpo_level: None,
            })
            &&& start.len() == at + 3
            &&& start[at + 2] == (if app.storage.offset_toggle {
                led_unset(first, Led::Button)
            } else {
                led_set(first, Led::Button, color, Brightness::Mid)
            })
        }),
{
}

/// The parameters of a fresh app, and what it has in its storage.
pub proof fn law_fresh_app(r: Storage)
    requires
        call_ensures(Storage::default, (), r),
    ensures
        ({
            let p = initial_params();
            &&& p.range == Range::_0_10V
            &&& p.midi_channel == MidiChannel(1)
            &&& p.midi_out == (MidiOut { usb: true, out1: true, out2: true })
            &&& p.delay == 0
            &&& p.color == Color::Orange
        }),
        r.fader_saved@ == seq![2047u16, 0],
        !r.muted,
        !r.offset_toggle,
{
}

} // verus!
