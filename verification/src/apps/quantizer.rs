//! Quantizer: a voltage passing through, brought onto the scale.
use vstd::prelude::*;
use vstd::array::spec_array_update;

use crate::app::{led_set, Action, App, Leds, OutJack, PortMode};
use crate::apps::parts::{light_or_not, lit_or_not};
use crate::latch::{clamp_12bit, quotient_to_zero, AnalogLatch, LatchLayer, TakeoverMode};
use crate::storage::{values_new, values_push, AppParams, AppStorage, ManagedStorage, ParamStore};
use crate::tasks::leds::Led;
use crate::types::{Brightness, Color, ParamValue, Range, Value};
use crate::utils::{split_unsigned_value, unsigned_halves, wrap_i16};

verus! {

pub const CHANNELS: usize = 2;

pub const PARAMS: usize = 1;

/// The parameters of the app.
#[derive(Clone, Copy, Debug, PartialEq, Eq, Structural)]
pub struct Params {
    pub color: Color,
}

impl AppParams for Params {
    open spec fn read(values: Seq<Value>) -> Option<Self> {
        if values.len() < 1 {
            None
        } else {
            Some(
                Params {
                    color: Color::reads(values[0]),
                },
            )
        }
    }

    open spec fn listing(self) -> Seq<Value> {
        seq![
            self.color.stored(),
        ]
    }

    fn from_values(values: &[Value]) -> (r: Option<Self>) {
        if values.len() < PARAMS {
            return None;
        }
        Some(
            Params {
                color: Color::from_value(values[0]),
            },
        )
    }

    fn to_values(&self) -> (r: heapless::Vec<Value, 16>) {
        let mut vec = values_new();
        let _ = values_push(&mut vec, self.color.into_value());
        vec
    }

    proof fn law_params_round_trip(self) {
    }
}

/// What the app keeps: the octaves, the semitones, and whether each is left out,
/// the semitones first.
#[derive(Clone, Copy)]
pub struct Storage {
    pub oct: u16,
    pub st: u16,
    pub offset_toggles: [bool; 2],
}

impl Default for Storage {
    fn default() -> (r: Self)
        ensures
            r.oct == 2047,
            r.st == 0,
            r.offset_toggles@ == seq![false, false],
            r.wf(),
    {
        Storage { oct: 2047, st: 0, offset_toggles: [false, false] }
    }
}

impl AppStorage for Storage {

}

impl Storage {
    /// Whether the positions can be scaled in 16 bits.
    pub open spec fn wf(self) -> bool {
        self.oct <= 6553 && self.st <= 5461
    }
}

/// The parameters that the app starts with.
pub open spec fn initial_params() -> Params {
    Params {
        color: Color::Blue,
    }
}

/// The parameters and the storage of the app, before anything was loaded.
pub fn wrapper(app: App<2>) -> (r: (ParamStore<Params>, ManagedStorage<Storage>))
    ensures
        r.0 == (ParamStore {
            app_id: app.app_id,
            inner: initial_params(),
            layout_id: app.layout_id,
        }),
        r.1.app_id == app.app_id,
        r.1.layout_id == app.layout_id,
        call_ensures(Storage::default, (), r.1.inner),
{
    (
        ParamStore::new(
            app.app_id,
            app.layout_id,
            Params {
                color: Color::Blue,
            },
        ),
        ManagedStorage::new(app.app_id, app.layout_id),
    )
}

/// What an event brings.
pub enum Event {
    /// A millisecond has gone by, with the counts that the value is quantized to.
    Millisecond { counts: u16 },
    /// A button was pressed.
    Down { chan: usize, shift: bool },
    /// A fader was moved to a value.
    Fader { chan: usize, value: u16 },
    /// A scene was loaded into the storage.
    LoadScene(Storage),
    /// A scene is to be saved.
    SaveScene(u8),
}

/// The running app.
pub struct QuantizerApp {
    pub start_channel: usize,
    pub params: Params,
    pub storage: Storage,
    pub latch: [AnalogLatch; 2],
}

impl QuantizerApp {
    pub open spec fn wf(self) -> bool {
        self.start_channel + 2 <= 16 && self.storage.wf()
    }

    pub open spec fn second(self) -> usize {
        (self.start_channel + 1) as usize
    }

    /// A button, dark where its offset is left out.
    pub open spec fn toggle_led(self, chan: int, toggle: bool) -> Action {
        lit_or_not(
            (self.start_channel + chan) as usize,
            Led::Button,
            !toggle,
            self.params.color,
            Brightness::Mid,
        )
    }

    fn show_toggle(&self, chan: usize) -> (r: Action)
        requires
            self.wf(),
            chan < 2,
        ensures
            r == self.toggle_led(chan as int, self.storage.offset_toggles[chan as int]),
    {
        light_or_not(
            self.start_channel + chan,
            Led::Button,
            !self.storage.offset_toggles[chan],
            self.params.color,
            Brightness::Mid,
        )
    }

    /// The state that the app starts with.
    pub open spec fn started(
        app: App<2>,
        params: Params,
        storage: Storage,
        faders: [u16; 2],
        takeover: TakeoverMode,
    ) -> QuantizerApp {
        QuantizerApp {
            start_channel: app.start_channel,
            params,
            storage,
            latch: [
                AnalogLatch::initial(faders[0], 25, takeover),
                AnalogLatch::initial(faders[1], 25, takeover),
            ],
        }
    }

    /// Starts the app on what is stored.
    pub fn new(
        app: App<2>,
        params: Params,
        storage: Storage,
        faders: [u16; 2],
        takeover: TakeoverMode,
    ) -> (r: (Self, Vec<Action>))
        requires
            app.wf(),
            storage.wf(),
        ensures
            r.0 == QuantizerApp::started(app, params, storage, faders, takeover),
            r.0.wf(),
            r.1@ == seq![
                led_set(app.start_channel, Led::Button, params.color, Brightness::Mid),
                led_set(
                    (app.start_channel + 1) as usize,
                    Led::Button,
                    params.color,
                    Brightness::Mid,
                ),
                Action::Configure {
                    channel: app.start_channel,
                    mode: PortMode::Input { bipolar: true },
                    gpo_level: None,
                },
                Action::Configure {
                    channel: (app.start_channel + 1) as usize,
                    mode: PortMode::Output { bipolar: true },
                    gpo_level: None,
                },
                r.0.toggle_led(0, storage.offset_toggles[0]),
                r.0.toggle_led(1, storage.offset_toggles[1]),
            ],
    {
        let state = QuantizerApp {
            start_channel: app.start_channel,
            params,
            storage,
            latch: [app.make_latch(faders[0], takeover), app.make_latch(faders[1], takeover)],
        };
        let leds = app.use_leds();
        let actions = vec![
            leds.set(0, Led::Button, params.color, Brightness::Mid),
            leds.set(1, Led::Button, params.color, Brightness::Mid),
            app.make_in_jack(0, Range::_Neg5_5V).1,
            app.make_out_jack(1, Range::_Neg5_5V).1,
            state.show_toggle(0),
            state.show_toggle(1),
        ];
        (state, actions)
    }

    /// The octaves in counts, up to five either way over the travel of the fader.
    pub open spec fn octaves(self) -> int {
        if self.storage.offset_toggles[1] {
            0
        } else {
            (self.storage.oct * 10 / 4095 - 5) * 410
        }
    }

    /// The semitones in counts, up to an octave over the travel of the fader.
    pub open spec fn semitones(self) -> int {
        if self.storage.offset_toggles[0] {
            0
        } else {
            self.storage.st * 12 / 4095 * 410 / 12
        }
    }

    fn find_octaves(&self) -> (r: i32)
        requires
            self.wf(),
        ensures
            r == self.octaves(),
            -2050 <= r <= 4510,
    {
        if self.storage.offset_toggles[1] {
            0
        } else {
            ((self.storage.oct * 10 / 4095) as i32 - 5) * 410
        }
    }

    fn find_semitones(&self) -> (r: i32)
        requires
            self.wf(),
        ensures
            r == self.semitones(),
            0 <= r <= 546,
    {
        if self.storage.offset_toggles[0] {
            0
        } else {
            ((self.storage.st * 12 / 4095) as u32 * 410 / 12) as i32
        }
    }

    /// What the quantizer is asked for: the input, moved by the octaves and the
    /// semitones.
    pub open spec fn requested(self, raw: int) -> int {
        clamp_12bit(raw + self.octaves() + self.semitones())
    }

    /// What the quantizer is asked for: the input, moved by the octaves and the
    /// semitones.
    pub fn request(&self, raw: u16) -> (r: u16)
        requires
            self.wf(),
            raw <= 4095,
        ensures
            r == clamp_12bit(raw + self.octaves() + self.semitones()),
            r == self.requested(raw as int),
            r <= 4095,
    {
        let moved: i32 = raw as i32 + self.find_octaves() + self.find_semitones();
        if moved < 0 {
            0
        } else if moved > 4095 {
            4095
        } else {
            moved as u16
        }
    }

    /// The LED level of the semitones. Its product is kept in 16 bits with a sign.
    pub open spec fn semitone_level(self) -> u8 {
        (quotient_to_zero(wrap_i16(self.semitones() * 255), 410) % 256) as u8
    }

    fn find_semitone_level(&self) -> (r: u8)
        requires
            self.wf(),
        ensures
            r == self.semitone_level(),
    {
        let product: i32 = self.find_semitones() * 255;
        let wrapped: i32 = (product + 32768) % 65536 - 32768;
        let quotient: i32 = if wrapped >= 0 {
            wrapped / 410
        } else {
            -((-wrapped) / 410)
        };
        ((quotient + 256) % 256) as u8
    }

    /// What a millisecond sets off: the quantized value and the LEDs.
    pub open spec fn wait_actions(self, counts: u16) -> Seq<Action> {
        let halves = unsigned_halves(counts as int);
        let color = self.params.color;
        seq![
            Action::Dac { channel: self.second(), value: counts },
            led_set(self.second(), Led::Top, color, Brightness::Custom(halves.0 as u8)),
            led_set(self.second(), Led::Bottom, color, Brightness::Custom(halves.1 as u8)),
            led_set(
                self.start_channel,
                Led::Top,
                color,
                Brightness::Custom(self.semitone_level()),
            ),
        ]
    }

    /// A millisecond has gone by: the output is set to the quantized value.
    pub fn main_loop(&self, counts: u16) -> (r: Vec<Action>)
        requires
            self.wf(),
        ensures
            r@ == self.wait_actions(counts),
    {
        let leds = Leds::<2>::new(self.start_channel);
        let color = self.params.color;
        let halves = split_unsigned_value(counts);
        let level: u8 = self.find_semitone_level();
        vec![
            OutJack::new(self.start_channel + 1, Range::_Neg5_5V).set_value(counts),
            leds.set(1, Led::Top, color, Brightness::Custom(halves[0])),
            leds.set(1, Led::Bottom, color, Brightness::Custom(halves[1])),
            leds.set(0, Led::Top, color, Brightness::Custom(level)),
        ]
    }

    /// The state after a button was pressed: without shift its offset is left out,
    /// or no longer.
    pub open spec fn pressed(self, chan: int, shift: bool) -> QuantizerApp {
        if shift {
            self
        } else {
            QuantizerApp {
                storage: Storage {
                    offset_toggles: spec_array_update(
                        self.storage.offset_toggles,
                        chan,
                        !self.storage.offset_toggles[chan],
                    ),
                    ..self.storage
                },
                ..self
            }
        }
    }

    /// What a pressed button sets off.
    pub open spec fn press_actions(self, chan: int, shift: bool) -> Seq<Action> {
        if shift {
            Seq::empty()
        } else {
            seq![Action::Save, self.toggle_led(chan, !self.storage.offset_toggles[chan])]
        }
    }

    /// A button was pressed.
    pub fn button_handler(&mut self, chan: usize, shift: bool) -> (r: Vec<Action>)
        requires
            old(self).wf(),
            chan < 2,
        ensures
            *final(self) == old(self).pressed(chan as int, shift),
            final(self).wf(),
            r@ == old(self).press_actions(chan as int, shift),
    {
        if shift {
            Vec::new()
        } else {
            let toggle = !self.storage.offset_toggles[chan];
            self.storage.offset_toggles[chan] = toggle;
            vec![Action::Save, self.show_toggle(chan)]
        }
    }

    /// The stored position that a fader edits: the semitones, or the octaves.
    pub open spec fn fader_target(self, chan: int) -> u16 {
        if chan == 0 {
            self.storage.st
        } else {
            self.storage.oct
        }
    }

    /// The state after a fader was moved.
    pub open spec fn fader_moved(self, chan: int, value: u16) -> QuantizerApp {
        let latch = self.latch[chan];
        let target = self.fader_target(chan);
        QuantizerApp {
            latch: spec_array_update(
                self.latch,
                chan,
                latch.updated(value, LatchLayer::Main, target),
            ),
            storage: match latch.emits(value, LatchLayer::Main, target) {
                Some(new_value) => if chan == 0 {
                    Storage { st: new_value, ..self.storage }
                } else {
                    Storage { oct: new_value, ..self.storage }
                },
                None => self.storage,
            },
            ..self
        }
    }

    /// A fader that changes a value asks for it to be saved.
    pub open spec fn fader_actions(self, chan: int, value: u16) -> Seq<Action> {
        if self.latch[chan].emits(value, LatchLayer::Main, self.fader_target(chan)) is Some {
            seq![Action::Save]
        } else {
            Seq::empty()
        }
    }

    /// A fader was moved.
    pub fn fader_event_handler(&mut self, chan: usize, value: u16) -> (r: Vec<Action>)
        requires
            old(self).wf(),
            chan < 2,
            value <= 4095,
        ensures
            *final(self) == old(self).fader_moved(chan as int, value),
            final(self).wf(),
            r@ == old(self).fader_actions(chan as int, value),
    {
        let mut actions: Vec<Action> = Vec::new();
        let target: u16 = if chan == 0 {
            self.storage.st
        } else {
            self.storage.oct
        };
        let mut latch = self.latch[chan];
        let emitted = latch.update(value, LatchLayer::Main, target);
        self.latch[chan] = latch;
        if let Some(new_value) = emitted {
            if chan == 0 {
                self.storage.st = new_value;
            } else {
                self.storage.oct = new_value;
            }
            actions.push(Action::Save);
        }
        actions
    }

    /// A scene was loaded into the storage.
    pub fn load_scene(&mut self, storage: Storage) -> (r: Vec<Action>)
        requires
            old(self).wf(),
            storage.wf(),
        ensures
            *final(self) == (QuantizerApp { storage, ..*old(self) }),
            final(self).wf(),
            r@ == seq![
                old(self).toggle_led(0, storage.offset_toggles[0]),
                old(self).toggle_led(1, storage.offset_toggles[1]),
            ],
    {
        self.storage = storage;
        vec![self.show_toggle(0), self.show_toggle(1)]
    }

    /// Whether an event brings what the hardware can bring.
    pub open spec fn admits(event: Event) -> bool {
        match event {
            Event::Down { chan, .. } => chan < 2,
            Event::Fader { chan, value } => chan < 2 && value <= 4095,
            Event::LoadScene(storage) => storage.wf(),
            _ => true,
        }
    }

    /// The state after an event.
    pub open spec fn after(self, event: Event) -> QuantizerApp {
        match event {
            Event::Millisecond { .. } => self,
            Event::Down { chan, shift } => self.pressed(chan as int, shift),
            Event::Fader { chan, value } => self.fader_moved(chan as int, value),
            Event::LoadScene(storage) => QuantizerApp { storage, ..self },
            Event::SaveScene(_) => self,
        }
    }

    /// What an event sets off.
    pub open spec fn does(self, event: Event) -> Seq<Action> {
        match event {
            Event::Millisecond { counts } => self.wait_actions(counts),
            Event::Down { chan, shift } => self.press_actions(chan as int, shift),
            Event::Fader { chan, value } => self.fader_actions(chan as int, value),
            Event::LoadScene(storage) => seq![
                self.toggle_led(0, storage.offset_toggles[0]),
                self.toggle_led(1, storage.offset_toggles[1]),
            ],
            Event::SaveScene(scene) => seq![Action::SaveScene(scene)],
        }
    }

    /// Handles an event.
    pub fn run(&mut self, event: Event) -> (r: Vec<Action>)
        requires
            old(self).wf(),
            QuantizerApp::admits(event),
        ensures
            *final(self) == old(self).after(event),
            final(self).wf(),
            r@ == old(self).does(event),
    {
        match event {
            Event::Millisecond { counts } => self.main_loop(counts),
            Event::Down { chan, shift } => self.button_handler(chan, shift),
            Event::Fader { chan, value } => self.fader_event_handler(chan, value),
            Event::LoadScene(storage) => self.load_scene(storage),
            Event::SaveScene(scene) => vec![Action::SaveScene(scene)],
        }
    }
}

/// With both offsets left out, the quantizer is asked for the input itself.
pub proof fn law_offsets_can_be_left_out(app: QuantizerApp, raw: u16)
    requires
        app.storage.offset_toggles[0],
        app.storage.offset_toggles[1],
        raw <= 4095,
    ensures
        clamp_12bit(raw + app.octaves() + app.semitones()) == raw,
{
}

/// Pressing a button twice leaves the app as it was.
pub proof fn law_toggles_go_back(app: QuantizerApp, chan: int)
    requires
        0 <= chan < 2,
    ensures
        app.pressed(chan, false).pressed(chan, false) == app,
{
    let twice = app.pressed(chan, false).pressed(chan, false);
    assert(twice.storage.offset_toggles =~= app.storage.offset_toggles);
}

/// The quantizer is asked for the input moved by whole octaves of 410 counts, five
/// down to five up over the travel of one fader, and by up to an octave of
/// semitones, a twelfth of it each, over that of the other. Each offset that is
/// left out moves nothing, and the request stays in range.
pub proof fn law_request_is_moved(
    app: QuantizerApp,
    raw: int,
    octave: int,
    semitone: int,
    shift: int,
)
    requires
        app.wf(),
        0 <= raw <= 4095,
        4095 * octave <= app.storage.oct * 10 < 4095 * octave + 4095,
        4095 * semitone <= app.storage.st * 12 < 4095 * semitone + 4095,
        12 * shift <= 410 * semitone < 12 * shift + 12,
    ensures
        ({
            let moved = raw + (if app.storage.offset_toggles[1] {
                0
            } else {
                410 * (octave - 5)
            }) + (if app.storage.offset_toggles[0] {
                0
            } else {
                shift
            });
            &&& 0 <= moved <= 4095 ==> app.requested(raw) == moved
            &&& moved < 0 ==> app.requested(raw) == 0
            &&& moved > 4095 ==> app.requested(raw) == 4095
        }),
{
}

/// Every millisecond sets the second channel's output to the quantized counts.
/// The first channel's upper LED is as bright as the semitones are of an octave.
pub proof fn law_output_is_quantized(app: QuantizerApp, counts: u16, level: int)
    requires
        app.wf(),
        app.semitones() * 255 < 32768,
        410 * level <= app.semitones() * 255 < 410 * level + 410,
    ensures
        ({
            let actions = app.does(Event::Millisecond { counts });
            &&& app.after(Event::Millisecond { counts }) == app
            &&& actions.len() == 4
            &&& actions[0] == (Action::Dac {
                channel: (app.start_channel + 1) as usize,
                value: counts,
            })
            &&& 0 <= level < 256
            &&& actions[3] == led_set(
                app.start_channel,
                Led::Top,
                app.params.color,
                Brightness::Custom(level as u8),
            )
        }),
{
}

/// A button without shift leaves its own offset out, or takes it in again; this is
/// saved, and its LED is lit where the offset counts. With shift it does nothing.
pub proof fn law_buttons_toggle_offsets(app: QuantizerApp, chan: usize)
    requires
        app.wf(),
        chan < 2,
    ensures
        ({
            let event = Event::Down { chan, shift: false };
            let after = app.after(event);
            let out = !app.storage.offset_toggles[chan as int];
            let channel = (app.start_channel + chan) as usize;
            &&& after.storage.offset_toggles[chan as int] == out
            &&& after.storage.offset_toggles[1 - chan] == app.storage.offset_toggles[1 - chan]
            &&& after.storage.oct == app.storage.oct && after.storage.st == app.storage.st
            &&& app.does(event) == seq![
                Action::Save,
                if out {
                    crate::app::led_unset(channel, Led::Button)
                } else {
                    led_set(channel, Led::Button, app.params.color, Brightness::Mid)
                },
            ]
            &&& app.after(Event::Down { chan, shift: true }) == app
            &&& app.does(Event::Down { chan, shift: true }).len() == 0
        }),
{
}

/// A fader that has a value to give stores it and asks for it to be saved: the
/// first one as the semitones, the second one as the octaves.
pub proof fn law_faders_store_their_values(app: QuantizerApp, chan: usize, value: u16)
    requires
        app.wf(),
        chan < 2,
    ensures
        ({
            let event = Event::Fader { chan, value };
            let target = if chan == 0 {
                app.storage.st
            } else {
                app.storage.oct
            };
            let latch = app.latch[chan as int];
            let emitted = latch.emits(value, LatchLayer::Main, target);
            let after = app.after(event);
            &&& emitted is None ==> after.storage == app.storage && app.does(event).len() == 0
            &&& emitted matches Some(v) ==> app.does(event) == seq![Action::Save] && after.storage
                == (if chan == 0 {
                Storage { st: v, ..app.storage }
            } else {
                Storage { oct: v, ..app.storage }
            })
            &&& after.latch[chan as int] == latch.updated(value, LatchLayer::Main, target)
            &&& after.latch[1 - chan] == app.latch[1 - chan]
        }),
{
}

/// A scene brings its storage and changes nothing else.
pub proof fn law_scenes_bring_storage(app: QuantizerApp, storage: Storage, scene: u8)
    ensures
        app.after(Event::LoadScene(storage)).storage == storage,
        app.after(Event::LoadScene(storage)).latch == app.latch,
        app.after(Event::SaveScene(scene)) == app,
        app.does(Event::SaveScene(scene)) == seq![Action::SaveScene(scene)],
{
}

/// The app starts on what is stored, as a scene of it would be. Its faders are
/// where they are found.
pub proof fn law_starts_on_storage(
    app: App<2>,
    params: Params,
    storage: Storage,
    faders: [u16; 2],
    takeover: TakeoverMode,
)
    ensures
        ({
            let s = QuantizerApp::started(app, params, storage, faders, takeover);
            &&& s.start_channel == app.start_channel && s.params == params && s.storage == storage
            &&& s.latch[0] == AnalogLatch::initial(faders[0], 25, takeover)
            &&& s.latch[1] == AnalogLatch::initial(faders[1], 25, takeover)
            &&& s == s.after(Event::LoadScene(storage))
        }),
{
}

/// The quantized value is shown on the second channel, above and below the middle.
pub proof fn law_value_is_shown(app: QuantizerApp, counts: u16)
    requires
        app.wf(),
    ensures
        ({
            let actions = app.does(Event::Millisecond { counts });
            let second = (app.start_channel + 1) as usize;
            let color = app.params.color;
            let (above, below) = unsigned_halves(counts as int);
            &&& actions[1] == led_set(second, Led::Top, color, Brightness::Custom(above as u8))
            &&& actions[2] == led_set(second, Led::Bottom, color, Brightness::Custom(below as u8))
        }),
{
}

/// The parameters of a fresh app, and what it has in its storage.
pub proof fn law_fresh_app(r: Storage)
    requires
        call_ensures(Storage::default, (), r),
    ensures
        ({
            let p = initial_params();
            &&& p.color == Color::Blue
        }),
        r.oct == 2047,
        r.st == 0,
        r.offset_toggles@ == seq![false, false],
{
}

} // verus!
