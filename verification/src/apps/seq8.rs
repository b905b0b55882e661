//! Sequencer: four CV/gate sequences of 16 steps on eight channels.
use vstd::prelude::*;
use vstd::array::spec_array_update;

use crate::app::{
    led_set, led_unset, Action, App, GateJack, Leds, MidiOutput, OutJack, PortMode,
    Quantized, Quantizer,
};
use crate::apps::parts::{byte_level, level_byte};
use crate::latch::{clamp_12bit, AnalogLatch, LatchLayer, TakeoverMode};
use crate::storage::{
    values_new, values_push, AppParams, AppStorage, Arr, ManagedStorage, ParamStore,
};
use crate::tasks::leds::Led;
use crate::types::{
    Brightness, ClockEvent, Color, MidiChannel, MidiNote, MidiOut, ParamValue, Range, Value,
};

verus! {

pub const CHANNELS: usize = 8;

pub const PARAMS: usize = 5;

/// The parameters of the app.
#[derive(Clone, Copy, Debug, PartialEq, Eq, Structural)]
pub struct Params {
    pub midi_channel1: MidiChannel,
    pub midi_channel2: MidiChannel,
    pub midi_channel3: MidiChannel,
    pub midi_channel4: MidiChannel,
    pub midi_out: MidiOut,
}

impl AppParams for Params {
    open spec fn read(values: Seq<Value>) -> Option<Self> {
        if values.len() < 5 {
            None
        } else {
            Some(
                Params {
                    midi_channel1: MidiChannel::reads(values[0]),
                    midi_channel2: MidiChannel::reads(values[1]),
                    midi_channel3: MidiChannel::reads(values[2]),
                    midi_channel4: MidiChannel::reads(values[3]),
                    midi_out: MidiOut::reads(values[4]),
                },
            )
        }
    }

    open spec fn listing(self) -> Seq<Value> {
        seq![
            self.midi_channel1.stored(),
            self.midi_channel2.stored(),
            self.midi_channel3.stored(),
            self.midi_channel4.stored(),
            self.midi_out.stored(),
        ]
    }

    fn from_values(values: &[Value]) -> (r: Option<Self>) {
        if values.len() < PARAMS {
            return None;
        }
        Some(
            Params {
                midi_channel1: MidiChannel::from_value(values[0]),
                midi_channel2: MidiChannel::from_value(values[1]),
                midi_channel3: MidiChannel::from_value(values[2]),
                midi_channel4: MidiChannel::from_value(values[3]),
                midi_out: MidiOut::from_value(values[4]),
            },
        )
    }

    fn to_values(&self) -> (r: heapless::Vec<Value, 16>) {
        let mut vec = values_new();
        let _ = values_push(&mut vec, self.midi_channel1.into_value());
        let _ = values_push(&mut vec, self.midi_channel2.into_value());
        let _ = values_push(&mut vec, self.midi_channel3.into_value());
        let _ = values_push(&mut vec, self.midi_channel4.into_value());
        let _ = values_push(&mut vec, self.midi_out.into_value());
        vec
    }

    proof fn law_params_round_trip(self) {
    }
}

/// What the app keeps. The faders are 12-bit positions that the length, gate
/// length, octave, range and resolution of each sequence are derived from.
#[derive(Clone, Copy)]
pub struct Storage {
    pub seq: Arr<u16, 64>,
    pub gateseq: Arr<bool, 64>,
    pub legato_seq: Arr<bool, 64>,
    pub length_fader: [u16; 4],
    pub gate_fader: [u16; 4],
    pub oct_fader: [u16; 4],
    pub range_fader: [u16; 4],
    pub res_fader: [u16; 4],
}

impl Default for Storage {
    /// All steps at 0 with their gates on, 16 steps, gates of half a step, no
    /// octave, a range of three octaves and a resolution of six ticks.
    fn default() -> (r: Self)
        ensures
            r.seq.0@ == Seq::new(64, |i: int| 0u16),
            r.gateseq.0@ == Seq::new(64, |i: int| true),
            r.legato_seq.0@ == Seq::new(64, |i: int| false),
            r.length_fader@ == seq![3840u16, 3840, 3840, 3840],
            r.gate_fader@ == seq![2032u16, 2032, 2032, 2032],
            r.oct_fader@ == seq![0u16, 0, 0, 0],
            r.range_fader@ == seq![2000u16, 2000, 2000, 2000],
            r.res_fader@ == seq![2048u16, 2048, 2048, 2048],
            r.wf(),
    {
        Storage {
            seq: Arr::new([0; 64]),
            gateseq: Arr::new([true; 64]),
            legato_seq: Arr::new([false; 64]),
            length_fader: [3840; 4],
            gate_fader: [2032; 4],
            oct_fader: [0; 4],
            range_fader: [2000; 4],
            res_fader: [2048; 4],
        }
    }
}

impl AppStorage for Storage {

}

/// Whether all values have 12 bits.
pub open spec fn all_12bit(values: Seq<u16>) -> bool {
    forall|i: int| 0 <= i < values.len() ==> #[trigger] values[i] <= 4095
}

/// Whether no sequence goes on past the last step of all.
pub open spec fn lengths_fit(faders: Seq<u16>) -> bool {
    forall|i: int| 0 <= i < faders.len() ==> #[trigger] faders[i] < 16384 - 4096 * i
}

impl Storage {
    /// Whether the lengths and the resolutions stand for steps and ticks.
    pub open spec fn wf(self) -> bool {
        lengths_fit(self.length_fader@) && all_12bit(self.res_fader@)
    }
}

/// The parameters that the app starts with: one MIDI channel per sequence.
pub open spec fn initial_params() -> Params {
    Params {
        midi_channel1: MidiChannel(1),
        midi_channel2: MidiChannel(2),
        midi_channel3: MidiChannel(3),
        midi_channel4: MidiChannel(4),
        midi_out: MidiOut { usb: true, out1: true, out2: true },
    }
}

/// The parameters and the storage of the app, before anything was loaded.
pub fn wrapper(app: App<8>) -> (r: (ParamStore<Params>, ManagedStorage<Storage>))
    ensures
        r.0 == (ParamStore {
            app_id: app.app_id,
            inner: initial_params(),
            layout_id: app.layout_id,
        }),
        r.1.app_id == app.app_id,
        r.1.layout_id == app.layout_id,
        call_ensures(Storage::default, (), r.1.inner),
{
    (
        ParamStore::new(
            app.app_id,
            app.layout_id,
            Params {
                midi_channel1: MidiChannel(1),
                midi_channel2: MidiChannel(2),
                midi_channel3: MidiChannel(3),
                midi_channel4: MidiChannel(4),
                midi_out: MidiOut::default(),
            },
        ),
        ManagedStorage::new(app.app_id, app.layout_id),
    )
}

/// The ticks of a step, by the eighth of the fader's travel.
pub open spec fn resolution(index: int) -> usize {
    seq![24usize, 16, 12, 8, 6, 4, 3, 2][index]
}

/// The steps of a sequence, by the position of the fader.
pub open spec fn length_of(fader: u16) -> u8 {
    (fader / 256 + 1) as u8
}

/// The ticks of a step, by the position of the fader.
pub open spec fn resolution_of(fader: u16) -> usize {
    resolution(fader as int / 512)
}

/// The ticks of a gate, at least one and at most `most`.
pub open spec fn clamp_gate(ticks: int, most: int) -> u8 {
    (if ticks < 1 {
        1
    } else if ticks > most {
        most
    } else {
        ticks
    }) as u8
}

/// The ticks of a gate within a step, by the position of the fader. It always
/// ends before the next step. Of a count beyond 8 bits the low 8 stay.
pub open spec fn gate_of(res: usize, fader: u16) -> u8 {
    clamp_gate(res * fader / 4096 % 256, res - 1)
}

fn find_resolution(fader: u16) -> (r: usize)
    requires
        fader <= 4095,
    ensures
        r == resolution_of(fader),
        2 <= r <= 24,
{
    match fader / 512 {
        0 => 24,
        1 => 16,
        2 => 12,
        3 => 8,
        4 => 6,
        5 => 4,
        6 => 3,
        _ => 2,
    }
}

fn find_length(fader: u16) -> (r: u8)
    requires
        fader < 16384,
    ensures
        r == length_of(fader),
        r == fader / 256 + 1,
{
    (fader / 256 + 1) as u8
}

fn limit_gate(ticks: usize, most: usize) -> (r: u8)
    requires
        1 <= most <= 24,
    ensures
        r == clamp_gate(ticks as int, most as int),
        1 <= r <= most,
{
    if ticks < 1 {
        1
    } else if ticks > most {
        most as u8
    } else {
        ticks as u8
    }
}

fn find_gate(res: usize, fader: u16) -> (r: u8)
    requires
        2 <= res <= 24,
    ensures
        r == gate_of(res, fader),
        1 <= r < res,
{
    assert(res * fader <= 24 * 65535) by (nonlinear_arith)
        requires
            2 <= res <= 24,
            0 <= fader <= 65535,
    ;
    limit_gate(res * (fader as usize) / 4096 % 256, res - 1)
}

/// What the clock sees of the sequences until its next event: the gates, the
/// lengths, the resolutions and the ties as they were when it began to wait.
#[derive(Clone, Copy)]
pub struct Armed {
    pub gateseq: [bool; 64],
    pub seq_length: [u8; 4],
    pub clockres: [usize; 4],
    pub legato_seq: [bool; 64],
}

/// What an event brings.
pub enum Event {
    /// A look at the shift button, once per millisecond.
    Shift(bool),
    /// A fader was moved to a value.
    Fader { chan: usize, value: u16 },
    /// A button was pressed.
    Down { chan: usize, shift: bool },
    /// A button was pressed for long.
    LongPress { chan: usize, shift: bool },
    /// The LEDs are due, at the given tick.
    Frame { shift: bool, clockn: usize },
    /// An event of the clock, at the given tick, with the notes that the steps to
    /// be played are quantized to.
    Clock { event: ClockEvent, clockn: usize, notes: [Quantized; 4] },
    /// A scene was loaded into the storage.
    LoadScene(Storage),
    /// A scene is to be saved.
    SaveScene(u8),
}

/// The running app.
pub struct Sequencer {
    pub start_channel: usize,
    pub params: Params,
    pub storage: Storage,
    pub page: usize,
    pub led_flag: bool,
    pub latch_layer: LatchLayer,
    pub seq: [u16; 64],
    pub gateseq: [bool; 64],
    pub legatoseq: [bool; 64],
    pub seq_length: [u8; 4],
    pub gatelength: [u8; 4],
    pub clockres: [usize; 4],
    pub lastnote: [MidiNote; 4],
    pub gatelength1: [u8; 4],
    pub latches: [AnalogLatch; 8],
    pub armed: Armed,
}

/// The color of a sequence.
pub open spec fn track_color(track: int) -> Color {
    if track == 0 {
        Color::Yellow
    } else if track == 1 {
        Color::Pink
    } else if track == 2 {
        Color::Cyan
    } else {
        Color::White
    }
}

fn color_of(track: usize) -> (r: Color)
    ensures
        r == track_color(track as int),
{
    match track {
        0 => Color::Yellow,
        1 => Color::Pink,
        2 => Color::Cyan,
        _ => Color::White,
    }
}

pub open spec fn lengths_wf(lengths: Seq<u8>) -> bool {
    forall|i: int| 0 <= i < lengths.len() ==> 1 <= #[trigger] lengths[i] <= 64 - 16 * i
}

pub open spec fn resolutions_wf(res: Seq<usize>) -> bool {
    forall|i: int| 0 <= i < res.len() ==> 2 <= #[trigger] res[i] <= 24
}

pub open spec fn gates_wf(gates: Seq<u8>) -> bool {
    forall|i: int| 0 <= i < gates.len() ==> 1 <= #[trigger] gates[i]
}

impl Sequencer {
    /// What the app keeps true: values are in range, and what is played is what
    /// is stored.
    pub open spec fn wf(self) -> bool {
        &&& self.start_channel + 8 <= 16
        &&& self.page < 8
        &&& self.storage.wf()
        &&& self.seq == self.storage.seq.0
        &&& self.gateseq == self.storage.gateseq.0
        &&& self.legatoseq == self.storage.legato_seq.0
        &&& lengths_wf(self.seq_length@)
        &&& lengths_wf(self.armed.seq_length@)
        &&& resolutions_wf(self.clockres@)
        &&& resolutions_wf(self.armed.clockres@)
        &&& gates_wf(self.gatelength@)
        &&& gates_wf(self.gatelength1@)
    }

    /// The MIDI port of a sequence.
    pub open spec fn midi(self, n: int) -> MidiOutput {
        let channel = if n == 0 {
            self.params.midi_channel1
        } else if n == 1 {
            self.params.midi_channel2
        } else if n == 2 {
            self.params.midi_channel3
        } else {
            self.params.midi_channel4
        };
        MidiOutput::port(self.start_channel, self.params.midi_out, channel, false)
    }

    fn midi_port(&self, n: usize) -> (r: MidiOutput)
        requires
            n < 4,
        ensures
            r == self.midi(n as int),
    {
        let channel = match n {
            0 => self.params.midi_channel1,
            1 => self.params.midi_channel2,
            2 => self.params.midi_channel3,
            _ => self.params.midi_channel4,
        };
        MidiOutput::new(self.params.midi_out, self.start_channel, channel.to_wire(), false)
    }

    /// Gate output of a sequence.
    pub open spec fn gate(self, n: int, high: bool) -> Action {
        Action::Gate { channel: (self.start_channel + 2 * n + 1) as usize, high }
    }

    /// The voltage of a sequence.
    pub open spec fn cv(self, n: int, value: u16) -> Action {
        Action::Dac { channel: (self.start_channel + 2 * n) as usize, value }
    }

    fn gate_out(&self, n: usize) -> (r: GateJack)
        requires
            self.start_channel <= 8,
            n < 4,
        ensures
            r.channel == self.start_channel + 2 * n + 1,
    {
        GateJack::new(self.start_channel + 2 * n + 1)
    }

    fn cv_out(&self, n: usize) -> (r: OutJack)
        requires
            self.start_channel <= 8,
            n < 4,
        ensures
            r.channel == self.start_channel + 2 * n,
            r.range == Range::_0_10V,
    {
        OutJack::new(self.start_channel + 2 * n, Range::_0_10V)
    }

    /// The state with everything derived from a storage.
    pub open spec fn loaded(self, storage: Storage) -> Sequencer {
        let res = [
            resolution_of(storage.res_fader[0]),
            resolution_of(storage.res_fader[1]),
            resolution_of(storage.res_fader[2]),
            resolution_of(storage.res_fader[3]),
        ];
        Sequencer {
            storage,
            seq: storage.seq.0,
            gateseq: storage.gateseq.0,
            legatoseq: storage.legato_seq.0,
            seq_length: [
                length_of(storage.length_fader[0]),
                length_of(storage.length_fader[1]),
                length_of(storage.length_fader[2]),
                length_of(storage.length_fader[3]),
            ],
            clockres: res,
            gatelength: [
                gate_of(res[0], storage.gate_fader[0]),
                gate_of(res[1], storage.gate_fader[1]),
                gate_of(res[2], storage.gate_fader[2]),
                gate_of(res[3], storage.gate_fader[3]),
            ],
            ..self
        }
    }

    /// The state with what the clock sees brought up to date.
    pub open spec fn rearmed(self) -> Sequencer {
        Sequencer {
            armed: Armed {
                gateseq: self.gateseq,
                seq_length: self.seq_length,
                clockres: self.clockres,
                legato_seq: self.legatoseq,
            },
            ..self
        }
    }

    fn load(&mut self, storage: Storage)
        requires
            storage.wf(),
        ensures
            *final(self) == old(self).loaded(storage),
            lengths_wf(final(self).seq_length@),
            resolutions_wf(final(self).clockres@),
            gates_wf(final(self).gatelength@),
    {
        let res: [usize; 4] = [
            find_resolution(storage.res_fader[0]),
            find_resolution(storage.res_fader[1]),
            find_resolution(storage.res_fader[2]),
            find_resolution(storage.res_fader[3]),
        ];
        self.storage = storage;
        self.seq = storage.seq.get();
        self.gateseq = storage.gateseq.get();
        self.legatoseq = storage.legato_seq.get();
        self.seq_length = [
            find_length(storage.length_fader[0]),
            find_length(storage.length_fader[1]),
            find_length(storage.length_fader[2]),
            find_length(storage.length_fader[3]),
        ];
        self.clockres = res;
        self.gatelength = [
            find_gate(res[0], storage.gate_fader[0]),
            find_gate(res[1], storage.gate_fader[1]),
            find_gate(res[2], storage.gate_fader[2]),
            find_gate(res[3], storage.gate_fader[3]),
        ];
    }

    fn rearm(&mut self)
        ensures
            *final(self) == old(self).rearmed(),
    {
        self.armed = Armed {
            gateseq: self.gateseq,
            seq_length: self.seq_length,
            clockres: self.clockres,
            legato_seq: self.legatoseq,
        };
    }

    /// The state that the app starts with.
    pub open spec fn started(
        app: App<8>,
        params: Params,
        storage: Storage,
        faders: [u16; 8],
        takeover: TakeoverMode,
    ) -> Sequencer {
        (Sequencer {
            start_channel: app.start_channel,
            params,
            storage,
            page: 0,
            led_flag: true,
            latch_layer: LatchLayer::Main,
            seq: storage.seq.0,
            gateseq: storage.gateseq.0,
            legatoseq: storage.legato_seq.0,
            seq_length: [16, 16, 16, 16],
            gatelength: [128, 128, 128, 128],
            clockres: [6, 6, 6, 6],
            lastnote: [MidiNote(0), MidiNote(0), MidiNote(0), MidiNote(0)],
            gatelength1: [128, 128, 128, 128],
            latches: [
                AnalogLatch::initial(faders[0], 25, takeover),
                AnalogLatch::initial(faders[1], 25, takeover),
                AnalogLatch::initial(faders[2], 25, takeover),
                AnalogLatch::initial(faders[3], 25, takeover),
                AnalogLatch::initial(faders[4], 25, takeover),
                AnalogLatch::initial(faders[5], 25, takeover),
                AnalogLatch::initial(faders[6], 25, takeover),
                AnalogLatch::initial(faders[7], 25, takeover),
            ],
            armed: Armed {
                gateseq: storage.gateseq.0,
                seq_length: [16, 16, 16, 16],
                clockres: [6, 6, 6, 6],
                legato_seq: storage.legato_seq.0,
            },
        }).loaded(storage).rearmed()
    }

    /// The jacks of the app: voltages on the even channels, gates on the odd ones.
    pub open spec fn jacks(start: usize) -> Seq<Action> {
        Seq::new(
            8,
            |i: int|
                if i < 4 {
                    Action::Configure {
                        channel: (start + 2 * i) as usize,
                        mode: PortMode::Output { bipolar: false },
                        gpo_level: None,
                    }
                } else {
                    Action::Configure {
                        channel: (start + 2 * (i - 4) + 1) as usize,
                        mode: PortMode::Gate,
                        gpo_level: Some(4095),
                    }
                },
        )
    }

    /// Starts the app on what is stored.
    pub fn new(
        app: App<8>,
        params: Params,
        storage: Storage,
        faders: [u16; 8],
        takeover: TakeoverMode,
    ) -> (r: (Self, Vec<Action>))
        requires
            app.wf(),
            storage.wf(),
        ensures
            r.0 == Sequencer::started(app, params, storage, faders, takeover),
            r.0.wf(),
            r.1@ == Sequencer::jacks(app.start_channel),
    {
        let mut state = Sequencer {
            start_channel: app.start_channel,
            params,
            storage,
            page: 0,
            led_flag: true,
            latch_layer: LatchLayer::Main,
            seq: storage.seq.get(),
            gateseq: storage.gateseq.get(),
            legatoseq: storage.legato_seq.get(),
            seq_length: [16, 16, 16, 16],
            gatelength: [128, 128, 128, 128],
            clockres: [6, 6, 6, 6],
            lastnote: [MidiNote(0), MidiNote(0), MidiNote(0), MidiNote(0)],
            gatelength1: [128, 128, 128, 128],
            latches: [
                app.make_latch(faders[0], takeover),
                app.make_latch(faders[1], takeover),
                app.make_latch(faders[2], takeover),
                app.make_latch(faders[3], takeover),
                app.make_latch(faders[4], takeover),
                app.make_latch(faders[5], takeover),
                app.make_latch(faders[6], takeover),
                app.make_latch(faders[7], takeover),
            ],
            armed: Armed {
                gateseq: storage.gateseq.get(),
                seq_length: [16, 16, 16, 16],
                clockres: [6, 6, 6, 6],
                legato_seq: storage.legato_seq.get(),
            },
        };
        state.load(storage);
        state.rearm();
        let actions = vec![
            app.make_out_jack(0, Range::_0_10V).1,
            app.make_out_jack(2, Range::_0_10V).1,
            app.make_out_jack(4, Range::_0_10V).1,
            app.make_out_jack(6, Range::_0_10V).1,
            app.make_gate_jack(1, 4095).1,
            app.make_gate_jack(3, 4095).1,
            app.make_gate_jack(5, 4095).1,
            app.make_gate_jack(7, 4095).1,
        ];
        (state, actions)
    }

    /// Follows the shift button: held, the faders edit the settings.
    pub fn shift_handler(&mut self, shift: bool)
        ensures
            *final(self) == (Sequencer {
                latch_layer: if shift {
                    LatchLayer::Alt
                } else {
                    LatchLayer::Main
                },
                ..*old(self)
            }),
    {
        self.latch_layer = if shift {
            LatchLayer::Alt
        } else {
            LatchLayer::Main
        };
    }

    /// The stored position that a fader edits while shift is held.
    pub open spec fn alt_target(self, chan: int, track: int) -> u16 {
        if chan == 0 {
            self.storage.length_fader[track]
        } else if chan == 1 {
            self.storage.gate_fader[track]
        } else if chan == 2 {
            self.storage.oct_fader[track]
        } else if chan == 3 {
            self.storage.range_fader[track]
        } else if chan == 4 {
            self.storage.res_fader[track]
        } else {
            0
        }
    }

    fn get_alt_target(&self, chan: usize, seq_idx: usize) -> (r: u16)
        requires
            seq_idx < 4,
        ensures
            r == self.alt_target(chan as int, seq_idx as int),
    {
        match chan {
            0 => self.storage.length_fader[seq_idx],
            1 => self.storage.gate_fader[seq_idx],
            2 => self.storage.oct_fader[seq_idx],
            3 => self.storage.range_fader[seq_idx],
            4 => self.storage.res_fader[seq_idx],
            _ => 0,
        }
    }

    /// The state after a setting of a sequence was changed by a fader: the
    /// position is stored, and what is derived from it follows.
    pub open spec fn alt_updated(self, chan: int, track: int, value: u16) -> Sequencer {
        if chan == 0 {
            Sequencer {
                storage: Storage {
                    length_fader: spec_array_update(self.storage.length_fader, track, value),
                    ..self.storage
                },
                seq_length: spec_array_update(self.seq_length, track, length_of(value)),
                ..self
            }
        } else if chan == 1 {
            Sequencer {
                storage: Storage {
                    gate_fader: spec_array_update(self.storage.gate_fader, track, value),
                    ..self.storage
                },
                gatelength: spec_array_update(
                    self.gatelength,
                    track,
                    gate_of(self.clockres[track], value),
                ),
                ..self
            }
        } else if chan == 2 {
            Sequencer {
                storage: Storage {
                    oct_fader: spec_array_update(self.storage.oct_fader, track, value),
                    ..self.storage
                },
                ..self
            }
        } else if chan == 3 {
            Sequencer {
                storage: Storage {
                    range_fader: spec_array_update(self.storage.range_fader, track, value),
                    ..self.storage
                },
                ..self
            }
        } else if chan == 4 {
            let res = resolution_of(value);
            Sequencer {
                storage: Storage {
                    res_fader: spec_array_update(self.storage.res_fader, track, value),
                    ..self.storage
                },
                clockres: spec_array_update(self.clockres, track, res),
                gatelength: spec_array_update(
                    self.gatelength,
                    track,
                    clamp_gate(self.gatelength[track] as int, res as int),
                ),
                ..self
            }
        } else {
            self
        }
    }

    fn apply_alt_update(&mut self, chan: usize, seq_idx: usize, value: u16)
        requires
            old(self).wf(),
            seq_idx < 4,
            value <= 4095,
        ensures
            *final(self) == old(self).alt_updated(chan as int, seq_idx as int, value),
            final(self).wf(),
    {
        match chan {
            0 => {
                self.storage.length_fader[seq_idx] = value;
                self.seq_length[seq_idx] = find_length(value);
            },
            1 => {
                self.storage.gate_fader[seq_idx] = value;
                let res: usize = self.clockres[seq_idx];
                self.gatelength[seq_idx] = find_gate(res, value);
            },
            2 => {
                self.storage.oct_fader[seq_idx] = value;
            },
            3 => {
                self.storage.range_fader[seq_idx] = value;
            },
            4 => {
                self.storage.res_fader[seq_idx] = value;
                let res: usize = find_resolution(value);
                self.clockres[seq_idx] = res;
                let ticks: u8 = self.gatelength[seq_idx];
                self.gatelength[seq_idx] = limit_gate(ticks as usize, res);
            },
            _ => {},
        }
    }

    /// The stored value that a fader edits.
    pub open spec fn fader_target(self, chan: int) -> u16 {
        match self.latch_layer {
            LatchLayer::Main => self.seq[chan + self.page * 8],
            LatchLayer::Alt => self.alt_target(chan, self.page as int / 2),
            LatchLayer::Third => 0,
        }
    }

    /// The state after a fader was moved: its latch decides whether the value of
    /// a step, or a setting of the sequence on the page, follows it.
    pub open spec fn fader_moved(self, chan: int, value: u16) -> Sequencer {
        let latch = self.latches[chan];
        let target = self.fader_target(chan);
        let latched = Sequencer {
            latches: spec_array_update(
                self.latches,
                chan,
                latch.updated(value, self.latch_layer, target),
            ),
            ..self
        };
        let edited = match latch.emits(value, self.latch_layer, target) {
            Some(new_value) => match self.latch_layer {
                LatchLayer::Main => Sequencer {
                    seq: spec_array_update(latched.seq, chan + self.page * 8, new_value),
                    storage: Storage {
                        seq: Arr(
                            spec_array_update(
                                latched.storage.seq.0,
                                chan + self.page * 8,
                                new_value,
                            ),
                        ),
                        ..latched.storage
                    },
                    ..latched
                },
                LatchLayer::Alt => latched.alt_updated(chan, self.page as int / 2, new_value),
                LatchLayer::Third => latched,
            },
            None => latched,
        };
        Sequencer { led_flag: true, ..edited }
    }

    /// A fader that changes a value asks for it to be saved. The last three have
    /// no setting.
    pub open spec fn fader_actions(self, chan: int, value: u16) -> Seq<Action> {
        let emitted = self.latches[chan].emits(value, self.latch_layer, self.fader_target(chan));
        if emitted is Some && (self.latch_layer == LatchLayer::Main || (self.latch_layer
            == LatchLayer::Alt && chan < 5)) {
            seq![Action::Save]
        } else {
            Seq::empty()
        }
    }

    /// A fader was moved.
    pub fn fader_handler(&mut self, chan: usize, value: u16) -> (r: Vec<Action>)
        requires
            old(self).wf(),
            chan < 8,
            value <= 4095,
        ensures
            *final(self) == old(self).fader_moved(chan as int, value),
            final(self).wf(),
            r@ == old(self).fader_actions(chan as int, value),
    {
        let mut actions: Vec<Action> = Vec::new();
        let seq_idx: usize = self.page / 2;
        let latch_layer = self.latch_layer;
        let target_value: u16 = match latch_layer {
            LatchLayer::Main => self.seq[chan + self.page * 8],
            LatchLayer::Alt => self.get_alt_target(chan, seq_idx),
            LatchLayer::Third => 0,
        };
        let mut latch = self.latches[chan];
        let emitted = latch.update(value, latch_layer, target_value);
        self.latches[chan] = latch;
        if let Some(new_value) = emitted {
            match latch_layer {
                LatchLayer::Main => {
                    let step: usize = chan + self.page * 8;
                    self.seq[step] = new_value;
                    let mut seq_arr = self.storage.seq.get();
                    seq_arr[step] = new_value;
                    self.storage.seq.set(seq_arr);
                    actions.push(Action::Save);
                },
                LatchLayer::Alt => {
                    self.apply_alt_update(chan, seq_idx, new_value);
                    if chan < 5 {
                        actions.push(Action::Save);
                    }
                },
                LatchLayer::Third => {},
            }
        }
        self.led_flag = true;
        actions
    }

    /// The state after a button was pressed: without shift the step has
    /// its gate toggled and its tie taken off, with shift the page is turned.
    pub open spec fn button_pressed(self, chan: int, shift: bool) -> Sequencer {
        if shift {
            Sequencer { page: chan as usize, ..self }
        } else {
            let step = chan + self.page * 8;
            let gateseq = spec_array_update(self.gateseq, step, !self.gateseq[step]);
            let legato_seq = spec_array_update(self.legatoseq, step, false);
            Sequencer {
                gateseq,
                legatoseq: legato_seq,
                storage: Storage {
                    gateseq: Arr(gateseq),
                    legato_seq: Arr(legato_seq),
                    ..self.storage
                },
                led_flag: true,
                ..self
            }
        }
    }

    /// A button was pressed.
    pub fn button_handler(&mut self, chan: usize, shift: bool) -> (r: Vec<Action>)
        requires
            old(self).wf(),
            chan < 8,
        ensures
            *final(self) == old(self).button_pressed(chan as int, shift),
            final(self).wf(),
            r@ == (if shift {
                Seq::empty()
            } else {
                seq![Action::Save]
            }),
    {
        let mut actions: Vec<Action> = Vec::new();
        if !shift {
            let step: usize = chan + self.page * 8;
            let mut gateseq = self.gateseq;
            let mut legato_seq = self.legatoseq;
            gateseq[step] = !gateseq[step];
            legato_seq[step] = false;
            self.gateseq = gateseq;
            self.legatoseq = legato_seq;
            self.storage.gateseq.set(gateseq);
            self.storage.legato_seq.set(legato_seq);
            actions.push(Action::Save);
            self.led_flag = true;
        } else {
            self.page = chan;
        }
        actions
    }

    /// The state after a button was pressed for long: the step is tied to the
    /// next one, or no longer, and its gate is on.
    pub open spec fn button_held(self, chan: int, shift: bool) -> Sequencer {
        if shift {
            self
        } else {
            let step = chan + self.page * 8;
            let gateseq = spec_array_update(self.gateseq, step, true);
            let legato_seq = spec_array_update(self.legatoseq, step, !self.legatoseq[step]);
            Sequencer {
                gateseq,
                legatoseq: legato_seq,
                storage: Storage {
                    gateseq: Arr(gateseq),
                    legato_seq: Arr(legato_seq),
                    ..self.storage
                },
                ..self
            }
        }
    }

    /// A button was pressed for long.
    pub fn button_long_press_handler(&mut self, chan: usize, shift: bool) -> (r: Vec<Action>)
        requires
            old(self).wf(),
            chan < 8,
        ensures
            *final(self) == old(self).button_held(chan as int, shift),
            final(self).wf(),
            r@ == (if shift {
                Seq::empty()
            } else {
                seq![Action::Save, Action::Save]
            }),
    {
        let mut actions: Vec<Action> = Vec::new();
        if !shift {
            let step: usize = chan + self.page * 8;
            let mut legato_seq = self.legatoseq;
            legato_seq[step] = !legato_seq[step];
            self.legatoseq = legato_seq;
            let mut gateseq = self.gateseq;
            gateseq[step] = true;
            self.gateseq = gateseq;
            self.storage.gateseq.set(gateseq);
            actions.push(Action::Save);
            self.storage.legato_seq.set(legato_seq);
            actions.push(Action::Save);
        }
        actions
    }

    /// The step that a sequence is at, among the 16 that are shown of it.
    pub open spec fn step_shown(self, track: int, clockn: int) -> int {
        clockn / self.clockres[track] as int % self.seq_length[track] as int % 16
    }

    /// The page buttons while shift is held.
    pub open spec fn page_leds(self) -> Seq<Action> {
        Seq::new(
            8,
            |n: int|
                led_set(
                    (self.start_channel + n) as usize,
                    Led::Button,
                    track_color(n / 2),
                    if n == self.page {
                        Brightness::High
                    } else {
                        Brightness::Mid
                    },
                ),
        )
    }

    /// The 16 steps of the sequence on the page while shift is held: eight on
    /// top, eight below, the current one bright, those beyond the length dark.
    pub open spec fn length_leds(self, clockn: int) -> Seq<Action> {
        let track = self.page as int / 2;
        let len = self.seq_length[track] as int;
        let res = self.clockres[track] as int;
        Seq::new(
            16,
            |n: int|
                led_set(
                    (self.start_channel + n % 8) as usize,
                    if n < 8 {
                        Led::Top
                    } else {
                        Led::Bottom
                    },
                    if res == 2 || res == 4 || res == 8 || res == 16 {
                        Color::Orange
                    } else {
                        Color::Blue
                    },
                    if n >= len {
                        Brightness::Off
                    } else if n == clockn / res % 256 % len {
                        Brightness::High
                    } else {
                        Brightness::Mid
                    },
                ),
        )
    }

    /// The LEDs of a channel: the value of its step on top, its gate on the
    /// button, and below whether a sequence is in that half of its steps.
    pub open spec fn channel_leds(self, n: int, clockn: int) -> Seq<Action> {
        let channel = (self.start_channel + n) as usize;
        let color = track_color(self.page as int / 2);
        let step = n + self.page * 8;
        let len = self.seq_length[self.page as int / 2] as int;
        let offset = self.page as int % 2 * 8;
        seq![
            led_set(
                channel,
                Led::Top,
                color,
                Brightness::Custom(level_byte(self.seq[step] as int) / 2),
            ),
            led_set(
                channel,
                Led::Button,
                color,
                if self.gateseq[step] {
                    Brightness::Mid
                } else {
                    Brightness::Low
                },
            ),
        ] + (if self.legatoseq[step] {
            seq![led_set(channel, Led::Button, color, Brightness::High)]
        } else {
            Seq::empty()
        }) + (if offset + n >= len || len - offset > 16 {
            seq![led_unset(channel, Led::Button)]
        } else {
            Seq::empty()
        }) + seq![
            if self.step_shown(n / 2, clockn) / 8 == n % 2 {
                led_set(channel, Led::Bottom, Color::Red, Brightness::Mid)
            } else {
                led_unset(channel, Led::Bottom)
            },
        ]
    }

    /// The LEDs of the first `n` channels.
    pub open spec fn channels_leds(self, n: int, clockn: int) -> Seq<Action>
        decreases n,
    {
        if n <= 0 {
            Seq::empty()
        } else {
            self.channels_leds(n - 1, clockn) + self.channel_leds(n - 1, clockn)
        }
    }

    /// The LEDs of the app.
    pub open spec fn leds(self, shift: bool, clockn: int) -> Seq<Action> {
        if shift {
            self.page_leds() + self.length_leds(clockn)
        } else {
            let step = self.step_shown(self.page as int / 2, clockn);
            self.channels_leds(8, clockn) + (if step / 8 == self.page as int % 2 && clockn != 0 {
                seq![
                    led_set(
                        (self.start_channel + step % 8) as usize,
                        Led::Button,
                        Color::Red,
                        Brightness::Mid,
                    ),
                ]
            } else {
                Seq::empty()
            }) + seq![
                led_set(
                    (self.start_channel + self.page) as usize,
                    Led::Bottom,
                    track_color(self.page as int / 2),
                    Brightness::High,
                ),
            ]
        }
    }

    fn current_step(&self, track: usize, clockn: usize) -> (r: usize)
        requires
            self.wf(),
            track < 4,
        ensures
            r == self.step_shown(track as int, clockn as int),
            r < 16,
    {
        let res: usize = self.clockres[track];
        let len: usize = self.seq_length[track] as usize;
        assert(2 <= self.clockres@[track as int] && 1 <= self.seq_length@[track as int]);
        clockn / res % len % 16
    }

    fn show_settings(&self, clockn: usize) -> (r: Vec<Action>)
        requires
            self.wf(),
        ensures
            r@ == self.page_leds() + self.length_leds(clockn as int),
    {
        let led = Leds::<8>::new(self.start_channel);
        let mut actions: Vec<Action> = Vec::new();
        let mut n: usize = 0;
        while n < 8
            invariant
                n <= 8,
                self.wf(),
                led.start_channel == self.start_channel,
                actions@ =~= self.page_leds().take(n as int),
            decreases 8 - n,
        {
            let bright = if n == self.page {
                Brightness::High
            } else {
                Brightness::Mid
            };
            actions.push(led.set(n, Led::Button, color_of(n / 2), bright));
            n = n + 1;
        }
        let track: usize = self.page / 2;
        let len: usize = self.seq_length[track] as usize;
        let res: usize = self.clockres[track];
        assert(2 <= self.clockres@[track as int] && 1 <= self.seq_length@[track as int]);
        let current: usize = clockn / res % 256 % len;
        let color = if res == 2 || res == 4 || res == 8 || res == 16 {
            Color::Orange
        } else {
            Color::Blue
        };
        let mut m: usize = 0;
        while m < 16
            invariant
                m <= 16,
                self.wf(),
                track == self.page / 2,
                len == self.seq_length[track as int],
                res == self.clockres[track as int],
                current == clockn as int / res as int % 256 % len as int,
                color == (if res == 2 || res == 4 || res == 8 || res == 16 {
                    Color::Orange
                } else {
                    Color::Blue
                }),
                led.start_channel == self.start_channel,
                actions@ =~= self.page_leds() + self.length_leds(clockn as int).take(m as int),
            decreases 16 - m,
        {
            let bright = if m >= len {
                Brightness::Off
            } else if m == current {
                Brightness::High
            } else {
                Brightness::Mid
            };
            if m < 8 {
                actions.push(led.set(m, Led::Top, color, bright));
            } else {
                actions.push(led.set(m - 8, Led::Bottom, color, bright));
            }
            m = m + 1;
        }
        actions
    }

    fn show_channel(&self, n: usize, clockn: usize, actions: &mut Vec<Action>)
        requires
            self.wf(),
            n < 8,
        ensures
            final(actions)@ == old(actions)@ + self.channel_leds(n as int, clockn as int),
    {
        let led = Leds::<8>::new(self.start_channel);
        let color = color_of(self.page / 2);
        let step: usize = n + self.page * 8;
        let level: u8 = byte_level(self.seq[step]) / 2;
        actions.push(led.set(n, Led::Top, color, Brightness::Custom(level)));
        if self.gateseq[step] {
            actions.push(led.set(n, Led::Button, color, Brightness::Mid));
        } else {
            actions.push(led.set(n, Led::Button, color, Brightness::Low));
        }
        if self.legatoseq[step] {
            actions.push(led.set(n, Led::Button, color, Brightness::High));
        }
        let len: usize = self.seq_length[self.page / 2] as usize;
        let offset: usize = self.page % 2 * 8;
        if offset + n >= len || len > offset + 16 {
            actions.push(led.unset(n, Led::Button));
        }
        if self.current_step(n / 2, clockn) / 8 == n % 2 {
            actions.push(led.set(n, Led::Bottom, Color::Red, Brightness::Mid));
        } else {
            actions.push(led.unset(n, Led::Bottom));
        }
    }

    /// Brings the LEDs up to date.
    pub fn led_handler(&mut self, shift: bool, clockn: usize) -> (r: Vec<Action>)
        requires
            old(self).wf(),
        ensures
            *final(self) == (Sequencer { led_flag: false, ..*old(self) }),
            r@ == old(self).leds(shift, clockn as int),
    {
        let actions: Vec<Action> = if shift {
            self.show_settings(clockn)
        } else {
            let led = Leds::<8>::new(self.start_channel);
            let mut actions: Vec<Action> = Vec::new();
            let mut n: usize = 0;
            while n < 8
                invariant
                    n <= 8,
                    self.wf(),
                    actions@ =~= self.channels_leds(n as int, clockn as int),
                decreases 8 - n,
            {
                self.show_channel(n, clockn, &mut actions);
                n = n + 1;
            }
            let step: usize = self.current_step(self.page / 2, clockn);
            if step / 8 == self.page % 2 && clockn != 0 {
                actions.push(led.set(step % 8, Led::Button, Color::Red, Brightness::Mid));
            }
            actions.push(led.set(self.page, Led::Bottom, color_of(self.page / 2), Brightness::High));
            actions
        };
        self.led_flag = false;
        actions
    }

    /// Whether a step of a sequence begins at a tick.
    pub open spec fn begins(self, n: int, clockn: int) -> bool {
        clockn % self.armed.clockres[n] as int == 0
    }

    /// The step of a sequence at a tick, among the 64 steps of all sequences.
    pub open spec fn step_at(self, n: int, clockn: int) -> int {
        clockn / self.armed.clockres[n] as int % self.armed.seq_length[n] as int + n * 16
    }

    /// Whether a step of a sequence is played at a tick.
    pub open spec fn plays(self, n: int, clockn: int) -> bool {
        self.begins(n, clockn) && self.armed.gateseq[self.step_at(n, clockn)]
    }

    /// The pitch of a step: the position of its fader within the range of the
    /// sequence, moved up by its octaves, in 16 bits. The quantizer takes 12 bits.
    pub open spec fn pitch(self, n: int, clockn: int) -> int {
        let value = self.seq[self.step_at(n, clockn)] as int;
        let scaled = value * (self.storage.range_fader[n] as int / 1000 + 1) * 410 / 4095;
        clamp_12bit((scaled + self.storage.oct_fader[n] as int / 1000 * 410) % 65536)
    }

    /// What the quantizer is asked for at a tick: the pitches of the steps that
    /// are played.
    pub fn requests(&self, clockn: usize) -> (r: [Option<u16>; 4])
        requires
            self.wf(),
        ensures
            forall|n: int|
                0 <= n < 4 ==> #[trigger] r[n] == (if self.plays(n, clockn as int) {
                    Some(self.pitch(n, clockn as int) as u16)
                } else {
                    None
                }),
    {
        [
            self.request(0, clockn),
            self.request(1, clockn),
            self.request(2, clockn),
            self.request(3, clockn),
        ]
    }

    fn armed_step(&self, n: usize, clockn: usize) -> (r: usize)
        requires
            self.wf(),
            n < 4,
        ensures
            r == self.step_at(n as int, clockn as int),
            n * 16 <= r < 64,
    {
        let res: usize = self.armed.clockres[n];
        let len: usize = self.armed.seq_length[n] as usize;
        assert(2 <= self.armed.clockres@[n as int]);
        assert(1 <= self.armed.seq_length@[n as int] <= 64 - 16 * n);
        clockn / res % len + n * 16
    }

    fn request(&self, n: usize, clockn: usize) -> (r: Option<u16>)
        requires
            self.wf(),
            n < 4,
        ensures
            r == (if self.plays(n as int, clockn as int) {
                Some(self.pitch(n as int, clockn as int) as u16)
            } else {
                None
            }),
            r matches Some(pitch) ==> pitch == self.pitch(n as int, clockn as int) && pitch <= 4095,
    {
        assert(2 <= self.armed.clockres@[n as int] <= 24);
        if clockn % self.armed.clockres[n] != 0 {
            return None;
        }
        let step: usize = self.armed_step(n, clockn);
        if !self.armed.gateseq[step] {
            return None;
        }
        let value: u32 = self.seq[step] as u32;
        let range: u32 = self.storage.range_fader[n] as u32 / 1000 + 1;
        let octave: u16 = self.storage.oct_fader[n] / 1000;
        assert(0 <= value * range <= 65535 * 66) by (nonlinear_arith)
            requires
                0 <= value <= 65535,
                1 <= range <= 66,
        ;
        let scaled: u32 = value * range * 410 / 4095;
        let note: u16 = ((scaled + octave as u32 * 410) % 65536) as u16;
        let (pitch, _) = Quantizer::new(Range::_0_10V).get_quantized_note(note);
        Some(pitch)
    }

    /// The state of a sequence after a tick.
    pub open spec fn track_ticked(self, n: int, clockn: int, note: Quantized) -> Sequencer {
        if self.plays(n, clockn) {
            Sequencer {
                lastnote: spec_array_update(self.lastnote, n, note.note),
                gatelength1: self.gatelength,
                ..self
            }
        } else {
            self
        }
    }

    /// What a sequence does at a tick: a step that begins ends the last note and
    /// plays its own, if its gate is on; then its gate ends where its length is
    /// over, unless the step is tied.
    pub open spec fn track_actions(self, n: int, clockn: int, note: Quantized) -> Seq<Action> {
        let midi = self.midi(n);
        let after = self.track_ticked(n, clockn, note);
        let length = after.gatelength1[n] as int;
        let ended = clockn >= length && (clockn - length) % self.armed.clockres[n] as int == 0;
        let last = self.step_at(n, clockn - 1);
        (if self.plays(n, clockn) {
            seq![
                midi.note_off(self.lastnote[n]),
                midi.note_on(note.note, 4095),
                self.cv(n, note.counts),
                self.gate(n, true),
            ]
        } else if self.begins(n, clockn) {
            seq![midi.note_off(self.lastnote[n]), self.gate(n, false)]
        } else {
            Seq::empty()
        }) + (if ended && self.armed.gateseq[last] && !self.armed.legato_seq[last] {
            seq![self.gate(n, false), midi.note_off(after.lastnote[n])]
        } else {
            Seq::empty()
        })
    }

    fn play_track(&mut self, n: usize, clockn: usize, note: Quantized, actions: &mut Vec<Action>)
        requires
            old(self).wf(),
            n < 4,
        ensures
            *final(self) == old(self).track_ticked(n as int, clockn as int, note),
            final(self).wf(),
            final(actions)@ == old(actions)@ + old(self).track_actions(
                n as int,
                clockn as int,
                note,
            ),
    {
        assert(2 <= self.armed.clockres@[n as int] <= 24);
        let midi = self.midi_port(n);
        let res: usize = self.armed.clockres[n];
        if clockn % res == 0 {
            let step: usize = self.armed_step(n, clockn);
            actions.push(midi.send_note_off(self.lastnote[n]));
            if self.armed.gateseq[step] {
                self.lastnote[n] = note.note;
                actions.push(midi.send_note_on(self.lastnote[n], 4095));
                self.gatelength1 = self.gatelength;
                actions.push(self.cv_out(n).set_value(note.counts));
                actions.push(self.gate_out(n).set_high());
            } else {
                actions.push(self.gate_out(n).set_low());
            }
        }
        let length: usize = self.gatelength1[n] as usize;
        assert(1 <= self.gatelength1@[n as int]);
        if clockn >= length && (clockn - length) % res == 0 {
            let last: usize = self.armed_step(n, clockn - 1);
            if self.armed.gateseq[last] && !self.armed.legato_seq[last] {
                actions.push(self.gate_out(n).set_low());
                actions.push(midi.send_note_off(self.lastnote[n]));
            }
        }
    }

    /// All notes and gates ended.
    pub open spec fn silenced(self) -> Seq<Action> {
        seq![
            self.midi(0).note_off(self.lastnote[0]),
            self.gate(0, false),
            self.midi(1).note_off(self.lastnote[1]),
            self.gate(1, false),
            self.midi(2).note_off(self.lastnote[2]),
            self.gate(2, false),
            self.midi(3).note_off(self.lastnote[3]),
            self.gate(3, false),
        ]
    }

    fn silence(&self) -> (r: Vec<Action>)
        requires
            self.wf(),
        ensures
            r@ == self.silenced(),
    {
        vec![
            self.midi_port(0).send_note_off(self.lastnote[0]),
            self.gate_out(0).set_low(),
            self.midi_port(1).send_note_off(self.lastnote[1]),
            self.gate_out(1).set_low(),
            self.midi_port(2).send_note_off(self.lastnote[2]),
            self.gate_out(2).set_low(),
            self.midi_port(3).send_note_off(self.lastnote[3]),
            self.gate_out(3).set_low(),
        ]
    }

    /// The sequences after a tick, one after the other.
    pub open spec fn ticked(self, n: int, clockn: int, notes: [Quantized; 4]) -> Sequencer
        decreases n,
    {
        if n <= 0 {
            self
        } else {
            self.ticked(n - 1, clockn, notes).track_ticked(n - 1, clockn, notes[n - 1])
        }
    }

    /// What the first `n` sequences do at a tick.
    pub open spec fn tick_actions(self, n: int, clockn: int, notes: [Quantized; 4]) -> Seq<Action>
        decreases n,
    {
        if n <= 0 {
            Seq::empty()
        } else {
            self.tick_actions(n - 1, clockn, notes) + self.ticked(
                n - 1,
                clockn,
                notes,
            ).track_actions(n - 1, clockn, notes[n - 1])
        }
    }

    /// The state after an event of the clock.
    pub open spec fn clocked(self, event: ClockEvent, clockn: int, notes: [Quantized; 4]) -> Sequencer {
        (match event {
            ClockEvent::Tick => self.ticked(4, clockn, notes),
            _ => self,
        }).rearmed()
    }

    /// What an event of the clock sets off.
    pub open spec fn clock_actions(
        self,
        event: ClockEvent,
        clockn: int,
        notes: [Quantized; 4],
    ) -> Seq<Action> {
        match event {
            ClockEvent::Tick => self.tick_actions(4, clockn, notes),
            ClockEvent::Reset => self.silenced(),
            ClockEvent::Stop => self.silenced(),
            ClockEvent::Start => Seq::empty(),
        }
    }

    /// An event of the clock. `notes` are the quantized pitches of the steps to be
    /// played.
    pub fn clock_handler(&mut self, event: ClockEvent, clockn: usize, notes: [Quantized; 4]) -> (r:
        Vec<Action>)
        requires
            old(self).wf(),
        ensures
            *final(self) == old(self).clocked(event, clockn as int, notes),
            final(self).wf(),
            r@ == old(self).clock_actions(event, clockn as int, notes),
    {
        let mut actions: Vec<Action> = Vec::new();
        match event {
            ClockEvent::Reset => {
                actions = self.silence();
            },
            ClockEvent::Stop => {
                actions = self.silence();
            },
            ClockEvent::Tick => {
                let mut n: usize = 0;
                while n < 4
                    invariant
                        n <= 4,
                        self.wf(),
                        *self == old(self).ticked(n as int, clockn as int, notes),
                        actions@ =~= old(self).tick_actions(n as int, clockn as int, notes),
                    decreases 4 - n,
                {
                    self.play_track(n, clockn, notes[n], &mut actions);
                    n = n + 1;
                }
            },
            ClockEvent::Start => {},
        }
        self.rearm();
        actions
    }

    /// A scene was loaded into the storage.
    pub fn load_scene(&mut self, storage: Storage)
        requires
            old(self).wf(),
            storage.wf(),
        ensures
            *final(self) == old(self).loaded(storage),
            final(self).wf(),
    {
        self.load(storage);
    }

    /// The state after an event.
    pub open spec fn after(self, event: Event) -> Sequencer {
        match event {
            Event::Shift(shift) => Sequencer {
                latch_layer: if shift {
                    LatchLayer::Alt
                } else {
                    LatchLayer::Main
                },
                ..self
            },
            Event::Fader { chan, value } => self.fader_moved(chan as int, value),
            Event::Down { chan, shift } => self.button_pressed(chan as int, shift),
            Event::LongPress { chan, shift } => self.button_held(chan as int, shift),
            Event::Frame { .. } => Sequencer { led_flag: false, ..self },
            Event::Clock { event, clockn, notes } => self.clocked(event, clockn as int, notes),
            Event::LoadScene(storage) => self.loaded(storage),
            Event::SaveScene(_) => self,
        }
    }

    /// What an event sets off.
    pub open spec fn does(self, event: Event) -> Seq<Action> {
        match event {
            Event::Shift(_) => Seq::empty(),
            Event::Fader { chan, value } => self.fader_actions(chan as int, value),
            Event::Down { shift, .. } => if shift {
                Seq::empty()
            } else {
                seq![Action::Save]
            },
            Event::LongPress { shift, .. } => if shift {
                Seq::empty()
            } else {
                seq![Action::Save, Action::Save]
            },
            Event::Frame { shift, clockn } => self.leds(shift, clockn as int),
            Event::Clock { event, clockn, notes } => self.clock_actions(
                event,
                clockn as int,
                notes,
            ),
            Event::LoadScene(_) => Seq::empty(),
            Event::SaveScene(scene) => seq![Action::SaveScene(scene)],
        }
    }

    /// Whether an event brings what the hardware can bring.
    pub open spec fn admits(event: Event) -> bool {
        match event {
            Event::Fader { chan, value } => chan < 8 && value <= 4095,
            Event::Down { chan, .. } => chan < 8,
            Event::LongPress { chan, .. } => chan < 8,
            Event::LoadScene(storage) => storage.wf(),
            _ => true,
        }
    }

    /// Handles an event.
    pub fn run(&mut self, event: Event) -> (r: Vec<Action>)
        requires
            old(self).wf(),
            Sequencer::admits(event),
        ensures
            *final(self) == old(self).after(event),
            final(self).wf(),
            r@ == old(self).does(event),
    {
        match event {
            Event::Shift(shift) => {
                self.shift_handler(shift);
                Vec::new()
            },
            Event::Fader { chan, value } => self.fader_handler(chan, value),
            Event::Down { chan, shift } => self.button_handler(chan, shift),
            Event::LongPress { chan, shift } => self.button_long_press_handler(chan, shift),
            Event::Frame { shift, clockn } => self.led_handler(shift, clockn),
            Event::Clock { event, clockn, notes } => self.clock_handler(event, clockn, notes),
            Event::LoadScene(storage) => {
                self.load_scene(storage);
                Vec::new()
            },
            Event::SaveScene(scene) => vec![Action::SaveScene(scene)],
        }
    }
}

/// A gate derived from its fader ends before the next step begins, and lasts at
/// least a tick.
pub proof fn law_gate_ends_within_step(res_fader: u16, gate_fader: u16)
    requires
        res_fader <= 4095,
    ensures
        2 <= resolution_of(res_fader) <= 24,
        1 <= gate_of(resolution_of(res_fader), gate_fader) < resolution_of(res_fader),
{
}

/// Pressing a button twice leaves the gates as they were.
pub proof fn law_double_press_restores_gates(app: Sequencer, chan: int)
    requires
        app.wf(),
        0 <= chan < 8,
    ensures
        app.button_pressed(chan, false).button_pressed(chan, false).gateseq == app.gateseq,
{
    let twice = app.button_pressed(chan, false).button_pressed(chan, false);
    assert(twice.gateseq =~= app.gateseq);
}

/// A fader on the main layer changes no step but that of its channel on the page,
/// and one on the settings changes no step at all.
pub proof fn law_faders_edit_one_step(app: Sequencer, chan: int, value: u16, step: int)
    requires
        app.wf(),
        0 <= chan < 8,
        0 <= step < 64,
        app.latch_layer != LatchLayer::Main || step != chan + app.page * 8,
    ensures
        app.fader_moved(chan, value).seq[step] == app.seq[step],
        app.fader_moved(chan, value).gateseq == app.gateseq,
{
}

/// A stop or a reset ends note and gate of every sequence.
pub proof fn law_stop_silences(app: Sequencer, n: int, clockn: int, notes: [Quantized; 4])
    requires
        0 <= n < 4,
    ensures
        app.clock_actions(ClockEvent::Stop, clockn, notes).contains(app.gate(n, false)),
        app.clock_actions(ClockEvent::Stop, clockn, notes).contains(
            app.midi(n).note_off(app.lastnote[n]),
        ),
        app.clock_actions(ClockEvent::Reset, clockn, notes) == app.clock_actions(
            ClockEvent::Stop,
            clockn,
            notes,
        ),
{
    let actions = app.clock_actions(ClockEvent::Stop, clockn, notes);
    assert(actions[2 * n + 1] == app.gate(n, false));
    assert(actions[2 * n] == app.midi(n).note_off(app.lastnote[n]));
}

/// The settings follow their faders: one step per 256 of the length, ticks per
/// step from 24 and 16 down, each half of the one two eighths of the travel before,
/// and a gate of the fader's share of the step, rounded down, but at least a tick
/// and less than the step.
pub proof fn law_settings_follow_faders(fader: u16, res: usize)
    requires
        fader <= 4095,
        2 <= res <= 24,
    ensures
        256 * (length_of(fader) - 1) <= fader < 256 * length_of(fader),
        fader < 512 ==> resolution_of(fader) == 24,
        512 <= fader < 1024 ==> resolution_of(fader) == 16,
        fader + 1024 <= 4095 ==> resolution_of(fader) == 2 * resolution_of((fader + 1024) as u16),
        ({
            let gate = gate_of(res, fader) as int;
            &&& 1 <= gate < res
            &&& 4096 <= res * fader ==> 4096 * gate <= res * fader < 4096 * gate + 4096
            &&& res * fader < 4096 ==> gate == 1
        }),
{
    assert(0 <= res * fader <= res * 4095) by (nonlinear_arith)
        requires
            0 <= fader <= 4095,
            2 <= res,
    ;
}

/// What is played is what is stored, when the app starts and when a scene is
/// loaded: the steps, the gates and the ties, and the lengths, resolutions and gate
/// lengths of the stored positions. A start makes the clock see them.
pub proof fn law_scenes_are_played(
    app: Sequencer,
    unit: App<8>,
    params: Params,
    storage: Storage,
    faders: [u16; 8],
    takeover: TakeoverMode,
    n: int,
)
    requires
        storage.wf(),
        0 <= n < 4,
    ensures
        ({
            let loaded = app.after(Event::LoadScene(storage));
            let started = Sequencer::started(unit, params, storage, faders, takeover);
            &&& loaded.storage == storage && started.storage == storage
            &&& loaded.seq == storage.seq.0 && started.seq == storage.seq.0
            &&& loaded.gateseq == storage.gateseq.0 && started.gateseq == storage.gateseq.0
            &&& loaded.legatoseq == storage.legato_seq.0 && started.legatoseq
                == storage.legato_seq.0
            &&& loaded.seq_length[n] == length_of(storage.length_fader[n])
            &&& started.seq_length[n] == length_of(storage.length_fader[n])
            &&& loaded.clockres[n] == resolution_of(storage.res_fader[n])
            &&& started.clockres[n] == resolution_of(storage.res_fader[n])
            &&& loaded.gatelength[n] == gate_of(
                resolution_of(storage.res_fader[n]),
                storage.gate_fader[n],
            )
            &&& started.gatelength[n] == loaded.gatelength[n]
            &&& started.armed.gateseq == started.gateseq
            &&& started.armed.seq_length == started.seq_length
            &&& started.armed.clockres == started.clockres
            &&& started.armed.legato_seq == started.legatoseq
        }),
{
}

/// A fader that has a value to give stores it and asks for it to be saved. Without
/// shift it is the step of its channel on the page; with shift the first five set
/// the length, the gates, the octave, the range and the resolution of the page's
/// sequence, and what follows from those is followed at once.
pub proof fn law_faders_store_their_values(app: Sequencer, chan: usize, value: u16)
    requires
        app.wf(),
        chan < 8,
        value <= 4095,
        app.latch_layer != LatchLayer::Third,
    ensures
        ({
            let at = chan as int;
            let step = 8 * app.page + chan;
            let n = app.page as int / 2;
            let main = app.latch_layer == LatchLayer::Main;
            let target = if main {
                app.storage.seq.0[step]
            } else if chan == 0 {
                app.storage.length_fader[n]
            } else if chan == 1 {
                app.storage.gate_fader[n]
            } else if chan == 2 {
                app.storage.oct_fader[n]
            } else if chan == 3 {
                app.storage.range_fader[n]
            } else if chan == 4 {
                app.storage.res_fader[n]
            } else {
                0
            };
            let event = Event::Fader { chan, value };
            let before = app.storage;
            let after = app.after(event);
            let emitted = app.latches[at].emits(value, app.latch_layer, target);
            &&& emitted is None ==> after.storage == before && app.does(event).len() == 0
            &&& emitted matches Some(v) ==> {
                &&& main || chan < 5 ==> app.does(event) == seq![Action::Save]
                &&& main ==> after.storage.seq.0[step] == v && after.seq[step] == v
                    && after.storage.length_fader == before.length_fader
                &&& !main && chan == 0 ==> after.storage.length_fader[n] == v
                    && after.seq_length[n] == length_of(v) && after.storage.seq == before.seq
                &&& !main && chan == 1 ==> after.storage.gate_fader[n] == v && after.gatelength[n]
                    == gate_of(app.clockres[n], v)
                &&& !main && chan == 2 ==> after.storage.oct_fader[n] == v
                &&& !main && chan == 3 ==> after.storage.range_fader[n] == v
                &&& !main && chan == 4 ==> after.storage.res_fader[n] == v && after.clockres[n]
                    == resolution_of(v) && after.gatelength[n] == (if app.gatelength[n] as int
                    > resolution_of(v) {
                    resolution_of(v) as int
                } else {
                    app.gatelength[n] as int
                })
            }
            &&& after.latches[at] == app.latches[at].updated(value, app.latch_layer, target)
        }),
{
}

/// A button toggles its step's gate on the page and takes off its tie; held
/// for long it toggles the tie and sets its gate; with shift it turns the page.
/// The steps beside it stay as they are.
pub proof fn law_buttons_edit_steps(app: Sequencer, chan: usize, other: int)
    requires
        app.wf(),
        chan < 8,
        0 <= other < 64,
        other != 8 * app.page + chan,
    ensures
        ({
            let step = 8 * app.page + chan;
            let down = app.after(Event::Down { chan, shift: false });
            let long = app.after(Event::LongPress { chan, shift: false });
            let turn = app.after(Event::Down { chan, shift: true });
            &&& down.gateseq[step] == !app.gateseq[step] && !down.legatoseq[step]
            &&& long.gateseq[step] && long.legatoseq[step] == !app.legatoseq[step]
            &&& down.gateseq[other] == app.gateseq[other] && down.legatoseq[other]
                == app.legatoseq[other]
            &&& long.gateseq[other] == app.gateseq[other] && long.legatoseq[other]
                == app.legatoseq[other]
            &&& down.storage.gateseq.0 == down.gateseq && down.storage.legato_seq.0
                == down.legatoseq
            &&& long.storage.gateseq.0 == long.gateseq && long.storage.legato_seq.0
                == long.legatoseq
            &&& turn == (Sequencer { page: chan, ..app })
            &&& app.after(Event::LongPress { chan, shift: true }) == app
            &&& app.does(Event::Down { chan, shift: false }) == seq![Action::Save]
            &&& app.does(Event::LongPress { chan, shift: false }).contains(Action::Save)
            &&& app.does(Event::Down { chan, shift: true }).len() == 0
        }),
        app.after(Event::Shift(true)) == (Sequencer { latch_layer: LatchLayer::Alt, ..app }),
        app.after(Event::Shift(false)) == (Sequencer { latch_layer: LatchLayer::Main, ..app }),
{
    assert(app.does(Event::LongPress { chan, shift: false })[0] == Action::Save);
}

/// The pitch that a step asks for is its fader's share of one to five octaves, by
/// the thousands of the range, moved up by an octave of 410 counts for every
/// thousand of the octave fader, and stays within 12 bits.
pub proof fn law_pitch_of_steps(app: Sequencer, n: int, clockn: int)
    requires
        app.wf(),
        0 <= n < 4,
        0 <= clockn,
        app.storage.range_fader[n] <= 4095,
        app.storage.oct_fader[n] <= 4095,
        app.seq[app.step_at(n, clockn)] <= 4095,
        0 <= app.step_at(n, clockn) < 64,
    ensures
        ({
            let value = app.seq[app.step_at(n, clockn)] as int;
            let octaves = app.storage.range_fader[n] as int / 1000 + 1;
            let up = 410 * (app.storage.oct_fader[n] as int / 1000);
            let plain = app.pitch(n, clockn) - up;
            &&& 0 <= app.pitch(n, clockn) <= 4095
            &&& 4095 * plain <= 410 * (value * octaves) < 4095 * plain + 4095
        }),
{
    let value = app.seq[app.step_at(n, clockn)] as int;
    let octaves = app.storage.range_fader[n] as int / 1000 + 1;
    assert(0 <= value * octaves <= 4095 * 5) by (nonlinear_arith)
        requires
            0 <= value <= 4095,
            1 <= octaves <= 5,
    ;
}

proof fn lemma_ticked_keeps(app: Sequencer, m: int, clockn: int, notes: [Quantized; 4], n: int)
    requires
        0 <= m <= 4,
        0 <= n < 4,
    ensures
        ({
            let after = app.ticked(m, clockn, notes);
            &&& after.armed == app.armed
            &&& after.start_channel == app.start_channel
            &&& after.params == app.params
            &&& after.gatelength == app.gatelength
            &&& after.gatelength1 == app.gatelength1 || after.gatelength1 == app.gatelength
            &&& after.lastnote[n] == (if n < m && app.plays(n, clockn) {
                notes[n].note
            } else {
                app.lastnote[n]
            })
        }),
    decreases m,
{
    if m > 0 {
        lemma_ticked_keeps(app, m - 1, clockn, notes, n);
    }
}

proof fn lemma_track_part(
    app: Sequencer,
    m: int,
    clockn: int,
    notes: [Quantized; 4],
    n: int,
    action: Action,
)
    requires
        0 <= n < m <= 4,
        app.ticked(n, clockn, notes).track_actions(n, clockn, notes[n]).contains(action),
    ensures
        app.tick_actions(m, clockn, notes).contains(action),
    decreases m,
{
    let before = app.tick_actions(m - 1, clockn, notes);
    let last = app.ticked(m - 1, clockn, notes).track_actions(m - 1, clockn, notes[m - 1]);
    let all = app.tick_actions(m, clockn, notes);
    if n == m - 1 {
        let i = choose|i: int| 0 <= i < last.len() && last[i] == action;
        assert(all[before.len() + i] == action);
    } else {
        lemma_track_part(app, m - 1, clockn, notes, n, action);
        let i = choose|i: int| 0 <= i < before.len() && before[i] == action;
        assert(all[i] == action);
    }
}

proof fn lemma_opened_by_playing(
    app: Sequencer,
    m: int,
    clockn: int,
    notes: [Quantized; 4],
    n: int,
    i: int,
)
    requires
        app.wf(),
        0 <= m <= 4,
        0 <= n < 4,
        0 <= i < app.tick_actions(m, clockn, notes).len(),
        app.tick_actions(m, clockn, notes)[i] == (Action::Gate {
            channel: (app.start_channel + 2 * n + 1) as usize,
            high: true,
        }),
    ensures
        app.plays(n, clockn),
    decreases m,
{
    if m > 0 {
        lemma_ticked_keeps(app, m - 1, clockn, notes, n);
        let before = app.tick_actions(m - 1, clockn, notes);
        if i < before.len() {
            lemma_opened_by_playing(app, m - 1, clockn, notes, n, i);
        } else {
            let last = app.ticked(m - 1, clockn, notes).track_actions(
                m - 1,
                clockn,
                notes[m - 1],
            );
            assert(app.tick_actions(m, clockn, notes)[i] == last[i - before.len()]);
        }
    }
}

/// A step of a sequence begins at every tick that is a whole number of steps of
/// its resolution, round and round its length, among its own sixteen. A step with
/// a gate ends the last note, plays its own on the sequence's channel, puts out
/// its voltage and opens its output; one without closes it. Nothing else opens it.
pub proof fn law_steps_are_played(
    app: Sequencer,
    n: int,
    clockn: usize,
    notes: [Quantized; 4],
    k: int,
)
    requires
        app.wf(),
        0 <= n < 4,
        0 <= k,
        clockn == k * app.armed.clockres[n],
    ensures
        ({
            let event = Event::Clock { event: ClockEvent::Tick, clockn, notes };
            let after = app.after(event);
            let actions = app.does(event);
            let step = 16 * n + k % app.armed.seq_length[n] as int;
            let open = Action::Gate {
                channel: (app.start_channel + 2 * n + 1) as usize,
                high: true,
            };
            let close = Action::Gate {
                channel: (app.start_channel + 2 * n + 1) as usize,
                high: false,
            };
            let on = app.armed.gateseq[step];
            &&& actions.contains(app.midi(n).note_off(app.lastnote[n]))
            &&& on ==> actions.contains(open) && actions.contains(
                app.midi(n).note_on(notes[n].note, 4095),
            ) && actions.contains(
                Action::Dac {
                    channel: (app.start_channel + 2 * n) as usize,
                    value: notes[n].counts,
                },
            ) && after.lastnote[n] == notes[n].note
            &&& !on ==> actions.contains(close) && !actions.contains(open) && after.lastnote[n]
                == app.lastnote[n]
        }),
{
    let res = app.armed.clockres[n] as int;
    assert(2 <= app.armed.clockres@[n]);
    vstd::arithmetic::div_mod::lemma_fundamental_div_mod_converse(clockn as int, res, k, 0);
    let here = app.ticked(n, clockn as int, notes);
    lemma_ticked_keeps(app, n, clockn as int, notes, n);
    lemma_ticked_keeps(app, 4, clockn as int, notes, n);
    let own = here.track_actions(n, clockn as int, notes[n]);
    let off = app.midi(n).note_off(app.lastnote[n]);
    assert(here.begins(n, clockn as int) && app.begins(n, clockn as int));
    assert(here.plays(n, clockn as int) == app.plays(n, clockn as int));
    assert(own[0] == off);
    lemma_track_part(app, 4, clockn as int, notes, n, off);
    if app.plays(n, clockn as int) {
        assert(own[1] == app.midi(n).note_on(notes[n].note, 4095));
        assert(own[2] == app.cv(n, notes[n].counts));
        assert(own[3] == app.gate(n, true));
        lemma_track_part(app, 4, clockn as int, notes, n, own[1]);
        lemma_track_part(app, 4, clockn as int, notes, n, own[2]);
        lemma_track_part(app, 4, clockn as int, notes, n, own[3]);
    } else {
        assert(own[1] == app.gate(n, false));
        lemma_track_part(app, 4, clockn as int, notes, n, own[1]);
        let actions = app.tick_actions(4, clockn as int, notes);
        if actions.contains(app.gate(n, true)) {
            let i = choose|i: int| 0 <= i < actions.len() && actions[i] == app.gate(n, true);
            lemma_opened_by_playing(app, 4, clockn as int, notes, n, i);
        }
    }
}

/// Between the steps of a sequence its output is not opened. A gate that is on and
/// not tied ends, with its note, as many ticks into the step as its length.
pub proof fn law_gates_end_by_length(
    app: Sequencer,
    n: int,
    clockn: usize,
    notes: [Quantized; 4],
    k: int,
    into: int,
)
    requires
        app.wf(),
        0 <= n < 4,
        0 <= k,
        0 < into < app.armed.clockres[n],
        clockn == k * app.armed.clockres[n] + into,
        app.gatelength1[n] == app.gatelength[n],
    ensures
        ({
            let event = Event::Clock { event: ClockEvent::Tick, clockn, notes };
            let actions = app.does(event);
            let step = 16 * n + k % app.armed.seq_length[n] as int;
            let open = Action::Gate {
                channel: (app.start_channel + 2 * n + 1) as usize,
                high: true,
            };
            let close = Action::Gate {
                channel: (app.start_channel + 2 * n + 1) as usize,
                high: false,
            };
            &&& !actions.contains(open)
            &&& app.after(event).lastnote[n] == app.lastnote[n]
            &&& into == app.gatelength[n] && app.armed.gateseq[step]
                && !app.armed.legato_seq[step] ==> actions.contains(close) && actions.contains(
                app.midi(n).note_off(app.lastnote[n]),
            )
        }),
{
    let res = app.armed.clockres[n] as int;
    let at = clockn as int;
    assert(2 <= app.armed.clockres@[n]);
    vstd::arithmetic::div_mod::lemma_fundamental_div_mod_converse(at, res, k, into);
    vstd::arithmetic::div_mod::lemma_fundamental_div_mod_converse(at - 1, res, k, into - 1);
    let here = app.ticked(n, at, notes);
    lemma_ticked_keeps(app, n, at, notes, n);
    lemma_ticked_keeps(app, 4, at, notes, n);
    assert(!app.plays(n, at));
    let actions = app.tick_actions(4, at, notes);
    if actions.contains(app.gate(n, true)) {
        let i = choose|i: int| 0 <= i < actions.len() && actions[i] == app.gate(n, true);
        lemma_opened_by_playing(app, 4, at, notes, n, i);
    }
    let step = 16 * n + k % app.armed.seq_length[n] as int;
    assert(app.step_at(n, at - 1) == step);
    if into == app.gatelength[n] && app.armed.gateseq[step] && !app.armed.legato_seq[step] {
        assert(k * res >= 0) by (nonlinear_arith)
            requires
                k >= 0,
                res > 0,
        ;
        vstd::arithmetic::div_mod::lemma_fundamental_div_mod_converse(at - into, res, k, 0);
        let own = here.track_actions(n, at, notes[n]);
        assert(own[0] == app.gate(n, false));
        assert(own[1] == app.midi(n).note_off(app.lastnote[n]));
        lemma_track_part(app, 4, at, notes, n, own[0]);
        lemma_track_part(app, 4, at, notes, n, own[1]);
    }
}

/// After every event of the clock, the clock sees the sequences as they are.
pub proof fn law_clock_sees_edits(
    app: Sequencer,
    event: ClockEvent,
    clockn: usize,
    notes: [Quantized; 4],
)
    ensures
        ({
            let after = app.after(Event::Clock { event, clockn, notes });
            &&& after.armed.gateseq == app.gateseq
            &&& after.armed.seq_length == app.seq_length
            &&& after.armed.clockres == app.clockres
            &&& after.armed.legato_seq == app.legatoseq
            &&& after.storage == app.storage
        }),
{
    lemma_ticked_edits(app, 4, clockn as int, notes);
}

proof fn lemma_ticked_edits(app: Sequencer, m: int, clockn: int, notes: [Quantized; 4])
    requires
        0 <= m,
    ensures
        app.ticked(m, clockn, notes).gateseq == app.gateseq,
        app.ticked(m, clockn, notes).seq_length == app.seq_length,
        app.ticked(m, clockn, notes).clockres == app.clockres,
        app.ticked(m, clockn, notes).legatoseq == app.legatoseq,
        app.ticked(m, clockn, notes).storage == app.storage,
    decreases m,
{
    if m > 0 {
        lemma_ticked_edits(app, m - 1, clockn, notes);
    }
}

/// Every sequence plays on the MIDI channel of its number.
pub proof fn law_sequences_have_channels(app: Sequencer)
    requires
        1 <= app.params.midi_channel1.0 <= 16,
        1 <= app.params.midi_channel2.0 <= 16,
        1 <= app.params.midi_channel3.0 <= 16,
        1 <= app.params.midi_channel4.0 <= 16,
    ensures
        app.midi(0).midi_channel + 1 == app.params.midi_channel1.0,
        app.midi(1).midi_channel + 1 == app.params.midi_channel2.0,
        app.midi(2).midi_channel + 1 == app.params.midi_channel3.0,
        app.midi(3).midi_channel + 1 == app.params.midi_channel4.0,
{
}

/// With shift the buttons show the tracks, two of them each, the page that is shown
/// brightest, and the upper and then the lower LEDs show its length: lit to its end,
/// brightest where it is now, in orange for the divisions by 2, 4, 8 and 16 and in
/// blue for the others.
pub proof fn law_pages_are_shown(
    app: Sequencer,
    clockn: usize,
    n: int,
    k: int,
    into: int,
    round: int,
    at: int,
    laps: int,
)
    requires
        app.wf(),
        0 <= n < 8,
        ({
            let track = app.page as int / 2;
            let res = app.clockres[track] as int;
            let len = app.seq_length[track] as int;
            &&& res > 0 && 0 <= into < res && clockn == k * res + into
            &&& k == 256 * laps + round && 0 <= round < 256 && 0 <= laps
            &&& len > 0 && 0 <= at < len
            &&& exists|q: int| round == #[trigger] (q * len) + at
        }),
    ensures
        ({
            let shown = app.does(Event::Frame { shift: true, clockn });
            let track = app.page as int / 2;
            let res = app.clockres[track];
            let len = app.seq_length[track];
            let color = if res == 2 || res == 4 || res == 8 || res == 16 {
                Color::Orange
            } else {
                Color::Blue
            };
            let channel = (app.start_channel + n) as usize;
            let bright = |step: int|
                if step >= len {
                    Brightness::Off
                } else if step == at {
                    Brightness::High
                } else {
                    Brightness::Mid
                };
            &&& shown.len() == 24
            &&& shown[n] == led_set(
                channel,
                Led::Button,
                track_color(n / 2),
                if app.page == n {
                    Brightness::High
                } else {
                    Brightness::Mid
                },
            )
            &&& shown[8 + n] == led_set(channel, Led::Top, color, bright(n))
            &&& shown[16 + n] == led_set(channel, Led::Bottom, color, bright(n + 8))
        }),
{
    let track = app.page as int / 2;
    let res = app.clockres[track] as int;
    let len = app.seq_length[track] as int;
    let q = choose|q: int| round == #[trigger] (q * len) + at;
    vstd::arithmetic::div_mod::lemma_fundamental_div_mod_converse(clockn as int, res, k, into);
    vstd::arithmetic::div_mod::lemma_fundamental_div_mod_converse(round, len, q, at);
    let page = app.page_leds();
    let length = app.length_leds(clockn as int);
    assert(length[n] == app.does(Event::Frame { shift: true, clockn })[8 + n]);
    assert(length[8 + n] == app.does(Event::Frame { shift: true, clockn })[16 + n]);
    assert((8 + n) % 8 == n && n % 8 == n);
}

/// Each channel shows a step of the page: its fader at half brightness on the upper
/// LED, and its gate on the button, brighter with legato and dark beyond the length.
/// The lower LED is red where the channel's half of its track is played.
pub proof fn law_channels_are_shown(app: Sequencer, n: int, clockn: int)
    requires
        app.wf(),
        0 <= n < 8,
    ensures
        ({
            let shown = app.channel_leds(n, clockn);
            let channel = (app.start_channel + n) as usize;
            let color = track_color(app.page as int / 2);
            let step = 8 * app.page + n;
            let place = (app.page % 2) * 8 + n;
            let len = app.seq_length[app.page as int / 2];
            let held = (app.page % 2) * 8;
            let beyond = place >= len || len - held > 16;
            let at: int = if app.legatoseq[step] {
                3
            } else {
                2
            };
            &&& shown[0] matches Action::Led {
                channel: lit,
                led: Led::Top,
                msg: crate::tasks::leds::LedMsg::Mode(
                    crate::tasks::leds::LedMode::Static(hue, Brightness::Custom(level)),
                ),
            } && lit == channel && hue == color && (app.seq[step] <= 4095 ==> 32 * level
                <= app.seq[step] < 32 * level + 32)
            &&& shown[1] == led_set(
                channel,
                Led::Button,
                color,
                if app.gateseq[step] {
                    Brightness::Mid
                } else {
                    Brightness::Low
                },
            )
            &&& app.legatoseq[step] ==> shown[2] == led_set(
                channel,
                Led::Button,
                color,
                Brightness::High,
            )
            &&& beyond ==> shown.len() == at + 2 && shown[at] == led_unset(channel, Led::Button)
            &&& !beyond ==> shown.len() == at + 1
            &&& app.step_shown(n / 2, clockn) < 8 ==> shown.last() == (if n % 2 == 0 {
                led_set(channel, Led::Bottom, Color::Red, Brightness::Mid)
            } else {
                led_unset(channel, Led::Bottom)
            })
            &&& 8 <= app.step_shown(n / 2, clockn) < 16 ==> shown.last() == (if n % 2 == 1 {
                led_set(channel, Led::Bottom, Color::Red, Brightness::Mid)
            } else {
                led_unset(channel, Led::Bottom)
            })
        }),
{
}

/// Without shift all channels are shown in order, then the step that is played, in
/// red on its button where the page has it and the clock runs, and last the page on
/// its lower LED.
pub proof fn law_frames_show_channels(app: Sequencer, n: int, clockn: usize)
    requires
        app.wf(),
        0 <= n < 8,
    ensures
        ({
            let shown = app.does(Event::Frame { shift: false, clockn });
            let all = app.channels_leds(8, clockn as int);
            let step = app.step_shown(app.page as int / 2, clockn as int);
            let here = clockn != 0 && 8 * (app.page % 2) <= step < 8 * (app.page % 2) + 8;
            &&& shown.take(all.len() as int) == all
            &&& shown.last() == led_set(
                (app.start_channel + app.page) as usize,
                Led::Bottom,
                track_color(app.page as int / 2),
                Brightness::High,
            )
            &&& 0 <= step < 16 && here ==> shown.len() == all.len() + 2 && shown[all.len() as int]
                == led_set(
                (app.start_channel + step % 8) as usize,
                Led::Button,
                Color::Red,
                Brightness::Mid,
            )
            &&& 0 <= step < 16 && !here ==> shown.len() == all.len() + 1
        }),
        app.channels_leds(n + 1, clockn as int) == app.channels_leds(n, clockn as int)
            + app.channel_leds(n, clockn as int),
        app.channels_leds(0, clockn as int).len() == 0,
        track_color(0) == Color::Yellow,
        track_color(1) == Color::Pink,
        track_color(2) == Color::Cyan,
        track_color(3) == Color::White,
{
}

/// The app starts on what is stored, on its first page, its sequences as a scene of
/// it would be and ready to be played.
pub proof fn law_starts_on_storage(
    app: App<8>,
    params: Params,
    storage: Storage,
    faders: [u16; 8],
    takeover: TakeoverMode,
    n: int,
)
    requires
        0 <= n < 8,
    ensures
        ({
            let s = Sequencer::started(app, params, storage, faders, takeover);
            &&& s.start_channel == app.start_channel && s.params == params && s.storage == storage
            &&& s.latch_layer == LatchLayer::Main && s.page == 0 && s.led_flag
            &&& s.latches[n] == AnalogLatch::initial(faders[n], 25, takeover)
            &&& s.loaded(storage).seq == s.seq && s.seq == storage.seq.0
            &&& s.gateseq == storage.gateseq.0 && s.legatoseq == storage.legato_seq.0
            &&& s.armed.gateseq == s.gateseq && s.armed.legato_seq == s.legatoseq
            &&& s.armed.seq_length == s.seq_length && s.armed.clockres == s.clockres
            &&& s.lastnote[n / 2] == MidiNote(0)
        }),
{
}

/// A frame is shown once: it takes the request for it back and changes nothing else.
pub proof fn law_frames_are_shown_once(app: Sequencer, shift: bool, clockn: usize)
    ensures
        app.after(Event::Frame { shift, clockn }) == (Sequencer { led_flag: false, ..app }),
{
}

/// The parameters of a fresh app, and what it has in its storage.
pub proof fn law_fresh_app(r: Storage, i: int, n: int)
    requires
        call_ensures(Storage::default, (), r),
        0 <= i < 64,
        0 <= n < 4,
    ensures
        ({
            let p = initial_params();
            &&& p.midi_channel1 == MidiChannel(1) && p.midi_channel2 == MidiChannel(2)
            &&& p.midi_channel3 == MidiChannel(3) && p.midi_channel4 == MidiChannel(4)
            &&& p.midi_out == (MidiOut { usb: true, out1: true, out2: true })
        }),
        r.seq.0@[i] == 0,
        r.gateseq.0@[i],
        !r.legato_seq.0@[i],
        r.length_fader@[n] == 3840,
        r.gate_fader@[n] == 2032,
        r.oct_fader@[n] == 0,
        r.range_fader@[n] == 2000,
        r.res_fader@[n] == 2048,
{
}

} // verus!
