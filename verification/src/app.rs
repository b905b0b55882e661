//! What an app sees of the unit: its LEDs, jacks, buttons, faders, clock and MIDI
//! ports. Everything an app does to the hardware is an `Action`.
use vstd::prelude::*;

use crate::latch::{AnalogLatch, TakeoverMode};
use crate::midi::{LiveEvent, MidiMessage};
use crate::tasks::buttons::ButtonFlags;
use crate::tasks::leds::{Led, LedMode, LedMsg};
use crate::tasks::midi::{MidiEvent, MidiEventSource, MidiMsg};
use crate::types::{
    Brightness, ClockEvent, Color, InputEvent, MidiCc, MidiChannel, MidiIn, MidiNote, MidiOut,
    Range,
};
use crate::utils::{scale_bits_12_7, scale_bits_14_12, seven_bits};

verus! {

/// The modes of a jack.
#[derive(Clone, Copy, Debug, PartialEq, Eq, Structural)]
pub enum PortMode {
    /// High impedance.
    Unused,
    /// A gate output.
    Gate,
    /// A voltage output, of -5 to 5 V where it is bipolar, else of 0 to 10 V.
    Output { bipolar: bool },
    /// A voltage input, of -5 to 5 V where it is bipolar, else of 0 to 10 V.
    Input { bipolar: bool },
}

/// What an app does to the hardware, and what it asks of its storage.
#[allow(inconsistent_fields)]
#[derive(Clone, Copy, Debug, PartialEq, Eq, Structural)]
pub enum Action {
    /// Sets or releases an LED.
    Led { channel: usize, led: Led, msg: LedMsg },
    /// Sets the voltage of an output.
    Dac { channel: usize, value: u16 },
    /// Sets the level of a gate.
    Gate { channel: usize, high: bool },
    /// Configures a jack.
    Configure { channel: usize, mode: PortMode, gpo_level: Option<u16> },
    /// Sends a MIDI message, on behalf of the app that starts at a channel.
    Midi { start_channel: usize, msg: MidiMsg },
    /// Reports a value over the I2C bus.
    I2cFader { channel: usize, value: u16, range: Range },
    /// Asks for the storage to be saved once it has been left alone.
    Save,
    /// Saves the storage at once.
    SaveNow,
    /// Saves the storage as a scene.
    SaveScene(u8),
}

/// The place of `chan` among `n` channels; places beyond the last count as the last.
pub open spec fn placed(chan: usize, n: usize) -> usize {
    if chan < n {
        chan
    } else {
        (n - 1) as usize
    }
}

fn place(chan: usize, n: usize) -> (r: usize)
    requires
        n > 0,
    ensures
        r == placed(chan, n),
        r < n,
{
    if chan < n {
        chan
    } else {
        n - 1
    }
}

/// The LEDs of `N` channels.
#[derive(Clone, Copy)]
pub struct Leds<const N: usize> {
    pub start_channel: usize,
}

/// A message for an LED of the channel at a place.
pub open spec fn led_action(start: usize, n: usize, chan: usize, led: Led, msg: LedMsg) -> Action {
    Action::Led { channel: (start + placed(chan, n)) as usize, led, msg }
}

/// An LED that is lit.
pub open spec fn led_set(start: usize, led: Led, color: Color, brightness: Brightness) -> Action {
    Action::Led { channel: start, led, msg: LedMsg::Mode(LedMode::Static(color, brightness)) }
}

/// An LED that shows a mode.
pub open spec fn led_mode(start: usize, led: Led, mode: LedMode) -> Action {
    Action::Led { channel: start, led, msg: LedMsg::Mode(mode) }
}

/// An LED that is released.
pub open spec fn led_unset(start: usize, led: Led) -> Action {
    Action::Led { channel: start, led, msg: LedMsg::Reset }
}

/// The LEDs of a channel, from top to bottom.
pub open spec fn position(i: int) -> Led {
    if i == 0 {
        Led::Top
    } else if i == 1 {
        Led::Bottom
    } else {
        Led::Button
    }
}

/// All LEDs of a channel released.
pub open spec fn channel_unset(channel: usize) -> Seq<Action> {
    seq![
        led_unset(channel, Led::Top),
        led_unset(channel, Led::Bottom),
        led_unset(channel, Led::Button),
    ]
}

/// All LEDs of `n` channels released.
pub open spec fn channels_unset(start: usize, n: usize) -> Seq<Action> {
    Seq::new(
        (3 * n) as nat,
        |i: int| led_unset((start + i / 3) as usize, position(i % 3)),
    )
}

impl<const N: usize> Leds<N> {
    /// Whether there are channels, and all of them can be counted.
    pub open spec fn wf(self) -> bool {
        N > 0 && self.start_channel + N <= usize::MAX
    }

    pub fn new(start_channel: usize) -> (r: Self)
        ensures
            r.start_channel == start_channel,
    {
        Leds { start_channel }
    }

    pub fn set(&self, chan: usize, position: Led, color: Color, brightness: Brightness) -> (r:
        Action)
        requires
            self.wf(),
        ensures
            r == led_action(
                self.start_channel,
                N,
                chan,
                position,
                LedMsg::Mode(LedMode::Static(color, brightness)),
            ),
    {
        Action::Led {
            channel: self.start_channel + place(chan, N),
            led: position,
            msg: LedMsg::Mode(LedMode::Static(color, brightness)),
        }
    }

    pub fn set_mode(&self, chan: usize, position: Led, mode: LedMode) -> (r: Action)
        requires
            self.wf(),
        ensures
            r == led_action(self.start_channel, N, chan, position, LedMsg::Mode(mode)),
    {
        Action::Led {
            channel: self.start_channel + place(chan, N),
            led: position,
            msg: LedMsg::Mode(mode),
        }
    }

    pub fn unset(&self, chan: usize, position: Led) -> (r: Action)
        requires
            self.wf(),
        ensures
            r == led_action(self.start_channel, N, chan, position, LedMsg::Reset),
    {
        Action::Led {
            channel: self.start_channel + place(chan, N),
            led: position,
            msg: LedMsg::Reset,
        }
    }

    pub fn unset_chan(&self, chan: usize) -> (r: Vec<Action>)
        requires
            self.wf(),
        ensures
            r@ == channel_unset((self.start_channel + placed(chan, N)) as usize),
    {
        vec![
            self.unset(chan, Led::Top),
            self.unset(chan, Led::Bottom),
            self.unset(chan, Led::Button),
        ]
    }

    pub fn unset_all(&self) -> (r: Vec<Action>)
        requires
            self.start_channel + N <= usize::MAX,
        ensures
            r@ == channels_unset(self.start_channel, N),
    {
        let mut actions: Vec<Action> = Vec::new();
        let mut chan: usize = 0;
        while chan < N
            invariant
                self.start_channel + N <= usize::MAX,
                chan <= N,
                actions@.len() == 3 * chan,
                forall|i: int|
                    0 <= i < 3 * chan ==> #[trigger] actions@[i] == led_unset(
                        (self.start_channel + i / 3) as usize,
                        position(i % 3),
                    ),
            decreases N - chan,
        {
            actions.push(self.unset(chan, Led::Top));
            actions.push(self.unset(chan, Led::Bottom));
            actions.push(self.unset(chan, Led::Button));
            chan = chan + 1;
        }
        actions
    }
}

/// A voltage input.
#[derive(Clone, Copy, Debug, PartialEq, Eq, Structural)]
pub struct InJack {
    pub channel: usize,
    pub range: Range,
}

/// What an input of a range reads: the converter spans 10 V, so a range of 5 V
/// is stretched to twice its values.
pub open spec fn input_value(range: Range, raw: u16) -> u16 {
    if range == Range::_0_5V {
        if raw > 32767 {
            65535
        } else {
            (raw * 2) as u16
        }
    } else {
        raw
    }
}

impl InJack {
    pub fn new(channel: usize, range: Range) -> (r: Self)
        ensures
            r == (InJack { channel, range }),
    {
        InJack { channel, range }
    }

    /// The value of the input, where its converter reads `raw`.
    pub fn get_value(&self, raw: u16) -> (r: u16)
        ensures
            r == input_value(self.range, raw),
    {
        match self.range {
            Range::_0_5V => {
                if raw > 32767 {
                    65535
                } else {
                    raw * 2
                }
            },
            _ => raw,
        }
    }
}

/// A gate output.
#[derive(Clone, Copy, Debug, PartialEq, Eq, Structural)]
pub struct GateJack {
    pub channel: usize,
}

impl GateJack {
    pub fn new(channel: usize) -> (r: Self)
        ensures
            r == (GateJack { channel }),
    {
        GateJack { channel }
    }

    pub fn set_high(&self) -> (r: Action)
        ensures
            r == (Action::Gate { channel: self.channel, high: true }),
    {
        Action::Gate { channel: self.channel, high: true }
    }

    pub fn set_low(&self) -> (r: Action)
        ensures
            r == (Action::Gate { channel: self.channel, high: false }),
    {
        Action::Gate { channel: self.channel, high: false }
    }
}

/// A voltage output.
#[derive(Clone, Copy, Debug, PartialEq, Eq, Structural)]
pub struct OutJack {
    pub channel: usize,
    pub range: Range,
}

/// What the converter of an output is set to: it spans 10 V, so a range of 5 V
/// takes half the value.
pub open spec fn output_value(range: Range, value: u16) -> u16 {
    if range == Range::_0_5V {
        value / 2
    } else {
        value
    }
}

impl OutJack {
    /// The output set to a value.
    pub open spec fn valued(self, value: u16) -> Action {
        Action::Dac { channel: self.channel, value: output_value(self.range, value) }
    }

    pub fn new(channel: usize, range: Range) -> (r: Self)
        ensures
            r == (OutJack { channel, range }),
    {
        OutJack { channel, range }
    }

    pub fn set_value(&self, value: u16) -> (r: Action)
        ensures
            r == self.valued(value),
    {
        let val: u16 = match self.range {
            Range::_0_5V => value / 2,
            _ => value,
        };
        Action::Dac { channel: self.channel, value: val }
    }
}

/// A 12-bit value written to an output of 0 to 5 V and read back by an input of
/// that range comes back up to its last bit; on the other ranges it comes back
/// as it was.
pub proof fn law_jack_round_trip(range: Range, value: u16)
    requires
        value <= 4095,
    ensures
        range != Range::_0_5V ==> input_value(range, output_value(range, value)) == value,
        range == Range::_0_5V ==> input_value(range, output_value(range, value)) == value / 2 * 2,
{
}

/// Whether a channel is one of `n` from `start` on.
pub open spec fn owns(start: usize, n: usize, channel: usize) -> bool {
    start <= channel < start + n
}

/// The place of an event of the channel among the channels of the app.
pub open spec fn own_place(start: usize, n: usize, channel: usize) -> Option<usize> {
    if owns(start, n, channel) {
        Some((channel - start) as usize)
    } else {
        None
    }
}

/// The buttons of `N` channels.
#[derive(Clone, Copy)]
pub struct Buttons<const N: usize> {
    pub start_channel: usize,
}

impl<const N: usize> Buttons<N> {
    pub open spec fn wf(self) -> bool {
        N > 0 && self.start_channel + N <= usize::MAX
    }

    pub fn new(start_channel: usize) -> (r: Self)
        ensures
            r.start_channel == start_channel,
    {
        Buttons { start_channel }
    }

    fn own(&self, channel: usize, shift: bool) -> (r: Option<(usize, bool)>)
        requires
            self.wf(),
        ensures
            r == (match own_place(self.start_channel, N, channel) {
                Some(chan) => Some((chan, shift)),
                None => None::<(usize, bool)>,
            }),
    {
        if self.start_channel <= channel && channel < self.start_channel + N {
            Some((channel - self.start_channel, shift))
        } else {
            None
        }
    }

    /// The number of the button of the app that an event pressed, and whether
    /// shift was held.
    pub fn wait_for_any_down(&self, event: InputEvent, shift: bool) -> (r: Option<(usize, bool)>)
        requires
            self.wf(),
        ensures
            r == (match event {
                InputEvent::ButtonDown(channel) => match own_place(
                    self.start_channel,
                    N,
                    channel,
                ) {
                    Some(chan) => Some((chan, shift)),
                    None => None::<(usize, bool)>,
                },
                _ => None,
            }),
    {
        match event {
            InputEvent::ButtonDown(channel) => self.own(channel, shift),
            _ => None,
        }
    }

    /// Whether shift was held, where an event pressed the button at a place.
    pub fn wait_for_down(&self, chan: usize, event: InputEvent, shift: bool) -> (r: Option<bool>)
        requires
            self.wf(),
        ensures
            r == (if event == InputEvent::ButtonDown((self.start_channel + placed(chan, N)) as usize) {
                Some(shift)
            } else {
                None
            }),
    {
        let chan: usize = place(chan, N);
        match self.wait_for_any_down(event, shift) {
            Some((channel, shift)) => {
                if channel == chan {
                    Some(shift)
                } else {
                    None
                }
            },
            None => None,
        }
    }

    /// The number of the button of the app that an event released, and whether
    /// shift was held.
    pub fn wait_for_any_up(&self, event: InputEvent, shift: bool) -> (r: Option<(usize, bool)>)
        requires
            self.wf(),
        ensures
            r == (match event {
                InputEvent::ButtonUp(channel) => match own_place(self.start_channel, N, channel) {
                    Some(chan) => Some((chan, shift)),
                    None => None::<(usize, bool)>,
                },
                _ => None,
            }),
    {
        match event {
            InputEvent::ButtonUp(channel) => self.own(channel, shift),
            _ => None,
        }
    }

    /// Whether shift was held, where an event released the button at a place.
    pub fn wait_for_up(&self, chan: usize, event: InputEvent, shift: bool) -> (r: Option<bool>)
        requires
            self.wf(),
        ensures
            r == (if event == InputEvent::ButtonUp((self.start_channel + placed(chan, N)) as usize) {
                Some(shift)
            } else {
                None
            }),
    {
        let chan: usize = place(chan, N);
        match self.wait_for_any_up(event, shift) {
            Some((channel, shift)) => {
                if channel == chan {
                    Some(shift)
                } else {
                    None
                }
            },
            None => None,
        }
    }

    /// The number of the button of the app that was pressed for long, and whether
    /// shift was held.
    pub fn wait_for_any_long_press(&self, event: InputEvent, shift: bool) -> (r: Option<
        (usize, bool),
    >)
        requires
            self.wf(),
        ensures
            r == (match event {
                InputEvent::ButtonLongPress(channel) => match own_place(
                    self.start_channel,
                    N,
                    channel,
                ) {
                    Some(chan) => Some((chan, shift)),
                    None => None::<(usize, bool)>,
                },
                _ => None,
            }),
    {
        match event {
            InputEvent::ButtonLongPress(channel) => self.own(channel, shift),
            _ => None,
        }
    }

    /// Whether shift was held, where the button at a place was pressed for long.
    pub fn wait_for_long_press(&self, chan: usize, event: InputEvent, shift: bool) -> (r: Option<
        bool,
    >)
        requires
            self.wf(),
        ensures
            r == (if event == InputEvent::ButtonLongPress(
                (self.start_channel + placed(chan, N)) as usize,
            ) {
                Some(shift)
            } else {
                None
            }),
    {
        let chan: usize = place(chan, N);
        match self.wait_for_any_long_press(event, shift) {
            Some((channel, shift)) => {
                if channel == chan {
                    Some(shift)
                } else {
                    None
                }
            },
            None => None,
        }
    }

    /// Whether the button at a place is held.
    pub fn is_button_pressed(&self, chan: usize, flags: &ButtonFlags) -> (r: bool)
        requires
            self.wf(),
        ensures
            ({
                let channel = self.start_channel + placed(chan, N);
                r == flags.pressed[if channel <= 15 {
                    channel as int
                } else {
                    15
                }]
            }),
    {
        flags.is_channel_button_pressed(self.start_channel + place(chan, N))
    }

    /// Whether the shift button is held.
    pub fn is_shift_pressed(&self, flags: &ButtonFlags) -> (r: bool)
        ensures
            r == flags.pressed[17],
    {
        flags.is_shift_button_pressed()
    }
}

/// The faders of `N` channels.
#[derive(Clone, Copy)]
pub struct Faders<const N: usize> {
    pub start_channel: usize,
}

impl<const N: usize> Faders<N> {
    /// Whether there are channels, and all of them are channels of the unit.
    pub open spec fn wf(self) -> bool {
        N > 0 && self.start_channel + N <= 16
    }

    pub fn new(start_channel: usize) -> (r: Self)
        ensures
            r.start_channel == start_channel,
    {
        Faders { start_channel }
    }

    /// The number of the fader of the app that an event moved.
    pub fn wait_for_any_change(&self, event: InputEvent) -> (r: Option<usize>)
        requires
            self.wf(),
        ensures
            r == (match event {
                InputEvent::FaderChange(channel) => own_place(self.start_channel, N, channel),
                _ => None,
            }),
    {
        if let InputEvent::FaderChange(channel) = event {
            if self.start_channel <= channel && channel < self.start_channel + N {
                return Some(channel - self.start_channel);
            }
        }
        None
    }

    /// Whether an event moved the fader at a place.
    pub fn wait_for_change_at(&self, chan: usize, event: InputEvent) -> (r: bool)
        requires
            self.wf(),
        ensures
            r == (event == InputEvent::FaderChange((self.start_channel + placed(chan, N)) as usize)),
    {
        let chan: usize = place(chan, N);
        match self.wait_for_any_change(event) {
            Some(channel) => channel == chan,
            None => false,
        }
    }

    /// The value of the fader at a place, from the values of all faders.
    pub fn get_value_at(&self, chan: usize, values: &[u16; 16]) -> (r: u16)
        requires
            self.wf(),
        ensures
            r == values@[self.start_channel + placed(chan, N)],
    {
        values[self.start_channel + place(chan, N)]
    }

    /// The values of the app's faders, from the values of all faders.
    pub fn get_all_values(&self, values: &[u16; 16]) -> (r: [u16; N])
        requires
            self.wf(),
        ensures
            r@ == values@.subrange(
                self.start_channel as int,
                self.start_channel + N,
            ),
    {
        let mut buf: [u16; N] = [0u16; N];
        let mut i: usize = 0;
        while i < N
            invariant
                self.wf(),
                i <= N,
                forall|k: int| 0 <= k < i ==> buf@[k] == values@[self.start_channel + k],
            decreases N - i,
        {
            buf[i] = values[self.start_channel + i];
            i = i + 1;
        }
        assert(buf@ =~= values@.subrange(self.start_channel as int, self.start_channel + N));
        buf
    }
}

impl Faders<1> {
    /// The value of the fader, from the values of all faders.
    pub fn get_value(&self, values: &[u16; 16]) -> (r: u16)
        requires
            self.wf(),
        ensures
            r == values@[self.start_channel as int],
    {
        values[self.start_channel]
    }

    /// Whether an event moved the fader.
    pub fn wait_for_change(&self, event: InputEvent) -> (r: bool)
        requires
            self.wf(),
        ensures
            r == (event == InputEvent::FaderChange(self.start_channel)),
    {
        self.wait_for_any_change(event).is_some()
    }
}

/// The clock as an app follows it.
#[derive(Clone, Copy, Debug, PartialEq, Eq, Structural)]
pub struct Clock {
    pub ticks: u64,
}

impl Clock {
    pub fn new() -> (r: Self)
        ensures
            r.ticks == 0,
    {
        Clock { ticks: 0 }
    }

    /// The clock event that an app with the given division sees: all but the ticks
    /// whose number the division does not divide. `ticks` is the number of the tick.
    pub fn wait_for_event(&mut self, event: ClockEvent, ticks: u64, division: u64) -> (r: Option<
        ClockEvent,
    >)
        requires
            division > 0,
        ensures
            r == (if event == ClockEvent::Tick && ticks % division != 0 {
                None
            } else {
                Some(event)
            }),
            final(self).ticks == ticks,
    {
        self.ticks = ticks;
        match event {
            ClockEvent::Tick => {
                if ticks % division == 0 {
                    Some(ClockEvent::Tick)
                } else {
                    None
                }
            },
            _ => Some(event),
        }
    }

    /// The number of the last tick.
    pub fn get_ticker(&self) -> (r: u64)
        ensures
            r == self.ticks,
    {
        self.ticks
    }
}

/// What happens to the scenes.
#[derive(Clone, Copy, Debug, PartialEq, Eq, Structural)]
pub enum SceneEvent {
    LoadScene(u8),
    SaveScene(u8),
}

/// The reports of `N` channels over the I2C bus.
#[derive(Clone, Copy)]
pub struct I2cOutput<const N: usize> {
    pub start_channel: usize,
}

impl<const N: usize> I2cOutput<N> {
    pub open spec fn wf(self) -> bool {
        N > 0 && self.start_channel + N <= usize::MAX
    }

    pub fn new(start_channel: usize) -> (r: Self)
        ensures
            r.start_channel == start_channel,
    {
        I2cOutput { start_channel }
    }

    /// Reports a value. Reports may be dropped, the next one brings the current value.
    pub fn send_fader_value(&self, chan: usize, value: u16, range: Range) -> (r: Action)
        requires
            self.wf(),
        ensures
            r == (Action::I2cFader {
                channel: (self.start_channel + placed(chan, N)) as usize,
                value,
                range,
            }),
    {
        Action::I2cFader { channel: self.start_channel + place(chan, N), value, range }
    }
}

/// A MIDI port that an app sends to. The channel is counted from zero.
#[derive(Clone, Copy, Debug, PartialEq, Eq, Structural)]
pub struct MidiOutput {
    pub start_channel: usize,
    pub midi_channel: u8,
    pub midi_out: MidiOut,
    pub nrpn_mode: bool,
}

/// A 12-bit value as seven bits.
pub open spec fn seven_bit_value(value: u16) -> u8 {
    ((value * 127 / 4095) % 128) as u8
}

impl MidiOutput {
    /// The port of an app.
    pub open spec fn port(
        start_channel: usize,
        midi_out: MidiOut,
        midi_channel: MidiChannel,
        nrpn_mode: bool,
    ) -> MidiOutput {
        MidiOutput { start_channel, midi_channel: midi_channel.wire(), midi_out, nrpn_mode }
    }

    /// A channel message on its way.
    pub open spec fn message(self, message: MidiMessage) -> Action {
        Action::Midi {
            start_channel: self.start_channel,
            msg: MidiMsg::Live {
                event: LiveEvent::Midi { channel: self.midi_channel, message },
                target: self.midi_out,
                source: MidiEventSource::Local,
            },
        }
    }

    /// A controller change, or a parameter change where those are in use.
    pub open spec fn cc(self, cc: MidiCc, value: u16) -> Action {
        if self.nrpn_mode {
            Action::Midi {
                start_channel: self.start_channel,
                msg: MidiMsg::Nrpn {
                    channel: self.midi_channel,
                    param: cc.0,
                    value,
                    target: self.midi_out,
                },
            }
        } else {
            self.message(
                MidiMessage::Controller {
                    controller: (cc.0 % 128) as u8,
                    value: seven_bit_value(value),
                },
            )
        }
    }

    /// A note that starts.
    pub open spec fn note_on(self, note: MidiNote, velocity: u16) -> Action {
        self.message(
            MidiMessage::NoteOn { key: note.0 % 128, vel: seven_bit_value(velocity) },
        )
    }

    /// A note that ends.
    pub open spec fn note_off(self, note: MidiNote) -> Action {
        self.message(MidiMessage::NoteOff { key: note.0 % 128, vel: 0 })
    }

    pub fn new(midi_out: MidiOut, start_channel: usize, midi_channel: u8, nrpn_mode: bool) -> (r:
        Self)
        ensures
            r == (MidiOutput { start_channel, midi_channel, midi_out, nrpn_mode }),
    {
        MidiOutput { start_channel, midi_channel, midi_out, nrpn_mode }
    }

    fn send_midi_msg(&self, message: MidiMessage) -> (r: Action)
        ensures
            r == self.message(message),
    {
        let event = LiveEvent::Midi { channel: self.midi_channel, message };
        Action::Midi {
            start_channel: self.start_channel,
            msg: MidiMsg::new(event, self.midi_out, MidiEventSource::Local),
        }
    }

    /// Sends a MIDI CC message. In NRPN mode, sends as 14-bit NRPN instead.
    /// value is normalized to a range of 0-4095
    pub fn send_cc(&self, cc: MidiCc, value: u16) -> (r: Action)
        ensures
            r == self.cc(cc, value),
    {
        if self.nrpn_mode {
            Action::Midi {
                start_channel: self.start_channel,
                msg: MidiMsg::nrpn(self.midi_channel, cc.as_u16(), value, self.midi_out),
            }
        } else {
            self.send_midi_msg(
                MidiMessage::Controller {
                    controller: cc.to_wire(),
                    value: scale_bits_12_7(value),
                },
            )
        }
    }

    /// Sends a MIDI NoteOn message.
    /// velocity is normalized to a range of 0-4095
    pub fn send_note_on(&self, note_number: MidiNote, velocity: u16) -> (r: Action)
        ensures
            r == self.note_on(note_number, velocity),
    {
        self.send_midi_msg(
            MidiMessage::NoteOn { key: note_number.to_wire(), vel: scale_bits_12_7(velocity) },
        )
    }

    /// Sends a MIDI NoteOff message.
    pub fn send_note_off(&self, note_number: MidiNote) -> (r: Action)
        ensures
            r == self.note_off(note_number),
    {
        self.send_midi_msg(MidiMessage::NoteOff { key: note_number.to_wire(), vel: 0 })
    }

    /// Sends a MIDI Aftertouch message.
    /// velocity is normalized to a range of 0-4095
    pub fn send_aftertouch(&self, note_number: u8, velocity: u16) -> (r: Action)
        ensures
            r == self.message(
                MidiMessage::Aftertouch {
                    key: note_number % 128,
                    vel: seven_bit_value(velocity),
                },
            ),
    {
        self.send_midi_msg(
            MidiMessage::Aftertouch {
                key: seven_bits(note_number),
                vel: scale_bits_12_7(velocity),
            },
        )
    }

    /// Sends a MIDI PitchBend message.
    /// bend is a value between 0 and 16,383
    pub fn send_pitch_bend(&self, bend: u16) -> (r: Action)
        ensures
            r == self.message(MidiMessage::PitchBend { bend: bend % 16384 }),
    {
        self.send_midi_msg(MidiMessage::PitchBend { bend: bend % 16384 })
    }
}

/// Whatever an app sends is an event that can go out on the wire.
pub proof fn law_app_messages_are_wellformed(
    port: MidiOutput,
    cc: MidiCc,
    note: MidiNote,
    value: u16,
)
    requires
        port.midi_channel < 16,
    ensures
        port.note_on(note, value) matches Action::Midi {
            msg: MidiMsg::Live { event, .. },
            ..
        } && event.wf(),
        port.note_off(note) matches Action::Midi {
            msg: MidiMsg::Live { event, .. },
            ..
        } && event.wf(),
        !port.nrpn_mode ==> (port.cc(cc, value) matches Action::Midi {
            msg: MidiMsg::Live { event, .. },
            ..
        } && event.wf()),
{
}

/// What an app receives over MIDI. Values of parameters have 12 bits.
#[derive(Clone, Copy, Debug, PartialEq, Eq, Structural)]
pub enum AppMidiEvent {
    Message(MidiMessage),
    Nrpn { param: u16, value: u16 },
}

/// The inputs of the unit that bring MIDI events.
#[derive(Clone, Copy, Debug, PartialEq, Eq, Structural)]
pub enum MidiSource {
    Din,
    Usb,
}

/// A MIDI channel that an app listens to. The channel is counted from zero.
#[derive(Clone, Copy, Debug, PartialEq, Eq, Structural)]
pub struct MidiInput {
    pub midi_channel: u8,
    pub din_sub: bool,
    pub usb_sub: bool,
}

impl MidiInput {
    /// Whether the app listens to an input.
    pub open spec fn listens(self, source: MidiSource) -> bool {
        match source {
            MidiSource::Din => self.din_sub,
            MidiSource::Usb => self.usb_sub,
        }
    }

    /// What the app receives of an event.
    pub open spec fn receives(self, source: MidiSource, event: MidiEvent) -> Option<AppMidiEvent> {
        if !self.listens(source) {
            None
        } else {
            match event {
                MidiEvent::Live(LiveEvent::Midi { channel, message }) => if channel
                    == self.midi_channel {
                    Some(AppMidiEvent::Message(message))
                } else {
                    None
                },
                MidiEvent::Nrpn { channel, param, value } => if channel == self.midi_channel {
                    Some(AppMidiEvent::Nrpn { param, value: (value * 4095 / 16383) as u16 })
                } else {
                    None
                },
                _ => None,
            }
        }
    }

    pub fn new(midi_in: MidiIn, midi_channel: u8) -> (r: Self)
        ensures
            r == (MidiInput { midi_channel, din_sub: midi_in.din, usb_sub: midi_in.usb }),
    {
        MidiInput { midi_channel, din_sub: midi_in.din, usb_sub: midi_in.usb }
    }

    fn next_event(&self, source: MidiSource, event: MidiEvent) -> (r: Option<MidiEvent>)
        ensures
            r == (if self.listens(source) {
                Some(event)
            } else {
                None
            }),
    {
        let listens = match source {
            MidiSource::Din => self.din_sub,
            MidiSource::Usb => self.usb_sub,
        };
        if listens {
            Some(event)
        } else {
            None
        }
    }

    /// The standard MIDI message on this channel that an event holds (skips NRPN events).
    pub fn wait_for_message(&self, source: MidiSource, event: MidiEvent) -> (r: Option<MidiMessage>)
        ensures
            r == (match self.receives(source, event) {
                Some(AppMidiEvent::Message(message)) => Some(message),
                _ => None,
            }),
    {
        if let Some(MidiEvent::Live(LiveEvent::Midi { channel, message })) = self.next_event(
            source,
            event,
        ) {
            if channel == self.midi_channel {
                return Some(message);
            }
        }
        None
    }

    /// The MIDI event (standard message or NRPN) on this channel that an event holds.
    pub fn wait_for_event(&self, source: MidiSource, event: MidiEvent) -> (r: Option<AppMidiEvent>)
        ensures
            r == self.receives(source, event),
    {
        match self.next_event(source, event) {
            Some(MidiEvent::Live(LiveEvent::Midi { channel, message })) => {
                if channel == self.midi_channel {
                    return Some(AppMidiEvent::Message(message));
                }
            },
            Some(MidiEvent::Nrpn { channel, param, value }) => {
                if channel == self.midi_channel {
                    return Some(AppMidiEvent::Nrpn { param, value: scale_bits_14_12(value) });
                }
            },
            _ => {},
        }
        None
    }
}

/// A value that several parts of an app share.
pub struct Global<T: Sized> {
    pub inner: T,
}

impl<T: Sized + Copy> Global<T> {
    pub fn new(initial: T) -> (r: Self)
        ensures
            r.inner == initial,
    {
        Global { inner: initial }
    }

    pub fn get(&self) -> (r: T)
        ensures
            r == self.inner,
    {
        self.inner
    }

    pub fn set(&mut self, val: T) -> (r: T)
        ensures
            final(self).inner == val,
            r == val,
    {
        self.inner = val;
        val
    }

    pub fn modify<F>(&mut self, modifier: F) -> (r: T) where F: FnOnce(&T) -> T
        requires
            call_requires(modifier, (&old(self).inner,)),
        ensures
            call_ensures(modifier, (&old(self).inner,), r),
            final(self).inner == r,
    {
        let val = modifier(&self.inner);
        self.inner = val;
        val
    }
}

impl Global<bool> {
    pub fn toggle(&mut self) -> (r: bool)
        ensures
            r == !old(self).inner,
            final(self).inner == r,
    {
        self.inner = !self.inner;
        self.inner
    }
}

impl<T: Sized + Copy + Default> Default for Global<T> {
    fn default() -> (r: Self)
        ensures
            call_ensures(T::default, (), r.inner),
    {
        Global { inner: T::default() }
    }
}

/// A source of random values.
#[derive(Clone, Copy, Debug, PartialEq, Eq, Structural)]
pub struct Die;

impl Die {
    pub fn new() -> (r: Self) {
        Die
    }

    /// A number between 0 and 4095, from two random bytes.
    pub fn roll(&self, b1: u8, b2: u8) -> (r: u16)
        ensures
            r == (b1 + 256 * b2) % 4096,
            r <= 4095,
    {
        (b1 as u16 + 256 * b2 as u16) % 4096
    }
}

/// The way of an app to the quantizer.
#[derive(Clone, Copy, Debug, PartialEq, Eq, Structural)]
pub struct Quantizer {
    pub range: Range,
}

/// What the quantizer makes of a value: the value for the output, and the note.
#[derive(Clone, Copy, Debug, PartialEq, Eq, Structural)]
pub struct Quantized {
    pub counts: u16,
    pub note: MidiNote,
}

impl Quantizer {
    pub fn new(range: Range) -> (r: Self)
        ensures
            r == (Quantizer { range }),
    {
        Quantizer { range }
    }

    /// What the quantizer is asked for: a 12-bit value and the range of the output.
    pub fn get_quantized_note(&self, value: u16) -> (r: (u16, Range))
        ensures
            r.0 == (if value > 4095 {
                4095
            } else {
                value
            }),
            r.1 == self.range,
    {
        let value: u16 = if value > 4095 {
            4095
        } else {
            value
        };
        (value, self.range)
    }
}

/// What can go wrong in an app.
#[derive(Clone, Copy, Debug, PartialEq, Eq, Structural)]
pub enum AppError {
    DeserializeFailed,
}

/// An app of `N` channels.
#[derive(Clone, Copy)]
pub struct App<const N: usize> {
    pub app_id: u8,
    pub start_channel: usize,
    pub layout_id: u8,
}

/// A configuration of the jack at a place.
pub open spec fn configured(
    start: usize,
    n: usize,
    chan: usize,
    mode: PortMode,
    gpo_level: Option<u16>,
) -> Action {
    Action::Configure { channel: (start + placed(chan, n)) as usize, mode, gpo_level }
}

impl<const N: usize> App<N> {
    /// Whether there are channels, and all of them are channels of the unit.
    pub open spec fn wf(self) -> bool {
        N > 0 && self.start_channel + N <= 16
    }

    pub fn new(app_id: u8, start_channel: usize, layout_id: u8) -> (r: Self)
        ensures
            r.app_id == app_id,
            r.start_channel == start_channel,
            r.layout_id == layout_id,
    {
        App { app_id, start_channel, layout_id }
    }

    fn reconfigure_jack(&self, chan: usize, mode: PortMode, gpo_level: Option<u16>) -> (r: Action)
        requires
            self.start_channel + N <= usize::MAX,
            chan < N,
        ensures
            r == configured(self.start_channel, N, chan, mode, gpo_level),
    {
        Action::Configure { channel: self.start_channel + chan, mode, gpo_level }
    }

    pub fn make_global<T: Sized + Copy>(&self, initial: T) -> (r: Global<T>)
        ensures
            r.inner == initial,
    {
        Global::new(initial)
    }

    /// A latch for a fader, in the mode of the global settings.
    pub fn make_latch(&self, initial: u16, takeover_mode: TakeoverMode) -> (r: AnalogLatch)
        ensures
            r == AnalogLatch::initial(initial, 25, takeover_mode),
    {
        AnalogLatch::new(initial, takeover_mode)
    }

    pub fn make_latch_with_mode(&self, initial: u16, mode: TakeoverMode) -> (r: AnalogLatch)
        ensures
            r == AnalogLatch::initial(initial, 25, mode),
    {
        AnalogLatch::new(initial, mode)
    }

    /// Makes the jack at a place a voltage input.
    pub fn make_in_jack(&self, chan: usize, range: Range) -> (r: (InJack, Action))
        requires
            self.wf(),
        ensures
            r.0 == (InJack { channel: (self.start_channel + placed(chan, N)) as usize, range }),
            r.1 == configured(
                self.start_channel,
                N,
                chan,
                PortMode::Input { bipolar: range == Range::_Neg5_5V },
                None,
            ),
    {
        let chan: usize = place(chan, N);
        let bipolar = match range {
            Range::_Neg5_5V => true,
            _ => false,
        };
        let action = self.reconfigure_jack(chan, PortMode::Input { bipolar }, None);
        (InJack::new(self.start_channel + chan, range), action)
    }

    /// Makes the jack at a place a voltage output.
    pub fn make_out_jack(&self, chan: usize, range: Range) -> (r: (OutJack, Action))
        requires
            self.wf(),
        ensures
            r.0 == (OutJack { channel: (self.start_channel + placed(chan, N)) as usize, range }),
            r.1 == configured(
                self.start_channel,
                N,
                chan,
                PortMode::Output { bipolar: range == Range::_Neg5_5V },
                None,
            ),
    {
        let chan: usize = place(chan, N);
        let bipolar = match range {
            Range::_Neg5_5V => true,
            _ => false,
        };
        let action = self.reconfigure_jack(chan, PortMode::Output { bipolar }, None);
        (OutJack::new(self.start_channel + chan, range), action)
    }

    /// Makes the jack at a place a gate output.
    pub fn make_gate_jack(&self, chan: usize, level: u16) -> (r: (GateJack, Action))
        requires
            self.wf(),
        ensures
            r.0 == (GateJack { channel: (self.start_channel + placed(chan, N)) as usize }),
            r.1 == configured(self.start_channel, N, chan, PortMode::Gate, Some(level)),
    {
        let chan: usize = place(chan, N);
        let action = self.reconfigure_jack(chan, PortMode::Gate, Some(level));
        (GateJack::new(self.start_channel + chan), action)
    }

    pub fn use_buttons(&self) -> (r: Buttons<N>)
        ensures
            r.start_channel == self.start_channel,
    {
        Buttons::new(self.start_channel)
    }

    pub fn use_faders(&self) -> (r: Faders<N>)
        ensures
            r.start_channel == self.start_channel,
    {
        Faders::new(self.start_channel)
    }

    pub fn use_leds(&self) -> (r: Leds<N>)
        ensures
            r.start_channel == self.start_channel,
    {
        Leds::new(self.start_channel)
    }

    pub fn use_die(&self) -> (r: Die) {
        Die::new()
    }

    pub fn use_clock(&self) -> (r: Clock)
        ensures
            r.ticks == 0,
    {
        Clock::new()
    }

    pub fn use_quantizer(&self, range: Range) -> (r: Quantizer)
        ensures
            r.range == range,
    {
        Quantizer::new(range)
    }

    pub fn use_midi_input(&self, midi_in: MidiIn, midi_channel: MidiChannel) -> (r: MidiInput)
        ensures
            r == (MidiInput {
                midi_channel: midi_channel.wire(),
                din_sub: midi_in.din,
                usb_sub: midi_in.usb,
            }),
    {
        MidiInput::new(midi_in, midi_channel.to_wire())
    }

    pub fn use_midi_output(
        &self,
        midi_out: MidiOut,
        midi_channel: MidiChannel,
        nrpn_mode: bool,
    ) -> (r: MidiOutput)
        ensures
            r == MidiOutput::port(self.start_channel, midi_out, midi_channel, nrpn_mode),
    {
        MidiOutput::new(midi_out, self.start_channel, midi_channel.to_wire(), nrpn_mode)
    }

    pub fn use_i2c_output(&self) -> (r: I2cOutput<N>)
        ensures
            r.start_channel == self.start_channel,
    {
        I2cOutput::new(self.start_channel)
    }

    /// The scene change that an event stands for.
    pub fn wait_for_scene_event(&self, event: InputEvent) -> (r: Option<SceneEvent>)
        ensures
            r == (match event {
                InputEvent::LoadSceneFromButton(scene) => Some(SceneEvent::LoadScene(scene)),
                InputEvent::LoadSceneFromMidi(scene) => Some(SceneEvent::LoadScene(scene)),
                InputEvent::SaveScene(scene) => Some(SceneEvent::SaveScene(scene)),
                _ => None,
            }),
    {
        match event {
            InputEvent::LoadSceneFromButton(scene) => Some(SceneEvent::LoadScene(scene)),
            InputEvent::LoadSceneFromMidi(scene) => Some(SceneEvent::LoadScene(scene)),
            InputEvent::SaveScene(scene) => Some(SceneEvent::SaveScene(scene)),
            _ => None,
        }
    }

    /// What an app that ends leaves behind: dark LEDs and unused jacks.
    pub fn exit_handler(&self) -> (r: Vec<Action>)
        requires
            self.start_channel + N <= usize::MAX,
        ensures
            r@ == channels_unset(self.start_channel, N) + Seq::new(
                N as nat,
                |i: int|
                    Action::Configure {
                        channel: (self.start_channel + i) as usize,
                        mode: PortMode::Unused,
                        gpo_level: None,
                    },
            ),
    {
        let mut actions = self.use_leds().unset_all();
        let ghost dark = actions@;
        let mut chan: usize = 0;
        while chan < N
            invariant
                self.start_channel + N <= usize::MAX,
                chan <= N,
                dark.len() == 3 * N,
                actions@ =~= dark + Seq::new(
                    chan as nat,
                    |i: int|
                        Action::Configure {
                            channel: (self.start_channel + i) as usize,
                            mode: PortMode::Unused,
                            gpo_level: None,
                        },
                ),
            decreases N - chan,
        {
            actions.push(self.reconfigure_jack(chan, PortMode::Unused, None));
            chan = chan + 1;
        }
        actions
    }
}

/// A note goes out on the port's channel and to its outputs as it is, from the
/// app's own channel; full velocity is 127, and velocities keep their share of
/// full scale. The note that ends has the key of the note that started.
pub proof fn law_notes_go_out(port: MidiOutput, note: MidiNote, velocity: u16)
    requires
        note.0 < 128,
        velocity <= 4095,
    ensures
        port.note_on(note, velocity) matches Action::Midi { start_channel, msg } && start_channel
            == port.start_channel && (msg matches MidiMsg::Live { event, target, source } && target
            == port.midi_out && source == MidiEventSource::Local && (event matches LiveEvent::Midi {
            channel,
            message,
        } && channel == port.midi_channel && (message matches MidiMessage::NoteOn { key, vel } && key
            == note.0 && 4095 * vel <= 127 * velocity < 4095 * vel + 4095))),
        port.note_off(note) matches Action::Midi { start_channel, msg } && start_channel
            == port.start_channel && (msg matches MidiMsg::Live { event, target, source } && target
            == port.midi_out && source == MidiEventSource::Local && (event matches LiveEvent::Midi {
            channel,
            message,
        } && channel == port.midi_channel && message == (MidiMessage::NoteOff {
            key: note.0,
            vel: 0,
        }))),
{
}

/// A controller goes out with seven bits, its value keeping its share of full
/// scale; as a parameter it goes out with the value as it is.
pub proof fn law_controllers_go_out(port: MidiOutput, cc: MidiCc, value: u16)
    requires
        cc.0 < 128,
        value <= 4095,
    ensures
        !port.nrpn_mode ==> (port.cc(cc, value) matches Action::Midi { start_channel, msg }
            && start_channel == port.start_channel && (msg matches MidiMsg::Live {
            event,
            target,
            source,
        } && target == port.midi_out && source == MidiEventSource::Local && (
        event matches LiveEvent::Midi { channel, message } && channel == port.midi_channel && (
        message matches MidiMessage::Controller { controller, value: sent } && controller == cc.0
            && 4095 * sent <= 127 * value < 4095 * sent + 4095)))),
        port.nrpn_mode ==> port.cc(cc, value) == (Action::Midi {
            start_channel: port.start_channel,
            msg: MidiMsg::Nrpn {
                channel: port.midi_channel,
                param: cc.0,
                value,
                target: port.midi_out,
            },
        }),
{
}

/// The port of an app sends from the app's first channel, on the channel of its
/// parameters, to the outputs of its parameters.
pub proof fn law_ports_follow_parameters(
    start: usize,
    out: MidiOut,
    channel: MidiChannel,
    nrpn: bool,
)
    requires
        1 <= channel.0 <= 16,
    ensures
        MidiOutput::port(start, out, channel, nrpn).start_channel == start,
        MidiOutput::port(start, out, channel, nrpn).midi_channel + 1 == channel.0,
        MidiOutput::port(start, out, channel, nrpn).midi_out == out,
        MidiOutput::port(start, out, channel, nrpn).nrpn_mode == nrpn,
{
}

/// An app receives every channel message of its channel from the inputs it
/// listens to, unchanged, and nothing of another channel or input.
pub proof fn law_apps_hear_their_channel(
    input: MidiInput,
    source: MidiSource,
    channel: u8,
    message: MidiMessage,
)
    ensures
        ({
            let event = MidiEvent::Live(LiveEvent::Midi { channel, message });
            let hears = channel == input.midi_channel && match source {
                MidiSource::Din => input.din_sub,
                MidiSource::Usb => input.usb_sub,
            };
            input.receives(source, event) == (if hears {
                Some(AppMidiEvent::Message(message))
            } else {
                None
            })
        }),
{
}

/// An app receives every parameter change of its channel from the inputs it
/// listens to, with the value's share of 14 bits as a share of 12.
pub proof fn law_apps_hear_parameters(
    input: MidiInput,
    source: MidiSource,
    channel: u8,
    param: u16,
    value: u16,
)
    requires
        value <= 16383,
    ensures
        ({
            let event = MidiEvent::Nrpn { channel, param, value };
            let hears = channel == input.midi_channel && match source {
                MidiSource::Din => input.din_sub,
                MidiSource::Usb => input.usb_sub,
            };
            &&& !hears ==> input.receives(source, event) is None
            &&& hears ==> (input.receives(source, event) matches Some(
                AppMidiEvent::Nrpn { param: heard, value: level },
            ) && heard == param && 16383 * level <= 4095 * value < 16383 * level + 16383)
        }),
{
}

/// A channel of the unit belongs to an app where it is one of its channels, in
/// their order; a place beyond the app's channels counts as its last.
pub proof fn law_places_are_in_order(start: usize, n: usize, chan: usize, channel: usize)
    requires
        0 < n,
        start + n <= 16,
    ensures
        chan < n ==> own_place(start, n, (start + chan) as usize) == Some(chan),
        channel < start || channel >= start + n ==> own_place(start, n, channel) is None,
        chan < n ==> placed(chan, n) == chan,
        chan >= n ==> placed(chan, n) + 1 == n,
{
}

/// An LED that is lit shows its color at its brightness until it is told
/// otherwise; releasing a channel releases its three LEDs.
pub proof fn law_led_actions(channel: usize, led: Led, color: Color, brightness: Brightness)
    ensures
        led_set(channel, led, color, brightness) == (Action::Led {
            channel,
            led,
            msg: LedMsg::Mode(LedMode::Static(color, brightness)),
        }),
        led_unset(channel, led) == (Action::Led { channel, led, msg: LedMsg::Reset }),
        channel_unset(channel).contains(Action::Led { channel, led, msg: LedMsg::Reset }),
        channel_unset(channel).len() == 3,
{
    let all = channel_unset(channel);
    match led {
        Led::Top => {
            assert(all[0] == led_unset(channel, led));
        },
        Led::Bottom => {
            assert(all[1] == led_unset(channel, led));
        },
        Led::Button => {
            assert(all[2] == led_unset(channel, led));
        },
    }
}

/// An app that ends releases every LED of its channels.
pub proof fn law_all_leds_are_released(start: usize, n: usize, chan: int, led: Led)
    requires
        start + n <= 16,
        0 <= chan < n,
    ensures
        channels_unset(start, n).contains(
            Action::Led { channel: (start + chan) as usize, led, msg: LedMsg::Reset },
        ),
        channels_unset(start, n).len() == 3 * n,
{
    let all = channels_unset(start, n);
    match led {
        Led::Top => {
            assert(all[3 * chan] == led_unset((start + chan) as usize, led));
        },
        Led::Bottom => {
            assert(all[3 * chan + 1] == led_unset((start + chan) as usize, led));
        },
        Led::Button => {
            assert(all[3 * chan + 2] == led_unset((start + chan) as usize, led));
        },
    }
}

/// An output of 0 to 5 V is set to half the value, so that full scale is half the
/// converter's span; the others are set to the value. An input of 0 to 5 V reads
/// twice the converter's value.
pub proof fn law_jacks_use_their_span(channel: usize, range: Range, value: u16)
    requires
        value <= 4095,
    ensures
        (OutJack { channel, range }).valued(value) matches Action::Dac { channel: c, value: v } && c
            == channel && (range == Range::_0_5V ==> 2 * v <= value < 2 * v + 2) && (range
            != Range::_0_5V ==> v == value),
        range == Range::_0_5V ==> input_value(range, value) == 2 * value,
        range != Range::_0_5V ==> input_value(range, value) == value,
{
}

/// An app sees the presses, the releases and the long presses of the buttons on its
/// own channels and of no others, each with the number of the button in the app and
/// the shift that goes with it.
pub proof fn law_apps_see_their_buttons<const N: usize>(
    buttons: Buttons<N>,
    channel: usize,
    shift: bool,
    down: Option<(usize, bool)>,
    up: Option<(usize, bool)>,
    long: Option<(usize, bool)>,
    other: Option<(usize, bool)>,
)
    requires
        buttons.wf(),
        call_ensures(
            Buttons::<N>::wait_for_any_down,
            (&buttons, InputEvent::ButtonDown(channel), shift),
            down,
        ),
        call_ensures(
            Buttons::<N>::wait_for_any_up,
            (&buttons, InputEvent::ButtonUp(channel), shift),
            up,
        ),
        call_ensures(
            Buttons::<N>::wait_for_any_long_press,
            (&buttons, InputEvent::ButtonLongPress(channel), shift),
            long,
        ),
        call_ensures(
            Buttons::<N>::wait_for_any_down,
            (&buttons, InputEvent::ButtonUp(channel), shift),
            other,
        ),
    ensures
        ({
            let start = buttons.start_channel;
            let own = start <= channel < start + N;
            &&& own ==> down == Some(((channel - start) as usize, shift))
            &&& !own ==> down is None
            &&& up == down && long == down
            &&& other is None
        }),
{
}

/// An app that waits for one of its buttons sees that one alone.
pub proof fn law_apps_wait_for_one_button<const N: usize>(
    buttons: Buttons<N>,
    chan: usize,
    channel: usize,
    shift: bool,
    down: Option<bool>,
    up: Option<bool>,
    long: Option<bool>,
)
    requires
        buttons.wf(),
        chan < N,
        call_ensures(
            Buttons::<N>::wait_for_down,
            (&buttons, chan, InputEvent::ButtonDown(channel), shift),
            down,
        ),
        call_ensures(
            Buttons::<N>::wait_for_up,
            (&buttons, chan, InputEvent::ButtonUp(channel), shift),
            up,
        ),
        call_ensures(
            Buttons::<N>::wait_for_long_press,
            (&buttons, chan, InputEvent::ButtonLongPress(channel), shift),
            long,
        ),
    ensures
        channel == buttons.start_channel + chan ==> down == Some(shift),
        channel != buttons.start_channel + chan ==> down is None,
        up == down,
        long == down,
{
}

/// An app reads the flags of its own buttons and of shift.
pub proof fn law_apps_read_flags<const N: usize>(
    buttons: Buttons<N>,
    chan: usize,
    flags: ButtonFlags,
    held: bool,
    shift: bool,
)
    requires
        buttons.wf(),
        chan < N,
        call_ensures(Buttons::<N>::is_button_pressed, (&buttons, chan, &flags), held),
        call_ensures(Buttons::<N>::is_shift_pressed, (&buttons, &flags), shift),
    ensures
        buttons.start_channel + chan < 16 ==> held == flags.pressed[buttons.start_channel + chan],
        shift == flags.pressed[17],
{
}

/// An app sees the moves of the faders on its own channels and of no others, and
/// reads their positions in order.
pub proof fn law_apps_see_their_faders<const N: usize>(
    faders: Faders<N>,
    chan: usize,
    channel: usize,
    values: [u16; 16],
    moved: Option<usize>,
    here: bool,
    value: u16,
    all: [u16; N],
)
    requires
        faders.wf(),
        chan < N,
        call_ensures(
            Faders::<N>::wait_for_any_change,
            (&faders, InputEvent::FaderChange(channel)),
            moved,
        ),
        call_ensures(
            Faders::<N>::wait_for_change_at,
            (&faders, chan, InputEvent::FaderChange(channel)),
            here,
        ),
        call_ensures(Faders::<N>::get_value_at, (&faders, chan, &values), value),
        call_ensures(Faders::<N>::get_all_values, (&faders, &values), all),
    ensures
        ({
            let start = faders.start_channel;
            let own = start <= channel < start + N;
            &&& own ==> moved == Some((channel - start) as usize)
            &&& !own ==> moved is None
            &&& here == (channel == start + chan)
            &&& value == values[start + chan]
            &&& all[chan as int] == value
        }),
{
    assert(all@[chan as int] == values@[faders.start_channel + chan]);
}

/// A scene is loaded by its button or by MIDI, and saved by its button.
pub proof fn law_apps_see_scenes<const N: usize>(
    app: App<N>,
    scene: u8,
    channel: usize,
    button: Option<SceneEvent>,
    midi: Option<SceneEvent>,
    save: Option<SceneEvent>,
    other: Option<SceneEvent>,
)
    requires
        call_ensures(
            App::<N>::wait_for_scene_event,
            (&app, InputEvent::LoadSceneFromButton(scene)),
            button,
        ),
        call_ensures(
            App::<N>::wait_for_scene_event,
            (&app, InputEvent::LoadSceneFromMidi(scene)),
            midi,
        ),
        call_ensures(App::<N>::wait_for_scene_event, (&app, InputEvent::SaveScene(scene)), save),
        call_ensures(
            App::<N>::wait_for_scene_event,
            (&app, InputEvent::ButtonDown(channel)),
            other,
        ),
    ensures
        button == Some(SceneEvent::LoadScene(scene)),
        midi == button,
        save == Some(SceneEvent::SaveScene(scene)),
        other is None,
{
}

/// An app that ends releases its LEDs and gives every one of its jacks back.
pub proof fn law_jacks_are_given_back<const N: usize>(app: App<N>, r: Vec<Action>, chan: int)
    requires
        app.wf(),
        0 <= chan < N,
        call_ensures(App::<N>::exit_handler, (&app,), r),
    ensures
        r@.contains(
            Action::Configure {
                channel: (app.start_channel + chan) as usize,
                mode: PortMode::Unused,
                gpo_level: None,
            },
        ),
        forall|i: int|
            0 <= i < channels_unset(app.start_channel, N).len() ==> #[trigger] r@[i]
                == channels_unset(app.start_channel, N)[i],
{
    let dark = channels_unset(app.start_channel, N);
    assert(r@[dark.len() + chan] == (Action::Configure {
        channel: (app.start_channel + chan) as usize,
        mode: PortMode::Unused,
        gpo_level: None,
    }));
}

/// A die gives the low twelve bits of its two bytes, and the quantizer is asked for
/// at most full scale.
pub proof fn law_die_and_quantizer(
    die: Die,
    b1: u8,
    b2: u8,
    rolled: u16,
    quantizer: Quantizer,
    value: u16,
    asked: (u16, Range),
)
    requires
        call_ensures(Die::roll, (&die, b1, b2), rolled),
        call_ensures(Quantizer::get_quantized_note, (&quantizer, value), asked),
    ensures
        rolled <= 4095,
        exists|k: int| 0 <= k && b1 + 256 * b2 == rolled + #[trigger] (4096 * k),
        value <= 4095 ==> asked.0 == value,
        value > 4095 ==> asked.0 == 4095,
        asked.1 == quantizer.range,
{
    let k = (b1 + 256 * b2) / 4096;
    assert(b1 + 256 * b2 == rolled + 4096 * k);
}

/// Aftertouch goes out with the share of its velocity in seven bits, and a bend in
/// fourteen.
pub proof fn law_touch_and_bend_go_out(
    port: MidiOutput,
    note: u8,
    velocity: u16,
    bend: u16,
    touch: Action,
    bent: Action,
)
    requires
        note < 128,
        velocity <= 4095,
        bend < 16384,
        call_ensures(MidiOutput::send_aftertouch, (&port, note, velocity), touch),
        call_ensures(MidiOutput::send_pitch_bend, (&port, bend), bent),
    ensures
        bent == port.message(MidiMessage::PitchBend { bend }),
        exists|vel: u8|
            touch == #[trigger] port.message(MidiMessage::Aftertouch { key: note, vel }) && 4095
                * vel <= 127 * velocity < 4095 * vel + 4095,
{
    let vel = seven_bit_value(velocity);
    assert(touch == port.message(MidiMessage::Aftertouch { key: note, vel }));
}

} // verus!
