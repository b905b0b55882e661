//! Live MIDI events and their form on the wire.
use vstd::prelude::*;

use midly::io::Cursor;
use midly::live::LiveEvent as WireEvent;
use midly::num::{u14, u4, u7};
use midly::{MidiMessage as WireMessage, PitchBend};

verus! {

/// A message on a MIDI channel. Data values have seven bits, the bend 14.
#[derive(Clone, Copy, Debug, PartialEq, Eq, Structural)]
pub enum MidiMessage {
    NoteOff { key: u8, vel: u8 },
    NoteOn { key: u8, vel: u8 },
    Aftertouch { key: u8, vel: u8 },
    Controller { controller: u8, value: u8 },
    ProgramChange { program: u8 },
    ChannelAftertouch { vel: u8 },
    PitchBend { bend: u16 },
}

/// The kind of a message on a MIDI channel.
#[derive(Clone, Copy, Debug, PartialEq, Eq, Structural)]
pub enum MessageKind {
    NoteOff,
    NoteOn,
    Aftertouch,
    Controller,
    ProgramChange,
    ChannelAftertouch,
    PitchBend,
}

/// A system common message. The payload of an exclusive or undefined message is
/// not kept; of an exclusive one it is known whether there was any.
#[derive(Clone, Copy, Debug, PartialEq, Eq, Structural)]
pub enum SystemCommon {
    SysEx { has_data: bool },
    MidiTimeCodeQuarterFrame(u8),
    SongPosition(u16),
    SongSelect(u8),
    TuneRequest,
    Undefined(u8),
}

/// A system realtime message.
#[derive(Clone, Copy, Debug, PartialEq, Eq, Structural)]
pub enum SystemRealtime {
    TimingClock,
    Start,
    Continue,
    Stop,
    ActiveSensing,
    Reset,
    Undefined(u8),
}

/// A live MIDI event. The channel is counted from zero.
#[derive(Clone, Copy, Debug, PartialEq, Eq, Structural)]
pub enum LiveEvent {
    Midi { channel: u8, message: MidiMessage },
    Common(SystemCommon),
    Realtime(SystemRealtime),
}

impl MessageKind {
    /// The high half of the status byte.
    pub open spec fn nibble(self) -> int {
        match self {
            MessageKind::NoteOff => 8,
            MessageKind::NoteOn => 9,
            MessageKind::Aftertouch => 10,
            MessageKind::Controller => 11,
            MessageKind::ProgramChange => 12,
            MessageKind::ChannelAftertouch => 13,
            MessageKind::PitchBend => 14,
        }
    }

    /// The kind that a status byte of a channel message stands for.
    pub open spec fn of_status(status: u8) -> MessageKind {
        if status < 0x90 {
            MessageKind::NoteOff
        } else if status < 0xA0 {
            MessageKind::NoteOn
        } else if status < 0xB0 {
            MessageKind::Aftertouch
        } else if status < 0xC0 {
            MessageKind::Controller
        } else if status < 0xD0 {
            MessageKind::ProgramChange
        } else if status < 0xE0 {
            MessageKind::ChannelAftertouch
        } else {
            MessageKind::PitchBend
        }
    }
}

impl MidiMessage {
    /// Whether every field fits its width.
    pub open spec fn wf(self) -> bool {
        match self {
            MidiMessage::NoteOff { key, vel } => key < 128 && vel < 128,
            MidiMessage::NoteOn { key, vel } => key < 128 && vel < 128,
            MidiMessage::Aftertouch { key, vel } => key < 128 && vel < 128,
            MidiMessage::Controller { controller, value } => controller < 128 && value < 128,
            MidiMessage::ProgramChange { program } => program < 128,
            MidiMessage::ChannelAftertouch { vel } => vel < 128,
            MidiMessage::PitchBend { bend } => bend < 16384,
        }
    }

    pub open spec fn kind(self) -> MessageKind {
        match self {
            MidiMessage::NoteOff { .. } => MessageKind::NoteOff,
            MidiMessage::NoteOn { .. } => MessageKind::NoteOn,
            MidiMessage::Aftertouch { .. } => MessageKind::Aftertouch,
            MidiMessage::Controller { .. } => MessageKind::Controller,
            MidiMessage::ProgramChange { .. } => MessageKind::ProgramChange,
            MidiMessage::ChannelAftertouch { .. } => MessageKind::ChannelAftertouch,
            MidiMessage::PitchBend { .. } => MessageKind::PitchBend,
        }
    }

    /// The first field, which is the whole bend of a pitch bend.
    pub open spec fn first(self) -> u16 {
        match self {
            MidiMessage::NoteOff { key, .. } => key as u16,
            MidiMessage::NoteOn { key, .. } => key as u16,
            MidiMessage::Aftertouch { key, .. } => key as u16,
            MidiMessage::Controller { controller, .. } => controller as u16,
            MidiMessage::ProgramChange { program } => program as u16,
            MidiMessage::ChannelAftertouch { vel } => vel as u16,
            MidiMessage::PitchBend { bend } => bend,
        }
    }

    /// The second field, 0 where there is none.
    pub open spec fn second(self) -> u8 {
        match self {
            MidiMessage::NoteOff { vel, .. } => vel,
            MidiMessage::NoteOn { vel, .. } => vel,
            MidiMessage::Aftertouch { vel, .. } => vel,
            MidiMessage::Controller { value, .. } => value,
            _ => 0,
        }
    }

    fn parts(self) -> (r: (MessageKind, u16, u8))
        ensures
            r == (self.kind(), self.first(), self.second()),
    {
        match self {
            MidiMessage::NoteOff { key, vel } => (MessageKind::NoteOff, key as u16, vel),
            MidiMessage::NoteOn { key, vel } => (MessageKind::NoteOn, key as u16, vel),
            MidiMessage::Aftertouch { key, vel } => (MessageKind::Aftertouch, key as u16, vel),
            MidiMessage::Controller { controller, value } => (
                MessageKind::Controller,
                controller as u16,
                value,
            ),
            MidiMessage::ProgramChange { program } => (
                MessageKind::ProgramChange,
                program as u16,
                0,
            ),
            MidiMessage::ChannelAftertouch { vel } => (
                MessageKind::ChannelAftertouch,
                vel as u16,
                0,
            ),
            MidiMessage::PitchBend { bend } => (MessageKind::PitchBend, bend, 0),
        }
    }
}

impl LiveEvent {
    /// Whether every field fits its width, an undefined status byte is one that
    /// stands for no other message, and no payload was left behind.
    pub open spec fn wf(self) -> bool {
        match self {
            LiveEvent::Midi { channel, message } => channel < 16 && message.wf(),
            LiveEvent::Common(SystemCommon::SysEx { has_data }) => !has_data,
            LiveEvent::Common(SystemCommon::MidiTimeCodeQuarterFrame(data)) => data < 128,
            LiveEvent::Common(SystemCommon::SongPosition(position)) => position < 16384,
            LiveEvent::Common(SystemCommon::SongSelect(song)) => song < 128,
            LiveEvent::Common(SystemCommon::TuneRequest) => true,
            LiveEvent::Common(SystemCommon::Undefined(status)) => 0xF1 <= status <= 0xF5,
            LiveEvent::Realtime(SystemRealtime::Undefined(status)) => status == 0xF9 || status
                == 0xFD,
            LiveEvent::Realtime(_) => true,
        }
    }
}

/// The bytes of a message on a channel.
pub open spec fn message_bytes(kind: MessageKind, channel: int, first: int, second: int) -> Seq<u8> {
    let status = (kind.nibble() * 16 + channel) as u8;
    match kind {
        MessageKind::ProgramChange => seq![status, first as u8],
        MessageKind::ChannelAftertouch => seq![status, first as u8],
        MessageKind::PitchBend => seq![status, (first % 128) as u8, (first / 128) as u8],
        _ => seq![status, first as u8, second as u8],
    }
}

/// The status byte of a realtime message.
pub open spec fn realtime_byte(message: SystemRealtime) -> u8 {
    match message {
        SystemRealtime::TimingClock => 0xF8,
        SystemRealtime::Start => 0xFA,
        SystemRealtime::Continue => 0xFB,
        SystemRealtime::Stop => 0xFC,
        SystemRealtime::ActiveSensing => 0xFE,
        SystemRealtime::Reset => 0xFF,
        SystemRealtime::Undefined(status) => status,
    }
}

/// The bytes of an event on the wire.
pub open spec fn event_bytes(event: LiveEvent) -> Seq<u8> {
    match event {
        LiveEvent::Midi { channel, message } => message_bytes(
            message.kind(),
            channel as int,
            message.first() as int,
            message.second() as int,
        ),
        LiveEvent::Common(SystemCommon::SysEx { .. }) => seq![0xF0u8, 0xF7u8],
        LiveEvent::Common(SystemCommon::MidiTimeCodeQuarterFrame(data)) => seq![0xF1u8, data],
        LiveEvent::Common(SystemCommon::SongPosition(position)) => seq![
            0xF2u8,
            (position % 128) as u8,
            (position / 128) as u8,
        ],
        LiveEvent::Common(SystemCommon::SongSelect(song)) => seq![0xF3u8, song],
        LiveEvent::Common(SystemCommon::TuneRequest) => seq![0xF6u8],
        LiveEvent::Common(SystemCommon::Undefined(status)) => seq![status],
        LiveEvent::Realtime(message) => seq![realtime_byte(message)],
    }
}

/// Whether at least `n` data bytes follow the status byte.
pub open spec fn leading_data(raw: Seq<u8>, n: int) -> bool {
    raw.len() > n && forall|i: int| 1 <= i <= n ==> raw[i] < 0x80
}

/// The number of data bytes of a channel message.
pub open spec fn data_len(status: u8) -> int {
    if 0xC0 <= status < 0xE0 {
        1
    } else {
        2
    }
}

/// The shortest bytes of the event that stands at the start of `raw`, with the
/// payload of an exclusive or undefined message left out; none where `raw` does
/// not start with an event.
pub open spec fn leading_event(raw: Seq<u8>) -> Option<Seq<u8>> {
    if raw.len() == 0 || raw[0] < 0x80 || raw[0] == 0xF7 {
        None
    } else if raw[0] < 0xF0 {
        if leading_data(raw, data_len(raw[0])) {
            Some(raw.take(1 + data_len(raw[0])))
        } else {
            None
        }
    } else if raw[0] == 0xF0 {
        Some(seq![0xF0u8, 0xF7u8])
    } else if (raw[0] == 0xF1 || raw[0] == 0xF3) && leading_data(raw, 1) {
        Some(raw.take(2))
    } else if raw[0] == 0xF2 && leading_data(raw, 2) {
        Some(raw.take(3))
    } else {
        Some(raw.take(1))
    }
}

/// `midly::live::LiveEvent::parse`, its result reduced by `to_static` and laid
/// out by `write`: what is read is the event at the start of the bytes, its
/// status byte followed by as many bytes below 0x80 as the event has; later
/// bytes are passed over, and bytes that start with no event give nothing.
#[verifier::external_body]
fn read_event(raw: &[u8]) -> (r: Option<Vec<u8>>)
    ensures
        match r {
            Some(bytes) => leading_event(raw@) == Some(bytes@),
            None => leading_event(raw@) is None,
        },
{
    let event = WireEvent::parse(raw).ok()?.to_static();
    let mut buffer = [0u8; 3];
    let mut cursor = Cursor::new(&mut buffer);
    event.write(&mut cursor).ok()?;
    let used = cursor.cursor();
    Some(buffer[..used].to_vec())
}

/// `midly::live::LiveEvent::write` of a channel message: the status byte, made
/// of the kind and the channel, then its data bytes, a bend low half first.
#[verifier::external_body]
fn write_message(kind: MessageKind, channel: u8, first: u16, second: u8) -> (r: Vec<u8>)
    requires
        channel < 16,
        second < 128,
        first < 16384,
        kind != MessageKind::PitchBend ==> first < 128,
    ensures
        r@ == message_bytes(kind, channel as int, first as int, second as int),
{
    let [key, vel] = [first as u8, second].map(u7::new);
    let message = match kind {
        MessageKind::NoteOff => WireMessage::NoteOff { key, vel },
        MessageKind::NoteOn => WireMessage::NoteOn { key, vel },
        MessageKind::Aftertouch => WireMessage::Aftertouch { key, vel },
        MessageKind::Controller => WireMessage::Controller { controller: key, value: vel },
        MessageKind::ProgramChange => WireMessage::ProgramChange { program: key },
        MessageKind::ChannelAftertouch => WireMessage::ChannelAftertouch { vel: key },
        MessageKind::PitchBend => WireMessage::PitchBend { bend: PitchBend(u14::new(first)) },
    };
    let mut buffer = [0u8; 3];
    let mut cursor = Cursor::new(&mut buffer);
    let _ = WireEvent::Midi { channel: u4::new(channel), message }.write(&mut cursor);
    let used = cursor.cursor();
    buffer[..used].to_vec()
}

/// The message that the bytes of a channel message stand for.
pub open spec fn message_of(bytes: Seq<u8>) -> MidiMessage {
    match MessageKind::of_status(bytes[0]) {
        MessageKind::NoteOff => MidiMessage::NoteOff { key: bytes[1], vel: bytes[2] },
        MessageKind::NoteOn => MidiMessage::NoteOn { key: bytes[1], vel: bytes[2] },
        MessageKind::Aftertouch => MidiMessage::Aftertouch { key: bytes[1], vel: bytes[2] },
        MessageKind::Controller => MidiMessage::Controller {
            controller: bytes[1],
            value: bytes[2],
        },
        MessageKind::ProgramChange => MidiMessage::ProgramChange { program: bytes[1] },
        MessageKind::ChannelAftertouch => MidiMessage::ChannelAftertouch { vel: bytes[1] },
        MessageKind::PitchBend => MidiMessage::PitchBend {
            bend: (bytes[2] * 128 + bytes[1]) as u16,
        },
    }
}

/// The event that its bytes stand for.
pub open spec fn event_of(bytes: Seq<u8>) -> LiveEvent {
    let status = bytes[0];
    if status < 0xF0 {
        LiveEvent::Midi { channel: status % 16, message: message_of(bytes) }
    } else if status >= 0xF8 {
        LiveEvent::Realtime(
            if status == 0xF8 {
                SystemRealtime::TimingClock
            } else if status == 0xFA {
                SystemRealtime::Start
            } else if status == 0xFB {
                SystemRealtime::Continue
            } else if status == 0xFC {
                SystemRealtime::Stop
            } else if status == 0xFE {
                SystemRealtime::ActiveSensing
            } else if status == 0xFF {
                SystemRealtime::Reset
            } else {
                SystemRealtime::Undefined(status)
            },
        )
    } else {
        LiveEvent::Common(
            if status == 0xF0 {
                SystemCommon::SysEx { has_data: false }
            } else if status == 0xF1 && bytes.len() == 2 {
                SystemCommon::MidiTimeCodeQuarterFrame(bytes[1])
            } else if status == 0xF2 && bytes.len() == 3 {
                SystemCommon::SongPosition((bytes[2] * 128 + bytes[1]) as u16)
            } else if status == 0xF3 && bytes.len() == 2 {
                SystemCommon::SongSelect(bytes[1])
            } else if status == 0xF6 {
                SystemCommon::TuneRequest
            } else {
                SystemCommon::Undefined(status)
            },
        )
    }
}

/// The event that `raw` starts with.
pub open spec fn parsed(raw: Seq<u8>) -> Option<LiveEvent> {
    match leading_event(raw) {
        Some(bytes) => Some(event_of(bytes)),
        None => None,
    }
}

fn decode_message(bytes: &Vec<u8>) -> (r: MidiMessage)
    requires
        bytes@.len() == 1 + data_len(bytes@[0]),
        0x80 <= bytes@[0] < 0xF0,
        forall|i: int| 1 <= i < bytes@.len() ==> bytes@[i] < 0x80,
    ensures
        r == message_of(bytes@),
        r.wf(),
{
    let status: u8 = bytes[0];
    let first: u8 = bytes[1];
    if status >= 0xC0 && status < 0xD0 {
        return MidiMessage::ProgramChange { program: first };
    }
    if status >= 0xD0 && status < 0xE0 {
        return MidiMessage::ChannelAftertouch { vel: first };
    }
    let second: u8 = bytes[2];
    if status < 0x90 {
        MidiMessage::NoteOff { key: first, vel: second }
    } else if status < 0xA0 {
        MidiMessage::NoteOn { key: first, vel: second }
    } else if status < 0xB0 {
        MidiMessage::Aftertouch { key: first, vel: second }
    } else if status < 0xC0 {
        MidiMessage::Controller { controller: first, value: second }
    } else {
        MidiMessage::PitchBend { bend: second as u16 * 128 + first as u16 }
    }
}

fn decode_common(bytes: &Vec<u8>) -> (r: SystemCommon)
    requires
        1 <= bytes@.len() <= 3,
        0xF0 <= bytes@[0] < 0xF8,
        bytes@.len() == 3 ==> bytes@[1] < 0x80 && bytes@[2] < 0x80,
    ensures
        LiveEvent::Common(r) == event_of(bytes@),
{
    let status: u8 = bytes[0];
    let len: usize = bytes.len();
    if status == 0xF0 {
        SystemCommon::SysEx { has_data: false }
    } else if status == 0xF1 && len == 2 {
        SystemCommon::MidiTimeCodeQuarterFrame(bytes[1])
    } else if status == 0xF2 && len == 3 {
        SystemCommon::SongPosition(bytes[2] as u16 * 128 + bytes[1] as u16)
    } else if status == 0xF3 && len == 2 {
        SystemCommon::SongSelect(bytes[1])
    } else if status == 0xF6 {
        SystemCommon::TuneRequest
    } else {
        SystemCommon::Undefined(status)
    }
}

impl SystemRealtime {
    /// The message of a status byte.
    pub fn new(status: u8) -> (r: SystemRealtime)
        requires
            status >= 0xF8,
        ensures
            LiveEvent::Realtime(r) == event_of(seq![status]),
    {
        if status == 0xF8 {
            SystemRealtime::TimingClock
        } else if status == 0xFA {
            SystemRealtime::Start
        } else if status == 0xFB {
            SystemRealtime::Continue
        } else if status == 0xFC {
            SystemRealtime::Stop
        } else if status == 0xFE {
            SystemRealtime::ActiveSensing
        } else if status == 0xFF {
            SystemRealtime::Reset
        } else {
            SystemRealtime::Undefined(status)
        }
    }

    /// The status byte of the message.
    pub fn encode(self) -> (r: u8)
        ensures
            r == realtime_byte(self),
    {
        match self {
            SystemRealtime::TimingClock => 0xF8,
            SystemRealtime::Start => 0xFA,
            SystemRealtime::Continue => 0xFB,
            SystemRealtime::Stop => 0xFC,
            SystemRealtime::ActiveSensing => 0xFE,
            SystemRealtime::Reset => 0xFF,
            SystemRealtime::Undefined(status) => status,
        }
    }
}

/// The bytes that are read of an event start with that event alone.
pub proof fn lemma_leading_event(raw: Seq<u8>)
    ensures
        leading_event(raw) matches Some(bytes) ==> leading_event(bytes) == Some(bytes),
{
    if let Some(bytes) = leading_event(raw) {
        assert(bytes.take(bytes.len() as int) =~= bytes);
        assert(bytes[0] == raw[0]);
    }
}

impl LiveEvent {
    /// The event that its bytes stand for.
    pub fn decode(bytes: &Vec<u8>) -> (r: LiveEvent)
        requires
            leading_event(bytes@) == Some(bytes@),
        ensures
            r == event_of(bytes@),
            r.wf(),
    {
        let status: u8 = bytes[0];
        if status < 0xF0 {
            let message = decode_message(bytes);
            LiveEvent::Midi { channel: status % 16, message }
        } else if status >= 0xF8 {
            LiveEvent::Realtime(SystemRealtime::new(status))
        } else {
            LiveEvent::Common(decode_common(bytes))
        }
    }

    /// Reads the event at the start of `raw`.
    pub fn parse(raw: &[u8]) -> (r: Option<LiveEvent>)
        ensures
            r == parsed(raw@),
            r matches Some(event) ==> event.wf(),
    {
        proof {
            lemma_leading_event(raw@);
        }
        match read_event(raw) {
            Some(bytes) => Some(LiveEvent::decode(&bytes)),
            None => None,
        }
    }

    /// The bytes of the event on the wire.
    pub fn to_bytes(&self) -> (r: Vec<u8>)
        requires
            self.wf(),
        ensures
            r@ == event_bytes(*self),
            1 <= r@.len() <= 3,
    {
        match *self {
            LiveEvent::Midi { channel, message } => {
                let (kind, first, second) = message.parts();
                write_message(kind, channel, first, second)
            },
            LiveEvent::Common(common) => match common {
                SystemCommon::SysEx { .. } => vec![0xF0u8, 0xF7u8],
                SystemCommon::MidiTimeCodeQuarterFrame(data) => vec![0xF1u8, data],
                SystemCommon::SongPosition(position) => vec![
                    0xF2u8,
                    (position % 128) as u8,
                    (position / 128) as u8,
                ],
                SystemCommon::SongSelect(song) => vec![0xF3u8, song],
                SystemCommon::TuneRequest => vec![0xF6u8],
                SystemCommon::Undefined(status) => vec![status],
            },
            LiveEvent::Realtime(message) => vec![message.encode()],
        }
    }
}

/// What is written for an event reads back as that event, whatever follows it,
/// save for an undefined status byte that what follows completes to another
/// message.
pub proof fn law_wire_round_trip(event: LiveEvent, rest: Seq<u8>)
    requires
        event.wf(),
        event matches LiveEvent::Common(SystemCommon::Undefined(status)) ==> {
            &&& !((status == 0xF1 || status == 0xF3) && leading_data(seq![status] + rest, 1))
            &&& !(status == 0xF2 && leading_data(seq![status] + rest, 2))
        },
    ensures
        parsed(event_bytes(event) + rest) == Some(event),
{
    let bytes = event_bytes(event);
    let raw = bytes + rest;
    assert(raw[0] == bytes[0]);
    match event {
        LiveEvent::Midi { channel, message } => {
            let n = data_len(bytes[0]);
            assert(bytes.len() == 1 + n);
            assert(raw.take(1 + n) =~= bytes);
            assert(forall|i: int| 1 <= i <= n ==> raw[i] == bytes[i]);
            assert(bytes[0] % 16 == channel);
        },
        LiveEvent::Common(common) => {
            if bytes.len() > 1 {
                assert(raw[1] == bytes[1]);
            }
            if bytes.len() > 2 {
                assert(raw[2] == bytes[2]);
            }
            assert(raw.take(bytes.len() as int) =~= bytes);
        },
        LiveEvent::Realtime(message) => {
            assert(raw.take(1) =~= bytes);
        },
    }
}

/// The bytes of the channel messages: a status byte from 0x80 on, sixteen per
/// kind, whose low half is the channel, then the fields; a bend goes out low half
/// first. Whatever starts with such bytes is read as that message.
pub proof fn law_channel_messages_on_the_wire(channel: u8, a: u8, b: u8, bend: u16)
    requires
        channel < 16,
        a < 128,
        b < 128,
        bend < 16384,
    ensures
        event_bytes(LiveEvent::Midi { channel, message: MidiMessage::NoteOff { key: a, vel: b } })
            == seq![(0x80 + channel) as u8, a, b],
        event_bytes(LiveEvent::Midi { channel, message: MidiMessage::NoteOn { key: a, vel: b } })
            == seq![(0x90 + channel) as u8, a, b],
        event_bytes(
            LiveEvent::Midi { channel, message: MidiMessage::Aftertouch { key: a, vel: b } },
        ) == seq![(0xA0 + channel) as u8, a, b],
        event_bytes(
            LiveEvent::Midi {
                channel,
                message: MidiMessage::Controller { controller: a, value: b },
            },
        ) == seq![(0xB0 + channel) as u8, a, b],
        event_bytes(LiveEvent::Midi { channel, message: MidiMessage::ProgramChange { program: a } })
            == seq![(0xC0 + channel) as u8, a],
        event_bytes(LiveEvent::Midi { channel, message: MidiMessage::ChannelAftertouch { vel: a } })
            == seq![(0xD0 + channel) as u8, a],
        ({
            let bytes = event_bytes(
                LiveEvent::Midi { channel, message: MidiMessage::PitchBend { bend } },
            );
            bytes.len() == 3 && bytes[0] == 0xE0 + channel && bytes[1] < 128 && bytes[2] < 128
                && bytes[1] + 128 * bytes[2] == bend
        }),
        parsed(seq![(0x80 + channel) as u8, a, b]) == Some(
            LiveEvent::Midi { channel, message: MidiMessage::NoteOff { key: a, vel: b } },
        ),
        parsed(seq![(0x90 + channel) as u8, a, b]) == Some(
            LiveEvent::Midi { channel, message: MidiMessage::NoteOn { key: a, vel: b } },
        ),
        parsed(seq![(0xB0 + channel) as u8, a, b]) == Some(
            LiveEvent::Midi {
                channel,
                message: MidiMessage::Controller { controller: a, value: b },
            },
        ),
{
    let off = LiveEvent::Midi { channel, message: MidiMessage::NoteOff { key: a, vel: b } };
    let on = LiveEvent::Midi { channel, message: MidiMessage::NoteOn { key: a, vel: b } };
    let cc = LiveEvent::Midi {
        channel,
        message: MidiMessage::Controller { controller: a, value: b },
    };
    law_wire_round_trip(off, Seq::<u8>::empty());
    law_wire_round_trip(on, Seq::<u8>::empty());
    law_wire_round_trip(cc, Seq::<u8>::empty());
    assert(event_bytes(off) + Seq::<u8>::empty() =~= seq![(0x80 + channel) as u8, a, b]);
    assert(event_bytes(on) + Seq::<u8>::empty() =~= seq![(0x90 + channel) as u8, a, b]);
    assert(event_bytes(cc) + Seq::<u8>::empty() =~= seq![(0xB0 + channel) as u8, a, b]);
}

/// The bytes of the realtime messages, each of which is read as that message.
pub proof fn law_realtime_messages_on_the_wire()
    ensures
        event_bytes(LiveEvent::Realtime(SystemRealtime::TimingClock)) == seq![0xF8u8],
        event_bytes(LiveEvent::Realtime(SystemRealtime::Start)) == seq![0xFAu8],
        event_bytes(LiveEvent::Realtime(SystemRealtime::Continue)) == seq![0xFBu8],
        event_bytes(LiveEvent::Realtime(SystemRealtime::Stop)) == seq![0xFCu8],
        event_bytes(LiveEvent::Realtime(SystemRealtime::ActiveSensing)) == seq![0xFEu8],
        event_bytes(LiveEvent::Realtime(SystemRealtime::Reset)) == seq![0xFFu8],
        parsed(seq![0xF8u8]) == Some(LiveEvent::Realtime(SystemRealtime::TimingClock)),
        parsed(seq![0xFAu8]) == Some(LiveEvent::Realtime(SystemRealtime::Start)),
        parsed(seq![0xFBu8]) == Some(LiveEvent::Realtime(SystemRealtime::Continue)),
        parsed(seq![0xFCu8]) == Some(LiveEvent::Realtime(SystemRealtime::Stop)),
        parsed(seq![0xFFu8]) == Some(LiveEvent::Realtime(SystemRealtime::Reset)),
{
    assert forall|b: u8| 0xF8 <= b implies #[trigger] seq![b].take(1) == seq![b] by {
        assert(seq![b].take(1) =~= seq![b]);
    }
}

/// The bytes of the system messages: a quarter frame and a song have one data byte,
/// a position two of seven bits each, low half first, and the others none. A status
/// byte of one that lacks its data, or that stands for none, is kept as it is.
pub proof fn law_common_messages_on_the_wire(a: u8, b: u8, position: u16)
    requires
        a < 128,
        b < 128,
        position == 128 * b + a,
    ensures
        event_bytes(LiveEvent::Common(SystemCommon::MidiTimeCodeQuarterFrame(a))) == seq![0xF1u8, a],
        event_bytes(LiveEvent::Common(SystemCommon::SongPosition(position))) == seq![0xF2u8, a, b],
        event_bytes(LiveEvent::Common(SystemCommon::SongSelect(a))) == seq![0xF3u8, a],
        event_bytes(LiveEvent::Common(SystemCommon::TuneRequest)) == seq![0xF6u8],
        event_bytes(LiveEvent::Common(SystemCommon::SysEx { has_data: false })) == seq![
            0xF0u8,
            0xF7u8,
        ],
        parsed(seq![0xF1u8, a]) == Some(
            LiveEvent::Common(SystemCommon::MidiTimeCodeQuarterFrame(a)),
        ),
        parsed(seq![0xF2u8, a, b]) == Some(
            LiveEvent::Common(SystemCommon::SongPosition(position)),
        ),
        parsed(seq![0xF3u8, a]) == Some(LiveEvent::Common(SystemCommon::SongSelect(a))),
        parsed(seq![0xF6u8]) == Some(LiveEvent::Common(SystemCommon::TuneRequest)),
        parsed(seq![0xF2u8, a]) == Some(LiveEvent::Common(SystemCommon::Undefined(0xF2))),
        parsed(seq![0xF4u8]) == Some(LiveEvent::Common(SystemCommon::Undefined(0xF4))),
{
    assert(seq![0xF1u8, a].take(2) =~= seq![0xF1u8, a]);
    assert(seq![0xF2u8, a, b].take(3) =~= seq![0xF2u8, a, b]);
    assert(seq![0xF3u8, a].take(2) =~= seq![0xF3u8, a]);
    assert(seq![0xF6u8].take(1) =~= seq![0xF6u8]);
    assert(seq![0xF2u8, a].take(1) =~= seq![0xF2u8]);
    assert(seq![0xF4u8].take(1) =~= seq![0xF4u8]);
}

/// Bytes are no event where there are none, where the first is a data byte or the
/// end of an exclusive message, and where a channel message lacks a data byte. Any
/// other bytes are one.
pub proof fn law_only_whole_events_are_read(raw: Seq<u8>)
    ensures
        raw.len() == 0 ==> parsed(raw) is None,
        raw.len() > 0 && (raw[0] < 0x80 || raw[0] == 0xF7) ==> parsed(raw) is None,
        raw.len() > 0 && 0x80 <= raw[0] < 0xF0 ==> (parsed(raw) is Some) == (raw.len() > 1 && raw[1]
            < 0x80 && (0xC0 <= raw[0] < 0xE0 || (raw.len() > 2 && raw[2] < 0x80))),
        raw.len() > 0 && 0xF0 <= raw[0] && raw[0] != 0xF7 ==> parsed(raw) is Some,
{
    if raw.len() > 1 {
        assert(leading_data(raw, 1) == (raw[1] < 0x80));
    }
    if raw.len() > 2 {
        assert(leading_data(raw, 2) == (raw[1] < 0x80 && raw[2] < 0x80));
    }
}

} // verus!
