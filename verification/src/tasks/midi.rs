//! Distribution of MIDI messages between the apps, the outputs and the inputs.
use vstd::prelude::*;

use crate::midi::{
    event_bytes, parsed, LiveEvent, MidiMessage, SystemCommon, SystemRealtime,
};
use crate::stream::{
    fed, pending, read_stream, stream_events, stream_new, MidiStreamBuffer,
};
use crate::types::{ClockInEvent, ClockSrc, MidiOut, MidiOutConfig, MidiOutMode};
use crate::utils::{scale_bits_12_14, seven_bits};
use heapless::Deque;
use midly::stream::MidiStream;

verus! {

/// The most messages that wait for one app.
pub const MIDI_APP_QUEUE_SIZE: usize = 16;

/// The most messages that are sent per tick of the distributor.
pub const MIDI_BURST_PER_TICK: usize = 8;

/// The most events that are handled of one arrival on the serial input.
pub const UART_EVENTS: usize = 64;

/// Where an outgoing event came from.
#[derive(Clone, Copy, Debug, PartialEq, Eq, Structural)]
pub enum MidiEventSource {
    Local,
    Passthrough,
}

/// A message for the MIDI outputs.
#[derive(Clone, Copy, Debug, PartialEq, Eq, Structural)]
pub enum MidiMsg {
    Live { event: LiveEvent, target: MidiOut, source: MidiEventSource },
    Nrpn { channel: u8, param: u16, value: u16, target: MidiOut },
}

impl MidiMsg {
    pub fn new(event: LiveEvent, target: MidiOut, source: MidiEventSource) -> (r: Self)
        ensures
            r == (MidiMsg::Live { event, target, source }),
    {
        MidiMsg::Live { event, target, source }
    }

    pub fn nrpn(channel: u8, param: u16, value: u16, target: MidiOut) -> (r: Self)
        ensures
            r == (MidiMsg::Nrpn { channel, param, value, target }),
    {
        MidiMsg::Nrpn { channel, param, value, target }
    }
}

/// A clock message for the MIDI outputs.
#[derive(Clone, Copy, Debug, PartialEq, Eq, Structural)]
pub struct MidiClockMsg {
    pub event: SystemRealtime,
    pub target: MidiOut,
}

impl MidiClockMsg {
    pub fn new(event: SystemRealtime, target: MidiOut) -> (r: Self)
        ensures
            r == (MidiClockMsg { event, target }),
    {
        MidiClockMsg { event, target }
    }
}

/// What the outputs are asked to send.
#[derive(Clone, Copy, Debug, PartialEq, Eq, Structural)]
pub enum MidiOutEvent {
    Event(MidiMsg),
    Clock(MidiClockMsg),
}

/// What the apps receive.
#[derive(Clone, Copy, Debug, PartialEq, Eq, Structural)]
pub enum MidiEvent {
    Live(LiveEvent),
    Nrpn { channel: u8, param: u16, value: u16 },
}

/// The code index numbers that head the packets of USB MIDI.
#[derive(Clone, Copy, Debug, PartialEq, Eq, Structural)]
pub enum CodeIndexNumber {
    /// Miscellaneous function codes. Reserved for future extensions.
    MiscFunction,
    /// Two-byte System Common messages like MTC, SongSelect, etc.
    SystemCommonLen2,
    /// Three-byte System Common messages like SPP, etc.
    SystemCommonLen3,
    /// SysEx starts or continues.
    SysExStarts,
    /// SysEx ends with following three bytes.
    SysExEndsNext3,
    /// Note Off
    NoteOff,
    /// Note On
    NoteOn,
    /// Polyphonic Key Pressure (Aftertouch)
    KeyPressure,
    /// Control Change
    ControlChange,
    /// Program Change
    ProgramChange,
    /// Channel Pressure (Aftertouch)
    ChannelPressure,
    /// Pitch Bend Change
    PitchBendChange,
    /// Single-byte
    SingleByte,
}

impl CodeIndexNumber {
    /// The number on the wire.
    pub open spec fn number(self) -> u8 {
        match self {
            CodeIndexNumber::MiscFunction => 0x0,
            CodeIndexNumber::SystemCommonLen2 => 0x2,
            CodeIndexNumber::SystemCommonLen3 => 0x3,
            CodeIndexNumber::SysExStarts => 0x4,
            CodeIndexNumber::SysExEndsNext3 => 0x7,
            CodeIndexNumber::NoteOff => 0x8,
            CodeIndexNumber::NoteOn => 0x9,
            CodeIndexNumber::KeyPressure => 0xA,
            CodeIndexNumber::ControlChange => 0xB,
            CodeIndexNumber::ProgramChange => 0xC,
            CodeIndexNumber::ChannelPressure => 0xD,
            CodeIndexNumber::PitchBendChange => 0xE,
            CodeIndexNumber::SingleByte => 0xF,
        }
    }

    /// The number on the wire.
    pub fn code(self) -> (r: u8)
        ensures
            r == self.number(),
    {
        match self {
            CodeIndexNumber::MiscFunction => 0x0,
            CodeIndexNumber::SystemCommonLen2 => 0x2,
            CodeIndexNumber::SystemCommonLen3 => 0x3,
            CodeIndexNumber::SysExStarts => 0x4,
            CodeIndexNumber::SysExEndsNext3 => 0x7,
            CodeIndexNumber::NoteOff => 0x8,
            CodeIndexNumber::NoteOn => 0x9,
            CodeIndexNumber::KeyPressure => 0xA,
            CodeIndexNumber::ControlChange => 0xB,
            CodeIndexNumber::ProgramChange => 0xC,
            CodeIndexNumber::ChannelPressure => 0xD,
            CodeIndexNumber::PitchBendChange => 0xE,
            CodeIndexNumber::SingleByte => 0xF,
        }
    }
}

/// The code index number of an event.
pub open spec fn code_index(event: LiveEvent) -> CodeIndexNumber {
    match event {
        LiveEvent::Realtime(_) => CodeIndexNumber::SingleByte,
        LiveEvent::Midi { message, .. } => match message {
            MidiMessage::NoteOn { .. } => CodeIndexNumber::NoteOn,
            MidiMessage::NoteOff { .. } => CodeIndexNumber::NoteOff,
            MidiMessage::Aftertouch { .. } => CodeIndexNumber::KeyPressure,
            MidiMessage::ChannelAftertouch { .. } => CodeIndexNumber::ChannelPressure,
            MidiMessage::ProgramChange { .. } => CodeIndexNumber::ProgramChange,
            MidiMessage::Controller { .. } => CodeIndexNumber::ControlChange,
            MidiMessage::PitchBend { .. } => CodeIndexNumber::PitchBendChange,
        },
        LiveEvent::Common(common) => match common {
            SystemCommon::SysEx { has_data } => if has_data {
                CodeIndexNumber::SysExStarts
            } else {
                CodeIndexNumber::SysExEndsNext3
            },
            SystemCommon::SongSelect(_) => CodeIndexNumber::SystemCommonLen2,
            SystemCommon::TuneRequest => CodeIndexNumber::SingleByte,
            SystemCommon::Undefined(_) => CodeIndexNumber::MiscFunction,
            SystemCommon::SongPosition(_) => CodeIndexNumber::SystemCommonLen3,
            SystemCommon::MidiTimeCodeQuarterFrame(_) => CodeIndexNumber::SystemCommonLen2,
        },
    }
}

/// The code index number of an event.
pub fn cin_from_live_event(midi_ev: &LiveEvent) -> (r: CodeIndexNumber)
    ensures
        r == code_index(*midi_ev),
{
    match *midi_ev {
        LiveEvent::Realtime(_) => CodeIndexNumber::SingleByte,
        LiveEvent::Midi { message, .. } => match message {
            MidiMessage::NoteOn { .. } => CodeIndexNumber::NoteOn,
            MidiMessage::NoteOff { .. } => CodeIndexNumber::NoteOff,
            MidiMessage::Aftertouch { .. } => CodeIndexNumber::KeyPressure,
            MidiMessage::ChannelAftertouch { .. } => CodeIndexNumber::ChannelPressure,
            MidiMessage::ProgramChange { .. } => CodeIndexNumber::ProgramChange,
            MidiMessage::Controller { .. } => CodeIndexNumber::ControlChange,
            MidiMessage::PitchBend { .. } => CodeIndexNumber::PitchBendChange,
        },
        LiveEvent::Common(common) => match common {
            SystemCommon::SysEx { has_data } => {
                if has_data {
                    CodeIndexNumber::SysExStarts
                } else {
                    CodeIndexNumber::SysExEndsNext3
                }
            },
            SystemCommon::SongSelect(_) => CodeIndexNumber::SystemCommonLen2,
            SystemCommon::TuneRequest => CodeIndexNumber::SingleByte,
            SystemCommon::Undefined(_) => CodeIndexNumber::MiscFunction,
            SystemCommon::SongPosition(_) => CodeIndexNumber::SystemCommonLen3,
            SystemCommon::MidiTimeCodeQuarterFrame(_) => CodeIndexNumber::SystemCommonLen2,
        },
    }
}

/// The number of MIDI bytes in a packet of the given code index number, whose
/// high half is the cable number.
pub open spec fn packet_len(cin: u8) -> int {
    let code = cin % 16;
    if code == 0x5 || code == 0xF {
        1
    } else if code == 0x2 || code == 0x6 || code == 0xC || code == 0xD {
        2
    } else if code == 0x0 || code == 0x1 {
        0
    } else {
        3
    }
}

/// The number of MIDI bytes in a packet that starts with `cin`.
pub fn len_from_cin(cin: u8) -> (r: usize)
    ensures
        r == packet_len(cin),
        r <= 3,
{
    match cin % 16 {
        0x5 | 0xf => 1,
        0x2 | 0x6 | 0xc | 0xd => 2,
        0x3 | 0x4 | 0x7 | 0x8 | 0x9 | 0xa | 0xb | 0xe => 3,
        _ => 0,
    }
}

/// The USB MIDI packet of an event: the code index number, then the bytes of the
/// event, filled up with zeros.
pub open spec fn usb_packet(event: LiveEvent) -> Seq<u8> {
    Seq::new(
        4,
        |i: int|
            if i == 0 {
                code_index(event).number()
            } else if i <= event_bytes(event).len() {
                event_bytes(event)[i - 1]
            } else {
                0u8
            },
    )
}

/// Lays out an event as a USB MIDI packet.
pub fn write_msg_to_usb(midi_ev: &LiveEvent) -> (r: [u8; 4])
    requires
        midi_ev.wf(),
    ensures
        r@ == usb_packet(*midi_ev),
{
    let bytes = midi_ev.to_bytes();
    let cin: u8 = cin_from_live_event(midi_ev).code();
    let first: u8 = bytes[0];
    let second: u8 = if bytes.len() > 1 {
        bytes[1]
    } else {
        0
    };
    let third: u8 = if bytes.len() > 2 {
        bytes[2]
    } else {
        0
    };
    [cin, first, second, third]
}

/// A channel or realtime event that was laid out as a packet is found again by
/// the length that the packet's head gives.
pub proof fn law_packet_round_trip(event: LiveEvent)
    requires
        event.wf(),
        !(event is Common),
    ensures
        packet_len(usb_packet(event)[0]) == event_bytes(event).len(),
        parsed(usb_packet(event).subrange(1, 1 + packet_len(usb_packet(event)[0]))) == Some(event),
{
    let packet = usb_packet(event);
    let n = packet_len(packet[0]);
    assert(packet.subrange(1, 1 + n) =~= event_bytes(event) + Seq::<u8>::empty());
    crate::midi::law_wire_round_trip(event, Seq::<u8>::empty());
}

// ---------------------------------------------------------------------------
// Distribution of the messages of the apps
// ---------------------------------------------------------------------------

/// `heapless::Deque`, a queue of fixed capacity.
#[verifier::external_type_specification]
#[verifier::external_body]
#[verifier::reject_recursive_types(T)]
pub struct ExDeque<T, const N: usize>(Deque<T, N>);

/// The messages in a queue, the oldest first.
pub uninterp spec fn queued(queue: Deque<MidiMsg, 16>) -> Seq<MidiMsg>;

/// `heapless::Deque::new` makes an empty queue.
#[verifier::external_body]
fn queue_new() -> (r: Deque<MidiMsg, 16>)
    ensures
        queued(r) == Seq::<MidiMsg>::empty(),
{
    Deque::new()
}

/// `heapless::Deque::is_full` tells whether the queue holds as many items as it
/// has room for; it never holds more.
#[verifier::external_body]
fn queue_is_full(queue: &Deque<MidiMsg, 16>) -> (r: bool)
    ensures
        r ==> queued(*queue).len() == 16,
        !r ==> queued(*queue).len() < 16,
{
    queue.is_full()
}

/// `heapless::Deque::push_back` appends an item, or hands it back and leaves the
/// queue alone when there is no room.
#[verifier::external_body]
fn queue_push_back(queue: &mut Deque<MidiMsg, 16>, item: MidiMsg) -> (r: Result<(), MidiMsg>)
    ensures
        queued(*old(queue)).len() < 16 ==> r is Ok && queued(*final(queue)) == queued(
            *old(queue),
        ).push(item),
        queued(*old(queue)).len() >= 16 ==> r is Err && r->Err_0 == item && queued(
            *final(queue),
        ) == queued(*old(queue)),
{
    queue.push_back(item)
}

/// `heapless::Deque::pop_front` takes the oldest item, if there is one.
#[verifier::external_body]
fn queue_pop_front(queue: &mut Deque<MidiMsg, 16>) -> (r: Option<MidiMsg>)
    ensures
        queued(*old(queue)).len() == 0 ==> r is None && queued(*final(queue)) == queued(
            *old(queue),
        ),
        queued(*old(queue)).len() > 0 ==> r == Some(queued(*old(queue))[0]) && queued(
            *final(queue),
        ) == queued(*old(queue)).drop_first(),
{
    queue.pop_front()
}

/// The state of the distributor: what waits for each app, and whose turn was last.
pub struct Waiting {
    pub queues: Seq<Seq<MidiMsg>>,
    pub last: int,
}

impl Waiting {
    pub open spec fn wf(self) -> bool {
        &&& self.queues.len() == 16
        &&& 0 <= self.last < 16
        &&& forall|i: int| 0 <= i < 16 ==> #[trigger] self.queues[i].len() <= 16
    }

    /// The app that is looked at in the given place, the first being the one
    /// after the app that was served last.
    pub open spec fn turn(self, place: int) -> int {
        (self.last + 1 + place) % 16
    }

    /// The first app with a message, from the given place on.
    pub open spec fn ready_from(self, place: int) -> Option<int>
        decreases 16 - place,
    {
        if place >= 16 {
            None
        } else if self.queues[self.turn(place)].len() > 0 {
            Some(self.turn(place))
        } else {
            self.ready_from(place + 1)
        }
    }

    /// The app that is served next.
    pub open spec fn ready(self) -> Option<int> {
        self.ready_from(0)
    }

    /// What is left after the oldest message of `app` was sent.
    pub open spec fn served(self, app: int) -> Waiting {
        Waiting { queues: self.queues.update(app, self.queues[app].drop_first()), last: app }
    }

    /// The messages of a burst of at most `n`, and what is left after it.
    pub open spec fn burst(self, n: nat) -> (Seq<MidiMsg>, Waiting)
        decreases n,
    {
        if n == 0 {
            (Seq::empty(), self)
        } else {
            match self.ready() {
                None => (Seq::empty(), self),
                Some(app) => {
                    let (rest, left) = self.served(app).burst((n - 1) as nat);
                    (seq![self.queues[app][0]] + rest, left)
                },
            }
        }
    }

    /// A new message of `app`, which is dropped where 16 are waiting.
    pub open spec fn enqueued(self, app: int, message: MidiMsg) -> Waiting {
        if self.queues[app].len() < 16 {
            Waiting { queues: self.queues.update(app, self.queues[app].push(message)), ..self }
        } else {
            self
        }
    }
}

/// Throttles the messages of the apps: each app has a queue of its own, and the
/// queues are served in turn, a small burst at a time.
pub struct MidiDistributor {
    app_queues: Vec<Deque<MidiMsg, 16>>,
    last_app_id: usize,
}

/// What the distributor reacts to.
pub enum DistributorEvent {
    /// A message from the app that starts at the given channel.
    Message { start_channel: usize, message: MidiMsg },
    /// The throttle timer has fired.
    Tick,
}

impl View for MidiDistributor {
    type V = Waiting;

    closed spec fn view(&self) -> Waiting {
        Waiting {
            queues: self.app_queues@.map_values(|queue: Deque<MidiMsg, 16>| queued(queue)),
            last: self.last_app_id as int,
        }
    }
}

impl MidiDistributor {
    /// Nothing waits, and the first app was served last.
    pub fn new() -> (r: Self)
        ensures
            r@.wf(),
            r@.last == 0,
            forall|i: int| 0 <= i < 16 ==> #[trigger] r@.queues[i] == Seq::<MidiMsg>::empty(),
    {
        let mut app_queues: Vec<Deque<MidiMsg, 16>> = Vec::new();
        let mut i: usize = 0;
        while i < 16
            invariant
                i <= 16,
                app_queues@.len() == i,
                forall|k: int|
                    0 <= k < i ==> queued(#[trigger] app_queues@[k]) == Seq::<MidiMsg>::empty(),
            decreases 16 - i,
        {
            app_queues.push(queue_new());
            i = i + 1;
        }
        MidiDistributor { app_queues, last_app_id: 0 }
    }

    /// A new message from an app has arrived: it is enqueued where there is room.
    pub fn enqueue(&mut self, start_channel: usize, message: MidiMsg)
        requires
            old(self)@.wf(),
            start_channel < 16,
        ensures
            final(self)@ == old(self)@.enqueued(start_channel as int, message),
            final(self)@.wf(),
    {
        if !queue_is_full(&self.app_queues[start_channel]) {
            let _ = queue_push_back(&mut self.app_queues[start_channel], message);
            assert(self@.queues =~= old(self)@.queues.update(
                start_channel as int,
                old(self)@.queues[start_channel as int].push(message),
            ));
        }
        assert(forall|i: int| 0 <= i < 16 ==> old(self)@.queues[i].len() <= 16);
    }

    /// Takes the oldest message of the next app that has one.
    fn next(&mut self) -> (r: Option<MidiMsg>)
        requires
            old(self)@.wf(),
        ensures
            final(self)@.wf(),
            match old(self)@.ready() {
                None => r is None && final(self)@ == old(self)@,
                Some(app) => {
                    &&& 0 <= app < 16
                    &&& old(self)@.queues[app].len() > 0
                    &&& r == Some(old(self)@.queues[app][0])
                    &&& final(self)@ == old(self)@.served(app)
                },
            },
    {
        let mut i: usize = 0;
        let ghost before = self@;
        while i < 16
            invariant
                i <= 16,
                before == old(self)@,
                before.wf(),
                self@ == before,
                before.ready() == before.ready_from(i as int),
            decreases 16 - i,
        {
            let app_idx: usize = (self.last_app_id + 1 + i) % 16;
            assert(self@.queues[app_idx as int] == queued(self.app_queues@[app_idx as int]));
            let popped = queue_pop_front(&mut self.app_queues[app_idx]);
            if let Some(message) = popped {
                self.last_app_id = app_idx;
                assert(self@.queues =~= before.served(app_idx as int).queues);
                assert(self@ == before.served(app_idx as int));
                assert forall|k: int| 0 <= k < 16 implies #[trigger] self@.queues[k].len()
                    <= 16 by {
                    assert(before.queues[k].len() <= 16);
                }
                return Some(message);
            }
            assert(self@.queues =~= before.queues);
            i = i + 1;
        }
        None
    }

    /// Sends a small burst.
    pub fn burst(&mut self) -> (r: Vec<MidiMsg>)
        requires
            old(self)@.wf(),
        ensures
            r@ == old(self)@.burst(8).0,
            final(self)@ == old(self)@.burst(8).1,
            final(self)@.wf(),
    {
        let mut sent: Vec<MidiMsg> = Vec::new();
        let mut n: usize = 0;
        let ghost before = self@;
        while n < MIDI_BURST_PER_TICK
            invariant
                n <= MIDI_BURST_PER_TICK,
                before == old(self)@,
                self@.wf(),
                before.burst(8).0 == sent@ + self@.burst((8 - n) as nat).0,
                before.burst(8).1 == self@.burst((8 - n) as nat).1,
            decreases 8 - n,
        {
            let ghost here = self@;
            match self.next() {
                Some(message) => {
                    sent.push(message);
                    n = n + 1;
                },
                None => {
                    assert(sent@ + here.burst((8 - n) as nat).0 =~= sent@);
                    return sent;
                },
            }
        }
        sent
    }
}

/// What the distributor hands to the outputs for an event.
pub open spec fn distributed(waiting: Waiting, event: DistributorEvent) -> (
    Seq<MidiOutEvent>,
    Waiting,
) {
    match event {
        DistributorEvent::Message { start_channel, message } => (
            Seq::empty(),
            waiting.enqueued(start_channel as int, message),
        ),
        DistributorEvent::Tick => (
            waiting.burst(8).0.map_values(|message: MidiMsg| MidiOutEvent::Event(message)),
            waiting.burst(8).1,
        ),
    }
}

/// One turn of the distributor: what it hands to the outputs for an event.
pub fn midi_distributor(distributor: &mut MidiDistributor, event: DistributorEvent) -> (r: Vec<
    MidiOutEvent,
>)
    requires
        old(distributor)@.wf(),
        event matches DistributorEvent::Message { start_channel, .. } ==> start_channel < 16,
    ensures
        r@ == distributed(old(distributor)@, event).0,
        final(distributor)@ == distributed(old(distributor)@, event).1,
        final(distributor)@.wf(),
{
    match event {
        DistributorEvent::Message { start_channel, message } => {
            distributor.enqueue(start_channel, message);
            Vec::new()
        },
        DistributorEvent::Tick => {
            let sent = distributor.burst();
            let mut out: Vec<MidiOutEvent> = Vec::new();
            let mut i: usize = 0;
            while i < sent.len()
                invariant
                    i <= sent@.len(),
                    out@ =~= sent@.take(i as int).map_values(
                        |message: MidiMsg| MidiOutEvent::Event(message),
                    ),
                decreases sent@.len() - i,
            {
                out.push(MidiOutEvent::Event(sent[i]));
                i = i + 1;
            }
            assert(sent@.take(i as int) =~= sent@);
            out
        },
    }
}

proof fn lemma_ready(waiting: Waiting, place: int)
    requires
        waiting.wf(),
        0 <= place <= 16,
    ensures
        match waiting.ready_from(place) {
            None => forall|k: int|
                place <= k < 16 ==> waiting.queues[#[trigger] waiting.turn(k)].len() == 0,
            Some(app) => 0 <= app < 16 && waiting.queues[app].len() > 0 && exists|k: int|
                place <= k < 16 && app == #[trigger] waiting.turn(k) && forall|j: int|
                    place <= j < k ==> waiting.queues[#[trigger] waiting.turn(j)].len() == 0,
        },
    decreases 16 - place,
{
    if place < 16 {
        if waiting.queues[waiting.turn(place)].len() > 0 {
            assert(waiting.ready_from(place) == Some(waiting.turn(place)));
        } else {
            lemma_ready(waiting, place + 1);
        }
    }
}

/// A burst is no longer than asked for, and is empty only when nothing waits.
pub proof fn law_burst_is_bounded(waiting: Waiting, n: nat)
    requires
        waiting.wf(),
    ensures
        waiting.burst(n).0.len() <= n,
        waiting.burst(n).1.wf(),
        n > 0 && waiting.burst(n).0.len() == 0 ==> forall|app: int|
            0 <= app < 16 ==> #[trigger] waiting.queues[app].len() == 0,
    decreases n,
{
    lemma_ready(waiting, 0);
    if n > 0 {
        match waiting.ready() {
            None => {
                assert forall|app: int| 0 <= app < 16 implies #[trigger] waiting.queues[app].len()
                    == 0 by {
                    let place = (app - waiting.last - 1) % 16;
                    assert(waiting.turn(place) == app);
                }
            },
            Some(app) => {
                assert(waiting.served(app).wf()) by {
                    assert forall|k: int| 0 <= k < 16 implies #[trigger] waiting.served(
                        app,
                    ).queues[k].len() <= 16 by {
                        assert(waiting.queues[k].len() <= 16);
                    }
                }
                law_burst_is_bounded(waiting.served(app), (n - 1) as nat);
            },
        }
    }
}

/// When another app is served, an app with a message moves ahead in the order of turns.
proof fn lemma_turn_approaches(waiting: Waiting, app: int)
    requires
        waiting.wf(),
        0 <= app < 16,
        waiting.queues[app].len() > 0,
    ensures
        waiting.ready() matches Some(next) && (next == app || {
            let after = waiting.served(next);
            &&& after.queues[app] == waiting.queues[app]
            &&& (app - after.last - 1) % 16 < (app - waiting.last - 1) % 16
        }),
{
    lemma_ready(waiting, 0);
    let place = (app - waiting.last - 1) % 16;
    assert(waiting.turn(place) == app);
    let next = waiting.ready().unwrap();
    let k = choose|k: int|
        0 <= k < 16 && next == #[trigger] waiting.turn(k) && forall|j: int|
            0 <= j < k ==> waiting.queues[#[trigger] waiting.turn(j)].len() == 0;
    assert(k <= place) by {
        if place < k {
            assert(waiting.queues[waiting.turn(place)].len() == 0);
        }
    }
    if next != app {
        assert(k < place);
    }
}

/// The messages of one app leave in the order in which they came: whoever is
/// served, the app's queue either stays or loses its oldest message.
pub proof fn law_queues_are_first_in_first_out(waiting: Waiting, app: int, message: MidiMsg)
    requires
        waiting.wf(),
        0 <= app < 16,
    ensures
        waiting.queues[app].len() < 16 ==> waiting.enqueued(app, message).queues[app]
            == waiting.queues[app].push(message),
        waiting.ready() matches Some(next) ==> {
            &&& next == app ==> seq![waiting.queues[app][0]] + waiting.served(next).queues[app]
                == waiting.queues[app]
            &&& next != app ==> waiting.served(next).queues[app] == waiting.queues[app]
        },
{
    lemma_ready(waiting, 0);
    if let Some(next) = waiting.ready() {
        if next == app {
            assert(seq![waiting.queues[app][0]] + waiting.served(next).queues[app]
                =~= waiting.queues[app]);
        }
    }
}

/// No app is passed over: within 16 messages, or sooner where its turn comes
/// sooner, the oldest message of an app is sent.
pub proof fn law_turns_are_fair(waiting: Waiting, app: int, n: nat)
    requires
        waiting.wf(),
        0 <= app < 16,
        waiting.queues[app].len() > 0,
        n > (app - waiting.last - 1) % 16,
    ensures
        waiting.burst(n).0.contains(waiting.queues[app][0]),
    decreases n,
{
    lemma_turn_approaches(waiting, app);
    lemma_ready(waiting, 0);
    let next = waiting.ready().unwrap();
    let after = waiting.served(next);
    let sent = waiting.burst(n).0;
    let rest = after.burst((n - 1) as nat).0;
    assert(sent == seq![waiting.queues[next][0]] + rest);
    if next == app {
        assert(sent[0] == waiting.queues[app][0]);
    } else {
        assert(after.wf()) by {
            assert forall|k: int| 0 <= k < 16 implies #[trigger] after.queues[k].len() <= 16 by {
                assert(waiting.queues[k].len() <= 16);
            }
        }
        law_turns_are_fair(after, app, (n - 1) as nat);
        let i = choose|i: int| 0 <= i < rest.len() && rest[i] == waiting.queues[app][0];
        assert(sent[i + 1] == waiting.queues[app][0]);
    }
}

// ---------------------------------------------------------------------------
// Outputs
// ---------------------------------------------------------------------------

/// Whether an output with these settings sends nothing that an app makes.
pub open spec fn refuses_local(config: MidiOutConfig) -> bool {
    config.mode is MidiThru || config.mode is Silent
}

fn is_local_disabled(config: MidiOutConfig) -> (r: bool)
    ensures
        r == refuses_local(config),
{
    match config.mode {
        MidiOutMode::MidiThru { .. } => true,
        MidiOutMode::Silent => true,
        _ => false,
    }
}

/// The outputs that an event of an app does not reach.
pub open spec fn local_disabled(outs: [MidiOutConfig; 3]) -> MidiOut {
    MidiOut {
        usb: refuses_local(outs[0]),
        out1: refuses_local(outs[1]),
        out2: refuses_local(outs[2]),
    }
}

/// A target without the outputs that are disabled.
pub open spec fn without(target: MidiOut, disabled: MidiOut) -> MidiOut {
    MidiOut {
        usb: target.usb && !disabled.usb,
        out1: target.out1 && !disabled.out1,
        out2: target.out2 && !disabled.out2,
    }
}

/// One event on its way out, and the outputs that send it.
#[derive(Clone, Copy, Debug, PartialEq, Eq, Structural)]
pub struct Transmission {
    pub event: LiveEvent,
    pub target: MidiOut,
}

/// A controller change.
pub open spec fn controller_event(channel: u8, controller: u8, value: u8) -> LiveEvent {
    LiveEvent::Midi { channel, message: MidiMessage::Controller { controller, value } }
}

/// A 12-bit value as 14 bits.
pub open spec fn value_14bit(value: u16) -> int {
    (value * 16383 / 4095) % 65536
}

/// The four controller changes that carry a parameter number and a 14-bit value,
/// each high half first.
pub open spec fn nrpn_events(channel: u8, param: u16, value: u16) -> Seq<LiveEvent> {
    seq![
        controller_event(channel, 99, (param / 128 % 128) as u8),
        controller_event(channel, 98, (param % 128) as u8),
        controller_event(channel, 6, (value_14bit(value) / 128 % 128) as u8),
        controller_event(channel, 38, (value_14bit(value) % 128) as u8),
    ]
}

fn controller(channel: u8, number: u8, value: u16) -> (r: LiveEvent)
    requires
        number < 128,
    ensures
        r == controller_event(channel, number, (value % 128) as u8),
{
    let raw: u8 = (value % 256) as u8;
    LiveEvent::Midi {
        channel,
        message: MidiMessage::Controller { controller: number, value: seven_bits(raw) },
    }
}

/// The settings of the outputs, as far as the events of the apps are concerned.
pub struct MidiOutputs {
    pub disabled_outs_for_local: MidiOut,
}

/// What the outputs react to.
pub enum MidiOutTaskEvent {
    /// Something to send.
    Send(MidiOutEvent),
    /// New settings.
    Config([MidiOutConfig; 3]),
}

/// What the outputs send for a message. Ports with a strict thru and silent ports
/// are left out for what the apps make; passed through events and the clock reach
/// every port of their target.
pub open spec fn transmissions(disabled: MidiOut, event: MidiOutEvent) -> Seq<Transmission> {
    match event {
        MidiOutEvent::Event(MidiMsg::Live { event, target, source }) => seq![
            Transmission {
                event,
                target: if source == MidiEventSource::Local {
                    without(target, disabled)
                } else {
                    target
                },
            },
        ],
        MidiOutEvent::Event(MidiMsg::Nrpn { channel, param, value, target }) => nrpn_events(
            channel,
            param,
            value,
        ).map_values(|event: LiveEvent| Transmission { event, target: without(target, disabled) }),
        MidiOutEvent::Clock(message) => seq![
            Transmission { event: LiveEvent::Realtime(message.event), target: message.target },
        ],
    }
}

impl MidiOutputs {
    /// The outputs with the given settings.
    pub fn new(outs: [MidiOutConfig; 3]) -> (r: Self)
        ensures
            r.disabled_outs_for_local == local_disabled(outs),
    {
        MidiOutputs {
            disabled_outs_for_local: MidiOut {
                usb: is_local_disabled(outs[0]),
                out1: is_local_disabled(outs[1]),
                out2: is_local_disabled(outs[2]),
            },
        }
    }

    fn allowed(&self, target: MidiOut) -> (r: MidiOut)
        ensures
            r == without(target, self.disabled_outs_for_local),
    {
        MidiOut {
            usb: target.usb && !self.disabled_outs_for_local.usb,
            out1: target.out1 && !self.disabled_outs_for_local.out1,
            out2: target.out2 && !self.disabled_outs_for_local.out2,
        }
    }

    /// The events that go out for a message, in order.
    pub fn send(&self, event: MidiOutEvent) -> (r: Vec<Transmission>)
        ensures
            r@ == transmissions(self.disabled_outs_for_local, event),
    {
        match event {
            MidiOutEvent::Event(MidiMsg::Live { event, target, source }) => {
                let target = match source {
                    MidiEventSource::Local => self.allowed(target),
                    MidiEventSource::Passthrough => target,
                };
                vec![Transmission { event, target }]
            },
            MidiOutEvent::Event(MidiMsg::Nrpn { channel, param, value, target }) => {
                let target = self.allowed(target);
                let value_14: u16 = scale_bits_12_14(value);
                let r = vec![
                    Transmission { event: controller(channel, 99, param / 128), target },
                    Transmission { event: controller(channel, 98, param % 128), target },
                    Transmission { event: controller(channel, 6, value_14 / 128), target },
                    Transmission { event: controller(channel, 38, value_14 % 128), target },
                ];
                assert(param % 128 % 128 == param % 128);
                assert(value_14 % 128 % 128 == value_14 % 128);
                r
            },
            MidiOutEvent::Clock(message) => vec![
                Transmission { event: LiveEvent::Realtime(message.event), target: message.target },
            ],
        }
    }
}

/// One turn of the outputs: what they send for an event, and the settings after it.
pub fn midi_out_task(outputs: &mut MidiOutputs, event: MidiOutTaskEvent) -> (r: Vec<Transmission>)
    ensures
        match event {
            MidiOutTaskEvent::Send(message) => {
                &&& r@ == transmissions(old(outputs).disabled_outs_for_local, message)
                &&& *final(outputs) == *old(outputs)
            },
            MidiOutTaskEvent::Config(outs) => {
                &&& r@ == Seq::<Transmission>::empty()
                &&& final(outputs).disabled_outs_for_local == local_disabled(outs)
            },
        },
{
    match event {
        MidiOutTaskEvent::Send(message) => outputs.send(message),
        MidiOutTaskEvent::Config(outs) => {
            *outputs = MidiOutputs::new(outs);
            Vec::new()
        },
    }
}

/// A port with a strict thru, or a silent one, never sends what an app makes.
pub proof fn law_thru_ports_send_nothing_local(outs: [MidiOutConfig; 3], message: MidiMsg, i: int)
    requires
        message matches MidiMsg::Live { source, .. } ==> source == MidiEventSource::Local,
        0 <= i < transmissions(local_disabled(outs), MidiOutEvent::Event(message)).len(),
    ensures
        ({
            let sent = transmissions(local_disabled(outs), MidiOutEvent::Event(message))[i].target;
            &&& refuses_local(outs[0]) ==> !sent.usb
            &&& refuses_local(outs[1]) ==> !sent.out1
            &&& refuses_local(outs[2]) ==> !sent.out2
        }),
{
}

// ---------------------------------------------------------------------------
// Inputs
// ---------------------------------------------------------------------------

/// Assembles parameter changes of 14 bits from the controller changes that carry them.
#[derive(Clone, Copy, Debug, PartialEq, Eq, Structural)]
pub struct NrpnTracker {
    pub param_msb: Option<u8>,
    pub param_lsb: Option<u8>,
    pub value_msb: Option<u8>,
}

impl Default for NrpnTracker {
    fn default() -> (r: Self)
        ensures
            r == (NrpnTracker { param_msb: None, param_lsb: None, value_msb: None }),
    {
        NrpnTracker { param_msb: None, param_lsb: None, value_msb: None }
    }
}

pub open spec fn or_zero(half: Option<u8>) -> int {
    match half {
        Some(v) => v as int,
        None => 0,
    }
}

impl NrpnTracker {
    /// Whether the halves that were kept have seven bits.
    pub open spec fn wf(self) -> bool {
        &&& self.param_msb matches Some(v) ==> v < 128
        &&& self.param_lsb matches Some(v) ==> v < 128
        &&& self.value_msb matches Some(v) ==> v < 128
    }

    /// The tracker after a controller change.
    pub open spec fn after_cc(self, controller: u8, value: u8) -> NrpnTracker {
        if controller == 99 {
            NrpnTracker { param_msb: Some(value), value_msb: None, ..self }
        } else if controller == 98 {
            NrpnTracker { param_lsb: Some(value), value_msb: None, ..self }
        } else if controller == 6 && self.param_msb is Some && self.param_lsb is Some {
            NrpnTracker { value_msb: Some(value), ..self }
        } else if controller == 38 {
            NrpnTracker { value_msb: None, ..self }
        } else {
            self
        }
    }

    /// What a controller change gives: a complete parameter change, the
    /// controller change itself, or nothing where it was taken in.
    pub open spec fn gives(self, channel: u8, controller: u8, value: u8) -> Option<MidiEvent> {
        if controller == 99 || controller == 98 {
            None
        } else if controller == 6 && self.param_msb is Some && self.param_lsb is Some {
            None
        } else if controller == 38 && self.value_msb is Some {
            Some(
                MidiEvent::Nrpn {
                    channel,
                    param: (or_zero(self.param_msb) * 128 + or_zero(self.param_lsb)) as u16,
                    value: (self.value_msb.unwrap() * 128 + value) as u16,
                },
            )
        } else {
            Some(MidiEvent::Live(controller_event(channel, controller, value)))
        }
    }

    /// Process a CC message. Returns `Some` if a complete NRPN message was assembled
    /// or if a non-NRPN CC should be forwarded. Returns `None` if the CC was consumed as part of
    /// an NRPN sequence.
    pub fn process_cc(&mut self, channel: u8, controller: u8, value: u8) -> (r: Option<MidiEvent>)
        requires
            old(self).wf(),
            value < 128,
        ensures
            r == old(self).gives(channel, controller, value),
            *final(self) == old(self).after_cc(controller, value),
            final(self).wf(),
    {
        match controller {
            99 => {
                self.param_msb = Some(value);
                self.value_msb = None;
                None
            },
            98 => {
                self.param_lsb = Some(value);
                self.value_msb = None;
                None
            },
            6 => {
                if self.param_msb.is_some() && self.param_lsb.is_some() {
                    self.value_msb = Some(value);
                    None
                } else {
                    Some(
                        MidiEvent::Live(
                            LiveEvent::Midi {
                                channel,
                                message: MidiMessage::Controller { controller, value },
                            },
                        ),
                    )
                }
            },
            38 => {
                if let Some(val_msb) = self.value_msb {
                    self.value_msb = None;
                    let msb: u8 = match self.param_msb {
                        Some(v) => v,
                        None => 0,
                    };
                    let lsb: u8 = match self.param_lsb {
                        Some(v) => v,
                        None => 0,
                    };
                    Some(
                        MidiEvent::Nrpn {
                            channel,
                            param: msb as u16 * 128 + lsb as u16,
                            value: val_msb as u16 * 128 + value as u16,
                        },
                    )
                } else {
                    Some(
                        MidiEvent::Live(
                            LiveEvent::Midi {
                                channel,
                                message: MidiMessage::Controller { controller, value },
                            },
                        ),
                    )
                }
            },
            _ => Some(
                MidiEvent::Live(
                    LiveEvent::Midi {
                        channel,
                        message: MidiMessage::Controller { controller, value },
                    },
                ),
            ),
        }
    }
}

/// What a sequence of controller events gives.
pub open spec fn assembled(tracker: NrpnTracker, events: Seq<LiveEvent>) -> Seq<MidiEvent>
    decreases events.len(),
{
    if events.len() == 0 {
        Seq::empty()
    } else {
        match events[0] {
            LiveEvent::Midi {
                channel,
                message: MidiMessage::Controller { controller, value },
            } => (match tracker.gives(channel, controller, value) {
                Some(event) => seq![event],
                None => Seq::empty(),
            }) + assembled(tracker.after_cc(controller, value), events.drop_first()),
            _ => assembled(tracker, events.drop_first()),
        }
    }
}

/// A parameter change that was sent is received as one parameter change, with the
/// same number and the 14-bit value, whatever the tracker had seen before.
pub proof fn law_nrpn_round_trip(tracker: NrpnTracker, channel: u8, param: u16, value: u16)
    requires
        param < 16384,
        value <= 4095,
    ensures
        assembled(tracker, nrpn_events(channel, param, value)) == seq![
            MidiEvent::Nrpn { channel, param, value: (value * 16383 / 4095) as u16 },
        ],
{
    let wide = value_14bit(value);
    assert(wide == value * 16383 / 4095 && wide < 16384);
    let events = nrpn_events(channel, param, value);
    let hi = (param / 128 % 128) as u8;
    let lo = (param % 128) as u8;
    let vhi = (wide / 128 % 128) as u8;
    let vlo = (wide % 128) as u8;
    let t1 = tracker.after_cc(99, hi);
    let t2 = t1.after_cc(98, lo);
    let t3 = t2.after_cc(6, vhi);
    let e1 = events.drop_first();
    let e2 = e1.drop_first();
    let e3 = e2.drop_first();
    let e4 = e3.drop_first();
    assert(e1[0] == events[1] && e2[0] == events[2] && e3[0] == events[3]);
    assert(e4.len() == 0);
    assert(assembled(t3.after_cc(38, vlo), e4) =~= Seq::<MidiEvent>::empty());
    assert(t3.param_msb == Some(hi) && t3.param_lsb == Some(lo) && t3.value_msb == Some(vhi));
    let result = MidiEvent::Nrpn { channel, param, value: wide as u16 };
    assert(t3.gives(channel, 38, vlo) == Some(result));
    assert(assembled(t3, e3) =~= seq![result]);
    assert(assembled(t2, e2) =~= seq![result]);
    assert(assembled(t1, e1) =~= seq![result]);
    assert(assembled(tracker, events) =~= seq![result]);
}

/// What an incoming event sets off.
#[derive(Clone, Copy, Debug, PartialEq, Eq, Structural)]
pub enum MidiInAction {
    /// A message for the clock.
    Clock(ClockInEvent),
    /// A scene to load.
    LoadScene(u8),
    /// An event for the outputs.
    Send(MidiOutEvent),
    /// An event for the apps.
    Publish(MidiEvent),
}

/// An event that is passed on to the given outputs.
pub open spec fn passed_on(event: LiveEvent, target: MidiOut) -> MidiInAction {
    MidiInAction::Send(
        MidiOutEvent::Event(
            MidiMsg::Live { event, target, source: MidiEventSource::Passthrough },
        ),
    )
}

/// The clock message of a realtime message.
pub open spec fn clock_message(message: SystemRealtime, src: ClockSrc) -> Option<ClockInEvent> {
    match message {
        SystemRealtime::TimingClock => Some(ClockInEvent::Tick(src)),
        SystemRealtime::Start => Some(ClockInEvent::Start(src)),
        SystemRealtime::Stop => Some(ClockInEvent::Stop(src)),
        SystemRealtime::Continue => Some(ClockInEvent::Continue(src)),
        SystemRealtime::Reset => Some(ClockInEvent::Reset(src)),
        _ => None,
    }
}

/// What an incoming event sets off, in order.
pub open spec fn event_actions(
    event: LiveEvent,
    trackers: Seq<NrpnTracker>,
    thru: MidiOut,
    src: ClockSrc,
) -> Seq<MidiInAction> {
    match event {
        LiveEvent::Realtime(message) => match clock_message(message, src) {
            Some(clock) => seq![MidiInAction::Clock(clock)],
            None => Seq::empty(),
        },
        LiveEvent::Midi { channel, message } => {
            let scene = match message {
                MidiMessage::ProgramChange { program } => if program <= 15 {
                    seq![MidiInAction::LoadScene(program)]
                } else {
                    Seq::empty()
                },
                _ => Seq::empty(),
            };
            let published = match message {
                MidiMessage::Controller { controller, value } => trackers[channel as int].gives(
                    channel,
                    controller,
                    value,
                ),
                _ => Some(MidiEvent::Live(event)),
            };
            scene + seq![passed_on(event, thru)] + (match published {
                Some(published) => seq![MidiInAction::Publish(published)],
                None => Seq::empty(),
            })
        },
        LiveEvent::Common(_) => seq![
            MidiInAction::Publish(MidiEvent::Live(event)),
            passed_on(event, thru),
        ],
    }
}

/// The trackers after an incoming event.
pub open spec fn event_trackers(event: LiveEvent, trackers: Seq<NrpnTracker>) -> Seq<NrpnTracker> {
    match event {
        LiveEvent::Midi {
            channel,
            message: MidiMessage::Controller { controller, value },
        } => trackers.update(
            channel as int,
            trackers[channel as int].after_cc(controller, value),
        ),
        _ => trackers,
    }
}

pub open spec fn trackers_wf(trackers: Seq<NrpnTracker>) -> bool {
    &&& trackers.len() == 16
    &&& forall|i: int| 0 <= i < 16 ==> #[trigger] trackers[i].wf()
}

/// Handles one incoming event: clock messages go to the clock, program changes of
/// the first 16 load a scene, and channel and common messages go to the apps and
/// to the outputs that pass them through.
pub fn process_midi_event(
    event: &LiveEvent,
    nrpn_trackers: &mut Vec<NrpnTracker>,
    thru_targets: MidiOut,
    clock_src: ClockSrc,
) -> (r: Vec<MidiInAction>)
    requires
        event.wf(),
        trackers_wf(old(nrpn_trackers)@),
    ensures
        r@ == event_actions(*event, old(nrpn_trackers)@, thru_targets, clock_src),
        final(nrpn_trackers)@ == event_trackers(*event, old(nrpn_trackers)@),
        trackers_wf(final(nrpn_trackers)@),
{
    let mut actions: Vec<MidiInAction> = Vec::new();
    match *event {
        LiveEvent::Realtime(message) => match message {
            SystemRealtime::TimingClock => {
                actions.push(MidiInAction::Clock(ClockInEvent::Tick(clock_src)));
            },
            SystemRealtime::Start => {
                actions.push(MidiInAction::Clock(ClockInEvent::Start(clock_src)));
            },
            SystemRealtime::Stop => {
                actions.push(MidiInAction::Clock(ClockInEvent::Stop(clock_src)));
            },
            SystemRealtime::Continue => {
                actions.push(MidiInAction::Clock(ClockInEvent::Continue(clock_src)));
            },
            SystemRealtime::Reset => {
                actions.push(MidiInAction::Clock(ClockInEvent::Reset(clock_src)));
            },
            _ => {},
        },
        LiveEvent::Midi { channel, message } => {
            if let MidiMessage::ProgramChange { program } = message {
                if program <= 15 {
                    actions.push(MidiInAction::LoadScene(program));
                }
            }
            actions.push(
                MidiInAction::Send(
                    MidiOutEvent::Event(
                        MidiMsg::new(*event, thru_targets, MidiEventSource::Passthrough),
                    ),
                ),
            );
            if let MidiMessage::Controller { controller, value } = message {
                let mut tracker: NrpnTracker = nrpn_trackers[channel as usize];
                assert(trackers_wf(nrpn_trackers@));
                let published = tracker.process_cc(channel, controller, value);
                nrpn_trackers.set(channel as usize, tracker);
                if let Some(midi_event) = published {
                    actions.push(MidiInAction::Publish(midi_event));
                }
            } else {
                actions.push(MidiInAction::Publish(MidiEvent::Live(*event)));
            }
        },
        LiveEvent::Common(_) => {
            actions.push(MidiInAction::Publish(MidiEvent::Live(*event)));
            actions.push(
                MidiInAction::Send(
                    MidiOutEvent::Event(
                        MidiMsg::new(*event, thru_targets, MidiEventSource::Passthrough),
                    ),
                ),
            );
        },
    }
    actions
}

/// Whether an output with these settings passes on what comes in by DIN.
pub open spec fn forwards_din(config: MidiOutConfig) -> bool {
    match config.mode {
        MidiOutMode::MidiThru { sources } => sources.din,
        MidiOutMode::MidiMerge { sources } => sources.din,
        _ => false,
    }
}

/// Whether an output with these settings passes on what comes in by USB.
pub open spec fn forwards_usb(config: MidiOutConfig) -> bool {
    match config.mode {
        MidiOutMode::MidiThru { sources } => sources.usb,
        MidiOutMode::MidiMerge { sources } => sources.usb,
        _ => false,
    }
}

fn is_forwarding_din(config: MidiOutConfig) -> (r: bool)
    ensures
        r == forwards_din(config),
{
    match config.mode {
        MidiOutMode::MidiThru { sources } => sources.din,
        MidiOutMode::MidiMerge { sources } => sources.din,
        _ => false,
    }
}

fn is_forwarding_usb(config: MidiOutConfig) -> (r: bool)
    ensures
        r == forwards_usb(config),
{
    match config.mode {
        MidiOutMode::MidiThru { sources } => sources.usb,
        MidiOutMode::MidiMerge { sources } => sources.usb,
        _ => false,
    }
}

/// The outputs that pass on what comes in by DIN.
pub open spec fn din_targets(outs: [MidiOutConfig; 3]) -> MidiOut {
    MidiOut {
        usb: forwards_din(outs[0]),
        out1: forwards_din(outs[1]),
        out2: forwards_din(outs[2]),
    }
}

/// The outputs that pass on what comes in by USB.
pub open spec fn usb_targets(outs: [MidiOutConfig; 3]) -> MidiOut {
    MidiOut {
        usb: forwards_usb(outs[0]),
        out1: forwards_usb(outs[1]),
        out2: forwards_usb(outs[2]),
    }
}

/// An output passes on what comes in by an input exactly where its mode is to pass
/// through or to merge, and the input is among its sources.
pub proof fn law_forwards_its_sources(config: MidiOutConfig)
    ensures
        forwards_din(config) <==> (config.mode matches MidiOutMode::MidiThru { sources }
            && sources.din) || (config.mode matches MidiOutMode::MidiMerge { sources }
            && sources.din),
        forwards_usb(config) <==> (config.mode matches MidiOutMode::MidiThru { sources }
            && sources.usb) || (config.mode matches MidiOutMode::MidiMerge { sources }
            && sources.usb),
{
}

/// The state of the inputs.
pub struct MidiInputs {
    pub midi_stream: MidiStream<MidiStreamBuffer>,
    pub usb_nrpn_trackers: Vec<NrpnTracker>,
    pub din_nrpn_trackers: Vec<NrpnTracker>,
    pub midi_passthru_from_din: MidiOut,
    pub midi_passthru_from_usb: MidiOut,
}

/// What the inputs react to.
pub enum MidiInTaskEvent {
    /// Bytes from USB, in packets of four.
    Usb(Vec<u8>),
    /// Bytes from the serial input.
    Din(Vec<u8>),
    /// New settings of the outputs.
    Config([MidiOutConfig; 3]),
}

/// The event of a USB MIDI packet.
pub open spec fn packet_event(packet: Seq<u8>) -> Option<LiveEvent> {
    let n = packet_len(packet[0]);
    if n == 0 {
        None
    } else {
        parsed(packet.subrange(1, 1 + n))
    }
}

/// The events of the whole packets among the first bytes of `raw`.
pub open spec fn packet_events(raw: Seq<u8>) -> Seq<LiveEvent>
    decreases raw.len(),
{
    if raw.len() < 4 {
        Seq::empty()
    } else {
        (match packet_event(raw.take(4)) {
            Some(event) => seq![event],
            None => Seq::empty(),
        }) + packet_events(raw.skip(4))
    }
}

/// What a sequence of events sets off.
pub open spec fn stream_actions(
    events: Seq<LiveEvent>,
    trackers: Seq<NrpnTracker>,
    thru: MidiOut,
    src: ClockSrc,
) -> Seq<MidiInAction>
    decreases events.len(),
{
    if events.len() == 0 {
        Seq::empty()
    } else {
        stream_actions(events.drop_last(), trackers, thru, src) + event_actions(
            events.last(),
            stream_trackers(events.drop_last(), trackers),
            thru,
            src,
        )
    }
}

/// The trackers after a sequence of events.
pub open spec fn stream_trackers(
    events: Seq<LiveEvent>,
    trackers: Seq<NrpnTracker>,
) -> Seq<NrpnTracker>
    decreases events.len(),
{
    if events.len() == 0 {
        trackers
    } else {
        event_trackers(events.last(), stream_trackers(events.drop_last(), trackers))
    }
}

/// Reads the events of the whole packets in `raw`; packets that hold no event are
/// passed over.
pub fn read_packets(raw: &Vec<u8>) -> (r: Vec<LiveEvent>)
    ensures
        r@ == packet_events(raw@),
        forall|i: int| 0 <= i < r@.len() ==> #[trigger] r@[i].wf(),
{
    let mut events: Vec<LiveEvent> = Vec::new();
    let mut at: usize = 0;
    assert(raw@.skip(0) =~= raw@);
    while raw.len() - at >= 4
        invariant
            at <= raw@.len(),
            packet_events(raw@) =~= events@ + packet_events(raw@.skip(at as int)),
            forall|i: int| 0 <= i < events@.len() ==> #[trigger] events@[i].wf(),
        decreases raw@.len() - at,
    {
        let ghost packet = raw@.skip(at as int).take(4);
        assert(raw@.skip(at as int).skip(4) =~= raw@.skip(at + 4));
        let msg_len: usize = len_from_cin(raw[at]);
        assert(packet[0] == raw@[at as int]);
        if msg_len != 0 {
            let msg = vstd::slice::slice_subrange(raw.as_slice(), at + 1, at + 1 + msg_len);
            assert(msg@ =~= packet.subrange(1, 1 + msg_len));
            if let Some(event) = LiveEvent::parse(msg) {
                events.push(event);
            }
        }
        at = at + 4;
    }
    assert(packet_events(raw@.skip(at as int)) =~= Seq::<LiveEvent>::empty());
    events
}

/// The events that are received on the serial input, at most as many as there is
/// room for.
pub uninterp spec fn received(events: heapless::Vec<LiveEvent, 64>) -> Seq<LiveEvent>;

/// `heapless::Vec::new` makes an empty list.
#[verifier::external_body]
fn events_new() -> (r: heapless::Vec<LiveEvent, 64>)
    ensures
        received(r) == Seq::<LiveEvent>::empty(),
{
    heapless::Vec::new()
}

/// `heapless::Vec::push` appends an event, or hands it back and leaves the list
/// alone when there is no room.
#[verifier::external_body]
fn events_push(events: &mut heapless::Vec<LiveEvent, 64>, event: LiveEvent) -> (r: Result<
    (),
    LiveEvent,
>)
    ensures
        received(*old(events)).len() < 64 ==> r is Ok && received(*final(events)) == received(
            *old(events),
        ).push(event),
        received(*old(events)).len() >= 64 ==> r is Err && r->Err_0 == event && received(
            *final(events),
        ) == received(*old(events)),
{
    events.push(event)
}

/// `heapless::Vec::as_slice` shows the events of the list.
#[verifier::external_body]
fn events_slice(events: &heapless::Vec<LiveEvent, 64>) -> (r: &[LiveEvent])
    ensures
        r@ == received(*events),
{
    events.as_slice()
}

/// The events that are handled of an arrival on the serial input: the first ones
/// that its bytes complete.
pub open spec fn din_events(waiting: (Option<u8>, Seq<u8>), raw: Seq<u8>) -> Seq<LiveEvent> {
    let events = stream_events(waiting, raw);
    if events.len() <= UART_EVENTS {
        events
    } else {
        events.take(UART_EVENTS as int)
    }
}

/// Takes bytes of the serial input and keeps the events that they complete, as
/// long as there is room.
pub fn receive_din(midi_stream: &mut MidiStream<MidiStreamBuffer>, raw: &[u8]) -> (r: heapless::Vec<
    LiveEvent,
    64,
>)
    ensures
        pending(*final(midi_stream)) == fed(pending(*old(midi_stream)), raw@),
        received(r) == din_events(pending(*old(midi_stream)), raw@),
        forall|i: int| 0 <= i < received(r).len() ==> #[trigger] received(r)[i].wf(),
{
    let ghost waiting = pending(*midi_stream);
    let events = read_stream(midi_stream, raw);
    let mut uart_events = events_new();
    let mut i: usize = 0;
    while i < events.len()
        invariant
            i <= events@.len(),
            forall|k: int| 0 <= k < events@.len() ==> #[trigger] events@[k].wf(),
            received(uart_events) == events@.take(
                if i <= UART_EVENTS {
                    i as int
                } else {
                    UART_EVENTS as int
                },
            ),
        decreases events@.len() - i,
    {
        let _ = events_push(&mut uart_events, events[i]);
        i = i + 1;
    }
    assert(events@.take(events@.len() as int) =~= events@);
    uart_events
}

/// Every event takes a byte to complete it, so that no event of an arrival of at
/// most 64 bytes is left out.
pub proof fn law_short_arrival_is_kept(waiting: (Option<u8>, Seq<u8>), raw: Seq<u8>)
    ensures
        stream_events(waiting, raw).len() <= raw.len(),
        raw.len() <= UART_EVENTS ==> din_events(waiting, raw) == stream_events(waiting, raw),
    decreases raw.len(),
{
    if raw.len() > 0 {
        law_short_arrival_is_kept(waiting, raw.drop_last());
    }
}

/// Handles a sequence of events.
pub fn process_stream(
    events: &[LiveEvent],
    nrpn_trackers: &mut Vec<NrpnTracker>,
    thru_targets: MidiOut,
    clock_src: ClockSrc,
) -> (r: Vec<MidiInAction>)
    requires
        trackers_wf(old(nrpn_trackers)@),
        forall|i: int| 0 <= i < events@.len() ==> #[trigger] events@[i].wf(),
    ensures
        r@ == stream_actions(events@, old(nrpn_trackers)@, thru_targets, clock_src),
        final(nrpn_trackers)@ == stream_trackers(events@, old(nrpn_trackers)@),
        trackers_wf(final(nrpn_trackers)@),
{
    let mut actions: Vec<MidiInAction> = Vec::new();
    let mut i: usize = 0;
    let ghost before = nrpn_trackers@;
    while i < events.len()
        invariant
            i <= events@.len(),
            trackers_wf(nrpn_trackers@),
            before == old(nrpn_trackers)@,
            forall|k: int| 0 <= k < events@.len() ==> #[trigger] events@[k].wf(),
            actions@ == stream_actions(events@.take(i as int), before, thru_targets, clock_src),
            nrpn_trackers@ == stream_trackers(events@.take(i as int), before),
        decreases events@.len() - i,
    {
        let event: LiveEvent = events[i];
        assert(events@[i as int].wf());
        let ghost upto = events@.take(i + 1);
        assert(upto.drop_last() =~= events@.take(i as int));
        assert(upto.last() == event);
        let mut more = process_midi_event(&event, nrpn_trackers, thru_targets, clock_src);
        actions.append(&mut more);
        i = i + 1;
    }
    assert(events@.take(i as int) =~= events@);
    actions
}

impl MidiInputs {
    pub open spec fn wf(self) -> bool {
        trackers_wf(self.usb_nrpn_trackers@) && trackers_wf(self.din_nrpn_trackers@)
    }

    /// The inputs before anything has come in.
    pub fn new(outs: [MidiOutConfig; 3]) -> (r: Self)
        ensures
            r.wf(),
            pending(r.midi_stream) == (None::<u8>, Seq::<u8>::empty()),
            r.usb_nrpn_trackers@ == r.din_nrpn_trackers@,
            forall|i: int|
                0 <= i < 16 ==> #[trigger] r.usb_nrpn_trackers@[i] == (NrpnTracker {
                    param_msb: None,
                    param_lsb: None,
                    value_msb: None,
                }),
            r.midi_passthru_from_din == din_targets(outs),
            r.midi_passthru_from_usb == usb_targets(outs),
    {
        let mut usb: Vec<NrpnTracker> = Vec::new();
        let mut din: Vec<NrpnTracker> = Vec::new();
        let mut i: usize = 0;
        while i < 16
            invariant
                i <= 16,
                usb@.len() == i,
                din@ =~= usb@,
                forall|k: int|
                    0 <= k < i ==> #[trigger] usb@[k] == (NrpnTracker {
                        param_msb: None,
                        param_lsb: None,
                        value_msb: None,
                    }),
            decreases 16 - i,
        {
            usb.push(NrpnTracker::default());
            din.push(NrpnTracker::default());
            i = i + 1;
        }
        let mut inputs = MidiInputs {
            midi_stream: stream_new(),
            usb_nrpn_trackers: usb,
            din_nrpn_trackers: din,
            midi_passthru_from_din: MidiOut { usb: false, out1: false, out2: false },
            midi_passthru_from_usb: MidiOut { usb: false, out1: false, out2: false },
        };
        inputs.configure(outs);
        inputs
    }

    /// Takes over the settings of the outputs.
    pub fn configure(&mut self, outs: [MidiOutConfig; 3])
        ensures
            final(self).midi_passthru_from_din == din_targets(outs),
            final(self).midi_passthru_from_usb == usb_targets(outs),
            final(self).midi_stream == old(self).midi_stream,
            final(self).usb_nrpn_trackers == old(self).usb_nrpn_trackers,
            final(self).din_nrpn_trackers == old(self).din_nrpn_trackers,
    {
        self.midi_passthru_from_din = MidiOut {
            usb: is_forwarding_din(outs[0]),
            out1: is_forwarding_din(outs[1]),
            out2: is_forwarding_din(outs[2]),
        };
        self.midi_passthru_from_usb = MidiOut {
            usb: is_forwarding_usb(outs[0]),
            out1: is_forwarding_usb(outs[1]),
            out2: is_forwarding_usb(outs[2]),
        };
    }
}

/// One turn of the inputs: what an arrival sets off, and the state after it.
pub fn midi_in_task(inputs: &mut MidiInputs, event: MidiInTaskEvent) -> (r: Vec<MidiInAction>)
    requires
        old(inputs).wf(),
    ensures
        final(inputs).wf(),
        match event {
            MidiInTaskEvent::Usb(raw) => {
                let events = packet_events(raw@);
                &&& r@ == stream_actions(
                    events,
                    old(inputs).usb_nrpn_trackers@,
                    old(inputs).midi_passthru_from_usb,
                    ClockSrc::MidiUsb,
                )
                &&& final(inputs).usb_nrpn_trackers@ == stream_trackers(
                    events,
                    old(inputs).usb_nrpn_trackers@,
                )
                &&& final(inputs).din_nrpn_trackers == old(inputs).din_nrpn_trackers
                &&& final(inputs).midi_stream == old(inputs).midi_stream
                &&& final(inputs).midi_passthru_from_din == old(inputs).midi_passthru_from_din
                &&& final(inputs).midi_passthru_from_usb == old(inputs).midi_passthru_from_usb
            },
            MidiInTaskEvent::Din(raw) => {
                let events = din_events(pending(old(inputs).midi_stream), raw@);
                &&& r@ == stream_actions(
                    events,
                    old(inputs).din_nrpn_trackers@,
                    old(inputs).midi_passthru_from_din,
                    ClockSrc::MidiIn,
                )
                &&& final(inputs).din_nrpn_trackers@ == stream_trackers(
                    events,
                    old(inputs).din_nrpn_trackers@,
                )
                &&& pending(final(inputs).midi_stream) == fed(
                    pending(old(inputs).midi_stream),
                    raw@,
                )
                &&& final(inputs).usb_nrpn_trackers == old(inputs).usb_nrpn_trackers
                &&& final(inputs).midi_passthru_from_din == old(inputs).midi_passthru_from_din
                &&& final(inputs).midi_passthru_from_usb == old(inputs).midi_passthru_from_usb
            },
            MidiInTaskEvent::Config(outs) => {
                &&& r@ == Seq::<MidiInAction>::empty()
                &&& final(inputs).midi_passthru_from_din == din_targets(outs)
                &&& final(inputs).midi_passthru_from_usb == usb_targets(outs)
                &&& final(inputs).usb_nrpn_trackers == old(inputs).usb_nrpn_trackers
                &&& final(inputs).din_nrpn_trackers == old(inputs).din_nrpn_trackers
                &&& final(inputs).midi_stream == old(inputs).midi_stream
            },
        },
{
    match event {
        MidiInTaskEvent::Usb(raw) => {
            let events = read_packets(&raw);
            let thru = inputs.midi_passthru_from_usb;
            process_stream(events.as_slice(), &mut inputs.usb_nrpn_trackers, thru, ClockSrc::MidiUsb)
        },
        MidiInTaskEvent::Din(raw) => {
            let uart_events = receive_din(&mut inputs.midi_stream, raw.as_slice());
            let events = events_slice(&uart_events);
            let thru = inputs.midi_passthru_from_din;
            process_stream(events, &mut inputs.din_nrpn_trackers, thru, ClockSrc::MidiIn)
        },
        MidiInTaskEvent::Config(outs) => {
            inputs.configure(outs);
            Vec::new()
        },
    }
}

/// Every channel message that is not a controller change reaches the apps once,
/// as it came in, whatever was received before.
pub proof fn law_channel_messages_reach_apps(
    channel: u8,
    message: MidiMessage,
    trackers: Seq<NrpnTracker>,
    thru: MidiOut,
    src: ClockSrc,
)
    requires
        !(message is Controller),
    ensures
        ({
            let event = LiveEvent::Midi { channel, message };
            let actions = event_actions(event, trackers, thru, src);
            &&& actions.len() > 0
            &&& actions.last() == MidiInAction::Publish(MidiEvent::Live(event))
            &&& forall|i: int|
                0 <= i < actions.len() - 1 ==> !(#[trigger] actions[i] is Publish)
            &&& event_trackers(event, trackers) == trackers
        }),
{
}

/// A controller change that takes no part in parameter changes reaches the apps
/// once, as it came in; so does one that carries a value while no parameter was
/// chosen. The controllers that choose a parameter do not reach them.
pub proof fn law_controllers_reach_apps(
    channel: u8,
    controller: u8,
    value: u8,
    trackers: Seq<NrpnTracker>,
    thru: MidiOut,
    src: ClockSrc,
)
    requires
        channel < 16,
        trackers_wf(trackers),
    ensures
        ({
            let event = LiveEvent::Midi {
                channel,
                message: MidiMessage::Controller { controller, value },
            };
            let tracker = trackers[channel as int];
            let actions = event_actions(event, trackers, thru, src);
            let plain = seq![
                MidiInAction::Send(
                    MidiOutEvent::Event(
                        MidiMsg::Live {
                            event,
                            target: thru,
                            source: MidiEventSource::Passthrough,
                        },
                    ),
                ),
                MidiInAction::Publish(MidiEvent::Live(event)),
            ];
            &&& controller != 6 && controller != 38 && controller != 98 && controller != 99
                ==> actions == plain && event_trackers(event, trackers) == trackers
            &&& controller == 6 && (tracker.param_msb is None || tracker.param_lsb is None)
                ==> actions == plain
            &&& controller == 38 && tracker.value_msb is None ==> actions == plain
            &&& controller == 98 || controller == 99 ==> actions == plain.drop_last()
        }),
{
    let event = LiveEvent::Midi {
        channel,
        message: MidiMessage::Controller { controller, value },
    };
    let passed = passed_on(event, thru);
    let publish = MidiInAction::Publish(MidiEvent::Live(event));
    assert(seq![passed, publish].drop_last() =~= seq![passed]);
    if controller != 6 && controller != 38 && controller != 98 && controller != 99 {
        assert(event_trackers(event, trackers) =~= trackers);
    }
}

/// The four controllers of a parameter change, on a channel, reach the apps as
/// one parameter change of 14 bits: the first three are taken in, and the last
/// gives the parameter number and the value, both put together from a high and a
/// low half. The parameter stays chosen for more values, and other channels take
/// no part.
pub proof fn law_parameter_changes_reach_apps(
    channel: u8,
    param_high: u8,
    param_low: u8,
    high: u8,
    low: u8,
    trackers: Seq<NrpnTracker>,
    thru: MidiOut,
    src: ClockSrc,
    other: int,
)
    requires
        channel < 16,
        param_high < 128,
        param_low < 128,
        high < 128,
        low < 128,
        trackers_wf(trackers),
        0 <= other < 16,
        other != channel,
    ensures
        ({
            let cc = |controller: u8, value: u8|
                LiveEvent::Midi { channel, message: MidiMessage::Controller { controller, value } };
            let t1 = event_trackers(cc(99, param_high), trackers);
            let t2 = event_trackers(cc(98, param_low), t1);
            let t3 = event_trackers(cc(6, high), t2);
            let t4 = event_trackers(cc(38, low), t3);
            let t5 = event_trackers(cc(6, low), t4);
            let param = (128 * param_high + param_low) as u16;
            let a1 = event_actions(cc(99, param_high), trackers, thru, src);
            let a2 = event_actions(cc(98, param_low), t1, thru, src);
            let a3 = event_actions(cc(6, high), t2, thru, src);
            let a4 = event_actions(cc(38, low), t3, thru, src);
            let a6 = event_actions(cc(38, high), t5, thru, src);
            &&& a1.len() == 1 && a2.len() == 1 && a3.len() == 1
            &&& !(a1[0] is Publish) && !(a2[0] is Publish) && !(a3[0] is Publish)
            &&& a4.len() == 2 && !(a4[0] is Publish)
            &&& a4[1] == MidiInAction::Publish(
                MidiEvent::Nrpn { channel, param, value: (128 * high + low) as u16 },
            )
            &&& a6.last() == MidiInAction::Publish(
                MidiEvent::Nrpn { channel, param, value: (128 * low + high) as u16 },
            )
            &&& t4[other] == trackers[other]
        }),
{
}

/// Every channel and common message goes on, once and as it came in, to the
/// outputs that pass its input through; realtime messages do not.
pub proof fn law_messages_pass_through(
    event: LiveEvent,
    trackers: Seq<NrpnTracker>,
    thru: MidiOut,
    src: ClockSrc,
)
    ensures
        ({
            let actions = event_actions(event, trackers, thru, src);
            let sent = MidiInAction::Send(
                MidiOutEvent::Event(
                    MidiMsg::Live { event, target: thru, source: MidiEventSource::Passthrough },
                ),
            );
            &&& !(event is Realtime) ==> actions.contains(sent)
            &&& forall|i: int, j: int|
                0 <= i < j < actions.len() && #[trigger] actions[i] is Send
                    ==> !(#[trigger] actions[j] is Send)
            &&& forall|i: int|
                0 <= i < actions.len() && #[trigger] actions[i] is Send ==> actions[i] == sent
                    && !(event is Realtime)
        }),
{
    let actions = event_actions(event, trackers, thru, src);
    let sent = passed_on(event, thru);
    match event {
        LiveEvent::Realtime(_) => {},
        LiveEvent::Common(_) => {
            assert(actions[1] == sent);
        },
        LiveEvent::Midi { message, .. } => {
            match message {
                MidiMessage::ProgramChange { program } => {
                    if program <= 15 {
                        assert(actions[1] == sent);
                    } else {
                        assert(actions[0] == sent);
                    }
                },
                _ => {
                    assert(actions[0] == sent);
                },
            }
        },
    }
}

/// Common messages reach the apps as they came in.
pub proof fn law_common_messages_reach_apps(
    common: SystemCommon,
    trackers: Seq<NrpnTracker>,
    thru: MidiOut,
    src: ClockSrc,
)
    ensures
        event_actions(LiveEvent::Common(common), trackers, thru, src)[0] == MidiInAction::Publish(
            MidiEvent::Live(LiveEvent::Common(common)),
        ),
        event_actions(LiveEvent::Common(common), trackers, thru, src).len() == 2,
        event_trackers(LiveEvent::Common(common), trackers) == trackers,
{
}

/// The messages of a clock reach the clock, each as itself and with its input;
/// nothing else does, and they reach nothing else.
pub proof fn law_clock_messages_reach_clock(
    event: LiveEvent,
    trackers: Seq<NrpnTracker>,
    thru: MidiOut,
    src: ClockSrc,
)
    ensures
        event_actions(LiveEvent::Realtime(SystemRealtime::TimingClock), trackers, thru, src)
            == seq![MidiInAction::Clock(ClockInEvent::Tick(src))],
        event_actions(LiveEvent::Realtime(SystemRealtime::Start), trackers, thru, src) == seq![
            MidiInAction::Clock(ClockInEvent::Start(src)),
        ],
        event_actions(LiveEvent::Realtime(SystemRealtime::Stop), trackers, thru, src) == seq![
            MidiInAction::Clock(ClockInEvent::Stop(src)),
        ],
        event_actions(LiveEvent::Realtime(SystemRealtime::Continue), trackers, thru, src) == seq![
            MidiInAction::Clock(ClockInEvent::Continue(src)),
        ],
        event_actions(LiveEvent::Realtime(SystemRealtime::Reset), trackers, thru, src) == seq![
            MidiInAction::Clock(ClockInEvent::Reset(src)),
        ],
        event_actions(LiveEvent::Realtime(SystemRealtime::ActiveSensing), trackers, thru, src).len()
            == 0,
        !(event is Realtime) ==> forall|i: int|
            0 <= i < event_actions(event, trackers, thru, src).len() ==> !(
            #[trigger] event_actions(event, trackers, thru, src)[i] is Clock),
{
}

/// A program change of the first sixteen loads the scene of that number; no other
/// message loads one.
pub proof fn law_program_changes_load_scenes(
    event: LiveEvent,
    channel: u8,
    program: u8,
    trackers: Seq<NrpnTracker>,
    thru: MidiOut,
    src: ClockSrc,
)
    ensures
        ({
            let change = LiveEvent::Midi {
                channel,
                message: MidiMessage::ProgramChange { program },
            };
            program < 16 ==> event_actions(change, trackers, thru, src)[0]
                == MidiInAction::LoadScene(program)
        }),
        ({
            let actions = event_actions(event, trackers, thru, src);
            forall|i: int|
                0 <= i < actions.len() && #[trigger] actions[i] is LoadScene ==> (
                event matches LiveEvent::Midi {
                    message: MidiMessage::ProgramChange { program: chosen },
                    ..
                } && chosen < 16 && actions[i] == MidiInAction::LoadScene(chosen))
        }),
{
}

/// The events of an arrival are handled one after the other, each with the
/// parameters that those before it have chosen.
pub proof fn law_arrivals_are_handled_in_order(
    first: Seq<LiveEvent>,
    rest: Seq<LiveEvent>,
    trackers: Seq<NrpnTracker>,
    thru: MidiOut,
    src: ClockSrc,
)
    ensures
        stream_actions(first + rest, trackers, thru, src) == stream_actions(
            first,
            trackers,
            thru,
            src,
        ) + stream_actions(rest, stream_trackers(first, trackers), thru, src),
        stream_trackers(first + rest, trackers) == stream_trackers(
            rest,
            stream_trackers(first, trackers),
        ),
        first.len() == 1 ==> stream_actions(first, trackers, thru, src) == event_actions(
            first[0],
            trackers,
            thru,
            src,
        ) && stream_trackers(first, trackers) == event_trackers(first[0], trackers),
    decreases rest.len(),
{
    if first.len() == 1 {
        assert(first.drop_last() =~= Seq::<LiveEvent>::empty());
        reveal_with_fuel(stream_actions, 2);
        reveal_with_fuel(stream_trackers, 2);
        assert(stream_actions(first, trackers, thru, src) =~= event_actions(
            first[0],
            trackers,
            thru,
            src,
        ));
    }
    if rest.len() == 0 {
        assert(first + rest =~= first);
        assert(stream_actions(first, trackers, thru, src) + Seq::<MidiInAction>::empty()
            =~= stream_actions(first, trackers, thru, src));
    } else {
        law_arrivals_are_handled_in_order(first, rest.drop_last(), trackers, thru, src);
        assert((first + rest).drop_last() =~= first + rest.drop_last());
        assert((first + rest).last() == rest.last());
        let t = stream_trackers(first, trackers);
        let a = stream_actions(first, trackers, thru, src);
        let b = stream_actions(rest.drop_last(), t, thru, src);
        let c = event_actions(
            rest.last(),
            stream_trackers(first + rest.drop_last(), trackers),
            thru,
            src,
        );
        assert((a + b) + c =~= a + (b + c));
    }
}

/// A packet that holds an event is read as that event, before those of the
/// packets behind it.
pub proof fn law_packets_are_read_in_order(event: LiveEvent, rest: Seq<u8>)
    requires
        event.wf(),
        !(event is Common),
    ensures
        packet_events(usb_packet(event) + rest) == seq![event] + packet_events(rest),
{
    let raw = usb_packet(event) + rest;
    law_packet_round_trip(event);
    assert(raw.take(4) =~= usb_packet(event));
    assert(raw.skip(4) =~= rest);
}

/// A packet begins with the high half of the status byte of a channel message,
/// and with 15 for a realtime message; the bytes of the event follow, filled up
/// with zeros. The head of a packet tells its number of bytes, whatever the cable.
pub proof fn law_packets_hold_bytes(event: LiveEvent, cable: u8, i: int)
    requires
        event.wf(),
        !(event is Common),
        1 <= i < 4,
        cable < 16,
    ensures
        usb_packet(event).len() == 4,
        usb_packet(event)[0] == event_bytes(event)[0] / 16,
        usb_packet(event)[i] == (if i <= event_bytes(event).len() {
            event_bytes(event)[i - 1]
        } else {
            0
        }),
        packet_len((usb_packet(event)[0] + 16 * cable) as u8) == event_bytes(event).len(),
        packet_len(0) == 0,
        packet_len(1) == 0,
        packet_len(5) == 1,
        packet_len(2) == 2,
        packet_len(6) == 2,
        packet_len(3) == 3,
        packet_len(4) == 3,
        packet_len(7) == 3,
{
}

/// A message of an app waits behind those of the same app, and is dropped where
/// sixteen of them wait; it is not handed on before the timer fires, and the
/// other apps take no part.
pub proof fn law_messages_wait_their_turn(
    waiting: Waiting,
    start_channel: usize,
    message: MidiMsg,
    other: int,
)
    requires
        waiting.wf(),
        start_channel < 16,
        0 <= other < 16,
        other != start_channel,
    ensures
        ({
            let event = DistributorEvent::Message { start_channel, message };
            let (handed, after) = distributed(waiting, event);
            let queue = waiting.queues[start_channel as int];
            &&& handed.len() == 0
            &&& queue.len() < 16 ==> after.queues[start_channel as int] == queue.push(message)
            &&& queue.len() == 16 ==> after.queues[start_channel as int] == queue
            &&& after.queues[other] == waiting.queues[other]
            &&& after.last == waiting.last
        }),
{
}

proof fn lemma_short_burst_empties(waiting: Waiting, n: nat, app: int)
    requires
        waiting.wf(),
        waiting.burst(n).0.len() < n,
        0 <= app < 16,
    ensures
        waiting.burst(n).1.queues[app].len() == 0,
    decreases n,
{
    law_burst_is_bounded(waiting, n);
    lemma_ready(waiting, 0);
    if let Some(next) = waiting.ready() {
        assert(waiting.served(next).wf()) by {
            assert forall|k: int| 0 <= k < 16 implies #[trigger] waiting.served(
                next,
            ).queues[k].len() <= 16 by {
                assert(waiting.queues[k].len() <= 16);
            }
        }
        lemma_short_burst_empties(waiting.served(next), (n - 1) as nat, app);
    } else {
        let place = (app - waiting.last - 1) % 16;
        assert(waiting.turn(place) == app);
    }
}

/// When the timer fires, eight messages are handed on, or all that wait where
/// there are fewer; so nothing is left waiting after fewer than eight.
pub proof fn law_timer_hands_on_eight(waiting: Waiting, app: int)
    requires
        waiting.wf(),
        0 <= app < 16,
    ensures
        distributed(waiting, DistributorEvent::Tick).0.len() <= 8,
        distributed(waiting, DistributorEvent::Tick).0.len() < 8 ==> distributed(
            waiting,
            DistributorEvent::Tick,
        ).1.queues[app].len() == 0,
        waiting.queues[app].len() > 0 && (app - waiting.last - 1) % 16 < 8 ==> distributed(
            waiting,
            DistributorEvent::Tick,
        ).0.contains(MidiOutEvent::Event(waiting.queues[app][0])),
        distributed(waiting, DistributorEvent::Tick).1.wf(),
{
    law_burst_is_bounded(waiting, 8);
    let sent = waiting.burst(8).0;
    let handed = distributed(waiting, DistributorEvent::Tick).0;
    if sent.len() < 8 {
        lemma_short_burst_empties(waiting, 8, app);
    }
    if waiting.queues[app].len() > 0 && (app - waiting.last - 1) % 16 < 8 {
        law_turns_are_fair(waiting, app, 8);
        let i = choose|i: int| 0 <= i < sent.len() && sent[i] == waiting.queues[app][0];
        assert(handed[i] == MidiOutEvent::Event(waiting.queues[app][0]));
    }
}

/// What an app sends goes out as it is, on every output of its target that sends
/// what the apps make: those whose mode is neither to pass through nor silent.
pub proof fn law_app_events_go_out(outs: [MidiOutConfig; 3], event: LiveEvent, target: MidiOut)
    ensures
        ({
            let sent = transmissions(
                local_disabled(outs),
                MidiOutEvent::Event(
                    MidiMsg::Live { event, target, source: MidiEventSource::Local },
                ),
            );
            &&& sent.len() == 1
            &&& sent[0].event == event
            &&& sent[0].target.usb == (target.usb && (outs[0].mode is Local || outs[0].mode
                is MidiMerge))
            &&& sent[0].target.out1 == (target.out1 && (outs[1].mode is Local || outs[1].mode
                is MidiMerge))
            &&& sent[0].target.out2 == (target.out2 && (outs[2].mode is Local || outs[2].mode
                is MidiMerge))
        }),
{
}

/// What is passed through and what the clock sends goes out as it is on every
/// output of its target, whatever the settings.
pub proof fn law_passed_events_go_out(
    disabled: MidiOut,
    event: LiveEvent,
    clock: SystemRealtime,
    target: MidiOut,
)
    ensures
        transmissions(
            disabled,
            MidiOutEvent::Event(
                MidiMsg::Live { event, target, source: MidiEventSource::Passthrough },
            ),
        ) == seq![Transmission { event, target }],
        transmissions(disabled, MidiOutEvent::Clock(MidiClockMsg { event: clock, target })) == seq![
            Transmission { event: LiveEvent::Realtime(clock), target },
        ],
{
}

/// A parameter change of an app goes out as four controllers on its channel: 99
/// and 98 with the halves of the number, then 6 and 38 with the halves of the
/// value, whose share of 12 bits is kept in 14 bits.
pub proof fn law_parameter_changes_go_out(
    outs: [MidiOutConfig; 3],
    channel: u8,
    param: u16,
    value: u16,
    target: MidiOut,
    i: int,
)
    requires
        param < 16384,
        value <= 4095,
        0 <= i < 4,
    ensures
        ({
            let sent = transmissions(
                local_disabled(outs),
                MidiOutEvent::Event(MidiMsg::Nrpn { channel, param, value, target }),
            );
            let data = |k: int| sent[k].event->message->Controller_value;
            let wide = 128 * data(2) + data(3);
            &&& sent.len() == 4
            &&& sent[i].event matches LiveEvent::Midi { channel: on, message } && on == channel && (
            message matches MidiMessage::Controller { controller, value: half } && controller == (
            if i == 0 {
                99
            } else if i == 1 {
                98
            } else if i == 2 {
                6
            } else {
                38u8
            }) && half < 128)
            &&& 128 * data(0) + data(1) == param
            &&& 4095 * wide <= 16383 * value < 4095 * wide + 4095
            &&& sent[i].target.usb == (target.usb && (outs[0].mode is Local || outs[0].mode
                is MidiMerge))
            &&& sent[i].target.out1 == (target.out1 && (outs[1].mode is Local || outs[1].mode
                is MidiMerge))
            &&& sent[i].target.out2 == (target.out2 && (outs[2].mode is Local || outs[2].mode
                is MidiMerge))
        }),
{
    let sent = transmissions(
        local_disabled(outs),
        MidiOutEvent::Event(MidiMsg::Nrpn { channel, param, value, target }),
    );
    let wide = value_14bit(value);
    assert(wide < 16384);
    assert(sent[0].event == controller_event(channel, 99, (param / 128 % 128) as u8));
    assert(sent[1].event == controller_event(channel, 98, (param % 128) as u8));
    assert(sent[2].event == controller_event(channel, 6, (wide / 128 % 128) as u8));
    assert(sent[3].event == controller_event(channel, 38, (wide % 128) as u8));
}

/// What comes in by an input is passed on by the outputs that pass through or
/// merge that input, each by its own settings.
pub proof fn law_outputs_choose_their_inputs(outs: [MidiOutConfig; 3])
    ensures
        ({
            let din = |config: MidiOutConfig|
                (config.mode matches MidiOutMode::MidiThru { sources } && sources.din) || (
                config.mode matches MidiOutMode::MidiMerge { sources } && sources.din);
            let usb = |config: MidiOutConfig|
                (config.mode matches MidiOutMode::MidiThru { sources } && sources.usb) || (
                config.mode matches MidiOutMode::MidiMerge { sources } && sources.usb);
            &&& din_targets(outs) == (MidiOut {
                usb: din(outs[0]),
                out1: din(outs[1]),
                out2: din(outs[2]),
            })
            &&& usb_targets(outs) == (MidiOut {
                usb: usb(outs[0]),
                out1: usb(outs[1]),
                out2: usb(outs[2]),
            })
        }),
{
}

} // verus!
