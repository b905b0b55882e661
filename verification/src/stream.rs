//! The serial MIDI stream: events out of bytes that arrive in pieces of any size.
use vstd::prelude::*;

use crate::midi::{
    data_len, event_bytes, event_of, law_wire_round_trip, leading_event, lemma_leading_event,
    LiveEvent, MidiMessage, SystemCommon,
};
use midly::io::Cursor;
use midly::num::u7;
use midly::stream::{Buffer, MidiStream};

verus! {

/// The most data bytes that are kept of one message.
pub const STREAM_BUFFER_SIZE: usize = 64;

/// `midly::num::u7`, a number of seven bits.
#[verifier::external_type_specification]
#[verifier::external_body]
pub struct ExU7(u7);

/// `midly::stream::MidiStream`, which puts the bytes of a MIDI stream together.
#[verifier::external_type_specification]
#[verifier::external_body]
#[verifier::reject_recursive_types(B)]
pub struct ExMidiStream<B>(MidiStream<B>);

/// The data bytes of a message that is not complete.
pub struct MidiStreamBuffer {
    pub data: Vec<u7>,
}

impl Default for MidiStreamBuffer {
    fn default() -> (r: Self)
        ensures
            r.data@.len() == 0,
    {
        MidiStreamBuffer { data: Vec::new() }
    }
}

impl Buffer for MidiStreamBuffer {
    /// Takes data bytes, where there is room for all of them.
    fn push(&mut self, data: &[u7]) -> (r: Result<(), ()>)
        ensures
            match r {
                Ok(_) => {
                    &&& old(self).data@.len() + data@.len() <= STREAM_BUFFER_SIZE
                    &&& final(self).data@ == old(self).data@ + data@
                },
                Err(_) => {
                    &&& old(self).data@.len() + data@.len() > STREAM_BUFFER_SIZE
                    &&& final(self).data@ == old(self).data@
                },
            },
    {
        if self.data.len() > STREAM_BUFFER_SIZE || data.len() > STREAM_BUFFER_SIZE
            - self.data.len() {
            return Err(());
        }
        let mut i: usize = 0;
        while i < data.len()
            invariant
                i <= data@.len(),
                self.data@ == old(self).data@ + data@.take(i as int),
            decreases data@.len() - i,
        {
            self.data.push(data[i]);
            i = i + 1;
        }
        Ok(())
    }

    fn clear(&mut self)
        ensures
            final(self).data@.len() == 0,
    {
        self.data.clear();
    }

    fn as_slice(&self) -> (r: &[u7])
        ensures
            r@ == self.data@,
    {
        self.data.as_slice()
    }
}

/// What waits in a stream: the status byte of the message that it is in, and the
/// data bytes of that message so far.
pub uninterp spec fn pending(stream: MidiStream<MidiStreamBuffer>) -> (Option<u8>, Seq<u8>);

/// Whether one more data byte completes a channel message.
pub open spec fn completes(status: u8, data: Seq<u8>) -> bool {
    status < 0xF0 && data.len() + 1 == data_len(status)
}

/// What waits in a stream after one more byte. A realtime byte changes nothing;
/// another status byte starts a message. A data byte joins its message; the one
/// that completes a channel message leaves the status byte for the next message,
/// and one for which there is no room ends the message.
pub open spec fn pending_after(waiting: (Option<u8>, Seq<u8>), byte: u8) -> (Option<u8>, Seq<u8>) {
    match waiting {
        _ if byte >= 0xF8 => waiting,
        _ if byte >= 0x80 => (Some(byte), Seq::empty()),
        (None, _) => waiting,
        (Some(status), data) => if data.len() >= STREAM_BUFFER_SIZE {
            (None, Seq::empty())
        } else if completes(status, data) {
            (Some(status), Seq::empty())
        } else {
            (Some(status), data.push(byte))
        },
    }
}

/// The event that a byte of a stream completes. A realtime byte is an event of
/// its own. Another status byte ends the message before it, and the last data
/// byte of a channel message ends that.
pub open spec fn event_at(waiting: (Option<u8>, Seq<u8>), byte: u8) -> Option<Seq<u8>> {
    match waiting {
        _ if byte >= 0xF8 => Some(seq![byte]),
        (None, _) => None,
        (Some(status), data) => if byte >= 0x80 {
            leading_event(seq![status] + data)
        } else if data.len() < STREAM_BUFFER_SIZE && completes(status, data) {
            leading_event(seq![status] + data.push(byte))
        } else {
            None
        },
    }
}

/// What waits in a stream after more bytes.
pub open spec fn fed(waiting: (Option<u8>, Seq<u8>), raw: Seq<u8>) -> (Option<u8>, Seq<u8>)
    decreases raw.len(),
{
    if raw.len() == 0 {
        waiting
    } else {
        pending_after(fed(waiting, raw.drop_last()), raw.last())
    }
}

/// The events that the bytes of a stream complete, each as its bytes.
pub open spec fn fed_events(waiting: (Option<u8>, Seq<u8>), raw: Seq<u8>) -> Seq<Seq<u8>>
    decreases raw.len(),
{
    if raw.len() == 0 {
        Seq::empty()
    } else {
        let before = fed_events(waiting, raw.drop_last());
        match event_at(fed(waiting, raw.drop_last()), raw.last()) {
            Some(bytes) => before.push(bytes),
            None => before,
        }
    }
}

/// The events that the bytes of a stream complete.
pub open spec fn stream_events(waiting: (Option<u8>, Seq<u8>), raw: Seq<u8>) -> Seq<LiveEvent> {
    fed_events(waiting, raw).map_values(|bytes: Seq<u8>| event_of(bytes))
}

/// `midly::stream::MidiStream::default` makes a stream that is in no message.
#[verifier::external_body]
pub(crate) fn stream_new() -> (r: MidiStream<MidiStreamBuffer>)
    ensures
        pending(r) == (None::<u8>, Seq::<u8>::empty()),
{
    MidiStream::default()
}

/// `midly::stream::MidiStream::feed`, its events reduced by `to_static` and laid
/// out by `write`: the bytes are taken one after the other, and the events come
/// in the order in which they are completed. The room for the data bytes of a
/// message is that of `MidiStreamBuffer`.
#[verifier::external_body]
fn stream_feed(stream: &mut MidiStream<MidiStreamBuffer>, raw: &[u8]) -> (r: Vec<Vec<u8>>)
    ensures
        pending(*final(stream)) == fed(pending(*old(stream)), raw@),
        r@.len() == fed_events(pending(*old(stream)), raw@).len(),
        forall|i: int|
            0 <= i < r@.len() ==> #[trigger] r@[i]@ == fed_events(pending(*old(stream)), raw@)[i],
{
    let mut events = Vec::new();
    stream.feed(raw, |event| {
        let mut buffer = [0u8; 3];
        let mut cursor = Cursor::new(&mut buffer);
        let _ = event.to_static().write(&mut cursor);
        let used = cursor.cursor();
        events.push(buffer[..used].to_vec());
    });
    events
}

/// Every event of a stream stands for itself.
proof fn lemma_fed_events(waiting: (Option<u8>, Seq<u8>), raw: Seq<u8>)
    ensures
        forall|i: int|
            0 <= i < fed_events(waiting, raw).len() ==> leading_event(
                #[trigger] fed_events(waiting, raw)[i],
            ) == Some(fed_events(waiting, raw)[i]),
    decreases raw.len(),
{
    if raw.len() > 0 {
        lemma_fed_events(waiting, raw.drop_last());
        let before = fed(waiting, raw.drop_last());
        let byte = raw.last();
        if byte >= 0xF8 {
            assert(seq![byte].take(1) =~= seq![byte]);
        } else if let (Some(status), data) = before {
            lemma_leading_event(seq![status] + data);
            lemma_leading_event(seq![status] + data.push(byte));
        }
    }
}

/// Takes bytes into the stream and gives the events that they complete.
pub fn read_stream(stream: &mut MidiStream<MidiStreamBuffer>, raw: &[u8]) -> (r: Vec<LiveEvent>)
    ensures
        pending(*final(stream)) == fed(pending(*old(stream)), raw@),
        r@ == stream_events(pending(*old(stream)), raw@),
        forall|i: int| 0 <= i < r@.len() ==> #[trigger] r@[i].wf(),
{
    let ghost waiting = pending(*stream);
    let fed = stream_feed(stream, raw);
    let mut events: Vec<LiveEvent> = Vec::new();
    let mut i: usize = 0;
    proof {
        lemma_fed_events(waiting, raw@);
    }
    while i < fed.len()
        invariant
            i <= fed@.len(),
            fed@.len() == fed_events(waiting, raw@).len(),
            forall|k: int|
                0 <= k < fed@.len() ==> #[trigger] fed@[k]@ == fed_events(waiting, raw@)[k],
            forall|k: int| 0 <= k < fed@.len() ==> leading_event(
                #[trigger] fed_events(waiting, raw@)[k],
            ) == Some(fed_events(waiting, raw@)[k]),
            events@ == stream_events(waiting, raw@).take(i as int),
            forall|k: int| 0 <= k < events@.len() ==> #[trigger] events@[k].wf(),
        decreases fed@.len() - i,
    {
        assert(fed@[i as int]@ == fed_events(waiting, raw@)[i as int]);
        events.push(LiveEvent::decode(&fed[i]));
        i = i + 1;
    }
    assert(stream_events(waiting, raw@).take(i as int) =~= stream_events(waiting, raw@));
    events
}

/// It does not matter in which pieces the bytes of a stream arrive: the events and
/// what waits after them are those of all the bytes at once.
pub proof fn law_pieces(waiting: (Option<u8>, Seq<u8>), first: Seq<u8>, rest: Seq<u8>)
    ensures
        fed(waiting, first + rest) == fed(fed(waiting, first), rest),
        fed_events(waiting, first + rest) == fed_events(waiting, first) + fed_events(
            fed(waiting, first),
            rest,
        ),
        stream_events(waiting, first + rest) == stream_events(waiting, first) + stream_events(
            fed(waiting, first),
            rest,
        ),
    decreases rest.len(),
{
    let raw = first + rest;
    if rest.len() == 0 {
        assert(raw =~= first);
    } else {
        law_pieces(waiting, first, rest.drop_last());
        assert(raw.drop_last() =~= first + rest.drop_last());
        assert(raw.last() == rest.last());
    }
    assert(fed_events(waiting, raw) =~= fed_events(waiting, first) + fed_events(
        fed(waiting, first),
        rest,
    ));
    assert(stream_events(waiting, raw) =~= stream_events(waiting, first) + stream_events(
        fed(waiting, first),
        rest,
    ));
}

/// A realtime message between any two bytes of a stream is an event of its own,
/// and the message that it interrupts goes on as if it had not been there.
pub proof fn law_realtime_interrupts(
    waiting: (Option<u8>, Seq<u8>),
    before: Seq<u8>,
    byte: u8,
    after: Seq<u8>,
)
    requires
        byte >= 0xF8,
    ensures
        fed(waiting, before + seq![byte] + after) == fed(waiting, before + after),
        fed_events(waiting, before + seq![byte] + after) == fed_events(waiting, before) + seq![
            seq![byte],
        ] + fed_events(fed(waiting, before), after),
        fed_events(waiting, before + after) == fed_events(waiting, before) + fed_events(
            fed(waiting, before),
            after,
        ),
{
    law_pieces(waiting, before, after);
    law_pieces(waiting, before + seq![byte], after);
    law_pieces(waiting, before, seq![byte]);
    let between = fed(waiting, before);
    assert(seq![byte].drop_last() =~= Seq::<u8>::empty());
    assert(fed(between, seq![byte]) == between) by {
        reveal_with_fuel(fed, 2);
    }
    assert(fed_events(between, seq![byte]) =~= seq![seq![byte]]) by {
        reveal_with_fuel(fed_events, 2);
    }
}

/// The data bytes of a channel message are completed to that message by the status
/// byte that the stream is in, which stays for the next one.
pub proof fn law_running_status(status: u8, data: Seq<u8>)
    requires
        0x80 <= status < 0xF0,
        data.len() == data_len(status),
        forall|i: int| 0 <= i < data.len() ==> #[trigger] data[i] < 0x80,
    ensures
        fed((Some(status), Seq::empty()), data) == (Some(status), Seq::<u8>::empty()),
        fed_events((Some(status), Seq::empty()), data) == seq![seq![status] + data],
{
    let waiting = (Some(status), Seq::<u8>::empty());
    let bytes = seq![status] + data;
    assert(data[0] < 0x80);
    assert(data.last() < 0x80);
    reveal_with_fuel(fed, 3);
    reveal_with_fuel(fed_events, 3);
    assert(bytes.take(bytes.len() as int) =~= bytes);
    assert(forall|i: int| 1 <= i < bytes.len() ==> bytes[i] == data[i - 1]);
    assert(leading_event(bytes) == Some(bytes));
    if data.len() == 1 {
        assert(data.drop_last() =~= Seq::<u8>::empty());
        assert(data =~= Seq::<u8>::empty().push(data[0]));
    } else {
        assert(data.drop_last() =~= seq![data[0]]);
        assert(seq![data[0]].drop_last() =~= Seq::<u8>::empty());
        assert(data =~= Seq::<u8>::empty().push(data[0]).push(data[1]));
    }
    assert(fed_events(waiting, data) =~= seq![bytes]);
}

/// What is written for a channel message is read back as that message, whatever
/// the stream was in before; a message that the new one ends comes first.
pub proof fn law_stream_round_trip(
    waiting: (Option<u8>, Seq<u8>),
    channel: u8,
    message: MidiMessage,
)
    requires
        channel < 16,
        message.wf(),
    ensures
        ({
            let event = LiveEvent::Midi { channel, message };
            let bytes = event_bytes(event);
            &&& fed(waiting, bytes) == (Some(bytes[0]), Seq::<u8>::empty())
            &&& stream_events(waiting, bytes) == stream_events(waiting, seq![bytes[0]]).push(event)
        }),
{
    let event = LiveEvent::Midi { channel, message };
    let bytes = event_bytes(event);
    let status = bytes[0];
    let data = bytes.drop_first();
    let start = (Some(status), Seq::<u8>::empty());
    assert(bytes =~= seq![status] + data);
    assert(0x80 <= status < 0xF0);
    assert(data.len() == data_len(status));
    assert forall|i: int| 0 <= i < data.len() implies #[trigger] data[i] < 0x80 by {
        assert(data[i] == bytes[i + 1]);
    }
    law_pieces(waiting, seq![status], data);
    law_running_status(status, data);
    assert(seq![status].drop_last() =~= Seq::<u8>::empty());
    assert(fed(waiting, seq![status]) == start) by {
        reveal_with_fuel(fed, 2);
    }
    law_wire_round_trip(event, Seq::empty());
    assert(bytes + Seq::<u8>::empty() =~= bytes);
    assert(leading_event(bytes) == Some(bytes)) by {
        assert(bytes.take(bytes.len() as int) =~= bytes);
    }
    assert(stream_events(start, data) =~= seq![event]);
    assert(stream_events(waiting, bytes) =~= stream_events(waiting, seq![status]).push(event));
}

/// What is written for a system common message is read back as that message with
/// the status byte that follows it; an exclusive one ends with a status byte of
/// its own. A message that the new one ends comes first.
pub proof fn law_common_round_trip(waiting: (Option<u8>, Seq<u8>), common: SystemCommon, next: u8)
    requires
        LiveEvent::Common(common).wf(),
        0x80 <= next < 0xF8,
    ensures
        ({
            let event = LiveEvent::Common(common);
            let bytes = event_bytes(event);
            stream_events(
                waiting,
                if common is SysEx {
                    bytes
                } else {
                    bytes.push(next)
                },
            ) == stream_events(waiting, seq![bytes[0]]).push(event)
        }),
{
    let event = LiveEvent::Common(common);
    let bytes = event_bytes(event);
    let status = bytes[0];
    let all = if common is SysEx {
        bytes
    } else {
        bytes.push(next)
    };
    let rest = all.drop_first();
    let data = rest.drop_last();
    let start = (Some(status), Seq::<u8>::empty());
    assert(all =~= seq![status] + rest);
    assert(rest =~= data + seq![rest.last()]);
    law_pieces(waiting, seq![status], rest);
    assert(seq![status].drop_last() =~= Seq::<u8>::empty());
    assert(fed(waiting, seq![status]) == start) by {
        reveal_with_fuel(fed, 2);
    }
    assert(fed(start, data) == (Some(status), data) && fed_events(start, data)
        =~= Seq::<Seq<u8>>::empty()) by {
        reveal_with_fuel(fed, 3);
        reveal_with_fuel(fed_events, 3);
        if data.len() == 1 {
            assert(data.drop_last() =~= Seq::<u8>::empty());
            assert(data =~= Seq::<u8>::empty().push(data[0]));
        } else if data.len() == 2 {
            assert(data.drop_last() =~= seq![data[0]]);
            assert(seq![data[0]].drop_last() =~= Seq::<u8>::empty());
            assert(data =~= Seq::<u8>::empty().push(data[0]).push(data[1]));
        } else {
            assert(data =~= Seq::<u8>::empty());
        }
    }
    law_wire_round_trip(event, Seq::empty());
    assert(bytes + Seq::<u8>::empty() =~= bytes);
    let told = seq![status] + data;
    assert(leading_event(told) == Some(bytes)) by {
        assert(common !is SysEx ==> told =~= bytes);
        assert(bytes.take(bytes.len() as int) =~= bytes);
    }
    assert(fed_events(start, rest) =~= seq![bytes]);
    assert(stream_events(start, rest) =~= seq![event]);
    assert(stream_events(waiting, all) =~= stream_events(waiting, seq![status]).push(event));
}

} // verus!
