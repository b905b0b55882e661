use faderpunk::midi::{LiveEvent, MidiMessage, SystemCommon, SystemRealtime};
use faderpunk::stream::{read_stream, MidiStreamBuffer};
use midly::num::u7;
use midly::stream::{Buffer, MidiStream};

fn new_stream() -> MidiStream<MidiStreamBuffer> {
    MidiStream::default()
}

fn note_on(channel: u8, key: u8, vel: u8) -> LiveEvent {
    LiveEvent::Midi { channel, message: MidiMessage::NoteOn { key, vel } }
}

fn clock() -> LiveEvent {
    LiveEvent::Realtime(SystemRealtime::TimingClock)
}

#[test]
fn messages_share_their_status() {
    let mut stream = new_stream();
    let events = read_stream(&mut stream, &[0x91, 60, 100, 61, 101]);
    assert_eq!(events, vec![note_on(1, 60, 100), note_on(1, 61, 101)]);
    let program = |program| LiveEvent::Midi {
        channel: 2,
        message: MidiMessage::ProgramChange { program },
    };
    let events = read_stream(&mut stream, &[0xC2, 7, 8, 9]);
    assert_eq!(events, vec![program(7), program(8), program(9)]);
}

#[test]
fn messages_arrive_in_pieces() {
    let mut stream = new_stream();
    assert_eq!(read_stream(&mut stream, &[0x91]), vec![]);
    assert_eq!(read_stream(&mut stream, &[60]), vec![]);
    assert_eq!(read_stream(&mut stream, &[]), vec![]);
    assert_eq!(read_stream(&mut stream, &[100]), vec![note_on(1, 60, 100)]);
    assert_eq!(read_stream(&mut stream, &[61]), vec![]);
    assert_eq!(read_stream(&mut stream, &[101]), vec![note_on(1, 61, 101)]);
}

#[test]
fn pieces_do_not_matter() {
    let raw = [
        0x05, 0x90, 60, 0xF8, 100, 61, 0xF0, 1, 2, 3, 0xF7, 9, 0xF2, 8, 39, 0xE3, 1, 2, 0xF1, 0x35,
        0xF6, 0xF4, 77, 0xF3, 0x80, 5, 0xFF, 6, 0xD1, 99,
    ];
    let mut at_once = new_stream();
    let whole = read_stream(&mut at_once, &raw);
    for cut in 0..=raw.len() {
        let mut stream = new_stream();
        let mut events = read_stream(&mut stream, &raw[..cut]);
        events.extend(read_stream(&mut stream, &raw[cut..]));
        assert_eq!(events, whole);
    }
    assert_eq!(
        whole,
        vec![
            clock(),
            note_on(0, 60, 100),
            LiveEvent::Common(SystemCommon::SysEx { has_data: false }),
            LiveEvent::Common(SystemCommon::SongPosition(5000)),
            LiveEvent::Midi { channel: 3, message: MidiMessage::PitchBend { bend: 257 } },
            LiveEvent::Common(SystemCommon::MidiTimeCodeQuarterFrame(0x35)),
            LiveEvent::Common(SystemCommon::TuneRequest),
            LiveEvent::Common(SystemCommon::Undefined(0xF4)),
            LiveEvent::Common(SystemCommon::Undefined(0xF3)),
            LiveEvent::Realtime(SystemRealtime::Reset),
            LiveEvent::Midi { channel: 0, message: MidiMessage::NoteOff { key: 5, vel: 6 } },
            LiveEvent::Midi { channel: 1, message: MidiMessage::ChannelAftertouch { vel: 99 } },
        ]
    );
}

#[test]
fn realtime_bytes_interrupt_nothing() {
    let mut stream = new_stream();
    let events = read_stream(&mut stream, &[0xF8, 0x90, 0xF8, 60, 0xF8, 100]);
    assert_eq!(events, vec![clock(), clock(), clock(), note_on(0, 60, 100)]);
}

#[test]
fn unfinished_channel_messages_are_dropped() {
    let mut stream = new_stream();
    assert_eq!(read_stream(&mut stream, &[60, 100]), vec![]);
    let events = read_stream(&mut stream, &[0x80, 60, 0x93, 61, 101]);
    assert_eq!(events, vec![note_on(3, 61, 101)]);
}

#[test]
fn common_messages_end_at_the_next_status() {
    let mut stream = new_stream();
    assert_eq!(read_stream(&mut stream, &[0xF3, 9, 10]), vec![]);
    let song = LiveEvent::Common(SystemCommon::SongSelect(9));
    assert_eq!(read_stream(&mut stream, &[0x90]), vec![song]);
    assert_eq!(read_stream(&mut stream, &[0xF6]), vec![]);
    let tune = LiveEvent::Common(SystemCommon::TuneRequest);
    assert_eq!(read_stream(&mut stream, &[0xF7]), vec![tune]);
    // The end of an exclusive message is no event.
    assert_eq!(read_stream(&mut stream, &[1, 2, 0x90]), vec![]);
}

#[test]
fn exclusive_messages_have_room_for_64_bytes() {
    let sysex = LiveEvent::Common(SystemCommon::SysEx { has_data: false });
    let mut raw = vec![0xF0];
    raw.extend(vec![5; 64]);
    let mut stream = new_stream();
    assert_eq!(read_stream(&mut stream, &raw), vec![]);
    assert_eq!(read_stream(&mut stream, &[0xF7]), vec![sysex]);
    // One byte more, and the whole message is left out.
    raw.push(5);
    assert_eq!(read_stream(&mut stream, &raw), vec![]);
    assert_eq!(read_stream(&mut stream, &[0xF7]), vec![]);
}

#[test]
fn written_messages_come_back_through_the_stream() {
    let mut stream = new_stream();
    for channel in [0, 7, 15] {
        let messages = [
            MidiMessage::NoteOff { key: 1, vel: 127 },
            MidiMessage::NoteOn { key: 60, vel: 0 },
            MidiMessage::Aftertouch { key: 127, vel: 3 },
            MidiMessage::Controller { controller: 7, value: 100 },
            MidiMessage::ProgramChange { program: 12 },
            MidiMessage::ChannelAftertouch { vel: 99 },
            MidiMessage::PitchBend { bend: 16383 },
        ];
        for message in messages {
            let event = LiveEvent::Midi { channel, message };
            assert_eq!(read_stream(&mut stream, &event.to_bytes()), vec![event]);
        }
    }
}

#[test]
fn written_common_messages_come_back_with_the_next_status() {
    let mut stream = new_stream();
    let messages = [
        SystemCommon::MidiTimeCodeQuarterFrame(0x7F),
        SystemCommon::SongPosition(16383),
        SystemCommon::SongSelect(0),
        SystemCommon::TuneRequest,
        SystemCommon::Undefined(0xF5),
        SystemCommon::Undefined(0xF1),
    ];
    for message in messages {
        let event = LiveEvent::Common(message);
        assert_eq!(read_stream(&mut stream, &event.to_bytes()), vec![]);
        assert_eq!(read_stream(&mut stream, &[0x85]), vec![event]);
    }
    let sysex = LiveEvent::Common(SystemCommon::SysEx { has_data: false });
    assert_eq!(read_stream(&mut stream, &sysex.to_bytes()), vec![sysex]);
}

#[test]
fn the_buffer_refuses_what_does_not_fit() {
    let mut buffer = MidiStreamBuffer::default();
    let bytes = vec![u7::new(3); 65];
    assert_eq!(buffer.push(&bytes), Err(()));
    assert_eq!(buffer.as_slice().len(), 0);
    assert_eq!(buffer.push(&bytes[..60]), Ok(()));
    assert_eq!(buffer.push(&bytes[..5]), Err(()));
    assert_eq!(buffer.push(&[u7::new(1), u7::new(2)]), Ok(()));
    assert_eq!(buffer.as_slice()[60], u7::new(1));
    assert_eq!(buffer.as_slice()[61], u7::new(2));
    assert_eq!(buffer.as_slice().len(), 62);
    buffer.clear();
    assert_eq!(buffer.as_slice().len(), 0);
}

#[test]
fn decoded_bytes_are_the_event() {
    assert_eq!(LiveEvent::decode(&vec![0xB4, 1, 2]), LiveEvent::Midi {
        channel: 4,
        message: MidiMessage::Controller { controller: 1, value: 2 },
    });
    assert_eq!(LiveEvent::decode(&vec![0xF0, 0xF7]).to_bytes(), vec![0xF0, 0xF7]);
    assert_eq!(LiveEvent::decode(&vec![0xFE]), LiveEvent::Realtime(SystemRealtime::ActiveSensing));
}
