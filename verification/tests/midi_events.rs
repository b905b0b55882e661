use faderpunk::midi::{LiveEvent, MidiMessage, SystemCommon, SystemRealtime};
use faderpunk::tasks::midi::{
    cin_from_live_event, len_from_cin, midi_distributor, midi_in_task, midi_out_task,
    process_midi_event, write_msg_to_usb, CodeIndexNumber, DistributorEvent, MidiClockMsg,
    MidiDistributor, MidiEvent, MidiEventSource, MidiInAction, MidiInTaskEvent, MidiInputs, MidiMsg,
    MidiOutEvent, MidiOutTaskEvent, MidiOutputs, NrpnTracker,
};
use faderpunk::types::{ClockInEvent, ClockSrc, MidiIn, MidiOut, MidiOutConfig, MidiOutMode};

const ALL: MidiOut = MidiOut { usb: true, out1: true, out2: true };

fn note_on(channel: u8, key: u8, vel: u8) -> LiveEvent {
    LiveEvent::Midi { channel, message: MidiMessage::NoteOn { key, vel } }
}

fn cc(channel: u8, controller: u8, value: u8) -> LiveEvent {
    LiveEvent::Midi { channel, message: MidiMessage::Controller { controller, value } }
}

fn outs(usb: MidiOutMode, out1: MidiOutMode, out2: MidiOutMode) -> [MidiOutConfig; 3] {
    [MidiOutConfig { mode: usb }, MidiOutConfig { mode: out1 }, MidiOutConfig { mode: out2 }]
}

fn samples() -> Vec<LiveEvent> {
    let mut events = vec![
        LiveEvent::Midi { channel: 3, message: MidiMessage::NoteOff { key: 60, vel: 1 } },
        note_on(15, 127, 127),
        LiveEvent::Midi { channel: 1, message: MidiMessage::Aftertouch { key: 2, vel: 3 } },
        cc(0, 7, 100),
        LiveEvent::Midi { channel: 9, message: MidiMessage::ProgramChange { program: 12 } },
        LiveEvent::Midi { channel: 9, message: MidiMessage::ChannelAftertouch { vel: 99 } },
        LiveEvent::Midi { channel: 2, message: MidiMessage::PitchBend { bend: 0x2001 } },
        LiveEvent::Common(SystemCommon::SysEx { has_data: false }),
        LiveEvent::Common(SystemCommon::MidiTimeCodeQuarterFrame(0x35)),
        LiveEvent::Common(SystemCommon::SongPosition(5000)),
        LiveEvent::Common(SystemCommon::SongSelect(9)),
        LiveEvent::Common(SystemCommon::TuneRequest),
        LiveEvent::Common(SystemCommon::Undefined(0xF4)),
    ];
    for status in 0xF8..=0xFFu8 {
        events.push(LiveEvent::Realtime(SystemRealtime::new(status)));
    }
    events
}

#[test]
fn bytes_on_the_wire() {
    assert_eq!(note_on(2, 60, 100).to_bytes(), vec![0x92, 60, 100]);
    assert_eq!(cc(15, 1, 2).to_bytes(), vec![0xBF, 1, 2]);
    let bend = LiveEvent::Midi { channel: 0, message: MidiMessage::PitchBend { bend: 0x3FFF } };
    assert_eq!(bend.to_bytes(), vec![0xE0, 0x7F, 0x7F]);
    let program = LiveEvent::Midi { channel: 4, message: MidiMessage::ProgramChange { program: 3 } };
    assert_eq!(program.to_bytes(), vec![0xC4, 3]);
    assert_eq!(LiveEvent::Realtime(SystemRealtime::Stop).to_bytes(), vec![0xFC]);
    assert_eq!(SystemRealtime::Undefined(0xF9).encode(), 0xF9);
    assert_eq!(
        LiveEvent::Common(SystemCommon::SongPosition(300)).to_bytes(),
        vec![0xF2, 44, 2]
    );
}

#[test]
fn written_events_read_back() {
    for event in samples() {
        let mut bytes = event.to_bytes();
        assert_eq!(LiveEvent::parse(&bytes), Some(event));
        bytes.push(0x90);
        bytes.push(1);
        assert_eq!(LiveEvent::parse(&bytes), Some(event));
    }
}

#[test]
fn parses_the_leading_event_only() {
    // Data that follows is passed over.
    assert_eq!(LiveEvent::parse(&[0x91, 10, 20, 30]), Some(note_on(1, 10, 20)));
    // A data byte with its top bit set ends the data.
    assert_eq!(LiveEvent::parse(&[0x91, 10, 0x90]), None);
    assert_eq!(LiveEvent::parse(&[0x91, 10]), None);
    assert_eq!(LiveEvent::parse(&[]), None);
    assert_eq!(LiveEvent::parse(&[0x40, 1, 2]), None);
    assert_eq!(LiveEvent::parse(&[0xF7]), None);
    assert_eq!(
        LiveEvent::parse(&[0xF0, 1, 2, 3]),
        Some(LiveEvent::Common(SystemCommon::SysEx { has_data: false }))
    );
    assert_eq!(
        LiveEvent::parse(&[0xF2, 1]),
        Some(LiveEvent::Common(SystemCommon::Undefined(0xF2)))
    );
    assert_eq!(
        LiveEvent::parse(&[0xF5, 1]),
        Some(LiveEvent::Common(SystemCommon::Undefined(0xF5)))
    );
}

#[test]
fn packets_have_their_code_index() {
    assert_eq!(write_msg_to_usb(&note_on(1, 2, 3)), [0x9, 0x91, 2, 3]);
    assert_eq!(
        write_msg_to_usb(&LiveEvent::Realtime(SystemRealtime::TimingClock)),
        [0xF, 0xF8, 0, 0]
    );
    assert_eq!(
        write_msg_to_usb(&LiveEvent::Common(SystemCommon::SysEx { has_data: false })),
        [0x7, 0xF0, 0xF7, 0]
    );
    assert_eq!(
        cin_from_live_event(&LiveEvent::Common(SystemCommon::SysEx { has_data: true })),
        CodeIndexNumber::SysExStarts
    );
    assert_eq!(
        cin_from_live_event(&LiveEvent::Common(SystemCommon::Undefined(0xF4))).code(),
        0
    );
    let lens: Vec<usize> = (0..16u8).map(len_from_cin).collect();
    assert_eq!(lens, vec![0, 0, 2, 3, 3, 1, 2, 3, 3, 3, 3, 3, 2, 2, 3, 1]);
    // The cable number does not count.
    assert_eq!(len_from_cin(0x39), 3);
    for event in samples() {
        if let LiveEvent::Common(_) = event {
            continue;
        }
        let packet = write_msg_to_usb(&event);
        let len = len_from_cin(packet[0]);
        assert_eq!(LiveEvent::parse(&packet[1..1 + len]), Some(event));
    }
}

fn local(tag: u8) -> MidiMsg {
    MidiMsg::new(note_on(0, tag, 1), ALL, MidiEventSource::Local)
}

#[test]
fn distributor_serves_apps_in_turn() {
    let mut distributor = MidiDistributor::new();
    for i in 0..3 {
        distributor.enqueue(0, local(i));
        distributor.enqueue(5, local(50 + i));
    }
    distributor.enqueue(1, local(10));
    // The first app was served last, so the second one is next.
    let sent = distributor.burst();
    assert_eq!(
        sent,
        vec![local(10), local(50), local(0), local(51), local(1), local(52), local(2)]
    );
    assert_eq!(distributor.burst(), vec![]);
}

#[test]
fn distributor_bursts_are_bounded_and_queues_are_full_at_sixteen() {
    let mut distributor = MidiDistributor::new();
    for i in 0..20 {
        distributor.enqueue(3, local(i));
    }
    let first = distributor.burst();
    let second = distributor.burst();
    let third = distributor.burst();
    assert_eq!(first, (0..8).map(local).collect::<Vec<_>>());
    assert_eq!(second, (8..16).map(local).collect::<Vec<_>>());
    assert_eq!(third, vec![]);
}

#[test]
fn distributor_hands_messages_to_the_outputs() {
    let mut distributor = MidiDistributor::new();
    let event = DistributorEvent::Message { start_channel: 2, message: local(9) };
    assert_eq!(midi_distributor(&mut distributor, event), vec![]);
    assert_eq!(
        midi_distributor(&mut distributor, DistributorEvent::Tick),
        vec![MidiOutEvent::Event(local(9))]
    );
}

#[test]
fn thru_and_silent_ports_send_nothing_local() {
    let both = MidiIn { usb: true, din: true };
    let mut outputs = MidiOutputs::new(outs(
        MidiOutMode::Local,
        MidiOutMode::MidiThru { sources: both },
        MidiOutMode::Silent,
    ));
    let sent = midi_out_task(&mut outputs, MidiOutTaskEvent::Send(MidiOutEvent::Event(local(1))));
    assert_eq!(sent.len(), 1);
    assert_eq!(sent[0].target, MidiOut { usb: true, out1: false, out2: false });
    let passed = MidiMsg::new(note_on(0, 1, 1), ALL, MidiEventSource::Passthrough);
    let sent = midi_out_task(&mut outputs, MidiOutTaskEvent::Send(MidiOutEvent::Event(passed)));
    assert_eq!(sent[0].target, ALL);
    let clock = MidiOutEvent::Clock(MidiClockMsg::new(SystemRealtime::Start, ALL));
    let sent = midi_out_task(&mut outputs, MidiOutTaskEvent::Send(clock));
    assert_eq!(sent[0].event, LiveEvent::Realtime(SystemRealtime::Start));
    assert_eq!(sent[0].target, ALL);
    let merge = MidiOutMode::MidiMerge { sources: both };
    midi_out_task(&mut outputs, MidiOutTaskEvent::Config(outs(merge, merge, merge)));
    let sent = midi_out_task(&mut outputs, MidiOutTaskEvent::Send(MidiOutEvent::Event(local(1))));
    assert_eq!(sent[0].target, ALL);
}

#[test]
fn parameter_changes_go_out_and_come_back() {
    let outputs = MidiOutputs::new(outs(MidiOutMode::Local, MidiOutMode::Local, MidiOutMode::Local));
    let sent = outputs.send(MidiOutEvent::Event(MidiMsg::nrpn(4, 1000, 4095, ALL)));
    let events: Vec<LiveEvent> = sent.iter().map(|t| t.event).collect();
    assert_eq!(events, vec![cc(4, 99, 7), cc(4, 98, 104), cc(4, 6, 127), cc(4, 38, 127)]);
    let mut tracker = NrpnTracker::default();
    assert_eq!(tracker.process_cc(4, 99, 7), None);
    assert_eq!(tracker.process_cc(4, 98, 104), None);
    assert_eq!(tracker.process_cc(4, 6, 127), None);
    assert_eq!(
        tracker.process_cc(4, 38, 127),
        Some(MidiEvent::Nrpn { channel: 4, param: 1000, value: 16383 })
    );
    // The value is complete: another low half is a plain controller.
    assert_eq!(tracker.process_cc(4, 38, 1), Some(MidiEvent::Live(cc(4, 38, 1))));
}

#[test]
fn plain_controllers_pass_the_tracker() {
    let mut tracker = NrpnTracker::default();
    assert_eq!(tracker.process_cc(0, 1, 2), Some(MidiEvent::Live(cc(0, 1, 2))));
    // Without a parameter number the data entry is a plain controller.
    assert_eq!(tracker.process_cc(0, 6, 2), Some(MidiEvent::Live(cc(0, 6, 2))));
    assert_eq!(tracker.process_cc(0, 99, 2), None);
    assert_eq!(tracker.process_cc(0, 6, 2), Some(MidiEvent::Live(cc(0, 6, 2))));
}

fn fresh_trackers() -> Vec<NrpnTracker> {
    (0..16).map(|_| NrpnTracker::default()).collect()
}

#[test]
fn realtime_messages_go_to_the_clock() {
    let mut trackers = fresh_trackers();
    let cases = [
        (SystemRealtime::TimingClock, ClockInEvent::Tick(ClockSrc::MidiIn)),
        (SystemRealtime::Start, ClockInEvent::Start(ClockSrc::MidiIn)),
        (SystemRealtime::Stop, ClockInEvent::Stop(ClockSrc::MidiIn)),
        (SystemRealtime::Continue, ClockInEvent::Continue(ClockSrc::MidiIn)),
        (SystemRealtime::Reset, ClockInEvent::Reset(ClockSrc::MidiIn)),
    ];
    for (message, clock) in cases {
        let event = LiveEvent::Realtime(message);
        assert_eq!(
            process_midi_event(&event, &mut trackers, ALL, ClockSrc::MidiIn),
            vec![MidiInAction::Clock(clock)]
        );
    }
    let sensing = LiveEvent::Realtime(SystemRealtime::ActiveSensing);
    assert_eq!(process_midi_event(&sensing, &mut trackers, ALL, ClockSrc::MidiIn), vec![]);
}

#[test]
fn program_changes_load_scenes() {
    let mut trackers = fresh_trackers();
    let thru = MidiOut { usb: false, out1: true, out2: false };
    for (program, loads) in [(0u8, true), (15, true), (16, false)] {
        let event = LiveEvent::Midi { channel: 0, message: MidiMessage::ProgramChange { program } };
        let actions = process_midi_event(&event, &mut trackers, thru, ClockSrc::MidiUsb);
        assert_eq!(actions.contains(&MidiInAction::LoadScene(program)), loads);
        let passed = MidiMsg::new(event, thru, MidiEventSource::Passthrough);
        assert!(actions.contains(&MidiInAction::Send(MidiOutEvent::Event(passed))));
        assert_eq!(
            actions.last(),
            Some(&MidiInAction::Publish(MidiEvent::Live(event)))
        );
    }
}

#[test]
fn usb_packets_are_read_by_fours() {
    let thru = MidiOutMode::MidiThru { sources: MidiIn { usb: true, din: false } };
    let mut inputs = MidiInputs::new(outs(MidiOutMode::Local, thru, MidiOutMode::Silent));
    // A note, an empty packet, a truncated event, a clock tick, and a stray byte.
    let raw = vec![
        0x09, 0x90, 60, 100, 0x00, 1, 2, 3, 0x09, 0x90, 60, 0x80, 0x0F, 0xF8, 0, 0, 0x09,
    ];
    let actions = midi_in_task(&mut inputs, MidiInTaskEvent::Usb(raw));
    let passed = MidiMsg::new(
        note_on(0, 60, 100),
        MidiOut { usb: false, out1: true, out2: false },
        MidiEventSource::Passthrough,
    );
    assert_eq!(
        actions,
        vec![
            MidiInAction::Send(MidiOutEvent::Event(passed)),
            MidiInAction::Publish(MidiEvent::Live(note_on(0, 60, 100))),
            MidiInAction::Clock(ClockInEvent::Tick(ClockSrc::MidiUsb)),
        ]
    );
}

#[test]
fn forwarding_follows_the_settings() {
    let usb_only = MidiIn { usb: true, din: false };
    let din_only = MidiIn { usb: false, din: true };
    let mut inputs = MidiInputs::new(outs(
        MidiOutMode::MidiThru { sources: usb_only },
        MidiOutMode::MidiThru { sources: din_only },
        MidiOutMode::MidiMerge { sources: din_only },
    ));
    assert_eq!(inputs.midi_passthru_from_din, MidiOut { usb: false, out1: true, out2: true });
    assert_eq!(inputs.midi_passthru_from_usb, MidiOut { usb: true, out1: false, out2: false });
    let event = MidiInTaskEvent::Config(outs(
        MidiOutMode::Local,
        MidiOutMode::Silent,
        MidiOutMode::MidiMerge { sources: usb_only },
    ));
    assert_eq!(midi_in_task(&mut inputs, event), vec![]);
    assert_eq!(inputs.midi_passthru_from_din, MidiOut { usb: false, out1: false, out2: false });
    assert_eq!(inputs.midi_passthru_from_usb, MidiOut { usb: false, out1: false, out2: true });
    let both = MidiIn { usb: true, din: true };
    let neither = MidiIn { usb: false, din: false };
    let event = MidiInTaskEvent::Config(outs(
        MidiOutMode::MidiMerge { sources: both },
        MidiOutMode::MidiMerge { sources: neither },
        MidiOutMode::MidiThru { sources: neither },
    ));
    assert_eq!(midi_in_task(&mut inputs, event), vec![]);
    assert_eq!(inputs.midi_passthru_from_din, MidiOut { usb: true, out1: false, out2: false });
    assert_eq!(inputs.midi_passthru_from_usb, MidiOut { usb: true, out1: false, out2: false });
}

#[test]
fn trackers_are_kept_per_input_and_channel() {
    let mut inputs =
        MidiInputs::new(outs(MidiOutMode::Local, MidiOutMode::Local, MidiOutMode::Local));
    let raw = vec![0xB3, 99, 1, 98, 2, 6, 3];
    midi_in_task(&mut inputs, MidiInTaskEvent::Din(raw));
    assert_eq!(inputs.din_nrpn_trackers[3].value_msb, Some(3));
    assert_eq!(inputs.usb_nrpn_trackers[3].value_msb, None);
    assert_eq!(inputs.din_nrpn_trackers[2].param_msb, None);
    let actions = midi_in_task(&mut inputs, MidiInTaskEvent::Din(vec![38, 4]));
    assert_eq!(
        actions.last(),
        Some(&MidiInAction::Publish(MidiEvent::Nrpn { channel: 3, param: 130, value: 388 }))
    );
    let tune = LiveEvent::Common(SystemCommon::TuneRequest);
    let actions = midi_in_task(&mut inputs, MidiInTaskEvent::Din(vec![0xF6, 0xF7]));
    assert_eq!(actions[0], MidiInAction::Publish(MidiEvent::Live(tune)));
    assert_eq!(actions.len(), 2);
}

#[test]
fn an_arrival_gives_at_most_64_events() {
    let local = outs(MidiOutMode::Local, MidiOutMode::Local, MidiOutMode::Local);
    let mut inputs = MidiInputs::new(local);
    let mut raw = vec![0xF8; 63];
    raw.push(0xFA);
    raw.push(0xFC);
    raw.push(0x90);
    let actions = midi_in_task(&mut inputs, MidiInTaskEvent::Din(raw));
    assert_eq!(actions.len(), 64);
    assert_eq!(actions[62], MidiInAction::Clock(ClockInEvent::Tick(ClockSrc::MidiIn)));
    assert_eq!(actions[63], MidiInAction::Clock(ClockInEvent::Start(ClockSrc::MidiIn)));
    // The bytes behind the last event were taken in all the same.
    let actions = midi_in_task(&mut inputs, MidiInTaskEvent::Din(vec![60, 100]));
    assert_eq!(actions.last(), Some(&MidiInAction::Publish(MidiEvent::Live(note_on(0, 60, 100)))));
}

#[test]
fn the_serial_input_passes_on_to_its_targets() {
    let din_only = MidiIn { usb: false, din: true };
    let mut inputs = MidiInputs::new(outs(
        MidiOutMode::MidiMerge { sources: din_only },
        MidiOutMode::Local,
        MidiOutMode::MidiThru { sources: din_only },
    ));
    let actions = midi_in_task(&mut inputs, MidiInTaskEvent::Din(vec![0x95, 60, 100]));
    let target = MidiOut { usb: true, out1: false, out2: true };
    let message = MidiMsg::new(note_on(5, 60, 100), target, MidiEventSource::Passthrough);
    assert_eq!(
        actions,
        vec![
            MidiInAction::Send(MidiOutEvent::Event(message)),
            MidiInAction::Publish(MidiEvent::Live(note_on(5, 60, 100))),
        ]
    );
}
