use faderpunk::app::{
    Action, App, AppError, AppMidiEvent, Buttons, Clock, Die, Faders, GateJack, Global, I2cOutput,
    InJack, Leds, MidiInput, MidiOutput, MidiSource, OutJack, PortMode, Quantizer, SceneEvent,
};
use faderpunk::latch::TakeoverMode;
use faderpunk::midi::{LiveEvent, MidiMessage, SystemRealtime};
use faderpunk::tasks::buttons::ButtonFlags;
use faderpunk::tasks::leds::{Led, LedMode, LedMsg};
use faderpunk::tasks::midi::{MidiEvent, MidiEventSource, MidiMsg};
use faderpunk::types::{
    Brightness, ClockEvent, Color, Curve, InputEvent, MidiCc, MidiChannel, MidiIn, MidiNote,
    MidiOut, ParamValue, Range, Value, Waveform,
};

const ALL: MidiOut = MidiOut { usb: true, out1: true, out2: true };

#[test]
fn leds_are_counted_from_the_first_channel() {
    let leds = Leds::<2>::new(4);
    let lit = LedMsg::Mode(LedMode::Static(Color::Red, Brightness::Mid));
    assert_eq!(
        leds.set(1, Led::Top, Color::Red, Brightness::Mid),
        Action::Led { channel: 5, led: Led::Top, msg: lit }
    );
    // Channels beyond the last count as the last.
    assert_eq!(
        leds.unset(9, Led::Button),
        Action::Led { channel: 5, led: Led::Button, msg: LedMsg::Reset }
    );
    let mode = LedMode::Flash(Color::Red, Some(4));
    assert_eq!(
        leds.set_mode(0, Led::Bottom, mode),
        Action::Led { channel: 4, led: Led::Bottom, msg: LedMsg::Mode(mode) }
    );
    assert_eq!(leds.unset_chan(0).len(), 3);
    let all = leds.unset_all();
    assert_eq!(all.len(), 6);
    assert_eq!(all[5], Action::Led { channel: 5, led: Led::Button, msg: LedMsg::Reset });
}

#[test]
fn jacks_scale_by_range() {
    assert_eq!(InJack::new(1, Range::_0_5V).get_value(1000), 2000);
    assert_eq!(InJack::new(1, Range::_0_5V).get_value(40000), 65535);
    assert_eq!(InJack::new(1, Range::_0_10V).get_value(1000), 1000);
    assert_eq!(
        OutJack::new(2, Range::_0_5V).set_value(4095),
        Action::Dac { channel: 2, value: 2047 }
    );
    assert_eq!(
        OutJack::new(2, Range::_Neg5_5V).set_value(4095),
        Action::Dac { channel: 2, value: 4095 }
    );
    assert_eq!(GateJack::new(3).set_high(), Action::Gate { channel: 3, high: true });
    assert_eq!(GateJack::new(3).set_low(), Action::Gate { channel: 3, high: false });
    for value in [0u16, 1, 2047, 4095] {
        let Action::Dac { value: raw, .. } = OutJack::new(0, Range::_0_5V).set_value(value) else {
            panic!("not a voltage");
        };
        assert_eq!(InJack::new(0, Range::_0_5V).get_value(raw), value / 2 * 2);
    }
}

#[test]
fn buttons_and_faders_pick_their_events() {
    let buttons = Buttons::<3>::new(5);
    assert_eq!(buttons.wait_for_any_down(InputEvent::ButtonDown(7), true), Some((2, true)));
    assert_eq!(buttons.wait_for_any_down(InputEvent::ButtonDown(8), true), None);
    assert_eq!(buttons.wait_for_any_down(InputEvent::ButtonDown(4), true), None);
    assert_eq!(buttons.wait_for_any_down(InputEvent::ButtonUp(7), true), None);
    assert_eq!(buttons.wait_for_down(1, InputEvent::ButtonDown(6), false), Some(false));
    assert_eq!(buttons.wait_for_down(1, InputEvent::ButtonDown(7), false), None);
    assert_eq!(buttons.wait_for_any_up(InputEvent::ButtonUp(5), false), Some((0, false)));
    assert_eq!(buttons.wait_for_up(9, InputEvent::ButtonUp(7), true), Some(true));
    assert_eq!(
        buttons.wait_for_any_long_press(InputEvent::ButtonLongPress(6), true),
        Some((1, true))
    );
    assert_eq!(buttons.wait_for_long_press(0, InputEvent::ButtonLongPress(6), true), None);
    let mut flags = ButtonFlags { pressed: [false; 18] };
    flags.pressed[7] = true;
    assert!(buttons.is_button_pressed(2, &flags));
    assert!(buttons.is_button_pressed(20, &flags));
    assert!(!buttons.is_shift_pressed(&flags));
    let mut values = [0u16; 16];
    values[6] = 77;
    let faders = Faders::<2>::new(5);
    assert_eq!(faders.wait_for_any_change(InputEvent::FaderChange(6)), Some(1));
    assert_eq!(faders.wait_for_any_change(InputEvent::FaderChange(7)), None);
    assert!(faders.wait_for_change_at(1, InputEvent::FaderChange(6)));
    assert_eq!(faders.get_value_at(1, &values), 77);
    assert_eq!(faders.get_all_values(&values), [0, 77]);
    assert_eq!(Faders::<1>::new(6).get_value(&values), 77);
    assert!(Faders::<1>::new(6).wait_for_change(InputEvent::FaderChange(6)));
}

#[test]
fn clock_divides_ticks_only() {
    let mut clock = Clock::new();
    assert_eq!(clock.wait_for_event(ClockEvent::Tick, 48, 24), Some(ClockEvent::Tick));
    assert_eq!(clock.wait_for_event(ClockEvent::Tick, 49, 24), None);
    assert_eq!(clock.get_ticker(), 49);
    assert_eq!(clock.wait_for_event(ClockEvent::Stop, 49, 24), Some(ClockEvent::Stop));
    assert_eq!(clock.wait_for_event(ClockEvent::Start, 1, 24), Some(ClockEvent::Start));
    assert_eq!(clock.wait_for_event(ClockEvent::Reset, 1, 24), Some(ClockEvent::Reset));
}

fn live(message: MidiMessage) -> Action {
    Action::Midi {
        start_channel: 3,
        msg: MidiMsg::new(
            LiveEvent::Midi { channel: 9, message },
            ALL,
            MidiEventSource::Local,
        ),
    }
}

#[test]
fn midi_output_scales_and_masks() {
    let port = MidiOutput::new(ALL, 3, 9, false);
    assert_eq!(
        port.send_cc(MidiCc(32), 4095),
        live(MidiMessage::Controller { controller: 32, value: 127 })
    );
    // Controllers beyond seven bits lose their high bits.
    assert_eq!(
        port.send_cc(MidiCc(300), 2048),
        live(MidiMessage::Controller { controller: 44, value: 63 })
    );
    assert_eq!(
        port.send_note_on(MidiNote(60), 4095),
        live(MidiMessage::NoteOn { key: 60, vel: 127 })
    );
    assert_eq!(
        port.send_note_off(MidiNote(200)),
        live(MidiMessage::NoteOff { key: 72, vel: 0 })
    );
    assert_eq!(
        port.send_aftertouch(130, 4095),
        live(MidiMessage::Aftertouch { key: 2, vel: 127 })
    );
    assert_eq!(
        port.send_pitch_bend(16384 + 5),
        live(MidiMessage::PitchBend { bend: 5 })
    );
    let wide = MidiOutput::new(ALL, 3, 9, true);
    assert_eq!(
        wide.send_cc(MidiCc(300), 2048),
        Action::Midi { start_channel: 3, msg: MidiMsg::nrpn(9, 300, 2048, ALL) }
    );
}

#[test]
fn midi_input_filters_channel_and_source() {
    let input = MidiInput::new(MidiIn { usb: true, din: false }, 4);
    let message = MidiMessage::NoteOn { key: 1, vel: 2 };
    let event = MidiEvent::Live(LiveEvent::Midi { channel: 4, message });
    let other = MidiEvent::Live(LiveEvent::Midi { channel: 5, message });
    assert_eq!(input.wait_for_message(MidiSource::Usb, event), Some(message));
    assert_eq!(input.wait_for_message(MidiSource::Din, event), None);
    assert_eq!(input.wait_for_message(MidiSource::Usb, other), None);
    assert_eq!(
        input.wait_for_event(MidiSource::Usb, event),
        Some(AppMidiEvent::Message(message))
    );
    let nrpn = MidiEvent::Nrpn { channel: 4, param: 9, value: 16383 };
    assert_eq!(
        input.wait_for_event(MidiSource::Usb, nrpn),
        Some(AppMidiEvent::Nrpn { param: 9, value: 4095 })
    );
    assert_eq!(input.wait_for_message(MidiSource::Usb, nrpn), None);
    let clock = MidiEvent::Live(LiveEvent::Realtime(SystemRealtime::TimingClock));
    assert_eq!(input.wait_for_event(MidiSource::Usb, clock), None);
}

#[test]
fn globals_are_shared_values() {
    let mut global = Global::new(5);
    assert_eq!(global.get(), 5);
    assert_eq!(global.set(6), 6);
    assert_eq!(global.modify(|v: &i32| *v * 2), 12);
    assert_eq!(global.get(), 12);
    let mut flag = Global::<bool>::default();
    assert!(!flag.get());
    assert!(flag.toggle());
    assert!(!flag.toggle());
}

#[test]
fn dice_and_quantizer_stay_in_range() {
    let die = Die::new();
    assert_eq!(die.roll(0xFF, 0xFF), 4095);
    assert_eq!(die.roll(0x34, 0x12), 0x234);
    assert_eq!(Quantizer::new(Range::_0_10V).get_quantized_note(5000), (4095, Range::_0_10V));
    assert_eq!(Quantizer::new(Range::_0_5V).get_quantized_note(12), (12, Range::_0_5V));
    let error = AppError::DeserializeFailed;
    assert_eq!(error, AppError::DeserializeFailed);
}

#[test]
fn apps_make_their_jacks() {
    let app = App::<2>::new(1, 6, 2);
    let (jack, action) = app.make_in_jack(0, Range::_Neg5_5V);
    assert_eq!(jack, InJack { channel: 6, range: Range::_Neg5_5V });
    assert_eq!(
        action,
        Action::Configure { channel: 6, mode: PortMode::Input { bipolar: true }, gpo_level: None }
    );
    let (jack, action) = app.make_out_jack(7, Range::_0_5V);
    assert_eq!(jack, OutJack { channel: 7, range: Range::_0_5V });
    assert_eq!(
        action,
        Action::Configure { channel: 7, mode: PortMode::Output { bipolar: false }, gpo_level: None }
    );
    let (_, action) = app.make_gate_jack(1, 4095);
    assert_eq!(
        action,
        Action::Configure { channel: 7, mode: PortMode::Gate, gpo_level: Some(4095) }
    );
    assert_eq!(
        app.use_midi_output(ALL, MidiChannel(16), true),
        MidiOutput { start_channel: 6, midi_channel: 15, midi_out: ALL, nrpn_mode: true }
    );
    assert_eq!(
        app.use_midi_input(MidiIn { usb: false, din: true }, MidiChannel(1)),
        MidiInput { midi_channel: 0, din_sub: true, usb_sub: false }
    );
    let i2c: I2cOutput<2> = app.use_i2c_output();
    assert_eq!(
        i2c.send_fader_value(1, 9, Range::_0_10V),
        Action::I2cFader { channel: 7, value: 9, range: Range::_0_10V }
    );
    assert!(app.make_latch(5, TakeoverMode::Jump).is_latched());
    assert_eq!(app.make_latch_with_mode(5, TakeoverMode::Scale).jitter_tolerance, 25);
    assert_eq!(app.make_global(3).get(), 3);
}

#[test]
fn apps_leave_nothing_behind() {
    let app = App::<2>::new(1, 6, 2);
    let actions = app.exit_handler();
    assert_eq!(actions.len(), 8);
    assert_eq!(
        actions[7],
        Action::Configure { channel: 7, mode: PortMode::Unused, gpo_level: None }
    );
    assert_eq!(
        app.wait_for_scene_event(InputEvent::LoadSceneFromMidi(4)),
        Some(SceneEvent::LoadScene(4))
    );
    assert_eq!(
        app.wait_for_scene_event(InputEvent::SaveScene(4)),
        Some(SceneEvent::SaveScene(4))
    );
    assert_eq!(app.wait_for_scene_event(InputEvent::FaderChange(4)), None);
    // An app without channels has nothing to leave.
    assert!(App::<0>::new(1, 6, 2).exit_handler().is_empty());
    assert!(Leds::<0>::new(6).unset_all().is_empty());
}

#[test]
fn values_round_trip() {
    assert_eq!(i32::from_value((-5i32).into_value()), -5);
    assert!(bool::from_value(true.into_value()));
    assert!(bool::from_value(Value::MidiNrpn(true)));
    assert!(!bool::from_value(Value::Int(1)));
    assert_eq!(usize::from_value(9usize.into_value()), 9);
    assert_eq!(MidiOut::from_value(Value::Int(0)), ALL);
    assert_eq!(Curve::from_value(Curve::Exponential.into_value()), Curve::Exponential);
    assert_eq!(MidiCc::of_channel(250, 10), MidiCc(255));
    assert_eq!(MidiCc::of_channel(32, 3), MidiCc(35));
    assert_eq!(MidiChannel(0).to_wire(), 0);
}

#[test]
fn curves_and_waves_cycle() {
    let mut wave = Waveform::Sine;
    let mut curve = Curve::Linear;
    for _ in 0..5 {
        wave = wave.cycle();
    }
    for _ in 0..3 {
        curve = curve.cycle();
    }
    assert_eq!(wave, Waveform::Sine);
    assert_eq!(Waveform::Sine.cycle(), Waveform::Triangle);
    assert_eq!(curve, Curve::Linear);
    assert_eq!(Curve::Linear.cycle(), Curve::Logarithmic);
    assert_eq!(Curve::Exponential.to_index(), 2);
}
