use faderpunk::app::{Action, App, AppMidiEvent, Quantized};
use faderpunk::apps::clk_div::{self, ClockDivider};
use faderpunk::apps::clkturing::{self, rotate_select_bit, scale_to_12bit, Turing};
use faderpunk::apps::cv2midi::{self, CvToCc};
use faderpunk::apps::cv2midinote::{self, CvToNote};
use faderpunk::apps::midi2cv::{self, MidiToCv};
use faderpunk::apps::notefader::{self, NoteFader};
use faderpunk::apps::parts::{division_for, layer_for, part_division, Rolls};
use faderpunk::apps::quantizer::{self, QuantizerApp};
use faderpunk::apps::rnd::{self, Random};
use faderpunk::apps::rnd_plus::{
    self, mod_with_input, resolution_with_input_offset, RandomPlus,
};
use faderpunk::latch::{LatchLayer, TakeoverMode};
use faderpunk::midi::{LiveEvent, MidiMessage};
use faderpunk::tables::Tables;
use faderpunk::tasks::leds::{Led, LedMode, LedMsg};
use faderpunk::tasks::midi::{MidiEventSource, MidiMsg};
use faderpunk::types::{Brightness, ClockEvent, Color, MidiMode, MidiNote, MidiOut, Range};

const ALL: MidiOut = MidiOut { usb: true, out1: true, out2: true };
const NONE: MidiOut = MidiOut { usb: false, out1: false, out2: false };

fn tables() -> Tables {
    let straight: Vec<u16> = (0..4096).collect();
    Tables {
        linear: straight.clone(),
        logarithmic: straight.clone(),
        exponential: (0..4096u16).map(|x| x / 2).collect(),
        triangle: straight.clone(),
        saw: straight.clone(),
        saw_inv: straight.clone(),
        square: straight.clone(),
        sine: straight,
    }
}

fn led(channel: usize, led: Led, color: Color, brightness: Brightness) -> Action {
    Action::Led { channel, led, msg: LedMsg::Mode(LedMode::Static(color, brightness)) }
}

fn dark(channel: usize, led: Led) -> Action {
    Action::Led { channel, led, msg: LedMsg::Reset }
}

fn dac(channel: usize, value: u16) -> Action {
    Action::Dac { channel, value }
}

fn gate(channel: usize, high: bool) -> Action {
    Action::Gate { channel, high }
}

fn midi(start_channel: usize, out: MidiOut, message: MidiMessage) -> Action {
    Action::Midi {
        start_channel,
        msg: MidiMsg::new(
            LiveEvent::Midi { channel: 0, message },
            out,
            MidiEventSource::Local,
        ),
    }
}

fn on(start: usize, out: MidiOut, key: u8) -> Action {
    midi(start, out, MidiMessage::NoteOn { key, vel: 127 })
}

fn off(start: usize, out: MidiOut, key: u8) -> Action {
    midi(start, out, MidiMessage::NoteOff { key, vel: 0 })
}

fn cc(start: usize, controller: u8, value: u8) -> Action {
    midi(start, ALL, MidiMessage::Controller { controller, value })
}

fn note(counts: u16, note: u8) -> Quantized {
    Quantized { counts, note: MidiNote(note) }
}

const ROLLS: Rolls = Rolls { value: 3200, red: 160, green: 320, blue: 4095 };

#[test]
fn layers_and_divisions() {
    assert_eq!(layer_for(true, false), LatchLayer::Alt);
    assert_eq!(layer_for(false, true), LatchLayer::Third);
    assert_eq!(layer_for(true, true), LatchLayer::Main);
    assert_eq!(layer_for(false, false), LatchLayer::Main);
    assert_eq!(division_for(0), 384);
    assert_eq!(division_for(344), 384);
    assert_eq!(division_for(345), 192);
    assert_eq!(division_for(4095), 2);
    assert_eq!(division_for(65535), 2);
    assert_eq!(part_division(24, 50), 12);
    assert_eq!(part_division(24, 0), 1);
    assert_eq!(part_division(24, 100), 23);
    assert_eq!(ROLLS.get_color(false), Color::Custom(10, 20, 255));
    assert_eq!(ROLLS.get_color(true), Color::Custom(0, 0, 0));
}

fn quantizer_app() -> QuantizerApp {
    let app = App::new(1, 4, 0);
    let (params, storage) = quantizer::wrapper(app);
    let (state, actions) =
        QuantizerApp::new(app, params.inner, storage.inner, [0, 0], TakeoverMode::Jump);
    assert_eq!(actions.len(), 6);
    state
}

#[test]
fn quantizer_moves_the_input() {
    let mut state = quantizer_app();
    // The middle of the octave fader lies in the step below the middle.
    assert_eq!(state.request(1000), 590);
    state.run(quantizer::Event::Fader { chan: 1, value: 2048 });
    assert_eq!(state.request(1000), 1000);
    state.run(quantizer::Event::Fader { chan: 0, value: 2100 });
    assert_eq!(state.request(1000), 1205);
    assert_eq!(state.request(4000), 4095);
    assert_eq!(
        state.run(quantizer::Event::Down { chan: 0, shift: false }),
        vec![Action::Save, dark(4, Led::Button)]
    );
    assert_eq!(state.request(1000), 1000);
    assert!(state.run(quantizer::Event::Down { chan: 0, shift: true }).is_empty());
    assert_eq!(
        state.run(quantizer::Event::Down { chan: 0, shift: false }),
        vec![Action::Save, led(4, Led::Button, Color::Blue, Brightness::Mid)]
    );
    assert_eq!(state.request(1000), 1205);
    // 205 * 255 does not fit 16 bits with a sign.
    assert_eq!(
        state.run(quantizer::Event::Millisecond { counts: 3072 }),
        vec![
            dac(5, 3072),
            led(5, Led::Top, Color::Blue, Brightness::Custom(128)),
            led(5, Led::Bottom, Color::Blue, Brightness::Custom(0)),
            led(4, Led::Top, Color::Blue, Brightness::Custom(224)),
        ]
    );
}

#[test]
fn controller_from_an_input() {
    let app = App::new(1, 3, 0);
    let (params, storage) = cv2midi::wrapper(app);
    let (mut state, actions) =
        CvToCc::new(app, params.inner, storage.inner, 0, TakeoverMode::Jump);
    assert_eq!(actions.len(), 2);
    // Unipolar inputs count twice.
    assert_eq!(
        state.run(cv2midi::Event::Millisecond { shift: false, raw: 1000 }),
        vec![led(3, Led::Top, Color::Violet, Brightness::Custom(125)), cc(3, 35, 62)]
    );
    assert_eq!(state.run(cv2midi::Event::Millisecond { shift: false, raw: 1000 }).len(), 1);
    assert_eq!(state.run(cv2midi::Event::Fader(500)), vec![Action::Save]);
    assert_eq!(
        state.run(cv2midi::Event::Millisecond { shift: true, raw: 4095 }),
        vec![led(3, Led::Top, Color::Red, Brightness::Custom(255)), cc(3, 35, 127)]
    );
    assert_eq!(
        state.run(cv2midi::Event::Down),
        vec![Action::Save, dark(3, Led::Button)]
    );
    assert_eq!(
        state.run(cv2midi::Event::Millisecond { shift: false, raw: 4095 })[1],
        cc(3, 35, 0)
    );
    state.params.bipolar = true;
    assert_eq!(
        state.run(cv2midi::Event::Millisecond { shift: false, raw: 4095 }),
        vec![
            led(3, Led::Top, Color::Violet, Brightness::Custom(0)),
            led(3, Led::Bottom, Color::Violet, Brightness::Custom(0)),
            cc(3, 35, 63),
        ]
    );
    assert_eq!(
        state.run(cv2midi::Event::LoadScene(cv2midi::Storage::default())),
        vec![led(3, Led::Button, Color::Violet, Brightness::Mid)]
    );
    assert!(!state.muted);
}

#[test]
fn offsets_of_a_controller_are_kept_in_16_bits() {
    let app = App::new(1, 3, 0);
    let (params, storage) = cv2midi::wrapper(app);
    let (mut state, _) = CvToCc::new(app, params.inner, storage.inner, 0, TakeoverMode::Jump);
    let mut reads = |bipolar, att_saved, offset_saved, raw| {
        state.params.bipolar = bipolar;
        state.storage.att_saved = att_saved;
        state.storage.offset_saved = offset_saved;
        state.run(cv2midi::Event::Millisecond { shift: false, raw });
        state.old_midi
    };
    assert_eq!(reads(false, 4095, 65000, 1000), 1464 / 32);
    assert_eq!(reads(false, 8190, 0, 500), 2000 / 32);
    assert_eq!(reads(false, 4095, 0, 33000), 464 / 32);
    // With a sign, 65535 is one below the middle.
    assert_eq!(reads(true, 4095, 65535, 4095), 2047 / 32);
    assert_eq!(reads(true, 4095, 40000, 4095), 0);
    assert_eq!(reads(true, 4095, 32768, 0), 4095 / 32);
}

#[test]
fn a_waiting_note_hides_its_gate() {
    let app = App::new(1, 2, 0);
    let (params, storage) = cv2midinote::wrapper(app);
    let (mut state, _) =
        CvToNote::new(app, params.inner, storage.inner, [0, 0], TakeoverMode::Jump);
    state.params.delay = 20;
    state.run(cv2midinote::Event::Gate(4000));
    assert_eq!(state.waiting(), Some(20));
    // While the note waits, gates pass unseen; buttons are still heard.
    assert!(state.run(cv2midinote::Event::Gate(0)).is_empty());
    assert!(state.run(cv2midinote::Event::Gate(4000)).is_empty());
    assert_eq!(state.run(cv2midinote::Event::Down { chan: 0 })[0], Action::Save);
    let actions = state.run(cv2midinote::Event::Play { raw: 4000, note: MidiNote(70) });
    assert_eq!(actions.len(), 5);
    assert_eq!(state.waiting(), None);
    assert!(state.run(cv2midinote::Event::Gate(4000)).is_empty());
    assert_eq!(state.run(cv2midinote::Event::Gate(0)).len(), 3);
}

#[test]
fn notes_from_voltage_and_gate() {
    let app = App::new(1, 2, 0);
    let (params, storage) = cv2midinote::wrapper(app);
    let (mut state, actions) =
        CvToNote::new(app, params.inner, storage.inner, [0, 0], TakeoverMode::Jump);
    assert_eq!(actions.len(), 5);
    assert_eq!(state.waiting(), None);
    assert!(state.run(cv2midinote::Event::Gate(4000)).is_empty());
    assert_eq!(state.waiting(), Some(0));
    // Six semitones up, five octaves down.
    assert_eq!(state.request(4000), 4000 + 170 - 2050);
    let actions = state.run(cv2midinote::Event::Play { raw: 4000, note: MidiNote(70) });
    assert_eq!(actions[0], on(2, ALL, 70));
    assert_eq!(actions.len(), 5);
    assert_eq!(state.waiting(), None);
    // Only a waiting note is played.
    assert!(state.run(cv2midinote::Event::Play { raw: 0, note: MidiNote(1) }).is_empty());
    assert_eq!(
        state.run(cv2midinote::Event::Gate(0)),
        vec![
            off(2, ALL, 70),
            led(3, Led::Button, Color::Orange, Brightness::High),
            dark(3, Led::Top),
        ]
    );
    assert_eq!(
        state.run(cv2midinote::Event::Down { chan: 1 }),
        vec![Action::Save, dark(3, Led::Button)]
    );
    state.run(cv2midinote::Event::Gate(4000));
    assert_eq!(state.waiting(), None);
    state.run(cv2midinote::Event::Down { chan: 0 });
    assert_eq!(state.request(4000), 4000 - 2050);
    state.run(cv2midinote::Event::Fader { chan: 1, value: 4095 });
    assert_eq!(state.request(0), 2050);
}

fn voice(mode: usize) -> MidiToCv {
    let app = App::new(1, 5, 0);
    let (params, storage) = midi2cv::wrapper(app);
    let mut params = params.inner;
    params.mode = mode;
    let (state, midi_in, actions) =
        MidiToCv::new(app, params, storage.inner, 0, TakeoverMode::Jump);
    assert!(midi_in.usb_sub && midi_in.din_sub);
    assert_eq!(actions.len(), 3);
    state
}

fn message(message: MidiMessage) -> midi2cv::Event {
    midi2cv::Event::Midi { event: AppMidiEvent::Message(message), bent: 1234 }
}

#[test]
fn voltages_from_controllers() {
    let tables = tables();
    let mut state = voice(0);
    state.run(message(MidiMessage::Controller { controller: 37, value: 127 }), &tables);
    assert_eq!(state.offset, 4095);
    state.run(message(MidiMessage::Controller { controller: 38, value: 0 }), &tables);
    assert_eq!(state.offset, 4095);
    let nrpn = AppMidiEvent::Nrpn { param: 37, value: 16383 };
    state.run(midi2cv::Event::Midi { event: nrpn, bent: 0 }, &tables);
    assert_eq!(state.offset, 4095);
    for _ in 0..200 {
        state.run(midi2cv::Event::Millisecond { shift: false, fader: 0, glide: 0 }, &tables);
    }
    assert_eq!(
        state.run(midi2cv::Event::Millisecond { shift: false, fader: 0, glide: 0 }, &tables),
        vec![dac(5, 4095), led(5, Led::Top, Color::Cyan, Brightness::Custom(255))]
    );
}

#[test]
fn voltages_from_notes() {
    let tables = tables();
    let mut state = voice(1);
    let play = |key| message(MidiMessage::NoteOn { key, vel: 100 });
    // 2048 of 4095 on the octave fader is no octave.
    assert_eq!(
        state.run(play(60), &tables),
        vec![led(5, Led::Top, Color::Cyan, Brightness::Custom(128))]
    );
    assert_eq!(state.pitch, 2050);
    assert!(!state.glide_active);
    state.run(play(72), &tables);
    assert_eq!((state.pitch, state.note_num), (2460, 2));
    assert!(state.glide_active);
    state.run(message(MidiMessage::NoteOff { key: 60, vel: 0 }), &tables);
    state.run(message(MidiMessage::NoteOn { key: 72, vel: 0 }), &tables);
    assert_eq!(state.note_num, 0);
    assert!(!state.glide_active);
    let actions = state.run(message(MidiMessage::PitchBend { bend: 16383 }), &tables);
    assert_eq!(
        actions,
        vec![
            led(5, Led::Top, Color::Cyan, Brightness::Custom(254)),
            led(5, Led::Bottom, Color::Cyan, Brightness::Custom(0)),
        ]
    );
    assert_eq!(state.offset, 1234);
}

#[test]
fn gates_and_levels_from_notes() {
    let tables = tables();
    let mut state = voice(2);
    let play = || message(MidiMessage::NoteOn { key: 60, vel: 127 });
    let end = || message(MidiMessage::NoteOff { key: 60, vel: 0 });
    assert_eq!(
        state.run(play(), &tables),
        vec![dac(5, 4095), led(5, Led::Top, Color::Cyan, Brightness::Mid)]
    );
    state.run(play(), &tables);
    assert!(state.run(end(), &tables).is_empty());
    assert_eq!(state.run(end(), &tables), vec![dac(5, 0), dark(5, Led::Top)]);
    // One note only.
    let mut state = voice(6);
    assert!(state.run(play(), &tables).is_empty());
    assert_eq!(state.run(message(MidiMessage::NoteOn { key: 36, vel: 1 }), &tables).len(), 2);
    let mut state = voice(3);
    assert_eq!(
        state.run(message(MidiMessage::NoteOn { key: 1, vel: 64 }), &tables),
        vec![dac(5, 2063), led(5, Led::Top, Color::Cyan, Brightness::Custom(128))]
    );
    assert_eq!(
        state.run(midi2cv::Event::Down, &tables),
        vec![Action::Save, dark(5, Led::Button), dac(5, 0), dark(5, Led::Top)]
    );
    let mut state = voice(4);
    state.run(message(MidiMessage::ChannelAftertouch { vel: 127 }), &tables);
    assert_eq!(state.offset, 4095);
    let mut state = voice(2);
    state.params.gate_vel = true;
    assert_eq!(
        state.run(message(MidiMessage::NoteOn { key: 1, vel: 64 }), &tables)[0],
        dac(5, 2266)
    );
}

#[test]
fn glide_time_is_edited_with_shift() {
    let tables = tables();
    let mut state = voice(1);
    assert_eq!(state.glide, 100);
    state.run(midi2cv::Event::Millisecond { shift: true, fader: 0, glide: 0 }, &tables);
    assert_eq!(state.run(midi2cv::Event::Fader(2048), &tables), vec![Action::Save]);
    assert_eq!(state.glide, 50);
    assert_eq!(state.storage.alt_layer_val, 2048);
}

fn divider() -> ClockDivider {
    let app = App::new(1, 7, 0);
    let (params, storage) = clk_div::wrapper(app);
    let (state, actions) =
        ClockDivider::new(app, params.inner, storage.inner, 0, TakeoverMode::Jump);
    assert_eq!(actions.len(), 2);
    state
}

#[test]
fn clock_is_divided() {
    let mut state = divider();
    assert_eq!((state.div, state.max, state.min), (6, 2, 384));
    let tick = |ticks| clk_div::Event::Clock { event: ClockEvent::Tick, ticks };
    assert_eq!(
        state.run(tick(12)),
        vec![
            gate(7, true),
            led(7, Led::Bottom, Color::Blue, Brightness::High),
            on(7, NONE, 32),
        ]
    );
    assert!(state.run(tick(14)).is_empty());
    assert_eq!(
        state.run(tick(15)),
        vec![
            off(7, NONE, 32),
            gate(7, false),
            led(7, Led::Top, Color::Cyan, Brightness::Off),
            led(7, Led::Bottom, Color::Cyan, Brightness::Off),
        ]
    );
    let stop = clk_div::Event::Clock { event: ClockEvent::Stop, ticks: 16 };
    assert_eq!(state.run(stop), vec![off(7, NONE, 32), gate(7, false)]);
    assert_eq!(
        state.run(clk_div::Event::Down { shift: true }),
        vec![Action::Save, gate(7, false), dark(7, Led::Button)]
    );
    assert!(state.run(tick(12)).is_empty());
}

#[test]
fn divisions_stay_within_their_limits() {
    let mut state = divider();
    state.run(clk_div::Event::Layer { shift: false, button: true });
    state.run(clk_div::Event::Fader(2000));
    assert_eq!((state.storage.min_div, state.min), (2000, 16));
    state.run(clk_div::Event::Layer { shift: true, button: false });
    state.run(clk_div::Event::Fader(1000));
    assert_eq!((state.storage.max_div, state.max), (2000, 96));
    state.run(clk_div::Event::Layer { shift: false, button: false });
    state.run(clk_div::Event::Fader(4000));
    assert_eq!(state.div, 16);
    assert_eq!(state.storage.fader_saved, 4000);
}

fn fader_notes() -> NoteFader {
    let app = App::new(1, 9, 0);
    let (params, storage) = notefader::wrapper(app);
    let (state, actions) =
        NoteFader::new(app, params.inner, storage.inner, 0, TakeoverMode::Jump);
    assert_eq!(actions.len(), 2);
    state
}

#[test]
fn fader_plays_notes_by_button() {
    let mut state = fader_notes();
    assert_eq!(state.run(notefader::Event::Fader(4000)), vec![Action::Save]);
    assert_eq!(state.request(), 900);
    assert_eq!(
        state.run(notefader::Event::Down { shift: false, played: note(910, 74) }),
        vec![
            led(9, Led::Top, Color::Rose, Brightness::Mid),
            dac(9, 910),
            on(9, ALL, 74),
            led(9, Led::Button, Color::Rose, Brightness::Mid),
        ]
    );
    assert_eq!(
        state.run(notefader::Event::Up { shift: false }),
        vec![
            off(9, ALL, 74),
            led(9, Led::Top, Color::Rose, Brightness::Off),
            led(9, Led::Button, Color::Rose, Brightness::Low),
        ]
    );
    state.params.outmode = 1;
    let actions = state.run(notefader::Event::Down { shift: false, played: note(910, 74) });
    assert_eq!(actions[1], dac(9, 4095));
    assert_eq!(state.run(notefader::Event::Up { shift: false })[1], dac(9, 0));
}

#[test]
fn spans_below_zero_are_rounded_toward_zero() {
    let mut state = fader_notes();
    let mut asks = |span, note_saved| {
        state.params.span = span;
        state.storage.note_saved = note_saved;
        state.request()
    };
    assert_eq!(asks(-3, 4000), 0);
    assert_eq!(asks(-4, 100), 0);
    // Below zero the low 16 bits are beyond full scale.
    assert_eq!(asks(-4, 120), 4095);
    assert_eq!(asks(-27, 4000), 4095);
    // 65416 below zero is 120 in 16 bits.
    assert_eq!(asks(-65419, 120), 120);
    // The product wraps to 8 * 120.
    assert_eq!(asks(2_147_483_645, 2), 0);
    assert_eq!(asks(1_073_742_061, 4), 8);
}

#[test]
fn fader_plays_notes_by_clock() {
    let mut state = fader_notes();
    let tick = |ticks| notefader::Event::Clock {
        event: ClockEvent::Tick,
        ticks,
        played: note(910, 74),
    };
    assert!(state.run(tick(0)).is_empty());
    assert_eq!(
        state.run(notefader::Event::Down { shift: true, played: note(0, 0) }),
        vec![Action::Save]
    );
    let actions = state.run(tick(6));
    assert_eq!(actions.len(), 5);
    assert_eq!(actions[2], on(9, ALL, 74));
    assert_eq!(actions[4], led(9, Led::Bottom, Color::Blue, Brightness::High));
    assert_eq!(
        state.run(tick(9)),
        vec![
            off(9, ALL, 74),
            led(9, Led::Top, Color::Rose, Brightness::Off),
            led(9, Led::Bottom, Color::Rose, Brightness::Off),
        ]
    );
    // With the clock on, the button mutes.
    assert_eq!(
        state.run(notefader::Event::Down { shift: false, played: note(0, 0) }).len(),
        4
    );
    assert_eq!(state.run(tick(12)).len(), 1);
    let reset = notefader::Event::Clock {
        event: ClockEvent::Reset,
        ticks: 0,
        played: note(0, 0),
    };
    assert_eq!(state.run(reset), vec![off(9, ALL, 74)]);
}

fn turing() -> Turing {
    let app = App::new(1, 0, 0);
    let (params, storage) = clkturing::wrapper(app);
    let (state, actions) =
        Turing::new(app, params.inner, storage.inner, [0, 0], TakeoverMode::Jump);
    assert_eq!(actions.len(), 4);
    state
}

#[test]
fn register_rotates_and_flips() {
    assert_eq!(rotate_select_bit(0b1, 0, 100, 15), (0x8000, false));
    assert_eq!(rotate_select_bit(0b1, 200, 100, 15), (0, true));
    assert_eq!(rotate_select_bit(0, 200, 100, 15), (0x8000, true));
    assert_eq!(rotate_select_bit(0x8000, 0, 100, 0), (0xC000, false));
    assert_eq!(rotate_select_bit(0x8000, 0, 100, 16), (0xC000, false));
    assert_eq!(scale_to_12bit(0xFFFF, 8), 4095);
    assert_eq!(scale_to_12bit(0x8000, 1), 4095);
    assert_eq!(scale_to_12bit(0x7FFF, 0), 0);
    assert_eq!(scale_to_12bit(0x8000, 8), 2055);
    assert_eq!(scale_to_12bit(0xFFFF, 200), 4095);
    let mut register = 0b1011_0010_0000_0000u16;
    for _ in 0..8 {
        register = rotate_select_bit(register, 0, 100, 7).0;
    }
    assert_eq!(register >> 8, 0b1011_0010);
}

#[test]
fn register_steps_on_the_clock() {
    let tables = tables();
    let mut state = turing();
    state.run(clkturing::Event::Fader { chan: 0, value: 4095 }, &tables);
    assert_eq!(state.prob, 4095);
    assert_eq!(state.request(202, 500, &tables), None);
    // Half of the top bits, at an attenuation of 3000.
    assert_eq!(state.request(2000, 500, &tables), Some(1505));
    let inputs = clkturing::Inputs { raw: 2000, roll: 500, played: note(1500, 60) };
    assert_eq!(
        state.run(clkturing::Event::Millisecond(inputs), &tables),
        vec![
            Action::Save,
            dac(1, 750),
            led(0, Led::Top, Color::Pink, Brightness::Custom(128)),
            led(1, Led::Top, Color::Pink, Brightness::Custom(94)),
            on(0, ALL, 60),
            led(0, Led::Bottom, Color::Red, Brightness::High),
        ]
    );
    assert_eq!(state.storage.register_saved, 0x8000);
    let low = clkturing::Inputs { raw: 0, roll: 500, played: note(0, 0) };
    assert_eq!(
        state.run(clkturing::Event::Millisecond(low), &tables),
        vec![led(0, Led::Bottom, Color::Red, Brightness::Off), off(0, ALL, 60)]
    );
    assert_eq!(state.register_base, 0x8000);
    state.params.midi_mode = MidiMode::Cc;
    state.prob = 0;
    let actions = state.run(clkturing::Event::Millisecond(inputs), &tables);
    assert!(actions.contains(&cc(0, 32, 23)));
}

#[test]
fn register_length_is_recorded_with_shift() {
    let tables = tables();
    let mut state = turing();
    assert!(state.run(clkturing::Event::Shift(true), &tables).is_empty());
    for _ in 0..20 {
        state.run(clkturing::Event::Down { shift: true }, &tables);
    }
    assert_eq!(state.run(clkturing::Event::Shift(false), &tables), vec![Action::Save]);
    assert_eq!((state.length, state.storage.length_saved), (16, 16));
    state.run(clkturing::Event::Shift(true), &tables);
    state.run(clkturing::Event::Down { shift: true }, &tables);
    assert!(state.run(clkturing::Event::Shift(false), &tables).is_empty());
    assert_eq!(state.length, 16);
    state.run(clkturing::Event::LoadScene(clkturing::Storage::default()), &tables);
    assert_eq!((state.length, state.prob), (8, 0));
}

fn random() -> Random {
    let app = App::new(1, 1, 0);
    let (params, storage) = rnd::wrapper(app);
    let (state, actions) =
        Random::new(app, params.inner, storage.inner, 0, TakeoverMode::Jump);
    assert_eq!(actions.len(), 2);
    state
}

#[test]
fn random_values_come_with_the_clock() {
    let tables = tables();
    let mut state = random();
    let tick = |ticks, shift| rnd::Event::Clock {
        event: ClockEvent::Tick,
        ticks,
        shift,
        rolls: ROLLS,
    };
    assert_eq!(state.div, 6);
    assert!(state.run(tick(1, false), &tables).is_empty());
    assert_eq!(
        state.run(tick(6, true), &tables),
        vec![
            led(1, Led::Button, Color::Custom(10, 20, 255), Brightness::Mid),
            led(1, Led::Bottom, Color::Red, Brightness::High),
        ]
    );
    assert_eq!(state.run(tick(9, true), &tables), vec![dark(1, Led::Bottom)]);
    assert_eq!(state.val, 3200);
    // The attenuation starts one above its travel.
    let request = state.slew_request(&tables);
    assert_eq!((request.prev, request.target, request.rate), (0, 3200, 0));
    let inputs = rnd::Inputs { shift: false, button: false, rolls: ROLLS, slewed: 3200 };
    assert_eq!(
        state.run(rnd::Event::Millisecond(inputs), &tables),
        vec![
            dac(1, 3200),
            cc(1, 33, 99),
            led(1, Led::Top, Color::Custom(10, 20, 255), Brightness::Custom(200)),
        ]
    );
    assert_eq!(state.run(rnd::Event::Down { shift: true }, &tables).len(), 4);
    assert_eq!(state.run(rnd::Event::Millisecond(inputs), &tables)[0], dac(1, 0));
    assert!(state.run(rnd::Event::Down { shift: false }, &tables).is_empty());
}

#[test]
fn random_values_come_with_time() {
    let tables = tables();
    let mut state = random();
    assert_eq!(state.run(rnd::Event::Fader(4000), &tables), vec![Action::Save]);
    assert_eq!((state.div, state.time_div), (2, 128));
    state.run(rnd::Event::LongPress { shift: true }, &tables);
    state.run(rnd::Event::Down { shift: true }, &tables);
    assert!(!state.storage.clocked && !state.muted);
    let inputs = rnd::Inputs { shift: false, button: false, rolls: ROLLS, slewed: 0 };
    for _ in 0..127 {
        state.run(rnd::Event::Millisecond(inputs), &tables);
    }
    assert_eq!(state.val, 0);
    state.run(rnd::Event::Millisecond(inputs), &tables);
    assert_eq!(state.val, 3200);
}

#[test]
fn input_offsets() {
    assert_eq!(mod_with_input(1000, 2047), 1000);
    assert_eq!(mod_with_input(1000, 0), 0);
    assert_eq!(mod_with_input(4000, 4095), 4095);
    assert_eq!(resolution_with_input_offset(3000, 2047), 6);
    assert_eq!(resolution_with_input_offset(3000, 0), 96);
    assert_eq!(resolution_with_input_offset(3000, 4095), 2);
    assert_eq!(resolution_with_input_offset(0, 4095), 12);
}

#[test]
fn random_values_follow_their_input() {
    let tables = tables();
    let app = App::new(1, 2, 0);
    let (params, storage) = rnd_plus::wrapper(app);
    let (mut state, actions) =
        RandomPlus::new(app, params.inner, storage.inner, [0, 0], TakeoverMode::Jump);
    assert_eq!(actions.len(), 3);
    let tick = || rnd_plus::Event::Clock {
        event: ClockEvent::Tick,
        shift: false,
        rolls: ROLLS,
    };
    assert_eq!(
        state.run(tick(), &tables),
        vec![led(3, Led::Button, Color::Custom(10, 20, 255), Brightness::Mid)]
    );
    assert!(state.run(tick(), &tables).is_empty());
    assert_eq!(state.clkn, 2);
    let inputs = rnd_plus::Inputs {
        shift: false,
        button: false,
        raw: 4095,
        trigger_rolls: Rolls { value: 77, ..ROLLS },
        timer_rolls: ROLLS,
        slewed: 1000,
    };
    let actions = state.run(rnd_plus::Event::Millisecond(inputs), &tables);
    assert_eq!(actions[2], dac(3, 1000));
    assert_eq!(actions[3], cc(2, 34, 31));
    // As a trigger.
    assert_eq!(
        state.run(rnd_plus::Event::Down { chan: 0, shift: true }, &tables),
        vec![Action::Save]
    );
    assert_eq!(state.slew_request(inputs, &tables).target, 77);
    state.run(rnd_plus::Event::Millisecond(inputs), &tables);
    assert_eq!(state.val, 77);
    state.val = 5;
    state.run(rnd_plus::Event::Millisecond(inputs), &tables);
    assert_eq!(state.val, 5);
    // On the slew.
    state.run(rnd_plus::Event::Down { chan: 0, shift: true }, &tables);
    assert_eq!(state.slew_request(inputs, &tables).rate, 1024);
    state.run(rnd_plus::Event::Down { chan: 0, shift: true }, &tables);
    assert_eq!(state.storage.dest, 0);
    let reset = rnd_plus::Event::Clock {
        event: ClockEvent::Reset,
        shift: false,
        rolls: ROLLS,
    };
    state.run(reset, &tables);
    assert_eq!(state.clkn, 0);
}

#[test]
fn muted_ranges_rest() {
    let tables = tables();
    let mut state = random();
    state.params.range = Range::_Neg5_5V;
    state.run(rnd::Event::Down { shift: true }, &tables);
    let inputs = rnd::Inputs { shift: false, button: true, rolls: ROLLS, slewed: 9 };
    let actions = state.run(rnd::Event::Millisecond(inputs), &tables);
    assert_eq!(actions[0], dac(1, 2047));
    assert_eq!(actions[2], led(1, Led::Top, Color::Green, Brightness::Custom(0)));
}
