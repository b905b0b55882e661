use faderpunk::app::{Action, App, PortMode};
use faderpunk::apps::ad::{self, AdEnvelope, EnvState};
use faderpunk::apps::control::{self, Control};
use faderpunk::apps::follower::{self, rectify, Follower, Sample};
use faderpunk::apps::lfo::{self, find_round, find_speed_divisor, get_color_for, Lfo, LfoMotion};
use faderpunk::apps::lfo_plus::{self, LfoPlus};
use faderpunk::apps::panner::{self, slew_2, Panner};
use faderpunk::latch::{LatchLayer, TakeoverMode};
use faderpunk::midi::{LiveEvent, MidiMessage};
use faderpunk::storage::AppParams;
use faderpunk::tables::Tables;
use faderpunk::tasks::leds::{Led, LedMode, LedMsg};
use faderpunk::tasks::midi::{MidiEventSource, MidiMsg};
use faderpunk::types::{
    Brightness, ClockEvent, Color, Curve, MidiCc, MidiOut, Range, Value, Waveform,
};

const ALL: MidiOut = MidiOut { usb: true, out1: true, out2: true };

/// Curves: straight, its double, half of it. Waves: rising, falling, in steps.
fn tables() -> Tables {
    Tables {
        linear: (0..4096).collect(),
        logarithmic: (0..4096u16).map(|x| if x < 2048 { x * 2 } else { 4095 }).collect(),
        exponential: (0..4096u16).map(|x| x / 2).collect(),
        triangle: (0..4096u16).map(|x| if x < 2048 { x * 2 } else { (4095 - x) * 2 }).collect(),
        saw: (0..4096).collect(),
        saw_inv: (0..4096u16).map(|x| 4095 - x).collect(),
        square: (0..4096u16).map(|x| if x < 2048 { 4095 } else { 0 }).collect(),
        sine: (0..4096).collect(),
    }
}

fn led(channel: usize, led: Led, color: Color, brightness: Brightness) -> Action {
    Action::Led { channel, led, msg: LedMsg::Mode(LedMode::Static(color, brightness)) }
}

fn dark(channel: usize, led: Led) -> Action {
    Action::Led { channel, led, msg: LedMsg::Reset }
}

fn dac(channel: usize, value: u16) -> Action {
    Action::Dac { channel, value }
}

fn cc(start_channel: usize, out: MidiOut, controller: u8, value: u8) -> Action {
    Action::Midi {
        start_channel,
        msg: MidiMsg::new(
            LiveEvent::Midi { channel: 0, message: MidiMessage::Controller { controller, value } },
            out,
            MidiEventSource::Local,
        ),
    }
}

fn oscillator(tables: &Tables) -> Lfo {
    let app = App::new(1, 3, 0);
    let (params, storage) = lfo::wrapper(app);
    let (state, actions) =
        Lfo::new(app, params.inner, storage.inner, 0, TakeoverMode::Jump, tables);
    assert_eq!(
        actions,
        vec![
            Action::Configure {
                channel: 3,
                mode: PortMode::Output { bipolar: true },
                gpo_level: None
            },
            led(3, Led::Button, Color::Yellow, Brightness::Mid),
        ]
    );
    state
}

#[test]
fn lfo_motion_follows_speed_and_clock() {
    let tables = tables();
    let mut state = oscillator(&tables);
    assert_eq!(
        state.motion(),
        LfoMotion { restart: true, sync: false, rate: 1000, count: 500, div: 24, mult: 1 }
    );
    for _ in 0..299 {
        state.run(lfo::Event::Millisecond { shift: false }, &tables);
    }
    state.run(lfo::Event::Clock(ClockEvent::Tick), &tables);
    state.run(lfo::Event::Millisecond { shift: false }, &tables);
    assert_eq!(state.motion().count, 300);
    assert!(!state.tick);
    // Quarters of two seconds and more are not taken over.
    for _ in 0..1999 {
        state.run(lfo::Event::Millisecond { shift: false }, &tables);
    }
    state.run(lfo::Event::Clock(ClockEvent::Tick), &tables);
    state.run(lfo::Event::Millisecond { shift: false }, &tables);
    assert_eq!(state.motion().count, 300);
    assert_eq!(state.count, 0);
    assert_eq!(find_speed_divisor(0), 1);
    assert_eq!(find_speed_divisor(5), 32);
    assert_eq!(find_speed_divisor(99), 1 << 31);
    assert_eq!(find_round(0), 384);
    assert_eq!(find_round(4095), 6);
}

#[test]
fn lfo_plays_its_wave() {
    let tables = tables();
    let mut state = oscillator(&tables);
    assert_eq!(
        state.run(lfo::Event::Output { pos: 3072 }, &tables),
        vec![
            dac(3, 3072),
            led(3, Led::Button, Color::Yellow, Brightness::Mid),
            led(3, Led::Top, Color::Yellow, Brightness::Custom(128)),
            led(3, Led::Bottom, Color::Yellow, Brightness::Custom(0)),
        ]
    );
    assert!(!state.motion().restart);
    assert_eq!(
        state.run(lfo::Event::Down { shift: false }, &tables),
        vec![Action::Save, led(3, Led::Button, Color::Pink, Brightness::Mid)]
    );
    assert_eq!(state.storage.wave, Waveform::Triangle);
    state.run(lfo::Event::Down { shift: true }, &tables);
    assert!(state.motion().restart);
    // The flash keeps the color of the start.
    assert_eq!(
        state.run(lfo::Event::LongPress { shift: true }, &tables),
        vec![
            Action::Save,
            Action::Led {
                channel: 3,
                led: Led::Button,
                msg: LedMsg::Mode(LedMode::Flash(Color::Yellow, Some(4)))
            },
        ]
    );
    assert!(state.motion().sync);
    assert_eq!(
        state.run(lfo::Event::Output { pos: 3072 }, &tables)[1],
        led(3, Led::Button, Color::Pink, Brightness::Low)
    );
    assert_eq!(get_color_for(Waveform::SawInv), Color::Red);
}

#[test]
fn lfo_sends_steps_of_its_output() {
    let tables = tables();
    let mut state = oscillator(&tables);
    state.params.midi_out = ALL;
    state.params.range = Range::_0_10V;
    assert_eq!(state.run(lfo::Event::Output { pos: 31 }, &tables).len(), 4);
    let actions = state.run(lfo::Event::Output { pos: 2048 }, &tables);
    assert_eq!(actions[1], cc(3, ALL, 35, 63));
    assert_eq!(actions[3], led(3, Led::Top, Color::Yellow, Brightness::Custom(128)));
    assert_eq!(state.run(lfo::Event::Output { pos: 2050 }, &tables).len(), 4);
}

#[test]
fn lfo_fader_edits_speed_and_attenuation() {
    let tables = tables();
    let mut state = oscillator(&tables);
    assert_eq!(state.run(lfo::Event::Fader(4000), &tables), vec![Action::Save]);
    assert_eq!((state.motion().rate, state.motion().div), (2000, 6));
    state.run(lfo::Event::Millisecond { shift: true }, &tables);
    assert_eq!(state.latch_layer, LatchLayer::Alt);
    state.run(lfo::Event::Fader(100), &tables);
    assert_eq!(state.storage.layer_attenuation, 100);
    assert_eq!(
        state.run(lfo::Event::Output { pos: 4095 }, &tables)[2..],
        [led(3, Led::Top, Color::Red, Brightness::Custom(3)), dark(3, Led::Bottom)]
    );
    let storage = lfo::Storage { wave: Waveform::Square, ..lfo::Storage::default() };
    assert_eq!(
        state.run(lfo::Event::LoadScene(storage), &tables),
        vec![led(3, Led::Button, Color::White, Brightness::Mid)]
    );
    assert_eq!(state.motion().rate, 1000);
    assert_eq!(state.run(lfo::Event::SaveScene(2), &tables), vec![Action::SaveScene(2)]);
}

fn modulated(tables: &Tables) -> LfoPlus {
    let app = App::new(1, 4, 0);
    let (params, storage) = lfo_plus::wrapper(app);
    let (state, actions) =
        LfoPlus::new(app, params.inner, storage.inner, [0; 2], TakeoverMode::Jump, tables);
    assert_eq!(actions.len(), 4);
    state
}

#[test]
fn an_attenuation_is_read_with_a_sign() {
    let tables = tables();
    let mut state = modulated(&tables);
    state.run(lfo_plus::Event::Millisecond { shift: false, raw: 2047 }, &tables);
    let mut shown = |attenuation| {
        state.storage.layer_attenuation = attenuation;
        state.run(lfo_plus::Event::Output { pos: 4000 }, &tables)[0]
    };
    let full = shown(4095);
    let none = shown(0);
    assert_ne!(full, none);
    assert_eq!(shown(5000), full);
    assert_eq!(shown(32767), full);
    assert_eq!(shown(32768), none);
    assert_eq!(shown(65535), none);
}

#[test]
fn modulated_lfo_input_moves_the_speed() {
    let tables = tables();
    let mut state = modulated(&tables);
    state.run(lfo_plus::Event::Millisecond { shift: false, raw: 3047 }, &tables);
    assert_eq!(state.in_val, 3047);
    assert_eq!((state.motion().rate, state.motion().div), (2000, 12));
    state.run(lfo_plus::Event::Down { chan: 0, shift: false }, &tables);
    state.run(lfo_plus::Event::Millisecond { shift: false, raw: 3047 }, &tables);
    assert_eq!((state.in_val, state.motion().rate), (2047, 1000));
}

#[test]
fn modulated_lfo_destinations_go_round() {
    let tables = tables();
    let mut state = modulated(&tables);
    for dest in [1, 2, 3, 0] {
        assert_eq!(
            state.run(lfo_plus::Event::Down { chan: 0, shift: true }, &tables),
            vec![Action::Save]
        );
        assert_eq!(state.storage.dest, dest);
    }
    state.storage.dest = 1;
    state.run(lfo_plus::Event::Millisecond { shift: false, raw: 2057 }, &tables);
    let shift = (state.in_val - 2047) * 2;
    assert_eq!(
        state.run(lfo_plus::Event::Output { pos: 100 }, &tables)[0],
        dac(5, 100 + shift)
    );
    // The phase goes round below zero.
    state.in_val = 2000;
    assert_eq!(state.run(lfo_plus::Event::Output { pos: 90 }, &tables)[0], dac(5, 4092));
    state.storage.dest = 2;
    state.in_val = 0;
    assert_eq!(state.run(lfo_plus::Event::Output { pos: 4095 }, &tables)[0], dac(5, 2048));
}

#[test]
fn modulated_lfo_restarts_on_a_trigger() {
    let tables = tables();
    let mut state = modulated(&tables);
    state.storage.dest = 3;
    state.run(lfo_plus::Event::Output { pos: 0 }, &tables);
    assert!(!state.motion().restart);
    state.run(lfo_plus::Event::Millisecond { shift: false, raw: 4095 }, &tables);
    assert!(state.motion().restart);
    state.run(lfo_plus::Event::Output { pos: 0 }, &tables);
    state.run(lfo_plus::Event::Millisecond { shift: false, raw: 4095 }, &tables);
    assert!(!state.motion().restart);
    assert_eq!(
        state.run(lfo_plus::Event::LongPress { chan: 1, shift: true }, &tables).len(),
        2
    );
    assert!(state
        .run(lfo_plus::Event::LongPress { chan: 0, shift: true }, &tables)
        .is_empty());
}

#[test]
fn short_lists_are_no_parameters() {
    assert_eq!(lfo::Params::from_values(&[]), None);
    assert_eq!(lfo_plus::Params::from_values(&[Value::Int(1)]), None);
    assert_eq!(ad::Params::from_values(&[Value::Int(1)]), None);
    let (params, _) = control::wrapper(App::new(1, 3, 0));
    let values = params.inner.to_values();
    assert_eq!(values.len(), 13);
    assert_eq!(control::Params::from_values(values.as_slice()), Some(params.inner));
    assert_eq!(params.inner.midi_cc, MidiCc(35));
    assert_eq!(params.inner.button_cc, MidiCc(51));
}

fn envelope(tables: &Tables) -> AdEnvelope {
    let app = App::new(1, 0, 0);
    let (params, storage) = ad::wrapper(app);
    let (state, midi_in, actions) =
        AdEnvelope::new(app, params.inner, storage.inner, [0; 2], TakeoverMode::Jump, tables);
    assert!(!midi_in.usb_sub && !midi_in.din_sub);
    assert_eq!(actions.len(), 4);
    state
}

fn pins(raw: u16) -> ad::Inputs {
    ad::Inputs { shift: false, button: false, raw }
}

#[test]
fn envelope_rises_and_falls() {
    let tables = tables();
    let mut state = envelope(&tables);
    state.run(ad::Event::Gates(pins(0)), &tables);
    assert_eq!(state.phase(), EnvState::Idle);
    state.run(ad::Event::Gates(pins(4000)), &tables);
    assert_eq!(state.phase(), EnvState::Attack);
    assert_eq!(
        state.run(ad::Event::Rise { position: 1600, past_top: false }, &tables),
        vec![led(0, Led::Top, Color::White, Brightness::Custom(100)), dark(1, Led::Top)]
    );
    let actions = state.run(ad::Event::Output(pins(4000)), &tables);
    assert_eq!(actions[0], dac(1, 1600));
    assert_eq!(actions.last(), Some(&led(0, Led::Bottom, Color::Red, Brightness::High)));
    state.run(ad::Event::Rise { position: 4095, past_top: true }, &tables);
    assert_eq!(state.phase(), EnvState::Decay);
    state.run(
        ad::Event::Fall { position: 0, below_zero: true, at_zero: true },
        &tables,
    );
    assert_eq!(state.phase(), EnvState::Idle);
}

#[test]
fn envelope_sustains_and_loops() {
    let tables = tables();
    let mut state = envelope(&tables);
    assert_eq!(
        state.run(ad::Event::Down { chan: 1, shift: true }, &tables),
        vec![Action::Save]
    );
    assert_eq!(state.storage.mode_saved, 1);
    state.run(ad::Event::Gates(pins(4000)), &tables);
    state.run(ad::Event::Rise { position: 4095, past_top: true }, &tables);
    assert_eq!(state.phase(), EnvState::Attack);
    // A gate lasts at least eleven milliseconds.
    for _ in 0..12 {
        assert_eq!(state.phase(), EnvState::Attack);
        state.run(ad::Event::Gates(pins(0)), &tables);
    }
    state.run(ad::Event::Gates(pins(0)), &tables);
    assert_eq!(state.phase(), EnvState::Decay);
    state.run(ad::Event::Down { chan: 1, shift: true }, &tables);
    assert_eq!(state.storage.mode_saved, 2);
    state.run(
        ad::Event::Midi(MidiMessage::NoteOn { key: 60, vel: 1 }),
        &tables,
    );
    assert_eq!(state.gate_on, 1);
    state.run(
        ad::Event::Fall { position: 0, below_zero: true, at_zero: true },
        &tables,
    );
    assert_eq!(state.phase(), EnvState::Attack);
    state.run(
        ad::Event::Midi(MidiMessage::NoteOn { key: 60, vel: 0 }),
        &tables,
    );
    assert_eq!(state.gate_on, 0);
    state.run(
        ad::Event::Midi(MidiMessage::NoteOff { key: 60, vel: 0 }),
        &tables,
    );
    assert_eq!(state.gate_on, 0);
}

#[test]
fn envelope_times_and_curves() {
    let tables = tables();
    let mut state = envelope(&tables);
    let before = state.times;
    assert_eq!(
        state.run(ad::Event::Fader { chan: 1, value: 4000 }, &tables),
        vec![Action::Save]
    );
    assert_eq!(state.times[0], before[0]);
    assert_eq!(state.times[1] - before[1], 1000);
    state.run(ad::Event::Down { chan: 0, shift: false }, &tables);
    assert_eq!(state.storage.curve_saved, [Curve::Logarithmic, Curve::Linear]);
    let actions = state.run(ad::Event::LoadScene(ad::Storage::default()), &tables);
    assert_eq!(
        actions,
        vec![
            led(0, Led::Button, Color::Yellow, Brightness::Mid),
            led(1, Led::Button, Color::Yellow, Brightness::Mid),
        ]
    );
    assert_eq!(state.times, before);
}

fn follower_app() -> Follower {
    let app = App::new(1, 6, 0);
    let (params, storage) = follower::wrapper(app);
    let (state, actions) =
        Follower::new(app, params.inner, storage.inner, [0; 2], TakeoverMode::Jump);
    assert_eq!(actions.len(), 4);
    state
}

#[test]
fn follower_samples_and_follows() {
    let tables = tables();
    let mut state = follower_app();
    assert_eq!(rectify(2047), 2047);
    assert_eq!(rectify(1047), 3047);
    assert_eq!(rectify(0), 4094);
    assert_eq!(
        state.sample(1047, &tables),
        Sample { value: 3047, gain: 0, rise: 2000, fall: 2000 }
    );
    let actions = state.run(follower::Event::Output { level: 3072 });
    assert_eq!(actions[0], dac(7, 3072));
    assert_eq!(actions[1], led(6, Led::Top, Color::Pink, Brightness::Custom(128)));
    assert_eq!(actions.len(), 7);
    // Results out of range rest at the top.
    state.storage.offset_saved = 0;
    assert_eq!(state.run(follower::Event::Output { level: 0 })[0], dac(7, 4095));
    // The sum is kept in 16 bits.
    state.storage.offset_saved = 65_535;
    assert_eq!(state.run(follower::Event::Output { level: 2100 })[0], dac(7, 52));
    state.storage.offset_saved = 2147;
    assert_eq!(state.run(follower::Event::Output { level: 1000 })[0], dac(7, 1100));
}

#[test]
fn follower_settings() {
    let mut state = follower_app();
    state.run(follower::Event::Millisecond { shift: true, button: false });
    assert_eq!(state.run(follower::Event::Fader { chan: 0, value: 100 }), vec![Action::Save]);
    assert_eq!(state.storage.offset_saved, 100);
    assert_eq!(
        state.run(follower::Event::Down { chan: 0, shift: true }),
        vec![Action::Save]
    );
    assert_eq!(state.storage.offset_saved, 2047);
    assert!(state.run(follower::Event::Down { chan: 0, shift: false }).is_empty());
    assert_eq!(
        state.run(follower::Event::Output { level: 5 })[5..],
        [dark(6, Led::Button), dark(7, Led::Button)]
    );
    state.run(follower::Event::Millisecond { shift: false, button: true });
    state.run(follower::Event::Fader { chan: 0, value: 320 });
    assert_eq!(state.storage.gain_saved, 320);
    assert!(state.run(follower::Event::Fader { chan: 1, value: 320 }).is_empty());
    assert_eq!(
        state.run(follower::Event::Output { level: 5 })[1],
        led(6, Led::Top, Color::Red, Brightness::Custom(20))
    );
}

fn panner_app(tables: &Tables) -> Panner {
    let app = App::new(1, 8, 0);
    let (params, storage) = panner::wrapper(app);
    let (state, actions) =
        Panner::new(app, params.inner, storage.inner, [4095, 2048], TakeoverMode::Jump, tables);
    assert_eq!(actions.len(), 4);
    state
}

#[test]
fn slew_approaches_its_target() {
    assert_eq!(slew_2(0, 4000, 3), 1000);
    assert_eq!(slew_2(3997, 4000, 3), 4000);
    assert_eq!(slew_2(4000, 0, 3), 3000);
    let mut value = 0;
    for _ in 0..40 {
        let next = slew_2(value, 4000, 3);
        assert!(value <= next && next <= 4000);
        value = next;
    }
    assert_eq!(value, 4000);
}

fn panned(pan: u16) -> (u16, u16) {
    let tables = tables();
    let mut state = panner_app(&tables);
    state.storage.pan_val = pan;
    let inputs =
        panner::Inputs { shift: false, button0: false, button1: false, fader: 4095, lfo_pos: 2048 };
    for _ in 0..400 {
        state.run(panner::Event::Millisecond(inputs), &tables);
    }
    (state.out_l, state.out_r)
}

#[test]
fn panner_sides_share_the_level() {
    assert_eq!(panned(4095), (4095, 0));
    assert_eq!(panned(0), (0, 4095));
    let (left, right) = panned(1000);
    assert_eq!((left, right), (1000, 3095));
    assert_eq!(panned(5000), (4095, 0));
    // The position is read with a sign.
    assert_eq!(panned(32767), (4095, 0));
    assert_eq!(panned(32768), (0, 4095));
    assert_eq!(panned(40000), (0, 4095));
}

#[test]
fn panner_shows_the_low_byte_of_the_lfo_amount() {
    let tables = tables();
    let mut state = panner_app(&tables);
    let inputs =
        panner::Inputs { shift: true, button0: false, button1: false, fader: 4095, lfo_pos: 2048 };
    for (amount, level) in [(0, 0), (1600, 100), (4095, 255), (4096, 0), (4112, 1)] {
        state.storage.lfo_amt = amount;
        let actions = state.run(panner::Event::Millisecond(inputs), &tables);
        assert!(actions.contains(&led(9, Led::Top, Color::Red, Brightness::Custom(level))));
    }
}

#[test]
fn panner_buttons_and_faders() {
    let tables = tables();
    let mut state = panner_app(&tables);
    assert_eq!(
        state.run(panner::Event::Down { chan: 0, shift: false }, &tables),
        vec![Action::Save, dark(8, Led::Button)]
    );
    assert!(state.muted);
    assert!(state.run(panner::Event::Up { chan: 0 }, &tables).is_empty());
    assert_eq!(
        state.run(panner::Event::Down { chan: 1, shift: true }, &tables),
        vec![Action::Save, led(9, Led::Button, Color::Pink, Brightness::Mid)]
    );
    assert!(state.run(panner::Event::Down { chan: 1, shift: false }, &tables).is_empty());
    assert_eq!(
        state.run(panner::Event::Fader { chan: 0, value: 5 }, &tables),
        vec![Action::I2cFader { channel: 8, value: 0, range: Range::_0_10V }]
    );
    assert_eq!(
        state.run(panner::Event::Fader { chan: 1, value: 3000 }, &tables),
        vec![Action::Save]
    );
    assert_eq!(state.storage.pan_val, 3000);
    let actions = state.run(panner::Event::LoadScene(panner::Storage::default()), &tables);
    assert_eq!(
        actions,
        vec![
            led(8, Led::Button, Color::Blue, Brightness::Mid),
            led(9, Led::Button, Color::Yellow, Brightness::Mid),
        ]
    );
    assert_eq!(state.lfo_rate, 2048);
}

fn control_app() -> Control {
    let app = App::new(1, 2, 0);
    let (params, storage) = control::wrapper(app);
    let (state, actions) =
        Control::new(app, params.inner, storage.inner, 4095, TakeoverMode::Jump);
    assert_eq!(
        actions,
        vec![
            led(2, Led::Button, Color::Violet, Brightness::Mid),
            Action::Configure {
                channel: 2,
                mode: PortMode::Output { bipolar: false },
                gpo_level: None
            },
        ]
    );
    state
}

#[test]
fn control_follows_its_fader() {
    let tables = tables();
    let mut state = control_app();
    for _ in 0..200 {
        let (prev, target) = state.slew_request(false, 4095, &tables);
        assert_eq!(prev, state.out);
        let inputs = control::Inputs { shift: false, fader: 4095, slewed: target };
        state.run(control::Event::Millisecond(inputs), &tables);
    }
    assert_eq!(state.out, 4095);
    let inputs = control::Inputs { shift: false, fader: 4095, slewed: 4095 };
    assert_eq!(
        state.run(control::Event::Millisecond(inputs), &tables),
        vec![
            dac(2, 4095),
            led(2, Led::Top, Color::Violet, Brightness::Custom(255)),
            dark(2, Led::Bottom),
        ]
    );
    state.params.invert = true;
    assert_eq!(state.slew_request(false, 4095, &tables), (4095, 0));
    state.params.invert = false;
    let inputs = control::Inputs { shift: false, fader: 2000, slewed: 77 };
    let actions = state.run(control::Event::Millisecond(inputs), &tables);
    assert_eq!(state.storage.fad_val, 2000);
    // The position of the stored value is sent a millisecond later.
    assert_eq!(actions.len(), 3);
    let actions = state.run(control::Event::Millisecond(inputs), &tables);
    assert_eq!(actions[1], cc(2, ALL, 34, 62));
    assert_eq!(
        actions[2],
        Action::I2cFader { channel: 2, value: 77, range: Range::_0_10V }
    );
}

#[test]
fn control_takes_levels_beyond_full_scale() {
    let tables = tables();
    let mut state = control_app();
    let inputs = control::Inputs { shift: false, fader: 4095, slewed: 0 };
    for _ in 0..200 {
        state.run(control::Event::Millisecond(inputs), &tables);
    }
    state.storage.att_saved = 8190;
    assert_eq!(state.slew_request(false, 4095, &tables), (0, 8190));
    let actions = state.run(control::Event::Millisecond(inputs), &tables);
    assert!(actions.contains(&led(2, Led::Top, Color::Violet, Brightness::Custom(255))));
    // Upside down it is kept in 16 bits.
    state.params.invert = true;
    assert_eq!(state.slew_request(false, 4095, &tables), (0, 61441));
    state.params.range = Range::_Neg5_5V;
    state.storage.fad_val = 34815;
    for _ in 0..400 {
        state.run(control::Event::Millisecond(inputs), &tables);
    }
    // Twice the distance from the middle does not fit 16 bits.
    assert_eq!(state.smoothed, 2047);
}

#[test]
fn panner_takes_levels_beyond_full_scale() {
    let tables = tables();
    let mut state = panner_app(&tables);
    state.storage.pan_val = 4095;
    state.storage.att_saved = 8190;
    let inputs =
        panner::Inputs { shift: false, button0: false, button1: false, fader: 4095, lfo_pos: 2048 };
    for _ in 0..400 {
        state.run(panner::Event::Millisecond(inputs), &tables);
    }
    assert_eq!((state.out_l, state.out_r), (8190, 0));
    state.storage.att_saved = 4095;
    state.storage.fad_val = 65535;
    state.storage.pan_val = 1000;
    for _ in 0..400 {
        state.run(panner::Event::Millisecond(inputs), &tables);
    }
    assert_eq!((state.out_l, state.out_r), (4095, 4095));
}

#[test]
fn control_button_modes() {
    let tables = tables();
    let mut state = control_app();
    assert_eq!(
        state.run(control::Event::Down, &tables),
        vec![Action::Save, dark(2, Led::Button)]
    );
    assert!(state.run(control::Event::Up, &tables).is_empty());
    assert!(state.muted);
    assert_eq!(state.slew_request(false, 4095, &tables).1, 0);
    state.params.button_mode = 1;
    assert_eq!(
        state.run(control::Event::Down, &tables),
        vec![
            Action::Save,
            led(2, Led::Button, Color::Violet, Brightness::Mid),
            cc(2, ALL, 50, 127),
        ]
    );
    state.params.button_mode = 2;
    assert_eq!(
        state.run(control::Event::Down, &tables),
        vec![led(2, Led::Button, Color::Violet, Brightness::Mid), cc(2, ALL, 50, 127)]
    );
    assert_eq!(
        state.run(control::Event::Up, &tables),
        vec![dark(2, Led::Button), cc(2, ALL, 50, 0)]
    );
    state.params.button_mode = 0;
    state.params.on_release = true;
    assert!(state.run(control::Event::Down, &tables).is_empty());
    assert_eq!(state.run(control::Event::Up, &tables).len(), 2);
    assert_eq!(state.run(control::Event::Second, &tables), vec![Action::SaveNow]);
}
