use faderpunk::app::{Action, App, Quantized};
use faderpunk::apps::euclid::{self, euclidean_filter, euclidean_pattern, rotl32, Euclid};
use faderpunk::apps::seq8::{self, Sequencer};
use faderpunk::apps::tb3po::{
    self, generate_pattern, rand_below, rand_bit, raw_pitch_cv, step_is_accent, step_is_gated,
    step_is_oct_down, step_is_oct_up, step_is_slid, xorshift32, AcidPattern, Tb3po,
};
use faderpunk::latch::{LatchLayer, TakeoverMode};
use faderpunk::midi::{LiveEvent, MidiMessage};
use faderpunk::tasks::leds::{Led, LedMode, LedMsg};
use faderpunk::tasks::midi::{MidiEventSource, MidiMsg};
use faderpunk::types::{Brightness, ClockEvent, Color, MidiNote, MidiOut};

fn note(counts: u16, note: u8) -> Quantized {
    Quantized { counts, note: MidiNote(note) }
}

fn midi(start_channel: usize, channel: u8, message: MidiMessage) -> Action {
    Action::Midi {
        start_channel,
        msg: MidiMsg::new(
            LiveEvent::Midi { channel, message },
            MidiOut { usb: true, out1: true, out2: true },
            MidiEventSource::Local,
        ),
    }
}

fn on(start: usize, channel: u8, key: u8) -> Action {
    midi(start, channel, MidiMessage::NoteOn { key, vel: 127 })
}

fn off(start: usize, channel: u8, key: u8) -> Action {
    midi(start, channel, MidiMessage::NoteOff { key, vel: 0 })
}

fn gate(channel: usize, high: bool) -> Action {
    Action::Gate { channel, high }
}

fn led(channel: usize, led: Led, color: Color, brightness: Brightness) -> Action {
    Action::Led { channel, led, msg: LedMsg::Mode(LedMode::Static(color, brightness)) }
}

fn sequencer() -> Sequencer {
    let app = App::new(1, 8, 0);
    let (params, storage) = seq8::wrapper(app);
    let (state, actions) =
        Sequencer::new(app, params.inner, storage.inner, [0; 8], TakeoverMode::Jump);
    assert_eq!(actions.len(), 8);
    state
}

#[test]
fn sequencer_derives_its_settings() {
    let state = sequencer();
    assert_eq!(state.seq_length, [16; 4]);
    assert_eq!(state.clockres, [6; 4]);
    assert_eq!(state.gatelength, [2; 4]);
}

#[test]
fn sequencer_plays_and_ends_steps() {
    let mut state = sequencer();
    let notes = [note(100, 60), note(200, 61), note(300, 62), note(400, 63)];
    assert_eq!(state.requests(0), [Some(0); 4]);
    assert_eq!(state.requests(1), [None; 4]);
    let actions =
        state.run(seq8::Event::Clock { event: ClockEvent::Tick, clockn: 0, notes });
    assert_eq!(
        actions[..4],
        [off(8, 0, 0), on(8, 0, 60), Action::Dac { channel: 8, value: 100 }, gate(9, true)]
    );
    assert_eq!(actions.len(), 16);
    // Gates are two ticks long.
    let actions =
        state.run(seq8::Event::Clock { event: ClockEvent::Tick, clockn: 1, notes });
    assert!(actions.is_empty());
    let actions =
        state.run(seq8::Event::Clock { event: ClockEvent::Tick, clockn: 2, notes });
    assert_eq!(actions[..2], [gate(9, false), off(8, 0, 60)]);
    let actions =
        state.run(seq8::Event::Clock { event: ClockEvent::Stop, clockn: 2, notes });
    assert_eq!(actions.len(), 8);
    assert_eq!(actions[6..], [off(8, 3, 63), gate(15, false)]);
}

#[test]
fn sequencer_sees_edits_from_the_next_clock_event_on() {
    let mut state = sequencer();
    let notes = [note(1, 1); 4];
    assert_eq!(state.run(seq8::Event::Down { chan: 0, shift: false }), vec![Action::Save]);
    assert!(!state.gateseq[0]);
    assert!(!state.storage.gateseq.get()[0]);
    // The clock was already waiting.
    let actions =
        state.run(seq8::Event::Clock { event: ClockEvent::Tick, clockn: 0, notes });
    assert!(actions.contains(&on(8, 0, 1)));
    let actions =
        state.run(seq8::Event::Clock { event: ClockEvent::Tick, clockn: 96, notes });
    assert!(!actions.contains(&on(8, 0, 1)));
    assert_eq!(actions[..2], [off(8, 0, 1), gate(9, false)]);
}

#[test]
fn sequencer_ties_and_pages() {
    let mut state = sequencer();
    assert_eq!(
        state.run(seq8::Event::LongPress { chan: 2, shift: false }),
        vec![Action::Save, Action::Save]
    );
    assert!(state.legatoseq[2] && state.gateseq[2]);
    assert!(state.run(seq8::Event::Down { chan: 3, shift: true }).is_empty());
    assert_eq!(state.page, 3);
    state.run(seq8::Event::Down { chan: 2, shift: false });
    assert!(!state.gateseq[26]);
    state.run(seq8::Event::Down { chan: 2, shift: false });
    assert!(state.gateseq[26]);
}

#[test]
fn sequencer_faders_edit_steps_and_settings() {
    let mut state = sequencer();
    assert_eq!(state.run(seq8::Event::Fader { chan: 5, value: 2000 }), vec![Action::Save]);
    assert_eq!(state.seq[5], 2000);
    assert_eq!(state.storage.seq.at(5), 2000);
    state.run(seq8::Event::Shift(true));
    assert_eq!(state.latch_layer, LatchLayer::Alt);
    state.run(seq8::Event::Fader { chan: 0, value: 1000 });
    assert_eq!(state.seq_length[0], 4);
    state.run(seq8::Event::Fader { chan: 4, value: 4095 });
    assert_eq!(state.clockres[0], 2);
    assert_eq!(state.gatelength[0], 2);
    state.run(seq8::Event::Fader { chan: 1, value: 4095 });
    assert_eq!(state.gatelength[0], 1);
    state.run(seq8::Event::Fader { chan: 3, value: 4095 });
    state.run(seq8::Event::Fader { chan: 2, value: 4095 });
    assert!(state.run(seq8::Event::Fader { chan: 6, value: 4095 }).is_empty());
    // The pitch: 2000 * 5 * 410 / 4095 + 4 * 410, seen once the clock waits anew.
    let notes = [note(1, 1); 4];
    state.run(seq8::Event::Clock { event: ClockEvent::Start, clockn: 0, notes });
    assert_eq!(state.requests(10)[0], Some(1640));
    state.run(seq8::Event::Shift(false));
    state.run(seq8::Event::Fader { chan: 1, value: 2000 });
    assert_eq!(state.requests(2)[0], Some(1001 + 1640));
}

#[test]
fn sequencer_shows_its_settings() {
    let mut state = sequencer();
    state.led_flag = true;
    let shown = state.run(seq8::Event::Frame { shift: true, clockn: 12 });
    assert!(!state.led_flag);
    assert_eq!(shown.len(), 24);
    assert_eq!(shown[0], led(8, Led::Button, Color::Yellow, Brightness::High));
    assert_eq!(shown[7], led(15, Led::Button, Color::White, Brightness::Mid));
    assert_eq!(shown[8 + 2], led(10, Led::Top, Color::Blue, Brightness::High));
    assert_eq!(shown[8 + 9], led(9, Led::Bottom, Color::Blue, Brightness::Mid));
    let shown = state.run(seq8::Event::Frame { shift: false, clockn: 12 });
    assert_eq!(
        shown[0],
        led(8, Led::Top, Color::Yellow, Brightness::Custom(0))
    );
    assert!(shown.contains(&led(10, Led::Button, Color::Red, Brightness::Mid)));
    assert_eq!(shown.last(), Some(&led(8, Led::Bottom, Color::Yellow, Brightness::High)));
}

#[test]
fn sequencer_loads_scenes() {
    let mut state = sequencer();
    let mut storage = seq8::Storage::default();
    storage.length_fader = [0; 4];
    storage.res_fader = [0; 4];
    storage.gate_fader = [4095; 4];
    assert!(state.run(seq8::Event::LoadScene(storage)).is_empty());
    assert_eq!(state.seq_length, [1; 4]);
    assert_eq!(state.clockres, [24; 4]);
    assert_eq!(state.gatelength, [23; 4]);
    assert_eq!(state.run(seq8::Event::SaveScene(3)), vec![Action::SaveScene(3)]);
}

#[test]
fn sequences_may_run_into_the_next_ones() {
    let mut state = sequencer();
    let mut storage = seq8::Storage::default();
    storage.length_fader[0] = 8000;
    storage.gate_fader = [65535, 43700, 43700, 2032];
    storage.res_fader = [2048, 0, 2048, 2048];
    storage.seq.set_at(20, 4095);
    storage.seq.set_at(0, 65535);
    state.run(seq8::Event::LoadScene(storage));
    assert_eq!(state.seq_length, [32, 16, 16, 16]);
    assert_eq!(state.clockres, [6, 24, 6, 6]);
    // Of 256 ticks none are left in 8 bits.
    assert_eq!(state.gatelength, [5, 1, 5, 2]);
    let notes = [note(1, 1); 4];
    state.run(seq8::Event::Clock { event: ClockEvent::Start, clockn: 0, notes });
    assert_eq!(state.requests(120)[0], Some(1230));
    assert_eq!(state.requests(0)[0], Some(4095));
    let shown = state.run(seq8::Event::Frame { shift: false, clockn: 120 });
    assert_eq!(shown[0], led(8, Led::Top, Color::Yellow, Brightness::Custom(127)));
    // The fifth of the 16 steps that are shown; no step of the page is lit for its gate.
    assert!(shown.contains(&led(12, Led::Button, Color::Red, Brightness::Mid)));
    let unset = |channel| Action::Led { channel, led: Led::Button, msg: LedMsg::Reset };
    assert!((8..16).all(|channel| shown.contains(&unset(channel))));
}

#[test]
fn density_keeps_slides_and_accents() {
    for seed in [0, 1, 777, 65535] {
        let sparse = generate_pattern(seed, 7);
        for density in 0..=14 {
            let pattern = generate_pattern(seed, density);
            assert_eq!(pattern.slides, sparse.slides);
            assert_eq!(pattern.accents, sparse.accents);
        }
    }
}

#[test]
fn rotation_delays_the_beats() {
    let mut patterns = vec![0u32; 1024];
    patterns[6 * 33 + 3] = 0b0100_1001;
    for rotation in 0..20u8 {
        for clock in 0..40u32 {
            assert_eq!(
                euclidean_filter(&patterns, 8, 3, rotation, clock + rotation as u32),
                euclidean_filter(&patterns, 8, 3, 0, clock)
            );
        }
    }
    assert!(euclidean_filter(&patterns, 8, 3, 0, 3));
    assert!(!euclidean_filter(&patterns, 8, 3, 1, 3));
}

#[test]
fn xorshift_follows_its_sequence() {
    let mut state = 1u32;
    assert_eq!(xorshift32(&mut state), 270369);
    assert_eq!(xorshift32(&mut state), 67634689);
    assert_eq!(rand_below(&mut state, 0), 0);
    assert_eq!(state, 67634689);
    let mut stuck = 0u32;
    assert_eq!(xorshift32(&mut stuck), 0);
    let mut a = 5;
    let mut b = 5;
    assert_eq!(rand_bit(&mut a, 100), rand_below(&mut b, 100) < 100);
    assert_eq!(a, b);
}

#[test]
fn patterns_are_reproducible_and_dense_at_the_ends() {
    let first = generate_pattern(0xABCD, 7);
    let second = generate_pattern(0xABCD, 7);
    assert_eq!(first.gates, second.gates);
    assert_eq!(first.notes, second.notes);
    assert!(first.notes.iter().all(|n| *n <= 7));
    assert_eq!(generate_pattern(99, 0).gates, u32::MAX);
    assert_eq!(generate_pattern(99, 14).gates, u32::MAX);
    assert_eq!(generate_pattern(99, 200).gates, u32::MAX);
    assert_eq!(generate_pattern(99, 0).notes, [0; 32]);
    assert_ne!(generate_pattern(1, 7).gates, generate_pattern(2, 7).gates);
    assert_eq!(AcidPattern::default().gates, 0);
}

#[test]
fn acid_pitches() {
    let mut pattern = AcidPattern::default();
    pattern.notes[3] = 5;
    assert_eq!(raw_pitch_cv(&pattern, 3, 0), 2048 + 170);
    pattern.oct_ups = 0b1000;
    pattern.oct_downs = 0b1000;
    assert_eq!(raw_pitch_cv(&pattern, 3, 1), 2048 + 170 + 410 + 34);
    pattern.oct_ups = 0;
    assert_eq!(raw_pitch_cv(&pattern, 3, -1), 2048 + 170 - 410 - 34);
    assert_eq!(raw_pitch_cv(&pattern, 0, 1000), 4095);
    assert_eq!(raw_pitch_cv(&pattern, 0, -1000), 0);
    pattern.gates = 1 << 31;
    pattern.slides = 1;
    pattern.accents = 2;
    assert!(step_is_gated(&pattern, 31) && !step_is_gated(&pattern, 30));
    assert!(step_is_slid(&pattern, 0) && !step_is_slid(&pattern, 1));
    assert!(step_is_accent(&pattern, 1));
    assert!(step_is_oct_down(&pattern, 3) && !step_is_oct_up(&pattern, 3));
}

fn acid() -> Tb3po {
    let app = App::new(1, 2, 0);
    let (params, storage) = tb3po::wrapper(app);
    let (state, actions) =
        Tb3po::new(app, params.inner, storage.inner, [0; 3], TakeoverMode::Jump, 1_000);
    assert_eq!(actions.len(), 3);
    state
}

#[test]
fn acid_steps_gate_and_end() {
    let mut state = acid();
    state.pattern = AcidPattern::default();
    state.pattern.gates = 0b1;
    state.pattern.accents = 0b1;
    assert_eq!(state.div, 6);
    assert_eq!(state.request(0), Some(2048));
    assert_eq!(state.request(1), None);
    // Held pitches are not looked up without a gate.
    assert_eq!(state.request(6), None);
    let event = tb3po::Event::Clock {
        event: ClockEvent::Tick,
        ticks: 0,
        now_us: 101_000,
        note: note(2100, 40),
    };
    assert_eq!(
        state.run(event),
        vec![
            off(2, 0, 0),
            on(2, 0, 40),
            gate(3, true),
            Action::Dac { channel: 4, value: 2047 },
        ]
    );
    assert_eq!(state.gate_off_ms, 50);
    assert_eq!(state.slide_target, 2100);
    for _ in 0..49 {
        assert_eq!(
            state.run(tb3po::Event::Millisecond { glide: 7, reached: false }),
            vec![Action::Dac { channel: 2, value: 2100 }]
        );
    }
    assert_eq!(
        state.run(tb3po::Event::Millisecond { glide: 7, reached: false }),
        vec![
            gate(3, false),
            off(2, 0, 40),
            Action::Dac { channel: 4, value: 0 },
            Action::Dac { channel: 2, value: 2100 },
        ]
    );
    assert!(!state.gate_active);
}

#[test]
fn acid_slides_glide_into_the_next_step() {
    let mut state = acid();
    state.pattern = AcidPattern::default();
    state.pattern.slides = 0b1;
    let tick = |ticks| tb3po::Event::Clock {
        event: ClockEvent::Tick,
        ticks,
        now_us: 2_000_000,
        note: note(3000, 50),
    };
    assert_eq!(state.request(6), Some(2048));
    state.run(tick(6));
    assert!(state.slide_active);
    assert_eq!(
        state.run(tb3po::Event::Millisecond { glide: 2500, reached: false }),
        vec![Action::Dac { channel: 2, value: 2500 }]
    );
    state.run(tb3po::Event::Millisecond { glide: 2999, reached: true });
    assert!(!state.slide_active);
    // The first tick after a reset has no step before it.
    assert_eq!(state.request(0), None);
    state.run(tb3po::Event::Down { chan: 2, shift: false, ticks: 0 });
    assert!(state.storage.no_slides);
    assert_eq!(state.request(6), None);
}

#[test]
fn acid_seed_is_kept_when_locked() {
    let mut state = acid();
    assert_eq!(
        state.run(tb3po::Event::Down { chan: 0, shift: false, ticks: 0x1_2345 }),
        vec![Action::Save]
    );
    assert_eq!(state.storage.seed, 0x2345);
    assert_eq!(state.run(tb3po::Event::LongPress { chan: 0 }), vec![Action::Save]);
    assert!(state.storage.lock_seed);
    let reset = tb3po::Event::Clock {
        event: ClockEvent::Reset,
        ticks: 7,
        now_us: 5_000,
        note: note(0, 0),
    };
    assert_eq!(state.run(reset).len(), 3);
    assert_eq!(state.storage.seed, 0x2345);
    assert!(state.run(tb3po::Event::Down { chan: 0, shift: false, ticks: 9 }).is_empty());
}

#[test]
fn acid_resolution_is_set_with_the_button() {
    let mut state = acid();
    assert!(state.run(tb3po::Event::Layer { button: true, shift: false }).is_empty());
    state.run(tb3po::Event::Fader { chan: 0, value: 600 });
    assert_eq!((state.div, state.storage.res_saved), (48, 600));
    assert!(!state.regen_pending);
    assert_eq!(state.run(tb3po::Event::Layer { button: false, shift: false }).len(), 1);
    state.run(tb3po::Event::Fader { chan: 0, value: 1200 });
    assert!(state.regen_pending);
    assert_eq!(state.storage.density_fader, 1200);
    assert_eq!(state.run(tb3po::Event::Frame).len(), 9);
}

#[test]
fn rotation_within_a_width() {
    assert_eq!(rotl32(0b0001, 4, 1), 0b0010);
    assert_eq!(rotl32(0b1001, 4, 1), 0b0011);
    assert_eq!(rotl32(0b1001, 4, 4), 0b1001);
    assert_eq!(rotl32(rotl32(0b10110, 5, 2), 5, 3), 0b10110);
    assert_eq!(rotl32(0x4000_0001, 31, 1), 0b11);
}

#[test]
fn patterns_come_from_the_table() {
    // Rows of 33: two steps, three steps.
    let mut table = vec![0u32; 66];
    table[1] = 0b01;
    table[33 + 2] = 0b011;
    assert_eq!(euclidean_pattern(&table, 3, 2, 0, 0), 0b011);
    assert_eq!(euclidean_pattern(&table, 3, 2, 1, 0), 0b110);
    assert_eq!(euclidean_pattern(&table, 3, 2, 4, 0), 0b110);
    assert_eq!(euclidean_pattern(&table, 3, 2, 1, 1), 0b110);
    // Fewer than two steps count as two, more beats than steps as all.
    assert_eq!(euclidean_pattern(&table, 0, 1, 0, 0), 0b01);
    assert_eq!(euclidean_pattern(&table, 40, 3, 0, 0), 0);
    assert!(euclidean_filter(&table, 3, 2, 0, 0));
    assert!(euclidean_filter(&table, 3, 2, 0, 4));
    assert!(!euclidean_filter(&table, 3, 2, 0, 5));
    for clock in 0..9 {
        assert_eq!(
            euclidean_filter(&table, 3, 2, 1, clock),
            euclidean_filter(&table, 3, 2, 1, clock + 3)
        );
    }
}

fn euclid_app() -> Euclid {
    let app = App::new(1, 0, 0);
    let (params, storage) = euclid::wrapper(app);
    let (state, actions) =
        Euclid::new(app, params.inner, storage.inner, [0; 2], TakeoverMode::Jump, 100);
    assert_eq!(actions.len(), 4);
    state
}

#[test]
fn euclid_plays_its_pattern() {
    let mut state = euclid_app();
    assert_eq!((state.num_beat, state.num_step, state.rotation), (8, 3, 0));
    let mut table = vec![0u32; 15 * 33];
    table[6 * 33 + 3] = 0b1001_0010;
    let tick = |ticks| euclid::Event::Clock { event: ClockEvent::Tick, ticks, roll: 50 };
    // The origin is the tick at the start: step 0 has no beat but is the first.
    let actions = state.run(tick(100), &table);
    assert_eq!(actions[..2], [gate(1, true), on(0, 0, 33)]);
    let actions = state.run(tick(103), &table);
    assert_eq!(actions[..2], [off(0, 0, 33), gate(1, false)]);
    let actions = state.run(tick(106), &table);
    assert_eq!(actions[..2], [on(0, 0, 32), gate(0, true)]);
    assert_eq!(actions[2], led(0, Led::Top, Color::Orange, Brightness::High));
    let actions = state.run(
        euclid::Event::Clock { event: ClockEvent::Stop, ticks: 107, roll: 0 },
        &table,
    );
    assert_eq!(actions, vec![off(0, 0, 32), off(0, 0, 33), gate(0, false), gate(1, false)]);
}

#[test]
fn euclid_second_output_takes_the_rests() {
    let mut state = euclid_app();
    let table = vec![0u32; 15 * 33];
    state.run(euclid::Event::Down { chan: 1, shift: true }, &table);
    assert!(!state.storage.mode);
    let actions = state.run(
        euclid::Event::Clock { event: ClockEvent::Tick, ticks: 112, roll: 0 },
        &table,
    );
    assert_eq!(actions[..2], [gate(1, true), on(0, 0, 33)]);
    // A muted app begins nothing.
    let actions = state.run(euclid::Event::Down { chan: 1, shift: false }, &table);
    assert_eq!(actions[..2], [Action::Save, gate(0, false)]);
    let actions = state.run(
        euclid::Event::Clock { event: ClockEvent::Tick, ticks: 118, roll: 0 },
        &table,
    );
    assert!(actions.iter().all(|a| matches!(a, Action::Led { .. })));
}

#[test]
fn euclid_faders_follow_the_layer() {
    let mut state = euclid_app();
    let table = vec![0u32; 15 * 33];
    state.run(euclid::Event::Fader { chan: 0, value: 4095 }, &table);
    assert_eq!((state.num_beat, state.num_step), (16, 7));
    state.run(euclid::Event::Layer { shift: true, button: false }, &table);
    state.run(euclid::Event::Fader { chan: 0, value: 2048 }, &table);
    assert_eq!(state.rotation, 8);
    state.run(euclid::Event::Layer { shift: false, button: true }, &table);
    state.run(euclid::Event::Fader { chan: 0, value: 0 }, &table);
    assert_eq!(state.div, 384);
    assert!(state.run(euclid::Event::Fader { chan: 1, value: 4000 }, &table).is_empty());
    state.run(euclid::Event::LoadScene(euclid::Storage::default()), &table);
    assert_eq!((state.num_beat, state.div), (8, 6));
}
