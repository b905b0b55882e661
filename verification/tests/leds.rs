use faderpunk::tasks::leds::{
    clear_led_overlay, fill, flush_buffer, get_no, glitch_frame, set_led_mode,
    set_led_overlay_mode, startup_animation, sweep_frame, BrightnessLevels, Led, LedEffect, LedMap,
    LedMode, LedMsg, LedProcessor, Rgb8, Shade, StartupStep, Tint,
};
use faderpunk::types::{Brightness, Color};

const LEVELS: BrightnessLevels = BrightnessLevels { off: 0, low: 40, mid: 100, high: 200 };

fn tint(color: Color) -> Tint {
    Tint { color, level: None }
}

fn map() -> LedMap {
    let mut map = LedMap { top: [0; 16], bottom: [0; 16], button: [0; 16] };
    for i in 0..16 {
        map.top[i] = i;
        map.bottom[i] = 18 + i;
        map.button[i] = 34 + i;
    }
    map
}

#[test]
fn leds_have_their_numbers() {
    let map = map();
    assert_eq!(get_no(&map, 3, Led::Top), 3);
    assert_eq!(get_no(&map, 3, Led::Bottom), 21);
    assert_eq!(get_no(&map, 15, Led::Button), 49);
    assert_eq!(set_led_mode(&map, 1, Led::Button, LedMsg::Reset), (35, LedMsg::Reset));
    let mode = LedMode::FadeOut(Color::Red);
    assert_eq!(set_led_overlay_mode(&map, 2, Led::Top, mode), (2, Some(mode)));
    assert_eq!(clear_led_overlay(&map, 2, Led::Top), (2, None));
}

#[test]
fn static_effects_stay() {
    let mut effect = LedMode::Static(Color::Red, Brightness::Mid).into_effect(&LEVELS);
    assert_eq!(effect.update(false), Shade::Scaled(tint(Color::Red), 100));
    assert_eq!(effect.update(true), Shade::Scaled(tint(Color::Red), 100));
    let mut full = LedMode::Static(Color::Red, Brightness::Custom(255)).into_effect(&LEVELS);
    assert_eq!(full.update(false), Shade::Full(tint(Color::Red)));
    let mut off = LedMode::Static(Color::Red, Brightness::Off).into_effect(&LEVELS);
    assert_eq!(off.update(false), Shade::Scaled(tint(Color::Red), 0));
}

#[test]
fn fade_out_ends_after_nine_frames() {
    let mut effect = LedMode::FadeOut(Color::Blue).into_effect(&LEVELS);
    let mut levels = vec![];
    for _ in 0..9 {
        match effect.update(false) {
            Shade::Scaled(t, level) => {
                assert_eq!(t, tint(Color::Blue));
                levels.push(level);
            }
            other => panic!("{other:?}"),
        }
    }
    assert_eq!(levels, vec![255, 223, 191, 159, 127, 95, 63, 31, 0]);
    assert_eq!(effect, LedEffect::Off);
    assert_eq!(effect.update(false), Shade::Black);
}

#[test]
fn flashes_are_counted() {
    let mut effect = LedMode::Flash(Color::Green, Some(2)).into_effect(&LEVELS);
    for round in 0..2 {
        for step in 0..16u8 {
            let shade = effect.update(false);
            if step < 8 {
                assert_eq!(shade, Shade::Scaled(tint(Color::Green), 255 - step * 32));
            } else {
                assert_eq!(shade, Shade::Black, "round {round}");
            }
        }
    }
    assert_eq!(effect, LedEffect::Off);
    let mut none = LedMode::Flash(Color::Green, Some(0)).into_effect(&LEVELS);
    assert_eq!(none.update(false), Shade::Black);
    assert_eq!(none, LedEffect::Off);
    let mut endless = LedMode::Flash(Color::Green, None).into_effect(&LEVELS);
    for _ in 0..160 {
        endless.update(false);
    }
    assert_eq!(endless, LedMode::Flash(Color::Green, None).into_effect(&LEVELS));
}

#[test]
fn flash_then_static_settles() {
    let mode = LedMode::FlashThenStatic(Color::Red, 3, Color::Green, Brightness::Mid);
    let mut effect = mode.into_effect(&LEVELS);
    for _ in 0..48 {
        effect.update(false);
    }
    assert_eq!(effect.update(false), Shade::Scaled(tint(Color::Green), 100));
    assert_eq!(effect, LedEffect::Static { color: tint(Color::Green), brightness: 100 });
}

#[test]
fn clock_flash_follows_the_metronome() {
    let mode = LedMode::ClockFlash(Color::White, Brightness::High, Brightness::Low);
    let mut effect = mode.into_effect(&LEVELS);
    assert_eq!(effect.update(true), Shade::Scaled(tint(Color::White), 200));
    assert_eq!(effect.update(false), Shade::Scaled(tint(Color::White), 40));
}

#[test]
fn static_fade_waits_for_its_delay() {
    let mut effect = LedMode::StaticFade(Color::Pink, 40).into_effect(&LEVELS);
    // Frames of 16 ms: 0, 16, 32 are below the delay, 48 is not.
    for _ in 0..4 {
        assert_eq!(effect.update(false), Shade::Full(tint(Color::Pink)));
    }
    assert_eq!(effect, LedEffect::FadeOut { from: tint(Color::Pink), step: 0 });
}

#[test]
fn released_leds_fade_or_go_dark() {
    let mut leds = LedProcessor::new(&LEVELS);
    let mut signals: Vec<Option<LedMsg>> = vec![None; 50];
    signals[0] = Some(LedMsg::Mode(LedMode::Static(Color::Red, Brightness::High)));
    signals[1] = Some(LedMsg::Mode(LedMode::StaticFade(Color::Cyan, 1000)));
    signals[2] = Some(LedMsg::Mode(LedMode::Flash(Color::Cyan, None)));
    let shown = leds.frame(&signals, &vec![], &LEVELS, false);
    assert_eq!(shown[0], Shade::Scaled(tint(Color::Red), 200));
    assert_eq!(shown[16], Shade::Scaled(tint(Color::Pink), 100));
    assert_eq!(shown[17], Shade::Scaled(tint(Color::Yellow), 100));
    assert_eq!(shown[3], Shade::Black);
    let mut signals: Vec<Option<LedMsg>> = vec![None; 50];
    for i in 0..3 {
        signals[i] = Some(LedMsg::Reset);
    }
    let shown = leds.frame(&signals, &vec![], &LEVELS, false);
    let dimmed = Tint { color: Color::Red, level: Some(200) };
    assert_eq!(shown[0], Shade::Scaled(dimmed, 255));
    assert_eq!(shown[1], Shade::Scaled(tint(Color::Cyan), 255));
    assert_eq!(shown[2], Shade::Black);
}

#[test]
fn overlays_hide_the_base_layer() {
    let mut leds = LedProcessor::new(&LEVELS);
    let mut signals: Vec<Option<LedMsg>> = vec![None; 50];
    signals[5] = Some(LedMsg::Mode(LedMode::FadeOut(Color::Red)));
    let dark = LedMode::Static(Color::White, Brightness::Off);
    let shown = leds.frame(&signals, &vec![(5, Some(dark))], &LEVELS, true);
    assert_eq!(shown[5], Shade::Scaled(tint(Color::White), 0));
    assert_eq!(shown[16], Shade::Scaled(tint(Color::Pink), 200));
    // The fade has gone on below.
    let idle: Vec<Option<LedMsg>> = vec![None; 50];
    let shown = leds.frame(&idle, &vec![(5, None)], &LEVELS, true);
    assert_eq!(shown[5], Shade::Scaled(tint(Color::Red), 223));
    // The last message for an LED counts.
    let shown = leds.frame(&idle, &vec![(6, None), (6, Some(dark))], &LEVELS, true);
    assert_eq!(shown[6], Shade::Scaled(tint(Color::White), 0));
}

#[test]
fn buffers_are_dimmed_and_corrected() {
    let buffer = vec![Rgb8 { r: 255, g: 128, b: 0 }, Rgb8 { r: 200, g: 100, b: 50 }];
    assert_eq!(
        flush_buffer(&buffer, 255),
        vec![Rgb8 { r: 255, g: 37, b: 0 }, Rgb8 { r: 129, g: 19, b: 3 }]
    );
    // Half the brightness comes before the correction.
    assert_eq!(
        flush_buffer(&buffer, 127),
        vec![Rgb8 { r: 36, g: 5, b: 0 }, Rgb8 { r: 19, g: 3, b: 0 }]
    );
    assert_eq!(flush_buffer(&vec![Rgb8 { r: 255, g: 255, b: 255 }], 0), vec![Rgb8 {
        r: 0,
        g: 0,
        b: 0
    }]);
}

#[test]
fn startup_glitches_come_from_the_random_bytes() {
    let mut random = vec![0u8; 143];
    random[0] = 25; // a full flash
    random[1] = 4; // in cyan
    random[2] = 4; // two glitches
    // A colored one at 10, of three LEDs, in pink.
    random[3] = 165;
    random[4] = 60;
    random[5] = 2;
    random[6] = 2;
    // White noise at 49, cut off at the end.
    random[7] = 166;
    random[8] = 49;
    random[9] = 24;
    random[10] = 200;
    let frame = glitch_frame(&random);
    assert_eq!(frame.len(), 50);
    assert_eq!(frame[0], Shade::Full(tint(Color::Cyan)));
    assert_eq!(frame[9], Shade::Full(tint(Color::Cyan)));
    assert_eq!(frame[10], Shade::Full(tint(Color::Pink)));
    assert_eq!(frame[12], Shade::Full(tint(Color::Pink)));
    assert_eq!(frame[13], Shade::Full(tint(Color::Cyan)));
    assert_eq!(frame[49], Shade::Full(tint(Color::Custom(200, 200, 200))));
    let dark = glitch_frame(&vec![26u8; 143]);
    assert_eq!(dark[0], Shade::Black);
}

#[test]
fn the_sweep_moves_over_the_last_frame() {
    let mut buffer = fill(Shade::Full(tint(Color::White)));
    sweep_frame(&mut buffer, 0);
    assert_eq!(buffer[0], Shade::Full(tint(Color::Yellow)));
    assert_eq!(buffer[1], Shade::Full(tint(Color::White)));
    for i in 1..=4 {
        sweep_frame(&mut buffer, i);
    }
    assert_eq!(buffer[..4], vec![Shade::Black; 4]);
    assert_eq!(buffer[4], Shade::Full(tint(Color::Cyan)));
    assert_eq!(buffer[5..], vec![Shade::Full(tint(Color::White)); 45]);
    for i in 5..50 {
        sweep_frame(&mut buffer, i);
    }
    assert_eq!(buffer[..49], vec![Shade::Black; 49]);
    assert_eq!(buffer[49], Shade::Full(tint(Color::Cyan)));
    let after = startup_animation(&mut buffer, StartupStep::Swept, 3000, &[]);
    assert_eq!(after, (250, Some(StartupStep::Flash)));
    assert_eq!(buffer, fill(Shade::Black));
}

#[test]
fn the_startup_runs_through_its_steps() {
    let random = vec![26u8; 143];
    let mut buffer = fill(Shade::Black);
    let mut step = StartupStep::Glitch;
    let mut elapsed = 0;
    let mut shown = Vec::new();
    loop {
        let (wait, next) = startup_animation(&mut buffer, step, elapsed, &random);
        shown.push((buffer.clone(), wait));
        elapsed += wait;
        match next {
            Some(next) => step = next,
            None => break,
        }
    }
    // Fifteen frames of glitches, the sweep, a pause, a flash, the fade and the dark.
    assert_eq!(shown.len(), 15 + 50 + 1 + 1 + 32 + 1);
    assert_eq!(elapsed, 1500 + 750 + 250 + 100 + 32 * 16);
    assert_eq!(shown[14], (glitch_frame(&random), 100));
    assert_eq!(shown[15].0[0], Shade::Full(tint(Color::Yellow)));
    assert_eq!(shown[15].0[1], glitch_frame(&random)[1]);
    assert_eq!(shown[15].1, 15);
    assert_eq!(shown[64].0[49], Shade::Full(tint(Color::Cyan)));
    assert_eq!(shown[65], (fill(Shade::Black), 250));
    assert_eq!(shown[66], (fill(Shade::Full(tint(Color::Pink))), 100));
    assert_eq!(shown[67], (fill(Shade::Scaled(tint(Color::Pink), 255)), 16));
    assert_eq!(shown[68], (fill(Shade::Scaled(tint(Color::Pink), 247)), 16));
    assert_eq!(shown[98], (fill(Shade::Scaled(tint(Color::Pink), 7)), 16));
    assert_eq!(shown[99], (fill(Shade::Black), 0));
}

#[test]
fn glitches_end_in_time() {
    let random = vec![26u8; 143];
    let mut buffer = fill(Shade::Black);
    let (_, next) = startup_animation(&mut buffer, StartupStep::Glitch, 1499, &random);
    assert_eq!(next, Some(StartupStep::Glitch));
    let after = startup_animation(&mut buffer, StartupStep::Glitch, 1500, &[]);
    assert_eq!(after, (15, Some(StartupStep::Sweep(1))));
}

#[test]
fn flashes_end_after_their_frames() {
    let mut effect = LedEffect::Flash { color: tint(Color::Red), times: Some(3), step: 0 };
    for _ in 0..47 {
        effect.update(false);
        assert_ne!(effect, LedEffect::Off);
    }
    effect.update(false);
    assert_eq!(effect, LedEffect::Off);
    let mut effect = LedEffect::FlashThenStatic {
        color: tint(Color::Red),
        times: 2,
        step: 0,
        then_color: tint(Color::Blue),
        then_brightness: 80,
    };
    let end = LedEffect::Static { color: tint(Color::Blue), brightness: 80 };
    for _ in 0..32 {
        effect.update(false);
        assert_ne!(effect, end);
    }
    effect.update(false);
    assert_eq!(effect, end);
}

#[test]
fn flashes_fade_out_frame_by_frame() {
    for times in [None, Some(2)] {
        let mut effect = LedEffect::Flash { color: tint(Color::Red), times, step: 0 };
        for n in 0..40u32 {
            let over = times.is_some() && n >= 32;
            let expected = if !over && n % 16 < 8 {
                Shade::Scaled(tint(Color::Red), (255 - n % 16 * 32) as u8)
            } else {
                Shade::Black
            };
            assert_eq!(effect.update(false), expected);
        }
    }
}
