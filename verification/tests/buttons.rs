use faderpunk::tasks::buttons::{
    process_button, process_modifier_button, ButtonAction, ButtonFlags, ButtonInput, ButtonState,
    ModifierState, Wait,
};
use faderpunk::tasks::input_handlers::{
    show_config_top_leds, show_scale_keyboard, Overlay, ScaleView, SceneMemory,
};
use faderpunk::tasks::leds::{Led, LedMode};
use faderpunk::types::{Brightness, Color, InputEvent, TransportCmd};

const LOW: ButtonInput = ButtonInput { low: true, scene_held: false, timed_out: false };
const HIGH: ButtonInput = ButtonInput { low: false, scene_held: false, timed_out: false };

fn publish(event: InputEvent) -> ButtonAction {
    ButtonAction::Publish(event)
}

#[test]
fn short_press_is_announced_and_ended() {
    let mut state = ButtonState::Start;
    assert_eq!(process_button(4, &mut state, HIGH), vec![]);
    assert_eq!(state.wait(), Wait::FallingEdge);
    assert_eq!(process_button(4, &mut state, LOW), vec![]);
    assert_eq!(state.wait(), Wait::Millis(1));
    assert_eq!(
        process_button(4, &mut state, LOW),
        vec![publish(InputEvent::ButtonDown(4)), ButtonAction::Flag(true)]
    );
    assert_eq!(state.wait(), Wait::RisingEdgeOrMillis(500));
    assert_eq!(
        process_button(4, &mut state, HIGH),
        vec![publish(InputEvent::ButtonUp(4)), ButtonAction::Flag(false)]
    );
    assert_eq!(state.wait(), Wait::Millis(10));
    assert_eq!(process_button(4, &mut state, HIGH), vec![]);
    assert_eq!(state, ButtonState::Waiting);
}

#[test]
fn bounces_are_ignored() {
    let mut state = ButtonState::Debounce;
    assert_eq!(process_button(0, &mut state, HIGH), vec![]);
    assert_eq!(state, ButtonState::Start);
    assert_eq!(state.wait(), Wait::Nothing);
    assert_eq!(process_button(0, &mut state, HIGH), vec![]);
    assert_eq!(state, ButtonState::Waiting);
    let mut state = ModifierState::Debounce;
    assert_eq!(process_modifier_button(16, &mut state, HIGH), vec![]);
    assert_eq!(state, ModifierState::Start);
    assert_eq!(state.wait(), Wait::Nothing);
}

#[test]
fn the_level_is_read_again_after_a_bounce() {
    // Down again at the second reading: held, and not announced.
    let mut state = ButtonState::Debounce;
    assert_eq!(process_button(0, &mut state, HIGH), vec![]);
    assert_eq!(process_button(0, &mut state, LOW), vec![ButtonAction::Flag(true)]);
    assert_eq!(state, ButtonState::Held);
    // Let go, down at the first reading, and down or up at the second.
    let mut state = ButtonState::HeldSettling;
    assert_eq!(process_button(0, &mut state, LOW), vec![]);
    assert_eq!(state, ButtonState::Start);
    assert_eq!(process_button(0, &mut state, LOW), vec![ButtonAction::Flag(true)]);
    assert_eq!(state, ButtonState::Held);
    let mut state = ButtonState::HeldSettling;
    assert_eq!(process_button(0, &mut state, LOW), vec![]);
    assert_eq!(process_button(0, &mut state, HIGH), vec![]);
    assert_eq!(state, ButtonState::Waiting);
    let mut state = ModifierState::HeldSettling;
    assert_eq!(process_modifier_button(17, &mut state, LOW), vec![]);
    assert_eq!(state, ModifierState::Start);
    assert_eq!(process_modifier_button(17, &mut state, LOW), vec![ButtonAction::Flag(true)]);
    assert_eq!(state, ModifierState::Held);
    let mut state = ModifierState::Debounce;
    assert_eq!(process_modifier_button(17, &mut state, HIGH), vec![]);
    assert_eq!(process_modifier_button(17, &mut state, LOW), vec![ButtonAction::Flag(true)]);
    assert_eq!(state, ModifierState::Held);
}

#[test]
fn long_press_is_announced_once_more() {
    let mut state = ButtonState::Down;
    let held = ButtonInput { low: true, scene_held: false, timed_out: true };
    assert_eq!(
        process_button(1, &mut state, held),
        vec![publish(InputEvent::ButtonLongPress(1))]
    );
    assert_eq!(state.wait(), Wait::RisingEdge);
    assert_eq!(
        process_button(1, &mut state, HIGH),
        vec![publish(InputEvent::ButtonUp(1)), ButtonAction::Flag(false)]
    );
    // The time was over, but the button was already up.
    let mut state = ButtonState::Down;
    let late = ButtonInput { low: false, scene_held: false, timed_out: true };
    assert_eq!(
        process_button(1, &mut state, late),
        vec![publish(InputEvent::ButtonUp(1)), ButtonAction::Flag(false)]
    );
}

#[test]
fn scene_presses_load_and_save() {
    let scene = ButtonInput { low: true, scene_held: true, timed_out: false };
    let mut state = ButtonState::Debounce;
    assert_eq!(process_button(7, &mut state, scene), vec![]);
    assert_eq!(
        process_button(7, &mut state, HIGH),
        vec![publish(InputEvent::LoadSceneFromButton(7))]
    );
    let mut state = ButtonState::SceneHeld;
    let held = ButtonInput { low: true, scene_held: true, timed_out: true };
    assert_eq!(process_button(7, &mut state, held), vec![publish(InputEvent::SaveScene(7))]);
    assert_eq!(process_button(7, &mut state, HIGH), vec![]);
    assert_eq!(state, ButtonState::Settling);
}

#[test]
fn held_at_start_raises_the_flag_only() {
    let mut state = ButtonState::Start;
    assert_eq!(process_button(2, &mut state, LOW), vec![ButtonAction::Flag(true)]);
    assert_eq!(process_button(2, &mut state, HIGH), vec![]);
    assert_eq!(state.wait(), Wait::Millis(10));
    assert_eq!(process_button(2, &mut state, HIGH), vec![ButtonAction::Flag(false)]);
    assert_eq!(state, ButtonState::Waiting);
}

#[test]
fn modifiers_announce_press_and_release() {
    let mut state = ModifierState::Debounce;
    assert_eq!(
        process_modifier_button(16, &mut state, LOW),
        vec![ButtonAction::Flag(true), publish(InputEvent::SceneButtonDown)]
    );
    assert_eq!(state.wait(), Wait::RisingEdge);
    assert_eq!(process_modifier_button(16, &mut state, HIGH), vec![]);
    // A bounce while being let go waits for the end of it.
    assert_eq!(process_modifier_button(16, &mut state, LOW), vec![]);
    assert_eq!(state, ModifierState::Bouncing);
    assert_eq!(
        process_modifier_button(16, &mut state, HIGH),
        vec![ButtonAction::Flag(false), publish(InputEvent::SceneButtonUp)]
    );
    assert_eq!(state.wait(), Wait::Millis(1));
}

#[test]
fn shift_with_scene_toggles_the_transport() {
    let both = ButtonInput { low: true, scene_held: true, timed_out: false };
    let mut state = ModifierState::Debounce;
    assert_eq!(
        process_modifier_button(17, &mut state, both),
        vec![ButtonAction::Transport(TransportCmd::Toggle)]
    );
    let mut state = ModifierState::Debounce;
    assert_eq!(
        process_modifier_button(16, &mut state, both),
        vec![ButtonAction::Flag(true), publish(InputEvent::SceneButtonDown)]
    );
}

#[test]
fn flags_are_read_by_channel() {
    let mut flags = ButtonFlags { pressed: [false; 18] };
    flags.pressed[15] = true;
    flags.pressed[17] = true;
    assert!(!flags.is_channel_button_pressed(0));
    assert!(flags.is_channel_button_pressed(15));
    assert!(flags.is_channel_button_pressed(40));
    assert!(flags.is_shift_button_pressed());
    assert!(!flags.is_scene_button_pressed());
}

fn view() -> ScaleView {
    // A major scale from C.
    ScaleView {
        mask: 0b1010_1101_0101,
        tonic: 0,
        key_color: Color::Red,
        tonic_color: Color::Blue,
    }
}

fn laid(channel: usize, led: Led, mode: LedMode) -> Overlay {
    Overlay { channel, led, mode: Some(mode) }
}

#[test]
fn scale_keyboard_shows_the_scale() {
    let keys = show_scale_keyboard(0b1010_1101_0101, 0);
    assert_eq!(keys.len(), 16);
    let bright = |i: usize| match keys[i].mode {
        Some(LedMode::Static(color, brightness)) => (keys[i].channel, color, brightness),
        other => panic!("{other:?}"),
    };
    assert_eq!(bright(0), (3, Color::White, Brightness::High));
    assert_eq!(bright(1), (4, Color::Yellow, Brightness::Low));
    assert_eq!(bright(2), (5, Color::White, Brightness::Mid));
    assert_eq!(bright(11), (14, Color::White, Brightness::Mid));
    assert_eq!(bright(15), (15, Color::White, Brightness::Off));
    // With another tonic the mask is read from there.
    let moved = show_scale_keyboard(0b1000_0000_0000, 2);
    assert_eq!(
        moved[10].mode,
        Some(LedMode::Static(Color::Yellow, Brightness::Mid))
    );
    assert_eq!(moved[2].mode, Some(LedMode::Static(Color::White, Brightness::High)));
}

#[test]
fn scene_changes_light_their_button() {
    let mut memory = SceneMemory::new();
    let flash = LedMode::FlashThenStatic(Color::Green, 2, Color::Green, Brightness::Mid);
    assert_eq!(
        memory.run_input_handlers(InputEvent::LoadSceneFromButton(3), view()),
        vec![laid(3, Led::Button, flash)]
    );
    // The same scene again darkens nothing.
    assert_eq!(
        memory.run_input_handlers(InputEvent::LoadSceneFromButton(3), view()),
        vec![laid(3, Led::Button, flash)]
    );
    let saved = LedMode::FlashThenStatic(Color::Red, 3, Color::Green, Brightness::Mid);
    let dark = LedMode::Static(Color::White, Brightness::Off);
    assert_eq!(
        memory.run_input_handlers(InputEvent::SaveScene(5), view()),
        vec![laid(3, Led::Button, dark), laid(5, Led::Button, saved)]
    );
    assert_eq!(
        memory.run_input_handlers(InputEvent::LoadSceneFromMidi(6), view()),
        vec![
            Overlay { channel: 5, led: Led::Button, mode: None },
            laid(6, Led::Button, LedMode::Flash(Color::Green, Some(2))),
        ]
    );
    assert_eq!(memory.last_scene, 6);
    assert_eq!(memory.run_input_handlers(InputEvent::ButtonDown(1), view()), vec![]);
}

#[test]
fn scene_button_shows_the_settings() {
    let mut memory = SceneMemory::new();
    let page = memory.run_input_handlers(InputEvent::SceneButtonDown, view());
    assert_eq!(page.len(), 32 + 16 + 4);
    assert_eq!(page[48..], show_config_top_leds(Color::Red, Color::Blue)[..]);
    memory.run_input_handlers(InputEvent::LoadSceneFromButton(9), view());
    let page = memory.run_input_handlers(InputEvent::SceneButtonDown, view());
    assert_eq!(
        page.last(),
        Some(&laid(9, Led::Button, LedMode::Static(Color::Green, Brightness::Mid)))
    );
    let cleared = memory.run_input_handlers(InputEvent::SceneButtonUp, view());
    assert_eq!(cleared.len(), 48);
    assert!(cleared.iter().all(|o| o.mode.is_none()));
    assert!(cleared.contains(&Overlay { channel: 15, led: Led::Bottom, mode: None }));
}
