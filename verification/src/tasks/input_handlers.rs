//! The LED overlays that follow scene changes and the scene button.
use vstd::prelude::*;

use crate::tasks::leds::{Led, LedMode};
use crate::types::{Brightness, Color, InputEvent};

verus! {

pub const SCALE_LED_FIRST_CHANNEL: usize = 3;

pub const SCALE_LED_LAST_CHANNEL: usize = 15;

pub const NUM_CHANNELS: usize = 16;

pub const LED_BRIGHTNESS_FADER: usize = 0;

pub const QUANTIZER_KEY_FADER: usize = 3;

pub const QUANTIZER_TONIC_FADER: usize = 4;

pub const BPM_FADER: usize = 15;

/// Lays a mode over an LED of a channel, or takes the overlay off.
#[derive(Clone, Copy, Debug, PartialEq, Eq, Structural)]
pub struct Overlay {
    pub channel: usize,
    pub led: Led,
    pub mode: Option<LedMode>,
}

/// A dark LED.
pub open spec fn dark() -> LedMode {
    LedMode::Static(Color::White, Brightness::Off)
}

pub open spec fn laid(channel: int, led: Led, mode: LedMode) -> Overlay {
    Overlay { channel: channel as usize, led, mode: Some(mode) }
}

pub open spec fn cleared(channel: int, led: Led) -> Overlay {
    Overlay { channel: channel as usize, led, mode: None }
}

/// What the settings page shows of the quantizer: the mask of the scale, its
/// highest bit the C, the tonic counted from C, and the colors of both.
#[derive(Clone, Copy, Debug, PartialEq, Eq, Structural)]
pub struct ScaleView {
    pub mask: u16,
    pub tonic: usize,
    pub key_color: Color,
    pub tonic_color: Color,
}

/// Piano black-key pattern, counted from C.
pub open spec fn is_black(semitone: int) -> bool {
    semitone == 1 || semitone == 3 || semitone == 6 || semitone == 8 || semitone == 10
}

fn is_black_key(semitone: usize) -> (r: bool)
    ensures
        r == is_black(semitone as int),
{
    semitone == 1 || semitone == 3 || semitone == 6 || semitone == 8 || semitone == 10
}

/// Whether a semitone is in the scale whose mask starts at the tonic.
pub open spec fn in_scale(mask: u16, tonic: int, semitone: int) -> bool {
    (mask >> ((11 - (semitone + tonic) % 12) as u16)) & 1 != 0
}

/// How a semitone is shown.
pub open spec fn key_mode(mask: u16, tonic: int, semitone: int) -> LedMode {
    LedMode::Static(
        if is_black(semitone) {
            Color::Yellow
        } else {
            Color::White
        },
        if semitone == tonic {
            Brightness::High
        } else if in_scale(mask, tonic, semitone) {
            Brightness::Mid
        } else {
            Brightness::Low
        },
    )
}

/// The overlays of the scale keyboard: the twelve semitones from the fourth
/// channel on, the other channels dark.
pub open spec fn keyboard(mask: u16, tonic: int) -> Seq<Overlay> {
    Seq::new(12, |i: int| laid(3 + i, Led::Bottom, key_mode(mask, tonic, i))) + seq![
        laid(0, Led::Bottom, dark()),
        laid(1, Led::Bottom, dark()),
        laid(2, Led::Bottom, dark()),
        laid(15, Led::Bottom, dark()),
    ]
}

/// Shows the scale as a keyboard on the bottom LEDs.
pub fn show_scale_keyboard(mask: u16, tonic: usize) -> (r: Vec<Overlay>)
    requires
        tonic < 12,
    ensures
        r@ == keyboard(mask, tonic as int),
{
    let mut overlays: Vec<Overlay> = Vec::new();
    let mut semitone: usize = 0;
    while semitone < 12
        invariant
            semitone <= 12,
            tonic < 12,
            overlays@.len() == semitone,
            forall|i: int|
                0 <= i < semitone ==> #[trigger] overlays@[i] == laid(
                    3 + i,
                    Led::Bottom,
                    key_mode(mask, tonic as int, i),
                ),
        decreases 12 - semitone,
    {
        let note_index: usize = (semitone + tonic) % 12;
        let shift: u16 = 11 - note_index as u16;
        let lit = (mask >> shift) & 1 != 0;
        let color = if is_black_key(semitone) {
            Color::Yellow
        } else {
            Color::White
        };
        let brightness = if semitone == tonic {
            Brightness::High
        } else if lit {
            Brightness::Mid
        } else {
            Brightness::Low
        };
        overlays.push(
            Overlay {
                channel: SCALE_LED_FIRST_CHANNEL + semitone,
                led: Led::Bottom,
                mode: Some(LedMode::Static(color, brightness)),
            },
        );
        semitone = semitone + 1;
    }
    overlays.push(mute(0, Led::Bottom));
    overlays.push(mute(1, Led::Bottom));
    overlays.push(mute(2, Led::Bottom));
    overlays.push(mute(SCALE_LED_LAST_CHANNEL, Led::Bottom));
    overlays
}

fn mute(channel: usize, led: Led) -> (r: Overlay)
    ensures
        r == laid(channel as int, led, dark()),
{
    Overlay { channel, led, mode: Some(LedMode::Static(Color::White, Brightness::Off)) }
}

/// The overlays of the faders that change settings.
pub open spec fn config_leds(key_color: Color, tonic_color: Color) -> Seq<Overlay> {
    seq![
        laid(0, Led::Top, LedMode::Static(Color::White, Brightness::Mid)),
        laid(3, Led::Top, LedMode::Static(key_color, Brightness::Mid)),
        laid(4, Led::Top, LedMode::Static(tonic_color, Brightness::Mid)),
        laid(15, Led::Top, LedMode::ClockFlash(Color::White, Brightness::High, Brightness::Low)),
    ]
}

/// Marks the faders that change settings on the top LEDs.
pub fn show_config_top_leds(key_color: Color, tonic_color: Color) -> (r: Vec<Overlay>)
    ensures
        r@ == config_leds(key_color, tonic_color),
{
    vec![
        Overlay {
            channel: LED_BRIGHTNESS_FADER,
            led: Led::Top,
            mode: Some(LedMode::Static(Color::White, Brightness::Mid)),
        },
        Overlay {
            channel: QUANTIZER_KEY_FADER,
            led: Led::Top,
            mode: Some(LedMode::Static(key_color, Brightness::Mid)),
        },
        Overlay {
            channel: QUANTIZER_TONIC_FADER,
            led: Led::Top,
            mode: Some(LedMode::Static(tonic_color, Brightness::Mid)),
        },
        Overlay {
            channel: BPM_FADER,
            led: Led::Top,
            mode: Some(LedMode::ClockFlash(Color::White, Brightness::High, Brightness::Low)),
        },
    ]
}

/// The last scene that was loaded or saved; 255 before there was any.
pub struct SceneMemory {
    pub last_scene: u8,
}

/// What is done to the LED of the scene that was the last, when another takes its place.
pub open spec fn superseded(old: u8, scene: u8, overlay: Overlay) -> Seq<Overlay> {
    if old < 16 && old != scene {
        seq![overlay]
    } else {
        Seq::empty()
    }
}

/// All top and button LEDs dark.
pub open spec fn settings_page() -> Seq<Overlay> {
    Seq::new(
        32,
        |i: int|
            laid(
                i / 2,
                if i % 2 == 0 {
                    Led::Top
                } else {
                    Led::Button
                },
                dark(),
            ),
    )
}

/// All overlays taken off.
pub open spec fn all_cleared() -> Seq<Overlay> {
    Seq::new(
        48,
        |i: int|
            cleared(
                i / 3,
                if i % 3 == 0 {
                    Led::Top
                } else if i % 3 == 1 {
                    Led::Bottom
                } else {
                    Led::Button
                },
            ),
    )
}

/// The overlays that an event sets or clears.
pub open spec fn overlays_for(event: InputEvent, last: u8, view: ScaleView) -> Seq<Overlay> {
    match event {
        InputEvent::LoadSceneFromButton(scene) => superseded(
            last,
            scene,
            laid(last as int, Led::Button, dark()),
        ) + seq![
            laid(
                scene as int,
                Led::Button,
                LedMode::FlashThenStatic(Color::Green, 2, Color::Green, Brightness::Mid),
            ),
        ],
        InputEvent::LoadSceneFromMidi(scene) => superseded(
            last,
            scene,
            cleared(last as int, Led::Button),
        ) + seq![laid(scene as int, Led::Button, LedMode::Flash(Color::Green, Some(2)))],
        InputEvent::SaveScene(scene) => superseded(
            last,
            scene,
            laid(last as int, Led::Button, dark()),
        ) + seq![
            laid(
                scene as int,
                Led::Button,
                LedMode::FlashThenStatic(Color::Red, 3, Color::Green, Brightness::Mid),
            ),
        ],
        InputEvent::SceneButtonDown => settings_page() + keyboard(view.mask, view.tonic as int)
            + config_leds(view.key_color, view.tonic_color) + (if last < 16 {
            seq![
                laid(
                    last as int,
                    Led::Button,
                    LedMode::Static(Color::Green, Brightness::Mid),
                ),
            ]
        } else {
            Seq::empty()
        }),
        InputEvent::SceneButtonUp => all_cleared(),
        _ => Seq::empty(),
    }
}

/// The last scene after an event.
pub open spec fn last_scene_after(event: InputEvent, last: u8) -> u8 {
    match event {
        InputEvent::LoadSceneFromButton(scene) => scene,
        InputEvent::LoadSceneFromMidi(scene) => scene,
        InputEvent::SaveScene(scene) => scene,
        _ => last,
    }
}

fn dark_page() -> (r: Vec<Overlay>)
    ensures
        r@ == settings_page(),
{
    let mut overlays: Vec<Overlay> = Vec::new();
    let mut i: usize = 0;
    while i < NUM_CHANNELS
        invariant
            i <= NUM_CHANNELS,
            overlays@.len() == 2 * i,
            forall|k: int| 0 <= k < 2 * i ==> #[trigger] overlays@[k] == settings_page()[k],
        decreases NUM_CHANNELS - i,
    {
        overlays.push(mute(i, Led::Top));
        overlays.push(mute(i, Led::Button));
        i = i + 1;
    }
    overlays
}

fn clear_page() -> (r: Vec<Overlay>)
    ensures
        r@ == all_cleared(),
{
    let mut overlays: Vec<Overlay> = Vec::new();
    let mut i: usize = 0;
    while i < NUM_CHANNELS
        invariant
            i <= NUM_CHANNELS,
            overlays@.len() == 3 * i,
            forall|k: int| 0 <= k < 3 * i ==> #[trigger] overlays@[k] == all_cleared()[k],
        decreases NUM_CHANNELS - i,
    {
        overlays.push(Overlay { channel: i, led: Led::Top, mode: None });
        overlays.push(Overlay { channel: i, led: Led::Bottom, mode: None });
        overlays.push(Overlay { channel: i, led: Led::Button, mode: None });
        i = i + 1;
    }
    overlays
}

impl SceneMemory {
    /// No scene was loaded or saved yet.
    pub fn new() -> (r: Self)
        ensures
            r.last_scene == 255,
    {
        SceneMemory { last_scene: u8::MAX }
    }

    /// The overlays that an event sets or clears. Scenes light the button of the
    /// scene; the scene button shows a page of settings while it is held.
    pub fn run_input_handlers(&mut self, event: InputEvent, view: ScaleView) -> (r: Vec<Overlay>)
        requires
            view.tonic < 12,
        ensures
            r@ == overlays_for(event, old(self).last_scene, view),
            final(self).last_scene == last_scene_after(event, old(self).last_scene),
    {
        let mut overlays: Vec<Overlay> = Vec::new();
        let old_scene: u8 = self.last_scene;
        match event {
            InputEvent::LoadSceneFromButton(scene) => {
                self.last_scene = scene;
                if old_scene < NUM_CHANNELS as u8 && old_scene != scene {
                    overlays.push(mute(old_scene as usize, Led::Button));
                }
                overlays.push(
                    Overlay {
                        channel: scene as usize,
                        led: Led::Button,
                        mode: Some(
                            LedMode::FlashThenStatic(
                                Color::Green,
                                2,
                                Color::Green,
                                Brightness::Mid,
                            ),
                        ),
                    },
                );
            },
            InputEvent::LoadSceneFromMidi(scene) => {
                self.last_scene = scene;
                if old_scene < NUM_CHANNELS as u8 && old_scene != scene {
                    overlays.push(
                        Overlay { channel: old_scene as usize, led: Led::Button, mode: None },
                    );
                }
                overlays.push(
                    Overlay {
                        channel: scene as usize,
                        led: Led::Button,
                        mode: Some(LedMode::Flash(Color::Green, Some(2))),
                    },
                );
            },
            InputEvent::SaveScene(scene) => {
                self.last_scene = scene;
                if old_scene < NUM_CHANNELS as u8 && old_scene != scene {
                    overlays.push(mute(old_scene as usize, Led::Button));
                }
                overlays.push(
                    Overlay {
                        channel: scene as usize,
                        led: Led::Button,
                        mode: Some(
                            LedMode::FlashThenStatic(Color::Red, 3, Color::Green, Brightness::Mid),
                        ),
                    },
                );
            },
            InputEvent::SceneButtonDown => {
                overlays = dark_page();
                let mut keys = show_scale_keyboard(view.mask, view.tonic);
                overlays.append(&mut keys);
                let mut tops = show_config_top_leds(view.key_color, view.tonic_color);
                overlays.append(&mut tops);
                if old_scene < NUM_CHANNELS as u8 {
                    overlays.push(
                        Overlay {
                            channel: old_scene as usize,
                            led: Led::Button,
                            mode: Some(LedMode::Static(Color::Green, Brightness::Mid)),
                        },
                    );
                }
            },
            InputEvent::SceneButtonUp => {
                overlays = clear_page();
            },
            _ => {},
        }
        overlays
    }
}

/// Letting go of the scene button takes off every overlay, whatever was shown.
pub proof fn law_scene_up_clears_all(last: u8, view: ScaleView, channel: int, led: Led)
    requires
        0 <= channel < 16,
    ensures
        overlays_for(InputEvent::SceneButtonUp, last, view).contains(cleared(channel, led)),
{
    let all = overlays_for(InputEvent::SceneButtonUp, last, view);
    match led {
        Led::Top => {
            assert(all[3 * channel] == cleared(channel, led));
        },
        Led::Bottom => {
            assert(all[3 * channel + 1] == cleared(channel, led));
        },
        Led::Button => {
            assert(all[3 * channel + 2] == cleared(channel, led));
        },
    }
}

/// Every overlay is on a channel of the unit, as long as the scenes are.
pub proof fn law_overlays_are_on_channels(event: InputEvent, last: u8, view: ScaleView, i: int)
    requires
        event matches InputEvent::LoadSceneFromButton(scene) ==> scene < 16,
        event matches InputEvent::LoadSceneFromMidi(scene) ==> scene < 16,
        event matches InputEvent::SaveScene(scene) ==> scene < 16,
        0 <= i < overlays_for(event, last, view).len(),
    ensures
        overlays_for(event, last, view)[i].channel < 16,
{
}

/// Loading a scene with the buttons makes its button flash green twice and stay
/// green; loading one over MIDI makes it flash green twice; saving one makes it
/// flash red three times and then stay green. The scene becomes the last one,
/// and the button of another that was the last before is darkened or released.
pub proof fn law_scenes_are_shown(scene: u8, last: u8, view: ScaleView)
    requires
        scene < 16,
    ensures
        ({
            let button = overlays_for(InputEvent::LoadSceneFromButton(scene), last, view);
            let midi = overlays_for(InputEvent::LoadSceneFromMidi(scene), last, view);
            let save = overlays_for(InputEvent::SaveScene(scene), last, view);
            let replaces = last < 16 && last != scene;
            let count: nat = if replaces {
                2
            } else {
                1
            };
            let off = Some(LedMode::Static(Color::White, Brightness::Off));
            &&& button.len() == count && midi.len() == count && save.len() == count
            &&& button[count - 1] == (Overlay {
                channel: scene as usize,
                led: Led::Button,
                mode: Some(LedMode::FlashThenStatic(Color::Green, 2, Color::Green, Brightness::Mid)),
            })
            &&& midi[count - 1] == (Overlay {
                channel: scene as usize,
                led: Led::Button,
                mode: Some(LedMode::Flash(Color::Green, Some(2))),
            })
            &&& save[count - 1] == (Overlay {
                channel: scene as usize,
                led: Led::Button,
                mode: Some(LedMode::FlashThenStatic(Color::Red, 3, Color::Green, Brightness::Mid)),
            })
            &&& replaces ==> button[0] == (Overlay {
                channel: last as usize,
                led: Led::Button,
                mode: off,
            })
            &&& replaces ==> save[0] == button[0]
            &&& replaces ==> midi[0] == (Overlay {
                channel: last as usize,
                led: Led::Button,
                mode: None,
            })
        }),
        last_scene_after(InputEvent::LoadSceneFromButton(scene), last) == scene,
        last_scene_after(InputEvent::LoadSceneFromMidi(scene), last) == scene,
        last_scene_after(InputEvent::SaveScene(scene), last) == scene,
        last_scene_after(InputEvent::SceneButtonDown, last) == last,
        last_scene_after(InputEvent::SceneButtonUp, last) == last,
{
}

/// While the scene button is held, the twelve bottom LEDs from the fourth channel
/// on are a keyboard from C: black keys are yellow and white keys white, the tonic
/// is the brightest, and the semitones of the scale, the highest bit of the mask
/// its first, are brighter than the others.
pub proof fn law_keyboard_shows_scale(last: u8, view: ScaleView, semitone: int)
    requires
        view.tonic < 12,
        0 <= semitone < 12,
    ensures
        ({
            let shown = overlays_for(InputEvent::SceneButtonDown, last, view)[32 + semitone];
            let black = semitone == 1 || semitone == 3 || semitone == 6 || semitone == 8 || semitone
                == 10;
            let degree = if semitone + view.tonic < 12 {
                semitone + view.tonic
            } else {
                semitone + view.tonic - 12
            };
            &&& shown.channel == 3 + semitone
            &&& shown.led == Led::Bottom
            &&& shown.mode matches Some(LedMode::Static(color, brightness)) && color == (if black {
                Color::Yellow
            } else {
                Color::White
            }) && brightness == (if semitone == view.tonic {
                Brightness::High
            } else if (view.mask >> ((11 - degree) as u16)) & 1 == 1 {
                Brightness::Mid
            } else {
                Brightness::Low
            })
        }),
{
    let bits = view.mask >> ((11 - (semitone + view.tonic) % 12) as u16);
    assert(bits & 1 == 0 || bits & 1 == 1) by (bit_vector);
}

/// While the scene button is held, the faders that change settings are marked on
/// the top LEDs, the last scene on its button, and every other top and button LED
/// is dark, as are the bottom LEDs beside the keyboard.
pub proof fn law_settings_page(last: u8, view: ScaleView, channel: int)
    requires
        view.tonic < 12,
        0 <= channel < 16,
    ensures
        ({
            let page = overlays_for(InputEvent::SceneButtonDown, last, view);
            let off = Some(LedMode::Static(Color::White, Brightness::Off));
            let at = channel as usize;
            &&& page.len() == 52 + (if last < 16 {
                1int
            } else {
                0
            })
            &&& page[2 * channel] == (Overlay { channel: at, led: Led::Top, mode: off })
            &&& page[2 * channel + 1] == (Overlay { channel: at, led: Led::Button, mode: off })
            &&& page[44] == (Overlay { channel: 0, led: Led::Bottom, mode: off })
            &&& page[45] == (Overlay { channel: 1, led: Led::Bottom, mode: off })
            &&& page[46] == (Overlay { channel: 2, led: Led::Bottom, mode: off })
            &&& page[47] == (Overlay { channel: 15, led: Led::Bottom, mode: off })
            &&& page[48] == (Overlay {
                channel: 0,
                led: Led::Top,
                mode: Some(LedMode::Static(Color::White, Brightness::Mid)),
            })
            &&& page[49] == (Overlay {
                channel: 3,
                led: Led::Top,
                mode: Some(LedMode::Static(view.key_color, Brightness::Mid)),
            })
            &&& page[50] == (Overlay {
                channel: 4,
                led: Led::Top,
                mode: Some(LedMode::Static(view.tonic_color, Brightness::Mid)),
            })
            &&& page[51] == (Overlay {
                channel: 15,
                led: Led::Top,
                mode: Some(LedMode::ClockFlash(Color::White, Brightness::High, Brightness::Low)),
            })
            &&& last < 16 ==> page[52] == (Overlay {
                channel: last as usize,
                led: Led::Button,
                mode: Some(LedMode::Static(Color::Green, Brightness::Mid)),
            })
        }),
{
}

} // verus!
