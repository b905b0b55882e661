//! The effects of the LEDs, and the frames that show them.
use vstd::prelude::*;

use crate::types::{Brightness, Color};

verus! {

/// Frames per second.
pub const REFRESH_RATE: u64 = 60;

/// The length of a frame in milliseconds.
pub const FRAME_MS: u64 = 16;

/// For how long the startup shows glitches, in milliseconds.
pub const GLITCH_MS: u64 = 1500;

/// The number of LEDs on the strip.
pub const NUM_LEDS: usize = 50;

/// A message for one LED.
#[derive(Clone, Copy, Debug, PartialEq, Eq, Structural)]
pub enum LedMsg {
    Reset,
    Mode(LedMode),
}

/// The LEDs of a channel.
#[derive(Clone, Copy, Debug, PartialEq, Eq, Structural)]
pub enum Led {
    Top,
    Bottom,
    Button,
}

/// What an LED is asked to show.
#[derive(Clone, Copy, Debug, PartialEq, Eq, Structural)]
pub enum LedMode {
    Static(Color, Brightness),
    FadeOut(Color),
    Flash(Color, Option<usize>),
    StaticFade(Color, u16),
    ClockFlash(Color, Brightness, Brightness),
    FlashThenStatic(Color, usize, Color, Brightness),
}

/// A color, scaled by a level where there is one.
#[derive(Clone, Copy, Debug, PartialEq, Eq, Structural)]
pub struct Tint {
    pub color: Color,
    pub level: Option<u8>,
}

/// What an LED shows in a frame: nothing, a tint, or a tint scaled by a level.
#[derive(Clone, Copy, Debug, PartialEq, Eq, Structural)]
pub enum Shade {
    Black,
    Full(Tint),
    Scaled(Tint, u8),
}

/// The levels that the names of the brightnesses stand for.
#[derive(Clone, Copy, Debug, PartialEq, Eq, Structural)]
pub struct BrightnessLevels {
    pub off: u8,
    pub low: u8,
    pub mid: u8,
    pub high: u8,
}

impl BrightnessLevels {
    /// The level of a brightness.
    pub open spec fn of(self, brightness: Brightness) -> u8 {
        match brightness {
            Brightness::Off => self.off,
            Brightness::Low => self.low,
            Brightness::Mid => self.mid,
            Brightness::High => self.high,
            Brightness::Custom(level) => level,
        }
    }

    /// The level of a brightness.
    pub fn level(&self, brightness: Brightness) -> (r: u8)
        ensures
            r == self.of(brightness),
    {
        match brightness {
            Brightness::Off => self.off,
            Brightness::Low => self.low,
            Brightness::Mid => self.mid,
            Brightness::High => self.high,
            Brightness::Custom(level) => level,
        }
    }
}

/// A color that no level has scaled.
pub open spec fn plain(color: Color) -> Tint {
    Tint { color, level: None }
}

/// An effect in progress.
#[allow(inconsistent_fields)]
#[derive(Clone, Copy, Debug, PartialEq, Eq, Structural)]
pub enum LedEffect {
    Off,
    Static { color: Tint, brightness: u8 },
    FadeOut { from: Tint, step: u8 },
    Flash { color: Tint, times: Option<usize>, step: u8 },
    StaticFade { color: Tint, delay_ms: u16, elapsed_frames: u64 },
    ClockFlash { color: Tint, brightness_high: u8, brightness_low: u8 },
    FlashThenStatic {
        color: Tint,
        times: usize,
        step: u8,
        then_color: Tint,
        then_brightness: u8,
    },
}

impl LedMode {
    /// The effect that starts with a mode.
    pub open spec fn effect(self, levels: BrightnessLevels) -> LedEffect {
        match self {
            LedMode::Static(color, brightness) => LedEffect::Static {
                color: plain(color),
                brightness: levels.of(brightness),
            },
            LedMode::FadeOut(from) => LedEffect::FadeOut { from: plain(from), step: 0 },
            LedMode::Flash(color, times) => LedEffect::Flash {
                color: plain(color),
                times,
                step: 0,
            },
            LedMode::StaticFade(color, delay_ms) => LedEffect::StaticFade {
                color: plain(color),
                delay_ms,
                elapsed_frames: 0,
            },
            LedMode::ClockFlash(color, high, low) => LedEffect::ClockFlash {
                color: plain(color),
                brightness_high: levels.of(high),
                brightness_low: levels.of(low),
            },
            LedMode::FlashThenStatic(
                color,
                times,
                then_color,
                then_brightness,
            ) => LedEffect::FlashThenStatic {
                color: plain(color),
                times,
                step: 0,
                then_color: plain(then_color),
                then_brightness: levels.of(then_brightness),
            },
        }
    }

    /// The effect that starts with this mode.
    pub fn into_effect(self, levels: &BrightnessLevels) -> (r: LedEffect)
        ensures
            r == self.effect(*levels),
            r.wf(),
    {
        match self {
            LedMode::Static(color, brightness) => LedEffect::Static {
                color: Tint { color, level: None },
                brightness: levels.level(brightness),
            },
            LedMode::FadeOut(from) => LedEffect::FadeOut {
                from: Tint { color: from, level: None },
                step: 0,
            },
            LedMode::Flash(color, times) => LedEffect::Flash {
                color: Tint { color, level: None },
                times,
                step: 0,
            },
            LedMode::StaticFade(color, delay_ms) => LedEffect::StaticFade {
                color: Tint { color, level: None },
                delay_ms,
                elapsed_frames: 0,
            },
            LedMode::ClockFlash(color, high, low) => LedEffect::ClockFlash {
                color: Tint { color, level: None },
                brightness_high: levels.level(high),
                brightness_low: levels.level(low),
            },
            LedMode::FlashThenStatic(
                color,
                times,
                then_color,
                then_brightness,
            ) => LedEffect::FlashThenStatic {
                color: Tint { color, level: None },
                times,
                step: 0,
                then_color: Tint { color: then_color, level: None },
                then_brightness: levels.level(then_brightness),
            },
        }
    }
}

/// The picture of a flash at a step of its cycle: eight frames of fading out,
/// eight frames of nothing.
pub open spec fn flash_shade(color: Tint, step: int) -> Shade {
    if step % 16 < 8 {
        Shade::Scaled(color, (255 - (step % 16) * 32) as u8)
    } else {
        Shade::Black
    }
}

impl LedEffect {
    /// Whether the counters are within their cycles, and the color of a static
    /// effect is as a mode gives it.
    pub open spec fn wf(self) -> bool {
        match self {
            LedEffect::Static { color, .. } => color.level is None,
            LedEffect::Flash { step, .. } => step < 16,
            LedEffect::FlashThenStatic { step, then_color, .. } => step < 16 && then_color.level is None,
            LedEffect::StaticFade { delay_ms, elapsed_frames, .. } => elapsed_frames <= delay_ms / 16 + 1,
            _ => true,
        }
    }

    /// What the effect shows now. `metronome` is the state of the beat.
    pub open spec fn shown(self, metronome: bool) -> Shade {
        match self {
            LedEffect::Off => Shade::Black,
            LedEffect::Static { color, brightness } => if brightness == 255 {
                Shade::Full(color)
            } else {
                Shade::Scaled(color, brightness)
            },
            LedEffect::FadeOut { from, step } => Shade::Scaled(from, (255 - step) as u8),
            LedEffect::Flash { color, times, step } => if times == Some(0usize) {
                Shade::Black
            } else {
                flash_shade(color, step as int)
            },
            LedEffect::StaticFade { color, .. } => Shade::Full(color),
            LedEffect::ClockFlash { color, brightness_high, brightness_low } => Shade::Scaled(
                color,
                if metronome {
                    brightness_high
                } else {
                    brightness_low
                },
            ),
            LedEffect::FlashThenStatic {
                color,
                times,
                step,
                then_color,
                then_brightness,
            } => if times == 0 {
                Shade::Scaled(then_color, then_brightness)
            } else {
                flash_shade(color, step as int)
            },
        }
    }

    /// The effect one frame later.
    pub open spec fn next(self) -> LedEffect {
        match self {
            LedEffect::FadeOut { from, step } => if step < 255 {
                LedEffect::FadeOut {
                    from,
                    step: if step + 32 > 255 {
                        255
                    } else {
                        (step + 32) as u8
                    },
                }
            } else {
                LedEffect::Off
            },
            LedEffect::Flash { color, times, step } => if times == Some(0usize) {
                LedEffect::Off
            } else if step + 1 < 16 {
                LedEffect::Flash { color, times, step: (step + 1) as u8 }
            } else {
                match times {
                    None => LedEffect::Flash { color, times, step: 0 },
                    Some(left) => if left == 1 {
                        LedEffect::Off
                    } else {
                        LedEffect::Flash { color, times: Some((left - 1) as usize), step: 0 }
                    },
                }
            },
            LedEffect::FlashThenStatic {
                color,
                times,
                step,
                then_color,
                then_brightness,
            } => if times == 0 {
                LedEffect::Static { color: then_color, brightness: then_brightness }
            } else if step + 1 < 16 {
                LedEffect::FlashThenStatic {
                    color,
                    times,
                    step: (step + 1) as u8,
                    then_color,
                    then_brightness,
                }
            } else {
                LedEffect::FlashThenStatic {
                    color,
                    times: (times - 1) as usize,
                    step: 0,
                    then_color,
                    then_brightness,
                }
            },
            LedEffect::StaticFade { color, delay_ms, elapsed_frames } => if elapsed_frames * 16
                >= delay_ms {
                LedEffect::FadeOut { from: color, step: 0 }
            } else {
                LedEffect::StaticFade {
                    color,
                    delay_ms,
                    elapsed_frames: (elapsed_frames + 1) as u64,
                }
            },
            _ => self,
        }
    }

    /// Shows the effect and moves it on by a frame.
    pub fn update(&mut self, metronome: bool) -> (r: Shade)
        requires
            old(self).wf(),
        ensures
            r == old(self).shown(metronome),
            *final(self) == old(self).next(),
            final(self).wf(),
    {
        match *self {
            LedEffect::Off => Shade::Black,
            LedEffect::Static { color, brightness } => {
                if brightness == 255 {
                    Shade::Full(color)
                } else {
                    Shade::Scaled(color, brightness)
                }
            },
            LedEffect::FadeOut { from, step } => {
                if step < 255 {
                    *self = LedEffect::FadeOut { from, step: step.saturating_add(32) };
                } else {
                    *self = LedEffect::Off;
                }
                Shade::Scaled(from, 255 - step)
            },
            LedEffect::Flash { color, times, step } => {
                if let Some(left) = times {
                    if left == 0 {
                        *self = LedEffect::Off;
                        return Shade::Black;
                    }
                }
                let shade = if step < 8 {
                    Shade::Scaled(color, 255 - step * 32)
                } else {
                    Shade::Black
                };
                if step + 1 >= 16 {
                    *self = match times {
                        None => LedEffect::Flash { color, times, step: 0 },
                        Some(left) => {
                            if left == 1 {
                                LedEffect::Off
                            } else {
                                LedEffect::Flash { color, times: Some(left - 1), step: 0 }
                            }
                        },
                    };
                } else {
                    *self = LedEffect::Flash { color, times, step: step + 1 };
                }
                shade
            },
            LedEffect::ClockFlash { color, brightness_high, brightness_low } => {
                if metronome {
                    Shade::Scaled(color, brightness_high)
                } else {
                    Shade::Scaled(color, brightness_low)
                }
            },
            LedEffect::FlashThenStatic { color, times, step, then_color, then_brightness } => {
                if times == 0 {
                    *self = LedEffect::Static { color: then_color, brightness: then_brightness };
                    return Shade::Scaled(then_color, then_brightness);
                }
                let shade = if step < 8 {
                    Shade::Scaled(color, 255 - step * 32)
                } else {
                    Shade::Black
                };
                if step + 1 >= 16 {
                    *self = LedEffect::FlashThenStatic {
                        color,
                        times: times - 1,
                        step: 0,
                        then_color,
                        then_brightness,
                    };
                } else {
                    *self = LedEffect::FlashThenStatic {
                        color,
                        times,
                        step: step + 1,
                        then_color,
                        then_brightness,
                    };
                }
                shade
            },
            LedEffect::StaticFade { color, delay_ms, elapsed_frames } => {
                let elapsed_ms: u64 = elapsed_frames * FRAME_MS;
                if elapsed_ms >= delay_ms as u64 {
                    *self = LedEffect::FadeOut { from: color, step: 0 };
                } else {
                    *self = LedEffect::StaticFade {
                        color,
                        delay_ms,
                        elapsed_frames: elapsed_frames + 1,
                    };
                }
                Shade::Full(color)
            },
        }
    }

    /// What is left of an effect when the LED is released: lit LEDs fade, the
    /// others go dark.
    pub open spec fn released(self) -> LedEffect {
        match self {
            LedEffect::Static { color, brightness } => LedEffect::FadeOut {
                from: Tint {
                    color: color.color,
                    level: Some(brightness),
                },
                step: 0,
            },
            LedEffect::StaticFade { color, .. } => LedEffect::FadeOut { from: color, step: 0 },
            _ => LedEffect::Off,
        }
    }

    fn release(self) -> (r: LedEffect)
        ensures
            r == self.released(),
            r.wf(),
    {
        match self {
            LedEffect::Static { color, brightness } => LedEffect::FadeOut {
                from: Tint { color: color.color, level: Some(brightness) },
                step: 0,
            },
            LedEffect::StaticFade { color, .. } => LedEffect::FadeOut { from: color, step: 0 },
            _ => LedEffect::Off,
        }
    }
}

/// The effect `n` frames later.
pub open spec fn after_frames(effect: LedEffect, n: nat) -> LedEffect
    decreases n,
{
    if n == 0 {
        effect
    } else {
        after_frames(effect.next(), (n - 1) as nat)
    }
}

/// A fade out is over after nine frames, and the LED then stays dark.
pub proof fn law_fade_out_ends(from: Tint, n: nat)
    requires
        n >= 9,
    ensures
        after_frames(LedEffect::FadeOut { from, step: 0 }, n) == LedEffect::Off,
    decreases n,
{
    reveal_with_fuel(after_frames, 10);
    lemma_off_stays((n - 9) as nat);
}

proof fn lemma_off_stays(n: nat)
    ensures
        after_frames(LedEffect::Off, n) == LedEffect::Off,
    decreases n,
{
    if n > 0 {
        lemma_off_stays((n - 1) as nat);
    }
}

/// A flash that is to come a number of times takes 16 frames each time: the LED is
/// off from the frame after the last one on, and not before.
pub proof fn law_flash_ends(color: Tint, times: usize, n: nat)
    requires
        times > 0,
    ensures
        (after_frames(LedEffect::Flash { color, times: Some(times), step: 0 }, n)
            == LedEffect::Off) == (n >= 16 * times),
{
    lemma_flash_ends(color, times, 0, n);
}

proof fn lemma_flash_ends(color: Tint, times: usize, step: u8, n: nat)
    requires
        times > 0,
        step < 16,
    ensures
        (after_frames(LedEffect::Flash { color, times: Some(times), step }, n) == LedEffect::Off)
            == (n >= 16 * times - step),
    decreases n,
{
    if n > 0 {
        if step + 1 < 16 {
            lemma_flash_ends(color, times, (step + 1) as u8, (n - 1) as nat);
        } else if times == 1 {
            lemma_off_stays((n - 1) as nat);
        } else {
            lemma_flash_ends(color, (times - 1) as usize, 0, (n - 1) as nat);
        }
    }
}

/// Each time a flash fades out from full brightness over eight frames and then stays
/// dark for eight, and after the last time it stays dark.
pub proof fn law_flash_frames(color: Tint, times: usize, n: nat, metronome: bool)
    ensures
        after_frames(LedEffect::Flash { color, times: Some(times), step: 0 }, n).shown(metronome)
            == (if n < 16 * times {
            flash_shade(color, n as int)
        } else {
            Shade::Black
        }),
        after_frames(LedEffect::Flash { color, times: None, step: 0 }, n).shown(metronome)
            == flash_shade(color, n as int),
{
    lemma_flash_frames(color, times, 0, n, metronome);
    lemma_endless_flash_frames(color, 0, n, metronome);
}

proof fn lemma_flash_frames(color: Tint, times: usize, step: u8, n: nat, metronome: bool)
    requires
        step < 16,
        times == 0 ==> step == 0,
    ensures
        after_frames(LedEffect::Flash { color, times: Some(times), step }, n).shown(metronome) == (
        if n < 16 * times - step {
            flash_shade(color, step + n)
        } else {
            Shade::Black
        }),
    decreases n,
{
    if n > 0 {
        let rest = (n - 1) as nat;
        if times == 0 {
            lemma_off_stays(rest);
        } else if step + 1 < 16 {
            lemma_flash_frames(color, times, (step + 1) as u8, rest, metronome);
        } else if times == 1 {
            lemma_off_stays(rest);
        } else {
            lemma_flash_frames(color, (times - 1) as usize, 0, rest, metronome);
            assert((step + n) % 16 == rest as int % 16);
        }
    }
}

proof fn lemma_endless_flash_frames(color: Tint, step: u8, n: nat, metronome: bool)
    requires
        step < 16,
    ensures
        after_frames(LedEffect::Flash { color, times: None, step }, n).shown(metronome)
            == flash_shade(color, step + n),
    decreases n,
{
    if n > 0 {
        let rest = (n - 1) as nat;
        if step + 1 < 16 {
            lemma_endless_flash_frames(color, (step + 1) as u8, rest, metronome);
        } else {
            lemma_endless_flash_frames(color, 0, rest, metronome);
            assert((step + n) % 16 == rest as int % 16);
        }
    }
}

/// A flash that ends in a static color takes 16 frames each time and one more: the
/// color is static from the frame after that on, and not before.
pub proof fn law_flash_then_static(
    color: Tint,
    times: usize,
    then_color: Tint,
    then_brightness: u8,
    n: nat,
)
    ensures
        (after_frames(
            LedEffect::FlashThenStatic { color, times, step: 0, then_color, then_brightness },
            n,
        ) == (LedEffect::Static { color: then_color, brightness: then_brightness })) == (n > 16
            * times),
{
    lemma_flash_then_static(color, times, 0, then_color, then_brightness, n);
}

proof fn lemma_flash_then_static(
    color: Tint,
    times: usize,
    step: u8,
    then_color: Tint,
    then_brightness: u8,
    n: nat,
)
    requires
        step < 16,
        times == 0 ==> step == 0,
    ensures
        (after_frames(
            LedEffect::FlashThenStatic { color, times, step, then_color, then_brightness },
            n,
        ) == (LedEffect::Static { color: then_color, brightness: then_brightness })) == (n > 16
            * times - step),
    decreases n,
{
    if n > 0 {
        let rest = (n - 1) as nat;
        if times == 0 {
            lemma_static_stays(then_color, then_brightness, rest);
        } else if step + 1 < 16 {
            lemma_flash_then_static(
                color,
                times,
                (step + 1) as u8,
                then_color,
                then_brightness,
                rest,
            );
        } else {
            lemma_flash_then_static(
                color,
                (times - 1) as usize,
                0,
                then_color,
                then_brightness,
                rest,
            );
        }
    }
}

proof fn lemma_static_stays(color: Tint, brightness: u8, n: nat)
    ensures
        after_frames(LedEffect::Static { color, brightness }, n) == (LedEffect::Static {
            color,
            brightness,
        }),
    decreases n,
{
    if n > 0 {
        lemma_static_stays(color, brightness, (n - 1) as nat);
    }
}

/// The number of each LED on the strip, by position and channel.
pub struct LedMap {
    pub top: [usize; 16],
    pub bottom: [usize; 16],
    pub button: [usize; 16],
}

impl LedMap {
    pub open spec fn wf(self) -> bool {
        &&& forall|i: int| 0 <= i < 16 ==> #[trigger] self.top[i] < 50
        &&& forall|i: int| 0 <= i < 16 ==> #[trigger] self.bottom[i] < 50
        &&& forall|i: int| 0 <= i < 16 ==> #[trigger] self.button[i] < 50
    }

    /// The number of an LED on the strip.
    pub open spec fn number(self, channel: int, position: Led) -> usize {
        match position {
            Led::Top => self.top[channel],
            Led::Bottom => self.bottom[channel],
            Led::Button => self.button[channel],
        }
    }
}

/// The number of an LED on the strip.
pub fn get_no(map: &LedMap, channel: usize, position: Led) -> (r: usize)
    requires
        channel < 16,
    ensures
        r == map.number(channel as int, position),
        map.wf() ==> r < 50,
{
    match position {
        Led::Top => map.top[channel],
        Led::Bottom => map.bottom[channel],
        Led::Button => map.button[channel],
    }
}

/// The signal that sets or releases an LED of a channel: its number and the message.
pub fn set_led_mode(map: &LedMap, channel: usize, position: Led, msg: LedMsg) -> (r: (usize, LedMsg))
    requires
        channel < 16,
    ensures
        r == (map.number(channel as int, position), msg),
{
    (get_no(map, channel, position), msg)
}

/// The message that lays a mode over an LED of a channel.
pub fn set_led_overlay_mode(map: &LedMap, channel: usize, position: Led, mode: LedMode) -> (r: (
    usize,
    Option<LedMode>,
))
    requires
        channel < 16,
    ensures
        r == (map.number(channel as int, position), Some(mode)),
{
    (get_no(map, channel, position), Some(mode))
}

/// The message that takes the overlay off an LED of a channel.
pub fn clear_led_overlay(map: &LedMap, channel: usize, position: Led) -> (r: (
    usize,
    Option<LedMode>,
))
    requires
        channel < 16,
    ensures
        r == (map.number(channel as int, position), None::<LedMode>),
{
    (get_no(map, channel, position), None)
}

pub open spec fn effects_wf(effects: Seq<LedEffect>) -> bool {
    &&& effects.len() == 50
    &&& forall|i: int| 0 <= i < 50 ==> #[trigger] effects[i].wf()
}

/// The effects of all LEDs, in two layers. An effect of the overlay hides that of
/// the base layer.
pub struct LedProcessor {
    pub base_layer: Vec<LedEffect>,
    pub overlay_layer: Vec<LedEffect>,
}

/// What two effects show together.
pub open spec fn layered(base: LedEffect, overlay: LedEffect, metronome: bool) -> Shade {
    if overlay is Off {
        base.shown(metronome)
    } else {
        overlay.shown(metronome)
    }
}

/// A base effect after the signals for it have been taken.
pub open spec fn signalled(
    effect: LedEffect,
    signal: Option<LedMsg>,
    levels: BrightnessLevels,
) -> LedEffect {
    match signal {
        Some(LedMsg::Mode(mode)) => mode.effect(levels),
        Some(LedMsg::Reset) => effect.released(),
        None => effect,
    }
}

/// The overlay after a message.
pub open spec fn overlaid(
    overlay: Seq<LedEffect>,
    message: (usize, Option<LedMode>),
    levels: BrightnessLevels,
) -> Seq<LedEffect> {
    overlay.update(
        message.0 as int,
        match message.1 {
            Some(mode) => mode.effect(levels),
            None => LedEffect::Off,
        },
    )
}

/// The overlay after a sequence of messages.
pub open spec fn overlaid_all(
    overlay: Seq<LedEffect>,
    messages: Seq<(usize, Option<LedMode>)>,
    levels: BrightnessLevels,
) -> Seq<LedEffect>
    decreases messages.len(),
{
    if messages.len() == 0 {
        overlay
    } else {
        overlaid(overlaid_all(overlay, messages.drop_last(), levels), messages.last(), levels)
    }
}

impl LedProcessor {
    pub open spec fn wf(self) -> bool {
        effects_wf(self.base_layer@) && effects_wf(self.overlay_layer@)
    }

    /// The state after the startup: all LEDs off, save for the two modifier
    /// buttons, which show the beat and a steady light.
    pub open spec fn initial_base(levels: BrightnessLevels) -> Seq<LedEffect> {
        Seq::new(
            50,
            |i: int|
                if i == 16 {
                    LedEffect::ClockFlash {
                        color: plain(Color::Pink),
                        brightness_high: levels.high,
                        brightness_low: levels.mid,
                    }
                } else if i == 17 {
                    LedEffect::Static { color: plain(Color::Yellow), brightness: levels.mid }
                } else {
                    LedEffect::Off
                },
        )
    }

    pub fn new(levels: &BrightnessLevels) -> (r: Self)
        ensures
            r.wf(),
            r.base_layer@ == LedProcessor::initial_base(*levels),
            r.overlay_layer@ == Seq::new(50, |i: int| LedEffect::Off),
    {
        let mut base_layer: Vec<LedEffect> = Vec::new();
        let mut overlay_layer: Vec<LedEffect> = Vec::new();
        let mut i: usize = 0;
        while i < 50
            invariant
                i <= 50,
                base_layer@.len() == i,
                overlay_layer@.len() == i,
                forall|k: int|
                    0 <= k < i ==> #[trigger] base_layer@[k] == LedProcessor::initial_base(
                        *levels,
                    )[k],
                forall|k: int| 0 <= k < i ==> #[trigger] overlay_layer@[k] == LedEffect::Off,
            decreases 50 - i,
        {
            if i == 16 {
                base_layer.push(
                    LedEffect::ClockFlash {
                        color: Tint { color: Color::Pink, level: None },
                        brightness_high: levels.level(Brightness::High),
                        brightness_low: levels.level(Brightness::Mid),
                    },
                );
            } else if i == 17 {
                base_layer.push(
                    LedEffect::Static {
                        color: Tint { color: Color::Yellow, level: None },
                        brightness: levels.level(Brightness::Mid),
                    },
                );
            } else {
                base_layer.push(LedEffect::Off);
            }
            overlay_layer.push(LedEffect::Off);
            i = i + 1;
        }
        LedProcessor { base_layer, overlay_layer }
    }

    /// Takes the signals for the base layer, one per LED.
    pub fn apply_signals(&mut self, signals: &Vec<Option<LedMsg>>, levels: &BrightnessLevels)
        requires
            old(self).wf(),
            signals@.len() == 50,
        ensures
            final(self).wf(),
            final(self).overlay_layer == old(self).overlay_layer,
            final(self).base_layer@ == Seq::new(
                50,
                |i: int| signalled(old(self).base_layer@[i], signals@[i], *levels),
            ),
    {
        let ghost before = self.base_layer@;
        let mut i: usize = 0;
        while i < 50
            invariant
                i <= 50,
                signals@.len() == 50,
                before.len() == 50,
                self.base_layer@.len() == 50,
                effects_wf(self.base_layer@),
                self.overlay_layer == old(self).overlay_layer,
                forall|k: int|
                    0 <= k < i ==> #[trigger] self.base_layer@[k] == signalled(
                        before[k],
                        signals@[k],
                        *levels,
                    ),
                forall|k: int| i <= k < 50 ==> #[trigger] self.base_layer@[k] == before[k],
            decreases 50 - i,
        {
            if let Some(msg) = signals[i] {
                let effect = match msg {
                    LedMsg::Mode(mode) => mode.into_effect(levels),
                    LedMsg::Reset => self.base_layer[i].release(),
                };
                self.base_layer.set(i, effect);
            }
            i = i + 1;
        }
    }

    /// Takes the messages for the overlay, in order.
    pub fn apply_overlays(
        &mut self,
        messages: &Vec<(usize, Option<LedMode>)>,
        levels: &BrightnessLevels,
    )
        requires
            old(self).wf(),
            forall|i: int| 0 <= i < messages@.len() ==> (#[trigger] messages@[i]).0 < 50,
        ensures
            final(self).wf(),
            final(self).base_layer == old(self).base_layer,
            final(self).overlay_layer@ == overlaid_all(
                old(self).overlay_layer@,
                messages@,
                *levels,
            ),
    {
        let mut i: usize = 0;
        while i < messages.len()
            invariant
                i <= messages@.len(),
                forall|k: int| 0 <= k < messages@.len() ==> (#[trigger] messages@[k]).0 < 50,
                self.wf(),
                self.base_layer == old(self).base_layer,
                self.overlay_layer@ == overlaid_all(
                    old(self).overlay_layer@,
                    messages@.take(i as int),
                    *levels,
                ),
            decreases messages@.len() - i,
        {
            assert(messages@[i as int].0 < 50);
            let (no, mode) = messages[i];
            let ghost upto = messages@.take(i + 1);
            assert(upto.drop_last() =~= messages@.take(i as int));
            let effect = match mode {
                Some(mode) => mode.into_effect(levels),
                None => LedEffect::Off,
            };
            self.overlay_layer.set(no, effect);
            i = i + 1;
        }
        assert(messages@.take(i as int) =~= messages@);
    }

    /// What both layers show.
    pub open spec fn picture(self, metronome: bool) -> Seq<Shade> {
        Seq::new(50, |i: int| layered(self.base_layer@[i], self.overlay_layer@[i], metronome))
    }

    /// Shows both layers and moves every effect on by a frame. Effects of the base
    /// layer go on below the overlay.
    pub fn process(&mut self, metronome: bool) -> (r: Vec<Shade>)
        requires
            old(self).wf(),
        ensures
            final(self).wf(),
            r@ == Seq::new(
                50,
                |i: int|
                    layered(old(self).base_layer@[i], old(self).overlay_layer@[i], metronome),
            ),
            final(self).base_layer@ == Seq::new(50, |i: int| old(self).base_layer@[i].next()),
            final(self).overlay_layer@ == Seq::new(50, |i: int| old(self).overlay_layer@[i].next()),
            r@ == old(self).picture(metronome),
    {
        let ghost base = self.base_layer@;
        let ghost overlay = self.overlay_layer@;
        let mut buffer: Vec<Shade> = Vec::new();
        let mut i: usize = 0;
        while i < 50
            invariant
                i <= 50,
                effects_wf(base),
                effects_wf(overlay),
                effects_wf(self.base_layer@),
                effects_wf(self.overlay_layer@),
                buffer@.len() == i,
                forall|k: int|
                    0 <= k < i ==> #[trigger] buffer@[k] == layered(base[k], overlay[k], metronome),
                forall|k: int| 0 <= k < i ==> #[trigger] self.base_layer@[k] == base[k].next(),
                forall|k: int| i <= k < 50 ==> #[trigger] self.base_layer@[k] == base[k],
                forall|k: int|
                    0 <= k < i ==> #[trigger] self.overlay_layer@[k] == overlay[k].next(),
                forall|k: int| i <= k < 50 ==> #[trigger] self.overlay_layer@[k] == overlay[k],
            decreases 50 - i,
        {
            let mut below: LedEffect = self.base_layer[i];
            let mut above: LedEffect = self.overlay_layer[i];
            assert(base[i as int].wf() && overlay[i as int].wf());
            if let LedEffect::Off = above {
                buffer.push(below.update(metronome));
            } else {
                buffer.push(above.update(metronome));
                match below {
                    LedEffect::Off => {},
                    LedEffect::Static { .. } => {},
                    _ => {
                        let _ = below.update(metronome);
                    },
                }
            }
            self.base_layer.set(i, below);
            self.overlay_layer.set(i, above);
            i = i + 1;
        }
        buffer
    }

    /// One frame: the signals and the overlays are taken, then both layers are shown.
    pub fn frame(
        &mut self,
        signals: &Vec<Option<LedMsg>>,
        overlays: &Vec<(usize, Option<LedMode>)>,
        levels: &BrightnessLevels,
        metronome: bool,
    ) -> (r: Vec<Shade>)
        requires
            old(self).wf(),
            signals@.len() == 50,
            forall|i: int| 0 <= i < overlays@.len() ==> (#[trigger] overlays@[i]).0 < 50,
        ensures
            final(self).wf(),
            ({
                let base = Seq::new(
                    50,
                    |i: int| signalled(old(self).base_layer@[i], signals@[i], *levels),
                );
                let overlay = overlaid_all(old(self).overlay_layer@, overlays@, *levels);
                &&& r@ == Seq::new(50, |i: int| layered(base[i], overlay[i], metronome))
                &&& final(self).base_layer@ == Seq::new(50, |i: int| base[i].next())
                &&& final(self).overlay_layer@ == Seq::new(50, |i: int| overlay[i].next())
            }),
    {
        self.apply_signals(signals, levels);
        self.apply_overlays(overlays, levels);
        self.process(metronome)
    }
}

/// A color as the strip takes it.
#[derive(Clone, Copy, Debug, PartialEq, Eq, Structural)]
pub struct Rgb8 {
    pub r: u8,
    pub g: u8,
    pub b: u8,
}

/// A color with each part brought down to `level + 1` parts of 256.
pub open spec fn dimmed(color: Rgb8, level: u8) -> Rgb8 {
    Rgb8 {
        r: (color.r * (level + 1) / 256) as u8,
        g: (color.g * (level + 1) / 256) as u8,
        b: (color.b * (level + 1) / 256) as u8,
    }
}

/// `smart_leds::brightness` brings every part of every color down to
/// `level + 1` parts of 256, rounded down.
#[verifier::external_body]
fn dim(colors: &Vec<Rgb8>, level: u8) -> (r: Vec<Rgb8>)
    ensures
        r@ == colors@.map_values(|color: Rgb8| dimmed(color, level)),
{
    let source = colors.iter().map(|c| smart_leds::RGB8 { r: c.r, g: c.g, b: c.b });
    smart_leds::brightness(source, level).map(|c| Rgb8 { r: c.r, g: c.g, b: c.b }).collect()
}

/// What `smart_leds::gamma` makes of one part of a color.
pub uninterp spec fn gamma_level(level: u8) -> u8;

/// A color after the gamma correction.
pub open spec fn gamma_corrected(color: Rgb8) -> Rgb8 {
    Rgb8 { r: gamma_level(color.r), g: gamma_level(color.g), b: gamma_level(color.b) }
}

/// `smart_leds::gamma` replaces every part of every color by the entry of a fixed
/// table, the same for all three parts.
#[verifier::external_body]
fn correct_gamma(colors: &Vec<Rgb8>) -> (r: Vec<Rgb8>)
    ensures
        r@.len() == colors@.len(),
        forall|i: int|
            0 <= i < r@.len() ==> #[trigger] r@[i] == (Rgb8 {
                r: gamma_level(colors@[i].r),
                g: gamma_level(colors@[i].g),
                b: gamma_level(colors@[i].b),
            }),
{
    let source = colors.iter().map(|c| smart_leds::RGB8 { r: c.r, g: c.g, b: c.b });
    smart_leds::gamma(source).map(|c| Rgb8 { r: c.r, g: c.g, b: c.b }).collect()
}

/// The colors that are written to the strip for a buffer.
pub open spec fn flushed(buffer: Seq<Rgb8>, level: u8) -> Seq<Rgb8> {
    buffer.map_values(|color: Rgb8| gamma_corrected(dimmed(color, level)))
}

/// The colors that are written to the strip for a buffer: dimmed to the global
/// brightness, then corrected.
pub fn flush_buffer(buffer: &Vec<Rgb8>, level: u8) -> (r: Vec<Rgb8>)
    ensures
        r@ == buffer@.map_values(|color: Rgb8| gamma_corrected(dimmed(color, level))),
        r@ == flushed(buffer@, level),
{
    let lowered = dim(buffer, level);
    let r = correct_gamma(&lowered);
    assert(r@ =~= buffer@.map_values(|color: Rgb8| gamma_corrected(dimmed(color, level))));
    r
}

// ---------------------------------------------------------------------------
// Startup
// ---------------------------------------------------------------------------

/// The colors of the startup.
pub open spec fn palette(i: int) -> Color {
    if i % 3 == 0 {
        Color::Yellow
    } else if i % 3 == 1 {
        Color::Cyan
    } else {
        Color::Pink
    }
}

fn palette_color(i: usize) -> (r: Color)
    ensures
        r == palette(i as int),
{
    match i % 3 {
        0 => Color::Yellow,
        1 => Color::Cyan,
        _ => Color::Pink,
    }
}

/// A buffer of one shade.
pub open spec fn filled(shade: Shade) -> Seq<Shade> {
    Seq::new(50, |i: int| shade)
}

/// A buffer of one shade.
pub fn fill(shade: Shade) -> (r: Vec<Shade>)
    ensures
        r@ == filled(shade),
{
    let mut buffer: Vec<Shade> = Vec::new();
    let mut i: usize = 0;
    while i < NUM_LEDS
        invariant
            i <= NUM_LEDS,
            buffer@.len() == i,
            forall|k: int| 0 <= k < i ==> buffer@[k] == shade,
        decreases NUM_LEDS - i,
    {
        buffer.push(shade);
        i = i + 1;
    }
    buffer
}

/// The first LED after a glitch that starts at `start` and is `len` long.
pub open spec fn glitch_end(start: int, len: int) -> int {
    if start + len < 50 {
        start + len
    } else {
        50
    }
}

/// Where a glitch lies and how it looks, read from random bytes.
pub struct Glitch {
    pub colored: bool,
    pub start: int,
    pub end: int,
}

pub open spec fn glitch_at(random: Seq<u8>, at: int) -> Glitch {
    let start = random[at + 1] as int % 50;
    Glitch {
        colored: random[at] < 166,
        start,
        end: glitch_end(start, 1 + random[at + 2] as int % 25),
    }
}

/// The number of random bytes that a glitch takes.
pub open spec fn glitch_size(random: Seq<u8>, at: int) -> int {
    let glitch = glitch_at(random, at);
    if glitch.colored {
        4
    } else {
        3 + (glitch.end - glitch.start)
    }
}

/// The buffer with a glitch painted on it: one color of the palette, or white
/// noise of at least half brightness.
pub open spec fn glitch_painted(buffer: Seq<Shade>, random: Seq<u8>, at: int) -> Seq<Shade> {
    let glitch = glitch_at(random, at);
    Seq::new(
        50,
        |i: int|
            if glitch.start <= i < glitch.end {
                if glitch.colored {
                    Shade::Full(plain(palette(random[at + 3] as int)))
                } else {
                    let value = (128 + random[at + 3 + (i - glitch.start)] % 128) as u8;
                    Shade::Full(plain(Color::Custom(value, value, value)))
                }
            } else {
                buffer[i]
            },
    )
}

/// The buffer with `n` glitches painted on it, one after the other.
pub open spec fn glitches_painted(buffer: Seq<Shade>, random: Seq<u8>, at: int, n: nat) -> Seq<
    Shade,
>
    decreases n,
{
    if n == 0 {
        buffer
    } else {
        glitches_painted(
            glitch_painted(buffer, random, at),
            random,
            at + glitch_size(random, at),
            (n - 1) as nat,
        )
    }
}

/// A frame of the startup's glitches: one time in ten the whole strip in a color,
/// else dark, with two to five glitches on top.
pub open spec fn glitched(random: Seq<u8>) -> Seq<Shade> {
    if random[0] < 26 {
        glitches_painted(
            filled(Shade::Full(plain(palette(random[1] as int)))),
            random,
            3,
            (2 + random[2] % 4) as nat,
        )
    } else {
        glitches_painted(filled(Shade::Black), random, 2, (2 + random[1] % 4) as nat)
    }
}

/// Paints one glitch and returns the number of random bytes that it took.
fn paint_glitch(buffer: &mut Vec<Shade>, random: &[u8], at: usize) -> (r: usize)
    requires
        old(buffer)@.len() == 50,
        at + 28 <= random@.len(),
    ensures
        final(buffer)@ == glitch_painted(old(buffer)@, random@, at as int),
        r == glitch_size(random@, at as int),
        4 <= r <= 28,
{
    let colored = random[at] < 166;
    let start: usize = random[at + 1] as usize % 50;
    let len: usize = 1 + random[at + 2] as usize % 25;
    let end: usize = if start + len < 50 {
        start + len
    } else {
        50
    };
    let ghost before = buffer@;
    let total: usize = random.len();
    let mut i: usize = start;
    while i < end
        invariant
            start <= i <= end <= 50,
            end - start <= 25,
            at + 28 <= total == random@.len(),
            before.len() == 50,
            buffer@.len() == 50,
            glitch_at(random@, at as int) == (Glitch {
                colored,
                start: start as int,
                end: end as int,
            }),
            forall|k: int|
                start <= k < i ==> #[trigger] buffer@[k] == glitch_painted(
                    before,
                    random@,
                    at as int,
                )[k],
            forall|k: int|
                0 <= k < 50 && !(start <= k < i) ==> #[trigger] buffer@[k] == before[k],
        decreases end - i,
    {
        let color = if colored {
            palette_color(random[at + 3] as usize)
        } else {
            let value: u8 = 128 + random[at + 3 + (i - start)] % 128;
            Color::Custom(value, value, value)
        };
        buffer.set(i, Shade::Full(Tint { color, level: None }));
        i = i + 1;
    }
    assert(buffer@ =~= glitch_painted(before, random@, at as int));
    if colored {
        4
    } else {
        3 + (end - start)
    }
}

/// A frame of the startup's glitches, from random bytes.
pub fn glitch_frame(random: &[u8]) -> (r: Vec<Shade>)
    requires
        random@.len() >= 143,
    ensures
        r@ == glitched(random@),
{
    let flash = random[0] < 26;
    let mut buffer = if flash {
        fill(Shade::Full(Tint { color: palette_color(random[1] as usize), level: None }))
    } else {
        fill(Shade::Black)
    };
    let mut at: usize = if flash {
        3
    } else {
        2
    };
    let num_events: u8 = 2 + random[at - 1] % 4;
    let mut n: u8 = 0;
    while n < num_events
        invariant
            n <= num_events <= 5,
            random@.len() >= 143,
            buffer@.len() == 50,
            at <= 3 + n * 28,
            glitched(random@) == glitches_painted(
                buffer@,
                random@,
                at as int,
                (num_events - n) as nat,
            ),
        decreases num_events - n,
    {
        let used: usize = paint_glitch(&mut buffer, random, at);
        at = at + used;
        n = n + 1;
    }
    buffer
}

/// A frame of the startup's sweep, on top of the frame before it: the next LED is
/// lit in the color of its place, and the last one goes dark.
pub open spec fn sweep_painted(before: Seq<Shade>, i: int) -> Seq<Shade> {
    let lit = before.update(i, Shade::Full(plain(palette(i))));
    if i > 0 {
        lit.update(i - 1, Shade::Black)
    } else {
        lit
    }
}

/// Paints a frame of the startup's sweep.
pub fn sweep_frame(buffer: &mut Vec<Shade>, i: usize)
    requires
        old(buffer)@.len() == 50,
        i < 50,
    ensures
        final(buffer)@ == sweep_painted(old(buffer)@, i as int),
{
    buffer.set(i, Shade::Full(Tint { color: palette_color(i), level: None }));
    if i > 0 {
        buffer.set(i - 1, Shade::Black);
    }
}

/// A step of the startup animation.
#[derive(Clone, Copy, Debug, PartialEq, Eq, Structural)]
pub enum StartupStep {
    /// Random glitches.
    Glitch,
    /// The color sweep has come to an LED.
    Sweep(usize),
    /// The last LED of the sweep goes dark.
    Swept,
    /// The whole strip in pink.
    Flash,
    /// The strip fades from this level on.
    Fade(u8),
    /// The strip goes dark.
    Dark,
}

impl StartupStep {
    pub open spec fn wf(self) -> bool {
        self matches StartupStep::Sweep(i) ==> i < 50
    }

    /// The step that is due: the glitches give way to the sweep in time.
    pub open spec fn due(self, elapsed_ms: u64) -> StartupStep {
        if self == StartupStep::Glitch && elapsed_ms >= GLITCH_MS {
            StartupStep::Sweep(0)
        } else {
            self
        }
    }

    /// The frame of a step that is due, on top of the frame before it.
    pub open spec fn painted(self, before: Seq<Shade>, random: Seq<u8>) -> Seq<Shade> {
        match self {
            StartupStep::Glitch => glitched(random),
            StartupStep::Sweep(i) => sweep_painted(before, i as int),
            StartupStep::Swept => before.update(49, Shade::Black),
            StartupStep::Flash => filled(Shade::Full(plain(Color::Pink))),
            StartupStep::Fade(level) => filled(Shade::Scaled(plain(Color::Pink), level)),
            StartupStep::Dark => filled(Shade::Black),
        }
    }

    /// For how long the frame of a step stays, in milliseconds.
    pub open spec fn millis(self) -> u64 {
        match self {
            StartupStep::Glitch => 100,
            StartupStep::Sweep(_) => 15,
            StartupStep::Swept => 250,
            StartupStep::Flash => 100,
            StartupStep::Fade(_) => FRAME_MS,
            StartupStep::Dark => 0,
        }
    }

    /// The step after one that is due. The level of the fade drops by eight.
    pub open spec fn next(self) -> Option<StartupStep> {
        match self {
            StartupStep::Glitch => Some(StartupStep::Glitch),
            StartupStep::Sweep(i) => if i < 49 {
                Some(StartupStep::Sweep((i + 1) as usize))
            } else {
                Some(StartupStep::Swept)
            },
            StartupStep::Swept => Some(StartupStep::Flash),
            StartupStep::Flash => Some(StartupStep::Fade(255)),
            StartupStep::Fade(level) => if level >= 8 {
                Some(StartupStep::Fade((level - 8) as u8))
            } else {
                Some(StartupStep::Dark)
            },
            StartupStep::Dark => None,
        }
    }

    /// How many frames there are from a step on, once the glitches are over.
    pub open spec fn frames_left(self) -> int {
        match self {
            StartupStep::Glitch => 85,
            StartupStep::Sweep(i) => 85 - i,
            StartupStep::Swept => 35,
            StartupStep::Flash => 34,
            StartupStep::Fade(level) => 2 + level / 8,
            StartupStep::Dark => 1,
        }
    }
}

/// One turn of the startup animation, `elapsed_ms` after its start: paints the frame
/// that is due on top of the one before it, and tells for how many milliseconds it
/// stays and which step is next, if there is one.
pub fn startup_animation(
    buffer: &mut Vec<Shade>,
    step: StartupStep,
    elapsed_ms: u64,
    random: &[u8],
) -> (r: (u64, Option<StartupStep>))
    requires
        old(buffer)@.len() == 50,
        step.wf(),
        step.due(elapsed_ms) == StartupStep::Glitch ==> random@.len() >= 143,
    ensures
        final(buffer)@ == step.due(elapsed_ms).painted(old(buffer)@, random@),
        final(buffer)@.len() == 50,
        r == (step.due(elapsed_ms).millis(), step.due(elapsed_ms).next()),
        r.1 matches Some(next) ==> next.wf(),
{
    match step {
        StartupStep::Glitch => {
            if elapsed_ms < GLITCH_MS {
                proof {
                    lemma_glitched_len(random@);
                }
                *buffer = glitch_frame(random);
                (100, Some(StartupStep::Glitch))
            } else {
                sweep_frame(buffer, 0);
                (15, Some(StartupStep::Sweep(1)))
            }
        },
        StartupStep::Sweep(i) => {
            sweep_frame(buffer, i);
            if i < 49 {
                (15, Some(StartupStep::Sweep(i + 1)))
            } else {
                (15, Some(StartupStep::Swept))
            }
        },
        StartupStep::Swept => {
            buffer.set(49, Shade::Black);
            (250, Some(StartupStep::Flash))
        },
        StartupStep::Flash => {
            *buffer = fill(Shade::Full(Tint { color: Color::Pink, level: None }));
            (100, Some(StartupStep::Fade(255)))
        },
        StartupStep::Fade(level) => {
            *buffer = fill(Shade::Scaled(Tint { color: Color::Pink, level: None }, level));
            if level >= 8 {
                (FRAME_MS, Some(StartupStep::Fade(level - 8)))
            } else {
                (FRAME_MS, Some(StartupStep::Dark))
            }
        },
        StartupStep::Dark => {
            *buffer = fill(Shade::Black);
            (0, None)
        },
    }
}

proof fn lemma_glitches_len(buffer: Seq<Shade>, random: Seq<u8>, at: int, n: nat)
    requires
        buffer.len() == 50,
    ensures
        glitches_painted(buffer, random, at, n).len() == 50,
    decreases n,
{
    if n > 0 {
        lemma_glitches_len(
            glitch_painted(buffer, random, at),
            random,
            at + glitch_size(random, at),
            (n - 1) as nat,
        );
    }
}

proof fn lemma_glitched_len(random: Seq<u8>)
    ensures
        glitched(random).len() == 50,
{
    lemma_glitches_len(
        filled(Shade::Full(plain(palette(random[1] as int)))),
        random,
        3,
        (2 + random[2] % 4) as nat,
    );
    lemma_glitches_len(filled(Shade::Black), random, 2, (2 + random[1] % 4) as nat);
}

/// The glitches last for a second and a half; after that every turn of the startup
/// animation is one frame nearer to its end, and the last frame is dark.
pub proof fn law_startup_ends(
    step: StartupStep,
    elapsed_ms: u64,
    before: Seq<Shade>,
    random: Seq<u8>,
)
    requires
        step.wf(),
    ensures
        elapsed_ms < 1500 && step == StartupStep::Glitch ==> step.due(elapsed_ms).next()
            == Some(StartupStep::Glitch),
        elapsed_ms >= 1500 ==> match step.due(elapsed_ms).next() {
            Some(next) => 0 < next.frames_left() == step.frames_left() - 1,
            None => step.frames_left() == 1 && step.due(elapsed_ms).painted(before, random)
                == filled(Shade::Black),
        },
{
}

/// The frame after the color sweep has come to an LED.
pub open spec fn sweep_until(before: Seq<Shade>, i: nat) -> Seq<Shade>
    decreases i,
{
    if i == 0 {
        sweep_painted(before, 0)
    } else {
        sweep_painted(sweep_until(before, (i - 1) as nat), i as int)
    }
}

/// The sweep leaves the LEDs ahead of it as they were and those behind it dark; at
/// its end all are.
pub proof fn law_sweep_clears(before: Seq<Shade>, random: Seq<u8>, i: nat)
    requires
        before.len() == 50,
        i < 50,
    ensures
        sweep_until(before, i) == Seq::new(
            50,
            |k: int|
                if k < i {
                    Shade::Black
                } else if k == i {
                    Shade::Full(plain(palette(k)))
                } else {
                    before[k]
                },
        ),
        i == 49 ==> StartupStep::Swept.painted(sweep_until(before, i), random) == filled(
            Shade::Black,
        ),
    decreases i,
{
    if i > 0 {
        law_sweep_clears(before, random, (i - 1) as nat);
    }
}

/// A mode is shown as it says from its first frame on: a static color at the level
/// that its brightness stands for, a fade and a flash from full brightness, and a
/// flash with the clock at one level on the beat and at another off it.
pub proof fn law_modes_are_shown(
    color: Color,
    other: Color,
    level: Brightness,
    low: Brightness,
    times: usize,
    delay: u16,
    levels: BrightnessLevels,
    metronome: bool,
)
    requires
        times > 0,
    ensures
        ({
            let tint = Tint { color, level: None };
            let at = levels.of(level);
            let steady = LedMode::Static(color, level).effect(levels);
            let beat = LedMode::ClockFlash(color, level, low).effect(levels);
            let fade = LedMode::FadeOut(color).effect(levels);
            let flash = LedMode::Flash(color, Some(times)).effect(levels);
            let endless = LedMode::Flash(color, None).effect(levels);
            let then = LedMode::FlashThenStatic(color, times, other, level).effect(levels);
            let hold = LedMode::StaticFade(color, delay).effect(levels);
            &&& at < 255 ==> steady.shown(metronome) == Shade::Scaled(tint, at)
            &&& at == 255 ==> steady.shown(metronome) == Shade::Full(tint)
            &&& beat.shown(true) == Shade::Scaled(tint, at)
            &&& beat.shown(false) == Shade::Scaled(tint, levels.of(low))
            &&& fade.shown(metronome) == Shade::Scaled(tint, 255)
            &&& flash.shown(metronome) == Shade::Scaled(tint, 255)
            &&& endless.shown(metronome) == Shade::Scaled(tint, 255)
            &&& then.shown(metronome) == Shade::Scaled(tint, 255)
            &&& hold.shown(metronome) == Shade::Full(tint)
            &&& steady.next() == steady && beat.next() == beat
            &&& flash == (LedEffect::Flash { color: tint, times: Some(times), step: 0 })
            &&& then == (LedEffect::FlashThenStatic {
                color: tint,
                times,
                step: 0,
                then_color: Tint { color: other, level: None },
                then_brightness: at,
            })
        }),
        levels.of(Brightness::Off) == levels.off,
        levels.of(Brightness::Low) == levels.low,
        levels.of(Brightness::Mid) == levels.mid,
        levels.of(Brightness::High) == levels.high,
        forall|n: u8| #[trigger] levels.of(Brightness::Custom(n)) == n,
{
}

/// A flash loses an eighth of its brightness with every frame of its first eight,
/// and is dark for its next eight; after those sixteen it is as at their start.
pub proof fn law_flash_fades(color: Tint, step: int)
    requires
        0 <= step,
    ensures
        step < 8 ==> flash_shade(color, step) == Shade::Scaled(color, (255 - 32 * step) as u8),
        8 <= step < 16 ==> flash_shade(color, step) == Shade::Black,
        flash_shade(color, step + 16) == flash_shade(color, step),
{
}

/// A fade out loses an eighth of its brightness with every frame, and shows none
/// of it at the ninth.
pub proof fn law_fade_out_frames(from: Tint, n: nat, metronome: bool)
    requires
        n <= 8,
    ensures
        after_frames(LedEffect::FadeOut { from, step: 0 }, n).shown(metronome) == Shade::Scaled(
            from,
            if n < 8 {
                (255 - 32 * n) as u8
            } else {
                0
            },
        ),
{
    reveal_with_fuel(after_frames, 10);
}

/// A color that is to fade after a delay stays at full brightness until as many
/// frames of 16 milliseconds have gone by, and then begins to fade.
pub proof fn law_static_fade_waits(color: Tint, delay_ms: u16, n: nat)
    ensures
        ({
            let start = LedEffect::StaticFade { color, delay_ms, elapsed_frames: 0 };
            &&& (n == 0 || 16 * (n - 1) < delay_ms) ==> after_frames(start, n) == (
            LedEffect::StaticFade { color, delay_ms, elapsed_frames: n as u64 })
            &&& n > 0 && 16 * (n - 1) >= delay_ms && (n == 1 || 16 * (n - 2) < delay_ms)
                ==> after_frames(start, n) == (LedEffect::FadeOut { from: color, step: 0 })
        }),
{
    lemma_static_fade_waits(color, delay_ms, 0, n);
}

proof fn lemma_static_fade_waits(color: Tint, delay_ms: u16, elapsed_frames: u64, n: nat)
    requires
        elapsed_frames <= 65536,
        elapsed_frames == 0 || 16 * (elapsed_frames - 1) < delay_ms,
    ensures
        ({
            let start = LedEffect::StaticFade { color, delay_ms, elapsed_frames };
            let at = elapsed_frames + n;
            &&& (n == 0 || 16 * (at - 1) < delay_ms) ==> after_frames(start, n) == (
            LedEffect::StaticFade { color, delay_ms, elapsed_frames: at as u64 })
            &&& n > 0 && 16 * (at - 1) >= delay_ms && (n == 1 || 16 * (at - 2) < delay_ms)
                ==> after_frames(start, n) == (LedEffect::FadeOut { from: color, step: 0 })
        }),
    decreases n,
{
    reveal_with_fuel(after_frames, 2);
    if n > 0 && 16 * elapsed_frames < delay_ms {
        lemma_static_fade_waits(
            color,
            delay_ms,
            (elapsed_frames + 1) as u64,
            (n - 1) as nat,
        );
    }
}

/// A signal with a mode starts its effect, one that resets lets a steady light fade
/// from its own level and puts any flash out, and without a signal the effect goes
/// on.
pub proof fn law_signals_start_and_release(
    effect: LedEffect,
    mode: LedMode,
    color: Tint,
    brightness: u8,
    delay_ms: u16,
    elapsed_frames: u64,
    step: u8,
    times: Option<usize>,
    levels: BrightnessLevels,
)
    ensures
        signalled(effect, Some(LedMsg::Mode(mode)), levels) == mode.effect(levels),
        signalled(effect, None, levels) == effect,
        signalled(LedEffect::Static { color, brightness }, Some(LedMsg::Reset), levels) == (
        LedEffect::FadeOut {
            from: Tint { color: color.color, level: Some(brightness) },
            step: 0,
        }),
        signalled(
            LedEffect::StaticFade { color, delay_ms, elapsed_frames },
            Some(LedMsg::Reset),
            levels,
        ) == (LedEffect::FadeOut { from: color, step: 0 }),
        signalled(LedEffect::Flash { color, times, step }, Some(LedMsg::Reset), levels)
            == LedEffect::Off,
        signalled(LedEffect::FadeOut { from: color, step }, Some(LedMsg::Reset), levels)
            == LedEffect::Off,
        signalled(LedEffect::Off, Some(LedMsg::Reset), levels) == LedEffect::Off,
{
}

/// A message for the overlay sets or clears its own LED and no other; of several
/// for one LED the last one counts.
pub proof fn law_overlays_reach_their_led(
    overlay: Seq<LedEffect>,
    messages: Seq<(usize, Option<LedMode>)>,
    no: usize,
    mode: LedMode,
    i: int,
    levels: BrightnessLevels,
)
    requires
        overlay.len() == 50,
        no < 50,
        0 <= i < 50,
        forall|k: int| 0 <= k < messages.len() ==> (#[trigger] messages[k]).0 < 50,
    ensures
        ({
            let before = overlaid_all(overlay, messages, levels);
            let set = overlaid_all(overlay, messages.push((no, Some(mode))), levels);
            let cleared = overlaid_all(overlay, messages.push((no, None)), levels);
            &&& set[no as int] == mode.effect(levels)
            &&& cleared[no as int] == LedEffect::Off
            &&& i != no ==> set[i] == before[i] && cleared[i] == before[i]
        }),
        overlaid_all(overlay, Seq::empty(), levels) == overlay,
{
    let last = messages.push((no, Some(mode)));
    let other = messages.push((no, None));
    lemma_overlaid_len(overlay, messages, levels);
    assert(last.drop_last() =~= messages);
    assert(other.drop_last() =~= messages);
}

proof fn lemma_overlaid_len(
    overlay: Seq<LedEffect>,
    messages: Seq<(usize, Option<LedMode>)>,
    levels: BrightnessLevels,
)
    requires
        forall|k: int|
            0 <= k < messages.len() ==> (#[trigger] messages[k]).0 < overlay.len(),
    ensures
        overlaid_all(overlay, messages, levels).len() == overlay.len(),
    decreases messages.len(),
{
    if messages.len() > 0 {
        let before = messages.drop_last();
        assert forall|k: int| 0 <= k < before.len() implies (#[trigger] before[k]).0
            < overlay.len() by {
            assert(before[k] == messages[k]);
        }
        assert(messages[messages.len() - 1].0 < overlay.len());
        lemma_overlaid_len(overlay, before, levels);
    }
}

/// Every LED shows its overlay, or its base effect where it has none.
pub proof fn law_overlay_hides_base(leds: LedProcessor, metronome: bool, i: int)
    requires
        0 <= i < 50,
    ensures
        leds.picture(metronome).len() == 50,
        leds.overlay_layer@[i] == LedEffect::Off ==> leds.picture(metronome)[i]
            == leds.base_layer@[i].shown(metronome),
        leds.overlay_layer@[i] != LedEffect::Off ==> leds.picture(metronome)[i]
            == leds.overlay_layer@[i].shown(metronome),
{
}

/// The strip starts dark but for the two modifier buttons: one flashes in pink with
/// the clock, the other is lit in yellow.
pub proof fn law_modifiers_are_lit(levels: BrightnessLevels, i: int, metronome: bool)
    requires
        0 <= i < 50,
        levels.mid < 255,
    ensures
        ({
            let base = LedProcessor::initial_base(levels);
            &&& i == 16 ==> base[i].shown(metronome) == Shade::Scaled(
                Tint { color: Color::Pink, level: None },
                if metronome {
                    levels.high
                } else {
                    levels.mid
                },
            )
            &&& i == 17 ==> base[i].shown(metronome) == Shade::Scaled(
                Tint { color: Color::Yellow, level: None },
                levels.mid,
            )
            &&& i != 16 && i != 17 ==> base[i].shown(metronome) == Shade::Black
        }),
{
}

/// An LED is looked up by its channel in the map of its own position.
pub proof fn law_map_is_read_in_place(map: LedMap, channel: int)
    requires
        0 <= channel < 16,
    ensures
        map.number(channel, Led::Top) == map.top[channel],
        map.number(channel, Led::Bottom) == map.bottom[channel],
        map.number(channel, Led::Button) == map.button[channel],
{
}

/// The strip gets every color of the buffer in its place, each part dimmed to the
/// level's share and then gamma corrected, and of equal parts equal ones.
pub proof fn law_strip_is_dimmed(buffer: Seq<Rgb8>, level: u8, i: int, red: u8, green: u8, blue: u8)
    requires
        0 <= i < buffer.len(),
        256 * red <= buffer[i].r * (level + 1) < 256 * red + 256,
        256 * green <= buffer[i].g * (level + 1) < 256 * green + 256,
        256 * blue <= buffer[i].b * (level + 1) < 256 * blue + 256,
    ensures
        flushed(buffer, level).len() == buffer.len(),
        flushed(buffer, level)[i].r == gamma_level(red),
        flushed(buffer, level)[i].g == gamma_level(green),
        flushed(buffer, level)[i].b == gamma_level(blue),
{
}

/// A glitch covers up to 25 LEDs from one of the strip on and none beyond its end,
/// in one color of the three or in white of at least half brightness; the others
/// stay as they were.
pub proof fn law_glitch_covers_a_run(
    buffer: Seq<Shade>,
    random: Seq<u8>,
    at: int,
    start: int,
    len: int,
    i: int,
    j: int,
    k: int,
)
    requires
        0 <= i < 50,
        0 <= start < 50,
        1 <= len <= 25,
        random[at + 1] == 50 * j + start,
        random[at + 2] == 25 * k + len - 1,
    ensures
        ({
            let painted = glitch_painted(buffer, random, at);
            let inside = start <= i < start + len;
            let value = (128 + random[at + 3 + (i - start)] % 128) as u8;
            &&& !inside ==> painted[i] == buffer[i]
            &&& inside && random[at] < 166 ==> painted[i] == Shade::Full(
                Tint { color: palette(random[at + 3] as int), level: None },
            )
            &&& inside && random[at] >= 166 ==> painted[i] == Shade::Full(
                Tint { color: Color::Custom(value, value, value), level: None },
            ) && value >= 128
        }),
        palette(3 * k) == Color::Yellow,
        palette(3 * k + 1) == Color::Cyan,
        palette(3 * k + 2) == Color::Pink,
{
}

/// Each glitch of a frame is painted over those before it, and is read from the
/// bytes after them: four for a colored one, three and one for each of its LEDs for
/// a white one. A frame has two to five of them, on a dark strip, or one time in
/// ten on one of a single color.
pub proof fn law_glitches_are_painted_in_turn(
    buffer: Seq<Shade>,
    random: Seq<u8>,
    at: int,
    n: nat,
    i: int,
)
    requires
        buffer.len() == 50,
        0 <= i < 50,
    ensures
        ({
            let start = random[at + 1] as int % 50;
            let len = 1 + random[at + 2] as int % 25;
            let lit = if start + len < 50 {
                len
            } else {
                50 - start
            };
            let size = if random[at] < 166 {
                4
            } else {
                3 + lit
            };
            glitches_painted(buffer, random, at, n + 1) == glitches_painted(
                glitch_painted(buffer, random, at),
                random,
                at + size,
                n,
            )
        }),
        glitches_painted(buffer, random, at, 0) == buffer,
        random[0] >= 26 ==> glitched(random) == glitches_painted(
            Seq::new(50, |k: int| Shade::Black),
            random,
            2,
            (2 + random[1] % 4) as nat,
        ),
        random[0] < 26 ==> glitched(random) == glitches_painted(
            Seq::new(
                50,
                |k: int| Shade::Full(Tint { color: palette(random[1] as int), level: None }),
            ),
            random,
            3,
            (2 + random[2] % 4) as nat,
        ),
{
}

/// The startup goes from the glitches over a sweep of every LED in turn, 15
/// milliseconds each, to a pink strip that fades by eight of 255 a frame.
pub proof fn law_startup_frames(
    before: Seq<Shade>,
    random: Seq<u8>,
    elapsed_ms: u64,
    i: usize,
    level: u8,
    k: int,
)
    requires
        before.len() == 50,
        0 <= k < 50,
        i < 50,
    ensures
        ({
            let pink = Tint { color: Color::Pink, level: None };
            let sweep = StartupStep::Sweep(i).due(elapsed_ms);
            let fade = StartupStep::Fade(level).due(elapsed_ms);
            let flash = StartupStep::Flash.due(elapsed_ms);
            &&& elapsed_ms < 1500 ==> StartupStep::Glitch.due(elapsed_ms) == StartupStep::Glitch
            &&& elapsed_ms >= 1500 ==> StartupStep::Glitch.due(elapsed_ms) == StartupStep::Sweep(0)
            &&& StartupStep::Glitch.painted(before, random) == glitched(random)
            &&& StartupStep::Glitch.millis() == 100
            &&& sweep.painted(before, random)[i as int] == Shade::Full(
                Tint { color: palette(i as int), level: None },
            )
            &&& k == i - 1 ==> sweep.painted(before, random)[k] == Shade::Black
            &&& k != i && k != i - 1 ==> sweep.painted(before, random)[k] == before[k]
            &&& sweep.millis() == 15
            &&& i < 49 ==> sweep.next() == Some(StartupStep::Sweep((i + 1) as usize))
            &&& i == 49 ==> sweep.next() == Some(StartupStep::Swept)
            &&& StartupStep::Swept.painted(before, random)[k] == (if k == 49 {
                Shade::Black
            } else {
                before[k]
            })
            &&& StartupStep::Swept.millis() == 250 && StartupStep::Swept.next() == Some(
                StartupStep::Flash,
            )
            &&& flash.painted(before, random)[k] == Shade::Full(pink)
            &&& flash.millis() == 100 && flash.next() == Some(StartupStep::Fade(255))
            &&& fade.painted(before, random)[k] == Shade::Scaled(pink, level)
            &&& fade.millis() == 16
            &&& level >= 8 ==> fade.next() == Some(StartupStep::Fade((level - 8) as u8))
            &&& level < 8 ==> fade.next() == Some(StartupStep::Dark)
            &&& StartupStep::Dark.painted(before, random)[k] == Shade::Black
        }),
{
}

} // verus!
