//! Small parts that several apps are made of.
use vstd::prelude::*;

use crate::app::{Action, Leds};
use crate::latch::LatchLayer;
use crate::tables::Tables;
use crate::tasks::leds::Led;
use crate::types::{Brightness, Color, Curve};
use crate::utils::{attenuate, attenuate_bipolar, attenuated, attenuated_bipolar};

verus! {

/// The layer that a fader edits: the second one with shift, the third one with
/// the button held, the main one with both or neither.
pub open spec fn layer_of(shift: bool, button: bool) -> LatchLayer {
    if shift && !button {
        LatchLayer::Alt
    } else if !shift && button {
        LatchLayer::Third
    } else {
        LatchLayer::Main
    }
}

/// The layer that a fader edits.
pub fn layer_for(shift: bool, button: bool) -> (r: LatchLayer)
    ensures
        r == layer_of(shift, button),
{
    if shift && !button {
        LatchLayer::Alt
    } else if !shift && button {
        LatchLayer::Third
    } else {
        LatchLayer::Main
    }
}

/// The clock divisions from slow to fast, in ticks.
pub open spec fn division(index: int) -> u16 {
    seq![384u16, 192, 96, 48, 24, 16, 12, 8, 6, 4, 3, 2][index]
}

/// The clock division of a fader: each of twelve parts of its travel has its own.
pub open spec fn division_of(fader: int) -> u16 {
    division(
        if fader / 345 < 11 {
            fader / 345
        } else {
            11
        },
    )
}

/// The clock division of a place in the table.
pub fn find_division(index: usize) -> (r: u16)
    requires
        index < 12,
    ensures
        r == division(index as int),
        2 <= r <= 384,
{
    match index {
        0 => 384,
        1 => 192,
        2 => 96,
        3 => 48,
        4 => 24,
        5 => 16,
        6 => 12,
        7 => 8,
        8 => 6,
        9 => 4,
        10 => 3,
        _ => 2,
    }
}

/// The clock division of a fader.
pub fn division_for(fader: u16) -> (r: u16)
    ensures
        r == division_of(fader as int),
        2 <= r <= 384,
{
    let index: usize = if fader / 345 < 11 {
        (fader / 345) as usize
    } else {
        11
    };
    find_division(index)
}

/// The tick within a division that is a share of it away, at least one and
/// before the next one.
pub open spec fn part_of_division(div: int, percent: int) -> int {
    let part = div * percent / 100;
    if part < 1 {
        1
    } else if part > div - 1 {
        div - 1
    } else {
        part
    }
}

/// The tick within a division that is a share of it away.
pub fn part_division(div: u32, percent: u32) -> (r: u32)
    requires
        2 <= div,
        div * percent <= u32::MAX,
    ensures
        r == part_of_division(div as int, percent as int),
        1 <= r < div,
{
    let part: u32 = div * percent / 100;
    if part < 1 {
        1
    } else if part > div - 1 {
        div - 1
    } else {
        part
    }
}

/// The tick in the middle of a division.
pub fn half_division(div: u32) -> (r: u32)
    requires
        2 <= div <= 10_000,
    ensures
        r == part_of_division(div as int, 50),
        1 <= r < div,
{
    part_division(div, 50)
}

/// Four rolls of the die: a value, and the parts of a color.
#[derive(Clone, Copy, Debug, PartialEq, Eq, Structural)]
pub struct Rolls {
    pub value: u16,
    pub red: u16,
    pub green: u16,
    pub blue: u16,
}

impl Rolls {
    pub open spec fn wf(self) -> bool {
        self.value <= 4095 && self.red <= 4095 && self.green <= 4095 && self.blue <= 4095
    }

    /// The color of the rolls, black where the app is muted.
    pub open spec fn color(self, muted: bool) -> Color {
        if muted {
            Color::Custom(0, 0, 0)
        } else {
            Color::Custom(
                (self.red / 16) as u8,
                (self.green / 16) as u8,
                (self.blue / 16) as u8,
            )
        }
    }

    /// The color of the rolls, black where the app is muted.
    pub fn get_color(&self, muted: bool) -> (r: Color)
        requires
            self.wf(),
        ensures
            r == self.color(muted),
    {
        if muted {
            Color::Custom(0, 0, 0)
        } else {
            Color::Custom(
                (self.red / 16) as u8,
                (self.green / 16) as u8,
                (self.blue / 16) as u8,
            )
        }
    }
}

/// The LED level of a value: a sixteenth of it, of which the low byte stays.
pub open spec fn level_byte(value: int) -> u8 {
    (value / 16 % 256) as u8
}

/// The LED level of a value.
pub fn byte_level(value: u16) -> (r: u8)
    ensures
        r == level_byte(value as int),
{
    (value / 16 % 256) as u8
}

/// An LED of a channel that is lit or released.
pub open spec fn lit_or_not(
    channel: usize,
    led: Led,
    lit: bool,
    color: Color,
    brightness: Brightness,
) -> Action {
    if lit {
        crate::app::led_set(channel, led, color, brightness)
    } else {
        crate::app::led_unset(channel, led)
    }
}

/// Lights an LED of a channel, or releases it.
pub fn light_or_not(
    channel: usize,
    led: Led,
    lit: bool,
    color: Color,
    brightness: Brightness,
) -> (r: Action)
    requires
        channel < 16,
    ensures
        r == lit_or_not(channel, led, lit, color, brightness),
{
    let leds = Leds::<1>::new(channel);
    if lit {
        leds.set(0, led, color, brightness)
    } else {
        leds.unset(0, led)
    }
}

/// A value brought onto a curve. In a bipolar range both halves are curved, away
/// from the middle, with positions of 16 bits.
pub open spec fn curved(tables: Tables, curve: Curve, bipolar: bool, value: int) -> int {
    if !bipolar {
        tables.curve(curve, value) as int
    } else if value > 2047 {
        tables.curve(curve, (value - 2047) * 2 % 65536) as int / 2 + 2047
    } else {
        2047 - tables.curve(curve, (2047 - value) * 2) as int / 2
    }
}

/// A value after the attenuation. Of a result beyond 16 bits the low 16 stay.
pub open spec fn leveled(bipolar: bool, value: int, att: int) -> int {
    if bipolar {
        attenuated_bipolar(value, att)
    } else {
        attenuated(value, att) % 65536
    }
}

/// Brings a value onto a curve.
pub fn curve_value(tables: &Tables, curve: Curve, bipolar: bool, value: u16) -> (r: u16)
    requires
        tables.wf(),
    ensures
        r == curved(*tables, curve, bipolar, value as int),
        r <= 4095,
{
    if !bipolar {
        tables.curve_at(curve, value)
    } else if value > 2047 {
        let place: u16 = ((value as u32 - 2047) * 2 % 65536) as u16;
        tables.curve_at(curve, place) / 2 + 2047
    } else {
        2047 - tables.curve_at(curve, (2047 - value) * 2) / 2
    }
}

/// Attenuates a value.
pub fn level_value(bipolar: bool, value: u16, att: u16) -> (r: u16)
    ensures
        r == leveled(bipolar, value as int, att as int),
        value <= 4095 && att <= 4095 ==> r <= 4095,
{
    if bipolar {
        attenuate_bipolar(value, att)
    } else {
        attenuate(value, att)
    }
}

/// The faders never edit two layers at once: every state of the buttons selects
/// one, and holding both or neither selects the main one.
pub proof fn law_layers_are_exclusive(shift: bool, button: bool)
    ensures
        (layer_of(shift, button) == LatchLayer::Main) == (shift == button),
{
}

/// The divisions of a fader run from 384 ticks at the bottom to 2 at the top in
/// twelve equal parts of its travel. Up to 24 ticks each is half the one before;
/// from there on 16 and 12 take turns to be halved, so each is half the one two
/// parts before.
pub proof fn law_divisions_of_faders(fader: int)
    requires
        0 <= fader <= 4139,
    ensures
        fader < 345 ==> division_of(fader) == 384,
        fader + 345 < 5 * 345 ==> division_of(fader) == 2 * division_of(fader + 345),
        5 * 345 <= fader < 6 * 345 ==> division_of(fader) == 16,
        6 * 345 <= fader < 7 * 345 ==> division_of(fader) == 12,
        5 * 345 <= fader && fader + 690 <= 4139 ==> division_of(fader) == 2 * division_of(
            fader + 690,
        ),
        fader >= 11 * 345 ==> division_of(fader) == 2,
{
}

/// The tick that is a share of a division away is that share, rounded down, but
/// never the first tick of the division nor beyond its last.
pub proof fn law_part_of_division(div: int, percent: int)
    requires
        2 <= div,
        0 <= percent,
    ensures
        1 <= part_of_division(div, percent) < div,
        100 <= div * percent < 100 * div ==> 100 * part_of_division(div, percent) <= div * percent
            < 100 * part_of_division(div, percent) + 100,
        div * percent < 200 ==> part_of_division(div, percent) == 1,
        percent >= 100 ==> part_of_division(div, percent) == div - 1,
{
    assert(0 <= div * percent) by (nonlinear_arith)
        requires
            2 <= div,
            0 <= percent,
    ;
    if percent >= 100 {
        assert(div * percent >= div * 100) by (nonlinear_arith)
            requires
                div >= 2,
                percent >= 100,
        ;
    }
}

/// A rolled color has an eighth-bit part per roll, sixteen steps of the roll to
/// one of the color; a muted app shows none.
pub proof fn law_rolled_color(rolls: Rolls)
    requires
        rolls.wf(),
    ensures
        rolls.color(true) == Color::Custom(0, 0, 0),
        rolls.color(false) matches Color::Custom(r, g, b) && 16 * r <= rolls.red < 16 * r + 16
            && 16 * g <= rolls.green < 16 * g + 16 && 16 * b <= rolls.blue < 16 * b + 16,
{
}

/// The LED level of a 12-bit value is one step per sixteen.
pub proof fn law_level_byte_steps(value: int)
    requires
        0 <= value <= 4095,
    ensures
        16 * level_byte(value) <= value < 16 * level_byte(value) + 16,
{
}

/// An LED that is lit shows its color, steadily, at its brightness; one that is
/// not is released.
pub proof fn law_lit_or_not(channel: usize, led: Led, color: Color, brightness: Brightness)
    ensures
        lit_or_not(channel, led, true, color, brightness) == (Action::Led {
            channel,
            led,
            msg: crate::tasks::leds::LedMsg::Mode(
                crate::tasks::leds::LedMode::Static(color, brightness),
            ),
        }),
        lit_or_not(channel, led, false, color, brightness) == (Action::Led {
            channel,
            led,
            msg: crate::tasks::leds::LedMsg::Reset,
        }),
{
}

/// In a range from 0 V on a curve gives its table's value. In a bipolar range it
/// bends both halves away from the middle alike: values as far above the middle
/// as below it end up as far apart from it, by half the table's value at twice
/// the distance.
pub proof fn law_curves_bend_both_halves(tables: Tables, curve: Curve, distance: int)
    requires
        tables.wf(),
        0 < distance <= 2047,
    ensures
        curved(tables, curve, false, distance) == tables.of_curve(curve)[distance],
        curved(tables, curve, true, 2047 + distance) - 2047 == 2047 - curved(
            tables,
            curve,
            true,
            2047 - distance,
        ),
        ({
            let bent = curved(tables, curve, true, 2047 + distance) - 2047;
            2 * bent <= tables.of_curve(curve)[2 * distance] < 2 * bent + 2
        }),
        2 * (2047 - curved(tables, curve, true, 2047)) <= tables.of_curve(curve)[0] < 2 * (2047
            - curved(tables, curve, true, 2047)) + 2,
{
}

/// The level of an output scales it from 0 V on, and in a bipolar range from the
/// middle on; full level keeps it, and no level leaves the rest position.
pub proof fn law_levels_scale_from_rest(value: int, att: int)
    requires
        0 <= value <= 4095,
        0 <= att <= 4095,
    ensures
        leveled(false, value, 4095) == value,
        leveled(true, value, 4095) == value,
        leveled(false, value, 0) == 0,
        leveled(true, value, 0) == 2048,
        4095 * leveled(false, value, att) <= value * att < 4095 * leveled(false, value, att) + 4095,
        value >= 2048 ==> 4095 * (leveled(true, value, att) - 2048) <= (value - 2048) * att < 4095
            * (leveled(true, value, att) - 2048) + 4095,
        value <= 2048 ==> 4095 * (2048 - leveled(true, value, att)) <= (2048 - value) * att < 4095
            * (2048 - leveled(true, value, att)) + 4095,
{
    crate::utils::law_attenuate_ends(value, att);
    crate::utils::law_attenuate_bipolar_ends(value, att);
    crate::utils::law_attenuate_is_proportional(value, att, 4095);
    if value >= 2048 {
        crate::utils::law_attenuate_bipolar_is_proportional(value - 2048, att);
    } else {
        crate::utils::lemma_attenuated_bound(2048 - value, att);
    }
}

/// Shift selects the second layer and the held button the third one.
pub proof fn law_buttons_select_layers()
    ensures
        layer_of(false, false) == LatchLayer::Main,
        layer_of(true, false) == LatchLayer::Alt,
        layer_of(false, true) == LatchLayer::Third,
        layer_of(true, true) == LatchLayer::Main,
{
}

} // verus!
