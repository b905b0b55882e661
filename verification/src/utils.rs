//! Conversions between value ranges, and the small signal operations that the
//! apps share.
use vstd::prelude::*;

use midly::num::u7;

verus! {

/// `midly::num::u7::new` keeps the low seven bits of its argument, and `as_int`
/// gives them back.
#[verifier::external_body]
pub(crate) fn seven_bits(raw: u8) -> (r: u8)
    ensures
        r == raw % 128,
{
    u7::new(raw).as_int()
}

/// A value of 0 to 4095 brought to 0 to 127, rounded down.
pub open spec fn narrowed_12_7(value: int) -> int {
    value * 127 / 4095
}

/// A value of 0 to 127 brought to 0 to 4095, rounded down.
pub open spec fn widened_7_12(value: int) -> int {
    value * 4095 / 127
}

/// A value of 0 to 4095 brought to 0 to 16383, rounded down.
pub open spec fn widened_12_14(value: int) -> int {
    value * 16383 / 4095
}

/// A value of 0 to 16383 brought to 0 to 4095, rounded down.
pub open spec fn narrowed_14_12(value: int) -> int {
    value * 4095 / 16383
}

/// Scale from 4095 to 127, seven bits.
pub fn scale_bits_12_7(value: u16) -> (r: u8)
    ensures
        r == narrowed_12_7(value as int) % 128,
        r == (value * 127 / 4095) % 128,
{
    let scaled: u32 = (value as u32 * 127) / 4095;
    seven_bits((scaled % 256) as u8)
}

/// Scale from 127, seven bits, to 4095.
pub fn scale_bits_7_12(value: u8) -> (r: u16)
    requires
        value <= 127,
    ensures
        r == widened_7_12(value as int),
        r == value * 4095 / 127,
{
    ((value as u32 * 4095) / 127) as u16
}

/// Scale from 4095 (12-bit) to 16383 (14-bit).
pub fn scale_bits_12_14(value: u16) -> (r: u16)
    ensures
        r == widened_12_14(value as int) % 65536,
        r == (value * 16383 / 4095) % 65536,
{
    (((value as u32 * 16383) / 4095) % 65536) as u16
}

/// Scale from 16383 (14-bit) to 4095 (12-bit).
pub fn scale_bits_14_12(value: u16) -> (r: u16)
    ensures
        r == narrowed_14_12(value as int),
        r == value * 4095 / 16383,
{
    ((value as u32 * 4095) / 16383) as u16
}

/// Widen a seven bit value.
pub fn bits_7_16(value: u8) -> (r: u16)
    requires
        value <= 127,
    ensures
        r == value,
{
    value as u16
}

/// The smaller of two integers.
pub open spec fn least(a: int, b: int) -> int {
    if a <= b {
        a
    } else {
        b
    }
}

/// `v` brought into `lo..=hi`.
pub open spec fn clamp_to(v: int, lo: int, hi: int) -> int {
    if v < lo {
        lo
    } else if v > hi {
        hi
    } else {
        v
    }
}

/// The two LED levels of an unsigned 12-bit value: distance above the middle,
/// distance below it, an eighth each.
pub open spec fn unsigned_halves(input: int) -> (int, int) {
    if input <= 2047 {
        (0, (2047 - input) / 8)
    } else {
        (least((clamp_to(input, 0, 4095) - 2047) / 8, 255), 0)
    }
}

/// Split a value of 0 to 4095 into two LED levels of 0 to 255.
pub fn split_unsigned_value(input: u16) -> (r: [u8; 2])
    ensures
        r[0] == unsigned_halves(input as int).0,
        r[1] == unsigned_halves(input as int).1,
{
    let clamped: u16 = if input > 4095 {
        4095
    } else {
        input
    };
    if clamped <= 2047 {
        let neg: u8 = ((2047 - clamped) / 8) as u8;
        [0, neg]
    } else {
        let eighth: u16 = (clamped - 2047) / 8;
        let pos: u8 = if eighth > 255 {
            255
        } else {
            eighth as u8
        };
        [pos, 0]
    }
}

/// The LED level of a distance of up to 2047 from the middle, rounded to the nearest.
pub open spec fn distance_level(distance: int) -> int {
    (least(distance, 2047) * 255 + 1023) / 2047
}

/// The two LED levels of a signed value: the distance above zero, and below it.
pub open spec fn signed_halves(input: int) -> (int, int) {
    if input >= 0 {
        (distance_level(input), 0)
    } else {
        (0, distance_level(-input))
    }
}

/// Split a value of -2047 to 2047 into two LED levels of 0 to 255.
pub fn split_signed_value(input: i32) -> (r: [u8; 2])
    ensures
        r[0] == signed_halves(input as int).0,
        r[1] == signed_halves(input as int).1,
        r[0] == (if input >= 0 {
            distance_level(input as int)
        } else {
            0
        }),
        r[1] == (if input < 0 {
            distance_level(-input)
        } else {
            0
        }),
{
    let clamped: i32 = if input > 2047 {
        2047
    } else if input < -2047 {
        -2047
    } else {
        input
    };
    if clamped >= 0 {
        let pos: u8 = ((clamped as u32 * 255 + 1023) / 2047) as u8;
        [pos, 0]
    } else {
        let neg: u8 = (((-clamped) as u32 * 255 + 1023) / 2047) as u8;
        [0, neg]
    }
}

/// A 12-bit signal scaled by a 12-bit level.
pub open spec fn attenuated(signal: int, level: int) -> int {
    (signal * level) / 4095
}

/// Attenuate a u12 by another u12. Of a result beyond 16 bits the low 16 stay.
pub fn attenuate(signal: u16, level: u16) -> (r: u16)
    ensures
        r == attenuated(signal as int, level as int) % 65536,
        level <= 4095 ==> r == attenuated(signal as int, level as int),
        level <= 4095 ==> r <= signal,
        signal <= 4095 ==> r == attenuated(signal as int, level as int),
        signal <= 4095 ==> r <= level,
{
    proof {
        lemma_attenuated_bound(signal as int, level as int);
        assert(0 <= signal * level <= 65535 * 65535) by (nonlinear_arith)
            requires
                0 <= signal <= 65535,
                0 <= level <= 65535,
        ;
    }
    let attenuated: u32 = (signal as u32 * level as u32) / 4095;
    (attenuated % 65536) as u16
}

/// A level of at most full scale never amplifies, and the two arguments play the same part.
pub proof fn lemma_attenuated_bound(signal: int, level: int)
    requires
        0 <= signal,
        0 <= level,
    ensures
        0 <= attenuated(signal, level),
        level <= 4095 ==> attenuated(signal, level) <= signal,
        signal <= 4095 ==> attenuated(signal, level) <= level,
        attenuated(signal, level) == attenuated(level, signal),
{
    assert(0 <= signal * level) by (nonlinear_arith)
        requires
            0 <= signal,
            0 <= level,
    ;
    assert(signal * level == level * signal) by (nonlinear_arith);
    if level <= 4095 {
        assert(signal * level <= signal * 4095) by (nonlinear_arith)
            requires
                0 <= signal,
                0 <= level <= 4095,
        ;
    }
    if signal <= 4095 {
        assert(signal * level <= level * 4095) by (nonlinear_arith)
            requires
                0 <= level,
                0 <= signal <= 4095,
        ;
    }
}

/// The point of `min..=max` that stands to it as `input` to the 12-bit range.
pub open spec fn rescaled(input: int, min: int, max: int) -> int {
    if min >= max {
        min
    } else {
        min + attenuated(max - min, least(input, 4095))
    }
}

/// Rescale a 12-bit value (`0..=4095`) into a `min..=max` interval.
pub fn rescale_12bit_int(input: u16, min: u16, max: u16) -> (r: u16)
    ensures
        r == rescaled(input as int, min as int, max as int),
        min <= max ==> min <= r <= max,
{
    let capped: u16 = if input > 4095 {
        4095
    } else {
        input
    };
    if min >= max {
        return min;
    }
    let range: u16 = max - min;
    min + attenuate(range, capped)
}

/// The clock divisions of a mode, in ticks, from slow to fast.
pub open spec fn resolutions(mode: int) -> Seq<u32> {
    if mode == 0 {
        seq![384, 192, 96, 48, 24, 12, 6, 3]
    } else if mode == 1 {
        seq![384, 192, 96, 48, 24, 16, 8, 4, 2]
    } else {
        seq![384, 192, 96, 48, 24, 16, 12, 8, 6, 4, 3, 2]
    }
}

/// Clock divider resolution table for selectable division modes.
pub fn resolution_for_mode(mode: usize) -> (r: &'static [u32])
    ensures
        r@ == resolutions(mode as int),
{
    match mode {
        0 => &[384, 192, 96, 48, 24, 12, 6, 3],
        1 => &[384, 192, 96, 48, 24, 16, 8, 4, 2],
        _ => &[384, 192, 96, 48, 24, 16, 12, 8, 6, 4, 3, 2],
    }
}

/// A 12-bit signal whose distance from 2048 is scaled by `level`, rounded
/// toward the middle.
pub open spec fn attenuated_bipolar(signal: int, level: int) -> int {
    if signal >= 2048 {
        clamp_to(2048 + attenuated(signal - 2048, level), 0, 4095)
    } else {
        clamp_to(2048 - attenuated(2048 - signal, level), 0, 4095)
    }
}

/// Use to attenuate 0-4095 representing a bipolar value.
pub fn attenuate_bipolar(signal: u16, level: u16) -> (r: u16)
    ensures
        r == attenuated_bipolar(signal as int, level as int),
        r <= 4095,
{
    if signal >= 2048 {
        let deviation: u64 = signal as u64 - 2048;
        proof {
            lemma_attenuated_bound(deviation as int, level as int);
            assert(0 <= deviation * level <= 65535 * 65535) by (nonlinear_arith)
                requires
                    0 <= deviation <= 65535,
                    0 <= level <= 65535,
            ;
        }
        let result: u64 = 2048 + (deviation * level as u64) / 4095;
        if result > 4095 {
            4095
        } else {
            result as u16
        }
    } else {
        let deviation: u64 = 2048 - signal as u64;
        proof {
            lemma_attenuated_bound(deviation as int, level as int);
            assert(0 <= deviation * level <= 65535 * 65535) by (nonlinear_arith)
                requires
                    0 <= deviation <= 65535,
                    0 <= level <= 65535,
            ;
        }
        let scaled: u64 = (deviation * level as u64) / 4095;
        if scaled > 2048 {
            0
        } else {
            (2048 - scaled) as u16
        }
    }
}

/// The blend between an input and its inversion: all of the inversion at a
/// modulation of 0 (less one part in 4096), all of the input at 4095.
pub open spec fn attenuverted(input: int, modulation: int) -> int {
    ((4095 - input) * (4095 - modulation) + input * (modulation + 1)) / 4096
}

proof fn lemma_attenuverted_bound(input: int, modulation: int)
    requires
        0 <= input <= 4095,
        0 <= modulation <= 4095,
    ensures
        0 <= (4095 - input) * (4095 - modulation) <= 4095 * 4095,
        0 <= input * (modulation + 1) <= 4095 * 4096,
        (4095 - input) * (4095 - modulation) + input * (modulation + 1) <= 4095 * 4096,
        0 <= attenuverted(input, modulation) <= 4095,
{
    assert(0 <= (4095 - input) * (4095 - modulation) <= 4095 * 4095) by (nonlinear_arith)
        requires
            0 <= input <= 4095,
            0 <= modulation <= 4095,
    ;
    assert(0 <= input * (modulation + 1) <= 4095 * 4096) by (nonlinear_arith)
        requires
            0 <= input <= 4095,
            0 <= modulation <= 4095,
    ;
    assert((4095 - input) * (4095 - modulation) + input * (modulation + 1) <= 4095 * 4096)
        by (nonlinear_arith)
        requires
            0 <= input <= 4095,
            0 <= modulation <= 4095,
    ;
}

/// Attenuverter: 12-bit modulation blends from the inverted to the plain 12-bit input.
pub fn attenuverter(input: u16, modulation: u16) -> (r: u16)
    requires
        input <= 4095,
        modulation <= 4095,
    ensures
        r == attenuverted(input as int, modulation as int),
        r <= 4095,
{
    proof {
        lemma_attenuverted_bound(input as int, modulation as int);
    }
    let inverted: u32 = (4095 - input as u32) * (4095 - modulation as u32);
    let normal: u32 = input as u32 * (modulation as u32 + 1);
    ((inverted + normal) / 4096) as u16
}

/// One step of the click filter from `prev` toward `input`: a sixteenth of the
/// way, or all of it where less than 16 are left.
pub open spec fn clickless_step(prev: int, input: int) -> int {
    if -16 < prev - input < 16 {
        input
    } else {
        (prev * 15 + input) / 16
    }
}

/// A number kept in 16 bits with a sign.
pub open spec fn wrap_i16(x: int) -> int {
    (x + 32768) % 65536 - 32768
}

/// Keeps a number in 16 bits with a sign.
pub fn to_i16(x: i32) -> (r: i32)
    requires
        -65536 <= x <= 65535,
    ensures
        r == wrap_i16(x as int),
{
    if x > 32767 {
        x - 65536
    } else if x < -32768 {
        x + 65536
    } else {
        x
    }
}

/// A number kept in 32 bits with a sign.
pub open spec fn wrap_i32(x: int) -> int {
    (x + 0x8000_0000) % 0x1_0000_0000 - 0x8000_0000
}

/// The LED level of a 12-bit value: a sixteenth of it, at most 255.
pub open spec fn led_level(value: int) -> u8 {
    least(value / 16, 255) as u8
}

/// The LED level of a 12-bit value.
pub fn value_level(value: u16) -> (r: u8)
    ensures
        r == led_level(value as int),
{
    if value >= 4096 {
        255
    } else {
        (value / 16) as u8
    }
}

/// Very short slew meant to avoid clicks.
pub fn clickless(prev: u16, input: u16) -> (r: u16)
    ensures
        r == clickless_step(prev as int, input as int),
{
    let diff: u16 = if prev > input {
        prev - input
    } else {
        input - prev
    };
    if diff < 16 {
        input
    } else {
        ((prev as u32 * 15 + input as u32) / 16) as u16
    }
}

/// Widening a 12-bit value to 14 bits and back keeps it where it is a multiple of
/// 1365, and lowers it by one elsewhere.
pub proof fn law_scale_12_14_round_trip(value: int)
    requires
        0 <= value <= 4095,
    ensures
        0 <= widened_12_14(value) <= 16383,
        narrowed_14_12(widened_12_14(value)) == (if value % 1365 == 0 {
            value
        } else {
            value - 1
        }),
{
}

/// Widening a 7-bit value to 12 bits and back keeps it at both ends, which meet
/// those of the wider range, and lowers it by one between them.
pub proof fn law_scale_7_12_round_trip(value: int)
    requires
        0 <= value <= 127,
    ensures
        0 <= widened_7_12(value) <= 4095,
        narrowed_12_7(widened_7_12(value)) == (if value == 0 || value == 127 {
            value
        } else {
            value - 1
        }),
        value == 127 ==> widened_7_12(value) == 4095,
{
}

/// A larger 12-bit value never scales to a smaller 7-bit or 14-bit one, and 12
/// bits land in 7 and 14 bits.
pub proof fn law_scaling_is_monotonic(low: int, high: int)
    requires
        0 <= low <= high <= 4095,
    ensures
        0 <= narrowed_12_7(low) <= narrowed_12_7(high) <= 127,
        0 <= widened_12_14(low) <= widened_12_14(high) <= 16383,
{
}

/// Full level passes a signal unchanged, no level silences it, and a level of
/// at most full scale never amplifies.
pub proof fn law_attenuate_ends(signal: int, level: int)
    requires
        0 <= signal,
        0 <= level <= 4095,
    ensures
        attenuated(signal, 4095) == signal,
        attenuated(signal, 0) == 0,
        0 <= attenuated(signal, level) <= signal,
{
    lemma_attenuated_bound(signal, level);
    assert(signal * 0 == 0) by (nonlinear_arith);
}

/// The bipolar attenuator keeps a 12-bit signal at full level, rests at the
/// middle at no level, and never crosses the middle.
pub proof fn law_attenuate_bipolar_ends(signal: int, level: int)
    requires
        0 <= signal <= 4095,
        0 <= level <= 4095,
    ensures
        attenuated_bipolar(signal, 4095) == signal,
        attenuated_bipolar(signal, 0) == 2048,
        signal >= 2048 ==> 2048 <= attenuated_bipolar(signal, level) <= signal,
        signal < 2048 ==> signal <= attenuated_bipolar(signal, level) <= 2048,
{
    if signal >= 2048 {
        law_attenuate_ends(signal - 2048, level);
    } else {
        law_attenuate_ends(2048 - signal, level);
    }
}

/// Rescaling stays in its interval and reaches both ends of it.
pub proof fn law_rescale_covers_interval(input: int, min: int, max: int)
    requires
        0 <= input,
        min <= max,
    ensures
        min <= rescaled(input, min, max) <= max,
        rescaled(0, min, max) == min,
        input >= 4095 ==> rescaled(input, min, max) == max,
{
    if min < max {
        lemma_attenuated_bound(max - min, least(input, 4095));
        law_attenuate_ends(max - min, 0);
    }
}

/// At full modulation the attenuverter passes its input; at none it gives the
/// inversion, rounded down.
pub proof fn law_attenuverter_ends(input: int)
    requires
        0 <= input <= 4095,
    ensures
        attenuverted(input, 4095) == input,
        attenuverted(input, 0) == ((4095 - input) * 4095 + input) / 4096,
        attenuverted(0, 0) == 4094,
        attenuverted(4095, 0) == 0,
{
    assert((4095 - input) * 0 == 0) by (nonlinear_arith);
}

/// At most one of the two LED levels of a value is lit.
pub proof fn law_split_lights_one_side(input: int)
    requires
        0 <= input,
    ensures
        unsigned_halves(input).0 == 0 || unsigned_halves(input).1 == 0,
        0 <= unsigned_halves(input).0 <= 255,
        0 <= unsigned_halves(input).1 <= 255,
        0 <= distance_level(input) <= 255,
        distance_level(0) == 0,
        distance_level(2047) == 255,
{
}

/// The click filter stays between its last value and its input, and moves
/// toward the input at every step, so a constant input is reached and then held.
pub proof fn law_clickless_converges(prev: int, input: int)
    requires
        0 <= prev,
        0 <= input,
    ensures
        prev < input ==> prev < clickless_step(prev, input) <= input,
        prev > input ==> input <= clickless_step(prev, input) < prev,
        prev == input ==> clickless_step(prev, input) == input,
{
}

/// Scaling between 7, 12 and 14 bits keeps the share of full scale, rounded down:
/// the result stands to its full scale as the value to its own, but for less than
/// one step. Both ends meet.
pub proof fn law_scaling_keeps_shares(value: int)
    requires
        0 <= value,
    ensures
        4095 * narrowed_12_7(value) <= 127 * value < 4095 * (narrowed_12_7(value) + 1),
        127 * widened_7_12(value) <= 4095 * value < 127 * (widened_7_12(value) + 1),
        4095 * widened_12_14(value) <= 16383 * value < 4095 * (widened_12_14(value) + 1),
        16383 * narrowed_14_12(value) <= 4095 * value < 16383 * (narrowed_14_12(value) + 1),
        narrowed_12_7(4095) == 127,
        widened_7_12(127) == 4095,
        widened_12_14(4095) == 16383,
        narrowed_14_12(16383) == 4095,
{
}

/// The two LED levels of a 12-bit value grow with the distance from the middle,
/// one step per eight, the first above it and the second below it.
pub proof fn law_split_shows_distance(input: int)
    requires
        0 <= input,
    ensures
        ({
            let (above, below) = unsigned_halves(input);
            &&& input <= 2047 ==> above == 0 && 8 * below <= 2047 - input < 8 * below + 8
            &&& 2047 < input < 4087 ==> below == 0 && 8 * above <= input - 2047 < 8 * above + 8
            &&& input >= 4087 ==> below == 0 && above == 255
        }),
{
}

/// The two LED levels of a signed value are the nearest ones to its share of 2047
/// on the side of its sign, and the sign swaps them.
pub proof fn law_split_signed_rounds(input: int)
    requires
        -2047 <= input <= 2047,
    ensures
        ({
            let (above, below) = signed_halves(input);
            &&& above == 0 || below == 0
            &&& -1023 <= 2047 * (above - below) - 255 * input <= 1023
            &&& signed_halves(-input) == (below, above)
            &&& 0 <= above <= 255 && 0 <= below <= 255
        }),
{
}

/// A signal that is attenuated stands to the signal as the level to full scale,
/// rounded down; so it grows with both.
pub proof fn law_attenuate_is_proportional(signal: int, level: int, more: int)
    requires
        0 <= signal,
        0 <= level <= more,
    ensures
        4095 * attenuated(signal, level) <= signal * level < 4095 * attenuated(signal, level) + 4095,
        attenuated(signal, level) <= attenuated(signal, more),
        attenuated(level, signal) <= attenuated(more, signal),
{
    assert(signal * level <= signal * more) by (nonlinear_arith)
        requires
            0 <= signal,
            0 <= level <= more,
    ;
    assert(level * signal <= more * signal) by (nonlinear_arith)
        requires
            0 <= signal,
            0 <= level <= more,
    ;
}

/// The distance of a bipolar signal from the middle is attenuated as a signal
/// is, on its own side, and the two sides mirror each other.
pub proof fn law_attenuate_bipolar_is_proportional(distance: int, level: int)
    requires
        0 <= distance <= 2047,
        0 <= level <= 4095,
    ensures
        ({
            let kept = attenuated_bipolar(2048 + distance, level) - 2048;
            &&& 0 <= kept
            &&& 4095 * kept <= distance * level < 4095 * kept + 4095
            &&& attenuated_bipolar(2048 - distance, level) == 2048 - kept
        }),
{
    lemma_attenuated_bound(distance, level);
}

/// Rescaling divides the interval as the input divides full scale, rounded down.
/// An interval without extent gives its lower end.
pub proof fn law_rescale_is_proportional(input: int, min: int, max: int)
    requires
        0 <= input <= 4095,
    ensures
        min < max ==> 4095 * (rescaled(input, min, max) - min) <= (max - min) * input < 4095 * (
        rescaled(input, min, max) - min) + 4095,
        min >= max ==> rescaled(input, min, max) == min,
{
}

/// The attenuverter blends the input with its inversion: it rises with the input
/// above the middle of the modulation and falls below it, and at the middle
/// every input gives the middle.
pub proof fn law_attenuverter_blends(low: int, high: int, modulation: int)
    requires
        0 <= low <= high <= 4095,
        0 <= modulation <= 4095,
    ensures
        attenuverted(low, 2047) == 2047,
        modulation >= 2047 ==> attenuverted(low, modulation) <= attenuverted(high, modulation),
        modulation <= 2047 ==> attenuverted(low, modulation) >= attenuverted(high, modulation),
        4096 * attenuverted(low, modulation) <= (4095 - low) * (4095 - modulation) + low * (
        modulation + 1) < 4096 * attenuverted(low, modulation) + 4096,
{
    lemma_attenuverted_bound(low, modulation);
    lemma_attenuverted_bound(high, modulation);
    let a = (4095 - low) * (4095 - modulation) + low * (modulation + 1);
    let b = (4095 - high) * (4095 - modulation) + high * (modulation + 1);
    assert(b - a == (high - low) * (2 * modulation - 4094)) by (nonlinear_arith)
        requires
            a == (4095 - low) * (4095 - modulation) + low * (modulation + 1),
            b == (4095 - high) * (4095 - modulation) + high * (modulation + 1),
    ;
    if modulation >= 2047 {
        assert(0 <= (high - low) * (2 * modulation - 4094)) by (nonlinear_arith)
            requires
                low <= high,
                modulation >= 2047,
        ;
    }
    if modulation <= 2047 {
        assert((high - low) * (2 * modulation - 4094) <= 0) by (nonlinear_arith)
            requires
                low <= high,
                modulation <= 2047,
        ;
    }
}

/// A step of the click filter over a distance of at least 16 covers a sixteenth
/// of it, up to one.
pub proof fn law_clickless_moves_a_sixteenth(prev: int, input: int)
    requires
        0 <= prev,
        0 <= input,
        prev - input >= 16 || input - prev >= 16,
    ensures
        prev < input ==> 16 * (clickless_step(prev, input) - prev) <= input - prev < 16 * (
        clickless_step(prev, input) - prev) + 16,
        prev > input ==> 16 * (prev - clickless_step(prev, input)) - 16 < prev - input <= 16 * (
        prev - clickless_step(prev, input)),
{
}

/// The divisions of a mode run from slow to fast, from four bars on; those of the
/// first mode halve at every step, those of the second halve but for one step
/// from 24 to 16, and the third mode has those of both and no others.
pub proof fn law_resolutions(mode: int, i: int)
    requires
        0 <= mode <= 2,
        0 <= i,
        i + 1 < resolutions(mode).len(),
    ensures
        resolutions(mode)[0] == 384,
        resolutions(mode)[i] > resolutions(mode)[i + 1],
        resolutions(0).len() == 8,
        resolutions(1).len() == 9,
        resolutions(2).len() == 12,
        mode == 0 ==> resolutions(mode)[i] == 2 * resolutions(mode)[i + 1],
        mode == 1 && i != 4 ==> resolutions(mode)[i] == 2 * resolutions(mode)[i + 1],
        mode == 1 && i == 4 ==> resolutions(mode)[i] == 24 && resolutions(mode)[i + 1] == 16,
        resolutions(2).contains(resolutions(mode)[i]),
        resolutions(0).contains(resolutions(2)[i]) || resolutions(1).contains(resolutions(2)[i]),
{
    let r0 = resolutions(0);
    let r1 = resolutions(1);
    let r2 = resolutions(2);
    assert(r0[0] == 384 && r0[1] == 192 && r0[2] == 96 && r0[3] == 48 && r0[4] == 24 && r0[5] == 12
        && r0[6] == 6 && r0[7] == 3);
    assert(r1[0] == 384 && r1[1] == 192 && r1[2] == 96 && r1[3] == 48 && r1[4] == 24 && r1[5] == 16
        && r1[6] == 8 && r1[7] == 4 && r1[8] == 2);
    assert(r2[0] == 384 && r2[1] == 192 && r2[2] == 96 && r2[3] == 48 && r2[4] == 24 && r2[5] == 16
        && r2[6] == 12 && r2[7] == 8 && r2[8] == 6 && r2[9] == 4 && r2[10] == 3 && r2[11] == 2);
}

/// Keeping a number in 16 or 32 bits changes it by whole rounds only.
pub proof fn law_wraps_by_whole_rounds(x: int)
    ensures
        -32768 <= wrap_i16(x) <= 32767,
        (x - wrap_i16(x)) % 65536 == 0,
        -0x8000_0000 <= wrap_i32(x) <= 0x7fff_ffff,
        (x - wrap_i32(x)) % 0x1_0000_0000 == 0,
{
}

/// The LED level of a 12-bit value is one step per sixteen, up to 255.
pub proof fn law_led_level_steps(value: int)
    requires
        0 <= value,
    ensures
        value <= 4095 ==> 16 * led_level(value) <= value < 16 * led_level(value) + 16,
        value >= 4080 ==> led_level(value) == 255,
{
}

} // verus!
