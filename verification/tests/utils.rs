use faderpunk::apps::clk_div;
use faderpunk::apps::clkturing::{rotate_select_bit, scale_to_12bit};
use faderpunk::apps::follower::rectify;
use faderpunk::apps::panner::slew_2;
use faderpunk::apps::rnd_plus::{mod_with_input, resolution_with_input_offset};
use faderpunk::latch::{AnalogLatch, LatchLayer, TakeoverMode};
use faderpunk::utils::{
    attenuate, attenuate_bipolar, attenuverter, bits_7_16, clickless, rescale_12bit_int,
    resolution_for_mode, scale_bits_12_14, scale_bits_12_7, scale_bits_14_12, scale_bits_7_12,
    split_signed_value, split_unsigned_value, value_level,
};

#[test]
fn scales_between_widths() {
    assert_eq!(scale_bits_12_7(0), 0);
    assert_eq!(scale_bits_12_7(2048), 63);
    assert_eq!(scale_bits_12_7(4095), 127);
    // Beyond 12 bits only the low seven bits stay.
    assert_eq!(scale_bits_12_7(65535), 112);
    assert_eq!(scale_bits_7_12(127), 4095);
    assert_eq!(scale_bits_7_12(64), 2063);
    assert_eq!(scale_bits_12_14(4095), 16383);
    assert_eq!(scale_bits_12_14(100), 400);
    assert_eq!(scale_bits_14_12(16383), 4095);
    assert_eq!(scale_bits_14_12(8192), 2047);
    assert_eq!(bits_7_16(101), 101);
}

#[test]
fn scaling_round_trips_lose_at_most_one() {
    for value in 0..=4095u16 {
        let back = scale_bits_14_12(scale_bits_12_14(value));
        assert_eq!(value - back, if value % 1365 == 0 { 0 } else { 1 });
    }
    for value in 0..=127u8 {
        let back = scale_bits_12_7(scale_bits_7_12(value));
        assert_eq!(value - back, if value == 0 || value == 127 { 0 } else { 1 });
    }
}

#[test]
fn a_latch_at_rest_stays_as_it_is() {
    for mode in [TakeoverMode::Pickup, TakeoverMode::Jump, TakeoverMode::Scale] {
        let mut latch = AnalogLatch::new(1000, mode);
        latch.update(1200, LatchLayer::Alt, 3000);
        let rested = latch;
        assert_eq!(latch.update(1200, LatchLayer::Alt, 3000), None);
        assert_eq!(latch, rested);
    }
}

#[test]
fn splits_light_one_side() {
    assert_eq!(split_unsigned_value(0), [0, 255]);
    assert_eq!(split_unsigned_value(2047), [0, 0]);
    assert_eq!(split_unsigned_value(2055), [1, 0]);
    assert_eq!(split_unsigned_value(4095), [255, 0]);
    assert_eq!(split_unsigned_value(60000), [255, 0]);
    assert_eq!(split_signed_value(0), [0, 0]);
    assert_eq!(split_signed_value(2047), [255, 0]);
    assert_eq!(split_signed_value(-2047), [0, 255]);
    assert_eq!(split_signed_value(-100000), [0, 255]);
    assert_eq!(split_signed_value(1000), [125, 0]);
}

#[test]
fn attenuates_and_rescales() {
    assert_eq!(attenuate(4095, 4095), 4095);
    assert_eq!(attenuate(4095, 0), 0);
    assert_eq!(attenuate(2000, 2047), 999);
    assert_eq!(attenuate(65535, 65535), 224);
    assert_eq!(rescale_12bit_int(0, 100, 200), 100);
    assert_eq!(rescale_12bit_int(4095, 100, 200), 200);
    assert_eq!(rescale_12bit_int(9999, 100, 200), 200);
    assert_eq!(rescale_12bit_int(2048, 100, 200), 150);
    assert_eq!(rescale_12bit_int(2048, 200, 100), 200);
    assert_eq!(clk_div::rescale_12bit_int(1024, 0, 4095), 1024);
    assert_eq!(attenuate_bipolar(4095, 4095), 4095);
    assert_eq!(attenuate_bipolar(0, 4095), 0);
    assert_eq!(attenuate_bipolar(0, 2047), 1025);
    assert_eq!(attenuate_bipolar(3000, 0), 2048);
    assert_eq!(attenuate_bipolar(65535, 65535), 4095);
    assert_eq!(value_level(4095), 255);
    assert_eq!(value_level(160), 10);
}

/// The blend as it is written with real numbers.
fn attenuverter_in_floats(input: u16, modulation: u16) -> u16 {
    let blend = (modulation as i32 - 2047) as f32 / 2048.0;
    let normal = input as f32;
    let inverted = (4095 - input as i32) as f32;
    let result = inverted * (1.0 - blend) / 2.0 + normal * (1.0 + blend) / 2.0;
    result.clamp(0.0, 4095.0) as u16
}

#[test]
fn attenuverter_is_the_blend_of_both_ends() {
    assert_eq!(attenuverter(1234, 4095), 1234);
    assert_eq!(attenuverter(0, 0), 4094);
    assert_eq!(attenuverter(4095, 0), 0);
    let mut input = 0;
    while input <= 4095 {
        let mut modulation = 0;
        while modulation <= 4095 {
            assert_eq!(
                attenuverter(input, modulation),
                attenuverter_in_floats(input, modulation)
            );
            modulation += 7;
        }
        input += 5;
    }
}

#[test]
fn click_filter_converges() {
    assert_eq!(clickless(100, 110), 110);
    assert_eq!(clickless(0, 4095), 255);
    assert_eq!(clickless(4095, 0), 3839);
    let mut value = 0;
    for _ in 0..200 {
        value = clickless(value, 3000);
    }
    assert_eq!(value, 3000);
}

#[test]
fn resolutions_by_mode() {
    assert_eq!(resolution_for_mode(0), vec![384, 192, 96, 48, 24, 12, 6, 3]);
    assert_eq!(resolution_for_mode(1), vec![384, 192, 96, 48, 24, 16, 8, 4, 2]);
    assert_eq!(
        resolution_for_mode(2),
        vec![384, 192, 96, 48, 24, 16, 12, 8, 6, 4, 3, 2]
    );
    assert_eq!(resolution_for_mode(77), resolution_for_mode(2));
}

#[test]
fn integer_slew_stays_between_and_snaps() {
    assert_eq!(slew_2(0, 4000, 3), 1000);
    assert_eq!(slew_2(4000, 0, 3), 3000);
    assert_eq!(slew_2(3999, 4000, 3), 4000);
    assert_eq!(slew_2(500, 500, 3), 500);
    assert_eq!(slew_2(65535, 65535, 65535), 65535);
}

#[test]
fn input_modulation() {
    assert_eq!(mod_with_input(2000, 2047), 2000);
    assert_eq!(mod_with_input(2000, 0), 0);
    assert_eq!(mod_with_input(4000, 4095), 4095);
    assert_eq!(resolution_with_input_offset(0, 2047), 384);
    assert_eq!(resolution_with_input_offset(3000, 2047), 6);
    // Full deflection moves six places.
    assert_eq!(resolution_with_input_offset(0, 4095), 12);
    assert_eq!(resolution_with_input_offset(3000, 0), 96);
    // Less than a place is rounded toward the middle, on both sides.
    assert_eq!(resolution_with_input_offset(1000, 2047 + 340), 96);
    assert_eq!(resolution_with_input_offset(1000, 2047 - 340), 96);
    assert_eq!(resolution_with_input_offset(1000, 2047 - 342), 192);
}

#[test]
fn rectifies_around_the_middle() {
    assert_eq!(rectify(2047), 2047);
    assert_eq!(rectify(2047 - 300), 2347);
    assert_eq!(rectify(2047 + 300), 2347);
    assert_eq!(rectify(0), 4094);
    assert_eq!(rectify(65535), 65535);
}

#[test]
fn register_turns_and_mutates() {
    // The bit eight places below the top is fed back.
    assert_eq!(rotate_select_bit(0b0000_0000_1000_0000, 0, 0, 8), (0b1000_0000_0100_0000, false));
    assert_eq!(rotate_select_bit(0b0000_0000_1000_0000, 5, 4, 8), (0b0000_0000_0100_0000, true));
    assert_eq!(rotate_select_bit(0, 5, 4, 15), (0x8000, true));
    assert_eq!(rotate_select_bit(1, 4, 4, 15), (0x8000, false));
    // Lengths beyond the register feed the top bit back.
    assert_eq!(rotate_select_bit(0x8000, 0, 0, 16), (0xC000, false));
    // Without mutations nine steps of length eight bring the top bits back.
    let mut register = 0b1011_0011_1000_0000u16;
    let before = register >> 7;
    for _ in 0..9 {
        register = rotate_select_bit(register, 0, 0, 8).0;
    }
    assert_eq!(register >> 7, before);
}

#[test]
fn register_scales_to_12_bits() {
    assert_eq!(scale_to_12bit(0xFFFF, 8), 4095);
    assert_eq!(scale_to_12bit(0xFFFF, 0), 4095);
    assert_eq!(scale_to_12bit(0xFFFF, 40), 4095);
    assert_eq!(scale_to_12bit(0x8000, 1), 4095);
    assert_eq!(scale_to_12bit(0x8000, 8), 2055);
    assert_eq!(scale_to_12bit(0x7FFF, 16), 2047);
    assert_eq!(scale_to_12bit(0, 16), 0);
}
