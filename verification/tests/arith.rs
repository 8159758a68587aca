//! Exhaustive and pointwise checks of the arithmetic primitives and the
//! byte/word split and join helpers.

use emu86::byteutils::{
    add_overflow, b_add, b_sub, high8, join8, join_high8, join_low8, low8, sub_overflow, w_add,
    w_sub,
};

#[test]
fn low8_high8_examples() {
    assert_eq!(low8(0xBEEF), 0xEF);
    assert_eq!(high8(0xBEEF), 0xBE);
    assert_eq!(low8(0x0000), 0x00);
    assert_eq!(high8(0x0000), 0x00);
    assert_eq!(low8(0xFFFF), 0xFF);
    assert_eq!(high8(0xFFFF), 0xFF);
}

#[test]
fn join8_examples() {
    assert_eq!(join8(0xEF, 0xBE), 0xBEEF);
    assert_eq!(join8(0x00, 0x00), 0x0000);
    assert_eq!(join8(0xFF, 0xFF), 0xFFFF);
}

#[test]
fn join_low8_replaces_only_low_byte() {
    assert_eq!(join_low8(0xBEEF, 0x12), 0xBE12);
    assert_eq!(join_low8(0x0000, 0xFF), 0x00FF);
}

#[test]
fn join_high8_replaces_only_high_byte() {
    assert_eq!(join_high8(0xBEEF, 0x12), 0x12EF);
    assert_eq!(join_high8(0x0000, 0xFF), 0xFF00);
}

#[test]
fn join_then_split_roundtrips_all_pairs() {
    for low in 0..=255u8 {
        for high in 0..=255u8 {
            let word = join8(low, high);
            assert_eq!(low8(word), low);
            assert_eq!(high8(word), high);
        }
    }
}

#[test]
fn split_then_join_roundtrips_all_words() {
    for word in 0..=65535u16 {
        assert_eq!(join8(low8(word), high8(word)), word);
    }
}

#[test]
fn add_overflow_truth_table() {
    // Overflow iff the operand signs agree and differ from the result sign.
    assert!(!add_overflow(false, false, false));
    assert!(add_overflow(false, false, true));
    assert!(!add_overflow(false, true, false));
    assert!(!add_overflow(false, true, true));
    assert!(!add_overflow(true, false, false));
    assert!(!add_overflow(true, false, true));
    assert!(add_overflow(true, true, false));
    assert!(!add_overflow(true, true, true));
}

#[test]
fn sub_overflow_truth_table() {
    assert!(!sub_overflow(false, false, false));
    assert!(!sub_overflow(false, false, true));
    assert!(!sub_overflow(false, true, false));
    assert!(sub_overflow(false, true, true));
    assert!(sub_overflow(true, false, false));
    assert!(!sub_overflow(true, false, true));
    assert!(!sub_overflow(true, true, false));
    assert!(!sub_overflow(true, true, true));
}

#[test]
fn b_add_matches_model_for_all_byte_pairs() {
    for a in 0..=255u8 {
        for b in 0..=255u8 {
            let (result, carry, overflow, sign, zero) = b_add(a, b);
            let wide = a as u32 + b as u32;
            assert_eq!(result as u32, wide % 256);
            assert_eq!(carry, wide >= 256);
            assert_eq!(zero, result == 0);
            assert_eq!(sign, result >= 128);
            let expected_overflow = (a >= 128) == (b >= 128) && (result >= 128) != (a >= 128);
            assert_eq!(overflow, expected_overflow);
        }
    }
}

#[test]
fn b_sub_matches_model_for_all_byte_pairs() {
    for a in 0..=255u8 {
        for b in 0..=255u8 {
            let (result, carry, overflow, sign, zero) = b_sub(a, b);
            let wide = (a as i32 - b as i32).rem_euclid(256);
            assert_eq!(result as i32, wide);
            assert_eq!(carry, a < b);
            assert_eq!(zero, result == 0);
            assert_eq!(sign, result >= 128);
            let l_sign = a >= 128;
            let r_sign = b >= 128;
            let result_sign = result >= 128;
            let expected_overflow =
                (!l_sign && r_sign && result_sign) || (l_sign && !r_sign && !result_sign);
            assert_eq!(overflow, expected_overflow);
        }
    }
}

#[test]
fn b_add_sign_combination_cases() {
    // Both operands non-negative, result sign flips: overflow.
    assert_eq!(b_add(0x7F, 0x01), (0x80, false, true, true, false));
    // Both operands negative, result wraps to non-negative: overflow.
    assert_eq!(b_add(0x80, 0x80), (0x00, true, true, false, true));
    // Mixed signs never overflow.
    assert_eq!(b_add(0x80, 0x7F), (0xFF, false, false, true, false));
    // Both non-negative, result stays non-negative: no overflow.
    assert_eq!(b_add(0x01, 0x02), (0x03, false, false, false, false));
}

#[test]
fn b_sub_sign_combination_cases() {
    // Non-negative minus negative giving negative: overflow.
    assert_eq!(b_sub(0x00, 0x80), (0x80, true, true, true, false));
    // Negative minus non-negative giving non-negative: overflow.
    assert_eq!(b_sub(0x80, 0x01), (0x7F, false, true, false, false));
    // Same signs never overflow.
    assert_eq!(b_sub(0x05, 0x03), (0x02, false, false, false, false));
    assert_eq!(b_sub(0x03, 0x05), (0xFE, true, false, true, false));
}

#[test]
fn w_add_examples() {
    assert_eq!(w_add(0xFFFF, 0x0001), (0x0000, true, false, false, true));
    assert_eq!(w_add(0x7FFF, 0x0001), (0x8000, false, true, true, false));
    assert_eq!(w_add(0x8000, 0x8000), (0x0000, true, true, false, true));
    assert_eq!(w_add(0x1234, 0x1111), (0x2345, false, false, false, false));
}

#[test]
fn w_sub_examples() {
    assert_eq!(w_sub(0x0000, 0x0001), (0xFFFF, true, false, true, false));
    assert_eq!(w_sub(0x8000, 0x0001), (0x7FFF, false, true, false, false));
    assert_eq!(w_sub(0x0000, 0x8000), (0x8000, true, true, true, false));
    assert_eq!(w_sub(0x2345, 0x1111), (0x1234, false, false, false, false));
}

#[test]
fn w_add_matches_model_on_sampled_pairs() {
    for a in (0..=65535u16).step_by(251) {
        for b in (0..=65535u16).step_by(257) {
            let (result, carry, overflow, sign, zero) = w_add(a, b);
            let wide = a as u32 + b as u32;
            assert_eq!(result as u32, wide % 65536);
            assert_eq!(carry, wide >= 65536);
            assert_eq!(zero, result == 0);
            assert_eq!(sign, result >= 32768);
            let expected_overflow =
                (a >= 32768) == (b >= 32768) && (result >= 32768) != (a >= 32768);
            assert_eq!(overflow, expected_overflow);
        }
    }
}

#[test]
fn w_sub_matches_model_on_sampled_pairs() {
    for a in (0..=65535u16).step_by(251) {
        for b in (0..=65535u16).step_by(257) {
            let (result, carry, overflow, sign, zero) = w_sub(a, b);
            let wide = (a as i32 - b as i32).rem_euclid(65536);
            assert_eq!(result as i32, wide);
            assert_eq!(carry, a < b);
            assert_eq!(zero, result == 0);
            assert_eq!(sign, result >= 32768);
            let l_sign = a >= 32768;
            let r_sign = b >= 32768;
            let result_sign = result >= 32768;
            let expected_overflow =
                (!l_sign && r_sign && result_sign) || (l_sign && !r_sign && !result_sign);
            assert_eq!(overflow, expected_overflow);
        }
    }
}
