use micro_arch::alu::{set_flag, test_flag, update_flags, CARRY, NEGATIVE, OVERFLOW, RESERVED, ZERO};
use micro_arch::micro_code::{AluOp, ShiftOp};

#[test]
fn add_is_the_sum_modulo_256_for_every_pair() {
    for x in 0..=255u8 {
        for y in 0..=255u8 {
            let expected = ((x as u32 + y as u32) % 256) as u8;
            assert_eq!(AluOp::XPlusY.apply(x, y), expected);
        }
    }
}

#[test]
fn subtract_is_the_difference_modulo_256_for_every_pair() {
    for x in 0..=255u8 {
        for y in 0..=255u8 {
            let expected = (x as i32 - y as i32).rem_euclid(256) as u8;
            assert_eq!(AluOp::XMinusY.apply(x, y), expected);
        }
    }
}

#[test]
fn add_wraps_at_the_byte_boundary() {
    assert_eq!(AluOp::XPlusY.apply(0xff, 0x01), 0x00);
    assert_eq!(AluOp::XPlusY.apply(0x7f, 0x01), 0x80);
    assert_eq!(AluOp::XPlusY.apply(200, 100), 44);
}

#[test]
fn subtract_wraps_below_zero() {
    assert_eq!(AluOp::XMinusY.apply(0x00, 0x01), 0xff);
    assert_eq!(AluOp::XMinusY.apply(5, 10), 251);
    assert_eq!(AluOp::XMinusY.apply(10, 5), 5);
}

#[test]
fn increment_wraps_from_ff_to_zero() {
    assert_eq!(AluOp::XPlus1.apply(0xff, 0), 0x00);
    assert_eq!(AluOp::XPlus1.apply(0x00, 0), 0x01);
    assert_eq!(AluOp::XPlus1.apply(0x7f, 0), 0x80);
}

#[test]
fn decrement_wraps_from_zero_to_ff() {
    assert_eq!(AluOp::XMinus1.apply(0x00, 0), 0xff);
    assert_eq!(AluOp::XMinus1.apply(0x01, 0), 0x00);
    assert_eq!(AluOp::XMinus1.apply(0x80, 0), 0x7f);
}

#[test]
fn unary_operations_take_no_notice_of_y() {
    for y in 0..=255u8 {
        assert_eq!(AluOp::XPlus1.apply(0x41, y), 0x42);
        assert_eq!(AluOp::XMinus1.apply(0x41, y), 0x40);
    }
}

#[test]
fn bitwise_operations() {
    assert_eq!(AluOp::XAndY.apply(0b1100, 0b1010), 0b1000);
    assert_eq!(AluOp::XorY.apply(0b1100, 0b1010), 0b1110);
    assert_eq!(AluOp::XxorY.apply(0b1100, 0b1010), 0b0110);
    assert_eq!(AluOp::XAndY.apply(0xf0, 0x0f), 0x00);
    assert_eq!(AluOp::XorY.apply(0xf0, 0x0f), 0xff);
    assert_eq!(AluOp::XxorY.apply(0xff, 0xff), 0x00);
}

#[test]
fn flag_masks_are_the_low_four_bits() {
    assert_eq!(NEGATIVE, 0x01);
    assert_eq!(ZERO, 0x02);
    assert_eq!(CARRY, 0x04);
    assert_eq!(OVERFLOW, 0x08);
    assert_eq!(RESERVED, 0xf0);
}

#[test]
fn test_flag_reads_one_bit() {
    assert!(test_flag(0x04, CARRY));
    assert!(!test_flag(0xfb, CARRY));
    assert!(test_flag(0xff, OVERFLOW));
    assert!(!test_flag(0x00, NEGATIVE));
}

#[test]
fn set_flag_writes_one_bit() {
    assert_eq!(set_flag(0x00, CARRY, true), 0x04);
    assert_eq!(set_flag(0xff, CARRY, false), 0xfb);
    assert_eq!(set_flag(0x04, CARRY, true), 0x04);
    assert_eq!(set_flag(0xa0, ZERO, true), 0xa2);
    assert_eq!(set_flag(0xa0, ZERO, false), 0xa0);
}

#[test]
fn flags_of_a_sum_that_turns_negative() {
    // 127 + 1: negative and overflow, neither zero nor carry.
    assert_eq!(update_flags(0x00, 0x7f, 0x01, 0x80), 0x09);
}

#[test]
fn flags_of_a_sum_that_wraps_to_zero() {
    // 255 + 1: zero and carry; as signed numbers -1 + 1 stays in range.
    assert_eq!(update_flags(0x00, 0xff, 0x01, 0x00), 0x06);
}

#[test]
fn flags_of_a_sum_below_the_signed_range() {
    // -128 + -1 leaves the signed range; 128 + 255 leaves the unsigned one.
    assert_eq!(update_flags(0x00, 0x80, 0xff, 0x7f), 0x0c);
}

#[test]
fn flags_are_cleared_as_well_as_set() {
    assert_eq!(update_flags(0x0f, 0x01, 0x01, 0x02), 0x00);
}

#[test]
fn flags_leave_the_reserved_bits() {
    assert_eq!(update_flags(0xf0, 0xff, 0x01, 0x00), 0xf6);
    assert_eq!(update_flags(0xff, 0x01, 0x01, 0x02), 0xf0);
    assert_eq!(update_flags(0xa5, 0x7f, 0x01, 0x80), 0xa9);
}

#[test]
fn carry_and_overflow_go_by_the_sum_whatever_the_operation() {
    // 255 - 1 = 254: the carry is still that of 255 + 1.
    let alu_out = AluOp::XMinusY.apply(0xff, 0x01);
    assert_eq!(alu_out, 0xfe);
    assert_eq!(update_flags(0x00, 0xff, 0x01, alu_out), 0x01 | 0x04);
    // 0x40 & 0x40: the overflow is still that of 64 + 64.
    let alu_out = AluOp::XAndY.apply(0x40, 0x40);
    assert_eq!(update_flags(0x00, 0x40, 0x40, alu_out), 0x08);
}

#[test]
fn flags_agree_with_their_definition_for_every_pair() {
    for x in 0..=255u8 {
        for y in 0..=255u8 {
            let alu_out = AluOp::XPlusY.apply(x, y);
            let status = update_flags(0x50, x, y, alu_out);
            let signed_sum = (x as i8) as i32 + (y as i8) as i32;
            assert_eq!(test_flag(status, NEGATIVE), alu_out & 0x80 != 0);
            assert_eq!(test_flag(status, ZERO), alu_out == 0);
            assert_eq!(test_flag(status, CARRY), x as u32 + y as u32 > 255);
            assert_eq!(test_flag(status, OVERFLOW), !(-128..=127).contains(&signed_sum));
            assert_eq!(status & RESERVED, 0x50);
        }
    }
}

#[test]
fn no_shift_passes_value_and_status_through() {
    assert_eq!(ShiftOp::Nop.apply(0xa5, true, true, 0x04), (0xa5, 0x04));
    assert_eq!(ShiftOp::Nop.apply(0x01, false, false, 0x00), (0x01, 0x00));
    assert_eq!(ShiftOp::Nop.apply(0x80, false, false, 0xfb), (0x80, 0xfb));
}

#[test]
fn rotate_right_takes_the_carry_in_at_the_top() {
    assert_eq!(ShiftOp::RRwC.apply(0x03, false, true, 0x00), (0x81, 0x04));
    assert_eq!(ShiftOp::RRwC.apply(0x02, true, false, 0x04), (0x01, 0x00));
    assert_eq!(ShiftOp::RRwC.apply(0x00, false, true, 0x04), (0x80, 0x00));
}

#[test]
fn rotate_left_takes_the_carry_in_at_the_bottom() {
    assert_eq!(ShiftOp::RlwC.apply(0x81, true, false, 0x00), (0x02, 0x04));
    assert_eq!(ShiftOp::RlwC.apply(0x40, false, true, 0x04), (0x81, 0x00));
    assert_eq!(ShiftOp::RlwC.apply(0x00, false, true, 0x04), (0x01, 0x00));
}

#[test]
fn logical_right_shift_takes_the_shift_in_bit() {
    assert_eq!(ShiftOp::SRL.apply(0x81, true, false, 0x00), (0xc0, 0x04));
    assert_eq!(ShiftOp::SRL.apply(0x80, false, true, 0x04), (0x40, 0x00));
}

#[test]
fn arithmetic_right_shift_keeps_the_sign() {
    assert_eq!(ShiftOp::SRA.apply(0x81, false, false, 0x00), (0xc0, 0x04));
    assert_eq!(ShiftOp::SRA.apply(0x7e, true, true, 0x04), (0x3f, 0x00));
    assert_eq!(ShiftOp::SRA.apply(0x01, true, true, 0x00), (0x00, 0x04));
    assert_eq!(ShiftOp::SRA.apply(0xff, false, false, 0x00), (0xff, 0x04));
}

#[test]
fn left_shifts_take_the_shift_in_bit() {
    assert_eq!(ShiftOp::SLL.apply(0x81, false, true, 0x00), (0x02, 0x04));
    assert_eq!(ShiftOp::SLL.apply(0x01, true, false, 0x04), (0x03, 0x00));
    assert_eq!(ShiftOp::SLA.apply(0x81, false, true, 0x00), (0x02, 0x04));
    assert_eq!(ShiftOp::SLA.apply(0x01, true, false, 0x04), (0x03, 0x00));
    assert_eq!(ShiftOp::SLA.apply(0xc0, false, false, 0x00), (0x80, 0x04));
}

#[test]
fn a_shift_changes_no_status_bit_but_the_carry() {
    assert_eq!(ShiftOp::SRL.apply(0x01, false, false, 0xfb), (0x00, 0xff));
    assert_eq!(ShiftOp::SLL.apply(0x01, false, false, 0xff), (0x02, 0xfb));
    assert_eq!(ShiftOp::RRwC.apply(0x01, false, false, 0x0b), (0x00, 0x0f));
}

#[test]
fn rotate_right_then_left_restores_value_and_carry() {
    for value in 0..=255u8 {
        for status in 0..=255u8 {
            let carry = test_flag(status, CARRY);
            let (z1, s1) = ShiftOp::RRwC.apply(value, false, carry, status);
            let (z2, s2) = ShiftOp::RlwC.apply(z1, false, test_flag(s1, CARRY), s1);
            assert_eq!(z2, value);
            assert_eq!(test_flag(s2, CARRY), carry);
            assert_eq!(s2, status);
        }
    }
}

#[test]
fn rotate_right_then_left_on_one_value() {
    // 0xb5 with the carry set: the carry enters at the top, bit 0 leaves.
    let (z1, s1) = ShiftOp::RRwC.apply(0xb5, false, true, 0x04);
    assert_eq!((z1, s1), (0xda, 0x04));
    let (z2, s2) = ShiftOp::RlwC.apply(z1, false, true, s1);
    assert_eq!((z2, s2), (0xb5, 0x04));
}
