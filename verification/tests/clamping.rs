use cuadra::Clamper16;
use cuadra::Clamper32 as C;
use cuadra::Clamper32;
use cuadra::Clamper64;
use cuadra::Clamper8;

#[test]
fn clamp_basics() {
    assert_eq![Clamper8::MIN, -64];
    assert_eq![Clamper8::MAX, 63];
    assert_eq![Clamper8::MIN, Clamper8::clamp(i8::MIN)];
    assert_eq![Clamper8::MAX, Clamper8::clamp(i8::MAX)];
    assert_eq![0, Clamper8::clamp_non_negative(i8::MIN)];
    assert_eq![Clamper8::MAX, Clamper8::clamp_non_negative(i8::MAX)];
    assert_eq![1, Clamper8::clamp_positive(i8::MIN)];
    assert_eq![Clamper8::MAX, Clamper8::clamp_positive(i8::MAX)];
    assert_eq![Clamper8::MAX * 2, i8::MAX - 1];

    assert_eq![Clamper16::MIN, -16_384];
    assert_eq![Clamper16::MAX, 16_383];
    assert_eq![Clamper16::MIN, Clamper16::clamp(i16::MIN)];
    assert_eq![Clamper16::MAX, Clamper16::clamp(i16::MAX)];
    assert_eq![0, Clamper16::clamp_non_negative(i16::MIN)];
    assert_eq![Clamper16::MAX, Clamper16::clamp_non_negative(i16::MAX)];
    assert_eq![1, Clamper16::clamp_positive(i16::MIN)];
    assert_eq![Clamper16::MAX, Clamper16::clamp_positive(i16::MAX)];
    assert_eq![Clamper16::MAX * 2, i16::MAX - 1];

    assert_eq![Clamper32::MIN, -1_073_741_824];
    assert_eq![Clamper32::MAX, 1_073_741_823];
    assert_eq![Clamper32::MIN, Clamper32::clamp(i32::MIN)];
    assert_eq![Clamper32::MAX, Clamper32::clamp(i32::MAX)];
    assert_eq![0, Clamper32::clamp_non_negative(i32::MIN)];
    assert_eq![Clamper32::MAX, Clamper32::clamp_non_negative(i32::MAX)];
    assert_eq![1, Clamper32::clamp_positive(i32::MIN)];
    assert_eq![Clamper32::MAX, Clamper32::clamp_positive(i32::MAX)];
    assert_eq![Clamper32::MAX * 2, i32::MAX - 1];

    assert_eq![Clamper64::MIN, -4_611_686_018_427_387_904];
    assert_eq![Clamper64::MAX, 4_611_686_018_427_387_903];
    assert_eq![Clamper64::MIN, Clamper64::clamp(i64::MIN)];
    assert_eq![Clamper64::MAX, Clamper64::clamp(i64::MAX)];
    assert_eq![0, Clamper64::clamp_non_negative(i64::MIN)];
    assert_eq![Clamper64::MAX, Clamper64::clamp_non_negative(i64::MAX)];
    assert_eq![1, Clamper64::clamp_positive(i64::MIN)];
    assert_eq![Clamper64::MAX, Clamper64::clamp_positive(i64::MAX)];
    assert_eq![Clamper64::MAX * 2, i64::MAX - 1];
}

#[test]
fn clamping_32() {
    /* i32 */

    assert_eq![99, C::clamp(99)];
    assert_eq![-99, C::clamp(-99)];
    assert_eq![C::MAX, C::clamp(i32::MAX)];
    assert_eq![C::MIN, C::clamp(i32::MIN)];
    //
    assert_eq![C::MAX, C::clamp_non_negative(i32::MAX)];
    assert_eq![0, C::clamp_non_negative(i32::MIN)];
    //
    assert_eq![C::MAX, C::clamp_positive(i32::MAX)];
    assert_eq![1, C::clamp_positive(i32::MIN)];

    /* from/to u32 */

    assert_eq![C::MAX, C::clamp_from_u32(u32::MAX)];
    assert_eq![0, C::clamp_from_u32(u32::MIN)];
    assert_eq![C::MAX, C::clamp_positive_from_u32(u32::MAX)];
    assert_eq![1, C::clamp_positive_from_u32(u32::MIN)];
    //
    assert_eq![C::MAX as u32, C::clamp_to_u32(i32::MAX)];
    assert_eq![0_u32, C::clamp_to_u32(i32::MIN)];
    assert_eq![C::MAX as u32, C::clamp_positive_to_u32(i32::MAX)];
    assert_eq![1_u32, C::clamp_positive_to_u32(i32::MIN)];

    /* from/to i16 */

    assert_eq![i16::MAX as i32, C::clamp_from_i16(i16::MAX)];
    assert_eq![i16::MIN as i32, C::clamp_from_i16(i16::MIN)];
    assert_eq![i16::MAX as i32, C::clamp_non_negative_from_i16(i16::MAX)];
    assert_eq![0_i32, C::clamp_non_negative_from_i16(i16::MIN)];
    assert_eq![i16::MAX as i32, C::clamp_positive_from_i16(i16::MAX)];
    assert_eq![1_i32, C::clamp_positive_from_i16(i16::MIN)];
    //
    assert_eq![i16::MAX, C::clamp_to_i16(i32::MAX)];
    assert_eq![i16::MIN, C::clamp_to_i16(i32::MIN)];
    assert_eq![i16::MAX, C::clamp_non_negative_to_i16(i32::MAX)];
    assert_eq![0_i16, C::clamp_non_negative_to_i16(i32::MIN)];
    assert_eq![i16::MAX, C::clamp_positive_to_i16(i32::MAX)];
    assert_eq![1_i16, C::clamp_positive_to_i16(i32::MIN)];

    /* from/to usize */
    assert_eq![C::MAX, C::clamp_from_usize(usize::MAX)];
    assert_eq![0, C::clamp_from_usize(usize::MIN)];
    assert_eq![C::MAX, C::clamp_positive_from_usize(usize::MAX)];
    assert_eq![1, C::clamp_positive_from_usize(usize::MIN)];
    //
    assert_eq![C::MAX as usize, C::clamp_to_usize(i32::MAX)];
    assert_eq![0_usize, C::clamp_to_usize(i32::MIN)];
    assert_eq![C::MAX as usize, C::clamp_positive_to_usize(i32::MAX)];
    assert_eq![1_usize, C::clamp_positive_to_usize(i32::MIN)];
}

#[test]
fn clamping_half_range_16() {
    assert_eq![16_383, Clamper16::clamp_from_i32(16_383)];
    assert_eq![Clamper16::MAX, Clamper16::clamp(20_000)];
    assert_eq![Clamper16::MIN, Clamper16::clamp(-20_000)];
    assert_eq![0, Clamper16::clamp_non_negative(-5)];
    assert_eq![1, Clamper16::clamp_positive(0)];
    assert_eq![Clamper16::MAX, Clamper16::clamp_from_u32(u32::MAX)];
    assert_eq![Clamper16::MAX, Clamper16::clamp_from_usize(usize::MAX)];
    assert_eq![Clamper16::MAX as u32, Clamper16::clamp_to_u32(i16::MAX)];
    assert_eq![Clamper16::MAX as usize, Clamper16::clamp_to_usize(i16::MAX)];
}

#[test]
fn clamping_64() {
    assert_eq![Clamper64::MAX, Clamper64::clamp_from_usize(usize::MAX)];
    assert_eq![1, Clamper64::clamp_positive_from_usize(0)];
    assert_eq![i32::MAX, Clamper64::clamp_to_i32(i64::MAX)];
    assert_eq![i32::MIN, Clamper64::clamp_to_i32(i64::MIN)];
    assert_eq![0, Clamper64::clamp_non_negative_to_i32(-7)];
    assert_eq![u32::MAX, Clamper64::clamp_to_u32(i64::MAX)];
    assert_eq![0_u32, Clamper64::clamp_to_u32(i64::MIN)];
    assert_eq![Clamper64::MAX as usize, Clamper64::clamp_to_usize(i64::MAX)];
    assert_eq![7_usize, Clamper64::clamp_to_usize(7)];
    assert_eq![65_535_u16, Clamper64::clamp_to_u16(i64::MAX)];
    assert_eq![0_u16, Clamper64::clamp_to_u16(-1)];
}

#[test]
fn saturating_cast_wrap_policy() {
    // a value representable in the narrower type passes unchanged
    assert_eq![100, Clamper8::clamp_from_i32(100)];
    assert_eq![-100, Clamper8::clamp_from_i32(-100)];
    // an overflowing value that wraps to a nonzero residue reports the
    // destination maximum, whatever its sign
    assert_eq![127, Clamper8::clamp_from_i32(200)];
    assert_eq![127, Clamper8::clamp_from_i32(-200)];
    // an overflowing multiple of the destination modulus wraps to zero and
    // reports the destination minimum, whatever its sign
    assert_eq![-128, Clamper8::clamp_from_i32(256)];
    assert_eq![-128, Clamper8::clamp_from_i32(-256)];
    assert_eq![-128, Clamper8::clamp_non_negative_from_i32(65_536)];
    // the same policy at 16 bits
    assert_eq![-32_768, Clamper16::clamp_from_i32(65_536)];
    assert_eq![32_767, Clamper16::clamp_from_i32(65_535)];
    assert_eq![-128, Clamper8::clamp_from_i16(256)];
    // and for the 64-bit clamper's unsigned exit
    assert_eq![0_u32, Clamper64::clamp_to_u32(0x1_0000_0000_i64)];
    assert_eq![u32::MAX, Clamper64::clamp_to_u32(0x1_0000_0001_i64)];
}

#[test]
fn narrow_to_u16_wraps_round_trip() {
    // u16::MAX converted into i8 or i16 wraps to -1 and converts back to
    // u16::MAX unchanged, so the narrow clampers' u16 bound is -1 and every
    // non-negative distance reports u16::MAX
    assert_eq![65_535_u16, Clamper8::clamp_to_u16(5)];
    assert_eq![0_u16, Clamper8::clamp_to_u16(-5)];
    assert_eq![1_u16, Clamper8::clamp_positive_to_u16(0)];
    assert_eq![65_535_u16, Clamper16::clamp_to_u16(5)];
    // the wide clampers bound the value into the full u16 range
    assert_eq![5_u16, Clamper32::clamp_to_u16(5)];
    assert_eq![65_535_u16, Clamper32::clamp_to_u16(100_000)];
    assert_eq![0_u16, Clamper32::clamp_to_u16(-1)];
}
