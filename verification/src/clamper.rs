use crate::cast::cast_i16_i8;
use crate::cast::cast_i32_i16;
use crate::cast::cast_i32_i8;
use crate::cast::cast_i64_u32;
use crate::cast::cast_i64_usize;
use crate::cast::clamped;
use crate::cast::narrowed;
use vstd::prelude::*;

verus! {

/// Clamps a distance to half the range of an [`i8`].
///
/// Values are bounded to `MIN..=MAX`, the middle half of the type's range,
/// leaving the outer quarters as safety margin for arithmetic; the
/// cross-width functions combine the bound with a saturating cast.
pub struct Clamper8;

impl Clamper8 {
    /// Minimum value for any layout dimension: half the type's minimum.
    pub const MIN: i8 = -64;

    /// Maximum value for any layout dimension: half the type's maximum.
    pub const MAX: i8 = 63;

    /// Clamps an [`i8`] distance to `MIN..=MAX`.
    pub fn clamp(d: i8) -> (r: i8)
        ensures
            r as int == clamped(d as int, Self::MIN as int, Self::MAX as int),
            Self::MIN <= r <= Self::MAX,
    {
        if d < Self::MIN {
            Self::MIN
        } else if d > Self::MAX {
            Self::MAX
        } else {
            d
        }
    }

    /// Clamps an [`i8`] distance to `0..=MAX`.
    pub fn clamp_non_negative(d: i8) -> (r: i8)
        ensures
            r as int == clamped(d as int, 0, Self::MAX as int),
            0 <= r <= Self::MAX,
    {
        if d < 0 {
            0
        } else if d > Self::MAX {
            Self::MAX
        } else {
            d
        }
    }

    /// Clamps an [`i8`] distance to `1..=MAX`; never returns zero.
    pub fn clamp_positive(d: i8) -> (r: i8)
        ensures
            r as int == clamped(d as int, 1, Self::MAX as int),
            1 <= r <= Self::MAX,
    {
        if d < 1 {
            1
        } else if d > Self::MAX {
            Self::MAX
        } else {
            d
        }
    }

    /// Saturating-casts an [`i32`] distance into [`i8`].
    pub fn clamp_from_i32(d: i32) -> (r: i8)
        ensures
            r as int == narrowed(d as int, -128, 127),
    {
        cast_i32_i8(d)
    }

    /// Saturating-casts a non-negative [`i32`] distance into [`i8`];
    /// a negative distance becomes zero.
    pub fn clamp_non_negative_from_i32(d: i32) -> (r: i8)
        ensures
            r as int == (if d < 0 { 0int } else { narrowed(d as int, -128, 127) }),
    {
        if d < 0 {
            0
        } else {
            cast_i32_i8(d)
        }
    }

    /// Saturating-casts a positive [`i32`] distance into [`i8`];
    /// a distance below one becomes one.
    pub fn clamp_positive_from_i32(d: i32) -> (r: i8)
        ensures
            r as int == (if d < 1 { 1int } else { narrowed(d as int, -128, 127) }),
    {
        if d < 1 {
            1
        } else {
            cast_i32_i8(d)
        }
    }

    /// Converts an [`i8`] distance to [`i32`]; every value fits.
    pub fn clamp_to_i32(d: i8) -> (r: i32)
        ensures
            r as int == d as int,
    {
        d as i32
    }

    /// Converts an [`i8`] distance to a non-negative [`i32`]; a negative
    /// distance becomes zero.
    pub fn clamp_non_negative_to_i32(d: i8) -> (r: i32)
        ensures
            r as int == (if d < 0 { 0int } else { d as int }),
    {
        if d < 0 {
            0
        } else {
            d as i32
        }
    }

    /// Converts an [`i8`] distance to a positive [`i32`]; a distance below
    /// one becomes one.
    pub fn clamp_positive_to_i32(d: i8) -> (r: i32)
        ensures
            r as int == (if d < 1 { 1int } else { d as int }),
    {
        if d < 1 {
            1
        } else {
            d as i32
        }
    }

    /// Clamps a [`u32`] distance to `0..=MAX` of [`i8`].
    pub fn clamp_from_u32(d: u32) -> (r: i8)
        ensures
            r as int == clamped(d as int, 0, Self::MAX as int),
    {
        if d > Self::MAX as u32 {
            Self::MAX
        } else {
            d as i8
        }
    }

    /// Clamps a [`u32`] distance to `1..=MAX` of [`i8`].
    pub fn clamp_positive_from_u32(d: u32) -> (r: i8)
        ensures
            r as int == clamped(d as int, 1, Self::MAX as int),
    {
        if d == 0 {
            1
        } else if d > Self::MAX as u32 {
            Self::MAX
        } else {
            d as i8
        }
    }

    /// Clamps an [`i8`] distance to `0..=MAX` and returns it as [`u32`].
    pub fn clamp_to_u32(d: i8) -> (r: u32)
        ensures
            r as int == clamped(d as int, 0, Self::MAX as int),
    {
        Self::clamp_non_negative(d) as u32
    }

    /// Clamps an [`i8`] distance to `1..=MAX` and returns it as [`u32`].
    pub fn clamp_positive_to_u32(d: i8) -> (r: u32)
        ensures
            r as int == clamped(d as int, 1, Self::MAX as int),
    {
        Self::clamp_positive(d) as u32
    }

    /// Clamps a [`u16`] distance to `0..=MAX` of [`i8`].
    pub fn clamp_from_u16(d: u16) -> (r: i8)
        ensures
            r as int == clamped(d as int, 0, Self::MAX as int),
    {
        if d > Self::MAX as u16 {
            Self::MAX
        } else {
            d as i8
        }
    }

    /// Clamps a [`u16`] distance to `1..=MAX` of [`i8`].
    pub fn clamp_positive_from_u16(d: u16) -> (r: i8)
        ensures
            r as int == clamped(d as int, 1, Self::MAX as int),
    {
        if d == 0 {
            1
        } else if d > Self::MAX as u16 {
            Self::MAX
        } else {
            d as i8
        }
    }

    /// Returns an [`i8`] distance as [`u16`]: zero when negative, else
    /// [`u16::MAX`], the wrapped round-trip bound of this narrow width.
    pub fn clamp_to_u16(d: i8) -> (r: u16)
        ensures
            r as int == (if d < 0 { 0int } else { 65535int }),
    {
        if d < 0 {
            0
        } else {
            u16::MAX
        }
    }

    /// Returns an [`i8`] distance as [`u16`]: one when below one, else
    /// [`u16::MAX`], the wrapped round-trip bound of this narrow width.
    pub fn clamp_positive_to_u16(d: i8) -> (r: u16)
        ensures
            r as int == (if d < 1 { 1int } else { 65535int }),
    {
        if d < 1 {
            1
        } else {
            u16::MAX
        }
    }

    /// Saturating-casts an [`i16`] distance into [`i8`].
    pub fn clamp_from_i16(d: i16) -> (r: i8)
        ensures
            r as int == narrowed(d as int, -128, 127),
    {
        cast_i16_i8(d)
    }

    /// Saturating-casts a non-negative [`i16`] distance into [`i8`];
    /// a negative distance becomes zero.
    pub fn clamp_non_negative_from_i16(d: i16) -> (r: i8)
        ensures
            r as int == (if d < 0 { 0int } else { narrowed(d as int, -128, 127) }),
    {
        if d < 0 {
            0
        } else {
            cast_i16_i8(d)
        }
    }

    /// Saturating-casts a positive [`i16`] distance into [`i8`];
    /// a distance below one becomes one.
    pub fn clamp_positive_from_i16(d: i16) -> (r: i8)
        ensures
            r as int == (if d < 1 { 1int } else { narrowed(d as int, -128, 127) }),
    {
        if d < 1 {
            1
        } else {
            cast_i16_i8(d)
        }
    }

    /// Converts an [`i8`] distance to [`i16`]; every value fits.
    pub fn clamp_to_i16(d: i8) -> (r: i16)
        ensures
            r as int == d as int,
    {
        d as i16
    }

    /// Converts an [`i8`] distance to a non-negative [`i16`]; a negative
    /// distance becomes zero.
    pub fn clamp_non_negative_to_i16(d: i8) -> (r: i16)
        ensures
            r as int == (if d < 0 { 0int } else { d as int }),
    {
        if d < 0 {
            0
        } else {
            d as i16
        }
    }

    /// Converts an [`i8`] distance to a positive [`i16`]; a distance below
    /// one becomes one.
    pub fn clamp_positive_to_i16(d: i8) -> (r: i16)
        ensures
            r as int == (if d < 1 { 1int } else { d as int }),
    {
        if d < 1 {
            1
        } else {
            d as i16
        }
    }

    /// Clamps a [`usize`] distance to `0..=MAX` of [`i8`].
    pub fn clamp_from_usize(d: usize) -> (r: i8)
        ensures
            r as int == clamped(d as int, 0, Self::MAX as int),
    {
        if d > Self::MAX as usize {
            Self::MAX
        } else {
            d as i8
        }
    }

    /// Clamps a [`usize`] distance to `1..=MAX` of [`i8`].
    pub fn clamp_positive_from_usize(d: usize) -> (r: i8)
        ensures
            r as int == clamped(d as int, 1, Self::MAX as int),
    {
        if d == 0 {
            1
        } else if d > Self::MAX as usize {
            Self::MAX
        } else {
            d as i8
        }
    }

    /// Clamps an [`i8`] distance to `0..=MAX` and returns it as [`usize`].
    pub fn clamp_to_usize(d: i8) -> (r: usize)
        ensures
            r as int == clamped(d as int, 0, Self::MAX as int),
    {
        Self::clamp_non_negative(d) as usize
    }

    /// Clamps an [`i8`] distance to `1..=MAX` and returns it as [`usize`].
    pub fn clamp_positive_to_usize(d: i8) -> (r: usize)
        ensures
            r as int == clamped(d as int, 1, Self::MAX as int),
    {
        Self::clamp_positive(d) as usize
    }
}

/// Clamps a distance to half the range of an [`i16`].
///
/// Values are bounded to `MIN..=MAX`, the middle half of the type's range,
/// leaving the outer quarters as safety margin for arithmetic; the
/// cross-width functions combine the bound with a saturating cast.
pub struct Clamper16;

impl Clamper16 {
    /// Minimum value for any layout dimension: half the type's minimum.
    pub const MIN: i16 = -16_384;

    /// Maximum value for any layout dimension: half the type's maximum.
    pub const MAX: i16 = 16_383;

    /// Clamps an [`i16`] distance to `MIN..=MAX`.
    pub fn clamp(d: i16) -> (r: i16)
        ensures
            r as int == clamped(d as int, Self::MIN as int, Self::MAX as int),
            Self::MIN <= r <= Self::MAX,
    {
        if d < Self::MIN {
            Self::MIN
        } else if d > Self::MAX {
            Self::MAX
        } else {
            d
        }
    }

    /// Clamps an [`i16`] distance to `0..=MAX`.
    pub fn clamp_non_negative(d: i16) -> (r: i16)
        ensures
            r as int == clamped(d as int, 0, Self::MAX as int),
            0 <= r <= Self::MAX,
    {
        if d < 0 {
            0
        } else if d > Self::MAX {
            Self::MAX
        } else {
            d
        }
    }

    /// Clamps an [`i16`] distance to `1..=MAX`; never returns zero.
    pub fn clamp_positive(d: i16) -> (r: i16)
        ensures
            r as int == clamped(d as int, 1, Self::MAX as int),
            1 <= r <= Self::MAX,
    {
        if d < 1 {
            1
        } else if d > Self::MAX {
            Self::MAX
        } else {
            d
        }
    }

    /// Saturating-casts an [`i32`] distance into [`i16`].
    pub fn clamp_from_i32(d: i32) -> (r: i16)
        ensures
            r as int == narrowed(d as int, -32768, 32767),
    {
        cast_i32_i16(d)
    }

    /// Saturating-casts a non-negative [`i32`] distance into [`i16`];
    /// a negative distance becomes zero.
    pub fn clamp_non_negative_from_i32(d: i32) -> (r: i16)
        ensures
            r as int == (if d < 0 { 0int } else { narrowed(d as int, -32768, 32767) }),
    {
        if d < 0 {
            0
        } else {
            cast_i32_i16(d)
        }
    }

    /// Saturating-casts a positive [`i32`] distance into [`i16`];
    /// a distance below one becomes one.
    pub fn clamp_positive_from_i32(d: i32) -> (r: i16)
        ensures
            r as int == (if d < 1 { 1int } else { narrowed(d as int, -32768, 32767) }),
    {
        if d < 1 {
            1
        } else {
            cast_i32_i16(d)
        }
    }

    /// Converts an [`i16`] distance to [`i32`]; every value fits.
    pub fn clamp_to_i32(d: i16) -> (r: i32)
        ensures
            r as int == d as int,
    {
        d as i32
    }

    /// Converts an [`i16`] distance to a non-negative [`i32`]; a negative
    /// distance becomes zero.
    pub fn clamp_non_negative_to_i32(d: i16) -> (r: i32)
        ensures
            r as int == (if d < 0 { 0int } else { d as int }),
    {
        if d < 0 {
            0
        } else {
            d as i32
        }
    }

    /// Converts an [`i16`] distance to a positive [`i32`]; a distance below
    /// one becomes one.
    pub fn clamp_positive_to_i32(d: i16) -> (r: i32)
        ensures
            r as int == (if d < 1 { 1int } else { d as int }),
    {
        if d < 1 {
            1
        } else {
            d as i32
        }
    }

    /// Clamps a [`u32`] distance to `0..=MAX` of [`i16`].
    pub fn clamp_from_u32(d: u32) -> (r: i16)
        ensures
            r as int == clamped(d as int, 0, Self::MAX as int),
    {
        if d > Self::MAX as u32 {
            Self::MAX
        } else {
            d as i16
        }
    }

    /// Clamps a [`u32`] distance to `1..=MAX` of [`i16`].
    pub fn clamp_positive_from_u32(d: u32) -> (r: i16)
        ensures
            r as int == clamped(d as int, 1, Self::MAX as int),
    {
        if d == 0 {
            1
        } else if d > Self::MAX as u32 {
            Self::MAX
        } else {
            d as i16
        }
    }

    /// Clamps an [`i16`] distance to `0..=MAX` and returns it as [`u32`].
    pub fn clamp_to_u32(d: i16) -> (r: u32)
        ensures
            r as int == clamped(d as int, 0, Self::MAX as int),
    {
        Self::clamp_non_negative(d) as u32
    }

    /// Clamps an [`i16`] distance to `1..=MAX` and returns it as [`u32`].
    pub fn clamp_positive_to_u32(d: i16) -> (r: u32)
        ensures
            r as int == clamped(d as int, 1, Self::MAX as int),
    {
        Self::clamp_positive(d) as u32
    }

    /// Clamps a [`u16`] distance to `0..=MAX` of [`i16`].
    pub fn clamp_from_u16(d: u16) -> (r: i16)
        ensures
            r as int == clamped(d as int, 0, Self::MAX as int),
    {
        if d > Self::MAX as u16 {
            Self::MAX
        } else {
            d as i16
        }
    }

    /// Clamps a [`u16`] distance to `1..=MAX` of [`i16`].
    pub fn clamp_positive_from_u16(d: u16) -> (r: i16)
        ensures
            r as int == clamped(d as int, 1, Self::MAX as int),
    {
        if d == 0 {
            1
        } else if d > Self::MAX as u16 {
            Self::MAX
        } else {
            d as i16
        }
    }

    /// Returns an [`i16`] distance as [`u16`]: zero when negative, else
    /// [`u16::MAX`], the wrapped round-trip bound of this narrow width.
    pub fn clamp_to_u16(d: i16) -> (r: u16)
        ensures
            r as int == (if d < 0 { 0int } else { 65535int }),
    {
        if d < 0 {
            0
        } else {
            u16::MAX
        }
    }

    /// Returns an [`i16`] distance as [`u16`]: one when below one, else
    /// [`u16::MAX`], the wrapped round-trip bound of this narrow width.
    pub fn clamp_positive_to_u16(d: i16) -> (r: u16)
        ensures
            r as int == (if d < 1 { 1int } else { 65535int }),
    {
        if d < 1 {
            1
        } else {
            u16::MAX
        }
    }

    /// Converts an [`i16`] distance into [`i16`]; every value fits.
    pub fn clamp_from_i16(d: i16) -> (r: i16)
        ensures
            r as int == d as int,
    {
        d as i16
    }

    /// Converts a non-negative [`i16`] distance into [`i16`]; a negative
    /// distance becomes zero.
    pub fn clamp_non_negative_from_i16(d: i16) -> (r: i16)
        ensures
            r as int == (if d < 0 { 0int } else { d as int }),
    {
        if d < 0 {
            0
        } else {
            d as i16
        }
    }

    /// Converts a positive [`i16`] distance into [`i16`]; a distance below
    /// one becomes one.
    pub fn clamp_positive_from_i16(d: i16) -> (r: i16)
        ensures
            r as int == (if d < 1 { 1int } else { d as int }),
    {
        if d < 1 {
            1
        } else {
            d as i16
        }
    }

    /// Converts an [`i16`] distance to [`i16`]; every value fits.
    pub fn clamp_to_i16(d: i16) -> (r: i16)
        ensures
            r as int == d as int,
    {
        d as i16
    }

    /// Converts an [`i16`] distance to a non-negative [`i16`]; a negative
    /// distance becomes zero.
    pub fn clamp_non_negative_to_i16(d: i16) -> (r: i16)
        ensures
            r as int == (if d < 0 { 0int } else { d as int }),
    {
        if d < 0 {
            0
        } else {
            d as i16
        }
    }

    /// Converts an [`i16`] distance to a positive [`i16`]; a distance below
    /// one becomes one.
    pub fn clamp_positive_to_i16(d: i16) -> (r: i16)
        ensures
            r as int == (if d < 1 { 1int } else { d as int }),
    {
        if d < 1 {
            1
        } else {
            d as i16
        }
    }

    /// Clamps a [`usize`] distance to `0..=MAX` of [`i16`].
    pub fn clamp_from_usize(d: usize) -> (r: i16)
        ensures
            r as int == clamped(d as int, 0, Self::MAX as int),
    {
        if d > Self::MAX as usize {
            Self::MAX
        } else {
            d as i16
        }
    }

    /// Clamps a [`usize`] distance to `1..=MAX` of [`i16`].
    pub fn clamp_positive_from_usize(d: usize) -> (r: i16)
        ensures
            r as int == clamped(d as int, 1, Self::MAX as int),
    {
        if d == 0 {
            1
        } else if d > Self::MAX as usize {
            Self::MAX
        } else {
            d as i16
        }
    }

    /// Clamps an [`i16`] distance to `0..=MAX` and returns it as [`usize`].
    pub fn clamp_to_usize(d: i16) -> (r: usize)
        ensures
            r as int == clamped(d as int, 0, Self::MAX as int),
    {
        Self::clamp_non_negative(d) as usize
    }

    /// Clamps an [`i16`] distance to `1..=MAX` and returns it as [`usize`].
    pub fn clamp_positive_to_usize(d: i16) -> (r: usize)
        ensures
            r as int == clamped(d as int, 1, Self::MAX as int),
    {
        Self::clamp_positive(d) as usize
    }
}

/// Clamps a distance to half the range of an [`i32`].
///
/// Values are bounded to `MIN..=MAX`, the middle half of the type's range,
/// leaving the outer quarters as safety margin for arithmetic; the
/// cross-width functions combine the bound with a saturating cast.
pub struct Clamper32;

impl Clamper32 {
    /// Minimum value for any layout dimension: half the type's minimum.
    pub const MIN: i32 = -1_073_741_824;

    /// Maximum value for any layout dimension: half the type's maximum.
    pub const MAX: i32 = 1_073_741_823;

    /// Clamps an [`i32`] distance to `MIN..=MAX`.
    pub fn clamp(d: i32) -> (r: i32)
        ensures
            r as int == clamped(d as int, Self::MIN as int, Self::MAX as int),
            Self::MIN <= r <= Self::MAX,
    {
        if d < Self::MIN {
            Self::MIN
        } else if d > Self::MAX {
            Self::MAX
        } else {
            d
        }
    }

    /// Clamps an [`i32`] distance to `0..=MAX`.
    pub fn clamp_non_negative(d: i32) -> (r: i32)
        ensures
            r as int == clamped(d as int, 0, Self::MAX as int),
            0 <= r <= Self::MAX,
    {
        if d < 0 {
            0
        } else if d > Self::MAX {
            Self::MAX
        } else {
            d
        }
    }

    /// Clamps an [`i32`] distance to `1..=MAX`; never returns zero.
    pub fn clamp_positive(d: i32) -> (r: i32)
        ensures
            r as int == clamped(d as int, 1, Self::MAX as int),
            1 <= r <= Self::MAX,
    {
        if d < 1 {
            1
        } else if d > Self::MAX {
            Self::MAX
        } else {
            d
        }
    }

    /// Converts an [`i32`] distance into [`i32`]; every value fits.
    pub fn clamp_from_i32(d: i32) -> (r: i32)
        ensures
            r as int == d as int,
    {
        d as i32
    }

    /// Converts a non-negative [`i32`] distance into [`i32`]; a negative
    /// distance becomes zero.
    pub fn clamp_non_negative_from_i32(d: i32) -> (r: i32)
        ensures
            r as int == (if d < 0 { 0int } else { d as int }),
    {
        if d < 0 {
            0
        } else {
            d as i32
        }
    }

    /// Converts a positive [`i32`] distance into [`i32`]; a distance below
    /// one becomes one.
    pub fn clamp_positive_from_i32(d: i32) -> (r: i32)
        ensures
            r as int == (if d < 1 { 1int } else { d as int }),
    {
        if d < 1 {
            1
        } else {
            d as i32
        }
    }

    /// Converts an [`i32`] distance to [`i32`]; every value fits.
    pub fn clamp_to_i32(d: i32) -> (r: i32)
        ensures
            r as int == d as int,
    {
        d as i32
    }

    /// Converts an [`i32`] distance to a non-negative [`i32`]; a negative
    /// distance becomes zero.
    pub fn clamp_non_negative_to_i32(d: i32) -> (r: i32)
        ensures
            r as int == (if d < 0 { 0int } else { d as int }),
    {
        if d < 0 {
            0
        } else {
            d as i32
        }
    }

    /// Converts an [`i32`] distance to a positive [`i32`]; a distance below
    /// one becomes one.
    pub fn clamp_positive_to_i32(d: i32) -> (r: i32)
        ensures
            r as int == (if d < 1 { 1int } else { d as int }),
    {
        if d < 1 {
            1
        } else {
            d as i32
        }
    }

    /// Clamps a [`u32`] distance to `0..=MAX` of [`i32`].
    pub fn clamp_from_u32(d: u32) -> (r: i32)
        ensures
            r as int == clamped(d as int, 0, Self::MAX as int),
    {
        if d > Self::MAX as u32 {
            Self::MAX
        } else {
            d as i32
        }
    }

    /// Clamps a [`u32`] distance to `1..=MAX` of [`i32`].
    pub fn clamp_positive_from_u32(d: u32) -> (r: i32)
        ensures
            r as int == clamped(d as int, 1, Self::MAX as int),
    {
        if d == 0 {
            1
        } else if d > Self::MAX as u32 {
            Self::MAX
        } else {
            d as i32
        }
    }

    /// Clamps an [`i32`] distance to `0..=MAX` and returns it as [`u32`].
    pub fn clamp_to_u32(d: i32) -> (r: u32)
        ensures
            r as int == clamped(d as int, 0, Self::MAX as int),
    {
        Self::clamp_non_negative(d) as u32
    }

    /// Clamps an [`i32`] distance to `1..=MAX` and returns it as [`u32`].
    pub fn clamp_positive_to_u32(d: i32) -> (r: u32)
        ensures
            r as int == clamped(d as int, 1, Self::MAX as int),
    {
        Self::clamp_positive(d) as u32
    }

    /// Converts a [`u16`] distance into [`i32`]; every value fits.
    pub fn clamp_from_u16(d: u16) -> (r: i32)
        ensures
            r as int == d as int,
    {
        d as i32
    }

    /// Converts a positive [`u16`] distance into [`i32`]; zero becomes one.
    pub fn clamp_positive_from_u16(d: u16) -> (r: i32)
        ensures
            r as int == (if d == 0 { 1int } else { d as int }),
    {
        if d == 0 {
            1
        } else {
            d as i32
        }
    }

    /// Clamps an [`i32`] distance to the full [`u16`] range.
    pub fn clamp_to_u16(d: i32) -> (r: u16)
        ensures
            r as int == clamped(d as int, 0, 65535),
    {
        if d < 0 {
            0
        } else if d > u16::MAX as i32 {
            u16::MAX
        } else {
            d as u16
        }
    }

    /// Clamps an [`i32`] distance to `1..=u16::MAX`.
    pub fn clamp_positive_to_u16(d: i32) -> (r: u16)
        ensures
            r as int == clamped(d as int, 1, 65535),
    {
        if d < 1 {
            1
        } else if d > u16::MAX as i32 {
            u16::MAX
        } else {
            d as u16
        }
    }

    /// Converts an [`i16`] distance into [`i32`]; every value fits.
    pub fn clamp_from_i16(d: i16) -> (r: i32)
        ensures
            r as int == d as int,
    {
        d as i32
    }

    /// Converts a non-negative [`i16`] distance into [`i32`]; a negative
    /// distance becomes zero.
    pub fn clamp_non_negative_from_i16(d: i16) -> (r: i32)
        ensures
            r as int == (if d < 0 { 0int } else { d as int }),
    {
        if d < 0 {
            0
        } else {
            d as i32
        }
    }

    /// Converts a positive [`i16`] distance into [`i32`]; a distance below
    /// one becomes one.
    pub fn clamp_positive_from_i16(d: i16) -> (r: i32)
        ensures
            r as int == (if d < 1 { 1int } else { d as int }),
    {
        if d < 1 {
            1
        } else {
            d as i32
        }
    }

    /// Clamps an [`i32`] distance to the full [`i16`] range.
    pub fn clamp_to_i16(d: i32) -> (r: i16)
        ensures
            r as int == clamped(d as int, -32768, 32767),
    {
        if d < i16::MIN as i32 {
            i16::MIN
        } else if d > i16::MAX as i32 {
            i16::MAX
        } else {
            d as i16
        }
    }

    /// Clamps an [`i32`] distance to `0..=i16::MAX`.
    pub fn clamp_non_negative_to_i16(d: i32) -> (r: i16)
        ensures
            r as int == clamped(d as int, 0, 32767),
    {
        if d < 0 {
            0
        } else if d > i16::MAX as i32 {
            i16::MAX
        } else {
            d as i16
        }
    }

    /// Clamps an [`i32`] distance to `1..=i16::MAX`.
    pub fn clamp_positive_to_i16(d: i32) -> (r: i16)
        ensures
            r as int == clamped(d as int, 1, 32767),
    {
        if d < 1 {
            1
        } else if d > i16::MAX as i32 {
            i16::MAX
        } else {
            d as i16
        }
    }

    /// Clamps a [`usize`] distance to `0..=MAX` of [`i32`].
    pub fn clamp_from_usize(d: usize) -> (r: i32)
        ensures
            r as int == clamped(d as int, 0, Self::MAX as int),
    {
        if d > Self::MAX as usize {
            Self::MAX
        } else {
            d as i32
        }
    }

    /// Clamps a [`usize`] distance to `1..=MAX` of [`i32`].
    pub fn clamp_positive_from_usize(d: usize) -> (r: i32)
        ensures
            r as int == clamped(d as int, 1, Self::MAX as int),
    {
        if d == 0 {
            1
        } else if d > Self::MAX as usize {
            Self::MAX
        } else {
            d as i32
        }
    }

    /// Clamps an [`i32`] distance to `0..=MAX` and returns it as [`usize`].
    pub fn clamp_to_usize(d: i32) -> (r: usize)
        ensures
            r as int == clamped(d as int, 0, Self::MAX as int),
    {
        Self::clamp_non_negative(d) as usize
    }

    /// Clamps an [`i32`] distance to `1..=MAX` and returns it as [`usize`].
    pub fn clamp_positive_to_usize(d: i32) -> (r: usize)
        ensures
            r as int == clamped(d as int, 1, Self::MAX as int),
    {
        Self::clamp_positive(d) as usize
    }
}

/// Clamps a distance to half the range of an [`i64`].
///
/// Values are bounded to `MIN..=MAX`, the middle half of the type's range,
/// leaving the outer quarters as safety margin for arithmetic; the
/// cross-width functions combine the bound with a saturating cast.
pub struct Clamper64;

impl Clamper64 {
    /// Minimum value for any layout dimension: half the type's minimum.
    pub const MIN: i64 = -4_611_686_018_427_387_904;

    /// Maximum value for any layout dimension: half the type's maximum.
    pub const MAX: i64 = 4_611_686_018_427_387_903;

    /// Clamps an [`i64`] distance to `MIN..=MAX`.
    pub fn clamp(d: i64) -> (r: i64)
        ensures
            r as int == clamped(d as int, Self::MIN as int, Self::MAX as int),
            Self::MIN <= r <= Self::MAX,
    {
        if d < Self::MIN {
            Self::MIN
        } else if d > Self::MAX {
            Self::MAX
        } else {
            d
        }
    }

    /// Clamps an [`i64`] distance to `0..=MAX`.
    pub fn clamp_non_negative(d: i64) -> (r: i64)
        ensures
            r as int == clamped(d as int, 0, Self::MAX as int),
            0 <= r <= Self::MAX,
    {
        if d < 0 {
            0
        } else if d > Self::MAX {
            Self::MAX
        } else {
            d
        }
    }

    /// Clamps an [`i64`] distance to `1..=MAX`; never returns zero.
    pub fn clamp_positive(d: i64) -> (r: i64)
        ensures
            r as int == clamped(d as int, 1, Self::MAX as int),
            1 <= r <= Self::MAX,
    {
        if d < 1 {
            1
        } else if d > Self::MAX {
            Self::MAX
        } else {
            d
        }
    }

    /// Converts an [`i32`] distance into [`i64`]; every value fits.
    pub fn clamp_from_i32(d: i32) -> (r: i64)
        ensures
            r as int == d as int,
    {
        d as i64
    }

    /// Converts a non-negative [`i32`] distance into [`i64`]; a negative
    /// distance becomes zero.
    pub fn clamp_non_negative_from_i32(d: i32) -> (r: i64)
        ensures
            r as int == (if d < 0 { 0int } else { d as int }),
    {
        if d < 0 {
            0
        } else {
            d as i64
        }
    }

    /// Converts a positive [`i32`] distance into [`i64`]; a distance below
    /// one becomes one.
    pub fn clamp_positive_from_i32(d: i32) -> (r: i64)
        ensures
            r as int == (if d < 1 { 1int } else { d as int }),
    {
        if d < 1 {
            1
        } else {
            d as i64
        }
    }

    /// Clamps an [`i64`] distance to the full [`i32`] range.
    pub fn clamp_to_i32(d: i64) -> (r: i32)
        ensures
            r as int == clamped(d as int, i32::MIN as int, i32::MAX as int),
    {
        if d < i32::MIN as i64 {
            i32::MIN
        } else if d > i32::MAX as i64 {
            i32::MAX
        } else {
            d as i32
        }
    }

    /// Clamps an [`i64`] distance to `0..=i32::MAX`.
    pub fn clamp_non_negative_to_i32(d: i64) -> (r: i32)
        ensures
            r as int == clamped(d as int, 0, i32::MAX as int),
    {
        if d < 0 {
            0
        } else if d > i32::MAX as i64 {
            i32::MAX
        } else {
            d as i32
        }
    }

    /// Clamps an [`i64`] distance to `1..=i32::MAX`.
    pub fn clamp_positive_to_i32(d: i64) -> (r: i32)
        ensures
            r as int == clamped(d as int, 1, i32::MAX as int),
    {
        if d < 1 {
            1
        } else if d > i32::MAX as i64 {
            i32::MAX
        } else {
            d as i32
        }
    }

    /// Converts a [`u32`] distance into [`i64`]; every value fits.
    pub fn clamp_from_u32(d: u32) -> (r: i64)
        ensures
            r as int == d as int,
    {
        d as i64
    }

    /// Converts a positive [`u32`] distance into [`i64`]; zero becomes one.
    pub fn clamp_positive_from_u32(d: u32) -> (r: i64)
        ensures
            r as int == (if d == 0 { 1int } else { d as int }),
    {
        if d == 0 {
            1
        } else {
            d as i64
        }
    }

    /// Clamps an [`i64`] distance to `0..=MAX`, then saturating-casts the
    /// result into [`u32`].
    pub fn clamp_to_u32(d: i64) -> (r: u32)
        ensures
            r as int == narrowed(clamped(d as int, 0, Self::MAX as int), 0, 0xFFFF_FFFF),
    {
        cast_i64_u32(Self::clamp_non_negative(d))
    }

    /// Clamps an [`i64`] distance to `1..=MAX`, then saturating-casts the
    /// result into [`u32`].
    pub fn clamp_positive_to_u32(d: i64) -> (r: u32)
        ensures
            r as int == narrowed(clamped(d as int, 1, Self::MAX as int), 0, 0xFFFF_FFFF),
    {
        cast_i64_u32(Self::clamp_positive(d))
    }

    /// Converts a [`u16`] distance into [`i64`]; every value fits.
    pub fn clamp_from_u16(d: u16) -> (r: i64)
        ensures
            r as int == d as int,
    {
        d as i64
    }

    /// Converts a positive [`u16`] distance into [`i64`]; zero becomes one.
    pub fn clamp_positive_from_u16(d: u16) -> (r: i64)
        ensures
            r as int == (if d == 0 { 1int } else { d as int }),
    {
        if d == 0 {
            1
        } else {
            d as i64
        }
    }

    /// Clamps an [`i64`] distance to the full [`u16`] range.
    pub fn clamp_to_u16(d: i64) -> (r: u16)
        ensures
            r as int == clamped(d as int, 0, 65535),
    {
        if d < 0 {
            0
        } else if d > u16::MAX as i64 {
            u16::MAX
        } else {
            d as u16
        }
    }

    /// Clamps an [`i64`] distance to `1..=u16::MAX`.
    pub fn clamp_positive_to_u16(d: i64) -> (r: u16)
        ensures
            r as int == clamped(d as int, 1, 65535),
    {
        if d < 1 {
            1
        } else if d > u16::MAX as i64 {
            u16::MAX
        } else {
            d as u16
        }
    }

    /// Converts an [`i16`] distance into [`i64`]; every value fits.
    pub fn clamp_from_i16(d: i16) -> (r: i64)
        ensures
            r as int == d as int,
    {
        d as i64
    }

    /// Converts a non-negative [`i16`] distance into [`i64`]; a negative
    /// distance becomes zero.
    pub fn clamp_non_negative_from_i16(d: i16) -> (r: i64)
        ensures
            r as int == (if d < 0 { 0int } else { d as int }),
    {
        if d < 0 {
            0
        } else {
            d as i64
        }
    }

    /// Converts a positive [`i16`] distance into [`i64`]; a distance below
    /// one becomes one.
    pub fn clamp_positive_from_i16(d: i16) -> (r: i64)
        ensures
            r as int == (if d < 1 { 1int } else { d as int }),
    {
        if d < 1 {
            1
        } else {
            d as i64
        }
    }

    /// Clamps an [`i64`] distance to the full [`i16`] range.
    pub fn clamp_to_i16(d: i64) -> (r: i16)
        ensures
            r as int == clamped(d as int, -32768, 32767),
    {
        if d < i16::MIN as i64 {
            i16::MIN
        } else if d > i16::MAX as i64 {
            i16::MAX
        } else {
            d as i16
        }
    }

    /// Clamps an [`i64`] distance to `0..=i16::MAX`.
    pub fn clamp_non_negative_to_i16(d: i64) -> (r: i16)
        ensures
            r as int == clamped(d as int, 0, 32767),
    {
        if d < 0 {
            0
        } else if d > i16::MAX as i64 {
            i16::MAX
        } else {
            d as i16
        }
    }

    /// Clamps an [`i64`] distance to `1..=i16::MAX`.
    pub fn clamp_positive_to_i16(d: i64) -> (r: i16)
        ensures
            r as int == clamped(d as int, 1, 32767),
    {
        if d < 1 {
            1
        } else if d > i16::MAX as i64 {
            i16::MAX
        } else {
            d as i16
        }
    }

    /// Clamps a [`usize`] distance to `0..=MAX` of [`i64`]; on a 32-bit
    /// word every value already fits.
    pub fn clamp_from_usize(d: usize) -> (r: i64)
        ensures
            r as int == clamped(d as int, 0, Self::MAX as int),
    {
        let bound = cast_i64_usize(Self::MAX);
        if d > bound {
            Self::MAX
        } else {
            d as i64
        }
    }

    /// Clamps a [`usize`] distance to `1..=MAX` of [`i64`]; on a 32-bit
    /// word every positive value already fits.
    pub fn clamp_positive_from_usize(d: usize) -> (r: i64)
        ensures
            r as int == clamped(d as int, 1, Self::MAX as int),
    {
        let bound = cast_i64_usize(Self::MAX);
        if d == 0 {
            1
        } else if d > bound {
            Self::MAX
        } else {
            d as i64
        }
    }

    /// Clamps an [`i64`] distance to `0..=MAX`, then saturating-casts the
    /// result into [`usize`].
    pub fn clamp_to_usize(d: i64) -> (r: usize)
        ensures
            r as int == narrowed(clamped(d as int, 0, Self::MAX as int), 0, usize::MAX as int),
    {
        cast_i64_usize(Self::clamp_non_negative(d))
    }

    /// Clamps an [`i64`] distance to `1..=MAX`, then saturating-casts the
    /// result into [`usize`].
    pub fn clamp_positive_to_usize(d: i64) -> (r: usize)
        ensures
            r as int == narrowed(clamped(d as int, 1, Self::MAX as int), 0, usize::MAX as int),
    {
        cast_i64_usize(Self::clamp_positive(d))
    }
}


/// Half-range invariant: each clamper's maximum doubled is one short of its
/// type's maximum (halving an odd-width range leaves exactly one value
/// unused), and each minimum is exactly half the type's minimum.
pub proof fn lemma_half_range()
    ensures
        Clamper8::MAX * 2 == i8::MAX - 1,
        Clamper8::MIN == i8::MIN / 2,
        Clamper8::MAX == i8::MAX / 2,
        Clamper16::MAX * 2 == i16::MAX - 1,
        Clamper16::MIN == i16::MIN / 2,
        Clamper16::MAX == i16::MAX / 2,
        Clamper32::MAX * 2 == i32::MAX - 1,
        Clamper32::MIN == i32::MIN / 2,
        Clamper32::MAX == i32::MAX / 2,
        Clamper64::MAX * 2 == i64::MAX - 1,
        Clamper64::MIN == i64::MIN / 2,
        Clamper64::MAX == i64::MAX / 2,
{
}

} // verus!
