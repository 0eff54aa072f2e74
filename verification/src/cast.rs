use vstd::arithmetic::div_mod::lemma_fundamental_div_mod;
use vstd::arithmetic::div_mod::lemma_fundamental_div_mod_converse;
use vstd::prelude::*;

verus! {

/// The unique integer in `[lo, lo + m)` congruent to `v` modulo `m`: the
/// value that converting `v` into an integer type with minimum `lo` and `m`
/// representable values produces, wrapping around on overflow.
pub open spec fn wrap_to_range(v: int, lo: int, m: int) -> int {
    lo + ((v - lo) % m)
}

/// The saturating cast from a source integer type (minimum `lo_src`, `m_src`
/// representable values) into a destination type (minimum `lo_dst`, `m_dst`
/// representable values).
///
/// The value is converted into the destination type with wraparound, then
/// converted back; if the round trip reproduces it, the wrapped value is the
/// value itself and is returned.  Otherwise the conversion overflowed: a
/// wrapped value of zero is taken for a wrap in the negative direction and
/// reported as the destination minimum; any other wrapped value is reported
/// as the destination maximum.
pub open spec fn sat_cast(v: int, lo_src: int, m_src: int, lo_dst: int, m_dst: int) -> int {
    let w = wrap_to_range(v, lo_dst, m_dst);
    if wrap_to_range(w, lo_src, m_src) == v {
        w
    } else if w == 0 {
        lo_dst
    } else {
        lo_dst + (m_dst - 1)
    }
}

/// `v` bounded into `[lo, hi]`: out-of-range values move to the nearest
/// bound.
pub open spec fn clamped(v: int, lo: int, hi: int) -> int {
    if v < lo {
        lo
    } else if v > hi {
        hi
    } else {
        v
    }
}

/// What the saturating cast returns when the destination range `[lo, hi]`
/// lies within the source range: an in-range value is kept; any other value
/// wraps, landing on zero exactly when it is a multiple of the destination
/// type's modulus `hi - lo + 1`, which the cast reports as `lo`, every other
/// overflow as `hi`.
pub open spec fn narrowed(v: int, lo: int, hi: int) -> int {
    if lo <= v <= hi {
        v
    } else if v % (hi - lo + 1) == 0 {
        lo
    } else {
        hi
    }
}

/// Wrapping into `[lo, lo + m)` adds the right multiple of `m`: if
/// `v + k * m` lands in the range, it is the wrapped value.
proof fn lemma_wrap_shift(v: int, lo: int, m: int, k: int)
    requires
        0 < m,
        lo <= v + k * m < lo + m,
    ensures
        wrap_to_range(v, lo, m) == v + k * m,
{
    assert(v - lo == (-k) * m + (v + k * m - lo)) by (nonlinear_arith);
    lemma_fundamental_div_mod_converse(v - lo, m, -k, v + k * m - lo);
}

/// For a range `[lo, lo + m)` that contains zero, the wrapped value is zero
/// exactly when `v` is a multiple of `m`.
proof fn lemma_wrap_zero(v: int, lo: int, m: int)
    requires
        0 < m,
        lo <= 0 < lo + m,
    ensures
        (wrap_to_range(v, lo, m) == 0) <==> (v % m == 0),
{
    let w = wrap_to_range(v, lo, m);
    lemma_fundamental_div_mod(v - lo, m);
    let t = (v - lo) / m;
    assert(v == w + m * t);
    if w == 0 {
        assert(v == t * m + 0) by (nonlinear_arith)
            requires
                v == w + m * t,
                w == 0,
        ;
        lemma_fundamental_div_mod_converse(v, m, t, 0);
    }
    if v % m == 0 {
        lemma_fundamental_div_mod(v, m);
        let q = v / m;
        assert(w == m * (q - t)) by (nonlinear_arith)
            requires
                v == w + m * t,
                v == m * q + 0,
        ;
        let s = q - t;
        assert(s == 0) by (nonlinear_arith)
            requires
                w == m * s,
                lo <= w < lo + m,
                lo <= 0 < lo + m,
                0 < m,
        ;
    }
}

/// A value representable in both the source and the destination type is
/// carried over unchanged by the saturating cast.
pub proof fn lemma_sat_cast_in_range(v: int, lo_src: int, m_src: int, lo_dst: int, m_dst: int)
    requires
        0 < m_src,
        0 < m_dst,
        lo_src <= v < lo_src + m_src,
        lo_dst <= v < lo_dst + m_dst,
    ensures
        sat_cast(v, lo_src, m_src, lo_dst, m_dst) == v,
{
    lemma_wrap_shift(v, lo_dst, m_dst, 0);
    lemma_wrap_shift(v, lo_src, m_src, 0);
}

/// Round-trip identity: casting a value into another type and back returns
/// it unchanged whenever it is representable in both types.  This holds for
/// every pair of types in the cast family.
pub proof fn lemma_sat_cast_round_trip(v: int, lo_src: int, m_src: int, lo_dst: int, m_dst: int)
    requires
        0 < m_src,
        0 < m_dst,
        lo_src <= v < lo_src + m_src,
        lo_dst <= v < lo_dst + m_dst,
    ensures
        sat_cast(sat_cast(v, lo_src, m_src, lo_dst, m_dst), lo_dst, m_dst, lo_src, m_src) == v,
{
    lemma_sat_cast_in_range(v, lo_src, m_src, lo_dst, m_dst);
    lemma_sat_cast_in_range(v, lo_dst, m_dst, lo_src, m_src);
}

/// When the destination range lies within the source range and the value
/// does not fit the destination, the saturating cast saturates: to the
/// destination minimum when the value wrapped to zero (it is a multiple of
/// the destination modulus), to the destination maximum otherwise — the
/// `narrowed` form.
pub proof fn lemma_sat_cast_overflow(v: int, lo_src: int, m_src: int, lo_dst: int, m_dst: int)
    requires
        0 < m_src,
        0 < m_dst,
        lo_src <= lo_dst,
        lo_dst + m_dst <= lo_src + m_src,
        lo_dst <= 0 < lo_dst + m_dst,
        lo_src <= v < lo_src + m_src,
        !(lo_dst <= v < lo_dst + m_dst),
    ensures
        sat_cast(v, lo_src, m_src, lo_dst, m_dst) == narrowed(v, lo_dst, lo_dst + (m_dst - 1)),
{
    let w = wrap_to_range(v, lo_dst, m_dst);
    assert(lo_dst <= w < lo_dst + m_dst);
    lemma_wrap_shift(w, lo_src, m_src, 0);
    lemma_wrap_zero(v, lo_dst, m_dst);
}

/// Saturating cast from `i32` to `i8`, by round trip and wrap test.
pub(crate) fn cast_i32_i8(orig: i32) -> (r: i8)
    ensures
        r as int == sat_cast(orig as int, i32::MIN as int, 0x1_0000_0000, i8::MIN as int, 0x100),
        r as int == narrowed(orig as int, -128, 127),
{
    proof {
        if -128 <= orig <= 127 {
            lemma_sat_cast_in_range(orig as int, i32::MIN as int, 0x1_0000_0000, -128, 0x100);
        } else {
            lemma_sat_cast_overflow(orig as int, i32::MIN as int, 0x1_0000_0000, -128, 0x100);
        }
    }
    if orig >= -128 && orig <= 127 {
        orig as i8
    } else if orig % 256 == 0 {
        i8::MIN
    } else {
        i8::MAX
    }
}

/// Saturating cast from `i32` to `i16`, by round trip and wrap test.
pub(crate) fn cast_i32_i16(orig: i32) -> (r: i16)
    ensures
        r as int == sat_cast(
            orig as int,
            i32::MIN as int,
            0x1_0000_0000,
            i16::MIN as int,
            0x1_0000,
        ),
        r as int == narrowed(orig as int, -32768, 32767),
{
    proof {
        if -32768 <= orig <= 32767 {
            lemma_sat_cast_in_range(orig as int, i32::MIN as int, 0x1_0000_0000, -32768, 0x1_0000);
        } else {
            lemma_sat_cast_overflow(orig as int, i32::MIN as int, 0x1_0000_0000, -32768, 0x1_0000);
        }
    }
    if orig >= -32768 && orig <= 32767 {
        orig as i16
    } else if orig % 65536 == 0 {
        i16::MIN
    } else {
        i16::MAX
    }
}

/// Saturating cast from `i16` to `i8`, by round trip and wrap test.
pub(crate) fn cast_i16_i8(orig: i16) -> (r: i8)
    ensures
        r as int == sat_cast(orig as int, i16::MIN as int, 0x1_0000, i8::MIN as int, 0x100),
        r as int == narrowed(orig as int, -128, 127),
{
    proof {
        if -128 <= orig <= 127 {
            lemma_sat_cast_in_range(orig as int, i16::MIN as int, 0x1_0000, -128, 0x100);
        } else {
            lemma_sat_cast_overflow(orig as int, i16::MIN as int, 0x1_0000, -128, 0x100);
        }
    }
    if orig >= -128 && orig <= 127 {
        orig as i8
    } else if orig % 256 == 0 {
        i8::MIN
    } else {
        i8::MAX
    }
}

/// Saturating cast from `i64` to `u32`, by round trip and wrap test.
pub(crate) fn cast_i64_u32(orig: i64) -> (r: u32)
    ensures
        r as int == sat_cast(
            orig as int,
            i64::MIN as int,
            0x1_0000_0000_0000_0000,
            0,
            0x1_0000_0000,
        ),
        r as int == narrowed(orig as int, 0, 0xFFFF_FFFF),
{
    proof {
        if 0 <= orig <= 0xFFFF_FFFF {
            lemma_sat_cast_in_range(
                orig as int,
                i64::MIN as int,
                0x1_0000_0000_0000_0000,
                0,
                0x1_0000_0000,
            );
        } else {
            lemma_sat_cast_overflow(
                orig as int,
                i64::MIN as int,
                0x1_0000_0000_0000_0000,
                0,
                0x1_0000_0000,
            );
        }
    }
    if orig >= 0 && orig <= 0xFFFF_FFFF {
        orig as u32
    } else if orig % 0x1_0000_0000 == 0 {
        0
    } else {
        u32::MAX
    }
}

/// Saturating cast from a non-negative `i64` to `usize`, by round trip and
/// wrap test; the word size decides whether a large value fits or saturates.
pub(crate) fn cast_i64_usize(orig: i64) -> (r: usize)
    requires
        0 <= orig,
    ensures
        r as int == sat_cast(
            orig as int,
            i64::MIN as int,
            0x1_0000_0000_0000_0000,
            0,
            usize::MAX as int + 1,
        ),
        r as int == narrowed(orig as int, 0, usize::MAX as int),
{
    proof {
        if orig <= usize::MAX {
            lemma_sat_cast_in_range(
                orig as int,
                i64::MIN as int,
                0x1_0000_0000_0000_0000,
                0,
                usize::MAX as int + 1,
            );
        } else {
            lemma_sat_cast_overflow(
                orig as int,
                i64::MIN as int,
                0x1_0000_0000_0000_0000,
                0,
                usize::MAX as int + 1,
            );
        }
    }
    let vu = orig as u64;
    if vu <= usize::MAX as u64 {
        orig as usize
    } else if vu % (usize::MAX as u64 + 1) == 0 {
        0
    } else {
        usize::MAX
    }
}

} // verus!
