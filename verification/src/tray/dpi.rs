//! Conversion from logical units to physical pixels.
use vstd::prelude::*;

verus! {

/// Pixels per inch at which one logical unit is one pixel.
pub const DEFAULT_DPI: u32 = 96;

/// The integer quotient of `n / d`, rounded towards zero.
pub open spec fn quotient(n: int, d: int) -> int {
    if n >= 0 {
        n / d
    } else {
        -((-n) / d)
    }
}

/// `n` reduced to the range of `i32`, modulo 2^32.
pub open spec fn wrap_i32(n: int) -> int {
    (n + 0x8000_0000) % 0x1_0000_0000 - 0x8000_0000
}

/// `dip` logical units in pixels at `dpi`, rounded to the nearest pixel
/// (halves upwards) where `dip` is not negative.
pub open spec fn scaled(dip: int, dpi: int) -> int {
    wrap_i32(quotient(dip * dpi + 48, 96))
}

/// The DPI that a window reports, or 96 where it cannot be asked or reports
/// zero.
pub fn dpi_for_window_or_default(reported: Option<u32>) -> (r: u32)
    ensures
        r == (match reported {
            Some(dpi) if dpi != 0 => dpi,
            _ => DEFAULT_DPI,
        }),
        r == usable_dpi(reported),
{
    match reported {
        Some(dpi) => if dpi == 0 {
            DEFAULT_DPI
        } else {
            dpi
        },
        None => DEFAULT_DPI,
    }
}

/// Converts `dip` logical units to physical pixels at `dpi`.
pub fn scale_for_dpi(dip: i32, dpi: u32) -> (r: i32)
    ensures
        r == scaled(dip as int, dpi as int),
{
    proof {
        assert(-0x8000_0000_0000_0000 <= dip * dpi <= 0x7FFF_FFFF_0000_0000) by (nonlinear_arith)
            requires
                -0x8000_0000 <= dip <= 0x7FFF_FFFF,
                0 <= dpi <= 0xFFFF_FFFF,
        ;
    }
    let n: i64 = dip as i64 * dpi as i64 + 48;
    let q: i64 = if n >= 0 {
        n / 96
    } else {
        let positive: u64 = (-(n + 1)) as u64 + 1;
        -((positive / 96) as i64)
    };
    assert(q == quotient(dip * dpi + 48, 96));
    let shifted: i128 = q as i128 + 0x8000_0000;
    let rem: i128 = if shifted >= 0 {
        shifted % 0x1_0000_0000
    } else {
        let back: i128 = (-shifted) % 0x1_0000_0000;
        if back == 0 {
            0
        } else {
            0x1_0000_0000 - back
        }
    };
    assert(rem == (q + 0x8000_0000) % 0x1_0000_0000);
    (rem - 0x8000_0000) as i32
}

/// A small length is never wrapped: the pixel count is exact and not
/// negative.
pub proof fn lemma_scaled_small(dip: int, dpi: int)
    requires
        0 <= dip <= 47,
        0 <= dpi <= u32::MAX,
    ensures
        scaled(dip, dpi) == (dip * dpi + 48) / 96,
        0 <= scaled(dip, dpi) <= dip * 0x2AA_AAAB,
{
    assert(0 <= dip * dpi <= dip * 0xFFFF_FFFF) by (nonlinear_arith)
        requires
            0 <= dip,
            0 <= dpi <= 0xFFFF_FFFF,
    ;
}

/// At 96 DPI a logical unit is a pixel, for lengths that are not negative.
pub proof fn scale_at_default_dpi_is_identity(dip: i32)
    requires
        0 <= dip,
    ensures
        scaled(dip as int, DEFAULT_DPI as int) == dip,
{
}

/// A length that is not negative becomes the nearest number of pixels, an
/// exact half going upwards, wherever that number fits in 32 bits.
pub proof fn scale_rounds_to_nearest(dip: int, dpi: int)
    requires
        0 <= dip,
        0 <= dpi,
        dip * dpi < 96 * 0x7FFF_FFFF,
    ensures
        -48 < 96 * scaled(dip, dpi) - dip * dpi <= 48,
{
    assert(0 <= dip * dpi) by (nonlinear_arith)
        requires
            0 <= dip,
            0 <= dpi,
    ;
}

/// A longer length never takes fewer pixels.
pub proof fn scale_is_monotone(a: int, b: int, dpi: int)
    requires
        0 <= a <= b,
        0 <= dpi,
        b * dpi < 96 * 0x7FFF_FFFF,
    ensures
        scaled(a, dpi) <= scaled(b, dpi),
{
    assert(0 <= a * dpi <= b * dpi) by (nonlinear_arith)
        requires
            0 <= a <= b,
            0 <= dpi,
    ;
}

/// The DPI to go by, given what a window reports.
pub open spec fn usable_dpi(reported: Option<u32>) -> u32 {
    match reported {
        Some(dpi) if dpi != 0 => dpi,
        _ => DEFAULT_DPI,
    }
}

/// A resolution that is reported is used unless it is nought, and without one a
/// unit is a pixel.
pub proof fn a_resolution_is_never_nought(reported: Option<u32>, dip: i32)
    ensures
        usable_dpi(reported) > 0,
        reported matches Some(dpi) ==> (dpi > 0 ==> usable_dpi(reported) == dpi),
        reported is None || reported == Some(0u32) ==> usable_dpi(reported) == 96,
        0 <= dip && (reported is None || reported == Some(0u32)) ==> scaled(
            dip as int,
            usable_dpi(reported) as int,
        ) == dip,
{
    if 0 <= dip {
        scale_at_default_dpi_is_identity(dip);
    }
}

/// Twice the resolution takes twice the pixels, to within one.
pub proof fn twice_the_resolution_takes_twice_the_pixels(dip: int, dpi: int)
    requires
        0 <= dip,
        0 <= dpi,
        2 * (dip * dpi) < 96 * 0x7FFF_FFFF,
    ensures
        -1 <= scaled(dip, 2 * dpi) - 2 * scaled(dip, dpi) <= 1,
{
    assert(dip * (2 * dpi) == 2 * (dip * dpi)) by (nonlinear_arith);
    assert(0 <= dip * dpi) by (nonlinear_arith)
        requires
            0 <= dip,
            0 <= dpi,
    ;
}

} // verus!
