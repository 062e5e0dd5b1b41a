//! Sizes: the power of two that a width is rounded up to when a frame is read
//! back, and the layout of the rows that are read.

use vstd::prelude::*;
use crate::texture::ImageDataLayout;

verus! {

/// The identity of a pipeline.
pub type PipelineID = usize;

/// Whether a number is a power of two.
pub open spec fn is_power_of_two(p: int) -> bool
    decreases p,
{
    if p <= 1 {
        p == 1
    } else {
        p % 2 == 0 && is_power_of_two(p / 2)
    }
}

/// The least power of two that is not less than `n`.
pub open spec fn least_power_of_two(n: int) -> int
    decreases n,
{
    if n <= 1 {
        1
    } else {
        2 * least_power_of_two((n + 1) / 2)
    }
}

/// The least power of two that is not less than `n` is a power of two, is
/// not less than `n`, and its half is less than `n` where `n` is more than one.
pub proof fn lemma_least_power_of_two(n: int)
    ensures
        is_power_of_two(least_power_of_two(n)),
        least_power_of_two(n) >= n,
        least_power_of_two(n) >= 1,
        n > 1 ==> least_power_of_two(n) / 2 < n,
    decreases n,
{
    if n > 1 {
        lemma_least_power_of_two((n + 1) / 2);
    }
}

/// The only power of two in `n..2n` is the least that is not less than `n`.
pub proof fn lemma_power_of_two_between(p: int, n: int)
    requires
        is_power_of_two(p),
        n >= 1,
        p >= n,
        p / 2 < n,
    ensures
        p == least_power_of_two(n),
    decreases p,
{
    if n <= 1 {
        if p > 1 {
            assert(p / 2 >= 1);
        }
    } else {
        assert(p > 1);
        lemma_power_of_two_between(p / 2, (n + 1) / 2);
    }
}

/// The least power of two that is not less than `n`; `0` where that power
/// does not fit in 32 bits.
pub open spec fn spec_next_pow2(n: u32) -> u32 {
    if n > 0x8000_0000 {
        0
    } else {
        least_power_of_two(n as int) as u32
    }
}

/// Rounds up to a power of two: the least that is not less than `n`. Above
/// `2^31` there is none in 32 bits, and the result is `0`.
pub fn next_pow2(n: u32) -> (p: u32)
    ensures
        p == spec_next_pow2(n),
        n <= 0x8000_0000 ==> p == least_power_of_two(n as int),
{
    if n <= 1 {
        return 1;
    }
    let ghost m: int = n - 1;
    let mut p: u32 = 2;
    let mut rest: u32 = n - 1;
    assert(rest >> 1 == rest / 2) by (bit_vector);
    rest = rest >> 1;
    assert(is_power_of_two(2)) by {
        reveal_with_fuel(is_power_of_two, 3);
    }
    while rest != 0
        invariant
            m == n - 1,
            1 <= m < 0x1_0000_0000,
            (p != 0 && is_power_of_two(p as int) && p >= 2 && rest == m / (p as int) && p / 2
                <= m) || (p == 0 && rest == 0 && m >= 0x8000_0000),
        decreases rest,
    {
        let ghost before = p;
        let ghost left = rest;
        assert(rest >> 1 == rest / 2) by (bit_vector);
        assert(p < 0x8000_0000 ==> p << 1 == 2 * p) by (bit_vector);
        assert(p == 0x8000_0000 ==> p << 1 == 0) by (bit_vector);
        proof {
            lemma_power_of_two_bound(p as int);
            let q = p as int;
            assert(m / q >= 1 ==> m >= q) by (nonlinear_arith)
                requires
                    q > 0,
                    m >= 0,
            ;
            assert((m / q) / 2 == m / (2 * q)) by (nonlinear_arith)
                requires
                    q > 0,
                    m >= 0,
            ;
            if p == 0x8000_0000 {
                assert(m / q <= 1) by (nonlinear_arith)
                    requires
                        q == 0x8000_0000,
                        0 <= m < 0x1_0000_0000,
                ;
            }
        }
        p = p << 1;
        rest = rest >> 1;
    }
    proof {
        if p != 0 {
            let q = p as int;
            assert(m < q) by (nonlinear_arith)
                requires
                    q > 0,
                    m >= 0,
                    m / q == 0,
            ;
            lemma_power_of_two_bound(q);
            lemma_power_of_two_between(q, n as int);
        }
    }
    p
}

/// A power of two below another is at most half of it.
pub proof fn lemma_power_of_two_below(p: int, bound: int)
    requires
        is_power_of_two(p),
        is_power_of_two(bound),
        p < bound,
    ensures
        2 * p <= bound,
    decreases p,
{
    if p > 1 {
        lemma_power_of_two_below(p / 2, bound / 2);
    }
}

/// `2^32` is a power of two.
pub proof fn lemma_two_to_the_32()
    ensures
        is_power_of_two(0x1_0000_0000),
{
    reveal_with_fuel(is_power_of_two, 34);
}

/// A power of two that fits in 32 bits is at most `2^31`.
pub proof fn lemma_power_of_two_bound(p: int)
    requires
        is_power_of_two(p),
        p < 0x1_0000_0000,
    ensures
        p <= 0x8000_0000,
        p > 0,
{
    lemma_two_to_the_32();
    lemma_power_of_two_below(p, 0x1_0000_0000);
}

/// Whether a window of this size can be drawn to: it has rows and columns.
pub open spec fn spec_accepts_size(width: u32, height: u32) -> bool {
    width != 0 && height != 0
}

/// Whether a window of this size can be drawn to. A resize to an empty
/// window is passed over.
#[verifier::when_used_as_spec(spec_accepts_size)]
pub fn accepts_size(width: u32, height: u32) -> (b: bool)
    ensures
        b == spec_accepts_size(width, height),
{
    !(width == 0 || height == 0)
}

/// The layout of the rows of a frame of the given size in the buffer that it
/// is read back to: width and height are rounded up to powers of two, and a
/// row takes four bytes for each of its pixels. There is none for a frame
/// without columns, and none where the rounded height or the bytes of a row
/// do not fit in 32 bits.
pub open spec fn spec_readback_layout(width: u32, height: u32) -> Option<ImageDataLayout> {
    if width == 0 || 4 * least_power_of_two(width as int) > u32::MAX || least_power_of_two(
        height as int,
    ) > u32::MAX {
        None
    } else {
        Some(
            ImageDataLayout {
                offset: 0,
                bytes_per_row: Some((4 * least_power_of_two(width as int)) as u32),
                rows_per_image: Some(least_power_of_two(height as int) as u32),
            },
        )
    }
}

/// The layout of the rows of a frame of the given size in the buffer that it
/// is read back to.
#[verifier::when_used_as_spec(spec_readback_layout)]
pub fn readback_layout(width: u32, height: u32) -> (layout: Option<ImageDataLayout>)
    ensures
        layout == spec_readback_layout(width, height),
{
    if width == 0 {
        return None;
    }
    proof {
        lemma_least_power_of_two(width as int);
        lemma_least_power_of_two(height as int);
        lemma_two_to_the_32();
        if least_power_of_two(height as int) < 0x1_0000_0000 {
            lemma_power_of_two_below(least_power_of_two(height as int), 0x1_0000_0000);
        }
        if least_power_of_two(width as int) < 0x1_0000_0000 {
            lemma_power_of_two_below(least_power_of_two(width as int), 0x1_0000_0000);
        }
    }
    let tex_width = next_pow2(width);
    let tex_height = next_pow2(height);
    if tex_width == 0 || tex_width > 0x3FFF_FFFF || tex_height == 0 {
        return None;
    }
    Some(
        ImageDataLayout {
            offset: 0,
            bytes_per_row: Some(4 * tex_width),
            rows_per_image: Some(tex_height),
        },
    )
}

} // verus!
