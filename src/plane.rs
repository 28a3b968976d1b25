use vstd::prelude::*;
use vstd::arithmetic::power2::{lemma2_to64, lemma_pow2_strictly_increases, lemma_pow2_unfold, pow2};
use crate::rational::{div_round, Rounding};
use crate::swr::lemma_round_up_is_ceiling;

verus! {

/// Lines held by plane `plane` of a picture `height` lines high whose chroma
/// planes (1 and 2) are subsampled vertically by `2^log2_chroma_h`, rounding up.
pub open spec fn spec_plane_lines(height: int, log2_chroma_h: nat, plane: int) -> int {
    if plane == 1 || plane == 2 {
        div_round(height, pow2(log2_chroma_h) as int, Rounding::Up)
    } else {
        height
    }
}

/// The bytes of a plane of `lines` lines of `linesize` bytes; `None` for a
/// missing or bottom-up plane (a stride that is not positive), a negative line
/// count, or a size beyond `usize`.
pub open spec fn spec_plane_bytes(linesize: int, lines: int) -> Option<usize> {
    if linesize > 0 && lines >= 0 && linesize * lines <= usize::MAX {
        Some((linesize * lines) as usize)
    } else {
        None
    }
}

proof fn lemma_ceiling_within(h: int, d: int)
    requires
        h >= 0,
        d >= 1,
    ensures
        0 <= div_round(h, d, Rounding::Up) <= h,
        h < d ==> div_round(h, d, Rounding::Up) == (if h == 0 { 0int } else { 1int }),
{
    lemma_round_up_is_ceiling(h, d);
    let r = div_round(h, d, Rounding::Up);
    assert(0 <= r <= h) by (nonlinear_arith)
        requires r * d >= h, (r - 1) * d < h, h >= 0, d >= 1;
    if h < d {
        assert(r == (if h == 0 { 0int } else { 1int })) by (nonlinear_arith)
            requires r * d >= h, (r - 1) * d < h, 0 <= h < d, r >= 0;
    }
}

/// Lines in plane `plane` of a picture of `height` lines: the chroma planes
/// hold the height divided by the subsampling, rounded up.
pub fn plane_lines(height: i32, log2_chroma_h: u8, plane: usize) -> (r: i32)
    requires
        height >= 0,
    ensures
        r == spec_plane_lines(height as int, log2_chroma_h as nat, plane as int),
{
    if plane != 1 && plane != 2 {
        return height;
    }
    proof {
        lemma2_to64();
    }
    if log2_chroma_h > 31 {
        proof {
            lemma_pow2_strictly_increases(31, log2_chroma_h as nat);
            lemma_ceiling_within(height as int, pow2(log2_chroma_h as nat) as int);
        }
        return if height == 0 {
            0
        } else {
            1
        };
    }
    let mut d: i64 = 1;
    let mut i: u8 = 0;
    while i < log2_chroma_h
        invariant
            0 <= i <= log2_chroma_h <= 31,
            d == pow2(i as nat),
            pow2(31) == 0x8000_0000,
        decreases log2_chroma_h - i,
    {
        proof {
            lemma_pow2_unfold((i + 1) as nat);
            if i + 1 < 31 {
                lemma_pow2_strictly_increases((i + 1) as nat, 31);
            }
        }
        d = d * 2;
        i = i + 1;
    }
    proof {
        lemma_ceiling_within(height as int, d as int);
        lemma_round_up_is_ceiling(height as int, d as int);
    }
    let q: i64 = (height as i64 + d - 1) / d;
    proof {
        let h = height as int;
        let dd = d as int;
        vstd::arithmetic::div_mod::lemma_fundamental_div_mod(h + dd - 1, dd);
        let c = div_round(h, dd, Rounding::Up);
        assert(q as int == c) by (nonlinear_arith)
            requires
                h + dd - 1 == dd * (q as int) + (h + dd - 1) % dd,
                0 <= (h + dd - 1) % dd < dd,
                c * dd >= h,
                (c - 1) * dd < h,
                dd >= 1,
        ;
    }
    q as i32
}

/// Bytes of a plane of `lines` lines of `linesize` bytes each.
pub fn plane_bytes(linesize: i32, lines: i32) -> (r: Option<usize>)
    ensures
        r == spec_plane_bytes(linesize as int, lines as int),
{
    if linesize <= 0 || lines < 0 {
        return None;
    }
    proof {
        assert((linesize as int) * (lines as int) <= 0x4000_0000_0000_0000) by (nonlinear_arith)
            requires 0 < linesize <= i32::MAX, 0 <= lines <= i32::MAX;
    }
    let n: u64 = (linesize as u64) * (lines as u64);
    if n > usize::MAX as u64 {
        None
    } else {
        Some(n as usize)
    }
}

} // verus!
