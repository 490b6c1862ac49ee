//! Size validation for the dense matrix-multiply binding.
//!
//! The multiply itself (`C := alpha * op(A) * op(B) + beta * C`) is done by
//! an external native routine under the established double-precision
//! general matrix-multiply calling convention; the routine works on
//! floating-point buffers, so the call itself stands outside this library.
//! What this library owns is the rule that guards it: a buffer may only be
//! handed to the routine when it is long enough for the dimensions
//! declared, since a shorter buffer would let the routine read or write
//! out of bounds. These functions decide that rule exactly, so the caller
//! can assert it before forwarding the buffers.

use vstd::prelude::*;

verus! {

/// A flat buffer of `len` cells can back a matrix walked with leading
/// dimension `ld` over `count` columns exactly when it holds at least
/// `ld * count` cells.
pub open spec fn buffer_fits(len: int, ld: int, count: int) -> bool {
    len >= ld * count
}

/// The buffers `a` (m×k, stride `lda`), `b` (k×n, stride `ldb`) and
/// `c` (m×n, stride `ldc`) are all long enough for the dimensions the
/// multiply declares.
pub open spec fn dgemm_dims_ok(
    a_len: int,
    b_len: int,
    c_len: int,
    n: int,
    k: int,
    lda: int,
    ldb: int,
    ldc: int,
) -> bool {
    &&& buffer_fits(a_len, lda, k)
    &&& buffer_fits(b_len, ldb, n)
    &&& buffer_fits(c_len, ldc, n)
}

/// Decide `buffer_fits` for a real buffer length and the two signed
/// 32-bit dimensions of the multiply's calling convention.
pub fn check_buffer_fits(len: usize, ld: i32, count: i32) -> (r: bool)
    ensures
        r == buffer_fits(len as int, ld as int, count as int),
{
    let ldw: i64 = ld as i64;
    let cw: i64 = count as i64;
    proof {
        assert(-0x4000_0000_0000_0000 <= ldw * cw <= 0x4000_0000_0000_0000) by (nonlinear_arith)
            requires
                -0x8000_0000 <= ldw <= 0x7fff_ffff,
                -0x8000_0000 <= cw <= 0x7fff_ffff,
        ;
    }
    let p: i64 = ldw * cw;
    if p <= 0 {
        true
    } else {
        len as u64 >= p as u64
    }
}

/// Decide `dgemm_dims_ok`: every buffer of the multiply is long enough
/// for the dimensions declared with it.
pub fn check_dgemm_dims(
    a_len: usize,
    b_len: usize,
    c_len: usize,
    n: i32,
    k: i32,
    lda: i32,
    ldb: i32,
    ldc: i32,
) -> (r: bool)
    ensures
        r == dgemm_dims_ok(
            a_len as int,
            b_len as int,
            c_len as int,
            n as int,
            k as int,
            lda as int,
            ldb as int,
            ldc as int,
        ),
{
    let fits_a = check_buffer_fits(a_len, lda, k);
    let fits_b = check_buffer_fits(b_len, ldb, n);
    let fits_c = check_buffer_fits(c_len, ldc, n);
    fits_a && fits_b && fits_c
}

} // verus!
